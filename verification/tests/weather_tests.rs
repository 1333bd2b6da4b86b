use weathr::normalizer::WeatherNormalizer;
use weathr::open_meteo::{decode_response, parse_fetch_response, OpenMeteoProvider};
use weathr::provider::{DecodeError, FetchError, WeatherProviderResponse};
use weathr::types::{
    PrecipitationUnit, TemperatureUnit, WeatherCondition, WeatherLocation, WeatherUnits,
    WindSpeedUnit,
};

#[test]
fn test_unit_conversion_params() {
    assert_eq!(
        OpenMeteoProvider::temperature_unit_param(&TemperatureUnit::Celsius),
        "celsius"
    );
    assert_eq!(
        OpenMeteoProvider::temperature_unit_param(&TemperatureUnit::Fahrenheit),
        "fahrenheit"
    );
    assert_eq!(
        OpenMeteoProvider::wind_speed_unit_param(&WindSpeedUnit::Kmh),
        "kmh"
    );
    assert_eq!(
        OpenMeteoProvider::wind_speed_unit_param(&WindSpeedUnit::Ms),
        "ms"
    );
    assert_eq!(
        OpenMeteoProvider::precipitation_unit_param(&PrecipitationUnit::Mm),
        "mm"
    );
}

#[test]
fn test_unit_params_cover_every_variant() {
    assert_eq!(
        OpenMeteoProvider::wind_speed_unit_param(&WindSpeedUnit::Mph),
        "mph"
    );
    assert_eq!(
        OpenMeteoProvider::wind_speed_unit_param(&WindSpeedUnit::Kn),
        "kn"
    );
    assert_eq!(
        OpenMeteoProvider::precipitation_unit_param(&PrecipitationUnit::Inch),
        "inch"
    );
}

#[test]
fn test_units_default_is_metric() {
    let units = WeatherUnits::default();
    assert_eq!(units.temperature, TemperatureUnit::Celsius);
    assert_eq!(units.wind_speed, WindSpeedUnit::Kmh);
    assert_eq!(units.precipitation, PrecipitationUnit::Mm);
}

#[test]
fn test_provider_name() {
    let provider = OpenMeteoProvider::new();
    assert_eq!(provider.get_name(), "Open-Meteo");
}

fn berlin() -> WeatherLocation {
    WeatherLocation {
        latitude: (52.52f64).to_string(),
        longitude: (13.41f64).to_string(),
        elevation: None,
    }
}

#[test]
fn test_request_url_omits_absent_elevation() {
    let provider = OpenMeteoProvider::new();
    let url = provider.build_request_url(&berlin(), &WeatherUnits::default());
    assert!(!url.contains("elevation"));
    assert_eq!(
        url,
        "https://api.open-meteo.com/v1/forecast?latitude=52.52&longitude=13.41\
         &current=temperature_2m%2Crelative_humidity_2m%2Capparent_temperature%2Cis_day\
         %2Cprecipitation%2Cweather_code%2Ccloud_cover%2Csurface_pressure%2Cwind_speed_10m\
         %2Cwind_direction_10m%2Cvisibility\
         &temperature_unit=celsius&wind_speed_unit=kmh&precipitation_unit=mm"
    );
}

#[test]
fn test_request_url_includes_present_elevation() {
    let provider = OpenMeteoProvider::new();
    let location = WeatherLocation {
        elevation: Some((120.0f64).to_string()),
        ..berlin()
    };
    let url = provider.build_request_url(&location, &WeatherUnits::default());
    assert!(url.ends_with("&elevation=120"));
}

#[test]
fn test_request_url_carries_chosen_units() {
    let provider = OpenMeteoProvider::new();
    let units = WeatherUnits {
        temperature: TemperatureUnit::Fahrenheit,
        wind_speed: WindSpeedUnit::Mph,
        precipitation: PrecipitationUnit::Inch,
    };
    let url = provider.build_request_url(&berlin(), &units);
    assert!(url.contains("temperature_unit=fahrenheit"));
    assert!(url.contains("wind_speed_unit=mph"));
    assert!(url.contains("precipitation_unit=inch"));
}

fn fixture_body() -> String {
    "{\"current\": {\"temperature_2m\": 21.5, \"relative_humidity_2m\": 60, \
     \"apparent_temperature\": 20.0, \"is_day\": 1, \"precipitation\": 0.0, \
     \"weather_code\": 3, \"cloud_cover\": 40, \"surface_pressure\": 1013.2, \
     \"wind_speed_10m\": 12.0, \"wind_direction_10m\": 180, \
     \"time\": \"2024-01-01T12:00\"}}"
        .to_string()
}

#[test]
fn test_decode_fixture_round_trip() {
    let response = decode_response(&fixture_body()).unwrap();
    assert_eq!(response.weather_code, 3);
    assert_eq!(response.visibility, None);
    assert_eq!(response.timestamp, "2024-01-01T12:00");
    assert_eq!(response.temperature, "21.5");
    assert_eq!(response.humidity, "60");
    assert_eq!(response.apparent_temperature, "20.0");
    assert_eq!(response.precipitation, "0.0");
    assert_eq!(response.cloud_cover, "40");
    assert_eq!(response.pressure, "1013.2");
    assert_eq!(response.wind_speed, "12.0");
    assert_eq!(response.wind_direction, "180");
    assert_eq!(response.is_day, 1);
}

#[test]
fn test_normalize_fixture() {
    let response = decode_response(&fixture_body()).unwrap();
    let data = WeatherNormalizer::normalize(&response);
    assert!(data.is_day);
    assert_eq!(data.condition, WeatherCondition::Overcast);
    assert_eq!(data.temperature, "21.5");
    assert_eq!(data.visibility, None);
}

fn sample_response(weather_code: i32, is_day: i32) -> WeatherProviderResponse {
    WeatherProviderResponse {
        weather_code,
        temperature: "21.5".to_string(),
        apparent_temperature: "20.0".to_string(),
        humidity: "60".to_string(),
        precipitation: "0.0".to_string(),
        wind_speed: "12.0".to_string(),
        wind_direction: "180".to_string(),
        cloud_cover: "40".to_string(),
        pressure: "1013.2".to_string(),
        visibility: Some("10000".to_string()),
        is_day,
        timestamp: "2024-01-01T12:00".to_string(),
    }
}

#[test]
fn test_normalize_is_day_zero_is_night() {
    let data = WeatherNormalizer::normalize(&sample_response(0, 0));
    assert!(!data.is_day);
}

#[test]
fn test_normalize_is_day_nonzero_is_day() {
    assert!(WeatherNormalizer::normalize(&sample_response(0, 1)).is_day);
    assert!(WeatherNormalizer::normalize(&sample_response(0, 2)).is_day);
}

#[test]
fn test_normalize_unrecognized_code_falls_back() {
    let data = WeatherNormalizer::normalize(&sample_response(9999, 1));
    assert_eq!(data.condition, WeatherCondition::Cloudy);
}

#[test]
fn test_normalize_keeps_present_visibility() {
    let data = WeatherNormalizer::normalize(&sample_response(0, 1));
    assert_eq!(data.visibility, Some("10000".to_string()));
}

#[test]
fn test_condition_table_entries() {
    assert_eq!(
        WeatherNormalizer::map_condition(0),
        WeatherCondition::Clear
    );
    assert_eq!(
        WeatherNormalizer::map_condition(1),
        WeatherCondition::PartlyCloudy
    );
    assert_eq!(
        WeatherNormalizer::map_condition(2),
        WeatherCondition::Cloudy
    );
    assert_eq!(
        WeatherNormalizer::map_condition(3),
        WeatherCondition::Overcast
    );
    assert_eq!(WeatherNormalizer::map_condition(45), WeatherCondition::Fog);
    assert_eq!(
        WeatherNormalizer::map_condition(53),
        WeatherCondition::Drizzle
    );
    assert_eq!(
        WeatherNormalizer::map_condition(57),
        WeatherCondition::FreezingRain
    );
    assert_eq!(
        WeatherNormalizer::map_condition(63),
        WeatherCondition::Rain
    );
    assert_eq!(
        WeatherNormalizer::map_condition(66),
        WeatherCondition::FreezingRain
    );
    assert_eq!(
        WeatherNormalizer::map_condition(73),
        WeatherCondition::Snow
    );
    assert_eq!(
        WeatherNormalizer::map_condition(77),
        WeatherCondition::SnowGrains
    );
    assert_eq!(
        WeatherNormalizer::map_condition(81),
        WeatherCondition::RainShowers
    );
    assert_eq!(
        WeatherNormalizer::map_condition(86),
        WeatherCondition::SnowShowers
    );
    assert_eq!(
        WeatherNormalizer::map_condition(95),
        WeatherCondition::Thunderstorm
    );
    assert_eq!(
        WeatherNormalizer::map_condition(99),
        WeatherCondition::ThunderstormHail
    );
}

#[test]
fn test_decode_missing_required_field_fails() {
    let body = fixture_body().replace("\"temperature_2m\": 21.5, ", "");
    let result = decode_response(&body);
    assert_eq!(result, Err(DecodeError::MissingField));
}

#[test]
fn test_fetch_decode_error_is_not_a_panic() {
    let body = fixture_body().replace("\"temperature_2m\": 21.5, ", "");
    let result = parse_fetch_response(&body);
    assert_eq!(
        result,
        Err(FetchError::Decode(DecodeError::MissingField))
    );
}

#[test]
fn test_decode_non_json_body_fails() {
    let result = decode_response("not json at all");
    assert_eq!(result, Err(DecodeError::Syntax));
}

#[test]
fn test_decode_missing_current_fails() {
    let result = decode_response("{\"latitude\": 52.52}");
    assert_eq!(result, Err(DecodeError::MissingField));
}

#[test]
fn test_decode_wrong_type_fails() {
    let body = fixture_body().replace("21.5", "\"21.5\"");
    let result = decode_response(&body);
    assert_eq!(result, Err(DecodeError::WrongType));
}

#[test]
fn test_decode_fractional_integer_field_fails() {
    let body = fixture_body().replace("\"is_day\": 1", "\"is_day\": 1.5");
    let result = decode_response(&body);
    assert_eq!(result, Err(DecodeError::WrongType));
}

#[test]
fn test_decode_out_of_range_weather_code_fails() {
    let body = fixture_body().replace("\"weather_code\": 3", "\"weather_code\": 2147483648");
    let result = decode_response(&body);
    assert_eq!(result, Err(DecodeError::WrongType));
}

#[test]
fn test_decode_duplicate_field_fails() {
    let body = fixture_body().replace(
        "\"is_day\": 1",
        "\"is_day\": 1, \"is_day\": 0",
    );
    let result = decode_response(&body);
    assert_eq!(result, Err(DecodeError::DuplicateField));
}

#[test]
fn test_decode_trailing_characters_fail() {
    let mut body = fixture_body();
    body.push_str(" extra");
    let result = decode_response(&body);
    assert_eq!(result, Err(DecodeError::TrailingCharacters));
}

#[test]
fn test_decode_null_visibility_is_absent() {
    let body = fixture_body().replace(
        "\"is_day\": 1",
        "\"is_day\": 1, \"visibility\": null",
    );
    let response = decode_response(&body).unwrap();
    assert_eq!(response.visibility, None);
}

#[test]
fn test_decode_numeric_visibility_is_kept() {
    let body = fixture_body().replace(
        "\"is_day\": 1",
        "\"is_day\": 1, \"visibility\": 24140.0",
    );
    let response = decode_response(&body).unwrap();
    assert_eq!(response.visibility, Some("24140.0".to_string()));
}

#[test]
fn test_decode_skips_unknown_members() {
    let body = "{\"latitude\": 52.52, \"generationtime_ms\": 0.03, \
     \"current_units\": {\"temperature_2m\": \"\\u00b0C\", \"interval\": [60, {\"a\": 1}]}, \
     \"current\": {\"temperature_2m\": 21.5, \"relative_humidity_2m\": 60, \
     \"apparent_temperature\": 20.0, \"is_day\": 1, \"precipitation\": 0.0, \
     \"weather_code\": 3, \"cloud_cover\": 40, \"surface_pressure\": 1013.2, \
     \"wind_speed_10m\": 12.0, \"wind_direction_10m\": 180, \"extra\": true, \
     \"time\": \"2024-01-01T12:00\"}, \"elevation\": 38.0}";
    let response = decode_response(body).unwrap();
    assert_eq!(response.weather_code, 3);
    assert_eq!(response.timestamp, "2024-01-01T12:00");
}

#[test]
fn test_decode_negative_integer_fields() {
    let body = fixture_body().replace("\"weather_code\": 3", "\"weather_code\": -3");
    let response = decode_response(&body).unwrap();
    assert_eq!(response.weather_code, -3);
}

#[test]
fn test_query_encoding_space_and_reserved_characters() {
    // The URL builder serializes every pair in the form-urlencoded style,
    // whatever text the coordinates carry.
    let provider = OpenMeteoProvider::new();
    let location = WeatherLocation {
        latitude: "a b".to_string(),
        longitude: "a/b".to_string(),
        elevation: None,
    };
    let url = provider.build_request_url(&location, &WeatherUnits::default());
    assert!(url.contains("latitude=a+b"));
    assert!(url.contains("longitude=a%2Fb"));
}

#[test]
fn test_decode_skips_null_and_false_members() {
    let body = fixture_body().replace(
        "\"is_day\": 1",
        "\"is_day\": 1, \"spare\": null, \"flag\": false",
    );
    let response = decode_response(&body).unwrap();
    assert_eq!(response.is_day, 1);
}

#[test]
fn test_default_provider_builds_same_urls() {
    let a = OpenMeteoProvider::new();
    let b = OpenMeteoProvider::default();
    let units = WeatherUnits::default();
    assert_eq!(
        a.build_request_url(&berlin(), &units),
        b.build_request_url(&berlin(), &units)
    );
}
