use vstd::prelude::*;

use crate::provider::WeatherProviderResponse;
use crate::types::{WeatherCondition, WeatherData};

verus! {

/// The condition a provider weather code stands for.  The table covers
/// the WMO present-weather codes the provider documents; every code
/// outside it falls back to `Cloudy`, the deliberately neutral choice
/// for an unrecognized sky.
pub open spec fn condition_for_code(code: int) -> WeatherCondition {
    if code == 0 {
        WeatherCondition::Clear
    } else if code == 1 {
        WeatherCondition::PartlyCloudy
    } else if code == 2 {
        WeatherCondition::Cloudy
    } else if code == 3 {
        WeatherCondition::Overcast
    } else if code == 45 || code == 48 {
        WeatherCondition::Fog
    } else if code == 51 || code == 53 || code == 55 {
        WeatherCondition::Drizzle
    } else if code == 56 || code == 57 || code == 66 || code == 67 {
        WeatherCondition::FreezingRain
    } else if code == 61 || code == 63 || code == 65 {
        WeatherCondition::Rain
    } else if code == 71 || code == 73 || code == 75 {
        WeatherCondition::Snow
    } else if code == 77 {
        WeatherCondition::SnowGrains
    } else if code == 80 || code == 81 || code == 82 {
        WeatherCondition::RainShowers
    } else if code == 85 || code == 86 {
        WeatherCondition::SnowShowers
    } else if code == 95 {
        WeatherCondition::Thunderstorm
    } else if code == 96 || code == 99 {
        WeatherCondition::ThunderstormHail
    } else {
        WeatherCondition::Cloudy
    }
}

/// The codes the mapping table lists explicitly.
pub open spec fn is_tabled_code(code: int) -> bool {
    ||| 0 <= code <= 3
    ||| code == 45 || code == 48
    ||| code == 51 || code == 53 || code == 55 || code == 56 || code == 57
    ||| code == 61 || code == 63 || code == 65 || code == 66 || code == 67
    ||| code == 71 || code == 73 || code == 75 || code == 77
    ||| code == 80 || code == 81 || code == 82 || code == 85 || code == 86
    ||| code == 95 || code == 96 || code == 99
}

/// Every code outside the table resolves to the documented fallback,
/// `Cloudy`: normalization never fails on an unrecognized weather code.
pub proof fn lemma_unrecognized_code_falls_back(code: int)
    requires
        !is_tabled_code(code),
    ensures
        condition_for_code(code) == WeatherCondition::Cloudy,
{
}

/// The pure transform from a raw provider response to the normalized
/// snapshot the rendering layer consumes.
pub struct WeatherNormalizer;

impl WeatherNormalizer {
    /// Resolves a provider weather code to its condition; total, with
    /// the documented `Cloudy` fallback for codes outside the table.
    pub fn map_condition(code: i32) -> (c: WeatherCondition)
        ensures
            c == condition_for_code(code as int),
    {
        match code {
            0 => WeatherCondition::Clear,
            1 => WeatherCondition::PartlyCloudy,
            2 => WeatherCondition::Cloudy,
            3 => WeatherCondition::Overcast,
            45 | 48 => WeatherCondition::Fog,
            51 | 53 | 55 => WeatherCondition::Drizzle,
            56 | 57 | 66 | 67 => WeatherCondition::FreezingRain,
            61 | 63 | 65 => WeatherCondition::Rain,
            71 | 73 | 75 => WeatherCondition::Snow,
            77 => WeatherCondition::SnowGrains,
            80 | 81 | 82 => WeatherCondition::RainShowers,
            85 | 86 => WeatherCondition::SnowShowers,
            95 => WeatherCondition::Thunderstorm,
            96 | 99 => WeatherCondition::ThunderstormHail,
            _ => WeatherCondition::Cloudy,
        }
    }

    /// Normalizes one response: the weather code resolves through the
    /// table, any nonzero day flag becomes `true`, and every other
    /// field passes through unchanged — including an absent visibility,
    /// which stays absent rather than turning into a reading of zero.
    pub fn normalize(response: &WeatherProviderResponse) -> (data: WeatherData)
        ensures
            data.condition == condition_for_code(response@.weather_code),
            data.is_day == (response@.is_day != 0),
            data.temperature@ == response@.temperature,
            data.apparent_temperature@ == response@.apparent_temperature,
            data.humidity@ == response@.humidity,
            data.precipitation@ == response@.precipitation,
            data.wind_speed@ == response@.wind_speed,
            data.wind_direction@ == response@.wind_direction,
            data.cloud_cover@ == response@.cloud_cover,
            data.pressure@ == response@.pressure,
            match (data.visibility, response@.visibility) {
                (Some(d), Some(r)) => d@ == r,
                (None, None) => true,
                _ => false,
            },
            data.timestamp@ == response@.timestamp,
    {
        WeatherData {
            condition: Self::map_condition(response.weather_code),
            temperature: response.temperature.clone(),
            apparent_temperature: response.apparent_temperature.clone(),
            humidity: response.humidity.clone(),
            precipitation: response.precipitation.clone(),
            wind_speed: response.wind_speed.clone(),
            wind_direction: response.wind_direction.clone(),
            cloud_cover: response.cloud_cover.clone(),
            pressure: response.pressure.clone(),
            visibility: match &response.visibility {
                Some(v) => Some(v.clone()),
                None => None,
            },
            is_day: response.is_day != 0,
            timestamp: response.timestamp.clone(),
        }
    }
}

} // verus!
