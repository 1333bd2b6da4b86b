use vstd::prelude::*;
use vstd::string::*;

use crate::json::{is_number_start, is_value_start, lemma_skip_value_bounds, lemma_skip_ws_bounds,
    lemma_string_end_bounds, number_end, parse_i32_text, skip_value, skip_ws, spec_number_end,
    spec_parse_i32, spec_skip_value, spec_skip_ws, spec_string_end, str_eq, string_end};
use crate::provider::{DecodeError, FetchError, ResponseModel, WeatherProviderResponse};
use crate::types::{LocationModel, PrecipitationUnit, TemperatureUnit, WeatherLocation,
    WeatherUnits, WindSpeedUnit};
use crate::urlenc::{append_query_pair, query_pair};

verus! {

/// The wire token of a temperature unit.
pub open spec fn temperature_unit_token(unit: TemperatureUnit) -> Seq<char> {
    match unit {
        TemperatureUnit::Celsius => "celsius"@,
        TemperatureUnit::Fahrenheit => "fahrenheit"@,
    }
}

/// The wire token of a wind-speed unit.
pub open spec fn wind_speed_unit_token(unit: WindSpeedUnit) -> Seq<char> {
    match unit {
        WindSpeedUnit::Kmh => "kmh"@,
        WindSpeedUnit::Ms => "ms"@,
        WindSpeedUnit::Mph => "mph"@,
        WindSpeedUnit::Kn => "kn"@,
    }
}

/// The wire token of a precipitation unit.
pub open spec fn precipitation_unit_token(unit: PrecipitationUnit) -> Seq<char> {
    match unit {
        PrecipitationUnit::Mm => "mm"@,
        PrecipitationUnit::Inch => "inch"@,
    }
}

/// Every temperature unit maps to one of the two documented tokens.
pub proof fn lemma_temperature_unit_token_documented(unit: TemperatureUnit)
    ensures
        temperature_unit_token(unit) == "celsius"@ || temperature_unit_token(unit)
            == "fahrenheit"@,
{
}

/// Every wind-speed unit maps to one of the four documented tokens.
pub proof fn lemma_wind_speed_unit_token_documented(unit: WindSpeedUnit)
    ensures
        wind_speed_unit_token(unit) == "kmh"@ || wind_speed_unit_token(unit) == "ms"@
            || wind_speed_unit_token(unit) == "mph"@ || wind_speed_unit_token(unit) == "kn"@,
{
}

/// Every precipitation unit maps to one of the two documented tokens.
pub proof fn lemma_precipitation_unit_token_documented(unit: PrecipitationUnit)
    ensures
        precipitation_unit_token(unit) == "mm"@ || precipitation_unit_token(unit) == "inch"@,
{
}

/// The comma-joined list of the eleven current-weather fields every
/// request asks for.
pub open spec fn current_fields_list() -> Seq<char> {
    "temperature_2m,relative_humidity_2m,apparent_temperature,is_day,precipitation,weather_code,cloud_cover,surface_pressure,wind_speed_10m,wind_direction_10m,visibility"@
}

/// The full request URL: the base, then the query pairs in their fixed
/// order, with the `elevation` pair present exactly when the location
/// carries an elevation.
pub open spec fn request_url_model(base: Seq<char>, loc: LocationModel, units: WeatherUnits) -> Seq<
    char,
> {
    let head = base + "?"@ + query_pair("latitude"@, loc.latitude) + "&"@ + query_pair(
        "longitude"@,
        loc.longitude,
    ) + "&"@ + query_pair("current"@, current_fields_list()) + "&"@ + query_pair(
        "temperature_unit"@,
        temperature_unit_token(units.temperature),
    ) + "&"@ + query_pair("wind_speed_unit"@, wind_speed_unit_token(units.wind_speed)) + "&"@
        + query_pair("precipitation_unit"@, precipitation_unit_token(units.precipitation));
    match loc.elevation {
        Some(e) => head + "&"@ + query_pair("elevation"@, e),
        None => head,
    }
}

/// The concrete provider against the Open-Meteo forecast API.  It holds
/// the fixed base URL; the network client that sends the request lives
/// with the caller, outside the library.
pub struct OpenMeteoProvider {
    base_url: String,
}

impl OpenMeteoProvider {
    /// The base URL the provider was constructed with.
    pub closed spec fn base_url_model(&self) -> Seq<char> {
        self.base_url@
    }

    /// A provider pointed at the public Open-Meteo forecast endpoint.
    pub fn new() -> (provider: Self)
        ensures
            provider.base_url_model() == "https://api.open-meteo.com/v1/forecast"@,
    {
        OpenMeteoProvider { base_url: String::from_str("https://api.open-meteo.com/v1/forecast") }
    }

    /// Diagnostic identifier of this provider.
    pub fn get_name(&self) -> (name: &'static str)
        ensures
            name@ == "Open-Meteo"@,
    {
        "Open-Meteo"
    }

    /// The wire token of a temperature unit: a total map over the
    /// closed enumeration.
    pub fn temperature_unit_param(unit: &TemperatureUnit) -> (param: &'static str)
        ensures
            param@ == temperature_unit_token(*unit),
    {
        match unit {
            TemperatureUnit::Celsius => "celsius",
            TemperatureUnit::Fahrenheit => "fahrenheit",
        }
    }

    /// The wire token of a wind-speed unit: a total map over the closed
    /// enumeration.
    pub fn wind_speed_unit_param(unit: &WindSpeedUnit) -> (param: &'static str)
        ensures
            param@ == wind_speed_unit_token(*unit),
    {
        match unit {
            WindSpeedUnit::Kmh => "kmh",
            WindSpeedUnit::Ms => "ms",
            WindSpeedUnit::Mph => "mph",
            WindSpeedUnit::Kn => "kn",
        }
    }

    /// The wire token of a precipitation unit: a total map over the
    /// closed enumeration.
    pub fn precipitation_unit_param(unit: &PrecipitationUnit) -> (param: &'static str)
        ensures
            param@ == precipitation_unit_token(*unit),
    {
        match unit {
            PrecipitationUnit::Mm => "mm",
            PrecipitationUnit::Inch => "inch",
        }
    }

    /// Builds the request URL for one fetch: base URL, `?`, then the
    /// pairs `latitude`, `longitude`, `current`, `temperature_unit`,
    /// `wind_speed_unit`, `precipitation_unit`, and — only when the
    /// location carries one — `elevation`, joined with `&`.
    pub fn build_request_url(&self, location: &WeatherLocation, units: &WeatherUnits) -> (url:
        String)
        ensures
            url@ == request_url_model(self.base_url_model(), location@, *units),
    {
        let mut url = self.base_url.clone();
        url.append("?");
        append_query_pair(&mut url, "latitude", location.latitude.as_str());
        url.append("&");
        append_query_pair(&mut url, "longitude", location.longitude.as_str());
        url.append("&");
        append_query_pair(
            &mut url,
            "current",
            "temperature_2m,relative_humidity_2m,apparent_temperature,is_day,precipitation,weather_code,cloud_cover,surface_pressure,wind_speed_10m,wind_direction_10m,visibility",
        );
        url.append("&");
        append_query_pair(
            &mut url,
            "temperature_unit",
            Self::temperature_unit_param(&units.temperature),
        );
        url.append("&");
        append_query_pair(&mut url, "wind_speed_unit", Self::wind_speed_unit_param(&units.wind_speed));
        url.append("&");
        append_query_pair(
            &mut url,
            "precipitation_unit",
            Self::precipitation_unit_param(&units.precipitation),
        );
        if let Some(elevation) = &location.elevation {
            url.append("&");
            append_query_pair(&mut url, "elevation", elevation.as_str());
        }
        url
    }
}

// ---------------------------------------------------------------------
// Decoding the response body.
//
// The expected body is a JSON object with a member `current` holding the
// eleven requested fields; every other member, at either level, is
// skipped.  The specification functions below walk the members exactly
// as the decoder does and fix which body yields which response — or
// which error.
/// The members of `current` gathered so far while walking the object.
pub struct CurrentSlots {
    pub time: Option<Seq<char>>,
    pub temperature_2m: Option<Seq<char>>,
    pub relative_humidity_2m: Option<Seq<char>>,
    pub apparent_temperature: Option<Seq<char>>,
    pub is_day: Option<int>,
    pub precipitation: Option<Seq<char>>,
    pub weather_code: Option<int>,
    pub cloud_cover: Option<Seq<char>>,
    pub surface_pressure: Option<Seq<char>>,
    pub wind_speed_10m: Option<Seq<char>>,
    pub wind_direction_10m: Option<Seq<char>>,
    pub visibility: Option<Option<Seq<char>>>,
}

/// No member seen yet.
pub open spec fn empty_slots() -> CurrentSlots {
    CurrentSlots {
        time: None,
        temperature_2m: None,
        relative_humidity_2m: None,
        apparent_temperature: None,
        is_day: None,
        precipitation: None,
        weather_code: None,
        cloud_cover: None,
        surface_pressure: None,
        wind_speed_10m: None,
        wind_direction_10m: None,
        visibility: None,
    }
}

/// A member value that must be a number: its token and the position
/// after it.  A value of another type is a `WrongType`; anything that
/// opens no value at all is a `Syntax` error.
pub open spec fn spec_number_value(s: Seq<char>, v: int) -> Result<(Seq<char>, int), DecodeError> {
    if v >= s.len() {
        Err(DecodeError::Syntax)
    } else if is_number_start(s[v]) {
        let e = spec_number_end(s, v);
        Ok((s.subrange(v, e), e))
    } else if is_value_start(s[v]) {
        Err(DecodeError::WrongType)
    } else {
        Err(DecodeError::Syntax)
    }
}

/// A member value that must be a string: its raw content — escape
/// sequences carried as written — and the position after it.
pub open spec fn spec_string_value(s: Seq<char>, v: int) -> Result<(Seq<char>, int), DecodeError> {
    if v >= s.len() {
        Err(DecodeError::Syntax)
    } else if s[v] == '"' {
        match spec_string_end(s, v + 1) {
            Some(e) => Ok((s.subrange(v + 1, e - 1), e)),
            None => Err(DecodeError::Syntax),
        }
    } else if is_value_start(s[v]) {
        Err(DecodeError::WrongType)
    } else {
        Err(DecodeError::Syntax)
    }
}

/// One member of the `current` object: how the value at `v` under the
/// given key changes the slots, and where the value ends.  A known key
/// seen twice is a `DuplicateField`; an unknown key has its value
/// skipped unparsed.
pub open spec fn spec_current_field(s: Seq<char>, v: int, key: Seq<char>, acc: CurrentSlots) -> Result<
    (CurrentSlots, int),
    DecodeError,
> {
    if key == "time"@ {
        if acc.time is Some {
            Err(DecodeError::DuplicateField)
        } else {
            match spec_string_value(s, v) {
                Ok((content, e)) => Ok((CurrentSlots { time: Some(content), ..acc }, e)),
                Err(err) => Err(err),
            }
        }
    } else if key == "temperature_2m"@ {
        if acc.temperature_2m is Some {
            Err(DecodeError::DuplicateField)
        } else {
            match spec_number_value(s, v) {
                Ok((tok, e)) => Ok((CurrentSlots { temperature_2m: Some(tok), ..acc }, e)),
                Err(err) => Err(err),
            }
        }
    } else if key == "relative_humidity_2m"@ {
        if acc.relative_humidity_2m is Some {
            Err(DecodeError::DuplicateField)
        } else {
            match spec_number_value(s, v) {
                Ok((tok, e)) => Ok((CurrentSlots { relative_humidity_2m: Some(tok), ..acc }, e)),
                Err(err) => Err(err),
            }
        }
    } else if key == "apparent_temperature"@ {
        if acc.apparent_temperature is Some {
            Err(DecodeError::DuplicateField)
        } else {
            match spec_number_value(s, v) {
                Ok((tok, e)) => Ok((CurrentSlots { apparent_temperature: Some(tok), ..acc }, e)),
                Err(err) => Err(err),
            }
        }
    } else if key == "is_day"@ {
        if acc.is_day is Some {
            Err(DecodeError::DuplicateField)
        } else {
            match spec_number_value(s, v) {
                Ok((tok, e)) => match spec_parse_i32(tok) {
                    Some(val) => Ok((CurrentSlots { is_day: Some(val), ..acc }, e)),
                    None => Err(DecodeError::WrongType),
                },
                Err(err) => Err(err),
            }
        }
    } else if key == "precipitation"@ {
        if acc.precipitation is Some {
            Err(DecodeError::DuplicateField)
        } else {
            match spec_number_value(s, v) {
                Ok((tok, e)) => Ok((CurrentSlots { precipitation: Some(tok), ..acc }, e)),
                Err(err) => Err(err),
            }
        }
    } else if key == "weather_code"@ {
        if acc.weather_code is Some {
            Err(DecodeError::DuplicateField)
        } else {
            match spec_number_value(s, v) {
                Ok((tok, e)) => match spec_parse_i32(tok) {
                    Some(val) => Ok((CurrentSlots { weather_code: Some(val), ..acc }, e)),
                    None => Err(DecodeError::WrongType),
                },
                Err(err) => Err(err),
            }
        }
    } else if key == "cloud_cover"@ {
        if acc.cloud_cover is Some {
            Err(DecodeError::DuplicateField)
        } else {
            match spec_number_value(s, v) {
                Ok((tok, e)) => Ok((CurrentSlots { cloud_cover: Some(tok), ..acc }, e)),
                Err(err) => Err(err),
            }
        }
    } else if key == "surface_pressure"@ {
        if acc.surface_pressure is Some {
            Err(DecodeError::DuplicateField)
        } else {
            match spec_number_value(s, v) {
                Ok((tok, e)) => Ok((CurrentSlots { surface_pressure: Some(tok), ..acc }, e)),
                Err(err) => Err(err),
            }
        }
    } else if key == "wind_speed_10m"@ {
        if acc.wind_speed_10m is Some {
            Err(DecodeError::DuplicateField)
        } else {
            match spec_number_value(s, v) {
                Ok((tok, e)) => Ok((CurrentSlots { wind_speed_10m: Some(tok), ..acc }, e)),
                Err(err) => Err(err),
            }
        }
    } else if key == "wind_direction_10m"@ {
        if acc.wind_direction_10m is Some {
            Err(DecodeError::DuplicateField)
        } else {
            match spec_number_value(s, v) {
                Ok((tok, e)) => Ok((CurrentSlots { wind_direction_10m: Some(tok), ..acc }, e)),
                Err(err) => Err(err),
            }
        }
    } else if key == "visibility"@ {
        if acc.visibility is Some {
            Err(DecodeError::DuplicateField)
        } else if v >= s.len() {
            Err(DecodeError::Syntax)
        } else if s[v] == 'n' {
            if v + 4 <= s.len() && s[v + 1] == 'u' && s[v + 2] == 'l' && s[v + 3] == 'l' {
                Ok((CurrentSlots { visibility: Some(None), ..acc }, v + 4))
            } else {
                Err(DecodeError::Syntax)
            }
        } else if is_number_start(s[v]) {
            let e = spec_number_end(s, v);
            Ok((CurrentSlots { visibility: Some(Some(s.subrange(v, e))), ..acc }, e))
        } else if is_value_start(s[v]) {
            Err(DecodeError::WrongType)
        } else {
            Err(DecodeError::Syntax)
        }
    } else {
        match spec_skip_value(s, v) {
            Some(e) => Ok((acc, e)),
            None => Err(DecodeError::Syntax),
        }
    }
}

pub proof fn lemma_current_field_bounds(s: Seq<char>, v: int, key: Seq<char>, acc: CurrentSlots)
    requires
        0 <= v <= s.len(),
    ensures
        spec_current_field(s, v, key, acc) matches Ok(p) ==> v < p.1 <= s.len(),
{
    if v < s.len() {
        lemma_string_end_bounds(s, v + 1);
        crate::json::lemma_number_end_bounds(s, v);
        lemma_skip_value_bounds(s, v);
    }
}

/// The walk over the members of the `current` object, from just after
/// its opening brace (or a comma when `first` is false), to its closing
/// brace.
pub open spec fn spec_current_members(
    s: Seq<char>,
    i: int,
    first: bool,
    acc: CurrentSlots,
) -> Result<(CurrentSlots, int), DecodeError>
    decreases s.len() - i,
    when 0 <= i <= s.len()
    via spec_current_members_decreases
{
    let j = spec_skip_ws(s, i);
    if j >= s.len() {
        Err(DecodeError::Syntax)
    } else if s[j] == '}' {
        if first {
            Ok((acc, j + 1))
        } else {
            Err(DecodeError::Syntax)
        }
    } else if s[j] == '"' {
        match spec_string_end(s, j + 1) {
            None => Err(DecodeError::Syntax),
            Some(ke) => {
                let key = s.subrange(j + 1, ke - 1);
                let c = spec_skip_ws(s, ke);
                if c >= s.len() || s[c] != ':' {
                    Err(DecodeError::Syntax)
                } else {
                    let v = spec_skip_ws(s, c + 1);
                    match spec_current_field(s, v, key, acc) {
                        Err(err) => Err(err),
                        Ok((acc2, ve)) => {
                            let a = spec_skip_ws(s, ve);
                            if a < s.len() && s[a] == ',' {
                                spec_current_members(s, a + 1, false, acc2)
                            } else if a < s.len() && s[a] == '}' {
                                Ok((acc2, a + 1))
                            } else {
                                Err(DecodeError::Syntax)
                            }
                        },
                    }
                }
            },
        }
    } else {
        Err(DecodeError::Syntax)
    }
}

#[via_fn]
proof fn spec_current_members_decreases(s: Seq<char>, i: int, first: bool, acc: CurrentSlots) {
    lemma_skip_ws_bounds(s, i);
    let j = spec_skip_ws(s, i);
    if j < s.len() && s[j] == '"' {
        lemma_string_end_bounds(s, j + 1);
        if let Some(ke) = spec_string_end(s, j + 1) {
            lemma_skip_ws_bounds(s, ke);
            let c = spec_skip_ws(s, ke);
            if c < s.len() && s[c] == ':' {
                lemma_skip_ws_bounds(s, c + 1);
                let v = spec_skip_ws(s, c + 1);
                lemma_current_field_bounds(s, v, s.subrange(j + 1, ke - 1), acc);
                if let Ok((acc2, ve)) = spec_current_field(s, v, s.subrange(j + 1, ke - 1), acc) {
                    lemma_skip_ws_bounds(s, ve);
                }
            }
        }
    }
}

pub proof fn lemma_current_members_bounds(s: Seq<char>, i: int, first: bool, acc: CurrentSlots)
    requires
        0 <= i <= s.len(),
    ensures
        spec_current_members(s, i, first, acc) matches Ok(p) ==> i < p.1 <= s.len(),
    decreases s.len() - i,
{
    lemma_skip_ws_bounds(s, i);
    let j = spec_skip_ws(s, i);
    if j < s.len() && s[j] == '"' {
        lemma_string_end_bounds(s, j + 1);
        if let Some(ke) = spec_string_end(s, j + 1) {
            lemma_skip_ws_bounds(s, ke);
            let c = spec_skip_ws(s, ke);
            if c < s.len() && s[c] == ':' {
                lemma_skip_ws_bounds(s, c + 1);
                let v = spec_skip_ws(s, c + 1);
                lemma_current_field_bounds(s, v, s.subrange(j + 1, ke - 1), acc);
                if let Ok((acc2, ve)) = spec_current_field(s, v, s.subrange(j + 1, ke - 1), acc) {
                    lemma_skip_ws_bounds(s, ve);
                    let a = spec_skip_ws(s, ve);
                    if a < s.len() && s[a] == ',' {
                        lemma_current_members_bounds(s, a + 1, false, acc2);
                    }
                }
            }
        }
    }
}

/// The response the gathered slots amount to: present exactly when
/// every required member was seen.  `visibility` alone may be absent —
/// and an explicit `null` counts as absent.
pub open spec fn spec_finish_current(c: CurrentSlots) -> Option<ResponseModel> {
    if c.time is Some && c.temperature_2m is Some && c.relative_humidity_2m is Some
        && c.apparent_temperature is Some && c.is_day is Some && c.precipitation is Some
        && c.weather_code is Some && c.cloud_cover is Some && c.surface_pressure is Some
        && c.wind_speed_10m is Some && c.wind_direction_10m is Some {
        Some(
            ResponseModel {
                weather_code: c.weather_code->Some_0,
                temperature: c.temperature_2m->Some_0,
                apparent_temperature: c.apparent_temperature->Some_0,
                humidity: c.relative_humidity_2m->Some_0,
                precipitation: c.precipitation->Some_0,
                wind_speed: c.wind_speed_10m->Some_0,
                wind_direction: c.wind_direction_10m->Some_0,
                cloud_cover: c.cloud_cover->Some_0,
                pressure: c.surface_pressure->Some_0,
                visibility: match c.visibility {
                    Some(x) => x,
                    None => None,
                },
                is_day: c.is_day->Some_0,
                timestamp: c.time->Some_0,
            },
        )
    } else {
        None
    }
}

/// One member of the top-level object: `current` must hold an object,
/// which is walked and must be complete; any other member is skipped.
pub open spec fn spec_top_field(
    s: Seq<char>,
    v: int,
    key: Seq<char>,
    found: Option<ResponseModel>,
) -> Result<(Option<ResponseModel>, int), DecodeError> {
    if key == "current"@ {
        if found is Some {
            Err(DecodeError::DuplicateField)
        } else if v >= s.len() {
            Err(DecodeError::Syntax)
        } else if s[v] == '{' {
            match spec_current_members(s, v + 1, true, empty_slots()) {
                Err(err) => Err(err),
                Ok((slots, e)) => match spec_finish_current(slots) {
                    Some(m) => Ok((Some(m), e)),
                    None => Err(DecodeError::MissingField),
                },
            }
        } else if is_value_start(s[v]) {
            Err(DecodeError::WrongType)
        } else {
            Err(DecodeError::Syntax)
        }
    } else {
        match spec_skip_value(s, v) {
            Some(e) => Ok((found, e)),
            None => Err(DecodeError::Syntax),
        }
    }
}

pub proof fn lemma_top_field_bounds(s: Seq<char>, v: int, key: Seq<char>, found: Option<
    ResponseModel,
>)
    requires
        0 <= v <= s.len(),
    ensures
        spec_top_field(s, v, key, found) matches Ok(p) ==> v < p.1 <= s.len(),
{
    if v < s.len() {
        lemma_current_members_bounds(s, v + 1, true, empty_slots());
        lemma_skip_value_bounds(s, v);
    }
}

/// The walk over the members of the top-level object.
pub open spec fn spec_top_members(
    s: Seq<char>,
    i: int,
    first: bool,
    found: Option<ResponseModel>,
) -> Result<(Option<ResponseModel>, int), DecodeError>
    decreases s.len() - i,
    when 0 <= i <= s.len()
    via spec_top_members_decreases
{
    let j = spec_skip_ws(s, i);
    if j >= s.len() {
        Err(DecodeError::Syntax)
    } else if s[j] == '}' {
        if first {
            Ok((found, j + 1))
        } else {
            Err(DecodeError::Syntax)
        }
    } else if s[j] == '"' {
        match spec_string_end(s, j + 1) {
            None => Err(DecodeError::Syntax),
            Some(ke) => {
                let key = s.subrange(j + 1, ke - 1);
                let c = spec_skip_ws(s, ke);
                if c >= s.len() || s[c] != ':' {
                    Err(DecodeError::Syntax)
                } else {
                    let v = spec_skip_ws(s, c + 1);
                    match spec_top_field(s, v, key, found) {
                        Err(err) => Err(err),
                        Ok((found2, ve)) => {
                            let a = spec_skip_ws(s, ve);
                            if a < s.len() && s[a] == ',' {
                                spec_top_members(s, a + 1, false, found2)
                            } else if a < s.len() && s[a] == '}' {
                                Ok((found2, a + 1))
                            } else {
                                Err(DecodeError::Syntax)
                            }
                        },
                    }
                }
            },
        }
    } else {
        Err(DecodeError::Syntax)
    }
}

#[via_fn]
proof fn spec_top_members_decreases(s: Seq<char>, i: int, first: bool, found: Option<
    ResponseModel,
>) {
    lemma_skip_ws_bounds(s, i);
    let j = spec_skip_ws(s, i);
    if j < s.len() && s[j] == '"' {
        lemma_string_end_bounds(s, j + 1);
        if let Some(ke) = spec_string_end(s, j + 1) {
            lemma_skip_ws_bounds(s, ke);
            let c = spec_skip_ws(s, ke);
            if c < s.len() && s[c] == ':' {
                lemma_skip_ws_bounds(s, c + 1);
                let v = spec_skip_ws(s, c + 1);
                lemma_top_field_bounds(s, v, s.subrange(j + 1, ke - 1), found);
                if let Ok((found2, ve)) = spec_top_field(s, v, s.subrange(j + 1, ke - 1), found) {
                    lemma_skip_ws_bounds(s, ve);
                }
            }
        }
    }
}

/// The decode of a whole body: a top-level JSON object with a complete
/// `current` member and nothing after the closing brace.
pub open spec fn spec_decode_body(s: Seq<char>) -> Result<ResponseModel, DecodeError> {
    let i = spec_skip_ws(s, 0);
    if i < s.len() && s[i] == '{' {
        match spec_top_members(s, i + 1, true, None) {
            Err(err) => Err(err),
            Ok((found, e)) => match found {
                None => Err(DecodeError::MissingField),
                Some(m) => {
                    let t = spec_skip_ws(s, e);
                    if t < s.len() {
                        Err(DecodeError::TrailingCharacters)
                    } else {
                        Ok(m)
                    }
                },
            },
        }
    } else {
        Err(DecodeError::Syntax)
    }
}

/// The exec twin of `CurrentSlots`: the members gathered while the
/// decoder walks the `current` object.
struct CurrentBuilder {
    time: Option<String>,
    temperature_2m: Option<String>,
    relative_humidity_2m: Option<String>,
    apparent_temperature: Option<String>,
    is_day: Option<i32>,
    precipitation: Option<String>,
    weather_code: Option<i32>,
    cloud_cover: Option<String>,
    surface_pressure: Option<String>,
    wind_speed_10m: Option<String>,
    wind_direction_10m: Option<String>,
    visibility: Option<Option<String>>,
}

impl View for CurrentBuilder {
    type V = CurrentSlots;

    closed spec fn view(&self) -> CurrentSlots {
        CurrentSlots {
            time: match self.time {
                Some(x) => Some(x@),
                None => None,
            },
            temperature_2m: match self.temperature_2m {
                Some(x) => Some(x@),
                None => None,
            },
            relative_humidity_2m: match self.relative_humidity_2m {
                Some(x) => Some(x@),
                None => None,
            },
            apparent_temperature: match self.apparent_temperature {
                Some(x) => Some(x@),
                None => None,
            },
            is_day: match self.is_day {
                Some(x) => Some(x as int),
                None => None,
            },
            precipitation: match self.precipitation {
                Some(x) => Some(x@),
                None => None,
            },
            weather_code: match self.weather_code {
                Some(x) => Some(x as int),
                None => None,
            },
            cloud_cover: match self.cloud_cover {
                Some(x) => Some(x@),
                None => None,
            },
            surface_pressure: match self.surface_pressure {
                Some(x) => Some(x@),
                None => None,
            },
            wind_speed_10m: match self.wind_speed_10m {
                Some(x) => Some(x@),
                None => None,
            },
            wind_direction_10m: match self.wind_direction_10m {
                Some(x) => Some(x@),
                None => None,
            },
            visibility: match self.visibility {
                Some(Some(x)) => Some(Some(x@)),
                Some(None) => Some(None),
                None => None,
            },
        }
    }
}

impl CurrentBuilder {
    fn empty() -> (b: Self)
        ensures
            b@ == empty_slots(),
    {
        CurrentBuilder {
            time: None,
            temperature_2m: None,
            relative_humidity_2m: None,
            apparent_temperature: None,
            is_day: None,
            precipitation: None,
            weather_code: None,
            cloud_cover: None,
            surface_pressure: None,
            wind_speed_10m: None,
            wind_direction_10m: None,
            visibility: None,
        }
    }
}

/// The model of an exec slot-walk result.
spec fn cb_result_model(r: Result<(CurrentBuilder, usize), DecodeError>) -> Result<
    (CurrentSlots, int),
    DecodeError,
> {
    match r {
        Ok((b, e)) => Ok((b@, e as int)),
        Err(err) => Err(err),
    }
}

/// The model of an exec top-walk result.
spec fn tf_result_model(r: Result<(Option<WeatherProviderResponse>, usize), DecodeError>) -> Result<
    (Option<ResponseModel>, int),
    DecodeError,
> {
    match r {
        Ok((Some(resp), e)) => Ok((Some(resp@), e as int)),
        Ok((None, e)) => Ok((None, e as int)),
        Err(err) => Err(err),
    }
}

/// Reads a number member value: its token text and the position after.
fn number_value(s: &str, n: usize, v: usize) -> (r: Result<(String, usize), DecodeError>)
    requires
        n == s@.len(),
        v <= n,
    ensures
        match (r, spec_number_value(s@, v as int)) {
            (Ok((tok, e)), Ok(p)) => tok@ == p.0 && e as int == p.1 && v < e <= n,
            (Err(a), Err(b)) => a == b,
            _ => false,
        },
{
    proof {
        crate::json::lemma_number_end_bounds(s@, v as int);
    }
    if v >= n {
        return Err(DecodeError::Syntax);
    }
    let c = s.get_char(v);
    let u = c as u32;
    if (48 <= u && u <= 57) || c == '-' {
        let e = number_end(s, n, v);
        let tok = String::from_str(s.substring_char(v, e));
        Ok((tok, e))
    } else if c == '"' || c == '{' || c == '[' || c == 't' || c == 'f' || c == 'n' {
        Err(DecodeError::WrongType)
    } else {
        Err(DecodeError::Syntax)
    }
}

/// Reads a string member value: its raw content and the position after.
fn string_value(s: &str, n: usize, v: usize) -> (r: Result<(String, usize), DecodeError>)
    requires
        n == s@.len(),
        v <= n,
    ensures
        match (r, spec_string_value(s@, v as int)) {
            (Ok((content, e)), Ok(p)) => content@ == p.0 && e as int == p.1 && v < e <= n,
            (Err(a), Err(b)) => a == b,
            _ => false,
        },
{
    if v >= n {
        return Err(DecodeError::Syntax);
    }
    let c = s.get_char(v);
    if c == '"' {
        match string_end(s, n, v + 1) {
            Some(e) => {
                let content = String::from_str(s.substring_char(v + 1, e - 1));
                Ok((content, e))
            },
            None => Err(DecodeError::Syntax),
        }
    } else {
        let u = c as u32;
        if c == '{' || c == '[' || c == 't' || c == 'f' || c == 'n' || (48 <= u && u <= 57) || c
            == '-' {
            Err(DecodeError::WrongType)
        } else {
            Err(DecodeError::Syntax)
        }
    }
}

/// Applies one member of the `current` object to the builder.
#[verifier::rlimit(60)]
fn current_field(s: &str, n: usize, v: usize, key: &str, b: CurrentBuilder) -> (r: Result<
    (CurrentBuilder, usize),
    DecodeError,
>)
    requires
        n == s@.len(),
        v <= n,
    ensures
        cb_result_model(r) == spec_current_field(s@, v as int, key@, b@),
        r matches Ok(p) ==> v < p.1 <= n,
{
    proof {
        lemma_current_field_bounds(s@, v as int, key@, b@);
    }
    if str_eq(key, "time") {
        if b.time.is_some() {
            return Err(DecodeError::DuplicateField);
        }
        match string_value(s, n, v) {
            Ok((content, e)) => Ok((CurrentBuilder { time: Some(content), ..b }, e)),
            Err(err) => Err(err),
        }
    } else if str_eq(key, "temperature_2m") {
        if b.temperature_2m.is_some() {
            return Err(DecodeError::DuplicateField);
        }
        match number_value(s, n, v) {
            Ok((tok, e)) => Ok((CurrentBuilder { temperature_2m: Some(tok), ..b }, e)),
            Err(err) => Err(err),
        }
    } else if str_eq(key, "relative_humidity_2m") {
        if b.relative_humidity_2m.is_some() {
            return Err(DecodeError::DuplicateField);
        }
        match number_value(s, n, v) {
            Ok((tok, e)) => Ok((CurrentBuilder { relative_humidity_2m: Some(tok), ..b }, e)),
            Err(err) => Err(err),
        }
    } else if str_eq(key, "apparent_temperature") {
        if b.apparent_temperature.is_some() {
            return Err(DecodeError::DuplicateField);
        }
        match number_value(s, n, v) {
            Ok((tok, e)) => Ok((CurrentBuilder { apparent_temperature: Some(tok), ..b }, e)),
            Err(err) => Err(err),
        }
    } else if str_eq(key, "is_day") {
        if b.is_day.is_some() {
            return Err(DecodeError::DuplicateField);
        }
        match number_value(s, n, v) {
            Ok((tok, e)) => match parse_i32_text(tok.as_str()) {
                Some(val) => Ok((CurrentBuilder { is_day: Some(val), ..b }, e)),
                None => Err(DecodeError::WrongType),
            },
            Err(err) => Err(err),
        }
    } else if str_eq(key, "precipitation") {
        if b.precipitation.is_some() {
            return Err(DecodeError::DuplicateField);
        }
        match number_value(s, n, v) {
            Ok((tok, e)) => Ok((CurrentBuilder { precipitation: Some(tok), ..b }, e)),
            Err(err) => Err(err),
        }
    } else if str_eq(key, "weather_code") {
        if b.weather_code.is_some() {
            return Err(DecodeError::DuplicateField);
        }
        match number_value(s, n, v) {
            Ok((tok, e)) => match parse_i32_text(tok.as_str()) {
                Some(val) => Ok((CurrentBuilder { weather_code: Some(val), ..b }, e)),
                None => Err(DecodeError::WrongType),
            },
            Err(err) => Err(err),
        }
    } else if str_eq(key, "cloud_cover") {
        if b.cloud_cover.is_some() {
            return Err(DecodeError::DuplicateField);
        }
        match number_value(s, n, v) {
            Ok((tok, e)) => Ok((CurrentBuilder { cloud_cover: Some(tok), ..b }, e)),
            Err(err) => Err(err),
        }
    } else if str_eq(key, "surface_pressure") {
        if b.surface_pressure.is_some() {
            return Err(DecodeError::DuplicateField);
        }
        match number_value(s, n, v) {
            Ok((tok, e)) => Ok((CurrentBuilder { surface_pressure: Some(tok), ..b }, e)),
            Err(err) => Err(err),
        }
    } else if str_eq(key, "wind_speed_10m") {
        if b.wind_speed_10m.is_some() {
            return Err(DecodeError::DuplicateField);
        }
        match number_value(s, n, v) {
            Ok((tok, e)) => Ok((CurrentBuilder { wind_speed_10m: Some(tok), ..b }, e)),
            Err(err) => Err(err),
        }
    } else if str_eq(key, "wind_direction_10m") {
        if b.wind_direction_10m.is_some() {
            return Err(DecodeError::DuplicateField);
        }
        match number_value(s, n, v) {
            Ok((tok, e)) => Ok((CurrentBuilder { wind_direction_10m: Some(tok), ..b }, e)),
            Err(err) => Err(err),
        }
    } else if str_eq(key, "visibility") {
        if b.visibility.is_some() {
            return Err(DecodeError::DuplicateField);
        }
        if v >= n {
            return Err(DecodeError::Syntax);
        }
        let c = s.get_char(v);
        if c == 'n' {
            if n - v >= 4 && s.get_char(v + 1) == 'u' && s.get_char(v + 2) == 'l' && s.get_char(
                v + 3,
            ) == 'l' {
                Ok((CurrentBuilder { visibility: Some(None), ..b }, v + 4))
            } else {
                Err(DecodeError::Syntax)
            }
        } else {
            let u = c as u32;
            if (48 <= u && u <= 57) || c == '-' {
                let e = number_end(s, n, v);
                let tok = String::from_str(s.substring_char(v, e));
                Ok((CurrentBuilder { visibility: Some(Some(tok)), ..b }, e))
            } else if c == '"' || c == '{' || c == '[' || c == 't' || c == 'f' {
                Err(DecodeError::WrongType)
            } else {
                Err(DecodeError::Syntax)
            }
        }
    } else {
        match skip_value(s, n, v) {
            Some(e) => Ok((b, e)),
            None => Err(DecodeError::Syntax),
        }
    }
}

/// Walks the members of the `current` object, from just after its
/// opening brace.
fn current_object(s: &str, n: usize, i: usize) -> (r: Result<(CurrentBuilder, usize), DecodeError>)
    requires
        n == s@.len(),
        i <= n,
    ensures
        cb_result_model(r) == spec_current_members(s@, i as int, true, empty_slots()),
        r matches Ok(p) ==> i < p.1 <= n,
{
    proof {
        lemma_current_members_bounds(s@, i as int, true, empty_slots());
    }
    let mut j = i;
    let mut first = true;
    let mut b = CurrentBuilder::empty();
    loop
        invariant
            n == s@.len(),
            i <= j <= n,
            spec_current_members(s@, i as int, true, empty_slots()) == spec_current_members(
                s@,
                j as int,
                first,
                b@,
            ),
        decreases n - j,
    {
        let jw = skip_ws(s, n, j);
        if jw >= n {
            return Err(DecodeError::Syntax);
        }
        let c0 = s.get_char(jw);
        if c0 == '}' {
            if first {
                return Ok((b, jw + 1));
            }
            return Err(DecodeError::Syntax);
        }
        if c0 != '"' {
            return Err(DecodeError::Syntax);
        }
        match string_end(s, n, jw + 1) {
            None => {
                return Err(DecodeError::Syntax);
            },
            Some(ke) => {
                let key = s.substring_char(jw + 1, ke - 1);
                let cw = skip_ws(s, n, ke);
                if cw >= n || s.get_char(cw) != ':' {
                    return Err(DecodeError::Syntax);
                }
                let vw = skip_ws(s, n, cw + 1);
                match current_field(s, n, vw, key, b) {
                    Err(err) => {
                        return Err(err);
                    },
                    Ok((b2, ve)) => {
                        let aw = skip_ws(s, n, ve);
                        if aw >= n {
                            return Err(DecodeError::Syntax);
                        }
                        let ca = s.get_char(aw);
                        if ca == ',' {
                            j = aw + 1;
                            first = false;
                            b = b2;
                        } else if ca == '}' {
                            return Ok((b2, aw + 1));
                        } else {
                            return Err(DecodeError::Syntax);
                        }
                    },
                }
            },
        }
    }
}

/// Builds the response from the gathered members, when all required
/// ones were seen.
fn finish_current(b: CurrentBuilder) -> (r: Option<WeatherProviderResponse>)
    ensures
        match spec_finish_current(b@) {
            Some(m) => r matches Some(resp) && resp@ == m,
            None => r is None,
        },
{
    let CurrentBuilder {
        time,
        temperature_2m,
        relative_humidity_2m,
        apparent_temperature,
        is_day,
        precipitation,
        weather_code,
        cloud_cover,
        surface_pressure,
        wind_speed_10m,
        wind_direction_10m,
        visibility,
    } = b;
    let time = match time {
        Some(x) => x,
        None => {
            return None;
        },
    };
    let temperature_2m = match temperature_2m {
        Some(x) => x,
        None => {
            return None;
        },
    };
    let relative_humidity_2m = match relative_humidity_2m {
        Some(x) => x,
        None => {
            return None;
        },
    };
    let apparent_temperature = match apparent_temperature {
        Some(x) => x,
        None => {
            return None;
        },
    };
    let is_day = match is_day {
        Some(x) => x,
        None => {
            return None;
        },
    };
    let precipitation = match precipitation {
        Some(x) => x,
        None => {
            return None;
        },
    };
    let weather_code = match weather_code {
        Some(x) => x,
        None => {
            return None;
        },
    };
    let cloud_cover = match cloud_cover {
        Some(x) => x,
        None => {
            return None;
        },
    };
    let surface_pressure = match surface_pressure {
        Some(x) => x,
        None => {
            return None;
        },
    };
    let wind_speed_10m = match wind_speed_10m {
        Some(x) => x,
        None => {
            return None;
        },
    };
    let wind_direction_10m = match wind_direction_10m {
        Some(x) => x,
        None => {
            return None;
        },
    };
    let visibility = match visibility {
        Some(x) => x,
        None => None,
    };
    Some(
        WeatherProviderResponse {
            weather_code,
            temperature: temperature_2m,
            apparent_temperature,
            humidity: relative_humidity_2m,
            precipitation,
            wind_speed: wind_speed_10m,
            wind_direction: wind_direction_10m,
            cloud_cover,
            pressure: surface_pressure,
            visibility,
            is_day,
            timestamp: time,
        },
    )
}

/// Applies one member of the top-level object.
fn top_field(s: &str, n: usize, v: usize, key: &str, found: Option<WeatherProviderResponse>) -> (r:
    Result<(Option<WeatherProviderResponse>, usize), DecodeError>)
    requires
        n == s@.len(),
        v <= n,
    ensures
        tf_result_model(r) == spec_top_field(
            s@,
            v as int,
            key@,
            opt_resp_model(found),
        ),
        r matches Ok(p) ==> v < p.1 <= n,
{
    proof {
        lemma_top_field_bounds(s@, v as int, key@, opt_resp_model(found));
    }
    if str_eq(key, "current") {
        if found.is_some() {
            return Err(DecodeError::DuplicateField);
        }
        if v >= n {
            return Err(DecodeError::Syntax);
        }
        let c = s.get_char(v);
        if c == '{' {
            match current_object(s, n, v + 1) {
                Err(err) => Err(err),
                Ok((slots, e)) => match finish_current(slots) {
                    Some(resp) => Ok((Some(resp), e)),
                    None => Err(DecodeError::MissingField),
                },
            }
        } else {
            let u = c as u32;
            if c == '"' || c == '[' || c == 't' || c == 'f' || c == 'n' || (48 <= u && u <= 57)
                || c == '-' {
                Err(DecodeError::WrongType)
            } else {
                Err(DecodeError::Syntax)
            }
        }
    } else {
        match skip_value(s, n, v) {
            Some(e) => Ok((found, e)),
            None => Err(DecodeError::Syntax),
        }
    }
}

/// The model of an optional response.
pub open spec fn opt_resp_model(o: Option<WeatherProviderResponse>) -> Option<ResponseModel> {
    match o {
        Some(resp) => Some(resp@),
        None => None,
    }
}

/// The model of a decode result.
pub open spec fn decode_result_model(r: Result<WeatherProviderResponse, DecodeError>) -> Result<
    ResponseModel,
    DecodeError,
> {
    match r {
        Ok(resp) => Ok(resp@),
        Err(err) => Err(err),
    }
}

/// Decodes a response body into the raw provider response, exactly as
/// `spec_decode_body` reads it: a JSON object whose `current` member
/// holds every required field, with `visibility` optional.
pub fn decode_response(body: &str) -> (r: Result<WeatherProviderResponse, DecodeError>)
    ensures
        decode_result_model(r) == spec_decode_body(body@),
{
    let n = body.unicode_len();
    let i = skip_ws(body, n, 0);
    if i >= n {
        return Err(DecodeError::Syntax);
    }
    if body.get_char(i) != '{' {
        return Err(DecodeError::Syntax);
    }
    let mut j = i + 1;
    let mut first = true;
    let mut found: Option<WeatherProviderResponse> = None;
    loop
        invariant
            n == body@.len(),
            j <= n,
            spec_top_members(body@, i as int + 1, true, None) == spec_top_members(
                body@,
                j as int,
                first,
                opt_resp_model(found),
            ),
            spec_skip_ws(body@, 0) == i as int,
            i < n,
            body@[i as int] == '{',
        decreases n - j,
    {
        let jw = skip_ws(body, n, j);
        if jw >= n {
            return Err(DecodeError::Syntax);
        }
        let c0 = body.get_char(jw);
        if c0 == '}' {
            if !first {
                return Err(DecodeError::Syntax);
            }
            match found {
                None => {
                    return Err(DecodeError::MissingField);
                },
                Some(resp) => {
                    let t = skip_ws(body, n, jw + 1);
                    if t < n {
                        return Err(DecodeError::TrailingCharacters);
                    }
                    return Ok(resp);
                },
            }
        }
        if c0 != '"' {
            return Err(DecodeError::Syntax);
        }
        match string_end(body, n, jw + 1) {
            None => {
                return Err(DecodeError::Syntax);
            },
            Some(ke) => {
                let key = body.substring_char(jw + 1, ke - 1);
                let cw = skip_ws(body, n, ke);
                if cw >= n || body.get_char(cw) != ':' {
                    return Err(DecodeError::Syntax);
                }
                let vw = skip_ws(body, n, cw + 1);
                match top_field(body, n, vw, key, found) {
                    Err(err) => {
                        return Err(err);
                    },
                    Ok((found2, ve)) => {
                        let aw = skip_ws(body, n, ve);
                        if aw >= n {
                            return Err(DecodeError::Syntax);
                        }
                        let ca = body.get_char(aw);
                        if ca == ',' {
                            j = aw + 1;
                            first = false;
                            found = found2;
                        } else if ca == '}' {
                            match found2 {
                                None => {
                                    return Err(DecodeError::MissingField);
                                },
                                Some(resp) => {
                                    let t = skip_ws(body, n, aw + 1);
                                    if t < n {
                                        return Err(DecodeError::TrailingCharacters);
                                    }
                                    return Ok(resp);
                                },
                            }
                        } else {
                            return Err(DecodeError::Syntax);
                        }
                    },
                }
            },
        }
    }
}

/// The decode half of a fetch: a body that decodes yields the response,
/// and one that does not yields that decode failure as the fetch error.
/// The transport half — sending the request built by
/// `build_request_url` and reading the body — stands with the caller.
pub fn parse_fetch_response(body: &str) -> (r: Result<WeatherProviderResponse, FetchError>)
    ensures
        match spec_decode_body(body@) {
            Ok(m) => r matches Ok(resp) && resp@ == m,
            Err(err) => r matches Err(f) && f == FetchError::Decode(err),
        },
{
    match decode_response(body) {
        Ok(resp) => Ok(resp),
        Err(err) => Err(FetchError::Decode(err)),
    }
}

impl Default for OpenMeteoProvider {
    /// The same provider `new` constructs.
    fn default() -> (provider: Self)
        ensures
            provider.base_url_model() == "https://api.open-meteo.com/v1/forecast"@,
    {
        Self::new()
    }
}

} // verus!
