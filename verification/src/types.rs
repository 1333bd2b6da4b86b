use vstd::prelude::*;

verus! {

/// The closed set of sky / precipitation conditions the rest of the
/// application can render.  Every provider weather code maps to exactly
/// one of these.
#[derive(Debug, Clone, Copy, PartialEq, Eq, Structural)]
pub enum WeatherCondition {
    Clear,
    PartlyCloudy,
    Cloudy,
    Overcast,
    Fog,
    Drizzle,
    Rain,
    FreezingRain,
    Snow,
    SnowGrains,
    RainShowers,
    SnowShowers,
    Thunderstorm,
    ThunderstormHail,
}

#[derive(Debug, Clone, Copy, PartialEq, Eq, Structural)]
pub enum TemperatureUnit {
    Celsius,
    Fahrenheit,
}

#[derive(Debug, Clone, Copy, PartialEq, Eq, Structural)]
pub enum WindSpeedUnit {
    Kmh,
    Ms,
    Mph,
    Kn,
}

#[derive(Debug, Clone, Copy, PartialEq, Eq, Structural)]
pub enum PrecipitationUnit {
    Mm,
    Inch,
}

/// The unit preferences that parameterize a fetch: they select the wire
/// units of the outbound request and give the numeric fields of the
/// response their meaning.
#[derive(Debug, Clone, Copy, PartialEq, Eq, Structural)]
pub struct WeatherUnits {
    pub temperature: TemperatureUnit,
    pub wind_speed: WindSpeedUnit,
    pub precipitation: PrecipitationUnit,
}

/// The fixed place weather is fetched for.
///
/// Coordinates travel as decimal text (for example `"52.52"`), exactly
/// the characters that stand in the request URL; the library never does
/// arithmetic on them.  `elevation` is omitted from the request when it
/// is `None`.
#[derive(Debug, Clone, PartialEq, Eq)]
pub struct WeatherLocation {
    pub latitude: String,
    pub longitude: String,
    pub elevation: Option<String>,
}

/// The mathematical shape of a location: each coordinate as its
/// character sequence.
pub struct LocationModel {
    pub latitude: Seq<char>,
    pub longitude: Seq<char>,
    pub elevation: Option<Seq<char>>,
}

impl View for WeatherLocation {
    type V = LocationModel;

    open spec fn view(&self) -> LocationModel {
        LocationModel {
            latitude: self.latitude@,
            longitude: self.longitude@,
            elevation: match self.elevation {
                Some(e) => Some(e@),
                None => None,
            },
        }
    }
}

/// The normalized snapshot handed to the rendering layer: the provider's
/// weather code resolved to a `WeatherCondition` and the day flag to a
/// `bool`; every other field carried over from the response unchanged.
#[derive(Debug, Clone, PartialEq, Eq)]
pub struct WeatherData {
    pub condition: WeatherCondition,
    pub temperature: String,
    pub apparent_temperature: String,
    pub humidity: String,
    pub precipitation: String,
    pub wind_speed: String,
    pub wind_direction: String,
    pub cloud_cover: String,
    pub pressure: String,
    pub visibility: Option<String>,
    pub is_day: bool,
    pub timestamp: String,
}

impl Default for WeatherUnits {
    /// Metric defaults: Celsius, km/h, millimetres.
    fn default() -> (u: Self)
        ensures
            u.temperature == TemperatureUnit::Celsius,
            u.wind_speed == WindSpeedUnit::Kmh,
            u.precipitation == PrecipitationUnit::Mm,
    {
        WeatherUnits {
            temperature: TemperatureUnit::Celsius,
            wind_speed: WindSpeedUnit::Kmh,
            precipitation: PrecipitationUnit::Mm,
        }
    }
}

} // verus!
