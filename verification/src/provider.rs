use vstd::prelude::*;

verus! {

/// The raw, provider-shaped result of one successful fetch.
///
/// Numeric readings travel as the provider's decimal text, exactly as
/// they stood in the response body; `weather_code` and `is_day` are the
/// two fields the normalizer interprets, so they are carried as
/// integers.  `visibility` is absent when the provider omits it.
#[derive(Debug, Clone, PartialEq, Eq)]
pub struct WeatherProviderResponse {
    pub weather_code: i32,
    pub temperature: String,
    pub apparent_temperature: String,
    pub humidity: String,
    pub precipitation: String,
    pub wind_speed: String,
    pub wind_direction: String,
    pub cloud_cover: String,
    pub pressure: String,
    pub visibility: Option<String>,
    pub is_day: i32,
    pub timestamp: String,
}

/// The mathematical shape of a provider response: every textual field as
/// its character sequence.  Contracts speak of this model.
pub struct ResponseModel {
    pub weather_code: int,
    pub temperature: Seq<char>,
    pub apparent_temperature: Seq<char>,
    pub humidity: Seq<char>,
    pub precipitation: Seq<char>,
    pub wind_speed: Seq<char>,
    pub wind_direction: Seq<char>,
    pub cloud_cover: Seq<char>,
    pub pressure: Seq<char>,
    pub visibility: Option<Seq<char>>,
    pub is_day: int,
    pub timestamp: Seq<char>,
}

impl View for WeatherProviderResponse {
    type V = ResponseModel;

    open spec fn view(&self) -> ResponseModel {
        ResponseModel {
            weather_code: self.weather_code as int,
            temperature: self.temperature@,
            apparent_temperature: self.apparent_temperature@,
            humidity: self.humidity@,
            precipitation: self.precipitation@,
            wind_speed: self.wind_speed@,
            wind_direction: self.wind_direction@,
            cloud_cover: self.cloud_cover@,
            pressure: self.pressure@,
            visibility: match self.visibility {
                Some(v) => Some(v@),
                None => None,
            },
            is_day: self.is_day as int,
            timestamp: self.timestamp@,
        }
    }
}

/// Why a response body could not be decoded into a
/// `WeatherProviderResponse`.
#[derive(Debug, Clone, Copy, PartialEq, Eq, Structural)]
pub enum DecodeError {
    /// The body is not a JSON object of the grammar the decoder accepts.
    Syntax,
    /// The `current` object, or one of its required members, is absent.
    MissingField,
    /// A member the decoder reads appears twice.
    DuplicateField,
    /// A member the decoder reads holds a value of the wrong shape, such
    /// as a string where a number is required, or a fractional value for
    /// an integer field.
    WrongType,
    /// The body holds text after the closing brace of the top object.
    TrailingCharacters,
}

/// A fetch fails either on the network round trip or while decoding the
/// body; the caller receives exactly one of these.
#[derive(Debug, Clone, PartialEq, Eq)]
pub enum FetchError {
    /// DNS, connect, TLS, timeout, or a transport-reported HTTP failure.
    /// The text is the transport's own description, for diagnostics.
    Transport(String),
    /// The body did not decode into the expected shape.
    Decode(DecodeError),
}

} // verus!
