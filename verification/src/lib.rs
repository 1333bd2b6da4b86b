pub mod display;
pub mod json;
pub mod normalizer;
pub mod open_meteo;
pub mod provider;
pub mod types;
pub mod urlenc;
