//! The weather report for one location.
use vstd::prelude::*;

verus! {

/// Structured weather data for one location, as extracted from a provider
/// response. Each numeric field is carried in tenths of its unit (degrees
/// Celsius, percent, hectopascal, metres per second), the precision the
/// display shows.
#[derive(Clone, Debug)]
pub struct WeatherReport {
    pub name: String,
    pub description: String,
    pub temp_tenths: i64,
    pub humidity_tenths: i64,
    pub pressure_tenths: i64,
    pub wind_tenths: i64,
}

} // verus!
