//! The series that the exporter publishes, and which of them a unit system
//! selects.
use vstd::prelude::*;

use crate::models::UnitSystem;

verus! {

/// The name and help text of a published series.
#[derive(Clone, Copy, Debug, PartialEq, Eq)]
pub struct MetricMetadata<'a> {
    pub name: &'a str,
    pub description: &'a str,
}

impl<'a> MetricMetadata<'a> {
    pub fn name(&self) -> (r: &'a str)
        ensures
            r == self.name,
    {
        self.name
    }

    pub fn description(&self) -> (r: &'a str)
        ensures
            r == self.description,
    {
        self.description
    }
}

pub fn new_metric<'a>(name: &'a str, description: &'a str) -> (r: MetricMetadata<'a>)
    ensures
        r.name == name,
        r.description == description,
{
    MetricMetadata { name, description }
}

/// Every series the exporter can publish. Temperatures and wind speeds come
/// in one series per unit.
#[derive(Clone, Copy, Debug, PartialEq, Eq, Hash, Structural)]
pub enum Series {
    QuerySuccess,
    TemperatureCelsius,
    TemperatureFarenheight,
    TemperatureKelvin,
    FeelsLikeCelsius,
    FeelsLikeFarenheight,
    FeelsLikeKelvin,
    WindGustMetersPerSecond,
    WindGustMilesPerHour,
    WindSpeedMetersPerSecond,
    WindSpeedMilesPerHour,
    Cloudiness,
    Humidity,
    Pressure,
    Rain1h,
    Rain3h,
    Snow1h,
    Snow3h,
    Timestamp,
    Visibility,
    WindDirection,
    ApiCallTime,
}

impl Series {
    pub open spec fn metadata_spec(self) -> MetricMetadata<'static> {
        match self {
            Series::QuerySuccess => MetricMetadata { name: "owm_query_success", description: "Whether the most recent query for a location's weather succeeded (0 or 1)" },
            Series::TemperatureCelsius => MetricMetadata { name: "owm_temperature_degrees_celsius", description: "Temperature in °C" },
            Series::TemperatureFarenheight => MetricMetadata { name: "owm_temperature_degrees_farenheight", description: "Temperature in °F" },
            Series::TemperatureKelvin => MetricMetadata { name: "owm_temperature_degrees_kelvin", description: "Temperature in °K" },
            Series::FeelsLikeCelsius => MetricMetadata { name: "owm_temperature_feels_like_degrees_celsius", description: "Perceived temperature in °C" },
            Series::FeelsLikeFarenheight => MetricMetadata { name: "owm_temperature_feels_like_degrees_farenheight", description: "Perceived temperature in °F" },
            Series::FeelsLikeKelvin => MetricMetadata { name: "owm_temperature_feels_like_degrees_kelvin", description: "Perceived temperature in °K" },
            Series::WindGustMetersPerSecond => MetricMetadata { name: "owm_wind_gust_meters_per_second", description: "Wind gust speed in meters/second" },
            Series::WindGustMilesPerHour => MetricMetadata { name: "owm_wind_gust_miles_per_hour", description: "Wind gust speed in miles per hour" },
            Series::WindSpeedMetersPerSecond => MetricMetadata { name: "owm_wind_speed_meters_per_second", description: "Wind speed in meters/second" },
            Series::WindSpeedMilesPerHour => MetricMetadata { name: "owm_wind_speed_miles_per_hour", description: "Wind speed in miles per hour" },
            Series::Cloudiness => MetricMetadata { name: "owm_cloudiness_percent", description: "% cloudiness" },
            Series::Humidity => MetricMetadata { name: "owm_humidity_percent", description: "% Humidity" },
            Series::Pressure => MetricMetadata { name: "owm_pressure_hpa", description: "Atmospheric pressure in hPa" },
            Series::Rain1h => MetricMetadata { name: "owm_rain_1h_mm", description: "1-hour rain accumulation in mm" },
            Series::Rain3h => MetricMetadata { name: "owm_rain_3h_mm", description: "3-hour rain accumulation in mm" },
            Series::Snow1h => MetricMetadata { name: "owm_snow_1h_mm", description: "1-hour snow accumulation in mm" },
            Series::Snow3h => MetricMetadata { name: "owm_snow_3h_mm", description: "3-hour snow accumulation in mm" },
            Series::Timestamp => MetricMetadata { name: "owm_timestamp_seconds", description: "Timestamp of last reading in seconds since UNIX epoch" },
            Series::Visibility => MetricMetadata { name: "owm_visibility_meters", description: "Visibility in meters, 10000 max" },
            Series::WindDirection => MetricMetadata { name: "owm_wind_direction_degrees", description: "Wind direction in degrees (0-360)" },
            Series::ApiCallTime => MetricMetadata { name: "owm_api_call_time_milliseconds", description: "Histogram of successful call times per location in milliseconds" },
        }
    }

    /// The name and help text of the series.
    pub fn metadata(self) -> (r: MetricMetadata<'static>)
        ensures
            r == self.metadata_spec(),
    {
        match self {
            Series::QuerySuccess => new_metric("owm_query_success", "Whether the most recent query for a location's weather succeeded (0 or 1)"),
            Series::TemperatureCelsius => new_metric("owm_temperature_degrees_celsius", "Temperature in °C"),
            Series::TemperatureFarenheight => new_metric("owm_temperature_degrees_farenheight", "Temperature in °F"),
            Series::TemperatureKelvin => new_metric("owm_temperature_degrees_kelvin", "Temperature in °K"),
            Series::FeelsLikeCelsius => new_metric("owm_temperature_feels_like_degrees_celsius", "Perceived temperature in °C"),
            Series::FeelsLikeFarenheight => new_metric("owm_temperature_feels_like_degrees_farenheight", "Perceived temperature in °F"),
            Series::FeelsLikeKelvin => new_metric("owm_temperature_feels_like_degrees_kelvin", "Perceived temperature in °K"),
            Series::WindGustMetersPerSecond => new_metric("owm_wind_gust_meters_per_second", "Wind gust speed in meters/second"),
            Series::WindGustMilesPerHour => new_metric("owm_wind_gust_miles_per_hour", "Wind gust speed in miles per hour"),
            Series::WindSpeedMetersPerSecond => new_metric("owm_wind_speed_meters_per_second", "Wind speed in meters/second"),
            Series::WindSpeedMilesPerHour => new_metric("owm_wind_speed_miles_per_hour", "Wind speed in miles per hour"),
            Series::Cloudiness => new_metric("owm_cloudiness_percent", "% cloudiness"),
            Series::Humidity => new_metric("owm_humidity_percent", "% Humidity"),
            Series::Pressure => new_metric("owm_pressure_hpa", "Atmospheric pressure in hPa"),
            Series::Rain1h => new_metric("owm_rain_1h_mm", "1-hour rain accumulation in mm"),
            Series::Rain3h => new_metric("owm_rain_3h_mm", "3-hour rain accumulation in mm"),
            Series::Snow1h => new_metric("owm_snow_1h_mm", "1-hour snow accumulation in mm"),
            Series::Snow3h => new_metric("owm_snow_3h_mm", "3-hour snow accumulation in mm"),
            Series::Timestamp => new_metric("owm_timestamp_seconds", "Timestamp of last reading in seconds since UNIX epoch"),
            Series::Visibility => new_metric("owm_visibility_meters", "Visibility in meters, 10000 max"),
            Series::WindDirection => new_metric("owm_wind_direction_degrees", "Wind direction in degrees (0-360)"),
            Series::ApiCallTime => new_metric("owm_api_call_time_milliseconds", "Histogram of successful call times per location in milliseconds"),
        }
    }
}

/// The temperature series of a unit system.
pub open spec fn temperature_series(units: UnitSystem) -> Series {
    match units {
        UnitSystem::Standard => Series::TemperatureKelvin,
        UnitSystem::Metric => Series::TemperatureCelsius,
        UnitSystem::Imperial => Series::TemperatureFarenheight,
    }
}

/// The perceived-temperature series of a unit system.
pub open spec fn feels_like_series(units: UnitSystem) -> Series {
    match units {
        UnitSystem::Standard => Series::FeelsLikeKelvin,
        UnitSystem::Metric => Series::FeelsLikeCelsius,
        UnitSystem::Imperial => Series::FeelsLikeFarenheight,
    }
}

/// The wind gust series of a unit system: miles/hour for imperial units,
/// meters/second otherwise.
pub open spec fn wind_gust_series(units: UnitSystem) -> Series {
    match units {
        UnitSystem::Imperial => Series::WindGustMilesPerHour,
        _ => Series::WindGustMetersPerSecond,
    }
}

/// The wind speed series of a unit system: miles/hour for imperial units,
/// meters/second otherwise.
pub open spec fn wind_speed_series(units: UnitSystem) -> Series {
    match units {
        UnitSystem::Imperial => Series::WindSpeedMilesPerHour,
        _ => Series::WindSpeedMetersPerSecond,
    }
}

pub fn temperature(units: UnitSystem) -> (r: Series)
    ensures
        r == temperature_series(units),
{
    match units {
        UnitSystem::Standard => Series::TemperatureKelvin,
        UnitSystem::Metric => Series::TemperatureCelsius,
        UnitSystem::Imperial => Series::TemperatureFarenheight,
    }
}

pub fn feels_like(units: UnitSystem) -> (r: Series)
    ensures
        r == feels_like_series(units),
{
    match units {
        UnitSystem::Standard => Series::FeelsLikeKelvin,
        UnitSystem::Metric => Series::FeelsLikeCelsius,
        UnitSystem::Imperial => Series::FeelsLikeFarenheight,
    }
}

pub fn wind_gust(units: UnitSystem) -> (r: Series)
    ensures
        r == wind_gust_series(units),
{
    match units {
        UnitSystem::Imperial => Series::WindGustMilesPerHour,
        _ => Series::WindGustMetersPerSecond,
    }
}

pub fn wind_speed(units: UnitSystem) -> (r: Series)
    ensures
        r == wind_speed_series(units),
{
    match units {
        UnitSystem::Imperial => Series::WindSpeedMilesPerHour,
        _ => Series::WindSpeedMetersPerSecond,
    }
}

/// The series described to the metrics registry for `units`, in order.
pub open spec fn described_series_spec(units: UnitSystem) -> Seq<Series> {
    seq![
        Series::QuerySuccess,
        Series::Timestamp,
        temperature_series(units),
        feels_like_series(units),
        Series::Pressure,
        Series::Humidity,
        wind_speed_series(units),
        Series::WindDirection,
        wind_gust_series(units),
        Series::Cloudiness,
        Series::Visibility,
        Series::Rain1h,
        Series::Rain3h,
        Series::Snow1h,
        Series::Snow3h,
    ]
}

/// The gauges that a unit system publishes, described once at start.
pub fn described_series(units: UnitSystem) -> (r: Vec<Series>)
    ensures
        r@ == described_series_spec(units),
{
    let r = vec![
        Series::QuerySuccess,
        Series::Timestamp,
        temperature(units),
        feels_like(units),
        Series::Pressure,
        Series::Humidity,
        wind_speed(units),
        Series::WindDirection,
        wind_gust(units),
        Series::Cloudiness,
        Series::Visibility,
        Series::Rain1h,
        Series::Rain3h,
        Series::Snow1h,
        Series::Snow3h,
    ];
    proof {
        assert(r@ =~= described_series_spec(units));
    }
    r
}

/// Name and help text of the temperature series for `units`.
pub fn owm_temperature(units: UnitSystem) -> (r: MetricMetadata<'static>)
    ensures
        r == temperature_series(units).metadata_spec(),
{
    temperature(units).metadata()
}

/// Name and help text of the perceived-temperature series for `units`.
pub fn owm_temperature_feels_like(units: UnitSystem) -> (r: MetricMetadata<'static>)
    ensures
        r == feels_like_series(units).metadata_spec(),
{
    feels_like(units).metadata()
}

/// Name and help text of the wind gust series for `units`.
pub fn owm_wind_gust(units: UnitSystem) -> (r: MetricMetadata<'static>)
    ensures
        r == wind_gust_series(units).metadata_spec(),
{
    wind_gust(units).metadata()
}

/// Name and help text of the wind speed series for `units`.
pub fn owm_wind_speed(units: UnitSystem) -> (r: MetricMetadata<'static>)
    ensures
        r == wind_speed_series(units).metadata_spec(),
{
    wind_speed(units).metadata()
}

} // verus!
