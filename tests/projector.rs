use owm_exporter::metric_metadata::{
    described_series, owm_temperature, owm_temperature_feels_like, owm_wind_gust, owm_wind_speed, Series,
};
use owm_exporter::models::{
    City, Clouds, Coord, CurrentWeather, Main, PrecipVolume, Query, Sys, UnitSystem, Weather, Wind,
};
use owm_exporter::projector::{add_display_name, labels_for, labels_for_query, project, write_reading_values};
use owm_exporter::text::Decimal;

fn dec(digits: u64, scale: u32) -> Decimal {
    Decimal { negative: false, digits, scale }
}

fn paris_reading() -> CurrentWeather {
    CurrentWeather {
        coord: Coord::new(dec(23488, 4), dec(488534, 4)),
        weather: vec![Weather {
            id: 800,
            main: "Clear".to_string(),
            description: "ciel dégagé".to_string(),
            icon: "01d".to_string(),
        }],
        base: "stations".to_string(),
        main: Main {
            temp: dec(1234, 2),
            feels_like: dec(115, 1),
            temp_min: dec(10, 0),
            temp_max: dec(14, 0),
            pressure: dec(1013, 0),
            sea_level: None,
            grnd_level: None,
            humidity: dec(81, 0),
        },
        visibility: None,
        wind: Wind { speed: dec(36, 1), deg: dec(250, 0), gust: None },
        clouds: Clouds { cloudiness: dec(0, 0) },
        rain: None,
        snow: None,
        dt: 1700000000,
        sys: Sys {
            type_: Some(2),
            id: Some(2041230),
            message: None,
            country: Some("FR".to_string()),
            sunrise: 1699985000,
            sunset: 1700019000,
        },
        timezone: 3600,
        id: 2988507,
        name: "Paris".to_string(),
        cod: 200,
    }
}

fn label<'a>(labels: &'a [(&'static str, String)], name: &str) -> Option<&'a str> {
    labels.iter().find(|l| l.0 == name).map(|l| l.1.as_str())
}

#[test]
fn paris_success_publishes_location_paris() {
    let q = Query::City(City::new("Paris", "FR"));
    let reading = paris_reading();
    let p = project(&q, Some(&reading), UnitSystem::Metric);
    assert!(p.success);
    assert_eq!(p.query_labels, vec![("q", "Paris,FR".to_string())]);
    assert_eq!(label(&p.reading_labels, "location"), Some("Paris"));
    assert_eq!(
        p.reading_labels,
        vec![
            ("location", "Paris".to_string()),
            ("q", "Paris,FR".to_string()),
            ("reading_id", "2988507".to_string()),
            ("reading_lat", "2.3488".to_string()),
            ("reading_lon", "48.8534".to_string()),
            ("reading_name", "Paris".to_string()),
        ]
    );
}

#[test]
fn display_name_replaces_location_and_is_a_label() {
    let mut c = City::new("Paris", "FR");
    c.display_name = Some("Home".to_string());
    let q = Query::City(c);
    let reading = paris_reading();
    let labels = labels_for(&q, &reading);
    assert_eq!(label(&labels, "location"), Some("Home"));
    assert_eq!(label(&labels, "display_name"), Some("Home"));
    assert_eq!(
        labels_for_query(&q),
        vec![("q", "Paris,FR".to_string()), ("display_name", "Home".to_string())]
    );
    let mut v = vec![("x", "y".to_string())];
    add_display_name(&q, &mut v);
    assert_eq!(v.len(), 2);
}

#[test]
fn failure_publishes_only_the_success_indicator() {
    let q = Query::City(City::new("Paris", "FR"));
    let p = project(&q, None, UnitSystem::Metric);
    assert!(!p.success);
    assert_eq!(p.query_labels, vec![("q", "Paris,FR".to_string())]);
    assert!(p.reading_labels.is_empty());
    assert!(p.values.is_empty());
}

#[test]
fn absent_optional_fields_are_not_written() {
    let reading = paris_reading();
    let writes = write_reading_values(&reading, UnitSystem::Metric);
    for (s, _) in &writes {
        assert!(!matches!(
            s,
            Series::Rain1h
                | Series::Rain3h
                | Series::Snow1h
                | Series::Snow3h
                | Series::Visibility
                | Series::WindGustMetersPerSecond
                | Series::WindGustMilesPerHour
        ));
    }
    assert_eq!(writes.len(), 8);
    assert_eq!(writes[0], (Series::Timestamp, dec(1700000000, 0)));
    assert_eq!(writes[1], (Series::TemperatureCelsius, dec(1234, 2)));
}

#[test]
fn present_optional_fields_are_written_each_on_its_own() {
    let mut reading = paris_reading();
    reading.wind.gust = Some(dec(51, 1));
    reading.visibility = Some(10000);
    reading.rain = Some(PrecipVolume { one_hour: None, three_hour: Some(dec(2, 1)) });
    reading.snow = Some(PrecipVolume { one_hour: Some(dec(1, 0)), three_hour: None });
    let writes = write_reading_values(&reading, UnitSystem::Imperial);
    let series: Vec<Series> = writes.iter().map(|w| w.0).collect();
    assert_eq!(
        series,
        vec![
            Series::Timestamp,
            Series::TemperatureFarenheight,
            Series::FeelsLikeFarenheight,
            Series::Pressure,
            Series::Humidity,
            Series::WindSpeedMilesPerHour,
            Series::WindDirection,
            Series::WindGustMilesPerHour,
            Series::Cloudiness,
            Series::Visibility,
            Series::Rain3h,
            Series::Snow1h,
        ]
    );
    assert_eq!(writes[9].1, dec(10000, 0));
}

#[test]
fn unit_system_selects_series_names() {
    assert_eq!(owm_wind_speed(UnitSystem::Imperial).name(), "owm_wind_speed_miles_per_hour");
    assert_eq!(owm_wind_speed(UnitSystem::Metric).name(), "owm_wind_speed_meters_per_second");
    assert_eq!(owm_wind_speed(UnitSystem::Standard).name(), "owm_wind_speed_meters_per_second");
    assert_eq!(owm_wind_gust(UnitSystem::Imperial).name(), "owm_wind_gust_miles_per_hour");
    assert_eq!(owm_wind_gust(UnitSystem::Standard).name(), "owm_wind_gust_meters_per_second");
    assert_eq!(owm_temperature(UnitSystem::Metric).name(), "owm_temperature_degrees_celsius");
    assert_eq!(owm_temperature(UnitSystem::Imperial).name(), "owm_temperature_degrees_farenheight");
    assert_eq!(owm_temperature(UnitSystem::Standard).name(), "owm_temperature_degrees_kelvin");
    assert_eq!(
        owm_temperature_feels_like(UnitSystem::Standard).name(),
        "owm_temperature_feels_like_degrees_kelvin"
    );
    assert_eq!(owm_temperature(UnitSystem::Metric).description(), "Temperature in °C");
    assert_eq!(Series::QuerySuccess.metadata().name(), "owm_query_success");
}

#[test]
fn described_series_follow_the_unit_system() {
    let imperial = described_series(UnitSystem::Imperial);
    assert_eq!(imperial.len(), 15);
    assert_eq!(imperial[0], Series::QuerySuccess);
    assert_eq!(imperial[2], Series::TemperatureFarenheight);
    assert_eq!(imperial[6], Series::WindSpeedMilesPerHour);
    assert_eq!(imperial[8], Series::WindGustMilesPerHour);
    let standard = described_series(UnitSystem::Standard);
    assert_eq!(standard[2], Series::TemperatureKelvin);
    assert_eq!(standard[6], Series::WindSpeedMetersPerSecond);
}
