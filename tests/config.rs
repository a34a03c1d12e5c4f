use owm_exporter::config::{from_invalid_options, join_paths, query_list, ExporterConfig, ExporterError};
use owm_exporter::models::{City, CityId, Coord, Query};
use owm_exporter::options::{ClientOptions, InvalidOptionsError};
use owm_exporter::text::Decimal;

fn config() -> ExporterConfig {
    ExporterConfig {
        owm: ClientOptions::default(Some("key".to_string())),
        poll_interval_seconds: ExporterConfig::default_poll_interval(),
        max_calls_per_minute: ExporterConfig::default_max_calls_per_minute(),
        cities: vec![City::new("Paris", "FR")],
        coordinates: vec![],
        locations: vec![],
    }
}

fn message(r: Result<(), ExporterError>) -> String {
    match r {
        Err(ExporterError::ConfigValidationError { message, .. }) => message,
        other => panic!("unexpected {:?}", other),
    }
}

#[test]
fn defaults_are_sixty() {
    assert_eq!(ExporterConfig::default_poll_interval(), 60);
    assert_eq!(ExporterConfig::default_max_calls_per_minute(), 60);
}

#[test]
fn validate_accepts_a_complete_config() {
    assert!(config().validate().is_ok());
}

#[test]
fn validate_refuses_each_fault_in_turn() {
    let mut c = config();
    c.cities.clear();
    assert_eq!(
        message(c.validate()),
        "No cities or coordinates or locations were specified in the config"
    );
    let mut c = config();
    c.max_calls_per_minute = 0;
    assert_eq!(message(c.validate()), "max_calls_per_minute must > 0");
    let mut c = config();
    c.owm.api_key = String::new();
    assert_eq!(message(c.validate()), "Owm Client Validation error");
}

#[test]
fn queries_come_cities_then_coordinates_then_ids() {
    let zero = Decimal { negative: false, digits: 0, scale: 0 };
    let qs = query_list(
        vec![City::new("A", "B"), City::new("C", "D")],
        vec![Coord::new(zero, zero)],
        vec![CityId::new(7)],
    );
    assert_eq!(qs.len(), 4);
    assert!(matches!(&qs[0], Query::City(c) if c.name == "A"));
    assert!(matches!(&qs[1], Query::City(c) if c.name == "C"));
    assert!(matches!(&qs[2], Query::Coord(_)));
    assert!(matches!(&qs[3], Query::CityId(c) if c.id == 7));
}

#[test]
fn paths_are_joined_with_the_separator() {
    let ps = vec!["./a.yaml".to_string(), "./a.yml".to_string(), "/h/a.json".to_string()];
    assert_eq!(join_paths(&ps, ", "), "./a.yaml, ./a.yml, /h/a.json");
    assert_eq!(join_paths(&vec![], ", "), "");
}

#[test]
fn refused_options_become_a_validation_error() {
    let e = from_invalid_options(InvalidOptionsError { message: "m".to_string() });
    match e {
        ExporterError::ConfigValidationError { message, error: Some(inner) } => {
            assert_eq!(message, "invalid client options");
            assert_eq!(inner.message, "m");
        }
        other => panic!("unexpected {:?}", other),
    }
}
