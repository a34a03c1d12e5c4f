use owm_exporter::client::{http_error, parse_error, request_params, response_outcome, url_for, ApiCallError};
use owm_exporter::models::{City, CityId, Query, UnitSystem};
use owm_exporter::options::ClientOptions;

fn options() -> ClientOptions {
    ClientOptions {
        api_key: "KEY123".to_string(),
        language: "fr".to_string(),
        units: UnitSystem::Imperial,
    }
}

#[test]
fn request_params_put_units_lang_appid_first() {
    let q = Query::CityId(CityId::new(2988507));
    assert_eq!(
        request_params(&options(), &q),
        vec![
            ("units", "imperial".to_string()),
            ("lang", "fr".to_string()),
            ("appid", "KEY123".to_string()),
            ("id", "2988507".to_string()),
        ]
    );
}

#[test]
fn url_percent_encodes_non_ascii_names() {
    let q = Query::City(City::new("Aripuanã", "BR"));
    let url = url_for(&options(), &q).unwrap();
    assert_eq!(
        url,
        "https://api.openweathermap.org/data/2.5/weather?units=imperial&lang=fr&appid=KEY123&q=Aripuan%C3%A3%2CBR"
    );
    let parsed = url::Url::parse(&url).unwrap();
    let pairs: Vec<(String, String)> = parsed.query_pairs().map(|(k, v)| (k.into_owned(), v.into_owned())).collect();
    assert_eq!(pairs[3], ("q".to_string(), "Aripuanã,BR".to_string()));
    assert_eq!(pairs[0].0, "units");
    assert_eq!(pairs[1].0, "lang");
    assert_eq!(pairs[2].0, "appid");
}

#[test]
fn url_encodes_spaces_as_plus() {
    let q = Query::City(City::new("New York", "US"));
    let url = url_for(&options(), &q).unwrap();
    assert!(url.ends_with("&q=New+York%2CUS"));
}

#[test]
fn status_200_with_text_body_is_ok() {
    let r = response_outcome(200, Ok(b"{\"name\": \"Paris\"}".to_vec()));
    assert_eq!(r.unwrap(), "{\"name\": \"Paris\"}");
}

#[test]
fn status_401_keeps_status_and_body() {
    let r = response_outcome(401, Ok(b"{\"cod\":401, \"message\": \"Invalid API key\"}".to_vec()));
    match r {
        Err(ApiCallError::InvalidResponsStatus { status, body }) => {
            assert_eq!(status, 401);
            assert_eq!(body, "{\"cod\":401, \"message\": \"Invalid API key\"}");
        }
        other => panic!("unexpected {:?}", other),
    }
}

#[test]
fn status_500_with_unreadable_body_gets_placeholder() {
    let r = response_outcome(500, Err("timeout".to_string()));
    match r {
        Err(ApiCallError::InvalidResponsStatus { status, body }) => {
            assert_eq!(status, 500);
            assert_eq!(body, "Error obtaining response body timeout");
        }
        other => panic!("unexpected {:?}", other),
    }
    let r = response_outcome(404, Ok(vec![0xff, 0xfe]));
    match r {
        Err(ApiCallError::InvalidResponsStatus { body, .. }) => {
            assert_eq!(body, "Error obtaining response body ResponseEncodingError");
        }
        other => panic!("unexpected {:?}", other),
    }
}

#[test]
fn status_200_with_invalid_utf8_is_encoding_error() {
    let r = response_outcome(200, Ok(vec![b'a', 0xc3]));
    assert!(matches!(r, Err(ApiCallError::ResponseEncodingError)));
    let r = response_outcome(200, Err("reset".to_string()));
    match r {
        Err(ApiCallError::ResponseReadError { error }) => assert_eq!(error, "reset"),
        other => panic!("unexpected {:?}", other),
    }
}

#[test]
fn status_200_decodes_multibyte_text() {
    let r = response_outcome(200, Ok("Aripuanã".as_bytes().to_vec()));
    assert_eq!(r.unwrap(), "Aripuanã");
}

#[test]
fn parse_error_keeps_body() {
    match parse_error("missing field `main`".to_string(), "{\"name\":\"Paris\"}".to_string()) {
        ApiCallError::ResponseParseError { error, content } => {
            assert_eq!(error, "missing field `main`");
            assert_eq!(content, "{\"name\":\"Paris\"}");
        }
        other => panic!("unexpected {:?}", other),
    }
}

#[test]
fn http_error_masks_key_in_url() {
    match http_error(&options(), "refused".to_string(), "https://x/?appid=KEY123&q=a") {
        ApiCallError::HttpError { error, url } => {
            assert_eq!(error, "refused");
            assert_eq!(url, "https://x/?appid=KEY****&q=a");
        }
        other => panic!("unexpected {:?}", other),
    }
}
