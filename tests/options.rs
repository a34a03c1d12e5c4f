use owm_exporter::models::UnitSystem;
use owm_exporter::options::{is_maskable, mask, ClientOptions};

#[test]
fn client_options_default() {
    let def = ClientOptions::default(Some("some value".to_string()));

    assert_eq!(def.api_key, "some value");
    assert_eq!(def.language, "en");
    assert_eq!(def.units, UnitSystem::Metric);
}

#[test]
fn mask_only_shows_the_first_3_characters_always_followed_by_only_4_stars() {
    assert_eq!(mask("ABCDEFGHIJKLMNOPQRSTUVWZYZ"), "ABC****");
    assert_eq!(mask("ABCDEFGH"), "ABC****");
    assert_eq!(mask("ABCD"), "ABC****");
    assert_eq!(mask("ABC"), "AB****");
    assert_eq!(mask("AB"), "A****");
    assert_eq!(mask("A"), "****");
}

#[test]
fn mask_returns_empty_string_for_empty_input() {
    assert_eq!(mask(""), "");
}

#[test]
fn client_options_debug_masks_api_key() {
    let options = ClientOptions {
        api_key: "PLAINTEXT_API_KEY".to_string(),
        ..ClientOptions::default(None)
    };
    assert_eq!(options.api_key, "PLAINTEXT_API_KEY");

    let debug = options.debug_text();
    assert!(debug.find("PLAINTEXT") == None);
    assert!(debug.find("PLA****").is_some());
}

#[test]
fn client_options_masked_api_key_masks() {
    let options = ClientOptions {
        api_key: "PLAINTEXT_API_KEY".to_string(),
        ..ClientOptions::default(None)
    };
    assert_eq!(options.api_key, "PLAINTEXT_API_KEY");
    assert_eq!(options.masked_api_key(), "PLA****");
}

#[test]
fn client_options_mask_api_key_if_present() {
    let options = ClientOptions {
        api_key: "the".to_string(),
        ..ClientOptions::default(None)
    };
    assert_eq!(
        options.mask_api_key_if_present(
            "I think the quote is, \"It was the best of times, it was the worst of times, ...\""
        ),
        "I think th**** quote is, \"It was th**** best of times, it was th**** worst of times, ...\""
    );
}

#[test]
fn mask_keeps_whole_leading_characters_of_non_ascii_keys() {
    // "é" takes two bytes, so three bytes are "éa".
    assert_eq!(mask("éabc"), "éa****");
}

#[test]
fn mask_api_key_if_present_with_empty_key_changes_nothing() {
    let options = ClientOptions::default(None);
    assert_eq!(options.mask_api_key_if_present("abc"), "abc");
}

#[test]
fn debug_text_shows_all_options() {
    let options = ClientOptions {
        api_key: "abc123".to_string(),
        language: "de".to_string(),
        units: UnitSystem::Imperial,
    };
    assert_eq!(
        options.debug_text(),
        "Config { api_key: \"abc****\", language: \"de\", units: imperial }"
    );
}

#[test]
fn validate_refuses_blank_key() {
    let options = ClientOptions::default(None);
    let err = options.validate().unwrap_err();
    assert_eq!(err.message, "api_key must be non-blank");
    assert_eq!(err.text(), "invalid client config: api_key must be non-blank");
    let options = ClientOptions::default(Some("k".to_string()));
    assert!(options.validate().is_ok());
}

#[test]
fn unit_system_names() {
    assert_eq!(UnitSystem::Metric.name(), "metric");
    assert_eq!(UnitSystem::Standard.name(), "standard");
    assert_eq!(UnitSystem::Imperial.name(), "imperial");
}

#[test]
fn maskable_keys() {
    assert!(is_maskable(""));
    assert!(is_maskable("ABCDEFGH"));
    assert!(is_maskable("éabc"));
    // the third byte falls inside "€"
    assert!(!is_maskable("a€b"));
}
