use owm_exporter::text::{u64_text, Decimal};

#[test]
fn integers_render_in_decimal() {
    assert_eq!(u64_text(0), "0");
    assert_eq!(u64_text(2988507), "2988507");
    assert_eq!(u64_text(u64::MAX), "18446744073709551615");
}

#[test]
fn decimals_render_with_their_scale() {
    assert_eq!(Decimal { negative: false, digits: 488534, scale: 4 }.text(), "48.8534");
    assert_eq!(Decimal { negative: true, digits: 1, scale: 3 }.text(), "-0.001");
    assert_eq!(Decimal { negative: false, digits: 12, scale: 0 }.text(), "12");
    assert_eq!(Decimal::from_i64(i64::MIN).text(), "-9223372036854775808");
}

#[test]
fn decimals_parse_their_text() {
    assert_eq!(
        Decimal::parse("48.8534"),
        Some(Decimal { negative: false, digits: 488534, scale: 4 })
    );
    assert_eq!(
        Decimal::parse("-2.35"),
        Some(Decimal { negative: true, digits: 235, scale: 2 })
    );
    assert_eq!(Decimal::parse("7"), Some(Decimal { negative: false, digits: 7, scale: 0 }));
    assert_eq!(Decimal::parse(""), None);
    assert_eq!(Decimal::parse("-"), None);
    assert_eq!(Decimal::parse("1."), None);
    assert_eq!(Decimal::parse(".5"), None);
    assert_eq!(Decimal::parse("1e5"), None);
    assert_eq!(Decimal::parse("99999999999999999999"), None);
    for t in ["0.30000000000000004", "-273.15", "1013", "0.5"] {
        assert_eq!(Decimal::parse(t).unwrap().text(), t);
    }
}

#[test]
fn decimal_text_parses_back() {
    for d in [
        Decimal { negative: false, digits: 0, scale: 2 },
        Decimal { negative: true, digits: 5, scale: 3 },
        Decimal { negative: false, digits: u64::MAX, scale: 7 },
        Decimal { negative: true, digits: 42, scale: 0 },
    ] {
        assert_eq!(Decimal::parse(&d.text()), Some(d));
    }
    assert_eq!(Decimal { negative: false, digits: 0, scale: 2 }.text(), "0.00");
}
