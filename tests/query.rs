use owm_exporter::models::{City, CityId, Coord, Query, QueryParameter};
use owm_exporter::text::Decimal;

fn dec(negative: bool, digits: u64, scale: u32) -> Decimal {
    Decimal { negative, digits, scale }
}

fn coord_query() -> (Coord, Vec<QueryParameter>) {
    (
        Coord {
            lat: dec(false, 12345, 4),
            lon: dec(false, 56789, 4),
            display_name: None,
        },
        vec![("lat", "1.2345".to_owned()), ("lon", "5.6789".to_owned())],
    )
}

fn city_query1() -> (City, Vec<QueryParameter>) {
    (
        City {
            name: "Aripuanã".to_owned(),
            country_code: "BR".to_owned(),
            display_name: None,
        },
        vec![("q", "Aripuanã,BR".to_owned())],
    )
}

fn city_query2() -> (City, Vec<QueryParameter>) {
    (
        City {
            name: "Springfield,IL".to_owned(),
            country_code: "US".to_owned(),
            display_name: None,
        },
        vec![("q", "Springfield,IL,US".to_owned())],
    )
}

fn city_id_query() -> (CityId, Vec<QueryParameter>) {
    (
        CityId {
            id: 3665202,
            display_name: None,
        },
        vec![("id", "3665202".to_owned())],
    )
}

#[test]
fn test_query_params() {
    let (query, expected) = coord_query();
    assert_eq!(query.query_params(), expected);

    let (query, expected) = city_query1();
    assert_eq!(query.query_params(), expected);

    let (query, expected) = city_query2();
    assert_eq!(query.query_params(), expected);

    let (query, expected) = city_id_query();
    assert_eq!(query.query_params(), expected);
}

fn is_sync<T: Sync>(_: &T) -> bool {
    true
}
fn is_send<T: Send>(_: &T) -> bool {
    true
}

#[test]
fn ensure_query_stays_send_plus_sync() {
    let (query, _) = coord_query();
    assert!(is_sync(&query));
    assert!(is_send(&query));

    let (query, _) = city_query1();
    assert!(is_sync(&query));
    assert!(is_send(&query));

    let (query, _) = city_query2();
    assert!(is_sync(&query));
    assert!(is_send(&query));

    let (query, _) = city_id_query();
    assert!(is_sync(&query));
    assert!(is_send(&query));
}

#[test]
fn query_enum_params_match_each_kind() {
    let (c, expected) = coord_query();
    assert_eq!(Query::Coord(c).query_params(), expected);
    let (c, expected) = city_query1();
    assert_eq!(Query::City(c).query_params(), expected);
    let (c, expected) = city_id_query();
    assert_eq!(Query::CityId(c).query_params(), expected);
    // the same query gives the same parameters every time
    let q = Query::City(City::new("Paris", "FR"));
    assert_eq!(q.query_params(), q.query_params());
}

#[test]
fn negative_coordinates_and_display_names() {
    let mut c = Coord::new(dec(true, 5, 2), dec(false, 180, 0));
    assert_eq!(
        c.query_params(),
        vec![("lat", "-0.05".to_owned()), ("lon", "180".to_owned())]
    );
    assert_eq!(c.text(), "lat=-0.05, lon=180");
    c.display_name = Some("Here".to_owned());
    assert_eq!(Query::Coord(c).get_display_name(), &Some("Here".to_owned()));
    assert_eq!(City::new("Paris", "FR").text(), "Paris, FR");
    assert_eq!(CityId::new(42).text(), "42");
}
