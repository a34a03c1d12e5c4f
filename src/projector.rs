//! From a query and what its call returned to labelled gauge values.
use vstd::prelude::*;

use crate::metric_metadata::{
    feels_like, feels_like_series, temperature, temperature_series, wind_gust, wind_gust_series,
    wind_speed, wind_speed_series, Series,
};
use crate::models::{params_view, CurrentWeather, PrecipVolume, Query, QueryParameters, UnitSystem};
use crate::text::{nat_text, u64_text, Decimal};

verus! {

/// The label that carries the query's display name, when it has one.
pub open spec fn display_label(q: Query) -> Seq<(Seq<char>, Seq<char>)> {
    match q.display_name_spec() {
        Some(d) => seq![("display_name"@, d@)],
        None => Seq::empty(),
    }
}

/// Appends the display name of `query`, if any, to `labels`.
pub fn add_display_name(query: &Query, labels: &mut QueryParameters)
    ensures
        params_view(final(labels)@) == params_view(old(labels)@) + display_label(*query),
{
    let ghost before = labels@;
    if let Some(display_name) = query.get_display_name() {
        labels.push(("display_name", display_name.clone()));
        proof {
            reveal_strlit("display_name");
            assert(params_view(labels@) =~= params_view(before) + display_label(*query));
        }
    } else {
        proof {
            assert(params_view(labels@) =~= params_view(before) + display_label(*query));
        }
    }
}

/// The labels of a query: its parameters, then its display name if any.
pub fn labels_for_query(query: &Query) -> (r: QueryParameters)
    ensures
        params_view(r@) == query.params_spec() + display_label(*query),
{
    let mut labels = query.query_params();
    add_display_name(query, &mut labels);
    labels
}

/// The location a reading is published under: the query's display name if
/// it has one, else the place name of the reading.
pub open spec fn location_spec(q: Query, reading: CurrentWeather) -> Seq<char> {
    match q.display_name_spec() {
        Some(d) => d@,
        None => reading.name@,
    }
}

/// The labels of a successful reading.
pub open spec fn reading_labels_spec(q: Query, reading: CurrentWeather) -> Seq<(Seq<char>, Seq<char>)> {
    seq![("location"@, location_spec(q, reading))] + q.params_spec() + display_label(q) + seq![
        ("reading_id"@, nat_text(reading.id as nat)),
        ("reading_lat"@, reading.coord.lat.text_spec()),
        ("reading_lon"@, reading.coord.lon.text_spec()),
        ("reading_name"@, reading.name@),
    ]
}

/// The labels of a successful reading: location, the query's labels, then
/// id, coordinates and name of the reading.
pub fn labels_for(query: &Query, reading: &CurrentWeather) -> (r: QueryParameters)
    ensures
        params_view(r@) == reading_labels_spec(*query, *reading),
{
    let location = match query.get_display_name() {
        Some(name) => name.clone(),
        None => reading.name.clone(),
    };
    let mut labels: QueryParameters = vec![("location", location)];
    let mut qp = query.query_params();
    labels.append(&mut qp);
    proof {
        reveal_strlit("location");
        assert(params_view(labels@) =~= seq![("location"@, location_spec(*query, *reading))]
            + query.params_spec());
    }
    add_display_name(query, &mut labels);
    let ghost head = params_view(labels@);
    assert(head == seq![("location"@, location_spec(*query, *reading))] + query.params_spec()
        + display_label(*query));
    labels.push(("reading_id", u64_text(reading.id)));
    labels.push(("reading_lat", reading.coord.lat.text()));
    labels.push(("reading_lon", reading.coord.lon.text()));
    labels.push(("reading_name", reading.name.clone()));
    proof {
        reveal_strlit("reading_id");
        reveal_strlit("reading_lat");
        reveal_strlit("reading_lon");
        reveal_strlit("reading_name");
        assert(params_view(labels@) =~= head + seq![
            ("reading_id"@, nat_text(reading.id as nat)),
            ("reading_lat"@, reading.coord.lat.text_spec()),
            ("reading_lon"@, reading.coord.lon.text_spec()),
            ("reading_name"@, reading.name@),
        ]);
        assert(params_view(labels@) =~= reading_labels_spec(*query, *reading));
    }
    labels
}

/// A whole number as a decimal.
pub open spec fn whole(v: int) -> Decimal {
    Decimal { negative: v < 0, digits: (if v < 0 { -v } else { v }) as u64, scale: 0 }
}

/// One write when the value is present, none otherwise.
pub open spec fn optional_write(s: Series, v: Option<Decimal>) -> Seq<(Series, Decimal)> {
    match v {
        Some(x) => seq![(s, x)],
        None => Seq::empty(),
    }
}

/// The writes of a rain or snow block: each accumulation only when present.
pub open spec fn precip_writes(p: Option<PrecipVolume>, one: Series, three: Series) -> Seq<(Series, Decimal)> {
    match p {
        Some(v) => optional_write(one, v.one_hour) + optional_write(three, v.three_hour),
        None => Seq::empty(),
    }
}

/// The values a reading publishes, in order, with the series chosen by the
/// unit system; absent fields publish nothing.
pub open spec fn reading_writes(r: CurrentWeather, units: UnitSystem) -> Seq<(Series, Decimal)> {
    seq![
        (Series::Timestamp, whole(r.dt as int)),
        (temperature_series(units), r.main.temp),
        (feels_like_series(units), r.main.feels_like),
        (Series::Pressure, r.main.pressure),
        (Series::Humidity, r.main.humidity),
        (wind_speed_series(units), r.wind.speed),
        (Series::WindDirection, r.wind.deg),
    ] + optional_write(wind_gust_series(units), r.wind.gust) + seq![
        (Series::Cloudiness, r.clouds.cloudiness),
    ] + optional_write(
        Series::Visibility,
        match r.visibility {
            Some(v) => Some(whole(v as int)),
            None => None,
        },
    ) + precip_writes(r.rain, Series::Rain1h, Series::Rain3h) + precip_writes(
        r.snow,
        Series::Snow1h,
        Series::Snow3h,
    )
}

fn push_optional(out: &mut Vec<(Series, Decimal)>, s: Series, v: Option<Decimal>)
    ensures
        final(out)@ == old(out)@ + optional_write(s, v),
{
    let ghost before = out@;
    if let Some(x) = v {
        out.push((s, x));
    }
    proof {
        assert(out@ =~= before + optional_write(s, v));
    }
}

fn push_precip(out: &mut Vec<(Series, Decimal)>, p: &Option<PrecipVolume>, one: Series, three: Series)
    ensures
        final(out)@ == old(out)@ + precip_writes(*p, one, three),
{
    let ghost before = out@;
    if let Some(v) = p {
        push_optional(out, one, v.one_hour);
        push_optional(out, three, v.three_hour);
    }
    proof {
        assert(out@ =~= before + precip_writes(*p, one, three));
    }
}

/// The values that a reading publishes, each with its series.
pub fn write_reading_values(reading: &CurrentWeather, units: UnitSystem) -> (r: Vec<(Series, Decimal)>)
    ensures
        r@ == reading_writes(*reading, units),
{
    let mut out: Vec<(Series, Decimal)> = Vec::new();
    out.push((Series::Timestamp, Decimal::from_i64(reading.dt)));
    out.push((temperature(units), reading.main.temp));
    out.push((feels_like(units), reading.main.feels_like));
    out.push((Series::Pressure, reading.main.pressure));
    out.push((Series::Humidity, reading.main.humidity));
    out.push((wind_speed(units), reading.wind.speed));
    out.push((Series::WindDirection, reading.wind.deg));
    push_optional(&mut out, wind_gust(units), reading.wind.gust);
    out.push((Series::Cloudiness, reading.clouds.cloudiness));
    let visibility = match reading.visibility {
        Some(v) => Some(Decimal { negative: false, digits: v as u64, scale: 0 }),
        None => None,
    };
    push_optional(&mut out, Series::Visibility, visibility);
    push_precip(&mut out, &reading.rain, Series::Rain1h, Series::Rain3h);
    push_precip(&mut out, &reading.snow, Series::Snow1h, Series::Snow3h);
    proof {
        assert(out@ =~= reading_writes(*reading, units));
    }
    out
}

/// Everything one call publishes.
pub struct Projection {
    /// Whether the call succeeded: the success series gets 1 or 0.
    pub success: bool,
    /// The labels of the success series.
    pub query_labels: QueryParameters,
    /// The labels of the reading's series; empty after a failure.
    pub reading_labels: QueryParameters,
    /// The reading's values; empty after a failure, so that no other series
    /// is touched.
    pub values: Vec<(Series, Decimal)>,
}

/// What one call publishes: always the success indicator under the query's
/// labels; after a success also the reading's values under its labels.
pub fn project(query: &Query, outcome: Option<&CurrentWeather>, units: UnitSystem) -> (r: Projection)
    ensures
        r.success == outcome is Some,
        params_view(r.query_labels@) == query.params_spec() + display_label(*query),
        match outcome {
            Some(reading) => params_view(r.reading_labels@) == reading_labels_spec(*query, *reading)
                && r.values@ == reading_writes(*reading, units),
            None => r.reading_labels@.len() == 0 && r.values@.len() == 0,
        },
{
    let query_labels = labels_for_query(query);
    match outcome {
        Some(reading) => Projection {
            success: true,
            query_labels,
            reading_labels: labels_for(query, reading),
            values: write_reading_values(reading, units),
        },
        None => Projection {
            success: false,
            query_labels,
            reading_labels: Vec::new(),
            values: Vec::new(),
        },
    }
}

/// A reading without gust, visibility, rain or snow publishes nothing to the
/// gust, visibility, rain and snow series.
pub proof fn lemma_absent_fields_not_written(reading: CurrentWeather, units: UnitSystem)
    requires
        reading.wind.gust is None,
        reading.visibility is None,
        reading.rain is None,
        reading.snow is None,
    ensures
        forall|i: int|
            0 <= i < reading_writes(reading, units).len() ==> {
                let s = #[trigger] reading_writes(reading, units)[i].0;
                s != Series::WindGustMetersPerSecond && s != Series::WindGustMilesPerHour && s
                    != Series::Visibility && s != Series::Rain1h && s != Series::Rain3h && s
                    != Series::Snow1h && s != Series::Snow3h
            },
{
    assert(reading_writes(reading, units) =~= seq![
        (Series::Timestamp, whole(reading.dt as int)),
        (temperature_series(units), reading.main.temp),
        (feels_like_series(units), reading.main.feels_like),
        (Series::Pressure, reading.main.pressure),
        (Series::Humidity, reading.main.humidity),
        (wind_speed_series(units), reading.wind.speed),
        (Series::WindDirection, reading.wind.deg),
        (Series::Cloudiness, reading.clouds.cloudiness),
    ]);
}

/// The unit system picks the series: miles/hour for wind only under
/// imperial units, and Celsius, Fahrenheit or Kelvin temperatures for
/// metric, imperial and standard units.
pub proof fn lemma_unit_selection()
    ensures
        wind_speed_series(UnitSystem::Imperial) == Series::WindSpeedMilesPerHour,
        wind_gust_series(UnitSystem::Imperial) == Series::WindGustMilesPerHour,
        wind_speed_series(UnitSystem::Metric) == Series::WindSpeedMetersPerSecond,
        wind_speed_series(UnitSystem::Standard) == Series::WindSpeedMetersPerSecond,
        wind_gust_series(UnitSystem::Metric) == Series::WindGustMetersPerSecond,
        wind_gust_series(UnitSystem::Standard) == Series::WindGustMetersPerSecond,
        temperature_series(UnitSystem::Metric) == Series::TemperatureCelsius,
        temperature_series(UnitSystem::Imperial) == Series::TemperatureFarenheight,
        temperature_series(UnitSystem::Standard) == Series::TemperatureKelvin,
        feels_like_series(UnitSystem::Metric) == Series::FeelsLikeCelsius,
        feels_like_series(UnitSystem::Imperial) == Series::FeelsLikeFarenheight,
        feels_like_series(UnitSystem::Standard) == Series::FeelsLikeKelvin,
{
}

} // verus!
