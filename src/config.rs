//! The exporter's configuration: its checks, its defaults, and the order in
//! which its places are queried.
use vstd::prelude::*;

use crate::client::ApiCallError;
use crate::models::{City, CityId, Coord, Query};
use crate::options::{ClientOptions, InvalidOptionsError};

verus! {

/// Why the exporter cannot start or go on.
#[derive(Debug)]
pub enum ExporterError {
    /// The metrics endpoint could not be set up.
    ExporterStartFailure { error: String },
    ConfigNotFound { message: String },
    ConfigReadError { path: String, error: String },
    ConfigFormatError { path: String, error: String },
    ConfigValidationError { message: String, error: Option<InvalidOptionsError> },
    ApiCallError(ApiCallError),
}

/// Refused client options, as a configuration error.
pub fn from_invalid_options(error: InvalidOptionsError) -> (r: ExporterError)
    ensures
        (r matches ExporterError::ConfigValidationError { message, error: Some(e) } && message@
            == "invalid client options"@ && e.message@ == error.message@),
{
    ExporterError::ConfigValidationError {
        message: String::from_str("invalid client options"),
        error: Some(error),
    }
}

/// What the exporter reads from its configuration file, but for where it
/// listens.
pub struct ExporterConfig {
    pub owm: ClientOptions,
    pub poll_interval_seconds: u64,
    /// Must be positive.
    pub max_calls_per_minute: u16,
    pub cities: Vec<City>,
    pub coordinates: Vec<Coord>,
    pub locations: Vec<CityId>,
}

impl ExporterConfig {
    /// 60 seconds.
    pub fn default_poll_interval() -> (r: u64)
        ensures
            r == 60,
    {
        60
    }

    /// 60 calls.
    pub fn default_max_calls_per_minute() -> (r: u16)
        ensures
            r == 60,
    {
        60
    }

    /// Refuses a configuration without places, with no call budget, or with
    /// refused client options; in that order.
    pub fn validate(&self) -> (r: Result<(), ExporterError>)
        ensures
            r is Ok <==> (self.cities@.len() + self.coordinates@.len() + self.locations@.len() > 0
                && self.max_calls_per_minute > 0 && self.owm.api_key@.len() > 0),
            self.cities@.len() + self.coordinates@.len() + self.locations@.len() == 0 ==> (r matches Err(
                ExporterError::ConfigValidationError { message, error: None },
            ) && message@ == "No cities or coordinates or locations were specified in the config"@),
            self.cities@.len() + self.coordinates@.len() + self.locations@.len() > 0
                && self.max_calls_per_minute == 0 ==> (r matches Err(
                ExporterError::ConfigValidationError { message, error: None },
            ) && message@ == "max_calls_per_minute must > 0"@),
            self.cities@.len() + self.coordinates@.len() + self.locations@.len() > 0
                && self.max_calls_per_minute > 0 && self.owm.api_key@.len() == 0 ==> (r matches Err(
                ExporterError::ConfigValidationError { message, error: Some(_) },
            ) && message@ == "Owm Client Validation error"@),
    {
        if self.cities.len() == 0 && self.coordinates.len() == 0 && self.locations.len() == 0 {
            return Err(
                ExporterError::ConfigValidationError {
                    message: String::from_str(
                        "No cities or coordinates or locations were specified in the config",
                    ),
                    error: None,
                },
            );
        }
        if self.max_calls_per_minute == 0 {
            return Err(
                ExporterError::ConfigValidationError {
                    message: String::from_str("max_calls_per_minute must > 0"),
                    error: None,
                },
            );
        }
        match self.owm.validate() {
            Ok(()) => Ok(()),
            Err(e) => Err(
                ExporterError::ConfigValidationError {
                    message: String::from_str("Owm Client Validation error"),
                    error: Some(e),
                },
            ),
        }
    }
}

/// The places in the order they are queried: cities, then coordinates, then
/// city ids, each in the order given.
pub open spec fn query_order(cities: Seq<City>, coordinates: Seq<Coord>, locations: Seq<CityId>) -> Seq<Query> {
    cities.map_values(|c: City| Query::City(c)) + coordinates.map_values(|c: Coord| Query::Coord(c))
        + locations.map_values(|c: CityId| Query::CityId(c))
}

/// All configured places as queries, in the order they are queried.
pub fn query_list(cities: Vec<City>, coordinates: Vec<Coord>, locations: Vec<CityId>) -> (r: Vec<Query>)
    ensures
        r@ == query_order(cities@, coordinates@, locations@),
{
    let mut r: Vec<Query> = Vec::new();
    let ghost cs = cities@;
    let ghost ks = coordinates@;
    let ghost ls = locations@;
    let mut cities = cities;
    let mut coordinates = coordinates;
    let mut locations = locations;
    let ghost target = query_order(cs, ks, ls);
    let ghost n1 = cs.len();
    let ghost n2 = ks.len();
    proof {
        assert(cs.subrange(0, n1 as int) =~= cs);
        assert(ks.subrange(0, n2 as int) =~= ks);
        assert(ls.subrange(0, ls.len() as int) =~= ls);
    }
    while cities.len() > 0
        invariant
            cs.len() == n1,
            r@.len() + cities@.len() == n1,
            forall|i: int| 0 <= i < r@.len() ==> r@[i] == target[i],
            cities@ == cs.subrange(n1 - cities@.len(), n1 as int),
            target == query_order(cs, ks, ls),
        decreases cities@.len(),
    {
        let c = cities.remove(0);
        r.push(Query::City(c));
    }
    while coordinates.len() > 0
        invariant
            ks.len() == n2,
            cs.len() == n1,
            r@.len() == n1 + n2 - coordinates@.len(),
            coordinates@.len() <= n2,
            forall|i: int| 0 <= i < r@.len() ==> r@[i] == target[i],
            coordinates@ == ks.subrange(n2 - coordinates@.len(), n2 as int),
            target == query_order(cs, ks, ls),
        decreases coordinates@.len(),
    {
        let c = coordinates.remove(0);
        r.push(Query::Coord(c));
    }
    while locations.len() > 0
        invariant
            ks.len() == n2,
            cs.len() == n1,
            r@.len() == n1 + n2 + ls.len() - locations@.len(),
            locations@.len() <= ls.len(),
            forall|i: int| 0 <= i < r@.len() ==> r@[i] == target[i],
            locations@ == ls.subrange(ls.len() - locations@.len(), ls.len() as int),
            target == query_order(cs, ks, ls),
        decreases locations@.len(),
    {
        let c = locations.remove(0);
        r.push(Query::CityId(c));
    }
    proof {
        assert(r@ =~= target);
    }
    r
}

/// The texts joined with `separator` between each two.
pub open spec fn joined(parts: Seq<Seq<char>>, separator: Seq<char>) -> Seq<char>
    decreases parts.len(),
{
    if parts.len() == 0 {
        Seq::empty()
    } else if parts.len() == 1 {
        parts[0]
    } else {
        joined(parts.drop_last(), separator) + separator + parts.last()
    }
}

/// Joins paths, written as text, with a separator.
pub fn join_paths(paths: &Vec<String>, separator: &str) -> (r: String)
    ensures
        r@ == joined(paths@.map_values(|p: String| p@), separator@),
{
    let ghost parts = paths@.map_values(|p: String| p@);
    let mut out = String::new();
    let mut i: usize = 0;
    while i < paths.len()
        invariant
            i <= paths@.len(),
            parts == paths@.map_values(|p: String| p@),
            out@ == joined(parts.subrange(0, i as int), separator@),
        decreases paths@.len() - i,
    {
        if i > 0 {
            out.append(separator);
        }
        out.append(paths[i].as_str());
        i = i + 1;
        proof {
            let sub = parts.subrange(0, i as int);
            assert(sub.drop_last() =~= parts.subrange(0, i - 1));
        }
    }
    proof {
        assert(parts.subrange(0, i as int) =~= parts);
    }
    out
}

} // verus!
