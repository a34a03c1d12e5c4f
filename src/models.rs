//! Places to ask about, the unit systems of the service, and the shape of
//! one reading.
use vstd::prelude::*;

use crate::text::{nat_text, Decimal};

verus! {

/// The units in which the service reports magnitudes.
///
/// | Measurement   | Metric  | Standard | Imperial   |
/// | ------------- | ------- | -------- | ---------- |
/// | Temperature   | °C      | °K       | °F         |
/// | Speed         | m/s     | m/s      | miles/hour |
/// | Precipitation | mm      | mm       | mm         |
/// | Visibility    | meters  | meters   | meters     |
#[derive(Clone, Copy, Debug, PartialEq, Eq, Hash, Structural)]
pub enum UnitSystem {
    Metric,
    Standard,
    Imperial,
}

impl UnitSystem {
    pub open spec fn name_spec(self) -> &'static str {
        match self {
            UnitSystem::Metric => "metric",
            UnitSystem::Standard => "standard",
            UnitSystem::Imperial => "imperial",
        }
    }

    /// The name the service uses for this unit system.
    pub fn name(&self) -> (r: &'static str)
        ensures
            r == self.name_spec(),
    {
        match self {
            UnitSystem::Metric => "metric",
            UnitSystem::Standard => "standard",
            UnitSystem::Imperial => "imperial",
        }
    }
}

/// One query parameter: its name and its (unencoded) value.
pub type QueryParameter = (&'static str, String);

pub type QueryParameters = Vec<QueryParameter>;

/// Query parameters as pairs of character sequences.
pub open spec fn params_view(ps: Seq<QueryParameter>) -> Seq<(Seq<char>, Seq<char>)> {
    ps.map_values(|p: QueryParameter| (p.0@, p.1@))
}

/// A city, by name and country code.
#[derive(Clone, Debug)]
pub struct City {
    /// Often written `{cityname},{subdivision}`.
    pub name: String,
    /// An ISO 3166-1 two-letter country code.
    pub country_code: String,
    /// Shown instead of the name and country code when present.
    pub display_name: Option<String>,
}

/// A city, by the service's numeric id.
#[derive(Clone, Debug)]
pub struct CityId {
    pub id: u32,
    pub display_name: Option<String>,
}

/// A geographic location.
#[derive(Clone, Debug)]
pub struct Coord {
    pub lat: Decimal,
    pub lon: Decimal,
    pub display_name: Option<String>,
}

impl City {
    /// A city with just a name and a country code.
    pub fn new(name: &str, country_code: &str) -> (r: City)
        ensures
            r.name@ == name@,
            r.country_code@ == country_code@,
            r.display_name is None,
    {
        City { name: name.to_owned(), country_code: country_code.to_owned(), display_name: None }
    }

    /// `q` is `{name},{country_code}`.
    pub fn query_params(&self) -> (r: QueryParameters)
        ensures
            r@.len() == 1,
            r@[0].0 == "q",
            r@[0].1@ == self.name@ + seq![','] + self.country_code@,
    {
        let mut q = self.name.clone();
        crate::text::push_char(&mut q, ',');
        q.append(self.country_code.as_str());
        vec![("q", q)]
    }

    pub fn get_display_name(&self) -> (r: &Option<String>)
        ensures
            r == &self.display_name,
    {
        &self.display_name
    }

    /// The display name when present, else `{name}, {country_code}`.
    pub fn text(&self) -> (r: String)
        ensures
            r@ == match self.display_name {
                Some(d) => d@,
                None => self.name@ + seq![',', ' '] + self.country_code@,
            },
    {
        match &self.display_name {
            Some(d) => d.clone(),
            None => {
                let mut s = self.name.clone();
                s.append(", ");
                s.append(self.country_code.as_str());
                proof {
                    reveal_strlit(", ");
                    assert(s@ =~= self.name@ + seq![',', ' '] + self.country_code@);
                }
                s
            },
        }
    }
}

impl CityId {
    /// A city with just its id.
    pub fn new(id: u32) -> (r: CityId)
        ensures
            r.id == id,
            r.display_name is None,
    {
        CityId { id, display_name: None }
    }

    /// `id` is the decimal id.
    pub fn query_params(&self) -> (r: QueryParameters)
        ensures
            r@.len() == 1,
            r@[0].0 == "id",
            r@[0].1@ == nat_text(self.id as nat),
    {
        vec![("id", crate::text::u64_text(self.id as u64))]
    }

    pub fn get_display_name(&self) -> (r: &Option<String>)
        ensures
            r == &self.display_name,
    {
        &self.display_name
    }

    /// The display name when present, else the id.
    pub fn text(&self) -> (r: String)
        ensures
            r@ == match self.display_name {
                Some(d) => d@,
                None => nat_text(self.id as nat),
            },
    {
        match &self.display_name {
            Some(d) => d.clone(),
            None => crate::text::u64_text(self.id as u64),
        }
    }
}

impl Coord {
    /// A location with just a latitude and a longitude.
    pub fn new(lat: Decimal, lon: Decimal) -> (r: Coord)
        ensures
            r.lat == lat,
            r.lon == lon,
            r.display_name is None,
    {
        Coord { lat, lon, display_name: None }
    }

    /// `lat` and `lon`, in that order, as decimal text.
    pub fn query_params(&self) -> (r: QueryParameters)
        ensures
            r@.len() == 2,
            r@[0].0 == "lat",
            r@[0].1@ == self.lat.text_spec(),
            r@[1].0 == "lon",
            r@[1].1@ == self.lon.text_spec(),
    {
        vec![("lat", self.lat.text()), ("lon", self.lon.text())]
    }

    pub fn get_display_name(&self) -> (r: &Option<String>)
        ensures
            r == &self.display_name,
    {
        &self.display_name
    }

    /// The display name when present, else `lat={lat}, lon={lon}`.
    pub fn text(&self) -> (r: String)
        ensures
            r@ == match self.display_name {
                Some(d) => d@,
                None => seq!['l', 'a', 't', '='] + self.lat.text_spec() + seq![
                    ',',
                    ' ',
                    'l',
                    'o',
                    'n',
                    '=',
                ] + self.lon.text_spec(),
            },
    {
        match &self.display_name {
            Some(d) => d.clone(),
            None => {
                let mut s = String::new();
                s.append("lat=");
                s.append(self.lat.text().as_str());
                s.append(", lon=");
                s.append(self.lon.text().as_str());
                proof {
                    reveal_strlit("lat=");
                    reveal_strlit(", lon=");
                    assert(s@ =~= seq!['l', 'a', 't', '='] + self.lat.text_spec() + seq![
                        ',',
                        ' ',
                        'l',
                        'o',
                        'n',
                        '=',
                    ] + self.lon.text_spec());
                }
                s
            },
        }
    }
}

/// A way to name a place to the weather service: exactly one of three kinds.
#[derive(Clone, Debug)]
pub enum Query {
    City(City),
    CityId(CityId),
    Coord(Coord),
}

impl Query {
    /// The parameters that identify the place, as the service expects them.
    pub open spec fn params_spec(self) -> Seq<(Seq<char>, Seq<char>)> {
        match self {
            Query::City(c) => seq![("q"@, c.name@ + seq![','] + c.country_code@)],
            Query::CityId(c) => seq![("id"@, nat_text(c.id as nat))],
            Query::Coord(c) => seq![("lat"@, c.lat.text_spec()), ("lon"@, c.lon.text_spec())],
        }
    }

    pub open spec fn display_name_spec(self) -> Option<String> {
        match self {
            Query::City(c) => c.display_name,
            Query::CityId(c) => c.display_name,
            Query::Coord(c) => c.display_name,
        }
    }

    /// The query parameters of whichever kind this is.
    pub fn query_params(&self) -> (r: QueryParameters)
        ensures
            params_view(r@) == self.params_spec(),
    {
        let r = match self {
            Query::City(c) => c.query_params(),
            Query::CityId(c) => c.query_params(),
            Query::Coord(c) => c.query_params(),
        };
        proof {
            reveal_strlit("q");
            reveal_strlit("id");
            reveal_strlit("lat");
            reveal_strlit("lon");
            assert(params_view(r@) =~= self.params_spec());
        }
        r
    }

    /// The optional label used in logs and on published series.
    pub fn get_display_name(&self) -> (r: &Option<String>)
        ensures
            *r == self.display_name_spec(),
    {
        match self {
            Query::City(c) => &c.display_name,
            Query::CityId(c) => &c.display_name,
            Query::Coord(c) => &c.display_name,
        }
    }
}

/// One weather condition.
#[derive(Clone, Debug)]
pub struct Weather {
    pub id: u64,
    /// Group of weather parameters (Rain, Snow, ...).
    pub main: String,
    pub description: String,
    pub icon: String,
}

/// The main block of a reading. Temperatures are in the units of the
/// unit system that the call asked for.
#[derive(Clone, Debug)]
pub struct Main {
    pub temp: Decimal,
    pub feels_like: Decimal,
    pub temp_min: Decimal,
    pub temp_max: Decimal,
    /// hPa.
    pub pressure: Decimal,
    pub sea_level: Option<Decimal>,
    pub grnd_level: Option<Decimal>,
    /// Percent.
    pub humidity: Decimal,
}

#[derive(Clone, Debug)]
pub struct Wind {
    pub speed: Decimal,
    /// Meteorological degrees.
    pub deg: Decimal,
    pub gust: Option<Decimal>,
}

#[derive(Clone, Debug)]
pub struct Clouds {
    /// Percent.
    pub cloudiness: Decimal,
}

/// One- and three-hour accumulations, in mm; used for rain and for snow.
#[derive(Clone, Debug)]
pub struct PrecipVolume {
    pub one_hour: Option<Decimal>,
    pub three_hour: Option<Decimal>,
}

#[derive(Clone, Debug)]
pub struct Sys {
    pub type_: Option<u64>,
    pub id: Option<u64>,
    pub message: Option<Decimal>,
    pub country: Option<String>,
    /// Unix seconds, UTC.
    pub sunrise: i64,
    pub sunset: i64,
}

/// One reading of the current weather at a place.
#[derive(Clone, Debug)]
pub struct CurrentWeather {
    pub coord: Coord,
    pub weather: Vec<Weather>,
    pub base: String,
    pub main: Main,
    /// Meters.
    pub visibility: Option<u16>,
    pub wind: Wind,
    pub clouds: Clouds,
    pub rain: Option<PrecipVolume>,
    pub snow: Option<PrecipVolume>,
    /// Time of the reading, unix seconds.
    pub dt: i64,
    pub sys: Sys,
    /// Shift from UTC, seconds.
    pub timezone: i64,
    pub id: u64,
    pub name: String,
    pub cod: u64,
}

} // verus!
