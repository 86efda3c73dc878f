//! National Weather Service requests: where to ask, and what the answers mean.
use vstd::prelude::*;
use crate::text::{decimal, decimal_text};
use crate::types::{GridInfo, PointsResponse};

verus! {

pub const BASE_URL: &'static str = "https://api.weather.gov";

pub const USER_AGENT: &'static str =
    "cosmic-ext-whether/0.1.0 (https://github.com/nwxnw/cosmic-ext-whether)";

/// Why an NWS request failed.
#[derive(Debug, Clone)]
pub enum NwsError {
    Network(String),
    Api(String),
    Parse(String),
}

/// The text shown for an NWS error.
pub open spec fn nws_error_text(e: NwsError) -> Seq<char> {
    match e {
        NwsError::Network(m) => "Network error: "@ + m@,
        NwsError::Api(m) => "API error: "@ + m@,
        NwsError::Parse(m) => "Parse error: "@ + m@,
    }
}

impl NwsError {
    /// The text shown for the error.
    pub fn message(&self) -> (r: String)
        ensures
            r@ == nws_error_text(*self),
    {
        let (prefix, m) = match self {
            NwsError::Network(m) => ("Network error: ", m),
            NwsError::Api(m) => ("API error: ", m),
            NwsError::Parse(m) => ("Parse error: ", m),
        };
        let mut r = String::from_str(prefix);
        r.append(m.as_str());
        r
    }
}

/// The grid lookup address for a latitude and longitude.
pub fn points_url(lat: &str, lon: &str) -> (r: String)
    ensures
        r@ == BASE_URL@ + "/points/"@ + lat@ + ","@ + lon@,
{
    let mut r = String::from_str(BASE_URL);
    r.append("/points/");
    r.append(lat);
    r.append(",");
    r.append(lon);
    r
}

/// The units parameter for a forecast request.
pub open spec fn units_param(use_fahrenheit: bool) -> Seq<char> {
    if use_fahrenheit {
        "us"@
    } else {
        "si"@
    }
}

/// The 7-day forecast address for a grid.
pub fn forecast_url(grid: &GridInfo, use_fahrenheit: bool) -> (r: String)
    ensures
        r@ == BASE_URL@ + "/gridpoints/"@ + grid.office@ + "/"@ + decimal(grid.grid_x as nat)
            + ","@ + decimal(grid.grid_y as nat) + "/forecast?units="@ + units_param(
            use_fahrenheit,
        ),
{
    let mut r = String::from_str(BASE_URL);
    r.append("/gridpoints/");
    r.append(grid.office.as_str());
    r.append("/");
    let x = decimal_text(grid.grid_x);
    r.append(x.as_str());
    r.append(",");
    let y = decimal_text(grid.grid_y);
    r.append(y.as_str());
    r.append("/forecast?units=");
    r.append(if use_fahrenheit {
        "us"
    } else {
        "si"
    });
    r
}

/// The error for an NWS endpoint that answered with a non-success status.
pub fn status_error(endpoint: &str, status: &str) -> (r: NwsError)
    ensures
        match r {
            NwsError::Api(m) => m@ == endpoint@ + " API returned "@ + status@,
            _ => false,
        },
{
    let mut s = String::from_str(endpoint);
    s.append(" API returned ");
    s.append(status);
    NwsError::Api(s)
}

/// The place name a grid lookup reports: "City, State", or empty when it names none.
pub open spec fn points_place(p: PointsResponse) -> Seq<char> {
    match p.properties.relative_location {
        Some(rl) => rl.properties.city@ + ", "@ + rl.properties.state@,
        None => Seq::empty(),
    }
}

/// The grid and nearest place from a grid lookup.
pub fn grid_from_points(points: &PointsResponse) -> (r: (GridInfo, String))
    ensures
        r.0.office@ == points.properties.grid_id@,
        r.0.grid_x == points.properties.grid_x,
        r.0.grid_y == points.properties.grid_y,
        r.0.nearest_station is None,
        r.1@ == points_place(*points),
{
    let props = &points.properties;
    let grid = GridInfo {
        office: props.grid_id.clone(),
        grid_x: props.grid_x,
        grid_y: props.grid_y,
        nearest_station: None,
    };
    let name = match &props.relative_location {
        Some(rl) => {
            let mut s = rl.properties.city.clone();
            s.append(", ");
            s.append(rl.properties.state.as_str());
            s
        },
        None => String::new(),
    };
    (grid, name)
}

/// Forecasts are asked for in US units with Fahrenheit and in SI units with
/// Celsius.
pub proof fn forecasts_ask_in_the_chosen_units(use_fahrenheit: bool)
    ensures
        use_fahrenheit ==> units_param(use_fahrenheit) == "us"@,
        !use_fahrenheit ==> units_param(use_fahrenheit) == "si"@,
{
}

/// A grid lookup names its place "City, State" when it reports one, and
/// nothing otherwise.
pub proof fn lookups_name_city_and_state(p: PointsResponse)
    ensures
        p.properties.relative_location matches Some(rl) ==> points_place(p) == rl.properties.city@ + ", "@
            + rl.properties.state@,
        p.properties.relative_location is None ==> points_place(p).len() == 0,
{
}

} // verus!
