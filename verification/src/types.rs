//! Data types shared across the applet, and the helpers that shape them.
use vstd::prelude::*;
use crate::text::text_eq;

verus! {

/// Which service supplies the forecast for a saved location.
#[derive(Debug, Clone, Copy, PartialEq, Eq, Structural)]
pub enum WeatherSource {
    Nws,
    OpenMeteo,
}

impl WeatherSource {
    /// The short name shown for the source.
    pub fn label(&self) -> (r: &'static str)
        ensures
            r@ == (match self {
                WeatherSource::Nws => "NWS"@,
                WeatherSource::OpenMeteo => "Open-Meteo"@,
            }),
    {
        match self {
            WeatherSource::Nws => "NWS",
            WeatherSource::OpenMeteo => "Open-Meteo",
        }
    }

    /// The other source.
    pub fn toggle(&self) -> (r: Self)
        ensures
            r == toggled(*self),
    {
        match self {
            WeatherSource::Nws => WeatherSource::OpenMeteo,
            WeatherSource::OpenMeteo => WeatherSource::Nws,
        }
    }

    /// The sources valid for a country code; an unknown code (`None`) counts as US.
    pub fn available_for(country_code: Option<&str>) -> (r: Vec<WeatherSource>)
        ensures
            r@ == (if country_code is None || country_code.unwrap()@ == "us"@ {
                seq![WeatherSource::Nws, WeatherSource::OpenMeteo]
            } else {
                seq![WeatherSource::OpenMeteo]
            }),
    {
        let us_like = match country_code {
            None => true,
            Some(cc) => text_eq(cc, "us"),
        };
        let mut v: Vec<WeatherSource> = Vec::new();
        if us_like {
            v.push(WeatherSource::Nws);
        }
        v.push(WeatherSource::OpenMeteo);
        proof {
            if us_like {
                assert(v@ =~= seq![WeatherSource::Nws, WeatherSource::OpenMeteo]);
            } else {
                assert(v@ =~= seq![WeatherSource::OpenMeteo]);
            }
        }
        v
    }
}


/// The source after a switch.
pub open spec fn toggled(s: WeatherSource) -> WeatherSource {
    match s {
        WeatherSource::Nws => WeatherSource::OpenMeteo,
        WeatherSource::OpenMeteo => WeatherSource::Nws,
    }
}

/// Switching the source twice gives the source back, and a switch always changes it.
pub proof fn source_toggle_is_an_involution(s: WeatherSource)
    ensures
        toggled(toggled(s)) == s,
        toggled(s) != s,
{
}

impl Default for WeatherSource {
    fn default() -> (r: Self)
        ensures
            r == WeatherSource::Nws,
    {
        WeatherSource::Nws
    }
}

// --- Conditions and wind directions ---

/// Sky condition class of a forecast, one per group of WMO codes.
#[derive(Debug, Clone, Copy, PartialEq, Eq, Structural)]
pub enum Condition {
    ClearSky,
    MainlyClear,
    PartlyCloudy,
    Overcast,
    Foggy,
    Drizzle,
    FreezingDrizzle,
    Rain,
    FreezingRain,
    Snow,
    SnowGrains,
    RainShowers,
    SnowShowers,
    Thunderstorm,
    ThunderstormHail,
    Unknown,
}

/// Wind bearing rounded to one of eight compass points.
#[derive(Debug, Clone, Copy, PartialEq, Eq, Structural)]
pub enum Compass {
    N,
    NE,
    E,
    SE,
    S,
    SW,
    W,
    NW,
}

/// The short label of a compass point.
pub open spec fn compass_label(c: Compass) -> Seq<char> {
    match c {
        Compass::N => "N"@,
        Compass::NE => "NE"@,
        Compass::E => "E"@,
        Compass::SE => "SE"@,
        Compass::S => "S"@,
        Compass::SW => "SW"@,
        Compass::W => "W"@,
        Compass::NW => "NW"@,
    }
}

impl Compass {
    /// The short label of the compass point ("N", "NE", ...).
    pub fn as_str(&self) -> (r: &'static str)
        ensures
            r@ == compass_label(*self),
    {
        match self {
            Compass::N => "N",
            Compass::NE => "NE",
            Compass::E => "E",
            Compass::SE => "SE",
            Compass::S => "S",
            Compass::SW => "SW",
            Compass::W => "W",
            Compass::NW => "NW",
        }
    }
}

// --- Weather alert types ---

#[derive(Debug, Clone, Copy, PartialEq, Eq, Structural)]
pub enum AlertSeverity {
    Extreme,
    Severe,
    Moderate,
    Minor,
    Unknown,
}

/// One active alert for one area.
#[derive(Debug, Clone)]
pub struct WeatherAlert {
    pub id: String,
    pub event: String,
    pub headline: String,
    pub description: String,
    pub severity: AlertSeverity,
    /// Expiry, in seconds since the Unix epoch.
    pub expires: i64,
    pub area_desc: String,
}

/// What makes two alert rows the same row: the alert's identifier and its area.
pub open spec fn alert_key(a: WeatherAlert) -> (Seq<char>, Seq<char>) {
    (a.id@, a.area_desc@)
}

impl WeatherAlert {
    /// The identifier and area of the alert, which name one row.
    pub fn key(&self) -> (r: (String, String))
        ensures
            (r.0@, r.1@) == alert_key(*self),
    {
        (self.id.clone(), self.area_desc.clone())
    }
}

/// The outcome of an alert fetch.
#[derive(Debug, Clone)]
pub enum Alerts {
    /// Alerts narrowed to the caller's area.
    Local(Vec<WeatherAlert>),
    /// A national list that could not be narrowed to the area.
    National(Vec<WeatherAlert>),
    /// The fetch failed; the text says why.
    Unavailable(String),
}

/// The alert rows held by an outcome; none when the fetch failed.
pub open spec fn alerts_list(a: Alerts) -> Seq<WeatherAlert> {
    match a {
        Alerts::Local(v) => v@,
        Alerts::National(v) => v@,
        Alerts::Unavailable(_) => Seq::empty(),
    }
}

impl Alerts {
    /// The alert rows; empty when the fetch failed.
    pub fn list(&self) -> (r: &[WeatherAlert])
        ensures
            r@ == alerts_list(*self),
    {
        match self {
            Alerts::Local(v) => v.as_slice(),
            Alerts::National(v) => v.as_slice(),
            Alerts::Unavailable(_) => &[],
        }
    }
}

// --- NWS alert response types ---

pub struct AlertsResponse {
    pub features: Vec<AlertFeature>,
}

pub struct AlertFeature {
    pub properties: AlertProperties,
}

pub struct AlertProperties {
    pub event: String,
    pub headline: Option<String>,
    pub severity: String,
}

// --- Forecast types ---

/// Chance of precipitation, in percent.
#[derive(Debug, Clone, Copy, PartialEq, Eq, Structural)]
pub struct PrecipValue {
    pub value: Option<i32>,
}

/// One forecast period: a day, a night or an hour.
#[derive(Debug, Clone)]
pub struct ForecastPeriod {
    pub name: String,
    pub condition: Option<Condition>,
    pub temperature: i32,
    pub temperature_unit: String,
    pub wind_speed: String,
    pub wind_direction: String,
    pub compass: Option<Compass>,
    pub short_forecast: String,
    pub detailed_forecast: String,
    pub is_daytime: bool,
    pub probability_of_precipitation: Option<PrecipValue>,
    pub start_time: Option<String>,
}

pub struct PeriodView {
    pub name: Seq<char>,
    pub condition: Option<Condition>,
    pub temperature: i32,
    pub temperature_unit: Seq<char>,
    pub wind_speed: Seq<char>,
    pub wind_direction: Seq<char>,
    pub compass: Option<Compass>,
    pub short_forecast: Seq<char>,
    pub detailed_forecast: Seq<char>,
    pub is_daytime: bool,
    pub probability_of_precipitation: Option<PrecipValue>,
    pub start_time: Option<Seq<char>>,
}

impl View for ForecastPeriod {
    type V = PeriodView;

    open spec fn view(&self) -> PeriodView {
        PeriodView {
            name: self.name@,
            condition: self.condition,
            temperature: self.temperature,
            temperature_unit: self.temperature_unit@,
            wind_speed: self.wind_speed@,
            wind_direction: self.wind_direction@,
            compass: self.compass,
            short_forecast: self.short_forecast@,
            detailed_forecast: self.detailed_forecast@,
            is_daytime: self.is_daytime,
            probability_of_precipitation: self.probability_of_precipitation,
            start_time: opt_text(self.start_time),
        }
    }
}

/// The views of a sequence of periods.
pub open spec fn periods_view(s: Seq<ForecastPeriod>) -> Seq<PeriodView> {
    s.map_values(|p: ForecastPeriod| p@)
}

/// Sunrise and sunset of one day, as local ISO timestamps.
#[derive(Debug, Clone)]
pub struct DailySun {
    pub date: String,
    pub sunrise: String,
    pub sunset: String,
}

#[derive(Debug, Clone)]
pub struct Forecast {
    pub location_name: String,
    pub periods: Vec<ForecastPeriod>,
    pub hourly_periods: Vec<ForecastPeriod>,
    pub sun_times: Vec<DailySun>,
    pub utc_offset_seconds: i32,
}

/// Current conditions at the location.
#[derive(Debug, Clone)]
pub struct CurrentObservation {
    pub temperature: Option<i32>,
    pub temperature_unit: String,
    pub condition: Option<Condition>,
    pub wind_speed: Option<String>,
    pub wind_direction: Option<String>,
    pub compass: Option<Compass>,
    pub humidity: Option<i32>,
    pub is_daytime: bool,
    pub feels_like: Option<i32>,
    pub dew_point: Option<i32>,
    pub cloud_cover: Option<i32>,
    pub wind_gusts: Option<String>,
}

pub struct ObservationView {
    pub temperature: Option<i32>,
    pub temperature_unit: Seq<char>,
    pub condition: Option<Condition>,
    pub wind_speed: Option<Seq<char>>,
    pub wind_direction: Option<Seq<char>>,
    pub compass: Option<Compass>,
    pub humidity: Option<i32>,
    pub is_daytime: bool,
    pub feels_like: Option<i32>,
    pub dew_point: Option<i32>,
    pub cloud_cover: Option<i32>,
    pub wind_gusts: Option<Seq<char>>,
}

impl View for CurrentObservation {
    type V = ObservationView;

    open spec fn view(&self) -> ObservationView {
        ObservationView {
            temperature: self.temperature,
            temperature_unit: self.temperature_unit@,
            condition: self.condition,
            wind_speed: opt_text(self.wind_speed),
            wind_direction: opt_text(self.wind_direction),
            compass: self.compass,
            humidity: self.humidity,
            is_daytime: self.is_daytime,
            feels_like: self.feels_like,
            dew_point: self.dew_point,
            cloud_cover: self.cloud_cover,
            wind_gusts: opt_text(self.wind_gusts),
        }
    }
}

// --- Air quality ---

#[derive(Debug, Clone, Copy, PartialEq, Eq, Structural)]
pub enum UsAqiCategory {
    Good,
    Moderate,
    UnhealthySensitive,
    Unhealthy,
    VeryUnhealthy,
    Hazardous,
}

#[derive(Debug, Clone, Copy, PartialEq, Eq, Structural)]
pub enum EuAqiCategory {
    Good,
    Fair,
    Moderate,
    Poor,
    VeryPoor,
    ExtremelyPoor,
}

/// An AQI category on the US or the European scale.
#[derive(Debug, Clone, Copy, PartialEq, Eq, Structural)]
pub enum AqiCategory {
    Us(UsAqiCategory),
    Eu(EuAqiCategory),
}

/// Headline air quality: the index, its category and a scale-free severity 0..=5.
#[derive(Debug, Clone, Copy, PartialEq, Eq, Structural)]
pub struct AirQuality {
    pub aqi: i32,
    pub category: AqiCategory,
    pub severity: u8,
}

/// Everything one fetch yields for the applet.
#[derive(Debug, Clone)]
pub struct WeatherResult {
    pub forecast: Forecast,
    pub cached_grid: Option<GridInfo>,
    pub alerts: Alerts,
    pub observation: Option<CurrentObservation>,
    pub air_quality: Option<AirQuality>,
}

// --- NWS response types ---

pub struct PointsResponse {
    pub properties: PointsProperties,
}

pub struct PointsProperties {
    pub grid_id: String,
    pub grid_x: u32,
    pub grid_y: u32,
    pub relative_location: Option<RelativeLocation>,
}

pub struct RelativeLocation {
    pub properties: RelativeLocationProperties,
}

pub struct RelativeLocationProperties {
    pub city: String,
    pub state: String,
}

pub struct ForecastResponse {
    pub properties: ForecastProperties,
}

pub struct ForecastProperties {
    pub periods: Vec<ForecastPeriod>,
}

pub struct StationsResponse {
    pub features: Vec<StationFeature>,
}

pub struct StationFeature {
    pub properties: StationProperties,
}

pub struct StationProperties {
    pub station_identifier: String,
}

// --- App domain types ---

/// The NWS forecast grid of a location.
#[derive(Debug, Clone, PartialEq, Eq)]
pub struct GridInfo {
    pub office: String,
    pub grid_x: u32,
    pub grid_y: u32,
    pub nearest_station: Option<String>,
}

/// The text of an optional string.
pub open spec fn opt_text(o: Option<String>) -> Option<Seq<char>> {
    match o {
        Some(s) => Some(s@),
        None => None,
    }
}

pub struct GridView {
    pub office: Seq<char>,
    pub grid_x: u32,
    pub grid_y: u32,
    pub nearest_station: Option<Seq<char>>,
}

impl View for GridInfo {
    type V = GridView;

    open spec fn view(&self) -> GridView {
        GridView {
            office: self.office@,
            grid_x: self.grid_x,
            grid_y: self.grid_y,
            nearest_station: opt_text(self.nearest_station),
        }
    }
}

/// The view of an optional grid.
pub open spec fn opt_grid(o: Option<GridInfo>) -> Option<GridView> {
    match o {
        Some(g) => Some(g@),
        None => None,
    }
}

/// A copy of an optional string.
pub fn copy_opt_text(o: &Option<String>) -> (r: Option<String>)
    ensures
        opt_text(r) == opt_text(*o),
{
    match o {
        Some(s) => Some(s.clone()),
        None => None,
    }
}

impl GridInfo {
    /// A copy of the grid.
    pub fn duplicate(&self) -> (r: GridInfo)
        ensures
            r@ == self@,
    {
        GridInfo {
            office: self.office.clone(),
            grid_x: self.grid_x,
            grid_y: self.grid_y,
            nearest_station: copy_opt_text(&self.nearest_station),
        }
    }

    /// Whether two grids hold the same values.
    pub fn same_as(&self, other: &GridInfo) -> (r: bool)
        ensures
            r == (self@ == other@),
    {
        let station_same = match (&self.nearest_station, &other.nearest_station) {
            (Some(a), Some(b)) => text_eq(a.as_str(), b.as_str()),
            (None, None) => true,
            _ => false,
        };
        text_eq(self.office.as_str(), other.office.as_str()) && self.grid_x == other.grid_x
            && self.grid_y == other.grid_y && station_same
    }
}

/// A copy of an optional grid.
pub fn copy_opt_grid(o: &Option<GridInfo>) -> (r: Option<GridInfo>)
    ensures
        opt_grid(r) == opt_grid(*o),
{
    match o {
        Some(g) => Some(g.duplicate()),
        None => None,
    }
}

/// A place the user saved.
#[derive(Debug, Clone, PartialEq, Eq)]
pub struct SavedLocation {
    pub name: String,
    pub lat: String,
    pub lon: String,
    pub cached_grid: Option<GridInfo>,
    pub source: WeatherSource,
    pub country_code: Option<String>,
}

pub struct LocationView {
    pub name: Seq<char>,
    pub lat: Seq<char>,
    pub lon: Seq<char>,
    pub cached_grid: Option<GridView>,
    pub source: WeatherSource,
    pub country_code: Option<Seq<char>>,
}

impl View for SavedLocation {
    type V = LocationView;

    open spec fn view(&self) -> LocationView {
        LocationView {
            name: self.name@,
            lat: self.lat@,
            lon: self.lon@,
            cached_grid: opt_grid(self.cached_grid),
            source: self.source,
            country_code: opt_text(self.country_code),
        }
    }
}

impl SavedLocation {
    /// A copy of the location.
    pub fn duplicate(&self) -> (r: SavedLocation)
        ensures
            r@ == self@,
    {
        SavedLocation {
            name: self.name.clone(),
            lat: self.lat.clone(),
            lon: self.lon.clone(),
            cached_grid: copy_opt_grid(&self.cached_grid),
            source: self.source,
            country_code: copy_opt_text(&self.country_code),
        }
    }
}

#[derive(Debug, Clone)]
pub enum FetchState {
    Idle,
    Loading,
    Loaded,
    Error(String),
}

/// A day (and the following night) of the daily forecast, as shown.
#[derive(Debug, Clone)]
pub struct DaySummary {
    pub name: String,
    pub high: Option<i32>,
    pub low: Option<i32>,
    pub short_forecast: String,
    pub is_daytime: bool,
    pub wind_speed: String,
    pub wind_direction: String,
    pub precip_chance: Option<i32>,
    pub detailed_forecast: String,
}

// --- Geocoding types ---

#[derive(Debug, Clone)]
pub struct SearchResult {
    pub display_name: String,
    pub lat: String,
    pub lon: String,
    pub address: Option<NominatimAddress>,
}

#[derive(Debug, Clone)]
pub struct NominatimAddress {
    pub country_code: Option<String>,
}

} // verus!
