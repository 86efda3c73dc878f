//! Open-Meteo forecasts: turning the service's daily and hourly rows into
//! forecast periods.
use vstd::prelude::*;
use crate::text::{has_substring, has_substring_by_positions, matches_from, occurs_from, text_less, text_lt};
use crate::summary::{alternating_periods_pair_up, ascii_lower, icon_for, icon_words_spelled_out, pair_from};
use crate::types::{
    Condition, CurrentObservation, ForecastPeriod, ObservationView, PeriodView, PrecipValue, opt_text,
    periods_view,
};
use weathervane::WeatherCondition;

verus! {

pub const BASE_URL: &'static str = "https://api.open-meteo.com/v1/forecast";

/// Why an Open-Meteo request failed.
#[derive(Debug, Clone)]
pub enum OpenMeteoError {
    Network(String),
    Api(String),
    Parse(String),
}

/// The text shown for an Open-Meteo error.
pub open spec fn open_meteo_error_text(e: OpenMeteoError) -> Seq<char> {
    match e {
        OpenMeteoError::Network(m) => "Network error: "@ + m@,
        OpenMeteoError::Api(m) => "API error: "@ + m@,
        OpenMeteoError::Parse(m) => "Parse error: "@ + m@,
    }
}

impl OpenMeteoError {
    /// The text shown for the error.
    pub fn message(&self) -> (r: String)
        ensures
            r@ == open_meteo_error_text(*self),
    {
        let (prefix, m) = match self {
            OpenMeteoError::Network(m) => ("Network error: ", m),
            OpenMeteoError::Api(m) => ("API error: ", m),
            OpenMeteoError::Parse(m) => ("Parse error: ", m),
        };
        let mut r = String::from_str(prefix);
        r.append(m.as_str());
        r
    }
}

/// One day of the service's daily block, its numbers already rounded for display.
pub struct OmDay {
    /// ISO date, "2026-03-01".
    pub time: String,
    pub weather_code: u32,
    pub temp_max: i32,
    pub temp_min: i32,
    /// The maximum wind speed, as displayed digits.
    pub wind_speed: String,
    /// The dominant wind direction, as a compass name.
    pub wind_direction: String,
    pub precipitation: Option<i32>,
}

/// One hour of the service's hourly block, its numbers already rounded for display.
pub struct OmHour {
    /// ISO local time, "2026-02-28T21:00".
    pub time: String,
    pub temperature: i32,
    pub weather_code: u32,
    /// The wind speed, as displayed digits.
    pub wind_speed: String,
    /// The wind direction, as a compass name.
    pub wind_direction: String,
    pub precipitation: Option<i32>,
    /// 1 by day, 0 by night.
    pub is_day: u8,
}

// --- Weather codes ---

/// The description of a WMO weather interpretation code. The words match the
/// icon rules ("rain", "snow", "storm", "fog", "cloud", "clear").
pub open spec fn wmo_text(code: u32, is_day: bool) -> Seq<char> {
    if code == 0 {
        if is_day {
            "Clear sky"@
        } else {
            "Clear"@
        }
    } else if code == 1 {
        "Mostly clear"@
    } else if code == 2 {
        "Partly cloudy"@
    } else if code == 3 {
        "Overcast"@
    } else if code == 45 || code == 48 {
        "Fog"@
    } else if code == 51 {
        "Light drizzle"@
    } else if code == 53 {
        "Moderate drizzle"@
    } else if code == 55 {
        "Dense drizzle"@
    } else if code == 56 || code == 57 {
        "Freezing drizzle"@
    } else if code == 61 {
        "Slight rain"@
    } else if code == 63 {
        "Moderate rain"@
    } else if code == 65 {
        "Heavy rain"@
    } else if code == 66 || code == 67 {
        "Freezing rain"@
    } else if code == 71 {
        "Slight snow fall"@
    } else if code == 73 {
        "Moderate snow fall"@
    } else if code == 75 {
        "Heavy snow fall"@
    } else if code == 77 {
        "Snow grains"@
    } else if code == 80 {
        "Slight rain showers"@
    } else if code == 81 {
        "Moderate rain showers"@
    } else if code == 82 {
        "Violent rain showers"@
    } else if code == 85 {
        "Slight snow showers"@
    } else if code == 86 {
        "Heavy snow showers"@
    } else if code == 95 {
        "Thunderstorm"@
    } else if code == 96 || code == 99 {
        "Thunderstorm with hail"@
    } else {
        "Unknown"@
    }
}

/// Map a WMO weather interpretation code to its description.
pub fn wmo_code_description(code: u32, is_day: bool) -> (r: String)
    ensures
        r@ == wmo_text(code, is_day),
{
    let s = if code == 0 {
        if is_day {
            "Clear sky"
        } else {
            "Clear"
        }
    } else if code == 1 {
        "Mostly clear"
    } else if code == 2 {
        "Partly cloudy"
    } else if code == 3 {
        "Overcast"
    } else if code == 45 || code == 48 {
        "Fog"
    } else if code == 51 {
        "Light drizzle"
    } else if code == 53 {
        "Moderate drizzle"
    } else if code == 55 {
        "Dense drizzle"
    } else if code == 56 || code == 57 {
        "Freezing drizzle"
    } else if code == 61 {
        "Slight rain"
    } else if code == 63 {
        "Moderate rain"
    } else if code == 65 {
        "Heavy rain"
    } else if code == 66 || code == 67 {
        "Freezing rain"
    } else if code == 71 {
        "Slight snow fall"
    } else if code == 73 {
        "Moderate snow fall"
    } else if code == 75 {
        "Heavy snow fall"
    } else if code == 77 {
        "Snow grains"
    } else if code == 80 {
        "Slight rain showers"
    } else if code == 81 {
        "Moderate rain showers"
    } else if code == 82 {
        "Violent rain showers"
    } else if code == 85 {
        "Slight snow showers"
    } else if code == 86 {
        "Heavy snow showers"
    } else if code == 95 {
        "Thunderstorm"
    } else if code == 96 || code == 99 {
        "Thunderstorm with hail"
    } else {
        "Unknown"
    };
    String::from_str(s)
}

// --- The current conditions ---

/// The condition class of a WMO weather code.
pub open spec fn wmo_condition(code: u32) -> Condition {
    if code == 0 {
        Condition::ClearSky
    } else if code == 1 {
        Condition::MainlyClear
    } else if code == 2 {
        Condition::PartlyCloudy
    } else if code == 3 {
        Condition::Overcast
    } else if code == 45 || code == 48 {
        Condition::Foggy
    } else if code == 51 || code == 53 || code == 55 {
        Condition::Drizzle
    } else if code == 56 || code == 57 {
        Condition::FreezingDrizzle
    } else if code == 61 || code == 63 || code == 65 {
        Condition::Rain
    } else if code == 66 || code == 67 {
        Condition::FreezingRain
    } else if code == 71 || code == 73 || code == 75 {
        Condition::Snow
    } else if code == 77 {
        Condition::SnowGrains
    } else if 80 <= code <= 82 {
        Condition::RainShowers
    } else if code == 85 || code == 86 {
        Condition::SnowShowers
    } else if code == 95 {
        Condition::Thunderstorm
    } else if code == 96 || code == 99 {
        Condition::ThunderstormHail
    } else {
        Condition::Unknown
    }
}

/// Calls weathervane's `WeatherCondition::from_code`, whose table `wmo_condition`
/// states (a code past `i32::MAX` reads as negative there, and is unknown either
/// way), and carries the variant over to the library's own enum one for one.
#[verifier::external_body]
fn condition_of_code(code: u32) -> (r: Condition)
    ensures
        r == wmo_condition(code),
{
    match WeatherCondition::from_code(code as i32) {
        WeatherCondition::ClearSky => Condition::ClearSky, WeatherCondition::MainlyClear => Condition::MainlyClear,
        WeatherCondition::PartlyCloudy => Condition::PartlyCloudy, WeatherCondition::Overcast => Condition::Overcast,
        WeatherCondition::Foggy => Condition::Foggy, WeatherCondition::Drizzle => Condition::Drizzle,
        WeatherCondition::FreezingDrizzle => Condition::FreezingDrizzle, WeatherCondition::Rain => Condition::Rain,
        WeatherCondition::FreezingRain => Condition::FreezingRain, WeatherCondition::Snow => Condition::Snow,
        WeatherCondition::SnowGrains => Condition::SnowGrains, WeatherCondition::RainShowers => Condition::RainShowers,
        WeatherCondition::SnowShowers => Condition::SnowShowers, WeatherCondition::Thunderstorm => Condition::Thunderstorm,
        WeatherCondition::ThunderstormHail => Condition::ThunderstormHail, WeatherCondition::Unknown => Condition::Unknown,
    }
}

/// The current block of an Open-Meteo answer, its readings rounded for display.
pub struct OmCurrent {
    pub temperature: Option<i32>,
    pub weather_code: Option<u32>,
    /// The wind speed, as displayed digits.
    pub wind_speed: Option<String>,
    /// The compass point the wind comes from.
    pub wind_direction: Option<String>,
    pub humidity: Option<i32>,
    /// 1 by day, 0 by night.
    pub is_day: Option<u8>,
}

/// The current observation from the current block: day unless the block says
/// night (a missing flag counts as day), the code's condition class, and the
/// wind speed with its unit.
pub open spec fn om_observation_of(cur: OmCurrent, unit: Seq<char>, speed_unit: Seq<char>) -> ObservationView {
    ObservationView {
        temperature: cur.temperature,
        temperature_unit: unit,
        condition: match cur.weather_code {
            Some(c) => Some(wmo_condition(c)),
            None => None,
        },
        wind_speed: match opt_text(cur.wind_speed) {
            Some(v) => Some(with_unit(v, speed_unit)),
            None => None,
        },
        wind_direction: opt_text(cur.wind_direction),
        compass: None,
        humidity: cur.humidity,
        is_daytime: match cur.is_day {
            Some(d) => d == 1,
            None => true,
        },
        feels_like: None,
        dew_point: None,
        cloud_cover: None,
        wind_gusts: None,
    }
}

/// The current block is read by day unless it says night: a missing flag
/// counts as day, 1 is day and anything else night. Its readings are shown as
/// they came, the wind speed with its unit, the code as its condition class.
pub proof fn current_block_is_day_unless_it_says_night(cur: OmCurrent, unit: Seq<char>, speed_unit: Seq<char>)
    ensures
        ({
            let o = om_observation_of(cur, unit, speed_unit);
            &&& cur.is_day is None ==> o.is_daytime
            &&& cur.is_day == Some(1u8) ==> o.is_daytime
            &&& (cur.is_day matches Some(d) && d != 1) ==> !o.is_daytime
            &&& o.temperature == cur.temperature
            &&& o.temperature_unit == unit
            &&& o.humidity == cur.humidity
            &&& o.wind_direction == opt_text(cur.wind_direction)
            &&& (cur.wind_speed matches Some(w) ==> o.wind_speed == Some(w@ + " "@ + speed_unit))
            &&& (cur.wind_speed is None ==> o.wind_speed is None)
            &&& (cur.weather_code matches Some(c) ==> o.condition == Some(wmo_condition(c)))
            &&& (cur.weather_code is None ==> o.condition is None)
        }),
{
}

/// Build the current observation from the current block.
pub fn om_observation(cur: &OmCurrent, unit: &str, speed_unit: &str) -> (r: CurrentObservation)
    ensures
        r@ == om_observation_of(*cur, unit@, speed_unit@),
{
    let condition = match cur.weather_code {
        Some(c) => Some(condition_of_code(c)),
        None => None,
    };
    let wind_speed = match &cur.wind_speed {
        Some(v) => Some(join_unit(v.as_str(), speed_unit)),
        None => None,
    };
    let wind_direction = match &cur.wind_direction {
        Some(d) => Some(d.clone()),
        None => None,
    };
    let is_daytime = match cur.is_day {
        Some(d) => d == 1,
        None => true,
    };
    CurrentObservation {
        temperature: cur.temperature,
        temperature_unit: String::from_str(unit),
        condition,
        wind_speed,
        wind_direction,
        compass: None,
        humidity: cur.humidity,
        is_daytime,
        feels_like: None,
        dew_point: None,
        cloud_cover: None,
        wind_gusts: None,
    }
}

// --- Dates and times, through chrono ---

/// What chrono yields for a date text read with "%Y-%m-%d" and written with
/// "%A" (the full English weekday name); `None` when the text is no such date.
pub uninterp spec fn spec_weekday_name(date: Seq<char>) -> Option<Seq<char>>;

/// Calls chrono's `NaiveDate::parse_from_str` with "%Y-%m-%d" and, on success,
/// `NaiveDate::format` with "%A". The contract names the result; the calendar
/// arithmetic behind it is not stated.
#[verifier::external_body]
fn weekday_name(date: &str) -> (r: Option<String>)
    ensures
        opt_text(r) == spec_weekday_name(date@),
{
    match chrono::NaiveDate::parse_from_str(date, "%Y-%m-%d") {
        Ok(d) => Some(d.format("%A").to_string()),
        Err(_) => None,
    }
}

/// What chrono yields for a time text read with "%Y-%m-%dT%H:%M", moved by
/// `offset_secs` seconds and written with "%Y-%m-%dT%H:%M"; `None` when the
/// text is no such time or the moved time leaves chrono's range.
pub uninterp spec fn spec_shifted_time(time: Seq<char>, offset_secs: i32) -> Option<Seq<char>>;

/// Calls chrono's `NaiveDateTime::parse_from_str` with "%Y-%m-%dT%H:%M",
/// `checked_add_signed` with `TimeDelta::seconds(offset_secs)` and `format` with
/// the same pattern. The contract names the result, and states one fact of it:
/// a moved time, moved back by the same whole number of minutes, reads as the
/// time it came from (written as chrono writes it). That holds because the
/// pattern writes every field it reads (the year signed outside 0 to 9999, as
/// the parser then expects), the seconds are zero on both sides, and moving back
/// lands on a time chrono already held. The calendar arithmetic itself is not
/// stated.
#[verifier::external_body]
fn shifted_time(time: &str, offset_secs: i32) -> (r: Option<String>)
    ensures
        opt_text(r) == spec_shifted_time(time@, offset_secs),
        offset_secs % 60 == 0 ==> (r matches Some(moved) ==> spec_shifted_time(
            moved@,
            (-offset_secs) as i32,
        ) == spec_shifted_time(time@, 0)),
{
    match chrono::NaiveDateTime::parse_from_str(time, "%Y-%m-%dT%H:%M") {
        Ok(dt) => match dt.checked_add_signed(chrono::TimeDelta::seconds(offset_secs as i64)) {
            Some(moved) => Some(moved.format("%Y-%m-%dT%H:%M").to_string()),
            None => None,
        },
        Err(_) => None,
    }
}

/// The day name of a date: "Today" for the first day, else its weekday, else the date text.
pub open spec fn day_name_of(date: Seq<char>, is_first: bool) -> Seq<char> {
    if is_first {
        "Today"@
    } else {
        match spec_weekday_name(date) {
            Some(n) => n,
            None => date,
        }
    }
}

/// The day name of a later day, given the weekday read from its date: the
/// weekday, or the date text when it did not read as a date.
pub fn day_name_given(date_str: &str, weekday: Option<String>) -> (r: String)
    ensures
        r@ == (match weekday {
            Some(n) => n@,
            None => date_str@,
        }),
{
    match weekday {
        Some(n) => n,
        None => String::from_str(date_str),
    }
}

/// Convert an ISO date ("2026-03-01") to a day name ("Sunday"); "Today" for the first day.
pub fn date_to_day_name(date_str: &str, is_first: bool) -> (r: String)
    ensures
        r@ == day_name_of(date_str@, is_first),
{
    if is_first {
        return String::from_str("Today");
    }
    day_name_given(date_str, weekday_name(date_str))
}

/// A local time text moved by the offset; the text itself when it does not read as a time.
pub open spec fn adjusted_time_of(time: Seq<char>, offset_secs: i32) -> Seq<char> {
    match spec_shifted_time(time, offset_secs) {
        Some(t) => t,
        None => time,
    }
}

/// A time text after shifting, given the shifted text: that text, or the
/// given text when it did not read as a time.
pub fn shifted_or_same(time_str: &str, shifted: Option<String>) -> (r: String)
    ensures
        r@ == (match shifted {
            Some(t) => t@,
            None => time_str@,
        }),
{
    match shifted {
        Some(t) => t,
        None => String::from_str(time_str),
    }
}

/// A time text as chrono writes it back: it reads as a time, and shifting it
/// by nothing gives the same text.
pub open spec fn canonical_time(time: Seq<char>) -> bool {
    spec_shifted_time(time, 0) == Some(time)
}

/// Shift an ISO time ("2026-02-28T21:00") by `offset_secs`, to turn UTC times
/// into approximate local times. Shifting a time written in that form by a
/// whole number of minutes, and the result back again, gives the time back.
pub fn adjust_time_string(time_str: &str, offset_secs: i32) -> (r: String)
    ensures
        r@ == adjusted_time_of(time_str@, offset_secs),
        canonical_time(time_str@) && spec_shifted_time(time_str@, offset_secs) is Some && offset_secs % 60
            == 0 ==> adjusted_time_of(r@, (-offset_secs) as i32) == time_str@,
{
    shifted_or_same(time_str, shifted_time(time_str, offset_secs))
}

// --- Time zone offset ---

/// The offset to use, and whether times must be moved by it: when the service
/// reported no offset but the longitude puts the place more than half an hour
/// away from UTC, the longitude's offset is used and times are moved.
pub open spec fn offset_choice(utc_offset: i32, expected_offset: i32) -> (i32, bool) {
    let needs = utc_offset == 0 && (expected_offset > 1800 || expected_offset < -1800);
    (if needs {
        expected_offset
    } else {
        utc_offset
    }, needs)
}

/// Decide the offset and whether hourly times need moving.
pub fn effective_offset(utc_offset: i32, expected_offset: i32) -> (r: (i32, bool))
    ensures
        r == offset_choice(utc_offset, expected_offset),
{
    let needs = utc_offset == 0 && (expected_offset > 1800 || expected_offset < -1800);
    (if needs {
        expected_offset
    } else {
        utc_offset
    }, needs)
}

// --- Periods ---

/// "value unit", the way speeds are shown.
pub open spec fn with_unit(value: Seq<char>, unit: Seq<char>) -> Seq<char> {
    value + " "@ + unit
}

fn join_unit(value: &str, unit: &str) -> (r: String)
    ensures
        r@ == with_unit(value@, unit@),
{
    let mut r = String::from_str(value);
    r.append(" ");
    r.append(unit);
    r
}

/// The day and the night period of day `i` of the daily block, named `day_name`.
pub open spec fn om_day_periods(
    d: OmDay,
    i: int,
    day_name: Seq<char>,
    unit: Seq<char>,
    speed_unit: Seq<char>,
) -> Seq<PeriodView> {
    let description = wmo_text(d.weather_code, true);
    let night_description = wmo_text(d.weather_code, false);
    let wind = with_unit(d.wind_speed@, speed_unit);
    let precip = Some(PrecipValue { value: d.precipitation });
    seq![
        PeriodView {
            name: day_name,
            condition: None,
            temperature: d.temp_max,
            temperature_unit: unit,
            wind_speed: wind,
            wind_direction: d.wind_direction@,
            compass: None,
            short_forecast: description,
            detailed_forecast: description,
            is_daytime: true,
            probability_of_precipitation: precip,
            start_time: Some(d.time@ + "T12:00:00"@),
        },
        PeriodView {
            name: if i == 0 {
                "Tonight"@
            } else {
                day_name + " Night"@
            },
            condition: None,
            temperature: d.temp_min,
            temperature_unit: unit,
            wind_speed: wind,
            wind_direction: d.wind_direction@,
            compass: None,
            short_forecast: night_description,
            detailed_forecast: night_description,
            is_daytime: false,
            probability_of_precipitation: precip,
            start_time: Some(d.time@ + "T00:00:00"@),
        },
    ]
}

/// The periods of the first `n` days of the daily block, day then night, with
/// the days named by `names`.
pub open spec fn om_daily_periods(
    days: Seq<OmDay>,
    names: Seq<Seq<char>>,
    n: int,
    unit: Seq<char>,
    speed_unit: Seq<char>,
) -> Seq<PeriodView>
    decreases n,
{
    if n <= 0 {
        Seq::empty()
    } else {
        om_daily_periods(days, names, n - 1, unit, speed_unit) + om_day_periods(
            days[n - 1],
            n - 1,
            names[n - 1],
            unit,
            speed_unit,
        )
    }
}

/// The names of the days of the daily block.
pub open spec fn day_names_of(days: Seq<OmDay>) -> Seq<Seq<char>> {
    Seq::new(days.len(), |i: int| day_name_of(days[i].time@, i == 0))
}

/// The texts of a sequence of strings.
pub open spec fn texts_of(v: Seq<String>) -> Seq<Seq<char>> {
    v.map_values(|s: String| s@)
}

/// The day names of the daily block: "Today", then weekdays.
pub fn day_names(daily: &[OmDay]) -> (r: Vec<String>)
    ensures
        r@.len() == daily@.len(),
        texts_of(r@) == day_names_of(daily@),
{
    let mut r: Vec<String> = Vec::new();
    let mut i: usize = 0;
    while i < daily.len()
        invariant
            i <= daily@.len(),
            r@.len() == i,
            forall|j: int| 0 <= j < i ==> #[trigger] r@[j]@ == day_name_of(daily@[j].time@, j == 0),
        decreases daily@.len() - i,
    {
        r.push(date_to_day_name(daily[i].time.as_str(), i == 0));
        i = i + 1;
    }
    assert(texts_of(r@) =~= day_names_of(daily@));
    r
}

/// Build the daily periods from the days and their names: a named day period
/// and a night period ("Tonight" for the first day, "<name> Night" after).
pub fn daily_periods_named(daily: &[OmDay], names: &[String], unit: &str, speed_unit: &str) -> (r: Vec<
    ForecastPeriod,
>)
    requires
        names@.len() == daily@.len(),
    ensures
        periods_view(r@) == om_daily_periods(
            daily@,
            texts_of(names@),
            daily@.len() as int,
            unit@,
            speed_unit@,
        ),
{
    let mut periods: Vec<ForecastPeriod> = Vec::new();
    let mut i: usize = 0;
    while i < daily.len()
        invariant
            i <= daily@.len(),
            names@.len() == daily@.len(),
            periods_view(periods@) == om_daily_periods(
                daily@,
                texts_of(names@),
                i as int,
                unit@,
                speed_unit@,
            ),
        decreases daily@.len() - i,
    {
        let d = &daily[i];
        let day_name = names[i].clone();
        let description = wmo_code_description(d.weather_code, true);
        let wind_speed = join_unit(d.wind_speed.as_str(), speed_unit);
        let mut day_start = d.time.clone();
        day_start.append("T12:00:00");
        let night_name = if i == 0 {
            String::from_str("Tonight")
        } else {
            let mut n = day_name.clone();
            n.append(" Night");
            n
        };
        let night_description = wmo_code_description(d.weather_code, false);
        let mut night_start = d.time.clone();
        night_start.append("T00:00:00");
        let ghost before = periods@;
        periods.push(
            ForecastPeriod {
                name: day_name,
                condition: None,
                temperature: d.temp_max,
                temperature_unit: String::from_str(unit),
                wind_speed: wind_speed.clone(),
                wind_direction: d.wind_direction.clone(),
                compass: None,
                short_forecast: description.clone(),
                detailed_forecast: description,
                is_daytime: true,
                probability_of_precipitation: Some(PrecipValue { value: d.precipitation }),
                start_time: Some(day_start),
            },
        );
        periods.push(
            ForecastPeriod {
                name: night_name,
                condition: None,
                temperature: d.temp_min,
                temperature_unit: String::from_str(unit),
                wind_speed,
                wind_direction: d.wind_direction.clone(),
                compass: None,
                short_forecast: night_description.clone(),
                detailed_forecast: night_description,
                is_daytime: false,
                probability_of_precipitation: Some(PrecipValue { value: d.precipitation }),
                start_time: Some(night_start),
            },
        );
        assert(texts_of(names@)[i as int] == names@[i as int]@);
        assert(periods_view(periods@) =~= periods_view(before) + om_day_periods(
            daily@[i as int],
            i as int,
            texts_of(names@)[i as int],
            unit@,
            speed_unit@,
        ));
        i = i + 1;
    }
    periods
}

/// Build the daily periods: a named day period and a night period per day.
pub fn build_daily_periods(daily: &[OmDay], unit: &str, speed_unit: &str) -> (r: Vec<ForecastPeriod>)
    ensures
        periods_view(r@) == om_daily_periods(
            daily@,
            day_names_of(daily@),
            daily@.len() as int,
            unit@,
            speed_unit@,
        ),
{
    let names = day_names(daily);
    daily_periods_named(daily, names.as_slice(), unit, speed_unit)
}

/// An hourly time as used: moved by the offset when times need moving.
pub open spec fn effective_time(t: Seq<char>, offset_secs: i32, needs_adjustment: bool) -> Seq<char> {
    if needs_adjustment {
        adjusted_time_of(t, offset_secs)
    } else {
        t
    }
}

/// The times of the hourly block as used.
pub open spec fn effective_times_of(hours: Seq<OmHour>, offset_secs: i32, needs_adjustment: bool) -> Seq<
    Seq<char>,
> {
    hours.map_values(|h: OmHour| effective_time(h.time@, offset_secs, needs_adjustment))
}

/// The first time at or after `i` that is not before `now`, if any.
pub open spec fn first_current_hour(times: Seq<Seq<char>>, now: Seq<char>, i: int) -> Option<int>
    decreases times.len() - i,
{
    if i < 0 || i >= times.len() {
        None
    } else if !text_lt(times[i], now) {
        Some(i)
    } else {
        first_current_hour(times, now, i + 1)
    }
}

/// The period of one hour, at time `time`.
pub open spec fn om_hour_period(h: OmHour, time: Seq<char>, unit: Seq<char>, speed_unit: Seq<char>) -> PeriodView {
    let description = wmo_text(h.weather_code, h.is_day == 1);
    PeriodView {
        name: Seq::empty(),
        condition: None,
        temperature: h.temperature,
        temperature_unit: unit,
        wind_speed: with_unit(h.wind_speed@, speed_unit),
        wind_direction: h.wind_direction@,
        compass: None,
        short_forecast: description,
        detailed_forecast: description,
        is_daytime: h.is_day == 1,
        probability_of_precipitation: Some(PrecipValue { value: h.precipitation }),
        start_time: Some(time),
    }
}

/// Where the shown hours start: the first hour not before `now`, or the first
/// hour when every hour is before `now`.
pub open spec fn start_hour(times: Seq<Seq<char>>, now: Seq<char>) -> int {
    match first_current_hour(times, now, 0) {
        Some(s) => s,
        None => 0,
    }
}

/// Where the shown hours end: 24 hours after the start, or the end of the block.
pub open spec fn end_hour(times: Seq<Seq<char>>, now: Seq<char>) -> int {
    if start_hour(times, now) + 24 < times.len() {
        start_hour(times, now) + 24
    } else {
        times.len() as int
    }
}

/// The hourly periods shown, the hours timed by `times`.
pub open spec fn om_hourly_periods(
    hours: Seq<OmHour>,
    times: Seq<Seq<char>>,
    now: Seq<char>,
    unit: Seq<char>,
    speed_unit: Seq<char>,
) -> Seq<PeriodView> {
    let start = start_hour(times, now);
    Seq::new(
        (end_hour(times, now) - start) as nat,
        |j: int| om_hour_period(hours[start + j], times[start + j], unit, speed_unit),
    )
}

/// The times of the hourly block as used: moved by the offset when needed.
pub fn effective_times(hourly: &[OmHour], offset_secs: i32, needs_adjustment: bool) -> (r: Vec<String>)
    ensures
        r@.len() == hourly@.len(),
        texts_of(r@) == effective_times_of(hourly@, offset_secs, needs_adjustment),
{
    let mut r: Vec<String> = Vec::new();
    let mut i: usize = 0;
    while i < hourly.len()
        invariant
            i <= hourly@.len(),
            r@.len() == i,
            forall|j: int|
                0 <= j < i ==> #[trigger] r@[j]@ == effective_time(
                    hourly@[j].time@,
                    offset_secs,
                    needs_adjustment,
                ),
        decreases hourly@.len() - i,
    {
        let t = if needs_adjustment {
            adjust_time_string(hourly[i].time.as_str(), offset_secs)
        } else {
            hourly[i].time.clone()
        };
        r.push(t);
        i = i + 1;
    }
    assert(texts_of(r@) =~= effective_times_of(hourly@, offset_secs, needs_adjustment));
    r
}

/// The hourly periods from the current hour on, given the hours' times; `now`
/// is the current local time written as "%Y-%m-%dT%H:%M".
pub fn hourly_periods_at(
    hourly: &[OmHour],
    times: &[String],
    now_local: &str,
    unit: &str,
    speed_unit: &str,
) -> (r: Vec<ForecastPeriod>)
    requires
        times@.len() == hourly@.len(),
    ensures
        periods_view(r@) == om_hourly_periods(hourly@, texts_of(times@), now_local@, unit@, speed_unit@),
{
    let ghost ts = texts_of(times@);
    let n = hourly.len();
    let mut start: usize = 0;
    let mut k: usize = 0;
    let mut found = false;
    while k < n
        invariant_except_break
            !found,
            start == 0,
            first_current_hour(ts, now_local@, 0) == first_current_hour(ts, now_local@, k as int),
        invariant
            n == hourly@.len(),
            n == times@.len(),
            ts == texts_of(times@),
            k <= n,
        ensures
            found ==> first_current_hour(ts, now_local@, 0) == Some(start as int) && start < n,
            !found ==> start == 0 && k == n && first_current_hour(ts, now_local@, 0)
                == first_current_hour(ts, now_local@, k as int),
        decreases n - k,
    {
        assert(ts[k as int] == times@[k as int]@);
        if !text_less(times[k].as_str(), now_local) {
            start = k;
            found = true;
            break;
        }
        k = k + 1;
    }
    if !found {
        assert(first_current_hour(ts, now_local@, n as int) is None);
    }
    assert(start as int == start_hour(ts, now_local@));
    let end = if n - start > 24 {
        start + 24
    } else {
        n
    };
    assert(end as int == end_hour(ts, now_local@));
    let mut periods: Vec<ForecastPeriod> = Vec::new();
    let mut i = start;
    while i < end
        invariant
            start <= i <= end,
            end <= n,
            n == hourly@.len(),
            n == times@.len(),
            ts == texts_of(times@),
            periods@.len() == i - start,
            forall|j: int|
                0 <= j < i - start ==> #[trigger] periods@[j]@ == om_hour_period(
                    hourly@[start + j],
                    ts[start + j],
                    unit@,
                    speed_unit@,
                ),
        decreases end - i,
    {
        let h = &hourly[i];
        let is_day = h.is_day == 1;
        let description = wmo_code_description(h.weather_code, is_day);
        let p = ForecastPeriod {
            name: String::new(),
            condition: None,
            temperature: h.temperature,
            temperature_unit: String::from_str(unit),
            wind_speed: join_unit(h.wind_speed.as_str(), speed_unit),
            wind_direction: h.wind_direction.clone(),
            compass: None,
            short_forecast: description.clone(),
            detailed_forecast: description,
            is_daytime: is_day,
            probability_of_precipitation: Some(PrecipValue { value: h.precipitation }),
            start_time: Some(times[i].clone()),
        };
        assert(p@ == om_hour_period(hourly@[i as int], ts[i as int], unit@, speed_unit@));
        periods.push(p);
        i = i + 1;
    }
    assert(periods_view(periods@) =~= om_hourly_periods(
        hourly@,
        ts,
        now_local@,
        unit@,
        speed_unit@,
    ));
    periods
}

/// Build the hourly periods from the current local hour on; `now_local` is the
/// current local time written as "%Y-%m-%dT%H:%M".
pub fn build_hourly_periods(
    hourly: &[OmHour],
    now_local: &str,
    unit: &str,
    speed_unit: &str,
    offset_secs: i32,
    needs_adjustment: bool,
) -> (r: Vec<ForecastPeriod>)
    ensures
        periods_view(r@) == om_hourly_periods(
            hourly@,
            effective_times_of(hourly@, offset_secs, needs_adjustment),
            now_local@,
            unit@,
            speed_unit@,
        ),
{
    let times = effective_times(hourly, offset_secs, needs_adjustment);
    hourly_periods_at(hourly, times.as_slice(), now_local, unit, speed_unit)
}

/// Every day of the daily block yields exactly two periods: a day with the
/// day's high, then a night with its low.
#[verifier::spinoff_prover]
pub proof fn two_periods_per_day(
    days: Seq<OmDay>,
    names: Seq<Seq<char>>,
    n: int,
    unit: Seq<char>,
    speed_unit: Seq<char>,
)
    requires
        0 <= n,
    ensures
        om_daily_periods(days, names, n, unit, speed_unit).len() == 2 * n,
        forall|i: int|
            0 <= i < n ==> {
                &&& #[trigger] om_daily_periods(days, names, n, unit, speed_unit)[2 * i].is_daytime
                &&& !om_daily_periods(days, names, n, unit, speed_unit)[2 * i + 1].is_daytime
                &&& om_daily_periods(days, names, n, unit, speed_unit)[2 * i].temperature == days[i].temp_max
                &&& om_daily_periods(days, names, n, unit, speed_unit)[2 * i + 1].temperature
                    == days[i].temp_min
            },
    decreases n,
{
    if n > 0 {
        two_periods_per_day(days, names, n - 1, unit, speed_unit);
        let prev = om_daily_periods(days, names, n - 1, unit, speed_unit);
        let all = om_daily_periods(days, names, n, unit, speed_unit);
        assert forall|i: int| 0 <= i < n implies {
            &&& #[trigger] all[2 * i].is_daytime
            &&& !all[2 * i + 1].is_daytime
            &&& all[2 * i].temperature == days[i].temp_max
            &&& all[2 * i + 1].temperature == days[i].temp_min
        } by {
            if i < n - 1 {
                assert(all[2 * i] == prev[2 * i]);
                assert(all[2 * i + 1] == prev[2 * i + 1]);
            }
        }
    }
}

/// Pairing the daily periods gives one summary per day of the daily block,
/// with that day's high and low.
pub proof fn om_daily_pairing_keeps_highs_and_lows(
    ps: Seq<ForecastPeriod>,
    days: Seq<OmDay>,
    names: Seq<Seq<char>>,
    unit: Seq<char>,
    speed_unit: Seq<char>,
)
    requires
        periods_view(ps) == om_daily_periods(days, names, days.len() as int, unit, speed_unit),
    ensures
        pair_from(ps, 0).len() == days.len(),
        forall|i: int|
            0 <= i < days.len() ==> (#[trigger] pair_from(ps, 0)[i]).high == Some(days[i].temp_max)
                && pair_from(ps, 0)[i].low == Some(days[i].temp_min),
{
    let n = days.len() as int;
    let dp = om_daily_periods(days, names, n, unit, speed_unit);
    two_periods_per_day(days, names, n, unit, speed_unit);
    assert(ps.len() == 2 * n);
    assert forall|i: int| 0 <= i < ps.len() implies #[trigger] ps[i].is_daytime == (i % 2 == 0) by {
        let d = i / 2;
        assert(ps[i]@ == periods_view(ps)[i]);
        assert(dp[2 * d].is_daytime);
        if i % 2 == 0 {
            assert(i == 2 * d);
        } else {
            assert(i == 2 * d + 1);
        }
    }
    alternating_periods_pair_up(ps);
    assert forall|i: int| 0 <= i < days.len() implies (#[trigger] pair_from(ps, 0)[i]).high == Some(
        days[i].temp_max,
    ) && pair_from(ps, 0)[i].low == Some(days[i].temp_min) by {
        assert(ps[2 * i]@ == periods_view(ps)[2 * i]);
        assert(ps[2 * i + 1]@ == periods_view(ps)[2 * i + 1]);
        assert(dp[2 * i].is_daytime);
    }
}

/// At most 24 hourly periods are shown, whatever the times and the current time.
pub proof fn at_most_a_day_of_hours(
    hours: Seq<OmHour>,
    times: Seq<Seq<char>>,
    now: Seq<char>,
    unit: Seq<char>,
    speed_unit: Seq<char>,
)
    ensures
        om_hourly_periods(hours, times, now, unit, speed_unit).len() <= 24,
{
    lemma_first_current_hour_in_range(times, now, 0);
}

proof fn lemma_first_current_hour_in_range(times: Seq<Seq<char>>, now: Seq<char>, i: int)
    ensures
        first_current_hour(times, now, i) matches Some(k) ==> i <= k < times.len(),
    decreases times.len() - i,
{
    if 0 <= i < times.len() {
        lemma_first_current_hour_in_range(times, now, i + 1);
    }
}


// --- Properties of the offsets and the periods ---

/// A reported offset is used as it is, and the times stay; with no offset
/// reported, a longitude within half an hour of UTC keeps UTC, and a longitude
/// further away gives its own offset and has the times moved by it.
pub proof fn reported_offsets_win(utc_offset: i32, expected_offset: i32)
    ensures
        utc_offset != 0 ==> offset_choice(utc_offset, expected_offset) == (utc_offset, false),
        utc_offset == 0 && -1800 <= expected_offset <= 1800 ==> offset_choice(utc_offset, expected_offset) == (
            0i32,
            false,
        ),
        utc_offset == 0 && (expected_offset > 1800 || expected_offset < -1800) ==> offset_choice(
            utc_offset,
            expected_offset,
        ) == (expected_offset, true),
{
}

proof fn lemma_first_current_hour_is(times: Seq<Seq<char>>, now: Seq<char>, i: int, k: int)
    requires
        0 <= i <= k < times.len(),
        !text_lt(times[k], now),
        forall|j: int| i <= j < k ==> text_lt(times[j], now),
    ensures
        first_current_hour(times, now, i) == Some(k),
    decreases k - i,
{
    if i < k {
        lemma_first_current_hour_is(times, now, i + 1, k);
    }
}

proof fn lemma_no_current_hour(times: Seq<Seq<char>>, now: Seq<char>, i: int)
    requires
        0 <= i,
        forall|j: int| i <= j < times.len() ==> text_lt(times[j], now),
    ensures
        first_current_hour(times, now, i) is None,
    decreases times.len() - i,
{
    if i < times.len() {
        lemma_no_current_hour(times, now, i + 1);
    }
}

/// The hours shown start at the first hour not before now and run for at most
/// a day: the `j`-th shown period is hour `k + j`, with its time, temperature,
/// description and day flag, its wind as "speed unit", its chance of rain.
pub proof fn hours_shown_start_now(
    hours: Seq<OmHour>,
    times: Seq<Seq<char>>,
    now: Seq<char>,
    unit: Seq<char>,
    speed_unit: Seq<char>,
    k: int,
)
    requires
        hours.len() == times.len(),
        0 <= k < times.len(),
        !text_lt(times[k], now),
        forall|j: int| 0 <= j < k ==> text_lt(times[j], now),
    ensures
        ({
            let ps = om_hourly_periods(hours, times, now, unit, speed_unit);
            &&& ps.len() == (if times.len() - k > 24 {
                24
            } else {
                times.len() - k
            })
            &&& forall|j: int|
                0 <= j < ps.len() ==> {
                    let h = hours[k + j];
                    &&& (#[trigger] ps[j]).start_time == Some(times[k + j])
                    &&& ps[j].temperature == h.temperature
                    &&& ps[j].temperature_unit == unit
                    &&& ps[j].is_daytime == (h.is_day == 1)
                    &&& ps[j].short_forecast == wmo_text(h.weather_code, h.is_day == 1)
                    &&& ps[j].wind_speed == h.wind_speed@ + " "@ + speed_unit
                    &&& ps[j].wind_direction == h.wind_direction@
                    &&& ps[j].probability_of_precipitation == Some(PrecipValue { value: h.precipitation })
                }
        }),
{
    lemma_first_current_hour_is(times, now, 0, k);
}

/// When every hour is before now, the first day of hours is shown from the top.
pub proof fn hours_all_past_show_from_the_top(
    hours: Seq<OmHour>,
    times: Seq<Seq<char>>,
    now: Seq<char>,
    unit: Seq<char>,
    speed_unit: Seq<char>,
)
    requires
        hours.len() == times.len(),
        forall|j: int| 0 <= j < times.len() ==> text_lt(times[j], now),
    ensures
        ({
            let ps = om_hourly_periods(hours, times, now, unit, speed_unit);
            &&& ps.len() == (if times.len() > 24 {
                24
            } else {
                times.len() as int
            })
            &&& forall|j: int| 0 <= j < ps.len() ==> (#[trigger] ps[j]).start_time == Some(times[j])
        }),
{
    lemma_no_current_hour(times, now, 0);
}

proof fn lemma_om_daily_periods_at(
    days: Seq<OmDay>,
    names: Seq<Seq<char>>,
    n: int,
    unit: Seq<char>,
    speed_unit: Seq<char>,
    i: int,
)
    requires
        0 <= i < n,
    ensures
        om_daily_periods(days, names, n, unit, speed_unit)[2 * i] == om_day_periods(
            days[i],
            i,
            names[i],
            unit,
            speed_unit,
        )[0],
        om_daily_periods(days, names, n, unit, speed_unit)[2 * i + 1] == om_day_periods(
            days[i],
            i,
            names[i],
            unit,
            speed_unit,
        )[1],
    decreases n,
{
    two_periods_per_day(days, names, n - 1, unit, speed_unit);
    if i < n - 1 {
        lemma_om_daily_periods_at(days, names, n - 1, unit, speed_unit, i);
    }
}

/// Each day of the daily block gives a day period under the day's name, at
/// noon, described by day, and a night period named "Tonight" for the first
/// day and "<name> Night" after, at midnight, described by night; both carry
/// the day's wind as "speed unit", its wind direction and chance of rain.
pub proof fn daily_periods_name_and_describe_each_day(
    days: Seq<OmDay>,
    names: Seq<Seq<char>>,
    unit: Seq<char>,
    speed_unit: Seq<char>,
    i: int,
)
    requires
        0 <= i < days.len(),
    ensures
        ({
            let ps = om_daily_periods(days, names, days.len() as int, unit, speed_unit);
            let d = days[i];
            &&& ps[2 * i].name == names[i]
            &&& ps[2 * i + 1].name == (if i == 0 {
                "Tonight"@
            } else {
                names[i] + " Night"@
            })
            &&& ps[2 * i].short_forecast == wmo_text(d.weather_code, true)
            &&& ps[2 * i + 1].short_forecast == wmo_text(d.weather_code, false)
            &&& ps[2 * i].start_time == Some(d.time@ + "T12:00:00"@)
            &&& ps[2 * i + 1].start_time == Some(d.time@ + "T00:00:00"@)
            &&& ps[2 * i].wind_speed == d.wind_speed@ + " "@ + speed_unit
            &&& ps[2 * i + 1].wind_speed == d.wind_speed@ + " "@ + speed_unit
            &&& ps[2 * i].wind_direction == d.wind_direction@
            &&& ps[2 * i].probability_of_precipitation == Some(PrecipValue { value: d.precipitation })
            &&& ps[2 * i + 1].probability_of_precipitation == Some(PrecipValue { value: d.precipitation })
            &&& ps[2 * i].temperature_unit == unit
        }),
{
    lemma_om_daily_periods_at(days, names, days.len() as int, unit, speed_unit, i);
}

/// The first day is called "Today"; every later day is called by its weekday,
/// or by its date when the date does not read as one.
pub proof fn days_are_named_today_then_by_weekday(days: Seq<OmDay>, i: int)
    requires
        0 <= i < days.len(),
    ensures
        day_names_of(days).len() == days.len(),
        i == 0 ==> day_names_of(days)[i] == "Today"@,
        i > 0 ==> day_names_of(days)[i] == (match spec_weekday_name(days[i].time@) {
            Some(n) => n,
            None => days[i].time@,
        }),
{
}

// --- Icons of the weather code descriptions ---

/// Drizzle and rain codes, showers included.
pub open spec fn wmo_is_wet(code: u32) -> bool {
    code == 51 || code == 53 || code == 55 || code == 56 || code == 57 || code == 61 || code == 63
        || code == 65 || code == 66 || code == 67 || code == 80 || code == 81 || code == 82
}

/// Snow codes, snow showers included.
pub open spec fn wmo_is_snow(code: u32) -> bool {
    code == 71 || code == 73 || code == 75 || code == 77 || code == 85 || code == 86
}

/// The icon each weather code's description is written to find: clear sky for
/// 0 (and for a code with no description), few clouds for 1 and 2, overcast for
/// 3, fog for 45 and 48, showers for drizzle and rain, snow for snow, storm for
/// 95, 96 and 99; the clear and few-clouds icons by day or by night.
pub open spec fn wmo_icon(code: u32, is_day: bool) -> Seq<char> {
    if code == 1 || code == 2 {
        if is_day {
            "weather-few-clouds-symbolic"@
        } else {
            "weather-few-clouds-night-symbolic"@
        }
    } else if code == 3 {
        "weather-overcast-symbolic"@
    } else if code == 45 || code == 48 {
        "weather-fog-symbolic"@
    } else if wmo_is_wet(code) {
        "weather-showers-symbolic"@
    } else if wmo_is_snow(code) {
        "weather-snow-symbolic"@
    } else if code == 95 || code == 96 || code == 99 {
        "weather-storm-symbolic"@
    } else if is_day {
        "weather-clear-symbolic"@
    } else {
        "weather-clear-night-symbolic"@
    }
}

/// Every weather code's description is ASCII text that the icon matcher maps,
/// whatever the case of its letters, to the icon of that kind of weather.
pub proof fn wmo_descriptions_find_their_icons(code: u32, is_day: bool)
    ensures
        vstd::utf8::is_ascii_chars(wmo_text(code, is_day)),
        icon_for(ascii_lower(wmo_text(code, is_day)), is_day) == wmo_icon(code, is_day),
{
    icon_words_spelled_out();
    has_substring_by_positions();
    if code == 1 || code == 2 {
        few_clouds_texts(is_day);
    } else if code == 3 {
        overcast_texts(is_day);
    } else if code == 45 || code == 48 {
        fog_texts(is_day);
    } else if wmo_is_wet(code) {
        wet_texts(is_day);
    } else if wmo_is_snow(code) {
        snow_texts(is_day);
    } else if code == 95 || code == 96 || code == 99 {
        storm_texts(is_day);
    } else {
        clear_texts(is_day);
    }
}

/// The descriptions that find the clear-sky icon.
proof fn clear_texts(is_day: bool)
    requires
        forall|hay: Seq<char>, needle: Seq<char>| #[trigger] has_substring(hay, needle) == occurs_from(hay, needle, 0),
    ensures
        vstd::utf8::is_ascii_chars("Clear sky"@),
        icon_for(ascii_lower("Clear sky"@), is_day) == (if is_day { "weather-clear-symbolic"@ } else { "weather-clear-night-symbolic"@ }),
        vstd::utf8::is_ascii_chars("Clear"@),
        icon_for(ascii_lower("Clear"@), is_day) == (if is_day { "weather-clear-symbolic"@ } else { "weather-clear-night-symbolic"@ }),
        vstd::utf8::is_ascii_chars("Unknown"@),
        icon_for(ascii_lower("Unknown"@), is_day) == (if is_day { "weather-clear-symbolic"@ } else { "weather-clear-night-symbolic"@ }),
{
    reveal_strlit("Clear sky");
    reveal_strlit("clear sky");
    reveal_strlit("Clear");
    reveal_strlit("clear");
    reveal_strlit("Unknown");
    reveal_strlit("unknown");
    reveal_strlit("weather-clear-night-symbolic");
    reveal_strlit("weather-clear-symbolic");
    assert(ascii_lower("Clear sky"@) =~= "clear sky"@);
    assert(ascii_lower("Clear"@) =~= "clear"@);
    assert(ascii_lower("Unknown"@) =~= "unknown"@);
    icon_words_spelled_out();
    reveal_with_fuel(occurs_from, 24);
    reveal_with_fuel(matches_from, 14);
}

/// The descriptions that find the few-clouds icon.
proof fn few_clouds_texts(is_day: bool)
    requires
        forall|hay: Seq<char>, needle: Seq<char>| #[trigger] has_substring(hay, needle) == occurs_from(hay, needle, 0),
    ensures
        vstd::utf8::is_ascii_chars("Mostly clear"@),
        icon_for(ascii_lower("Mostly clear"@), is_day) == (if is_day { "weather-few-clouds-symbolic"@ } else { "weather-few-clouds-night-symbolic"@ }),
        vstd::utf8::is_ascii_chars("Partly cloudy"@),
        icon_for(ascii_lower("Partly cloudy"@), is_day) == (if is_day { "weather-few-clouds-symbolic"@ } else { "weather-few-clouds-night-symbolic"@ }),
{
    reveal_strlit("Mostly clear");
    reveal_strlit("mostly clear");
    reveal_strlit("Partly cloudy");
    reveal_strlit("partly cloudy");
    reveal_strlit("weather-few-clouds-night-symbolic");
    reveal_strlit("weather-few-clouds-symbolic");
    assert(ascii_lower("Mostly clear"@) =~= "mostly clear"@);
    assert(ascii_lower("Partly cloudy"@) =~= "partly cloudy"@);
    icon_words_spelled_out();
    reveal_with_fuel(occurs_from, 24);
    reveal_with_fuel(matches_from, 14);
}

/// The description that finds the overcast icon.
proof fn overcast_texts(is_day: bool)
    requires
        forall|hay: Seq<char>, needle: Seq<char>| #[trigger] has_substring(hay, needle) == occurs_from(hay, needle, 0),
    ensures
        vstd::utf8::is_ascii_chars("Overcast"@),
        icon_for(ascii_lower("Overcast"@), is_day) == ("weather-overcast-symbolic"@),
{
    reveal_strlit("Overcast");
    reveal_strlit("overcast");
    reveal_strlit("weather-overcast-symbolic");
    assert(ascii_lower("Overcast"@) =~= "overcast"@);
    icon_words_spelled_out();
    reveal_with_fuel(occurs_from, 24);
    reveal_with_fuel(matches_from, 14);
}

/// The description that finds the fog icon.
proof fn fog_texts(is_day: bool)
    requires
        forall|hay: Seq<char>, needle: Seq<char>| #[trigger] has_substring(hay, needle) == occurs_from(hay, needle, 0),
    ensures
        vstd::utf8::is_ascii_chars("Fog"@),
        icon_for(ascii_lower("Fog"@), is_day) == ("weather-fog-symbolic"@),
{
    reveal_strlit("Fog");
    reveal_strlit("fog");
    reveal_strlit("weather-fog-symbolic");
    assert(ascii_lower("Fog"@) =~= "fog"@);
    icon_words_spelled_out();
    reveal_with_fuel(occurs_from, 24);
    reveal_with_fuel(matches_from, 14);
}

/// The drizzle and rain descriptions, which find the showers icon.
proof fn wet_texts(is_day: bool)
    requires
        forall|hay: Seq<char>, needle: Seq<char>| #[trigger] has_substring(hay, needle) == occurs_from(hay, needle, 0),
    ensures
        vstd::utf8::is_ascii_chars("Light drizzle"@),
        icon_for(ascii_lower("Light drizzle"@), is_day) == ("weather-showers-symbolic"@),
        vstd::utf8::is_ascii_chars("Moderate drizzle"@),
        icon_for(ascii_lower("Moderate drizzle"@), is_day) == ("weather-showers-symbolic"@),
        vstd::utf8::is_ascii_chars("Dense drizzle"@),
        icon_for(ascii_lower("Dense drizzle"@), is_day) == ("weather-showers-symbolic"@),
        vstd::utf8::is_ascii_chars("Freezing drizzle"@),
        icon_for(ascii_lower("Freezing drizzle"@), is_day) == ("weather-showers-symbolic"@),
        vstd::utf8::is_ascii_chars("Slight rain"@),
        icon_for(ascii_lower("Slight rain"@), is_day) == ("weather-showers-symbolic"@),
        vstd::utf8::is_ascii_chars("Moderate rain"@),
        icon_for(ascii_lower("Moderate rain"@), is_day) == ("weather-showers-symbolic"@),
        vstd::utf8::is_ascii_chars("Heavy rain"@),
        icon_for(ascii_lower("Heavy rain"@), is_day) == ("weather-showers-symbolic"@),
        vstd::utf8::is_ascii_chars("Freezing rain"@),
        icon_for(ascii_lower("Freezing rain"@), is_day) == ("weather-showers-symbolic"@),
        vstd::utf8::is_ascii_chars("Slight rain showers"@),
        icon_for(ascii_lower("Slight rain showers"@), is_day) == ("weather-showers-symbolic"@),
        vstd::utf8::is_ascii_chars("Moderate rain showers"@),
        icon_for(ascii_lower("Moderate rain showers"@), is_day) == ("weather-showers-symbolic"@),
        vstd::utf8::is_ascii_chars("Violent rain showers"@),
        icon_for(ascii_lower("Violent rain showers"@), is_day) == ("weather-showers-symbolic"@),
{
    reveal_strlit("Light drizzle");
    reveal_strlit("light drizzle");
    reveal_strlit("Moderate drizzle");
    reveal_strlit("moderate drizzle");
    reveal_strlit("Dense drizzle");
    reveal_strlit("dense drizzle");
    reveal_strlit("Freezing drizzle");
    reveal_strlit("freezing drizzle");
    reveal_strlit("Slight rain");
    reveal_strlit("slight rain");
    reveal_strlit("Moderate rain");
    reveal_strlit("moderate rain");
    reveal_strlit("Heavy rain");
    reveal_strlit("heavy rain");
    reveal_strlit("Freezing rain");
    reveal_strlit("freezing rain");
    reveal_strlit("Slight rain showers");
    reveal_strlit("slight rain showers");
    reveal_strlit("Moderate rain showers");
    reveal_strlit("moderate rain showers");
    reveal_strlit("Violent rain showers");
    reveal_strlit("violent rain showers");
    reveal_strlit("weather-showers-symbolic");
    assert(ascii_lower("Light drizzle"@) =~= "light drizzle"@);
    assert(ascii_lower("Moderate drizzle"@) =~= "moderate drizzle"@);
    assert(ascii_lower("Dense drizzle"@) =~= "dense drizzle"@);
    assert(ascii_lower("Freezing drizzle"@) =~= "freezing drizzle"@);
    assert(ascii_lower("Slight rain"@) =~= "slight rain"@);
    assert(ascii_lower("Moderate rain"@) =~= "moderate rain"@);
    assert(ascii_lower("Heavy rain"@) =~= "heavy rain"@);
    assert(ascii_lower("Freezing rain"@) =~= "freezing rain"@);
    assert(ascii_lower("Slight rain showers"@) =~= "slight rain showers"@);
    assert(ascii_lower("Moderate rain showers"@) =~= "moderate rain showers"@);
    assert(ascii_lower("Violent rain showers"@) =~= "violent rain showers"@);
    icon_words_spelled_out();
    reveal_with_fuel(occurs_from, 24);
    reveal_with_fuel(matches_from, 14);
}

/// The snow descriptions, which find the snow icon.
proof fn snow_texts(is_day: bool)
    requires
        forall|hay: Seq<char>, needle: Seq<char>| #[trigger] has_substring(hay, needle) == occurs_from(hay, needle, 0),
    ensures
        vstd::utf8::is_ascii_chars("Slight snow fall"@),
        icon_for(ascii_lower("Slight snow fall"@), is_day) == ("weather-snow-symbolic"@),
        vstd::utf8::is_ascii_chars("Moderate snow fall"@),
        icon_for(ascii_lower("Moderate snow fall"@), is_day) == ("weather-snow-symbolic"@),
        vstd::utf8::is_ascii_chars("Heavy snow fall"@),
        icon_for(ascii_lower("Heavy snow fall"@), is_day) == ("weather-snow-symbolic"@),
        vstd::utf8::is_ascii_chars("Snow grains"@),
        icon_for(ascii_lower("Snow grains"@), is_day) == ("weather-snow-symbolic"@),
        vstd::utf8::is_ascii_chars("Slight snow showers"@),
        icon_for(ascii_lower("Slight snow showers"@), is_day) == ("weather-snow-symbolic"@),
        vstd::utf8::is_ascii_chars("Heavy snow showers"@),
        icon_for(ascii_lower("Heavy snow showers"@), is_day) == ("weather-snow-symbolic"@),
{
    reveal_strlit("Slight snow fall");
    reveal_strlit("slight snow fall");
    reveal_strlit("Moderate snow fall");
    reveal_strlit("moderate snow fall");
    reveal_strlit("Heavy snow fall");
    reveal_strlit("heavy snow fall");
    reveal_strlit("Snow grains");
    reveal_strlit("snow grains");
    reveal_strlit("Slight snow showers");
    reveal_strlit("slight snow showers");
    reveal_strlit("Heavy snow showers");
    reveal_strlit("heavy snow showers");
    reveal_strlit("weather-snow-symbolic");
    assert(ascii_lower("Slight snow fall"@) =~= "slight snow fall"@);
    assert(ascii_lower("Moderate snow fall"@) =~= "moderate snow fall"@);
    assert(ascii_lower("Heavy snow fall"@) =~= "heavy snow fall"@);
    assert(ascii_lower("Snow grains"@) =~= "snow grains"@);
    assert(ascii_lower("Slight snow showers"@) =~= "slight snow showers"@);
    assert(ascii_lower("Heavy snow showers"@) =~= "heavy snow showers"@);
    icon_words_spelled_out();
    reveal_with_fuel(occurs_from, 24);
    reveal_with_fuel(matches_from, 14);
}

/// The thunderstorm descriptions, which find the storm icon.
proof fn storm_texts(is_day: bool)
    requires
        forall|hay: Seq<char>, needle: Seq<char>| #[trigger] has_substring(hay, needle) == occurs_from(hay, needle, 0),
    ensures
        vstd::utf8::is_ascii_chars("Thunderstorm"@),
        icon_for(ascii_lower("Thunderstorm"@), is_day) == ("weather-storm-symbolic"@),
        vstd::utf8::is_ascii_chars("Thunderstorm with hail"@),
        icon_for(ascii_lower("Thunderstorm with hail"@), is_day) == ("weather-storm-symbolic"@),
{
    reveal_strlit("Thunderstorm");
    reveal_strlit("thunderstorm");
    reveal_strlit("Thunderstorm with hail");
    reveal_strlit("thunderstorm with hail");
    reveal_strlit("weather-storm-symbolic");
    assert(ascii_lower("Thunderstorm"@) =~= "thunderstorm"@);
    assert(ascii_lower("Thunderstorm with hail"@) =~= "thunderstorm with hail"@);
    icon_words_spelled_out();
    reveal_with_fuel(occurs_from, 24);
    reveal_with_fuel(matches_from, 14);
}

} // verus!
