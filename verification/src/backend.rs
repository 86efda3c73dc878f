//! Turning what the weather providers report into one `WeatherResult`:
//! alert classification, forecast periods, the current observation, and the
//! decisions of the US forecast overlay.
use vstd::prelude::*;
use crate::text::{text_eq, text_less, text_lt};
use crate::types::{
    AirQuality, AlertSeverity, Alerts, AqiCategory, Compass, Condition, CurrentObservation,
    DailySun, EuAqiCategory, Forecast, ForecastPeriod, GridInfo, PeriodView, PrecipValue,
    ObservationView, UsAqiCategory, WeatherAlert, WeatherResult, alert_key, compass_label, periods_view,
};
use crate::model::{AlertsView, alerts_view};
use crate::summary::{alternating_periods_pair_up, pair_from};

verus! {

// --- Alerts ---

/// An alert as a provider reports it.
pub struct Alert {
    pub id: String,
    pub event: String,
    pub severity: AlertSeverity,
    pub headline: String,
    pub description: String,
    /// Expiry, in seconds since the Unix epoch.
    pub expires: i64,
}

/// One alert with the provider's name for the area it covers.
pub struct AlertEntry {
    pub alert: Alert,
    pub area_desc: String,
}

/// The alerts a provider returned, and whether they were narrowed to the caller's area.
pub struct AlertReport {
    pub alerts: Vec<AlertEntry>,
    pub region_filtered: bool,
}

/// The row shown for a provider's alert entry.
pub open spec fn row_of(e: AlertEntry) -> WeatherAlert {
    WeatherAlert {
        id: e.alert.id,
        event: e.alert.event,
        headline: e.alert.headline,
        description: e.alert.description,
        severity: e.alert.severity,
        expires: e.alert.expires,
        area_desc: e.area_desc,
    }
}

/// Whether some row of `s` has the key `k`.
pub open spec fn key_seen(s: Seq<WeatherAlert>, k: (Seq<char>, Seq<char>)) -> bool {
    exists|j: int| 0 <= j < s.len() && #[trigger] alert_key(s[j]) == k
}

/// The rows of `s` that are the first with their key, in order.
pub open spec fn first_rows(s: Seq<WeatherAlert>) -> Seq<WeatherAlert>
    decreases s.len(),
{
    if s.len() == 0 {
        Seq::empty()
    } else {
        let d = first_rows(s.drop_last());
        if key_seen(s.drop_last(), alert_key(s.last())) {
            d
        } else {
            d.push(s.last())
        }
    }
}

/// The outcome of an alert fetch, as shown.
pub open spec fn alerts_outcome(res: Result<AlertReport, String>) -> AlertsView {
    match res {
        Ok(report) => {
            let rows = first_rows(report.alerts@.map_values(|e: AlertEntry| row_of(e)));
            if report.region_filtered {
                AlertsView::Local(rows)
            } else {
                AlertsView::National(rows)
            }
        },
        Err(e) => AlertsView::Unavailable(e@),
    }
}

/// Adding a row adds exactly its key.
proof fn lemma_key_seen_push(d: Seq<WeatherAlert>, x: WeatherAlert, k: (Seq<char>, Seq<char>))
    ensures
        key_seen(d.push(x), k) == (key_seen(d, k) || alert_key(x) == k),
{
    if key_seen(d.push(x), k) {
        let j = choose|j: int| 0 <= j < d.push(x).len() && #[trigger] alert_key(d.push(x)[j]) == k;
        if j < d.len() {
            assert(alert_key(d[j]) == k);
        }
    }
    if key_seen(d, k) {
        let j = choose|j: int| 0 <= j < d.len() && #[trigger] alert_key(d[j]) == k;
        assert(alert_key(d.push(x)[j]) == k);
    }
    if alert_key(x) == k {
        assert(alert_key(d.push(x)[d.len() as int]) == k);
    }
}

/// A key occurs among the first rows exactly when it occurs among all rows.
pub proof fn lemma_first_rows_keys(s: Seq<WeatherAlert>, k: (Seq<char>, Seq<char>))
    ensures
        key_seen(first_rows(s), k) == key_seen(s, k),
    decreases s.len(),
{
    if s.len() > 0 {
        let t = s.drop_last();
        let x = s.last();
        assert(s =~= t.push(x));
        lemma_first_rows_keys(t, k);
        lemma_key_seen_push(t, x, k);
        lemma_key_seen_push(first_rows(t), x, k);
    }
}

/// Whether a row with the key of `a` is already among `rows`.
fn row_present(rows: &Vec<WeatherAlert>, a: &WeatherAlert) -> (r: bool)
    ensures
        r == key_seen(rows@, alert_key(*a)),
{
    let mut i: usize = 0;
    while i < rows.len()
        invariant
            i <= rows@.len(),
            forall|j: int| 0 <= j < i ==> #[trigger] alert_key(rows@[j]) != alert_key(*a),
        decreases rows@.len() - i,
    {
        if text_eq(rows[i].id.as_str(), a.id.as_str()) && text_eq(
            rows[i].area_desc.as_str(),
            a.area_desc.as_str(),
        ) {
            assert(alert_key(rows@[i as int]) == alert_key(*a));
            return true;
        }
        i = i + 1;
    }
    false
}

/// The row for a provider's alert entry.
pub fn map_alert(entry: &AlertEntry) -> (r: WeatherAlert)
    ensures
        r == row_of(*entry),
{
    let a = &entry.alert;
    WeatherAlert {
        id: a.id.clone(),
        event: a.event.clone(),
        headline: a.headline.clone(),
        description: a.description.clone(),
        severity: a.severity,
        expires: a.expires,
        area_desc: entry.area_desc.clone(),
    }
}

/// Classify an alert fetch. A failed fetch is `Unavailable`, so a network
/// failure is never shown as a quiet day; rows repeating an earlier row's
/// identifier and area are dropped.
pub fn alerts_from_result(res: Result<AlertReport, String>) -> (r: Alerts)
    ensures
        alerts_view(r) == alerts_outcome(res),
{
    match res {
        Ok(report) => {
            let ghost entries = report.alerts@.map_values(|e: AlertEntry| row_of(e));
            let mut list: Vec<WeatherAlert> = Vec::new();
            let mut i: usize = 0;
            while i < report.alerts.len()
                invariant
                    i <= report.alerts@.len(),
                    entries == report.alerts@.map_values(|e: AlertEntry| row_of(e)),
                    list@ == first_rows(entries.take(i as int)),
                decreases report.alerts@.len() - i,
            {
                let row = map_alert(&report.alerts[i]);
                proof {
                    assert(entries.take(i + 1).drop_last() =~= entries.take(i as int));
                    assert(entries.take(i + 1).last() == row);
                    lemma_first_rows_keys(entries.take(i as int), alert_key(row));
                }
                if !row_present(&list, &row) {
                    list.push(row);
                }
                i = i + 1;
            }
            assert(entries.take(i as int) =~= entries);
            if report.region_filtered {
                Alerts::Local(list)
            } else {
                Alerts::National(list)
            }
        },
        Err(e) => Alerts::Unavailable(e),
    }
}

/// No two rows kept share an identifier and area.
pub proof fn kept_rows_have_distinct_keys(s: Seq<WeatherAlert>)
    ensures
        forall|i: int, j: int|
            0 <= i < j < first_rows(s).len() ==> alert_key(first_rows(s)[i]) != alert_key(
                first_rows(s)[j],
            ),
    decreases s.len(),
{
    if s.len() > 0 {
        let t = s.drop_last();
        kept_rows_have_distinct_keys(t);
        let d = first_rows(t);
        if !key_seen(t, alert_key(s.last())) {
            lemma_first_rows_keys(t, alert_key(s.last()));
            assert(first_rows(s) == d.push(s.last()));
            assert forall|i: int, j: int|
                0 <= i < j < first_rows(s).len() implies alert_key(first_rows(s)[i]) != alert_key(
                first_rows(s)[j],
            ) by {
                if j == d.len() {
                    if alert_key(d[i]) == alert_key(s.last()) {
                        assert(key_seen(d, alert_key(s.last())));
                    }
                } else {
                    assert(first_rows(s)[i] == d[i]);
                    assert(first_rows(s)[j] == d[j]);
                }
            }
        } else {
            assert(first_rows(s) == d);
        }
    }
}

/// Every identifier and area reported is shown: dropping repeats loses no alert.
pub proof fn every_reported_key_is_kept(s: Seq<WeatherAlert>, j: int)
    requires
        0 <= j < s.len(),
    ensures
        key_seen(first_rows(s), alert_key(s[j])),
{
    assert(key_seen(s, alert_key(s[j])));
    lemma_first_rows_keys(s, alert_key(s[j]));
}

/// Reports whose rows all differ in identifier or area are shown whole, in the
/// order reported.
pub proof fn distinct_reports_are_kept_whole(s: Seq<WeatherAlert>)
    requires
        forall|i: int, j: int| 0 <= i < j < s.len() ==> alert_key(s[i]) != alert_key(s[j]),
    ensures
        first_rows(s) == s,
    decreases s.len(),
{
    if s.len() > 0 {
        let t = s.drop_last();
        distinct_reports_are_kept_whole(t);
        if key_seen(t, alert_key(s.last())) {
            let j = choose|j: int| 0 <= j < t.len() && #[trigger] alert_key(t[j]) == alert_key(s.last());
            assert(alert_key(s[j]) == alert_key(s[s.len() - 1]));
        }
        assert(t.push(s.last()) =~= s);
    }
}

/// Every row shown is a reported row, the first reported with its identifier
/// and area.
pub proof fn shown_rows_are_first_reports(s: Seq<WeatherAlert>)
    ensures
        forall|i: int|
            0 <= i < first_rows(s).len() ==> exists|j: int|
                0 <= j < s.len() && #[trigger] first_rows(s)[i] == s[j] && forall|k: int|
                    0 <= k < j ==> alert_key(s[k]) != alert_key(s[j]),
    decreases s.len(),
{
    if s.len() > 0 {
        let t = s.drop_last();
        shown_rows_are_first_reports(t);
        let d = first_rows(t);
        assert forall|i: int| 0 <= i < first_rows(s).len() implies exists|j: int|
            0 <= j < s.len() && #[trigger] first_rows(s)[i] == s[j] && forall|k: int|
                0 <= k < j ==> alert_key(s[k]) != alert_key(s[j]) by {
            if i < d.len() {
                assert(first_rows(s)[i] == d[i]);
                let j = choose|j: int|
                    0 <= j < t.len() && #[trigger] d[i] == t[j] && forall|k: int|
                        0 <= k < j ==> alert_key(t[k]) != alert_key(t[j]);
                assert(s[j] == t[j]);
                assert forall|k: int| 0 <= k < j implies alert_key(s[k]) != alert_key(s[j]) by {
                    assert(s[k] == t[k]);
                }
            } else {
                assert(!key_seen(t, alert_key(s.last())));
                let j = s.len() - 1;
                assert(first_rows(s)[i] == s[j]);
                assert forall|k: int| 0 <= k < j implies alert_key(s[k]) != alert_key(s[j]) by {
                    assert(s[k] == t[k]);
                    if alert_key(t[k]) == alert_key(s.last()) {
                        assert(key_seen(t, alert_key(s.last())));
                    }
                }
            }
        }
    }
}

/// A failed alert fetch is shown as unavailable with its reason, never as an
/// empty list; a report is shown as local when it was narrowed to the area and
/// as national otherwise, with the rows it reported.
pub proof fn alert_outcomes_follow_the_fetch(res: Result<AlertReport, String>)
    ensures
        res matches Err(e) ==> alerts_outcome(res) == AlertsView::Unavailable(e@),
        res matches Ok(r) ==> {
            let rows = first_rows(r.alerts@.map_values(|e: AlertEntry| row_of(e)));
            &&& r.region_filtered ==> alerts_outcome(res) == AlertsView::Local(rows)
            &&& !r.region_filtered ==> alerts_outcome(res) == AlertsView::National(rows)
        },
{
}

// --- Air quality ---

/// A severity from 0 (good) to 5 (the worst category), on either scale.
pub open spec fn aqi_severity(c: AqiCategory) -> u8 {
    match c {
        AqiCategory::Us(UsAqiCategory::Good) | AqiCategory::Eu(EuAqiCategory::Good) => 0,
        AqiCategory::Us(UsAqiCategory::Moderate) | AqiCategory::Eu(EuAqiCategory::Moderate) => 1,
        AqiCategory::Us(UsAqiCategory::UnhealthySensitive) | AqiCategory::Eu(EuAqiCategory::Fair) => 2,
        AqiCategory::Us(UsAqiCategory::Unhealthy) | AqiCategory::Eu(EuAqiCategory::Poor) => 3,
        AqiCategory::Us(UsAqiCategory::VeryUnhealthy) | AqiCategory::Eu(EuAqiCategory::VeryPoor) => 4,
        AqiCategory::Us(UsAqiCategory::Hazardous) | AqiCategory::Eu(EuAqiCategory::ExtremelyPoor) => 5,
    }
}

/// Severity grows with harm on the US scale, from 0 for its best category to 5
/// for its worst. The European scale runs from 0 to 5 as well, growing from
/// "poor" on, with "fair" and "moderate" both between "good" and "poor" (they
/// take levels 2 and 1, in that order).
pub proof fn severity_grows_with_harm()
    ensures
        aqi_severity(AqiCategory::Us(UsAqiCategory::Good)) == 0,
        aqi_severity(AqiCategory::Us(UsAqiCategory::Good)) < aqi_severity(AqiCategory::Us(UsAqiCategory::Moderate)),
        aqi_severity(AqiCategory::Us(UsAqiCategory::Moderate)) < aqi_severity(
            AqiCategory::Us(UsAqiCategory::UnhealthySensitive),
        ),
        aqi_severity(AqiCategory::Us(UsAqiCategory::UnhealthySensitive)) < aqi_severity(
            AqiCategory::Us(UsAqiCategory::Unhealthy),
        ),
        aqi_severity(AqiCategory::Us(UsAqiCategory::Unhealthy)) < aqi_severity(
            AqiCategory::Us(UsAqiCategory::VeryUnhealthy),
        ),
        aqi_severity(AqiCategory::Us(UsAqiCategory::VeryUnhealthy)) < aqi_severity(
            AqiCategory::Us(UsAqiCategory::Hazardous),
        ),
        aqi_severity(AqiCategory::Us(UsAqiCategory::Hazardous)) == 5,
        aqi_severity(AqiCategory::Eu(EuAqiCategory::Good)) == 0,
        aqi_severity(AqiCategory::Eu(EuAqiCategory::Good)) < aqi_severity(AqiCategory::Eu(EuAqiCategory::Fair))
            < aqi_severity(AqiCategory::Eu(EuAqiCategory::Poor)),
        aqi_severity(AqiCategory::Eu(EuAqiCategory::Good)) < aqi_severity(AqiCategory::Eu(EuAqiCategory::Moderate))
            < aqi_severity(AqiCategory::Eu(EuAqiCategory::Poor)),
        aqi_severity(AqiCategory::Eu(EuAqiCategory::Fair)) == 2,
        aqi_severity(AqiCategory::Eu(EuAqiCategory::Moderate)) == 1,
        aqi_severity(AqiCategory::Eu(EuAqiCategory::Poor)) < aqi_severity(AqiCategory::Eu(EuAqiCategory::VeryPoor)),
        aqi_severity(AqiCategory::Eu(EuAqiCategory::VeryPoor)) < aqi_severity(
            AqiCategory::Eu(EuAqiCategory::ExtremelyPoor),
        ),
        aqi_severity(AqiCategory::Eu(EuAqiCategory::ExtremelyPoor)) == 5,
{
}

/// The scale-free severity of an AQI category.
pub fn aqi_severity_index(c: &AqiCategory) -> (r: u8)
    ensures
        r == aqi_severity(*c),
{
    match c {
        AqiCategory::Us(UsAqiCategory::Good) | AqiCategory::Eu(EuAqiCategory::Good) => 0,
        AqiCategory::Us(UsAqiCategory::Moderate) | AqiCategory::Eu(EuAqiCategory::Moderate) => 1,
        AqiCategory::Us(UsAqiCategory::UnhealthySensitive) | AqiCategory::Eu(EuAqiCategory::Fair) => 2,
        AqiCategory::Us(UsAqiCategory::Unhealthy) | AqiCategory::Eu(EuAqiCategory::Poor) => 3,
        AqiCategory::Us(UsAqiCategory::VeryUnhealthy) | AqiCategory::Eu(EuAqiCategory::VeryPoor) => 4,
        AqiCategory::Us(UsAqiCategory::Hazardous) | AqiCategory::Eu(EuAqiCategory::ExtremelyPoor) => 5,
    }
}

/// The headline air quality for an index and its category.
pub fn map_air_quality(aqi: i32, category: AqiCategory) -> (r: AirQuality)
    ensures
        r == (AirQuality { aqi, category, severity: aqi_severity(category) }),
{
    AirQuality { aqi, category, severity: aqi_severity_index(&category) }
}


// --- Weather readings ---

/// One day of the forecast, its numbers already rounded for display.
pub struct DayReading {
    /// ISO date, "2025-11-25".
    pub date: String,
    pub condition: Condition,
    pub temp_max: i32,
    pub temp_min: i32,
    /// The maximum wind speed, as displayed digits.
    pub wind_speed: String,
    pub compass: Compass,
    pub precipitation_probability: Option<i32>,
    /// Local ISO timestamps.
    pub sunrise: String,
    pub sunset: String,
}

/// One hour of the forecast, its numbers already rounded for display.
pub struct HourReading {
    /// Local ISO timestamp.
    pub time: String,
    pub condition: Condition,
    pub temperature: i32,
    /// The wind speed, as displayed digits.
    pub wind_speed: String,
    pub precipitation_probability: i32,
}

/// Current conditions, their numbers already rounded for display.
pub struct CurrentReading {
    pub temperature: i32,
    pub condition: Condition,
    /// The wind speed, as displayed digits.
    pub wind_speed: String,
    pub compass: Compass,
    pub humidity: i32,
    pub feels_like: i32,
    pub dew_point: i32,
    pub cloud_cover: i32,
    /// The gust speed, as displayed digits.
    pub wind_gusts: String,
}

/// "value unit", the way speeds are shown.
pub open spec fn speed_text(value: Seq<char>, unit: Seq<char>) -> Seq<char> {
    value + " "@ + unit
}

fn speed_string(value: &str, unit: &str) -> (r: String)
    ensures
        r@ == speed_text(value@, unit@),
{
    let mut r = String::from_str(value);
    r.append(" ");
    r.append(unit);
    r
}

/// The day and night periods of one forecast day.
pub open spec fn day_periods(d: DayReading, unit: Seq<char>, speed_unit: Seq<char>) -> Seq<PeriodView> {
    let precip = Some(PrecipValue { value: d.precipitation_probability });
    let wind = speed_text(d.wind_speed@, speed_unit);
    seq![
        PeriodView {
            name: Seq::empty(),
            condition: Some(d.condition),
            temperature: d.temp_max,
            temperature_unit: unit,
            wind_speed: wind,
            wind_direction: compass_label(d.compass),
            compass: Some(d.compass),
            short_forecast: Seq::empty(),
            detailed_forecast: Seq::empty(),
            is_daytime: true,
            probability_of_precipitation: precip,
            start_time: Some(d.date@ + "T06:00:00"@),
        },
        PeriodView {
            name: Seq::empty(),
            condition: Some(d.condition),
            temperature: d.temp_min,
            temperature_unit: unit,
            wind_speed: wind,
            wind_direction: compass_label(d.compass),
            compass: Some(d.compass),
            short_forecast: Seq::empty(),
            detailed_forecast: Seq::empty(),
            is_daytime: false,
            probability_of_precipitation: precip,
            start_time: Some(d.date@ + "T18:00:00"@),
        },
    ]
}

/// The periods of the first `n` days: each day's high, then its low.
pub open spec fn daily_periods(days: Seq<DayReading>, n: int, unit: Seq<char>, speed_unit: Seq<char>) -> Seq<
    PeriodView,
>
    decreases n,
{
    if n <= 0 {
        Seq::empty()
    } else {
        daily_periods(days, n - 1, unit, speed_unit) + day_periods(days[n - 1], unit, speed_unit)
    }
}

/// A day period (the high) and a night period (the low) for every forecast day.
pub fn build_daily_periods(daily: &[DayReading], unit: &str, speed_unit: &str) -> (r: Vec<ForecastPeriod>)
    ensures
        periods_view(r@) == daily_periods(daily@, daily@.len() as int, unit@, speed_unit@),
{
    let mut periods: Vec<ForecastPeriod> = Vec::new();
    let mut i: usize = 0;
    while i < daily.len()
        invariant
            i <= daily@.len(),
            periods_view(periods@) == daily_periods(daily@, i as int, unit@, speed_unit@),
        decreases daily@.len() - i,
    {
        let d = &daily[i];
        let wind_dir = d.compass.as_str();
        let wind_speed = speed_string(d.wind_speed.as_str(), speed_unit);
        let mut day_start = d.date.clone();
        day_start.append("T06:00:00");
        let mut night_start = d.date.clone();
        night_start.append("T18:00:00");
        let ghost before = periods@;
        periods.push(
            ForecastPeriod {
                name: String::new(),
                condition: Some(d.condition),
                temperature: d.temp_max,
                temperature_unit: String::from_str(unit),
                wind_speed: wind_speed.clone(),
                wind_direction: String::from_str(wind_dir),
                compass: Some(d.compass),
                short_forecast: String::new(),
                detailed_forecast: String::new(),
                is_daytime: true,
                probability_of_precipitation: Some(PrecipValue { value: d.precipitation_probability }),
                start_time: Some(day_start),
            },
        );
        periods.push(
            ForecastPeriod {
                name: String::new(),
                condition: Some(d.condition),
                temperature: d.temp_min,
                temperature_unit: String::from_str(unit),
                wind_speed,
                wind_direction: String::from_str(wind_dir),
                compass: Some(d.compass),
                short_forecast: String::new(),
                detailed_forecast: String::new(),
                is_daytime: false,
                probability_of_precipitation: Some(PrecipValue { value: d.precipitation_probability }),
                start_time: Some(night_start),
            },
        );
        assert(periods_view(periods@) =~= periods_view(before) + day_periods(
            daily@[i as int],
            unit@,
            speed_unit@,
        ));
        i = i + 1;
    }
    periods
}

/// Every forecast day yields a high period (a day) then a low period (a night).
#[verifier::spinoff_prover]
pub proof fn high_then_low_per_day(days: Seq<DayReading>, n: int, unit: Seq<char>, speed_unit: Seq<char>)
    requires
        0 <= n,
    ensures
        daily_periods(days, n, unit, speed_unit).len() == 2 * n,
        forall|i: int|
            0 <= i < n ==> {
                &&& #[trigger] daily_periods(days, n, unit, speed_unit)[2 * i].temperature == days[i].temp_max
                &&& daily_periods(days, n, unit, speed_unit)[2 * i + 1].temperature == days[i].temp_min
                &&& daily_periods(days, n, unit, speed_unit)[2 * i].is_daytime
                &&& !daily_periods(days, n, unit, speed_unit)[2 * i + 1].is_daytime
            },
    decreases n,
{
    if n > 0 {
        high_then_low_per_day(days, n - 1, unit, speed_unit);
        let prev = daily_periods(days, n - 1, unit, speed_unit);
        let all = daily_periods(days, n, unit, speed_unit);
        assert forall|i: int| 0 <= i < n implies {
            &&& #[trigger] all[2 * i].temperature == days[i].temp_max
            &&& all[2 * i + 1].temperature == days[i].temp_min
            &&& all[2 * i].is_daytime
            &&& !all[2 * i + 1].is_daytime
        } by {
            if i < n - 1 {
                assert(all[2 * i] == prev[2 * i]);
                assert(all[2 * i + 1] == prev[2 * i + 1]);
            }
        }
    }
}

/// Pairing the daily periods gives one summary per forecast day, with that
/// day's high and low.
pub proof fn daily_pairing_keeps_highs_and_lows(
    ps: Seq<ForecastPeriod>,
    days: Seq<DayReading>,
    unit: Seq<char>,
    speed_unit: Seq<char>,
)
    requires
        periods_view(ps) == daily_periods(days, days.len() as int, unit, speed_unit),
    ensures
        pair_from(ps, 0).len() == days.len(),
        forall|i: int|
            0 <= i < days.len() ==> (#[trigger] pair_from(ps, 0)[i]).high == Some(days[i].temp_max)
                && pair_from(ps, 0)[i].low == Some(days[i].temp_min),
{
    let n = days.len() as int;
    let dp = daily_periods(days, n, unit, speed_unit);
    high_then_low_per_day(days, n, unit, speed_unit);
    assert(ps.len() == 2 * n);
    assert forall|i: int| 0 <= i < ps.len() implies #[trigger] ps[i].is_daytime == (i % 2 == 0) by {
        let d = i / 2;
        assert(ps[i]@ == periods_view(ps)[i]);
        assert(dp[2 * d].temperature == days[d].temp_max);
        if i % 2 == 0 {
            assert(i == 2 * d);
        } else {
            assert(i == 2 * d + 1);
        }
    }
    alternating_periods_pair_up(ps);
    assert forall|i: int| 0 <= i < days.len() implies (#[trigger] pair_from(ps, 0)[i]).high == Some(
        days[i].temp_max,
    ) && pair_from(ps, 0)[i].low == Some(days[i].temp_min) by {
        assert(ps[2 * i]@ == periods_view(ps)[2 * i]);
        assert(ps[2 * i + 1]@ == periods_view(ps)[2 * i + 1]);
        assert(dp[2 * i].temperature == days[i].temp_max);
    }
}

proof fn lemma_daily_periods_at(days: Seq<DayReading>, n: int, unit: Seq<char>, speed_unit: Seq<char>, i: int)
    requires
        0 <= i < n,
    ensures
        daily_periods(days, n, unit, speed_unit)[2 * i] == day_periods(days[i], unit, speed_unit)[0],
        daily_periods(days, n, unit, speed_unit)[2 * i + 1] == day_periods(days[i], unit, speed_unit)[1],
    decreases n,
{
    high_then_low_per_day(days, n - 1, unit, speed_unit);
    if i < n - 1 {
        lemma_daily_periods_at(days, n - 1, unit, speed_unit, i);
    }
}

/// Each forecast day's two periods carry that day's readings: its condition,
/// its wind as "speed unit" from its compass point, its chance of rain, the
/// temperature unit, and its date, the day period at 06:00 and the night
/// period at 18:00.
pub proof fn daily_periods_carry_the_days_readings(
    days: Seq<DayReading>,
    unit: Seq<char>,
    speed_unit: Seq<char>,
    i: int,
)
    requires
        0 <= i < days.len(),
    ensures
        ({
            let ps = daily_periods(days, days.len() as int, unit, speed_unit);
            let d = days[i];
            &&& ps[2 * i].start_time == Some(d.date@ + "T06:00:00"@)
            &&& ps[2 * i + 1].start_time == Some(d.date@ + "T18:00:00"@)
            &&& ps[2 * i].condition == Some(d.condition) && ps[2 * i + 1].condition == Some(d.condition)
            &&& ps[2 * i].wind_speed == d.wind_speed@ + " "@ + speed_unit
            &&& ps[2 * i + 1].wind_speed == d.wind_speed@ + " "@ + speed_unit
            &&& ps[2 * i].compass == Some(d.compass) && ps[2 * i + 1].compass == Some(d.compass)
            &&& ps[2 * i].wind_direction == compass_label(d.compass)
            &&& ps[2 * i].probability_of_precipitation == Some(PrecipValue { value: d.precipitation_probability })
            &&& ps[2 * i + 1].probability_of_precipitation == Some(
                PrecipValue { value: d.precipitation_probability },
            )
            &&& ps[2 * i].temperature_unit == unit && ps[2 * i + 1].temperature_unit == unit
        }),
{
    lemma_daily_periods_at(days, days.len() as int, unit, speed_unit, i);
}

/// The number of bytes `c` takes in UTF-8.
pub open spec fn utf8_width(c: char) -> int {
    let v = c as u32;
    if v < 0x80 {
        1
    } else if v < 0x800 {
        2
    } else if v < 0x10000 {
        3
    } else {
        4
    }
}

/// The characters making up the first `b` bytes of `s`, when `b` bytes end on a
/// character boundary within `s`.
pub open spec fn byte_prefix(s: Seq<char>, b: int) -> Option<Seq<char>>
    decreases s.len(),
{
    if b == 0 {
        Some(Seq::empty())
    } else if b < 0 || s.len() == 0 || utf8_width(s[0]) > b {
        None
    } else {
        match byte_prefix(s.drop_first(), b - utf8_width(s[0])) {
            Some(p) => Some(seq![s[0]] + p),
            None => None,
        }
    }
}

/// The date part of a timestamp: its first ten bytes, or all of it when those
/// cannot be cut out.
pub open spec fn date_of(time: Seq<char>) -> Seq<char> {
    match byte_prefix(time, 10) {
        Some(p) => p,
        None => time,
    }
}

/// The first day at or after `i` with the given date.
pub open spec fn day_with_date(days: Seq<DayReading>, date: Seq<char>, i: int) -> Option<int>
    decreases days.len() - i,
{
    if i < 0 || i >= days.len() {
        None
    } else if days[i].date@ == date {
        Some(i)
    } else {
        day_with_date(days, date, i + 1)
    }
}

/// Whether a local timestamp falls between its day's sunrise (included) and
/// sunset (excluded); day when its day is not in the forecast. Timestamps of
/// the same local frame compare as text.
pub open spec fn daytime_at(time: Seq<char>, days: Seq<DayReading>) -> bool {
    match day_with_date(days, date_of(time), 0) {
        Some(i) => !text_lt(time, days[i].sunrise@) && text_lt(time, days[i].sunset@),
        None => true,
    }
}

proof fn lemma_day_with_date_finds_first(days: Seq<DayReading>, date: Seq<char>, k: int, i: int)
    requires
        0 <= k <= i < days.len(),
        days[i].date@ == date,
        forall|j: int| k <= j < i ==> days[j].date@ != date,
    ensures
        day_with_date(days, date, k) == Some(i),
    decreases i - k,
{
    if k < i {
        lemma_day_with_date_finds_first(days, date, k + 1, i);
    }
}

proof fn lemma_day_with_date_none(days: Seq<DayReading>, date: Seq<char>, k: int)
    requires
        0 <= k,
        forall|j: int| k <= j < days.len() ==> days[j].date@ != date,
    ensures
        day_with_date(days, date, k) is None,
    decreases days.len() - k,
{
    if k < days.len() {
        lemma_day_with_date_none(days, date, k + 1);
    }
}

proof fn lemma_ascii_byte_prefix(s: Seq<char>, b: int)
    requires
        0 <= b <= s.len(),
        forall|k: int| 0 <= k < b ==> (s[k] as u32) < 0x80,
    ensures
        byte_prefix(s, b) == Some(s.take(b)),
    decreases b,
{
    if b > 0 {
        assert(utf8_width(s[0]) == 1);
        assert forall|k: int| 0 <= k < b - 1 implies (s.drop_first()[k] as u32) < 0x80 by {
            assert(s.drop_first()[k] == s[k + 1]);
        }
        lemma_ascii_byte_prefix(s.drop_first(), b - 1);
        assert(seq![s[0]] + s.drop_first().take(b - 1) =~= s.take(b));
    }
}

/// The date of a timestamp that starts with ten ASCII characters
/// ("2026-03-02T12:00") is those ten characters.
pub proof fn date_is_the_first_ten_characters(time: Seq<char>)
    requires
        time.len() >= 10,
        forall|k: int| 0 <= k < 10 ==> (time[k] as u32) < 0x80,
    ensures
        date_of(time) == time.take(10),
{
    lemma_ascii_byte_prefix(time, 10);
}

/// An hour is judged by the sunrise and sunset of the (first) forecast day
/// whose date it carries: day from that sunrise up to that sunset. An hour
/// whose date no forecast day has counts as day.
pub proof fn hours_follow_their_own_day(time: Seq<char>, days: Seq<DayReading>, i: int)
    requires
        0 <= i < days.len(),
        days[i].date@ == date_of(time),
        forall|j: int| 0 <= j < i ==> days[j].date@ != date_of(time),
    ensures
        daytime_at(time, days) <==> (!text_lt(time, days[i].sunrise@) && text_lt(time, days[i].sunset@)),
{
    lemma_day_with_date_finds_first(days, date_of(time), 0, i);
}

/// An hour whose date no forecast day has counts as day.
pub proof fn hours_of_unknown_days_are_day(time: Seq<char>, days: Seq<DayReading>)
    requires
        forall|j: int| 0 <= j < days.len() ==> days[j].date@ != date_of(time),
    ensures
        daytime_at(time, days),
{
    lemma_day_with_date_none(days, date_of(time), 0);
}

/// The date part of a timestamp.
fn date_part(time: &str) -> (r: String)
    ensures
        r@ == date_of(time@),
{
    let chars = crate::text::chars_of(time);
    let n = chars.len();
    let ghost s = chars@;
    let mut used: usize = 0;
    let mut i: usize = 0;
    assert(s.skip(0) =~= s);
    proof {
        if let Some(p) = byte_prefix(s, 10int) {
            assert(s.take(0) + p =~= p);
        }
    }
    while i < n && used < 10
        invariant
            s == time@,
            s == chars@,
            n == s.len(),
            i <= n,
            used <= 10,
            byte_prefix(s, 10) == match byte_prefix(s.skip(i as int), 10 - used) {
                Some(p) => Some(s.take(i as int) + p),
                None => None::<Seq<char>>,
            },
        decreases n - i,
    {
        let v = chars[i] as u32;
        let w: usize = if v < 0x80 {
            1
        } else if v < 0x800 {
            2
        } else if v < 0x10000 {
            3
        } else {
            4
        };
        assert(s.skip(i as int)[0] == s[i as int]);
        assert(s.skip(i as int).drop_first() =~= s.skip(i + 1));
        if w > 10 - used {
            assert(byte_prefix(s, 10) is None);
            return String::from_str(time);
        }
        assert(s.take(i + 1) =~= s.take(i as int) + seq![s[i as int]]);
        used = used + w;
        i = i + 1;
    }
    if used == 10 {
        assert(byte_prefix(s.skip(i as int), 0) == Some(Seq::<char>::empty()));
        assert(s.take(i as int) + Seq::<char>::empty() =~= s.take(i as int));
        crate::text::string_of_range(time, 0, i)
    } else {
        assert(s.skip(i as int).len() == 0);
        String::from_str(time)
    }
}

/// Whether a local timestamp falls between its day's sunrise and sunset.
pub fn hour_is_daytime(time: &str, daily: &[DayReading]) -> (r: bool)
    ensures
        r == daytime_at(time@, daily@),
{
    let date = date_part(time);
    let mut i: usize = 0;
    while i < daily.len()
        invariant
            i <= daily@.len(),
            date@ == date_of(time@),
            day_with_date(daily@, date@, 0) == day_with_date(daily@, date@, i as int),
        decreases daily@.len() - i,
    {
        if text_eq(daily[i].date.as_str(), date.as_str()) {
            let d = &daily[i];
            return !text_less(time, d.sunrise.as_str()) && text_less(time, d.sunset.as_str());
        }
        i = i + 1;
    }
    true
}

/// The period of one forecast hour.
pub open spec fn hour_period(
    h: HourReading,
    days: Seq<DayReading>,
    unit: Seq<char>,
    speed_unit: Seq<char>,
) -> PeriodView {
    PeriodView {
        name: Seq::empty(),
        condition: Some(h.condition),
        temperature: h.temperature,
        temperature_unit: unit,
        wind_speed: speed_text(h.wind_speed@, speed_unit),
        wind_direction: Seq::empty(),
        compass: None,
        short_forecast: Seq::empty(),
        detailed_forecast: Seq::empty(),
        is_daytime: daytime_at(h.time@, days),
        probability_of_precipitation: Some(PrecipValue { value: Some(h.precipitation_probability) }),
        start_time: Some(h.time@),
    }
}

/// One period per forecast hour; the hourly rows carry no wind direction.
pub fn build_hourly_periods(
    hourly: &[HourReading],
    daily: &[DayReading],
    unit: &str,
    speed_unit: &str,
) -> (r: Vec<ForecastPeriod>)
    ensures
        periods_view(r@) == hourly@.map_values(
            |h: HourReading| hour_period(h, daily@, unit@, speed_unit@),
        ),
{
    let mut periods: Vec<ForecastPeriod> = Vec::new();
    let mut i: usize = 0;
    while i < hourly.len()
        invariant
            i <= hourly@.len(),
            periods_view(periods@) == hourly@.take(i as int).map_values(
                |h: HourReading| hour_period(h, daily@, unit@, speed_unit@),
            ),
        decreases hourly@.len() - i,
    {
        let h = &hourly[i];
        let p = ForecastPeriod {
            name: String::new(),
            condition: Some(h.condition),
            temperature: h.temperature,
            temperature_unit: String::from_str(unit),
            wind_speed: speed_string(h.wind_speed.as_str(), speed_unit),
            wind_direction: String::new(),
            compass: None,
            short_forecast: String::new(),
            detailed_forecast: String::new(),
            is_daytime: hour_is_daytime(h.time.as_str(), daily),
            probability_of_precipitation: Some(PrecipValue { value: Some(h.precipitation_probability) }),
            start_time: Some(h.time.clone()),
        };
        let ghost before = periods@;
        periods.push(p);
        assert(hourly@.take(i + 1) =~= hourly@.take(i as int).push(hourly@[i as int]));
        assert(periods_view(periods@) =~= periods_view(before).push(p@));
        assert(periods_view(periods@) =~= hourly@.take(i + 1).map_values(
            |h: HourReading| hour_period(h, daily@, unit@, speed_unit@),
        ));
        i = i + 1;
    }
    assert(hourly@.take(i as int) =~= hourly@);
    periods
}

/// Each hour becomes one period, in order: its time, condition, temperature,
/// chance of rain and wind as "speed unit", in the given temperature unit, day
/// or night by its own day's sunrise and sunset.
pub proof fn hourly_periods_follow_their_hours(
    hours: Seq<HourReading>,
    days: Seq<DayReading>,
    unit: Seq<char>,
    speed_unit: Seq<char>,
    i: int,
)
    requires
        0 <= i < hours.len(),
    ensures
        ({
            let ps = hours.map_values(|h: HourReading| hour_period(h, days, unit, speed_unit));
            let h = hours[i];
            &&& ps.len() == hours.len()
            &&& ps[i].start_time == Some(h.time@)
            &&& ps[i].condition == Some(h.condition)
            &&& ps[i].temperature == h.temperature
            &&& ps[i].temperature_unit == unit
            &&& ps[i].wind_speed == h.wind_speed@ + " "@ + speed_unit
            &&& ps[i].probability_of_precipitation == Some(PrecipValue { value: Some(h.precipitation_probability) })
            &&& ps[i].is_daytime == daytime_at(h.time@, days)
        }),
{
}

/// The observation shows the reading: its numbers, condition and compass
/// point, its wind and gusts as "speed unit", the temperature unit, and the
/// given day or night.
pub proof fn observations_show_the_reading(cur: CurrentReading, is_daytime: bool, unit: Seq<char>, speed_unit: Seq<char>)
    ensures
        ({
            let o = observation_of(cur, is_daytime, unit, speed_unit);
            &&& o.temperature == Some(cur.temperature)
            &&& o.temperature_unit == unit
            &&& o.condition == Some(cur.condition)
            &&& o.wind_speed == Some(cur.wind_speed@ + " "@ + speed_unit)
            &&& o.wind_gusts == Some(cur.wind_gusts@ + " "@ + speed_unit)
            &&& o.compass == Some(cur.compass)
            &&& o.humidity == Some(cur.humidity)
            &&& o.feels_like == Some(cur.feels_like)
            &&& o.dew_point == Some(cur.dew_point)
            &&& o.cloud_cover == Some(cur.cloud_cover)
            &&& o.is_daytime == is_daytime
        }),
{
}

/// The current observation shown for a reading.
pub open spec fn observation_of(
    cur: CurrentReading,
    is_daytime: bool,
    unit: Seq<char>,
    speed_unit: Seq<char>,
) -> ObservationView {
    ObservationView {
        temperature: Some(cur.temperature),
        temperature_unit: unit,
        condition: Some(cur.condition),
        wind_speed: Some(speed_text(cur.wind_speed@, speed_unit)),
        wind_direction: None,
        compass: Some(cur.compass),
        humidity: Some(cur.humidity),
        is_daytime,
        feels_like: Some(cur.feels_like),
        dew_point: Some(cur.dew_point),
        cloud_cover: Some(cur.cloud_cover),
        wind_gusts: Some(speed_text(cur.wind_gusts@, speed_unit)),
    }
}

/// The current observation; the wind's direction travels as its compass point.
pub fn build_observation(cur: &CurrentReading, is_daytime: bool, unit: &str, speed_unit: &str) -> (r:
    CurrentObservation)
    ensures
        r@ == observation_of(*cur, is_daytime, unit@, speed_unit@),
{
    CurrentObservation {
        temperature: Some(cur.temperature),
        temperature_unit: String::from_str(unit),
        condition: Some(cur.condition),
        wind_speed: Some(speed_string(cur.wind_speed.as_str(), speed_unit)),
        wind_direction: None,
        compass: Some(cur.compass),
        humidity: Some(cur.humidity),
        is_daytime,
        feels_like: Some(cur.feels_like),
        dew_point: Some(cur.dew_point),
        cloud_cover: Some(cur.cloud_cover),
        wind_gusts: Some(speed_string(cur.wind_gusts.as_str(), speed_unit)),
    }
}

/// Calls weathervane's `is_night_time`, which compares the current time at the
/// location with the given sunrise and sunset. Its answer depends on the clock,
/// so nothing is stated of it.
#[verifier::external_body]
fn is_night_time(sunrise: &str, sunset: &str, utc_offset_seconds: i32) -> bool {
    weathervane::is_night_time(sunrise, sunset, utc_offset_seconds)
}

/// The sunrise and sunset of the first forecast day, which decide whether it is
/// day now; `None` when there is no forecast day.
pub fn first_day_sun_times(daily: &[DayReading]) -> (r: Option<(String, String)>)
    ensures
        r is None <==> daily@.len() == 0,
        r matches Some((a, b)) ==> a@ == daily@[0].sunrise@ && b@ == daily@[0].sunset@,
{
    if daily.len() == 0 {
        None
    } else {
        Some((daily[0].sunrise.clone(), daily[0].sunset.clone()))
    }
}

/// Day is the opposite of night; with no answer on night (no forecast day), it
/// counts as day.
pub fn daytime_from_night(night: Option<bool>) -> (r: bool)
    ensures
        r == match night {
            Some(n) => !n,
            None => true,
        },
{
    match night {
        Some(n) => !n,
        None => true,
    }
}

/// Whether it is day now at the location, judged by the first forecast day's
/// sunrise and sunset; day when there is no forecast day. The night question
/// goes to weathervane with exactly the first day's sunrise and sunset and the
/// given offset, and its answer is negated.
pub fn current_is_daytime(daily: &[DayReading], utc_offset_seconds: i32) -> (r: bool)
    ensures
        daily@.len() == 0 ==> r,
{
    let times = first_day_sun_times(daily);
    let night = match times {
        Some((sunrise, sunset)) => Some(is_night_time(sunrise.as_str(), sunset.as_str(), utc_offset_seconds)),
        None => None,
    };
    daytime_from_night(night)
}

// --- The US forecast overlay ---

/// Where the overlay of NWS daily forecasts stands. For US locations the
/// overlay reuses a cached grid or looks one up, fetches its forecast, and when
/// a cached grid's forecast area does not hold the location, looks the grid up
/// again and takes that forecast whatever its area.
pub enum ShimState {
    Start,
    AwaitPoints,
    AwaitForecast { grid: GridInfo, from_cache: bool },
    AwaitFreshPoints,
    AwaitFreshForecast { grid: GridInfo },
    Done,
}

/// What happened since the last step.
pub enum ShimEvent {
    /// The overlay starts, for a US location or not, with the saved grid if any.
    Begin { is_us: bool, cached_grid: Option<GridInfo> },
    /// A grid lookup finished; `None` when it failed.
    Points(Option<GridInfo>),
    /// A forecast fetch finished with its periods and whether its forecast area
    /// holds the location; `None` when it failed.
    Forecast(Option<(Vec<ForecastPeriod>, bool)>),
}

/// What to do next.
pub enum ShimAction {
    FetchPoints,
    FetchForecast(GridInfo),
    /// The overlay is over: a grid and its daily periods, or nothing.
    Finish(Option<(GridInfo, Vec<ForecastPeriod>)>),
}

pub enum ShimStateView {
    Start,
    AwaitPoints,
    AwaitForecast(crate::types::GridView, bool),
    AwaitFreshPoints,
    AwaitFreshForecast(crate::types::GridView),
    Done,
}

pub enum ShimActionView {
    FetchPoints,
    FetchForecast(crate::types::GridView),
    Finish(Option<(crate::types::GridView, Seq<PeriodView>)>),
}

impl View for ShimState {
    type V = ShimStateView;

    open spec fn view(&self) -> ShimStateView {
        match self {
            ShimState::Start => ShimStateView::Start,
            ShimState::AwaitPoints => ShimStateView::AwaitPoints,
            ShimState::AwaitForecast { grid, from_cache } => ShimStateView::AwaitForecast(grid@, *from_cache),
            ShimState::AwaitFreshPoints => ShimStateView::AwaitFreshPoints,
            ShimState::AwaitFreshForecast { grid } => ShimStateView::AwaitFreshForecast(grid@),
            ShimState::Done => ShimStateView::Done,
        }
    }
}

impl View for ShimAction {
    type V = ShimActionView;

    open spec fn view(&self) -> ShimActionView {
        match self {
            ShimAction::FetchPoints => ShimActionView::FetchPoints,
            ShimAction::FetchForecast(g) => ShimActionView::FetchForecast(g@),
            ShimAction::Finish(None) => ShimActionView::Finish(None),
            ShimAction::Finish(Some((g, p))) => ShimActionView::Finish(Some((g@, periods_view(p@)))),
        }
    }
}

/// Give up: the overlay is over without a result.
pub open spec fn give_up() -> (ShimStateView, ShimActionView) {
    (ShimStateView::Done, ShimActionView::Finish(None))
}

/// The overlay's next state and action.
pub open spec fn shim_next(s: ShimStateView, e: ShimEvent) -> (ShimStateView, ShimActionView) {
    match (s, e) {
        (ShimStateView::Start, ShimEvent::Begin { is_us, cached_grid }) => {
            if !is_us {
                give_up()
            } else {
                match cached_grid {
                    Some(g) => (ShimStateView::AwaitForecast(g@, true), ShimActionView::FetchForecast(g@)),
                    None => (ShimStateView::AwaitPoints, ShimActionView::FetchPoints),
                }
            }
        },
        (ShimStateView::AwaitPoints, ShimEvent::Points(Some(g))) => (
            ShimStateView::AwaitForecast(g@, false),
            ShimActionView::FetchForecast(g@),
        ),
        (ShimStateView::AwaitForecast(g, from_cache), ShimEvent::Forecast(Some((p, holds)))) => {
            if from_cache && !holds {
                (ShimStateView::AwaitFreshPoints, ShimActionView::FetchPoints)
            } else {
                (ShimStateView::Done, ShimActionView::Finish(Some((g, periods_view(p@)))))
            }
        },
        (ShimStateView::AwaitFreshPoints, ShimEvent::Points(Some(g))) => (
            ShimStateView::AwaitFreshForecast(g@),
            ShimActionView::FetchForecast(g@),
        ),
        (ShimStateView::AwaitFreshForecast(g), ShimEvent::Forecast(Some((p, _)))) => (
            ShimStateView::Done,
            ShimActionView::Finish(Some((g, periods_view(p@)))),
        ),
        _ => give_up(),
    }
}

/// A forecast answer for the grid being tried is used, with that grid, unless
/// the grid came from the saved location and its forecast area does not hold
/// the location: then the grid is looked up again.
pub proof fn forecasts_of_the_tried_grid_are_used(
    g: crate::types::GridView,
    from_cache: bool,
    p: Vec<ForecastPeriod>,
    holds: bool,
)
    ensures
        holds || !from_cache ==> shim_next(
            ShimStateView::AwaitForecast(g, from_cache),
            ShimEvent::Forecast(Some((p, holds))),
        ) == (ShimStateView::Done, ShimActionView::Finish(Some((g, periods_view(p@))))),
        from_cache && !holds ==> shim_next(
            ShimStateView::AwaitForecast(g, from_cache),
            ShimEvent::Forecast(Some((p, holds))),
        ) == (ShimStateView::AwaitFreshPoints, ShimActionView::FetchPoints),
{
}

/// A grid looked up again is used whatever its forecast area: its forecast
/// ends the overlay with that grid and those periods.
pub proof fn fresh_grids_are_used(g: crate::types::GridView, p: Vec<ForecastPeriod>, holds: bool)
    ensures
        shim_next(ShimStateView::AwaitFreshForecast(g), ShimEvent::Forecast(Some((p, holds)))) == (
            ShimStateView::Done,
            ShimActionView::Finish(Some((g, periods_view(p@)))),
        ),
{
}

/// The overlay is for US locations only; a US location's saved grid is tried
/// first, and without one the grid is looked up; a looked-up grid's forecast is
/// fetched next.
pub proof fn overlay_starts_from_the_saved_grid(is_us: bool, cached_grid: Option<GridInfo>, looked_up: GridInfo)
    ensures
        !is_us ==> shim_next(ShimStateView::Start, ShimEvent::Begin { is_us, cached_grid }) == (
            ShimStateView::Done,
            ShimActionView::Finish(None),
        ),
        is_us && cached_grid is Some ==> shim_next(ShimStateView::Start, ShimEvent::Begin { is_us, cached_grid })
            == (
            ShimStateView::AwaitForecast(cached_grid->0@, true),
            ShimActionView::FetchForecast(cached_grid->0@),
        ),
        is_us && cached_grid is None ==> shim_next(ShimStateView::Start, ShimEvent::Begin { is_us, cached_grid })
            == (ShimStateView::AwaitPoints, ShimActionView::FetchPoints),
        shim_next(ShimStateView::AwaitPoints, ShimEvent::Points(Some(looked_up))) == (
            ShimStateView::AwaitForecast(looked_up@, false),
            ShimActionView::FetchForecast(looked_up@),
        ),
        shim_next(ShimStateView::AwaitFreshPoints, ShimEvent::Points(Some(looked_up))) == (
            ShimStateView::AwaitFreshForecast(looked_up@),
            ShimActionView::FetchForecast(looked_up@),
        ),
{
}

/// A saved US grid whose forecast area holds the location gives the overlay
/// in two steps: its forecast is fetched, then used with that grid.
pub proof fn saved_grid_that_holds_is_used(grid: GridInfo, p: Vec<ForecastPeriod>)
    ensures
        ({
            let (s1, a1) = shim_next(ShimStateView::Start, ShimEvent::Begin { is_us: true, cached_grid: Some(grid) });
            &&& a1 == ShimActionView::FetchForecast(grid@)
            &&& shim_next(s1, ShimEvent::Forecast(Some((p, true)))) == (
                ShimStateView::Done,
                ShimActionView::Finish(Some((grid@, periods_view(p@)))),
            )
        }),
{
}

/// A failed lookup or forecast fetch ends the overlay without a result.
pub proof fn failures_end_the_overlay(s: ShimStateView)
    ensures
        shim_next(s, ShimEvent::Points(None)) == (ShimStateView::Done, ShimActionView::Finish(None)),
        shim_next(s, ShimEvent::Forecast(None)) == (ShimStateView::Done, ShimActionView::Finish(None)),
{
}

/// One step of the overlay.
pub fn shim_step(state: ShimState, event: ShimEvent) -> (r: (ShimState, ShimAction))
    ensures
        (r.0@, r.1@) == shim_next(state@, event),
{
    match (state, event) {
        (ShimState::Start, ShimEvent::Begin { is_us, cached_grid }) => {
            if !is_us {
                (ShimState::Done, ShimAction::Finish(None))
            } else {
                match cached_grid {
                    Some(g) => {
                        let fetch = g.duplicate();
                        (ShimState::AwaitForecast { grid: g, from_cache: true }, ShimAction::FetchForecast(fetch))
                    },
                    None => (ShimState::AwaitPoints, ShimAction::FetchPoints),
                }
            }
        },
        (ShimState::AwaitPoints, ShimEvent::Points(Some(g))) => {
            let fetch = g.duplicate();
            (ShimState::AwaitForecast { grid: g, from_cache: false }, ShimAction::FetchForecast(fetch))
        },
        (ShimState::AwaitForecast { grid, from_cache }, ShimEvent::Forecast(Some((periods, holds)))) => {
            if from_cache && !holds {
                (ShimState::AwaitFreshPoints, ShimAction::FetchPoints)
            } else {
                (ShimState::Done, ShimAction::Finish(Some((grid, periods))))
            }
        },
        (ShimState::AwaitFreshPoints, ShimEvent::Points(Some(g))) => {
            let fetch = g.duplicate();
            (ShimState::AwaitFreshForecast { grid: g }, ShimAction::FetchForecast(fetch))
        },
        (ShimState::AwaitFreshForecast { grid }, ShimEvent::Forecast(Some((periods, _)))) => {
            (ShimState::Done, ShimAction::Finish(Some((grid, periods))))
        },
        _ => (ShimState::Done, ShimAction::Finish(None)),
    }
}

/// How far the overlay is from being over.
pub open spec fn shim_rank(s: ShimStateView) -> nat {
    match s {
        ShimStateView::Start => 5,
        ShimStateView::AwaitPoints => 4,
        ShimStateView::AwaitForecast(_, _) => 3,
        ShimStateView::AwaitFreshPoints => 2,
        ShimStateView::AwaitFreshForecast(_) => 1,
        ShimStateView::Done => 0,
    }
}

/// Every step of an overlay that is not over brings it closer to the end, so it
/// is over after at most five steps.
pub proof fn shim_always_progresses(s: ShimStateView, e: ShimEvent)
    requires
        !(s is Done),
    ensures
        shim_rank(shim_next(s, e).0) < shim_rank(s),
{
}

/// Outside the US the overlay makes no request and yields nothing.
pub proof fn shim_outside_us_does_nothing(cached_grid: Option<GridInfo>)
    ensures
        shim_next(ShimStateView::Start, ShimEvent::Begin { is_us: false, cached_grid }) == give_up(),
{
}

/// A grid just looked up is trusted: its forecast is taken without checking its area.
pub proof fn fresh_grid_is_trusted(g: crate::types::GridView, p: Vec<ForecastPeriod>, holds: bool)
    ensures
        shim_next(ShimStateView::AwaitForecast(g, false), ShimEvent::Forecast(Some((p, holds))))
            == (ShimStateView::Done, ShimActionView::Finish(Some((g, periods_view(p@))))),
{
}

/// A cached grid whose forecast area does not hold the location is looked up again.
pub proof fn stale_cached_grid_is_looked_up_again(g: crate::types::GridView, p: Vec<ForecastPeriod>)
    ensures
        shim_next(ShimStateView::AwaitForecast(g, true), ShimEvent::Forecast(Some((p, false))))
            == (ShimStateView::AwaitFreshPoints, ShimActionView::FetchPoints),
{
}

// --- The combined result ---

/// The temperature unit letter.
pub open spec fn unit_letter(use_fahrenheit: bool) -> Seq<char> {
    if use_fahrenheit {
        "F"@
    } else {
        "C"@
    }
}

/// The wind speed unit of the measurement system that goes with the temperature unit.
pub open spec fn speed_unit_of(use_fahrenheit: bool) -> Seq<char> {
    if use_fahrenheit {
        "mph"@
    } else {
        "km/h"@
    }
}

/// Fahrenheit goes with miles per hour, Celsius with kilometres per hour.
pub proof fn units_go_together(use_fahrenheit: bool)
    ensures
        use_fahrenheit ==> unit_letter(use_fahrenheit) == "F"@ && speed_unit_of(use_fahrenheit) == "mph"@,
        !use_fahrenheit ==> unit_letter(use_fahrenheit) == "C"@ && speed_unit_of(use_fahrenheit) == "km/h"@,
{
}

/// The sunrise and sunset of a forecast day.
pub open spec fn sun_of(d: DayReading) -> (Seq<char>, Seq<char>, Seq<char>) {
    (d.date@, d.sunrise@, d.sunset@)
}

/// The sun times as texts.
pub open spec fn sun_texts(s: Seq<DailySun>) -> Seq<(Seq<char>, Seq<char>, Seq<char>)> {
    s.map_values(|x: DailySun| (x.date@, x.sunrise@, x.sunset@))
}

/// Gather one fetch into a `WeatherResult`. The daily periods and the grid come
/// from the US overlay when it produced them; everything else comes from the
/// worldwide forecast.
pub fn weather_result(
    location_name: String,
    daily: &[DayReading],
    hourly: &[HourReading],
    current: &CurrentReading,
    is_daytime: bool,
    utc_offset_seconds: i32,
    use_fahrenheit: bool,
    overlay: Option<(GridInfo, Vec<ForecastPeriod>)>,
    alerts: Alerts,
    air_quality: Option<AirQuality>,
) -> (r: WeatherResult)
    ensures
        r.forecast.location_name == location_name,
        periods_view(r.forecast.periods@) == match overlay {
            Some((_, p)) => periods_view(p@),
            None => daily_periods(
                daily@,
                daily@.len() as int,
                unit_letter(use_fahrenheit),
                speed_unit_of(use_fahrenheit),
            ),
        },
        crate::types::opt_grid(r.cached_grid) == match overlay {
            Some((g, _)) => Some(g@),
            None => None,
        },
        sun_texts(r.forecast.sun_times@) == daily@.map_values(|d: DayReading| sun_of(d)),
        periods_view(r.forecast.hourly_periods@) == hourly@.map_values(
            |h: HourReading|
                hour_period(h, daily@, unit_letter(use_fahrenheit), speed_unit_of(use_fahrenheit)),
        ),
        r.forecast.utc_offset_seconds == utc_offset_seconds,
        r.observation matches Some(o) && o@ == observation_of(
            *current,
            is_daytime,
            unit_letter(use_fahrenheit),
            speed_unit_of(use_fahrenheit),
        ),
        r.alerts == alerts,
        r.air_quality == air_quality,
{
    let unit = if use_fahrenheit {
        "F"
    } else {
        "C"
    };
    let speed_unit = if use_fahrenheit {
        "mph"
    } else {
        "km/h"
    };
    let (periods, cached_grid) = match overlay {
        Some((grid, periods)) => (periods, Some(grid)),
        None => (build_daily_periods(daily, unit, speed_unit), None),
    };
    let mut sun_times: Vec<DailySun> = Vec::new();
    let mut i: usize = 0;
    while i < daily.len()
        invariant
            i <= daily@.len(),
            sun_texts(sun_times@) == daily@.take(i as int).map_values(|d: DayReading| sun_of(d)),
        decreases daily@.len() - i,
    {
        let d = &daily[i];
        let ghost before = sun_times@;
        let sun = DailySun { date: d.date.clone(), sunrise: d.sunrise.clone(), sunset: d.sunset.clone() };
        assert((sun.date@, sun.sunrise@, sun.sunset@) == sun_of(daily@[i as int]));
        sun_times.push(sun);
        assert(sun_texts(sun_times@) =~= sun_texts(before).push(sun_of(daily@[i as int])));
        assert(daily@.take(i + 1) =~= daily@.take(i as int).push(daily@[i as int]));
        assert(sun_texts(sun_times@) =~= daily@.take(i + 1).map_values(|d: DayReading| sun_of(d)));
        i = i + 1;
    }
    assert(daily@.take(i as int) =~= daily@);
    let hourly_periods = build_hourly_periods(hourly, daily, unit, speed_unit);
    let observation = Some(build_observation(current, is_daytime, unit, speed_unit));
    WeatherResult {
        forecast: Forecast {
            location_name,
            periods,
            hourly_periods,
            sun_times,
            utc_offset_seconds,
        },
        cached_grid,
        alerts,
        observation,
        air_quality,
    }
}

} // verus!
