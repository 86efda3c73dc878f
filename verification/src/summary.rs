//! Display helpers: daily summaries, hour labels, icons and place names.
use vstd::prelude::*;
use crate::text::{chars_of, contains_text, decimal, decimal_text, find_char, find_from,
    first_index_of, has_substring, lemma_first_occurrence_from, occurs_at, split_from, split_text,
    string_of_range};
use crate::types::{DaySummary, ForecastPeriod};

verus! {

/// The separator between the parts of a geocoder's display name.
pub open spec fn part_separator() -> Seq<char> {
    seq![',', ' ']
}

/// "City, State" from a display name with at least three parts (first part and
/// second-to-last part); otherwise the display name itself.
pub open spec fn short_name_of(s: Seq<char>) -> Seq<char> {
    let parts = split_text(s, part_separator());
    if parts.len() >= 3 {
        parts[0] + ", "@ + parts[parts.len() - 2]
    } else {
        s
    }
}

/// A display name cut at its ", " separators into parts (which put back
/// together give the name, and none of which holds ", ") is shortened to its
/// first and second-to-last parts when it has three or more, and kept whole
/// otherwise.
pub proof fn short_names_keep_city_and_state(s: Seq<char>)
    ensures
        ({
            let parts = split_text(s, ", "@);
            &&& crate::text::joined(parts, ", "@) == s
            &&& forall|p: int| 0 <= p < parts.len() ==> !has_substring(#[trigger] parts[p], ", "@)
            &&& parts.len() >= 3 ==> short_name_of(s) == parts[0] + ", "@ + parts[parts.len() - 2]
            &&& parts.len() < 3 ==> short_name_of(s) == s
        }),
{
    reveal_strlit(", ");
    assert(part_separator() =~= ", "@);
    crate::text::splitting_cuts_at_every_separator(s, ", "@, 0);
    assert(s.subrange(0, s.len() as int) =~= s);
}

/// The texts that a list of character ranges picks out of `s`.
pub open spec fn ranges_text(s: Seq<char>, b: Seq<(usize, usize)>) -> Seq<Seq<char>> {
    b.map_values(|p: (usize, usize)| s.subrange(p.0 as int, p.1 as int))
}

/// Extract a short "City, State" name from a geocoder display name such as
/// "Denver, City and County of Denver, Colorado, United States".
pub fn short_location_name(display_name: &str) -> (r: String)
    ensures
        r@ == short_name_of(display_name@),
{
    let chars = chars_of(display_name);
    let mut sep: Vec<char> = Vec::new();
    sep.push(',');
    sep.push(' ');
    assert(sep@ =~= part_separator());
    let n = chars.len();
    let ghost s = chars@;
    let mut bounds: Vec<(usize, usize)> = Vec::new();
    let mut k: usize = 0;
    loop
        invariant_except_break
            k <= n,
            split_text(s, part_separator()) == ranges_text(s, bounds@) + split_from(
                s,
                part_separator(),
                k as int,
            ),
        invariant
            n == s.len(),
            s == chars@,
            s == display_name@,
            sep@ == part_separator(),
            forall|j: int| 0 <= j < bounds@.len() ==> #[trigger] bounds@[j].0 <= bounds@[j].1 <= n,
        ensures
            split_text(s, part_separator()) == ranges_text(s, bounds@),
        decreases n + 1 - k,
    {
        proof {
            lemma_first_occurrence_from(s, part_separator(), k as int);
        }
        match find_from(&chars, &sep, k) {
            Some(i) => {
                assert(occurs_at(s, part_separator(), i as int));
                let ghost before = bounds@;
                bounds.push((k, i));
                proof {
                    assert(ranges_text(s, bounds@) =~= ranges_text(s, before).push(
                        s.subrange(k as int, i as int),
                    ));
                    assert(split_from(s, part_separator(), k as int) == seq![
                        s.subrange(k as int, i as int),
                    ] + split_from(s, part_separator(), i + 2));
                    assert(ranges_text(s, before) + split_from(s, part_separator(), k as int)
                        =~= ranges_text(s, bounds@) + split_from(s, part_separator(), i + 2));
                }
                k = i + 2;
            },
            None => {
                let ghost before = bounds@;
                bounds.push((k, n));
                proof {
                    assert(split_from(s, part_separator(), k as int) == seq![
                        s.subrange(k as int, n as int),
                    ]);
                    assert(ranges_text(s, bounds@) =~= ranges_text(s, before).push(
                        s.subrange(k as int, n as int),
                    ));
                    assert(ranges_text(s, before) + split_from(s, part_separator(), k as int)
                        =~= ranges_text(s, bounds@));
                }
                break;
            },
        }
    }
    let count = bounds.len();
    if count >= 3 {
        let (c0, c1) = bounds[0];
        let (s0, s1) = bounds[count - 2];
        let mut r = string_of_range(display_name, c0, c1);
        r.append(", ");
        let state = string_of_range(display_name, s0, s1);
        r.append(state.as_str());
        proof {
            assert(ranges_text(s, bounds@)[0] == s.subrange(c0 as int, c1 as int));
            assert(ranges_text(s, bounds@)[count - 2] == s.subrange(s0 as int, s1 as int));
        }
        r
    } else {
        String::from_str(display_name)
    }
}


// --- Daily summaries ---

/// The precipitation chance a period reports, if any.
pub open spec fn precip_of(p: ForecastPeriod) -> Option<i32> {
    match p.probability_of_precipitation {
        Some(v) => v.value,
        None => None,
    }
}

/// The summary of a daytime period, with the low of the night after it if known.
pub open spec fn day_summary(p: ForecastPeriod, low: Option<i32>) -> DaySummary {
    DaySummary {
        name: p.name,
        high: Some(p.temperature),
        low: low,
        short_forecast: p.short_forecast,
        is_daytime: true,
        wind_speed: p.wind_speed,
        wind_direction: p.wind_direction,
        precip_chance: precip_of(p),
        detailed_forecast: p.detailed_forecast,
    }
}

/// The summary of a night period that has no day before it.
pub open spec fn night_summary(p: ForecastPeriod) -> DaySummary {
    DaySummary {
        name: p.name,
        high: None,
        low: Some(p.temperature),
        short_forecast: p.short_forecast,
        is_daytime: false,
        wind_speed: p.wind_speed,
        wind_direction: p.wind_direction,
        precip_chance: precip_of(p),
        detailed_forecast: p.detailed_forecast,
    }
}

/// Whether the period at `i` is a day followed by a night.
pub open spec fn day_with_night(ps: Seq<ForecastPeriod>, i: int) -> bool {
    &&& ps[i].is_daytime
    &&& i + 1 < ps.len()
    &&& !ps[i + 1].is_daytime
}

/// The summaries of the periods from `i` on: a day takes the night right after
/// it as its low; a night with no day before it stands alone.
pub open spec fn pair_from(ps: Seq<ForecastPeriod>, i: int) -> Seq<DaySummary>
    decreases ps.len() - i,
{
    if i < 0 || i >= ps.len() {
        Seq::empty()
    } else if ps[i].is_daytime {
        if day_with_night(ps, i) {
            seq![day_summary(ps[i], Some(ps[i + 1].temperature))] + pair_from(ps, i + 2)
        } else {
            seq![day_summary(ps[i], None)] + pair_from(ps, i + 1)
        }
    } else {
        seq![night_summary(ps[i])] + pair_from(ps, i + 1)
    }
}

/// A copy of a period's precipitation chance.
fn precip_chance(p: &ForecastPeriod) -> (r: Option<i32>)
    ensures
        r == precip_of(*p),
{
    match &p.probability_of_precipitation {
        Some(v) => v.value,
        None => None,
    }
}

/// Fold a list of day and night periods into one summary per day.
pub fn pair_daily_periods(periods: &[ForecastPeriod]) -> (r: Vec<DaySummary>)
    ensures
        r@ == pair_from(periods@, 0),
{
    let mut summaries: Vec<DaySummary> = Vec::new();
    let mut i: usize = 0;
    let n = periods.len();
    while i < n
        invariant
            n == periods@.len(),
            i <= n,
            pair_from(periods@, 0) == summaries@ + pair_from(periods@, i as int),
        decreases n - i,
    {
        let period = &periods[i];
        let ghost before = summaries@;
        if period.is_daytime {
            let low = if i + 1 < n && !periods[i + 1].is_daytime {
                Some(periods[i + 1].temperature)
            } else {
                None
            };
            summaries.push(
                DaySummary {
                    name: period.name.clone(),
                    high: Some(period.temperature),
                    low,
                    short_forecast: period.short_forecast.clone(),
                    is_daytime: true,
                    wind_speed: period.wind_speed.clone(),
                    wind_direction: period.wind_direction.clone(),
                    precip_chance: precip_chance(period),
                    detailed_forecast: period.detailed_forecast.clone(),
                },
            );
            proof {
                assert(summaries@ == before.push(day_summary(periods@[i as int], low)));
            }
            if low.is_some() {
                assert(pair_from(periods@, i as int) == seq![
                    day_summary(periods@[i as int], low),
                ] + pair_from(periods@, i + 2));
                assert(before + pair_from(periods@, i as int) =~= summaries@ + pair_from(
                    periods@,
                    i + 2,
                ));
                i = i + 2;
            } else {
                assert(before + pair_from(periods@, i as int) =~= summaries@ + pair_from(
                    periods@,
                    i + 1,
                ));
                i = i + 1;
            }
        } else {
            summaries.push(
                DaySummary {
                    name: period.name.clone(),
                    high: None,
                    low: Some(period.temperature),
                    short_forecast: period.short_forecast.clone(),
                    is_daytime: false,
                    wind_speed: period.wind_speed.clone(),
                    wind_direction: period.wind_direction.clone(),
                    precip_chance: precip_chance(period),
                    detailed_forecast: period.detailed_forecast.clone(),
                },
            );
            assert(before + pair_from(periods@, i as int) =~= summaries@ + pair_from(
                periods@,
                i + 1,
            ));
            i = i + 1;
        }
    }
    assert(summaries@ =~= summaries@ + pair_from(periods@, i as int));
    summaries
}

/// Pairing never makes more summaries than there are periods, and at least one
/// for every two periods.
pub proof fn pairing_count_bounds(ps: Seq<ForecastPeriod>, i: int)
    requires
        0 <= i <= ps.len(),
    ensures
        pair_from(ps, i).len() <= ps.len() - i,
        2 * pair_from(ps, i).len() >= ps.len() - i,
    decreases ps.len() - i,
{
    if i < ps.len() {
        if ps[i].is_daytime && day_with_night(ps, i) {
            pairing_count_bounds(ps, i + 2);
        } else {
            pairing_count_bounds(ps, i + 1);
        }
    }
}

/// The summary made at a period copies that period: its name, texts, wind,
/// chance of precipitation and day or night. A day's temperature is its high,
/// with the low of a night right after it; a night with no day before it has
/// its temperature as the low and no high.
pub proof fn summaries_copy_their_periods(ps: Seq<ForecastPeriod>, i: int)
    requires
        0 <= i < ps.len(),
    ensures
        pair_from(ps, i).len() > 0,
        pair_from(ps, i)[0].name == ps[i].name,
        pair_from(ps, i)[0].short_forecast == ps[i].short_forecast,
        pair_from(ps, i)[0].detailed_forecast == ps[i].detailed_forecast,
        pair_from(ps, i)[0].wind_speed == ps[i].wind_speed,
        pair_from(ps, i)[0].wind_direction == ps[i].wind_direction,
        pair_from(ps, i)[0].precip_chance == (match ps[i].probability_of_precipitation {
            Some(v) => v.value,
            None => None,
        }),
        pair_from(ps, i)[0].is_daytime == ps[i].is_daytime,
        ps[i].is_daytime ==> pair_from(ps, i)[0].high == Some(ps[i].temperature),
        ps[i].is_daytime && i + 1 < ps.len() && !ps[i + 1].is_daytime ==> pair_from(ps, i)[0].low == Some(
            ps[i + 1].temperature,
        ),
        ps[i].is_daytime && !(i + 1 < ps.len() && !ps[i + 1].is_daytime) ==> pair_from(ps, i)[0].low == None::<i32>,
        !ps[i].is_daytime ==> pair_from(ps, i)[0].high == None::<i32> && pair_from(ps, i)[0].low == Some(
            ps[i].temperature,
        ),
{
}

/// Whether the periods come in day and night pairs: a day at every even place
/// and a night at every odd place, ending on a night.
pub open spec fn alternates_day_night(ps: Seq<ForecastPeriod>) -> bool {
    &&& ps.len() % 2 == 0
    &&& forall|i: int| 0 <= i < ps.len() ==> #[trigger] ps[i].is_daytime == (i % 2 == 0)
}

/// Periods that come in day and night pairs give one summary per pair: the
/// day's summary, with the night's temperature as its low.
pub proof fn alternating_periods_pair_up(ps: Seq<ForecastPeriod>)
    requires
        alternates_day_night(ps),
    ensures
        2 * pair_from(ps, 0).len() == ps.len(),
        forall|j: int|
            0 <= j < pair_from(ps, 0).len() ==> #[trigger] pair_from(ps, 0)[j] == day_summary(
                ps[2 * j],
                Some(ps[2 * j + 1].temperature),
            ),
{
    lemma_pairs_from(ps, 0);
}

proof fn lemma_pairs_from(ps: Seq<ForecastPeriod>, k: int)
    requires
        alternates_day_night(ps),
        0 <= 2 * k <= ps.len(),
    ensures
        2 * pair_from(ps, 2 * k).len() == ps.len() - 2 * k,
        forall|j: int|
            0 <= j < pair_from(ps, 2 * k).len() ==> #[trigger] pair_from(ps, 2 * k)[j] == day_summary(
                ps[2 * (k + j)],
                Some(ps[2 * (k + j) + 1].temperature),
            ),
    decreases ps.len() - 2 * k,
{
    if 2 * k < ps.len() {
        assert(ps[2 * k].is_daytime == ((2 * k) % 2 == 0));
        assert(ps[2 * k + 1].is_daytime == ((2 * k + 1) % 2 == 0));
        assert(day_with_night(ps, 2 * k));
        lemma_pairs_from(ps, k + 1);
        let rest = pair_from(ps, 2 * (k + 1));
        let all = pair_from(ps, 2 * k);
        assert(all == seq![day_summary(ps[2 * k], Some(ps[2 * k + 1].temperature))] + rest);
        assert forall|j: int| 0 <= j < all.len() implies #[trigger] all[j] == day_summary(
            ps[2 * (k + j)],
            Some(ps[2 * (k + j) + 1].temperature),
        ) by {
            if j > 0 {
                assert(all[j] == rest[j - 1]);
                assert(2 * (k + 1 + (j - 1)) == 2 * (k + j));
            }
        }
    }
}

/// Every daytime period starts a summary with its own temperature as the high:
/// in particular the first summary of a list that starts with a day is that day.
pub proof fn first_day_is_kept(ps: Seq<ForecastPeriod>)
    requires
        ps.len() > 0,
    ensures
        pair_from(ps, 0).len() > 0,
        pair_from(ps, 0)[0].name == ps[0].name,
        ps[0].is_daytime ==> pair_from(ps, 0)[0].high == Some(ps[0].temperature),
        !ps[0].is_daytime ==> pair_from(ps, 0)[0].low == Some(ps[0].temperature)
            && pair_from(ps, 0)[0].high is None,
{
}

// --- Hour labels ---

/// Whether `c` takes one byte in UTF-8.
pub open spec fn is_ascii_char(c: char) -> bool {
    (c as u32) < 0x80
}

/// Whether `c` takes two bytes in UTF-8.
pub open spec fn is_two_byte_char(c: char) -> bool {
    0x80 <= (c as u32) < 0x800
}

/// Whether the two bytes after the first 'T' of a timestamp can be sliced out:
/// there is no 'T', or the two characters after it are one byte each, or the
/// character after it is two bytes wide.
pub open spec fn hour_digits_sliceable(s: Seq<char>) -> bool {
    match first_index_of(s, 'T') {
        None => true,
        Some(t) => (t + 2 < s.len() && is_ascii_char(s[t + 1]) && is_ascii_char(s[t + 2])) || (t
            + 1 < s.len() && is_two_byte_char(s[t + 1])),
    }
}

/// Whether the hour characters of a timestamp can be cut out, as `format_hour` needs.
pub fn hour_digits_sliceable_text(s: &str) -> (r: bool)
    ensures
        r == hour_digits_sliceable(s@),
{
    let chars = chars_of(s);
    let n = chars.len();
    match find_char(&chars, 'T') {
        None => true,
        Some(t) => {
            (t < n - 1 && n - 1 - t >= 2 && (chars[t + 1] as u32) < 0x80 && (chars[t + 2] as u32)
                < 0x80) || (t < n - 1 && 0x80 <= (chars[t + 1] as u32) && (chars[t + 1] as u32)
                < 0x800)
        },
    }
}

/// Whether `c` is a decimal digit.
pub open spec fn is_digit(c: char) -> bool {
    '0' <= c <= '9'
}

/// The value of a decimal digit.
pub open spec fn digit_value(c: char) -> nat {
    ((c as u32) - 48) as nat
}

/// How an unsigned integer parser reads a two-character text: two digits, or a
/// plus sign and one digit.
pub open spec fn parse_two(a: char, b: char) -> Option<nat> {
    if is_digit(a) && is_digit(b) {
        Some(10 * digit_value(a) + digit_value(b))
    } else if a == '+' && is_digit(b) {
        Some(digit_value(b))
    } else {
        None
    }
}

/// A 12-hour label for an hour of the day ("12 AM", "3 PM").
pub open spec fn hour_label(h: nat) -> Seq<char> {
    if h == 0 {
        "12 AM"@
    } else if h <= 11 {
        decimal(h) + " AM"@
    } else if h == 12 {
        "12 PM"@
    } else {
        decimal((h - 12) as nat) + " PM"@
    }
}

/// The display hour of an ISO timestamp such as "2026-02-28T14:00:00-08:00": the
/// two characters after the first 'T' read as an hour; the input itself when
/// they do not read as a number.
pub open spec fn format_hour_of(s: Seq<char>) -> Seq<char> {
    match first_index_of(s, 'T') {
        Some(t) => {
            if t + 2 < s.len() && is_ascii_char(s[t + 1]) && is_ascii_char(s[t + 2]) {
                match parse_two(s[t + 1], s[t + 2]) {
                    Some(h) => hour_label(h),
                    None => s,
                }
            } else {
                s
            }
        },
        None => s,
    }
}

/// The hour after a timestamp's first 'T' shows on the 12-hour clock:
/// midnight as "12 AM", morning hours as "h AM", noon as "12 PM" and later
/// hours as "h-12 PM".
pub proof fn hours_show_on_the_twelve_hour_clock(s: Seq<char>, t: int)
    requires
        0 <= t,
        t + 2 < s.len(),
        s[t] == 'T',
        forall|j: int| 0 <= j < t ==> s[j] != 'T',
        '0' <= s[t + 1] <= '9',
        '0' <= s[t + 2] <= '9',
    ensures
        ({
            let h = 10 * ((s[t + 1] as u32) - 48) + ((s[t + 2] as u32) - 48);
            &&& h == 0 ==> format_hour_of(s) == "12 AM"@
            &&& 1 <= h <= 11 ==> format_hour_of(s) == decimal(h as nat) + " AM"@
            &&& h == 12 ==> format_hour_of(s) == "12 PM"@
            &&& h >= 13 ==> format_hour_of(s) == decimal((h - 12) as nat) + " PM"@
        }),
{
    crate::text::lemma_first_index_of(s, 'T');
    match first_index_of(s, 'T') {
        Some(i) => {
            if i < t {
                assert(s[i] != 'T');
            }
            if i > t {
                assert(s[t] != 'T');
            }
        },
        None => {
            assert(s[t] != 'T');
        },
    }
}

/// A timestamp with no 'T' is shown as it is.
pub proof fn timestamps_without_a_time_show_as_given(s: Seq<char>)
    requires
        forall|j: int| 0 <= j < s.len() ==> s[j] != 'T',
    ensures
        format_hour_of(s) == s,
{
    crate::text::lemma_first_index_of(s, 'T');
}

/// Read two characters as an unsigned number.
fn parse_two_exec(a: char, b: char) -> (r: Option<u32>)
    ensures
        match r {
            Some(h) => parse_two(a, b) == Some(h as nat),
            None => parse_two(a, b) is None,
        },
{
    if '0' <= a && a <= '9' && '0' <= b && b <= '9' {
        Some(10 * ((a as u32) - 48) + ((b as u32) - 48))
    } else if a == '+' && '0' <= b && b <= '9' {
        Some((b as u32) - 48)
    } else {
        None
    }
}

/// The 12-hour label of an hour.
fn hour_label_text(h: u32) -> (r: String)
    ensures
        r@ == hour_label(h as nat),
{
    if h == 0 {
        String::from_str("12 AM")
    } else if h <= 11 {
        let mut r = decimal_text(h);
        r.append(" AM");
        r
    } else if h == 12 {
        String::from_str("12 PM")
    } else {
        let mut r = decimal_text(h - 12);
        r.append(" PM");
        r
    }
}

/// Extract a display hour like "3 PM" from an ISO 8601 timestamp.
pub fn format_hour(start_time: &str) -> (r: String)
    requires
        hour_digits_sliceable(start_time@),
    ensures
        r@ == format_hour_of(start_time@),
{
    let chars = chars_of(start_time);
    let n = chars.len();
    match find_char(&chars, 'T') {
        Some(t) => {
            if t < n - 2 && (chars[t + 1] as u32) < 0x80 && (chars[t + 2] as u32) < 0x80 {
                match parse_two_exec(chars[t + 1], chars[t + 2]) {
                    Some(h) => {
                        return hour_label_text(h);
                    },
                    None => {},
                }
            }
        },
        None => {},
    }
    String::from_str(start_time)
}

// --- Icons ---

/// The symbolic icon for a lowercased condition text and the time of day.
pub open spec fn icon_for(s: Seq<char>, is_daytime: bool) -> Seq<char> {
    let night = !is_daytime;
    if has_substring(s, "thunder"@) || has_substring(s, "storm"@) {
        "weather-storm-symbolic"@
    } else if has_substring(s, "snow"@) || has_substring(s, "flurr"@) || has_substring(
        s,
        "blizzard"@,
    ) {
        "weather-snow-symbolic"@
    } else if has_substring(s, "rain"@) || has_substring(s, "shower"@) || has_substring(
        s,
        "drizzle"@,
    ) {
        if has_substring(s, "scattered"@) {
            "weather-showers-scattered-symbolic"@
        } else {
            "weather-showers-symbolic"@
        }
    } else if has_substring(s, "fog"@) || has_substring(s, "mist"@) || has_substring(s, "haz"@) {
        "weather-fog-symbolic"@
    } else if has_substring(s, "mostly cloudy"@) || has_substring(s, "overcast"@) {
        "weather-overcast-symbolic"@
    } else if (has_substring(s, "partly"@) && has_substring(s, "cloud"@)) || has_substring(
        s,
        "mostly sunny"@,
    ) || has_substring(s, "mostly clear"@) {
        if night {
            "weather-few-clouds-night-symbolic"@
        } else {
            "weather-few-clouds-symbolic"@
        }
    } else if has_substring(s, "sunny"@) || has_substring(s, "clear"@) {
        if night {
            "weather-clear-night-symbolic"@
        } else {
            "weather-clear-symbolic"@
        }
    } else if has_substring(s, "cloud"@) {
        "weather-overcast-symbolic"@
    } else if night {
        "weather-clear-night-symbolic"@
    } else {
        "weather-clear-symbolic"@
    }
}

/// The symbolic icon for an already lowercased condition text.
pub fn icon_for_lowercase(lower: &str, is_daytime: bool) -> (r: &'static str)
    ensures
        r@ == icon_for(lower@, is_daytime),
{
    let s = chars_of(lower);
    let night = !is_daytime;
    if contains_text(&s, "thunder") || contains_text(&s, "storm") {
        return "weather-storm-symbolic";
    }
    if contains_text(&s, "snow") || contains_text(&s, "flurr") || contains_text(&s, "blizzard") {
        return "weather-snow-symbolic";
    }
    if contains_text(&s, "rain") || contains_text(&s, "shower") || contains_text(&s, "drizzle") {
        return if contains_text(&s, "scattered") {
            "weather-showers-scattered-symbolic"
        } else {
            "weather-showers-symbolic"
        };
    }
    if contains_text(&s, "fog") || contains_text(&s, "mist") || contains_text(&s, "haz") {
        return "weather-fog-symbolic";
    }
    if contains_text(&s, "mostly cloudy") || contains_text(&s, "overcast") {
        return "weather-overcast-symbolic";
    }
    if contains_text(&s, "partly") && contains_text(&s, "cloud") {
        return if night {
            "weather-few-clouds-night-symbolic"
        } else {
            "weather-few-clouds-symbolic"
        };
    }
    if contains_text(&s, "mostly sunny") || contains_text(&s, "mostly clear") {
        return if night {
            "weather-few-clouds-night-symbolic"
        } else {
            "weather-few-clouds-symbolic"
        };
    }
    if contains_text(&s, "sunny") || contains_text(&s, "clear") {
        return if night {
            "weather-clear-night-symbolic"
        } else {
            "weather-clear-symbolic"
        };
    }
    if contains_text(&s, "cloud") {
        return "weather-overcast-symbolic";
    }
    if night {
        "weather-clear-night-symbolic"
    } else {
        "weather-clear-symbolic"
    }
}

/// What std's `str::to_lowercase` returns for a text: its Unicode lowercase mapping,
/// a function of the text alone.
pub uninterp spec fn spec_to_lowercase(s: Seq<char>) -> Seq<char>;

/// A character with an ASCII capital letter made small; others unchanged.
pub open spec fn ascii_lower_char(c: char) -> char {
    if 'A' <= c <= 'Z' {
        ((c as int) + 32) as char
    } else {
        c
    }
}

/// A character with an ASCII small letter made capital; others unchanged.
pub open spec fn ascii_upper_char(c: char) -> char {
    if 'a' <= c <= 'z' {
        ((c as int) - 32) as char
    } else {
        c
    }
}

/// A text with its ASCII capital letters made small.
pub open spec fn ascii_lower(s: Seq<char>) -> Seq<char> {
    s.map_values(|c: char| ascii_lower_char(c))
}

/// A text with its ASCII small letters made capital.
pub open spec fn ascii_upper(s: Seq<char>) -> Seq<char> {
    s.map_values(|c: char| ascii_upper_char(c))
}

/// Calls std's `str::to_lowercase`. The contract names the result; of the
/// Unicode case mapping it states only what holds of ASCII text, whose capital
/// letters become small and whose other characters stay as they are.
#[verifier::external_body]
fn to_lowercase(s: &str) -> (r: String)
    ensures
        r@ == spec_to_lowercase(s@),
        vstd::utf8::is_ascii_chars(s@) ==> r@ == ascii_lower(s@),
{
    s.to_lowercase()
}

/// Map a condition text and day/night flag to a symbolic icon name; the text is
/// matched case-insensitively.
pub fn condition_icon(condition: &str, is_daytime: bool) -> (r: &'static str)
    ensures
        r@ == icon_for(spec_to_lowercase(condition@), is_daytime),
        vstd::utf8::is_ascii_chars(condition@) ==> r@ == icon_for(ascii_lower(condition@), is_daytime),
{
    let s = to_lowercase(condition);
    icon_for_lowercase(s.as_str(), is_daytime)
}

/// The words the icon matcher looks for, spelled out character by character.
pub(crate) proof fn icon_words_spelled_out()
    ensures
        "thunder"@ == seq!['t', 'h', 'u', 'n', 'd', 'e', 'r'],
        "storm"@ == seq!['s', 't', 'o', 'r', 'm'],
        "snow"@ == seq!['s', 'n', 'o', 'w'],
        "flurr"@ == seq!['f', 'l', 'u', 'r', 'r'],
        "blizzard"@ == seq!['b', 'l', 'i', 'z', 'z', 'a', 'r', 'd'],
        "rain"@ == seq!['r', 'a', 'i', 'n'],
        "shower"@ == seq!['s', 'h', 'o', 'w', 'e', 'r'],
        "drizzle"@ == seq!['d', 'r', 'i', 'z', 'z', 'l', 'e'],
        "scattered"@ == seq!['s', 'c', 'a', 't', 't', 'e', 'r', 'e', 'd'],
        "fog"@ == seq!['f', 'o', 'g'],
        "mist"@ == seq!['m', 'i', 's', 't'],
        "haz"@ == seq!['h', 'a', 'z'],
        "mostly cloudy"@ == seq!['m', 'o', 's', 't', 'l', 'y', ' ', 'c', 'l', 'o', 'u', 'd', 'y'],
        "overcast"@ == seq!['o', 'v', 'e', 'r', 'c', 'a', 's', 't'],
        "partly"@ == seq!['p', 'a', 'r', 't', 'l', 'y'],
        "cloud"@ == seq!['c', 'l', 'o', 'u', 'd'],
        "mostly sunny"@ == seq!['m', 'o', 's', 't', 'l', 'y', ' ', 's', 'u', 'n', 'n', 'y'],
        "mostly clear"@ == seq!['m', 'o', 's', 't', 'l', 'y', ' ', 'c', 'l', 'e', 'a', 'r'],
        "sunny"@ == seq!['s', 'u', 'n', 'n', 'y'],
        "clear"@ == seq!['c', 'l', 'e', 'a', 'r'],
{
    reveal_strlit("thunder");
    reveal_strlit("storm");
    reveal_strlit("snow");
    reveal_strlit("flurr");
    reveal_strlit("blizzard");
    reveal_strlit("rain");
    reveal_strlit("shower");
    reveal_strlit("drizzle");
    reveal_strlit("scattered");
    reveal_strlit("fog");
    reveal_strlit("mist");
    reveal_strlit("haz");
    reveal_strlit("mostly cloudy");
    reveal_strlit("overcast");
    reveal_strlit("partly");
    reveal_strlit("cloud");
    reveal_strlit("mostly sunny");
    reveal_strlit("mostly clear");
    reveal_strlit("sunny");
    reveal_strlit("clear");
}

/// Words of a thunderstorm.
pub open spec fn storm_words(s: Seq<char>) -> bool {
    has_substring(s, "thunder"@) || has_substring(s, "storm"@)
}

/// Words of snow.
pub open spec fn snow_words(s: Seq<char>) -> bool {
    has_substring(s, "snow"@) || has_substring(s, "flurr"@) || has_substring(s, "blizzard"@)
}

/// Words of rain.
pub open spec fn wet_words(s: Seq<char>) -> bool {
    has_substring(s, "rain"@) || has_substring(s, "shower"@) || has_substring(s, "drizzle"@)
}

/// Words of a hazy or foggy sky.
pub open spec fn fog_words(s: Seq<char>) -> bool {
    has_substring(s, "fog"@) || has_substring(s, "mist"@) || has_substring(s, "haz"@)
}

/// Words of a covered sky.
pub open spec fn overcast_words(s: Seq<char>) -> bool {
    has_substring(s, "mostly cloudy"@) || has_substring(s, "overcast"@)
}

/// Words of a sky with a few clouds.
pub open spec fn few_cloud_words(s: Seq<char>) -> bool {
    (has_substring(s, "partly"@) && has_substring(s, "cloud"@)) || has_substring(s, "mostly sunny"@)
        || has_substring(s, "mostly clear"@)
}

/// Words of a clear sky.
pub open spec fn clear_words(s: Seq<char>) -> bool {
    has_substring(s, "sunny"@) || has_substring(s, "clear"@)
}

/// The icon goes by the strongest weather the text names: a storm over snow,
/// snow over rain, rain over fog, haze or mist, those over a covered sky, that
/// over a few clouds, those over a clear sky, then any clouds; a text naming
/// none of these shows a clear sky. Only the clear and few-clouds icons have a
/// night form.
pub proof fn icons_follow_the_strongest_weather(s: Seq<char>, is_daytime: bool)
    ensures
        storm_words(s) ==> icon_for(s, is_daytime) == "weather-storm-symbolic"@,
        !storm_words(s) && snow_words(s) ==> icon_for(s, is_daytime) == "weather-snow-symbolic"@,
        !storm_words(s) && !snow_words(s) && wet_words(s) ==> icon_for(s, is_daytime) == (if has_substring(
            s,
            "scattered"@,
        ) {
            "weather-showers-scattered-symbolic"@
        } else {
            "weather-showers-symbolic"@
        }),
        !storm_words(s) && !snow_words(s) && !wet_words(s) && fog_words(s) ==> icon_for(s, is_daytime)
            == "weather-fog-symbolic"@,
        !storm_words(s) && !snow_words(s) && !wet_words(s) && !fog_words(s) && overcast_words(s) ==> icon_for(
            s,
            is_daytime,
        ) == "weather-overcast-symbolic"@,
        !storm_words(s) && !snow_words(s) && !wet_words(s) && !fog_words(s) && !overcast_words(s)
            && few_cloud_words(s) ==> icon_for(s, is_daytime) == (if is_daytime {
            "weather-few-clouds-symbolic"@
        } else {
            "weather-few-clouds-night-symbolic"@
        }),
        !storm_words(s) && !snow_words(s) && !wet_words(s) && !fog_words(s) && !overcast_words(s)
            && !few_cloud_words(s) && clear_words(s) ==> icon_for(s, is_daytime) == (if is_daytime {
            "weather-clear-symbolic"@
        } else {
            "weather-clear-night-symbolic"@
        }),
        !storm_words(s) && !snow_words(s) && !wet_words(s) && !fog_words(s) && !overcast_words(s)
            && !few_cloud_words(s) && !clear_words(s) ==> icon_for(s, is_daytime) == (if has_substring(
            s,
            "cloud"@,
        ) {
            "weather-overcast-symbolic"@
        } else if is_daytime {
            "weather-clear-symbolic"@
        } else {
            "weather-clear-night-symbolic"@
        }),
{
}

/// The icon of an ASCII text does not depend on the case of its letters: the
/// text, its all-capitals form and its all-small form get the same icon.
pub proof fn icon_ignores_ascii_case(s: Seq<char>, is_daytime: bool)
    requires
        vstd::utf8::is_ascii_chars(s),
    ensures
        vstd::utf8::is_ascii_chars(ascii_upper(s)),
        vstd::utf8::is_ascii_chars(ascii_lower(s)),
        icon_for(ascii_lower(ascii_upper(s)), is_daytime) == icon_for(ascii_lower(s), is_daytime),
        icon_for(ascii_lower(ascii_lower(s)), is_daytime) == icon_for(ascii_lower(s), is_daytime),
{
    assert forall|i: int| 0 <= i < s.len() implies '\0' <= #[trigger] ascii_upper(s)[i] <= '\u{7f}'
        && ascii_lower_char(ascii_upper(s)[i]) == ascii_lower_char(s[i]) by {
        let c = s[i];
        if 'a' <= c <= 'z' {
            assert(((c as int) - 32) as char as int == c as int - 32);
        }
    }
    assert forall|i: int| 0 <= i < s.len() implies '\0' <= #[trigger] ascii_lower(s)[i] <= '\u{7f}'
        && ascii_lower_char(ascii_lower(s)[i]) == ascii_lower_char(s[i]) by {
        let c = s[i];
        if 'A' <= c <= 'Z' {
            assert(((c as int) + 32) as char as int == c as int + 32);
        }
    }
    assert(ascii_lower(ascii_upper(s)) =~= ascii_lower(s));
    assert(ascii_lower(ascii_lower(s)) =~= ascii_lower(s));
}

/// Only the clear and few-clouds icons depend on day or night: every other icon
/// is the same by day and by night.
pub proof fn only_clear_skies_depend_on_daylight(s: Seq<char>)
    ensures
        icon_for(s, true) != "weather-clear-symbolic"@ && icon_for(s, true) != "weather-few-clouds-symbolic"@
            ==> icon_for(s, false) == icon_for(s, true),
{
}

// --- Wind directions ---

/// The sixteen compass points, clockwise from north.
pub open spec fn cardinal_names() -> Seq<Seq<char>> {
    seq![
        "N"@, "NNE"@, "NE"@, "ENE"@, "E"@, "ESE"@, "SE"@, "SSE"@, "S"@, "SSW"@, "SW"@, "WSW"@,
        "W"@, "WNW"@, "NW"@, "NNW"@,
    ]
}

/// The name of the compass point for a sector count of 22.5 degrees from north
/// (counted from -11.25 degrees), taken modulo the sixteen points.
pub fn cardinal_name(sector: usize) -> (r: String)
    ensures
        r@ == cardinal_names()[(sector % 16) as int],
{
    let i = sector % 16;
    let name = if i == 0 {
        "N"
    } else if i == 1 {
        "NNE"
    } else if i == 2 {
        "NE"
    } else if i == 3 {
        "ENE"
    } else if i == 4 {
        "E"
    } else if i == 5 {
        "ESE"
    } else if i == 6 {
        "SE"
    } else if i == 7 {
        "SSE"
    } else if i == 8 {
        "S"
    } else if i == 9 {
        "SSW"
    } else if i == 10 {
        "SW"
    } else if i == 11 {
        "WSW"
    } else if i == 12 {
        "W"
    } else if i == 13 {
        "WNW"
    } else if i == 14 {
        "NW"
    } else {
        "NNW"
    };
    String::from_str(name)
}

} // verus!
