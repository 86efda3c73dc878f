use whether::summary::{
    cardinal_name, condition_icon, format_hour, icon_for_lowercase, pair_daily_periods,
    short_location_name,
};
use whether::types::{ForecastPeriod, PrecipValue, WeatherSource};

fn period(name: &str, temperature: i32, is_daytime: bool, precip: Option<i32>) -> ForecastPeriod {
    ForecastPeriod {
        name: name.to_string(),
        condition: None,
        temperature,
        temperature_unit: "F".to_string(),
        wind_speed: "5 mph".to_string(),
        wind_direction: "NW".to_string(),
        compass: None,
        short_forecast: format!("{name} short"),
        detailed_forecast: format!("{name} detail"),
        is_daytime,
        probability_of_precipitation: Some(PrecipValue { value: precip }),
        start_time: None,
    }
}

#[test]
fn day_takes_following_night_as_low() {
    let ps = vec![
        period("Monday", 70, true, Some(20)),
        period("Monday Night", 50, false, None),
        period("Tuesday", 72, true, None),
    ];
    let s = pair_daily_periods(&ps);
    assert_eq!(s.len(), 2);
    assert_eq!(s[0].name, "Monday");
    assert_eq!(s[0].high, Some(70));
    assert_eq!(s[0].low, Some(50));
    assert_eq!(s[0].precip_chance, Some(20));
    assert_eq!(s[0].short_forecast, "Monday short");
    assert_eq!(s[1].name, "Tuesday");
    assert_eq!(s[1].high, Some(72));
    assert_eq!(s[1].low, None);
}

#[test]
fn leading_night_stands_alone() {
    let ps = vec![
        period("Tonight", 40, false, Some(5)),
        period("Friday", 60, true, None),
        period("Friday Night", 41, false, None),
    ];
    let s = pair_daily_periods(&ps);
    assert_eq!(s.len(), 2);
    assert_eq!(s[0].name, "Tonight");
    assert_eq!(s[0].high, None);
    assert_eq!(s[0].low, Some(40));
    assert!(!s[0].is_daytime);
    assert_eq!(s[1].high, Some(60));
    assert_eq!(s[1].low, Some(41));
}

#[test]
fn two_days_in_a_row_do_not_pair() {
    let ps = vec![period("A", 1, true, None), period("B", 2, true, None)];
    let s = pair_daily_periods(&ps);
    assert_eq!(s.len(), 2);
    assert_eq!(s[0].low, None);
    assert_eq!(s[1].low, None);
    assert!(pair_daily_periods(&[]).is_empty());
}

#[test]
fn summary_count_stays_between_half_and_all() {
    let ps = vec![
        period("a", 1, true, None),
        period("b", 2, false, None),
        period("c", 3, true, None),
        period("d", 4, false, None),
        period("e", 5, false, None),
    ];
    let s = pair_daily_periods(&ps);
    assert_eq!(s.len(), 3);
    assert!(s.len() <= ps.len() && 2 * s.len() >= ps.len());
}

#[test]
fn format_hour_reads_the_hour_after_t() {
    assert_eq!(format_hour("2026-02-28T14:00:00-08:00"), "2 PM");
    assert_eq!(format_hour("2026-02-28T00:00:00"), "12 AM");
    assert_eq!(format_hour("2026-02-28T09:00"), "9 AM");
    assert_eq!(format_hour("2026-02-28T12:30"), "12 PM");
    assert_eq!(format_hour("2026-02-28T23:00"), "11 PM");
    assert_eq!(format_hour("2026-02-28T+7:00"), "7 AM");
}

#[test]
fn format_hour_falls_back_to_the_input() {
    assert_eq!(format_hour("no separator"), "no separator");
    assert_eq!(format_hour("2026-02-28Tab:00"), "2026-02-28Tab:00");
    assert_eq!(format_hour("xTé"), "xTé");
}

#[test]
fn short_name_keeps_city_and_state() {
    assert_eq!(
        short_location_name("Denver, City and County of Denver, Colorado, United States"),
        "Denver, Colorado"
    );
    assert_eq!(
        short_location_name("Chicago, Cook County, Illinois, United States"),
        "Chicago, Illinois"
    );
    assert_eq!(short_location_name("Paris, France"), "Paris, France");
    assert_eq!(short_location_name("Nowhere"), "Nowhere");
    assert_eq!(short_location_name("a, b, c"), "a, b");
}

#[test]
fn icons_follow_the_condition_words() {
    assert_eq!(condition_icon("Chance Thunderstorms", true), "weather-storm-symbolic");
    assert_eq!(condition_icon("Light Snow", true), "weather-snow-symbolic");
    assert_eq!(
        condition_icon("Scattered Rain Showers", true),
        "weather-showers-scattered-symbolic"
    );
    assert_eq!(condition_icon("Rain", true), "weather-showers-symbolic");
    assert_eq!(condition_icon("Patchy Fog", true), "weather-fog-symbolic");
    assert_eq!(condition_icon("Mostly Cloudy", false), "weather-overcast-symbolic");
    assert_eq!(condition_icon("Partly Cloudy", false), "weather-few-clouds-night-symbolic");
    assert_eq!(condition_icon("Mostly Sunny", true), "weather-few-clouds-symbolic");
    assert_eq!(condition_icon("SUNNY", true), "weather-clear-symbolic");
    assert_eq!(condition_icon("Clear", false), "weather-clear-night-symbolic");
    assert_eq!(condition_icon("Cloudy", true), "weather-overcast-symbolic");
    assert_eq!(condition_icon("Windy", false), "weather-clear-night-symbolic");
    assert_eq!(condition_icon("Windy", true), "weather-clear-symbolic");
}

#[test]
fn icons_ignore_the_case_of_the_letters() {
    for text in ["Chance Thunderstorms", "Patchy Fog", "Partly Cloudy", "Mostly Clear", "Drizzle"] {
        for day in [true, false] {
            let icon = condition_icon(text, day);
            assert_eq!(condition_icon(&text.to_ascii_uppercase(), day), icon);
            assert_eq!(condition_icon(&text.to_ascii_lowercase(), day), icon);
        }
    }
}

#[test]
fn only_clear_skies_change_with_the_night() {
    for text in ["Thunderstorms", "Snow", "Scattered Showers", "Rain", "Fog", "Overcast", "Cloudy"] {
        assert_eq!(condition_icon(text, true), condition_icon(text, false));
    }
    assert_ne!(condition_icon("Sunny", true), condition_icon("Sunny", false));
    assert_ne!(condition_icon("Partly Cloudy", true), condition_icon("Partly Cloudy", false));
}

#[test]
fn icon_matching_is_case_insensitive_only_through_lowercasing() {
    assert_eq!(icon_for_lowercase("THUNDER", true), "weather-clear-symbolic");
    assert_eq!(condition_icon("THUNDER", true), "weather-storm-symbolic");
}

#[test]
fn cardinal_names_go_round_the_compass() {
    assert_eq!(cardinal_name(0), "N");
    assert_eq!(cardinal_name(1), "NNE");
    assert_eq!(cardinal_name(4), "E");
    assert_eq!(cardinal_name(12), "W");
    assert_eq!(cardinal_name(15), "NNW");
    assert_eq!(cardinal_name(16), "N");
    assert_eq!(cardinal_name(20), "E");
}

#[test]
fn sources_by_country() {
    assert_eq!(
        WeatherSource::available_for(Some("us")),
        vec![WeatherSource::Nws, WeatherSource::OpenMeteo]
    );
    assert_eq!(
        WeatherSource::available_for(None),
        vec![WeatherSource::Nws, WeatherSource::OpenMeteo]
    );
    assert_eq!(WeatherSource::available_for(Some("se")), vec![WeatherSource::OpenMeteo]);
    assert_eq!(WeatherSource::available_for(Some("US")), vec![WeatherSource::OpenMeteo]);
    assert_eq!(WeatherSource::Nws.label(), "NWS");
    assert_eq!(WeatherSource::OpenMeteo.label(), "Open-Meteo");
    assert_eq!(WeatherSource::Nws.toggle(), WeatherSource::OpenMeteo);
    assert_eq!(WeatherSource::Nws.toggle().toggle(), WeatherSource::Nws);
    assert_eq!(WeatherSource::default(), WeatherSource::Nws);
}
