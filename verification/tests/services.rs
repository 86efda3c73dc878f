use whether::backend::{
    aqi_severity_index, build_daily_periods, build_hourly_periods, build_observation,
    current_is_daytime, daytime_from_night, first_day_sun_times, hour_is_daytime, map_air_quality, shim_step, weather_result,
    CurrentReading, DayReading, HourReading, ShimAction, ShimEvent, ShimState,
};
use whether::config::{same_location, WhetherConfig};
use whether::geocoding::{is_us_location, GeoError};
use whether::nws::{forecast_url, grid_from_points, points_url, status_error, NwsError};
use whether::open_meteo::{
    daily_periods_named, day_name_given, day_names, effective_times, hourly_periods_at,
    shifted_or_same, adjust_time_string, build_daily_periods as om_daily, build_hourly_periods as om_hourly,
    date_to_day_name, effective_offset, om_observation, wmo_code_description, OmCurrent, OmDay, OmHour,
    OpenMeteoError,
};
use whether::summary::{condition_icon, pair_daily_periods};
use whether::types::{
    AirQuality, Alerts, AqiCategory, Compass, Condition, EuAqiCategory, GridInfo,
    NominatimAddress, PointsProperties, PointsResponse, RelativeLocation,
    RelativeLocationProperties, SavedLocation, SearchResult, UsAqiCategory, WeatherSource,
};

fn day(date: &str, sunrise: &str, sunset: &str) -> DayReading {
    DayReading {
        date: date.to_string(),
        condition: Condition::Rain,
        temp_max: 71,
        temp_min: 48,
        wind_speed: "12".to_string(),
        compass: Compass::SW,
        precipitation_probability: Some(40),
        sunrise: sunrise.to_string(),
        sunset: sunset.to_string(),
    }
}

fn current() -> CurrentReading {
    CurrentReading {
        temperature: 65,
        condition: Condition::PartlyCloudy,
        wind_speed: "8".to_string(),
        compass: Compass::N,
        humidity: 40,
        feels_like: 63,
        dew_point: 40,
        cloud_cover: 30,
        wind_gusts: "15".to_string(),
    }
}

fn grid() -> GridInfo {
    GridInfo { office: "BOU".to_string(), grid_x: 62, grid_y: 60, nearest_station: None }
}

#[test]
fn nws_addresses() {
    assert_eq!(points_url("39.7", "-104.9"), "https://api.weather.gov/points/39.7,-104.9");
    assert_eq!(
        forecast_url(&grid(), true),
        "https://api.weather.gov/gridpoints/BOU/62,60/forecast?units=us"
    );
    assert_eq!(
        forecast_url(&GridInfo { grid_x: 0, grid_y: 105, ..grid() }, false),
        "https://api.weather.gov/gridpoints/BOU/0,105/forecast?units=si"
    );
}

#[test]
fn nws_error_texts() {
    assert_eq!(NwsError::Network("down".into()).message(), "Network error: down");
    assert_eq!(NwsError::Api("x".into()).message(), "API error: x");
    assert_eq!(NwsError::Parse("y".into()).message(), "Parse error: y");
    let e = status_error("Points", "404 Not Found");
    assert_eq!(e.message(), "API error: Points API returned 404 Not Found");
    assert_eq!(OpenMeteoError::Network("a".into()).message(), "Network error: a");
    assert_eq!(OpenMeteoError::Api("b".into()).message(), "API error: b");
    assert_eq!(OpenMeteoError::Parse("c".into()).message(), "Parse error: c");
    assert_eq!(GeoError("gone".into()).message(), "gone");
    assert_eq!(GeoError::from_status("503").message(), "Nominatim returned 503");
}

#[test]
fn grid_lookup_names_the_nearest_place() {
    let mut points = PointsResponse {
        properties: PointsProperties {
            grid_id: "BOU".into(),
            grid_x: 62,
            grid_y: 60,
            relative_location: Some(RelativeLocation {
                properties: RelativeLocationProperties {
                    city: "Denver".into(),
                    state: "CO".into(),
                },
            }),
        },
    };
    let (g, name) = grid_from_points(&points);
    assert_eq!((g.office.as_str(), g.grid_x, g.grid_y), ("BOU", 62, 60));
    assert!(g.nearest_station.is_none());
    assert_eq!(name, "Denver, CO");
    points.properties.relative_location = None;
    assert_eq!(grid_from_points(&points).1, "");
}

#[test]
fn us_results_by_country_code() {
    let mut r = SearchResult {
        display_name: "x".into(),
        lat: "1".into(),
        lon: "2".into(),
        address: Some(NominatimAddress { country_code: Some("us".into()) }),
    };
    assert!(is_us_location(&r));
    r.address = Some(NominatimAddress { country_code: Some("ca".into()) });
    assert!(!is_us_location(&r));
    r.address = Some(NominatimAddress { country_code: None });
    assert!(!is_us_location(&r));
    r.address = None;
    assert!(!is_us_location(&r));
}

#[test]
fn every_wmo_description_finds_its_icon() {
    let expect = |codes: &[u32], day: &str, night: &str| {
        for &code in codes {
            assert_eq!(condition_icon(&wmo_code_description(code, true), true), day, "code {code}");
            assert_eq!(condition_icon(&wmo_code_description(code, false), false), night, "code {code}");
        }
    };
    expect(&[0], "weather-clear-symbolic", "weather-clear-night-symbolic");
    expect(&[1, 2], "weather-few-clouds-symbolic", "weather-few-clouds-night-symbolic");
    expect(&[3], "weather-overcast-symbolic", "weather-overcast-symbolic");
    expect(&[45, 48], "weather-fog-symbolic", "weather-fog-symbolic");
    let rain = [51, 53, 55, 56, 57, 61, 63, 65, 66, 67, 80, 81, 82];
    expect(&rain, "weather-showers-symbolic", "weather-showers-symbolic");
    let snow = [71, 73, 75, 77, 85, 86];
    expect(&snow, "weather-snow-symbolic", "weather-snow-symbolic");
    expect(&[95, 96, 99], "weather-storm-symbolic", "weather-storm-symbolic");
}

#[test]
fn open_meteo_current_block_becomes_the_observation() {
    let cur = OmCurrent {
        temperature: Some(58),
        weather_code: Some(61),
        wind_speed: Some("9".to_string()),
        wind_direction: Some("SW".to_string()),
        humidity: Some(72),
        is_day: Some(0),
    };
    let o = om_observation(&cur, "F", "mph");
    assert_eq!(o.temperature, Some(58));
    assert_eq!(o.temperature_unit, "F");
    assert_eq!(o.condition, Some(Condition::Rain));
    assert_eq!(o.wind_speed.as_deref(), Some("9 mph"));
    assert_eq!(o.wind_direction.as_deref(), Some("SW"));
    assert_eq!(o.humidity, Some(72));
    assert!(!o.is_daytime);
    assert_eq!(o.compass, None);
    assert_eq!(o.wind_gusts, None);

    let bare = OmCurrent {
        temperature: None,
        weather_code: None,
        wind_speed: None,
        wind_direction: None,
        humidity: None,
        is_day: None,
    };
    let o = om_observation(&bare, "C", "kmh");
    assert!(o.is_daytime);
    assert_eq!(o.condition, None);
    assert_eq!(o.wind_speed, None);

    let classes = [
        (0, Condition::ClearSky),
        (2, Condition::PartlyCloudy),
        (48, Condition::Foggy),
        (57, Condition::FreezingDrizzle),
        (77, Condition::SnowGrains),
        (81, Condition::RainShowers),
        (99, Condition::ThunderstormHail),
        (4, Condition::Unknown),
        (4_000_000_000, Condition::Unknown),
    ];
    for (code, class) in classes {
        let c = OmCurrent { weather_code: Some(code), is_day: Some(1), ..bare_clone(&bare) };
        assert_eq!(om_observation(&c, "C", "kmh").condition, Some(class), "code {code}");
        assert!(om_observation(&c, "C", "kmh").is_daytime);
    }
}

fn bare_clone(c: &OmCurrent) -> OmCurrent {
    OmCurrent {
        temperature: c.temperature,
        weather_code: c.weather_code,
        wind_speed: c.wind_speed.clone(),
        wind_direction: c.wind_direction.clone(),
        humidity: c.humidity,
        is_day: c.is_day,
    }
}

#[test]
fn wmo_codes_describe_the_sky() {
    assert_eq!(wmo_code_description(0, true), "Clear sky");
    assert_eq!(wmo_code_description(0, false), "Clear");
    assert_eq!(wmo_code_description(2, true), "Partly cloudy");
    assert_eq!(wmo_code_description(48, true), "Fog");
    assert_eq!(wmo_code_description(63, false), "Moderate rain");
    assert_eq!(wmo_code_description(82, true), "Violent rain showers");
    assert_eq!(wmo_code_description(99, true), "Thunderstorm with hail");
    assert_eq!(wmo_code_description(4, true), "Unknown");
    assert_eq!(
        condition_icon(&wmo_code_description(75, true), true),
        "weather-snow-symbolic"
    );
    assert_eq!(
        condition_icon(&wmo_code_description(95, true), true),
        "weather-storm-symbolic"
    );
}

#[test]
fn day_names_come_from_the_calendar() {
    assert_eq!(date_to_day_name("2026-03-01", true), "Today");
    assert_eq!(date_to_day_name("2026-03-01", false), "Sunday");
    assert_eq!(date_to_day_name("2026-03-02", false), "Monday");
    assert_eq!(date_to_day_name("not a date", false), "not a date");
}

#[test]
fn shifting_forward_and_back_restores_the_time() {
    for t in ["2026-02-28T21:00", "2026-12-31T23:00", "2024-02-29T00:30"] {
        for o in [3600, -7 * 3600, 5 * 3600 + 1800, 0] {
            assert_eq!(adjust_time_string(&adjust_time_string(t, o), -o), t);
        }
    }
    assert_eq!(adjust_time_string("2026-02-28T23:00", 7200), "2026-03-01T01:00");
    assert_eq!(adjust_time_string("bad", 7200), "bad");
}

#[test]
fn times_shift_by_the_offset() {
    assert_eq!(adjust_time_string("2026-02-28T21:00", 3600), "2026-02-28T22:00");
    assert_eq!(adjust_time_string("2026-02-28T21:00", 4 * 3600), "2026-03-01T01:00");
    assert_eq!(adjust_time_string("2026-02-28T01:00", -7 * 3600), "2026-02-27T18:00");
    assert_eq!(adjust_time_string("garbage", 3600), "garbage");
}

#[test]
fn offset_falls_back_to_longitude_only_when_missing() {
    assert_eq!(effective_offset(-25200, -25200), (-25200, false));
    assert_eq!(effective_offset(0, -25200), (-25200, true));
    assert_eq!(effective_offset(0, 3600), (3600, true));
    assert_eq!(effective_offset(0, 1800), (0, false));
    assert_eq!(effective_offset(0, 0), (0, false));
}

#[test]
fn open_meteo_days_become_named_day_and_night() {
    let days = vec![
        OmDay {
            time: "2026-03-01".into(),
            weather_code: 61,
            temp_max: 50,
            temp_min: 30,
            wind_speed: "10".into(),
            wind_direction: "NW".into(),
            precipitation: Some(70),
        },
        OmDay {
            time: "2026-03-02".into(),
            weather_code: 0,
            temp_max: 55,
            temp_min: 33,
            wind_speed: "4".into(),
            wind_direction: "S".into(),
            precipitation: None,
        },
    ];
    let ps = om_daily(&days, "F", "mph");
    assert_eq!(ps.len(), 4);
    assert_eq!(ps[0].name, "Today");
    assert_eq!(ps[1].name, "Tonight");
    assert_eq!(ps[2].name, "Monday");
    assert_eq!(ps[3].name, "Monday Night");
    assert_eq!(ps[0].temperature, 50);
    assert_eq!(ps[1].temperature, 30);
    assert_eq!(ps[0].wind_speed, "10 mph");
    assert_eq!(ps[0].short_forecast, "Slight rain");
    assert_eq!(ps[2].short_forecast, "Clear sky");
    assert_eq!(ps[3].short_forecast, "Clear");
    assert_eq!(ps[0].start_time.as_deref(), Some("2026-03-01T12:00:00"));
    assert_eq!(ps[1].start_time.as_deref(), Some("2026-03-01T00:00:00"));
    assert_eq!(ps[0].probability_of_precipitation.unwrap().value, Some(70));
    assert!(ps[0].is_daytime && !ps[1].is_daytime);
}

fn om_hour(time: &str, t: i32) -> OmHour {
    OmHour {
        time: time.into(),
        temperature: t,
        weather_code: 3,
        wind_speed: "5".into(),
        wind_direction: "E".into(),
        precipitation: Some(10),
        is_day: 1,
    }
}

#[test]
fn open_meteo_hours_start_at_the_current_hour() {
    let hours: Vec<OmHour> =
        (0..30).map(|h| om_hour(&format!("2026-03-{:02}T{:02}:00", 1 + h / 24, h % 24), h as i32)).collect();
    let ps = om_hourly(&hours, "2026-03-01T03:30", "C", "km/h", 0, false);
    assert_eq!(ps.len(), 24);
    assert_eq!(ps[0].temperature, 4);
    assert_eq!(ps[0].start_time.as_deref(), Some("2026-03-01T04:00"));
    assert_eq!(ps[0].wind_speed, "5 km/h");
    assert_eq!(ps[0].short_forecast, "Overcast");
    let late = om_hourly(&hours, "2026-03-02T02:00", "C", "km/h", 0, false);
    assert_eq!(late.len(), 4);
    assert_eq!(late[0].temperature, 26);
    let past = om_hourly(&hours, "2027-01-01T00:00", "C", "km/h", 0, false);
    assert_eq!(past.len(), 24);
    assert_eq!(past[0].temperature, 0);
    let moved = om_hourly(&hours, "2026-03-01T05:00", "C", "km/h", 3600, true);
    assert_eq!(moved[0].temperature, 4);
    assert_eq!(moved[0].start_time.as_deref(), Some("2026-03-01T05:00"));
}

#[test]
fn daily_readings_become_high_and_low_periods() {
    let days = vec![day("2026-03-01", "2026-03-01T06:30", "2026-03-01T17:50")];
    let ps = build_daily_periods(&days, "F", "mph");
    assert_eq!(ps.len(), 2);
    assert_eq!(ps[0].temperature, 71);
    assert_eq!(ps[1].temperature, 48);
    assert_eq!(ps[0].wind_speed, "12 mph");
    assert_eq!(ps[0].wind_direction, "SW");
    assert_eq!(ps[0].compass, Some(Compass::SW));
    assert_eq!(ps[0].condition, Some(Condition::Rain));
    assert_eq!(ps[0].start_time.as_deref(), Some("2026-03-01T06:00:00"));
    assert_eq!(ps[1].start_time.as_deref(), Some("2026-03-01T18:00:00"));
    assert!(ps[0].is_daytime && !ps[1].is_daytime);
    assert_eq!(ps[1].probability_of_precipitation.unwrap().value, Some(40));
}

#[test]
fn hours_are_day_between_sunrise_and_sunset() {
    let days = vec![
        day("2026-03-01", "2026-03-01T06:30", "2026-03-01T17:50"),
        day("2026-03-02", "2026-03-02T06:28", "2026-03-02T17:51"),
    ];
    assert!(!hour_is_daytime("2026-03-01T05:00", &days));
    assert!(hour_is_daytime("2026-03-01T06:30", &days));
    assert!(hour_is_daytime("2026-03-01T12:00", &days));
    assert!(!hour_is_daytime("2026-03-01T17:50", &days));
    assert!(!hour_is_daytime("2026-03-02T05:00", &days));
    assert!(hour_is_daytime("2026-03-09T02:00", &days));
    assert!(hour_is_daytime("short", &days));
    let hours = vec![HourReading {
        time: "2026-03-01T20:00".into(),
        condition: Condition::ClearSky,
        temperature: 40,
        wind_speed: "3".into(),
        precipitation_probability: 0,
    }];
    let ps = build_hourly_periods(&hours, &days, "C", "km/h");
    assert_eq!(ps.len(), 1);
    assert!(!ps[0].is_daytime);
    assert_eq!(ps[0].wind_speed, "3 km/h");
    assert_eq!(ps[0].wind_direction, "");
    assert_eq!(ps[0].probability_of_precipitation.unwrap().value, Some(0));
}

#[test]
fn observation_carries_the_reading() {
    let o = build_observation(&current(), false, "F", "mph");
    assert_eq!(o.temperature, Some(65));
    assert_eq!(o.wind_speed.as_deref(), Some("8 mph"));
    assert_eq!(o.wind_gusts.as_deref(), Some("15 mph"));
    assert_eq!(o.compass, Some(Compass::N));
    assert!(!o.is_daytime);
    assert_eq!(o.feels_like, Some(63));
}

#[test]
fn daylight_follows_the_first_day() {
    assert!(current_is_daytime(&[], 0));
    let past = vec![day("1970-01-01", "1970-01-01T06:00:00", "1970-01-01T18:00:00")];
    assert!(!current_is_daytime(&past, 0));
    let always = vec![day("1970-01-01", "1970-01-01T00:00:00", "2999-12-31T23:59:59")];
    assert!(current_is_daytime(&always, 0));
}

#[test]
fn paired_daily_periods_keep_each_days_high_and_low() {
    let mut second = day("2026-03-02", "2026-03-02T06:28", "2026-03-02T18:12");
    second.temp_max = 64;
    second.temp_min = 39;
    let days = vec![day("2026-03-01", "2026-03-01T06:30", "2026-03-01T18:10"), second];
    let s = pair_daily_periods(&build_daily_periods(&days, "F", "mph"));
    assert_eq!(s.len(), 2);
    assert_eq!((s[0].high, s[0].low), (Some(71), Some(48)));
    assert_eq!((s[1].high, s[1].low), (Some(64), Some(39)));

    let om_days = vec![
        OmDay {
            time: "2026-03-01".into(),
            weather_code: 61,
            temp_max: 50,
            temp_min: 30,
            wind_speed: "10".into(),
            wind_direction: "NW".into(),
            precipitation: Some(70),
        },
        OmDay {
            time: "2026-03-02".into(),
            weather_code: 0,
            temp_max: 55,
            temp_min: 33,
            wind_speed: "4".into(),
            wind_direction: "S".into(),
            precipitation: None,
        },
    ];
    let s = pair_daily_periods(&om_daily(&om_days, "F", "mph"));
    assert_eq!(s.len(), 2);
    assert_eq!((s[0].high, s[0].low), (Some(50), Some(30)));
    assert_eq!((s[1].high, s[1].low), (Some(55), Some(33)));
    assert_eq!(s[0].name, "Today");
    assert_eq!(s[1].name, "Monday");
}

#[test]
fn sun_times_come_from_the_first_day() {
    assert_eq!(first_day_sun_times(&[]), None);
    let days = vec![
        day("2026-03-01", "2026-03-01T06:30", "2026-03-01T18:10"),
        day("2026-03-02", "2026-03-02T06:28", "2026-03-02T18:12"),
    ];
    assert_eq!(
        first_day_sun_times(&days),
        Some(("2026-03-01T06:30".to_string(), "2026-03-01T18:10".to_string()))
    );
}

#[test]
fn day_is_the_opposite_of_night() {
    assert!(!daytime_from_night(Some(true)));
    assert!(daytime_from_night(Some(false)));
    assert!(daytime_from_night(None));
}

#[test]
fn air_quality_severity_on_both_scales() {
    assert_eq!(aqi_severity_index(&AqiCategory::Us(UsAqiCategory::Good)), 0);
    assert_eq!(aqi_severity_index(&AqiCategory::Us(UsAqiCategory::UnhealthySensitive)), 2);
    assert_eq!(aqi_severity_index(&AqiCategory::Eu(EuAqiCategory::Fair)), 2);
    assert_eq!(aqi_severity_index(&AqiCategory::Eu(EuAqiCategory::ExtremelyPoor)), 5);
    assert_eq!(aqi_severity_index(&AqiCategory::Us(UsAqiCategory::Hazardous)), 5);
    let a = map_air_quality(42, AqiCategory::Eu(EuAqiCategory::Moderate));
    assert_eq!(a, AirQuality { aqi: 42, category: AqiCategory::Eu(EuAqiCategory::Moderate), severity: 1 });
}

#[test]
fn overlay_outside_us_does_nothing() {
    let (s, a) = shim_step(ShimState::Start, ShimEvent::Begin { is_us: false, cached_grid: Some(grid()) });
    assert!(matches!(s, ShimState::Done));
    assert!(matches!(a, ShimAction::Finish(None)));
}

#[test]
fn overlay_rechecks_a_stale_cached_grid() {
    let (s, a) = shim_step(ShimState::Start, ShimEvent::Begin { is_us: true, cached_grid: Some(grid()) });
    assert!(matches!(a, ShimAction::FetchForecast(ref g) if g.office == "BOU"));
    let (s, a) = shim_step(s, ShimEvent::Forecast(Some((vec![], false))));
    assert!(matches!(a, ShimAction::FetchPoints));
    let fresh = GridInfo { office: "PUB".into(), ..grid() };
    let (s, a) = shim_step(s, ShimEvent::Points(Some(fresh)));
    assert!(matches!(a, ShimAction::FetchForecast(ref g) if g.office == "PUB"));
    let (s, a) = shim_step(s, ShimEvent::Forecast(Some((vec![], false))));
    assert!(matches!(s, ShimState::Done));
    assert!(matches!(a, ShimAction::Finish(Some((ref g, _))) if g.office == "PUB"));
}

#[test]
fn overlay_trusts_a_fresh_grid_and_gives_up_on_failure() {
    let (s, a) = shim_step(ShimState::Start, ShimEvent::Begin { is_us: true, cached_grid: None });
    assert!(matches!(a, ShimAction::FetchPoints));
    let (s2, a) = shim_step(s, ShimEvent::Points(Some(grid())));
    assert!(matches!(a, ShimAction::FetchForecast(_)));
    let (_, a) = shim_step(s2, ShimEvent::Forecast(Some((vec![], false))));
    assert!(matches!(a, ShimAction::Finish(Some((ref g, _))) if g.office == "BOU"));
    let (_, a) = shim_step(ShimState::AwaitPoints, ShimEvent::Points(None));
    assert!(matches!(a, ShimAction::Finish(None)));
}

#[test]
fn result_prefers_the_overlay_for_daily_periods() {
    let days = vec![day("2026-03-01", "2026-03-01T06:30", "2026-03-01T17:50")];
    let r = weather_result(
        "Denver".into(),
        &days,
        &[],
        &current(),
        true,
        -25200,
        false,
        None,
        Alerts::Local(vec![]),
        None,
    );
    assert_eq!(r.forecast.periods.len(), 2);
    assert_eq!(r.forecast.periods[0].temperature_unit, "C");
    assert_eq!(r.forecast.periods[0].wind_speed, "12 km/h");
    assert!(r.cached_grid.is_none());
    assert_eq!(r.forecast.sun_times[0].sunrise, "2026-03-01T06:30");
    assert_eq!(r.forecast.utc_offset_seconds, -25200);
    assert_eq!(r.observation.as_ref().unwrap().temperature_unit, "C");
    let overlay = (grid(), vec![]);
    let r = weather_result(
        "Denver".into(),
        &days,
        &[],
        &current(),
        true,
        0,
        true,
        Some(overlay),
        Alerts::Unavailable("x".into()),
        None,
    );
    assert!(r.forecast.periods.is_empty());
    assert_eq!(r.cached_grid.unwrap().office, "BOU");
    assert_eq!(r.observation.unwrap().wind_speed.as_deref(), Some("8 mph"));
}

#[test]
fn settings_copies_and_comparisons() {
    let mut c = WhetherConfig::default();
    c.locations.push(SavedLocation {
        name: "A".into(),
        lat: "1".into(),
        lon: "2".into(),
        cached_grid: Some(grid()),
        source: WeatherSource::Nws,
        country_code: None,
    });
    let d = c.duplicate();
    assert!(c.same_as(&d));
    assert!(same_location(&c.locations[0], &d.locations[0]));
    let mut e = c.duplicate();
    e.locations[0].cached_grid.as_mut().unwrap().grid_x = 1;
    assert!(!c.same_as(&e));
    assert!(c.active_location().is_some());
    e.active_location_index = 3;
    assert!(e.active_location().is_none());
}

#[test]
fn named_days_and_timed_hours() {
    let days = vec![OmDay {
        time: "2026-03-03".into(),
        weather_code: 3,
        temp_max: 40,
        temp_min: 20,
        wind_speed: "7".into(),
        wind_direction: "N".into(),
        precipitation: None,
    }];
    assert_eq!(day_names(&days), vec!["Today".to_string()]);
    let ps = daily_periods_named(&days, &["Someday".to_string()], "F", "mph");
    assert_eq!(ps[0].name, "Someday");
    assert_eq!(ps[1].name, "Tonight");
    assert_eq!(day_name_given("2026-03-03", Some("Tuesday".into())), "Tuesday");
    assert_eq!(day_name_given("junk", None), "junk");
    assert_eq!(shifted_or_same("x", Some("y".into())), "y");
    assert_eq!(shifted_or_same("x", None), "x");
    let hours = vec![om_hour("2026-03-01T10:00", 1), om_hour("2026-03-01T11:00", 2)];
    let times = effective_times(&hours, -3600, true);
    assert_eq!(times, vec!["2026-03-01T09:00".to_string(), "2026-03-01T10:00".to_string()]);
    let unmoved = effective_times(&hours, -3600, false);
    assert_eq!(unmoved[0], "2026-03-01T10:00");
    let ps = hourly_periods_at(&hours, &times, "2026-03-01T09:30", "C", "km/h");
    assert_eq!(ps.len(), 1);
    assert_eq!(ps[0].temperature, 2);
    assert_eq!(ps[0].start_time.as_deref(), Some("2026-03-01T10:00"));
}
