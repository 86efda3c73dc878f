use whether::config::WhetherConfig;
use whether::model::{
    active_identity, fetch_weather_task, names_of, AppModel, Message, Page, HOURLY_PAGE_SIZE,
};
use whether::types::{
    Alerts, FetchState, Forecast, ForecastPeriod, GridInfo, NominatimAddress, SavedLocation,
    SearchResult, WeatherResult, WeatherSource,
};

fn location(name: &str, lat: &str, lon: &str) -> SavedLocation {
    SavedLocation {
        name: name.to_string(),
        lat: lat.to_string(),
        lon: lon.to_string(),
        cached_grid: None,
        source: WeatherSource::Nws,
        country_code: Some("us".to_string()),
    }
}

fn config_with(n: usize, active: usize) -> WhetherConfig {
    let mut c = WhetherConfig::default();
    for i in 0..n {
        c.locations.push(location(&format!("Place {i}"), &format!("{i}.0"), "-105.0"));
    }
    c.active_location_index = active;
    c
}

fn hour(i: usize) -> ForecastPeriod {
    ForecastPeriod {
        name: String::new(),
        condition: None,
        temperature: i as i32,
        temperature_unit: "F".to_string(),
        wind_speed: String::new(),
        wind_direction: String::new(),
        compass: None,
        short_forecast: String::new(),
        detailed_forecast: String::new(),
        is_daytime: true,
        probability_of_precipitation: None,
        start_time: None,
    }
}

fn result(name: &str, grid: Option<GridInfo>, hours: usize) -> WeatherResult {
    WeatherResult {
        forecast: Forecast {
            location_name: name.to_string(),
            periods: vec![],
            hourly_periods: (0..hours).map(hour).collect(),
            sun_times: vec![],
            utc_offset_seconds: 0,
        },
        cached_grid: grid,
        alerts: Alerts::Local(vec![]),
        observation: None,
        air_quality: None,
    }
}

fn grid() -> GridInfo {
    GridInfo { office: "BOU".to_string(), grid_x: 62, grid_y: 60, nearest_station: None }
}

#[test]
fn fresh_model_starts_on_setup() {
    let m = AppModel::default();
    assert_eq!(m.page, Page::Setup);
    assert!(matches!(m.fetch_state, FetchState::Idle));
    assert_eq!(m.fetch_generation, 0);
    assert!(m.config.use_fahrenheit);
    assert_eq!(m.config.refresh_interval_minutes, 30);
}

#[test]
fn init_with_a_location_fetches_it() {
    let (m, eff) = AppModel::init(config_with(2, 1));
    assert_eq!(m.page, Page::Main);
    assert_eq!(m.location_names, vec!["Place 0".to_string(), "Place 1".to_string()]);
    let f = eff.fetch.expect("a fetch");
    assert_eq!(f.generation, 1);
    assert_eq!(f.lat, "1.0");
    assert_eq!(f.location_name, "Place 1");
    assert!(matches!(m.fetch_state, FetchState::Loading));
    assert!(!eff.save_config);
}

#[test]
fn init_without_locations_waits_on_setup() {
    let (m, eff) = AppModel::init(WhetherConfig::default());
    assert_eq!(m.page, Page::Setup);
    assert!(eff.fetch.is_none());
    assert_eq!(m.fetch_generation, 0);
}

#[test]
fn stale_result_is_ignored() {
    let (mut m, _) = AppModel::init(config_with(1, 0));
    let eff = m.update(Message::FetchWeather);
    assert_eq!(eff.fetch.unwrap().generation, 2);
    let eff = m.update(Message::WeatherFetched(1, Ok(result("Old", None, 3))));
    assert!(m.forecast.is_none());
    assert!(matches!(m.fetch_state, FetchState::Loading));
    assert!(!eff.mark_updated && !eff.save_config && eff.fetch.is_none());
    let eff = m.update(Message::WeatherFetched(2, Ok(result("New", None, 3))));
    assert!(matches!(m.fetch_state, FetchState::Loaded));
    assert_eq!(m.forecast.as_ref().unwrap().location_name, "New");
    assert!(eff.mark_updated);
}

#[test]
fn result_fills_in_grid_and_missing_name() {
    let mut c = config_with(1, 0);
    c.locations[0].name = String::new();
    let (mut m, _) = AppModel::init(c);
    let eff = m.update(Message::WeatherFetched(1, Ok(result("Denver, CO", Some(grid()), 0))));
    assert!(eff.save_config);
    assert_eq!(m.config.locations[0].name, "Denver, CO");
    assert_eq!(m.config.locations[0].cached_grid.as_ref().unwrap().office, "BOU");
    assert_eq!(m.location_names, vec!["Denver, CO".to_string()]);
    // The same result again changes nothing worth storing.
    m.update(Message::FetchWeather);
    let eff = m.update(Message::WeatherFetched(2, Ok(result("Denver, CO", Some(grid()), 0))));
    assert!(!eff.save_config);
}

#[test]
fn failed_fetch_shows_the_error() {
    let (mut m, _) = AppModel::init(config_with(1, 0));
    m.update(Message::WeatherFetched(1, Err("bad latitude".to_string())));
    assert!(matches!(&m.fetch_state, FetchState::Error(e) if e == "bad latitude"));
}

#[test]
fn tick_refetches_only_when_idle() {
    let (mut m, _) = AppModel::init(config_with(1, 0));
    assert!(m.update(Message::Tick).fetch.is_none());
    m.update(Message::WeatherFetched(1, Ok(result("x", None, 0))));
    assert_eq!(m.update(Message::Tick).fetch.unwrap().generation, 2);
}

#[test]
fn search_flow_adds_and_activates_the_pick() {
    let (mut m, _) = AppModel::init(config_with(1, 0));
    m.update(Message::AddLocation);
    assert_eq!(m.page, Page::Locations);
    m.update(Message::SearchInput("denver".to_string()));
    let eff = m.update(Message::SearchSubmit);
    assert_eq!(eff.search.as_deref(), Some("denver"));
    assert!(m.searching);
    m.update(Message::SearchResults(Ok(vec![SearchResult {
        display_name: "Denver, City and County of Denver, Colorado, United States".to_string(),
        lat: "39.7".to_string(),
        lon: "-104.9".to_string(),
        address: Some(NominatimAddress { country_code: Some("us".to_string()) }),
    }])));
    assert!(m.search_done && !m.searching);
    let eff = m.update(Message::SelectLocation(0));
    assert!(eff.save_config);
    assert_eq!(m.page, Page::Main);
    assert_eq!(m.config.locations.len(), 2);
    assert_eq!(m.config.active_location_index, 1);
    assert_eq!(m.config.locations[1].name, "Denver, Colorado");
    assert_eq!(m.config.locations[1].country_code.as_deref(), Some("us"));
    assert_eq!(m.location_names[1], "Denver, Colorado");
    assert!(m.search_results.is_empty() && m.search_input.is_empty());
    assert_eq!(eff.fetch.unwrap().lat, "39.7");
    assert!(m.update(Message::SelectLocation(5)).fetch.is_none());
}

#[test]
fn empty_search_does_nothing_and_errors_clear_results() {
    let mut m = AppModel::default();
    assert!(m.update(Message::SearchSubmit).search.is_none());
    m.update(Message::SearchResults(Err("timeout".to_string())));
    assert_eq!(m.search_error.as_deref(), Some("timeout"));
    assert!(m.search_done);
    m.update(Message::BackToMain);
    assert_eq!(m.page, Page::Setup);
    assert!(m.search_error.is_none());
}

#[test]
fn activate_switches_and_fetches() {
    let (mut m, _) = AppModel::init(config_with(3, 0));
    let eff = m.update(Message::ActivateLocation(2));
    assert_eq!(m.config.active_location_index, 2);
    assert!(eff.save_config);
    assert_eq!(eff.fetch.unwrap().lat, "2.0");
    assert!(m.update(Message::ActivateLocation(2)).fetch.is_none());
    assert!(m.update(Message::ActivateLocation(9)).fetch.is_none());
}

#[test]
fn removing_keeps_the_active_place() {
    let (mut m, _) = AppModel::init(config_with(3, 2));
    let eff = m.update(Message::RemoveLocation(0));
    assert!(eff.save_config && eff.fetch.is_none());
    assert_eq!(m.config.active_location_index, 1);
    assert_eq!(m.config.locations[1].name, "Place 2");
    assert_eq!(m.location_names, vec!["Place 1".to_string(), "Place 2".to_string()]);
    let eff = m.update(Message::RemoveLocation(1));
    assert_eq!(m.config.active_location_index, 0);
    assert_eq!(eff.fetch.unwrap().location_name, "Place 1");
    m.update(Message::RemoveLocation(0));
    assert!(m.config.locations.is_empty());
    assert_eq!(m.page, Page::Setup);
    assert!(matches!(m.fetch_state, FetchState::Idle));
    assert!(m.location_names.is_empty());
}

#[test]
fn hourly_paging_stays_within_the_forecast() {
    let (mut m, _) = AppModel::init(config_with(1, 0));
    m.update(Message::WeatherFetched(1, Ok(result("x", None, 15))));
    m.update(Message::HourlyNext);
    assert_eq!(m.hourly_offset, HOURLY_PAGE_SIZE);
    m.update(Message::HourlyNext);
    assert_eq!(m.hourly_offset, 9);
    m.update(Message::HourlyNext);
    assert_eq!(m.hourly_offset, 9);
    m.update(Message::HourlyPrev);
    assert_eq!(m.hourly_offset, 3);
    m.update(Message::HourlyPrev);
    assert_eq!(m.hourly_offset, 0);
}

#[test]
fn toggles_flip_back() {
    let (mut m, _) = AppModel::init(config_with(1, 0));
    let eff = m.update(Message::ToggleUnits);
    assert!(!m.config.use_fahrenheit && eff.save_config && eff.fetch.is_some());
    m.update(Message::ToggleUnits);
    assert!(m.config.use_fahrenheit);
    m.update(Message::ToggleDay(2));
    assert_eq!(m.expanded_day, Some(2));
    m.update(Message::ToggleDay(3));
    assert_eq!(m.expanded_day, Some(3));
    m.update(Message::ToggleDay(3));
    assert_eq!(m.expanded_day, None);
    m.update(Message::ToggleCurrentMore);
    assert!(m.current_expanded);
    m.update(Message::ToggleCurrentMore);
    assert!(!m.current_expanded);
}

#[test]
fn outside_changes_refetch_only_for_place_or_units() {
    let (mut m, _) = AppModel::init(config_with(2, 0));
    let mut same_place = config_with(2, 0);
    same_place.locations[0].cached_grid = Some(grid());
    assert!(m.update(Message::ConfigChanged(same_place)).fetch.is_none());
    assert!(m.config.locations[0].cached_grid.is_some());
    let eff = m.update(Message::ConfigChanged(config_with(2, 1)));
    assert_eq!(eff.fetch.unwrap().lat, "1.0");
    let mut metric = config_with(2, 1);
    metric.use_fahrenheit = false;
    assert!(m.update(Message::ConfigChanged(metric)).fetch.is_some());
}

#[test]
fn pages_and_links() {
    let mut m = AppModel::default();
    m.update(Message::OpenAbout);
    assert_eq!(m.page, Page::About);
    let eff = m.update(Message::OpenUrl("https://open-meteo.com".to_string()));
    assert_eq!(eff.open_url.as_deref(), Some("https://open-meteo.com"));
    let eff = m.update(Message::Ignore);
    assert!(eff.open_url.is_none() && eff.fetch.is_none() && !eff.save_config);
}

#[test]
fn generation_wraps_around() {
    let (mut m, _) = AppModel::init(config_with(1, 0));
    m.fetch_generation = u64::MAX;
    assert_eq!(m.update(Message::FetchWeather).fetch.unwrap().generation, 0);
}

#[test]
fn requests_and_identities_follow_the_active_location() {
    let mut c = config_with(2, 1);
    c.locations[1].cached_grid = Some(grid());
    let r = fetch_weather_task(&c, 7).unwrap();
    assert_eq!(r.generation, 7);
    assert_eq!((r.lat.as_str(), r.lon.as_str()), ("1.0", "-105.0"));
    assert!(r.use_fahrenheit);
    assert_eq!(r.country_code.as_deref(), Some("us"));
    assert_eq!(r.cached_grid.unwrap().grid_x, 62);
    assert_eq!(r.location_name, "Place 1");
    assert_eq!(active_identity(&c), Some(("1.0", "-105.0")));
    c.active_location_index = 5;
    assert!(fetch_weather_task(&c, 7).is_none());
    assert_eq!(active_identity(&c), None);
    assert_eq!(names_of(&c.locations), vec!["Place 0".to_string(), "Place 1".to_string()]);
}

#[test]
fn alert_rows_are_keyed_by_identifier_and_area() {
    let a = whether::types::WeatherAlert {
        id: "id-1".into(),
        event: "Heat".into(),
        headline: String::new(),
        description: String::new(),
        severity: whether::types::AlertSeverity::Severe,
        expires: 0,
        area_desc: "Area".into(),
    };
    assert_eq!(a.key(), ("id-1".to_string(), "Area".to_string()));
    let unavailable = Alerts::Unavailable("offline".into());
    assert!(unavailable.list().is_empty());
}
