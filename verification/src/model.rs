//! The applet's state and how each message changes it.
//!
//! `AppModel::update` decides; the caller performs what the returned `Effects`
//! ask for (store the settings, fetch the weather, search for a place, open a
//! link) and feeds the outcome back as a later `Message`.
use vstd::prelude::*;
use crate::config::{ConfigView, WhetherConfig, locations_view};
use crate::summary::{short_location_name, short_name_of};
use crate::text::text_eq;
use crate::types::{
    AirQuality, Alerts, CurrentObservation, FetchState, Forecast, GridInfo, GridView,
    LocationView, SavedLocation, SearchResult, WeatherAlert, WeatherResult, WeatherSource,
    copy_opt_grid, copy_opt_text, opt_grid, opt_text,
};

verus! {

/// Number of hourly columns visible at once between the arrow buttons.
pub const HOURLY_PAGE_SIZE: usize = 6;

/// Which page of the popup is shown.
#[derive(Debug, Clone, Copy, PartialEq, Eq, Structural)]
pub enum Page {
    Main,
    Setup,
    Locations,
    About,
}

/// The applet's state, apart from the windowing toolkit's handles.
pub struct AppModel {
    pub air_quality: Option<AirQuality>,
    pub current_expanded: bool,
    pub config: WhetherConfig,
    pub forecast: Option<Forecast>,
    pub observation: Option<CurrentObservation>,
    pub fetch_state: FetchState,
    pub page: Page,
    pub search_input: String,
    pub search_results: Vec<SearchResult>,
    pub searching: bool,
    pub search_error: Option<String>,
    pub search_done: bool,
    pub hourly_offset: usize,
    pub expanded_day: Option<usize>,
    pub location_names: Vec<String>,
    pub alerts: Alerts,
    pub fetch_generation: u64,
}

/// What the applet reacts to.
pub enum Message {
    FetchWeather,
    /// A fetch finished; it carries the generation it was started under.
    WeatherFetched(u64, Result<WeatherResult, String>),
    Tick,
    SearchInput(String),
    SearchSubmit,
    SearchResults(Result<Vec<SearchResult>, String>),
    SelectLocation(usize),
    ActivateLocation(usize),
    AddLocation,
    RemoveLocation(usize),
    BackToMain,
    ToggleUnits,
    HourlyPrev,
    HourlyNext,
    ToggleDay(usize),
    ToggleCurrentMore,
    ConfigChanged(WhetherConfig),
    OpenAbout,
    OpenUrl(String),
    Ignore,
}

/// A weather fetch to run for the active location.
pub struct FetchRequest {
    pub generation: u64,
    pub lat: String,
    pub lon: String,
    pub use_fahrenheit: bool,
    pub country_code: Option<String>,
    pub cached_grid: Option<GridInfo>,
    pub location_name: String,
}

/// What the caller has to do after a message.
pub struct Effects {
    /// Store the settings.
    pub save_config: bool,
    /// Fetch the weather; the result comes back as `WeatherFetched`.
    pub fetch: Option<FetchRequest>,
    /// Search for places by this text; the result comes back as `SearchResults`.
    pub search: Option<String>,
    /// Open this link.
    pub open_url: Option<String>,
    /// Record the current time as the time of the last update.
    pub mark_updated: bool,
}

// --- Views ---

#[verifier::ext_equal]
pub struct FetchView {
    pub generation: u64,
    pub lat: Seq<char>,
    pub lon: Seq<char>,
    pub use_fahrenheit: bool,
    pub country_code: Option<Seq<char>>,
    pub cached_grid: Option<GridView>,
    pub location_name: Seq<char>,
}

impl View for FetchRequest {
    type V = FetchView;

    open spec fn view(&self) -> FetchView {
        FetchView {
            generation: self.generation,
            lat: self.lat@,
            lon: self.lon@,
            use_fahrenheit: self.use_fahrenheit,
            country_code: opt_text(self.country_code),
            cached_grid: opt_grid(self.cached_grid),
            location_name: self.location_name@,
        }
    }
}

pub open spec fn opt_fetch(o: Option<FetchRequest>) -> Option<FetchView> {
    match o {
        Some(r) => Some(r@),
        None => None,
    }
}

#[verifier::ext_equal]
pub struct EffectsView {
    pub save_config: bool,
    pub fetch: Option<FetchView>,
    pub search: Option<Seq<char>>,
    pub open_url: Option<Seq<char>>,
    pub mark_updated: bool,
}

impl View for Effects {
    type V = EffectsView;

    open spec fn view(&self) -> EffectsView {
        EffectsView {
            save_config: self.save_config,
            fetch: opt_fetch(self.fetch),
            search: opt_text(self.search),
            open_url: opt_text(self.open_url),
            mark_updated: self.mark_updated,
        }
    }
}

#[verifier::ext_equal]
pub enum AlertsView {
    Local(Seq<WeatherAlert>),
    National(Seq<WeatherAlert>),
    Unavailable(Seq<char>),
}

pub open spec fn alerts_view(a: Alerts) -> AlertsView {
    match a {
        Alerts::Local(v) => AlertsView::Local(v@),
        Alerts::National(v) => AlertsView::National(v@),
        Alerts::Unavailable(e) => AlertsView::Unavailable(e@),
    }
}

/// The texts of a sequence of strings.
pub open spec fn texts(v: Seq<String>) -> Seq<Seq<char>> {
    v.map_values(|s: String| s@)
}

#[verifier::ext_equal]
pub struct ModelView {
    pub air_quality: Option<AirQuality>,
    pub current_expanded: bool,
    pub config: ConfigView,
    pub forecast: Option<Forecast>,
    pub observation: Option<CurrentObservation>,
    pub fetch_state: FetchState,
    pub page: Page,
    pub search_input: Seq<char>,
    pub search_results: Seq<SearchResult>,
    pub searching: bool,
    pub search_error: Option<Seq<char>>,
    pub search_done: bool,
    pub hourly_offset: usize,
    pub expanded_day: Option<usize>,
    pub location_names: Seq<Seq<char>>,
    pub alerts: AlertsView,
    pub fetch_generation: u64,
}

impl View for AppModel {
    type V = ModelView;

    open spec fn view(&self) -> ModelView {
        ModelView {
            air_quality: self.air_quality,
            current_expanded: self.current_expanded,
            config: self.config@,
            forecast: self.forecast,
            observation: self.observation,
            fetch_state: self.fetch_state,
            page: self.page,
            search_input: self.search_input@,
            search_results: self.search_results@,
            searching: self.searching,
            search_error: opt_text(self.search_error),
            search_done: self.search_done,
            hourly_offset: self.hourly_offset,
            expanded_day: self.expanded_day,
            location_names: texts(self.location_names@),
            alerts: alerts_view(self.alerts),
            fetch_generation: self.fetch_generation,
        }
    }
}

// --- The transition, as a specification ---

/// No effect at all.
pub open spec fn quiet() -> EffectsView {
    EffectsView { save_config: false, fetch: None, search: None, open_url: None, mark_updated: false }
}

/// The generation after `g`, wrapping at the top of the range.
pub open spec fn next_generation(g: u64) -> u64 {
    if g == u64::MAX {
        0
    } else {
        (g + 1) as u64
    }
}

/// Whether the settings name an active location.
pub open spec fn has_active(c: ConfigView) -> bool {
    c.active_location_index < c.locations.len()
}

/// The fetch for the active location under generation `g`, if there is one.
pub open spec fn fetch_for(c: ConfigView, g: u64) -> Option<FetchView> {
    if has_active(c) {
        let l = c.locations[c.active_location_index as int];
        Some(
            FetchView {
                generation: g,
                lat: l.lat,
                lon: l.lon,
                use_fahrenheit: c.use_fahrenheit,
                country_code: l.country_code,
                cached_grid: l.cached_grid,
                location_name: l.name,
            },
        )
    } else {
        None
    }
}

/// The state after a fetch is started: a new generation, marked loading.
pub open spec fn started(v: ModelView) -> ModelView {
    ModelView { fetch_generation: next_generation(v.fetch_generation), fetch_state: FetchState::Loading, ..v }
}

/// Start a fetch from `v`, also storing the settings when `save` holds.
pub open spec fn with_fetch(v: ModelView, save: bool) -> (ModelView, EffectsView) {
    let s = started(v);
    (s, EffectsView { save_config: save, fetch: fetch_for(s.config, s.fetch_generation), ..quiet() })
}

/// Store the settings, nothing else.
pub open spec fn save_only() -> EffectsView {
    EffectsView { save_config: true, ..quiet() }
}

/// The names of the saved locations.
pub open spec fn names_in(c: ConfigView) -> Seq<Seq<char>> {
    c.locations.map_values(|l: LocationView| l.name)
}

/// `v` with the list of names brought in line with the saved locations.
pub open spec fn names_synced(v: ModelView) -> ModelView {
    ModelView { location_names: names_in(v.config), ..v }
}

/// No alert rows.
pub open spec fn no_alerts() -> AlertsView {
    AlertsView::Local(Seq::empty())
}

/// A saved location after a fetch for it succeeded: it takes the grid the
/// fetch found, and the fetched name when it had none.
pub open spec fn refreshed(l: LocationView, res: WeatherResult) -> LocationView {
    LocationView {
        cached_grid: match res.cached_grid {
            Some(g) => Some(g@),
            None => l.cached_grid,
        },
        name: if l.name.len() == 0 && res.forecast.location_name@.len() > 0 {
            res.forecast.location_name@
        } else {
            l.name
        },
        ..l
    }
}

/// The location a search result becomes when it is picked.
pub open spec fn location_from(r: SearchResult) -> LocationView {
    LocationView {
        name: short_name_of(r.display_name@),
        lat: r.lat@,
        lon: r.lon@,
        cached_grid: None,
        source: WeatherSource::Nws,
        country_code: match r.address {
            Some(a) => opt_text(a.country_code),
            None => None,
        },
    }
}

/// Coordinates of the active location, which decide what weather is shown.
pub open spec fn identity_of(c: ConfigView) -> Option<(Seq<char>, Seq<char>)> {
    if has_active(c) {
        let l = c.locations[c.active_location_index as int];
        Some((l.lat, l.lon))
    } else {
        None
    }
}

/// The hourly offset after a step back.
pub open spec fn offset_back(o: usize) -> usize {
    if o >= HOURLY_PAGE_SIZE {
        (o - HOURLY_PAGE_SIZE) as usize
    } else {
        0
    }
}

/// The largest hourly offset for the shown forecast.
pub open spec fn max_offset(f: Option<Forecast>) -> int {
    let total = match f {
        Some(f) => f.hourly_periods@.len() as int,
        None => 0,
    };
    if total >= HOURLY_PAGE_SIZE {
        total - HOURLY_PAGE_SIZE
    } else {
        0
    }
}

/// The hourly offset after a step forward.
pub open spec fn offset_forward(o: usize, f: Option<Forecast>) -> usize {
    if o + HOURLY_PAGE_SIZE <= max_offset(f) {
        (o + HOURLY_PAGE_SIZE) as usize
    } else {
        max_offset(f) as usize
    }
}

/// The state after a message, and what the caller has to do.
pub open spec fn step(v: ModelView, m: Message) -> (ModelView, EffectsView) {
    let c = v.config;
    match m {
        Message::FetchWeather => with_fetch(v, false),
        Message::WeatherFetched(g, r) => {
            if g != v.fetch_generation {
                (v, quiet())
            } else {
                match r {
                    Ok(res) => {
                        let i = c.active_location_index as int;
                        let locs = if has_active(c) {
                            c.locations.update(i, refreshed(c.locations[i], res))
                        } else {
                            c.locations
                        };
                        let c2 = ConfigView { locations: locs, ..c };
                        (
                            names_synced(
                                ModelView {
                                    fetch_state: FetchState::Loaded,
                                    config: c2,
                                    alerts: alerts_view(res.alerts),
                                    observation: res.observation,
                                    air_quality: res.air_quality,
                                    hourly_offset: 0,
                                    expanded_day: None,
                                    forecast: Some(res.forecast),
                                    ..v
                                },
                            ),
                            EffectsView { save_config: c2 != c, mark_updated: true, ..quiet() },
                        )
                    },
                    Err(e) => (ModelView { fetch_state: FetchState::Error(e), ..v }, quiet()),
                }
            }
        },
        Message::Tick => {
            if has_active(c) && !(v.fetch_state is Loading) {
                with_fetch(v, false)
            } else {
                (v, quiet())
            }
        },
        Message::SearchInput(input) => (
            ModelView {
                search_results: if input@.len() == 0 {
                    Seq::empty()
                } else {
                    v.search_results
                },
                search_input: input@,
                search_done: false,
                ..v
            },
            quiet(),
        ),
        Message::SearchSubmit => {
            if v.search_input.len() > 0 {
                (
                    ModelView { searching: true, search_error: None, ..v },
                    EffectsView { search: Some(v.search_input), ..quiet() },
                )
            } else {
                (v, quiet())
            }
        },
        Message::SearchResults(Ok(rs)) => (
            ModelView {
                searching: false,
                search_error: None,
                search_done: true,
                search_results: rs@,
                ..v
            },
            quiet(),
        ),
        Message::SearchResults(Err(e)) => (
            ModelView {
                searching: false,
                search_done: true,
                search_results: Seq::empty(),
                search_error: Some(e@),
                ..v
            },
            quiet(),
        ),
        Message::SelectLocation(i) => {
            if i < v.search_results.len() {
                let locs = c.locations.push(location_from(v.search_results[i as int]));
                let c2 = ConfigView { locations: locs, active_location_index: (locs.len() - 1) as usize, ..c };
                with_fetch(
                    names_synced(
                        ModelView {
                            config: c2,
                            page: Page::Main,
                            search_results: Seq::empty(),
                            search_input: Seq::empty(),
                            search_done: false,
                            current_expanded: false,
                            ..v
                        },
                    ),
                    true,
                )
            } else {
                (v, quiet())
            }
        },
        Message::ActivateLocation(idx) => {
            if idx < c.locations.len() && idx != c.active_location_index {
                with_fetch(
                    names_synced(
                        ModelView {
                            config: ConfigView { active_location_index: idx, ..c },
                            page: Page::Main,
                            forecast: None,
                            observation: None,
                            air_quality: None,
                            current_expanded: false,
                            alerts: no_alerts(),
                            ..v
                        },
                    ),
                    true,
                )
            } else {
                (v, quiet())
            }
        },
        Message::AddLocation => (
            ModelView {
                page: Page::Locations,
                search_results: Seq::empty(),
                search_input: Seq::empty(),
                current_expanded: false,
                search_done: false,
                search_error: None,
                ..v
            },
            quiet(),
        ),
        Message::RemoveLocation(idx) => {
            if idx < c.locations.len() {
                let locs = c.locations.remove(idx as int);
                if locs.len() == 0 {
                    (
                        names_synced(
                            ModelView {
                                config: ConfigView { locations: locs, active_location_index: 0, ..c },
                                forecast: None,
                                observation: None,
                                alerts: no_alerts(),
                                fetch_state: FetchState::Idle,
                                page: Page::Setup,
                                ..v
                            },
                        ),
                        save_only(),
                    )
                } else if idx == c.active_location_index {
                    with_fetch(
                        names_synced(
                            ModelView {
                                config: ConfigView { locations: locs, active_location_index: 0, ..c },
                                forecast: None,
                                observation: None,
                                air_quality: None,
                                current_expanded: false,
                                alerts: no_alerts(),
                                ..v
                            },
                        ),
                        true,
                    )
                } else if idx < c.active_location_index {
                    (
                        names_synced(
                            ModelView {
                                config: ConfigView {
                                    locations: locs,
                                    active_location_index: (c.active_location_index - 1) as usize,
                                    ..c
                                },
                                ..v
                            },
                        ),
                        save_only(),
                    )
                } else {
                    (
                        names_synced(ModelView { config: ConfigView { locations: locs, ..c }, ..v }),
                        save_only(),
                    )
                }
            } else {
                (v, quiet())
            }
        },
        Message::BackToMain => (
            ModelView {
                page: if c.locations.len() == 0 {
                    Page::Setup
                } else {
                    Page::Main
                },
                search_results: Seq::empty(),
                search_input: Seq::empty(),
                search_done: false,
                search_error: None,
                ..v
            },
            quiet(),
        ),
        Message::ToggleUnits => {
            let v2 = ModelView { config: ConfigView { use_fahrenheit: !c.use_fahrenheit, ..c }, ..v };
            if has_active(c) {
                with_fetch(v2, true)
            } else {
                (v2, save_only())
            }
        },
        Message::HourlyPrev => (ModelView { hourly_offset: offset_back(v.hourly_offset), ..v }, quiet()),
        Message::HourlyNext => (
            ModelView { hourly_offset: offset_forward(v.hourly_offset, v.forecast), ..v },
            quiet(),
        ),
        Message::ToggleDay(i) => (
            ModelView {
                expanded_day: if v.expanded_day == Some(i) {
                    None
                } else {
                    Some(i)
                },
                ..v
            },
            quiet(),
        ),
        Message::ToggleCurrentMore => (
            ModelView { current_expanded: !v.current_expanded, ..v },
            quiet(),
        ),
        Message::ConfigChanged(nc) => {
            let changed = identity_of(c) != identity_of(nc@) || c.use_fahrenheit
                != nc.use_fahrenheit;
            let v2 = ModelView { config: nc@, ..v };
            if changed && has_active(nc@) {
                with_fetch(v2, false)
            } else {
                (v2, quiet())
            }
        },
        Message::OpenAbout => (ModelView { page: Page::About, ..v }, quiet()),
        Message::OpenUrl(url) => (v, EffectsView { open_url: Some(url@), ..quiet() }),
        Message::Ignore => (v, quiet()),
    }
}

/// The state of a fresh applet with no settings loaded.
pub open spec fn initial_view() -> ModelView {
    ModelView {
        air_quality: None,
        current_expanded: false,
        config: ConfigView {
            use_fahrenheit: true,
            locations: Seq::empty(),
            active_location_index: 0,
            refresh_interval_minutes: 30,
        },
        forecast: None,
        observation: None,
        fetch_state: FetchState::Idle,
        page: Page::Setup,
        search_input: Seq::empty(),
        search_results: Seq::empty(),
        searching: false,
        search_error: None,
        search_done: false,
        hourly_offset: 0,
        expanded_day: None,
        location_names: Seq::empty(),
        alerts: no_alerts(),
        fetch_generation: 0,
    }
}

/// The applet right after it loaded `c`, and the fetch it starts when a location is active.
pub open spec fn init_step(c: ConfigView) -> (ModelView, EffectsView) {
    let v = names_synced(
        ModelView {
            config: c,
            page: if c.locations.len() == 0 {
                Page::Setup
            } else {
                Page::Main
            },
            ..initial_view()
        },
    );
    if has_active(c) {
        with_fetch(v, false)
    } else {
        (v, quiet())
    }
}

// --- Implementation ---

/// The names of the saved locations, copied.
pub fn names_of(locs: &Vec<SavedLocation>) -> (r: Vec<String>)
    ensures
        texts(r@) == locations_view(locs@).map_values(|l: LocationView| l.name),
{
    let mut r: Vec<String> = Vec::new();
    let mut i: usize = 0;
    while i < locs.len()
        invariant
            i <= locs@.len(),
            r@.len() == i,
            forall|j: int| 0 <= j < i ==> #[trigger] r@[j]@ == locs@[j].name@,
        decreases locs@.len() - i,
    {
        r.push(locs[i].name.clone());
        i = i + 1;
    }
    assert(texts(r@) =~= locations_view(locs@).map_values(|l: LocationView| l.name));
    r
}

/// The fetch for the active location under `generation`, if a location is active.
pub fn fetch_weather_task(config: &WhetherConfig, generation: u64) -> (r: Option<FetchRequest>)
    ensures
        opt_fetch(r) == fetch_for(config@, generation),
{
    match config.active_location() {
        Some(loc) => {
            assert(config@.locations[config.active_location_index as int] == loc@);
            Some(
                FetchRequest {
                    generation,
                    lat: loc.lat.clone(),
                    lon: loc.lon.clone(),
                    use_fahrenheit: config.use_fahrenheit,
                    country_code: copy_opt_text(&loc.country_code),
                    cached_grid: copy_opt_grid(&loc.cached_grid),
                    location_name: loc.name.clone(),
                },
            )
        },
        None => None,
    }
}

/// The coordinates of the active location, if one is active.
pub fn active_identity(cfg: &WhetherConfig) -> (r: Option<(&str, &str)>)
    ensures
        match r {
            Some(p) => identity_of(cfg@) == Some((p.0@, p.1@)),
            None => identity_of(cfg@) is None,
        },
{
    match cfg.active_location() {
        Some(l) => {
            assert(cfg@.locations[cfg.active_location_index as int] == l@);
            Some((l.lat.as_str(), l.lon.as_str()))
        },
        None => None,
    }
}

/// Whether two optional coordinate pairs are the same.
fn same_identity(a: Option<(&str, &str)>, b: Option<(&str, &str)>) -> (r: bool)
    ensures
        r == (match (a, b) {
            (Some(x), Some(y)) => x.0@ == y.0@ && x.1@ == y.1@,
            (None, None) => true,
            _ => false,
        }),
{
    match (a, b) {
        (Some(x), Some(y)) => text_eq(x.0, y.0) && text_eq(x.1, y.1),
        (None, None) => true,
        _ => false,
    }
}

/// No effect at all.
fn no_effects() -> (r: Effects)
    ensures
        r@ == quiet(),
{
    Effects { save_config: false, fetch: None, search: None, open_url: None, mark_updated: false }
}

impl Default for AppModel {
    fn default() -> (r: Self)
        ensures
            r@ == initial_view(),
    {
        let r = AppModel {
            air_quality: None,
            current_expanded: false,
            config: WhetherConfig::default(),
            forecast: None,
            observation: None,
            fetch_state: FetchState::Idle,
            page: Page::Setup,
            search_input: String::new(),
            search_results: Vec::new(),
            searching: false,
            search_error: None,
            search_done: false,
            hourly_offset: 0,
            expanded_day: None,
            location_names: Vec::new(),
            alerts: Alerts::Local(Vec::new()),
            fetch_generation: 0,
        };
        assert(r.config@ =~= initial_view().config);
        assert(r@ =~= initial_view());
        r
    }
}

impl AppModel {
    /// Bring the list of names in line with the saved locations.
    fn sync_names(&mut self)
        ensures
            final(self)@ == names_synced(old(self)@),
    {
        self.location_names = names_of(&self.config.locations);
        assert(final(self)@ =~= names_synced(old(self)@));
    }

    /// Bump the generation, mark loading, and ask for a fetch of the active location.
    fn start_fetch(&mut self) -> (r: Option<FetchRequest>)
        ensures
            final(self)@ == started(old(self)@),
            opt_fetch(r) == fetch_for(final(self)@.config, final(self)@.fetch_generation),
    {
        self.fetch_generation = self.fetch_generation.wrapping_add(1);
        self.fetch_state = FetchState::Loading;
        assert(final(self)@ =~= started(old(self)@));
        fetch_weather_task(&self.config, self.fetch_generation)
    }

    /// The applet right after loading `config`.
    pub fn init(config: WhetherConfig) -> (r: (AppModel, Effects))
        ensures
            (r.0@, r.1@) == init_step(config@),
    {
        let page = if config.locations.len() == 0 {
            Page::Setup
        } else {
            Page::Main
        };
        let location_names = names_of(&config.locations);
        let mut app = AppModel::default();
        app.config = config;
        app.page = page;
        app.location_names = location_names;
        let ghost v = app@;
        assert(v =~= names_synced(
            ModelView {
                config: config@,
                page: if config@.locations.len() == 0 {
                    Page::Setup
                } else {
                    Page::Main
                },
                ..initial_view()
            },
        ));
        let has = app.config.active_location().is_some();
        let mut eff = no_effects();
        if has {
            eff.fetch = app.start_fetch();
        }
        (app, eff)
    }

    /// Take in a fetch result.
    fn on_weather_fetched(&mut self, generation: u64, result: Result<WeatherResult, String>) -> (eff: Effects)
        ensures
            (final(self)@, eff@) == step(old(self)@, Message::WeatherFetched(generation, result)),
    {
        if generation != self.fetch_generation {
            return no_effects();
        }
        match result {
            Ok(res) => {
                let ghost v = self@;
                let ghost res0 = res;
                self.fetch_state = FetchState::Loaded;
                let old_config = self.config.duplicate();
                let idx = self.config.active_location_index;
                let WeatherResult { forecast, cached_grid, alerts, observation, air_quality } = res;
                if idx < self.config.locations.len() {
                    let mut loc = self.config.locations[idx].duplicate();
                    match cached_grid {
                        Some(grid) => {
                            loc.cached_grid = Some(grid);
                        },
                        None => {},
                    }
                    if loc.name.as_str().is_empty() && !forecast.location_name.as_str().is_empty() {
                        loc.name = forecast.location_name.clone();
                    }
                    assert(loc@ == refreshed(v.config.locations[idx as int], res0));
                    self.config.locations.set(idx, loc);
                    assert(self.config@.locations =~= v.config.locations.update(
                        idx as int,
                        refreshed(v.config.locations[idx as int], res0),
                    ));
                }
                self.sync_names();
                self.alerts = alerts;
                self.observation = observation;
                self.air_quality = air_quality;
                self.hourly_offset = 0;
                self.expanded_day = None;
                self.forecast = Some(forecast);
                let changed = !self.config.same_as(&old_config);
                let mut eff = no_effects();
                eff.save_config = changed;
                eff.mark_updated = true;
                assert(self@ =~= step(v, Message::WeatherFetched(generation, Ok(res0))).0);
                eff
            },
            Err(e) => {
                self.fetch_state = FetchState::Error(e);
                no_effects()
            },
        }
    }

    /// Pick a search result as a new saved location and show it.
    fn on_select_location(&mut self, i: usize) -> (eff: Effects)
        ensures
            (final(self)@, eff@) == step(old(self)@, Message::SelectLocation(i)),
    {
        if i >= self.search_results.len() {
            return no_effects();
        }
        let ghost v = self@;
        let result = &self.search_results[i];
        let country_code = match &result.address {
            Some(a) => copy_opt_text(&a.country_code),
            None => None,
        };
        let location = SavedLocation {
            name: short_location_name(result.display_name.as_str()),
            lat: result.lat.clone(),
            lon: result.lon.clone(),
            cached_grid: None,
            source: WeatherSource::Nws,
            country_code,
        };
        assert(location@ == location_from(v.search_results[i as int]));
        self.config.locations.push(location);
        self.config.active_location_index = self.config.locations.len() - 1;
        assert(self.config@.locations =~= v.config.locations.push(
            location_from(v.search_results[i as int]),
        ));
        self.sync_names();
        self.page = Page::Main;
        self.search_results.clear();
        self.search_input = String::new();
        self.search_done = false;
        self.current_expanded = false;
        let mut eff = no_effects();
        eff.save_config = true;
        eff.fetch = self.start_fetch();
        eff
    }

    /// Show another saved location.
    fn on_activate_location(&mut self, idx: usize) -> (eff: Effects)
        ensures
            (final(self)@, eff@) == step(old(self)@, Message::ActivateLocation(idx)),
    {
        if !(idx < self.config.locations.len() && idx != self.config.active_location_index) {
            return no_effects();
        }
        self.config.active_location_index = idx;
        self.sync_names();
        self.page = Page::Main;
        self.forecast = None;
        self.observation = None;
        self.air_quality = None;
        self.current_expanded = false;
        self.alerts = Alerts::Local(Vec::new());
        let mut eff = no_effects();
        eff.save_config = true;
        eff.fetch = self.start_fetch();
        eff
    }

    /// Forget a saved location.
    fn on_remove_location(&mut self, idx: usize) -> (eff: Effects)
        ensures
            (final(self)@, eff@) == step(old(self)@, Message::RemoveLocation(idx)),
    {
        if idx >= self.config.locations.len() {
            return no_effects();
        }
        let ghost v = self@;
        self.config.locations.remove(idx);
        assert(self.config@.locations =~= v.config.locations.remove(idx as int));
        let mut eff = no_effects();
        eff.save_config = true;
        if self.config.locations.len() == 0 {
            self.config.active_location_index = 0;
            self.forecast = None;
            self.observation = None;
            self.alerts = Alerts::Local(Vec::new());
            self.fetch_state = FetchState::Idle;
            self.page = Page::Setup;
        } else if idx == self.config.active_location_index {
            self.config.active_location_index = 0;
            self.forecast = None;
            self.observation = None;
            self.air_quality = None;
            self.current_expanded = false;
            self.alerts = Alerts::Local(Vec::new());
            self.sync_names();
            eff.fetch = self.start_fetch();
            return eff;
        } else if idx < self.config.active_location_index {
            self.config.active_location_index = self.config.active_location_index - 1;
        }
        self.sync_names();
        eff
    }

    /// Adopt settings changed from outside, and refetch when the shown place or units changed.
    fn on_config_changed(&mut self, new_config: WhetherConfig) -> (eff: Effects)
        ensures
            (final(self)@, eff@) == step(old(self)@, Message::ConfigChanged(new_config)),
    {
        let location_changed = !same_identity(
            active_identity(&self.config),
            active_identity(&new_config),
        );
        let units_changed = self.config.use_fahrenheit != new_config.use_fahrenheit;
        self.config = new_config;
        if (location_changed || units_changed) && self.config.active_location().is_some() {
            let mut eff = no_effects();
            eff.fetch = self.start_fetch();
            eff
        } else {
            no_effects()
        }
    }

    /// React to a message: change the state and say what the caller has to do.
    pub fn update(&mut self, message: Message) -> (eff: Effects)
        requires
            message is HourlyNext ==> old(self).hourly_offset + HOURLY_PAGE_SIZE <= usize::MAX,
        ensures
            (final(self)@, eff@) == step(old(self)@, message),
    {
        match message {
            Message::FetchWeather => {
                let mut eff = no_effects();
                eff.fetch = self.start_fetch();
                eff
            },
            Message::WeatherFetched(generation, result) => self.on_weather_fetched(generation, result),
            Message::Tick => {
                let loading = match self.fetch_state {
                    FetchState::Loading => true,
                    _ => false,
                };
                if self.config.active_location().is_some() && !loading {
                    let mut eff = no_effects();
                    eff.fetch = self.start_fetch();
                    eff
                } else {
                    no_effects()
                }
            },
            Message::SearchInput(input) => {
                if input.as_str().is_empty() {
                    self.search_results.clear();
                }
                self.search_input = input;
                self.search_done = false;
                no_effects()
            },
            Message::SearchSubmit => {
                if !self.search_input.as_str().is_empty() {
                    self.searching = true;
                    self.search_error = None;
                    let mut eff = no_effects();
                    eff.search = Some(self.search_input.clone());
                    eff
                } else {
                    no_effects()
                }
            },
            Message::SearchResults(Ok(results)) => {
                self.searching = false;
                self.search_error = None;
                self.search_done = true;
                self.search_results = results;
                no_effects()
            },
            Message::SearchResults(Err(e)) => {
                self.searching = false;
                self.search_done = true;
                self.search_results.clear();
                self.search_error = Some(e);
                no_effects()
            },
            Message::SelectLocation(i) => self.on_select_location(i),
            Message::ActivateLocation(idx) => self.on_activate_location(idx),
            Message::AddLocation => {
                self.page = Page::Locations;
                self.search_results.clear();
                self.search_input = String::new();
                self.current_expanded = false;
                self.search_done = false;
                self.search_error = None;
                no_effects()
            },
            Message::RemoveLocation(idx) => self.on_remove_location(idx),
            Message::HourlyPrev => {
                self.hourly_offset = self.hourly_offset.saturating_sub(HOURLY_PAGE_SIZE);
                no_effects()
            },
            Message::HourlyNext => {
                let total = match &self.forecast {
                    Some(f) => f.hourly_periods.len(),
                    None => 0,
                };
                let max_offset = total.saturating_sub(HOURLY_PAGE_SIZE);
                let next = self.hourly_offset + HOURLY_PAGE_SIZE;
                self.hourly_offset = if next < max_offset {
                    next
                } else {
                    max_offset
                };
                no_effects()
            },
            Message::ToggleCurrentMore => {
                self.current_expanded = !self.current_expanded;
                no_effects()
            },
            Message::ToggleDay(idx) => {
                self.expanded_day = match self.expanded_day {
                    Some(d) if d == idx => None,
                    _ => Some(idx),
                };
                no_effects()
            },
            Message::ToggleUnits => {
                self.config.use_fahrenheit = !self.config.use_fahrenheit;
                let mut eff = no_effects();
                eff.save_config = true;
                if self.config.active_location().is_some() {
                    eff.fetch = self.start_fetch();
                }
                eff
            },
            Message::BackToMain => {
                self.page = if self.config.locations.len() == 0 {
                    Page::Setup
                } else {
                    Page::Main
                };
                self.search_results.clear();
                self.search_input = String::new();
                self.search_done = false;
                self.search_error = None;
                no_effects()
            },
            Message::ConfigChanged(new_config) => self.on_config_changed(new_config),
            Message::OpenAbout => {
                self.page = Page::About;
                no_effects()
            },
            Message::OpenUrl(url) => {
                let mut eff = no_effects();
                eff.open_url = Some(url);
                eff
            },
            Message::Ignore => no_effects(),
        }
    }
}

} // verus!
