//! Properties that hold of every run of the applet's state machine.
use vstd::prelude::*;
use crate::config::ConfigView;
use crate::model::Page;
use crate::types::{FetchState, SearchResult, WeatherResult};
use crate::model::{
    HOURLY_PAGE_SIZE, Message, ModelView, fetch_for, has_active, identity_of, location_from, max_offset, names_in,
    next_generation, quiet, step,
};

verus! {

/// The active index names a location whenever there is one, and is 0 when there is none.
pub open spec fn index_in_range(c: ConfigView) -> bool {
    &&& c.locations.len() == 0 ==> c.active_location_index == 0
    &&& c.locations.len() > 0 ==> c.active_location_index < c.locations.len()
}

/// The list of names shown matches the saved locations.
pub open spec fn names_match(v: ModelView) -> bool {
    v.location_names == names_in(v.config)
}

/// A fetch result that does not carry the current generation changes nothing
/// and asks for nothing: a superseded fetch never overwrites newer data.
pub proof fn stale_results_are_ignored(v: ModelView, g: u64, r: Result<crate::types::WeatherResult, String>)
    requires
        g != v.fetch_generation,
    ensures
        step(v, Message::WeatherFetched(g, r)) == (v, quiet()),
{
}

/// Every fetch the applet asks for carries the generation the state moves to,
/// which is the one after the previous generation, and the state is then loading.
pub proof fn fetches_carry_the_new_generation(v: ModelView, m: Message)
    ensures
        ({
            let (s, e) = step(v, m);
            e.fetch matches Some(f) ==> {
                &&& f.generation == s.fetch_generation
                &&& s.fetch_generation == next_generation(v.fetch_generation)
                &&& s.fetch_state is Loading
                &&& fetch_for(s.config, s.fetch_generation) == Some(f)
            }
        }),
{
}

/// A result that answers the latest fetch is taken in: the state is then loaded.
pub proof fn latest_result_is_taken(v: ModelView, m: Message, res: crate::types::WeatherResult)
    requires
        step(v, m).1.fetch is Some,
    ensures
        step(step(v, m).0, Message::WeatherFetched(step(v, m).1.fetch->0.generation, Ok(res))).0.fetch_state
            is Loaded,
{
}

/// Every message but an outside settings change keeps the active index in range.
pub proof fn index_stays_in_range(v: ModelView, m: Message)
    requires
        index_in_range(v.config),
        !(m is ConfigChanged),
    ensures
        index_in_range(step(v, m).0.config),
{
}

/// An outside settings change leaves exactly the incoming settings in place.
pub proof fn outside_change_adopts_settings(v: ModelView, c: crate::config::WhetherConfig)
    ensures
        step(v, Message::ConfigChanged(c)).0.config == c@,
{
}

/// Every message but an outside settings change keeps the list of names in line
/// with the saved locations.
pub proof fn names_stay_in_line(v: ModelView, m: Message)
    requires
        names_match(v),
        !(m is ConfigChanged),
    ensures
        names_match(step(v, m).0),
{
    let (s, e) = step(v, m);
    match m {
        Message::WeatherFetched(g, r) => {
            if g == v.fetch_generation && r is Ok {
                assert(names_match(s));
            }
        },
        _ => {},
    }
}

/// Every message but an outside settings change keeps the location list
/// consistent: the names shown mirror the saved locations, and the active index
/// names one of them (or is 0 when there is none).
pub proof fn location_list_stays_consistent(v: ModelView, m: Message)
    requires
        names_match(v),
        index_in_range(v.config),
        !(m is ConfigChanged),
    ensures
        names_match(step(v, m).0),
        index_in_range(step(v, m).0.config),
{
    names_stay_in_line(v, m);
    index_stays_in_range(v, m);
}

/// Switching units twice restores the units, and the rest of the settings.
pub proof fn units_toggle_twice_restores(v: ModelView)
    ensures
        step(step(v, Message::ToggleUnits).0, Message::ToggleUnits).0.config =~= v.config,
{
}

/// Switching the "more" panel twice restores the whole state.
pub proof fn more_toggle_twice_restores(v: ModelView)
    ensures
        step(step(v, Message::ToggleCurrentMore).0, Message::ToggleCurrentMore).0 =~= v,
{
}

/// Expanding a day and then the same day again restores the expanded day, when
/// no other day was expanded to begin with.
pub proof fn day_toggle_twice_restores(v: ModelView, i: usize)
    requires
        v.expanded_day is None || v.expanded_day == Some(i),
    ensures
        step(step(v, Message::ToggleDay(i)).0, Message::ToggleDay(i)).0 =~= v,
{
}

/// The hourly offset never passes the last full page after a step forward,
/// and never grows after a step back.
pub proof fn hourly_paging_stays_in_bounds(v: ModelView)
    ensures
        step(v, Message::HourlyNext).0.hourly_offset <= max_offset(v.forecast),
        step(v, Message::HourlyPrev).0.hourly_offset <= v.hourly_offset,
        step(v, Message::HourlyPrev).0.hourly_offset == 0 || step(v, Message::HourlyPrev).0.hourly_offset
            + HOURLY_PAGE_SIZE == v.hourly_offset,
{
}

/// Removing a location other than the active one keeps the same location active
/// and starts no fetch.
pub proof fn removing_another_location_keeps_active(v: ModelView, idx: usize)
    requires
        index_in_range(v.config),
        idx < v.config.locations.len(),
        idx != v.config.active_location_index,
    ensures
        ({
            let s = step(v, Message::RemoveLocation(idx)).0;
            &&& has_active(s.config)
            &&& s.config.locations[s.config.active_location_index as int]
                == v.config.locations[v.config.active_location_index as int]
            &&& step(v, Message::RemoveLocation(idx)).1.fetch is None
        }),
{
    let s = step(v, Message::RemoveLocation(idx)).0;
    let a = v.config.active_location_index as int;
    if idx < a {
        assert(s.config.locations[a - 1] == v.config.locations[a]);
    } else {
        assert(s.config.locations[a] == v.config.locations[a]);
    }
}

/// Activating another saved location shows it and fetches its weather.
pub proof fn activating_fetches_that_location(v: ModelView, idx: usize)
    requires
        idx < v.config.locations.len(),
        idx != v.config.active_location_index,
    ensures
        ({
            let (s, e) = step(v, Message::ActivateLocation(idx));
            &&& s.config.active_location_index == idx
            &&& s.config.locations == v.config.locations
            &&& e.fetch matches Some(f) && f.lat == v.config.locations[idx as int].lat && f.lon
                == v.config.locations[idx as int].lon
            &&& e.save_config
        }),
{
}

/// Picking a search result adds it as the last saved location, makes it active
/// and fetches its weather.
pub proof fn picking_a_result_adds_and_shows_it(v: ModelView, i: usize)
    requires
        i < v.search_results.len(),
        v.config.locations.len() < usize::MAX,
    ensures
        ({
            let (s, e) = step(v, Message::SelectLocation(i));
            let l = location_from(v.search_results[i as int]);
            &&& s.config.locations == v.config.locations.push(l)
            &&& s.config.active_location_index == v.config.locations.len()
            &&& e.fetch matches Some(f) && f.lat == l.lat && f.lon == l.lon
        }),
{
}


/// Settings that change only in what was filled in after a fetch (a cached
/// grid, a name), with the same place and units, start no fetch: storing a
/// back-filled grid does not loop back into another fetch.
pub proof fn backfilled_settings_do_not_refetch(v: ModelView, c: crate::config::WhetherConfig)
    requires
        identity_of(c@) == identity_of(v.config),
        c.use_fahrenheit == v.config.use_fahrenheit,
    ensures
        step(v, Message::ConfigChanged(c)).1 == quiet(),
{
}

/// A refresh tick while a fetch is under way changes nothing.
pub proof fn tick_while_loading_waits(v: ModelView)
    requires
        v.fetch_state is Loading,
    ensures
        step(v, Message::Tick) == (v, quiet()),
{
}


/// Every fetch the applet asks for is for the active location of the settings
/// it leaves in place, in those settings' units.
pub proof fn fetches_follow_the_settings(v: ModelView, m: Message)
    ensures
        ({
            let (s, e) = step(v, m);
            e.fetch matches Some(f) ==> {
                &&& s.config.active_location_index < s.config.locations.len()
                &&& f.use_fahrenheit == s.config.use_fahrenheit
                &&& f.lat == s.config.locations[s.config.active_location_index as int].lat
                &&& f.lon == s.config.locations[s.config.active_location_index as int].lon
                &&& f.location_name == s.config.locations[s.config.active_location_index as int].name
                &&& f.country_code == s.config.locations[s.config.active_location_index as int].country_code
                &&& f.cached_grid == s.config.locations[s.config.active_location_index as int].cached_grid
            }
        }),
{
}

/// Switching units flips them, stores the settings, and with an active
/// location fetches that location's weather again in the new units.
pub proof fn switching_units_refetches_in_the_new_units(v: ModelView)
    ensures
        step(v, Message::ToggleUnits).0.config.use_fahrenheit == !v.config.use_fahrenheit,
        step(v, Message::ToggleUnits).1.save_config,
        v.config.active_location_index < v.config.locations.len() ==> {
            let (s, e) = step(v, Message::ToggleUnits);
            let l = v.config.locations[v.config.active_location_index as int];
            &&& e.fetch is Some
            &&& e.fetch->0.use_fahrenheit == !v.config.use_fahrenheit
            &&& e.fetch->0.lat == l.lat
            &&& e.fetch->0.lon == l.lon
            &&& e.fetch->0.location_name == l.name
        },
        v.config.active_location_index >= v.config.locations.len() ==> step(v, Message::ToggleUnits).1.fetch is None,
{
}


/// Submitting a search asks for exactly the typed text, and only when there is
/// some; an empty box changes nothing.
pub proof fn searches_ask_for_the_typed_text(v: ModelView)
    ensures
        v.search_input.len() > 0 ==> {
            let (s, e) = step(v, Message::SearchSubmit);
            &&& e.search == Some(v.search_input)
            &&& e.fetch is None
            &&& s.searching
            &&& s.search_error is None
            &&& s.config == v.config
        },
        v.search_input.len() == 0 ==> step(v, Message::SearchSubmit) == (v, quiet()),
{
}

/// Typing keeps the text typed; clearing the box clears the results, and other
/// text keeps them until the next search answers.
pub proof fn typing_sets_the_search_text(v: ModelView, input: String)
    ensures
        ({
            let (s, e) = step(v, Message::SearchInput(input));
            &&& s.search_input == input@
            &&& !s.search_done
            &&& (input@.len() == 0 ==> s.search_results.len() == 0)
            &&& (input@.len() > 0 ==> s.search_results == v.search_results)
            &&& e == quiet()
        }),
{
}

/// A search answer is shown as it came: its places, or its error with no places;
/// either way the search is over.
pub proof fn search_answers_are_shown(v: ModelView, rs: Vec<SearchResult>, err: String)
    ensures
        ({
            let (s, e) = step(v, Message::SearchResults(Ok(rs)));
            &&& s.search_results == rs@
            &&& s.search_error is None
            &&& !s.searching && s.search_done
            &&& e == quiet()
        }),
        ({
            let (s, e) = step(v, Message::SearchResults(Err(err)));
            &&& s.search_results.len() == 0
            &&& s.search_error == Some(err@)
            &&& !s.searching && s.search_done
            &&& e == quiet()
        }),
{
}

/// An answer to the latest fetch is shown: its forecast, current conditions,
/// air quality and alerts, from the first hour and with no day expanded; the
/// active location keeps its place and takes the grid the fetch found. A
/// failed fetch shows its error and keeps what was shown before.
pub proof fn weather_answers_are_shown(v: ModelView, res: WeatherResult, err: String)
    ensures
        ({
            let (s, e) = step(v, Message::WeatherFetched(v.fetch_generation, Ok(res)));
            &&& s.fetch_state == FetchState::Loaded
            &&& s.forecast == Some(res.forecast)
            &&& s.observation == res.observation
            &&& s.air_quality == res.air_quality
            &&& s.alerts == crate::model::alerts_view(res.alerts)
            &&& s.hourly_offset == 0
            &&& s.expanded_day is None
            &&& e.mark_updated
            &&& e.fetch is None
            &&& s.config.locations.len() == v.config.locations.len()
            &&& s.config.active_location_index == v.config.active_location_index
            &&& s.config.use_fahrenheit == v.config.use_fahrenheit
            &&& (has_active(v.config) ==> {
                let a = v.config.active_location_index as int;
                &&& s.config.locations[a].lat == v.config.locations[a].lat
                &&& s.config.locations[a].lon == v.config.locations[a].lon
                &&& (res.cached_grid matches Some(g) ==> s.config.locations[a].cached_grid == Some(g@))
                &&& (res.cached_grid is None ==> s.config.locations[a].cached_grid
                    == v.config.locations[a].cached_grid)
                &&& (v.config.locations[a].name.len() > 0 ==> s.config.locations[a].name
                    == v.config.locations[a].name)
            })
            &&& forall|j: int|
                0 <= j < v.config.locations.len() && j != v.config.active_location_index ==> s.config.locations[j]
                    == v.config.locations[j]
        }),
        ({
            let (s, e) = step(v, Message::WeatherFetched(v.fetch_generation, Err(err)));
            &&& s.fetch_state == FetchState::Error(err)
            &&& s.forecast == v.forecast
            &&& s.observation == v.observation
            &&& s.config == v.config
            &&& e == quiet()
        }),
{
}

/// Removing a saved location removes exactly that one and stores the settings.
/// Removing the active one shows and fetches the first remaining location;
/// removing the last one goes back to setup with nothing to fetch.
pub proof fn removing_a_location_removes_only_it(v: ModelView, idx: usize)
    requires
        idx < v.config.locations.len(),
    ensures
        ({
            let (s, e) = step(v, Message::RemoveLocation(idx));
            &&& s.config.locations == v.config.locations.remove(idx as int)
            &&& e.save_config
            &&& s.config.use_fahrenheit == v.config.use_fahrenheit
            &&& (v.config.locations.len() == 1 ==> s.page == Page::Setup && e.fetch is None && s.fetch_state
                == FetchState::Idle)
            &&& (v.config.locations.len() > 1 && idx == v.config.active_location_index ==> {
                &&& s.config.active_location_index == 0
                &&& e.fetch matches Some(f) && f.lat == s.config.locations[0].lat && f.lon
                    == s.config.locations[0].lon
            })
        }),
{
}

/// A refresh tick fetches the active location again unless a fetch is under
/// way; with no active location it does nothing. It never stores settings.
pub proof fn ticks_refresh_the_active_location(v: ModelView)
    ensures
        has_active(v.config) && !(v.fetch_state is Loading) ==> {
            let (s, e) = step(v, Message::Tick);
            &&& e.fetch is Some
            &&& !e.save_config
            &&& s.fetch_state is Loading
            &&& s.config == v.config
        },
        !has_active(v.config) ==> step(v, Message::Tick) == (v, quiet()),
{
}

/// Settings changed from outside are taken as they are; the weather is fetched
/// again exactly when they name another place or other units, with a location
/// to fetch for.
pub proof fn outside_changes_refetch_on_place_or_units(v: ModelView, c: crate::config::WhetherConfig)
    ensures
        step(v, Message::ConfigChanged(c)).0.config == c@,
        !step(v, Message::ConfigChanged(c)).1.save_config,
        step(v, Message::ConfigChanged(c)).1.fetch is Some <==> has_active(c@) && (identity_of(c@) != identity_of(
            v.config,
        ) || c.use_fahrenheit != v.config.use_fahrenheit),
{
}

/// The page switches: adding a location opens the location list with an empty
/// search, going back shows the forecast (or setup when nothing is saved), and
/// the about page opens; none of them changes the settings or asks for work.
pub proof fn pages_switch_without_side_effects(v: ModelView)
    ensures
        step(v, Message::AddLocation).0.page == Page::Locations,
        step(v, Message::AddLocation).0.search_input.len() == 0,
        step(v, Message::AddLocation).0.search_results.len() == 0,
        step(v, Message::BackToMain).0.page == (if v.config.locations.len() == 0 {
            Page::Setup
        } else {
            Page::Main
        }),
        step(v, Message::OpenAbout).0.page == Page::About,
        step(v, Message::AddLocation).1 == quiet(),
        step(v, Message::BackToMain).1 == quiet(),
        step(v, Message::OpenAbout).1 == quiet(),
        step(v, Message::AddLocation).0.config == v.config,
        step(v, Message::BackToMain).0.config == v.config,
{
}

/// Opening a link asks for exactly that link and changes nothing else.
pub proof fn links_open_as_given(v: ModelView, url: String)
    ensures
        step(v, Message::OpenUrl(url)).0 == v,
        step(v, Message::OpenUrl(url)).1.open_url == Some(url@),
        step(v, Message::OpenUrl(url)).1.fetch is None,
        !step(v, Message::OpenUrl(url)).1.save_config,
{
}

/// A picked place is saved with the result's coordinates and country, no grid
/// yet, under its short name.
pub proof fn picked_places_keep_their_coordinates(r: SearchResult)
    ensures
        location_from(r).lat == r.lat@,
        location_from(r).lon == r.lon@,
        location_from(r).cached_grid is None,
        location_from(r).name == crate::summary::short_name_of(r.display_name@),
        location_from(r).country_code == (match r.address {
            Some(a) => crate::types::opt_text(a.country_code),
            None => None,
        }),
{
}


/// A fetch request is made for the active location of the settings it is made
/// from, in their units and under the given generation; there is one exactly
/// when the settings name an active location.
pub proof fn fetch_requests_carry_their_settings(c: ConfigView, g: u64)
    ensures
        fetch_for(c, g) is Some <==> c.active_location_index < c.locations.len(),
        fetch_for(c, g) matches Some(f) ==> {
            let l = c.locations[c.active_location_index as int];
            &&& f.generation == g
            &&& f.use_fahrenheit == c.use_fahrenheit
            &&& f.lat == l.lat
            &&& f.lon == l.lon
            &&& f.location_name == l.name
            &&& f.country_code == l.country_code
            &&& f.cached_grid == l.cached_grid
        },
{
}

/// A freshly loaded applet shows setup when nothing is saved and the forecast
/// page otherwise, lists the saved names, and fetches the active location in
/// the saved units under the first new generation.
pub proof fn loading_settings_starts_the_applet(c: ConfigView)
    ensures
        ({
            let (s, e) = crate::model::init_step(c);
            &&& s.config == c
            &&& s.page == (if c.locations.len() == 0 {
                Page::Setup
            } else {
                Page::Main
            })
            &&& s.location_names == names_in(c)
            &&& !e.save_config
            &&& (c.active_location_index < c.locations.len() ==> {
                &&& e.fetch matches Some(f) && f.use_fahrenheit == c.use_fahrenheit && f.lat
                    == c.locations[c.active_location_index as int].lat && f.generation == s.fetch_generation
                &&& s.fetch_state is Loading
            })
            &&& (c.active_location_index >= c.locations.len() ==> e.fetch is None)
        }),
{
}


/// Paging forward moves one page on while a full page is left, and otherwise
/// stops at the last page, which ends with the last hour; paging back from
/// there returns to where paging forward began, when a full page was left.
pub proof fn paging_moves_one_page_at_a_time(v: ModelView)
    requires
        max_offset(v.forecast) <= usize::MAX,
    ensures
        v.hourly_offset + HOURLY_PAGE_SIZE <= max_offset(v.forecast) ==> step(v, Message::HourlyNext).0.hourly_offset
            == v.hourly_offset + HOURLY_PAGE_SIZE,
        v.hourly_offset + HOURLY_PAGE_SIZE > max_offset(v.forecast) ==> step(v, Message::HourlyNext).0.hourly_offset
            == max_offset(v.forecast),
        v.hourly_offset + HOURLY_PAGE_SIZE <= max_offset(v.forecast) ==> step(
            step(v, Message::HourlyNext).0,
            Message::HourlyPrev,
        ).0.hourly_offset == v.hourly_offset,
        v.forecast is Some && v.forecast->0.hourly_periods@.len() >= HOURLY_PAGE_SIZE ==> max_offset(v.forecast)
            + HOURLY_PAGE_SIZE == v.forecast->0.hourly_periods@.len(),
        (v.forecast is Some && v.forecast->0.hourly_periods@.len() < HOURLY_PAGE_SIZE) || v.forecast is None
            ==> max_offset(v.forecast) == 0,
        step(v, Message::HourlyNext).1 == quiet(),
        step(v, Message::HourlyPrev).1 == quiet(),
{
}

/// A location with no name takes the name the fetch reported.
pub proof fn unnamed_locations_take_the_fetched_name(v: ModelView, res: WeatherResult)
    requires
        v.config.active_location_index < v.config.locations.len(),
        v.config.locations[v.config.active_location_index as int].name.len() == 0,
        res.forecast.location_name@.len() > 0,
    ensures
        step(v, Message::WeatherFetched(v.fetch_generation, Ok(res))).0.config.locations[v.config.active_location_index as int].name
            == res.forecast.location_name@,
        step(v, Message::WeatherFetched(v.fetch_generation, Ok(res))).0.location_names[v.config.active_location_index as int]
            == res.forecast.location_name@,
{
}

/// Activating another location shows the forecast page with nothing of the
/// previous location left on it while its weather is fetched.
pub proof fn activating_clears_the_previous_weather(v: ModelView, idx: usize)
    requires
        idx < v.config.locations.len(),
        idx != v.config.active_location_index,
    ensures
        ({
            let s = step(v, Message::ActivateLocation(idx)).0;
            &&& s.page == Page::Main
            &&& s.forecast is None
            &&& s.observation is None
            &&& s.air_quality is None
            &&& s.fetch_state is Loading
        }),
        step(v, Message::ActivateLocation(v.config.active_location_index)) == (v, quiet()),
{
}

} // verus!
