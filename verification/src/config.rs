//! The applet's persisted settings.
use vstd::prelude::*;
use crate::text::text_eq;
use crate::types::{LocationView, SavedLocation, opt_text};

verus! {

pub const APP_ID: &'static str = "com.github.nwxnw.cosmic-ext-whether";

/// The version under which the settings are stored.
pub const CONFIG_VERSION: u64 = 3;

/// Settings: units, saved places, which place is shown, and how often to refresh.
#[derive(Debug, Clone, PartialEq, Eq)]
pub struct WhetherConfig {
    pub use_fahrenheit: bool,
    pub locations: Vec<SavedLocation>,
    pub active_location_index: usize,
    pub refresh_interval_minutes: u32,
}

#[verifier::ext_equal]
pub struct ConfigView {
    pub use_fahrenheit: bool,
    pub locations: Seq<LocationView>,
    pub active_location_index: usize,
    pub refresh_interval_minutes: u32,
}

/// The views of a sequence of locations.
pub open spec fn locations_view(s: Seq<SavedLocation>) -> Seq<LocationView> {
    s.map_values(|l: SavedLocation| l@)
}

impl View for WhetherConfig {
    type V = ConfigView;

    open spec fn view(&self) -> ConfigView {
        ConfigView {
            use_fahrenheit: self.use_fahrenheit,
            locations: locations_view(self.locations@),
            active_location_index: self.active_location_index,
            refresh_interval_minutes: self.refresh_interval_minutes,
        }
    }
}

impl Default for WhetherConfig {
    fn default() -> (r: Self)
        ensures
            r.use_fahrenheit,
            r.locations@.len() == 0,
            r.active_location_index == 0,
            r.refresh_interval_minutes == 30,
    {
        WhetherConfig {
            use_fahrenheit: true,
            locations: Vec::new(),
            active_location_index: 0,
            refresh_interval_minutes: 30,
        }
    }
}

/// The location the index selects, if the index is in range.
pub open spec fn active_of(c: WhetherConfig) -> Option<SavedLocation> {
    if c.active_location_index < c.locations@.len() {
        Some(c.locations@[c.active_location_index as int])
    } else {
        None
    }
}

impl WhetherConfig {
    /// The location shown, when the index names one.
    pub fn active_location(&self) -> (r: Option<&SavedLocation>)
        ensures
            match r {
                Some(l) => active_of(*self) == Some(*l),
                None => active_of(*self) is None,
            },
    {
        if self.active_location_index < self.locations.len() {
            Some(&self.locations[self.active_location_index])
        } else {
            None
        }
    }

    /// A copy of the settings.
    pub fn duplicate(&self) -> (r: WhetherConfig)
        ensures
            r@ == self@,
    {
        let mut locations: Vec<SavedLocation> = Vec::new();
        let mut i: usize = 0;
        while i < self.locations.len()
            invariant
                i <= self.locations@.len(),
                locations@.len() == i,
                forall|j: int| 0 <= j < i ==> locations@[j]@ == self.locations@[j]@,
            decreases self.locations@.len() - i,
        {
            let l = self.locations[i].duplicate();
            locations.push(l);
            i = i + 1;
        }
        assert(locations_view(locations@) =~= locations_view(self.locations@));
        WhetherConfig {
            use_fahrenheit: self.use_fahrenheit,
            locations,
            active_location_index: self.active_location_index,
            refresh_interval_minutes: self.refresh_interval_minutes,
        }
    }

    /// Whether two settings hold the same values.
    pub fn same_as(&self, other: &WhetherConfig) -> (r: bool)
        ensures
            r == (self@ == other@),
    {
        if self.use_fahrenheit != other.use_fahrenheit || self.active_location_index
            != other.active_location_index || self.refresh_interval_minutes
            != other.refresh_interval_minutes || self.locations.len() != other.locations.len() {
            assert(self@.locations.len() == self.locations@.len());
            assert(other@.locations.len() == other.locations@.len());
            return false;
        }
        let n = self.locations.len();
        let mut i: usize = 0;
        while i < n
            invariant
                n == self.locations@.len(),
                n == other.locations@.len(),
                i <= n,
                forall|j: int| 0 <= j < i ==> self.locations@[j]@ == other.locations@[j]@,
            decreases n - i,
        {
            if !same_location(&self.locations[i], &other.locations[i]) {
                assert(self@.locations[i as int] == self.locations@[i as int]@);
                assert(other@.locations[i as int] == other.locations@[i as int]@);
                return false;
            }
            i = i + 1;
        }
        assert(locations_view(self.locations@) =~= locations_view(other.locations@));
        true
    }
}

/// Whether two optional strings hold the same text.
pub fn same_opt_text(a: &Option<String>, b: &Option<String>) -> (r: bool)
    ensures
        r == (opt_text(*a) == opt_text(*b)),
{
    match (a, b) {
        (Some(x), Some(y)) => text_eq(x.as_str(), y.as_str()),
        (None, None) => true,
        _ => false,
    }
}

/// Whether two locations hold the same values.
pub fn same_location(a: &SavedLocation, b: &SavedLocation) -> (r: bool)
    ensures
        r == (a@ == b@),
{
    let grid_same = match (&a.cached_grid, &b.cached_grid) {
        (Some(x), Some(y)) => x.same_as(y),
        (None, None) => true,
        _ => false,
    };
    text_eq(a.name.as_str(), b.name.as_str()) && text_eq(a.lat.as_str(), b.lat.as_str())
        && text_eq(a.lon.as_str(), b.lon.as_str()) && grid_same && a.source == b.source
        && same_opt_text(&a.country_code, &b.country_code)
}

} // verus!
