//! Place search: what the search's outcome means for the applet.
use vstd::prelude::*;
use crate::text::text_eq;
use crate::types::SearchResult;

verus! {

pub const NOMINATIM_URL: &'static str = "https://nominatim.openstreetmap.org/search";

pub const USER_AGENT: &'static str =
    "cosmic-ext-whether/0.1.0 (https://github.com/nwxnw/cosmic-ext-whether)";

/// A failed place search, with its reason.
#[derive(Debug, Clone)]
pub struct GeoError(pub String);

impl GeoError {
    /// The text shown for the error.
    pub fn message(&self) -> (r: String)
        ensures
            r@ == self.0@,
    {
        self.0.clone()
    }

    /// The error for a search service that answered with a non-success status.
    pub fn from_status(status: &str) -> (r: GeoError)
        ensures
            r.0@ == "Nominatim returned "@ + status@,
    {
        let mut s = String::from_str("Nominatim returned ");
        s.append(status);
        GeoError(s)
    }
}

/// Whether a search result's address carries the country code "us".
pub open spec fn is_us(result: SearchResult) -> bool {
    match result.address {
        Some(a) => match a.country_code {
            Some(cc) => cc@ == "us"@,
            None => false,
        },
        None => false,
    }
}

/// Check whether a search result is a US location based on its country code.
pub fn is_us_location(result: &SearchResult) -> (r: bool)
    ensures
        r == is_us(*result),
{
    match &result.address {
        Some(a) => match &a.country_code {
            Some(cc) => text_eq(cc.as_str(), "us"),
            None => false,
        },
        None => false,
    }
}

/// A place counts as US exactly when its address carries the country code
/// "us".
pub proof fn us_places_are_those_coded_us(result: SearchResult)
    ensures
        is_us(result) <==> (result.address matches Some(a) && a.country_code matches Some(cc) && cc@ == "us"@),
{
}

} // verus!
