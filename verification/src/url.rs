//! The upstream query URL: the places-search endpoint with the API key,
//! the caller's coordinate passed through exactly as supplied, and the two
//! fixed parameters `rankby=distance` and `type=restaurant`.

use vstd::prelude::*;
use crate::text::push_char;
use vstd::string::StringExecFns;

verus! {

/// The full query URL, character for character. The `location` parameter
/// is the supplied latitude, a comma, and the supplied longitude, with no
/// numeric reformatting.
pub open spec fn query_url(key: Seq<char>, lat: Seq<char>, lng: Seq<char>) -> Seq<char> {
    "https://maps.googleapis.com/maps/api/place/nearbysearch/json?key="@ + key + "&location="@
        + lat + seq![','] + lng + "&rankby=distance&type=restaurant"@
}

/// Builds the upstream query URL.
pub fn build_query_url(key: &str, lat: &str, lng: &str) -> (r: String)
    ensures
        r@ == query_url(key@, lat@, lng@),
{
    let mut out = String::from_str(
        "https://maps.googleapis.com/maps/api/place/nearbysearch/json?key=",
    );
    out.append(key);
    out.append("&location=");
    out.append(lat);
    push_char(&mut out, ',');
    out.append(lng);
    out.append("&rankby=distance&type=restaurant");
    proof {
        assert(out@ =~= query_url(key@, lat@, lng@));
    }
    out
}

} // verus!
