//! The routing layer: a pure, stateless dispatch table from method and
//! path to exactly one handler, with the fixed bodies of the 404 and 500
//! responses.

use vstd::prelude::*;
use crate::text::str_eq;
use vstd::string::StringExecFns;

verus! {

/// The inbound request's method, as far as routing cares.
#[derive(Clone, Copy, PartialEq, Eq, Structural, Debug)]
pub enum HttpMethod {
    Get,
    Post,
    Other,
}

/// Which handler serves a request.
#[derive(Clone, Copy, PartialEq, Eq, Structural, Debug)]
pub enum Route {
    /// GET `/` or GET `/index.html`: the static index bytes, status 200.
    Index,
    /// POST `/nearby_restaurants`: the nearby-restaurants handler.
    NearbyRestaurants,
    /// Everything else: status 404, body `Not Found`.
    NotFound,
}

/// The dispatch table.
pub open spec fn route_spec(m: HttpMethod, path: Seq<char>) -> Route {
    if m is Get && (path == "/"@ || path == "/index.html"@) {
        Route::Index
    } else if m is Post && path == "/nearby_restaurants"@ {
        Route::NearbyRestaurants
    } else {
        Route::NotFound
    }
}

/// Selects the handler for a method and path.
pub fn route(m: HttpMethod, path: &str) -> (r: Route)
    ensures
        r == route_spec(m, path@),
{
    match m {
        HttpMethod::Get => {
            if str_eq(path, "/") || str_eq(path, "/index.html") {
                Route::Index
            } else {
                Route::NotFound
            }
        },
        HttpMethod::Post => {
            if str_eq(path, "/nearby_restaurants") {
                Route::NearbyRestaurants
            } else {
                Route::NotFound
            }
        },
        HttpMethod::Other => Route::NotFound,
    }
}

/// The response for an unknown route: status 404, fixed body.
pub fn not_found_response() -> (r: (u16, String))
    ensures
        r.0 == 404,
        r.1@ == "Not Found"@,
{
    (404, String::from_str("Not Found"))
}

/// The response the routing layer turns an aborted request into:
/// status 500, fixed body.
pub fn server_error_response() -> (r: (u16, String))
    ensures
        r.0 == 500,
        r.1@ == "Internal Server Error"@,
{
    (500, String::from_str("Internal Server Error"))
}

} // verus!
