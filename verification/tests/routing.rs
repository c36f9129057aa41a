use nearby_places::router::{not_found_response, route, server_error_response, HttpMethod, Route};

#[test]
fn get_root_serves_index() {
    assert_eq!(route(HttpMethod::Get, "/"), Route::Index);
}

#[test]
fn get_index_html_serves_index() {
    assert_eq!(route(HttpMethod::Get, "/index.html"), Route::Index);
}

#[test]
fn post_nearby_restaurants_dispatches_handler() {
    assert_eq!(route(HttpMethod::Post, "/nearby_restaurants"), Route::NearbyRestaurants);
}

#[test]
fn unknown_route_is_not_found() {
    assert_eq!(route(HttpMethod::Get, "/nope"), Route::NotFound);
    let (status, body) = not_found_response();
    assert_eq!(status, 404);
    assert_eq!(body, "Not Found");
}

#[test]
fn wrong_method_is_not_found() {
    assert_eq!(route(HttpMethod::Post, "/"), Route::NotFound);
    assert_eq!(route(HttpMethod::Get, "/nearby_restaurants"), Route::NotFound);
    assert_eq!(route(HttpMethod::Other, "/"), Route::NotFound);
    assert_eq!(route(HttpMethod::Other, "/nearby_restaurants"), Route::NotFound);
}

#[test]
fn aborted_request_gets_generic_server_error() {
    let (status, body) = server_error_response();
    assert_eq!(status, 500);
    assert_eq!(body, "Internal Server Error");
}
