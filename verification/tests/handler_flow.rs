use nearby_places::handler::{
    classify_persistence, classify_upstream, nearby_request_plan, plan_persistence,
    response_plan, HandlerError, UpstreamOutcome,
};
use nearby_places::model::{LatLong, Listing, NearbySearchRequest, SearchResponse, ViewportBox};

fn coord(lat: &str, lng: &str) -> LatLong {
    LatLong { latitude: String::from(lat), longitude: String::from(lng) }
}

fn joes_pizza() -> Listing {
    Listing {
        business_status: String::from("OPERATIONAL"),
        name: String::from("Joe's Pizza"),
        place_id: String::from("abc123"),
        reference: String::from("ref1"),
        types: vec![String::from("restaurant"), String::from("food")],
        vicinity: String::from("123 Main St"),
        location: coord("40.7", "-74.0"),
        viewport: ViewportBox {
            northeast: coord("40.8", "-73.9"),
            southwest: coord("40.6", "-74.1"),
        },
    }
}

#[test]
fn location_parameter_is_passed_through_exactly() {
    let req = NearbySearchRequest {
        latitude: String::from("40.7"),
        longitude: String::from("-74.0"),
    };
    let url = nearby_request_plan(Some("testkey"), Some(&req)).unwrap();
    assert!(url.contains("&location=40.7,-74.0&"));
    assert_eq!(
        url,
        "https://maps.googleapis.com/maps/api/place/nearbysearch/json?key=testkey&location=40.7,-74.0&rankby=distance&type=restaurant"
    );
}

#[test]
fn missing_api_key_is_a_configuration_error() {
    let req = NearbySearchRequest {
        latitude: String::from("40.7"),
        longitude: String::from("-74.0"),
    };
    assert_eq!(nearby_request_plan(None, Some(&req)), Err(HandlerError::Configuration));
    assert_eq!(nearby_request_plan(None, None), Err(HandlerError::Configuration));
}

#[test]
fn malformed_body_fails_before_any_upstream_call() {
    // A body like `not json` never decodes, so the plan holds no URL:
    // nothing exists for the upstream client to be called with.
    let r = nearby_request_plan(Some("k"), None);
    assert_eq!(r, Err(HandlerError::MalformedRequest));
    let mut upstream_calls = 0;
    if let Ok(url) = r {
        upstream_calls += 1;
        let _ = url;
    }
    assert_eq!(upstream_calls, 0);
}

#[test]
fn upstream_outcomes_map_to_their_errors() {
    assert_eq!(
        classify_upstream(UpstreamOutcome::RequestFailed).unwrap_err(),
        HandlerError::UpstreamRequest
    );
    assert_eq!(
        classify_upstream(UpstreamOutcome::DecodeFailed).unwrap_err(),
        HandlerError::UpstreamDecode
    );
    let resp = SearchResponse { next_page_token: String::new(), results: vec![joes_pizza()] };
    let out = classify_upstream(UpstreamOutcome::Response(resp)).unwrap();
    assert_eq!(out.results.len(), 1);
    assert_eq!(out.results[0].name, "Joe's Pizza");
}

#[test]
fn database_failure_is_a_persistence_error() {
    assert!(classify_persistence(true).is_ok());
    assert_eq!(classify_persistence(false).unwrap_err(), HandlerError::Persistence);
}

#[test]
fn empty_upstream_response_skips_the_database() {
    let resp = SearchResponse { next_page_token: String::new(), results: Vec::new() };
    assert!(plan_persistence(&resp).is_none());
}

#[test]
fn one_listing_end_to_end_plan() {
    let resp = SearchResponse {
        next_page_token: String::from("tok"),
        results: vec![joes_pizza()],
    };
    assert!(resp.validate());

    let stmt = plan_persistence(&resp).unwrap();
    assert_eq!(stmt.matches("'Joe''s Pizza'").count(), 1);
    assert!(stmt.ends_with(" ON CONFLICT DO NOTHING;"));

    let (status, content_type, body) = response_plan(&resp);
    assert_eq!(status, 200);
    assert_eq!(content_type, "application/json");
    assert_eq!(
        body,
        "{\"next_page_token\":\"tok\",\"results\":[{\"business_status\":\"OPERATIONAL\",\
         \"geometry\":{\"location\":{\"lat\":40.7,\"lng\":-74.0},\"viewport\":{\"northeast\":\
         {\"lat\":40.8,\"lng\":-73.9},\"southwest\":{\"lat\":40.6,\"lng\":-74.1}}},\
         \"name\":\"Joe's Pizza\",\"place_id\":\"abc123\",\"reference\":\"ref1\",\
         \"types\":[\"restaurant\",\"food\"],\"vicinity\":\"123 Main St\"}]}"
    );
}

#[test]
fn response_body_is_json_the_upstream_shape_reads_back() {
    let mut l = joes_pizza();
    l.name = String::from("Quote \" backslash \\ newline \n tab \t ctl \u{1} unicode é☕");
    let resp = SearchResponse { next_page_token: String::from("t2"), results: vec![l] };
    let (_, _, body) = response_plan(&resp);
    assert!(body.contains("\\u0001"));
    let v: serde_json::Value = serde_json::from_str(&body).unwrap();
    assert_eq!(v["next_page_token"], "t2");
    assert_eq!(
        v["results"][0]["name"],
        "Quote \" backslash \\ newline \n tab \t ctl \u{1} unicode é☕"
    );
    assert_eq!(v["results"][0]["geometry"]["location"]["lat"], 40.7);
    assert_eq!(v["results"][0]["types"][1], "food");
}
