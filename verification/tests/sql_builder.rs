use nearby_places::model::{LatLong, Listing, SearchResponse, ViewportBox};
use nearby_places::sql::build_insert;

fn coord(lat: &str, lng: &str) -> LatLong {
    LatLong { latitude: String::from(lat), longitude: String::from(lng) }
}

fn listing(name: &str, place_id: &str, types: Vec<&str>) -> Listing {
    Listing {
        business_status: String::from("OPERATIONAL"),
        name: String::from(name),
        place_id: String::from(place_id),
        reference: String::from("ref1"),
        types: types.into_iter().map(String::from).collect(),
        vicinity: String::from("123 Main St"),
        location: coord("40.7", "-74.0"),
        viewport: ViewportBox {
            northeast: coord("40.8", "-73.9"),
            southwest: coord("40.6", "-74.1"),
        },
    }
}

const PREFIX: &str = "INSERT INTO places (business_status, name, place_id, reference, types, vicinity, location_latitude, location_longitude, viewport_northeast_latitude, viewport_northeast_longitude, viewport_southwest_latitude, viewport_southwest_longitude) VALUES ";
const SUFFIX: &str = " ON CONFLICT DO NOTHING;";

#[test]
fn empty_listings_build_nothing() {
    let listings: Vec<Listing> = Vec::new();
    assert!(build_insert(&listings).is_none());
}

#[test]
fn single_listing_statement_exact() {
    let listings = vec![listing("Joe's Pizza", "abc123", vec!["restaurant", "food"])];
    let stmt = build_insert(&listings).unwrap();
    let expected = format!(
        "{}('OPERATIONAL', 'Joe''s Pizza', 'abc123', 'ref1', '{{\"restaurant\", \"food\"}}', '123 Main St', 40.7, -74.0, 40.8, -73.9, 40.6, -74.1){}",
        PREFIX, SUFFIX
    );
    assert_eq!(stmt, expected);
}

#[test]
fn statement_has_one_tuple_per_listing() {
    let listings = vec![
        listing("A", "p1", vec!["restaurant"]),
        listing("B", "p2", vec!["restaurant"]),
        listing("C", "p3", vec!["restaurant"]),
    ];
    let stmt = build_insert(&listings).unwrap();
    assert!(stmt.starts_with(PREFIX));
    assert!(stmt.ends_with(SUFFIX));
    let tuples = stmt.matches("('OPERATIONAL'").count();
    assert_eq!(tuples, 3);
    let a = stmt.find("'p1'").unwrap();
    let b = stmt.find("'p2'").unwrap();
    let c = stmt.find("'p3'").unwrap();
    assert!(a < b && b < c);
}

#[test]
fn quoted_name_round_trips() {
    let listings = vec![listing("O'Brien's", "p1", vec!["restaurant"])];
    let stmt = build_insert(&listings).unwrap();
    let fragment = "'O''Brien''s'";
    assert!(stmt.contains(fragment));
    let inner = &fragment[1..fragment.len() - 1];
    let parsed_back = inner.replace("''", "'");
    assert_eq!(parsed_back, "O'Brien's");
}

#[test]
fn types_nest_two_escaping_contexts() {
    let listings = vec![listing("A", "p1", vec!["joe's \"spot\""])];
    let stmt = build_insert(&listings).unwrap();
    // Inner context: the double quotes around the element's text get a
    // backslash. Outer context: the single quote inside the array literal
    // is doubled when the whole literal becomes a SQL string.
    assert!(stmt.contains("'{\"joe''s \\\"spot\\\"\"}'"));
}

#[test]
fn empty_types_give_empty_array_literal() {
    let listings = vec![listing("A", "p1", vec![])];
    let stmt = build_insert(&listings).unwrap();
    assert!(stmt.contains("'{}'"));
}

#[test]
fn multibyte_text_passes_through_unchanged() {
    let listings = vec![listing("Caffè Ñoño ☕", "p1", vec!["café"])];
    let stmt = build_insert(&listings).unwrap();
    assert!(stmt.contains("'Caffè Ñoño ☕'"));
    assert!(stmt.contains("'{\"café\"}'"));
}

#[test]
fn search_response_validity_follows_coordinates() {
    let good = SearchResponse {
        next_page_token: String::new(),
        results: vec![listing("A", "p1", vec!["restaurant"])],
    };
    assert!(good.validate());
    let mut bad_listing = listing("B", "p2", vec!["restaurant"]);
    bad_listing.location = coord("40.7'; DROP TABLE places; --", "-74.0");
    let bad = SearchResponse { next_page_token: String::new(), results: vec![bad_listing] };
    assert!(!bad.validate());
}
