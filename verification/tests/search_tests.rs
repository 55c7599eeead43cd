use asset_import::search::build_search_query;
use asset_import::search::select_parent;
use asset_import::search::str_eq;
use asset_import::search::target_entity_type;

#[test]
fn rack_resolves_against_locations() {
    assert_eq!(target_entity_type("rack"), "Location");
}

#[test]
fn other_assets_resolve_against_racks() {
    assert_eq!(target_entity_type("server"), "Rack");
    assert_eq!(target_entity_type(""), "Rack");
    assert_eq!(target_entity_type("Rack"), "Rack");
}

#[test]
fn query_text_for_rack_parent() {
    let q = build_search_query("Rack", "DC1\tRoomA", "Rack01");
    let expected = "{\"from\":\"0\",\"size\":\"10\",\"selectedFields\":[\"DisplayName\"],\"searchComplexDataFields\":[],\"query\":{\"bool\":{\"filter\":{\"bool\":{\"must\":[{\"match\":{\"assetType\":\"Rack\"}},{\"wildcard\":{\"tabDelimitedPath\":\"DC1\\tRoomA*\"}}]}},\"should\":[{\"query_string\":{\"query\":\"\\\"Rack01\\\"\",\"fields\":[\"displayNameLowerCase^5\",\"*\"]}}],\"minimum_should_match\":\"1\"}}}";
    assert_eq!(q, expected);
}

#[test]
fn query_escapes_quotes_and_backslashes() {
    let q = build_search_query("Rack", "a\"b", "c\\d");
    assert!(q.contains("\"tabDelimitedPath\":\"a\\\"b*\""));
    assert!(q.contains("\"query\":\"\\\"c\\\\d\\\"\""));
}

#[test]
fn empty_results_give_empty_parent() {
    let ids: Vec<String> = Vec::new();
    assert_eq!(select_parent(&ids), "");
}

#[test]
fn first_result_wins_and_quotes_are_stripped() {
    let ids = vec!["\"id-123\"".to_string(), "\"id-456\"".to_string()];
    assert_eq!(select_parent(&ids), "id-123");
}

#[test]
fn unquoted_result_is_kept_as_is() {
    let ids = vec!["plain".to_string()];
    assert_eq!(select_parent(&ids), "plain");
}

#[test]
fn str_eq_compares_by_characters() {
    assert!(str_eq("rack", "rack"));
    assert!(!str_eq("rack", "Rack"));
    assert!(!str_eq("rack", "rack "));
}
