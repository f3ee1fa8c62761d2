use mock_server::{find_endpoint, method_matches, method_matches_upper, route, Endpoint, EndpointRegistry};

fn entry(method: &str, path: &str, status: u16, delay: u64, response: &str) -> Endpoint {
    Endpoint {
        id: format!("{}{}", method, path),
        method: method.to_string(),
        path: path.to_string(),
        status,
        delay,
        response: response.to_string(),
    }
}

#[test]
fn health_scenario() {
    let mut r = EndpointRegistry::new();
    r.add("GET".to_string(), "/health".to_string(), "{\"ok\":true}".to_string(), 200, 0);
    let list = r.list();
    let ok = route("GET", "/health", &list);
    assert_eq!(ok.status, 200);
    assert_eq!(ok.body, "{\"ok\":true}");
    assert!(ok.json_content);
    let missing = route("GET", "/missing", &list);
    assert_eq!(missing.status, 404);
    assert_eq!(missing.body, "{\"error\": \"Endpoint not found\"}");
    assert!(!missing.json_content);
}

#[test]
fn first_inserted_entry_wins() {
    let list = vec![entry("GET", "/dup", 200, 0, "first"), entry("GET", "/dup", 200, 0, "second")];
    for _ in 0..3 {
        assert_eq!(route("GET", "/dup", &list).body, "first");
    }
    assert_eq!(find_endpoint("GET", "/dup", &list), Some(0));
}

#[test]
fn configured_status_and_delay_are_returned() {
    let list = vec![entry("post", "/items", 201, 250, "{\"id\":1}")];
    let r = route("POST", "/items", &list);
    assert_eq!(r.status, 201);
    assert_eq!(r.delay_ms, 250);
    assert_eq!(r.body, "{\"id\":1}");
}

#[test]
fn body_is_passed_through_even_when_not_json() {
    let list = vec![entry("GET", "/text", 200, 0, "not json <at all>")];
    assert_eq!(route("GET", "/text", &list).body, "not json <at all>");
}

#[test]
fn path_matching_is_exact() {
    let list = vec![entry("GET", "/a", 200, 0, "x")];
    assert_eq!(route("GET", "/a/", &list).status, 404);
    assert_eq!(route("GET", "/A", &list).status, 404);
    assert_eq!(route("GET", "/a", &list).status, 200);
}

#[test]
fn method_comparison_ignores_case_of_the_entry() {
    assert!(method_matches("GET", "get"));
    assert!(method_matches("DELETE", "Delete"));
    assert!(method_matches("PATCH", "patch"));
    assert!(!method_matches("POST", "get"));
}

#[test]
fn unsupported_methods_never_match() {
    assert!(!method_matches("HEAD", "head"));
    assert!(!method_matches("OPTIONS", "OPTIONS"));
    let list = vec![entry("HEAD", "/h", 200, 0, "x")];
    assert_eq!(route("HEAD", "/h", &list).status, 404);
}

#[test]
fn method_matches_upper_checks_support_and_equality() {
    assert!(method_matches_upper("PUT", "PUT"));
    assert!(!method_matches_upper("put", "PUT"));
    assert!(!method_matches_upper("TRACE", "TRACE"));
}

#[test]
fn empty_registry_routes_to_not_found() {
    let list: Vec<Endpoint> = Vec::new();
    let r = route("GET", "/", &list);
    assert_eq!(r.status, 404);
    assert_eq!(r.delay_ms, 0);
    assert_eq!(find_endpoint("GET", "/", &list), None);
}

#[test]
fn later_entries_are_reached_when_earlier_ones_differ() {
    let list = vec![entry("GET", "/x", 200, 0, "getx"), entry("POST", "/x", 202, 0, "postx")];
    let r = route("POST", "/x", &list);
    assert_eq!(r.status, 202);
    assert_eq!(r.body, "postx");
}
