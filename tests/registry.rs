use mock_server::{Endpoint, EndpointRegistry, RegistryEdit};

fn ids(r: &EndpointRegistry) -> Vec<String> {
    r.list().into_iter().map(|e| e.id).collect()
}

fn entry(id: &str, method: &str, path: &str, response: &str) -> Endpoint {
    Endpoint {
        id: id.to_string(),
        method: method.to_string(),
        path: path.to_string(),
        status: 200,
        delay: 0,
        response: response.to_string(),
    }
}

#[test]
fn add_returns_the_stored_endpoint_with_a_fresh_id() {
    let mut r = EndpointRegistry::new();
    let e = r.add("GET".to_string(), "/health".to_string(), "{}".to_string(), 201, 15);
    assert_eq!(e.id.len(), 36);
    assert_eq!(e.method, "GET");
    assert_eq!(e.path, "/health");
    assert_eq!(e.response, "{}");
    assert_eq!(e.status, 201);
    assert_eq!(e.delay, 15);
    let listed = r.list();
    assert_eq!(listed.len(), 1);
    assert_eq!(listed[0].id, e.id);
}

#[test]
fn ids_of_two_adds_differ() {
    let mut r = EndpointRegistry::new();
    let a = r.add("GET".to_string(), "/a".to_string(), "1".to_string(), 200, 0);
    let b = r.add("GET".to_string(), "/a".to_string(), "2".to_string(), 200, 0);
    assert_ne!(a.id, b.id);
}

#[test]
fn order_is_insertion_order_minus_deletions() {
    let mut r = EndpointRegistry::new();
    r.add_with_id("a".to_string(), "GET".to_string(), "/a".to_string(), "".to_string(), 200, 0);
    r.add_with_id("b".to_string(), "POST".to_string(), "/b".to_string(), "".to_string(), 200, 0);
    r.add_with_id("c".to_string(), "PUT".to_string(), "/c".to_string(), "".to_string(), 200, 0);
    r.delete("b");
    r.add_with_id("d".to_string(), "GET".to_string(), "/d".to_string(), "".to_string(), 200, 0);
    r.apply(RegistryEdit::Delete("a".to_string()));
    r.apply(RegistryEdit::Add(entry("e", "GET", "/e", "")));
    assert_eq!(ids(&r), vec!["c", "d", "e"]);
}

#[test]
fn delete_of_unknown_id_changes_nothing() {
    let mut r = EndpointRegistry::new();
    r.add_with_id("a".to_string(), "GET".to_string(), "/a".to_string(), "x".to_string(), 200, 0);
    r.add_with_id("b".to_string(), "GET".to_string(), "/b".to_string(), "y".to_string(), 200, 0);
    r.delete("zzz");
    assert_eq!(r.len(), 2);
    assert_eq!(ids(&r), vec!["a", "b"]);
}

#[test]
fn delete_on_empty_registry_is_fine() {
    let mut r = EndpointRegistry::new();
    r.delete("anything");
    assert_eq!(r.len(), 0);
}

#[test]
fn delete_removes_every_entry_with_the_id() {
    let mut r = EndpointRegistry::new();
    r.replace_all(vec![entry("x", "GET", "/1", ""), entry("y", "GET", "/2", ""), entry("x", "GET", "/3", "")]);
    r.delete("x");
    assert_eq!(ids(&r), vec!["y"]);
}

#[test]
fn replace_all_overwrites_the_list() {
    let mut r = EndpointRegistry::new();
    r.add_with_id("old".to_string(), "GET".to_string(), "/".to_string(), "".to_string(), 200, 0);
    r.replace_all(vec![entry("n1", "GET", "/1", "a"), entry("n2", "DELETE", "/2", "b")]);
    assert_eq!(ids(&r), vec!["n1", "n2"]);
    assert_eq!(r.list()[1].method, "DELETE");
}

#[test]
fn duplicate_keeps_every_field() {
    let e = Endpoint { id: "i".to_string(), method: "patch".to_string(), path: "/p".to_string(), status: 418, delay: 9, response: "r".to_string() };
    let d = e.duplicate();
    assert_eq!((d.id, d.method, d.path, d.status, d.delay, d.response), ("i".to_string(), "patch".to_string(), "/p".to_string(), 418, 9, "r".to_string()));
}

#[test]
fn adds_minus_deleted_ids() {
    let mut r = EndpointRegistry::new();
    let mut adds = Vec::new();
    for i in 0..5 {
        adds.push(r.add("GET".to_string(), format!("/p{}", i), "".to_string(), 200, 0));
    }
    r.delete(&adds[1].id);
    r.delete(&adds[3].id);
    r.delete("never-added");
    let expected: Vec<String> = adds
        .iter()
        .filter(|e| e.id != adds[1].id && e.id != adds[3].id)
        .map(|e| e.id.clone())
        .collect();
    assert_eq!(ids(&r), expected);
}
