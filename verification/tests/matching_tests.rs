use twin_discovery::matching::{find_endpoint, is_subset};
use twin_discovery::model::EndpointInfo;

fn names(items: &[&str]) -> Vec<String> {
    items.iter().map(|item| item.to_string()).collect()
}

fn endpoint(uri: &str, protocol: &str, operations: &[&str]) -> EndpointInfo {
    EndpointInfo { uri: uri.to_string(), protocol: protocol.to_string(), operations: names(operations) }
}

#[test]
fn empty_subset_is_subset_of_anything() {
    assert!(is_subset(&names(&[]), &names(&[])));
    assert!(is_subset(&names(&[]), &names(&["get"])));
    assert!(is_subset(&names(&[]), &names(&["get", "set", "invoke"])));
}

#[test]
fn only_empty_subset_fits_empty_superset() {
    assert!(is_subset(&names(&[]), &names(&[])));
    assert!(!is_subset(&names(&["get"]), &names(&[])));
    assert!(!is_subset(&names(&[""]), &names(&[])));
}

#[test]
fn subset_holds_when_every_member_occurs() {
    assert!(is_subset(&names(&["get"]), &names(&["get", "set"])));
    assert!(is_subset(&names(&["set", "get"]), &names(&["get", "set"])));
    assert!(is_subset(&names(&["get", "set"]), &names(&["subscribe", "set", "get"])));
}

#[test]
fn subset_fails_when_one_member_is_missing() {
    assert!(!is_subset(&names(&["get", "invoke"]), &names(&["get", "set"])));
    assert!(!is_subset(&names(&["invoke"]), &names(&["get", "set"])));
}

#[test]
fn subset_tolerates_repeated_members() {
    assert!(is_subset(&names(&["get", "get", "get"]), &names(&["get"])));
    assert!(is_subset(&names(&["get"]), &names(&["get", "get"])));
    assert!(!is_subset(&names(&["get", "set", "get"]), &names(&["get", "get"])));
}

#[test]
fn subset_compares_by_exact_string_equality() {
    assert!(!is_subset(&names(&["Get"]), &names(&["get"])));
    assert!(!is_subset(&names(&["get "]), &names(&["get"])));
    assert!(!is_subset(&names(&["ge"]), &names(&["get"])));
    assert!(!is_subset(&names(&["get"]), &names(&["getter"])));
    assert!(is_subset(&names(&["gët"]), &names(&["get", "gët"])));
}

#[test]
fn find_endpoint_takes_the_first_that_qualifies() {
    let endpoints = vec![
        endpoint("http://a", "grpc", &["get"]),
        endpoint("http://b", "grpc", &["get", "set"]),
    ];
    assert_eq!(find_endpoint(&endpoints, "grpc", &names(&["get"])), Some(0));
    assert_eq!(find_endpoint(&endpoints, "grpc", &names(&["get", "set"])), Some(1));
    assert_eq!(find_endpoint(&endpoints, "grpc", &names(&["set"])), Some(1));
    assert_eq!(find_endpoint(&endpoints, "grpc", &names(&[])), Some(0));
}

#[test]
fn find_endpoint_needs_protocol_and_operations() {
    let endpoints = vec![
        endpoint("http://a", "mqtt", &["get", "set"]),
        endpoint("http://b", "grpc", &["get"]),
        endpoint("http://c", "grpc", &["get", "set"]),
    ];
    assert_eq!(find_endpoint(&endpoints, "grpc", &names(&["set", "get"])), Some(2));
    assert_eq!(find_endpoint(&endpoints, "mqtt", &names(&["get"])), Some(0));
    assert_eq!(find_endpoint(&endpoints, "http", &names(&["get"])), None);
    assert_eq!(find_endpoint(&endpoints, "grpc", &names(&["invoke"])), None);
    assert_eq!(find_endpoint(&endpoints, "GRPC", &names(&["get"])), None);
}

#[test]
fn find_endpoint_in_empty_list_finds_nothing() {
    let endpoints: Vec<EndpointInfo> = Vec::new();
    assert_eq!(find_endpoint(&endpoints, "grpc", &names(&[])), None);
    assert_eq!(find_endpoint(&endpoints, "grpc", &names(&["get"])), None);
}
