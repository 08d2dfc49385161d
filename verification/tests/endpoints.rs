//! Tests for the endpoint catalog.

use onionoo::endpoints::{
    all_endpoints, bridge_only_endpoints, find_by_name, relay_bridge_endpoints,
    relay_only_endpoints, Endpoint, ResponseType, BASE_URL,
};

#[test]
fn test_endpoint_paths() {
    assert_eq!(Endpoint::Summary.path(), "/summary");
    assert_eq!(Endpoint::Details.path(), "/details");
    assert_eq!(Endpoint::Bandwidth.path(), "/bandwidth");
    assert_eq!(Endpoint::Weights.path(), "/weights");
    assert_eq!(Endpoint::Clients.path(), "/clients");
    assert_eq!(Endpoint::Uptime.path(), "/uptime");
}

#[test]
fn test_endpoint_names() {
    assert_eq!(Endpoint::Summary.name(), "summary");
    assert_eq!(Endpoint::Details.name(), "details");
    assert_eq!(Endpoint::Bandwidth.name(), "bandwidth");
    assert_eq!(Endpoint::Weights.name(), "weights");
    assert_eq!(Endpoint::Clients.name(), "clients");
    assert_eq!(Endpoint::Uptime.name(), "uptime");
}

#[test]
fn test_endpoint_method_is_get() {
    for e in all_endpoints() {
        assert_eq!(e.method(), "GET");
    }
}

#[test]
fn test_endpoint_url() {
    assert_eq!(BASE_URL, "https://onionoo.torproject.org");
    assert_eq!(
        Endpoint::Details.url(),
        "https://onionoo.torproject.org/details"
    );
}

#[test]
fn test_endpoint_response_types() {
    assert!(matches!(
        Endpoint::Summary.response_type(),
        ResponseType::Summary
    ));
    assert!(matches!(
        Endpoint::Weights.response_type(),
        ResponseType::Weights
    ));
    assert!(matches!(
        Endpoint::Clients.response_type(),
        ResponseType::Clients
    ));
}

#[test]
fn test_endpoint_groupings() {
    assert_eq!(all_endpoints().len(), 6);
    let both = relay_bridge_endpoints();
    assert_eq!(both.len(), 4);
    assert_eq!(both[0], Endpoint::Summary);
    assert_eq!(both[1], Endpoint::Details);
    assert_eq!(both[2], Endpoint::Bandwidth);
    assert_eq!(both[3], Endpoint::Uptime);
    let relay_only = relay_only_endpoints();
    assert_eq!(relay_only.len(), 1);
    assert_eq!(relay_only[0], Endpoint::Weights);
    let bridge_only = bridge_only_endpoints();
    assert_eq!(bridge_only.len(), 1);
    assert_eq!(bridge_only[0], Endpoint::Clients);
}

#[test]
fn test_find_by_name_case_insensitive() {
    assert_eq!(find_by_name("summary"), Some(Endpoint::Summary));
    assert_eq!(find_by_name("SUMMARY"), Some(Endpoint::Summary));
    assert_eq!(find_by_name("Details"), Some(Endpoint::Details));
    assert_eq!(find_by_name("bAnDwIdTh"), Some(Endpoint::Bandwidth));
    assert_eq!(find_by_name("WEIGHTS"), Some(Endpoint::Weights));
    assert_eq!(find_by_name("clients"), Some(Endpoint::Clients));
    assert_eq!(find_by_name("Uptime"), Some(Endpoint::Uptime));
    assert_eq!(find_by_name("unknown"), None);
    assert_eq!(find_by_name(""), None);
}
