//! Tests for query-parameter construction and canonical rendering.

use onionoo::parameters::{
    as_list, date, days_range, fields_list, order_list, version_list, BoolValue, QueryParameters,
    TypeValue,
};

#[test]
fn test_query_parameters_empty() {
    let params = QueryParameters::new();
    assert_eq!(params.to_query_string(), "");
}

#[test]
fn test_query_parameters_single() {
    let params = QueryParameters::new().type_param(TypeValue::Relay);

    assert_eq!(params.to_query_string(), "?type=relay");
}

#[test]
fn test_query_parameters_multiple() {
    let params = QueryParameters::new()
        .type_param(TypeValue::Relay)
        .running(BoolValue::True)
        .country("US");

    let query = params.to_query_string();
    assert!(query.contains("type=relay"));
    assert!(query.contains("running=true"));
    assert!(query.contains("country=US"));
}

#[test]
fn test_days_range() {
    let range = days_range("7-14");
    assert_eq!(range.as_str(), "7-14");
}

#[test]
fn test_date() {
    let date = date("2023-10-27");
    assert_eq!(date.as_str(), "2023-10-27");
}

#[test]
fn test_type_value() {
    assert_eq!(TypeValue::Relay.as_str(), "relay");
    assert_eq!(TypeValue::Bridge.as_str(), "bridge");
}

#[test]
fn test_bool_value() {
    assert_eq!(BoolValue::True.as_str(), "true");
    assert_eq!(BoolValue::False.as_str(), "false");
}

#[test]
fn test_render_sorted_scenario() {
    let params = QueryParameters::new()
        .type_param(TypeValue::Relay)
        .running(BoolValue::True)
        .limit(3);
    assert_eq!(params.to_query_string(), "?limit=3&running=true&type=relay");
}

#[test]
fn test_render_deterministic_across_set_order() {
    let a = QueryParameters::new().type_param(TypeValue::Relay).limit(3);
    let b = QueryParameters::new().limit(3).type_param(TypeValue::Relay);
    assert_eq!(a.to_query_string(), "?limit=3&type=relay");
    assert_eq!(a.to_query_string(), b.to_query_string());
}

#[test]
fn test_render_twice_identical() {
    let params = QueryParameters::new()
        .search("tornode")
        .country("de")
        .offset(10)
        .limit(5);
    let first = params.to_query_string();
    let second = params.to_query_string();
    assert_eq!(first, second);
}

#[test]
fn test_unset_parameters_omitted() {
    let params = QueryParameters::new().country("US").limit(7);
    let query = params.to_query_string();
    assert_eq!(query, "?country=US&limit=7");
    for name in [
        "type", "running", "search", "lookup", "as", "as_name", "flag", "first_seen_days",
        "last_seen_days", "first_seen_since", "last_seen_since", "contact", "family", "version",
        "os", "host_name", "recommended_version", "fields", "order", "offset",
    ] {
        let mut pair_start = String::from(name);
        pair_start.push('=');
        assert!(!query.contains(&pair_start));
    }
}

#[test]
fn test_every_parameter_renders() {
    let params = QueryParameters::new()
        .type_param(TypeValue::Bridge)
        .running(BoolValue::False)
        .search("moria")
        .lookup("0011223344556677889900112233445566778899")
        .country("us")
        .as_param("AS24940")
        .as_name("Hetzner")
        .flag("Guard")
        .first_seen_days(days_range("7-14"))
        .last_seen_days(days_range("-3"))
        .first_seen_since(date("2024-01-01"))
        .last_seen_since(date("2024-06-01"))
        .contact("admin@example.org")
        .family("0011223344556677889900112233445566778899")
        .version(version_list("0.4.8.10,0.4.8.11"))
        .os("linux")
        .host_name(".example.org")
        .recommended_version(BoolValue::True)
        .fields(fields_list("nickname,fingerprint"))
        .order(order_list("consensus_weight,-first_seen"))
        .offset(20)
        .limit(100);
    let query = params.to_query_string();
    // The pairs must come out sorted byte-wise as whole strings; build the
    // expectation by sorting them the same way.
    let mut parts = vec![
        "as=AS24940",
        "as_name=Hetzner",
        "contact=admin@example.org",
        "country=us",
        "family=0011223344556677889900112233445566778899",
        "fields=nickname,fingerprint",
        "first_seen_days=7-14",
        "first_seen_since=2024-01-01",
        "flag=Guard",
        "host_name=.example.org",
        "last_seen_days=-3",
        "last_seen_since=2024-06-01",
        "limit=100",
        "lookup=0011223344556677889900112233445566778899",
        "order=consensus_weight,-first_seen",
        "os=linux",
        "offset=20",
        "recommended_version=true",
        "running=false",
        "search=moria",
        "type=bridge",
        "version=0.4.8.10,0.4.8.11",
    ];
    parts.sort();
    let mut expected = String::from("?");
    expected.push_str(&parts.join("&"));
    assert_eq!(query, expected);
    assert_eq!(query.matches('&').count(), 21);
}

#[test]
fn test_as_list_passthrough() {
    let l = as_list("AS1,AS2");
    assert_eq!(l.as_str(), "AS1,AS2");
}

#[test]
fn test_values_passed_verbatim() {
    let params = QueryParameters::new().search("key$word with space");
    assert_eq!(params.to_query_string(), "?search=key$word with space");
}
