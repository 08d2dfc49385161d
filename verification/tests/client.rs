//! Tests for the error taxonomy, URL construction and status handling.

use onionoo::client::{build_url, check_status, ClientError};
use onionoo::parameters::{QueryParameters, TypeValue};

#[test]
fn test_error_display() {
    let error = ClientError::Other("test error".to_string());
    assert_eq!(error.message(), "Client error: test error");

    let error = ClientError::StatusCode(404, "Not Found".to_string());
    assert_eq!(error.message(), "HTTP 404: Not Found");
}

#[test]
fn test_error_messages_other_variants() {
    let error = ClientError::Request("connection refused".to_string());
    assert_eq!(error.message(), "HTTP request failed: connection refused");

    let error = ClientError::Deserialization("bad field".to_string());
    assert_eq!(error.message(), "JSON deserialization failed: bad field");

    let error = ClientError::UrlConstruction("no slash".to_string());
    assert_eq!(error.message(), "URL construction error: no slash");
}

#[test]
fn test_build_url_with_params() {
    let params = QueryParameters::new().type_param(TypeValue::Relay).limit(10);
    let url = build_url("https://onionoo.torproject.org", "/summary", &params).unwrap();
    assert_eq!(
        url,
        "https://onionoo.torproject.org/summary?limit=10&type=relay"
    );
}

#[test]
fn test_build_url_no_params() {
    let params = QueryParameters::new();
    let url = build_url("https://onionoo.torproject.org", "/details", &params).unwrap();
    assert_eq!(url, "https://onionoo.torproject.org/details");
}

#[test]
fn test_build_url_rejects_bad_path() {
    let params = QueryParameters::new();
    let r = build_url("https://onionoo.torproject.org", "summary", &params);
    assert!(matches!(r, Err(ClientError::UrlConstruction(_))));
    let r = build_url("https://onionoo.torproject.org", "", &params);
    assert!(matches!(r, Err(ClientError::UrlConstruction(_))));
}

#[test]
fn test_check_status_success() {
    let r = check_status(200, "body".to_string());
    assert_eq!(r.unwrap(), "body");
    let r = check_status(299, "x".to_string());
    assert!(r.is_ok());
}

#[test]
fn test_check_status_error_carries_code_and_body() {
    let r = check_status(404, "not found".to_string());
    match r {
        Err(ClientError::StatusCode(code, body)) => {
            assert_eq!(code, 404);
            assert_eq!(body, "not found");
        }
        _ => panic!("expected a status-code error"),
    }
    let r = check_status(500, "boom".to_string());
    assert!(matches!(r, Err(ClientError::StatusCode(500, _))));
}
