//! Behaviour of the credential resolver on concrete requests.

use openai_proxy::config::resolve_client_config;
use openai_proxy::credential::{resolve_api_key, AuthError};
use openai_proxy::headers::HeaderField;
use openai_proxy::health_check;

fn field(name: &str, value: &[u8]) -> HeaderField {
    HeaderField { name: name.as_bytes().to_vec(), value: value.to_vec() }
}

#[test]
fn bearer_scheme_is_stripped() {
    let headers = vec![field("Authorization", b"Bearer sk-test")];
    let key = resolve_api_key(&headers).unwrap();
    assert_eq!(key, b"sk-test".to_vec());
}

#[test]
fn lowercase_bearer_scheme_is_stripped() {
    let headers = vec![field("Authorization", b"bearer sk-test")];
    let key = resolve_api_key(&headers).unwrap();
    assert_eq!(key, b"sk-test".to_vec());
}

#[test]
fn bare_scheme_marker_is_rejected_as_empty() {
    let headers = vec![field("Authorization", b"Bearer ")];
    let err = resolve_api_key(&headers).unwrap_err();
    assert_eq!(err, AuthError::EmptyApiKey);
}

#[test]
fn uppercase_scheme_is_passed_through_verbatim() {
    let headers = vec![field("Authorization", b"BEARER X")];
    let key = resolve_api_key(&headers).unwrap();
    assert_eq!(key, b"BEARER X".to_vec());
}

#[test]
fn raw_key_without_scheme_is_accepted() {
    let headers = vec![field("Authorization", b"sk-test")];
    let key = resolve_api_key(&headers).unwrap();
    assert_eq!(key, b"sk-test".to_vec());
}

#[test]
fn missing_header_is_reported() {
    let headers = vec![field("Content-Type", b"application/json")];
    let err = resolve_api_key(&headers).unwrap_err();
    assert_eq!(err, AuthError::MissingHeader);
}

#[test]
fn header_name_lookup_is_case_insensitive() {
    for name in ["authorization", "AUTHORIZATION", "AuThOrIzAtIoN"] {
        let headers = vec![field(name, b"Bearer sk-test")];
        let key = resolve_api_key(&headers).unwrap();
        assert_eq!(key, b"sk-test".to_vec());
    }
}

#[test]
fn first_authorization_field_wins() {
    let headers = vec![
        field("authorization", b"Bearer first"),
        field("Authorization", b"Bearer second"),
    ];
    let key = resolve_api_key(&headers).unwrap();
    assert_eq!(key, b"first".to_vec());
}

#[test]
fn non_text_value_is_rejected() {
    let headers = vec![field("Authorization", &[0x42, 0xff, 0x43])];
    let err = resolve_api_key(&headers).unwrap_err();
    assert_eq!(err, AuthError::InvalidEncoding);
}

#[test]
fn empty_raw_value_is_rejected_as_empty() {
    let headers = vec![field("Authorization", b"")];
    let err = resolve_api_key(&headers).unwrap_err();
    assert_eq!(err, AuthError::EmptyApiKey);
}

#[test]
fn beta_flag_attaches_protocol_version_header() {
    let headers = vec![field("Authorization", b"Bearer sk-test")];
    let cfg = resolve_client_config(&headers, true).unwrap();
    assert_eq!(cfg.api_key, "sk-test");
    assert_eq!(cfg.extra_headers.len(), 1);
    assert_eq!(cfg.extra_headers[0].name, "OpenAI-Beta");
    assert_eq!(cfg.extra_headers[0].value, "assistants=v2");
}

#[test]
fn without_beta_flag_no_extra_header() {
    let headers = vec![field("Authorization", b"Bearer sk-test")];
    let cfg = resolve_client_config(&headers, false).unwrap();
    assert_eq!(cfg.api_key, "sk-test");
    assert_eq!(cfg.extra_headers.len(), 0);
}

#[test]
fn resolution_error_messages_are_distinguishable() {
    let missing = resolve_client_config(&Vec::new(), false).unwrap_err();
    assert_eq!(missing.0, "Authorization header not found");

    let headers = vec![field("Authorization", &[0xff])];
    let encoding = resolve_client_config(&headers, false).unwrap_err();
    assert_eq!(encoding.0, "Invalid Authorization header format");

    let headers = vec![field("Authorization", b"bearer ")];
    let empty = resolve_client_config(&headers, false).unwrap_err();
    assert_eq!(empty.0, "API key is empty");
}

#[test]
fn resolution_is_idempotent() {
    let headers = vec![field("Authorization", b"Bearer sk-test")];
    for beta in [false, true] {
        let first = resolve_client_config(&headers, beta).unwrap();
        let second = resolve_client_config(&headers, beta).unwrap();
        assert_eq!(first.api_key, second.api_key);
        assert_eq!(first.extra_headers.len(), second.extra_headers.len());
        for (a, b) in first.extra_headers.iter().zip(second.extra_headers.iter()) {
            assert_eq!(a.name, b.name);
            assert_eq!(a.value, b.value);
        }
    }
}

#[test]
fn health_route_reports_liveness() {
    assert_eq!(health_check(), "OpenAI API Server is running");
}
