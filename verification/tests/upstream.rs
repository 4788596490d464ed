//! The upstream SDK configuration built for concrete requests, inspected
//! through the SDK itself.

use async_openai::config::Config;
use openai_proxy::error::AppError;
use openai_proxy::families::{requires_beta, resolve_for_family, ApiFamily};
use openai_proxy::headers::HeaderField;
use openai_proxy::openai::create_client_from_headers;

fn field(name: &str, value: &[u8]) -> HeaderField {
    HeaderField { name: name.as_bytes().to_vec(), value: value.to_vec() }
}

#[test]
fn chat_request_sends_credential_and_no_beta_header() {
    let headers = vec![field("Authorization", b"Bearer sk-test")];
    let config = create_client_from_headers(&headers, requires_beta(ApiFamily::Completions))
        .unwrap();
    let sent = config.headers();
    assert_eq!(sent.get("authorization").unwrap(), "Bearer sk-test");
    assert!(sent.get("openai-beta").is_none());
}

#[test]
fn assistants_request_sends_protocol_version_header() {
    let headers = vec![field("authorization", b"sk-test")];
    let config = create_client_from_headers(&headers, requires_beta(ApiFamily::Assistants))
        .unwrap();
    let sent = config.headers();
    assert_eq!(sent.get("authorization").unwrap(), "Bearer sk-test");
    assert_eq!(sent.get("openai-beta").unwrap(), "assistants=v2");
}

#[test]
fn credential_failure_yields_no_client_configuration() {
    let headers = vec![field("Accept", b"application/json")];
    let err = create_client_from_headers(&headers, false).unwrap_err();
    assert_eq!(err.0, "Authorization header not found");
}

#[test]
fn only_the_stateful_conversation_families_use_beta() {
    let beta = [ApiFamily::Assistants, ApiFamily::Threads, ApiFamily::Messages, ApiFamily::Runs];
    let plain = [
        ApiFamily::Completions,
        ApiFamily::Embeddings,
        ApiFamily::Models,
        ApiFamily::Images,
        ApiFamily::Files,
        ApiFamily::Responses,
    ];
    for family in beta {
        assert!(requires_beta(family));
    }
    for family in plain {
        assert!(!requires_beta(family));
    }
}

#[test]
fn per_family_resolution_attaches_the_right_headers() {
    let headers = vec![field("Authorization", b"Bearer sk-test")];
    let threads = resolve_for_family(ApiFamily::Threads, &headers).unwrap();
    assert_eq!(threads.extra_headers.len(), 1);
    assert_eq!(threads.extra_headers[0].name, "OpenAI-Beta");
    let files = resolve_for_family(ApiFamily::Files, &headers).unwrap();
    assert_eq!(files.extra_headers.len(), 0);
    assert_eq!(files.api_key, "sk-test");
}

#[test]
fn app_error_wraps_a_message() {
    let err = AppError::from(String::from("upstream failed"));
    assert_eq!(err.message(), "upstream failed");
    assert_eq!(err.0, "upstream failed");
}
