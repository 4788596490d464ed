//! The upstream client configuration produced by the credential resolver.
//!
//! A configuration carries the resolved credential and, for the stateful
//! conversation endpoints, the one extra protocol-version header
//! `OpenAI-Beta: assistants=v2`. It is owned by the request being handled
//! and never reused across requests.

use vstd::prelude::*;
use vstd::string::StringExecFns;

use crate::credential::{
    auth_error_message, describe_auth_error, resolve_api_key, spec_resolve_api_key,
};
use crate::error::AppError;
use crate::headers::HeaderField;

verus! {

/// One outbound header attached to the upstream client configuration.
#[derive(Debug)]
pub struct ConfigHeader {
    pub name: String,
    pub value: String,
}

/// A ready-to-use upstream client configuration: the resolved credential and
/// the extra headers to send with every upstream call of the request.
#[derive(Debug)]
pub struct ClientConfig {
    pub api_key: String,
    pub extra_headers: Vec<ConfigHeader>,
}

/// The characters an ASCII byte sequence decodes to, one per byte.
pub open spec fn chars_of_bytes(s: Seq<u8>) -> Seq<char> {
    Seq::new(s.len(), |i: int| s[i] as char)
}

/// The name of the protocol-version header.
pub open spec fn spec_beta_header_name() -> Seq<char> {
    "OpenAI-Beta"@
}

/// The value of the protocol-version header.
pub open spec fn spec_beta_header_value() -> Seq<char> {
    "assistants=v2"@
}

/// The name of the protocol-version header, `OpenAI-Beta`.
pub fn beta_header_name() -> (r: String)
    ensures
        r@ == spec_beta_header_name(),
{
    String::from_str("OpenAI-Beta")
}

/// The value of the protocol-version header, `assistants=v2`.
pub fn beta_header_value() -> (r: String)
    ensures
        r@ == spec_beta_header_value(),
{
    String::from_str("assistants=v2")
}

/// Relies on `String::from_utf8`: ASCII bytes are valid UTF-8 and decode to
/// the characters with the same code points, one character per byte.
#[verifier::external_body]
pub(crate) fn ascii_to_string(v: Vec<u8>) -> (r: String)
    requires
        forall|i: int| 0 <= i < v@.len() ==> v@[i] < 128,
    ensures
        r@ == chars_of_bytes(v@),
{
    String::from_utf8(v).expect("ASCII bytes are valid UTF-8")
}

/// The name/value content of a list of outbound headers.
pub open spec fn config_header_views(headers: Seq<ConfigHeader>) -> Seq<(Seq<char>, Seq<char>)> {
    Seq::new(headers.len(), |i: int| (headers[i].name@, headers[i].value@))
}

/// What resolution guarantees: `r` is exactly what the resolver yields on
/// `headers` and `use_beta`. On success the configuration carries the
/// decoded credential and — only when the flag is set — the single
/// protocol-version header; on failure it carries the message of the
/// credential error that occurred.
pub open spec fn resolution_post(
    headers: Seq<HeaderField>,
    use_beta: bool,
    r: Result<ClientConfig, AppError>,
) -> bool {
    &&& r is Ok <==> spec_resolve_api_key(headers) is Ok
    &&& r matches Ok(cfg) ==> {
        &&& spec_resolve_api_key(headers) matches Ok(k) && cfg.api_key@ == chars_of_bytes(k)
        &&& use_beta ==> config_header_views(cfg.extra_headers@) == seq![
            (spec_beta_header_name(), spec_beta_header_value()),
        ]
        &&& !use_beta ==> cfg.extra_headers@.len() == 0
    }
    &&& r matches Err(e) ==> {
        spec_resolve_api_key(headers) matches Err(a) && e.0@ == auth_error_message(a)
    }
}

/// Derives the upstream client configuration for one request: resolves the
/// credential from the header fields and, when `use_beta` is set, attaches
/// the protocol-version header. Pure; no credential outlives the call.
pub fn resolve_client_config(headers: &Vec<HeaderField>, use_beta: bool) -> (r: Result<
    ClientConfig,
    AppError,
>)
    ensures
        resolution_post(headers@, use_beta, r),
{
    let key = match resolve_api_key(headers) {
        Ok(k) => k,
        Err(e) => {
            return Err(AppError(describe_auth_error(e)));
        },
    };
    proof {
        crate::credential::lemma_resolved_key_ascii(headers@, key@);
    }
    let api_key = ascii_to_string(key);
    let mut extra_headers: Vec<ConfigHeader> = Vec::new();
    if use_beta {
        extra_headers.push(
            ConfigHeader { name: beta_header_name(), value: beta_header_value() },
        );
        assert(config_header_views(extra_headers@) =~= seq![
            (spec_beta_header_name(), spec_beta_header_value()),
        ]);
    }
    Ok(ClientConfig { api_key, extra_headers })
}

/// Resolution is idempotent: it is a pure function of the header fields and
/// the flag, so two resolutions from identical inputs yield configurations
/// with identical credential and header content, or identical error
/// messages.
pub proof fn lemma_resolution_idempotent(
    headers: Seq<HeaderField>,
    use_beta: bool,
    r1: Result<ClientConfig, AppError>,
    r2: Result<ClientConfig, AppError>,
)
    requires
        resolution_post(headers, use_beta, r1),
        resolution_post(headers, use_beta, r2),
    ensures
        r1 is Ok <==> r2 is Ok,
        r1 matches Ok(c1) ==> r2 matches Ok(c2) ==> {
            &&& c1.api_key@ == c2.api_key@
            &&& config_header_views(c1.extra_headers@) == config_header_views(c2.extra_headers@)
        },
        r1 matches Err(e1) ==> r2 matches Err(e2) ==> e1.0@ == e2.0@,
{
    if r1 is Ok && r2 is Ok {
        let c1 = r1->Ok_0;
        let c2 = r2->Ok_0;
        if !use_beta {
            assert(config_header_views(c1.extra_headers@) =~= config_header_views(
                c2.extra_headers@,
            ));
        }
    }
}

} // verus!
