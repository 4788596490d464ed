//! Construction of the upstream SDK client from a resolved credential.
//!
//! The proxy hands every upstream call to the `async_openai` SDK. The SDK's
//! configuration and client types are opaque here; what a configuration
//! carries — its key and its custom headers — is named abstractly, and each
//! builder call is trusted with a contract matching the SDK's source.

use vstd::prelude::*;
use vstd::string::StringExecFns;

use async_openai::config::OpenAIConfig;
use async_openai::error::OpenAIError;

use crate::config::{chars_of_bytes, spec_beta_header_name, spec_beta_header_value};
use crate::credential::{
    auth_error_message, describe_auth_error, lemma_resolved_key_ascii, resolve_api_key,
    spec_resolve_api_key,
};
use crate::error::AppError;
use crate::headers::HeaderField;

verus! {

/// The SDK's configuration for the OpenAI service.
#[verifier::external_type_specification]
#[verifier::external_body]
pub struct ExOpenAIConfig(OpenAIConfig);

/// The SDK's error type.
#[verifier::external_type_specification]
#[verifier::external_body]
pub struct ExOpenAIError(OpenAIError);

/// The API key a configuration carries.
pub uninterp spec fn config_api_key(c: OpenAIConfig) -> Seq<char>;

/// The custom headers a configuration carries, keyed by lower-cased name.
pub uninterp spec fn config_custom_headers(c: OpenAIConfig) -> Map<Seq<char>, Seq<char>>;

/// ASCII lower-casing of one character.
pub open spec fn lower_char(ch: char) -> char {
    if ('A' as u32) <= (ch as u32) && (ch as u32) <= ('Z' as u32) {
        (((ch as u32) + 32) as u8) as char
    } else {
        ch
    }
}

/// ASCII lower-casing of a character sequence.
pub open spec fn lower_chars(s: Seq<char>) -> Seq<char> {
    Seq::new(s.len(), |i: int| lower_char(s[i]))
}

/// Whether a character is admitted in a header name handed to the SDK: a
/// conservative subset of what HTTP allows, so the call cannot reject or
/// abort on the name.
pub open spec fn is_safe_header_name_char(ch: char) -> bool {
    ||| ('a' as u32) <= (ch as u32) && (ch as u32) <= ('z' as u32)
    ||| ('A' as u32) <= (ch as u32) && (ch as u32) <= ('Z' as u32)
    ||| ('0' as u32) <= (ch as u32) && (ch as u32) <= ('9' as u32)
    ||| ch == '-'
}

/// Whether a character may stand in a header value: visible ASCII or space.
pub open spec fn is_visible_ascii_char(ch: char) -> bool {
    32 <= (ch as u32) && (ch as u32) < 127
}

/// No custom headers at all.
pub open spec fn no_custom_headers() -> Map<Seq<char>, Seq<char>> {
    Map::empty()
}

/// Relies on `OpenAIConfig::new` and `OpenAIConfig::with_api_key`: a fresh
/// configuration carries no custom headers, and `with_api_key` replaces its
/// key with the given one and changes nothing else. (The fresh
/// configuration's base URL may be drawn from the process environment and
/// is left unspecified.)
#[verifier::external_body]
fn openai_config_with_api_key(api_key: &str) -> (r: OpenAIConfig)
    ensures
        config_api_key(r) == api_key@,
        config_custom_headers(r) == no_custom_headers(),
{
    OpenAIConfig::new().with_api_key(api_key)
}

/// Relies on `OpenAIConfig::with_header`: on success the header joins the
/// configuration's custom headers under its lower-cased name, replacing any
/// earlier value, and nothing else changes; a value of visible ASCII is
/// always accepted. The name must come from the safe character set: the
/// call aborts on an invalid static header name.
#[verifier::external_body]
fn openai_config_with_header(c: OpenAIConfig, name: &'static str, value: &str) -> (r: Result<
    OpenAIConfig,
    OpenAIError,
>)
    requires
        0 < name@.len() <= 64,
        forall|i: int| 0 <= i < name@.len() ==> is_safe_header_name_char(#[trigger] name@[i]),
    ensures
        (forall|i: int|
            0 <= i < value@.len() ==> is_visible_ascii_char(#[trigger] value@[i])) ==> r is Ok,
        r matches Ok(c2) ==> {
            &&& config_api_key(c2) == config_api_key(c)
            &&& config_custom_headers(c2) == config_custom_headers(c).insert(
                lower_chars(name@),
                value@,
            )
        },
{
    c.with_header(name, value)
}

/// The custom headers a request's client must carry when the
/// protocol-version flag is set: exactly the one `OpenAI-Beta` header.
pub open spec fn beta_headers_only() -> Map<Seq<char>, Seq<char>> {
    Map::<Seq<char>, Seq<char>>::empty().insert(
        lower_chars(spec_beta_header_name()),
        spec_beta_header_value(),
    )
}

/// Extracts the caller's credential from the inbound headers and builds the
/// upstream SDK configuration carrying it — plus, when `use_beta` is set,
/// the protocol-version header `OpenAI-Beta: assistants=v2`. The caller
/// wraps the result in the SDK client for the one upstream call of the
/// request. Succeeds exactly when the credential resolves; on failure the
/// credential error is surfaced and nothing exists to call upstream with.
pub fn create_client_from_headers(headers: &Vec<HeaderField>, use_beta: bool) -> (r: Result<
    OpenAIConfig,
    AppError,
>)
    ensures
        r is Ok <==> spec_resolve_api_key(headers@) is Ok,
        r matches Ok(client) ==> {
            &&& spec_resolve_api_key(headers@) matches Ok(k) && config_api_key(client)
                == chars_of_bytes(k)
            &&& use_beta ==> config_custom_headers(client) == beta_headers_only()
            &&& !use_beta ==> config_custom_headers(client) == no_custom_headers()
        },
        r matches Err(e) ==> {
            spec_resolve_api_key(headers@) matches Err(a) && e.0@ == auth_error_message(a)
        },
{
    let key = match resolve_api_key(headers) {
        Ok(k) => k,
        Err(e) => {
            return Err(AppError(describe_auth_error(e)));
        },
    };
    proof {
        lemma_resolved_key_ascii(headers@, key@);
    }
    let api_key = crate::config::ascii_to_string(key);
    let mut config = openai_config_with_api_key(api_key.as_str());
    if use_beta {
        proof {
            reveal_strlit("OpenAI-Beta");
            assert forall|i: int|
                0 <= i < "OpenAI-Beta"@.len() implies is_safe_header_name_char(
                #[trigger] "OpenAI-Beta"@[i],
            ) by {
                assert("OpenAI-Beta"@[0] == 'O');
                assert("OpenAI-Beta"@[1] == 'p');
                assert("OpenAI-Beta"@[2] == 'e');
                assert("OpenAI-Beta"@[3] == 'n');
                assert("OpenAI-Beta"@[4] == 'A');
                assert("OpenAI-Beta"@[5] == 'I');
                assert("OpenAI-Beta"@[6] == '-');
                assert("OpenAI-Beta"@[7] == 'B');
                assert("OpenAI-Beta"@[8] == 'e');
                assert("OpenAI-Beta"@[9] == 't');
                assert("OpenAI-Beta"@[10] == 'a');
            }
            reveal_strlit("assistants=v2");
            assert forall|i: int|
                0 <= i < "assistants=v2"@.len() implies is_visible_ascii_char(
                #[trigger] "assistants=v2"@[i],
            ) by {
                assert("assistants=v2"@[0] == 'a');
                assert("assistants=v2"@[1] == 's');
                assert("assistants=v2"@[2] == 's');
                assert("assistants=v2"@[3] == 'i');
                assert("assistants=v2"@[4] == 's');
                assert("assistants=v2"@[5] == 't');
                assert("assistants=v2"@[6] == 'a');
                assert("assistants=v2"@[7] == 'n');
                assert("assistants=v2"@[8] == 't');
                assert("assistants=v2"@[9] == 's');
                assert("assistants=v2"@[10] == '=');
                assert("assistants=v2"@[11] == 'v');
                assert("assistants=v2"@[12] == '2');
            }
        }
        config = match openai_config_with_header(config, "OpenAI-Beta", "assistants=v2") {
            Ok(c) => c,
            Err(_) => {
                // The fixed header is always accepted; this arm cannot run.
                proof {
                    assert(false);
                }
                return Err(AppError(String::from_str("Invalid protocol-version header")));
            },
        };
        proof {
            assert(config_custom_headers(config) =~= beta_headers_only());
        }
    }
    Ok(config)
}

} // verus!
