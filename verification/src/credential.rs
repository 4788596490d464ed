//! The credential resolver: extracting and validating the bearer credential
//! carried by an inbound request.
//!
//! The resolver is a pure function of the header fields. It looks up the
//! `Authorization` header case-insensitively, requires its value to be text,
//! strips a leading `Bearer ` or `bearer ` scheme marker (exactly those two
//! casings; anything else is kept verbatim), and rejects a credential that is
//! empty after stripping.

use vstd::prelude::*;
use vstd::string::StringExecFns;

use crate::headers::{spec_find_authorization, find_authorization, is_authorization_name, HeaderField};

verus! {

/// Why no credential could be resolved from a request's headers.
/// Each case is reported to the caller with its own message.
#[derive(Clone, Copy, Debug, PartialEq, Eq, Structural)]
pub enum AuthError {
    /// No `Authorization` header field is present, in any casing.
    MissingHeader,
    /// The `Authorization` value holds bytes that are not visible ASCII text.
    InvalidEncoding,
    /// The credential is empty once the scheme prefix is stripped.
    EmptyApiKey,
}

/// Whether a header value is representable as text: every byte is visible
/// ASCII, space or horizontal tab.
pub open spec fn is_header_text(v: Seq<u8>) -> bool {
    forall|i: int| 0 <= i < v.len() ==> (32 <= #[trigger] v[i] < 127 || v[i] == 9)
}

/// The scheme marker `Bearer ` (capital B, trailing space).
pub open spec fn bearer_prefix_upper() -> Seq<u8> {
    seq!['B' as u8, 'e' as u8, 'a' as u8, 'r' as u8, 'e' as u8, 'r' as u8, ' ' as u8]
}

/// The scheme marker `bearer ` (lower-case, trailing space).
pub open spec fn bearer_prefix_lower() -> Seq<u8> {
    seq!['b' as u8, 'e' as u8, 'a' as u8, 'r' as u8, 'e' as u8, 'r' as u8, ' ' as u8]
}

/// The credential a header value denotes: the value with a leading `Bearer `
/// or `bearer ` stripped, or the value itself when neither prefix is present.
/// `Bearer ` is tried first, as the resolver does. Other casings, such as
/// `BEARER `, are deliberately not recognized and pass through verbatim.
pub open spec fn strip_bearer(v: Seq<u8>) -> Seq<u8> {
    if bearer_prefix_upper().is_prefix_of(v) {
        v.skip(7)
    } else if bearer_prefix_lower().is_prefix_of(v) {
        v.skip(7)
    } else {
        v
    }
}

/// The resolver's result on a given header list: the credential bytes, or
/// the first error encountered in lookup, decoding and emptiness order.
pub open spec fn spec_resolve_api_key(headers: Seq<HeaderField>) -> Result<Seq<u8>, AuthError> {
    match spec_find_authorization(headers) {
        None => Err(AuthError::MissingHeader),
        Some(v) => if !is_header_text(v) {
            Err(AuthError::InvalidEncoding)
        } else if strip_bearer(v).len() == 0 {
            Err(AuthError::EmptyApiKey)
        } else {
            Ok(strip_bearer(v))
        },
    }
}

/// Whether every byte of `v` is visible ASCII, space or horizontal tab.
fn check_header_text(v: &Vec<u8>) -> (r: bool)
    ensures
        r == is_header_text(v@),
{
    let n = v.len();
    for i in 0..n
        invariant
            n == v@.len(),
            forall|j: int| 0 <= j < i ==> (32 <= #[trigger] v@[j] < 127 || v@[j] == 9),
    {
        let b = v[i];
        if !(32 <= b && b < 127 || b == 9) {
            return false;
        }
    }
    true
}

/// Whether `p` is a prefix of `v`.
fn has_prefix(v: &Vec<u8>, p: &Vec<u8>) -> (r: bool)
    ensures
        r == p@.is_prefix_of(v@),
{
    if p.len() > v.len() {
        return false;
    }
    let n = p.len();
    for i in 0..n
        invariant
            n == p@.len() <= v@.len(),
            forall|j: int| 0 <= j < i ==> p@[j] == v@[j],
    {
        if p[i] != v[i] {
            assert(p@[i as int] != v@.subrange(0, n as int)[i as int]);
            return false;
        }
    }
    assert(p@ =~= v@.subrange(0, n as int));
    true
}

/// The bytes of the scheme marker `Bearer `.
fn bearer_upper_bytes() -> (r: Vec<u8>)
    ensures
        r@ == bearer_prefix_upper(),
{
    let mut v: Vec<u8> = Vec::new();
    v.push('B' as u8);
    v.push('e' as u8);
    v.push('a' as u8);
    v.push('r' as u8);
    v.push('e' as u8);
    v.push('r' as u8);
    v.push(' ' as u8);
    assert(v@ =~= bearer_prefix_upper());
    v
}

/// The bytes of the scheme marker `bearer `.
fn bearer_lower_bytes() -> (r: Vec<u8>)
    ensures
        r@ == bearer_prefix_lower(),
{
    let mut v: Vec<u8> = Vec::new();
    v.push('b' as u8);
    v.push('e' as u8);
    v.push('a' as u8);
    v.push('r' as u8);
    v.push('e' as u8);
    v.push('r' as u8);
    v.push(' ' as u8);
    assert(v@ =~= bearer_prefix_lower());
    v
}

/// The suffix of `v` from position `from` on, as a fresh vector.
fn tail_bytes(v: &Vec<u8>, from: usize) -> (r: Vec<u8>)
    requires
        from <= v@.len(),
    ensures
        r@ == v@.skip(from as int),
{
    let mut r: Vec<u8> = Vec::new();
    let n = v.len();
    for i in from..n
        invariant
            from <= i <= n == v@.len(),
            r@ =~= v@.subrange(from as int, i as int),
    {
        r.push(v[i]);
    }
    assert(r@ =~= v@.skip(from as int));
    r
}

/// Strips a recognized scheme marker from a header value, yielding the
/// credential bytes it denotes.
pub fn extract_api_key(value: &Vec<u8>) -> (r: Vec<u8>)
    ensures
        r@ == strip_bearer(value@),
{
    let upper = bearer_upper_bytes();
    if has_prefix(value, &upper) {
        return tail_bytes(value, 7);
    }
    let lower = bearer_lower_bytes();
    if has_prefix(value, &lower) {
        return tail_bytes(value, 7);
    }
    let mut r: Vec<u8> = Vec::new();
    let n = value.len();
    for i in 0..n
        invariant
            n == value@.len(),
            r@ =~= value@.subrange(0, i as int),
    {
        r.push(value[i]);
    }
    assert(r@ =~= value@);
    r
}

/// Law: whenever the `Authorization` value found is `Bearer ` followed by a
/// non-empty suffix `x` of text, resolution succeeds and the credential is
/// exactly `x`.
pub proof fn lemma_bearer_scheme_stripped(headers: Seq<HeaderField>, x: Seq<u8>)
    requires
        spec_find_authorization(headers) == Some(bearer_prefix_upper() + x),
        x.len() > 0,
        is_header_text(bearer_prefix_upper() + x),
    ensures
        spec_resolve_api_key(headers) == Ok::<Seq<u8>, AuthError>(x),
{
    let v = bearer_prefix_upper() + x;
    assert((v.subrange(0, 7)) =~= bearer_prefix_upper());
    assert(bearer_prefix_upper().is_prefix_of(v));
    assert(v.skip(7) =~= x);
}

/// Law: the lower-case scheme marker `bearer ` is treated identically to
/// `Bearer `: a non-empty text suffix `x` resolves to exactly `x`.
pub proof fn lemma_lowercase_scheme_stripped(headers: Seq<HeaderField>, x: Seq<u8>)
    requires
        spec_find_authorization(headers) == Some(bearer_prefix_lower() + x),
        x.len() > 0,
        is_header_text(bearer_prefix_lower() + x),
    ensures
        spec_resolve_api_key(headers) == Ok::<Seq<u8>, AuthError>(x),
{
    let v = bearer_prefix_lower() + x;
    assert(v[0] == 'b' as u8);
    assert(!bearer_prefix_upper().is_prefix_of(v)) by {
        assert(bearer_prefix_upper()[0] == 'B' as u8);
    }
    assert((v.subrange(0, 7)) =~= bearer_prefix_lower());
    assert(bearer_prefix_lower().is_prefix_of(v));
    assert(v.skip(7) =~= x);
}

/// Law: a value of exactly `Bearer ` — the scheme marker with nothing after
/// it — leaves an empty credential and is rejected as empty.
pub proof fn lemma_bare_scheme_rejected(headers: Seq<HeaderField>)
    requires
        spec_find_authorization(headers) == Some(bearer_prefix_upper()),
    ensures
        spec_resolve_api_key(headers) == Err::<Seq<u8>, AuthError>(AuthError::EmptyApiKey),
{
    let v = bearer_prefix_upper();
    assert(is_header_text(v)) by {
        assert forall|i: int| 0 <= i < v.len() implies (32 <= #[trigger] v[i] < 127 || v[i] == 9)
        by {
            assert(v[0] == 'B' as u8);
            assert(v[1] == 'e' as u8);
            assert(v[2] == 'a' as u8);
            assert(v[3] == 'r' as u8);
            assert(v[4] == 'e' as u8);
            assert(v[5] == 'r' as u8);
            assert(v[6] == ' ' as u8);
        }
    }
    assert((v.subrange(0, 7)) =~= v);
    assert(bearer_prefix_upper().is_prefix_of(v));
    assert(v.skip(7).len() == 0);
}

/// Law: a text value that starts with neither `Bearer ` nor `bearer ` — for
/// instance one with the unrecognized casing `BEARER `, or a raw key with no
/// scheme marker at all — passes through verbatim as the credential.
pub proof fn lemma_raw_value_passthrough(headers: Seq<HeaderField>, v: Seq<u8>)
    requires
        spec_find_authorization(headers) == Some(v),
        is_header_text(v),
        !bearer_prefix_upper().is_prefix_of(v),
        !bearer_prefix_lower().is_prefix_of(v),
        v.len() > 0,
    ensures
        spec_resolve_api_key(headers) == Ok::<Seq<u8>, AuthError>(v),
{
}

/// Law: when no header field is named `Authorization` in any casing,
/// resolution fails with the missing-header error — so no upstream call can
/// be configured, let alone attempted.
pub proof fn lemma_missing_header(headers: Seq<HeaderField>)
    requires
        forall|i: int|
            0 <= i < headers.len() ==> !is_authorization_name(#[trigger] headers[i].name@),
    ensures
        spec_resolve_api_key(headers) == Err::<Seq<u8>, AuthError>(AuthError::MissingHeader),
    decreases headers.len(),
{
    if headers.len() > 0 {
        assert(forall|i: int|
            0 <= i < headers.drop_first().len() ==> !is_authorization_name(
                #[trigger] headers.drop_first()[i].name@,
            ));
        lemma_missing_header(headers.drop_first());
    }
}

/// The message with which each credential error is reported.
pub open spec fn auth_error_message(e: AuthError) -> Seq<char> {
    match e {
        AuthError::MissingHeader => "Authorization header not found"@,
        AuthError::InvalidEncoding => "Invalid Authorization header format"@,
        AuthError::EmptyApiKey => "API key is empty"@,
    }
}

/// The message with which a credential error is reported.
pub fn describe_auth_error(e: AuthError) -> (r: String)
    ensures
        r@ == auth_error_message(e),
{
    match e {
        AuthError::MissingHeader => String::from_str("Authorization header not found"),
        AuthError::InvalidEncoding => String::from_str("Invalid Authorization header format"),
        AuthError::EmptyApiKey => String::from_str("API key is empty"),
    }
}

/// A resolved credential is ASCII: it is a suffix of a header value whose
/// bytes were all checked to be visible ASCII, space or tab.
pub(crate) proof fn lemma_resolved_key_ascii(headers: Seq<HeaderField>, k: Seq<u8>)
    requires
        spec_resolve_api_key(headers) == Ok::<Seq<u8>, AuthError>(k),
    ensures
        forall|i: int| 0 <= i < k.len() ==> k[i] < 128,
{
    match spec_find_authorization(headers) {
        Some(v) => {
            assert(is_header_text(v));
            assert(k == strip_bearer(v));
            assert forall|i: int| 0 <= i < k.len() implies k[i] < 128 by {
                if bearer_prefix_upper().is_prefix_of(v) || bearer_prefix_lower().is_prefix_of(v) {
                    assert(k[i] == v[i + 7]);
                } else {
                    assert(k[i] == v[i]);
                }
            }
        },
        None => {},
    }
}

/// Resolves the credential carried by a request's header fields.
///
/// Succeeds exactly when an `Authorization` field is present (any casing of
/// the name), its value is text, and the credential left after stripping a
/// `Bearer ` / `bearer ` marker is non-empty; the credential is then those
/// remaining bytes. Pure: the result is a function of the header fields
/// alone, and nothing is retained.
pub fn resolve_api_key(headers: &Vec<HeaderField>) -> (r: Result<Vec<u8>, AuthError>)
    ensures
        r is Ok <==> spec_resolve_api_key(headers@) is Ok,
        r matches Ok(k) ==> spec_resolve_api_key(headers@) == Ok::<Seq<u8>, AuthError>(k@),
        r matches Err(e) ==> spec_resolve_api_key(headers@) == Err::<Seq<u8>, AuthError>(e),
{
    let value = match find_authorization(headers) {
        Some(v) => v,
        None => {
            return Err(AuthError::MissingHeader);
        },
    };
    if !check_header_text(value) {
        return Err(AuthError::InvalidEncoding);
    }
    let key = extract_api_key(value);
    if key.len() == 0 {
        return Err(AuthError::EmptyApiKey);
    }
    Ok(key)
}

} // verus!
