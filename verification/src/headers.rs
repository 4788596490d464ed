//! Inbound request headers, modelled as an ordered list of name/value pairs.
//!
//! Header values are raw bytes: HTTP does not require them to be text, and
//! the credential resolver must reject values that are not. Header names are
//! matched case-insensitively, as HTTP requires.

use vstd::prelude::*;

verus! {

/// One inbound header field: a name and a raw byte value.
#[derive(Debug)]
pub struct HeaderField {
    pub name: Vec<u8>,
    pub value: Vec<u8>,
}

impl HeaderField {
    pub fn new(name: Vec<u8>, value: Vec<u8>) -> (r: HeaderField)
        ensures
            r.name@ == name@,
            r.value@ == value@,
    {
        HeaderField { name, value }
    }
}

/// ASCII lower-casing of one byte.
pub open spec fn ascii_lower(b: u8) -> u8 {
    if 'A' as u8 <= b <= 'Z' as u8 {
        (b + 32) as u8
    } else {
        b
    }
}

/// ASCII lower-casing of a byte sequence.
pub open spec fn ascii_lower_bytes(s: Seq<u8>) -> Seq<u8> {
    Seq::new(s.len(), |i: int| ascii_lower(s[i]))
}

/// The header name the resolver searches for, in lower case.
pub open spec fn authorization_name() -> Seq<u8> {
    seq![
        'a' as u8,
        'u' as u8,
        't' as u8,
        'h' as u8,
        'o' as u8,
        'r' as u8,
        'i' as u8,
        'z' as u8,
        'a' as u8,
        't' as u8,
        'i' as u8,
        'o' as u8,
        'n' as u8,
    ]
}

/// Whether `name` is the `Authorization` header name, in any casing.
pub open spec fn is_authorization_name(name: Seq<u8>) -> bool {
    ascii_lower_bytes(name) == authorization_name()
}

/// The value of the first header field named `Authorization` (any casing),
/// if one exists.
pub open spec fn spec_find_authorization(headers: Seq<HeaderField>) -> Option<Seq<u8>>
    decreases headers.len(),
{
    if headers.len() == 0 {
        None
    } else if is_authorization_name(headers[0].name@) {
        Some(headers[0].value@)
    } else {
        spec_find_authorization(headers.drop_first())
    }
}

/// ASCII lower-casing of one byte.
fn ascii_lower_byte(b: u8) -> (r: u8)
    ensures
        r == ascii_lower(b),
{
    if 'A' as u8 <= b && b <= 'Z' as u8 {
        b + 32
    } else {
        b
    }
}

/// Whether `name` is the `Authorization` header name, in any casing.
pub fn is_authorization(name: &Vec<u8>) -> (r: bool)
    ensures
        r == is_authorization_name(name@),
{
    let expected = authorization_name_bytes();
    if name.len() != expected.len() {
        assert(ascii_lower_bytes(name@).len() == name@.len());
        return false;
    }
    let n = name.len();
    for i in 0..n
        invariant
            n == name@.len() == expected@.len(),
            expected@ == authorization_name(),
            forall|j: int| 0 <= j < i ==> ascii_lower(name@[j]) == expected@[j],
    {
        if ascii_lower_byte(name[i]) != expected[i] {
            assert(ascii_lower_bytes(name@)[i as int] != authorization_name()[i as int]);
            return false;
        }
    }
    assert(ascii_lower_bytes(name@) =~= authorization_name());
    true
}

/// The bytes of the lower-case header name `authorization`.
fn authorization_name_bytes() -> (r: Vec<u8>)
    ensures
        r@ == authorization_name(),
{
    let mut v: Vec<u8> = Vec::new();
    v.push('a' as u8);
    v.push('u' as u8);
    v.push('t' as u8);
    v.push('h' as u8);
    v.push('o' as u8);
    v.push('r' as u8);
    v.push('i' as u8);
    v.push('z' as u8);
    v.push('a' as u8);
    v.push('t' as u8);
    v.push('i' as u8);
    v.push('o' as u8);
    v.push('n' as u8);
    assert(v@ =~= authorization_name());
    v
}

/// Case-insensitive lookup of the `Authorization` header: returns the value
/// of the first field with that name, in request order.
pub fn find_authorization(headers: &Vec<HeaderField>) -> (r: Option<&Vec<u8>>)
    ensures
        match r {
            Some(v) => spec_find_authorization(headers@) == Some(v@),
            None => spec_find_authorization(headers@) is None,
        },
{
    let n = headers.len();
    proof {
        assert(headers@.skip(0) =~= headers@);
    }
    for i in 0..n
        invariant
            n == headers@.len(),
            spec_find_authorization(headers@) == spec_find_authorization(headers@.skip(i as int)),
    {
        proof {
            assert(headers@.skip(i as int)[0] == headers@[i as int]);
            assert(headers@.skip(i as int).drop_first() =~= headers@.skip(i + 1));
        }
        if is_authorization(&headers[i].name) {
            return Some(&headers[i].value);
        }
    }
    proof {
        assert(headers@.skip(n as int) =~= Seq::<HeaderField>::empty());
    }
    None
}

} // verus!
