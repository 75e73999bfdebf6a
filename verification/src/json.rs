//! Trusted boundary around `serde_json`.
//!
//! The upstream clients answer with JSON bodies, and the decoders read one
//! member of one object (or of one nested object) at a time. Each reading
//! is a function of the body text alone, so it carries a name: an
//! uninterpreted spec function that the one wrapper applying it ties to
//! `serde_json`'s answer. The decoders' contracts then fix their whole
//! result over these names, and everything past the extraction — numeric
//! parsing, field interpretation — is verified code.

use vstd::prelude::*;

verus! {

/// The boolean member of the JSON object `body` under `key`: `None` when
/// `body` is not a JSON object or the member is missing or not a boolean.
pub uninterp spec fn json_bool_member_of(body: Seq<char>, key: Seq<char>) -> Option<bool>;

/// The string member of the JSON object `body` under `key`, under the same
/// reading.
pub uninterp spec fn json_str_member_of(body: Seq<char>, key: Seq<char>) -> Option<Seq<char>>;

/// The boolean member under `inner` of the object member under `outer` of
/// the JSON object `body`.
pub uninterp spec fn json_nested_bool_member_of(
    body: Seq<char>,
    outer: Seq<char>,
    inner: Seq<char>,
) -> Option<bool>;

/// The string member under `inner` of the object member under `outer` of
/// the JSON object `body`.
pub uninterp spec fn json_nested_str_member_of(
    body: Seq<char>,
    outer: Seq<char>,
    inner: Seq<char>,
) -> Option<Seq<char>>;

/// Relies on `serde_json::from_str`, `Value::get` and `Value::as_bool`:
/// parses `body` and reads the boolean member under `key`. Each step
/// depends on its arguments alone; a malformed body, a missing member and
/// a member of another kind all come back as `None`.
#[verifier::external_body]
pub(crate) fn json_bool_member(body: &str, key: &str) -> (r: Option<bool>)
    ensures
        r == json_bool_member_of(body@, key@),
{
    match serde_json::from_str::<serde_json::Value>(body) {
        Ok(v) => match v.get(key) {
            Some(m) => m.as_bool(),
            None => None,
        },
        Err(_) => None,
    }
}

/// Relies on `serde_json::from_str`, `Value::get` and `Value::as_str`:
/// parses `body` and reads the string member under `key`.
#[verifier::external_body]
pub(crate) fn json_str_member(body: &str, key: &str) -> (r: Option<String>)
    ensures
        r matches Some(s) ==> json_str_member_of(body@, key@) == Some(s@),
        r is None ==> json_str_member_of(body@, key@) is None,
{
    match serde_json::from_str::<serde_json::Value>(body) {
        Ok(v) => match v.get(key) {
            Some(m) => m.as_str().map(|s| s.to_owned()),
            None => None,
        },
        Err(_) => None,
    }
}

/// Relies on `serde_json::from_str`, `Value::get` and `Value::as_bool`:
/// parses `body` and reads the boolean member under `inner` of the object
/// member under `outer`.
#[verifier::external_body]
pub(crate) fn json_nested_bool_member(body: &str, outer: &str, inner: &str) -> (r: Option<bool>)
    ensures
        r == json_nested_bool_member_of(body@, outer@, inner@),
{
    match serde_json::from_str::<serde_json::Value>(body) {
        Ok(v) => match v.get(outer) {
            Some(d) => match d.get(inner) {
                Some(m) => m.as_bool(),
                None => None,
            },
            None => None,
        },
        Err(_) => None,
    }
}

/// Relies on `serde_json::from_str`, `Value::get` and `Value::as_str`:
/// parses `body` and reads the string member under `inner` of the object
/// member under `outer`.
#[verifier::external_body]
pub(crate) fn json_nested_str_member(body: &str, outer: &str, inner: &str) -> (r: Option<String>)
    ensures
        r matches Some(s) ==> json_nested_str_member_of(body@, outer@, inner@) == Some(s@),
        r is None ==> json_nested_str_member_of(body@, outer@, inner@) is None,
{
    match serde_json::from_str::<serde_json::Value>(body) {
        Ok(v) => match v.get(outer) {
            Some(d) => match d.get(inner) {
                Some(m) => m.as_str().map(|s| s.to_owned()),
                None => None,
            },
            None => None,
        },
        Err(_) => None,
    }
}

} // verus!
