//! The JSON documents this library reads, parsed and queried by serde_json.
//!
//! A parsed document is a `serde_json::Value`, which Verus treats as opaque.
//! What the library needs of it is named by the spec functions below: the
//! document that a text parses to, the member of an object under a key, and
//! the string or unsigned integer that a value holds.

use vstd::prelude::*;

verus! {

#[verifier::external_type_specification]
#[verifier::external_body]
pub struct ExValue(serde_json::Value);

#[verifier::external_type_specification]
#[verifier::external_body]
pub struct ExError(serde_json::Error);

/// The document that serde_json parses `text` into, or `None` where `text` is
/// not one JSON value (with surrounding whitespace).
pub uninterp spec fn json_of(text: Seq<char>) -> Option<serde_json::Value>;

/// The member of the JSON object `v` under `key`; `None` where `v` is not an
/// object or has no such member.
pub uninterp spec fn member_of(v: serde_json::Value, key: Seq<char>) -> Option<serde_json::Value>;

/// The text of `v` where `v` is a JSON string.
pub uninterp spec fn str_of(v: serde_json::Value) -> Option<Seq<char>>;

/// The number `v` holds where `v` is a JSON number that is a non-negative
/// integer fitting in 64 bits.
pub uninterp spec fn u64_of(v: serde_json::Value) -> Option<u64>;

/// Relies on `serde_json::from_str::<Value>`: parses `text` as one JSON value,
/// or fails with a `serde_json::Error`.
#[verifier::external_body]
pub(crate) fn parse_json(text: &str) -> (r: Result<serde_json::Value, serde_json::Error>)
    ensures
        match r {
            Ok(v) => json_of(text@) == Some(v),
            Err(_) => json_of(text@) is None,
        },
{
    serde_json::from_str(text)
}

/// Relies on `serde_json::Value::get` with a string index: the member of an
/// object under `key`, `None` for any other kind of value.
#[verifier::external_body]
pub(crate) fn member<'a>(v: &'a serde_json::Value, key: &str) -> (r: Option<&'a serde_json::Value>)
    ensures
        match r {
            Some(m) => member_of(*v, key@) == Some(*m),
            None => member_of(*v, key@) is None,
        },
{
    v.get(key)
}

/// Relies on `serde_json::Value::as_str`: the text of a JSON string, `None`
/// for any other kind of value.
pub assume_specification[ serde_json::Value::as_str ](v: &serde_json::Value) -> (r: Option<&str>)
    ensures
        match r {
            Some(s) => str_of(*v) == Some(s@),
            None => str_of(*v) is None,
        },
;

/// Relies on `serde_json::Value::as_u64`: the number held by a JSON number
/// that is a non-negative integer within `u64`, `None` for anything else.
pub assume_specification[ serde_json::Value::as_u64 ](v: &serde_json::Value) -> (r: Option<u64>)
    ensures
        r == u64_of(*v),
;

} // verus!
