//! The few reads of JSON documents that the library makes, through serde_json.
//!
//! A `serde_json::Value` is opaque here; what the reads find is named by spec
//! functions that depend on their arguments alone.
use vstd::prelude::*;

verus! {

/// Whether serde_json accepts the text as one JSON document.
pub uninterp spec fn json_valid(s: Seq<char>) -> bool;

/// The document that serde_json reads from a text.
pub uninterp spec fn json_parsed(s: Seq<char>) -> serde_json::Value;

/// The member of an object under a key, if the value is an object that has it.
pub uninterp spec fn member_of(v: serde_json::Value, key: Seq<char>) -> Option<serde_json::Value>;

/// The text of a string value.
pub uninterp spec fn string_of(v: serde_json::Value) -> Option<Seq<char>>;

/// The elements of an array value.
pub uninterp spec fn array_of(v: serde_json::Value) -> Option<Seq<serde_json::Value>>;

/// Relies on `serde_json::from_str::<Value>`: the parsed document, or `None`
/// where the text is not JSON.
#[verifier::external_body]
pub(crate) fn parse_json(s: &str) -> (r: Option<serde_json::Value>)
    ensures
        r.is_some() == json_valid(s@),
        r matches Some(v) ==> v == json_parsed(s@),
{
    serde_json::from_str::<serde_json::Value>(s).ok()
}

/// Relies on `serde_json::Value::get` with a string key: the member of an
/// object under that key, if the value is an object that has it.
#[verifier::external_body]
pub(crate) fn json_get<'a>(v: &'a serde_json::Value, key: &str) -> (r: Option<&'a serde_json::Value>)
    ensures
        match r {
            Some(m) => member_of(*v, key@) == Some(*m),
            None => member_of(*v, key@) is None,
        },
{
    v.get(key)
}

/// Relies on `serde_json::Value::as_str`: the text of a string value.
#[verifier::external_body]
pub(crate) fn json_as_str(v: &serde_json::Value) -> (r: Option<String>)
    ensures
        match r {
            Some(t) => string_of(*v) == Some(t@),
            None => string_of(*v) is None,
        },
{
    v.as_str().map(|s| s.to_string())
}

/// Relies on `serde_json::Value::as_array`: the elements of an array value.
#[verifier::external_body]
pub(crate) fn json_as_array(v: &serde_json::Value) -> (r: Option<&Vec<serde_json::Value>>)
    ensures
        match r {
            Some(a) => array_of(*v) == Some(a@),
            None => array_of(*v) is None,
        },
{
    v.as_array()
}

/// Relies on `Clone` of `serde_json::Value`: a copy of the value.
#[verifier::external_body]
pub(crate) fn json_clone(v: &serde_json::Value) -> (r: serde_json::Value)
    ensures
        r == *v,
{
    v.clone()
}

/// The text under a key of an object, when it is a string.
pub open spec fn string_member(v: serde_json::Value, key: Seq<char>) -> Option<Seq<char>> {
    match member_of(v, key) {
        Some(m) => string_of(m),
        None => None,
    }
}

/// The elements of the array under a key of an object, when there is one.
pub open spec fn array_member(v: serde_json::Value, key: Seq<char>) -> Option<Seq<serde_json::Value>> {
    match member_of(v, key) {
        Some(m) => array_of(m),
        None => None,
    }
}

/// The view of an optional string.
pub open spec fn opt_text(o: Option<String>) -> Option<Seq<char>> {
    match o {
        Some(s) => Some(s@),
        None => None,
    }
}

} // verus!
