//! The JSON questions this library asks of a response body, answered by
//! `serde_json` behind trusted declarations.
//!
//! The two uninterpreted functions name what the codec computes; both are
//! functions of the input text alone.  The wrappers below are the only
//! places the codec is called.

use vstd::prelude::*;

verus! {

/// The value of `key` in `body`, when `body` parses as a JSON object whose
/// `key` member is a string; nothing otherwise.
pub uninterp spec fn string_field_of(body: Seq<char>, key: Seq<char>) -> Option<Seq<char>>;

/// The elements of `body`, when `body` parses as a JSON array: each element
/// re-rendered as canonical JSON text, in encounter order; nothing when
/// `body` is not a JSON array.
pub uninterp spec fn array_items_of(body: Seq<char>) -> Option<Seq<Seq<char>>>;

/// Relies on `serde_json::from_str::<Value>`, `Value::get` and
/// `Value::as_str`: the result is the string at `key` in the object `body`
/// parses to, and is absent when `body` does not parse, is not an object,
/// lacks `key`, or holds a non-string there.
#[verifier::external_body]
pub fn json_string_field(body: &str, key: &str) -> (r: Option<String>)
    ensures
        match string_field_of(body@, key@) {
            Some(v) => r matches Some(s) && s@ == v,
            None => r is None,
        },
{
    match serde_json::from_str::<serde_json::Value>(body) {
        Ok(value) => match value.get(key) {
            Some(field) => field.as_str().map(|s| s.to_string()),
            None => None,
        },
        Err(_) => None,
    }
}

/// Relies on `serde_json::from_str::<Value>` and the `Display` rendering of
/// `serde_json::Value`: the result holds one rendered element per element of
/// the array `body` parses to, in encounter order, and is absent when `body`
/// does not parse as a JSON array.
#[verifier::external_body]
pub fn json_array_items(body: &str) -> (r: Option<Vec<String>>)
    ensures
        match array_items_of(body@) {
            Some(items) => r matches Some(v) && v.deep_view() == items,
            None => r is None,
        },
{
    match serde_json::from_str::<serde_json::Value>(body) {
        Ok(serde_json::Value::Array(elements)) => {
            let mut items = Vec::new();
            for element in elements.iter() {
                items.push(element.to_string());
            }
            Some(items)
        },
        _ => None,
    }
}

} // verus!
