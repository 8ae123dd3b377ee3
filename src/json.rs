//! JSON documents, parsed and read through `serde_json`.
//!
//! A parsed document is a `serde_json::Value`, which Verus sees as opaque;
//! `Json` describes what it holds, as far as this library reads it.
use vstd::prelude::*;

verus! {

#[verifier::external_type_specification]
#[verifier::external_body]
pub struct ExValue(serde_json::Value);

/// What a JSON value holds. A number is an integer that fits in `u64`, or
/// some other number.
pub enum Json {
    Null,
    Bool(bool),
    UInt(u64),
    OtherNumber,
    Str(Seq<char>),
    Array(Seq<Json>),
    Object(Map<Seq<char>, Json>),
}

/// The document that `serde_json::from_str` reads from `text`, if the text
/// is one well-formed JSON value.
pub uninterp spec fn json_of_text(text: Seq<char>) -> Option<Json>;

/// What a parsed `serde_json::Value` holds.
pub uninterp spec fn json_of_value(v: serde_json::Value) -> Json;

/// Relies on `serde_json::from_str::<Value>`: it parses the whole text as one
/// JSON value, and its outcome depends on the text alone. Its error is
/// dropped: every parse failure is treated alike.
#[verifier::external_body]
pub(crate) fn parse_json(text: &str) -> (r: Option<serde_json::Value>)
    ensures
        match r {
            Some(v) => json_of_text(text@) == Some(json_of_value(v)),
            None => json_of_text(text@) is None,
        },
{
    serde_json::from_str::<serde_json::Value>(text).ok()
}

/// Relies on `serde_json::Value::get` with a `&str` index: the member of an
/// object under that key, and nothing for any other value.
#[verifier::external_body]
pub(crate) fn member<'a>(v: &'a serde_json::Value, key: &str) -> (r: Option<&'a serde_json::Value>)
    ensures
        match json_of_value(*v) {
            Json::Object(m) => if m.contains_key(key@) {
                r is Some && json_of_value(*r->0) == m[key@]
            } else {
                r is None
            },
            _ => r is None,
        },
{
    v.get(key)
}

/// Relies on `serde_json::Value::as_u64`: the integer of a number that fits
/// in `u64`, and nothing for any other value.
pub assume_specification[ serde_json::Value::as_u64 ](v: &serde_json::Value) -> (r: Option<u64>)
    ensures
        r == match json_of_value(*v) {
            Json::UInt(n) => Some(n),
            _ => None,
        },
;

/// Relies on `serde_json::Value::as_str`: the text of a string, and nothing
/// for any other value.
pub assume_specification<'a>[ serde_json::Value::as_str ](v: &'a serde_json::Value) -> (r: Option<&'a str>)
    ensures
        match json_of_value(*v) {
            Json::Str(s) => r is Some && r->0@ == s,
            _ => r is None,
        },
;

/// Relies on `serde_json::Value::as_array`: the elements of an array, in
/// order, and nothing for any other value.
pub assume_specification<'a>[ serde_json::Value::as_array ](v: &'a serde_json::Value) -> (r: Option<&'a Vec<serde_json::Value>>)
    ensures
        match json_of_value(*v) {
            Json::Array(items) => r is Some && r->0@.len() == items.len() && (forall|i: int|
                0 <= i < items.len() ==> json_of_value(#[trigger] r->0@[i]) == items[i]),
            _ => r is None,
        },
;

} // verus!
