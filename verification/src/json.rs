//! Trusted interface to `serde_json`, used to read the bodies that the token
//! and digitization endpoints return.
//!
//! A parsed value is modelled by its string-valued top-level entries: the
//! only parts of a response body the pipeline ever reads are top-level fields
//! that hold a JSON string (`access_token`, `documentId`).

use vstd::prelude::*;

verus! {

#[verifier::external_type_specification]
#[verifier::external_body]
pub struct ExValue(serde_json::Value);

/// What `serde_json::from_str::<serde_json::Value>` makes of a text: `None`
/// when the text is not valid JSON; otherwise the map from each top-level key
/// whose entry is a JSON string to that entry's content. Parsing depends on
/// the text alone.
pub uninterp spec fn json_text_fields(s: Seq<char>) -> Option<Map<Seq<char>, Seq<char>>>;

/// The string-valued top-level entries of a parsed JSON value: the map from
/// each key whose entry is a JSON string (when the value is a JSON object)
/// to that entry's content.
pub uninterp spec fn json_value_fields(v: serde_json::Value) -> Map<Seq<char>, Seq<char>>;

/// Relies on `serde_json::from_str::<serde_json::Value>`: it returns `Ok`
/// exactly when the text is valid JSON, and what it parses to is a function
/// of the text alone.
#[verifier::external_body]
pub fn parse_json(s: &str) -> (r: Option<serde_json::Value>)
    ensures
        r is Some <==> json_text_fields(s@) is Some,
        r matches Some(v) ==> json_value_fields(v) == json_text_fields(s@).unwrap(),
{
    serde_json::from_str::<serde_json::Value>(s).ok()
}

/// Relies on `serde_json::Value::get` (a string index into a JSON object
/// returns the entry at that key, and `None` for a missing key or for a
/// non-object) and `serde_json::Value::as_str` (the text of a JSON string,
/// and `None` for any other kind of entry).
#[verifier::external_body]
pub fn get_string_field(v: &serde_json::Value, key: &str) -> (r: Option<String>)
    ensures
        r is Some <==> json_value_fields(*v).dom().contains(key@),
        r matches Some(text) ==> text@ == json_value_fields(*v)[key@],
{
    match v.get(key) {
        Some(entry) => match entry.as_str() {
            Some(text) => Some(text.to_owned()),
            None => None,
        },
        None => None,
    }
}

} // verus!
