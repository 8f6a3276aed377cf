//! Trusted access to serde_json for the response bodies the server sends.
//!
//! The client reads two JSON shapes: an object with string fields, and an
//! object with one field holding an array of strings. The parsing itself is
//! serde_json's work; what it returns for a given body and key is given a
//! name by an uninterpreted spec function, and everything downstream is
//! verified against that name.

use vstd::prelude::*;

verus! {

/// What parsing `text` as JSON and reading the string field `key` yields:
/// an error with serde_json's message when `text` is not valid JSON, `None`
/// when it is valid JSON but holds no string at `key`, and the field's value
/// otherwise. The result depends on `text` and `key` alone.
pub uninterp spec fn json_string_field(text: Seq<char>, key: Seq<char>) -> Result<
    Option<Seq<char>>,
    Seq<char>,
>;

/// Like `json_string_field`, except that `key` must hold an array made only
/// of strings, which is yielded in the order the text gives it.
pub uninterp spec fn json_string_list_field(text: Seq<char>, key: Seq<char>) -> Result<
    Option<Seq<Seq<char>>>,
    Seq<char>,
>;

/// The view of one string-field lookup result.
pub open spec fn string_field_view(r: Result<Option<String>, String>) -> Result<
    Option<Seq<char>>,
    Seq<char>,
> {
    match r {
        Ok(Some(s)) => Ok(Some(s@)),
        Ok(None) => Ok(None),
        Err(e) => Err(e@),
    }
}

/// The view of one string-list lookup result.
pub open spec fn string_list_field_view(r: Result<Option<Vec<String>>, String>) -> Result<
    Option<Seq<Seq<char>>>,
    Seq<char>,
> {
    match r {
        Ok(Some(v)) => Ok(Some(v.deep_view())),
        Ok(None) => Ok(None),
        Err(e) => Err(e@),
    }
}

/// Relies on serde_json::from_str::<Value>, Value::get and Value::as_str:
/// parses `text` as JSON and reads the string field named `key`. The error
/// message on invalid JSON is serde_json's own.
#[verifier::external_body]
pub(crate) fn get_json_string_field(text: &str, key: &str) -> (r: Result<Option<String>, String>)
    ensures
        string_field_view(r) == json_string_field(text@, key@),
{
    match serde_json::from_str::<serde_json::Value>(text) {
        Ok(v) => Ok(v.get(key).and_then(|f| f.as_str()).map(|s| s.to_string())),
        Err(e) => Err(e.to_string()),
    }
}

/// Relies on serde_json::from_str::<Value>, Value::get, Value::as_array and
/// Value::as_str: parses `text` as JSON and reads the field named `key` as
/// an array of strings, kept in the order the text gives.
#[verifier::external_body]
pub(crate) fn get_json_string_list_field(text: &str, key: &str) -> (r: Result<
    Option<Vec<String>>,
    String,
>)
    ensures
        string_list_field_view(r) == json_string_list_field(text@, key@),
{
    match serde_json::from_str::<serde_json::Value>(text) {
        Ok(v) => Ok(v.get(key).and_then(|f| f.as_array()).and_then(
            |a| a.iter().map(|x| x.as_str().map(|s| s.to_string())).collect::<Option<Vec<String>>>(),
        )),
        Err(e) => Err(e.to_string()),
    }
}

} // verus!
