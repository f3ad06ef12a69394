//! JSON documents, read by `serde_json`.
//!
//! The library does not parse JSON itself. It hands the text to `serde_json`
//! and walks the document through the few accessors below. What these
//! return is not proved here: each contract restates what `serde_json`
//! documents, over `JsonView`, the mathematical value of a document.

use vstd::prelude::*;

verus! {

/// A JSON value as a mathematical value. A number stands as the text that
/// `serde_json` prints for it.
pub enum JsonView {
    Null,
    Bool(bool),
    Number(Seq<char>),
    Text(Seq<char>),
    Array(Seq<JsonView>),
    Object(Map<Seq<char>, JsonView>),
}

/// `serde_json::Value`, taken as opaque: all that is said of a value is
/// said through `json_view`.
#[verifier::external_type_specification]
#[verifier::external_body]
pub struct ExValue(serde_json::Value);

/// `serde_json::Error`, taken as opaque: an error is told from a document
/// and never looked into.
#[verifier::external_type_specification]
#[verifier::external_body]
pub struct ExError(serde_json::Error);

/// The JSON value that a `serde_json::Value` holds.
pub uninterp spec fn json_view(value: serde_json::Value) -> JsonView;

/// The document that `serde_json::from_str` reads from a text; nothing where
/// it reports an error.
pub uninterp spec fn json_parse(text: Seq<char>) -> Option<JsonView>;

/// The member of an object under a key; nothing for a missing key and for a
/// value that is no object.
pub open spec fn member(value: JsonView, key: Seq<char>) -> Option<JsonView> {
    match value {
        JsonView::Object(members) => if members.contains_key(key) {
            Some(members[key])
        } else {
            None
        },
        _ => None,
    }
}

/// The elements of an array; nothing for any other value.
pub open spec fn items_of(value: JsonView) -> Option<Seq<JsonView>> {
    match value {
        JsonView::Array(items) => Some(items),
        _ => None,
    }
}

/// The characters of a string; nothing for any other value.
pub open spec fn text_of(value: JsonView) -> Option<Seq<char>> {
    match value {
        JsonView::Text(text) => Some(text),
        _ => None,
    }
}

/// The truth value of a boolean; nothing for any other value.
pub open spec fn flag_of(value: JsonView) -> Option<bool> {
    match value {
        JsonView::Bool(flag) => Some(flag),
        _ => None,
    }
}

/// The printed form of a number; nothing for any other value.
pub open spec fn number_of(value: JsonView) -> Option<Seq<char>> {
    match value {
        JsonView::Number(digits) => Some(digits),
        _ => None,
    }
}

/// The JSON values that a slice of `serde_json::Value`s holds.
pub open spec fn json_views(values: Seq<serde_json::Value>) -> Seq<JsonView> {
    values.map_values(|value: serde_json::Value| json_view(value))
}

/// Calls `serde_json::from_str` for a `Value`. It returns the document that
/// the text denotes, or an error where the text is not one JSON document.
#[verifier::external_body]
pub(crate) fn parse_json(text: &str) -> (parsed: Result<serde_json::Value, serde_json::Error>)
    ensures
        match parsed {
            Ok(value) => json_parse(text@) == Some(json_view(value)),
            Err(_) => json_parse(text@) is None,
        },
{
    serde_json::from_str::<serde_json::Value>(text)
}

/// Calls `Value::get` with a string key. It returns the member under that
/// key where the value is an object that has the key, and nothing otherwise.
#[verifier::external_body]
pub(crate) fn get_member<'a>(
    value: &'a serde_json::Value,
    key: &str,
) -> (found: Option<&'a serde_json::Value>)
    ensures
        match found {
            Some(inner) => member(json_view(*value), key@) == Some(json_view(*inner)),
            None => member(json_view(*value), key@) is None,
        },
{
    value.get(key)
}

/// Calls `Value::as_array`. It returns the elements where the value is an
/// array, and nothing otherwise.
#[verifier::external_body]
pub(crate) fn get_items<'a>(
    value: &'a serde_json::Value,
) -> (found: Option<&'a Vec<serde_json::Value>>)
    ensures
        match found {
            Some(items) => items_of(json_view(*value)) == Some(json_views(items@)),
            None => items_of(json_view(*value)) is None,
        },
{
    value.as_array()
}

/// Calls `Value::as_str`. It returns the characters where the value is a
/// string, and nothing otherwise.
#[verifier::external_body]
pub(crate) fn get_text<'a>(value: &'a serde_json::Value) -> (found: Option<&'a str>)
    ensures
        match found {
            Some(text) => text_of(json_view(*value)) == Some(text@),
            None => text_of(json_view(*value)) is None,
        },
{
    value.as_str()
}

/// Calls `Value::as_bool`. It returns the truth value where the value is a
/// boolean, and nothing otherwise.
#[verifier::external_body]
pub(crate) fn get_flag(value: &serde_json::Value) -> (found: Option<bool>)
    ensures
        found == flag_of(json_view(*value)),
{
    value.as_bool()
}

/// Calls `Value::as_number` and prints the number with its `Display`.
/// It returns the printed number where the value is a number, and nothing
/// otherwise.
#[verifier::external_body]
pub(crate) fn get_number(value: &serde_json::Value) -> (found: Option<String>)
    ensures
        match found {
            Some(digits) => number_of(json_view(*value)) == Some(digits@),
            None => number_of(json_view(*value)) is None,
        },
{
    match value.as_number() {
        Some(number) => Some(number.to_string()),
        None => None,
    }
}

} // verus!
