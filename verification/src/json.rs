//! Reading a JSON document: the calls into `serde_json`, and the one question
//! that the server asks of a request body.

use vstd::prelude::*;

verus! {

#[verifier::external_type_specification]
#[verifier::external_body]
pub struct ExJsonValue(serde_json::Value);

/// The value that `serde_json::from_str` reads from `text`, or `None` where it
/// reports an error.
pub uninterp spec fn json_document(text: Seq<char>) -> Option<serde_json::Value>;

/// What `serde_json::Value::get` finds under the string index `key`.
pub uninterp spec fn json_member(value: serde_json::Value, key: Seq<char>) -> Option<serde_json::Value>;

/// What `serde_json::Value::as_str` returns: the text of a JSON string, `None`
/// for any other kind of value.
pub uninterp spec fn json_string(value: serde_json::Value) -> Option<Seq<char>>;

/// Calls `serde_json::from_str` for a `serde_json::Value`. The parser reads
/// nothing but `text`, so the same text always gives the same outcome; an
/// error is turned into `None`.
#[verifier::external_body]
fn parse_document(text: &str) -> (r: Option<serde_json::Value>)
    ensures
        r == json_document(text@),
{
    serde_json::from_str::<serde_json::Value>(text).ok()
}

/// Calls `serde_json::Value::get` with a string index: the member of an
/// object under that key, `None` for a missing key or a value that is no
/// object.
#[verifier::external_body]
fn member<'a>(value: &'a serde_json::Value, key: &str) -> (r: Option<&'a serde_json::Value>)
    ensures
        match r {
            Some(found) => json_member(*value, key@) == Some(*found),
            None => json_member(*value, key@).is_none(),
        },
{
    value.get(key)
}

/// Calls `serde_json::Value::as_str`.
#[verifier::external_body]
fn string_of(value: &serde_json::Value) -> (r: Option<String>)
    ensures
        match r {
            Some(text) => json_string(*value) == Some(text@),
            None => json_string(*value).is_none(),
        },
{
    value.as_str().map(String::from)
}

/// The text of the member `key` of the JSON object written in `body`: `None`
/// where `body` is no JSON document, the document is no object, the object has
/// no such member, or the member is no string.
pub open spec fn string_member(body: Seq<char>, key: Seq<char>) -> Option<Seq<char>> {
    match json_document(body) {
        Some(document) => match json_member(document, key) {
            Some(found) => json_string(found),
            None => None,
        },
        None => None,
    }
}

/// Reads the string member `key` out of the JSON object written in `body`.
pub fn read_string_member(body: &str, key: &str) -> (r: Option<String>)
    ensures
        match r {
            Some(text) => string_member(body@, key@) == Some(text@),
            None => string_member(body@, key@).is_none(),
        },
{
    match parse_document(body) {
        Some(document) => match member(&document, key) {
            Some(found) => string_of(found),
            None => None,
        },
        None => None,
    }
}

} // verus!
