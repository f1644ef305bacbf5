//! JSON values as request bodies. A value is made and held by `serde_json`;
//! this library decides which value a request carries and hands it on.

use vstd::prelude::*;

use serde_json::Value;

verus! {

/// `serde_json::Value`, a JSON value. Nothing is claimed of what is inside
/// one: a value is made by `serde_json` and carried on as it is.
#[verifier::external_type_specification]
#[verifier::external_body]
pub struct ExValue(serde_json::Value);

/// The value that `serde_json::from_str` reads from `text`, where `text` is
/// a JSON document.
pub uninterp spec fn parsed_json(text: Seq<char>) -> Option<Value>;

/// The JSON string that holds `text`.
pub uninterp spec fn json_string(text: Seq<char>) -> Value;

/// Calls `serde_json::from_str` for a `Value`. What it reads depends on the
/// text alone; the contract gives the value its name, with `None` where the
/// text is refused, and claims nothing else of it.
#[verifier::external_body]
pub(crate) fn parse_json(text: &str) -> (value: Option<Value>)
    ensures
        value == parsed_json(text@),
{
    serde_json::from_str::<Value>(text).ok()
}

/// Calls `Value::from` on a text, which makes the JSON string holding that
/// text; the contract gives the value its name.
#[verifier::external_body]
pub(crate) fn string_value(text: &str) -> (value: Value)
    ensures
        value == json_string(text@),
{
    Value::from(text)
}

/// The body that a text given as JSON stands for: the value read from it
/// where it is a JSON document, else the JSON string that holds it.
pub open spec fn body_of_text(text: Seq<char>) -> Value {
    match parsed_json(text) {
        Some(value) => value,
        None => json_string(text),
    }
}

/// The body for a text given as JSON, once it is known what was read from
/// it: the value read, or else the JSON string that holds the text. A text
/// is never refused.
pub fn parsed_or_string(parsed: Option<Value>, text: &str) -> (body: Value)
    ensures
        body == match parsed {
            Some(value) => value,
            None => json_string(text@),
        },
{
    match parsed {
        Some(value) => value,
        None => string_value(text),
    }
}

/// The body for a text given as JSON.
pub fn body_from_text(text: &str) -> (body: Value)
    ensures
        body == body_of_text(text@),
{
    parsed_or_string(parse_json(text), text)
}

} // verus!
