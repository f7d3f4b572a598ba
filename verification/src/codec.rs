//! The boundary with `serde_json`: reading a line of text into a document and
//! writing a document as a line of text. What `serde_json` computes is named
//! here, not described; the code on either side of it is verified.

use crate::errors::{ClaudeSDKError, ErrorValue};
use crate::json::{Json, JsonValue};
use crate::text::opt_view;
use vstd::prelude::*;

verus! {

/// `serde_json`'s document type, carried between the calls below.
#[verifier::external_type_specification]
#[verifier::external_body]
pub struct ExValue(serde_json::Value);

/// `serde_json`'s error type, carried into [`ClaudeSDKError::JSONDecode`].
#[verifier::external_type_specification]
#[verifier::external_body]
pub struct ExJsonError(serde_json::Error);

/// What a `serde_json::Value` holds: numbers by the text that
/// `serde_json::Number` shows, the members of an object in the order in which
/// its map yields them.
pub uninterp spec fn value_model(v: serde_json::Value) -> JsonValue;

/// The document that `serde_json::from_str` reads from a text; nothing where
/// it reports an error.
pub uninterp spec fn parsed(text: Seq<char>) -> Option<JsonValue>;

/// The document that `serde_json` holds once it was handed `doc`: each number
/// read by `serde_json::Number`'s `from_str`, each object's members put into
/// `serde_json::Map` one after the other. Nothing where a number's text is no
/// JSON number.
pub uninterp spec fn stored(doc: JsonValue) -> Option<JsonValue>;

/// The compact text that `serde_json::Value` shows for a document it holds.
pub uninterp spec fn written(doc: JsonValue) -> Seq<char>;

/// The line that a document is written as; nothing where it holds a number
/// that is no JSON number.
pub open spec fn encoded(doc: JsonValue) -> Option<Seq<char>> {
    match stored(doc) {
        Some(held) => Some(written(held)),
        None => None,
    }
}

/// `serde_json::from_str` at `serde_json::Value`: the document read from the
/// text, or the error. The outcome depends on the text alone.
#[verifier::external_body]
fn value_from_str(text: &str) -> (r: Result<serde_json::Value, serde_json::Error>)
    ensures
        match r {
            Ok(v) => parsed(text@) == Some(value_model(v)),
            Err(_) => parsed(text@) is None,
        },
{
    serde_json::from_str::<serde_json::Value>(text)
}

/// Moves what a `serde_json::Value` holds into a [`Json`], variant by variant;
/// a number by `serde_json::Number`'s `to_string`.
#[verifier::external_body]
fn json_from_value(v: &serde_json::Value) -> (j: Json)
    ensures
        j@ == value_model(*v),
{
    match v {
        serde_json::Value::Null => Json::Null,
        serde_json::Value::Bool(b) => Json::Bool(*b),
        serde_json::Value::Number(n) => Json::Number(n.to_string()),
        serde_json::Value::String(s) => Json::String(s.clone()),
        serde_json::Value::Array(a) => Json::Array(a.iter().map(json_from_value).collect()),
        serde_json::Value::Object(m) => Json::Object(
            m.iter().map(|(k, x)| (k.clone(), json_from_value(x))).collect(),
        ),
    }
}

/// Moves a [`Json`] into a `serde_json::Value`, variant by variant: a number
/// by `serde_json::Number`'s `from_str`, the members of an object by
/// `serde_json::Map`'s `from_iter`. Nothing where a number's text is refused;
/// the canonical numeral of an unsigned number of sixty-four bits is not
/// refused, so a plain document is always taken.
#[verifier::external_body]
fn value_from_json(j: &Json) -> (r: Option<serde_json::Value>)
    ensures
        match r {
            Some(v) => stored(j@) == Some(value_model(v)),
            None => stored(j@) is None,
        },
        j@.is_plain() ==> r is Some,
{
    Some(match j {
        Json::Null => serde_json::Value::Null,
        Json::Bool(b) => serde_json::Value::Bool(*b),
        Json::Number(n) => serde_json::Value::Number(n.parse::<serde_json::Number>().ok()?),
        Json::String(s) => serde_json::Value::String(s.clone()),
        Json::Array(a) => serde_json::Value::Array(
            a.iter().map(value_from_json).collect::<Option<_>>()?,
        ),
        Json::Object(m) => serde_json::Value::Object(
            m.iter().map(|(k, x)| Some((k.clone(), value_from_json(x)?))).collect::<Option<_>>()?,
        ),
    })
}

/// `serde_json::Value`'s `to_string`: the compact text of the document.
#[verifier::external_body]
fn value_to_string(v: &serde_json::Value) -> (r: String)
    ensures
        r@ == written(value_model(*v)),
{
    v.to_string()
}

/// Reads one line of the peer's output as a JSON document. A line that is no
/// JSON gives a decode error that carries the line and the parser's error.
pub fn decode_line(line: &str) -> (r: Result<Json, ClaudeSDKError>)
    ensures
        match r {
            Ok(doc) => parsed(line@) == Some(doc@),
            Err(e) => {
                &&& parsed(line@) is None
                &&& e@ matches ErrorValue::JSONDecode { message, raw_data, buffer_content, source }
                &&& message == "Failed to parse JSON from CLI"@
                &&& raw_data == Some(line@)
                &&& buffer_content is None
                &&& source is Some
            },
        },
{
    match value_from_str(line) {
        Ok(v) => Ok(json_from_value(&v)),
        Err(e) => Err(
            ClaudeSDKError::json_decode_with_context(
                "Failed to parse JSON from CLI",
                Some(line.to_owned()),
                None,
                e,
            ),
        ),
    }
}

/// Writes a document as one line of compact JSON text. Nothing is written for
/// a document that holds a number whose text is no JSON number; a plain
/// document is always written.
pub fn encode(doc: &Json) -> (r: Option<String>)
    ensures
        opt_view(r) == encoded(doc@),
        doc@.is_plain() ==> r is Some,
{
    match value_from_json(doc) {
        Some(v) => Some(value_to_string(&v)),
        None => None,
    }
}

} // verus!
