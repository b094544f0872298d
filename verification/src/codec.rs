//! JSON text and documents: reading and writing with `serde_json`.
//!
//! What the parser makes of a text, and what text the printer gives a
//! document, is not spelled out here. Both are named, and the functions of
//! this module say that they return what is named.

use serde_json::{Number, Value};
use vstd::prelude::*;

use crate::json::{Json, JsonModel, JsonNumber};

verus! {

/// `serde_json::Value`, of which nothing is known here but that it is a
/// type: values of it only pass between the functions of this module.
#[verifier::external_type_specification]
#[verifier::external_body]
pub struct ExValue(Value);

/// The document that `serde_json::from_str` reads from a text that holds one
/// JSON value and nothing else but white space; `None` for any other text.
pub uninterp spec fn parsed_document(text: Seq<char>) -> Option<JsonModel>;

/// The documents that `serde_json`'s stream deserializer reads from the start
/// of a text that holds JSON values one after the other, up to the end of the
/// text or the first place that is no JSON value.
pub uninterp spec fn parsed_stream(text: Seq<char>) -> Seq<JsonModel>;

/// The compact text that `serde_json` prints for a document.
pub uninterp spec fn document_text(doc: JsonModel) -> Seq<char>;

/// A `serde_json::Value` as a [`Json`] document, variant by variant. A number
/// that `as_u64` and `as_i64` both decline is kept by the text that
/// `serde_json` prints for it.
#[verifier::external_body]
fn from_value(value: &Value) -> Json {
    match value {
        Value::Null => Json::Null,
        Value::Bool(b) => Json::Bool(*b),
        Value::Number(n) => Json::Number(match (n.as_u64(), n.as_i64()) {
            (Some(u), _) => JsonNumber::PosInt(u),
            (_, Some(i)) => JsonNumber::NegInt(i),
            _ => JsonNumber::Float(n.to_string()),
        }),
        Value::String(s) => Json::String(s.clone()),
        Value::Array(items) => Json::Array(items.iter().map(from_value).collect()),
        Value::Object(map) => Json::Object(map.iter().map(|(k, v)| (k.clone(), from_value(v))).collect()),
    }
}

/// A [`Json`] document as a `serde_json::Value`, variant by variant. The text
/// of a number goes through `serde_json`'s own number parser, and becomes
/// `null` where that parser refuses it.
#[verifier::external_body]
fn to_value(doc: &Json) -> Value {
    match doc {
        Json::Null => Value::Null,
        Json::Bool(b) => Value::Bool(*b),
        Json::Number(JsonNumber::PosInt(u)) => Value::from(*u),
        Json::Number(JsonNumber::NegInt(i)) => Value::from(*i),
        Json::Number(JsonNumber::Float(t)) => t.parse::<Number>().map_or(Value::Null, Value::Number),
        Json::String(s) => Value::String(s.clone()),
        Json::Array(items) => Value::Array(items.iter().map(to_value).collect()),
        Json::Object(members) => Value::Object(members.iter().map(|(k, v)| (k.clone(), to_value(v))).collect()),
    }
}

/// Calls `serde_json::from_str` for a `Value`. The contract claims that the
/// result is the named [`parsed_document`] of the text, and nothing of what
/// that document is.
#[verifier::external_body]
pub(crate) fn read_document(text: &str) -> (doc: Option<Json>)
    ensures
        match doc {
            Some(d) => parsed_document(text@) == Some(d@),
            None => parsed_document(text@).is_none(),
        },
{
    serde_json::from_str::<Value>(text).ok().map(|v| from_value(&v))
}

/// Walks `serde_json::Deserializer::from_str(text).into_iter::<Value>()` until
/// it ends or fails. The contract claims that the documents are the named
/// [`parsed_stream`] of the text.
#[verifier::external_body]
pub(crate) fn read_stream(text: &str) -> (docs: Vec<Json>)
    ensures
        docs@.len() == parsed_stream(text@).len(),
        forall|i: int| 0 <= i < docs@.len() ==> (#[trigger] docs@[i])@ == parsed_stream(text@)[i],
{
    serde_json::Deserializer::from_str(text).into_iter::<Value>().map_while(|r| r.ok()).map(
        |v| from_value(&v),
    ).collect()
}

/// Calls `to_string` on the `serde_json::Value` of the document. The contract
/// claims that the result is the named [`document_text`] of the document.
#[verifier::external_body]
pub(crate) fn write_document(doc: &Json) -> (text: String)
    ensures
        text@ == document_text(doc@),
{
    to_value(doc).to_string()
}

impl Json {
    /// Reads a text that holds one JSON document.
    pub fn from_text(text: &str) -> (doc: Option<Json>)
        ensures
            match doc {
                Some(d) => parsed_document(text@) == Some(d@),
                None => parsed_document(text@).is_none(),
            },
    {
        read_document(text)
    }

    /// Reads the JSON documents that stand one after the other at the start
    /// of a text.
    pub fn stream_from_text(text: &str) -> (docs: Vec<Json>)
        ensures
            docs@.len() == parsed_stream(text@).len(),
            forall|i: int|
                0 <= i < docs@.len() ==> (#[trigger] docs@[i])@ == parsed_stream(text@)[i],
    {
        read_stream(text)
    }

    /// The compact JSON text of the document.
    pub fn to_text(&self) -> (text: String)
        ensures
            text@ == document_text(self@),
    {
        write_document(self)
    }
}

} // verus!
