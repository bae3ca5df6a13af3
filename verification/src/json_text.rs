//! JSON documents as text, read and written by `serde_json`.
use vstd::prelude::*;

use crate::json::{Json, JsonModel, Member};
use crate::lists::outcome;

verus! {

/// The document tree of `serde_json`.
#[verifier::external_type_specification]
#[verifier::external_body]
pub struct ExValue(serde_json::Value);

/// The document that `serde_json::from_str` reads from a text, or the text of its error.
pub uninterp spec fn json_document(text: Seq<char>) -> Result<JsonModel, Seq<char>>;

/// The compact text that `serde_json` writes for a document.
pub uninterp spec fn json_text(value: JsonModel) -> Seq<char>;

/// Turns a `serde_json::Value` into a document, variant by variant. A number is kept as the text
/// that `serde_json` prints for it, and the members of an object keep the order of its map.
/// Nothing is stated of the result: the reader below names what comes out of it.
#[verifier::external_body]
fn from_value(value: serde_json::Value) -> (r: Json) {
    match value {
        serde_json::Value::Null => Json::Null,
        serde_json::Value::Bool(value) => Json::Bool(value),
        serde_json::Value::Number(number) => Json::Number(number.to_string()),
        serde_json::Value::String(text) => Json::Text(text),
        serde_json::Value::Array(items) => Json::Array(items.into_iter().map(from_value).collect()),
        serde_json::Value::Object(members) => Json::Object(
            members.into_iter().map(
                |(key, value)| Member { key, value: from_value(value) },
            ).collect(),
        ),
    }
}

/// Turns a document into a `serde_json::Value`, variant by variant. The text of a
/// number goes through `serde_json::from_str`: it becomes whatever document it holds, and null
/// where it holds none. Nothing is stated of the result: the writer below names what comes out of
/// it.
#[verifier::external_body]
fn to_value(value: &Json) -> (r: serde_json::Value) {
    match value {
        Json::Null => serde_json::Value::Null,
        Json::Bool(value) => serde_json::Value::Bool(*value),
        Json::Number(text) => serde_json::from_str(text).unwrap_or(serde_json::Value::Null),
        Json::Text(text) => serde_json::Value::String(text.clone()),
        Json::Array(items) => serde_json::Value::Array(items.iter().map(to_value).collect()),
        Json::Object(members) => serde_json::Value::Object(
            members.iter().map(|member| (member.key.clone(), to_value(&member.value))).collect(),
        ),
    }
}

/// Reads a text with `serde_json::from_str`. The result, a document or the text of the error, is
/// a function of the text alone; it is named and not described.
#[verifier::external_body]
pub(crate) fn read_json(text: &str) -> (r: Result<Json, String>)
    ensures
        outcome(r) == json_document(text@),
{
    serde_json::from_str::<serde_json::Value>(text).map(from_value).map_err(
        |error| error.to_string(),
    )
}

/// Writes a document as the compact text of `serde_json::Value`. The result is a function of the
/// document alone; it is named and not described.
#[verifier::external_body]
pub(crate) fn write_json(value: &Json) -> (r: String)
    ensures
        r@ == json_text(value.deep_view()),
{
    to_value(value).to_string()
}

impl Json {
    /// Reads a document.
    pub fn parse(text: &str) -> (r: Result<Json, String>)
        ensures
            outcome(r) == json_document(text@),
    {
        read_json(text)
    }

    /// Writes the document as compact text.
    pub fn render(&self) -> (r: String)
        ensures
            r@ == json_text(self.deep_view()),
    {
        write_json(self)
    }
}

} // verus!
