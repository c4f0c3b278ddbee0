//! Reading a JSON text, and writing a JSON string literal, with `serde_json`.
//!
//! The parser and the writer are `serde_json`'s own. What they compute is not
//! restated here: each result has a name, and the verified functions say how
//! what they return depends on those names.

use crate::json::{Json, JsonValue};
use vstd::prelude::*;

verus! {

/// `serde_json::Value`, of which nothing is known here but what [`held`]
/// names.
#[verifier::external_type_specification]
#[verifier::external_body]
pub struct ExValue(serde_json::Value);

/// `serde_json::Error`, of which nothing is known here.
#[verifier::external_type_specification]
#[verifier::external_body]
pub struct ExError(serde_json::Error);

/// The document that `serde_json::from_str` reads from a text, and `None`
/// for a text that it rejects.
pub uninterp spec fn parsed(text: Seq<char>) -> Option<JsonValue>;

/// The document that a `serde_json::Value` holds: its scalars, items and
/// members, a number as the text that `serde_json` displays it with, and the
/// members of an object in the order in which its map hands them out.
pub uninterp spec fn held(v: serde_json::Value) -> JsonValue;

/// The text that `serde_json` displays a string value with: the JSON string
/// literal, in double quotes and with its escapes.
pub uninterp spec fn string_literal(s: Seq<char>) -> Seq<char>;

/// Calls `serde_json::from_str` for a `serde_json::Value`. The result of
/// that call is a function of the text alone; the contract names it and
/// says nothing of what it is.
#[verifier::external_body]
fn read_value(text: &str) -> (r: Result<serde_json::Value, serde_json::Error>)
    ensures
        match r {
            Ok(v) => parsed(text@) == Some(held(v)),
            Err(_) => parsed(text@) is None,
        },
{
    serde_json::from_str::<serde_json::Value>(text)
}

/// Copies a `serde_json::Value` into a [`Json`], variant by variant, each
/// number through `serde_json`'s `Display` for `Number`. The contract says
/// that the copy holds what the value holds.
#[verifier::external_body]
fn lift(v: &serde_json::Value) -> (j: Json)
    ensures
        j@ == held(*v),
{
    match v {
        serde_json::Value::Null => Json::Null,
        serde_json::Value::Bool(b) => Json::Bool(*b),
        serde_json::Value::Number(n) => Json::Number(n.to_string()),
        serde_json::Value::String(s) => Json::Str(s.clone()),
        serde_json::Value::Array(items) => Json::Array(items.iter().map(lift).collect()),
        serde_json::Value::Object(m) => Json::Object(
            m.iter().map(|(k, x)| (k.clone(), lift(x))).collect(),
        ),
    }
}

/// Displays a string as `serde_json` displays a string value: `Display`
/// for `serde_json::Value`, on a `Value::String`.
#[verifier::external_body]
pub(crate) fn quote(s: &str) -> (r: String)
    ensures
        r@ == string_literal(s@),
{
    serde_json::Value::String(s.to_owned()).to_string()
}

/// Reads a JSON text. Returns the document where `serde_json` accepts the
/// text, and `None` where it does not.
pub fn decode(text: &str) -> (r: Option<Json>)
    ensures
        match r {
            Some(doc) => parsed(text@) == Some(doc@),
            None => parsed(text@) is None,
        },
{
    match read_value(text) {
        Ok(v) => Some(lift(&v)),
        Err(_) => None,
    }
}

} // verus!
