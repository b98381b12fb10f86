//! JSON text, read and written by serde_json.
use vstd::prelude::*;

use crate::json::{opt_json, Json, JsonV};

verus! {

/// `serde_json::Value`, declared so that what serde_json reads can be converted
/// into the library's JSON values. Nothing inside a value of it is visible.
#[verifier::external_type_specification]
#[verifier::external_body]
pub struct ExValue(serde_json::Value);

/// What serde_json reads from `text`: the JSON value, or none where `text` is not
/// JSON. Numbers keep the text that serde_json writes for them, and an object's
/// entries come in serde_json's order of keys.
pub uninterp spec fn json_text_value(text: Seq<char>) -> Option<JsonV>;

/// A serde_json value as the library's JSON value, one variant for the other:
/// a number as the text that serde_json writes for it, an object's entries in
/// serde_json's order.
#[verifier::external_body]
fn json_from_value(v: &serde_json::Value) -> Json {
    match v {
        serde_json::Value::Null => Json::Null,
        serde_json::Value::Bool(b) => Json::Bool(*b),
        serde_json::Value::Number(n) => Json::Number(n.to_string()),
        serde_json::Value::String(s) => Json::Text(s.clone()),
        serde_json::Value::Array(items) => Json::Array(items.iter().map(json_from_value).collect()),
        serde_json::Value::Object(m) => Json::Object(
            m.iter().map(|(k, x)| (k.clone(), json_from_value(x))).collect(),
        ),
    }
}

/// `serde_json::from_str` into a `serde_json::Value`, converted into the library's
/// JSON value; none where serde_json refuses the text. The contract names what
/// serde_json reads (`json_text_value`) and does not state JSON's grammar.
#[verifier::external_body]
pub(crate) fn parse_json_text(text: &str) -> (r: Option<Json>)
    ensures
        opt_json(r) == json_text_value(text@),
{
    match serde_json::from_str::<serde_json::Value>(text) {
        Ok(v) => Some(json_from_value(&v)),
        Err(_) => None,
    }
}

/// The compact JSON text that serde_json writes for `v` (`Value::to_string`).
pub uninterp spec fn json_compact_text(v: JsonV) -> Seq<char>;

/// The indented JSON text that serde_json writes for `v` (`to_string_pretty`).
pub uninterp spec fn json_pretty_text(v: JsonV) -> Seq<char>;

/// The library's JSON value as a serde_json value, one variant for the other: a
/// number from its text (`null` where serde_json does not read the text as a
/// number), an object's entries into serde_json's map, where the first entry of
/// a key stands.
#[verifier::external_body]
fn json_to_value(j: &Json) -> serde_json::Value {
    match j {
        Json::Null => serde_json::Value::Null,
        Json::Bool(b) => serde_json::Value::Bool(*b),
        Json::Number(n) => serde_json::from_str::<serde_json::Number>(n).map(
            serde_json::Value::Number,
        ).unwrap_or(serde_json::Value::Null),
        Json::Text(s) => serde_json::Value::String(s.clone()),
        Json::Array(items) => serde_json::Value::Array(items.iter().map(json_to_value).collect()),
        Json::Object(es) => serde_json::Value::Object(
            es.iter().rev().map(|(k, x)| (k.clone(), json_to_value(x))).collect(),
        ),
    }
}

/// `Value::to_string` (serde_json's `Display`) on `j` as a serde_json value: the
/// contract names the text (`json_compact_text`) and does not state the format.
#[verifier::external_body]
pub(crate) fn compact_text(j: &Json) -> (r: String)
    ensures
        r@ == json_compact_text(j@),
{
    json_to_value(j).to_string()
}

/// `serde_json::to_string_pretty` on `j` as a serde_json value, which cannot fail
/// on one (its keys are strings): the contract names the text
/// (`json_pretty_text`) and does not state the format.
#[verifier::external_body]
pub(crate) fn pretty_text(j: &Json) -> (r: String)
    ensures
        r@ == json_pretty_text(j@),
{
    match serde_json::to_string_pretty(&json_to_value(j)) {
        Ok(t) => t,
        Err(_) => String::new(),
    }
}

} // verus!
