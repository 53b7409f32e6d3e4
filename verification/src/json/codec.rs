//! Reading and writing JSON texts, and looking up JSON pointers, with
//! serde_json.

use super::{json_value, Json, JsonNumber, JsonObject, JsonValue, RealNumber};
use vstd::prelude::*;

verus! {

/// `serde_json::Value`, the document of the outside crate: nothing is known
/// here of what one holds.
#[verifier::external_type_specification]
#[verifier::external_body]
pub struct ExValue(serde_json::Value);

/// `serde_json::Number`, the number of the outside crate: nothing is known
/// here of what one holds.
#[verifier::external_type_specification]
#[verifier::external_body]
pub struct ExNumber(serde_json::Number);

/// What `serde_json::from_slice` makes of a text: the document it holds, or
/// the message of the error that the text is refused with.
pub uninterp spec fn json_parse(text: Seq<u8>) -> Result<JsonValue, Seq<char>>;

/// The text that `serde_json::to_vec` writes for a document. It is a function
/// of the document's value as serde_json is built here, with the members of
/// an object kept in the order of their keys.
pub uninterp spec fn json_text(doc: JsonValue) -> Seq<u8>;

/// The text that `serde_json::to_vec_pretty` writes for a document. It is a
/// function of the document's value as serde_json is built here, with the
/// members of an object kept in the order of their keys.
pub uninterp spec fn json_text_pretty(doc: JsonValue) -> Seq<u8>;

/// What `serde_json::Value::pointer` finds in a document under a JSON pointer.
pub uninterp spec fn json_pointer(doc: JsonValue, pointer: Seq<char>) -> Option<JsonValue>;

/// The value of the document that a parse ended with, or the characters of
/// its error message.
pub open spec fn outcome_value(r: Result<Json, String>) -> Result<JsonValue, Seq<char>> {
    match r {
        Ok(doc) => Ok(json_value(doc)),
        Err(message) => Err(message@),
    }
}

/// The value of the document that a lookup found, if any.
pub open spec fn found_value(r: Option<Json>) -> Option<JsonValue> {
    match r {
        Some(doc) => Some(json_value(doc)),
        None => None,
    }
}

/// Turns a `serde_json::Number` into the library's number, variant by variant:
/// an integer that fits 64 bits keeps its value, any other number keeps the
/// text that serde_json prints for it. Nothing is claimed of the result here.
#[verifier::external_body]
fn number_from_outside(n: &serde_json::Number) -> JsonNumber {
    match (n.as_i64(), n.as_u64()) {
        (Some(i), _) => JsonNumber::Int(i),
        (_, Some(u)) => JsonNumber::UInt(u),
        _ => JsonNumber::Real(RealNumber { text: n.to_string() }),
    }
}

/// Turns the library's number into a `serde_json::Value`; the text of a
/// number that is no integer is read again by serde_json, and a text that it
/// does not read as a number becomes null. Nothing is claimed of the result
/// here.
#[verifier::external_body]
fn number_to_outside(n: &JsonNumber) -> serde_json::Value {
    match n {
        JsonNumber::Int(i) => serde_json::Value::from(*i),
        JsonNumber::UInt(u) => serde_json::Value::from(*u),
        JsonNumber::Real(r) => match r.text.parse::<serde_json::Number>() {
            Ok(n) => serde_json::Value::Number(n),
            Err(_) => serde_json::Value::Null,
        },
    }
}

/// Turns a `serde_json::Value` into the library's document, variant by
/// variant. Nothing is claimed of the result here: the functions below that
/// call serde_json state what they return.
#[verifier::external_body]
fn from_outside(v: serde_json::Value) -> Json {
    match v {
        serde_json::Value::Null => Json::Null,
        serde_json::Value::Bool(b) => Json::Bool(b),
        serde_json::Value::Number(n) => Json::Number(number_from_outside(&n)),
        serde_json::Value::String(s) => Json::Str(s),
        serde_json::Value::Array(a) => Json::Array(a.into_iter().map(from_outside).collect()),
        serde_json::Value::Object(o) => Json::Object(
            JsonObject { members: o.into_iter().map(|(k, v)| (k, from_outside(v))).collect() },
        ),
    }
}

/// Turns the library's document into a `serde_json::Value`, variant by
/// variant. Nothing is claimed of the result here.
#[verifier::external_body]
fn to_outside(j: &Json) -> serde_json::Value {
    match j {
        Json::Null => serde_json::Value::Null,
        Json::Bool(b) => serde_json::Value::Bool(*b),
        Json::Number(n) => number_to_outside(n),
        Json::Str(s) => serde_json::Value::String(s.clone()),
        Json::Array(a) => serde_json::Value::Array(a.iter().map(to_outside).collect()),
        Json::Object(o) => serde_json::Value::Object(
            o.members.iter().map(|(k, v)| (k.clone(), to_outside(v))).collect(),
        ),
    }
}

/// Calls `serde_json::from_slice` for a `serde_json::Value`. The contract
/// names the outcome: a document whose value is the one that serde_json reads
/// from these bytes, or the text of its error.
#[verifier::external_body]
pub(crate) fn parse_json(text: &[u8]) -> (r: Result<Json, String>)
    ensures
        json_parse(text@) == outcome_value(r),
{
    match serde_json::from_slice::<serde_json::Value>(text) {
        Ok(v) => Ok(from_outside(v)),
        Err(e) => Err(e.to_string()),
    }
}

/// Calls `serde_json::to_vec` on the document. The contract names the bytes:
/// they depend on the document's value alone.
#[verifier::external_body]
pub(crate) fn write_json(doc: &Json) -> (r: Vec<u8>)
    ensures
        r@ == json_text(json_value(*doc)),
{
    serde_json::to_vec(&to_outside(doc)).unwrap_or_default()
}

/// Calls `serde_json::to_vec_pretty` on the document. The contract names the
/// bytes: they depend on the document's value alone.
#[verifier::external_body]
pub(crate) fn write_json_pretty(doc: &Json) -> (r: Vec<u8>)
    ensures
        r@ == json_text_pretty(json_value(*doc)),
{
    serde_json::to_vec_pretty(&to_outside(doc)).unwrap_or_default()
}

/// Calls `serde_json::Value::pointer`. The contract names what is found: it
/// depends on the document's value and on the pointer alone.
#[verifier::external_body]
pub(crate) fn find_pointer(doc: &Json, pointer: &str) -> (r: Option<Json>)
    ensures
        json_pointer(json_value(*doc), pointer@) == found_value(r),
{
    to_outside(doc).pointer(pointer).cloned().map(from_outside)
}

impl Json {
    /// Reads a document from a JSON text.
    pub fn parse(text: &[u8]) -> (r: Result<Json, String>)
        ensures
            json_parse(text@) == outcome_value(r),
    {
        parse_json(text)
    }

    /// The document as a compact JSON text.
    pub fn to_bytes(&self) -> (r: Vec<u8>)
        ensures
            r@ == json_text(json_value(*self)),
    {
        write_json(self)
    }

    /// The document as an indented JSON text.
    pub fn to_bytes_pretty(&self) -> (r: Vec<u8>)
        ensures
            r@ == json_text_pretty(json_value(*self)),
    {
        write_json_pretty(self)
    }

    /// What a JSON pointer finds in the document.
    pub fn pointer(&self, pointer: &str) -> (r: Option<Json>)
        ensures
            json_pointer(json_value(*self), pointer@) == found_value(r),
    {
        find_pointer(self, pointer)
    }
}

} // verus!
