//! The boundary to `serde_json`: its `Value` type, the names under which the
//! contracts speak of what it computes, and one wrapper for each of its
//! functions that the library calls. Nothing in this file is proved; every
//! contract here restates what `serde_json` documents or its source shows.

use crate::json::Json;
use serde_json::Value;
use vstd::prelude::*;

verus! {

/// `serde_json::Value`, taken as opaque: what a value holds is told by
/// `json_of`, and by nothing else.
#[verifier::external_type_specification]
#[verifier::external_body]
pub struct ExValue(serde_json::Value);

/// The document that a `Value` holds, variant for variant: a number in the
/// form in which `serde_json` keeps it, and an object as the map from its
/// keys to its members, which is how `serde_json` keeps one unless its
/// feature `preserve_order` is switched on.
pub uninterp spec fn json_of(v: Value) -> Json;

/// What `serde_json::from_str` makes of a text read as a `Value`: the
/// document, or the message of the error.
pub uninterp spec fn json_parse(text: Seq<char>) -> Result<Json, Seq<char>>;

/// What `serde_json::from_str` makes of a text read as a `Vec<Value>`: the
/// items of the array, or the message of the error.
pub uninterp spec fn json_parse_list(text: Seq<char>) -> Result<Seq<Json>, Seq<char>>;

/// What `serde_json::to_string` makes of a document: its compact JSON text,
/// or the message of the error.
pub uninterp spec fn json_text(doc: Json) -> Result<Seq<char>, Seq<char>>;

/// The documents that a sequence of values holds.
pub open spec fn json_of_each(items: Seq<Value>) -> Seq<Json> {
    items.map_values(|v: Value| json_of(v))
}

/// `serde_json::from_str::<Value>`: reads a text as one JSON document. The
/// outcome is a function of the text, named `json_parse`; an error is handed
/// on as its message.
#[verifier::external_body]
pub(crate) fn parse_value(text: &str) -> (r: Result<Value, String>)
    ensures
        match r {
            Ok(v) => json_parse(text@) == Ok::<Json, Seq<char>>(json_of(v)),
            Err(message) => json_parse(text@) == Err::<Json, Seq<char>>(message@),
        },
{
    serde_json::from_str::<Value>(text).map_err(|e| e.to_string())
}

/// `serde_json::from_str::<Vec<Value>>`: reads a text as a JSON array. The
/// outcome is a function of the text, named `json_parse_list`; an error is
/// handed on as its message.
#[verifier::external_body]
pub(crate) fn parse_value_list(text: &str) -> (r: Result<Vec<Value>, String>)
    ensures
        match r {
            Ok(items) => json_parse_list(text@) == Ok::<Seq<Json>, Seq<char>>(
                json_of_each(items@),
            ),
            Err(message) => json_parse_list(text@) == Err::<Seq<Json>, Seq<char>>(message@),
        },
{
    serde_json::from_str::<Vec<Value>>(text).map_err(|e| e.to_string())
}

/// `serde_json::to_string` on a `Value`: writes the document as compact JSON
/// text. The outcome is a function of the document, named `json_text`; an
/// error is handed on as its message.
#[verifier::external_body]
pub(crate) fn value_to_text(v: &Value) -> (r: Result<String, String>)
    ensures
        match r {
            Ok(text) => json_text(json_of(*v)) == Ok::<Seq<char>, Seq<char>>(text@),
            Err(message) => json_text(json_of(*v)) == Err::<Seq<char>, Seq<char>>(message@),
        },
{
    serde_json::to_string(v).map_err(|e| e.to_string())
}

/// `Value::get` with a string key: the member under `key` where the value is
/// an object that has one, and `None` otherwise.
#[verifier::external_body]
pub(crate) fn value_get<'a>(v: &'a Value, key: &str) -> (r: Option<&'a Value>)
    ensures
        match r {
            Some(member) => json_of(*v).get(key@) == Some(json_of(*member)),
            None => json_of(*v).get(key@) is None,
        },
{
    v.get(key)
}

/// `Value::as_str`: the text where the value is a string, and `None`
/// otherwise.
#[verifier::external_body]
pub(crate) fn value_as_str<'a>(v: &'a Value) -> (r: Option<&'a str>)
    ensures
        match r {
            Some(text) => json_of(*v).as_str() == Some(text@),
            None => json_of(*v).as_str() is None,
        },
{
    v.as_str()
}

/// `Value::as_array`: the items where the value is an array, and `None`
/// otherwise.
#[verifier::external_body]
pub(crate) fn value_as_array<'a>(v: &'a Value) -> (r: Option<&'a Vec<Value>>)
    ensures
        match r {
            Some(items) => json_of(*v).as_array() == Some(json_of_each(items@)),
            None => json_of(*v).as_array() is None,
        },
{
    v.as_array()
}

/// `Value::as_u64`: the number where the value is one that is kept as a
/// non-negative integer, and `None` otherwise.
#[verifier::external_body]
pub(crate) fn value_as_u64(v: &Value) -> (r: Option<u64>)
    ensures
        r == json_of(*v).as_u64(),
{
    v.as_u64()
}

/// `Value::is_object`: whether the value is an object.
#[verifier::external_body]
pub(crate) fn value_is_object(v: &Value) -> (r: bool)
    ensures
        r == (json_of(*v) is Object),
{
    v.is_object()
}

/// `Value::is_null`: whether the value is null.
#[verifier::external_body]
pub(crate) fn value_is_null(v: &Value) -> (r: bool)
    ensures
        r == (json_of(*v) is Null),
{
    v.is_null()
}

/// `Value::clone`: a value that holds the same document.
pub assume_specification[ <Value as Clone>::clone ](v: &Value) -> (r: Value)
    ensures
        json_of(r) == json_of(*v),
;

/// The variant `Value::Null`.
#[verifier::external_body]
pub(crate) fn value_null() -> (r: Value)
    ensures
        json_of(r) == Json::Null,
{
    Value::Null
}

/// The variant `Value::Bool`.
#[verifier::external_body]
pub(crate) fn value_bool(b: bool) -> (r: Value)
    ensures
        json_of(r) == Json::Bool(b),
{
    Value::Bool(b)
}

/// The variant `Value::String`, with the text that it is made of.
#[verifier::external_body]
pub(crate) fn value_string(text: String) -> (r: Value)
    ensures
        json_of(r) == Json::String(text@),
{
    Value::String(text)
}

/// `Value::from` on a `u32`: the number, kept as a non-negative integer.
#[verifier::external_body]
pub(crate) fn value_unsigned(n: u32) -> (r: Value)
    ensures
        json_of(r) == Json::unsigned(n as u64),
{
    Value::from(n)
}

/// The variant `Value::Array`, with the items that it is made of, in their
/// order.
#[verifier::external_body]
pub(crate) fn value_array(items: Vec<Value>) -> (r: Value)
    ensures
        json_of(r) == Json::Array(json_of_each(items@)),
{
    Value::Array(items)
}

/// `Value::Object` on `Map::new()`: an object without members.
#[verifier::external_body]
pub(crate) fn value_object() -> (r: Value)
    ensures
        json_of(r) == Json::empty_object(),
{
    Value::Object(serde_json::Map::new())
}

/// Assignment through `Value::index_mut` with a string key: on an object it
/// stores `member` under `key`, in place of a member that was there. On a
/// value that is neither an object nor null the call panics, which the
/// precondition rules out.
#[verifier::external_body]
pub(crate) fn value_insert(obj: &mut Value, key: &str, member: Value)
    requires
        json_of(*old(obj)) is Object,
    ensures
        json_of(*final(obj)) == json_of(*old(obj)).with(key@, json_of(member)),
{
    obj[key] = member;
}

} // verus!
