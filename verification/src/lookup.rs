//! Reading the members of a document. A member that is absent reads as
//! `null`, so every lookup gives an answer and none fails.

use crate::json::Json;
use crate::value::{json_of, json_of_each, value_as_array, value_as_str, value_as_u64,
    value_get, value_null};
use serde_json::Value;
use vstd::prelude::*;

verus! {

/// The view of a string slice that may be absent.
pub open spec fn str_view(text: Option<&str>) -> Option<Seq<char>> {
    match text {
        Some(s) => Some(s@),
        None => None,
    }
}

/// The documents of a list of values that may be absent.
pub open spec fn list_view(items: Option<&Vec<Value>>) -> Option<Seq<Json>> {
    match items {
        Some(list) => Some(json_of_each(list@)),
        None => None,
    }
}

/// The text of a string, or the empty text where there is none.
pub open spec fn text_or_empty(text: Option<Seq<char>>) -> Seq<char> {
    match text {
        Some(s) => s,
        None => Seq::empty(),
    }
}

/// The text of the member `key`, where that member is a string.
pub fn member_str<'a>(v: &'a Value, key: &str) -> (r: Option<&'a str>)
    ensures
        str_view(r) == json_of(*v).field(key@).as_str(),
{
    match value_get(v, key) {
        Some(member) => value_as_str(member),
        None => None,
    }
}

/// The items of the member `key`, where that member is an array.
pub fn member_array<'a>(v: &'a Value, key: &str) -> (r: Option<&'a Vec<Value>>)
    ensures
        list_view(r) == json_of(*v).field(key@).as_array(),
{
    match value_get(v, key) {
        Some(member) => value_as_array(member),
        None => None,
    }
}

/// The number of the member `key`, where that member is a non-negative
/// integer.
pub fn member_u64(v: &Value, key: &str) -> (r: Option<u64>)
    ensures
        r == json_of(*v).field(key@).as_u64(),
{
    match value_get(v, key) {
        Some(member) => value_as_u64(member),
        None => None,
    }
}

/// A copy of the member `key`, and `null` where there is none.
pub fn member_or_null(v: &Value, key: &str) -> (r: Value)
    ensures
        json_of(r) == json_of(*v).field(key@),
{
    match value_get(v, key) {
        Some(member) => member.clone(),
        None => value_null(),
    }
}

/// An owned copy of a text, or the empty string where there is none.
pub fn owned_or_empty(text: Option<&str>) -> (r: String)
    ensures
        r@ == text_or_empty(str_view(text)),
{
    match text {
        Some(s) => s.to_owned(),
        None => String::new(),
    }
}

} // verus!
