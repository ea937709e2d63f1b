//! The content normalizer: whatever form a message's content has, the wire
//! format takes it as one string.

use crate::json::Json;
use crate::value::{json_of, json_text, value_as_array, value_as_str, value_get, value_is_object,
    value_to_text};
use serde_json::Value;
use vstd::prelude::*;

verus! {

/// The string that stands for a content document on the wire: a string's own
/// text, the compact JSON text of an object or an array, and the empty text
/// for every other form.
pub open spec fn normalized_content(content: Json) -> Seq<char> {
    match content {
        Json::String(text) => text,
        Json::Object(_) | Json::Array(_) => match json_text(content) {
            Ok(text) => text,
            Err(_) => Seq::empty(),
        },
        _ => Seq::empty(),
    }
}

/// Normalizes a content value. Never fails.
pub fn normalize_content(content: &Value) -> (r: String)
    ensures
        r@ == normalized_content(json_of(*content)),
{
    match value_as_str(content) {
        Some(text) => text.to_owned(),
        None => {
            if value_is_object(content) || value_as_array(content).is_some() {
                match value_to_text(content) {
                    Ok(text) => text,
                    Err(_) => String::new(),
                }
            } else {
                String::new()
            }
        },
    }
}

/// Normalizes the content of a message, which may have none.
pub fn normalize_member(msg: &Value, key: &str) -> (r: String)
    ensures
        r@ == normalized_content(json_of(*msg).field(key@)),
{
    match value_get(msg, key) {
        Some(content) => normalize_content(content),
        None => String::new(),
    }
}

} // verus!
