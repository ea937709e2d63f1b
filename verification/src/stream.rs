//! The stream delta extractor: what one fragment of a server-sent event
//! stream carries. Each fragment is read by itself; nothing is kept from one
//! fragment to the next.

use crate::json::Json;
use crate::lookup::{member_array, member_str, member_u64, owned_or_empty, str_view, text_or_empty};
use crate::text::{chars_of, find, first_occurrence, lemma_first_occurrence_exists, matches_at,
    occurs_at, starts_with, text_eq, trim, trimmed};
use crate::types::{ContentDelta, ContentDeltaView, ToolCall, ToolCallView};
use crate::value::{json_of, json_of_each, json_parse, parse_value, value_get};
use serde_json::Value;
use vstd::prelude::*;
use vstd::string::*;

verus! {

/// The view of a delta that may be absent.
pub open spec fn delta_view(delta: Option<ContentDelta>) -> Option<ContentDeltaView> {
    match delta {
        Some(d) => Some(d@),
        None => None,
    }
}

/// The payload of a fragment: what follows `data: ` where the fragment begins
/// with it, else what follows the leftmost `data: ` that begins a later line.
/// A fragment of any other form has no payload.
pub open spec fn sse_payload(fragment: Seq<char>) -> Option<Seq<char>> {
    if starts_with(fragment, "data: "@) {
        Some(fragment.skip("data: "@.len() as int))
    } else {
        match first_occurrence(fragment, "\ndata: "@) {
            Some(at) => Some(fragment.skip(at + "\ndata: "@.len())),
            None => None,
        }
    }
}

/// The position of a tool call among the calls of one answer: the member
/// `index` where it is a non-negative integer, taken modulo 2^32.
pub open spec fn call_index(call: Json) -> Option<u32> {
    match call.field("index"@).as_u64() {
        Some(i) => Some((i % 0x1_0000_0000) as u32),
        None => None,
    }
}

/// What a fragment says of a tool call: its position, and its id, name and
/// arguments as far as the fragment has them, each empty where it has not.
/// A fragment that has none of the three says nothing.
pub open spec fn tool_call_delta(call: Json) -> Option<ContentDeltaView> {
    let id = call.field("id"@).as_str();
    let name = call.field("function"@).field("name"@).as_str();
    let arguments = call.field("function"@).field("arguments"@).as_str();
    if id is None && name is None && arguments is None {
        None
    } else {
        Some(
            ContentDeltaView::ToolCall {
                index: call_index(call),
                call: ToolCallView {
                    id: text_or_empty(id),
                    name: text_or_empty(name),
                    arguments: text_or_empty(arguments),
                },
            },
        )
    }
}

/// What the member `delta` of a choice carries: its text where `content` is a
/// string, else what the first of its `tool_calls` says.
pub open spec fn choice_delta(delta: Json) -> Option<ContentDeltaView> {
    match delta.field("content"@).as_str() {
        Some(text) => Some(ContentDeltaView::Content { text }),
        None => match delta.field("tool_calls"@).as_array() {
            Some(calls) => if calls.len() > 0 {
                tool_call_delta(calls[0])
            } else {
                None
            },
            None => None,
        },
    }
}

/// What a streamed document carries: the delta of the first of its choices.
pub open spec fn document_delta(doc: Json) -> Option<ContentDeltaView> {
    match doc.field("choices"@).as_array() {
        Some(choices) => if choices.len() > 0 {
            choice_delta(choices[0].field("delta"@))
        } else {
            None
        },
        None => None,
    }
}

/// What a payload carries: the end of the stream where it is `[DONE]`, else
/// what the JSON document that it holds carries, and nothing where it holds
/// none.
pub open spec fn payload_delta(payload: Seq<char>) -> Option<ContentDeltaView> {
    if payload == "[DONE]"@ {
        Some(ContentDeltaView::Done)
    } else {
        match json_parse(payload) {
            Ok(doc) => document_delta(doc),
            Err(_) => None,
        }
    }
}

/// What a fragment carries: what the payload of the trimmed fragment carries.
pub open spec fn stream_delta(chunk: Seq<char>) -> Option<ContentDeltaView> {
    match sse_payload(trim(chunk)) {
        Some(payload) => payload_delta(payload),
        None => None,
    }
}

/// Extracts the payload of a fragment.
pub fn payload_of(fragment: &str) -> (r: Option<&str>)
    ensures
        str_view(r) == sse_payload(fragment@),
{
    let chars = chars_of(fragment);
    let prefix = chars_of("data: ");
    if matches_at(&chars, &prefix, 0) {
        assert(fragment@.subrange(prefix.len() as int, chars.len() as int) =~= fragment@.skip(
            prefix.len() as int,
        ));
        Some(fragment.substring_char(prefix.len(), chars.len()))
    } else {
        let marker = chars_of("\ndata: ");
        match find(&chars, &marker) {
            Some(at) => {
                assert(fragment@.subrange(at + marker.len(), chars.len() as int)
                    =~= fragment@.skip(at + marker.len()));
                Some(fragment.substring_char(at + marker.len(), chars.len()))
            },
            None => None,
        }
    }
}

/// Reads what a fragment says of a tool call.
pub fn delta_from_tool_call(call: &Value) -> (r: Option<ContentDelta>)
    ensures
        delta_view(r) == tool_call_delta(json_of(*call)),
{
    let index = match member_u64(call, "index") {
        Some(i) => Some((i % 0x1_0000_0000) as u32),
        None => None,
    };
    let id = member_str(call, "id");
    let function = value_get(call, "function");
    let name = match function {
        Some(f) => member_str(f, "name"),
        None => None,
    };
    let arguments = match function {
        Some(f) => member_str(f, "arguments"),
        None => None,
    };
    if id.is_some() || name.is_some() || arguments.is_some() {
        Some(
            ContentDelta::ToolCall {
                index,
                call: ToolCall {
                    id: owned_or_empty(id),
                    name: owned_or_empty(name),
                    arguments: owned_or_empty(arguments),
                },
            },
        )
    } else {
        None
    }
}

/// Reads what the member `delta` of a choice carries.
pub fn delta_from_choice_delta(delta: &Value) -> (r: Option<ContentDelta>)
    ensures
        delta_view(r) == choice_delta(json_of(*delta)),
{
    match member_str(delta, "content") {
        Some(text) => Some(ContentDelta::Content { text: text.to_owned() }),
        None => match member_array(delta, "tool_calls") {
            Some(calls) => {
                if calls.len() > 0 {
                    assert(json_of_each(calls@)[0] == json_of(calls@[0]));
                    delta_from_tool_call(&calls[0])
                } else {
                    None
                }
            },
            None => None,
        },
    }
}

/// Reads what a streamed document carries.
pub fn delta_from_document(doc: &Value) -> (r: Option<ContentDelta>)
    ensures
        delta_view(r) == document_delta(json_of(*doc)),
{
    match member_array(doc, "choices") {
        Some(choices) => {
            if choices.len() > 0 {
                assert(json_of_each(choices@)[0] == json_of(choices@[0]));
                match value_get(&choices[0], "delta") {
                    Some(delta) => delta_from_choice_delta(delta),
                    None => None,
                }
            } else {
                None
            }
        },
        None => None,
    }
}

/// Reads what a payload carries.
pub fn delta_from_payload(payload: &str) -> (r: Option<ContentDelta>)
    ensures
        delta_view(r) == payload_delta(payload@),
{
    if text_eq(payload, "[DONE]") {
        Some(ContentDelta::Done)
    } else {
        match parse_value(payload) {
            Ok(doc) => delta_from_document(&doc),
            Err(_) => None,
        }
    }
}

/// Reads what one fragment of the stream carries. A fragment that is no
/// event, or whose payload cannot be read, carries nothing; no fragment is an
/// error.
pub fn delta_from_chunk(chunk: &str) -> (r: Option<ContentDelta>)
    ensures
        delta_view(r) == stream_delta(chunk@),
{
    match payload_of(trimmed(chunk)) {
        Some(payload) => delta_from_payload(payload),
        None => None,
    }
}


/// Whether a fragment has the form of an event: it begins with `data: `, or
/// a later line of it does.
pub open spec fn is_event(fragment: Seq<char>) -> bool {
    starts_with(fragment, "data: "@) || exists|i: int| occurs_at(fragment, "\ndata: "@, i)
}

/// A fragment has a payload exactly where it has the form of an event.
pub proof fn lemma_payload_of_events_only(fragment: Seq<char>)
    ensures
        sse_payload(fragment) is Some <==> is_event(fragment),
{
    if !starts_with(fragment, "data: "@) {
        if exists|i: int| occurs_at(fragment, "\ndata: "@, i) {
            let i = choose|i: int| occurs_at(fragment, "\ndata: "@, i);
            lemma_first_occurrence_exists(fragment, "\ndata: "@, i);
        }
    }
}

/// A fragment that has not the form of an event carries nothing, and so does
/// one whose payload is neither the end marker nor a JSON document. Whatever
/// the fragment holds, the outcome is a delta or none: there is no failure.
pub proof fn lemma_unreadable_fragment_carries_nothing(chunk: Seq<char>)
    ensures
        !is_event(trim(chunk)) ==> stream_delta(chunk) is None,
        sse_payload(trim(chunk)) matches Some(payload) && payload != "[DONE]"@ && json_parse(
            payload,
        ) is Err ==> stream_delta(chunk) is None,
{
    lemma_payload_of_events_only(trim(chunk));
}

/// A fragment whose payload is the end marker carries the end of the stream.
pub proof fn lemma_end_marker_carries_done(chunk: Seq<char>)
    requires
        sse_payload(trim(chunk)) == Some("[DONE]"@),
    ensures
        stream_delta(chunk) == Some(ContentDeltaView::Done),
{
}

/// A fragment whose payload is a document with a string `content` in the
/// delta of its first choice carries that text, whatever else the delta has.
pub proof fn lemma_content_comes_first(
    chunk: Seq<char>,
    payload: Seq<char>,
    doc: Json,
    text: Seq<char>,
)
    requires
        sse_payload(trim(chunk)) == Some(payload),
        payload != "[DONE]"@,
        json_parse(payload) == Ok::<Json, Seq<char>>(doc),
        doc.field("choices"@) matches Json::Array(choices) && choices.len() > 0
            && choices[0].field("delta"@).field("content"@) == Json::String(text),
    ensures
        stream_delta(chunk) == Some(ContentDeltaView::Content { text }),
{
}

} // verus!
