//! The response parser: from the body of a complete answer to the
//! assistant's message.

use crate::json::Json;
use crate::lookup::{member_array, member_str, owned_or_empty, text_or_empty};
use crate::types::{views, AssistantMessage, AssistantMessageView, ErrorCode, ProviderError,
    ProviderErrorView, ToolCall, ToolCallView};
use crate::value::{json_of, json_of_each, json_parse, parse_value, value_as_array, value_as_str,
    value_get, value_is_null, value_is_object};
use serde_json::Value;
use vstd::prelude::*;

verus! {

/// Whether a member that may be left out is a string where it is given:
/// `null`, which an absent member reads as, or a string.
pub open spec fn is_optional_text(doc: Json) -> bool {
    doc is Null || doc is String
}

/// Whether a document has the shape of a function call: an object with the
/// strings `name` and `arguments`.
pub open spec fn is_function_call(doc: Json) -> bool {
    &&& doc is Object
    &&& doc.field("name"@) is String
    &&& doc.field("arguments"@) is String
}

/// Whether a document has the shape of a tool call: an object with the
/// strings `id` and `type` and the function call `function`.
pub open spec fn is_tool_call(doc: Json) -> bool {
    &&& doc is Object
    &&& doc.field("id"@) is String
    &&& doc.field("type"@) is String
    &&& is_function_call(doc.field("function"@))
}

/// Whether every document of a list has the shape of a tool call.
pub open spec fn all_tool_calls(calls: Seq<Json>) -> bool {
    forall|i: int| 0 <= i < calls.len() ==> is_tool_call(#[trigger] calls[i])
}

/// Whether a member that may be left out is a list of tool calls where it is
/// given.
pub open spec fn is_optional_tool_calls(doc: Json) -> bool {
    match doc {
        Json::Null => true,
        Json::Array(calls) => all_tool_calls(calls),
        _ => false,
    }
}

/// Whether a document has the shape of an answered message: an object with
/// the string `role` and, where they are given, the string `content` and the
/// tool calls `tool_calls`.
pub open spec fn is_response_message(doc: Json) -> bool {
    &&& doc is Object
    &&& doc.field("role"@) is String
    &&& is_optional_text(doc.field("content"@))
    &&& is_optional_tool_calls(doc.field("tool_calls"@))
}

/// Whether a document has the shape of a choice: an object with the answered
/// message `message` and, where it is given, the string `finish_reason`.
pub open spec fn is_choice(doc: Json) -> bool {
    &&& doc is Object
    &&& is_response_message(doc.field("message"@))
    &&& is_optional_text(doc.field("finish_reason"@))
}

/// Whether every document of a list has the shape of a choice.
pub open spec fn all_choices(choices: Seq<Json>) -> bool {
    forall|i: int| 0 <= i < choices.len() ==> is_choice(#[trigger] choices[i])
}

/// Whether a document has the shape of a response: an object with the list
/// of choices `choices` and, where it is given, the string `id`. Members of
/// other names are passed over, here and in every part of a response.
pub open spec fn is_response(doc: Json) -> bool {
    &&& doc is Object
    &&& is_optional_text(doc.field("id"@))
    &&& doc.field("choices"@) matches Json::Array(choices) && all_choices(choices)
}

/// The tool call that a document of that shape holds. Id, name and arguments
/// are taken over as they stand; the arguments are not read as JSON.
pub open spec fn held_tool_call(doc: Json) -> ToolCallView {
    ToolCallView {
        id: text_or_empty(doc.field("id"@).as_str()),
        name: text_or_empty(doc.field("function"@).field("name"@).as_str()),
        arguments: text_or_empty(doc.field("function"@).field("arguments"@).as_str()),
    }
}

/// The tool calls that a list of documents holds.
pub open spec fn held_tool_calls(calls: Seq<Json>) -> Seq<ToolCallView> {
    calls.map_values(|call: Json| held_tool_call(call))
}

/// The assistant's message that an answered message holds: its content,
/// which may be absent, and its tool calls, none where the member is absent.
pub open spec fn held_message(message: Json) -> AssistantMessageView {
    AssistantMessageView {
        content: message.field("content"@).as_str(),
        tool_calls: match message.field("tool_calls"@).as_array() {
            Some(calls) => held_tool_calls(calls),
            None => Seq::empty(),
        },
    }
}

/// The failure for a document that has not the shape of a response.
pub open spec fn shape_failure() -> ProviderErrorView {
    ProviderError::describe(
        ErrorCode::ParseError,
        "Failed to parse response: "@,
        "the document does not have the shape of a response"@,
    )
}

/// The failure for a response without choices.
pub open spec fn empty_failure() -> ProviderErrorView {
    ProviderErrorView { message: "No choices in response"@, code: ErrorCode::EmptyResponse }
}

/// The outcome for a response document: a failure where it has not the shape
/// of a response or has no choice, else the message of its first choice. The
/// other choices are checked for their shape and not read.
pub open spec fn document_response(doc: Json) -> Result<AssistantMessageView, ProviderErrorView> {
    if !is_response(doc) {
        Err(shape_failure())
    } else {
        let choices = doc.field("choices"@).as_array()->0;
        if choices.len() == 0 {
            Err(empty_failure())
        } else {
            Ok(held_message(choices[0].field("message"@)))
        }
    }
}

/// The outcome for a response body: a failure where it holds no JSON
/// document, else the outcome for that document.
pub open spec fn parsed_response(body: Seq<char>) -> Result<
    AssistantMessageView,
    ProviderErrorView,
> {
    match json_parse(body) {
        Ok(doc) => document_response(doc),
        Err(detail) => Err(
            ProviderError::describe(ErrorCode::ParseError, "Failed to parse response: "@, detail),
        ),
    }
}

/// The view of an outcome that is a message or a failure.
pub open spec fn message_outcome(r: Result<AssistantMessage, ProviderError>) -> Result<
    AssistantMessageView,
    ProviderErrorView,
> {
    match r {
        Ok(message) => Ok(message@),
        Err(e) => Err(e@),
    }
}

/// Tests whether the member `key` is a string or left out.
pub fn has_optional_text(doc: &Value, key: &str) -> (r: bool)
    ensures
        r == is_optional_text(json_of(*doc).field(key@)),
{
    match value_get(doc, key) {
        Some(member) => value_is_null(member) || value_as_str(member).is_some(),
        None => true,
    }
}

/// Tests a document for the shape of a function call.
pub fn check_function_call(doc: &Value) -> (r: bool)
    ensures
        r == is_function_call(json_of(*doc)),
{
    value_is_object(doc) && member_str(doc, "name").is_some() && member_str(
        doc,
        "arguments",
    ).is_some()
}

/// Tests a document for the shape of a tool call.
pub fn check_tool_call(doc: &Value) -> (r: bool)
    ensures
        r == is_tool_call(json_of(*doc)),
{
    if !(value_is_object(doc) && member_str(doc, "id").is_some() && member_str(
        doc,
        "type",
    ).is_some()) {
        return false;
    }
    match value_get(doc, "function") {
        Some(function) => check_function_call(function),
        None => false,
    }
}

/// Tests every document of a list for the shape of a tool call.
pub fn check_tool_calls(calls: &Vec<Value>) -> (r: bool)
    ensures
        r == all_tool_calls(json_of_each(calls@)),
{
    let mut i: usize = 0;
    while i < calls.len()
        invariant
            i <= calls.len(),
            forall|j: int| 0 <= j < i ==> is_tool_call(#[trigger] json_of_each(calls@)[j]),
        decreases calls.len() - i,
    {
        assert(json_of_each(calls@)[i as int] == json_of(calls@[i as int]));
        if !check_tool_call(&calls[i]) {
            return false;
        }
        i += 1;
    }
    true
}

/// Tests a document for the shape of an answered message.
pub fn check_response_message(doc: &Value) -> (r: bool)
    ensures
        r == is_response_message(json_of(*doc)),
{
    if !(value_is_object(doc) && member_str(doc, "role").is_some() && has_optional_text(
        doc,
        "content",
    )) {
        return false;
    }
    match value_get(doc, "tool_calls") {
        Some(member) => {
            if value_is_null(member) {
                true
            } else {
                match value_as_array(member) {
                    Some(calls) => check_tool_calls(calls),
                    None => false,
                }
            }
        },
        None => true,
    }
}

/// Tests a document for the shape of a choice.
pub fn check_choice(doc: &Value) -> (r: bool)
    ensures
        r == is_choice(json_of(*doc)),
{
    if !(value_is_object(doc) && has_optional_text(doc, "finish_reason")) {
        return false;
    }
    match value_get(doc, "message") {
        Some(message) => check_response_message(message),
        None => false,
    }
}

/// Tests every document of a list for the shape of a choice.
pub fn check_choices(choices: &Vec<Value>) -> (r: bool)
    ensures
        r == all_choices(json_of_each(choices@)),
{
    let mut i: usize = 0;
    while i < choices.len()
        invariant
            i <= choices.len(),
            forall|j: int| 0 <= j < i ==> is_choice(#[trigger] json_of_each(choices@)[j]),
        decreases choices.len() - i,
    {
        assert(json_of_each(choices@)[i as int] == json_of(choices@[i as int]));
        if !check_choice(&choices[i]) {
            return false;
        }
        i += 1;
    }
    true
}

/// Reads the tool call that a document holds.
pub fn read_tool_call(doc: &Value) -> (call: ToolCall)
    ensures
        call@ == held_tool_call(json_of(*doc)),
{
    let function = value_get(doc, "function");
    let name = match function {
        Some(f) => member_str(f, "name"),
        None => None,
    };
    let arguments = match function {
        Some(f) => member_str(f, "arguments"),
        None => None,
    };
    ToolCall {
        id: owned_or_empty(member_str(doc, "id")),
        name: owned_or_empty(name),
        arguments: owned_or_empty(arguments),
    }
}

/// Reads the assistant's message that an answered message holds.
pub fn read_message(message: &Value) -> (r: AssistantMessage)
    ensures
        r@ == held_message(json_of(*message)),
{
    let content = match member_str(message, "content") {
        Some(text) => Some(text.to_owned()),
        None => None,
    };
    let mut tool_calls: Vec<ToolCall> = Vec::new();
    match member_array(message, "tool_calls") {
        Some(calls) => {
            let mut i: usize = 0;
            while i < calls.len()
                invariant
                    i <= calls.len(),
                    tool_calls.len() == i,
                    forall|j: int|
                        0 <= j < i ==> (#[trigger] tool_calls@[j])@ == held_tool_call(
                            json_of(calls@[j]),
                        ),
                decreases calls.len() - i,
            {
                tool_calls.push(read_tool_call(&calls[i]));
                i += 1;
            }
            assert(views(tool_calls@) =~= held_tool_calls(json_of_each(calls@)));
        },
        None => {
            assert(views(tool_calls@) =~= Seq::<ToolCallView>::empty());
        },
    }
    AssistantMessage { content, tool_calls }
}

/// Reads the assistant's message from a response document.
pub fn response_from_document(doc: &Value) -> (r: Result<AssistantMessage, ProviderError>)
    ensures
        message_outcome(r) == document_response(json_of(*doc)),
{
    if !(value_is_object(doc) && has_optional_text(doc, "id")) {
        return Err(shape_error());
    }
    let choices = match member_array(doc, "choices") {
        Some(choices) => choices,
        None => {
            return Err(shape_error());
        },
    };
    if !check_choices(choices) {
        return Err(shape_error());
    }
    if choices.len() == 0 {
        return Err(
            ProviderError::with_message(ErrorCode::EmptyResponse, "No choices in response"),
        );
    }
    assert(json_of_each(choices@)[0] == json_of(choices@[0]));
    match value_get(&choices[0], "message") {
        Some(message) => Ok(read_message(message)),
        None => Err(shape_error()),
    }
}

/// Makes the failure for a document that has not the shape of a response.
fn shape_error() -> (e: ProviderError)
    ensures
        e@ == shape_failure(),
{
    ProviderError::new(
        ErrorCode::ParseError,
        "Failed to parse response: ",
        "the document does not have the shape of a response",
    )
}

/// Reads the assistant's message from a response body.
pub fn response_from_text(body: &str) -> (r: Result<AssistantMessage, ProviderError>)
    ensures
        message_outcome(r) == parsed_response(body@),
{
    match parse_value(body) {
        Ok(doc) => response_from_document(&doc),
        Err(detail) => Err(
            ProviderError::new(
                ErrorCode::ParseError,
                "Failed to parse response: ",
                detail.as_str(),
            ),
        ),
    }
}


/// A response whose list of choices is empty is a failure of the kind
/// `EmptyResponse`, never an empty success.
pub proof fn lemma_no_choice_is_a_failure(body: Seq<char>, doc: Json)
    requires
        doc is Object,
        is_optional_text(doc.field("id"@)),
        doc.field("choices"@) == Json::Array(Seq::empty()),
    ensures
        document_response(doc) == Err::<AssistantMessageView, ProviderErrorView>(empty_failure()),
        empty_failure().code == ErrorCode::EmptyResponse,
        json_parse(body) == Ok::<Json, Seq<char>>(doc) ==> parsed_response(body) == Err::<
            AssistantMessageView,
            ProviderErrorView,
        >(empty_failure()),
{
}

/// A response succeeds exactly where it has the shape of a response and at
/// least one choice.
pub proof fn lemma_response_succeeds_iff(doc: Json)
    ensures
        document_response(doc) is Ok <==> is_response(doc) && doc.field(
            "choices"@,
        ).as_array()->0.len() > 0,
        document_response(doc) matches Err(e) ==> e.code == (if is_response(doc) {
            ErrorCode::EmptyResponse
        } else {
            ErrorCode::ParseError
        }),
{
}

/// A response whose first choice has no content and one tool call gives a
/// message without content and with that one call: its id, its name and its
/// arguments exactly as the response has them.
pub proof fn lemma_tool_call_is_preserved(doc: Json, call: Json)
    requires
        is_response(doc),
        doc.field("choices"@) matches Json::Array(choices) && choices.len() > 0
            && choices[0].field("message"@).field("content"@) == Json::Null
            && choices[0].field("message"@).field("tool_calls"@) == Json::Array(seq![call]),
    ensures
        document_response(doc) matches Ok(message) && message.content is None
            && message.tool_calls.len() == 1 && Json::String(message.tool_calls[0].id)
            == call.field("id"@) && Json::String(message.tool_calls[0].name) == call.field(
            "function"@,
        ).field("name"@) && Json::String(message.tool_calls[0].arguments) == call.field(
            "function"@,
        ).field("arguments"@),
{
    let choices = doc.field("choices"@).as_array()->0;
    let message = choices[0].field("message"@);
    assert(is_choice(choices[0]));
    assert(is_tool_call(seq![call][0]));
    assert(held_tool_calls(seq![call])[0] == held_tool_call(call));
}

} // verus!
