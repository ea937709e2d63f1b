//! The request builder: from the host's messages, tools and generation
//! parameters to the body of a chat-completions request.

use crate::content::{normalize_member, normalized_content};
use crate::json::Json;
use crate::lookup::{list_view, member_array, member_or_null, member_str, owned_or_empty, str_view,
    text_or_empty};
use crate::text::text_eq;
use crate::tool_choice::{policy_view, stated_policy, wire_tool_choice, ToolChoicePolicy,
    ToolChoicePolicyView};
use crate::types::{text_outcome, views, ErrorCode, Message, MessageView, ProviderError,
    ProviderErrorView, Tool, ToolView};
use crate::value::{json_of, json_of_each, json_parse, json_parse_list, json_text, parse_value,
    value_array, value_bool, value_get, value_insert, value_null, value_object, value_string,
    value_to_text, value_unsigned};
use serde_json::Value;
use vstd::prelude::*;

verus! {

/// The role of a message: its string member `role`, and `user` where it has
/// none.
pub open spec fn message_role(msg: Json) -> Seq<char> {
    match msg.field("role"@).as_str() {
        Some(role) => role,
        None => "user"@,
    }
}

/// The wire form of a tool result: the call it answers and its content as a
/// string.
pub open spec fn tool_result_message(msg: Json) -> Json {
    Json::empty_object().with("role"@, Json::String("tool"@)).with(
        "tool_call_id"@,
        Json::String(text_or_empty(msg.field("tool_call_id"@).as_str())),
    ).with("content"@, Json::String(normalized_content(msg.field("content"@))))
}

/// The content of an assistant message on the wire: its normalized text, and
/// `null`, which is written out, where that text is empty.
pub open spec fn assistant_content(msg: Json) -> Json {
    let text = normalized_content(msg.field("content"@));
    if text.len() > 0 {
        Json::String(text)
    } else {
        Json::Null
    }
}

/// The tool calls that an assistant message carries in its metadata, where it
/// carries at least one.
pub open spec fn assistant_tool_calls(msg: Json) -> Option<Seq<Json>> {
    match msg.field("metadata"@).field("tool_calls"@).as_array() {
        Some(calls) => if calls.len() > 0 {
            Some(calls)
        } else {
            None
        },
        None => None,
    }
}

/// The wire form of an assistant message.
pub open spec fn assistant_message(msg: Json) -> Json {
    let base = Json::empty_object().with("role"@, Json::String("assistant"@)).with(
        "content"@,
        assistant_content(msg),
    );
    match assistant_tool_calls(msg) {
        Some(calls) => base.with("tool_calls"@, Json::Array(calls)),
        None => base,
    }
}

/// The wire form of a message of any other role.
pub open spec fn plain_message(msg: Json) -> Json {
    Json::empty_object().with("role"@, Json::String(message_role(msg))).with(
        "content"@,
        Json::String(normalized_content(msg.field("content"@))),
    )
}

/// The wire form of a message, by its role.
pub open spec fn wire_message(msg: Json) -> Json {
    if message_role(msg) == "tool"@ {
        tool_result_message(msg)
    } else if message_role(msg) == "assistant"@ {
        assistant_message(msg)
    } else {
        plain_message(msg)
    }
}

/// The wire forms of a list of messages.
pub open spec fn wire_messages(messages: Seq<Json>) -> Seq<Json> {
    messages.map_values(|msg: Json| wire_message(msg))
}

/// The wire form of a tool: a function with a name, a description and a
/// parameter schema.
pub open spec fn function_tool(name: Json, description: Json, parameters: Json) -> Json {
    Json::empty_object().with("type"@, Json::String("function"@)).with(
        "function"@,
        Json::empty_object().with("name"@, name).with("description"@, description).with(
            "parameters"@,
            parameters,
        ),
    )
}

/// The wire form of a tool that is given as a document.
pub open spec fn wire_tool(tool: Json) -> Json {
    function_tool(tool.field("name"@), tool.field("description"@), tool.field("parameters"@))
}

/// The wire forms of a list of tools given as documents.
pub open spec fn wire_tools(tools: Seq<Json>) -> Seq<Json> {
    tools.map_values(|tool: Json| wire_tool(tool))
}

/// The body of a request of the full form. `temperature` is always a member;
/// `max_tokens`, `stream`, `tools` and `tool_choice` are members only where
/// there is something to say: a limit, a stream that is asked for, at least
/// one tool, a policy.
pub open spec fn request_body(
    messages: Seq<Json>,
    model: Seq<char>,
    tools: Option<Seq<Json>>,
    tool_choice: Option<ToolChoicePolicyView>,
    max_tokens: Option<u32>,
    temperature: Json,
    streaming: bool,
) -> Json {
    let base = Json::empty_object().with("model"@, Json::String(model)).with(
        "messages"@,
        Json::Array(wire_messages(messages)),
    ).with("temperature"@, temperature);
    let limited = match max_tokens {
        Some(limit) => base.with("max_tokens"@, Json::unsigned(limit as u64)),
        None => base,
    };
    let streamed = if streaming {
        limited.with("stream"@, Json::Bool(true))
    } else {
        limited
    };
    let tooled = match tools {
        Some(list) => if list.len() > 0 {
            streamed.with("tools"@, Json::Array(wire_tools(list)))
        } else {
            streamed
        },
        None => streamed,
    };
    match tool_choice {
        Some(policy) => tooled.with("tool_choice"@, wire_tool_choice(policy)),
        None => tooled,
    }
}

/// The tools that a text lists: the items of the JSON array that it holds,
/// and none where it holds no array.
pub open spec fn listed_tools(tools_json: Option<Seq<char>>) -> Option<Seq<Json>> {
    match tools_json {
        Some(text) => match json_parse_list(text) {
            Ok(tools) => Some(tools),
            Err(_) => None,
        },
        None => None,
    }
}

/// The policy that a text states: that of the JSON document that it holds,
/// and none where it holds no document.
pub open spec fn chosen_policy(tool_choice_json: Option<Seq<char>>) -> Option<
    ToolChoicePolicyView,
> {
    match tool_choice_json {
        Some(text) => match json_parse(text) {
            Ok(choice) => stated_policy(choice),
            Err(_) => None,
        },
        None => None,
    }
}

/// The outcome of writing a request body as text: the text, or a
/// serialization failure.
pub open spec fn serialized_request(body: Json) -> Result<Seq<char>, ProviderErrorView> {
    match json_text(body) {
        Ok(text) => Ok(text),
        Err(detail) => Err(
            ProviderError::describe(
                ErrorCode::SerializationError,
                "Failed to serialize request: "@,
                detail,
            ),
        ),
    }
}

/// The outcome of the full request form. It fails where the message list is
/// no JSON array and where the body cannot be written; a tool list or a tool
/// choice that cannot be read is left out and fails nothing.
pub open spec fn full_request(
    messages_json: Seq<char>,
    model: Seq<char>,
    tools_json: Option<Seq<char>>,
    tool_choice_json: Option<Seq<char>>,
    max_tokens: Option<u32>,
    temperature: Json,
    streaming: bool,
) -> Result<Seq<char>, ProviderErrorView> {
    match json_parse_list(messages_json) {
        Ok(messages) => serialized_request(
            request_body(
                messages,
                model,
                listed_tools(tools_json),
                chosen_policy(tool_choice_json),
                max_tokens,
                temperature,
                streaming,
            ),
        ),
        Err(detail) => Err(
            ProviderError::describe(
                ErrorCode::JsonParseError,
                "Failed to parse messages JSON: "@,
                detail,
            ),
        ),
    }
}

/// The wire form of a message of the simple form: role and content as they
/// are.
pub open spec fn simple_message(msg: MessageView) -> Json {
    Json::empty_object().with("role"@, Json::String(msg.role)).with(
        "content"@,
        Json::String(msg.content),
    )
}

/// The wire forms of a list of messages of the simple form.
pub open spec fn simple_messages(messages: Seq<MessageView>) -> Seq<Json> {
    messages.map_values(|msg: MessageView| simple_message(msg))
}

/// The wire form of a tool whose parameter schema is text, where that text is
/// a JSON document.
pub open spec fn simple_tool(tool: ToolView) -> Option<Json> {
    match json_parse(tool.parameters) {
        Ok(parameters) => Some(
            function_tool(Json::String(tool.name), Json::String(tool.description), parameters),
        ),
        Err(_) => None,
    }
}

/// The wire forms of the tools whose parameter schema is a JSON document, in
/// their order; the others are left out.
pub open spec fn simple_tools(tools: Seq<ToolView>) -> Seq<Json> {
    tools.filter_map(|tool: ToolView| simple_tool(tool))
}

/// The body of a request of the simple form. `tools` is a member only where
/// at least one tool has a parameter schema that can be read.
pub open spec fn simple_request_body(
    messages: Seq<MessageView>,
    model: Seq<char>,
    tools: Option<Seq<ToolView>>,
) -> Json {
    let base = Json::empty_object().with("model"@, Json::String(model)).with(
        "messages"@,
        Json::Array(simple_messages(messages)),
    );
    match tools {
        Some(list) => if simple_tools(list).len() > 0 {
            base.with("tools"@, Json::Array(simple_tools(list)))
        } else {
            base
        },
        None => base,
    }
}

/// The views of a list of tools that may be absent.
pub open spec fn tools_view(tools: Option<Vec<Tool>>) -> Option<Seq<ToolView>> {
    match tools {
        Some(list) => Some(views(list@)),
        None => None,
    }
}

/// The views of a borrowed list of tools that may be absent.
pub open spec fn tool_list_view(tools: Option<&Vec<Tool>>) -> Option<Seq<ToolView>> {
    match tools {
        Some(list) => Some(views(list@)),
        None => None,
    }
}

/// The outcome of the simple request form. It fails only where the body
/// cannot be written.
pub open spec fn simple_request(
    messages: Seq<MessageView>,
    model: Seq<char>,
    tools: Option<Seq<ToolView>>,
) -> Result<Seq<char>, ProviderErrorView> {
    serialized_request(simple_request_body(messages, model, tools))
}

/// Copies a list of values.
pub fn clone_values(items: &Vec<Value>) -> (copy: Vec<Value>)
    ensures
        json_of_each(copy@) == json_of_each(items@),
{
    let mut copy: Vec<Value> = Vec::new();
    let mut i: usize = 0;
    while i < items.len()
        invariant
            i <= items.len(),
            copy.len() == i,
            forall|j: int| 0 <= j < i ==> json_of(copy@[j]) == json_of(items@[j]),
        decreases items.len() - i,
    {
        copy.push(items[i].clone());
        i += 1;
    }
    assert(json_of_each(copy@) =~= json_of_each(items@));
    copy
}

/// Converts a tool result into its wire form.
pub fn convert_tool_result(msg: &Value) -> (wire: Value)
    ensures
        json_of(wire) == tool_result_message(json_of(*msg)),
{
    let call_id = owned_or_empty(member_str(msg, "tool_call_id"));
    let mut wire = value_object();
    value_insert(&mut wire, "role", value_string("tool".to_owned()));
    value_insert(&mut wire, "tool_call_id", value_string(call_id));
    value_insert(&mut wire, "content", value_string(normalize_member(msg, "content")));
    wire
}

/// Converts an assistant message into its wire form.
pub fn convert_assistant_message(msg: &Value) -> (wire: Value)
    ensures
        json_of(wire) == assistant_message(json_of(*msg)),
{
    let text = normalize_member(msg, "content");
    let content = if text.as_str().is_empty() {
        value_null()
    } else {
        value_string(text)
    };
    let mut wire = value_object();
    value_insert(&mut wire, "role", value_string("assistant".to_owned()));
    value_insert(&mut wire, "content", content);
    let calls = match value_get(msg, "metadata") {
        Some(metadata) => member_array(metadata, "tool_calls"),
        None => None,
    };
    match calls {
        Some(list) => {
            if list.len() > 0 {
                value_insert(&mut wire, "tool_calls", value_array(clone_values(list)));
            }
        },
        None => {},
    }
    wire
}

/// Converts a message that is neither a tool result nor the assistant's into
/// its wire form.
pub fn convert_plain_message(msg: &Value) -> (wire: Value)
    ensures
        json_of(wire) == plain_message(json_of(*msg)),
{
    let role = owned_or_user(member_str(msg, "role"));
    let mut wire = value_object();
    value_insert(&mut wire, "role", value_string(role));
    value_insert(&mut wire, "content", value_string(normalize_member(msg, "content")));
    wire
}

/// An owned copy of a role, or `user` where there is none.
fn owned_or_user(role: Option<&str>) -> (r: String)
    ensures
        r@ == (match str_view(role) {
            Some(text) => text,
            None => "user"@,
        }),
{
    match role {
        Some(text) => text.to_owned(),
        None => "user".to_owned(),
    }
}

/// Converts one message of the host into its wire form.
pub fn convert_message(msg: &Value) -> (wire: Value)
    ensures
        json_of(wire) == wire_message(json_of(*msg)),
{
    let role = owned_or_user(member_str(msg, "role"));
    if text_eq(role.as_str(), "tool") {
        convert_tool_result(msg)
    } else if text_eq(role.as_str(), "assistant") {
        convert_assistant_message(msg)
    } else {
        convert_plain_message(msg)
    }
}

/// Converts the messages of the host into their wire forms.
pub fn convert_messages(messages: &Vec<Value>) -> (wire: Vec<Value>)
    ensures
        json_of_each(wire@) == wire_messages(json_of_each(messages@)),
{
    let mut wire: Vec<Value> = Vec::new();
    let mut i: usize = 0;
    while i < messages.len()
        invariant
            i <= messages.len(),
            wire.len() == i,
            forall|j: int| 0 <= j < i ==> json_of(wire@[j]) == wire_message(json_of(messages@[j])),
        decreases messages.len() - i,
    {
        wire.push(convert_message(&messages[i]));
        i += 1;
    }
    assert(json_of_each(wire@) =~= wire_messages(json_of_each(messages@)));
    wire
}

/// Makes the wire form of a tool from its three parts.
pub fn make_function_tool(name: Value, description: Value, parameters: Value) -> (wire: Value)
    ensures
        json_of(wire) == function_tool(json_of(name), json_of(description), json_of(parameters)),
{
    let mut function = value_object();
    value_insert(&mut function, "name", name);
    value_insert(&mut function, "description", description);
    value_insert(&mut function, "parameters", parameters);
    let mut wire = value_object();
    value_insert(&mut wire, "type", value_string("function".to_owned()));
    value_insert(&mut wire, "function", function);
    wire
}

/// Converts the tools of the host, given as documents, into their wire forms.
pub fn convert_tools(tools: &Vec<Value>) -> (wire: Vec<Value>)
    ensures
        json_of_each(wire@) == wire_tools(json_of_each(tools@)),
{
    let mut wire: Vec<Value> = Vec::new();
    let mut i: usize = 0;
    while i < tools.len()
        invariant
            i <= tools.len(),
            wire.len() == i,
            forall|j: int| 0 <= j < i ==> json_of(wire@[j]) == wire_tool(json_of(tools@[j])),
        decreases tools.len() - i,
    {
        let tool = &tools[i];
        wire.push(
            make_function_tool(
                member_or_null(tool, "name"),
                member_or_null(tool, "description"),
                member_or_null(tool, "parameters"),
            ),
        );
        i += 1;
    }
    assert(json_of_each(wire@) =~= wire_tools(json_of_each(tools@)));
    wire
}

/// Builds the body of a request of the full form.
pub fn build_request_body(
    messages: &Vec<Value>,
    model: &str,
    tools: Option<&Vec<Value>>,
    tool_choice: Option<ToolChoicePolicy>,
    max_tokens: Option<u32>,
    temperature: Value,
    enable_streaming: bool,
) -> (body: Value)
    ensures
        json_of(body) == request_body(
            json_of_each(messages@),
            model@,
            list_view(tools),
            policy_view(tool_choice),
            max_tokens,
            json_of(temperature),
            enable_streaming,
        ),
{
    let mut body = value_object();
    value_insert(&mut body, "model", value_string(model.to_owned()));
    value_insert(&mut body, "messages", value_array(convert_messages(messages)));
    value_insert(&mut body, "temperature", temperature);
    match max_tokens {
        Some(limit) => {
            value_insert(&mut body, "max_tokens", value_unsigned(limit));
        },
        None => {},
    }
    if enable_streaming {
        value_insert(&mut body, "stream", value_bool(true));
    }
    match tools {
        Some(list) => {
            if list.len() > 0 {
                value_insert(&mut body, "tools", value_array(convert_tools(list)));
            }
        },
        None => {},
    }
    match tool_choice {
        Some(policy) => {
            value_insert(&mut body, "tool_choice", policy.to_wire());
        },
        None => {},
    }
    body
}

/// Writes a request body as text.
pub fn serialize_request(body: &Value) -> (r: Result<String, ProviderError>)
    ensures
        text_outcome(r) == serialized_request(json_of(*body)),
{
    match value_to_text(body) {
        Ok(text) => Ok(text),
        Err(detail) => Err(
            ProviderError::new(
                ErrorCode::SerializationError,
                "Failed to serialize request: ",
                detail.as_str(),
            ),
        ),
    }
}

/// Converts one message of the simple form into its wire form.
pub fn convert_simple_message(msg: &Message) -> (wire: Value)
    ensures
        json_of(wire) == simple_message(msg@),
{
    let mut wire = value_object();
    value_insert(&mut wire, "role", value_string(msg.role.clone()));
    value_insert(&mut wire, "content", value_string(msg.content.clone()));
    wire
}

/// Converts one tool whose parameter schema is text into its wire form,
/// where that text is a JSON document.
pub fn convert_simple_tool(tool: &Tool) -> (wire: Option<Value>)
    ensures
        match wire {
            Some(w) => simple_tool(tool@) == Some(json_of(w)),
            None => simple_tool(tool@) is None,
        },
{
    match parse_value(tool.parameters.as_str()) {
        Ok(parameters) => Some(
            make_function_tool(
                value_string(tool.name.clone()),
                value_string(tool.description.clone()),
                parameters,
            ),
        ),
        Err(_) => None,
    }
}

/// Converts the tools whose parameter schema can be read, and leaves out the
/// others.
pub fn convert_simple_tools(tools: &Vec<Tool>) -> (wire: Vec<Value>)
    ensures
        json_of_each(wire@) == simple_tools(views(tools@)),
{
    let ghost all = views(tools@);
    let ghost convert = |tool: ToolView| simple_tool(tool);
    let mut wire: Vec<Value> = Vec::new();
    let mut i: usize = 0;
    while i < tools.len()
        invariant
            i <= tools.len(),
            all == views(tools@),
            convert == (|tool: ToolView| simple_tool(tool)),
            json_of_each(wire@) == all.take(i as int).filter_map(convert),
        decreases tools.len() - i,
    {
        proof {
            all.lemma_filter_map_take_succ(convert, i as int);
            assert(all[i as int] == tools@[i as int]@);
        }
        let ghost before = json_of_each(wire@);
        match convert_simple_tool(&tools[i]) {
            Some(w) => {
                wire.push(w);
                assert(json_of_each(wire@) =~= before + seq![json_of(w)]);
            },
            None => {
                assert(before + Seq::<Json>::empty() =~= before);
            },
        }
        i += 1;
    }
    assert(all.take(i as int) =~= all);
    wire
}

/// Builds the body of a request of the simple form.
pub fn build_simple_request_body(
    messages: &Vec<Message>,
    model: &str,
    tools: Option<&Vec<Tool>>,
) -> (body: Value)
    ensures
        json_of(body) == simple_request_body(
            views(messages@),
            model@,
            tool_list_view(tools),
        ),
{
    let mut wire: Vec<Value> = Vec::new();
    let mut i: usize = 0;
    while i < messages.len()
        invariant
            i <= messages.len(),
            wire.len() == i,
            forall|j: int| 0 <= j < i ==> json_of(wire@[j]) == simple_message(messages@[j]@),
        decreases messages.len() - i,
    {
        wire.push(convert_simple_message(&messages[i]));
        i += 1;
    }
    assert(json_of_each(wire@) =~= simple_messages(views(messages@)));
    let mut body = value_object();
    value_insert(&mut body, "model", value_string(model.to_owned()));
    value_insert(&mut body, "messages", value_array(wire));
    match tools {
        Some(list) => {
            let converted = convert_simple_tools(list);
            if converted.len() > 0 {
                value_insert(&mut body, "tools", value_array(converted));
            }
        },
        None => {},
    }
    body
}

/// The member names of the wire format differ from one another.
proof fn lemma_member_names_differ()
    ensures
        "model"@ != "messages"@,
        "model"@ != "temperature"@,
        "model"@ != "max_tokens"@,
        "model"@ != "stream"@,
        "model"@ != "tools"@,
        "model"@ != "tool_choice"@,
        "messages"@ != "temperature"@,
        "messages"@ != "max_tokens"@,
        "messages"@ != "stream"@,
        "messages"@ != "tools"@,
        "messages"@ != "tool_choice"@,
        "temperature"@ != "max_tokens"@,
        "temperature"@ != "stream"@,
        "temperature"@ != "tools"@,
        "temperature"@ != "tool_choice"@,
        "max_tokens"@ != "stream"@,
        "max_tokens"@ != "tools"@,
        "max_tokens"@ != "tool_choice"@,
        "stream"@ != "tools"@,
        "stream"@ != "tool_choice"@,
        "tools"@ != "tool_choice"@,
        "role"@ != "content"@,
        "content"@ != "tool_calls"@,
        "function"@ != "type"@,
        "name"@ != "description"@,
        "name"@ != "parameters"@,
        "description"@ != "parameters"@,
{
    reveal_strlit("model");
    reveal_strlit("messages");
    reveal_strlit("temperature");
    reveal_strlit("max_tokens");
    reveal_strlit("stream");
    reveal_strlit("tools");
    reveal_strlit("tool_choice");
    reveal_strlit("role");
    reveal_strlit("content");
    reveal_strlit("tool_calls");
    reveal_strlit("function");
    reveal_strlit("type");
    reveal_strlit("name");
    reveal_strlit("description");
    reveal_strlit("parameters");
    assert("model"@.len() == 5 && "messages"@.len() == 8 && "temperature"@.len() == 11);
    assert("max_tokens"@.len() == 10 && "stream"@.len() == 6 && "tools"@.len() == 5);
    assert("tool_choice"@.len() == 11 && "role"@.len() == 4 && "content"@.len() == 7);
    assert("tool_calls"@.len() == 10 && "function"@.len() == 8 && "type"@.len() == 4);
    assert("name"@.len() == 4 && "description"@.len() == 11 && "parameters"@.len() == 10);
    assert("model"@[0] != "tools"@[0]);
    assert("temperature"@[1] != "tool_choice"@[1]);
}

/// A request of the simple form names the model that was handed in, and
/// carries every message at its place, with its role and with its content as
/// the string that the content normalizer makes of it: the content itself.
pub proof fn lemma_simple_request_keeps_messages(
    messages: Seq<MessageView>,
    model: Seq<char>,
    tools: Option<Seq<ToolView>>,
    i: int,
)
    requires
        0 <= i < messages.len(),
    ensures
        simple_request_body(messages, model, tools).field("model"@) == Json::String(model),
        simple_request_body(messages, model, tools).field("messages"@) matches Json::Array(wire)
            && wire.len() == messages.len() && wire[i].field("role"@) == Json::String(
            messages[i].role,
        ) && wire[i].field("content"@) == Json::String(
            normalized_content(Json::String(messages[i].content)),
        ),
{
    lemma_member_names_differ();
}

/// A request of the full form names the model that was handed in, and
/// carries every message at its place; a message whose normalized content is
/// not empty carries that content as a string, whatever its role.
pub proof fn lemma_request_keeps_content(
    messages: Seq<Json>,
    model: Seq<char>,
    tools: Option<Seq<Json>>,
    tool_choice: Option<ToolChoicePolicyView>,
    max_tokens: Option<u32>,
    temperature: Json,
    streaming: bool,
    i: int,
)
    requires
        0 <= i < messages.len(),
        normalized_content(messages[i].field("content"@)).len() > 0,
    ensures
        request_body(
            messages,
            model,
            tools,
            tool_choice,
            max_tokens,
            temperature,
            streaming,
        ).field("model"@) == Json::String(model),
        request_body(
            messages,
            model,
            tools,
            tool_choice,
            max_tokens,
            temperature,
            streaming,
        ).field("messages"@) matches Json::Array(wire) && wire.len() == messages.len()
            && wire[i].field("content"@) == Json::String(
            normalized_content(messages[i].field("content"@)),
        ),
{
    lemma_member_names_differ();
}

/// An assistant message always has the member `content`: `null` where there
/// is no text, never left out.
pub proof fn lemma_assistant_content_is_written(msg: Json)
    ensures
        assistant_message(msg).get("content"@) == Some(assistant_content(msg)),
        normalized_content(msg.field("content"@)).len() == 0 ==> assistant_message(msg).get(
            "content"@,
        ) == Some(Json::Null),
{
    lemma_member_names_differ();
}

/// What a request of the full form leaves out: `max_tokens` without a limit,
/// `stream` unless a stream is asked for, `tools` without a tool and
/// `tool_choice` without a policy. `temperature` is always there.
pub proof fn lemma_request_optional_members(
    messages: Seq<Json>,
    model: Seq<char>,
    tools: Option<Seq<Json>>,
    tool_choice: Option<ToolChoicePolicyView>,
    max_tokens: Option<u32>,
    temperature: Json,
    streaming: bool,
)
    ensures
        ({
            let body = request_body(
                messages,
                model,
                tools,
                tool_choice,
                max_tokens,
                temperature,
                streaming,
            );
            &&& body.get("temperature"@) == Some(temperature)
            &&& body.get("max_tokens"@) == (match max_tokens {
                Some(limit) => Some(Json::unsigned(limit as u64)),
                None => None,
            })
            &&& body.get("stream"@) == (if streaming {
                Some(Json::Bool(true))
            } else {
                None
            })
            &&& body.get("tools"@) is Some <==> (tools matches Some(list) && list.len() > 0)
            &&& body.get("tool_choice"@) == (match tool_choice {
                Some(policy) => Some(wire_tool_choice(policy)),
                None => None,
            })
        }),
{
    lemma_member_names_differ();
}

/// A tool whose parameter schema can be read is among the converted tools.
pub proof fn lemma_readable_tool_is_kept(tools: Seq<ToolView>, i: int)
    requires
        0 <= i < tools.len(),
        simple_tool(tools[i]) is Some,
    ensures
        exists|j: int|
            0 <= j < simple_tools(tools).len() && #[trigger] simple_tools(tools)[j] == simple_tool(
                tools[i],
            )->0,
    decreases tools.len(),
{
    let convert = |tool: ToolView| simple_tool(tool);
    let rest = tools.drop_last();
    assert(tools.filter_map(convert) == match convert(tools.last()) {
        Some(wire) => rest.filter_map(convert) + seq![wire],
        None => rest.filter_map(convert),
    });
    if i == tools.len() - 1 {
        let j = rest.filter_map(convert).len() as int;
        assert(simple_tools(tools)[j] == simple_tool(tools[i])->0);
    } else {
        lemma_readable_tool_is_kept(rest, i);
        let j = choose|j: int|
            0 <= j < simple_tools(rest).len() && #[trigger] simple_tools(rest)[j] == simple_tool(
                rest[i],
            )->0;
        assert(simple_tools(tools)[j] == simple_tool(tools[i])->0);
    }
}

/// Every converted tool comes from a tool whose parameter schema can be read:
/// a tool whose schema cannot be read is left out.
pub proof fn lemma_unreadable_tools_are_left_out(tools: Seq<ToolView>, j: int)
    requires
        0 <= j < simple_tools(tools).len(),
    ensures
        exists|i: int|
            0 <= i < tools.len() && simple_tool(#[trigger] tools[i]) == Some(
                simple_tools(tools)[j],
            ),
{
    let convert = |tool: ToolView| simple_tool(tool);
    let wire = simple_tools(tools)[j];
    assert(tools.filter_map(convert).contains(wire));
    tools.lemma_filter_map_contains(convert, wire);
    let tool = choose|tool: ToolView| #[trigger] tools.contains(tool) && convert(tool) == Some(wire);
    let i = choose|i: int| 0 <= i < tools.len() && tools[i] == tool;
    assert(simple_tool(tools[i]) == Some(wire));
}

/// Whether a wire tool is the function of this name, description and
/// parameter schema.
pub open spec fn is_function_of(
    wire: Json,
    name: Seq<char>,
    description: Seq<char>,
    parameters: Json,
) -> bool {
    &&& wire.field("type"@) == Json::String("function"@)
    &&& wire.field("function"@).field("name"@) == Json::String(name)
    &&& wire.field("function"@).field("description"@) == Json::String(description)
    &&& wire.field("function"@).field("parameters"@) == parameters
}

/// A tool whose parameter text is a JSON document survives into the `tools`
/// member of the request, as the function of its name, its description and
/// the document that its parameter text holds.
pub proof fn lemma_tool_round_trip(
    messages: Seq<MessageView>,
    model: Seq<char>,
    tools: Seq<ToolView>,
    i: int,
)
    requires
        0 <= i < tools.len(),
        json_parse(tools[i].parameters) is Ok,
    ensures
        simple_request_body(messages, model, Some(tools)).field("tools"@) == Json::Array(
            simple_tools(tools),
        ),
        exists|j: int|
            0 <= j < simple_tools(tools).len() && is_function_of(
                #[trigger] simple_tools(tools)[j],
                tools[i].name,
                tools[i].description,
                json_parse(tools[i].parameters)->Ok_0,
            ),
{
    lemma_member_names_differ();
    lemma_readable_tool_is_kept(tools, i);
    let wire = simple_tools(tools);
    let j = choose|j: int| 0 <= j < wire.len() && #[trigger] wire[j] == simple_tool(tools[i])->0;
    assert(is_function_of(
        wire[j],
        tools[i].name,
        tools[i].description,
        json_parse(tools[i].parameters)->Ok_0,
    ));
}

/// The tools of a request fail nothing: a request of the simple form fails
/// only where its body cannot be written as text, whatever the tools hold.
pub proof fn lemma_simple_request_fails_on_writing_only(
    messages: Seq<MessageView>,
    model: Seq<char>,
    tools: Option<Seq<ToolView>>,
)
    ensures
        simple_request(messages, model, tools) is Err <==> json_text(
            simple_request_body(messages, model, tools),
        ) is Err,
        simple_request(messages, model, tools) matches Err(e) ==> e.code
            == ErrorCode::SerializationError,
{
}

/// A request of the full form fails with a parse failure exactly where the
/// message list is no JSON array, and otherwise only where its body cannot be
/// written as text.
pub proof fn lemma_full_request_failures(
    messages_json: Seq<char>,
    model: Seq<char>,
    tools_json: Option<Seq<char>>,
    tool_choice_json: Option<Seq<char>>,
    max_tokens: Option<u32>,
    temperature: Json,
    streaming: bool,
)
    ensures
        ({
            let outcome = full_request(
                messages_json,
                model,
                tools_json,
                tool_choice_json,
                max_tokens,
                temperature,
                streaming,
            );
            &&& json_parse_list(messages_json) is Err <==> (outcome matches Err(e) && e.code
                == ErrorCode::JsonParseError)
            &&& outcome matches Err(e) ==> e.code == ErrorCode::JsonParseError || e.code
                == ErrorCode::SerializationError
        }),
{
}

} // verus!
