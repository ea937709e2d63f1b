//! The records that the host hands in and takes back, each with the view over
//! which the contracts speak of it.

use vstd::prelude::*;

verus! {

/// One chat message of the simple request form.
#[derive(Clone, Debug, PartialEq, Eq)]
pub struct Message {
    pub role: String,
    pub content: String,
}

pub struct MessageView {
    pub role: Seq<char>,
    pub content: Seq<char>,
}

impl View for Message {
    type V = MessageView;

    open spec fn view(&self) -> MessageView {
        MessageView { role: self.role@, content: self.content@ }
    }
}

/// The provider configuration. The request builder reads the default model
/// only.
#[derive(Clone, Debug, PartialEq, Eq)]
pub struct Config {
    pub base_url: String,
    pub api_key: String,
    pub default_model: String,
}

/// A tool definition whose parameter schema is JSON text.
#[derive(Clone, Debug, PartialEq, Eq)]
pub struct Tool {
    pub name: String,
    pub description: String,
    pub parameters: String,
}

pub struct ToolView {
    pub name: Seq<char>,
    pub description: Seq<char>,
    pub parameters: Seq<char>,
}

impl View for Tool {
    type V = ToolView;

    open spec fn view(&self) -> ToolView {
        ToolView {
            name: self.name@,
            description: self.description@,
            parameters: self.parameters@,
        }
    }
}

/// A tool call. The arguments are JSON text that this library hands on
/// as it found it.
#[derive(Clone, Debug, PartialEq, Eq)]
pub struct ToolCall {
    pub id: String,
    pub name: String,
    pub arguments: String,
}

pub struct ToolCallView {
    pub id: Seq<char>,
    pub name: Seq<char>,
    pub arguments: Seq<char>,
}

impl View for ToolCall {
    type V = ToolCallView;

    open spec fn view(&self) -> ToolCallView {
        ToolCallView { id: self.id@, name: self.name@, arguments: self.arguments@ }
    }
}

/// The assistant's answer to a request that was not streamed.
#[derive(Clone, Debug, PartialEq, Eq)]
pub struct AssistantMessage {
    pub content: Option<String>,
    pub tool_calls: Vec<ToolCall>,
}

pub struct AssistantMessageView {
    pub content: Option<Seq<char>>,
    pub tool_calls: Seq<ToolCallView>,
}

impl View for AssistantMessage {
    type V = AssistantMessageView;

    open spec fn view(&self) -> AssistantMessageView {
        AssistantMessageView {
            content: text_view(self.content),
            tool_calls: views(self.tool_calls@),
        }
    }
}

/// What one fragment of a streamed answer carries.
#[derive(Clone, Debug, PartialEq, Eq)]
pub enum ContentDelta {
    /// A piece of the answer's text.
    Content { text: String },
    /// A piece of a tool call, with the position of the call where the
    /// fragment names one. A part that the fragment lacks is empty.
    ToolCall { index: Option<u32>, call: ToolCall },
    /// The end of the stream.
    Done,
}

pub enum ContentDeltaView {
    Content { text: Seq<char> },
    ToolCall { index: Option<u32>, call: ToolCallView },
    Done,
}

impl View for ContentDelta {
    type V = ContentDeltaView;

    open spec fn view(&self) -> ContentDeltaView {
        match *self {
            ContentDelta::Content { text } => ContentDeltaView::Content { text: text@ },
            ContentDelta::ToolCall { index, call } => ContentDeltaView::ToolCall {
                index,
                call: call@,
            },
            ContentDelta::Done => ContentDeltaView::Done,
        }
    }
}

impl ContentDeltaView {
    /// The name of the kind of delta, as the host knows it.
    pub open spec fn kind_name(self) -> Seq<char> {
        match self {
            ContentDeltaView::Content { .. } => "content"@,
            ContentDeltaView::ToolCall { .. } => "tool_call"@,
            ContentDeltaView::Done => "done"@,
        }
    }

    /// The text of a content delta.
    pub open spec fn content(self) -> Option<Seq<char>> {
        match self {
            ContentDeltaView::Content { text } => Some(text),
            _ => None,
        }
    }

    /// The position that a tool-call delta names.
    pub open spec fn tool_call_index(self) -> Option<u32> {
        match self {
            ContentDeltaView::ToolCall { index, .. } => index,
            _ => None,
        }
    }

    /// The call of a tool-call delta.
    pub open spec fn tool_call(self) -> Option<ToolCallView> {
        match self {
            ContentDeltaView::ToolCall { call, .. } => Some(call),
            _ => None,
        }
    }
}

impl ContentDelta {
    /// The name of the kind of delta, as the host knows it.
    pub fn delta_type(&self) -> (r: &'static str)
        ensures
            r@ == self@.kind_name(),
    {
        match self {
            ContentDelta::Content { .. } => "content",
            ContentDelta::ToolCall { .. } => "tool_call",
            ContentDelta::Done => "done",
        }
    }

    /// The text of a content delta.
    pub fn content(&self) -> (r: Option<String>)
        ensures
            text_view(r) == self@.content(),
    {
        match self {
            ContentDelta::Content { text } => Some(text.clone()),
            _ => None,
        }
    }

    /// The position that a tool-call delta names.
    pub fn tool_call_index(&self) -> (r: Option<u32>)
        ensures
            r == self@.tool_call_index(),
    {
        match self {
            ContentDelta::ToolCall { index, .. } => *index,
            _ => None,
        }
    }

    /// The call of a tool-call delta.
    pub fn tool_call(&self) -> (r: Option<ToolCall>)
        ensures
            match r {
                Some(call) => self@.tool_call() == Some(call@),
                None => self@.tool_call() is None,
            },
    {
        match self {
            ContentDelta::ToolCall { call, .. } => Some(
                ToolCall {
                    id: call.id.clone(),
                    name: call.name.clone(),
                    arguments: call.arguments.clone(),
                },
            ),
            _ => None,
        }
    }
}

/// The kinds of failure, each with a stable machine code.
#[derive(Clone, Copy, Debug, PartialEq, Eq)]
pub enum ErrorCode {
    /// The request body could not be written as JSON text.
    SerializationError,
    /// The message list handed in was not a JSON array.
    JsonParseError,
    /// The response body did not have the shape of a response.
    ParseError,
    /// The response held no choice.
    EmptyResponse,
}

impl ErrorCode {
    /// The machine code of this kind of failure.
    pub open spec fn text(self) -> Seq<char> {
        match self {
            ErrorCode::SerializationError => "SERIALIZATION_ERROR"@,
            ErrorCode::JsonParseError => "JSON_PARSE_ERROR"@,
            ErrorCode::ParseError => "PARSE_ERROR"@,
            ErrorCode::EmptyResponse => "EMPTY_RESPONSE"@,
        }
    }

    /// The machine code of this kind of failure.
    pub fn as_str(&self) -> (r: &'static str)
        ensures
            r@ == self.text(),
    {
        match self {
            ErrorCode::SerializationError => "SERIALIZATION_ERROR",
            ErrorCode::JsonParseError => "JSON_PARSE_ERROR",
            ErrorCode::ParseError => "PARSE_ERROR",
            ErrorCode::EmptyResponse => "EMPTY_RESPONSE",
        }
    }
}

/// A failure of a whole request or response.
#[derive(Clone, Debug, PartialEq, Eq)]
pub struct ProviderError {
    pub message: String,
    pub code: ErrorCode,
}

pub struct ProviderErrorView {
    pub message: Seq<char>,
    pub code: ErrorCode,
}

impl View for ProviderError {
    type V = ProviderErrorView;

    open spec fn view(&self) -> ProviderErrorView {
        ProviderErrorView { message: self.message@, code: self.code }
    }
}

impl ProviderError {
    /// The failure of kind `code` whose message is `prefix` followed by
    /// `detail`.
    pub open spec fn describe(
        code: ErrorCode,
        prefix: Seq<char>,
        detail: Seq<char>,
    ) -> ProviderErrorView {
        ProviderErrorView { message: prefix + detail, code }
    }

    /// Makes the failure of kind `code` with the message `message`.
    pub fn with_message(code: ErrorCode, message: &str) -> (e: ProviderError)
        ensures
            e@ == (ProviderErrorView { message: message@, code }),
    {
        ProviderError { message: message.to_owned(), code }
    }

    /// Makes the failure of kind `code` whose message is `prefix` followed by
    /// `detail`.
    pub fn new(code: ErrorCode, prefix: &str, detail: &str) -> (e: ProviderError)
        ensures
            e@ == Self::describe(code, prefix@, detail@),
    {
        ProviderError { message: crate::text::concat(prefix, detail), code }
    }
}

/// What the extension says of itself to the host that loads it.
#[derive(Clone, Debug, PartialEq, Eq)]
pub struct ExtensionMetadata {
    pub id: String,
    pub name: String,
    pub version: String,
    pub api_version: String,
    pub description: String,
}

/// The views of the items of a sequence.
pub open spec fn views<T: View>(items: Seq<T>) -> Seq<T::V> {
    items.map_values(|item: T| item@)
}

/// The view of a text that may be absent.
pub open spec fn text_view(text: Option<String>) -> Option<Seq<char>> {
    match text {
        Some(s) => Some(s@),
        None => None,
    }
}

/// The view of an outcome that is a text or a failure.
pub open spec fn text_outcome(r: Result<String, ProviderError>) -> Result<
    Seq<char>,
    ProviderErrorView,
> {
    match r {
        Ok(text) => Ok(text@),
        Err(e) => Err(e@),
    }
}

} // verus!
