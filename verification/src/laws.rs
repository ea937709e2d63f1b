//! The library keeps no state: what each function returns is determined
//! by what it is given, so calling it again on the same input gives the same
//! output, character for character.

use crate::content::normalized_content;
use crate::json::Json;
use crate::provider::api_url;
use crate::request::{full_request, simple_request};
use crate::response::{message_outcome, parsed_response};
use crate::stream::{delta_view, stream_delta};
use crate::types::{text_outcome, AssistantMessage, ContentDelta, MessageView, ProviderError,
    ToolView};
use vstd::prelude::*;

verus! {

/// Two answers of `format_request` to one input are the same text, or the
/// same failure.
pub proof fn lemma_format_request_repeats(
    messages: Seq<MessageView>,
    model: Seq<char>,
    tools: Option<Seq<ToolView>>,
    first: Result<String, ProviderError>,
    second: Result<String, ProviderError>,
)
    requires
        text_outcome(first) == simple_request(messages, model, tools),
        text_outcome(second) == simple_request(messages, model, tools),
    ensures
        text_outcome(first) == text_outcome(second),
        first matches Ok(a) ==> second matches Ok(b) && a@ == b@,
        first matches Err(a) ==> second matches Err(b) && a@ == b@,
{
}

/// Two answers of `format_request_from_json` to one input are the same text,
/// or the same failure.
pub proof fn lemma_format_request_from_json_repeats(
    messages_json: Seq<char>,
    model: Seq<char>,
    tools_json: Option<Seq<char>>,
    tool_choice_json: Option<Seq<char>>,
    max_tokens: Option<u32>,
    temperature: Json,
    streaming: bool,
    first: Result<String, ProviderError>,
    second: Result<String, ProviderError>,
)
    requires
        text_outcome(first) == full_request(
            messages_json,
            model,
            tools_json,
            tool_choice_json,
            max_tokens,
            temperature,
            streaming,
        ),
        text_outcome(second) == full_request(
            messages_json,
            model,
            tools_json,
            tool_choice_json,
            max_tokens,
            temperature,
            streaming,
        ),
    ensures
        text_outcome(first) == text_outcome(second),
        first matches Ok(a) ==> second matches Ok(b) && a@ == b@,
        first matches Err(a) ==> second matches Err(b) && a@ == b@,
{
}

/// Two answers of `parse_response` to one body are the same message, or the
/// same failure.
pub proof fn lemma_parse_response_repeats(
    body: Seq<char>,
    first: Result<AssistantMessage, ProviderError>,
    second: Result<AssistantMessage, ProviderError>,
)
    requires
        message_outcome(first) == parsed_response(body),
        message_outcome(second) == parsed_response(body),
    ensures
        message_outcome(first) == message_outcome(second),
        first matches Ok(a) ==> second matches Ok(b) && a@ == b@,
        first matches Err(a) ==> second matches Err(b) && a@ == b@,
{
}

/// Two answers of `handle_stream_chunk` to one fragment are the same delta,
/// or both none.
pub proof fn lemma_handle_stream_chunk_repeats(
    chunk: Seq<char>,
    first: Option<ContentDelta>,
    second: Option<ContentDelta>,
)
    requires
        delta_view(first) == stream_delta(chunk),
        delta_view(second) == stream_delta(chunk),
    ensures
        delta_view(first) == delta_view(second),
        first matches Some(a) ==> second matches Some(b) && a@ == b@,
        first is None ==> second is None,
{
}

/// Two normalizations of one content are the same text.
pub proof fn lemma_normalize_content_repeats(content: Json, first: String, second: String)
    requires
        first@ == normalized_content(content),
        second@ == normalized_content(content),
    ensures
        first@ == second@,
{
}

/// Two endpoints for one base address are the same text.
pub proof fn lemma_get_api_url_repeats(base_url: Seq<char>, first: String, second: String)
    requires
        first@ == api_url(base_url),
        second@ == api_url(base_url),
    ensures
        first@ == second@,
{
}

} // verus!
