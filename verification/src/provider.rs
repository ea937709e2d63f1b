//! The provider facade: the functions of the library as the host calls them,
//! with the endpoint, the streaming capability and the provider's account of
//! itself.

use crate::json::Json;
use crate::request::{build_request_body, build_simple_request_body, full_request,
    serialize_request, simple_request, tools_view};
use crate::response::{message_outcome, parsed_response, response_from_text};
use crate::stream::{delta_from_chunk, delta_view, stream_delta};
use crate::text::{concat, strip_one_trailing, without_one_trailing};
use crate::tool_choice::ToolChoicePolicy;
use crate::types::{text_outcome, text_view, views, AssistantMessage, Config, ContentDelta,
    ErrorCode, ExtensionMetadata, Message, ProviderError, Tool};
use crate::value::{json_of, json_text, parse_value, parse_value_list, value_bool, value_insert,
    value_object, value_string, value_to_text};
use serde_json::Value;
use vstd::prelude::*;

verus! {

/// The provider for endpoints that speak the OpenAI chat-completions
/// protocol.
pub struct OpenAIProvider;

/// The endpoint for chat completions under a base address: the base without
/// one trailing `/`, followed by `/chat/completions`.
pub open spec fn api_url(base_url: Seq<char>) -> Seq<char> {
    strip_one_trailing(base_url, '/') + "/chat/completions"@
}

/// The features that the provider offers.
pub open spec fn provider_features() -> Json {
    Json::empty_object().with("streaming"@, Json::Bool(true)).with(
        "function_calling"@,
        Json::Bool(true),
    ).with("vision"@, Json::Bool(false))
}

/// The provider's account of itself.
pub open spec fn provider_metadata() -> Json {
    Json::empty_object().with("name"@, Json::String("openai-unofficial"@)).with(
        "version"@,
        Json::String("0.1.0"@),
    ).with(
        "description"@,
        Json::String(
            "OpenAI-compatible API provider - works with any OpenAI-compatible endpoint"@,
        ),
    ).with("supported_models"@, Json::String("any"@)).with("features"@, provider_features()).with(
        "default_model"@,
        Json::String("gpt-4o-mini"@),
    )
}

/// The text of a document, and the empty text where it cannot be written.
pub open spec fn text_or_nothing(doc: Json) -> Seq<char> {
    match json_text(doc) {
        Ok(text) => text,
        Err(_) => Seq::empty(),
    }
}

impl OpenAIProvider {
    /// What the extension says of itself to the host.
    pub fn get_metadata() -> (metadata: ExtensionMetadata)
        ensures
            metadata.id@ == "openai-unofficial"@,
            metadata.name@ == "OpenAI Unofficial Provider"@,
            metadata.version@ == "0.1.0"@,
            metadata.api_version@ == "0.3.0"@,
            metadata.description@
                == "OpenAI-compatible API provider with streaming and function calling"@,
    {
        ExtensionMetadata {
            id: "openai-unofficial".to_owned(),
            name: "OpenAI Unofficial Provider".to_owned(),
            version: "0.1.0".to_owned(),
            api_version: "0.3.0".to_owned(),
            description: "OpenAI-compatible API provider with streaming and function calling".to_owned(),
        }
    }

    /// The capabilities of the extension: that of a provider, and no other.
    pub fn list_capabilities() -> (capabilities: Vec<String>)
        ensures
            capabilities@.len() == 1,
            capabilities@[0]@ == "provider"@,
    {
        let mut capabilities: Vec<String> = Vec::new();
        capabilities.push("provider".to_owned());
        capabilities
    }

    /// Prepares the extension. There is nothing to prepare, and it succeeds.
    pub fn init() -> (r: Result<(), String>)
        ensures
            r is Ok,
    {
        Ok(())
    }

    /// The provider's account of itself, as JSON text.
    pub fn get_provider_metadata() -> (text: String)
        ensures
            text@ == text_or_nothing(provider_metadata()),
    {
        let mut features = value_object();
        value_insert(&mut features, "streaming", value_bool(true));
        value_insert(&mut features, "function_calling", value_bool(true));
        value_insert(&mut features, "vision", value_bool(false));
        let mut metadata = value_object();
        value_insert(&mut metadata, "name", value_string("openai-unofficial".to_owned()));
        value_insert(&mut metadata, "version", value_string("0.1.0".to_owned()));
        value_insert(
            &mut metadata,
            "description",
            value_string(
                "OpenAI-compatible API provider - works with any OpenAI-compatible endpoint".to_owned(),
            ),
        );
        value_insert(&mut metadata, "supported_models", value_string("any".to_owned()));
        value_insert(&mut metadata, "features", features);
        value_insert(&mut metadata, "default_model", value_string("gpt-4o-mini".to_owned()));
        match value_to_text(&metadata) {
            Ok(text) => text,
            Err(_) => String::new(),
        }
    }

    /// Writes a request of the simple form: the messages as they are, the
    /// default model, and the tools whose parameter schema can be read.
    pub fn format_request(messages: Vec<Message>, config: Config, tools: Option<Vec<Tool>>) -> (r:
        Result<String, ProviderError>)
        ensures
            text_outcome(r) == simple_request(
                views(messages@),
                config.default_model@,
                tools_view(tools),
            ),
    {
        let body = build_simple_request_body(
            &messages,
            config.default_model.as_str(),
            tools.as_ref(),
        );
        serialize_request(&body)
    }

    /// Reads the assistant's message from the body of a complete answer.
    pub fn parse_response(body: String, _model: String) -> (r: Result<
        AssistantMessage,
        ProviderError,
    >)
        ensures
            message_outcome(r) == parsed_response(body@),
    {
        response_from_text(body.as_str())
    }

    /// Reads what one fragment of a streamed answer carries, if anything.
    pub fn handle_stream_chunk(chunk: String) -> (r: Option<ContentDelta>)
        ensures
            delta_view(r) == stream_delta(chunk@),
    {
        delta_from_chunk(chunk.as_str())
    }

    /// The endpoint for chat completions under `base_url`, for every model.
    pub fn get_api_url(base_url: String, _model: String) -> (url: String)
        ensures
            url@ == api_url(base_url@),
    {
        concat(without_one_trailing(base_url.as_str(), '/'), "/chat/completions")
    }

    /// Whether answers can be streamed: they can, for every model.
    pub fn supports_streaming(_model: String) -> (r: bool)
        ensures
            r,
    {
        true
    }

    /// Writes a request of the full form, from a message list, a tool list
    /// and a tool choice that are given as JSON text.
    pub fn format_request_from_json(
        messages_json: String,
        model: String,
        tools_json: Option<String>,
        tool_choice_json: Option<String>,
        max_tokens: Option<u32>,
        temperature: Value,
        enable_streaming: bool,
    ) -> (r: Result<String, ProviderError>)
        ensures
            text_outcome(r) == full_request(
                messages_json@,
                model@,
                text_view(tools_json),
                text_view(tool_choice_json),
                max_tokens,
                json_of(temperature),
                enable_streaming,
            ),
    {
        let messages = match parse_value_list(messages_json.as_str()) {
            Ok(messages) => messages,
            Err(detail) => {
                return Err(
                    ProviderError::new(
                        ErrorCode::JsonParseError,
                        "Failed to parse messages JSON: ",
                        detail.as_str(),
                    ),
                );
            },
        };
        let tools = match tools_json {
            Some(text) => match parse_value_list(text.as_str()) {
                Ok(tools) => Some(tools),
                Err(_) => None,
            },
            None => None,
        };
        let tool_choice = match tool_choice_json {
            Some(text) => match parse_value(text.as_str()) {
                Ok(choice) => ToolChoicePolicy::from_value(&choice),
                Err(_) => None,
            },
            None => None,
        };
        let body = build_request_body(
            &messages,
            model.as_str(),
            tools.as_ref(),
            tool_choice,
            max_tokens,
            temperature,
            enable_streaming,
        );
        serialize_request(&body)
    }
}


/// The endpoint loses one trailing `/` of the base address, and only one: a
/// base that ends in `/` gives what the base without that `/` gives, and a
/// base that does not end in `/` is taken as it is.
pub proof fn lemma_api_url_strips_one_slash(base: Seq<char>)
    ensures
        api_url(base.push('/')) == base + "/chat/completions"@,
        base.len() == 0 || base.last() != '/' ==> api_url(base) == base + "/chat/completions"@,
{
    assert(base.push('/').drop_last() =~= base);
}

} // verus!
