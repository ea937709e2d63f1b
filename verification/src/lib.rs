//! An adapter between a host's chat messages and an OpenAI-compatible
//! chat-completions API: request bodies out, complete and streamed answers
//! in. Every function is pure, and its contract says what it returns.

pub mod content;
pub mod json;
pub mod laws;
pub mod lookup;
pub mod provider;
pub mod request;
pub mod response;
pub mod stream;
pub mod text;
pub mod tool_choice;
pub mod types;
pub mod value;

pub use provider::OpenAIProvider;
pub use tool_choice::ToolChoicePolicy;
pub use types::{AssistantMessage, Config, ContentDelta, ErrorCode, ExtensionMetadata, Message,
    ProviderError, Tool, ToolCall};
