//! Chat data model: messages, requests and responses exchanged with a
//! backend model provider. All values are immutable once built; the
//! builders return new values.

use vstd::prelude::*;

verus! {

/// Role of a message in a chat conversation.
#[derive(Debug, Clone, Copy, PartialEq, Eq)]
pub enum Role {
    /// Provides context and instructions.
    System,
    /// The user's input or instruction.
    User,
    /// A model reply.
    Assistant,
}

/// One message of a chat conversation.
#[derive(Debug, Clone, PartialEq, Eq)]
pub struct ChatMessage {
    /// Who the message is from.
    pub role: Role,
    /// The message text.
    pub content: String,
}

impl ChatMessage {
    /// Builds a message with the given role and content.
    pub fn new(role: Role, content: String) -> (r: ChatMessage)
        ensures
            r.role == role,
            r.content@ == content@,
    {
        ChatMessage { role, content }
    }

    /// Builds a system message.
    pub fn system(content: String) -> (r: ChatMessage)
        ensures
            r.role == Role::System,
            r.content@ == content@,
    {
        ChatMessage::new(Role::System, content)
    }

    /// Builds a user message.
    pub fn user(content: String) -> (r: ChatMessage)
        ensures
            r.role == Role::User,
            r.content@ == content@,
    {
        ChatMessage::new(Role::User, content)
    }

    /// Builds an assistant message.
    pub fn assistant(content: String) -> (r: ChatMessage)
        ensures
            r.role == Role::Assistant,
            r.content@ == content@,
    {
        ChatMessage::new(Role::Assistant, content)
    }
}

/// A chat completion request. Built once per call; the `with_` builders
/// produce new values rather than mutating.
#[derive(Debug, Clone, PartialEq, Eq)]
pub struct ChatRequest {
    /// The conversation, in order.
    pub messages: Vec<ChatMessage>,
    /// Model identifier; `None` lets the provider pick its default.
    pub model: Option<String>,
    /// Sampling temperature in thousandths (700 stands for 0.700, the
    /// range 0 to 2000 for 0.0 to 2.0); `None` leaves it to the provider.
    pub temperature_milli: Option<u32>,
    /// Upper bound on response tokens; `None` leaves it to the provider.
    pub max_tokens: Option<u32>,
}

impl ChatRequest {
    /// Builds a request over the given messages with no overrides set.
    pub fn new(messages: Vec<ChatMessage>) -> (r: ChatRequest)
        ensures
            r.messages == messages,
            r.model is None,
            r.temperature_milli is None,
            r.max_tokens is None,
    {
        ChatRequest { messages, model: None, temperature_milli: None, max_tokens: None }
    }

    /// The same request with the model set.
    pub fn with_model(self, model: String) -> (r: ChatRequest)
        ensures
            r.messages == self.messages,
            r.model == Some(model),
            r.temperature_milli == self.temperature_milli,
            r.max_tokens == self.max_tokens,
    {
        ChatRequest { model: Some(model), ..self }
    }

    /// The same request with the temperature set, in thousandths.
    pub fn with_temperature(self, temperature_milli: u32) -> (r: ChatRequest)
        ensures
            r.messages == self.messages,
            r.model == self.model,
            r.temperature_milli == Some(temperature_milli),
            r.max_tokens == self.max_tokens,
    {
        ChatRequest { temperature_milli: Some(temperature_milli), ..self }
    }

    /// The same request with the response token bound set.
    pub fn with_max_tokens(self, max_tokens: u32) -> (r: ChatRequest)
        ensures
            r.messages == self.messages,
            r.model == self.model,
            r.temperature_milli == self.temperature_milli,
            r.max_tokens == Some(max_tokens),
    {
        ChatRequest { max_tokens: Some(max_tokens), ..self }
    }
}

/// Token usage reported by a provider for one completion.
#[derive(Debug, Clone, Copy, PartialEq, Eq, Structural)]
pub struct Usage {
    /// Tokens in the prompt.
    pub prompt_tokens: u32,
    /// Tokens in the completion.
    pub completion_tokens: u32,
    /// Total tokens used.
    pub total_tokens: u32,
}

/// A chat completion response from a provider.
#[derive(Debug, Clone, PartialEq, Eq)]
pub struct ChatResponse {
    /// The generated text.
    pub content: String,
    /// The model that produced it, when the provider reports one.
    pub model: Option<String>,
    /// Token usage, when the provider reports it.
    pub usage: Option<Usage>,
}

impl ChatResponse {
    /// Builds a response holding only the generated text.
    pub fn new(content: String) -> (r: ChatResponse)
        ensures
            r.content@ == content@,
            r.model is None,
            r.usage is None,
    {
        ChatResponse { content, model: None, usage: None }
    }

    /// The same response with the model set.
    pub fn with_model(self, model: String) -> (r: ChatResponse)
        ensures
            r.content == self.content,
            r.model == Some(model),
            r.usage == self.usage,
    {
        ChatResponse { model: Some(model), ..self }
    }

    /// The same response with the usage set.
    pub fn with_usage(self, usage: Usage) -> (r: ChatResponse)
        ensures
            r.content == self.content,
            r.model == self.model,
            r.usage == Some(usage),
    {
        ChatResponse { usage: Some(usage), ..self }
    }
}

} // verus!
