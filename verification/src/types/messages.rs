//! Request-side message types and the builder for message creation parameters.

use vstd::prelude::*;
use crate::types::shared::{CacheControl, ThinkingConfig};

verus! {

/// The author of a message in a conversation.
#[derive(Debug, Clone, Copy, PartialEq, Eq, Structural)]
pub enum Role {
    User,
    Assistant,
}

/// Where the data of an image comes from.
#[derive(Debug, Clone, PartialEq)]
pub enum ImageSource {
    /// Image bytes encoded in base64, with their media type
    Base64 { media_type: String, data: String },
}

/// One block of structured message content.
#[derive(Debug, Clone, PartialEq)]
pub enum ContentBlockParam {
    /// A text block
    Text { text: String, cache_control: Option<CacheControl> },
    /// An image block
    Image { source: ImageSource, cache_control: Option<CacheControl> },
    /// A thinking block handed back to the model
    Thinking { thinking: String, signature: String, cache_control: Option<CacheControl> },
    /// A redacted thinking block handed back to the model
    RedactedThinking { data: String, cache_control: Option<CacheControl> },
}

impl ContentBlockParam {
    /// A text block without cache control.
    pub fn text(text: String) -> (r: Self)
        ensures
            r == (ContentBlockParam::Text { text, cache_control: None }),
    {
        ContentBlockParam::Text { text, cache_control: None }
    }

    /// A text block marked for prompt caching.
    pub fn text_with_cache(text: String, cache_control: CacheControl) -> (r: Self)
        ensures
            r == (ContentBlockParam::Text { text, cache_control: Some(cache_control) }),
    {
        ContentBlockParam::Text { text, cache_control: Some(cache_control) }
    }

    /// An image block from base64-encoded data.
    pub fn image_base64(media_type: String, data: String) -> (r: Self)
        ensures
            r == (ContentBlockParam::Image {
                source: ImageSource::Base64 { media_type, data },
                cache_control: None,
            }),
    {
        ContentBlockParam::Image { source: ImageSource::Base64 { media_type, data }, cache_control: None }
    }
}

/// The content of one message.
#[derive(Debug, Clone, PartialEq)]
pub enum MessageContent {
    /// Plain text content
    Text(String),
    /// A list of content blocks
    Blocks(Vec<ContentBlockParam>),
}

/// One block of a structured system prompt.
#[derive(Debug, Clone, PartialEq)]
pub struct SystemContentBlock {
    /// The text of the block
    pub text: String,
    /// Optional prompt-caching marker for the block
    pub cache_control: Option<CacheControl>,
}

impl SystemContentBlock {
    /// A text block without cache control.
    pub fn text(text: String) -> (r: Self)
        ensures
            r.text == text,
            r.cache_control is None,
    {
        SystemContentBlock { text, cache_control: None }
    }

    /// A text block marked for prompt caching.
    pub fn text_with_cache(text: String, cache_control: CacheControl) -> (r: Self)
        ensures
            r.text == text,
            r.cache_control == Some(cache_control),
    {
        SystemContentBlock { text, cache_control: Some(cache_control) }
    }
}

/// The system prompt: plain text or a list of blocks.
#[derive(Debug, Clone, PartialEq)]
pub enum SystemParam {
    Text(String),
    Blocks(Vec<SystemContentBlock>),
}

/// One input message.
#[derive(Debug, Clone, PartialEq)]
pub struct MessageParam {
    pub role: Role,
    pub content: MessageContent,
}

/// Parameters of a message-creation request.
#[derive(Debug, Clone, PartialEq)]
pub struct MessageCreateParams {
    /// The model that will complete the prompt
    pub model: String,
    /// The maximum number of tokens to generate
    pub max_tokens: u32,
    /// The conversation so far, oldest first
    pub messages: Vec<MessageParam>,
    /// System prompt
    pub system: Option<SystemParam>,
    /// Extended thinking configuration
    pub thinking: Option<ThinkingConfig>,
    /// Only sample from the top K options for each subsequent token
    pub top_k: Option<u32>,
    /// Custom text sequences that will cause the model to stop generating
    pub stop_sequences: Option<Vec<String>>,
    /// Whether to incrementally stream the response
    pub stream: Option<bool>,
}

/// The parameters as values: strings by their characters, vectors by their items.
pub struct MessageCreateParamsView {
    pub model: Seq<char>,
    pub max_tokens: u32,
    pub messages: Seq<MessageParam>,
    pub system: Option<SystemParam>,
    pub thinking: Option<ThinkingConfig>,
    pub top_k: Option<u32>,
    pub stop_sequences: Option<Seq<String>>,
    pub stream: Option<bool>,
}

impl View for MessageCreateParams {
    type V = MessageCreateParamsView;

    open spec fn view(&self) -> MessageCreateParamsView {
        MessageCreateParamsView {
            model: self.model@,
            max_tokens: self.max_tokens,
            messages: self.messages@,
            system: self.system,
            thinking: self.thinking,
            top_k: self.top_k,
            stop_sequences: match self.stop_sequences {
                Some(v) => Some(v@),
                None => None,
            },
            stream: self.stream,
        }
    }
}

/// The parameters of a request for `model` and `max_tokens` before any
/// other setting: no messages and every optional field absent.
pub open spec fn initial_params(model: Seq<char>, max_tokens: u32) -> MessageCreateParamsView {
    MessageCreateParamsView {
        model,
        max_tokens,
        messages: Seq::empty(),
        system: None,
        thinking: None,
        top_k: None,
        stop_sequences: None,
        stream: None,
    }
}

/// Builder for message-creation parameters.
pub struct MessageCreateBuilder {
    params: MessageCreateParams,
}

impl View for MessageCreateBuilder {
    type V = MessageCreateParamsView;

    closed spec fn view(&self) -> MessageCreateParamsView {
        self.params@
    }
}

impl MessageCreateBuilder {
    /// Start a request for `model` with a limit of `max_tokens` output tokens.
    pub fn new(model: String, max_tokens: u32) -> (r: Self)
        ensures
            r@ == initial_params(model@, max_tokens),
    {
        MessageCreateBuilder {
            params: MessageCreateParams {
                model,
                max_tokens,
                messages: Vec::new(),
                system: None,
                thinking: None,
                top_k: None,
                stop_sequences: None,
                stream: None,
            },
        }
    }

    /// Append a message to the conversation.
    pub fn message(self, role: Role, content: MessageContent) -> (r: Self)
        ensures
            r@ == (MessageCreateParamsView {
                messages: self@.messages.push(MessageParam { role, content }),
                ..self@
            }),
    {
        let mut params = self.params;
        params.messages.push(MessageParam { role, content });
        MessageCreateBuilder { params }
    }

    /// Append a user message.
    pub fn user(self, content: MessageContent) -> (r: Self)
        ensures
            r@ == (MessageCreateParamsView {
                messages: self@.messages.push(MessageParam { role: Role::User, content }),
                ..self@
            }),
    {
        self.message(Role::User, content)
    }

    /// Append an assistant message.
    pub fn assistant(self, content: MessageContent) -> (r: Self)
        ensures
            r@ == (MessageCreateParamsView {
                messages: self@.messages.push(MessageParam { role: Role::Assistant, content }),
                ..self@
            }),
    {
        self.message(Role::Assistant, content)
    }

    /// Set the system prompt.
    pub fn system(self, system: SystemParam) -> (r: Self)
        ensures
            r@ == (MessageCreateParamsView { system: Some(system), ..self@ }),
    {
        let mut params = self.params;
        params.system = Some(system);
        MessageCreateBuilder { params }
    }

    /// Enable extended thinking with the given token budget.
    pub fn thinking(self, budget_tokens: u32) -> (r: Self)
        ensures
            r@ == (MessageCreateParamsView {
                thinking: Some(
                    ThinkingConfig {
                        thinking_type: crate::types::shared::ThinkingType::Enabled,
                        budget_tokens,
                    },
                ),
                ..self@
            }),
    {
        let mut params = self.params;
        params.thinking = Some(ThinkingConfig::new(budget_tokens));
        MessageCreateBuilder { params }
    }

    /// Set the extended thinking configuration.
    pub fn thinking_config(self, config: ThinkingConfig) -> (r: Self)
        ensures
            r@ == (MessageCreateParamsView { thinking: Some(config), ..self@ }),
    {
        let mut params = self.params;
        params.thinking = Some(config);
        MessageCreateBuilder { params }
    }

    /// Set top_k.
    pub fn top_k(self, top_k: u32) -> (r: Self)
        ensures
            r@ == (MessageCreateParamsView { top_k: Some(top_k), ..self@ }),
    {
        let mut params = self.params;
        params.top_k = Some(top_k);
        MessageCreateBuilder { params }
    }

    /// Set custom stop sequences.
    pub fn stop_sequences(self, stop_sequences: Vec<String>) -> (r: Self)
        ensures
            r@ == (MessageCreateParamsView { stop_sequences: Some(stop_sequences@), ..self@ }),
    {
        let mut params = self.params;
        params.stop_sequences = Some(stop_sequences);
        MessageCreateBuilder { params }
    }

    /// Set whether the response is streamed.
    pub fn stream(self, stream: bool) -> (r: Self)
        ensures
            r@ == (MessageCreateParamsView { stream: Some(stream), ..self@ }),
    {
        let mut params = self.params;
        params.stream = Some(stream);
        MessageCreateBuilder { params }
    }

    /// The parameters collected so far.
    pub fn build(self) -> (r: MessageCreateParams)
        ensures
            r@ == self@,
    {
        self.params
    }
}

} // verus!
