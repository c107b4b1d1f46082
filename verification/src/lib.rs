//! Client library for the Anthropic Messages API.
//!
//! The crate holds the request-building logic of the client: the shared
//! API types, the message builder, the table of beta headers kept by the
//! HTTP client, URL and error-message construction, and the header sets
//! sent with plain and streaming message requests.

pub mod types;
pub mod streaming;
pub mod http;
pub mod resources;

pub use types::shared::{
    CacheControl, CacheCreation, CacheTtl, CacheType, HasRequestId, RequestId, ServerToolUsage,
    ThinkingConfig, ThinkingType, Usage,
};
pub use streaming::events::EventType;
pub use types::errors::AnthropicError;
pub use types::messages::{
    ContentBlockParam, ImageSource, MessageContent, MessageCreateBuilder, MessageCreateParams, MessageParam, Role,
    SystemContentBlock, SystemParam,
};
pub use http::client::{AuthMethod, ClientConfig, HttpClient, Transport};
pub use resources::messages::{MessageCreateBuilderWithClient, MessagesResource, RequestPlan};
