use vstd::prelude::*;
use vstd::string::StringExecFns;

verus! {

/// Request ID for tracking API requests.
#[derive(Debug, Clone, PartialEq)]
pub struct RequestId(pub String);

impl RequestId {
    /// Wraps the identifier that the API returned.
    pub fn new(id: String) -> (r: Self)
        ensures
            r.0 == id,
    {
        RequestId(id)
    }

    /// The identifier as a string slice.
    pub fn as_str(&self) -> (r: &str)
        ensures
            r@ == self.0@,
    {
        self.0.as_str()
    }

    /// The text that the request ID is displayed as: the identifier itself.
    pub fn to_string(&self) -> (r: String)
        ensures
            r@ == self.0@,
    {
        String::from_str(self.0.as_str())
    }
}

/// Usage information for API requests.
#[derive(Debug, Clone, PartialEq)]
pub struct Usage {
    /// The number of input tokens which were used
    pub input_tokens: u32,
    /// The number of output tokens which were used
    pub output_tokens: u32,
    /// The number of input tokens used to create the cache entry
    pub cache_creation_input_tokens: Option<u32>,
    /// The number of input tokens read from the cache
    pub cache_read_input_tokens: Option<u32>,
    /// Detailed cache creation breakdown (for 1-hour cache beta)
    pub cache_creation: Option<CacheCreation>,
    /// Server tool usage statistics
    pub server_tool_use: Option<ServerToolUsage>,
    /// Service tier used for the request
    pub service_tier: Option<String>,
}

/// Server tool usage statistics.
#[derive(Debug, Clone, PartialEq, Eq, Structural)]
pub struct ServerToolUsage {
    /// Number of web search tool requests made
    pub web_search_requests: u32,
}

/// A count that may be absent, read as zero when it is.
pub open spec fn count_or_zero(c: Option<u32>) -> nat {
    match c {
        Some(n) => n as nat,
        None => 0,
    }
}

impl Usage {
    /// Input plus output tokens.
    pub open spec fn spec_total_tokens(&self) -> nat {
        (self.input_tokens + self.output_tokens) as nat
    }

    /// Input tokens plus the tokens written to and read from the cache.
    pub open spec fn spec_total_input_tokens(&self) -> nat {
        (self.input_tokens + count_or_zero(self.cache_creation_input_tokens) + count_or_zero(
            self.cache_read_input_tokens,
        )) as nat
    }

    /// Get the total number of tokens used.
    pub fn total_tokens(&self) -> (r: u32)
        requires
            self.spec_total_tokens() <= u32::MAX,
        ensures
            r == self.spec_total_tokens(),
    {
        self.input_tokens + self.output_tokens
    }

    /// Get the total input tokens including cache tokens.
    pub fn total_input_tokens(&self) -> (r: u32)
        requires
            self.spec_total_input_tokens() <= u32::MAX,
        ensures
            r == self.spec_total_input_tokens(),
    {
        let created: u32 = match self.cache_creation_input_tokens {
            Some(n) => n,
            None => 0,
        };
        let read: u32 = match self.cache_read_input_tokens {
            Some(n) => n,
            None => 0,
        };
        self.input_tokens + created + read
    }
}

/// The total input is the input tokens plus the cache-creation tokens plus
/// the cache-read tokens, each absent count read as zero on its own; the
/// total of all tokens is input plus output.
pub proof fn law_usage_totals(u: Usage)
    ensures
        u.spec_total_input_tokens() == u.input_tokens as int + (match u.cache_creation_input_tokens {
            Some(c) => c as int,
            None => 0,
        }) + (match u.cache_read_input_tokens {
            Some(r) => r as int,
            None => 0,
        }),
        u.spec_total_tokens() == u.input_tokens as int + u.output_tokens as int,
{
}

/// Cache control configuration for prompt caching.
#[derive(Debug, Clone, PartialEq, Eq, Structural)]
pub struct CacheControl {
    /// The type of cache control
    pub cache_type: CacheType,
    /// Time-to-live for the cache entry
    pub ttl: Option<CacheTtl>,
}

/// Cache type for prompt caching.
#[derive(Debug, Clone, Copy, PartialEq, Eq, Structural)]
pub enum CacheType {
    /// Ephemeral cache with configurable TTL
    Ephemeral,
}

/// Cache time-to-live options.
#[derive(Debug, Clone, Copy, PartialEq, Eq, Structural)]
pub enum CacheTtl {
    /// 5-minute cache duration
    FiveMinutes,
    /// 1-hour cache duration (requires beta header)
    OneHour,
}

impl Default for CacheControl {
    /// An ephemeral cache control that leaves the time-to-live to the server.
    fn default() -> (r: Self)
        ensures
            r == (CacheControl { cache_type: CacheType::Ephemeral, ttl: None }),
    {
        CacheControl { cache_type: CacheType::Ephemeral, ttl: None }
    }
}

impl CacheControl {
    /// Create a new ephemeral cache control with the default (5-minute) TTL,
    /// which the server applies when no TTL is sent.
    pub fn ephemeral() -> (r: Self)
        ensures
            r == (CacheControl { cache_type: CacheType::Ephemeral, ttl: None }),
    {
        Self::default()
    }

    /// Create a new ephemeral cache control with 5-minute TTL.
    pub fn ephemeral_5m() -> (r: Self)
        ensures
            r == (CacheControl { cache_type: CacheType::Ephemeral, ttl: Some(CacheTtl::FiveMinutes) }),
    {
        CacheControl { cache_type: CacheType::Ephemeral, ttl: Some(CacheTtl::FiveMinutes) }
    }

    /// Create a new ephemeral cache control with 1-hour TTL.
    pub fn ephemeral_1h() -> (r: Self)
        ensures
            r == (CacheControl { cache_type: CacheType::Ephemeral, ttl: Some(CacheTtl::OneHour) }),
    {
        CacheControl { cache_type: CacheType::Ephemeral, ttl: Some(CacheTtl::OneHour) }
    }
}

/// Extended cache creation breakdown for detailed billing.
#[derive(Debug, Clone, PartialEq, Eq, Structural)]
pub struct CacheCreation {
    /// Number of tokens written to 5-minute ephemeral cache
    pub ephemeral_5m_input_tokens: Option<u32>,
    /// Number of tokens written to 1-hour ephemeral cache
    pub ephemeral_1h_input_tokens: Option<u32>,
}

/// Extended thinking configuration.
#[derive(Debug, Clone, PartialEq, Eq, Structural)]
pub struct ThinkingConfig {
    /// The type of thinking mode
    pub thinking_type: ThinkingType,
    /// Maximum number of tokens the model can use for thinking
    pub budget_tokens: u32,
}

/// Type of extended thinking mode.
#[derive(Debug, Clone, Copy, PartialEq, Eq, Structural)]
pub enum ThinkingType {
    /// Extended thinking is enabled
    Enabled,
}

impl ThinkingConfig {
    /// Create a new thinking configuration.
    pub fn new(budget_tokens: u32) -> (r: Self)
        ensures
            r == (ThinkingConfig { thinking_type: ThinkingType::Enabled, budget_tokens }),
    {
        ThinkingConfig { thinking_type: ThinkingType::Enabled, budget_tokens }
    }

    /// Create a thinking configuration with enabled type.
    pub fn enabled(budget_tokens: u32) -> (r: Self)
        ensures
            r == (ThinkingConfig { thinking_type: ThinkingType::Enabled, budget_tokens }),
    {
        Self::new(budget_tokens)
    }
}

/// Base trait for responses that include request IDs.
pub trait HasRequestId {
    fn request_id(&self) -> Option<&RequestId>;
}

} // verus!
