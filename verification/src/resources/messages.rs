//! The Messages resource: what a message request sends, and the builder that
//! is bound to a resource.

use vstd::prelude::*;
use vstd::string::StringExecFns;
use crate::http::client::{trim_trailing_slashes, HttpClient};
use crate::types::messages::{
    MessageContent, MessageCreateBuilder, MessageCreateParams, MessageCreateParamsView,
    MessageParam, Role, SystemParam,
};
use crate::types::shared::{ThinkingConfig, ThinkingType};

verus! {

/// Header pairs by their characters.
pub open spec fn header_pairs(s: Seq<(String, String)>) -> Seq<(Seq<char>, Seq<char>)> {
    s.map_values(|p: (String, String)| (p.0@, p.1@))
}

/// The beta headers a message request carries: extended cache TTL when it
/// was asked for, interleaved thinking when thinking is configured.
pub open spec fn beta_headers_for(extended_cache: bool, thinking: bool) -> Seq<
    (Seq<char>, Seq<char>),
> {
    (if extended_cache {
        seq![("anthropic-beta"@, "extended-cache-ttl-2025-04-11"@)]
    } else {
        Seq::empty()
    }) + (if thinking {
        seq![("anthropic-beta"@, "interleaved-thinking-2025-05-14"@)]
    } else {
        Seq::empty()
    })
}

/// The headers of a plain message request.
pub open spec fn create_headers(extended_cache: bool, thinking: bool) -> Seq<
    (Seq<char>, Seq<char>),
> {
    seq![("anthropic-version"@, "2023-06-01"@)] + beta_headers_for(extended_cache, thinking)
}

/// The headers of a streaming message request.
pub open spec fn stream_headers(api_key: Seq<char>, extended_cache: bool, thinking: bool) -> Seq<
    (Seq<char>, Seq<char>),
> {
    seq![
        ("Authorization"@, "Bearer "@ + api_key),
        ("Content-Type"@, "application/json"@),
        ("anthropic-version"@, "2023-06-01"@),
    ] + beta_headers_for(extended_cache, thinking)
}

/// The URL of the Messages endpoint for a client.
pub open spec fn messages_url(client: HttpClient) -> Seq<char> {
    trim_trailing_slashes(client.spec_config().base_url@) + "/v1/messages"@
}

/// A plain message request always names the API version first, and carries
/// the extended-cache beta header exactly when it was asked for and the
/// interleaved-thinking beta header exactly when thinking is configured.
pub proof fn law_create_headers(extended_cache: bool, thinking: bool)
    ensures
        create_headers(extended_cache, thinking)[0] == ("anthropic-version"@, "2023-06-01"@),
        create_headers(extended_cache, thinking).contains(
            ("anthropic-beta"@, "extended-cache-ttl-2025-04-11"@),
        ) <==> extended_cache,
        create_headers(extended_cache, thinking).contains(
            ("anthropic-beta"@, "interleaved-thinking-2025-05-14"@),
        ) <==> thinking,
{
    reveal_strlit("anthropic-version");
    reveal_strlit("anthropic-beta");
    reveal_strlit("extended-cache-ttl-2025-04-11");
    reveal_strlit("interleaved-thinking-2025-05-14");
    let h = create_headers(extended_cache, thinking);
    let ext = ("anthropic-beta"@, "extended-cache-ttl-2025-04-11"@);
    let think = ("anthropic-beta"@, "interleaved-thinking-2025-05-14"@);
    assert(ext != think) by {
        assert(ext.1.len() != think.1.len());
    }
    assert(h[0].0.len() != ext.0.len());
    if extended_cache {
        assert(h[1] == ext);
    }
    if thinking {
        assert(h[h.len() - 1] == think);
    }
    if h.contains(ext) {
        let i = choose|i: int| 0 <= i < h.len() && h[i] == ext;
        assert(i != 0);
    }
    if h.contains(think) {
        let i = choose|i: int| 0 <= i < h.len() && h[i] == think;
        assert(i != 0);
    }
}

/// The beta headers of a request: one `anthropic-beta` pair for each feature
/// asked for, extended cache first, each value one of the two feature names,
/// and each present exactly when its feature is asked for.
pub proof fn law_beta_headers(extended_cache: bool, thinking: bool)
    ensures
        beta_headers_for(extended_cache, thinking).len() == (if extended_cache { 1int } else { 0 })
            + (if thinking { 1int } else { 0 }),
        forall|i: int|
            0 <= i < beta_headers_for(extended_cache, thinking).len() ==> {
                let h = #[trigger] beta_headers_for(extended_cache, thinking)[i];
                &&& h.0 == "anthropic-beta"@
                &&& (h.1 == "extended-cache-ttl-2025-04-11"@ || h.1
                    == "interleaved-thinking-2025-05-14"@)
            },
        beta_headers_for(extended_cache, thinking).contains(
            ("anthropic-beta"@, "extended-cache-ttl-2025-04-11"@),
        ) <==> extended_cache,
        beta_headers_for(extended_cache, thinking).contains(
            ("anthropic-beta"@, "interleaved-thinking-2025-05-14"@),
        ) <==> thinking,
        extended_cache ==> beta_headers_for(extended_cache, thinking)[0] == (
            "anthropic-beta"@,
            "extended-cache-ttl-2025-04-11"@,
        ),
{
    reveal_strlit("extended-cache-ttl-2025-04-11");
    reveal_strlit("interleaved-thinking-2025-05-14");
    let b = beta_headers_for(extended_cache, thinking);
    let ext = ("anthropic-beta"@, "extended-cache-ttl-2025-04-11"@);
    let think = ("anthropic-beta"@, "interleaved-thinking-2025-05-14"@);
    assert(ext != think) by {
        assert(ext.1.len() != think.1.len());
    }
    if extended_cache {
        assert(b[0] == ext);
    }
    if thinking {
        assert(b[b.len() - 1] == think);
    }
    if b.contains(ext) {
        let i = choose|i: int| 0 <= i < b.len() && b[i] == ext;
        assert(extended_cache);
    }
    if b.contains(think) {
        let i = choose|i: int| 0 <= i < b.len() && b[i] == think;
        assert(thinking);
    }
}

/// A plain message request carries exactly the API version followed by the
/// beta headers: one pair per feature asked for, each value one of the two
/// feature names, nothing else.
pub proof fn law_create_headers_exact(extended_cache: bool, thinking: bool)
    ensures
        create_headers(extended_cache, thinking).len() == 1 + (if extended_cache { 1int } else { 0 })
            + (if thinking { 1int } else { 0 }),
        create_headers(extended_cache, thinking)[0] == ("anthropic-version"@, "2023-06-01"@),
        forall|i: int|
            1 <= i < create_headers(extended_cache, thinking).len() ==> {
                let h = #[trigger] create_headers(extended_cache, thinking)[i];
                &&& h.0 == "anthropic-beta"@
                &&& (h.1 == "extended-cache-ttl-2025-04-11"@ || h.1
                    == "interleaved-thinking-2025-05-14"@)
            },
        create_headers(extended_cache, thinking).contains(
            ("anthropic-beta"@, "extended-cache-ttl-2025-04-11"@),
        ) <==> extended_cache,
        create_headers(extended_cache, thinking).contains(
            ("anthropic-beta"@, "interleaved-thinking-2025-05-14"@),
        ) <==> thinking,
        extended_cache ==> create_headers(extended_cache, thinking)[1] == (
            "anthropic-beta"@,
            "extended-cache-ttl-2025-04-11"@,
        ),
{
    law_beta_headers(extended_cache, thinking);
    law_create_headers(extended_cache, thinking);
    let h = create_headers(extended_cache, thinking);
    let b = beta_headers_for(extended_cache, thinking);
    assert forall|i: int| 1 <= i < h.len() implies {
        &&& (#[trigger] h[i]).0 == "anthropic-beta"@
        &&& (h[i].1 == "extended-cache-ttl-2025-04-11"@ || h[i].1
            == "interleaved-thinking-2025-05-14"@)
    } by {
        assert(h[i] == b[i - 1]);
    }
}

/// A streaming request carries exactly the bearer token for the key, the JSON
/// content type and the API version, followed by one beta pair per feature
/// asked for, each present exactly when its feature is asked for.
pub proof fn law_stream_headers(api_key: Seq<char>, extended_cache: bool, thinking: bool)
    ensures
        stream_headers(api_key, extended_cache, thinking).len() == 3 + (if extended_cache {
            1int
        } else {
            0
        }) + (if thinking { 1int } else { 0 }),
        stream_headers(api_key, extended_cache, thinking)[0] == ("Authorization"@, "Bearer "@
            + api_key),
        stream_headers(api_key, extended_cache, thinking)[1] == ("Content-Type"@,
        "application/json"@),
        stream_headers(api_key, extended_cache, thinking)[2] == ("anthropic-version"@,
        "2023-06-01"@),
        forall|i: int|
            3 <= i < stream_headers(api_key, extended_cache, thinking).len() ==> {
                let h = #[trigger] stream_headers(api_key, extended_cache, thinking)[i];
                &&& h.0 == "anthropic-beta"@
                &&& (h.1 == "extended-cache-ttl-2025-04-11"@ || h.1
                    == "interleaved-thinking-2025-05-14"@)
            },
        stream_headers(api_key, extended_cache, thinking).contains(
            ("anthropic-beta"@, "extended-cache-ttl-2025-04-11"@),
        ) <==> extended_cache,
        stream_headers(api_key, extended_cache, thinking).contains(
            ("anthropic-beta"@, "interleaved-thinking-2025-05-14"@),
        ) <==> thinking,
        extended_cache ==> stream_headers(api_key, extended_cache, thinking)[3] == (
            "anthropic-beta"@,
            "extended-cache-ttl-2025-04-11"@,
        ),
{
    reveal_strlit("Authorization");
    reveal_strlit("Content-Type");
    reveal_strlit("anthropic-version");
    reveal_strlit("anthropic-beta");
    law_beta_headers(extended_cache, thinking);
    let h = stream_headers(api_key, extended_cache, thinking);
    let b = beta_headers_for(extended_cache, thinking);
    let ext = ("anthropic-beta"@, "extended-cache-ttl-2025-04-11"@);
    let think = ("anthropic-beta"@, "interleaved-thinking-2025-05-14"@);
    assert forall|i: int| 3 <= i < h.len() implies {
        &&& (#[trigger] h[i]).0 == "anthropic-beta"@
        &&& (h[i].1 == "extended-cache-ttl-2025-04-11"@ || h[i].1
            == "interleaved-thinking-2025-05-14"@)
    } by {
        assert(h[i] == b[i - 3]);
    }
    if extended_cache {
        assert(h[3] == b[0]);
    }
    if b.contains(ext) {
        let i = choose|i: int| 0 <= i < b.len() && b[i] == ext;
        assert(h[i + 3] == ext);
    }
    if b.contains(think) {
        let i = choose|i: int| 0 <= i < b.len() && b[i] == think;
        assert(h[i + 3] == think);
    }
    if h.contains(ext) {
        let i = choose|i: int| 0 <= i < h.len() && h[i] == ext;
        assert(h[0].0.len() != ext.0.len());
        assert(h[1].0.len() != ext.0.len());
        assert(h[2].0.len() != ext.0.len());
        assert(b[i - 3] == ext);
    }
    if h.contains(think) {
        let i = choose|i: int| 0 <= i < h.len() && h[i] == think;
        assert(h[0].0.len() != think.0.len());
        assert(h[1].0.len() != think.0.len());
        assert(h[2].0.len() != think.0.len());
        assert(b[i - 3] == think);
    }
}

/// What a message request sends, always with the POST method: where, with
/// which headers, and the body.
pub struct RequestPlan {
    pub url: String,
    pub headers: Vec<(String, String)>,
    pub params: MessageCreateParams,
}

fn pair(name: &str, value: &str) -> (r: (String, String))
    ensures
        r.0@ == name@,
        r.1@ == value@,
{
    (String::from_str(name), String::from_str(value))
}

fn push_beta_headers(headers: &mut Vec<(String, String)>, extended_cache: bool, thinking: bool)
    ensures
        header_pairs(final(headers)@) == header_pairs(old(headers)@) + beta_headers_for(
            extended_cache,
            thinking,
        ),
{
    let ghost start = headers@;
    if extended_cache {
        headers.push(pair("anthropic-beta", "extended-cache-ttl-2025-04-11"));
    }
    let ghost middle = headers@;
    assert(header_pairs(middle) =~= header_pairs(start) + (if extended_cache {
        seq![("anthropic-beta"@, "extended-cache-ttl-2025-04-11"@)]
    } else {
        Seq::empty()
    }));
    if thinking {
        headers.push(pair("anthropic-beta", "interleaved-thinking-2025-05-14"));
    }
    assert(header_pairs(headers@) =~= header_pairs(middle) + (if thinking {
        seq![("anthropic-beta"@, "interleaved-thinking-2025-05-14"@)]
    } else {
        Seq::empty()
    }));
}

/// Messages API resource for interacting with the model.
pub struct MessagesResource<'a> {
    client: &'a HttpClient,
}

impl<'a> MessagesResource<'a> {
    /// The client the resource sends through.
    pub closed spec fn spec_client(&self) -> HttpClient {
        *self.client
    }

    /// Create a new Messages resource.
    pub fn new(client: &'a HttpClient) -> (r: Self)
        ensures
            r.spec_client() == *client,
    {
        MessagesResource { client }
    }

    /// The client the resource sends through.
    pub fn http_client(&self) -> (r: &'a HttpClient)
        ensures
            *r == self.spec_client(),
    {
        self.client
    }

    /// The request that creating a message sends: the Messages endpoint, the
    /// API version header and the beta headers that the options call for,
    /// and the parameters unchanged.
    pub fn plan_create(&self, params: MessageCreateParams, extended_cache: bool) -> (r: RequestPlan)
        ensures
            r.url@ == messages_url(self.spec_client()),
            header_pairs(r.headers@) == create_headers(extended_cache, params.thinking is Some),
            r.params == params,
    {
        let url = self.client.build_url("/v1/messages");
        let mut headers: Vec<(String, String)> = Vec::new();
        headers.push(pair("anthropic-version", "2023-06-01"));
        assert(header_pairs(headers@) =~= seq![("anthropic-version"@, "2023-06-01"@)]);
        let thinking = params.thinking.is_some();
        push_beta_headers(&mut headers, extended_cache, thinking);
        RequestPlan { url, headers, params }
    }

    /// The request that creating a streaming message sends: streaming is
    /// switched on in the parameters, and the headers carry the bearer
    /// token, the content type, the API version and the beta headers that
    /// the options call for.
    pub fn plan_stream(&self, params: MessageCreateParams, extended_cache: bool) -> (r: RequestPlan)
        ensures
            r.url@ == messages_url(self.spec_client()),
            header_pairs(r.headers@) == stream_headers(
                self.spec_client().spec_config().api_key@,
                extended_cache,
                params.thinking is Some,
            ),
            r.params@ == (MessageCreateParamsView { stream: Some(true), ..params@ }),
    {
        let mut params = params;
        params.stream = Some(true);
        let url = self.client.build_url("/v1/messages");
        let mut auth = String::from_str("Bearer ");
        auth.append(self.client.config().api_key.as_str());
        let mut headers: Vec<(String, String)> = Vec::new();
        headers.push((String::from_str("Authorization"), auth));
        headers.push(pair("Content-Type", "application/json"));
        headers.push(pair("anthropic-version", "2023-06-01"));
        assert(header_pairs(headers@) =~= seq![
            ("Authorization"@, "Bearer "@ + self.spec_client().spec_config().api_key@),
            ("Content-Type"@, "application/json"@),
            ("anthropic-version"@, "2023-06-01"@),
        ]);
        let thinking = params.thinking.is_some();
        push_beta_headers(&mut headers, extended_cache, thinking);
        RequestPlan { url, headers, params }
    }

    /// Start building a message request for `model` with a limit of
    /// `max_tokens` output tokens, bound to this resource.
    pub fn create_with_builder(&'a self, model: String, max_tokens: u32) -> (r:
        MessageCreateBuilderWithClient<'a>)
        ensures
            r.spec_resource() == *self,
            r@ == crate::types::messages::initial_params(model@, max_tokens),
    {
        MessageCreateBuilderWithClient {
            resource: self,
            builder: MessageCreateBuilder::new(model, max_tokens),
        }
    }
}

/// A message builder with a client reference for sending requests.
pub struct MessageCreateBuilderWithClient<'a> {
    resource: &'a MessagesResource<'a>,
    builder: MessageCreateBuilder,
}

impl<'a> View for MessageCreateBuilderWithClient<'a> {
    type V = MessageCreateParamsView;

    closed spec fn view(&self) -> MessageCreateParamsView {
        self.builder@
    }
}

impl<'a> MessageCreateBuilderWithClient<'a> {
    /// The resource the builder sends through.
    pub closed spec fn spec_resource(&self) -> MessagesResource<'a> {
        *self.resource
    }

    /// The resource the builder sends through.
    pub fn resource(&self) -> (r: &'a MessagesResource<'a>)
        ensures
            *r == self.spec_resource(),
    {
        self.resource
    }

    /// Add a message to the conversation.
    pub fn message(self, role: Role, content: MessageContent) -> (r: Self)
        ensures
            r.spec_resource() == self.spec_resource(),
            r@ == (MessageCreateParamsView {
                messages: self@.messages.push(MessageParam { role, content }),
                ..self@
            }),
    {
        MessageCreateBuilderWithClient {
            resource: self.resource,
            builder: self.builder.message(role, content),
        }
    }

    /// Add a user message.
    pub fn user(self, content: MessageContent) -> (r: Self)
        ensures
            r.spec_resource() == self.spec_resource(),
            r@ == (MessageCreateParamsView {
                messages: self@.messages.push(MessageParam { role: Role::User, content }),
                ..self@
            }),
    {
        MessageCreateBuilderWithClient { resource: self.resource, builder: self.builder.user(content) }
    }

    /// Add an assistant message.
    pub fn assistant(self, content: MessageContent) -> (r: Self)
        ensures
            r.spec_resource() == self.spec_resource(),
            r@ == (MessageCreateParamsView {
                messages: self@.messages.push(MessageParam { role: Role::Assistant, content }),
                ..self@
            }),
    {
        MessageCreateBuilderWithClient {
            resource: self.resource,
            builder: self.builder.assistant(content),
        }
    }

    /// Set the system prompt.
    pub fn system(self, system: SystemParam) -> (r: Self)
        ensures
            r.spec_resource() == self.spec_resource(),
            r@ == (MessageCreateParamsView { system: Some(system), ..self@ }),
    {
        MessageCreateBuilderWithClient { resource: self.resource, builder: self.builder.system(system) }
    }

    /// Set extended thinking configuration.
    pub fn thinking(self, budget_tokens: u32) -> (r: Self)
        ensures
            r.spec_resource() == self.spec_resource(),
            r@ == (MessageCreateParamsView {
                thinking: Some(ThinkingConfig { thinking_type: ThinkingType::Enabled, budget_tokens }),
                ..self@
            }),
    {
        MessageCreateBuilderWithClient {
            resource: self.resource,
            builder: self.builder.thinking(budget_tokens),
        }
    }

    /// Set extended thinking configuration with explicit config.
    pub fn thinking_config(self, config: ThinkingConfig) -> (r: Self)
        ensures
            r.spec_resource() == self.spec_resource(),
            r@ == (MessageCreateParamsView { thinking: Some(config), ..self@ }),
    {
        MessageCreateBuilderWithClient {
            resource: self.resource,
            builder: self.builder.thinking_config(config),
        }
    }

    /// Set top_k.
    pub fn top_k(self, top_k: u32) -> (r: Self)
        ensures
            r.spec_resource() == self.spec_resource(),
            r@ == (MessageCreateParamsView { top_k: Some(top_k), ..self@ }),
    {
        MessageCreateBuilderWithClient { resource: self.resource, builder: self.builder.top_k(top_k) }
    }

    /// Set custom stop sequences.
    pub fn stop_sequences(self, stop_sequences: Vec<String>) -> (r: Self)
        ensures
            r.spec_resource() == self.spec_resource(),
            r@ == (MessageCreateParamsView { stop_sequences: Some(stop_sequences@), ..self@ }),
    {
        MessageCreateBuilderWithClient {
            resource: self.resource,
            builder: self.builder.stop_sequences(stop_sequences),
        }
    }

    /// Enable streaming.
    pub fn stream(self, stream: bool) -> (r: Self)
        ensures
            r.spec_resource() == self.spec_resource(),
            r@ == (MessageCreateParamsView { stream: Some(stream), ..self@ }),
    {
        MessageCreateBuilderWithClient { resource: self.resource, builder: self.builder.stream(stream) }
    }

    /// The request that sending the message makes: a plain message request
    /// with the parameters built so far.
    pub fn plan_send(self) -> (r: RequestPlan)
        ensures
            r.url@ == messages_url(self.spec_resource().spec_client()),
            header_pairs(r.headers@) == create_headers(false, self@.thinking is Some),
            r.params@ == self@,
    {
        let resource = self.resource;
        resource.plan_create(self.builder.build(), false)
    }

    /// The request that sending the message as a stream makes: streaming is
    /// switched on and the streaming headers are used.
    pub fn plan_stream_send(self) -> (r: RequestPlan)
        ensures
            r.url@ == messages_url(self.spec_resource().spec_client()),
            header_pairs(r.headers@) == stream_headers(
                self.spec_resource().spec_client().spec_config().api_key@,
                false,
                self@.thinking is Some,
            ),
            r.params@ == (MessageCreateParamsView { stream: Some(true), ..self@ }),
    {
        let resource = self.resource;
        resource.plan_stream(self.builder.stream(true).build(), false)
    }
}

} // verus!
