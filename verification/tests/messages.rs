use anthropic_sdk::http::client::HttpClient;
use anthropic_sdk::resources::messages::MessagesResource;
use anthropic_sdk::types::messages::{
    MessageContent, MessageCreateBuilder, Role, SystemContentBlock, SystemParam,
};
use anthropic_sdk::{AuthMethod, CacheControl, ClientConfig, ContentBlockParam, ImageSource, ThinkingConfig};
use std::time::Duration;

fn text(s: &str) -> MessageContent {
    MessageContent::Text(s.to_string())
}

fn client(base_url: &str) -> HttpClient {
    HttpClient::new(ClientConfig {
        api_key: "test-key".to_string(),
        auth_method: AuthMethod::ApiKey,
        base_url: base_url.to_string(),
        timeout: Duration::from_secs(30),
    })
    .expect("client builds")
}

fn pairs(headers: &[(String, String)]) -> Vec<(&str, &str)> {
    headers.iter().map(|(k, v)| (k.as_str(), v.as_str())).collect()
}

#[test]
fn test_multi_message_conversation() {
    let params = MessageCreateBuilder::new("sonnet-3-5-latest".to_string(), 1024)
        .user(text("Hello!"))
        .assistant(text("Hi there! How can I help you?"))
        .user(text("What's the weather like?"))
        .build();

    assert_eq!(params.messages.len(), 3);
    assert_eq!(params.messages[0].role, Role::User);
    assert_eq!(params.messages[1].role, Role::Assistant);
    assert_eq!(params.messages[2].role, Role::User);
}

#[test]
fn builder_starts_empty_and_keeps_model() {
    let params = MessageCreateBuilder::new("haiku-3@20240307".to_string(), 256).build();
    assert_eq!(params.model, "haiku-3@20240307");
    assert_eq!(params.max_tokens, 256);
    assert!(params.messages.is_empty());
    assert_eq!(params.system, None);
    assert_eq!(params.thinking, None);
    assert_eq!(params.top_k, None);
    assert_eq!(params.stop_sequences, None);
    assert_eq!(params.stream, None);
}

#[test]
fn builder_sets_each_option() {
    let params = MessageCreateBuilder::new("m".to_string(), 512)
        .user(text("Write a creative story about space exploration."))
        .top_k(50)
        .stop_sequences(vec!["THE END".to_string()])
        .system(SystemParam::Text("You are helpful".to_string()))
        .stream(true)
        .build();
    assert_eq!(params.top_k, Some(50));
    assert_eq!(params.stop_sequences, Some(vec!["THE END".to_string()]));
    assert_eq!(params.system, Some(SystemParam::Text("You are helpful".to_string())));
    assert_eq!(params.stream, Some(true));
    assert_eq!(params.messages[0].content, text("Write a creative story about space exploration."));
}

#[test]
fn builder_thinking_budget_matches_config() {
    let a = MessageCreateBuilder::new("m".to_string(), 2048).thinking(1024).build();
    let b = MessageCreateBuilder::new("m".to_string(), 2048)
        .thinking_config(ThinkingConfig::enabled(1024))
        .build();
    assert_eq!(a.thinking, b.thinking);
    assert_eq!(a.thinking, Some(ThinkingConfig::new(1024)));
}

#[test]
fn builder_later_setting_wins() {
    let params = MessageCreateBuilder::new("m".to_string(), 10).stream(true).stream(false).top_k(1).top_k(7).build();
    assert_eq!(params.stream, Some(false));
    assert_eq!(params.top_k, Some(7));
}

#[test]
fn builder_message_with_explicit_role() {
    let params = MessageCreateBuilder::new("m".to_string(), 10)
        .message(Role::User, text("q"))
        .message(Role::Assistant, text("a"))
        .build();
    assert_eq!(params.messages[0].role, Role::User);
    assert_eq!(params.messages[1].role, Role::Assistant);
    assert_eq!(params.messages[1].content, text("a"));
}

#[test]
fn system_block_with_cache() {
    let block = SystemContentBlock::text_with_cache("prompt".to_string(), CacheControl::ephemeral_1h());
    assert_eq!(block.text, "prompt");
    assert_eq!(block.cache_control, Some(CacheControl::ephemeral_1h()));
    let plain = SystemContentBlock::text("p".to_string());
    assert_eq!(plain.cache_control, None);
}

#[test]
fn plan_create_plain_headers() {
    let http = client("https://api.anthropic.com");
    let resource = MessagesResource::new(&http);
    let params = MessageCreateBuilder::new("m".to_string(), 10).user(text("hi")).build();
    let plan = resource.plan_create(params.clone(), false);
    assert_eq!(plan.url, "https://api.anthropic.com/v1/messages");
    assert_eq!(pairs(&plan.headers), vec![("anthropic-version", "2023-06-01")]);
    assert_eq!(plan.params, params);
}

#[test]
fn plan_create_with_cache_and_thinking() {
    let http = client("https://api.anthropic.com/");
    let resource = MessagesResource::new(&http);
    let params = MessageCreateBuilder::new("m".to_string(), 4096).thinking(2048).build();
    let plan = resource.plan_create(params, true);
    assert_eq!(plan.url, "https://api.anthropic.com/v1/messages");
    assert_eq!(
        pairs(&plan.headers),
        vec![
            ("anthropic-version", "2023-06-01"),
            ("anthropic-beta", "extended-cache-ttl-2025-04-11"),
            ("anthropic-beta", "interleaved-thinking-2025-05-14"),
        ]
    );
}

#[test]
fn plan_stream_switches_streaming_on() {
    let http = client("http://localhost:8080//");
    let resource = MessagesResource::new(&http);
    let params = MessageCreateBuilder::new("m".to_string(), 10).stream(false).build();
    let plan = resource.plan_stream(params, false);
    assert_eq!(plan.params.stream, Some(true));
    assert_eq!(plan.url, "http://localhost:8080/v1/messages");
    assert_eq!(
        pairs(&plan.headers),
        vec![
            ("Authorization", "Bearer test-key"),
            ("Content-Type", "application/json"),
            ("anthropic-version", "2023-06-01"),
        ]
    );
}

#[test]
fn builder_with_client_send_and_stream_send() {
    let http = client("https://example.test");
    let resource = MessagesResource::new(&http);
    let plan = resource
        .create_with_builder("sonnet-3-5-latest".to_string(), 1024)
        .user(text("What is the capital of France?"))
        .system(SystemParam::Text("You are a helpful geography assistant.".to_string()))
        .thinking(100)
        .plan_send();
    assert_eq!(plan.params.model, "sonnet-3-5-latest");
    assert_eq!(plan.params.messages.len(), 1);
    assert_eq!(plan.params.stream, None);
    assert_eq!(
        pairs(&plan.headers),
        vec![("anthropic-version", "2023-06-01"), ("anthropic-beta", "interleaved-thinking-2025-05-14")]
    );

    let plan = resource
        .create_with_builder("m".to_string(), 1)
        .user(text("Tell me a story"))
        .top_k(3)
        .stop_sequences(vec!["x".to_string()])
        .thinking_config(ThinkingConfig::new(5))
        .assistant(text("Once"))
        .message(Role::User, text("more"))
        .stream(false)
        .plan_stream_send();
    assert_eq!(plan.params.stream, Some(true));
    assert_eq!(plan.params.messages.len(), 3);
    assert_eq!(plan.headers.len(), 4);
    assert_eq!(plan.headers[3].1, "interleaved-thinking-2025-05-14");
}

#[test]
fn content_blocks_text_and_image() {
    let content = MessageContent::Blocks(vec![
        ContentBlockParam::text("Here's an image:".to_string()),
        ContentBlockParam::image_base64("image/jpeg".to_string(), "base64data".to_string()),
    ]);
    let params = MessageCreateBuilder::new("sonnet-3-5-latest".to_string(), 1024).user(content).build();
    match &params.messages[0].content {
        MessageContent::Blocks(blocks) => {
            assert_eq!(blocks.len(), 2);
            assert_eq!(blocks[0], ContentBlockParam::Text { text: "Here's an image:".to_string(), cache_control: None });
            assert_eq!(
                blocks[1],
                ContentBlockParam::Image {
                    source: ImageSource::Base64 { media_type: "image/jpeg".to_string(), data: "base64data".to_string() },
                    cache_control: None,
                }
            );
        }
        MessageContent::Text(_) => panic!("expected blocks"),
    }
}

#[test]
fn content_block_text_with_cache() {
    let block = ContentBlockParam::text_with_cache("doc".to_string(), CacheControl::ephemeral());
    assert_eq!(block, ContentBlockParam::Text { text: "doc".to_string(), cache_control: Some(CacheControl::ephemeral()) });
}
