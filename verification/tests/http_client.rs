use anthropic_sdk::http::client::{
    compose_status_message, decimal_string, error_message, is_success, trim_slashes_end,
};
use anthropic_sdk::http::client::request_id_from_header;
use anthropic_sdk::http::json::{extract_error_message, node_as_str, object_field, JsonNode};
use anthropic_sdk::{AnthropicError, AuthMethod, ClientConfig, HttpClient};
use std::time::Duration;

fn client(base_url: &str) -> HttpClient {
    HttpClient::new(ClientConfig {
        api_key: "k".to_string(),
        auth_method: AuthMethod::ApiKey,
        base_url: base_url.to_string(),
        timeout: Duration::from_secs(10),
    })
    .expect("client builds")
}

fn sorted(headers: &[(String, String)]) -> Vec<(String, String)> {
    let mut v = headers.to_vec();
    v.sort();
    v
}

#[test]
fn build_url_trims_trailing_slashes() {
    assert_eq!(client("https://api.anthropic.com").build_url("/v1/messages"), "https://api.anthropic.com/v1/messages");
    assert_eq!(client("https://api.anthropic.com/").build_url("/v1/messages"), "https://api.anthropic.com/v1/messages");
    assert_eq!(client("https://api.anthropic.com///").build_url("/v1/files"), "https://api.anthropic.com/v1/files");
    assert_eq!(client("http://gw/compass-api").build_url("/v1/models"), "http://gw/compass-api/v1/models");
}

#[test]
fn trim_slashes_end_cases() {
    assert_eq!(trim_slashes_end("abc//"), "abc");
    assert_eq!(trim_slashes_end("///"), "");
    assert_eq!(trim_slashes_end(""), "");
    assert_eq!(trim_slashes_end("a/b"), "a/b");
}

#[test]
fn base_url_and_config() {
    let c = client("https://x.test/");
    assert_eq!(c.base_url(), "https://x.test/");
    assert_eq!(c.config().api_key, "k");
    assert!(c.beta_headers().is_empty());
}

#[test]
fn beta_headers_insert_and_replace() {
    let mut c = client("https://x.test");
    c.with_extended_cache_ttl();
    c.with_interleaved_thinking();
    c.with_extended_cache_ttl();
    assert_eq!(
        sorted(c.beta_headers()),
        vec![
            ("extended-cache-ttl-2025-04-11".to_string(), "true".to_string()),
            ("interleaved-thinking-2025-05-14".to_string(), "true".to_string()),
        ]
    );
    c.with_beta_header("extended-cache-ttl-2025-04-11".to_string(), "false".to_string());
    c.with_beta_header("custom".to_string(), "1".to_string());
    assert_eq!(
        sorted(c.beta_headers()),
        vec![
            ("custom".to_string(), "1".to_string()),
            ("extended-cache-ttl-2025-04-11".to_string(), "false".to_string()),
            ("interleaved-thinking-2025-05-14".to_string(), "true".to_string()),
        ]
    );
}

#[test]
fn with_beta_headers_replaces_table() {
    let mut c = client("https://x.test");
    c.with_interleaved_thinking();
    let c = c.with_beta_headers(vec![
        ("a".to_string(), "1".to_string()),
        ("b".to_string(), "2".to_string()),
        ("a".to_string(), "3".to_string()),
    ]);
    assert_eq!(
        sorted(c.beta_headers()),
        vec![("a".to_string(), "3".to_string()), ("b".to_string(), "2".to_string())]
    );
}

#[test]
fn decimal_string_values() {
    assert_eq!(decimal_string(0), "0");
    assert_eq!(decimal_string(7), "7");
    assert_eq!(decimal_string(404), "404");
    assert_eq!(decimal_string(65535), "65535");
    for n in [1u16, 10, 99, 100, 529, 999, 1000, 40000] {
        assert_eq!(decimal_string(n), n.to_string());
    }
}

#[test]
fn success_range() {
    assert!(is_success(200));
    assert!(is_success(204));
    assert!(is_success(299));
    assert!(!is_success(199));
    assert!(!is_success(300));
    assert!(!is_success(404));
}

#[test]
fn compose_message_prefers_json_then_body() {
    assert_eq!(
        compose_status_message(400, Some("raw".to_string()), Some("bad key".to_string()), None),
        "bad key"
    );
    assert_eq!(compose_status_message(400, Some("raw".to_string()), None, Some("Bad Request")), "raw");
    assert_eq!(compose_status_message(503, None, None, Some("Service Unavailable")), "HTTP 503: Service Unavailable");
    assert_eq!(compose_status_message(599, None, None, None), "HTTP 599: Unknown");
}

#[test]
fn error_message_from_json_body() {
    let body = r#"{"type":"error","error":{"type":"invalid_request_error","message":"max_tokens: too large"}}"#;
    assert_eq!(error_message(400, Some(body.to_string())), "max_tokens: too large");
}

#[test]
fn error_message_from_plain_body() {
    assert_eq!(error_message(502, Some("upstream down".to_string())), "upstream down");
    let no_message = r#"{"error":{"type":"overloaded_error"}}"#;
    assert_eq!(error_message(529, Some(no_message.to_string())), no_message);
    let not_string = r#"{"error":{"message":42}}"#;
    assert_eq!(error_message(500, Some(not_string.to_string())), not_string);
}

#[test]
fn error_message_without_body_uses_reason() {
    assert_eq!(error_message(404, None), "HTTP 404: Not Found");
    assert_eq!(error_message(429, None), "HTTP 429: Too Many Requests");
    assert_eq!(error_message(599, None), "HTTP 599: Unknown");
}

#[test]
fn status_error_carries_status() {
    let e = HttpClient::status_error(401, Some(r#"{"error":{"message":"invalid x-api-key"}}"#.to_string()));
    assert_eq!(
        e,
        AnthropicError::Status { status: 401, message: "invalid x-api-key".to_string() }
    );
}

#[test]
fn auth_header_by_method() {
    let c = client("https://x.test");
    assert_eq!(c.auth_header(), ("x-api-key".to_string(), "k".to_string()));
    let b = HttpClient::new(ClientConfig {
        api_key: "tok".to_string(),
        auth_method: AuthMethod::Bearer,
        base_url: "https://gw.test".to_string(),
        timeout: Duration::from_secs(10),
    })
    .expect("client builds");
    assert_eq!(b.auth_header(), ("Authorization".to_string(), "Bearer tok".to_string()));
}

#[test]
fn request_id_from_header_values() {
    assert_eq!(request_id_from_header(None), None);
    assert_eq!(
        request_id_from_header(Some(b"req_011CPx-A")),
        Some(anthropic_sdk::RequestId("req_011CPx-A".to_string()))
    );
    assert_eq!(request_id_from_header(Some(b"a\tb c")).map(|r| r.0), Some("a\tb c".to_string()));
    assert_eq!(request_id_from_header(Some(b"bad\nid")), None);
    assert_eq!(request_id_from_header(Some(&[0x68, 0xC3, 0xA9])), None);
    assert_eq!(request_id_from_header(Some(b"")).map(|r| r.0), Some(String::new()));
}

#[test]
fn json_nodes_and_lookup() {
    let node = JsonNode::Object(vec![
        ("type".to_string(), "\"error\"".to_string()),
        ("error".to_string(), "{\"message\":\"m\"}".to_string()),
        ("error".to_string(), "second".to_string()),
    ]);
    assert_eq!(object_field(&node, "error"), Some("{\"message\":\"m\"}".to_string()));
    assert_eq!(object_field(&node, "missing"), None);
    assert_eq!(object_field(&JsonNode::String("error".to_string()), "error"), None);
    assert_eq!(node_as_str(&JsonNode::String("hi".to_string())), Some("hi".to_string()));
    assert_eq!(node_as_str(&JsonNode::Number("42".to_string())), None);

    assert_eq!(extract_error_message(r#"{"error":{"message":"overloaded"}}"#), Some("overloaded".to_string()));
    assert_eq!(extract_error_message(r#"{"error":{"message":"a \"quoted\" word"}}"#), Some("a \"quoted\" word".to_string()));
    assert_eq!(extract_error_message(r#"{"error":"flat"}"#), None);
    assert_eq!(extract_error_message(r#"{"error":{"message":null}}"#), None);
    assert_eq!(extract_error_message("not json"), None);
    assert_eq!(extract_error_message(r#"[1,2]"#), None);
}
