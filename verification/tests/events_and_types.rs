use anthropic_sdk::{
    CacheControl, CacheTtl, CacheType, EventType, RequestId, ThinkingConfig, ThinkingType, Usage,
};
use std::collections::HashMap;

#[test]
fn test_event_type_equality() {
    assert_eq!(EventType::Text, EventType::Text);
    assert_ne!(EventType::Text, EventType::Error);
}

#[test]
fn test_event_type_as_hash_key() {
    let mut map: HashMap<EventType, Vec<String>> = HashMap::new();
    map.insert(EventType::Text, vec!["handler1".to_string()]);
    map.insert(EventType::Error, vec!["handler2".to_string()]);

    assert!(map.contains_key(&EventType::Text));
    assert!(map.contains_key(&EventType::Error));
    assert!(!map.contains_key(&EventType::Connect));
}

#[test]
fn test_event_handler_debug() {
    let debug_str = EventType::Text.handler_debug_string();
    assert!(debug_str.contains("Text"));
    assert!(debug_str.contains("<callback>"));
}

#[test]
fn handler_debug_strings_match_tuple_debug() {
    assert_eq!(EventType::Text.handler_debug_string(), "Text(\"<callback>\")");
    assert_eq!(EventType::StreamEvent.handler_debug_string(), "StreamEvent(\"<callback>\")");
    assert_eq!(EventType::FinalMessage.handler_debug_string(), "FinalMessage(\"<callback>\")");
    assert_eq!(EventType::Abort.handler_debug_string(), format!("{:?}(\"<callback>\")", EventType::Abort));
}

fn usage(input: u32, output: u32, created: Option<u32>, read: Option<u32>) -> Usage {
    Usage {
        input_tokens: input,
        output_tokens: output,
        cache_creation_input_tokens: created,
        cache_read_input_tokens: read,
        cache_creation: None,
        server_tool_use: None,
        service_tier: None,
    }
}

#[test]
fn usage_total_tokens() {
    assert_eq!(usage(100, 50, None, None).total_tokens(), 150);
    assert_eq!(usage(0, 0, Some(5), Some(5)).total_tokens(), 0);
}

#[test]
fn usage_total_input_tokens_counts_cache() {
    assert_eq!(usage(100, 50, None, None).total_input_tokens(), 100);
    assert_eq!(usage(100, 50, Some(2000), None).total_input_tokens(), 2100);
    assert_eq!(usage(10, 50, Some(20), Some(300)).total_input_tokens(), 330);
}

#[test]
fn cache_control_constructors() {
    assert_eq!(CacheControl::ephemeral(), CacheControl::default());
    assert_eq!(CacheControl::ephemeral().ttl, None);
    assert_eq!(CacheControl::ephemeral().cache_type, CacheType::Ephemeral);
    assert_eq!(CacheControl::ephemeral_5m().ttl, Some(CacheTtl::FiveMinutes));
    assert_eq!(CacheControl::ephemeral_1h().ttl, Some(CacheTtl::OneHour));
    assert_ne!(CacheControl::ephemeral_5m(), CacheControl::ephemeral_1h());
}

#[test]
fn thinking_config_constructors() {
    let c = ThinkingConfig::new(2048);
    assert_eq!(c.budget_tokens, 2048);
    assert_eq!(c.thinking_type, ThinkingType::Enabled);
    assert_eq!(ThinkingConfig::enabled(2048), c);
}

#[test]
fn request_id_round_trip() {
    let id = RequestId::new("req_011CPx".to_string());
    assert_eq!(id.as_str(), "req_011CPx");
    assert_eq!(id.to_string(), "req_011CPx");
    assert_eq!(id, RequestId("req_011CPx".to_string()));
}
