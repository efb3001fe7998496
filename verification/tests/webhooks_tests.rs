use std::collections::HashMap;

use pebble_web::model::{StoredWebhookEndpoint, WebhookEndpoint, WebhookProvider};
use pebble_web::notifications::WebhookConfig;
use pebble_web::webhooks::{
    check_create, check_test, check_update, endpoint_found, keeps_existing_config,
    merge_missing_config_fields, new_endpoint, updated_endpoint, validate_name, ApiError,
};

fn existing_config() -> WebhookConfig {
    let mut headers = HashMap::new();
    headers.insert("Authorization".to_string(), "Bearer old".to_string());

    WebhookConfig {
        url: Some("https://example.com/webhook".to_string()),
        method: Some("PUT".to_string()),
        headers,
        bot_token: Some("old-bot-token".to_string()),
        chat_id: Some("old-chat-id".to_string()),
        parse_mode: Some("Markdown".to_string()),
        secret: Some("old-secret".to_string()),
        server_url: Some("https://ntfy.example.com".to_string()),
        topic: Some("old-topic".to_string()),
        token: Some("old-token".to_string()),
        priority: Some(4),
    }
}

#[test]
fn merge_missing_config_fields_preserves_existing_values() {
    let mut config = WebhookConfig::default();

    merge_missing_config_fields(&mut config, existing_config());

    assert_eq!(config.url.as_deref(), Some("https://example.com/webhook"));
    assert_eq!(config.method.as_deref(), Some("PUT"));
    assert_eq!(config.headers.get("Authorization").map(String::as_str), Some("Bearer old"));
    assert_eq!(config.bot_token.as_deref(), Some("old-bot-token"));
    assert_eq!(config.chat_id.as_deref(), Some("old-chat-id"));
    assert_eq!(config.parse_mode.as_deref(), Some("Markdown"));
    assert_eq!(config.secret.as_deref(), Some("old-secret"));
    assert_eq!(config.server_url.as_deref(), Some("https://ntfy.example.com"));
    assert_eq!(config.topic.as_deref(), Some("old-topic"));
    assert_eq!(config.token.as_deref(), Some("old-token"));
    assert_eq!(config.priority, Some(4));
}

#[test]
fn merge_missing_config_fields_keeps_provided_values() {
    let mut headers = HashMap::new();
    headers.insert("Authorization".to_string(), "Bearer new".to_string());
    let mut config = WebhookConfig {
        url: Some("https://new.example.com/webhook".to_string()),
        method: Some("PATCH".to_string()),
        headers,
        bot_token: Some("new-bot-token".to_string()),
        chat_id: Some("new-chat-id".to_string()),
        parse_mode: Some("HTML".to_string()),
        secret: Some("new-secret".to_string()),
        server_url: Some("https://new-ntfy.example.com".to_string()),
        topic: Some("new-topic".to_string()),
        token: Some("new-token".to_string()),
        priority: Some(2),
    };

    merge_missing_config_fields(&mut config, existing_config());

    assert_eq!(config.url.as_deref(), Some("https://new.example.com/webhook"));
    assert_eq!(config.method.as_deref(), Some("PATCH"));
    assert_eq!(config.headers.get("Authorization").map(String::as_str), Some("Bearer new"));
    assert_eq!(config.bot_token.as_deref(), Some("new-bot-token"));
    assert_eq!(config.chat_id.as_deref(), Some("new-chat-id"));
    assert_eq!(config.parse_mode.as_deref(), Some("HTML"));
    assert_eq!(config.secret.as_deref(), Some("new-secret"));
    assert_eq!(config.server_url.as_deref(), Some("https://new-ntfy.example.com"));
    assert_eq!(config.topic.as_deref(), Some("new-topic"));
    assert_eq!(config.token.as_deref(), Some("new-token"));
    assert_eq!(config.priority, Some(2));
}

#[test]
fn merging_twice_is_merging_once() {
    let mut once = WebhookConfig { url: Some("https://a".into()), ..Default::default() };
    merge_missing_config_fields(&mut once, existing_config());
    let mut twice = once.clone();
    merge_missing_config_fields(&mut twice, existing_config());
    assert_eq!(twice.url, once.url);
    assert_eq!(twice.secret, once.secret);
    assert_eq!(twice.headers, once.headers);
    assert_eq!(twice.priority, once.priority);
}

#[test]
fn names_must_not_be_blank() {
    assert!(validate_name("Alerts").is_ok());
    match validate_name(" \t ") {
        Err(ApiError::BadRequest(m)) => assert_eq!(m, "Webhook name is required"),
        _ => panic!("blank name accepted"),
    }
}

#[test]
fn endpoint_records_trim_names() {
    let e = new_endpoint("id-1".into(), "  Alerts ", WebhookProvider::Slack, true, false, 100);
    assert_eq!(e.name, "Alerts");
    assert_eq!(e.created_at, 100);
    assert_eq!(e.updated_at, 100);
    let existing = WebhookEndpoint { created_at: 5, ..e.clone() };
    let u = updated_endpoint("id-1".into(), "Critical ", WebhookProvider::Ntfy, false, true, &existing, 200);
    assert_eq!(u.name, "Critical");
    assert_eq!(u.created_at, 5);
    assert_eq!(u.updated_at, 200);
    assert_eq!(u.provider, WebhookProvider::Ntfy);
    assert!(keeps_existing_config(WebhookProvider::Slack, WebhookProvider::Slack));
    assert!(!keeps_existing_config(WebhookProvider::Slack, WebhookProvider::Discord));
}

fn stored(provider: WebhookProvider) -> StoredWebhookEndpoint {
    StoredWebhookEndpoint {
        endpoint: WebhookEndpoint {
            id: "w1".into(),
            name: "Old".into(),
            provider,
            is_enabled: true,
            notify_on_new_mail: true,
            created_at: 10,
            updated_at: 20,
        },
        encrypted_config: vec![1, 2],
    }
}

fn message_of(e: ApiError) -> (u8, String) {
    match e {
        ApiError::BadRequest(m) => (0, m),
        ApiError::NotFound(m) => (1, m),
        ApiError::Internal(m) => (2, m),
    }
}

fn slack(url: &str) -> WebhookConfig {
    WebhookConfig { url: Some(url.into()), ..Default::default() }
}

#[test]
fn create_checks_name_then_config() {
    let bad_json = Err(ApiError::BadRequest("Invalid webhook config: x".into()));
    assert_eq!(message_of(check_create("  ", WebhookProvider::Slack, bad_json).unwrap_err()), (0, "Webhook name is required".into()));
    let bad_json = Err(ApiError::BadRequest("Invalid webhook config: x".into()));
    assert_eq!(message_of(check_create("A", WebhookProvider::Slack, bad_json).unwrap_err()), (0, "Invalid webhook config: x".into()));
    assert_eq!(message_of(check_create("A", WebhookProvider::Slack, Ok(slack("ftp://x"))).unwrap_err()).1, "Webhook URL must start with http:// or https://");
    assert_eq!(check_create("A", WebhookProvider::Slack, Ok(slack("https://h"))).unwrap().url.as_deref(), Some("https://h"));
}

#[test]
fn update_checks_in_order_and_merges_stored_secrets() {
    let internal = || Err(ApiError::Internal("Failed to load webhook: db".into()));
    let ok_cfg = || Ok(slack("https://h"));
    let blank = check_update("w1".into(), " ", WebhookProvider::Slack, true, true, internal(), ok_cfg(), Ok(WebhookConfig::default()), 5);
    assert_eq!(message_of(blank.unwrap_err()), (0, "Webhook name is required".into()));
    let failed = check_update("w1".into(), "N", WebhookProvider::Slack, true, true, internal(), ok_cfg(), Ok(WebhookConfig::default()), 5);
    assert_eq!(message_of(failed.unwrap_err()).0, 2);
    let missing = check_update("w1".into(), "N", WebhookProvider::Slack, true, true, Ok(None), ok_cfg(), Ok(WebhookConfig::default()), 5);
    assert_eq!(message_of(missing.unwrap_err()), (1, "Webhook endpoint not found".into()));
    let unreadable = check_update("w1".into(), "N", WebhookProvider::Slack, true, true, Ok(Some(stored(WebhookProvider::Slack))), ok_cfg(), Err(ApiError::Internal("Failed to decrypt webhook config: k".into())), 5);
    assert_eq!(message_of(unreadable.unwrap_err()).0, 2);
    let other_provider = check_update("w1".into(), " New ", WebhookProvider::Discord, false, true, Ok(Some(stored(WebhookProvider::Slack))), ok_cfg(), Err(ApiError::Internal("ignored".into())), 5);
    let (endpoint, config) = other_provider.unwrap();
    assert_eq!((endpoint.name.as_str(), endpoint.created_at, endpoint.updated_at, endpoint.is_enabled), ("New", 10, 5, false));
    assert_eq!(config.url.as_deref(), Some("https://h"));
    let merged = check_update("w1".into(), "N", WebhookProvider::Slack, true, true, Ok(Some(stored(WebhookProvider::Slack))), Ok(WebhookConfig::default()), Ok(slack("https://old")), 5);
    assert_eq!(merged.unwrap().1.url.as_deref(), Some("https://old"));
    let invalid = check_update("w1".into(), "N", WebhookProvider::Slack, true, true, Ok(Some(stored(WebhookProvider::Slack))), Ok(WebhookConfig::default()), Ok(WebhookConfig::default()), 5);
    assert_eq!(message_of(invalid.unwrap_err()), (0, "Webhook URL is required".into()));
}

#[test]
fn test_request_merges_with_the_named_endpoint() {
    let cfg = check_test(WebhookProvider::Slack, Ok(WebhookConfig::default()), None, Ok(slack("https://old"))).unwrap();
    assert!(cfg.url.is_none());
    let cfg = check_test(WebhookProvider::Slack, Ok(WebhookConfig::default()), Some(Ok(Some(stored(WebhookProvider::Slack)))), Ok(slack("https://old"))).unwrap();
    assert_eq!(cfg.url.as_deref(), Some("https://old"));
    let missing = check_test(WebhookProvider::Slack, Ok(WebhookConfig::default()), Some(Ok(None)), Ok(WebhookConfig::default()));
    assert_eq!(message_of(missing.unwrap_err()).0, 1);
    assert_eq!(message_of(endpoint_found(Ok(None)).unwrap_err()), (1, "Webhook endpoint not found".into()));
    assert_eq!(endpoint_found(Ok(Some(stored(WebhookProvider::Ntfy)))).unwrap().endpoint.id, "w1");
}
