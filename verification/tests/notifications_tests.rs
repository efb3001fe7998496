use std::collections::HashMap;

use pebble_web::json::{JsonMember, JsonValue};
use pebble_web::model::{EmailAddress, Message, WebhookProvider};
use pebble_web::notifications::{
    build_request, prepare_notification, dingtalk_sign, display_sender, ensure_success, feishu_sign, require_non_empty,
    require_url, validate_config, HttpMethod, NotificationMessage, OutboundRequest, RequestBody,
    WebhookConfig,
};

#[test]
fn validates_provider_requirements() {
    assert!(validate_config(
        &WebhookProvider::Slack,
        &WebhookConfig { url: Some("https://hooks.slack.test/x".into()), ..Default::default() }
    )
    .is_ok());
    assert!(validate_config(
        &WebhookProvider::Slack,
        &WebhookConfig { url: Some("ftp://example.com".into()), ..Default::default() }
    )
    .is_err());
    assert!(validate_config(
        &WebhookProvider::Telegram,
        &WebhookConfig { bot_token: Some("token".into()), chat_id: Some("123".into()), ..Default::default() }
    )
    .is_ok());
}

#[test]
fn signature_helpers_are_stable() {
    let dingtalk = dingtalk_sign("123456789", "secret").unwrap();
    let feishu = feishu_sign("123456789", "secret").unwrap();
    assert_eq!(dingtalk, dingtalk_sign("123456789", "secret").unwrap());
    assert_eq!(feishu, feishu_sign("123456789", "secret").unwrap());
    assert!(!dingtalk.is_empty());
    assert!(!feishu.is_empty());
    assert_ne!(dingtalk, feishu);
    assert_eq!(dingtalk.len(), 44);
    assert_eq!(feishu.len(), 44);
    assert!(dingtalk.ends_with('=') && feishu.ends_with('='));
}

#[test]
fn signatures_match_hmac_sha256_base64() {
    assert_eq!(dingtalk_sign("123456789", "secret").unwrap(), "9wDnTkWDAGLDp/+OD4zCwUDQF48oC5rPZOXrnfGY1Qg=");
    assert_eq!(feishu_sign("123456789", "secret").unwrap(), "12WBGOKzKhUMu55BiR3FJavUQJ531QjI4y3TFogCios=");
}

#[test]
fn validation_messages_name_the_missing_field() {
    let empty = WebhookConfig::default();
    assert_eq!(validate_config(&WebhookProvider::Discord, &empty).unwrap_err(), "Webhook URL is required");
    assert_eq!(validate_config(&WebhookProvider::Telegram, &empty).unwrap_err(), "Bot token is required");
    let tg = WebhookConfig { bot_token: Some("t".into()), chat_id: Some("   ".into()), ..Default::default() };
    assert_eq!(validate_config(&WebhookProvider::Telegram, &tg).unwrap_err(), "Chat ID is required");
    let ntfy = WebhookConfig { server_url: Some("https://ntfy.sh".into()), ..Default::default() };
    assert_eq!(validate_config(&WebhookProvider::Ntfy, &ntfy).unwrap_err(), "Topic is required");
    let ntfy_url = WebhookConfig { url: Some(" http://n/t ".into()), ..Default::default() };
    assert!(validate_config(&WebhookProvider::Ntfy, &ntfy_url).is_ok());
    let gotify = WebhookConfig { server_url: Some("gotify.local".into()), token: Some("x".into()), ..Default::default() };
    assert_eq!(
        validate_config(&WebhookProvider::Gotify, &gotify).unwrap_err(),
        "Webhook URL must start with http:// or https://"
    );
    let gotify2 = WebhookConfig { server_url: Some("http://g".into()), ..Default::default() };
    assert_eq!(validate_config(&WebhookProvider::Gotify, &gotify2).unwrap_err(), "App token is required");
}

#[test]
fn require_helpers_trim_and_report() {
    assert_eq!(require_non_empty(Some("  abc \t"), "Field").unwrap(), "abc");
    assert_eq!(require_non_empty(Some(" \u{3000} "), "Field").unwrap_err(), "Field is required");
    assert_eq!(require_non_empty(None, "Topic").unwrap_err(), "Topic is required");
    assert!(require_url(Some("  https://x")).is_ok());
    assert_eq!(require_url(Some("x")).unwrap_err(), "Webhook URL must start with http:// or https://");
}

fn message() -> Message {
    Message {
        id: "message-1".into(),
        account_id: "account-1".into(),
        subject: "Urgent deploy".into(),
        snippet: "Please review".into(),
        from_address: "alerts@example.com".into(),
        from_name: "Alerts".into(),
        to_list: vec![EmailAddress { name: None, address: "me@example.com".into() }],
        body_text: "Deploy failed".into(),
        has_attachments: false,
        date: 1,
    }
}

#[test]
fn notification_text_from_message() {
    let n = NotificationMessage::from_message(&message());
    assert_eq!(n.title, "New mail: Urgent deploy");
    assert_eq!(n.body, "From: Alerts <alerts@example.com>\nSubject: Urgent deploy\nPlease review");
    assert_eq!(n.subject, "Urgent deploy");
    assert_eq!(n.message_id, "message-1");
    assert_eq!(n.date, 1);
    let mut m = message();
    m.from_name = "  ".into();
    m.subject = "".into();
    let n = NotificationMessage::from_message(&m);
    assert_eq!(n.title, "New mail: (no subject)");
    assert_eq!(n.body, "From: alerts@example.com\nSubject: (no subject)\nPlease review");
    assert_eq!(display_sender(&n), "alerts@example.com");
}

#[test]
fn test_notification_is_fixed() {
    let n = NotificationMessage::test(42);
    assert_eq!(n.title, "Pebble Web test notification");
    assert_eq!(n.from_address, "pebble@example.com");
    assert_eq!(n.date, 42);
}

fn json(r: &OutboundRequest) -> String {
    r.body_text()
}

#[test]
fn builds_generic_request() {
    let mut headers = HashMap::new();
    headers.insert("X-Key".to_string(), "v".to_string());
    let c = WebhookConfig { url: Some(" https://h/x ".into()), method: Some("patch".into()), headers, ..Default::default() };
    let n = NotificationMessage::test(7);
    let r = build_request(&WebhookProvider::Generic, &c, &n, 0).unwrap();
    assert_eq!(r.method, HttpMethod::Patch);
    assert_eq!(r.url, "https://h/x");
    assert_eq!(r.config_headers.get("X-Key").map(String::as_str), Some("v"));
    assert!(json(&r).starts_with("{\"accountId\":\"test-account\",\"body\":"));
    assert!(json(&r).contains(",\"date\":7,"));
    assert!(json(&r).ends_with(",\"title\":\"Pebble Web test notification\"}"));
    let c2 = WebhookConfig { url: Some("https://h".into()), method: Some("delete".into()), ..Default::default() };
    assert_eq!(build_request(&WebhookProvider::Generic, &c2, &n, 0).unwrap().method, HttpMethod::Post);
}

#[test]
fn builds_slack_and_discord_payloads() {
    let n = NotificationMessage::from_message(&message());
    let c = WebhookConfig { url: Some("https://hooks".into()), ..Default::default() };
    let slack = build_request(&WebhookProvider::Slack, &c, &n, 0).unwrap();
    assert_eq!(
        json(&slack),
        "{\"blocks\":[{\"text\":{\"text\":\"*New mail: Urgent deploy*\\nFrom: Alerts <alerts@example.com>\\nSubject: Urgent deploy\\nPlease review\",\"type\":\"mrkdwn\"},\"type\":\"section\"}],\"text\":\"From: Alerts <alerts@example.com>\\nSubject: Urgent deploy\\nPlease review\"}"
    );
    let discord = build_request(&WebhookProvider::Discord, &c, &n, 0).unwrap();
    assert_eq!(
        json(&discord),
        "{\"content\":\"New mail: Urgent deploy\",\"embeds\":[{\"description\":\"Please review\",\"fields\":[{\"inline\":false,\"name\":\"From\",\"value\":\"Alerts <alerts@example.com>\"},{\"inline\":false,\"name\":\"Message ID\",\"value\":\"message-1\"}],\"title\":\"Urgent deploy\"}]}"
    );
}

#[test]
fn builds_telegram_request() {
    let n = NotificationMessage::test(0);
    let c = WebhookConfig {
        bot_token: Some(" tok ".into()),
        chat_id: Some("42".into()),
        parse_mode: Some("HTML".into()),
        ..Default::default()
    };
    let r = build_request(&WebhookProvider::Telegram, &c, &n, 0).unwrap();
    assert_eq!(r.url, "https://api.telegram.org/bottok/sendMessage");
    assert_eq!(
        json(&r),
        "{\"chat_id\":\"42\",\"disable_web_page_preview\":true,\"parse_mode\":\"HTML\",\"text\":\"This is a test notification from Pebble Web.\"}"
    );
}

#[test]
fn builds_signed_feishu_and_dingtalk_requests() {
    let n = NotificationMessage::test(0);
    let c = WebhookConfig { url: Some("https://open.feishu/hook".into()), secret: Some("s3".into()), ..Default::default() };
    let r = build_request(&WebhookProvider::Feishu, &c, &n, 1_700_000_000).unwrap();
    assert!(json(&r).ends_with(
        "\"sign\":\"eadg3K8D5pJHina1SanWPdQUcpqxvN+0kGvFxsngPzI=\",\"timestamp\":\"1700000000\"}"
    ));
    let d = WebhookConfig { url: Some("https://oapi.dingtalk.com/robot/send?access_token=a".into()), secret: Some("s3".into()), ..Default::default() };
    let r = build_request(&WebhookProvider::Dingtalk, &d, &n, 1_700_000_000).unwrap();
    assert_eq!(
        r.url,
        "https://oapi.dingtalk.com/robot/send?access_token=a&timestamp=1700000000000&sign=w%2F%2FWr9BepCZSyOrMSpUJCCMqyAMNpwsESxNxoB4KUKQ%3D"
    );
    let unsigned = WebhookConfig { url: Some("https://x/y".into()), ..Default::default() };
    let r = build_request(&WebhookProvider::Dingtalk, &unsigned, &n, 5).unwrap();
    assert_eq!(r.url, "https://x/y");
}

#[test]
fn builds_ntfy_and_gotify_requests() {
    let n = NotificationMessage::test(0);
    let c = WebhookConfig {
        server_url: Some("https://ntfy.sh//".into()),
        topic: Some("/alerts".into()),
        token: Some("tk".into()),
        priority: Some(3),
        ..Default::default()
    };
    let r = build_request(&WebhookProvider::Ntfy, &c, &n, 0).unwrap();
    assert_eq!(r.url, "https://ntfy.sh/alerts");
    assert_eq!(r.headers, vec![("Title".to_string(), n.title.clone()), ("Priority".to_string(), "3".to_string())]);
    assert_eq!(r.bearer_token.as_deref(), Some("tk"));
    assert!(matches!(&r.body, RequestBody::Text(t) if t == &n.body));
    let g = WebhookConfig { server_url: Some("http://gotify/".into()), token: Some("a b&c".into()), ..Default::default() };
    let r = build_request(&WebhookProvider::Gotify, &g, &n, 0).unwrap();
    assert_eq!(r.url, "http://gotify/message?token=a%20b%26c");
    assert!(json(&r).ends_with(",\"priority\":5,\"title\":\"Pebble Web test notification\"}"));
}

#[test]
fn wecom_payload_and_missing_url() {
    let n = NotificationMessage::test(0);
    let r = build_request(&WebhookProvider::Wecom, &WebhookConfig { url: Some("https://w".into()), ..Default::default() }, &n, 0).unwrap();
    assert_eq!(json(&r), "{\"markdown\":{\"content\":\"This is a test notification from Pebble Web.\"},\"msgtype\":\"markdown\"}");
    assert_eq!(
        build_request(&WebhookProvider::Wecom, &WebhookConfig::default(), &n, 0).unwrap_err(),
        "Webhook URL is required"
    );
}

#[test]
fn success_status_range() {
    assert!(ensure_success(200).is_ok());
    assert!(ensure_success(299).is_ok());
    assert_eq!(ensure_success(404).unwrap_err(), "Webhook returned HTTP 404 Not Found");
    assert_eq!(ensure_success(500).unwrap_err(), "Webhook returned HTTP 500 Internal Server Error");
    assert_eq!(ensure_success(599).unwrap_err(), "Webhook returned HTTP 599 <unknown status code>");
    assert!(ensure_success(300).is_err());
    assert!(ensure_success(199).is_err());
}

#[test]
fn json_body_text_is_serde_json_compact_text() {
    let v = JsonValue::Object(vec![
        JsonMember { key: "n".into(), value: JsonValue::Array(vec![JsonValue::Null, JsonValue::Bool(true), JsonValue::Int(-12), JsonValue::Number("1.50".into()), JsonValue::Number("abc".into())]) },
        JsonMember { key: "a\"b".into(), value: JsonValue::Str("line\nquote\"\\ \u{1} é".into()) },
    ]);
    let r = OutboundRequest {
        method: HttpMethod::Post,
        url: "https://x".into(),
        headers: vec![],
        config_headers: HashMap::new(),
        bearer_token: None,
        body: RequestBody::Json(v),
    };
    assert_eq!(r.body_text(), "{\"a\\\"b\":\"line\\nquote\\\"\\\\ \\u0001 é\",\"n\":[null,true,-12,1.5,null]}");
    let t = OutboundRequest { body: RequestBody::Text("plain".into()), ..r };
    assert_eq!(t.body_text(), "plain");
}

#[test]
fn prepared_notifications_are_validated_first() {
    let n = NotificationMessage::test(0);
    let bad = WebhookConfig { url: Some("ftp://x".into()), ..Default::default() };
    assert_eq!(
        prepare_notification(&WebhookProvider::Slack, &bad, &n, 0).unwrap_err(),
        "Webhook URL must start with http:// or https://"
    );
    assert_eq!(
        prepare_notification(&WebhookProvider::Gotify, &WebhookConfig::default(), &n, 0).unwrap_err(),
        "Webhook URL is required"
    );
    let good = WebhookConfig { url: Some("https://hooks".into()), ..Default::default() };
    let r = prepare_notification(&WebhookProvider::Wecom, &good, &n, 0).unwrap();
    assert_eq!(r.url, "https://hooks");
}
