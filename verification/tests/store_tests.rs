use pebble_web::model::{PebbleError, WebhookProvider};
use pebble_web::store::{flag_to_column, provider_to_str, row_to_stored, str_to_provider};

const ALL: [WebhookProvider; 9] = [
    WebhookProvider::Generic,
    WebhookProvider::Slack,
    WebhookProvider::Discord,
    WebhookProvider::Telegram,
    WebhookProvider::Feishu,
    WebhookProvider::Dingtalk,
    WebhookProvider::Wecom,
    WebhookProvider::Ntfy,
    WebhookProvider::Gotify,
];

#[test]
fn provider_names_round_trip() {
    for p in ALL {
        assert_eq!(str_to_provider(provider_to_str(&p)).unwrap(), p);
    }
    assert_eq!(provider_to_str(&WebhookProvider::Dingtalk), "dingtalk");
}

#[test]
fn unknown_provider_is_a_validation_error() {
    match str_to_provider("Slack") {
        Err(PebbleError::Validation(m)) => assert_eq!(m, "Unknown webhook provider: Slack"),
        _ => panic!("accepted an unknown provider"),
    }
}

#[test]
fn rows_become_stored_endpoints() {
    let s = row_to_stored(
        "id".into(),
        "Alerts".into(),
        "slack",
        b"encrypted webhook config".to_vec(),
        1,
        0,
        10,
        11,
    )
    .unwrap();
    assert_eq!(s.endpoint.provider, WebhookProvider::Slack);
    assert!(s.endpoint.is_enabled);
    assert!(!s.endpoint.notify_on_new_mail);
    assert_eq!(s.encrypted_config, b"encrypted webhook config");
    assert!(row_to_stored("id".into(), "x".into(), "pager", vec![], 1, 1, 0, 0).is_err());
    assert_eq!(flag_to_column(true), 1);
    assert_eq!(flag_to_column(false), 0);
}

#[test]
fn storage_errors_have_their_text() {
    assert_eq!(PebbleError::Storage("disk full".into()).message(), "disk full");
    assert_eq!(PebbleError::Validation("Unknown webhook provider: x".into()).message(), "Unknown webhook provider: x");
}
