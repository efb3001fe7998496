use pebble_web::config::{
    is_insecure_default_password, is_insecure_jwt_secret, join_path, Config, EnvValues,
    OAuthProviderCredentials,
};

#[test]
fn rejects_documented_placeholder_passwords() {
    assert!(is_insecure_default_password("changeme"));
    assert!(is_insecure_default_password("your-password-here"));
    assert!(!is_insecure_default_password("correct horse battery staple"));
}

#[test]
fn rejects_documented_placeholder_or_short_jwt_secrets() {
    assert!(is_insecure_jwt_secret("change-this-to-a-random-string"));
    assert!(is_insecure_jwt_secret("generate-a-random-string-here"));
    assert!(is_insecure_jwt_secret("your-random-secret-at-least-32-chars"));
    assert!(is_insecure_jwt_secret("short-secret"));
    assert!(!is_insecure_jwt_secret("this-is-a-real-secret-with-32-plus-chars"));
}

#[test]
fn placeholders_are_recognised_after_trimming() {
    assert!(is_insecure_default_password("  changeme\n"));
    assert!(!is_insecure_default_password("changeme2"));
    // 32 bytes once trimmed is long enough; 31 is not
    assert!(!is_insecure_jwt_secret(" 0123456789abcdef0123456789abcdef "));
    assert!(is_insecure_jwt_secret("0123456789abcdef0123456789abcde"));
    // length counts bytes: 17 two-byte characters make 34 bytes
    assert!(!is_insecure_jwt_secret("ééééééééééééééééé"));
}

fn env(password: Option<&str>, jwt: Option<&str>) -> EnvValues {
    EnvValues {
        password: password.map(|s| s.to_string()),
        jwt_secret: jwt.map(|s| s.to_string()),
        port: None,
        data_dir: None,
        sync_interval: None,
        public_url: None,
    }
}

const SECRET: &str = "this-is-a-real-secret-with-32-plus-chars";

#[test]
fn check_env_applies_defaults() {
    let checked = Config::check_env(&env(Some("hunter2-but-longer"), Some(SECRET))).unwrap();
    assert_eq!(checked.port, 8080);
    assert_eq!(checked.data_dir, "/data");
    assert_eq!(checked.sync_interval_secs, 300);
    assert_eq!(checked.public_url, "http://localhost:8080");
    assert_eq!(checked.password, "hunter2-but-longer");
    assert_eq!(checked.jwt_secret, SECRET);
}

#[test]
fn check_env_reports_each_error() {
    assert_eq!(
        Config::check_env(&env(None, Some(SECRET))).unwrap_err(),
        "PEBBLE_PASSWORD env var is required"
    );
    assert_eq!(
        Config::check_env(&env(Some("pw"), None)).unwrap_err(),
        "PEBBLE_JWT_SECRET env var is required"
    );
    assert_eq!(
        Config::check_env(&env(Some("pw"), Some("short"))).unwrap_err(),
        "PEBBLE_JWT_SECRET must be changed from the default value"
    );
    assert_eq!(
        Config::check_env(&env(Some("changeme"), Some(SECRET))).unwrap_err(),
        "PEBBLE_PASSWORD must be changed from the default value"
    );
    let mut e = env(Some("pw"), Some(SECRET));
    e.port = Some("80a".to_string());
    assert_eq!(Config::check_env(&e).unwrap_err(), "Invalid PEBBLE_PORT: invalid digit found in string");
    e.port = Some("70000".to_string());
    assert_eq!(
        Config::check_env(&e).unwrap_err(),
        "Invalid PEBBLE_PORT: number too large to fit in target type"
    );
    e.port = Some(String::new());
    assert_eq!(
        Config::check_env(&e).unwrap_err(),
        "Invalid PEBBLE_PORT: cannot parse integer from empty string"
    );
    e.port = Some("+9000".to_string());
    e.sync_interval = Some("-1".to_string());
    assert_eq!(
        Config::check_env(&e).unwrap_err(),
        "Invalid PEBBLE_SYNC_INTERVAL: invalid digit found in string"
    );
}

#[test]
fn check_env_reads_given_values() {
    let mut e = env(Some("pw"), Some(SECRET));
    e.port = Some("+9000".to_string());
    e.data_dir = Some("/srv/pebble/".to_string());
    e.sync_interval = Some("60".to_string());
    e.public_url = Some("https://mail.example.com//".to_string());
    let checked = Config::check_env(&e).unwrap();
    assert_eq!(checked.port, 9000);
    assert_eq!(checked.sync_interval_secs, 60);
    assert_eq!(checked.public_url, "https://mail.example.com");
    let config = Config::from_checked_env(checked, Ok("hash".to_string()), None, None).unwrap();
    assert_eq!(config.password_hash, "hash");
    assert_eq!(config.db_path(), "/srv/pebble/pebble.db");
    assert_eq!(config.index_dir(), "/srv/pebble/index");
    assert_eq!(config.attachments_dir(), "/srv/pebble/attachments");
    assert_eq!(config.key_file_path(), "/srv/pebble/encryption.key");
    assert_eq!(config.oauth_callback_url(), "https://mail.example.com/api/oauth/callback");
}

#[test]
fn failed_password_hash_is_reported() {
    let checked = Config::check_env(&env(Some("pw"), Some(SECRET))).unwrap();
    let creds = OAuthProviderCredentials { client_id: "id".to_string(), client_secret: "s".to_string() };
    let err = Config::from_checked_env(checked, Err("boom".to_string()), Some(creds), None).unwrap_err();
    assert_eq!(err, "Failed to hash password: boom");
}

#[test]
fn joins_paths_like_path_join() {
    assert_eq!(join_path("/data", "pebble.db"), "/data/pebble.db");
    assert_eq!(join_path("/data/", "pebble.db"), "/data/pebble.db");
    assert_eq!(join_path("", "pebble.db"), "pebble.db");
    let joined = std::path::Path::new("data/dir").join("index");
    assert_eq!(join_path("data/dir", "index"), joined.to_str().unwrap());
}
