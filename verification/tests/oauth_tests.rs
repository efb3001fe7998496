use pebble_web::config::{Config, OAuthProviderCredentials};
use pebble_web::oauth::{
    account_identity, callback_start, error_redirect, list_providers, session_missing_redirect,
    spa_redirect, start_oauth_provider, success_redirect, urlencoding_encode, CallbackStart,
    OAuthCallbackQuery, OAuthSessionStore, PendingOAuthSession, StartOAuthRequest,
};

fn config(google: bool, microsoft: bool) -> Config {
    let creds = || OAuthProviderCredentials { client_id: "id".into(), client_secret: "secret".into() };
    Config {
        port: 8080,
        data_dir: "/data".into(),
        password_hash: "h".into(),
        jwt_secret: "j".into(),
        sync_interval_secs: 300,
        public_url: "https://mail.example.com".into(),
        google_oauth: if google { Some(creds()) } else { None },
        microsoft_oauth: if microsoft { Some(creds()) } else { None },
    }
}

#[test]
fn lists_configured_providers() {
    let r = list_providers(&config(true, true));
    assert_eq!(r.providers, vec!["gmail".to_string(), "outlook".to_string()]);
    assert_eq!(r.redirect_uri, "https://mail.example.com/api/oauth/callback");
    assert_eq!(list_providers(&config(false, true)).providers, vec!["outlook".to_string()]);
    assert!(list_providers(&config(false, false)).providers.is_empty());
}

#[test]
fn provider_names_are_trimmed_and_lowercased() {
    assert_eq!(start_oauth_provider(&StartOAuthRequest { provider: "  GMail ".into() }), "gmail");
    assert_eq!(start_oauth_provider(&StartOAuthRequest { provider: "ÖUTLOOK".into() }), "öutlook");
}

#[test]
fn encodes_like_the_urlencoding_crate() {
    for s in ["hello world", "a-b_c.d~e", "ü&=/?#", "", "%41"] {
        assert_eq!(urlencoding_encode(s), urlencoding::encode(s));
    }
    assert_eq!(urlencoding_encode("a b/ü"), "a%20b%2F%C3%BC");
}

#[test]
fn redirects_back_to_account_settings() {
    assert_eq!(
        spa_redirect("https://m.example/", &vec![("oauth", "error"), ("message", "no way")]),
        "https://m.example/settings?tab=accounts&oauth=error&message=no%20way"
    );
    assert_eq!(
        success_redirect("https://m", "acc 1", "a@b.c"),
        "https://m/settings?tab=accounts&oauth=success&accountId=acc%201&email=a%40b.c"
    );
    assert_eq!(
        session_missing_redirect("https://m"),
        error_redirect("https://m", "OAuth session expired or invalid. Please try again.")
    );
}

fn query(code: Option<&str>, state: Option<&str>, error: Option<&str>, desc: Option<&str>) -> OAuthCallbackQuery {
    OAuthCallbackQuery {
        code: code.map(String::from),
        state: state.map(String::from),
        error: error.map(String::from),
        error_description: desc.map(String::from),
    }
}

#[test]
fn callback_first_step() {
    match callback_start("https://m", &query(Some("c"), Some("s"), Some("access_denied"), Some(""))) {
        CallbackStart::Redirect(u) => assert_eq!(u, "https://m/settings?tab=accounts&oauth=error&message=access_denied"),
        _ => panic!("expected a redirect"),
    }
    match callback_start("https://m", &query(None, None, Some("e"), Some("User said no"))) {
        CallbackStart::Redirect(u) => assert!(u.ends_with("message=User%20said%20no")),
        _ => panic!("expected a redirect"),
    }
    match callback_start("https://m", &query(Some("c"), Some(""), None, None)) {
        CallbackStart::Redirect(u) => assert!(u.ends_with("message=Missing%20authorization%20code%20or%20state")),
        _ => panic!("expected a redirect"),
    }
    match callback_start("https://m", &query(Some("code"), Some("st"), None, None)) {
        CallbackStart::TakeSession { code, state } => assert_eq!((code.as_str(), state.as_str()), ("code", "st")),
        _ => panic!("expected a session lookup"),
    }
}

#[test]
fn account_identity_falls_back_to_email() {
    assert_eq!(account_identity("a@b".into(), "".into()).unwrap(), ("a@b".to_string(), "a@b".to_string()));
    assert_eq!(account_identity("a@b".into(), "Ann".into()).unwrap().1, "Ann");
    assert_eq!(account_identity("".into(), "Ann".into()).unwrap_err(), "Provider did not return an email address");
}

fn pending(provider: &str, csrf: &str) -> PendingOAuthSession {
    PendingOAuthSession { provider: provider.into(), code_verifier: "verifier".into(), csrf_token: csrf.into() }
}

#[test]
fn pending_sessions_are_taken_once() {
    let mut store = OAuthSessionStore::new();
    store.insert("c1".into(), pending("gmail", "c1"));
    store.insert("c2".into(), pending("outlook", "c2"));
    store.insert("c1".into(), pending("outlook", "c1"));
    assert!(store.take("c3").is_none());
    let s = store.take("c1").unwrap();
    assert_eq!((s.provider.as_str(), s.csrf_token.as_str()), ("outlook", "c1"));
    assert!(store.take("c1").is_none());
    assert_eq!(store.take("c2").unwrap().provider, "outlook");
    assert!(store.take("c2").is_none());
}
