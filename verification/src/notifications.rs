//! Webhook notifications: the provider configuration and its checks, the notification text,
//! the signatures of DingTalk and Feishu, and the HTTP request each provider receives.
use std::collections::HashMap;

use vstd::prelude::*;
use vstd::string::*;
use vstd::utf8::encode_utf8;

use crate::encoding::{
    base64_encode, base64_standard_encode, hmac_sha256, hmac_sha256_digest, lemma_base64_len,
    url_encoded,
    urlencoding_crate_encode,
};
use crate::json::{
    compact_json_text, jbool, jint, jobj, jarr, jstr, jstr_of, json_compact, member, Js, JsonMember,
    JsonValue,
};
use crate::model::{Message, WebhookProvider};
use crate::text::{
    all_ws, cat, chars_of, contains, dec, dec_int, fmt_i64, has_infix, has_prefix, is_blank, own,
    starts_with, strip_end, strip_end_char, strip_start, strip_start_char, trim, trim_bounds,
    upper, uppercase, seq_eq,
};

verus! {

/// The timeout of webhook requests, in seconds.
pub const DEFAULT_TIMEOUT_SECS: u64 = 10;

/// The priority sent to ntfy and Gotify when none is configured.
pub const DEFAULT_GOTIFY_PRIORITY: i32 = 5;

/// The configuration of a webhook endpoint; which fields matter depends on the provider.
#[derive(Debug, Clone)]
pub struct WebhookConfig {
    pub url: Option<String>,
    pub method: Option<String>,
    pub headers: HashMap<String, String>,
    pub bot_token: Option<String>,
    pub chat_id: Option<String>,
    pub parse_mode: Option<String>,
    pub secret: Option<String>,
    pub server_url: Option<String>,
    pub topic: Option<String>,
    pub token: Option<String>,
    pub priority: Option<i32>,
}

impl Default for WebhookConfig {
    fn default() -> (r: Self)
        ensures
            r.url is None && r.method is None && r.bot_token is None && r.chat_id is None
                && r.parse_mode is None && r.secret is None && r.server_url is None
                && r.topic is None && r.token is None && r.priority is None,
            r.headers@ == Map::<String, String>::empty(),
    {
        WebhookConfig {
            url: None,
            method: None,
            headers: HashMap::new(),
            bot_token: None,
            chat_id: None,
            parse_mode: None,
            secret: None,
            server_url: None,
            topic: None,
            token: None,
            priority: None,
        }
    }
}

/// What a notification says about a message.
#[derive(Debug, Clone)]
pub struct NotificationMessage {
    pub title: String,
    pub body: String,
    pub subject: String,
    pub from_name: String,
    pub from_address: String,
    pub account_id: String,
    pub message_id: String,
    pub snippet: String,
    pub date: i64,
}

/// HTTP methods a webhook request is sent with.
#[derive(Debug, Clone, Copy, PartialEq, Eq, Structural)]
pub enum HttpMethod {
    Post,
    Put,
    Patch,
}

/// The body of a webhook request.
#[derive(Debug)]
pub enum RequestBody {
    Json(JsonValue),
    Text(String),
}

/// A webhook request, ready to send: the method and URL, headers in order, the headers the
/// user configured (generic webhooks), an optional bearer token and the body.
#[derive(Debug)]
pub struct OutboundRequest {
    pub method: HttpMethod,
    pub url: String,
    pub headers: Vec<(String, String)>,
    pub config_headers: HashMap<String, String>,
    pub bearer_token: Option<String>,
    pub body: RequestBody,
}

/// The view of a request body.
pub enum BodySpec {
    Json(Js),
    Text(Seq<char>),
}

/// The view of a webhook request.
pub struct RequestSpec {
    pub method: HttpMethod,
    pub url: Seq<char>,
    pub headers: Seq<(Seq<char>, Seq<char>)>,
    pub config_headers: Map<String, String>,
    pub bearer_token: Option<Seq<char>>,
    pub body: BodySpec,
}

impl View for OutboundRequest {
    type V = RequestSpec;

    open spec fn view(&self) -> RequestSpec {
        RequestSpec {
            method: self.method,
            url: self.url@,
            headers: self.headers@.map_values(|h: (String, String)| (h.0@, h.1@)),
            config_headers: self.config_headers@,
            bearer_token: match self.bearer_token {
                Some(t) => Some(t@),
                None => None,
            },
            body: match self.body {
                RequestBody::Json(j) => BodySpec::Json(j@),
                RequestBody::Text(t) => BodySpec::Text(t@),
            },
        }
    }
}

// ---------------------------------------------------------------------------
// Specifications
// ---------------------------------------------------------------------------

/// How a sender is shown: `name <address>`, or the address alone when the name is blank.
pub open spec fn sender_text(name: Seq<char>, address: Seq<char>) -> Seq<char> {
    if all_ws(name) {
        address
    } else {
        name + " <"@ + address + ">"@
    }
}

/// The subject shown in a notification: the message's, or `(no subject)` when blank.
pub open spec fn subject_text(subject: Seq<char>) -> Seq<char> {
    if all_ws(subject) {
        "(no subject)"@
    } else {
        subject
    }
}

/// The trimmed value of an optional field, when it is present and not blank.
pub open spec fn present(v: Option<String>) -> Option<Seq<char>> {
    match v {
        Some(s) => if all_ws(s@) {
            None
        } else {
            Some(trim(s@))
        },
        None => None,
    }
}

/// The field's value when present and not blank (untrimmed).
pub open spec fn filled(v: Option<String>) -> Option<Seq<char>> {
    match v {
        Some(s) => if all_ws(s@) {
            None
        } else {
            Some(s@)
        },
        None => None,
    }
}

/// The message for a missing field.
pub open spec fn required_text(field: Seq<char>) -> Seq<char> {
    field + " is required"@
}

/// What is wrong with a URL field, if anything.
pub open spec fn url_problem(v: Option<String>) -> Option<Seq<char>> {
    match present(v) {
        None => Some(required_text("Webhook URL"@)),
        Some(u) => if starts_with(u, "http://"@) || starts_with(u, "https://"@) {
            None
        } else {
            Some("Webhook URL must start with http:// or https://"@)
        },
    }
}

/// The first problem `validate_config` reports for a provider and configuration.
pub open spec fn config_problem(p: WebhookProvider, c: WebhookConfig) -> Option<Seq<char>> {
    match p {
        WebhookProvider::Telegram => if present(c.bot_token) is None {
            Some(required_text("Bot token"@))
        } else if present(c.chat_id) is None {
            Some(required_text("Chat ID"@))
        } else {
            None
        },
        WebhookProvider::Ntfy => if present(c.url) is Some {
            url_problem(c.url)
        } else if url_problem(c.server_url) is Some {
            url_problem(c.server_url)
        } else if present(c.topic) is None {
            Some(required_text("Topic"@))
        } else {
            None
        },
        WebhookProvider::Gotify => if url_problem(c.server_url) is Some {
            url_problem(c.server_url)
        } else if present(c.token) is None {
            Some(required_text("App token"@))
        } else {
            None
        },
        _ => url_problem(c.url),
    }
}

/// DingTalk's signature: base64 of HMAC-SHA256 of `timestamp\nsecret` under the secret.
pub open spec fn dingtalk_signature(timestamp: Seq<char>, secret: Seq<char>) -> Seq<char> {
    base64_encode(hmac_sha256(encode_utf8(secret), encode_utf8(timestamp + "\n"@ + secret)))
}

/// Feishu's signature: base64 of HMAC-SHA256 of nothing under the key `timestamp\nsecret`.
pub open spec fn feishu_signature(timestamp: Seq<char>, secret: Seq<char>) -> Seq<char> {
    base64_encode(hmac_sha256(encode_utf8(timestamp + "\n"@ + secret), Seq::empty()))
}

/// The method of a generic webhook: the configured one in uppercase if PUT or PATCH, else POST.
pub open spec fn method_of(c: WebhookConfig) -> HttpMethod {
    let m = upper(
        match c.method {
            Some(s) => s@,
            None => "POST"@,
        },
    );
    if m == "PUT"@ {
        HttpMethod::Put
    } else if m == "PATCH"@ {
        HttpMethod::Patch
    } else {
        HttpMethod::Post
    }
}

/// The configured priority, or the default.
pub open spec fn priority_of(c: WebhookConfig) -> int {
    match c.priority {
        Some(p) => p as int,
        None => DEFAULT_GOTIFY_PRIORITY as int,
    }
}

/// A JSON request with the given method, URL and payload and nothing else.
pub open spec fn json_request(method: HttpMethod, url: Seq<char>, payload: Js) -> RequestSpec {
    RequestSpec {
        method,
        url,
        headers: Seq::empty(),
        config_headers: Map::empty(),
        bearer_token: None,
        body: BodySpec::Json(payload),
    }
}

/// The payload of a generic webhook: every field of the notification.
pub open spec fn generic_payload(m: NotificationMessage) -> Js {
    Js::Object(
        seq![
            ("title"@, Js::Str(m.title@)),
            ("body"@, Js::Str(m.body@)),
            ("subject"@, Js::Str(m.subject@)),
            ("fromName"@, Js::Str(m.from_name@)),
            ("fromAddress"@, Js::Str(m.from_address@)),
            ("accountId"@, Js::Str(m.account_id@)),
            ("messageId"@, Js::Str(m.message_id@)),
            ("snippet"@, Js::Str(m.snippet@)),
            ("date"@, Js::Int(m.date as int)),
        ],
    )
}

/// Slack's payload: the body as text, and a markdown section with the title in bold.
pub open spec fn slack_payload(m: NotificationMessage) -> Js {
    Js::Object(
        seq![
            ("text"@, Js::Str(m.body@)),
            (
                "blocks"@,
                Js::Array(
                    seq![
                        Js::Object(
                            seq![
                                ("type"@, Js::Str("section"@)),
                                (
                                    "text"@,
                                    Js::Object(
                                        seq![
                                            ("type"@, Js::Str("mrkdwn"@)),
                                            ("text"@, Js::Str("*"@ + m.title@ + "*\n"@ + m.body@)),
                                        ],
                                    ),
                                ),
                            ],
                        ),
                    ],
                ),
            ),
        ],
    )
}

/// Discord's payload: the title as content and an embed with subject, snippet, sender and id.
pub open spec fn discord_payload(m: NotificationMessage) -> Js {
    Js::Object(
        seq![
            ("content"@, Js::Str(m.title@)),
            (
                "embeds"@,
                Js::Array(
                    seq![
                        Js::Object(
                            seq![
                                ("title"@, Js::Str(m.subject@)),
                                ("description"@, Js::Str(m.snippet@)),
                                (
                                    "fields"@,
                                    Js::Array(
                                        seq![
                                            Js::Object(
                                                seq![
                                                    ("name"@, Js::Str("From"@)),
                                                    (
                                                        "value"@,
                                                        Js::Str(
                                                            sender_text(
                                                                m.from_name@,
                                                                m.from_address@,
                                                            ),
                                                        ),
                                                    ),
                                                    ("inline"@, Js::Bool(false)),
                                                ],
                                            ),
                                            Js::Object(
                                                seq![
                                                    ("name"@, Js::Str("Message ID"@)),
                                                    ("value"@, Js::Str(m.message_id@)),
                                                    ("inline"@, Js::Bool(false)),
                                                ],
                                            ),
                                        ],
                                    ),
                                ),
                            ],
                        ),
                    ],
                ),
            ),
        ],
    )
}

/// Telegram's payload: chat, text, no link previews, and the parse mode when one is set.
pub open spec fn telegram_payload(chat_id: Seq<char>, c: WebhookConfig, m: NotificationMessage) -> Js {
    let base = seq![
        ("chat_id"@, Js::Str(chat_id)),
        ("text"@, Js::Str(m.body@)),
        ("disable_web_page_preview"@, Js::Bool(true)),
    ];
    match filled(c.parse_mode) {
        Some(pm) => Js::Object(base.push(("parse_mode"@, Js::Str(pm)))),
        None => Js::Object(base),
    }
}

/// Feishu's payload: a text message, signed with the timestamp when a secret is set.
pub open spec fn feishu_payload(c: WebhookConfig, m: NotificationMessage, now: int) -> Js {
    let base = seq![
        ("msg_type"@, Js::Str("text"@)),
        ("content"@, Js::Object(seq![("text"@, Js::Str(m.body@))])),
    ];
    match filled(c.secret) {
        Some(secret) => Js::Object(
            base + seq![
                ("timestamp"@, Js::Str(dec_int(now))),
                ("sign"@, Js::Str(feishu_signature(dec_int(now), secret))),
            ],
        ),
        None => Js::Object(base),
    }
}

/// DingTalk's URL: the configured one, with timestamp and signature appended when a secret is set.
pub open spec fn dingtalk_url(url: Seq<char>, c: WebhookConfig, now: int) -> Seq<char> {
    match filled(c.secret) {
        Some(secret) => {
            let ts = dec_int(now * 1000);
            let sep = if contains(url, "?"@) {
                '&'
            } else {
                '?'
            };
            url + seq![sep] + "timestamp="@ + ts + "&sign="@ + url_encoded(
                dingtalk_signature(ts, secret),
            )
        },
        None => url,
    }
}

/// DingTalk's payload: a markdown message with title and body.
pub open spec fn dingtalk_payload(m: NotificationMessage) -> Js {
    Js::Object(
        seq![
            ("msgtype"@, Js::Str("markdown"@)),
            (
                "markdown"@,
                Js::Object(seq![("title"@, Js::Str(m.title@)), ("text"@, Js::Str(m.body@))]),
            ),
        ],
    )
}

/// WeCom's payload: a markdown message with the body.
pub open spec fn wecom_payload(m: NotificationMessage) -> Js {
    Js::Object(
        seq![
            ("msgtype"@, Js::Str("markdown"@)),
            ("markdown"@, Js::Object(seq![("content"@, Js::Str(m.body@))])),
        ],
    )
}

/// Gotify's payload: title, message and priority.
pub open spec fn gotify_payload(c: WebhookConfig, m: NotificationMessage) -> Js {
    Js::Object(
        seq![
            ("title"@, Js::Str(m.title@)),
            ("message"@, Js::Str(m.body@)),
            ("priority"@, Js::Int(priority_of(c))),
        ],
    )
}

/// A request posting JSON to the configured URL, or the error when the URL is missing.
pub open spec fn post_to_url(c: WebhookConfig, payload: Js) -> Result<RequestSpec, Seq<char>> {
    match present(c.url) {
        Some(u) => Ok(json_request(HttpMethod::Post, u, payload)),
        None => Err(required_text("Webhook URL"@)),
    }
}

/// The request that a provider receives for a notification at time `now` (seconds),
/// or the message of the first missing setting.
pub open spec fn request_spec(
    p: WebhookProvider,
    c: WebhookConfig,
    m: NotificationMessage,
    now: int,
) -> Result<RequestSpec, Seq<char>> {
    match p {
        WebhookProvider::Generic => match present(c.url) {
            Some(u) => Ok(
                RequestSpec {
                    method: method_of(c),
                    url: u,
                    headers: Seq::empty(),
                    config_headers: c.headers@,
                    bearer_token: None,
                    body: BodySpec::Json(generic_payload(m)),
                },
            ),
            None => Err(required_text("Webhook URL"@)),
        },
        WebhookProvider::Slack => post_to_url(c, slack_payload(m)),
        WebhookProvider::Discord => post_to_url(c, discord_payload(m)),
        WebhookProvider::Telegram => match (present(c.bot_token), present(c.chat_id)) {
            (None, _) => Err(required_text("Bot token"@)),
            (Some(_), None) => Err(required_text("Chat ID"@)),
            (Some(token), Some(chat)) => Ok(
                json_request(
                    HttpMethod::Post,
                    "https://api.telegram.org/bot"@ + token + "/sendMessage"@,
                    telegram_payload(chat, c, m),
                ),
            ),
        },
        WebhookProvider::Feishu => post_to_url(c, feishu_payload(c, m, now)),
        WebhookProvider::Dingtalk => match present(c.url) {
            Some(u) => Ok(json_request(HttpMethod::Post, dingtalk_url(u, c, now), dingtalk_payload(m))),
            None => Err(required_text("Webhook URL"@)),
        },
        WebhookProvider::Wecom => post_to_url(c, wecom_payload(m)),
        WebhookProvider::Ntfy => {
            let url = match present(c.url) {
                Some(u) => Ok(u),
                None => match (present(c.server_url), present(c.topic)) {
                    (None, _) => Err(required_text("Server URL"@)),
                    (Some(_), None) => Err(required_text("Topic"@)),
                    (Some(base), Some(topic)) => Ok(
                        strip_end(base, '/') + "/"@ + strip_start(topic, '/'),
                    ),
                },
            };
            match url {
                Ok(u) => Ok(
                    RequestSpec {
                        method: HttpMethod::Post,
                        url: u,
                        headers: seq![
                            ("Title"@, m.title@),
                            ("Priority"@, dec_int(priority_of(c))),
                        ],
                        config_headers: Map::empty(),
                        bearer_token: filled(c.token),
                        body: BodySpec::Text(m.body@),
                    },
                ),
                Err(e) => Err(e),
            }
        },
        WebhookProvider::Gotify => match (present(c.server_url), present(c.token)) {
            (None, _) => Err(required_text("Server URL"@)),
            (Some(_), None) => Err(required_text("App token"@)),
            (Some(base), Some(token)) => Ok(
                json_request(
                    HttpMethod::Post,
                    strip_end(base, '/') + "/message?token="@ + url_encoded(token),
                    gotify_payload(c, m),
                ),
            ),
        },
    }
}

/// The timestamp of a DingTalk signature (milliseconds) fits in `i64`.
pub open spec fn dingtalk_time_fits(p: WebhookProvider, c: WebhookConfig, now: int) -> bool {
    p == WebhookProvider::Dingtalk && filled(c.secret) is Some ==> i64::MIN <= now * 1000
        <= i64::MAX
}


// ---------------------------------------------------------------------------
// Notification text
// ---------------------------------------------------------------------------

/// `Option<String>::as_deref`.
pub fn opt_str(o: &Option<String>) -> (r: Option<&str>)
    ensures
        o is None ==> r is None,
        o is Some ==> r is Some && r->0@ == o->0@,
{
    match o {
        Some(s) => Some(s.as_str()),
        None => None,
    }
}

/// How a sender is shown: `name <address>`, or the address alone when the name is blank.
fn sender_line(name: &str, address: &str) -> (res: String)
    ensures
        res@ == sender_text(name@, address@),
{
    if is_blank(name) {
        own(address)
    } else {
        let mut s = cat(name, " <");
        s.append(address);
        s.append(">");
        s
    }
}

impl NotificationMessage {
    /// The notification for a newly arrived message.
    pub fn from_message(message: &Message) -> (n: Self)
        ensures
            n.subject@ == subject_text(message.subject@),
            n.title@ == "New mail: "@ + subject_text(message.subject@),
            n.body@ == "From: "@ + sender_text(message.from_name@, message.from_address@)
                + "\nSubject: "@ + subject_text(message.subject@) + "\n"@ + message.snippet@,
            n.from_name@ == message.from_name@,
            n.from_address@ == message.from_address@,
            n.account_id@ == message.account_id@,
            n.message_id@ == message.id@,
            n.snippet@ == message.snippet@,
            n.date == message.date,
    {
        let sender = sender_line(message.from_name.as_str(), message.from_address.as_str());
        let subject = if is_blank(message.subject.as_str()) {
            own("(no subject)")
        } else {
            message.subject.clone()
        };
        let mut body = cat("From: ", sender.as_str());
        body.append("\nSubject: ");
        body.append(subject.as_str());
        body.append("\n");
        body.append(message.snippet.as_str());
        NotificationMessage {
            title: cat("New mail: ", subject.as_str()),
            body,
            subject,
            from_name: message.from_name.clone(),
            from_address: message.from_address.clone(),
            account_id: message.account_id.clone(),
            message_id: message.id.clone(),
            snippet: message.snippet.clone(),
            date: message.date,
        }
    }

    /// The notification sent when a user tests an endpoint, dated `date`.
    pub fn test(date: i64) -> (n: Self)
        ensures
            n.title@ == "Pebble Web test notification"@,
            n.body@ == "This is a test notification from Pebble Web."@,
            n.subject@ == "Test notification"@,
            n.from_name@ == "Pebble Web"@,
            n.from_address@ == "pebble@example.com"@,
            n.account_id@ == "test-account"@,
            n.message_id@ == "test-message"@,
            n.snippet@
                == "If you can see this message, your webhook endpoint is configured correctly."@,
            n.date == date,
    {
        NotificationMessage {
            title: own("Pebble Web test notification"),
            body: own("This is a test notification from Pebble Web."),
            subject: own("Test notification"),
            from_name: own("Pebble Web"),
            from_address: own("pebble@example.com"),
            account_id: own("test-account"),
            message_id: own("test-message"),
            snippet: own(
                "If you can see this message, your webhook endpoint is configured correctly.",
            ),
            date,
        }
    }
}

/// How the sender of a notification is shown.
pub fn display_sender(message: &NotificationMessage) -> (res: String)
    ensures
        res@ == sender_text(message.from_name@, message.from_address@),
{
    sender_line(message.from_name.as_str(), message.from_address.as_str())
}

// ---------------------------------------------------------------------------
// Configuration checks
// ---------------------------------------------------------------------------

/// The trimmed value of a field, or `"{field} is required"` when it is missing or blank.
pub fn require_non_empty<'a>(value: Option<&'a str>, field: &str) -> (res: Result<&'a str, String>)
    ensures
        match res {
            Ok(t) => value is Some && !all_ws(value->0@) && t@ == trim(value->0@),
            Err(e) => (value is None || all_ws(value->0@)) && e@ == required_text(field@),
        },
{
    match value {
        None => Err(cat(field, " is required")),
        Some(s) => {
            if is_blank(s) {
                return Err(cat(field, " is required"));
            }
            let v = chars_of(s);
            let (a, b) = trim_bounds(&v);
            Ok(s.substring_char(a, b))
        },
    }
}

/// `present` of a field, as `require_non_empty` sees it.
proof fn lemma_present(v: Option<String>, r: Option<&str>)
    requires
        v is None ==> r is None,
        v is Some ==> r is Some && r->0@ == v->0@,
    ensures
        present(v) is None <==> (r is None || all_ws(r->0@)),
        present(v) is Some ==> present(v)->0 == trim(r->0@),
{
}

/// Checks that a URL field is present and starts with `http://` or `https://`.
pub fn require_url(value: Option<&str>) -> (res: Result<(), String>)
    ensures
        match res {
            Ok(_) => value is Some && !all_ws(value->0@) && (starts_with(trim(value->0@), "http://"@)
                || starts_with(trim(value->0@), "https://"@)),
            Err(e) => if value is None || all_ws(value->0@) {
                e@ == required_text("Webhook URL"@)
            } else {
                !starts_with(trim(value->0@), "http://"@) && !starts_with(
                    trim(value->0@),
                    "https://"@,
                ) && e@ == "Webhook URL must start with http:// or https://"@
            },
        },
{
    let url = match require_non_empty(value, "Webhook URL") {
        Ok(u) => u,
        Err(e) => return Err(e),
    };
    let v = chars_of(url);
    if has_prefix(&v, &chars_of("http://")) || has_prefix(&v, &chars_of("https://")) {
        Ok(())
    } else {
        Err(own("Webhook URL must start with http:// or https://"))
    }
}

/// The outcome of `require_url` on a field, as `url_problem` states it.
fn check_url(v: &Option<String>) -> (res: Result<(), String>)
    ensures
        match res {
            Ok(_) => url_problem(*v) is None,
            Err(e) => url_problem(*v) == Some(e@),
        },
{
    let r = opt_str(v);
    proof {
        lemma_present(*v, r);
    }
    require_url(r)
}

/// Whether a field is present and not blank, as `present` states it.
fn has_value(v: &Option<String>) -> (res: bool)
    ensures
        res == (present(*v) is Some),
{
    match v {
        Some(s) => !is_blank(s.as_str()),
        None => false,
    }
}

/// Checks that a provider's configuration has what sending needs.
pub fn validate_config(provider: &WebhookProvider, config: &WebhookConfig) -> (res: Result<
    (),
    String,
>)
    ensures
        match res {
            Ok(_) => config_problem(*provider, *config) is None,
            Err(e) => config_problem(*provider, *config) == Some(e@),
        },
{
    match provider {
        WebhookProvider::Telegram => {
            if !has_value(&config.bot_token) {
                return Err(cat("Bot token", " is required"));
            }
            if !has_value(&config.chat_id) {
                return Err(cat("Chat ID", " is required"));
            }
            Ok(())
        },
        WebhookProvider::Ntfy => {
            if has_value(&config.url) {
                check_url(&config.url)
            } else {
                match check_url(&config.server_url) {
                    Err(e) => return Err(e),
                    Ok(_) => {},
                }
                if !has_value(&config.topic) {
                    return Err(cat("Topic", " is required"));
                }
                Ok(())
            }
        },
        WebhookProvider::Gotify => {
            match check_url(&config.server_url) {
                Err(e) => return Err(e),
                Ok(_) => {},
            }
            if !has_value(&config.token) {
                return Err(cat("App token", " is required"));
            }
            Ok(())
        },
        _ => check_url(&config.url),
    }
}


// ---------------------------------------------------------------------------
// Signatures
// ---------------------------------------------------------------------------

/// Base64 of the HMAC-SHA256 tag of `data` under `key`.
fn hmac_sha256_base64(key: &[u8], data: &[u8]) -> (res: Result<String, String>)
    ensures
        res is Ok,
        res->Ok_0@ == base64_encode(hmac_sha256(key@, data@)),
        res->Ok_0@.len() == 44,
        res->Ok_0@.last() == '=',
{
    match hmac_sha256_digest(key, data) {
        Ok(digest) => {
            proof {
                lemma_base64_len(digest@);
            }
            Ok(base64_standard_encode(digest.as_slice()))
        },
        Err(e) => Err(e),
    }
}

/// The signature DingTalk expects for a timestamp (milliseconds) and a secret.
pub fn dingtalk_sign(timestamp: &str, secret: &str) -> (res: Result<String, String>)
    ensures
        res is Ok,
        res->Ok_0@ == dingtalk_signature(timestamp@, secret@),
        res->Ok_0@.len() == 44,
        res->Ok_0@.last() == '=',
{
    let mut string_to_sign = cat(timestamp, "\n");
    string_to_sign.append(secret);
    hmac_sha256_base64(secret.as_bytes(), string_to_sign.as_str().as_bytes())
}

/// The signature Feishu expects for a timestamp (seconds) and a secret.
pub fn feishu_sign(timestamp: &str, secret: &str) -> (res: Result<String, String>)
    ensures
        res is Ok,
        res->Ok_0@ == feishu_signature(timestamp@, secret@),
        res->Ok_0@.len() == 44,
        res->Ok_0@.last() == '=',
{
    let mut key = cat(timestamp, "\n");
    key.append(secret);
    let empty: Vec<u8> = Vec::new();
    proof {
        assert(empty@ == Seq::<u8>::empty());
    }
    hmac_sha256_base64(key.as_str().as_bytes(), empty.as_slice())
}

// ---------------------------------------------------------------------------
// Requests
// ---------------------------------------------------------------------------

/// A request posting `payload` as JSON to `url`.
fn json_post(method: HttpMethod, url: String, payload: JsonValue) -> (r: OutboundRequest)
    ensures
        r@ == json_request(method, url@, payload@),
{
    let r = OutboundRequest {
        method,
        url,
        headers: Vec::new(),
        config_headers: HashMap::new(),
        bearer_token: None,
        body: RequestBody::Json(payload),
    };
    assert(r@.headers =~= Seq::<(Seq<char>, Seq<char>)>::empty());
    r
}

/// A JSON string member.
fn str_member(key: &str, value: &String) -> (m: JsonMember)
    ensures
        m@ == (key@, Js::Str(value@)),
{
    member(key, jstr(value.clone()))
}

/// The payload of a generic webhook.
fn generic_json(m: &NotificationMessage) -> (r: JsonValue)
    ensures
        r@ == generic_payload(*m),
{
    let mut ms: Vec<JsonMember> = Vec::new();
    ms.push(str_member("title", &m.title));
    ms.push(str_member("body", &m.body));
    ms.push(str_member("subject", &m.subject));
    ms.push(str_member("fromName", &m.from_name));
    ms.push(str_member("fromAddress", &m.from_address));
    ms.push(str_member("accountId", &m.account_id));
    ms.push(str_member("messageId", &m.message_id));
    ms.push(str_member("snippet", &m.snippet));
    ms.push(member("date", jint(m.date)));
    let r = jobj(ms);
    assert(crate::json::member_views(ms@) =~= generic_payload(*m)->Object_0);
    r
}

/// Slack's payload.
fn slack_json(m: &NotificationMessage) -> (r: JsonValue)
    ensures
        r@ == slack_payload(*m),
{
    let mut text = cat("*", m.title.as_str());
    text.append("*\n");
    text.append(m.body.as_str());
    let mut inner: Vec<JsonMember> = Vec::new();
    inner.push(member("type", jstr_of("mrkdwn")));
    inner.push(member("text", jstr(text)));
    let inner_obj = jobj(inner);
    let mut section: Vec<JsonMember> = Vec::new();
    section.push(member("type", jstr_of("section")));
    section.push(member("text", inner_obj));
    let section_obj = jobj(section);
    let mut blocks: Vec<JsonValue> = Vec::new();
    blocks.push(section_obj);
    let blocks_arr = jarr(blocks);
    let mut ms: Vec<JsonMember> = Vec::new();
    ms.push(str_member("text", &m.body));
    ms.push(member("blocks", blocks_arr));
    let r = jobj(ms);
    proof {
        let p = slack_payload(*m);
        let sec = p->Object_0[1].1->Array_0[0];
        let inn = sec->Object_0[1].1;
        assert(crate::json::member_views(inner@) =~= inn->Object_0);
        assert(crate::json::member_views(section@) =~= sec->Object_0);
        assert(crate::json::views(blocks@) =~= p->Object_0[1].1->Array_0);
        assert(crate::json::member_views(ms@) =~= p->Object_0);
    }
    r
}

/// Discord's payload.
fn discord_json(m: &NotificationMessage) -> (r: JsonValue)
    ensures
        r@ == discord_payload(*m),
{
    let mut from_field: Vec<JsonMember> = Vec::new();
    from_field.push(member("name", jstr_of("From")));
    from_field.push(member("value", jstr(display_sender(m))));
    from_field.push(member("inline", jbool(false)));
    let from_obj = jobj(from_field);
    let mut id_field: Vec<JsonMember> = Vec::new();
    id_field.push(member("name", jstr_of("Message ID")));
    id_field.push(str_member("value", &m.message_id));
    id_field.push(member("inline", jbool(false)));
    let id_obj = jobj(id_field);
    let mut fields: Vec<JsonValue> = Vec::new();
    fields.push(from_obj);
    fields.push(id_obj);
    let fields_arr = jarr(fields);
    let mut embed: Vec<JsonMember> = Vec::new();
    embed.push(str_member("title", &m.subject));
    embed.push(str_member("description", &m.snippet));
    embed.push(member("fields", fields_arr));
    let embed_obj = jobj(embed);
    let mut embeds: Vec<JsonValue> = Vec::new();
    embeds.push(embed_obj);
    let embeds_arr = jarr(embeds);
    let mut ms: Vec<JsonMember> = Vec::new();
    ms.push(str_member("content", &m.title));
    ms.push(member("embeds", embeds_arr));
    let r = jobj(ms);
    proof {
        let p = discord_payload(*m);
        let emb = p->Object_0[1].1->Array_0[0];
        let flds = emb->Object_0[2].1;
        assert(crate::json::member_views(from_field@) =~= flds->Array_0[0]->Object_0);
        assert(crate::json::member_views(id_field@) =~= flds->Array_0[1]->Object_0);
        assert(crate::json::views(fields@) =~= flds->Array_0);
        assert(crate::json::member_views(embed@) =~= emb->Object_0);
        assert(crate::json::views(embeds@) =~= p->Object_0[1].1->Array_0);
        assert(crate::json::member_views(ms@) =~= p->Object_0);
    }
    r
}

/// The field's value when present and not blank (untrimmed), as `filled` states it.
fn filled_value(v: &Option<String>) -> (r: Option<String>)
    ensures
        match r {
            Some(s) => filled(*v) == Some(s@),
            None => filled(*v) is None,
        },
{
    match v {
        Some(s) => if is_blank(s.as_str()) {
            None
        } else {
            Some(s.clone())
        },
        None => None,
    }
}

/// The configured priority, or the default.
fn priority_value(c: &WebhookConfig) -> (p: i32)
    ensures
        p as int == priority_of(*c),
{
    match c.priority {
        Some(p) => p,
        None => DEFAULT_GOTIFY_PRIORITY,
    }
}

/// The trimmed value of a required field, as `present` states it.
fn required(v: &Option<String>, field: &str) -> (res: Result<String, String>)
    ensures
        match res {
            Ok(t) => present(*v) == Some(t@),
            Err(e) => present(*v) is None && e@ == required_text(field@),
        },
{
    let r = opt_str(v);
    proof {
        lemma_present(*v, r);
    }
    match require_non_empty(r, field) {
        Ok(t) => Ok(own(t)),
        Err(e) => Err(e),
    }
}

/// A JSON post to the configured URL.
fn post_to_configured_url(c: &WebhookConfig, payload: JsonValue) -> (res: Result<
    OutboundRequest,
    String,
>)
    ensures
        match res {
            Ok(r) => post_to_url(*c, payload@) == Ok::<RequestSpec, Seq<char>>(r@),
            Err(e) => post_to_url(*c, payload@) == Err::<RequestSpec, Seq<char>>(e@),
        },
{
    match required(&c.url, "Webhook URL") {
        Ok(u) => Ok(json_post(HttpMethod::Post, u, payload)),
        Err(e) => Err(e),
    }
}

/// The method of a generic webhook.
fn generic_method(c: &WebhookConfig) -> (m: HttpMethod)
    ensures
        m == method_of(*c),
{
    let configured = match &c.method {
        Some(s) => chars_of(s.as_str()),
        None => chars_of("POST"),
    };
    let up = uppercase(&configured);
    if seq_eq(&up, &chars_of("PUT")) {
        HttpMethod::Put
    } else if seq_eq(&up, &chars_of("PATCH")) {
        HttpMethod::Patch
    } else {
        HttpMethod::Post
    }
}

/// The request of a generic webhook.
fn build_generic(c: &WebhookConfig, m: &NotificationMessage) -> (res: Result<OutboundRequest, String>)
    ensures
        match res {
            Ok(r) => request_spec(WebhookProvider::Generic, *c, *m, 0) == Ok::<
                RequestSpec,
                Seq<char>,
            >(r@),
            Err(e) => request_spec(WebhookProvider::Generic, *c, *m, 0) == Err::<
                RequestSpec,
                Seq<char>,
            >(e@),
        },
{
    let url = match required(&c.url, "Webhook URL") {
        Ok(u) => u,
        Err(e) => return Err(e),
    };
    let r = OutboundRequest {
        method: generic_method(c),
        url,
        headers: Vec::new(),
        config_headers: c.headers.clone(),
        bearer_token: None,
        body: RequestBody::Json(generic_json(m)),
    };
    assert(r@.headers =~= Seq::<(Seq<char>, Seq<char>)>::empty());
    Ok(r)
}

/// The request sent to Telegram.
fn build_telegram(c: &WebhookConfig, m: &NotificationMessage) -> (res: Result<OutboundRequest, String>)
    ensures
        match res {
            Ok(r) => request_spec(WebhookProvider::Telegram, *c, *m, 0) == Ok::<
                RequestSpec,
                Seq<char>,
            >(r@),
            Err(e) => request_spec(WebhookProvider::Telegram, *c, *m, 0) == Err::<
                RequestSpec,
                Seq<char>,
            >(e@),
        },
{
    let token = match required(&c.bot_token, "Bot token") {
        Ok(t) => t,
        Err(e) => return Err(e),
    };
    let chat_id = match required(&c.chat_id, "Chat ID") {
        Ok(t) => t,
        Err(e) => return Err(e),
    };
    let mut url = cat("https://api.telegram.org/bot", token.as_str());
    url.append("/sendMessage");
    let mut ms: Vec<JsonMember> = Vec::new();
    ms.push(member("chat_id", jstr(chat_id)));
    ms.push(str_member("text", &m.body));
    ms.push(member("disable_web_page_preview", jbool(true)));
    match filled_value(&c.parse_mode) {
        Some(pm) => ms.push(member("parse_mode", jstr(pm))),
        None => {},
    }
    let payload = jobj(ms);
    proof {
        let p = telegram_payload(present(c.chat_id)->0, *c, *m);
        assert(crate::json::member_views(ms@) =~= p->Object_0);
    }
    Ok(json_post(HttpMethod::Post, url, payload))
}

/// Feishu's payload at time `now` (seconds).
fn feishu_json(c: &WebhookConfig, m: &NotificationMessage, now: i64) -> (r: JsonValue)
    ensures
        r@ == feishu_payload(*c, *m, now as int),
{
    let mut content: Vec<JsonMember> = Vec::new();
    content.push(str_member("text", &m.body));
    let content_obj = jobj(content);
    let mut ms: Vec<JsonMember> = Vec::new();
    ms.push(member("msg_type", jstr_of("text")));
    ms.push(member("content", content_obj));
    match filled_value(&c.secret) {
        Some(secret) => {
            let timestamp = fmt_i64(now);
            let sign = match feishu_sign(timestamp.as_str(), secret.as_str()) {
                Ok(s) => s,
                Err(e) => e,
            };
            ms.push(member("timestamp", jstr(timestamp)));
            ms.push(member("sign", jstr(sign)));
        },
        None => {},
    }
    let r = jobj(ms);
    proof {
        let p = feishu_payload(*c, *m, now as int);
        assert(crate::json::member_views(content@) =~= p->Object_0[1].1->Object_0);
        assert(crate::json::member_views(ms@) =~= p->Object_0);
    }
    r
}

/// DingTalk's payload.
fn dingtalk_json(m: &NotificationMessage) -> (r: JsonValue)
    ensures
        r@ == dingtalk_payload(*m),
{
    let mut md: Vec<JsonMember> = Vec::new();
    md.push(str_member("title", &m.title));
    md.push(str_member("text", &m.body));
    let md_obj = jobj(md);
    let mut ms: Vec<JsonMember> = Vec::new();
    ms.push(member("msgtype", jstr_of("markdown")));
    ms.push(member("markdown", md_obj));
    let r = jobj(ms);
    proof {
        let p = dingtalk_payload(*m);
        assert(crate::json::member_views(md@) =~= p->Object_0[1].1->Object_0);
        assert(crate::json::member_views(ms@) =~= p->Object_0);
    }
    r
}

/// The request sent to DingTalk at time `now` (seconds).
fn build_dingtalk(c: &WebhookConfig, m: &NotificationMessage, now: i64) -> (res: Result<
    OutboundRequest,
    String,
>)
    requires
        dingtalk_time_fits(WebhookProvider::Dingtalk, *c, now as int),
    ensures
        match res {
            Ok(r) => request_spec(WebhookProvider::Dingtalk, *c, *m, now as int) == Ok::<
                RequestSpec,
                Seq<char>,
            >(r@),
            Err(e) => request_spec(WebhookProvider::Dingtalk, *c, *m, now as int) == Err::<
                RequestSpec,
                Seq<char>,
            >(e@),
        },
{
    let mut url = match required(&c.url, "Webhook URL") {
        Ok(u) => u,
        Err(e) => return Err(e),
    };
    let ghost base = url@;
    match filled_value(&c.secret) {
        Some(secret) => {
            let timestamp = fmt_i64(now * 1000);
            let sign = match dingtalk_sign(timestamp.as_str(), secret.as_str()) {
                Ok(s) => s,
                Err(e) => e,
            };
            let encoded = urlencoding_crate_encode(sign.as_str());
            let has_query = has_infix(&chars_of(url.as_str()), &chars_of("?"));
            crate::text::push_char(&mut url, if has_query { '&' } else { '?' });
            url.append("timestamp=");
            url.append(timestamp.as_str());
            url.append("&sign=");
            url.append(encoded.as_str());
        },
        None => {},
    }
    assert(url@ == dingtalk_url(base, *c, now as int));
    Ok(json_post(HttpMethod::Post, url, dingtalk_json(m)))
}

/// WeCom's payload.
fn wecom_json(m: &NotificationMessage) -> (r: JsonValue)
    ensures
        r@ == wecom_payload(*m),
{
    let mut md: Vec<JsonMember> = Vec::new();
    md.push(str_member("content", &m.body));
    let md_obj = jobj(md);
    let mut ms: Vec<JsonMember> = Vec::new();
    ms.push(member("msgtype", jstr_of("markdown")));
    ms.push(member("markdown", md_obj));
    let r = jobj(ms);
    proof {
        let p = wecom_payload(*m);
        assert(crate::json::member_views(md@) =~= p->Object_0[1].1->Object_0);
        assert(crate::json::member_views(ms@) =~= p->Object_0);
    }
    r
}

/// The request sent to ntfy.
fn build_ntfy(c: &WebhookConfig, m: &NotificationMessage) -> (res: Result<OutboundRequest, String>)
    ensures
        match res {
            Ok(r) => request_spec(WebhookProvider::Ntfy, *c, *m, 0) == Ok::<RequestSpec, Seq<char>>(
                r@,
            ),
            Err(e) => request_spec(WebhookProvider::Ntfy, *c, *m, 0) == Err::<
                RequestSpec,
                Seq<char>,
            >(e@),
        },
{
    let url = if has_value(&c.url) {
        match required(&c.url, "Webhook URL") {
            Ok(u) => u,
            Err(e) => return Err(e),
        }
    } else {
        let base = match required(&c.server_url, "Server URL") {
            Ok(u) => u,
            Err(e) => return Err(e),
        };
        let topic = match required(&c.topic, "Topic") {
            Ok(t) => t,
            Err(e) => return Err(e),
        };
        let mut u = strip_end_char(base.as_str(), '/');
        u.append("/");
        u.append(strip_start_char(topic.as_str(), '/').as_str());
        u
    };
    let mut headers: Vec<(String, String)> = Vec::new();
    headers.push((own("Title"), m.title.clone()));
    headers.push((own("Priority"), fmt_i64(priority_value(c) as i64)));
    let r = OutboundRequest {
        method: HttpMethod::Post,
        url,
        headers,
        config_headers: HashMap::new(),
        bearer_token: filled_value(&c.token),
        body: RequestBody::Text(m.body.clone()),
    };
    proof {
        let spec_headers = seq![("Title"@, m.title@), ("Priority"@, dec_int(priority_of(*c)))];
        assert(r@.headers =~= spec_headers);
    }
    Ok(r)
}

/// The request sent to Gotify.
fn build_gotify(c: &WebhookConfig, m: &NotificationMessage) -> (res: Result<OutboundRequest, String>)
    ensures
        match res {
            Ok(r) => request_spec(WebhookProvider::Gotify, *c, *m, 0) == Ok::<
                RequestSpec,
                Seq<char>,
            >(r@),
            Err(e) => request_spec(WebhookProvider::Gotify, *c, *m, 0) == Err::<
                RequestSpec,
                Seq<char>,
            >(e@),
        },
{
    let base = match required(&c.server_url, "Server URL") {
        Ok(u) => u,
        Err(e) => return Err(e),
    };
    let token = match required(&c.token, "App token") {
        Ok(t) => t,
        Err(e) => return Err(e),
    };
    let mut url = strip_end_char(base.as_str(), '/');
    url.append("/message?token=");
    url.append(urlencoding_crate_encode(token.as_str()).as_str());
    let mut ms: Vec<JsonMember> = Vec::new();
    ms.push(str_member("title", &m.title));
    ms.push(str_member("message", &m.body));
    ms.push(member("priority", jint(priority_value(c) as i64)));
    let payload = jobj(ms);
    proof {
        assert(crate::json::member_views(ms@) =~= gotify_payload(*c, *m)->Object_0);
    }
    Ok(json_post(HttpMethod::Post, url, payload))
}

/// The request that `provider` receives for `message` at time `now` (seconds since the epoch),
/// or the message of the first missing setting.
pub fn build_request(
    provider: &WebhookProvider,
    config: &WebhookConfig,
    message: &NotificationMessage,
    now: i64,
) -> (res: Result<OutboundRequest, String>)
    requires
        dingtalk_time_fits(*provider, *config, now as int),
    ensures
        match res {
            Ok(r) => request_spec(*provider, *config, *message, now as int) == Ok::<
                RequestSpec,
                Seq<char>,
            >(r@),
            Err(e) => request_spec(*provider, *config, *message, now as int) == Err::<
                RequestSpec,
                Seq<char>,
            >(e@),
        },
{
    match provider {
        WebhookProvider::Generic => build_generic(config, message),
        WebhookProvider::Slack => post_to_configured_url(config, slack_json(message)),
        WebhookProvider::Discord => post_to_configured_url(config, discord_json(message)),
        WebhookProvider::Telegram => build_telegram(config, message),
        WebhookProvider::Feishu => post_to_configured_url(config, feishu_json(config, message, now)),
        WebhookProvider::Dingtalk => build_dingtalk(config, message, now),
        WebhookProvider::Wecom => post_to_configured_url(config, wecom_json(message)),
        WebhookProvider::Ntfy => build_ntfy(config, message),
        WebhookProvider::Gotify => build_gotify(config, message),
    }
}

/// The request to send for a notification: the configuration is checked first, as
/// `validate_config` does, and its first problem is reported; a configuration that passes always
/// yields the provider's request.
pub fn prepare_notification(
    provider: &WebhookProvider,
    config: &WebhookConfig,
    message: &NotificationMessage,
    now: i64,
) -> (res: Result<OutboundRequest, String>)
    requires
        dingtalk_time_fits(*provider, *config, now as int),
    ensures
        match config_problem(*provider, *config) {
            Some(p) => res matches Err(e) && e@ == p,
            None => res matches Ok(r) && request_spec(*provider, *config, *message, now as int)
                == Ok::<RequestSpec, Seq<char>>(r@),
        },
{
    match validate_config(provider, config) {
        Err(e) => Err(e),
        Ok(()) => {
            proof {
                lemma_valid_config_builds(*provider, *config, *message, now as int);
            }
            build_request(provider, config, message, now)
        },
    }
}

impl OutboundRequest {
    /// The text sent as the request's body: the compact JSON text serde_json writes for a JSON
    /// payload, or the text itself.
    pub fn body_text(&self) -> (res: String)
        ensures
            match self.body {
                RequestBody::Json(j) => res@ == json_compact(j@),
                RequestBody::Text(t) => res@ == t@,
            },
    {
        match &self.body {
            RequestBody::Json(j) => compact_json_text(j),
            RequestBody::Text(t) => t.clone(),
        }
    }
}

/// The reason phrase registered for an HTTP status code (`StatusCode::canonical_reason`).
pub uninterp spec fn canonical_reason(code: u16) -> Option<Seq<char>>;

/// Calls `reqwest::StatusCode::from_u16` and then `canonical_reason` on the status code: the
/// phrase the `http` crate registers for the code, if it registers one. `from_u16` accepts
/// every code from 100 to 999.
#[verifier::external_body]
fn status_reason(code: u16) -> (res: Option<String>)
    requires
        100 <= code <= 999,
    ensures
        match res {
            Some(r) => canonical_reason(code) == Some(r@),
            None => canonical_reason(code) is None,
        },
{
    match reqwest::StatusCode::from_u16(code) {
        Ok(status) => match status.canonical_reason() {
            Some(reason) => Some(reason.to_string()),
            None => None,
        },
        Err(_) => None,
    }
}

/// A status code as `StatusCode` writes it: the number, a space and its reason phrase.
pub open spec fn status_text(code: u16) -> Seq<char> {
    dec(code as nat) + " "@ + match canonical_reason(code) {
        Some(r) => r,
        None => "<unknown status code>"@,
    }
}

/// The outcome of a webhook response: success for a 2xx status, else an error that shows
/// the status with its reason phrase (e.g. `404 Not Found`).
pub fn ensure_success(status: u16) -> (res: Result<(), String>)
    requires
        100 <= status <= 999,
    ensures
        res is Ok <==> 200 <= status <= 299,
        res matches Err(e) ==> e@ == "Webhook returned HTTP "@ + status_text(status),
{
    if 200 <= status && status <= 299 {
        Ok(())
    } else {
        let mut text = crate::text::fmt_u64(status as u64);
        text.append(" ");
        match status_reason(status) {
            Some(reason) => text.append(reason.as_str()),
            None => text.append("<unknown status code>"),
        }
        Err(cat("Webhook returned HTTP ", text.as_str()))
    }
}


/// A configuration that `validate_config` accepts for a provider can always be turned into
/// that provider's request: sending never fails for a missing setting after validation.
pub proof fn lemma_valid_config_builds(
    p: WebhookProvider,
    c: WebhookConfig,
    m: NotificationMessage,
    now: int,
)
    requires
        config_problem(p, c) is None,
    ensures
        request_spec(p, c, m, now) is Ok,
{
}


/// A generic webhook is sent with the method it is configured with, in any ASCII case: PUT and
/// PATCH as such, POST when none is set or for any other method.
pub proof fn lemma_generic_method(c: WebhookConfig, m: NotificationMessage, now: int)
    ensures
        (c.method matches Some(s) && upper(s@) == "PUT"@) ==> method_of(c) == HttpMethod::Put,
        (c.method matches Some(s) && upper(s@) == "PATCH"@) ==> method_of(c) == HttpMethod::Patch,
        (c.method matches Some(s) && upper(s@) != "PUT"@ && upper(s@) != "PATCH"@) ==> method_of(c)
            == HttpMethod::Post,
        c.method is None ==> method_of(c) == HttpMethod::Post,
        (c.method matches Some(s) && s@ == "put"@) ==> method_of(c) == HttpMethod::Put,
        (c.method matches Some(s) && s@ == "patch"@) ==> method_of(c) == HttpMethod::Patch,
        match request_spec(WebhookProvider::Generic, c, m, now) {
            Ok(r) => {
                &&& (c.method matches Some(s) && upper(s@) == "PUT"@) ==> r.method == HttpMethod::Put
                &&& (c.method matches Some(s) && upper(s@) == "PATCH"@) ==> r.method
                    == HttpMethod::Patch
                &&& c.method is None ==> r.method == HttpMethod::Post
            },
            Err(_) => true,
        },
{
    reveal_strlit("PUT");
    reveal_strlit("PATCH");
    reveal_strlit("POST");
    reveal_strlit("put");
    reveal_strlit("patch");
    assert(upper("POST"@) =~= "POST"@);
    assert(upper("put"@) =~= "PUT"@);
    assert(upper("patch"@) =~= "PATCH"@);
    assert("POST"@.len() == 4 && "PUT"@.len() == 3 && "PATCH"@.len() == 5);
}


/// An optional setting that holds a non-blank `http://` or `https://` URL once trimmed.
pub open spec fn http_url_set(v: Option<String>) -> bool {
    v matches Some(u) && !all_ws(u@) && (starts_with(trim(u@), "http://"@) || starts_with(
        trim(u@),
        "https://"@,
    ))
}

/// An optional setting that holds something other than blanks.
pub open spec fn text_set(v: Option<String>) -> bool {
    v matches Some(t) && !all_ws(t@)
}

/// What each provider requires of its configuration: a URL-based provider an `http(s)` URL;
/// Telegram a bot token and a chat id; Gotify a server URL and an app token; ntfy either a
/// URL or a server URL and a topic.
pub proof fn lemma_config_requirements(p: WebhookProvider, c: WebhookConfig)
    ensures
        (p == WebhookProvider::Generic || p == WebhookProvider::Slack || p
            == WebhookProvider::Discord || p == WebhookProvider::Feishu || p
            == WebhookProvider::Dingtalk || p == WebhookProvider::Wecom) ==> (config_problem(p, c)
            is None <==> http_url_set(c.url)),
        p == WebhookProvider::Telegram ==> (config_problem(p, c) is None <==> text_set(c.bot_token)
            && text_set(c.chat_id)),
        p == WebhookProvider::Gotify ==> (config_problem(p, c) is None <==> http_url_set(
            c.server_url,
        ) && text_set(c.token)),
        p == WebhookProvider::Ntfy ==> (config_problem(p, c) is None <==> if text_set(c.url) {
            http_url_set(c.url)
        } else {
            http_url_set(c.server_url) && text_set(c.topic)
        }),
{
}

/// Where each provider's request goes and how it is sent: URL-based providers to the trimmed
/// URL; Telegram to its bot API; Gotify to the server's `/message` with the URL-encoded token;
/// ntfy as plain text with title and priority headers; DingTalk with the timestamp in
/// milliseconds and the URL-encoded signature appended when a secret is set.
pub proof fn lemma_provider_requests(c: WebhookConfig, m: NotificationMessage, now: int)
    ensures
        request_spec(WebhookProvider::Slack, c, m, now) matches Ok(r) ==> r.url == trim(
            c.url->0@,
        ) && r.method == HttpMethod::Post && r.body == BodySpec::Json(slack_payload(m)),
        request_spec(WebhookProvider::Wecom, c, m, now) matches Ok(r) ==> r.url == trim(
            c.url->0@,
        ) && r.method == HttpMethod::Post,
        request_spec(WebhookProvider::Telegram, c, m, now) matches Ok(r) ==> r.url
            == "https://api.telegram.org/bot"@ + trim(c.bot_token->0@) + "/sendMessage"@,
        request_spec(WebhookProvider::Gotify, c, m, now) matches Ok(r) ==> r.url == strip_end(
            trim(c.server_url->0@),
            '/',
        ) + "/message?token="@ + url_encoded(trim(c.token->0@)),
        request_spec(WebhookProvider::Ntfy, c, m, now) matches Ok(r) ==> r.body == BodySpec::Text(
            m.body@,
        ) && r.headers == seq![("Title"@, m.title@), ("Priority"@, dec_int(priority_of(c)))],
        request_spec(WebhookProvider::Dingtalk, c, m, now) matches Ok(r) ==> r.url == (if text_set(
            c.secret,
        ) {
            let ts = dec_int(now * 1000);
            trim(c.url->0@) + seq![
                if contains(trim(c.url->0@), "?"@) {
                    '&'
                } else {
                    '?'
                },
            ] + "timestamp="@ + ts + "&sign="@ + url_encoded(
                dingtalk_signature(ts, c.secret->0@),
            )
        } else {
            trim(c.url->0@)
        }),
        priority_of(c) == (match c.priority {
            Some(p) => p as int,
            None => 5,
        }),
{
}


/// How a message reads in a notification: the sender is `name <address>`, or just the address
/// when the name is blank; a blank subject reads `(no subject)`; anything else is kept as it is.
pub proof fn lemma_notification_text(name: Seq<char>, address: Seq<char>, subject: Seq<char>)
    ensures
        all_ws(name) ==> sender_text(name, address) == address,
        !all_ws(name) ==> sender_text(name, address) == name + " <"@ + address + ">"@,
        all_ws(subject) ==> subject_text(subject) == "(no subject)"@,
        !all_ws(subject) ==> subject_text(subject) == subject,
{
}

} // verus!
