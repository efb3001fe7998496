//! How webhook endpoints are written to and read back from their table: provider names and
//! the conversion of a row's column values into a stored endpoint.
use vstd::prelude::*;
use vstd::string::*;

use crate::model::{PebbleError, StoredWebhookEndpoint, WebhookEndpoint, WebhookProvider};
use crate::text::{cat, str_eq};

verus! {

/// The name a provider is stored under.
pub open spec fn provider_name(p: WebhookProvider) -> Seq<char> {
    match p {
        WebhookProvider::Generic => "generic"@,
        WebhookProvider::Slack => "slack"@,
        WebhookProvider::Discord => "discord"@,
        WebhookProvider::Telegram => "telegram"@,
        WebhookProvider::Feishu => "feishu"@,
        WebhookProvider::Dingtalk => "dingtalk"@,
        WebhookProvider::Wecom => "wecom"@,
        WebhookProvider::Ntfy => "ntfy"@,
        WebhookProvider::Gotify => "gotify"@,
    }
}

/// The provider stored under a name, if any.
pub open spec fn provider_named(s: Seq<char>) -> Option<WebhookProvider> {
    if s == "generic"@ {
        Some(WebhookProvider::Generic)
    } else if s == "slack"@ {
        Some(WebhookProvider::Slack)
    } else if s == "discord"@ {
        Some(WebhookProvider::Discord)
    } else if s == "telegram"@ {
        Some(WebhookProvider::Telegram)
    } else if s == "feishu"@ {
        Some(WebhookProvider::Feishu)
    } else if s == "dingtalk"@ {
        Some(WebhookProvider::Dingtalk)
    } else if s == "wecom"@ {
        Some(WebhookProvider::Wecom)
    } else if s == "ntfy"@ {
        Some(WebhookProvider::Ntfy)
    } else if s == "gotify"@ {
        Some(WebhookProvider::Gotify)
    } else {
        None
    }
}

/// The name a provider is stored under.
pub fn provider_to_str(provider: &WebhookProvider) -> (res: &'static str)
    ensures
        res@ == provider_name(*provider),
{
    match provider {
        WebhookProvider::Generic => "generic",
        WebhookProvider::Slack => "slack",
        WebhookProvider::Discord => "discord",
        WebhookProvider::Telegram => "telegram",
        WebhookProvider::Feishu => "feishu",
        WebhookProvider::Dingtalk => "dingtalk",
        WebhookProvider::Wecom => "wecom",
        WebhookProvider::Ntfy => "ntfy",
        WebhookProvider::Gotify => "gotify",
    }
}

/// The provider stored under `value`; an unknown name is a validation error.
pub fn str_to_provider(value: &str) -> (res: Result<WebhookProvider, PebbleError>)
    ensures
        match res {
            Ok(p) => provider_named(value@) == Some(p),
            Err(e) => provider_named(value@) is None && (e matches PebbleError::Validation(m) && m@
                == "Unknown webhook provider: "@ + value@),
        },
{
    if str_eq(value, "generic") {
        Ok(WebhookProvider::Generic)
    } else if str_eq(value, "slack") {
        Ok(WebhookProvider::Slack)
    } else if str_eq(value, "discord") {
        Ok(WebhookProvider::Discord)
    } else if str_eq(value, "telegram") {
        Ok(WebhookProvider::Telegram)
    } else if str_eq(value, "feishu") {
        Ok(WebhookProvider::Feishu)
    } else if str_eq(value, "dingtalk") {
        Ok(WebhookProvider::Dingtalk)
    } else if str_eq(value, "wecom") {
        Ok(WebhookProvider::Wecom)
    } else if str_eq(value, "ntfy") {
        Ok(WebhookProvider::Ntfy)
    } else if str_eq(value, "gotify") {
        Ok(WebhookProvider::Gotify)
    } else {
        Err(PebbleError::Validation(cat("Unknown webhook provider: ", value)))
    }
}

/// The stored endpoint of a table row, from its column values in table order
/// (`id, name, provider, encrypted_config, is_enabled, notify_on_new_mail, created_at,
/// updated_at`); a provider name that is not known is a validation error.
pub fn row_to_stored(
    id: String,
    name: String,
    provider: &str,
    encrypted_config: Vec<u8>,
    is_enabled: i32,
    notify_on_new_mail: i32,
    created_at: i64,
    updated_at: i64,
) -> (res: Result<StoredWebhookEndpoint, PebbleError>)
    ensures
        match res {
            Ok(s) => {
                &&& provider_named(provider@) == Some(s.endpoint.provider)
                &&& s.endpoint.id == id
                &&& s.endpoint.name == name
                &&& s.endpoint.is_enabled == (is_enabled != 0)
                &&& s.endpoint.notify_on_new_mail == (notify_on_new_mail != 0)
                &&& s.endpoint.created_at == created_at
                &&& s.endpoint.updated_at == updated_at
                &&& s.encrypted_config == encrypted_config
            },
            Err(e) => provider_named(provider@) is None && (e matches PebbleError::Validation(m)
                && m@ == "Unknown webhook provider: "@ + provider@),
        },
{
    let provider = match str_to_provider(provider) {
        Ok(p) => p,
        Err(e) => return Err(e),
    };
    Ok(
        StoredWebhookEndpoint {
            endpoint: WebhookEndpoint {
                id,
                name,
                provider,
                is_enabled: is_enabled != 0,
                notify_on_new_mail: notify_on_new_mail != 0,
                created_at,
                updated_at,
            },
            encrypted_config,
        },
    )
}

/// How a flag is stored: 1 for true, 0 for false.
pub fn flag_to_column(flag: bool) -> (res: i32)
    ensures
        res == (if flag {
            1i32
        } else {
            0i32
        }),
        (res != 0) == flag,
{
    if flag {
        1
    } else {
        0
    }
}

/// Reading back the name a provider is stored under gives the same provider.
pub proof fn lemma_provider_name_round_trip(p: WebhookProvider)
    ensures
        provider_named(provider_name(p)) == Some(p),
{
    reveal_strlit("generic");
    reveal_strlit("slack");
    reveal_strlit("discord");
    reveal_strlit("telegram");
    reveal_strlit("feishu");
    reveal_strlit("dingtalk");
    reveal_strlit("wecom");
    reveal_strlit("ntfy");
    reveal_strlit("gotify");
    assert("generic"@.len() == 7 && "generic"@[0] == 'g' && "generic"@[1] == 'e');
    assert("slack"@.len() == 5 && "slack"@[0] == 's' && "slack"@[1] == 'l');
    assert("discord"@.len() == 7 && "discord"@[0] == 'd' && "discord"@[1] == 'i');
    assert("telegram"@.len() == 8 && "telegram"@[0] == 't' && "telegram"@[1] == 'e');
    assert("feishu"@.len() == 6 && "feishu"@[0] == 'f' && "feishu"@[1] == 'e');
    assert("dingtalk"@.len() == 8 && "dingtalk"@[0] == 'd' && "dingtalk"@[1] == 'i');
    assert("wecom"@.len() == 5 && "wecom"@[0] == 'w' && "wecom"@[1] == 'e');
    assert("ntfy"@.len() == 4 && "ntfy"@[0] == 'n' && "ntfy"@[1] == 't');
    assert("gotify"@.len() == 6 && "gotify"@[0] == 'g' && "gotify"@[1] == 'o');
}

/// Every name that is read back as a provider is the name that provider is stored under.
pub proof fn lemma_provider_named_inverse(s: Seq<char>)
    ensures
        provider_named(s) matches Some(p) ==> provider_name(p) == s,
{
}


/// The name each provider is stored under, in lowercase.
pub proof fn lemma_provider_names(p: WebhookProvider)
    ensures
        provider_name(p) == match p {
            WebhookProvider::Generic => "generic"@,
            WebhookProvider::Slack => "slack"@,
            WebhookProvider::Discord => "discord"@,
            WebhookProvider::Telegram => "telegram"@,
            WebhookProvider::Feishu => "feishu"@,
            WebhookProvider::Dingtalk => "dingtalk"@,
            WebhookProvider::Wecom => "wecom"@,
            WebhookProvider::Ntfy => "ntfy"@,
            WebhookProvider::Gotify => "gotify"@,
        },
        provider_named(provider_name(p)) == Some(p),
{
    lemma_provider_name_round_trip(p);
}

} // verus!
