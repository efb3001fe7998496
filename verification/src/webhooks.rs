//! The decisions of the webhook endpoints' HTTP handlers: name checks, the new endpoint
//! records, and how an edited configuration keeps the secrets it was not sent again.
use vstd::prelude::*;
use vstd::string::*;

use crate::model::{StoredWebhookEndpoint, WebhookEndpoint, WebhookProvider};
use crate::notifications::{config_problem, validate_config, WebhookConfig};
use crate::text::{all_ws, is_blank, own, string_of, trim, trimmed};

verus! {

/// How a handler fails: the HTTP status class and the message shown to the client.
#[derive(Debug)]
pub enum ApiError {
    BadRequest(String),
    NotFound(String),
    Internal(String),
}

/// The view of a handler error: its kind and message.
pub enum ErrorSpec {
    BadRequest(Seq<char>),
    NotFound(Seq<char>),
    Internal(Seq<char>),
}

impl View for ApiError {
    type V = ErrorSpec;

    open spec fn view(&self) -> ErrorSpec {
        match self {
            ApiError::BadRequest(m) => ErrorSpec::BadRequest(m@),
            ApiError::NotFound(m) => ErrorSpec::NotFound(m@),
            ApiError::Internal(m) => ErrorSpec::Internal(m@),
        }
    }
}

/// An optional field after merging: the submitted value, or the stored one where none was sent.
pub open spec fn merged<T>(submitted: Option<T>, existing: Option<T>) -> Option<T> {
    if submitted is None {
        existing
    } else {
        submitted
    }
}

/// The configuration `merge_missing_config_fields` leaves: every field that was not
/// submitted (and the headers, when none were submitted) taken from the stored configuration.
pub open spec fn merged_config(submitted: WebhookConfig, existing: WebhookConfig) -> WebhookConfig {
    WebhookConfig {
        url: merged(submitted.url, existing.url),
        method: merged(submitted.method, existing.method),
        headers: if submitted.headers@.is_empty() {
            existing.headers
        } else {
            submitted.headers
        },
        bot_token: merged(submitted.bot_token, existing.bot_token),
        chat_id: merged(submitted.chat_id, existing.chat_id),
        parse_mode: merged(submitted.parse_mode, existing.parse_mode),
        secret: merged(submitted.secret, existing.secret),
        server_url: merged(submitted.server_url, existing.server_url),
        topic: merged(submitted.topic, existing.topic),
        token: merged(submitted.token, existing.token),
        priority: merged(submitted.priority, existing.priority),
    }
}

/// Fills every field the client did not send with the value stored for the endpoint, so that
/// an edit need not repeat secrets the client never sees again.
pub fn merge_missing_config_fields(config: &mut WebhookConfig, existing: WebhookConfig)
    ensures
        *final(config) == merged_config(*old(config), existing),
{
    if config.url.is_none() {
        config.url = existing.url;
    }
    if config.method.is_none() {
        config.method = existing.method;
    }
    if config.headers.is_empty() {
        config.headers = existing.headers;
    }
    if config.bot_token.is_none() {
        config.bot_token = existing.bot_token;
    }
    if config.chat_id.is_none() {
        config.chat_id = existing.chat_id;
    }
    if config.parse_mode.is_none() {
        config.parse_mode = existing.parse_mode;
    }
    if config.secret.is_none() {
        config.secret = existing.secret;
    }
    if config.server_url.is_none() {
        config.server_url = existing.server_url;
    }
    if config.topic.is_none() {
        config.topic = existing.topic;
    }
    if config.token.is_none() {
        config.token = existing.token;
    }
    if config.priority.is_none() {
        config.priority = existing.priority;
    }
}

/// Checks that an endpoint has a name that is not blank.
pub fn validate_name(name: &str) -> (res: Result<(), ApiError>)
    ensures
        res is Ok <==> !all_ws(name@),
        res matches Err(e) ==> e matches ApiError::BadRequest(m) && m@
            == "Webhook name is required"@,
{
    if is_blank(name) {
        Err(ApiError::BadRequest(own("Webhook name is required")))
    } else {
        Ok(())
    }
}

/// The record of a newly created endpoint: its name trimmed, created and updated at `now`.
pub fn new_endpoint(
    id: String,
    name: &str,
    provider: WebhookProvider,
    is_enabled: bool,
    notify_on_new_mail: bool,
    now: i64,
) -> (e: WebhookEndpoint)
    ensures
        e.id == id,
        e.name@ == trim(name@),
        e.provider == provider,
        e.is_enabled == is_enabled,
        e.notify_on_new_mail == notify_on_new_mail,
        e.created_at == now,
        e.updated_at == now,
{
    WebhookEndpoint {
        id,
        name: string_of(&trimmed(name)),
        provider,
        is_enabled,
        notify_on_new_mail,
        created_at: now,
        updated_at: now,
    }
}

/// The record of an edited endpoint: the submitted settings with the name trimmed, keeping the
/// stored creation time, updated at `now`.
pub fn updated_endpoint(
    id: String,
    name: &str,
    provider: WebhookProvider,
    is_enabled: bool,
    notify_on_new_mail: bool,
    existing: &WebhookEndpoint,
    now: i64,
) -> (e: WebhookEndpoint)
    ensures
        e.id == id,
        e.name@ == trim(name@),
        e.provider == provider,
        e.is_enabled == is_enabled,
        e.notify_on_new_mail == notify_on_new_mail,
        e.created_at == existing.created_at,
        e.updated_at == now,
{
    WebhookEndpoint {
        id,
        name: string_of(&trimmed(name)),
        provider,
        is_enabled,
        notify_on_new_mail,
        created_at: existing.created_at,
        updated_at: now,
    }
}

/// Whether an edit keeps the stored configuration's unsent fields: only when the provider
/// stays the same.
pub fn keeps_existing_config(submitted: WebhookProvider, existing: WebhookProvider) -> (res: bool)
    ensures
        res == (submitted == existing),
{
    submitted == existing
}


// ---------------------------------------------------------------------------
// What the handlers decide, in the order they check
// ---------------------------------------------------------------------------

/// The error for a blank endpoint name.
pub open spec fn blank_name_error() -> ErrorSpec {
    ErrorSpec::BadRequest("Webhook name is required"@)
}

/// The error for an endpoint id that names no stored endpoint.
pub open spec fn not_found_error() -> ErrorSpec {
    ErrorSpec::NotFound("Webhook endpoint not found"@)
}

/// The first problem of a configuration for a provider, as a handler reports it.
pub open spec fn config_error(p: WebhookProvider, c: WebhookConfig) -> Option<ErrorSpec> {
    match config_problem(p, c) {
        Some(m) => Some(ErrorSpec::BadRequest(m)),
        None => None,
    }
}

/// The endpoint a lookup found: a failed lookup keeps its error, a missing endpoint is
/// `not_found_error`.
pub open spec fn found_spec(loaded: Result<Option<StoredWebhookEndpoint>, ApiError>) -> Result<
    StoredWebhookEndpoint,
    ErrorSpec,
> {
    match loaded {
        Err(e) => Err(e@),
        Ok(None) => Err(not_found_error()),
        Ok(Some(x)) => Ok(x),
    }
}

/// The stored endpoint of a lookup, or the error the handlers answer with.
pub fn endpoint_found(loaded: Result<Option<StoredWebhookEndpoint>, ApiError>) -> (res: Result<
    StoredWebhookEndpoint,
    ApiError,
>)
    ensures
        match res {
            Ok(x) => found_spec(loaded) == Ok::<StoredWebhookEndpoint, ErrorSpec>(x),
            Err(e) => found_spec(loaded) == Err::<StoredWebhookEndpoint, ErrorSpec>(e@),
        },
{
    match loaded {
        Err(e) => Err(e),
        Ok(None) => Err(ApiError::NotFound(own("Webhook endpoint not found"))),
        Ok(Some(x)) => Ok(x),
    }
}

/// The configuration of an edit: the submitted one, with the unsent fields taken from the
/// stored configuration when the provider stays the same (and reading that one can fail).
pub open spec fn edited_config(
    existing: WebhookProvider,
    provider: WebhookProvider,
    submitted: WebhookConfig,
    stored: Result<WebhookConfig, ApiError>,
) -> Result<WebhookConfig, ErrorSpec> {
    if existing == provider {
        match stored {
            Ok(s) => Ok(merged_config(submitted, s)),
            Err(e) => Err(e@),
        }
    } else {
        Ok(submitted)
    }
}

/// The configuration a handler ends with, from the submitted one (or the error reading it)
/// and, when there is one, the endpoint it edits with its stored configuration.
fn edit_config(
    provider: WebhookProvider,
    existing: Option<&StoredWebhookEndpoint>,
    submitted: WebhookConfig,
    stored: Result<WebhookConfig, ApiError>,
) -> (res: Result<WebhookConfig, ApiError>)
    ensures
        match existing {
            None => res == Ok::<WebhookConfig, ApiError>(submitted),
            Some(x) => match res {
                Ok(c) => edited_config(x.endpoint.provider, provider, submitted, stored) == Ok::<
                    WebhookConfig,
                    ErrorSpec,
                >(c),
                Err(e) => edited_config(x.endpoint.provider, provider, submitted, stored) == Err::<
                    WebhookConfig,
                    ErrorSpec,
                >(e@),
            },
        },
{
    let mut config = submitted;
    match existing {
        Some(x) => if keeps_existing_config(provider, x.endpoint.provider) {
            match stored {
                Ok(s) => merge_missing_config_fields(&mut config, s),
                Err(e) => return Err(e),
            }
        },
        None => {},
    }
    Ok(config)
}

/// Checks a configuration for a provider, as the handlers report a problem.
fn checked(provider: WebhookProvider, config: WebhookConfig) -> (res: Result<WebhookConfig, ApiError>)
    ensures
        match res {
            Ok(c) => config_error(provider, config) is None && c == config,
            Err(e) => config_error(provider, config) == Some(e@),
        },
{
    match validate_config(&provider, &config) {
        Ok(()) => Ok(config),
        Err(m) => Err(ApiError::BadRequest(m)),
    }
}

/// The first error `create_webhook` answers with: a blank name, then the submitted
/// configuration's own error, then a problem for the provider.
pub open spec fn create_error(
    name: Seq<char>,
    provider: WebhookProvider,
    submitted: Result<WebhookConfig, ApiError>,
) -> Option<ErrorSpec> {
    if all_ws(name) {
        Some(blank_name_error())
    } else {
        match submitted {
            Err(e) => Some(e@),
            Ok(c) => config_error(provider, c),
        }
    }
}

/// What `create_webhook` decides before saving: the configuration to store, or its error.
pub fn check_create(
    name: &str,
    provider: WebhookProvider,
    submitted: Result<WebhookConfig, ApiError>,
) -> (res: Result<WebhookConfig, ApiError>)
    ensures
        match res {
            Ok(c) => create_error(name@, provider, submitted) is None && submitted == Ok::<
                WebhookConfig,
                ApiError,
            >(c),
            Err(e) => create_error(name@, provider, submitted) == Some(e@),
        },
{
    match validate_name(name) {
        Err(e) => return Err(e),
        Ok(()) => {},
    }
    match submitted {
        Err(e) => Err(e),
        Ok(c) => checked(provider, c),
    }
}

/// The first error `update_webhook` answers with: a blank name, then the lookup of the
/// endpoint, then the submitted configuration, then reading the stored configuration (only
/// when the provider stays the same), then a problem of the edited configuration.
pub open spec fn update_error(
    name: Seq<char>,
    provider: WebhookProvider,
    loaded: Result<Option<StoredWebhookEndpoint>, ApiError>,
    submitted: Result<WebhookConfig, ApiError>,
    stored: Result<WebhookConfig, ApiError>,
) -> Option<ErrorSpec> {
    if all_ws(name) {
        Some(blank_name_error())
    } else {
        match found_spec(loaded) {
            Err(e) => Some(e),
            Ok(x) => match submitted {
                Err(e) => Some(e@),
                Ok(c) => match edited_config(x.endpoint.provider, provider, c, stored) {
                    Err(e) => Some(e),
                    Ok(m) => config_error(provider, m),
                },
            },
        }
    }
}

/// What `update_webhook` decides before saving: the edited endpoint record and the
/// configuration to store, or the first error. `loaded` is the lookup of the endpoint,
/// `submitted` the configuration read from the request, `stored` the stored configuration of the
/// endpoint read back (consulted only when the provider stays the same).
pub fn check_update(
    id: String,
    name: &str,
    provider: WebhookProvider,
    is_enabled: bool,
    notify_on_new_mail: bool,
    loaded: Result<Option<StoredWebhookEndpoint>, ApiError>,
    submitted: Result<WebhookConfig, ApiError>,
    stored: Result<WebhookConfig, ApiError>,
    now: i64,
) -> (res: Result<(WebhookEndpoint, WebhookConfig), ApiError>)
    ensures
        match res {
            Ok((e, c)) => {
                &&& update_error(name@, provider, loaded, submitted, stored) is None
                &&& loaded matches Ok(Some(x))
                &&& submitted matches Ok(s)
                &&& edited_config(x.endpoint.provider, provider, s, stored) == Ok::<
                    WebhookConfig,
                    ErrorSpec,
                >(c)
                &&& e.id == id
                &&& e.name@ == trim(name@)
                &&& e.provider == provider
                &&& e.is_enabled == is_enabled
                &&& e.notify_on_new_mail == notify_on_new_mail
                &&& e.created_at == x.endpoint.created_at
                &&& e.updated_at == now
            },
            Err(e) => update_error(name@, provider, loaded, submitted, stored) == Some(e@),
        },
{
    match validate_name(name) {
        Err(e) => return Err(e),
        Ok(()) => {},
    }
    let existing = match endpoint_found(loaded) {
        Err(e) => return Err(e),
        Ok(x) => x,
    };
    let config = match submitted {
        Err(e) => return Err(e),
        Ok(c) => c,
    };
    let config = match edit_config(provider, Some(&existing), config, stored) {
        Err(e) => return Err(e),
        Ok(c) => c,
    };
    let config = match checked(provider, config) {
        Err(e) => return Err(e),
        Ok(c) => c,
    };
    let endpoint = updated_endpoint(
        id,
        name,
        provider,
        is_enabled,
        notify_on_new_mail,
        &existing.endpoint,
        now,
    );
    Ok((endpoint, config))
}

/// The first error of `test_webhook` before sending: the submitted configuration, then, when
/// the request names a stored endpoint, its lookup and the reading of its stored configuration
/// (only when the provider stays the same).
pub open spec fn test_config_spec(
    provider: WebhookProvider,
    submitted: Result<WebhookConfig, ApiError>,
    loaded: Option<Result<Option<StoredWebhookEndpoint>, ApiError>>,
    stored: Result<WebhookConfig, ApiError>,
) -> Result<WebhookConfig, ErrorSpec> {
    match submitted {
        Err(e) => Err(e@),
        Ok(c) => match loaded {
            None => Ok(c),
            Some(l) => match found_spec(l) {
                Err(e) => Err(e),
                Ok(x) => edited_config(x.endpoint.provider, provider, c, stored),
            },
        },
    }
}

/// The configuration `test_webhook` sends with, or its first error. `loaded` is the lookup of
/// the stored endpoint the request names, if it names one.
pub fn check_test(
    provider: WebhookProvider,
    submitted: Result<WebhookConfig, ApiError>,
    loaded: Option<Result<Option<StoredWebhookEndpoint>, ApiError>>,
    stored: Result<WebhookConfig, ApiError>,
) -> (res: Result<WebhookConfig, ApiError>)
    ensures
        match res {
            Ok(c) => test_config_spec(provider, submitted, loaded, stored) == Ok::<
                WebhookConfig,
                ErrorSpec,
            >(c),
            Err(e) => test_config_spec(provider, submitted, loaded, stored) == Err::<
                WebhookConfig,
                ErrorSpec,
            >(e@),
        },
{
    let config = match submitted {
        Err(e) => return Err(e),
        Ok(c) => c,
    };
    match loaded {
        None => Ok(config),
        Some(l) => match endpoint_found(l) {
            Err(e) => Err(e),
            Ok(x) => edit_config(provider, Some(&x), config, stored),
        },
    }
}

/// Merging with a stored configuration that holds nothing keeps the submitted one: every field
/// as it was, and headers with the same contents.
pub proof fn lemma_merge_with_nothing_stored(submitted: WebhookConfig, existing: WebhookConfig)
    requires
        existing.url is None,
        existing.method is None,
        existing.headers@.is_empty(),
        existing.bot_token is None,
        existing.chat_id is None,
        existing.parse_mode is None,
        existing.secret is None,
        existing.server_url is None,
        existing.topic is None,
        existing.token is None,
        existing.priority is None,
    ensures
        ({
            let m = merged_config(submitted, existing);
            &&& m.url == submitted.url
            &&& m.method == submitted.method
            &&& m.headers@ == submitted.headers@
            &&& m.bot_token == submitted.bot_token
            &&& m.chat_id == submitted.chat_id
            &&& m.parse_mode == submitted.parse_mode
            &&& m.secret == submitted.secret
            &&& m.server_url == submitted.server_url
            &&& m.topic == submitted.topic
            &&& m.token == submitted.token
            &&& m.priority == submitted.priority
        }),
{
}

/// Merging again with the same stored configuration changes nothing.
pub proof fn lemma_merge_idempotent(submitted: WebhookConfig, existing: WebhookConfig)
    ensures
        merged_config(merged_config(submitted, existing), existing) == merged_config(
            submitted,
            existing,
        ),
{
}

/// A configuration in which every field was submitted is kept as it is.
pub proof fn lemma_merge_keeps_complete(submitted: WebhookConfig, existing: WebhookConfig)
    requires
        submitted.url is Some,
        submitted.method is Some,
        !submitted.headers@.is_empty(),
        submitted.bot_token is Some,
        submitted.chat_id is Some,
        submitted.parse_mode is Some,
        submitted.secret is Some,
        submitted.server_url is Some,
        submitted.topic is Some,
        submitted.token is Some,
        submitted.priority is Some,
    ensures
        merged_config(submitted, existing) == submitted,
{
}

/// An empty submission takes the stored configuration as it is.
pub proof fn lemma_merge_empty_restores(submitted: WebhookConfig, existing: WebhookConfig)
    requires
        submitted.url is None,
        submitted.method is None,
        submitted.headers@.is_empty(),
        submitted.bot_token is None,
        submitted.chat_id is None,
        submitted.parse_mode is None,
        submitted.secret is None,
        submitted.server_url is None,
        submitted.topic is None,
        submitted.token is None,
        submitted.priority is None,
    ensures
        merged_config(submitted, existing) == existing,
{
}


/// Each field is merged on its own: a field that was not submitted takes the stored value, a
/// submitted one is kept, whatever the other fields are; headers are taken from the stored
/// configuration only when none were submitted.
pub proof fn lemma_merge_fields_independently(submitted: WebhookConfig, existing: WebhookConfig)
    ensures
        ({
            let m = merged_config(submitted, existing);
            &&& m.url == (if submitted.url is None { existing.url } else { submitted.url })
            &&& m.method == (if submitted.method is None {
                existing.method
            } else {
                submitted.method
            })
            &&& (submitted.headers@.is_empty() ==> m.headers@ == existing.headers@)
            &&& (!submitted.headers@.is_empty() ==> m.headers@ == submitted.headers@)
            &&& m.bot_token == (if submitted.bot_token is None {
                existing.bot_token
            } else {
                submitted.bot_token
            })
            &&& m.chat_id == (if submitted.chat_id is None {
                existing.chat_id
            } else {
                submitted.chat_id
            })
            &&& m.parse_mode == (if submitted.parse_mode is None {
                existing.parse_mode
            } else {
                submitted.parse_mode
            })
            &&& m.secret == (if submitted.secret is None {
                existing.secret
            } else {
                submitted.secret
            })
            &&& m.server_url == (if submitted.server_url is None {
                existing.server_url
            } else {
                submitted.server_url
            })
            &&& m.topic == (if submitted.topic is None { existing.topic } else { submitted.topic })
            &&& m.token == (if submitted.token is None { existing.token } else { submitted.token })
            &&& m.priority == (if submitted.priority is None {
                existing.priority
            } else {
                submitted.priority
            })
        }),
{
}

/// A stored secret survives an edit that does not resend it, whatever else was resent.
pub proof fn lemma_unsent_secret_is_kept(submitted: WebhookConfig, existing: WebhookConfig)
    requires
        submitted.secret is None,
    ensures
        merged_config(submitted, existing).secret == existing.secret,
{
}


/// The order in which the handlers report errors: a blank name before anything else; then a
/// failed lookup as it failed, a missing endpoint as not found, then the submitted
/// configuration's own error; a stored configuration that cannot be read matters only when the
/// provider stays the same.
pub proof fn lemma_handler_error_order(
    name: Seq<char>,
    provider: WebhookProvider,
    loaded: Result<Option<StoredWebhookEndpoint>, ApiError>,
    submitted: Result<WebhookConfig, ApiError>,
    stored: Result<WebhookConfig, ApiError>,
)
    ensures
        all_ws(name) ==> update_error(name, provider, loaded, submitted, stored) == Some(
            ErrorSpec::BadRequest("Webhook name is required"@),
        ),
        all_ws(name) ==> create_error(name, provider, submitted) == Some(
            ErrorSpec::BadRequest("Webhook name is required"@),
        ),
        !all_ws(name) ==> (loaded matches Err(e) ==> update_error(
            name,
            provider,
            loaded,
            submitted,
            stored,
        ) == Some(e@)),
        !all_ws(name) && loaded == Ok::<Option<StoredWebhookEndpoint>, ApiError>(None)
            ==> update_error(name, provider, loaded, submitted, stored) == Some(
            ErrorSpec::NotFound("Webhook endpoint not found"@),
        ),
        !all_ws(name) ==> (loaded matches Ok(Some(x)) ==> (submitted matches Err(e)
            ==> update_error(name, provider, loaded, submitted, stored) == Some(e@))),
        !all_ws(name) ==> (submitted matches Err(e) ==> create_error(name, provider, submitted)
            == Some(e@)),
        loaded matches Ok(Some(x)) ==> (x.endpoint.provider != provider ==> (submitted matches Ok(
            c,
        ) ==> edited_config(x.endpoint.provider, provider, c, stored) == Ok::<
            WebhookConfig,
            ErrorSpec,
        >(c))),
        loaded matches Ok(Some(x)) ==> (x.endpoint.provider == provider ==> (stored matches Err(e)
            ==> (submitted matches Ok(c) ==> edited_config(x.endpoint.provider, provider, c, stored)
            == Err::<WebhookConfig, ErrorSpec>(e@)))),
{
}

} // verus!
