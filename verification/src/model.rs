//! The records the server keeps: mail messages, webhook endpoints and their providers.
use vstd::prelude::*;
use vstd::string::*;

verus! {

/// The services a webhook endpoint can deliver to.
#[derive(Debug, Clone, Copy, PartialEq, Eq, Structural)]
pub enum WebhookProvider {
    Generic,
    Slack,
    Discord,
    Telegram,
    Feishu,
    Dingtalk,
    Wecom,
    Ntfy,
    Gotify,
}

/// A mail address with an optional display name.
#[derive(Debug, Clone)]
pub struct EmailAddress {
    pub name: Option<String>,
    pub address: String,
}

/// The fields of a stored mail message that notifications and rules read.
#[derive(Debug)]
pub struct Message {
    pub id: String,
    pub account_id: String,
    pub subject: String,
    pub snippet: String,
    pub from_address: String,
    pub from_name: String,
    pub to_list: Vec<EmailAddress>,
    pub body_text: String,
    pub has_attachments: bool,
    pub date: i64,
}

/// A configured webhook endpoint, without its (encrypted) provider configuration.
#[derive(Debug, Clone)]
pub struct WebhookEndpoint {
    pub id: String,
    pub name: String,
    pub provider: WebhookProvider,
    pub is_enabled: bool,
    pub notify_on_new_mail: bool,
    pub created_at: i64,
    pub updated_at: i64,
}

/// A webhook endpoint as stored: the endpoint and its encrypted configuration.
#[derive(Debug)]
pub struct StoredWebhookEndpoint {
    pub endpoint: WebhookEndpoint,
    pub encrypted_config: Vec<u8>,
}

/// A mail folder of an account.
#[derive(Debug, Clone)]
pub struct Folder {
    pub id: String,
    pub name: String,
}

/// The columns of the kanban board.
#[derive(Debug, Clone, Copy, PartialEq, Eq, Structural)]
pub enum KanbanColumn {
    Todo,
    Waiting,
    Done,
}

/// Errors of the storage layer.
#[derive(Debug)]
pub enum PebbleError {
    Validation(String),
    Storage(String),
}

impl PebbleError {
    /// The text that describes the error.
    pub fn message(&self) -> (res: String)
        ensures
            match self {
                PebbleError::Validation(m) => res@ == m@,
                PebbleError::Storage(m) => res@ == m@,
            },
    {
        match self {
            PebbleError::Validation(m) => m.clone(),
            PebbleError::Storage(m) => m.clone(),
        }
    }
}

} // verus!
