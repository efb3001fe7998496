//! Webhook notifications, mail rules and configuration checks of the Pebble Web mail server.
pub mod config;
pub mod encoding;
pub mod json;
pub mod model;
pub mod notifications;
pub mod oauth;
pub mod rules_engine;
pub mod store;
pub mod text;
pub mod webhooks;
