//! Decisions of the services that deliver webhooks: the HTTP retry policy,
//! the authentication token cache, and the handling of queue messages.

pub mod auth;
pub mod http_client;
pub mod message_processor;

pub use http_client::HttpClientService;
