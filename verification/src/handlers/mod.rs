//! Answers to health probes and to webhook requests.

pub mod health;
pub mod webhook;

pub use health::HealthHandler;
pub use webhook::WebhookHandler;
