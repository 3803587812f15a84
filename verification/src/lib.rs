//! Verified core of a RabbitMQ webhook consumer: configuration records, queue
//! message validation and conversion, the HTTP retry policy, the authentication
//! token cache, the consumer's connection lifecycle, and structured log records.
//! Everything that talks to the network, the clock, or the file system is done
//! by the caller; this crate decides what to do with what comes back.

pub mod config;
pub mod error;
pub mod handlers;
pub mod models;
pub mod platform;
pub mod providers;
pub mod services;
pub mod text;

pub use config::AppConfig;
pub use error::AppError;
