//! Decisions of the queue consumer and of structured logging.

pub mod logging;
pub mod rabbitmq_consumer;

pub use logging::{ConfigurableFileWriter, StructuredLogger};
pub use rabbitmq_consumer::{ProcessedMessage, RabbitMqConsumer};
