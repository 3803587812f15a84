use rabbitmq_consumer::error::AppError;
use rabbitmq_consumer::handlers::health::HealthHandler;
use rabbitmq_consumer::handlers::webhook::WebhookHandler;
use rabbitmq_consumer::services::message_processor::MessageProcessor;

#[test]
fn health_and_readiness() {
    let handler = HealthHandler::new();
    let health = handler.health_check().unwrap();
    assert_eq!(health.status, "healthy");
    assert_eq!(health.service, "rabbitmq-consumer");
    assert_eq!(health.version, "1.0.0");
    assert!(chrono::DateTime::parse_from_rfc3339(&health.timestamp).is_ok());
    let ready = handler.readiness_check().unwrap();
    assert_eq!(ready.status, "ready");
    assert_eq!(ready.rabbitmq, "connected");
    assert_eq!(ready.http_client, "ready");
}

#[test]
fn webhook_response() {
    let handler = WebhookHandler::new(MessageProcessor::new());
    let ok = handler.respond(Ok(()), "req-1").unwrap();
    assert_eq!(ok.status, "success");
    assert_eq!(ok.message, "Webhook processed successfully");
    assert_eq!(ok.request_id, "req-1");
    let err = handler.respond(Err(AppError::message_processing("boom")), "req-2").err().unwrap();
    assert_eq!(err.message(), "boom");
}

#[test]
fn health_timestamp_is_utc_rfc3339() {
    let health = HealthHandler::new().health_check().unwrap();
    assert!(health.timestamp.ends_with("+00:00"));
    assert_eq!(health.timestamp.chars().nth(10), Some('T'));
}
