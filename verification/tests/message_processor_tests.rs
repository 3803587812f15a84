use std::collections::HashMap;

use rabbitmq_consumer::error::{AppError, ErrorKind};
use rabbitmq_consumer::models::QueueMessage;
use rabbitmq_consumer::services::http_client::SendOutcome;
use rabbitmq_consumer::services::message_processor::{new_request_id, MessageProcessor};

fn json(text: &str) -> serde_json::Value {
    serde_json::from_str(text).unwrap()
}

fn create_test_message() -> QueueMessage {
    QueueMessage {
        id: Some("msg-123".to_string()),
        webhook_type: Some("user.created".to_string()),
        client_url: "http://example.com/webhook".to_string(),
        payload: json(r#"{"user": "john", "email": "john@example.com"}"#),
        headers: Some(HashMap::new()),
        changes: Some(json(r#"{"name": "John Doe", "status": "active"}"#)),
    }
}

fn create_invalid_message() -> QueueMessage {
    QueueMessage {
        id: Some("msg-456".to_string()),
        webhook_type: None,
        client_url: "http://example.com/webhook".to_string(),
        payload: json(r#"{"user": "jane"}"#),
        headers: Some(HashMap::new()),
        changes: None,
    }
}

#[test]
fn test_successful_message_processing() {
    let processor = MessageProcessor::new();
    let message = create_test_message();
    let payload = processor.prepare_webhook(&message, "msg-123");
    assert!(payload.is_ok());
    let result = processor.webhook_result(SendOutcome::Response { status: 200 });
    assert!(result.is_ok());
}

#[test]
fn test_message_validation_failure() {
    let processor = MessageProcessor::new();
    let message = create_invalid_message();
    let result = processor.prepare_webhook(&message, "msg-456");
    assert!(result.is_err());
}

#[test]
fn test_convert_to_webhook_payload() {
    let processor = MessageProcessor::new();
    let message = create_test_message();

    let result = processor.convert_to_webhook_payload(&message, "test-req");
    assert!(result.is_ok());

    let webhook_payload = result.unwrap();
    assert_eq!(webhook_payload.webhook_type, "user.created");
    assert!(webhook_payload.changes.is_some());
    assert_eq!(webhook_payload.data, json(r#"{"user": "john", "email": "john@example.com"}"#));
}

#[test]
fn test_validate_message_missing_changes() {
    let processor = MessageProcessor::new();
    let mut message = create_test_message();
    message.changes = None;

    let result = processor.validate_message(&message, "test-req");
    assert!(result.is_err());
    assert!(matches!(result.unwrap_err(), AppError::WebhookType { .. }));
}

#[test]
fn test_validate_message_missing_webhook_type() {
    let processor = MessageProcessor::new();
    let mut message = create_test_message();
    message.webhook_type = None;

    let result = processor.validate_message(&message, "test-req");
    assert!(result.is_err());
    assert!(matches!(result.unwrap_err(), AppError::WebhookType { .. }));
}

#[test]
fn empty_client_url_is_a_payload_conversion_error() {
    let processor = MessageProcessor::new();
    let mut message = create_test_message();
    message.client_url = String::new();
    message.webhook_type = None;
    let err = processor.validate_message(&message, "r").unwrap_err();
    assert_eq!(err.kind(), ErrorKind::PayloadConversion);
    assert_eq!(err.message(), "client_url is empty");
}

#[test]
fn validation_messages_name_the_missing_field() {
    let processor = MessageProcessor::new();
    let mut message = create_test_message();
    message.webhook_type = None;
    assert_eq!(processor.validate_message(&message, "r").unwrap_err().message(), "no webhook_type param found");
    assert_eq!(
        processor.convert_to_webhook_payload(&message, "r").unwrap_err().message(),
        "webhook_type is missing"
    );
    let mut message = create_test_message();
    message.changes = None;
    assert_eq!(processor.validate_message(&message, "r").unwrap_err().message(), "no changes param found");
    assert_eq!(processor.convert_to_webhook_payload(&message, "r").unwrap_err().message(), "changes is missing");
}

#[test]
fn valid_message_passes_validation_and_converts() {
    let processor = MessageProcessor::new();
    let message = create_test_message();
    assert!(processor.validate_message(&message, "r").is_ok());
    let payload = processor.prepare_webhook(&message, "r").unwrap();
    assert_eq!(payload.webhook_type, "user.created");
    assert_eq!(payload.changes, Some(json(r#"{"name": "John Doe", "status": "active"}"#)));
    assert!(payload.timestamp > 0);
}

#[test]
fn webhook_failure_status_is_reported_with_reason() {
    let processor = MessageProcessor::new();
    let err = processor.webhook_result(SendOutcome::Response { status: 404 }).unwrap_err();
    assert_eq!(err.kind(), ErrorKind::MessageProcessing);
    assert_eq!(err.message(), "Webhook failed with status: 404 Not Found");
    let err = processor.webhook_result(SendOutcome::Response { status: 503 }).unwrap_err();
    assert_eq!(err.message(), "Webhook failed with status: 503 Service Unavailable");
    let err = processor
        .webhook_result(SendOutcome::Failed { error: AppError::new(ErrorKind::Http, "timeout") })
        .unwrap_err();
    assert_eq!(err.kind(), ErrorKind::Http);
    assert_eq!(err.message(), "timeout");
    assert!(processor.webhook_result(SendOutcome::Response { status: 204 }).is_ok());
}

#[test]
fn request_id_comes_from_message_or_is_generated() {
    let processor = MessageProcessor::new();
    let message = create_test_message();
    assert_eq!(processor.request_id_for(&message), "msg-123");
    let mut message = create_test_message();
    message.id = None;
    let id = processor.request_id_for(&message);
    assert!(id.starts_with("req-"));
    assert_eq!(id.len(), 40);
    let a = new_request_id();
    let b = new_request_id();
    assert_ne!(a, b);
}

#[test]
fn generated_request_ids_carry_a_version_4_uuid() {
    for _ in 0..20 {
        let id = new_request_id();
        let uuid: Vec<char> = id[4..].chars().collect();
        assert_eq!(uuid.len(), 36);
        for (i, c) in uuid.iter().enumerate() {
            if i == 8 || i == 13 || i == 18 || i == 23 {
                assert_eq!(*c, '-');
            } else {
                assert!(c.is_ascii_hexdigit() && !c.is_ascii_uppercase());
            }
        }
        assert_eq!(uuid[14], '4');
        assert!(matches!(uuid[19], '8' | '9' | 'a' | 'b'));
    }
}
