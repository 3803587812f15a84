use rabbitmq_consumer::error::{AppError, ErrorKind};

#[test]
fn test_error_chain() {
    let error = AppError::payload_conversion("Test error");
    let error_string = error.to_display_string();
    assert!(error_string.contains("Payload conversion error"));
}

#[test]
fn error_text_is_kind_words_then_message() {
    let error = AppError::webhook_type("no changes param found");
    assert_eq!(error.kind(), ErrorKind::WebhookType);
    assert_eq!(error.message(), "no changes param found");
    assert_eq!(error.to_display_string(), "Webhook type error: no changes param found");
    let copy = error.duplicate();
    assert_eq!(copy.kind(), ErrorKind::WebhookType);
    assert_eq!(copy.message(), "no changes param found");
    let other = AppError::new(ErrorKind::Http, "connection refused");
    assert_eq!(other.to_display_string(), "HTTP request error: connection refused");
    assert_eq!(
        AppError::authentication_failed("x").to_display_string(),
        "Authentication failed: x"
    );
    assert_eq!(
        AppError::message_processing("y").to_display_string(),
        "Message processing error: y"
    );
}
