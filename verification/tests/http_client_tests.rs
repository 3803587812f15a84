use rabbitmq_consumer::config::HttpConfig;
use rabbitmq_consumer::error::{AppError, ErrorKind};
use rabbitmq_consumer::services::http_client::{HttpClientService, RetryDecision, SendOutcome};

fn create_http_config() -> HttpConfig {
    HttpConfig {
        timeout: 30,
        retry_attempts: 3,
        retry_delay: 1000,
        user_agent: "rabbitmq-consumer/1.0".to_string(),
    }
}

#[test]
fn test_successful_request() {
    let service = HttpClientService::new(create_http_config());
    let mut state = service.retry_state();
    assert!(state.can_attempt());
    assert_eq!(state.next_attempt_number(), 1);
    let decision = state.record(SendOutcome::Response { status: 200 });
    assert!(matches!(decision, RetryDecision::Deliver));
}

#[test]
fn test_retry_on_server_error() {
    let service = HttpClientService::new(create_http_config());
    let mut state = service.retry_state();
    let mut sends = 0;
    let mut waits = Vec::new();
    let result: Result<(), AppError> = loop {
        if !state.can_attempt() {
            break Err(state.give_up());
        }
        sends += 1;
        match state.record(SendOutcome::Response { status: 500 }) {
            RetryDecision::Deliver => break Ok(()),
            RetryDecision::Fail { error } => break Err(error),
            RetryDecision::Retry { delay_ms } => waits.push(delay_ms),
        }
    };
    assert!(result.is_err());
    assert_eq!(sends, 3);
    assert_eq!(waits, vec![1000, 1000]);
    let err = result.unwrap_err();
    assert_eq!(err.kind(), ErrorKind::MessageProcessing);
    assert_eq!(err.message(), "Server error: 500 Internal Server Error");
}

#[test]
fn client_error_is_not_retried() {
    let service = HttpClientService::new(create_http_config());
    let mut state = service.retry_state();
    match state.record(SendOutcome::Response { status: 401 }) {
        RetryDecision::Fail { error } => assert_eq!(error.message(), "Client error: 401 Unauthorized"),
        _ => panic!("a client error ends the delivery"),
    }
}

#[test]
fn request_failure_is_retried_then_success_delivers() {
    let service = HttpClientService::new(create_http_config());
    let mut state = service.retry_state();
    let d = state.record(SendOutcome::Failed { error: AppError::new(ErrorKind::Http, "reset") });
    assert!(matches!(d, RetryDecision::Retry { delay_ms: 1000 }));
    assert_eq!(state.next_attempt_number(), 2);
    let d = state.record(SendOutcome::Response { status: 201 });
    assert!(matches!(d, RetryDecision::Deliver));
}

#[test]
fn last_attempt_failure_reports_its_error() {
    let mut config = create_http_config();
    config.retry_attempts = 1;
    let service = HttpClientService::new(config);
    let mut state = service.retry_state();
    match state.record(SendOutcome::Failed { error: AppError::new(ErrorKind::Http, "refused") }) {
        RetryDecision::Fail { error } => {
            assert_eq!(error.kind(), ErrorKind::Http);
            assert_eq!(error.message(), "refused");
        }
        _ => panic!("no attempt is left"),
    }
}

#[test]
fn zero_attempts_fails_at_once() {
    let mut config = create_http_config();
    config.retry_attempts = 0;
    let service = HttpClientService::new(config);
    let state = service.retry_state();
    assert!(!state.can_attempt());
    let err = state.give_up();
    assert_eq!(err.message(), "All retry attempts failed");
}
