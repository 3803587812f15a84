use rabbitmq_consumer::config::LoggerConfig;
use rabbitmq_consumer::providers::logging::{ConfigurableFileWriter, LogLevel, LogMessage, StructuredLogger};

fn logger_config(dir: &str) -> LoggerConfig {
    LoggerConfig {
        dir: dir.to_string(),
        file_name: "test-custom-gateway".to_string(),
        max_backups: 0,
        max_size: 10,
        max_age: 90,
        compress: true,
        local_time: true,
    }
}

#[test]
fn log_file_path_drops_trailing_slashes() {
    let writer = ConfigurableFileWriter::new(logger_config("/var/log/app//"));
    assert_eq!(writer.log_file_path("2024-01-02"), "/var/log/app/test-custom-gateway.2024-01-02.log");
    let writer = ConfigurableFileWriter::new(logger_config("logs"));
    assert_eq!(writer.log_file_path("2024-01-02"), "logs/test-custom-gateway.2024-01-02.log");
    let writer = ConfigurableFileWriter::new(logger_config("/"));
    assert_eq!(writer.log_file_path("d"), "/test-custom-gateway.d.log");
}

#[test]
fn log_file_date_clock_follows_configuration() {
    let writer = ConfigurableFileWriter::new(logger_config("logs"));
    assert!(writer.uses_local_date());
    let today = chrono::Local::now().format("%Y-%m-%d").to_string();
    assert_eq!(writer.log_file_path(&today), format!("logs/test-custom-gateway.{}.log", today));
    let mut utc = logger_config("logs");
    utc.local_time = false;
    assert!(!ConfigurableFileWriter::new(utc).uses_local_date());
}

#[test]
fn level_filter_ignores_case_and_defaults_to_info() {
    assert_eq!(StructuredLogger::level_filter("ERROR"), "error");
    assert_eq!(StructuredLogger::level_filter("Warn"), "warn");
    assert_eq!(StructuredLogger::level_filter("debug"), "debug");
    assert_eq!(StructuredLogger::level_filter("TRACE"), "trace");
    assert_eq!(StructuredLogger::level_filter("info"), "info");
    assert_eq!(StructuredLogger::level_filter("verbose"), "info");
}

#[test]
fn record_ids_default_to_unknown() {
    let (u, r) = StructuredLogger::resolve_ids(None, None);
    assert_eq!((u.as_str(), r.as_str()), ("unknown", "unknown"));
    let (u, r) = StructuredLogger::resolve_ids(Some("uid"), None);
    assert_eq!((u.as_str(), r.as_str()), ("uid", "uid"));
    let (u, r) = StructuredLogger::resolve_ids(Some("uid"), Some("rid"));
    assert_eq!((u.as_str(), r.as_str()), ("uid", "rid"));
}

#[test]
fn error_record_carries_message_and_ids() {
    let record = StructuredLogger::error_record(
        "Test error message for file logging",
        Some("test-unique-id"),
        Some("test-request-id"),
        "2024-05-06 07:08:09.010",
    );
    assert_eq!(record.level, LogLevel::Error);
    match &record.message {
        LogMessage::Error { error } => assert_eq!(error, "Test error message for file logging"),
        _ => panic!("an error record"),
    }
    assert_eq!(record.unique_id, "test-unique-id");
    assert_eq!(record.request_id, "test-request-id");
    assert_eq!(record.timestamp, "2024-05-06 07:08:09.010");
    let info = StructuredLogger::info_record("hello", None, None, None, "t1");
    assert_eq!(info.timestamp, "t1");
    assert_eq!(info.level, LogLevel::Info);
    assert_eq!(info.unique_id, "unknown");
    let warn = StructuredLogger::warning_record("careful", Some("u"), None, "t2");
    assert_eq!(warn.timestamp, "t2");
    assert_eq!(warn.request_id, "u");
    assert!(StructuredLogger::uses_local_time(Some(&logger_config("x"))));
    assert!(!StructuredLogger::uses_local_time(None));
}

#[test]
fn clock_timestamps_have_the_log_pattern() {
    assert_log_pattern(&rabbitmq_consumer::platform::utc_now_formatted(rabbitmq_consumer::text::TIMESTAMP_PATTERN));
    assert_log_pattern(&rabbitmq_consumer::platform::local_now_formatted(rabbitmq_consumer::text::TIMESTAMP_PATTERN));
}

fn assert_log_pattern(text: &str) {
    let t: Vec<char> = text.chars().collect();
    assert_eq!(t.len(), 23);
    for (i, c) in t.iter().enumerate() {
        match i {
            4 | 7 => assert_eq!(*c, '-'),
            10 => assert_eq!(*c, ' '),
            13 | 16 => assert_eq!(*c, ':'),
            19 => assert_eq!(*c, '.'),
            _ => assert!(c.is_ascii_digit()),
        }
    }
}

#[test]
fn level_filter_lowers_ascii() {
    assert_eq!(StructuredLogger::level_filter("WARN"), "warn");
    assert_eq!(StructuredLogger::level_filter("DeBuG"), "debug");
    assert_eq!(StructuredLogger::level_filter("Ｅrror"), "info");
}
