//! Structured log records and the naming of error log files.
//!
//! A record carries a message, a timestamp, a unique id (`unknown` when none
//! is given) and a request id (the unique id when none is given). Error
//! records are also written to a daily file named
//! `<dir>/<file_name>.<date>.log`, with trailing slashes of `dir` dropped and
//! the date in local time or UTC as configured.

use vstd::prelude::*;

use crate::config::LoggerConfig;
use crate::platform::{lowercase, to_lowercase};
use crate::text::{trim_end_char, trim_end_matches_char};

verus! {

/// Chooses the file that error records are appended to.
pub struct ConfigurableFileWriter {
    config: LoggerConfig,
}

/// Builds log records.
pub struct StructuredLogger;

/// The severity of a record.
#[derive(PartialEq, Eq, Structural, Clone, Copy, Debug)]
pub enum LogLevel {
    Error,
    Warn,
    Info,
}

/// The message of a record: plain text, or an error (written as an object
/// with an `error` field).
pub enum LogMessage {
    Text { text: String },
    Error { error: String },
}

/// One structured log record. `additional_data` is carried as it was given,
/// unopened; the library does not look into it.
pub struct LogRecord {
    pub level: LogLevel,
    pub message: LogMessage,
    pub timestamp: String,
    pub unique_id: String,
    pub request_id: String,
    pub additional_data: Option<serde_json::Value>,
}

/// The path of the error log file for `date`.
pub open spec fn log_file_path_spec(c: LoggerConfig, date: Seq<char>) -> Seq<char> {
    trim_end_char(c.dir@, '/') + "/"@ + c.file_name@ + "."@ + date + ".log"@
}

/// The filter level for a requested level, given its lower-case form: one of
/// the five known levels, or `info` for anything else.
pub open spec fn level_filter_spec(lower: Seq<char>) -> Seq<char> {
    if lower == "error"@ {
        "error"@
    } else if lower == "warn"@ {
        "warn"@
    } else if lower == "info"@ {
        "info"@
    } else if lower == "debug"@ {
        "debug"@
    } else if lower == "trace"@ {
        "trace"@
    } else {
        "info"@
    }
}

/// The unique id of a record: the given one, or `unknown`.
pub open spec fn unique_id_spec(unique_id: Option<Seq<char>>) -> Seq<char> {
    match unique_id {
        Some(u) => u,
        None => "unknown"@,
    }
}

/// The request id of a record: the given one, or else its unique id.
pub open spec fn request_id_spec(unique_id: Option<Seq<char>>, request_id: Option<Seq<char>>) -> Seq<char> {
    match request_id {
        Some(r) => r,
        None => unique_id_spec(unique_id),
    }
}

/// The view of an optional text.
pub open spec fn opt_view(s: Option<&str>) -> Option<Seq<char>> {
    match s {
        Some(t) => Some(t@),
        None => None,
    }
}

/// Law: a record always names a request: its request id is the one given,
/// or its unique id, which is the one given or `unknown`.
pub proof fn law_record_ids(unique_id: Option<Seq<char>>, request_id: Option<Seq<char>>)
    ensures
        request_id is None ==> request_id_spec(unique_id, request_id) == unique_id_spec(unique_id),
        unique_id is None && request_id is None ==> request_id_spec(unique_id, request_id) == "unknown"@,
{
}

/// Law: trailing slashes of the log directory do not change the log file:
/// a directory with one more `/` names the same file.
pub proof fn law_trailing_slash_ignored(c: LoggerConfig, slashed: LoggerConfig, date: Seq<char>)
    requires
        slashed.dir@ == c.dir@.push('/'),
        slashed.file_name@ == c.file_name@,
    ensures
        log_file_path_spec(slashed, date) == log_file_path_spec(c, date),
{
    assert(slashed.dir@.drop_last() =~= c.dir@);
}

impl ConfigurableFileWriter {
    /// A writer for the given configuration.
    pub fn new(config: LoggerConfig) -> (r: ConfigurableFileWriter)
        ensures
            r.settings() == config,
    {
        ConfigurableFileWriter { config }
    }

    /// The configuration.
    pub closed spec fn settings(&self) -> LoggerConfig {
        self.config
    }

    /// The configuration.
    pub fn config(&self) -> (r: &LoggerConfig)
        ensures
            *r == self.settings(),
    {
        &self.config
    }

    /// The path of the error log file for `date`.
    pub fn log_file_path(&self, date: &str) -> (r: String)
        ensures
            r@ == log_file_path_spec(self.settings(), date@),
    {
        let mut path = trim_end_matches_char(self.config.dir.as_str(), '/');
        path.append("/");
        path.append(self.config.file_name.as_str());
        path.append(".");
        path.append(date);
        path.append(".log");
        path
    }

    /// Whether the date in the log file name is taken in local time (as
    /// configured) rather than UTC.
    pub fn uses_local_date(&self) -> (r: bool)
        ensures
            r == self.settings().local_time,
    {
        self.config.local_time
    }
}

impl StructuredLogger {
    /// The filter level for a requested level name, compared without regard
    /// to case.
    pub fn level_filter(level: &str) -> (r: String)
        ensures
            r@ == level_filter_spec(lowercase(level@)),
    {
        let lower = to_lowercase(level);
        if lower == String::from_str("error") {
            String::from_str("error")
        } else if lower == String::from_str("warn") {
            String::from_str("warn")
        } else if lower == String::from_str("info") {
            String::from_str("info")
        } else if lower == String::from_str("debug") {
            String::from_str("debug")
        } else if lower == String::from_str("trace") {
            String::from_str("trace")
        } else {
            String::from_str("info")
        }
    }

    /// Whether timestamps use local time: as configured, or UTC when logging
    /// is not configured.
    pub fn uses_local_time(config: Option<&LoggerConfig>) -> (r: bool)
        ensures
            r == match config {
                Some(c) => c.local_time,
                None => false,
            },
    {
        match config {
            Some(c) => c.local_time,
            None => false,
        }
    }

    /// The unique id and request id of a record.
    pub fn resolve_ids(unique_id: Option<&str>, request_id: Option<&str>) -> (r: (String, String))
        ensures
            r.0@ == unique_id_spec(opt_view(unique_id)),
            r.1@ == request_id_spec(opt_view(unique_id), opt_view(request_id)),
    {
        let uid = match unique_id {
            Some(u) => String::from_str(u),
            None => String::from_str("unknown"),
        };
        let rid = match request_id {
            Some(r) => String::from_str(r),
            None => uid.clone(),
        };
        (uid, rid)
    }

    /// An error record with the given timestamp.
    pub fn error_record(error: &str, unique_id: Option<&str>, request_id: Option<&str>, timestamp: &str) -> (r:
        LogRecord)
        ensures
            r.level == LogLevel::Error,
            r.timestamp@ == timestamp@,
            r.message matches LogMessage::Error { error: e } && e@ == error@,
            r.unique_id@ == unique_id_spec(opt_view(unique_id)),
            r.request_id@ == request_id_spec(opt_view(unique_id), opt_view(request_id)),
            r.additional_data is None,
    {
        let (uid, rid) = Self::resolve_ids(unique_id, request_id);
        LogRecord {
            level: LogLevel::Error,
            message: LogMessage::Error { error: String::from_str(error) },
            timestamp: String::from_str(timestamp),
            unique_id: uid,
            request_id: rid,
            additional_data: None,
        }
    }

    /// An information record with the given timestamp and optional extra
    /// fields.
    pub fn info_record(
        message: &str,
        unique_id: Option<&str>,
        request_id: Option<&str>,
        additional_data: Option<serde_json::Value>,
        timestamp: &str,
    ) -> (r: LogRecord)
        ensures
            r.level == LogLevel::Info,
            r.timestamp@ == timestamp@,
            r.message matches LogMessage::Text { text } && text@ == message@,
            r.unique_id@ == unique_id_spec(opt_view(unique_id)),
            r.request_id@ == request_id_spec(opt_view(unique_id), opt_view(request_id)),
            r.additional_data == additional_data,
    {
        let (uid, rid) = Self::resolve_ids(unique_id, request_id);
        LogRecord {
            level: LogLevel::Info,
            message: LogMessage::Text { text: String::from_str(message) },
            timestamp: String::from_str(timestamp),
            unique_id: uid,
            request_id: rid,
            additional_data,
        }
    }

    /// A warning record with the given timestamp.
    pub fn warning_record(message: &str, unique_id: Option<&str>, request_id: Option<&str>, timestamp: &str) -> (r:
        LogRecord)
        ensures
            r.level == LogLevel::Warn,
            r.timestamp@ == timestamp@,
            r.message matches LogMessage::Text { text } && text@ == message@,
            r.unique_id@ == unique_id_spec(opt_view(unique_id)),
            r.request_id@ == request_id_spec(opt_view(unique_id), opt_view(request_id)),
            r.additional_data is None,
    {
        let (uid, rid) = Self::resolve_ids(unique_id, request_id);
        LogRecord {
            level: LogLevel::Warn,
            message: LogMessage::Text { text: String::from_str(message) },
            timestamp: String::from_str(timestamp),
            unique_id: uid,
            request_id: rid,
            additional_data: None,
        }
    }
}

} // verus!
