//! The library's error type.

use vstd::prelude::*;

use crate::text::join2;

verus! {

/// What went wrong, with a message. The first five kinds carry the text of an
/// error that an outside crate reported; the last four are the library's own.
#[derive(Debug)]
pub enum AppError {
    Config { message: String },
    Amqp { message: String },
    Http { message: String },
    Json { message: String },
    Io { message: String },
    PayloadConversion { message: String },
    WebhookType { message: String },
    AuthenticationFailed { message: String },
    MessageProcessing { message: String },
}

/// The kind of an `AppError`, without its message.
#[derive(PartialEq, Eq, Structural, Clone, Copy, Debug)]
pub enum ErrorKind {
    Config,
    Amqp,
    Http,
    Json,
    Io,
    PayloadConversion,
    WebhookType,
    AuthenticationFailed,
    MessageProcessing,
}

/// An error as the contracts see it: its kind and its message.
pub struct AppErrorView {
    pub kind: ErrorKind,
    pub message: Seq<char>,
}

impl View for AppError {
    type V = AppErrorView;

    open spec fn view(&self) -> AppErrorView {
        match self {
            AppError::Config { message } => AppErrorView { kind: ErrorKind::Config, message: message@ },
            AppError::Amqp { message } => AppErrorView { kind: ErrorKind::Amqp, message: message@ },
            AppError::Http { message } => AppErrorView { kind: ErrorKind::Http, message: message@ },
            AppError::Json { message } => AppErrorView { kind: ErrorKind::Json, message: message@ },
            AppError::Io { message } => AppErrorView { kind: ErrorKind::Io, message: message@ },
            AppError::PayloadConversion { message } => AppErrorView {
                kind: ErrorKind::PayloadConversion,
                message: message@,
            },
            AppError::WebhookType { message } => AppErrorView { kind: ErrorKind::WebhookType, message: message@ },
            AppError::AuthenticationFailed { message } => AppErrorView {
                kind: ErrorKind::AuthenticationFailed,
                message: message@,
            },
            AppError::MessageProcessing { message } => AppErrorView {
                kind: ErrorKind::MessageProcessing,
                message: message@,
            },
        }
    }
}

/// The error of a kind with a message.
pub open spec fn app_error(kind: ErrorKind, message: Seq<char>) -> AppErrorView {
    AppErrorView { kind, message }
}

/// The words that the text of an error starts with, for each kind.
pub open spec fn kind_prefix(kind: ErrorKind) -> Seq<char> {
    match kind {
        ErrorKind::Config => "Configuration error: "@,
        ErrorKind::Amqp => "AMQP error: "@,
        ErrorKind::Http => "HTTP request error: "@,
        ErrorKind::Json => "JSON error: "@,
        ErrorKind::Io => "IO error: "@,
        ErrorKind::PayloadConversion => "Payload conversion error: "@,
        ErrorKind::WebhookType => "Webhook type error: "@,
        ErrorKind::AuthenticationFailed => "Authentication failed: "@,
        ErrorKind::MessageProcessing => "Message processing error: "@,
    }
}

/// The full text of an error: the words of its kind, then its message.
pub open spec fn error_text(e: AppErrorView) -> Seq<char> {
    kind_prefix(e.kind) + e.message
}

impl AppError {
    /// An error of the given kind with the given message.
    pub fn new(kind: ErrorKind, message: &str) -> (r: AppError)
        ensures
            r@ == app_error(kind, message@),
    {
        let message = String::from_str(message);
        match kind {
            ErrorKind::Config => AppError::Config { message },
            ErrorKind::Amqp => AppError::Amqp { message },
            ErrorKind::Http => AppError::Http { message },
            ErrorKind::Json => AppError::Json { message },
            ErrorKind::Io => AppError::Io { message },
            ErrorKind::PayloadConversion => AppError::PayloadConversion { message },
            ErrorKind::WebhookType => AppError::WebhookType { message },
            ErrorKind::AuthenticationFailed => AppError::AuthenticationFailed { message },
            ErrorKind::MessageProcessing => AppError::MessageProcessing { message },
        }
    }

    /// A payload that cannot be turned into a webhook.
    pub fn payload_conversion(message: &str) -> (r: AppError)
        ensures
            r@ == app_error(ErrorKind::PayloadConversion, message@),
    {
        AppError::PayloadConversion { message: String::from_str(message) }
    }

    /// A message without the parameters that select a webhook.
    pub fn webhook_type(message: &str) -> (r: AppError)
        ensures
            r@ == app_error(ErrorKind::WebhookType, message@),
    {
        AppError::WebhookType { message: String::from_str(message) }
    }

    /// A login that was refused or could not be attempted.
    pub fn authentication_failed(message: &str) -> (r: AppError)
        ensures
            r@ == app_error(ErrorKind::AuthenticationFailed, message@),
    {
        AppError::AuthenticationFailed { message: String::from_str(message) }
    }

    /// A message that could not be delivered or acknowledged.
    pub fn message_processing(message: &str) -> (r: AppError)
        ensures
            r@ == app_error(ErrorKind::MessageProcessing, message@),
    {
        AppError::MessageProcessing { message: String::from_str(message) }
    }

    /// The kind of this error.
    pub fn kind(&self) -> (r: ErrorKind)
        ensures
            r == self@.kind,
    {
        match self {
            AppError::Config { .. } => ErrorKind::Config,
            AppError::Amqp { .. } => ErrorKind::Amqp,
            AppError::Http { .. } => ErrorKind::Http,
            AppError::Json { .. } => ErrorKind::Json,
            AppError::Io { .. } => ErrorKind::Io,
            AppError::PayloadConversion { .. } => ErrorKind::PayloadConversion,
            AppError::WebhookType { .. } => ErrorKind::WebhookType,
            AppError::AuthenticationFailed { .. } => ErrorKind::AuthenticationFailed,
            AppError::MessageProcessing { .. } => ErrorKind::MessageProcessing,
        }
    }

    /// The message of this error, without the words of its kind.
    pub fn message(&self) -> (r: &str)
        ensures
            r@ == self@.message,
    {
        match self {
            AppError::Config { message } => message.as_str(),
            AppError::Amqp { message } => message.as_str(),
            AppError::Http { message } => message.as_str(),
            AppError::Json { message } => message.as_str(),
            AppError::Io { message } => message.as_str(),
            AppError::PayloadConversion { message } => message.as_str(),
            AppError::WebhookType { message } => message.as_str(),
            AppError::AuthenticationFailed { message } => message.as_str(),
            AppError::MessageProcessing { message } => message.as_str(),
        }
    }

    /// A copy of this error.
    pub fn duplicate(&self) -> (r: AppError)
        ensures
            r@ == self@,
    {
        AppError::new(self.kind(), self.message())
    }

    /// The text of this error as it is shown to people: the words of its
    /// kind followed by its message.
    pub fn to_display_string(&self) -> (r: String)
        ensures
            r@ == error_text(self@),
    {
        let prefix = kind_prefix_str(self.kind());
        join2(prefix, self.message())
    }
}

fn kind_prefix_str(kind: ErrorKind) -> (r: &'static str)
    ensures
        r@ == kind_prefix(kind),
{
    match kind {
        ErrorKind::Config => "Configuration error: ",
        ErrorKind::Amqp => "AMQP error: ",
        ErrorKind::Http => "HTTP request error: ",
        ErrorKind::Json => "JSON error: ",
        ErrorKind::Io => "IO error: ",
        ErrorKind::PayloadConversion => "Payload conversion error: ",
        ErrorKind::WebhookType => "Webhook type error: ",
        ErrorKind::AuthenticationFailed => "Authentication failed: ",
        ErrorKind::MessageProcessing => "Message processing error: ",
    }
}

} // verus!
