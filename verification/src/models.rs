//! The records that travel through the consumer.

use std::collections::HashMap;

use vstd::prelude::*;

verus! {

/// A message taken from the queue: where to deliver it, what kind of
/// webhook it is, and the data to send.
#[derive(Debug, Clone)]
pub struct QueueMessage {
    pub id: Option<String>,
    pub webhook_type: Option<String>,
    pub client_url: String,
    pub payload: serde_json::Value,
    pub headers: Option<HashMap<String, String>>,
    pub changes: Option<serde_json::Value>,
}

/// The credentials sent to a client's login endpoint.
#[derive(Debug, Clone)]
pub struct AuthRequest {
    pub username: String,
    pub password: String,
}

/// A client's answer to a login: a token and, optionally, its lifetime in
/// seconds.
#[derive(Debug, Clone)]
pub struct AuthResponse {
    pub token: String,
    pub expires_in: Option<i64>,
}

/// A token held for a client. `expires_at` is in microseconds since the Unix
/// epoch; a token without it expires with the cache duration.
#[derive(Debug, Clone)]
pub struct AuthContext {
    pub token: String,
    pub client_url: String,
    pub expires_at: Option<i64>,
}

/// The body of a webhook request. `timestamp` is the moment of conversion in
/// microseconds since the Unix epoch.
#[derive(Debug, Clone)]
pub struct WebhookPayload {
    pub webhook_type: String,
    pub data: serde_json::Value,
    pub changes: Option<serde_json::Value>,
    pub timestamp: i64,
}

/// The outcome of processing one message. `timestamp` is in microseconds
/// since the Unix epoch.
#[derive(Debug, Clone)]
pub struct ProcessingResult {
    pub success: bool,
    pub message: String,
    pub request_id: String,
    pub timestamp: i64,
}

impl AuthContext {
    /// A copy of this context.
    pub fn duplicate(&self) -> (r: AuthContext)
        ensures
            r.token@ == self.token@,
            r.client_url@ == self.client_url@,
            r.expires_at == self.expires_at,
    {
        AuthContext { token: self.token.clone(), client_url: self.client_url.clone(), expires_at: self.expires_at }
    }
}

} // verus!
