//! Health and readiness probes.

use vstd::prelude::*;

use crate::platform::utc_now_rfc3339;
use crate::text::is_utc_rfc3339_text;

verus! {

/// Answers health and readiness probes.
pub struct HealthHandler;

/// The answer to a health probe.
pub struct HealthStatus {
    pub status: String,
    pub service: String,
    pub version: String,
    pub timestamp: String,
}

/// The answer to a readiness probe, with the state of each dependency.
pub struct ReadinessStatus {
    pub status: String,
    pub service: String,
    pub rabbitmq: String,
    pub http_client: String,
}

impl HealthHandler {
    /// A handler.
    pub fn new() -> (r: HealthHandler) {
        HealthHandler
    }

    /// The service is healthy: its name and version, stamped with the
    /// current time in RFC 3339 form.
    pub fn health_check(&self) -> (r: Result<HealthStatus, String>)
        ensures
            r matches Ok(s) && s.status@ == "healthy"@ && s.service@ == "rabbitmq-consumer"@ && s.version@
                == "1.0.0"@ && is_utc_rfc3339_text(s.timestamp@),
    {
        Ok(HealthStatus {
            status: String::from_str("healthy"),
            service: String::from_str("rabbitmq-consumer"),
            version: String::from_str("1.0.0"),
            timestamp: utc_now_rfc3339(),
        })
    }

    /// The service is ready, with the broker connected and the HTTP client
    /// ready.
    pub fn readiness_check(&self) -> (r: Result<ReadinessStatus, String>)
        ensures
            r matches Ok(s) && s.status@ == "ready"@ && s.service@ == "rabbitmq-consumer"@ && s.rabbitmq@
                == "connected"@ && s.http_client@ == "ready"@,
    {
        Ok(ReadinessStatus {
            status: String::from_str("ready"),
            service: String::from_str("rabbitmq-consumer"),
            rabbitmq: String::from_str("connected"),
            http_client: String::from_str("ready"),
        })
    }
}

} // verus!
