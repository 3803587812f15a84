//! The answer to a webhook request.

use vstd::prelude::*;

use crate::error::AppError;
use crate::services::message_processor::MessageProcessor;

verus! {

/// Answers webhook requests by processing the message they carry.
pub struct WebhookHandler {
    pub message_processor: MessageProcessor,
}

/// The answer to a processed webhook request.
pub struct WebhookResponse {
    pub status: String,
    pub message: String,
    pub request_id: String,
}

impl WebhookHandler {
    /// A handler that processes messages with `message_processor`.
    pub fn new(message_processor: MessageProcessor) -> (r: WebhookHandler)
        ensures
            r.message_processor == message_processor,
    {
        WebhookHandler { message_processor }
    }

    /// The answer once the message has been processed: the processing error
    /// if there was one, otherwise success under the request's id.
    pub fn respond(&self, processing: Result<(), AppError>, request_id: &str) -> (r: Result<WebhookResponse, AppError>)
        ensures
            match processing {
                Ok(()) => r matches Ok(resp) && resp.status@ == "success"@ && resp.message@
                    == "Webhook processed successfully"@ && resp.request_id@ == request_id@,
                Err(e) => r matches Err(e2) && e2@ == e@,
            },
    {
        match processing {
            Ok(()) => Ok(WebhookResponse {
                status: String::from_str("success"),
                message: String::from_str("Webhook processed successfully"),
                request_id: String::from_str(request_id),
            }),
            Err(e) => Err(e),
        }
    }
}

} // verus!
