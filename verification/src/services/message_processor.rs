//! What happens to a queue message: it is checked, turned into a webhook
//! payload, and the outcome of its delivery is judged.

use vstd::prelude::*;

use crate::error::{app_error, AppError, AppErrorView, ErrorKind};
use crate::models::{QueueMessage, WebhookPayload};
use crate::platform::{fresh_uuid, now_micros, status_display, status_text};
use crate::services::http_client::{is_success_status, valid_outcome, SendOutcome, SendOutcomeView};
use crate::services::auth::instant_in_range;
use crate::text::{is_uuid_v4_text, join2};

verus! {

/// Turns queue messages into webhooks and judges their delivery.
pub struct MessageProcessor {}

/// Why a message cannot be processed, if it cannot: an empty client URL, a
/// missing webhook type, or missing changes, checked in that order.
pub open spec fn validation_error(m: QueueMessage) -> Option<AppErrorView> {
    if m.client_url@.len() == 0 {
        Some(app_error(ErrorKind::PayloadConversion, "client_url is empty"@))
    } else if m.webhook_type is None {
        Some(app_error(ErrorKind::WebhookType, "no webhook_type param found"@))
    } else if m.changes is None {
        Some(app_error(ErrorKind::WebhookType, "no changes param found"@))
    } else {
        None
    }
}

/// Why a message cannot be turned into a payload, if it cannot.
pub open spec fn conversion_error(m: QueueMessage) -> Option<AppErrorView> {
    if m.webhook_type is None {
        Some(app_error(ErrorKind::WebhookType, "webhook_type is missing"@))
    } else if m.changes is None {
        Some(app_error(ErrorKind::WebhookType, "changes is missing"@))
    } else {
        None
    }
}

/// The payload carries the message's webhook type, its payload as data, and
/// its changes.
pub open spec fn payload_of(m: QueueMessage, p: WebhookPayload) -> bool {
    &&& m.webhook_type matches Some(t) && p.webhook_type@ == t@
    &&& p.data == m.payload
    &&& p.changes == m.changes
}

/// The result of a webhook delivery with the given outcome: success on a 2xx
/// status, otherwise an error.
pub open spec fn delivery_result(o: SendOutcomeView) -> Option<AppErrorView> {
    match o {
        SendOutcomeView::Response { status } => if is_success_status(status) {
            None
        } else {
            Some(app_error(ErrorKind::MessageProcessing, "Webhook failed with status: "@ + status_display(status)))
        },
        SendOutcomeView::Failed { error } => Some(error),
    }
}

/// Law: how a delivery is judged. Only a response with a 2xx status is a
/// success. A request that failed is reported with its own error, whatever
/// its kind. Any other response is reported as a message-processing error
/// naming its status.
pub proof fn law_delivery_judgement(o: SendOutcomeView)
    ensures
        delivery_result(o) is None <==> (o matches SendOutcomeView::Response { status } && 200 <= status < 300),
        o matches SendOutcomeView::Failed { error } ==> delivery_result(o) == Some(error),
        match o {
            SendOutcomeView::Response { status } => !(200 <= status < 300) ==> delivery_result(o) == Some(
                app_error(ErrorKind::MessageProcessing, "Webhook failed with status: "@ + status_display(status)),
            ),
            SendOutcomeView::Failed { .. } => true,
        },
{
}

/// Law: a message that passes validation can always be turned into a
/// payload.
pub proof fn law_valid_message_converts(m: QueueMessage)
    ensures
        validation_error(m) is None ==> conversion_error(m) is None,
{
}

impl MessageProcessor {
    /// A processor.
    pub fn new() -> (r: MessageProcessor) {
        MessageProcessor {}
    }

    /// Checks that a message can be delivered.
    pub fn validate_message(&self, message: &QueueMessage, request_id: &str) -> (r: Result<(), AppError>)
        ensures
            match r {
                Ok(()) => validation_error(*message) is None,
                Err(e) => validation_error(*message) == Some(e@),
            },
    {
        if message.client_url.as_str().is_empty() {
            return Err(AppError::payload_conversion("client_url is empty"));
        }
        if message.webhook_type.is_none() {
            return Err(AppError::webhook_type("no webhook_type param found"));
        }
        if message.changes.is_none() {
            return Err(AppError::webhook_type("no changes param found"));
        }
        Ok(())
    }

    /// The webhook payload of a message, stamped with the current time (an
    /// instant that chrono can represent): the payload that
    /// `convert_to_webhook_payload_at` makes at a reading of the clock.
    pub fn convert_to_webhook_payload(&self, message: &QueueMessage, request_id: &str) -> (r: Result<
        WebhookPayload,
        AppError,
    >)
        ensures
            match r {
                Ok(p) => conversion_error(*message) is None && payload_of(*message, p) && instant_in_range(
                    p.timestamp as int,
                ),
                Err(e) => conversion_error(*message) == Some(e@),
            },
    {
        self.convert_to_webhook_payload_at(message, request_id, now_micros())
    }

    /// The webhook payload of a message converted at `now` (microseconds
    /// since the Unix epoch): the message's webhook type, its payload as data,
    /// its changes, and `now` as the timestamp.
    pub fn convert_to_webhook_payload_at(&self, message: &QueueMessage, request_id: &str, now: i64) -> (r: Result<
        WebhookPayload,
        AppError,
    >)
        ensures
            match r {
                Ok(p) => conversion_error(*message) is None && payload_of(*message, p) && p.timestamp == now,
                Err(e) => conversion_error(*message) == Some(e@),
            },
            r is Ok <==> message.webhook_type is Some && message.changes is Some,
    {
        let webhook_type = match &message.webhook_type {
            Some(t) => t.clone(),
            None => {
                return Err(AppError::webhook_type("webhook_type is missing"));
            },
        };
        let changes = match &message.changes {
            Some(c) => c.clone(),
            None => {
                return Err(AppError::webhook_type("changes is missing"));
            },
        };
        Ok(WebhookPayload { webhook_type, data: message.payload.clone(), changes: Some(changes), timestamp: now })
    }

    /// The payload to deliver for a message: the message is validated, then
    /// converted.
    pub fn prepare_webhook(&self, message: &QueueMessage, request_id: &str) -> (r: Result<
        WebhookPayload,
        AppError,
    >)
        ensures
            match r {
                Ok(p) => validation_error(*message) is None && payload_of(*message, p) && instant_in_range(
                    p.timestamp as int,
                ),
                Err(e) => validation_error(*message) == Some(e@),
            },
    {
        self.validate_message(message, request_id)?;
        self.convert_to_webhook_payload(message, request_id)
    }

    /// The result of sending a webhook, judged from what the request came
    /// back with: success on a 2xx status, "Webhook failed with status: ..."
    /// on any other status, and the request's own error when it failed.
    pub fn webhook_result(&self, outcome: SendOutcome) -> (r: Result<(), AppError>)
        requires
            valid_outcome(outcome@),
        ensures
            match r {
                Ok(()) => delivery_result(outcome@) is None,
                Err(e) => delivery_result(outcome@) == Some(e@),
            },
            r is Ok <==> (outcome@ matches SendOutcomeView::Response { status } && 200 <= status < 300),
            outcome@ matches SendOutcomeView::Failed { error } ==> (r matches Err(e) && e@ == error),
    {
        match outcome {
            SendOutcome::Response { status } => {
                if 200 <= status && status < 300 {
                    Ok(())
                } else {
                    let text = status_text(status);
                    Err(AppError::message_processing(join2("Webhook failed with status: ", text.as_str()).as_str()))
                }
            },
            SendOutcome::Failed { error } => Err(error),
        }
    }

    /// The request id under which a message is processed: the message's own
    /// id, or else `req-` followed by a fresh UUID.
    pub fn request_id_for(&self, message: &QueueMessage) -> (r: String)
        ensures
            match message.id {
                Some(id) => r@ == id@,
                None => r@.len() == 40 && r@.subrange(0, 4) == "req-"@ && is_uuid_v4_text(r@.subrange(4, 40)),
            },
    {
        match &message.id {
            Some(id) => id.clone(),
            None => new_request_id(),
        }
    }
}

/// `req-` followed by a fresh version 4 UUID.
pub fn new_request_id() -> (r: String)
    ensures
        r@.len() == 40,
        r@.subrange(0, 4) == "req-"@,
        is_uuid_v4_text(r@.subrange(4, 40)),
{
    let id = fresh_uuid();
    let r = join2("req-", id.as_str());
    proof {
        reveal_strlit("req-");
        assert(r@.subrange(0, 4) =~= "req-"@);
        assert(r@.subrange(4, 40) =~= id@);
    }
    r
}

} // verus!
