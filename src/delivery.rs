//! The outbound delivery step: where a message goes, and how the answer of
//! the destination and the request's other outcomes are reported back.
use crate::classify::{rejection_text, Rejection, BAD_REQUEST};
use crate::text::{append_decimal, decimal};
use vstd::prelude::*;
use vstd::string::*;

verus! {

/// The webhook endpoint of the destination `id` with secret `token`.
pub open spec fn webhook_endpoint(id: u64, token: Seq<char>) -> Seq<char> {
    "https://discord.com/api/webhooks/"@ + decimal(id as nat) + "/"@ + token
}

/// Builds the webhook endpoint of the destination `id` with secret `token`.
pub fn webhook_url(id: u64, token: &str) -> (r: String)
    ensures
        r@ == webhook_endpoint(id, token@),
{
    let mut url = String::from_str("https://discord.com/api/webhooks/");
    append_decimal(&mut url, id);
    url.append("/");
    url.append(token);
    url
}

/// How one delivery attempt ended.
#[derive(Clone, Copy, Debug, PartialEq, Eq, Structural)]
pub enum DeliveryOutcome {
    /// The destination accepted the message.
    Delivered,
    /// The destination answered with a client or server error status.
    Rejected,
    /// The destination could not be reached or its answer could not be read.
    TransportFailure,
}

/// Whether an HTTP status is a client or server error.
pub open spec fn is_error_status(status: u16) -> bool {
    400 <= status <= 599
}

/// Classifies the status the destination answered with.
pub fn outcome_for_status(status: u16) -> (r: DeliveryOutcome)
    ensures
        r == (if is_error_status(status) {
            DeliveryOutcome::Rejected
        } else {
            DeliveryOutcome::Delivered
        }),
{
    if 400 <= status && status <= 599 {
        DeliveryOutcome::Rejected
    } else {
        DeliveryOutcome::Delivered
    }
}

/// The answer to the inbound request: a status code and a short text.
#[derive(Debug)]
pub struct Reply {
    pub status: u16,
    pub body: String,
}

pub const OK: u16 = 200;
pub const CREATED: u16 = 201;
pub const INTERNAL_SERVER_ERROR: u16 = 500;

/// The status and text that report a delivery outcome.
pub open spec fn delivery_answer(o: DeliveryOutcome) -> (u16, Seq<char>) {
    match o {
        DeliveryOutcome::Delivered => (CREATED, "successfully created"@),
        DeliveryOutcome::Rejected => (INTERNAL_SERVER_ERROR, "discord returns error"@),
        DeliveryOutcome::TransportFailure => (INTERNAL_SERVER_ERROR, "delivery failed"@),
    }
}

/// The reply that reports a delivery outcome to the caller.
pub fn delivery_reply(o: DeliveryOutcome) -> (r: Reply)
    ensures
        (r.status, r.body@) == delivery_answer(o),
{
    match o {
        DeliveryOutcome::Delivered => Reply {
            status: CREATED,
            body: String::from_str("successfully created"),
        },
        DeliveryOutcome::Rejected => Reply {
            status: INTERNAL_SERVER_ERROR,
            body: String::from_str("discord returns error"),
        },
        DeliveryOutcome::TransportFailure => Reply {
            status: INTERNAL_SERVER_ERROR,
            body: String::from_str("delivery failed"),
        },
    }
}

/// The reply to a note that was already delivered: success, nothing sent.
pub fn duplicate_reply() -> (r: Reply)
    ensures
        r.status == OK,
        r.body@ == "duplicated note so not sent to discord"@,
{
    Reply { status: OK, body: String::from_str("duplicated note so not sent to discord") }
}

/// The reply to a rejected request.
pub fn rejection_reply(rejection: &Rejection) -> (r: Reply)
    ensures
        r.status == BAD_REQUEST,
        r.body@ == rejection_text(rejection@),
{
    Reply { status: rejection.status(), body: rejection.message() }
}

} // verus!
