//! The replies of the endpoint: one fixed shape for each outcome.

use vstd::prelude::*;
use vstd::string::*;
use crate::decision::{DispatchOutcome, Rejection};
use crate::signature::VerificationError;

verus! {

/// The status that every reply carries. The platform delivers a webhook again
/// when it sees a failure status, so no outcome is reported as one.
pub const STATUS_OK: u16 = 200;

/// The type code of the reply to a liveness check.
pub const TYPE_PONG: u8 = 1;

/// The type code of a reply that carries a message.
pub const TYPE_MESSAGE: u8 = 4;

/// The type code of a reply that defers the message.
pub const TYPE_DEFERRED: u8 = 5;

/// The body of a reply: one of a closed set of shapes.
#[derive(Clone, Copy, Debug, PartialEq, Eq, Structural)]
pub enum ResponsePayload {
    /// `{"type":1}`
    Pong,
    /// `{"type":4,"data":{"content":"invalid request"}}`
    InvalidRequest,
    /// `{"type":4,"data":{"content":"invalid signature"}}`
    InvalidSignature,
    /// `{"type":5,"data":{"content":"processing..."}}`
    Processing,
    /// `{"type":4,"data":{"content":"error processing"}}`
    ErrorProcessing,
    /// `{"type":4,"data":{"content":"pong"}}`
    LivenessPong,
    /// `{"errorMessage":"Unknown interaction type"}`
    UnknownKind,
}

/// A reply as the front door sends it.
#[derive(Clone, Copy, Debug, PartialEq, Eq, Structural)]
pub struct Reply {
    pub status: u16,
    pub outcome: DispatchOutcome,
    pub payload: ResponsePayload,
}

/// The shape that answers a rejection. A request without its headers, or with
/// a body that cannot be classified, is an invalid request; a signature that
/// is malformed or does not match is an invalid signature.
pub open spec fn rejection_payload(rejection: Rejection) -> ResponsePayload {
    match rejection {
        Rejection::Authentication(VerificationError::MissingHeader) => ResponsePayload::InvalidRequest,
        Rejection::Authentication(VerificationError::MalformedSignature) => ResponsePayload::InvalidSignature,
        Rejection::Authentication(VerificationError::VerificationFailed) => ResponsePayload::InvalidSignature,
        Rejection::Schema(_) => ResponsePayload::InvalidRequest,
    }
}

/// The shape that answers each outcome.
pub open spec fn payload_for(outcome: DispatchOutcome) -> ResponsePayload {
    match outcome {
        DispatchOutcome::Acknowledged => ResponsePayload::Pong,
        DispatchOutcome::AnsweredDirectly => ResponsePayload::LivenessPong,
        DispatchOutcome::DeferredAndDispatched => ResponsePayload::Processing,
        DispatchOutcome::DispatchFailed => ResponsePayload::ErrorProcessing,
        DispatchOutcome::Rejected(rejection) => rejection_payload(rejection),
        DispatchOutcome::UnknownKind => ResponsePayload::UnknownKind,
    }
}

/// The reply to each outcome.
pub open spec fn reply_for(outcome: DispatchOutcome) -> Reply {
    Reply { status: STATUS_OK, outcome, payload: payload_for(outcome) }
}

impl ResponsePayload {
    /// The reply's type code; the shape for an unknown kind has none.
    pub open spec fn type_code_spec(self) -> Option<u8> {
        match self {
            ResponsePayload::Pong => Some(TYPE_PONG),
            ResponsePayload::InvalidRequest => Some(TYPE_MESSAGE),
            ResponsePayload::InvalidSignature => Some(TYPE_MESSAGE),
            ResponsePayload::Processing => Some(TYPE_DEFERRED),
            ResponsePayload::ErrorProcessing => Some(TYPE_MESSAGE),
            ResponsePayload::LivenessPong => Some(TYPE_MESSAGE),
            ResponsePayload::UnknownKind => None,
        }
    }

    /// The text that the reply shows: its message, or for an unknown kind its
    /// error message. The reply to a liveness check shows none.
    pub open spec fn text_spec(self) -> Option<Seq<char>> {
        match self {
            ResponsePayload::Pong => None,
            ResponsePayload::InvalidRequest => Some("invalid request"@),
            ResponsePayload::InvalidSignature => Some("invalid signature"@),
            ResponsePayload::Processing => Some("processing..."@),
            ResponsePayload::ErrorProcessing => Some("error processing"@),
            ResponsePayload::LivenessPong => Some("pong"@),
            ResponsePayload::UnknownKind => Some("Unknown interaction type"@),
        }
    }

    /// The reply's body as compact JSON text.
    pub open spec fn json(self) -> Seq<char> {
        match self {
            ResponsePayload::Pong => "{\"type\":1}"@,
            ResponsePayload::InvalidRequest => "{\"type\":4,\"data\":{\"content\":\"invalid request\"}}"@,
            ResponsePayload::InvalidSignature => "{\"type\":4,\"data\":{\"content\":\"invalid signature\"}}"@,
            ResponsePayload::Processing => "{\"type\":5,\"data\":{\"content\":\"processing...\"}}"@,
            ResponsePayload::ErrorProcessing => "{\"type\":4,\"data\":{\"content\":\"error processing\"}}"@,
            ResponsePayload::LivenessPong => "{\"type\":4,\"data\":{\"content\":\"pong\"}}"@,
            ResponsePayload::UnknownKind => "{\"errorMessage\":\"Unknown interaction type\"}"@,
        }
    }

    /// The reply's type code.
    pub fn type_code(&self) -> (code: Option<u8>)
        ensures
            code == self.type_code_spec(),
    {
        match self {
            ResponsePayload::Pong => Some(TYPE_PONG),
            ResponsePayload::Processing => Some(TYPE_DEFERRED),
            ResponsePayload::UnknownKind => None,
            _ => Some(TYPE_MESSAGE),
        }
    }

    /// The text that the reply shows.
    pub fn text(&self) -> (text: Option<&'static str>)
        ensures
            match text {
                Some(shown) => self.text_spec() == Some(shown@),
                None => self.text_spec() is None,
            },
    {
        match self {
            ResponsePayload::Pong => None,
            ResponsePayload::InvalidRequest => Some("invalid request"),
            ResponsePayload::InvalidSignature => Some("invalid signature"),
            ResponsePayload::Processing => Some("processing..."),
            ResponsePayload::ErrorProcessing => Some("error processing"),
            ResponsePayload::LivenessPong => Some("pong"),
            ResponsePayload::UnknownKind => Some("Unknown interaction type"),
        }
    }

    /// The reply's body as compact JSON text.
    pub fn to_json(&self) -> (text: String)
        ensures
            text@ == self.json(),
    {
        match self {
            ResponsePayload::Pong => String::from_str("{\"type\":1}"),
            ResponsePayload::InvalidRequest => String::from_str(
                "{\"type\":4,\"data\":{\"content\":\"invalid request\"}}",
            ),
            ResponsePayload::InvalidSignature => String::from_str(
                "{\"type\":4,\"data\":{\"content\":\"invalid signature\"}}",
            ),
            ResponsePayload::Processing => String::from_str(
                "{\"type\":5,\"data\":{\"content\":\"processing...\"}}",
            ),
            ResponsePayload::ErrorProcessing => String::from_str(
                "{\"type\":4,\"data\":{\"content\":\"error processing\"}}",
            ),
            ResponsePayload::LivenessPong => String::from_str(
                "{\"type\":4,\"data\":{\"content\":\"pong\"}}",
            ),
            ResponsePayload::UnknownKind => String::from_str(
                "{\"errorMessage\":\"Unknown interaction type\"}",
            ),
        }
    }
}

/// Picks the shape that answers a rejection.
pub fn respond_to_rejection(rejection: Rejection) -> (payload: ResponsePayload)
    ensures
        payload == rejection_payload(rejection),
{
    match rejection {
        Rejection::Authentication(VerificationError::MissingHeader) => ResponsePayload::InvalidRequest,
        Rejection::Authentication(_) => ResponsePayload::InvalidSignature,
        Rejection::Schema(_) => ResponsePayload::InvalidRequest,
    }
}

/// Picks the shape that answers an outcome. Every outcome has one.
pub fn respond(outcome: DispatchOutcome) -> (payload: ResponsePayload)
    ensures
        payload == payload_for(outcome),
{
    match outcome {
        DispatchOutcome::Acknowledged => ResponsePayload::Pong,
        DispatchOutcome::AnsweredDirectly => ResponsePayload::LivenessPong,
        DispatchOutcome::DeferredAndDispatched => ResponsePayload::Processing,
        DispatchOutcome::DispatchFailed => ResponsePayload::ErrorProcessing,
        DispatchOutcome::Rejected(rejection) => respond_to_rejection(rejection),
        DispatchOutcome::UnknownKind => ResponsePayload::UnknownKind,
    }
}

/// Builds the reply to an outcome. Its status is 200 whatever the outcome.
pub fn reply(outcome: DispatchOutcome) -> (r: Reply)
    ensures
        r == reply_for(outcome),
        r.status == STATUS_OK,
{
    Reply { status: STATUS_OK, outcome, payload: respond(outcome) }
}

/// The decimal digit that prints a type code below ten.
pub open spec fn digit_char(code: u8) -> char {
    (code + 0x30) as char
}

/// The frame of a reply's JSON text around its type code and the text that it
/// shows: an object of `type` and, where there is a message, of `data` holding
/// `content`; without a type code, an object of `errorMessage`.
pub open spec fn framed(type_code: Option<u8>, text: Option<Seq<char>>) -> Seq<char> {
    match (type_code, text) {
        (Some(code), Some(content)) => "{\"type\":"@ + seq![digit_char(code)]
            + ",\"data\":{\"content\":\""@ + content + "\"}}"@,
        (Some(code), None) => "{\"type\":"@ + seq![digit_char(code)] + "}"@,
        (None, Some(message)) => "{\"errorMessage\":\""@ + message + "\"}"@,
        (None, None) => "{}"@,
    }
}

/// The JSON text of every shape is the frame around its type code and its
/// text.
pub proof fn lemma_json_is_framed(payload: ResponsePayload)
    ensures
        payload.json() == framed(payload.type_code_spec(), payload.text_spec()),
{
    reveal_strlit("{\"type\":");
    reveal_strlit(",\"data\":{\"content\":\"");
    reveal_strlit("\"}}");
    reveal_strlit("}");
    reveal_strlit("{\"errorMessage\":\"");
    reveal_strlit("\"}");
    match payload {
        ResponsePayload::Pong => {
            reveal_strlit("{\"type\":1}");
        },
        ResponsePayload::InvalidRequest => {
            reveal_strlit("invalid request");
            reveal_strlit("{\"type\":4,\"data\":{\"content\":\"invalid request\"}}");
        },
        ResponsePayload::InvalidSignature => {
            reveal_strlit("invalid signature");
            reveal_strlit("{\"type\":4,\"data\":{\"content\":\"invalid signature\"}}");
        },
        ResponsePayload::Processing => {
            reveal_strlit("processing...");
            reveal_strlit("{\"type\":5,\"data\":{\"content\":\"processing...\"}}");
        },
        ResponsePayload::ErrorProcessing => {
            reveal_strlit("error processing");
            reveal_strlit("{\"type\":4,\"data\":{\"content\":\"error processing\"}}");
        },
        ResponsePayload::LivenessPong => {
            reveal_strlit("pong");
            reveal_strlit("{\"type\":4,\"data\":{\"content\":\"pong\"}}");
        },
        ResponsePayload::UnknownKind => {
            reveal_strlit("Unknown interaction type");
            reveal_strlit("{\"errorMessage\":\"Unknown interaction type\"}");
        },
    }
    assert(payload.json() =~= framed(payload.type_code_spec(), payload.text_spec()));
}

} // verus!
