//! Response translation: a pure mapping from the outcome of one forwarded
//! call to the reply the gateway sends back to its client.

use vstd::prelude::*;
use vstd::utf8::encode_utf8;
use crate::json::error_json;
use crate::model::ErrorResponse;

verus! {

/// Which backend a request went to.
#[derive(Clone, Copy, PartialEq, Eq, Structural)]
pub enum BackendKind {
    Llm,
    Tts,
}

/// What a backend answered: its status, its content type if it sent one, and
/// its body.
pub struct BackendReply {
    pub status: u16,
    pub content_type: Option<String>,
    pub body: Vec<u8>,
}

impl View for BackendReply {
    type V = (u16, Option<Seq<char>>, Seq<u8>);

    open spec fn view(&self) -> (u16, Option<Seq<char>>, Seq<u8>) {
        (
            self.status,
            match self.content_type {
                Some(c) => Some(c@),
                None => None,
            },
            self.body@,
        )
    }
}

/// The gateway's reply to its client.
pub struct OutboundResponse {
    pub status: u16,
    pub content_type: String,
    pub body: Vec<u8>,
}

impl View for OutboundResponse {
    type V = (u16, Seq<char>, Seq<u8>);

    open spec fn view(&self) -> (u16, Seq<char>, Seq<u8>) {
        (self.status, self.content_type@, self.body@)
    }
}

/// The status that stands for a transport failure.
pub const BAD_GATEWAY: u16 = 502;

/// The status used when a backend's code is not a valid HTTP status.
pub const OK_STATUS: u16 = 200;

/// HTTP status codes are the three-digit numbers.
pub open spec fn is_valid_status(code: u16) -> bool {
    100 <= code <= 999
}

/// The backend's status as relayed: kept when valid, else 200.
pub open spec fn relayed_status(code: u16) -> u16 {
    if is_valid_status(code) {
        code
    } else {
        OK_STATUS
    }
}

/// The content type used when the backend sent none.
pub open spec fn default_content_type(kind: BackendKind) -> Seq<char> {
    match kind {
        BackendKind::Llm => "application/json"@,
        BackendKind::Tts => "application/octet-stream"@,
    }
}

/// The words that open the diagnostic when the backend could not be reached.
pub open spec fn unreachable_prefix(kind: BackendKind) -> Seq<char> {
    match kind {
        BackendKind::Llm => "llm-node unreachable: "@,
        BackendKind::Tts => "TTS node unreachable: "@,
    }
}

/// The outcome of a forwarded call, as values: the reply, or the transport
/// failure's diagnostic.
pub open spec fn outcome_view(outcome: Result<BackendReply, String>) -> Result<
    (u16, Option<Seq<char>>, Seq<u8>),
    Seq<char>,
> {
    match outcome {
        Ok(r) => Ok(r@),
        Err(d) => Err(d@),
    }
}

/// The reply for an outcome: a backend reply passes through (status, content
/// type or the default, body); a transport failure becomes 502 with a JSON
/// diagnostic that names the backend.
pub open spec fn translation(
    kind: BackendKind,
    outcome: Result<(u16, Option<Seq<char>>, Seq<u8>), Seq<char>>,
) -> (u16, Seq<char>, Seq<u8>) {
    match outcome {
        Ok(r) => (
            relayed_status(r.0),
            match r.1 {
                Some(c) => c,
                None => default_content_type(kind),
            },
            r.2,
        ),
        Err(d) => (BAD_GATEWAY, "application/json"@, encode_utf8(error_json(unreachable_prefix(kind) + d))),
    }
}

/// The backend's status as relayed.
pub fn relay_status(code: u16) -> (r: u16)
    ensures
        r == relayed_status(code),
{
    if 100 <= code && code <= 999 {
        code
    } else {
        OK_STATUS
    }
}

/// The content type used when the backend sent none.
pub fn content_type_default(kind: BackendKind) -> (r: String)
    ensures
        r@ == default_content_type(kind),
{
    match kind {
        BackendKind::Llm => String::from_str("application/json"),
        BackendKind::Tts => String::from_str("application/octet-stream"),
    }
}

/// The diagnostic for a backend that could not be reached.
pub fn unreachable_message(kind: BackendKind, detail: &str) -> (r: String)
    ensures
        r@ == unreachable_prefix(kind) + detail@,
{
    let mut out = match kind {
        BackendKind::Llm => String::from_str("llm-node unreachable: "),
        BackendKind::Tts => String::from_str("TTS node unreachable: "),
    };
    out.append(detail);
    out
}

/// Passes a backend reply through unchanged but for an invalid status and a
/// missing content type.
pub fn relay_reply(kind: BackendKind, reply: BackendReply) -> (r: OutboundResponse)
    ensures
        r@ == translation(kind, Ok(reply@)),
{
    let status = relay_status(reply.status);
    let content_type = match reply.content_type {
        Some(c) => c,
        None => content_type_default(kind),
    };
    OutboundResponse { status, content_type, body: reply.body }
}

/// The 502 reply for a transport failure, whatever its kind.
pub fn bad_gateway(kind: BackendKind, detail: &str) -> (r: OutboundResponse)
    ensures
        r@ == translation(kind, Err(detail@)),
{
    let payload = ErrorResponse { error: unreachable_message(kind, detail) };
    let text = payload.to_json();
    let body = text.as_str().as_bytes_vec();
    OutboundResponse { status: BAD_GATEWAY, content_type: String::from_str("application/json"), body }
}

/// The reply for the outcome of a call forwarded to `kind`'s backend.
pub fn translate(kind: BackendKind, outcome: Result<BackendReply, String>) -> (r: OutboundResponse)
    ensures
        r@ == translation(kind, outcome_view(outcome)),
{
    match outcome {
        Ok(reply) => relay_reply(kind, reply),
        Err(detail) => bad_gateway(kind, detail.as_str()),
    }
}

} // verus!
