//! JSON text of the requests the gateway forwards and of its own error payload.
//! Each object is framed here; string values are quoted by serde_json.

use vstd::prelude::*;
use crate::model::{ChatCompletionRequest, ChatMessage, ErrorResponse, TtsRequest, messages_view};

verus! {

/// The JSON string literal for the characters `s`, quotes and escapes included.
pub uninterp spec fn json_string_of(s: Seq<char>) -> Seq<char>;

/// Relies on serde_json::to_string on a `str`: it writes the escaped string
/// between quotes, and the text depends on the characters alone.
#[verifier::external_body]
fn quote_json(s: &str) -> (r: String)
    ensures
        r@ == json_string_of(s@),
{
    serde_json::to_string(s).unwrap_or_default()
}

/// `{"role":..,"content":..}`
pub open spec fn message_json(m: (Seq<char>, Seq<char>)) -> Seq<char> {
    "{\"role\":"@ + json_string_of(m.0) + ",\"content\":"@ + json_string_of(m.1) + "}"@
}

/// The messages' objects, separated by commas.
pub open spec fn messages_items(ms: Seq<(Seq<char>, Seq<char>)>) -> Seq<char>
    decreases ms.len(),
{
    if ms.len() == 0 {
        Seq::empty()
    } else if ms.len() == 1 {
        message_json(ms[0])
    } else {
        messages_items(ms.drop_last()) + ","@ + message_json(ms.last())
    }
}

/// `{"model":..,"messages":[..]}`
pub open spec fn chat_request_json(req: (Seq<char>, Seq<(Seq<char>, Seq<char>)>)) -> Seq<char> {
    "{\"model\":"@ + json_string_of(req.0) + ",\"messages\":["@ + messages_items(req.1) + "]}"@
}

/// A string value, or `null` when absent.
pub open spec fn optional_json(o: Option<Seq<char>>) -> Seq<char> {
    match o {
        Some(s) => json_string_of(s),
        None => "null"@,
    }
}

/// `{"input":..,"voice":..,"format":..}`
pub open spec fn tts_request_json(req: (Seq<char>, Option<Seq<char>>, Option<Seq<char>>)) -> Seq<char> {
    "{\"input\":"@ + json_string_of(req.0) + ",\"voice\":"@ + optional_json(req.1) + ",\"format\":"@
        + optional_json(req.2) + "}"@
}

/// `{"error":..}`
pub open spec fn error_json(e: Seq<char>) -> Seq<char> {
    "{\"error\":"@ + json_string_of(e) + "}"@
}

impl ChatMessage {
    /// The message as a JSON object.
    pub fn to_json(&self) -> (r: String)
        ensures
            r@ == message_json(self@),
    {
        let mut out = String::from_str("{\"role\":");
        let role = quote_json(self.role.as_str());
        out.append(role.as_str());
        out.append(",\"content\":");
        let content = quote_json(self.content.as_str());
        out.append(content.as_str());
        out.append("}");
        out
    }
}

impl ChatCompletionRequest {
    /// The request as a JSON object, messages in their order.
    pub fn to_json(&self) -> (r: String)
        ensures
            r@ == chat_request_json(self@),
    {
        let mut out = String::from_str("{\"model\":");
        let model = quote_json(self.model.as_str());
        out.append(model.as_str());
        out.append(",\"messages\":[");
        let ghost head = out@;
        let ghost ms = messages_view(self.messages@);
        let n = self.messages.len();
        let mut i: usize = 0;
        assert(ms.subrange(0, 0).len() == 0);
        assert(out@ =~= head + messages_items(ms.subrange(0, 0)));
        while i < n
            invariant
                n == self.messages@.len(),
                ms == messages_view(self.messages@),
                ms.len() == n,
                i <= n,
                out@ == head + messages_items(ms.subrange(0, i as int)),
            decreases n - i,
        {
            if i > 0 {
                out.append(",");
            }
            let piece = self.messages[i].to_json();
            out.append(piece.as_str());
            proof {
                let next = ms.subrange(0, i + 1);
                assert(next.drop_last() =~= ms.subrange(0, i as int));
                assert(next.last() == self.messages@[i as int]@);
                assert(out@ =~= head + messages_items(next));
            }
            i += 1;
        }
        assert(ms.subrange(0, n as int) =~= ms);
        out.append("]}");
        out
    }
}

impl TtsRequest {
    /// The request as a JSON object; an absent field is written as `null`.
    pub fn to_json(&self) -> (r: String)
        ensures
            r@ == tts_request_json(self@),
    {
        let mut out = String::from_str("{\"input\":");
        let input = quote_json(self.input.as_str());
        out.append(input.as_str());
        out.append(",\"voice\":");
        match &self.voice {
            Some(v) => {
                let q = quote_json(v.as_str());
                out.append(q.as_str());
            },
            None => {
                out.append("null");
            },
        }
        out.append(",\"format\":");
        match &self.format {
            Some(f) => {
                let q = quote_json(f.as_str());
                out.append(q.as_str());
            },
            None => {
                out.append("null");
            },
        }
        out.append("}");
        out
    }
}

impl ErrorResponse {
    /// The payload as a JSON object.
    pub fn to_json(&self) -> (r: String)
        ensures
            r@ == error_json(self.error@),
    {
        let mut out = String::from_str("{\"error\":");
        let e = quote_json(self.error.as_str());
        out.append(e.as_str());
        out.append("}");
        out
    }
}

} // verus!
