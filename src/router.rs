//! Request router: for each request type, the target and the body to forward,
//! and the reply once the forwarded call has an outcome. The call itself is
//! made by the caller, with whatever transport it holds.

use vstd::prelude::*;
use crate::json::{chat_request_json, json_string_of, messages_items, tts_request_json};
use crate::model::{ChatCompletionRequest, TtsRequest};
use crate::registry::BackendRegistry;
use crate::translate::{
    BAD_GATEWAY, BackendKind, BackendReply, OutboundResponse, is_valid_status, outcome_view, relayed_status,
    translate, translation,
};

verus! {

/// One call to make: where, and with which JSON body.
pub struct ForwardPlan {
    pub target: String,
    pub body: String,
}

/// The target for a chat request with request value `req`, and the body
/// forwarded there.
pub open spec fn chat_plan(registry: BackendRegistry, req: (Seq<char>, Seq<(Seq<char>, Seq<char>)>)) -> (
    Seq<char>,
    Seq<char>,
) {
    (registry.resolve_spec(req.0), chat_request_json(req))
}

/// The call for a chat request: the registry picks the target from the model
/// name, and the request is forwarded as it came, messages included.
pub fn plan_chat(registry: &BackendRegistry, req: &ChatCompletionRequest) -> (r: ForwardPlan)
    ensures
        (r.target@, r.body@) == chat_plan(*registry, req@),
{
    let target = registry.resolve(req.model.as_str());
    let body = req.to_json();
    ForwardPlan { target, body }
}

/// The call for a speech request: the registry's default target, which is
/// the single speech backend, with the request as it came.
pub fn plan_speech(registry: &BackendRegistry, req: &TtsRequest) -> (r: ForwardPlan)
    ensures
        r.target@ == registry.default_target@,
        r.body@ == tts_request_json(req@),
{
    let target = registry.default_target.clone();
    let body = req.to_json();
    ForwardPlan { target, body }
}

/// The reply to a chat request, given what the chat backend did.
pub fn finish_chat(outcome: Result<BackendReply, String>) -> (r: OutboundResponse)
    ensures
        r@ == translation(BackendKind::Llm, outcome_view(outcome)),
{
    translate(BackendKind::Llm, outcome)
}

/// The reply to a speech request, given what the speech backend did.
pub fn finish_speech(outcome: Result<BackendReply, String>) -> (r: OutboundResponse)
    ensures
        r@ == translation(BackendKind::Tts, outcome_view(outcome)),
{
    translate(BackendKind::Tts, outcome)
}

/// The gateway's status is the backend's own when it reached the backend with
/// a valid status, and exactly 502 when it did not reach it; no other value.
pub proof fn lemma_status_relayed_or_bad_gateway(
    kind: BackendKind,
    outcome: Result<(u16, Option<Seq<char>>, Seq<u8>), Seq<char>>,
)
    ensures
        match outcome {
            Ok(r) => translation(kind, outcome).0 == relayed_status(r.0),
            Err(_) => translation(kind, outcome).0 == BAD_GATEWAY,
        },
        outcome is Ok && is_valid_status(outcome->Ok_0.0) ==> translation(kind, outcome).0
            == outcome->Ok_0.0,
{
}

/// Identical requests meeting identical backend behaviour get identical
/// replies: nothing carries over from one request to the next.
pub proof fn lemma_identical_requests_identical_replies(
    registry: BackendRegistry,
    req1: (Seq<char>, Seq<(Seq<char>, Seq<char>)>),
    req2: (Seq<char>, Seq<(Seq<char>, Seq<char>)>),
    outcome1: Result<(u16, Option<Seq<char>>, Seq<u8>), Seq<char>>,
    outcome2: Result<(u16, Option<Seq<char>>, Seq<u8>), Seq<char>>,
)
    requires
        req1 == req2,
        outcome1 == outcome2,
    ensures
        chat_plan(registry, req1) == chat_plan(registry, req2),
        translation(BackendKind::Llm, outcome1) == translation(BackendKind::Llm, outcome2),
        translation(BackendKind::Tts, outcome1) == translation(BackendKind::Tts, outcome2),
{
}

/// A request with no messages is forwarded, with an empty message list.
pub proof fn lemma_empty_messages_forwarded(registry: BackendRegistry, model: Seq<char>)
    ensures
        chat_plan(registry, (model, Seq::empty())).0 == registry.resolve_spec(model),
        chat_plan(registry, (model, Seq::empty())).1 == "{\"model\":"@ + json_string_of(model)
            + ",\"messages\":[]}"@,
{
    reveal_strlit(",\"messages\":[");
    reveal_strlit("]}");
    reveal_strlit(",\"messages\":[]}");
    assert(messages_items(Seq::empty()) == Seq::<char>::empty());
    assert(chat_request_json((model, Seq::empty())) =~= "{\"model\":"@ + json_string_of(model)
        + ",\"messages\":[]}"@);
}

} // verus!
