//! The chat backend's stand-in: it answers with the last user message, echoed.

use vstd::prelude::*;
use crate::model::{ChatCompletionRequest, ChatMessage, messages_view};
use crate::registry::same_text;

verus! {

/// One answer of a chat completion.
pub struct ChatChoice {
    pub index: usize,
    pub message: ChatMessage,
}

/// A chat completion: an identifier and the answers.
pub struct ChatCompletionResponse {
    pub id: String,
    pub choices: Vec<ChatChoice>,
}

/// The position of the last message whose role is `role`, or -1 when none is.
pub open spec fn last_index_with_role(ms: Seq<(Seq<char>, Seq<char>)>, role: Seq<char>) -> int
    decreases ms.len(),
{
    if ms.len() == 0 {
        -1
    } else if ms.last().0 == role {
        ms.len() - 1
    } else {
        last_index_with_role(ms.drop_last(), role)
    }
}

/// The message answered: the last user message, or a placeholder user message
/// when there is none.
pub open spec fn last_user_message(ms: Seq<(Seq<char>, Seq<char>)>) -> (Seq<char>, Seq<char>) {
    let i = last_index_with_role(ms, "user"@);
    if i >= 0 {
        ms[i]
    } else {
        ("user"@, "(no user message found)"@)
    }
}

/// The text of the echoed answer.
pub open spec fn echo_text(model: Seq<char>, content: Seq<char>) -> Seq<char> {
    "Echo from llm-node (model="@ + model + "): "@ + content
}

/// The result is -1 or the position of a message with that role, after which
/// no message has it.
pub proof fn lemma_last_index_with_role(ms: Seq<(Seq<char>, Seq<char>)>, role: Seq<char>)
    ensures
        -1 <= last_index_with_role(ms, role) < ms.len(),
        last_index_with_role(ms, role) >= 0 ==> ms[last_index_with_role(ms, role)].0 == role,
        forall|j: int|
            last_index_with_role(ms, role) < j < ms.len() ==> (#[trigger] ms[j]).0 != role,
    decreases ms.len(),
{
    if ms.len() > 0 && ms.last().0 != role {
        lemma_last_index_with_role(ms.drop_last(), role);
        assert forall|j: int| last_index_with_role(ms, role) < j < ms.len() implies (
        #[trigger] ms[j]).0 != role by {
            if j < ms.len() - 1 {
                assert(ms.drop_last()[j] == ms[j]);
            }
        }
    }
}

/// A copy of `m`.
pub fn copy_message(m: &ChatMessage) -> (r: ChatMessage)
    ensures
        r@ == m@,
{
    ChatMessage { role: m.role.clone(), content: m.content.clone() }
}

/// The last message whose role is `user`, or a placeholder user message
/// reading "(no user message found)" when there is none.
pub fn find_last_user_message(messages: &[ChatMessage]) -> (r: ChatMessage)
    ensures
        r@ == last_user_message(messages_view(messages@)),
{
    let ghost ms = messages_view(messages@);
    let mut i: usize = messages.len();
    assert(ms.subrange(0, i as int) =~= ms);
    while i > 0
        invariant
            i <= messages@.len(),
            ms == messages_view(messages@),
            last_index_with_role(ms, "user"@) == last_index_with_role(ms.subrange(0, i as int), "user"@),
        decreases i,
    {
        let m = &messages[i - 1];
        assert(ms.subrange(0, i as int).drop_last() =~= ms.subrange(0, i - 1));
        assert(ms.subrange(0, i as int).last() == m@);
        if same_text(m.role.as_str(), "user") {
            return copy_message(m);
        }
        i -= 1;
    }
    ChatMessage {
        role: String::from_str("user"),
        content: String::from_str("(no user message found)"),
    }
}

/// Relies on uuid::Uuid::new_v4 and its `Display`: a random identifier written
/// in the hyphenated form, 36 characters long.
#[verifier::external_body]
fn new_response_id() -> (r: String)
    ensures
        r@.len() == 36,
{
    uuid::Uuid::new_v4().to_string()
}

/// The echo answer under a given identifier: one choice, at index 0, from the
/// assistant, whose text names the model and repeats the user's words.
pub fn echo_response_with_id(id: String, model: &str, user_message: &ChatMessage) -> (r: ChatCompletionResponse)
    ensures
        r.id@ == id@,
        r.choices@.len() == 1,
        r.choices@[0].index == 0,
        r.choices@[0].message.role@ == "assistant"@,
        r.choices@[0].message.content@ == echo_text(model@, user_message.content@),
{
    let mut text = String::from_str("Echo from llm-node (model=");
    text.append(model);
    text.append("): ");
    text.append(user_message.content.as_str());
    let message = ChatMessage { role: String::from_str("assistant"), content: text };
    let mut choices: Vec<ChatChoice> = Vec::new();
    choices.push(ChatChoice { index: 0, message });
    ChatCompletionResponse { id, choices }
}

/// The echo answer under a fresh random identifier.
pub fn create_echo_response(model: &str, user_message: &ChatMessage) -> (r: ChatCompletionResponse)
    ensures
        r.id@.len() == 36,
        r.choices@.len() == 1,
        r.choices@[0].index == 0,
        r.choices@[0].message.role@ == "assistant"@,
        r.choices@[0].message.content@ == echo_text(model@, user_message.content@),
{
    let id = new_response_id();
    echo_response_with_id(id, model, user_message)
}

/// The stand-in's answer to a chat request: the last user message, echoed.
pub fn answer_chat(req: &ChatCompletionRequest) -> (r: ChatCompletionResponse)
    ensures
        r.id@.len() == 36,
        r.choices@.len() == 1,
        r.choices@[0].index == 0,
        r.choices@[0].message.role@ == "assistant"@,
        r.choices@[0].message.content@ == echo_text(req.model@, last_user_message(req@.1).1),
{
    let last_user = find_last_user_message(req.messages.as_slice());
    create_echo_response(req.model.as_str(), &last_user)
}

} // verus!
