//! The request and reply values that pass through the gateway.

use vstd::prelude::*;

verus! {

/// One chat message; the gateway does not interpret either field.
pub struct ChatMessage {
    pub role: String,
    pub content: String,
}

impl View for ChatMessage {
    type V = (Seq<char>, Seq<char>);

    open spec fn view(&self) -> (Seq<char>, Seq<char>) {
        (self.role@, self.content@)
    }
}

/// The role and content of each message, in order.
pub open spec fn messages_view(ms: Seq<ChatMessage>) -> Seq<(Seq<char>, Seq<char>)> {
    ms.map_values(|m: ChatMessage| m@)
}

/// A chat-completion request: the model name is the routing key; `messages`
/// may be empty and is passed on untouched.
pub struct ChatCompletionRequest {
    pub model: String,
    pub messages: Vec<ChatMessage>,
}

impl View for ChatCompletionRequest {
    type V = (Seq<char>, Seq<(Seq<char>, Seq<char>)>);

    open spec fn view(&self) -> (Seq<char>, Seq<(Seq<char>, Seq<char>)>) {
        (self.model@, messages_view(self.messages@))
    }
}

/// A speech request; `voice` and `format` may be absent.
pub struct TtsRequest {
    pub input: String,
    pub voice: Option<String>,
    pub format: Option<String>,
}

/// The text of an optional string field.
pub open spec fn opt_view(o: Option<String>) -> Option<Seq<char>> {
    match o {
        Some(s) => Some(s@),
        None => None,
    }
}

impl View for TtsRequest {
    type V = (Seq<char>, Option<Seq<char>>, Option<Seq<char>>);

    open spec fn view(&self) -> (Seq<char>, Option<Seq<char>>, Option<Seq<char>>) {
        (self.input@, opt_view(self.voice), opt_view(self.format))
    }
}

/// The diagnostic payload of a reply the gateway makes up itself.
pub struct ErrorResponse {
    pub error: String,
}

} // verus!
