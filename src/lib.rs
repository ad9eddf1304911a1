//! Request-routing gateway in front of a chat-completion backend and a
//! text-to-speech backend: target selection, request framing, and the
//! translation of backend outcomes into the gateway's own replies.

pub mod registry;
pub mod model;
pub mod json;
pub mod translate;
pub mod router;
pub mod echo;
pub mod speech;
