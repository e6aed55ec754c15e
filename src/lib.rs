//! Decision logic of a live-chat event client: the push-channel session
//! manager, the credential refresh guard, and the chat event handling.

pub mod chat;
pub mod credential;
pub mod session;
