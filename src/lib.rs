//! Conversation orchestration for a locally hosted language model: validated
//! requests, an in-memory conversation store with a bounded context window,
//! a decoder for the model server's newline-delimited event stream, and the
//! steps of blocking and streaming turns, run between two short holds of the
//! store so that the provider is called with no lock held.

pub mod client;
pub mod conversation;
pub mod store;
pub mod stream;
pub mod turns;
pub mod validation;
pub mod wire;
