//! Typed client core for a bidirectional, message-oriented generation
//! service: the protocol's data model, a verified JSON wire codec, the
//! session state machine that sequences one live connection, and the
//! request/response shapes of the single-shot endpoints. Socket and HTTP
//! plumbing stay outside; this crate turns values into wire text and wire
//! text back into values, with contracts that pin both directions down.

pub mod json;
pub mod v1beta;
