//! A JSON-RPC 2.0 message codec: the wire-level grammar for requests,
//! notifications, responses, batches, and errors, with strict structural
//! validation.
//!
//! Every message type decodes from and encodes to a generic JSON value
//! ([`json::JsonValue`]); the contracts pin the exact result of each
//! operation, and the round-trip laws are proved in the modules that own
//! the types.

pub mod error;
pub mod json;
pub mod method;
pub mod notification;
pub mod request;
pub mod response;
pub mod server;
pub mod transport;
