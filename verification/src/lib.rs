//! Typed client core for the ZkWasm proving service.
//!
//! The crate turns typed payloads into signed requests (canonical message,
//! signature, JSON or multipart body, URL) and decodes response envelopes.
//! Sending a request is left to the caller.

pub mod error;
pub mod helper;
pub mod interface;
pub mod json;
pub mod text;
