//! A stateless greeting service: one handler that maps any incoming JSON
//! document, together with its invocation context, to a fixed response
//! document `{"message": "Hello from Rust Lambda!"}`.
//!
//! The serverless runtime that delivers events and the logging of the raw
//! event live outside this library; here stand the document model, the
//! handler itself, and proofs that its output depends on nothing.

pub mod json;
pub mod handler;
