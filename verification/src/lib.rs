//! A client library for oMLX, a local LLM server that speaks an
//! OpenAI-compatible chat-completions protocol.

pub mod ai;
pub mod client;
pub mod error;
pub mod exchange;
pub mod json;
pub mod laws;
pub mod request;
pub mod response;
pub mod text;
pub mod tokens;
pub mod wire;
