//! A typed client library for the Mailinator email-testing REST API.
//!
//! The library builds every request deterministically: each request type
//! renders exactly one URL path, endpoint operations map a request to an
//! HTTP plan (method, path, body), and response bodies are decoded from a
//! plain JSON model into typed values. All of that logic carries proved
//! contracts; the network itself is left to the embedding application.

pub mod api;
pub mod attachment;
pub mod config;
pub mod digits;
pub mod domains;
pub mod http;
pub mod inbox;
pub mod json;
pub mod link;
pub mod message;
pub mod prelude;
pub mod rules;
pub mod stats;
