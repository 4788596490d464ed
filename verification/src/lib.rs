//! Request-scoped credential handling for a stateless proxy in front of the
//! OpenAI HTTP API.
//!
//! The crate extracts a bearer credential from inbound request headers,
//! validates it, and builds the upstream client configuration — including the
//! conditional `OpenAI-Beta` protocol-version header that the stateful
//! conversation endpoints (assistants, threads, messages, runs) require.
//! It also gathers the fields of a multipart file upload into a validated
//! request. No credential is ever stored beyond the request that supplied it.

pub mod config;
pub mod credential;
pub mod error;
pub mod families;
pub mod headers;
pub mod openai;
pub mod upload;

use vstd::prelude::*;

verus! {

/// Liveness text served on the health route; no credential is required there.
pub fn health_check() -> (r: &'static str)
    ensures
        r@ == "OpenAI API Server is running"@,
{
    "OpenAI API Server is running"
}

} // verus!
