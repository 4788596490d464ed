//! The uniform error representation surfaced to callers.
//!
//! Every failure — credential, request shape or upstream — is reported as an
//! [`AppError`] carrying a human-readable message, and nothing is retried or
//! recovered locally. The error categories stay distinguishable through
//! their messages.

use vstd::prelude::*;

verus! {

/// An error surfaced to the caller of a request, as a single message.
#[derive(Debug)]
pub struct AppError(pub String);

impl core::convert::From<String> for AppError {
    /// Wraps a message in an [`AppError`].
    fn from(s: String) -> (r: AppError) {
        AppError(s)
    }
}

impl vstd::std_specs::convert::FromSpecImpl<String> for AppError {
    open spec fn obeys_from_spec() -> bool {
        true
    }

    open spec fn from_spec(s: String) -> AppError {
        AppError(s)
    }
}

impl AppError {
    /// The error's message.
    pub fn message(&self) -> (r: &String)
        ensures
            r@ == self.0@,
    {
        &self.0
    }
}

} // verus!
