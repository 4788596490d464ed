//! The upstream API families the proxy forwards to, and which of them need
//! the protocol-version header.
//!
//! Only the stateful conversation family — assistants, threads, messages and
//! runs — opts into the newer upstream API via `OpenAI-Beta: assistants=v2`;
//! every other family must not carry that header.

use vstd::prelude::*;

use crate::config::{resolution_post, resolve_client_config, ClientConfig};
use crate::error::AppError;
use crate::headers::HeaderField;

verus! {

/// One upstream resource family reachable through the proxy.
#[derive(Clone, Copy, Debug, PartialEq, Eq, Structural)]
pub enum ApiFamily {
    Completions,
    Embeddings,
    Models,
    Images,
    Assistants,
    Threads,
    Messages,
    Runs,
    Files,
    Responses,
}

/// Whether a family belongs to the stateful conversation subset that
/// requires the protocol-version header.
pub open spec fn spec_requires_beta(family: ApiFamily) -> bool {
    match family {
        ApiFamily::Assistants => true,
        ApiFamily::Threads => true,
        ApiFamily::Messages => true,
        ApiFamily::Runs => true,
        _ => false,
    }
}

/// Whether a family requires the protocol-version header.
pub fn requires_beta(family: ApiFamily) -> (r: bool)
    ensures
        r == spec_requires_beta(family),
{
    match family {
        ApiFamily::Assistants => true,
        ApiFamily::Threads => true,
        ApiFamily::Messages => true,
        ApiFamily::Runs => true,
        _ => false,
    }
}

/// The first step of every request handler: derive the upstream client
/// configuration for the family being invoked, with the protocol-version
/// header attached exactly when that family requires it. On a credential
/// error the handler surfaces the error and contacts nothing upstream.
pub fn resolve_for_family(family: ApiFamily, headers: &Vec<HeaderField>) -> (r: Result<
    ClientConfig,
    AppError,
>)
    ensures
        resolution_post(headers@, spec_requires_beta(family), r),
{
    resolve_client_config(headers, requires_beta(family))
}

} // verus!
