//! The live broadcast endpoint the engine publishes on. The channel itself
//! belongs to the runtime; verification sees it as opaque and trusts only
//! the one call below, which is fire-and-forget by construction.

use vstd::prelude::*;

use crate::presence::APIEvent;

verus! {

/// tokio's broadcast sender, declared so that it can appear in signatures.
/// Values of it are opaque to verification.
#[verifier::external_type_specification]
#[verifier::external_body]
#[verifier::reject_recursive_types(T)]
pub struct ExSender<T>(tokio::sync::broadcast::Sender<T>);

/// Relies on `tokio::sync::broadcast::Sender::send`: it delivers the value
/// to every currently subscribed receiver's queue without blocking, returns
/// the number of such receivers (at least one) on success, and errs exactly
/// when no receiver is subscribed. Nothing more is assumed: how many
/// receivers exist is runtime state.
#[verifier::external_body]
pub(crate) fn send_event(
    tx: &tokio::sync::broadcast::Sender<APIEvent>,
    event: APIEvent,
) -> (receivers: Option<usize>)
    ensures
        receivers matches Some(n) ==> n >= 1,
{
    match tx.send(event) {
        Ok(n) => Some(n),
        Err(_) => None,
    }
}

} // verus!
