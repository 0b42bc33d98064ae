//! The admission filter.
//!
//! Before an inbound (ingress) call is dispatched, the filter inspects the
//! target method and either accepts the message or refuses it. A refused
//! call never creates a frame, so no commit or rollback question arises.
//! Calls relayed between actors are not filtered.

use vstd::prelude::*;

use crate::action::Method;
use crate::failure::FailureReason;

verus! {

/// Decides whether an inbound call to `method` is admitted. Exactly the
/// protected methods are refused, with a rejection the caller can observe.
pub fn inspect_message_impl(method: &Method) -> (decision: Result<(), FailureReason>)
    ensures
        decision is Ok <==> !method.protected,
        decision is Err ==> decision == Err::<(), FailureReason>(FailureReason::Rejection),
{
    if method.protected {
        Err(FailureReason::Rejection)
    } else {
        Ok(())
    }
}

} // verus!
