//! The failure taxonomy.

use vstd::prelude::*;

verus! {

/// Why an invocation produced no successful payload.
#[derive(Clone, Copy, Debug, PartialEq, Eq, Structural)]
pub enum FailureReason {
    /// The handler raised an unrecoverable error. The frame's uncommitted
    /// working copy was rolled back; the failure is terminal for the frame
    /// even if the handler tried to intercept it locally.
    Handler,
    /// A relayed outbound call could not be completed by the router, or its
    /// target returned a failure. Surfaced to the calling handler as an
    /// ordinary result value, which it may propagate or recover from.
    OutboundCall,
    /// The inbound call was refused by the admission filter before dispatch
    /// began; no frame was ever created.
    Rejection,
}

impl FailureReason {
    /// A human-readable description of the failure, as a caller would report
    /// it.
    pub fn message(&self) -> (text: &'static str)
        ensures
            *self is Handler ==> text@ == "canister handler failed and its frame was rolled back"@,
            *self is OutboundCall ==> text@ == "outbound call could not be completed"@,
            *self is Rejection ==> text@ == "Call rejected by inspect check"@,
    {
        match self {
            FailureReason::Handler => "canister handler failed and its frame was rolled back",
            FailureReason::OutboundCall => "outbound call could not be completed",
            FailureReason::Rejection => "Call rejected by inspect check",
        }
    }
}

} // verus!
