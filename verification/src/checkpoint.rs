//! The checkpoint manager's commit decision.
//!
//! A frame stops running for one of four reasons. The decision whether its
//! working copy becomes durable is made by inspecting *why* it stopped,
//! never merely *that* it stopped: crossing the actor boundary (an outbound
//! call) and a normal return commit; a local suspension and a failure do
//! not.

use vstd::prelude::*;

verus! {

/// Why a frame stopped running.
#[derive(Clone, Copy, Debug, PartialEq, Eq, Structural)]
pub enum SuspensionKind {
    /// An await that does not cross the actor boundary.
    Local,
    /// An outbound call to another actor, or to the frame's own actor.
    Outbound,
    /// The handler returned normally.
    Return,
    /// The handler raised an unrecoverable failure.
    Failure,
}

/// The commit rule: only an outbound call or a normal return makes the
/// working copy durable.
pub open spec fn spec_commits_at(kind: SuspensionKind) -> bool {
    match kind {
        SuspensionKind::Local => false,
        SuspensionKind::Outbound => true,
        SuspensionKind::Return => true,
        SuspensionKind::Failure => false,
    }
}

/// The checkpoint manager's decision at a suspension point.
pub fn commits_at(kind: SuspensionKind) -> (commit: bool)
    ensures
        commit == spec_commits_at(kind),
{
    match kind {
        SuspensionKind::Local => false,
        SuspensionKind::Outbound => true,
        SuspensionKind::Return => true,
        SuspensionKind::Failure => false,
    }
}

} // verus!
