//! Handler programs.
//!
//! A handler is a straight-line program of [`Action`]s run against a working
//! copy of the actor's state. The action vocabulary captures exactly the
//! events the checkpoint rule cares about: a mutation, a local suspension
//! that never crosses the actor boundary, an outbound call that does, and an
//! unrecoverable failure.

use vstd::prelude::*;

verus! {

/// What a handler does with a failed outbound call: let the failure become
/// its own (it propagates, failing the frame), or treat the reply as
/// recovered data and continue.
#[derive(Clone, Copy, Debug)]
pub enum OnFailure {
    Propagate,
    Continue,
}

/// One step of a handler program.
#[derive(Clone, Copy, Debug)]
pub enum Action {
    /// Mutate the frame's working copy: increment the counter (wrapping).
    Increment,
    /// Suspend without crossing the actor boundary. Never a commit point.
    LocalSuspend,
    /// Issue an outbound call to `method` of actor `target` (possibly the
    /// handler's own actor) and await the reply. Always a commit point.
    Call { target: usize, method: usize, on_failure: OnFailure },
    /// Raise an unrecoverable failure. Terminal for the frame: the engine
    /// does not let a handler intercept it locally.
    Fail,
}

/// What a handler returns on normal completion, as a plain payload.
#[derive(Clone, Copy, Debug)]
pub enum ResultKind {
    /// No interesting result; the payload is 0.
    Unit,
    /// The working copy of the counter at return time.
    Counter,
    /// The value of the last successful outbound-call reply (0 if none).
    LastReply,
    /// A constant affirmative flag, encoded as 1.
    Affirm,
}

/// One entry of an actor's handler table.
pub struct Method {
    /// Whether the admission filter refuses inbound (ingress) calls to this
    /// method before any frame is created. Outbound calls relayed between
    /// actors are not filtered.
    pub protected: bool,
    /// The handler program.
    pub body: Vec<Action>,
    /// The payload returned on normal completion.
    pub result: ResultKind,
}

/// The mathematical model of a [`Method`].
#[verifier::ext_equal]
pub struct MethodModel {
    pub protected: bool,
    pub body: Seq<Action>,
    pub result: ResultKind,
}

impl View for Method {
    type V = MethodModel;

    open spec fn view(&self) -> MethodModel {
        MethodModel { protected: self.protected, body: self.body@, result: self.result }
    }
}

impl Method {
    /// Builds an unprotected method from its program and result kind.
    pub fn new(body: Vec<Action>, result: ResultKind) -> (m: Method)
        ensures
            m@ == (MethodModel { protected: false, body: body@, result }),
    {
        Method { protected: false, body, result }
    }

    /// Builds a method that the admission filter refuses at the boundary.
    pub fn new_protected(body: Vec<Action>, result: ResultKind) -> (m: Method)
        ensures
            m@ == (MethodModel { protected: true, body: body@, result }),
    {
        Method { protected: true, body, result }
    }
}

} // verus!
