//! Execution frames.
//!
//! A frame captures one handler invocation: the actor it runs against, a
//! working copy of that actor's state seeded at construction, the value of
//! its last outbound reply, the outbound calls it has issued and not yet had
//! answered, and a completion status. The scheduler owns a frame exclusively
//! for its lifetime; it is dead once completed or failed.

use vstd::prelude::*;

use crate::semantics::wrapping_inc;

verus! {

/// Where a frame stands in its lifecycle.
#[derive(Clone, Copy, Debug, PartialEq, Eq, Structural)]
pub enum FrameStatus {
    Running,
    AwaitingReply,
    Completed,
    Failed,
}

/// One outbound call issued by a frame and not yet replied to. Created when
/// the handler issues the call; consumed when the reply is delivered and the
/// frame resumes.
#[derive(Clone, Copy, Debug, PartialEq, Eq, Structural)]
pub struct OutboundCallRecord {
    pub target: usize,
    pub method: usize,
}

/// One in-flight handler invocation.
pub struct ExecutionFrame {
    /// The actor this frame runs against.
    pub actor: usize,
    /// The frame's private working copy of the actor's state. Mutations land
    /// here; they reach the state cell only through a commit.
    pub working: u64,
    /// The value carried by the last successful outbound reply (0 if none).
    pub last_reply: u64,
    /// The frame's completion status.
    pub status: FrameStatus,
    /// Outbound calls issued and not yet replied to, in issue order.
    pub pending: Vec<OutboundCallRecord>,
}

impl ExecutionFrame {
    /// Creates the frame for a fresh dispatch, its working copy seeded from
    /// the actor's committed cell value.
    pub fn new(actor: usize, seed: u64) -> (frame: ExecutionFrame)
        ensures
            frame.actor == actor,
            frame.working == seed,
            frame.last_reply == 0,
            frame.status is Running,
            frame.pending@ == Seq::<OutboundCallRecord>::empty(),
    {
        ExecutionFrame { actor, working: seed, last_reply: 0, status: FrameStatus::Running, pending: Vec::new() }
    }

    /// Mutates the working copy: a wrapping increment. The state cell is not
    /// touched.
    pub fn increment(&mut self)
        requires
            old(self).status is Running,
        ensures
            final(self).working == wrapping_inc(old(self).working),
            final(self).actor == old(self).actor,
            final(self).last_reply == old(self).last_reply,
            final(self).status == old(self).status,
            final(self).pending == old(self).pending,
    {
        if self.working == 0xffff_ffff_ffff_ffff {
            self.working = 0;
        } else {
            self.working = self.working + 1;
        }
    }

    /// Parks the frame for an outbound call it has just issued: records the
    /// call and transitions to `AwaitingReply`. The boundary commit of the
    /// working copy is the checkpoint manager's business, not the frame's.
    pub fn park(&mut self, target: usize, method: usize)
        requires
            old(self).status is Running,
        ensures
            final(self).status is AwaitingReply,
            final(self).pending@ == old(self).pending@.push(OutboundCallRecord { target, method }),
            final(self).actor == old(self).actor,
            final(self).working == old(self).working,
            final(self).last_reply == old(self).last_reply,
    {
        self.pending.push(OutboundCallRecord { target, method });
        self.status = FrameStatus::AwaitingReply;
    }

    /// Resumes a parked frame with the reply to its most recent outbound
    /// call. The working copy is re-seeded from the current committed cell
    /// value (`seed`), which may differ from the value committed before the
    /// call if the callee mutated this actor's state.
    pub fn resume(&mut self, seed: u64, reply: Option<u64>)
        requires
            old(self).status is AwaitingReply,
            old(self).pending@.len() > 0,
        ensures
            final(self).status is Running,
            final(self).working == seed,
            final(self).last_reply == (match reply {
                Some(value) => value,
                None => old(self).last_reply,
            }),
            final(self).pending@ == old(self).pending@.drop_last(),
            final(self).actor == old(self).actor,
    {
        self.pending.pop();
        self.working = seed;
        if let Some(value) = reply {
            self.last_reply = value;
        }
        self.status = FrameStatus::Running;
    }

    /// Normal completion, after the final commit.
    pub fn complete(&mut self)
        requires
            old(self).status is Running,
        ensures
            final(self).status is Completed,
            final(self).actor == old(self).actor,
            final(self).working == old(self).working,
            final(self).last_reply == old(self).last_reply,
            final(self).pending == old(self).pending,
    {
        self.status = FrameStatus::Completed;
    }

    /// The failure controller's single operation: the frame's working copy
    /// is discarded, never written to any state cell. Rollback is purely
    /// local to the frame — it takes no reference to any cell, so commits
    /// already made on this frame's behalf are untouched by construction.
    pub fn rollback(&mut self)
        ensures
            final(self).status is Failed,
            final(self).actor == old(self).actor,
    {
        self.status = FrameStatus::Failed;
    }
}

} // verus!
