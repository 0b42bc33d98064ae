//! The mathematical semantics of dispatch.
//!
//! These spec functions say what the engine computes: given the handler
//! tables of every actor, the committed cell values, and an invocation, they
//! return the cell values after the invocation together with its outcome.
//! The executable engine is proved to agree with them exactly.
//!
//! The commit rule is visible in the structure of [`run_body`]:
//! - an `Increment` or `LocalSuspend` touches only the frame's working copy;
//! - a `Call` first writes the working copy into the caller's cell (the
//!   boundary commit), then runs the callee as an independent dispatch, then
//!   resumes with a fresh working copy seeded from the now-current cell;
//! - a `Fail` abandons the working copy, leaving the cells exactly as of the
//!   last commit point;
//! - a normal return commits the working copy once more.

use vstd::prelude::*;

use crate::action::{Action, MethodModel, OnFailure, ResultKind};
use crate::failure::FailureReason;

verus! {

/// The handler tables of every actor: `tables[a][m]` is method `m` of actor
/// `a`.
pub type Tables = Seq<Seq<MethodModel>>;

/// The committed cell values of every actor.
pub type Cells = Seq<u64>;

/// The result of one invocation: the committed cell values after it, and its
/// outcome.
pub type RunResult = (Cells, Result<u64, FailureReason>);

/// The effect of the `Increment` action on a working copy: a wrapping
/// increment.
pub open spec fn wrapping_inc(value: u64) -> u64 {
    if value == 0xffff_ffff_ffff_ffff {
        0
    } else {
        (value + 1) as u64
    }
}

/// The payload a handler returns on normal completion.
pub open spec fn return_payload(kind: ResultKind, working: u64, last_reply: u64) -> u64 {
    match kind {
        ResultKind::Unit => 0,
        ResultKind::Counter => working,
        ResultKind::LastReply => last_reply,
        ResultKind::Affirm => 1,
    }
}

/// Whether an invocation of actor `actor`, method `method` is deliverable at
/// all: the actor exists and has that method.
pub open spec fn routable(tables: Tables, cells: Cells, actor: int, method: int) -> bool {
    &&& 0 <= actor < cells.len()
    &&& 0 <= actor < tables.len()
    &&& 0 <= method < tables[actor].len()
}

/// Runs the rest of a handler body within one frame.
///
/// `working` and `last_reply` are the frame's working copy and the value of
/// its last successful outbound reply; `cells` always holds committed values
/// only. `fuel` bounds the depth of nested dispatches: when it runs out, an
/// outbound call is answered with a routing failure instead of a reply.
pub open spec fn run_body(
    tables: Tables,
    cells: Cells,
    actor: int,
    working: u64,
    last_reply: u64,
    body: Seq<Action>,
    kind: ResultKind,
    fuel: nat,
) -> RunResult
    decreases fuel, body.len(), 0int,
{
    if body.len() == 0 {
        // Normal return: the final working copy is committed.
        (cells.update(actor, working), Ok(return_payload(kind, working, last_reply)))
    } else {
        match body[0] {
            Action::Increment => run_body(
                tables,
                cells,
                actor,
                wrapping_inc(working),
                last_reply,
                body.drop_first(),
                kind,
                fuel,
            ),
            // A local suspension is not a commit point: the frame keeps its
            // working copy and nothing becomes durable.
            Action::LocalSuspend => run_body(
                tables,
                cells,
                actor,
                working,
                last_reply,
                body.drop_first(),
                kind,
                fuel,
            ),
            Action::Fail => (cells, Err(FailureReason::Handler)),
            Action::Call { target, method, on_failure } => {
                // The boundary commit: before the frame parks, its working
                // copy becomes durable. This commit is permanent regardless
                // of what happens later in the frame.
                let committed = cells.update(actor, working);
                let callee = if fuel == 0 {
                    (committed, Err(FailureReason::OutboundCall))
                } else {
                    dispatch(tables, committed, target as int, method as int, (fuel - 1) as nat)
                };
                if callee.1 is Err && on_failure is Propagate {
                    (callee.0, Err(FailureReason::Handler))
                } else {
                    // Resume with a fresh working copy seeded from the
                    // current cell, which the callee may have changed.
                    let reply = match callee.1 {
                        Ok(value) => value,
                        Err(_) => last_reply,
                    };
                    run_body(
                        tables,
                        callee.0,
                        actor,
                        callee.0[actor],
                        reply,
                        body.drop_first(),
                        kind,
                        fuel,
                    )
                }
            },
        }
    }
}

/// One dispatch: a fresh frame seeded from the actor's committed cell runs
/// the method's body to completion, failure, or a nested call. An invocation
/// that cannot be routed is refused before any frame is created.
pub open spec fn dispatch(tables: Tables, cells: Cells, actor: int, method: int, fuel: nat) -> RunResult
    decreases fuel, tables[actor][method].body.len() + 1, 0int,
{
    if !routable(tables, cells, actor, method) {
        (cells, Err(FailureReason::Rejection))
    } else {
        let m = tables[actor][method];
        run_body(tables, cells, actor, cells[actor], 0, m.body, m.result, fuel)
    }
}

/// An inbound (ingress) dispatch: the admission filter refuses a protected
/// method before any frame is created. Outbound calls relayed between actors
/// use [`dispatch`] directly and bypass the filter.
pub open spec fn inbound_dispatch(tables: Tables, cells: Cells, actor: int, method: int, fuel: nat) -> RunResult {
    if routable(tables, cells, actor, method) && tables[actor][method].protected {
        (cells, Err(FailureReason::Rejection))
    } else {
        dispatch(tables, cells, actor, method, fuel)
    }
}

/// One inbound call as the router queues it.
#[derive(Clone, Copy, Debug)]
pub struct InboundMessage {
    pub actor: usize,
    pub method: usize,
}

/// The router's serialization of inbound traffic: the queue is processed
/// strictly in arrival order, one complete dispatch at a time; no two
/// handlers ever run interleaved.
pub open spec fn route(tables: Tables, cells: Cells, queue: Seq<InboundMessage>, fuel: nat) -> Cells
    decreases queue.len(),
{
    if queue.len() == 0 {
        cells
    } else {
        let first = inbound_dispatch(
            tables,
            cells,
            queue[0].actor as int,
            queue[0].method as int,
            fuel,
        );
        route(tables, first.0, queue.drop_first(), fuel)
    }
}

/// The outcome of every call of a serially processed queue, in arrival
/// order.
pub open spec fn route_outcomes(
    tables: Tables,
    cells: Cells,
    queue: Seq<InboundMessage>,
    fuel: nat,
) -> Seq<Result<u64, FailureReason>>
    decreases queue.len(),
{
    if queue.len() == 0 {
        Seq::empty()
    } else {
        let first = inbound_dispatch(
            tables,
            cells,
            queue[0].actor as int,
            queue[0].method as int,
            fuel,
        );
        seq![first.1] + route_outcomes(tables, first.0, queue.drop_first(), fuel)
    }
}

} // verus!
