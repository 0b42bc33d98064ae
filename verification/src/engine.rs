//! The executable engine: actors, scheduler, router and checkpoint writes.
//!
//! A [`System`] holds one state cell and one handler table per actor. Its
//! `dispatch` runs one frame to completion, failure, or through nested
//! outbound calls, exactly as the spec semantics in [`crate::semantics`]
//! describe — the postconditions equate the two. The scheduler is strictly
//! single-threaded and cooperative: exactly one frame is active at a time
//! system-wide, and a nested dispatch (an outbound call, including a
//! self-call) runs to completion before the parked caller resumes.

use vstd::prelude::*;

use crate::action::{Action, Method, MethodModel, OnFailure, ResultKind};
use crate::checkpoint::{commits_at, SuspensionKind};
use crate::failure::FailureReason;
use crate::frame::ExecutionFrame;
use crate::inspect::inspect_message_impl;
use crate::semantics;
use crate::semantics::{routable, run_body, InboundMessage};
use crate::state_cell::StateCell;

verus! {

/// One actor's handler table. The actor's identity is its index in the
/// system; its state lives in the system's cell of the same index.
pub struct Actor {
    pub methods: Vec<Method>,
}

impl View for Actor {
    type V = Seq<MethodModel>;

    open spec fn view(&self) -> Seq<MethodModel> {
        self.methods@.map_values(|m: Method| m@)
    }
}

/// A complete actor system: one state cell and one handler table per actor,
/// driven by a single-threaded cooperative scheduler.
pub struct System {
    pub cells: Vec<StateCell>,
    pub actors: Vec<Actor>,
}

impl System {
    /// The committed cell values, actor by actor.
    pub open spec fn cell_values(&self) -> semantics::Cells {
        self.cells@.map_values(|c: StateCell| c@)
    }

    /// The handler tables, actor by actor.
    pub open spec fn tables(&self) -> semantics::Tables {
        self.actors@.map_values(|a: Actor| a@)
    }

    /// A system with no actors.
    pub fn new() -> (system: System)
        ensures
            system.cell_values() == Seq::<u64>::empty(),
            system.tables() == Seq::<Seq<MethodModel>>::empty(),
    {
        let system = System { cells: Vec::new(), actors: Vec::new() };
        proof {
            assert(system.cell_values() =~= Seq::<u64>::empty());
            assert(system.tables() =~= Seq::<Seq<MethodModel>>::empty());
        }
        system
    }

    /// Deploys one actor: a handler table together with the initial
    /// committed value of its fresh state cell. Returns the actor's id.
    pub fn add_actor(&mut self, methods: Vec<Method>, initial: u64) -> (id: usize)
        ensures
            id == old(self).cell_values().len(),
            final(self).cell_values() == old(self).cell_values().push(initial),
            final(self).tables() == old(self).tables().push(methods@.map_values(|m: Method| m@)),
    {
        let id = self.cells.len();
        let ghost table = methods@.map_values(|m: Method| m@);
        self.cells.push(StateCell::new(initial));
        self.actors.push(Actor { methods });
        proof {
            assert(self.cell_values() =~= old(self).cell_values().push(initial));
            assert(self.actors@.last()@ == table);
            assert(self.tables() =~= old(self).tables().push(table));
        }
        id
    }

    /// The number of deployed actors.
    pub fn actor_count(&self) -> (count: usize)
        ensures
            count == self.cell_values().len(),
    {
        self.cells.len()
    }

    /// Authoritative read of one actor's committed state. Synchronous, no
    /// suspension, no mutation: with no intervening commit, repeated reads
    /// return the same value.
    pub fn state_of(&self, actor: usize) -> (value: u64)
        requires
            actor < self.cell_values().len(),
        ensures
            value == self.cell_values()[actor as int],
    {
        self.cells[actor].read()
    }

    /// The checkpoint write: makes `value` the durable state of `actor`.
    /// This is the only operation that ever mutates a state cell.
    pub fn commit(&mut self, actor: usize, value: u64)
        requires
            actor < old(self).cell_values().len(),
        ensures
            final(self).cell_values() == old(self).cell_values().update(actor as int, value),
            final(self).tables() == old(self).tables(),
            final(self).actors == old(self).actors,
    {
        self.cells.set(actor, StateCell::new(value));
        proof {
            assert(self.cell_values() =~= old(self).cell_values().update(actor as int, value));
        }
    }

    /// Runs one invocation: creates a frame seeded from the actor's cell,
    /// executes the handler to completion or failure, committing exactly at
    /// outbound-call boundaries and at normal return. `fuel` bounds the
    /// depth of nested dispatches; a call past it is answered with a routing
    /// failure. Used by the router both for relayed outbound calls and,
    /// after admission, for inbound ones.
    #[verifier::loop_isolation(false)]
    pub fn dispatch(&mut self, actor: usize, method: usize, fuel: u64) -> (outcome: Result<
        u64,
        FailureReason,
    >)
        ensures
            final(self).tables() == old(self).tables(),
            final(self).cell_values().len() == old(self).cell_values().len(),
            final(self).cell_values() == semantics::dispatch(
                old(self).tables(),
                old(self).cell_values(),
                actor as int,
                method as int,
                fuel as nat,
            ).0,
            outcome == semantics::dispatch(
                old(self).tables(),
                old(self).cell_values(),
                actor as int,
                method as int,
                fuel as nat,
            ).1,
        decreases fuel,
    {
        let ghost tables0 = self.tables();
        let ghost cells0 = self.cell_values();
        if !(actor < self.cells.len() && actor < self.actors.len() && method
            < self.actors[actor].methods.len()) {
            proof {
                assert(!routable(tables0, cells0, actor as int, method as int));
            }
            return Err(FailureReason::Rejection);
        }
        let ghost m = tables0[actor as int][method as int];
        proof {
            assert(routable(tables0, cells0, actor as int, method as int));
            assert(m == self.actors@[actor as int].methods@[method as int]@);
        }
        let ghost whole = run_body(
            tables0,
            cells0,
            actor as int,
            cells0[actor as int],
            0,
            m.body,
            m.result,
            fuel as nat,
        );

        // A fresh frame, its working copy seeded from the committed cell.
        let seed = self.cells[actor].read();
        let mut frame = ExecutionFrame::new(actor, seed);
        proof {
            assert(whole == semantics::dispatch(
                tables0,
                cells0,
                actor as int,
                method as int,
                fuel as nat,
            ));
            assert(m.body.skip(0) =~= m.body);
        }

        let body_len = self.actors[actor].methods[method].body.len();
        let mut idx: usize = 0;
        while idx < body_len
            invariant
                idx <= body_len,
                actor < self.cells.len(),
                actor < self.actors.len(),
                method < self.actors@[actor as int].methods@.len(),
                self.tables() == tables0,
                self.cell_values().len() == cells0.len(),
                routable(tables0, cells0, actor as int, method as int),
                m == tables0[actor as int][method as int],
                body_len == m.body.len(),
                frame.status is Running,
                frame.actor == actor,
                whole == run_body(
                    tables0,
                    self.cell_values(),
                    actor as int,
                    frame.working,
                    frame.last_reply,
                    m.body.skip(idx as int),
                    m.result,
                    fuel as nat,
                ),
            decreases body_len - idx,
        {
            let ghost rest = m.body.skip(idx as int);
            let ghost cells_here = self.cell_values();
            proof {
                assert(rest.len() == body_len - idx);
                assert(rest[0] == m.body[idx as int]);
                assert(rest.drop_first() =~= m.body.skip(idx as int + 1));
            }
            let action = self.actors[actor].methods[method].body[idx];
            proof {
                assert(self.actors@[actor as int]@ == tables0[actor as int]);
                assert(self.actors@[actor as int].methods@[method as int]@.body
                    == m.body);
                assert(action == m.body[idx as int]);
            }
            match action {
                Action::Increment => {
                    frame.increment();
                },
                Action::LocalSuspend => {
                    // A local suspension: the scheduler may run other ready
                    // work, but the frame keeps exclusive ownership of its
                    // working copy and nothing is committed.
                    if commits_at(SuspensionKind::Local) {
                        self.commit(actor, frame.working);
                    }
                },
                Action::Fail => {
                    // Unrecoverable failure: the checkpoint manager declines,
                    // and the rollback controller discards the working copy.
                    // The cells keep exactly the values of the frame's last
                    // commit point.
                    if commits_at(SuspensionKind::Failure) {
                        self.commit(actor, frame.working);
                    }
                    frame.rollback();
                    proof {
                        assert(whole == (cells_here, Err::<u64, FailureReason>(
                            FailureReason::Handler,
                        )));
                    }
                    return Err(FailureReason::Handler);
                },
                Action::Call { target, method: callee_method, on_failure } => {
                    // The boundary commit: the working copy becomes durable
                    // before the frame parks. Permanent from here on.
                    if commits_at(SuspensionKind::Outbound) {
                        self.commit(actor, frame.working);
                    }
                    frame.park(target, callee_method);
                    let ghost committed = cells_here.update(actor as int, frame.working);
                    let reply = if fuel == 0 {
                        Err(FailureReason::OutboundCall)
                    } else {
                        self.dispatch(target, callee_method, fuel - 1)
                    };
                    let ghost callee = if fuel == 0 {
                        (committed, Err::<u64, FailureReason>(FailureReason::OutboundCall))
                    } else {
                        semantics::dispatch(
                            tables0,
                            committed,
                            target as int,
                            callee_method as int,
                            (fuel - 1) as nat,
                        )
                    };
                    proof {
                        assert(self.cell_values() == callee.0);
                        assert(reply == callee.1);
                    }
                    let propagate = match on_failure {
                        OnFailure::Propagate => true,
                        OnFailure::Continue => false,
                    };
                    match reply {
                        Err(_) => {
                            if propagate {
                                // The handler lets the call failure become its
                                // own: terminal for the frame, so everything
                                // since the boundary commit is discarded.
                                frame.rollback();
                                proof {
                                    assert(whole == (callee.0, Err::<u64, FailureReason>(
                                        FailureReason::Handler,
                                    )));
                                }
                                return Err(FailureReason::Handler);
                            } else {
                                // Recovered: resume with a fresh working copy
                                // seeded from the current cell; the reply
                                // carries no value.
                                let resumed = self.cells[actor].read();
                                frame.resume(resumed, None);
                            }
                        },
                        Ok(value) => {
                            let resumed = self.cells[actor].read();
                            frame.resume(resumed, Some(value));
                        },
                    }
                },
            }
            idx = idx + 1;
        }

        // Normal return: the final working copy is committed and the frame
        // completes.
        proof {
            assert(m.body.skip(body_len as int) =~= Seq::<Action>::empty());
        }
        if commits_at(SuspensionKind::Return) {
            self.commit(actor, frame.working);
        }
        let kind = self.actors[actor].methods[method].result;
        proof {
            assert(kind == m.result);
        }
        let payload = match kind {
            ResultKind::Unit => 0u64,
            ResultKind::Counter => frame.working,
            ResultKind::LastReply => frame.last_reply,
            ResultKind::Affirm => 1u64,
        };
        frame.complete();
        Ok(payload)
    }

    /// The boundary entry point for ingress traffic: the admission filter
    /// inspects the target method first, and a refused call never creates a
    /// frame. Admitted calls dispatch as usual.
    pub fn inbound_dispatch(&mut self, actor: usize, method: usize, fuel: u64) -> (outcome:
        Result<u64, FailureReason>)
        ensures
            final(self).tables() == old(self).tables(),
            final(self).cell_values().len() == old(self).cell_values().len(),
            final(self).cell_values() == semantics::inbound_dispatch(
                old(self).tables(),
                old(self).cell_values(),
                actor as int,
                method as int,
                fuel as nat,
            ).0,
            outcome == semantics::inbound_dispatch(
                old(self).tables(),
                old(self).cell_values(),
                actor as int,
                method as int,
                fuel as nat,
            ).1,
    {
        if actor < self.cells.len() && actor < self.actors.len() && method
            < self.actors[actor].methods.len() {
            proof {
                assert(routable(self.tables(), self.cell_values(), actor as int, method as int));
                assert(self.actors@[actor as int].methods@[method as int]@
                    == self.tables()[actor as int][method as int]);
            }
            match inspect_message_impl(&self.actors[actor].methods[method]) {
                Err(reason) => {
                    return Err(reason);
                },
                Ok(_) => {},
            }
        }
        self.dispatch(actor, method, fuel)
    }

    /// The router's serial delivery of a queue of inbound calls: strictly in
    /// arrival order, each dispatch run to completion before the next
    /// begins. Returns the outcome of every call, in the same order.
    #[verifier::loop_isolation(false)]
    pub fn run_inbound_queue(&mut self, queue: &Vec<InboundMessage>, fuel: u64) -> (outcomes:
        Vec<Result<u64, FailureReason>>)
        ensures
            final(self).tables() == old(self).tables(),
            final(self).cell_values().len() == old(self).cell_values().len(),
            final(self).cell_values() == semantics::route(
                old(self).tables(),
                old(self).cell_values(),
                queue@,
                fuel as nat,
            ),
            outcomes@ == semantics::route_outcomes(
                old(self).tables(),
                old(self).cell_values(),
                queue@,
                fuel as nat,
            ),
    {
        let ghost tables0 = self.tables();
        let ghost cells0 = self.cell_values();
        let mut outcomes: Vec<Result<u64, FailureReason>> = Vec::new();
        let mut idx: usize = 0;
        proof {
            assert(queue@.skip(0) =~= queue@);
        }
        while idx < queue.len()
            invariant
                idx <= queue@.len(),
                self.tables() == tables0,
                self.cell_values().len() == cells0.len(),
                outcomes@.len() == idx,
                semantics::route(tables0, cells0, queue@, fuel as nat) == semantics::route(
                    tables0,
                    self.cell_values(),
                    queue@.skip(idx as int),
                    fuel as nat,
                ),
                semantics::route_outcomes(tables0, cells0, queue@, fuel as nat) == outcomes@
                    + semantics::route_outcomes(
                    tables0,
                    self.cell_values(),
                    queue@.skip(idx as int),
                    fuel as nat,
                ),
            decreases queue@.len() - idx,
        {
            let ghost rest = queue@.skip(idx as int);
            proof {
                assert(rest[0] == queue@[idx as int]);
                assert(rest.drop_first() =~= queue@.skip(idx as int + 1));
            }
            let message = queue[idx];
            let outcome = self.inbound_dispatch(message.actor, message.method, fuel);
            outcomes.push(outcome);
            proof {
                assert(outcomes@ + semantics::route_outcomes(
                    tables0,
                    self.cell_values(),
                    queue@.skip(idx as int + 1),
                    fuel as nat,
                ) =~= outcomes@.drop_last() + (seq![outcome]
                    + semantics::route_outcomes(
                    tables0,
                    self.cell_values(),
                    queue@.skip(idx as int + 1),
                    fuel as nat,
                )));
            }
            idx = idx + 1;
        }
        proof {
            assert(queue@.skip(queue@.len() as int) =~= Seq::<InboundMessage>::empty());
            assert(outcomes@ + Seq::<Result<u64, FailureReason>>::empty() =~= outcomes@);
        }
        outcomes
    }
}

} // verus!
