//! The two demonstration canisters.
//!
//! Canister A holds a counter and a family of handlers that exercise every
//! commit/rollback path: plain mutation, mutation followed by failure, a
//! local suspension before the failure, an outbound call to canister B or to
//! canister A itself before the failure, and a method the admission filter
//! refuses. Canister B holds its own counter with a getter and an increment.
//!
//! Each public function here drives one inbound call through the engine and
//! carries the scenario's exact outcome in its contract.

use vstd::prelude::*;

use vstd::pervasive::unreached;

use crate::action::{Action, Method, OnFailure, ResultKind};
use crate::engine::System;
use crate::failure::FailureReason;
use crate::semantics;
use crate::semantics::{run_body, wrapping_inc, Tables};

verus! {

/// Canister A's actor id.
pub const CANISTER_A: usize = 0;

/// Canister B's actor id.
pub const CANISTER_B: usize = 1;

/// A target id that routes nowhere, standing in for an anonymous principal:
/// outbound calls to it fail at routing.
pub const ANONYMOUS_TARGET: usize = 0xffff_ffff;

/// Method indices of canister A.
pub const GET_COUNTER: usize = 0;

pub const INCREASE_COUNTER: usize = 1;

pub const INCREASE_COUNTER_PANIC: usize = 2;

pub const INCREASE_COUNTER_THEN_CALL_ASYNC_FN_THEN_PANIC: usize = 3;

pub const INCREASE_COUNTER_THEN_CALL_ANOTHER_CANISTER_THEN_PANIC: usize = 4;

pub const INCREASE_COUNTER_THEN_CALL_SAME_CANISTER_THEN_PANIC: usize = 5;

pub const GET_COUNTER_FROM_ANOTHER_CANISTER: usize = 6;

pub const CATCH_PANIC: usize = 7;

pub const PROTECTED_BY_INSPECT_MESSAGE: usize = 8;

/// Method indices of canister B.
pub const B_GET_COUNTER: usize = 0;

pub const B_INC: usize = 1;

/// Canister B's counter starts here, so a cross-canister read is
/// distinguishable from a local one.
pub const CANISTER_B_INITIAL_COUNTER: u64 = 999_999_999;

/// Depth budget handed to the engine for the demonstration calls. Their
/// deepest chain is one nested dispatch, so any positive budget does.
pub const DEMO_FUEL: u64 = 4;

/// Deployment-time argument: which actor canister A's cross-canister calls
/// target.
#[derive(Clone, Copy, Debug)]
pub struct InitArgs {
    pub canister_b_principal: usize,
}

/// Canister A's configuration.
pub struct Config {
    pub canister_b_principal: usize,
}

impl Default for Config {
    /// Before deployment configures it, the cross-canister target is the
    /// anonymous placeholder, which no routing can reach.
    fn default() -> (config: Config)
        ensures
            config.canister_b_principal == ANONYMOUS_TARGET,
    {
        Config { canister_b_principal: ANONYMOUS_TARGET }
    }
}

/// Canister A's handler table, with its cross-canister calls aimed at
/// `canister_b`.
pub open spec fn canister_a_table(canister_b: usize) -> Seq<crate::action::MethodModel> {
    seq![
        // get_counter
        crate::action::MethodModel {
            protected: false,
            body: seq![],
            result: ResultKind::Counter,
        },
        // increase_counter
        crate::action::MethodModel {
            protected: false,
            body: seq![Action::Increment],
            result: ResultKind::Unit,
        },
        // increase_counter_panic
        crate::action::MethodModel {
            protected: false,
            body: seq![Action::Increment, Action::Fail],
            result: ResultKind::Unit,
        },
        // increase_counter_then_call_async_fn_then_panic
        crate::action::MethodModel {
            protected: false,
            body: seq![
                Action::Increment,
                Action::LocalSuspend,
                Action::Increment,
                Action::Fail,
            ],
            result: ResultKind::Unit,
        },
        // increase_counter_then_call_another_canister_then_panic
        crate::action::MethodModel {
            protected: false,
            body: seq![
                Action::Increment,
                Action::Call {
                    target: canister_b,
                    method: B_GET_COUNTER,
                    on_failure: OnFailure::Propagate,
                },
                Action::Increment,
                Action::Fail,
            ],
            result: ResultKind::Unit,
        },
        // increase_counter_then_call_same_canister_then_panic
        crate::action::MethodModel {
            protected: false,
            body: seq![
                Action::Increment,
                Action::Call {
                    target: CANISTER_A,
                    method: GET_COUNTER,
                    on_failure: OnFailure::Propagate,
                },
                Action::Increment,
                Action::Fail,
            ],
            result: ResultKind::Unit,
        },
        // get_counter_from_another_canister
        crate::action::MethodModel {
            protected: false,
            body: seq![
                Action::Call {
                    target: canister_b,
                    method: B_GET_COUNTER,
                    on_failure: OnFailure::Propagate,
                },
            ],
            result: ResultKind::LastReply,
        },
        // catch_panic: the failure is terminal for the frame even though the
        // handler tries to intercept it locally.
        crate::action::MethodModel {
            protected: false,
            body: seq![Action::Fail],
            result: ResultKind::Unit,
        },
        // protected_by_inspect_message
        crate::action::MethodModel {
            protected: true,
            body: seq![],
            result: ResultKind::Affirm,
        },
    ]
}

/// Canister B's handler table.
pub open spec fn canister_b_table() -> Seq<crate::action::MethodModel> {
    seq![
        // get_counter
        crate::action::MethodModel {
            protected: false,
            body: seq![],
            result: ResultKind::Counter,
        },
        // inc
        crate::action::MethodModel {
            protected: false,
            body: seq![Action::Increment],
            result: ResultKind::Unit,
        },
    ]
}

/// The deployed pair of demonstration actors.
pub open spec fn demo_tables(canister_b: usize) -> Tables {
    seq![canister_a_table(canister_b), canister_b_table()]
}

/// A correctly deployed demonstration system: both actors present, canister
/// A's cross-canister calls aimed at canister B.
pub open spec fn is_demo(system: System) -> bool {
    &&& system.tables() == demo_tables(CANISTER_B)
    &&& system.cell_values().len() == 2
}

/// Deploys the two canisters: A's counter at 0, B's at its distinguished
/// initial value, A configured to call the actor `arg` names.
pub fn init(arg: InitArgs) -> (system: System)
    ensures
        system.tables() == demo_tables(arg.canister_b_principal),
        system.cell_values() == seq![0u64, CANISTER_B_INITIAL_COUNTER],
{
    let config = Config { canister_b_principal: arg.canister_b_principal };
    let b = config.canister_b_principal;

    let mut a_methods: Vec<Method> = Vec::new();

    // get_counter
    a_methods.push(Method::new(Vec::new(), ResultKind::Counter));

    // increase_counter
    let mut body: Vec<Action> = Vec::new();
    body.push(Action::Increment);
    a_methods.push(Method::new(body, ResultKind::Unit));

    // increase_counter_panic
    let mut body: Vec<Action> = Vec::new();
    body.push(Action::Increment);
    body.push(Action::Fail);
    a_methods.push(Method::new(body, ResultKind::Unit));

    // increase_counter_then_call_async_fn_then_panic
    let mut body: Vec<Action> = Vec::new();
    body.push(Action::Increment);
    body.push(Action::LocalSuspend);
    body.push(Action::Increment);
    body.push(Action::Fail);
    a_methods.push(Method::new(body, ResultKind::Unit));

    // increase_counter_then_call_another_canister_then_panic
    let mut body: Vec<Action> = Vec::new();
    body.push(Action::Increment);
    body.push(Action::Call { target: b, method: B_GET_COUNTER, on_failure: OnFailure::Propagate });
    body.push(Action::Increment);
    body.push(Action::Fail);
    a_methods.push(Method::new(body, ResultKind::Unit));

    // increase_counter_then_call_same_canister_then_panic
    let mut body: Vec<Action> = Vec::new();
    body.push(Action::Increment);
    body.push(
        Action::Call { target: CANISTER_A, method: GET_COUNTER, on_failure: OnFailure::Propagate },
    );
    body.push(Action::Increment);
    body.push(Action::Fail);
    a_methods.push(Method::new(body, ResultKind::Unit));

    // get_counter_from_another_canister
    let mut body: Vec<Action> = Vec::new();
    body.push(Action::Call { target: b, method: B_GET_COUNTER, on_failure: OnFailure::Propagate });
    a_methods.push(Method::new(body, ResultKind::LastReply));

    // catch_panic
    let mut body: Vec<Action> = Vec::new();
    body.push(Action::Fail);
    a_methods.push(Method::new(body, ResultKind::Unit));

    // protected_by_inspect_message
    a_methods.push(Method::new_protected(Vec::new(), ResultKind::Affirm));

    let mut b_methods: Vec<Method> = Vec::new();

    // get_counter
    b_methods.push(Method::new(Vec::new(), ResultKind::Counter));

    // inc
    let mut body: Vec<Action> = Vec::new();
    body.push(Action::Increment);
    b_methods.push(Method::new(body, ResultKind::Unit));

    let ghost a_table = a_methods@.map_values(|m: Method| m@);
    let ghost b_table = b_methods@.map_values(|m: Method| m@);
    let mut system = System::new();
    let _a_id = system.add_actor(a_methods, 0);
    let _b_id = system.add_actor(b_methods, CANISTER_B_INITIAL_COUNTER);
    proof {
        assert(a_table =~~= canister_a_table(b));
        assert(b_table =~~= canister_b_table());
        assert(system.tables() =~= demo_tables(b));
        assert(system.cell_values() =~= seq![0u64, CANISTER_B_INITIAL_COUNTER]);
    }
    system
}

/// Reads canister A's committed counter. A query: it never changes any cell.
pub fn get_counter(system: &mut System) -> (counter: u64)
    requires
        is_demo(*old(system)),
    ensures
        is_demo(*final(system)),
        final(system).cell_values() == old(system).cell_values(),
        counter == old(system).cell_values()[CANISTER_A as int],
{
    let ghost t = demo_tables(CANISTER_B);
    let ghost c0 = old(system).cell_values();
    let outcome = system.inbound_dispatch(CANISTER_A, GET_COUNTER, DEMO_FUEL);
    proof {
        reveal_with_fuel(run_body, 3);
        assert(c0.update(CANISTER_A as int, c0[CANISTER_A as int]) =~= c0);
        assert(outcome == Ok::<u64, FailureReason>(c0[CANISTER_A as int]));
    }
    match outcome {
        Ok(value) => value,
        Err(_) => unreached(),
    }
}

/// Increments canister A's counter by one (wrapping) and commits it at the
/// handler's normal return.
pub fn increase_counter(system: &mut System)
    requires
        is_demo(*old(system)),
    ensures
        is_demo(*final(system)),
        final(system).cell_values() == old(system).cell_values().update(
            CANISTER_A as int,
            wrapping_inc(old(system).cell_values()[CANISTER_A as int]),
        ),
{
    let ghost c0 = old(system).cell_values();
    let outcome = system.inbound_dispatch(CANISTER_A, INCREASE_COUNTER, DEMO_FUEL);
    proof {
        let t = demo_tables(CANISTER_B);
        let m = t[CANISTER_A as int][INCREASE_COUNTER as int];
        let fuel = DEMO_FUEL as nat;
        let full = semantics::inbound_dispatch(t, c0, CANISTER_A as int, INCREASE_COUNTER as int, fuel);
        let r0 = run_body(t, c0, 0, c0[0], 0, m.body, m.result, fuel);
        assert(full == r0);
        assert(m.body[0] == Action::Increment);
        let r1 = run_body(t, c0, 0, wrapping_inc(c0[0]), 0, m.body.drop_first(), m.result, fuel);
        assert(r0 == r1);
        assert(m.body.drop_first().len() == 0);
        assert(r1 == (c0.update(0, wrapping_inc(c0[0])), Ok::<u64, FailureReason>(0)));
        assert(outcome == Ok::<u64, FailureReason>(0));
    }
    match outcome {
        Ok(_) => (),
        Err(_) => unreached(),
    }
}

/// Increments the counter, then fails without ever calling out. The whole
/// mutation is rolled back: every cell is exactly as before the call.
pub fn increase_counter_panic(system: &mut System) -> (outcome: Result<u64, FailureReason>)
    requires
        is_demo(*old(system)),
    ensures
        is_demo(*final(system)),
        final(system).cell_values() == old(system).cell_values(),
        outcome == Err::<u64, FailureReason>(FailureReason::Handler),
{
    let ghost c0 = old(system).cell_values();
    let outcome = system.inbound_dispatch(CANISTER_A, INCREASE_COUNTER_PANIC, DEMO_FUEL);
    proof {
        let t = demo_tables(CANISTER_B);
        let m = t[CANISTER_A as int][INCREASE_COUNTER_PANIC as int];
        let full = semantics::inbound_dispatch(
            t,
            c0,
            CANISTER_A as int,
            INCREASE_COUNTER_PANIC as int,
            DEMO_FUEL as nat,
        );
        let r0 = run_body(t, c0, 0, c0[0], 0, m.body, m.result, DEMO_FUEL as nat);
        assert(full == r0);
        let r1 = run_body(
            t,
            c0,
            0,
            wrapping_inc(c0[0]),
            0,
            m.body.drop_first(),
            m.result,
            DEMO_FUEL as nat,
        );
        assert(r0 == r1);
        assert(m.body.drop_first()[0] == Action::Fail);
        assert(r1 == (c0, Err::<u64, FailureReason>(FailureReason::Handler)));
    }
    outcome
}

/// Increments, suspends locally without any outbound call, increments again,
/// then fails. The local suspension is not a commit point, so the rollback
/// is total: every cell is exactly as before the call.
pub fn increase_counter_then_call_async_fn_then_panic(system: &mut System) -> (outcome: Result<
    u64,
    FailureReason,
>)
    requires
        is_demo(*old(system)),
    ensures
        is_demo(*final(system)),
        final(system).cell_values() == old(system).cell_values(),
        outcome == Err::<u64, FailureReason>(FailureReason::Handler),
{
    let ghost c0 = old(system).cell_values();
    let outcome = system.inbound_dispatch(
        CANISTER_A,
        INCREASE_COUNTER_THEN_CALL_ASYNC_FN_THEN_PANIC,
        DEMO_FUEL,
    );
    proof {
        let t = demo_tables(CANISTER_B);
        let m = t[CANISTER_A as int][INCREASE_COUNTER_THEN_CALL_ASYNC_FN_THEN_PANIC as int];
        let fuel = DEMO_FUEL as nat;
        let full = semantics::inbound_dispatch(
            t,
            c0,
            CANISTER_A as int,
            INCREASE_COUNTER_THEN_CALL_ASYNC_FN_THEN_PANIC as int,
            fuel,
        );
        let d1 = m.body.drop_first();
        let d2 = d1.drop_first();
        let d3 = d2.drop_first();
        let w1 = wrapping_inc(c0[0]);
        let w2 = wrapping_inc(w1);
        let r0 = run_body(t, c0, 0, c0[0], 0, m.body, m.result, fuel);
        assert(full == r0);
        assert(m.body[0] == Action::Increment);
        let r1 = run_body(t, c0, 0, w1, 0, d1, m.result, fuel);
        assert(r0 == r1);
        assert(d1[0] == Action::LocalSuspend);
        let r2 = run_body(t, c0, 0, w1, 0, d2, m.result, fuel);
        assert(r1 == r2);
        assert(d2[0] == Action::Increment);
        let r3 = run_body(t, c0, 0, w2, 0, d3, m.result, fuel);
        assert(r2 == r3);
        assert(d3[0] == Action::Fail);
        assert(r3 == (c0, Err::<u64, FailureReason>(FailureReason::Handler)));
    }
    outcome
}

/// Increments, calls canister B (a boundary: the increment is committed),
/// increments again, then fails. Only the post-call increment is rolled
/// back: the counter keeps exactly the pre-call commit.
pub fn increase_counter_then_call_another_canister_then_panic(system: &mut System) -> (outcome:
    Result<u64, FailureReason>)
    requires
        is_demo(*old(system)),
    ensures
        is_demo(*final(system)),
        final(system).cell_values() == old(system).cell_values().update(
            CANISTER_A as int,
            wrapping_inc(old(system).cell_values()[CANISTER_A as int]),
        ),
        outcome == Err::<u64, FailureReason>(FailureReason::Handler),
{
    let ghost c0 = old(system).cell_values();
    let outcome = system.inbound_dispatch(
        CANISTER_A,
        INCREASE_COUNTER_THEN_CALL_ANOTHER_CANISTER_THEN_PANIC,
        DEMO_FUEL,
    );
    proof {
        let t = demo_tables(CANISTER_B);
        let m = t[CANISTER_A as int][INCREASE_COUNTER_THEN_CALL_ANOTHER_CANISTER_THEN_PANIC as int];
        let fuel = DEMO_FUEL as nat;
        let full = semantics::inbound_dispatch(
            t,
            c0,
            CANISTER_A as int,
            INCREASE_COUNTER_THEN_CALL_ANOTHER_CANISTER_THEN_PANIC as int,
            fuel,
        );
        let d1 = m.body.drop_first();
        let d2 = d1.drop_first();
        let d3 = d2.drop_first();
        let w1 = wrapping_inc(c0[0]);
        let r0 = run_body(t, c0, 0, c0[0], 0, m.body, m.result, fuel);
        assert(full == r0);
        assert(m.body[0] == Action::Increment);
        let r1 = run_body(t, c0, 0, w1, 0, d1, m.result, fuel);
        assert(r0 == r1);
        assert(d1[0] == (Action::Call {
            target: CANISTER_B,
            method: B_GET_COUNTER,
            on_failure: OnFailure::Propagate,
        }));
        // The boundary commit, then the callee: canister B's pure getter.
        let committed = c0.update(0, w1);
        let callee_body = t[CANISTER_B as int][B_GET_COUNTER as int].body;
        let rb = run_body(t, committed, 1, committed[1], 0, callee_body, ResultKind::Counter, (fuel - 1) as nat);
        assert(rb == (committed.update(1, committed[1]), Ok::<u64, FailureReason>(committed[1])));
        assert(committed.update(1, committed[1]) =~= committed);
        assert(semantics::dispatch(t, committed, CANISTER_B as int, B_GET_COUNTER as int, (fuel - 1) as nat)
            == (committed, Ok::<u64, FailureReason>(committed[1])));
        // Resume with a fresh working copy seeded from the committed cell.
        assert(committed[0] == w1);
        let r2 = run_body(t, committed, 0, w1, committed[1], d2, m.result, fuel);
        assert(r1 == r2);
        assert(d2[0] == Action::Increment);
        let r3 = run_body(t, committed, 0, wrapping_inc(w1), committed[1], d3, m.result, fuel);
        assert(r2 == r3);
        assert(d3[0] == Action::Fail);
        assert(r3 == (committed, Err::<u64, FailureReason>(FailureReason::Handler)));
    }
    outcome
}

/// Increments, calls canister A itself (a self-call is a boundary exactly as
/// an external one: the increment is committed), increments again, then
/// fails. The counter keeps exactly the pre-call commit.
pub fn increase_counter_then_call_same_canister_then_panic(system: &mut System) -> (outcome:
    Result<u64, FailureReason>)
    requires
        is_demo(*old(system)),
    ensures
        is_demo(*final(system)),
        final(system).cell_values() == old(system).cell_values().update(
            CANISTER_A as int,
            wrapping_inc(old(system).cell_values()[CANISTER_A as int]),
        ),
        outcome == Err::<u64, FailureReason>(FailureReason::Handler),
{
    let ghost c0 = old(system).cell_values();
    let outcome = system.inbound_dispatch(
        CANISTER_A,
        INCREASE_COUNTER_THEN_CALL_SAME_CANISTER_THEN_PANIC,
        DEMO_FUEL,
    );
    proof {
        let t = demo_tables(CANISTER_B);
        let m = t[CANISTER_A as int][INCREASE_COUNTER_THEN_CALL_SAME_CANISTER_THEN_PANIC as int];
        let fuel = DEMO_FUEL as nat;
        let full = semantics::inbound_dispatch(
            t,
            c0,
            CANISTER_A as int,
            INCREASE_COUNTER_THEN_CALL_SAME_CANISTER_THEN_PANIC as int,
            fuel,
        );
        let d1 = m.body.drop_first();
        let d2 = d1.drop_first();
        let d3 = d2.drop_first();
        let w1 = wrapping_inc(c0[0]);
        let r0 = run_body(t, c0, 0, c0[0], 0, m.body, m.result, fuel);
        assert(full == r0);
        assert(m.body[0] == Action::Increment);
        let r1 = run_body(t, c0, 0, w1, 0, d1, m.result, fuel);
        assert(r0 == r1);
        assert(d1[0] == (Action::Call {
            target: CANISTER_A,
            method: GET_COUNTER,
            on_failure: OnFailure::Propagate,
        }));
        // The boundary commit, then the self-call: canister A's own pure
        // getter, dispatched as an independent frame against the committed
        // cell.
        let committed = c0.update(0, w1);
        let callee_body = t[CANISTER_A as int][GET_COUNTER as int].body;
        let rb = run_body(t, committed, 0, committed[0], 0, callee_body, ResultKind::Counter, (fuel - 1) as nat);
        assert(rb == (committed.update(0, committed[0]), Ok::<u64, FailureReason>(committed[0])));
        assert(committed.update(0, committed[0]) =~= committed);
        assert(semantics::dispatch(t, committed, CANISTER_A as int, GET_COUNTER as int, (fuel - 1) as nat)
            == (committed, Ok::<u64, FailureReason>(committed[0])));
        assert(committed[0] == w1);
        let r2 = run_body(t, committed, 0, w1, w1, d2, m.result, fuel);
        assert(r1 == r2);
        assert(d2[0] == Action::Increment);
        let r3 = run_body(t, committed, 0, wrapping_inc(w1), w1, d3, m.result, fuel);
        assert(r2 == r3);
        assert(d3[0] == Action::Fail);
        assert(r3 == (committed, Err::<u64, FailureReason>(FailureReason::Handler)));
    }
    outcome
}

/// Reads canister B's counter through an outbound call and returns the
/// reply. No cell changes: both commits write back unchanged values.
pub fn get_counter_from_another_canister(system: &mut System) -> (counter: u64)
    requires
        is_demo(*old(system)),
    ensures
        is_demo(*final(system)),
        final(system).cell_values() == old(system).cell_values(),
        counter == old(system).cell_values()[CANISTER_B as int],
{
    let ghost c0 = old(system).cell_values();
    let outcome = system.inbound_dispatch(
        CANISTER_A,
        GET_COUNTER_FROM_ANOTHER_CANISTER,
        DEMO_FUEL,
    );
    proof {
        let t = demo_tables(CANISTER_B);
        let m = t[CANISTER_A as int][GET_COUNTER_FROM_ANOTHER_CANISTER as int];
        let fuel = DEMO_FUEL as nat;
        let full = semantics::inbound_dispatch(
            t,
            c0,
            CANISTER_A as int,
            GET_COUNTER_FROM_ANOTHER_CANISTER as int,
            fuel,
        );
        let r0 = run_body(t, c0, 0, c0[0], 0, m.body, m.result, fuel);
        assert(full == r0);
        assert(m.body[0] == (Action::Call {
            target: CANISTER_B,
            method: B_GET_COUNTER,
            on_failure: OnFailure::Propagate,
        }));
        // The boundary commit writes back the unchanged seed.
        let committed = c0.update(0, c0[0]);
        assert(committed =~= c0);
        let callee_body = t[CANISTER_B as int][B_GET_COUNTER as int].body;
        let rb = run_body(t, c0, 1, c0[1], 0, callee_body, ResultKind::Counter, (fuel - 1) as nat);
        assert(rb == (c0.update(1, c0[1]), Ok::<u64, FailureReason>(c0[1])));
        assert(c0.update(1, c0[1]) =~= c0);
        assert(semantics::dispatch(t, c0, CANISTER_B as int, B_GET_COUNTER as int, (fuel - 1) as nat)
            == (c0, Ok::<u64, FailureReason>(c0[1])));
        let d1 = m.body.drop_first();
        let r1 = run_body(t, c0, 0, c0[0], c0[1], d1, m.result, fuel);
        assert(r0 == r1);
        assert(d1.len() == 0);
        assert(r1 == (c0.update(0, c0[0]), Ok::<u64, FailureReason>(c0[1])));
        assert(outcome == Ok::<u64, FailureReason>(c0[CANISTER_B as int]));
    }
    match outcome {
        Ok(value) => value,
        Err(_) => unreached(),
    }
}

/// A handler that fails and tries to intercept its own failure. In this
/// execution model the interception is ineffective: the failure is terminal
/// for the frame and surfaces to the caller.
pub fn catch_panic(system: &mut System) -> (outcome: Result<u64, FailureReason>)
    requires
        is_demo(*old(system)),
    ensures
        is_demo(*final(system)),
        final(system).cell_values() == old(system).cell_values(),
        outcome == Err::<u64, FailureReason>(FailureReason::Handler),
{
    let outcome = system.inbound_dispatch(CANISTER_A, CATCH_PANIC, DEMO_FUEL);
    proof {
        reveal_with_fuel(run_body, 2);
    }
    outcome
}

/// An inbound call to the protected method: the admission filter refuses it
/// before any frame is created, so no commit or rollback question arises.
pub fn protected_by_inspect_message(system: &mut System) -> (outcome: Result<u64, FailureReason>)
    requires
        is_demo(*old(system)),
    ensures
        is_demo(*final(system)),
        final(system).cell_values() == old(system).cell_values(),
        outcome == Err::<u64, FailureReason>(FailureReason::Rejection),
{
    system.inbound_dispatch(CANISTER_A, PROTECTED_BY_INSPECT_MESSAGE, DEMO_FUEL)
}

/// Increments canister B's counter by one (wrapping).
pub fn inc(system: &mut System)
    requires
        is_demo(*old(system)),
    ensures
        is_demo(*final(system)),
        final(system).cell_values() == old(system).cell_values().update(
            CANISTER_B as int,
            wrapping_inc(old(system).cell_values()[CANISTER_B as int]),
        ),
{
    let ghost c0 = old(system).cell_values();
    let outcome = system.inbound_dispatch(CANISTER_B, B_INC, DEMO_FUEL);
    proof {
        let t = demo_tables(CANISTER_B);
        let m = t[CANISTER_B as int][B_INC as int];
        let fuel = DEMO_FUEL as nat;
        let full = semantics::inbound_dispatch(t, c0, CANISTER_B as int, B_INC as int, fuel);
        let r0 = run_body(t, c0, 1, c0[1], 0, m.body, m.result, fuel);
        assert(full == r0);
        assert(m.body[0] == Action::Increment);
        let r1 = run_body(t, c0, 1, wrapping_inc(c0[1]), 0, m.body.drop_first(), m.result, fuel);
        assert(r0 == r1);
        assert(m.body.drop_first().len() == 0);
        assert(r1 == (c0.update(1, wrapping_inc(c0[1])), Ok::<u64, FailureReason>(0)));
        assert(outcome == Ok::<u64, FailureReason>(0));
    }
    match outcome {
        Ok(_) => (),
        Err(_) => unreached(),
    }
}

} // verus!

