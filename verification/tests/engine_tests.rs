//! Tests of the engine itself: cells, frames, the checkpoint rule, routing,
//! failure handling and the wrapping counter arithmetic.

use canister_engine::action::{Action, Method, OnFailure, ResultKind};
use canister_engine::canisters::{
    get_counter_from_another_canister, inc, init, Config, InitArgs, ANONYMOUS_TARGET, CANISTER_A,
    CANISTER_B, DEMO_FUEL, INCREASE_COUNTER, INCREASE_COUNTER_PANIC,
    INCREASE_COUNTER_THEN_CALL_ANOTHER_CANISTER_THEN_PANIC,
};
use canister_engine::checkpoint::{commits_at, SuspensionKind};
use canister_engine::engine::System;
use canister_engine::failure::FailureReason;
use canister_engine::frame::{ExecutionFrame, FrameStatus, OutboundCallRecord};
use canister_engine::inspect::inspect_message_impl;
use canister_engine::semantics::InboundMessage;
use canister_engine::state_cell::StateCell;

#[test]
fn state_cell_read_is_idempotent() {
    let cell = StateCell::new(7);
    assert_eq!(cell.read(), 7);
    assert_eq!(cell.read(), cell.read());
}

#[test]
fn state_cell_commit_replaces_the_value() {
    let mut cell = StateCell::new(7);
    cell.commit(9);
    assert_eq!(cell.read(), 9);
    assert_eq!(cell.read(), 9);
}

#[test]
fn commit_decision_inspects_why_the_frame_suspended() {
    assert!(!commits_at(SuspensionKind::Local));
    assert!(commits_at(SuspensionKind::Outbound));
    assert!(commits_at(SuspensionKind::Return));
    assert!(!commits_at(SuspensionKind::Failure));
}

#[test]
fn frame_lifecycle_tracks_calls_and_status() {
    let mut frame = ExecutionFrame::new(3, 10);
    assert_eq!(frame.status, FrameStatus::Running);
    assert_eq!(frame.working, 10);
    assert_eq!(frame.pending.len(), 0);

    frame.increment();
    assert_eq!(frame.working, 11);

    frame.park(5, 2);
    assert_eq!(frame.status, FrameStatus::AwaitingReply);
    assert_eq!(frame.pending.len(), 1);
    assert_eq!(frame.pending[0], OutboundCallRecord { target: 5, method: 2 });

    frame.resume(42, Some(8));
    assert_eq!(frame.status, FrameStatus::Running);
    assert_eq!(frame.working, 42);
    assert_eq!(frame.last_reply, 8);
    assert_eq!(frame.pending.len(), 0);

    frame.complete();
    assert_eq!(frame.status, FrameStatus::Completed);
}

#[test]
fn frame_rollback_discards_without_touching_any_cell() {
    let cell = StateCell::new(4);
    let mut frame = ExecutionFrame::new(0, cell.read());
    frame.increment();
    frame.increment();
    frame.rollback();
    assert_eq!(frame.status, FrameStatus::Failed);
    assert_eq!(cell.read(), 4);
}

#[test]
fn router_serializes_two_inbound_calls() {
    let mut system = init(InitArgs { canister_b_principal: CANISTER_B });
    let queue = vec![
        InboundMessage { actor: CANISTER_A, method: INCREASE_COUNTER },
        InboundMessage { actor: CANISTER_A, method: INCREASE_COUNTER },
    ];
    let outcomes = system.run_inbound_queue(&queue, DEMO_FUEL);
    assert_eq!(outcomes.len(), 2);
    assert!(outcomes[0].is_ok());
    assert!(outcomes[1].is_ok());
    assert_eq!(system.state_of(CANISTER_A), 2);
}

#[test]
fn increment_wraps_at_the_counter_maximum() {
    let mut system = System::new();
    let actor = system.add_actor(
        vec![Method::new(vec![Action::Increment], ResultKind::Counter)],
        u64::MAX,
    );
    let outcome = system.dispatch(actor, 0, 1);
    assert_eq!(outcome, Ok(0));
    assert_eq!(system.state_of(actor), 0);
}

#[test]
fn recovered_call_failure_lets_the_handler_continue() {
    let mut system = System::new();
    let body = vec![
        Action::Increment,
        Action::Call { target: 9, method: 0, on_failure: OnFailure::Continue },
        Action::Increment,
    ];
    let actor = system.add_actor(vec![Method::new(body, ResultKind::Counter)], 0);
    let outcome = system.dispatch(actor, 0, 4);
    assert_eq!(outcome, Ok(2));
    assert_eq!(system.state_of(actor), 2);
}

#[test]
fn propagated_call_failure_keeps_the_boundary_commit() {
    let mut system = System::new();
    let body = vec![
        Action::Increment,
        Action::Call { target: 9, method: 0, on_failure: OnFailure::Propagate },
        Action::Increment,
    ];
    let actor = system.add_actor(vec![Method::new(body, ResultKind::Counter)], 0);
    let outcome = system.dispatch(actor, 0, 4);
    assert_eq!(outcome, Err(FailureReason::Handler));
    assert_eq!(system.state_of(actor), 1);
}

#[test]
fn exhausted_call_depth_is_a_routing_failure() {
    let mut system = System::new();
    let body = vec![
        Action::Increment,
        Action::Call { target: 0, method: 0, on_failure: OnFailure::Propagate },
    ];
    let actor = system.add_actor(vec![Method::new(body, ResultKind::Counter)], 0);
    let outcome = system.dispatch(actor, 0, 0);
    assert_eq!(outcome, Err(FailureReason::Handler));
    // The boundary commit still happened before routing gave up.
    assert_eq!(system.state_of(actor), 1);
}

#[test]
fn unknown_method_is_rejected_before_any_frame_exists() {
    let mut system = init(InitArgs { canister_b_principal: CANISTER_B });
    let outcome = system.inbound_dispatch(CANISTER_A, 99, DEMO_FUEL);
    assert_eq!(outcome, Err(FailureReason::Rejection));
    assert_eq!(system.state_of(CANISTER_A), 0);
}

#[test]
fn unknown_actor_is_rejected_before_any_frame_exists() {
    let mut system = init(InitArgs { canister_b_principal: CANISTER_B });
    let outcome = system.inbound_dispatch(17, 0, DEMO_FUEL);
    assert_eq!(outcome, Err(FailureReason::Rejection));
}

#[test]
fn unconfigured_cross_canister_target_fails_after_the_commit() {
    // Deployed against the anonymous placeholder: the outbound call cannot
    // be routed, the handler propagates the failure, and only the pre-call
    // increment survives.
    let mut system = init(InitArgs { canister_b_principal: ANONYMOUS_TARGET });
    let outcome = system.inbound_dispatch(
        CANISTER_A,
        INCREASE_COUNTER_THEN_CALL_ANOTHER_CANISTER_THEN_PANIC,
        DEMO_FUEL,
    );
    assert_eq!(outcome, Err(FailureReason::Handler));
    assert_eq!(system.state_of(CANISTER_A), 1);
}

#[test]
fn rollback_never_touches_another_actor() {
    let mut system = init(InitArgs { canister_b_principal: CANISTER_B });
    let before = system.state_of(CANISTER_B);
    let outcome = system.inbound_dispatch(CANISTER_A, INCREASE_COUNTER_PANIC, DEMO_FUEL);
    assert_eq!(outcome, Err(FailureReason::Handler));
    assert_eq!(system.state_of(CANISTER_B), before);
}

#[test]
fn default_config_targets_the_anonymous_placeholder() {
    let config = Config::default();
    assert_eq!(config.canister_b_principal, ANONYMOUS_TARGET);
}

#[test]
fn canister_b_counter_can_be_incremented_and_read_across() {
    let mut system = init(InitArgs { canister_b_principal: CANISTER_B });
    assert_eq!(999_999_999, get_counter_from_another_canister(&mut system));
    inc(&mut system);
    assert_eq!(1_000_000_000, get_counter_from_another_canister(&mut system));
}

#[test]
fn inspect_message_accepts_and_rejects_by_protection() {
    let open_method = Method::new(vec![], ResultKind::Unit);
    assert!(inspect_message_impl(&open_method).is_ok());
    let protected = Method::new_protected(vec![], ResultKind::Unit);
    assert_eq!(inspect_message_impl(&protected), Err(FailureReason::Rejection));
}

#[test]
fn failure_messages_name_their_reason() {
    assert!(FailureReason::Rejection.message().contains("Call rejected by inspect check"));
    assert!(FailureReason::Handler.message().contains("rolled back"));
    assert!(FailureReason::OutboundCall.message().contains("outbound call"));
}
