//! The demonstration scenarios, driven end to end through the engine.

use canister_engine::canisters::{
    catch_panic, get_counter, get_counter_from_another_canister, increase_counter,
    increase_counter_panic, increase_counter_then_call_another_canister_then_panic,
    increase_counter_then_call_async_fn_then_panic,
    increase_counter_then_call_same_canister_then_panic, init, protected_by_inspect_message,
    InitArgs, CANISTER_B,
};
use canister_engine::engine::System;

fn deployed() -> System {
    init(InitArgs { canister_b_principal: CANISTER_B })
}

#[test]
fn should_get_counter() {
    let mut system = deployed();
    assert_eq!(0, get_counter(&mut system));
}

#[test]
fn should_increase_counter() {
    let mut system = deployed();
    assert_eq!(0, get_counter(&mut system));
    increase_counter(&mut system);
    assert_eq!(1, get_counter(&mut system));
}

#[test]
fn should_not_increase_counter_on_panics() {
    let mut system = deployed();
    assert_eq!(0, get_counter(&mut system));
    assert!(increase_counter_panic(&mut system).is_err());
    assert_eq!(0, get_counter(&mut system));
}

#[test]
fn should_not_commit_data_on_await_point_before_panic() {
    let mut system = deployed();
    assert_eq!(0, get_counter(&mut system));
    assert!(increase_counter_then_call_async_fn_then_panic(&mut system).is_err());
    assert_eq!(0, get_counter(&mut system));
}

#[test]
fn should_commit_data_on_inter_canister_call_point_before_panic() {
    let mut system = deployed();
    assert_eq!(0, get_counter(&mut system));
    assert!(increase_counter_then_call_another_canister_then_panic(&mut system).is_err());
    assert_eq!(1, get_counter(&mut system));
}

#[test]
fn should_commit_data_on_inter_canister_call_to_itself_before_panic() {
    let mut system = deployed();
    assert_eq!(0, get_counter(&mut system));
    assert!(increase_counter_then_call_same_canister_then_panic(&mut system).is_err());
    assert_eq!(1, get_counter(&mut system));
}

#[test]
fn should_get_counter_from_another_canister() {
    let mut system = deployed();
    assert_eq!(999_999_999, get_counter_from_another_canister(&mut system));
}

#[test]
fn should_fail_to_catch_a_panic_in_wasm32() {
    let mut system = deployed();
    assert!(catch_panic(&mut system).is_err());
}

#[test]
fn should_be_protected_by_inspect_message() {
    let mut system = deployed();
    let result = protected_by_inspect_message(&mut system);

    match result {
        Ok(_) => panic!("Should not be able to call this function"),
        Err(e) => assert!(e.message().contains("Call rejected by inspect check")),
    }
}
