use miner_backend::config::{FEE, LOTTERY_TIME, MINER_TIME, MIN_BOX_COST, MIN_MINER_COST, NANOS_PER_SEC};
use miner_backend::creation::check_allowance;
use miner_backend::errors::{Error, ValidationReason};
use miner_backend::registry::LotteryState;

fn registered_state() -> LotteryState {
    let mut state = LotteryState::new();
    state
        .register("alice-principal".to_string(), "alice".to_string())
        .unwrap();
    state
}

#[test]
fn box_request_below_minimum_is_rejected() {
    let state = registered_state();
    let r = state.validate_box_request(&"alice-principal".to_string(), MIN_BOX_COST - 1);
    assert_eq!(
        r,
        Err(Error::Validation(ValidationReason::BelowMinimum(MIN_BOX_COST)))
    );
}

#[test]
fn miner_request_below_minimum_is_rejected() {
    let state = registered_state();
    let r = state.validate_miner_request(&"alice-principal".to_string(), MIN_MINER_COST - 1);
    assert_eq!(
        r,
        Err(Error::Validation(ValidationReason::BelowMinimum(MIN_MINER_COST)))
    );
}

#[test]
fn unregistered_caller_is_rejected() {
    let state = registered_state();
    let r = state.validate_box_request(&"stranger".to_string(), MIN_BOX_COST);
    assert_eq!(r, Err(Error::Validation(ValidationReason::UnknownUser)));
    let r2 = state.validate_miner_request(&"stranger".to_string(), MIN_MINER_COST);
    assert_eq!(r2, Err(Error::Validation(ValidationReason::UnknownUser)));
}

#[test]
fn valid_requests_pass() {
    let state = registered_state();
    assert_eq!(
        state.validate_box_request(&"alice-principal".to_string(), MIN_BOX_COST),
        Ok(())
    );
    assert_eq!(
        state.validate_miner_request(&"alice-principal".to_string(), MIN_MINER_COST),
        Ok(())
    );
}

#[test]
fn allowance_must_cover_award_plus_fee() {
    assert_eq!(check_allowance(MIN_BOX_COST + FEE, MIN_BOX_COST), Ok(()));
    assert_eq!(
        check_allowance(MIN_BOX_COST + FEE - 1, MIN_BOX_COST),
        Err(Error::Allowance)
    );
    assert_eq!(check_allowance(0, 0), Err(Error::Allowance));
    assert_eq!(check_allowance(FEE, 0), Ok(()));
    // an award so large that award + fee cannot be covered at all
    assert_eq!(check_allowance(u64::MAX, u64::MAX), Err(Error::Allowance));
}

#[test]
fn counter_advances_once_per_allocation_and_reaches_the_subaccount() {
    let mut state = registered_state();
    let owner: Vec<u8> = vec![1, 2, 3];
    assert_eq!(state.sub_index, 0);
    let sub1 = state.allocate_subaccount(&owner);
    assert_eq!(state.sub_index, 1);
    assert_eq!(sub1[0], 1);
    let sub2 = state.allocate_subaccount(&owner);
    assert_eq!(state.sub_index, 2);
    assert_eq!(sub2[0], 2);
    assert_ne!(sub1, sub2);
}

#[test]
fn record_box_registers_it_and_summarises_with_no_miners() {
    let mut state = registered_state();
    let now: u64 = 1_000;
    let summary = state.record_box(
        "alice-principal".to_string(),
        "box-cani".to_string(),
        now,
    );
    assert_eq!(summary.username, "alice");
    assert_eq!(summary.miner_count, 0);
    assert_eq!(summary.reg_date, now);
    assert_eq!(summary.end_date, now + LOTTERY_TIME * NANOS_PER_SEC);
    assert_eq!(summary.canister_id, "box-cani");

    let recorded = state.get_box(&"box-cani".to_string()).unwrap();
    assert_eq!(recorded.user, "alice-principal");
    assert!(!recorded.is_end);
    assert_eq!(recorded.end_date, now + LOTTERY_TIME * NANOS_PER_SEC);
}

#[test]
fn record_miner_registers_it_and_indexes_its_box() {
    let mut state = registered_state();
    let now: u64 = 2_000;
    state.record_miner(
        "alice-principal".to_string(),
        "box-cani".to_string(),
        "miner-cani".to_string(),
        now,
    );
    let recorded = state.get_miner(&"miner-cani".to_string()).unwrap();
    assert_eq!(recorded.user, "alice-principal");
    assert_eq!(recorded.box_id, "box-cani");
    assert!(!recorded.is_end);
    assert_eq!(recorded.end_date, now + MINER_TIME * NANOS_PER_SEC);
    assert_eq!(state.box_miner.len(), 1);
    assert_eq!(state.box_miner[0].0, "miner-cani");
    assert_eq!(state.box_miner[0].1, "box-cani");
}
