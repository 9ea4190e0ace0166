use drip_stream::batch_transfer_processor::{
    guard_enter, guard_exit, BatchTransferProcessor, Error,
};
use soroban_sdk::{Env, IntoVal, TryFromVal, Val};

fn amounts(env: &Env, items: &[u64]) -> soroban_sdk::Vec<u64> {
    let mut v = soroban_sdk::Vec::<u64>::new(env);
    for x in items {
        v.push_back(*x);
    }
    v
}

#[test]
fn batch_total_exact() {
    let env = Env::default();
    let v = amounts(&env, &[10, 20, 30]);
    assert_eq!(BatchTransferProcessor::process_batch(&v), Ok(60));
    assert_eq!(BatchTransferProcessor::try_process_batch(&v), Some(Ok(60)));
}

#[test]
fn empty_batch_totals_zero() {
    let env = Env::default();
    let v = amounts(&env, &[]);
    assert_eq!(BatchTransferProcessor::process_batch(&v), Ok(0));
}

#[test]
fn batch_overflow() {
    let env = Env::default();
    let v = amounts(&env, &[u64::MAX, 1]);
    assert_eq!(BatchTransferProcessor::process_batch(&v), Err(Error::CalculationOverflow));
    let v = amounts(&env, &[u64::MAX - 1, 1]);
    assert_eq!(BatchTransferProcessor::process_batch(&v), Ok(u64::MAX));
}

#[test]
fn batch_size_limit() {
    let env = Env::default();
    let v = amounts(&env, &[1; 100]);
    assert_eq!(BatchTransferProcessor::process_batch(&v), Ok(100));
    let v = amounts(&env, &[1; 101]);
    assert_eq!(BatchTransferProcessor::process_batch(&v), Err(Error::BatchTooLarge));
}

fn with_foreign_value(env: &Env, items: &[u64], at_end: bool) -> soroban_sdk::Vec<u64> {
    let mut raw = soroban_sdk::Vec::<Val>::new(env);
    for x in items {
        raw.push_back((*x).into_val(env));
    }
    let foreign: Val = true.into_val(env);
    if at_end {
        raw.push_back(foreign);
    } else {
        raw.push_front(foreign);
    }
    soroban_sdk::Vec::<u64>::try_from_val(env, &&raw).unwrap()
}

#[test]
fn malformed_batch_is_reported() {
    let env = Env::default();
    let v = with_foreign_value(&env, &[1, 2], true);
    assert_eq!(BatchTransferProcessor::try_process_batch(&v), None);
}

#[test]
fn overflow_before_malformed_value_is_an_error() {
    let env = Env::default();
    let v = with_foreign_value(&env, &[u64::MAX, 1], true);
    assert_eq!(
        BatchTransferProcessor::try_process_batch(&v),
        Some(Err(Error::CalculationOverflow))
    );
}

#[test]
fn guard_enter_and_exit() {
    assert_eq!(guard_enter(None), Ok(1));
    assert_eq!(guard_enter(Some(0)), Ok(1));
    assert_eq!(guard_enter(Some(1)), Err(Error::ProcessorLocked));
    assert_eq!(guard_enter(Some(7)), Err(Error::ProcessorLocked));
    assert_eq!(guard_exit(Some(1)), Some(0));
    assert_eq!(guard_exit(None), Some(0));
    assert_eq!(guard_exit(Some(0)), None);
}

#[test]
fn guard_release_restores_and_refuses_reentry() {
    let held = guard_enter(None).unwrap();
    assert_eq!(guard_enter(Some(held)), Err(Error::ProcessorLocked));
    assert_eq!(guard_exit(Some(held)), Some(0));
}
