use drip_stream::stream::yield_integration::{
    cleanup_stale_op, deposit_to_vault, next_vault_seq, settle_vault_transfer,
    withdraw_from_vault, RebateError, StaleOperation, TransferDirection, VaultOperation,
    VaultState, VaultTransfer,
};

const NOW: u64 = 1_000_000;

fn state_with_principal(principal: i128) -> VaultState {
    VaultState { op: VaultOperation::Idle, seq: 0, principal }
}

/// What the vault transfer does to the principal checkpoint in a test run.
#[derive(Clone, Copy)]
enum Vault {
    /// The transfer moves the checkpoint by the amount, as a working vault does.
    Honours,
    /// The transfer leaves the checkpoint where it was.
    Ignores,
}

fn checkpoint_after(t: &VaultTransfer, vault: Vault) -> i128 {
    match (vault, t.direction) {
        (Vault::Ignores, _) => t.principal_before,
        (Vault::Honours, TransferDirection::Deposit) => t.principal_before + t.amount,
        (Vault::Honours, TransferDirection::Withdraw) => t.principal_before - t.amount,
    }
}

fn deposit(st: &mut VaultState, amount: i128, vault: Vault) -> Result<(), RebateError> {
    let transfer = deposit_to_vault(st, amount, NOW).outcome?;
    let after = checkpoint_after(&transfer, vault);
    settle_vault_transfer(st, transfer, after)
}

fn withdraw(st: &mut VaultState, amount: i128, vault: Vault) -> Result<(), RebateError> {
    let transfer = withdraw_from_vault(st, amount, NOW).outcome?;
    let after = checkpoint_after(&transfer, vault);
    settle_vault_transfer(st, transfer, after)
}

#[test]
fn test_deposit_to_vault_basic_flow() {
    let mut st = state_with_principal(0);

    let result = deposit(&mut st, 1_000_000, Vault::Honours);
    assert!(result.is_ok());
    assert_eq!(st.principal, 1_000_000);
    assert_eq!(st.op, VaultOperation::Idle);

    let result = deposit(&mut st, 500_000, Vault::Honours);
    assert!(result.is_ok());
    assert_eq!(st.principal, 1_500_000);
}

#[test]
fn test_withdraw_from_vault_basic_flow() {
    let mut st = state_with_principal(1_000_000);

    let result = withdraw(&mut st, 400_000, Vault::Honours);
    assert!(result.is_ok());
    assert_eq!(st.principal, 600_000);
    assert_eq!(st.op, VaultOperation::Idle);

    let result = withdraw(&mut st, 600_000, Vault::Honours);
    assert!(result.is_ok());
    assert_eq!(st.principal, 0);
}

#[test]
fn test_deposit_negative_amount_rejected() {
    let mut st = state_with_principal(0);
    let result = deposit(&mut st, -100, Vault::Honours);
    assert_eq!(result, Err(RebateError::InsufficientPrincipal));
}

#[test]
fn test_deposit_zero_amount_rejected() {
    let mut st = state_with_principal(0);
    let result = deposit(&mut st, 0, Vault::Honours);
    assert_eq!(result, Err(RebateError::InsufficientPrincipal));
}

#[test]
fn test_withdraw_insufficient_principal() {
    let mut st = state_with_principal(100);

    let result = withdraw(&mut st, 200, Vault::Honours);
    assert_eq!(result, Err(RebateError::InsufficientPrincipal));
}

#[test]
fn test_withdraw_negative_amount_rejected() {
    let mut st = state_with_principal(1_000_000);
    let result = withdraw(&mut st, -50, Vault::Honours);
    assert_eq!(result, Err(RebateError::InsufficientPrincipal));
}

#[test]
fn test_vault_op_state_cleared_after_success() {
    let mut st = state_with_principal(0);

    assert_eq!(st.op, VaultOperation::Idle);
    let _ = deposit(&mut st, 100_000, Vault::Honours);
    assert_eq!(st.op, VaultOperation::Idle);
}

#[test]
fn test_stale_op_cleanup_on_next_deposit() {
    let mut st = state_with_principal(500_000);
    st.op = VaultOperation::Depositing { sequence: 99, amount: 999_999, timestamp: 900_000 };

    let result = deposit(&mut st, 200_000, Vault::Honours);
    assert!(result.is_ok());
    assert_eq!(st.op, VaultOperation::Idle);
}

#[test]
fn test_stale_op_cleanup_on_next_withdraw() {
    let mut st = state_with_principal(1_000_000);
    st.op = VaultOperation::Withdrawing { sequence: 7, amount: 300_000, timestamp: 950_000 };

    let result = withdraw(&mut st, 200_000, Vault::Honours);
    assert!(result.is_ok());
    assert_eq!(st.op, VaultOperation::Idle);
}

#[test]
fn test_principal_mismatch_detected_on_deposit() {
    let mut st = state_with_principal(100);

    let result = deposit(&mut st, 500, Vault::Ignores);
    assert_eq!(result, Err(RebateError::PrincipalMismatch));
    assert_eq!(st.op, VaultOperation::Idle);
}

#[test]
fn test_principal_mismatch_detected_on_withdraw() {
    let mut st = state_with_principal(1_000_000);

    let result = withdraw(&mut st, 300_000, Vault::Ignores);
    assert_eq!(result, Err(RebateError::PrincipalMismatch));
    assert_eq!(st.op, VaultOperation::Idle);
}

#[test]
fn test_rapid_deposit_withdraw_cycle() {
    let mut st = state_with_principal(0);

    for i in 0..10 {
        let deposit_amount: i128 = (i as i128 + 1) * 100_000;
        let r = deposit(&mut st, deposit_amount, Vault::Honours);
        assert!(r.is_ok(), "deposit cycle {i} failed");
    }

    for i in 0..10 {
        let withdraw_amount: i128 = (10 - i as i128) * 100_000;
        let r = withdraw(&mut st, withdraw_amount, Vault::Honours);
        assert!(r.is_ok(), "withdraw cycle {i} failed");
    }
    assert_eq!(st.principal, 0);
    assert_eq!(st.seq, 20);
}

#[test]
fn deposit_records_marker_with_next_sequence() {
    let mut st = VaultState { op: VaultOperation::Idle, seq: 41, principal: 10 };
    let step = deposit_to_vault(&mut st, 5, 777);
    assert_eq!(step.cleaned_up, None);
    assert_eq!(
        step.outcome,
        Ok(VaultTransfer {
            direction: TransferDirection::Deposit,
            sequence: 42,
            amount: 5,
            principal_before: 10,
        })
    );
    assert_eq!(st.seq, 42);
    assert_eq!(st.op, VaultOperation::Depositing { sequence: 42, amount: 5, timestamp: 777 });
    assert_eq!(st.principal, 10);
}

#[test]
fn stale_marker_is_reported_with_last_sequence() {
    let stale = VaultOperation::Depositing { sequence: 99, amount: 999_999, timestamp: 900_000 };
    let mut st = VaultState { op: stale, seq: 99, principal: 500_000 };
    let step = deposit_to_vault(&mut st, 200_000, NOW);
    assert_eq!(step.cleaned_up, Some(StaleOperation { operation: stale, sequence: 99 }));
    assert_eq!(st.seq, 100);
}

#[test]
fn rejected_deposit_leaves_state_alone() {
    let stale = VaultOperation::Withdrawing { sequence: 3, amount: 1, timestamp: 2 };
    let before = VaultState { op: stale, seq: 3, principal: 50 };
    let mut st = before;
    let step = deposit_to_vault(&mut st, 0, NOW);
    assert_eq!(step.cleaned_up, None);
    assert_eq!(step.outcome, Err(RebateError::InsufficientPrincipal));
    assert_eq!(st, before);
}

#[test]
fn insufficient_withdrawal_still_cleans_stale_marker() {
    let stale = VaultOperation::Withdrawing { sequence: 3, amount: 1, timestamp: 2 };
    let mut st = VaultState { op: stale, seq: 3, principal: 50 };
    let step = withdraw_from_vault(&mut st, 51, NOW);
    assert_eq!(step.cleaned_up, Some(StaleOperation { operation: stale, sequence: 3 }));
    assert_eq!(step.outcome, Err(RebateError::InsufficientPrincipal));
    assert_eq!(st, VaultState { op: VaultOperation::Idle, seq: 3, principal: 50 });
}

#[test]
fn overflowing_deposit_keeps_marker() {
    let mut st = state_with_principal(i128::MAX - 1);
    let transfer = deposit_to_vault(&mut st, 2, NOW).outcome.unwrap();
    let r = settle_vault_transfer(&mut st, transfer, i128::MAX - 1);
    assert_eq!(r, Err(RebateError::ArithmeticOverflow));
    assert_eq!(st.op, VaultOperation::Depositing { sequence: 1, amount: 2, timestamp: NOW });
}

#[test]
fn cleanup_and_sequence_helpers() {
    let mut st = VaultState { op: VaultOperation::Idle, seq: 5, principal: 0 };
    assert_eq!(cleanup_stale_op(&mut st), None);
    assert_eq!(next_vault_seq(&mut st), 6);
    assert_eq!(st.seq, 6);
    st.op = VaultOperation::Depositing { sequence: 6, amount: 1, timestamp: 1 };
    assert_eq!(
        cleanup_stale_op(&mut st),
        Some(StaleOperation { operation: VaultOperation::Depositing { sequence: 6, amount: 1, timestamp: 1 }, sequence: 6 })
    );
    assert_eq!(st.op, VaultOperation::Idle);
}
