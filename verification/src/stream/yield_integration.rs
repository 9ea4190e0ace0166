//! Yield-vault integration of the stream contract: the vault operation
//! protocol and the rebate arithmetic.
//!
//! The contract keeps three instance-storage entries for the vault protocol
//! (the in-flight operation marker, the last committed sequence number and
//! the principal checkpoint); `VaultState` holds them as plain values. A vault
//! operation runs in two steps around the vault transfer itself: `deposit_to_vault`
//! or `withdraw_from_vault` checks the request, cleans up a stale marker and
//! records the new in-flight operation; after the transfer,
//! `settle_vault_transfer` checks the principal checkpoint read back from
//! storage against the expected one and clears the marker.
use crate::sdk::{host_contract_error, host_error_from_contract_code};
use soroban_sdk::Error as HostError;
use vstd::prelude::*;

verus! {

/// Fixed-point scaling factor for rebate calculations, in basis points:
/// 10_000 = 100%.
pub const REBATE_BPS_SCALE: i128 = 10_000;

/// Seconds in a year for APY calculations (365.25 days).
pub const SECONDS_PER_YEAR: i128 = 31_557_600;

/// Maximum rebate rate in basis points (10%), to prevent excessive yields.
pub const MAX_REBATE_RATE_BPS: i128 = 1_000;

/// Smallest principal a rebate is calculated for, to prevent dust.
pub const MIN_REBATE_THRESHOLD: i128 = 100;

/// Principal of the mock yield configuration that `calculate_rebate` uses.
pub const MOCK_PRINCIPAL: i128 = 1_000_000;

/// APY, in basis points, of the mock yield configuration.
pub const MOCK_APY_BPS: i128 = 500;

/// Elapsed time, in seconds, of the mock yield configuration.
pub const MOCK_TIME_ELAPSED: u64 = 86_400;

/// Yield configuration of a stream.
#[derive(Clone, Debug, Eq, PartialEq)]
pub struct YieldConfig {
    pub vault_address: soroban_sdk::Address,
    pub is_active: bool,
    pub accrued_yield: i128,
    /// Annual Percentage Yield in basis points (e.g., 500 = 5% APY).
    pub apy_bps: i128,
    /// Timestamp of last yield calculation.
    pub last_updated: u64,
    /// Principal amount deposited in vault.
    pub deposited_principal: i128,
}

/// Tracked state of an in-flight vault operation.
#[derive(Copy, Clone, Debug, Eq, PartialEq, Structural)]
pub enum VaultOperation {
    /// No vault operation is in flight.
    Idle,
    Depositing { sequence: u64, amount: i128, timestamp: u64 },
    Withdrawing { sequence: u64, amount: i128, timestamp: u64 },
}

/// Rebate calculation error types.
#[derive(Copy, Clone, Debug, Eq, PartialEq, PartialOrd, Ord, Structural)]
pub enum RebateError {
    ArithmeticOverflow,
    InvalidRate,
    InsufficientPrincipal,
    VaultOperationInProgress,
    PrincipalMismatch,
}

impl RebateError {
    /// The contract error code of each variant.
    pub open spec fn spec_code(self) -> u32 {
        match self {
            RebateError::ArithmeticOverflow => 1,
            RebateError::InvalidRate => 2,
            RebateError::InsufficientPrincipal => 3,
            RebateError::VaultOperationInProgress => 4,
            RebateError::PrincipalMismatch => 5,
        }
    }

    /// The contract error code of this error.
    pub fn code(&self) -> (c: u32)
        ensures
            c == self.spec_code(),
    {
        match self {
            RebateError::ArithmeticOverflow => 1,
            RebateError::InvalidRate => 2,
            RebateError::InsufficientPrincipal => 3,
            RebateError::VaultOperationInProgress => 4,
            RebateError::PrincipalMismatch => 5,
        }
    }
}

/// A rebate error becomes the host's contract error with the same code.
impl From<RebateError> for HostError {
    fn from(err: RebateError) -> (e: HostError) {
        host_error_from_contract_code(err.code())
    }
}

impl vstd::std_specs::convert::FromSpecImpl<RebateError> for HostError {
    open spec fn obeys_from_spec() -> bool {
        true
    }

    open spec fn from_spec(err: RebateError) -> HostError {
        host_contract_error(err.spec_code())
    }
}

/// The contract-instance entries of the vault protocol: the in-flight
/// operation marker, the last committed sequence number and the principal
/// checkpoint. Absent entries read as `Idle`, 0 and 0.
#[derive(Copy, Clone, Debug, Eq, PartialEq, Structural)]
pub struct VaultState {
    pub op: VaultOperation,
    pub seq: u64,
    pub principal: i128,
}

/// Which way a vault transfer moves tokens.
#[derive(Copy, Clone, Debug, Eq, PartialEq, Structural)]
pub enum TransferDirection {
    Deposit,
    Withdraw,
}

/// A vault transfer that has been recorded as in flight and awaits its
/// settlement: its direction, sequence number and amount, and the principal
/// checkpoint found before it.
#[derive(Copy, Clone, Debug, Eq, PartialEq, Structural)]
pub struct VaultTransfer {
    pub direction: TransferDirection,
    pub sequence: u64,
    pub amount: i128,
    pub principal_before: i128,
}

/// A stale in-flight operation that was cleaned up, with the sequence number
/// that was last committed when it was found.
#[derive(Copy, Clone, Debug, Eq, PartialEq, Structural)]
pub struct StaleOperation {
    pub operation: VaultOperation,
    pub sequence: u64,
}

/// The first step of a vault operation: the stale operation it cleaned up, if
/// any, and either the transfer now in flight or the error that ended it.
#[derive(Copy, Clone, Debug, Eq, PartialEq)]
pub struct VaultStep {
    pub cleaned_up: Option<StaleOperation>,
    pub outcome: Result<VaultTransfer, RebateError>,
}

/// The stale operation of a state: its marker, unless no operation is in
/// flight.
pub open spec fn stale_of(s: VaultState) -> Option<StaleOperation> {
    if s.op is Idle {
        None
    } else {
        Some(StaleOperation { operation: s.op, sequence: s.seq })
    }
}

/// The state with its in-flight marker cleared.
pub open spec fn cleared(s: VaultState) -> VaultState {
    VaultState { op: VaultOperation::Idle, ..s }
}

/// The state after recording a transfer as in flight: the next sequence
/// number is committed and the marker names it.
pub open spec fn marked(s: VaultState, direction: TransferDirection, amount: i128, now: u64) -> VaultState {
    let sequence = (s.seq + 1) as u64;
    VaultState {
        op: match direction {
            TransferDirection::Deposit => VaultOperation::Depositing { sequence, amount, timestamp: now },
            TransferDirection::Withdraw => VaultOperation::Withdrawing { sequence, amount, timestamp: now },
        },
        seq: sequence,
        principal: s.principal,
    }
}

/// The transfer recorded by `marked`.
pub open spec fn pending(s: VaultState, direction: TransferDirection, amount: i128) -> VaultTransfer {
    VaultTransfer {
        direction,
        sequence: (s.seq + 1) as u64,
        amount,
        principal_before: s.principal,
    }
}

/// First step of a deposit: the new state and the step it reports.
pub open spec fn deposit_spec(s: VaultState, amount: i128, now: u64) -> (VaultState, VaultStep) {
    if amount <= 0 {
        (s, VaultStep { cleaned_up: None, outcome: Err(RebateError::InsufficientPrincipal) })
    } else {
        (
            marked(cleared(s), TransferDirection::Deposit, amount, now),
            VaultStep {
                cleaned_up: stale_of(s),
                outcome: Ok(pending(s, TransferDirection::Deposit, amount)),
            },
        )
    }
}

/// First step of a withdrawal: the new state and the step it reports.
pub open spec fn withdraw_spec(s: VaultState, amount: i128, now: u64) -> (VaultState, VaultStep) {
    if amount <= 0 {
        (s, VaultStep { cleaned_up: None, outcome: Err(RebateError::InsufficientPrincipal) })
    } else if s.principal < amount {
        (
            cleared(s),
            VaultStep { cleaned_up: stale_of(s), outcome: Err(RebateError::InsufficientPrincipal) },
        )
    } else {
        (
            marked(cleared(s), TransferDirection::Withdraw, amount, now),
            VaultStep {
                cleaned_up: stale_of(s),
                outcome: Ok(pending(s, TransferDirection::Withdraw, amount)),
            },
        )
    }
}

/// The principal checkpoint a transfer should leave: the principal before it
/// plus a deposit or minus a withdrawal.
pub open spec fn expected_principal(t: VaultTransfer) -> int {
    match t.direction {
        TransferDirection::Deposit => t.principal_before + t.amount,
        TransferDirection::Withdraw => t.principal_before - t.amount,
    }
}

/// Settling a transfer against the checkpoint read back after it: the new
/// state and the result. When the expected checkpoint does not fit in `i128`
/// the operation ends with `ArithmeticOverflow` and its marker stays; else
/// the marker is cleared and the result is `Ok` exactly when the checkpoint
/// read back is the expected one.
pub open spec fn settle_spec(s: VaultState, t: VaultTransfer, principal_after: i128) -> (
    VaultState,
    Result<(), RebateError>,
) {
    let e = expected_principal(t);
    let observed = VaultState { principal: principal_after, ..s };
    if e < i128::MIN || e > i128::MAX {
        (observed, Err(RebateError::ArithmeticOverflow))
    } else if principal_after != e {
        (cleared(observed), Err(RebateError::PrincipalMismatch))
    } else {
        (cleared(observed), Ok(()))
    }
}

/// Clears a stale in-flight operation, left behind by an interrupted earlier
/// call, and reports it.
pub fn cleanup_stale_op(state: &mut VaultState) -> (stale: Option<StaleOperation>)
    ensures
        stale == stale_of(*old(state)),
        *final(state) == cleared(*old(state)),
{
    if let VaultOperation::Idle = state.op {
        return None;
    }
    let stale = StaleOperation { operation: state.op, sequence: state.seq };
    state.op = VaultOperation::Idle;
    Some(stale)
}

/// Commits and returns the next vault sequence number.
pub fn next_vault_seq(state: &mut VaultState) -> (seq: u64)
    requires
        old(state).seq < u64::MAX,
    ensures
        seq == old(state).seq + 1,
        *final(state) == (VaultState { seq, ..*old(state) }),
{
    let seq = state.seq + 1;
    state.seq = seq;
    seq
}

/// First step of a deposit into the yield vault: a non-positive amount is
/// refused with `InsufficientPrincipal` and nothing changes; otherwise a stale
/// operation is cleaned up, the next sequence number is committed and a
/// `Depositing` marker with it, the amount and `now` is recorded. The
/// returned transfer is settled with `settle_vault_transfer` once the vault
/// transfer has run.
pub fn deposit_to_vault(state: &mut VaultState, amount: i128, now: u64) -> (step: VaultStep)
    requires
        amount <= 0 || old(state).seq < u64::MAX,
    ensures
        (*final(state), step) == deposit_spec(*old(state), amount, now),
{
    if amount <= 0 {
        return VaultStep { cleaned_up: None, outcome: Err(RebateError::InsufficientPrincipal) };
    }
    let cleaned_up = cleanup_stale_op(state);
    let sequence = next_vault_seq(state);
    state.op = VaultOperation::Depositing { sequence, amount, timestamp: now };
    let transfer = VaultTransfer {
        direction: TransferDirection::Deposit,
        sequence,
        amount,
        principal_before: state.principal,
    };
    VaultStep { cleaned_up, outcome: Ok(transfer) }
}

/// First step of a withdrawal from the yield vault: a non-positive amount is
/// refused with `InsufficientPrincipal` and nothing changes; otherwise a stale
/// operation is cleaned up, and an amount above the principal checkpoint is
/// refused with `InsufficientPrincipal`; else the next sequence number is
/// committed and a `Withdrawing` marker with it, the amount and `now` is
/// recorded. The returned transfer is settled with `settle_vault_transfer`.
pub fn withdraw_from_vault(state: &mut VaultState, amount: i128, now: u64) -> (step: VaultStep)
    requires
        amount <= 0 || old(state).principal < amount || old(state).seq < u64::MAX,
    ensures
        (*final(state), step) == withdraw_spec(*old(state), amount, now),
{
    if amount <= 0 {
        return VaultStep { cleaned_up: None, outcome: Err(RebateError::InsufficientPrincipal) };
    }
    let cleaned_up = cleanup_stale_op(state);
    let principal_before = state.principal;
    if principal_before < amount {
        return VaultStep { cleaned_up, outcome: Err(RebateError::InsufficientPrincipal) };
    }
    let sequence = next_vault_seq(state);
    state.op = VaultOperation::Withdrawing { sequence, amount, timestamp: now };
    let transfer = VaultTransfer {
        direction: TransferDirection::Withdraw,
        sequence,
        amount,
        principal_before,
    };
    VaultStep { cleaned_up, outcome: Ok(transfer) }
}

/// Second step of a vault operation: checks the principal checkpoint read
/// back after the transfer against the expected one, clears the in-flight
/// marker and reports `PrincipalMismatch` when they differ.
pub fn settle_vault_transfer(
    state: &mut VaultState,
    transfer: VaultTransfer,
    principal_after: i128,
) -> (r: Result<(), RebateError>)
    ensures
        (*final(state), r) == settle_spec(*old(state), transfer, principal_after),
{
    state.principal = principal_after;
    let expected = match transfer.direction {
        TransferDirection::Deposit => transfer.principal_before.checked_add(transfer.amount),
        TransferDirection::Withdraw => transfer.principal_before.checked_sub(transfer.amount),
    };
    let expected = match expected {
        Some(e) => e,
        None => {
            return Err(RebateError::ArithmeticOverflow);
        },
    };
    state.op = VaultOperation::Idle;
    if principal_after != expected {
        return Err(RebateError::PrincipalMismatch);
    }
    Ok(())
}

/// The rebate for a principal at an APY (in basis points) over an elapsed
/// time: `InvalidRate` for a rate outside `0..=MAX_REBATE_RATE_BPS`, then
/// `InsufficientPrincipal` below `MIN_REBATE_THRESHOLD`, then
/// `ArithmeticOverflow` when `principal * apy_bps` or that times the elapsed
/// seconds leaves `i128`; otherwise `principal * apy_bps * seconds`
/// divided by `REBATE_BPS_SCALE * SECONDS_PER_YEAR`, rounded down.
pub open spec fn rebate_spec(principal: i128, apy_bps: i128, time_elapsed_seconds: u64) -> Result<
    i128,
    RebateError,
> {
    if !(0 <= apy_bps <= MAX_REBATE_RATE_BPS) {
        Err(RebateError::InvalidRate)
    } else if principal < MIN_REBATE_THRESHOLD {
        Err(RebateError::InsufficientPrincipal)
    } else if principal * apy_bps > i128::MAX {
        Err(RebateError::ArithmeticOverflow)
    } else if principal * apy_bps * time_elapsed_seconds > i128::MAX {
        Err(RebateError::ArithmeticOverflow)
    } else {
        Ok(
            (principal * apy_bps * time_elapsed_seconds / (REBATE_BPS_SCALE
                * SECONDS_PER_YEAR)) as i128,
        )
    }
}

/// Calculates a rebate with fixed-point arithmetic from the time elapsed and
/// the APY; see `rebate_spec`.
pub fn calculate_rebate_with_params(
    principal: i128,
    apy_bps: i128,
    time_elapsed_seconds: u64,
) -> (r: Result<i128, RebateError>)
    ensures
        r == rebate_spec(principal, apy_bps, time_elapsed_seconds),
{
    if !(0 <= apy_bps && apy_bps <= MAX_REBATE_RATE_BPS) {
        return Err(RebateError::InvalidRate);
    }
    if principal < MIN_REBATE_THRESHOLD {
        return Err(RebateError::InsufficientPrincipal);
    }
    let time_elapsed = time_elapsed_seconds as i128;
    let principal_times_rate = match principal.checked_mul(apy_bps) {
        Some(p) => p,
        None => {
            return Err(RebateError::ArithmeticOverflow);
        },
    };
    let numerator = match principal_times_rate.checked_mul(time_elapsed) {
        Some(n) => n,
        None => {
            return Err(RebateError::ArithmeticOverflow);
        },
    };
    let denominator = match REBATE_BPS_SCALE.checked_mul(SECONDS_PER_YEAR) {
        Some(d) => d,
        None => {
            return Err(RebateError::ArithmeticOverflow);
        },
    };
    assert(0 <= principal_times_rate) by (nonlinear_arith)
        requires
            principal_times_rate == principal * apy_bps,
            principal >= 0,
            apy_bps >= 0,
    ;
    assert(0 <= numerator) by (nonlinear_arith)
        requires
            numerator == principal_times_rate * time_elapsed,
            principal_times_rate >= 0,
            time_elapsed >= 0,
    ;
    let rebate = numerator / denominator;
    Ok(rebate)
}

/// Calculates the rebate of the mock yield configuration (a principal of
/// 1_000_000 at 500 basis points over one day): 136.
pub fn calculate_rebate() -> (r: Result<i128, RebateError>)
    ensures
        r == rebate_spec(MOCK_PRINCIPAL, MOCK_APY_BPS, MOCK_TIME_ELAPSED),
        r == Ok::<i128, RebateError>(136),
{
    assert(43_200_000_000_000int / 315_576_000_000int == 136) by (nonlinear_arith);
    calculate_rebate_with_params(MOCK_PRINCIPAL, MOCK_APY_BPS, MOCK_TIME_ELAPSED)
}

/// Law: a stale in-flight marker, whatever it holds, never blocks a new vault
/// operation: it is reported, and the new operation's marker replaces it
/// under the next sequence number.
pub proof fn lemma_stale_marker_never_blocks(s: VaultState, amount: i128, now: u64)
    requires
        amount > 0,
        s.seq < u64::MAX,
    ensures
        deposit_spec(s, amount, now).1.cleaned_up == stale_of(s),
        deposit_spec(s, amount, now).1.outcome is Ok,
        deposit_spec(s, amount, now).0.op == (VaultOperation::Depositing {
            sequence: (s.seq + 1) as u64,
            amount,
            timestamp: now,
        }),
        s.principal >= amount ==> withdraw_spec(s, amount, now).1.cleaned_up == stale_of(s),
        s.principal >= amount ==> withdraw_spec(s, amount, now).1.outcome is Ok,
        s.principal >= amount ==> withdraw_spec(s, amount, now).0.op == (
        VaultOperation::Withdrawing { sequence: (s.seq + 1) as u64, amount, timestamp: now }),
{
}

/// Law: every vault operation that starts takes a fresh sequence number, one
/// above the last committed one, and commits it; refused requests commit
/// none.
pub proof fn lemma_sequence_numbers_advance(s: VaultState, amount: i128, now: u64)
    requires
        s.seq < u64::MAX,
    ensures
        deposit_spec(s, amount, now).1.outcome matches Ok(t) ==> t.sequence == s.seq + 1
            && deposit_spec(s, amount, now).0.seq == t.sequence,
        deposit_spec(s, amount, now).1.outcome is Err ==> deposit_spec(s, amount, now).0.seq
            == s.seq,
        withdraw_spec(s, amount, now).1.outcome matches Ok(t) ==> t.sequence == s.seq + 1
            && withdraw_spec(s, amount, now).0.seq == t.sequence,
        withdraw_spec(s, amount, now).1.outcome is Err ==> withdraw_spec(s, amount, now).0.seq
            == s.seq,
{
}

/// Law: a deposit of a positive amount, settled against the checkpoint read
/// back after the transfer, succeeds exactly when that checkpoint is the
/// earlier principal plus the amount; it leaves no operation in flight,
/// unless the expected checkpoint overflows `i128`, which ends it with
/// `ArithmeticOverflow` and keeps its marker.
pub proof fn lemma_deposit_settles(s: VaultState, amount: i128, now: u64, principal_after: i128)
    requires
        amount > 0,
        s.seq < u64::MAX,
    ensures
        ({
            let (s1, step) = deposit_spec(s, amount, now);
            let (s2, r) = settle_spec(s1, step.outcome->Ok_0, principal_after);
            &&& s2.seq == s.seq + 1
            &&& s2.principal == principal_after
            &&& s.principal + amount <= i128::MAX ==> {
                &&& (r is Ok <==> principal_after == s.principal + amount)
                &&& (r is Err ==> r == Err::<(), RebateError>(RebateError::PrincipalMismatch))
                &&& s2.op is Idle
            }
            &&& s.principal + amount > i128::MAX ==> {
                &&& r == Err::<(), RebateError>(RebateError::ArithmeticOverflow)
                &&& s2.op == s1.op
            }
        }),
{
}

/// Law: a withdrawal of a positive amount up to the principal, settled
/// against the checkpoint read back after the transfer, succeeds exactly when
/// that checkpoint is the earlier principal minus the amount, and always
/// leaves no operation in flight; an amount above the principal is refused
/// before any transfer.
pub proof fn lemma_withdraw_settles(s: VaultState, amount: i128, now: u64, principal_after: i128)
    requires
        amount > 0,
        s.seq < u64::MAX,
    ensures
        s.principal < amount ==> withdraw_spec(s, amount, now).1.outcome == Err::<
            VaultTransfer,
            RebateError,
        >(RebateError::InsufficientPrincipal),
        s.principal >= amount ==> ({
            let (s1, step) = withdraw_spec(s, amount, now);
            let (s2, r) = settle_spec(s1, step.outcome->Ok_0, principal_after);
            &&& (r is Ok <==> principal_after == s.principal - amount)
            &&& (r is Err ==> r == Err::<(), RebateError>(RebateError::PrincipalMismatch))
            &&& s2.op is Idle
            &&& s2.seq == s.seq + 1
            &&& s2.principal == principal_after
        }),
{
}

/// Law: a rebate is never negative and never above what the maximum rate of
/// `MAX_REBATE_RATE_BPS` basis points gives for the same principal and time.
pub proof fn lemma_rebate_bounded(principal: i128, apy_bps: i128, time_elapsed_seconds: u64)
    requires
        rebate_spec(principal, apy_bps, time_elapsed_seconds) is Ok,
    ensures
        ({
            let r = rebate_spec(principal, apy_bps, time_elapsed_seconds)->Ok_0;
            &&& 0 <= r
            &&& r * (REBATE_BPS_SCALE * SECONDS_PER_YEAR) <= principal * MAX_REBATE_RATE_BPS
                * time_elapsed_seconds
        }),
{
    let p = principal as int;
    let a = apy_bps as int;
    let t = time_elapsed_seconds as int;
    let d = 315_576_000_000int;
    assert(p * a * t <= p * 1000 * t && 0 <= p * a * t) by (nonlinear_arith)
        requires
            p >= 100,
            0 <= a <= 1000,
            t >= 0,
    ;
    assert((p * a * t / d) * d <= p * a * t && 0 <= p * a * t / d) by (nonlinear_arith)
        requires
            p * a * t >= 0,
            d > 0,
    ;
}

/// Law: the rebate is exactly the floor of
/// `principal * apy_bps * time_elapsed_seconds / (10_000 * 31_557_600)`
/// whenever the rate lies in `0..=1000` basis points, the principal is at
/// least 100 and neither `principal * apy_bps` nor that times the seconds
/// leaves `i128`; a rate outside `0..=1000` gives `InvalidRate`, then a
/// principal below 100 gives `InsufficientPrincipal`, then a product that
/// leaves `i128` gives `ArithmeticOverflow`.
pub proof fn lemma_rebate_exact(principal: i128, apy_bps: i128, time_elapsed_seconds: u64)
    ensures
        !(0 <= apy_bps <= 1000) ==> rebate_spec(principal, apy_bps, time_elapsed_seconds)
            == Err::<i128, RebateError>(RebateError::InvalidRate),
        0 <= apy_bps <= 1000 && principal < 100 ==> rebate_spec(
            principal,
            apy_bps,
            time_elapsed_seconds,
        ) == Err::<i128, RebateError>(RebateError::InsufficientPrincipal),
        0 <= apy_bps <= 1000 && principal >= 100 && (principal * apy_bps > i128::MAX || principal
            * apy_bps * time_elapsed_seconds > i128::MAX) ==> rebate_spec(
            principal,
            apy_bps,
            time_elapsed_seconds,
        ) == Err::<i128, RebateError>(RebateError::ArithmeticOverflow),
        0 <= apy_bps <= 1000 && principal >= 100 && principal * apy_bps <= i128::MAX && principal
            * apy_bps * time_elapsed_seconds <= i128::MAX ==> ({
            let r = rebate_spec(principal, apy_bps, time_elapsed_seconds);
            &&& r is Ok
            &&& r->Ok_0 * 315_576_000_000int <= principal * apy_bps * time_elapsed_seconds
            &&& principal * apy_bps * time_elapsed_seconds < (r->Ok_0 + 1) * 315_576_000_000int
        }),
{
    let n = principal * apy_bps * time_elapsed_seconds;
    let d = 315_576_000_000int;
    if 0 <= apy_bps <= 1000 && principal >= 100 && principal * apy_bps <= i128::MAX && n
        <= i128::MAX {
        assert(0 <= n) by (nonlinear_arith)
            requires
                n == principal * apy_bps * time_elapsed_seconds,
                principal >= 100,
                apy_bps >= 0,
                time_elapsed_seconds >= 0,
        ;
        assert((n / d) * d <= n && n < (n / d + 1) * d && 0 <= n / d <= n) by (nonlinear_arith)
            requires
                n >= 0,
                d > 0,
        ;
    }
}

/// Law: a deposit or withdrawal of an amount that is not positive is refused
/// with `InsufficientPrincipal`, reports no cleanup and changes nothing.
pub proof fn lemma_non_positive_amount_refused(s: VaultState, amount: i128, now: u64)
    requires
        amount <= 0,
    ensures
        deposit_spec(s, amount, now).0 == s,
        deposit_spec(s, amount, now).1.cleaned_up is None,
        deposit_spec(s, amount, now).1.outcome == Err::<VaultTransfer, RebateError>(
            RebateError::InsufficientPrincipal,
        ),
        withdraw_spec(s, amount, now).0 == s,
        withdraw_spec(s, amount, now).1.cleaned_up is None,
        withdraw_spec(s, amount, now).1.outcome == Err::<VaultTransfer, RebateError>(
            RebateError::InsufficientPrincipal,
        ),
{
}

/// Law: a withdrawal of a positive amount above the principal is refused
/// with `InsufficientPrincipal` after a stale marker has been cleaned up: no
/// operation is left in flight and the sequence number and principal stay.
pub proof fn lemma_overdrawn_withdrawal_refused(s: VaultState, amount: i128, now: u64)
    requires
        0 < amount,
        s.principal < amount,
    ensures
        withdraw_spec(s, amount, now).1.outcome == Err::<VaultTransfer, RebateError>(
            RebateError::InsufficientPrincipal,
        ),
        withdraw_spec(s, amount, now).0.op is Idle,
        withdraw_spec(s, amount, now).0.seq == s.seq,
        withdraw_spec(s, amount, now).0.principal == s.principal,
        withdraw_spec(s, amount, now).1.cleaned_up == stale_of(s),
{
}

/// Law: cleaning up reports the in-flight operation (with the last committed
/// sequence number) exactly when there is one, and always leaves no operation
/// in flight with the sequence number and principal unchanged.
pub proof fn lemma_cleanup_reports_and_clears(s: VaultState)
    ensures
        (stale_of(s) is None) <==> (s.op is Idle),
        stale_of(s) matches Some(st) ==> st.operation == s.op && st.sequence == s.seq,
        cleared(s).op is Idle,
        cleared(s).seq == s.seq,
        cleared(s).principal == s.principal,
{
}

/// Law: distinct rebate errors have distinct codes, all in `1..=5`.
pub proof fn lemma_rebate_error_codes_distinct(a: RebateError, b: RebateError)
    ensures
        1 <= a.spec_code() <= 5,
        a != b ==> a.spec_code() != b.spec_code(),
{
}

/// Law: starting (or refusing) a deposit or withdrawal never touches the
/// principal checkpoint, and a transfer that starts carries the requested
/// amount, its direction and the checkpoint found before it.
pub proof fn lemma_start_keeps_principal(s: VaultState, amount: i128, now: u64)
    ensures
        deposit_spec(s, amount, now).0.principal == s.principal,
        withdraw_spec(s, amount, now).0.principal == s.principal,
        deposit_spec(s, amount, now).1.outcome matches Ok(t) ==> t.amount == amount
            && t.principal_before == s.principal && t.direction == TransferDirection::Deposit,
        withdraw_spec(s, amount, now).1.outcome matches Ok(t) ==> t.amount == amount
            && t.principal_before == s.principal && t.direction == TransferDirection::Withdraw,
{
}

} // verus!
