//! Batch transfer processor: totals of transfer batches, computed under a
//! re-entrancy guard whose depth counter the contract keeps in its storage.
use crate::sdk::{host_vec_u64_len, host_vec_u64_slots, host_vec_u64_try_get};
use vstd::prelude::*;

verus! {

/// A failure of the batch processor, reported to the host as a contract
/// error with the code that `code` gives.
#[derive(Copy, Clone, Debug, Eq, PartialEq, PartialOrd, Ord, Structural)]
pub enum Error {
    ProcessorLocked,
    CalculationOverflow,
    BatchTooLarge,
}

impl Error {
    /// The contract error code of each variant, as the host sees it.
    pub open spec fn spec_code(self) -> u32 {
        match self {
            Error::ProcessorLocked => 2001,
            Error::CalculationOverflow => 2002,
            Error::BatchTooLarge => 2003,
        }
    }

    /// The contract error code of this error.
    pub fn code(&self) -> (c: u32)
        ensures
            c == self.spec_code(),
    {
        match self {
            Error::ProcessorLocked => 2001,
            Error::CalculationOverflow => 2002,
            Error::BatchTooLarge => 2003,
        }
    }
}

/// Largest number of amounts one batch may hold.
pub const MAX_BATCH_SIZE: u32 = 100;

/// Depth at which the re-entrancy guard refuses entry.
pub const MAX_REENTRANCY_DEPTH: u32 = 1;

/// The depth a stored guard counter stands for, `default` when none is stored.
pub open spec fn stored_depth(stored: Option<u32>, default: u32) -> u32 {
    match stored {
        Some(d) => d,
        None => default,
    }
}

/// Entering the guard: refused at `MAX_REENTRANCY_DEPTH` or deeper, otherwise
/// the counter to store is one more than the stored one (absent counts as 0).
pub open spec fn guard_enter_spec(stored: Option<u32>) -> Result<u32, Error> {
    let depth = stored_depth(stored, 0);
    if depth >= MAX_REENTRANCY_DEPTH {
        Err(Error::ProcessorLocked)
    } else {
        Ok((depth + 1) as u32)
    }
}

/// Leaving the guard: a positive stored counter (absent counts as 1) is
/// lowered by one; a zero counter is left alone.
pub open spec fn guard_exit_spec(stored: Option<u32>) -> Option<u32> {
    let depth = stored_depth(stored, 1);
    if depth > 0 {
        Some((depth - 1) as u32)
    } else {
        None
    }
}

/// Decides entry into the guarded section from the counter found in storage:
/// `Ok` with the counter to store before running the section, or
/// `ProcessorLocked` when the section is already running.
pub fn guard_enter(stored: Option<u32>) -> (r: Result<u32, Error>)
    ensures
        r == guard_enter_spec(stored),
{
    let depth: u32 = match stored {
        Some(d) => d,
        None => 0,
    };
    if depth >= MAX_REENTRANCY_DEPTH {
        return Err(Error::ProcessorLocked);
    }
    Ok(depth + 1)
}

/// Decides the release of the guard from the counter found in storage after
/// the section ran: the counter to store, or `None` when nothing is written.
pub fn guard_exit(stored: Option<u32>) -> (r: Option<u32>)
    ensures
        r == guard_exit_spec(stored),
{
    let depth: u32 = match stored {
        Some(d) => d,
        None => 1,
    };
    if depth > 0 {
        Some(depth - 1)
    } else {
        None
    }
}

/// Law: releasing the guard right after entering it stores back the depth
/// that was found, so the lock is released afterwards.
pub proof fn lemma_guard_release_restores(stored: Option<u32>)
    requires
        guard_enter_spec(stored) is Ok,
    ensures
        guard_exit_spec(Some(guard_enter_spec(stored)->Ok_0)) == Some(stored_depth(stored, 0)),
{
}

/// Law: while the guard is held, entering it again is refused with
/// `ProcessorLocked`.
pub proof fn lemma_guard_refuses_reentry(stored: Option<u32>)
    requires
        guard_enter_spec(stored) is Ok,
    ensures
        guard_enter_spec(Some(guard_enter_spec(stored)->Ok_0)) == Err::<u32, Error>(
            Error::ProcessorLocked,
        ),
{
}

/// Summing the slots from index `i` on, `total` being the sum of those before:
/// the total, `CalculationOverflow` as soon as a running sum exceeds
/// `u64::MAX`, or `None` where a slot that is reached holds no `u64` (the
/// processor traps there).
pub open spec fn batch_scan(slots: Seq<Option<u64>>, i: int, total: int) -> Option<
    Result<u64, Error>,
>
    decreases slots.len() - i,
{
    if i >= slots.len() {
        Some(Ok(total as u64))
    } else {
        match slots[i] {
            None => None,
            Some(x) => if total + x > u64::MAX {
                Some(Err(Error::CalculationOverflow))
            } else {
                batch_scan(slots, i + 1, total + x)
            },
        }
    }
}

/// What processing a batch with these slots gives: `BatchTooLarge` above
/// `MAX_BATCH_SIZE` amounts, otherwise the outcome of summing them in order;
/// `None` where the processor traps on a slot that holds no `u64`.
pub open spec fn batch_outcome(slots: Seq<Option<u64>>) -> Option<Result<u64, Error>> {
    if slots.len() > MAX_BATCH_SIZE {
        Some(Err(Error::BatchTooLarge))
    } else {
        batch_scan(slots, 0, 0)
    }
}

/// The sum of the amounts in the slots from index `i` on.
pub open spec fn slot_sum_from(slots: Seq<Option<u64>>, i: int) -> int
    decreases slots.len() - i,
{
    if i >= slots.len() {
        0
    } else {
        let x: int = match slots[i] {
            Some(x) => x as int,
            None => 0,
        };
        x + slot_sum_from(slots, i + 1)
    }
}

proof fn lemma_batch_scan_total(slots: Seq<Option<u64>>, i: int, total: int)
    requires
        0 <= i <= slots.len(),
        0 <= total <= u64::MAX,
        forall|j: int| i <= j < slots.len() ==> (#[trigger] slots[j]) is Some,
    ensures
        slot_sum_from(slots, i) >= 0,
        batch_scan(slots, i, total) == if total + slot_sum_from(slots, i) <= u64::MAX {
            Some(Ok::<u64, Error>((total + slot_sum_from(slots, i)) as u64))
        } else {
            Some(Err::<u64, Error>(Error::CalculationOverflow))
        },
    decreases slots.len() - i,
{
    if i < slots.len() {
        let x = slots[i]->Some_0;
        lemma_batch_scan_total(slots, i + 1, if total + x <= u64::MAX { total + x } else { 0 });
    }
}

/// Law: a batch of at most `MAX_BATCH_SIZE` well-formed amounts totals
/// exactly, and fails with `CalculationOverflow` exactly when the total
/// exceeds `u64::MAX`.
pub proof fn lemma_batch_total(slots: Seq<Option<u64>>)
    requires
        slots.len() <= MAX_BATCH_SIZE,
        forall|j: int| 0 <= j < slots.len() ==> (#[trigger] slots[j]) is Some,
    ensures
        batch_outcome(slots) == if slot_sum_from(slots, 0) <= u64::MAX {
            Some(Ok::<u64, Error>(slot_sum_from(slots, 0) as u64))
        } else {
            Some(Err::<u64, Error>(Error::CalculationOverflow))
        },
{
    lemma_batch_scan_total(slots, 0, 0);
}

/// The batch transfer processor contract.
pub struct BatchTransferProcessor;

impl BatchTransferProcessor {
    fn scan_batch(amounts: &soroban_sdk::Vec<u64>) -> (r: Option<Result<u64, Error>>)
        ensures
            r == batch_outcome(host_vec_u64_slots(*amounts)),
    {
        let ghost slots = host_vec_u64_slots(*amounts);
        let n = host_vec_u64_len(amounts);
        if n > MAX_BATCH_SIZE {
            return Some(Err(Error::BatchTooLarge));
        }
        let mut total: u64 = 0;
        let mut i: u32 = 0;
        while i < n
            invariant
                n as int == slots.len(),
                slots == host_vec_u64_slots(*amounts),
                n <= MAX_BATCH_SIZE,
                i <= n,
                batch_scan(slots, i as int, total as int) == batch_outcome(slots),
            decreases n - i,
        {
            match host_vec_u64_try_get(amounts, i) {
                Ok(Some(x)) => {
                    match total.checked_add(x) {
                        Some(t) => {
                            total = t;
                        },
                        None => {
                            return Some(Err(Error::CalculationOverflow));
                        },
                    }
                },
                _ => {
                    return None;
                },
            }
            i = i + 1;
        }
        Some(Ok(total))
    }

    /// Totals a batch of transfer amounts: `BatchTooLarge` above
    /// `MAX_BATCH_SIZE` amounts, `CalculationOverflow` when the sum exceeds
    /// `u64::MAX`, otherwise the sum. The batch must not hold, before the
    /// point where summing stops, a value that is no `u64` (the processor
    /// traps on such a value); `try_process_batch` reports that case instead.
    pub fn process_batch(amounts: &soroban_sdk::Vec<u64>) -> (r: Result<u64, Error>)
        requires
            batch_outcome(host_vec_u64_slots(*amounts)) is Some,
        ensures
            Some(r) == batch_outcome(host_vec_u64_slots(*amounts)),
    {
        match Self::scan_batch(amounts) {
            Some(r) => r,
            None => {
                proof {
                    assert(false);
                }
                Err(Error::CalculationOverflow)
            },
        }
    }

    /// `process_batch` on any batch: `None` where processing would trap on a
    /// value that is no `u64`, otherwise `Some` of what `process_batch` gives.
    pub fn try_process_batch(amounts: &soroban_sdk::Vec<u64>) -> (r: Option<Result<u64, Error>>)
        ensures
            r == batch_outcome(host_vec_u64_slots(*amounts)),
    {
        match Self::scan_batch(amounts) {
            Some(_) => Some(Self::process_batch(amounts)),
            None => None,
        }
    }
}

/// Law: a batch of more than `MAX_BATCH_SIZE` amounts is refused with
/// `BatchTooLarge`, whatever it holds.
pub proof fn lemma_batch_too_large(slots: Seq<Option<u64>>)
    requires
        slots.len() > MAX_BATCH_SIZE,
    ensures
        batch_outcome(slots) == Some(Err::<u64, Error>(Error::BatchTooLarge)),
{
}

/// The sum of the amounts in the first `k` slots.
pub open spec fn slot_sum_prefix(slots: Seq<Option<u64>>, k: int) -> int
    decreases k,
{
    if k <= 0 {
        0
    } else {
        let x: int = match slots[k - 1] {
            Some(x) => x as int,
            None => 0,
        };
        slot_sum_prefix(slots, k - 1) + x
    }
}

proof fn lemma_prefix_monotone(slots: Seq<Option<u64>>, j: int, k: int)
    requires
        0 <= j <= k,
    ensures
        0 <= slot_sum_prefix(slots, j) <= slot_sum_prefix(slots, k),
    decreases k,
{
    if k > 0 {
        lemma_prefix_monotone(slots, if j < k { j } else { k - 1 }, k - 1);
    }
}

proof fn lemma_batch_scan_malformed(slots: Seq<Option<u64>>, k: int, i: int)
    requires
        0 <= i <= k < slots.len(),
        slots[k] is None,
        forall|j: int| 0 <= j < k ==> (#[trigger] slots[j]) is Some,
        slot_sum_prefix(slots, i) <= u64::MAX,
    ensures
        batch_scan(slots, i, slot_sum_prefix(slots, i)) == if slot_sum_prefix(slots, k)
            <= u64::MAX {
            None::<Result<u64, Error>>
        } else {
            Some(Err::<u64, Error>(Error::CalculationOverflow))
        },
    decreases k - i,
{
    lemma_prefix_monotone(slots, i, k);
    if i < k {
        assert(slot_sum_prefix(slots, i + 1) == slot_sum_prefix(slots, i) + slots[i]->Some_0);
        lemma_prefix_monotone(slots, i + 1, k);
        if slot_sum_prefix(slots, i + 1) <= u64::MAX {
            lemma_batch_scan_malformed(slots, k, i + 1);
        }
    }
}

/// Law: in a batch of at most `MAX_BATCH_SIZE` slots whose first slot
/// holding no `u64` is slot `k`, processing traps (`None`) exactly when the
/// amounts before slot `k` sum to at most `u64::MAX`, and otherwise fails
/// with `CalculationOverflow` before reaching it.
pub proof fn lemma_batch_malformed(slots: Seq<Option<u64>>, k: int)
    requires
        slots.len() <= MAX_BATCH_SIZE,
        0 <= k < slots.len(),
        slots[k] is None,
        forall|j: int| 0 <= j < k ==> (#[trigger] slots[j]) is Some,
    ensures
        batch_outcome(slots) == if slot_sum_prefix(slots, k) <= u64::MAX {
            None::<Result<u64, Error>>
        } else {
            Some(Err::<u64, Error>(Error::CalculationOverflow))
        },
{
    lemma_batch_scan_malformed(slots, k, 0);
}

/// Law: the guard admits a caller exactly when the stored depth (absent
/// counts as 0) is below `MAX_REENTRANCY_DEPTH`, and then stores that depth
/// plus one; otherwise it refuses with `ProcessorLocked`.
pub proof fn lemma_guard_enter_decides(stored: Option<u32>)
    ensures
        stored is None ==> guard_enter_spec(stored) == Ok::<u32, Error>(1),
        stored matches Some(d) ==> (d < MAX_REENTRANCY_DEPTH ==> guard_enter_spec(stored) == Ok::<
            u32,
            Error,
        >((d + 1) as u32)),
        stored matches Some(d) ==> (d >= MAX_REENTRANCY_DEPTH ==> guard_enter_spec(stored)
            == Err::<u32, Error>(Error::ProcessorLocked)),
{
}

/// Law: releasing the guard lowers a stored positive depth by one, stores 0
/// where none is stored, and writes nothing over a stored 0.
pub proof fn lemma_guard_exit_decides(stored: Option<u32>)
    ensures
        stored is None ==> guard_exit_spec(stored) == Some(0u32),
        stored matches Some(d) ==> (d > 0 ==> guard_exit_spec(stored) == Some((d - 1) as u32)),
        stored == Some(0u32) ==> guard_exit_spec(stored) is None,
{
}

/// Law: distinct batch errors have distinct codes, all in `2001..=2003`.
pub proof fn lemma_batch_error_codes_distinct(a: Error, b: Error)
    ensures
        2001 <= a.spec_code() <= 2003,
        a != b ==> a.spec_code() != b.spec_code(),
{
}

} // verus!
