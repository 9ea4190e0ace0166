//! Errors reported by the stream contract.
use vstd::prelude::*;

verus! {

/// A failure of a stream operation, reported to the host as a contract
/// error with the code that `code` gives.
#[derive(Copy, Clone, Debug, Eq, PartialEq, PartialOrd, Ord, Structural)]
pub enum Error {
    NotAuthorized,
    StreamNotFound,
    StreamCancelled,
    StreamNotStarted,
    StreamEnded,
    NothingToWithdraw,
    InsufficientDeposit,
    InvalidTimeRange,
    AlreadyPaused,
    NotPaused,
    ClawbackDisabled,
    ArithmeticOverflow,
    PauseThresholdNotMet,
    AlreadyInitialized,
    InvalidAmount,
    ReentrancyForbidden,
    OperatorAlreadySet,
    /// The recipient is invalid: either the all-zero Stellar account address
    /// (an unspendable sink) or identical to the stream's `sender` (a
    /// self-stream).
    InvalidRecipient,
    /// `start_time` lies before the current ledger time, so the stream would
    /// already be running when it is initialized.
    BackdatedStream,
    /// The stream has accrued more tokens than are funded in the contract;
    /// the recipient may withdraw only the funded portion.
    StreamUnderfunded,
}

impl Error {
    /// The contract error code of each variant, as the host sees it.
    pub open spec fn spec_code(self) -> u32 {
        match self {
            Error::NotAuthorized => 1,
            Error::StreamNotFound => 2,
            Error::StreamCancelled => 3,
            Error::StreamNotStarted => 4,
            Error::StreamEnded => 5,
            Error::NothingToWithdraw => 6,
            Error::InsufficientDeposit => 7,
            Error::InvalidTimeRange => 8,
            Error::AlreadyPaused => 9,
            Error::NotPaused => 10,
            Error::ClawbackDisabled => 11,
            Error::ArithmeticOverflow => 12,
            Error::PauseThresholdNotMet => 13,
            Error::AlreadyInitialized => 14,
            Error::InvalidAmount => 15,
            Error::ReentrancyForbidden => 16,
            Error::OperatorAlreadySet => 17,
            Error::InvalidRecipient => 18,
            Error::BackdatedStream => 19,
            Error::StreamUnderfunded => 20,
        }
    }

    /// The contract error code of this error.
    pub fn code(&self) -> (c: u32)
        ensures
            c == self.spec_code(),
    {
        match self {
            Error::NotAuthorized => 1,
            Error::StreamNotFound => 2,
            Error::StreamCancelled => 3,
            Error::StreamNotStarted => 4,
            Error::StreamEnded => 5,
            Error::NothingToWithdraw => 6,
            Error::InsufficientDeposit => 7,
            Error::InvalidTimeRange => 8,
            Error::AlreadyPaused => 9,
            Error::NotPaused => 10,
            Error::ClawbackDisabled => 11,
            Error::ArithmeticOverflow => 12,
            Error::PauseThresholdNotMet => 13,
            Error::AlreadyInitialized => 14,
            Error::InvalidAmount => 15,
            Error::ReentrancyForbidden => 16,
            Error::OperatorAlreadySet => 17,
            Error::InvalidRecipient => 18,
            Error::BackdatedStream => 19,
            Error::StreamUnderfunded => 20,
        }
    }
}

/// Law: distinct stream errors have distinct codes, all in `1..=20`.
pub proof fn lemma_error_codes_distinct(a: Error, b: Error)
    ensures
        1 <= a.spec_code() <= 20,
        a != b ==> a.spec_code() != b.spec_code(),
{
}

} // verus!
