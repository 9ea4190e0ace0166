//! Verified core of the drip stream contracts: the yield-vault operation
//! protocol, the rebate arithmetic, the batch-transfer totals and the
//! re-entrancy guard that protects them, together with the error codes the
//! contracts report to the Soroban host.
pub mod batch_transfer_processor;
pub mod sdk;
pub mod stream;
