//! Stream contract: error codes and the yield-vault integration.
pub mod errors;
pub mod yield_integration;
