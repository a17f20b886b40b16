//! A linear token-vesting accounting engine.
//!
//! A fixed quantity of an asset is locked for a beneficiary and released
//! continuously between a start and an end time, with an optional amount
//! unlocked immediately at the start. The beneficiary may claim whatever has
//! vested but not yet been withdrawn, at any time, any number of times.
//!
//! This crate holds the verified accounting core: schedule validation, the
//! vesting calculator, and the claim state transition. Asset custody, the
//! clock, and on-chain account plumbing are collaborators supplied by the
//! caller.

pub mod claim;
pub mod schedule;
pub mod vesting;
