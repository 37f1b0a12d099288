//! A capital-raising pool with linear vesting.
//!
//! Participants contribute value to a [`pool::Pool`] during a time-boxed
//! window in exchange for an asset entitlement, recorded in a
//! [`vesting::VestingSchedule`] and released linearly over time after an
//! initial lock (the cliff). The two transitions — [`pool::invest`] and
//! [`vesting::claim_tokens`] — are pure functions of the records and the
//! current time; the surrounding execution environment authenticates
//! callers, reads the clock and moves value between accounts.

pub mod account;
pub mod errors;
pub mod laws;
pub mod pool;
pub mod vesting;
