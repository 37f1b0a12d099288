use vstd::prelude::*;

verus! {

/// A 32-byte account address on the ledger.
///
/// The pool logic never looks inside an address: it only records who
/// created a pool, who contributed, and which pool a vesting schedule
/// belongs to. Authentication of these identities is the execution
/// environment's job.
#[derive(Clone, Copy, Debug, PartialEq, Eq)]
pub struct AccountId {
    pub bytes: [u8; 32],
}

} // verus!
