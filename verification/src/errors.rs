use vstd::prelude::*;

verus! {

/// Why a transition was refused.
///
/// Every failure is detected locally and returned to the caller; a failed
/// transition leaves every record it touched unchanged.
#[derive(Clone, Copy, Debug, PartialEq, Eq)]
pub enum ErrorCode {
    /// The contribution window has not opened yet.
    PoolNotStarted,
    /// The contribution window has already closed.
    PoolEnded,
    /// The pool has been finalized and accepts no further contributions.
    PoolFinalized,
    /// The vesting cliff has not been reached yet.
    CliffNotReached,
    /// Nothing new has unlocked since the last claim; a benign no-op
    /// signal rather than a true fault.
    NoTokensToClaim,
    /// A checked arithmetic step overflowed or underflowed.
    NumberOverflow,
}

} // verus!
