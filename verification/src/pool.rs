use vstd::prelude::*;

use crate::account::AccountId;
use crate::errors::ErrorCode;
use crate::vesting::{VestingSchedule, CLIFF_SECONDS, VESTING_DURATION_SECONDS};

verus! {

/// The sale record: terms fixed at creation and the running total of
/// accepted contributions.
#[derive(Clone, Copy, Debug, PartialEq, Eq)]
pub struct Pool {
    /// Identity permitted to administer the pool; immutable after
    /// creation, and the authority for disbursements out of custody.
    pub authority: AccountId,
    /// The asset being sold.
    pub token_mint: AccountId,
    /// Asset units granted per contribution-currency unit.
    pub token_price: u64,
    /// Target contribution total; declared, enforced by no transition.
    pub soft_cap: u64,
    /// Maximum contribution total; declared, enforced by no transition.
    pub hard_cap: u64,
    /// First moment (inclusive) at which contributions are accepted.
    pub start_time: i64,
    /// Last moment (inclusive) at which contributions are accepted; also
    /// the vesting start of every schedule this pool creates.
    pub end_time: i64,
    /// Set nowhere in this core; contributions are refused while it is
    /// set.
    pub finalized: bool,
    /// Sum of all accepted contribution amounts.
    pub total_invested: u64,
}

impl Pool {
    /// Whether a contribution of `amount` at time `now` passes every
    /// check: the window is open, the pool is not finalized, and both
    /// checked 64-bit operations — the entitlement multiplication and
    /// the running-total addition — fit.
    pub open spec fn accepts(self, amount: u64, now: i64) -> bool {
        &&& now >= self.start_time
        &&& now <= self.end_time
        &&& !self.finalized
        &&& amount * self.token_price <= u64::MAX
        &&& self.total_invested + amount <= u64::MAX
    }

    /// The first check a refused contribution fails, in the order the
    /// transition makes them.
    pub open spec fn refusal(self, amount: u64, now: i64) -> ErrorCode {
        if now < self.start_time {
            ErrorCode::PoolNotStarted
        } else if now > self.end_time {
            ErrorCode::PoolEnded
        } else if self.finalized {
            ErrorCode::PoolFinalized
        } else {
            ErrorCode::NumberOverflow
        }
    }

    /// The schedule an accepted contribution creates: the entitlement is
    /// exactly `amount * token_price`, nothing is claimed yet, and the
    /// curve starts at the pool's end time with the fixed cliff and
    /// duration.
    pub open spec fn schedule_for(
        self,
        pool_key: AccountId,
        investor: AccountId,
        amount: u64,
    ) -> VestingSchedule {
        VestingSchedule {
            investor: investor,
            pool: pool_key,
            total_amount: (amount * self.token_price) as u64,
            claimed_amount: 0,
            start_time: self.end_time,
            cliff: CLIFF_SECONDS,
            duration: VESTING_DURATION_SECONDS,
        }
    }

    /// The pool after an accepted contribution: only the running total
    /// moves.
    pub open spec fn with_investment(self, amount: u64) -> Pool {
        Pool { total_invested: (self.total_invested + amount) as u64, ..self }
    }
}

/// Creates a pool with the given terms, an empty running total and the
/// finalized flag clear.
///
/// No ordering of the caps or of the window bounds is validated here:
/// the terms are recorded as given, and persisting the record under a
/// fresh storage key is the execution environment's concern.
pub fn initialize_pool(
    authority: AccountId,
    token_mint: AccountId,
    token_price: u64,
    soft_cap: u64,
    hard_cap: u64,
    start_time: i64,
    end_time: i64,
) -> (pool: Pool)
    ensures
        pool.authority == authority,
        pool.token_mint == token_mint,
        pool.token_price == token_price,
        pool.soft_cap == soft_cap,
        pool.hard_cap == hard_cap,
        pool.start_time == start_time,
        pool.end_time == end_time,
        !pool.finalized,
        pool.total_invested == 0,
{
    Pool {
        authority: authority,
        token_mint: token_mint,
        token_price: token_price,
        soft_cap: soft_cap,
        hard_cap: hard_cap,
        start_time: start_time,
        end_time: end_time,
        finalized: false,
        total_invested: 0,
    }
}

/// The investment transition: converts a contribution into a fresh
/// vesting schedule and grows the pool's running total.
///
/// The checks are made in order — window not yet open, window closed,
/// finalized flag, entitlement multiplication, running-total addition —
/// and the first failure wins, leaving the pool unchanged. On success
/// the returned schedule grants exactly `amount * token_price` units and
/// the running total has grown by `amount`. The caller transfers
/// `amount` into pool custody in the same atomic unit, and only when the
/// result is `Ok`.
pub fn invest(
    pool: &mut Pool,
    pool_key: AccountId,
    investor: AccountId,
    amount: u64,
    now: i64,
) -> (result: Result<VestingSchedule, ErrorCode>)
    ensures
        old(pool).accepts(amount, now) ==> result == Ok::<VestingSchedule, ErrorCode>(
            old(pool).schedule_for(pool_key, investor, amount),
        ),
        old(pool).accepts(amount, now) ==> *final(pool) == old(pool).with_investment(amount),
        !old(pool).accepts(amount, now) ==> result == Err::<VestingSchedule, ErrorCode>(
            old(pool).refusal(amount, now),
        ),
        !old(pool).accepts(amount, now) ==> *final(pool) == *old(pool),
{
    if now < pool.start_time {
        return Err(ErrorCode::PoolNotStarted);
    }
    if now > pool.end_time {
        return Err(ErrorCode::PoolEnded);
    }
    if pool.finalized {
        return Err(ErrorCode::PoolFinalized);
    }
    let token_amount = match amount.checked_mul(pool.token_price) {
        Some(t) => t,
        None => {
            return Err(ErrorCode::NumberOverflow);
        },
    };
    let new_total = match pool.total_invested.checked_add(amount) {
        Some(t) => t,
        None => {
            return Err(ErrorCode::NumberOverflow);
        },
    };
    let vesting = VestingSchedule {
        investor: investor,
        pool: pool_key,
        total_amount: token_amount,
        claimed_amount: 0,
        start_time: pool.end_time,
        cliff: CLIFF_SECONDS,
        duration: VESTING_DURATION_SECONDS,
    };
    pool.total_invested = new_total;
    Ok(vesting)
}

} // verus!
