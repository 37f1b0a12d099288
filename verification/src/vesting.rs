use vstd::arithmetic::div_mod::{
    lemma_div_is_ordered, lemma_div_multiples_vanish, lemma_div_pos_is_pos,
};
use vstd::arithmetic::mul::{lemma_mul_inequality, lemma_mul_nonnegative};
use vstd::prelude::*;

use crate::account::AccountId;
use crate::errors::ErrorCode;

verus! {

/// Seconds after the vesting start before any entitlement is claimable:
/// thirty days. Fixed per investment, not pool-configurable.
pub const CLIFF_SECONDS: i64 = 2_592_000;

/// Seconds after the vesting start over which the entitlement unlocks
/// linearly: one hundred and eighty days. Fixed per investment.
pub const VESTING_DURATION_SECONDS: i64 = 15_552_000;

/// Per-contribution record of an asset entitlement and how much of it
/// has already been disbursed.
///
/// One schedule is created for each accepted contribution; it is mutated
/// only by the claim transition and never deleted.
#[derive(Clone, Copy, Debug, PartialEq, Eq)]
pub struct VestingSchedule {
    /// The contributor the entitlement belongs to.
    pub investor: AccountId,
    /// The pool the contribution was made to (a relation, not ownership).
    pub pool: AccountId,
    /// Entitlement units granted; fixed at creation.
    pub total_amount: u64,
    /// Units already disbursed; non-decreasing, at most `total_amount`.
    pub claimed_amount: u64,
    /// Origin of the vesting curve: the pool's end time, not the moment
    /// of the contribution.
    pub start_time: i64,
    /// Seconds after `start_time` before anything is claimable.
    pub cliff: i64,
    /// Seconds after `start_time` until the entitlement is fully unlocked.
    pub duration: i64,
}

impl VestingSchedule {
    /// The time fields as the investment transition creates them: a
    /// non-negative cliff whose end, `start_time + cliff`, still fits in
    /// an `i64`.
    pub open spec fn wf_times(self) -> bool {
        &&& self.cliff >= 0
        &&& self.start_time + self.cliff <= i64::MAX
    }

    /// The financial invariant: no more has been disbursed than was
    /// granted.
    pub open spec fn claimed_le_total(self) -> bool {
        self.claimed_amount <= self.total_amount
    }

    /// Seconds since the vesting curve's origin.
    pub open spec fn elapsed(self, now: i64) -> int {
        now - self.start_time
    }

    /// Whether the cliff has passed at time `now`.
    pub open spec fn cliff_reached(self, now: i64) -> bool {
        now >= self.start_time + self.cliff
    }

    /// The vesting curve: linear, capped at the full entitlement once
    /// `duration` has elapsed; integer division, floor.
    pub open spec fn vested(self, now: i64) -> int {
        if self.elapsed(now) >= self.duration {
            self.total_amount as int
        } else {
            (self.total_amount as int) * self.elapsed(now) / (self.duration as int)
        }
    }

    /// Whether evaluating the curve at `now` overflows the checked
    /// 64-bit multiplication.
    pub open spec fn vested_mul_overflows(self, now: i64) -> bool {
        &&& self.elapsed(now) < self.duration
        &&& (self.total_amount as int) * self.elapsed(now) > u64::MAX
    }

    /// What a claim at time `now` returns: the claimable amount — vested
    /// minus already claimed — or the first failing check.
    pub open spec fn claim_outcome(self, now: i64) -> Result<u64, ErrorCode> {
        if !self.cliff_reached(now) {
            Err(ErrorCode::CliffNotReached)
        } else if self.vested_mul_overflows(now) {
            Err(ErrorCode::NumberOverflow)
        } else if self.vested(now) < self.claimed_amount {
            Err(ErrorCode::NumberOverflow)
        } else if self.vested(now) == self.claimed_amount {
            Err(ErrorCode::NoTokensToClaim)
        } else {
            Ok((self.vested(now) - self.claimed_amount) as u64)
        }
    }

    /// Whether a claim at time `now` disburses anything.
    pub open spec fn claim_succeeds(self, now: i64) -> bool {
        self.claim_outcome(now) is Ok
    }

    /// The record after a claim at time `now`: on success the claimed
    /// amount rises to exactly what the curve has unlocked; on any
    /// failure the record is unchanged.
    pub open spec fn after_claim(self, now: i64) -> VestingSchedule {
        if self.claim_succeeds(now) {
            VestingSchedule { claimed_amount: self.vested(now) as u64, ..self }
        } else {
            self
        }
    }
}

/// The curve never unlocks a negative amount, nor more than the granted
/// entitlement, at any time at or after its origin.
pub proof fn lemma_vested_le_total(s: VestingSchedule, now: i64)
    requires
        s.elapsed(now) >= 0,
    ensures
        0 <= s.vested(now) <= s.total_amount,
{
    if s.elapsed(now) < s.duration {
        let t = s.total_amount as int;
        let e = s.elapsed(now);
        let d = s.duration as int;
        lemma_mul_nonnegative(t, e);
        lemma_div_pos_is_pos(t * e, d);
        lemma_mul_inequality(e, d, t);
        lemma_div_is_ordered(t * e, t * d, d);
        lemma_div_multiples_vanish(t, d);
    }
}

/// The stateless decision of the claim transition: what a claim at time
/// `now` would disburse, computed without touching the record.
///
/// A caller performs the external disbursement between this decision and
/// [`claim_tokens`], which commits the same outcome at the same time.
pub fn claimable_now(vesting: &VestingSchedule, now: i64) -> (result: Result<u64, ErrorCode>)
    requires
        vesting.wf_times(),
        vesting.cliff_reached(now) ==> now - vesting.start_time <= i64::MAX,
    ensures
        result == vesting.claim_outcome(now),
{
    if now < vesting.start_time + vesting.cliff {
        return Err(ErrorCode::CliffNotReached);
    }
    let elapsed: i64 = now - vesting.start_time;
    let vested: u64 = if elapsed >= vesting.duration {
        vesting.total_amount
    } else {
        let scaled = match vesting.total_amount.checked_mul(elapsed as u64) {
            Some(s) => s,
            None => {
                return Err(ErrorCode::NumberOverflow);
            },
        };
        scaled / (vesting.duration as u64)
    };
    let claimable = match vested.checked_sub(vesting.claimed_amount) {
        Some(c) => c,
        None => {
            return Err(ErrorCode::NumberOverflow);
        },
    };
    if claimable == 0 {
        return Err(ErrorCode::NoTokensToClaim);
    }
    Ok(claimable)
}

/// The claim transition: disburses everything the curve has unlocked but
/// not yet claimed, recording it on the schedule.
///
/// The record changes exactly when the result is `Ok`, and then only by
/// raising `claimed_amount` to the vested amount; any failure leaves it
/// untouched. The caller must perform the external disbursement of the
/// returned amount in the same atomic unit, so that custody and record
/// agree.
pub fn claim_tokens(vesting: &mut VestingSchedule, now: i64) -> (result: Result<u64, ErrorCode>)
    requires
        old(vesting).wf_times(),
        old(vesting).cliff_reached(now) ==> now - old(vesting).start_time <= i64::MAX,
    ensures
        result == old(vesting).claim_outcome(now),
        *final(vesting) == old(vesting).after_claim(now),
        final(vesting).claimed_amount >= old(vesting).claimed_amount,
        old(vesting).claimed_le_total() ==> final(vesting).claimed_le_total(),
{
    let claimable = match claimable_now(vesting, now) {
        Ok(c) => c,
        Err(e) => {
            return Err(e);
        },
    };
    proof {
        lemma_vested_le_total(*vesting, now);
    }
    vesting.claimed_amount = vesting.claimed_amount + claimable;
    Ok(claimable)
}

} // verus!
