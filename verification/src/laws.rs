//! The library's laws: properties that relate several transitions, or a
//! whole sequence of them, stated over the spec-level transition
//! functions that the executable contracts are pinned to.

use vstd::arithmetic::div_mod::lemma_div_of0;
use vstd::prelude::*;

use crate::account::AccountId;
use crate::errors::ErrorCode;
use crate::pool::Pool;
use crate::vesting::{lemma_vested_le_total, VestingSchedule};

verus! {

/// The sum of a sequence of contribution amounts.
pub open spec fn sum_of(amounts: Seq<u64>) -> int
    decreases amounts.len(),
{
    if amounts.len() == 0 {
        0
    } else {
        sum_of(amounts.drop_last()) + amounts.last()
    }
}

/// A sum of contribution amounts is never negative.
pub proof fn lemma_sum_of_nonneg(amounts: Seq<u64>)
    ensures
        sum_of(amounts) >= 0,
    decreases amounts.len(),
{
    if amounts.len() > 0 {
        lemma_sum_of_nonneg(amounts.drop_last());
    }
}

/// The pool after a sequence of accepted contributions, oldest first.
pub open spec fn pool_after_investments(p: Pool, amounts: Seq<u64>) -> Pool
    decreases amounts.len(),
{
    if amounts.len() == 0 {
        p
    } else {
        pool_after_investments(p, amounts.drop_last()).with_investment(amounts.last())
    }
}

/// After any sequence of accepted contributions, the pool's running
/// total is its starting total plus the sum of the amounts — value is
/// neither created nor destroyed — and every sale term is untouched.
pub proof fn lemma_total_invested_is_sum(p: Pool, amounts: Seq<u64>)
    requires
        p.total_invested + sum_of(amounts) <= u64::MAX,
    ensures
        pool_after_investments(p, amounts) == (Pool {
            total_invested: (p.total_invested + sum_of(amounts)) as u64,
            ..p
        }),
    decreases amounts.len(),
{
    if amounts.len() > 0 {
        lemma_sum_of_nonneg(amounts.drop_last());
        lemma_total_invested_is_sum(p, amounts.drop_last());
    }
}

/// A schedule created by an accepted contribution starts in the state
/// the claim laws assume: nothing claimed, the financial invariant
/// holding, and sane time fields — provided the pool's end time leaves
/// room for the fixed cliff inside an `i64`.
pub proof fn lemma_new_schedule_well_formed(
    p: Pool,
    pool_key: AccountId,
    investor: AccountId,
    amount: u64,
)
    requires
        p.end_time + crate::vesting::CLIFF_SECONDS <= i64::MAX,
    ensures
        p.schedule_for(pool_key, investor, amount).wf_times(),
        p.schedule_for(pool_key, investor, amount).claimed_le_total(),
        p.schedule_for(pool_key, investor, amount).claimed_amount == 0,
{
}

/// The record after a sequence of claims at the given times, oldest
/// first.
pub open spec fn vesting_after_claims(s: VestingSchedule, times: Seq<i64>) -> VestingSchedule
    decreases times.len(),
{
    if times.len() == 0 {
        s
    } else {
        vesting_after_claims(s, times.drop_last()).after_claim(times.last())
    }
}

/// A single claim never lowers the claimed amount, never pushes it past
/// the granted entitlement, and touches no other field.
pub proof fn lemma_claim_monotone(s: VestingSchedule, now: i64)
    requires
        s.cliff >= 0,
        s.claimed_le_total(),
    ensures
        s.after_claim(now).claimed_amount >= s.claimed_amount,
        s.after_claim(now).claimed_le_total(),
        s.after_claim(now) == (VestingSchedule {
            claimed_amount: s.after_claim(now).claimed_amount,
            ..s
        }),
{
    if s.claim_succeeds(now) {
        lemma_vested_le_total(s, now);
    }
}

/// Over any sequence of claims, at any times in any order, the claimed
/// amount never decreases and never exceeds the granted entitlement,
/// and the terms of the schedule never change.
pub proof fn lemma_claims_monotone(s: VestingSchedule, times: Seq<i64>)
    requires
        s.cliff >= 0,
        s.claimed_le_total(),
    ensures
        vesting_after_claims(s, times).claimed_amount >= s.claimed_amount,
        vesting_after_claims(s, times).claimed_le_total(),
        vesting_after_claims(s, times) == (VestingSchedule {
            claimed_amount: vesting_after_claims(s, times).claimed_amount,
            ..s
        }),
    decreases times.len(),
{
    if times.len() > 0 {
        lemma_claims_monotone(s, times.drop_last());
        lemma_claim_monotone(vesting_after_claims(s, times.drop_last()), times.last());
    }
}

/// Claiming twice with no time elapsed: once a claim has succeeded, an
/// immediate second claim finds nothing new unlocked — it reports
/// `NoTokensToClaim`, not a failure of any other kind, and leaves the
/// record unchanged.
pub proof fn lemma_claim_idempotent(s: VestingSchedule, now: i64)
    requires
        s.cliff >= 0,
        s.claim_succeeds(now),
    ensures
        s.after_claim(now).claim_outcome(now) == Err::<u64, ErrorCode>(
            ErrorCode::NoTokensToClaim,
        ),
        s.after_claim(now).after_claim(now) == s.after_claim(now),
{
    lemma_vested_le_total(s, now);
}

/// At the moment the full duration has elapsed — and at any time after —
/// the whole entitlement is vested, exactly, with no division-induced
/// shortfall.
pub proof fn lemma_vested_at_duration(s: VestingSchedule, now: i64)
    requires
        s.elapsed(now) >= s.duration,
    ensures
        s.vested(now) == s.total_amount,
{
}

/// At the curve's origin — zero elapsed time — nothing is vested yet.
pub proof fn lemma_vested_at_start(s: VestingSchedule, now: i64)
    requires
        now == s.start_time,
        s.duration > 0,
    ensures
        s.vested(now) == 0,
{
    lemma_div_of0(s.duration as int);
}

} // verus!
