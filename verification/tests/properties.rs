use launchpad::account::AccountId;
use launchpad::errors::ErrorCode;
use launchpad::pool::{initialize_pool, invest, Pool};
use launchpad::vesting::{claim_tokens, claimable_now, VestingSchedule};

fn acct(tag: u8) -> AccountId {
    AccountId { bytes: [tag; 32] }
}

fn open_pool(price: u64) -> Pool {
    let start: i64 = 1_700_000_000;
    initialize_pool(
        acct(1),
        acct(2),
        price,
        1_000,
        5_000,
        start,
        start + 30 * 24 * 60 * 60,
    )
}

fn schedule(total: u64, claimed: u64, start: i64, cliff: i64, duration: i64) -> VestingSchedule {
    VestingSchedule {
        investor: acct(4),
        pool: acct(3),
        total_amount: total,
        claimed_amount: claimed,
        start_time: start,
        cliff,
        duration,
    }
}

#[test]
fn entitlement_is_exact_product() {
    // unit_price 100, amount 500: exactly 50_000 units, no rounding
    let mut pool = open_pool(100);
    let start = pool.start_time;
    let vesting = invest(&mut pool, acct(3), acct(4), 500, start).unwrap();
    assert_eq!(vesting.total_amount, 50_000);
    assert_eq!(vesting.claimed_amount, 0);
    assert_eq!(vesting.start_time, pool.end_time);
    assert_eq!(vesting.cliff, 2_592_000);
    assert_eq!(vesting.duration, 15_552_000);
    assert_eq!(vesting.investor, acct(4));
    assert_eq!(vesting.pool, acct(3));
}

#[test]
fn total_invested_is_sum_of_amounts() {
    let mut pool = open_pool(100);
    let start = pool.start_time;
    let end = pool.end_time;
    assert_eq!(pool.total_invested, 0);
    invest(&mut pool, acct(3), acct(4), 500, start).unwrap();
    assert_eq!(pool.total_invested, 500);
    invest(&mut pool, acct(3), acct(5), 300, start + 10).unwrap();
    assert_eq!(pool.total_invested, 800);
    invest(&mut pool, acct(3), acct(6), 1, end).unwrap();
    assert_eq!(pool.total_invested, 801);
}

#[test]
fn invest_before_window_is_refused() {
    let mut pool = open_pool(100);
    let before = pool.start_time - 1;
    let result = invest(&mut pool, acct(3), acct(4), 500, before);
    assert_eq!(result, Err(ErrorCode::PoolNotStarted));
    assert_eq!(pool.total_invested, 0);
}

#[test]
fn invest_after_window_is_refused() {
    let mut pool = open_pool(100);
    let after = pool.end_time + 1;
    let result = invest(&mut pool, acct(3), acct(4), 500, after);
    assert_eq!(result, Err(ErrorCode::PoolEnded));
    assert_eq!(pool.total_invested, 0);
}

#[test]
fn invest_in_finalized_pool_is_refused() {
    let mut pool = open_pool(100);
    pool.finalized = true;
    let start = pool.start_time;
    let result = invest(&mut pool, acct(3), acct(4), 500, start);
    assert_eq!(result, Err(ErrorCode::PoolFinalized));
    assert_eq!(pool.total_invested, 0);
}

#[test]
fn invest_entitlement_overflow_is_refused() {
    let mut pool = open_pool(2);
    let start = pool.start_time;
    let result = invest(&mut pool, acct(3), acct(4), u64::MAX, start);
    assert_eq!(result, Err(ErrorCode::NumberOverflow));
    assert_eq!(pool.total_invested, 0);
}

#[test]
fn invest_running_total_overflow_is_refused() {
    let mut pool = open_pool(1);
    pool.total_invested = u64::MAX;
    let start = pool.start_time;
    let result = invest(&mut pool, acct(3), acct(4), 1, start);
    assert_eq!(result, Err(ErrorCode::NumberOverflow));
    assert_eq!(pool.total_invested, u64::MAX);
}

#[test]
fn claim_before_cliff_is_refused() {
    let mut pool = open_pool(100);
    let start = pool.start_time;
    let mut vesting = invest(&mut pool, acct(3), acct(4), 500, start).unwrap();
    let just_under_cliff = vesting.start_time + vesting.cliff - 1;
    let result = claim_tokens(&mut vesting, just_under_cliff);
    assert_eq!(result, Err(ErrorCode::CliffNotReached));
    assert_eq!(vesting.claimed_amount, 0);
}

#[test]
fn claim_at_half_duration_then_again() {
    // total 50_000, duration 15_552_000; at elapsed 7_776_000 exactly half
    // is vested; a second claim with no time elapsed finds nothing new
    let start: i64 = 1_702_592_000;
    let mut vesting = schedule(50_000, 0, start, 2_592_000, 15_552_000);
    let halfway = start + 7_776_000;

    assert_eq!(claimable_now(&vesting, halfway), Ok(25_000));
    assert_eq!(claim_tokens(&mut vesting, halfway), Ok(25_000));
    assert_eq!(vesting.claimed_amount, 25_000);

    assert_eq!(claimable_now(&vesting, halfway), Err(ErrorCode::NoTokensToClaim));
    assert_eq!(claim_tokens(&mut vesting, halfway), Err(ErrorCode::NoTokensToClaim));
    assert_eq!(vesting.claimed_amount, 25_000);
}

#[test]
fn claim_at_full_duration_releases_everything() {
    let start: i64 = 1_702_592_000;
    let mut vesting = schedule(50_000, 0, start, 2_592_000, 15_552_000);
    let at_duration = start + 15_552_000;
    assert_eq!(claim_tokens(&mut vesting, at_duration), Ok(50_000));
    assert_eq!(vesting.claimed_amount, 50_000);
}

#[test]
fn nothing_vested_at_zero_elapsed() {
    // a cliff of zero makes the curve's origin itself claimable in
    // principle, but nothing is vested there yet
    let start: i64 = 1_702_592_000;
    let mut vesting = schedule(50_000, 0, start, 0, 15_552_000);
    assert_eq!(claimable_now(&vesting, start), Err(ErrorCode::NoTokensToClaim));
    assert_eq!(claim_tokens(&mut vesting, start), Err(ErrorCode::NoTokensToClaim));
    assert_eq!(vesting.claimed_amount, 0);
}

#[test]
fn claim_curve_overflow_is_refused() {
    let mut vesting = schedule(u64::MAX, 0, 0, 0, i64::MAX);
    let result = claim_tokens(&mut vesting, 2);
    assert_eq!(result, Err(ErrorCode::NumberOverflow));
    assert_eq!(vesting.claimed_amount, 0);
}

#[test]
fn claim_on_record_ahead_of_curve_is_refused() {
    // a record that claims more than the curve has unlocked at `now`
    // reports the failed checked subtraction and stays unchanged
    let mut vesting = schedule(100, 100, 0, 0, 100);
    let result = claim_tokens(&mut vesting, 50);
    assert_eq!(result, Err(ErrorCode::NumberOverflow));
    assert_eq!(vesting.claimed_amount, 100);
}

#[test]
fn claims_accumulate_monotonically() {
    let start: i64 = 1_702_592_000;
    let mut vesting = schedule(50_000, 0, start, 2_592_000, 15_552_000);
    assert_eq!(claim_tokens(&mut vesting, start + 3_888_000), Ok(12_500));
    assert_eq!(vesting.claimed_amount, 12_500);
    assert_eq!(claim_tokens(&mut vesting, start + 7_776_000), Ok(12_500));
    assert_eq!(vesting.claimed_amount, 25_000);
    assert_eq!(claim_tokens(&mut vesting, start + 15_552_000), Ok(25_000));
    assert_eq!(vesting.claimed_amount, 50_000);
    assert_eq!(
        claim_tokens(&mut vesting, start + 20_000_000),
        Err(ErrorCode::NoTokensToClaim)
    );
    assert_eq!(vesting.claimed_amount, 50_000);
}

#[test]
fn pool_records_its_terms() {
    let pool = initialize_pool(acct(7), acct(8), 42, 9, 11, 100, 200);
    assert_eq!(pool.authority, acct(7));
    assert_eq!(pool.token_mint, acct(8));
    assert_eq!(pool.token_price, 42);
    assert_eq!(pool.soft_cap, 9);
    assert_eq!(pool.hard_cap, 11);
    assert_eq!(pool.start_time, 100);
    assert_eq!(pool.end_time, 200);
    assert!(!pool.finalized);
    assert_eq!(pool.total_invested, 0);
}
