//! Time-weighted reward accrual, shared by unstake and claim.
use vstd::prelude::*;
use crate::state::StakeInfoAccount;
use vstd::arithmetic::div_mod::{lemma_div_is_ordered, lemma_div_pos_is_pos};
use vstd::arithmetic::mul::lemma_mul_inequality;

verus! {

/// Whole days from `start` to `now`, the division truncated toward zero.
pub open spec fn elapsed_days(start: int, now: int) -> int {
    if now >= start {
        (now - start) / 86400
    } else {
        -((start - now) / 86400)
    }
}

/// The moment the lock of a stake made at `stake_time` for `locked_period` days ends.
pub open spec fn lock_end(stake_time: int, locked_period: int) -> int {
    stake_time + locked_period * 86400
}

/// The reward earned at `now` by a stake still in custody: nothing while the
/// lock runs, then `rate` per whole elapsed day. This is also what unstaking freezes.
pub open spec fn earned(stake_time: int, locked_period: int, now: int, rate: int) -> int {
    if now < lock_end(stake_time, locked_period) {
        0
    } else {
        elapsed_days(stake_time, now) * rate
    }
}

/// What the owner of `rec` may claim at `now`.
pub open spec fn entitlement(rec: StakeInfoAccount, now: int, rate: int) -> int {
    if rec.unstake_nft {
        rec.reward_amount as int
    } else {
        earned(rec.stake_time as int, rec.locked_period as int, now, rate)
    }
}

/// An amount as a `u64`, if it fits.
pub open spec fn as_amount(x: int) -> Option<u64> {
    if 0 <= x <= u64::MAX {
        Some(x as u64)
    } else {
        None
    }
}

/// The reward earned at `now` by a stake still in custody, or `None` where it
/// does not fit an amount.
pub fn earned_at(stake_time: i64, locked_period: i32, now: i64, rate: u64) -> (r: Option<u64>)
    ensures
        r == as_amount(earned(stake_time as int, locked_period as int, now as int, rate as int)),
{
    let end: i128 = stake_time as i128 + (locked_period as i128) * 86400;
    if (now as i128) < end {
        return Some(0);
    }
    let diff: i128 = now as i128 - stake_time as i128;
    let days: i128 = if diff >= 0 {
        diff / 86400
    } else {
        -((-diff) / 86400)
    };
    if days < 0 {
        if rate == 0 {
            return Some(0);
        }
        proof {
            assert(days * (rate as int) < 0) by (nonlinear_arith)
                requires
                    days < 0,
                    rate > 0,
            ;
        }
        return None;
    }
    proof {
        let bound: int = 0x1_0000_0000_0000_0000int / 86400;
        lemma_div_is_ordered(diff as int, 0x1_0000_0000_0000_0000int, 86400);
        assert(days * (rate as int) <= bound * 0x1_0000_0000_0000_0000int) by (nonlinear_arith)
            requires
                0 <= days <= bound,
                0 <= rate < 0x1_0000_0000_0000_0000int,
        ;
    }
    let amount: i128 = days * (rate as i128);
    if amount > u64::MAX as i128 {
        None
    } else {
        Some(amount as u64)
    }
}

/// What the owner of `rec` may claim at `now`, or `None` where it does not fit an amount.
pub fn entitlement_at(rec: &StakeInfoAccount, now: i64, rate: u64) -> (r: Option<u64>)
    ensures
        r == as_amount(entitlement(*rec, now as int, rate as int)),
{
    if rec.unstake_nft {
        Some(rec.reward_amount)
    } else {
        earned_at(rec.stake_time, rec.locked_period, now, rate)
    }
}

/// Whole elapsed days never decrease as time goes on.
proof fn lemma_elapsed_days_monotonic(start: int, now1: int, now2: int)
    requires
        now1 <= now2,
    ensures
        elapsed_days(start, now1) <= elapsed_days(start, now2),
{
    if now1 >= start {
        lemma_div_is_ordered(now1 - start, now2 - start, 86400);
    } else if now2 < start {
        lemma_div_is_ordered(start - now2, start - now1, 86400);
    } else {
        lemma_div_pos_is_pos(start - now1, 86400);
        lemma_div_pos_is_pos(now2 - start, 86400);
    }
}

/// For a record still in custody whose lock has run out, the entitlement never
/// decreases as time goes on.
pub proof fn lemma_entitlement_monotonic(rec: StakeInfoAccount, now1: int, now2: int, rate: int)
    requires
        !rec.unstake_nft,
        now1 >= lock_end(rec.stake_time as int, rec.locked_period as int),
        now1 <= now2,
        rate >= 0,
    ensures
        entitlement(rec, now1, rate) <= entitlement(rec, now2, rate),
{
    let start = rec.stake_time as int;
    lemma_elapsed_days_monotonic(start, now1, now2);
    lemma_mul_inequality(elapsed_days(start, now1), elapsed_days(start, now2), rate);
}

} // verus!
