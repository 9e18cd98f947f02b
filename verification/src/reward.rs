//! The reward calculator: what a stake has earned since its last claim.
//!
//! A stake earns a rate for every accrual period that passes. An unlocked
//! stake earns the collection's normal rate. A locked stake earns the rate
//! of its lock tier up to the end of the lock and the normal rate after
//! it. An NFT on the collection's ultra list earns each rate twice. The
//! reward is the rate times the seconds that passed, divided by the length
//! of a period and rounded down; the remainder is not carried over to the
//! next claim.

use vstd::prelude::*;
use vstd::arithmetic::div_mod::{
    lemma_div_is_ordered, lemma_div_is_ordered_by_denominator, lemma_fundamental_div_mod,
};
use crate::error::PoolError;
use crate::pubkey::{contains_key, Pubkey};
use crate::state::{Collection, StakeData};

verus! {

/// The lock length, in periods, that earns the second locked rate.
pub const SECOND_TIER_LOCK: u64 = 30;

/// The lock length, in periods, that earns the third locked rate.
pub const THIRD_TIER_LOCK: u64 = 60;

/// By how much an NFT on the ultra list multiplies a rate.
pub const ULTRA_MULTIPLIER: u64 = 2;

/// The factor that membership of the ultra list puts on every rate.
pub open spec fn ultra_factor(collection: Collection, mint: Pubkey) -> int {
    if collection.is_ultra(mint) {
        ULTRA_MULTIPLIER as int
    } else {
        1
    }
}

/// The rate per period of a stake that is not under a lock.
pub open spec fn normal_rate(collection: Collection, mint: Pubkey) -> int {
    ultra_factor(collection, mint) * collection.reward_normal
}

/// The rate that the collection sets for a lock of `lock_period` periods.
pub open spec fn tier_rate(collection: Collection, lock_period: u64) -> int {
    if lock_period == THIRD_TIER_LOCK {
        collection.reward_locked_three as int
    } else if lock_period == SECOND_TIER_LOCK {
        collection.reward_locked_two as int
    } else {
        collection.reward_locked_one as int
    }
}

/// The rate per period of a stake while it is under a lock of
/// `lock_period` periods.
pub open spec fn locked_rate(collection: Collection, mint: Pubkey, lock_period: u64) -> int {
    ultra_factor(collection, mint) * tier_rate(collection, lock_period)
}

/// The second at which the lock of `stake` runs out. The lock still holds
/// at that second and is over from the next.
pub open spec fn lock_end(stake: StakeData, period: int) -> int {
    stake.stake_time + stake.lock_period * period
}

/// Whether the lock of `stake` is over at `now`.
pub open spec fn lock_elapsed(stake: StakeData, period: int, now: int) -> bool {
    now > lock_end(stake, period)
}

/// The rate-weighted seconds that `stake` has earned from its last claim
/// up to `now`.
pub open spec fn weighted_seconds(
    collection: Collection,
    stake: StakeData,
    period: int,
    now: int,
) -> int {
    let normal = normal_rate(collection, stake.mint);
    let locked = locked_rate(collection, stake.mint, stake.lock_period);
    let end = lock_end(stake, period);
    if !stake.locked {
        normal * (now - stake.last_claim_time)
    } else if !lock_elapsed(stake, period, now) {
        locked * (now - stake.last_claim_time)
    } else if stake.last_claim_time > end {
        normal * (now - stake.last_claim_time)
    } else {
        locked * (end - stake.last_claim_time) + normal * (now - end)
    }
}

/// The reward that `stake` is owed at `now`, where a period lasts `period`
/// seconds.
pub open spec fn owed(collection: Collection, stake: StakeData, period: int, now: int) -> int {
    weighted_seconds(collection, stake, period, now) / period
}

/// What the calculator answers: the reward owed, or why there is none to
/// state. A period that is not positive is turned away first, then a clock
/// that reads earlier than the last claim, then a reward too large for one
/// transfer.
pub open spec fn accrual(
    collection: Collection,
    stake: StakeData,
    period: i64,
    now: i64,
) -> Result<u64, PoolError> {
    if period <= 0 {
        Err(PoolError::InvalidPeriod)
    } else if now < stake.last_claim_time {
        Err(PoolError::InvalidTime)
    } else if owed(collection, stake, period as int, now as int) > u64::MAX {
        Err(PoolError::TokenTransferFailed)
    } else {
        Ok(owed(collection, stake, period as int, now as int) as u64)
    }
}

/// What takes more than 128 bits, divided by a period of less than 2^63,
/// does not fit in 64 bits.
proof fn lemma_quotient_too_large(n: int, period: int)
    requires
        n > u128::MAX,
        0 < period <= i64::MAX,
    ensures
        n / period > u64::MAX,
{
    let big: int = u128::MAX + 1;
    let most: int = 0x8000_0000_0000_0000;
    lemma_div_is_ordered(big, n, period);
    lemma_div_is_ordered_by_denominator(big, period, most);
    assert(big / most == 0x2_0000_0000_0000_0000);
}

/// A rate, doubled for an ultra.
fn scaled_rate(rate: u64, ultra: bool) -> (scaled: u128)
    ensures
        scaled == (if ultra {
            ULTRA_MULTIPLIER as int
        } else {
            1
        }) * rate,
{
    if ultra {
        assert(ULTRA_MULTIPLIER * rate <= u128::MAX) by (nonlinear_arith)
            requires
                ULTRA_MULTIPLIER == 2,
                rate <= u64::MAX,
        ;
        (ULTRA_MULTIPLIER as u128) * (rate as u128)
    } else {
        rate as u128
    }
}

/// The product of a rate and a number of seconds, unless it takes more
/// than 128 bits.
fn weigh(rate: u128, seconds: i128) -> (product: Option<u128>)
    requires
        seconds >= 0,
    ensures
        product == (if rate * seconds > u128::MAX {
            None
        } else {
            Some((rate * seconds) as u128)
        }),
{
    rate.checked_mul(seconds as u128)
}

/// The reward that `stake` is owed at `now` under the rates of
/// `collection`, where a period lasts `period` seconds.
pub fn accrued_reward(collection: &Collection, stake: &StakeData, period: i64, now: i64) -> (res:
    Result<u64, PoolError>)
    ensures
        res == accrual(*collection, *stake, period, now),
{
    if period <= 0 {
        return Err(PoolError::InvalidPeriod);
    }
    if now < stake.last_claim_time {
        return Err(PoolError::InvalidTime);
    }
    let ultra = contains_key(&collection.ultras, &stake.mint);
    let normal: u128 = scaled_rate(collection.reward_normal, ultra);
    let last: i128 = stake.last_claim_time as i128;
    let elapsed: i128 = now as i128 - last;
    let ghost total = weighted_seconds(*collection, *stake, period as int, now as int);
    let weighted: Option<u128> = if !stake.locked {
        weigh(normal, elapsed)
    } else {
        let tier: u64 = if stake.lock_period == THIRD_TIER_LOCK {
            collection.reward_locked_three
        } else if stake.lock_period == SECOND_TIER_LOCK {
            collection.reward_locked_two
        } else {
            collection.reward_locked_one
        };
        let locked: u128 = scaled_rate(tier, ultra);
        assert(0 <= stake.lock_period * period <= 0xffff_ffff_ffff_ffff * 0x7fff_ffff_ffff_ffff)
            by (nonlinear_arith)
            requires
                0 <= stake.lock_period <= 0xffff_ffff_ffff_ffff,
                0 < period <= 0x7fff_ffff_ffff_ffff,
        ;
        let end: i128 = stake.stake_time as i128 + (stake.lock_period as i128) * (period as i128);
        if now as i128 <= end {
            weigh(locked, elapsed)
        } else if last > end {
            weigh(normal, elapsed)
        } else {
            let before: Option<u128> = weigh(locked, end - last);
            let after: Option<u128> = weigh(normal, now as i128 - end);
            assert(locked * (end - last) >= 0 && normal * (now - end) >= 0) by (nonlinear_arith)
                requires
                    locked >= 0,
                    normal >= 0,
                    end - last >= 0,
                    now - end >= 0,
            ;
            match (before, after) {
                (Some(b), Some(a)) => b.checked_add(a),
                _ => None,
            }
        }
    };
    assert(match weighted {
        Some(w) => w == total,
        None => total > u128::MAX,
    });
    match weighted {
        Some(w) => {
            let quotient: u128 = w / (period as u128);
            if quotient > u64::MAX as u128 {
                Err(PoolError::TokenTransferFailed)
            } else {
                Ok(quotient as u64)
            }
        },
        None => {
            proof {
                lemma_quotient_too_large(total, period as int);
            }
            Err(PoolError::TokenTransferFailed)
        },
    }
}

/// An unlocked stake earns the normal rate for every second since its last
/// claim, twice that if the NFT is on the ultra list and once if it is
/// not.
pub proof fn lemma_unlocked_reward(collection: Collection, stake: StakeData, period: int, now: int)
    requires
        !stake.locked,
    ensures
        collection.is_ultra(stake.mint) ==> owed(collection, stake, period, now) == (2
            * collection.reward_normal * (now - stake.last_claim_time)) / period,
        !collection.is_ultra(stake.mint) ==> owed(collection, stake, period, now) == (
        collection.reward_normal * (now - stake.last_claim_time)) / period,
{
    assert(2 * collection.reward_normal * (now - stake.last_claim_time) == (2
        * collection.reward_normal) * (now - stake.last_claim_time)) by (nonlinear_arith);
}

/// The weighted seconds of an unlocked stake are linear in the time that
/// passed: what accrues up to `later` is what accrues up to `now` plus what
/// a stake claimed at `now` accrues from there.
pub proof fn lemma_unlocked_reward_is_linear(
    collection: Collection,
    stake: StakeData,
    period: int,
    now: i64,
    later: int,
)
    requires
        !stake.locked,
    ensures
        weighted_seconds(collection, stake, period, later) == weighted_seconds(
            collection,
            stake,
            period,
            now as int,
        ) + weighted_seconds(
            collection,
            (StakeData { last_claim_time: now, ..stake }),
            period,
            later,
        ),
{
    let rate = normal_rate(collection, stake.mint);
    assert(rate * (later - stake.last_claim_time) == rate * (now - stake.last_claim_time) + rate
        * (later - now)) by (nonlinear_arith);
}

/// Claiming in between costs less than one unit of reward: two claims,
/// at `now` and at `later`, together pay no more than one claim at `later`
/// would, and at most one unit less.
pub proof fn lemma_split_claim_loses_less_than_one(
    collection: Collection,
    stake: StakeData,
    period: int,
    now: i64,
    later: int,
)
    requires
        !stake.locked,
        period > 0,
    ensures
        ({
            let first = owed(collection, stake, period, now as int);
            let second = owed(
                collection,
                StakeData { last_claim_time: now, ..stake },
                period,
                later,
            );
            let whole = owed(collection, stake, period, later);
            first + second <= whole <= first + second + 1
        }),
{
    let a = weighted_seconds(collection, stake, period, now as int);
    let b = weighted_seconds(
        collection,
        StakeData { last_claim_time: now, ..stake },
        period,
        later,
    );
    lemma_unlocked_reward_is_linear(collection, stake, period, now, later);
    lemma_fundamental_div_mod(a, period);
    lemma_fundamental_div_mod(b, period);
    lemma_fundamental_div_mod(a + b, period);
    let qa = a / period;
    let qb = b / period;
    let q = (a + b) / period;
    assert(qa + qb <= q <= qa + qb + 1) by (nonlinear_arith)
        requires
            period > 0,
            a == period * qa + a % period,
            b == period * qb + b % period,
            a + b == period * q + (a + b) % period,
            0 <= a % period < period,
            0 <= b % period < period,
            0 <= (a + b) % period < period,
    ;
}

/// Until its lock runs out, and still at the very second at which it runs
/// out, a locked stake earns the rate of its lock tier: the second locked
/// rate for a lock of 30 periods, the third for one of 60, the first for
/// any other. An NFT on the ultra list earns twice that.
pub proof fn lemma_locked_reward(collection: Collection, stake: StakeData, period: int, now: int)
    requires
        stake.locked,
        now <= stake.stake_time + stake.lock_period * period,
    ensures
        owed(collection, stake, period, now) == (ultra_factor(collection, stake.mint) * tier_rate(
            collection,
            stake.lock_period,
        ) * (now - stake.last_claim_time)) / period,
        stake.lock_period == 30 ==> tier_rate(collection, stake.lock_period)
            == collection.reward_locked_two,
        stake.lock_period == 60 ==> tier_rate(collection, stake.lock_period)
            == collection.reward_locked_three,
        stake.lock_period != 30 && stake.lock_period != 60 ==> tier_rate(
            collection,
            stake.lock_period,
        ) == collection.reward_locked_one,
{
}

/// Once the lock is over, a stake that was last claimed under the lock is
/// paid the locked rate up to the end of the lock and the normal rate from
/// there; one that was last claimed after the lock is paid the normal rate
/// throughout.
pub proof fn lemma_reward_after_lock(collection: Collection, stake: StakeData, period: int, now: int)
    requires
        stake.locked,
        now > stake.stake_time + stake.lock_period * period,
    ensures
        ({
            let end = stake.stake_time + stake.lock_period * period;
            let locked = locked_rate(collection, stake.mint, stake.lock_period);
            let normal = normal_rate(collection, stake.mint);
            &&& stake.last_claim_time <= end ==> owed(collection, stake, period, now) == (locked * (
            end - stake.last_claim_time) + normal * (now - end)) / period
            &&& stake.last_claim_time > end ==> owed(collection, stake, period, now) == (normal * (
            now - stake.last_claim_time)) / period
        }),
{
}

/// Only membership of the ultra list counts: two collections with the same
/// rates, whose ultra lists name the same NFTs in any order and any number
/// of times, owe every stake the same.
pub proof fn lemma_ultra_list_is_a_set(
    one: Collection,
    other: Collection,
    stake: StakeData,
    period: int,
    now: int,
)
    requires
        one.ultras@.to_set() == other.ultras@.to_set(),
        one.reward_normal == other.reward_normal,
        one.reward_locked_one == other.reward_locked_one,
        one.reward_locked_two == other.reward_locked_two,
        one.reward_locked_three == other.reward_locked_three,
    ensures
        owed(one, stake, period, now) == owed(other, stake, period, now),
{
    assert(one.ultras@.contains(stake.mint) == one.ultras@.to_set().contains(stake.mint));
    assert(other.ultras@.contains(stake.mint) == other.ultras@.to_set().contains(stake.mint));
}

/// Nothing is owed for no time: a stake claimed at `now` is owed 0 at `now`.
pub proof fn lemma_nothing_owed_at_once(collection: Collection, stake: StakeData, period: int)
    requires
        period > 0,
    ensures
        owed(collection, stake, period, stake.last_claim_time as int) == 0,
{
    let now = stake.last_claim_time as int;
    let normal = normal_rate(collection, stake.mint);
    let locked = locked_rate(collection, stake.mint, stake.lock_period);
    assert(normal * 0 == 0 && locked * 0 == 0) by (nonlinear_arith);
    assert(weighted_seconds(collection, stake, period, now) == 0);
}

/// A reward is never negative where the clock has not gone back.
pub proof fn lemma_owed_is_not_negative(
    collection: Collection,
    stake: StakeData,
    period: int,
    now: int,
)
    requires
        period > 0,
        now >= stake.last_claim_time,
    ensures
        owed(collection, stake, period, now) >= 0,
{
    let normal = normal_rate(collection, stake.mint);
    let locked = locked_rate(collection, stake.mint, stake.lock_period);
    let end = lock_end(stake, period);
    let total = weighted_seconds(collection, stake, period, now);
    assert(normal >= 0 && locked >= 0) by (nonlinear_arith)
        requires
            normal == ultra_factor(collection, stake.mint) * collection.reward_normal,
            locked == ultra_factor(collection, stake.mint) * tier_rate(
                collection,
                stake.lock_period,
            ),
            1 <= ultra_factor(collection, stake.mint),
            0 <= collection.reward_normal,
            0 <= tier_rate(collection, stake.lock_period),
    ;
    assert(total >= 0) by (nonlinear_arith)
        requires
            normal >= 0,
            locked >= 0,
            now >= stake.last_claim_time,
            total == normal * (now - stake.last_claim_time) || total == locked * (now
                - stake.last_claim_time) || (total == locked * (end - stake.last_claim_time)
                + normal * (now - end) && end >= stake.last_claim_time && now > end),
    ;
    lemma_div_is_ordered(0, total, period);
}

} // verus!
