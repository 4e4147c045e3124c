//! How rewards accrue on a stake.

use crate::state::UserStake;
use vstd::prelude::*;

verus! {

/// Reward rates are scaled by this factor.
pub const RATE_SCALE: u64 = 1_000_000_000;

/// The time since the last settlement fits in a timestamp, or nothing has
/// accrued at all.
pub open spec fn elapsed_fits(last_update_ts: i64, current_ts: i64) -> bool {
    last_update_ts == 0 || current_ts - last_update_ts <= i64::MAX
}

/// Rewards before the result is cut to what a `u64` holds: whole tokens for
/// `staked_amount` at `reward_rate` over `elapsed` seconds.
pub open spec fn exact_rewards(staked_amount: u64, elapsed: int, reward_rate: u64) -> int {
    (staked_amount * reward_rate * elapsed) / (RATE_SCALE as int)
}

/// Rewards that a stake earns between two timestamps. A stake that was never
/// settled, or one settled at or after `current_ts`, earns nothing.
pub open spec fn accrued(
    staked_amount: u64,
    last_update_ts: i64,
    current_ts: i64,
    reward_rate: u64,
) -> int {
    if last_update_ts == 0 || current_ts <= last_update_ts {
        0
    } else {
        let exact = exact_rewards(staked_amount, current_ts - last_update_ts, reward_rate);
        if exact <= u64::MAX {
            exact
        } else {
            u64::MAX as int
        }
    }
}

/// Calculate rewards earned between two timestamps:
/// `staked_amount * reward_rate * elapsed_seconds / 1_000_000_000`, at most
/// what a `u64` holds. The intermediate products do not overflow.
///
/// The span between the two timestamps has to fit in an `i64`.
pub fn calculate_pending_rewards(
    staked_amount: u64,
    last_update_ts: i64,
    current_ts: i64,
    reward_rate: u64,
) -> (rewards: u64)
    requires
        elapsed_fits(last_update_ts, current_ts),
    ensures
        rewards == accrued(staked_amount, last_update_ts, current_ts, reward_rate),
{
    if last_update_ts == 0 || current_ts <= last_update_ts {
        return 0;
    }
    let elapsed: u64 = (current_ts - last_update_ts) as u64;
    proof {
        assert(0 <= staked_amount * reward_rate <= u64::MAX * u64::MAX) by (nonlinear_arith)
            requires
                0 <= staked_amount <= u64::MAX,
                0 <= reward_rate <= u64::MAX,
        ;
        assert(u64::MAX * u64::MAX <= u128::MAX) by (nonlinear_arith);
    }
    let per_second: u128 = (staked_amount as u128) * (reward_rate as u128);
    match per_second.checked_mul(elapsed as u128) {
        Some(scaled) => {
            let rewards: u128 = scaled / (RATE_SCALE as u128);
            if rewards > u64::MAX as u128 {
                u64::MAX
            } else {
                rewards as u64
            }
        },
        None => u64::MAX,
    }
}

/// What the user could claim at `now`: the rewards kept for them, and those
/// that have accrued since the last settlement.
pub open spec fn claimable(user_stake: UserStake, reward_rate: u64, now: i64) -> int {
    user_stake.rewards_earned + accrued(
        user_stake.amount,
        user_stake.last_update_ts,
        now,
        reward_rate,
    )
}

/// What the user could claim at `now`, or `None` where that is more than a
/// `u64` holds.
pub fn claimable_rewards(user_stake: &UserStake, reward_rate: u64, now: i64) -> (rewards: Option<
    u64,
>)
    requires
        elapsed_fits(user_stake.last_update_ts, now),
    ensures
        match rewards {
            Some(rewards) => rewards == claimable(*user_stake, reward_rate, now),
            None => claimable(*user_stake, reward_rate, now) > u64::MAX,
        },
{
    let pending: u64 = calculate_pending_rewards(
        user_stake.amount,
        user_stake.last_update_ts,
        now,
        reward_rate,
    );
    user_stake.rewards_earned.checked_add(pending)
}

/// Whether the time since the last settlement fits in a timestamp.
pub fn elapsed_is_in_range(last_update_ts: i64, current_ts: i64) -> (fits: bool)
    ensures
        fits == elapsed_fits(last_update_ts, current_ts),
{
    last_update_ts == 0 || current_ts <= last_update_ts || current_ts.checked_sub(
        last_update_ts,
    ).is_some()
}

/// Nothing accrues on an empty stake.
pub proof fn law_empty_stake_earns_nothing(last_update_ts: i64, current_ts: i64, reward_rate: u64)
    ensures
        accrued(0, last_update_ts, current_ts, reward_rate) == 0,
{
    let elapsed = current_ts - last_update_ts;
    assert(0 * reward_rate * elapsed == 0) by (nonlinear_arith);
}

pub(crate) proof fn lemma_accrual_is_not_negative(
    staked_amount: u64,
    last_update_ts: i64,
    current_ts: i64,
    reward_rate: u64,
)
    ensures
        0 <= accrued(staked_amount, last_update_ts, current_ts, reward_rate),
{
    law_empty_stake_earns_nothing(last_update_ts, current_ts, reward_rate);
    law_accrual_is_monotone(
        0,
        staked_amount,
        last_update_ts,
        current_ts,
        current_ts,
        reward_rate,
        reward_rate,
    );
}

/// A larger stake, a higher rate or a later time never earns less.
pub proof fn law_accrual_is_monotone(
    staked_amount: u64,
    more_staked: u64,
    last_update_ts: i64,
    current_ts: i64,
    later_ts: i64,
    reward_rate: u64,
    higher_rate: u64,
)
    requires
        staked_amount <= more_staked,
        current_ts <= later_ts,
        reward_rate <= higher_rate,
    ensures
        accrued(staked_amount, last_update_ts, current_ts, reward_rate) <= accrued(
            more_staked,
            last_update_ts,
            later_ts,
            higher_rate,
        ),
{
    let elapsed = current_ts - last_update_ts;
    let more_elapsed = later_ts - last_update_ts;
    if last_update_ts != 0 && elapsed > 0 {
        assert(0 <= staked_amount * reward_rate <= more_staked * higher_rate) by (nonlinear_arith)
            requires
                0 <= staked_amount <= more_staked,
                0 <= reward_rate <= higher_rate,
        ;
        let p: int = staked_amount * reward_rate;
        let q: int = more_staked * higher_rate;
        assert(p * elapsed <= q * more_elapsed) by (nonlinear_arith)
            requires
                0 <= p <= q,
                0 <= elapsed <= more_elapsed,
        ;
    } else if last_update_ts != 0 && more_elapsed > 0 {
        let q: int = more_staked * higher_rate;
        assert(0 <= q) by (nonlinear_arith)
            requires
                q == more_staked * higher_rate,
        ;
        assert(0 <= q * more_elapsed) by (nonlinear_arith)
            requires
                0 <= q,
                0 <= more_elapsed,
        ;
    }
}

/// Settling in between earns no more than settling once at the end, and loses
/// at most one token to rounding.
pub proof fn law_settling_in_between_gains_nothing(
    staked_amount: u64,
    last_update_ts: i64,
    between_ts: i64,
    current_ts: i64,
    reward_rate: u64,
)
    requires
        last_update_ts != 0,
        between_ts != 0,
        last_update_ts <= between_ts <= current_ts,
    ensures
        ({
            let once = accrued(staked_amount, last_update_ts, current_ts, reward_rate);
            let twice = accrued(staked_amount, last_update_ts, between_ts, reward_rate) + accrued(
                staked_amount,
                between_ts,
                current_ts,
                reward_rate,
            );
            &&& twice <= once || exact_rewards(
                staked_amount,
                current_ts - last_update_ts,
                reward_rate,
            ) > u64::MAX
            &&& once <= twice + 1
        }),
{
    let p: int = staked_amount * reward_rate;
    let first = between_ts - last_update_ts;
    let second = current_ts - between_ts;
    assert(0 <= p) by (nonlinear_arith)
        requires
            p == staked_amount * reward_rate,
    ;
    assert(p * (first + second) == p * first + p * second) by (nonlinear_arith);
    assert(0 <= p * first) by (nonlinear_arith)
        requires
            0 <= p,
            0 <= first,
    ;
    assert(0 <= p * second) by (nonlinear_arith)
        requires
            0 <= p,
            0 <= second,
    ;
    assert(first == 0 ==> p * first == 0) by (nonlinear_arith);
    assert(second == 0 ==> p * second == 0) by (nonlinear_arith);
}

} // verus!
