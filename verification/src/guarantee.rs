//! What the calls of the library give, told of their arguments and results, and
//! how one call relates to another.

use crate::accounts::{
    AdminOnly, ClaimRewards, FundRewards, InitializePool, Stake, TransferAdmin, Unstake,
};
use crate::address;
use crate::error::{ConstraintError, Refusal, StakingError};
use crate::event::{
    AdminTransferred, LockPeriodUpdated, PauseToggled, PoolInitialized, RewardRateUpdated,
    RewardsClaimed, RewardsFunded, Staked, Unstaked,
};
use crate::instruction;
use crate::key::Pubkey;
use crate::process;
use crate::progress::{Next, PoolSigner, Progress, TokenTransfer};
use crate::rewards;
use crate::state::{Pool, UserStake};
use vstd::prelude::*;

verus! {

// Rewards

/// Rewards are the whole tokens in amount times rate times elapsed seconds over
/// a billion: no more than that, and less than one token short of it. Where a
/// `u64` cannot hold them, they are the largest `u64`.
pub proof fn law_rewards_are_the_whole_tokens(
    staked_amount: u64,
    last_update_ts: i64,
    current_ts: i64,
    reward_rate: u64,
    rewards: u64,
)
    requires
        last_update_ts != 0,
        last_update_ts < current_ts,
        call_ensures(
            rewards::calculate_pending_rewards,
            (staked_amount, last_update_ts, current_ts, reward_rate),
            rewards,
        ),
    ensures
        ({
            let earned = staked_amount * reward_rate * (current_ts - last_update_ts);
            if earned < (u64::MAX + 1) * 1_000_000_000 {
                rewards * 1_000_000_000 <= earned < (rewards + 1) * 1_000_000_000
            } else {
                rewards == u64::MAX
            }
        }),
{
}

/// Without a settlement to count from, or without time passing since, there are
/// no rewards.
pub proof fn law_no_rewards_without_time(
    staked_amount: u64,
    last_update_ts: i64,
    current_ts: i64,
    reward_rate: u64,
    rewards: u64,
)
    requires
        last_update_ts == 0 || current_ts <= last_update_ts,
        call_ensures(
            rewards::calculate_pending_rewards,
            (staked_amount, last_update_ts, current_ts, reward_rate),
            rewards,
        ),
    ensures
        rewards == 0,
{
}

/// Rewards can be calculated for every stake and rate, and between all times
/// that are not more than an `i64` apart.
pub proof fn law_rewards_can_be_calculated(
    staked_amount: u64,
    last_update_ts: i64,
    current_ts: i64,
    reward_rate: u64,
    user_stake: &UserStake,
)
    requires
        last_update_ts == 0 || current_ts - last_update_ts <= i64::MAX,
    ensures
        call_requires(
            rewards::calculate_pending_rewards,
            (staked_amount, last_update_ts, current_ts, reward_rate),
        ),
        user_stake.last_update_ts == last_update_ts ==> call_requires(
            rewards::claimable_rewards,
            (user_stake, reward_rate, current_ts),
        ),
{
}

/// What can be claimed is what is kept and what is pending, unless that is more
/// than a `u64` holds.
pub proof fn law_claimable_is_kept_and_pending(
    user_stake: &UserStake,
    reward_rate: u64,
    now: i64,
    pending: u64,
    claimable: Option<u64>,
)
    requires
        call_ensures(
            rewards::calculate_pending_rewards,
            (user_stake.amount, user_stake.last_update_ts, now, reward_rate),
            pending,
        ),
        call_ensures(rewards::claimable_rewards, (user_stake, reward_rate, now), claimable),
    ensures
        claimable == (if user_stake.rewards_earned + pending <= u64::MAX {
            Some((user_stake.rewards_earned + pending) as u64)
        } else {
            None
        }),
{
}

/// The range of the elapsed time is told right.
pub proof fn law_elapsed_range_is_told(last_update_ts: i64, current_ts: i64, fits: bool)
    requires
        call_ensures(rewards::elapsed_is_in_range, (last_update_ts, current_ts), fits),
    ensures
        fits <==> last_update_ts == 0 || current_ts - last_update_ts <= i64::MAX,
{
}

// Setting up

/// A pool is set up with what it was given, open and with nothing staked, and
/// this is announced.
pub proof fn law_setup_stores_what_it_was_given(
    ctx: &mut InitializePool,
    bump: u8,
    reward_rate: u64,
    lock_period: i64,
    result: Result<PoolInitialized, StakingError>,
)
    requires
        call_ensures(
            instruction::initialize_pool,
            (ctx, bump, reward_rate, lock_period),
            result,
        ),
    ensures
        ({
            let pool = final(ctx).pool.data;
            &&& pool.admin == old(ctx).admin
            &&& pool.stake_mint == old(ctx).stake_mint
            &&& pool.reward_mint == old(ctx).reward_mint
            &&& pool.reward_vault == old(ctx).reward_vault.key
            &&& pool.reward_rate == reward_rate
            &&& pool.lock_period == lock_period
            &&& pool.total_staked == 0
            &&& !pool.is_paused
            &&& pool.bump == bump
        }),
        final(ctx).admin == old(ctx).admin,
        final(ctx).stake_mint == old(ctx).stake_mint,
        final(ctx).reward_mint == old(ctx).reward_mint,
        final(ctx).pool.key == old(ctx).pool.key,
        final(ctx).reward_vault == old(ctx).reward_vault,
        final(ctx).stake_vault == old(ctx).stake_vault,
        result matches Ok(event) && {
            &&& event.admin == old(ctx).admin
            &&& event.stake_mint == old(ctx).stake_mint
            &&& event.reward_rate == reward_rate
            &&& event.lock_period == lock_period
        },
{
}

// Funding

/// Funding moves the amount given from the funder to the reward vault; it is
/// refused by a paused pool, and for nothing.
pub proof fn law_funding_moves_the_amount(
    ctx: &FundRewards,
    amount: u64,
    progress: Progress,
    result: Result<Next<RewardsFunded>, StakingError>,
)
    requires
        call_ensures(instruction::fund_rewards, (ctx, amount, progress), result),
    ensures
        ctx.pool.data.is_paused ==> result == Err::<Next<RewardsFunded>, _>(
            StakingError::PoolPaused,
        ),
        !ctx.pool.data.is_paused && amount == 0 ==> result == Err::<Next<RewardsFunded>, _>(
            StakingError::ZeroAmount,
        ),
        !ctx.pool.data.is_paused && amount > 0 && !progress.transferred ==> (result matches Ok(
            Next::Transfer(transfer),
        ) && {
            &&& transfer.from == ctx.funder_reward_account.key
            &&& transfer.to == ctx.reward_vault.key
            &&& transfer.authority == ctx.funder
            &&& transfer.amount == amount
            &&& transfer.signer is None
        }),
        !ctx.pool.data.is_paused && amount > 0 && progress.transferred ==> (result matches Ok(
            Next::Done(event),
        ) && event.funder == ctx.funder && event.amount == amount),
{
}

// Staking

/// Staking refuses at once what a paused pool or a missing amount rules out,
/// asks for the time otherwise, and touches nothing.
pub proof fn law_staking_begins(
    ctx: &mut Stake,
    bump: u8,
    amount: u64,
    progress: Progress,
    result: Result<Next<Staked>, StakingError>,
)
    requires
        progress.now is None,
        call_ensures(instruction::stake, (ctx, bump, amount, progress), result),
    ensures
        *final(ctx) == *old(ctx),
        if old(ctx).pool.data.is_paused {
            result == Err::<Next<Staked>, _>(StakingError::PoolPaused)
        } else if amount == 0 {
            result == Err::<Next<Staked>, _>(StakingError::ZeroAmount)
        } else {
            result == Ok::<_, StakingError>(Next::<Staked>::ReadClock)
        },
{
}

/// Once the time is known, staking asks the user for exactly the amount
/// requested, whatever is staked already, unless the rewards kept and pending
/// are more than a `u64` holds; and touches nothing.
pub proof fn law_staking_asks_for_the_amount(
    ctx: &mut Stake,
    bump: u8,
    amount: u64,
    now: i64,
    pending: u64,
    result: Result<Next<Staked>, StakingError>,
)
    requires
        call_ensures(
            rewards::calculate_pending_rewards,
            (
                old(ctx).user_stake.data.amount,
                old(ctx).user_stake.data.last_update_ts,
                now,
                old(ctx).pool.data.reward_rate,
            ),
            pending,
        ),
        call_ensures(
            instruction::stake,
            (ctx, bump, amount, Progress { now: Some(now), transferred: false }),
            result,
        ),
    ensures
        *final(ctx) == *old(ctx),
        if old(ctx).pool.data.is_paused {
            result == Err::<Next<Staked>, _>(StakingError::PoolPaused)
        } else if amount == 0 {
            result == Err::<Next<Staked>, _>(StakingError::ZeroAmount)
        } else if old(ctx).user_stake.data.rewards_earned + pending > u64::MAX {
            result == Err::<Next<Staked>, _>(StakingError::MathOverflow)
        } else {
            result matches Ok(Next::Transfer(transfer)) && {
                &&& transfer.from == old(ctx).user_token_account.key
                &&& transfer.to == old(ctx).stake_vault.key
                &&& transfer.authority == old(ctx).user
                &&& transfer.amount == amount
                &&& transfer.signer is None
            }
        },
{
}

/// Once the tokens have come, the stake and the pool's total grow by the amount
/// requested, the pending rewards are kept, the time of settlement is now, and
/// the lock runs from now; nothing else changes but the owner, the pool and the
/// bump of the stake, which are the user, the pool and the bump given. Where a
/// number is more than a `u64` holds, nothing changes and this is the answer.
pub proof fn law_staking_adds_the_amount(
    ctx: &mut Stake,
    bump: u8,
    amount: u64,
    now: i64,
    pending: u64,
    result: Result<Next<Staked>, StakingError>,
)
    requires
        call_ensures(
            rewards::calculate_pending_rewards,
            (
                old(ctx).user_stake.data.amount,
                old(ctx).user_stake.data.last_update_ts,
                now,
                old(ctx).pool.data.reward_rate,
            ),
            pending,
        ),
        call_ensures(
            instruction::stake,
            (ctx, bump, amount, Progress { now: Some(now), transferred: true }),
            result,
        ),
    ensures
        ({
            let pool = old(ctx).pool.data;
            let user_stake = old(ctx).user_stake.data;
            let done = !pool.is_paused && amount > 0 && user_stake.rewards_earned + pending
                <= u64::MAX && user_stake.amount + amount <= u64::MAX && pool.total_staked
                + amount <= u64::MAX;
            if done {
                let new_pool = final(ctx).pool.data;
                let new_stake = final(ctx).user_stake.data;
                &&& new_stake.owner == old(ctx).user
                &&& new_stake.pool == old(ctx).pool.key
                &&& new_stake.amount == user_stake.amount + amount
                &&& user_stake.stake_ts == 0 ==> new_stake.stake_ts == now
                &&& user_stake.stake_ts != 0 ==> new_stake.stake_ts == user_stake.stake_ts
                &&& new_stake.last_update_ts == now
                &&& i64::MIN <= now + pool.lock_period <= i64::MAX ==> new_stake.unlock_ts == now
                    + pool.lock_period
                &&& new_stake.rewards_earned == user_stake.rewards_earned + pending
                &&& new_stake.bump == bump
                &&& new_pool.total_staked == pool.total_staked + amount
                &&& new_pool.admin == pool.admin
                &&& new_pool.stake_mint == pool.stake_mint
                &&& new_pool.reward_mint == pool.reward_mint
                &&& new_pool.reward_vault == pool.reward_vault
                &&& new_pool.reward_rate == pool.reward_rate
                &&& new_pool.lock_period == pool.lock_period
                &&& new_pool.is_paused == pool.is_paused
                &&& new_pool.bump == pool.bump
                &&& final(ctx).user == old(ctx).user
                &&& final(ctx).pool.key == old(ctx).pool.key
                &&& final(ctx).user_stake.key == old(ctx).user_stake.key
                &&& final(ctx).user_token_account == old(ctx).user_token_account
                &&& final(ctx).stake_vault == old(ctx).stake_vault
                &&& result matches Ok(Next::Done(event))
                &&& event.user == old(ctx).user
                &&& event.amount == amount
                &&& event.total_staked == user_stake.amount + amount
            } else {
                &&& *final(ctx) == *old(ctx)
                &&& result == Err::<Next<Staked>, _>(
                    if pool.is_paused {
                        StakingError::PoolPaused
                    } else if amount == 0 {
                        StakingError::ZeroAmount
                    } else {
                        StakingError::MathOverflow
                    },
                )
            }
        }),
{
}

/// Of a staking that is carried out, the tokens that the user is asked for, the
/// growth of the stake and the growth of the pool's total are the same.
pub proof fn law_tokens_staked_are_the_growth(
    asked: &mut Stake,
    done: &mut Stake,
    bump: u8,
    amount: u64,
    now: i64,
    transfer: TokenTransfer,
    event: Staked,
)
    requires
        *old(asked) == *old(done),
        call_ensures(
            instruction::stake,
            (asked, bump, amount, Progress { now: Some(now), transferred: false }),
            Ok(Next::Transfer(transfer)),
        ),
        call_ensures(
            instruction::stake,
            (done, bump, amount, Progress { now: Some(now), transferred: true }),
            Ok(Next::Done(event)),
        ),
    ensures
        transfer.to == old(done).stake_vault.key,
        transfer.amount == final(done).user_stake.data.amount - old(done).user_stake.data.amount,
        transfer.amount == final(done).pool.data.total_staked - old(done).pool.data.total_staked,
        transfer.amount == amount,
{
}

/// Staking can be asked for whenever the time since the last settlement, if
/// anything is staked, and the time of unlocking, if it comes to that, fit in
/// an `i64`; and the range is told right.
pub proof fn law_staking_range(
    ctx: &mut Stake,
    same: &Stake,
    bump: u8,
    amount: u64,
    progress: Progress,
    pending: u64,
    fit: bool,
)
    requires
        *old(ctx) == *same,
        progress.now is Some ==> call_ensures(
            rewards::calculate_pending_rewards,
            (
                same.user_stake.data.amount,
                same.user_stake.data.last_update_ts,
                progress.now->0,
                same.pool.data.reward_rate,
            ),
            pending,
        ),
        call_ensures(Stake::times_are_in_range, (same, amount, progress), fit),
    ensures
        ({
            let pool = same.pool.data;
            let user_stake = same.user_stake.data;
            fit <==> (progress.now is Some && !pool.is_paused && amount > 0 ==> {
                &&& user_stake.amount == 0 || user_stake.last_update_ts == 0 || progress.now->0
                    - user_stake.last_update_ts <= i64::MAX
                &&& progress.transferred && user_stake.rewards_earned + pending <= u64::MAX
                    && user_stake.amount + amount <= u64::MAX ==> i64::MIN <= progress.now->0
                    + pool.lock_period <= i64::MAX
            })
        }),
        fit ==> call_requires(instruction::stake, (ctx, bump, amount, progress)),
{
}

// Claiming

/// A paused pool refuses a claim at once; otherwise the time is asked for, and
/// nothing is touched.
pub proof fn law_claiming_begins(
    ctx: &mut ClaimRewards,
    progress: Progress,
    result: Result<Next<RewardsClaimed>, StakingError>,
)
    requires
        progress.now is None,
        call_ensures(instruction::claim_rewards, (ctx, progress), result),
    ensures
        *final(ctx) == *old(ctx),
        if old(ctx).pool.data.is_paused {
            result == Err::<Next<RewardsClaimed>, _>(StakingError::PoolPaused)
        } else {
            result == Ok::<_, StakingError>(Next::<RewardsClaimed>::ReadClock)
        },
{
}

/// Once the time is known, a claim asks the reward vault for exactly the
/// rewards kept and pending, signed by the pool. It is refused where they are
/// more than a `u64` holds, where there are none, and where the vault holds
/// less. Nothing is touched.
pub proof fn law_claim_asks_for_all_rewards(
    ctx: &mut ClaimRewards,
    now: i64,
    pending: u64,
    result: Result<Next<RewardsClaimed>, StakingError>,
)
    requires
        call_ensures(
            rewards::calculate_pending_rewards,
            (
                old(ctx).user_stake.data.amount,
                old(ctx).user_stake.data.last_update_ts,
                now,
                old(ctx).pool.data.reward_rate,
            ),
            pending,
        ),
        call_ensures(
            instruction::claim_rewards,
            (ctx, Progress { now: Some(now), transferred: false }),
            result,
        ),
    ensures
        *final(ctx) == *old(ctx),
        ({
            let all = old(ctx).user_stake.data.rewards_earned + pending;
            if old(ctx).pool.data.is_paused {
                result == Err::<Next<RewardsClaimed>, _>(StakingError::PoolPaused)
            } else if all > u64::MAX {
                result == Err::<Next<RewardsClaimed>, _>(StakingError::MathOverflow)
            } else if all == 0 {
                result == Err::<Next<RewardsClaimed>, _>(StakingError::NoRewards)
            } else if old(ctx).reward_vault.data.amount < all {
                result == Err::<Next<RewardsClaimed>, _>(StakingError::InsufficientRewards)
            } else {
                result matches Ok(Next::Transfer(transfer)) && {
                    &&& transfer.from == old(ctx).reward_vault.key
                    &&& transfer.to == old(ctx).user_reward_account.key
                    &&& transfer.authority == old(ctx).pool.key
                    &&& transfer.amount == all
                    &&& transfer.signer matches Some(signer)
                    &&& signer.stake_mint == old(ctx).pool.data.stake_mint
                    &&& signer.bump == old(ctx).pool.data.bump
                }
            }
        }),
{
}

/// Once the rewards are paid, none are kept and the time of settlement is now;
/// everything else is as it was. A claim that is refused changes nothing.
pub proof fn law_claim_starts_counting_anew(
    ctx: &mut ClaimRewards,
    now: i64,
    pending: u64,
    result: Result<Next<RewardsClaimed>, StakingError>,
)
    requires
        call_ensures(
            rewards::calculate_pending_rewards,
            (
                old(ctx).user_stake.data.amount,
                old(ctx).user_stake.data.last_update_ts,
                now,
                old(ctx).pool.data.reward_rate,
            ),
            pending,
        ),
        call_ensures(
            instruction::claim_rewards,
            (ctx, Progress { now: Some(now), transferred: true }),
            result,
        ),
    ensures
        ({
            let before = old(ctx).user_stake.data;
            let all = before.rewards_earned + pending;
            let done = !old(ctx).pool.data.is_paused && 0 < all <= u64::MAX && all
                <= old(ctx).reward_vault.data.amount;
            if done {
                let after = final(ctx).user_stake.data;
                &&& after.rewards_earned == 0
                &&& after.last_update_ts == now
                &&& after.owner == before.owner
                &&& after.pool == before.pool
                &&& after.amount == before.amount
                &&& after.stake_ts == before.stake_ts
                &&& after.unlock_ts == before.unlock_ts
                &&& after.bump == before.bump
                &&& final(ctx).user == old(ctx).user
                &&& final(ctx).pool == old(ctx).pool
                &&& final(ctx).user_stake.key == old(ctx).user_stake.key
                &&& final(ctx).reward_vault == old(ctx).reward_vault
                &&& final(ctx).user_reward_account == old(ctx).user_reward_account
                &&& result matches Ok(Next::Done(event))
                &&& event.user == old(ctx).user
                &&& event.amount == all
            } else {
                &&& *final(ctx) == *old(ctx)
                &&& result == Err::<Next<RewardsClaimed>, _>(
                    if old(ctx).pool.data.is_paused {
                        StakingError::PoolPaused
                    } else if all > u64::MAX {
                        StakingError::MathOverflow
                    } else if all == 0 {
                        StakingError::NoRewards
                    } else {
                        StakingError::InsufficientRewards
                    },
                )
            }
        }),
{
}

/// A stake goes on earning after a claim: what a later claim pays is exactly
/// the whole tokens that the stake, as large as before, has earned since the
/// first one, at the rate of then.
pub proof fn law_stake_goes_on_earning_after_a_claim(
    first: &mut ClaimRewards,
    second: &mut ClaimRewards,
    now: i64,
    later: i64,
    claimed: RewardsClaimed,
    paid: TokenTransfer,
)
    requires
        now != 0,
        now <= later,
        call_ensures(
            instruction::claim_rewards,
            (first, Progress { now: Some(now), transferred: true }),
            Ok(Next::Done(claimed)),
        ),
        old(second).user_stake == final(first).user_stake,
        call_ensures(
            instruction::claim_rewards,
            (second, Progress { now: Some(later), transferred: false }),
            Ok(Next::Transfer(paid)),
        ),
    ensures
        ({
            let earned = old(first).user_stake.data.amount * old(second).pool.data.reward_rate * (
            later - now);
            if earned < (u64::MAX + 1) * 1_000_000_000 {
                paid.amount * 1_000_000_000 <= earned < (paid.amount + 1) * 1_000_000_000
            } else {
                paid.amount == u64::MAX
            }
        }),
        final(first).user_stake.data.last_update_ts == now,
        later > now,
{
}

/// After a claim the next one is refused for want of rewards just when the
/// stake has not earned one whole token since.
pub proof fn law_next_claim_waits_for_a_whole_token(
    first: &mut ClaimRewards,
    second: &mut ClaimRewards,
    now: i64,
    later: i64,
    claimed: RewardsClaimed,
    result: Result<Next<RewardsClaimed>, StakingError>,
)
    requires
        now != 0,
        now <= later,
        call_ensures(
            instruction::claim_rewards,
            (first, Progress { now: Some(now), transferred: true }),
            Ok(Next::Done(claimed)),
        ),
        old(second).user_stake == final(first).user_stake,
        !old(second).pool.data.is_paused,
        call_ensures(
            instruction::claim_rewards,
            (second, Progress { now: Some(later), transferred: false }),
            result,
        ),
    ensures
        result == Err::<Next<RewardsClaimed>, _>(StakingError::NoRewards) <==> old(
            first,
        ).user_stake.data.amount * old(second).pool.data.reward_rate * (later - now)
            < 1_000_000_000,
{
    let staked: u64 = old(first).user_stake.data.amount;
    let rate: u64 = old(second).pool.data.reward_rate;
    let per_second: int = staked * rate;
    let elapsed: int = later - now;
    assert(0 <= per_second) by (nonlinear_arith)
        requires
            per_second == staked * rate,
    ;
    assert(0 <= per_second * elapsed) by (nonlinear_arith)
        requires
            0 <= per_second,
            0 <= elapsed,
    ;
    assert(elapsed == 0 ==> per_second * elapsed == 0) by (nonlinear_arith);
}

/// Of a claim that is carried out, the tokens that leave the vault are those
/// that are announced.
pub proof fn law_rewards_announced_are_paid(
    asked: &mut ClaimRewards,
    done: &mut ClaimRewards,
    now: i64,
    transfer: TokenTransfer,
    event: RewardsClaimed,
)
    requires
        *old(asked) == *old(done),
        call_ensures(
            instruction::claim_rewards,
            (asked, Progress { now: Some(now), transferred: false }),
            Ok(Next::Transfer(transfer)),
        ),
        call_ensures(
            instruction::claim_rewards,
            (done, Progress { now: Some(now), transferred: true }),
            Ok(Next::Done(event)),
        ),
    ensures
        transfer.amount == event.amount,
        transfer.to == old(done).user_reward_account.key,
        transfer.amount >= old(done).user_stake.data.rewards_earned,
{
    rewards::lemma_accrual_is_not_negative(
        old(done).user_stake.data.amount,
        old(done).user_stake.data.last_update_ts,
        now,
        old(done).pool.data.reward_rate,
    );
}

/// A claim can be made whenever the time since the last settlement fits in an
/// `i64`, and to a paused pool at any time; and the range is told right.
pub proof fn law_claiming_range(
    ctx: &mut ClaimRewards,
    same: &ClaimRewards,
    progress: Progress,
    fit: bool,
)
    requires
        *old(ctx) == *same,
        call_ensures(ClaimRewards::times_are_in_range, (same, progress), fit),
    ensures
        fit <==> (progress.now is Some && !same.pool.data.is_paused
            ==> same.user_stake.data.last_update_ts == 0 || progress.now->0
            - same.user_stake.data.last_update_ts <= i64::MAX),
        fit ==> call_requires(instruction::claim_rewards, (ctx, progress)),
{
}

// Unstaking

/// Unstaking refuses at once what a paused pool or a missing amount rules out,
/// asks for the time otherwise, and touches nothing.
pub proof fn law_unstaking_begins(
    ctx: &mut Unstake,
    amount: u64,
    progress: Progress,
    result: Result<Next<Unstaked>, StakingError>,
)
    requires
        progress.now is None,
        call_ensures(instruction::unstake, (ctx, amount, progress), result),
    ensures
        *final(ctx) == *old(ctx),
        if old(ctx).pool.data.is_paused {
            result == Err::<Next<Unstaked>, _>(StakingError::PoolPaused)
        } else if amount == 0 {
            result == Err::<Next<Unstaked>, _>(StakingError::ZeroAmount)
        } else {
            result == Ok::<_, StakingError>(Next::<Unstaked>::ReadClock)
        },
{
}

/// Once the time is known, unstaking asks the stake vault for exactly the
/// amount requested, signed by the pool. It is refused where less is staked,
/// before the time of unlocking while there is a lock period, and where a
/// number does not fit. Nothing is touched.
pub proof fn law_unstaking_asks_for_the_amount(
    ctx: &mut Unstake,
    amount: u64,
    now: i64,
    pending: u64,
    result: Result<Next<Unstaked>, StakingError>,
)
    requires
        call_ensures(
            rewards::calculate_pending_rewards,
            (
                old(ctx).user_stake.data.amount,
                old(ctx).user_stake.data.last_update_ts,
                now,
                old(ctx).pool.data.reward_rate,
            ),
            pending,
        ),
        call_ensures(
            instruction::unstake,
            (ctx, amount, Progress { now: Some(now), transferred: false }),
            result,
        ),
    ensures
        *final(ctx) == *old(ctx),
        ({
            let pool = old(ctx).pool.data;
            let user_stake = old(ctx).user_stake.data;
            if pool.is_paused {
                result == Err::<Next<Unstaked>, _>(StakingError::PoolPaused)
            } else if amount == 0 {
                result == Err::<Next<Unstaked>, _>(StakingError::ZeroAmount)
            } else if user_stake.amount < amount {
                result == Err::<Next<Unstaked>, _>(StakingError::InsufficientStake)
            } else if pool.lock_period > 0 && now < user_stake.unlock_ts {
                result == Err::<Next<Unstaked>, _>(StakingError::StillLocked)
            } else if user_stake.rewards_earned + pending > u64::MAX || pool.total_staked
                < amount {
                result == Err::<Next<Unstaked>, _>(StakingError::MathOverflow)
            } else {
                result matches Ok(Next::Transfer(transfer)) && {
                    &&& transfer.from == old(ctx).stake_vault.key
                    &&& transfer.to == old(ctx).user_token_account.key
                    &&& transfer.authority == old(ctx).pool.key
                    &&& transfer.amount == amount
                    &&& transfer.signer matches Some(signer)
                    &&& signer.stake_mint == pool.stake_mint
                    &&& signer.bump == pool.bump
                }
            }
        }),
{
}

/// Once the tokens are paid out, the stake and the pool's total fall by the
/// amount requested, the pending rewards are kept, and the time of settlement
/// is now; everything else is as it was. Unstaking that is refused changes
/// nothing.
pub proof fn law_unstaking_takes_the_amount(
    ctx: &mut Unstake,
    amount: u64,
    now: i64,
    pending: u64,
    result: Result<Next<Unstaked>, StakingError>,
)
    requires
        call_ensures(
            rewards::calculate_pending_rewards,
            (
                old(ctx).user_stake.data.amount,
                old(ctx).user_stake.data.last_update_ts,
                now,
                old(ctx).pool.data.reward_rate,
            ),
            pending,
        ),
        call_ensures(
            instruction::unstake,
            (ctx, amount, Progress { now: Some(now), transferred: true }),
            result,
        ),
    ensures
        ({
            let pool = old(ctx).pool.data;
            let user_stake = old(ctx).user_stake.data;
            let locked = pool.lock_period > 0 && now < user_stake.unlock_ts;
            let done = !pool.is_paused && 0 < amount <= user_stake.amount && !locked
                && user_stake.rewards_earned + pending <= u64::MAX && amount <= pool.total_staked;
            if done {
                let new_pool = final(ctx).pool.data;
                let new_stake = final(ctx).user_stake.data;
                &&& new_stake.amount == user_stake.amount - amount
                &&& new_stake.last_update_ts == now
                &&& new_stake.rewards_earned == user_stake.rewards_earned + pending
                &&& new_stake.owner == user_stake.owner
                &&& new_stake.pool == user_stake.pool
                &&& new_stake.stake_ts == user_stake.stake_ts
                &&& new_stake.unlock_ts == user_stake.unlock_ts
                &&& new_stake.bump == user_stake.bump
                &&& new_pool.total_staked == pool.total_staked - amount
                &&& new_pool.admin == pool.admin
                &&& new_pool.stake_mint == pool.stake_mint
                &&& new_pool.reward_mint == pool.reward_mint
                &&& new_pool.reward_vault == pool.reward_vault
                &&& new_pool.reward_rate == pool.reward_rate
                &&& new_pool.lock_period == pool.lock_period
                &&& new_pool.is_paused == pool.is_paused
                &&& new_pool.bump == pool.bump
                &&& final(ctx).user == old(ctx).user
                &&& final(ctx).pool.key == old(ctx).pool.key
                &&& final(ctx).user_stake.key == old(ctx).user_stake.key
                &&& final(ctx).user_token_account == old(ctx).user_token_account
                &&& final(ctx).stake_vault == old(ctx).stake_vault
                &&& result matches Ok(Next::Done(event))
                &&& event.user == old(ctx).user
                &&& event.amount == amount
                &&& event.remaining == user_stake.amount - amount
            } else {
                &&& *final(ctx) == *old(ctx)
                &&& result == Err::<Next<Unstaked>, _>(
                    if pool.is_paused {
                        StakingError::PoolPaused
                    } else if amount == 0 {
                        StakingError::ZeroAmount
                    } else if user_stake.amount < amount {
                        StakingError::InsufficientStake
                    } else if locked {
                        StakingError::StillLocked
                    } else {
                        StakingError::MathOverflow
                    },
                )
            }
        }),
{
}

/// Of an unstaking that is carried out, the tokens that leave the stake vault,
/// the fall of the stake and the fall of the pool's total are the same.
pub proof fn law_tokens_unstaked_are_the_fall(
    asked: &mut Unstake,
    done: &mut Unstake,
    amount: u64,
    now: i64,
    transfer: TokenTransfer,
    event: Unstaked,
)
    requires
        *old(asked) == *old(done),
        call_ensures(
            instruction::unstake,
            (asked, amount, Progress { now: Some(now), transferred: false }),
            Ok(Next::Transfer(transfer)),
        ),
        call_ensures(
            instruction::unstake,
            (done, amount, Progress { now: Some(now), transferred: true }),
            Ok(Next::Done(event)),
        ),
    ensures
        transfer.from == old(done).stake_vault.key,
        transfer.amount == old(done).user_stake.data.amount - final(done).user_stake.data.amount,
        transfer.amount == old(done).pool.data.total_staked - final(done).pool.data.total_staked,
        transfer.amount == amount,
{
}

/// Unstaking can be asked for whenever the time since the last settlement fits
/// in an `i64`, and at any time where it is refused before that is looked at;
/// and the range is told right.
pub proof fn law_unstaking_range(
    ctx: &mut Unstake,
    same: &Unstake,
    amount: u64,
    progress: Progress,
    fit: bool,
)
    requires
        *old(ctx) == *same,
        call_ensures(Unstake::times_are_in_range, (same, amount, progress), fit),
    ensures
        ({
            let pool = same.pool.data;
            let user_stake = same.user_stake.data;
            fit <==> (progress.now is Some && !pool.is_paused && 0 < amount <= user_stake.amount
                && !(pool.lock_period > 0 && progress.now->0 < user_stake.unlock_ts)
                ==> user_stake.last_update_ts == 0 || progress.now->0 - user_stake.last_update_ts
                <= i64::MAX)
        }),
        fit ==> call_requires(instruction::unstake, (ctx, amount, progress)),
{
}

/// A stake earns from the time it was last added to or taken from: what a later
/// claim pays is what was kept then, and exactly the whole tokens that the
/// stake, as large as it was left, has earned since.
pub proof fn law_stake_earns_after_staking_and_unstaking(
    staking: &mut Stake,
    bump: u8,
    added: u64,
    staked: Staked,
    unstaking: &mut Unstake,
    taken: u64,
    unstaked: Unstaked,
    claim: &mut ClaimRewards,
    now: i64,
    later: i64,
    paid: TokenTransfer,
)
    requires
        now != 0,
        now <= later,
        call_ensures(
            instruction::stake,
            (staking, bump, added, Progress { now: Some(now), transferred: true }),
            Ok(Next::Done(staked)),
        ),
        call_ensures(
            instruction::unstake,
            (unstaking, taken, Progress { now: Some(now), transferred: true }),
            Ok(Next::Done(unstaked)),
        ),
        call_ensures(
            instruction::claim_rewards,
            (claim, Progress { now: Some(later), transferred: false }),
            Ok(Next::Transfer(paid)),
        ),
    ensures
        old(claim).user_stake == final(staking).user_stake ==> {
            let size = old(staking).user_stake.data.amount + added;
            let earned = size * old(claim).pool.data.reward_rate * (later - now);
            let since = paid.amount - final(staking).user_stake.data.rewards_earned;
            if earned < (u64::MAX + 1) * 1_000_000_000 {
                since * 1_000_000_000 <= earned < (since + 1) * 1_000_000_000
            } else {
                since == u64::MAX
            }
        },
        old(claim).user_stake == final(unstaking).user_stake ==> {
            let size = old(unstaking).user_stake.data.amount - taken;
            let earned = size * old(claim).pool.data.reward_rate * (later - now);
            let since = paid.amount - final(unstaking).user_stake.data.rewards_earned;
            if earned < (u64::MAX + 1) * 1_000_000_000 {
                since * 1_000_000_000 <= earned < (since + 1) * 1_000_000_000
            } else {
                since == u64::MAX
            }
        },
{
    let staked_size: int = old(staking).user_stake.data.amount + added;
    let left_size: int = old(unstaking).user_stake.data.amount - taken;
    let rate: int = old(claim).pool.data.reward_rate as int;
    assert(staked_size * rate * 0 == 0) by (nonlinear_arith);
    assert(left_size * rate * 0 == 0) by (nonlinear_arith);
}

// Administration

/// At the admin's request the pool is paused or not as asked, and is otherwise
/// as before; at the request of another nothing changes.
pub proof fn law_admin_sets_the_pause(
    ctx: &mut AdminOnly,
    paused: bool,
    result: Result<PauseToggled, StakingError>,
)
    requires
        call_ensures(instruction::set_paused, (ctx, paused), result),
    ensures
        ({
            let before = old(ctx).pool.data;
            let after = final(ctx).pool.data;
            if old(ctx).admin == before.admin {
                &&& after.is_paused == paused
                &&& after.admin == before.admin
                &&& after.stake_mint == before.stake_mint
                &&& after.reward_mint == before.reward_mint
                &&& after.reward_vault == before.reward_vault
                &&& after.reward_rate == before.reward_rate
                &&& after.lock_period == before.lock_period
                &&& after.total_staked == before.total_staked
                &&& after.bump == before.bump
                &&& final(ctx).admin == old(ctx).admin
                &&& final(ctx).pool.key == old(ctx).pool.key
                &&& result matches Ok(event)
                &&& event.paused == paused
            } else {
                &&& *final(ctx) == *old(ctx)
                &&& result == Err::<PauseToggled, _>(
                    StakingError::Unauthorized,
                )
            }
        }),
{
}

/// At the admin's request the pool has the rate asked for, whatever it had, and
/// is otherwise as before; at the request of another nothing changes.
pub proof fn law_admin_sets_the_reward_rate(
    ctx: &mut AdminOnly,
    new_rate: u64,
    result: Result<RewardRateUpdated, StakingError>,
)
    requires
        call_ensures(instruction::set_reward_rate, (ctx, new_rate), result),
    ensures
        ({
            let before = old(ctx).pool.data;
            let after = final(ctx).pool.data;
            if old(ctx).admin == before.admin {
                &&& after.reward_rate == new_rate
                &&& after.admin == before.admin
                &&& after.stake_mint == before.stake_mint
                &&& after.reward_mint == before.reward_mint
                &&& after.reward_vault == before.reward_vault
                &&& after.lock_period == before.lock_period
                &&& after.total_staked == before.total_staked
                &&& after.is_paused == before.is_paused
                &&& after.bump == before.bump
                &&& final(ctx).admin == old(ctx).admin
                &&& final(ctx).pool.key == old(ctx).pool.key
                &&& result matches Ok(event)
                &&& event.new_rate == new_rate
            } else {
                &&& *final(ctx) == *old(ctx)
                &&& result == Err::<RewardRateUpdated, _>(
                    StakingError::Unauthorized,
                )
            }
        }),
{
}

/// At the admin's request the pool has the lock period asked for, unless that is
/// negative, and is otherwise as before; at the request of another nothing
/// changes.
pub proof fn law_admin_sets_the_lock_period(
    ctx: &mut AdminOnly,
    new_lock_period: i64,
    result: Result<LockPeriodUpdated, StakingError>,
)
    requires
        call_ensures(instruction::set_lock_period, (ctx, new_lock_period), result),
    ensures
        ({
            let before = old(ctx).pool.data;
            let after = final(ctx).pool.data;
            if old(ctx).admin == before.admin && new_lock_period >= 0 {
                &&& after.lock_period == new_lock_period
                &&& after.admin == before.admin
                &&& after.stake_mint == before.stake_mint
                &&& after.reward_mint == before.reward_mint
                &&& after.reward_vault == before.reward_vault
                &&& after.reward_rate == before.reward_rate
                &&& after.total_staked == before.total_staked
                &&& after.is_paused == before.is_paused
                &&& after.bump == before.bump
                &&& final(ctx).admin == old(ctx).admin
                &&& final(ctx).pool.key == old(ctx).pool.key
                &&& result matches Ok(event)
                &&& event.new_lock_period == new_lock_period
            } else {
                &&& *final(ctx) == *old(ctx)
                &&& result == Err::<LockPeriodUpdated, _>(
                    if old(ctx).admin != before.admin {
                        StakingError::Unauthorized
                    } else {
                        StakingError::InvalidLockPeriod
                    },
                )
            }
        }),
{
}

/// At the admin's request the pool has the admin asked for, and is otherwise as
/// before; at the request of another nothing changes.
pub proof fn law_admin_hands_the_pool_on(
    ctx: &mut TransferAdmin,
    new_admin: Pubkey,
    result: Result<AdminTransferred, StakingError>,
)
    requires
        call_ensures(instruction::transfer_admin, (ctx, new_admin), result),
    ensures
        ({
            let before = old(ctx).pool.data;
            let after = final(ctx).pool.data;
            if old(ctx).admin == before.admin {
                &&& after.admin == new_admin
                &&& after.stake_mint == before.stake_mint
                &&& after.reward_mint == before.reward_mint
                &&& after.reward_vault == before.reward_vault
                &&& after.reward_rate == before.reward_rate
                &&& after.lock_period == before.lock_period
                &&& after.total_staked == before.total_staked
                &&& after.is_paused == before.is_paused
                &&& after.bump == before.bump
                &&& final(ctx).admin == old(ctx).admin
                &&& final(ctx).pool.key == old(ctx).pool.key
                &&& result matches Ok(event)
                &&& event.new_admin == new_admin
            } else {
                &&& *final(ctx) == *old(ctx)
                &&& result == Err::<AdminTransferred, _>(
                    StakingError::Unauthorized,
                )
            }
        }),
{
}

// Accounts

/// A pool passes just at the address given, and the bump is handed on.
pub proof fn law_setup_accounts(
    ctx: &InitializePool,
    address: &Pubkey,
    bump: u8,
    result: Result<u8, ConstraintError>,
)
    requires
        call_ensures(InitializePool::check, (ctx, address, bump), result),
    ensures
        if ctx.pool.key.bytes@ == address.bytes@ {
            result == Ok::<u8, ConstraintError>(bump)
        } else {
            result == Err::<u8, _>(ConstraintError::ConstraintSeeds)
        },
{
}

/// Accounts for funding pass just when the funder pays the reward token from
/// their own account into the pool's reward vault.
pub proof fn law_funding_accounts(ctx: &FundRewards, result: Result<(), ConstraintError>)
    requires
        call_ensures(FundRewards::validate, (ctx,), result),
    ensures
        if ctx.funder_reward_account.data.mint == ctx.pool.data.reward_mint
            && ctx.funder_reward_account.data.owner == ctx.funder && ctx.reward_vault.key
            == ctx.pool.data.reward_vault {
            result == Ok::<(), ConstraintError>(())
        } else {
            result == Err::<(), _>(ConstraintError::ConstraintRaw)
        },
{
}

/// Accounts for staking pass just when the stake is at the address given, and
/// the user pays the staked token from their own account into a vault of the
/// pool for it; the bump is handed on. The address is looked at first.
pub proof fn law_staking_accounts(
    ctx: &Stake,
    address: &Pubkey,
    bump: u8,
    result: Result<u8, ConstraintError>,
)
    requires
        call_ensures(Stake::check, (ctx, address, bump), result),
    ensures
        if ctx.user_stake.key.bytes@ != address.bytes@ {
            result == Err::<u8, _>(ConstraintError::ConstraintSeeds)
        } else if ctx.user_token_account.data.mint == ctx.pool.data.stake_mint
            && ctx.user_token_account.data.owner == ctx.user && ctx.stake_vault.data.mint
            == ctx.pool.data.stake_mint && ctx.stake_vault.data.owner == ctx.pool.key {
            result == Ok::<u8, ConstraintError>(bump)
        } else {
            result == Err::<u8, _>(ConstraintError::ConstraintRaw)
        },
{
}

/// Accounts for a claim pass just when the stake is at the address derived and
/// belongs to the user, and the reward token goes from the pool's reward vault
/// to the user's own account. The address is looked at first.
pub proof fn law_claiming_accounts(
    ctx: &ClaimRewards,
    derived: &Result<Pubkey, ConstraintError>,
    result: Result<(), ConstraintError>,
)
    requires
        call_ensures(ClaimRewards::check, (ctx, derived), result),
    ensures
        if *derived is Err || ctx.user_stake.key.bytes@ != (derived->Ok_0).bytes@ {
            result == Err::<(), _>(ConstraintError::ConstraintSeeds)
        } else if ctx.user_stake.data.owner == ctx.user && ctx.reward_vault.key
            == ctx.pool.data.reward_vault && ctx.user_reward_account.data.mint
            == ctx.pool.data.reward_mint && ctx.user_reward_account.data.owner == ctx.user {
            result == Ok::<(), ConstraintError>(())
        } else {
            result == Err::<(), _>(ConstraintError::ConstraintRaw)
        },
{
}

/// Accounts for unstaking pass just when the stake is at the address derived
/// and belongs to the user, and the staked token goes from a vault of the pool
/// for it to the user's own account. The address is looked at first.
pub proof fn law_unstaking_accounts(
    ctx: &Unstake,
    derived: &Result<Pubkey, ConstraintError>,
    result: Result<(), ConstraintError>,
)
    requires
        call_ensures(Unstake::check, (ctx, derived), result),
    ensures
        if *derived is Err || ctx.user_stake.key.bytes@ != (derived->Ok_0).bytes@ {
            result == Err::<(), _>(ConstraintError::ConstraintSeeds)
        } else if ctx.user_stake.data.owner == ctx.user && ctx.user_token_account.data.mint
            == ctx.pool.data.stake_mint && ctx.user_token_account.data.owner == ctx.user
            && ctx.stake_vault.data.mint == ctx.pool.data.stake_mint
            && ctx.stake_vault.data.owner == ctx.pool.key {
            result == Ok::<(), ConstraintError>(())
        } else {
            result == Err::<(), _>(ConstraintError::ConstraintRaw)
        },
{
}

/// Nobody passes for the admin but the admin.
pub proof fn law_admin_accounts(
    settings: &AdminOnly,
    settings_result: Result<(), StakingError>,
    handover: &TransferAdmin,
    handover_result: Result<(), StakingError>,
)
    requires
        call_ensures(AdminOnly::validate, (settings,), settings_result),
        call_ensures(TransferAdmin::validate, (handover,), handover_result),
    ensures
        settings_result is Ok <==> settings.admin == settings.pool.data.admin,
        settings_result is Err ==> settings_result == Err::<(), _>(StakingError::Unauthorized),
        handover_result is Ok <==> handover.admin == handover.pool.data.admin,
        handover_result is Err ==> handover_result == Err::<(), _>(StakingError::Unauthorized),
{
}

/// A setup is validated by holding it against the address that is found for its
/// pool.
pub proof fn law_setup_is_held_against_its_address(
    ctx: &InitializePool,
    program_id: &Pubkey,
    found: Option<(Pubkey, u8)>,
    checked: Result<u8, ConstraintError>,
    result: Option<Result<u8, ConstraintError>>,
)
    requires
        call_ensures(address::pool_address, (&ctx.stake_mint, program_id), found),
        found matches Some((at, bump)) ==> call_ensures(
            InitializePool::check,
            (ctx, &at, bump),
            checked,
        ),
        call_ensures(InitializePool::validate, (ctx, program_id), result),
    ensures
        result == (if found is Some {
            Some(checked)
        } else {
            None
        }),
{
}

/// Staking is validated by holding the accounts against the address that is
/// found for the stake of the user in the pool.
pub proof fn law_staking_is_held_against_its_address(
    ctx: &Stake,
    program_id: &Pubkey,
    found: Option<(Pubkey, u8)>,
    checked: Result<u8, ConstraintError>,
    result: Option<Result<u8, ConstraintError>>,
)
    requires
        call_ensures(address::user_stake_address, (&ctx.pool.key, &ctx.user, program_id), found),
        found matches Some((at, bump)) ==> call_ensures(Stake::check, (ctx, &at, bump), checked),
        call_ensures(Stake::validate, (ctx, program_id), result),
    ensures
        result == (if found is Some {
            Some(checked)
        } else {
            None
        }),
{
}

/// Claims and unstaking are validated by holding the accounts against the
/// address that the bump of the stake leads to, for the user in the pool.
pub proof fn law_payments_are_held_against_their_address(
    claim: &ClaimRewards,
    claim_derived: Result<Pubkey, ConstraintError>,
    claim_checked: Result<(), ConstraintError>,
    claim_result: Result<(), ConstraintError>,
    unstake: &Unstake,
    unstake_derived: Result<Pubkey, ConstraintError>,
    unstake_checked: Result<(), ConstraintError>,
    unstake_result: Result<(), ConstraintError>,
    program_id: &Pubkey,
)
    requires
        call_ensures(
            address::user_stake_address_with_bump,
            (&claim.pool.key, &claim.user, claim.user_stake.data.bump, program_id),
            claim_derived,
        ),
        call_ensures(ClaimRewards::check, (claim, &claim_derived), claim_checked),
        call_ensures(ClaimRewards::validate, (claim, program_id), claim_result),
        call_ensures(
            address::user_stake_address_with_bump,
            (&unstake.pool.key, &unstake.user, unstake.user_stake.data.bump, program_id),
            unstake_derived,
        ),
        call_ensures(Unstake::check, (unstake, &unstake_derived), unstake_checked),
        call_ensures(Unstake::validate, (unstake, program_id), unstake_result),
    ensures
        claim_result == claim_checked,
        unstake_result == unstake_checked,
{
}

// Addresses

/// The pool's address is derived from the bytes of `pool`, the staked token and
/// the highest bump that gives an address: no other bump above it does, and
/// where none is found none does but perhaps 0.
pub proof fn law_pool_address_is_derived(
    stake_mint: &Pubkey,
    program_id: &Pubkey,
    other: u8,
    found: Option<(Pubkey, u8)>,
)
    requires
        call_ensures(address::pool_address, (stake_mint, program_id), found),
    ensures
        ({
            let tag = seq![0x70u8, 0x6f, 0x6f, 0x6c];
            let other_address = address::program_address(
                seq![tag, stake_mint.bytes@, seq![other]],
                program_id.bytes@,
            );
            match found {
                Some((at, bump)) => {
                    &&& address::program_address(
                        seq![tag, stake_mint.bytes@, seq![bump]],
                        program_id.bytes@,
                    ) == Some(at.bytes@)
                    &&& bump < other ==> other_address is None
                },
                None => 1 <= other ==> other_address is None,
            }
        }),
{
    let tag = seq![0x70u8, 0x6f, 0x6f, 0x6c];
    let seeds = seq![tag, stake_mint.bytes@];
    address::law_found_bump_is_the_highest(seeds, program_id.bytes@);
    assert(seeds.push(seq![other]) =~= seq![tag, stake_mint.bytes@, seq![other]]);
    if let Some((_, bump)) = found {
        assert(seeds.push(seq![bump]) =~= seq![tag, stake_mint.bytes@, seq![bump]]);
    }
}

/// The stake's address is derived from the bytes of `user_stake`, the pool, the
/// user and the highest bump that gives an address: no other bump above it
/// does, and where none is found none does but perhaps 0.
pub proof fn law_stake_address_is_derived(
    pool: &Pubkey,
    user: &Pubkey,
    program_id: &Pubkey,
    other: u8,
    found: Option<(Pubkey, u8)>,
)
    requires
        call_ensures(address::user_stake_address, (pool, user, program_id), found),
    ensures
        ({
            let tag = seq![0x75u8, 0x73, 0x65, 0x72, 0x5f, 0x73, 0x74, 0x61, 0x6b, 0x65];
            let other_address = address::program_address(
                seq![tag, pool.bytes@, user.bytes@, seq![other]],
                program_id.bytes@,
            );
            match found {
                Some((at, bump)) => {
                    &&& address::program_address(
                        seq![tag, pool.bytes@, user.bytes@, seq![bump]],
                        program_id.bytes@,
                    ) == Some(at.bytes@)
                    &&& bump < other ==> other_address is None
                },
                None => 1 <= other ==> other_address is None,
            }
        }),
{
    let tag = seq![0x75u8, 0x73, 0x65, 0x72, 0x5f, 0x73, 0x74, 0x61, 0x6b, 0x65];
    let seeds = seq![tag, pool.bytes@, user.bytes@];
    address::law_found_bump_is_the_highest(seeds, program_id.bytes@);
    assert(seeds.push(seq![other]) =~= seq![tag, pool.bytes@, user.bytes@, seq![other]]);
    if let Some((_, bump)) = found {
        assert(seeds.push(seq![bump]) =~= seq![tag, pool.bytes@, user.bytes@, seq![bump]]);
    }
}

/// Going by a known bump, the stake's address is derived from the same bytes,
/// and refused where they give none.
pub proof fn law_stake_address_is_derived_by_its_bump(
    pool: &Pubkey,
    user: &Pubkey,
    bump: u8,
    program_id: &Pubkey,
    derived: Result<Pubkey, ConstraintError>,
)
    requires
        call_ensures(
            address::user_stake_address_with_bump,
            (pool, user, bump, program_id),
            derived,
        ),
    ensures
        ({
            let tag = seq![0x75u8, 0x73, 0x65, 0x72, 0x5f, 0x73, 0x74, 0x61, 0x6b, 0x65];
            match address::program_address(
                seq![tag, pool.bytes@, user.bytes@, seq![bump]],
                program_id.bytes@,
            ) {
                Some(at) => derived matches Ok(key) && key.bytes@ == at,
                None => derived == Err::<Pubkey, _>(ConstraintError::ConstraintSeeds),
            }
        }),
{
    let tag = seq![0x75u8, 0x73, 0x65, 0x72, 0x5f, 0x73, 0x74, 0x61, 0x6b, 0x65];
    assert(seq![tag, pool.bytes@, user.bytes@].push(seq![bump]) =~= seq![
        tag,
        pool.bytes@,
        user.bytes@,
        seq![bump],
    ]);
}

/// The pool signs with the bytes of `pool`, the staked token and the bump.
pub proof fn law_pool_signs_with_its_seeds(signer: &PoolSigner, seeds: Vec<Vec<u8>>)
    requires
        call_ensures(PoolSigner::seeds, (signer,), seeds),
    ensures
        seeds@.len() == 3,
        seeds@[0]@ == seq![0x70u8, 0x6f, 0x6f, 0x6c],
        seeds@[1]@ == signer.stake_mint.bytes@,
        seeds@[2]@ == seq![signer.bump],
{
    let told = address::pool_signer_seeds(signer.stake_mint, signer.bump);
    assert(seeds.deep_view() == told);
    assert(told.len() == 3);
    assert(seeds.deep_view().len() == seeds@.len());
    assert(seeds.deep_view()[0] == seeds@[0].deep_view());
    assert(seeds.deep_view()[1] == seeds@[1].deep_view());
    assert(seeds.deep_view()[2] == seeds@[2].deep_view());
    assert(seeds@[0]@ =~= seeds@[0].deep_view());
    assert(seeds@[1]@ =~= seeds@[1].deep_view());
    assert(seeds@[2]@ =~= seeds@[2].deep_view());
}

// Data

/// Addresses are the same just when all their bytes are, and their bytes are
/// handed out as they are.
pub proof fn law_addresses_are_their_bytes(
    a: &Pubkey,
    b: &Pubkey,
    same: bool,
    bytes: Vec<u8>,
)
    requires
        call_ensures(Pubkey::eq, (a, b), same),
        call_ensures(Pubkey::to_vec, (a,), bytes),
    ensures
        same <==> (forall|i: int| 0 <= i < 32 ==> a.bytes[i] == b.bytes[i]),
        bytes@.len() == 32,
        forall|i: int| 0 <= i < 32 ==> bytes@[i] == a.bytes[i],
{
    if forall|i: int| 0 <= i < 32 ==> a.bytes[i] == b.bytes[i] {
        assert(a.bytes =~= b.bytes);
    }
}

/// A stake or a pool by default is all zero.
pub proof fn law_defaults_are_zero(key: Pubkey, pool: Pool, user_stake: UserStake)
    requires
        call_ensures(Pubkey::default, (), key),
        call_ensures(Pool::default, (), pool),
        call_ensures(UserStake::default, (), user_stake),
    ensures
        forall|i: int| 0 <= i < 32 ==> key.bytes[i] == 0,
        pool.admin == key,
        pool.stake_mint == key,
        pool.reward_mint == key,
        pool.reward_vault == key,
        pool.reward_rate == 0,
        pool.lock_period == 0,
        pool.total_staked == 0,
        !pool.is_paused,
        pool.bump == 0,
        user_stake.owner == key,
        user_stake.pool == key,
        user_stake.amount == 0,
        user_stake.stake_ts == 0,
        user_stake.last_update_ts == 0,
        user_stake.unlock_ts == 0,
        user_stake.rewards_earned == 0,
        user_stake.bump == 0,
{
    broadcast use crate::key::lemma_same_bytes;

    assert forall|i: int| 0 <= i < 32 implies key.bytes[i] == 0 by {
        assert(key.bytes@[i] == 0);
    }
    assert(pool.admin@ == key@);
    assert(user_stake.owner@ == key@);
    assert(user_stake.pool@ == key@);
}

/// At the start nothing has been heard.
pub proof fn law_nothing_is_heard_at_the_start(progress: Progress)
    requires
        call_ensures(Progress::start, (), progress),
    ensures
        progress.now is None,
        !progress.transferred,
{
}

// Whole instructions

/// Processing a setup is to validate it and then to set up the pool with the
/// bump found.
pub proof fn law_process_initialize_pool(
    ctx: &mut InitializePool,
    inner: &mut InitializePool,
    same: &InitializePool,
    program_id: &Pubkey,
    reward_rate: u64,
    lock_period: i64,
    checked: Option<Result<u8, ConstraintError>>,
    answer: Result<PoolInitialized, StakingError>,
    result: Option<Result<PoolInitialized, Refusal>>,
)
    requires
        *old(ctx) == *same,
        *old(inner) == *same,
        call_ensures(InitializePool::validate, (same, program_id), checked),
        checked matches Some(Ok(bump)) ==> call_ensures(
            instruction::initialize_pool,
            (inner, bump, reward_rate, lock_period),
            answer,
        ),
        call_ensures(
            process::process_initialize_pool,
            (ctx, program_id, reward_rate, lock_period),
            result,
        ),
    ensures
        match checked {
            Some(Ok(_)) => {
                &&& *final(ctx) == *final(inner)
                &&& answer matches Ok(event)
                &&& result == Some(Ok::<_, Refusal>(event))
            },
            Some(Err(error)) => {
                &&& *final(ctx) == *old(ctx)
                &&& result == Some(Err::<PoolInitialized, _>(Refusal::Accounts(error)))
            },
            None => {
                &&& *final(ctx) == *old(ctx)
                &&& result is None
            },
        },
{
}

/// Processing a funding is to validate the accounts and then to take the step.
pub proof fn law_process_fund_rewards(
    ctx: &FundRewards,
    amount: u64,
    progress: Progress,
    checked: Result<(), ConstraintError>,
    answer: Result<Next<RewardsFunded>, StakingError>,
    result: Result<Next<RewardsFunded>, Refusal>,
)
    requires
        call_ensures(FundRewards::validate, (ctx,), checked),
        call_ensures(instruction::fund_rewards, (ctx, amount, progress), answer),
        call_ensures(process::process_fund_rewards, (ctx, amount, progress), result),
    ensures
        checked matches Err(error) ==> result == Err::<Next<RewardsFunded>, _>(
            Refusal::Accounts(error),
        ),
        checked is Ok ==> {
            &&& answer matches Ok(next) ==> result == Ok::<_, Refusal>(next)
            &&& answer matches Err(error) ==> result == Err::<Next<RewardsFunded>, _>(
                Refusal::Rule(error),
            )
        },
{
}

/// Processing a staking is to validate the accounts and then to take the step
/// with the bump found, if the times are in range.
pub proof fn law_process_stake(
    ctx: &mut Stake,
    inner: &mut Stake,
    same: &Stake,
    program_id: &Pubkey,
    amount: u64,
    progress: Progress,
    checked: Option<Result<u8, ConstraintError>>,
    fit: bool,
    answer: Result<Next<Staked>, StakingError>,
    result: Option<Result<Next<Staked>, Refusal>>,
)
    requires
        *old(ctx) == *same,
        *old(inner) == *same,
        call_ensures(Stake::validate, (same, program_id), checked),
        call_ensures(Stake::times_are_in_range, (same, amount, progress), fit),
        checked matches Some(Ok(bump)) ==> call_ensures(
            instruction::stake,
            (inner, bump, amount, progress),
            answer,
        ),
        call_ensures(process::process_stake, (ctx, program_id, amount, progress), result),
    ensures
        match checked {
            Some(Ok(_)) => if fit {
                &&& *final(ctx) == *final(inner)
                &&& answer matches Ok(next) ==> result == Some(Ok::<_, Refusal>(next))
                &&& answer matches Err(error) ==> result == Some(
                    Err::<Next<Staked>, _>(Refusal::Rule(error)),
                )
            } else {
                &&& *final(ctx) == *old(ctx)
                &&& result is None
            },
            Some(Err(error)) => {
                &&& *final(ctx) == *old(ctx)
                &&& result == Some(Err::<Next<Staked>, _>(Refusal::Accounts(error)))
            },
            None => {
                &&& result is None
                &&& *final(ctx) == *old(ctx)
            },
        },
{
}

/// Processing a claim is to validate the accounts and then to take the step, if
/// the times are in range.
pub proof fn law_process_claim_rewards(
    ctx: &mut ClaimRewards,
    inner: &mut ClaimRewards,
    same: &ClaimRewards,
    program_id: &Pubkey,
    progress: Progress,
    checked: Result<(), ConstraintError>,
    fit: bool,
    answer: Result<Next<RewardsClaimed>, StakingError>,
    result: Option<Result<Next<RewardsClaimed>, Refusal>>,
)
    requires
        *old(ctx) == *same,
        *old(inner) == *same,
        call_ensures(ClaimRewards::validate, (same, program_id), checked),
        call_ensures(ClaimRewards::times_are_in_range, (same, progress), fit),
        call_ensures(instruction::claim_rewards, (inner, progress), answer),
        call_ensures(process::process_claim_rewards, (ctx, program_id, progress), result),
    ensures
        match checked {
            Ok(()) => if fit {
                &&& *final(ctx) == *final(inner)
                &&& answer matches Ok(next) ==> result == Some(Ok::<_, Refusal>(next))
                &&& answer matches Err(error) ==> result == Some(
                    Err::<Next<RewardsClaimed>, _>(Refusal::Rule(error)),
                )
            } else {
                &&& *final(ctx) == *old(ctx)
                &&& result is None
            },
            Err(error) => {
                &&& *final(ctx) == *old(ctx)
                &&& result == Some(Err::<Next<RewardsClaimed>, _>(Refusal::Accounts(error)))
            },
        },
{
}

/// Processing an unstaking is to validate the accounts and then to take the
/// step, if the times are in range.
pub proof fn law_process_unstake(
    ctx: &mut Unstake,
    inner: &mut Unstake,
    same: &Unstake,
    program_id: &Pubkey,
    amount: u64,
    progress: Progress,
    checked: Result<(), ConstraintError>,
    fit: bool,
    answer: Result<Next<Unstaked>, StakingError>,
    result: Option<Result<Next<Unstaked>, Refusal>>,
)
    requires
        *old(ctx) == *same,
        *old(inner) == *same,
        call_ensures(Unstake::validate, (same, program_id), checked),
        call_ensures(Unstake::times_are_in_range, (same, amount, progress), fit),
        call_ensures(instruction::unstake, (inner, amount, progress), answer),
        call_ensures(process::process_unstake, (ctx, program_id, amount, progress), result),
    ensures
        match checked {
            Ok(()) => if fit {
                &&& *final(ctx) == *final(inner)
                &&& answer matches Ok(next) ==> result == Some(Ok::<_, Refusal>(next))
                &&& answer matches Err(error) ==> result == Some(
                    Err::<Next<Unstaked>, _>(Refusal::Rule(error)),
                )
            } else {
                &&& *final(ctx) == *old(ctx)
                &&& result is None
            },
            Err(error) => {
                &&& *final(ctx) == *old(ctx)
                &&& result == Some(Err::<Next<Unstaked>, _>(Refusal::Accounts(error)))
            },
        },
{
}

/// Whole instructions, setting up, funding and the admin's instructions can be
/// asked for with any accounts and arguments.
pub proof fn law_any_request_is_answered(
    setup: &mut InitializePool,
    fund: &FundRewards,
    stake: &mut Stake,
    claim: &mut ClaimRewards,
    unstake: &mut Unstake,
    settings: &mut AdminOnly,
    handover: &mut TransferAdmin,
    program_id: &Pubkey,
    bump: u8,
    number: u64,
    seconds: i64,
    paused: bool,
    new_admin: Pubkey,
    progress: Progress,
)
    ensures
        call_requires(instruction::initialize_pool, (setup, bump, number, seconds)),
        call_requires(instruction::fund_rewards, (fund, number, progress)),
        call_requires(instruction::set_paused, (settings, paused)),
        call_requires(instruction::set_reward_rate, (settings, number)),
        call_requires(instruction::set_lock_period, (settings, seconds)),
        call_requires(instruction::transfer_admin, (handover, new_admin)),
        call_requires(
            process::process_initialize_pool,
            (setup, program_id, number, seconds),
        ),
        call_requires(process::process_fund_rewards, (fund, number, progress)),
        call_requires(process::process_stake, (stake, program_id, number, progress)),
        call_requires(process::process_claim_rewards, (claim, program_id, progress)),
        call_requires(process::process_unstake, (unstake, program_id, number, progress)),
{
}

/// Every error has its message.
pub proof fn law_every_error_has_its_message(error: &StakingError, message: &'static str)
    requires
        call_ensures(StakingError::message, (error,), message),
    ensures
        match *error {
            StakingError::PoolPaused => message@ == "Pool is currently paused"@,
            StakingError::ZeroAmount => message@ == "Amount must be greater than zero"@,
            StakingError::MathOverflow => message@ == "Math overflow"@,
            StakingError::NoRewards => message@ == "No rewards to claim"@,
            StakingError::InsufficientRewards => message@ == "Insufficient rewards in vault"@,
            StakingError::InsufficientStake => message@ == "Insufficient staked amount"@,
            StakingError::StillLocked => message@ == "Tokens are still within the lock period"@,
            StakingError::Unauthorized => message@ == "Unauthorized: caller is not admin"@,
            StakingError::InvalidLockPeriod => message@ == "Lock period cannot be negative"@,
        },
{
}

} // verus!
