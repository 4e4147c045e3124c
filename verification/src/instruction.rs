//! The instructions of the pool.
//!
//! An instruction that reads the clock or moves tokens is asked again after
//! each reply, with the same accounts, until it is done or refused. It touches
//! the accounts only when it is done.

use crate::accounts::{
    AdminOnly, ClaimRewards, FundRewards, InitializePool, Stake, TransferAdmin, Unstake,
};
use crate::error::StakingError;
use crate::event::{
    AdminTransferred, LockPeriodUpdated, PauseToggled, PoolInitialized, RewardRateUpdated,
    RewardsClaimed, RewardsFunded, Staked, Unstaked,
};
use crate::key::Pubkey;
use crate::progress::{Next, PoolSigner, Progress, TokenTransfer};
use crate::rewards;
use crate::state::{Account, Pool, UserStake};
use vstd::prelude::*;

verus! {

// Setting up

/// The pool as it is set up: open, with nothing staked.
pub open spec fn new_pool(ctx: InitializePool, bump: u8, reward_rate: u64, lock_period: i64) -> Pool {
    Pool {
        admin: ctx.admin,
        stake_mint: ctx.stake_mint,
        reward_mint: ctx.reward_mint,
        reward_vault: ctx.reward_vault.key,
        reward_rate,
        lock_period,
        total_staked: 0,
        is_paused: false,
        bump,
    }
}

/// Initialize the global staking pool. `reward_rate` is in tokens per second
/// per staked token, scaled by 1e9; `lock_period` is how many seconds users
/// wait before unstaking, 0 for no lock; `bump` belongs to the pool's address.
pub fn initialize_pool(
    ctx: &mut InitializePool,
    bump: u8,
    reward_rate: u64,
    lock_period: i64,
) -> (result: Result<PoolInitialized, StakingError>)
    ensures
        result == Ok::<PoolInitialized, StakingError>(
            (PoolInitialized {
                admin: old(ctx).admin,
                stake_mint: old(ctx).stake_mint,
                reward_rate,
                lock_period,
            }),
        ),
        *final(ctx) == (InitializePool {
            pool: Account {
                key: old(ctx).pool.key,
                data: new_pool(*old(ctx), bump, reward_rate, lock_period),
            },
            ..*old(ctx)
        }),
{
    ctx.pool.data = Pool {
        admin: ctx.admin,
        stake_mint: ctx.stake_mint,
        reward_mint: ctx.reward_mint,
        reward_vault: ctx.reward_vault.key,
        reward_rate,
        lock_period,
        total_staked: 0,
        is_paused: false,
        bump,
    };
    Ok(
        PoolInitialized {
            admin: ctx.pool.data.admin,
            stake_mint: ctx.pool.data.stake_mint,
            reward_rate,
            lock_period,
        },
    )
}

// Funding

/// Why funding is refused: a paused pool takes nothing, and nothing cannot be
/// given.
pub open spec fn fund_refusal(pool: Pool, amount: u64) -> Option<StakingError> {
    if pool.is_paused {
        Some(StakingError::PoolPaused)
    } else if amount == 0 {
        Some(StakingError::ZeroAmount)
    } else {
        None
    }
}

/// The funder pays the reward vault.
pub open spec fn fund_transfer(ctx: FundRewards, amount: u64) -> TokenTransfer {
    TokenTransfer {
        from: ctx.funder_reward_account.key,
        to: ctx.reward_vault.key,
        authority: ctx.funder,
        amount,
        signer: None,
    }
}

/// What funding is answered.
pub open spec fn fund_answer(ctx: FundRewards, amount: u64, progress: Progress) -> Result<
    Next<RewardsFunded>,
    StakingError,
> {
    match fund_refusal(ctx.pool.data, amount) {
        Some(error) => Err(error),
        None => if progress.transferred {
            Ok(Next::Done(RewardsFunded { funder: ctx.funder, amount }))
        } else {
            Ok(Next::Transfer(fund_transfer(ctx, amount)))
        },
    }
}

/// Fund the reward vault so rewards can be paid out.
pub fn fund_rewards(ctx: &FundRewards, amount: u64, progress: Progress) -> (result: Result<
    Next<RewardsFunded>,
    StakingError,
>)
    ensures
        result == fund_answer(*ctx, amount, progress),
{
    if ctx.pool.data.is_paused {
        return Err(StakingError::PoolPaused);
    }
    if amount == 0 {
        return Err(StakingError::ZeroAmount);
    }
    if !progress.transferred {
        return Ok(
            Next::Transfer(
                TokenTransfer {
                    from: ctx.funder_reward_account.key,
                    to: ctx.reward_vault.key,
                    authority: ctx.funder,
                    amount,
                    signer: None,
                },
            ),
        );
    }
    Ok(Next::Done(RewardsFunded { funder: ctx.funder, amount }))
}

// Staking

/// Why staking is refused. Rewards are settled as soon as the time is known;
/// the stake and the pool's total grow once the tokens have arrived.
pub open spec fn stake_refusal(
    pool: Pool,
    user_stake: UserStake,
    amount: u64,
    progress: Progress,
) -> Option<StakingError> {
    if pool.is_paused {
        Some(StakingError::PoolPaused)
    } else if amount == 0 {
        Some(StakingError::ZeroAmount)
    } else if progress.now matches Some(now) && rewards::claimable(
        user_stake,
        pool.reward_rate,
        now,
    ) > u64::MAX {
        Some(StakingError::MathOverflow)
    } else if progress.now is Some && progress.transferred && (user_stake.amount + amount
        > u64::MAX || pool.total_staked + amount > u64::MAX) {
        Some(StakingError::MathOverflow)
    } else {
        None
    }
}

/// The user pays the stake vault.
pub open spec fn stake_transfer(ctx: Stake, amount: u64) -> TokenTransfer {
    TokenTransfer {
        from: ctx.user_token_account.key,
        to: ctx.stake_vault.key,
        authority: ctx.user,
        amount,
        signer: None,
    }
}

/// The user's stake once `amount` more is staked at `now`: rewards so far are
/// kept, the lock starts anew, and the time of the first stake stays.
pub open spec fn stake_after_staking(
    pool: Account<Pool>,
    user_stake: UserStake,
    user: Pubkey,
    bump: u8,
    amount: u64,
    now: i64,
) -> UserStake {
    UserStake {
        owner: user,
        pool: pool.key,
        amount: (user_stake.amount + amount) as u64,
        stake_ts: if user_stake.stake_ts == 0 {
            now
        } else {
            user_stake.stake_ts
        },
        last_update_ts: now,
        unlock_ts: (now + pool.data.lock_period) as i64,
        rewards_earned: rewards::claimable(user_stake, pool.data.reward_rate, now) as u64,
        bump,
    }
}

/// The pool once `amount` more is staked.
pub open spec fn pool_after_staking(pool: Pool, amount: u64) -> Pool {
    Pool { total_staked: (pool.total_staked + amount) as u64, ..pool }
}

/// The timestamps that staking comes to compute fit in an `i64`: the time since
/// the last settlement, and the time of unlocking.
pub open spec fn stake_times_fit(
    pool: Pool,
    user_stake: UserStake,
    amount: u64,
    progress: Progress,
) -> bool {
    match progress.now {
        Some(now) => !pool.is_paused && amount > 0 ==> {
            &&& user_stake.amount > 0 ==> rewards::elapsed_fits(user_stake.last_update_ts, now)
            &&& progress.transferred && rewards::claimable(user_stake, pool.reward_rate, now)
                <= u64::MAX && user_stake.amount + amount <= u64::MAX ==> i64::MIN <= now
                + pool.lock_period <= i64::MAX
        },
        None => true,
    }
}

impl Stake {
    /// Whether the timestamps that staking comes to compute fit in an `i64`.
    pub fn times_are_in_range(&self, amount: u64, progress: Progress) -> (fit: bool)
        ensures
            fit == stake_times_fit(self.pool.data, self.user_stake.data, amount, progress),
    {
        if self.pool.data.is_paused || amount == 0 {
            return true;
        }
        let now: i64 = match progress.now {
            Some(now) => now,
            None => {
                return true;
            },
        };
        let rewards: Option<u64> = if self.user_stake.data.amount > 0 {
            if !rewards::elapsed_is_in_range(self.user_stake.data.last_update_ts, now) {
                return false;
            }
            rewards::claimable_rewards(&self.user_stake.data, self.pool.data.reward_rate, now)
        } else {
            proof {
                rewards::law_empty_stake_earns_nothing(
                    self.user_stake.data.last_update_ts,
                    now,
                    self.pool.data.reward_rate,
                );
            }
            Some(self.user_stake.data.rewards_earned)
        };
        !progress.transferred || rewards.is_none() || self.user_stake.data.amount.checked_add(
            amount,
        ).is_none() || now.checked_add(self.pool.data.lock_period).is_some()
    }
}

/// What staking is answered.
pub open spec fn stake_answer(ctx: Stake, amount: u64, progress: Progress) -> Result<
    Next<Staked>,
    StakingError,
> {
    match stake_refusal(ctx.pool.data, ctx.user_stake.data, amount, progress) {
        Some(error) => Err(error),
        None => if progress.now is None {
            Ok(Next::ReadClock)
        } else if !progress.transferred {
            Ok(Next::Transfer(stake_transfer(ctx, amount)))
        } else {
            Ok(
                Next::Done(
                    Staked {
                        user: ctx.user,
                        amount,
                        total_staked: (ctx.user_stake.data.amount + amount) as u64,
                    },
                ),
            )
        },
    }
}

/// The accounts after staking was asked for: the pool and the stake change once
/// it is done, and not before.
pub open spec fn stake_effect(ctx: Stake, bump: u8, amount: u64, progress: Progress) -> Stake {
    if stake_answer(ctx, amount, progress) matches Ok(Next::Done(_)) {
        Stake {
            pool: Account {
                key: ctx.pool.key,
                data: pool_after_staking(ctx.pool.data, amount),
            },
            user_stake: Account {
                key: ctx.user_stake.key,
                data: stake_after_staking(
                    ctx.pool,
                    ctx.user_stake.data,
                    ctx.user,
                    bump,
                    amount,
                    progress.now->0,
                ),
            },
            ..ctx
        }
    } else {
        ctx
    }
}

/// Stake tokens into the pool. `bump` belongs to the address of the user's
/// stake.
///
/// The times that this comes to compute have to fit in an `i64`.
pub fn stake(ctx: &mut Stake, bump: u8, amount: u64, progress: Progress) -> (result: Result<
    Next<Staked>,
    StakingError,
>)
    requires
        stake_times_fit(old(ctx).pool.data, old(ctx).user_stake.data, amount, progress),
    ensures
        result == stake_answer(*old(ctx), amount, progress),
        *final(ctx) == stake_effect(*old(ctx), bump, amount, progress),
{
    if ctx.pool.data.is_paused {
        return Err(StakingError::PoolPaused);
    }
    if amount == 0 {
        return Err(StakingError::ZeroAmount);
    }
    let now: i64 = match progress.now {
        Some(now) => now,
        None => {
            return Ok(Next::ReadClock);
        },
    };

    // Settle any existing pending rewards before modifying the stake
    let rewards_earned: u64 = if ctx.user_stake.data.amount > 0 {
        match rewards::claimable_rewards(&ctx.user_stake.data, ctx.pool.data.reward_rate, now) {
            Some(rewards) => rewards,
            None => {
                return Err(StakingError::MathOverflow);
            },
        }
    } else {
        proof {
            rewards::law_empty_stake_earns_nothing(
                ctx.user_stake.data.last_update_ts,
                now,
                ctx.pool.data.reward_rate,
            );
        }
        ctx.user_stake.data.rewards_earned
    };

    // Transfer stake tokens from user to pool vault
    if !progress.transferred {
        return Ok(
            Next::Transfer(
                TokenTransfer {
                    from: ctx.user_token_account.key,
                    to: ctx.stake_vault.key,
                    authority: ctx.user,
                    amount,
                    signer: None,
                },
            ),
        );
    }

    let staked: u64 = match ctx.user_stake.data.amount.checked_add(amount) {
        Some(staked) => staked,
        None => {
            return Err(StakingError::MathOverflow);
        },
    };
    let unlock_ts: i64 = now + ctx.pool.data.lock_period;
    let total_staked: u64 = match ctx.pool.data.total_staked.checked_add(amount) {
        Some(total_staked) => total_staked,
        None => {
            return Err(StakingError::MathOverflow);
        },
    };

    // Update user stake record
    ctx.user_stake.data = UserStake {
        owner: ctx.user,
        pool: ctx.pool.key,
        amount: staked,
        stake_ts: if ctx.user_stake.data.stake_ts == 0 {
            now
        } else {
            ctx.user_stake.data.stake_ts
        },
        last_update_ts: now,
        unlock_ts,
        rewards_earned,
        bump,
    };

    // Update pool total
    ctx.pool.data.total_staked = total_staked;

    Ok(Next::Done(Staked { user: ctx.user, amount, total_staked: staked }))
}

// Claiming

/// Why a claim is refused: there has to be something to claim, and the vault
/// has to hold it.
pub open spec fn claim_refusal(
    pool: Pool,
    user_stake: UserStake,
    vault_amount: u64,
    progress: Progress,
) -> Option<StakingError> {
    if pool.is_paused {
        Some(StakingError::PoolPaused)
    } else {
        match progress.now {
            Some(now) => {
                let rewards = rewards::claimable(user_stake, pool.reward_rate, now);
                if rewards > u64::MAX {
                    Some(StakingError::MathOverflow)
                } else if rewards == 0 {
                    Some(StakingError::NoRewards)
                } else if vault_amount < rewards {
                    Some(StakingError::InsufficientRewards)
                } else {
                    None
                }
            },
            None => None,
        }
    }
}

/// The pool pays all that the user could claim at `now` out of the reward
/// vault.
pub open spec fn claim_transfer(ctx: ClaimRewards, now: i64) -> TokenTransfer {
    TokenTransfer {
        from: ctx.reward_vault.key,
        to: ctx.user_reward_account.key,
        authority: ctx.pool.key,
        amount: rewards::claimable(ctx.user_stake.data, ctx.pool.data.reward_rate, now) as u64,
        signer: Some(
            PoolSigner { stake_mint: ctx.pool.data.stake_mint, bump: ctx.pool.data.bump },
        ),
    }
}

/// The user's stake once all rewards are paid out at `now`.
pub open spec fn stake_after_claim(user_stake: UserStake, now: i64) -> UserStake {
    UserStake { rewards_earned: 0, last_update_ts: now, ..user_stake }
}

/// The time since the last settlement fits in an `i64`, if a claim comes to
/// compute it.
pub open spec fn claim_times_fit(pool: Pool, user_stake: UserStake, progress: Progress) -> bool {
    match progress.now {
        Some(now) => !pool.is_paused ==> rewards::elapsed_fits(user_stake.last_update_ts, now),
        None => true,
    }
}

impl ClaimRewards {
    /// Whether the time since the last settlement fits in an `i64`, if it
    /// comes to be computed.
    pub fn times_are_in_range(&self, progress: Progress) -> (fit: bool)
        ensures
            fit == claim_times_fit(self.pool.data, self.user_stake.data, progress),
    {
        match progress.now {
            Some(now) => self.pool.data.is_paused || rewards::elapsed_is_in_range(
                self.user_stake.data.last_update_ts,
                now,
            ),
            None => true,
        }
    }
}

/// What a claim is answered.
pub open spec fn claim_answer(ctx: ClaimRewards, progress: Progress) -> Result<
    Next<RewardsClaimed>,
    StakingError,
> {
    match claim_refusal(
        ctx.pool.data,
        ctx.user_stake.data,
        ctx.reward_vault.data.amount,
        progress,
    ) {
        Some(error) => Err(error),
        None => if progress.now is None {
            Ok(Next::ReadClock)
        } else if !progress.transferred {
            Ok(Next::Transfer(claim_transfer(ctx, progress.now->0)))
        } else {
            Ok(
                Next::Done(
                    RewardsClaimed {
                        user: ctx.user,
                        amount: rewards::claimable(
                            ctx.user_stake.data,
                            ctx.pool.data.reward_rate,
                            progress.now->0,
                        ) as u64,
                    },
                ),
            )
        },
    }
}

/// The accounts after a claim was made: the stake changes once it is done, and
/// not before.
pub open spec fn claim_effect(ctx: ClaimRewards, progress: Progress) -> ClaimRewards {
    if claim_answer(ctx, progress) matches Ok(Next::Done(_)) {
        ClaimRewards {
            user_stake: Account {
                key: ctx.user_stake.key,
                data: stake_after_claim(ctx.user_stake.data, progress.now->0),
            },
            ..ctx
        }
    } else {
        ctx
    }
}

/// Claim accumulated reward tokens.
///
/// The time since the last settlement has to fit in an `i64`.
pub fn claim_rewards(ctx: &mut ClaimRewards, progress: Progress) -> (result: Result<
    Next<RewardsClaimed>,
    StakingError,
>)
    requires
        claim_times_fit(old(ctx).pool.data, old(ctx).user_stake.data, progress),
    ensures
        result == claim_answer(*old(ctx), progress),
        *final(ctx) == claim_effect(*old(ctx), progress),
{
    if ctx.pool.data.is_paused {
        return Err(StakingError::PoolPaused);
    }
    let now: i64 = match progress.now {
        Some(now) => now,
        None => {
            return Ok(Next::ReadClock);
        },
    };

    // Calculate new rewards since last update
    let total_claimable: u64 = match rewards::claimable_rewards(
        &ctx.user_stake.data,
        ctx.pool.data.reward_rate,
        now,
    ) {
        Some(rewards) => rewards,
        None => {
            return Err(StakingError::MathOverflow);
        },
    };
    if total_claimable == 0 {
        return Err(StakingError::NoRewards);
    }
    if ctx.reward_vault.data.amount < total_claimable {
        return Err(StakingError::InsufficientRewards);
    }

    // Transfer rewards from vault to user, signed by the pool
    if !progress.transferred {
        return Ok(
            Next::Transfer(
                TokenTransfer {
                    from: ctx.reward_vault.key,
                    to: ctx.user_reward_account.key,
                    authority: ctx.pool.key,
                    amount: total_claimable,
                    signer: Some(
                        PoolSigner {
                            stake_mint: ctx.pool.data.stake_mint,
                            bump: ctx.pool.data.bump,
                        },
                    ),
                },
            ),
        );
    }

    // Reset reward tracking
    ctx.user_stake.data.rewards_earned = 0;
    ctx.user_stake.data.last_update_ts = now;

    Ok(Next::Done(RewardsClaimed { user: ctx.user, amount: total_claimable }))
}

// Unstaking

/// The lock of the stake still holds at `now`.
pub open spec fn is_locked(pool: Pool, user_stake: UserStake, now: i64) -> bool {
    pool.lock_period > 0 && now < user_stake.unlock_ts
}

/// Why unstaking is refused.
pub open spec fn unstake_refusal(
    pool: Pool,
    user_stake: UserStake,
    amount: u64,
    progress: Progress,
) -> Option<StakingError> {
    if pool.is_paused {
        Some(StakingError::PoolPaused)
    } else if amount == 0 {
        Some(StakingError::ZeroAmount)
    } else {
        match progress.now {
            Some(now) => if user_stake.amount < amount {
                Some(StakingError::InsufficientStake)
            } else if is_locked(pool, user_stake, now) {
                Some(StakingError::StillLocked)
            } else if rewards::claimable(user_stake, pool.reward_rate, now) > u64::MAX
                || pool.total_staked < amount {
                Some(StakingError::MathOverflow)
            } else {
                None
            },
            None => None,
        }
    }
}

/// The pool pays the stake back out of the stake vault.
pub open spec fn unstake_transfer(ctx: Unstake, amount: u64) -> TokenTransfer {
    TokenTransfer {
        from: ctx.stake_vault.key,
        to: ctx.user_token_account.key,
        authority: ctx.pool.key,
        amount,
        signer: Some(
            PoolSigner { stake_mint: ctx.pool.data.stake_mint, bump: ctx.pool.data.bump },
        ),
    }
}

/// The user's stake once `amount` of it is taken out at `now`: rewards so far
/// are kept.
pub open spec fn stake_after_unstaking(
    pool: Pool,
    user_stake: UserStake,
    amount: u64,
    now: i64,
) -> UserStake {
    UserStake {
        amount: (user_stake.amount - amount) as u64,
        last_update_ts: now,
        rewards_earned: rewards::claimable(user_stake, pool.reward_rate, now) as u64,
        ..user_stake
    }
}

/// The pool once `amount` less is staked.
pub open spec fn pool_after_unstaking(pool: Pool, amount: u64) -> Pool {
    Pool { total_staked: (pool.total_staked - amount) as u64, ..pool }
}

/// The time since the last settlement fits in an `i64`, if unstaking comes to
/// compute it.
pub open spec fn unstake_times_fit(
    pool: Pool,
    user_stake: UserStake,
    amount: u64,
    progress: Progress,
) -> bool {
    match progress.now {
        Some(now) => !pool.is_paused && 0 < amount <= user_stake.amount && !is_locked(
            pool,
            user_stake,
            now,
        ) ==> rewards::elapsed_fits(user_stake.last_update_ts, now),
        None => true,
    }
}

impl Unstake {
    /// Whether the time since the last settlement fits in an `i64`, if it
    /// comes to be computed.
    pub fn times_are_in_range(&self, amount: u64, progress: Progress) -> (fit: bool)
        ensures
            fit == unstake_times_fit(self.pool.data, self.user_stake.data, amount, progress),
    {
        match progress.now {
            Some(now) => self.pool.data.is_paused || amount == 0 || self.user_stake.data.amount
                < amount || (self.pool.data.lock_period > 0 && now < self.user_stake.data.unlock_ts)
                || rewards::elapsed_is_in_range(self.user_stake.data.last_update_ts, now),
            None => true,
        }
    }
}

/// What unstaking is answered.
pub open spec fn unstake_answer(ctx: Unstake, amount: u64, progress: Progress) -> Result<
    Next<Unstaked>,
    StakingError,
> {
    match unstake_refusal(ctx.pool.data, ctx.user_stake.data, amount, progress) {
        Some(error) => Err(error),
        None => if progress.now is None {
            Ok(Next::ReadClock)
        } else if !progress.transferred {
            Ok(Next::Transfer(unstake_transfer(ctx, amount)))
        } else {
            Ok(
                Next::Done(
                    Unstaked {
                        user: ctx.user,
                        amount,
                        remaining: (ctx.user_stake.data.amount - amount) as u64,
                    },
                ),
            )
        },
    }
}

/// The accounts after unstaking was asked for: the pool and the stake change
/// once it is done, and not before.
pub open spec fn unstake_effect(ctx: Unstake, amount: u64, progress: Progress) -> Unstake {
    if unstake_answer(ctx, amount, progress) matches Ok(Next::Done(_)) {
        Unstake {
            pool: Account {
                key: ctx.pool.key,
                data: pool_after_unstaking(ctx.pool.data, amount),
            },
            user_stake: Account {
                key: ctx.user_stake.key,
                data: stake_after_unstaking(
                    ctx.pool.data,
                    ctx.user_stake.data,
                    amount,
                    progress.now->0,
                ),
            },
            ..ctx
        }
    } else {
        ctx
    }
}

/// Unstake tokens, respecting the lock period.
///
/// The time since the last settlement has to fit in an `i64`.
pub fn unstake(ctx: &mut Unstake, amount: u64, progress: Progress) -> (result: Result<
    Next<Unstaked>,
    StakingError,
>)
    requires
        unstake_times_fit(old(ctx).pool.data, old(ctx).user_stake.data, amount, progress),
    ensures
        result == unstake_answer(*old(ctx), amount, progress),
        *final(ctx) == unstake_effect(*old(ctx), amount, progress),
{
    if ctx.pool.data.is_paused {
        return Err(StakingError::PoolPaused);
    }
    if amount == 0 {
        return Err(StakingError::ZeroAmount);
    }
    let now: i64 = match progress.now {
        Some(now) => now,
        None => {
            return Ok(Next::ReadClock);
        },
    };

    if ctx.user_stake.data.amount < amount {
        return Err(StakingError::InsufficientStake);
    }
    // Enforce lock period
    if ctx.pool.data.lock_period > 0 && now < ctx.user_stake.data.unlock_ts {
        return Err(StakingError::StillLocked);
    }
    // Settle pending rewards before reducing stake

    let rewards_earned: u64 = match rewards::claimable_rewards(
        &ctx.user_stake.data,
        ctx.pool.data.reward_rate,
        now,
    ) {
        Some(rewards) => rewards,
        None => {
            return Err(StakingError::MathOverflow);
        },
    };
    let remaining: u64 = ctx.user_stake.data.amount - amount;
    let total_staked: u64 = match ctx.pool.data.total_staked.checked_sub(amount) {
        Some(total_staked) => total_staked,
        None => {
            return Err(StakingError::MathOverflow);
        },
    };

    // Transfer tokens from stake vault to user, signed by the pool
    if !progress.transferred {
        return Ok(
            Next::Transfer(
                TokenTransfer {
                    from: ctx.stake_vault.key,
                    to: ctx.user_token_account.key,
                    authority: ctx.pool.key,
                    amount,
                    signer: Some(
                        PoolSigner {
                            stake_mint: ctx.pool.data.stake_mint,
                            bump: ctx.pool.data.bump,
                        },
                    ),
                },
            ),
        );
    }

    ctx.user_stake.data.rewards_earned = rewards_earned;
    ctx.user_stake.data.last_update_ts = now;
    ctx.user_stake.data.amount = remaining;
    ctx.pool.data.total_staked = total_staked;

    Ok(Next::Done(Unstaked { user: ctx.user, amount, remaining }))
}

// Administration

/// The pool, paused or not.
pub open spec fn pool_with_pause(pool: Pool, paused: bool) -> Pool {
    Pool { is_paused: paused, ..pool }
}

/// The pool with another reward rate.
pub open spec fn pool_with_reward_rate(pool: Pool, new_rate: u64) -> Pool {
    Pool { reward_rate: new_rate, ..pool }
}

/// The pool with another lock period.
pub open spec fn pool_with_lock_period(pool: Pool, new_lock_period: i64) -> Pool {
    Pool { lock_period: new_lock_period, ..pool }
}

/// The pool with another admin.
pub open spec fn pool_with_admin(pool: Pool, new_admin: Pubkey) -> Pool {
    Pool { admin: new_admin, ..pool }
}

/// Pause or unpause the pool.
pub fn set_paused(ctx: &mut AdminOnly, paused: bool) -> (result: Result<PauseToggled, StakingError>)
    ensures
        if old(ctx).admin == old(ctx).pool.data.admin {
            &&& result == Ok::<_, StakingError>(PauseToggled { paused })
            &&& *final(ctx) == (AdminOnly {
                pool: Account {
                    key: old(ctx).pool.key,
                    data: pool_with_pause(old(ctx).pool.data, paused),
                },
                ..*old(ctx)
            })
        } else {
            &&& result == Err::<PauseToggled, _>(StakingError::Unauthorized)
            &&& *final(ctx) == *old(ctx)
        },
{
    match ctx.validate() {
        Ok(()) => {},
        Err(error) => {
            return Err(error);
        },
    }
    ctx.pool.data.is_paused = paused;
    Ok(PauseToggled { paused })
}

/// Update the reward rate (tokens per second per staked token, scaled 1e9).
pub fn set_reward_rate(ctx: &mut AdminOnly, new_rate: u64) -> (result: Result<
    RewardRateUpdated,
    StakingError,
>)
    ensures
        if old(ctx).admin == old(ctx).pool.data.admin {
            &&& result == Ok::<_, StakingError>(RewardRateUpdated { new_rate })
            &&& *final(ctx) == (AdminOnly {
                pool: Account {
                    key: old(ctx).pool.key,
                    data: pool_with_reward_rate(old(ctx).pool.data, new_rate),
                },
                ..*old(ctx)
            })
        } else {
            &&& result == Err::<RewardRateUpdated, _>(StakingError::Unauthorized)
            &&& *final(ctx) == *old(ctx)
        },
{
    match ctx.validate() {
        Ok(()) => {},
        Err(error) => {
            return Err(error);
        },
    }
    ctx.pool.data.reward_rate = new_rate;
    Ok(RewardRateUpdated { new_rate })
}

/// Update the lock period in seconds.
pub fn set_lock_period(ctx: &mut AdminOnly, new_lock_period: i64) -> (result: Result<
    LockPeriodUpdated,
    StakingError,
>)
    ensures
        if old(ctx).admin != old(ctx).pool.data.admin {
            &&& result == Err::<LockPeriodUpdated, _>(StakingError::Unauthorized)
            &&& *final(ctx) == *old(ctx)
        } else if new_lock_period < 0 {
            &&& result == Err::<LockPeriodUpdated, _>(StakingError::InvalidLockPeriod)
            &&& *final(ctx) == *old(ctx)
        } else {
            &&& result == Ok::<_, StakingError>(LockPeriodUpdated { new_lock_period })
            &&& *final(ctx) == (AdminOnly {
                pool: Account {
                    key: old(ctx).pool.key,
                    data: pool_with_lock_period(old(ctx).pool.data, new_lock_period),
                },
                ..*old(ctx)
            })
        },
{
    match ctx.validate() {
        Ok(()) => {},
        Err(error) => {
            return Err(error);
        },
    }
    if new_lock_period < 0 {
        return Err(StakingError::InvalidLockPeriod);
    }
    ctx.pool.data.lock_period = new_lock_period;
    Ok(LockPeriodUpdated { new_lock_period })
}

/// Transfer admin authority to a new address.
pub fn transfer_admin(ctx: &mut TransferAdmin, new_admin: Pubkey) -> (result: Result<
    AdminTransferred,
    StakingError,
>)
    ensures
        if old(ctx).admin == old(ctx).pool.data.admin {
            &&& result == Ok::<_, StakingError>(AdminTransferred { new_admin })
            &&& *final(ctx) == (TransferAdmin {
                pool: Account {
                    key: old(ctx).pool.key,
                    data: pool_with_admin(old(ctx).pool.data, new_admin),
                },
                ..*old(ctx)
            })
        } else {
            &&& result == Err::<AdminTransferred, _>(StakingError::Unauthorized)
            &&& *final(ctx) == *old(ctx)
        },
{
    match ctx.validate() {
        Ok(()) => {},
        Err(error) => {
            return Err(error);
        },
    }
    ctx.pool.data.admin = new_admin;
    Ok(AdminTransferred { new_admin })
}

} // verus!
