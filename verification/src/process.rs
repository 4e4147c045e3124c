//! Instructions on accounts that nobody has looked at yet.
//!
//! The accounts are held against the addresses derived for them and against
//! each other before the instruction takes its step, so that the bump that is
//! stored is the one that was derived. There is no answer (`None`) where an
//! address that is needed does not exist or a time does not fit in an `i64`.

use crate::accounts::{ClaimRewards, FundRewards, InitializePool, Stake, Unstake};
use crate::address;
use crate::error::{ConstraintError, Refusal, StakingError};
use crate::event::{PoolInitialized, RewardsClaimed, RewardsFunded, Staked, Unstaked};
use crate::instruction;
use crate::key::Pubkey;
use crate::progress::{Next, Progress};
use crate::state::Account;
use vstd::prelude::*;

verus! {

/// An answer of the rules, as an answer to the whole instruction.
pub open spec fn by_rule<E>(answer: Result<E, StakingError>) -> Result<E, Refusal> {
    match answer {
        Ok(next) => Ok(next),
        Err(error) => Err(Refusal::Rule(error)),
    }
}

fn to_refusal<E>(answer: Result<E, StakingError>) -> (result: Result<E, Refusal>)
    ensures
        result == by_rule(answer),
{
    match answer {
        Ok(next) => Ok(next),
        Err(error) => Err(Refusal::Rule(error)),
    }
}

/// What setting up a pool is answered.
pub open spec fn initialize_pool_outcome(
    ctx: InitializePool,
    program_id: Pubkey,
    reward_rate: u64,
    lock_period: i64,
) -> Option<Result<PoolInitialized, Refusal>> {
    match address::found_address(address::pool_seeds(ctx.stake_mint), program_id@) {
        Some((address, bump)) => match ctx.verdict(address, bump) {
            Ok(_) => Some(
                Ok(
                    PoolInitialized {
                        admin: ctx.admin,
                        stake_mint: ctx.stake_mint,
                        reward_rate,
                        lock_period,
                    },
                ),
            ),
            Err(error) => Some(Err(Refusal::Accounts(error))),
        },
        None => None,
    }
}

/// Sets up the pool at the address derived for it, and stores the bump of that
/// address.
pub fn process_initialize_pool(
    ctx: &mut InitializePool,
    program_id: &Pubkey,
    reward_rate: u64,
    lock_period: i64,
) -> (result: Option<Result<PoolInitialized, Refusal>>)
    ensures
        result == initialize_pool_outcome(*old(ctx), *program_id, reward_rate, lock_period),
        match result {
            Some(Ok(_)) => {
                let bump = (address::found_address(
                    address::pool_seeds(old(ctx).stake_mint),
                    program_id@,
                )->0).1;
                &&& *final(ctx) == (InitializePool {
                    pool: Account {
                        key: old(ctx).pool.key,
                        data: instruction::new_pool(*old(ctx), bump, reward_rate, lock_period),
                    },
                    ..*old(ctx)
                })
                &&& address::program_address(
                    address::pool_signer_seeds(
                        final(ctx).pool.data.stake_mint,
                        final(ctx).pool.data.bump,
                    ),
                    program_id@,
                ) == Some(final(ctx).pool.key@)
            },
            _ => *final(ctx) == *old(ctx),
        },
{
    match ctx.validate(program_id) {
        Some(Ok(bump)) => Some(
            to_refusal(instruction::initialize_pool(ctx, bump, reward_rate, lock_period)),
        ),
        Some(Err(error)) => Some(Err(Refusal::Accounts(error))),
        None => None,
    }
}

/// What funding is answered.
pub open spec fn fund_outcome(ctx: FundRewards, amount: u64, progress: Progress) -> Result<
    Next<RewardsFunded>,
    Refusal,
> {
    if ctx.accounts_match() {
        by_rule(instruction::fund_answer(ctx, amount, progress))
    } else {
        Err(Refusal::Accounts(ConstraintError::ConstraintRaw))
    }
}

/// Funds the reward vault with accounts that match.
pub fn process_fund_rewards(ctx: &FundRewards, amount: u64, progress: Progress) -> (result: Result<
    Next<RewardsFunded>,
    Refusal,
>)
    ensures
        result == fund_outcome(*ctx, amount, progress),
{
    match ctx.validate() {
        Ok(()) => to_refusal(instruction::fund_rewards(ctx, amount, progress)),
        Err(error) => Err(Refusal::Accounts(error)),
    }
}

/// What staking is answered.
pub open spec fn stake_outcome(
    ctx: Stake,
    program_id: Pubkey,
    amount: u64,
    progress: Progress,
) -> Option<Result<Next<Staked>, Refusal>> {
    match address::found_address(
        address::user_stake_seeds(ctx.pool.key, ctx.user),
        program_id@,
    ) {
        Some((address, bump)) => match ctx.verdict(address, bump) {
            Ok(_) => if instruction::stake_times_fit(
                ctx.pool.data,
                ctx.user_stake.data,
                amount,
                progress,
            ) {
                Some(by_rule(instruction::stake_answer(ctx, amount, progress)))
            } else {
                None
            },
            Err(error) => Some(Err(Refusal::Accounts(error))),
        },
        None => None,
    }
}

/// Stakes with accounts that match, and stores the bump of the address derived
/// for the stake.
pub fn process_stake(
    ctx: &mut Stake,
    program_id: &Pubkey,
    amount: u64,
    progress: Progress,
) -> (result: Option<Result<Next<Staked>, Refusal>>)
    ensures
        result == stake_outcome(*old(ctx), *program_id, amount, progress),
        match result {
            Some(Ok(Next::Done(_))) => {
                let bump = (address::found_address(
                    address::user_stake_seeds(old(ctx).pool.key, old(ctx).user),
                    program_id@,
                )->0).1;
                &&& *final(ctx) == instruction::stake_effect(*old(ctx), bump, amount, progress)
                &&& address::program_address(
                    address::user_stake_seeds(final(ctx).pool.key, final(ctx).user).push(
                        seq![final(ctx).user_stake.data.bump],
                    ),
                    program_id@,
                ) == Some(final(ctx).user_stake.key@)
            },
            _ => *final(ctx) == *old(ctx),
        },
{
    match ctx.validate(program_id) {
        Some(Ok(bump)) => {
            if !ctx.times_are_in_range(amount, progress) {
                return None;
            }
            Some(to_refusal(instruction::stake(ctx, bump, amount, progress)))
        },
        Some(Err(error)) => Some(Err(Refusal::Accounts(error))),
        None => None,
    }
}

/// What a claim is answered.
pub open spec fn claim_outcome(ctx: ClaimRewards, program_id: Pubkey, progress: Progress) -> Option<
    Result<Next<RewardsClaimed>, Refusal>,
> {
    let derived = address::program_address(
        address::user_stake_seeds(ctx.pool.key, ctx.user).push(seq![ctx.user_stake.data.bump]),
        program_id@,
    );
    match ctx.verdict(derived) {
        Ok(()) => if instruction::claim_times_fit(ctx.pool.data, ctx.user_stake.data, progress) {
            Some(by_rule(instruction::claim_answer(ctx, progress)))
        } else {
            None
        },
        Err(error) => Some(Err(Refusal::Accounts(error))),
    }
}

/// Claims rewards with accounts that match.
pub fn process_claim_rewards(
    ctx: &mut ClaimRewards,
    program_id: &Pubkey,
    progress: Progress,
) -> (result: Option<Result<Next<RewardsClaimed>, Refusal>>)
    ensures
        result == claim_outcome(*old(ctx), *program_id, progress),
        match result {
            Some(Ok(Next::Done(_))) => *final(ctx) == instruction::claim_effect(
                *old(ctx),
                progress,
            ),
            _ => *final(ctx) == *old(ctx),
        },
{
    match ctx.validate(program_id) {
        Ok(()) => {
            if !ctx.times_are_in_range(progress) {
                return None;
            }
            Some(to_refusal(instruction::claim_rewards(ctx, progress)))
        },
        Err(error) => Some(Err(Refusal::Accounts(error))),
    }
}

/// What unstaking is answered.
pub open spec fn unstake_outcome(
    ctx: Unstake,
    program_id: Pubkey,
    amount: u64,
    progress: Progress,
) -> Option<Result<Next<Unstaked>, Refusal>> {
    let derived = address::program_address(
        address::user_stake_seeds(ctx.pool.key, ctx.user).push(seq![ctx.user_stake.data.bump]),
        program_id@,
    );
    match ctx.verdict(derived) {
        Ok(()) => if instruction::unstake_times_fit(
            ctx.pool.data,
            ctx.user_stake.data,
            amount,
            progress,
        ) {
            Some(by_rule(instruction::unstake_answer(ctx, amount, progress)))
        } else {
            None
        },
        Err(error) => Some(Err(Refusal::Accounts(error))),
    }
}

/// Unstakes with accounts that match.
pub fn process_unstake(
    ctx: &mut Unstake,
    program_id: &Pubkey,
    amount: u64,
    progress: Progress,
) -> (result: Option<Result<Next<Unstaked>, Refusal>>)
    ensures
        result == unstake_outcome(*old(ctx), *program_id, amount, progress),
        match result {
            Some(Ok(Next::Done(_))) => *final(ctx) == instruction::unstake_effect(
                *old(ctx),
                amount,
                progress,
            ),
            _ => *final(ctx) == *old(ctx),
        },
{
    match ctx.validate(program_id) {
        Ok(()) => {
            if !ctx.times_are_in_range(amount, progress) {
                return None;
            }
            Some(to_refusal(instruction::unstake(ctx, amount, progress)))
        },
        Err(error) => Some(Err(Refusal::Accounts(error))),
    }
}

} // verus!
