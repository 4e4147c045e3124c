//! What holds between the instructions of the pool.

use crate::accounts::{ClaimRewards, FundRewards, InitializePool, Stake, Unstake};
use crate::address;
use crate::error::{ConstraintError, StakingError};
use crate::instruction;
use crate::key::Pubkey;
use crate::ledger;
use crate::ledger::{Ledger, Request};
use crate::progress::{Progress, TokenTransfer};
use crate::rewards;
use crate::state::{Account, Pool, UserStake};
use vstd::prelude::*;

verus! {

/// `later` has all the replies that `earlier` has.
pub open spec fn follows(earlier: Progress, later: Progress) -> bool {
    &&& earlier.now is Some ==> later.now == earlier.now
    &&& earlier.transferred ==> later.transferred
}

/// A request that is refused once stays refused, for the same reason, whatever
/// else is heard.
pub proof fn law_refusal_is_for_good(
    pool: Pool,
    user_stake: UserStake,
    vault_amount: u64,
    amount: u64,
    earlier: Progress,
    later: Progress,
)
    requires
        follows(earlier, later),
    ensures
        ({
            let refusal = instruction::stake_refusal(pool, user_stake, amount, earlier);
            refusal is Some ==> instruction::stake_refusal(pool, user_stake, amount, later)
                == refusal
        }),
        ({
            let refusal = instruction::claim_refusal(pool, user_stake, vault_amount, earlier);
            refusal is Some ==> instruction::claim_refusal(pool, user_stake, vault_amount, later)
                == refusal
        }),
        ({
            let refusal = instruction::unstake_refusal(pool, user_stake, amount, earlier);
            refusal is Some ==> instruction::unstake_refusal(pool, user_stake, amount, later)
                == refusal
        }),
{
}

/// Nothing is paid out in vain: once the pool has asked for a payment to the
/// user, the claim or the unstaking is carried out.
pub proof fn law_payment_is_final(
    pool: Pool,
    user_stake: UserStake,
    vault_amount: u64,
    amount: u64,
    now: i64,
)
    ensures
        instruction::claim_refusal(
            pool,
            user_stake,
            vault_amount,
            Progress { now: Some(now), transferred: false },
        ) is None ==> instruction::claim_refusal(
            pool,
            user_stake,
            vault_amount,
            ledger::finished(now),
        ) is None,
        instruction::unstake_refusal(
            pool,
            user_stake,
            amount,
            Progress { now: Some(now), transferred: false },
        ) is None ==> instruction::unstake_refusal(
            pool,
            user_stake,
            amount,
            ledger::finished(now),
        ) is None,
{
}

/// A paused pool refuses every request of a user, and says so.
pub proof fn law_paused_pool_refuses(
    pool: Pool,
    user_stake: UserStake,
    vault_amount: u64,
    amount: u64,
    progress: Progress,
)
    requires
        pool.is_paused,
    ensures
        instruction::fund_refusal(pool, amount) == Some(StakingError::PoolPaused),
        instruction::stake_refusal(pool, user_stake, amount, progress) == Some(
            StakingError::PoolPaused,
        ),
        instruction::claim_refusal(pool, user_stake, vault_amount, progress) == Some(
            StakingError::PoolPaused,
        ),
        instruction::unstake_refusal(pool, user_stake, amount, progress) == Some(
            StakingError::PoolPaused,
        ),
{
}

/// A stake earns by the formula: from the time of staking on, the user has what
/// they could claim then, and the rewards of the whole stake since.
pub proof fn law_stake_earns_by_the_formula(
    pool: Account<Pool>,
    user_stake: UserStake,
    user: Pubkey,
    bump: u8,
    amount: u64,
    staked_at: i64,
    now: i64,
)
    requires
        instruction::stake_refusal(
            pool.data,
            user_stake,
            amount,
            ledger::finished(staked_at),
        ) is None,
        staked_at != 0,
        staked_at <= now,
    ensures
        ({
            let staked = (user_stake.amount + amount) as u64;
            let earned = rewards::exact_rewards(staked, now - staked_at, pool.data.reward_rate);
            earned <= u64::MAX ==> rewards::claimable(
                instruction::stake_after_staking(pool, user_stake, user, bump, amount, staked_at),
                pool.data.reward_rate,
                now,
            ) == rewards::claimable(user_stake, pool.data.reward_rate, staked_at) + earned
        }),
{
    let staked = (user_stake.amount + amount) as u64;
    rewards::lemma_accrual_is_not_negative(
        user_stake.amount,
        user_stake.last_update_ts,
        staked_at,
        pool.data.reward_rate,
    );
    assert(staked * pool.data.reward_rate * 0 == 0) by (nonlinear_arith);
}

/// Staking takes no rewards away and adds none: what the user could claim
/// before it, they could claim right after it.
pub proof fn law_staking_keeps_rewards(
    pool: Account<Pool>,
    user_stake: UserStake,
    user: Pubkey,
    bump: u8,
    amount: u64,
    now: i64,
)
    requires
        instruction::stake_refusal(
            pool.data,
            user_stake,
            amount,
            ledger::finished(now),
        ) is None,
    ensures
        rewards::claimable(
            instruction::stake_after_staking(pool, user_stake, user, bump, amount, now),
            pool.data.reward_rate,
            now,
        ) == rewards::claimable(user_stake, pool.data.reward_rate, now),
{
    rewards::lemma_accrual_is_not_negative(
        user_stake.amount,
        user_stake.last_update_ts,
        now,
        pool.data.reward_rate,
    );
}

/// Unstaking takes no rewards away and adds none.
pub proof fn law_unstaking_keeps_rewards(
    pool: Pool,
    user_stake: UserStake,
    amount: u64,
    now: i64,
)
    requires
        instruction::unstake_refusal(
            pool,
            user_stake,
            amount,
            ledger::finished(now),
        ) is None,
    ensures
        rewards::claimable(
            instruction::stake_after_unstaking(pool, user_stake, amount, now),
            pool.reward_rate,
            now,
        ) == rewards::claimable(user_stake, pool.reward_rate, now),
{
    rewards::lemma_accrual_is_not_negative(
        user_stake.amount,
        user_stake.last_update_ts,
        now,
        pool.reward_rate,
    );
}

/// A claim pays all that can be claimed, never nothing and never more than the
/// vault holds, and changes neither the stake's amount nor its lock.
pub proof fn law_claim_pays_in_full(ctx: ClaimRewards, now: i64)
    requires
        instruction::claim_refusal(
            ctx.pool.data,
            ctx.user_stake.data,
            ctx.reward_vault.data.amount,
            Progress { now: Some(now), transferred: false },
        ) is None,
    ensures
        ({
            let paid = instruction::claim_transfer(ctx, now).amount;
            let after = instruction::stake_after_claim(ctx.user_stake.data, now);
            &&& paid == rewards::claimable(ctx.user_stake.data, ctx.pool.data.reward_rate, now)
            &&& 0 < paid <= ctx.reward_vault.data.amount
            &&& after.amount == ctx.user_stake.data.amount
            &&& after.unlock_ts == ctx.user_stake.data.unlock_ts
        }),
{
    rewards::lemma_accrual_is_not_negative(
        ctx.user_stake.data.amount,
        ctx.user_stake.data.last_update_ts,
        now,
        ctx.pool.data.reward_rate,
    );
}

/// Rewards are paid once: after a claim there is nothing to claim until time
/// has passed, whatever the rate and the vault.
pub proof fn law_nothing_is_claimed_twice(
    pool: Pool,
    user_stake: UserStake,
    vault_amount: u64,
    now: i64,
    again: i64,
    transferred: bool,
)
    requires
        !pool.is_paused,
        again <= now,
    ensures
        instruction::claim_refusal(
            pool,
            instruction::stake_after_claim(user_stake, now),
            vault_amount,
            Progress { now: Some(again), transferred },
        ) == Some(StakingError::NoRewards),
{
}

/// What is staked can be taken out again: the same amount can be unstaked just
/// when the lock is over and the rewards still fit in a `u64`, and that leaves
/// the pool as it was, and the user with the same stake.
pub proof fn law_unstaking_undoes_staking(
    pool: Account<Pool>,
    user_stake: UserStake,
    user: Pubkey,
    bump: u8,
    amount: u64,
    staked_at: i64,
    unstaked_at: i64,
)
    requires
        instruction::stake_refusal(
            pool.data,
            user_stake,
            amount,
            ledger::finished(staked_at),
        ) is None,
    ensures
        ({
            let pool_between = instruction::pool_after_staking(pool.data, amount);
            let stake_between = instruction::stake_after_staking(
                pool,
                user_stake,
                user,
                bump,
                amount,
                staked_at,
            );
            &&& instruction::unstake_refusal(
                pool_between,
                stake_between,
                amount,
                ledger::finished(unstaked_at),
            ) is None <==> !instruction::is_locked(pool_between, stake_between, unstaked_at)
                && rewards::claimable(stake_between, pool_between.reward_rate, unstaked_at)
                <= u64::MAX
            &&& instruction::pool_after_unstaking(pool_between, amount) == pool.data
            &&& instruction::stake_after_unstaking(
                pool_between,
                stake_between,
                amount,
                unstaked_at,
            ).amount == user_stake.amount
        }),
{
}

/// Staking locks the user's whole stake for the lock period, and no longer:
/// within that period unstaking any part of it is answered with
/// `StillLocked`, and at its end never.
pub proof fn law_staking_locks_the_stake(
    pool: Account<Pool>,
    user_stake: UserStake,
    user: Pubkey,
    bump: u8,
    staked: u64,
    staked_at: i64,
    amount: u64,
    now: i64,
    transferred: bool,
)
    requires
        instruction::stake_refusal(
            pool.data,
            user_stake,
            staked,
            ledger::finished(staked_at),
        ) is None,
        instruction::stake_times_fit(
            pool.data,
            user_stake,
            staked,
            ledger::finished(staked_at),
        ),
        0 < amount <= user_stake.amount + staked,
    ensures
        (instruction::unstake_refusal(
            instruction::pool_after_staking(pool.data, staked),
            instruction::stake_after_staking(pool, user_stake, user, bump, staked, staked_at),
            amount,
            Progress { now: Some(now), transferred },
        ) == Some(StakingError::StillLocked)) <==> pool.data.lock_period > 0 && now < staked_at
            + pool.data.lock_period,
{
}

/// The transfer is signed with seeds that give the authority's address.
pub open spec fn is_signed(transfer: TokenTransfer, program_id: Pubkey) -> bool {
    match transfer.signer {
        Some(signer) => address::program_address(
            address::pool_signer_seeds(signer.stake_mint, signer.bump),
            program_id@,
        ) == Some(transfer.authority@),
        None => false,
    }
}

/// A pool that was set up with the bump of its address signs all its payments
/// for that address, whatever has been requested of it in between.
pub proof fn law_pool_signs_for_its_address(
    setup: InitializePool,
    bump: u8,
    reward_rate: u64,
    lock_period: i64,
    program_id: Pubkey,
    requests: Seq<Request>,
    claim: ClaimRewards,
    unstake: Unstake,
    amount: u64,
    now: i64,
)
    ensures
        ({
            let fresh = ledger::new_ledger(setup, bump, reward_rate, lock_period);
            let pool = fresh.after_all(requests).pool;
            address::program_address(
                address::pool_signer_seeds(setup.stake_mint, bump),
                program_id@,
            ) == Some(setup.pool.key@) ==> {
                &&& claim.pool == pool ==> is_signed(
                    instruction::claim_transfer(claim, now),
                    program_id,
                )
                &&& unstake.pool == pool ==> is_signed(
                    instruction::unstake_transfer(unstake, amount),
                    program_id,
                )
            }
        }),
{
    let fresh = ledger::new_ledger(setup, bump, reward_rate, lock_period);
    ledger::law_requests_keep_the_pool_identity(fresh, requests);
}

/// The stake that a user made is found again at its address by the bump it
/// keeps, whatever has been requested in between: a later claim or unstaking by
/// the same user in the same pool is not refused for the stake's address, nor
/// for its owner.
pub proof fn law_stake_is_found_again(
    ctx: Stake,
    bump: u8,
    amount: u64,
    now: i64,
    program_id: Pubkey,
    staked: Ledger,
    place: int,
    requests: Seq<Request>,
    claim: ClaimRewards,
    unstake: Unstake,
)
    requires
        staked.has(place),
        staked.pool.key == ctx.pool.key,
        staked.stakes[place] == instruction::stake_after_staking(
            ctx.pool,
            ctx.user_stake.data,
            ctx.user,
            bump,
            amount,
            now,
        ),
        ledger::added_to_only_for(staked, requests, place, ctx.user, ctx.pool.key, bump),
    ensures
        ({
            let derived = address::program_address(
                address::user_stake_seeds(ctx.pool.key, ctx.user).push(seq![bump]),
                program_id@,
            );
            let kept = Account {
                key: ctx.user_stake.key,
                data: staked.after_all(requests).stakes[place],
            };
            derived == Some(ctx.user_stake.key@) ==> {
                &&& claim.user == ctx.user && claim.pool.key == ctx.pool.key && claim.user_stake
                    == kept ==> {
                    &&& claim.verdict(
                        address::program_address(
                            address::user_stake_seeds(claim.pool.key, claim.user).push(
                                seq![claim.user_stake.data.bump],
                            ),
                            program_id@,
                        ),
                    ) != Err::<(), _>(ConstraintError::ConstraintSeeds)
                    &&& claim.user_stake.data.owner == claim.user
                }
                &&& unstake.user == ctx.user && unstake.pool.key == ctx.pool.key
                    && unstake.user_stake == kept ==> {
                    &&& unstake.verdict(
                        address::program_address(
                            address::user_stake_seeds(unstake.pool.key, unstake.user).push(
                                seq![unstake.user_stake.data.bump],
                            ),
                            program_id@,
                        ),
                    ) != Err::<(), _>(ConstraintError::ConstraintSeeds)
                    &&& unstake.user_stake.data.owner == unstake.user
                }
            }
        }),
{
    ledger::law_requests_keep_the_stake_identity(staked, requests, place);
}

/// Accounts that pass let tokens move only where they belong: rewards from the
/// pool's reward vault to the user whose stake earned them, staked tokens
/// between the user and a vault of the pool.
pub proof fn law_tokens_move_where_they_belong(
    fund: FundRewards,
    stake: Stake,
    claim: ClaimRewards,
    unstake: Unstake,
    address: Seq<u8>,
    bump: u8,
    derived: Option<Seq<u8>>,
    amount: u64,
    now: i64,
)
    ensures
        fund.accounts_match() ==> {
            let transfer = instruction::fund_transfer(fund, amount);
            &&& transfer.to == fund.pool.data.reward_vault
            &&& transfer.authority == fund.funder_reward_account.data.owner
            &&& transfer.from == fund.funder_reward_account.key
        },
        stake.verdict(address, bump) is Ok ==> {
            let transfer = instruction::stake_transfer(stake, amount);
            &&& transfer.from == stake.user_token_account.key
            &&& transfer.authority == stake.user_token_account.data.owner
            &&& transfer.to == stake.stake_vault.key
            &&& stake.stake_vault.data.owner == stake.pool.key
            &&& stake.stake_vault.data.mint == stake.user_token_account.data.mint
        },
        claim.verdict(derived) is Ok ==> {
            let transfer = instruction::claim_transfer(claim, now);
            &&& transfer.from == claim.pool.data.reward_vault
            &&& transfer.to == claim.user_reward_account.key
            &&& claim.user_reward_account.data.owner == claim.user_stake.data.owner
            &&& claim.user_stake.data.owner == claim.user
        },
        unstake.verdict(derived) is Ok ==> {
            let transfer = instruction::unstake_transfer(unstake, amount);
            &&& transfer.from == unstake.stake_vault.key
            &&& transfer.authority == unstake.stake_vault.data.owner
            &&& transfer.to == unstake.user_token_account.key
            &&& unstake.user_token_account.data.owner == unstake.user_stake.data.owner
            &&& unstake.user_token_account.data.mint == unstake.stake_vault.data.mint
            &&& unstake.user_stake.data.owner == unstake.user
        },
{
}

/// The vaults that a pool is set up with serve it from then on: the stake
/// vault for staking and unstaking, the reward vault for funding and claims.
pub proof fn law_vaults_of_the_setup_serve_the_pool(
    setup: InitializePool,
    bump: u8,
    reward_rate: u64,
    lock_period: i64,
    requests: Seq<Request>,
)
    requires
        setup.vaults_are_fresh(),
    ensures
        ({
            let fresh = ledger::new_ledger(setup, bump, reward_rate, lock_period);
            let pool = fresh.after_all(requests).pool;
            &&& setup.stake_vault.data.mint == pool.data.stake_mint
            &&& setup.stake_vault.data.owner == pool.key
            &&& setup.reward_vault.key == pool.data.reward_vault
            &&& setup.reward_vault.data.mint == pool.data.reward_mint
            &&& setup.reward_vault.data.owner == pool.key
        }),
{
    let fresh = ledger::new_ledger(setup, bump, reward_rate, lock_period);
    ledger::law_requests_keep_the_pool_identity(fresh, requests);
}

} // verus!
