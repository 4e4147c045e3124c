//! What the pool keeps in its accounts.

use crate::key::Pubkey;
use vstd::prelude::*;

verus! {

/// An account: its address and what it holds.
#[derive(Debug, PartialEq, Eq)]
pub struct Account<T> {
    pub key: Pubkey,
    pub data: T,
}

/// What the rules read of a token account.
#[derive(Clone, Copy, Debug, PartialEq, Eq)]
pub struct TokenAccount {
    /// The token that the account holds.
    pub mint: Pubkey,
    /// Who may move the tokens.
    pub owner: Pubkey,
    /// How many tokens the account holds.
    pub amount: u64,
}

/// The global staking pool.
#[derive(Clone, Copy, Debug, PartialEq, Eq)]
pub struct Pool {
    pub admin: Pubkey,
    pub stake_mint: Pubkey,
    pub reward_mint: Pubkey,
    pub reward_vault: Pubkey,
    /// Tokens per second per staked token, scaled by 1e9.
    pub reward_rate: u64,
    /// Seconds that users wait before unstaking; 0 stands for no lock.
    pub lock_period: i64,
    pub total_staked: u64,
    pub is_paused: bool,
    pub bump: u8,
}

/// The stake of one user.
#[derive(Clone, Copy, Debug, PartialEq, Eq)]
pub struct UserStake {
    pub owner: Pubkey,
    pub pool: Pubkey,
    pub amount: u64,
    /// When the user first staked; 0 stands for never.
    pub stake_ts: i64,
    /// When rewards were last settled; 0 stands for never.
    pub last_update_ts: i64,
    /// When the tokens can be unstaked.
    pub unlock_ts: i64,
    /// Accrued but unclaimed rewards.
    pub rewards_earned: u64,
    pub bump: u8,
}

impl Pool {
    /// Bytes that the account of a pool takes, with its 8-byte tag and 64
    /// bytes of padding.
    pub const LEN: usize = 8 + 32 + 32 + 32 + 32 + 8 + 8 + 8 + 1 + 1 + 64;
}

impl UserStake {
    /// Bytes that the account of a stake takes, with its 8-byte tag and 64
    /// bytes of padding.
    pub const LEN: usize = 8 + 32 + 32 + 8 + 8 + 8 + 8 + 8 + 1 + 64;

    /// A stake that nobody has used yet.
    pub open spec fn is_blank(self) -> bool {
        let no_key = Seq::new(32, |i: int| 0u8);
        &&& self.owner@ == no_key
        &&& self.pool@ == no_key
        &&& self.amount == 0
        &&& self.stake_ts == 0
        &&& self.last_update_ts == 0
        &&& self.unlock_ts == 0
        &&& self.rewards_earned == 0
        &&& self.bump == 0
    }
}

impl Default for Pool {
    /// The pool that an account of zero bytes holds.
    fn default() -> (pool: Pool)
        ensures
            pool.admin@ == Seq::new(32, |i: int| 0u8),
            pool.stake_mint == pool.admin,
            pool.reward_mint == pool.admin,
            pool.reward_vault == pool.admin,
            pool.reward_rate == 0,
            pool.lock_period == 0,
            pool.total_staked == 0,
            !pool.is_paused,
            pool.bump == 0,
    {
        let no_key = Pubkey::default();
        Pool {
            admin: no_key,
            stake_mint: no_key,
            reward_mint: no_key,
            reward_vault: no_key,
            reward_rate: 0,
            lock_period: 0,
            total_staked: 0,
            is_paused: false,
            bump: 0,
        }
    }
}

impl Default for UserStake {
    /// The stake that an account of zero bytes holds.
    fn default() -> (user_stake: UserStake)
        ensures
            user_stake.is_blank(),
    {
        let no_key = Pubkey::default();
        UserStake {
            owner: no_key,
            pool: no_key,
            amount: 0,
            stake_ts: 0,
            last_update_ts: 0,
            unlock_ts: 0,
            rewards_earned: 0,
            bump: 0,
        }
    }
}

} // verus!
