//! What is announced once an instruction has been carried out.

use crate::key::Pubkey;
use vstd::prelude::*;

verus! {

#[derive(Clone, Copy, Debug, PartialEq, Eq)]
pub struct PoolInitialized {
    pub admin: Pubkey,
    pub stake_mint: Pubkey,
    pub reward_rate: u64,
    pub lock_period: i64,
}

#[derive(Clone, Copy, Debug, PartialEq, Eq)]
pub struct RewardsFunded {
    pub funder: Pubkey,
    pub amount: u64,
}

#[derive(Clone, Copy, Debug, PartialEq, Eq)]
pub struct Staked {
    pub user: Pubkey,
    pub amount: u64,
    /// What the user has staked in all.
    pub total_staked: u64,
}

#[derive(Clone, Copy, Debug, PartialEq, Eq)]
pub struct RewardsClaimed {
    pub user: Pubkey,
    pub amount: u64,
}

#[derive(Clone, Copy, Debug, PartialEq, Eq)]
pub struct Unstaked {
    pub user: Pubkey,
    pub amount: u64,
    /// What the user has staked still.
    pub remaining: u64,
}

#[derive(Clone, Copy, Debug, PartialEq, Eq)]
pub struct PauseToggled {
    pub paused: bool,
}

#[derive(Clone, Copy, Debug, PartialEq, Eq)]
pub struct RewardRateUpdated {
    pub new_rate: u64,
}

#[derive(Clone, Copy, Debug, PartialEq, Eq)]
pub struct LockPeriodUpdated {
    pub new_lock_period: i64,
}

#[derive(Clone, Copy, Debug, PartialEq, Eq)]
pub struct AdminTransferred {
    pub new_admin: Pubkey,
}

} // verus!
