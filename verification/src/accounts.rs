//! The accounts that each instruction works on, and what has to hold between
//! them.

use crate::address;
use crate::error::{ConstraintError, StakingError};
use crate::key::Pubkey;
use crate::state::{Account, Pool, TokenAccount, UserStake};
use vstd::prelude::*;

verus! {

/// Accounts for setting up a pool. The two vaults are fresh token accounts
/// that belong to the pool.
#[derive(Debug, PartialEq, Eq)]
pub struct InitializePool {
    pub admin: Pubkey,
    pub stake_mint: Pubkey,
    pub reward_mint: Pubkey,
    pub pool: Account<Pool>,
    pub reward_vault: Account<TokenAccount>,
    pub stake_vault: Account<TokenAccount>,
}

/// Accounts for putting tokens into the reward vault.
#[derive(Debug, PartialEq, Eq)]
pub struct FundRewards {
    pub funder: Pubkey,
    pub pool: Account<Pool>,
    pub funder_reward_account: Account<TokenAccount>,
    pub reward_vault: Account<TokenAccount>,
}

/// Accounts for staking.
#[derive(Debug, PartialEq, Eq)]
pub struct Stake {
    pub user: Pubkey,
    pub pool: Account<Pool>,
    pub user_stake: Account<UserStake>,
    pub user_token_account: Account<TokenAccount>,
    pub stake_vault: Account<TokenAccount>,
}

/// Accounts for claiming rewards.
#[derive(Debug, PartialEq, Eq)]
pub struct ClaimRewards {
    pub user: Pubkey,
    pub pool: Account<Pool>,
    pub user_stake: Account<UserStake>,
    pub reward_vault: Account<TokenAccount>,
    pub user_reward_account: Account<TokenAccount>,
}

/// Accounts for unstaking.
#[derive(Debug, PartialEq, Eq)]
pub struct Unstake {
    pub user: Pubkey,
    pub pool: Account<Pool>,
    pub user_stake: Account<UserStake>,
    pub user_token_account: Account<TokenAccount>,
    pub stake_vault: Account<TokenAccount>,
}

/// Accounts for changing a setting of the pool.
#[derive(Debug, PartialEq, Eq)]
pub struct AdminOnly {
    pub admin: Pubkey,
    pub pool: Account<Pool>,
}

/// Accounts for handing the pool to another admin.
#[derive(Debug, PartialEq, Eq)]
pub struct TransferAdmin {
    pub admin: Pubkey,
    pub pool: Account<Pool>,
}

impl InitializePool {
    /// The vaults are empty token accounts of the pool, one for the reward
    /// token and one for the staked token.
    pub open spec fn vaults_are_fresh(self) -> bool {
        &&& self.reward_vault.data == (TokenAccount {
            mint: self.reward_mint,
            owner: self.pool.key,
            amount: 0,
        })
        &&& self.stake_vault.data == (TokenAccount {
            mint: self.stake_mint,
            owner: self.pool.key,
            amount: 0,
        })
    }

    /// The pool has to live at `address`, whose bump is `bump`; the bump is
    /// handed on.
    pub open spec fn verdict(self, address: Seq<u8>, bump: u8) -> Result<u8, ConstraintError> {
        if self.pool.key@ == address {
            Ok(bump)
        } else {
            Err(ConstraintError::ConstraintSeeds)
        }
    }

    /// Holds the accounts against the address derived for the pool.
    pub fn check(&self, address: &Pubkey, bump: u8) -> (result: Result<u8, ConstraintError>)
        ensures
            result == self.verdict(address@, bump),
    {
        broadcast use crate::key::lemma_same_bytes;

        if self.pool.key != *address {
            return Err(ConstraintError::ConstraintSeeds);
        }
        Ok(bump)
    }

    /// Derives the pool's address and holds the accounts against it. `None`
    /// where there is no such address.
    pub fn validate(&self, program_id: &Pubkey) -> (result: Option<Result<u8, ConstraintError>>)
        ensures
            match address::found_address(address::pool_seeds(self.stake_mint), program_id@) {
                Some((address, bump)) => result == Some(self.verdict(address, bump)),
                None => result is None,
            },
            result matches Some(Ok(bump)) ==> address::program_address(
                address::pool_signer_seeds(self.stake_mint, bump),
                program_id@,
            ) == Some(self.pool.key@),
    {
        match address::pool_address(&self.stake_mint, program_id) {
            Some((address, bump)) => Some(self.check(&address, bump)),
            None => None,
        }
    }
}

impl FundRewards {
    /// The funder pays the pool's reward token out of an account of their own
    /// into the pool's reward vault.
    pub open spec fn accounts_match(self) -> bool {
        &&& self.funder_reward_account.data.mint == self.pool.data.reward_mint
        &&& self.funder_reward_account.data.owner == self.funder
        &&& self.reward_vault.key == self.pool.data.reward_vault
    }

    pub fn validate(&self) -> (result: Result<(), ConstraintError>)
        ensures
            result == (if self.accounts_match() {
                Ok::<(), ConstraintError>(())
            } else {
                Err(ConstraintError::ConstraintRaw)
            }),
    {
        if self.funder_reward_account.data.mint == self.pool.data.reward_mint
            && self.funder_reward_account.data.owner == self.funder
            && self.reward_vault.key == self.pool.data.reward_vault {
            Ok(())
        } else {
            Err(ConstraintError::ConstraintRaw)
        }
    }
}

impl Stake {
    /// The user pays the pool's stake token out of an account of their own
    /// into a vault that belongs to the pool.
    pub open spec fn accounts_match(self) -> bool {
        &&& self.user_token_account.data.mint == self.pool.data.stake_mint
        &&& self.user_token_account.data.owner == self.user
        &&& self.stake_vault.data.mint == self.pool.data.stake_mint
        &&& self.stake_vault.data.owner == self.pool.key
    }

    /// The stake has to live at `address`, whose bump is `bump`, and the other
    /// accounts have to match; the bump is handed on.
    pub open spec fn verdict(self, address: Seq<u8>, bump: u8) -> Result<u8, ConstraintError> {
        if self.user_stake.key@ != address {
            Err(ConstraintError::ConstraintSeeds)
        } else if !self.accounts_match() {
            Err(ConstraintError::ConstraintRaw)
        } else {
            Ok(bump)
        }
    }

    /// Holds the accounts against the address derived for the stake.
    pub fn check(&self, address: &Pubkey, bump: u8) -> (result: Result<u8, ConstraintError>)
        ensures
            result == self.verdict(address@, bump),
    {
        broadcast use crate::key::lemma_same_bytes;

        if self.user_stake.key != *address {
            return Err(ConstraintError::ConstraintSeeds);
        }
        if self.user_token_account.data.mint == self.pool.data.stake_mint
            && self.user_token_account.data.owner == self.user
            && self.stake_vault.data.mint == self.pool.data.stake_mint
            && self.stake_vault.data.owner == self.pool.key {
            Ok(bump)
        } else {
            Err(ConstraintError::ConstraintRaw)
        }
    }

    /// Derives the stake's address and holds the accounts against it. `None`
    /// where there is no such address.
    pub fn validate(&self, program_id: &Pubkey) -> (result: Option<Result<u8, ConstraintError>>)
        ensures
            match address::found_address(
                address::user_stake_seeds(self.pool.key, self.user),
                program_id@,
            ) {
                Some((address, bump)) => result == Some(self.verdict(address, bump)),
                None => result is None,
            },
            result matches Some(Ok(bump)) ==> address::program_address(
                address::user_stake_seeds(self.pool.key, self.user).push(seq![bump]),
                program_id@,
            ) == Some(self.user_stake.key@),
    {
        match address::user_stake_address(&self.pool.key, &self.user, program_id) {
            Some((address, bump)) => Some(self.check(&address, bump)),
            None => None,
        }
    }
}

impl ClaimRewards {
    /// The stake belongs to the user, and the pool's reward token goes from
    /// the pool's reward vault to an account of the user.
    pub open spec fn accounts_match(self) -> bool {
        &&& self.user_stake.data.owner == self.user
        &&& self.reward_vault.key == self.pool.data.reward_vault
        &&& self.user_reward_account.data.mint == self.pool.data.reward_mint
        &&& self.user_reward_account.data.owner == self.user
    }

    /// The stake has to live at the derived address, and the other accounts
    /// have to match.
    pub open spec fn verdict(self, derived: Option<Seq<u8>>) -> Result<(), ConstraintError> {
        if derived != Some(self.user_stake.key@) {
            Err(ConstraintError::ConstraintSeeds)
        } else if !self.accounts_match() {
            Err(ConstraintError::ConstraintRaw)
        } else {
            Ok(())
        }
    }

    /// Holds the accounts against what was derived for the stake.
    pub fn check(&self, derived: &Result<Pubkey, ConstraintError>) -> (result: Result<
        (),
        ConstraintError,
    >)
        ensures
            result == self.verdict(
                match *derived {
                    Ok(address) => Some(address@),
                    Err(_) => None,
                },
            ),
    {
        broadcast use crate::key::lemma_same_bytes;

        match derived {
            Ok(address) => {
                if self.user_stake.key != *address {
                    return Err(ConstraintError::ConstraintSeeds);
                }
            },
            Err(_) => {
                return Err(ConstraintError::ConstraintSeeds);
            },
        }
        if self.user_stake.data.owner == self.user
            && self.reward_vault.key == self.pool.data.reward_vault
            && self.user_reward_account.data.mint == self.pool.data.reward_mint
            && self.user_reward_account.data.owner == self.user {
            Ok(())
        } else {
            Err(ConstraintError::ConstraintRaw)
        }
    }

    /// Derives the stake's address by the bump it keeps, and holds the
    /// accounts against it.
    pub fn validate(&self, program_id: &Pubkey) -> (result: Result<(), ConstraintError>)
        ensures
            result == self.verdict(
                address::program_address(
                    address::user_stake_seeds(self.pool.key, self.user).push(
                        seq![self.user_stake.data.bump],
                    ),
                    program_id@,
                ),
            ),
    {
        let derived = address::user_stake_address_with_bump(
            &self.pool.key,
            &self.user,
            self.user_stake.data.bump,
            program_id,
        );
        self.check(&derived)
    }
}

impl Unstake {
    /// The stake belongs to the user, and the pool's stake token goes from a
    /// vault that belongs to the pool to an account of the user.
    pub open spec fn accounts_match(self) -> bool {
        &&& self.user_stake.data.owner == self.user
        &&& self.user_token_account.data.mint == self.pool.data.stake_mint
        &&& self.user_token_account.data.owner == self.user
        &&& self.stake_vault.data.mint == self.pool.data.stake_mint
        &&& self.stake_vault.data.owner == self.pool.key
    }

    /// The stake has to live at the derived address, and the other accounts
    /// have to match.
    pub open spec fn verdict(self, derived: Option<Seq<u8>>) -> Result<(), ConstraintError> {
        if derived != Some(self.user_stake.key@) {
            Err(ConstraintError::ConstraintSeeds)
        } else if !self.accounts_match() {
            Err(ConstraintError::ConstraintRaw)
        } else {
            Ok(())
        }
    }

    /// Holds the accounts against what was derived for the stake.
    pub fn check(&self, derived: &Result<Pubkey, ConstraintError>) -> (result: Result<
        (),
        ConstraintError,
    >)
        ensures
            result == self.verdict(
                match *derived {
                    Ok(address) => Some(address@),
                    Err(_) => None,
                },
            ),
    {
        broadcast use crate::key::lemma_same_bytes;

        match derived {
            Ok(address) => {
                if self.user_stake.key != *address {
                    return Err(ConstraintError::ConstraintSeeds);
                }
            },
            Err(_) => {
                return Err(ConstraintError::ConstraintSeeds);
            },
        }
        if self.user_stake.data.owner == self.user
            && self.user_token_account.data.mint == self.pool.data.stake_mint
            && self.user_token_account.data.owner == self.user
            && self.stake_vault.data.mint == self.pool.data.stake_mint
            && self.stake_vault.data.owner == self.pool.key {
            Ok(())
        } else {
            Err(ConstraintError::ConstraintRaw)
        }
    }

    /// Derives the stake's address by the bump it keeps, and holds the
    /// accounts against it.
    pub fn validate(&self, program_id: &Pubkey) -> (result: Result<(), ConstraintError>)
        ensures
            result == self.verdict(
                address::program_address(
                    address::user_stake_seeds(self.pool.key, self.user).push(
                        seq![self.user_stake.data.bump],
                    ),
                    program_id@,
                ),
            ),
    {
        let derived = address::user_stake_address_with_bump(
            &self.pool.key,
            &self.user,
            self.user_stake.data.bump,
            program_id,
        );
        self.check(&derived)
    }
}

impl AdminOnly {
    /// Only the admin of the pool may change its settings.
    pub fn validate(&self) -> (result: Result<(), StakingError>)
        ensures
            result == (if self.admin == self.pool.data.admin {
                Ok::<(), StakingError>(())
            } else {
                Err(StakingError::Unauthorized)
            }),
    {
        if self.admin == self.pool.data.admin {
            Ok(())
        } else {
            Err(StakingError::Unauthorized)
        }
    }
}

impl TransferAdmin {
    /// Only the admin of the pool may hand it on.
    pub fn validate(&self) -> (result: Result<(), StakingError>)
        ensures
            result == (if self.admin == self.pool.data.admin {
                Ok::<(), StakingError>(())
            } else {
                Err(StakingError::Unauthorized)
            }),
    {
        if self.admin == self.pool.data.admin {
            Ok(())
        } else {
            Err(StakingError::Unauthorized)
        }
    }
}

} // verus!
