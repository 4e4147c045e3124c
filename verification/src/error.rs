//! Why a request is refused.

use vstd::prelude::*;

verus! {

/// A request that breaks a rule of the pool.
#[derive(Clone, Copy, Debug, PartialEq, Eq, Structural)]
pub enum StakingError {
    PoolPaused,
    ZeroAmount,
    MathOverflow,
    NoRewards,
    InsufficientRewards,
    InsufficientStake,
    StillLocked,
    Unauthorized,
    InvalidLockPeriod,
}

/// Accounts that do not fit together.
#[derive(Clone, Copy, Debug, PartialEq, Eq, Structural)]
pub enum ConstraintError {
    /// An account has another mint, owner or address than the pool or the
    /// user calls for.
    ConstraintRaw,
    /// An account is not at the address derived for it.
    ConstraintSeeds,
}

/// Why an instruction is refused: for its accounts, or for what it asks.
#[derive(Clone, Copy, Debug, PartialEq, Eq, Structural)]
pub enum Refusal {
    Accounts(ConstraintError),
    Rule(StakingError),
}

impl StakingError {
    pub open spec fn text(self) -> Seq<char> {
        match self {
            StakingError::PoolPaused => "Pool is currently paused"@,
            StakingError::ZeroAmount => "Amount must be greater than zero"@,
            StakingError::MathOverflow => "Math overflow"@,
            StakingError::NoRewards => "No rewards to claim"@,
            StakingError::InsufficientRewards => "Insufficient rewards in vault"@,
            StakingError::InsufficientStake => "Insufficient staked amount"@,
            StakingError::StillLocked => "Tokens are still within the lock period"@,
            StakingError::Unauthorized => "Unauthorized: caller is not admin"@,
            StakingError::InvalidLockPeriod => "Lock period cannot be negative"@,
        }
    }

    /// What the user is told.
    pub fn message(&self) -> (message: &'static str)
        ensures
            message@ == self.text(),
    {
        match self {
            StakingError::PoolPaused => "Pool is currently paused",
            StakingError::ZeroAmount => "Amount must be greater than zero",
            StakingError::MathOverflow => "Math overflow",
            StakingError::NoRewards => "No rewards to claim",
            StakingError::InsufficientRewards => "Insufficient rewards in vault",
            StakingError::InsufficientStake => "Insufficient staked amount",
            StakingError::StillLocked => "Tokens are still within the lock period",
            StakingError::Unauthorized => "Unauthorized: caller is not admin",
            StakingError::InvalidLockPeriod => "Lock period cannot be negative",
        }
    }
}

} // verus!
