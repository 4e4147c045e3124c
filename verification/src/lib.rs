//! Rules of a token staking pool: staking with a lock period, time-based
//! rewards, and administration of the pool.
//!
//! Every instruction of the pool is a decision on plain values. It is handed
//! the accounts it works on and the replies it has had from the outside so
//! far, and it answers with what to do next, or with why the request is
//! refused. Who calls it reads the clock, moves the tokens and stores the
//! accounts.

pub mod accounts;
pub mod address;
pub mod error;
pub mod event;
pub mod guarantee;
pub mod instruction;
pub mod key;
pub mod law;
pub mod ledger;
pub mod process;
pub mod progress;
pub mod rewards;
pub mod state;

pub use accounts::{
    AdminOnly, ClaimRewards, FundRewards, InitializePool, Stake, TransferAdmin, Unstake,
};
pub use address::{pool_address, user_stake_address, user_stake_address_with_bump};
pub use error::{ConstraintError, Refusal, StakingError};
pub use event::{
    AdminTransferred, LockPeriodUpdated, PauseToggled, PoolInitialized, RewardRateUpdated,
    RewardsClaimed, RewardsFunded, Staked, Unstaked,
};
pub use instruction::{
    claim_rewards, fund_rewards, initialize_pool, set_lock_period, set_paused, set_reward_rate,
    stake, transfer_admin, unstake,
};
pub use key::Pubkey;
pub use process::{
    process_claim_rewards, process_fund_rewards, process_initialize_pool, process_stake,
    process_unstake,
};
pub use progress::{Next, PoolSigner, Progress, TokenTransfer};
pub use rewards::calculate_pending_rewards;
pub use state::{Account, Pool, TokenAccount, UserStake};
