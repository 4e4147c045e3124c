use token_staking::{
    claim_rewards, fund_rewards, initialize_pool, set_lock_period, set_paused, set_reward_rate,
    stake, transfer_admin, unstake, Account, AdminOnly, AdminTransferred, ClaimRewards,
    FundRewards, InitializePool, LockPeriodUpdated, Next, PauseToggled, Pool, PoolInitialized,
    PoolSigner, Progress, Pubkey, RewardRateUpdated, RewardsClaimed, RewardsFunded, Stake, Staked,
    StakingError, TokenAccount, TokenTransfer, TransferAdmin, Unstake, Unstaked, UserStake,
};

const ADMIN: u8 = 1;
const STAKE_MINT: u8 = 2;
const REWARD_MINT: u8 = 3;
const POOL: u8 = 4;
const REWARD_VAULT: u8 = 5;
const STAKE_VAULT: u8 = 6;
const USER: u8 = 7;
const USER_STAKE: u8 = 8;
const USER_TOKENS: u8 = 9;
const USER_REWARDS: u8 = 10;

fn key(n: u8) -> Pubkey {
    Pubkey { bytes: [n; 32] }
}

fn account<T>(n: u8, data: T) -> Account<T> {
    Account { key: key(n), data }
}

fn tokens(mint: u8, owner: u8, amount: u64) -> TokenAccount {
    TokenAccount { mint: key(mint), owner: key(owner), amount }
}

/// One reward token per second and staked token, unlocked after a day.
fn pool() -> Pool {
    Pool {
        admin: key(ADMIN),
        stake_mint: key(STAKE_MINT),
        reward_mint: key(REWARD_MINT),
        reward_vault: key(REWARD_VAULT),
        reward_rate: 1_000_000_000,
        lock_period: 86_400,
        total_staked: 5_000,
        is_paused: false,
        bump: 254,
    }
}

fn user_stake() -> UserStake {
    UserStake {
        owner: key(USER),
        pool: key(POOL),
        amount: 300,
        stake_ts: 50,
        last_update_ts: 100,
        unlock_ts: 100_000,
        rewards_earned: 11,
        bump: 253,
    }
}

fn staking(pool: Pool, user_stake: UserStake) -> Stake {
    Stake {
        user: key(USER),
        pool: account(POOL, pool),
        user_stake: account(USER_STAKE, user_stake),
        user_token_account: account(USER_TOKENS, tokens(STAKE_MINT, USER, 9_000)),
        stake_vault: account(STAKE_VAULT, tokens(STAKE_MINT, POOL, 5_000)),
    }
}

fn unstaking(pool: Pool, user_stake: UserStake) -> Unstake {
    Unstake {
        user: key(USER),
        pool: account(POOL, pool),
        user_stake: account(USER_STAKE, user_stake),
        user_token_account: account(USER_TOKENS, tokens(STAKE_MINT, USER, 9_000)),
        stake_vault: account(STAKE_VAULT, tokens(STAKE_MINT, POOL, 5_000)),
    }
}

fn claiming(pool: Pool, user_stake: UserStake, vault: u64) -> ClaimRewards {
    ClaimRewards {
        user: key(USER),
        pool: account(POOL, pool),
        user_stake: account(USER_STAKE, user_stake),
        reward_vault: account(REWARD_VAULT, tokens(REWARD_MINT, POOL, vault)),
        user_reward_account: account(USER_REWARDS, tokens(REWARD_MINT, USER, 0)),
    }
}

fn funding(pool: Pool) -> FundRewards {
    FundRewards {
        funder: key(USER),
        pool: account(POOL, pool),
        funder_reward_account: account(USER_REWARDS, tokens(REWARD_MINT, USER, 100)),
        reward_vault: account(REWARD_VAULT, tokens(REWARD_MINT, POOL, 0)),
    }
}

fn administering(by: u8) -> AdminOnly {
    AdminOnly { admin: key(by), pool: account(POOL, pool()) }
}

fn at(now: i64) -> Progress {
    Progress { now: Some(now), transferred: false }
}

fn paid_at(now: i64) -> Progress {
    Progress { now: Some(now), transferred: true }
}

fn signer() -> Option<PoolSigner> {
    Some(PoolSigner { stake_mint: key(STAKE_MINT), bump: 254 })
}

#[test]
fn account_sizes() {
    assert_eq!(Pool::LEN, 226);
    assert_eq!(UserStake::LEN, 177);
}

#[test]
fn defaults_are_zero() {
    let pool = Pool::default();
    assert_eq!(pool.admin, key(0));
    assert_eq!(pool.stake_mint, key(0));
    assert_eq!(pool.reward_mint, key(0));
    assert_eq!(pool.reward_vault, key(0));
    assert_eq!((pool.reward_rate, pool.lock_period, pool.total_staked), (0, 0, 0));
    assert_eq!((pool.is_paused, pool.bump), (false, 0));
    let stake = UserStake::default();
    assert_eq!((stake.owner, stake.pool), (key(0), key(0)));
    assert_eq!((stake.amount, stake.rewards_earned, stake.bump), (0, 0, 0));
    assert_eq!((stake.stake_ts, stake.last_update_ts, stake.unlock_ts), (0, 0, 0));
}

#[test]
fn keys_compare_by_bytes() {
    assert_eq!(key(7), key(7));
    assert_ne!(key(7), key(8));
    let mut bytes = [7; 32];
    bytes[31] = 8;
    assert_ne!(key(7), Pubkey { bytes });
    assert_eq!(Pubkey { bytes }.to_vec(), bytes.to_vec());
}

#[test]
fn error_messages() {
    assert_eq!(StakingError::PoolPaused.message(), "Pool is currently paused");
    assert_eq!(StakingError::ZeroAmount.message(), "Amount must be greater than zero");
    assert_eq!(StakingError::MathOverflow.message(), "Math overflow");
    assert_eq!(StakingError::NoRewards.message(), "No rewards to claim");
    assert_eq!(StakingError::InsufficientRewards.message(), "Insufficient rewards in vault");
    assert_eq!(StakingError::InsufficientStake.message(), "Insufficient staked amount");
    assert_eq!(StakingError::StillLocked.message(), "Tokens are still within the lock period");
    assert_eq!(StakingError::Unauthorized.message(), "Unauthorized: caller is not admin");
    assert_eq!(StakingError::InvalidLockPeriod.message(), "Lock period cannot be negative");
}

#[test]
fn pool_is_set_up() {
    let mut ctx = InitializePool {
        admin: key(ADMIN),
        stake_mint: key(STAKE_MINT),
        reward_mint: key(REWARD_MINT),
        pool: account(POOL, Pool::default()),
        reward_vault: account(REWARD_VAULT, tokens(REWARD_MINT, POOL, 0)),
        stake_vault: account(STAKE_VAULT, tokens(STAKE_MINT, POOL, 0)),
    };
    let event = initialize_pool(&mut ctx, 254, 77, 86_400);
    assert_eq!(
        event,
        Ok(PoolInitialized {
            admin: key(ADMIN),
            stake_mint: key(STAKE_MINT),
            reward_rate: 77,
            lock_period: 86_400,
        })
    );
    assert_eq!(
        ctx.pool,
        account(
            POOL,
            Pool {
                admin: key(ADMIN),
                stake_mint: key(STAKE_MINT),
                reward_mint: key(REWARD_MINT),
                reward_vault: key(REWARD_VAULT),
                reward_rate: 77,
                lock_period: 86_400,
                total_staked: 0,
                is_paused: false,
                bump: 254,
            }
        )
    );
}

#[test]
fn rewards_are_funded() {
    let ctx = funding(pool());
    let first = fund_rewards(&ctx, 40, Progress::start());
    assert_eq!(
        first,
        Ok(Next::Transfer(TokenTransfer {
            from: key(USER_REWARDS),
            to: key(REWARD_VAULT),
            authority: key(USER),
            amount: 40,
            signer: None,
        }))
    );
    let done = Progress { now: None, transferred: true };
    assert_eq!(
        fund_rewards(&ctx, 40, done),
        Ok(Next::Done(RewardsFunded { funder: key(USER), amount: 40 }))
    );
}

#[test]
fn funding_is_refused() {
    let paused = Pool { is_paused: true, ..pool() };
    let start = Progress::start();
    assert_eq!(fund_rewards(&funding(paused), 40, start), Err(StakingError::PoolPaused));
    assert_eq!(fund_rewards(&funding(paused), 0, start), Err(StakingError::PoolPaused));
    assert_eq!(fund_rewards(&funding(pool()), 0, start), Err(StakingError::ZeroAmount));
}

#[test]
fn first_stake() {
    let mut ctx = staking(pool(), UserStake::default());
    assert_eq!(stake(&mut ctx, 253, 200, Progress::start()), Ok(Next::ReadClock));
    assert_eq!(
        stake(&mut ctx, 253, 200, at(1_000)),
        Ok(Next::Transfer(TokenTransfer {
            from: key(USER_TOKENS),
            to: key(STAKE_VAULT),
            authority: key(USER),
            amount: 200,
            signer: None,
        }))
    );
    assert_eq!(ctx, staking(pool(), UserStake::default()));
    assert_eq!(
        stake(&mut ctx, 253, 200, paid_at(1_000)),
        Ok(Next::Done(Staked { user: key(USER), amount: 200, total_staked: 200 }))
    );
    let expected = UserStake {
        owner: key(USER),
        pool: key(POOL),
        amount: 200,
        stake_ts: 1_000,
        last_update_ts: 1_000,
        unlock_ts: 87_400,
        rewards_earned: 0,
        bump: 253,
    };
    assert_eq!(ctx, staking(Pool { total_staked: 5_200, ..pool() }, expected));
}

#[test]
fn adding_to_a_stake_settles_rewards() {
    let mut ctx = staking(pool(), user_stake());
    assert_eq!(
        stake(&mut ctx, 252, 200, paid_at(110)),
        Ok(Next::Done(Staked { user: key(USER), amount: 200, total_staked: 500 }))
    );
    let expected = UserStake {
        amount: 500,
        stake_ts: 50,
        last_update_ts: 110,
        unlock_ts: 86_510,
        rewards_earned: 3_011,
        bump: 252,
        ..user_stake()
    };
    assert_eq!(ctx, staking(Pool { total_staked: 5_200, ..pool() }, expected));
}

#[test]
fn staking_is_refused() {
    let paused = Pool { is_paused: true, ..pool() };
    let start = Progress::start();
    let mut ctx = staking(paused, user_stake());
    assert_eq!(stake(&mut ctx, 1, 0, start), Err(StakingError::PoolPaused));
    assert_eq!(stake(&mut ctx, 1, 5, paid_at(110)), Err(StakingError::PoolPaused));
    assert_eq!(ctx, staking(paused, user_stake()));
    let mut ctx = staking(pool(), user_stake());
    assert_eq!(stake(&mut ctx, 1, 0, start), Err(StakingError::ZeroAmount));
    assert_eq!(ctx, staking(pool(), user_stake()));
}

#[test]
fn staking_beyond_the_largest_number() {
    let full = UserStake { rewards_earned: u64::MAX, ..user_stake() };
    let mut ctx = staking(pool(), full);
    assert_eq!(stake(&mut ctx, 1, 5, at(110)), Err(StakingError::MathOverflow));
    assert_eq!(ctx, staking(pool(), full));

    // The stake itself is looked at once the tokens have come
    let mut ctx = staking(pool(), user_stake());
    assert!(matches!(stake(&mut ctx, 1, u64::MAX, at(110)), Ok(Next::Transfer(_))));
    assert_eq!(stake(&mut ctx, 1, u64::MAX, paid_at(110)), Err(StakingError::MathOverflow));
    assert_eq!(ctx, staking(pool(), user_stake()));

    let total = Pool { total_staked: u64::MAX - 4, ..pool() };
    let mut ctx = staking(total, user_stake());
    assert_eq!(stake(&mut ctx, 1, 5, paid_at(110)), Err(StakingError::MathOverflow));
    assert!(matches!(stake(&mut ctx, 1, 4, paid_at(110)), Ok(Next::Done(_))));
}

#[test]
fn staking_times_are_told() {
    let far = Pool { lock_period: i64::MAX, ..pool() };
    let ctx = staking(far, user_stake());
    assert!(ctx.times_are_in_range(5, Progress::start()));
    assert!(ctx.times_are_in_range(5, at(110)));
    assert!(!ctx.times_are_in_range(5, paid_at(110)));
    // Refused before the time of unlocking is needed
    assert!(ctx.times_are_in_range(0, paid_at(110)));
    assert!(ctx.times_are_in_range(u64::MAX, paid_at(110)));
    let early = UserStake { last_update_ts: i64::MIN, ..user_stake() };
    assert!(!staking(pool(), early).times_are_in_range(5, at(110)));
    let empty = UserStake { amount: 0, ..early };
    assert!(staking(pool(), empty).times_are_in_range(5, at(110)));
}

#[test]
fn rewards_are_claimed() {
    let mut ctx = claiming(pool(), user_stake(), 10_000);
    assert_eq!(claim_rewards(&mut ctx, Progress::start()), Ok(Next::ReadClock));
    assert_eq!(
        claim_rewards(&mut ctx, at(110)),
        Ok(Next::Transfer(TokenTransfer {
            from: key(REWARD_VAULT),
            to: key(USER_REWARDS),
            authority: key(POOL),
            amount: 3_011,
            signer: signer(),
        }))
    );
    assert_eq!(ctx, claiming(pool(), user_stake(), 10_000));
    assert_eq!(
        claim_rewards(&mut ctx, paid_at(110)),
        Ok(Next::Done(RewardsClaimed { user: key(USER), amount: 3_011 }))
    );
    let expected = UserStake { rewards_earned: 0, last_update_ts: 110, ..user_stake() };
    assert_eq!(ctx, claiming(pool(), expected, 10_000));

    // There is nothing left to claim
    assert_eq!(claim_rewards(&mut ctx, at(110)), Err(StakingError::NoRewards));
    assert_eq!(ctx, claiming(pool(), expected, 10_000));
}

#[test]
fn claiming_is_refused() {
    let paused = Pool { is_paused: true, ..pool() };
    let mut ctx = claiming(paused, user_stake(), 10_000);
    assert_eq!(claim_rewards(&mut ctx, Progress::start()), Err(StakingError::PoolPaused));

    let mut ctx = claiming(pool(), user_stake(), 3_010);
    assert_eq!(claim_rewards(&mut ctx, at(110)), Err(StakingError::InsufficientRewards));
    let mut ctx = claiming(pool(), user_stake(), 3_011);
    assert!(matches!(claim_rewards(&mut ctx, at(110)), Ok(Next::Transfer(_))));

    let mut ctx = claiming(pool(), UserStake::default(), 10_000);
    assert_eq!(claim_rewards(&mut ctx, at(110)), Err(StakingError::NoRewards));

    let full = UserStake { rewards_earned: u64::MAX, ..user_stake() };
    let mut ctx = claiming(pool(), full, 10_000);
    assert_eq!(claim_rewards(&mut ctx, at(110)), Err(StakingError::MathOverflow));
    assert_eq!(ctx, claiming(pool(), full, 10_000));
}

#[test]
fn claiming_times_are_told() {
    let early = UserStake { last_update_ts: -1, ..user_stake() };
    let ctx = claiming(pool(), early, 10_000);
    assert!(ctx.times_are_in_range(Progress::start()));
    assert!(ctx.times_are_in_range(at(110)));
    assert!(!ctx.times_are_in_range(at(i64::MAX)));
    let paused = Pool { is_paused: true, ..pool() };
    assert!(claiming(paused, early, 10_000).times_are_in_range(at(i64::MAX)));
}

#[test]
fn part_of_a_stake_is_taken_out() {
    let mut ctx = unstaking(pool(), user_stake());
    assert_eq!(unstake(&mut ctx, 100, Progress::start()), Ok(Next::ReadClock));
    assert_eq!(
        unstake(&mut ctx, 100, at(100_000)),
        Ok(Next::Transfer(TokenTransfer {
            from: key(STAKE_VAULT),
            to: key(USER_TOKENS),
            authority: key(POOL),
            amount: 100,
            signer: signer(),
        }))
    );
    assert_eq!(ctx, unstaking(pool(), user_stake()));
    assert_eq!(
        unstake(&mut ctx, 100, paid_at(100_000)),
        Ok(Next::Done(Unstaked { user: key(USER), amount: 100, remaining: 200 }))
    );
    // 300 staked over 99_900 seconds, and 11 from before
    let expected = UserStake {
        amount: 200,
        last_update_ts: 100_000,
        rewards_earned: 29_970_011,
        ..user_stake()
    };
    assert_eq!(ctx, unstaking(Pool { total_staked: 4_900, ..pool() }, expected));
}

#[test]
fn unstaking_is_refused() {
    let paused = Pool { is_paused: true, ..pool() };
    let mut ctx = unstaking(paused, user_stake());
    assert_eq!(unstake(&mut ctx, 0, Progress::start()), Err(StakingError::PoolPaused));

    let mut ctx = unstaking(pool(), user_stake());
    assert_eq!(unstake(&mut ctx, 0, Progress::start()), Err(StakingError::ZeroAmount));
    // Too much is noticed before the lock
    assert_eq!(unstake(&mut ctx, 301, Progress::start()), Ok(Next::ReadClock));
    assert_eq!(unstake(&mut ctx, 301, at(110)), Err(StakingError::InsufficientStake));
    assert_eq!(unstake(&mut ctx, 300, at(99_999)), Err(StakingError::StillLocked));
    assert_eq!(ctx, unstaking(pool(), user_stake()));
    assert!(matches!(unstake(&mut ctx, 300, at(100_000)), Ok(Next::Transfer(_))));

    let full = UserStake { rewards_earned: u64::MAX, ..user_stake() };
    let mut ctx = unstaking(pool(), full);
    assert_eq!(unstake(&mut ctx, 300, at(100_000)), Err(StakingError::MathOverflow));

    let short = Pool { total_staked: 299, ..pool() };
    let mut ctx = unstaking(short, user_stake());
    assert_eq!(unstake(&mut ctx, 300, at(100_000)), Err(StakingError::MathOverflow));
    assert_eq!(ctx, unstaking(short, user_stake()));
}

#[test]
fn without_a_lock_period_nothing_is_locked() {
    let open = Pool { lock_period: 0, ..pool() };
    let mut ctx = unstaking(open, user_stake());
    assert!(matches!(unstake(&mut ctx, 300, paid_at(110)), Ok(Next::Done(_))));
}

#[test]
fn unstaking_times_are_told() {
    let early = UserStake { last_update_ts: i64::MIN, ..user_stake() };
    let ctx = unstaking(pool(), early);
    assert!(ctx.times_are_in_range(300, Progress::start()));
    assert!(!ctx.times_are_in_range(300, at(100_000)));
    // Refused before any time is computed
    assert!(ctx.times_are_in_range(301, at(100_000)));
    assert!(ctx.times_are_in_range(0, at(100_000)));
    assert!(ctx.times_are_in_range(300, at(99_999)));
}

#[test]
fn stake_is_locked_and_then_taken_out_whole() {
    let mut ctx = staking(pool(), UserStake::default());
    assert!(matches!(stake(&mut ctx, 253, 200, paid_at(1_000)), Ok(Next::Done(_))));
    let mut out = unstaking(ctx.pool.data, ctx.user_stake.data);
    assert_eq!(unstake(&mut out, 1, at(87_399)), Err(StakingError::StillLocked));
    assert_eq!(
        unstake(&mut out, 200, paid_at(87_400)),
        Ok(Next::Done(Unstaked { user: key(USER), amount: 200, remaining: 0 }))
    );
    assert_eq!(out.pool.data, pool());
    assert_eq!(out.user_stake.data.amount, 0);
    assert_eq!(out.user_stake.data.stake_ts, 1_000);

    // The rewards wait for a claim
    let mut claim = claiming(out.pool.data, out.user_stake.data, u64::MAX);
    assert_eq!(
        claim_rewards(&mut claim, paid_at(90_000)),
        Ok(Next::Done(RewardsClaimed { user: key(USER), amount: 17_280_000 }))
    );
}

#[test]
fn staking_and_unstaking_keep_rewards() {
    let mut ctx = staking(pool(), user_stake());
    assert!(matches!(stake(&mut ctx, 253, 200, paid_at(110)), Ok(Next::Done(_))));
    let mut claim = claiming(ctx.pool.data, ctx.user_stake.data, u64::MAX);
    assert_eq!(
        claim_rewards(&mut claim, paid_at(110)),
        Ok(Next::Done(RewardsClaimed { user: key(USER), amount: 3_011 }))
    );
}

#[test]
fn total_is_the_sum_of_the_stakes() {
    let fresh = Pool { total_staked: 0, lock_period: 0, ..pool() };
    let mut first = staking(fresh, UserStake::default());
    assert!(matches!(stake(&mut first, 1, 70, paid_at(10)), Ok(Next::Done(_))));
    let mut second = staking(first.pool.data, UserStake::default());
    assert!(matches!(stake(&mut second, 2, 30, paid_at(11)), Ok(Next::Done(_))));
    assert_eq!(second.pool.data.total_staked, 100);
    let mut out = unstaking(second.pool.data, first.user_stake.data);
    assert!(matches!(unstake(&mut out, 50, paid_at(12)), Ok(Next::Done(_))));
    assert_eq!(out.user_stake.data.amount + second.user_stake.data.amount, 50);
    assert_eq!(out.pool.data.total_staked, 50);
}

#[test]
fn admin_changes_settings() {
    let mut ctx = administering(ADMIN);
    assert_eq!(set_paused(&mut ctx, true), Ok(PauseToggled { paused: true }));
    assert_eq!(ctx.pool, account(POOL, Pool { is_paused: true, ..pool() }));
    assert_eq!(set_paused(&mut ctx, false), Ok(PauseToggled { paused: false }));
    assert_eq!(ctx, administering(ADMIN));

    assert_eq!(set_reward_rate(&mut ctx, 5), Ok(RewardRateUpdated { new_rate: 5 }));
    assert_eq!(ctx.pool, account(POOL, Pool { reward_rate: 5, ..pool() }));

    let mut ctx = administering(ADMIN);
    assert_eq!(set_lock_period(&mut ctx, 0), Ok(LockPeriodUpdated { new_lock_period: 0 }));
    assert_eq!(ctx.pool, account(POOL, Pool { lock_period: 0, ..pool() }));
    assert_eq!(set_lock_period(&mut ctx, -1), Err(StakingError::InvalidLockPeriod));
    assert_eq!(ctx.pool, account(POOL, Pool { lock_period: 0, ..pool() }));
}

#[test]
fn others_change_nothing() {
    let mut ctx = administering(USER);
    assert_eq!(set_paused(&mut ctx, true), Err(StakingError::Unauthorized));
    assert_eq!(set_reward_rate(&mut ctx, 5), Err(StakingError::Unauthorized));
    assert_eq!(set_lock_period(&mut ctx, 5), Err(StakingError::Unauthorized));
    assert_eq!(set_lock_period(&mut ctx, -1), Err(StakingError::Unauthorized));
    assert_eq!(ctx, administering(USER));
    let mut ctx = TransferAdmin { admin: key(USER), pool: account(POOL, pool()) };
    assert_eq!(transfer_admin(&mut ctx, key(USER)), Err(StakingError::Unauthorized));
    assert_eq!(ctx.pool, account(POOL, pool()));
}

#[test]
fn pool_is_handed_on() {
    let mut ctx = TransferAdmin { admin: key(ADMIN), pool: account(POOL, pool()) };
    assert_eq!(
        transfer_admin(&mut ctx, key(USER)),
        Ok(AdminTransferred { new_admin: key(USER) })
    );
    assert_eq!(ctx.pool, account(POOL, Pool { admin: key(USER), ..pool() }));
    // The old admin has no say any more
    assert_eq!(transfer_admin(&mut ctx, key(ADMIN)), Err(StakingError::Unauthorized));
}
