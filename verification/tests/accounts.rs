use token_staking::{
    initialize_pool, pool_address, process_claim_rewards, process_fund_rewards,
    process_initialize_pool, process_stake, process_unstake, stake, user_stake_address,
    user_stake_address_with_bump, Account, AdminOnly, ClaimRewards, ConstraintError, FundRewards,
    InitializePool, Next, Pool, PoolInitialized, PoolSigner, Progress, Pubkey, Refusal,
    RewardsClaimed, RewardsFunded, Stake, Staked, StakingError, TokenAccount, TransferAdmin,
    Unstake, Unstaked, UserStake,
};

const PROGRAM: u8 = 100;

fn key(n: u8) -> Pubkey {
    Pubkey { bytes: [n; 32] }
}

fn outside(key: &Pubkey) -> anchor_lang::prelude::Pubkey {
    anchor_lang::prelude::Pubkey::new_from_array(key.bytes)
}

fn tokens(n: u8, mint: Pubkey, owner: Pubkey) -> Account<TokenAccount> {
    Account { key: key(n), data: TokenAccount { mint, owner, amount: 1_000 } }
}

fn a_pool() -> Account<Pool> {
    let mut data = Pool::default();
    data.admin = key(1);
    data.stake_mint = key(2);
    data.reward_mint = key(3);
    data.reward_vault = key(5);
    Account { key: key(4), data }
}

/// The stake of user 7, at its address.
fn a_stake() -> Account<UserStake> {
    let (address, bump) = user_stake_address(&key(4), &key(7), &key(PROGRAM)).unwrap();
    let mut data = UserStake::default();
    data.owner = key(7);
    data.bump = bump;
    Account { key: address, data }
}

fn a_claim() -> ClaimRewards {
    ClaimRewards {
        user: key(7),
        pool: a_pool(),
        user_stake: a_stake(),
        reward_vault: tokens(5, key(3), key(4)),
        user_reward_account: tokens(10, key(3), key(7)),
    }
}

fn an_unstake() -> Unstake {
    Unstake {
        user: key(7),
        pool: a_pool(),
        user_stake: a_stake(),
        user_token_account: tokens(9, key(2), key(7)),
        stake_vault: tokens(6, key(2), key(4)),
    }
}

fn a_staking() -> Stake {
    Stake {
        user: key(7),
        pool: a_pool(),
        user_stake: a_stake(),
        user_token_account: tokens(9, key(2), key(7)),
        stake_vault: tokens(6, key(2), key(4)),
    }
}

fn a_setup() -> InitializePool {
    let (address, _) = pool_address(&key(2), &key(PROGRAM)).unwrap();
    InitializePool {
        admin: key(1),
        stake_mint: key(2),
        reward_mint: key(3),
        pool: Account { key: address, data: Pool::default() },
        reward_vault: tokens(5, key(3), address),
        stake_vault: tokens(6, key(2), address),
    }
}

const RAW: Result<(), ConstraintError> = Err(ConstraintError::ConstraintRaw);
const SEEDS: Result<(), ConstraintError> = Err(ConstraintError::ConstraintSeeds);

#[test]
fn pool_address_is_derived_from_the_token() {
    let (address, bump) = pool_address(&key(2), &key(PROGRAM)).unwrap();
    let expected = anchor_lang::prelude::Pubkey::find_program_address(
        &[b"pool", key(2).bytes.as_ref()],
        &outside(&key(PROGRAM)),
    );
    assert_eq!((outside(&address), bump), expected);
    assert_ne!(pool_address(&key(3), &key(PROGRAM)), Some((address, bump)));
    assert_ne!(pool_address(&key(2), &key(101)), Some((address, bump)));
}

#[test]
fn stake_address_is_derived_from_pool_and_user() {
    let (address, bump) = user_stake_address(&key(4), &key(7), &key(PROGRAM)).unwrap();
    let expected = anchor_lang::prelude::Pubkey::find_program_address(
        &[b"user_stake", key(4).bytes.as_ref(), key(7).bytes.as_ref()],
        &outside(&key(PROGRAM)),
    );
    assert_eq!((outside(&address), bump), expected);
    assert_eq!(
        user_stake_address_with_bump(&key(4), &key(7), bump, &key(PROGRAM)),
        Ok(address)
    );
    assert_ne!(user_stake_address(&key(7), &key(4), &key(PROGRAM)), Some((address, bump)));
}

#[test]
fn bumps_that_lead_nowhere_are_refused() {
    let mut refused = 0;
    for bump in 0..=255u8 {
        let expected = anchor_lang::prelude::Pubkey::create_program_address(
            &[b"user_stake", key(4).bytes.as_ref(), key(7).bytes.as_ref(), &[bump]],
            &outside(&key(PROGRAM)),
        );
        let derived = user_stake_address_with_bump(&key(4), &key(7), bump, &key(PROGRAM));
        match expected {
            Ok(address) => assert_eq!(derived.map(|key| outside(&key)), Ok(address)),
            Err(_) => {
                assert_eq!(derived, Err(ConstraintError::ConstraintSeeds));
                refused += 1;
            }
        }
    }
    assert!(refused > 0);
}

#[test]
fn pool_signs_for_its_address() {
    let mut setup = a_setup();
    let bump = setup.validate(&key(PROGRAM)).unwrap().unwrap();
    initialize_pool(&mut setup, bump, 1, 0).unwrap();
    let pool = setup.pool;
    let signer = PoolSigner { stake_mint: pool.data.stake_mint, bump: pool.data.bump };
    let seeds = signer.seeds();
    assert_eq!(seeds, vec![b"pool".to_vec(), vec![2; 32], vec![bump]]);
    let parts: Vec<&[u8]> = seeds.iter().map(|seed| seed.as_slice()).collect();
    let signed_for = anchor_lang::prelude::Pubkey::create_program_address(
        &parts,
        &outside(&key(PROGRAM)),
    );
    assert_eq!(signed_for, Ok(outside(&pool.key)));
}

#[test]
fn pool_has_to_be_at_its_address() {
    let setup = a_setup();
    let (_, bump) = pool_address(&key(2), &key(PROGRAM)).unwrap();
    assert_eq!(setup.validate(&key(PROGRAM)), Some(Ok(bump)));
    assert_eq!(setup.validate(&key(101)), Some(Err(ConstraintError::ConstraintSeeds)));
    assert_eq!(setup.check(&setup.pool.key, 9), Ok(9));
    assert_eq!(setup.check(&key(9), 9), Err(ConstraintError::ConstraintSeeds));
}

#[test]
fn funding_accounts_have_to_match() {
    let fund = FundRewards {
        funder: key(7),
        pool: a_pool(),
        funder_reward_account: tokens(10, key(3), key(7)),
        reward_vault: tokens(5, key(3), key(4)),
    };
    assert_eq!(fund.validate(), Ok(()));
    let other_mint = FundRewards {
        funder_reward_account: tokens(10, key(2), key(7)),
        pool: a_pool(),
        reward_vault: tokens(5, key(3), key(4)),
        ..fund
    };
    assert_eq!(other_mint.validate(), RAW);
    let other_owner = FundRewards {
        funder_reward_account: tokens(10, key(3), key(8)),
        pool: a_pool(),
        reward_vault: tokens(5, key(3), key(4)),
        ..other_mint
    };
    assert_eq!(other_owner.validate(), RAW);
    let other_vault = FundRewards {
        funder_reward_account: tokens(10, key(3), key(7)),
        pool: a_pool(),
        reward_vault: tokens(6, key(3), key(4)),
        ..other_owner
    };
    assert_eq!(other_vault.validate(), RAW);
}

#[test]
fn staking_accounts_have_to_match() {
    let ctx = a_staking();
    let bump = ctx.user_stake.data.bump;
    assert_eq!(ctx.validate(&key(PROGRAM)), Some(Ok(bump)));
    assert_eq!(ctx.validate(&key(101)), Some(Err(ConstraintError::ConstraintSeeds)));
    let at = ctx.user_stake.key;
    let raw = Err(ConstraintError::ConstraintRaw);

    let mut ctx = a_staking();
    ctx.user_token_account.data.mint = key(3);
    assert_eq!(ctx.check(&at, 9), raw);
    // The address is looked at first
    assert_eq!(ctx.check(&key(9), 9), Err(ConstraintError::ConstraintSeeds));
    let mut ctx = a_staking();
    ctx.user_token_account.data.owner = key(8);
    assert_eq!(ctx.check(&at, 9), raw);
    let mut ctx = a_staking();
    ctx.stake_vault.data.mint = key(3);
    assert_eq!(ctx.check(&at, 9), raw);
    let mut ctx = a_staking();
    ctx.stake_vault.data.owner = key(8);
    assert_eq!(ctx.check(&at, 9), raw);
    assert_eq!(a_staking().check(&at, 9), Ok(9));
}

#[test]
fn claiming_accounts_have_to_match() {
    let program = key(PROGRAM);
    assert_eq!(a_claim().validate(&program), Ok(()));
    assert_eq!(a_claim().validate(&key(101)), SEEDS);
    let mut ctx = a_claim();
    ctx.user_stake.key = key(8);
    assert_eq!(ctx.validate(&program), SEEDS);
    let mut ctx = a_claim();
    ctx.user = key(8);
    assert_eq!(ctx.validate(&program), SEEDS);
    let mut ctx = a_claim();
    ctx.user_stake.data.owner = key(8);
    assert_eq!(ctx.validate(&program), RAW);
    let mut ctx = a_claim();
    ctx.reward_vault.key = key(6);
    assert_eq!(ctx.validate(&program), RAW);
    let mut ctx = a_claim();
    ctx.user_reward_account.data.mint = key(2);
    assert_eq!(ctx.validate(&program), RAW);
    let mut ctx = a_claim();
    ctx.user_reward_account.data.owner = key(8);
    assert_eq!(ctx.validate(&program), RAW);
    assert_eq!(ctx.check(&Err(ConstraintError::ConstraintSeeds)), SEEDS);
}

#[test]
fn unstaking_accounts_have_to_match() {
    let program = key(PROGRAM);
    assert_eq!(an_unstake().validate(&program), Ok(()));
    assert_eq!(an_unstake().validate(&key(101)), SEEDS);
    let mut ctx = an_unstake();
    ctx.user_stake.data.bump = ctx.user_stake.data.bump.wrapping_sub(1);
    assert_eq!(ctx.validate(&program), SEEDS);
    let mut ctx = an_unstake();
    ctx.user_stake.data.owner = key(8);
    assert_eq!(ctx.validate(&program), RAW);
    let mut ctx = an_unstake();
    ctx.user_token_account.data.mint = key(3);
    assert_eq!(ctx.validate(&program), RAW);
    let mut ctx = an_unstake();
    ctx.user_token_account.data.owner = key(8);
    assert_eq!(ctx.validate(&program), RAW);
    let mut ctx = an_unstake();
    ctx.stake_vault.data.mint = key(3);
    assert_eq!(ctx.validate(&program), RAW);
    let mut ctx = an_unstake();
    ctx.stake_vault.data.owner = key(8);
    assert_eq!(ctx.validate(&program), RAW);
    assert_eq!(ctx.check(&Err(ConstraintError::ConstraintSeeds)), SEEDS);
}

#[test]
fn stake_is_found_again() {
    let mut ctx = a_staking();
    ctx.user_stake.data = UserStake::default();
    let bump = ctx.validate(&key(PROGRAM)).unwrap().unwrap();
    let progress = Progress { now: Some(10), transferred: true };
    assert!(matches!(stake(&mut ctx, bump, 5, progress), Ok(Next::Done(_))));
    let mut claim = a_claim();
    claim.user_stake = ctx.user_stake;
    assert_eq!(claim.validate(&key(PROGRAM)), Ok(()));

    // And again, after part of it was taken out and rewards were claimed
    let mut out = an_unstake();
    out.pool.data = ctx.pool.data;
    out.user_stake = claim.user_stake;
    assert!(matches!(
        process_unstake(&mut out, &key(PROGRAM), 2, finished(20)),
        Some(Ok(Next::Done(_)))
    ));
    claim.user_stake = out.user_stake;
    claim.user_stake.data.rewards_earned = 1;
    assert!(matches!(
        process_claim_rewards(&mut claim, &key(PROGRAM), finished(20)),
        Some(Ok(Next::Done(_)))
    ));
    assert_eq!(claim.validate(&key(PROGRAM)), Ok(()));
    assert_eq!(claim.user_stake.data.bump, bump);
}

#[test]
fn only_the_admin_is_let_in() {
    assert_eq!(AdminOnly { admin: key(1), pool: a_pool() }.validate(), Ok(()));
    assert_eq!(
        AdminOnly { admin: key(7), pool: a_pool() }.validate(),
        Err(StakingError::Unauthorized)
    );
    assert_eq!(TransferAdmin { admin: key(1), pool: a_pool() }.validate(), Ok(()));
    assert_eq!(
        TransferAdmin { admin: key(7), pool: a_pool() }.validate(),
        Err(StakingError::Unauthorized)
    );
}

fn finished(now: i64) -> Progress {
    Progress { now: Some(now), transferred: true }
}

const WRONG_ACCOUNT: Refusal = Refusal::Accounts(ConstraintError::ConstraintRaw);
const WRONG_ADDRESS: Refusal = Refusal::Accounts(ConstraintError::ConstraintSeeds);

#[test]
fn found_bump_is_the_highest() {
    let (address, bump) = user_stake_address(&key(4), &key(7), &key(PROGRAM)).unwrap();
    let at = |bump: u8| user_stake_address_with_bump(&key(4), &key(7), bump, &key(PROGRAM));
    assert_eq!(at(bump), Ok(address));
    for higher in bump..255 {
        assert_eq!(at(higher + 1), Err(ConstraintError::ConstraintSeeds));
    }
}

#[test]
fn setup_stores_the_derived_bump() {
    let mut setup = a_setup();
    let (address, bump) = pool_address(&key(2), &key(PROGRAM)).unwrap();
    assert_eq!(
        process_initialize_pool(&mut setup, &key(PROGRAM), 8, 9),
        Some(Ok(PoolInitialized {
            admin: key(1),
            stake_mint: key(2),
            reward_rate: 8,
            lock_period: 9,
        }))
    );
    assert_eq!((setup.pool.key, setup.pool.data.bump), (address, bump));
    assert_eq!(setup.pool.data.reward_vault, key(5));

    let mut setup = a_setup();
    setup.pool.key = key(4);
    assert_eq!(
        process_initialize_pool(&mut setup, &key(PROGRAM), 8, 9),
        Some(Err(WRONG_ADDRESS))
    );
    assert_eq!(setup.pool.data, Pool::default());
}

#[test]
fn funding_is_processed() {
    let mut fund = FundRewards {
        funder: key(7),
        pool: a_pool(),
        funder_reward_account: tokens(10, key(3), key(7)),
        reward_vault: tokens(5, key(3), key(4)),
    };
    let done = Progress { now: None, transferred: true };
    assert_eq!(
        process_fund_rewards(&fund, 6, done),
        Ok(Next::Done(RewardsFunded { funder: key(7), amount: 6 }))
    );
    assert_eq!(
        process_fund_rewards(&fund, 0, done),
        Err(Refusal::Rule(StakingError::ZeroAmount))
    );
    fund.funder = key(8);
    assert_eq!(process_fund_rewards(&fund, 0, done), Err(WRONG_ACCOUNT));
}

#[test]
fn staking_is_processed() {
    let program = key(PROGRAM);
    let mut ctx = a_staking();
    let bump = ctx.user_stake.data.bump;
    ctx.user_stake.data = UserStake::default();
    assert_eq!(
        process_stake(&mut ctx, &program, 5, Progress::start()),
        Some(Ok(Next::ReadClock))
    );
    assert_eq!(
        process_stake(&mut ctx, &program, 5, finished(10)),
        Some(Ok(Next::Done(Staked { user: key(7), amount: 5, total_staked: 5 })))
    );
    assert_eq!(ctx.user_stake.data.bump, bump);
    assert_eq!(ctx.pool.data.total_staked, 5);

    assert_eq!(
        process_stake(&mut ctx, &program, 0, finished(10)),
        Some(Err(Refusal::Rule(StakingError::ZeroAmount)))
    );
    // The accounts are looked at first
    ctx.pool.data.is_paused = true;
    assert_eq!(process_stake(&mut ctx, &key(101), 5, finished(10)), Some(Err(WRONG_ADDRESS)));
    ctx.stake_vault.data.owner = key(8);
    assert_eq!(process_stake(&mut ctx, &program, 5, finished(10)), Some(Err(WRONG_ACCOUNT)));

    // A time of unlocking that does not fit
    let mut ctx = a_staking();
    ctx.pool.data.lock_period = i64::MAX;
    assert_eq!(process_stake(&mut ctx, &program, 5, finished(10)), None);
    assert_eq!(ctx.pool.data.total_staked, 0);
}

#[test]
fn claiming_is_processed() {
    let program = key(PROGRAM);
    let mut ctx = a_claim();
    ctx.user_stake.data.rewards_earned = 12;
    assert_eq!(
        process_claim_rewards(&mut ctx, &program, finished(10)),
        Some(Ok(Next::Done(RewardsClaimed { user: key(7), amount: 12 })))
    );
    assert_eq!(ctx.user_stake.data.rewards_earned, 0);
    // Nothing more, now or before
    for again in [10, 9, -5] {
        assert_eq!(
            process_claim_rewards(&mut ctx, &program, finished(again)),
            Some(Err(Refusal::Rule(StakingError::NoRewards)))
        );
    }
    ctx.user_stake.data.last_update_ts = i64::MIN;
    assert_eq!(process_claim_rewards(&mut ctx, &program, finished(10)), None);
    ctx.user_reward_account.data.owner = key(8);
    assert_eq!(
        process_claim_rewards(&mut ctx, &program, finished(10)),
        Some(Err(WRONG_ACCOUNT))
    );
    assert_eq!(
        process_claim_rewards(&mut ctx, &key(101), finished(10)),
        Some(Err(WRONG_ADDRESS))
    );
}

#[test]
fn unstaking_is_processed() {
    let program = key(PROGRAM);
    let mut ctx = an_unstake();
    ctx.pool.data.total_staked = 9;
    ctx.user_stake.data.amount = 9;
    assert_eq!(
        process_unstake(&mut ctx, &program, 4, finished(10)),
        Some(Ok(Next::Done(Unstaked { user: key(7), amount: 4, remaining: 5 })))
    );
    assert_eq!(ctx.pool.data.total_staked, 5);
    assert_eq!(
        process_unstake(&mut ctx, &program, 6, finished(10)),
        Some(Err(Refusal::Rule(StakingError::InsufficientStake)))
    );
    ctx.user_stake.data.last_update_ts = i64::MIN;
    assert_eq!(process_unstake(&mut ctx, &program, 5, finished(10)), None);
    assert_eq!(ctx.user_stake.data.amount, 5);
    ctx.user_stake.data.owner = key(8);
    assert_eq!(process_unstake(&mut ctx, &program, 5, finished(10)), Some(Err(WRONG_ACCOUNT)));
    assert_eq!(
        process_unstake(&mut ctx, &key(101), 5, finished(10)),
        Some(Err(WRONG_ADDRESS))
    );
}
