use token_staking::rewards::{claimable_rewards, elapsed_is_in_range};
use token_staking::{calculate_pending_rewards, UserStake};

#[test]
fn rewards_follow_the_formula() {
    // 1_000 staked, one token per second and staked token, 60 seconds
    assert_eq!(calculate_pending_rewards(1_000, 100, 160, 1_000_000_000), 60_000);
    // 5_000_000 * 250 * 86_400 / 1e9 = 108_000
    assert_eq!(calculate_pending_rewards(5_000_000, 1_700_000_000, 1_700_086_400, 250), 108_000);
}

#[test]
fn rewards_are_rounded_down() {
    assert_eq!(calculate_pending_rewards(1, 10, 11, 999_999_999), 0);
    assert_eq!(calculate_pending_rewards(1, 10, 12, 999_999_999), 1);
    assert_eq!(calculate_pending_rewards(3, 10, 11, 500_000_000), 1);
}

#[test]
fn stake_that_was_never_settled_earns_nothing() {
    assert_eq!(calculate_pending_rewards(1_000, 0, 1_000, 1_000_000_000), 0);
}

#[test]
fn time_that_does_not_pass_earns_nothing() {
    assert_eq!(calculate_pending_rewards(1_000, 500, 500, 1_000_000_000), 0);
    assert_eq!(calculate_pending_rewards(1_000, 500, 499, 1_000_000_000), 0);
    assert_eq!(calculate_pending_rewards(1_000, i64::MAX, i64::MIN, 1_000_000_000), 0);
}

#[test]
fn empty_stake_and_zero_rate_earn_nothing() {
    assert_eq!(calculate_pending_rewards(0, 1, 1_000, u64::MAX), 0);
    assert_eq!(calculate_pending_rewards(u64::MAX, 1, 1_000, 0), 0);
}

#[test]
fn rewards_stop_at_the_largest_number() {
    // More than a u64 holds
    assert_eq!(calculate_pending_rewards(u64::MAX, 1, 3, 1_000_000_000), u64::MAX);
    // The product is more than a u128 holds
    assert_eq!(calculate_pending_rewards(u64::MAX, 1, i64::MAX, u64::MAX), u64::MAX);
    // Just fits
    assert_eq!(calculate_pending_rewards(u64::MAX, 1, 2, 1_000_000_000), u64::MAX);
    assert_eq!(calculate_pending_rewards(u64::MAX - 1, 1, 2, 1_000_000_000), u64::MAX - 1);
}

#[test]
fn time_before_the_epoch_counts() {
    assert_eq!(calculate_pending_rewards(10, -20, 30, 1_000_000_000), 500);
}

#[test]
fn more_stake_rate_or_time_never_earns_less() {
    let base = calculate_pending_rewards(700, 5, 1_005, 123_456_789);
    assert_eq!(base, 86_419);
    assert!(calculate_pending_rewards(701, 5, 1_005, 123_456_789) >= base);
    assert!(calculate_pending_rewards(700, 5, 1_006, 123_456_789) >= base);
    assert!(calculate_pending_rewards(700, 5, 1_005, 123_456_790) >= base);
}

#[test]
fn settling_in_between_gains_nothing() {
    let once = calculate_pending_rewards(1, 10, 20, 150_000_000);
    let first = calculate_pending_rewards(1, 10, 15, 150_000_000);
    let second = calculate_pending_rewards(1, 15, 20, 150_000_000);
    assert_eq!((once, first, second), (1, 0, 0));
}

#[test]
fn claimable_adds_what_is_kept() {
    let mut user_stake = UserStake::default();
    user_stake.amount = 1_000;
    user_stake.last_update_ts = 100;
    user_stake.rewards_earned = 7;
    assert_eq!(claimable_rewards(&user_stake, 1_000_000_000, 160), Some(60_007));
    assert_eq!(claimable_rewards(&user_stake, 1_000_000_000, 100), Some(7));
    user_stake.rewards_earned = u64::MAX;
    assert_eq!(claimable_rewards(&user_stake, 1_000_000_000, 160), None);
    assert_eq!(claimable_rewards(&user_stake, 0, 160), Some(u64::MAX));
}

#[test]
fn elapsed_range_is_told() {
    assert!(elapsed_is_in_range(0, i64::MAX));
    assert!(elapsed_is_in_range(1, i64::MAX));
    assert!(elapsed_is_in_range(i64::MAX, i64::MIN));
    assert!(elapsed_is_in_range(-1, i64::MAX - 1));
    assert!(!elapsed_is_in_range(-1, i64::MAX));
    assert!(!elapsed_is_in_range(i64::MIN, 0));
}
