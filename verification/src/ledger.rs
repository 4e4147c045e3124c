//! A pool with all its stakes, and what every instruction keeps of it.

use crate::accounts::{
    AdminOnly, ClaimRewards, FundRewards, InitializePool, Stake, TransferAdmin, Unstake,
};
use crate::error::StakingError;
use crate::event::{
    AdminTransferred, LockPeriodUpdated, PauseToggled, RewardRateUpdated, RewardsClaimed,
    RewardsFunded, Staked, Unstaked,
};
use crate::instruction;
use crate::key::Pubkey;
use crate::progress::{Next, Progress};
use crate::rewards;
use crate::state::{Account, Pool, UserStake};
use vstd::prelude::*;

verus! {

/// A pool and the stakes in it.
pub struct Ledger {
    pub pool: Account<Pool>,
    pub stakes: Seq<UserStake>,
}

/// A request, with the clock's reply. Stakes go by their place in the ledger.
pub enum Request {
    /// A blank stake is added, for a user about to stake for the first time.
    Open { user_stake: UserStake },
    FundRewards { amount: u64 },
    Stake { place: int, user: Pubkey, bump: u8, amount: u64, now: i64 },
    ClaimRewards { place: int, vault_amount: u64, now: i64 },
    Unstake { place: int, amount: u64, now: i64 },
    SetPaused { admin: Pubkey, paused: bool },
    SetRewardRate { admin: Pubkey, new_rate: u64 },
    SetLockPeriod { admin: Pubkey, new_lock_period: i64 },
    TransferAdmin { admin: Pubkey, new_admin: Pubkey },
}

/// All replies are there.
pub open spec fn finished(now: i64) -> Progress {
    Progress { now: Some(now), transferred: true }
}

/// The ledger of a pool that was just set up.
pub open spec fn new_ledger(
    setup: InitializePool,
    bump: u8,
    reward_rate: u64,
    lock_period: i64,
) -> Ledger {
    Ledger {
        pool: Account {
            key: setup.pool.key,
            data: instruction::new_pool(setup, bump, reward_rate, lock_period),
        },
        stakes: Seq::empty(),
    }
}

/// What is staked in all.
pub open spec fn staked_sum(stakes: Seq<UserStake>) -> int
    decreases stakes.len(),
{
    if stakes.len() == 0 {
        0
    } else {
        staked_sum(stakes.drop_last()) + stakes.last().amount
    }
}

impl Ledger {
    /// The pool's total is what its users have staked.
    pub open spec fn is_balanced(self) -> bool {
        self.pool.data.total_staked == staked_sum(self.stakes)
    }

    pub open spec fn has(self, place: int) -> bool {
        0 <= place < self.stakes.len()
    }

    pub open spec fn with_pool(self, data: Pool) -> Ledger {
        Ledger { pool: Account { key: self.pool.key, data }, ..self }
    }

    pub open spec fn with_stake(self, place: int, user_stake: UserStake) -> Ledger {
        Ledger { stakes: self.stakes.update(place, user_stake), ..self }
    }

    /// The request is carried out.
    pub open spec fn accepts(self, request: Request) -> bool {
        let pool = self.pool.data;
        match request {
            Request::Open { user_stake } => !pool.is_paused && user_stake.is_blank(),
            Request::FundRewards { amount } => instruction::fund_refusal(pool, amount) is None,
            Request::Stake { place, user, bump, amount, now } => {
                &&& self.has(place)
                &&& instruction::stake_times_fit(pool, self.stakes[place], amount, finished(now))
                &&& instruction::stake_refusal(
                    pool,
                    self.stakes[place],
                    amount,
                    finished(now),
                ) is None
            },
            Request::ClaimRewards { place, vault_amount, now } => {
                &&& self.has(place)
                &&& instruction::claim_times_fit(pool, self.stakes[place], finished(now))
                &&& instruction::claim_refusal(
                    pool,
                    self.stakes[place],
                    vault_amount,
                    finished(now),
                ) is None
            },
            Request::Unstake { place, amount, now } => {
                &&& self.has(place)
                &&& instruction::unstake_times_fit(pool, self.stakes[place], amount, finished(now))
                &&& instruction::unstake_refusal(
                    pool,
                    self.stakes[place],
                    amount,
                    finished(now),
                ) is None
            },
            Request::SetPaused { admin, .. } => admin == pool.admin,
            Request::SetRewardRate { admin, .. } => admin == pool.admin,
            Request::SetLockPeriod { admin, new_lock_period } => admin == pool.admin
                && new_lock_period >= 0,
            Request::TransferAdmin { admin, .. } => admin == pool.admin,
        }
    }

    /// The ledger after a request. One that is not carried out changes nothing.
    pub open spec fn after(self, request: Request) -> Ledger {
        let pool = self.pool.data;
        if !self.accepts(request) {
            self
        } else {
            match request {
                Request::Open { user_stake } => Ledger {
                    stakes: self.stakes.push(user_stake),
                    ..self
                },
                Request::FundRewards { .. } => self,
                Request::Stake { place, user, bump, amount, now } => self.with_pool(
                    instruction::pool_after_staking(pool, amount),
                ).with_stake(
                    place,
                    instruction::stake_after_staking(
                        self.pool,
                        self.stakes[place],
                        user,
                        bump,
                        amount,
                        now,
                    ),
                ),
                Request::ClaimRewards { place, vault_amount, now } => self.with_stake(
                    place,
                    instruction::stake_after_claim(self.stakes[place], now),
                ),
                Request::Unstake { place, amount, now } => self.with_pool(
                    instruction::pool_after_unstaking(pool, amount),
                ).with_stake(
                    place,
                    instruction::stake_after_unstaking(pool, self.stakes[place], amount, now),
                ),
                Request::SetPaused { paused, .. } => self.with_pool(
                    instruction::pool_with_pause(pool, paused),
                ),
                Request::SetRewardRate { new_rate, .. } => self.with_pool(
                    instruction::pool_with_reward_rate(pool, new_rate),
                ),
                Request::SetLockPeriod { new_lock_period, .. } => self.with_pool(
                    instruction::pool_with_lock_period(pool, new_lock_period),
                ),
                Request::TransferAdmin { new_admin, .. } => self.with_pool(
                    instruction::pool_with_admin(pool, new_admin),
                ),
            }
        }
    }

    /// The ledger after requests made one after the other.
    pub open spec fn after_all(self, requests: Seq<Request>) -> Ledger
        decreases requests.len(),
    {
        if requests.len() == 0 {
            self
        } else {
            self.after_all(requests.drop_last()).after(requests.last())
        }
    }
}

proof fn lemma_sum_after_update(stakes: Seq<UserStake>, place: int, user_stake: UserStake)
    requires
        0 <= place < stakes.len(),
    ensures
        staked_sum(stakes.update(place, user_stake)) == staked_sum(stakes) - stakes[place].amount
            + user_stake.amount,
    decreases stakes.len(),
{
    let updated = stakes.update(place, user_stake);
    if place == stakes.len() - 1 {
        assert(updated.drop_last() =~= stakes.drop_last());
    } else {
        assert(updated.drop_last() =~= stakes.drop_last().update(place, user_stake));
        lemma_sum_after_update(stakes.drop_last(), place, user_stake);
    }
}

proof fn lemma_sum_bounds_each(stakes: Seq<UserStake>, place: int)
    requires
        0 <= place < stakes.len(),
    ensures
        0 <= stakes[place].amount <= staked_sum(stakes),
    decreases stakes.len(),
{
    lemma_sum_is_not_negative(stakes.drop_last());
    if place != stakes.len() - 1 {
        lemma_sum_bounds_each(stakes.drop_last(), place);
    }
}

proof fn lemma_sum_is_not_negative(stakes: Seq<UserStake>)
    ensures
        0 <= staked_sum(stakes),
    decreases stakes.len(),
{
    if stakes.len() != 0 {
        lemma_sum_is_not_negative(stakes.drop_last());
    }
}

/// A pool that was just set up is balanced.
pub proof fn law_new_pool_is_balanced(
    setup: InitializePool,
    bump: u8,
    reward_rate: u64,
    lock_period: i64,
)
    ensures
        new_ledger(setup, bump, reward_rate, lock_period).is_balanced(),
{
}

/// Whatever is requested, the pool's total stays the sum of what its users
/// have staked.
pub proof fn law_requests_keep_the_balance(ledger: Ledger, requests: Seq<Request>)
    requires
        ledger.is_balanced(),
    ensures
        ledger.after_all(requests).is_balanced(),
    decreases requests.len(),
{
    if requests.len() != 0 {
        law_requests_keep_the_balance(ledger, requests.drop_last());
        lemma_request_keeps_the_balance(ledger.after_all(requests.drop_last()), requests.last());
    }
}

proof fn lemma_request_keeps_the_balance(ledger: Ledger, request: Request)
    requires
        ledger.is_balanced(),
    ensures
        ledger.after(request).is_balanced(),
{
    if ledger.accepts(request) {
        match request {
            Request::Open { user_stake } => {
                assert(ledger.stakes.push(user_stake).drop_last() =~= ledger.stakes);
            },
            Request::Stake { place, .. } => {
                lemma_sum_after_update(ledger.stakes, place, ledger.after(request).stakes[place]);
            },
            Request::ClaimRewards { place, .. } => {
                lemma_sum_after_update(ledger.stakes, place, ledger.after(request).stakes[place]);
            },
            Request::Unstake { place, .. } => {
                lemma_sum_after_update(ledger.stakes, place, ledger.after(request).stakes[place]);
            },
            _ => {},
        }
    }
}

/// In a balanced ledger the pool's total covers every stake, so that taking a
/// stake out never fails for want of it.
pub proof fn law_total_covers_every_stake(ledger: Ledger, place: int)
    requires
        ledger.is_balanced(),
        ledger.has(place),
    ensures
        ledger.stakes[place].amount <= ledger.pool.data.total_staked,
{
    lemma_sum_bounds_each(ledger.stakes, place);
}

/// Requests never move the pool or change its tokens, its reward vault or its
/// bump.
pub proof fn law_requests_keep_the_pool_identity(ledger: Ledger, requests: Seq<Request>)
    ensures
        ({
            let after = ledger.after_all(requests);
            &&& after.pool.key == ledger.pool.key
            &&& after.pool.data.stake_mint == ledger.pool.data.stake_mint
            &&& after.pool.data.reward_mint == ledger.pool.data.reward_mint
            &&& after.pool.data.reward_vault == ledger.pool.data.reward_vault
            &&& after.pool.data.bump == ledger.pool.data.bump
        }),
    decreases requests.len(),
{
    if requests.len() != 0 {
        law_requests_keep_the_pool_identity(ledger, requests.drop_last());
    }
}

/// Who made the request as the admin, if anybody did.
pub open spec fn acting_admin(request: Request) -> Option<Pubkey> {
    match request {
        Request::SetPaused { admin, .. } => Some(admin),
        Request::SetRewardRate { admin, .. } => Some(admin),
        Request::SetLockPeriod { admin, .. } => Some(admin),
        Request::TransferAdmin { admin, .. } => Some(admin),
        _ => None,
    }
}

/// The admin, the reward rate, the lock period and the pause change only at
/// the request of the admin, and such a request leaves the total and all
/// stakes alone.
pub proof fn law_only_the_admin_changes_settings(ledger: Ledger, request: Request)
    ensures
        ({
            let before = ledger.pool.data;
            let after = ledger.after(request).pool.data;
            acting_admin(request) != Some(before.admin) ==> {
                &&& after.admin == before.admin
                &&& after.reward_rate == before.reward_rate
                &&& after.lock_period == before.lock_period
                &&& after.is_paused == before.is_paused
            }
        }),
        acting_admin(request) is Some ==> {
            &&& ledger.after(request).stakes == ledger.stakes
            &&& ledger.after(request).pool.data.total_staked == ledger.pool.data.total_staked
        },
{
}

/// While the pool is paused, nobody but the admin changes anything in it.
pub proof fn law_paused_pool_stands_still(ledger: Ledger, request: Request)
    requires
        ledger.pool.data.is_paused,
    ensures
        acting_admin(request) is None ==> ledger.after(request) == ledger,
{
}

/// The place of the stake that a request is about.
pub open spec fn subject(request: Request) -> Option<int> {
    match request {
        Request::Stake { place, .. } => Some(place),
        Request::ClaimRewards { place, .. } => Some(place),
        Request::Unstake { place, .. } => Some(place),
        _ => None,
    }
}

/// A request leaves every stake alone but the one it is about.
pub proof fn law_other_stakes_are_left_alone(ledger: Ledger, request: Request, place: int)
    requires
        ledger.has(place),
        subject(request) != Some(place),
    ensures
        ledger.after(request).has(place),
        ledger.after(request).stakes[place] == ledger.stakes[place],
{
}

/// The time of the first stake, once set, stays for good.
pub proof fn law_first_stake_time_stays(ledger: Ledger, requests: Seq<Request>, place: int)
    requires
        ledger.has(place),
        ledger.stakes[place].stake_ts != 0,
    ensures
        ledger.after_all(requests).has(place),
        ledger.after_all(requests).stakes[place].stake_ts == ledger.stakes[place].stake_ts,
    decreases requests.len(),
{
    if requests.len() != 0 {
        law_first_stake_time_stays(ledger, requests.drop_last(), place);
    }
}

/// The lock of a stake is set by staking and by nothing else: as long as the
/// stake is not added to, its time of unlocking stays, and while the pool has
/// a lock period every attempt to unstake before it is refused.
pub proof fn law_lock_holds_until_unlocked(
    ledger: Ledger,
    requests: Seq<Request>,
    place: int,
    amount: u64,
    now: i64,
)
    requires
        ledger.has(place),
        forall|i: int|
            0 <= i < requests.len() ==> !(#[trigger] requests[i] is Stake && subject(requests[i])
                == Some(place)),
    ensures
        ({
            let after = ledger.after_all(requests);
            &&& after.has(place)
            &&& after.stakes[place].unlock_ts == ledger.stakes[place].unlock_ts
            &&& after.pool.data.lock_period > 0 && now < ledger.stakes[place].unlock_ts
                ==> !after.accepts(Request::Unstake { place, amount, now })
        }),
    decreases requests.len(),
{
    if requests.len() != 0 {
        let earlier = requests.drop_last();
        assert forall|i: int| 0 <= i < earlier.len() implies !(#[trigger] earlier[i] is Stake
            && subject(earlier[i]) == Some(place)) by {
            assert(earlier[i] == requests[i]);
        }
        law_lock_holds_until_unlocked(ledger, earlier, place, amount, now);
        let last = requests[requests.len() - 1];
        assert(!(last is Stake && subject(last) == Some(place)));
    }
}

/// Rewards that are kept for a user leave the stake by a claim and in no other
/// way.
pub proof fn law_only_a_claim_takes_rewards(ledger: Ledger, request: Request, place: int)
    requires
        ledger.has(place),
        !(request is ClaimRewards && subject(request) == Some(place)),
    ensures
        ledger.after(request).has(place),
        ledger.after(request).stakes[place].rewards_earned >= ledger.stakes[place].rewards_earned,
{
    let user_stake = ledger.stakes[place];
    let reward_rate = ledger.pool.data.reward_rate;
    match request {
        Request::Stake { now, .. } => {
            rewards::lemma_accrual_is_not_negative(
                user_stake.amount,
                user_stake.last_update_ts,
                now,
                reward_rate,
            );
        },
        Request::Unstake { now, .. } => {
            rewards::lemma_accrual_is_not_negative(
                user_stake.amount,
                user_stake.last_update_ts,
                now,
                reward_rate,
            );
        },
        _ => {},
    }
}

/// Every time that the stake at `place` is added to, it is for `user`, in the
/// pool at `pool`, and with `bump`.
pub open spec fn added_to_only_for(
    ledger: Ledger,
    requests: Seq<Request>,
    place: int,
    user: Pubkey,
    pool: Pubkey,
    bump: u8,
) -> bool {
    forall|i: int|
        0 <= i < requests.len() ==> (match #[trigger] requests[i] {
            Request::Stake { place: at, user: by, bump: with, .. } => at == place ==> by == user
                && ledger.pool.key == pool && with == bump,
            _ => true,
        })
}

/// A stake keeps its owner, its pool and its bump, whatever is requested, as
/// long as it is added to only for that owner, in that pool and with that bump.
pub proof fn law_requests_keep_the_stake_identity(
    ledger: Ledger,
    requests: Seq<Request>,
    place: int,
)
    requires
        ledger.has(place),
        added_to_only_for(
            ledger,
            requests,
            place,
            ledger.stakes[place].owner,
            ledger.stakes[place].pool,
            ledger.stakes[place].bump,
        ),
    ensures
        ({
            let after = ledger.after_all(requests);
            &&& after.has(place)
            &&& after.stakes[place].owner == ledger.stakes[place].owner
            &&& after.stakes[place].pool == ledger.stakes[place].pool
            &&& after.stakes[place].bump == ledger.stakes[place].bump
        }),
    decreases requests.len(),
{
    if requests.len() != 0 {
        let earlier = requests.drop_last();
        let user_stake = ledger.stakes[place];
        assert(added_to_only_for(
            ledger,
            earlier,
            place,
            user_stake.owner,
            user_stake.pool,
            user_stake.bump,
        )) by {
            assert forall|i: int| 0 <= i < earlier.len() implies earlier[i] == requests[i] by {}
        }
        law_requests_keep_the_stake_identity(ledger, earlier, place);
        law_requests_keep_the_pool_identity(ledger, earlier);
        let last = requests[requests.len() - 1];
        assert(last == requests.last());
    }
}

/// A request to fund leaves the ledger alone, and is accepted just when
/// `fund_rewards` is done.
pub proof fn law_fund_rewards_is_a_step(
    ledger: Ledger,
    ctx: &FundRewards,
    amount: u64,
    now: i64,
    result: Result<Next<RewardsFunded>, StakingError>,
)
    requires
        ctx.pool == ledger.pool,
        call_ensures(instruction::fund_rewards, (ctx, amount, finished(now)), result),
    ensures
        ({
            let request = Request::FundRewards { amount };
            &&& ledger.accepts(request) <==> (result matches Ok(Next::Done(_)))
            &&& ledger.after(request) == ledger
        }),
{
}

/// A request to stake does to the ledger what `stake` does to the accounts.
pub proof fn law_stake_is_a_step(
    ledger: Ledger,
    place: int,
    ctx: &mut Stake,
    bump: u8,
    amount: u64,
    now: i64,
    result: Result<Next<Staked>, StakingError>,
)
    requires
        ledger.has(place),
        old(ctx).pool == ledger.pool,
        old(ctx).user_stake.data == ledger.stakes[place],
        instruction::stake_times_fit(ledger.pool.data, ledger.stakes[place], amount, finished(now)),
        call_ensures(instruction::stake, (ctx, bump, amount, finished(now)), result),
    ensures
        ({
            let request = Request::Stake { place, user: old(ctx).user, bump, amount, now };
            &&& ledger.accepts(request) <==> (result matches Ok(Next::Done(_)))
            &&& ledger.after(request).pool == final(ctx).pool
            &&& ledger.after(request).stakes == ledger.stakes.update(
                place,
                final(ctx).user_stake.data,
            )
        }),
{
    assert(ledger.stakes.update(place, ledger.stakes[place]) =~= ledger.stakes);
}

/// A request to claim does to the ledger what `claim_rewards` does to the
/// accounts.
pub proof fn law_claim_rewards_is_a_step(
    ledger: Ledger,
    place: int,
    ctx: &mut ClaimRewards,
    now: i64,
    result: Result<Next<RewardsClaimed>, StakingError>,
)
    requires
        ledger.has(place),
        old(ctx).pool == ledger.pool,
        old(ctx).user_stake.data == ledger.stakes[place],
        instruction::claim_times_fit(ledger.pool.data, ledger.stakes[place], finished(now)),
        call_ensures(instruction::claim_rewards, (ctx, finished(now)), result),
    ensures
        ({
            let request = Request::ClaimRewards {
                place,
                vault_amount: old(ctx).reward_vault.data.amount,
                now,
            };
            &&& ledger.accepts(request) <==> (result matches Ok(Next::Done(_)))
            &&& ledger.after(request).pool == final(ctx).pool
            &&& ledger.after(request).stakes == ledger.stakes.update(
                place,
                final(ctx).user_stake.data,
            )
        }),
{
    assert(ledger.stakes.update(place, ledger.stakes[place]) =~= ledger.stakes);
}

/// A request to unstake does to the ledger what `unstake` does to the accounts.
pub proof fn law_unstake_is_a_step(
    ledger: Ledger,
    place: int,
    ctx: &mut Unstake,
    amount: u64,
    now: i64,
    result: Result<Next<Unstaked>, StakingError>,
)
    requires
        ledger.has(place),
        old(ctx).pool == ledger.pool,
        old(ctx).user_stake.data == ledger.stakes[place],
        instruction::unstake_times_fit(ledger.pool.data, ledger.stakes[place], amount, finished(now)),
        call_ensures(instruction::unstake, (ctx, amount, finished(now)), result),
    ensures
        ({
            let request = Request::Unstake { place, amount, now };
            &&& ledger.accepts(request) <==> (result matches Ok(Next::Done(_)))
            &&& ledger.after(request).pool == final(ctx).pool
            &&& ledger.after(request).stakes == ledger.stakes.update(
                place,
                final(ctx).user_stake.data,
            )
        }),
{
    assert(ledger.stakes.update(place, ledger.stakes[place]) =~= ledger.stakes);
}

/// A request to pause or unpause does to the ledger what
/// `set_paused` does to the accounts.
pub proof fn law_set_paused_is_a_step(
    ledger: Ledger,
    ctx: &mut AdminOnly,
    paused: bool,
    result: Result<PauseToggled, StakingError>,
)
    requires
        old(ctx).pool == ledger.pool,
        call_ensures(instruction::set_paused, (ctx, paused), result),
    ensures
        ({
            let request = Request::SetPaused { admin: old(ctx).admin, paused };
            &&& ledger.accepts(request) <==> result is Ok
            &&& ledger.after(request) == ledger.with_pool(final(ctx).pool.data)
            &&& final(ctx).pool.key == ledger.pool.key
        }),
{
}

/// A request to change the reward rate does to the ledger what
/// `set_reward_rate` does to the accounts.
pub proof fn law_set_reward_rate_is_a_step(
    ledger: Ledger,
    ctx: &mut AdminOnly,
    new_rate: u64,
    result: Result<RewardRateUpdated, StakingError>,
)
    requires
        old(ctx).pool == ledger.pool,
        call_ensures(instruction::set_reward_rate, (ctx, new_rate), result),
    ensures
        ({
            let request = Request::SetRewardRate { admin: old(ctx).admin, new_rate };
            &&& ledger.accepts(request) <==> result is Ok
            &&& ledger.after(request) == ledger.with_pool(final(ctx).pool.data)
            &&& final(ctx).pool.key == ledger.pool.key
        }),
{
}

/// A request to change the lock period does to the ledger what
/// `set_lock_period` does to the accounts.
pub proof fn law_set_lock_period_is_a_step(
    ledger: Ledger,
    ctx: &mut AdminOnly,
    new_lock_period: i64,
    result: Result<LockPeriodUpdated, StakingError>,
)
    requires
        old(ctx).pool == ledger.pool,
        call_ensures(instruction::set_lock_period, (ctx, new_lock_period), result),
    ensures
        ({
            let request = Request::SetLockPeriod { admin: old(ctx).admin, new_lock_period };
            &&& ledger.accepts(request) <==> result is Ok
            &&& ledger.after(request) == ledger.with_pool(final(ctx).pool.data)
            &&& final(ctx).pool.key == ledger.pool.key
        }),
{
}

/// A request to hand the pool on does to the ledger what
/// `transfer_admin` does to the accounts.
pub proof fn law_transfer_admin_is_a_step(
    ledger: Ledger,
    ctx: &mut TransferAdmin,
    new_admin: Pubkey,
    result: Result<AdminTransferred, StakingError>,
)
    requires
        old(ctx).pool == ledger.pool,
        call_ensures(instruction::transfer_admin, (ctx, new_admin), result),
    ensures
        ({
            let request = Request::TransferAdmin { admin: old(ctx).admin, new_admin };
            &&& ledger.accepts(request) <==> result is Ok
            &&& ledger.after(request) == ledger.with_pool(final(ctx).pool.data)
            &&& final(ctx).pool.key == ledger.pool.key
        }),
{
}

} // verus!
