//! The reward pool: funding, issuing rewards to users, claiming them, and
//! reward rates by reward type.
//!
//! Issuing credits a user's earned and pending totals (the pool is only
//! checked to cover the amount); claiming pays out everything pending from
//! the pool.  Every user's earned total stays equal to what was claimed plus
//! what is pending.
use vstd::prelude::*;
use crate::errors::RewardsError;
use crate::id_map::IdMap;
use crate::types::{bytes_equal, AccountId, Holder, Transfer};

verus! {

/// Largest amount accepted in one funding or issuance.
pub const MAX_REWARD_AMOUNT: i128 = 170141183460469231731687303715884105727;

/// What a user has earned, claimed and still has pending.
#[derive(Copy, Clone, Debug, PartialEq, Eq, Structural)]
pub struct UserReward {
    pub user: AccountId,
    pub total_earned: i128,
    pub claimed: i128,
    pub pending: i128,
    pub last_claim_timestamp: u64,
}

/// The rate set for a reward type.
#[derive(Clone, Debug)]
pub struct RewardRate {
    pub reward_type: Vec<u8>,
    pub rate: i128,
    pub enabled: bool,
}

/// Whether some rate has type `t`.
pub open spec fn has_rate(s: Seq<RewardRate>, t: Seq<u8>) -> bool {
    exists|i: int| 0 <= i < s.len() && #[trigger] s[i].reward_type@ == t
}

/// The position of the rate of type `t` (meaningful when there is one).
pub open spec fn rate_index(s: Seq<RewardRate>, t: Seq<u8>) -> int {
    choose|i: int| 0 <= i < s.len() && #[trigger] s[i].reward_type@ == t
}

/// No two rates share a type.
pub open spec fn distinct_types(s: Seq<RewardRate>) -> bool {
    forall|i: int, j: int| 0 <= i < s.len() && 0 <= j < s.len() && i != j
        ==> #[trigger] s[i].reward_type@ != #[trigger] s[j].reward_type@
}

/// Reward type to `(rate, enabled)`.
pub open spec fn rates_view(s: Seq<RewardRate>) -> Map<Seq<u8>, (i128, bool)> {
    Map::new(|t: Seq<u8>| has_rate(s, t), |t: Seq<u8>| (s[rate_index(s, t)].rate, s[rate_index(s, t)].enabled))
}

/// A user's earned total equals what was claimed plus what is pending.
pub open spec fn balanced(u: UserReward) -> bool {
    u.total_earned == u.claimed + u.pending
}

/// The reward pool and the users' rewards.
#[derive(Clone)]
pub struct Rewards {
    /// The reward token, once initialised.
    pub token: Option<AccountId>,
    /// The rewards admin, once initialised.
    pub rewards_admin: Option<AccountId>,
    pub reward_pool: i128,
    pub total_rewards_issued: i128,
    pub reward_rates: Vec<RewardRate>,
    pub user_rewards: IdMap<UserReward>,
    /// Set while a funding or claim is under way.
    pub guard_active: bool,
}

impl Rewards {
    /// Tables are well formed.
    pub open spec fn wf(&self) -> bool {
        &&& self.user_rewards.wf()
        &&& distinct_types(self.reward_rates@)
    }

    /// Every user's record balances.
    pub open spec fn all_balanced(&self) -> bool {
        forall|u: u64| #[trigger] self.user_rewards@.contains_key(u) ==> balanced(self.user_rewards@[u])
    }

    /// The record of `user`, or a fresh one.
    pub open spec fn user_record(&self, user: AccountId) -> UserReward {
        if self.user_rewards@.contains_key(user) {
            self.user_rewards@[user]
        } else {
            UserReward { user, total_earned: 0, claimed: 0, pending: 0, last_claim_timestamp: 0 }
        }
    }

    /// Nothing set up yet.
    pub fn new() -> (r: Self)
        ensures
            r.wf(),
            r.all_balanced(),
            r.token is None,
            r.rewards_admin is None,
            r.reward_pool == 0,
            r.total_rewards_issued == 0,
            r.reward_rates@.len() == 0,
            r.user_rewards@ == Map::<u64, UserReward>::empty(),
            !r.guard_active,
    {
        Rewards {
            token: None,
            rewards_admin: None,
            reward_pool: 0,
            total_rewards_issued: 0,
            reward_rates: Vec::new(),
            user_rewards: IdMap::new(),
            guard_active: false,
        }
    }

    /// Set the token and admin, with an empty pool and no rates or users.
    /// Refused once an admin is set.
    pub fn initialize_rewards(&mut self, token: AccountId, rewards_admin: AccountId) -> (r: Result<(), RewardsError>)
        requires
            old(self).wf(),
        ensures
            final(self).wf(),
            old(self).rewards_admin is Some ==> r == Err::<(), RewardsError>(RewardsError::AlreadyInitialized) && *final(self) == *old(self),
            old(self).rewards_admin is None ==> {
                &&& r is Ok
                &&& final(self).token == Some(token)
                &&& final(self).rewards_admin == Some(rewards_admin)
                &&& final(self).reward_pool == 0
                &&& final(self).total_rewards_issued == 0
                &&& final(self).reward_rates@.len() == 0
                &&& final(self).user_rewards@ == Map::<u64, UserReward>::empty()
                &&& final(self).guard_active == old(self).guard_active
            },
    {
        if self.rewards_admin.is_some() {
            return Err(RewardsError::AlreadyInitialized);
        }
        self.token = Some(token);
        self.rewards_admin = Some(rewards_admin);
        self.reward_pool = 0;
        self.total_rewards_issued = 0;
        self.reward_rates = Vec::new();
        self.user_rewards = IdMap::new();
        Ok(())
    }

    /// `funder` puts `amount` into the pool; returns the deposit to make.
    pub fn fund_reward_pool(&mut self, funder: AccountId, amount: i128) -> (r: Result<Transfer, RewardsError>)
        requires
            old(self).wf(),
            !old(self).guard_active && amount > 0 ==> old(self).token is Some,
        ensures
            final(self).wf(),
            final(self).guard_active == old(self).guard_active,
            old(self).guard_active ==> r == Err::<Transfer, RewardsError>(RewardsError::ReentrancyDetected) && *final(self) == *old(self),
            !old(self).guard_active && amount <= 0 ==>
                r == Err::<Transfer, RewardsError>(RewardsError::AmountMustBePositive) && *final(self) == *old(self),
            !old(self).guard_active && amount > 0 && old(self).reward_pool + amount > i128::MAX ==>
                r == Err::<Transfer, RewardsError>(RewardsError::ArithmeticOverflow) && *final(self) == *old(self),
            !old(self).guard_active && amount > 0 && old(self).reward_pool + amount <= i128::MAX ==> {
                &&& r == Ok::<Transfer, RewardsError>(Transfer {
                    token: old(self).token->0,
                    from: Holder::Account(funder),
                    to: Holder::Contract,
                    amount,
                })
                &&& final(self).reward_pool == old(self).reward_pool + amount
                &&& *final(self) == (Rewards { reward_pool: final(self).reward_pool, ..*old(self) })
            },
    {
        if self.guard_active {
            return Err(RewardsError::ReentrancyDetected);
        }
        if amount <= 0 {
            return Err(RewardsError::AmountMustBePositive);
        }
        if amount > MAX_REWARD_AMOUNT {
            return Err(RewardsError::AmountExceedsMaxLimit);
        }
        let token = match self.token {
            Some(t) => t,
            None => { return Err(RewardsError::StorageError); },
        };
        let pool = match self.reward_pool.checked_add(amount) {
            Some(p) => p,
            None => { return Err(RewardsError::ArithmeticOverflow); },
        };
        self.reward_pool = pool;
        Ok(Transfer { token, from: Holder::Account(funder), to: Holder::Contract, amount })
    }

    /// Credit `amount` of `reward_type` to `recipient`: their earned and
    /// pending totals grow, and so does the total issued.  The pool must
    /// cover the amount but is not drawn on until the reward is claimed.
    /// When the total issued would overflow the user's record is already
    /// updated.
    pub fn issue_reward(&mut self, recipient: AccountId, amount: i128, reward_type: &Vec<u8>) -> (r: Result<(), RewardsError>)
        requires
            old(self).wf(),
            old(self).rewards_admin is Some,
        ensures
            final(self).wf(),
            old(self).all_balanced() ==> final(self).all_balanced(),
            amount <= 0 ==> r == Err::<(), RewardsError>(RewardsError::AmountMustBePositive) && *final(self) == *old(self),
            amount > 0 && old(self).reward_pool < amount ==>
                r == Err::<(), RewardsError>(RewardsError::InsufficientRewardPoolBalance) && *final(self) == *old(self),
            amount > 0 && old(self).reward_pool >= amount ==> {
                let u = old(self).user_record(recipient);
                if u.total_earned + amount > i128::MAX || u.pending + amount > i128::MAX {
                    r == Err::<(), RewardsError>(RewardsError::ArithmeticOverflow) && *final(self) == *old(self)
                } else {
                    &&& final(self).user_rewards@ == old(self).user_rewards@.insert(recipient, UserReward {
                        total_earned: (u.total_earned + amount) as i128,
                        pending: (u.pending + amount) as i128,
                        ..u
                    })
                    &&& final(self).reward_pool == old(self).reward_pool
                    &&& final(self).token == old(self).token
                    &&& final(self).rewards_admin == old(self).rewards_admin
                    &&& final(self).reward_rates == old(self).reward_rates
                    &&& final(self).guard_active == old(self).guard_active
                    &&& if old(self).total_rewards_issued + amount > i128::MAX {
                        r == Err::<(), RewardsError>(RewardsError::ArithmeticOverflow)
                            && final(self).total_rewards_issued == old(self).total_rewards_issued
                    } else {
                        r is Ok && final(self).total_rewards_issued == old(self).total_rewards_issued + amount
                    }
                }
            },
    {
        if amount <= 0 {
            return Err(RewardsError::AmountMustBePositive);
        }
        if amount > MAX_REWARD_AMOUNT {
            return Err(RewardsError::AmountExceedsMaxLimit);
        }
        if self.reward_pool < amount {
            return Err(RewardsError::InsufficientRewardPoolBalance);
        }
        let mut u = match self.user_rewards.get(recipient) {
            Some(u) => *u,
            None => UserReward { user: recipient, total_earned: 0, claimed: 0, pending: 0, last_claim_timestamp: 0 },
        };
        u.total_earned = match u.total_earned.checked_add(amount) {
            Some(t) => t,
            None => { return Err(RewardsError::ArithmeticOverflow); },
        };
        u.pending = match u.pending.checked_add(amount) {
            Some(p) => p,
            None => { return Err(RewardsError::ArithmeticOverflow); },
        };
        self.user_rewards.insert(recipient, u);
        let total = match self.total_rewards_issued.checked_add(amount) {
            Some(t) => t,
            None => { return Err(RewardsError::ArithmeticOverflow); },
        };
        self.total_rewards_issued = total;
        Ok(())
    }

    /// `user` claims everything pending at `now`: it moves to claimed and
    /// leaves the pool; returns the payout to make.
    pub fn claim_rewards(&mut self, user: AccountId, now: u64) -> (r: Result<Transfer, RewardsError>)
        requires
            old(self).wf(),
            !old(self).guard_active && old(self).user_rewards@.contains_key(user)
                && old(self).user_rewards@[user].pending > 0
                && old(self).reward_pool >= old(self).user_rewards@[user].pending ==> old(self).token is Some,
        ensures
            final(self).wf(),
            old(self).all_balanced() ==> final(self).all_balanced(),
            final(self).guard_active == old(self).guard_active,
            old(self).guard_active ==> r == Err::<Transfer, RewardsError>(RewardsError::ReentrancyDetected) && *final(self) == *old(self),
            !old(self).guard_active && !old(self).user_rewards@.contains_key(user) ==>
                r == Err::<Transfer, RewardsError>(RewardsError::NoRewardsAvailable) && *final(self) == *old(self),
            !old(self).guard_active && old(self).user_rewards@.contains_key(user) ==> {
                let u = old(self).user_rewards@[user];
                if u.pending <= 0 {
                    r == Err::<Transfer, RewardsError>(RewardsError::NoPendingRewards) && *final(self) == *old(self)
                } else if old(self).reward_pool < u.pending {
                    r == Err::<Transfer, RewardsError>(RewardsError::InsufficientRewardPoolBalance) && *final(self) == *old(self)
                } else if u.claimed + u.pending > i128::MAX {
                    r == Err::<Transfer, RewardsError>(RewardsError::ArithmeticOverflow) && *final(self) == *old(self)
                } else {
                    &&& r == Ok::<Transfer, RewardsError>(Transfer {
                        token: old(self).token->0,
                        from: Holder::Contract,
                        to: Holder::Account(user),
                        amount: u.pending,
                    })
                    &&& final(self).user_rewards@ == old(self).user_rewards@.insert(user, UserReward {
                        claimed: (u.claimed + u.pending) as i128,
                        pending: 0,
                        last_claim_timestamp: now,
                        ..u
                    })
                    &&& final(self).reward_pool == old(self).reward_pool - u.pending
                    &&& final(self).total_rewards_issued == old(self).total_rewards_issued
                    &&& final(self).token == old(self).token
                    &&& final(self).rewards_admin == old(self).rewards_admin
                    &&& final(self).reward_rates == old(self).reward_rates
                }
            },
    {
        if self.guard_active {
            return Err(RewardsError::ReentrancyDetected);
        }
        let mut u = match self.user_rewards.get(user) {
            Some(u) => *u,
            None => { return Err(RewardsError::NoRewardsAvailable); },
        };
        if u.pending <= 0 {
            return Err(RewardsError::NoPendingRewards);
        }
        let amount = u.pending;
        if self.reward_pool < amount {
            return Err(RewardsError::InsufficientRewardPoolBalance);
        }
        let token = match self.token {
            Some(t) => t,
            None => { return Err(RewardsError::StorageError); },
        };
        u.claimed = match u.claimed.checked_add(amount) {
            Some(c) => c,
            None => { return Err(RewardsError::ArithmeticOverflow); },
        };
        u.pending = 0;
        u.last_claim_timestamp = now;
        self.user_rewards.insert(user, u);
        self.reward_pool = self.reward_pool - amount;
        Ok(Transfer { token, from: Holder::Contract, to: Holder::Account(user), amount })
    }

    /// Position of the rate of type `t`, if any.
    fn find_rate(&self, t: &Vec<u8>) -> (r: Option<usize>)
        requires
            distinct_types(self.reward_rates@),
        ensures
            match r {
                Some(i) => i < self.reward_rates@.len() && self.reward_rates@[i as int].reward_type@ == t@
                    && rate_index(self.reward_rates@, t@) == i,
                None => !has_rate(self.reward_rates@, t@),
            },
    {
        let mut i: usize = 0;
        while i < self.reward_rates.len()
            invariant
                i <= self.reward_rates@.len(),
                distinct_types(self.reward_rates@),
                forall|j: int| 0 <= j < i ==> #[trigger] self.reward_rates@[j].reward_type@ != t@,
            decreases self.reward_rates@.len() - i,
        {
            if bytes_equal(&self.reward_rates[i].reward_type, t) {
                proof {
                    let s = self.reward_rates@;
                    assert(has_rate(s, t@));
                    let k = rate_index(s, t@);
                    assert(s[k].reward_type@ == t@);
                    if k != i as int {
                        assert(s[k].reward_type@ != s[i as int].reward_type@);
                    }
                }
                return Some(i);
            }
            i = i + 1;
        }
        None
    }

    /// Set the rate of `reward_type` (replacing any earlier one).  A negative
    /// rate is refused.
    pub fn set_reward_rate(&mut self, reward_type: Vec<u8>, rate: i128, enabled: bool) -> (r: Result<(), RewardsError>)
        requires
            old(self).wf(),
            old(self).rewards_admin is Some,
        ensures
            final(self).wf(),
            rate < 0 ==> r == Err::<(), RewardsError>(RewardsError::RateCannotBeNegative) && *final(self) == *old(self),
            rate >= 0 ==> {
                &&& r is Ok
                &&& rates_view(final(self).reward_rates@) == rates_view(old(self).reward_rates@).insert(reward_type@, (rate, enabled))
                &&& *final(self) == (Rewards { reward_rates: final(self).reward_rates, ..*old(self) })
            },
    {
        if rate < 0 {
            return Err(RewardsError::RateCannotBeNegative);
        }
        let ghost old_s = self.reward_rates@;
        let ghost t = reward_type@;
        match self.find_rate(&reward_type) {
            Some(i) => {
                self.reward_rates.set(i, RewardRate { reward_type, rate, enabled });
                proof {
                    let s = self.reward_rates@;
                    assert(distinct_types(s)) by {
                        assert forall|a: int, b: int| 0 <= a < s.len() && 0 <= b < s.len() && a != b
                            implies #[trigger] s[a].reward_type@ != #[trigger] s[b].reward_type@ by {
                            assert(old_s[a].reward_type@ != old_s[b].reward_type@);
                        }
                    }
                    lemma_rates_view_update(old_s, i as int, s[i as int]);
                }
            },
            None => {
                self.reward_rates.push(RewardRate { reward_type, rate, enabled });
                proof {
                    let s = self.reward_rates@;
                    assert(distinct_types(s)) by {
                        assert forall|a: int, b: int| 0 <= a < s.len() && 0 <= b < s.len() && a != b
                            implies #[trigger] s[a].reward_type@ != #[trigger] s[b].reward_type@ by {
                            if a < old_s.len() && b < old_s.len() {
                                assert(old_s[a].reward_type@ != old_s[b].reward_type@);
                            } else if a < old_s.len() {
                                assert(old_s[a].reward_type@ != t);
                            } else {
                                assert(old_s[b].reward_type@ != t);
                            }
                        }
                    }
                    lemma_rates_view_push(old_s, s[old_s.len() as int]);
                }
            },
        }
        Ok(())
    }

    /// Hand the admin role to `new_admin`.
    pub fn update_rewards_admin(&mut self, new_admin: AccountId)
        requires
            old(self).rewards_admin is Some,
        ensures
            *final(self) == (Rewards { rewards_admin: Some(new_admin), ..*old(self) }),
    {
        self.rewards_admin = Some(new_admin);
    }

    /// The reward record of `user`, if any.
    pub fn get_user_rewards(&self, user: AccountId) -> (r: Option<UserReward>)
        requires
            self.wf(),
        ensures
            r == if self.user_rewards@.contains_key(user) { Some(self.user_rewards@[user]) } else { None::<UserReward> },
    {
        match self.user_rewards.get(user) {
            Some(u) => Some(*u),
            None => None,
        }
    }

    /// The pool balance.
    pub fn get_reward_pool_balance(&self) -> (b: i128)
        ensures
            b == self.reward_pool,
    {
        self.reward_pool
    }

    /// The total ever issued.
    pub fn get_total_rewards_issued(&self) -> (t: i128)
        ensures
            t == self.total_rewards_issued,
    {
        self.total_rewards_issued
    }

    /// The rate of `reward_type`, if set.
    pub fn get_reward_rate(&self, reward_type: &Vec<u8>) -> (r: Option<&RewardRate>)
        requires
            self.wf(),
        ensures
            match r {
                Some(rr) => rates_view(self.reward_rates@).contains_key(reward_type@)
                    && rr.reward_type@ == reward_type@
                    && (rr.rate, rr.enabled) == rates_view(self.reward_rates@)[reward_type@],
                None => !rates_view(self.reward_rates@).contains_key(reward_type@),
            },
    {
        match self.find_rate(reward_type) {
            Some(i) => Some(&self.reward_rates[i]),
            None => None,
        }
    }

    /// The rewards admin.
    pub fn get_rewards_admin(&self) -> (a: AccountId)
        requires
            self.rewards_admin is Some,
        ensures
            a == self.rewards_admin->0,
    {
        match self.rewards_admin {
            Some(a) => a,
            None => 0,
        }
    }
}

/// Overwriting the rate at a position holding type `x.reward_type` sets that
/// type in the view.
pub proof fn lemma_rates_view_update(s: Seq<RewardRate>, i: int, x: RewardRate)
    requires
        distinct_types(s),
        0 <= i < s.len(),
        s[i].reward_type@ == x.reward_type@,
        distinct_types(s.update(i, x)),
    ensures
        rates_view(s.update(i, x)) == rates_view(s).insert(x.reward_type@, (x.rate, x.enabled)),
{
    let s2 = s.update(i, x);
    assert forall|t: Seq<u8>| #[trigger] has_rate(s2, t) == (has_rate(s, t) || t == x.reward_type@) by {
        if has_rate(s, t) {
            let j = rate_index(s, t);
            assert(s2[j].reward_type@ == t);
        }
        if has_rate(s2, t) {
            let j = rate_index(s2, t);
            assert(s[j].reward_type@ == t);
        }
        if t == x.reward_type@ {
            assert(s2[i].reward_type@ == t);
        }
    }
    assert forall|t: Seq<u8>| has_rate(s2, t) implies
        (#[trigger] rates_view(s2)[t]) == rates_view(s).insert(x.reward_type@, (x.rate, x.enabled))[t] by {
        let j = rate_index(s2, t);
        if t == x.reward_type@ {
            assert(s2[i].reward_type@ == t);
            if j != i { assert(s2[j].reward_type@ != s2[i].reward_type@); }
        } else {
            assert(j != i);
            let k = rate_index(s, t);
            assert(s[j].reward_type@ == t);
            if k != j { assert(s[k].reward_type@ != s[j].reward_type@); }
        }
    }
    assert(rates_view(s2) =~= rates_view(s).insert(x.reward_type@, (x.rate, x.enabled)));
}

/// Appending a rate of a new type adds it to the view.
pub proof fn lemma_rates_view_push(s: Seq<RewardRate>, x: RewardRate)
    requires
        distinct_types(s.push(x)),
    ensures
        rates_view(s.push(x)) == rates_view(s).insert(x.reward_type@, (x.rate, x.enabled)),
{
    let s2 = s.push(x);
    let n = s.len() as int;
    assert forall|t: Seq<u8>| #[trigger] has_rate(s2, t) == (has_rate(s, t) || t == x.reward_type@) by {
        if has_rate(s, t) {
            let j = rate_index(s, t);
            assert(s2[j].reward_type@ == t);
        }
        if has_rate(s2, t) {
            let j = rate_index(s2, t);
            if j < n { assert(s[j].reward_type@ == t); }
        }
        if t == x.reward_type@ {
            assert(s2[n].reward_type@ == t);
        }
    }
    assert forall|t: Seq<u8>| has_rate(s2, t) implies
        (#[trigger] rates_view(s2)[t]) == rates_view(s).insert(x.reward_type@, (x.rate, x.enabled))[t] by {
        let j = rate_index(s2, t);
        if t == x.reward_type@ {
            assert(s2[n].reward_type@ == t);
            if j != n { assert(s2[j].reward_type@ != s2[n].reward_type@); }
        } else {
            assert(j != n);
            let k = rate_index(s, t);
            assert(s[j].reward_type@ == t);
            if k != j { assert(s2[k].reward_type@ != s2[j].reward_type@); }
        }
    }
    assert(rates_view(s2) =~= rates_view(s).insert(x.reward_type@, (x.rate, x.enabled)));
}

/// Issuing and then claiming keeps every user's books balanced, and a claim
/// never takes the pool below zero.
pub proof fn law_issue_and_claim_keep_books_balanced(pool: i128, u: UserReward, amount: i128)
    requires
        balanced(u),
        amount > 0,
        u.total_earned + amount <= i128::MAX,
        u.pending + amount <= i128::MAX,
    ensures
        balanced(UserReward { total_earned: (u.total_earned + amount) as i128, pending: (u.pending + amount) as i128, ..u }),
        u.pending > 0 && pool >= u.pending && u.claimed + u.pending <= i128::MAX ==> {
            &&& pool - u.pending >= 0
            &&& balanced(UserReward { claimed: (u.claimed + u.pending) as i128, pending: 0, ..u })
        },
{
}

} // verus!
