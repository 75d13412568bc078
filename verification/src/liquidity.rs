//! Bridge liquidity pools and dynamic fees.
//!
//! Fee: `base = amount * base_fee_bps / 10_000`, scaled by a congestion
//! multiplier from pool utilisation (100, 150, 200 or 300 percent at
//! utilisation below 50 %, 70 %, 90 % and above), reduced by the best volume
//! discount the user's 24-hour volume reaches, and clamped between 0.01 % and
//! 5 % of the amount.  Liquidity providers hold a share in basis points of
//! the pool's total; their rewards come out of the pool's collected fees,
//! weighted by how long they have held the position (1x at deposit, +1x per
//! 30 days, at most 3x) and never more than the fees collected.
//!
//! All divisions round toward zero, as machine division does.
use vstd::prelude::*;
use crate::config::{LIQUIDITY_BASE_FEE_BPS, LIQUIDITY_MAX_FEE_BPS, LIQUIDITY_MIN_FEE_BPS};
use crate::errors::BridgeError;
use crate::events::FeeUpdatedEvent;
use crate::id_map::IdMap;
use crate::safe_stats::{div_i128, trunc_div};
use crate::types::AccountId;

verus! {

/// Base fee in basis points.
pub const BASE_FEE_BPS: i128 = LIQUIDITY_BASE_FEE_BPS;
/// Maximum fee in basis points.
pub const MAX_FEE_BPS: i128 = LIQUIDITY_MAX_FEE_BPS;
/// Minimum fee in basis points.
pub const MIN_FEE_BPS: i128 = LIQUIDITY_MIN_FEE_BPS;

/// Utilisation (basis points) where the multiplier steps to 1.5x.
pub const CONGESTION_STEP_1: u32 = 5000;
/// Utilisation (basis points) where the multiplier steps to 2x.
pub const CONGESTION_STEP_2: u32 = 7000;
/// Utilisation (basis points) where the multiplier steps to 3x.
pub const CONGESTION_STEP_3: u32 = 9000;

/// Scaling factor of reward arithmetic (1_000_000 = 1.0).
pub const REWARD_SCALE: i128 = 1_000_000;
/// Time multiplier at deposit (1_000_000 = 1.0x).
pub const TIME_SCALE: i128 = 1_000_000;
/// Largest time multiplier (3.0x).
pub const MAX_TIME_MULTIPLIER: i128 = 3_000_000;
/// Seconds per +1.0x of the time multiplier (30 days).
pub const TIME_MULTIPLIER_STEP_SECS: i128 = 2_592_000;

/// A provider's position in a pool.
#[derive(Copy, Clone, Debug, PartialEq, Eq, Structural)]
pub struct LPPosition {
    pub provider: AccountId,
    pub amount: i128,
    /// Share of the pool in basis points.
    pub share_percentage: u32,
    pub deposited_at: u64,
    pub rewards_earned: i128,
}

/// The liquidity pool of one chain.
#[derive(Clone)]
pub struct LiquidityPool {
    pub chain_id: u32,
    pub token: AccountId,
    pub total_liquidity: i128,
    pub available_liquidity: i128,
    pub locked_liquidity: i128,
    pub accumulated_fees: i128,
    /// Positions by provider.
    pub lp_providers: IdMap<LPPosition>,
}

/// The fee parameters.
#[derive(Clone)]
pub struct BridgeFeeStructure {
    pub base_fee: i128,
    pub dynamic_multiplier: u32,
    pub congestion_multiplier: u32,
    /// Discount in basis points by volume threshold, thresholds increasing.
    pub volume_discount_tiers: IdMap<u32>,
    pub last_updated: u64,
}

/// The pool figures a caller reads (all but the positions).
#[derive(Copy, Clone, Debug, PartialEq, Eq, Structural)]
pub struct PoolSummary {
    pub chain_id: u32,
    pub token: AccountId,
    pub total_liquidity: i128,
    pub available_liquidity: i128,
    pub locked_liquidity: i128,
    pub accumulated_fees: i128,
}

/// The congestion multiplier (percent) of a pool.
pub open spec fn congestion_multiplier(total: i128, locked: i128) -> u32 {
    if total == 0 {
        100
    } else {
        let utilization = trunc_div(locked * 10000, total as int) as u32;
        if utilization < CONGESTION_STEP_1 {
            100
        } else if utilization < CONGESTION_STEP_2 {
            150
        } else if utilization < CONGESTION_STEP_3 {
            200
        } else {
            300
        }
    }
}

/// The congestion multiplier can be computed without overflow.
pub open spec fn congestion_fits(total: i128, locked: i128) -> bool {
    total == 0 || i128::MIN < locked * 10000 <= i128::MAX
}

/// The best discount among tiers whose threshold `volume` reaches (0 if none).
pub open spec fn volume_discount(tiers: Seq<(u64, u32)>, volume: i128) -> u32
    decreases tiers.len(),
{
    if tiers.len() == 0 {
        0
    } else {
        let d = volume_discount(tiers.drop_last(), volume);
        let (threshold, tier_discount) = tiers.last();
        if volume >= threshold && tier_discount > d { tier_discount } else { d }
    }
}

/// The discount tiers a fee structure starts with.
pub open spec fn default_tiers() -> Seq<(u64, u32)> {
    seq![(10000u64, 0u32), (100000u64, 500u32), (500000u64, 1000u32), (1000000u64, 2000u32)]
}

/// The fee on `amount`: base fee, congestion, volume discount, then clamped
/// between the minimum and maximum fee of the amount.
pub open spec fn bridge_fee(amount: i128, base_fee: i128, congestion: u32, discount: u32) -> int {
    let base_amount = trunc_div(amount * base_fee, 10000);
    let adjusted = trunc_div(base_amount * congestion, 100);
    let fee = trunc_div(adjusted * (10000 - discount), 10000);
    let lo = trunc_div(amount * MIN_FEE_BPS, 10000);
    let hi = trunc_div(amount * MAX_FEE_BPS, 10000);
    if fee < lo { lo } else if fee > hi { hi } else { fee }
}

/// The fee can be computed without overflow, and its bounds are ordered
/// (the clamp of the fee panics otherwise).
pub open spec fn bridge_fee_fits(amount: i128, base_fee: i128, congestion: u32, discount: u32) -> bool {
    let base_amount = trunc_div(amount * base_fee, 10000);
    let adjusted = trunc_div(base_amount * congestion, 100);
    &&& i128::MIN <= amount * base_fee <= i128::MAX
    &&& i128::MIN <= base_amount * congestion <= i128::MAX
    &&& i128::MIN <= adjusted * (10000 - discount) <= i128::MAX
    &&& i128::MIN <= amount * MAX_FEE_BPS <= i128::MAX
    &&& trunc_div(amount * MIN_FEE_BPS, 10000) <= trunc_div(amount * MAX_FEE_BPS, 10000)
}

/// The time multiplier of a position deposited at `deposited_at`, at `now`.
pub open spec fn time_multiplier(deposited_at: u64, now: u64) -> i128 {
    let elapsed: int = if now >= deposited_at { now - deposited_at } else { 0 };
    let m = TIME_SCALE + (elapsed * TIME_SCALE) / (TIME_MULTIPLIER_STEP_SECS as int);
    if m < MAX_TIME_MULTIPLIER { m as i128 } else { MAX_TIME_MULTIPLIER }
}

/// A position's share of the pool, scaled by `REWARD_SCALE`.
pub open spec fn share_factor(amount: i128, total: i128) -> int {
    trunc_div(amount * REWARD_SCALE, total as int)
}

/// A position's share of the collected fees.
pub open spec fn fee_share(amount: i128, total: i128, fees: i128) -> int {
    trunc_div(fees * share_factor(amount, total), REWARD_SCALE as int)
}

/// The reward of a position of `amount` deposited at `deposited_at`, from a
/// pool of `total` liquidity with `fees` collected, at `now`.
pub open spec fn lp_reward(amount: i128, deposited_at: u64, total: i128, fees: i128, now: u64) -> int {
    if total == 0 || amount == 0 || fees == 0 {
        0
    } else {
        let reward = trunc_div(fee_share(amount, total, fees) * time_multiplier(deposited_at, now), TIME_SCALE as int);
        if reward < fees { reward } else { fees as int }
    }
}

/// The reward can be computed without overflow.
pub open spec fn reward_fits(amount: i128, deposited_at: u64, total: i128, fees: i128, now: u64) -> bool {
    total == 0 || amount == 0 || fees == 0 || {
        &&& i128::MIN < amount * REWARD_SCALE <= i128::MAX
        &&& i128::MIN <= fees * share_factor(amount, total) <= i128::MAX
        &&& i128::MIN <= fee_share(amount, total, fees) * time_multiplier(deposited_at, now) <= i128::MAX
    }
}

/// The share in basis points of `amount` out of a non-zero `total`.
pub open spec fn share_bps(amount: int, total: int) -> u32 {
    trunc_div(amount * 10000, total) as u32
}

/// The stored pools and fee structure.
#[derive(Clone)]
pub struct LiquidityManager {
    /// Pools by chain id.
    pub pools: IdMap<LiquidityPool>,
    /// The fee structure, once one was set.
    pub fee_structure: Option<BridgeFeeStructure>,
}

impl LiquidityManager {
    /// Tables are well formed.
    pub open spec fn wf(&self) -> bool {
        &&& self.pools.wf()
        &&& forall|c: u64| #[trigger] self.pools@.contains_key(c) ==> self.pools@[c].lp_providers.wf()
        &&& (self.fee_structure matches Some(f) ==> f.volume_discount_tiers.wf())
    }

    /// The pool of `chain_id`, in the spec.
    pub open spec fn pool(&self, chain_id: u32) -> LiquidityPool {
        self.pools@[chain_id as u64]
    }

    /// Whether `chain_id` has a pool, in the spec.
    pub open spec fn has_pool(&self, chain_id: u32) -> bool {
        self.pools@.contains_key(chain_id as u64)
    }

    /// The base fee in force (the default when none is stored).
    pub open spec fn base_fee(&self) -> i128 {
        match self.fee_structure {
            Some(f) => f.base_fee,
            None => BASE_FEE_BPS,
        }
    }

    /// The discount tiers in force.
    pub open spec fn tiers(&self) -> Seq<(u64, u32)> {
        match self.fee_structure {
            Some(f) => f.volume_discount_tiers.entries(),
            None => default_tiers(),
        }
    }

    /// The congestion multiplier in force for `chain_id` (1x without a pool).
    pub open spec fn congestion_of(&self, chain_id: u32) -> u32 {
        if self.has_pool(chain_id) {
            congestion_multiplier(self.pool(chain_id).total_liquidity, self.pool(chain_id).locked_liquidity)
        } else {
            100
        }
    }

    /// Only the pool of `chain_id` differs between `self` and `other`, and
    /// the fee structure is the same.
    pub open spec fn same_except_pool(&self, other: &Self, chain_id: u32) -> bool {
        &&& self.pools@.dom() == other.pools@.dom()
        &&& forall|c: u64| c != chain_id as u64 && #[trigger] other.pools@.contains_key(c) ==> self.pools@[c] == other.pools@[c]
        &&& self.fee_structure == other.fee_structure
    }

    /// No pools yet, the default fee structure.
    pub fn new() -> (m: Self)
        ensures
            m.wf(),
            m.pools@ == Map::<u64, LiquidityPool>::empty(),
            m.fee_structure is None,
    {
        LiquidityManager { pools: IdMap::new(), fee_structure: None }
    }

    /// The discount tiers a fee structure starts with.
    pub fn default_volume_tiers() -> (t: IdMap<u32>)
        ensures
            t.wf(),
            t.entries() == default_tiers(),
    {
        let mut t: IdMap<u32> = IdMap::new();
        t.insert(10000, 0);
        t.insert(100000, 500);
        t.insert(500000, 1000);
        t.insert(1000000, 2000);
        assert(t.entries() =~= default_tiers());
        t
    }

    /// Open (or reset) the pool of `chain_id` for `token`, empty.
    pub fn initialize_pool(&mut self, chain_id: u32, token: AccountId) -> (r: Result<(), BridgeError>)
        requires
            old(self).wf(),
        ensures
            final(self).wf(),
            r is Ok,
            final(self).pools@.dom() == old(self).pools@.dom().insert(chain_id as u64),
            forall|c: u64| c != chain_id as u64 && #[trigger] old(self).pools@.contains_key(c)
                ==> final(self).pools@[c] == old(self).pools@[c],
            ({
                let p = final(self).pool(chain_id);
                &&& p.chain_id == chain_id
                &&& p.token == token
                &&& p.total_liquidity == 0
                &&& p.available_liquidity == 0
                &&& p.locked_liquidity == 0
                &&& p.accumulated_fees == 0
                &&& p.lp_providers@ == Map::<u64, LPPosition>::empty()
            }),
            final(self).fee_structure == old(self).fee_structure,
    {
        let pool = LiquidityPool {
            chain_id,
            token,
            total_liquidity: 0,
            available_liquidity: 0,
            locked_liquidity: 0,
            accumulated_fees: 0,
            lp_providers: IdMap::new(),
        };
        self.pools.insert(chain_id as u64, pool);
        Ok(())
    }

    /// `provider` adds `amount` to the pool of `chain_id` at `now`.  Pool
    /// totals grow by `amount`; the provider's position grows by `amount`
    /// (a new position is dated `now`) and its share is recomputed against
    /// the new total.  Returns the share of `amount` itself in basis points
    /// (10000 if the new total were zero).
    pub fn add_liquidity(&mut self, provider: AccountId, chain_id: u32, amount: i128, now: u64) -> (r: Result<u32, BridgeError>)
        requires
            old(self).wf(),
            amount > 0 && old(self).has_pool(chain_id) ==> {
                let p = old(self).pool(chain_id);
                let total = p.total_liquidity + amount;
                &&& total <= i128::MAX
                &&& p.available_liquidity + amount <= i128::MAX
                &&& amount * 10000 <= i128::MAX
                &&& p.lp_providers@.contains_key(provider) ==> {
                    let e = p.lp_providers@[provider];
                    &&& i128::MIN <= e.amount + amount <= i128::MAX
                    &&& i128::MIN < (e.amount + amount) * 10000 <= i128::MAX
                }
            },
        ensures
            final(self).wf(),
            amount <= 0 ==> r == Err::<u32, BridgeError>(BridgeError::AmountMustBePositive) && *final(self) == *old(self),
            amount > 0 && !old(self).has_pool(chain_id) ==>
                r == Err::<u32, BridgeError>(BridgeError::DestinationChainNotSupported) && *final(self) == *old(self),
            amount > 0 && old(self).has_pool(chain_id) ==> {
                let p = old(self).pool(chain_id);
                let total = p.total_liquidity + amount;
                let q = final(self).pool(chain_id);
                let share = if total == 0 { 10000 } else { share_bps(amount as int, total) };
                &&& r == Ok::<u32, BridgeError>(share)
                &&& final(self).same_except_pool(old(self), chain_id)
                &&& q.total_liquidity == total
                &&& q.available_liquidity == p.available_liquidity + amount
                &&& q.locked_liquidity == p.locked_liquidity
                &&& q.accumulated_fees == p.accumulated_fees
                &&& q.chain_id == p.chain_id
                &&& q.token == p.token
                &&& q.lp_providers@ == p.lp_providers@.insert(provider,
                    if p.lp_providers@.contains_key(provider) {
                        LPPosition {
                            amount: (p.lp_providers@[provider].amount + amount) as i128,
                            share_percentage: if total == 0 { 0 } else {
                                share_bps(p.lp_providers@[provider].amount + amount, total)
                            },
                            ..p.lp_providers@[provider]
                        }
                    } else {
                        LPPosition { provider, amount, share_percentage: share, deposited_at: now, rewards_earned: 0 }
                    })
            },
    {
        if amount <= 0 {
            return Err(BridgeError::AmountMustBePositive);
        }
        if !self.pools.contains_key(chain_id as u64) {
            return Err(BridgeError::DestinationChainNotSupported);
        }
        let mut pool = self.pools.remove(chain_id as u64).unwrap();
        pool.total_liquidity = pool.total_liquidity + amount;
        pool.available_liquidity = pool.available_liquidity + amount;
        let share_percentage: u32 = if pool.total_liquidity == 0 {
            10000
        } else {
            div_i128(amount * 10000, pool.total_liquidity) as u32
        };
        let position = match pool.lp_providers.get(provider) {
            Some(existing) => {
                let mut e = *existing;
                e.amount = e.amount + amount;
                e.share_percentage = if pool.total_liquidity == 0 {
                    0
                } else {
                    div_i128(e.amount * 10000, pool.total_liquidity) as u32
                };
                e
            },
            None => LPPosition { provider, amount, share_percentage, deposited_at: now, rewards_earned: 0 },
        };
        pool.lp_providers.insert(provider, position);
        self.pools.insert(chain_id as u64, pool);
        assert(self.pools@.dom() =~= old(self).pools@.dom());
        Ok(share_percentage)
    }

    /// `provider` withdraws `amount` from the pool of `chain_id` at `now`,
    /// collecting the rewards of the position as it stood.  The pool total
    /// drops by `amount`, available liquidity by as much of it as is
    /// available; a position brought to zero is closed, otherwise its share
    /// is recomputed and the rewards are added to what it has earned.
    /// Returns `amount` plus the rewards.
    pub fn remove_liquidity(&mut self, provider: AccountId, chain_id: u32, amount: i128, now: u64) -> (r: Result<i128, BridgeError>)
        requires
            old(self).wf(),
            amount > 0 && old(self).has_pool(chain_id) && old(self).pool(chain_id).lp_providers@.contains_key(provider) ==> {
                let p = old(self).pool(chain_id);
                let e = p.lp_providers@[provider];
                let rewards = lp_reward(e.amount, e.deposited_at, p.total_liquidity, p.accumulated_fees, now);
                amount <= e.amount ==> {
                    &&& reward_fits(e.amount, e.deposited_at, p.total_liquidity, p.accumulated_fees, now)
                    &&& i128::MIN <= e.rewards_earned + rewards <= i128::MAX
                    &&& i128::MIN <= p.total_liquidity - amount
                    &&& amount + rewards <= i128::MAX
                    &&& i128::MIN < (e.amount - amount) * 10000 <= i128::MAX
                }
            },
        ensures
            final(self).wf(),
            amount <= 0 ==> r == Err::<i128, BridgeError>(BridgeError::AmountMustBePositive) && *final(self) == *old(self),
            amount > 0 && !old(self).has_pool(chain_id) ==>
                r == Err::<i128, BridgeError>(BridgeError::DestinationChainNotSupported) && *final(self) == *old(self),
            amount > 0 && old(self).has_pool(chain_id) && !old(self).pool(chain_id).lp_providers@.contains_key(provider) ==>
                r == Err::<i128, BridgeError>(BridgeError::InvalidInput) && *final(self) == *old(self),
            amount > 0 && old(self).has_pool(chain_id) && old(self).pool(chain_id).lp_providers@.contains_key(provider) ==> {
                let p = old(self).pool(chain_id);
                let e = p.lp_providers@[provider];
                let rewards = lp_reward(e.amount, e.deposited_at, p.total_liquidity, p.accumulated_fees, now);
                let total = p.total_liquidity - amount;
                let left = e.amount - amount;
                let q = final(self).pool(chain_id);
                if amount > e.amount {
                    r == Err::<i128, BridgeError>(BridgeError::InsufficientBalance) && *final(self) == *old(self)
                } else {
                    &&& r == Ok::<i128, BridgeError>((amount + rewards) as i128)
                    &&& final(self).same_except_pool(old(self), chain_id)
                    &&& q.total_liquidity == total
                    &&& q.available_liquidity == p.available_liquidity - (if amount < p.available_liquidity { amount } else { p.available_liquidity })
                    &&& q.locked_liquidity == p.locked_liquidity
                    &&& q.accumulated_fees == p.accumulated_fees
                    &&& q.chain_id == p.chain_id
                    &&& q.token == p.token
                    &&& q.lp_providers@ == if left == 0 {
                        p.lp_providers@.remove(provider)
                    } else {
                        p.lp_providers@.insert(provider, LPPosition {
                            amount: left as i128,
                            rewards_earned: (e.rewards_earned + rewards) as i128,
                            share_percentage: if total == 0 { 0 } else { share_bps(left, total) },
                            ..e
                        })
                    }
                }
            },
    {
        if amount <= 0 {
            return Err(BridgeError::AmountMustBePositive);
        }
        if !self.pools.contains_key(chain_id as u64) {
            return Err(BridgeError::DestinationChainNotSupported);
        }
        let found = match self.pools.get(chain_id as u64) {
            Some(pool) => match pool.lp_providers.get(provider) {
                Some(e) => Some((*e, pool.total_liquidity, pool.accumulated_fees)),
                None => None,
            },
            None => None,
        };
        let (mut position, total_liquidity, accumulated_fees) = match found {
            Some(t) => t,
            None => { return Err(BridgeError::InvalidInput); },
        };
        if amount > position.amount {
            return Err(BridgeError::InsufficientBalance);
        }
        let rewards = Self::calculate_lp_rewards(&position, total_liquidity, accumulated_fees, now);
        let mut pool = self.pools.remove(chain_id as u64).unwrap();
        position.amount = position.amount - amount;
        position.rewards_earned = position.rewards_earned + rewards;
        pool.total_liquidity = pool.total_liquidity - amount;
        let deduct_available = if amount < pool.available_liquidity { amount } else { pool.available_liquidity };
        pool.available_liquidity = pool.available_liquidity - deduct_available;
        if position.amount == 0 {
            pool.lp_providers.remove(provider);
        } else {
            position.share_percentage = if pool.total_liquidity == 0 {
                0
            } else {
                div_i128(position.amount * 10000, pool.total_liquidity) as u32
            };
            pool.lp_providers.insert(provider, position);
        }
        self.pools.insert(chain_id as u64, pool);
        assert(self.pools@.dom() =~= old(self).pools@.dom());
        Ok(amount + rewards)
    }

    /// Reserve `amount` of the available liquidity of `chain_id` for a
    /// transfer: available drops and locked grows by `amount`.
    pub fn lock_liquidity(&mut self, chain_id: u32, amount: i128) -> (r: Result<(), BridgeError>)
        requires
            old(self).wf(),
            amount > 0 && old(self).has_pool(chain_id) ==> old(self).pool(chain_id).locked_liquidity + amount <= i128::MAX,
        ensures
            final(self).wf(),
            amount <= 0 ==> r == Err::<(), BridgeError>(BridgeError::AmountMustBePositive) && *final(self) == *old(self),
            amount > 0 && !old(self).has_pool(chain_id) ==>
                r == Err::<(), BridgeError>(BridgeError::DestinationChainNotSupported) && *final(self) == *old(self),
            amount > 0 && old(self).has_pool(chain_id) ==> {
                let p = old(self).pool(chain_id);
                let q = final(self).pool(chain_id);
                if amount > p.available_liquidity {
                    r == Err::<(), BridgeError>(BridgeError::InsufficientLiquidity) && *final(self) == *old(self)
                } else {
                    &&& r is Ok
                    &&& final(self).same_except_pool(old(self), chain_id)
                    &&& q == LiquidityPool {
                        available_liquidity: (p.available_liquidity - amount) as i128,
                        locked_liquidity: (p.locked_liquidity + amount) as i128,
                        ..p
                    }
                }
            },
    {
        if amount <= 0 {
            return Err(BridgeError::AmountMustBePositive);
        }
        if !self.pools.contains_key(chain_id as u64) {
            return Err(BridgeError::DestinationChainNotSupported);
        }
        let available = match self.pools.get(chain_id as u64) {
            Some(pool) => pool.available_liquidity,
            None => 0,
        };
        if amount > available {
            return Err(BridgeError::InsufficientLiquidity);
        }
        let mut pool = self.pools.remove(chain_id as u64).unwrap();
        pool.available_liquidity = pool.available_liquidity - amount;
        pool.locked_liquidity = pool.locked_liquidity + amount;
        self.pools.insert(chain_id as u64, pool);
        assert(self.pools@.dom() =~= old(self).pools@.dom());
        Ok(())
    }

    /// Release `amount` of locked liquidity of `chain_id` after a transfer:
    /// locked drops and available grows by `amount` (no check that so much
    /// was locked).
    pub fn unlock_liquidity(&mut self, chain_id: u32, amount: i128) -> (r: Result<(), BridgeError>)
        requires
            old(self).wf(),
            amount > 0 && old(self).has_pool(chain_id) ==> {
                &&& i128::MIN <= old(self).pool(chain_id).locked_liquidity - amount
                &&& old(self).pool(chain_id).available_liquidity + amount <= i128::MAX
            },
        ensures
            final(self).wf(),
            amount <= 0 ==> r == Err::<(), BridgeError>(BridgeError::AmountMustBePositive) && *final(self) == *old(self),
            amount > 0 && !old(self).has_pool(chain_id) ==>
                r == Err::<(), BridgeError>(BridgeError::DestinationChainNotSupported) && *final(self) == *old(self),
            amount > 0 && old(self).has_pool(chain_id) ==> {
                let p = old(self).pool(chain_id);
                &&& r is Ok
                &&& final(self).same_except_pool(old(self), chain_id)
                &&& final(self).pool(chain_id) == LiquidityPool {
                    available_liquidity: (p.available_liquidity + amount) as i128,
                    locked_liquidity: (p.locked_liquidity - amount) as i128,
                    ..p
                }
            },
    {
        if amount <= 0 {
            return Err(BridgeError::AmountMustBePositive);
        }
        if !self.pools.contains_key(chain_id as u64) {
            return Err(BridgeError::DestinationChainNotSupported);
        }
        let mut pool = self.pools.remove(chain_id as u64).unwrap();
        pool.locked_liquidity = pool.locked_liquidity - amount;
        pool.available_liquidity = pool.available_liquidity + amount;
        self.pools.insert(chain_id as u64, pool);
        assert(self.pools@.dom() =~= old(self).pools@.dom());
        Ok(())
    }

    /// Credit `amount` of collected fees to the pool of `chain_id`; returns
    /// the pool's new fee balance.
    pub fn record_fee_revenue(&mut self, chain_id: u32, amount: i128) -> (r: Result<i128, BridgeError>)
        requires
            old(self).wf(),
            amount > 0 && old(self).has_pool(chain_id) ==> old(self).pool(chain_id).accumulated_fees + amount <= i128::MAX,
        ensures
            final(self).wf(),
            amount <= 0 ==> r == Err::<i128, BridgeError>(BridgeError::AmountMustBePositive) && *final(self) == *old(self),
            amount > 0 && !old(self).has_pool(chain_id) ==>
                r == Err::<i128, BridgeError>(BridgeError::DestinationChainNotSupported) && *final(self) == *old(self),
            amount > 0 && old(self).has_pool(chain_id) ==> {
                let p = old(self).pool(chain_id);
                &&& r == Ok::<i128, BridgeError>((p.accumulated_fees + amount) as i128)
                &&& final(self).same_except_pool(old(self), chain_id)
                &&& final(self).pool(chain_id) == LiquidityPool { accumulated_fees: (p.accumulated_fees + amount) as i128, ..p }
            },
    {
        if amount <= 0 {
            return Err(BridgeError::AmountMustBePositive);
        }
        if !self.pools.contains_key(chain_id as u64) {
            return Err(BridgeError::DestinationChainNotSupported);
        }
        let mut pool = self.pools.remove(chain_id as u64).unwrap();
        pool.accumulated_fees = pool.accumulated_fees + amount;
        let fees = pool.accumulated_fees;
        self.pools.insert(chain_id as u64, pool);
        assert(self.pools@.dom() =~= old(self).pools@.dom());
        Ok(fees)
    }

    /// The fee balance of the pool of `chain_id` (0 without a pool).
    pub fn get_accumulated_fees(&self, chain_id: u32) -> (f: i128)
        requires
            self.wf(),
        ensures
            f == if self.has_pool(chain_id) { self.pool(chain_id).accumulated_fees } else { 0 },
    {
        match self.pools.get(chain_id as u64) {
            Some(pool) => pool.accumulated_fees,
            None => 0,
        }
    }

    /// The congestion multiplier (percent) of `pool` from its utilisation.
    pub fn calculate_congestion_multiplier(pool: &LiquidityPool) -> (m: u32)
        requires
            congestion_fits(pool.total_liquidity, pool.locked_liquidity),
        ensures
            m == congestion_multiplier(pool.total_liquidity, pool.locked_liquidity),
    {
        if pool.total_liquidity == 0 {
            return 100;
        }
        let utilization = div_i128(pool.locked_liquidity * 10000, pool.total_liquidity) as u32;
        if utilization < CONGESTION_STEP_1 {
            100
        } else if utilization < CONGESTION_STEP_2 {
            150
        } else if utilization < CONGESTION_STEP_3 {
            200
        } else {
            300
        }
    }

    /// The highest discount among the tiers whose threshold
    /// `user_volume_24h` reaches, 0 if none.
    pub fn calculate_volume_discount(volume_tiers: &IdMap<u32>, user_volume_24h: i128) -> (d: u32)
        ensures
            d == volume_discount(volume_tiers.entries(), user_volume_24h),
    {
        let mut discount: u32 = 0;
        let mut i: usize = 0;
        let n = volume_tiers.len();
        while i < n
            invariant
                n == volume_tiers.entries().len(),
                i <= n,
                discount == volume_discount(volume_tiers.entries().take(i as int), user_volume_24h),
            decreases n - i,
        {
            let threshold = volume_tiers.key_at(i);
            let tier_discount = *volume_tiers.value_at(i);
            proof {
                let s = volume_tiers.entries();
                assert(s.take(i as int + 1).drop_last() =~= s.take(i as int));
                assert(s.take(i as int + 1).last() == s[i as int]);
            }
            if user_volume_24h >= threshold as i128 && tier_discount > discount {
                discount = tier_discount;
            }
            i = i + 1;
        }
        assert(volume_tiers.entries().take(n as int) =~= volume_tiers.entries());
        discount
    }

    /// The fee for bridging `amount` to `chain_id` for a user who moved
    /// `user_volume_24h` in the last day.
    pub fn calculate_bridge_fee(&self, chain_id: u32, amount: i128, user_volume_24h: i128) -> (r: Result<i128, BridgeError>)
        requires
            self.wf(),
            self.has_pool(chain_id) ==> congestion_fits(self.pool(chain_id).total_liquidity, self.pool(chain_id).locked_liquidity),
            bridge_fee_fits(amount, self.base_fee(), self.congestion_of(chain_id), volume_discount(self.tiers(), user_volume_24h)),
        ensures
            r == Ok::<i128, BridgeError>(
                bridge_fee(amount, self.base_fee(), self.congestion_of(chain_id), volume_discount(self.tiers(), user_volume_24h)) as i128),
    {
        let base_fee: i128 = match &self.fee_structure {
            Some(f) => f.base_fee,
            None => BASE_FEE_BPS,
        };
        let congestion: u32 = match self.pools.get(chain_id as u64) {
            Some(pool) => Self::calculate_congestion_multiplier(pool),
            None => 100,
        };
        let discount: u32 = match &self.fee_structure {
            Some(f) => Self::calculate_volume_discount(&f.volume_discount_tiers, user_volume_24h),
            None => {
                let tiers = Self::default_volume_tiers();
                Self::calculate_volume_discount(&tiers, user_volume_24h)
            },
        };
        proof {
            assert(discount <= u32::MAX);
        }
        let base_fee_amount = div_i128(amount * base_fee, 10000);
        let congestion_adjusted = div_i128(base_fee_amount * congestion as i128, 100);
        let final_fee = div_i128(congestion_adjusted * (10000 - discount as i128), 10000);
        let min_fee = div_i128(amount * MIN_FEE_BPS, 10000);
        let max_fee = div_i128(amount * MAX_FEE_BPS, 10000);
        let fee = if final_fee < min_fee {
            min_fee
        } else if final_fee > max_fee {
            max_fee
        } else {
            final_fee
        };
        Ok(fee)
    }

    /// Replace the fee structure, keeping its congestion multiplier.  A base
    /// fee outside `[MIN_FEE_BPS, MAX_FEE_BPS]` is refused.
    pub fn update_fee_structure(&mut self, base_fee: i128, dynamic_multiplier: u32, volume_discount_tiers: IdMap<u32>, now: u64)
        -> (r: Result<FeeUpdatedEvent, BridgeError>)
        requires
            old(self).wf(),
            volume_discount_tiers.wf(),
        ensures
            final(self).wf(),
            base_fee < MIN_FEE_BPS || base_fee > MAX_FEE_BPS ==>
                r == Err::<FeeUpdatedEvent, BridgeError>(BridgeError::FeeCannotBeNegative) && *final(self) == *old(self),
            MIN_FEE_BPS <= base_fee <= MAX_FEE_BPS ==> {
                &&& r == Ok::<FeeUpdatedEvent, BridgeError>(FeeUpdatedEvent {
                    old_fee: old(self).base_fee(),
                    new_fee: base_fee,
                    multiplier: dynamic_multiplier,
                })
                &&& final(self).pools == old(self).pools
                &&& final(self).fee_structure matches Some(f) && {
                    &&& f.base_fee == base_fee
                    &&& f.dynamic_multiplier == dynamic_multiplier
                    &&& f.congestion_multiplier == match old(self).fee_structure {
                        Some(o) => o.congestion_multiplier,
                        None => 100u32,
                    }
                    &&& f.volume_discount_tiers == volume_discount_tiers
                    &&& f.last_updated == now
                }
            },
    {
        if base_fee < MIN_FEE_BPS || base_fee > MAX_FEE_BPS {
            return Err(BridgeError::FeeCannotBeNegative);
        }
        let (old_fee, congestion_multiplier) = match &self.fee_structure {
            Some(f) => (f.base_fee, f.congestion_multiplier),
            None => (BASE_FEE_BPS, 100u32),
        };
        self.fee_structure = Some(BridgeFeeStructure {
            base_fee,
            dynamic_multiplier,
            congestion_multiplier,
            volume_discount_tiers,
            last_updated: now,
        });
        Ok(FeeUpdatedEvent { old_fee, new_fee: base_fee, multiplier: dynamic_multiplier })
    }

    /// The time multiplier of `position` at `now`.
    pub fn time_in_pool_multiplier(position: &LPPosition, now: u64) -> (m: i128)
        ensures
            m == time_multiplier(position.deposited_at, now),
            TIME_SCALE <= m <= MAX_TIME_MULTIPLIER,
    {
        let elapsed = now.saturating_sub(position.deposited_at) as i128;
        let growth = (elapsed * TIME_SCALE) / TIME_MULTIPLIER_STEP_SECS;
        let m = TIME_SCALE + growth;
        if m < MAX_TIME_MULTIPLIER { m } else { MAX_TIME_MULTIPLIER }
    }

    /// The reward of `position` from a pool of `total_liquidity` that has
    /// collected `accumulated_fees`, at `now`: its share of the fees, weighted
    /// by time in pool, at most the fees collected; 0 when there is nothing
    /// to share.
    pub fn calculate_lp_rewards(position: &LPPosition, total_liquidity: i128, accumulated_fees: i128, now: u64) -> (r: i128)
        requires
            reward_fits(position.amount, position.deposited_at, total_liquidity, accumulated_fees, now),
        ensures
            r == lp_reward(position.amount, position.deposited_at, total_liquidity, accumulated_fees, now),
    {
        if total_liquidity == 0 || position.amount == 0 || accumulated_fees == 0 {
            return 0;
        }
        let share_factor = div_i128(position.amount * REWARD_SCALE, total_liquidity);
        let fee_share = div_i128(accumulated_fees * share_factor, REWARD_SCALE);
        let time_multiplier = Self::time_in_pool_multiplier(position, now);
        let reward = div_i128(fee_share * time_multiplier, TIME_SCALE);
        if reward < accumulated_fees { reward } else { accumulated_fees }
    }

    /// The figures of the pool of `chain_id`, if it exists.
    pub fn get_pool(&self, chain_id: u32) -> (r: Option<PoolSummary>)
        requires
            self.wf(),
        ensures
            r == if self.has_pool(chain_id) {
                let p = self.pool(chain_id);
                Some(PoolSummary {
                    chain_id: p.chain_id,
                    token: p.token,
                    total_liquidity: p.total_liquidity,
                    available_liquidity: p.available_liquidity,
                    locked_liquidity: p.locked_liquidity,
                    accumulated_fees: p.accumulated_fees,
                })
            } else {
                None::<PoolSummary>
            },
    {
        match self.pools.get(chain_id as u64) {
            Some(p) => Some(PoolSummary {
                chain_id: p.chain_id,
                token: p.token,
                total_liquidity: p.total_liquidity,
                available_liquidity: p.available_liquidity,
                locked_liquidity: p.locked_liquidity,
                accumulated_fees: p.accumulated_fees,
            }),
            None => None,
        }
    }

    /// The position of `provider` in the pool of `chain_id`, if any.
    pub fn get_lp_position(&self, chain_id: u32, provider: AccountId) -> (r: Option<LPPosition>)
        requires
            self.wf(),
        ensures
            r == if self.has_pool(chain_id) && self.pool(chain_id).lp_providers@.contains_key(provider) {
                Some(self.pool(chain_id).lp_providers@[provider])
            } else {
                None::<LPPosition>
            },
    {
        match self.pools.get(chain_id as u64) {
            Some(pool) => match pool.lp_providers.get(provider) {
                Some(e) => Some(*e),
                None => None,
            },
            None => None,
        }
    }

    /// The available liquidity of `chain_id` (0 without a pool).
    pub fn get_available_liquidity(&self, chain_id: u32) -> (a: i128)
        requires
            self.wf(),
        ensures
            a == if self.has_pool(chain_id) { self.pool(chain_id).available_liquidity } else { 0 },
    {
        match self.pools.get(chain_id as u64) {
            Some(pool) => pool.available_liquidity,
            None => 0,
        }
    }

    /// Whether `chain_id` has at least `amount` available.
    pub fn has_sufficient_liquidity(&self, chain_id: u32, amount: i128) -> (b: bool)
        requires
            self.wf(),
        ensures
            b == ((if self.has_pool(chain_id) { self.pool(chain_id).available_liquidity } else { 0 }) >= amount),
    {
        self.get_available_liquidity(chain_id) >= amount
    }

    /// The fee structure in force (the default one, dated `now`, when none
    /// was set).
    pub fn get_fee_structure(&self, now: u64) -> (f: BridgeFeeStructure)
        requires
            self.wf(),
        ensures
            f.volume_discount_tiers.wf(),
            f.volume_discount_tiers.entries() == self.tiers(),
            f.base_fee == self.base_fee(),
            match self.fee_structure {
                Some(s) => f.dynamic_multiplier == s.dynamic_multiplier
                    && f.congestion_multiplier == s.congestion_multiplier && f.last_updated == s.last_updated,
                None => f.dynamic_multiplier == 100 && f.congestion_multiplier == 100 && f.last_updated == now,
            },
    {
        match &self.fee_structure {
            Some(s) => BridgeFeeStructure {
                base_fee: s.base_fee,
                dynamic_multiplier: s.dynamic_multiplier,
                congestion_multiplier: s.congestion_multiplier,
                volume_discount_tiers: s.volume_discount_tiers.copied(),
                last_updated: s.last_updated,
            },
            None => BridgeFeeStructure {
                base_fee: BASE_FEE_BPS,
                dynamic_multiplier: 100,
                congestion_multiplier: 100,
                volume_discount_tiers: Self::default_volume_tiers(),
                last_updated: now,
            },
        }
    }
}

/// A provider's reward never exceeds the fees the pool has collected.
pub proof fn law_rewards_bounded_by_collected_fees(amount: i128, deposited_at: u64, total: i128, fees: i128, now: u64)
    requires
        fees >= 0,
    ensures
        lp_reward(amount, deposited_at, total, fees, now) <= fees,
        fees == 0 ==> lp_reward(amount, deposited_at, total, fees, now) == 0,
{
}

/// The time multiplier starts at 1x, never exceeds 3x, and does not shrink
/// as the position is held longer.
pub proof fn law_time_multiplier_grows_and_caps(deposited_at: u64, t1: u64, t2: u64)
    requires
        t1 <= t2,
    ensures
        TIME_SCALE <= time_multiplier(deposited_at, t1) <= MAX_TIME_MULTIPLIER,
        time_multiplier(deposited_at, deposited_at) == TIME_SCALE,
        time_multiplier(deposited_at, t1) <= time_multiplier(deposited_at, t2),
{
    let e1: int = if t1 >= deposited_at { t1 - deposited_at } else { 0 };
    let e2: int = if t2 >= deposited_at { t2 - deposited_at } else { 0 };
    assert(e1 * TIME_SCALE <= e2 * TIME_SCALE) by (nonlinear_arith)
        requires e1 <= e2;
    vstd::arithmetic::div_mod::lemma_div_is_ordered(e1 * TIME_SCALE, e2 * TIME_SCALE, TIME_MULTIPLIER_STEP_SECS as int);
    assert(0 <= e1 * TIME_SCALE) by (nonlinear_arith)
        requires 0 <= e1;
    vstd::arithmetic::div_mod::lemma_div_is_ordered(0, e1 * TIME_SCALE, TIME_MULTIPLIER_STEP_SECS as int);
}

/// Of two equal positions in the same pool, the one deposited earlier earns
/// at least as much.
pub proof fn law_longer_held_position_earns_no_less(amount: i128, total: i128, fees: i128, earlier: u64, later: u64, now: u64)
    requires
        amount > 0,
        total > 0,
        fees > 0,
        earlier <= later,
    ensures
        lp_reward(amount, later, total, fees, now) <= lp_reward(amount, earlier, total, fees, now),
{
    let m_early = time_multiplier(earlier, now);
    let m_late = time_multiplier(later, now);
    let e_early: int = if now >= earlier { now - earlier } else { 0 };
    let e_late: int = if now >= later { now - later } else { 0 };
    assert(e_late * TIME_SCALE <= e_early * TIME_SCALE) by (nonlinear_arith)
        requires e_late <= e_early;
    vstd::arithmetic::div_mod::lemma_div_is_ordered(e_late * TIME_SCALE, e_early * TIME_SCALE, TIME_MULTIPLIER_STEP_SECS as int);
    assert(m_late <= m_early);
    let sf = share_factor(amount, total);
    assert(amount * REWARD_SCALE >= 0) by (nonlinear_arith)
        requires amount > 0;
    assert((amount * REWARD_SCALE) / (total as int) >= 0) by (nonlinear_arith)
        requires amount * REWARD_SCALE >= 0, total > 0;
    assert(sf >= 0);
    assert(fees * sf >= 0) by (nonlinear_arith)
        requires fees > 0, sf >= 0;
    let fs = fee_share(amount, total, fees);
    assert((fees * sf) / (REWARD_SCALE as int) >= 0) by (nonlinear_arith)
        requires fees * sf >= 0;
    assert(fs >= 0);
    assert(fs * m_late <= fs * m_early) by (nonlinear_arith)
        requires fs >= 0, m_late <= m_early;
    assert(fs * m_late >= 0) by (nonlinear_arith)
        requires fs >= 0, m_late >= 0;
    vstd::arithmetic::div_mod::lemma_div_is_ordered(fs * m_late, fs * m_early, TIME_SCALE as int);
}

/// The bridge fee lies between the minimum and the maximum fee of the amount.
pub proof fn law_fee_within_bounds(amount: i128, base_fee: i128, congestion: u32, discount: u32)
    requires
        bridge_fee_fits(amount, base_fee, congestion, discount),
    ensures
        trunc_div(amount * MIN_FEE_BPS, 10000) <= bridge_fee(amount, base_fee, congestion, discount),
        bridge_fee(amount, base_fee, congestion, discount) <= trunc_div(amount * MAX_FEE_BPS, 10000),
{
}

/// A quotient stays below `c` exactly when the dividend stays below `c`
/// times the divisor.
proof fn lemma_quotient_below(x: int, t: int, c: int)
    requires
        x >= 0,
        t > 0,
    ensures
        (x / t < c) <==> (x < c * t),
{
    vstd::arithmetic::div_mod::lemma_fundamental_div_mod(x, t);
    let q = x / t;
    let r = x % t;
    assert(0 <= r < t) by {
        vstd::arithmetic::div_mod::lemma_mod_bound(x, t);
    }
    assert((q < c) <==> (x < c * t)) by (nonlinear_arith)
        requires
            x == t * q + r,
            0 <= r < t,
            t > 0,
    {
        if q < c {
            assert(t * q <= t * (c - 1));
        } else {
            assert(t * q >= t * c);
        }
    }
}

/// The congestion multiplier of a pool with liquidity: 1x while less than
/// half of it is locked, 1.5x from 50 %, 2x from 70 % and 3x from 90 % of
/// it locked.
pub proof fn law_congestion_steps(total: i128, locked: i128)
    requires
        0 < total,
        0 <= locked <= total,
    ensures
        congestion_multiplier(total, locked) == if 2 * locked < total {
            100u32
        } else if 10 * locked < 7 * total {
            150u32
        } else if 10 * locked < 9 * total {
            200u32
        } else {
            300u32
        },
{
    let x: int = locked * 10000;
    let t: int = total as int;
    assert(x / t <= 10000) by {
        lemma_quotient_below(x, t, 10001);
        assert(x < 10001 * t) by (nonlinear_arith)
            requires
                x == locked * 10000,
                t == total,
                0 <= locked <= total,
                0 < total,
        ;
    }
    assert(x / t >= 0) by {
        vstd::arithmetic::div_mod::lemma_div_pos_is_pos(x, t);
    }
    lemma_quotient_below(x, t, 5000);
    lemma_quotient_below(x, t, 7000);
    lemma_quotient_below(x, t, 9000);
}

/// Raising the locked share across a congestion step raises the fee factor:
/// the multiplier never falls as more of a pool is locked.
pub proof fn law_congestion_grows_with_utilisation(total: i128, locked1: i128, locked2: i128)
    requires
        0 < total,
        0 <= locked1 <= locked2 <= total,
    ensures
        congestion_multiplier(total, locked1) <= congestion_multiplier(total, locked2),
        100 <= congestion_multiplier(total, locked1) <= 300,
{
    law_congestion_steps(total, locked1);
    law_congestion_steps(total, locked2);
}

} // verus!
