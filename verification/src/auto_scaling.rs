//! Load management: batch sizes that shrink as load grows, shedding and
//! queuing of operations by priority, and gas allocation by priority and
//! load.
//!
//! Load is the percentage of the per-batch gas budget used: below 50 % it
//! is low, from 50 % medium, from 75 % high, from 90 % critical.
use vstd::prelude::*;
use crate::errors::BridgeError;

verus! {

/// Largest batch by default.
pub const DEFAULT_MAX_BATCH_SIZE: u32 = 10;
/// Smallest batch by default.
pub const DEFAULT_MIN_BATCH_SIZE: u32 = 1;
/// Load (percent) where medium begins.
pub const LOAD_THRESHOLD_MEDIUM: u64 = 50;
/// Load (percent) where high begins.
pub const LOAD_THRESHOLD_HIGH: u64 = 75;
/// Load (percent) where critical begins.
pub const LOAD_THRESHOLD_CRITICAL: u64 = 90;
/// Most gas one transaction may use.
pub const GAS_LIMIT_PER_TX: u64 = 10_000_000;
/// Least gas an allocation gets.
pub const MIN_GAS_ALLOCATION: u64 = 100_000;
/// Gas budget of a batch by default.
pub const DEFAULT_GAS_BUDGET_PER_BATCH: u64 = 5_000_000;

/// How loaded the system is.
#[derive(Copy, Clone, Debug, PartialEq, Eq, Structural)]
pub enum LoadLevel {
    Low,
    Medium,
    High,
    Critical,
}

/// How batches and shedding are configured.
#[derive(Copy, Clone, Debug, PartialEq, Eq, Structural)]
pub struct ScalingPolicy {
    pub max_batch_size: u32,
    pub min_batch_size: u32,
    pub gas_budget_per_batch: u64,
    pub enable_load_shedding: bool,
    pub load_shedding_threshold: u64,
    pub priority_queue_enabled: bool,
}

/// What the load has been.
#[derive(Copy, Clone, Debug, PartialEq, Eq, Structural)]
pub struct ScalingMetrics {
    /// Percent of the gas budget used.
    pub current_load: u64,
    pub processed_operations: u64,
    pub shed_operations: u64,
    pub average_batch_size: u32,
    pub last_scaling_adjustment: u64,
}

/// The policy in force when none is stored.
pub open spec fn default_policy() -> ScalingPolicy {
    ScalingPolicy {
        max_batch_size: DEFAULT_MAX_BATCH_SIZE,
        min_batch_size: DEFAULT_MIN_BATCH_SIZE,
        gas_budget_per_batch: DEFAULT_GAS_BUDGET_PER_BATCH,
        enable_load_shedding: true,
        load_shedding_threshold: LOAD_THRESHOLD_HIGH,
        priority_queue_enabled: true,
    }
}

/// The metrics in force when none are stored, dated `now`.
pub open spec fn default_metrics(now: u64) -> ScalingMetrics {
    ScalingMetrics {
        current_load: 0,
        processed_operations: 0,
        shed_operations: 0,
        average_batch_size: DEFAULT_MAX_BATCH_SIZE,
        last_scaling_adjustment: now,
    }
}

/// The level of a load.
pub open spec fn level_of(load: u64) -> LoadLevel {
    if load >= LOAD_THRESHOLD_CRITICAL {
        LoadLevel::Critical
    } else if load >= LOAD_THRESHOLD_HIGH {
        LoadLevel::High
    } else if load >= LOAD_THRESHOLD_MEDIUM {
        LoadLevel::Medium
    } else {
        LoadLevel::Low
    }
}

/// The batch size for `load` under `p`: the maximum when low, shrinking
/// linearly to half the range at the high threshold, then towards the
/// minimum, which applies from the critical threshold.
pub open spec fn batch_size(p: ScalingPolicy, load: u64) -> int {
    let range: int = p.max_batch_size - p.min_batch_size;
    if load >= LOAD_THRESHOLD_CRITICAL {
        p.min_batch_size as int
    } else if load >= LOAD_THRESHOLD_HIGH {
        let ratio = ((15 - (load - 75)) * 100) / 15;
        p.min_batch_size + (range * ratio) / 200
    } else if load >= LOAD_THRESHOLD_MEDIUM {
        let ratio = 100 - ((load - 50) * 100 / 25) / 2;
        p.min_batch_size + (range * ratio) / 100
    } else {
        p.max_batch_size as int
    }
}

/// The batch-size computation stays within `u32`.
pub open spec fn batch_size_fits(p: ScalingPolicy) -> bool {
    &&& p.min_batch_size <= p.max_batch_size
    &&& (p.max_batch_size - p.min_batch_size) * 100 <= u32::MAX
}

/// The gas share (percent) of an operation of `priority`.
pub open spec fn priority_multiplier(priority: u32) -> u64 {
    if priority < 50 { 120 } else if priority < 100 { 100 } else if priority < 200 { 80 } else { 60 }
}

/// The gas share (percent) under `load`.
pub open spec fn load_multiplier(load: u64) -> u64 {
    if load >= LOAD_THRESHOLD_CRITICAL { 50 } else if load >= LOAD_THRESHOLD_HIGH { 70 } else if load >= LOAD_THRESHOLD_MEDIUM { 85 } else { 100 }
}

/// The gas allocated to an operation of `priority` needing `base_gas` under
/// `load`: scaled by both shares, then kept within 100 000 and 10 000 000.
pub open spec fn gas_allocation(priority: u32, base_gas: u64, load: u64) -> int {
    let adjusted = (base_gas * priority_multiplier(priority) * load_multiplier(load)) / 10000;
    let capped = if adjusted < GAS_LIMIT_PER_TX { adjusted } else { GAS_LIMIT_PER_TX as int };
    if capped > MIN_GAS_ALLOCATION { capped } else { MIN_GAS_ALLOCATION as int }
}

/// The scaling state.
#[derive(Clone)]
pub struct AutoScaler {
    pub policy: Option<ScalingPolicy>,
    pub metrics: Option<ScalingMetrics>,
    pub load_level: Option<LoadLevel>,
}

impl AutoScaler {
    /// The policy in force.
    pub open spec fn policy_now(&self) -> ScalingPolicy {
        match self.policy { Some(p) => p, None => default_policy() }
    }

    /// The metrics in force at `now`.
    pub open spec fn metrics_now(&self, now: u64) -> ScalingMetrics {
        match self.metrics { Some(m) => m, None => default_metrics(now) }
    }

    /// The level in force.
    pub open spec fn level_now(&self) -> LoadLevel {
        match self.load_level { Some(l) => l, None => LoadLevel::Low }
    }

    /// Nothing stored.
    pub fn new() -> (a: Self)
        ensures
            a.policy is None,
            a.metrics is None,
            a.load_level is None,
    {
        AutoScaler { policy: None, metrics: None, load_level: None }
    }

    /// The default policy.
    pub fn default_policy() -> (p: ScalingPolicy)
        ensures
            p == default_policy(),
    {
        ScalingPolicy {
            max_batch_size: DEFAULT_MAX_BATCH_SIZE,
            min_batch_size: DEFAULT_MIN_BATCH_SIZE,
            gas_budget_per_batch: DEFAULT_GAS_BUDGET_PER_BATCH,
            enable_load_shedding: true,
            load_shedding_threshold: LOAD_THRESHOLD_HIGH,
            priority_queue_enabled: true,
        }
    }

    /// The default metrics, dated `now`.
    pub fn default_metrics(now: u64) -> (m: ScalingMetrics)
        ensures
            m == default_metrics(now),
    {
        ScalingMetrics {
            current_load: 0,
            processed_operations: 0,
            shed_operations: 0,
            average_batch_size: DEFAULT_MAX_BATCH_SIZE,
            last_scaling_adjustment: now,
        }
    }

    /// Install the default policy and metrics at `now`, load low.
    pub fn initialize(&mut self, now: u64) -> (r: Result<(), BridgeError>)
        ensures
            r is Ok,
            final(self).policy == Some(default_policy()),
            final(self).metrics == Some(default_metrics(now)),
            final(self).load_level == Some(LoadLevel::Low),
    {
        self.policy = Some(Self::default_policy());
        self.metrics = Some(Self::default_metrics(now));
        self.load_level = Some(LoadLevel::Low);
        Ok(())
    }

    /// The level in force.
    pub fn get_current_load_level(&self) -> (l: LoadLevel)
        ensures
            l == self.level_now(),
    {
        match self.load_level {
            Some(l) => l,
            None => LoadLevel::Low,
        }
    }

    fn policy_or_default(&self) -> (p: ScalingPolicy)
        ensures
            p == self.policy_now(),
    {
        match self.policy {
            Some(p) => p,
            None => Self::default_policy(),
        }
    }

    fn metrics_or_default(&self, now: u64) -> (m: ScalingMetrics)
        ensures
            m == self.metrics_now(now),
    {
        match self.metrics {
            Some(m) => m,
            None => Self::default_metrics(now),
        }
    }

    /// The batch size for the current load.
    pub fn calculate_optimal_batch_size(&self, now: u64) -> (b: u32)
        requires
            LOAD_THRESHOLD_MEDIUM <= self.metrics_now(now).current_load < LOAD_THRESHOLD_CRITICAL
                ==> batch_size_fits(self.policy_now()),
        ensures
            b == batch_size(self.policy_now(), self.metrics_now(now).current_load),
    {
        let metrics = self.metrics_or_default(now);
        let policy = self.policy_or_default();
        let load = metrics.current_load;
        if load >= LOAD_THRESHOLD_CRITICAL {
            policy.min_batch_size
        } else if load >= LOAD_THRESHOLD_HIGH {
            let range = LOAD_THRESHOLD_CRITICAL - LOAD_THRESHOLD_HIGH;
            let position = load - LOAD_THRESHOLD_HIGH;
            let ratio = ((range - position) as u32 * 100 / range as u32) as u32;
            let batch_range = policy.max_batch_size - policy.min_batch_size;
            proof {
                assert(ratio <= 100);
                assert(batch_range * ratio <= batch_range * 100) by (nonlinear_arith)
                    requires ratio <= 100;
                assert((batch_range * ratio) / 200 <= batch_range) by (nonlinear_arith)
                    requires ratio <= 100;
            }
            policy.min_batch_size + (batch_range * ratio / 200)
        } else if load >= LOAD_THRESHOLD_MEDIUM {
            let range = LOAD_THRESHOLD_HIGH - LOAD_THRESHOLD_MEDIUM;
            let position = load - LOAD_THRESHOLD_MEDIUM;
            let ratio = (100 - (position as u32 * 100 / range as u32 / 2)) as u32;
            let batch_range = policy.max_batch_size - policy.min_batch_size;
            proof {
                assert(ratio <= 100);
                assert(batch_range * ratio <= batch_range * 100) by (nonlinear_arith)
                    requires ratio <= 100;
                assert((batch_range * ratio) / 100 <= batch_range) by (nonlinear_arith)
                    requires ratio <= 100;
            }
            policy.min_batch_size + (batch_range * ratio / 100)
        } else {
            policy.max_batch_size
        }
    }

    /// Whether to shed an operation of `priority` (lower is more urgent):
    /// only with shedding on and the load at its threshold; then above 150
    /// when critical, above 200 otherwise.
    pub fn should_shed_operation(&self, priority: u32, now: u64) -> (b: bool)
        ensures
            ({
                let p = self.policy_now();
                let load = self.metrics_now(now).current_load;
                b == (p.enable_load_shedding && load >= p.load_shedding_threshold
                    && priority > (if load >= LOAD_THRESHOLD_CRITICAL { 150u32 } else { 200u32 }))
            }),
    {
        let metrics = self.metrics_or_default(now);
        let policy = self.policy_or_default();
        if !policy.enable_load_shedding {
            return false;
        }
        let load = metrics.current_load;
        if load < policy.load_shedding_threshold {
            return false;
        }
        let shed_threshold: u32 = if load >= LOAD_THRESHOLD_CRITICAL { 150 } else { 200 };
        priority > shed_threshold
    }

    /// Add a batch of `operations_processed` and `operations_shed` that used
    /// `current_gas_usage` at `now`: counters grow, the load becomes the
    /// percentage of the gas budget used, the average batch size moves one
    /// eighth of the way to this batch (its size cut to 32 bits), and the
    /// level follows the load.
    pub fn update_load_metrics(&mut self, operations_processed: u64, operations_shed: u64, current_gas_usage: u64, now: u64)
        -> (r: Result<(), BridgeError>)
        requires
            old(self).metrics_now(now).processed_operations + operations_processed <= u64::MAX,
            old(self).metrics_now(now).shed_operations + operations_shed <= u64::MAX,
            old(self).policy_now().gas_budget_per_batch > 0 ==> current_gas_usage * 100 <= u64::MAX,
            old(self).metrics_now(now).average_batch_size * 7 + (operations_processed as u32) <= u32::MAX,
        ensures
            r is Ok,
            ({
                let m = old(self).metrics_now(now);
                let p = old(self).policy_now();
                let load: u64 = if p.gas_budget_per_batch > 0 {
                    ((current_gas_usage * 100) / (p.gas_budget_per_batch as int)) as u64
                } else {
                    0
                };
                &&& final(self).metrics == Some(ScalingMetrics {
                    current_load: load,
                    processed_operations: (m.processed_operations + operations_processed) as u64,
                    shed_operations: (m.shed_operations + operations_shed) as u64,
                    average_batch_size: ((m.average_batch_size * 7 + (operations_processed as u32)) / 8) as u32,
                    last_scaling_adjustment: now,
                })
                &&& final(self).load_level == Some(level_of(load))
                &&& final(self).policy == old(self).policy
            }),
    {
        let mut metrics = self.metrics_or_default(now);
        metrics.processed_operations = metrics.processed_operations + operations_processed;
        metrics.shed_operations = metrics.shed_operations + operations_shed;
        let policy = self.policy_or_default();
        metrics.current_load = if policy.gas_budget_per_batch > 0 {
            current_gas_usage * 100 / policy.gas_budget_per_batch
        } else {
            0
        };
        let current_batch = operations_processed;
        metrics.average_batch_size = (metrics.average_batch_size * 7 + current_batch as u32) / 8;
        metrics.last_scaling_adjustment = now;
        let load = metrics.current_load;
        self.metrics = Some(metrics);
        self.update_load_level(load);
        Ok(())
    }

    /// Set the level that `load` falls in.
    fn update_load_level(&mut self, load: u64)
        ensures
            final(self).load_level == Some(level_of(load)),
            final(self).policy == old(self).policy,
            final(self).metrics == old(self).metrics,
    {
        let level = if load >= LOAD_THRESHOLD_CRITICAL {
            LoadLevel::Critical
        } else if load >= LOAD_THRESHOLD_HIGH {
            LoadLevel::High
        } else if load >= LOAD_THRESHOLD_MEDIUM {
            LoadLevel::Medium
        } else {
            LoadLevel::Low
        };
        self.load_level = Some(level);
    }

    /// Whether to queue an operation of `priority`: never with queuing off
    /// or at low load; below 200 at medium, 150 at high, 100 at critical.
    pub fn should_queue_operation(&self, priority: u32) -> (b: bool)
        ensures
            b == (self.policy_now().priority_queue_enabled && match self.level_now() {
                LoadLevel::Critical => priority < 100,
                LoadLevel::High => priority < 150,
                LoadLevel::Medium => priority < 200,
                LoadLevel::Low => false,
            }),
    {
        let policy = self.policy_or_default();
        if !policy.priority_queue_enabled {
            return false;
        }
        match self.get_current_load_level() {
            LoadLevel::Critical => priority < 100,
            LoadLevel::High => priority < 150,
            LoadLevel::Medium => priority < 200,
            LoadLevel::Low => false,
        }
    }

    /// The gas allocated to an operation of `priority` needing `base_gas`
    /// under the current load.
    pub fn allocate_gas_budget(&self, priority: u32, base_gas: u64, now: u64) -> (g: u64)
        requires
            base_gas * 120 * 100 <= u64::MAX,
        ensures
            g == gas_allocation(priority, base_gas, self.metrics_now(now).current_load),
    {
        let metrics = self.metrics_or_default(now);
        let load = metrics.current_load;
        let priority_multiplier: u64 = if priority < 50 {
            120
        } else if priority < 100 {
            100
        } else if priority < 200 {
            80
        } else {
            60
        };
        let load_multiplier: u64 = if load >= LOAD_THRESHOLD_CRITICAL {
            50
        } else if load >= LOAD_THRESHOLD_HIGH {
            70
        } else if load >= LOAD_THRESHOLD_MEDIUM {
            85
        } else {
            100
        };
        proof {
            assert(base_gas * priority_multiplier <= base_gas * 120) by (nonlinear_arith)
                requires priority_multiplier <= 120;
            assert(base_gas * priority_multiplier * load_multiplier <= base_gas * 120 * 100) by (nonlinear_arith)
                requires priority_multiplier <= 120, load_multiplier <= 100;
        }
        let adjusted = base_gas * priority_multiplier * load_multiplier / 10000;
        let capped = if adjusted < GAS_LIMIT_PER_TX { adjusted } else { GAS_LIMIT_PER_TX };
        if capped > MIN_GAS_ALLOCATION { capped } else { MIN_GAS_ALLOCATION }
    }

    /// Under extreme load: the largest batch drops to the smallest (at least
    /// 1) and shedding starts at medium load.
    pub fn emergency_scaling(&mut self) -> (r: Result<(), BridgeError>)
        ensures
            r is Ok,
            final(self).policy == Some(ScalingPolicy {
                max_batch_size: if old(self).policy_now().min_batch_size > 1 { old(self).policy_now().min_batch_size } else { 1 },
                enable_load_shedding: true,
                load_shedding_threshold: LOAD_THRESHOLD_MEDIUM,
                ..old(self).policy_now()
            }),
            final(self).metrics == old(self).metrics,
            final(self).load_level == old(self).load_level,
    {
        let mut policy = self.policy_or_default();
        policy.max_batch_size = if policy.min_batch_size > 1 { policy.min_batch_size } else { 1 };
        policy.enable_load_shedding = true;
        policy.load_shedding_threshold = LOAD_THRESHOLD_MEDIUM;
        self.policy = Some(policy);
        Ok(())
    }

    /// Back to the default policy and metrics at `now`, load low.
    pub fn reset_scaling(&mut self, now: u64) -> (r: Result<(), BridgeError>)
        ensures
            r is Ok,
            final(self).policy == Some(default_policy()),
            final(self).metrics == Some(default_metrics(now)),
            final(self).load_level == Some(LoadLevel::Low),
    {
        self.initialize(now)
    }
}

/// The batch size never leaves `[min_batch_size, max_batch_size]`.
pub proof fn law_batch_size_within_policy(p: ScalingPolicy, load: u64)
    requires
        p.min_batch_size <= p.max_batch_size,
    ensures
        p.min_batch_size <= batch_size(p, load) <= p.max_batch_size,
{
    let range: int = p.max_batch_size - p.min_batch_size;
    if LOAD_THRESHOLD_HIGH <= load < LOAD_THRESHOLD_CRITICAL {
        let ratio = ((15 - (load - 75)) * 100) / 15;
        assert(0 <= ratio <= 100);
        assert(0 <= (range * ratio) / 200 <= range) by (nonlinear_arith)
            requires 0 <= ratio <= 100, range >= 0;
    } else if LOAD_THRESHOLD_MEDIUM <= load < LOAD_THRESHOLD_HIGH {
        let ratio = 100 - ((load - 50) * 100 / 25) / 2;
        assert(0 <= ratio <= 100);
        assert(0 <= (range * ratio) / 100 <= range) by (nonlinear_arith)
            requires 0 <= ratio <= 100, range >= 0;
    }
}

/// Gas allocations stay between 100 000 and 10 000 000, and an urgent
/// operation never gets less than a low-priority one under the same load.
pub proof fn law_gas_allocation_bounds_and_priority(p1: u32, p2: u32, base_gas: u64, load: u64)
    requires
        p1 <= p2,
    ensures
        MIN_GAS_ALLOCATION <= gas_allocation(p1, base_gas, load) <= GAS_LIMIT_PER_TX,
        gas_allocation(p2, base_gas, load) <= gas_allocation(p1, base_gas, load),
{
    let m1 = priority_multiplier(p1);
    let m2 = priority_multiplier(p2);
    let l = load_multiplier(load);
    assert(m2 <= m1);
    assert(base_gas * m2 * l <= base_gas * m1 * l) by (nonlinear_arith)
        requires m2 <= m1, l >= 0;
    vstd::arithmetic::div_mod::lemma_div_is_ordered(base_gas * m2 * l, base_gas * m1 * l, 10000);
}

} // verus!
