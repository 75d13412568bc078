//! Platform health metrics: invocations, storage writes, events, rewards,
//! content minted, active users, an efficiency score in basis points, and a
//! composite health score 0-100.
use vstd::prelude::*;

verus! {

/// The health counters.
#[derive(Copy, Clone, Debug, PartialEq, Eq, Structural)]
pub struct SustainabilityMetrics {
    pub total_invocations: u64,
    pub total_storage_writes: u64,
    pub total_events_emitted: u64,
    pub total_rewards_distributed: i128,
    pub total_content_minted: u64,
    pub total_active_users: u64,
    /// Successful over total operations, in basis points.
    pub efficiency_score: u32,
    pub last_updated: u64,
}

/// The metrics before anything was recorded, dated `now`.
pub open spec fn initial_metrics(now: u64) -> SustainabilityMetrics {
    SustainabilityMetrics {
        total_invocations: 0,
        total_storage_writes: 0,
        total_events_emitted: 0,
        total_rewards_distributed: 0,
        total_content_minted: 0,
        total_active_users: 0,
        efficiency_score: 10000,
        last_updated: now,
    }
}

/// A 0-100 share of `count` against a full mark of 1000.
pub open spec fn activity_component(count: u64) -> int {
    if count >= 1000 { 100 } else { (count * 100) / 1000 }
}

/// The composite health score: half efficiency, a quarter content, a
/// quarter users.
pub open spec fn health(m: SustainabilityMetrics) -> int {
    ((m.efficiency_score / 100) * 50 + activity_component(m.total_content_minted) * 25
        + activity_component(m.total_active_users) * 25) / 100
}

/// The stored metrics, if any were recorded.
#[derive(Clone)]
pub struct SustainabilityManager {
    pub metrics: Option<SustainabilityMetrics>,
}

impl SustainabilityManager {
    /// The metrics in force at `now`.
    pub open spec fn current(&self, now: u64) -> SustainabilityMetrics {
        match self.metrics { Some(m) => m, None => initial_metrics(now) }
    }

    /// Nothing recorded.
    pub fn new() -> (s: Self)
        ensures
            s.metrics is None,
    {
        SustainabilityManager { metrics: None }
    }

    /// The metrics in force at `now`.
    pub fn get_metrics(&self, now: u64) -> (m: SustainabilityMetrics)
        ensures
            m == self.current(now),
    {
        match self.metrics {
            Some(m) => m,
            None => SustainabilityMetrics {
                total_invocations: 0,
                total_storage_writes: 0,
                total_events_emitted: 0,
                total_rewards_distributed: 0,
                total_content_minted: 0,
                total_active_users: 0,
                efficiency_score: 10000,
                last_updated: now,
            },
        }
    }

    /// Count an invocation at `now`, and a storage write with it.
    pub fn record_invocation(&mut self, storage_write: bool, now: u64) -> (m: SustainabilityMetrics)
        requires
            old(self).current(now).total_invocations < u64::MAX,
            storage_write ==> old(self).current(now).total_storage_writes < u64::MAX,
        ensures
            m == (SustainabilityMetrics {
                total_invocations: (old(self).current(now).total_invocations + 1) as u64,
                total_storage_writes: if storage_write {
                    (old(self).current(now).total_storage_writes + 1) as u64
                } else {
                    old(self).current(now).total_storage_writes
                },
                last_updated: now,
                ..old(self).current(now)
            }),
            final(self).metrics == Some(m),
    {
        let mut m = self.get_metrics(now);
        m.total_invocations = m.total_invocations + 1;
        if storage_write {
            m.total_storage_writes = m.total_storage_writes + 1;
        }
        m.last_updated = now;
        self.metrics = Some(m);
        m
    }

    /// Count an emitted event at `now`.
    pub fn record_event(&mut self, now: u64)
        requires
            old(self).current(now).total_events_emitted < u64::MAX,
        ensures
            final(self).metrics == Some(SustainabilityMetrics {
                total_events_emitted: (old(self).current(now).total_events_emitted + 1) as u64,
                last_updated: now,
                ..old(self).current(now)
            }),
    {
        let mut m = self.get_metrics(now);
        m.total_events_emitted = m.total_events_emitted + 1;
        m.last_updated = now;
        self.metrics = Some(m);
    }

    /// Add `amount` of rewards distributed at `now`.
    pub fn record_rewards(&mut self, amount: i128, now: u64)
        requires
            i128::MIN <= old(self).current(now).total_rewards_distributed + amount <= i128::MAX,
        ensures
            final(self).metrics == Some(SustainabilityMetrics {
                total_rewards_distributed: (old(self).current(now).total_rewards_distributed + amount) as i128,
                last_updated: now,
                ..old(self).current(now)
            }),
    {
        let mut m = self.get_metrics(now);
        m.total_rewards_distributed = m.total_rewards_distributed + amount;
        m.last_updated = now;
        self.metrics = Some(m);
    }

    /// Count a content token minted at `now`.
    pub fn record_content_minted(&mut self, now: u64)
        requires
            old(self).current(now).total_content_minted < u64::MAX,
        ensures
            final(self).metrics == Some(SustainabilityMetrics {
                total_content_minted: (old(self).current(now).total_content_minted + 1) as u64,
                last_updated: now,
                ..old(self).current(now)
            }),
    {
        let mut m = self.get_metrics(now);
        m.total_content_minted = m.total_content_minted + 1;
        m.last_updated = now;
        self.metrics = Some(m);
    }

    /// Count a new active user at `now`.
    pub fn record_active_user(&mut self, now: u64)
        requires
            old(self).current(now).total_active_users < u64::MAX,
        ensures
            final(self).metrics == Some(SustainabilityMetrics {
                total_active_users: (old(self).current(now).total_active_users + 1) as u64,
                last_updated: now,
                ..old(self).current(now)
            }),
    {
        let mut m = self.get_metrics(now);
        m.total_active_users = m.total_active_users + 1;
        m.last_updated = now;
        self.metrics = Some(m);
    }

    /// Set the efficiency score from `successful_ops` out of `total_ops` at
    /// `now` (100 % when there were none).
    pub fn update_efficiency(&mut self, successful_ops: u64, total_ops: u64, now: u64) -> (m: SustainabilityMetrics)
        requires
            successful_ops * 10000 <= u64::MAX,
        ensures
            m == (SustainabilityMetrics {
                efficiency_score: if total_ops == 0 { 10000 } else { ((successful_ops * 10000) / (total_ops as int)) as u32 },
                last_updated: now,
                ..old(self).current(now)
            }),
            final(self).metrics == Some(m),
    {
        let mut m = self.get_metrics(now);
        m.efficiency_score = if total_ops == 0 { 10000 } else { ((successful_ops * 10000) / total_ops) as u32 };
        m.last_updated = now;
        self.metrics = Some(m);
        m
    }

    /// The composite health score at `now`.
    pub fn health_score(&self, now: u64) -> (h: u32)
        requires
            self.current(now).total_content_minted < 1000 ==> self.current(now).total_content_minted * 100 <= u32::MAX,
            self.current(now).total_active_users < 1000 ==> self.current(now).total_active_users * 100 <= u32::MAX,
        ensures
            h == health(self.current(now)),
    {
        let m = self.get_metrics(now);
        let efficiency_component = m.efficiency_score / 100;
        let content_component: u32 = if m.total_content_minted >= 1000 {
            100
        } else {
            (m.total_content_minted as u32 * 100) / 1000
        };
        let user_component: u32 = if m.total_active_users >= 1000 {
            100
        } else {
            (m.total_active_users as u32 * 100) / 1000
        };
        (efficiency_component * 50 + content_component * 25 + user_component * 25) / 100
    }
}

/// With efficiency within 100 %, the health score stays within 0-100.
pub proof fn law_health_score_in_range(m: SustainabilityMetrics)
    requires
        m.efficiency_score <= 10000,
    ensures
        0 <= health(m) <= 100,
{
    let e = m.efficiency_score / 100;
    let c = activity_component(m.total_content_minted);
    let u = activity_component(m.total_active_users);
    assert(0 <= c <= 100) by {
        if m.total_content_minted < 1000 {
            assert((m.total_content_minted * 100) / 1000 <= 100) by (nonlinear_arith)
                requires m.total_content_minted < 1000;
        }
    }
    assert(0 <= u <= 100) by {
        if m.total_active_users < 1000 {
            assert((m.total_active_users * 100) / 1000 <= 100) by (nonlinear_arith)
                requires m.total_active_users < 1000;
        }
    }
    assert(e * 50 + c * 25 + u * 25 <= 10000);
}

} // verus!
