//! Running totals over escrows: created, volume, disputes, resolutions and
//! the average resolution time.  A counter that would overflow wraps to zero
//! and bumps `resets`.
use vstd::prelude::*;
use crate::safe_stats::{safe_add_i128, safe_inc_u64};

verus! {

/// The escrow totals.
#[derive(Copy, Clone, Debug, PartialEq, Eq, Structural)]
pub struct EscrowMetrics {
    pub total_escrows: u64,
    pub total_volume: i128,
    pub total_disputes: u64,
    pub total_resolved: u64,
    pub average_resolution_time: u64,
    /// How many times a counter wrapped.
    pub resets: u32,
}

/// Totals at zero.
pub open spec fn zero_metrics() -> EscrowMetrics {
    EscrowMetrics {
        total_escrows: 0,
        total_volume: 0,
        total_disputes: 0,
        total_resolved: 0,
        average_resolution_time: 0,
        resets: 0,
    }
}

/// `v + 1`, or 0 when that overflows.
pub open spec fn wrap_inc(v: u64) -> u64 {
    if v < u64::MAX { (v + 1) as u64 } else { 0 }
}

/// `a + b`, or 0 when that leaves `i128`.
pub open spec fn wrap_add(a: i128, b: i128) -> i128 {
    if i128::MIN <= a + b <= i128::MAX { (a + b) as i128 } else { 0 }
}

/// How many counters wrap when a new escrow of `amount` is recorded.
pub open spec fn creation_wraps(m: EscrowMetrics, amount: i128) -> int {
    (if m.total_escrows == u64::MAX { 1int } else { 0 })
        + (if i128::MIN <= m.total_volume + amount <= i128::MAX { 0int } else { 1 })
}

/// The totals after recording a new escrow of `amount`.
pub open spec fn after_creation(m: EscrowMetrics, amount: i128) -> EscrowMetrics {
    let wraps = creation_wraps(m, amount);
    EscrowMetrics {
        total_escrows: wrap_inc(m.total_escrows),
        total_volume: wrap_add(m.total_volume, amount),
        resets: (m.resets + wraps) as u32,
        ..m
    }
}

/// The totals after recording a resolution that took `resolution_time`:
/// the average over all resolutions so far, rounded down.
pub open spec fn after_resolution(m: EscrowMetrics, resolution_time: u64) -> EscrowMetrics {
    let n = wrap_inc(m.total_resolved);
    EscrowMetrics {
        total_resolved: n,
        average_resolution_time: if n == 1 {
            resolution_time
        } else {
            ((m.average_resolution_time * (n - 1) + resolution_time) / (n as int)) as u64
        },
        resets: if m.total_resolved == u64::MAX { (m.resets + 1) as u32 } else { m.resets },
        ..m
    }
}

/// The escrow totals.
#[derive(Clone)]
pub struct EscrowAnalyticsManager {
    pub metrics: EscrowMetrics,
}

impl EscrowAnalyticsManager {
    /// Totals at zero.
    pub fn new() -> (m: Self)
        ensures
            m.metrics == zero_metrics(),
    {
        EscrowAnalyticsManager {
            metrics: EscrowMetrics {
                total_escrows: 0,
                total_volume: 0,
                total_disputes: 0,
                total_resolved: 0,
                average_resolution_time: 0,
                resets: 0,
            },
        }
    }

    /// Record a new escrow of `amount`.
    pub fn update_creation(&mut self, amount: i128)
        requires
            old(self).metrics.resets + creation_wraps(old(self).metrics, amount) <= u32::MAX,
        ensures
            final(self).metrics == after_creation(old(self).metrics, amount),
    {
        let (total, wrapped) = safe_inc_u64(self.metrics.total_escrows);
        self.metrics.total_escrows = total;
        if wrapped {
            self.metrics.resets = self.metrics.resets + 1;
        }
        let (volume, vol_wrapped) = safe_add_i128(self.metrics.total_volume, amount);
        self.metrics.total_volume = volume;
        if vol_wrapped {
            self.metrics.resets = self.metrics.resets + 1;
        }
    }

    /// Record a dispute.
    pub fn update_dispute(&mut self)
        requires
            old(self).metrics.total_disputes == u64::MAX ==> old(self).metrics.resets < u32::MAX,
        ensures
            final(self).metrics == (EscrowMetrics {
                total_disputes: wrap_inc(old(self).metrics.total_disputes),
                resets: if old(self).metrics.total_disputes == u64::MAX {
                    (old(self).metrics.resets + 1) as u32
                } else {
                    old(self).metrics.resets
                },
                ..old(self).metrics
            }),
    {
        let (total, wrapped) = safe_inc_u64(self.metrics.total_disputes);
        self.metrics.total_disputes = total;
        if wrapped {
            self.metrics.resets = self.metrics.resets + 1;
        }
    }

    /// Record a resolution that took `resolution_time` seconds.
    pub fn update_resolution(&mut self, resolution_time: u64)
        requires
            old(self).metrics.total_resolved < u64::MAX,
            old(self).metrics.total_resolved >= 1 ==>
                old(self).metrics.average_resolution_time * old(self).metrics.total_resolved + resolution_time <= u64::MAX,
        ensures
            final(self).metrics == after_resolution(old(self).metrics, resolution_time),
    {
        let (n, wrapped) = safe_inc_u64(self.metrics.total_resolved);
        self.metrics.total_resolved = n;
        if wrapped {
            self.metrics.resets = self.metrics.resets + 1;
        }
        if n == 1 {
            self.metrics.average_resolution_time = resolution_time;
        } else {
            self.metrics.average_resolution_time =
                (self.metrics.average_resolution_time * (n - 1) + resolution_time) / n;
        }
    }

    /// The totals.
    pub fn get_metrics(&self) -> (m: EscrowMetrics)
        ensures
            m == self.metrics,
    {
        self.metrics
    }

    /// Put every total back to zero.
    pub fn reset_metrics(&mut self)
        ensures
            final(self).metrics == zero_metrics(),
    {
        self.metrics = EscrowMetrics {
            total_escrows: 0,
            total_volume: 0,
            total_disputes: 0,
            total_resolved: 0,
            average_resolution_time: 0,
            resets: 0,
        };
    }
}

/// The average resolution time stays between the shortest and the longest
/// time recorded: a new time never pulls it outside the two.
pub proof fn law_average_stays_between(avg: u64, n: u64, t: u64)
    requires
        n >= 1,
        n < u64::MAX,
    ensures
        ({
            let next = (avg * n + t) / ((n + 1) as int);
            &&& (avg <= t ==> avg <= next <= t)
            &&& (t <= avg ==> t <= next <= avg)
        }),
{
    let d = (n + 1) as int;
    assert(avg <= t ==> avg * d <= avg * n + t <= t * d) by (nonlinear_arith)
        requires d == n + 1, n >= 1;
    assert(t <= avg ==> t * d <= avg * n + t <= avg * d) by (nonlinear_arith)
        requires d == n + 1, n >= 1;
    if avg <= t {
        vstd::arithmetic::div_mod::lemma_div_is_ordered(avg * d, avg * n + t, d);
        vstd::arithmetic::div_mod::lemma_div_is_ordered(avg * n + t, t * d, d);
        vstd::arithmetic::div_mod::lemma_div_by_multiple(avg as int, d);
        vstd::arithmetic::div_mod::lemma_div_by_multiple(t as int, d);
    } else {
        vstd::arithmetic::div_mod::lemma_div_is_ordered(t * d, avg * n + t, d);
        vstd::arithmetic::div_mod::lemma_div_is_ordered(avg * n + t, avg * d, d);
        vstd::arithmetic::div_mod::lemma_div_by_multiple(avg as int, d);
        vstd::arithmetic::div_mod::lemma_div_by_multiple(t as int, d);
    }
}

} // verus!
