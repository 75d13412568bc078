//! A cache of the bridge summary (health score and busiest chains) that is
//! served while younger than an hour.
use vstd::prelude::*;
use crate::errors::BridgeError;

verus! {

/// How long a cached summary stays fresh, in seconds.
pub const CACHE_TTL_SECS: u64 = 3_600;
/// Most chains a summary lists.
pub const MAX_TOP_CHAINS: u32 = 20;

/// A computed bridge summary.
#[derive(Clone, Debug)]
pub struct CachedBridgeSummary {
    pub health_score: u32,
    /// The busiest chains, busiest first.
    pub top_chains: Vec<u32>,
    pub computed_at: u64,
}

/// A summary was computed and cached.
#[derive(Copy, Clone, Debug, PartialEq, Eq, Structural)]
pub struct PerfMetricsComputedEvent {
    pub health_score: u32,
    pub computed_at: u64,
}

/// The cache was cleared.
#[derive(Copy, Clone, Debug, PartialEq, Eq, Structural)]
pub struct PerfCacheInvalidatedEvent {
    pub invalidated_at: u64,
}

/// The summary cache.
#[derive(Clone)]
pub struct PerformanceManager {
    pub cache: Option<CachedBridgeSummary>,
    /// When the cached summary was computed.
    pub cache_ts: Option<u64>,
}

impl CachedBridgeSummary {
    /// A copy of the summary.
    pub fn duplicate(&self) -> (s: Self)
        ensures
            s.health_score == self.health_score,
            s.top_chains@ == self.top_chains@,
            s.computed_at == self.computed_at,
    {
        CachedBridgeSummary { health_score: self.health_score, top_chains: self.top_chains.clone(), computed_at: self.computed_at }
    }
}

impl PerformanceManager {
    /// Whether the cache is fresh at `now`.
    pub open spec fn fresh(&self, now: u64) -> bool {
        self.cache_ts matches Some(ts) && (if now >= ts { now - ts } else { 0 }) <= CACHE_TTL_SECS
    }

    /// An empty cache.
    pub fn new() -> (p: Self)
        ensures
            p.cache is None,
            p.cache_ts is None,
    {
        PerformanceManager { cache: None, cache_ts: None }
    }

    /// The cached summary if it is fresh at `now`.
    pub fn get_cached_summary(&self, now: u64) -> (r: Option<&CachedBridgeSummary>)
        ensures
            r == if self.fresh(now) {
                match self.cache { Some(c) => Some(&c), None => None::<&CachedBridgeSummary> }
            } else {
                None::<&CachedBridgeSummary>
            },
    {
        let ts = match self.cache_ts {
            Some(t) => t,
            None => { return None; },
        };
        if now.saturating_sub(ts) > CACHE_TTL_SECS {
            return None;
        }
        match &self.cache {
            Some(c) => Some(c),
            None => None,
        }
    }

    /// Cache the summary of `health_score` and `top_chains` (at most the
    /// first `MAX_TOP_CHAINS`) computed at `now`.
    pub fn compute_and_cache_summary(&mut self, health_score: u32, top_chains: &Vec<u32>, now: u64)
        -> (r: Result<PerfMetricsComputedEvent, BridgeError>)
        ensures
            r == Ok::<PerfMetricsComputedEvent, BridgeError>(PerfMetricsComputedEvent { health_score, computed_at: now }),
            final(self).cache_ts == Some(now),
            final(self).cache matches Some(c) && c.health_score == health_score && c.computed_at == now
                && c.top_chains@ == top_chains@.take(if top_chains@.len() < MAX_TOP_CHAINS { top_chains@.len() as int } else { MAX_TOP_CHAINS as int }),
    {
        let n: usize = if top_chains.len() < MAX_TOP_CHAINS as usize { top_chains.len() } else { MAX_TOP_CHAINS as usize };
        let mut chains: Vec<u32> = Vec::new();
        let mut i: usize = 0;
        while i < n
            invariant
                n <= top_chains@.len(),
                i <= n,
                chains@ == top_chains@.take(i as int),
            decreases n - i,
        {
            chains.push(top_chains[i]);
            assert(top_chains@.take(i as int + 1) =~= top_chains@.take(i as int).push(top_chains@[i as int]));
            i = i + 1;
        }
        self.cache = Some(CachedBridgeSummary { health_score, top_chains: chains, computed_at: now });
        self.cache_ts = Some(now);
        Ok(PerfMetricsComputedEvent { health_score, computed_at: now })
    }

    /// The cached summary if it is fresh at `now`; otherwise the summary of
    /// `health_score` and `top_chains` is computed, cached and returned.
    pub fn get_or_compute_summary(&mut self, health_score: u32, top_chains: &Vec<u32>, now: u64)
        -> (r: Result<CachedBridgeSummary, BridgeError>)
        ensures
            old(self).fresh(now) && old(self).cache is Some ==> {
                let c = old(self).cache->0;
                &&& r matches Ok(s) && s.health_score == c.health_score && s.top_chains@ == c.top_chains@
                    && s.computed_at == c.computed_at
                &&& final(self).cache == old(self).cache
                &&& final(self).cache_ts == old(self).cache_ts
            },
            !(old(self).fresh(now) && old(self).cache is Some) ==> {
                let n = if top_chains@.len() < MAX_TOP_CHAINS { top_chains@.len() as int } else { MAX_TOP_CHAINS as int };
                &&& r matches Ok(s) && s.health_score == health_score && s.computed_at == now
                    && s.top_chains@ == top_chains@.take(n)
                &&& final(self).cache_ts == Some(now)
                &&& final(self).cache matches Some(c) && c.health_score == health_score && c.computed_at == now
                    && c.top_chains@ == top_chains@.take(n)
            },
    {
        if let Some(cached) = self.get_cached_summary(now) {
            return Ok(cached.duplicate());
        }
        let _ = self.compute_and_cache_summary(health_score, top_chains, now);
        match &self.cache {
            Some(c) => Ok(c.duplicate()),
            None => Err(BridgeError::StorageError),
        }
    }

    /// Clear the cache at `now`.
    pub fn invalidate_cache(&mut self, now: u64) -> (r: Result<PerfCacheInvalidatedEvent, BridgeError>)
        ensures
            r == Ok::<PerfCacheInvalidatedEvent, BridgeError>(PerfCacheInvalidatedEvent { invalidated_at: now }),
            final(self).cache is None,
            final(self).cache_ts is None,
    {
        self.cache = None;
        self.cache_ts = None;
        Ok(PerfCacheInvalidatedEvent { invalidated_at: now })
    }
}

/// A summary cached at `now` is served for the next hour and not after.
pub proof fn law_cache_serves_for_an_hour(p: PerformanceManager, computed_at: u64, later: u64)
    requires
        p.cache_ts == Some(computed_at),
        computed_at <= later,
    ensures
        p.fresh(later) <==> later - computed_at <= CACHE_TTL_SECS,
{
}

} // verus!
