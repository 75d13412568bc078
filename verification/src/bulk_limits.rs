//! Bulk-operation protection: caps on batch sizes, a compute-budget cap and a
//! per-caller rolling rate limit for bulk calls.
use vstd::prelude::*;
use crate::errors::BridgeError;
use crate::id_map::IdMap;

verus! {

/// Hard upper bound on items processed in a single bulk call.
pub const MAX_BATCH_SIZE: u32 = 50;

/// Maximum number of validator signatures accepted when completing a bridge.
pub const MAX_VALIDATOR_BATCH: u32 = 20;

/// Maximum number of chain ids accepted when pausing or resuming chains.
pub const MAX_CHAIN_ID_BATCH: u32 = 10;

/// Maximum number of packets processed in one timeout scan.
pub const MAX_PACKET_BATCH: u32 = 30;

/// Maximum number of content tags in token metadata.
pub const MAX_CONTENT_TAGS: u32 = 20;

/// Maximum number of signers in a single escrow.
pub const MAX_ESCROW_SIGNERS: u32 = 20;

/// Soft cap on CPU instructions consumed by a single bulk call.
pub const MAX_GAS_BUDGET: u64 = 500_000;

/// Rolling window (seconds) for per-caller rate limiting.
pub const RATE_LIMIT_WINDOW_SECONDS: u64 = 3_600;

/// Maximum number of bulk calls a single caller may make within the window.
pub const RATE_LIMIT_MAX_CALLS: u32 = 10;

/// `count` must not exceed `MAX_BATCH_SIZE`.
pub fn check_batch_size(count: u32) -> (r: Result<(), BridgeError>)
    ensures
        r == (if count > MAX_BATCH_SIZE { Err(BridgeError::InvalidInput) } else { Ok(()) }),
{
    if count > MAX_BATCH_SIZE {
        return Err(BridgeError::InvalidInput);
    }
    Ok(())
}

/// `count` must not exceed `limit`.
pub fn check_batch_size_limit(count: u32, limit: u32) -> (r: Result<(), BridgeError>)
    ensures
        r == (if count > limit { Err(BridgeError::InvalidInput) } else { Ok(()) }),
{
    if count > limit {
        return Err(BridgeError::InvalidInput);
    }
    Ok(())
}

/// The CPU instructions consumed so far must be within `MAX_GAS_BUDGET`.
pub fn check_gas_budget(consumed: u64) -> (r: Result<(), BridgeError>)
    ensures
        r == (if consumed > MAX_GAS_BUDGET { Err(BridgeError::InvalidInput) } else { Ok(()) }),
{
    if consumed > MAX_GAS_BUDGET {
        return Err(BridgeError::InvalidInput);
    }
    Ok(())
}

/// The window `(count, window_start)` that a call at `now` starts from:
/// the caller's stored window, or a fresh one, reset when it has expired.
pub open spec fn current_window(stored: Option<(u32, u64)>, now: u64) -> (u32, u64) {
    let (count, start) = match stored {
        Some(w) => w,
        None => (0u32, now),
    };
    if (if now >= start { now - start } else { 0 }) >= RATE_LIMIT_WINDOW_SECONDS {
        (0u32, now)
    } else {
        (count, start)
    }
}

/// Per-caller bulk-call quotas: caller id to `(calls in window, window start)`.
#[derive(Clone)]
pub struct BulkRateLimits {
    pub windows: IdMap<(u32, u64)>,
}

impl BulkRateLimits {
    pub open spec fn wf(&self) -> bool {
        self.windows.wf()
    }

    /// No caller has used any quota yet.
    pub fn new() -> (s: Self)
        ensures
            s.wf(),
            s.windows@ == Map::<u64, (u32, u64)>::empty(),
    {
        BulkRateLimits { windows: IdMap::new() }
    }

    /// Count one bulk call by `caller` at time `now`.  At most
    /// `RATE_LIMIT_MAX_CALLS` calls are allowed per window of
    /// `RATE_LIMIT_WINDOW_SECONDS`; the window restarts once it has expired.
    /// A refused call leaves the table as it was.
    pub fn check_rate_limit(&mut self, caller: u64, now: u64) -> (r: Result<(), BridgeError>)
        requires
            old(self).wf(),
        ensures
            final(self).wf(),
            ({
                let w = current_window(
                    if old(self).windows@.contains_key(caller) { Some(old(self).windows@[caller]) } else { None },
                    now,
                );
                if w.0 >= RATE_LIMIT_MAX_CALLS {
                    r == Err::<(), BridgeError>(BridgeError::InvalidInput) && final(self).windows@ == old(self).windows@
                } else {
                    r == Ok::<(), BridgeError>(()) && final(self).windows@ == old(self).windows@.insert(caller, ((w.0 + 1) as u32, w.1))
                }
            }),
    {
        let (mut count, mut window_start) = match self.windows.get(caller) {
            Some(w) => *w,
            None => (0u32, now),
        };
        if now.saturating_sub(window_start) >= RATE_LIMIT_WINDOW_SECONDS {
            count = 0;
            window_start = now;
        }
        if count >= RATE_LIMIT_MAX_CALLS {
            return Err(BridgeError::InvalidInput);
        }
        count = count + 1;
        self.windows.insert(caller, (count, window_start));
        Ok(())
    }

    /// All three bulk guards at once: the batch-size cap, the compute budget
    /// (`consumed` instructions so far) and the caller's rate limit, checked
    /// in that order; the rate limit is counted only when the first two pass.
    pub fn enforce_all(&mut self, caller: u64, batch_count: u32, consumed: u64, now: u64) -> (r: Result<(), BridgeError>)
        requires
            old(self).wf(),
        ensures
            final(self).wf(),
            batch_count > MAX_BATCH_SIZE ==> r == Err::<(), BridgeError>(BridgeError::InvalidInput)
                && final(self).windows@ == old(self).windows@,
            batch_count <= MAX_BATCH_SIZE && consumed > MAX_GAS_BUDGET ==> r == Err::<(), BridgeError>(BridgeError::InvalidInput)
                && final(self).windows@ == old(self).windows@,
            batch_count <= MAX_BATCH_SIZE && consumed <= MAX_GAS_BUDGET ==> ({
                let w = current_window(
                    if old(self).windows@.contains_key(caller) { Some(old(self).windows@[caller]) } else { None },
                    now,
                );
                if w.0 >= RATE_LIMIT_MAX_CALLS {
                    r == Err::<(), BridgeError>(BridgeError::InvalidInput) && final(self).windows@ == old(self).windows@
                } else {
                    r == Ok::<(), BridgeError>(()) && final(self).windows@ == old(self).windows@.insert(caller, ((w.0 + 1) as u32, w.1))
                }
            }),
    {
        check_batch_size(batch_count)?;
        check_gas_budget(consumed)?;
        self.check_rate_limit(caller, now)
    }
}

} // verus!
