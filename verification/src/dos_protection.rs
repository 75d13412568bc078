//! Denial-of-service protection: batch-size limits, instruction-budget
//! estimates and per-address cooldowns between repeated calls.
use vstd::prelude::*;
use crate::errors::BridgeError;
use crate::id_map::IdMap;

verus! {

/// Maximum validator signatures accepted in a single bridge completion.
pub const MAX_VALIDATORS_PER_COMPLETION: u32 = 50;

/// Maximum chain ids that may be paused or resumed in a single call.
pub const MAX_CHAIN_BATCH_SIZE: u32 = 50;

/// Maximum notification preferences a user may submit in a single call.
pub const MAX_PREFERENCE_BATCH_SIZE: u32 = 20;

/// Maximum packets scanned per timeout check.
pub const MAX_TIMEOUT_SCAN_BATCH: u32 = 100;

/// Maximum questions an assessment may contain.
pub const MAX_QUESTIONS_PER_ASSESSMENT: u32 = 200;

/// Maximum proctor-log entries per assessment submission.
pub const MAX_PROCTOR_LOGS_PER_SUBMISSION: u32 = 50;

/// Approximate instructions per validator checked in a bridge completion.
pub const INSTRUCTIONS_PER_VALIDATOR_CHECK: u64 = 5_000;

/// Approximate instructions per chain id paused or resumed.
pub const INSTRUCTIONS_PER_CHAIN_OP: u64 = 2_000;

/// Approximate instructions per packet evaluated in a timeout check.
pub const INSTRUCTIONS_PER_TIMEOUT_CHECK: u64 = 1_500;

/// Approximate instructions per notification preference.
pub const INSTRUCTIONS_PER_PREFERENCE: u64 = 1_000;

/// Soft upper bound on the instructions a single invocation may consume.
pub const MAX_INSTRUCTIONS_PER_INVOCATION: u64 = 50_000_000;

/// Minimum gap (seconds) between two bridge-out calls from one address.
pub const BRIDGE_OUT_RATE_LIMIT_SECONDS: u64 = 60;

/// Minimum gap (seconds) between two admin bulk operations from one address.
pub const ADMIN_OP_RATE_LIMIT_SECONDS: u64 = 10;

/// `actual` must not exceed `max`.
pub fn check_batch_size(actual: u32, max: u32) -> (r: Result<(), BridgeError>)
    ensures
        r == (if actual > max { Err(BridgeError::BatchSizeLimitExceeded) } else { Ok(()) }),
{
    if actual > max {
        Err(BridgeError::BatchSizeLimitExceeded)
    } else {
        Ok(())
    }
}

/// The estimated cost `batch_size * cost_per_item` (saturating) must not
/// exceed `MAX_INSTRUCTIONS_PER_INVOCATION`.
pub fn check_instruction_budget(batch_size: u32, cost_per_item: u64) -> (r: Result<(), BridgeError>)
    ensures
        r == (if batch_size * cost_per_item > MAX_INSTRUCTIONS_PER_INVOCATION {
            Err(BridgeError::BatchSizeLimitExceeded)
        } else {
            Ok(())
        }),
{
    let estimated = match (batch_size as u64).checked_mul(cost_per_item) {
        Some(e) => e,
        None => u64::MAX,
    };
    if estimated > MAX_INSTRUCTIONS_PER_INVOCATION {
        Err(BridgeError::BatchSizeLimitExceeded)
    } else {
        Ok(())
    }
}

/// Whether a call at `now` falls inside the cooldown after a call at `last`.
pub open spec fn in_cooldown(last: u64, now: u64, cooldown: u64) -> bool {
    now < (if last + cooldown > u64::MAX { u64::MAX as int } else { last + cooldown })
}

/// One cooldown check: refuse while `sender`'s previous call is less than
/// `cooldown` seconds old, otherwise record `now` as its last call.
fn check_cooldown(limits: &mut IdMap<u64>, sender: u64, now: u64, cooldown: u64) -> (r: Result<(), BridgeError>)
    requires
        old(limits).wf(),
    ensures
        final(limits).wf(),
        old(limits)@.contains_key(sender) && in_cooldown(old(limits)@[sender], now, cooldown) ==>
            r == Err::<(), BridgeError>(BridgeError::RetryBackoffActive) && final(limits)@ == old(limits)@,
        !(old(limits)@.contains_key(sender) && in_cooldown(old(limits)@[sender], now, cooldown)) ==>
            r == Ok::<(), BridgeError>(()) && final(limits)@ == old(limits)@.insert(sender, now),
{
    match limits.get(sender) {
        Some(last) => {
            if now < last.saturating_add(cooldown) {
                return Err(BridgeError::RetryBackoffActive);
            }
        },
        None => {},
    }
    limits.insert(sender, now);
    Ok(())
}

/// Per-sender cooldown for bridge-out calls (`BRIDGE_OUT_RATE_LIMIT_SECONDS`).
pub fn check_bridge_out_rate_limit(limits: &mut IdMap<u64>, sender: u64, now: u64) -> (r: Result<(), BridgeError>)
    requires
        old(limits).wf(),
    ensures
        final(limits).wf(),
        old(limits)@.contains_key(sender) && in_cooldown(old(limits)@[sender], now, BRIDGE_OUT_RATE_LIMIT_SECONDS) ==>
            r == Err::<(), BridgeError>(BridgeError::RetryBackoffActive) && final(limits)@ == old(limits)@,
        !(old(limits)@.contains_key(sender) && in_cooldown(old(limits)@[sender], now, BRIDGE_OUT_RATE_LIMIT_SECONDS)) ==>
            r == Ok::<(), BridgeError>(()) && final(limits)@ == old(limits)@.insert(sender, now),
{
    check_cooldown(limits, sender, now, BRIDGE_OUT_RATE_LIMIT_SECONDS)
}

/// Per-admin cooldown for bulk admin operations (`ADMIN_OP_RATE_LIMIT_SECONDS`).
pub fn check_admin_rate_limit(limits: &mut IdMap<u64>, admin: u64, now: u64) -> (r: Result<(), BridgeError>)
    requires
        old(limits).wf(),
    ensures
        final(limits).wf(),
        old(limits)@.contains_key(admin) && in_cooldown(old(limits)@[admin], now, ADMIN_OP_RATE_LIMIT_SECONDS) ==>
            r == Err::<(), BridgeError>(BridgeError::RetryBackoffActive) && final(limits)@ == old(limits)@,
        !(old(limits)@.contains_key(admin) && in_cooldown(old(limits)@[admin], now, ADMIN_OP_RATE_LIMIT_SECONDS)) ==>
            r == Ok::<(), BridgeError>(()) && final(limits)@ == old(limits)@.insert(admin, now),
{
    check_cooldown(limits, admin, now, ADMIN_OP_RATE_LIMIT_SECONDS)
}

} // verus!
