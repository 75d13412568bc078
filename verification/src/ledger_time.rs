//! Ledger time helpers.
//!
//! A ledger's timestamp is not a monotonic wall clock; critical deadlines are
//! also kept as ledger sequence numbers, converted from seconds here.
use vstd::prelude::*;
use crate::config::LEDGER_EST_SECS;

verus! {

/// Conservative estimate of seconds per ledger close.
pub const EST_SECS_PER_LEDGER: u64 = LEDGER_EST_SECS;

/// The number of ledgers that cover `seconds`, rounded up, as a `u32`.
pub open spec fn ledger_delta(seconds: nat) -> nat {
    let d: int = (seconds + EST_SECS_PER_LEDGER - 1) / (EST_SECS_PER_LEDGER as int);
    if d > u32::MAX { u32::MAX as nat } else { d as nat }
}

/// Ledgers needed to cover `seconds`: the ceiling of `seconds / 5`, saturated
/// at `u32::MAX` (rounding up never shortens a timeout).
pub fn seconds_to_ledger_delta(seconds: u64) -> (d: u32)
    requires
        seconds + EST_SECS_PER_LEDGER <= u64::MAX,
    ensures
        d == ledger_delta(seconds as nat),
        d as int * 5 >= seconds || d == u32::MAX,
{
    let d = (seconds + EST_SECS_PER_LEDGER - 1) / EST_SECS_PER_LEDGER;
    if d > u32::MAX as u64 {
        u32::MAX
    } else {
        d as u32
    }
}

} // verus!
