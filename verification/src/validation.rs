//! Timestamp validation.
use vstd::prelude::*;

verus! {

/// Reasons a timestamp is refused.
#[derive(Copy, Clone, Debug, PartialEq, Eq, Structural)]
pub enum ValidationError {
    InvalidTimestamp,
    TimestampNotMonotonic,
    TimestampSkewExceeded,
}

/// Largest tolerated difference between a supplied timestamp and the ledger
/// time (15 minutes).
pub const MAX_CLOCK_SKEW_SECONDS: u64 = 900;

/// Checks on timestamps supplied by callers.
#[derive(Clone)]
pub struct TimeValidator;

impl TimeValidator {
    /// Time must not run backwards: `next` may equal `previous` but not
    /// precede it.
    pub fn check_monotonic(previous: u64, next: u64) -> (r: Result<(), ValidationError>)
        ensures
            r == (if next < previous { Err(ValidationError::TimestampNotMonotonic) } else { Ok(()) }),
    {
        if next < previous {
            Err(ValidationError::TimestampNotMonotonic)
        } else {
            Ok(())
        }
    }

    /// A supplied `timestamp` may differ from the ledger time `now` by at most
    /// `MAX_CLOCK_SKEW_SECONDS` in either direction.
    pub fn validate_skew(now: u64, timestamp: u64) -> (r: Result<(), ValidationError>)
        ensures
            r == (if timestamp > now + MAX_CLOCK_SKEW_SECONDS || timestamp + MAX_CLOCK_SKEW_SECONDS < now {
                Err(ValidationError::TimestampSkewExceeded)
            } else {
                Ok(())
            }),
    {
        let diff = if timestamp >= now { timestamp - now } else { now - timestamp };
        if diff > MAX_CLOCK_SKEW_SECONDS {
            Err(ValidationError::TimestampSkewExceeded)
        } else {
            Ok(())
        }
    }
}

} // verus!
