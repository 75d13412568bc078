//! Tunable constants shared by several modules.
use vstd::prelude::*;

verus! {

/// Minimum timelock duration for an atomic swap (seconds): 1 hour.
pub const SWAP_MIN_TIMELOCK: u64 = 3_600;

/// Maximum timelock duration for an atomic swap (seconds): 7 days.
pub const SWAP_MAX_TIMELOCK: u64 = 604_800;

/// Required byte length of a hashlock.
pub const SWAP_HASH_LENGTH: u32 = 32;

/// Estimated seconds per ledger close.
pub const LEDGER_EST_SECS: u64 = 5;

/// Base bridge fee in basis points (0.10 %).
pub const LIQUIDITY_BASE_FEE_BPS: i128 = 10;

/// Maximum bridge fee in basis points (5 %).
pub const LIQUIDITY_MAX_FEE_BPS: i128 = 500;

/// Minimum bridge fee in basis points (0.01 %).
pub const LIQUIDITY_MIN_FEE_BPS: i128 = 1;

/// Maximum number of supported external chains.
pub const MULTICHAIN_MAX_CHAINS: u32 = 100;

/// Maximum number of registered multi-chain assets.
pub const MULTICHAIN_MAX_ASSETS: u32 = 1_000;

/// Maximum automatic retry attempts for a failed operation.
pub const RECOVERY_MAX_RETRY_ATTEMPTS: u32 = 5;

/// Initial exponential-backoff delay (seconds): 1 minute.
pub const RECOVERY_INITIAL_BACKOFF_SECS: u64 = 60;

/// Maximum backoff delay (seconds): 1 hour.
pub const RECOVERY_MAX_BACKOFF_SECS: u64 = 3_600;

/// Backoff multiplier applied on each retry.
pub const RECOVERY_BACKOFF_MULTIPLIER: u64 = 2;

/// Minimum content tokens minted to reach the full content-creation score.
pub const SUSTAIN_CONTENT_SCORE_CAP: u64 = 1_000;

/// Minimum active users to reach the full user-adoption score.
pub const SUSTAIN_USER_SCORE_CAP: u64 = 1_000;

/// Default maximum calls allowed per rate-limit window.
pub const RATE_LIMIT_DEFAULT_MAX_CALLS: u32 = 100;

/// Default rate-limit window size in ledgers.
pub const RATE_LIMIT_DEFAULT_WINDOW_LEDGERS: u32 = 600;

} // verus!
