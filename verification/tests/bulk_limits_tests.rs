use teachlink::bulk_limits::{
    check_batch_size, check_batch_size_limit, check_gas_budget, BulkRateLimits, MAX_BATCH_SIZE,
    MAX_CHAIN_ID_BATCH, MAX_GAS_BUDGET, MAX_PACKET_BATCH, MAX_VALIDATOR_BATCH, RATE_LIMIT_MAX_CALLS,
    RATE_LIMIT_WINDOW_SECONDS,
};
use teachlink::errors::BridgeError;

#[test]
fn batch_size_at_limit_passes() {
    assert!(check_batch_size(MAX_BATCH_SIZE).is_ok());
}

#[test]
fn batch_size_exceeds_limit_fails() {
    assert_eq!(check_batch_size(MAX_BATCH_SIZE + 1), Err(BridgeError::InvalidInput));
}

#[test]
fn batch_size_zero_passes() {
    assert!(check_batch_size(0).is_ok());
}

#[test]
fn typed_batch_limit_validator_batch() {
    assert!(check_batch_size_limit(MAX_VALIDATOR_BATCH, MAX_VALIDATOR_BATCH).is_ok());
    assert_eq!(
        check_batch_size_limit(MAX_VALIDATOR_BATCH + 1, MAX_VALIDATOR_BATCH),
        Err(BridgeError::InvalidInput)
    );
}

#[test]
fn typed_batch_limit_chain_id_batch() {
    assert!(check_batch_size_limit(MAX_CHAIN_ID_BATCH, MAX_CHAIN_ID_BATCH).is_ok());
    assert_eq!(
        check_batch_size_limit(MAX_CHAIN_ID_BATCH + 1, MAX_CHAIN_ID_BATCH),
        Err(BridgeError::InvalidInput)
    );
}

#[test]
fn typed_batch_limit_packet_batch() {
    assert!(check_batch_size_limit(MAX_PACKET_BATCH, MAX_PACKET_BATCH).is_ok());
    assert_eq!(
        check_batch_size_limit(MAX_PACKET_BATCH + 1, MAX_PACKET_BATCH),
        Err(BridgeError::InvalidInput)
    );
}

#[test]
fn gas_budget_check_passes_on_fresh_env() {
    assert!(check_gas_budget(0).is_ok());
    assert!(check_gas_budget(MAX_GAS_BUDGET).is_ok());
    assert_eq!(check_gas_budget(MAX_GAS_BUDGET + 1), Err(BridgeError::InvalidInput));
}

#[test]
fn rate_limit_allows_up_to_max_calls() {
    let mut rl = BulkRateLimits::new();
    let caller = 7u64;
    for _ in 0..RATE_LIMIT_MAX_CALLS {
        assert!(rl.check_rate_limit(caller, 1_000).is_ok());
    }
    assert_eq!(rl.check_rate_limit(caller, 1_000), Err(BridgeError::InvalidInput));
}

#[test]
fn rate_limit_resets_after_window_expires() {
    let mut rl = BulkRateLimits::new();
    let caller = 7u64;
    for _ in 0..RATE_LIMIT_MAX_CALLS {
        let _ = rl.check_rate_limit(caller, 0);
    }
    assert_eq!(rl.check_rate_limit(caller, 0), Err(BridgeError::InvalidInput));
    assert!(rl.check_rate_limit(caller, RATE_LIMIT_WINDOW_SECONDS).is_ok());
}

#[test]
fn different_callers_have_independent_quotas() {
    let mut rl = BulkRateLimits::new();
    for _ in 0..RATE_LIMIT_MAX_CALLS {
        let _ = rl.check_rate_limit(1, 50);
    }
    assert_eq!(rl.check_rate_limit(1, 50), Err(BridgeError::InvalidInput));
    assert!(rl.check_rate_limit(2, 50).is_ok());
}

#[test]
fn enforce_all_rejects_oversized_batch() {
    let mut rl = BulkRateLimits::new();
    assert_eq!(rl.enforce_all(1, MAX_BATCH_SIZE + 1, 0, 0), Err(BridgeError::InvalidInput));
}

#[test]
fn enforce_all_passes_within_all_limits() {
    let mut rl = BulkRateLimits::new();
    assert!(rl.enforce_all(1, MAX_BATCH_SIZE, 0, 0).is_ok());
}
