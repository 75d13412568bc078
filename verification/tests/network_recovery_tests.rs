use teachlink::errors::BridgeError;
use teachlink::network_recovery::{NetworkRecovery, OperationStatus, RecoveryConfig, INITIAL_BACKOFF_SECONDS};

fn ready() -> NetworkRecovery {
    let mut n = NetworkRecovery::new();
    n.initialize().unwrap();
    n
}

#[test]
fn test_retry_with_backoff() {
    let mut n = ready();
    let now = 1_000u64;
    n.register_failed_operation(1, b"bridge_transfer".to_vec(), 7, b"network_timeout".to_vec(), now).unwrap();
    let state = n.get_operation_state(1);
    assert!(state.is_some());
    let state = state.unwrap();
    assert_eq!(state.retry_count, 0);
    assert_eq!(state.status, OperationStatus::Retrying);
    assert!(state.next_retry > now);
    assert_eq!(state.next_retry, now + INITIAL_BACKOFF_SECONDS);
    assert_eq!(n.get_user_notifications(7), vec![1]);
}

#[test]
fn test_max_retries_exceeded() {
    let mut n = ready();
    let mut results = vec![];
    for _ in 0..6 {
        results.push(n.register_failed_operation(1, b"bridge_transfer".to_vec(), 7, b"network_timeout".to_vec(), 0));
    }
    let state = n.get_operation_state(1).unwrap();
    assert_eq!(state.status, OperationStatus::Failed);
    assert_eq!(results[5], Err(BridgeError::RetryLimitExceeded));
    assert!(results[..5].iter().all(|r| r.is_ok()));
    assert!(n.is_fallback_active());
    assert_eq!(n.get_user_notifications(7), vec![1, 1, 1, 1, 1]);
}

#[test]
fn test_backoff_calculation() {
    let n = ready();
    assert_eq!(n.calculate_backoff(0), INITIAL_BACKOFF_SECONDS);
    assert_eq!(n.calculate_backoff(1), INITIAL_BACKOFF_SECONDS * 2);
    assert_eq!(n.calculate_backoff(2), INITIAL_BACKOFF_SECONDS * 4);
    // 60 * 2^6 = 3840 passes the one-hour cap.
    assert_eq!(n.calculate_backoff(6), 3600);
    assert_eq!(n.calculate_backoff(30), 3600);
}

#[test]
fn can_retry_respects_backoff_and_limit() {
    let mut n = ready();
    assert_eq!(n.can_retry(9, 0), Ok(true));
    n.register_failed_operation(9, vec![1], 7, vec![2], 100).unwrap();
    assert_eq!(n.can_retry(9, 159), Err(BridgeError::RetryBackoffActive));
    assert_eq!(n.can_retry(9, 160), Ok(true));
    n.mark_completed(9).unwrap();
    let s = n.get_operation_state(9).unwrap();
    assert_eq!((s.status, s.retry_count), (OperationStatus::Completed, 0));
    assert_eq!(n.initialize(), Err(BridgeError::AlreadyInitialized));
}

#[test]
fn config_updates_are_validated() {
    let mut n = ready();
    let mut c = RecoveryConfig {
        max_retries: 0,
        initial_backoff: 10,
        max_backoff: 100,
        backoff_multiplier: 3,
        circuit_breaker_threshold: 1,
        fallback_enabled: false,
    };
    assert_eq!(n.update_config(c), Err(BridgeError::InvalidInput));
    c.max_retries = 1;
    n.update_config(c).unwrap();
    assert_eq!(n.calculate_backoff(1), 30);
    n.register_failed_operation(4, vec![1], 7, vec![2], 0).unwrap();
    assert_eq!(n.register_failed_operation(4, vec![1], 7, vec![2], 0), Err(BridgeError::RetryLimitExceeded));
    assert!(!n.is_fallback_active());
    n.activate_fallback(4, vec![3], 5).unwrap();
    assert!(n.is_fallback_active());
}
