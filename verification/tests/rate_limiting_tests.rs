use teachlink::errors::BridgeError;
use teachlink::rate_limiting::{EndpointConfig, RateLimiter, DEFAULT_MAX_CALLS};

#[test]
fn allows_calls_within_limit() {
    let mut r = RateLimiter::new();
    let ep = b"bridge".to_vec();
    r.set_endpoint_config(&ep, EndpointConfig { max_calls: 3, window_ledgers: 100 });
    assert!(r.check_rate_limit(1, &ep, 1).is_ok());
    assert!(r.check_rate_limit(1, &ep, 1).is_ok());
    assert!(r.check_rate_limit(1, &ep, 1).is_ok());
    assert_eq!(r.check_rate_limit(1, &ep, 1), Err(BridgeError::RetryLimitExceeded));
}

#[test]
fn resets_after_window_expires() {
    let mut r = RateLimiter::new();
    let ep = b"bridge".to_vec();
    r.set_endpoint_config(&ep, EndpointConfig { max_calls: 1, window_ledgers: 10 });
    assert!(r.check_rate_limit(1, &ep, 1).is_ok());
    assert!(r.check_rate_limit(1, &ep, 1).is_err());
    assert!(r.check_rate_limit(1, &ep, 12).is_ok());
}

#[test]
fn different_users_have_independent_limits() {
    let mut r = RateLimiter::new();
    let ep = b"bridge".to_vec();
    r.set_endpoint_config(&ep, EndpointConfig { max_calls: 1, window_ledgers: 100 });
    assert!(r.check_rate_limit(1, &ep, 1).is_ok());
    assert!(r.check_rate_limit(1, &ep, 1).is_err());
    assert!(r.check_rate_limit(2, &ep, 1).is_ok());
}

#[test]
fn unconfigured_endpoints_use_the_default() {
    let mut r = RateLimiter::new();
    let ep = b"other".to_vec();
    assert_eq!(r.get_config(&ep).max_calls, DEFAULT_MAX_CALLS);
    for _ in 0..DEFAULT_MAX_CALLS {
        assert!(r.check_rate_limit(5, &ep, 0).is_ok());
    }
    assert!(r.check_rate_limit(5, &ep, 599).is_err());
    assert!(r.check_rate_limit(5, &ep, 600).is_ok());
}
