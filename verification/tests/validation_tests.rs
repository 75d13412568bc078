use teachlink::validation::{TimeValidator, ValidationError};

#[test]
fn test_monotonicity() {
    assert!(TimeValidator::check_monotonic(100, 101).is_ok());
    assert!(TimeValidator::check_monotonic(100, 100).is_ok());
    assert_eq!(
        TimeValidator::check_monotonic(101, 100),
        Err(ValidationError::TimestampNotMonotonic)
    );
}

#[test]
fn test_skew_tolerance() {
    let now = 1_000_000;
    assert!(TimeValidator::validate_skew(now, now + 800).is_ok());
    assert!(TimeValidator::validate_skew(now, now - 800).is_ok());
    assert_eq!(
        TimeValidator::validate_skew(now, now + 1000),
        Err(ValidationError::TimestampSkewExceeded)
    );
}
