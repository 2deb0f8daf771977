//! Failure classification and backoff.

use hume::common::error::{Error, HttpFailure, WebSocketFailure};
use hume::common::retry::{
    classify, get_retry_after, is_retryable_error, retry_decision, ErrorClass, Multiplier,
    RetryConfig, RetryDecision, RetryPolicyBuilder,
};
use std::time::Duration;

#[test]
fn test_is_retryable_error() {
    // Rate limit errors are retryable
    assert!(is_retryable_error(&Error::RateLimit { retry_after: None }));

    // Timeout errors are retryable
    assert!(is_retryable_error(&Error::Timeout));

    // Validation errors are not retryable
    assert!(!is_retryable_error(&Error::Validation("test".into())));

    // Auth errors are not retryable
    assert!(!is_retryable_error(&Error::Auth("test".into())));
}

#[test]
fn test_get_retry_after() {
    let error = Error::RateLimit { retry_after: Some(5) };
    assert_eq!(get_retry_after(&error), Some(Duration::from_secs(5)));

    let error = Error::RateLimit { retry_after: None };
    assert_eq!(get_retry_after(&error), None);

    let error = Error::Timeout;
    assert_eq!(get_retry_after(&error), None);
}

#[test]
fn test_retry_config_builder() {
    let config = RetryPolicyBuilder::new()
        .max_retries(5)
        .initial_interval(Duration::from_secs(1))
        .max_interval(Duration::from_secs(60))
        .multiplier(Multiplier::whole(3))
        .build();

    assert_eq!(config.max_retries, 5);
    assert_eq!(config.initial_backoff, Duration::from_secs(1));
    assert_eq!(config.max_backoff, Duration::from_secs(60));
    assert_eq!(config.backoff_multiplier, Multiplier::whole(3));
}

#[test]
fn test_retry_config_default() {
    let config = RetryConfig::default();
    assert_eq!(config.max_retries, 3);
    assert_eq!(config.initial_backoff, Duration::from_millis(100));
    assert_eq!(config.max_backoff, Duration::from_secs(10));
    assert_eq!(config.backoff_multiplier, Multiplier::whole(2));
}

#[test]
fn test_calculate_backoff() {
    let config = RetryConfig {
        max_retries: 3,
        initial_backoff: Duration::from_millis(100),
        max_backoff: Duration::from_secs(1),
        backoff_multiplier: Multiplier::whole(2),
    };

    // the upper half of the jitter range
    let sample = 0xC000_0000;

    let backoff = config.calculate_backoff(0, sample);
    assert!(backoff >= Duration::from_millis(100) && backoff <= Duration::from_millis(150));

    let backoff = config.calculate_backoff(1, sample);
    assert!(backoff >= Duration::from_millis(200) && backoff <= Duration::from_millis(300));

    let backoff = config.calculate_backoff(2, sample);
    assert!(backoff >= Duration::from_millis(400) && backoff <= Duration::from_millis(600));

    // Test max backoff: the delay before jitter is at most the maximum
    let backoff = config.calculate_backoff(10, 0x8000_0000);
    assert!(backoff <= config.max_backoff);
}

#[test]
fn backoff_has_exact_values() {
    let config = RetryConfig {
        max_retries: 3,
        initial_backoff: Duration::from_millis(100),
        max_backoff: Duration::from_secs(1),
        backoff_multiplier: Multiplier::whole(2),
    };
    // sample 0 is the low end of the range: half of the delay before jitter
    assert_eq!(config.calculate_backoff(0, 0), Duration::from_millis(50));
    assert_eq!(config.calculate_backoff(1, 0), Duration::from_millis(100));
    assert_eq!(config.calculate_backoff(2, 0), Duration::from_millis(200));
    assert_eq!(config.calculate_backoff(3, 0), Duration::from_millis(400));
    assert_eq!(config.calculate_backoff(4, 0), Duration::from_millis(500));
    assert_eq!(config.calculate_backoff(4_000_000_000, 0), Duration::from_millis(500));
    // the highest sample is the high end: one and a half times the delay
    assert_eq!(config.calculate_backoff(0, u32::MAX), Duration::from_millis(150));
    assert_eq!(config.calculate_backoff(4, u32::MAX), Duration::from_millis(1500));
    // the middle sample is the delay itself
    assert_eq!(config.calculate_backoff(1, 0x8000_0000), Duration::from_millis(200));
}

#[test]
fn backoff_with_a_fraction_as_multiplier() {
    let config = RetryConfig {
        max_retries: 3,
        initial_backoff: Duration::from_millis(500),
        max_backoff: Duration::from_secs(60),
        backoff_multiplier: Multiplier::from_per_mille(1500),
    };
    assert_eq!(config.calculate_backoff(0, 0x8000_0000), Duration::from_millis(500));
    assert_eq!(config.calculate_backoff(1, 0x8000_0000), Duration::from_millis(750));
    assert_eq!(config.calculate_backoff(2, 0x8000_0000), Duration::from_millis(1125));
    assert_eq!(config.calculate_backoff(100, 0x8000_0000), Duration::from_secs(60));
}

#[test]
fn backoff_at_the_edges() {
    // a multiplier below one never goes under the initial delay
    let config = RetryConfig {
        max_retries: 3,
        initial_backoff: Duration::from_millis(100),
        max_backoff: Duration::from_secs(1),
        backoff_multiplier: Multiplier::from_per_mille(500),
    };
    assert_eq!(config.calculate_backoff(5, 0x8000_0000), Duration::from_millis(100));
    // an initial delay above the maximum gives the maximum
    let config = RetryConfig {
        max_retries: 3,
        initial_backoff: Duration::from_secs(5),
        max_backoff: Duration::from_secs(1),
        backoff_multiplier: Multiplier::whole(2),
    };
    assert_eq!(config.calculate_backoff(0, 0x8000_0000), Duration::from_secs(1));
    assert_eq!(config.calculate_backoff(3, 0x8000_0000), Duration::from_secs(1));
    // the longest spans do not overflow
    let config = RetryConfig {
        max_retries: 3,
        initial_backoff: Duration::new(u64::MAX, 999_999_999),
        max_backoff: Duration::new(u64::MAX, 999_999_999),
        backoff_multiplier: Multiplier::from_per_mille(u64::MAX),
    };
    assert_eq!(config.calculate_backoff(7, u32::MAX), Duration::new(u64::MAX, 999_999_999));
    // a zero delay stays zero
    let config = RetryConfig {
        max_retries: 3,
        initial_backoff: Duration::from_secs(0),
        max_backoff: Duration::from_secs(1),
        backoff_multiplier: Multiplier::whole(2),
    };
    assert_eq!(config.calculate_backoff(9, u32::MAX), Duration::from_secs(0));
}

#[test]
fn classification_of_each_kind_of_error() {
    let with = |timeout, connect, status| {
        Error::Http(HttpFailure { timeout, connect, status, message: String::new() })
    };
    assert!(is_retryable_error(&with(true, false, None)));
    assert!(is_retryable_error(&with(false, true, None)));
    assert!(is_retryable_error(&with(false, false, Some(500))));
    assert!(is_retryable_error(&with(false, false, Some(599))));
    assert!(is_retryable_error(&with(false, false, Some(429))));
    assert!(!is_retryable_error(&with(false, false, Some(600))));
    assert!(!is_retryable_error(&with(false, false, Some(404))));
    assert!(!is_retryable_error(&with(false, false, None)));
    assert!(is_retryable_error(&Error::api(503, String::new(), None, None)));
    assert!(is_retryable_error(&Error::api(429, String::new(), None, None)));
    assert!(!is_retryable_error(&Error::api(400, String::new(), None, None)));
    assert!(!is_retryable_error(&Error::api(499, String::new(), None, None)));
    assert!(is_retryable_error(&Error::WebSocket(WebSocketFailure::ConnectionClosed)));
    assert!(is_retryable_error(&Error::WebSocket(WebSocketFailure::AlreadyClosed)));
    assert!(is_retryable_error(&Error::WebSocket(WebSocketFailure::Io("x".into()))));
    assert!(!is_retryable_error(&Error::WebSocket(WebSocketFailure::Other("x".into()))));
    assert!(!is_retryable_error(&Error::Config("x".into())));
    assert!(!is_retryable_error(&Error::Other("x".into())));
    let json_err = serde_json::from_str::<String>("{").unwrap_err();
    assert!(!is_retryable_error(&Error::from(json_err)));
    assert!(matches!(classify(&Error::Timeout), ErrorClass::Transient));
    assert!(matches!(classify(&Error::Validation("x".into())), ErrorClass::Permanent));
}

#[test]
fn decision_follows_retry_count_and_server_hint() {
    let config = RetryConfig {
        max_retries: 2,
        initial_backoff: Duration::from_millis(10),
        max_backoff: Duration::from_secs(1),
        backoff_multiplier: Multiplier::whole(2),
    };
    // a rate limit with a hint waits exactly as long as the server asked
    let hinted = Error::RateLimit { retry_after: Some(5) };
    match retry_decision(&config, 0, &hinted, 12345) {
        RetryDecision::Retry { delay } => assert_eq!(delay, Duration::from_secs(5)),
        RetryDecision::Stop => panic!("expected a retry"),
    }
    // without a hint the delay is the jittered backoff
    match retry_decision(&config, 1, &Error::Timeout, 0x8000_0000) {
        RetryDecision::Retry { delay } => assert_eq!(delay, Duration::from_millis(20)),
        RetryDecision::Stop => panic!("expected a retry"),
    }
    // the retry count is a bound
    assert!(matches!(retry_decision(&config, 2, &Error::Timeout, 0), RetryDecision::Stop));
    assert!(matches!(retry_decision(&config, 3, &hinted, 0), RetryDecision::Stop));
    // a permanent error is never retried
    let invalid = Error::validation("Invalid input");
    assert!(matches!(retry_decision(&config, 0, &invalid, 0), RetryDecision::Stop));
}
