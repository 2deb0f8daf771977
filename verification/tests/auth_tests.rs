//! Credentials and their wire encodings.

use chrono::Utc;
use hume::common::auth::{AccessTokenResponse, Auth, AuthToken, Timestamp};

fn stamp(t: chrono::DateTime<Utc>) -> Timestamp {
    Timestamp { secs: t.timestamp(), nanos: t.timestamp_subsec_nanos() }
}

#[test]
fn test_auth_token_expiry() {
    let mut token = AuthToken::new("test-token".to_string(), "Bearer".to_string(), 60);

    assert!(!token.is_expired());
    assert!(token.time_until_expiry().is_some());
    assert!(token.time_until_expiry().unwrap() <= 60);

    // Simulate expired token
    token.created_at = stamp(Utc::now() - chrono::Duration::seconds(120));
    assert!(token.is_expired());
    assert!(token.time_until_expiry().is_none());
}

#[test]
fn test_auth_token_from_response() {
    let response = AccessTokenResponse {
        access_token: "new-token".to_string(),
        token_type: "Bearer".to_string(),
        expires_in: 7200,
    };

    let token: AuthToken = response.into();
    assert_eq!(token.access_token, "new-token");
    assert_eq!(token.token_type, "Bearer");
    assert_eq!(token.expires_in, 7200);
    assert!(!token.is_expired());
}

#[test]
fn test_auth_header_values() {
    let auth = Auth::ApiKey("test-key-123".to_string());
    let (header_name, header_value) = auth.header_value().unwrap();
    assert_eq!(header_name, "X-Hume-Api-Key");
    assert_eq!(header_value, "test-key-123");

    let auth = Auth::AccessToken(AuthToken {
        access_token: "token-456".to_string(),
        token_type: "Bearer".to_string(),
        expires_in: 3600,
        created_at: stamp(chrono::Utc::now()),
    });
    let (header_name, header_value) = auth.header_value().unwrap();
    assert_eq!(header_name, "Authorization");
    assert_eq!(header_value, "Bearer token-456");
}

#[test]
fn test_auth_query_params() {
    let auth = Auth::ApiKey("test-key".to_string());
    let (param_name, param_value) = auth.query_param();
    assert_eq!(param_name, "api_key");
    assert_eq!(param_value, "test-key");

    let auth = Auth::AccessToken(AuthToken {
        access_token: "token".to_string(),
        token_type: "Bearer".to_string(),
        expires_in: 3600,
        created_at: stamp(chrono::Utc::now()),
    });
    let (param_name, param_value) = auth.query_param();
    assert_eq!(param_name, "access_token");
    assert_eq!(param_value, "token");
}

#[test]
fn token_expires_exactly_at_issue_time_plus_ttl() {
    let token = AuthToken {
        access_token: "t".to_string(),
        token_type: "Bearer".to_string(),
        expires_in: 60,
        created_at: Timestamp { secs: 1_000, nanos: 500_000_000 },
    };
    let just_before = Timestamp { secs: 1_060, nanos: 499_999_999 };
    let at = Timestamp { secs: 1_060, nanos: 500_000_000 };
    let after = Timestamp { secs: 2_000, nanos: 0 };
    assert!(!token.is_expired_at(&just_before));
    assert!(token.is_expired_at(&at));
    assert!(token.is_expired_at(&after));
    assert_eq!(token.time_until_expiry_at(&just_before), Some(0));
    assert_eq!(token.time_until_expiry_at(&Timestamp { secs: 1_000, nanos: 500_000_000 }), Some(60));
    assert_eq!(token.time_until_expiry_at(&Timestamp { secs: 1_000, nanos: 500_000_001 }), Some(59));
    assert_eq!(token.time_until_expiry_at(&at), None);

    let auth = Auth::access_token(token);
    assert!(!auth.is_expired_at(&just_before));
    assert!(auth.is_expired_at(&at));
}

#[test]
fn static_key_never_expires() {
    let auth = Auth::api_key("test-key");
    assert!(!auth.is_expired());
    assert!(!auth.is_expired_at(&Timestamp { secs: i64::MAX, nanos: 999_999_999 }));
    assert!(!auth.is_expired_at(&Timestamp { secs: i64::MIN, nanos: 0 }));
}

#[test]
fn expiry_at_the_ends_of_the_number_range() {
    let token = AuthToken {
        access_token: "t".to_string(),
        token_type: "Bearer".to_string(),
        expires_in: u64::MAX,
        created_at: Timestamp { secs: i64::MAX, nanos: 0 },
    };
    assert!(!token.is_expired_at(&Timestamp { secs: i64::MAX, nanos: 999_999_999 }));
    assert_eq!(
        token.time_until_expiry_at(&Timestamp { secs: i64::MIN, nanos: 0 }),
        Some(u64::MAX)
    );
    let zero = AuthToken {
        access_token: "t".to_string(),
        token_type: "Bearer".to_string(),
        expires_in: 0,
        created_at: Timestamp { secs: 5, nanos: 0 },
    };
    assert!(zero.is_expired_at(&Timestamp { secs: 5, nanos: 0 }));
    assert!(!zero.is_expired_at(&Timestamp { secs: 4, nanos: 999_999_999 }));
}
