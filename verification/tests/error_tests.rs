//! Errors.

use hume::common::error::{Error, HttpFailure, Result, WebSocketFailure};

#[test]
fn test_error_creation() {
    let api_error = Error::api(404, "Not found".to_string(), None, None);
    assert!(api_error.is_api_error());
    assert_eq!(api_error.status_code(), Some(404));

    let auth_error = Error::auth("Invalid API key");
    assert!(!auth_error.is_api_error());

    let rate_limit_error = Error::RateLimit { retry_after: Some(60) };
    assert!(rate_limit_error.is_rate_limit());

    let timeout_error = Error::Timeout;
    assert!(timeout_error.is_timeout());
}

#[test]
fn test_error_display() {
    let error = Error::api(400, "Bad request".to_string(), Some("INVALID_INPUT".to_string()), None);
    let error_string = error.message();
    assert!(error_string.contains("400"));
    assert!(error_string.contains("Bad request"));
}

#[test]
fn test_result_type() {
    fn returns_result() -> Result<String> {
        Ok("success".to_string())
    }

    let result = returns_result();
    assert!(result.is_ok());
    assert_eq!(result.unwrap(), "success");
}

#[test]
fn test_error_from_conversions() {
    let json_err = serde_json::from_str::<String>("invalid json").unwrap_err();
    let error: Error = json_err.into();
    assert!(matches!(error, Error::Json(_)));

    let url_err = url::Url::parse("not a url").unwrap_err();
    let error: Error = url_err.into();
    assert!(matches!(error, Error::UrlParse(_)));
}

#[test]
fn error_variants_are_told_apart() {
    let err = Error::validation("Invalid input");
    assert!(matches!(err, Error::Validation(_)));

    let err = Error::api(404, "Not found".to_string(), None, None);
    assert!(matches!(err, Error::Api { status, .. } if status == 404));

    let err = Error::RateLimit { retry_after: Some(60) };
    assert!(matches!(err, Error::RateLimit { retry_after: Some(60) }));
}

#[test]
fn messages_of_each_variant() {
    assert_eq!(
        Error::api(503, "down".to_string(), None, None).message(),
        "API error (status 503): down"
    );
    assert_eq!(Error::auth("no key").message(), "Authentication error: no key");
    assert_eq!(Error::config("bad").message(), "Configuration error: bad");
    assert_eq!(Error::validation("empty").message(), "Validation error: empty");
    assert_eq!(Error::other("plain").message(), "plain");
    assert_eq!(Error::Timeout.message(), "Request timed out");
    assert_eq!(Error::RateLimit { retry_after: None }.message(), "Rate limit exceeded");
    let failure =
        HttpFailure { timeout: false, connect: true, status: None, message: "refused".to_string() };
    assert_eq!(Error::Http(failure).message(), "HTTP client error: refused");
    assert_eq!(
        Error::WebSocket(WebSocketFailure::AlreadyClosed).message(),
        "WebSocket error: Trying to work with closed connection"
    );
    assert_eq!(
        Error::WebSocket(WebSocketFailure::Io("reset".to_string())).message(),
        "WebSocket error: IO error: reset"
    );
    let json_err = serde_json::from_str::<String>("{").unwrap_err();
    let text = json_err.to_string();
    assert_eq!(Error::from(json_err).message(), format!("JSON error: {}", text));
    let url_err = url::Url::parse("not a url").unwrap_err();
    assert_eq!(
        Error::from(url_err).message(),
        "URL parse error: relative URL without a base"
    );
    let io_err = std::io::Error::new(std::io::ErrorKind::NotFound, "no such file");
    let error: Error = io_err.into();
    assert!(matches!(error, Error::Io(_)));
    assert_eq!(error.message(), "IO error: no such file");
    let base64_err = base64::DecodeError::InvalidLength(3);
    let error: Error = base64_err.into();
    assert!(matches!(error, Error::Base64(_)));
    assert_eq!(error.message(), "Base64 decode error: Invalid input length: 3");
    assert_eq!(
        Error::WebSocket(WebSocketFailure::ConnectionClosed).message(),
        "WebSocket error: Connection closed normally"
    );
    assert_eq!(
        Error::WebSocket(WebSocketFailure::Other("tls".to_string())).message(),
        "WebSocket error: tls"
    );
    assert!(!error.is_api_error() && !error.is_rate_limit() && !error.is_timeout());
    assert_eq!(error.status_code(), None);
    assert_eq!(Error::api(0, String::new(), None, None).message(), "API error (status 0): ");
    assert_eq!(
        Error::api(65535, "x".to_string(), None, None).message(),
        "API error (status 65535): x"
    );
}
