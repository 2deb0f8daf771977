//! Error types.

use vstd::prelude::*;
use crate::common::text::{concat, decimal, decimal_string, opt_str};
use serde_json::Error as JsonError;
use std::io::Error as IoError;

verus! {

/// A type alias for `Result<T, Error>`.
pub type Result<T> = std::result::Result<T, Error>;

/// `serde_json::Error`, carried as it is: nothing is known of what it holds.
#[verifier::external_type_specification]
#[verifier::external_body]
pub struct ExJsonError(JsonError);

/// `url::ParseError`, carried as it is: nothing is known of what it holds.
#[verifier::external_type_specification]
#[verifier::external_body]
pub struct ExUrlParseError(url::ParseError);

/// `base64::DecodeError`, carried as it is: nothing is known of what it holds.
#[verifier::external_type_specification]
#[verifier::external_body]
pub struct ExBase64DecodeError(base64::DecodeError);

/// `std::io::Error`, carried as it is: nothing is known of what it holds.
#[verifier::external_type_specification]
#[verifier::external_body]
pub struct ExIoError(IoError);

/// What a failed HTTP exchange reported about itself.
#[derive(Debug, Clone)]
pub struct HttpFailure {
    /// The exchange ran out of time.
    pub timeout: bool,
    /// The connection could not be established.
    pub connect: bool,
    /// The status code that came with the failure, if any.
    pub status: Option<u16>,
    /// Description of the failure.
    pub message: String,
}

/// The mathematical value of an [`HttpFailure`].
pub ghost struct HttpFailureView {
    pub timeout: bool,
    pub connect: bool,
    pub status: Option<u16>,
    pub message: Seq<char>,
}

impl View for HttpFailure {
    type V = HttpFailureView;

    open spec fn view(&self) -> HttpFailureView {
        HttpFailureView {
            timeout: self.timeout,
            connect: self.connect,
            status: self.status,
            message: self.message@,
        }
    }
}

/// How a duplex connection failed.
#[derive(Debug, Clone)]
pub enum WebSocketFailure {
    /// The connection was closed in an orderly way.
    ConnectionClosed,
    /// The connection was used after it had been closed.
    AlreadyClosed,
    /// The underlying stream failed.
    Io(String),
    /// Any other failure of the transport.
    Other(String),
}

/// The mathematical value of a [`WebSocketFailure`].
pub ghost enum WebSocketFailureView {
    ConnectionClosed,
    AlreadyClosed,
    Io(Seq<char>),
    Other(Seq<char>),
}

impl View for WebSocketFailure {
    type V = WebSocketFailureView;

    open spec fn view(&self) -> WebSocketFailureView {
        match self {
            WebSocketFailure::ConnectionClosed => WebSocketFailureView::ConnectionClosed,
            WebSocketFailure::AlreadyClosed => WebSocketFailureView::AlreadyClosed,
            WebSocketFailure::Io(m) => WebSocketFailureView::Io(m@),
            WebSocketFailure::Other(m) => WebSocketFailureView::Other(m@),
        }
    }
}

/// The error type of this crate.
#[derive(Debug)]
pub enum Error {
    /// HTTP client error
    Http(HttpFailure),
    /// JSON serialization/deserialization error
    Json(serde_json::Error),
    /// WebSocket error
    WebSocket(WebSocketFailure),
    /// API error returned by Hume
    Api {
        /// HTTP status code
        status: u16,
        /// Error message from the API
        message: String,
        /// Optional error code
        code: Option<String>,
        /// Raw response body
        body: Option<String>,
    },
    /// Authentication error
    Auth(String),
    /// Configuration error
    Config(String),
    /// Validation error
    Validation(String),
    /// IO error
    Io(std::io::Error),
    /// URL parsing error
    UrlParse(url::ParseError),
    /// Base64 decode error
    Base64(base64::DecodeError),
    /// Timeout error
    Timeout,
    /// Rate limit error
    RateLimit {
        /// Optional retry-after header value, in seconds
        retry_after: Option<u64>,
    },
    /// Other errors
    Other(String),
}

/// The mathematical value of an [`Error`].
pub ghost enum ErrorView {
    Http(HttpFailureView),
    Json(serde_json::Error),
    WebSocket(WebSocketFailureView),
    Api { status: u16, message: Seq<char>, code: Option<Seq<char>>, body: Option<Seq<char>> },
    Auth(Seq<char>),
    Config(Seq<char>),
    Validation(Seq<char>),
    Io(std::io::Error),
    UrlParse(url::ParseError),
    Base64(base64::DecodeError),
    Timeout,
    RateLimit { retry_after: Option<u64> },
    Other(Seq<char>),
}

impl View for Error {
    type V = ErrorView;

    open spec fn view(&self) -> ErrorView {
        match self {
            Error::Http(f) => ErrorView::Http(f@),
            Error::Json(e) => ErrorView::Json(*e),
            Error::WebSocket(f) => ErrorView::WebSocket(f@),
            Error::Api { status, message, code, body } => ErrorView::Api {
                status: *status,
                message: message@,
                code: opt_str(*code),
                body: opt_str(*body),
            },
            Error::Auth(m) => ErrorView::Auth(m@),
            Error::Config(m) => ErrorView::Config(m@),
            Error::Validation(m) => ErrorView::Validation(m@),
            Error::Io(e) => ErrorView::Io(*e),
            Error::UrlParse(e) => ErrorView::UrlParse(*e),
            Error::Base64(e) => ErrorView::Base64(*e),
            Error::Timeout => ErrorView::Timeout,
            Error::RateLimit { retry_after } => ErrorView::RateLimit { retry_after: *retry_after },
            Error::Other(m) => ErrorView::Other(m@),
        }
    }
}

/// Text of a JSON error. Trusted: `Display` of `serde_json::Error`; nothing is
/// claimed of the text.
#[verifier::external_body]
fn json_error_text(e: &serde_json::Error) -> String {
    e.to_string()
}

/// Text of a URL parse error. Trusted: `Display` of `url::ParseError`; nothing is
/// claimed of the text.
#[verifier::external_body]
fn url_error_text(e: &url::ParseError) -> String {
    e.to_string()
}

/// Text of a base64 decode error. Trusted: `Display` of `base64::DecodeError`;
/// nothing is claimed of the text.
#[verifier::external_body]
fn base64_error_text(e: &base64::DecodeError) -> String {
    e.to_string()
}

/// Text of an I/O error. Trusted: `Display` of `std::io::Error`; nothing is
/// claimed of the text.
#[verifier::external_body]
fn io_error_text(e: &std::io::Error) -> String {
    e.to_string()
}

/// The text that [`Error::message`] gives for an error, where the crate
/// determines it; for an error raised outside the crate, the text's fixed start.
pub open spec fn message_head(e: ErrorView) -> Seq<char> {
    match e {
        ErrorView::Http(f) => "HTTP client error: "@ + f.message,
        ErrorView::Json(_) => "JSON error: "@,
        ErrorView::WebSocket(f) => "WebSocket error: "@ + match f {
            WebSocketFailureView::ConnectionClosed => "Connection closed normally"@,
            WebSocketFailureView::AlreadyClosed => "Trying to work with closed connection"@,
            WebSocketFailureView::Io(m) => "IO error: "@ + m,
            WebSocketFailureView::Other(m) => m,
        },
        ErrorView::Api { status, message, code, body } => "API error (status "@ + decimal(
            status as nat,
        ) + "): "@ + message,
        ErrorView::Auth(m) => "Authentication error: "@ + m,
        ErrorView::Config(m) => "Configuration error: "@ + m,
        ErrorView::Validation(m) => "Validation error: "@ + m,
        ErrorView::Io(_) => "IO error: "@,
        ErrorView::UrlParse(_) => "URL parse error: "@,
        ErrorView::Base64(_) => "Base64 decode error: "@,
        ErrorView::Timeout => "Request timed out"@,
        ErrorView::RateLimit { retry_after } => "Rate limit exceeded"@,
        ErrorView::Other(m) => m,
    }
}

/// Whether the crate itself determines the whole text of the error.
pub open spec fn message_is_whole(e: ErrorView) -> bool {
    !(e is Json || e is Io || e is UrlParse || e is Base64)
}

impl Error {
    /// Create a new API error
    pub fn api(status: u16, message: String, code: Option<String>, body: Option<String>) -> (e:
        Error)
        ensures
            e@ == (ErrorView::Api {
                status,
                message: message@,
                code: opt_str(code),
                body: opt_str(body),
            }),
    {
        Error::Api { status, message, code, body }
    }

    /// Create a new authentication error
    pub fn auth(message: &str) -> (e: Error)
        ensures
            e@ == ErrorView::Auth(message@),
    {
        Error::Auth(String::from_str(message))
    }

    /// Create a new configuration error
    pub fn config(message: &str) -> (e: Error)
        ensures
            e@ == ErrorView::Config(message@),
    {
        Error::Config(String::from_str(message))
    }

    /// Create a new validation error
    pub fn validation(message: &str) -> (e: Error)
        ensures
            e@ == ErrorView::Validation(message@),
    {
        Error::Validation(String::from_str(message))
    }

    /// Create a new other error
    pub fn other(message: &str) -> (e: Error)
        ensures
            e@ == ErrorView::Other(message@),
    {
        Error::Other(String::from_str(message))
    }

    /// Returns true if this is an API error
    pub fn is_api_error(&self) -> (r: bool)
        ensures
            r == (self@ is Api),
    {
        match self {
            Error::Api { .. } => true,
            _ => false,
        }
    }

    /// Returns true if this is a rate limit error
    pub fn is_rate_limit(&self) -> (r: bool)
        ensures
            r == (self@ is RateLimit),
    {
        match self {
            Error::RateLimit { .. } => true,
            _ => false,
        }
    }

    /// Returns true if this is a timeout error
    pub fn is_timeout(&self) -> (r: bool)
        ensures
            r == (self@ is Timeout),
    {
        match self {
            Error::Timeout => true,
            _ => false,
        }
    }

    /// Get the status code if this is an API error
    pub fn status_code(&self) -> (r: Option<u16>)
        ensures
            r == (match self@ {
                ErrorView::Api { status, .. } => Some(status),
                _ => None,
            }),
    {
        match self {
            Error::Api { status, .. } => Some(*status),
            _ => None,
        }
    }

    /// The text that describes the error to a reader.
    pub fn message(&self) -> (r: String)
        ensures
            message_head(self@).is_prefix_of(r@),
            message_is_whole(self@) ==> r@ == message_head(self@),
    {
        match self {
            Error::Http(f) => concat("HTTP client error: ", f.message.as_str()),
            Error::Json(e) => {
                let t = json_error_text(e);
                concat("JSON error: ", t.as_str())
            },
            Error::WebSocket(f) => {
                match f {
                    WebSocketFailure::ConnectionClosed => concat(
                        "WebSocket error: ",
                        "Connection closed normally",
                    ),
                    WebSocketFailure::AlreadyClosed => concat(
                        "WebSocket error: ",
                        "Trying to work with closed connection",
                    ),
                    WebSocketFailure::Io(m) => {
                        let mut s = concat("WebSocket error: ", "IO error: ");
                        s.append(m.as_str());
                        assert(s@ =~= message_head(self@));
                        s
                    },
                    WebSocketFailure::Other(m) => concat("WebSocket error: ", m.as_str()),
                }
            },
            Error::Api { status, message, .. } => {
                let digits = decimal_string(*status as u64);
                let mut s = concat("API error (status ", digits.as_str());
                s.append("): ");
                s.append(message.as_str());
                s
            },
            Error::Auth(m) => concat("Authentication error: ", m.as_str()),
            Error::Config(m) => concat("Configuration error: ", m.as_str()),
            Error::Validation(m) => concat("Validation error: ", m.as_str()),
            Error::Io(e) => {
                let t = io_error_text(e);
                concat("IO error: ", t.as_str())
            },
            Error::UrlParse(e) => {
                let t = url_error_text(e);
                concat("URL parse error: ", t.as_str())
            },
            Error::Base64(e) => {
                let t = base64_error_text(e);
                concat("Base64 decode error: ", t.as_str())
            },
            Error::Timeout => String::from_str("Request timed out"),
            Error::RateLimit { .. } => String::from_str("Rate limit exceeded"),
            Error::Other(m) => m.clone(),
        }
    }
}

impl From<serde_json::Error> for Error {
    fn from(e: serde_json::Error) -> (r: Error) {
        Error::Json(e)
    }
}

impl vstd::std_specs::convert::FromSpecImpl<serde_json::Error> for Error {
    open spec fn obeys_from_spec() -> bool {
        true
    }

    open spec fn from_spec(e: serde_json::Error) -> Error {
        Error::Json(e)
    }
}

impl From<url::ParseError> for Error {
    fn from(e: url::ParseError) -> (r: Error) {
        Error::UrlParse(e)
    }
}

impl vstd::std_specs::convert::FromSpecImpl<url::ParseError> for Error {
    open spec fn obeys_from_spec() -> bool {
        true
    }

    open spec fn from_spec(e: url::ParseError) -> Error {
        Error::UrlParse(e)
    }
}

impl From<base64::DecodeError> for Error {
    fn from(e: base64::DecodeError) -> (r: Error) {
        Error::Base64(e)
    }
}

impl vstd::std_specs::convert::FromSpecImpl<base64::DecodeError> for Error {
    open spec fn obeys_from_spec() -> bool {
        true
    }

    open spec fn from_spec(e: base64::DecodeError) -> Error {
        Error::Base64(e)
    }
}

impl From<std::io::Error> for Error {
    fn from(e: std::io::Error) -> (r: Error) {
        Error::Io(e)
    }
}

impl vstd::std_specs::convert::FromSpecImpl<std::io::Error> for Error {
    open spec fn obeys_from_spec() -> bool {
        true
    }

    open spec fn from_spec(e: std::io::Error) -> Error {
        Error::Io(e)
    }
}

/// API error details returned by Hume
#[derive(Debug, Clone)]
pub struct ApiErrorDetails {
    /// Error message
    pub message: String,
    /// Error code
    pub code: Option<String>,
    /// Field-specific errors for validation
    pub errors: Option<Vec<FieldError>>,
}

/// Field-specific error for validation
#[derive(Debug, Clone)]
pub struct FieldError {
    /// Field name
    pub field: String,
    /// Error message
    pub message: String,
    /// Error code
    pub code: Option<String>,
}

} // verus!
