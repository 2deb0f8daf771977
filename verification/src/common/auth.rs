//! Authentication types and utilities.

use vstd::prelude::*;
use crate::common::error::{Error, ErrorView};
use crate::common::json::{
    from_text, json_error, json_of, json_parsed, object_insert, read_string, read_u64,
    required_string, required_u64, value_object, value_string, Json,
};
use crate::common::text::{concat, opt_str};

verus! {

/// A point on the UTC time line: seconds since the Unix epoch and the
/// nanoseconds beyond them.
#[derive(Debug, Clone, Copy)]
pub struct Timestamp {
    /// Whole seconds since 1970-01-01T00:00:00Z; negative before it.
    pub secs: i64,
    /// Nanoseconds since the last whole second.
    pub nanos: u32,
}

impl Timestamp {
    /// The point as nanoseconds since the Unix epoch.
    pub open spec fn total_nanos(self) -> int {
        self.secs * 1_000_000_000 + self.nanos
    }

    /// The point as nanoseconds since the Unix epoch.
    pub fn as_nanos(&self) -> (n: i128)
        ensures
            n == self.total_nanos(),
    {
        self.secs as i128 * 1_000_000_000i128 + self.nanos as i128
    }

    /// The current time.
    ///
    /// Trusted: reads the clock through `chrono::Utc::now`, and takes the seconds
    /// and nanoseconds of what it returns with `timestamp` and
    /// `timestamp_subsec_nanos`. Nothing is claimed of the result. `Utc::now`
    /// gives up with a panic on a machine whose clock stands before 1970.
    #[verifier::external_body]
    pub(crate) fn now() -> Timestamp {
        let t = chrono::Utc::now();
        Timestamp { secs: t.timestamp(), nanos: t.timestamp_subsec_nanos() }
    }
}

/// Access token for authentication
#[derive(Debug)]
pub struct AuthToken {
    /// The access token
    pub access_token: String,
    /// Token type (usually "Bearer")
    pub token_type: String,
    /// Expiration time in seconds
    pub expires_in: u64,
    /// When the token was created
    pub created_at: Timestamp,
}

/// The mathematical value of an [`AuthToken`].
pub ghost struct AuthTokenView {
    pub access_token: Seq<char>,
    pub token_type: Seq<char>,
    pub expires_in: u64,
    pub created_at: Timestamp,
}

impl View for AuthToken {
    type V = AuthTokenView;

    open spec fn view(&self) -> AuthTokenView {
        AuthTokenView {
            access_token: self.access_token@,
            token_type: self.token_type@,
            expires_in: self.expires_in,
            created_at: self.created_at,
        }
    }
}

impl AuthTokenView {
    /// The point at which the token expires, in nanoseconds since the epoch.
    pub open spec fn expiry_nanos(self) -> int {
        self.created_at.total_nanos() + self.expires_in * 1_000_000_000
    }

    /// Whether the token has expired at `now`: from its expiry on.
    pub open spec fn expired_at(self, now: Timestamp) -> bool {
        now.total_nanos() >= self.expiry_nanos()
    }

    /// The whole seconds left at `now` until the token expires, at most
    /// `u64::MAX`; none once it has expired.
    pub open spec fn seconds_left_at(self, now: Timestamp) -> Option<u64> {
        if self.expired_at(now) {
            None
        } else {
            let left = (self.expiry_nanos() - now.total_nanos()) / 1_000_000_000;
            if left > u64::MAX {
                Some(u64::MAX)
            } else {
                Some(left as u64)
            }
        }
    }
}

impl AuthToken {
    /// Create a new auth token, issued now
    pub fn new(access_token: String, token_type: String, expires_in: u64) -> (r: Self)
        ensures
            r@.access_token == access_token@,
            r@.token_type == token_type@,
            r@.expires_in == expires_in,
    {
        AuthToken { access_token, token_type, expires_in, created_at: Timestamp::now() }
    }

    /// Whether the token has expired at the time `now`.
    pub fn is_expired_at(&self, now: &Timestamp) -> (r: bool)
        ensures
            r == self@.expired_at(*now),
    {
        let expiry = self.created_at.as_nanos() + self.expires_in as i128 * 1_000_000_000i128;
        now.as_nanos() >= expiry
    }

    /// Check if the token is expired: whether it has expired at the instant
    /// that the clock gives. Of that instant nothing is known, so the result is
    /// what [`AuthToken::is_expired_at`] gives for some instant.
    pub fn is_expired(&self) -> (r: bool)
        ensures
            exists|now: Timestamp| r == #[trigger] self@.expired_at(now),
    {
        let now = Timestamp::now();
        let r = self.is_expired_at(&now);
        assert(r == self@.expired_at(now));
        r
    }

    /// The remaining whole seconds at the time `now` until expiration.
    pub fn time_until_expiry_at(&self, now: &Timestamp) -> (r: Option<u64>)
        ensures
            r == self@.seconds_left_at(*now),
    {
        let expiry = self.created_at.as_nanos() + self.expires_in as i128 * 1_000_000_000i128;
        let current = now.as_nanos();
        if expiry > current {
            let left = (expiry - current) / 1_000_000_000i128;
            if left > u64::MAX as i128 {
                Some(u64::MAX)
            } else {
                Some(left as u64)
            }
        } else {
            None
        }
    }

    /// Get the remaining time until expiration in seconds, counted from the
    /// instant that the clock gives. Of that instant nothing is known, so the
    /// result is what [`AuthToken::time_until_expiry_at`] gives for some
    /// instant.
    pub fn time_until_expiry(&self) -> (r: Option<u64>)
        ensures
            exists|now: Timestamp| r == #[trigger] self@.seconds_left_at(now),
    {
        let now = Timestamp::now();
        let r = self.time_until_expiry_at(&now);
        assert(r == self@.seconds_left_at(now));
        r
    }
}

/// Authentication method for Hume API
#[derive(Debug)]
pub enum Auth {
    /// API key authentication
    ApiKey(String),
    /// Access token authentication
    AccessToken(AuthToken),
}

/// The mathematical value of an [`Auth`].
pub ghost enum AuthView {
    ApiKey(Seq<char>),
    AccessToken(AuthTokenView),
}

impl View for Auth {
    type V = AuthView;

    open spec fn view(&self) -> AuthView {
        match self {
            Auth::ApiKey(k) => AuthView::ApiKey(k@),
            Auth::AccessToken(t) => AuthView::AccessToken(t@),
        }
    }
}

impl AuthView {
    /// The header that carries the credential on a unary call.
    pub open spec fn header(self) -> (Seq<char>, Seq<char>) {
        match self {
            AuthView::ApiKey(k) => ("X-Hume-Api-Key"@, k),
            AuthView::AccessToken(t) => ("Authorization"@, "Bearer "@ + t.access_token),
        }
    }

    /// The query parameter that carries the credential on a duplex handshake.
    pub open spec fn query(self) -> (Seq<char>, Seq<char>) {
        match self {
            AuthView::ApiKey(k) => ("api_key"@, k),
            AuthView::AccessToken(t) => ("access_token"@, t.access_token),
        }
    }

    /// Whether the credential has expired at `now`: a key never does.
    pub open spec fn expired_at(self, now: Timestamp) -> bool {
        match self {
            AuthView::ApiKey(_) => false,
            AuthView::AccessToken(t) => t.expired_at(now),
        }
    }
}

impl Auth {
    /// Create a new API key authentication
    pub fn api_key(key: &str) -> (r: Self)
        ensures
            r@ == AuthView::ApiKey(key@),
    {
        Auth::ApiKey(String::from_str(key))
    }

    /// Create a new access token authentication
    pub fn access_token(token: AuthToken) -> (r: Self)
        ensures
            r@ == AuthView::AccessToken(token@),
    {
        Auth::AccessToken(token)
    }

    /// Get the authorization header value
    pub fn header_value(&self) -> (r: Option<(&'static str, String)>)
        ensures
            r matches Some(h) && (h.0@, h.1@) == self@.header(),
    {
        match self {
            Auth::ApiKey(key) => Some(("X-Hume-Api-Key", key.clone())),
            Auth::AccessToken(token) => Some(
                ("Authorization", concat("Bearer ", token.access_token.as_str())),
            ),
        }
    }

    /// Get the query parameter for WebSocket authentication
    pub fn query_param(&self) -> (r: (&'static str, String))
        ensures
            (r.0@, r.1@) == self@.query(),
    {
        match self {
            Auth::ApiKey(key) => ("api_key", key.clone()),
            Auth::AccessToken(token) => ("access_token", token.access_token.clone()),
        }
    }

    /// Whether the credential has expired at the time `now`.
    pub fn is_expired_at(&self, now: &Timestamp) -> (r: bool)
        ensures
            r == self@.expired_at(*now),
    {
        match self {
            Auth::ApiKey(_) => false,
            Auth::AccessToken(token) => token.is_expired_at(now),
        }
    }

    /// Check if the authentication is expired (only applicable for access
    /// tokens): a key never is, and a token is where it has expired at the
    /// instant that the clock gives. Of that instant nothing is known, so the
    /// result is what [`Auth::is_expired_at`] gives for some instant.
    pub fn is_expired(&self) -> (r: bool)
        ensures
            self@ is ApiKey ==> !r,
            exists|now: Timestamp| r == #[trigger] self@.expired_at(now),
    {
        match self {
            Auth::ApiKey(_) => {
                assert(!self@.expired_at(Timestamp { secs: 0, nanos: 0 }));
                false
            },
            Auth::AccessToken(token) => {
                let r = token.is_expired();
                proof {
                    let now = choose|now: Timestamp| r == #[trigger] token@.expired_at(now);
                    assert(r == self@.expired_at(now));
                }
                r
            },
        }
    }
}

impl Clone for AuthToken {
    fn clone(&self) -> (r: Self)
        ensures
            r@ == self@,
    {
        AuthToken {
            access_token: self.access_token.clone(),
            token_type: self.token_type.clone(),
            expires_in: self.expires_in,
            created_at: self.created_at,
        }
    }
}

impl Clone for Auth {
    fn clone(&self) -> (r: Self)
        ensures
            r@ == self@,
    {
        match self {
            Auth::ApiKey(key) => Auth::ApiKey(key.clone()),
            Auth::AccessToken(token) => Auth::AccessToken(token.clone()),
        }
    }
}

/// The view of an optional credential.
pub open spec fn opt_auth(o: Option<Auth>) -> Option<AuthView> {
    match o {
        Some(a) => Some(a@),
        None => None,
    }
}

/// A credential never counts as expired before the point
/// `issued_at + ttl`, and always from that point on; a static key never expires.
pub proof fn lemma_expiry(auth: AuthView, now: Timestamp)
    ensures
        auth matches AuthView::AccessToken(t) ==> (auth.expired_at(now) <==> now.total_nanos()
            >= t.created_at.total_nanos() + t.expires_in * 1_000_000_000),
        auth is ApiKey ==> !auth.expired_at(now),
{
}

/// Request to get an access token
#[derive(Debug)]
pub struct AccessTokenRequest {
    /// API key
    pub api_key: String,
    /// Secret key
    pub secret_key: String,
}

/// Response from access token endpoint
#[derive(Debug)]
pub struct AccessTokenResponse {
    /// The access token
    pub access_token: String,
    /// Token type
    pub token_type: String,
    /// Expiration time in seconds
    pub expires_in: u64,
}

impl From<AccessTokenResponse> for AuthToken {
    fn from(response: AccessTokenResponse) -> (r: AuthToken) {
        AuthToken::new(response.access_token, response.token_type, response.expires_in)
    }
}

impl vstd::std_specs::convert::FromSpecImpl<AccessTokenResponse> for AuthToken {
    open spec fn obeys_from_spec() -> bool {
        false
    }

    open spec fn from_spec(response: AccessTokenResponse) -> AuthToken {
        AuthToken {
            access_token: response.access_token,
            token_type: response.token_type,
            expires_in: response.expires_in,
            created_at: Timestamp { secs: 0, nanos: 0 },
        }
    }
}

} // verus!

verus! {

/// The mathematical value of an [`AccessTokenResponse`].
pub ghost struct AccessTokenResponseView {
    pub access_token: Seq<char>,
    pub token_type: Seq<char>,
    pub expires_in: u64,
}

impl View for AccessTokenResponse {
    type V = AccessTokenResponseView;

    open spec fn view(&self) -> AccessTokenResponseView {
        AccessTokenResponseView {
            access_token: self.access_token@,
            token_type: self.token_type@,
            expires_in: self.expires_in,
        }
    }
}

/// The JSON form of a request for an access token: an object with the two keys.
pub open spec fn encode_token_request(api_key: Seq<char>, secret_key: Seq<char>) -> Json {
    Json::Object(
        Map::<Seq<char>, Json>::empty().insert("api_key"@, Json::String(api_key)).insert(
            "secret_key"@,
            Json::String(secret_key),
        ),
    )
}

/// The answer to a request for an access token that a document stands for;
/// `None` where it lacks an `access_token` or a `token_type` that is a string,
/// or an `expires_in` that is a whole number from 0 to `u64::MAX`.
pub open spec fn decode_token_response(j: Json) -> Option<AccessTokenResponseView> {
    match (
        required_string(j, "access_token"@),
        required_string(j, "token_type"@),
        required_u64(j, "expires_in"@),
    ) {
        (Some(access_token), Some(token_type), Some(expires_in)) => Some(
            AccessTokenResponseView { access_token, token_type, expires_in },
        ),
        _ => None,
    }
}

/// The answer to a request for an access token that a response body holds.
pub open spec fn body_token_response(body: Option<Seq<char>>) -> Option<AccessTokenResponseView> {
    match body {
        Some(b) => match json_parsed(b) {
            Some(j) => decode_token_response(j),
            None => None,
        },
        None => None,
    }
}

/// The view of an optional answer.
pub open spec fn opt_token_response(o: Option<AccessTokenResponse>) -> Option<
    AccessTokenResponseView,
> {
    match o {
        Some(r) => Some(r@),
        None => None,
    }
}

impl AccessTokenRequest {
    /// The JSON form of the request.
    pub fn to_json(&self) -> (v: serde_json::Value)
        ensures
            json_of(v) == encode_token_request(self.api_key@, self.secret_key@),
    {
        let mut v = value_object();
        object_insert(&mut v, "api_key", value_string(self.api_key.as_str()));
        object_insert(&mut v, "secret_key", value_string(self.secret_key.as_str()));
        v
    }
}

impl AccessTokenResponse {
    /// Reads an answer from its JSON form.
    pub fn from_json(v: &serde_json::Value) -> (r: Option<AccessTokenResponse>)
        ensures
            opt_token_response(r) == decode_token_response(json_of(*v)),
    {
        let access_token = read_string(v, "access_token");
        let token_type = read_string(v, "token_type");
        let expires_in = read_u64(v, "expires_in");
        match (access_token, token_type, expires_in) {
            (Some(access_token), Some(token_type), Some(expires_in)) => Some(
                AccessTokenResponse { access_token, token_type, expires_in },
            ),
            _ => None,
        }
    }

    /// Reads the answer that a response body holds.
    pub fn from_body(body: &Option<String>) -> (r: Option<AccessTokenResponse>)
        ensures
            opt_token_response(r) == body_token_response(opt_str(*body)),
    {
        match body {
            Some(b) => match from_text(b.as_str()) {
                Ok(v) => AccessTokenResponse::from_json(&v),
                Err(_) => None,
            },
            None => None,
        }
    }
}

/// The address of the token endpoint: the base URL followed by its path.
pub fn access_token_url(base_url: &str) -> (url: String)
    ensures
        url@ == base_url@ + "/oauth2-cc/token"@,
{
    concat(base_url, "/oauth2-cc/token")
}

/// The request for an access token from an API key and a secret key.
pub fn access_token_request(api_key: &str, secret_key: &str) -> (r: AccessTokenRequest)
    ensures
        r.api_key@ == api_key@,
        r.secret_key@ == secret_key@,
{
    AccessTokenRequest {
        api_key: String::from_str(api_key),
        secret_key: String::from_str(secret_key),
    }
}

/// The token that the token endpoint answered with, issued now.
///
/// A status from 200 to 299 with a body that holds an answer gives the token;
/// with any other body it gives a JSON error. Any other status gives an API
/// error with the status, the message `Failed to generate access token` and the
/// body.
pub fn access_token_from_response(status: u16, body: Option<String>) -> (r: Result<
    AuthToken,
    Error,
>)
    ensures
        match r {
            Ok(token) => {
                let a = body_token_response(opt_str(body));
                &&& 200 <= status <= 299
                &&& a is Some
                &&& token@.access_token == a->0.access_token
                &&& token@.token_type == a->0.token_type
                &&& token@.expires_in == a->0.expires_in
            },
            Err(e) => if 200 <= status <= 299 {
                body_token_response(opt_str(body)) is None && e@ is Json
            } else {
                e@ == (ErrorView::Api {
                    status,
                    message: "Failed to generate access token"@,
                    code: None,
                    body: opt_str(body),
                })
            },
        },
{
    if 200 <= status && status <= 299 {
        match AccessTokenResponse::from_body(&body) {
            Some(a) => Ok(AuthToken::new(a.access_token, a.token_type, a.expires_in)),
            None => Err(Error::Json(json_error("body holds no access token"))),
        }
    } else {
        Err(Error::api(status, String::from_str("Failed to generate access token"), None, body))
    }
}

} // verus!
