//! The unary request engine: what a request carries, how an attempt's outcome is
//! classified, and what follows each attempt.

use vstd::prelude::*;
use std::time::Duration;
use crate::common::auth::Auth;
use crate::common::collections::pairs_view;
use crate::common::error::{ApiErrorDetails, Error, ErrorView, FieldError, HttpFailure};
use crate::common::json::{
    from_text, json_of, json_parsed, jsons_of, optional_string, optional_value,
    read_optional_string, read_optional_value, read_string, required_string, value_as_array,
    Json,
};
use crate::common::request::RequestOptions;
use crate::common::retry::{delay_after, is_retryable, is_retryable_error, RetryConfig};
use crate::common::text::{concat, decimal, decimal_string, opt_str, parse_u64, parsed_u64};
use crate::common::time::duration_nanos;

verus! {

/// The verb of a request.
#[derive(Debug, Clone, Copy, PartialEq, Eq, Structural)]
pub enum Method {
    /// GET
    Get,
    /// POST
    Post,
    /// PUT
    Put,
    /// PATCH
    Patch,
    /// DELETE
    Delete,
}

/// HTTP client configuration with retry logic and error handling
#[derive(Debug, Clone)]
pub struct HttpClient {
    /// Where the service lives.
    pub base_url: String,
    /// The credential, if one is configured.
    pub auth: Option<Auth>,
    /// The timeout of a request that sets none.
    pub default_timeout: Duration,
    /// The number of retries of a request that sets none.
    pub max_retries: u32,
}

/// A request as it goes on the wire.
#[derive(Debug)]
pub struct PreparedRequest {
    /// The verb.
    pub method: Method,
    /// The address: base URL and path.
    pub url: String,
    /// The headers, in the order in which they are set; the credential first.
    pub headers: Vec<(String, String)>,
    /// The query parameters, in order.
    pub query: Vec<(String, String)>,
    /// The JSON body, if the request has one.
    pub body: Option<serde_json::Value>,
    /// How long the exchange may take.
    pub timeout: Duration,
    /// How many retries may follow a transient failure.
    pub max_retries: u32,
}

/// The header that carries a credential: none where there is no credential.
pub open spec fn auth_headers(auth: Option<Auth>) -> Seq<(Seq<char>, Seq<char>)> {
    match auth {
        Some(a) => seq![a@.header()],
        None => Seq::empty(),
    }
}

impl HttpClient {
    /// Create a new HTTP client
    pub fn new(base_url: String, auth: Option<Auth>) -> (r: Result<Self, Error>)
        ensures
            r matches Ok(c) && c.base_url == base_url && c.auth == auth && duration_nanos(
                c.default_timeout,
            ) == 30 * 1_000_000_000 && c.max_retries == 3,
    {
        Ok(
            HttpClient {
                base_url,
                auth,
                default_timeout: Duration::from_secs(30),
                max_retries: 3,
            },
        )
    }

    /// Set the authentication method
    pub fn set_auth(&mut self, auth: Auth)
        ensures
            *final(self) == (HttpClient { auth: Some(auth), ..*old(self) }),
    {
        self.auth = Some(auth);
    }

    /// Set the default timeout
    pub fn set_default_timeout(&mut self, timeout: Duration)
        ensures
            *final(self) == (HttpClient { default_timeout: timeout, ..*old(self) }),
    {
        self.default_timeout = timeout;
    }

    /// Set the maximum number of retries
    pub fn set_max_retries(&mut self, max_retries: u32)
        ensures
            *final(self) == (HttpClient { max_retries, ..*old(self) }),
    {
        self.max_retries = max_retries;
    }

    /// The address of a path: the base URL followed by the path.
    pub fn url_for(&self, path: &str) -> (url: String)
        ensures
            url@ == self.base_url@ + path@,
    {
        concat(self.base_url.as_str(), path)
    }

    /// Makes the request that goes on the wire: the credential's header before
    /// the caller's headers, the caller's query parameters, the body, and the
    /// caller's timeout and retry count where given, else those of the client.
    pub fn prepare(
        &self,
        method: Method,
        path: &str,
        body: Option<serde_json::Value>,
        options: Option<RequestOptions>,
    ) -> (r: PreparedRequest)
        ensures
            r.method == method,
            r.url@ == self.base_url@ + path@,
            r.body == body,
            pairs_view(r.headers@) == auth_headers(self.auth) + (match options {
                Some(o) => o.headers.pairs(),
                None => Seq::empty(),
            }),
            pairs_view(r.query@) == (match options {
                Some(o) => o.query.pairs(),
                None => Seq::empty(),
            }),
            r.timeout == (match options {
                Some(o) => match o.timeout {
                    Some(t) => t,
                    None => self.default_timeout,
                },
                None => self.default_timeout,
            }),
            r.max_retries == (match options {
                Some(o) => match o.max_retries {
                    Some(n) => n,
                    None => self.max_retries,
                },
                None => self.max_retries,
            }),
    {
        let url = self.url_for(path);
        let mut headers: Vec<(String, String)> = Vec::new();
        match &self.auth {
            Some(auth) => match auth.header_value() {
                Some(h) => {
                    headers.push((String::from_str(h.0), h.1));
                    assert(pairs_view(headers@) =~= auth_headers(self.auth));
                },
                None => {},
            },
            None => {
                assert(pairs_view(headers@) =~= auth_headers(self.auth));
            },
        }
        match options {
            Some(o) => {
                let custom = o.headers.to_vec();
                let query = o.query.to_vec();
                let ghost before = headers@;
                let mut custom = custom;
                headers.append(&mut custom);
                assert(pairs_view(headers@) =~= pairs_view(before) + o.headers.pairs());
                let timeout = match o.timeout {
                    Some(t) => t,
                    None => self.default_timeout,
                };
                let max_retries = match o.max_retries {
                    Some(n) => n,
                    None => self.max_retries,
                };
                PreparedRequest { method, url, headers, query, body, timeout, max_retries }
            },
            None => {
                let query: Vec<(String, String)> = Vec::new();
                assert(pairs_view(query@) =~= Seq::empty());
                assert(pairs_view(headers@) + Seq::empty() =~= pairs_view(headers@));
                PreparedRequest {
                    method,
                    url,
                    headers,
                    query,
                    body,
                    timeout: self.default_timeout,
                    max_retries: self.max_retries,
                }
            },
        }
    }

    /// Check if a status code should trigger a retry
    pub fn should_retry_status(&self, status: u16) -> (r: bool)
        ensures
            r == crate::common::retry::is_retryable_status(status),
    {
        crate::common::retry::status_is_retryable(status)
    }

    /// Check if a failed exchange should trigger a retry
    pub fn should_retry(&self, failure: &HttpFailure) -> (r: bool)
        ensures
            r == (failure.connect || failure.timeout),
    {
        failure.connect || failure.timeout
    }
}

/// The mathematical value of a [`FieldError`].
pub ghost struct FieldErrorView {
    pub field: Seq<char>,
    pub message: Seq<char>,
    pub code: Option<Seq<char>>,
}

impl View for FieldError {
    type V = FieldErrorView;

    open spec fn view(&self) -> FieldErrorView {
        FieldErrorView { field: self.field@, message: self.message@, code: opt_str(self.code) }
    }
}

/// The value of each field error.
pub open spec fn field_errors_view(v: Seq<FieldError>) -> Seq<FieldErrorView> {
    v.map_values(|e: FieldError| e@)
}

/// The mathematical value of [`ApiErrorDetails`].
pub ghost struct ApiErrorDetailsView {
    pub message: Seq<char>,
    pub code: Option<Seq<char>>,
    pub errors: Option<Seq<FieldErrorView>>,
}

impl View for ApiErrorDetails {
    type V = ApiErrorDetailsView;

    open spec fn view(&self) -> ApiErrorDetailsView {
        ApiErrorDetailsView {
            message: self.message@,
            code: opt_str(self.code),
            errors: match self.errors {
                Some(e) => Some(field_errors_view(e@)),
                None => None,
            },
        }
    }
}

/// The field error that a document stands for; `None` where it lacks a `field`
/// or a `message` that is a string, or has a `code` that is neither a string
/// nor `null`.
pub open spec fn decode_field_error(j: Json) -> Option<FieldErrorView> {
    match (required_string(j, "field"@), required_string(j, "message"@), optional_string(j, "code"@)) {
        (Some(field), Some(message), Some(code)) => Some(FieldErrorView { field, message, code }),
        _ => None,
    }
}

/// The field errors that a document stands for; `None` where it is no array or
/// one of its items stands for no field error.
pub open spec fn decode_field_errors(j: Json) -> Option<Seq<FieldErrorView>> {
    match j {
        Json::Array(items) => if forall|i: int|
            0 <= i < items.len() ==> decode_field_error(#[trigger] items[i]) is Some {
            Some(items.map_values(|v: Json| decode_field_error(v)->0))
        } else {
            None
        },
        _ => None,
    }
}

/// The error envelope that a document stands for: an object with a `message`,
/// and with a `code` and a list of `errors` where given; `None` for any other
/// document.
pub open spec fn decode_error_details(j: Json) -> Option<ApiErrorDetailsView> {
    match (required_string(j, "message"@), optional_string(j, "code"@)) {
        (Some(message), Some(code)) => match optional_value(j, "errors"@) {
            None => Some(ApiErrorDetailsView { message, code, errors: None }),
            Some(x) => match decode_field_errors(x) {
                Some(errors) => Some(ApiErrorDetailsView { message, code, errors: Some(errors) }),
                None => None,
            },
        },
        _ => None,
    }
}

/// The error envelope that a response body holds; `None` where the body is not
/// JSON or its document stands for no envelope.
pub open spec fn body_error_details(body: Seq<char>) -> Option<ApiErrorDetailsView> {
    match json_parsed(body) {
        Some(j) => decode_error_details(j),
        None => None,
    }
}

/// The view of an optional field error.
pub open spec fn opt_field_error(o: Option<FieldError>) -> Option<FieldErrorView> {
    match o {
        Some(e) => Some(e@),
        None => None,
    }
}

/// The view of an optional list of field errors.
pub open spec fn opt_field_errors(o: Option<Vec<FieldError>>) -> Option<Seq<FieldErrorView>> {
    match o {
        Some(e) => Some(field_errors_view(e@)),
        None => None,
    }
}

/// The view of an optional error envelope.
pub open spec fn opt_details(o: Option<ApiErrorDetails>) -> Option<ApiErrorDetailsView> {
    match o {
        Some(d) => Some(d@),
        None => None,
    }
}

impl FieldError {
    /// Reads a field error from its JSON form.
    pub fn from_json(v: &serde_json::Value) -> (r: Option<FieldError>)
        ensures
            opt_field_error(r) == decode_field_error(json_of(*v)),
    {
        let field = read_string(v, "field");
        let message = read_string(v, "message");
        let code = read_optional_string(v, "code");
        match (field, message, code) {
            (Some(field), Some(message), Some(code)) => Some(FieldError { field, message, code }),
            _ => None,
        }
    }
}

fn field_errors_from_json(v: &serde_json::Value) -> (r: Option<Vec<FieldError>>)
    ensures
        opt_field_errors(r) == decode_field_errors(json_of(*v)),
{
    match value_as_array(v) {
        None => None,
        Some(items) => {
            let ghost js = jsons_of(items@);
            let mut out: Vec<FieldError> = Vec::new();
            let mut i: usize = 0;
            while i < items.len()
                invariant
                    i <= items.len(),
                    js == jsons_of(items@),
                    json_of(*v) == Json::Array(js),
                    out.len() == i,
                    forall|j: int|
                        0 <= j < i ==> decode_field_error(#[trigger] js[j]) == Some(out[j]@),
                decreases items.len() - i,
            {
                assert(js[i as int] == json_of(items[i as int]));
                match FieldError::from_json(&items[i]) {
                    Some(e) => {
                        out.push(e);
                    },
                    None => {
                        assert(decode_field_error(js[i as int]) is None);
                        return None;
                    },
                }
                i += 1;
            }
            assert(field_errors_view(out@) =~= js.map_values(
                |v: Json| decode_field_error(v)->0,
            ));
            Some(out)
        },
    }
}

impl ApiErrorDetails {
    /// Reads an error envelope from its JSON form.
    pub fn from_json(v: &serde_json::Value) -> (r: Option<ApiErrorDetails>)
        ensures
            opt_details(r) == decode_error_details(json_of(*v)),
    {
        let message = read_string(v, "message");
        let code = read_optional_string(v, "code");
        match (message, code) {
            (Some(message), Some(code)) => match read_optional_value(v, "errors") {
                None => Some(ApiErrorDetails { message, code, errors: None }),
                Some(x) => match field_errors_from_json(&x) {
                    Some(errors) => Some(ApiErrorDetails { message, code, errors: Some(errors) }),
                    None => None,
                },
            },
            _ => None,
        }
    }

    /// Reads the error envelope that a response body holds.
    pub fn from_body(body: &str) -> (r: Option<ApiErrorDetails>)
        ensures
            opt_details(r) == body_error_details(body@),
    {
        match from_text(body) {
            Ok(v) => ApiErrorDetails::from_json(&v),
            Err(_) => None,
        }
    }
}

/// The seconds that a `retry-after` header asks to wait: none without the
/// header or where its value is no number.
pub open spec fn retry_after_of(header: Option<Seq<char>>) -> Option<u64> {
    match header {
        Some(h) => parsed_u64(h),
        None => None,
    }
}

/// The error that an answer with a status outside 200 to 299 stands for: a rate
/// limit for 429, with the seconds of its `retry-after` header; else an API
/// error with the message and code of the envelope in its body, or with the
/// message `HTTP <status> error` where the body holds no envelope.
pub open spec fn error_of_response(
    status: u16,
    retry_after: Option<Seq<char>>,
    body: Option<Seq<char>>,
) -> ErrorView {
    if status == 429 {
        ErrorView::RateLimit { retry_after: retry_after_of(retry_after) }
    } else {
        let details = match body {
            Some(b) => body_error_details(b),
            None => None,
        };
        match details {
            Some(d) => ErrorView::Api { status, message: d.message, code: d.code, body },
            None => ErrorView::Api {
                status,
                message: "HTTP "@ + decimal(status as nat) + " error"@,
                code: None,
                body,
            },
        }
    }
}

/// Handle error responses
pub fn handle_error_response(status: u16, retry_after: Option<&str>, body: Option<String>) -> (e:
    Error)
    ensures
        e@ == error_of_response(
            status,
            match retry_after {
                Some(h) => Some(h@),
                None => None,
            },
            opt_str(body),
        ),
{
    if status == 429 {
        let retry_after = match retry_after {
            Some(h) => parse_u64(h),
            None => None,
        };
        return Error::RateLimit { retry_after };
    }
    let details = match &body {
        Some(b) => ApiErrorDetails::from_body(b.as_str()),
        None => None,
    };
    match details {
        Some(d) => Error::Api { status, message: d.message, code: d.code, body },
        None => {
            let digits = decimal_string(status as u64);
            let mut message = concat("HTTP ", digits.as_str());
            message.append(" error");
            Error::Api { status, message, code: None, body }
        },
    }
}

impl HttpClient {
    /// Handle error responses: the error that an answer with a status outside
    /// 200 to 299 stands for
    pub fn handle_error_response(
        &self,
        status: u16,
        retry_after: Option<&str>,
        body: Option<String>,
    ) -> (e: Error)
        ensures
            e@ == error_of_response(
                status,
                match retry_after {
                    Some(h) => Some(h@),
                    None => None,
                },
                opt_str(body),
            ),
    {
        handle_error_response(status, retry_after, body)
    }
}

/// What the server answered.
#[derive(Debug, Clone)]
pub struct HttpResponse {
    /// The status code.
    pub status: u16,
    /// The value of the `retry-after` header, if the answer has one.
    pub retry_after: Option<String>,
    /// The body as text, if it could be read.
    pub body: Option<String>,
}

/// The mathematical value of an [`HttpResponse`].
pub ghost struct HttpResponseView {
    pub status: u16,
    pub retry_after: Option<Seq<char>>,
    pub body: Option<Seq<char>>,
}

impl View for HttpResponse {
    type V = HttpResponseView;

    open spec fn view(&self) -> HttpResponseView {
        HttpResponseView {
            status: self.status,
            retry_after: opt_str(self.retry_after),
            body: opt_str(self.body),
        }
    }
}

/// What one attempt gave: an answer, or a failure before any answer.
#[derive(Debug)]
pub enum Outcome {
    /// The server answered.
    Response(HttpResponse),
    /// The exchange failed.
    Failure(HttpFailure),
}

/// The mathematical value of an [`Outcome`].
pub ghost enum OutcomeView {
    Response(HttpResponseView),
    Failure(crate::common::error::HttpFailureView),
}

impl View for Outcome {
    type V = OutcomeView;

    open spec fn view(&self) -> OutcomeView {
        match self {
            Outcome::Response(r) => OutcomeView::Response(r@),
            Outcome::Failure(f) => OutcomeView::Failure(f@),
        }
    }
}

/// Whether a status code tells of success: 200 to 299.
pub open spec fn is_success_status(status: u16) -> bool {
    200 <= status <= 299
}

/// The error that an outcome stands for; `None` for an answer that tells of
/// success. A failure that ran out of time is a timeout.
pub open spec fn outcome_error(o: OutcomeView) -> Option<ErrorView> {
    match o {
        OutcomeView::Response(r) => if is_success_status(r.status) {
            None
        } else {
            Some(error_of_response(r.status, r.retry_after, r.body))
        },
        OutcomeView::Failure(f) => if f.timeout {
            Some(ErrorView::Timeout)
        } else {
            Some(ErrorView::Http(f))
        },
    }
}

/// How an outcome is classed.
#[derive(Debug)]
pub enum Classified {
    /// The server answered with success.
    Success(HttpResponse),
    /// A failure that another attempt may not meet.
    Transient(Error),
    /// A failure that another attempt would meet again.
    Permanent(Error),
}

/// Classifies the outcome of an attempt: success, or the error it stands for as
/// transient (a failure of the connection, a timeout, a status of 429 or from
/// 500 to 599) or permanent (anything else).
pub fn classify_outcome(outcome: Outcome) -> (c: Classified)
    ensures
        match c {
            Classified::Success(r) => outcome_error(outcome@) is None && outcome@
                == OutcomeView::Response(r@),
            Classified::Transient(e) => outcome_error(outcome@) == Some(e@) && is_retryable(e@),
            Classified::Permanent(e) => outcome_error(outcome@) == Some(e@) && !is_retryable(e@),
        },
{
    let error = match outcome {
        Outcome::Response(r) => {
            if 200 <= r.status && r.status <= 299 {
                return Classified::Success(r);
            }
            let header = match &r.retry_after {
                Some(h) => Some(h.as_str()),
                None => None,
            };
            handle_error_response(r.status, header, r.body)
        },
        Outcome::Failure(f) => {
            if f.timeout {
                Error::Timeout
            } else {
                Error::Http(f)
            }
        },
    };
    if is_retryable_error(&error) {
        Classified::Transient(error)
    } else {
        Classified::Permanent(error)
    }
}

/// The limits within which one request is sent again.
#[derive(Debug, Clone)]
pub struct RetryPolicy {
    /// How many retries may follow the first attempt.
    pub max_retries: u32,
    /// The time from the first attempt after which no retry starts.
    pub max_elapsed: Duration,
    /// The delays between attempts.
    pub backoff: RetryConfig,
}

/// The state of one request while it is sent and sent again.
#[derive(Debug)]
pub struct RetryState {
    /// The retries made so far.
    pub attempts: u32,
    /// The time since the first attempt, as last reported.
    pub elapsed: Duration,
    /// The error of the last failed attempt.
    pub last_error: Option<Error>,
}

/// What follows an attempt.
#[derive(Debug)]
pub enum Step {
    /// Hand the answer to the caller.
    Deliver(HttpResponse),
    /// Wait for `delay`, then send the request again.
    Retry {
        /// How long to wait.
        delay: Duration,
    },
    /// Return the error to the caller.
    Fail {
        /// The error of the last attempt.
        error: Error,
        /// How many attempts were made.
        attempts: u64,
    },
}

/// Whether another attempt follows a transient failure: fewer retries were made
/// than the policy allows, and less time has passed than it allows.
pub open spec fn within_bounds(policy: RetryPolicy, attempts: u32, elapsed: Duration) -> bool {
    attempts < policy.max_retries && duration_nanos(elapsed) < duration_nanos(policy.max_elapsed)
}

impl RetryPolicy {
    /// The policy of a client for a request: the retry count of the request,
    /// one minute of elapsed time, and backoff from half a second up to one
    /// minute, growing by half each time.
    pub fn for_request(request: &PreparedRequest) -> (p: Self)
        ensures
            p.max_retries == request.max_retries,
            duration_nanos(p.max_elapsed) == 60 * 1_000_000_000,
            duration_nanos(p.backoff.initial_backoff) == 500_000_000,
            duration_nanos(p.backoff.max_backoff) == 60 * 1_000_000_000,
            p.backoff.backoff_multiplier.per_mille == 1500,
            p.backoff.max_retries == request.max_retries,
    {
        RetryPolicy {
            max_retries: request.max_retries,
            max_elapsed: Duration::from_secs(60),
            backoff: RetryConfig {
                max_retries: request.max_retries,
                initial_backoff: Duration::from_millis(500),
                max_backoff: Duration::from_secs(60),
                backoff_multiplier: crate::common::retry::Multiplier { per_mille: 1500 },
            },
        }
    }
}

impl RetryState {
    /// The state before the first attempt.
    pub fn new() -> (s: Self)
        ensures
            s.attempts == 0,
            duration_nanos(s.elapsed) == 0,
            s.last_error is None,
    {
        RetryState { attempts: 0, elapsed: Duration::from_secs(0), last_error: None }
    }

    /// Decides what follows an attempt that ended with `outcome`, `elapsed`
    /// after the first attempt began. `sample` picks the jitter of a delay.
    ///
    /// Success is delivered. A permanent failure is returned at once. A
    /// transient failure is retried while the bounds of the policy hold, after
    /// the delay that the server asked for or else the jittered backoff of the
    /// attempt; once a bound is reached, the failure is returned with the
    /// number of attempts made.
    pub fn next_step(
        &mut self,
        policy: &RetryPolicy,
        outcome: Outcome,
        elapsed: Duration,
        sample: u32,
    ) -> (step: Step)
        ensures
            final(self).elapsed == elapsed,
            match step {
                Step::Deliver(r) => outcome@ == OutcomeView::Response(r@) && is_success_status(
                    r.status,
                ) && final(self).attempts == old(self).attempts && final(self).last_error == old(
                    self,
                ).last_error,
                Step::Retry { delay } => {
                    let e = outcome_error(outcome@);
                    &&& e is Some
                    &&& is_retryable(e->0)
                    &&& within_bounds(*policy, old(self).attempts, elapsed)
                    &&& final(self).attempts == old(self).attempts + 1
                    &&& duration_nanos(delay) == delay_after(
                        policy.backoff,
                        old(self).attempts,
                        e->0,
                        sample,
                    )
                    &&& final(self).last_error is Some
                    &&& final(self).last_error->0@ == e->0
                },
                Step::Fail { error, attempts } => outcome_error(outcome@) == Some(error@) && !(
                is_retryable(error@) && within_bounds(*policy, old(self).attempts, elapsed))
                    && attempts == old(self).attempts + 1 && final(self).attempts == old(
                    self,
                ).attempts && final(self).last_error == old(self).last_error,
            },
    {
        self.elapsed = elapsed;
        match classify_outcome(outcome) {
            Classified::Success(r) => Step::Deliver(r),
            Classified::Permanent(error) => Step::Fail {
                error,
                attempts: self.attempts as u64 + 1,
            },
            Classified::Transient(error) => {
                let in_time = crate::common::time::to_nanos(elapsed) < crate::common::time::to_nanos(
                    policy.max_elapsed,
                );
                if self.attempts < policy.max_retries && in_time {
                    let delay = match crate::common::retry::get_retry_after(&error) {
                        Some(d) => d,
                        None => policy.backoff.calculate_backoff(self.attempts, sample),
                    };
                    self.attempts = self.attempts + 1;
                    self.last_error = Some(error);
                    Step::Retry { delay }
                } else {
                    Step::Fail { error, attempts: self.attempts as u64 + 1 }
                }
            },
        }
    }
}

/// Builder for creating HTTP clients
#[derive(Debug)]
pub struct HttpClientBuilder {
    base_url: String,
    auth: Option<Auth>,
    timeout: Option<Duration>,
    max_retries: Option<u32>,
}

impl HttpClientBuilder {
    /// The base URL of the client to build.
    pub closed spec fn spec_base_url(&self) -> String {
        self.base_url
    }

    /// The credential of the client to build.
    pub closed spec fn spec_auth(&self) -> Option<Auth> {
        self.auth
    }

    /// The timeout of the client to build, if one is set.
    pub closed spec fn spec_timeout(&self) -> Option<Duration> {
        self.timeout
    }

    /// The retry count of the client to build, if one is set.
    pub closed spec fn spec_max_retries(&self) -> Option<u32> {
        self.max_retries
    }

    /// Create a new builder
    pub fn new(base_url: &str) -> (r: Self)
        ensures
            r.spec_base_url()@ == base_url@,
            r.spec_auth() is None,
            r.spec_timeout() is None,
            r.spec_max_retries() is None,
    {
        HttpClientBuilder {
            base_url: String::from_str(base_url),
            auth: None,
            timeout: None,
            max_retries: None,
        }
    }

    /// Set the authentication method
    pub fn auth(self, auth: Auth) -> (r: Self)
        ensures
            r.spec_base_url() == self.spec_base_url(),
            r.spec_auth() == Some(auth),
            r.spec_timeout() == self.spec_timeout(),
            r.spec_max_retries() == self.spec_max_retries(),
    {
        let mut r = self;
        r.auth = Some(auth);
        r
    }

    /// Set the default timeout
    pub fn timeout(self, timeout: Duration) -> (r: Self)
        ensures
            r.spec_base_url() == self.spec_base_url(),
            r.spec_auth() == self.spec_auth(),
            r.spec_timeout() == Some(timeout),
            r.spec_max_retries() == self.spec_max_retries(),
    {
        let mut r = self;
        r.timeout = Some(timeout);
        r
    }

    /// Set the maximum number of retries
    pub fn max_retries(self, max_retries: u32) -> (r: Self)
        ensures
            r.spec_base_url() == self.spec_base_url(),
            r.spec_auth() == self.spec_auth(),
            r.spec_timeout() == self.spec_timeout(),
            r.spec_max_retries() == Some(max_retries),
    {
        let mut r = self;
        r.max_retries = Some(max_retries);
        r
    }

    /// Build the HTTP client
    pub fn build(self) -> (r: Result<HttpClient, Error>)
        ensures
            r matches Ok(c) && c.base_url == self.spec_base_url() && c.auth == self.spec_auth()
                && (match self.spec_timeout() {
                Some(t) => c.default_timeout == t,
                None => duration_nanos(c.default_timeout) == 30 * 1_000_000_000,
            }) && c.max_retries == (match self.spec_max_retries() {
                Some(n) => n,
                None => 3,
            }),
    {
        let mut client = HttpClient {
            base_url: self.base_url,
            auth: self.auth,
            default_timeout: Duration::from_secs(30),
            max_retries: 3,
        };
        match self.timeout {
            Some(t) => {
                client.set_default_timeout(t);
            },
            None => {},
        }
        match self.max_retries {
            Some(n) => {
                client.set_max_retries(n);
            },
            None => {},
        }
        Ok(client)
    }
}

} // verus!
