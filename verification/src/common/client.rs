//! The main client: where the service lives and how to authenticate.

use vstd::prelude::*;
use std::time::Duration;
use crate::common::auth::{opt_auth, Auth, AuthToken, AuthTokenView, AuthView};
use crate::common::error::{Error, ErrorView};
use crate::common::http::{HttpClient, HttpClientBuilder};
use crate::common::text::opt_str;
use crate::common::time::duration_nanos;

verus! {

/// The main client for interacting with Hume APIs
#[derive(Debug)]
pub struct HumeClient {
    /// The configuration of the request engine.
    pub http: HttpClient,
    /// Where the service lives.
    pub base_url: String,
}

/// Builder for creating Hume clients
#[derive(Debug)]
pub struct HumeClientBuilder {
    api_key: Option<String>,
    access_token: Option<AuthToken>,
    base_url: Option<String>,
    timeout: Option<Duration>,
    max_retries: Option<u32>,
}

/// The mathematical value of a [`HumeClientBuilder`].
pub ghost struct HumeClientBuilderView {
    pub api_key: Option<Seq<char>>,
    pub access_token: Option<AuthTokenView>,
    pub base_url: Option<Seq<char>>,
    pub timeout: Option<Duration>,
    pub max_retries: Option<u32>,
}

impl View for HumeClientBuilder {
    type V = HumeClientBuilderView;

    closed spec fn view(&self) -> HumeClientBuilderView {
        HumeClientBuilderView {
            api_key: opt_str(self.api_key),
            access_token: match self.access_token {
                Some(t) => Some(t@),
                None => None,
            },
            base_url: opt_str(self.base_url),
            timeout: self.timeout,
            max_retries: self.max_retries,
        }
    }
}

impl HumeClientBuilderView {
    /// The credential that the builder gives the client: the access token where
    /// one is set, else the API key; none where neither is set.
    pub open spec fn auth(self) -> Option<AuthView> {
        match self.access_token {
            Some(t) => Some(AuthView::AccessToken(t)),
            None => match self.api_key {
                Some(k) => Some(AuthView::ApiKey(k)),
                None => None,
            },
        }
    }

    /// The base URL that the builder gives the client: the default where none
    /// is set.
    pub open spec fn resolved_base_url(self) -> Seq<char> {
        match self.base_url {
            Some(u) => u,
            None => crate::DEFAULT_BASE_URL@,
        }
    }
}

impl Default for HumeClientBuilder {
    fn default() -> (r: Self)
        ensures
            r@ == (HumeClientBuilderView {
                api_key: None,
                access_token: None,
                base_url: None,
                timeout: None,
                max_retries: None,
            }),
    {
        HumeClientBuilder {
            api_key: None,
            access_token: None,
            base_url: None,
            timeout: None,
            max_retries: None,
        }
    }
}

impl HumeClientBuilder {
    /// Create a new builder with an API key
    pub fn new(api_key: &str) -> (r: Self)
        ensures
            r@ == (HumeClientBuilderView {
                api_key: Some(api_key@),
                access_token: None,
                base_url: None,
                timeout: None,
                max_retries: None,
            }),
    {
        HumeClientBuilder {
            api_key: Some(String::from_str(api_key)),
            access_token: None,
            base_url: None,
            timeout: None,
            max_retries: None,
        }
    }

    /// Set the API key
    pub fn api_key(self, api_key: &str) -> (r: Self)
        ensures
            r@ == (HumeClientBuilderView {
                api_key: Some(api_key@),
                access_token: None,
                ..self@
            }),
    {
        let mut r = self;
        r.api_key = Some(String::from_str(api_key));
        r.access_token = None;
        r
    }

    /// Set the API key (alias for consistency with documentation)
    pub fn with_api_key(self, api_key: &str) -> (r: Self)
        ensures
            r@ == (HumeClientBuilderView {
                api_key: Some(api_key@),
                access_token: None,
                ..self@
            }),
    {
        self.api_key(api_key)
    }

    /// Set the access token
    pub fn access_token(self, token: AuthToken) -> (r: Self)
        ensures
            r@ == (HumeClientBuilderView {
                access_token: Some(token@),
                api_key: None,
                ..self@
            }),
    {
        let mut r = self;
        r.access_token = Some(token);
        r.api_key = None;
        r
    }

    /// Set the access token (alias for consistency with documentation): a
    /// bearer token issued now that lasts one hour
    pub fn with_access_token(self, token: &str) -> (r: Self)
        ensures
            r@.api_key is None,
            r@.access_token matches Some(t) && t.access_token == token@ && t.token_type
                == "Bearer"@ && t.expires_in == 3600,
            r@.base_url == self@.base_url,
            r@.timeout == self@.timeout,
            r@.max_retries == self@.max_retries,
    {
        let auth_token = AuthToken::new(String::from_str(token), String::from_str("Bearer"), 3600);
        self.access_token(auth_token)
    }

    /// Set the base URL (defaults to https://api.hume.ai)
    pub fn base_url(self, base_url: &str) -> (r: Self)
        ensures
            r@ == (HumeClientBuilderView { base_url: Some(base_url@), ..self@ }),
    {
        let mut r = self;
        r.base_url = Some(String::from_str(base_url));
        r
    }

    /// Set the base URL (alias for consistency with documentation)
    pub fn with_base_url(self, base_url: &str) -> (r: Self)
        ensures
            r@ == (HumeClientBuilderView { base_url: Some(base_url@), ..self@ }),
    {
        self.base_url(base_url)
    }

    /// Set the default request timeout
    pub fn timeout(self, timeout: Duration) -> (r: Self)
        ensures
            r@ == (HumeClientBuilderView { timeout: Some(timeout), ..self@ }),
    {
        let mut r = self;
        r.timeout = Some(timeout);
        r
    }

    /// Set the maximum number of retries for failed requests
    pub fn max_retries(self, max_retries: u32) -> (r: Self)
        ensures
            r@ == (HumeClientBuilderView { max_retries: Some(max_retries), ..self@ }),
    {
        let mut r = self;
        r.max_retries = Some(max_retries);
        r
    }

    /// Build the client. Fails with a configuration error exactly where neither
    /// an API key nor an access token is set.
    pub fn build(self) -> (r: Result<HumeClient, Error>)
        ensures
            match r {
                Ok(c) => {
                    &&& self@.auth() is Some
                    &&& opt_auth(c.http.auth) == self@.auth()
                    &&& c.base_url@ == self@.resolved_base_url()
                    &&& c.http.base_url@ == self@.resolved_base_url()
                    &&& match self@.timeout {
                        Some(t) => c.http.default_timeout == t,
                        None => duration_nanos(c.http.default_timeout) == 30 * 1_000_000_000,
                    }
                    &&& c.http.max_retries == (match self@.max_retries {
                        Some(n) => n,
                        None => 3,
                    })
                },
                Err(e) => self@.auth() is None && e@ == ErrorView::Config(
                    "Either api_key or access_token must be provided"@,
                ),
            },
    {
        let base_url = match self.base_url {
            Some(u) => u,
            None => String::from_str(crate::DEFAULT_BASE_URL),
        };
        let auth = match self.access_token {
            Some(token) => Auth::access_token(token),
            None => match self.api_key {
                Some(api_key) => Auth::ApiKey(api_key),
                None => {
                    return Err(Error::config("Either api_key or access_token must be provided"));
                },
            },
        };
        let mut http_builder = HttpClientBuilder::new(base_url.as_str());
        http_builder = http_builder.auth(auth);
        match self.timeout {
            Some(t) => {
                http_builder = http_builder.timeout(t);
            },
            None => {},
        }
        match self.max_retries {
            Some(n) => {
                http_builder = http_builder.max_retries(n);
            },
            None => {},
        }
        match http_builder.build() {
            Ok(http) => Ok(HumeClient { http, base_url }),
            Err(e) => Err(e),
        }
    }
}

impl HumeClient {
    /// Create a new client with an API key
    pub fn new(api_key: &str) -> (r: Result<Self, Error>)
        ensures
            r matches Ok(c) && opt_auth(c.http.auth) == Some(AuthView::ApiKey(api_key@))
                && c.base_url@ == crate::DEFAULT_BASE_URL@ && c.http.max_retries == 3,
    {
        HumeClientBuilder::new(api_key).build()
    }

    /// Create a new client builder
    pub fn builder() -> (r: HumeClientBuilder)
        ensures
            r@ == (HumeClientBuilderView {
                api_key: None,
                access_token: None,
                base_url: None,
                timeout: None,
                max_retries: None,
            }),
    {
        HumeClientBuilder::default()
    }

    /// Get the base URL
    pub fn base_url(&self) -> (r: &str)
        ensures
            r@ == self.base_url@,
    {
        self.base_url.as_str()
    }

    /// Get a reference to the HTTP client
    pub fn http(&self) -> (r: &HttpClient)
        ensures
            *r == self.http,
    {
        &self.http
    }

    /// Get the authentication method
    pub fn auth(&self) -> (r: Option<&Auth>)
        ensures
            match r {
                Some(a) => self.http.auth == Some(*a),
                None => self.http.auth is None,
            },
    {
        self.http.auth.as_ref()
    }
}

} // verus!
