//! HTTP client implementation for Databricks SQL API.

use vstd::prelude::*;
use vstd::string::*;
use std::sync::Arc;
use std::time::Duration;
use crate::auth::{AuthProvider, PersonalAccessToken};
use crate::error::Error;

verus! {

/// The length of a duration in whole milliseconds.
pub uninterp spec fn duration_millis(duration: Duration) -> nat;

/// `Duration::from_secs`: the duration of that many whole seconds.
pub assume_specification[ Duration::from_secs ](secs: u64) -> (duration: Duration)
    ensures
        duration_millis(duration) == secs * 1000,
;

/// `Duration::as_millis`: the whole milliseconds that the duration holds.
pub assume_specification[ Duration::as_millis ](duration: &Duration) -> (millis: u128)
    ensures
        millis == duration_millis(*duration),
;

/// The user agent that the client names itself with.
pub const USER_AGENT: &'static str = "databricks-adbc-rust/0.1.0";

/// Configuration for the HTTP client.
#[derive(Debug)]
pub struct HttpClientConfig {
    /// Request timeout duration.
    pub timeout: Duration,
    /// Maximum number of retry attempts.
    pub max_retries: u32,
    /// User agent string.
    pub user_agent: String,
}

/// The configuration of an HTTP client as mathematical data.
pub struct HttpClientConfigView {
    pub timeout_ms: nat,
    pub max_retries: u32,
    pub user_agent: Seq<char>,
}

impl View for HttpClientConfig {
    type V = HttpClientConfigView;

    open spec fn view(&self) -> HttpClientConfigView {
        HttpClientConfigView {
            timeout_ms: duration_millis(self.timeout),
            max_retries: self.max_retries,
            user_agent: self.user_agent@,
        }
    }
}

impl Default for HttpClientConfig {
    /// Thirty seconds of timeout, three retries, and the driver's own user
    /// agent.
    fn default() -> (config: Self)
        ensures
            config@ == (HttpClientConfigView {
                timeout_ms: 30_000,
                max_retries: 3,
                user_agent: USER_AGENT@,
            }),
    {
        HttpClientConfig {
            timeout: Duration::from_secs(30),
            max_retries: 3,
            user_agent: String::from_str(USER_AGENT),
        }
    }
}

impl HttpClientConfig {
    /// The timeout in milliseconds, or the largest `u64` where it is longer
    /// than that.
    pub fn timeout_ms(&self) -> (millis: u64)
        ensures
            millis == (if self@.timeout_ms <= u64::MAX {
                self@.timeout_ms
            } else {
                u64::MAX as nat
            }),
    {
        let millis = self.timeout.as_millis();
        if millis <= u64::MAX as u128 {
            millis as u64
        } else {
            u64::MAX
        }
    }
}

/// HTTP client for communicating with Databricks SQL endpoints.
///
/// `A` is the kind of authentication provider that the client asks for its
/// credentials; a client is made without one and gets one from
/// [`HttpClient::with_auth`].
pub struct HttpClient<A: AuthProvider = PersonalAccessToken> {
    config: HttpClientConfig,
    auth_provider: Option<Arc<A>>,
}

impl HttpClient<PersonalAccessToken> {
    /// Creates a new HTTP client with the given configuration.
    pub fn new(config: HttpClientConfig) -> (client: Self)
        ensures
            client.settings() == config,
            !client.has_auth(),
    {
        HttpClient { config, auth_provider: None }
    }
}

impl<A: AuthProvider> HttpClient<A> {
    /// The configuration of this client.
    pub closed spec fn settings(&self) -> HttpClientConfig {
        self.config
    }

    /// The authentication provider of this client, if it has one.
    pub closed spec fn provider(&self) -> Option<Arc<A>> {
        self.auth_provider
    }

    /// Whether this client has an authentication provider.
    pub open spec fn has_auth(&self) -> bool {
        self.provider() is Some
    }

    /// Sets the authentication provider.
    pub fn with_auth<B: AuthProvider>(self, auth_provider: Arc<B>) -> (client: HttpClient<B>)
        ensures
            client.settings() == self.settings(),
            client.provider() == Some(auth_provider),
    {
        HttpClient { config: self.config, auth_provider: Some(auth_provider) }
    }

    /// Returns the client configuration.
    pub fn config(&self) -> (config: &HttpClientConfig)
        ensures
            *config == self.settings(),
    {
        &self.config
    }

    /// The authorization header for the next request: what the provider
    /// gives, or none where the client has no provider.
    pub fn authorization(&self) -> (header: Result<Option<String>, Error>)
        ensures
            !self.has_auth() ==> header is Ok && header->Ok_0 is None,
            self.has_auth() && header is Ok ==> header->Ok_0 is Some,
    {
        match &self.auth_provider {
            Some(provider) => match provider.get_auth_header() {
                Ok(header) => Ok(Some(header)),
                Err(e) => Err(e),
            },
            None => Ok(None),
        }
    }

    /// Executes a SQL statement. The client sends nothing itself: it accepts
    /// every statement, and the statement's own actions say what to send.
    pub fn execute_statement(&self, statement: &str) -> (r: Result<(), Error>)
        ensures
            r is Ok,
    {
        Ok(())
    }
}

impl Default for HttpClient<PersonalAccessToken> {
    fn default() -> (client: Self)
        ensures
            client.settings()@ == (HttpClientConfigView {
                timeout_ms: 30_000,
                max_retries: 3,
                user_agent: USER_AGENT@,
            }),
            !client.has_auth(),
    {
        HttpClient::new(HttpClientConfig::default())
    }
}

} // verus!
