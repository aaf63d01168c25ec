//! Authentication mechanisms for the Databricks ADBC driver.

pub mod oauth;
pub mod pat;

use vstd::prelude::*;
use crate::error::Error;

pub use oauth::OAuthCredentials;
pub use pat::PersonalAccessToken;

verus! {

/// Trait for authentication providers.
///
/// A provider is asked once for each outgoing request, and once more where
/// the warehouse or the store has rejected the credential. What it gives may
/// differ from call to call: a provider may fetch, cache and renew tokens.
pub trait AuthProvider: Send + Sync {
    /// Returns the authorization header value for HTTP requests.
    fn get_auth_header(&self) -> (header: Result<String, Error>);
}

} // verus!
