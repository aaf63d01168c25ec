//! OAuth 2.0 client credentials authentication.

use vstd::prelude::*;
use vstd::string::*;
use crate::auth::AuthProvider;
use crate::error::{plain, Error, Status};
use crate::features::{feature_name, missing, Feature};
use crate::options::{borrow_text, copy_text, text_of};

verus! {

/// OAuth 2.0 client credentials authentication provider.
///
/// This provider stands for the OAuth 2.0 client credentials flow, which
/// authenticates a service principal. The exchange of the credentials for a
/// token is not supported yet.
#[derive(Debug)]
pub struct OAuthCredentials {
    client_id: String,
    client_secret: String,
    token_endpoint: Option<String>,
}

/// OAuth credentials as mathematical data.
pub struct OAuthView {
    pub client_id: Seq<char>,
    pub client_secret: Seq<char>,
    pub token_endpoint: Option<Seq<char>>,
}

impl View for OAuthCredentials {
    type V = OAuthView;

    closed spec fn view(&self) -> OAuthView {
        OAuthView {
            client_id: self.client_id@,
            client_secret: self.client_secret@,
            token_endpoint: text_of(self.token_endpoint),
        }
    }
}

impl OAuthCredentials {
    /// Creates a new OAuth credentials provider.
    pub fn new(client_id: &str, client_secret: &str) -> (provider: Self)
        ensures
            provider@ == (OAuthView {
                client_id: client_id@,
                client_secret: client_secret@,
                token_endpoint: None,
            }),
    {
        OAuthCredentials {
            client_id: String::from_str(client_id),
            client_secret: String::from_str(client_secret),
            token_endpoint: None,
        }
    }

    /// Sets a custom token endpoint URL.
    pub fn with_token_endpoint(self, endpoint: &str) -> (provider: Self)
        ensures
            provider@ == (OAuthView { token_endpoint: Some(endpoint@), ..self@ }),
    {
        OAuthCredentials { token_endpoint: Some(String::from_str(endpoint)), ..self }
    }

    /// Returns the client ID.
    pub fn client_id(&self) -> (id: &str)
        ensures
            id@ == self@.client_id,
    {
        self.client_id.as_str()
    }

    /// Returns the token endpoint.
    pub fn token_endpoint(&self) -> (endpoint: Option<&str>)
        ensures
            match endpoint {
                Some(t) => self@.token_endpoint == Some(t@),
                None => self@.token_endpoint is None,
            },
    {
        borrow_text(&self.token_endpoint)
    }
}

impl AuthProvider for OAuthCredentials {
    /// Always a `NotImplemented` error: the exchange of the credentials for
    /// a token is not supported yet.
    fn get_auth_header(&self) -> (header: Result<String, Error>)
        ensures
            header is Err,
            header->Err_0@ == plain(
                Status::NotImplemented,
                feature_name(Feature::OAuthTokenExchange),
            ),
    {
        Err(missing(Feature::OAuthTokenExchange))
    }
}

impl Clone for OAuthCredentials {
    fn clone(&self) -> (copy: Self)
        ensures
            copy@ == self@,
    {
        OAuthCredentials {
            client_id: self.client_id.clone(),
            client_secret: self.client_secret.clone(),
            token_endpoint: copy_text(&self.token_endpoint),
        }
    }
}

} // verus!
