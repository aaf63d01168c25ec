//! Personal Access Token (PAT) authentication.

use vstd::prelude::*;
use vstd::string::*;
use crate::auth::AuthProvider;
use crate::error::Error;

verus! {

/// Personal Access Token authentication provider.
///
/// This is the simplest form of authentication for Databricks, using a
/// token made in the Databricks workspace settings.
#[derive(Debug)]
pub struct PersonalAccessToken {
    token: String,
}

impl View for PersonalAccessToken {
    type V = Seq<char>;

    /// The token.
    closed spec fn view(&self) -> Seq<char> {
        self.token@
    }
}

/// The header that carries `token` as a bearer credential.
pub open spec fn bearer(token: Seq<char>) -> Seq<char> {
    "Bearer "@ + token
}

impl PersonalAccessToken {
    /// Creates a new PAT authentication provider.
    pub fn new(token: &str) -> (provider: Self)
        ensures
            provider@ == token@,
    {
        PersonalAccessToken { token: String::from_str(token) }
    }
}

impl AuthProvider for PersonalAccessToken {
    /// The token as a bearer credential: `Bearer <token>`.
    fn get_auth_header(&self) -> (header: Result<String, Error>)
        ensures
            header is Ok,
            header->Ok_0@ == bearer(self@),
    {
        let mut header = String::from_str("Bearer ");
        header.append(self.token.as_str());
        Ok(header)
    }
}

impl Clone for PersonalAccessToken {
    fn clone(&self) -> (copy: Self)
        ensures
            copy@ == self@,
    {
        PersonalAccessToken { token: self.token.clone() }
    }
}

} // verus!
