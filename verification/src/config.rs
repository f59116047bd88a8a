//! Client configuration: where the API is and how to authenticate.

use vstd::prelude::*;
use vstd::string::*;
use reqwest::Client as HttpClient;
use crate::error::{fails_config, Error};
use crate::text::owned;

verus! {

/// `reqwest::Client`, the HTTP client a configuration may carry; opaque here.
#[verifier::external_type_specification]
#[verifier::external_body]
pub struct ExHttpClient(HttpClient);

/// Configuration builder for creating a client.
///
/// Supports two authentication modes: a JWT bearer token, set with
/// `with_token`, and HTTP Basic credentials, set with `with_basic_auth`.
#[derive(Clone)]
pub struct ClientConfig {
    base_url: String,
    token: Option<String>,
    username: Option<String>,
    password: Option<String>,
    http_client: Option<HttpClient>,
}

/// The views of an optional string.
pub open spec fn opt_text(o: Option<String>) -> Option<Seq<char>> {
    match o {
        Some(s) => Some(s@),
        None => None,
    }
}

/// What is wrong with the credentials, as the error message reports it:
/// nothing set at all, a username without a password, or a password without
/// a username. A token alone, or a username with a password, is complete.
pub open spec fn credentials_problem(user: bool, pass: bool, token: bool) -> Option<Seq<char>> {
    if !user && !pass && !token {
        Some("missing auth credentials"@)
    } else if user && !pass {
        Some("password is required when username is set"@)
    } else if !user && pass {
        Some("username is required when password is set"@)
    } else {
        None
    }
}

impl ClientConfig {
    /// The base URL of the API.
    pub closed spec fn spec_base_url(&self) -> Seq<char> {
        self.base_url@
    }

    /// The bearer token, if set.
    pub closed spec fn spec_token(&self) -> Option<Seq<char>> {
        opt_text(self.token)
    }

    /// The Basic-auth username, if set.
    pub closed spec fn spec_username(&self) -> Option<Seq<char>> {
        opt_text(self.username)
    }

    /// The Basic-auth password, if set.
    pub closed spec fn spec_password(&self) -> Option<Seq<char>> {
        opt_text(self.password)
    }

    /// The custom HTTP client, if set.
    pub closed spec fn spec_http_client(&self) -> Option<HttpClient> {
        self.http_client
    }

    /// What is wrong with the configured credentials, if anything.
    pub open spec fn spec_problem(&self) -> Option<Seq<char>> {
        credentials_problem(
            self.spec_username() is Some,
            self.spec_password() is Some,
            self.spec_token() is Some,
        )
    }

    /// Creates a new configuration with default values: the public API's base
    /// URL and no credentials.
    pub fn new() -> (r: Self)
        ensures
            r.spec_base_url() == crate::BASE_URL@,
            r.spec_token() is None,
            r.spec_username() is None,
            r.spec_password() is None,
            r.spec_http_client() is None,
    {
        Self::default()
    }

    /// Sets a custom base URL for the API (for private server deployments).
    pub fn with_base_url(self, base_url: &str) -> (r: Self)
        ensures
            r.spec_base_url() == base_url@,
            r.spec_token() == self.spec_token(),
            r.spec_username() == self.spec_username(),
            r.spec_password() == self.spec_password(),
            r.spec_http_client() == self.spec_http_client(),
    {
        ClientConfig { base_url: owned(base_url), ..self }
    }

    /// Configures JWT bearer token authentication.
    pub fn with_token(self, token: &str) -> (r: Self)
        ensures
            r.spec_base_url() == self.spec_base_url(),
            r.spec_token() == Some(token@),
            r.spec_username() == self.spec_username(),
            r.spec_password() == self.spec_password(),
            r.spec_http_client() == self.spec_http_client(),
    {
        ClientConfig { token: Some(owned(token)), ..self }
    }

    /// Configures HTTP Basic authentication.
    pub fn with_basic_auth(self, username: &str, password: &str) -> (r: Self)
        ensures
            r.spec_base_url() == self.spec_base_url(),
            r.spec_token() == self.spec_token(),
            r.spec_username() == Some(username@),
            r.spec_password() == Some(password@),
            r.spec_http_client() == self.spec_http_client(),
    {
        ClientConfig { username: Some(owned(username)), password: Some(owned(password)), ..self }
    }

    /// Provides a custom `reqwest::Client` for advanced HTTP configuration.
    pub fn with_http_client(self, client: HttpClient) -> (r: Self)
        ensures
            r.spec_base_url() == self.spec_base_url(),
            r.spec_token() == self.spec_token(),
            r.spec_username() == self.spec_username(),
            r.spec_password() == self.spec_password(),
            r.spec_http_client() == Some(client),
    {
        ClientConfig { http_client: Some(client), ..self }
    }

    /// Validates that authentication credentials are configured: a token, or
    /// a username together with a password.
    pub fn validate(&self) -> (r: Result<(), Error>)
        ensures
            match self.spec_problem() {
                None => r is Ok,
                Some(m) => fails_config(r, m),
            },
    {
        match (&self.username, &self.password, &self.token) {
            (None, None, None) => Err(
                Error::InvalidConfig(String::from_str("missing auth credentials")),
            ),
            (Some(_), None, _) => Err(
                Error::InvalidConfig(String::from_str("password is required when username is set")),
            ),
            (None, Some(_), _) => Err(
                Error::InvalidConfig(String::from_str("username is required when password is set")),
            ),
            _ => Ok(()),
        }
    }

    /// The base URL of the API.
    pub fn base_url(&self) -> (r: &str)
        ensures
            r@ == self.spec_base_url(),
    {
        self.base_url.as_str()
    }

    /// The bearer token, if set.
    pub fn token(&self) -> (r: Option<&String>)
        ensures
            opt_text(match r {
                Some(t) => Some(*t),
                None => None,
            }) == self.spec_token(),
    {
        self.token.as_ref()
    }

    /// The Basic-auth username, if set.
    pub fn username(&self) -> (r: Option<&String>)
        ensures
            opt_text(match r {
                Some(t) => Some(*t),
                None => None,
            }) == self.spec_username(),
    {
        self.username.as_ref()
    }

    /// The Basic-auth password, if set.
    pub fn password(&self) -> (r: Option<&String>)
        ensures
            opt_text(match r {
                Some(t) => Some(*t),
                None => None,
            }) == self.spec_password(),
    {
        self.password.as_ref()
    }

    /// Gives up the custom HTTP client, if one was set.
    pub fn into_http_client(self) -> (r: Option<HttpClient>)
        ensures
            r == self.spec_http_client(),
    {
        self.http_client
    }
}

impl Default for ClientConfig {
    fn default() -> (r: Self)
        ensures
            r.spec_base_url() == crate::BASE_URL@,
            r.spec_token() is None,
            r.spec_username() is None,
            r.spec_password() is None,
            r.spec_http_client() is None,
    {
        ClientConfig {
            base_url: owned(crate::BASE_URL),
            token: None,
            username: None,
            password: None,
            http_client: None,
        }
    }
}

} // verus!
