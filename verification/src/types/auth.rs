//! JWT scopes and token requests.

use vstd::prelude::*;
use crate::text::owned;
use super::time::Timestamp;

verus! {

/// A JWT scope value: a string, with the predefined scopes as constants.
#[derive(Debug, Clone, PartialEq, Eq)]
pub struct JwtScope(pub String);

impl JwtScope {
    pub const DEVICES_LIST: &'static str = "devices:list";
    pub const DEVICES_DELETE: &'static str = "devices:delete";
    pub const INBOX_LIST: &'static str = "inbox:list";
    pub const INBOX_REFRESH: &'static str = "inbox:refresh";
    pub const LOGS_READ: &'static str = "logs:read";
    pub const MESSAGES_CANCEL: &'static str = "messages:cancel";
    pub const MESSAGES_SEND: &'static str = "messages:send";
    pub const MESSAGES_READ: &'static str = "messages:read";
    pub const MESSAGES_LIST: &'static str = "messages:list";
    pub const MESSAGES_EXPORT: &'static str = "messages:export";
    pub const SETTINGS_READ: &'static str = "settings:read";
    pub const SETTINGS_WRITE: &'static str = "settings:write";
    pub const TOKENS_MANAGE: &'static str = "tokens:manage";
    pub const WEBHOOKS_LIST: &'static str = "webhooks:list";
    pub const WEBHOOKS_WRITE: &'static str = "webhooks:write";
    pub const WEBHOOKS_DELETE: &'static str = "webhooks:delete";

    /// Creates a new JWT scope value.
    pub fn new(s: &str) -> (r: Self)
        ensures
            r.0@ == s@,
    {
        JwtScope(owned(s))
    }

    /// Returns the scope as a string slice.
    pub fn as_str(&self) -> (r: &str)
        ensures
            r@ == self.0@,
    {
        self.0.as_str()
    }
}

/// Request to generate a new JWT token.
#[derive(Debug, Clone)]
pub struct TokenRequest {
    /// Time-to-live in seconds for the token.
    pub ttl: Option<u64>,
    /// List of scopes to grant.
    pub scopes: Vec<JwtScope>,
}

/// Response containing a generated JWT token.
#[derive(Debug, Clone)]
pub struct TokenResponse {
    /// Token ID (JTI).
    pub id: String,
    /// Token type (e.g., "bearer").
    pub token_type: String,
    /// The access token string.
    pub access_token: String,
    /// Optional refresh token for renewing the access token.
    pub refresh_token: Option<String>,
    /// Token expiration time.
    pub expires_at: Timestamp,
}

} // verus!
