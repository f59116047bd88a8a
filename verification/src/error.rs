//! The errors that the client reports.

use vstd::prelude::*;
use reqwest::Error as HttpError;
use serde_json::Error as JsonError;

verus! {

/// `reqwest::Error`, the failure of an HTTP exchange; carried through opaque.
#[verifier::external_type_specification]
#[verifier::external_body]
pub struct ExReqwestError(HttpError);

/// `serde_json::Error`, a failure to encode or decode JSON; carried through opaque.
#[verifier::external_type_specification]
#[verifier::external_body]
pub struct ExJsonError(JsonError);

/// Errors returned by the SMSGate client.
#[derive(Debug)]
pub enum Error {
    /// An unexpected client-side error occurred.
    Client(String),
    /// The server rejected the request due to invalid data.
    BadRequest(String),
    /// The request conflicts with the current state (e.g., duplicate or conflicting fields).
    Conflict(String),
    /// The request requires authentication (HTTP 401).
    Unauthorized(String),
    /// The server refused the request due to insufficient permissions (HTTP 403).
    Forbidden(String),
    /// The requested resource was not found (HTTP 404).
    NotFound(String),
    /// The request was well-formed but semantically invalid (HTTP 422).
    UnprocessableEntity(String),
    /// Too many requests were made in a given amount of time (HTTP 429).
    TooManyRequests(String),
    /// The server returned a 5xx error.
    Server(String),
    /// An HTTP transport error occurred (connection, timeout, etc.).
    Http(HttpError),
    /// The provided configuration is invalid.
    InvalidConfig(String),
    /// A value failed client-side validation.
    Validation(String),
    /// Two or more mutually exclusive fields were provided.
    ConflictFields(String),
    /// JSON serialization or deserialization failed.
    Json(JsonError),
}

/// The error is `Validation` with the message `m`.
pub open spec fn is_validation(e: Error, m: Seq<char>) -> bool {
    e matches Error::Validation(s) && s@ == m
}

/// The result failed with a `Validation` error whose message is `m`.
pub open spec fn fails_validation<T>(r: Result<T, Error>, m: Seq<char>) -> bool {
    match r {
        Err(Error::Validation(s)) => s@ == m,
        _ => false,
    }
}

/// The result failed with a `ConflictFields` error whose message is `m`.
pub open spec fn fails_conflict<T>(r: Result<T, Error>, m: Seq<char>) -> bool {
    match r {
        Err(Error::ConflictFields(s)) => s@ == m,
        _ => false,
    }
}

/// The result failed with an `InvalidConfig` error whose message is `m`.
pub open spec fn fails_config<T>(r: Result<T, Error>, m: Seq<char>) -> bool {
    match r {
        Err(Error::InvalidConfig(s)) => s@ == m,
        _ => false,
    }
}

/// The result is `Ok` when there is no problem, and otherwise a `Validation`
/// error carrying the problem's message.
pub open spec fn reports<T>(r: Result<T, Error>, problem: Option<Seq<char>>) -> bool {
    match problem {
        None => r is Ok,
        Some(m) => fails_validation(r, m),
    }
}

impl Error {
    /// The text of the error, as its `Display` renders it.
    pub fn message(&self) -> (r: String)
        ensures
            r@.len() >= self.spec_prefix().len(),
            r@.take(self.spec_prefix().len() as int) == self.spec_prefix(),
            self.spec_detail() matches Some(m) ==> r@ == self.spec_prefix() + m,
    {
        let mut s = String::new();
        match self {
            Error::Client(m) => {
                crate::text::append(&mut s, "api error: client error: ");
                crate::text::append(&mut s, m.as_str());
            },
            Error::BadRequest(m) => {
                crate::text::append(&mut s, "api error: client error: validation failed: ");
                crate::text::append(&mut s, m.as_str());
            },
            Error::Conflict(m) => {
                crate::text::append(&mut s, "api error: client error: conflict: ");
                crate::text::append(&mut s, m.as_str());
            },
            Error::Unauthorized(m) => {
                crate::text::append(&mut s, "api error: client error: unauthorized: ");
                crate::text::append(&mut s, m.as_str());
            },
            Error::Forbidden(m) => {
                crate::text::append(&mut s, "api error: client error: forbidden: ");
                crate::text::append(&mut s, m.as_str());
            },
            Error::NotFound(m) => {
                crate::text::append(&mut s, "api error: client error: not found: ");
                crate::text::append(&mut s, m.as_str());
            },
            Error::UnprocessableEntity(m) => {
                crate::text::append(&mut s, "api error: client error: unprocessable entity: ");
                crate::text::append(&mut s, m.as_str());
            },
            Error::TooManyRequests(m) => {
                crate::text::append(&mut s, "api error: client error: too many requests: ");
                crate::text::append(&mut s, m.as_str());
            },
            Error::Server(m) => {
                crate::text::append(&mut s, "api error: server error: ");
                crate::text::append(&mut s, m.as_str());
            },
            Error::Http(e) => {
                crate::text::append(&mut s, "http error: ");
                let d = display_reqwest_error(e);
                crate::text::append(&mut s, d.as_str());
                assert(("http error: "@ + d@).take("http error: "@.len() as int)
                    =~= "http error: "@);
            },
            Error::InvalidConfig(m) => {
                crate::text::append(&mut s, "invalid config: ");
                crate::text::append(&mut s, m.as_str());
            },
            Error::Validation(m) => {
                crate::text::append(&mut s, "validation failed: ");
                crate::text::append(&mut s, m.as_str());
            },
            Error::ConflictFields(m) => {
                crate::text::append(&mut s, "conflict fields: ");
                crate::text::append(&mut s, m.as_str());
            },
            Error::Json(e) => {
                crate::text::append(&mut s, "json error: ");
                let d = display_json_error(e);
                crate::text::append(&mut s, d.as_str());
                assert(("json error: "@ + d@).take("json error: "@.len() as int)
                    =~= "json error: "@);
            },
        }
        s
    }

    /// The fixed text that opens the error's message.
    pub open spec fn spec_prefix(&self) -> Seq<char> {
        match self {
            Error::Client(_) => "api error: client error: "@,
            Error::BadRequest(_) => "api error: client error: validation failed: "@,
            Error::Conflict(_) => "api error: client error: conflict: "@,
            Error::Unauthorized(_) => "api error: client error: unauthorized: "@,
            Error::Forbidden(_) => "api error: client error: forbidden: "@,
            Error::NotFound(_) => "api error: client error: not found: "@,
            Error::UnprocessableEntity(_) => "api error: client error: unprocessable entity: "@,
            Error::TooManyRequests(_) => "api error: client error: too many requests: "@,
            Error::Server(_) => "api error: server error: "@,
            Error::Http(_) => "http error: "@,
            Error::InvalidConfig(_) => "invalid config: "@,
            Error::Validation(_) => "validation failed: "@,
            Error::ConflictFields(_) => "conflict fields: "@,
            Error::Json(_) => "json error: "@,
        }
    }

    /// The message that the error carries as text, for the kinds that carry one.
    pub open spec fn spec_detail(&self) -> Option<Seq<char>> {
        match self {
            Error::Client(m) => Some(m@),
            Error::BadRequest(m) => Some(m@),
            Error::Conflict(m) => Some(m@),
            Error::Unauthorized(m) => Some(m@),
            Error::Forbidden(m) => Some(m@),
            Error::NotFound(m) => Some(m@),
            Error::UnprocessableEntity(m) => Some(m@),
            Error::TooManyRequests(m) => Some(m@),
            Error::Server(m) => Some(m@),
            Error::Http(_) => None,
            Error::InvalidConfig(m) => Some(m@),
            Error::Validation(m) => Some(m@),
            Error::ConflictFields(m) => Some(m@),
            Error::Json(_) => None,
        }
    }
}

/// The `Display` text of a `reqwest::Error`.
#[verifier::external_body]
fn display_reqwest_error(e: &HttpError) -> String {
    e.to_string()
}

/// The `Display` text of a `serde_json::Error`.
#[verifier::external_body]
fn display_json_error(e: &JsonError) -> String {
    e.to_string()
}

} // verus!
