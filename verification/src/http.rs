//! The parts of an HTTP exchange that the client decides: the URL of a
//! request and the error an unsuccessful status stands for.

use vstd::prelude::*;
use vstd::string::*;
use crate::error::Error;
use crate::text::{append, chars_of, decimal, push_char, push_decimal};

verus! {

/// `s` without its trailing slashes (`str::trim_end_matches('/')`).
pub open spec fn trim_trailing_slashes(s: Seq<char>) -> Seq<char>
    decreases s.len(),
{
    if s.len() > 0 && s.last() == '/' {
        trim_trailing_slashes(s.drop_last())
    } else {
        s
    }
}

/// The URL of a request: the base URL without trailing slashes, then the path.
pub fn request_url(base_url: &str, path: &str) -> (r: String)
    ensures
        r@ == trim_trailing_slashes(base_url@) + path@,
{
    let cs = chars_of(base_url);
    let mut n: usize = cs.len();
    assert(cs@.take(n as int) =~= cs@);
    while n > 0 && cs[n - 1] == '/'
        invariant
            n <= cs@.len(),
            cs@ == base_url@,
            trim_trailing_slashes(cs@.take(n as int)) == trim_trailing_slashes(base_url@),
        decreases n,
    {
        assert(cs@.take(n as int).drop_last() =~= cs@.take(n - 1));
        n = n - 1;
    }
    assert(n == 0 || cs@.take(n as int).last() != '/');
    let mut r = String::new();
    let mut i: usize = 0;
    while i < n
        invariant
            n <= cs@.len(),
            i <= n,
            r@ =~= cs@.take(i as int),
        decreases n - i,
    {
        push_char(&mut r, cs[i]);
        i = i + 1;
        assert(r@ =~= cs@.take(i as int));
    }
    assert(trim_trailing_slashes(cs@.take(n as int)) == cs@.take(n as int));
    append(&mut r, path);
    r
}

/// The message of an error for an unexpected status.
pub open spec fn unexpected_status_text(status: u16, body: Seq<char>) -> Seq<char> {
    "unexpected status code "@ + decimal(status as nat) + " with body: "@ + body
}

/// The error an unsuccessful status stands for, with the response body as
/// its message: 400, 401, 403, 404, 409, 422 and 429 each have their own
/// kind; any other 5xx status is a server error and anything else a client
/// error, both naming the status and the body.
pub open spec fn status_error_matches(status: u16, body: Seq<char>, e: Error) -> bool {
    match e {
        Error::BadRequest(m) => status == 400 && m@ == body,
        Error::Unauthorized(m) => status == 401 && m@ == body,
        Error::Forbidden(m) => status == 403 && m@ == body,
        Error::NotFound(m) => status == 404 && m@ == body,
        Error::Conflict(m) => status == 409 && m@ == body,
        Error::UnprocessableEntity(m) => status == 422 && m@ == body,
        Error::TooManyRequests(m) => status == 429 && m@ == body,
        Error::Server(m) => !known_status(status) && 500 <= status <= 599 && m@
            == unexpected_status_text(status, body),
        Error::Client(m) => !known_status(status) && !(500 <= status <= 599) && m@
            == unexpected_status_text(status, body),
        _ => false,
    }
}

/// Whether the status has an error kind of its own.
pub open spec fn known_status(status: u16) -> bool {
    status == 400 || status == 401 || status == 403 || status == 404 || status == 409 || status
        == 422 || status == 429
}

/// The message for a status without an error kind of its own.
fn unexpected_status(status: u16, body: &str) -> (r: String)
    ensures
        r@ == unexpected_status_text(status, body@),
{
    let mut m = String::from_str("unexpected status code ");
    push_decimal(&mut m, status as u64);
    append(&mut m, " with body: ");
    append(&mut m, body);
    m
}

/// Maps an unsuccessful HTTP status and the response body to an error.
pub fn map_error(status: u16, body: &str) -> (r: Error)
    ensures
        status_error_matches(status, body@, r),
{
    match status {
        400 => Error::BadRequest(String::from_str(body)),
        401 => Error::Unauthorized(String::from_str(body)),
        403 => Error::Forbidden(String::from_str(body)),
        404 => Error::NotFound(String::from_str(body)),
        409 => Error::Conflict(String::from_str(body)),
        422 => Error::UnprocessableEntity(String::from_str(body)),
        429 => Error::TooManyRequests(String::from_str(body)),
        _ => {
            if 500 <= status && status <= 599 {
                Error::Server(unexpected_status(status, body))
            } else {
                Error::Client(unexpected_status(status, body))
            }
        },
    }
}

} // verus!
