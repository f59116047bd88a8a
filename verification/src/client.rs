//! What the client computes before and after an exchange with the API: the
//! authorization header, request paths and query strings, and the total
//! count a listing reports.

use vstd::prelude::*;
use vstd::string::*;
use vstd::utf8::encode_utf8;
use crate::config::ClientConfig;
use crate::encoding::{base64_encode, base64_text, percent_byte, percent_encode_byte};
use crate::error::{fails_config, Error};
use crate::text::{
    append, owned, parse_unsigned, push_char, push_signed_decimal, signed_decimal, unsigned_value,
};
use crate::types::options::{form_query, time_text, ToQueryParams};
use crate::http::{request_url, trim_trailing_slashes};
use crate::types::time::{later, Timestamp};

verus! {

/// Whether a byte stays as it is in a path segment: ASCII letters and digits,
/// `-`, `.`, `_` and `~`.
pub open spec fn path_keeps(b: u8) -> bool {
    (48 <= b <= 57) || (65 <= b <= 90) || (97 <= b <= 122) || b == 45 || b == 46 || b == 95 || b
        == 126
}

/// A byte string percent-encoded for use as one URL path segment.
pub open spec fn path_encoded(bytes: Seq<u8>) -> Seq<char>
    decreases bytes.len(),
{
    if bytes.len() == 0 {
        Seq::empty()
    } else {
        path_encoded(bytes.drop_last()) + if path_keeps(bytes.last()) {
            seq![bytes.last() as char]
        } else {
            percent_byte(bytes.last())
        }
    }
}

/// An encoded path segment holds no `/`, `?` or `#`: it stays one segment of
/// the path and cannot start a query or a fragment.
pub proof fn lemma_path_segment_is_one_segment(bytes: Seq<u8>)
    ensures
        forall|i: int|
            0 <= i < path_encoded(bytes).len() ==> #[trigger] path_encoded(bytes)[i] != '/'
                && path_encoded(bytes)[i] != '?' && path_encoded(bytes)[i] != '#',
    decreases bytes.len(),
{
    if bytes.len() > 0 {
        lemma_path_segment_is_one_segment(bytes.drop_last());
        let prev = path_encoded(bytes.drop_last());
        let b = bytes.last();
        let tail = if path_keeps(b) {
            seq![b as char]
        } else {
            percent_byte(b)
        };
        assert(path_encoded(bytes) == prev + tail);
        assert forall|i: int| 0 <= i < tail.len() implies tail[i] != '/' && tail[i] != '?'
            && tail[i] != '#' by {
            if path_keeps(b) {
                assert(tail[i] == b as char);
            } else {
                assert(b / 16 < 16 && b % 16 < 16);
            }
        }
        assert forall|i: int| 0 <= i < path_encoded(bytes).len() implies #[trigger] path_encoded(
            bytes,
        )[i] != '/' && path_encoded(bytes)[i] != '?' && path_encoded(bytes)[i] != '#' by {
            if i < prev.len() {
                assert(path_encoded(bytes)[i] == prev[i]);
            } else {
                assert(path_encoded(bytes)[i] == tail[i - prev.len()]);
            }
        }
    }
}

/// Percent-encodes `s` for use as a single URL path segment: every UTF-8
/// byte other than ASCII letters, digits, `-`, `.`, `_` and `~` becomes `%XX`.
pub fn encode_path_segment(s: &str) -> (r: String)
    ensures
        r@ == path_encoded(encode_utf8(s@)),
{
    let b = s.as_bytes();
    let mut r = String::new();
    let mut i: usize = 0;
    assert(b@.take(0) =~= Seq::<u8>::empty());
    while i < b.len()
        invariant
            b@ == encode_utf8(s@),
            i <= b@.len(),
            r@ == path_encoded(b@.take(i as int)),
        decreases b.len() - i,
    {
        let c = b[i];
        assert(b@.take(i + 1).drop_last() =~= b@.take(i as int));
        if (48 <= c && c <= 57) || (65 <= c && c <= 90) || (97 <= c && c <= 122) || c == 45 || c
            == 46 || c == 95 || c == 126 {
            push_char(&mut r, c as char);
        } else {
            append(&mut r, percent_encode_byte(c));
        }
        i = i + 1;
    }
    assert(b@.take(b@.len() as int) =~= b@);
    r
}

/// A path followed by its query, if the query is not empty.
pub open spec fn path_with_query(base: Seq<char>, query: Seq<char>) -> Seq<char> {
    if query.len() == 0 {
        base
    } else {
        base + seq!['?'] + query
    }
}

/// Appends `?query` to `base` unless the query is empty.
pub fn build_path(base: &str, query: &str) -> (r: String)
    ensures
        r@ == path_with_query(base@, query@),
{
    let mut r = owned(base);
    if query.unicode_len() > 0 {
        push_char(&mut r, '?');
        append(&mut r, query);
    }
    r
}

/// The path of a listing request: `base` with the options' query.
pub fn listing_path<T: ToQueryParams>(base: &str, options: &T) -> (r: String)
    ensures
        r@ == path_with_query(base@, form_query(options.spec_query_params())),
{
    let query = options.to_url_query();
    build_path(base, query.as_str())
}

/// The path of one resource: `prefix`, a slash, and the encoded `id`.
pub open spec fn item_path(prefix: Seq<char>, id: Seq<char>) -> Seq<char> {
    prefix + seq!['/'] + path_encoded(encode_utf8(id))
}

/// The path of the resource `id` under `prefix` (such as `/messages`).
pub fn resource_path(prefix: &str, id: &str) -> (r: String)
    ensures
        r@ == item_path(prefix@, id@),
{
    let mut r = owned(prefix);
    push_char(&mut r, '/');
    let e = encode_path_segment(id);
    append(&mut r, e.as_str());
    r
}

/// The path of one attachment of an inbox message.
pub fn attachment_path(message_id: &str, part_id: i32) -> (r: String)
    ensures
        r@ == item_path("/inbox"@, message_id@) + "/attachments/"@ + signed_decimal(
            part_id as int,
        ),
{
    let mut r = resource_path("/inbox", message_id);
    append(&mut r, "/attachments/");
    push_signed_decimal(&mut r, part_id as i64);
    r
}

/// The path of a log request for the range `from` to `to`; a `Validation`
/// error when `from` comes after `to`.
pub fn logs_path(from: &Timestamp, to: &Timestamp) -> (r: Result<String, Error>)
    ensures
        later(*from, *to) ==> crate::error::fails_validation(
            r,
            "`from` date must be before `to` date"@,
        ),
        !later(*from, *to) ==> (r matches Ok(p) && p@ == "/logs?from="@ + path_encoded(
            encode_utf8(time_text(*from)),
        ) + "&to="@ + path_encoded(encode_utf8(time_text(*to)))),
{
    if from.is_after(to) {
        return Err(Error::Validation(String::from_str("`from` date must be before `to` date")));
    }
    let mut r = String::from_str("/logs?from=");
    let f = encode_path_segment(from.to_rfc3339().as_str());
    append(&mut r, f.as_str());
    append(&mut r, "&to=");
    let t = encode_path_segment(to.to_rfc3339().as_str());
    append(&mut r, t.as_str());
    Ok(r)
}

/// The text an optional string holds, or the empty text when there is none.
pub open spec fn text_or_empty(s: Option<Seq<char>>) -> Seq<char> {
    match s {
        Some(t) => t,
        None => Seq::empty(),
    }
}

/// The `Authorization` header that a configuration yields: the bearer token
/// when one is set, otherwise Basic credentials `username:password` in Base64.
pub open spec fn auth_header_text(c: ClientConfig) -> Seq<char> {
    match c.spec_token() {
        Some(t) => "Bearer "@ + t,
        None => "Basic "@ + base64_text(
            encode_utf8(
                text_or_empty(c.spec_username()) + seq![':'] + text_or_empty(c.spec_password()),
            ),
        ),
    }
}

/// Validates the configuration and builds the `Authorization` header value.
pub fn auth_header(config: &ClientConfig) -> (r: Result<String, Error>)
    ensures
        match config.spec_problem() {
            Some(m) => fails_config(r, m),
            None => r matches Ok(h) && h@ == auth_header_text(*config),
        },
{
    if let Err(e) = config.validate() {
        return Err(e);
    }
    match config.token() {
        Some(token) => {
            let mut h = String::from_str("Bearer ");
            append(&mut h, token.as_str());
            assert(config.spec_token() == Some(token@));
            Ok(h)
        },
        None => {
            let mut credentials = String::new();
            if let Some(u) = config.username() {
                append(&mut credentials, u.as_str());
            }
            push_char(&mut credentials, ':');
            if let Some(p) = config.password() {
                append(&mut credentials, p.as_str());
            }
            assert(credentials@ =~= text_or_empty(config.spec_username()) + seq![':']
                + text_or_empty(config.spec_password()));
            let encoded = base64_encode(credentials.as_str().as_bytes());
            let mut h = String::from_str("Basic ");
            append(&mut h, encoded.as_str());
            Ok(h)
        },
    }
}

/// The `Authorization` header for a bearer token.
pub fn bearer_header(token: &str) -> (r: String)
    ensures
        r@ == "Bearer "@ + token@,
{
    let mut h = String::from_str("Bearer ");
    append(&mut h, token);
    h
}

/// The `User-Agent` header value: the crate's name and version.
pub open spec fn user_agent_text() -> Seq<char> {
    "android-sms-gateway/"@ + crate::VERSION@ + " (client; rust)"@
}

/// The `User-Agent` header value the client sends.
pub fn user_agent() -> (r: String)
    ensures
        r@ == user_agent_text(),
{
    let mut r = String::from_str("android-sms-gateway/");
    append(&mut r, crate::VERSION);
    append(&mut r, " (client; rust)");
    r
}

/// The total count a listing reports in its `X-Total-Count` header: the
/// header's value read as an unsigned decimal, `None` when the header is
/// missing or its value is not a number that fits in 64 bits.
pub fn parse_total_count(header: Option<&str>) -> (r: Option<u64>)
    ensures
        match header {
            None => r is None,
            Some(h) => match unsigned_value(h@) {
                Some(v) => if v <= u64::MAX {
                    r == Some(v as u64)
                } else {
                    r is None
                },
                None => r is None,
            },
        },
{
    match header {
        Some(h) => parse_unsigned(h, u64::MAX),
        None => None,
    }
}

/// One request, ready to send: its URL and its header values.
pub struct PreparedRequest {
    /// The full URL.
    pub url: String,
    /// The `Authorization` header value.
    pub authorization: String,
    /// The `User-Agent` header value.
    pub user_agent: String,
}

/// The URL and header values of a prepared request.
pub open spec fn request_view(r: PreparedRequest) -> (Seq<char>, Seq<char>, Seq<char>) {
    (r.url@, r.authorization@, r.user_agent@)
}

/// What every request of a client is built from: the base URL, the
/// `Authorization` value and the `User-Agent` value.
pub struct RequestSetup {
    base_url: String,
    authorization: String,
    user_agent: String,
}

/// Whether `s` is what a valid configuration `c` sets up: its base URL, the
/// authorization header that `c` yields, and the client's user agent.
pub open spec fn set_up_from(s: RequestSetup, c: ClientConfig) -> bool {
    &&& c.spec_problem() is None
    &&& s.spec_base_url() == c.spec_base_url()
    &&& s.spec_authorization() == auth_header_text(c)
    &&& s.spec_user_agent() == user_agent_text()
}

/// The request that a setup makes for `path`: the base URL without its
/// trailing slashes followed by the path, with the setup's two headers.
pub open spec fn prepared_request(s: RequestSetup, path: Seq<char>) -> (
    Seq<char>,
    Seq<char>,
    Seq<char>,
) {
    (trim_trailing_slashes(s.spec_base_url()) + path, s.spec_authorization(), s.spec_user_agent())
}

/// The request that a client made from the configuration `c` sends for
/// `path`.
pub open spec fn config_request(c: ClientConfig, path: Seq<char>) -> (
    Seq<char>,
    Seq<char>,
    Seq<char>,
) {
    (trim_trailing_slashes(c.spec_base_url()) + path, auth_header_text(c), user_agent_text())
}

impl RequestSetup {
    /// The base URL requests go to.
    pub closed spec fn spec_base_url(self) -> Seq<char> {
        self.base_url@
    }

    /// The `Authorization` header value.
    pub closed spec fn spec_authorization(self) -> Seq<char> {
        self.authorization@
    }

    /// The `User-Agent` header value.
    pub closed spec fn spec_user_agent(self) -> Seq<char> {
        self.user_agent@
    }

    /// Validates the configuration and sets up the client's requests; the
    /// configuration error when it is not valid.
    pub fn from_config(config: &ClientConfig) -> (r: Result<RequestSetup, Error>)
        ensures
            match config.spec_problem() {
                Some(m) => fails_config(r, m),
                None => r matches Ok(s) && set_up_from(s, *config),
            },
    {
        let authorization = match auth_header(config) {
            Ok(h) => h,
            Err(e) => {
                return Err(e);
            },
        };
        Ok(RequestSetup { base_url: owned(config.base_url()), authorization, user_agent: user_agent() })
    }

    /// The request for `path`, with the setup's URL and headers.
    pub fn prepare(&self, path: &str) -> (r: PreparedRequest)
        ensures
            request_view(r) == prepared_request(*self, path@),
    {
        PreparedRequest {
            url: request_url(self.base_url.as_str(), path),
            authorization: owned(self.authorization.as_str()),
            user_agent: owned(self.user_agent.as_str()),
        }
    }

    /// The request for `path` with another `Authorization` value (such as a
    /// refresh token's); URL and `User-Agent` are the setup's.
    pub fn prepare_with_authorization(&self, path: &str, authorization: &str) -> (r:
        PreparedRequest)
        ensures
            r.url@ == prepared_request(*self, path@).0,
            r.authorization@ == authorization@,
            r.user_agent@ == prepared_request(*self, path@).2,
    {
        PreparedRequest {
            url: request_url(self.base_url.as_str(), path),
            authorization: owned(authorization),
            user_agent: owned(self.user_agent.as_str()),
        }
    }
}

/// Every request of a client set up from a valid configuration goes to the
/// configured base URL, without its trailing slashes, followed by the path;
/// it carries the client's `User-Agent`, and as `Authorization` the bearer
/// token when one is configured, otherwise the Basic credentials.
pub proof fn lemma_requests_follow_config(c: ClientConfig, s: RequestSetup, path: Seq<char>)
    requires
        set_up_from(s, c),
    ensures
        prepared_request(s, path) == config_request(c, path),
{
}

} // verus!
