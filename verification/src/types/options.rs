//! Options of the send and list requests, and their URL query strings.

use vstd::prelude::*;
use vstd::string::*;
use vstd::utf8::encode_utf8;
use crate::encoding::{form_encoded, form_urlencode};
use crate::error::{reports, Error};
use crate::text::{
    append, bool_text, decimal, owned, push_bool, push_decimal, push_signed_decimal, signed_decimal,
};
use super::inbox::{message_type_name, IncomingMessageType};
use super::time::{later, rfc3339_text, Timestamp};

verus! {

/// The views of a list of key-value pairs.
pub open spec fn pair_texts(v: Seq<(String, String)>) -> Seq<(Seq<char>, Seq<char>)> {
    v.map_values(|p: (String, String)| (p.0@, p.1@))
}

/// One `key=value` item of a form-encoded query.
pub open spec fn form_pair(p: (Seq<char>, Seq<char>)) -> Seq<char> {
    form_encoded(encode_utf8(p.0)) + seq!['='] + form_encoded(encode_utf8(p.1))
}

/// The `application/x-www-form-urlencoded` query for a list of pairs: the
/// encoded pairs joined by `&`, empty for no pairs.
pub open spec fn form_query(ps: Seq<(Seq<char>, Seq<char>)>) -> Seq<char>
    decreases ps.len(),
{
    if ps.len() == 0 {
        Seq::empty()
    } else if ps.len() == 1 {
        form_pair(ps[0])
    } else {
        form_query(ps.drop_last()) + seq!['&'] + form_pair(ps.last())
    }
}

/// A query is empty exactly when there are no parameters: every encoded pair
/// holds at least its `=`.
pub proof fn lemma_query_empty_iff_no_params(ps: Seq<(Seq<char>, Seq<char>)>)
    ensures
        (form_query(ps).len() == 0) == (ps.len() == 0),
    decreases ps.len(),
{
    if ps.len() == 1 {
        assert(form_pair(ps[0]).len() >= 1);
    } else if ps.len() > 1 {
        lemma_query_empty_iff_no_params(ps.drop_last());
    }
}

/// The pair `(key, value)` when `present`, and nothing otherwise.
pub open spec fn pair_if(present: bool, key: Seq<char>, value: Seq<char>) -> Seq<
    (Seq<char>, Seq<char>),
> {
    if present {
        seq![(key, value)]
    } else {
        Seq::empty()
    }
}

/// The value of the first pair whose key is `k`, if any.
pub open spec fn query_value(ps: Seq<(Seq<char>, Seq<char>)>, k: Seq<char>) -> Option<Seq<char>>
    decreases ps.len(),
{
    if ps.len() == 0 {
        None
    } else if ps[0].0 == k {
        Some(ps[0].1)
    } else {
        query_value(ps.drop_first(), k)
    }
}

/// The place of `k` in `order`, counted from 0; -1 when it is not there.
pub open spec fn key_position(order: Seq<Seq<char>>, k: Seq<char>) -> int
    decreases order.len(),
{
    if order.len() == 0 {
        -1
    } else if order[0] == k {
        0
    } else if key_position(order.drop_first(), k) < 0 {
        -1
    } else {
        key_position(order.drop_first(), k) + 1
    }
}

/// A key that first occurs in `order` at `i` has place `i`.
proof fn lemma_key_position(order: Seq<Seq<char>>, k: Seq<char>, i: int)
    requires
        0 <= i < order.len(),
        order[i] == k,
        forall|j: int| 0 <= j < i ==> order[j] != k,
    ensures
        key_position(order, k) == i,
    decreases i,
{
    if i > 0 {
        lemma_key_position(order.drop_first(), k, i - 1);
    }
}

/// Whether the keys of `ps` all come from `order`, at places below `n`, and
/// follow one another in that order (so none occurs twice).
pub open spec fn keys_ordered_below(
    ps: Seq<(Seq<char>, Seq<char>)>,
    order: Seq<Seq<char>>,
    n: int,
) -> bool {
    &&& forall|i: int| 0 <= i < ps.len() ==> 0 <= #[trigger] key_position(order, ps[i].0) < n
    &&& forall|i: int, j: int|
        0 <= i < j < ps.len() ==> key_position(order, #[trigger] ps[i].0) < key_position(
            order,
            #[trigger] ps[j].0,
        )
}

/// The value of a key in a concatenation is its value in the first part,
/// or else in the second.
proof fn lemma_query_value_append(a: Seq<(Seq<char>, Seq<char>)>, b: Seq<(Seq<char>, Seq<char>)>)
    ensures
        forall|k: Seq<char>| #[trigger]
            query_value(a + b, k) == if query_value(a, k) is Some {
                query_value(a, k)
            } else {
                query_value(b, k)
            },
    decreases a.len(),
{
    if a.len() == 0 {
        assert(a + b =~= b);
    } else {
        lemma_query_value_append(a.drop_first(), b);
        assert((a + b).drop_first() =~= a.drop_first() + b);
        assert forall|k: Seq<char>| #[trigger]
            query_value(a + b, k) == if query_value(a, k) is Some {
                query_value(a, k)
            } else {
                query_value(b, k)
            } by {
            assert((a + b)[0] == a[0]);
            if a[0].0 != k {
                assert(query_value(a + b, k) == query_value(a.drop_first() + b, k));
                assert(query_value(a, k) == query_value(a.drop_first(), k));
            }
        }
    }
}

/// The value of a key in an optional single pair.
proof fn lemma_query_value_pair_if(present: bool, key: Seq<char>, value: Seq<char>)
    ensures
        forall|k: Seq<char>| #[trigger]
            query_value(pair_if(present, key, value), k) == if present && key == k {
                Some(value)
            } else {
                None
            },
{
    assert forall|k: Seq<char>| #[trigger]
        query_value(pair_if(present, key, value), k) == if present && key == k {
            Some(value)
        } else {
            None
        } by {
        if present {
            let ps = pair_if(present, key, value);
            assert(ps.drop_first() =~= Seq::<(Seq<char>, Seq<char>)>::empty());
            assert(query_value(ps.drop_first(), k) is None);
        }
    }
}

/// Appending an optional pair whose key has place `n` keeps the keys in
/// order, now below `n + 1`.
proof fn lemma_keys_ordered_append(
    a: Seq<(Seq<char>, Seq<char>)>,
    present: bool,
    key: Seq<char>,
    value: Seq<char>,
    order: Seq<Seq<char>>,
    n: int,
)
    requires
        n >= 0,
        keys_ordered_below(a, order, n),
        key_position(order, key) == n,
    ensures
        keys_ordered_below(a + pair_if(present, key, value), order, n + 1),
{
    let ps = a + pair_if(present, key, value);
    assert forall|i: int| 0 <= i < ps.len() implies 0 <= #[trigger] key_position(order, ps[i].0)
        < n + 1 by {
        if i < a.len() {
            assert(ps[i] == a[i]);
        }
    }
    assert forall|i: int, j: int| 0 <= i < j < ps.len() implies key_position(
        order,
        #[trigger] ps[i].0,
    ) < key_position(order, #[trigger] ps[j].0) by {
        assert(ps[i] == a[i]);
        if j < a.len() {
            assert(ps[j] == a[j]);
        }
    }
}

/// The RFC 3339 text of a timestamp.
pub open spec fn time_text(t: Timestamp) -> Seq<char> {
    rfc3339_text(t.spec_secs(), t.spec_nanos())
}

/// Conversion of options to URL query parameters.
pub trait ToQueryParams {
    /// The key-value pairs of the query, in order.
    spec fn spec_query_params(&self) -> Seq<(Seq<char>, Seq<char>)>;

    /// Returns a list of key-value pairs for the URL query string.
    fn to_query_params(&self) -> (r: Vec<(String, String)>)
        ensures
            pair_texts(r@) == self.spec_query_params(),
    ;

    /// Returns a URL-encoded query string.
    fn to_url_query(&self) -> (r: String)
        ensures
            r@ == form_query(self.spec_query_params()),
    {
        let pairs = self.to_query_params();
        let mut out = String::new();
        let mut i: usize = 0;
        assert(pair_texts(pairs@).take(0) =~= Seq::<(Seq<char>, Seq<char>)>::empty());
        while i < pairs.len()
            invariant
                i <= pairs@.len(),
                out@ == form_query(pair_texts(pairs@).take(i as int)),
            decreases pairs.len() - i,
        {
            let ghost before = pair_texts(pairs@).take(i as int);
            let ghost after = pair_texts(pairs@).take(i + 1);
            assert(after.drop_last() =~= before);
            assert(after.last() == (pairs@[i as int].0@, pairs@[i as int].1@));
            if i > 0 {
                crate::text::push_char(&mut out, '&');
            }
            let k = form_urlencode(pairs[i].0.as_str());
            let v = form_urlencode(pairs[i].1.as_str());
            append(&mut out, k.as_str());
            crate::text::push_char(&mut out, '=');
            append(&mut out, v.as_str());
            proof {
                if i == 0 {
                    assert(after.len() == 1);
                    assert(out@ =~= form_pair(after[0]));
                } else {
                    assert(out@ =~= form_query(before) + seq!['&'] + form_pair(after.last()));
                }
            }
            i = i + 1;
        }
        assert(pair_texts(pairs@).take(pairs@.len() as int) =~= pair_texts(pairs@));
        out
    }
}

/// Appends the pair `(key, value)`.
fn push_pair(v: &mut Vec<(String, String)>, key: &str, value: String)
    ensures
        pair_texts(final(v)@) == pair_texts(old(v)@).push((key@, value@)),
{
    v.push((owned(key), value));
    assert(pair_texts(final(v)@) =~= pair_texts(old(v)@).push((key@, value@)));
}

/// Appends the pair `(key, value)` when there is a value.
fn push_opt(v: &mut Vec<(String, String)>, key: &str, value: Option<String>)
    ensures
        pair_texts(final(v)@) == pair_texts(old(v)@) + pair_if(value is Some, key@, value->0@),
{
    match value {
        Some(t) => {
            push_pair(v, key, t);
        },
        None => {},
    }
    assert(pair_texts(final(v)@) =~= pair_texts(old(v)@) + pair_if(value is Some, key@, value->0@));
}

/// The RFC 3339 text of a timestamp, when there is one.
fn opt_time(t: &Option<Timestamp>) -> (r: Option<String>)
    ensures
        r is Some == t is Some,
        r is Some ==> r->0@ == time_text(t->0),
{
    match t {
        Some(x) => Some(x.to_rfc3339()),
        None => None,
    }
}

/// The decimal text of a signed value, when there is one.
fn opt_signed(v: Option<i32>) -> (r: Option<String>)
    ensures
        r is Some == v is Some,
        r is Some ==> r->0@ == signed_decimal(v->0 as int),
{
    match v {
        Some(x) => Some(signed_text(x)),
        None => None,
    }
}

/// The text of a boolean, when there is one.
fn opt_bool(v: Option<bool>) -> (r: Option<String>)
    ensures
        r is Some == v is Some,
        r is Some ==> r->0@ == bool_text(v->0),
{
    match v {
        Some(x) => Some(bool_string(x)),
        None => None,
    }
}

/// A copy of the string, when there is one.
fn opt_text(v: &Option<String>) -> (r: Option<String>)
    ensures
        r is Some == v is Some,
        r is Some ==> r->0@ == v->0@,
{
    match v {
        Some(x) => Some(x.clone()),
        None => None,
    }
}

/// Options for sending a message.
#[derive(Debug, Clone)]
pub struct SendOptions {
    /// Skip phone number validation on the server.
    pub skip_phone_validation: Option<bool>,
    /// Only send to devices active within this many hours.
    pub device_active_within: Option<u32>,
}

impl Default for SendOptions {
    fn default() -> (r: Self)
        ensures
            r.skip_phone_validation is None,
            r.device_active_within is None,
    {
        SendOptions { skip_phone_validation: None, device_active_within: None }
    }
}

impl SendOptions {
    /// Options with nothing set.
    pub fn new() -> (r: Self)
        ensures
            r.skip_phone_validation is None,
            r.device_active_within is None,
    {
        SendOptions::default()
    }

    /// Sets whether the server skips phone number validation.
    pub fn with_skip_phone_validation(self, val: bool) -> (r: Self)
        ensures
            r == (SendOptions { skip_phone_validation: Some(val), ..self }),
    {
        SendOptions { skip_phone_validation: Some(val), ..self }
    }

    /// Sends only to devices active within `hours` hours.
    pub fn with_device_active_within(self, hours: u32) -> (r: Self)
        ensures
            r == (SendOptions { device_active_within: Some(hours), ..self }),
    {
        SendOptions { device_active_within: Some(hours), ..self }
    }
}

impl ToQueryParams for SendOptions {
    open spec fn spec_query_params(&self) -> Seq<(Seq<char>, Seq<char>)> {
        pair_if(
            self.skip_phone_validation is Some,
            "skipPhoneValidation"@,
            bool_text(self.skip_phone_validation->0),
        ) + pair_if(
            self.device_active_within is Some,
            "deviceActiveWithin"@,
            decimal(self.device_active_within->0 as nat),
        )
    }

    fn to_query_params(&self) -> (r: Vec<(String, String)>) {
        let mut params: Vec<(String, String)> = Vec::new();
        if let Some(val) = self.skip_phone_validation {
            let mut t = String::new();
            push_bool(&mut t, val);
            push_pair(&mut params, "skipPhoneValidation", t);
        }
        if let Some(hours) = self.device_active_within {
            let mut t = String::new();
            push_decimal(&mut t, hours as u64);
            push_pair(&mut params, "deviceActiveWithin", t);
        }
        assert(pair_texts(params@) =~= self.spec_query_params());
        params
    }
}

/// What is wrong with a listing's filters, as the error message reports it:
/// `from` after `to`, a `limit` outside 1 to 100, a negative `offset`,
/// checked in that order.
pub open spec fn listing_problem(
    from: Option<Timestamp>,
    to: Option<Timestamp>,
    limit: Option<i32>,
    offset: Option<i32>,
) -> Option<Seq<char>> {
    if from is Some && to is Some && later(from->0, to->0) {
        Some("`from` date must be before `to` date"@)
    } else if limit is Some && !(1 <= limit->0 <= 100) {
        Some("`limit` must be between 1 and 100"@)
    } else if offset is Some && offset->0 < 0 {
        Some("`offset` must be non-negative"@)
    } else {
        None
    }
}

/// Checks the filters shared by the listing requests.
fn check_listing(
    from: &Option<Timestamp>,
    to: &Option<Timestamp>,
    limit: Option<i32>,
    offset: Option<i32>,
) -> (r: Result<(), Error>)
    ensures
        reports(r, listing_problem(*from, *to, limit, offset)),
{
    if let (Some(f), Some(t)) = (from, to) {
        if f.is_after(t) {
            return Err(Error::Validation(String::from_str("`from` date must be before `to` date")));
        }
    }
    if let Some(limit) = limit {
        if !(1 <= limit && limit <= 100) {
            return Err(Error::Validation(String::from_str("`limit` must be between 1 and 100")));
        }
    }
    if let Some(offset) = offset {
        if offset < 0 {
            return Err(Error::Validation(String::from_str("`offset` must be non-negative")));
        }
    }
    Ok(())
}

/// The decimal text of a signed value.
fn signed_text(v: i32) -> (r: String)
    ensures
        r@ == signed_decimal(v as int),
{
    let mut t = String::new();
    push_signed_decimal(&mut t, v as i64);
    t
}

/// The text of a boolean.
fn bool_string(b: bool) -> (r: String)
    ensures
        r@ == bool_text(b),
{
    let mut t = String::new();
    push_bool(&mut t, b);
    t
}

/// Options for listing inbox messages.
#[derive(Debug, Clone)]
pub struct ListInboxOptions {
    /// Filter by message type.
    pub message_type: Option<IncomingMessageType>,
    /// Maximum number of results (1-100, default 50).
    pub limit: Option<i32>,
    /// Number of results to skip.
    pub offset: Option<i32>,
    /// Start of time range.
    pub from: Option<Timestamp>,
    /// End of time range.
    pub to: Option<Timestamp>,
    /// Filter by device ID.
    pub device_id: Option<String>,
    /// Include attachment metadata in response (for MMS messages).
    pub include_attachments: Option<bool>,
}

impl Default for ListInboxOptions {
    fn default() -> (r: Self)
        ensures
            r.message_type is None,
            r.limit is None,
            r.offset is None,
            r.from is None,
            r.to is None,
            r.device_id is None,
            r.include_attachments is None,
    {
        ListInboxOptions {
            message_type: None,
            limit: None,
            offset: None,
            from: None,
            to: None,
            device_id: None,
            include_attachments: None,
        }
    }
}

impl ListInboxOptions {
    /// Options with nothing set.
    pub fn new() -> (r: Self)
        ensures
            r.message_type is None,
            r.limit is None,
            r.offset is None,
            r.from is None,
            r.to is None,
            r.device_id is None,
            r.include_attachments is None,
    {
        ListInboxOptions::default()
    }

    /// Checks the filters: `from` not after `to`, `limit` within 1 to 100,
    /// `offset` not negative.
    pub fn validate(&self) -> (r: Result<(), Error>)
        ensures
            reports(r, listing_problem(self.from, self.to, self.limit, self.offset)),
    {
        check_listing(&self.from, &self.to, self.limit, self.offset)
    }

    /// Filters by message type.
    pub fn with_message_type(self, val: IncomingMessageType) -> (r: Self)
        ensures
            r == (ListInboxOptions { message_type: Some(val), ..self }),
    {
        ListInboxOptions { message_type: Some(val), ..self }
    }

    /// Limits the number of results.
    pub fn with_limit(self, val: i32) -> (r: Self)
        ensures
            r == (ListInboxOptions { limit: Some(val), ..self }),
    {
        ListInboxOptions { limit: Some(val), ..self }
    }

    /// Skips the first `val` results.
    pub fn with_offset(self, val: i32) -> (r: Self)
        ensures
            r == (ListInboxOptions { offset: Some(val), ..self }),
    {
        ListInboxOptions { offset: Some(val), ..self }
    }

    /// Starts the time range at `val`.
    pub fn with_from(self, val: Timestamp) -> (r: Self)
        ensures
            r == (ListInboxOptions { from: Some(val), ..self }),
    {
        ListInboxOptions { from: Some(val), ..self }
    }

    /// Ends the time range at `val`.
    pub fn with_to(self, val: Timestamp) -> (r: Self)
        ensures
            r == (ListInboxOptions { to: Some(val), ..self }),
    {
        ListInboxOptions { to: Some(val), ..self }
    }

    /// Filters by device ID.
    pub fn with_device_id(self, val: &str) -> (r: Self)
        ensures
            r == (ListInboxOptions { device_id: r.device_id, ..self }),
            r.device_id matches Some(d) && d@ == val@,
    {
        ListInboxOptions { device_id: Some(owned(val)), ..self }
    }

    /// Includes attachment metadata in the response.
    pub fn with_include_attachments(self, val: bool) -> (r: Self)
        ensures
            r == (ListInboxOptions { include_attachments: Some(val), ..self }),
    {
        ListInboxOptions { include_attachments: Some(val), ..self }
    }
}

impl ToQueryParams for ListInboxOptions {
    open spec fn spec_query_params(&self) -> Seq<(Seq<char>, Seq<char>)> {
        pair_if(self.message_type is Some, "type"@, message_type_name(self.message_type->0))
            + pair_if(self.limit is Some, "limit"@, signed_decimal(self.limit->0 as int))
            + pair_if(self.offset is Some, "offset"@, signed_decimal(self.offset->0 as int))
            + pair_if(self.from is Some, "from"@, time_text(self.from->0))
            + pair_if(self.to is Some, "to"@, time_text(self.to->0))
            + pair_if(self.device_id is Some, "deviceId"@, self.device_id->0@)
            + pair_if(self.include_attachments is Some, "includeAttachments"@,
                bool_text(self.include_attachments->0))
    }

    fn to_query_params(&self) -> (r: Vec<(String, String)>) {
        let mut params: Vec<(String, String)> = Vec::new();
        let kind = match &self.message_type {
            Some(val) => Some(owned(val.wire_name())),
            None => None,
        };
        push_opt(&mut params, "type", kind);
        push_opt(&mut params, "limit", opt_signed(self.limit));
        push_opt(&mut params, "offset", opt_signed(self.offset));
        push_opt(&mut params, "from", opt_time(&self.from));
        push_opt(&mut params, "to", opt_time(&self.to));
        push_opt(&mut params, "deviceId", opt_text(&self.device_id));
        push_opt(&mut params, "includeAttachments", opt_bool(self.include_attachments));
        assert(pair_texts(params@) =~= self.spec_query_params());
        params
    }
}

/// Sort order for message listing.
#[derive(Debug, Clone, Copy, PartialEq, Eq, Structural)]
pub enum MessagesSortOrder {
    CreatedAtAscending,
    CreatedAtDescending,
}

/// The name of a sort order on the wire.
pub open spec fn sort_order_name(o: MessagesSortOrder) -> Seq<char> {
    match o {
        MessagesSortOrder::CreatedAtAscending => "created_at"@,
        MessagesSortOrder::CreatedAtDescending => "-created_at"@,
    }
}

impl MessagesSortOrder {
    /// The name of the sort order on the wire (`created_at`, `-created_at`).
    pub fn wire_name(&self) -> (r: &'static str)
        ensures
            r@ == sort_order_name(*self),
    {
        match self {
            MessagesSortOrder::CreatedAtAscending => "created_at",
            MessagesSortOrder::CreatedAtDescending => "-created_at",
        }
    }
}

/// Options for listing sent messages.
#[derive(Debug, Clone)]
pub struct ListMessagesOptions {
    /// Start of time range.
    pub from: Option<Timestamp>,
    /// End of time range.
    pub to: Option<Timestamp>,
    /// Filter by processing state.
    pub state: Option<String>,
    /// Filter by device ID.
    pub device_id: Option<String>,
    /// Maximum number of results (1-100, default 50).
    pub limit: Option<i32>,
    /// Number of results to skip.
    pub offset: Option<i32>,
    /// Whether to include message content in results.
    pub include_content: Option<bool>,
    /// Sort order.
    pub sort: Option<MessagesSortOrder>,
}

impl Default for ListMessagesOptions {
    fn default() -> (r: Self)
        ensures
            r.from is None,
            r.to is None,
            r.state is None,
            r.device_id is None,
            r.limit is None,
            r.offset is None,
            r.include_content is None,
            r.sort is None,
    {
        ListMessagesOptions {
            from: None,
            to: None,
            state: None,
            device_id: None,
            limit: None,
            offset: None,
            include_content: None,
            sort: None,
        }
    }
}

impl ListMessagesOptions {
    /// Options with nothing set.
    pub fn new() -> (r: Self)
        ensures
            r.from is None,
            r.to is None,
            r.state is None,
            r.device_id is None,
            r.limit is None,
            r.offset is None,
            r.include_content is None,
            r.sort is None,
    {
        ListMessagesOptions::default()
    }

    /// Starts the time range at `val`.
    pub fn with_from(self, val: Timestamp) -> (r: Self)
        ensures
            r == (ListMessagesOptions { from: Some(val), ..self }),
    {
        ListMessagesOptions { from: Some(val), ..self }
    }

    /// Ends the time range at `val`.
    pub fn with_to(self, val: Timestamp) -> (r: Self)
        ensures
            r == (ListMessagesOptions { to: Some(val), ..self }),
    {
        ListMessagesOptions { to: Some(val), ..self }
    }

    /// Filters by processing state.
    pub fn with_state(self, val: &str) -> (r: Self)
        ensures
            r == (ListMessagesOptions { state: r.state, ..self }),
            r.state matches Some(d) && d@ == val@,
    {
        ListMessagesOptions { state: Some(owned(val)), ..self }
    }

    /// Filters by device ID.
    pub fn with_device_id(self, val: &str) -> (r: Self)
        ensures
            r == (ListMessagesOptions { device_id: r.device_id, ..self }),
            r.device_id matches Some(d) && d@ == val@,
    {
        ListMessagesOptions { device_id: Some(owned(val)), ..self }
    }

    /// Limits the number of results.
    pub fn with_limit(self, val: i32) -> (r: Self)
        ensures
            r == (ListMessagesOptions { limit: Some(val), ..self }),
    {
        ListMessagesOptions { limit: Some(val), ..self }
    }

    /// Skips the first `val` results.
    pub fn with_offset(self, val: i32) -> (r: Self)
        ensures
            r == (ListMessagesOptions { offset: Some(val), ..self }),
    {
        ListMessagesOptions { offset: Some(val), ..self }
    }

    /// Whether the results include message content.
    pub fn with_include_content(self, val: bool) -> (r: Self)
        ensures
            r == (ListMessagesOptions { include_content: Some(val), ..self }),
    {
        ListMessagesOptions { include_content: Some(val), ..self }
    }

    /// Sets the sort order.
    pub fn with_sort(self, val: MessagesSortOrder) -> (r: Self)
        ensures
            r == (ListMessagesOptions { sort: Some(val), ..self }),
    {
        ListMessagesOptions { sort: Some(val), ..self }
    }

    /// Checks the filters: `from` not after `to`, `limit` within 1 to 100,
    /// `offset` not negative.
    pub fn validate(&self) -> (r: Result<(), Error>)
        ensures
            reports(r, listing_problem(self.from, self.to, self.limit, self.offset)),
    {
        check_listing(&self.from, &self.to, self.limit, self.offset)
    }
}

impl ToQueryParams for ListMessagesOptions {
    open spec fn spec_query_params(&self) -> Seq<(Seq<char>, Seq<char>)> {
        pair_if(self.from is Some, "from"@, time_text(self.from->0))
            + pair_if(self.to is Some, "to"@, time_text(self.to->0))
            + pair_if(self.state is Some, "state"@, self.state->0@)
            + pair_if(self.device_id is Some, "deviceId"@, self.device_id->0@)
            + pair_if(self.limit is Some, "limit"@, signed_decimal(self.limit->0 as int))
            + pair_if(self.offset is Some, "offset"@, signed_decimal(self.offset->0 as int))
            + pair_if(self.include_content is Some, "includeContent"@,
                bool_text(self.include_content->0))
            + pair_if(self.sort is Some, "sort"@, sort_order_name(self.sort->0))
    }

    fn to_query_params(&self) -> (r: Vec<(String, String)>) {
        let mut params: Vec<(String, String)> = Vec::new();
        push_opt(&mut params, "from", opt_time(&self.from));
        push_opt(&mut params, "to", opt_time(&self.to));
        push_opt(&mut params, "state", opt_text(&self.state));
        push_opt(&mut params, "deviceId", opt_text(&self.device_id));
        push_opt(&mut params, "limit", opt_signed(self.limit));
        push_opt(&mut params, "offset", opt_signed(self.offset));
        push_opt(&mut params, "includeContent", opt_bool(self.include_content));
        let order = match &self.sort {
            Some(val) => Some(owned(val.wire_name())),
            None => None,
        };
        push_opt(&mut params, "sort", order);
        assert(pair_texts(params@) =~= self.spec_query_params());
        params
    }
}

/// `Some(value)` when `present`, otherwise `None`.
pub open spec fn value_if(present: bool, value: Seq<char>) -> Option<Seq<char>> {
    if present {
        Some(value)
    } else {
        None
    }
}

/// The order of the query keys of a message listing.
pub open spec fn list_messages_keys() -> Seq<Seq<char>> {
    seq![
        "from"@,
        "to"@,
        "state"@,
        "deviceId"@,
        "limit"@,
        "offset"@,
        "includeContent"@,
        "sort"@,
    ]
}

/// The query of a message listing: each key carries the value of the field
/// of the same name and is there exactly when that field is set (`limit`
/// the limit, `offset` the offset, and so on), and the keys come in the
/// order from, to, state, deviceId, limit, offset, includeContent, sort,
/// each at most once.
pub proof fn lemma_list_messages_query(o: ListMessagesOptions)
    ensures
        query_value(o.spec_query_params(), "from"@) == value_if(o.from is Some, time_text(o.from->0)),
        query_value(o.spec_query_params(), "to"@) == value_if(o.to is Some, time_text(o.to->0)),
        query_value(o.spec_query_params(), "state"@) == value_if(o.state is Some, o.state->0@),
        query_value(o.spec_query_params(), "deviceId"@) == value_if(
            o.device_id is Some,
            o.device_id->0@,
        ),
        query_value(o.spec_query_params(), "limit"@) == value_if(
            o.limit is Some,
            signed_decimal(o.limit->0 as int),
        ),
        query_value(o.spec_query_params(), "offset"@) == value_if(
            o.offset is Some,
            signed_decimal(o.offset->0 as int),
        ),
        query_value(o.spec_query_params(), "includeContent"@) == value_if(
            o.include_content is Some,
            bool_text(o.include_content->0),
        ),
        query_value(o.spec_query_params(), "sort"@) == value_if(
            o.sort is Some,
            sort_order_name(o.sort->0),
        ),
        keys_ordered_below(o.spec_query_params(), list_messages_keys(), 8),
{
    reveal_strlit("from");
    reveal_strlit("to");
    reveal_strlit("state");
    reveal_strlit("deviceId");
    reveal_strlit("limit");
    reveal_strlit("offset");
    reveal_strlit("includeContent");
    reveal_strlit("sort");
    let p0 = pair_if(o.from is Some, "from"@, time_text(o.from->0));
    let p1 = pair_if(o.to is Some, "to"@, time_text(o.to->0));
    let p2 = pair_if(o.state is Some, "state"@, o.state->0@);
    let p3 = pair_if(o.device_id is Some, "deviceId"@, o.device_id->0@);
    let p4 = pair_if(o.limit is Some, "limit"@, signed_decimal(o.limit->0 as int));
    let p5 = pair_if(o.offset is Some, "offset"@, signed_decimal(o.offset->0 as int));
    let p6 = pair_if(o.include_content is Some, "includeContent"@, bool_text(o.include_content->0));
    let p7 = pair_if(o.sort is Some, "sort"@, sort_order_name(o.sort->0));
    let e = Seq::<(Seq<char>, Seq<char>)>::empty();
    let s1 = e + p0;
    let s2 = s1 + p1;
    let s3 = s2 + p2;
    let s4 = s3 + p3;
    let s5 = s4 + p4;
    let s6 = s5 + p5;
    let s7 = s6 + p6;
    let s8 = s7 + p7;
    assert(s1 =~= p0);
    assert(s8 =~= o.spec_query_params());
    lemma_query_value_pair_if(o.from is Some, "from"@, time_text(o.from->0));
    lemma_query_value_pair_if(o.to is Some, "to"@, time_text(o.to->0));
    lemma_query_value_pair_if(o.state is Some, "state"@, o.state->0@);
    lemma_query_value_pair_if(o.device_id is Some, "deviceId"@, o.device_id->0@);
    lemma_query_value_pair_if(o.limit is Some, "limit"@, signed_decimal(o.limit->0 as int));
    lemma_query_value_pair_if(o.offset is Some, "offset"@, signed_decimal(o.offset->0 as int));
    lemma_query_value_pair_if(
        o.include_content is Some,
        "includeContent"@,
        bool_text(o.include_content->0),
    );
    lemma_query_value_pair_if(o.sort is Some, "sort"@, sort_order_name(o.sort->0));
    lemma_query_value_append(s1, p1);
    lemma_query_value_append(s2, p2);
    lemma_query_value_append(s3, p3);
    lemma_query_value_append(s4, p4);
    lemma_query_value_append(s5, p5);
    lemma_query_value_append(s6, p6);
    lemma_query_value_append(s7, p7);
    let order = list_messages_keys();
    assert(order[0] == "from"@ && order[1] == "to"@ && order[2] == "state"@ && order[3]
        == "deviceId"@ && order[4] == "limit"@ && order[5] == "offset"@ && order[6]
        == "includeContent"@ && order[7] == "sort"@);
    assert("from"@[0] == 'f' && "to"@[0] == 't' && "state"@[0] == 's' && "deviceId"@[0] == 'd'
        && "limit"@[0] == 'l' && "offset"@[0] == 'o' && "includeContent"@[0] == 'i'
        && "sort"@[0] == 's');
    assert("state"@.len() == 5 && "sort"@.len() == 4);
    lemma_key_position(order, "from"@, 0);
    lemma_key_position(order, "to"@, 1);
    lemma_key_position(order, "state"@, 2);
    lemma_key_position(order, "deviceId"@, 3);
    lemma_key_position(order, "limit"@, 4);
    lemma_key_position(order, "offset"@, 5);
    lemma_key_position(order, "includeContent"@, 6);
    lemma_key_position(order, "sort"@, 7);
    lemma_keys_ordered_append(e, o.from is Some, "from"@, time_text(o.from->0), order, 0);
    lemma_keys_ordered_append(s1, o.to is Some, "to"@, time_text(o.to->0), order, 1);
    lemma_keys_ordered_append(s2, o.state is Some, "state"@, o.state->0@, order, 2);
    lemma_keys_ordered_append(s3, o.device_id is Some, "deviceId"@, o.device_id->0@, order, 3);
    lemma_keys_ordered_append(s4, o.limit is Some, "limit"@, signed_decimal(o.limit->0 as int), order, 4);
    lemma_keys_ordered_append(s5, o.offset is Some, "offset"@, signed_decimal(o.offset->0 as int), order, 5);
    lemma_keys_ordered_append(
        s6,
        o.include_content is Some,
        "includeContent"@,
        bool_text(o.include_content->0),
        order,
        6,
    );
    lemma_keys_ordered_append(s7, o.sort is Some, "sort"@, sort_order_name(o.sort->0), order, 7);
}

/// The order of the query keys of an inbox listing.
pub open spec fn list_inbox_keys() -> Seq<Seq<char>> {
    seq![
        "type"@,
        "limit"@,
        "offset"@,
        "from"@,
        "to"@,
        "deviceId"@,
        "includeAttachments"@,
    ]
}

/// The query of an inbox listing: each key carries the value of the field of
/// the same name (`type` the message type) and is there exactly when that
/// field is set, and the keys come in the order type, limit, offset, from,
/// to, deviceId, includeAttachments, each at most once.
pub proof fn lemma_list_inbox_query(o: ListInboxOptions)
    ensures
        query_value(o.spec_query_params(), "type"@) == value_if(o.message_type is Some, message_type_name(o.message_type->0)),
        query_value(o.spec_query_params(), "limit"@) == value_if(o.limit is Some, signed_decimal(o.limit->0 as int)),
        query_value(o.spec_query_params(), "offset"@) == value_if(o.offset is Some, signed_decimal(o.offset->0 as int)),
        query_value(o.spec_query_params(), "from"@) == value_if(o.from is Some, time_text(o.from->0)),
        query_value(o.spec_query_params(), "to"@) == value_if(o.to is Some, time_text(o.to->0)),
        query_value(o.spec_query_params(), "deviceId"@) == value_if(o.device_id is Some, o.device_id->0@),
        query_value(o.spec_query_params(), "includeAttachments"@) == value_if(o.include_attachments is Some, bool_text(o.include_attachments->0)),
        keys_ordered_below(o.spec_query_params(), list_inbox_keys(), 7),
{
    reveal_strlit("type");
    reveal_strlit("limit");
    reveal_strlit("offset");
    reveal_strlit("from");
    reveal_strlit("to");
    reveal_strlit("deviceId");
    reveal_strlit("includeAttachments");
    let e = Seq::<(Seq<char>, Seq<char>)>::empty();
    let p0 = pair_if(o.message_type is Some, "type"@, message_type_name(o.message_type->0));
    lemma_query_value_pair_if(o.message_type is Some, "type"@, message_type_name(o.message_type->0));
    let p1 = pair_if(o.limit is Some, "limit"@, signed_decimal(o.limit->0 as int));
    lemma_query_value_pair_if(o.limit is Some, "limit"@, signed_decimal(o.limit->0 as int));
    let p2 = pair_if(o.offset is Some, "offset"@, signed_decimal(o.offset->0 as int));
    lemma_query_value_pair_if(o.offset is Some, "offset"@, signed_decimal(o.offset->0 as int));
    let p3 = pair_if(o.from is Some, "from"@, time_text(o.from->0));
    lemma_query_value_pair_if(o.from is Some, "from"@, time_text(o.from->0));
    let p4 = pair_if(o.to is Some, "to"@, time_text(o.to->0));
    lemma_query_value_pair_if(o.to is Some, "to"@, time_text(o.to->0));
    let p5 = pair_if(o.device_id is Some, "deviceId"@, o.device_id->0@);
    lemma_query_value_pair_if(o.device_id is Some, "deviceId"@, o.device_id->0@);
    let p6 = pair_if(o.include_attachments is Some, "includeAttachments"@, bool_text(o.include_attachments->0));
    lemma_query_value_pair_if(o.include_attachments is Some, "includeAttachments"@, bool_text(o.include_attachments->0));
    let s0 = e;
    let s1 = s0 + p0;
    let s2 = s1 + p1;
    let s3 = s2 + p2;
    let s4 = s3 + p3;
    let s5 = s4 + p4;
    let s6 = s5 + p5;
    let s7 = s6 + p6;
    assert(s1 =~= p0);
    assert(s7 =~= o.spec_query_params());
    lemma_query_value_append(s1, p1);
    lemma_query_value_append(s2, p2);
    lemma_query_value_append(s3, p3);
    lemma_query_value_append(s4, p4);
    lemma_query_value_append(s5, p5);
    lemma_query_value_append(s6, p6);
    let order = list_inbox_keys();
    assert(order[0] == "type"@ && order[1] == "limit"@ && order[2] == "offset"@ && order[3] == "from"@ && order[4] == "to"@ && order[5] == "deviceId"@ && order[6] == "includeAttachments"@);
    assert("type"@[0] == 't' && "limit"@[0] == 'l' && "offset"@[0] == 'o' && "from"@[0] == 'f' && "to"@[0] == 't' && "deviceId"@[0] == 'd' && "includeAttachments"@[0] == 'i');
    assert("type"@.len() == 4 && "limit"@.len() == 5 && "offset"@.len() == 6 && "from"@.len() == 4 && "to"@.len() == 2 && "deviceId"@.len() == 8 && "includeAttachments"@.len() == 18);
    lemma_key_position(order, "type"@, 0);
    lemma_key_position(order, "limit"@, 1);
    lemma_key_position(order, "offset"@, 2);
    lemma_key_position(order, "from"@, 3);
    lemma_key_position(order, "to"@, 4);
    lemma_key_position(order, "deviceId"@, 5);
    lemma_key_position(order, "includeAttachments"@, 6);
    lemma_keys_ordered_append(s0, o.message_type is Some, "type"@, message_type_name(o.message_type->0), order, 0);
    lemma_keys_ordered_append(s1, o.limit is Some, "limit"@, signed_decimal(o.limit->0 as int), order, 1);
    lemma_keys_ordered_append(s2, o.offset is Some, "offset"@, signed_decimal(o.offset->0 as int), order, 2);
    lemma_keys_ordered_append(s3, o.from is Some, "from"@, time_text(o.from->0), order, 3);
    lemma_keys_ordered_append(s4, o.to is Some, "to"@, time_text(o.to->0), order, 4);
    lemma_keys_ordered_append(s5, o.device_id is Some, "deviceId"@, o.device_id->0@, order, 5);
    lemma_keys_ordered_append(s6, o.include_attachments is Some, "includeAttachments"@, bool_text(o.include_attachments->0), order, 6);
}

/// The order of the query keys of the send options.
pub open spec fn send_options_keys() -> Seq<Seq<char>> {
    seq![
        "skipPhoneValidation"@,
        "deviceActiveWithin"@,
    ]
}

/// The query of the send options: `skipPhoneValidation` carries the
/// skip-validation flag and `deviceActiveWithin` the number of hours, each
/// there exactly when its field is set, in that order.
pub proof fn lemma_send_options_query(o: SendOptions)
    ensures
        query_value(o.spec_query_params(), "skipPhoneValidation"@) == value_if(o.skip_phone_validation is Some, bool_text(o.skip_phone_validation->0)),
        query_value(o.spec_query_params(), "deviceActiveWithin"@) == value_if(o.device_active_within is Some, decimal(o.device_active_within->0 as nat)),
        keys_ordered_below(o.spec_query_params(), send_options_keys(), 2),
{
    reveal_strlit("skipPhoneValidation");
    reveal_strlit("deviceActiveWithin");
    let e = Seq::<(Seq<char>, Seq<char>)>::empty();
    let p0 = pair_if(o.skip_phone_validation is Some, "skipPhoneValidation"@, bool_text(o.skip_phone_validation->0));
    lemma_query_value_pair_if(o.skip_phone_validation is Some, "skipPhoneValidation"@, bool_text(o.skip_phone_validation->0));
    let p1 = pair_if(o.device_active_within is Some, "deviceActiveWithin"@, decimal(o.device_active_within->0 as nat));
    lemma_query_value_pair_if(o.device_active_within is Some, "deviceActiveWithin"@, decimal(o.device_active_within->0 as nat));
    let s0 = e;
    let s1 = s0 + p0;
    let s2 = s1 + p1;
    assert(s1 =~= p0);
    assert(s2 =~= o.spec_query_params());
    lemma_query_value_append(s1, p1);
    let order = send_options_keys();
    assert(order[0] == "skipPhoneValidation"@ && order[1] == "deviceActiveWithin"@);
    assert("skipPhoneValidation"@[0] == 's' && "deviceActiveWithin"@[0] == 'd');
    assert("skipPhoneValidation"@.len() == 19 && "deviceActiveWithin"@.len() == 18);
    lemma_key_position(order, "skipPhoneValidation"@, 0);
    lemma_key_position(order, "deviceActiveWithin"@, 1);
    lemma_keys_ordered_append(s0, o.skip_phone_validation is Some, "skipPhoneValidation"@, bool_text(o.skip_phone_validation->0), order, 0);
    lemma_keys_ordered_append(s1, o.device_active_within is Some, "deviceActiveWithin"@, decimal(o.device_active_within->0 as nat), order, 1);
}

} // verus!
