//! Verification of the HMAC-SHA256 signatures that webhook requests carry.

use vstd::prelude::*;
use vstd::utf8::encode_utf8;
use hmac::{Hmac, Mac};
use sha2::Sha256;
use crate::encoding::bytes_view;
use crate::text::unsigned_value;
use crate::types::time::{duration_secs, since_unix_epoch, system_time_now};

verus! {

/// The HMAC-SHA256 tag of `message` under `key`.
pub uninterp spec fn hmac_sha256(key: Seq<u8>, message: Seq<u8>) -> Seq<u8>;

/// Computes HMAC-SHA256 of `message` under `key` (`hmac::Hmac<Sha256>`) and
/// checks it against `tag` with `Mac::verify_slice`, which rejects a tag whose
/// length is not the 32-byte output size and compares the rest in constant
/// time. So a tag that is accepted has SHA-256's 32-byte output size.
#[verifier::external_body]
fn hmac_sha256_matches(key: &[u8], message: &[u8], tag: &[u8]) -> (r: bool)
    ensures
        r == (tag@ == hmac_sha256(key@, message@)),
        r ==> tag@.len() == 32,
{
    match Hmac::<Sha256>::new_from_slice(key) {
        Ok(mut mac) => {
            mac.update(message);
            mac.verify_slice(tag).is_ok()
        },
        Err(_) => false,
    }
}

/// The value of a hexadecimal digit byte (either case), if it is one.
pub open spec fn hex_value(b: u8) -> Option<u8> {
    if 48 <= b <= 57 {
        Some((b - 48) as u8)
    } else if 65 <= b <= 70 {
        Some((b - 55) as u8)
    } else if 97 <= b <= 102 {
        Some((b - 87) as u8)
    } else {
        None
    }
}

/// The bytes a hexadecimal text denotes, as `hex::decode` reads them: an even
/// number of hex digits, two per byte, high digit first; `None` otherwise.
pub open spec fn hex_bytes(text: Seq<u8>) -> Option<Seq<u8>>
    decreases text.len(),
{
    if text.len() == 0 {
        Some(Seq::empty())
    } else if text.len() < 2 {
        None
    } else {
        match (hex_bytes(text.drop_last().drop_last()), hex_value(text[text.len() - 2]), hex_value(
            text.last(),
        )) {
            (Some(prefix), Some(hi), Some(lo)) => Some(prefix.push((hi * 16 + lo) as u8)),
            _ => None,
        }
    }
}

/// Hex text decodes to half as many bytes as it has digits.
proof fn lemma_hex_bytes_len(text: Seq<u8>)
    ensures
        hex_bytes(text) matches Some(b) ==> b.len() * 2 == text.len(),
    decreases text.len(),
{
    if text.len() >= 2 {
        lemma_hex_bytes_len(text.drop_last().drop_last());
    }
}

/// Decodes hexadecimal text (`hex::decode`); `None` where it reports an error.
#[verifier::external_body]
fn hex_decode(text: &str) -> (r: Option<Vec<u8>>)
    ensures
        bytes_view(r) == hex_bytes(encode_utf8(text@)),
{
    match hex::decode(text) {
        Ok(v) => Some(v),
        Err(_) => None,
    }
}

/// The bytes that are signed: the request body followed by the timestamp text.
pub open spec fn signed_bytes(body: Seq<char>, timestamp: Seq<char>) -> Seq<u8> {
    encode_utf8(body) + encode_utf8(timestamp)
}

/// Whether `signature` is the hex text of the HMAC-SHA256 tag, under the
/// UTF-8 bytes of `secret_key`, of the body followed by the timestamp.
pub open spec fn signature_matches(
    secret_key: Seq<char>,
    body: Seq<char>,
    timestamp: Seq<char>,
    signature: Seq<char>,
) -> bool {
    hex_bytes(encode_utf8(signature)) == Some(
        hmac_sha256(encode_utf8(secret_key), signed_bytes(body, timestamp)),
    )
}

/// Whether the timestamp text is an unsigned decimal that fits in 64 bits and
/// lies within `max_age` seconds of `now`, on either side.
pub open spec fn timestamp_fresh(timestamp: Seq<char>, max_age: u64, now: u64) -> bool {
    match unsigned_value(timestamp) {
        Some(ts) => ts <= u64::MAX && (now - ts <= max_age) && (ts - now <= max_age),
        None => false,
    }
}

/// Whether a webhook request is authentic at the instant `now`: when a
/// maximum age is given, the timestamp must be fresh; and the signature must
/// match.
pub open spec fn signature_valid_at(
    secret_key: Seq<char>,
    body: Seq<char>,
    timestamp: Seq<char>,
    signature: Seq<char>,
    max_age_secs: Option<u64>,
    now: u64,
) -> bool {
    &&& max_age_secs matches Some(max) ==> timestamp_fresh(timestamp, max, now)
    &&& signature_matches(secret_key, body, timestamp, signature)
}

/// Verifies an HMAC-SHA256 webhook signature at the instant `now` (seconds
/// since the Unix epoch).
///
/// The signed bytes are the raw request body followed by the `X-Timestamp`
/// value; the tag is computed under `secret_key` and compared, in constant
/// time, with the hex-encoded `X-Signature` value. When `max_age_secs` is
/// given, a timestamp more than that many seconds away from `now` is rejected.
pub fn verify_signature_at(
    secret_key: &str,
    body: &str,
    timestamp: &str,
    signature: &str,
    max_age_secs: Option<u64>,
    now: u64,
) -> (r: bool)
    ensures
        r == signature_valid_at(secret_key@, body@, timestamp@, signature@, max_age_secs, now),
        encode_utf8(signature@).len() != 64 ==> !r,
{
    if let Some(max_age) = max_age_secs {
        let ts = match crate::text::parse_unsigned(timestamp, u64::MAX) {
            Some(v) => v,
            None => {
                return false;
            },
        };
        if now > ts && now - ts > max_age {
            return false;
        }
        if ts > now && ts - now > max_age {
            return false;
        }
    }
    let b = body.as_bytes();
    let t = timestamp.as_bytes();
    let mut message: Vec<u8> = Vec::new();
    let mut i: usize = 0;
    while i < b.len()
        invariant
            i <= b@.len(),
            message@ =~= b@.take(i as int),
        decreases b.len() - i,
    {
        message.push(b[i]);
        i = i + 1;
        assert(message@ =~= b@.take(i as int));
    }
    assert(b@.take(b@.len() as int) =~= b@);
    let mut j: usize = 0;
    while j < t.len()
        invariant
            j <= t@.len(),
            message@ =~= b@ + t@.take(j as int),
        decreases t.len() - j,
    {
        message.push(t[j]);
        j = j + 1;
        assert(message@ =~= b@ + t@.take(j as int));
    }
    assert(t@.take(t@.len() as int) =~= t@);
    match hex_decode(signature) {
        Some(tag) => {
            let r = hmac_sha256_matches(secret_key.as_bytes(), message.as_slice(), tag.as_slice());
            proof {
                lemma_hex_bytes_len(encode_utf8(signature@));
            }
            r
        },
        None => false,
    }
}

/// Verifies an HMAC-SHA256 webhook signature against the current time.
///
/// Use this to check that an incoming webhook request was sent by the
/// SMSGate device: `body` is the raw request body, `timestamp` the
/// `X-Timestamp` header value (Unix epoch seconds) and `signature` the
/// hex-encoded `X-Signature` header value. When `max_age_secs` is given,
/// timestamps further than that from the current time are rejected.
pub fn verify_signature(
    secret_key: &str,
    body: &str,
    timestamp: &str,
    signature: &str,
    max_age_secs: Option<u64>,
) -> (r: bool)
    ensures
        max_age_secs is None ==> r == signature_matches(
            secret_key@,
            body@,
            timestamp@,
            signature@,
        ),
        r ==> signature_matches(secret_key@, body@, timestamp@, signature@),
        r && max_age_secs is Some ==> exists|now: u64|
            timestamp_fresh(timestamp@, max_age_secs->0, now),
        exists|now: u64|
            r == signature_valid_at(
                secret_key@,
                body@,
                timestamp@,
                signature@,
                max_age_secs,
                now,
            ),
        encode_utf8(signature@).len() != 64 ==> !r,
{
    // Seconds since the epoch as the system clock reads them, 0 for a
    // reading before the epoch; the clock is read only when it matters.
    let now: u64 = match max_age_secs {
        Some(_) => {
            let t = system_time_now();
            match since_unix_epoch(&t) {
                Ok(d) => duration_secs(&d),
                Err(_) => 0,
            }
        },
        None => 0,
    };
    verify_signature_at(secret_key, body, timestamp, signature, max_age_secs, now)
}

} // verus!
