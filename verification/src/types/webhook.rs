//! Webhook registrations and the payloads that webhooks deliver.

use vstd::prelude::*;
use vstd::string::*;
use crate::error::{fails_validation, Error};
use crate::text::{owned, same_text};
use super::time::Timestamp;

verus! {

/// A webhook event type: a string, with the predefined event names as constants.
#[derive(Debug, Clone, PartialEq, Eq)]
pub struct WebhookEvent(pub String);

impl WebhookEvent {
    pub const SMS_RECEIVED: &'static str = "sms:received";
    pub const SMS_DATA_RECEIVED: &'static str = "sms:data-received";
    pub const SMS_SENT: &'static str = "sms:sent";
    pub const SMS_DELIVERED: &'static str = "sms:delivered";
    pub const SMS_FAILED: &'static str = "sms:failed";
    pub const SMS_CANCELLED: &'static str = "sms:cancelled";
    pub const SYSTEM_PING: &'static str = "system:ping";
    pub const MMS_RECEIVED: &'static str = "mms:received";
    pub const MMS_DOWNLOADED: &'static str = "mms:downloaded";
    pub const APP_STARTED: &'static str = "app:started";
    pub const SMS_BATCH_RECEIVED: &'static str = "sms:batch:received";
    pub const SMS_BATCH_DATA_RECEIVED: &'static str = "sms:batch:data-received";
    pub const MMS_BATCH_RECEIVED: &'static str = "mms:batch:received";
    pub const MMS_BATCH_DOWNLOADED: &'static str = "mms:batch:downloaded";

    /// Creates a new webhook event type.
    pub fn new(s: &str) -> (r: Self)
        ensures
            r.0@ == s@,
    {
        WebhookEvent(owned(s))
    }

    /// Returns the event type as a string slice.
    pub fn as_str(&self) -> (r: &str)
        ensures
            r@ == self.0@,
    {
        self.0.as_str()
    }
}

/// All valid webhook event type strings.
pub const WEBHOOK_EVENT_TYPES: [&'static str; 14] = [
    WebhookEvent::SMS_RECEIVED,
    WebhookEvent::SMS_DATA_RECEIVED,
    WebhookEvent::SMS_SENT,
    WebhookEvent::SMS_DELIVERED,
    WebhookEvent::SMS_FAILED,
    WebhookEvent::SMS_CANCELLED,
    WebhookEvent::SYSTEM_PING,
    WebhookEvent::MMS_RECEIVED,
    WebhookEvent::MMS_DOWNLOADED,
    WebhookEvent::APP_STARTED,
    WebhookEvent::SMS_BATCH_RECEIVED,
    WebhookEvent::SMS_BATCH_DATA_RECEIVED,
    WebhookEvent::MMS_BATCH_RECEIVED,
    WebhookEvent::MMS_BATCH_DOWNLOADED,
];

/// Whether `e` is one of the valid webhook event type strings.
pub open spec fn valid_event(e: Seq<char>) -> bool {
    exists|i: int| 0 <= i < 14 && #[trigger] WEBHOOK_EVENT_TYPES@[i]@ == e
}

/// Returns `true` if the string is a valid webhook event type.
pub fn is_valid_webhook_event(e: &str) -> (r: bool)
    ensures
        r == valid_event(e@),
{
    let mut i: usize = 0;
    while i < 14
        invariant
            i <= 14,
            forall|j: int| 0 <= j < i ==> #[trigger] WEBHOOK_EVENT_TYPES@[j]@ != e@,
        decreases 14 - i,
    {
        if same_text(WEBHOOK_EVENT_TYPES[i], e) {
            return true;
        }
        i = i + 1;
    }
    false
}

/// The text that `str::to_lowercase` gives for `s`.
pub uninterp spec fn lowercase_text(s: Seq<char>) -> Seq<char>;

/// `str::to_lowercase`: the Unicode lowercase of `s`.
#[verifier::external_body]
fn to_lowercase(s: &str) -> (r: String)
    ensures
        r@ == lowercase_text(s@),
{
    s.to_lowercase()
}

/// What `url::Url::parse` makes of `s`: `None` when it rejects the text,
/// otherwise the parsed URL's `host_str`.
pub uninterp spec fn url_host(s: Seq<char>) -> Option<Option<Seq<char>>>;

/// Parses `s` with `url::Url::parse` and reads the host of the result.
#[verifier::external_body]
fn parse_url_host(s: &str) -> (r: Option<Option<String>>)
    ensures
        match r {
            None => url_host(s@) is None,
            Some(None) => url_host(s@) == Some(None::<Seq<char>>),
            Some(Some(h)) => url_host(s@) == Some(Some(h@)),
        },
{
    match url::Url::parse(s) {
        Ok(u) => match u.host_str() {
            Some(h) => Some(Some(h.to_string())),
            None => Some(None),
        },
        Err(_) => None,
    }
}

/// Whether `s` begins with `p`.
pub fn starts_with_text(s: &str, p: &str) -> (r: bool)
    ensures
        r == (p@.len() <= s@.len() && s@.take(p@.len() as int) == p@),
{
    let a = crate::text::chars_of(s);
    let b = crate::text::chars_of(p);
    if b.len() > a.len() {
        return false;
    }
    let mut i: usize = 0;
    while i < b.len()
        invariant
            a@ == s@,
            b@ == p@,
            b@.len() <= a@.len(),
            i <= b@.len(),
            forall|j: int| 0 <= j < i ==> a@[j] == b@[j],
        decreases b.len() - i,
    {
        if a[i] != b[i] {
            assert(s@.take(p@.len() as int)[i as int] != p@[i as int]);
            return false;
        }
        i = i + 1;
    }
    assert(s@.take(p@.len() as int) =~= p@);
    true
}

/// A webhook registration.
#[derive(Debug, Clone)]
pub struct Webhook {
    /// Webhook ID (generated if not provided).
    pub id: Option<String>,
    /// Optional device ID to associate with this webhook.
    pub device_id: Option<String>,
    /// The URL to send webhook requests to (must be HTTPS).
    pub url: String,
    /// The event type that triggers this webhook.
    pub event: WebhookEvent,
}

/// Whether the lowercase of `url` begins with `https://`.
pub open spec fn https_scheme(url: Seq<char>) -> bool {
    let l = lowercase_text(url);
    "https://"@.len() <= l.len() && l.take("https://"@.len() as int) == "https://"@
}

/// Whether `url` parses and names a non-empty host.
pub open spec fn has_host(url: Seq<char>) -> bool {
    url_host(url) matches Some(Some(h)) && h.len() > 0
}

impl Webhook {
    /// Validates the webhook configuration.
    ///
    /// Checks that the event type is valid, that the URL uses HTTPS, parses,
    /// and names a non-empty host.
    pub fn validate(&self) -> (r: Result<(), Error>)
        ensures
            !valid_event(self.event.0@) ==> fails_validation(r, "invalid event type"@),
            valid_event(self.event.0@) && !https_scheme(self.url@) ==> fails_validation(
                r,
                "url must start with https://"@,
            ),
            valid_event(self.event.0@) && https_scheme(self.url@) && url_host(self.url@) is None
                ==> fails_validation(r, "invalid url"@),
            valid_event(self.event.0@) && https_scheme(self.url@) && url_host(self.url@) is Some
                && !has_host(self.url@) ==> fails_validation(r, "url must have a valid host"@),
            r is Ok <==> valid_event(self.event.0@) && https_scheme(self.url@) && has_host(
                self.url@,
            ),
    {
        if !is_valid_webhook_event(self.event.as_str()) {
            return Err(Error::Validation(String::from_str("invalid event type")));
        }
        let lower = to_lowercase(self.url.as_str());
        if !starts_with_text(lower.as_str(), "https://") {
            return Err(Error::Validation(String::from_str("url must start with https://")));
        }
        match parse_url_host(self.url.as_str()) {
            None => Err(Error::Validation(String::from_str("invalid url"))),
            Some(None) => Err(Error::Validation(String::from_str("url must have a valid host"))),
            Some(Some(h)) => {
                if h.as_str().unicode_len() == 0 {
                    Err(Error::Validation(String::from_str("url must have a valid host")))
                } else {
                    Ok(())
                }
            },
        }
    }
}

/// Base fields present on all message-related webhook payloads.
#[derive(Debug, Clone)]
pub struct SmsEventPayload {
    /// The unique identifier of the message.
    pub message_id: String,
    /// The phone number of the sender (incoming) or recipient (outgoing).
    pub phone_number: String,
    /// The phone number of the message sender.
    pub sender: String,
    /// The phone number of the message recipient.
    pub recipient: Option<String>,
    /// The SIM card number that sent or received the message.
    pub sim_number: Option<u8>,
}

/// Payload of an `sms:received` event.
#[derive(Debug, Clone)]
pub struct SmsReceivedPayload {
    pub base: SmsEventPayload,
    /// The content of the SMS message received.
    pub message: String,
    /// The timestamp when the SMS message was received.
    pub received_at: Timestamp,
}

/// Payload of an `sms:sent` event.
#[derive(Debug, Clone)]
pub struct SmsSentPayload {
    pub base: SmsEventPayload,
    /// The timestamp when the SMS message was sent.
    pub sent_at: Timestamp,
}

/// Payload of an `sms:delivered` event.
#[derive(Debug, Clone)]
pub struct SmsDeliveredPayload {
    pub base: SmsEventPayload,
    /// The timestamp when the SMS message was delivered.
    pub delivered_at: Timestamp,
}

/// Payload of an `sms:cancelled` event.
#[derive(Debug, Clone)]
pub struct SmsCancelledPayload {
    pub base: SmsEventPayload,
    /// The timestamp when the SMS message was cancelled.
    pub cancelled_at: Timestamp,
}

/// Payload of an `sms:failed` event.
#[derive(Debug, Clone)]
pub struct SmsFailedPayload {
    pub base: SmsEventPayload,
    /// The timestamp when the SMS message failed.
    pub failed_at: Timestamp,
    /// The reason for the failure.
    pub reason: String,
}

/// Payload of an `sms:data-received` event.
#[derive(Debug, Clone)]
pub struct SmsDataReceivedPayload {
    pub base: SmsEventPayload,
    /// Base64-encoded content of the data SMS received.
    pub data: String,
    /// The timestamp when the data SMS was received.
    pub received_at: Timestamp,
}

/// Payload of an `mms:received` event (MMS notification, not yet downloaded).
#[derive(Debug, Clone)]
pub struct MmsReceivedPayload {
    pub base: SmsEventPayload,
    /// Unique MMS transaction identifier.
    pub transaction_id: String,
    /// Message subject line.
    pub subject: Option<String>,
    /// MMS content classification.
    pub content_class: String,
    /// Attachment size in bytes.
    pub size: i64,
    /// The timestamp when the MMS message was received.
    pub received_at: Timestamp,
}

/// Metadata for a non-text MMS part (attachment).
#[derive(Debug, Clone)]
pub struct MmsDownloadedAttachment {
    /// The `_id` from `content://mms/part`.
    pub part_id: i32,
    /// MIME type of the attachment (e.g. `image/jpeg`).
    pub content_type: String,
    /// Filename of the attachment, if present.
    pub name: Option<String>,
    /// Base64-encoded attachment data, if available.
    pub data: Option<String>,
    /// Size in bytes, if known.
    pub size: Option<i64>,
}

/// Payload of an `mms:downloaded` event (fully downloaded MMS with attachments).
#[derive(Debug, Clone)]
pub struct MmsDownloadedPayload {
    pub base: SmsEventPayload,
    /// Message subject line.
    pub subject: Option<String>,
    /// Aggregated text content of the MMS message.
    pub body: Option<String>,
    /// Metadata for non-text MMS parts, including optional Base64 content.
    pub attachments: Vec<MmsDownloadedAttachment>,
    /// The timestamp when the MMS message was received.
    pub received_at: Timestamp,
}

/// Payload of an `sms:batch:received` event.
#[derive(Debug, Clone)]
pub struct SmsBatchReceivedPayload {
    /// The ordered list of received SMS messages.
    pub messages: Vec<SmsReceivedPayload>,
}

/// Payload of an `sms:batch:data-received` event.
#[derive(Debug, Clone)]
pub struct SmsBatchDataReceivedPayload {
    /// The ordered list of received data SMS messages.
    pub messages: Vec<SmsDataReceivedPayload>,
}

/// Payload of an `mms:batch:received` event.
#[derive(Debug, Clone)]
pub struct MmsBatchReceivedPayload {
    /// The ordered list of received MMS messages.
    pub messages: Vec<MmsReceivedPayload>,
}

/// Payload of an `mms:batch:downloaded` event.
#[derive(Debug, Clone)]
pub struct MmsBatchDownloadedPayload {
    /// The ordered list of downloaded MMS messages.
    pub messages: Vec<MmsDownloadedPayload>,
}

} // verus!
