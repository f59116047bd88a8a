//! Outgoing messages and their delivery state.

use vstd::prelude::*;
use vstd::string::*;
use crate::error::{fails_conflict, fails_validation, is_validation, Error};
use crate::text::{append, same_text, texts};
use crate::text_map::TextMap;
use super::time::{clock_nanos, clock_secs, is_clock_instant, later, Timestamp};

verus! {

/// The processing state of a message.
#[derive(Debug, Clone, Copy, PartialEq, Eq, Structural)]
pub enum ProcessingState {
    Pending,
    Cancelling,
    Cancelled,
    Processed,
    Sent,
    Delivered,
    Failed,
}

/// Message priority value. Messages with priority > 99 bypass limits and delays.
pub type MessagePriority = i8;

/// Minimum priority value.
pub const PRIORITY_MINIMUM: MessagePriority = -128;

/// Default priority value.
pub const PRIORITY_DEFAULT: MessagePriority = 0;

/// Threshold at which messages bypass limits and delays.
pub const PRIORITY_BYPASS_THRESHOLD: MessagePriority = 100;

/// Maximum priority value.
pub const PRIORITY_MAXIMUM: MessagePriority = 127;

/// A text message payload.
#[derive(Debug, Clone)]
pub struct TextMessage {
    /// The message text content.
    pub text: String,
}

/// A binary data message payload.
#[derive(Debug, Clone)]
pub struct DataMessage {
    /// Base64-encoded binary data.
    pub data: String,
    /// The destination port number.
    pub port: u16,
}

/// An attachment of an outgoing MMS.
#[derive(Debug, Clone)]
pub struct MmsAttachment {
    /// MIME type of the attachment (e.g. `image/jpeg`).
    pub content_type: String,
    /// File name of the attachment, if any.
    pub name: Option<String>,
    /// Base64-encoded content of the attachment.
    pub data: String,
}

/// An MMS message payload: an optional subject and text, and attachments.
#[derive(Debug, Clone)]
pub struct MmsMessage {
    /// Subject line.
    pub subject: Option<String>,
    /// Text content.
    pub text: Option<String>,
    /// Base64-encoded attachments.
    pub attachments: Vec<MmsAttachment>,
}

/// A reference to a hashed message (content not included for privacy).
#[derive(Debug, Clone)]
pub struct HashedMessage {
    /// SHA256 hash of the message content.
    pub hash: String,
}

/// An SMS message to be sent.
///
/// Exactly one of `message`, `text_message`, `data_message`, or
/// `mms_message` must be set.
#[derive(Debug, Clone)]
pub struct Message {
    /// Optional message ID (generated if not provided).
    pub id: Option<String>,
    /// Optional device ID for explicit device selection.
    pub device_id: Option<String>,
    /// Deprecated: use `text_message` instead.
    pub message: Option<String>,
    /// Text message payload.
    pub text_message: Option<TextMessage>,
    /// Data message payload.
    pub data_message: Option<DataMessage>,
    /// MMS message payload.
    pub mms_message: Option<MmsMessage>,
    /// List of recipient phone numbers.
    pub phone_numbers: Vec<String>,
    /// Whether the message content is encrypted.
    pub is_encrypted: bool,
    /// SIM card number to use (1-3). Uses default SIM if not set.
    pub sim_number: Option<u8>,
    /// Whether to request a delivery report.
    pub with_delivery_report: Option<bool>,
    /// Message priority. Values > 99 bypass limits and delays.
    pub priority: MessagePriority,
    /// Time-to-live in seconds (conflicts with `valid_until`).
    pub ttl: Option<u64>,
    /// Time until the message is valid (conflicts with `ttl`).
    pub valid_until: Option<Timestamp>,
    /// Schedule message delivery at this time (must be in the future).
    pub schedule_at: Option<Timestamp>,
}

/// The message of the error for an MMS with neither text nor attachments.
pub open spec fn empty_mms_text() -> Seq<char> {
    "mmsMessage must contain text or at least one attachment"@
}

/// Whether an MMS carries non-empty text or at least one attachment.
pub open spec fn mms_has_content(x: MmsMessage) -> bool {
    (x.text matches Some(t) && t@.len() > 0) || x.attachments@.len() > 0
}

/// Whether the message's MMS payload, if it has one, carries content.
pub open spec fn mms_ok(m: Message) -> bool {
    m.mms_message matches Some(x) ==> mms_has_content(x)
}

/// The message a `Message` sends when it names no content, or more than one.
pub open spec fn one_content_text() -> Seq<char> {
    "must specify exactly one of: textMessage or dataMessage"@
}

/// Whether the deprecated `message` field holds non-empty text.
pub open spec fn has_legacy_text(m: Message) -> bool {
    m.message matches Some(s) && s@.len() > 0
}

/// How many kinds of content the message carries.
pub open spec fn content_count(m: Message) -> nat {
    (if has_legacy_text(m) {
        1nat
    } else {
        0nat
    }) + (if m.text_message is Some {
        1nat
    } else {
        0nat
    }) + (if m.data_message is Some {
        1nat
    } else {
        0nat
    }) + (if m.mms_message is Some {
        1nat
    } else {
        0nat
    })
}

/// Whether the message is scheduled at a time that is not after `now`.
pub open spec fn scheduled_in_past(m: Message, now: Timestamp) -> bool {
    m.schedule_at matches Some(at) && !later(at, now)
}

/// Whether a message passes validation at the instant `now`.
pub open spec fn message_valid_at(m: Message, now: Timestamp) -> bool {
    &&& content_count(m) == 1
    &&& mms_ok(m)
    &&& !(m.ttl is Some && m.valid_until is Some)
    &&& !scheduled_in_past(m, now)
}

/// A message with one content kind, an acceptable MMS and not both `ttl` and
/// `valid_until` is valid at `now` exactly when it has no schedule or its
/// schedule comes strictly after `now`; a schedule at or before `now` is the
/// only thing then rejected.
pub proof fn lemma_schedule_law(m: Message, now: Timestamp)
    requires
        content_count(m) == 1,
        mms_ok(m),
        !(m.ttl is Some && m.valid_until is Some),
    ensures
        message_valid_at(m, now) <==> (m.schedule_at is None || later(m.schedule_at->0, now)),
        !message_valid_at(m, now) <==> (m.schedule_at is Some && !later(m.schedule_at->0, now)),
{
}

impl Default for Message {
    fn default() -> (r: Self)
        ensures
            r.id is None,
            r.device_id is None,
            r.message is None,
            r.text_message is None,
            r.data_message is None,
            r.mms_message is None,
            r.phone_numbers@.len() == 0,
            !r.is_encrypted,
            r.sim_number is None,
            r.with_delivery_report is None,
            r.priority == 0,
            r.ttl is None,
            r.valid_until is None,
            r.schedule_at is None,
    {
        Message {
            id: None,
            device_id: None,
            message: None,
            text_message: None,
            data_message: None,
            mms_message: None,
            phone_numbers: Vec::new(),
            is_encrypted: false,
            sim_number: None,
            with_delivery_report: None,
            priority: PRIORITY_DEFAULT,
            ttl: None,
            valid_until: None,
            schedule_at: None,
        }
    }
}

impl Message {
    /// Returns the text message content, either from `text_message` or
    /// the deprecated `message` field.
    pub fn get_text_message(&self) -> (r: Option<TextMessage>)
        ensures
            self.text_message matches Some(tm) ==> (r matches Some(t) && t.text@ == tm.text@),
            self.text_message is None && has_legacy_text(*self) ==> (r matches Some(t) && t.text@
                == self.message->0@),
            self.text_message is None && !has_legacy_text(*self) ==> r is None,
    {
        if let Some(tm) = &self.text_message {
            return Some(TextMessage { text: tm.text.clone() });
        }
        match &self.message {
            Some(m) => {
                if m.as_str().unicode_len() > 0 {
                    Some(TextMessage { text: m.clone() })
                } else {
                    None
                }
            },
            None => None,
        }
    }

    /// Returns the data message payload, if set.
    pub fn get_data_message(&self) -> (r: Option<&DataMessage>)
        ensures
            r matches Some(d) ==> self.data_message == Some(*d),
            r is None <==> self.data_message is None,
    {
        match &self.data_message {
            Some(d) => Some(d),
            None => None,
        }
    }

    /// Validates the message structure at the instant `now`: exactly one
    /// content type, an MMS with text or an attachment, not both `ttl` and
    /// `valid_until`, and a `schedule_at` after `now`.
    pub fn validate_at(&self, now: &Timestamp) -> (r: Result<(), Error>)
        ensures
            r is Ok <==> message_valid_at(*self, *now),
            content_count(*self) == 0 ==> fails_validation(r, one_content_text()),
            content_count(*self) > 1 ==> fails_conflict(r, one_content_text()),
            content_count(*self) == 1 && !mms_ok(*self) ==> fails_validation(r, empty_mms_text()),
            content_count(*self) == 1 && mms_ok(*self) && self.ttl is Some
                && self.valid_until is Some ==> fails_conflict(r, "ttl and validUntil"@),
            content_count(*self) == 1 && mms_ok(*self) && !(self.ttl is Some
                && self.valid_until is Some) && scheduled_in_past(*self, *now)
                ==> fails_validation(
                r,
                "scheduleAt must be in the future"@,
            ),
    {
        let legacy: u8 = match &self.message {
            Some(m) => if m.as_str().unicode_len() > 0 {
                1
            } else {
                0
            },
            None => 0,
        };
        let text: u8 = if self.text_message.is_some() {
            1
        } else {
            0
        };
        let data: u8 = if self.data_message.is_some() {
            1
        } else {
            0
        };
        let mms: u8 = if self.mms_message.is_some() {
            1
        } else {
            0
        };
        let filled: u8 = legacy + text + data + mms;
        assert(filled == content_count(*self));
        if filled == 0 {
            return Err(
                Error::Validation(
                    String::from_str("must specify exactly one of: textMessage or dataMessage"),
                ),
            );
        }
        if filled > 1 {
            return Err(
                Error::ConflictFields(
                    String::from_str("must specify exactly one of: textMessage or dataMessage"),
                ),
            );
        }
        if let Some(x) = &self.mms_message {
            let has_text = match &x.text {
                Some(t) => t.as_str().unicode_len() > 0,
                None => false,
            };
            if !has_text && x.attachments.len() == 0 {
                return Err(
                    Error::Validation(
                        String::from_str("mmsMessage must contain text or at least one attachment"),
                    ),
                );
            }
        }
        if self.ttl.is_some() && self.valid_until.is_some() {
            return Err(Error::ConflictFields(String::from_str("ttl and validUntil")));
        }
        if let Some(at) = &self.schedule_at {
            if !at.is_after(now) {
                return Err(Error::Validation(String::from_str("scheduleAt must be in the future")));
            }
        }
        Ok(())
    }

    /// Validates the message structure against the current time.
    ///
    /// Checks that exactly one content type is set, that an MMS carries text
    /// or at least one attachment, that no conflicting fields (`ttl` +
    /// `valid_until`) are provided, and that `schedule_at`, when set, is in
    /// the future.
    pub fn validate(&self) -> (r: Result<(), Error>)
        ensures
            content_count(*self) == 0 ==> fails_validation(r, one_content_text()),
            content_count(*self) > 1 ==> fails_conflict(r, one_content_text()),
            content_count(*self) == 1 && !mms_ok(*self) ==> fails_validation(r, empty_mms_text()),
            content_count(*self) == 1 && mms_ok(*self) && self.ttl is Some
                && self.valid_until is Some ==> fails_conflict(r, "ttl and validUntil"@),
            content_count(*self) == 1 && mms_ok(*self) && !(self.ttl is Some
                && self.valid_until is Some) ==> {
                ||| r is Ok
                ||| self.schedule_at is Some && fails_validation(
                    r,
                    "scheduleAt must be in the future"@,
                )
            },
            content_count(*self) == 1 && mms_ok(*self) && !(self.ttl is Some
                && self.valid_until is Some) && self.schedule_at is None ==> r is Ok,
            exists|now: Timestamp|
                #![trigger message_valid_at(*self, now)]
                is_clock_instant(now) && (r is Ok <==> message_valid_at(*self, now)) && (
                content_count(*self) == 1 && mms_ok(*self) && !(self.ttl is Some
                    && self.valid_until is Some) && scheduled_in_past(*self, now)
                    ==> fails_validation(r, "scheduleAt must be in the future"@)),
    {
        match &self.schedule_at {
            Some(_) => {
                let now = Timestamp::now();
                self.validate_at(&now)
            },
            None => {
                // Without a schedule no instant is compared, so the clock is
                // not read; any instant does.
                match Timestamp::from_unix(0, 0) {
                    Some(epoch) => {
                        assert(clock_secs(false, 0, 0) == 0 && clock_nanos(false, 0, 0) == 0);
                        assert(is_clock_instant(epoch));
                        self.validate_at(&epoch)
                    },
                    None => Ok(()),
                }
            },
        }
    }
}

/// The state of a single message recipient.
#[derive(Debug, Clone)]
pub struct RecipientState {
    /// Phone number or first 16 chars of SHA256 hash.
    pub phone_number: String,
    /// Current processing state for this recipient.
    pub state: ProcessingState,
    /// Error message (present when `state` is `Failed`).
    pub error: Option<String>,
}

/// The current state of a sent message.
#[derive(Debug, Clone)]
pub struct MessageState {
    /// Message ID.
    pub id: String,
    /// Device ID that processed the message.
    pub device_id: String,
    /// Current processing state.
    pub state: ProcessingState,
    /// Whether the message content is hashed.
    pub is_hashed: bool,
    /// Whether the message content is encrypted.
    pub is_encrypted: bool,
    /// Per-recipient delivery states.
    pub recipients: Vec<RecipientState>,
    /// History of state transitions: the instant each state was entered.
    pub states: TextMap<Timestamp>,
    /// When the message was created.
    pub created_at: Option<Timestamp>,
    /// Text message content (present when `includeContent=true`).
    pub text_message: Option<TextMessage>,
    /// Data message content (present when `includeContent=true`).
    pub data_message: Option<DataMessage>,
    /// MMS message content (present when `includeContent=true`).
    pub mms_message: Option<MmsMessage>,
    /// Hashed message reference (present when `is_hashed=true`).
    pub hashed_message: Option<HashedMessage>,
}

/// The names of the processing states, as the API writes them.
pub open spec fn state_names() -> Seq<Seq<char>> {
    seq![
        "Pending"@,
        "Cancelling"@,
        "Cancelled"@,
        "Processed"@,
        "Sent"@,
        "Delivered"@,
        "Failed"@,
    ]
}

/// The name of a processing state, as the API writes it: the variant's name.
pub open spec fn processing_state_name(p: ProcessingState) -> Seq<char> {
    match p {
        ProcessingState::Pending => "Pending"@,
        ProcessingState::Cancelling => "Cancelling"@,
        ProcessingState::Cancelled => "Cancelled"@,
        ProcessingState::Processed => "Processed"@,
        ProcessingState::Sent => "Sent"@,
        ProcessingState::Delivered => "Delivered"@,
        ProcessingState::Failed => "Failed"@,
    }
}

/// Whether `k` is the name of some processing state.
pub open spec fn names_processing_state(k: Seq<char>) -> bool {
    exists|p: ProcessingState| processing_state_name(p) == k
}

/// The keys a state history accepts are exactly the names of the processing
/// states, and different states have different names.
pub proof fn lemma_state_names_are_processing_states()
    ensures
        forall|k: Seq<char>| #[trigger] state_names().contains(k) <==> names_processing_state(k),
        forall|p: ProcessingState, q: ProcessingState|
            #[trigger] processing_state_name(p) == #[trigger] processing_state_name(q) ==> p == q,
{
    reveal_strlit("Pending");
    reveal_strlit("Cancelling");
    reveal_strlit("Cancelled");
    reveal_strlit("Processed");
    reveal_strlit("Sent");
    reveal_strlit("Delivered");
    reveal_strlit("Failed");
    let names = state_names();
    assert(names[0] == processing_state_name(ProcessingState::Pending));
    assert(names[1] == processing_state_name(ProcessingState::Cancelling));
    assert(names[2] == processing_state_name(ProcessingState::Cancelled));
    assert(names[3] == processing_state_name(ProcessingState::Processed));
    assert(names[4] == processing_state_name(ProcessingState::Sent));
    assert(names[5] == processing_state_name(ProcessingState::Delivered));
    assert(names[6] == processing_state_name(ProcessingState::Failed));
    assert forall|k: Seq<char>| #[trigger] names.contains(k) implies names_processing_state(k) by {
        let i = choose|i: int| 0 <= i < names.len() && names[i] == k;
        if i == 0 {
            assert(processing_state_name(ProcessingState::Pending) == k);
        } else if i == 1 {
            assert(processing_state_name(ProcessingState::Cancelling) == k);
        } else if i == 2 {
            assert(processing_state_name(ProcessingState::Cancelled) == k);
        } else if i == 3 {
            assert(processing_state_name(ProcessingState::Processed) == k);
        } else if i == 4 {
            assert(processing_state_name(ProcessingState::Sent) == k);
        } else if i == 5 {
            assert(processing_state_name(ProcessingState::Delivered) == k);
        } else {
            assert(processing_state_name(ProcessingState::Failed) == k);
        }
    }
    assert forall|k: Seq<char>| names_processing_state(k) implies #[trigger] names.contains(k) by {
        let p = choose|p: ProcessingState| processing_state_name(p) == k;
        match p {
            ProcessingState::Pending => assert(names[0] == k),
            ProcessingState::Cancelling => assert(names[1] == k),
            ProcessingState::Cancelled => assert(names[2] == k),
            ProcessingState::Processed => assert(names[3] == k),
            ProcessingState::Sent => assert(names[4] == k),
            ProcessingState::Delivered => assert(names[5] == k),
            ProcessingState::Failed => assert(names[6] == k),
        }
    }
    assert forall|p: ProcessingState, q: ProcessingState|
        #[trigger] processing_state_name(p) == #[trigger] processing_state_name(q) implies p == q by {
        assert("Pending"@[0] == 'P' && "Processed"@[0] == 'P' && "Cancelling"@[0] == 'C'
            && "Cancelled"@[0] == 'C' && "Sent"@[0] == 'S' && "Delivered"@[0] == 'D'
            && "Failed"@[0] == 'F');
        assert("Pending"@.len() == 7 && "Processed"@.len() == 9 && "Cancelling"@.len() == 10
            && "Cancelled"@.len() == 9);
    }
}

/// Whether `k` names a processing state.
fn is_state_name(k: &str) -> (r: bool)
    ensures
        r == state_names().contains(k@),
        r == names_processing_state(k@),
{
    let r = same_text(k, "Pending") || same_text(k, "Cancelling") || same_text(k, "Cancelled")
        || same_text(k, "Processed") || same_text(k, "Sent") || same_text(k, "Delivered")
        || same_text(k, "Failed");
    proof {
        if r {
            if k@ == "Pending"@ {
                assert(state_names()[0] == k@);
            } else if k@ == "Cancelling"@ {
                assert(state_names()[1] == k@);
            } else if k@ == "Cancelled"@ {
                assert(state_names()[2] == k@);
            } else if k@ == "Processed"@ {
                assert(state_names()[3] == k@);
            } else if k@ == "Sent"@ {
                assert(state_names()[4] == k@);
            } else if k@ == "Delivered"@ {
                assert(state_names()[5] == k@);
            } else {
                assert(state_names()[6] == k@);
            }
        } else {
            assert(!state_names().contains(k@)) by {
                if state_names().contains(k@) {
                    let i = choose|i: int| 0 <= i < 7 && state_names()[i] == k@;
                    assert(0 <= i < 7);
                }
            }
        }
        lemma_state_names_are_processing_states();
        assert(state_names().contains(k@) <==> names_processing_state(k@));
    }
    r
}

impl MessageState {
    /// Validates the state history entries: every key must name a processing state.
    pub fn validate(&self) -> (r: Result<(), Error>)
        ensures
            r is Ok <==> forall|k: Seq<char>| #[trigger]
                self.states@.contains_key(k) ==> state_names().contains(k),
            r is Ok <==> forall|k: Seq<char>| #[trigger]
                self.states@.contains_key(k) ==> names_processing_state(k),
            r matches Err(e) ==> exists|k: Seq<char>|
                #![trigger self.states@.contains_key(k)]
                self.states@.contains_key(k) && !state_names().contains(k)
                    && !names_processing_state(k) && is_validation(e, "invalid state value: "@ + k),
    {
        proof {
            lemma_state_names_are_processing_states();
        }
        let keys = self.states.keys();
        let mut i: usize = 0;
        while i < keys.len()
            invariant
                i <= keys@.len(),
                texts(keys@).to_set() == self.states@.dom(),
                forall|j: int| 0 <= j < i ==> state_names().contains(#[trigger] keys@[j]@),
            decreases keys.len() - i,
        {
            if !is_state_name(keys[i].as_str()) {
                let mut m = String::from_str("invalid state value: ");
                append(&mut m, keys[i].as_str());
                assert(texts(keys@)[i as int] == keys@[i as int]@);
                assert(self.states@.contains_key(keys@[i as int]@));
                return Err(Error::Validation(m));
            }
            i = i + 1;
        }
        assert forall|k: Seq<char>| #[trigger]
            self.states@.contains_key(k) implies state_names().contains(k) by {
            assert(texts(keys@).to_set().contains(k));
            let j = choose|j: int| 0 <= j < texts(keys@).len() && texts(keys@)[j] == k;
            assert(keys@[j]@ == k);
        }
        Ok(())
    }
}

} // verus!
