//! Device settings and their validation.

use vstd::prelude::*;
use vstd::string::*;
use crate::error::{fails_validation, reports, Error};
use crate::text::append;
use vstd::utf8::encode_utf8;

verus! {

/// The period for message sending limits.
#[derive(Debug, Clone, Copy, PartialEq, Eq, Structural)]
pub enum LimitPeriod {
    Disabled,
    PerMinute,
    Per30Minutes,
    PerHour,
    PerDay,
}

/// Mode for SIM card selection when sending messages.
#[derive(Debug, Clone, Copy, PartialEq, Eq, Structural)]
pub enum SimSelectionMode {
    OSDefault,
    RoundRobin,
    Random,
}

/// The order in which messages are processed.
#[derive(Debug, Clone, Copy, PartialEq, Eq, Structural)]
pub enum MessagesProcessingOrder {
    Lifo,
    Fifo,
}

/// Overall device settings.
#[derive(Debug, Clone)]
pub struct DeviceSettings {
    pub encryption: Option<SettingsEncryption>,
    pub messages: Option<SettingsMessages>,
    pub ping: Option<SettingsPing>,
    pub logs: Option<SettingsLogs>,
    pub webhooks: Option<SettingsWebhooks>,
    pub gateway: Option<SettingsGateway>,
    pub receiver: Option<SettingsReceiver>,
}

/// Settings for message encryption.
#[derive(Debug, Clone)]
pub struct SettingsEncryption {
    pub passphrase: Option<String>,
}

/// Settings for message handling.
#[derive(Debug, Clone)]
pub struct SettingsMessages {
    pub send_interval_min: Option<i32>,
    pub send_interval_max: Option<i32>,
    pub limit_period: Option<LimitPeriod>,
    pub limit_value: Option<i32>,
    pub sim_selection_mode: Option<SimSelectionMode>,
    pub log_lifetime_days: Option<i32>,
    pub processing_order: Option<MessagesProcessingOrder>,
    pub work_hours_enabled: Option<bool>,
    pub work_hours_start: Option<String>,
    pub work_hours_end: Option<String>,
}

/// Settings for ping functionality.
#[derive(Debug, Clone)]
pub struct SettingsPing {
    pub interval_seconds: Option<i32>,
}

/// Settings for log retention.
#[derive(Debug, Clone)]
pub struct SettingsLogs {
    pub lifetime_days: Option<i32>,
}

/// Settings for webhook functionality.
#[derive(Debug, Clone)]
pub struct SettingsWebhooks {
    pub internet_required: Option<bool>,
    pub retry_count: Option<i32>,
    pub signing_key: Option<String>,
}

/// Settings for gateway (cloud/private server) configuration.
#[derive(Debug, Clone)]
pub struct SettingsGateway {
    pub cloud_url: Option<String>,
    pub private_token: Option<String>,
    pub notification_channel: Option<String>,
}

/// Settings for SMS message reception.
#[derive(Debug, Clone)]
pub struct SettingsReceiver {
    pub content_provider_enabled: Option<bool>,
}

/// Whether `b` is an ASCII digit.
pub open spec fn is_digit_byte(b: u8) -> bool {
    48 <= b <= 57
}

/// The hour and minute that an `HH:mm` text denotes, read from its UTF-8
/// bytes: five bytes, two digits, a colon, two digits, an hour of at most 23
/// and a minute of at most 59.
pub open spec fn time_of_day(b: Seq<u8>) -> Option<(u8, u8)> {
    if b.len() == 5 && is_digit_byte(b[0]) && is_digit_byte(b[1]) && b[2] == 58 && is_digit_byte(
        b[3],
    ) && is_digit_byte(b[4]) {
        let h = (b[0] - 48) * 10 + (b[1] - 48);
        let m = (b[3] - 48) * 10 + (b[4] - 48);
        if h <= 23 && m <= 59 {
            Some((h as u8, m as u8))
        } else {
            None
        }
    } else {
        None
    }
}

/// Reads an `HH:mm` time of day.
pub fn parse_time(s: &str) -> (r: Option<(u8, u8)>)
    ensures
        r == time_of_day(encode_utf8(s@)),
{
    let b = s.as_bytes();
    if b.len() == 5 && b[0] >= 48 && b[0] <= 57 && b[1] >= 48 && b[1] <= 57 && b[2] == 58
        && b[3] >= 48 && b[3] <= 57 && b[4] >= 48 && b[4] <= 57 {
        let h: u8 = (b[0] - 48) * 10 + (b[1] - 48);
        let m: u8 = (b[3] - 48) * 10 + (b[4] - 48);
        if h <= 23 && m <= 59 {
            return Some((h, m));
        }
    }
    None
}

/// The message for a work-hours bound that is not a valid `HH:mm` time.
pub open spec fn bad_time_text(field: Seq<char>, value: Seq<char>) -> Seq<char> {
    field + " must be in HH:mm format with valid values, got \""@ + value + "\""@
}

/// Whether both send intervals are set and the maximum is below the minimum.
pub open spec fn interval_inverted(s: SettingsMessages) -> bool {
    s.send_interval_min matches Some(lo) && s.send_interval_max matches Some(hi) && hi < lo
}

/// What is wrong with the work-hours bounds, as the error message reports it:
/// a missing start, a missing end, an invalid start, an invalid end, checked
/// in that order.
pub open spec fn work_hours_problem(s: SettingsMessages) -> Option<Seq<char>> {
    match (s.work_hours_start, s.work_hours_end) {
        (None, _) => Some("workHoursStart is required when work hours are enabled"@),
        (Some(_), None) => Some("workHoursEnd is required when work hours are enabled"@),
        (Some(a), Some(b)) => if time_of_day(encode_utf8(a@)) is None {
            Some(bad_time_text("workHoursStart"@, a@))
        } else if time_of_day(encode_utf8(b@)) is None {
            Some(bad_time_text("workHoursEnd"@, b@))
        } else {
            None
        },
    }
}

/// What is wrong with the message settings, as the error message reports it.
pub open spec fn messages_problem(s: SettingsMessages) -> Option<Seq<char>> {
    if interval_inverted(s) {
        Some("sendIntervalMax must be greater than or equal to sendIntervalMin"@)
    } else if s.work_hours_enabled == Some(true) {
        work_hours_problem(s)
    } else {
        None
    }
}

/// Whether the send interval bounds, when both are set, are in order.
pub open spec fn intervals_ordered(s: SettingsMessages) -> bool {
    s.send_interval_min is Some && s.send_interval_max is Some ==> s.send_interval_min->0
        <= s.send_interval_max->0
}

/// Whether message settings are acceptable: ordered send intervals, and,
/// when work hours are enabled, a start and an end that are both valid
/// `HH:mm` times.
pub open spec fn settings_acceptable(s: SettingsMessages) -> bool {
    &&& intervals_ordered(s)
    &&& s.work_hours_enabled == Some(true) ==> {
        &&& s.work_hours_start matches Some(a) && time_of_day(encode_utf8(a@)) is Some
        &&& s.work_hours_end matches Some(b) && time_of_day(encode_utf8(b@)) is Some
    }
}

/// The problem the message settings report: an inverted send interval comes
/// first, whatever the work-hours fields hold; settings are free of problems
/// exactly when they are acceptable; and with ordered intervals and work
/// hours not enabled there is no problem.
pub proof fn lemma_messages_problem_law(s: SettingsMessages)
    ensures
        s.send_interval_min is Some && s.send_interval_max is Some && s.send_interval_max->0
            < s.send_interval_min->0 ==> messages_problem(s) == Some(
            "sendIntervalMax must be greater than or equal to sendIntervalMin"@,
        ),
        messages_problem(s) is None <==> settings_acceptable(s),
        intervals_ordered(s) && s.work_hours_enabled != Some(true) ==> messages_problem(s) is None,
{
    match (s.work_hours_start, s.work_hours_end) {
        (Some(a), Some(b)) => {
            assert(work_hours_problem(s) is None <==> (time_of_day(encode_utf8(a@)) is Some
                && time_of_day(encode_utf8(b@)) is Some));
        },
        _ => {
            assert(work_hours_problem(s) is Some);
        },
    }
}

impl SettingsMessages {
    /// Validates the message settings: the send interval bounds are ordered,
    /// and when work hours are enabled both bounds are valid `HH:mm` times.
    pub fn validate(&self) -> (r: Result<(), Error>)
        ensures
            reports(r, messages_problem(*self)),
            self.send_interval_min is Some && self.send_interval_max is Some
                && self.send_interval_max->0 < self.send_interval_min->0 ==> fails_validation(
                r,
                "sendIntervalMax must be greater than or equal to sendIntervalMin"@,
            ),
            r is Ok ==> settings_acceptable(*self),
            intervals_ordered(*self) && self.work_hours_enabled != Some(true) ==> r is Ok,
    {
        if let (Some(min), Some(max)) = (self.send_interval_min, self.send_interval_max) {
            if max < min {
                return Err(
                    Error::Validation(
                        String::from_str(
                            "sendIntervalMax must be greater than or equal to sendIntervalMin",
                        ),
                    ),
                );
            }
        }
        proof {
            lemma_messages_problem_law(*self);
        }
        if let Some(true) = self.work_hours_enabled {
            return self.validate_work_hours();
        }
        Ok(())
    }

    /// Checks that both work-hours bounds are present and valid `HH:mm` times.
    pub fn validate_work_hours(&self) -> (r: Result<(), Error>)
        ensures
            reports(r, work_hours_problem(*self)),
    {
        let start = match &self.work_hours_start {
            Some(s) => s,
            None => {
                return Err(
                    Error::Validation(
                        String::from_str("workHoursStart is required when work hours are enabled"),
                    ),
                );
            },
        };
        let end = match &self.work_hours_end {
            Some(e) => e,
            None => {
                return Err(
                    Error::Validation(
                        String::from_str("workHoursEnd is required when work hours are enabled"),
                    ),
                );
            },
        };
        if parse_time(start.as_str()).is_none() {
            return Err(Error::Validation(bad_time_message("workHoursStart", start.as_str())));
        }
        if parse_time(end.as_str()).is_none() {
            return Err(Error::Validation(bad_time_message("workHoursEnd", end.as_str())));
        }
        Ok(())
    }
}

/// The message for a work-hours bound that is not a valid `HH:mm` time.
fn bad_time_message(field: &str, value: &str) -> (r: String)
    ensures
        r@ == bad_time_text(field@, value@),
{
    let mut m = String::from_str(field);
    append(&mut m, " must be in HH:mm format with valid values, got \"");
    append(&mut m, value);
    append(&mut m, "\"");
    assert(m@ =~= bad_time_text(field@, value@));
    m
}

impl DeviceSettings {
    /// Validates the settings: the message settings, when present, must pass
    /// their own validation.
    pub fn validate(&self) -> (r: Result<(), Error>)
        ensures
            match self.messages {
                None => r is Ok,
                Some(m) => reports(r, messages_problem(m)),
            },
            self.messages is Some && self.messages->0.send_interval_min is Some
                && self.messages->0.send_interval_max is Some && self.messages->0.send_interval_max->0
                < self.messages->0.send_interval_min->0 ==> fails_validation(
                r,
                "sendIntervalMax must be greater than or equal to sendIntervalMin"@,
            ),
            r is Ok <==> (self.messages is Some ==> settings_acceptable(self.messages->0)),
    {
        match &self.messages {
            Some(messages) => messages.validate(),
            None => Ok(()),
        }
    }
}

} // verus!
