use android_sms_gateway::text_map::TextMap;
use android_sms_gateway::types::{
    parse_time, DeviceSettings, IncomingMessageType, ListInboxOptions, ListMessagesOptions,
    Message, MessageState, MessagesSortOrder, MmsAttachment, MmsMessage, ProcessingState, SendOptions, SettingsMessages,
    TextMessage, Timestamp, ToQueryParams, Webhook, WebhookEvent, MAX_UNIX_SECONDS,
    MIN_UNIX_SECONDS, WEBHOOK_EVENT_TYPES,
};
use android_sms_gateway::Error;

fn at(secs: i64) -> Timestamp {
    Timestamp::from_unix(secs, 0).unwrap()
}

fn validation(r: Result<(), Error>) -> String {
    match r {
        Err(Error::Validation(m)) => m,
        other => panic!("expected a validation error, got {:?}", other),
    }
}

fn conflict(r: Result<(), Error>) -> String {
    match r {
        Err(Error::ConflictFields(m)) => m,
        other => panic!("expected a conflict error, got {:?}", other),
    }
}

fn text_message(text: &str) -> Message {
    Message {
        text_message: Some(TextMessage { text: text.into() }),
        phone_numbers: vec!["1".into()],
        ..Default::default()
    }
}

#[test]
fn message_validation_messages() {
    let now = at(1_000);
    let none = Message { phone_numbers: vec!["1".into()], ..Default::default() };
    assert_eq!(
        validation(none.validate_at(&now)),
        "must specify exactly one of: textMessage or dataMessage"
    );
    let empty_legacy = Message { message: Some(String::new()), ..none.clone() };
    assert!(empty_legacy.validate_at(&now).is_err());
    let two = Message { message: Some("a".into()), ..text_message("b") };
    assert_eq!(conflict(two.validate_at(&now)), "must specify exactly one of: textMessage or dataMessage");
    let ttl = Message { ttl: Some(1), valid_until: Some(now), ..text_message("x") };
    assert_eq!(conflict(ttl.validate_at(&now)), "ttl and validUntil");
    let past = Message { schedule_at: Some(now), ..text_message("x") };
    assert_eq!(validation(past.validate_at(&now)), "scheduleAt must be in the future");
    let future = Message { schedule_at: Some(at(1_001)), ..text_message("x") };
    assert!(future.validate_at(&now).is_ok());
    let nanos_later = Message {
        schedule_at: Some(Timestamp::from_unix(1_000, 1).unwrap()),
        ..text_message("x")
    };
    assert!(nanos_later.validate_at(&now).is_ok());
    assert!(text_message("x").validate().is_ok());
}

#[test]
fn text_message_prefers_the_payload_and_skips_empty_legacy_text() {
    let both = Message { message: Some("legacy".into()), ..text_message("new") };
    assert_eq!(both.get_text_message().unwrap().text, "new");
    let empty = Message { message: Some(String::new()), ..Default::default() };
    assert!(empty.get_text_message().is_none());
    assert!(Message::default().get_data_message().is_none());
}

#[test]
fn message_state_reports_the_invalid_key() {
    let mut states = TextMap::new();
    states.insert("Pending".to_string(), at(1));
    states.insert("Sent".to_string(), at(2));
    let mut state = MessageState {
        id: "id".into(),
        device_id: "dev".into(),
        state: ProcessingState::Sent,
        is_hashed: false,
        is_encrypted: false,
        recipients: vec![],
        states,
        created_at: None,
        text_message: None,
        data_message: None,
        mms_message: None,
        hashed_message: None,
    };
    assert!(state.validate().is_ok());
    state.states.insert("pending".to_string(), at(3));
    assert_eq!(validation(state.validate()), "invalid state value: pending");
}

fn hook(url: &str, event: &str) -> Webhook {
    Webhook { id: None, device_id: None, url: url.into(), event: WebhookEvent::new(event) }
}

#[test]
fn webhook_validation_messages() {
    assert_eq!(validation(hook("https://e.com", "nope").validate()), "invalid event type");
    assert_eq!(
        validation(hook("ftp://e.com", WebhookEvent::SMS_SENT).validate()),
        "url must start with https://"
    );
    assert!(hook("HTTPS://Example.COM/x", WebhookEvent::SMS_SENT).validate().is_ok());
    assert_eq!(
        validation(hook("https://exa mple.com", WebhookEvent::SMS_SENT).validate()),
        "invalid url"
    );
    assert_eq!(validation(hook("https://", WebhookEvent::SMS_SENT).validate()), "invalid url");
    for e in WEBHOOK_EVENT_TYPES.iter() {
        assert!(hook("https://e.com", e).validate().is_ok());
    }
}

fn messages_settings() -> SettingsMessages {
    SettingsMessages {
        send_interval_min: None,
        send_interval_max: None,
        limit_period: None,
        limit_value: None,
        sim_selection_mode: None,
        log_lifetime_days: None,
        processing_order: None,
        work_hours_enabled: None,
        work_hours_start: None,
        work_hours_end: None,
    }
}

#[test]
fn settings_validation_messages() {
    let s = SettingsMessages { send_interval_min: Some(5), send_interval_max: Some(4), ..messages_settings() };
    assert_eq!(
        validation(s.validate()),
        "sendIntervalMax must be greater than or equal to sendIntervalMin"
    );
    let s = SettingsMessages { send_interval_min: Some(5), send_interval_max: Some(5), ..messages_settings() };
    assert!(s.validate().is_ok());
    let s = SettingsMessages { work_hours_enabled: Some(true), ..messages_settings() };
    assert_eq!(validation(s.validate()), "workHoursStart is required when work hours are enabled");
    let s = SettingsMessages {
        work_hours_enabled: Some(true),
        work_hours_start: Some("09:00".into()),
        ..messages_settings()
    };
    assert_eq!(validation(s.validate()), "workHoursEnd is required when work hours are enabled");
    let s = SettingsMessages {
        work_hours_enabled: Some(true),
        work_hours_start: Some("24:00".into()),
        work_hours_end: Some("17:00".into()),
        ..messages_settings()
    };
    assert_eq!(
        validation(s.validate()),
        "workHoursStart must be in HH:mm format with valid values, got \"24:00\""
    );
    let s = SettingsMessages {
        work_hours_enabled: Some(true),
        work_hours_start: Some("09:00".into()),
        work_hours_end: Some("9:00".into()),
        ..messages_settings()
    };
    assert_eq!(
        validation(s.validate()),
        "workHoursEnd must be in HH:mm format with valid values, got \"9:00\""
    );
    let s = SettingsMessages {
        work_hours_enabled: Some(false),
        work_hours_start: Some("bad".into()),
        ..messages_settings()
    };
    assert!(s.validate().is_ok());
    let d = DeviceSettings {
        encryption: None,
        messages: Some(SettingsMessages { work_hours_enabled: Some(true), ..messages_settings() }),
        ping: None,
        logs: None,
        webhooks: None,
        gateway: None,
        receiver: None,
    };
    assert!(d.validate().is_err());
    let d = DeviceSettings { messages: None, ..d };
    assert!(d.validate().is_ok());
}

#[test]
fn parse_time_reads_hours_and_minutes() {
    assert_eq!(parse_time("00:00"), Some((0, 0)));
    assert_eq!(parse_time("23:59"), Some((23, 59)));
    assert_eq!(parse_time("12:60"), None);
    assert_eq!(parse_time("1:00"), None);
    assert_eq!(parse_time("12-00"), None);
    assert_eq!(parse_time("12:000"), None);
    assert_eq!(parse_time("１2:00"), None);
}

#[test]
fn listing_validation_messages() {
    let o = ListMessagesOptions::new().with_from(at(10)).with_to(at(9));
    assert_eq!(validation(o.validate()), "`from` date must be before `to` date");
    let o = ListMessagesOptions::new().with_from(at(10)).with_to(at(10));
    assert!(o.validate().is_ok());
    assert_eq!(
        validation(ListInboxOptions::new().with_limit(0).validate()),
        "`limit` must be between 1 and 100"
    );
    assert_eq!(
        validation(ListInboxOptions::new().with_limit(101).validate()),
        "`limit` must be between 1 and 100"
    );
    assert!(ListInboxOptions::new().with_limit(100).with_offset(0).validate().is_ok());
    assert_eq!(
        validation(ListInboxOptions::new().with_offset(-1).validate()),
        "`offset` must be non-negative"
    );
}

#[test]
fn query_strings_are_form_encoded_in_order() {
    assert_eq!(SendOptions::new().to_url_query(), "");
    assert_eq!(
        SendOptions::new().with_device_active_within(24).with_skip_phone_validation(false).to_url_query(),
        "skipPhoneValidation=false&deviceActiveWithin=24"
    );
    let o = ListInboxOptions::new()
        .with_include_attachments(true)
        .with_device_id("dev 1/ü")
        .with_to(at(1_704_067_200))
        .with_offset(-3)
        .with_limit(5)
        .with_message_type(IncomingMessageType::MmsDownloaded);
    assert_eq!(
        o.to_url_query(),
        "type=MMS_DOWNLOADED&limit=5&offset=-3&to=2024-01-01T00%3A00%3A00%2B00%3A00&deviceId=dev+1%2F%C3%BC&includeAttachments=true"
    );
    let o = ListMessagesOptions::new()
        .with_sort(MessagesSortOrder::CreatedAtDescending)
        .with_include_content(true)
        .with_state("Sent")
        .with_from(Timestamp::from_unix(0, 500_000_000).unwrap());
    let params = o.to_query_params();
    assert_eq!(params[0], ("from".to_string(), "1970-01-01T00:00:00.500+00:00".to_string()));
    assert_eq!(params[1], ("state".to_string(), "Sent".to_string()));
    assert_eq!(params[2], ("includeContent".to_string(), "true".to_string()));
    assert_eq!(params[3], ("sort".to_string(), "-created_at".to_string()));
    assert_eq!(params.len(), 4);
}

#[test]
fn wire_names() {
    assert_eq!(IncomingMessageType::Sms.wire_name(), "SMS");
    assert_eq!(IncomingMessageType::DataSms.wire_name(), "DATA_SMS");
    assert_eq!(IncomingMessageType::Mms.wire_name(), "MMS");
    assert_eq!(IncomingMessageType::Other.wire_name(), "OTHER");
    assert_eq!(MessagesSortOrder::CreatedAtAscending.wire_name(), "created_at");
}

#[test]
fn timestamps() {
    assert!(Timestamp::from_unix(59, 1_500_000_000).is_some());
    assert!(Timestamp::from_unix(58, 1_500_000_000).is_none());
    assert!(Timestamp::from_unix(-1, 1_999_999_999).is_some());
    assert!(Timestamp::from_unix(0, 2_000_000_000).is_none());
    assert!(Timestamp::from_unix(8210266876799, 0).is_some());
    assert!(Timestamp::from_unix(8210266876800, 0).is_none());
    assert!(Timestamp::from_unix(-8334601315200, 0).is_some());
    assert!(Timestamp::from_unix(-8334601315201, 0).is_none());
    let t = at(5);
    assert_eq!(t.unix_seconds(), 5);
    assert_eq!(t.subsec_nanos(), 0);
    assert!(at(6).is_after(&t));
    assert!(!t.is_after(&t));
    assert_eq!(at(0).to_rfc3339(), "1970-01-01T00:00:00+00:00");
    assert_eq!(at(-1).to_rfc3339(), "1969-12-31T23:59:59+00:00");
}

#[test]
fn text_map_reads_back_what_was_written() {
    let mut m: TextMap<u32> = TextMap::new();
    assert_eq!(m.len(), 0);
    m.insert("a".into(), 1);
    m.insert("b".into(), 2);
    m.insert("a".into(), 3);
    assert_eq!(m.len(), 2);
    assert_eq!(m.get("a"), Some(&3));
    assert_eq!(m.get("b"), Some(&2));
    assert_eq!(m.get("c"), None);
    assert!(m.contains_key("b"));
    assert_eq!(m.keys(), vec!["a".to_string(), "b".to_string()]);
    let c = m.clone();
    assert_eq!(c.get("a"), Some(&3));
}

fn mms(text: Option<&str>, attachments: usize) -> Message {
    Message {
        mms_message: Some(MmsMessage {
            subject: Some("s".into()),
            text: text.map(|t| t.to_string()),
            attachments: (0..attachments)
                .map(|_| MmsAttachment {
                    content_type: "image/png".into(),
                    name: None,
                    data: "AQID".into(),
                })
                .collect(),
        }),
        phone_numbers: vec!["1".into()],
        ..Default::default()
    }
}

#[test]
fn mms_needs_text_or_an_attachment_and_is_one_content_kind() {
    let now = at(1_000);
    assert!(mms(Some("hi"), 0).validate_at(&now).is_ok());
    assert!(mms(None, 1).validate_at(&now).is_ok());
    assert!(mms(Some(""), 2).validate_at(&now).is_ok());
    assert_eq!(
        validation(mms(None, 0).validate_at(&now)),
        "mmsMessage must contain text or at least one attachment"
    );
    assert_eq!(
        validation(mms(Some(""), 0).validate_at(&now)),
        "mmsMessage must contain text or at least one attachment"
    );
    let with_text = Message { text_message: Some(TextMessage { text: "t".into() }), ..mms(Some("hi"), 0) };
    assert_eq!(
        conflict(with_text.validate_at(&now)),
        "must specify exactly one of: textMessage or dataMessage"
    );
    let ttl = Message { ttl: Some(1), valid_until: Some(now), ..mms(None, 1) };
    assert_eq!(conflict(ttl.validate_at(&now)), "ttl and validUntil");
    assert!(mms(None, 1).get_text_message().is_none());
}

#[test]
fn now_reads_the_clock() {
    let a = Timestamp::now();
    assert!(a.unix_seconds() > 1_600_000_000);
}

#[test]
fn clock_readings_become_instants() {
    let t = Timestamp::from_clock_reading(false, 1_700_000_000, 5);
    assert_eq!((t.unix_seconds(), t.subsec_nanos()), (1_700_000_000, 5));
    let t = Timestamp::from_clock_reading(true, 10, 0);
    assert_eq!((t.unix_seconds(), t.subsec_nanos()), (-10, 0));
    let t = Timestamp::from_clock_reading(true, 10, 250_000_000);
    assert_eq!((t.unix_seconds(), t.subsec_nanos()), (-11, 750_000_000));
    assert_eq!(Timestamp::from_clock_reading(true, 0, 1).to_rfc3339(), "1969-12-31T23:59:59.999999999+00:00");
    let t = Timestamp::from_clock_reading(false, u64::MAX, 7);
    assert_eq!((t.unix_seconds(), t.subsec_nanos()), (MAX_UNIX_SECONDS, 999_999_999));
    let t = Timestamp::from_clock_reading(true, u64::MAX, 7);
    assert_eq!((t.unix_seconds(), t.subsec_nanos()), (MIN_UNIX_SECONDS, 0));
    let t = Timestamp::from_clock_reading(true, 8_334_601_315_200, 0);
    assert_eq!(t.unix_seconds(), MIN_UNIX_SECONDS);
}
