use android_sms_gateway::text_map::TextMap;
use android_sms_gateway::types::{
    is_valid_webhook_event, DataMessage, JwtScope, Message, MessageState, ProcessingState,
    SendOptions, TextMessage, Timestamp, ToQueryParams, Webhook, WebhookEvent, PRIORITY_DEFAULT,
    WEBHOOK_EVENT_TYPES,
};

#[test]
fn test_message_validate_requires_one_content_type() {
    let msg = Message {
        id: None,
        device_id: None,
        message: None,
        text_message: None,
        data_message: None,
        mms_message: None,
        phone_numbers: vec!["123".to_string()],
        is_encrypted: false,
        sim_number: None,
        with_delivery_report: None,
        priority: PRIORITY_DEFAULT,
        ttl: None,
        valid_until: None,
        schedule_at: None,
    };
    assert!(msg.validate().is_err());
}

#[test]
fn test_message_validate_conflicting_fields() {
    let msg = Message {
        text_message: Some(TextMessage { text: "hi".into() }),
        data_message: Some(DataMessage {
            data: "AQID".into(),
            port: 1,
        }),
        phone_numbers: vec!["123".into()],
        ..Default::default()
    };
    assert!(msg.validate().is_err());
}

#[test]
fn test_message_validate_ttl_and_valid_until_conflict() {
    let msg = Message {
        message: Some("hi".into()),
        phone_numbers: vec!["123".into()],
        ttl: Some(3600),
        valid_until: Some(Timestamp::now()),
        ..Default::default()
    };
    assert!(msg.validate().is_err());
}

#[test]
fn test_message_get_text_message() {
    let msg = Message {
        message: Some("Hello".into()),
        phone_numbers: vec!["123".into()],
        ..Default::default()
    };
    let tm = msg.get_text_message().unwrap();
    assert_eq!(tm.text, "Hello");
}

#[test]
fn test_message_get_text_message_from_text_field() {
    let msg = Message {
        text_message: Some(TextMessage {
            text: "World".into(),
        }),
        phone_numbers: vec!["123".into()],
        ..Default::default()
    };
    let tm = msg.get_text_message().unwrap();
    assert_eq!(tm.text, "World");
}

#[test]
fn test_message_get_data_message() {
    let msg = Message {
        data_message: Some(DataMessage {
            data: "AQID".into(),
            port: 53739,
        }),
        phone_numbers: vec!["123".into()],
        ..Default::default()
    };
    let dm = msg.get_data_message().unwrap();
    assert_eq!(dm.data, "AQID");
    assert_eq!(dm.port, 53739);
}

#[test]
fn test_message_state_validate_valid() {
    let state = MessageState {
        id: "test".into(),
        device_id: "dev".into(),
        state: ProcessingState::Pending,
        is_hashed: false,
        is_encrypted: false,
        recipients: vec![],
        states: TextMap::new(),
        created_at: None,
        text_message: None,
        data_message: None,
        mms_message: None,
        hashed_message: None,
    };
    assert!(state.validate().is_ok());
}

#[test]
fn test_webhook_validate_valid() {
    let wh = Webhook {
        id: None,
        device_id: None,
        url: "https://example.com/hook".into(),
        event: WebhookEvent::new(WebhookEvent::SMS_RECEIVED),
    };
    assert!(wh.validate().is_ok());
}

#[test]
fn test_webhook_validate_invalid_url() {
    let wh = Webhook {
        id: None,
        device_id: None,
        url: "http://example.com/hook".into(),
        event: WebhookEvent::new(WebhookEvent::SMS_RECEIVED),
    };
    assert!(wh.validate().is_err());
}

#[test]
fn test_webhook_validate_invalid_event() {
    let wh = Webhook {
        id: None,
        device_id: None,
        url: "https://example.com/hook".into(),
        event: WebhookEvent::new("invalid:event"),
    };
    assert!(wh.validate().is_err());
}

#[test]
fn test_send_options_to_query_params() {
    let opts = SendOptions::new()
        .with_skip_phone_validation(true)
        .with_device_active_within(24);
    let params = opts.to_query_params();
    assert!(params.contains(&("skipPhoneValidation".into(), "true".into())));
    assert!(params.contains(&("deviceActiveWithin".into(), "24".into())));
}

#[test]
fn test_jwt_scope_constants() {
    assert_eq!(JwtScope::MESSAGES_SEND, "messages:send");
    assert_eq!(JwtScope::DEVICES_LIST, "devices:list");
    assert_eq!(JwtScope::SETTINGS_READ, "settings:read");
    assert_eq!(JwtScope::TOKENS_MANAGE, "tokens:manage");
}

#[test]
fn test_message_validate_schedule_at_in_past() {
    let msg = Message {
        message: Some("hi".into()),
        phone_numbers: vec!["123".into()],
        schedule_at: Some(Timestamp::now()),
        ..Default::default()
    };
    assert!(msg.validate().is_err());
}

#[test]
fn test_message_state_validate_invalid_state_key() {
    let mut states = TextMap::new();
    states.insert("InvalidState".to_string(), Timestamp::now());
    let state = MessageState {
        id: "test".into(),
        device_id: "dev".into(),
        state: ProcessingState::Pending,
        is_hashed: false,
        is_encrypted: false,
        recipients: vec![],
        states,
        created_at: None,
        text_message: None,
        data_message: None,
        mms_message: None,
        hashed_message: None,
    };
    assert!(state.validate().is_err());
}

#[test]
fn test_batch_webhook_event_constants() {
    assert_eq!(WebhookEvent::SMS_BATCH_RECEIVED, "sms:batch:received");
    assert_eq!(
        WebhookEvent::SMS_BATCH_DATA_RECEIVED,
        "sms:batch:data-received"
    );
    assert_eq!(WebhookEvent::MMS_BATCH_RECEIVED, "mms:batch:received");
    assert_eq!(WebhookEvent::MMS_BATCH_DOWNLOADED, "mms:batch:downloaded");
    assert!(WEBHOOK_EVENT_TYPES.contains(&WebhookEvent::SMS_BATCH_RECEIVED));
    assert!(WEBHOOK_EVENT_TYPES.contains(&WebhookEvent::SMS_BATCH_DATA_RECEIVED));
    assert!(WEBHOOK_EVENT_TYPES.contains(&WebhookEvent::MMS_BATCH_RECEIVED));
    assert!(WEBHOOK_EVENT_TYPES.contains(&WebhookEvent::MMS_BATCH_DOWNLOADED));
    assert!(is_valid_webhook_event(WebhookEvent::SMS_BATCH_RECEIVED));
    assert!(is_valid_webhook_event(WebhookEvent::MMS_BATCH_DOWNLOADED));
}
