//! Domain models of the SMSGate API.

pub mod time;

pub use time::{later, rfc3339_text, valid_instant, Timestamp, MAX_UNIX_SECONDS, MIN_UNIX_SECONDS};
pub mod message;
pub use message::{
    DataMessage, HashedMessage, Message, MessagePriority, MessageState, MmsAttachment, MmsMessage,
    ProcessingState,
    RecipientState, TextMessage, PRIORITY_BYPASS_THRESHOLD, PRIORITY_DEFAULT, PRIORITY_MAXIMUM,
    PRIORITY_MINIMUM,
};
pub mod webhook;
pub use webhook::{
    is_valid_webhook_event, MmsBatchDownloadedPayload, MmsBatchReceivedPayload,
    MmsDownloadedAttachment, MmsDownloadedPayload, MmsReceivedPayload, SmsBatchDataReceivedPayload,
    SmsBatchReceivedPayload, SmsCancelledPayload, SmsDataReceivedPayload, SmsDeliveredPayload,
    SmsEventPayload, SmsFailedPayload, SmsReceivedPayload, SmsSentPayload, Webhook, WebhookEvent,
    WEBHOOK_EVENT_TYPES,
};
pub mod settings;
pub use settings::{
    parse_time, DeviceSettings, LimitPeriod, MessagesProcessingOrder, SettingsEncryption,
    SettingsGateway, SettingsLogs, SettingsMessages, SettingsPing, SettingsReceiver,
    SettingsWebhooks, SimSelectionMode,
};
pub mod inbox;
pub use inbox::{
    IncomingMessage, IncomingMessageAttachment, IncomingMessageType, InboxRefreshRequest,
    MessagesExportRequest, WebhookDelivery,
};
pub mod auth;
pub use auth::{JwtScope, TokenRequest, TokenResponse};
pub mod device;
pub use device::{Device, SimCard};
pub mod health;
pub use health::{HealthCheck, HealthChecks, HealthResponse, HealthStatus};
pub mod upstream;
pub use upstream::{PushEventType, PushNotification};
pub mod logs;
pub use logs::{LogEntry, LogEntryPriority};
pub mod options;
pub use options::{
    ListInboxOptions, ListMessagesOptions, MessagesSortOrder, SendOptions, ToQueryParams,
};
