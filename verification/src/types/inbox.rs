//! Incoming messages and inbox requests.

use vstd::prelude::*;
use super::time::Timestamp;

verus! {

/// The type of an incoming message.
#[derive(Debug, Clone, Copy, PartialEq, Eq, Structural)]
pub enum IncomingMessageType {
    Sms,
    DataSms,
    Mms,
    MmsDownloaded,
    Other,
}

/// The name of a message type on the wire.
pub open spec fn message_type_name(t: IncomingMessageType) -> Seq<char> {
    match t {
        IncomingMessageType::Sms => "SMS"@,
        IncomingMessageType::DataSms => "DATA_SMS"@,
        IncomingMessageType::Mms => "MMS"@,
        IncomingMessageType::MmsDownloaded => "MMS_DOWNLOADED"@,
        IncomingMessageType::Other => "OTHER"@,
    }
}

impl IncomingMessageType {
    /// The name of the message type on the wire (`SMS`, `DATA_SMS`, `MMS`,
    /// `MMS_DOWNLOADED`, `OTHER`).
    pub fn wire_name(&self) -> (r: &'static str)
        ensures
            r@ == message_type_name(*self),
    {
        match self {
            IncomingMessageType::Sms => "SMS",
            IncomingMessageType::DataSms => "DATA_SMS",
            IncomingMessageType::Mms => "MMS",
            IncomingMessageType::MmsDownloaded => "MMS_DOWNLOADED",
            IncomingMessageType::Other => "OTHER",
        }
    }
}

/// An incoming (received) message.
#[derive(Debug, Clone)]
pub struct IncomingMessage {
    pub id: String,
    /// Message type (SMS, DATA_SMS, MMS, etc.).
    pub message_type: IncomingMessageType,
    /// Sender phone number.
    pub sender: String,
    /// Recipient phone number (the device's number).
    pub recipient: Option<String>,
    /// SIM card number that received the message.
    pub sim_number: Option<u8>,
    /// A preview of the message content.
    pub content_preview: String,
    /// When the message was received.
    pub created_at: Timestamp,
    /// MMS attachment metadata (only present when `include_attachments` is true).
    pub attachments: Option<Vec<IncomingMessageAttachment>>,
}

/// Metadata for an MMS attachment returned by the inbox API.
#[derive(Debug, Clone)]
pub struct IncomingMessageAttachment {
    /// Part ID of the attachment, corresponding to the `_id` in `content://mms/part`.
    pub part_id: i32,
    /// Display name of the attachment file.
    pub name: String,
    /// Size of the attachment in bytes.
    pub size: i64,
    /// MIME type of the attachment (e.g. `image/jpeg`).
    pub content_type: String,
}

/// The delivery mode for webhooks.
#[derive(Debug, Clone, Copy, PartialEq, Eq, Structural)]
pub enum WebhookDelivery {
    Disabled,
    Individual,
    Batch,
}

/// Request to refresh the inbox and pull new messages from the device.
#[derive(Debug, Clone)]
pub struct InboxRefreshRequest {
    /// Optional device ID filter.
    pub device_id: Option<String>,
    /// Start of the time range.
    pub since: Timestamp,
    /// End of the time range.
    pub until: Timestamp,
    /// Types of messages to include.
    pub message_types: Option<Vec<IncomingMessageType>>,
    /// Whether to trigger webhooks for pulled messages.
    ///
    /// Deprecated: use `webhook_delivery` instead.
    pub trigger_webhooks: bool,
    /// Delivery mode for webhooks (overrides `trigger_webhooks` when set).
    pub webhook_delivery: Option<WebhookDelivery>,
}

/// Request to export inbox messages via webhooks.
#[derive(Debug, Clone)]
pub struct MessagesExportRequest {
    /// Device ID to export messages for.
    pub device_id: String,
    /// Start of the time range.
    pub since: Timestamp,
    /// End of the time range.
    pub until: Timestamp,
}

} // verus!
