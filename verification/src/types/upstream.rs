//! Push notifications sent to devices.

use vstd::prelude::*;
use std::collections::HashMap;

verus! {

/// The type of a push notification event.
#[derive(Debug, Clone, Copy, PartialEq, Eq, Structural)]
pub enum PushEventType {
    MessageEnqueued,
    MessageCancelled,
    WebhooksUpdated,
    MessagesExportRequested,
    SettingsUpdated,
}

/// A push notification from the server.
#[derive(Debug, Clone)]
pub struct PushNotification {
    /// Device token.
    pub token: String,
    /// Event type.
    pub event: PushEventType,
    /// Additional event data.
    pub data: HashMap<String, String>,
}

} // verus!
