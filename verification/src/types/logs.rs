//! Server log entries.

use vstd::prelude::*;
use std::collections::HashMap;
use super::time::Timestamp;

verus! {

/// The severity of a log entry.
#[derive(Debug, Clone, Copy, PartialEq, Eq, Structural)]
pub enum LogEntryPriority {
    Debug,
    Info,
    Warn,
    Error,
}

/// A log entry recorded by the server.
#[derive(Debug, Clone)]
pub struct LogEntry {
    pub id: u64,
    pub priority: LogEntryPriority,
    pub module: String,
    pub message: String,
    pub context: HashMap<String, String>,
    pub created_at: Timestamp,
}

} // verus!
