//! Verified core of the SMSGate API client: request preparation, validation
//! of domain values, webhook signature checks and message encryption.

pub mod client;
pub mod config;
pub mod encoding;
pub mod encryption;
pub mod error;
pub mod http;
pub mod text;
pub mod text_map;
pub mod types;
pub mod webhook;

use vstd::prelude::*;

pub use config::ClientConfig;
pub use error::Error;

verus! {

/// Current version of the crate.
pub const VERSION: &'static str = "0.3.0";

/// Default base URL for the SMSGate API.
pub const BASE_URL: &'static str = "https://api.sms-gate.app/3rdparty/v1";

} // verus!
