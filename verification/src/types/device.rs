//! Registered devices.

use vstd::prelude::*;
use super::time::Timestamp;

verus! {

/// A registered device.
#[derive(Debug, Clone)]
pub struct Device {
    pub id: String,
    pub name: String,
    pub created_at: Timestamp,
    pub updated_at: Timestamp,
    pub deleted_at: Option<Timestamp>,
    pub last_seen: Timestamp,
    pub sim_cards: Option<Vec<SimCard>>,
}

/// Information about a SIM card installed in a device.
#[derive(Debug, Clone)]
pub struct SimCard {
    pub slot_index: i32,
    pub sim_number: i32,
    pub phone_number: Option<String>,
    pub carrier_name: Option<String>,
    pub iccid: Option<String>,
}

} // verus!
