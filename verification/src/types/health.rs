//! Service health reports.

use vstd::prelude::*;
use std::collections::HashMap;

verus! {

/// Health check response from the API.
#[derive(Debug, Clone, PartialEq)]
pub struct HealthResponse {
    pub status: HealthStatus,
    pub version: Option<String>,
    pub release_id: Option<i32>,
    pub checks: Option<HealthChecks>,
}

/// The health status of a component.
#[derive(Debug, Clone, Copy, PartialEq, Eq, Structural)]
pub enum HealthStatus {
    Pass,
    Warn,
    Fail,
    Unknown,
}

/// A map of health check names to results.
pub type HealthChecks = HashMap<String, HealthCheck>;

/// A single health check result.
#[derive(Debug, Clone, PartialEq)]
pub struct HealthCheck {
    pub description: Option<String>,
    pub observed_unit: Option<String>,
    pub observed_value: i32,
    pub status: HealthStatus,
}

} // verus!
