//! The services behind the HTTP surface: authentication, rate limiting and
//! the sync protocol.

pub mod auth;
pub mod consistency;
pub mod laws;
pub mod limiter;
pub mod session;
pub mod sync;

use vstd::prelude::*;
use std::collections::HashMap;

verus! {

/// What the authentication layer knows of a request once its token has been
/// checked. `device_id` is a placeholder here: protocol logic takes the
/// device from the request's body.
#[derive(Debug)]
pub struct AuthContext {
    pub device_id: String,
    pub token: String,
    pub permissions: Vec<String>,
    pub metadata: HashMap<String, String>,
}

/// The sync position of a device.
#[derive(Debug)]
pub struct SyncState {
    pub device_id: String,
    pub last_clock: u64,
    pub operation_count: usize,
    pub last_sync_at: i64,
}

/// Outcome of a health check.
#[derive(Debug)]
pub struct HealthStatus {
    pub healthy: bool,
    pub checks: HashMap<String, bool>,
    pub message: Option<String>,
}

} // verus!
