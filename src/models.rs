use vstd::prelude::*;

use crate::timestamp::Timestamp;

verus! {

/// The store's identifier of a persisted record: twelve bytes.
#[derive(Clone, Copy, Debug, PartialEq, Eq)]
pub struct RecordId {
    pub bytes: [u8; 12],
}

/// The payload a health record carries: the database status and the uptime.
#[derive(Clone, Debug)]
pub struct HealthDetails {
    pub database: String,
    pub uptime: u64,
}

/// A health check as it is persisted. `id` is `None` until the store assigns one.
#[derive(Clone, Debug)]
pub struct HealthCheck {
    pub id: Option<RecordId>,
    pub service: String,
    pub status: String,
    pub timestamp: Timestamp,
    pub details: Option<HealthDetails>,
}

/// The answer to one health request.
#[derive(Clone, Debug)]
pub struct HealthResponse {
    pub status: String,
    pub timestamp: String,
    pub database: String,
    pub uptime: u64,
}

/// An unexpected failure inside the service itself (not an unreachable database).
#[derive(Clone, Debug)]
pub struct HealthError {
    pub message: String,
}

} // verus!
