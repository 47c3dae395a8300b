use vstd::prelude::*;

use crate::models::{HealthCheck, HealthDetails, HealthError, HealthResponse};
use crate::timestamp::{rfc3339_of, Timestamp};

verus! {

/// The name this service writes into each record.
pub const SERVICE_NAME: &'static str = "router";

/// Status of a service whose database answered.
pub const HEALTHY: &'static str = "healthy";

/// Status of a service whose database did not answer.
pub const UNHEALTHY: &'static str = "unhealthy";

/// Database status when it answered the probe.
pub const CONNECTED: &'static str = "connected";

/// Database status when it did not answer the probe.
pub const DISCONNECTED: &'static str = "disconnected";

/// The name of the collection that holds the health records.
pub const HEALTH_COLLECTION: &'static str = "health_checks";

/// The service status for a probe result.
pub open spec fn status_of(connected: bool) -> Seq<char> {
    if connected {
        HEALTHY@
    } else {
        UNHEALTHY@
    }
}

/// The database status for a probe result.
pub open spec fn database_of(connected: bool) -> Seq<char> {
    if connected {
        CONNECTED@
    } else {
        DISCONNECTED@
    }
}

/// `r` is the response to a check with this probe result, uptime and timestamp text.
pub open spec fn is_response_for(
    r: HealthResponse,
    connected: bool,
    uptime: u64,
    timestamp: Seq<char>,
) -> bool {
    &&& r.status@ == status_of(connected)
    &&& r.database@ == database_of(connected)
    &&& r.timestamp@ == timestamp
    &&& r.uptime == uptime
}

/// `c` is the record of a successful probe at `at`, `uptime` seconds after start.
pub open spec fn is_record_for(c: HealthCheck, uptime: u64, at: Timestamp) -> bool {
    &&& c.id is None
    &&& c.service@ == SERVICE_NAME@
    &&& c.status@ == HEALTHY@
    &&& c.timestamp == at
    &&& c.details is Some
    &&& c.details->0.database@ == CONNECTED@
    &&& c.details->0.uptime == uptime
}

/// What one check produces: the record to persist, if any, and the response.
#[derive(Clone, Debug)]
pub struct CheckOutcome {
    pub record: Option<HealthCheck>,
    pub response: HealthResponse,
}

/// `o` is the outcome of a check with this probe result at `at`, `uptime` seconds
/// after start: a record exactly when the database answered.
pub open spec fn is_outcome_for(o: CheckOutcome, connected: bool, uptime: u64, at: Timestamp) -> bool {
    &&& (o.record is Some <==> connected)
    &&& (o.record is Some ==> is_record_for(o.record->0, uptime, at))
    &&& is_response_for(o.response, connected, uptime, rfc3339_of(at@.0, at@.1))
}

/// The response to a check, given the probe result, the uptime in seconds and
/// the timestamp text.
pub fn health_response(connected: bool, uptime: u64, timestamp: String) -> (r: HealthResponse)
    ensures
        is_response_for(r, connected, uptime, timestamp@),
{
    let status = if connected {
        HEALTHY.to_owned()
    } else {
        UNHEALTHY.to_owned()
    };
    let database = if connected {
        CONNECTED.to_owned()
    } else {
        DISCONNECTED.to_owned()
    };
    HealthResponse { status, timestamp, database, uptime }
}

/// The record of a successful probe at `at`, `uptime` seconds after start; the
/// store assigns its identifier.
pub fn health_record(uptime: u64, at: Timestamp) -> (r: HealthCheck)
    ensures
        is_record_for(r, uptime, at),
{
    let details = HealthDetails { database: CONNECTED.to_owned(), uptime };
    HealthCheck {
        id: None,
        service: SERVICE_NAME.to_owned(),
        status: HEALTHY.to_owned(),
        timestamp: at,
        details: Some(details),
    }
}

/// Decides one check from the probe result, the uptime in seconds and the
/// current instant. It never fails: an unreachable database is reported in the
/// response, not as an error.
pub fn evaluate_check(connected: bool, uptime: u64, at: Timestamp) -> (r: Result<CheckOutcome, HealthError>)
    ensures
        r is Ok,
        r is Ok ==> is_outcome_for(r->Ok_0, connected, uptime, at),
{
    let record = if connected {
        Some(health_record(uptime, at))
    } else {
        None
    };
    let response = health_response(connected, uptime, at.to_rfc3339());
    Ok(CheckOutcome { record, response })
}

} // verus!
