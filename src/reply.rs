use vstd::prelude::*;

use crate::models::{HealthError, HealthResponse};
use crate::service::UNHEALTHY;
use crate::timestamp::{rfc3339_of, Timestamp};

verus! {

/// HTTP status of a check that produced a response.
pub const STATUS_OK: u16 = 200;

/// HTTP status of a check that failed inside the service.
pub const STATUS_SERVICE_UNAVAILABLE: u16 = 503;

/// The body sent when the service itself failed.
#[derive(Clone, Debug)]
pub struct FailureBody {
    pub status: String,
    pub timestamp: String,
    pub error: String,
}

/// The reply to one health request.
#[derive(Clone, Debug)]
pub enum HealthReply {
    /// The check's response, sent with 200.
    Healthy(HealthResponse),
    /// A failure of the service itself, sent with 503.
    Unavailable(FailureBody),
}

/// The HTTP status of a reply.
pub open spec fn status_code_of(r: HealthReply) -> u16 {
    match r {
        HealthReply::Healthy(_) => STATUS_OK,
        HealthReply::Unavailable(_) => STATUS_SERVICE_UNAVAILABLE,
    }
}

/// `r` is the reply to a check's result, with `timestamp` the text written
/// into a failure body.
pub open spec fn is_reply_for(
    r: HealthReply,
    result: Result<HealthResponse, HealthError>,
    timestamp: Seq<char>,
) -> bool {
    match result {
        Ok(response) => r == HealthReply::Healthy(response),
        Err(e) => match r {
            HealthReply::Unavailable(body) => {
                &&& body.status@ == UNHEALTHY@
                &&& body.timestamp@ == timestamp
                &&& body.error@ == e.message@
            },
            HealthReply::Healthy(_) => false,
        },
    }
}

impl HealthReply {
    /// 200 for a response, 503 for a failure of the service.
    pub fn status_code(&self) -> (r: u16)
        ensures
            r == status_code_of(*self),
    {
        match self {
            HealthReply::Healthy(_) => STATUS_OK,
            HealthReply::Unavailable(_) => STATUS_SERVICE_UNAVAILABLE,
        }
    }
}

/// The reply to a check's result; a failure body carries `timestamp`.
pub fn reply_for(result: Result<HealthResponse, HealthError>, timestamp: String) -> (r: HealthReply)
    ensures
        is_reply_for(r, result, timestamp@),
{
    match result {
        Ok(response) => HealthReply::Healthy(response),
        Err(e) => HealthReply::Unavailable(
            FailureBody { status: UNHEALTHY.to_owned(), timestamp, error: e.message },
        ),
    }
}

/// The reply to a check's result; a failure body carries `at` as RFC 3339 text.
pub fn reply_at(result: Result<HealthResponse, HealthError>, at: &Timestamp) -> (r: HealthReply)
    ensures
        is_reply_for(r, result, rfc3339_of(at@.0, at@.1)),
{
    match result {
        Ok(response) => HealthReply::Healthy(response),
        Err(e) => reply_for(Err(e), at.to_rfc3339()),
    }
}

} // verus!
