use vstd::prelude::*;

use crate::models::HealthError;
use crate::reply::{is_reply_for, status_code_of, HealthReply, STATUS_OK};
use crate::service::{
    is_outcome_for, CheckOutcome, CONNECTED, DISCONNECTED, HEALTHY, SERVICE_NAME, UNHEALTHY,
};
use crate::timestamp::{rfc3339_of, Timestamp};

verus! {

/// While the database answers, a check replies 200 with a healthy, connected
/// response, and hands over exactly one record of this service to append.
pub proof fn lemma_connected_check(
    o: CheckOutcome,
    uptime: u64,
    at: Timestamp,
    reply: HealthReply,
    stamp: Seq<char>,
)
    requires
        is_outcome_for(o, true, uptime, at),
        is_reply_for(reply, Ok::<_, HealthError>(o.response), stamp),
    ensures
        status_code_of(reply) == STATUS_OK,
        o.response.status@ == HEALTHY@,
        o.response.database@ == CONNECTED@,
        o.record is Some,
        o.record->0.service@ == SERVICE_NAME@,
{
}

/// While the database does not answer, a check replies 200 with an unhealthy,
/// disconnected response, and hands over no record.
pub proof fn lemma_disconnected_check(
    o: CheckOutcome,
    uptime: u64,
    at: Timestamp,
    reply: HealthReply,
    stamp: Seq<char>,
)
    requires
        is_outcome_for(o, false, uptime, at),
        is_reply_for(reply, Ok::<_, HealthError>(o.response), stamp),
    ensures
        status_code_of(reply) == STATUS_OK,
        o.response.status@ == UNHEALTHY@,
        o.response.database@ == DISCONNECTED@,
        o.record is None,
{
}

/// Of two checks in sequence, whose uptime readings come from a clock that
/// never goes back, the second reports at least the uptime of the first.
pub proof fn lemma_uptime_non_decreasing(
    first: CheckOutcome,
    connected1: bool,
    uptime1: u64,
    at1: Timestamp,
    second: CheckOutcome,
    connected2: bool,
    uptime2: u64,
    at2: Timestamp,
)
    requires
        is_outcome_for(first, connected1, uptime1, at1),
        is_outcome_for(second, connected2, uptime2, at2),
        uptime1 <= uptime2,
    ensures
        first.response.uptime <= second.response.uptime,
{
}

/// Every response carries the RFC 3339 text of the instant of its check.
pub proof fn lemma_response_timestamp(o: CheckOutcome, connected: bool, uptime: u64, at: Timestamp)
    requires
        is_outcome_for(o, connected, uptime, at),
    ensures
        o.response.timestamp@ == rfc3339_of(at@.0, at@.1),
{
}

/// Two checks while the database answers each produce their own response and
/// their own record, neither carrying an identifier: the store gives each one.
pub proof fn lemma_repeated_checks_record_each(
    first: CheckOutcome,
    uptime1: u64,
    at1: Timestamp,
    second: CheckOutcome,
    uptime2: u64,
    at2: Timestamp,
)
    requires
        is_outcome_for(first, true, uptime1, at1),
        is_outcome_for(second, true, uptime2, at2),
    ensures
        first.record is Some && first.record->0.id is None,
        second.record is Some && second.record->0.id is None,
        first.response.uptime == uptime1 && second.response.uptime == uptime2,
        first.response.timestamp@ == rfc3339_of(at1@.0, at1@.1),
        second.response.timestamp@ == rfc3339_of(at2@.0, at2@.1),
{
}

} // verus!
