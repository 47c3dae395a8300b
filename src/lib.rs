//! A health-check service: the instant model, the record and response
//! models, the decisions made on each check, the mapping of a check's
//! outcome to an HTTP reply, and the service's configuration.

mod checks;
mod config;
mod models;
mod reply;
mod service;
mod timestamp;

pub use models::{HealthCheck, HealthDetails, HealthError, HealthResponse, RecordId};
pub use service::{
    evaluate_check, health_record, health_response, CheckOutcome, CONNECTED, DISCONNECTED,
    HEALTHY, HEALTH_COLLECTION, SERVICE_NAME, UNHEALTHY,
};
pub use timestamp::{Timestamp, MAX_SECS, MIN_SECS, NANOS_PER_SEC};
pub use config::{parse_port, Config, DEFAULT_DB_NAME, DEFAULT_MONGO_URI, DEFAULT_PORT};
pub use reply::{reply_at, reply_for, FailureBody, HealthReply, STATUS_OK, STATUS_SERVICE_UNAVAILABLE};
pub use checks::{
    lemma_connected_check, lemma_disconnected_check, lemma_repeated_checks_record_each,
    lemma_response_timestamp, lemma_uptime_non_decreasing,
};
