use router::{
    evaluate_check, health_record, health_response, parse_port, reply_at, reply_for, Config,
    HealthError, HealthReply, Timestamp, DEFAULT_DB_NAME, DEFAULT_MONGO_URI, DEFAULT_PORT,
    MAX_SECS, MIN_SECS, STATUS_OK, STATUS_SERVICE_UNAVAILABLE,
};

fn at(secs: i64, nanos: u32) -> Timestamp {
    Timestamp::new(secs, nanos).expect("instant in range")
}

#[test]
fn timestamp_range_edges() {
    assert!(Timestamp::new(MIN_SECS, 0).is_some());
    assert!(Timestamp::new(MAX_SECS, 999_999_999).is_some());
    assert!(Timestamp::new(MIN_SECS - 1, 0).is_none());
    assert!(Timestamp::new(MAX_SECS + 1, 0).is_none());
    assert!(Timestamp::new(0, 1_000_000_000).is_none());
    let t = at(1_700_000_000, 42);
    assert_eq!(t.secs(), 1_700_000_000);
    assert_eq!(t.nanos(), 42);
}

#[test]
fn timestamp_rfc3339_text() {
    assert_eq!(at(0, 0).to_rfc3339(), "1970-01-01T00:00:00+00:00");
    assert_eq!(at(0, 500_000_000).to_rfc3339(), "1970-01-01T00:00:00.500+00:00");
    assert_eq!(at(MIN_SECS, 0).to_rfc3339(), "0000-01-01T00:00:00+00:00");
    assert_eq!(at(MAX_SECS, 0).to_rfc3339(), "9999-12-31T23:59:59+00:00");
}

#[test]
fn response_timestamp_parses_back() {
    let now = chrono::Utc::now();
    let t = at(now.timestamp(), now.timestamp_subsec_nanos());
    let outcome = evaluate_check(true, 5, t).unwrap();
    let parsed = chrono::DateTime::parse_from_rfc3339(&outcome.response.timestamp).unwrap();
    assert_eq!(parsed.timestamp(), now.timestamp());
    assert_eq!(parsed.timestamp_subsec_nanos(), now.timestamp_subsec_nanos());
}

#[test]
fn connected_check_is_healthy_and_recorded() {
    let t = at(1_700_000_000, 0);
    let outcome = evaluate_check(true, 12, t).unwrap();
    assert_eq!(outcome.response.status, "healthy");
    assert_eq!(outcome.response.database, "connected");
    assert_eq!(outcome.response.uptime, 12);
    assert_eq!(outcome.response.timestamp, "2023-11-14T22:13:20+00:00");
    let record = outcome.record.expect("a record while connected");
    assert!(record.id.is_none());
    assert_eq!(record.service, "router");
    assert_eq!(record.status, "healthy");
    assert_eq!(record.timestamp, t);
    let details = record.details.expect("details");
    assert_eq!(details.database, "connected");
    assert_eq!(details.uptime, 12);
    let reply = reply_at(Ok(outcome.response), &t);
    assert_eq!(reply.status_code(), 200);
}

#[test]
fn disconnected_check_is_unhealthy_and_unrecorded() {
    let t = at(1_700_000_000, 0);
    let outcome = evaluate_check(false, 3, t).unwrap();
    assert_eq!(outcome.response.status, "unhealthy");
    assert_eq!(outcome.response.database, "disconnected");
    assert_eq!(outcome.response.uptime, 3);
    assert!(outcome.record.is_none());
    let reply = reply_at(Ok(outcome.response), &t);
    assert_eq!(reply.status_code(), STATUS_OK);
}

#[test]
fn uptime_follows_the_clock() {
    let first = evaluate_check(true, 7, at(100, 0)).unwrap();
    let second = evaluate_check(false, 9, at(102, 0)).unwrap();
    assert!(first.response.uptime <= second.response.uptime);
    let start = evaluate_check(true, 0, at(100, 0)).unwrap();
    assert_eq!(start.response.uptime, 0);
}

#[test]
fn repeated_checks_give_independent_records() {
    let t = at(1_000, 0);
    let a = evaluate_check(true, 1, t).unwrap();
    let b = evaluate_check(true, 1, t).unwrap();
    let ra = a.record.unwrap();
    let rb = b.record.unwrap();
    assert!(ra.id.is_none() && rb.id.is_none());
    assert_eq!(a.response.timestamp, b.response.timestamp);
}

#[test]
fn fifty_connected_checks_give_fifty_records() {
    let mut records = Vec::new();
    for i in 0..50u64 {
        let outcome = evaluate_check(true, i, at(1_000 + i as i64, 0)).unwrap();
        assert_eq!(reply_at(Ok(outcome.response), &at(1_000, 0)).status_code(), 200);
        if let Some(r) = outcome.record {
            records.push(r);
        }
    }
    assert_eq!(records.len(), 50);
    for (i, r) in records.iter().enumerate() {
        assert_eq!(r.details.as_ref().unwrap().uptime, i as u64);
    }
}

#[test]
fn health_response_and_record_builders() {
    let r = health_response(false, 4, "stamp".to_string());
    assert_eq!(r.status, "unhealthy");
    assert_eq!(r.database, "disconnected");
    assert_eq!(r.timestamp, "stamp");
    assert_eq!(r.uptime, 4);
    let c = health_record(8, at(0, 0));
    assert_eq!(c.service, "router");
    assert_eq!(c.details.unwrap().uptime, 8);
}

#[test]
fn failure_replies_503() {
    let err = HealthError { message: "boom".to_string() };
    let reply = reply_for(Err(err.clone()), "then".to_string());
    assert_eq!(reply.status_code(), STATUS_SERVICE_UNAVAILABLE);
    match reply {
        HealthReply::Unavailable(body) => {
            assert_eq!(body.status, "unhealthy");
            assert_eq!(body.timestamp, "then");
            assert_eq!(body.error, "boom");
        }
        HealthReply::Healthy(_) => panic!("expected a failure reply"),
    }
    match reply_at(Err(err), &at(0, 0)) {
        HealthReply::Unavailable(body) => {
            assert_eq!(body.timestamp, "1970-01-01T00:00:00+00:00");
        }
        HealthReply::Healthy(_) => panic!("expected a failure reply"),
    }
}

#[test]
fn port_parsing() {
    assert_eq!(parse_port("3001"), Some(3001));
    assert_eq!(parse_port("+80"), Some(80));
    assert_eq!(parse_port("0"), Some(0));
    assert_eq!(parse_port("65535"), Some(65535));
    assert_eq!(parse_port("65536"), None);
    assert_eq!(parse_port("99999999999"), None);
    assert_eq!(parse_port(""), None);
    assert_eq!(parse_port("+"), None);
    assert_eq!(parse_port("-1"), None);
    assert_eq!(parse_port("80a"), None);
    assert_eq!(parse_port(" 80"), None);
    for s in ["1", "443", "+8080", "65535", "65536", "x", "00042"] {
        assert_eq!(parse_port(s), s.parse::<u16>().ok());
    }
}

#[test]
fn config_defaults_and_overrides() {
    let d = Config::from_values(None, None, None);
    assert_eq!(d.mongo_uri, "mongodb://localhost:27017");
    assert_eq!(d.db_name, "gatezero_db");
    assert_eq!(d.port, 3001);
    assert_eq!(DEFAULT_MONGO_URI, d.mongo_uri);
    assert_eq!(DEFAULT_DB_NAME, d.db_name);
    assert_eq!(DEFAULT_PORT, d.port);
    let c = Config::from_values(
        Some("mongodb://db:27017".to_string()),
        Some("other".to_string()),
        Some("8080".to_string()),
    );
    assert_eq!(c.mongo_uri, "mongodb://db:27017");
    assert_eq!(c.db_name, "other");
    assert_eq!(c.port, 8080);
    let bad = Config::from_values(None, None, Some("port".to_string()));
    assert_eq!(bad.port, 3001);
}
