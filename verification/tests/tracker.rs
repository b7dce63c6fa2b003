use pg_documentdb_gw::requests::request_tracker::{RequestIntervalKind, RequestTracker};
use pg_documentdb_gw::service::latency::{
    outcome_codes, verbose_latency_message, ErrorOutcome, LatencyContext,
};

fn kinds() -> Vec<RequestIntervalKind> {
    vec![
        RequestIntervalKind::ReadRequest,
        RequestIntervalKind::HandleMessage,
        RequestIntervalKind::FormatRequest,
        RequestIntervalKind::HandleRequest,
        RequestIntervalKind::ProcessRequest,
        RequestIntervalKind::PostgresBeginTransaction,
        RequestIntervalKind::PostgresSetStatementTimeout,
        RequestIntervalKind::PostgresCommitTransaction,
        RequestIntervalKind::WriteResponse,
    ]
}

#[test]
fn a_new_tracker_holds_nothing() {
    let tracker = RequestTracker::new();
    let other = RequestTracker::default();
    for kind in kinds() {
        assert_eq!(tracker.get_interval_elapsed_time(kind), 0);
        assert_eq!(other.get_interval_elapsed_time(kind), 0);
    }
}

#[test]
fn recordings_add_up_per_phase() {
    let mut tracker = RequestTracker::new();
    for (i, kind) in kinds().into_iter().enumerate() {
        tracker.record_elapsed(kind, 10 + i as u128);
        tracker.record_elapsed(kind, 100);
    }
    for (i, kind) in kinds().into_iter().enumerate() {
        assert_eq!(tracker.get_interval_elapsed_time(kind), 110 + i as i64);
        assert_eq!(tracker.request_interval_metrics_array[i], 110 + i as i64);
    }
}

#[test]
fn recordings_wrap_around() {
    let mut tracker = RequestTracker::new();
    let kind = RequestIntervalKind::WriteResponse;
    tracker.record_elapsed(kind, i64::MAX as u128);
    tracker.record_elapsed(kind, 1);
    assert_eq!(tracker.get_interval_elapsed_time(kind), i64::MIN);
    tracker.record_elapsed(kind, 1 << 64);
    assert_eq!(tracker.get_interval_elapsed_time(kind), i64::MIN);
    tracker.record_elapsed(kind, (1 << 63) + 5);
    assert_eq!(tracker.get_interval_elapsed_time(kind), 5);
}

#[test]
fn a_duration_is_measured_from_its_start() {
    let mut tracker = RequestTracker::new();
    let start = tokio::time::Instant::now();
    let mut spins: u64 = 0;
    while start.elapsed().as_millis() < 2 {
        spins += 1;
    }
    tracker.record_duration(RequestIntervalKind::ProcessRequest, start);
    let nanos = tracker.get_interval_elapsed_time(RequestIntervalKind::ProcessRequest);
    assert!(spins > 0 && nanos >= 2_000_000 && nanos < 20_000_000_000);
    assert_eq!(tracker.get_interval_elapsed_time(RequestIntervalKind::ReadRequest), 0);
}

#[test]
fn a_latency_line_lists_every_interval() {
    let mut tracker = RequestTracker::new();
    for (i, kind) in kinds().into_iter().enumerate() {
        tracker.record_elapsed(kind, i as u128 + 1);
    }
    let context = LatencyContext {
        address: "10.0.0.1".to_string(),
        transport_protocol: "TCP".to_string(),
        database_name: Some("db".to_string()),
        collection_name: None,
        operation_name: "Find".to_string(),
        error: Some(ErrorOutcome { status_code: 400, code: -20 }),
    };
    assert_eq!(
        verbose_latency_message(&tracker, &context),
        "Latency for Mongo Request with interval timings (ns): ReadRequest=1, HandleMessage=2 FormatRequest=3, HandleRequest=4, ProcessRequest=5, PostgresBeginTransaction=6, PostgresSetStatementTimeout=7, PostgresCommitTransaction=8, WriteResponse=9, Address=10.0.0.1, TransportProtocol=TCP, DatabaseName=db, CollectionName=, OperationName=Find, StatusCode=400, SubStatusCode=0, ErrorCode=-20"
    );
    assert_eq!(outcome_codes(None), (200, 0));
}
