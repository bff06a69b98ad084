//! Health report decoding tests.

use avalanche_ops::health::{health_url_path, Response};

#[test]
fn test_api_health() {
    let data = "{\"checks\":{\"C\":{\"message\":{\"consensus\":{\"longestRunningBlock\":\"0s\",\"outstandingBlocks\":0},\"vm\":null},\"timestamp\":\"2022-02-16T08:15:01.766696642Z\",\"duration\":5861},\"P\":{\"message\":{\"consensus\":{\"longestRunningBlock\":\"0s\",\"outstandingBlocks\":0},\"vm\":{\"percentConnected\":1}},\"timestamp\":\"2022-02-16T08:15:01.766695342Z\",\"duration\":19790},\"X\":{\"message\":{\"consensus\":{\"outstandingVertices\":0,\"snowstorm\":{\"outstandingTransactions\":0}},\"vm\":null},\"timestamp\":\"2022-02-16T08:15:01.766712432Z\",\"duration\":8731},\"bootstrapped\":{\"message\":[],\"timestamp\":\"2022-02-16T08:15:01.766704522Z\",\"duration\":8120},\"network\":{\"message\":{\"connectedPeers\":4,\"sendFailRate\":0.016543146704195332,\"timeSinceLastMsgReceived\":\"1.766701162s\",\"timeSinceLastMsgSent\":\"3.766701162s\"},\"timestamp\":\"2022-02-16T08:15:01.766702722Z\",\"duration\":5600},\"router\":{\"message\":{\"longestRunningRequest\":\"0s\",\"outstandingRequests\":0},\"timestamp\":\"2022-02-16T08:15:01.766689781Z\",\"duration\":11210}},\"healthy\":true}";
    let parsed = Response::parse_from_str(data).unwrap();
    assert!(parsed.healthy.unwrap());
}

#[test]
fn report_fields_decode() {
    let data = "{\"checks\":{\"C\":{\"timestamp\":\"2022-02-16T08:15:01Z\",\"duration\":5861,\"contiguousFailures\":2,\"error\":\"still syncing\",\"timeOfFirstFailure\":\"2022-02-16T08:00:00Z\"}},\"healthy\":false}";
    let parsed = Response::parse_from_str(data).unwrap();
    assert_eq!(parsed.healthy, Some(false));
    let checks = parsed.checks.unwrap();
    assert_eq!(checks.len(), 1);
    let (name, check) = &checks[0];
    assert_eq!(name, "C");
    assert_eq!(check.error.as_deref(), Some("still syncing"));
    // 2022-02-16T08:15:01Z as seconds since the epoch
    assert_eq!(check.timestamp.seconds, 1644999301);
    assert_eq!(check.timestamp.nanos, 0);
    assert_eq!(check.duration, Some(5861));
    assert_eq!(check.contiguous_failures, Some(2));
    assert_eq!(check.time_of_first_failure.unwrap().seconds, 1644998400);
}

#[test]
fn report_subsecond_timestamp() {
    let data = "{\"checks\":{\"C\":{\"timestamp\":\"2022-02-16T08:15:01.766696642Z\",\"duration\":1}},\"healthy\":true}";
    let parsed = Response::parse_from_str(data).unwrap();
    let checks = parsed.checks.unwrap();
    assert_eq!(checks[0].1.timestamp.seconds, 1644999301);
    assert_eq!(checks[0].1.timestamp.nanos, 766696642);
}

#[test]
fn report_absent_members() {
    let parsed = Response::parse_from_str("{}").unwrap();
    assert!(parsed.checks.is_none());
    assert!(parsed.healthy.is_none());

    let parsed = Response::parse_from_str("{\"checks\":null,\"healthy\":null}").unwrap();
    assert!(parsed.checks.is_none());
    assert!(parsed.healthy.is_none());
}

#[test]
fn report_decode_errors() {
    // malformed JSON
    assert!(Response::parse_from_str("{").is_err());
    // a field of the wrong type
    assert!(Response::parse_from_str("{\"healthy\":\"yes\"}").is_err());
    assert!(Response::parse_from_str("{\"checks\":{\"C\":{\"timestamp\":\"2022-02-16T08:15:01Z\",\"duration\":\"long\"}}}").is_err());
    // a missing or unparsable timestamp
    assert!(Response::parse_from_str("{\"checks\":{\"C\":{\"duration\":1}}}").is_err());
    assert!(
        Response::parse_from_str("{\"checks\":{\"C\":{\"timestamp\":\"yesterday\"}}}").is_err()
    );
}

#[test]
fn url_paths() {
    assert_eq!(health_url_path(false), "ext/health");
    assert_eq!(health_url_path(true), "ext/health/liveness");
}
