use quorum_credit::metrics::{escape_label, ApiMetrics};
use std::time::Duration;

#[test]
fn records_and_exports_per_endpoint() {
    let mut metrics = ApiMetrics::new();
    metrics.record("GET /v1/users", Duration::from_millis(3), false);
    metrics.record("GET /v1/users", Duration::from_millis(20), true);
    metrics.record("POST /v1/users", Duration::from_millis(150), false);

    let out = metrics.export_prometheus();
    assert!(out.contains("api_requests_total{endpoint=\"GET /v1/users\"} 2"));
    assert!(out.contains("api_errors_total{endpoint=\"GET /v1/users\"} 1"));
    assert!(out.contains("api_request_duration_seconds_count{endpoint=\"POST /v1/users\"} 1"));
    assert!(out.contains("api_request_duration_seconds_bucket{endpoint=\"GET /v1/users\",le=\"+Inf\"} 2"));
}

#[test]
fn latency_sum_is_exact_seconds() {
    let mut metrics = ApiMetrics::new();
    metrics.record("GET /a", Duration::from_millis(3), false);
    metrics.record("GET /a", Duration::from_millis(20), false);
    let out = metrics.export_prometheus();
    assert!(out.contains("api_request_duration_seconds_sum{endpoint=\"GET /a\"} 0.023"));
    assert!(out.contains("api_request_duration_seconds_bucket{endpoint=\"GET /a\",le=\"0.005\"} 1"));
    assert!(out.contains("api_request_duration_seconds_bucket{endpoint=\"GET /a\",le=\"0.025\"} 2"));
}

#[test]
fn label_escaping() {
    assert_eq!(escape_label("a\"b\\c\nd"), "a\\\"b\\\\c\\nd");
}

#[test]
fn inf_equals_count_equals_requests_and_buckets_never_decrease() {
    let mut metrics = ApiMetrics::new();
    for (ms, err) in [(1u64, false), (7, true), (30, false), (3_000, true), (20_000, false)] {
        metrics.record("e", Duration::from_millis(ms), err);
    }
    let out = metrics.export_prometheus();
    assert!(out.contains("api_requests_total{endpoint=\"e\"} 5"));
    assert!(out.contains("api_errors_total{endpoint=\"e\"} 2"));
    assert!(out.contains("api_request_duration_seconds_bucket{endpoint=\"e\",le=\"+Inf\"} 5"));
    assert!(out.contains("api_request_duration_seconds_count{endpoint=\"e\"} 5"));
    let counts: Vec<u64> = out
        .lines()
        .filter(|l| l.starts_with("api_request_duration_seconds_bucket"))
        .map(|l| l.rsplit(' ').next().unwrap().parse().unwrap())
        .collect();
    assert_eq!(counts.len(), 12);
    assert!(counts.windows(2).all(|w| w[0] <= w[1]));
    assert_eq!(counts[10], 4);
}
