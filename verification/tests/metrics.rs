use auth_gateway::metrics::{split_key, MetricsCollector};

#[test]
fn test_increment_counter() {
    let mut collector = MetricsCollector::new();

    collector.increment_counter("test_metric", &[("status", "success")]);
    collector.increment_counter("test_metric", &[("status", "success")]);
    collector.increment_counter("test_metric", &[("status", "error")]);

    assert_eq!(collector.get_counter("test_metric", &[("status", "success")]), 2);
    assert_eq!(collector.get_counter("test_metric", &[("status", "error")]), 1);
}

#[test]
fn test_record_auth_request() {
    let mut collector = MetricsCollector::new();

    collector.record_auth_request("202");
    collector.record_auth_request("401");
    collector.record_auth_request("202");

    assert_eq!(collector.get_counter("byoidc_auth_requests_total", &[("status", "202")]), 2);
    assert_eq!(collector.get_counter("byoidc_auth_requests_total", &[("status", "401")]), 1);
}

#[test]
fn test_build_metric_key() {
    let collector = MetricsCollector::new();

    assert_eq!(collector.build_metric_key("test", &[]), "test");
    assert_eq!(
        collector.build_metric_key("test", &[("key", "value")]),
        "test:key=value"
    );
    assert_eq!(
        collector.build_metric_key("test", &[("key1", "value1"), ("key2", "value2")]),
        "test:key1=value1,key2=value2"
    );
}

#[test]
fn test_get_summary() {
    let mut collector = MetricsCollector::new();

    collector.record_auth_request("202");
    collector.record_auth_request("202");
    collector.record_auth_request("401");
    collector.record_auth_service_error("timeout");

    let summary = collector.get_summary();
    assert_eq!(summary.total_requests, 3);
    assert_eq!(summary.successful_requests, 2);
    assert_eq!(summary.failed_requests, 1);
    assert_eq!(summary.service_errors, 1);
    assert_eq!(
        summary.successful_requests as f64 / summary.total_requests as f64,
        2.0 / 3.0
    );
}

#[test]
fn test_export_prometheus_format() {
    let mut collector = MetricsCollector::new();

    collector.increment_counter("test_counter", &[("status", "success")]);
    collector.increment_counter("test_counter", &[("status", "error")]);

    let prometheus_output = collector.export_prometheus_format();

    assert!(prometheus_output.contains("# HELP test_counter"));
    assert!(prometheus_output.contains("# TYPE test_counter counter"));
    assert!(prometheus_output.contains("status=\"success\""));
    assert!(prometheus_output.contains("status=\"error\""));
}

#[test]
fn new_collector_counts_nothing() {
    let collector = MetricsCollector::new();
    assert_eq!(collector.recorded(), 0);
    assert_eq!(collector.get_counter("anything", &[]), 0);
    assert_eq!(collector.total("anything"), 0);
    assert_eq!(collector.export_prometheus_format(), "");
    let summary = collector.get_summary();
    assert_eq!(summary.total_requests, 0);
    assert_eq!(summary.successful_requests, 0);
    assert_eq!(summary.failed_requests, 0);
    assert_eq!(summary.service_errors, 0);
    assert_eq!(summary.config_reloads, 0);
}

#[test]
fn counters_are_told_apart_by_their_whole_key() {
    let mut collector = MetricsCollector::new();
    collector.increment_counter("hits", &[]);
    collector.increment_counter("hits", &[("a", "1")]);
    collector.increment_counter("hits", &[("a", "1"), ("b", "2")]);
    collector.increment_counter("hits", &[("b", "2"), ("a", "1")]);
    collector.increment_counter("hits", &[("a", "1"), ("b", "2")]);

    assert_eq!(collector.get_counter("hits", &[]), 1);
    assert_eq!(collector.get_counter("hits", &[("a", "1")]), 1);
    assert_eq!(collector.get_counter("hits", &[("a", "1"), ("b", "2")]), 2);
    assert_eq!(collector.get_counter("hits", &[("b", "2"), ("a", "1")]), 1);
    assert_eq!(collector.get_counter("hit", &[]), 0);
    assert_eq!(collector.total("hits"), 5);
    assert_eq!(collector.total("hit"), 0);
    assert_eq!(collector.recorded(), 5);
}

#[test]
fn summary_counts() {
    let mut collector = MetricsCollector::new();
    for status in ["202", "202", "401", "403", "403", "500", "200"] {
        collector.record_auth_request(status);
    }
    collector.record_auth_service_error("timeout");
    collector.record_auth_service_error("refused");
    collector.record_auth_service_error("timeout");
    collector.record_config_reload(true);
    collector.record_config_reload(false);
    collector.record_config_reload(true);

    let summary = collector.get_summary();
    assert_eq!(summary.total_requests, 7);
    assert_eq!(summary.successful_requests, 2);
    assert_eq!(summary.failed_requests, 3);
    assert_eq!(summary.service_errors, 3);
    assert_eq!(summary.config_reloads, 2);
    assert_eq!(collector.recorded(), 13);
    assert_eq!(collector.get_counter("byoidc_auth_service_errors_total", &[("type", "timeout")]), 2);
    assert_eq!(collector.get_counter("byoidc_config_reload_total", &[("status", "error")]), 1);
}

#[test]
fn reset_forgets_every_count() {
    let mut collector = MetricsCollector::new();
    collector.record_auth_request("202");
    collector.record_config_reload(true);
    collector.reset();
    assert_eq!(collector.recorded(), 0);
    assert_eq!(collector.get_counter("byoidc_auth_requests_total", &[("status", "202")]), 0);
    assert_eq!(collector.export_prometheus_format(), "");
    collector.record_auth_request("202");
    assert_eq!(collector.get_counter("byoidc_auth_requests_total", &[("status", "202")]), 1);
}

#[test]
fn exposition_groups_counters_by_metric_in_order_of_first_appearance() {
    let mut collector = MetricsCollector::new();
    collector.increment_counter("requests", &[("status", "202")]);
    collector.increment_counter("errors", &[]);
    collector.increment_counter("requests", &[("status", "401"), ("route", "api")]);
    collector.increment_counter("requests", &[("status", "202")]);
    collector.increment_counter("errors", &[]);
    collector.increment_counter("errors", &[]);

    assert_eq!(
        collector.export_prometheus_format(),
        "# HELP requests BYOIDC WASM Plugin metric\n\
         # TYPE requests counter\n\
         requests{status=\"202\"} 2\n\
         requests{status=\"401\",route=\"api\"} 1\n\
         \n\
         # HELP errors BYOIDC WASM Plugin metric\n\
         # TYPE errors counter\n\
         errors 3\n\
         \n"
    );
}

#[test]
fn exposition_of_unusual_labels() {
    let mut collector = MetricsCollector::new();
    // A value with a comma splits into two pieces; a piece without `=` is
    // shown under the name `label`; only the first `=` of a piece separates.
    collector.increment_counter("m", &[("k", "a,b"), ("x", "y=z")]);
    collector.increment_counter("m", &[("", "")]);
    assert_eq!(
        collector.export_prometheus_format(),
        "# HELP m BYOIDC WASM Plugin metric\n\
         # TYPE m counter\n\
         m{k=\"a\",label=\"b\",x=\"y=z\"} 1\n\
         m{=\"\"} 1\n\
         \n"
    );
}

#[test]
fn keys_split_at_their_first_colon() {
    assert_eq!(split_key("name"), ("name", ""));
    assert_eq!(split_key("name:a=b"), ("name", "a=b"));
    assert_eq!(split_key("name:a=b:c"), ("name", "a=b:c"));
    assert_eq!(split_key("name:"), ("name", ""));
    assert_eq!(split_key(":x"), ("", "x"));
    assert_eq!(split_key(""), ("", ""));
}
