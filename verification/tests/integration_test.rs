use rsocket_ffi::metrics::{
    rsocket_go_performance_metrics_create, rsocket_go_performance_metrics_get_bytes_received,
    rsocket_go_performance_metrics_get_bytes_sent, rsocket_go_performance_metrics_get_error_count,
    rsocket_go_performance_metrics_get_request_count,
    rsocket_go_performance_metrics_get_response_count, rsocket_go_performance_metrics_get_uptime_seconds,
    rsocket_go_performance_metrics_record_error, rsocket_go_performance_metrics_record_request,
    rsocket_go_performance_metrics_record_response,
};
use rsocket_ffi::transport::{rsocket_go_get_supported_transports, rsocket_go_validate_websocket_url};

#[test]
fn integration_test_test_performance_metrics() {
    let mut metrics = rsocket_go_performance_metrics_create(0);

    rsocket_go_performance_metrics_record_request(&mut metrics, 100);
    rsocket_go_performance_metrics_record_response(&mut metrics, 200);
    rsocket_go_performance_metrics_record_error(&mut metrics);

    assert_eq!(rsocket_go_performance_metrics_get_request_count(Some(&metrics)), 1);
    assert_eq!(rsocket_go_performance_metrics_get_response_count(Some(&metrics)), 1);
    assert_eq!(rsocket_go_performance_metrics_get_error_count(Some(&metrics)), 1);
    assert_eq!(rsocket_go_performance_metrics_get_bytes_sent(Some(&metrics)), 100);
    assert_eq!(rsocket_go_performance_metrics_get_bytes_received(Some(&metrics)), 200);
}

#[test]
fn test_websocket_url_validation() {
    assert_eq!(rsocket_go_validate_websocket_url(Some("ws://localhost:8080")), 1);
    assert_eq!(rsocket_go_validate_websocket_url(Some("wss://example.com/socket")), 1);
    assert_eq!(rsocket_go_validate_websocket_url(Some("http://localhost")), 0);
    assert_eq!(rsocket_go_validate_websocket_url(Some("ws:/localhost")), 0);
    assert_eq!(rsocket_go_validate_websocket_url(Some("")), 0);
    assert_eq!(rsocket_go_validate_websocket_url(None), 0);
}

#[test]
fn test_supported_transports() {
    let transports = rsocket_go_get_supported_transports();
    assert!(transports.contains("tcp"));
    assert!(transports.contains("websocket"));
}

#[test]
fn test_go_counters_wrap_around() {
    let mut metrics = rsocket_go_performance_metrics_create(10);
    rsocket_go_performance_metrics_record_request(&mut metrics, usize::MAX);
    rsocket_go_performance_metrics_record_request(&mut metrics, 3);
    assert_eq!(rsocket_go_performance_metrics_get_request_count(Some(&metrics)), 2);
    assert_eq!(rsocket_go_performance_metrics_get_bytes_sent(Some(&metrics)), 2);
    assert_eq!(rsocket_go_performance_metrics_get_uptime_seconds(Some(&metrics), 25), 15);
    assert_eq!(rsocket_go_performance_metrics_get_uptime_seconds(None, 25), 0);
}

#[test]
fn integration_test_test_payload_creation() {
    let payload = rsocket_ffi::payload_bindings::rsocket_go_payload_create_from_string(
        Some("test data"),
        Some("test metadata"),
    );
    let data_len = rsocket_ffi::payload_bindings::rsocket_go_payload_get_data_length(Some(&payload));
    assert_eq!(data_len, 9);
    let metadata_len = rsocket_ffi::payload_bindings::rsocket_go_payload_get_metadata_length(Some(&payload));
    assert_eq!(metadata_len, 13);
}
