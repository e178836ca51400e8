use rsocket_ffi::metrics::{
    rsocket_performance_metrics_create, rsocket_performance_metrics_get_bytes_received,
    rsocket_performance_metrics_get_bytes_sent, rsocket_performance_metrics_get_error_count,
    rsocket_performance_metrics_get_request_count, rsocket_performance_metrics_get_response_count,
    rsocket_performance_metrics_get_uptime_seconds, rsocket_performance_metrics_record_error,
    rsocket_performance_metrics_record_request, rsocket_performance_metrics_record_response,
};
use rsocket_ffi::payload_bindings::{
    rsocket_payload_create, rsocket_payload_create_from_string, rsocket_payload_get_data_length,
    rsocket_payload_get_metadata_length,
};
use rsocket_ffi::transport::{
    rsocket_get_supported_transports, rsocket_is_transport_supported,
    rsocket_parse_transport_type, RSocketTransportType,
};
use std::time::{SystemTime, UNIX_EPOCH};

fn unix_now() -> u64 {
    SystemTime::now().duration_since(UNIX_EPOCH).unwrap().as_secs()
}

#[test]
fn lib_test_payload_creation() {
    let data = b"test data";
    let metadata = b"test metadata";

    let payload = rsocket_payload_create(Some(&data[..]), Some(&metadata[..]));

    let data_len = rsocket_payload_get_data_length(Some(&payload));
    assert_eq!(data_len, data.len());

    let metadata_len = rsocket_payload_get_metadata_length(Some(&payload));
    assert_eq!(metadata_len, metadata.len());
}

#[test]
fn test_payload_from_string() {
    let payload = rsocket_payload_create_from_string(Some("Hello, World!"), Some("metadata"));

    let data_len = rsocket_payload_get_data_length(Some(&payload));
    assert_eq!(data_len, 13);

    let metadata_len = rsocket_payload_get_metadata_length(Some(&payload));
    assert_eq!(metadata_len, 8);
}

#[test]
fn lib_test_performance_metrics() {
    let mut metrics = rsocket_performance_metrics_create(unix_now());

    assert_eq!(rsocket_performance_metrics_get_request_count(Some(&metrics)), 0);
    assert_eq!(rsocket_performance_metrics_get_response_count(Some(&metrics)), 0);
    assert_eq!(rsocket_performance_metrics_get_error_count(Some(&metrics)), 0);

    rsocket_performance_metrics_record_request(&mut metrics, 100);
    assert_eq!(rsocket_performance_metrics_get_request_count(Some(&metrics)), 1);
    assert_eq!(rsocket_performance_metrics_get_bytes_sent(Some(&metrics)), 100);

    rsocket_performance_metrics_record_response(&mut metrics, 200);
    assert_eq!(rsocket_performance_metrics_get_response_count(Some(&metrics)), 1);
    assert_eq!(rsocket_performance_metrics_get_bytes_received(Some(&metrics)), 200);

    rsocket_performance_metrics_record_error(&mut metrics);
    assert_eq!(rsocket_performance_metrics_get_error_count(Some(&metrics)), 1);

    let uptime = rsocket_performance_metrics_get_uptime_seconds(Some(&metrics), unix_now());
    assert!(uptime < 3600);
}

#[test]
fn test_transport_utilities() {
    let transports = rsocket_get_supported_transports();
    assert!(transports.contains("tcp"));
    assert!(transports.contains("websocket"));

    let _transport_type = rsocket_parse_transport_type(Some("tcp"));
    let _transport_type = rsocket_parse_transport_type(Some("websocket"));

    assert_eq!(rsocket_is_transport_supported(RSocketTransportType::TCP), 1);
    assert_eq!(rsocket_is_transport_supported(RSocketTransportType::WEBSOCKET), 1);
    assert_eq!(rsocket_is_transport_supported(RSocketTransportType::QUIC), 0);
}

#[test]
fn test_error_handling() {
    assert_eq!(rsocket_payload_get_data_length(None), 0);
    assert_eq!(rsocket_payload_get_metadata_length(None), 0);
    assert_eq!(rsocket_performance_metrics_get_request_count(None), 0);
    assert_eq!(rsocket_performance_metrics_get_uptime_seconds(None, 0), 0);
}
