use rsocket_ffi::frame::{Frame, FrameType, IrohWasmWebWorkersFrameStream};
use rsocket_ffi::error::JavaRSocketError;
use rsocket_ffi::metrics::{create_performance_metrics, uptime_from_elapsed, JavaRSocketPerformanceMetrics, JsPerformanceMetrics};
use rsocket_ffi::monitor::{IrohWasmPerformanceMonitor, MAX_LATENCY_SAMPLES};
use rsocket_ffi::py_metrics::PyPerformanceMetrics;
use rsocket_ffi::text::u32_to_decimal;

#[test]
fn java_counters() {
    let mut m = JavaRSocketPerformanceMetrics::new();
    m.record_request(100);
    m.record_response(200);
    m.record_error();
    assert_eq!(m.request_count(), 1);
    assert_eq!(m.response_count(), 1);
    assert_eq!(m.error_count(), 1);
    assert_eq!(m.bytes_sent(), 100);
    assert_eq!(m.bytes_received(), 200);
    m.record_request(-1);
    assert_eq!(m.bytes_sent(), 99);
    assert!(m.uptime_seconds() >= 0);
    assert_eq!(uptime_from_elapsed(Some(42)), 42);
    assert_eq!(uptime_from_elapsed(None), 0);
    assert_eq!(uptime_from_elapsed(Some(u64::MAX)), -1);
}

#[test]
fn js_counters_and_ratios() {
    let mut m = JsPerformanceMetrics::new();
    assert_eq!(m.average_latency_ratio(), None);
    assert_eq!(m.error_rate_ratio(), None);
    m.record_request();
    m.record_request();
    m.record_error();
    m.record_response(30);
    m.record_response(50);
    m.record_bytes_sent(10);
    m.record_bytes_received(20);
    assert_eq!(m.get_request_count(), 2);
    assert_eq!(m.get_response_count(), 2);
    assert_eq!(m.average_latency_ratio(), Some((80, 2)));
    assert_eq!(m.error_rate_ratio(), Some((1, 2)));
    assert_eq!(m.get_bytes_sent(), 10);
    assert_eq!(m.get_bytes_received(), 20);
    m.reset();
    assert_eq!(m.get_request_count(), 0);
    assert_eq!(m.get_error_count(), 0);
    assert_eq!(m.average_latency_ratio(), None);
    assert_eq!(create_performance_metrics().get_bytes_sent(), 0);
}

#[test]
fn monitor_keeps_latest_samples() {
    let mut m = IrohWasmPerformanceMonitor::new(7);
    for i in 0..(MAX_LATENCY_SAMPLES as u64 + 5) {
        m.record_p2p_latency(i);
    }
    let samples = m.latency_samples();
    assert_eq!(samples.len(), MAX_LATENCY_SAMPLES);
    assert_eq!(samples[0], 5);
    assert_eq!(*samples.last().unwrap(), MAX_LATENCY_SAMPLES as u64 + 4);

    m.record_p2p_message(100, 9);
    m.record_p2p_received(50);
    m.record_connection_attempt(true);
    m.record_connection_attempt(false);
    assert_eq!(m.p2p_messages_sent(), 1);
    assert_eq!(m.total_bytes_sent(), 100);
    assert_eq!(m.p2p_messages_received(), 1);
    assert_eq!(m.total_bytes_received(), 50);
    assert_eq!(m.last_measurement_time(), 9);
    assert_eq!(m.start_time(), 7);
    assert_eq!(m.connection_counts(), (2, 1));

    m.reset(11);
    assert_eq!(m.latency_samples(), Vec::<u64>::new());
    assert_eq!(m.connection_counts(), (0, 0));
    assert_eq!(m.start_time(), 11);
    assert_eq!(m.last_measurement_time(), 11);
}

#[test]
fn python_operation_statistics() {
    let mut m = PyPerformanceMetrics::new();
    assert_eq!(m.get_total_requests("rr".to_string()), 0);
    assert_eq!(m.get_min_latency("rr".to_string()), 0);
    assert_eq!(m.average_latency_ratio("rr".to_string()), None);
    m.record_request("rr".to_string(), 30);
    m.record_request("rr".to_string(), 10);
    m.record_request("fnf".to_string(), 5);
    m.record_request("rr".to_string(), 20);
    assert_eq!(m.get_total_requests("rr".to_string()), 3);
    assert_eq!(m.get_min_latency("rr".to_string()), 10);
    assert_eq!(m.get_max_latency("rr".to_string()), 30);
    assert_eq!(m.average_latency_ratio("rr".to_string()), Some((60, 3)));
    assert!(m.get_operation("fnf".to_string()).is_some());
    let all = m.get_all_metrics();
    assert_eq!(all.len(), 2);
    let fnf = all.iter().find(|s| s.operation == "fnf").unwrap();
    assert_eq!((fnf.total_requests, fnf.min_latency_ms, fnf.max_latency_ms, fnf.total_duration_ms), (1, 5, 5, 5));
    assert_eq!(m.get_crossbeam_performance_info().len(), 5);
    m.reset();
    assert_eq!(m.get_all_metrics().len(), 0);
    assert_eq!(m.get_max_latency("rr".to_string()), 0);
}

#[test]
fn frames_and_stream() {
    let f = Frame::new(FrameType::KeepAlive, bytes::Bytes::from(vec![1, 2]));
    assert_eq!(f.frame_type(), FrameType::KeepAlive);
    assert_eq!(f.payload().as_ref(), &[1u8, 2][..]);
    let mut s = IrohWasmWebWorkersFrameStream::new();
    let first = s.next().unwrap();
    assert_eq!(first.len(), 1024);
    assert!(first.iter().all(|b| *b == 0));
    assert!(s.next().is_some());
}

#[test]
fn errors_and_decimal_text() {
    let e = JavaRSocketError::new(-1, "boom");
    assert_eq!(e.code, -1);
    assert_eq!(e.message, "boom");
    assert_eq!(u32_to_decimal(0), "0");
    assert_eq!(u32_to_decimal(907), "907");
    assert_eq!(u32_to_decimal(u32::MAX), u32::MAX.to_string());
}
