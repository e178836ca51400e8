use rsocket_ffi::webworkers::{IrohWasmCapabilities, IrohWasmWebWorkersConfig};
use rsocket_ffi::frame::blank_frame_bytes;
use rsocket_ffi::webworkers_transport::{BenchmarkRun, IrohWasmWebWorkersTransport};
use rsocket_ffi::worker_pool::FrameDispatch;

fn config(workers: usize, batch: usize, monitoring: bool) -> IrohWasmWebWorkersConfig {
    let caps = IrohWasmCapabilities::from_probes(true, true, false, Some(8));
    let mut config = IrohWasmWebWorkersConfig::default_for(&caps, Some(8));
    config.webworkers_config.worker_count = workers;
    config.webworkers_config.batch_size = batch;
    config.iroh_config.enable_performance_monitoring = monitoring;
    config
}

#[test]
fn transport_keeps_statistics_only_when_asked() {
    let t = IrohWasmWebWorkersTransport::new("wss://signal".to_string(), config(2, 10, true), 7);
    let m = t.get_performance_metrics().expect("monitoring was asked for");
    assert_eq!(m.start_time(), 7);
    assert_eq!(m.p2p_messages_sent(), 0);
    assert_eq!(t.signaling_server(), "wss://signal");

    let t = IrohWasmWebWorkersTransport::new("wss://signal".to_string(), config(2, 10, false), 7);
    assert!(t.get_performance_metrics().is_none());
}

#[test]
fn initializing_workers_twice_keeps_the_first_pool() {
    let mut t = IrohWasmWebWorkersTransport::new("s".to_string(), config(3, 10, false), 0);
    t.initialize_workers();
    t.initialize_workers();
    let mut conn = t.connect();
    assert_eq!(conn.get_worker_utilization(), (0, 3));
    assert!(matches!(conn.process_p2p_frame_with_workers(vec![1], 1), FrameDispatch::Assigned { worker_id: 0, .. }));
    assert_eq!(conn.get_worker_utilization(), (1, 3));
}

#[test]
fn support_needs_webrtc_and_workers() {
    let caps = IrohWasmCapabilities::from_probes(true, true, false, None);
    assert!(IrohWasmWebWorkersTransport::is_supported(true, &caps));
    assert!(!IrohWasmWebWorkersTransport::is_supported(false, &caps));
    let caps = IrohWasmCapabilities::from_probes(true, false, false, None);
    assert!(!IrohWasmWebWorkersTransport::is_supported(true, &caps));
}

#[test]
fn frames_are_counted_and_dispatched() {
    let t = IrohWasmWebWorkersTransport::new("s".to_string(), config(1, 10, true), 0);
    let mut conn = t.connect();
    assert!(matches!(conn.process_p2p_frame_with_workers(vec![1, 2, 3], 5), FrameDispatch::Assigned { worker_id: 0, .. }));
    assert!(matches!(conn.process_p2p_frame_with_workers(vec![4], 6), FrameDispatch::Queued));
    conn.record_frame_latency(42);
    let m = conn.get_performance_metrics().unwrap();
    assert_eq!(m.p2p_messages_sent(), 2);
    assert_eq!(m.total_bytes_sent(), 4);
    assert_eq!(m.last_measurement_time(), 6);
    assert_eq!(m.latency_samples(), vec![42]);
    conn.complete_task(0);
    assert_eq!(conn.get_worker_utilization(), (0, 1));
}

#[test]
fn batches_are_counted_and_split() {
    let t = IrohWasmWebWorkersTransport::new("s".to_string(), config(2, 2, true), 0);
    let mut conn = t.connect();
    let frames = vec![vec![1], vec![2, 2], vec![3, 3, 3], vec![4], vec![5]];
    let ranges = conn.process_p2p_frame_batch(&frames, 9);
    assert_eq!(ranges, vec![(0, 2), (2, 4), (4, 5)]);
    let m = conn.get_performance_metrics().unwrap();
    assert_eq!(m.p2p_messages_sent(), 5);
    assert_eq!(m.total_bytes_sent(), 8);
    assert_eq!(m.last_measurement_time(), 9);

    let first = conn.dispatch_frames(frames[0..2].to_vec());
    assert!(matches!(first[0], FrameDispatch::Assigned { worker_id: 0, .. }));
    assert!(matches!(first[1], FrameDispatch::Assigned { worker_id: 1, .. }));
    let second = conn.dispatch_frames(frames[2..4].to_vec());
    assert!(matches!(second[0], FrameDispatch::Queued));
    assert!(matches!(second[1], FrameDispatch::Queued));
}

#[test]
fn empty_batch_changes_nothing() {
    let t = IrohWasmWebWorkersTransport::new("s".to_string(), config(2, 2, true), 0);
    let mut conn = t.connect();
    let ranges = conn.process_p2p_frame_batch(&Vec::new(), 9);
    assert!(ranges.is_empty());
    let m = conn.get_performance_metrics().unwrap();
    assert_eq!(m.p2p_messages_sent(), 0);
    assert_eq!(m.last_measurement_time(), 0);
}

#[test]
fn split_sink_sends_and_stream_numbers_frames() {
    let t = IrohWasmWebWorkersTransport::new("s".to_string(), config(1, 2, true), 0);
    let conn = t.connect();
    let (mut sink, mut stream) = conn.split();
    assert!(matches!(sink.send(vec![9]), FrameDispatch::Assigned { worker_id: 0, .. }));
    assert!(matches!(sink.send(vec![9]), FrameDispatch::Queued));
    sink.complete_task(0);
    let f = stream.next().unwrap();
    assert_eq!(f.len(), 1024);
    assert!(f.iter().all(|b| *b == 0));
}

#[test]
fn benchmark_checks_clock_every_thousand_frames() {
    let mut run = BenchmarkRun::new(2500);
    let mut checks = 0;
    while run.wants_frame() {
        assert_eq!(blank_frame_bytes().len(), 1024);
        if run.frame_sent() {
            checks += 1;
            run.clock_checked(false);
        }
    }
    assert_eq!(run.messages_sent(), 2500);
    assert_eq!(checks, 2);

    let mut run = BenchmarkRun::new(5000);
    while run.wants_frame() {
        if run.frame_sent() {
            run.clock_checked(true);
        }
    }
    assert_eq!(run.messages_sent(), 1000);
}
