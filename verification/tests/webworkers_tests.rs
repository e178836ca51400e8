use rsocket_ffi::webworkers::{
    create_iroh_wasm_optimized_config, detect_webworkers_capabilities, IrohWasmCapabilities,
    IrohWasmConfig, IrohWasmWebWorkersConfig,
};

#[test]
fn webworkers_capabilities_are_fixed() {
    let caps = detect_webworkers_capabilities();
    assert_eq!(caps.optimal_worker_count, 4);
    assert_eq!(caps.max_buffer_size, 1024 * 1024);
    assert!(!caps.shared_array_buffer_supported);
}

#[test]
fn default_config_uses_hardware_concurrency() {
    let cfg = IrohWasmConfig::default_for(Some(12));
    assert_eq!(cfg.worker_count, 12);
    assert_eq!(cfg.ice_servers, vec![
        "stun:stun.l.google.com:19302".to_string(),
        "stun:stun1.l.google.com:19302".to_string(),
    ]);
    assert!(cfg.enable_webworkers);
    assert_eq!(cfg.buffer_size, 1024 * 1024);
    assert!(!cfg.enable_performance_monitoring);
    assert_eq!(cfg.connection_timeout_ms, 30000);
    assert_eq!(cfg.max_retries, 3);
    assert_eq!(IrohWasmConfig::default_for(None).worker_count, 4);
}

#[test]
fn capabilities_pick_buffer_size() {
    let with_sab = IrohWasmCapabilities::from_probes(true, true, true, Some(6));
    assert_eq!(with_sab.max_buffer_size, 2 * 1024 * 1024);
    assert_eq!(with_sab.optimal_worker_count, 6);
    let without = IrohWasmCapabilities::from_probes(false, true, false, None);
    assert_eq!(without.max_buffer_size, 512 * 1024);
    assert_eq!(without.optimal_worker_count, 4);
    assert!(!without.webrtc_supported);
}

#[test]
fn combined_default_config() {
    let caps = IrohWasmCapabilities::from_probes(true, true, true, Some(2));
    let cfg = IrohWasmWebWorkersConfig::default_for(&caps, Some(2));
    assert_eq!(cfg.iroh_config.worker_count, 2);
    assert_eq!(cfg.webworkers_config.worker_count, 4);
    assert_eq!(cfg.webworkers_config.batch_size, 100);
    assert_eq!(cfg.webworkers_config.max_concurrent_tasks, 1000);
    assert!(cfg.webworkers_config.enable_zero_copy);
    assert!(cfg.enable_p2p_optimization);
    assert!(cfg.enable_webrtc_fallback);
    assert_eq!(cfg.max_peer_connections, 10);
}

#[test]
fn optimized_config_follows_capabilities() {
    let caps = IrohWasmCapabilities::from_probes(false, true, true, Some(16));
    let cfg = create_iroh_wasm_optimized_config(&caps);
    assert!(cfg.iroh_config.enable_webworkers);
    assert_eq!(cfg.iroh_config.worker_count, 16);
    assert_eq!(cfg.iroh_config.buffer_size, 2 * 1024 * 1024);
    assert!(cfg.iroh_config.enable_performance_monitoring);
    assert_eq!(cfg.iroh_config.connection_timeout_ms, 15000);
    assert_eq!(cfg.iroh_config.max_retries, 5);
    assert_eq!(cfg.webworkers_config.worker_count, 4);
    assert_eq!(cfg.webworkers_config.buffer_size, 512 * 1024);
    assert_eq!(cfg.webworkers_config.batch_size, 150);
    assert!(!cfg.webworkers_config.enable_zero_copy);
    assert_eq!(cfg.webworkers_config.max_concurrent_tasks, 1500);
    assert!(!cfg.enable_p2p_optimization);
    assert_eq!(cfg.max_peer_connections, 15);
    assert!(cfg.webworkers_config.worker_count > 0);
    assert!(cfg.webworkers_config.buffer_size > 0);
}
