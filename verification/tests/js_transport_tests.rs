use std::collections::HashMap;
use rsocket_ffi::js_transport::{
    get_supported_transports, JsConnectTarget, JsRSocketFactory, JsStatus, JsTransportConfig,
    JsTransportType,
};
use rsocket_ffi::options::OptionMap;

fn options_of(config_pairs: Vec<(String, String)>) -> HashMap<String, String> {
    config_pairs.into_iter().collect()
}

#[test]
fn option_table_keeps_one_value_per_key() {
    let mut m = OptionMap::new();
    assert_eq!(m.len(), 0);
    m.insert("a".to_string(), "1".to_string());
    m.insert("b".to_string(), "2".to_string());
    m.insert("a".to_string(), "3".to_string());
    assert_eq!(m.len(), 2);
    assert_eq!(m.get("a"), Some("3".to_string()));
    assert_eq!(m.get("b"), Some("2".to_string()));
    assert_eq!(m.get("c"), None);
    assert_eq!(m.to_pairs().len(), 2);
}

#[test]
fn config_setters() {
    let mut cfg = JsTransportConfig::new(JsTransportType::websocket(), "ws://h:1".to_string(), None);
    cfg.set_webworkers_count(12);
    cfg.set_buffer_size(0);
    cfg.enable_compression(false);
    cfg.set_option("k".to_string(), "v".to_string());
    assert_eq!(cfg.get_option("webworkers_count".to_string()), Some("12".to_string()));
    assert_eq!(cfg.get_option("buffer_size".to_string()), Some("0".to_string()));
    assert_eq!(cfg.get_option("compression_enabled".to_string()), Some("false".to_string()));
    assert_eq!(cfg.get_option("k".to_string()), Some("v".to_string()));
    cfg.set_buffer_size(u32::MAX);
    assert_eq!(cfg.get_option("buffer_size".to_string()), Some("4294967295".to_string()));
    assert_eq!(cfg.get_all_options().len(), 4);
    assert_eq!(cfg.to_string(), "JsTransportConfig(websocket, ws://h:1)");
    assert_eq!(JsTransportType::iroh_p2p_wasm().to_string(), "iroh-p2p-wasm");
}

#[test]
fn optimized_client_options() {
    let c = JsRSocketFactory::create_optimized_client("iroh-roq".to_string(), "addr".to_string(), None, Some(true))
        .ok()
        .unwrap();
    assert_eq!(c.get_transport_type(), "iroh-roq");
    assert_eq!(c.get_address(), "addr");
    let mut expected = HashMap::new();
    for (k, v) in [
        ("simd_processing", "true"),
        ("webworkers_enabled", "true"),
        ("webworkers_count", "4"),
        ("performance_mode", "high"),
        ("crossbeam_optimizations", "true"),
    ] {
        expected.insert(k.to_string(), v.to_string());
    }
    assert_eq!(options_of(c.transport_config().get_all_options()), expected);
    let cfg = JsTransportConfig::new(JsTransportType::tcp(), String::new(), None);
    assert_eq!(options_of(cfg.get_all_options()), HashMap::new());

    let plain = JsRSocketFactory::create_optimized_client("tcp".to_string(), "a".to_string(), Some(false), None)
        .ok()
        .unwrap();
    assert_eq!(plain.get_transport_type(), "tcp");
    let mut plain_expected = HashMap::new();
    plain_expected.insert("performance_mode".to_string(), "high".to_string());
    plain_expected.insert("crossbeam_optimizations".to_string(), "true".to_string());
    assert_eq!(options_of(plain.transport_config().get_all_options()), plain_expected);
    assert!(matches!(plain.connect_target(), Ok(JsConnectTarget::Tcp(a)) if a == "a"));
}

#[test]
fn unsupported_kinds_are_refused() {
    let err = JsRSocketFactory::create_optimized_client("carrier-pigeon".to_string(), "a".to_string(), None, None)
        .err()
        .unwrap();
    assert_eq!(err.status, JsStatus::InvalidArg);
    assert_eq!(err.message, "Unsupported transport type: carrier-pigeon");
    let err = JsRSocketFactory::create_high_performance_server("iroh-roq".to_string(), "a".to_string(), None)
        .err()
        .unwrap();
    assert_eq!(err.message, "Unsupported server transport type: iroh-roq");
}

#[test]
fn connect_and_listen_targets() {
    let quic = JsRSocketFactory::create_quic_client("q:1".to_string());
    let err = quic.connect_target().err().unwrap();
    assert_eq!(err.status, JsStatus::InvalidArg);
    assert_eq!(err.message, "QUIC transport not available in current build");
    let wt = JsRSocketFactory::create_webtransport_client("w".to_string());
    assert_eq!(wt.connect_target().err().unwrap().message, "Unsupported transport type: quinn-webtransport");
    let ws = JsRSocketFactory::create_websocket_client("ws://x".to_string());
    assert!(matches!(ws.connect_target(), Ok(JsConnectTarget::WebSocket(a)) if a == "ws://x"));
    assert!(matches!(JsRSocketFactory::create_tcp_client("t".to_string()).connect_target(), Ok(JsConnectTarget::Tcp(_))));

    let server = JsRSocketFactory::create_high_performance_server("quinn-quic".to_string(), "0.0.0.0:1".to_string(), Some(8))
        .ok()
        .unwrap();
    assert_eq!(server.get_transport_type(), "quinn-quic");
    assert_eq!(
        server.transport_config().get_option("webworkers_count".to_string()),
        Some("8".to_string())
    );
    assert_eq!(server.transport_config().get_all_options().len(), 4);
    assert_eq!(server.listen_target().err().unwrap(), "Unsupported server transport type: quinn-quic");
    assert!(matches!(JsRSocketFactory::create_tcp_server("s".to_string()).listen_target(), Ok(JsConnectTarget::Tcp(a)) if a == "s"));
    assert!(matches!(JsRSocketFactory::create_websocket_server("s".to_string()).listen_target(), Ok(JsConnectTarget::WebSocket(_))));
    assert_eq!(JsRSocketFactory::create_quic_server("s".to_string()).get_address(), "s");
}

#[test]
fn supported_transport_list() {
    assert_eq!(get_supported_transports(), vec!["tcp".to_string(), "websocket".to_string()]);
}
