use rsocket_ffi::transport::{
    rsocket_is_transport_supported, rsocket_parse_transport_type,
    rsocket_transport_type_to_string, transport_type_from_lowercase, JavaRSocketTransportType,
    Java_com_rsocket_rust_Transport_getSupportedTransports,
    Java_com_rsocket_rust_Transport_isTransportSupported,
    Java_com_rsocket_rust_Transport_parseTransportType, RSocketTransportType,
};

#[test]
fn c_names_read_back() {
    for t in [
        RSocketTransportType::TCP,
        RSocketTransportType::WEBSOCKET,
        RSocketTransportType::QUIC,
        RSocketTransportType::IrohP2P,
    ] {
        assert_eq!(rsocket_parse_transport_type(Some(rsocket_transport_type_to_string(t))), t);
    }
    assert_eq!(rsocket_transport_type_to_string(RSocketTransportType::IrohP2P), "iroh-p2p");
}

#[test]
fn c_parse_ignores_case_and_defaults_to_tcp() {
    assert_eq!(rsocket_parse_transport_type(Some("WS")), RSocketTransportType::WEBSOCKET);
    assert_eq!(rsocket_parse_transport_type(Some("WebSocket")), RSocketTransportType::WEBSOCKET);
    assert_eq!(rsocket_parse_transport_type(Some("Iroh")), RSocketTransportType::IrohP2P);
    assert_eq!(rsocket_parse_transport_type(Some("QUIC")), RSocketTransportType::QUIC);
    assert_eq!(rsocket_parse_transport_type(Some("udp")), RSocketTransportType::TCP);
    assert_eq!(rsocket_parse_transport_type(Some("")), RSocketTransportType::TCP);
    assert_eq!(rsocket_parse_transport_type(None), RSocketTransportType::TCP);
    assert_eq!(transport_type_from_lowercase("iroh-p2p"), RSocketTransportType::IrohP2P);
    assert_eq!(transport_type_from_lowercase("TCP"), RSocketTransportType::TCP);
    assert_eq!(transport_type_from_lowercase("Ws"), RSocketTransportType::TCP);
    assert_eq!(rsocket_is_transport_supported(RSocketTransportType::IrohP2P), 0);
}

#[test]
fn java_transport_codes() {
    assert_eq!(Java_com_rsocket_rust_Transport_getSupportedTransports(), "tcp,websocket");
    assert_eq!(Java_com_rsocket_rust_Transport_parseTransportType(Some("tcp")), 0);
    assert_eq!(Java_com_rsocket_rust_Transport_parseTransportType(Some("websocket")), 1);
    assert_eq!(Java_com_rsocket_rust_Transport_parseTransportType(Some("quic")), 2);
    assert_eq!(Java_com_rsocket_rust_Transport_parseTransportType(Some("iroh-p2p")), 3);
    assert_eq!(Java_com_rsocket_rust_Transport_parseTransportType(Some("TCP")), -1);
    assert_eq!(Java_com_rsocket_rust_Transport_parseTransportType(Some("ws")), -1);
    assert_eq!(Java_com_rsocket_rust_Transport_parseTransportType(None), -1);
    assert_eq!(JavaRSocketTransportType::IROH_P2P.code(), 3);
    for code in 0..2 {
        assert_eq!(Java_com_rsocket_rust_Transport_isTransportSupported(code), 1);
    }
    for code in [2, 3, 4, -1, i32::MAX] {
        assert_eq!(Java_com_rsocket_rust_Transport_isTransportSupported(code), 0);
    }
}
