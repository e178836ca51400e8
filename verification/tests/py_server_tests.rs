use rsocket_ffi::py_server::{PyMultiTransportServerBuilder, PyServerTransport, ServerStep};

#[test]
fn builder_records_steps_in_order() {
    let mut b = PyMultiTransportServerBuilder::new();
    assert!(b.add_tcp_transport("tcp".to_string(), "127.0.0.1:7878".to_string()).is_ok());
    assert!(b.add_websocket_transport("ws".to_string(), "127.0.0.1:7879".to_string()).is_ok());
    assert!(b.add_iroh_transport("p2p".to_string(), None).is_ok());
    assert!(b.acceptor(true).is_ok());
    assert!(b.fragment(1024).is_ok());
    assert!(b.on_start(false).is_ok());
    let steps = b.serve().ok().unwrap();
    assert_eq!(steps.len(), 6);
    match &steps[0] {
        ServerStep::Transport { name, transport: PyServerTransport::Tcp(addr) } => {
            assert_eq!(name, "tcp");
            assert_eq!(addr, "127.0.0.1:7878");
        }
        _ => panic!("expected the TCP transport first"),
    }
    assert!(matches!(&steps[2], ServerStep::Transport { transport: PyServerTransport::Iroh(None), .. }));
    assert!(matches!(steps[3], ServerStep::Acceptor { python_handler: true }));
    assert!(matches!(steps[4], ServerStep::Fragment { mtu: 1024 }));
    assert!(matches!(steps[5], ServerStep::OnStart { python_handler: false }));
}

#[test]
fn served_builder_refuses_everything() {
    let mut b = PyMultiTransportServerBuilder::new();
    assert!(b.serve().is_ok());
    assert_eq!(b.serve().err(), Some("Builder already consumed".to_string()));
    assert_eq!(b.add_quic_transport("q".to_string(), "127.0.0.1:1".to_string()), Err("Builder already consumed".to_string()));
    assert_eq!(b.acceptor(false), Err("Builder already consumed".to_string()));
    assert_eq!(b.fragment(1), Err("Builder already consumed".to_string()));
    assert_eq!(b.on_start(true), Err("Builder already consumed".to_string()));
}
