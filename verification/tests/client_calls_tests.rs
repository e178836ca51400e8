use rsocket_ffi::client_calls::{
    text_request_payload, c_async_response_text, c_client_transport, c_response_outcome,
    go_response_outcome, CClientTransport, CResponse, GoResponse, NO_RESPONSE_CODE,
    REQUEST_FAILED_CODE,
};
use rsocket_ffi::payload::Payload;

fn text_payload(s: &str) -> Payload {
    Payload::builder().set_data_utf8(s).build()
}

#[test]
fn c_response_passes_payload_through() {
    match c_response_outcome(Ok(Some(text_payload("pong")))) {
        CResponse::Payload(p) => assert_eq!(p.data_utf8(), Some("pong")),
        CResponse::Error { .. } => panic!("expected a payload"),
    }
}

#[test]
fn c_empty_response_is_an_error() {
    match c_response_outcome(Ok(None)) {
        CResponse::Error { code, message } => {
            assert_eq!(code, -2);
            assert_eq!(code, NO_RESPONSE_CODE);
            assert_eq!(message, "No response received");
        }
        CResponse::Payload(_) => panic!("expected an error"),
    }
}

#[test]
fn c_failed_request_keeps_message() {
    match c_response_outcome(Err("connection reset".to_string())) {
        CResponse::Error { code, message } => {
            assert_eq!(code, -1);
            assert_eq!(code, REQUEST_FAILED_CODE);
            assert_eq!(message, "connection reset");
        }
        CResponse::Payload(_) => panic!("expected an error"),
    }
}

#[test]
fn go_responses() {
    assert!(matches!(go_response_outcome(Ok(None)), GoResponse::Empty));
    match go_response_outcome(Ok(Some(text_payload("a")))) {
        GoResponse::Payload(p) => assert_eq!(p.data_utf8(), Some("a")),
        _ => panic!("expected a payload"),
    }
    match go_response_outcome(Err("boom".to_string())) {
        GoResponse::Error { code, message } => {
            assert_eq!(code, -1);
            assert_eq!(message, "boom");
        }
        _ => panic!("expected an error"),
    }
}

#[test]
fn async_response_text() {
    assert_eq!(c_async_response_text(&Ok(Some(text_payload("hi")))), Some("hi".to_string()));
    let no_data = Payload::builder().build();
    assert_eq!(c_async_response_text(&Ok(Some(no_data))), Some(String::new()));
    let not_text = Payload::builder().set_data(bytes::Bytes::from(vec![0xff, 0xfe])).build();
    assert_eq!(c_async_response_text(&Ok(Some(not_text))), Some(String::new()));
    assert_eq!(c_async_response_text(&Ok(None)), None);
    assert_eq!(c_async_response_text(&Err("x".to_string())), None);
}

#[test]
fn async_request_payload_has_text_data_only() {
    let p = text_request_payload("ping");
    assert_eq!(p.data_utf8(), Some("ping"));
    assert_eq!(p.metadata(), None);
}

#[test]
fn c_client_transport_numbers() {
    assert!(c_client_transport(0) == Some(CClientTransport::Tcp));
    assert!(c_client_transport(1) == Some(CClientTransport::WebSocket));
    assert!(c_client_transport(2).is_none());
    assert!(c_client_transport(-1).is_none());
}
