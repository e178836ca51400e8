use rsocket_ffi::js_calls::{
    js_collect_responses, js_connection_failed, js_fire_and_forget_outcome, js_handler_reply,
    js_not_connected, js_request_response_outcome, simple_connection_failed,
    simple_request_response_outcome,
};
use rsocket_ffi::js_transport::{JsConnectTarget, JsStatus};
use rsocket_ffi::payload::Payload;
use rsocket_ffi::payload_bindings::JsPayload;
use rsocket_ffi::py_streams::StreamKind;

fn text_payload(s: &str) -> Payload {
    Payload::builder().set_data_utf8(s).build()
}

#[test]
fn not_connected_error() {
    let e = js_not_connected();
    assert_eq!(e.status, JsStatus::GenericFailure);
    assert_eq!(e.message, "Client not connected");
}

#[test]
fn connection_failures_name_the_transport() {
    let e = js_connection_failed(&JsConnectTarget::Tcp("127.0.0.1:7878".to_string()), "refused");
    assert_eq!(e.message, "TCP connection failed: refused");
    let e = js_connection_failed(&JsConnectTarget::WebSocket("ws://x".to_string()), "refused");
    assert_eq!(e.message, "WebSocket connection failed: refused");
    assert_eq!(e.status, JsStatus::GenericFailure);
    assert_eq!(simple_connection_failed("refused").message, "Connection failed: refused");
}

#[test]
fn request_response_outcomes() {
    let got = js_request_response_outcome(Ok(Some(text_payload("pong")))).ok().unwrap().unwrap();
    assert_eq!(got.get_data_utf8(), Some("pong".to_string()));
    assert!(js_request_response_outcome(Ok(None)).ok().unwrap().is_none());
    let e = js_request_response_outcome(Err("timeout".to_string())).err().unwrap();
    assert_eq!(e.message, "Request failed: timeout");
}

#[test]
fn fire_and_forget_outcomes() {
    assert!(js_fire_and_forget_outcome(Ok(())).is_ok());
    let e = js_fire_and_forget_outcome(Err("closed".to_string())).err().unwrap();
    assert_eq!(e.message, "Fire and forget failed: closed");
}

#[test]
fn collected_responses() {
    let got = js_collect_responses(vec![Ok(text_payload("a")), Ok(text_payload("b"))], StreamKind::Stream)
        .ok()
        .unwrap();
    assert_eq!(got.len(), 2);
    assert_eq!(got[0].get_data_utf8(), Some("a".to_string()));
    let e = js_collect_responses(vec![Ok(text_payload("a")), Err("x".to_string())], StreamKind::Channel)
        .err()
        .unwrap();
    assert_eq!(e.message, "Channel error: x");
    let e = js_collect_responses(vec![Err("y".to_string())], StreamKind::Stream).err().unwrap();
    assert_eq!(e.message, "Stream error: y");
}

#[test]
fn simple_client_answers() {
    assert_eq!(
        simple_request_response_outcome(Ok(Some(text_payload("hi")))).ok().unwrap(),
        Some("hi".to_string())
    );
    let binary = Payload::builder().set_data(bytes::Bytes::from(vec![0xff])).build();
    assert_eq!(simple_request_response_outcome(Ok(Some(binary))).ok().unwrap(), None);
    assert_eq!(simple_request_response_outcome(Ok(None)).ok().unwrap(), None);
    assert_eq!(
        simple_request_response_outcome(Err("e".to_string())).err().unwrap().message,
        "Request failed: e"
    );
}

#[test]
fn handler_replies() {
    assert!(js_handler_reply(None).ok().unwrap().is_none());
    assert!(js_handler_reply(Some(Ok(None))).ok().unwrap().is_none());
    let j = JsPayload::from_rsocket_payload(text_payload("ans"));
    let p = js_handler_reply(Some(Ok(Some(j)))).ok().unwrap().unwrap();
    assert_eq!(p.data_utf8(), Some("ans"));
    assert_eq!(js_handler_reply(Some(Err("rejected".to_string()))).err(), Some("Handler call failed: rejected".to_string()));
}

#[test]
fn library_info_entries() {
    let info = rsocket_ffi::js_calls::get_library_info("0.1.0");
    assert_eq!(info.len(), 3);
    assert_eq!(info.get("name"), Some("rsocket-rust-js".to_string()));
    assert_eq!(info.get("version"), Some("0.1.0".to_string()));
    assert_eq!(info.get("description"), Some("JavaScript/Node.js bindings for RSocket Rust".to_string()));
}
