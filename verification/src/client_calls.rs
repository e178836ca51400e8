//! What the C and Go bindings hand back to their callers once a request has
//! been answered: which callback arguments a response, an empty answer or
//! a failure becomes, and which transport a C client configuration names.
//! The requests themselves are made by the caller.

use vstd::prelude::*;
use vstd::string::*;
use vstd::utf8::*;
use crate::payload::{Payload, PayloadView, utf8_text};

verus! {

/// What the response callback of the C binding receives.
pub enum CResponse {
    /// The response payload, with no error.
    Payload(Payload),
    /// No payload, and an error with this code and message.
    Error { code: i32, message: String },
}

/// Code of a request that the peer answered with nothing.
pub const NO_RESPONSE_CODE: i32 = -2;

/// Code of a request that failed.
pub const REQUEST_FAILED_CODE: i32 = -1;

/// The callback arguments for the outcome of a request-response call: the
/// response itself; error `NO_RESPONSE_CODE` "No response received" when
/// the peer sent nothing; error `REQUEST_FAILED_CODE` with the failure's
/// message when the request failed.
pub fn c_response_outcome(result: Result<Option<Payload>, String>) -> (res: CResponse)
    ensures
        match result {
            Ok(Some(p)) => res matches CResponse::Payload(q) && q@ == p@,
            Ok(None) => res matches CResponse::Error { code, message } && code == NO_RESPONSE_CODE
                && message@ == "No response received"@,
            Err(m) => res matches CResponse::Error { code, message } && code == REQUEST_FAILED_CODE
                && message@ == m@,
        },
{
    match result {
        Ok(Some(p)) => CResponse::Payload(p),
        Ok(None) => CResponse::Error {
            code: NO_RESPONSE_CODE,
            message: String::from_str("No response received"),
        },
        Err(m) => CResponse::Error { code: REQUEST_FAILED_CODE, message: m },
    }
}

/// What the response callback of the Go binding receives.
pub enum GoResponse {
    /// The response payload, with no error.
    Payload(Payload),
    /// Neither a payload nor an error: the peer sent nothing.
    Empty,
    /// No payload, and an error with this code and message.
    Error { code: i32, message: String },
}

/// The callback arguments for the outcome of a Go request-response call:
/// the response, nothing at all for an empty answer, or error
/// `REQUEST_FAILED_CODE` with the failure's message.
pub fn go_response_outcome(result: Result<Option<Payload>, String>) -> (res: GoResponse)
    ensures
        match result {
            Ok(Some(p)) => res matches GoResponse::Payload(q) && q@ == p@,
            Ok(None) => res is Empty,
            Err(m) => res matches GoResponse::Error { code, message } && code == REQUEST_FAILED_CODE
                && message@ == m@,
        },
{
    match result {
        Ok(Some(p)) => GoResponse::Payload(p),
        Ok(None) => GoResponse::Empty,
        Err(m) => GoResponse::Error { code: REQUEST_FAILED_CODE, message: m },
    }
}

/// The text the asynchronous C call passes to its callback: the response's
/// data as text (empty when absent or not UTF-8) when there was a
/// response, and nothing (a null payload) otherwise.
pub fn c_async_response_text(result: &Result<Option<Payload>, String>) -> (res: Option<String>)
    ensures
        match result {
            Ok(Some(p)) => res matches Some(s) && s@ == match utf8_text(p@.data) {
                Some(t) => t,
                None => Seq::<char>::empty(),
            },
            _ => res is None,
        },
{
    match result {
        Ok(Some(p)) => match p.data_utf8() {
            Some(s) => Some(String::from_str(s)),
            None => Some(String::new()),
        },
        _ => None,
    }
}

/// A request payload whose data is the caller's text, without metadata, as
/// the asynchronous C call and the JavaScript simple client send it.
pub fn text_request_payload(data: &str) -> (p: Payload)
    ensures
        p@ == (PayloadView { data: Some(encode_utf8(data@)), metadata: None }),
{
    Payload::builder().set_data_utf8(data).build()
}

/// A transport a C client configuration can name.
#[derive(PartialEq, Eq, Structural, Clone, Copy)]
pub enum CClientTransport {
    Tcp,
    WebSocket,
}

/// The transport named by a C client configuration's number: 0 is TCP and
/// 1 is WebSocket; any other number is not supported and no client is made.
pub fn c_client_transport(transport_type: i32) -> (res: Option<CClientTransport>)
    ensures
        transport_type == 0 ==> res == Some(CClientTransport::Tcp),
        transport_type == 1 ==> res == Some(CClientTransport::WebSocket),
        transport_type != 0 && transport_type != 1 ==> res is None,
{
    if transport_type == 0 {
        Some(CClientTransport::Tcp)
    } else if transport_type == 1 {
        Some(CClientTransport::WebSocket)
    } else {
        None
    }
}

} // verus!
