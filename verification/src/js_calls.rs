//! What the JavaScript binding reports once a connection attempt or a
//! request has come back: the errors JavaScript sees, the payloads it gets,
//! and the answer of a server's JavaScript request handler. Connecting and
//! requesting are the caller's.

use vstd::prelude::*;
use vstd::string::*;
use crate::js_transport::{JsConnectTarget, JsError, JsStatus};
use crate::options::OptionMap;
use crate::payload::{Payload, utf8_text};
use crate::payload_bindings::JsPayload;
use crate::py_streams::{StreamKind, collect_until_error, item_error_prefix};
use crate::text::joined;

verus! {

/// The error for a request made before the client connected.
pub fn js_not_connected() -> (e: JsError)
    ensures
        e.status == JsStatus::GenericFailure,
        e.message@ == "Client not connected"@,
{
    JsError { status: JsStatus::GenericFailure, message: String::from_str("Client not connected") }
}

/// The error for a failed connection of a configured client to `target`.
pub fn js_connection_failed(target: &JsConnectTarget, message: &str) -> (e: JsError)
    ensures
        e.status == JsStatus::GenericFailure,
        e.message@ == match target {
            JsConnectTarget::Tcp(_) => "TCP connection failed: "@ + message@,
            JsConnectTarget::WebSocket(_) => "WebSocket connection failed: "@ + message@,
        },
{
    let prefix = match target {
        JsConnectTarget::Tcp(_) => "TCP connection failed: ",
        JsConnectTarget::WebSocket(_) => "WebSocket connection failed: ",
    };
    JsError { status: JsStatus::GenericFailure, message: joined(prefix, message) }
}

/// The error for a failed connection of the simple client.
pub fn simple_connection_failed(message: &str) -> (e: JsError)
    ensures
        e.status == JsStatus::GenericFailure,
        e.message@ == "Connection failed: "@ + message@,
{
    JsError { status: JsStatus::GenericFailure, message: joined("Connection failed: ", message) }
}

/// The result of a request-response call: the answer, if any, or the
/// failure as "Request failed: ...".
pub fn js_request_response_outcome(result: Result<Option<Payload>, String>) -> (res: Result<
    Option<JsPayload>,
    JsError,
>)
    ensures
        match result {
            Ok(Some(p)) => res matches Ok(Some(j)) && j@ == p@,
            Ok(None) => res matches Ok(None),
            Err(m) => res matches Err(e) && e.status == JsStatus::GenericFailure && e.message@
                == "Request failed: "@ + m@,
        },
{
    match result {
        Ok(Some(p)) => Ok(Some(JsPayload::from_rsocket_payload(p))),
        Ok(None) => Ok(None),
        Err(m) => Err(
            JsError {
                status: JsStatus::GenericFailure,
                message: joined("Request failed: ", m.as_str()),
            },
        ),
    }
}

/// The result of a fire-and-forget call, with a failure reported as
/// "Fire and forget failed: ...".
pub fn js_fire_and_forget_outcome(result: Result<(), String>) -> (res: Result<(), JsError>)
    ensures
        match result {
            Ok(()) => res is Ok,
            Err(m) => res matches Err(e) && e.status == JsStatus::GenericFailure && e.message@
                == "Fire and forget failed: "@ + m@,
        },
{
    match result {
        Ok(()) => Ok(()),
        Err(m) => Err(
            JsError {
                status: JsStatus::GenericFailure,
                message: joined("Fire and forget failed: ", m.as_str()),
            },
        ),
    }
}

/// The payloads of a request-stream or request-channel call, read up to
/// the first error: all of them, in order, or that error reported as
/// "Stream error: ..." or "Channel error: ...".
pub fn js_collect_responses(items: Vec<Result<Payload, String>>, kind: StreamKind) -> (res: Result<
    Vec<JsPayload>,
    JsError,
>)
    ensures
        res is Ok <==> forall|i: int| 0 <= i < items@.len() ==> #[trigger] items@[i] is Ok,
        res matches Ok(js) ==> js@.len() == items@.len() && forall|i: int|
            0 <= i < items@.len() ==> (#[trigger] items@[i] matches Ok(p) && js@[i]@ == p@),
        res matches Err(e) ==> e.status == JsStatus::GenericFailure && exists|i: int|
            0 <= i < items@.len() && (forall|j: int| 0 <= j < i ==> #[trigger] items@[j] is Ok) && (
            #[trigger] items@[i] matches Err(m) && e.message@ == item_error_prefix(kind) + m@),
{
    let prefix = match kind {
        StreamKind::Stream => "Stream error: ",
        StreamKind::Channel => "Channel error: ",
    };
    match collect_until_error(items, prefix) {
        Ok(ps) => {
            let n = ps.len();
            let ghost orig = ps@;
            let mut rest = ps;
            let mut out: Vec<JsPayload> = Vec::new();
            let mut i: usize = 0;
            while rest.len() > 0
                invariant
                    orig.len() == n,
                    i + rest@.len() == n,
                    out@.len() == i,
                    rest@ =~= orig.skip(i as int),
                    forall|j: int| 0 <= j < i ==> #[trigger] out@[j]@ == orig[j]@,
                decreases rest@.len(),
            {
                let p = rest.remove(0);
                assert(p == orig[i as int]);
                assert(rest@ =~= orig.skip(i as int + 1));
                out.push(JsPayload::from_rsocket_payload(p));
                i = i + 1;
            }
            Ok(out)
        },
        Err(m) => Err(JsError { status: JsStatus::GenericFailure, message: m }),
    }
}

/// The answer of the simple client's request-response call: the response's
/// data as text (nothing when absent or not UTF-8), nothing for an empty
/// answer, or the failure as "Request failed: ...".
pub fn simple_request_response_outcome(result: Result<Option<Payload>, String>) -> (res: Result<
    Option<String>,
    JsError,
>)
    ensures
        match result {
            Ok(Some(p)) => res matches Ok(t) && match utf8_text(p@.data) {
                Some(s) => t matches Some(u) && u@ == s,
                None => t is None,
            },
            Ok(None) => res matches Ok(None),
            Err(m) => res matches Err(e) && e.status == JsStatus::GenericFailure && e.message@
                == "Request failed: "@ + m@,
        },
{
    match result {
        Ok(Some(p)) => match p.data_utf8() {
            Some(s) => Ok(Some(String::from_str(s))),
            None => Ok(None),
        },
        Ok(None) => Ok(None),
        Err(m) => Err(
            JsError {
                status: JsStatus::GenericFailure,
                message: joined("Request failed: ", m.as_str()),
            },
        ),
    }
}

/// The answer of a server whose request handler is the JavaScript function
/// given: without a handler there is no answer; a failed call is the error
/// "Handler call failed: ..."; else the handler's payload, if any.
pub fn js_handler_reply(reply: Option<Result<Option<JsPayload>, String>>) -> (res: Result<
    Option<Payload>,
    String,
>)
    ensures
        match reply {
            None => res matches Ok(None),
            Some(Err(m)) => res matches Err(e) && e@ == "Handler call failed: "@ + m@,
            Some(Ok(None)) => res matches Ok(None),
            Some(Ok(Some(j))) => res matches Ok(Some(p)) && p@ == j@,
        },
{
    match reply {
        None => Ok(None),
        Some(Err(m)) => Err(joined("Handler call failed: ", m.as_str())),
        Some(Ok(None)) => Ok(None),
        Some(Ok(Some(j))) => Ok(Some(j.to_rsocket_payload())),
    }
}

/// The library description handed to JavaScript: its name, the given
/// version and a one-line description.
pub fn get_library_info(version: &str) -> (info: OptionMap)
    ensures
        info.wf(),
        info@ == Map::<Seq<char>, Seq<char>>::empty().insert("name"@, "rsocket-rust-js"@).insert(
            "version"@,
            version@,
        ).insert("description"@, "JavaScript/Node.js bindings for RSocket Rust"@),
{
    let mut info = OptionMap::new();
    info.insert(String::from_str("name"), String::from_str("rsocket-rust-js"));
    info.insert(String::from_str("version"), String::from_str(version));
    info.insert(
        String::from_str("description"),
        String::from_str("JavaScript/Node.js bindings for RSocket Rust"),
    );
    info
}

} // verus!
