//! Transport kinds: their names, how the bindings parse them, and which of
//! them the bindings can connect with.

use vstd::prelude::*;
use vstd::string::*;
use vstd::utf8::*;
use crate::text::{
    ascii_lower, ascii_only, has_byte_prefix, str_eq, str_starts_with, str_to_lowercase,
    unicode_lowercase,
};

verus! {

/// The names that every binding reports as supported.
pub open spec fn supported_transports_text() -> Seq<char> {
    "tcp,websocket"@
}

/// Transport kinds known to the C binding.
#[derive(PartialEq, Eq, Structural, Debug, Clone, Copy)]
pub enum RSocketTransportType {
    TCP,
    WEBSOCKET,
    QUIC,
    IrohP2P,
}

/// The name of a C transport kind.
pub open spec fn c_transport_name(t: RSocketTransportType) -> Seq<char> {
    match t {
        RSocketTransportType::TCP => "tcp"@,
        RSocketTransportType::WEBSOCKET => "websocket"@,
        RSocketTransportType::QUIC => "quic"@,
        RSocketTransportType::IrohP2P => "iroh-p2p"@,
    }
}

/// The C transport kind named by an already lower-cased name; unknown names
/// mean TCP.
pub open spec fn c_transport_from_lowercase(name: Seq<char>) -> RSocketTransportType {
    if name == "tcp"@ {
        RSocketTransportType::TCP
    } else if name == "websocket"@ || name == "ws"@ {
        RSocketTransportType::WEBSOCKET
    } else if name == "quic"@ {
        RSocketTransportType::QUIC
    } else if name == "iroh-p2p"@ || name == "iroh"@ {
        RSocketTransportType::IrohP2P
    } else {
        RSocketTransportType::TCP
    }
}

/// The comma-separated names of the transports the C binding supports.
pub fn rsocket_get_supported_transports() -> (s: &'static str)
    ensures
        s@ == supported_transports_text(),
{
    "tcp,websocket"
}

/// The name of a C transport kind.
pub fn rsocket_transport_type_to_string(transport_type: RSocketTransportType) -> (s: &'static str)
    ensures
        s@ == c_transport_name(transport_type),
{
    match transport_type {
        RSocketTransportType::TCP => "tcp",
        RSocketTransportType::WEBSOCKET => "websocket",
        RSocketTransportType::QUIC => "quic",
        RSocketTransportType::IrohP2P => "iroh-p2p",
    }
}

/// The C transport kind of a lower-case name: "tcp"; "websocket" or "ws";
/// "quic"; "iroh-p2p" or "iroh"; anything else means TCP.
pub fn transport_type_from_lowercase(name: &str) -> (t: RSocketTransportType)
    ensures
        t == c_transport_from_lowercase(name@),
{
    if str_eq(name, "tcp") {
        RSocketTransportType::TCP
    } else if str_eq(name, "websocket") || str_eq(name, "ws") {
        RSocketTransportType::WEBSOCKET
    } else if str_eq(name, "quic") {
        RSocketTransportType::QUIC
    } else if str_eq(name, "iroh-p2p") || str_eq(name, "iroh") {
        RSocketTransportType::IrohP2P
    } else {
        RSocketTransportType::TCP
    }
}

/// The C transport kind that a name asks for, compared without regard to
/// case; a null or non-UTF-8 name (`None`) means TCP.
pub fn rsocket_parse_transport_type(type_str: Option<&str>) -> (t: RSocketTransportType)
    ensures
        match type_str {
            Some(s) => {
                &&& t == c_transport_from_lowercase(unicode_lowercase(s@))
                &&& ascii_only(s@) ==> t == c_transport_from_lowercase(ascii_lower(s@))
            },
            None => t == RSocketTransportType::TCP,
        },
{
    match type_str {
        Some(s) => {
            let lower = str_to_lowercase(s);
            transport_type_from_lowercase(lower.as_str())
        },
        None => RSocketTransportType::TCP,
    }
}

/// 1 for the transports the C binding can use (TCP and WebSocket), else 0.
pub fn rsocket_is_transport_supported(transport_type: RSocketTransportType) -> (r: i32)
    ensures
        r == (if transport_type == RSocketTransportType::TCP || transport_type
            == RSocketTransportType::WEBSOCKET {
            1i32
        } else {
            0i32
        }),
{
    match transport_type {
        RSocketTransportType::TCP | RSocketTransportType::WEBSOCKET => 1,
        RSocketTransportType::QUIC | RSocketTransportType::IrohP2P => 0,
    }
}

/// Every C transport kind is named in lower-case ASCII, and its name reads
/// back as the same kind.
pub proof fn law_c_transport_name_round_trip(t: RSocketTransportType)
    ensures
        ascii_only(c_transport_name(t)),
        ascii_lower(c_transport_name(t)) == c_transport_name(t),
        c_transport_from_lowercase(c_transport_name(t)) == t,
{
    reveal_strlit("tcp");
    reveal_strlit("websocket");
    reveal_strlit("ws");
    reveal_strlit("quic");
    reveal_strlit("iroh-p2p");
    reveal_strlit("iroh");
    assert(ascii_lower(c_transport_name(t)) =~= c_transport_name(t));
}

/// The list of supported transports names, in order, exactly the kinds that
/// `rsocket_is_transport_supported` accepts, each by the name that
/// `rsocket_transport_type_to_string` gives it.
pub proof fn law_supported_list_names_supported_kinds()
    ensures
        supported_transports_text() == c_transport_name(RSocketTransportType::TCP) + ","@
            + c_transport_name(RSocketTransportType::WEBSOCKET),
{
    reveal_strlit("tcp,websocket");
    reveal_strlit("tcp");
    reveal_strlit("websocket");
    reveal_strlit(",");
    assert(supported_transports_text() =~= c_transport_name(RSocketTransportType::TCP) + ","@
        + c_transport_name(RSocketTransportType::WEBSOCKET));
}

/// The bytes of the literals `ws://` and `wss://`.
proof fn lemma_websocket_prefix_bytes()
    ensures
        "ws://".spec_bytes() == seq![119u8, 115u8, 58u8, 47u8, 47u8],
        "wss://".spec_bytes() == seq![119u8, 115u8, 115u8, 58u8, 47u8, 47u8],
{
    reveal_strlit("ws://");
    reveal_strlit("wss://");
    let a = "ws://"@;
    let b = "wss://"@;
    assert(is_ascii_chars(a));
    assert(is_ascii_chars(b));
    is_ascii_chars_encode_utf8(a);
    is_ascii_chars_encode_utf8(b);
    assert("ws://".spec_bytes() =~= seq![119u8, 115u8, 58u8, 47u8, 47u8]);
    assert("wss://".spec_bytes() =~= seq![119u8, 115u8, 115u8, 58u8, 47u8, 47u8]);
}

/// A URL is taken as a WebSocket URL exactly when it starts with the scheme
/// `ws` or `wss` followed by `://`; a URL that starts with any other scheme
/// (`http://`, `https://`, `tcp://`, ...) is refused.
pub proof fn law_websocket_url_schemes(url: &str, scheme: Seq<u8>)
    ensures
        websocket_url_syntax(url) <==> (has_byte_prefix(
            url.spec_bytes(),
            seq![119u8, 115u8, 58u8, 47u8, 47u8],
        ) || has_byte_prefix(url.spec_bytes(), seq![119u8, 115u8, 115u8, 58u8, 47u8, 47u8])),
        has_byte_prefix(url.spec_bytes(), scheme + seq![58u8, 47u8, 47u8]) && (forall|i: int|
            0 <= i < scheme.len() ==> scheme[i] != 58u8) && scheme != seq![119u8, 115u8] && scheme
            != seq![119u8, 115u8, 115u8] ==> !websocket_url_syntax(url),
{
    lemma_websocket_prefix_bytes();
    let b = url.spec_bytes();
    let p = scheme + seq![58u8, 47u8, 47u8];
    let k = scheme.len();
    if has_byte_prefix(b, p) && (forall|i: int| 0 <= i < scheme.len() ==> scheme[i] != 58u8)
        && scheme != seq![119u8, 115u8] && scheme != seq![119u8, 115u8, 115u8] {
        assert(b.subrange(0, p.len() as int) == p);
        assert forall|i: int| 0 <= i < p.len() implies b[i] == p[i] by {
            assert(b.subrange(0, p.len() as int)[i] == b[i]);
        }
        assert(b[k as int] == 58u8);
        assert forall|i: int| 0 <= i < k implies b[i] == scheme[i] by {
            assert(p[i] == scheme[i]);
        }
        if has_byte_prefix(b, seq![119u8, 115u8, 58u8, 47u8, 47u8]) {
            let w = seq![119u8, 115u8, 58u8, 47u8, 47u8];
            assert forall|i: int| 0 <= i < 5 implies b[i] == w[i] by {
                assert(b.subrange(0, 5)[i] == b[i]);
            }
            if k >= 3 {
                assert(scheme[2] == b[2]);
            } else if k == 2 {
                assert(scheme =~= seq![119u8, 115u8]);
            }
            assert(false);
        }
        if has_byte_prefix(b, seq![119u8, 115u8, 115u8, 58u8, 47u8, 47u8]) {
            let w = seq![119u8, 115u8, 115u8, 58u8, 47u8, 47u8];
            assert forall|i: int| 0 <= i < 6 implies b[i] == w[i] by {
                assert(b.subrange(0, 6)[i] == b[i]);
            }
            if k >= 4 {
                assert(scheme[3] == b[3]);
            } else if k == 3 {
                assert(scheme =~= seq![119u8, 115u8, 115u8]);
            }
            assert(false);
        }
    }
}

// ------------------------------------------------------------- Java ----

/// Transport kinds known to the Java binding.
#[derive(PartialEq, Eq, Structural, Debug, Clone, Copy)]
#[allow(non_camel_case_types)]
pub enum JavaRSocketTransportType {
    TCP,
    WEBSOCKET,
    QUIC,
    IROH_P2P,
}

/// The Java `int` code of a transport kind.
pub open spec fn java_transport_code(t: JavaRSocketTransportType) -> i32 {
    match t {
        JavaRSocketTransportType::TCP => 0,
        JavaRSocketTransportType::WEBSOCKET => 1,
        JavaRSocketTransportType::QUIC => 2,
        JavaRSocketTransportType::IROH_P2P => 3,
    }
}

/// The name of a Java transport kind.
pub open spec fn java_transport_name(t: JavaRSocketTransportType) -> Seq<char> {
    match t {
        JavaRSocketTransportType::TCP => "tcp"@,
        JavaRSocketTransportType::WEBSOCKET => "websocket"@,
        JavaRSocketTransportType::QUIC => "quic"@,
        JavaRSocketTransportType::IROH_P2P => "iroh-p2p"@,
    }
}

/// The Java code of an exactly spelled name, -1 for any other.
pub open spec fn java_code_of_name(name: Seq<char>) -> i32 {
    if name == "tcp"@ {
        0
    } else if name == "websocket"@ {
        1
    } else if name == "quic"@ {
        2
    } else if name == "iroh-p2p"@ {
        3
    } else {
        -1i32
    }
}

/// Whether the Java binding can connect with the transport of this code.
pub open spec fn java_code_supported(code: i32) -> bool {
    code == 0 || code == 1
}

impl JavaRSocketTransportType {
    /// The `int` code handed to Java.
    pub fn code(self) -> (c: i32)
        ensures
            c == java_transport_code(self),
    {
        match self {
            JavaRSocketTransportType::TCP => 0,
            JavaRSocketTransportType::WEBSOCKET => 1,
            JavaRSocketTransportType::QUIC => 2,
            JavaRSocketTransportType::IROH_P2P => 3,
        }
    }
}

/// The comma-separated names of the transports the Java binding supports.
pub fn Java_com_rsocket_rust_Transport_getSupportedTransports() -> (s: &'static str)
    ensures
        s@ == supported_transports_text(),
{
    "tcp,websocket"
}

/// The code of an exactly spelled transport name, -1 for an unknown name or
/// for a string that could not be read (`None`).
pub fn Java_com_rsocket_rust_Transport_parseTransportType(transport_str: Option<&str>) -> (code: i32)
    ensures
        code == match transport_str {
            Some(s) => java_code_of_name(s@),
            None => -1i32,
        },
{
    match transport_str {
        Some(s) => if str_eq(s, "tcp") {
            JavaRSocketTransportType::TCP.code()
        } else if str_eq(s, "websocket") {
            JavaRSocketTransportType::WEBSOCKET.code()
        } else if str_eq(s, "quic") {
            JavaRSocketTransportType::QUIC.code()
        } else if str_eq(s, "iroh-p2p") {
            JavaRSocketTransportType::IROH_P2P.code()
        } else {
            -1
        },
        None => -1,
    }
}

/// 1 for the codes of TCP and WebSocket, 0 for every other code.
pub fn Java_com_rsocket_rust_Transport_isTransportSupported(transport_type: i32) -> (r: i32)
    ensures
        r == (if java_code_supported(transport_type) {
            1i32
        } else {
            0i32
        }),
{
    match transport_type {
        0 => 1,
        1 => 1,
        2 => 0,
        3 => 0,
        _ => 0,
    }
}

/// Every Java transport name parses to that transport's code, and exactly
/// TCP and WebSocket are reported as supported.
pub proof fn law_java_transport_name_round_trip(t: JavaRSocketTransportType)
    ensures
        java_code_of_name(java_transport_name(t)) == java_transport_code(t),
        java_code_supported(java_transport_code(t)) <==> (t == JavaRSocketTransportType::TCP || t
            == JavaRSocketTransportType::WEBSOCKET),
{
    reveal_strlit("tcp");
    reveal_strlit("websocket");
    reveal_strlit("quic");
    reveal_strlit("iroh-p2p");
    assert("tcp"@.len() == 3 && "websocket"@.len() == 9 && "quic"@.len() == 4);
    assert("iroh-p2p"@.len() == 8);
}

// --------------------------------------------------------------- Go ----

/// The comma-separated names of the transports the Go binding supports.
pub fn rsocket_go_get_supported_transports() -> (s: &'static str)
    ensures
        s@ == supported_transports_text(),
{
    "tcp,websocket"
}

/// Whether a URL names a WebSocket endpoint: it starts with `ws://` or `wss://`.
pub open spec fn websocket_url_syntax(url: &str) -> bool {
    has_byte_prefix(url.spec_bytes(), "ws://".spec_bytes()) || has_byte_prefix(
        url.spec_bytes(),
        "wss://".spec_bytes(),
    )
}

/// 1 when the URL starts with `ws://` or `wss://`, else 0 (also for a null
/// or non-UTF-8 URL, `None`).
pub fn rsocket_go_validate_websocket_url(url: Option<&str>) -> (r: i32)
    ensures
        r == match url {
            Some(s) => if websocket_url_syntax(s) {
                1i32
            } else {
                0i32
            },
            None => 0i32,
        },
{
    match url {
        Some(s) => if str_starts_with(s, "ws://") || str_starts_with(s, "wss://") {
            1
        } else {
            0
        },
        None => 0,
    }
}

} // verus!
