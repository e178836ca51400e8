//! Transport selection of the JavaScript binding: named transport kinds,
//! per-connection option tables, and the factory presets that fill them.

use vstd::prelude::*;
use vstd::string::*;
use crate::options::OptionMap;
use crate::text::{bool_text, bool_to_text, decimal_text, joined, str_eq, u32_to_decimal};

verus! {

/// Kind of a failure reported to JavaScript.
#[derive(PartialEq, Eq, Structural, Debug, Clone, Copy)]
pub enum JsStatus {
    InvalidArg,
    GenericFailure,
}

/// A failure reported to JavaScript: its kind and its message.
pub struct JsError {
    pub status: JsStatus,
    pub message: String,
}

/// A transport kind, identified by its name.
pub struct JsTransportType {
    pub transport_type: String,
}

/// The transport names the factory knows for clients.
pub open spec fn js_client_transport_name(name: Seq<char>) -> bool {
    ||| name == "tcp"@
    ||| name == "websocket"@
    ||| name == "quinn-quic"@
    ||| name == "quinn-webtransport"@
    ||| name == "iroh-roq"@
    ||| name == "wasm-webworkers"@
    ||| name == "iroh-p2p"@
    ||| name == "iroh-p2p-wasm"@
}

/// The transport names the factory knows for high-performance servers.
pub open spec fn js_server_transport_name(name: Seq<char>) -> bool {
    ||| name == "tcp"@
    ||| name == "websocket"@
    ||| name == "quinn-quic"@
}

/// The optimized-client factory accepts every transport kind that has a
/// constructor here (`tcp`, `websocket`, `quinn_quic`, `quinn_webtransport`,
/// `iroh_roq`, `wasm_webworkers`, `iroh_p2p`, `iroh_p2p_wasm`), by the name
/// that constructor gives, and no other name.
pub proof fn law_optimized_client_accepts_every_kind(name: Seq<char>)
    ensures
        (name == "tcp"@ || name == "websocket"@ || name == "quinn-quic"@ || name
            == "quinn-webtransport"@ || name == "iroh-roq"@ || name == "wasm-webworkers"@ || name
            == "iroh-p2p"@ || name == "iroh-p2p-wasm"@) <==> js_client_transport_name(name),
{
}

/// The high-performance-server factory accepts exactly TCP, WebSocket and
/// QUIC through Quinn; in particular a TCP server is always made.
pub proof fn law_high_performance_server_kinds(name: Seq<char>)
    ensures
        js_server_transport_name(name) <==> (name == "tcp"@ || name == "websocket"@ || name
            == "quinn-quic"@),
        js_server_transport_name("tcp"@),
{
}

impl JsTransportType {
    /// The kind with this name.
    pub fn new(transport_type: String) -> (t: JsTransportType)
        ensures
            t.transport_type@ == transport_type@,
    {
        JsTransportType { transport_type }
    }

    /// The kind's name.
    pub fn to_string(&self) -> (s: String)
        ensures
            s@ == self.transport_type@,
    {
        self.transport_type.clone()
    }

    /// TCP.
    pub fn tcp() -> (t: JsTransportType)
        ensures
            t.transport_type@ == "tcp"@,
    {
        JsTransportType::new(String::from_str("tcp"))
    }

    /// WebSocket.
    pub fn websocket() -> (t: JsTransportType)
        ensures
            t.transport_type@ == "websocket"@,
    {
        JsTransportType::new(String::from_str("websocket"))
    }

    /// QUIC through Quinn.
    pub fn quinn_quic() -> (t: JsTransportType)
        ensures
            t.transport_type@ == "quinn-quic"@,
    {
        JsTransportType::new(String::from_str("quinn-quic"))
    }

    /// WebTransport through Quinn.
    pub fn quinn_webtransport() -> (t: JsTransportType)
        ensures
            t.transport_type@ == "quinn-webtransport"@,
    {
        JsTransportType::new(String::from_str("quinn-webtransport"))
    }

    /// RSocket over QUIC through Iroh.
    pub fn iroh_roq() -> (t: JsTransportType)
        ensures
            t.transport_type@ == "iroh-roq"@,
    {
        JsTransportType::new(String::from_str("iroh-roq"))
    }

    /// The browser transport with WebWorkers.
    pub fn wasm_webworkers() -> (t: JsTransportType)
        ensures
            t.transport_type@ == "wasm-webworkers"@,
    {
        JsTransportType::new(String::from_str("wasm-webworkers"))
    }

    /// Peer to peer through Iroh.
    pub fn iroh_p2p() -> (t: JsTransportType)
        ensures
            t.transport_type@ == "iroh-p2p"@,
    {
        JsTransportType::new(String::from_str("iroh-p2p"))
    }

    /// Peer to peer through Iroh in the browser.
    pub fn iroh_p2p_wasm() -> (t: JsTransportType)
        ensures
            t.transport_type@ == "iroh-p2p-wasm"@,
    {
        JsTransportType::new(String::from_str("iroh-p2p-wasm"))
    }

    /// The client transport kind with this name, if the factory knows it.
    pub fn client_kind_named(name: &str) -> (res: Option<JsTransportType>)
        ensures
            res is Some <==> js_client_transport_name(name@),
            res matches Some(t) ==> t.transport_type@ == name@,
    {
        if str_eq(name, "tcp") {
            Some(JsTransportType::tcp())
        } else if str_eq(name, "websocket") {
            Some(JsTransportType::websocket())
        } else if str_eq(name, "quinn-quic") {
            Some(JsTransportType::quinn_quic())
        } else if str_eq(name, "quinn-webtransport") {
            Some(JsTransportType::quinn_webtransport())
        } else if str_eq(name, "iroh-roq") {
            Some(JsTransportType::iroh_roq())
        } else if str_eq(name, "wasm-webworkers") {
            Some(JsTransportType::wasm_webworkers())
        } else if str_eq(name, "iroh-p2p") {
            Some(JsTransportType::iroh_p2p())
        } else if str_eq(name, "iroh-p2p-wasm") {
            Some(JsTransportType::iroh_p2p_wasm())
        } else {
            None
        }
    }

    /// The server transport kind with this name, if the factory knows it.
    pub fn server_kind_named(name: &str) -> (res: Option<JsTransportType>)
        ensures
            res is Some <==> js_server_transport_name(name@),
            res matches Some(t) ==> t.transport_type@ == name@,
    {
        if str_eq(name, "tcp") {
            Some(JsTransportType::tcp())
        } else if str_eq(name, "websocket") {
            Some(JsTransportType::websocket())
        } else if str_eq(name, "quinn-quic") {
            Some(JsTransportType::quinn_quic())
        } else {
            None
        }
    }
}

/// A transport kind, an address, and options.
pub struct JsTransportConfig {
    pub transport_type: JsTransportType,
    pub address: String,
    pub options: OptionMap,
}

impl JsTransportConfig {
    /// Whether the option table is well formed.
    pub open spec fn wf(&self) -> bool {
        self.options.wf()
    }

    /// A configuration with the given options, or none.
    pub fn new(transport_type: JsTransportType, address: String, options: Option<OptionMap>) -> (cfg:
        JsTransportConfig)
        requires
            options matches Some(m) ==> m.wf(),
        ensures
            cfg.wf(),
            cfg.transport_type.transport_type@ == transport_type.transport_type@,
            cfg.address@ == address@,
            cfg.options@ == match options {
                Some(m) => m@,
                None => Map::<Seq<char>, Seq<char>>::empty(),
            },
    {
        let options = match options {
            Some(m) => m,
            None => OptionMap::new(),
        };
        JsTransportConfig { transport_type, address, options }
    }

    /// Sets an option, replacing any earlier value.
    pub fn set_option(&mut self, key: String, value: String)
        requires
            old(self).wf(),
        ensures
            final(self).wf(),
            final(self).options@ == old(self).options@.insert(key@, value@),
            final(self).transport_type == old(self).transport_type,
            final(self).address == old(self).address,
    {
        self.options.insert(key, value);
    }

    /// The value of an option, if set.
    pub fn get_option(&self, key: String) -> (res: Option<String>)
        requires
            self.wf(),
        ensures
            match res {
                Some(v) => self.options@.contains_key(key@) && self.options@[key@] == v@,
                None => !self.options@.contains_key(key@),
            },
    {
        self.options.get(key.as_str())
    }

    /// Sets `crossbeam_optimizations` to `true`.
    pub fn enable_crossbeam_optimizations(&mut self)
        requires
            old(self).wf(),
        ensures
            final(self).wf(),
            final(self).options@ == old(self).options@.insert(
                "crossbeam_optimizations"@,
                "true"@,
            ),
            final(self).transport_type == old(self).transport_type,
            final(self).address == old(self).address,
    {
        self.set_option(String::from_str("crossbeam_optimizations"), String::from_str("true"));
    }

    /// Sets `simd_processing` to `true`.
    pub fn enable_simd_processing(&mut self)
        requires
            old(self).wf(),
        ensures
            final(self).wf(),
            final(self).options@ == old(self).options@.insert("simd_processing"@, "true"@),
            final(self).transport_type == old(self).transport_type,
            final(self).address == old(self).address,
    {
        self.set_option(String::from_str("simd_processing"), String::from_str("true"));
    }

    /// Sets `webworkers_enabled` to `true`.
    pub fn enable_webworkers(&mut self)
        requires
            old(self).wf(),
        ensures
            final(self).wf(),
            final(self).options@ == old(self).options@.insert("webworkers_enabled"@, "true"@),
            final(self).transport_type == old(self).transport_type,
            final(self).address == old(self).address,
    {
        self.set_option(String::from_str("webworkers_enabled"), String::from_str("true"));
    }

    /// Sets `webworkers_count` to the decimal count.
    pub fn set_webworkers_count(&mut self, count: u32)
        requires
            old(self).wf(),
        ensures
            final(self).wf(),
            final(self).options@ == old(self).options@.insert(
                "webworkers_count"@,
                decimal_text(count as nat),
            ),
            final(self).transport_type == old(self).transport_type,
            final(self).address == old(self).address,
    {
        self.set_option(String::from_str("webworkers_count"), u32_to_decimal(count));
    }

    /// Sets `performance_mode` to the mode.
    pub fn set_performance_mode(&mut self, mode: String)
        requires
            old(self).wf(),
        ensures
            final(self).wf(),
            final(self).options@ == old(self).options@.insert("performance_mode"@, mode@),
            final(self).transport_type == old(self).transport_type,
            final(self).address == old(self).address,
    {
        self.set_option(String::from_str("performance_mode"), mode);
    }

    /// Sets `buffer_size` to the decimal size.
    pub fn set_buffer_size(&mut self, size: u32)
        requires
            old(self).wf(),
        ensures
            final(self).wf(),
            final(self).options@ == old(self).options@.insert(
                "buffer_size"@,
                decimal_text(size as nat),
            ),
            final(self).transport_type == old(self).transport_type,
            final(self).address == old(self).address,
    {
        self.set_option(String::from_str("buffer_size"), u32_to_decimal(size));
    }

    /// Sets `compression_enabled` to `true` or `false`.
    pub fn enable_compression(&mut self, enabled: bool)
        requires
            old(self).wf(),
        ensures
            final(self).wf(),
            final(self).options@ == old(self).options@.insert(
                "compression_enabled"@,
                bool_text(enabled),
            ),
            final(self).transport_type == old(self).transport_type,
            final(self).address == old(self).address,
    {
        self.set_option(String::from_str("compression_enabled"), bool_to_text(enabled));
    }

    /// `JsTransportConfig(<kind>, <address>)`.
    pub fn to_string(&self) -> (s: String)
        ensures
            s@ == "JsTransportConfig("@ + self.transport_type.transport_type@ + ", "@
                + self.address@ + ")"@,
    {
        let mut s = String::from_str("JsTransportConfig(");
        s.append(self.transport_type.transport_type.as_str());
        s.append(", ");
        s.append(self.address.as_str());
        s.append(")");
        s
    }

    /// Copies of all options, one entry per key.
    pub fn get_all_options(&self) -> (res: Vec<(String, String)>)
        requires
            self.wf(),
        ensures
            crate::options::keys_distinct(crate::options::pair_views(res@)),
            crate::options::table_of(crate::options::pair_views(res@)) == self.options@,
    {
        self.options.to_pairs()
    }
}

/// Where a client or server of the JavaScript binding connects or listens.
pub enum JsConnectTarget {
    Tcp(String),
    WebSocket(String),
}

/// The options of an optimized client: SIMD unless switched off, four
/// WebWorkers when asked for, high performance mode and crossbeam on.
pub open spec fn optimized_client_options(simd: bool, webworkers: bool) -> Map<Seq<char>, Seq<char>> {
    let m0 = Map::<Seq<char>, Seq<char>>::empty();
    let m1 = if simd {
        m0.insert("simd_processing"@, "true"@)
    } else {
        m0
    };
    let m2 = if webworkers {
        m1.insert("webworkers_enabled"@, "true"@).insert("webworkers_count"@, decimal_text(4))
    } else {
        m1
    };
    m2.insert("performance_mode"@, "high"@).insert("crossbeam_optimizations"@, "true"@)
}

/// The options of a high-performance server: high performance mode,
/// crossbeam and SIMD on, and the worker count when given.
pub open spec fn high_performance_server_options(worker_count: Option<u32>) -> Map<
    Seq<char>,
    Seq<char>,
> {
    let m = Map::<Seq<char>, Seq<char>>::empty().insert("performance_mode"@, "high"@).insert(
        "crossbeam_optimizations"@,
        "true"@,
    ).insert("simd_processing"@, "true"@);
    match worker_count {
        Some(c) => m.insert("webworkers_count"@, decimal_text(c as nat)),
        None => m,
    }
}

/// A client of the JavaScript binding, before it connects.
pub struct JsRSocketClient {
    transport_config: JsTransportConfig,
}

impl JsRSocketClient {
    /// The client's configuration.
    pub closed spec fn config(&self) -> JsTransportConfig {
        self.transport_config
    }

    /// A client for the configuration.
    pub fn new(transport_config: JsTransportConfig) -> (c: JsRSocketClient)
        ensures
            c.config() == transport_config,
    {
        JsRSocketClient { transport_config }
    }

    /// The configuration.
    pub fn transport_config(&self) -> (cfg: &JsTransportConfig)
        ensures
            *cfg == self.config(),
    {
        &self.transport_config
    }

    /// The name of the configured transport.
    pub fn get_transport_type(&self) -> (s: String)
        ensures
            s@ == self.config().transport_type.transport_type@,
    {
        self.transport_config.transport_type.transport_type.clone()
    }

    /// The configured address.
    pub fn get_address(&self) -> (s: String)
        ensures
            s@ == self.config().address@,
    {
        self.transport_config.address.clone()
    }

    /// Where `connect` goes: TCP or WebSocket at the configured address.
    /// QUIC is refused as unavailable and every other kind as unsupported.
    pub fn connect_target(&self) -> (res: Result<JsConnectTarget, JsError>)
        ensures
            ({
                let name = self.config().transport_type.transport_type@;
                let addr = self.config().address@;
                match res {
                    Ok(JsConnectTarget::Tcp(a)) => name == "tcp"@ && a@ == addr,
                    Ok(JsConnectTarget::WebSocket(a)) => name == "websocket"@ && a@ == addr,
                    Err(e) => e.status == JsStatus::InvalidArg && name != "tcp"@ && name
                        != "websocket"@ && (if name == "quinn-quic"@ {
                        e.message@ == "QUIC transport not available in current build"@
                    } else {
                        e.message@ == "Unsupported transport type: "@ + name
                    }),
                }
            }),
    {
        let name = self.transport_config.transport_type.transport_type.as_str();
        if str_eq(name, "tcp") {
            Ok(JsConnectTarget::Tcp(self.transport_config.address.clone()))
        } else if str_eq(name, "websocket") {
            Ok(JsConnectTarget::WebSocket(self.transport_config.address.clone()))
        } else if str_eq(name, "quinn-quic") {
            Err(
                JsError {
                    status: JsStatus::InvalidArg,
                    message: String::from_str("QUIC transport not available in current build"),
                },
            )
        } else {
            Err(
                JsError {
                    status: JsStatus::InvalidArg,
                    message: joined("Unsupported transport type: ", name),
                },
            )
        }
    }
}

/// A server of the JavaScript binding, before it starts.
pub struct JsRSocketServer {
    transport_config: JsTransportConfig,
}

impl JsRSocketServer {
    /// The server's configuration.
    pub closed spec fn config(&self) -> JsTransportConfig {
        self.transport_config
    }

    /// A server for the configuration.
    pub fn new(transport_config: JsTransportConfig) -> (s: JsRSocketServer)
        ensures
            s.config() == transport_config,
    {
        JsRSocketServer { transport_config }
    }

    /// The configuration.
    pub fn transport_config(&self) -> (cfg: &JsTransportConfig)
        ensures
            *cfg == self.config(),
    {
        &self.transport_config
    }

    /// The name of the configured transport.
    pub fn get_transport_type(&self) -> (s: String)
        ensures
            s@ == self.config().transport_type.transport_type@,
    {
        self.transport_config.transport_type.transport_type.clone()
    }

    /// The configured address.
    pub fn get_address(&self) -> (s: String)
        ensures
            s@ == self.config().address@,
    {
        self.transport_config.address.clone()
    }

    /// Where the server task listens: TCP or WebSocket at the configured
    /// address; any other kind ends the task with a message.
    pub fn listen_target(&self) -> (res: Result<JsConnectTarget, String>)
        ensures
            ({
                let name = self.config().transport_type.transport_type@;
                let addr = self.config().address@;
                match res {
                    Ok(JsConnectTarget::Tcp(a)) => name == "tcp"@ && a@ == addr,
                    Ok(JsConnectTarget::WebSocket(a)) => name == "websocket"@ && a@ == addr,
                    Err(m) => name != "tcp"@ && name != "websocket"@ && m@
                        == "Unsupported server transport type: "@ + name,
                }
            }),
    {
        let name = self.transport_config.transport_type.transport_type.as_str();
        if str_eq(name, "tcp") {
            Ok(JsConnectTarget::Tcp(self.transport_config.address.clone()))
        } else if str_eq(name, "websocket") {
            Ok(JsConnectTarget::WebSocket(self.transport_config.address.clone()))
        } else {
            Err(joined("Unsupported server transport type: ", name))
        }
    }
}

/// Presets for clients and servers of the JavaScript binding.
pub struct JsRSocketFactory;

impl JsRSocketFactory {
    /// The factory.
    pub fn new() -> JsRSocketFactory {
        JsRSocketFactory
    }

    /// A client of the given kind at the address, without options.
    fn plain_client(kind: JsTransportType, address: String) -> (c: JsRSocketClient)
        ensures
            c.config().wf(),
            c.config().transport_type.transport_type@ == kind.transport_type@,
            c.config().address@ == address@,
            c.config().options@ == Map::<Seq<char>, Seq<char>>::empty(),
    {
        JsRSocketClient::new(JsTransportConfig::new(kind, address, None))
    }

    /// A server of the given kind at the address, without options.
    fn plain_server(kind: JsTransportType, address: String) -> (s: JsRSocketServer)
        ensures
            s.config().wf(),
            s.config().transport_type.transport_type@ == kind.transport_type@,
            s.config().address@ == address@,
            s.config().options@ == Map::<Seq<char>, Seq<char>>::empty(),
    {
        JsRSocketServer::new(JsTransportConfig::new(kind, address, None))
    }

    /// A TCP client, without options.
    pub fn create_tcp_client(address: String) -> (c: JsRSocketClient)
        ensures
            c.config().wf(),
            c.config().transport_type.transport_type@ == "tcp"@,
            c.config().address@ == address@,
            c.config().options@ == Map::<Seq<char>, Seq<char>>::empty(),
    {
        Self::plain_client(JsTransportType::tcp(), address)
    }

    /// A WebSocket client, without options.
    pub fn create_websocket_client(address: String) -> (c: JsRSocketClient)
        ensures
            c.config().wf(),
            c.config().transport_type.transport_type@ == "websocket"@,
            c.config().address@ == address@,
            c.config().options@ == Map::<Seq<char>, Seq<char>>::empty(),
    {
        Self::plain_client(JsTransportType::websocket(), address)
    }

    /// A QUIC client, without options.
    pub fn create_quic_client(address: String) -> (c: JsRSocketClient)
        ensures
            c.config().wf(),
            c.config().transport_type.transport_type@ == "quinn-quic"@,
            c.config().address@ == address@,
            c.config().options@ == Map::<Seq<char>, Seq<char>>::empty(),
    {
        Self::plain_client(JsTransportType::quinn_quic(), address)
    }

    /// A WebTransport client, without options.
    pub fn create_webtransport_client(address: String) -> (c: JsRSocketClient)
        ensures
            c.config().wf(),
            c.config().transport_type.transport_type@ == "quinn-webtransport"@,
            c.config().address@ == address@,
            c.config().options@ == Map::<Seq<char>, Seq<char>>::empty(),
    {
        Self::plain_client(JsTransportType::quinn_webtransport(), address)
    }

    /// A tuned client of a named kind: refused with `InvalidArg` when the
    /// kind is unknown, else configured with `optimized_client_options`
    /// (SIMD defaults to on, WebWorkers to off).
    pub fn create_optimized_client(
        transport_type: String,
        address: String,
        enable_simd: Option<bool>,
        enable_webworkers: Option<bool>,
    ) -> (res: Result<JsRSocketClient, JsError>)
        ensures
            res is Ok <==> js_client_transport_name(transport_type@),
            res matches Ok(c) ==> {
                &&& c.config().wf()
                &&& c.config().transport_type.transport_type@ == transport_type@
                &&& c.config().address@ == address@
                &&& c.config().options@ == optimized_client_options(
                    enable_simd.unwrap_or(true),
                    enable_webworkers.unwrap_or(false),
                )
            },
            res matches Err(e) ==> e.status == JsStatus::InvalidArg && e.message@
                == "Unsupported transport type: "@ + transport_type@,
    {
        let kind = match JsTransportType::client_kind_named(transport_type.as_str()) {
            Some(k) => k,
            None => {
                return Err(
                    JsError {
                        status: JsStatus::InvalidArg,
                        message: joined(
                            "Unsupported transport type: ",
                            transport_type.as_str(),
                        ),
                    },
                );
            },
        };
        let simd = match enable_simd {
            Some(b) => b,
            None => true,
        };
        let webworkers = match enable_webworkers {
            Some(b) => b,
            None => false,
        };
        let mut config = JsTransportConfig::new(kind, address, None);
        if simd {
            config.enable_simd_processing();
        }
        if webworkers {
            config.enable_webworkers();
            config.set_webworkers_count(4);
        }
        config.set_performance_mode(String::from_str("high"));
        config.enable_crossbeam_optimizations();
        assert(config.options@ =~= optimized_client_options(simd, webworkers));
        Ok(JsRSocketClient::new(config))
    }

    /// A TCP server, without options.
    pub fn create_tcp_server(address: String) -> (s: JsRSocketServer)
        ensures
            s.config().wf(),
            s.config().transport_type.transport_type@ == "tcp"@,
            s.config().address@ == address@,
            s.config().options@ == Map::<Seq<char>, Seq<char>>::empty(),
    {
        Self::plain_server(JsTransportType::tcp(), address)
    }

    /// A WebSocket server, without options.
    pub fn create_websocket_server(address: String) -> (s: JsRSocketServer)
        ensures
            s.config().wf(),
            s.config().transport_type.transport_type@ == "websocket"@,
            s.config().address@ == address@,
            s.config().options@ == Map::<Seq<char>, Seq<char>>::empty(),
    {
        Self::plain_server(JsTransportType::websocket(), address)
    }

    /// A QUIC server, without options.
    pub fn create_quic_server(address: String) -> (s: JsRSocketServer)
        ensures
            s.config().wf(),
            s.config().transport_type.transport_type@ == "quinn-quic"@,
            s.config().address@ == address@,
            s.config().options@ == Map::<Seq<char>, Seq<char>>::empty(),
    {
        Self::plain_server(JsTransportType::quinn_quic(), address)
    }

    /// A tuned server of a named kind (TCP, WebSocket or QUIC): refused
    /// with `InvalidArg` for any other kind, else configured with
    /// `high_performance_server_options`.
    pub fn create_high_performance_server(
        transport_type: String,
        address: String,
        worker_count: Option<u32>,
    ) -> (res: Result<JsRSocketServer, JsError>)
        ensures
            res is Ok <==> js_server_transport_name(transport_type@),
            res matches Ok(s) ==> {
                &&& s.config().wf()
                &&& s.config().transport_type.transport_type@ == transport_type@
                &&& s.config().address@ == address@
                &&& s.config().options@ == high_performance_server_options(worker_count)
            },
            res matches Err(e) ==> e.status == JsStatus::InvalidArg && e.message@
                == "Unsupported server transport type: "@ + transport_type@,
    {
        let kind = match JsTransportType::server_kind_named(transport_type.as_str()) {
            Some(k) => k,
            None => {
                return Err(
                    JsError {
                        status: JsStatus::InvalidArg,
                        message: joined(
                            "Unsupported server transport type: ",
                            transport_type.as_str(),
                        ),
                    },
                );
            },
        };
        let mut config = JsTransportConfig::new(kind, address, None);
        config.set_performance_mode(String::from_str("high"));
        config.enable_crossbeam_optimizations();
        config.enable_simd_processing();
        match worker_count {
            Some(c) => {
                config.set_webworkers_count(c);
            },
            None => {},
        }
        assert(config.options@ =~= high_performance_server_options(worker_count));
        Ok(JsRSocketServer::new(config))
    }
}

/// The transport names the JavaScript binding reports as supported.
pub fn get_supported_transports() -> (res: Vec<String>)
    ensures
        res@.len() == 2,
        res@[0]@ == "tcp"@,
        res@[1]@ == "websocket"@,
{
    let mut v: Vec<String> = Vec::new();
    v.push(String::from_str("tcp"));
    v.push(String::from_str("websocket"));
    v
}

/// An option read back after it is set has the value set, and setting one
/// option leaves every other option as it was (over the options map that
/// `set_option` and `get_option` speak of).
pub proof fn law_option_read_after_write(
    options: Map<Seq<char>, Seq<char>>,
    key: Seq<char>,
    value: Seq<char>,
    other: Seq<char>,
)
    ensures
        options.insert(key, value).contains_key(key),
        options.insert(key, value)[key] == value,
        other != key ==> options.insert(key, value).contains_key(other) == options.contains_key(
            other,
        ),
        other != key && options.contains_key(other) ==> options.insert(key, value)[other]
            == options[other],
{
}

} // verus!
