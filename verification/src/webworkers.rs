//! Configuration and capability records of the browser (WASM) transport:
//! what the environment offers and how the worker pool is sized from it.

use vstd::prelude::*;

verus! {

/// Buffer size chosen when `SharedArrayBuffer` is available (2 MiB).
pub const SHARED_BUFFER_SIZE: usize = 2097152;

/// Buffer size chosen without `SharedArrayBuffer` (512 KiB).
pub const PLAIN_BUFFER_SIZE: usize = 524288;

/// Default buffer size of a transport configuration (1 MiB).
pub const DEFAULT_BUFFER_SIZE: usize = 1048576;

/// Worker count used when the browser does not report its hardware concurrency.
pub const FALLBACK_WORKER_COUNT: usize = 4;

/// Settings of the worker pool.
#[derive(Clone, Copy)]
pub struct WebWorkersConfig {
    pub worker_count: usize,
    pub buffer_size: usize,
    pub batch_size: usize,
    pub enable_shared_array_buffer: bool,
    pub enable_performance_monitoring: bool,
    pub enable_zero_copy: bool,
    pub max_concurrent_tasks: usize,
}

/// What the worker side of the environment offers.
pub struct WebWorkersCapabilities {
    pub optimal_worker_count: usize,
    pub max_buffer_size: usize,
    pub shared_array_buffer_supported: bool,
}

/// The worker capabilities assumed for every environment: four workers,
/// 1 MiB buffers and no `SharedArrayBuffer`.
pub fn detect_webworkers_capabilities() -> (caps: WebWorkersCapabilities)
    ensures
        caps.optimal_worker_count == 4,
        caps.max_buffer_size == DEFAULT_BUFFER_SIZE,
        !caps.shared_array_buffer_supported,
{
    WebWorkersCapabilities {
        optimal_worker_count: 4,
        max_buffer_size: DEFAULT_BUFFER_SIZE,
        shared_array_buffer_supported: false,
    }
}

/// Settings of the peer-to-peer WebRTC transport.
pub struct IrohWasmConfig {
    pub ice_servers: Vec<String>,
    pub enable_webworkers: bool,
    pub worker_count: usize,
    pub buffer_size: usize,
    pub enable_performance_monitoring: bool,
    pub connection_timeout_ms: u32,
    pub max_retries: u32,
}

/// The two public STUN servers a configuration starts with.
pub open spec fn default_ice_servers() -> Seq<Seq<char>> {
    seq!["stun:stun.l.google.com:19302"@, "stun:stun1.l.google.com:19302"@]
}

/// The views of a list of strings.
pub open spec fn string_views(v: Seq<String>) -> Seq<Seq<char>> {
    v.map_values(|s: String| s@)
}

/// The default list of ICE servers.
pub fn default_ice_server_list() -> (res: Vec<String>)
    ensures
        string_views(res@) == default_ice_servers(),
{
    let mut v: Vec<String> = Vec::new();
    v.push("stun:stun.l.google.com:19302".to_owned());
    v.push("stun:stun1.l.google.com:19302".to_owned());
    assert(string_views(v@) =~= default_ice_servers());
    v
}

/// A copy of a list of strings.
fn copy_strings(v: &Vec<String>) -> (res: Vec<String>)
    ensures
        string_views(res@) == string_views(v@),
{
    let mut res: Vec<String> = Vec::new();
    let mut i: usize = 0;
    while i < v.len()
        invariant
            0 <= i <= v@.len(),
            string_views(res@) == string_views(v@).subrange(0, i as int),
        decreases v@.len() - i,
    {
        let s = v[i].clone();
        let ghost before = res@;
        res.push(s);
        assert(string_views(res@) =~= string_views(before).push(v@[i as int]@));
        i = i + 1;
        assert(string_views(res@) =~= string_views(v@).subrange(0, i as int));
    }
    assert(string_views(res@) =~= string_views(v@));
    res
}

impl IrohWasmConfig {
    /// A copy of the configuration.
    pub fn duplicate(&self) -> (res: IrohWasmConfig)
        ensures
            string_views(res.ice_servers@) == string_views(self.ice_servers@),
            res.enable_webworkers == self.enable_webworkers,
            res.worker_count == self.worker_count,
            res.buffer_size == self.buffer_size,
            res.enable_performance_monitoring == self.enable_performance_monitoring,
            res.connection_timeout_ms == self.connection_timeout_ms,
            res.max_retries == self.max_retries,
    {
        IrohWasmConfig {
            ice_servers: copy_strings(&self.ice_servers),
            enable_webworkers: self.enable_webworkers,
            worker_count: self.worker_count,
            buffer_size: self.buffer_size,
            enable_performance_monitoring: self.enable_performance_monitoring,
            connection_timeout_ms: self.connection_timeout_ms,
            max_retries: self.max_retries,
        }
    }

    /// The default configuration, given the hardware concurrency that the
    /// browser reports (`None` where it reports none): that many workers, or
    /// four; WebWorkers on, 1 MiB buffers, no monitoring, a 30 s timeout and
    /// three retries.
    pub fn default_for(hardware_concurrency: Option<usize>) -> (cfg: IrohWasmConfig)
        ensures
            string_views(cfg.ice_servers@) == default_ice_servers(),
            cfg.enable_webworkers,
            cfg.worker_count == match hardware_concurrency {
                Some(n) => n,
                None => FALLBACK_WORKER_COUNT,
            },
            cfg.buffer_size == DEFAULT_BUFFER_SIZE,
            !cfg.enable_performance_monitoring,
            cfg.connection_timeout_ms == 30000,
            cfg.max_retries == 3,
    {
        let worker_count = match hardware_concurrency {
            Some(n) => n,
            None => FALLBACK_WORKER_COUNT,
        };
        IrohWasmConfig {
            ice_servers: default_ice_server_list(),
            enable_webworkers: true,
            worker_count,
            buffer_size: DEFAULT_BUFFER_SIZE,
            enable_performance_monitoring: false,
            connection_timeout_ms: 30000,
            max_retries: 3,
        }
    }
}

/// What the browser offers to the peer-to-peer transport.
#[derive(Clone, Copy)]
pub struct IrohWasmCapabilities {
    pub webrtc_supported: bool,
    pub webworkers_supported: bool,
    pub shared_array_buffer_supported: bool,
    pub optimal_worker_count: usize,
    pub max_buffer_size: usize,
}

impl IrohWasmCapabilities {
    /// The capability record for the given probe results: the worker count
    /// is the reported hardware concurrency or four, and the buffer limit is
    /// 2 MiB with `SharedArrayBuffer` and 512 KiB without.
    pub fn from_probes(
        webrtc_supported: bool,
        webworkers_supported: bool,
        shared_array_buffer_supported: bool,
        hardware_concurrency: Option<usize>,
    ) -> (caps: IrohWasmCapabilities)
        ensures
            caps.webrtc_supported == webrtc_supported,
            caps.webworkers_supported == webworkers_supported,
            caps.shared_array_buffer_supported == shared_array_buffer_supported,
            caps.optimal_worker_count == match hardware_concurrency {
                Some(n) => n,
                None => FALLBACK_WORKER_COUNT,
            },
            caps.max_buffer_size == (if shared_array_buffer_supported {
                SHARED_BUFFER_SIZE
            } else {
                PLAIN_BUFFER_SIZE
            }),
    {
        IrohWasmCapabilities {
            webrtc_supported,
            webworkers_supported,
            shared_array_buffer_supported,
            optimal_worker_count: match hardware_concurrency {
                Some(n) => n,
                None => FALLBACK_WORKER_COUNT,
            },
            max_buffer_size: if shared_array_buffer_supported {
                SHARED_BUFFER_SIZE
            } else {
                PLAIN_BUFFER_SIZE
            },
        }
    }
}

/// Settings of the peer-to-peer transport together with its worker pool.
pub struct IrohWasmWebWorkersConfig {
    pub iroh_config: IrohWasmConfig,
    pub webworkers_config: WebWorkersConfig,
    pub enable_p2p_optimization: bool,
    pub enable_webrtc_fallback: bool,
    pub max_peer_connections: usize,
}

impl IrohWasmWebWorkersConfig {
    /// A copy of the configuration.
    pub fn duplicate(&self) -> (res: IrohWasmWebWorkersConfig)
        ensures
            string_views(res.iroh_config.ice_servers@) == string_views(self.iroh_config.ice_servers@),
            res.iroh_config.enable_webworkers == self.iroh_config.enable_webworkers,
            res.iroh_config.worker_count == self.iroh_config.worker_count,
            res.iroh_config.buffer_size == self.iroh_config.buffer_size,
            res.iroh_config.enable_performance_monitoring
                == self.iroh_config.enable_performance_monitoring,
            res.iroh_config.connection_timeout_ms == self.iroh_config.connection_timeout_ms,
            res.iroh_config.max_retries == self.iroh_config.max_retries,
            res.webworkers_config == self.webworkers_config,
            res.enable_p2p_optimization == self.enable_p2p_optimization,
            res.enable_webrtc_fallback == self.enable_webrtc_fallback,
            res.max_peer_connections == self.max_peer_connections,
    {
        IrohWasmWebWorkersConfig {
            iroh_config: self.iroh_config.duplicate(),
            webworkers_config: self.webworkers_config,
            enable_p2p_optimization: self.enable_p2p_optimization,
            enable_webrtc_fallback: self.enable_webrtc_fallback,
            max_peer_connections: self.max_peer_connections,
        }
    }

    /// The default combined configuration for an environment with the given
    /// capabilities and reported hardware concurrency: the default transport
    /// settings, a pool sized by `detect_webworkers_capabilities` with
    /// batches of 100 and at most 1000 tasks, peer-to-peer optimisation where
    /// WebRTC exists, the WebRTC fallback on and at most 10 peers.
    pub fn default_for(
        capabilities: &IrohWasmCapabilities,
        hardware_concurrency: Option<usize>,
    ) -> (cfg: IrohWasmWebWorkersConfig)
        ensures
            string_views(cfg.iroh_config.ice_servers@) == default_ice_servers(),
            cfg.iroh_config.enable_webworkers,
            cfg.iroh_config.worker_count == match hardware_concurrency {
                Some(n) => n,
                None => FALLBACK_WORKER_COUNT,
            },
            cfg.iroh_config.buffer_size == DEFAULT_BUFFER_SIZE,
            !cfg.iroh_config.enable_performance_monitoring,
            cfg.iroh_config.connection_timeout_ms == 30000,
            cfg.iroh_config.max_retries == 3,
            cfg.webworkers_config.worker_count == 4,
            cfg.webworkers_config.buffer_size == DEFAULT_BUFFER_SIZE,
            cfg.webworkers_config.batch_size == 100,
            !cfg.webworkers_config.enable_shared_array_buffer,
            cfg.webworkers_config.enable_performance_monitoring,
            cfg.webworkers_config.enable_zero_copy,
            cfg.webworkers_config.max_concurrent_tasks == 1000,
            cfg.enable_p2p_optimization == capabilities.webrtc_supported,
            cfg.enable_webrtc_fallback,
            cfg.max_peer_connections == 10,
    {
        let workers = detect_webworkers_capabilities();
        IrohWasmWebWorkersConfig {
            iroh_config: IrohWasmConfig::default_for(hardware_concurrency),
            webworkers_config: WebWorkersConfig {
                worker_count: workers.optimal_worker_count,
                buffer_size: workers.max_buffer_size,
                batch_size: 100,
                enable_shared_array_buffer: workers.shared_array_buffer_supported,
                enable_performance_monitoring: true,
                enable_zero_copy: true,
                max_concurrent_tasks: 1000,
            },
            enable_p2p_optimization: capabilities.webrtc_supported,
            enable_webrtc_fallback: true,
            max_peer_connections: 10,
        }
    }
}

/// The tuned configuration for an environment with the given capabilities:
/// WebWorkers as supported, as many workers as the environment suggests,
/// 2 MiB or 512 KiB buffers depending on `SharedArrayBuffer`, monitoring on,
/// a 15 s timeout and five retries; a pool of four workers with 512 KiB
/// buffers, batches of 150, at most 1500 tasks and no zero-copy; at most 15 peers.
pub fn create_iroh_wasm_optimized_config(capabilities: &IrohWasmCapabilities) -> (cfg:
    IrohWasmWebWorkersConfig)
    ensures
        string_views(cfg.iroh_config.ice_servers@) == default_ice_servers(),
        cfg.iroh_config.enable_webworkers == capabilities.webworkers_supported,
        cfg.iroh_config.worker_count == capabilities.optimal_worker_count,
        cfg.iroh_config.buffer_size == (if capabilities.shared_array_buffer_supported {
            SHARED_BUFFER_SIZE
        } else {
            PLAIN_BUFFER_SIZE
        }),
        cfg.iroh_config.enable_performance_monitoring,
        cfg.iroh_config.connection_timeout_ms == 15000,
        cfg.iroh_config.max_retries == 5,
        cfg.webworkers_config.worker_count == 4,
        cfg.webworkers_config.buffer_size == PLAIN_BUFFER_SIZE,
        cfg.webworkers_config.batch_size == 150,
        !cfg.webworkers_config.enable_shared_array_buffer,
        cfg.webworkers_config.enable_performance_monitoring,
        !cfg.webworkers_config.enable_zero_copy,
        cfg.webworkers_config.max_concurrent_tasks == 1500,
        cfg.enable_p2p_optimization == capabilities.webrtc_supported,
        cfg.enable_webrtc_fallback,
        cfg.max_peer_connections == 15,
{
    let workers = detect_webworkers_capabilities();
    IrohWasmWebWorkersConfig {
        iroh_config: IrohWasmConfig {
            ice_servers: default_ice_server_list(),
            enable_webworkers: capabilities.webworkers_supported,
            worker_count: capabilities.optimal_worker_count,
            buffer_size: if capabilities.shared_array_buffer_supported {
                SHARED_BUFFER_SIZE
            } else {
                PLAIN_BUFFER_SIZE
            },
            enable_performance_monitoring: true,
            connection_timeout_ms: 15000,
            max_retries: 5,
        },
        webworkers_config: WebWorkersConfig {
            worker_count: workers.optimal_worker_count,
            buffer_size: if workers.shared_array_buffer_supported {
                SHARED_BUFFER_SIZE
            } else {
                PLAIN_BUFFER_SIZE
            },
            batch_size: 150,
            enable_shared_array_buffer: workers.shared_array_buffer_supported,
            enable_performance_monitoring: true,
            enable_zero_copy: workers.shared_array_buffer_supported,
            max_concurrent_tasks: 1500,
        },
        enable_p2p_optimization: capabilities.webrtc_supported,
        enable_webrtc_fallback: true,
        max_peer_connections: 15,
    }
}

} // verus!
