//! Verified core of the RSocket foreign-function bindings: payloads,
//! transport selection, performance counters and the browser worker-pool
//! scheduler that the C, Go, Java, JavaScript, Python and WASM front ends
//! share.

pub mod buffer;
pub mod text;
pub mod webworkers;
pub mod worker_pool;
pub mod payload;
pub mod payload_bindings;
pub mod transport;
pub mod options;
pub mod js_transport;
pub mod clock;
pub mod metrics;
pub mod monitor;
pub mod frame;
pub mod py_metrics;
pub mod error;
pub mod webworkers_transport;
pub mod client_calls;
pub mod py_streams;
pub mod js_calls;
pub mod py_server;
