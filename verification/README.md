# rsocket_ffi

The shared core of the RSocket foreign-function bindings (C, Go, Java,
JavaScript, Python and the browser peer-to-peer transport), written in
Verus: every function in `src/` carries a contract that Verus proves.

- `src/payload.rs`, `src/payload_bindings.rs`: payloads and the per-language
  payload entry points.
- `src/transport.rs`, `src/js_transport.rs`, `src/options.rs`: transport
  kinds, their names, and the JavaScript option tables and factory presets.
- `src/metrics.rs`, `src/py_metrics.rs`, `src/monitor.rs`: request, traffic
  and latency statistics.
- `src/worker_pool.rs`, `src/webworkers.rs`, `src/webworkers_transport.rs`,
  `src/frame.rs`: the browser worker pool scheduler and the worker-backed
  transport around it.
- `src/client_calls.rs`, `src/js_calls.rs`, `src/py_streams.rs`,
  `src/py_server.rs`: what the bindings answer once a request, a stream or a
  Python handler has come back, and the Python server builder.
- `src/buffer.rs`, `src/text.rs`, `src/clock.rs`: the calls into `bytes` and
  the standard library that the rest relies on, with the contracts assumed
  of them.

`app/` holds the C, Go and Java entry points (raw pointers, JNI, the clock),
which read their arguments and hand plain values to the library.
