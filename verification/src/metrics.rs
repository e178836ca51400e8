//! Request, response, error and traffic counters of the C, Go, Java and
//! JavaScript bindings.

use vstd::prelude::*;
use std::time::{Instant, SystemTime};
use crate::clock::{instant_now, system_time_elapsed_secs, system_time_now};

verus! {

/// Counters of the C binding; the start time is in seconds since the Unix epoch.
pub struct RSocketPerformanceMetrics {
    request_count: u64,
    response_count: u64,
    error_count: u64,
    bytes_sent: u64,
    bytes_received: u64,
    start_time: u64,
}

/// The counters of a metrics record.
pub struct CounterView {
    pub request_count: u64,
    pub response_count: u64,
    pub error_count: u64,
    pub bytes_sent: u64,
    pub bytes_received: u64,
    pub start_time: u64,
}

impl View for RSocketPerformanceMetrics {
    type V = CounterView;

    closed spec fn view(&self) -> CounterView {
        CounterView {
            request_count: self.request_count,
            response_count: self.response_count,
            error_count: self.error_count,
            bytes_sent: self.bytes_sent,
            bytes_received: self.bytes_received,
            start_time: self.start_time,
        }
    }
}

impl RSocketPerformanceMetrics {
    /// The start, in seconds since the Unix epoch.
    pub fn start_time(&self) -> (t: u64)
        ensures
            t == self@.start_time,
    {
        self.start_time
    }
}

/// Fresh counters, started at `start_time` seconds since the Unix epoch.
pub fn rsocket_performance_metrics_create(start_time: u64) -> (m: RSocketPerformanceMetrics)
    ensures
        m@ == (CounterView {
            request_count: 0,
            response_count: 0,
            error_count: 0,
            bytes_sent: 0,
            bytes_received: 0,
            start_time,
        }),
{
    RSocketPerformanceMetrics {
        request_count: 0,
        response_count: 0,
        error_count: 0,
        bytes_sent: 0,
        bytes_received: 0,
        start_time,
    }
}

/// Counts one request of `bytes_sent` bytes (a null record is the caller's
/// to skip). The counters must not overflow.
pub fn rsocket_performance_metrics_record_request(
    metrics: &mut RSocketPerformanceMetrics,
    bytes_sent: usize,
)
    requires
        old(metrics)@.request_count < u64::MAX,
        old(metrics)@.bytes_sent + bytes_sent <= u64::MAX,
    ensures
        final(metrics)@ == (CounterView {
            request_count: (old(metrics)@.request_count + 1) as u64,
            bytes_sent: (old(metrics)@.bytes_sent + bytes_sent) as u64,
            ..old(metrics)@
        }),
{
    metrics.request_count = metrics.request_count + 1;
    metrics.bytes_sent = metrics.bytes_sent + bytes_sent as u64;
}

/// Counts one response of `bytes_received` bytes. The counters must not overflow.
pub fn rsocket_performance_metrics_record_response(
    metrics: &mut RSocketPerformanceMetrics,
    bytes_received: usize,
)
    requires
        old(metrics)@.response_count < u64::MAX,
        old(metrics)@.bytes_received + bytes_received <= u64::MAX,
    ensures
        final(metrics)@ == (CounterView {
            response_count: (old(metrics)@.response_count + 1) as u64,
            bytes_received: (old(metrics)@.bytes_received + bytes_received) as u64,
            ..old(metrics)@
        }),
{
    metrics.response_count = metrics.response_count + 1;
    metrics.bytes_received = metrics.bytes_received + bytes_received as u64;
}

/// Counts one error. The counter must not overflow.
pub fn rsocket_performance_metrics_record_error(metrics: &mut RSocketPerformanceMetrics)
    requires
        old(metrics)@.error_count < u64::MAX,
    ensures
        final(metrics)@ == (CounterView {
            error_count: (old(metrics)@.error_count + 1) as u64,
            ..old(metrics)@
        }),
{
    metrics.error_count = metrics.error_count + 1;
}

/// Requests counted; zero for a null record.
pub fn rsocket_performance_metrics_get_request_count(metrics: Option<&RSocketPerformanceMetrics>) -> (n: u64)
    ensures
        n == match metrics {
            Some(m) => m@.request_count,
            None => 0,
        },
{
    match metrics {
        Some(m) => m.request_count,
        None => 0,
    }
}

/// Responses counted; zero for a null record.
pub fn rsocket_performance_metrics_get_response_count(metrics: Option<&RSocketPerformanceMetrics>) -> (n: u64)
    ensures
        n == match metrics {
            Some(m) => m@.response_count,
            None => 0,
        },
{
    match metrics {
        Some(m) => m.response_count,
        None => 0,
    }
}

/// Errors counted; zero for a null record.
pub fn rsocket_performance_metrics_get_error_count(metrics: Option<&RSocketPerformanceMetrics>) -> (n: u64)
    ensures
        n == match metrics {
            Some(m) => m@.error_count,
            None => 0,
        },
{
    match metrics {
        Some(m) => m.error_count,
        None => 0,
    }
}

/// Bytes sent; zero for a null record.
pub fn rsocket_performance_metrics_get_bytes_sent(metrics: Option<&RSocketPerformanceMetrics>) -> (n: u64)
    ensures
        n == match metrics {
            Some(m) => m@.bytes_sent,
            None => 0,
        },
{
    match metrics {
        Some(m) => m.bytes_sent,
        None => 0,
    }
}

/// Bytes received; zero for a null record.
pub fn rsocket_performance_metrics_get_bytes_received(metrics: Option<&RSocketPerformanceMetrics>) -> (n: u64)
    ensures
        n == match metrics {
            Some(m) => m@.bytes_received,
            None => 0,
        },
{
    match metrics {
        Some(m) => m.bytes_received,
        None => 0,
    }
}

/// Seconds from the start to `now` (seconds since the Unix epoch); zero
/// for a null record. The clock must not read earlier than the start.
pub fn rsocket_performance_metrics_get_uptime_seconds(
    metrics: Option<&RSocketPerformanceMetrics>,
    now: u64,
) -> (secs: u64)
    requires
        metrics matches Some(m) ==> m@.start_time <= now,
    ensures
        secs == match metrics {
            Some(m) => (now - m@.start_time) as u64,
            None => 0,
        },
{
    match metrics {
        Some(m) => now - m.start_time,
        None => 0,
    }
}

// --------------------------------------------------------------- Go ----

/// Counters of the Go binding; they wrap around on overflow, as atomic
/// additions do. The start time is in seconds since the Unix epoch.
pub struct GoRSocketPerformanceMetrics {
    request_count: u64,
    response_count: u64,
    error_count: u64,
    bytes_sent: u64,
    bytes_received: u64,
    start_time: u64,
}

impl View for GoRSocketPerformanceMetrics {
    type V = CounterView;

    closed spec fn view(&self) -> CounterView {
        CounterView {
            request_count: self.request_count,
            response_count: self.response_count,
            error_count: self.error_count,
            bytes_sent: self.bytes_sent,
            bytes_received: self.bytes_received,
            start_time: self.start_time,
        }
    }
}

/// `a + b` wrapped to 64 bits.
pub open spec fn wrap_add(a: u64, b: u64) -> u64 {
    if a + b <= u64::MAX {
        (a + b) as u64
    } else {
        (a + b - u64::MAX - 1) as u64
    }
}

/// Wrapping 64-bit addition.
fn add_wrapping(a: u64, b: u64) -> (r: u64)
    ensures
        r == wrap_add(a, b),
{
    if a <= u64::MAX - b {
        a + b
    } else {
        b - (u64::MAX - a) - 1
    }
}

impl GoRSocketPerformanceMetrics {
    /// The start, in seconds since the Unix epoch.
    pub fn start_time(&self) -> (t: u64)
        ensures
            t == self@.start_time,
    {
        self.start_time
    }
}

/// Fresh Go counters, started at `start_time` seconds since the Unix epoch.
pub fn rsocket_go_performance_metrics_create(start_time: u64) -> (m: GoRSocketPerformanceMetrics)
    ensures
        m@ == (CounterView {
            request_count: 0,
            response_count: 0,
            error_count: 0,
            bytes_sent: 0,
            bytes_received: 0,
            start_time,
        }),
{
    GoRSocketPerformanceMetrics {
        request_count: 0,
        response_count: 0,
        error_count: 0,
        bytes_sent: 0,
        bytes_received: 0,
        start_time,
    }
}

/// Counts one request of `bytes_sent` bytes, wrapping on overflow.
pub fn rsocket_go_performance_metrics_record_request(
    metrics: &mut GoRSocketPerformanceMetrics,
    bytes_sent: usize,
)
    ensures
        final(metrics)@ == (CounterView {
            request_count: wrap_add(old(metrics)@.request_count, 1),
            bytes_sent: wrap_add(old(metrics)@.bytes_sent, bytes_sent as u64),
            ..old(metrics)@
        }),
{
    metrics.request_count = add_wrapping(metrics.request_count, 1);
    metrics.bytes_sent = add_wrapping(metrics.bytes_sent, bytes_sent as u64);
}

/// Counts one response of `bytes_received` bytes, wrapping on overflow.
pub fn rsocket_go_performance_metrics_record_response(
    metrics: &mut GoRSocketPerformanceMetrics,
    bytes_received: usize,
)
    ensures
        final(metrics)@ == (CounterView {
            response_count: wrap_add(old(metrics)@.response_count, 1),
            bytes_received: wrap_add(old(metrics)@.bytes_received, bytes_received as u64),
            ..old(metrics)@
        }),
{
    metrics.response_count = add_wrapping(metrics.response_count, 1);
    metrics.bytes_received = add_wrapping(metrics.bytes_received, bytes_received as u64);
}

/// Counts one error, wrapping on overflow.
pub fn rsocket_go_performance_metrics_record_error(metrics: &mut GoRSocketPerformanceMetrics)
    ensures
        final(metrics)@ == (CounterView {
            error_count: wrap_add(old(metrics)@.error_count, 1),
            ..old(metrics)@
        }),
{
    metrics.error_count = add_wrapping(metrics.error_count, 1);
}

/// Requests counted; zero for a null record.
pub fn rsocket_go_performance_metrics_get_request_count(metrics: Option<&GoRSocketPerformanceMetrics>) -> (n: u64)
    ensures
        n == match metrics {
            Some(m) => m@.request_count,
            None => 0,
        },
{
    match metrics {
        Some(m) => m.request_count,
        None => 0,
    }
}

/// Responses counted; zero for a null record.
pub fn rsocket_go_performance_metrics_get_response_count(metrics: Option<&GoRSocketPerformanceMetrics>) -> (n: u64)
    ensures
        n == match metrics {
            Some(m) => m@.response_count,
            None => 0,
        },
{
    match metrics {
        Some(m) => m.response_count,
        None => 0,
    }
}

/// Errors counted; zero for a null record.
pub fn rsocket_go_performance_metrics_get_error_count(metrics: Option<&GoRSocketPerformanceMetrics>) -> (n: u64)
    ensures
        n == match metrics {
            Some(m) => m@.error_count,
            None => 0,
        },
{
    match metrics {
        Some(m) => m.error_count,
        None => 0,
    }
}

/// Bytes sent; zero for a null record.
pub fn rsocket_go_performance_metrics_get_bytes_sent(metrics: Option<&GoRSocketPerformanceMetrics>) -> (n: u64)
    ensures
        n == match metrics {
            Some(m) => m@.bytes_sent,
            None => 0,
        },
{
    match metrics {
        Some(m) => m.bytes_sent,
        None => 0,
    }
}

/// Bytes received; zero for a null record.
pub fn rsocket_go_performance_metrics_get_bytes_received(metrics: Option<&GoRSocketPerformanceMetrics>) -> (n: u64)
    ensures
        n == match metrics {
            Some(m) => m@.bytes_received,
            None => 0,
        },
{
    match metrics {
        Some(m) => m.bytes_received,
        None => 0,
    }
}

/// Seconds from the start to `now`; zero for a null record. The clock must
/// not read earlier than the start.
pub fn rsocket_go_performance_metrics_get_uptime_seconds(
    metrics: Option<&GoRSocketPerformanceMetrics>,
    now: u64,
) -> (secs: u64)
    requires
        metrics matches Some(m) ==> m@.start_time <= now,
    ensures
        secs == match metrics {
            Some(m) => (now - m@.start_time) as u64,
            None => 0,
        },
{
    match metrics {
        Some(m) => now - m.start_time,
        None => 0,
    }
}

// ------------------------------------------------------------- Java ----

/// Counters of the Java binding; they wrap around on overflow, as atomic
/// additions do, and remember the wall-clock time they were made.
pub struct JavaRSocketPerformanceMetrics {
    request_count: u64,
    response_count: u64,
    error_count: u64,
    bytes_sent: u64,
    bytes_received: u64,
    start_time: SystemTime,
}

/// The counters of the Java binding (its start time is a clock reading).
pub struct JavaCounterView {
    pub request_count: u64,
    pub response_count: u64,
    pub error_count: u64,
    pub bytes_sent: u64,
    pub bytes_received: u64,
}

impl View for JavaRSocketPerformanceMetrics {
    type V = JavaCounterView;

    closed spec fn view(&self) -> JavaCounterView {
        JavaCounterView {
            request_count: self.request_count,
            response_count: self.response_count,
            error_count: self.error_count,
            bytes_sent: self.bytes_sent,
            bytes_received: self.bytes_received,
        }
    }
}

/// The Java `long` that a 64-bit counter is handed over as.
pub open spec fn as_jlong(n: u64) -> i64 {
    n as i64
}

/// Uptime in seconds from the clock's answer: the seconds as a Java `long`,
/// or 0 when the clock reads earlier than the start (`None`).
pub fn uptime_from_elapsed(elapsed: Option<u64>) -> (secs: i64)
    ensures
        secs == match elapsed {
            Some(s) => as_jlong(s),
            None => 0,
        },
{
    match elapsed {
        Some(s) => s as i64,
        None => 0,
    }
}

impl JavaRSocketPerformanceMetrics {
    /// Fresh counters, started now.
    pub fn new() -> (m: JavaRSocketPerformanceMetrics)
        ensures
            m@ == (JavaCounterView {
                request_count: 0,
                response_count: 0,
                error_count: 0,
                bytes_sent: 0,
                bytes_received: 0,
            }),
    {
        JavaRSocketPerformanceMetrics {
            request_count: 0,
            response_count: 0,
            error_count: 0,
            bytes_sent: 0,
            bytes_received: 0,
            start_time: system_time_now(),
        }
    }

    /// Counts one request of `bytes` bytes (a Java `long`, taken as 64
    /// unsigned bits), wrapping on overflow.
    pub fn record_request(&mut self, bytes: i64)
        ensures
            final(self)@ == (JavaCounterView {
                request_count: wrap_add(old(self)@.request_count, 1),
                bytes_sent: wrap_add(old(self)@.bytes_sent, bytes as u64),
                ..old(self)@
            }),
    {
        self.request_count = add_wrapping(self.request_count, 1);
        self.bytes_sent = add_wrapping(self.bytes_sent, bytes as u64);
    }

    /// Counts one response of `bytes` bytes, wrapping on overflow.
    pub fn record_response(&mut self, bytes: i64)
        ensures
            final(self)@ == (JavaCounterView {
                response_count: wrap_add(old(self)@.response_count, 1),
                bytes_received: wrap_add(old(self)@.bytes_received, bytes as u64),
                ..old(self)@
            }),
    {
        self.response_count = add_wrapping(self.response_count, 1);
        self.bytes_received = add_wrapping(self.bytes_received, bytes as u64);
    }

    /// Counts one error, wrapping on overflow.
    pub fn record_error(&mut self)
        ensures
            final(self)@ == (JavaCounterView {
                error_count: wrap_add(old(self)@.error_count, 1),
                ..old(self)@
            }),
    {
        self.error_count = add_wrapping(self.error_count, 1);
    }

    /// Requests counted, as a Java `long`.
    pub fn request_count(&self) -> (n: i64)
        ensures
            n == as_jlong(self@.request_count),
    {
        self.request_count as i64
    }

    /// Responses counted, as a Java `long`.
    pub fn response_count(&self) -> (n: i64)
        ensures
            n == as_jlong(self@.response_count),
    {
        self.response_count as i64
    }

    /// Errors counted, as a Java `long`.
    pub fn error_count(&self) -> (n: i64)
        ensures
            n == as_jlong(self@.error_count),
    {
        self.error_count as i64
    }

    /// Bytes sent, as a Java `long`.
    pub fn bytes_sent(&self) -> (n: i64)
        ensures
            n == as_jlong(self@.bytes_sent),
    {
        self.bytes_sent as i64
    }

    /// Bytes received, as a Java `long`.
    pub fn bytes_received(&self) -> (n: i64)
        ensures
            n == as_jlong(self@.bytes_received),
    {
        self.bytes_received as i64
    }

    /// Whole seconds since the counters were made, as a Java `long`; 0 when
    /// the clock now reads earlier than the start (see `uptime_from_elapsed`).
    /// The reading comes from the clock, so nothing is stated of the value.
    pub fn uptime_seconds(&self) -> (secs: i64) {
        uptime_from_elapsed(system_time_elapsed_secs(&self.start_time))
    }
}

// ------------------------------------------------------- JavaScript ----

/// Counters of the JavaScript binding; they wrap around on overflow, as
/// atomic additions do.
pub struct JsPerformanceMetrics {
    start_time: Instant,
    request_count: u64,
    response_count: u64,
    error_count: u64,
    total_latency_ms: u64,
    bytes_sent: u64,
    bytes_received: u64,
}

/// The counters of the JavaScript binding.
pub struct JsCounterView {
    pub request_count: u64,
    pub response_count: u64,
    pub error_count: u64,
    pub total_latency_ms: u64,
    pub bytes_sent: u64,
    pub bytes_received: u64,
}

/// All counters at zero.
pub open spec fn js_zero_counters() -> JsCounterView {
    JsCounterView {
        request_count: 0,
        response_count: 0,
        error_count: 0,
        total_latency_ms: 0,
        bytes_sent: 0,
        bytes_received: 0,
    }
}

impl View for JsPerformanceMetrics {
    type V = JsCounterView;

    closed spec fn view(&self) -> JsCounterView {
        JsCounterView {
            request_count: self.request_count,
            response_count: self.response_count,
            error_count: self.error_count,
            total_latency_ms: self.total_latency_ms,
            bytes_sent: self.bytes_sent,
            bytes_received: self.bytes_received,
        }
    }
}

impl JsPerformanceMetrics {
    /// Fresh counters, started now.
    pub fn new() -> (m: JsPerformanceMetrics)
        ensures
            m@ == js_zero_counters(),
    {
        JsPerformanceMetrics {
            start_time: instant_now(),
            request_count: 0,
            response_count: 0,
            error_count: 0,
            total_latency_ms: 0,
            bytes_sent: 0,
            bytes_received: 0,
        }
    }

    /// The clock reading taken when the counters were made or last reset.
    pub closed spec fn started_at(&self) -> Instant {
        self.start_time
    }

    /// When the counters were made or last reset.
    pub fn start_time(&self) -> (t: &Instant)
        ensures
            *t == self.started_at(),
    {
        &self.start_time
    }

    /// Counts one request.
    pub fn record_request(&mut self)
        ensures
            final(self)@ == (JsCounterView {
                request_count: wrap_add(old(self)@.request_count, 1),
                ..old(self)@
            }),
    {
        self.request_count = add_wrapping(self.request_count, 1);
    }

    /// Counts one response that took `latency_ms` whole milliseconds.
    pub fn record_response(&mut self, latency_ms: u64)
        ensures
            final(self)@ == (JsCounterView {
                response_count: wrap_add(old(self)@.response_count, 1),
                total_latency_ms: wrap_add(old(self)@.total_latency_ms, latency_ms),
                ..old(self)@
            }),
    {
        self.response_count = add_wrapping(self.response_count, 1);
        self.total_latency_ms = add_wrapping(self.total_latency_ms, latency_ms);
    }

    /// Counts one error.
    pub fn record_error(&mut self)
        ensures
            final(self)@ == (JsCounterView {
                error_count: wrap_add(old(self)@.error_count, 1),
                ..old(self)@
            }),
    {
        self.error_count = add_wrapping(self.error_count, 1);
    }

    /// Adds `bytes` to the bytes sent.
    pub fn record_bytes_sent(&mut self, bytes: u64)
        ensures
            final(self)@ == (JsCounterView {
                bytes_sent: wrap_add(old(self)@.bytes_sent, bytes),
                ..old(self)@
            }),
    {
        self.bytes_sent = add_wrapping(self.bytes_sent, bytes);
    }

    /// Adds `bytes` to the bytes received.
    pub fn record_bytes_received(&mut self, bytes: u64)
        ensures
            final(self)@ == (JsCounterView {
                bytes_received: wrap_add(old(self)@.bytes_received, bytes),
                ..old(self)@
            }),
    {
        self.bytes_received = add_wrapping(self.bytes_received, bytes);
    }

    /// Requests counted.
    pub fn get_request_count(&self) -> (n: u64)
        ensures
            n == self@.request_count,
    {
        self.request_count
    }

    /// Responses counted.
    pub fn get_response_count(&self) -> (n: u64)
        ensures
            n == self@.response_count,
    {
        self.response_count
    }

    /// Errors counted.
    pub fn get_error_count(&self) -> (n: u64)
        ensures
            n == self@.error_count,
    {
        self.error_count
    }

    /// Bytes sent.
    pub fn get_bytes_sent(&self) -> (n: u64)
        ensures
            n == self@.bytes_sent,
    {
        self.bytes_sent
    }

    /// Bytes received.
    pub fn get_bytes_received(&self) -> (n: u64)
        ensures
            n == self@.bytes_received,
    {
        self.bytes_received
    }

    /// The quotient whose value is the average latency: total milliseconds
    /// over responses, or `None` (an average of 0) before any response.
    pub fn average_latency_ratio(&self) -> (r: Option<(u64, u64)>)
        ensures
            r == (if self@.response_count == 0 {
                None
            } else {
                Some((self@.total_latency_ms, self@.response_count))
            }),
    {
        if self.response_count == 0 {
            None
        } else {
            Some((self.total_latency_ms, self.response_count))
        }
    }

    /// The quotient whose value is the error rate: errors over requests, or
    /// `None` (a rate of 0) before any request.
    pub fn error_rate_ratio(&self) -> (r: Option<(u64, u64)>)
        ensures
            r == (if self@.request_count == 0 {
                None
            } else {
                Some((self@.error_count, self@.request_count))
            }),
    {
        if self.request_count == 0 {
            None
        } else {
            Some((self.error_count, self.request_count))
        }
    }

    /// Sets every counter to zero and restarts the clock.
    pub fn reset(&mut self)
        ensures
            final(self)@ == js_zero_counters(),
    {
        self.start_time = instant_now();
        self.request_count = 0;
        self.response_count = 0;
        self.error_count = 0;
        self.total_latency_ms = 0;
        self.bytes_sent = 0;
        self.bytes_received = 0;
    }
}

/// Fresh JavaScript counters.
pub fn create_performance_metrics() -> (m: JsPerformanceMetrics)
    ensures
        m@ == js_zero_counters(),
{
    JsPerformanceMetrics::new()
}

} // verus!
