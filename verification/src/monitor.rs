//! Traffic, latency and connection statistics of the browser peer-to-peer
//! transport. Latencies and clock readings are floating-point values; the
//! monitor stores their 64-bit patterns (`f64::to_bits`) and the caller
//! does the floating-point arithmetic.

use vstd::prelude::*;
use std::collections::VecDeque;

verus! {

/// How many latency samples the monitor keeps.
pub const MAX_LATENCY_SAMPLES: usize = 1000;

/// The samples kept after recording `x`: the newest at the end, the oldest
/// dropped once more than `max` would be kept.
pub open spec fn keep_latest(samples: Seq<u64>, x: u64, max: nat) -> Seq<u64> {
    if samples.len() + 1 > max {
        samples.push(x).drop_first()
    } else {
        samples.push(x)
    }
}

/// The statistics of a monitor.
pub struct MonitorView {
    pub p2p_messages_sent: u64,
    pub p2p_messages_received: u64,
    pub total_bytes_sent: u64,
    pub total_bytes_received: u64,
    pub latency_samples: Seq<u64>,
    pub start_time: u64,
    pub last_measurement_time: u64,
    pub connection_attempts: u64,
    pub successful_connections: u64,
    pub max_latency_samples: nat,
}

/// A monitor that has seen nothing since the clock read `now`.
pub open spec fn fresh_monitor(now: u64) -> MonitorView {
    MonitorView {
        p2p_messages_sent: 0,
        p2p_messages_received: 0,
        total_bytes_sent: 0,
        total_bytes_received: 0,
        latency_samples: Seq::empty(),
        start_time: now,
        last_measurement_time: now,
        connection_attempts: 0,
        successful_connections: 0,
        max_latency_samples: MAX_LATENCY_SAMPLES as nat,
    }
}

/// The statistics after `count` messages of `bytes` bytes in all were sent,
/// the last at clock reading `now`.
pub open spec fn messages_recorded(v: MonitorView, count: nat, bytes: nat, now: u64) -> MonitorView {
    MonitorView {
        p2p_messages_sent: (v.p2p_messages_sent + count) as u64,
        total_bytes_sent: (v.total_bytes_sent + bytes) as u64,
        last_measurement_time: now,
        ..v
    }
}

/// Statistics of the peer-to-peer transport.
pub struct IrohWasmPerformanceMonitor {
    p2p_messages_sent: u64,
    p2p_messages_received: u64,
    total_bytes_sent: u64,
    total_bytes_received: u64,
    latency_samples: VecDeque<u64>,
    start_time: u64,
    last_measurement_time: u64,
    connection_attempts: u64,
    successful_connections: u64,
    max_latency_samples: usize,
}

impl View for IrohWasmPerformanceMonitor {
    type V = MonitorView;

    closed spec fn view(&self) -> MonitorView {
        MonitorView {
            p2p_messages_sent: self.p2p_messages_sent,
            p2p_messages_received: self.p2p_messages_received,
            total_bytes_sent: self.total_bytes_sent,
            total_bytes_received: self.total_bytes_received,
            latency_samples: self.latency_samples@,
            start_time: self.start_time,
            last_measurement_time: self.last_measurement_time,
            connection_attempts: self.connection_attempts,
            successful_connections: self.successful_connections,
            max_latency_samples: self.max_latency_samples as nat,
        }
    }
}

/// Consistency of the statistics: the sample limit is `MAX_LATENCY_SAMPLES`,
/// no more samples than that are kept, and there are no more successful
/// connections than attempts.
pub open spec fn monitor_consistent(v: MonitorView) -> bool {
    &&& v.max_latency_samples == MAX_LATENCY_SAMPLES
    &&& v.latency_samples.len() <= v.max_latency_samples
    &&& v.successful_connections <= v.connection_attempts
}

impl IrohWasmPerformanceMonitor {
    /// Whether the statistics are consistent (see `monitor_consistent`).
    pub open spec fn wf(&self) -> bool {
        monitor_consistent(self@)
    }

    /// A monitor that has seen nothing, started at clock reading `now`.
    pub fn new(now: u64) -> (m: IrohWasmPerformanceMonitor)
        ensures
            m.wf(),
            m@ == fresh_monitor(now),
    {
        IrohWasmPerformanceMonitor {
            p2p_messages_sent: 0,
            p2p_messages_received: 0,
            total_bytes_sent: 0,
            total_bytes_received: 0,
            latency_samples: VecDeque::new(),
            start_time: now,
            last_measurement_time: now,
            connection_attempts: 0,
            successful_connections: 0,
            max_latency_samples: MAX_LATENCY_SAMPLES,
        }
    }

    /// Counts one message of `bytes` bytes sent at clock reading `now`.
    /// The counters must not overflow.
    pub fn record_p2p_message(&mut self, bytes: usize, now: u64)
        requires
            old(self)@.p2p_messages_sent < u64::MAX,
            old(self)@.total_bytes_sent + bytes <= u64::MAX,
        ensures
            final(self)@ == messages_recorded(old(self)@, 1, bytes as nat, now),
    {
        self.p2p_messages_sent = self.p2p_messages_sent + 1;
        self.total_bytes_sent = self.total_bytes_sent + bytes as u64;
        self.last_measurement_time = now;
    }

    /// Counts one message of `bytes` bytes received. The counters must not overflow.
    pub fn record_p2p_received(&mut self, bytes: usize)
        requires
            old(self)@.p2p_messages_received < u64::MAX,
            old(self)@.total_bytes_received + bytes <= u64::MAX,
        ensures
            final(self)@ == (MonitorView {
                p2p_messages_received: (old(self)@.p2p_messages_received + 1) as u64,
                total_bytes_received: (old(self)@.total_bytes_received + bytes) as u64,
                ..old(self)@
            }),
    {
        self.p2p_messages_received = self.p2p_messages_received + 1;
        self.total_bytes_received = self.total_bytes_received + bytes as u64;
    }

    /// Keeps a latency sample, dropping the oldest beyond the limit.
    pub fn record_p2p_latency(&mut self, latency_ms: u64)
        requires
            old(self).wf(),
        ensures
            final(self).wf(),
            final(self)@ == (MonitorView {
                latency_samples: keep_latest(
                    old(self)@.latency_samples,
                    latency_ms,
                    old(self)@.max_latency_samples,
                ),
                ..old(self)@
            }),
    {
        self.latency_samples.push_back(latency_ms);
        if self.latency_samples.len() > self.max_latency_samples {
            let _ = self.latency_samples.pop_front();
        }
    }

    /// Counts one connection attempt, and one success when it succeeded.
    /// The attempt counter must not overflow.
    pub fn record_connection_attempt(&mut self, successful: bool)
        requires
            old(self).wf(),
            old(self)@.connection_attempts < u64::MAX,
        ensures
            final(self).wf(),
            final(self)@ == (MonitorView {
                connection_attempts: (old(self)@.connection_attempts + 1) as u64,
                successful_connections: if successful {
                    (old(self)@.successful_connections + 1) as u64
                } else {
                    old(self)@.successful_connections
                },
                ..old(self)@
            }),
    {
        self.connection_attempts = self.connection_attempts + 1;
        if successful {
            self.successful_connections = self.successful_connections + 1;
        }
    }

    /// Messages sent.
    pub fn p2p_messages_sent(&self) -> (n: u64)
        ensures
            n == self@.p2p_messages_sent,
    {
        self.p2p_messages_sent
    }

    /// Messages received.
    pub fn p2p_messages_received(&self) -> (n: u64)
        ensures
            n == self@.p2p_messages_received,
    {
        self.p2p_messages_received
    }

    /// Bytes sent.
    pub fn total_bytes_sent(&self) -> (n: u64)
        ensures
            n == self@.total_bytes_sent,
    {
        self.total_bytes_sent
    }

    /// Bytes received.
    pub fn total_bytes_received(&self) -> (n: u64)
        ensures
            n == self@.total_bytes_received,
    {
        self.total_bytes_received
    }

    /// Clock reading at the start.
    pub fn start_time(&self) -> (t: u64)
        ensures
            t == self@.start_time,
    {
        self.start_time
    }

    /// Clock reading of the last message sent.
    pub fn last_measurement_time(&self) -> (t: u64)
        ensures
            t == self@.last_measurement_time,
    {
        self.last_measurement_time
    }

    /// Connection attempts and, of them, successes.
    pub fn connection_counts(&self) -> (r: (u64, u64))
        ensures
            r == (self@.connection_attempts, self@.successful_connections),
    {
        (self.connection_attempts, self.successful_connections)
    }

    /// The latency samples kept, oldest first.
    pub fn latency_samples(&self) -> (res: Vec<u64>)
        ensures
            res@ == self@.latency_samples,
    {
        let mut res: Vec<u64> = Vec::new();
        let mut i: usize = 0;
        while i < self.latency_samples.len()
            invariant
                0 <= i <= self.latency_samples@.len(),
                res@ == self.latency_samples@.subrange(0, i as int),
            decreases self.latency_samples@.len() - i,
        {
            res.push(self.latency_samples[i]);
            i = i + 1;
            assert(res@ =~= self.latency_samples@.subrange(0, i as int));
        }
        assert(res@ =~= self.latency_samples@);
        res
    }

    /// Forgets everything and restarts at clock reading `now`.
    pub fn reset(&mut self, now: u64)
        requires
            old(self).wf(),
        ensures
            final(self).wf(),
            final(self)@ == fresh_monitor(now),
    {
        self.p2p_messages_sent = 0;
        self.p2p_messages_received = 0;
        self.total_bytes_sent = 0;
        self.total_bytes_received = 0;
        self.latency_samples.clear();
        self.connection_attempts = 0;
        self.successful_connections = 0;
        self.start_time = now;
        self.last_measurement_time = now;
    }
}

/// The sample window never exceeds its limit and always ends with the
/// newest sample; below the limit nothing is dropped.
pub proof fn law_latency_window(samples: Seq<u64>, x: u64, max: nat)
    requires
        0 < max,
        samples.len() <= max,
    ensures
        keep_latest(samples, x, max).len() <= max,
        keep_latest(samples, x, max).last() == x,
        samples.len() < max ==> keep_latest(samples, x, max) == samples.push(x),
        samples.len() == max ==> keep_latest(samples, x, max) == samples.drop_first().push(x),
{
    if samples.len() == max {
        assert(samples.push(x).drop_first() =~= samples.drop_first().push(x));
    }
}

} // verus!
