//! The worker-backed peer-to-peer transport: the transport before it
//! connects, the connection that feeds arriving frames to the worker pool,
//! and the sink and stream it splits into. Opening the peer link, posting
//! frames to the browser workers and reading the clock are left to the
//! caller, who hands the results in.

use vstd::prelude::*;
use crate::frame::IrohWasmWebWorkersFrameStream;
use crate::monitor::{IrohWasmPerformanceMonitor, MonitorView, fresh_monitor, keep_latest, messages_recorded};
use crate::webworkers::{IrohWasmCapabilities, IrohWasmWebWorkersConfig};
use crate::worker_pool::{
    FrameDispatch,
    IrohWasmWorkerPool,
    PoolView,
    batches_of,
    dispatched,
    dispatched_all,
    first_idle,
    frame_views,
    fresh_pool,
};

verus! {

/// The statistics held in an optional monitor.
pub open spec fn monitor_view(m: Option<IrohWasmPerformanceMonitor>) -> Option<MonitorView> {
    match m {
        Some(m) => Some(m@),
        None => None,
    }
}

/// Whether an optional monitor, if there is one, is consistent.
pub open spec fn monitor_wf(m: Option<IrohWasmPerformanceMonitor>) -> bool {
    m matches Some(m) ==> m.wf()
}

/// The sum of the lengths of `frames`.
pub open spec fn total_len(frames: Seq<Seq<u8>>) -> nat
    decreases frames.len(),
{
    if frames.len() == 0 {
        0
    } else {
        total_len(frames.drop_last()) + frames.last().len()
    }
}

/// Abstract state of a transport that has not connected yet.
pub struct TransportView {
    pub signaling_server: Seq<char>,
    pub worker_count: usize,
    pub batch_size: usize,
    pub pool: Option<PoolView>,
    pub monitor: Option<MonitorView>,
}

/// The state after the workers are started: a fresh pool sized by the
/// configuration, unless a pool is already there.
pub open spec fn workers_initialized(v: TransportView) -> TransportView {
    match v.pool {
        Some(_) => v,
        None => TransportView {
            pool: Some(fresh_pool(v.worker_count as nat, v.batch_size)),
            ..v
        },
    }
}

/// Starting the workers a second time changes nothing.
pub proof fn law_initialize_workers_idempotent(v: TransportView)
    ensures
        workers_initialized(workers_initialized(v)) == workers_initialized(v),
        workers_initialized(v).pool is Some,
{
}

/// A peer-to-peer transport whose frames are processed by browser workers.
pub struct IrohWasmWebWorkersTransport {
    signaling_server: String,
    config: IrohWasmWebWorkersConfig,
    worker_pool: Option<IrohWasmWorkerPool>,
    performance_monitor: Option<IrohWasmPerformanceMonitor>,
}

impl View for IrohWasmWebWorkersTransport {
    type V = TransportView;

    closed spec fn view(&self) -> TransportView {
        TransportView {
            signaling_server: self.signaling_server@,
            worker_count: self.config.webworkers_config.worker_count,
            batch_size: self.config.webworkers_config.batch_size,
            pool: match self.worker_pool {
                Some(p) => Some(p@),
                None => None,
            },
            monitor: monitor_view(self.performance_monitor),
        }
    }
}

impl IrohWasmWebWorkersTransport {
    /// The configuration the transport was made with.
    pub closed spec fn config(&self) -> IrohWasmWebWorkersConfig {
        self.config
    }

    /// Whether the pool and the monitor, where present, are consistent.
    pub closed spec fn wf(&self) -> bool {
        &&& (self.worker_pool matches Some(p) ==> p.wf() && p@.batch_size
            == self.config.webworkers_config.batch_size)
        &&& monitor_wf(self.performance_monitor)
    }

    /// A transport for `signaling_server` that has started no workers; it
    /// keeps statistics, started at clock reading `now`, when the
    /// configuration asks for performance monitoring.
    pub fn new(signaling_server: String, config: IrohWasmWebWorkersConfig, now: u64) -> (t:
        IrohWasmWebWorkersTransport)
        ensures
            t.wf(),
            t.config() == config,
            t@ == (TransportView {
                signaling_server: signaling_server@,
                worker_count: config.webworkers_config.worker_count,
                batch_size: config.webworkers_config.batch_size,
                pool: None,
                monitor: if config.iroh_config.enable_performance_monitoring {
                    Some(fresh_monitor(now))
                } else {
                    None
                },
            }),
    {
        let performance_monitor = if config.iroh_config.enable_performance_monitoring {
            Some(IrohWasmPerformanceMonitor::new(now))
        } else {
            None
        };
        IrohWasmWebWorkersTransport {
            signaling_server,
            config,
            worker_pool: None,
            performance_monitor,
        }
    }

    /// The signalling server the transport connects through.
    pub fn signaling_server(&self) -> (s: &String)
        ensures
            s@ == self@.signaling_server,
    {
        &self.signaling_server
    }

    /// Starts the worker pool unless it is already running. The worker count
    /// must fit the pool's 32-bit task counter.
    pub fn initialize_workers(&mut self)
        requires
            old(self).wf(),
            old(self)@.worker_count <= u32::MAX,
        ensures
            final(self).wf(),
            final(self).config() == old(self).config(),
            final(self)@ == workers_initialized(old(self)@),
    {
        if self.worker_pool.is_none() {
            let pool = IrohWasmWorkerPool::new(self.config.duplicate());
            self.worker_pool = Some(pool);
        }
    }

    /// The statistics, when the transport keeps them; the caller derives
    /// the floating-point rates from them.
    pub fn get_performance_metrics(&self) -> (res: Option<&IrohWasmPerformanceMonitor>)
        ensures
            res is Some <==> self@.monitor is Some,
            res matches Some(m) ==> self@.monitor == Some(m@),
    {
        self.performance_monitor.as_ref()
    }

    /// Whether this transport can run: the browser must offer WebRTC and
    /// WebWorkers.
    pub fn is_supported(webrtc_supported: bool, capabilities: &IrohWasmCapabilities) -> (r: bool)
        ensures
            r == (webrtc_supported && capabilities.webworkers_supported),
    {
        webrtc_supported && capabilities.webworkers_supported
    }

    /// Starts the workers, if they are not running, and turns the transport
    /// into a connection that owns the pool and the statistics and whose
    /// stream has yielded nothing. The peer link is opened by the caller.
    pub fn connect(self) -> (conn: IrohWasmWebWorkersConnection)
        requires
            self.wf(),
            self@.worker_count <= u32::MAX,
        ensures
            conn.wf(),
            Some(conn.pool()) == workers_initialized(self@).pool,
            conn.monitor() == self@.monitor,
            conn.config() == self.config(),
            conn.stream_last_id() == 1,
    {
        let mut t = self;
        t.initialize_workers();
        let IrohWasmWebWorkersTransport { signaling_server: _, config, worker_pool, performance_monitor } = t;
        IrohWasmWebWorkersConnection {
            worker_pool: worker_pool.unwrap(),
            config,
            performance_monitor,
            frame_stream: IrohWasmWebWorkersFrameStream::new(),
        }
    }
}

/// An established worker-backed connection.
pub struct IrohWasmWebWorkersConnection {
    worker_pool: IrohWasmWorkerPool,
    config: IrohWasmWebWorkersConfig,
    performance_monitor: Option<IrohWasmPerformanceMonitor>,
    frame_stream: IrohWasmWebWorkersFrameStream,
}

impl IrohWasmWebWorkersConnection {
    /// The state of the worker pool.
    pub closed spec fn pool(&self) -> PoolView {
        self.worker_pool@
    }

    /// The statistics, when the connection keeps them.
    pub closed spec fn monitor(&self) -> Option<MonitorView> {
        monitor_view(self.performance_monitor)
    }

    /// The configuration of the connection.
    pub closed spec fn config(&self) -> IrohWasmWebWorkersConfig {
        self.config
    }

    /// The number of the last frame the receiving side yielded.
    pub closed spec fn stream_last_id(&self) -> u32 {
        self.frame_stream.last_id()
    }

    /// Whether the pool and the monitor are consistent and the pool batches
    /// as configured.
    pub closed spec fn wf(&self) -> bool {
        &&& self.worker_pool.wf()
        &&& self.worker_pool@.batch_size == self.config.webworkers_config.batch_size
        &&& monitor_wf(self.performance_monitor)
    }

    /// Handles one arriving frame: counts it as sent at clock reading `now`
    /// when statistics are kept, then hands it to the first idle worker or
    /// queues it. The counters must not overflow.
    pub fn process_p2p_frame_with_workers(&mut self, frame: Vec<u8>, now: u64) -> (res:
        FrameDispatch)
        requires
            old(self).wf(),
            old(self).monitor() matches Some(m) ==> m.p2p_messages_sent < u64::MAX
                && m.total_bytes_sent + frame@.len() <= u64::MAX,
        ensures
            final(self).wf(),
            final(self).config() == old(self).config(),
            final(self).stream_last_id() == old(self).stream_last_id(),
            final(self).pool() == dispatched(old(self).pool(), frame@),
            final(self).monitor() == match old(self).monitor() {
                Some(m) => Some(messages_recorded(m, 1, frame@.len(), now)),
                None => None,
            },
            match res {
                FrameDispatch::Assigned { worker_id, frame: f } => first_idle(old(self).pool().busy)
                    == Some(worker_id as int) && f@ == frame@,
                FrameDispatch::Queued => first_idle(old(self).pool().busy) is None,
            },
    {
        let len = frame.len();
        match self.performance_monitor.as_mut() {
            Some(m) => m.record_p2p_message(len, now),
            None => {},
        }
        self.worker_pool.process_p2p_frame(frame)
    }

    /// Keeps the latency of a processed frame (as the bit pattern of its
    /// milliseconds) when statistics are kept.
    pub fn record_frame_latency(&mut self, latency_ms: u64)
        requires
            old(self).wf(),
        ensures
            final(self).wf(),
            final(self).config() == old(self).config(),
            final(self).stream_last_id() == old(self).stream_last_id(),
            final(self).pool() == old(self).pool(),
            final(self).monitor() == match old(self).monitor() {
                Some(m) => Some(
                    MonitorView {
                        latency_samples: keep_latest(
                            m.latency_samples,
                            latency_ms,
                            m.max_latency_samples,
                        ),
                        ..m
                    },
                ),
                None => None,
            },
    {
        match self.performance_monitor.as_mut() {
            Some(m) => m.record_p2p_latency(latency_ms),
            None => {},
        }
    }

    /// Starts a batch of frames: when there are any, counts them all as sent
    /// at clock reading `now` (when statistics are kept) and returns the
    /// index ranges in which the caller hands them to `dispatch_frames`,
    /// yielding to the event loop between two ranges. An empty batch
    /// changes nothing. The counters must not overflow.
    pub fn process_p2p_frame_batch(&mut self, frames: &Vec<Vec<u8>>, now: u64) -> (res: Vec<
        (usize, usize),
    >)
        requires
            old(self).wf(),
            frames@.len() > 0 ==> old(self).pool().batch_size > 0,
            old(self).monitor() matches Some(m) ==> m.p2p_messages_sent + frames@.len()
                <= u64::MAX && m.total_bytes_sent + total_len(frame_views(frames@)) <= u64::MAX,
        ensures
            final(self).wf(),
            final(self).config() == old(self).config(),
            final(self).stream_last_id() == old(self).stream_last_id(),
            final(self).pool() == old(self).pool(),
            frames@.len() == 0 ==> res@.len() == 0 && final(self).monitor() == old(self).monitor(),
            frames@.len() > 0 ==> batches_of(
                res@,
                frames@.len(),
                old(self).pool().batch_size as nat,
            ),
            frames@.len() > 0 ==> final(self).monitor() == match old(self).monitor() {
                Some(m) => Some(
                    messages_recorded(m, frames@.len(), total_len(frame_views(frames@)), now),
                ),
                None => None,
            },
    {
        if frames.len() == 0 {
            return Vec::new();
        }
        let ghost views = frame_views(frames@);
        match self.performance_monitor.as_mut() {
            Some(m) => {
                let ghost m0 = m@;
                let mut i: usize = 0;
                while i < frames.len()
                    invariant
                        0 < frames@.len(),
                        0 <= i <= frames@.len(),
                        views == frame_views(frames@),
                        m0.p2p_messages_sent + frames@.len() <= u64::MAX,
                        m0.total_bytes_sent + total_len(views) <= u64::MAX,
                        m.wf(),
                        i == 0 ==> m@ == m0,
                        i > 0 ==> m@ == messages_recorded(
                            m0,
                            i as nat,
                            total_len(views.take(i as int)),
                            now,
                        ),
                    decreases frames@.len() - i,
                {
                    proof {
                        assert(views.take(i as int + 1).drop_last() =~= views.take(i as int));
                        assert(views.take(i as int + 1).last() == frames@[i as int]@);
                        lemma_total_len_prefix(views, i as int + 1);
                        if i == 0 {
                            assert(views.take(0) =~= Seq::<Seq<u8>>::empty());
                        }
                    }
                    m.record_p2p_message(frames[i].len(), now);
                    i = i + 1;
                }
                proof {
                    assert(views.take(i as int) =~= views);
                }
            },
            None => {},
        }
        self.worker_pool.batch_ranges(frames.len())
    }

    /// Hands frames that arrive together to the pool, in order; see
    /// `IrohWasmWorkerPool::process_p2p_frames`.
    pub fn dispatch_frames(&mut self, frames: Vec<Vec<u8>>) -> (res: Vec<FrameDispatch>)
        requires
            old(self).wf(),
        ensures
            final(self).wf(),
            final(self).config() == old(self).config(),
            final(self).stream_last_id() == old(self).stream_last_id(),
            final(self).monitor() == old(self).monitor(),
            final(self).pool() == dispatched_all(old(self).pool(), frame_views(frames@)),
            res@.len() == frames@.len(),
    {
        proof {
            crate::worker_pool::law_dispatch_keeps_every_frame(
                self.worker_pool@,
                frame_views(frames@),
            );
        }
        self.worker_pool.process_p2p_frames(frames)
    }

    /// Records that busy worker `worker_id` finished its frame.
    pub fn complete_task(&mut self, worker_id: usize)
        requires
            old(self).wf(),
            worker_id < old(self).pool().busy.len(),
            old(self).pool().busy[worker_id as int],
            old(self).pool().total_tasks_processed < u64::MAX,
        ensures
            final(self).wf(),
            final(self).config() == old(self).config(),
            final(self).stream_last_id() == old(self).stream_last_id(),
            final(self).monitor() == old(self).monitor(),
            final(self).pool() == crate::worker_pool::completed(old(self).pool(), worker_id as int),
    {
        self.worker_pool.complete_task(worker_id);
    }

    /// How many workers are busy and how many there are; their quotient is
    /// the pool's utilisation.
    pub fn get_worker_utilization(&self) -> (r: (usize, usize))
        requires
            self.wf(),
        ensures
            r.0 == crate::worker_pool::busy_count(self.pool().busy),
            r.1 == self.pool().busy.len(),
            r.0 <= r.1,
    {
        (self.worker_pool.busy_worker_count(), self.worker_pool.get_worker_count())
    }

    /// The statistics, when the connection keeps them.
    pub fn get_performance_metrics(&self) -> (res: Option<&IrohWasmPerformanceMonitor>)
        ensures
            res is Some <==> self.monitor() is Some,
            res matches Some(m) ==> self.monitor() == Some(m@),
    {
        self.performance_monitor.as_ref()
    }

    /// Splits the connection into its sending side, which owns the pool,
    /// the configuration and the statistics, and its receiving side.
    pub fn split(self) -> (parts: (IrohWasmWebWorkersFrameSink, IrohWasmWebWorkersFrameStream))
        requires
            self.wf(),
        ensures
            parts.0.wf(),
            parts.0.pool() == self.pool(),
            parts.0.monitor() == self.monitor(),
            parts.0.config() == self.config(),
            parts.1.last_id() == self.stream_last_id(),
    {
        let IrohWasmWebWorkersConnection { worker_pool, config, performance_monitor, frame_stream } =
            self;
        (IrohWasmWebWorkersFrameSink { worker_pool, config, performance_monitor }, frame_stream)
    }
}

/// The total length of a prefix grows by the length of the next frame.
proof fn lemma_total_len_prefix(frames: Seq<Seq<u8>>, i: int)
    requires
        0 < i <= frames.len(),
    ensures
        total_len(frames.take(i)) == total_len(frames.take(i - 1)) + frames[i - 1].len(),
        total_len(frames.take(i)) <= total_len(frames),
    decreases frames.len() - i,
{
    assert(frames.take(i).drop_last() =~= frames.take(i - 1));
    if i < frames.len() {
        lemma_total_len_prefix(frames, i + 1);
    } else {
        assert(frames.take(i) =~= frames);
    }
}

/// The sending side of a worker-backed connection.
pub struct IrohWasmWebWorkersFrameSink {
    worker_pool: IrohWasmWorkerPool,
    config: IrohWasmWebWorkersConfig,
    performance_monitor: Option<IrohWasmPerformanceMonitor>,
}

impl IrohWasmWebWorkersFrameSink {
    /// The state of the worker pool.
    pub closed spec fn pool(&self) -> PoolView {
        self.worker_pool@
    }

    /// The statistics, when the sink keeps them.
    pub closed spec fn monitor(&self) -> Option<MonitorView> {
        monitor_view(self.performance_monitor)
    }

    /// The configuration of the sink.
    pub closed spec fn config(&self) -> IrohWasmWebWorkersConfig {
        self.config
    }

    /// Whether the pool and the monitor are consistent.
    pub closed spec fn wf(&self) -> bool {
        &&& self.worker_pool.wf()
        &&& monitor_wf(self.performance_monitor)
    }

    /// Sends a frame: the first idle worker takes it, or it is queued. The
    /// statistics are not touched.
    pub fn send(&mut self, frame: Vec<u8>) -> (res: FrameDispatch)
        requires
            old(self).wf(),
        ensures
            final(self).wf(),
            final(self).config() == old(self).config(),
            final(self).monitor() == old(self).monitor(),
            final(self).pool() == dispatched(old(self).pool(), frame@),
            match res {
                FrameDispatch::Assigned { worker_id, frame: f } => first_idle(old(self).pool().busy)
                    == Some(worker_id as int) && f@ == frame@,
                FrameDispatch::Queued => first_idle(old(self).pool().busy) is None,
            },
    {
        self.worker_pool.process_p2p_frame(frame)
    }

    /// Records that busy worker `worker_id` finished its frame.
    pub fn complete_task(&mut self, worker_id: usize)
        requires
            old(self).wf(),
            worker_id < old(self).pool().busy.len(),
            old(self).pool().busy[worker_id as int],
            old(self).pool().total_tasks_processed < u64::MAX,
        ensures
            final(self).wf(),
            final(self).config() == old(self).config(),
            final(self).monitor() == old(self).monitor(),
            final(self).pool() == crate::worker_pool::completed(old(self).pool(), worker_id as int),
    {
        self.worker_pool.complete_task(worker_id);
    }
}

/// Every how many frames the benchmark looks at the clock.
pub const BENCHMARK_CHECK_INTERVAL: u32 = 1000;

/// The progress of a throughput benchmark: it sends blank frames through a
/// connection until `target` frames are sent or, looking at the clock after
/// every `BENCHMARK_CHECK_INTERVAL` frames, its time is up.
pub struct BenchmarkRun {
    target: u32,
    sent: u32,
    out_of_time: bool,
}

impl BenchmarkRun {
    /// Frames to send at most.
    pub closed spec fn target(&self) -> u32 {
        self.target
    }

    /// Frames sent so far.
    pub closed spec fn sent(&self) -> u32 {
        self.sent
    }

    /// Whether the clock said the time was up.
    pub closed spec fn out_of_time(&self) -> bool {
        self.out_of_time
    }

    /// A benchmark that has sent nothing.
    pub fn new(target: u32) -> (b: BenchmarkRun)
        ensures
            b.target() == target,
            b.sent() == 0,
            !b.out_of_time(),
    {
        BenchmarkRun { target, sent: 0, out_of_time: false }
    }

    /// Whether another frame is to be sent: the target is not reached and
    /// the time is not up.
    pub fn wants_frame(&self) -> (r: bool)
        ensures
            r == (self.sent() < self.target() && !self.out_of_time()),
    {
        self.sent < self.target && !self.out_of_time
    }

    /// Counts a frame as sent (whether or not processing it succeeded) and
    /// says whether the clock is to be looked at now.
    pub fn frame_sent(&mut self) -> (check_clock: bool)
        requires
            old(self).sent() < old(self).target(),
            !old(self).out_of_time(),
        ensures
            final(self).sent() == old(self).sent() + 1,
            final(self).target() == old(self).target(),
            !final(self).out_of_time(),
            check_clock == (final(self).sent() % BENCHMARK_CHECK_INTERVAL == 0),
    {
        self.sent = self.sent + 1;
        self.sent % BENCHMARK_CHECK_INTERVAL == 0
    }

    /// Records what the clock said: whether more time has passed than the
    /// benchmark may take.
    pub fn clock_checked(&mut self, time_is_up: bool)
        ensures
            final(self).sent() == old(self).sent(),
            final(self).target() == old(self).target(),
            final(self).out_of_time() == (old(self).out_of_time() || time_is_up),
    {
        if time_is_up {
            self.out_of_time = true;
        }
    }

    /// Frames sent.
    pub fn messages_sent(&self) -> (n: u32)
        ensures
            n == self.sent(),
    {
        self.sent
    }
}

} // verus!
