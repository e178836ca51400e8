//! Scheduling state of the browser worker pool: which worker is busy, how
//! many frames each has processed, and which frames wait for a free worker.
//! Posting a frame to a worker and learning that it finished are events that
//! the caller performs and reports back.

use vstd::prelude::*;
use std::collections::VecDeque;
use crate::webworkers::IrohWasmWebWorkersConfig;

verus! {

/// Bytes assumed per processed frame when estimating traffic.
pub const ESTIMATED_FRAME_BYTES: u64 = 1024;

/// Number of `true` entries of a sequence: the busy workers.
pub open spec fn busy_count(s: Seq<bool>) -> nat
    decreases s.len(),
{
    if s.len() == 0 {
        0
    } else {
        busy_count(s.drop_last()) + (if s.last() { 1nat } else { 0nat })
    }
}

/// Sum of a sequence of counters.
pub open spec fn counter_sum(s: Seq<u64>) -> nat
    decreases s.len(),
{
    if s.len() == 0 {
        0
    } else {
        counter_sum(s.drop_last()) + (s.last() as nat)
    }
}

/// Index of the first idle worker, if any.
pub open spec fn first_idle(busy: Seq<bool>) -> Option<int> {
    if exists|i: int| 0 <= i < busy.len() && !busy[i] {
        Some(choose|i: int| 0 <= i < busy.len() && !busy[i] && forall|j: int| 0 <= j < i ==> busy[j])
    } else {
        None
    }
}

/// Abstract state of the pool.
pub struct PoolView {
    /// Per worker: whether it is processing a frame.
    pub busy: Seq<bool>,
    /// Per worker: how many frames it has finished.
    pub processed: Seq<u64>,
    /// Frames that found no idle worker, oldest first.
    pub queue: Seq<Seq<u8>>,
    pub active_tasks: u32,
    pub total_tasks_processed: u64,
    pub batch_size: usize,
}

/// A pool of `worker_count` idle workers that have processed nothing, with
/// an empty queue.
pub open spec fn fresh_pool(worker_count: nat, batch_size: usize) -> PoolView {
    PoolView {
        busy: Seq::new(worker_count, |i: int| false),
        processed: Seq::new(worker_count, |i: int| 0u64),
        queue: Seq::empty(),
        active_tasks: 0,
        total_tasks_processed: 0,
        batch_size,
    }
}

/// State after handing a frame to worker `id`.
pub open spec fn assigned(v: PoolView, id: int) -> PoolView {
    PoolView {
        busy: v.busy.update(id, true),
        active_tasks: (v.active_tasks + 1) as u32,
        ..v
    }
}

/// State after worker `id` reports that its frame is done.
pub open spec fn completed(v: PoolView, id: int) -> PoolView {
    PoolView {
        busy: v.busy.update(id, false),
        processed: v.processed.update(id, (v.processed[id] + 1) as u64),
        active_tasks: (v.active_tasks - 1) as u32,
        total_tasks_processed: (v.total_tasks_processed + 1) as u64,
        ..v
    }
}

/// State after a frame arrives: it goes to the first idle worker, or waits.
pub open spec fn dispatched(v: PoolView, frame: Seq<u8>) -> PoolView {
    match first_idle(v.busy) {
        Some(id) => assigned(v, id),
        None => PoolView { queue: v.queue.push(frame), ..v },
    }
}

/// Consistency of a pool state: one flag and one counter per worker, the
/// active count is the number of busy workers and the total is the sum of
/// the per-worker counters.
pub open spec fn pool_consistent(v: PoolView) -> bool {
    &&& v.busy.len() == v.processed.len()
    &&& v.busy.len() <= u32::MAX
    &&& v.active_tasks == busy_count(v.busy)
    &&& v.total_tasks_processed == counter_sum(v.processed)
}

/// Whether `ranges` splits `0..n` into consecutive batches of `size`
/// frames, the last one possibly shorter, in order.
pub open spec fn batches_of(ranges: Seq<(usize, usize)>, n: nat, size: nat) -> bool {
    &&& (ranges.len() == 0 <==> n == 0)
    &&& ranges.len() > 0 ==> ranges[0].0 == 0 && ranges.last().1 == n
    &&& forall|i: int| 0 <= i < ranges.len() - 1 ==> #[trigger] ranges[i].1 == ranges[i + 1].0
    &&& forall|i: int|
        0 <= i < ranges.len() - 1 ==> #[trigger] ranges[i].1 - ranges[i].0 == size
    &&& forall|i: int|
        0 <= i < ranges.len() ==> 0 < #[trigger] ranges[i].1 - ranges[i].0 <= size
}

/// Where a frame went.
pub enum FrameDispatch {
    /// Handed to this worker; the caller posts the frame to it.
    Assigned { worker_id: usize, frame: Vec<u8> },
    /// Every worker was busy; the frame waits in the queue.
    Queued,
}

/// Why a task could not be handed to a worker.
pub enum PoolError {
    InvalidWorkerId,
}

/// Flipping one flag changes the busy count by the difference.
pub proof fn lemma_busy_count_update(s: Seq<bool>, i: int, b: bool)
    requires
        0 <= i < s.len(),
    ensures
        busy_count(s.update(i, b)) + (if s[i] { 1int } else { 0int }) == busy_count(s) + (if b {
            1int
        } else {
            0int
        }),
    decreases s.len(),
{
    let t = s.update(i, b);
    if i == s.len() - 1 {
        assert(t.drop_last() =~= s.drop_last());
    } else {
        assert(t.drop_last() =~= s.drop_last().update(i, b));
        lemma_busy_count_update(s.drop_last(), i, b);
    }
}

/// The busy count never exceeds the number of workers.
pub proof fn lemma_busy_count_bound(s: Seq<bool>)
    ensures
        busy_count(s) <= s.len(),
    decreases s.len(),
{
    if s.len() > 0 {
        lemma_busy_count_bound(s.drop_last());
    }
}

/// A sequence of idle flags has busy count zero.
pub proof fn lemma_busy_count_all_idle(s: Seq<bool>)
    requires
        forall|i: int| 0 <= i < s.len() ==> !s[i],
    ensures
        busy_count(s) == 0,
    decreases s.len(),
{
    if s.len() > 0 {
        lemma_busy_count_all_idle(s.drop_last());
    }
}

/// A sequence of zero counters sums to zero.
pub proof fn lemma_counter_sum_zero(s: Seq<u64>)
    requires
        forall|i: int| 0 <= i < s.len() ==> s[i] == 0,
    ensures
        counter_sum(s) == 0,
    decreases s.len(),
{
    if s.len() > 0 {
        lemma_counter_sum_zero(s.drop_last());
    }
}

/// Replacing one counter changes the sum by the difference.
pub proof fn lemma_counter_sum_update(s: Seq<u64>, i: int, x: u64)
    requires
        0 <= i < s.len(),
    ensures
        counter_sum(s.update(i, x)) + s[i] == counter_sum(s) + x,
    decreases s.len(),
{
    let t = s.update(i, x);
    if i == s.len() - 1 {
        assert(t.drop_last() =~= s.drop_last());
    } else {
        assert(t.drop_last() =~= s.drop_last().update(i, x));
        lemma_counter_sum_update(s.drop_last(), i, x);
    }
}

/// Each counter is at most the sum.
pub proof fn lemma_counter_le_sum(s: Seq<u64>, i: int)
    requires
        0 <= i < s.len(),
    ensures
        s[i] <= counter_sum(s),
    decreases s.len(),
{
    if i < s.len() - 1 {
        lemma_counter_le_sum(s.drop_last(), i);
    }
}

/// A consistent pool never counts more active tasks than it has workers.
pub proof fn law_active_tasks_within_pool(v: PoolView)
    requires
        pool_consistent(v),
    ensures
        v.active_tasks <= v.busy.len(),
{
    lemma_busy_count_bound(v.busy);
}

/// Handing a frame to an idle worker and then hearing that the worker is
/// done restores the busy flags and the active count, adds one to that
/// worker's counter and to the total, and keeps the state consistent.
pub proof fn law_assign_then_complete(v: PoolView, id: int)
    requires
        pool_consistent(v),
        0 <= id < v.busy.len(),
        !v.busy[id],
        v.total_tasks_processed < u64::MAX,
    ensures
        pool_consistent(assigned(v, id)),
        pool_consistent(completed(assigned(v, id), id)),
        completed(assigned(v, id), id).busy == v.busy,
        completed(assigned(v, id), id).active_tasks == v.active_tasks,
        completed(assigned(v, id), id).processed == v.processed.update(
            id,
            (v.processed[id] + 1) as u64,
        ),
        completed(assigned(v, id), id).total_tasks_processed == v.total_tasks_processed + 1,
        completed(assigned(v, id), id).queue == v.queue,
{
    let a = assigned(v, id);
    lemma_busy_count_update(v.busy, id, true);
    lemma_busy_count_bound(v.busy.update(id, true));
    lemma_busy_count_update(a.busy, id, false);
    lemma_counter_le_sum(v.processed, id);
    lemma_counter_sum_update(v.processed, id, (v.processed[id] + 1) as u64);
    assert(a.busy.update(id, false) =~= v.busy);
}

/// A frame waits in the queue only when every worker is busy; otherwise
/// exactly one more worker becomes busy and the queue is unchanged.
pub proof fn law_dispatch_queues_only_when_saturated(v: PoolView, frame: Seq<u8>)
    requires
        pool_consistent(v),
    ensures
        pool_consistent(dispatched(v, frame)),
        dispatched(v, frame).queue.len() > v.queue.len() ==> forall|j: int|
            0 <= j < v.busy.len() ==> v.busy[j],
        dispatched(v, frame).queue.len() == v.queue.len() ==> busy_count(dispatched(v, frame).busy)
            == busy_count(v.busy) + 1,
{
    match first_idle(v.busy) {
        Some(id) => {
            assert(exists|i: int| 0 <= i < v.busy.len() && !v.busy[i]);
            lemma_first_idle_exists(v.busy);
            lemma_busy_count_update(v.busy, id, true);
            lemma_busy_count_bound(v.busy.update(id, true));
        },
        None => {},
    }
}

/// The pool state after `frames` arrive one after another.
pub open spec fn dispatched_all(v: PoolView, frames: Seq<Seq<u8>>) -> PoolView
    decreases frames.len(),
{
    if frames.len() == 0 {
        v
    } else {
        dispatched(dispatched_all(v, frames.drop_last()), frames.last())
    }
}

/// The contents of a list of frames.
pub open spec fn frame_views(frames: Seq<Vec<u8>>) -> Seq<Seq<u8>> {
    frames.map_values(|f: Vec<u8>| f@)
}

/// No frame is lost: after any number of frames arrive at a consistent
/// pool, it is still consistent and each frame has made one more worker
/// busy or joined the queue.
pub proof fn law_dispatch_keeps_every_frame(v: PoolView, frames: Seq<Seq<u8>>)
    requires
        pool_consistent(v),
    ensures
        pool_consistent(dispatched_all(v, frames)),
        busy_count(dispatched_all(v, frames).busy) + dispatched_all(v, frames).queue.len()
            == busy_count(v.busy) + v.queue.len() + frames.len(),
        dispatched_all(v, frames).busy.len() == v.busy.len(),
        dispatched_all(v, frames).batch_size == v.batch_size,
    decreases frames.len(),
{
    if frames.len() > 0 {
        let prev = dispatched_all(v, frames.drop_last());
        law_dispatch_keeps_every_frame(v, frames.drop_last());
        law_dispatch_queues_only_when_saturated(prev, frames.last());
    }
}

/// When some worker is idle, `first_idle` names the lowest idle worker.
pub proof fn lemma_first_idle_exists(busy: Seq<bool>)
    requires
        exists|i: int| 0 <= i < busy.len() && !busy[i],
    ensures
        first_idle(busy) matches Some(id) && 0 <= id < busy.len() && !busy[id] && forall|j: int|
            0 <= j < id ==> busy[j],
    decreases busy.len(),
{
    let w = choose|i: int| 0 <= i < busy.len() && !busy[i];
    lemma_lowest_idle(busy, w);
}

/// Below any idle worker there is a lowest idle one.
proof fn lemma_lowest_idle(busy: Seq<bool>, w: int)
    requires
        0 <= w < busy.len(),
        !busy[w],
    ensures
        exists|i: int| 0 <= i < busy.len() && !busy[i] && forall|j: int| 0 <= j < i ==> busy[j],
    decreases w,
{
    if forall|j: int| 0 <= j < w ==> busy[j] {
        assert(0 <= w < busy.len() && !busy[w] && forall|j: int| 0 <= j < w ==> busy[j]);
    } else {
        let k = choose|j: int| 0 <= j < w && !busy[j];
        lemma_lowest_idle(busy, k);
    }
}

/// The scheduling state of a pool of browser workers.
pub struct IrohWasmWorkerPool {
    busy: Vec<bool>,
    tasks_processed: Vec<u64>,
    task_queue: VecDeque<Vec<u8>>,
    active_tasks: u32,
    total_tasks_processed: u64,
    config: IrohWasmWebWorkersConfig,
}

impl View for IrohWasmWorkerPool {
    type V = PoolView;

    closed spec fn view(&self) -> PoolView {
        PoolView {
            busy: self.busy@,
            processed: self.tasks_processed@,
            queue: self.task_queue@.map_values(|f: Vec<u8>| f@),
            active_tasks: self.active_tasks,
            total_tasks_processed: self.total_tasks_processed,
            batch_size: self.config.webworkers_config.batch_size,
        }
    }
}

impl IrohWasmWorkerPool {
    /// Whether the pool state is consistent (see `pool_consistent`).
    pub open spec fn wf(&self) -> bool {
        pool_consistent(self@)
    }

    /// A pool of `config.webworkers_config.worker_count` idle workers that
    /// have processed nothing, with an empty queue. The count must fit the
    /// pool's 32-bit active-task counter.
    pub fn new(config: IrohWasmWebWorkersConfig) -> (pool: IrohWasmWorkerPool)
        requires
            config.webworkers_config.worker_count <= u32::MAX,
        ensures
            pool.wf(),
            pool@ == fresh_pool(
                config.webworkers_config.worker_count as nat,
                config.webworkers_config.batch_size,
            ),
    {
        let n = config.webworkers_config.worker_count;
        let mut busy: Vec<bool> = Vec::new();
        let mut tasks_processed: Vec<u64> = Vec::new();
        let mut i: usize = 0;
        while i < n
            invariant
                0 <= i <= n,
                busy@ =~= Seq::new(i as nat, |k: int| false),
                tasks_processed@ =~= Seq::new(i as nat, |k: int| 0u64),
            decreases n - i,
        {
            busy.push(false);
            tasks_processed.push(0);
            i = i + 1;
        }
        proof {
            lemma_busy_count_all_idle(busy@);
            lemma_counter_sum_zero(tasks_processed@);
        }
        let pool = IrohWasmWorkerPool {
            busy,
            tasks_processed,
            task_queue: VecDeque::new(),
            active_tasks: 0,
            total_tasks_processed: 0,
            config,
        };
        assert(pool@.queue =~= Seq::<Seq<u8>>::empty());
        pool
    }

    /// Number of workers in the pool.
    pub fn get_worker_count(&self) -> (n: usize)
        ensures
            n == self@.busy.len(),
    {
        self.busy.len()
    }

    /// Number of workers currently processing a frame.
    pub fn busy_worker_count(&self) -> (n: usize)
        requires
            self.wf(),
        ensures
            n == busy_count(self@.busy),
            n <= self@.busy.len(),
    {
        proof {
            lemma_busy_count_bound(self@.busy);
        }
        self.active_tasks as usize
    }

    /// Number of frames being processed.
    pub fn active_tasks(&self) -> (n: u32)
        ensures
            n == self@.active_tasks,
    {
        self.active_tasks
    }

    /// Number of frames waiting for a worker.
    pub fn queued_task_count(&self) -> (n: usize)
        ensures
            n == self@.queue.len(),
    {
        self.task_queue.len()
    }

    /// Number of frames all workers have finished.
    pub fn total_tasks_processed(&self) -> (n: u64)
        ensures
            n == self@.total_tasks_processed,
    {
        self.total_tasks_processed
    }

    /// Number of frames worker `worker_id` has finished.
    pub fn worker_tasks_processed(&self, worker_id: usize) -> (n: Option<u64>)
        ensures
            n == (if worker_id < self@.processed.len() {
                Some(self@.processed[worker_id as int])
            } else {
                None::<u64>
            }),
    {
        if worker_id < self.tasks_processed.len() {
            Some(self.tasks_processed[worker_id])
        } else {
            None
        }
    }

    /// Estimated bytes sent: 1 KiB per finished frame.
    pub fn estimated_bytes_sent(&self) -> (n: u64)
        requires
            self@.total_tasks_processed * ESTIMATED_FRAME_BYTES <= u64::MAX,
        ensures
            n == self@.total_tasks_processed * ESTIMATED_FRAME_BYTES,
    {
        self.total_tasks_processed * ESTIMATED_FRAME_BYTES
    }

    /// The lowest-numbered idle worker, or `None` when all are busy.
    pub fn find_available_worker(&self) -> (res: Option<usize>)
        ensures
            res matches Some(i) ==> i < self@.busy.len() && !self@.busy[i as int] && forall|j: int|
                0 <= j < i ==> self@.busy[j],
            res is None ==> forall|j: int| 0 <= j < self@.busy.len() ==> self@.busy[j],
            res matches Some(i) ==> first_idle(self@.busy) == Some(i as int),
            res is None ==> first_idle(self@.busy) is None,
    {
        let mut i: usize = 0;
        while i < self.busy.len()
            invariant
                0 <= i <= self.busy@.len(),
                forall|j: int| 0 <= j < i ==> self.busy@[j],
            decreases self.busy@.len() - i,
        {
            if !self.busy[i] {
                let ghost b = self@.busy;
                proof {
                    let c = choose|k: int| 0 <= k < b.len() && !b[k] && forall|j: int| 0 <= j < k ==> b[j];
                    assert(0 <= i < b.len() && !b[i as int] && forall|j: int| 0 <= j < i ==> b[j]);
                    if c < i {
                        assert(b[c]);
                    } else if c > i {
                        assert(b[i as int]);
                    }
                }
                return Some(i);
            }
            i = i + 1;
        }
        None
    }

    /// Marks idle worker `worker_id` busy for a new frame; an id beyond the
    /// pool is refused and changes nothing.
    pub fn assign_task_to_worker(&mut self, worker_id: usize) -> (res: Result<(), PoolError>)
        requires
            old(self).wf(),
            worker_id < old(self)@.busy.len() ==> !old(self)@.busy[worker_id as int],
        ensures
            final(self).wf(),
            worker_id < old(self)@.busy.len() ==> res is Ok && final(self)@ == assigned(
                old(self)@,
                worker_id as int,
            ),
            worker_id >= old(self)@.busy.len() ==> res is Err && final(self)@ == old(self)@,
    {
        if worker_id < self.busy.len() {
            proof {
                lemma_busy_count_update(self.busy@, worker_id as int, true);
                lemma_busy_count_bound(self.busy@.update(worker_id as int, true));
            }
            self.busy.set(worker_id, true);
            self.active_tasks = self.active_tasks + 1;
            assert(self@.busy =~= old(self)@.busy.update(worker_id as int, true));
            Ok(())
        } else {
            Err(PoolError::InvalidWorkerId)
        }
    }

    /// Records that busy worker `worker_id` finished its frame: it becomes
    /// idle and the per-worker and total counters grow by one.
    pub fn complete_task(&mut self, worker_id: usize)
        requires
            old(self).wf(),
            worker_id < old(self)@.busy.len(),
            old(self)@.busy[worker_id as int],
            old(self)@.total_tasks_processed < u64::MAX,
        ensures
            final(self).wf(),
            final(self)@ == completed(old(self)@, worker_id as int),
    {
        proof {
            lemma_busy_count_update(self.busy@, worker_id as int, false);
            lemma_counter_le_sum(self.tasks_processed@, worker_id as int);
            lemma_counter_sum_update(
                self.tasks_processed@,
                worker_id as int,
                (self.tasks_processed@[worker_id as int] + 1) as u64,
            );
        }
        self.busy.set(worker_id, false);
        self.active_tasks = self.active_tasks - 1;
        let done = self.tasks_processed[worker_id] + 1;
        self.tasks_processed.set(worker_id, done);
        self.total_tasks_processed = self.total_tasks_processed + 1;
        assert(self@.busy =~= old(self)@.busy.update(worker_id as int, false));
        assert(self@.processed =~= old(self)@.processed.update(
            worker_id as int,
            (old(self)@.processed[worker_id as int] + 1) as u64,
        ));
    }

    /// The batches in which a list of `frame_count` frames is handed out:
    /// consecutive index ranges of `batch_size` frames, the last possibly
    /// shorter. Between two batches the caller yields to the event loop.
    pub fn batch_ranges(&self, frame_count: usize) -> (res: Vec<(usize, usize)>)
        requires
            self@.batch_size > 0,
        ensures
            batches_of(res@, frame_count as nat, self@.batch_size as nat),
    {
        let size = self.config.webworkers_config.batch_size;
        let mut res: Vec<(usize, usize)> = Vec::new();
        let mut start: usize = 0;
        while start < frame_count
            invariant
                size == self@.batch_size,
                size > 0,
                start <= frame_count,
                (res@.len() == 0 <==> start == 0),
                res@.len() > 0 ==> res@[0].0 == 0 && res@.last().1 == start,
                forall|i: int| 0 <= i < res@.len() - 1 ==> #[trigger] res@[i].1 == res@[i + 1].0,
                forall|i: int| 0 <= i < res@.len() ==> #[trigger] res@[i].1 - res@[i].0 == size,
            decreases frame_count - start,
        {
            let end = if frame_count - start > size {
                start + size
            } else {
                frame_count
            };
            if end - start < size {
                res.push((start, end));
                start = end;
                assert(batches_of(res@, frame_count as nat, size as nat));
                return res;
            }
            res.push((start, end));
            start = end;
        }
        res
    }

    /// Handles frames that arrive together, in order, as
    /// `process_p2p_frame` does each; the i-th result says where the i-th
    /// frame went.
    pub fn process_p2p_frames(&mut self, frames: Vec<Vec<u8>>) -> (res: Vec<FrameDispatch>)
        requires
            old(self).wf(),
        ensures
            final(self).wf(),
            final(self)@ == dispatched_all(old(self)@, frame_views(frames@)),
            res@.len() == frames@.len(),
            forall|i: int|
                0 <= i < res@.len() ==> match #[trigger] res@[i] {
                    FrameDispatch::Assigned { worker_id, frame: f } => first_idle(
                        dispatched_all(old(self)@, frame_views(frames@).take(i)).busy,
                    ) == Some(worker_id as int) && f@ == frames@[i]@,
                    FrameDispatch::Queued => first_idle(
                        dispatched_all(old(self)@, frame_views(frames@).take(i)).busy,
                    ) is None,
                },
    {
        let ghost views = frame_views(frames@);
        let ghost start = self@;
        let n = frames.len();
        let mut rest = frames;
        let mut res: Vec<FrameDispatch> = Vec::new();
        let mut i: usize = 0;
        while rest.len() > 0
            invariant
                self.wf(),
                views.len() == n,
                i + rest@.len() == n,
                res@.len() == i,
                frame_views(rest@) =~= views.skip(i as int),
                self@ == dispatched_all(start, views.take(i as int)),
                forall|k: int|
                    0 <= k < res@.len() ==> match #[trigger] res@[k] {
                        FrameDispatch::Assigned { worker_id, frame: f } => first_idle(
                            dispatched_all(start, views.take(k)).busy,
                        ) == Some(worker_id as int) && f@ == views[k],
                        FrameDispatch::Queued => first_idle(
                            dispatched_all(start, views.take(k)).busy,
                        ) is None,
                    },
            decreases rest@.len(),
        {
            let ghost before = rest@;
            let frame = rest.remove(0);
            proof {
                assert(frame@ == frame_views(before)[0]);
                assert(views.skip(i as int)[0] == views[i as int]);
                assert forall|k: int| 0 <= k < rest@.len() implies #[trigger] frame_views(rest@)[k]
                    == views.skip(i as int + 1)[k] by {
                    assert(rest@[k] == before[k + 1]);
                    assert(frame_views(before)[k + 1] == views.skip(i as int)[k + 1]);
                }
                assert(frame_views(rest@) =~= views.skip(i as int + 1));
                assert(views.take(i as int + 1).drop_last() =~= views.take(i as int));
                assert(views.take(i as int + 1).last() == views[i as int]);
            }
            let d = self.process_p2p_frame(frame);
            res.push(d);
            i = i + 1;
        }
        proof {
            assert(views.take(i as int) =~= views);
            assert(frame_views(frames@) == views);
        }
        res
    }

    /// Handles an arriving frame: the first idle worker takes it (the caller
    /// then posts it to that worker), or, when all are busy, it joins the queue.
    pub fn process_p2p_frame(&mut self, frame: Vec<u8>) -> (res: FrameDispatch)
        requires
            old(self).wf(),
        ensures
            final(self).wf(),
            final(self)@ == dispatched(old(self)@, frame@),
            match res {
                FrameDispatch::Assigned { worker_id, frame: f } => first_idle(old(self)@.busy)
                    == Some(worker_id as int) && f@ == frame@,
                FrameDispatch::Queued => first_idle(old(self)@.busy) is None,
            },
    {
        match self.find_available_worker() {
            Some(id) => {
                let _ = self.assign_task_to_worker(id);
                FrameDispatch::Assigned { worker_id: id, frame }
            },
            None => {
                self.task_queue.push_back(frame);
                assert(self@.queue =~= old(self)@.queue.push(frame@));
                FrameDispatch::Queued
            },
        }
    }
}

} // verus!
