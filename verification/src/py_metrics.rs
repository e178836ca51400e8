//! Per-operation latency statistics of the Python binding. Durations are
//! whole milliseconds; the averages and rates that Python sees are computed
//! from these counts by the caller.

use vstd::prelude::*;
use vstd::string::*;
use std::time::Instant;
use crate::clock::instant_now;
use crate::options::{has_key, keys_distinct, lemma_key_index_unique, lemma_table_push,
    lemma_table_replace, table_of};
use crate::text::str_eq;

verus! {

/// The longest total duration that can be held, in milliseconds
/// (`u64::MAX` seconds and 999 milliseconds).
pub const MAX_DURATION_MS: u128 = 18446744073709551615999u128;

/// Statistics of one operation.
pub struct PerfView {
    pub total_requests: u64,
    pub total_duration_ms: u128,
    /// The shortest duration seen, `None` before any.
    pub min_duration_ms: Option<u64>,
    pub max_duration_ms: u64,
}

/// Statistics of an operation not yet seen.
pub open spec fn empty_perf() -> PerfView {
    PerfView { total_requests: 0, total_duration_ms: 0, min_duration_ms: None, max_duration_ms: 0 }
}

/// Statistics after one more request of `ms` milliseconds.
pub open spec fn perf_after(d: PerfView, ms: u64) -> PerfView {
    PerfView {
        total_requests: (d.total_requests + 1) as u64,
        total_duration_ms: (d.total_duration_ms + ms) as u128,
        min_duration_ms: Some(
            match d.min_duration_ms {
                Some(m) => if ms < m {
                    ms
                } else {
                    m
                },
                None => ms,
            },
        ),
        max_duration_ms: if ms > d.max_duration_ms {
            ms
        } else {
            d.max_duration_ms
        },
    }
}

/// Statistics after requests of the durations `ms`, in order.
pub open spec fn perf_after_all(d: PerfView, ms: Seq<u64>) -> PerfView
    decreases ms.len(),
{
    if ms.len() == 0 {
        d
    } else {
        perf_after(perf_after_all(d, ms.drop_last()), ms.last())
    }
}

/// After any nonempty run of requests of one operation, the count is the
/// number of requests, and the shortest and longest durations reported are
/// durations that occurred and bound every duration recorded.
pub proof fn law_min_max_bound_every_request(ms: Seq<u64>)
    requires
        0 < ms.len() <= u64::MAX,
    ensures
        perf_after_all(empty_perf(), ms).total_requests == ms.len(),
        perf_after_all(empty_perf(), ms).min_duration_ms is Some,
        forall|i: int|
            0 <= i < ms.len() ==> reported_min(perf_after_all(empty_perf(), ms)) <= #[trigger] ms[i]
                <= perf_after_all(empty_perf(), ms).max_duration_ms,
        exists|i: int| 0 <= i < ms.len() && ms[i] == reported_min(perf_after_all(empty_perf(), ms)),
        exists|i: int|
            0 <= i < ms.len() && ms[i] == perf_after_all(empty_perf(), ms).max_duration_ms,
    decreases ms.len(),
{
    let p = perf_after_all(empty_perf(), ms);
    let x = ms.last();
    let prefix = ms.drop_last();
    if prefix.len() == 0 {
        assert(perf_after_all(empty_perf(), prefix) == empty_perf());
        assert(ms[0] == x);
    } else {
        law_min_max_bound_every_request(prefix);
        let q = perf_after_all(empty_perf(), prefix);
        assert forall|i: int| 0 <= i < ms.len() implies reported_min(p) <= #[trigger] ms[i]
            <= p.max_duration_ms by {
            if i < prefix.len() {
                assert(ms[i] == prefix[i]);
            }
        }
        let lo = choose|i: int| 0 <= i < prefix.len() && prefix[i] == reported_min(q);
        let hi = choose|i: int| 0 <= i < prefix.len() && prefix[i] == q.max_duration_ms;
        assert(ms[lo] == prefix[lo]);
        assert(ms[hi] == prefix[hi]);
        assert(ms[ms.len() - 1] == x);
    }
}

/// The sum of the durations `ms`.
pub open spec fn duration_sum(ms: Seq<u64>) -> nat
    decreases ms.len(),
{
    if ms.len() == 0 {
        0
    } else {
        duration_sum(ms.drop_last()) + ms.last() as nat
    }
}

/// After any run of requests of one operation from no statistics, the total
/// duration is the sum of the recorded durations, so the average that
/// `average_latency_ratio` gives is their mean.
pub proof fn law_total_duration_is_sum(ms: Seq<u64>)
    requires
        duration_sum(ms) <= MAX_DURATION_MS,
    ensures
        perf_after_all(empty_perf(), ms).total_duration_ms == duration_sum(ms),
    decreases ms.len(),
{
    if ms.len() > 0 {
        law_total_duration_is_sum(ms.drop_last());
    }
}

/// Statistics of `op` in a table, the empty statistics when absent.
pub open spec fn perf_of(m: Map<Seq<char>, PerfView>, op: Seq<char>) -> PerfView {
    if m.contains_key(op) {
        m[op]
    } else {
        empty_perf()
    }
}

/// Statistics of one operation, with the time of its last request.
pub struct PerformanceData {
    total_requests: u64,
    total_duration_ms: u128,
    min_duration_ms: Option<u64>,
    max_duration_ms: u64,
    last_updated: Instant,
}

impl View for PerformanceData {
    type V = PerfView;

    closed spec fn view(&self) -> PerfView {
        PerfView {
            total_requests: self.total_requests,
            total_duration_ms: self.total_duration_ms,
            min_duration_ms: self.min_duration_ms,
            max_duration_ms: self.max_duration_ms,
        }
    }
}

impl PerformanceData {
    /// Statistics of an operation not yet seen, stamped now.
    pub fn new() -> (d: PerformanceData)
        ensures
            d@ == empty_perf(),
    {
        PerformanceData {
            total_requests: 0,
            total_duration_ms: 0,
            min_duration_ms: None,
            max_duration_ms: 0,
            last_updated: instant_now(),
        }
    }

    /// The clock reading taken at the last request (or when made).
    pub closed spec fn updated_at(&self) -> Instant {
        self.last_updated
    }

    /// Time of the last request.
    pub fn last_updated(&self) -> (t: &Instant)
        ensures
            *t == self.updated_at(),
    {
        &self.last_updated
    }
}

/// The statistics of each entry.
pub open spec fn perf_views(e: Seq<(String, PerformanceData)>) -> Seq<(Seq<char>, PerfView)> {
    e.map_values(|p: (String, PerformanceData)| (p.0@, p.1@))
}

/// A summary of one operation for the caller: requests, total, shortest
/// (0 before any) and longest duration.
pub struct OperationSummary {
    pub operation: String,
    pub total_requests: u64,
    pub total_duration_ms: u128,
    pub min_latency_ms: u64,
    pub max_latency_ms: u64,
}

/// The shortest duration as reported: 0 before any request.
pub open spec fn reported_min(d: PerfView) -> u64 {
    match d.min_duration_ms {
        Some(m) => m,
        None => 0,
    }
}

/// Latency statistics per operation name.
pub struct PyPerformanceMetrics {
    metrics: Vec<(String, PerformanceData)>,
}

impl View for PyPerformanceMetrics {
    type V = Map<Seq<char>, PerfView>;

    closed spec fn view(&self) -> Map<Seq<char>, PerfView> {
        table_of(perf_views(self.metrics@))
    }
}

impl PyPerformanceMetrics {
    /// No operation occurs twice.
    pub closed spec fn wf(&self) -> bool {
        keys_distinct(perf_views(self.metrics@))
    }

    /// No statistics yet.
    pub fn new() -> (m: PyPerformanceMetrics)
        ensures
            m.wf(),
            m@ == Map::<Seq<char>, PerfView>::empty(),
    {
        let m = PyPerformanceMetrics { metrics: Vec::new() };
        assert(m@ =~= Map::<Seq<char>, PerfView>::empty());
        m
    }

    /// Position of an operation's statistics, if any.
    fn find(&self, operation: &str) -> (res: Option<usize>)
        requires
            self.wf(),
        ensures
            match res {
                Some(i) => i < self.metrics@.len() && self.metrics@[i as int].0@ == operation@,
                None => !has_key(perf_views(self.metrics@), operation@),
            },
    {
        let mut i: usize = 0;
        while i < self.metrics.len()
            invariant
                0 <= i <= self.metrics@.len(),
                forall|j: int| 0 <= j < i ==> self.metrics@[j].0@ != operation@,
            decreases self.metrics@.len() - i,
        {
            if str_eq(self.metrics[i].0.as_str(), operation) {
                return Some(i);
            }
            i = i + 1;
        }
        proof {
            let e = perf_views(self.metrics@);
            assert forall|j: int| 0 <= j < e.len() implies e[j].0 != operation@ by {
                assert(e[j].0 == self.metrics@[j].0@);
            }
        }
        None
    }

    /// The statistics of an operation, if any.
    fn entry(&self, operation: &str) -> (res: Option<&PerformanceData>)
        requires
            self.wf(),
        ensures
            match res {
                Some(d) => self@.contains_key(operation@) && self@[operation@] == d@,
                None => !self@.contains_key(operation@),
            },
    {
        match self.find(operation) {
            Some(i) => {
                proof {
                    lemma_key_index_unique(perf_views(self.metrics@), i as int);
                }
                Some(&self.metrics[i].1)
            },
            None => None,
        }
    }

    /// Counts one request of `duration_ms` milliseconds for the operation,
    /// starting its statistics if it is new, and stamps it now. Its request
    /// count and total duration must not overflow.
    pub fn record_request(&mut self, operation: String, duration_ms: u64)
        requires
            old(self).wf(),
            perf_of(old(self)@, operation@).total_requests < u64::MAX,
            perf_of(old(self)@, operation@).total_duration_ms + duration_ms <= MAX_DURATION_MS,
        ensures
            final(self).wf(),
            final(self)@ == old(self)@.insert(
                operation@,
                perf_after(perf_of(old(self)@, operation@), duration_ms),
            ),
    {
        let ghost e = perf_views(self.metrics@);
        let found = self.find(operation.as_str());
        match found {
            Some(i) => {
                proof {
                    lemma_key_index_unique(e, i as int);
                }
                let old_data = &self.metrics[i].1;
                let min = match old_data.min_duration_ms {
                    Some(m) => if duration_ms < m {
                        duration_ms
                    } else {
                        m
                    },
                    None => duration_ms,
                };
                let max = if duration_ms > old_data.max_duration_ms {
                    duration_ms
                } else {
                    old_data.max_duration_ms
                };
                let data = PerformanceData {
                    total_requests: old_data.total_requests + 1,
                    total_duration_ms: old_data.total_duration_ms + duration_ms as u128,
                    min_duration_ms: Some(min),
                    max_duration_ms: max,
                    last_updated: instant_now(),
                };
                assert(data@ == perf_after(e[i as int].1, duration_ms));
                proof {
                    lemma_table_replace(e, i as int, data@);
                }
                self.metrics.set(i, (operation, data));
                assert(perf_views(self.metrics@) =~= e.update(i as int, (e[i as int].0, data@)));
            },
            None => {
                let data = PerformanceData {
                    total_requests: 1,
                    total_duration_ms: duration_ms as u128,
                    min_duration_ms: Some(duration_ms),
                    max_duration_ms: duration_ms,
                    last_updated: instant_now(),
                };
                assert(data@ == perf_after(empty_perf(), duration_ms));
                proof {
                    lemma_table_push(e, operation@, data@);
                }
                self.metrics.push((operation, data));
                assert(perf_views(self.metrics@) =~= e.push((operation@, data@)));
            },
        }
    }

    /// The quotient whose value is the average latency in milliseconds:
    /// total duration over requests, or `None` (an average of 0) for an
    /// operation without requests.
    pub fn average_latency_ratio(&self, operation: String) -> (r: Option<(u128, u64)>)
        requires
            self.wf(),
        ensures
            r == (if self@.contains_key(operation@) && self@[operation@].total_requests > 0 {
                Some((self@[operation@].total_duration_ms, self@[operation@].total_requests))
            } else {
                None
            }),
    {
        match self.entry(operation.as_str()) {
            Some(d) => if d.total_requests > 0 {
                Some((d.total_duration_ms, d.total_requests))
            } else {
                None
            },
            None => None,
        }
    }

    /// The shortest duration in milliseconds; 0 for an unknown operation.
    pub fn get_min_latency(&self, operation: String) -> (ms: u64)
        requires
            self.wf(),
        ensures
            ms == (if self@.contains_key(operation@) {
                reported_min(self@[operation@])
            } else {
                0
            }),
    {
        match self.entry(operation.as_str()) {
            Some(d) => match d.min_duration_ms {
                Some(m) => m,
                None => 0,
            },
            None => 0,
        }
    }

    /// The longest duration in milliseconds; 0 for an unknown operation.
    pub fn get_max_latency(&self, operation: String) -> (ms: u64)
        requires
            self.wf(),
        ensures
            ms == (if self@.contains_key(operation@) {
                self@[operation@].max_duration_ms
            } else {
                0
            }),
    {
        match self.entry(operation.as_str()) {
            Some(d) => d.max_duration_ms,
            None => 0,
        }
    }

    /// The number of requests; 0 for an unknown operation.
    pub fn get_total_requests(&self, operation: String) -> (n: u64)
        requires
            self.wf(),
        ensures
            n == perf_of(self@, operation@).total_requests,
    {
        match self.entry(operation.as_str()) {
            Some(d) => d.total_requests,
            None => 0,
        }
    }

    /// The statistics of an operation, with the time of its last request,
    /// for the throughput that the caller measures against the clock.
    pub fn get_operation(&self, operation: String) -> (res: Option<&PerformanceData>)
        requires
            self.wf(),
        ensures
            match res {
                Some(d) => self@.contains_key(operation@) && self@[operation@] == d@,
                None => !self@.contains_key(operation@),
            },
    {
        self.entry(operation.as_str())
    }

    /// A summary of every operation, one per name.
    pub fn get_all_metrics(&self) -> (res: Vec<OperationSummary>)
        requires
            self.wf(),
        ensures
            res@.len() == self@.dom().len(),
            forall|i: int|
                0 <= i < res@.len() ==> {
                    let s = #[trigger] res@[i];
                    &&& self@.contains_key(s.operation@)
                    &&& s.total_requests == self@[s.operation@].total_requests
                    &&& s.total_duration_ms == self@[s.operation@].total_duration_ms
                    &&& s.min_latency_ms == reported_min(self@[s.operation@])
                    &&& s.max_latency_ms == self@[s.operation@].max_duration_ms
                },
            forall|i: int, j: int|
                0 <= i < res@.len() && 0 <= j < res@.len() && i != j ==> res@[i].operation@
                    != res@[j].operation@,
    {
        proof {
            self.lemma_dom_len();
        }
        let ghost e = perf_views(self.metrics@);
        let mut res: Vec<OperationSummary> = Vec::new();
        let mut i: usize = 0;
        while i < self.metrics.len()
            invariant
                0 <= i <= self.metrics@.len(),
                e == perf_views(self.metrics@),
                keys_distinct(e),
                res@.len() == i,
                forall|k: int|
                    0 <= k < i ==> {
                        let s = #[trigger] res@[k];
                        &&& s.operation@ == e[k].0
                        &&& s.total_requests == e[k].1.total_requests
                        &&& s.total_duration_ms == e[k].1.total_duration_ms
                        &&& s.min_latency_ms == reported_min(e[k].1)
                        &&& s.max_latency_ms == e[k].1.max_duration_ms
                    },
            decreases self.metrics@.len() - i,
        {
            let entry = &self.metrics[i];
            let d = &entry.1;
            let min = match d.min_duration_ms {
                Some(m) => m,
                None => 0,
            };
            res.push(
                OperationSummary {
                    operation: entry.0.clone(),
                    total_requests: d.total_requests,
                    total_duration_ms: d.total_duration_ms,
                    min_latency_ms: min,
                    max_latency_ms: d.max_duration_ms,
                },
            );
            i = i + 1;
        }
        proof {
            assert forall|k: int| 0 <= k < res@.len() implies self@.contains_key(res@[k].operation@)
                && self@[res@[k].operation@] == e[k].1 by {
                lemma_key_index_unique(e, k);
            }
        }
        res
    }

    /// The number of operations is the number of entries.
    proof fn lemma_dom_len(&self)
        requires
            self.wf(),
        ensures
            self@.dom().finite(),
            self@.dom().len() == self.metrics@.len(),
    {
        let e = perf_views(self.metrics@);
        let keys = e.map_values(|p: (Seq<char>, PerfView)| p.0);
        assert(keys.no_duplicates());
        assert forall|k: Seq<char>| self@.dom().contains(k) <==> keys.to_set().contains(k) by {
            if self@.dom().contains(k) {
                let i = choose|i: int| 0 <= i < e.len() && e[i].0 == k;
                assert(keys[i] == k);
            }
            if keys.to_set().contains(k) {
                let i = choose|i: int| 0 <= i < keys.len() && keys[i] == k;
                assert(has_key(e, k));
            }
        }
        assert(self@.dom() =~= keys.to_set());
        keys.unique_seq_to_set();
    }

    /// Forgets every operation.
    pub fn reset(&mut self)
        ensures
            final(self).wf(),
            final(self)@ == Map::<Seq<char>, PerfView>::empty(),
    {
        self.metrics.clear();
        assert(self@ =~= Map::<Seq<char>, PerfView>::empty());
    }

    /// The fixed description of the lock-free optimisations.
    pub fn get_crossbeam_performance_info(&self) -> (res: Vec<(String, String)>)
        ensures
            res@.len() == 5,
            res@[0].0@ == "lock_free_operations"@ && res@[0].1@ == "enabled"@,
            res@[1].0@ == "simd_processing"@ && res@[1].1@ == "enabled"@,
            res@[2].0@ == "work_stealing_queues"@ && res@[2].1@ == "enabled"@,
            res@[3].0@ == "memory_pool_optimization"@ && res@[3].1@ == "enabled"@,
            res@[4].0@ == "expected_improvement"@ && res@[4].1@
                == "2-3x handler ops, 1.5-2x channel throughput"@,
    {
        let mut v: Vec<(String, String)> = Vec::new();
        v.push((String::from_str("lock_free_operations"), String::from_str("enabled")));
        v.push((String::from_str("simd_processing"), String::from_str("enabled")));
        v.push((String::from_str("work_stealing_queues"), String::from_str("enabled")));
        v.push((String::from_str("memory_pool_optimization"), String::from_str("enabled")));
        v.push(
            (
                String::from_str("expected_improvement"),
                String::from_str("2-3x handler ops, 1.5-2x channel throughput"),
            ),
        );
        v
    }
}

} // verus!
