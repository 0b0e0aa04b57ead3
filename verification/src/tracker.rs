//! The lifecycle tracker: per-process start and end timestamps, written
//! exactly once each by the runner that owns the process and read by any
//! observer. Storage is a concurrent key-partitioned map, so writers on
//! unrelated process ids never contend on one global lock.

use vstd::prelude::*;
use crate::clock::{clock_origin, nanos_since};
use crate::shared_map::{
    TimeDashMap, time_map, time_map_get, time_map_insert, time_map_len, time_map_new,
    time_map_pairs,
};

verus! {

/// The recorded timing state: which processes have started, and which have
/// ended, each with its timestamp in nanoseconds from the tracker's origin.
pub struct TrackerView {
    pub started: Map<u64, u64>,
    pub ended: Map<u64, u64>,
}

/// The tracker's invariant: an end is only ever recorded for a process whose
/// start was recorded first, and never before that start.
pub open spec fn tracker_inv(v: TrackerView) -> bool {
    &&& v.started.dom().finite()
    &&& v.ended.dom().finite()
    &&& v.ended.dom().subset_of(v.started.dom())
    &&& forall|p: u64| #[trigger] v.ended.dom().contains(p) ==> v.started[p] <= v.ended[p]
}

pub struct LifecycleTracker {
    started_at: TimeDashMap,
    ended_at: TimeDashMap,
    origin: std::time::Instant,
}

impl View for LifecycleTracker {
    type V = TrackerView;

    closed spec fn view(&self) -> TrackerView {
        TrackerView { started: time_map(self.started_at), ended: time_map(self.ended_at) }
    }
}

impl LifecycleTracker {
    /// A fresh tracker with no records.
    pub fn new() -> (t: Self)
        ensures
            tracker_inv(t@),
            t@.started =~= Map::<u64, u64>::empty(),
            t@.ended =~= Map::<u64, u64>::empty(),
    {
        let t = LifecycleTracker {
            started_at: time_map_new(),
            ended_at: time_map_new(),
            origin: clock_origin(),
        };
        proof {
            assert(t@.started =~= Map::<u64, u64>::empty());
            assert(t@.ended =~= Map::<u64, u64>::empty());
        }
        t
    }

    /// Records the start timestamp of `pid`, exactly once per process.
    pub fn mark_started(&mut self, pid: u64)
        requires
            tracker_inv(old(self)@),
            !old(self)@.started.dom().contains(pid),
        ensures
            tracker_inv(final(self)@),
            final(self)@.started == old(self)@.started.insert(pid, final(self)@.started[pid]),
            final(self)@.ended == old(self)@.ended,
    {
        let now = nanos_since(&self.origin);
        time_map_insert(&mut self.started_at, pid, now);
        proof {
            assert forall|p: u64| #[trigger] self@.ended.dom().contains(p) implies self@
                .started
                .dom()
                .contains(p) && self@.started[p] <= self@.ended[p] by {
                assert(old(self)@.started.dom().contains(p));
                assert(p != pid);
            }
        }
    }

    /// Records the end timestamp of `pid`, exactly once per process. The
    /// clock is read once and clamped so the recorded end is never before the
    /// recorded start.
    pub fn mark_ended(&mut self, pid: u64)
        requires
            tracker_inv(old(self)@),
            old(self)@.started.dom().contains(pid),
            !old(self)@.ended.dom().contains(pid),
        ensures
            tracker_inv(final(self)@),
            final(self)@.started == old(self)@.started,
            final(self)@.ended == old(self)@.ended.insert(pid, final(self)@.ended[pid]),
            old(self)@.started[pid] <= final(self)@.ended[pid],
    {
        let now = nanos_since(&self.origin);
        let s = match time_map_get(&self.started_at, pid) {
            Some(v) => v,
            None => 0,
        };
        let end = if now < s {
            s
        } else {
            now
        };
        time_map_insert(&mut self.ended_at, pid, end);
        proof {
            assert forall|p: u64| #[trigger] self@.ended.dom().contains(p) implies self@
                .started
                .dom()
                .contains(p) && self@.started[p] <= self@.ended[p] by {
                if p != pid {
                    assert(old(self)@.ended.dom().contains(p));
                }
            }
        }
    }

    /// Whether `pid` has a recorded start.
    pub fn has_started(&self, pid: u64) -> (r: bool)
        ensures
            r == self@.started.dom().contains(pid),
    {
        match time_map_get(&self.started_at, pid) {
            Some(_) => true,
            None => false,
        }
    }

    /// Whether `pid` has a recorded end.
    pub fn has_ended(&self, pid: u64) -> (r: bool)
        ensures
            r == self@.ended.dom().contains(pid),
    {
        match time_map_get(&self.ended_at, pid) {
            Some(_) => true,
            None => false,
        }
    }

    /// How many processes have a recorded start.
    pub fn started_count(&self) -> (n: usize)
        ensures
            n == self@.started.dom().len(),
    {
        time_map_len(&self.started_at)
    }

    /// How many processes have a recorded end.
    pub fn ended_count(&self) -> (n: usize)
        ensures
            n == self@.ended.dom().len(),
    {
        time_map_len(&self.ended_at)
    }

    /// One consistent reading of every record: each started process appears
    /// exactly once as `(pid, start, end-or-none)`, in no promised order.
    pub fn snapshot(&mut self) -> (v: Vec<(u64, u64, Option<u64>)>)
        requires
            tracker_inv(old(self)@),
        ensures
            final(self)@ == old(self)@,
            tracker_inv(final(self)@),
            v@.len() == old(self)@.started.dom().len(),
            forall|i: int|
                0 <= i < v@.len() ==> {
                    &&& old(self)@.started.dom().contains(#[trigger] v@[i].0)
                    &&& v@[i].1 == old(self)@.started[v@[i].0]
                    &&& v@[i].2 == (if old(self)@.ended.dom().contains(v@[i].0) {
                        Some(old(self)@.ended[v@[i].0])
                    } else {
                        None::<u64>
                    })
                },
            forall|i: int, j: int|
                0 <= i < v@.len() && 0 <= j < v@.len() && i != j ==> v@[i].0 != v@[j].0,
            forall|k: u64|
                #[trigger] old(self)@.started.dom().contains(k) ==> exists|i: int|
                    0 <= i < v@.len() && v@[i].0 == k,
    {
        let pairs = time_map_pairs(&mut self.started_at);
        let mut out: Vec<(u64, u64, Option<u64>)> = Vec::new();
        let mut i: usize = 0;
        while i < pairs.len()
            invariant
                i <= pairs@.len(),
                out@.len() == i,
                time_map(self.started_at) == old(self)@.started,
                time_map(self.ended_at) == old(self)@.ended,
                forall|l: int|
                    0 <= l < i ==> (#[trigger] out@[l]).0 == pairs@[l].0 && out@[l].1
                        == pairs@[l].1 && out@[l].2 == (if old(self)@.ended.dom().contains(
                        pairs@[l].0,
                    ) {
                        Some(old(self)@.ended[pairs@[l].0])
                    } else {
                        None::<u64>
                    }),
            decreases pairs@.len() - i,
        {
            let entry: (u64, u64) = pairs[i];
            let e = time_map_get(&self.ended_at, entry.0);
            out.push((entry.0, entry.1, e));
            i = i + 1;
        }
        proof {
            assert forall|k: u64| #[trigger]
                old(self)@.started.dom().contains(k) implies exists|l: int|
                0 <= l < out@.len() && out@[l].0 == k by {
                let l = choose|l: int| 0 <= l < pairs@.len() && pairs@[l].0 == k;
                assert(out@[l].0 == k);
            }
        }
        out
    }
}

/// Law: a process with a recorded end was recorded as started first, and its
/// start timestamp is never after its end timestamp.
pub proof fn lemma_end_implies_start(v: TrackerView, pid: u64)
    requires
        tracker_inv(v),
        v.ended.dom().contains(pid),
    ensures
        v.started.dom().contains(pid),
        v.started[pid] <= v.ended[pid],
{
}

/// Law: once every process of a batch of `n` distinct ids is recorded as
/// ended and no others are, the ended count is exactly `n`.
pub proof fn lemma_ended_count_of_batch(v: TrackerView, pids: Seq<u64>)
    requires
        tracker_inv(v),
        pids.no_duplicates(),
        v.ended.dom() =~= pids.to_set(),
    ensures
        v.ended.dom().len() == pids.len(),
{
    pids.unique_seq_to_set();
}

} // verus!
