//! The scheduling kernel itself. It owns the module registry, the lifecycle
//! tracker and the producer half of the dispatch queue; the consumer half is
//! handed to the embedder, whose scheduler loop dequeues each spawn request
//! and launches one runner task for it, never waiting for the run to finish.
//! The runner's decisions stand here -- begin a run, end a run -- while the
//! embedder performs the async instantiation and entry-point call between
//! them.

use vstd::prelude::*;
use crate::dispatch::{request_channel, send_request};
use crate::errors::SchedulerError;
use crate::registry::{ModuleRegistry, RegistryView, register_ok, registry_inv};
use crate::sandbox::classify_failure;
use crate::tracker::{LifecycleTracker, TrackerView, tracker_inv};

verus! {

/// The fuel policy: one whole budget is granted up front when a process is
/// instantiated, execution yields to the scheduler each time `yield_every`
/// units are consumed, and a process that consumes the whole budget is ended
/// as out-of-fuel -- there is no unbounded re-granting.
pub struct FuelPolicy {
    pub budget: u64,
    pub yield_every: u64,
}

/// What the kernel holds: the registry and tracker states, the next process
/// id to issue, and the fuel policy.
pub struct LunaticView {
    pub registry: RegistryView,
    pub tracker: TrackerView,
    pub next_process_id: u64,
    pub fuel_budget: u64,
    pub fuel_yield_every: u64,
}

/// The kernel's invariant: both components are well formed, every tracked
/// process id was issued below the counter, and the yield interval is never
/// zero (the engine rejects a zero interval).
pub open spec fn lunatic_inv(v: LunaticView) -> bool {
    &&& registry_inv(v.registry)
    &&& tracker_inv(v.tracker)
    &&& forall|p: u64| #[trigger] v.tracker.started.dom().contains(p) ==> p < v.next_process_id
    &&& v.fuel_yield_every >= 1
}

/// One accepted spawn: `pid` is the process counter's value before the call,
/// the counter advanced by exactly one, and nothing else changed.
pub open spec fn spawn_ok(pre: LunaticView, post: LunaticView, pid: u64) -> bool {
    &&& pid == pre.next_process_id
    &&& post.next_process_id == pre.next_process_id + 1
    &&& post.registry == pre.registry
    &&& post.tracker == pre.tracker
    &&& post.fuel_budget == pre.fuel_budget
    &&& post.fuel_yield_every == pre.fuel_yield_every
}

pub struct Lunatic {
    registry: ModuleRegistry,
    tracker: LifecycleTracker,
    sender: tokio::sync::mpsc::UnboundedSender<(u64, u64)>,
    next_process_id: u64,
    policy: FuelPolicy,
}

impl View for Lunatic {
    type V = LunaticView;

    closed spec fn view(&self) -> LunaticView {
        LunaticView {
            registry: self.registry@,
            tracker: self.tracker@,
            next_process_id: self.next_process_id,
            fuel_budget: self.policy.budget,
            fuel_yield_every: self.policy.yield_every,
        }
    }
}

impl Lunatic {
    /// Builds the kernel and hands back the consumer half of the dispatch
    /// queue for the embedder's scheduler loop. Returns `None` only when the
    /// sandbox engine rejects its configuration.
    pub fn new(policy: FuelPolicy) -> (r: Option<
        (Self, tokio::sync::mpsc::UnboundedReceiver<(u64, u64)>),
    >)
        requires
            policy.yield_every >= 1,
        ensures
            r matches Some(pair) ==> {
                &&& lunatic_inv(pair.0@)
                &&& pair.0@.next_process_id == 0
                &&& pair.0@.registry.next_module_id == 0
                &&& pair.0@.registry.modules =~= Set::<u64>::empty()
                &&& pair.0@.tracker.started =~= Map::<u64, u64>::empty()
                &&& pair.0@.tracker.ended =~= Map::<u64, u64>::empty()
                &&& pair.0@.fuel_budget == policy.budget
                &&& pair.0@.fuel_yield_every == policy.yield_every
            },
    {
        let registry = match ModuleRegistry::new() {
            Some(reg) => reg,
            None => {
                return None;
            },
        };
        let (sender, receiver) = request_channel();
        let lunatic = Lunatic {
            registry,
            tracker: LifecycleTracker::new(),
            sender,
            next_process_id: 0,
            policy,
        };
        Some((lunatic, receiver))
    }

    /// Registers a module: compiles the bytes, stores the compiled module and
    /// its instantiation template under the next module id, and returns that
    /// id; `CompilationFailed` -- with nothing stored and no id consumed --
    /// exactly when the engine rejects the bytes or cannot link the module.
    pub fn load(&mut self, bytes: &[u8]) -> (r: Result<u64, SchedulerError>)
        requires
            lunatic_inv(old(self)@),
            old(self)@.registry.next_module_id < u64::MAX,
        ensures
            lunatic_inv(final(self)@),
            final(self)@.tracker == old(self)@.tracker,
            final(self)@.next_process_id == old(self)@.next_process_id,
            final(self)@.fuel_budget == old(self)@.fuel_budget,
            final(self)@.fuel_yield_every == old(self)@.fuel_yield_every,
            r matches Ok(id) ==> register_ok(old(self)@.registry, final(self)@.registry, id),
            r matches Err(e) ==> e == SchedulerError::CompilationFailed && final(self)@ == old(
                self,
            )@,
    {
        self.registry.register(bytes)
    }

    /// Requests a spawn of module `module_id`: issues the next process id and
    /// enqueues the request for the scheduler loop. `UnknownModule` -- with
    /// nothing issued or enqueued -- exactly when the module is not
    /// registered; `SchedulerClosed` when the consumer half of the queue is
    /// gone, in which case the issued id is consumed but never runs.
    pub fn start(&mut self, module_id: u64) -> (r: Result<u64, SchedulerError>)
        requires
            lunatic_inv(old(self)@),
            old(self)@.next_process_id < u64::MAX,
        ensures
            lunatic_inv(final(self)@),
            !old(self)@.registry.modules.contains(module_id) ==> r == Err::<
                u64,
                SchedulerError,
            >(SchedulerError::UnknownModule) && final(self)@ == old(self)@,
            r matches Ok(pid) ==> old(self)@.registry.modules.contains(module_id) && spawn_ok(
                old(self)@,
                final(self)@,
                pid,
            ),
            r matches Err(e) ==> e == SchedulerError::UnknownModule || e
                == SchedulerError::SchedulerClosed,
            r == Err::<u64, SchedulerError>(SchedulerError::UnknownModule)
                ==> !old(self)@.registry.modules.contains(module_id) && final(self)@ == old(
                self,
            )@,
            r == Err::<u64, SchedulerError>(SchedulerError::SchedulerClosed) ==> old(
                self,
            )@.registry.modules.contains(module_id) && spawn_ok(
                old(self)@,
                final(self)@,
                old(self)@.next_process_id,
            ),
    {
        if !self.registry.contains(module_id) {
            return Err(SchedulerError::UnknownModule);
        }
        let pid = self.next_process_id;
        self.next_process_id = pid + 1;
        match send_request(&self.sender, module_id, pid) {
            Ok(()) => Ok(pid),
            Err(()) => Err(SchedulerError::SchedulerClosed),
        }
    }

    /// The runner's first half, called by the scheduler loop when a request
    /// is dequeued: records the start timestamp, looks up the module's
    /// template and prepares a fuel-metered store for one instance. On a
    /// lookup or store failure the process is ended immediately as
    /// `InstantiationFailed`; otherwise the embedder instantiates the
    /// template in the store, calls the entry point, and hands the outcome to
    /// `finish_run`.
    pub fn begin_run(&mut self, module_id: u64, pid: u64) -> (r: Result<
        (wasmtime::InstancePre<()>, wasmtime::Store<()>),
        SchedulerError,
    >)
        requires
            lunatic_inv(old(self)@),
            !old(self)@.tracker.started.dom().contains(pid),
            pid < old(self)@.next_process_id,
        ensures
            lunatic_inv(final(self)@),
            final(self)@.registry == old(self)@.registry,
            final(self)@.next_process_id == old(self)@.next_process_id,
            final(self)@.fuel_budget == old(self)@.fuel_budget,
            final(self)@.fuel_yield_every == old(self)@.fuel_yield_every,
            final(self)@.tracker.started == old(self)@.tracker.started.insert(
                pid,
                final(self)@.tracker.started[pid],
            ),
            r is Ok ==> old(self)@.registry.modules.contains(module_id) && final(self)@.tracker.ended
                == old(self)@.tracker.ended,
            !old(self)@.registry.modules.contains(module_id) ==> r == Err::<
                (wasmtime::InstancePre<()>, wasmtime::Store<()>),
                SchedulerError,
            >(SchedulerError::InstantiationFailed),
            r matches Err(e) ==> e == SchedulerError::InstantiationFailed && final(self)@.tracker.ended
                == old(self)@.tracker.ended.insert(pid, final(self)@.tracker.ended[pid]),
    {
        self.tracker.mark_started(pid);
        let template = match self.registry.template_for(module_id) {
            Ok(t) => t,
            Err(_) => {
                self.tracker.mark_ended(pid);
                return Err(SchedulerError::InstantiationFailed);
            },
        };
        let store = match self.registry.prepare_store(self.policy.budget, self.policy.yield_every)
            {
            Ok(s) => s,
            Err(()) => {
                self.tracker.mark_ended(pid);
                return Err(SchedulerError::InstantiationFailed);
            },
        };
        Ok((template, store))
    }

    /// The runner's second half: records the end timestamp exactly once,
    /// whatever the outcome was, and classifies an engine fault -- fuel
    /// exhaustion becomes `OutOfFuel`, every other fault a `Trap` carrying
    /// the engine's message. A successful outcome is handed back unchanged.
    pub fn finish_run(&mut self, pid: u64, outcome: Result<u64, wasmtime::Error>) -> (r: Result<
        u64,
        SchedulerError,
    >)
        requires
            lunatic_inv(old(self)@),
            old(self)@.tracker.started.dom().contains(pid),
            !old(self)@.tracker.ended.dom().contains(pid),
        ensures
            lunatic_inv(final(self)@),
            final(self)@.registry == old(self)@.registry,
            final(self)@.next_process_id == old(self)@.next_process_id,
            final(self)@.fuel_budget == old(self)@.fuel_budget,
            final(self)@.fuel_yield_every == old(self)@.fuel_yield_every,
            final(self)@.tracker.started == old(self)@.tracker.started,
            final(self)@.tracker.ended == old(self)@.tracker.ended.insert(
                pid,
                final(self)@.tracker.ended[pid],
            ),
            old(self)@.tracker.started[pid] <= final(self)@.tracker.ended[pid],
            outcome matches Ok(v) ==> r == Ok::<u64, SchedulerError>(v),
            outcome is Err ==> (r matches Err(e) && (e is OutOfFuel || e is Trap)),
    {
        let r = match outcome {
            Ok(v) => Ok(v),
            Err(e) => Err(classify_failure(e)),
        };
        self.tracker.mark_ended(pid);
        r
    }

    /// The next process id that `start` would issue.
    pub fn next_process_id(&self) -> (n: u64)
        ensures
            n == self@.next_process_id,
    {
        self.next_process_id
    }

    /// The next module id that `load` would assign.
    pub fn next_module_id(&self) -> (n: u64)
        ensures
            n == self@.registry.next_module_id,
    {
        self.registry.next_module_id()
    }

    /// Whether `pid` has a recorded start.
    pub fn has_started(&self, pid: u64) -> (r: bool)
        ensures
            r == self@.tracker.started.dom().contains(pid),
    {
        self.tracker.has_started(pid)
    }

    /// Whether `pid` has a recorded end.
    pub fn has_ended(&self, pid: u64) -> (r: bool)
        ensures
            r == self@.tracker.ended.dom().contains(pid),
    {
        self.tracker.has_ended(pid)
    }

    /// How many processes have a recorded start.
    pub fn started_count(&self) -> (n: usize)
        ensures
            n == self@.tracker.started.dom().len(),
    {
        self.tracker.started_count()
    }

    /// How many processes have a recorded end.
    pub fn ended_count(&self) -> (n: usize)
        ensures
            n == self@.tracker.ended.dom().len(),
    {
        self.tracker.ended_count()
    }

    /// One consistent reading of every lifecycle record: each started
    /// process appears exactly once as `(pid, start, end-or-none)`.
    pub fn snapshot(&mut self) -> (v: Vec<(u64, u64, Option<u64>)>)
        requires
            lunatic_inv(old(self)@),
        ensures
            final(self)@ == old(self)@,
            v@.len() == old(self)@.tracker.started.dom().len(),
            forall|i: int|
                0 <= i < v@.len() ==> {
                    &&& old(self)@.tracker.started.dom().contains(#[trigger] v@[i].0)
                    &&& v@[i].1 == old(self)@.tracker.started[v@[i].0]
                    &&& v@[i].2 == (if old(self)@.tracker.ended.dom().contains(v@[i].0) {
                        Some(old(self)@.tracker.ended[v@[i].0])
                    } else {
                        None::<u64>
                    })
                },
            forall|i: int, j: int|
                0 <= i < v@.len() && 0 <= j < v@.len() && i != j ==> v@[i].0 != v@[j].0,
            forall|k: u64|
                #[trigger] old(self)@.tracker.started.dom().contains(k) ==> exists|i: int|
                    0 <= i < v@.len() && v@[i].0 == k,
    {
        self.tracker.snapshot()
    }
}

/// Law: across any chain of accepted spawns, the issued process ids are
/// pairwise distinct and strictly increase in issuance order. `views` is the
/// sequence of kernel states, `ids[i]` the process id issued by the step from
/// `views[i]` to `views[i + 1]`.
pub proof fn lemma_spawned_ids_strictly_increase(views: Seq<LunaticView>, ids: Seq<u64>)
    requires
        views.len() == ids.len() + 1,
        forall|i: int| 0 <= i < ids.len() ==> spawn_ok(views[i], views[i + 1], #[trigger] ids[i]),
    ensures
        forall|i: int, j: int| 0 <= i < j < ids.len() ==> ids[i] < ids[j],
{
    assert forall|i: int, j: int| 0 <= i < j < ids.len() implies ids[i] < ids[j] by {
        lemma_spawn_counter_monotone(views, ids, i + 1, j);
        assert(spawn_ok(views[i], views[i + 1], ids[i]));
        assert(spawn_ok(views[j], views[j + 1], ids[j]));
    }
}

/// Law: a batch of accepted spawns issues pairwise distinct process ids, and
/// once the tracker holds an end record for exactly those ids -- that is,
/// every runner of the batch finished -- the ended count equals the batch
/// size.
pub proof fn lemma_spawned_batch_completion(
    views: Seq<LunaticView>,
    ids: Seq<u64>,
    t: TrackerView,
)
    requires
        views.len() == ids.len() + 1,
        forall|i: int| 0 <= i < ids.len() ==> spawn_ok(views[i], views[i + 1], #[trigger] ids[i]),
        tracker_inv(t),
        t.ended.dom() =~= ids.to_set(),
    ensures
        ids.no_duplicates(),
        t.ended.dom().len() == ids.len(),
{
    lemma_spawned_ids_strictly_increase(views, ids);
    assert forall|i: int, j: int|
        0 <= i < ids.len() && 0 <= j < ids.len() && i != j implies ids[i] != ids[j] by {
        if i < j {
            assert(ids[i] < ids[j]);
        } else {
            assert(ids[j] < ids[i]);
        }
    }
    crate::tracker::lemma_ended_count_of_batch(t, ids);
}

proof fn lemma_spawn_counter_monotone(views: Seq<LunaticView>, ids: Seq<u64>, i: int, j: int)
    requires
        views.len() == ids.len() + 1,
        forall|k: int| 0 <= k < ids.len() ==> spawn_ok(views[k], views[k + 1], #[trigger] ids[k]),
        0 <= i <= j < views.len(),
    ensures
        views[i].next_process_id <= views[j].next_process_id,
    decreases j - i,
{
    if i < j {
        lemma_spawn_counter_monotone(views, ids, i, j - 1);
        assert(spawn_ok(views[j - 1], views[j], ids[j - 1]));
    }
}

} // verus!
