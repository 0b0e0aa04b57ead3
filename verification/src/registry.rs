//! The module registry: it owns the compiled modules and their precomputed
//! instantiation templates, keyed by a monotonic module id that is assigned
//! at registration and never reused. Modules and templates are immutable once
//! stored and live until the registry is torn down.

use vstd::prelude::*;
use crate::errors::SchedulerError;
use crate::sandbox::{
    compile_module, config_enable_fuel, config_new, engine_new, linker_define_diagnostic,
    linker_new, prepare_template, store_new, store_set_fuel, store_set_yield_interval,
};
use crate::shared_map::{
    ModuleDashMap, TemplateDashMap, module_keys, module_map_contains, module_map_insert,
    module_map_new, template_keys, template_map_get, template_map_insert, template_map_new,
};

verus! {

/// What the registry holds: the next id to assign and the ids under which a
/// module and its template are stored.
pub struct RegistryView {
    pub next_module_id: u64,
    pub modules: Set<u64>,
    pub templates: Set<u64>,
}

/// The registry's invariant: module and template storage hold exactly the
/// same ids, every stored id was assigned below the counter, and the counter
/// only ever grows.
pub open spec fn registry_inv(v: RegistryView) -> bool {
    &&& v.modules.finite()
    &&& v.templates =~= v.modules
    &&& forall|m: u64| #[trigger] v.modules.contains(m) ==> m < v.next_module_id
}

/// One successful registration: `id` is the counter's value before the call,
/// the counter advanced by exactly one, and the module and its template were
/// stored under `id`.
pub open spec fn register_ok(pre: RegistryView, post: RegistryView, id: u64) -> bool {
    &&& id == pre.next_module_id
    &&& post.next_module_id == pre.next_module_id + 1
    &&& post.modules == pre.modules.insert(id)
    &&& post.templates == pre.templates.insert(id)
}

pub struct ModuleRegistry {
    engine: wasmtime::Engine,
    linker: wasmtime::Linker<()>,
    modules: ModuleDashMap,
    templates: TemplateDashMap,
    next_module_id: u64,
}

impl View for ModuleRegistry {
    type V = RegistryView;

    closed spec fn view(&self) -> RegistryView {
        RegistryView {
            next_module_id: self.next_module_id,
            modules: module_keys(self.modules),
            templates: template_keys(self.templates),
        }
    }
}

impl ModuleRegistry {
    /// Builds the sandbox engine with fuel metering enabled (async execution
    /// needs no switch in this engine), installs the diagnostic host import
    /// `host.hello` in the link table, and starts the id counter at zero.
    /// Returns `None` only when the engine rejects this configuration.
    pub fn new() -> (r: Option<Self>)
        ensures
            r matches Some(reg) ==> {
                &&& registry_inv(reg@)
                &&& reg@.next_module_id == 0
                &&& reg@.modules =~= Set::<u64>::empty()
            },
    {
        let mut config = config_new();
        config_enable_fuel(&mut config);
        let engine = match engine_new(&config) {
            Ok(e) => e,
            Err(()) => {
                return None;
            },
        };
        let mut linker = linker_new(&engine);
        match linker_define_diagnostic(&mut linker, "host", "hello") {
            Ok(()) => {},
            Err(()) => {
                return None;
            },
        }
        Some(
            ModuleRegistry {
                engine,
                linker,
                modules: module_map_new(),
                templates: template_map_new(),
                next_module_id: 0,
            },
        )
    }

    /// Registers `bytes`: compiles them, precomputes the instantiation
    /// template against the host link table, and stores both under the next
    /// module id. Returns that id, or `CompilationFailed` -- leaving the
    /// registry unchanged -- exactly when the engine rejects the bytes or
    /// cannot link the module's imports.
    pub fn register(&mut self, bytes: &[u8]) -> (r: Result<u64, SchedulerError>)
        requires
            registry_inv(old(self)@),
            old(self)@.next_module_id < u64::MAX,
        ensures
            registry_inv(final(self)@),
            r matches Ok(id) ==> register_ok(old(self)@, final(self)@, id),
            r matches Err(e) ==> e == SchedulerError::CompilationFailed && final(self)@ == old(
                self,
            )@,
    {
        let module = match compile_module(&self.engine, bytes) {
            Ok(m) => m,
            Err(()) => {
                return Err(SchedulerError::CompilationFailed);
            },
        };
        let template = match prepare_template(&self.linker, &module) {
            Ok(t) => t,
            Err(()) => {
                return Err(SchedulerError::CompilationFailed);
            },
        };
        let id = self.next_module_id;
        self.next_module_id = id + 1;
        module_map_insert(&mut self.modules, id, module);
        template_map_insert(&mut self.templates, id, template);
        Ok(id)
    }

    /// The next module id that `register` would assign.
    pub fn next_module_id(&self) -> (n: u64)
        ensures
            n == self@.next_module_id,
    {
        self.next_module_id
    }

    /// Whether a module is registered under `id`.
    pub fn contains(&self, id: u64) -> (r: bool)
        ensures
            r == self@.modules.contains(id),
    {
        module_map_contains(&self.modules, id)
    }

    /// Looks up the instantiation template stored under `id`, handing back a
    /// shared handle to it; `UnknownModule` exactly when `id` was never
    /// registered.
    pub fn template_for(&self, id: u64) -> (r: Result<wasmtime::InstancePre<()>, SchedulerError>)
        ensures
            r is Ok <==> self@.templates.contains(id),
            r matches Err(e) ==> e == SchedulerError::UnknownModule,
    {
        match template_map_get(&self.templates, id) {
            Some(t) => Ok(t),
            None => Err(SchedulerError::UnknownModule),
        }
    }

    /// Prepares a store for one fresh instance: the whole fuel budget is set
    /// up front and async execution yields each time `yield_every` units are
    /// consumed, so one process cannot hog a worker. Fails only if the engine
    /// refuses the fuel configuration.
    pub(crate) fn prepare_store(&self, budget: u64, yield_every: u64) -> (r: Result<
        wasmtime::Store<()>,
        (),
    >)
        requires
            yield_every >= 1,
    {
        let mut store = store_new(&self.engine);
        match store_set_fuel(&mut store, budget) {
            Ok(()) => {},
            Err(()) => {
                return Err(());
            },
        }
        match store_set_yield_interval(&mut store, yield_every) {
            Ok(()) => {},
            Err(()) => {
                return Err(());
            },
        }
        Ok(store)
    }
}

/// Law: across any chain of successful registrations, the assigned module
/// ids are pairwise distinct and strictly increase in issuance order.
/// `views` is the sequence of registry states, `ids[i]` the id assigned by
/// the step from `views[i]` to `views[i + 1]`.
pub proof fn lemma_registered_ids_strictly_increase(views: Seq<RegistryView>, ids: Seq<u64>)
    requires
        views.len() == ids.len() + 1,
        forall|i: int|
            0 <= i < ids.len() ==> register_ok(views[i], views[i + 1], #[trigger] ids[i]),
    ensures
        forall|i: int, j: int| 0 <= i < j < ids.len() ==> ids[i] < ids[j],
{
    assert forall|i: int, j: int| 0 <= i < j < ids.len() implies ids[i] < ids[j] by {
        lemma_counter_monotone(views, ids, i + 1, j);
        assert(register_ok(views[i], views[i + 1], ids[i]));
        assert(register_ok(views[j], views[j + 1], ids[j]));
    }
}

proof fn lemma_counter_monotone(views: Seq<RegistryView>, ids: Seq<u64>, i: int, j: int)
    requires
        views.len() == ids.len() + 1,
        forall|k: int|
            0 <= k < ids.len() ==> register_ok(views[k], views[k + 1], #[trigger] ids[k]),
        0 <= i <= j < views.len(),
    ensures
        views[i].next_module_id <= views[j].next_module_id,
    decreases j - i,
{
    if i < j {
        lemma_counter_monotone(views, ids, i, j - 1);
        assert(register_ok(views[j - 1], views[j], ids[j - 1]));
    }
}

} // verus!
