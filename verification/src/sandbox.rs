//! Trusted view of the sandboxed execution engine (wasmtime). The kernel
//! needs exactly this interface from it: compile bytes to a module, derive an
//! instantiation template bound to the host-function link table, and prepare
//! fuel-metered stores. Instantiation and the entry-point call themselves are
//! async and are performed by the embedder's runner task.

use vstd::prelude::*;
use crate::errors::SchedulerError;

verus! {

#[verifier::external_type_specification]
#[verifier::external_body]
pub struct ExConfig(wasmtime::Config);

#[verifier::external_type_specification]
#[verifier::external_body]
pub struct ExEngine(wasmtime::Engine);

#[verifier::external_type_specification]
#[verifier::external_body]
#[verifier::reject_recursive_types(T)]
pub struct ExLinker<T>(wasmtime::Linker<T>);

#[verifier::external_type_specification]
#[verifier::external_body]
pub struct ExModule(wasmtime::Module);

#[verifier::external_type_specification]
#[verifier::external_body]
#[verifier::reject_recursive_types(T)]
pub struct ExInstancePre<T>(wasmtime::InstancePre<T>);

#[verifier::external_type_specification]
#[verifier::external_body]
#[verifier::reject_recursive_types(T)]
pub struct ExStore<T: 'static>(wasmtime::Store<T>);

#[verifier::external_type_specification]
#[verifier::external_body]
pub struct ExError(wasmtime::Error);

/// Relies on wasmtime::Config::new.
#[verifier::external_body]
pub(crate) fn config_new() -> (c: wasmtime::Config) {
    wasmtime::Config::new()
}

/// Relies on wasmtime::Config::consume_fuel: makes execution consume fuel so
/// it can be budgeted and preempted cooperatively.
#[verifier::external_body]
pub(crate) fn config_enable_fuel(c: &mut wasmtime::Config) {
    c.consume_fuel(true);
}

/// Relies on wasmtime::Engine::new: builds an engine, failing on an
/// unsupported configuration.
#[verifier::external_body]
pub(crate) fn engine_new(c: &wasmtime::Config) -> (r: Result<wasmtime::Engine, ()>) {
    match wasmtime::Engine::new(c) {
        Ok(e) => Ok(e),
        Err(_) => Err(()),
    }
}

/// Relies on wasmtime::Linker::new: a fresh host-function link table.
#[verifier::external_body]
pub(crate) fn linker_new(e: &wasmtime::Engine) -> (l: wasmtime::Linker<()>) {
    wasmtime::Linker::new(e)
}

/// Relies on wasmtime::Linker::func_wrap: defines the single diagnostic host
/// import under `(ns, name)`; the host function itself does nothing. Fails on
/// an invalid or duplicate definition.
#[verifier::external_body]
pub(crate) fn linker_define_diagnostic(
    l: &mut wasmtime::Linker<()>,
    ns: &str,
    name: &str,
) -> (r: Result<(), ()>) {
    match l.func_wrap(ns, name, |_caller: wasmtime::Caller<'_, ()>, _param: i32| {}) {
        Ok(_) => Ok(()),
        Err(_) => Err(()),
    }
}

/// Relies on wasmtime::Module::new: compiles binary or text bytecode,
/// returning the error exactly when the bytes are not a valid module for this
/// engine.
#[verifier::external_body]
pub(crate) fn compile_module(e: &wasmtime::Engine, bytes: &[u8]) -> (r: Result<
    wasmtime::Module,
    (),
>) {
    match wasmtime::Module::new(e, bytes) {
        Ok(m) => Ok(m),
        Err(_) => Err(()),
    }
}

/// Relies on wasmtime::Linker::instantiate_pre: precomputes an instantiation
/// template of the module against the link table, failing when the module's
/// imports cannot be satisfied.
#[verifier::external_body]
pub(crate) fn prepare_template(
    l: &wasmtime::Linker<()>,
    m: &wasmtime::Module,
) -> (r: Result<wasmtime::InstancePre<()>, ()>) {
    match l.instantiate_pre(m) {
        Ok(pre) => Ok(pre),
        Err(_) => Err(()),
    }
}

/// Relies on wasmtime::Store::new: a fresh store for one instance.
#[verifier::external_body]
pub(crate) fn store_new(e: &wasmtime::Engine) -> (s: wasmtime::Store<()>) {
    wasmtime::Store::new(e, ())
}

/// Relies on wasmtime::Store::set_fuel: sets the store's whole fuel budget;
/// execution traps as out-of-fuel once it is consumed. Fails when fuel
/// metering is not enabled on the engine.
#[verifier::external_body]
pub(crate) fn store_set_fuel(s: &mut wasmtime::Store<()>, fuel: u64) -> (r: Result<(), ()>) {
    match s.set_fuel(fuel) {
        Ok(()) => Ok(()),
        Err(_) => Err(()),
    }
}

/// Relies on wasmtime::Store::fuel_async_yield_interval: makes async
/// execution yield to the scheduler each time `interval` units of fuel are
/// consumed. Fails when fuel is not enabled or the interval is zero.
#[verifier::external_body]
pub(crate) fn store_set_yield_interval(s: &mut wasmtime::Store<()>, interval: u64) -> (r: Result<
    (),
    (),
>) {
    match s.fuel_async_yield_interval(Some(interval)) {
        Ok(()) => Ok(()),
        Err(_) => Err(()),
    }
}

/// Relies on wasmtime::Error::downcast_ref and wasmtime::Trap::OutOfFuel:
/// fuel exhaustion is reported by the engine as the out-of-fuel trap; every
/// other engine fault becomes a trap error carrying the engine's message.
#[verifier::external_body]
pub(crate) fn classify_failure(e: wasmtime::Error) -> (k: SchedulerError)
    ensures
        k is OutOfFuel || k is Trap,
{
    match e.downcast_ref::<wasmtime::Trap>() {
        Some(wasmtime::Trap::OutOfFuel) => SchedulerError::OutOfFuel,
        _ => SchedulerError::Trap(format!("{e}")),
    }
}

} // verus!
