//! Trusted view of `dashmap::DashMap`, the concurrent key-partitioned map
//! that backs the module registry and the lifecycle tracker. Each concrete
//! instantiation gets a name for its contents, and every method the kernel
//! calls gets a wrapper whose contract speaks over that name.

use vstd::prelude::*;

verus! {

#[verifier::external_type_specification]
#[verifier::external_body]
#[verifier::reject_recursive_types(K)]
#[verifier::reject_recursive_types(V)]
#[verifier::reject_recursive_types(S)]
pub struct ExDashMap<K, V, S>(dashmap::DashMap<K, V, S>);

/// A concurrent map from process id to a recorded time in nanoseconds.
pub type TimeDashMap = dashmap::DashMap<u64, u64>;

/// A concurrent map from module id to its compiled module.
pub type ModuleDashMap = dashmap::DashMap<u64, wasmtime::Module>;

/// A concurrent map from module id to its instantiation template.
pub type TemplateDashMap = dashmap::DashMap<u64, wasmtime::InstancePre<()>>;

/// What a timestamp map holds: process id to a recorded time in nanoseconds.
pub uninterp spec fn time_map(m: TimeDashMap) -> Map<u64, u64>;

/// The ids under which compiled modules are stored.
pub uninterp spec fn module_keys(m: ModuleDashMap) -> Set<u64>;

/// The ids under which instantiation templates are stored.
pub uninterp spec fn template_keys(m: TemplateDashMap) -> Set<
    u64,
>;

/// Relies on dashmap::DashMap::new: a freshly created map is empty.
#[verifier::external_body]
pub(crate) fn time_map_new() -> (r: TimeDashMap)
    ensures
        time_map(r).dom() =~= Set::<u64>::empty(),
{
    dashmap::DashMap::new()
}

/// Relies on dashmap::DashMap::insert: the map afterwards holds `v` under `k`
/// and is otherwise unchanged.
#[verifier::external_body]
pub(crate) fn time_map_insert(m: &mut TimeDashMap, k: u64, v: u64)
    ensures
        time_map(*final(m)) == time_map(*old(m)).insert(k, v),
{
    m.insert(k, v);
}

/// Relies on dashmap::DashMap::get: returns the value stored under `k`, if any.
#[verifier::external_body]
pub(crate) fn time_map_get(m: &TimeDashMap, k: u64) -> (r: Option<u64>)
    ensures
        r == if time_map(*m).dom().contains(k) {
            Some(time_map(*m)[k])
        } else {
            None::<u64>
        },
{
    match m.get(&k) {
        Some(entry) => Some(*entry.value()),
        None => None,
    }
}

/// Relies on dashmap::DashMap::len: the number of entries held.
#[verifier::external_body]
pub(crate) fn time_map_len(m: &TimeDashMap) -> (r: usize)
    ensures
        r == time_map(*m).dom().len(),
{
    m.len()
}

/// Relies on dashmap::DashMap::iter: visits every entry exactly once, in no
/// promised order, and leaves the map unchanged.
#[verifier::external_body]
pub(crate) fn time_map_pairs(m: &mut TimeDashMap) -> (r: Vec<(u64, u64)>)
    ensures
        time_map(*final(m)) == time_map(*old(m)),
        r@.len() == time_map(*old(m)).dom().len(),
        forall|i: int|
            0 <= i < r@.len() ==> time_map(*old(m)).dom().contains(#[trigger] r@[i].0) && time_map(
                *old(m),
            )[r@[i].0] == r@[i].1,
        forall|i: int, j: int|
            0 <= i < r@.len() && 0 <= j < r@.len() && i != j ==> r@[i].0 != r@[j].0,
        forall|k: u64|
            #[trigger] time_map(*old(m)).dom().contains(k) ==> exists|i: int|
                0 <= i < r@.len() && r@[i].0 == k,
{
    m.iter().map(|entry| (*entry.key(), *entry.value())).collect()
}

/// Relies on dashmap::DashMap::new: a freshly created map is empty.
#[verifier::external_body]
pub(crate) fn module_map_new() -> (m: ModuleDashMap)
    ensures
        module_keys(m) == Set::<u64>::empty(),
{
    dashmap::DashMap::new()
}

/// Relies on dashmap::DashMap::insert: the map afterwards holds an entry
/// under `k` and its other keys are unchanged.
#[verifier::external_body]
pub(crate) fn module_map_insert(
    m: &mut ModuleDashMap,
    k: u64,
    v: wasmtime::Module,
)
    ensures
        module_keys(*final(m)) == module_keys(*old(m)).insert(k),
{
    m.insert(k, v);
}

/// Relies on dashmap::DashMap::contains_key.
#[verifier::external_body]
pub(crate) fn module_map_contains(m: &ModuleDashMap, k: u64) -> (r:
    bool)
    ensures
        r == module_keys(*m).contains(k),
{
    m.contains_key(&k)
}

/// Relies on dashmap::DashMap::new: a freshly created map is empty.
#[verifier::external_body]
pub(crate) fn template_map_new() -> (m: TemplateDashMap)
    ensures
        template_keys(m) == Set::<u64>::empty(),
{
    dashmap::DashMap::new()
}

/// Relies on dashmap::DashMap::insert: the map afterwards holds an entry
/// under `k` and its other keys are unchanged.
#[verifier::external_body]
pub(crate) fn template_map_insert(
    m: &mut TemplateDashMap,
    k: u64,
    v: wasmtime::InstancePre<()>,
)
    ensures
        template_keys(*final(m)) == template_keys(*old(m)).insert(k),
{
    m.insert(k, v);
}

/// Relies on dashmap::DashMap::get and InstancePre::clone (a cheap shared
/// handle): returns the template stored under `k`, if any.
#[verifier::external_body]
pub(crate) fn template_map_get(
    m: &TemplateDashMap,
    k: u64,
) -> (r: Option<wasmtime::InstancePre<()>>)
    ensures
        r is Some == template_keys(*m).contains(k),
{
    match m.get(&k) {
        Some(entry) => Some(entry.value().clone()),
        None => None,
    }
}

} // verus!
