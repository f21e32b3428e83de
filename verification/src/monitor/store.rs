//! The two concurrent maps the registry is built on, and the task handles
//! kept in one of them.
//!
//! Nothing in this file is proved. `dashmap::DashMap` and
//! `tokio::task::JoinHandle` are opaque to the verifier; what a map holds is
//! given a name, and each function below states over those names what the
//! method it calls does. A map is changed only through a `&mut` borrow here,
//! so that what it holds is a function of the value at hand; every entry
//! that is read is copied out before the call returns, so no reference into
//! a map is ever held across two calls.

use vstd::prelude::*;
use dashmap::DashMap;
use tokio::task::JoinHandle;
use crate::monitor::status::SystemStatus;

verus! {

/// `dashmap::DashMap`, declared so that it can stand in fields and
/// signatures. Its content is not visible.
#[verifier::external_type_specification]
#[verifier::external_body]
#[verifier::reject_recursive_types(K)]
#[verifier::reject_recursive_types(V)]
#[verifier::reject_recursive_types(S)]
pub struct ExDashMap<K, V, S>(dashmap::DashMap<K, V, S>);

/// `tokio::task::JoinHandle`, the handle of a spawned task, declared so that
/// it can be stored and handed on. Its content is not visible.
#[verifier::external_type_specification]
#[verifier::external_body]
#[verifier::reject_recursive_types(T)]
pub struct ExJoinHandle<T>(tokio::task::JoinHandle<T>);

/// `tokio::task::JoinError`, which the impls of `JoinHandle` mention. No
/// value of it occurs in this crate.
#[verifier::external_type_specification]
#[verifier::external_body]
pub struct ExJoinError(tokio::task::JoinError);

/// The entries of a map of status records: each key with the record stored
/// under it.
pub uninterp spec fn records(map: DashMap<u128, SystemStatus>) -> Map<u128, SystemStatus>;

/// The keys of a map of task handles.
pub uninterp spec fn task_ids(map: DashMap<u128, JoinHandle<()>>) -> Set<u128>;

/// An empty map of records, made with `DashMap::new`.
///
/// Trusted: the new map has no entry.
#[verifier::external_body]
pub(crate) fn new_records() -> (map: DashMap<u128, SystemStatus>)
    ensures
        records(map) =~= Map::empty(),
{
    DashMap::new()
}

/// Whether a record is stored under `id`, asked with `DashMap::contains_key`.
///
/// Trusted: the answer is whether the key is among the entries.
#[verifier::external_body]
pub(crate) fn has_record(map: &DashMap<u128, SystemStatus>, id: u128) -> (found: bool)
    ensures
        found == records(*map).contains_key(id),
{
    map.contains_key(&id)
}

/// Stores `status` under `id` with `DashMap::insert`, in place of what was
/// stored there.
///
/// Trusted: afterwards the key maps to `status` and every other entry is as
/// it was.
#[verifier::external_body]
pub(crate) fn put_record(map: &mut DashMap<u128, SystemStatus>, id: u128, status: SystemStatus)
    ensures
        records(*final(map)) == records(*old(map)).insert(id, status),
{
    map.insert(id, status);
}

/// Deletes the entry under `id`, if there is one, with `DashMap::remove`.
///
/// Trusted: afterwards the key has no entry and every other entry is as it
/// was.
#[verifier::external_body]
pub(crate) fn delete_record(map: &mut DashMap<u128, SystemStatus>, id: u128)
    ensures
        records(*final(map)) == records(*old(map)).remove(id),
{
    map.remove(&id);
}

/// A copy of the record stored under `id`, looked up with `DashMap::get`.
///
/// Trusted: the copy equals the stored record; there is none exactly when
/// the key has no entry.
#[verifier::external_body]
pub(crate) fn copy_record(map: &DashMap<u128, SystemStatus>, id: u128) -> (found: Option<
    SystemStatus,
>)
    ensures
        (found is Some) == records(*map).contains_key(id),
        found is Some ==> found->Some_0 == records(*map)[id],
{
    map.get(&id).map(|entry| entry.value().clone())
}

/// The keys of all entries, collected by walking the map with
/// `DashMap::iter`.
///
/// Trusted: every key of the map occurs in the result, each once, and
/// nothing else does. The order is that of the walk and nothing is claimed
/// of it.
#[verifier::external_body]
pub(crate) fn record_ids(map: &DashMap<u128, SystemStatus>) -> (ids: Vec<u128>)
    ensures
        ids@.no_duplicates(),
        forall|id: u128| ids@.contains(id) == records(*map).contains_key(id),
{
    map.iter().map(|entry| *entry.key()).collect()
}

/// An empty map of task handles, made with `DashMap::new`.
///
/// Trusted: the new map has no key.
#[verifier::external_body]
pub(crate) fn new_tasks() -> (map: DashMap<u128, JoinHandle<()>>)
    ensures
        task_ids(map) == Set::<u128>::empty(),
{
    DashMap::new()
}

/// Stores `task` under `id` with `DashMap::insert`.
///
/// Trusted: afterwards `id` is a key and the other keys are as they were.
#[verifier::external_body]
pub(crate) fn put_task(map: &mut DashMap<u128, JoinHandle<()>>, id: u128, task: JoinHandle<()>)
    ensures
        task_ids(*final(map)) == task_ids(*old(map)).insert(id),
{
    map.insert(id, task);
}

/// Takes the handle stored under `id` out of the map with `DashMap::remove`.
///
/// Trusted: afterwards `id` is no key and the other keys are as they were; a
/// handle comes back exactly when `id` was a key.
#[verifier::external_body]
pub(crate) fn take_task(map: &mut DashMap<u128, JoinHandle<()>>, id: u128) -> (taken: Option<
    JoinHandle<()>,
>)
    ensures
        task_ids(*final(map)) == task_ids(*old(map)).remove(id),
        (taken is Some) == task_ids(*old(map)).contains(id),
{
    map.remove(&id).map(|entry| entry.1)
}

/// Asks the runtime to cancel the task behind `task`, with
/// `JoinHandle::abort`.
///
/// Trusted: the call returns. What becomes of the task is the runtime's
/// affair and nothing is stated of it.
#[verifier::external_body]
pub(crate) fn abort_task(task: &JoinHandle<()>) {
    task.abort();
}

} // verus!
