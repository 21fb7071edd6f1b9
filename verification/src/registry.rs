//! The connection registry: which connections are open, and through which
//! outbound channel each of them is reached.
//!
//! A channel is known here by its handle, a number that the router hands out
//! when the connection is accepted. The registry holds at most one handle for
//! each connection.

use vstd::prelude::*;
use dashmap::DashMap;
use crate::connection::ConnectionId;

verus! {

/// `dashmap::DashMap`, a concurrent hash map. Nothing is known of a value of
/// this type but what the functions below say of its entries.
#[verifier::external_type_specification]
#[verifier::external_body]
#[verifier::reject_recursive_types(K)]
#[verifier::reject_recursive_types(V)]
#[verifier::reject_recursive_types(S)]
pub struct ExDashMap<K, V, S>(DashMap<K, V, S>);

/// The entries of a map from connection values to handles.
pub uninterp spec fn spec_entries(map: DashMap<u128, u64>) -> Map<u128, u64>;

/// An empty map.
///
/// Calls `DashMap::new`. The contract claims that the new map has no entry.
#[verifier::external_body]
fn entries_new() -> (created: DashMap<u128, u64>)
    ensures
        spec_entries(created) == (Map::<u128, u64>::empty()),
{
    DashMap::new()
}

/// Puts `value` under `key`.
///
/// Calls `DashMap::insert`. The contract claims that afterwards the map holds
/// `value` under `key` and is otherwise as before, and that the value that
/// stood under `key` before, if any, is returned.
#[verifier::external_body]
fn entries_insert(map: &mut DashMap<u128, u64>, key: u128, value: u64) -> (previous: Option<u64>)
    ensures
        spec_entries(*final(map)) == spec_entries(*old(map)).insert(key, value),
        previous == spec_lookup(spec_entries(*old(map)), key),
{
    map.insert(key, value)
}

/// The value under `key`.
///
/// Calls `DashMap::get` and copies the value out of the reference it gives.
/// The contract claims that the value under `key` is returned, or `None` if
/// the map has no such key.
#[verifier::external_body]
fn entries_get(map: &DashMap<u128, u64>, key: u128) -> (found: Option<u64>)
    ensures
        found == spec_lookup(spec_entries(*map), key),
{
    map.get(&key).map(|entry| *entry.value())
}

/// Takes the entry under `key` out.
///
/// Calls `DashMap::remove`. The contract claims that afterwards the map has
/// no entry under `key` and is otherwise as before, and that the value that
/// stood under `key` before, if any, is returned.
#[verifier::external_body]
fn entries_remove(map: &mut DashMap<u128, u64>, key: u128) -> (removed: Option<u64>)
    ensures
        spec_entries(*final(map)) == spec_entries(*old(map)).remove(key),
        removed == spec_lookup(spec_entries(*old(map)), key),
{
    map.remove(&key).map(|entry| entry.1)
}

/// The value under `key`, or `None` where there is none.
pub open spec fn spec_lookup<K, V>(entries: Map<K, V>, key: K) -> Option<V> {
    if entries.contains_key(key) {
        Some(entries[key])
    } else {
        None
    }
}

/// The open connections and the handle of each one's outbound channel.
pub struct ConnectionRegistry {
    entries: DashMap<u128, u64>,
}

impl View for ConnectionRegistry {
    type V = Map<ConnectionId, u64>;

    closed spec fn view(&self) -> Map<ConnectionId, u64> {
        Map::new(
            |id: ConnectionId| spec_entries(self.entries).contains_key(id.value),
            |id: ConnectionId| spec_entries(self.entries)[id.value],
        )
    }
}

impl ConnectionRegistry {
    /// A registry without connections.
    pub fn new() -> (registry: ConnectionRegistry)
        ensures
            registry@ == Map::<ConnectionId, u64>::empty(),
    {
        let registry = ConnectionRegistry { entries: entries_new() };
        registry
    }

    /// Registers `handle` for `id`, whether or not `id` was registered
    /// before, and returns the handle that it replaces, if any.
    pub fn insert(&mut self, id: ConnectionId, handle: u64) -> (previous: Option<u64>)
        ensures
            final(self)@ == old(self)@.insert(id, handle),
            previous == spec_lookup(old(self)@, id),
    {
        let previous = entries_insert(&mut self.entries, id.value, handle);
        previous
    }

    /// The handle registered for `id`, or `None` if the connection is not
    /// open. A miss is no error.
    pub fn lookup(&self, id: ConnectionId) -> (found: Option<u64>)
        ensures
            found == spec_lookup(self@, id),
    {
        entries_get(&self.entries, id.value)
    }

    /// Removes `id`, and returns the handle that was registered for it, if
    /// any. Removing a connection that is not there changes nothing.
    pub fn remove(&mut self, id: ConnectionId) -> (removed: Option<u64>)
        ensures
            final(self)@ == old(self)@.remove(id),
            removed == spec_lookup(old(self)@, id),
    {
        let removed = entries_remove(&mut self.entries, id.value);
        removed
    }
}

/// The registry is a map: an identifier has at most one handle, the one
/// that was registered last; registering or removing one identifier leaves
/// every other as it was; and removing is idempotent.
pub proof fn lemma_registry_is_a_map(
    entries: Map<ConnectionId, u64>,
    id: ConnectionId,
    other: ConnectionId,
    handle: u64,
)
    requires
        other != id,
    ensures
        spec_lookup(entries.insert(id, handle), id) == Some(handle),
        spec_lookup(entries.insert(id, handle), other) == spec_lookup(entries, other),
        spec_lookup(entries.remove(id), id) == None::<u64>,
        spec_lookup(entries.remove(id), other) == spec_lookup(entries, other),
        entries.remove(id).remove(id) == entries.remove(id),
{
}

} // verus!
