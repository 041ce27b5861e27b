//! The four expiring tables of a node, kept in `ttl_cache::TtlCache`.
//!
//! Nothing in this file is proved. Each function states what the cache's
//! source shows of one of its methods, over a map of the entries that the
//! cache stores. An entry that has outlived its time is still stored until
//! the cache drops it, but no lookup returns it: a lookup may therefore miss
//! a stored entry, and never returns anything that is not stored.

use vstd::prelude::*;
use ttl_cache::TtlCache;
use std::time::Duration;

verus! {

#[verifier::external_type_specification]
#[verifier::external_body]
#[verifier::reject_recursive_types(K)]
#[verifier::reject_recursive_types(V)]
#[verifier::reject_recursive_types(S)]
pub struct ExTtlCache<K: Eq + std::hash::Hash, V, S: std::hash::BuildHasher>(TtlCache<K, V, S>);

/// A neighbour as a mathematical value: interface name, address, port.
pub type NeighbourView = (Seq<char>, u128, u16);

/// A name entry as a mathematical value: name, identifier, locator.
pub type NameView = (Seq<char>, u64, u64);

/// A route as a mathematical value: next hop, target locator, interface
/// name, hop count.
pub type RouteView = (u64, u64, Seq<char>, u8);

pub open spec fn neighbour_view(e: (String, u128, u16)) -> NeighbourView {
    (e.0@, e.1, e.2)
}

pub open spec fn name_view(e: (String, u64, u64)) -> NameView {
    (e.0@, e.1, e.2)
}

pub open spec fn route_view(e: (u64, u64, String, u8)) -> RouteView {
    (e.0, e.1, e.2@, e.3)
}

/// How `insert` changes what a cache stores. `key` now maps to `value` and
/// is the youngest entry; nothing else is new or changed. The key is stored
/// afterwards unless the cache holds no entry at all; no older entry leaves
/// while there is room, and the cache stays within its limit.
pub open spec fn inserted<K, V>(
    before: Map<K, V>,
    after: Map<K, V>,
    limit: nat,
    key: K,
    value: V,
) -> bool {
    &&& after.dom().finite()
    &&& before.dom().finite() && before.dom().len() <= limit ==> after.dom().len() <= limit
    &&& forall|k: K| #[trigger]
        after.contains_key(k) ==> if k == key {
            after[k] == value
        } else {
            before.contains_key(k) && after[k] == before[k]
        }
    &&& limit > 0 ==> after.contains_key(key)
    &&& before.dom().finite() && ((before.contains_key(key) && before.dom().len() <= limit)
        || before.dom().len() < limit) ==> forall|k: K| #[trigger]
        before.contains_key(k) ==> after.contains_key(k)
}

/// What a lookup by key may return: nothing, or the value stored under the
/// key.
pub open spec fn found_in<K, V>(entries: Map<K, V>, key: K, found: Option<V>) -> bool {
    found is Some ==> entries.contains_key(key) && entries[key] == found->Some_0
}

/// What a walk over a cache returns: entries that the cache stores, each
/// with its key, and no key twice.
pub open spec fn listed_in<K, V>(entries: Map<K, V>, items: Seq<(K, V)>) -> bool {
    &&& forall|i: int|
        0 <= i < items.len() ==> entries.contains_key((#[trigger] items[i]).0)
            && entries[items[i].0] == items[i].1
    &&& forall|i: int, j: int|
        0 <= i < j < items.len() ==> (#[trigger] items[i]).0 != (#[trigger] items[j]).0
}

/// A name entry with its key, as mathematical values.
pub open spec fn keyed_name_view(e: ((u64, u64), (String, u64, u64))) -> ((u64, u64), NameView) {
    (e.0, name_view(e.1))
}

/// A route with its key, as mathematical values.
pub open spec fn keyed_route_view(e: ((u64, u64), (u64, u64, String, u8))) -> (
    (u64, u64),
    RouteView,
) {
    (e.0, route_view(e.1))
}

/// The neighbours that a cache stores, by identifier.
pub uninterp spec fn neighbour_entries(cache: TtlCache<u64, (String, u128, u16)>) -> Map<u64, NeighbourView>;

/// The number of entries that a neighbour cache was made to hold.
pub uninterp spec fn neighbour_limit(cache: TtlCache<u64, (String, u128, u16)>) -> nat;

/// The name entries that a cache stores, by identifier and locator.
pub uninterp spec fn name_entries(cache: TtlCache<(u64, u64), (String, u64, u64)>) -> Map<(u64, u64), NameView>;

/// The number of entries that a name cache was made to hold.
pub uninterp spec fn name_limit(cache: TtlCache<(u64, u64), (String, u64, u64)>) -> nat;

/// The bindings that a cache stores, by identifier and locator.
pub uninterp spec fn binding_entries(cache: TtlCache<(u64, u64), (u64, u64)>) -> Map<(u64, u64), (u64, u64)>;

/// The number of entries that a binding cache was made to hold.
pub uninterp spec fn binding_limit(cache: TtlCache<(u64, u64), (u64, u64)>) -> nat;

/// The routes that a cache stores, by next hop and target locator.
pub uninterp spec fn route_entries(cache: TtlCache<(u64, u64), (u64, u64, String, u8)>) -> Map<(u64, u64), RouteView>;

/// The number of entries that a route cache was made to hold.
pub uninterp spec fn route_limit(cache: TtlCache<(u64, u64), (u64, u64, String, u8)>) -> nat;

/// `TtlCache::new`: an empty cache that holds at most `capacity` entries.
#[verifier::external_body]
pub(crate) fn neighbour_cache_new(capacity: usize) -> (cache: TtlCache<u64, (String, u128, u16)>)
    ensures
        neighbour_entries(cache).dom() == Set::<u64>::empty(),
        neighbour_limit(cache) == capacity,
{
    TtlCache::new(capacity)
}

/// `TtlCache::insert` with a lifetime of `ttl_s` seconds: see `inserted`.
/// The lifetime is at most `u32::MAX` seconds, which the clock can add to
/// the present. The call returns; it does not unwind.
#[verifier::external_body]
pub(crate) fn neighbour_cache_insert(
    cache: &mut TtlCache<u64, (String, u128, u16)>,
    key: u64,
    value: (String, u128, u16),
    ttl_s: u32,
)
    ensures
        neighbour_limit(*final(cache)) == neighbour_limit(*old(cache)),
        inserted(
            neighbour_entries(*old(cache)),
            neighbour_entries(*final(cache)),
            neighbour_limit(*old(cache)),
            key,
            neighbour_view(value),
        ),
    no_unwind
{
    cache.insert(key, value, Duration::from_secs(u64::from(ttl_s)));
}

/// `TtlCache::get`: a copy of the value stored under `key` if it has not
/// expired, else nothing.
#[verifier::external_body]
pub(crate) fn neighbour_cache_get(cache: &TtlCache<u64, (String, u128, u16)>, key: u64) -> (found:
    Option<(String, u128, u16)>)
    ensures
        found_in(
            neighbour_entries(*cache),
            key,
            match found {
                Some(e) => Some(neighbour_view(e)),
                None => None,
            },
        ),
{
    cache.get(&key).cloned()
}

/// `TtlCache::new`: an empty cache that holds at most `capacity` entries.
#[verifier::external_body]
pub(crate) fn name_cache_new(capacity: usize) -> (cache: TtlCache<(u64, u64), (String, u64, u64)>)
    ensures
        name_entries(cache).dom() == Set::<(u64, u64)>::empty(),
        name_limit(cache) == capacity,
{
    TtlCache::new(capacity)
}

/// `TtlCache::insert` with a lifetime of `ttl_s` seconds: see `inserted`.
/// The call returns; it does not unwind.
#[verifier::external_body]
pub(crate) fn name_cache_insert(
    cache: &mut TtlCache<(u64, u64), (String, u64, u64)>,
    key: (u64, u64),
    value: (String, u64, u64),
    ttl_s: u32,
)
    ensures
        name_limit(*final(cache)) == name_limit(*old(cache)),
        inserted(
            name_entries(*old(cache)),
            name_entries(*final(cache)),
            name_limit(*old(cache)),
            key,
            name_view(value),
        ),
    no_unwind
{
    cache.insert(key, value, Duration::from_secs(u64::from(ttl_s)));
}

/// `TtlCache::iter` on a `clone` of the cache: copies of the entries that
/// have not expired, each with its key; the walk meets each key once.
#[verifier::external_body]
pub(crate) fn name_cache_live(cache: &TtlCache<(u64, u64), (String, u64, u64)>) -> (items: Vec<
    ((u64, u64), (String, u64, u64)),
>)
    ensures
        listed_in(
            name_entries(*cache),
            items@.map_values(|e: ((u64, u64), (String, u64, u64))| keyed_name_view(e)),
        ),
{
    cache.clone().iter().map(|(k, v)| (*k, v.clone())).collect()
}

/// `TtlCache::new`: an empty cache that holds at most `capacity` entries.
#[verifier::external_body]
pub(crate) fn binding_cache_new(capacity: usize) -> (cache: TtlCache<(u64, u64), (u64, u64)>)
    ensures
        binding_entries(cache).dom() == Set::<(u64, u64)>::empty(),
        binding_limit(cache) == capacity,
{
    TtlCache::new(capacity)
}

/// `TtlCache::insert` with a lifetime of `ttl_s` seconds: see `inserted`.
/// The call returns; it does not unwind.
#[verifier::external_body]
pub(crate) fn binding_cache_insert(
    cache: &mut TtlCache<(u64, u64), (u64, u64)>,
    key: (u64, u64),
    value: (u64, u64),
    ttl_s: u32,
)
    ensures
        binding_limit(*final(cache)) == binding_limit(*old(cache)),
        inserted(
            binding_entries(*old(cache)),
            binding_entries(*final(cache)),
            binding_limit(*old(cache)),
            key,
            value,
        ),
    no_unwind
{
    cache.insert(key, value, Duration::from_secs(u64::from(ttl_s)));
}

/// `TtlCache::iter` on a `clone` of the cache: copies of the entries that
/// have not expired, each with its key; the walk meets each key once.
#[verifier::external_body]
pub(crate) fn binding_cache_live(cache: &TtlCache<(u64, u64), (u64, u64)>) -> (items: Vec<
    ((u64, u64), (u64, u64)),
>)
    ensures
        listed_in(binding_entries(*cache), items@),
{
    cache.clone().iter().map(|(k, v)| (*k, *v)).collect()
}

/// `TtlCache::new`: an empty cache that holds at most `capacity` entries.
#[verifier::external_body]
pub(crate) fn route_cache_new(capacity: usize) -> (cache: TtlCache<(u64, u64), (u64, u64, String, u8)>)
    ensures
        route_entries(cache).dom() == Set::<(u64, u64)>::empty(),
        route_limit(cache) == capacity,
{
    TtlCache::new(capacity)
}

/// `TtlCache::insert` with a lifetime of `ttl_s` seconds: see `inserted`.
/// The call returns; it does not unwind.
#[verifier::external_body]
pub(crate) fn route_cache_insert(
    cache: &mut TtlCache<(u64, u64), (u64, u64, String, u8)>,
    key: (u64, u64),
    value: (u64, u64, String, u8),
    ttl_s: u32,
)
    ensures
        route_limit(*final(cache)) == route_limit(*old(cache)),
        inserted(
            route_entries(*old(cache)),
            route_entries(*final(cache)),
            route_limit(*old(cache)),
            key,
            route_view(value),
        ),
    no_unwind
{
    cache.insert(key, value, Duration::from_secs(u64::from(ttl_s)));
}

/// `TtlCache::iter` on a `clone` of the cache: copies of the entries that
/// have not expired, each with its key; the walk meets each key once.
#[verifier::external_body]
pub(crate) fn route_cache_live(cache: &TtlCache<(u64, u64), (u64, u64, String, u8)>) -> (items:
    Vec<((u64, u64), (u64, u64, String, u8))>)
    ensures
        listed_in(
            route_entries(*cache),
            items@.map_values(|e: ((u64, u64), (u64, u64, String, u8))| keyed_route_view(e)),
        ),
{
    cache.clone().iter().map(|(k, v)| (*k, v.clone())).collect()
}


/// `TtlCache::get`: a copy of the value stored under `key` if it has not
/// expired, else nothing.
#[verifier::external_body]
pub(crate) fn route_cache_get(cache: &TtlCache<(u64, u64), (u64, u64, String, u8)>, key: (u64, u64)) -> (found:
    Option<(u64, u64, String, u8)>)
    ensures
        found_in(
            route_entries(*cache),
            key,
            match found {
                Some(e) => Some(route_view(e)),
                None => None,
            },
        ),
{
    cache.get(&key).cloned()
}

} // verus!
