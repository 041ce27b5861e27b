//! The node's expiring tables: neighbours, names, bindings and routes.
//!
//! Each table states what it stores as a map, and keeps a record of the
//! lifetime that each entry was last given. Whether a stored entry has
//! expired is known to the cache alone, so a lookup promises only that what
//! it returns is stored; the functions that choose among what a lookup
//! returned are exact.

use vstd::prelude::*;
use ttl_cache::TtlCache;
use crate::error::ErrorKind;
use crate::ttl::{
    keyed_name_view,
    keyed_route_view,
    listed_in,
    binding_cache_insert,
    binding_cache_live,
    binding_cache_new,
    binding_entries,
    binding_limit,
    inserted,
    name_cache_insert,
    name_cache_live,
    name_cache_new,
    name_entries,
    name_limit,
    name_view,
    neighbour_cache_get,
    neighbour_cache_insert,
    neighbour_cache_new,
    neighbour_entries,
    neighbour_limit,
    neighbour_view,
    route_cache_get,
    route_cache_insert,
    route_cache_live,
    route_cache_new,
    route_entries,
    route_limit,
    route_view,
    NameView,
    NeighbourView,
    RouteView,
};

verus! {

/// The longest lifetime, in seconds, that an entry can be given.
pub const MAX_TTL_S: u64 = 0xffff_ffff;

/// Neighbours by identifier: interface name, underlay address, unicast port.
pub struct NeighbourTable {
    cache: TtlCache<u64, (String, u128, u16)>,
    lifetimes: Ghost<Map<u64, u64>>,
}

/// Name entries by identifier and locator: name, identifier, locator.
pub struct NameTable {
    cache: TtlCache<(u64, u64), (String, u64, u64)>,
    lifetimes: Ghost<Map<(u64, u64), u64>>,
}

/// Bindings by identifier and locator.
pub struct BindingTable {
    cache: TtlCache<(u64, u64), (u64, u64)>,
    lifetimes: Ghost<Map<(u64, u64), u64>>,
}

/// Routes by next hop and target locator: next hop, target locator,
/// interface name, hop count.
pub struct ForwardingTable {
    cache: TtlCache<(u64, u64), (u64, u64, String, u8)>,
    lifetimes: Ghost<Map<(u64, u64), u64>>,
}

/// Whether a table keeps within its limit: it stores finitely many
/// entries, and no more than it was made to hold.
pub open spec fn within_limit<K, V>(entries: Map<K, V>, limit: nat) -> bool {
    entries.dom().finite() && entries.dom().len() <= limit
}

/// The second component of each pair.
pub open spec fn values_of<K, V>(items: Seq<(K, V)>) -> Seq<V> {
    items.map_values(|e: (K, V)| e.1)
}

/// The lifetime that the cache is given for an entry that is to live `ttl`
/// seconds: that many seconds, if the cache can take them.
fn lifetime(ttl: u64) -> (r: Option<u32>)
    ensures
        ttl <= MAX_TTL_S ==> r == Some(ttl as u32),
        ttl > MAX_TTL_S ==> r is None,
{
    if ttl <= MAX_TTL_S {
        Some(ttl as u32)
    } else {
        None
    }
}

impl NeighbourTable {
    /// What the table stores.
    pub closed spec fn entries(&self) -> Map<u64, NeighbourView> {
        neighbour_entries(self.cache)
    }

    /// How many entries the table holds at most.
    pub closed spec fn limit(&self) -> nat {
        neighbour_limit(self.cache)
    }

    /// The lifetime, in seconds, that each identifier's entry was last
    /// given.
    pub closed spec fn lifetimes(&self) -> Map<u64, u64> {
        self.lifetimes@
    }

    /// The table keeps within its limit.
    #[verifier::type_invariant]
    pub closed spec fn wf(&self) -> bool {
        within_limit(neighbour_entries(self.cache), neighbour_limit(self.cache))
    }

    /// An empty table for at most `capacity` neighbours.
    pub fn new(capacity: usize) -> (table: NeighbourTable)
        ensures
            table.entries().dom() == Set::<u64>::empty(),
            table.limit() == capacity,
            table.lifetimes().dom() == Set::<u64>::empty(),
            table.wf(),
    {
        NeighbourTable { cache: neighbour_cache_new(capacity), lifetimes: Ghost(Map::empty()) }
    }

    /// Records `entry` for `nid`, to live `ttl` seconds; an older entry for
    /// `nid` is replaced. Fails with `ConfigError`, leaving the table as it
    /// was, exactly when `ttl` exceeds `MAX_TTL_S`.
    pub fn insert(&mut self, nid: u64, entry: (String, u128, u16), ttl: u64) -> (r: Result<
        (),
        ErrorKind,
    >)
        ensures
            final(self).wf(),
            final(self).limit() == old(self).limit(),
            within_limit(old(self).entries(), old(self).limit()),
            within_limit(final(self).entries(), final(self).limit()),
            ttl <= MAX_TTL_S ==> r is Ok && inserted(
                old(self).entries(),
                final(self).entries(),
                old(self).limit(),
                nid,
                neighbour_view(entry),
            ) && final(self).lifetimes() == old(self).lifetimes().insert(nid, ttl),
            ttl > MAX_TTL_S ==> r == Err::<(), ErrorKind>(ErrorKind::ConfigError)
                && *final(self) == *old(self),
    {
        proof {
            use_type_invariant(&*self);
        }
        match lifetime(ttl) {
            Some(seconds) => {
                neighbour_cache_insert(&mut self.cache, nid, entry, seconds);
                self.lifetimes = Ghost(self.lifetimes@.insert(nid, ttl));
                Ok(())
            },
            None => Err(ErrorKind::ConfigError),
        }
    }

    /// The entry for `nid`, if the table has one that has not expired.
    /// Whatever is returned is stored under `nid`.
    pub fn lookup(&self, nid: u64) -> (found: Option<(String, u128, u16)>)
        ensures
            found is Some ==> self.entries().contains_key(nid) && self.entries()[nid]
                == neighbour_view(found->Some_0),
    {
        neighbour_cache_get(&self.cache, nid)
    }
}

/// The name entries of `live` that bear `fqdn`, in order.
pub open spec fn names_for(live: Seq<NameView>, fqdn: Seq<char>) -> Seq<NameView>
    decreases live.len(),
{
    if live.len() == 0 {
        Seq::empty()
    } else {
        let rest = names_for(live.drop_last(), fqdn);
        if live.last().0 == fqdn {
            rest.push(live.last())
        } else {
            rest
        }
    }
}

/// The bindings of `live` that belong to `nid`, in order.
pub open spec fn bindings_for(live: Seq<(u64, u64)>, nid: u64) -> Seq<(u64, u64)>
    decreases live.len(),
{
    if live.len() == 0 {
        Seq::empty()
    } else {
        let rest = bindings_for(live.drop_last(), nid);
        if live.last().0 == nid {
            rest.push(live.last())
        } else {
            rest
        }
    }
}

/// Everything in `names_for(live, fqdn)` is an entry of `live` that bears
/// `fqdn`, and every such entry of `live` is in it.
pub proof fn lemma_names_for(live: Seq<NameView>, fqdn: Seq<char>)
    ensures
        forall|e: NameView|
            names_for(live, fqdn).contains(e) <==> (live.contains(e) && e.0 == fqdn),
    decreases live.len(),
{
    if live.len() > 0 {
        let init = live.drop_last();
        lemma_names_for(init, fqdn);
        let rest = names_for(init, fqdn);
        assert forall|e: NameView|
            names_for(live, fqdn).contains(e) <==> (live.contains(e) && e.0 == fqdn) by {
            if live.contains(e) {
                let i = choose|i: int| 0 <= i < live.len() && live[i] == e;
                if i < live.len() - 1 {
                    assert(init[i] == e);
                }
            }
            if init.contains(e) {
                let i = choose|i: int| 0 <= i < init.len() && init[i] == e;
                assert(live[i] == e);
            }
            if live.last().0 == fqdn {
                if e == live.last() {
                    assert(rest.push(live.last())[rest.len() as int] == e);
                    assert(live[live.len() - 1] == e);
                }
                if names_for(live, fqdn).contains(e) {
                    let i = choose|i: int|
                        0 <= i < rest.push(live.last()).len() && rest.push(live.last())[i] == e;
                    if i < rest.len() {
                        assert(rest[i] == e);
                    }
                }
                if rest.contains(e) {
                    let i = choose|i: int| 0 <= i < rest.len() && rest[i] == e;
                    assert(rest.push(live.last())[i] == e);
                }
            }
        }
    }
}

/// Everything in `bindings_for(live, nid)` is a binding of `live` that
/// belongs to `nid`, and every such binding of `live` is in it.
pub proof fn lemma_bindings_for(live: Seq<(u64, u64)>, nid: u64)
    ensures
        forall|e: (u64, u64)|
            bindings_for(live, nid).contains(e) <==> (live.contains(e) && e.0 == nid),
    decreases live.len(),
{
    if live.len() > 0 {
        let init = live.drop_last();
        lemma_bindings_for(init, nid);
        let rest = bindings_for(init, nid);
        assert forall|e: (u64, u64)|
            bindings_for(live, nid).contains(e) <==> (live.contains(e) && e.0 == nid) by {
            if live.contains(e) {
                let i = choose|i: int| 0 <= i < live.len() && live[i] == e;
                if i < live.len() - 1 {
                    assert(init[i] == e);
                }
            }
            if init.contains(e) {
                let i = choose|i: int| 0 <= i < init.len() && init[i] == e;
                assert(live[i] == e);
            }
            if live.last().0 == nid {
                if e == live.last() {
                    assert(rest.push(live.last())[rest.len() as int] == e);
                    assert(live[live.len() - 1] == e);
                }
                if bindings_for(live, nid).contains(e) {
                    let i = choose|i: int|
                        0 <= i < rest.push(live.last()).len() && rest.push(live.last())[i] == e;
                    if i < rest.len() {
                        assert(rest[i] == e);
                    }
                }
                if rest.contains(e) {
                    let i = choose|i: int| 0 <= i < rest.len() && rest[i] == e;
                    assert(rest.push(live.last())[i] == e);
                }
            }
        }
    }
}

/// The views of a list of name entries.
pub open spec fn name_views(v: Seq<(String, u64, u64)>) -> Seq<NameView> {
    v.map_values(|e: (String, u64, u64)| name_view(e))
}

/// The views of a list of routes.
pub open spec fn route_views(v: Seq<(u64, u64, String, u8)>) -> Seq<RouteView> {
    v.map_values(|e: (u64, u64, String, u8)| route_view(e))
}

/// The name entries among `live` that bear `fqdn`, in order.
pub fn select_names(live: &Vec<(String, u64, u64)>, fqdn: &String) -> (found: Vec<
    (String, u64, u64),
>)
    ensures
        name_views(found@) == names_for(name_views(live@), fqdn@),
{
    let mut found: Vec<(String, u64, u64)> = Vec::new();
    let mut i: usize = 0;
    while i < live.len()
        invariant
            i <= live@.len(),
            name_views(found@) == names_for(name_views(live@).take(i as int), fqdn@),
        decreases live@.len() - i,
    {
        let e = &live[i];
        let ghost prev = name_views(found@);
        proof {
            assert(name_views(live@).take(i + 1).drop_last() =~= name_views(live@).take(i as int));
            assert(name_views(live@).take(i + 1).last() == name_view(*e));
        }
        if e.0 == *fqdn {
            found.push((e.0.clone(), e.1, e.2));
            assert(name_views(found@) =~= prev.push(name_view(*e)));
        }
        i += 1;
    }
    assert(name_views(live@).take(live@.len() as int) =~= name_views(live@));
    found
}

/// The bindings among `live` that belong to `nid`, in order.
pub fn select_bindings(live: &Vec<(u64, u64)>, nid: u64) -> (found: Vec<(u64, u64)>)
    ensures
        found@ == bindings_for(live@, nid),
{
    let mut found: Vec<(u64, u64)> = Vec::new();
    let mut i: usize = 0;
    while i < live.len()
        invariant
            i <= live@.len(),
            found@ == bindings_for(live@.take(i as int), nid),
        decreases live@.len() - i,
    {
        let e = live[i];
        proof {
            assert(live@.take(i + 1).drop_last() =~= live@.take(i as int));
            assert(live@.take(i + 1).last() == e);
        }
        if e.0 == nid {
            found.push(e);
        }
        i += 1;
    }
    assert(live@.take(live@.len() as int) =~= live@);
    found
}

/// Whether `routes[at]` is the best route to `locator`: it leads there,
/// none of the routes that lead there has fewer hops, and none before it has
/// as few.
pub open spec fn is_best_at(routes: Seq<RouteView>, locator: u64, at: int) -> bool {
    &&& 0 <= at < routes.len()
    &&& routes[at].1 == locator
    &&& forall|j: int|
        0 <= j < routes.len() && (#[trigger] routes[j]).1 == locator ==> routes[j].3
            >= routes[at].3
    &&& forall|j: int| 0 <= j < at && (#[trigger] routes[j]).1 == locator ==> routes[j].3 > routes[at].3
}

/// Whether any of `routes` leads to `locator`.
pub open spec fn leads_to(routes: Seq<RouteView>, locator: u64) -> bool {
    exists|j: int| 0 <= j < routes.len() && (#[trigger] routes[j]).1 == locator
}

/// The best of `live` to `locator`: the route with the fewest hops, the
/// earliest of them where several have as few. Nothing exactly when none of
/// `live` leads to `locator`.
pub fn best_route(live: &Vec<(u64, u64, String, u8)>, locator: u64) -> (best: Option<
    (u64, u64, String, u8),
>)
    ensures
        best is None <==> !leads_to(route_views(live@), locator),
        best is Some ==> exists|at: int|
            is_best_at(route_views(live@), locator, at) && route_views(live@)[at] == route_view(
                best->Some_0,
            ),
{
    let ghost routes = route_views(live@);
    let mut best_at: Option<usize> = None;
    let mut i: usize = 0;
    while i < live.len()
        invariant
            i <= live@.len(),
            routes == route_views(live@),
            routes.len() == live@.len(),
            best_at is None ==> forall|j: int| 0 <= j < i ==> (#[trigger] routes[j]).1 != locator,
            best_at is Some ==> best_at->Some_0 < i && is_best_at(
                routes.take(i as int),
                locator,
                best_at->Some_0 as int,
            ),
        decreases live@.len() - i,
    {
        let ghost before = routes.take(i as int);
        let ghost after = routes.take(i + 1);
        proof {
            assert(forall|j: int| 0 <= j < i ==> after[j] == before[j]);
            assert(after[i as int] == routes[i as int]);
            assert(routes[i as int] == route_view(live@[i as int]));
        }
        if live[i].1 == locator {
            match best_at {
                None => {
                    best_at = Some(i);
                },
                Some(b) => {
                    assert(before[b as int] == routes[b as int]);
                    if live[i].3 < live[b].3 {
                        best_at = Some(i);
                    }
                },
            }
        }
        i += 1;
    }
    assert(routes.take(live@.len() as int) =~= routes);
    match best_at {
        None => {
            None
        },
        Some(b) => {
            let e = &live[b];
            assert(routes[b as int] == route_view(*e));
            assert(routes[b as int].1 == locator);
            Some((e.0, e.1, e.2.clone(), e.3))
        },
    }
}


impl NameTable {
    /// What the table stores.
    pub closed spec fn entries(&self) -> Map<(u64, u64), NameView> {
        name_entries(self.cache)
    }

    /// How many entries the table holds at most.
    pub closed spec fn limit(&self) -> nat {
        name_limit(self.cache)
    }

    /// The lifetime, in seconds, that the entry under each key was last
    /// given.
    pub closed spec fn lifetimes(&self) -> Map<(u64, u64), u64> {
        self.lifetimes@
    }

    /// The table keeps within its limit, and every entry is stored under
    /// its own identifier and locator.
    #[verifier::type_invariant]
    pub closed spec fn wf(&self) -> bool {
        &&& within_limit(name_entries(self.cache), name_limit(self.cache))
        &&& forall|k: (u64, u64)| #[trigger]
            name_entries(self.cache).contains_key(k) ==> name_entries(self.cache)[k].1 == k.0
                && name_entries(self.cache)[k].2 == k.1
    }

    /// An empty table for at most `capacity` entries.
    pub fn new(capacity: usize) -> (table: NameTable)
        ensures
            table.entries().dom() == Set::<(u64, u64)>::empty(),
            table.limit() == capacity,
            table.lifetimes().dom() == Set::<(u64, u64)>::empty(),
            table.wf(),
    {
        NameTable { cache: name_cache_new(capacity), lifetimes: Ghost(Map::empty()) }
    }
}

impl BindingTable {
    /// What the table stores.
    pub closed spec fn entries(&self) -> Map<(u64, u64), (u64, u64)> {
        binding_entries(self.cache)
    }

    /// How many entries the table holds at most.
    pub closed spec fn limit(&self) -> nat {
        binding_limit(self.cache)
    }

    /// The lifetime, in seconds, that the entry under each key was last
    /// given.
    pub closed spec fn lifetimes(&self) -> Map<(u64, u64), u64> {
        self.lifetimes@
    }

    /// The table keeps within its limit, and every binding is stored
    /// under itself.
    #[verifier::type_invariant]
    pub closed spec fn wf(&self) -> bool {
        &&& within_limit(binding_entries(self.cache), binding_limit(self.cache))
        &&& forall|k: (u64, u64)| #[trigger]
            binding_entries(self.cache).contains_key(k) ==> binding_entries(self.cache)[k] == k
    }

    /// An empty table for at most `capacity` bindings.
    pub fn new(capacity: usize) -> (table: BindingTable)
        ensures
            table.entries().dom() == Set::<(u64, u64)>::empty(),
            table.limit() == capacity,
            table.lifetimes().dom() == Set::<(u64, u64)>::empty(),
            table.wf(),
    {
        BindingTable { cache: binding_cache_new(capacity), lifetimes: Ghost(Map::empty()) }
    }
}

impl ForwardingTable {
    /// What the table stores.
    pub closed spec fn entries(&self) -> Map<(u64, u64), RouteView> {
        route_entries(self.cache)
    }

    /// How many entries the table holds at most.
    pub closed spec fn limit(&self) -> nat {
        route_limit(self.cache)
    }

    /// The lifetime, in seconds, that the entry under each key was last
    /// given.
    pub closed spec fn lifetimes(&self) -> Map<(u64, u64), u64> {
        self.lifetimes@
    }

    /// The table keeps within its limit, and every route is stored under
    /// its own next hop and target locator, so that no two stored routes
    /// share both.
    #[verifier::type_invariant]
    pub closed spec fn wf(&self) -> bool {
        &&& within_limit(route_entries(self.cache), route_limit(self.cache))
        &&& forall|k: (u64, u64)| #[trigger]
            route_entries(self.cache).contains_key(k) ==> route_entries(self.cache)[k].0 == k.0
                && route_entries(self.cache)[k].1 == k.1
    }

    /// An empty table for at most `capacity` routes.
    pub fn new(capacity: usize) -> (table: ForwardingTable)
        ensures
            table.entries().dom() == Set::<(u64, u64)>::empty(),
            table.limit() == capacity,
            table.lifetimes().dom() == Set::<(u64, u64)>::empty(),
            table.wf(),
    {
        ForwardingTable { cache: route_cache_new(capacity), lifetimes: Ghost(Map::empty()) }
    }
}

/// No two routes that a forwarding table stores share both next hop and
/// target locator: each is stored under its own.
pub proof fn lemma_routes_are_unique(table: ForwardingTable, k1: (u64, u64), k2: (u64, u64))
    requires
        table.wf(),
        table.entries().contains_key(k1),
        table.entries().contains_key(k2),
        table.entries()[k1].0 == table.entries()[k2].0,
        table.entries()[k1].1 == table.entries()[k2].1,
    ensures
        k1 == k2,
        table.entries()[k1].0 == k1.0,
        table.entries()[k1].1 == k1.1,
{
}

/// Every name entry that a name table stores is stored under its own
/// identifier and locator.
pub proof fn lemma_names_are_keyed(table: NameTable, k: (u64, u64))
    requires
        table.wf(),
        table.entries().contains_key(k),
    ensures
        table.entries()[k].1 == k.0,
        table.entries()[k].2 == k.1,
{
}

/// Every binding that a binding table stores is stored under itself.
pub proof fn lemma_bindings_are_keyed(table: BindingTable, k: (u64, u64))
    requires
        table.wf(),
        table.entries().contains_key(k),
    ensures
        table.entries()[k] == k,
{
}

/// A well-formed table keeps within its limit.
pub proof fn lemma_tables_keep_within_limit(
    neighbours: NeighbourTable,
    names: NameTable,
    bindings: BindingTable,
    routes: ForwardingTable,
)
    ensures
        neighbours.wf() ==> within_limit(neighbours.entries(), neighbours.limit()),
        names.wf() ==> within_limit(names.entries(), names.limit()),
        bindings.wf() ==> within_limit(bindings.entries(), bindings.limit()),
        routes.wf() ==> within_limit(routes.entries(), routes.limit()),
{
}

/// Whether no two of `s` share identifier and locator.
pub open spec fn bindings_distinct(s: Seq<NameView>) -> bool {
    forall|i: int, j: int|
        0 <= i < j < s.len() ==> ((#[trigger] s[i]).1, s[i].2) != ((#[trigger] s[j]).1, s[j].2)
}

/// Choosing by name among entries of which no two share identifier and
/// locator gives entries of which no two do.
pub proof fn lemma_names_for_distinct(live: Seq<NameView>, fqdn: Seq<char>)
    requires
        bindings_distinct(live),
    ensures
        bindings_distinct(names_for(live, fqdn)),
    decreases live.len(),
{
    if live.len() > 0 {
        let init = live.drop_last();
        let last = live.last();
        assert(bindings_distinct(init)) by {
            assert forall|i: int, j: int| 0 <= i < j < init.len() implies ((#[trigger] init[i]).1, init[i].2)
                != ((#[trigger] init[j]).1, init[j].2) by {
                assert(init[i] == live[i] && init[j] == live[j]);
            }
        }
        lemma_names_for_distinct(init, fqdn);
        lemma_names_for(init, fqdn);
        let rest = names_for(init, fqdn);
        if last.0 == fqdn {
            let all = rest.push(last);
            assert forall|i: int, j: int| 0 <= i < j < all.len() implies ((#[trigger] all[i]).1, all[i].2)
                != ((#[trigger] all[j]).1, all[j].2) by {
                if j < rest.len() {
                    assert(all[i] == rest[i] && all[j] == rest[j]);
                } else {
                    assert(all[i] == rest[i]);
                    assert(rest.contains(rest[i]));
                    assert(init.contains(rest[i]));
                    let k = choose|k: int| 0 <= k < init.len() && init[k] == rest[i];
                    assert(live[k] == rest[i]);
                    assert(live[live.len() - 1] == last);
                }
            }
        }
    }
}

/// Choosing by identifier among bindings of which none occurs twice gives
/// bindings of which none does.
pub proof fn lemma_bindings_for_distinct(live: Seq<(u64, u64)>, nid: u64)
    requires
        live.no_duplicates(),
    ensures
        bindings_for(live, nid).no_duplicates(),
    decreases live.len(),
{
    if live.len() > 0 {
        let init = live.drop_last();
        let last = live.last();
        assert(init.no_duplicates()) by {
            assert forall|i: int, j: int| 0 <= i < init.len() && 0 <= j < init.len() && i != j implies init[i]
                != init[j] by {
                assert(init[i] == live[i] && init[j] == live[j]);
            }
        }
        lemma_bindings_for_distinct(init, nid);
        lemma_bindings_for(init, nid);
        let rest = bindings_for(init, nid);
        if last.0 == nid {
            let all = rest.push(last);
            assert forall|i: int, j: int| 0 <= i < all.len() && 0 <= j < all.len() && i != j implies all[i]
                != all[j] by {
                if i < rest.len() && j < rest.len() {
                    assert(all[i] == rest[i] && all[j] == rest[j]);
                } else {
                    let m = if i < rest.len() { i } else { j };
                    assert(all[m] == rest[m]);
                    assert(rest.contains(rest[m]));
                    assert(init.contains(rest[m]));
                    let k = choose|k: int| 0 <= k < init.len() && init[k] == rest[m];
                    assert(live[k] == rest[m]);
                    assert(live[live.len() - 1] == last);
                }
            }
        }
    }
}

/// The name entries of a walk, without their keys.
fn name_values(live: &Vec<((u64, u64), (String, u64, u64))>) -> (out: Vec<(String, u64, u64)>)
    ensures
        name_views(out@) == values_of(
            live@.map_values(|e: ((u64, u64), (String, u64, u64))| keyed_name_view(e)),
        ),
{
    let mut out: Vec<(String, u64, u64)> = Vec::new();
    let mut i: usize = 0;
    while i < live.len()
        invariant
            i <= live@.len(),
            out@.len() == i,
            forall|j: int| 0 <= j < i ==> name_view(#[trigger] out@[j]) == name_view(live@[j].1),
        decreases live@.len() - i,
    {
        let e = &live[i];
        out.push((e.1.0.clone(), e.1.1, e.1.2));
        i += 1;
    }
    assert(name_views(out@) =~= values_of(
        live@.map_values(|e: ((u64, u64), (String, u64, u64))| keyed_name_view(e)),
    ));
    out
}

/// The bindings of a walk, without their keys.
fn binding_values(live: &Vec<((u64, u64), (u64, u64))>) -> (out: Vec<(u64, u64)>)
    ensures
        out@ == values_of(live@),
{
    let mut out: Vec<(u64, u64)> = Vec::new();
    let mut i: usize = 0;
    while i < live.len()
        invariant
            i <= live@.len(),
            out@.len() == i,
            forall|j: int| 0 <= j < i ==> #[trigger] out@[j] == live@[j].1,
        decreases live@.len() - i,
    {
        out.push(live[i].1);
        i += 1;
    }
    assert(out@ =~= values_of(live@));
    out
}

/// The routes of a walk, without their keys.
fn route_values(live: &Vec<((u64, u64), (u64, u64, String, u8))>) -> (out: Vec<
    (u64, u64, String, u8),
>)
    ensures
        route_views(out@) == values_of(
            live@.map_values(|e: ((u64, u64), (u64, u64, String, u8))| keyed_route_view(e)),
        ),
{
    let mut out: Vec<(u64, u64, String, u8)> = Vec::new();
    let mut i: usize = 0;
    while i < live.len()
        invariant
            i <= live@.len(),
            out@.len() == i,
            forall|j: int| 0 <= j < i ==> route_view(#[trigger] out@[j]) == route_view(live@[j].1),
        decreases live@.len() - i,
    {
        let e = &live[i];
        out.push((e.1.0, e.1.1, e.1.2.clone(), e.1.3));
        i += 1;
    }
    assert(route_views(out@) =~= values_of(
        live@.map_values(|e: ((u64, u64), (u64, u64, String, u8))| keyed_route_view(e)),
    ));
    out
}

/// Records that the node `entry.1` at locator `entry.2` bears the name
/// `entry.0`, to live `ttl` seconds; an older entry for the same identifier
/// and locator is replaced. Fails with `ConfigError`, leaving the table as it
/// was, exactly when `ttl` exceeds `MAX_TTL_S`.
pub fn insert_into_name_ilv_table(table: &mut NameTable, entry: (String, u64, u64), ttl: u64) -> (r:
    Result<(), ErrorKind>)
    ensures
        final(table).wf(),
        final(table).limit() == old(table).limit(),
        within_limit(old(table).entries(), old(table).limit()),
        within_limit(final(table).entries(), final(table).limit()),
        ttl <= MAX_TTL_S ==> r is Ok && inserted(
            old(table).entries(),
            final(table).entries(),
            old(table).limit(),
            (entry.1, entry.2),
            name_view(entry),
        ) && final(table).lifetimes() == old(table).lifetimes().insert((entry.1, entry.2), ttl),
        ttl > MAX_TTL_S ==> r == Err::<(), ErrorKind>(ErrorKind::ConfigError)
            && *final(table) == *old(table),
{
    proof {
        use_type_invariant(&*table);
    }
    match lifetime(ttl) {
        Some(seconds) => {
            let key = (entry.1, entry.2);
            name_cache_insert(&mut table.cache, key, entry, seconds);
            table.lifetimes = Ghost(table.lifetimes@.insert(key, ttl));
            Ok(())
        },
        None => Err(ErrorKind::ConfigError),
    }
}

/// The entries for the name `destination_fqdn` that have not expired.
/// Each one returned bears the name and is stored in the table, and no two
/// share identifier and locator. They are those of a walk over the table
/// that bear the name, in the order of the walk.
pub fn lookup_name_ilv_table(table: &NameTable, destination_fqdn: &String) -> (found: Vec<
    (String, u64, u64),
>)
    ensures
        forall|i: int|
            0 <= i < found@.len() ==> (#[trigger] found@[i]).0@ == destination_fqdn@
                && table.entries().contains_key((found@[i].1, found@[i].2))
                && table.entries()[(found@[i].1, found@[i].2)] == name_view(found@[i]),
        bindings_distinct(name_views(found@)),
        exists|live: Seq<((u64, u64), NameView)>|
            #[trigger] listed_in(table.entries(), live) && name_views(found@) == names_for(
                values_of(live),
                destination_fqdn@,
            ),
{
    proof {
        use_type_invariant(table);
    }
    let live = name_cache_live(&table.cache);
    let ghost keyed = live@.map_values(|e: ((u64, u64), (String, u64, u64))| keyed_name_view(e));
    let values = name_values(&live);
    let found = select_names(&values, destination_fqdn);
    proof {
        let vals = name_views(values@);
        assert(vals == values_of(keyed));
        assert(listed_in(table.entries(), keyed));
        assert forall|j: int| 0 <= j < vals.len() implies keyed[j].0 == ((#[trigger] vals[j]).1, vals[j].2) by {
            assert(vals[j] == keyed[j].1);
            assert(table.entries().contains_key(keyed[j].0));
        }
        assert(bindings_distinct(vals)) by {
            assert forall|i: int, j: int| 0 <= i < j < vals.len() implies ((#[trigger] vals[i]).1, vals[i].2)
                != ((#[trigger] vals[j]).1, vals[j].2) by {
                assert(keyed[i].0 != keyed[j].0);
            }
        }
        lemma_names_for_distinct(vals, destination_fqdn@);
        lemma_names_for(vals, destination_fqdn@);
        assert forall|i: int| 0 <= i < found@.len() implies (#[trigger] found@[i]).0@
            == destination_fqdn@ && table.entries().contains_key((found@[i].1, found@[i].2))
            && table.entries()[(found@[i].1, found@[i].2)] == name_view(found@[i]) by {
            let e = name_view(found@[i]);
            assert(name_views(found@)[i] == e);
            assert(names_for(vals, destination_fqdn@).contains(e));
            assert(vals.contains(e));
            let j = choose|j: int| 0 <= j < vals.len() && vals[j] == e;
            assert(keyed[j].0 == (vals[j].1, vals[j].2));
            assert(table.entries().contains_key(keyed[j].0));
        }
    }
    found
}

/// Records that the node `entry.0` is attached at locator `entry.1`, to
/// live `ttl` seconds. Fails with `ConfigError`, leaving the table as it was,
/// exactly when `ttl` exceeds `MAX_TTL_S`.
pub fn insert_into_nid_ilv_table(table: &mut BindingTable, entry: (u64, u64), ttl: u64) -> (r:
    Result<(), ErrorKind>)
    ensures
        final(table).wf(),
        final(table).limit() == old(table).limit(),
        within_limit(old(table).entries(), old(table).limit()),
        within_limit(final(table).entries(), final(table).limit()),
        ttl <= MAX_TTL_S ==> r is Ok && inserted(
            old(table).entries(),
            final(table).entries(),
            old(table).limit(),
            entry,
            entry,
        ) && final(table).lifetimes() == old(table).lifetimes().insert(entry, ttl),
        ttl > MAX_TTL_S ==> r == Err::<(), ErrorKind>(ErrorKind::ConfigError)
            && *final(table) == *old(table),
{
    proof {
        use_type_invariant(&*table);
    }
    match lifetime(ttl) {
        Some(seconds) => {
            binding_cache_insert(&mut table.cache, entry, entry, seconds);
            table.lifetimes = Ghost(table.lifetimes@.insert(entry, ttl));
            Ok(())
        },
        None => Err(ErrorKind::ConfigError),
    }
}

/// The bindings of the node `destination_nid` that have not expired. Each
/// one returned belongs to that node and is stored in the table, and none is
/// returned twice. They are those of a walk over the table that belong to
/// the node, in the order of the walk.
pub fn lookup_nid_ilv_table(table: &BindingTable, destination_nid: &u64) -> (found: Vec<
    (u64, u64),
>)
    ensures
        forall|i: int|
            0 <= i < found@.len() ==> (#[trigger] found@[i]).0 == *destination_nid
                && table.entries().contains_key(found@[i]),
        found@.no_duplicates(),
        exists|live: Seq<((u64, u64), (u64, u64))>|
            #[trigger] listed_in(table.entries(), live) && found@ == bindings_for(
                values_of(live),
                *destination_nid,
            ),
{
    proof {
        use_type_invariant(table);
    }
    let live = binding_cache_live(&table.cache);
    let values = binding_values(&live);
    let found = select_bindings(&values, *destination_nid);
    proof {
        let vals = values@;
        assert(listed_in(table.entries(), live@));
        assert forall|j: int| 0 <= j < vals.len() implies live@[j].0 == #[trigger] vals[j] by {
            assert(vals[j] == live@[j].1);
            assert(table.entries().contains_key(live@[j].0));
        }
        assert(vals.no_duplicates()) by {
            assert forall|i: int, j: int| 0 <= i < vals.len() && 0 <= j < vals.len() && i != j implies vals[i]
                != vals[j] by {
                if i < j {
                    assert(live@[i].0 != live@[j].0);
                } else {
                    assert(live@[j].0 != live@[i].0);
                }
            }
        }
        lemma_bindings_for_distinct(vals, *destination_nid);
        lemma_bindings_for(vals, *destination_nid);
        assert forall|i: int| 0 <= i < found@.len() implies (#[trigger] found@[i]).0
            == *destination_nid && table.entries().contains_key(found@[i]) by {
            let e = found@[i];
            assert(bindings_for(vals, *destination_nid).contains(e));
            assert(vals.contains(e));
            let j = choose|j: int| 0 <= j < vals.len() && vals[j] == e;
            assert(live@[j].0 == vals[j]);
            assert(table.entries().contains_key(live@[j].0));
        }
    }
    found
}

/// Records the route `entry` (next hop, target locator, interface, hop
/// count), to live `ttl` seconds; an older route with the same next hop and
/// target is replaced. Fails with `ConfigError`, leaving the table as it was,
/// exactly when `ttl` exceeds `MAX_TTL_S`.
pub fn insert_into_forwarding_table(
    table: &mut ForwardingTable,
    entry: (u64, u64, String, u8),
    ttl: u64,
) -> (r: Result<(), ErrorKind>)
    ensures
        final(table).wf(),
        final(table).limit() == old(table).limit(),
        within_limit(old(table).entries(), old(table).limit()),
        within_limit(final(table).entries(), final(table).limit()),
        ttl <= MAX_TTL_S ==> r is Ok && inserted(
            old(table).entries(),
            final(table).entries(),
            old(table).limit(),
            (entry.0, entry.1),
            route_view(entry),
        ) && final(table).lifetimes() == old(table).lifetimes().insert((entry.0, entry.1), ttl),
        ttl > MAX_TTL_S ==> r == Err::<(), ErrorKind>(ErrorKind::ConfigError)
            && *final(table) == *old(table),
{
    proof {
        use_type_invariant(&*table);
    }
    match lifetime(ttl) {
        Some(seconds) => {
            let key = (entry.0, entry.1);
            route_cache_insert(&mut table.cache, key, entry, seconds);
            table.lifetimes = Ghost(table.lifetimes@.insert(key, ttl));
            Ok(())
        },
        None => Err(ErrorKind::ConfigError),
    }
}

/// The route through the next hop `identifier` to `locator`, if the table
/// has one that has not expired; `ResolutionFailure` if not. A route that
/// is returned is the one stored for that next hop and locator.
pub fn lookup_forwarding_table(table: &ForwardingTable, identifier: &u64, locator: &u64) -> (r:
    Result<(u64, u64, String, u8), ErrorKind>)
    ensures
        r is Ok ==> table.entries().contains_key((*identifier, *locator)) && table.entries()[(
            *identifier,
            *locator,
        )] == route_view(r->Ok_0) && r->Ok_0.0 == *identifier && r->Ok_0.1 == *locator,
        r is Err ==> r->Err_0 == ErrorKind::ResolutionFailure,
{
    proof {
        use_type_invariant(table);
    }
    match route_cache_get(&table.cache, (*identifier, *locator)) {
        Some(entry) => Ok(entry),
        None => Err(ErrorKind::ResolutionFailure),
    }
}

/// The best route to `locator` among those that have not expired: see
/// `best_route`. `ResolutionFailure` if none leads there. A route that is
/// returned leads to `locator` and is stored in the table; it is the best of
/// a walk over the table.
pub fn lookup_forwarding_table_route(table: &ForwardingTable, locator: &u64) -> (r: Result<
    (u64, u64, String, u8),
    ErrorKind,
>)
    ensures
        r is Ok ==> r->Ok_0.1 == *locator && table.entries().contains_key((r->Ok_0.0, r->Ok_0.1))
            && table.entries()[(r->Ok_0.0, r->Ok_0.1)] == route_view(r->Ok_0),
        r is Err ==> r->Err_0 == ErrorKind::ResolutionFailure,
        exists|live: Seq<((u64, u64), RouteView)>|
            {
                &&& #[trigger] listed_in(table.entries(), live)
                &&& r is Err <==> !leads_to(values_of(live), *locator)
                &&& r is Ok ==> exists|at: int|
                    is_best_at(values_of(live), *locator, at) && values_of(live)[at] == route_view(
                        r->Ok_0,
                    )
            },
{
    proof {
        use_type_invariant(table);
    }
    let live = route_cache_live(&table.cache);
    let ghost keyed = live@.map_values(
        |e: ((u64, u64), (u64, u64, String, u8))| keyed_route_view(e),
    );
    let values = route_values(&live);
    assert(listed_in(table.entries(), keyed));
    assert(route_views(values@) == values_of(keyed));
    match best_route(&values, *locator) {
        Some(entry) => {
            proof {
                let e = route_view(entry);
                let at = choose|at: int|
                    is_best_at(route_views(values@), *locator, at) && route_views(values@)[at]
                        == e;
                assert(keyed[at].1 == e);
                assert(table.entries().contains_key(keyed[at].0));
            }
            Ok(entry)
        },
        None => Err(ErrorKind::ResolutionFailure),
    }
}

} // verus!
