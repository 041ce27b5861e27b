//! The interface registry: the symbolic names of the multicast groups that a
//! node has joined, each with its locator and its group address.

use vstd::prelude::*;
use vstd::string::StringExecFns;
use crate::error::ErrorKind;

verus! {

/// Name of the interface of the shared name service.
pub open spec fn dns_name() -> Seq<char> {
    "dns"@
}

/// Name of the interface on which log lines are sent.
pub open spec fn log_name() -> Seq<char> {
    "log"@
}

/// An interface as a mathematical value: name, locator, group address.
pub type InterfaceView = (Seq<char>, u64, u128);

pub open spec fn interface_view(e: (String, (u64, u128))) -> InterfaceView {
    (e.0@, e.1.0, e.1.1)
}

/// The registry. Interfaces are kept in the order in which they were
/// entered, and no name occurs twice.
#[derive(Debug, Clone)]
pub struct InterfaceTable {
    pub entries: Vec<(String, (u64, u128))>,
}

impl View for InterfaceTable {
    type V = Seq<InterfaceView>;

    open spec fn view(&self) -> Seq<InterfaceView> {
        self.entries@.map_values(|e: (String, (u64, u128))| interface_view(e))
    }
}

/// Whether no two interfaces of `s` bear the same name.
pub open spec fn names_distinct(s: Seq<InterfaceView>) -> bool {
    forall|i: int, j: int| 0 <= i < j < s.len() ==> (#[trigger] s[i]).0 != (#[trigger] s[j]).0
}

/// Whether `s` has an interface called `name`.
pub open spec fn has_name(s: Seq<InterfaceView>, name: Seq<char>) -> bool {
    exists|i: int| 0 <= i < s.len() && (#[trigger] s[i]).0 == name
}

/// Whether `s` has an interface on `locator`.
pub open spec fn has_locator(s: Seq<InterfaceView>, locator: u64) -> bool {
    exists|i: int| 0 <= i < s.len() && (#[trigger] s[i]).1 == locator
}

/// Position of the first interface of `s` on `locator`; `s.len()` if there is none.
pub open spec fn first_on(s: Seq<InterfaceView>, locator: u64) -> int
    decreases s.len(),
{
    if s.len() == 0 {
        0
    } else if s[0].1 == locator {
        0
    } else {
        1 + first_on(s.drop_first(), locator)
    }
}

/// Position of the interface of `s` called `name`; `s.len()` if there is none.
pub open spec fn position_of(s: Seq<InterfaceView>, name: Seq<char>) -> int
    decreases s.len(),
{
    if s.len() == 0 {
        0
    } else if s[0].0 == name {
        0
    } else {
        1 + position_of(s.drop_first(), name)
    }
}

/// The interfaces of `s` that stand for a network: all but the name
/// service and the log, in order.
pub open spec fn networks_of(s: Seq<InterfaceView>) -> Seq<InterfaceView>
    decreases s.len(),
{
    if s.len() == 0 {
        Seq::empty()
    } else {
        let rest = networks_of(s.drop_last());
        if s.last().0 != dns_name() && s.last().0 != log_name() {
            rest.push(s.last())
        } else {
            rest
        }
    }
}

/// The locators on which a node listens for control messages: those of all
/// its interfaces but the log, in order.
pub open spec fn locators_of(s: Seq<InterfaceView>) -> Seq<u64>
    decreases s.len(),
{
    if s.len() == 0 {
        Seq::empty()
    } else {
        let rest = locators_of(s.drop_last());
        if s.last().0 != log_name() {
            rest.push(s.last().1)
        } else {
            rest
        }
    }
}

/// Locator of the interface of `s` called `name`.
pub open spec fn locator_of(s: Seq<InterfaceView>, name: Seq<char>) -> u64 {
    s[position_of(s, name)].1
}

/// Group address of the interface of `s` called `name`.
pub open spec fn group_of(s: Seq<InterfaceView>, name: Seq<char>) -> u128 {
    s[position_of(s, name)].2
}

pub proof fn lemma_position_of(s: Seq<InterfaceView>, name: Seq<char>)
    ensures
        0 <= position_of(s, name) <= s.len(),
        has_name(s, name) <==> position_of(s, name) < s.len(),
        position_of(s, name) < s.len() ==> s[position_of(s, name)].0 == name,
        forall|j: int| 0 <= j < position_of(s, name) ==> (#[trigger] s[j]).0 != name,
    decreases s.len(),
{
    if s.len() == 0 {
    } else if s[0].0 == name {
    } else {
        let t = s.drop_first();
        lemma_position_of(t, name);
        assert forall|j: int| 0 <= j < position_of(s, name) implies (#[trigger] s[j]).0
            != name by {
            if j > 0 {
                assert(s[j] == t[j - 1]);
            }
        }
        if has_name(s, name) {
            let i = choose|i: int| 0 <= i < s.len() && (#[trigger] s[i]).0 == name;
            assert(t[i - 1] == s[i]);
        }
        if position_of(t, name) < t.len() {
            assert(s[position_of(t, name) + 1] == t[position_of(t, name)]);
        }
    }
}

pub proof fn lemma_first_on(s: Seq<InterfaceView>, locator: u64)
    ensures
        0 <= first_on(s, locator) <= s.len(),
        has_locator(s, locator) <==> first_on(s, locator) < s.len(),
        first_on(s, locator) < s.len() ==> s[first_on(s, locator)].1 == locator,
        forall|j: int| 0 <= j < first_on(s, locator) ==> (#[trigger] s[j]).1 != locator,
    decreases s.len(),
{
    if s.len() == 0 {
    } else if s[0].1 == locator {
    } else {
        let t = s.drop_first();
        lemma_first_on(t, locator);
        assert forall|j: int| 0 <= j < first_on(s, locator) implies (#[trigger] s[j]).1
            != locator by {
            if j > 0 {
                assert(s[j] == t[j - 1]);
            }
        }
        if has_locator(s, locator) {
            let i = choose|i: int| 0 <= i < s.len() && (#[trigger] s[i]).1 == locator;
            assert(t[i - 1] == s[i]);
        }
        if first_on(t, locator) < t.len() {
            assert(s[first_on(t, locator) + 1] == t[first_on(t, locator)]);
        }
    }
}

/// Whether `s` spells the text `lit`.
pub fn is_text(s: &String, lit: &str) -> (same: bool)
    ensures
        same == (s@ == lit@),
{
    let other = String::from_str(lit);
    *s == other
}

impl InterfaceTable {
    /// No name occurs twice.
    pub open spec fn wf(&self) -> bool {
        names_distinct(self@)
    }

    /// The empty registry.
    pub fn new() -> (table: InterfaceTable)
        ensures
            table@ == Seq::<InterfaceView>::empty(),
            table.wf(),
    {
        let table = InterfaceTable { entries: Vec::new() };
        assert(table@ =~= Seq::<InterfaceView>::empty());
        table
    }

    /// Position of the interface called `name`, or the number of interfaces
    /// if there is none.
    fn find(&self, name: &String) -> (at: usize)
        ensures
            at == position_of(self@, name@),
            at <= self.entries@.len(),
    {
        let mut i: usize = 0;
        proof {
            lemma_position_of(self@, name@);
        }
        while i < self.entries.len()
            invariant
                i <= self.entries@.len(),
                self@.len() == self.entries@.len(),
                forall|j: int| 0 <= j < i ==> (#[trigger] self@[j]).0 != name@,
                0 <= position_of(self@, name@) <= self@.len(),
                position_of(self@, name@) < self@.len() ==> self@[position_of(self@, name@)].0
                    == name@,
                forall|j: int|
                    0 <= j < position_of(self@, name@) ==> (#[trigger] self@[j]).0 != name@,
                has_name(self@, name@) <==> position_of(self@, name@) < self@.len(),
            decreases self.entries@.len() - i,
        {
            if self.entries[i].0 == *name {
                assert(self@[i as int].0 == name@);
                return i;
            }
            assert(self@[i as int].0 != name@);
            i += 1;
        }
        i
    }

    /// Enters an interface. One of the same name is replaced where it
    /// stands; a new name goes to the end.
    pub fn insert(&mut self, name: String, locator: u64, multicast: u128)
        ensures
            old(self).wf() ==> final(self).wf(),
            position_of(old(self)@, name@) < old(self)@.len() ==> final(self)@ == old(self)@.update(
                position_of(old(self)@, name@),
                (name@, locator, multicast),
            ),
            position_of(old(self)@, name@) >= old(self)@.len() ==> final(self)@ == old(self)@.push(
                (name@, locator, multicast),
            ),
    {
        let at = self.find(&name);
        proof {
            lemma_position_of(self@, name@);
        }
        let ghost before = self@;
        if at < self.entries.len() {
            self.entries[at] = (name, (locator, multicast));
            assert(self@ =~= before.update(at as int, (name@, locator, multicast)));
        } else {
            self.entries.push((name, (locator, multicast)));
            assert(self@ =~= before.push((name@, locator, multicast)));
        }
    }
}

/// Locator and group address of the interface called `interface_name`.
/// Fails with `ConfigError` exactly when there is no such interface.
pub fn get_over_interface_by_name(table: &InterfaceTable, interface_name: &String) -> (r: Result<
    (u64, u128),
    ErrorKind,
>)
    ensures
        has_name(table@, interface_name@) ==> r is Ok && r->Ok_0 == (
            locator_of(table@, interface_name@),
            group_of(table@, interface_name@),
        ),
        !has_name(table@, interface_name@) ==> r is Err && r->Err_0 == ErrorKind::ConfigError,
{
    let at = table.find(interface_name);
    proof {
        lemma_position_of(table@, interface_name@);
    }
    if at < table.entries.len() {
        let e = &table.entries[at];
        assert(table@[at as int] == interface_view(*e));
        Ok((e.1.0, e.1.1))
    } else {
        Err(ErrorKind::ConfigError)
    }
}

/// Name of the first interface on `locator`. Fails with `ConfigError`
/// exactly when the node has no interface there.
pub fn get_over_interface_by_locator(table: &InterfaceTable, locator: &u64) -> (r: Result<
    String,
    ErrorKind,
>)
    ensures
        has_locator(table@, *locator) ==> r is Ok && r->Ok_0@ == table@[first_on(
            table@,
            *locator,
        )].0,
        !has_locator(table@, *locator) ==> r is Err && r->Err_0 == ErrorKind::ConfigError,
{
    let mut i: usize = 0;
    proof {
        lemma_first_on(table@, *locator);
    }
    while i < table.entries.len()
        invariant
            i <= table.entries@.len(),
            table@.len() == table.entries@.len(),
            forall|j: int| 0 <= j < i ==> (#[trigger] table@[j]).1 != *locator,
            0 <= first_on(table@, *locator) <= table@.len(),
            first_on(table@, *locator) < table@.len() ==> table@[first_on(table@, *locator)].1
                == *locator,
            forall|j: int|
                0 <= j < first_on(table@, *locator) ==> (#[trigger] table@[j]).1 != *locator,
            has_locator(table@, *locator) <==> first_on(table@, *locator) < table@.len(),
        decreases table.entries@.len() - i,
    {
        if table.entries[i].1.0 == *locator {
            assert(table@[i as int].1 == *locator);
            assert(first_on(table@, *locator) == i);
            return Ok(table.entries[i].0.clone());
        }
        assert(table@[i as int].1 != *locator);
        i += 1;
    }
    Err(ErrorKind::ConfigError)
}

/// The interfaces that stand for a network, in order: all but the name
/// service and the log.
pub fn get_over_interfaces(table: &InterfaceTable) -> (r: Vec<(String, (u64, u128))>)
    ensures
        r@.map_values(|e: (String, (u64, u128))| interface_view(e)) == networks_of(table@),
{
    let mut out: Vec<(String, (u64, u128))> = Vec::new();
    let mut i: usize = 0;
    while i < table.entries.len()
        invariant
            i <= table.entries@.len(),
            table@.len() == table.entries@.len(),
            out@.map_values(|e: (String, (u64, u128))| interface_view(e)) == networks_of(
                table@.take(i as int),
            ),
        decreases table.entries@.len() - i,
    {
        let e = &table.entries[i];
        let ghost prev = out@.map_values(|e: (String, (u64, u128))| interface_view(e));
        proof {
            assert(table@.take(i + 1).drop_last() =~= table@.take(i as int));
            assert(table@.take(i + 1).last() == interface_view(*e));
        }
        if !is_text(&e.0, "dns") && !is_text(&e.0, "log") {
            out.push((e.0.clone(), (e.1.0, e.1.1)));
            assert(out@.map_values(|e: (String, (u64, u128))| interface_view(e)) =~= prev.push(
                interface_view(*e),
            ));
        }
        i += 1;
    }
    assert(table@.take(table@.len() as int) =~= table@);
    out
}

/// The locators on which the node listens for control messages, in order:
/// those of all interfaces but the log.
pub fn get_over_locators(table: &InterfaceTable) -> (r: Vec<u64>)
    ensures
        r@ == locators_of(table@),
{
    let mut out: Vec<u64> = Vec::new();
    let mut i: usize = 0;
    while i < table.entries.len()
        invariant
            i <= table.entries@.len(),
            table@.len() == table.entries@.len(),
            out@ == locators_of(table@.take(i as int)),
        decreases table.entries@.len() - i,
    {
        let e = &table.entries[i];
        proof {
            assert(table@.take(i + 1).drop_last() =~= table@.take(i as int));
            assert(table@.take(i + 1).last() == interface_view(*e));
        }
        if !is_text(&e.0, "log") {
            out.push(e.1.0);
        }
        i += 1;
    }
    assert(table@.take(table@.len() as int) =~= table@);
    out
}


/// Every network interface of `s` is an interface of `s`.
pub proof fn lemma_networks_are_interfaces(s: Seq<InterfaceView>)
    ensures
        forall|i: int|
            0 <= i < networks_of(s).len() ==> s.contains(#[trigger] networks_of(s)[i]) && has_name(
                s,
                networks_of(s)[i].0,
            ),
    decreases s.len(),
{
    if s.len() > 0 {
        let init = s.drop_last();
        lemma_networks_are_interfaces(init);
        assert forall|i: int| 0 <= i < networks_of(s).len() implies s.contains(
            #[trigger] networks_of(s)[i],
        ) && has_name(s, networks_of(s)[i].0) by {
            let e = networks_of(s)[i];
            if i < networks_of(init).len() {
                assert(networks_of(init)[i] == e);
                assert(init.contains(e));
                let j = choose|j: int| 0 <= j < init.len() && init[j] == e;
                assert(s[j] == e);
            } else {
                assert(e == s.last());
                assert(s[s.len() - 1] == e);
            }
        }
    }
}


/// In a registry without repeated names, the first interface on a locator
/// is found again by its name, and has that locator.
pub proof fn lemma_first_on_by_name(s: Seq<InterfaceView>, locator: u64)
    requires
        names_distinct(s),
        has_locator(s, locator),
    ensures
        has_name(s, s[first_on(s, locator)].0),
        position_of(s, s[first_on(s, locator)].0) == first_on(s, locator),
        locator_of(s, s[first_on(s, locator)].0) == locator,
{
    lemma_first_on(s, locator);
    let at = first_on(s, locator);
    let name = s[at].0;
    lemma_position_of(s, name);
    let p = position_of(s, name);
    if p != at {
        if p < at {
            assert(s[p].0 == s[at].0);
        } else {
            assert(s[at].0 == name);
        }
    }
}

} // verus!
