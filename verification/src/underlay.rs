//! The underlay as the engine sees it: the multicast groups that stand for
//! networks, the interfaces that a node opens, and packets sent as they are.

use vstd::prelude::*;
use vstd::string::StringExecFns;
use crate::error::ErrorKind;
use crate::format::{decimal, decimal_digits};
use crate::interfaces::{
    get_over_interface_by_name, group_of, has_name, InterfaceView,
};
use crate::node::{MulticastDatagram, Node, UnicastDatagram};
use crate::wire::copy_range;

verus! {

/// Locator of the interface of the name service.
pub const DNS_LOCATOR: u64 = 0x0000_5353_5353;

/// The group address `ff02:0:0:<uid>:0:0:<hi>:<lo>`.
pub open spec fn group_address(uid: u16, hi: u16, lo: u16) -> u128 {
    (0xff02u128 << 112) | ((uid as u128) << 64) | ((hi as u128) << 16) | (lo as u128)
}

/// Group of the network that the small integer `n` names.
pub open spec fn network_group(uid: u16, n: u16) -> u128 {
    group_address(uid, 0, n)
}

/// Group of the name service.
pub open spec fn dns_group(uid: u16) -> u128 {
    group_address(uid, 0x5353, 0x5353)
}

/// Group on which log lines are sent.
pub open spec fn log_group(uid: u16) -> u128 {
    group_address(uid, uid, uid)
}

/// Locator of the log interface of the node `nid`.
pub open spec fn log_locator(nid: u64) -> u64 {
    (nid << 16) | nid
}

/// The group address `ff02:0:0:<uid>:0:0:<hi>:<lo>`.
pub fn multicast_group(uid: u16, hi: u16, lo: u16) -> (group: u128)
    ensures
        group == group_address(uid, hi, lo),
{
    (0xff02u128 << 112) | ((uid as u128) << 64) | ((hi as u128) << 16) | (lo as u128)
}

/// Whether `n` occurs in `s`.
pub open spec fn occurs(s: Seq<u16>, n: u16) -> bool {
    exists|j: int| 0 <= j < s.len() && s[j] == n
}

/// The networks to join: each of `networks` once, in the order of its
/// first occurrence, as its locator and its group.
pub open spec fn joins_of(uid: u16, networks: Seq<u16>) -> Seq<(u64, u128)>
    decreases networks.len(),
{
    if networks.len() == 0 {
        Seq::empty()
    } else {
        let rest = joins_of(uid, networks.drop_last());
        if occurs(networks.drop_last(), networks.last()) {
            rest
        } else {
            rest.push((networks.last() as u64, network_group(uid, networks.last())))
        }
    }
}

proof fn lemma_joins_cover(uid: u16, networks: Seq<u16>)
    ensures
        forall|n: u16|
            occurs(networks, n) <==> exists|k: int|
                0 <= k < joins_of(uid, networks).len() && (#[trigger] joins_of(uid, networks)[k]).0
                    == n,
    decreases networks.len(),
{
    if networks.len() > 0 {
        let init = networks.drop_last();
        let last = networks.last();
        lemma_joins_cover(uid, init);
        let rest = joins_of(uid, init);
        let all = joins_of(uid, networks);
        assert forall|n: u16| occurs(networks, n) <==> exists|k: int|
            0 <= k < all.len() && (#[trigger] all[k]).0 == n by {
            if occurs(networks, n) {
                let j = choose|j: int| 0 <= j < networks.len() && networks[j] == n;
                if j < init.len() {
                    assert(init[j] == n);
                    assert(occurs(init, n));
                    let k = choose|k: int| 0 <= k < rest.len() && (#[trigger] rest[k]).0 == n;
                    assert(all[k].0 == n);
                } else {
                    if occurs(init, last) {
                        let k = choose|k: int|
                            0 <= k < rest.len() && (#[trigger] rest[k]).0 == last;
                        assert(all[k].0 == n);
                    } else {
                        assert(all[rest.len() as int].0 == n);
                    }
                }
            }
            if exists|k: int| 0 <= k < all.len() && (#[trigger] all[k]).0 == n {
                let k = choose|k: int| 0 <= k < all.len() && (#[trigger] all[k]).0 == n;
                if k < rest.len() {
                    assert(rest[k].0 == n);
                    assert(occurs(init, n));
                    let j = choose|j: int| 0 <= j < init.len() && init[j] == n;
                    assert(networks[j] == n);
                } else {
                    assert(networks[networks.len() - 1] == n);
                }
            }
        }
    }
}

/// The networks to join for a node run by the user `uid`: see `joins_of`.
pub fn get_multicast_to_join(uid: u16, networks: &Vec<u16>) -> (joins: Vec<(u64, u128)>)
    ensures
        joins@ == joins_of(uid, networks@),
{
    let mut joins: Vec<(u64, u128)> = Vec::new();
    let mut i: usize = 0;
    while i < networks.len()
        invariant
            i <= networks@.len(),
            joins@ == joins_of(uid, networks@.take(i as int)),
        decreases networks@.len() - i,
    {
        let n = networks[i];
        proof {
            assert(networks@.take(i + 1).drop_last() =~= networks@.take(i as int));
            assert(networks@.take(i + 1).last() == n);
            lemma_joins_cover(uid, networks@.take(i as int));
        }
        let mut seen = false;
        let mut k: usize = 0;
        while k < joins.len()
            invariant
                k <= joins@.len(),
                seen <==> exists|j: int| 0 <= j < k && (#[trigger] joins@[j]).0 == n,
            decreases joins@.len() - k,
        {
            if joins[k].0 == n as u64 {
                seen = true;
            }
            k += 1;
        }
        if !seen {
            joins.push((n as u64, multicast_group(uid, 0, n)));
        }
        i += 1;
    }
    assert(networks@.take(networks@.len() as int) =~= networks@);
    joins
}

/// Name of the interface of the `i`-th network joined.
pub open spec fn multi_name_of(i: nat) -> Seq<char> {
    "multi"@ + decimal_digits(i)
}

/// Name of the interface of the `i`-th network joined: `multi` and the
/// number.
pub fn multi_name(i: usize) -> (name: String)
    ensures
        name@ == multi_name_of(i as nat),
{
    let mut name = String::from_str("multi");
    let digits = decimal(i as u64);
    name.append(digits.as_str());
    name
}

/// The interfaces that a node opens, in order: unless it only collects
/// logs, one for each network to join, named by its rank, and the name
/// service; always the log.
pub open spec fn interfaces_planned(uid: u16, nid: u64, networks: Seq<u16>, logger: bool) -> Seq<
    InterfaceView,
> {
    let joins = joins_of(uid, networks);
    let log = seq![("log"@, log_locator(nid), log_group(uid))];
    if logger {
        log
    } else {
        Seq::new(joins.len(), |i: int| (multi_name_of(i as nat), joins[i].0, joins[i].1)) + seq![
            ("dns"@, DNS_LOCATOR, dns_group(uid)),
        ] + log
    }
}

/// The interfaces that a node opens: see `interfaces_planned`. Each is to
/// be joined and then entered in the registry.
pub fn plan_interfaces(uid: u16, nid: u64, networks: &Vec<u16>, logger: bool) -> (plan: Vec<
    (String, (u64, u128)),
>)
    ensures
        plan@.map_values(|e: (String, (u64, u128))| crate::interfaces::interface_view(e))
            == interfaces_planned(uid, nid, networks@, logger),
{
    let mut plan: Vec<(String, (u64, u128))> = Vec::new();
    let ghost view = |e: (String, (u64, u128))| crate::interfaces::interface_view(e);
    if !logger {
        let joins = get_multicast_to_join(uid, networks);
        let mut i: usize = 0;
        while i < joins.len()
            invariant
                i <= joins@.len(),
                plan@.len() == i,
                forall|j: int|
                    0 <= j < i ==> crate::interfaces::interface_view(#[trigger] plan@[j]) == (
                        multi_name_of(j as nat),
                        joins@[j].0,
                        joins@[j].1,
                    ),
            decreases joins@.len() - i,
        {
            plan.push((multi_name(i), (joins[i].0, joins[i].1)));
            i += 1;
        }
        plan.push((String::from_str("dns"), (DNS_LOCATOR, multicast_group(uid, 0x5353, 0x5353))));
    }
    let log_locator: u64 = (nid << 16) | nid;
    plan.push((String::from_str("log"), (log_locator, multicast_group(uid, uid, uid))));
    assert(plan@.map_values(|e: (String, (u64, u128))| crate::interfaces::interface_view(e))
        =~= interfaces_planned(uid, nid, networks@, logger));
    plan
}

/// The packet `pck` for the group of the interface `interface_name`, as it
/// is. Fails with `ConfigError` exactly when the node has no such interface.
pub fn underlay_multi_tx(node: &Node, interface_name: &String, pck: &[u8]) -> (r: Result<
    MulticastDatagram,
    ErrorKind,
>)
    ensures
        has_name(node.interfaces@, interface_name@) ==> r is Ok && r->Ok_0.interface@
            == interface_name@ && r->Ok_0.group == group_of(node.interfaces@, interface_name@)
            && r->Ok_0.bytes@ == pck@ && r->Ok_0.counts is None,
        !has_name(node.interfaces@, interface_name@) ==> r is Err && r->Err_0
            == ErrorKind::ConfigError,
{
    match get_over_interface_by_name(&node.interfaces, interface_name) {
        Ok(found) => {
            let bytes = copy_range(pck, 0, pck.len());
            assert(pck@.subrange(0, pck@.len() as int) =~= pck@);
            Ok(
                MulticastDatagram {
                    interface: interface_name.clone(),
                    group: found.1,
                    bytes,
                    counts: None,
                },
            )
        },
        Err(e) => Err(e),
    }
}

/// The packet `pck` for the endpoint given, as it is.
pub fn underlay_uni_tx(destination_address: &u128, destination_port: &u16, pck: &[u8]) -> (d:
    UnicastDatagram)
    ensures
        d.address == *destination_address,
        d.port == *destination_port,
        d.bytes@ == pck@,
{
    let bytes = copy_range(pck, 0, pck.len());
    assert(pck@.subrange(0, pck@.len() as int) =~= pck@);
    UnicastDatagram { address: *destination_address, port: *destination_port, bytes }
}

} // verus!
