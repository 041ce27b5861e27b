//! Sending data: by identifier, by name, and forwarding for others.
//!
//! A transmission is a machine that works through the ways of reaching a
//! destination, one after the other, until one yields the endpoint to send
//! to. Each step makes one look at a table, through one of the resolvers,
//! and says what to do next.

use vstd::prelude::*;
use vstd::slice::slice_to_vec;
use crate::error::ErrorKind;
use crate::header::{header_bytes, INLPv6Packet};
use crate::interfaces::{
    first_on, get_over_interface_by_locator, get_over_interface_by_name, get_over_interfaces,
    has_locator, has_name, interface_view, lemma_first_on, locator_of, networks_of, InterfaceTable,
    InterfaceView,
};
use crate::node::{node_counted, MulticastDatagram, Node, UnicastDatagram};
use crate::pcb::Counter;
use crate::resolve::{
    fqdn_looked_up, handle_destination_fqdn, handle_destination_ilv, handle_destination_nid,
    handle_path_discovery, ilv_looked_up, nid_looked_up, path_looked_up, route_seen, BindingStep,
    FqdnResolver, IlvResolver, NidResolver, NidStep, PathDiscovery, PathStep,
};
use crate::tables::lookup_forwarding_table_route;
use crate::ttl::{route_view, RouteView};

use crate::wire::{len16, length16, push_all};

verus! {

/// How long to wait before the next step.
#[derive(Debug, Clone, Copy, PartialEq, Eq, Structural)]
pub enum Pause {
    Millis(u64),
    Nanos(u64),
}

/// What a step of a transmission asks for.
#[derive(Debug)]
pub enum Action {
    /// Step again at once.
    Continue,
    /// Send these packets, count each that was sent (`confirm_multicast`),
    /// wait, and step again.
    Multicast { datagrams: Vec<MulticastDatagram>, pause: Pause },
    /// Send this packet; the transmission has done its part. Once it is
    /// sent, `confirm_sent` counts it.
    Unicast(UnicastDatagram),
    /// The transmission has failed.
    Failed(ErrorKind),
}

/// A destination that may be a neighbour: its identifier, the locator it
/// shares with this node, and this node's interface there.
#[derive(Debug, Clone)]
pub struct Candidate {
    pub nid: u64,
    pub locator: u64,
    pub interface: String,
}

/// What is sent.
#[derive(Debug, Clone, Copy, PartialEq, Eq, Structural)]
pub enum Cargo {
    /// A payload of this node's application, under a new header.
    Data,
    /// A payload in transit, under the header it came with.
    Transit(INLPv6Packet),
}

/// What to try once no candidate turned out to be a neighbour.
#[derive(Debug, Clone)]
pub enum Fallback {
    /// Resolve the bindings of this identifier, then look for routes.
    Resolve(u64),
    /// Look for routes to these bindings.
    Routes(Vec<(u64, u64)>),
    /// Give up.
    Fail,
}

/// Where a transmission stands.
#[derive(Debug)]
pub enum Stage {
    /// Resolving the name to bindings.
    Names(FqdnResolver),
    /// Looking for the destination among the neighbours, candidate by
    /// candidate.
    Direct { candidates: Vec<Candidate>, index: usize, resolver: NidResolver, fallback: Fallback },
    /// Resolving the identifier to bindings.
    Bindings(IlvResolver),
    /// Looking for a known route, binding by binding.
    Routes { bindings: Vec<(u64, u64)>, index: usize },
    /// Looking for the next hop of a route among the neighbours.
    Gateway { destination: (u64, u64), source_locator: u64, resolver: NidResolver },
    /// Discovering a route, binding by binding.
    Discover { bindings: Vec<(u64, u64)>, index: usize, discovery: PathDiscovery },
    /// Nothing is left to do.
    Finished,
}

/// A transmission under way.
#[derive(Debug)]
pub struct Transmission {
    pub cargo: Cargo,
    pub payload: Vec<u8>,
    pub stage: Stage,
}

/// A data packet: the header of a packet sent by `source_nid`, with next
/// header 151 and the payload's length, then the payload.
pub open spec fn data_packet(
    source_nid: u64,
    source_locator: u64,
    destination_locator: u64,
    destination_nid: u64,
    payload: Seq<u8>,
) -> Seq<u8> {
    header_bytes(
        INLPv6Packet {
            version: 6,
            traffic_class: 0,
            flow_label: 0,
            payload_length: len16(payload.len()),
            next_header: 151,
            hop_limit: 1,
            source_locator,
            source_identifier: source_nid,
            destination_locator,
            destination_identifier: destination_nid,
        },
    ) + payload
}

/// The packet that carries `payload` as `cargo` says: a data packet from
/// `source_nid` at `source_locator` to `destination`, or the payload under
/// the header it came with, unchanged.
pub open spec fn cargo_packet(
    cargo: Cargo,
    source_nid: u64,
    source_locator: u64,
    destination: (u64, u64),
    payload: Seq<u8>,
) -> Seq<u8> {
    match cargo {
        Cargo::Data => data_packet(source_nid, source_locator, destination.1, destination.0, payload),
        Cargo::Transit(header) => header_bytes(header) + payload,
    }
}

/// Builds the packet to send: see `cargo_packet`.
pub fn build_packet(
    cargo: &Cargo,
    source_nid: u64,
    source_locator: u64,
    destination: (u64, u64),
    payload: &Vec<u8>,
) -> (bytes: Vec<u8>)
    ensures
        bytes@ == cargo_packet(*cargo, source_nid, source_locator, destination, payload@),
{
    let header = match cargo {
        Cargo::Data => INLPv6Packet::outbound(
            151,
            length16(payload.len()),
            source_locator,
            source_nid,
            destination.1,
            destination.0,
        ),
        Cargo::Transit(h) => *h,
    };
    let mut bytes = header.to_vec();
    push_all(&mut bytes, payload.as_slice());
    bytes
}

/// The node after a packet of this kind has been sent: a data packet
/// counts as one sent for the application, a packet in transit as one
/// received and one sent for others.
pub open spec fn sent_counted(node: Node, cargo: Cargo) -> Node {
    match cargo {
        Cargo::Data => node_counted(node, Counter::DataRequestTx),
        Cargo::Transit(_) => node_counted(
            node_counted(node, Counter::DataRequestForwardRx),
            Counter::DataRequestForwardTx,
        ),
    }
}

/// Counts the packet of a transmission once it has been sent.
pub fn confirm_sent(node: &mut Node, cargo: &Cargo)
    ensures
        *final(node) == sent_counted(*old(node), *cargo),
{
    match cargo {
        Cargo::Data => {
            node.pcb.count(Counter::DataRequestTx);
        },
        Cargo::Transit(_) => {
            node.pcb.count(Counter::DataRequestForwardRx);
            node.pcb.count(Counter::DataRequestForwardTx);
        },
    }
}

/// A candidate as a mathematical value: identifier, locator, interface.
pub open spec fn candidate_view(c: Candidate) -> (u64, u64, Seq<char>) {
    (c.nid, c.locator, c.interface@)
}

/// The views of a list of candidates.
pub open spec fn candidate_views(v: Seq<Candidate>) -> Seq<(u64, u64, Seq<char>)> {
    v.map_values(|c: Candidate| candidate_view(c))
}

/// The identifier `nid` as a candidate on each network interface, in order.
pub open spec fn candidates_everywhere(networks: Seq<InterfaceView>, nid: u64) -> Seq<
    (u64, u64, Seq<char>),
> {
    networks.map_values(|e: InterfaceView| (nid, e.1, e.0))
}

/// The bindings whose locator this node is attached to, in order, each
/// with the node's first interface there.
pub open spec fn candidates_among(interfaces: Seq<InterfaceView>, bindings: Seq<(u64, u64)>) -> Seq<
    (u64, u64, Seq<char>),
>
    decreases bindings.len(),
{
    if bindings.len() == 0 {
        Seq::empty()
    } else {
        let rest = candidates_among(interfaces, bindings.drop_last());
        let b = bindings.last();
        if has_locator(interfaces, b.1) {
            rest.push((b.0, b.1, interfaces[first_on(interfaces, b.1)].0))
        } else {
            rest
        }
    }
}

/// The identifier `nid` as a candidate on each network interface of the
/// node.
pub fn candidates_on_networks(interfaces: &InterfaceTable, nid: u64) -> (out: Vec<Candidate>)
    ensures
        candidate_views(out@) == candidates_everywhere(networks_of(interfaces@), nid),
{
    let networks = get_over_interfaces(interfaces);
    let ghost nets = networks_of(interfaces@);
    let mut out: Vec<Candidate> = Vec::new();
    assert(networks@.map_values(|e: (String, (u64, u128))| interface_view(e)).len()
        == networks@.len());
    let mut i: usize = 0;
    while i < networks.len()
        invariant
            i <= networks@.len(),
            networks@.len() == nets.len(),
            networks@.map_values(|e: (String, (u64, u128))| interface_view(e)) == nets,
            out@.len() == i,
            forall|j: int| 0 <= j < i ==> candidate_view(#[trigger] out@[j]) == (nid, nets[j].1, nets[j].0),
        decreases networks@.len() - i,
    {
        let e = &networks[i];
        assert(nets[i as int] == interface_view(networks@[i as int]));
        out.push(Candidate { nid, locator: e.1.0, interface: e.0.clone() });
        i += 1;
    }
    assert(candidate_views(out@) =~= candidates_everywhere(nets, nid));
    out
}

/// The bindings that may be neighbours: those whose locator the node is
/// attached to, each with the node's first interface there.
pub fn candidates_for_bindings(interfaces: &InterfaceTable, bindings: &Vec<(u64, u64)>) -> (out:
    Vec<Candidate>)
    ensures
        candidate_views(out@) == candidates_among(interfaces@, bindings@),
{
    let mut out: Vec<Candidate> = Vec::new();
    let mut i: usize = 0;
    while i < bindings.len()
        invariant
            i <= bindings@.len(),
            candidate_views(out@) == candidates_among(interfaces@, bindings@.take(i as int)),
        decreases bindings@.len() - i,
    {
        let b = bindings[i];
        let ghost prev = candidate_views(out@);
        proof {
            assert(bindings@.take(i + 1).drop_last() =~= bindings@.take(i as int));
            assert(bindings@.take(i + 1).last() == b);
            lemma_first_on(interfaces@, b.1);
        }
        match get_over_interface_by_locator(interfaces, &b.1) {
            Ok(interface) => {
                out.push(Candidate { nid: b.0, locator: b.1, interface });
                assert(candidate_views(out@) =~= prev.push(
                    (b.0, b.1, interfaces@[first_on(interfaces@, b.1)].0),
                ));
            },
            Err(_) => {},
        }
        i += 1;
    }
    assert(bindings@.take(bindings@.len() as int) =~= bindings@);
    out
}


/// Whether `out` holds `datagram` and nothing else, or nothing if there is
/// no datagram.
pub open spec fn is_single(datagram: Option<MulticastDatagram>, out: Seq<MulticastDatagram>) -> bool {
    match datagram {
        Some(d) => out == seq![d],
        None => out.len() == 0,
    }
}

/// Whether `action` is the failure `e`.
pub open spec fn is_failed(action: Action, e: ErrorKind) -> bool {
    action is Failed && action->Failed_0 == e
}

/// Whether `action` asks to send the packet for `cargo` and `payload`
/// from `source_locator` to `destination`, to the endpoint given.
pub open spec fn is_unicast(
    action: Action,
    address: u128,
    port: u16,
    cargo: Cargo,
    source_nid: u64,
    source_locator: u64,
    destination: (u64, u64),
    payload: Seq<u8>,
) -> bool {
    &&& action is Unicast
    &&& action->Unicast_0.address == address
    &&& action->Unicast_0.port == port
    &&& action->Unicast_0.bytes@ == cargo_packet(
        cargo,
        source_nid,
        source_locator,
        destination,
        payload,
    )
}

/// Whether `stage` is the search among the neighbours at candidate
/// `index`, with nothing sent for it yet.
pub open spec fn stands_at_candidate(
    stage: Stage,
    candidates: Vec<Candidate>,
    index: int,
    fallback: Fallback,
) -> bool {
    &&& stage is Direct
    &&& stage->Direct_candidates == candidates
    &&& stage->Direct_index == index
    &&& stage->Direct_fallback == fallback
    &&& stage->Direct_resolver == (NidResolver {
        destination_nid: candidates@[index].nid,
        interface_name: candidates@[index].interface,
        attempt: 0,
    })
}

/// Whether `stage` is the discovery of a route to binding `index`, not
/// yet begun.
pub open spec fn stands_at_discovery(stage: Stage, bindings: Vec<(u64, u64)>, index: int) -> bool {
    &&& stage is Discover
    &&& stage->Discover_bindings == bindings
    &&& stage->Discover_index == index
    &&& stage->Discover_discovery == (PathDiscovery {
        lookup_locator: bindings@[index].1,
        current_hop_count: 0,
        source_interface: None,
        started_ms: None,
        sent: false,
    })
}

/// What follows once no candidate turned out to be a neighbour.
pub open spec fn fell_back(fallback: Fallback, next: Stage, action: Action) -> bool {
    match fallback {
        Fallback::Resolve(nid) => next == Stage::Bindings(
            IlvResolver { destination_nid: nid, attempt: 0 },
        ) && action is Continue,
        Fallback::Routes(bindings) => next == (Stage::Routes { bindings, index: 0 })
            && action is Continue,
        Fallback::Fail => next is Finished && is_failed(action, ErrorKind::UnreachableHost),
    }
}

/// What follows at the start of the search among the neighbours: the
/// first candidate, or the fallback if there is none.
pub open spec fn direct_entered(
    candidates: Vec<Candidate>,
    fallback: Fallback,
    next: Stage,
    action: Action,
) -> bool {
    if candidates@.len() > 0 {
        stands_at_candidate(next, candidates, 0, fallback) && action is Continue
    } else {
        fell_back(fallback, next, action)
    }
}

/// What follows a step of neighbour discovery for candidate `index`. A
/// neighbour found is the endpoint: the packet goes from and to the
/// candidate's locator. A solicitation is sent and waited for. An
/// unreachable candidate gives way to the next one, the last to the
/// fallback. An index beyond the candidates leads to the fallback too.
pub open spec fn direct_advanced(
    cargo: Cargo,
    payload: Seq<u8>,
    source_nid: u64,
    candidates: Vec<Candidate>,
    index: usize,
    fallback: Fallback,
    post: NidResolver,
    step: NidStep,
    next: Stage,
    action: Action,
) -> bool {
    let c = candidates@[index as int];
    if index >= candidates@.len() {
        fell_back(fallback, next, action)
    } else {
        match step {
            NidStep::Resolved { address, port } => next is Finished && is_unicast(
                action,
                address,
                port,
                cargo,
                source_nid,
                c.locator,
                (c.nid, c.locator),
                payload,
            ),
            NidStep::Solicit { datagram, wait_ms } => next == (Stage::Direct {
                candidates,
                index,
                resolver: post,
                fallback,
            }) && action is Multicast && is_single(datagram, action->datagrams@) && action->pause
                == Pause::Millis(wait_ms),
            NidStep::Unreachable => if index + 1 < candidates@.len() {
                stands_at_candidate(next, candidates, index + 1, fallback) && action is Continue
            } else {
                fell_back(fallback, next, action)
            },
        }
    }
}

/// What follows a step of neighbour discovery for the next hop of a
/// route. A neighbour found is the endpoint: the packet goes from
/// `source_locator` to `destination`. A solicitation is sent and waited
/// for. An unreachable next hop ends the transmission.
pub open spec fn gateway_advanced(
    cargo: Cargo,
    payload: Seq<u8>,
    source_nid: u64,
    destination: (u64, u64),
    source_locator: u64,
    post: NidResolver,
    step: NidStep,
    next: Stage,
    action: Action,
) -> bool {
    match step {
        NidStep::Resolved { address, port } => next is Finished && is_unicast(
            action,
            address,
            port,
            cargo,
            source_nid,
            source_locator,
            destination,
            payload,
        ),
        NidStep::Solicit { datagram, wait_ms } => next == (Stage::Gateway {
            destination,
            source_locator,
            resolver: post,
        }) && action is Multicast && is_single(datagram, action->datagrams@) && action->pause
            == Pause::Millis(wait_ms),
        NidStep::Unreachable => next is Finished && is_failed(action, ErrorKind::UnreachableHost),
    }
}

/// What follows a step of the resolution of a name. Bindings found are
/// tried as neighbours where the node is attached to their locator, and
/// after that as targets of routes. A query is sent and waited for. A
/// failed resolution ends the transmission.
pub open spec fn names_advanced(
    interfaces: Seq<InterfaceView>,
    post: FqdnResolver,
    step: BindingStep,
    next: Stage,
    action: Action,
) -> bool {
    match step {
        BindingStep::Resolved(bindings) => {
            let candidates = candidates_among(interfaces, bindings@);
            if candidates.len() > 0 {
                &&& next is Direct
                &&& candidate_views(next->Direct_candidates@) == candidates
                &&& stands_at_candidate(
                    next,
                    next->Direct_candidates,
                    0,
                    Fallback::Routes(bindings),
                )
                &&& action is Continue
            } else {
                next == (Stage::Routes { bindings, index: 0 }) && action is Continue
            }
        },
        BindingStep::Query { datagram, wait_ms } => next == Stage::Names(post) && action is Multicast
            && is_single(datagram, action->datagrams@) && action->pause == Pause::Millis(wait_ms),
        BindingStep::Failed => next is Finished && is_failed(action, ErrorKind::ResolutionFailure),
    }
}

/// What follows a step of the resolution of an identifier. Bindings found
/// are tried as targets of routes. A query is sent and waited for. A failed
/// resolution ends the transmission.
pub open spec fn bindings_advanced(
    post: IlvResolver,
    step: BindingStep,
    next: Stage,
    action: Action,
) -> bool {
    match step {
        BindingStep::Resolved(bindings) => next == (Stage::Routes { bindings, index: 0 })
            && action is Continue,
        BindingStep::Query { datagram, wait_ms } => next == Stage::Bindings(post)
            && action is Multicast && is_single(datagram, action->datagrams@) && action->pause
            == Pause::Millis(wait_ms),
        BindingStep::Failed => next is Finished && is_failed(action, ErrorKind::ResolutionFailure),
    }
}

/// What follows once a route to `destination` is known: the search for
/// its next hop among the neighbours, on the route's interface. A route
/// over an interface that the node does not have ends the transmission.
pub open spec fn route_taken(
    interfaces: Seq<InterfaceView>,
    destination: (u64, u64),
    route: RouteView,
    next: Stage,
    action: Action,
) -> bool {
    if has_name(interfaces, route.2) {
        &&& next is Gateway
        &&& next->Gateway_destination == destination
        &&& next->Gateway_source_locator == locator_of(interfaces, route.2)
        &&& next->Gateway_resolver.destination_nid == route.0
        &&& next->Gateway_resolver.interface_name@ == route.2
        &&& next->Gateway_resolver.attempt == 0
        &&& action is Continue
    } else {
        next is Finished && is_failed(action, ErrorKind::ConfigError)
    }
}

/// What follows a look for a known route to binding `index`. A route is
/// taken. Without one the next binding is looked at; after the last, routes
/// are discovered, binding by binding. Without any binding the transmission
/// fails.
pub open spec fn routes_advanced(
    interfaces: Seq<InterfaceView>,
    bindings: Vec<(u64, u64)>,
    index: usize,
    found: Option<RouteView>,
    next: Stage,
    action: Action,
) -> bool {
    if index >= bindings@.len() {
        if bindings@.len() == 0 {
            next is Finished && is_failed(action, ErrorKind::ResolutionFailure)
        } else {
            stands_at_discovery(next, bindings, 0) && action is Continue
        }
    } else {
        match found {
            Some(route) => route_taken(interfaces, bindings@[index as int], route, next, action),
            None => next == (Stage::Routes { bindings, index: (index + 1) as usize })
                && action is Continue,
        }
    }
}

/// What follows a step of the discovery of a route to binding `index`. A
/// route is taken. Requests are sent and waited for. A failed discovery
/// gives way to the discovery for the next binding; after the last the
/// transmission fails, as it does for an index beyond the bindings.
pub open spec fn discover_advanced(
    interfaces: Seq<InterfaceView>,
    bindings: Vec<(u64, u64)>,
    index: usize,
    post: PathDiscovery,
    step: PathStep,
    next: Stage,
    action: Action,
) -> bool {
    if index >= bindings@.len() {
        next is Finished && is_failed(action, ErrorKind::ResolutionFailure)
    } else {
        match step {
            PathStep::Found(route) => route_taken(
                interfaces,
                bindings@[index as int],
                route_view(route),
                next,
                action,
            ),
            PathStep::Wait { datagrams, wait_ns } => next == (Stage::Discover {
                bindings,
                index,
                discovery: post,
            }) && action is Multicast && action->datagrams == datagrams && action->pause
                == Pause::Nanos(wait_ns),
            PathStep::Failed => if index + 1 < bindings@.len() {
                stands_at_discovery(next, bindings, index + 1) && action is Continue
            } else {
                next is Finished && is_failed(action, ErrorKind::ResolutionFailure)
            },
        }
    }
}

fn single(datagram: Option<MulticastDatagram>) -> (out: Vec<MulticastDatagram>)
    ensures
        is_single(datagram, out@),
{
    let mut out: Vec<MulticastDatagram> = Vec::new();
    match datagram {
        Some(d) => {
            out.push(d);
            assert(out@ =~= seq![d]);
        },
        None => {},
    }
    out
}

/// Falls back once no candidate turned out to be a neighbour: see
/// `fell_back`.
pub fn fall_back(fallback: Fallback) -> (r: (Stage, Action))
    ensures
        fell_back(fallback, r.0, r.1),
{
    match fallback {
        Fallback::Resolve(nid) => (Stage::Bindings(IlvResolver::new(nid)), Action::Continue),
        Fallback::Routes(bindings) => (Stage::Routes { bindings, index: 0 }, Action::Continue),
        Fallback::Fail => (Stage::Finished, Action::Failed(ErrorKind::UnreachableHost)),
    }
}

/// Begins the search among the neighbours: see `direct_entered`.
pub fn enter_direct(candidates: Vec<Candidate>, fallback: Fallback) -> (r: (Stage, Action))
    ensures
        direct_entered(candidates, fallback, r.0, r.1),
{
    if candidates.len() > 0 {
        let resolver = NidResolver::new(candidates[0].nid, candidates[0].interface.clone());
        (Stage::Direct { candidates, index: 0, resolver, fallback }, Action::Continue)
    } else {
        fall_back(fallback)
    }
}

/// Moves on after a step of neighbour discovery for a candidate: see
/// `direct_advanced`.
pub fn after_candidate(
    cargo: &Cargo,
    payload: &Vec<u8>,
    source_nid: u64,
    candidates: Vec<Candidate>,
    index: usize,
    fallback: Fallback,
    resolver: NidResolver,
    step: NidStep,
) -> (r: (Stage, Action))
    ensures
        direct_advanced(
            *cargo,
            payload@,
            source_nid,
            candidates,
            index,
            fallback,
            resolver,
            step,
            r.0,
            r.1,
        ),
{
    if index >= candidates.len() {
        return fall_back(fallback);
    }
    match step {
        NidStep::Resolved { address, port } => {
            let c = &candidates[index];
            let bytes = build_packet(cargo, source_nid, c.locator, (c.nid, c.locator), payload);
            (Stage::Finished, Action::Unicast(UnicastDatagram { address, port, bytes }))
        },
        NidStep::Solicit { datagram, wait_ms } => (
            Stage::Direct { candidates, index, resolver, fallback },
            Action::Multicast { datagrams: single(datagram), pause: Pause::Millis(wait_ms) },
        ),
        NidStep::Unreachable => {
            let n = candidates.len();
            assert(index < n);
            if index + 1 < n {
                let next = NidResolver::new(
                    candidates[index + 1].nid,
                    candidates[index + 1].interface.clone(),
                );
                (
                    Stage::Direct { candidates, index: index + 1, resolver: next, fallback },
                    Action::Continue,
                )
            } else {
                fall_back(fallback)
            }
        },
    }
}

/// Moves on after a step of neighbour discovery for a next hop: see
/// `gateway_advanced`.
pub fn after_gateway(
    cargo: &Cargo,
    payload: &Vec<u8>,
    source_nid: u64,
    destination: (u64, u64),
    source_locator: u64,
    resolver: NidResolver,
    step: NidStep,
) -> (r: (Stage, Action))
    ensures
        gateway_advanced(
            *cargo,
            payload@,
            source_nid,
            destination,
            source_locator,
            resolver,
            step,
            r.0,
            r.1,
        ),
{
    match step {
        NidStep::Resolved { address, port } => {
            let bytes = build_packet(cargo, source_nid, source_locator, destination, payload);
            (Stage::Finished, Action::Unicast(UnicastDatagram { address, port, bytes }))
        },
        NidStep::Solicit { datagram, wait_ms } => (
            Stage::Gateway { destination, source_locator, resolver },
            Action::Multicast { datagrams: single(datagram), pause: Pause::Millis(wait_ms) },
        ),
        NidStep::Unreachable => (Stage::Finished, Action::Failed(ErrorKind::UnreachableHost)),
    }
}

/// Moves on after a step of the resolution of a name: see
/// `names_advanced`.
pub fn after_names(interfaces: &InterfaceTable, resolver: FqdnResolver, step: BindingStep) -> (r: (
    Stage,
    Action,
))
    ensures
        names_advanced(interfaces@, resolver, step, r.0, r.1),
{
    match step {
        BindingStep::Resolved(bindings) => {
            let candidates = candidates_for_bindings(interfaces, &bindings);
            if candidates.len() > 0 {
                enter_direct(candidates, Fallback::Routes(bindings))
            } else {
                assert(candidate_views(candidates@).len() == candidates@.len());
                (Stage::Routes { bindings, index: 0 }, Action::Continue)
            }
        },
        BindingStep::Query { datagram, wait_ms } => (
            Stage::Names(resolver),
            Action::Multicast { datagrams: single(datagram), pause: Pause::Millis(wait_ms) },
        ),
        BindingStep::Failed => (Stage::Finished, Action::Failed(ErrorKind::ResolutionFailure)),
    }
}

/// Moves on after a step of the resolution of an identifier: see
/// `bindings_advanced`.
pub fn after_bindings(resolver: IlvResolver, step: BindingStep) -> (r: (Stage, Action))
    ensures
        bindings_advanced(resolver, step, r.0, r.1),
{
    match step {
        BindingStep::Resolved(bindings) => (Stage::Routes { bindings, index: 0 }, Action::Continue),
        BindingStep::Query { datagram, wait_ms } => (
            Stage::Bindings(resolver),
            Action::Multicast { datagrams: single(datagram), pause: Pause::Millis(wait_ms) },
        ),
        BindingStep::Failed => (Stage::Finished, Action::Failed(ErrorKind::ResolutionFailure)),
    }
}

/// Takes a route to `destination`: see `route_taken`.
pub fn take_route(
    interfaces: &InterfaceTable,
    destination: (u64, u64),
    route: (u64, u64, String, u8),
) -> (r: (Stage, Action))
    ensures
        route_taken(interfaces@, destination, route_view(route), r.0, r.1),
{
    match get_over_interface_by_name(interfaces, &route.2) {
        Ok(found) => (
            Stage::Gateway {
                destination,
                source_locator: found.0,
                resolver: NidResolver::new(route.0, route.2),
            },
            Action::Continue,
        ),
        Err(e) => (Stage::Finished, Action::Failed(e)),
    }
}

/// Begins the discovery of a route to binding `index`.
fn enter_discovery(bindings: Vec<(u64, u64)>, index: usize) -> (r: (Stage, Action))
    requires
        index < bindings@.len(),
    ensures
        stands_at_discovery(r.0, bindings, index as int),
        r.1 is Continue,
{
    let discovery = PathDiscovery::new(bindings[index].1, 0, None);
    (Stage::Discover { bindings, index, discovery }, Action::Continue)
}

/// Moves on after a look for a known route: see `routes_advanced`.
pub fn after_route_lookup(
    interfaces: &InterfaceTable,
    bindings: Vec<(u64, u64)>,
    index: usize,
    found: Option<(u64, u64, String, u8)>,
) -> (r: (Stage, Action))
    ensures
        routes_advanced(interfaces@, bindings, index, route_seen(found), r.0, r.1),
{
    if index >= bindings.len() {
        if bindings.len() == 0 {
            (Stage::Finished, Action::Failed(ErrorKind::ResolutionFailure))
        } else {
            enter_discovery(bindings, 0)
        }
    } else {
        match found {
            Some(route) => take_route(interfaces, bindings[index], route),
            None => (Stage::Routes { bindings, index: index + 1 }, Action::Continue),
        }
    }
}

/// Moves on after a step of the discovery of a route: see
/// `discover_advanced`.
pub fn after_discovery(
    interfaces: &InterfaceTable,
    bindings: Vec<(u64, u64)>,
    index: usize,
    discovery: PathDiscovery,
    step: PathStep,
) -> (r: (Stage, Action))
    ensures
        discover_advanced(interfaces@, bindings, index, discovery, step, r.0, r.1),
{
    if index >= bindings.len() {
        return (Stage::Finished, Action::Failed(ErrorKind::ResolutionFailure));
    }
    match step {
        PathStep::Found(route) => take_route(interfaces, bindings[index], route),
        PathStep::Wait { datagrams, wait_ns } => (
            Stage::Discover { bindings, index, discovery },
            Action::Multicast { datagrams, pause: Pause::Nanos(wait_ns) },
        ),
        PathStep::Failed => {
            let n = bindings.len();
            assert(index < n);
            if index + 1 < n {
                enter_discovery(bindings, index + 1)
            } else {
                (Stage::Finished, Action::Failed(ErrorKind::ResolutionFailure))
            }
        },
    }
}


/// Whether a look for the best route to `locator` may have found `found`:
/// nothing, or a stored route that leads there.
pub open spec fn may_route(node: Node, locator: u64, found: Option<RouteView>) -> bool {
    found is Some ==> found->Some_0.1 == locator && node.routes.entries().contains_key(
        (found->Some_0.0, found->Some_0.1),
    ) && node.routes.entries()[(found->Some_0.0, found->Some_0.1)] == found->Some_0
}

/// One step of a transmission at the clock reading `now_ms`. The step
/// makes the look that its stage calls for, through the stage's resolver,
/// and moves on as the stage's rule says for what the look brought. What is
/// sent stays the same throughout. A finished transmission fails when
/// stepped.
pub open spec fn transmission_stepped(
    node: Node,
    tx: Transmission,
    now_ms: u64,
    next: Transmission,
    action: Action,
) -> bool {
    &&& next.cargo == tx.cargo
    &&& next.payload == tx.payload
    &&& match tx.stage {
        Stage::Names(resolver) => exists|post: FqdnResolver, step: BindingStep|
            #[trigger] fqdn_looked_up(node, resolver, post, step) && names_advanced(
                node.interfaces@,
                post,
                step,
                next.stage,
                action,
            ),
        Stage::Direct { candidates, index, resolver, fallback } => if index >= candidates@.len() {
            fell_back(fallback, next.stage, action)
        } else {
            exists|post: NidResolver, step: NidStep|
                #[trigger] nid_looked_up(node, resolver, post, step) && direct_advanced(
                    tx.cargo,
                    tx.payload@,
                    node.local.local_nid,
                    candidates,
                    index,
                    fallback,
                    post,
                    step,
                    next.stage,
                    action,
                )
        },
        Stage::Bindings(resolver) => exists|post: IlvResolver, step: BindingStep|
            #[trigger] ilv_looked_up(node, resolver, post, step) && bindings_advanced(
                post,
                step,
                next.stage,
                action,
            ),
        Stage::Routes { bindings, index } => exists|found: Option<RouteView>|
            (index < bindings@.len() ==> may_route(node, bindings@[index as int].1, found))
                && #[trigger] routes_advanced(
                node.interfaces@,
                bindings,
                index,
                found,
                next.stage,
                action,
            ),
        Stage::Gateway { destination, source_locator, resolver } => exists|
            post: NidResolver,
            step: NidStep,
        |
            #[trigger] nid_looked_up(node, resolver, post, step) && gateway_advanced(
                tx.cargo,
                tx.payload@,
                node.local.local_nid,
                destination,
                source_locator,
                post,
                step,
                next.stage,
                action,
            ),
        Stage::Discover { bindings, index, discovery } => if index >= bindings@.len() {
            next.stage is Finished && is_failed(
                action,
                ErrorKind::ResolutionFailure,
            )
        } else {
            exists|post: PathDiscovery, step: PathStep|
                #[trigger] path_looked_up(node, discovery, post, now_ms, step)
                    && discover_advanced(
                    node.interfaces@,
                    bindings,
                    index,
                    post,
                    step,
                    next.stage,
                    action,
                )
        },
        Stage::Finished => next.stage is Finished && is_failed(
            action,
            ErrorKind::ResolutionFailure,
        ),
    }
}

/// One step of a transmission: see `transmission_stepped`.
pub fn transmission_step(node: &Node, tx: Transmission, now_ms: u64) -> (r: (
    Transmission,
    Action,
))
    ensures
        transmission_stepped(*node, tx, now_ms, r.0, r.1),
{
    let Transmission { cargo, payload, stage } = tx;
    let source_nid = node.local.local_nid;
    let (next, action) = match stage {
        Stage::Names(resolver) => {
            let mut resolver = resolver;
            let ghost pre = resolver;
            let step = handle_destination_fqdn(node, &mut resolver);
            assert(fqdn_looked_up(*node, pre, resolver, step));
            assert(node.interfaces@ == node.interfaces@);
            after_names(&node.interfaces, resolver, step)
        },
        Stage::Direct { candidates, index, resolver, fallback } => {
            if index >= candidates.len() {
                fall_back(fallback)
            } else {
                let mut resolver = resolver;
                let ghost pre = resolver;
                let step = handle_destination_nid(node, &mut resolver);
                assert(nid_looked_up(*node, pre, resolver, step));
                after_candidate(
                    &cargo,
                    &payload,
                    source_nid,
                    candidates,
                    index,
                    fallback,
                    resolver,
                    step,
                )
            }
        },
        Stage::Bindings(resolver) => {
            let mut resolver = resolver;
            let ghost pre = resolver;
            let step = handle_destination_ilv(node, &mut resolver);
            assert(ilv_looked_up(*node, pre, resolver, step));
            after_bindings(resolver, step)
        },
        Stage::Routes { bindings, index } => {
            let found = if index < bindings.len() {
                match lookup_forwarding_table_route(&node.routes, &bindings[index].1) {
                    Ok(route) => Some(route),
                    Err(_) => None,
                }
            } else {
                None
            };
            let ghost seen = route_seen(found);
            let r = after_route_lookup(&node.interfaces, bindings, index, found);
            assert(routes_advanced(node.interfaces@, bindings, index, seen, r.0, r.1));
            r
        },
        Stage::Gateway { destination, source_locator, resolver } => {
            let mut resolver = resolver;
            let ghost pre = resolver;
            let step = handle_destination_nid(node, &mut resolver);
            assert(nid_looked_up(*node, pre, resolver, step));
            after_gateway(
                &cargo,
                &payload,
                source_nid,
                destination,
                source_locator,
                resolver,
                step,
            )
        },
        Stage::Discover { bindings, index, discovery } => {
            if index >= bindings.len() {
                (Stage::Finished, Action::Failed(ErrorKind::ResolutionFailure))
            } else {
                let mut discovery = discovery;
                let ghost pre = discovery;
                let step = handle_path_discovery(node, &mut discovery, now_ms);
                assert(path_looked_up(*node, pre, discovery, now_ms, step));
                assert(node.interfaces@ == node.interfaces@);
                after_discovery(&node.interfaces, bindings, index, discovery, step)
            }
        },
        Stage::Finished => (Stage::Finished, Action::Failed(ErrorKind::ResolutionFailure)),
    };
    (Transmission { cargo, payload, stage: next }, action)
}

/// A transmission of `buf` to the node `destination_nid` at its start:
/// the node is first looked for among the neighbours on each network
/// interface in turn; if it is on none, its bindings are resolved.
pub open spec fn nid_tx_begun(node: Node, destination_nid: u64, buf: Seq<u8>, tx: Transmission) -> bool {
    &&& tx.cargo == Cargo::Data
    &&& tx.payload@ == buf
    &&& if networks_of(node.interfaces@).len() > 0 {
        &&& tx.stage is Direct
        &&& candidate_views(tx.stage->Direct_candidates@) == candidates_everywhere(
            networks_of(node.interfaces@),
            destination_nid,
        )
        &&& stands_at_candidate(
            tx.stage,
            tx.stage->Direct_candidates,
            0,
            Fallback::Resolve(destination_nid),
        )
    } else {
        tx.stage == Stage::Bindings(IlvResolver { destination_nid, attempt: 0 })
    }
}

/// A transmission of `buf` to a node that bears the name
/// `destination_fqdn` at its start: the name is resolved first.
pub open spec fn fqdn_tx_begun(destination_fqdn: String, buf: Seq<u8>, tx: Transmission) -> bool {
    &&& tx.cargo == Cargo::Data
    &&& tx.payload@ == buf
    &&& tx.stage == Stage::Names(FqdnResolver { destination_fqdn, attempt: 0 })
}

/// Begins the transmission of `buf` to the node `destination_nid`: see
/// `nid_tx_begun`. Once its bindings are resolved, routes to them are
/// looked up and, failing that, discovered.
pub fn ilnp_nid_tx(node: &Node, destination_nid: &u64, buf: &[u8]) -> (tx: Transmission)
    ensures
        nid_tx_begun(*node, *destination_nid, buf@, tx),
{
    let candidates = candidates_on_networks(&node.interfaces, *destination_nid);
    assert(candidate_views(candidates@).len() == candidates@.len());
    let entered = enter_direct(candidates, Fallback::Resolve(*destination_nid));
    Transmission { cargo: Cargo::Data, payload: slice_to_vec(buf), stage: entered.0 }
}

/// Begins the transmission of `buf` to a node that bears the name
/// `destination_fqdn`: see `fqdn_tx_begun`. The bindings that the name
/// resolves to are tried as neighbours, then as targets of known routes,
/// then as targets of routes to discover.
pub fn ilnp_fqdn_tx(destination_fqdn: &String, buf: &[u8]) -> (tx: Transmission)
    ensures
        fqdn_tx_begun(*destination_fqdn, buf@, tx),
{
    Transmission {
        cargo: Cargo::Data,
        payload: slice_to_vec(buf),
        stage: Stage::Names(FqdnResolver::new(destination_fqdn.clone())),
    }
}

/// Begins to forward a packet in transit, unchanged. Only a router
/// forwards: fails with `ConfigError` exactly when the node is none. If the
/// router is attached to the packet's destination locator, the destination
/// is looked for among the neighbours there, and nowhere else; if not, a
/// route to that locator is discovered.
pub fn handle_router_forward(node: &Node, ilnp_pck: &INLPv6Packet, payload: &[u8]) -> (r: Result<
    Transmission,
    ErrorKind,
>)
    ensures
        !node.router ==> r is Err && r->Err_0 == ErrorKind::ConfigError,
        node.router ==> r is Ok && r->Ok_0.cargo == Cargo::Transit(*ilnp_pck) && r->Ok_0.payload@
            == payload@,
        node.router && has_locator(node.interfaces@, ilnp_pck.destination_locator) ==> {
            let stage = r->Ok_0.stage;
            &&& stage is Direct
            &&& candidate_views(stage->Direct_candidates@) == seq![
                (
                    ilnp_pck.destination_identifier,
                    ilnp_pck.destination_locator,
                    node.interfaces@[first_on(node.interfaces@, ilnp_pck.destination_locator)].0,
                ),
            ]
            &&& stands_at_candidate(stage, stage->Direct_candidates, 0, Fallback::Fail)
        },
        node.router && !has_locator(node.interfaces@, ilnp_pck.destination_locator) ==> {
            let stage = r->Ok_0.stage;
            &&& stage is Discover
            &&& stage->Discover_bindings@ == seq![
                (ilnp_pck.destination_identifier, ilnp_pck.destination_locator),
            ]
            &&& stands_at_discovery(stage, stage->Discover_bindings, 0)
        },
{
    if !node.router {
        return Err(ErrorKind::ConfigError);
    }
    let destination = (ilnp_pck.destination_identifier, ilnp_pck.destination_locator);
    let stage = match get_over_interface_by_locator(&node.interfaces, &destination.1) {
        Ok(interface) => {
            let mut candidates: Vec<Candidate> = Vec::new();
            candidates.push(Candidate { nid: destination.0, locator: destination.1, interface });
            assert(candidate_views(candidates@) =~= seq![
                (
                    destination.0,
                    destination.1,
                    node.interfaces@[first_on(node.interfaces@, destination.1)].0,
                ),
            ]);
            enter_direct(candidates, Fallback::Fail).0
        },
        Err(_) => {
            let mut bindings: Vec<(u64, u64)> = Vec::new();
            bindings.push(destination);
            assert(bindings@ =~= seq![destination]);
            enter_discovery(bindings, 0).0
        },
    };
    Ok(Transmission { cargo: Cargo::Transit(*ilnp_pck), payload: slice_to_vec(payload), stage })
}

} // verus!
