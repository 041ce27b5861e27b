//! The resolvers: neighbour discovery, resolution of a name or an
//! identifier to bindings, and path discovery.
//!
//! A resolver is a small machine. Each step looks once at a table and says
//! what to do next: the result, or packets to send and a pause after which
//! to step again. Whoever runs the node sends, counts what was sent, sleeps
//! and steps. No step changes the node.

use vstd::prelude::*;
use crate::interfaces::{
    get_over_interfaces,
    has_name,
    interface_view,
    lemma_networks_are_interfaces,
    locator_of,
    networks_of,
    InterfaceView,
};
use crate::message::{message_bytes, MessageView};
use crate::node::{MulticastDatagram, Node};
use crate::pcb::Counter;
use crate::tables::{lookup_forwarding_table_route, lookup_name_ilv_table, lookup_nid_ilv_table};
use crate::transmit::{
    is_control_datagram,
    jcmp_tx_dns_fqdn_query,
    jcmp_tx_dns_ilv_query,
    jcmp_tx_router_request,
    jcmp_tx_solicitation,
    DNS_HOLDER,
    ROUTERS_HOLDER,
};
use crate::ttl::{name_view, neighbour_view, route_view, NameView, NeighbourView, RouteView};
use crate::wire::idx;
use vstd::utf8::encode_utf8;

verus! {

/// What a resolver that asks and waits does at one step.
#[derive(Debug, Clone, Copy, PartialEq, Eq, Structural)]
pub enum Verdict {
    /// The table had the answer.
    Hit,
    /// The table had no answer and another question may be sent.
    Ask,
    /// Every question that may be sent has been sent.
    GiveUp,
}

/// The verdict of a step after `attempt` questions, of which `limit` may
/// be sent: once the limit is reached the resolver gives up without a look
/// at the table; before that a hit ends it and a miss sends one more.
pub open spec fn verdict(limit: u64, attempt: u64, hit: bool) -> Verdict {
    if attempt >= limit {
        Verdict::GiveUp
    } else if hit {
        Verdict::Hit
    } else {
        Verdict::Ask
    }
}

/// The number of questions sent by a resolver that starts after `attempt`
/// questions and whose looks at the table turn out as `hits` says, one
/// after the other.
pub open spec fn questions_sent(limit: u64, attempt: u64, hits: Seq<bool>) -> nat
    decreases hits.len(),
{
    if hits.len() == 0 {
        0
    } else if attempt < u64::MAX && verdict(limit, attempt, hits[0]) == Verdict::Ask {
        1 + questions_sent(limit, (attempt + 1) as u64, hits.drop_first())
    } else {
        0
    }
}

/// Whatever the table answers, a resolver sends no more questions than the
/// limit allows.
pub proof fn lemma_questions_bounded(limit: u64, attempt: u64, hits: Seq<bool>)
    ensures
        attempt <= limit ==> questions_sent(limit, attempt, hits) <= limit - attempt,
        attempt > limit ==> questions_sent(limit, attempt, hits) == 0,
    decreases hits.len(),
{
    if hits.len() > 0 && attempt < u64::MAX && verdict(limit, attempt, hits[0]) == Verdict::Ask {
        lemma_questions_bounded(limit, (attempt + 1) as u64, hits.drop_first());
    }
}

/// The time that a resolver spends waiting, with a pause of `pause` after
/// each question, is at most the limit times the pause.
pub proof fn lemma_wait_bounded(limit: u64, pause: u64, hits: Seq<bool>)
    ensures
        questions_sent(limit, 0, hits) * pause <= limit * pause,
{
    lemma_questions_bounded(limit, 0, hits);
    let n = questions_sent(limit, 0, hits) as int;
    assert(n * pause <= limit * pause) by (nonlinear_arith)
        requires
            0 <= n <= limit,
            0 <= pause,
    ;
}

/// A resolver whose first look at the table is a hit sends no question;
/// one whose first look is a miss, and that may still ask, sends one at
/// least.
pub proof fn lemma_questions_by_first_look(limit: u64, hits: Seq<bool>)
    requires
        hits.len() > 0,
    ensures
        hits[0] ==> questions_sent(limit, 0, hits) == 0,
        !hits[0] && limit > 0 ==> questions_sent(limit, 0, hits) >= 1,
{
}

/// Neighbour discovery for one identifier on one interface.
#[derive(Debug, Clone)]
pub struct NidResolver {
    pub destination_nid: u64,
    pub interface_name: String,
    /// Solicitations sent so far.
    pub attempt: u64,
}

/// One step of neighbour discovery.
#[derive(Debug, Clone)]
pub enum NidStep {
    /// The neighbour's underlay address and unicast port.
    Resolved { address: u128, port: u16 },
    /// Send the solicitation, if there is one, wait, and step again.
    Solicit { datagram: Option<MulticastDatagram>, wait_ms: u64 },
    /// The host is unreachable.
    Unreachable,
}

/// A step of neighbour discovery, given what the look at the neighbour
/// table found. A hit resolves to the entry's address and port and sends
/// nothing. A miss sends one solicitation on the resolver's interface, or
/// none if the node has no such interface; either way
/// it is one attempt, followed by the pause between solicitations. After
/// as many attempts as the limit allows the host is unreachable.
pub open spec fn nid_stepped(
    node: Node,
    pre: NidResolver,
    post: NidResolver,
    found: Option<NeighbourView>,
    step: NidStep,
) -> bool {
    &&& post.destination_nid == pre.destination_nid
    &&& post.interface_name == pre.interface_name
    &&& match verdict(node.network.ND_RETRANSMIT_LIMIT, pre.attempt, found is Some) {
        Verdict::GiveUp => post.attempt == pre.attempt && step is Unreachable,
        Verdict::Hit => post.attempt == pre.attempt && step is Resolved
            && step->address == found->Some_0.1 && step->port == found->Some_0.2,
        Verdict::Ask => {
            &&& post.attempt == pre.attempt + 1
            &&& step is Solicit
            &&& step->wait_ms == node.network.ND_RTO_MS
            &&& if has_name(node.interfaces@, pre.interface_name@) {
                &&& step->datagram is Some
                &&& is_control_datagram(
                    step->datagram->Some_0,
                    node.interfaces@,
                    node.local.local_nid,
                    locator_of(node.interfaces@, pre.interface_name@),
                    pre.destination_nid,
                    pre.interface_name@,
                    message_bytes(MessageView::Solicitation),
                    Some(Counter::NdSolicitationTx),
                )
            } else {
                step->datagram is None
            }
        },
    }
}

/// A step of neighbour discovery after a look at the neighbour table that
/// found nothing or a stored entry.
pub open spec fn nid_looked_up(
    node: Node,
    pre: NidResolver,
    post: NidResolver,
    step: NidStep,
) -> bool {
    exists|found: Option<NeighbourView>|
        (found is Some ==> node.neighbours.entries().contains_key(pre.destination_nid)
            && node.neighbours.entries()[pre.destination_nid] == found->Some_0)
            && #[trigger] nid_stepped(node, pre, post, found, step)
}

/// What a look at the neighbour table found, as a mathematical value.
pub open spec fn neighbour_seen(found: Option<(String, u128, u16)>) -> Option<NeighbourView> {
    match found {
        Some(e) => Some(neighbour_view(e)),
        None => None,
    }
}

impl NidResolver {
    /// A resolver that has sent nothing yet.
    pub fn new(destination_nid: u64, interface_name: String) -> (r: NidResolver)
        ensures
            r.destination_nid == destination_nid,
            r.interface_name == interface_name,
            r.attempt == 0,
    {
        NidResolver { destination_nid, interface_name, attempt: 0 }
    }
}

/// One step of neighbour discovery, given what the look at the neighbour
/// table found: see `nid_stepped`.
pub fn destination_nid_given(
    node: &Node,
    resolver: &mut NidResolver,
    found: Option<(String, u128, u16)>,
) -> (step: NidStep)
    ensures
        nid_stepped(
            *node,
            *old(resolver),
            *final(resolver),
            neighbour_seen(found),
            step,
        ),
{
    if resolver.attempt >= node.network.ND_RETRANSMIT_LIMIT {
        return NidStep::Unreachable;
    }
    match found {
        Some(entry) => NidStep::Resolved { address: entry.1, port: entry.2 },
        None => {
            let datagram = match jcmp_tx_solicitation(
                node,
                &resolver.destination_nid,
                &resolver.interface_name,
            ) {
                Ok(d) => Some(d),
                Err(_) => None,
            };
            resolver.attempt = resolver.attempt + 1;
            NidStep::Solicit { datagram, wait_ms: node.network.ND_RTO_MS }
        },
    }
}

/// One step of neighbour discovery: looks the identifier up in the
/// neighbour table, then does as `nid_stepped` says.
pub fn handle_destination_nid(node: &Node, resolver: &mut NidResolver) -> (step: NidStep)
    ensures
        nid_looked_up(*node, *old(resolver), *final(resolver), step),
{
    let found = node.neighbours.lookup(resolver.destination_nid);
    let ghost seen = neighbour_seen(found);
    let step = destination_nid_given(node, resolver, found);
    assert(nid_stepped(*node, *old(resolver), *resolver, seen, step));
    step
}


/// Resolution of a name to the bindings of the nodes that bear it.
#[derive(Debug, Clone)]
pub struct FqdnResolver {
    pub destination_fqdn: String,
    /// Queries sent so far.
    pub attempt: u64,
}

/// Resolution of an identifier to the bindings of its node.
#[derive(Debug, Clone, Copy, PartialEq, Eq, Structural)]
pub struct IlvResolver {
    pub destination_nid: u64,
    /// Queries sent so far.
    pub attempt: u64,
}

/// One step of a resolution to bindings.
#[derive(Debug, Clone)]
pub enum BindingStep {
    /// The bindings found: identifier and locator, at least one.
    Resolved(Vec<(u64, u64)>),
    /// Send the query, if there is one, wait, and step again.
    Query { datagram: Option<MulticastDatagram>, wait_ms: u64 },
    /// Nothing was resolved.
    Failed,
}

/// Identifier and locator of each name entry.
pub open spec fn bindings_of(names: Seq<NameView>) -> Seq<(u64, u64)> {
    names.map_values(|e: NameView| (e.1, e.2))
}

/// What a resolver to bindings does when it asks: one query for the group
/// of the name service, to be counted as `which`, or none if the node has not
/// joined the name service; either way one attempt and the pause between
/// queries.
pub open spec fn query_sent(
    node: Node,
    step: BindingStep,
    destination_nid: u64,
    payload: Seq<u8>,
    which: Counter,
) -> bool {
    &&& step is Query
    &&& step->wait_ms == node.network.ND_RTO_MS
    &&& if has_name(node.interfaces@, "dns"@) {
        &&& step->datagram is Some
        &&& is_control_datagram(
            step->datagram->Some_0,
            node.interfaces@,
            node.local.local_nid,
            DNS_HOLDER,
            destination_nid,
            "dns"@,
            payload,
            Some(which),
        )
    } else {
        step->datagram is None
    }
}

/// A step of the resolution of a name, given the entries that the look at
/// the name table found for it. Entries resolve to their bindings, in
/// order, and send nothing. No entry sends one query by name; after as many
/// attempts as the limit allows the resolution fails.
pub open spec fn fqdn_stepped(
    node: Node,
    pre: FqdnResolver,
    post: FqdnResolver,
    found: Seq<NameView>,
    step: BindingStep,
) -> bool {
    &&& post.destination_fqdn == pre.destination_fqdn
    &&& match verdict(node.network.ND_RETRANSMIT_LIMIT, pre.attempt, found.len() != 0) {
        Verdict::GiveUp => post.attempt == pre.attempt && step is Failed,
        Verdict::Hit => post.attempt == pre.attempt && step is Resolved
            && step->Resolved_0@ == bindings_of(found),
        Verdict::Ask => post.attempt == pre.attempt + 1 && query_sent(
            node,
            step,
            DNS_HOLDER,
            message_bytes(MessageView::FqdnQuery { fqdn: encode_utf8(pre.destination_fqdn@) }),
            Counter::DnsFqdnQueryTx,
        ),
    }
}

/// A step of the resolution of an identifier, given the bindings that the
/// look at the binding table found for it. Bindings resolve to themselves
/// and send nothing. No binding sends one query to the identifier; after as
/// many attempts as the limit allows the resolution fails.
pub open spec fn ilv_stepped(
    node: Node,
    pre: IlvResolver,
    post: IlvResolver,
    found: Seq<(u64, u64)>,
    step: BindingStep,
) -> bool {
    &&& post.destination_nid == pre.destination_nid
    &&& match verdict(node.network.ND_RETRANSMIT_LIMIT, pre.attempt, found.len() != 0) {
        Verdict::GiveUp => post.attempt == pre.attempt && step is Failed,
        Verdict::Hit => post.attempt == pre.attempt && step is Resolved
            && step->Resolved_0@ == found,
        Verdict::Ask => post.attempt == pre.attempt + 1 && query_sent(
            node,
            step,
            pre.destination_nid,
            message_bytes(MessageView::IlvQuery),
            Counter::DnsIlvQueryTx,
        ),
    }
}

/// A step of the resolution of a name after a look at the name table:
/// each entry found bears the name and is stored.
pub open spec fn fqdn_looked_up(
    node: Node,
    pre: FqdnResolver,
    post: FqdnResolver,
    step: BindingStep,
) -> bool {
    exists|found: Seq<NameView>|
        (forall|i: int|
            0 <= i < found.len() ==> (#[trigger] found[i]).0 == pre.destination_fqdn@
                && node.names.entries().contains_key((found[i].1, found[i].2))
                && node.names.entries()[(found[i].1, found[i].2)] == found[i])
            && #[trigger] fqdn_stepped(node, pre, post, found, step)
}

/// A step of the resolution of an identifier after a look at the binding
/// table: each binding found belongs to the identifier and is stored.
pub open spec fn ilv_looked_up(
    node: Node,
    pre: IlvResolver,
    post: IlvResolver,
    step: BindingStep,
) -> bool {
    exists|found: Seq<(u64, u64)>|
        (forall|i: int|
            0 <= i < found.len() ==> (#[trigger] found[i]).0 == pre.destination_nid
                && node.bindings.entries().contains_key(found[i])) && #[trigger] ilv_stepped(
            node,
            pre,
            post,
            found,
            step,
        )
}

/// The views of a list of name entries.
pub open spec fn names_seen(found: Seq<(String, u64, u64)>) -> Seq<NameView> {
    found.map_values(|e: (String, u64, u64)| name_view(e))
}

impl FqdnResolver {
    /// A resolver that has sent nothing yet.
    pub fn new(destination_fqdn: String) -> (r: FqdnResolver)
        ensures
            r.destination_fqdn == destination_fqdn,
            r.attempt == 0,
    {
        FqdnResolver { destination_fqdn, attempt: 0 }
    }
}

impl IlvResolver {
    /// A resolver that has sent nothing yet.
    pub fn new(destination_nid: u64) -> (r: IlvResolver)
        ensures
            r.destination_nid == destination_nid,
            r.attempt == 0,
    {
        IlvResolver { destination_nid, attempt: 0 }
    }
}

/// Identifier and locator of each of `found`, in order.
fn take_bindings(found: &Vec<(String, u64, u64)>) -> (out: Vec<(u64, u64)>)
    ensures
        out@ == bindings_of(names_seen(found@)),
{
    let mut out: Vec<(u64, u64)> = Vec::new();
    let mut i: usize = 0;
    while i < found.len()
        invariant
            i <= found@.len(),
            out@.len() == i,
            forall|j: int| 0 <= j < i ==> out@[j] == (found@[j].1, found@[j].2),
        decreases found@.len() - i,
    {
        out.push((found[i].1, found[i].2));
        i += 1;
    }
    assert(out@ =~= bindings_of(names_seen(found@)));
    out
}

/// One step of the resolution of a name, given the entries that the look
/// at the name table found: see `fqdn_stepped`.
pub fn destination_fqdn_given(
    node: &Node,
    resolver: &mut FqdnResolver,
    found: Vec<(String, u64, u64)>,
) -> (step: BindingStep)
    ensures
        fqdn_stepped(
            *node,
            *old(resolver),
            *final(resolver),
            names_seen(found@),
            step,
        ),
{
    if resolver.attempt >= node.network.ND_RETRANSMIT_LIMIT {
        return BindingStep::Failed;
    }
    if found.len() != 0 {
        return BindingStep::Resolved(take_bindings(&found));
    }
    let datagram = match jcmp_tx_dns_fqdn_query(node, &resolver.destination_fqdn) {
        Ok(d) => Some(d),
        Err(_) => None,
    };
    resolver.attempt = resolver.attempt + 1;
    BindingStep::Query { datagram, wait_ms: node.network.ND_RTO_MS }
}

/// One step of the resolution of a name: looks the name up in the name
/// table, then does as `fqdn_stepped` says.
pub fn handle_destination_fqdn(node: &Node, resolver: &mut FqdnResolver) -> (step: BindingStep)
    ensures
        fqdn_looked_up(*node, *old(resolver), *final(resolver), step),
{
    let found = lookup_name_ilv_table(&node.names, &resolver.destination_fqdn);
    let ghost seen = names_seen(found@);
    let step = destination_fqdn_given(node, resolver, found);
    assert(fqdn_stepped(*node, *old(resolver), *resolver, seen, step));
    step
}

/// One step of the resolution of an identifier, given the bindings that
/// the look at the binding table found: see `ilv_stepped`.
pub fn destination_ilv_given(
    node: &Node,
    resolver: &mut IlvResolver,
    found: Vec<(u64, u64)>,
) -> (step: BindingStep)
    ensures
        ilv_stepped(*node, *old(resolver), *final(resolver), found@, step),
{
    if resolver.attempt >= node.network.ND_RETRANSMIT_LIMIT {
        return BindingStep::Failed;
    }
    if found.len() != 0 {
        return BindingStep::Resolved(found);
    }
    let datagram = match jcmp_tx_dns_ilv_query(node, &resolver.destination_nid) {
        Ok(d) => Some(d),
        Err(_) => None,
    };
    resolver.attempt = resolver.attempt + 1;
    BindingStep::Query { datagram, wait_ms: node.network.ND_RTO_MS }
}

/// One step of the resolution of an identifier: looks the identifier up
/// in the binding table, then does as `ilv_stepped` says.
pub fn handle_destination_ilv(node: &Node, resolver: &mut IlvResolver) -> (step: BindingStep)
    ensures
        ilv_looked_up(*node, *old(resolver), *final(resolver), step),
{
    let found = lookup_nid_ilv_table(&node.bindings, &resolver.destination_nid);
    let ghost seen = found@;
    let step = destination_ilv_given(node, resolver, found);
    assert(ilv_stepped(*node, *old(resolver), *resolver, seen, step));
    step
}


/// The discovery of a path to a locator.
#[derive(Debug, Clone)]
pub struct PathDiscovery {
    /// The locator to reach.
    pub lookup_locator: u64,
    /// Hops to state in the requests.
    pub current_hop_count: u8,
    /// An interface on which no request is sent: the one on which the
    /// request arrived that this discovery serves.
    pub source_interface: Option<String>,
    /// Reading of the clock, in milliseconds, at the first step.
    pub started_ms: Option<u64>,
    /// Whether the requests have been sent.
    pub sent: bool,
}

/// One step of a path discovery.
#[derive(Debug)]
pub enum PathStep {
    /// The route: next hop, target locator, interface, hop count.
    Found((u64, u64, String, u8)),
    /// Send the requests, wait, and step again.
    Wait { datagrams: Vec<MulticastDatagram>, wait_ns: u64 },
    /// The deadline has passed.
    Failed,
}

/// The interfaces on which a discovery sends its requests: the network
/// interfaces, in order, but for the one it leaves out.
pub open spec fn flood_targets(networks: Seq<InterfaceView>, except: Option<Seq<char>>) -> Seq<
    InterfaceView,
>
    decreases networks.len(),
{
    if networks.len() == 0 {
        Seq::empty()
    } else {
        let rest = flood_targets(networks.drop_last(), except);
        if except == Some(networks.last().0) {
            rest
        } else {
            rest.push(networks.last())
        }
    }
}

/// Whether `out` holds one route request for `target` after `hop_count`
/// hops for each interface of `targets`, in order, each from that
/// interface's locator.
pub open spec fn is_flood(
    out: Seq<MulticastDatagram>,
    interfaces: Seq<InterfaceView>,
    source_nid: u64,
    targets: Seq<InterfaceView>,
    target: u64,
    hop_count: u8,
) -> bool {
    &&& out.len() == targets.len()
    &&& forall|i: int|
        0 <= i < out.len() ==> is_control_datagram(
            #[trigger] out[i],
            interfaces,
            source_nid,
            locator_of(interfaces, targets[i].0),
            ROUTERS_HOLDER,
            targets[i].0,
            message_bytes(MessageView::RouterRequest { hop_count, target }),
            Some(Counter::RouterRequestTx),
        )
}

/// The name that a discovery leaves out, as a mathematical value.
pub open spec fn left_out(source_interface: Option<String>) -> Option<Seq<char>> {
    match source_interface {
        Some(name) => Some(name@),
        None => None,
    }
}

/// Whether the deadline of a discovery that started at `started` has
/// passed at `now`, both in milliseconds.
pub open spec fn deadline_passed(timeout_ms: u64, started: u64, now: u64) -> bool {
    now >= started && now - started >= timeout_ms
}

/// A step of a path discovery at the clock reading `now_ms`, given what
/// the look at the forwarding table found. The first step notes the time.
/// Once the deadline has passed the discovery fails, without regard to the
/// table. Before that a route ends it. Without a route the first step sends
/// one request on each network interface but the one left out; later steps
/// send nothing. Each is followed by the pause between
/// looks.
pub open spec fn path_stepped(
    node: Node,
    pre: PathDiscovery,
    post: PathDiscovery,
    now_ms: u64,
    found: Option<RouteView>,
    step: PathStep,
) -> bool {
    let started = if pre.started_ms is Some {
        pre.started_ms->Some_0
    } else {
        now_ms
    };
    let targets = flood_targets(networks_of(node.interfaces@), left_out(pre.source_interface));
    &&& post.lookup_locator == pre.lookup_locator
    &&& post.current_hop_count == pre.current_hop_count
    &&& post.source_interface == pre.source_interface
    &&& post.started_ms == Some(started)
    &&& if deadline_passed(node.network.AD_HOC_TIMEOUT_MS, started, now_ms) {
        post.sent == pre.sent && step is Failed
    } else if found is Some {
        post.sent == pre.sent && step is Found && route_view(step->Found_0)
            == found->Some_0
    } else if pre.sent {
        post.sent && step is Wait && step->datagrams@.len() == 0
            && step->wait_ns == node.network.AD_HOC_RTO_NS
    } else {
        &&& post.sent
        &&& step is Wait
        &&& step->wait_ns == node.network.AD_HOC_RTO_NS
        &&& is_flood(
            step->datagrams@,
            node.interfaces@,
            node.local.local_nid,
            targets,
            pre.lookup_locator,
            pre.current_hop_count,
        )
    }
}

/// A step of a path discovery after a look at the forwarding table that
/// found nothing or a stored route to the locator.
pub open spec fn path_looked_up(
    node: Node,
    pre: PathDiscovery,
    post: PathDiscovery,
    now_ms: u64,
    step: PathStep,
) -> bool {
    exists|found: Option<RouteView>|
        (found is Some ==> found->Some_0.1 == pre.lookup_locator
            && node.routes.entries().contains_key((found->Some_0.0, found->Some_0.1))
            && node.routes.entries()[(found->Some_0.0, found->Some_0.1)] == found->Some_0)
            && #[trigger] path_stepped(node, pre, post, now_ms, found, step)
}

/// What a look at the forwarding table found, as a mathematical value.
pub open spec fn route_seen(found: Option<(u64, u64, String, u8)>) -> Option<RouteView> {
    match found {
        Some(e) => Some(route_view(e)),
        None => None,
    }
}

impl PathDiscovery {
    /// A discovery that has not begun.
    pub fn new(lookup_locator: u64, current_hop_count: u8, source_interface: Option<String>) -> (r:
        PathDiscovery)
        ensures
            r.lookup_locator == lookup_locator,
            r.current_hop_count == current_hop_count,
            r.source_interface == source_interface,
            r.started_ms is None,
            !r.sent,
    {
        PathDiscovery {
            lookup_locator,
            current_hop_count,
            source_interface,
            started_ms: None,
            sent: false,
        }
    }
}

/// Whether `name` is the interface that is left out.
fn is_left_out(source_interface: &Option<String>, name: &String) -> (same: bool)
    ensures
        same == (left_out(*source_interface) == Some(name@)),
{
    match source_interface {
        Some(si) => *si == *name,
        None => false,
    }
}

/// One route request for each network interface but the one left out.
fn flood(node: &Node, discovery: &PathDiscovery) -> (out: Vec<MulticastDatagram>)
    ensures
        is_flood(
            out@,
            node.interfaces@,
            node.local.local_nid,
            flood_targets(networks_of(node.interfaces@), left_out(discovery.source_interface)),
            discovery.lookup_locator,
            discovery.current_hop_count,
        ),
{
    let networks = get_over_interfaces(&node.interfaces);
    let ghost nets = networks_of(node.interfaces@);
    let ghost except = left_out(discovery.source_interface);
    let mut out: Vec<MulticastDatagram> = Vec::new();
    proof {
        lemma_networks_are_interfaces(node.interfaces@);
        assert(networks@.map_values(|e: (String, (u64, u128))| interface_view(e)).len()
            == networks@.len());
    }
    let mut i: usize = 0;
    while i < networks.len()
        invariant
            i <= networks@.len(),
            networks@.len() == nets.len(),
            nets == networks_of(node.interfaces@),
            except == left_out(discovery.source_interface),
            networks@.map_values(|e: (String, (u64, u128))| interface_view(e)) == nets,
            forall|k: int| 0 <= k < nets.len() ==> has_name(node.interfaces@, (#[trigger] nets[k]).0),
            is_flood(
                out@,
                node.interfaces@,
                node.local.local_nid,
                flood_targets(nets.take(idx(i)), except),
                discovery.lookup_locator,
                discovery.current_hop_count,
            ),
        decreases networks@.len() - i,
    {
        let name = &networks[i].0;
        proof {
            assert(nets.take(idx(i) + 1).drop_last() =~= nets.take(idx(i)));
            assert(nets.take(idx(i) + 1).last() == nets[idx(i)]);
            assert(nets[idx(i)] == interface_view(networks@[idx(i)]));
            assert(has_name(node.interfaces@, nets[idx(i)].0));
        }
        if !is_left_out(&discovery.source_interface, name) {
            let ghost sofar = flood_targets(nets.take(idx(i)), except);
            match jcmp_tx_router_request(
                node,
                &discovery.lookup_locator,
                name,
                &discovery.current_hop_count,
            ) {
                Ok(d) => {
                    out.push(d);
                },
                Err(_) => {},
            }
            assert(flood_targets(nets.take(idx(i) + 1), except) == sofar.push(nets[idx(i)]));
        }
        i += 1;
    }
    assert(nets.take(idx(networks.len())) =~= nets);
    out
}

/// One step of a path discovery, given what the look at the forwarding
/// table found: see `path_stepped`.
pub fn path_discovery_given(
    node: &Node,
    discovery: &mut PathDiscovery,
    now_ms: u64,
    found: Option<(u64, u64, String, u8)>,
) -> (step: PathStep)
    ensures
        path_stepped(
            *node,
            *old(discovery),
            *final(discovery),
            now_ms,
            route_seen(found),
            step,
        ),
{
    let started = match discovery.started_ms {
        Some(t) => t,
        None => now_ms,
    };
    discovery.started_ms = Some(started);
    if now_ms >= started && now_ms - started >= node.network.AD_HOC_TIMEOUT_MS {
        return PathStep::Failed;
    }
    match found {
        Some(route) => PathStep::Found(route),
        None => {
            let datagrams = if discovery.sent {
                Vec::new()
            } else {
                flood(node, discovery)
            };
            discovery.sent = true;
            PathStep::Wait { datagrams, wait_ns: node.network.AD_HOC_RTO_NS }
        },
    }
}

/// One step of a path discovery: looks for the best route to the locator
/// in the forwarding table, then does as `path_stepped` says.
pub fn handle_path_discovery(node: &Node, discovery: &mut PathDiscovery, now_ms: u64) -> (step:
    PathStep)
    ensures
        path_looked_up(*node, *old(discovery), *final(discovery), now_ms, step),
{
    let found = match lookup_forwarding_table_route(&node.routes, &discovery.lookup_locator) {
        Ok(route) => Some(route),
        Err(_) => None,
    };
    let ghost seen = route_seen(found);
    let step = path_discovery_given(node, discovery, now_ms, found);
    assert(path_stepped(*node, *old(discovery), *discovery, now_ms, seen, step));
    step
}

} // verus!
