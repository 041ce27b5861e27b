//! What a node does with a control message that it has received: which
//! tables it updates, what it counts, and what it asks to have sent.

use vstd::prelude::*;
use vstd::utf8::{decode_utf8, encode_utf8, valid_utf8};
use crate::error::ErrorKind;
use crate::header::{header_of, INLPv6Packet};
use crate::interfaces::{
    first_on, get_over_interface_by_locator, get_over_locators, has_locator, has_name,
    lemma_first_on, locator_of, locators_of, networks_of,
};
use crate::message::{decodable, message_bytes, message_of, ControlMessage, MessageView};
use crate::network::JTPResponse;
use crate::node::{node_counted, MulticastDatagram, Node};
use crate::pcb::Counter;
use crate::tables::{
    insert_into_forwarding_table, MAX_TTL_S, insert_into_name_ilv_table, insert_into_nid_ilv_table,
    lookup_forwarding_table,
};
use crate::text::text_of;
use crate::transmit::{
    is_control_datagram, is_dns_fan_out, jcmp_tx_advertisement, jcmp_tx_dns_fqdn_response,
    jcmp_tx_dns_ilv_response, jcmp_tx_router_response,
};
use crate::ttl::inserted;
use crate::wire::{contains_u64, copy_range, seconds_of};

verus! {

/// A route that a router must find before it can answer a route request.
#[derive(Debug, Clone)]
pub struct RouteQuery {
    /// Interface on which the request arrived: the search leaves it out,
    /// and the answer goes back on it.
    pub arrival_interface: String,
    /// The locator asked for.
    pub target: u64,
    /// Hops to state in the requests that the search sends.
    pub hop_count: u8,
    /// The node that asked.
    pub requester: u64,
}

/// What a received control message leads to, besides the changes to the
/// node's tables and counters.
#[derive(Debug, Clone)]
pub struct Reaction {
    /// Packets to send, in order. Each is counted once it has been sent,
    /// by `confirm_multicast`, not before.
    pub outbound: Vec<MulticastDatagram>,
    /// A route to find, after which `answer_route_request` gives the answer.
    pub discover: Option<RouteQuery>,
    /// What went wrong, for the log. The message is dropped.
    pub error: Option<ErrorKind>,
}

impl Reaction {
    /// Nothing to send, nothing to find, nothing to report.
    pub open spec fn is_quiet(&self) -> bool {
        self.outbound@.len() == 0 && self.discover is None && self.error is None
    }

    /// Nothing to send or find, and `e` to report.
    pub open spec fn is_failure(&self, e: ErrorKind) -> bool {
        self.outbound@.len() == 0 && self.discover is None && self.error == Some(e)
    }

    /// Exactly `self.outbound` to send, nothing to find or report.
    pub open spec fn is_sending(&self) -> bool {
        self.discover is None && self.error is None
    }

    fn quiet() -> (r: Reaction)
        ensures
            r.is_quiet(),
    {
        Reaction { outbound: Vec::new(), discover: None, error: None }
    }

    fn failure(e: ErrorKind) -> (r: Reaction)
        ensures
            r.is_failure(e),
    {
        Reaction { outbound: Vec::new(), discover: None, error: Some(e) }
    }

    fn sending(outbound: Vec<MulticastDatagram>) -> (r: Reaction)
        ensures
            r.is_sending(),
            r.outbound == outbound,
    {
        Reaction { outbound, discover: None, error: None }
    }
}

/// Name of the node's first interface on `locator`.
pub open spec fn interface_on(node: Node, locator: u64) -> Seq<char> {
    node.interfaces@[first_on(node.interfaces@, locator)].0
}

/// Whether the message with `header` wants an answer from this node: it is
/// addressed to the node and was not sent by it.
pub open spec fn is_for_us(node: Node, header: INLPv6Packet) -> bool {
    header.destination_identifier == node.local.local_nid && header.source_identifier
        != node.local.local_nid
}

/// Whether the message with `header` was sent by another node.
pub open spec fn is_from_other(node: Node, header: INLPv6Packet) -> bool {
    header.source_identifier != node.local.local_nid
}

/// A solicitation that is for this node is counted and answered with an
/// advertisement to its sender, on the node's interface for the locator it
/// was addressed to; without such an interface it is counted and reported.
/// Any other solicitation is ignored.
pub open spec fn solicitation_handled(
    before: Node,
    after: Node,
    header: INLPv6Packet,
    r: Reaction,
) -> bool {
    if !is_for_us(before, header) {
        after == before && r.is_quiet()
    } else if !has_locator(before.interfaces@, header.destination_locator) {
        after == node_counted(before, Counter::NdSolicitationRx) && r.is_failure(
            ErrorKind::ConfigError,
        )
    } else {
        &&& after == node_counted(before, Counter::NdSolicitationRx)
        &&& r.is_sending()
        &&& r.outbound@.len() == 1
        &&& is_control_datagram(
            r.outbound@[0],
            before.interfaces@,
            before.local.local_nid,
            locator_of(before.interfaces@, interface_on(before, header.destination_locator)),
            header.source_identifier,
            interface_on(before, header.destination_locator),
            message_bytes(
                MessageView::Advertisement { destination_port: before.local.local_port },
            ),
            Some(Counter::NdAdvertisementTx),
        )
    }
}

/// An advertisement from another node is counted, and its sender recorded
/// as a neighbour on the node's interface for the sender's locator, at the
/// underlay address it came from and the port it states, for the lifetime
/// of a neighbour. Without such an interface, or with a lifetime of
/// neighbours that no entry can be given, it is counted and reported. The
/// node's own advertisements are ignored.
pub open spec fn advertisement_handled(
    before: Node,
    after: Node,
    source_address: u128,
    header: INLPv6Packet,
    destination_port: u16,
    r: Reaction,
) -> bool {
    if !is_from_other(before, header) {
        after == before && r.is_quiet()
    } else if !has_locator(before.interfaces@, header.source_locator)
        || before.network.ND_TTL_S > MAX_TTL_S {
        after == node_counted(before, Counter::NdAdvertisementRx) && r.is_failure(
            ErrorKind::ConfigError,
        )
    } else {
        &&& after == (Node {
            neighbours: after.neighbours,
            ..node_counted(before, Counter::NdAdvertisementRx)
        })
        &&& after.neighbours.limit() == before.neighbours.limit()
        &&& inserted(
            before.neighbours.entries(),
            after.neighbours.entries(),
            before.neighbours.limit(),
            header.source_identifier,
            (interface_on(before, header.source_locator), source_address, destination_port),
        )
        &&& after.neighbours.lifetimes() == before.neighbours.lifetimes().insert(
            header.source_identifier,
            before.network.ND_TTL_S,
        )
        &&& r.is_quiet()
    }
}

/// A query by name from another node is counted. If the name is valid
/// text and is this node's, the node answers once for each of its network
/// interfaces; if it is no valid text, that is reported. The node's own
/// queries are ignored.
pub open spec fn fqdn_query_handled(
    before: Node,
    after: Node,
    header: INLPv6Packet,
    fqdn: Seq<u8>,
    r: Reaction,
) -> bool {
    let counted = node_counted(before, Counter::DnsFqdnQueryRx);
    if !is_from_other(before, header) {
        after == before && r.is_quiet()
    } else if !valid_utf8(fqdn) {
        after == counted && r.is_failure(ErrorKind::ParseError)
    } else if decode_utf8(fqdn) != before.local.local_fqdn@ {
        after == counted && r.is_quiet()
    } else if networks_of(before.interfaces@).len() > 0 && !has_name(before.interfaces@, "dns"@) {
        after == counted && r.is_failure(ErrorKind::ConfigError)
    } else {
        &&& after == counted
        &&& r.is_sending()
        &&& is_dns_fan_out(
            r.outbound@,
            before.interfaces@,
            before.local.local_nid,
            header.source_identifier,
            message_bytes(
                MessageView::FqdnResponse {
                    ttl: before.network.DNS_TTL_S,
                    fqdn: encode_utf8(before.local.local_fqdn@),
                },
            ),
            Counter::DnsFqdnResponseTx,
        )
    }
}

/// An answer by name from another node is counted, and the name recorded
/// for the sender's identifier and locator, for the lifetime that the
/// answer states. A name that is no valid text is counted and reported.
/// The node's own answers are ignored.
pub open spec fn fqdn_response_handled(
    before: Node,
    after: Node,
    header: INLPv6Packet,
    ttl: u8,
    fqdn: Seq<u8>,
    r: Reaction,
) -> bool {
    if !is_from_other(before, header) {
        after == before && r.is_quiet()
    } else if !valid_utf8(fqdn) {
        after == node_counted(before, Counter::DnsFqdnResponseRx) && r.is_failure(
            ErrorKind::ParseError,
        )
    } else {
        &&& after == (Node {
            names: after.names,
            ..node_counted(before, Counter::DnsFqdnResponseRx)
        })
        &&& after.names.limit() == before.names.limit()
        &&& inserted(
            before.names.entries(),
            after.names.entries(),
            before.names.limit(),
            (header.source_identifier, header.source_locator),
            (decode_utf8(fqdn), header.source_identifier, header.source_locator),
        )
        &&& after.names.lifetimes() == before.names.lifetimes().insert(
            (header.source_identifier, header.source_locator),
            ttl as u64,
        )
        &&& r.is_quiet()
    }
}

/// A query for this node's locators is counted and answered once for each
/// of the node's network interfaces. Any other such query is ignored.
pub open spec fn ilv_query_handled(
    before: Node,
    after: Node,
    header: INLPv6Packet,
    r: Reaction,
) -> bool {
    let counted = node_counted(before, Counter::DnsIlvQueryRx);
    if !is_for_us(before, header) {
        after == before && r.is_quiet()
    } else if networks_of(before.interfaces@).len() > 0 && !has_name(before.interfaces@, "dns"@) {
        after == counted && r.is_failure(ErrorKind::ConfigError)
    } else {
        &&& after == counted
        &&& r.is_sending()
        &&& is_dns_fan_out(
            r.outbound@,
            before.interfaces@,
            before.local.local_nid,
            header.source_identifier,
            message_bytes(MessageView::IlvResponse { ttl: before.network.DNS_TTL_S }),
            Counter::DnsIlvResponseTx,
        )
    }
}

/// An answer from another node that states where it is attached is
/// counted, and the binding of its identifier to its locator recorded for
/// the lifetime that the answer states. The node's own answers are ignored.
pub open spec fn ilv_response_handled(
    before: Node,
    after: Node,
    header: INLPv6Packet,
    ttl: u8,
    r: Reaction,
) -> bool {
    if !is_from_other(before, header) {
        after == before && r.is_quiet()
    } else {
        &&& after == (Node {
            bindings: after.bindings,
            ..node_counted(before, Counter::DnsIlvResponseRx)
        })
        &&& after.bindings.limit() == before.bindings.limit()
        &&& inserted(
            before.bindings.entries(),
            after.bindings.entries(),
            before.bindings.limit(),
            (header.source_identifier, header.source_locator),
            (header.source_identifier, header.source_locator),
        )
        &&& after.bindings.lifetimes() == before.bindings.lifetimes().insert(
            (header.source_identifier, header.source_locator),
            ttl as u64,
        )
        &&& r.is_quiet()
    }
}

/// Handles a neighbour solicitation: see `solicitation_handled`.
pub fn handle_solicitation(node: &mut Node, header: &INLPv6Packet) -> (r: Reaction)
    ensures
        solicitation_handled(*old(node), *final(node), *header, r),
{
    if !(header.destination_identifier == node.local.local_nid && header.source_identifier
        != node.local.local_nid) {
        return Reaction::quiet();
    }
    node.pcb.count(Counter::NdSolicitationRx);
    proof {
        lemma_first_on(node.interfaces@, header.destination_locator);
    }
    match get_over_interface_by_locator(&node.interfaces, &header.destination_locator) {
        Ok(interface) => {
            let ghost at = first_on(node.interfaces@, header.destination_locator);
            assert(node.interfaces@[at].0 == interface@);
            assert(has_name(node.interfaces@, interface@));
            match jcmp_tx_advertisement(node, &header.source_identifier, &interface) {
                Ok(d) => {
                    let mut outbound: Vec<MulticastDatagram> = Vec::new();
                    outbound.push(d);
                    Reaction::sending(outbound)
                },
                Err(e) => Reaction::failure(e),
            }
        },
        Err(e) => Reaction::failure(e),
    }
}

/// Handles a neighbour advertisement that came from the underlay address
/// `source_address`: see `advertisement_handled`.
pub fn handle_advertisement(
    node: &mut Node,
    source_address: u128,
    header: &INLPv6Packet,
    destination_port: u16,
) -> (r: Reaction)
    ensures
        advertisement_handled(
            *old(node),
            *final(node),
            source_address,
            *header,
            destination_port,
            r,
        ),
{
    if header.source_identifier == node.local.local_nid {
        return Reaction::quiet();
    }
    node.pcb.count(Counter::NdAdvertisementRx);
    match get_over_interface_by_locator(&node.interfaces, &header.source_locator) {
        Ok(interface) => {
            let ttl = node.network.ND_TTL_S;
            match node.neighbours.insert(
                header.source_identifier,
                (interface, source_address, destination_port),
                ttl,
            ) {
                Ok(()) => Reaction::quiet(),
                Err(e) => Reaction::failure(e),
            }
        },
        Err(e) => Reaction::failure(e),
    }
}

/// Handles a query by name: see `fqdn_query_handled`.
pub fn handle_fqdn_query(node: &mut Node, header: &INLPv6Packet, fqdn: Vec<u8>) -> (r: Reaction)
    ensures
        fqdn_query_handled(*old(node), *final(node), *header, fqdn@, r),
{
    if header.source_identifier == node.local.local_nid {
        return Reaction::quiet();
    }
    node.pcb.count(Counter::DnsFqdnQueryRx);
    match text_of(fqdn) {
        Some(name) => {
            if name == node.local.local_fqdn {
                match jcmp_tx_dns_fqdn_response(node, &header.source_identifier) {
                    Ok(outbound) => Reaction::sending(outbound),
                    Err(e) => Reaction::failure(e),
                }
            } else {
                Reaction::quiet()
            }
        },
        None => Reaction::failure(ErrorKind::ParseError),
    }
}

/// Handles an answer by name: see `fqdn_response_handled`.
pub fn handle_fqdn_response(node: &mut Node, header: &INLPv6Packet, ttl: u8, fqdn: Vec<u8>) -> (r:
    Reaction)
    ensures
        fqdn_response_handled(*old(node), *final(node), *header, ttl, fqdn@, r),
{
    if header.source_identifier == node.local.local_nid {
        return Reaction::quiet();
    }
    node.pcb.count(Counter::DnsFqdnResponseRx);
    match text_of(fqdn) {
        Some(name) => {
            let _ = insert_into_name_ilv_table(
                &mut node.names,
                (name, header.source_identifier, header.source_locator),
                seconds_of(ttl),
            );
            Reaction::quiet()
        },
        None => Reaction::failure(ErrorKind::ParseError),
    }
}

/// Handles a query for a node's locators: see `ilv_query_handled`.
pub fn handle_ilv_query(node: &mut Node, header: &INLPv6Packet) -> (r: Reaction)
    ensures
        ilv_query_handled(*old(node), *final(node), *header, r),
{
    if !(header.destination_identifier == node.local.local_nid && header.source_identifier
        != node.local.local_nid) {
        return Reaction::quiet();
    }
    node.pcb.count(Counter::DnsIlvQueryRx);
    match jcmp_tx_dns_ilv_response(node, &header.source_identifier) {
        Ok(outbound) => Reaction::sending(outbound),
        Err(e) => Reaction::failure(e),
    }
}

/// Handles an answer that states a node's locator: see
/// `ilv_response_handled`.
pub fn handle_ilv_response(node: &mut Node, header: &INLPv6Packet, ttl: u8) -> (r: Reaction)
    ensures
        ilv_response_handled(*old(node), *final(node), *header, ttl, r),
{
    if header.source_identifier == node.local.local_nid {
        return Reaction::quiet();
    }
    node.pcb.count(Counter::DnsIlvResponseRx);
    let _ = insert_into_nid_ilv_table(
        &mut node.bindings,
        (header.source_identifier, header.source_locator),
        seconds_of(ttl),
    );
    Reaction::quiet()
}


/// One more hop than `hops`.
pub open spec fn one_more(hops: u8) -> u8 {
    (hops + 1) as u8
}

fn next_hop_count(hops: u8) -> (r: u8)
    requires
        hops < 255,
    ensures
        r == one_more(hops),
{
    hops + 1
}

/// Only a router heeds a route request, and only one from another node;
/// it counts the request. A request that has made more hops than the limit
/// is dropped. Otherwise the answer goes to the sender on the interface for
/// the sender's locator; without such an interface the request is reported.
/// If the router is attached to the target it answers at once with one hop.
/// If not, it must find a route first: the reaction names the search, which
/// leaves out the interface of arrival and states one more hop than the
/// request. A request whose hops cannot be counted further is reported.
pub open spec fn router_request_handled(
    before: Node,
    after: Node,
    header: INLPv6Packet,
    hop_count: u8,
    target: u64,
    r: Reaction,
) -> bool {
    let counted = node_counted(before, Counter::RouterRequestRx);
    let arrival = interface_on(before, header.source_locator);
    if !is_from_other(before, header) || !before.router {
        after == before && r.is_quiet()
    } else if hop_count > before.network.AD_MAX_HOPS {
        after == counted && r.is_quiet()
    } else if !has_locator(before.interfaces@, header.source_locator) {
        after == counted && r.is_failure(ErrorKind::ConfigError)
    } else if has_locator(before.interfaces@, target) {
        &&& after == counted
        &&& r.is_sending()
        &&& r.outbound@.len() == 1
        &&& is_control_datagram(
            r.outbound@[0],
            before.interfaces@,
            before.local.local_nid,
            locator_of(before.interfaces@, arrival),
            header.source_identifier,
            arrival,
            message_bytes(
                MessageView::RouterResponse {
                    hop_count: 1,
                    target,
                    ttl: before.network.AD_HOC_TTL_S,
                },
            ),
            Some(Counter::RouterResponseTx),
        )
    } else if hop_count == 255 {
        after == counted && r.is_failure(ErrorKind::ResolutionFailure)
    } else {
        &&& after == counted
        &&& r.outbound@.len() == 0
        &&& r.error is None
        &&& r.discover is Some
        &&& r.discover->Some_0.arrival_interface@ == arrival
        &&& r.discover->Some_0.target == target
        &&& r.discover->Some_0.hop_count == one_more(hop_count)
        &&& r.discover->Some_0.requester == header.source_identifier
    }
}

/// Once the search for `query` has ended with `found`, the router answers
/// the node that asked, on the interface of arrival, with one hop more than
/// the route it found. A failed search is reported, and so is a route whose
/// hops cannot be counted further, or an answer that cannot be built.
pub open spec fn route_request_answered(
    before: Node,
    query: RouteQuery,
    found: Result<(u64, u64, String, u8), ErrorKind>,
    r: Reaction,
) -> bool {
    match found {
        Err(e) => r.is_failure(e),
        Ok(route) => {
            if route.3 == 255 {
                r.is_failure(ErrorKind::ResolutionFailure)
            } else if !(before.router && has_name(before.interfaces@, query.arrival_interface@)) {
                r.is_failure(ErrorKind::ConfigError)
            } else {
                &&& r.is_sending()
                &&& r.outbound@.len() == 1
                &&& is_control_datagram(
                    r.outbound@[0],
                    before.interfaces@,
                    before.local.local_nid,
                    locator_of(before.interfaces@, query.arrival_interface@),
                    query.requester,
                    query.arrival_interface@,
                    message_bytes(
                        MessageView::RouterResponse {
                            hop_count: one_more(route.3),
                            target: query.target,
                            ttl: before.network.AD_HOC_TTL_S,
                        },
                    ),
                    Some(Counter::RouterResponseTx),
                )
            }
        },
    }
}

/// Whether a route offered with `offered` hops is taken, given the hops of
/// the route already held through the same next hop to the same target, if
/// there is one: only a strictly shorter route replaces another.
pub open spec fn takes_offer(held: Option<u8>, offered: u8) -> bool {
    held is None || held->Some_0 > offered
}

/// The hops of the route held after an offer.
pub open spec fn hops_kept(held: Option<u8>, offered: u8) -> u8 {
    if takes_offer(held, offered) {
        offered
    } else {
        held->Some_0
    }
}

/// Of two offers through one next hop to one target, the one with fewer
/// hops is held in the end, whichever came first.
pub proof fn lemma_fewer_hops_win(h1: u8, h2: u8)
    requires
        h1 < h2,
    ensures
        hops_kept(Some(hops_kept(None, h1)), h2) == h1,
        hops_kept(Some(hops_kept(None, h2)), h1) == h1,
{
}

/// A route answer from another node is counted. The route through the
/// sender to the target, over the node's interface for the sender's locator,
/// is recorded for the lifetime `ttl` that the answer states, unless the node
/// holds a route through the same sender to the same target with no more
/// hops (`held`). Without an interface for the sender's locator the answer
/// is reported. The node's own answers are ignored.
pub open spec fn router_response_handled(
    before: Node,
    after: Node,
    header: INLPv6Packet,
    hop_count: u8,
    target: u64,
    ttl: u8,
    held: Option<u8>,
    r: Reaction,
) -> bool {
    let counted = node_counted(before, Counter::RouterResponseRx);
    if !is_from_other(before, header) {
        after == before && r.is_quiet()
    } else if !has_locator(before.interfaces@, header.source_locator) {
        after == counted && r.is_failure(ErrorKind::ConfigError)
    } else if !takes_offer(held, hop_count) {
        after == counted && r.is_quiet()
    } else {
        &&& after == (Node { routes: after.routes, ..counted })
        &&& after.routes.limit() == before.routes.limit()
        &&& inserted(
            before.routes.entries(),
            after.routes.entries(),
            before.routes.limit(),
            (header.source_identifier, target),
            (
                header.source_identifier,
                target,
                interface_on(before, header.source_locator),
                hop_count,
            ),
        )
        &&& after.routes.lifetimes() == before.routes.lifetimes().insert(
            (header.source_identifier, target),
            ttl as u64,
        )
        &&& r.is_quiet()
    }
}

/// Whether a lookup of the route through `next_hop` to `target` may have
/// found `held`: nothing, or the hops of the route that the node stores.
pub open spec fn may_hold(node: Node, next_hop: u64, target: u64, held: Option<u8>) -> bool {
    held is Some ==> node.routes.entries().contains_key((next_hop, target))
        && node.routes.entries()[(next_hop, target)].3 == held->Some_0
}

/// A route answer is handled as `router_response_handled` says, for what
/// the lookup of the route held through the sender found.
pub open spec fn route_offer_handled(
    before: Node,
    after: Node,
    header: INLPv6Packet,
    hop_count: u8,
    target: u64,
    ttl: u8,
    r: Reaction,
) -> bool {
    exists|held: Option<u8>|
        may_hold(before, header.source_identifier, target, held)
            && #[trigger] router_response_handled(
            before,
            after,
            header,
            hop_count,
            target,
            ttl,
            held,
            r,
        )
}

/// Handles a route request: see `router_request_handled`.
pub fn handle_router_request(node: &mut Node, header: &INLPv6Packet, hop_count: u8, target: u64) -> (r:
    Reaction)
    ensures
        router_request_handled(*old(node), *final(node), *header, hop_count, target, r),
{
    if header.source_identifier == node.local.local_nid || !node.router {
        return Reaction::quiet();
    }
    node.pcb.count(Counter::RouterRequestRx);
    if hop_count > node.network.AD_MAX_HOPS {
        return Reaction::quiet();
    }
    proof {
        lemma_first_on(node.interfaces@, header.source_locator);
    }
    match get_over_interface_by_locator(&node.interfaces, &header.source_locator) {
        Ok(arrival) => {
            assert(has_name(node.interfaces@, arrival@));
            match get_over_interface_by_locator(&node.interfaces, &target) {
                Ok(_) => {
                    let one: u8 = 1;
                    match jcmp_tx_router_response(
                        node,
                        &target,
                        &header.source_identifier,
                        &arrival,
                        &one,
                    ) {
                        Ok(d) => {
                            let mut outbound: Vec<MulticastDatagram> = Vec::new();
                            outbound.push(d);
                            Reaction::sending(outbound)
                        },
                        Err(e) => Reaction::failure(e),
                    }
                },
                Err(_) => {
                    if hop_count == 255 {
                        Reaction::failure(ErrorKind::ResolutionFailure)
                    } else {
                        Reaction {
                            outbound: Vec::new(),
                            discover: Some(
                                RouteQuery {
                                    arrival_interface: arrival,
                                    target,
                                    hop_count: next_hop_count(hop_count),
                                    requester: header.source_identifier,
                                },
                            ),
                            error: None,
                        }
                    }
                },
            }
        },
        Err(e) => Reaction::failure(e),
    }
}

/// Answers a route request once the search that `handle_router_request`
/// asked for has ended with `found`: see `route_request_answered`.
pub fn answer_route_request(
    node: &Node,
    query: &RouteQuery,
    found: Result<(u64, u64, String, u8), ErrorKind>,
) -> (r: Reaction)
    ensures
        route_request_answered(*node, *query, found, r),
{
    match found {
        Err(e) => Reaction::failure(e),
        Ok(route) => {
            if route.3 == 255 {
                return Reaction::failure(ErrorKind::ResolutionFailure);
            }
            let hops = next_hop_count(route.3);
            match jcmp_tx_router_response(
                node,
                &query.target,
                &query.requester,
                &query.arrival_interface,
                &hops,
            ) {
                Ok(d) => {
                    let mut outbound: Vec<MulticastDatagram> = Vec::new();
                    outbound.push(d);
                    Reaction::sending(outbound)
                },
                Err(e) => Reaction::failure(e),
            }
        },
    }
}

/// Handles a route answer, given the hops of the route that the node holds
/// through the same sender to the same target, if it holds one: see
/// `router_response_handled`.
pub fn record_route_offer(
    node: &mut Node,
    header: &INLPv6Packet,
    hop_count: u8,
    target: u64,
    ttl: u8,
    held: Option<u8>,
) -> (r: Reaction)
    ensures
        router_response_handled(
            *old(node),
            *final(node),
            *header,
            hop_count,
            target,
            ttl,
            held,
            r,
        ),
{
    if header.source_identifier == node.local.local_nid {
        return Reaction::quiet();
    }
    node.pcb.count(Counter::RouterResponseRx);
    match get_over_interface_by_locator(&node.interfaces, &header.source_locator) {
        Ok(interface) => {
            let take = match held {
                None => true,
                Some(hops) => hops > hop_count,
            };
            if take {
                let _ = insert_into_forwarding_table(
                    &mut node.routes,
                    (header.source_identifier, target, interface, hop_count),
                    seconds_of(ttl),
                );
            }
            Reaction::quiet()
        },
        Err(e) => Reaction::failure(e),
    }
}

/// Handles a route answer: looks up the route held through the sender to
/// the target, then does as `record_route_offer` says. Whatever the lookup
/// found is a route that the table stores.
pub fn handle_router_response(
    node: &mut Node,
    header: &INLPv6Packet,
    hop_count: u8,
    target: u64,
    ttl: u8,
) -> (r: Reaction)
    ensures
        route_offer_handled(*old(node), *final(node), *header, hop_count, target, ttl, r),
{
    let held = match lookup_forwarding_table(&node.routes, &header.source_identifier, &target) {
        Ok(route) => Some(route.3),
        Err(_) => None,
    };
    record_route_offer(node, header, hop_count, target, ttl, held)
}


/// What a node does with the control message `payload` that came under
/// `header` from the underlay address `source_address`. A payload that is
/// empty, opens with an unknown code or is too short for its code is
/// reported and changes nothing; any other is handled as its kind demands.
pub open spec fn control_handled(
    before: Node,
    after: Node,
    source_address: u128,
    header: INLPv6Packet,
    payload: Seq<u8>,
    r: Reaction,
) -> bool {
    if !decodable(payload) {
        after == before && r.is_failure(ErrorKind::ParseError)
    } else {
        match message_of(payload) {
            MessageView::Solicitation => solicitation_handled(before, after, header, r),
            MessageView::Advertisement { destination_port } => advertisement_handled(
                before,
                after,
                source_address,
                header,
                destination_port,
                r,
            ),
            MessageView::FqdnQuery { fqdn } => fqdn_query_handled(before, after, header, fqdn, r),
            MessageView::FqdnResponse { ttl, fqdn } => fqdn_response_handled(
                before,
                after,
                header,
                ttl,
                fqdn,
                r,
            ),
            MessageView::IlvQuery => ilv_query_handled(before, after, header, r),
            MessageView::IlvResponse { ttl } => ilv_response_handled(before, after, header, ttl, r),
            MessageView::RouterRequest { hop_count, target } => router_request_handled(
                before,
                after,
                header,
                hop_count,
                target,
                r,
            ),
            MessageView::RouterResponse { hop_count, target, ttl } => route_offer_handled(
                before,
                after,
                header,
                hop_count,
                target,
                ttl,
                r,
            ),
        }
    }
}

/// What a node does with the first `len` bytes of `buf`, received on the
/// multicast socket from `source_address`. Fewer than 40 bytes, a packet
/// that is no control packet, and one whose destination locator is not
/// among the locators the node listens on are dropped in silence and change
/// nothing; a control packet without a payload is reported; any other is
/// handled as `control_handled` says.
pub open spec fn multicast_handled(
    before: Node,
    after: Node,
    source_address: u128,
    buf: Seq<u8>,
    len: usize,
    r: Reaction,
) -> bool {
    let header = header_of(buf);
    if len > buf.len() {
        after == before && r.is_failure(ErrorKind::ParseError)
    } else if len < 40 || header.next_header != 150 || !locators_of(before.interfaces@).contains(
        header.destination_locator,
    ) {
        after == before && r.is_quiet()
    } else if len < 41 {
        after == before && r.is_failure(ErrorKind::ParseError)
    } else {
        control_handled(before, after, source_address, header, buf.subrange(40, len as int), r)
    }
}

/// What becomes of a packet received on the unicast socket.
#[derive(Debug, Clone)]
pub enum Inbound {
    /// It is for this node: hand it to the application, and count it if
    /// the application's queue took it.
    Deliver(JTPResponse),
    /// It is for another node and this node is a router: forward it.
    Forward { header: INLPv6Packet, payload: Vec<u8> },
    /// It is dropped, for the reason given.
    Dropped(ErrorKind),
}

/// What a node does with the first `len` bytes of `buf`, received on the
/// unicast socket. A data packet for this node is to be delivered with its
/// addresses and its payload; it is counted once it has been handed to the
/// application, not before: see `confirm_delivered`. One for another node
/// is to be forwarded if this node is a router, and dropped if not. Fewer
/// than 40 bytes and a packet that is no data packet are dropped.
pub open spec fn unicast_handled(node: Node, buf: Seq<u8>, len: usize, out: Inbound) -> bool {
    let header = header_of(buf);
    let payload = buf.subrange(40, len as int);
    if len > buf.len() || len < 40 || header.next_header != 151 {
        out == Inbound::Dropped(ErrorKind::ParseError)
    } else if header.destination_identifier == node.local.local_nid {
        &&& out is Deliver
        &&& out->Deliver_0.source_locator == header.source_locator
        &&& out->Deliver_0.source_nid == header.source_identifier
        &&& out->Deliver_0.destination_locator == header.destination_locator
        &&& out->Deliver_0.destination_nid == header.destination_identifier
        &&& out->Deliver_0.payload@ == payload
    } else if node.router {
        &&& out is Forward
        &&& out->Forward_header == header
        &&& out->Forward_payload@ == payload
    } else {
        out == Inbound::Dropped(ErrorKind::ConfigError)
    }
}

/// Handles a control message: see `control_handled`.
pub fn handle_jcmp_packet(
    node: &mut Node,
    source_address: u128,
    ilnp_header: &INLPv6Packet,
    jcmp_payload: &[u8],
) -> (r: Reaction)
    ensures
        control_handled(*old(node), *final(node), source_address, *ilnp_header, jcmp_payload@, r),
{
    match ControlMessage::decode(jcmp_payload) {
        Err(e) => Reaction::failure(e),
        Ok(message) => {
            match message {
                ControlMessage::Solicitation => handle_solicitation(node, ilnp_header),
                ControlMessage::Advertisement { destination_port } => handle_advertisement(
                    node,
                    source_address,
                    ilnp_header,
                    destination_port,
                ),
                ControlMessage::FqdnQuery { fqdn } => handle_fqdn_query(node, ilnp_header, fqdn),
                ControlMessage::FqdnResponse { ttl, fqdn } => handle_fqdn_response(
                    node,
                    ilnp_header,
                    ttl,
                    fqdn,
                ),
                ControlMessage::IlvQuery => handle_ilv_query(node, ilnp_header),
                ControlMessage::IlvResponse { ttl } => handle_ilv_response(node, ilnp_header, ttl),
                ControlMessage::RouterRequest { hop_count, target } => handle_router_request(
                    node,
                    ilnp_header,
                    hop_count,
                    target,
                ),
                ControlMessage::RouterResponse { hop_count, target, ttl } => handle_router_response(
                    node,
                    ilnp_header,
                    hop_count,
                    target,
                    ttl,
                ),
            }
        },
    }
}

/// Handles what the multicast socket received: see `multicast_handled`.
pub fn handle_ilnp_multicast_buffer(
    node: &mut Node,
    buf: &[u8],
    len: usize,
    source_address: u128,
) -> (r: Reaction)
    ensures
        multicast_handled(*old(node), *final(node), source_address, buf@, len, r),
{
    if len > buf.len() {
        return Reaction::failure(ErrorKind::ParseError);
    }
    if len < 40 {
        return Reaction::quiet();
    }
    match INLPv6Packet::decode(buf) {
        Err(e) => Reaction::failure(e),
        Ok(header) => {
            if header.next_header != 150 {
                return Reaction::quiet();
            }
            let connected_locators = get_over_locators(&node.interfaces);
            if !contains_u64(&connected_locators, header.destination_locator) {
                return Reaction::quiet();
            }
            if len < 41 {
                return Reaction::failure(ErrorKind::ParseError);
            }
            let payload = copy_range(buf, 40, len);
            handle_jcmp_packet(node, source_address, &header, payload.as_slice())
        },
    }
}

/// Handles what the unicast socket received: see `unicast_handled`.
pub fn handle_ilnp_unicast_buffer(node: &Node, buf: &[u8], len: usize) -> (out: Inbound)
    ensures
        unicast_handled(*node, buf@, len, out),
{
    if len > buf.len() || len < 40 {
        return Inbound::Dropped(ErrorKind::ParseError);
    }
    match INLPv6Packet::decode(buf) {
        Err(e) => Inbound::Dropped(e),
        Ok(header) => {
            if header.next_header != 151 {
                return Inbound::Dropped(ErrorKind::ParseError);
            }
            let payload = copy_range(buf, 40, len);
            if header.destination_identifier == node.local.local_nid {
                Inbound::Deliver(
                    JTPResponse {
                        source_locator: header.source_locator,
                        source_nid: header.source_identifier,
                        destination_locator: header.destination_locator,
                        destination_nid: header.destination_identifier,
                        payload,
                    },
                )
            } else if node.router {
                Inbound::Forward { header, payload }
            } else {
                Inbound::Dropped(ErrorKind::ConfigError)
            }
        },
    }
}

} // verus!
