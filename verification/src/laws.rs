//! Laws that hold of the engine across its operations, proved from the
//! contracts of those operations.

use vstd::prelude::*;
use crate::dispatch::{
    advertisement_handled, control_handled, hops_kept, is_for_us, is_from_other, may_hold,
    multicast_handled, router_response_handled, solicitation_handled, unicast_handled, Inbound,
    Reaction,
};
use crate::header::{header_bytes, header_of, lemma_header_of_header_bytes, INLPv6Packet};
use crate::interfaces::{has_locator, lemma_first_on_by_name, locators_of, InterfaceView};
use crate::message::{decodable, lemma_message_round_trip, message_bytes, message_of, MessageView};
use crate::node::{MulticastDatagram, Node};
use crate::pcb::Counter;
use crate::resolve::{nid_looked_up, nid_stepped, NidResolver, NidStep};
use crate::tables::MAX_TTL_S;
use crate::transmit::{control_packet, is_control_datagram};

verus! {

/// After a node with room for neighbours, and a lifetime for them that an
/// entry can be given, has handled an advertisement from another node on a
/// locator it is attached to, neighbour discovery
/// for the sender resolves, if it resolves, to the underlay address that the
/// advertisement came from and the port that it stated: the latest
/// advertisement is the one that counts. The step that resolves is no
/// attempt: it asks for nothing to be sent.
pub proof fn lemma_latest_advertisement_resolves(
    before: Node,
    advertised: Node,
    source_address: u128,
    header: INLPv6Packet,
    destination_port: u16,
    r: Reaction,
    pre: NidResolver,
    post: NidResolver,
    step: NidStep,
)
    requires
        is_from_other(before, header),
        has_locator(before.interfaces@, header.source_locator),
        before.neighbours.limit() > 0,
        before.network.ND_TTL_S <= MAX_TTL_S,
        advertisement_handled(before, advertised, source_address, header, destination_port, r),
        pre.destination_nid == header.source_identifier,
        nid_looked_up(advertised, pre, post, step),
        step is Resolved,
    ensures
        step->address == source_address,
        step->port == destination_port,
        post.attempt == pre.attempt,
{
}

/// In a node whose interfaces bear distinct names, the advertisement that
/// answers a solicitation comes from the locator that the solicitation was
/// addressed to, and is addressed to that locator.
pub proof fn lemma_advertisement_answers_on_the_solicited_locator(
    before: Node,
    after: Node,
    header: INLPv6Packet,
    r: Reaction,
)
    requires
        before.interfaces.wf(),
        is_for_us(before, header),
        has_locator(before.interfaces@, header.destination_locator),
        solicitation_handled(before, after, header, r),
    ensures
        r.outbound@.len() == 1,
        r.outbound@[0].bytes@ == control_packet(
            before.local.local_nid,
            header.destination_locator,
            header.destination_locator,
            header.source_identifier,
            message_bytes(
                MessageView::Advertisement { destination_port: before.local.local_port },
            ),
        ),
{
    lemma_first_on_by_name(before.interfaces@, header.destination_locator);
}

/// A step of neighbour discovery whose look at the table misses, while
/// the resolver may still ask, sends a solicitation on the resolver's
/// interface if the node has it, and is one attempt.
pub proof fn lemma_miss_solicits(
    before: Node,
    pre: NidResolver,
    post: NidResolver,
    step: NidStep,
)
    requires
        nid_stepped(before, pre, post, None, step),
        pre.attempt < before.network.ND_RETRANSMIT_LIMIT,
    ensures
        step is Solicit,
        post.attempt == pre.attempt + 1,
        step->wait_ms == before.network.ND_RTO_MS,
        crate::interfaces::has_name(before.interfaces@, pre.interface_name@)
            ==> step->datagram is Some,
{
}

/// After a node with room for routes has handled a route answer from
/// another node on a locator it is attached to, it holds a route through
/// the sender to the target whose hop count is the smaller of the one
/// offered and the one it held before, if its lookup found one.
pub proof fn lemma_offer_keeps_fewer_hops(
    before: Node,
    after: Node,
    header: INLPv6Packet,
    hop_count: u8,
    target: u64,
    ttl: u8,
    held: Option<u8>,
    r: Reaction,
)
    requires
        is_from_other(before, header),
        has_locator(before.interfaces@, header.source_locator),
        before.routes.limit() > 0,
        may_hold(before, header.source_identifier, target, held),
        router_response_handled(before, after, header, hop_count, target, ttl, held, r),
    ensures
        after.routes.entries().contains_key((header.source_identifier, target)),
        after.routes.entries()[(header.source_identifier, target)].3 == hops_kept(held, hop_count),
        held is Some ==> hops_kept(held, hop_count) <= held->Some_0,
        hops_kept(held, hop_count) <= hop_count,
{
}

/// A control packet whose destination locator is not among the locators
/// that the node listens on changes nothing and leads to nothing.
pub proof fn lemma_foreign_locator_is_filtered(
    before: Node,
    after: Node,
    source_address: u128,
    buf: Seq<u8>,
    len: usize,
    r: Reaction,
)
    requires
        40 <= len <= buf.len(),
        !locators_of(before.interfaces@).contains(header_of(buf).destination_locator),
        multicast_handled(before, after, source_address, buf, len, r),
    ensures
        after == before,
        r.is_quiet(),
{
}

/// The code of the control message that a control packet carries.
pub open spec fn code_carried(d: MulticastDatagram) -> u8 {
    d.bytes@[40]
}

proof fn lemma_code_of_control_datagram(
    d: MulticastDatagram,
    interfaces: Seq<InterfaceView>,
    source_nid: u64,
    source_locator: u64,
    destination_nid: u64,
    interface: Seq<char>,
    m: MessageView,
    counts: Option<Counter>,
)
    requires
        is_control_datagram(
            d,
            interfaces,
            source_nid,
            source_locator,
            destination_nid,
            interface,
            message_bytes(m),
            counts,
        ),
    ensures
        d.bytes@.len() > 40,
        code_carried(d) == crate::message::message_code(m),
{
    lemma_message_round_trip(m);
    let payload = message_bytes(m);
    let h = INLPv6Packet {
        version: 6,
        traffic_class: 0,
        flow_label: 0,
        payload_length: crate::wire::len16(payload.len()),
        next_header: 150,
        hop_limit: 1,
        source_locator,
        source_identifier: source_nid,
        destination_locator: crate::interfaces::locator_of(interfaces, interface),
        destination_identifier: destination_nid,
    };
    lemma_header_of_header_bytes(h);
    assert(d.bytes@ == header_bytes(h) + payload);
    assert(d.bytes@[40] == payload[0]);
}

/// A node that is no router answers no route request: whatever control
/// message it handles, none of the packets it asks to have sent carries a
/// route answer, and it begins no search for a route.
pub proof fn lemma_only_routers_answer_route_requests(
    before: Node,
    after: Node,
    source_address: u128,
    header: INLPv6Packet,
    payload: Seq<u8>,
    r: Reaction,
)
    requires
        !before.router,
        control_handled(before, after, source_address, header, payload, r),
    ensures
        r.discover is None,
        forall|i: int| 0 <= i < r.outbound@.len() ==> code_carried(#[trigger] r.outbound@[i]) != 9,
{
    if decodable(payload) {
        match message_of(payload) {
            MessageView::Solicitation => {
                if r.outbound@.len() > 0 {
                    lemma_code_of_control_datagram(
                        r.outbound@[0],
                        before.interfaces@,
                        before.local.local_nid,
                        crate::interfaces::locator_of(
                            before.interfaces@,
                            crate::dispatch::interface_on(before, header.destination_locator),
                        ),
                        header.source_identifier,
                        crate::dispatch::interface_on(before, header.destination_locator),
                        MessageView::Advertisement { destination_port: before.local.local_port },
                        Some(Counter::NdAdvertisementTx),
                    );
                }
            },
            MessageView::FqdnQuery { fqdn } => {
                assert forall|i: int| 0 <= i < r.outbound@.len() implies code_carried(
                    #[trigger] r.outbound@[i],
                ) != 9 by {
                    lemma_code_of_control_datagram(
                        r.outbound@[i],
                        before.interfaces@,
                        before.local.local_nid,
                        crate::interfaces::networks_of(before.interfaces@)[i].1,
                        header.source_identifier,
                        "dns"@,
                        MessageView::FqdnResponse {
                            ttl: before.network.DNS_TTL_S,
                            fqdn: vstd::utf8::encode_utf8(before.local.local_fqdn@),
                        },
                        Some(Counter::DnsFqdnResponseTx),
                    );
                }
            },
            MessageView::IlvQuery => {
                assert forall|i: int| 0 <= i < r.outbound@.len() implies code_carried(
                    #[trigger] r.outbound@[i],
                ) != 9 by {
                    lemma_code_of_control_datagram(
                        r.outbound@[i],
                        before.interfaces@,
                        before.local.local_nid,
                        crate::interfaces::networks_of(before.interfaces@)[i].1,
                        header.source_identifier,
                        "dns"@,
                        MessageView::IlvResponse { ttl: before.network.DNS_TTL_S },
                        Some(Counter::DnsIlvResponseTx),
                    );
                }
            },
            _ => {},
        }
    }
}

/// A node that is no router forwards nothing: a data packet for another
/// node is dropped.
pub proof fn lemma_only_routers_forward(node: Node, buf: Seq<u8>, len: usize, out: Inbound)
    requires
        !node.router,
        40 <= len <= buf.len(),
        header_of(buf).destination_identifier != node.local.local_nid,
        unicast_handled(node, buf, len, out),
    ensures
        out is Dropped,
{
}

} // verus!
