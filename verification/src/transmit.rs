//! The transmitters of control messages, one for each code. A transmitter
//! builds the packet and hands it back to be sent to the multicast group of
//! its interface. The packet names the counter that counts it; it is
//! counted once it has been sent, not before.

use vstd::prelude::*;
use vstd::string::StringExecFns;
use vstd::string::StrSliceExecFns;
use vstd::utf8::encode_utf8;
use crate::control::{
    JCMP_Basic_Pck,
    JCMP_DNS_FQDN_Query_Packet,
    JCMP_DNS_FQDN_Response_Packet,
    JCMP_DNS_ILV_Response_Packet,
    JCMP_ND_Advertisement,
    JCMP_Pck,
    JCMP_Router_Request,
    JCMP_Router_Response,
};
use crate::error::ErrorKind;
use crate::header::{header_bytes, INLPv6Packet};
use crate::interfaces::{
    get_over_interface_by_name,
    get_over_interfaces,
    group_of,
    has_name,
    interface_view,
    locator_of,
    networks_of,
    InterfaceView,
};
use crate::message::{message_bytes, MessageView};
use crate::node::{MulticastDatagram, Node};
use crate::pcb::Counter;
use crate::wire::{idx, len16, length16, push_all};

verus! {

/// The identifier and locator that stand for the name service.
pub const DNS_HOLDER: u64 = 0x0000_0000_5353_5353;

/// The identifier that a route request is addressed to.
pub const ROUTERS_HOLDER: u64 = 0x0000_0000_ff02_ff02;

/// A control packet: the header of a packet sent by `source_nid`, with next
/// header 150 and the payload's length, then the payload.
pub open spec fn control_packet(
    source_nid: u64,
    source_locator: u64,
    destination_locator: u64,
    destination_nid: u64,
    payload: Seq<u8>,
) -> Seq<u8> {
    header_bytes(
        INLPv6Packet {
            version: 6,
            traffic_class: 0,
            flow_label: 0,
            payload_length: len16(payload.len()),
            next_header: 150,
            hop_limit: 1,
            source_locator,
            source_identifier: source_nid,
            destination_locator,
            destination_identifier: destination_nid,
        },
    ) + payload
}

/// Whether `d` is the control packet with `payload` from `source_nid` at
/// `source_locator` to `destination_nid`, for the group of `interface`: the
/// destination locator is that of the interface. Once sent it is counted as
/// `counts` says.
pub open spec fn is_control_datagram(
    d: MulticastDatagram,
    interfaces: Seq<InterfaceView>,
    source_nid: u64,
    source_locator: u64,
    destination_nid: u64,
    interface: Seq<char>,
    payload: Seq<u8>,
    counts: Option<Counter>,
) -> bool {
    &&& d.counts == counts
    &&& d.interface@ == interface
    &&& d.group == group_of(interfaces, interface)
    &&& d.bytes@ == control_packet(
        source_nid,
        source_locator,
        locator_of(interfaces, interface),
        destination_nid,
        payload,
    )
}

/// Builds the control packet that carries `jcmp_pck` to `destination_nid`
/// on the interface `interface_name`, to be counted as `counts` says once it
/// has been sent. Fails with `ConfigError` exactly when the node has no such
/// interface.
pub fn jcmp_tx<P: JCMP_Pck>(
    node: &Node,
    destination_nid: &u64,
    source_locator: &u64,
    interface_name: &String,
    jcmp_pck: &P,
    counts: Option<Counter>,
) -> (r: Result<MulticastDatagram, ErrorKind>)
    ensures
        has_name(node.interfaces@, interface_name@) ==> r is Ok && is_control_datagram(
            r->Ok_0,
            node.interfaces@,
            node.local.local_nid,
            *source_locator,
            *destination_nid,
            interface_name@,
            jcmp_pck.wire(),
            counts,
        ),
        !has_name(node.interfaces@, interface_name@) ==> r is Err && r->Err_0
            == ErrorKind::ConfigError,
{
    let payload = jcmp_pck.into_bytes();
    match get_over_interface_by_name(&node.interfaces, interface_name) {
        Ok(found) => {
            let header = INLPv6Packet::outbound(
                150,
                length16(payload.len()),
                *source_locator,
                node.local.local_nid,
                found.0,
                *destination_nid,
            );
            let mut bytes = header.to_vec();
            push_all(&mut bytes, payload.as_slice());
            Ok(
                MulticastDatagram {
                    interface: interface_name.clone(),
                    group: found.1,
                    bytes,
                    counts,
                },
            )
        },
        Err(e) => Err(e),
    }
}

/// Solicits the neighbour `destination_nid` on `interface_name`, from the
/// locator of that interface. Fails with `ConfigError` exactly when the node
/// has no such interface.
pub fn jcmp_tx_solicitation(node: &Node, destination_nid: &u64, interface_name: &String) -> (r:
    Result<MulticastDatagram, ErrorKind>)
    ensures
        has_name(node.interfaces@, interface_name@) ==> r is Ok && is_control_datagram(
            r->Ok_0,
            node.interfaces@,
            node.local.local_nid,
            locator_of(node.interfaces@, interface_name@),
            *destination_nid,
            interface_name@,
            message_bytes(MessageView::Solicitation),
            Some(Counter::NdSolicitationTx),
        ),
        !has_name(node.interfaces@, interface_name@) ==> r is Err && r->Err_0
            == ErrorKind::ConfigError,
{
    let jcmp_pck = JCMP_Basic_Pck::new().with_packet_code(0);
    assert(jcmp_pck.wire() =~= message_bytes(MessageView::Solicitation));
    match get_over_interface_by_name(&node.interfaces, interface_name) {
        Ok(found) => {
            jcmp_tx(node, destination_nid, &found.0, interface_name, &jcmp_pck, Some(Counter::NdSolicitationTx))
        },
        Err(e) => Err(e),
    }
}

/// Advertises this node and its unicast port to `destination_nid` on
/// `interface_name`. Fails with `ConfigError` exactly when the node has no
/// such interface.
pub fn jcmp_tx_advertisement(node: &Node, destination_nid: &u64, interface_name: &String) -> (r:
    Result<MulticastDatagram, ErrorKind>)
    ensures
        has_name(node.interfaces@, interface_name@) ==> r is Ok && is_control_datagram(
            r->Ok_0,
            node.interfaces@,
            node.local.local_nid,
            locator_of(node.interfaces@, interface_name@),
            *destination_nid,
            interface_name@,
            message_bytes(
                MessageView::Advertisement { destination_port: node.local.local_port },
            ),
            Some(Counter::NdAdvertisementTx),
        ),
        !has_name(node.interfaces@, interface_name@) ==> r is Err && r->Err_0
            == ErrorKind::ConfigError,
{
    let jcmp_pck = JCMP_ND_Advertisement {
        header: JCMP_Basic_Pck::new().with_packet_code(1),
        destination_port: node.local.local_port,
    };
    assert(jcmp_pck.wire() =~= message_bytes(
        MessageView::Advertisement { destination_port: node.local.local_port },
    ));
    match get_over_interface_by_name(&node.interfaces, interface_name) {
        Ok(found) => {
            jcmp_tx(node, destination_nid, &found.0, interface_name, &jcmp_pck, Some(Counter::NdAdvertisementTx))
        },
        Err(e) => Err(e),
    }
}

/// Asks the name service who bears `destination_name`. Fails with
/// `ConfigError` exactly when the node has not joined the name service.
pub fn jcmp_tx_dns_fqdn_query(node: &Node, destination_name: &String) -> (r: Result<
    MulticastDatagram,
    ErrorKind,
>)
    ensures
        has_name(node.interfaces@, "dns"@) ==> r is Ok && is_control_datagram(
            r->Ok_0,
            node.interfaces@,
            node.local.local_nid,
            DNS_HOLDER,
            DNS_HOLDER,
            "dns"@,
            message_bytes(MessageView::FqdnQuery { fqdn: encode_utf8(destination_name@) }),
            Some(Counter::DnsFqdnQueryTx),
        ),
        !has_name(node.interfaces@, "dns"@) ==> r is Err && r->Err_0
            == ErrorKind::ConfigError,
{
    let jcmp_pck = JCMP_DNS_FQDN_Query_Packet {
        header: JCMP_Basic_Pck::new().with_packet_code(4),
        fqdn: destination_name.as_str().as_bytes_vec(),
    };
    assert(jcmp_pck.wire() =~= message_bytes(
        MessageView::FqdnQuery { fqdn: encode_utf8(destination_name@) },
    ));
    let dns = String::from_str("dns");
    jcmp_tx(node, &DNS_HOLDER, &DNS_HOLDER, &dns, &jcmp_pck, Some(Counter::DnsFqdnQueryTx))
}

/// Asks the name service where `destination_nid` is attached. Fails with
/// `ConfigError` exactly when the node has not joined the name service.
pub fn jcmp_tx_dns_ilv_query(node: &Node, destination_nid: &u64) -> (r: Result<
    MulticastDatagram,
    ErrorKind,
>)
    ensures
        has_name(node.interfaces@, "dns"@) ==> r is Ok && is_control_datagram(
            r->Ok_0,
            node.interfaces@,
            node.local.local_nid,
            DNS_HOLDER,
            *destination_nid,
            "dns"@,
            message_bytes(MessageView::IlvQuery),
            Some(Counter::DnsIlvQueryTx),
        ),
        !has_name(node.interfaces@, "dns"@) ==> r is Err && r->Err_0
            == ErrorKind::ConfigError,
{
    let jcmp_pck = JCMP_Basic_Pck::new().with_packet_code(6);
    assert(jcmp_pck.wire() =~= message_bytes(MessageView::IlvQuery));
    let dns = String::from_str("dns");
    jcmp_tx(node, destination_nid, &DNS_HOLDER, &dns, &jcmp_pck, Some(Counter::DnsIlvQueryTx))
}

/// Asks on `interface_name` for a route to `lookup_locator`, stating the
/// hops made so far. Fails with `ConfigError` exactly when the node has no
/// such interface.
pub fn jcmp_tx_router_request(
    node: &Node,
    lookup_locator: &u64,
    interface_name: &String,
    hop_count: &u8,
) -> (r: Result<MulticastDatagram, ErrorKind>)
    ensures
        has_name(node.interfaces@, interface_name@) ==> r is Ok && is_control_datagram(
            r->Ok_0,
            node.interfaces@,
            node.local.local_nid,
            locator_of(node.interfaces@, interface_name@),
            ROUTERS_HOLDER,
            interface_name@,
            message_bytes(
                MessageView::RouterRequest { hop_count: *hop_count, target: *lookup_locator },
            ),
            Some(Counter::RouterRequestTx),
        ),
        !has_name(node.interfaces@, interface_name@) ==> r is Err && r->Err_0
            == ErrorKind::ConfigError,
{
    let jcmp_pck = JCMP_Router_Request::new().with_packet_code(8).with_hop_count(
        *hop_count,
    ).with_destination_locator(*lookup_locator);
    assert(jcmp_pck.wire() =~= message_bytes(
        MessageView::RouterRequest { hop_count: *hop_count, target: *lookup_locator },
    ));
    match get_over_interface_by_name(&node.interfaces, interface_name) {
        Ok(found) => {
            jcmp_tx(node, &ROUTERS_HOLDER, &found.0, interface_name, &jcmp_pck, Some(Counter::RouterRequestTx))
        },
        Err(e) => Err(e),
    }
}

/// Answers `destination_nid` on `interface_name` that `lookup_locator` is
/// `hop_count` hops away, with the lifetime that this node gives its routes.
/// Only a router answers: fails with `ConfigError` exactly when the node is
/// no router or has no such interface.
pub fn jcmp_tx_router_response(
    node: &Node,
    lookup_locator: &u64,
    destination_nid: &u64,
    interface_name: &String,
    hop_count: &u8,
) -> (r: Result<MulticastDatagram, ErrorKind>)
    ensures
        node.router && has_name(node.interfaces@, interface_name@) ==> r is Ok
            && is_control_datagram(
            r->Ok_0,
            node.interfaces@,
            node.local.local_nid,
            locator_of(node.interfaces@, interface_name@),
            *destination_nid,
            interface_name@,
            message_bytes(
                MessageView::RouterResponse {
                    hop_count: *hop_count,
                    target: *lookup_locator,
                    ttl: node.network.AD_HOC_TTL_S,
                },
            ),
            Some(Counter::RouterResponseTx),
        ),
        !(node.router && has_name(node.interfaces@, interface_name@)) ==> r is Err
            && r->Err_0 == ErrorKind::ConfigError,
{
    if !node.router {
        return Err(ErrorKind::ConfigError);
    }
    let jcmp_pck = JCMP_Router_Response::new().with_packet_code(9).with_hop_count(
        *hop_count,
    ).with_destination_locator(*lookup_locator).with_ttl(node.network.AD_HOC_TTL_S);
    assert(jcmp_pck.wire() =~= message_bytes(
        MessageView::RouterResponse {
            hop_count: *hop_count,
            target: *lookup_locator,
            ttl: node.network.AD_HOC_TTL_S,
        },
    ));
    match get_over_interface_by_name(&node.interfaces, interface_name) {
        Ok(found) => {
            jcmp_tx(node, destination_nid, &found.0, interface_name, &jcmp_pck, Some(Counter::RouterResponseTx))
        },
        Err(e) => Err(e),
    }
}


/// Whether `out` holds, for each network interface of the node in order,
/// the control packet with `payload` from that interface's locator to
/// `destination_nid`, for the group of the name service, each to be counted
/// as `which` once it has been sent.
pub open spec fn is_dns_fan_out(
    out: Seq<MulticastDatagram>,
    interfaces: Seq<InterfaceView>,
    source_nid: u64,
    destination_nid: u64,
    payload: Seq<u8>,
    which: Counter,
) -> bool {
    &&& out.len() == networks_of(interfaces).len()
    &&& forall|i: int|
        0 <= i < out.len() ==> is_control_datagram(
            #[trigger] out[i],
            interfaces,
            source_nid,
            networks_of(interfaces)[i].1,
            destination_nid,
            "dns"@,
            payload,
            Some(which),
        )
}

/// One packet with `packet` for each network interface, all for the group
/// of the name service, each to be counted as `which`.
fn answer_on_dns<P: JCMP_Pck>(
    node: &Node,
    destination_nid: &u64,
    packet: &P,
    which: Counter,
) -> (r: Result<Vec<MulticastDatagram>, ErrorKind>)
    ensures
        networks_of(node.interfaces@).len() == 0 || has_name(node.interfaces@, "dns"@)
            ==> r is Ok && is_dns_fan_out(
            r->Ok_0@,
            node.interfaces@,
            node.local.local_nid,
            *destination_nid,
            packet.wire(),
            which,
        ),
        !(networks_of(node.interfaces@).len() == 0 || has_name(
            node.interfaces@,
            "dns"@,
        )) ==> r is Err && r->Err_0 == ErrorKind::ConfigError,
{
    let networks = get_over_interfaces(&node.interfaces);
    let ghost nets = networks_of(node.interfaces@);
    let dns = String::from_str("dns");
    let mut out: Vec<MulticastDatagram> = Vec::new();
    assert(networks@.len() == nets.len()) by {
        assert(networks@.map_values(|e: (String, (u64, u128))| interface_view(e)).len()
            == networks@.len());
    }
    let mut i: usize = 0;
    while i < networks.len()
        invariant
            i <= networks@.len(),
            networks@.len() == nets.len(),
            nets == networks_of(node.interfaces@),
            networks@.map_values(|e: (String, (u64, u128))| interface_view(e)) == nets,
            dns@ == "dns"@,
            i > 0 ==> has_name(node.interfaces@, "dns"@),
            out@.len() == i,
            forall|j: int|
                0 <= j < i ==> is_control_datagram(
                    #[trigger] out@[j],
                    node.interfaces@,
                    node.local.local_nid,
                    nets[j].1,
                    *destination_nid,
                    "dns"@,
                    packet.wire(),
                    Some(which),
                ),
        decreases networks@.len() - i,
    {
        let source_locator = networks[i].1.0;
        assert(nets[idx(i)] == interface_view(networks@[idx(i)]));
        match jcmp_tx(node, destination_nid, &source_locator, &dns, packet, Some(which)) {
            Ok(d) => {
                out.push(d);
            },
            Err(e) => {
                return Err(e);
            },
        }
        i += 1;
    }
    Ok(out)
}

/// Answers `destination_nid` that this node bears its name, once for each
/// network interface and from that interface's locator, all for the group
/// of the name service. Fails with `ConfigError` exactly when the node has a
/// network interface but has not joined the name service.
pub fn jcmp_tx_dns_fqdn_response(node: &Node, destination_nid: &u64) -> (r: Result<
    Vec<MulticastDatagram>,
    ErrorKind,
>)
    ensures
        networks_of(node.interfaces@).len() == 0 || has_name(node.interfaces@, "dns"@)
            ==> r is Ok && is_dns_fan_out(
            r->Ok_0@,
            node.interfaces@,
            node.local.local_nid,
            *destination_nid,
            message_bytes(
                MessageView::FqdnResponse {
                    ttl: node.network.DNS_TTL_S,
                    fqdn: encode_utf8(node.local.local_fqdn@),
                },
            ),
            Counter::DnsFqdnResponseTx,
        ),
        !(networks_of(node.interfaces@).len() == 0 || has_name(
            node.interfaces@,
            "dns"@,
        )) ==> r is Err && r->Err_0 == ErrorKind::ConfigError,
{
    let jcmp_pck = JCMP_DNS_FQDN_Response_Packet {
        header: JCMP_Basic_Pck::new().with_packet_code(5),
        ttl: node.network.DNS_TTL_S,
        fqdn: node.local.local_fqdn.as_str().as_bytes_vec(),
    };
    assert(jcmp_pck.wire() =~= message_bytes(
        MessageView::FqdnResponse {
            ttl: node.network.DNS_TTL_S,
            fqdn: encode_utf8(node.local.local_fqdn@),
        },
    ));
    answer_on_dns(node, destination_nid, &jcmp_pck, Counter::DnsFqdnResponseTx)
}

/// Answers `destination_nid` where this node is attached, once for each
/// network interface and from that interface's locator, all for the group
/// of the name service. Fails with `ConfigError` exactly when the node has a
/// network interface but has not joined the name service.
pub fn jcmp_tx_dns_ilv_response(node: &Node, destination_nid: &u64) -> (r: Result<
    Vec<MulticastDatagram>,
    ErrorKind,
>)
    ensures
        networks_of(node.interfaces@).len() == 0 || has_name(node.interfaces@, "dns"@)
            ==> r is Ok && is_dns_fan_out(
            r->Ok_0@,
            node.interfaces@,
            node.local.local_nid,
            *destination_nid,
            message_bytes(MessageView::IlvResponse { ttl: node.network.DNS_TTL_S }),
            Counter::DnsIlvResponseTx,
        ),
        !(networks_of(node.interfaces@).len() == 0 || has_name(
            node.interfaces@,
            "dns"@,
        )) ==> r is Err && r->Err_0 == ErrorKind::ConfigError,
{
    let jcmp_pck = JCMP_DNS_ILV_Response_Packet::new().with_packet_code(7).with_ttl(
        node.network.DNS_TTL_S,
    );
    assert(jcmp_pck.wire() =~= message_bytes(
        MessageView::IlvResponse { ttl: node.network.DNS_TTL_S },
    ));
    answer_on_dns(node, destination_nid, &jcmp_pck, Counter::DnsIlvResponseTx)
}

} // verus!
