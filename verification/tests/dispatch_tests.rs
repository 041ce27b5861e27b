use emulator::config::{AppConfig, Config, NetworkConfig, NodeConfig};
use emulator::dispatch::{
    answer_route_request, handle_ilnp_multicast_buffer, handle_ilnp_unicast_buffer,
    handle_jcmp_packet, record_route_offer, Inbound, RouteQuery,
};
use emulator::error::ErrorKind;
use emulator::header::INLPv6Packet;
use emulator::message::ControlMessage;
use emulator::network::EmulatorLocalNetwork;
use emulator::node::{confirm_delivered, confirm_multicast, Node};
use emulator::pcb::{Counter, ILNP_PCB_S};
use emulator::tables::{
    lookup_forwarding_table, lookup_forwarding_table_route, lookup_name_ilv_table,
    lookup_nid_ilv_table,
};

const SELF_NID: u64 = 0x01;
const PEER_NID: u64 = 0x02;
const PEER_ADDR: u128 = 0xfe80_0000_0000_0000_0000_0000_0000_0002;

fn rx_node(router: bool, max_hops: u8) -> Node {
    let config = Config {
        app: AppConfig {
            logger: false,
            test_convergence: false,
            test_single: false,
            test_flow: false,
            test_throughput: false,
            test_latency: false,
            sensor_application: false,
        },
        node: NodeConfig { router, networks: vec![1, 2], nid: SELF_NID, name: "node1".to_string() },
        network: NetworkConfig {
            MTU: 1412,
            ND_RTO_MS: 10,
            ND_RETRANSMIT_LIMIT: 3,
            ND_TTL_S: 30,
            ND_CACHE_SIZE: 16,
            DNS_TTL_S: 20,
            AD_HOC_TIMEOUT_MS: 100,
            AD_HOC_RTO_NS: 1000,
            AD_HOC_TTL_S: 40,
            AD_MAX_HOPS: max_hops,
        },
    };
    let local = EmulatorLocalNetwork {
        local_uid: 1000,
        local_index: 2,
        local_nid: SELF_NID,
        local_fqdn: "node1".to_string(),
        local_ipv6: 0xfe80_0000_0000_0000_0000_0000_0000_0001,
        local_port: 40001,
    };
    let mut node = Node::new(&config, local).unwrap();
    node.register_interface("multi0".to_string(), 0xAA, 0xA0);
    node.register_interface("multi1".to_string(), 0xBB, 0xB0);
    node.register_interface("dns".to_string(), 0x53535353, 0xD0);
    node.register_interface("log".to_string(), 0x10001, 0xE0);
    node
}

fn heading(source_nid: u64, source_locator: u64, dest_nid: u64, dest_locator: u64) -> INLPv6Packet {
    INLPv6Packet::outbound(150, 0, source_locator, source_nid, dest_locator, dest_nid)
}

fn parse_out(bytes: &[u8]) -> (INLPv6Packet, ControlMessage) {
    (INLPv6Packet::decode(bytes).unwrap(), ControlMessage::decode(&bytes[40..]).unwrap())
}

#[test]
fn solicitation_for_us_is_answered_with_an_advertisement() {
    let mut node = rx_node(false, 5);
    let h = heading(PEER_NID, 0xBB, SELF_NID, 0xBB);
    let r = handle_jcmp_packet(&mut node, PEER_ADDR, &h, &[0]);
    assert_eq!(r.error, None);
    assert!(r.discover.is_none());
    assert_eq!(r.outbound.len(), 1);
    assert_eq!(r.outbound[0].interface, "multi1");
    assert_eq!(r.outbound[0].group, 0xB0);
    let (oh, om) = parse_out(&r.outbound[0].bytes);
    assert_eq!(oh.source_identifier, SELF_NID);
    assert_eq!(oh.source_locator, 0xBB);
    assert_eq!(oh.destination_identifier, PEER_NID);
    assert_eq!(oh.destination_locator, 0xBB);
    assert!(matches!(om, ControlMessage::Advertisement { destination_port: 40001 }));
    assert_eq!(node.pcb.nd_solicitation_jcmp_rx, 1);
    assert_eq!(node.pcb.nd_advertisement_jcmp_tx, 0);
    for d in &r.outbound {
        assert_eq!(d.counts, Some(Counter::NdAdvertisementTx));
        confirm_multicast(&mut node, d.counts.unwrap());
    }
    assert_eq!(node.pcb.nd_advertisement_jcmp_tx, 1);
}

#[test]
fn solicitation_for_another_node_is_ignored() {
    let mut node = rx_node(false, 5);
    let r = handle_jcmp_packet(&mut node, PEER_ADDR, &heading(PEER_NID, 0xAA, 0x03, 0xAA), &[0]);
    assert!(r.outbound.is_empty());
    assert_eq!(r.error, None);
    assert_eq!(node.pcb, ILNP_PCB_S::default());
}

#[test]
fn own_solicitation_is_ignored() {
    let mut node = rx_node(false, 5);
    let r = handle_jcmp_packet(&mut node, PEER_ADDR, &heading(SELF_NID, 0xAA, SELF_NID, 0xAA), &[0]);
    assert!(r.outbound.is_empty());
    assert_eq!(node.pcb, ILNP_PCB_S::default());
}

#[test]
fn solicitation_on_a_foreign_locator_is_reported() {
    let mut node = rx_node(false, 5);
    let r = handle_jcmp_packet(&mut node, PEER_ADDR, &heading(PEER_NID, 0xCC, SELF_NID, 0xCC), &[0]);
    assert_eq!(r.error, Some(ErrorKind::ConfigError));
    assert!(r.outbound.is_empty());
    assert_eq!(node.pcb.nd_solicitation_jcmp_rx, 1);
    assert_eq!(node.pcb.nd_advertisement_jcmp_tx, 0);
}

#[test]
fn advertisement_records_the_neighbour() {
    let mut node = rx_node(false, 5);
    let h = heading(PEER_NID, 0xAA, SELF_NID, 0xAA);
    let r = handle_jcmp_packet(&mut node, PEER_ADDR, &h, &[1, 0x9C, 0x42]);
    assert_eq!(r.error, None);
    assert!(r.outbound.is_empty());
    assert_eq!(node.neighbours.lookup(PEER_NID), Some(("multi0".to_string(), PEER_ADDR, 0x9C42)));
    assert_eq!(node.pcb.nd_advertisement_jcmp_rx, 1);
}

#[test]
fn advertisement_for_anyone_is_collected() {
    let mut node = rx_node(false, 5);
    let h = heading(PEER_NID, 0xBB, 0x09, 0xBB);
    handle_jcmp_packet(&mut node, PEER_ADDR, &h, &[1, 0, 80]);
    assert_eq!(node.neighbours.lookup(PEER_NID), Some(("multi1".to_string(), PEER_ADDR, 80)));
}

#[test]
fn latest_advertisement_replaces_the_earlier() {
    let mut node = rx_node(false, 5);
    let h = heading(PEER_NID, 0xAA, SELF_NID, 0xAA);
    handle_jcmp_packet(&mut node, PEER_ADDR, &h, &[1, 0, 80]);
    handle_jcmp_packet(&mut node, PEER_ADDR + 1, &h, &[1, 0, 81]);
    assert_eq!(node.neighbours.lookup(PEER_NID), Some(("multi0".to_string(), PEER_ADDR + 1, 81)));
    assert_eq!(node.pcb.nd_advertisement_jcmp_rx, 2);
}

#[test]
fn own_advertisement_is_ignored() {
    let mut node = rx_node(false, 5);
    handle_jcmp_packet(&mut node, PEER_ADDR, &heading(SELF_NID, 0xAA, 2, 0xAA), &[1, 0, 80]);
    assert_eq!(node.neighbours.lookup(SELF_NID), None);
    assert_eq!(node.pcb, ILNP_PCB_S::default());
}

#[test]
fn short_advertisement_is_a_parse_error() {
    let mut node = rx_node(false, 5);
    let r = handle_jcmp_packet(&mut node, PEER_ADDR, &heading(PEER_NID, 0xAA, 1, 0xAA), &[1, 0]);
    assert_eq!(r.error, Some(ErrorKind::ParseError));
    assert_eq!(node.pcb, ILNP_PCB_S::default());
}

#[test]
fn empty_and_unknown_payloads_are_parse_errors() {
    let mut node = rx_node(true, 5);
    let h = heading(PEER_NID, 0xAA, SELF_NID, 0xAA);
    assert_eq!(handle_jcmp_packet(&mut node, PEER_ADDR, &h, &[]).error, Some(ErrorKind::ParseError));
    assert_eq!(
        handle_jcmp_packet(&mut node, PEER_ADDR, &h, &[2]).error,
        Some(ErrorKind::ParseError)
    );
    assert_eq!(
        handle_jcmp_packet(&mut node, PEER_ADDR, &h, &[42, 1, 2]).error,
        Some(ErrorKind::ParseError)
    );
    assert_eq!(node.pcb, ILNP_PCB_S::default());
}

#[test]
fn query_for_our_name_is_answered_once_per_network() {
    let mut node = rx_node(false, 5);
    let h = heading(PEER_NID, 0x53535353, 0x53535353, 0x53535353);
    let mut payload = vec![4u8];
    payload.extend_from_slice(b"node1");
    let r = handle_jcmp_packet(&mut node, PEER_ADDR, &h, &payload);
    assert_eq!(r.error, None);
    assert_eq!(r.outbound.len(), 2);
    for (d, locator) in r.outbound.iter().zip([0xAAu64, 0xBB].iter()) {
        assert_eq!(d.interface, "dns");
        let (oh, om) = parse_out(&d.bytes);
        assert_eq!(oh.source_locator, *locator);
        assert_eq!(oh.destination_identifier, PEER_NID);
        match om {
            ControlMessage::FqdnResponse { ttl, fqdn } => {
                assert_eq!(ttl, 20);
                assert_eq!(fqdn, b"node1".to_vec());
            },
            other => panic!("wrong message: {:?}", other),
        }
    }
    assert_eq!(node.pcb.dns_fqdn_query_jcmp_rx, 1);
    assert_eq!(node.pcb.dns_fqdn_response_jcmp_tx, 0);
    for d in &r.outbound {
        assert_eq!(d.counts, Some(Counter::DnsFqdnResponseTx));
        confirm_multicast(&mut node, d.counts.unwrap());
    }
    assert_eq!(node.pcb.dns_fqdn_response_jcmp_tx, 2);
}

#[test]
fn query_for_another_name_is_counted_only() {
    let mut node = rx_node(false, 5);
    let h = heading(PEER_NID, 0x53535353, 0x53535353, 0x53535353);
    let r = handle_jcmp_packet(&mut node, PEER_ADDR, &h, &[4, b'x']);
    assert!(r.outbound.is_empty());
    assert_eq!(r.error, None);
    assert_eq!(node.pcb.dns_fqdn_query_jcmp_rx, 1);
    assert_eq!(node.pcb.dns_fqdn_response_jcmp_tx, 0);
}

#[test]
fn query_with_invalid_text_is_reported() {
    let mut node = rx_node(false, 5);
    let h = heading(PEER_NID, 0x53535353, 0x53535353, 0x53535353);
    let r = handle_jcmp_packet(&mut node, PEER_ADDR, &h, &[4, 0xFF, 0xFE]);
    assert_eq!(r.error, Some(ErrorKind::ParseError));
    assert_eq!(node.pcb.dns_fqdn_query_jcmp_rx, 1);
}

#[test]
fn name_answer_is_recorded_as_text() {
    let mut node = rx_node(false, 5);
    let h = heading(PEER_NID, 0xBB, SELF_NID, 0x53535353);
    let mut payload = vec![5u8, 30];
    payload.extend_from_slice("nœud2".as_bytes());
    let r = handle_jcmp_packet(&mut node, PEER_ADDR, &h, &payload);
    assert_eq!(r.error, None);
    assert_eq!(
        lookup_name_ilv_table(&node.names, &"nœud2".to_string()),
        vec![("nœud2".to_string(), PEER_NID, 0xBB)]
    );
    assert_eq!(node.pcb.dns_fqdn_response_jcmp_rx, 1);
}

#[test]
fn name_answer_with_invalid_text_is_reported() {
    let mut node = rx_node(false, 5);
    let h = heading(PEER_NID, 0xBB, SELF_NID, 0x53535353);
    let r = handle_jcmp_packet(&mut node, PEER_ADDR, &h, &[5, 30, 0xC3]);
    assert_eq!(r.error, Some(ErrorKind::ParseError));
    assert_eq!(node.pcb.dns_fqdn_response_jcmp_rx, 1);
}

#[test]
fn own_name_answer_is_ignored() {
    let mut node = rx_node(false, 5);
    let h = heading(SELF_NID, 0xBB, 2, 0x53535353);
    handle_jcmp_packet(&mut node, PEER_ADDR, &h, &[5, 30, b'a']);
    assert!(lookup_name_ilv_table(&node.names, &"a".to_string()).is_empty());
    assert_eq!(node.pcb, ILNP_PCB_S::default());
}

#[test]
fn ilv_query_for_us_is_answered_once_per_network() {
    let mut node = rx_node(false, 5);
    let h = heading(PEER_NID, 0x53535353, SELF_NID, 0x53535353);
    let r = handle_jcmp_packet(&mut node, PEER_ADDR, &h, &[6]);
    assert_eq!(r.outbound.len(), 2);
    let (oh, om) = parse_out(&r.outbound[1].bytes);
    assert_eq!(oh.source_locator, 0xBB);
    assert_eq!(oh.destination_identifier, PEER_NID);
    assert!(matches!(om, ControlMessage::IlvResponse { ttl: 20 }));
    assert_eq!(node.pcb.dns_ilv_query_jcmp_rx, 1);
    assert_eq!(node.pcb.dns_ilv_response_jcmp_tx, 0);
    for d in &r.outbound {
        assert_eq!(d.counts, Some(Counter::DnsIlvResponseTx));
        confirm_multicast(&mut node, d.counts.unwrap());
    }
    assert_eq!(node.pcb.dns_ilv_response_jcmp_tx, 2);
}

#[test]
fn ilv_query_for_another_node_is_ignored() {
    let mut node = rx_node(false, 5);
    let h = heading(PEER_NID, 0x53535353, 0x09, 0x53535353);
    let r = handle_jcmp_packet(&mut node, PEER_ADDR, &h, &[6]);
    assert!(r.outbound.is_empty());
    assert_eq!(node.pcb, ILNP_PCB_S::default());
}

#[test]
fn ilv_answer_records_the_binding() {
    let mut node = rx_node(false, 5);
    let h = heading(PEER_NID, 0xBB, SELF_NID, 0x53535353);
    let r = handle_jcmp_packet(&mut node, PEER_ADDR, &h, &[7, 30]);
    assert_eq!(r.error, None);
    assert_eq!(lookup_nid_ilv_table(&node.bindings, &PEER_NID), vec![(PEER_NID, 0xBB)]);
    assert_eq!(node.pcb.dns_ilv_response_jcmp_rx, 1);
}

#[test]
fn router_answers_at_once_for_its_own_locator() {
    let mut node = rx_node(true, 5);
    let h = heading(PEER_NID, 0xAA, 0xff02ff02, 0xAA);
    let r = handle_jcmp_packet(&mut node, PEER_ADDR, &h, &[8, 0, 0, 0, 0, 0, 0, 0, 0, 0xBB]);
    assert_eq!(r.error, None);
    assert!(r.discover.is_none());
    assert_eq!(r.outbound.len(), 1);
    assert_eq!(r.outbound[0].interface, "multi0");
    let (oh, om) = parse_out(&r.outbound[0].bytes);
    assert_eq!(oh.destination_identifier, PEER_NID);
    assert_eq!(oh.source_locator, 0xAA);
    assert!(matches!(
        om,
        ControlMessage::RouterResponse { hop_count: 1, target: 0xBB, ttl: 40 }
    ));
    assert_eq!(node.pcb.router_request_jcmp_rx, 1);
    assert_eq!(node.pcb.router_response_jcmp_tx, 0);
    for d in &r.outbound {
        assert_eq!(d.counts, Some(Counter::RouterResponseTx));
        confirm_multicast(&mut node, d.counts.unwrap());
    }
    assert_eq!(node.pcb.router_response_jcmp_tx, 1);
}

#[test]
fn router_searches_for_a_foreign_locator() {
    let mut node = rx_node(true, 5);
    let h = heading(PEER_NID, 0xAA, 0xff02ff02, 0xAA);
    let r = handle_jcmp_packet(&mut node, PEER_ADDR, &h, &[8, 2, 0, 0, 0, 0, 0, 0, 0, 0xCC]);
    assert_eq!(r.error, None);
    assert!(r.outbound.is_empty());
    let query = r.discover.unwrap();
    assert_eq!(query.arrival_interface, "multi0");
    assert_eq!(query.target, 0xCC);
    assert_eq!(query.hop_count, 3);
    assert_eq!(query.requester, PEER_NID);
    assert_eq!(node.pcb.router_request_jcmp_rx, 1);
    assert_eq!(node.pcb.router_response_jcmp_tx, 0);
}

#[test]
fn request_beyond_max_hops_is_dropped() {
    let mut node = rx_node(true, 2);
    let h = heading(PEER_NID, 0xAA, 0xff02ff02, 0xAA);
    let r = handle_jcmp_packet(&mut node, PEER_ADDR, &h, &[8, 3, 0, 0, 0, 0, 0, 0, 0, 0xCC]);
    assert!(r.outbound.is_empty());
    assert!(r.discover.is_none());
    assert_eq!(r.error, None);
    assert_eq!(node.pcb.router_request_jcmp_rx, 1);
    assert_eq!(node.pcb.router_request_jcmp_tx, 0);
    assert_eq!(node.pcb.router_response_jcmp_tx, 0);
}

#[test]
fn request_at_max_hops_is_still_served() {
    let mut node = rx_node(true, 2);
    let h = heading(PEER_NID, 0xAA, 0xff02ff02, 0xAA);
    let r = handle_jcmp_packet(&mut node, PEER_ADDR, &h, &[8, 2, 0, 0, 0, 0, 0, 0, 0, 0xCC]);
    assert_eq!(r.discover.unwrap().hop_count, 3);
}

#[test]
fn request_whose_hops_cannot_grow_is_reported() {
    let mut node = rx_node(true, 255);
    let h = heading(PEER_NID, 0xAA, 0xff02ff02, 0xAA);
    let r = handle_jcmp_packet(&mut node, PEER_ADDR, &h, &[8, 255, 0, 0, 0, 0, 0, 0, 0, 0xCC]);
    assert_eq!(r.error, Some(ErrorKind::ResolutionFailure));
    assert!(r.discover.is_none());
}

#[test]
fn non_router_ignores_route_requests() {
    let mut node = rx_node(false, 5);
    let h = heading(PEER_NID, 0xAA, 0xff02ff02, 0xAA);
    let r = handle_jcmp_packet(&mut node, PEER_ADDR, &h, &[8, 0, 0, 0, 0, 0, 0, 0, 0, 0xBB]);
    assert!(r.outbound.is_empty());
    assert!(r.discover.is_none());
    assert_eq!(r.error, None);
    assert_eq!(node.pcb, ILNP_PCB_S::default());
}

#[test]
fn router_answers_after_the_search() {
    let mut node = rx_node(true, 5);
    let query = RouteQuery {
        arrival_interface: "multi0".to_string(),
        target: 0xCC,
        hop_count: 1,
        requester: PEER_NID,
    };
    let r = answer_route_request(&mut node, &query, Ok((0x05, 0xCC, "multi1".to_string(), 2)));
    assert_eq!(r.error, None);
    assert_eq!(r.outbound.len(), 1);
    assert_eq!(r.outbound[0].interface, "multi0");
    let (oh, om) = parse_out(&r.outbound[0].bytes);
    assert_eq!(oh.destination_identifier, PEER_NID);
    assert!(matches!(
        om,
        ControlMessage::RouterResponse { hop_count: 3, target: 0xCC, ttl: 40 }
    ));
    assert_eq!(node.pcb.router_response_jcmp_tx, 0);
    for d in &r.outbound {
        assert_eq!(d.counts, Some(Counter::RouterResponseTx));
        confirm_multicast(&mut node, d.counts.unwrap());
    }
    assert_eq!(node.pcb.router_response_jcmp_tx, 1);
}

#[test]
fn failed_search_is_reported_without_an_answer() {
    let mut node = rx_node(true, 5);
    let query = RouteQuery {
        arrival_interface: "multi0".to_string(),
        target: 0xCC,
        hop_count: 1,
        requester: PEER_NID,
    };
    let r = answer_route_request(&mut node, &query, Err(ErrorKind::ResolutionFailure));
    assert_eq!(r.error, Some(ErrorKind::ResolutionFailure));
    assert!(r.outbound.is_empty());
    let r = answer_route_request(&mut node, &query, Ok((5, 0xCC, "multi1".to_string(), 255)));
    assert_eq!(r.error, Some(ErrorKind::ResolutionFailure));
    assert_eq!(node.pcb.router_response_jcmp_tx, 0);
}

#[test]
fn route_answer_is_recorded() {
    let mut node = rx_node(false, 5);
    let h = heading(0x05, 0xAA, SELF_NID, 0xAA);
    let r = handle_jcmp_packet(&mut node, PEER_ADDR, &h, &[9, 2, 0, 0, 0, 0, 0, 0, 0, 0xCC, 30]);
    assert_eq!(r.error, None);
    assert_eq!(
        lookup_forwarding_table(&node.routes, &0x05, &0xCC),
        Ok((0x05, 0xCC, "multi0".to_string(), 2))
    );
    assert_eq!(node.pcb.router_response_jcmp_rx, 1);
}

#[test]
fn fewer_hops_replace_more_through_one_router() {
    let mut node = rx_node(false, 5);
    let h = heading(0x05, 0xAA, SELF_NID, 0xAA);
    handle_jcmp_packet(&mut node, PEER_ADDR, &h, &[9, 3, 0, 0, 0, 0, 0, 0, 0, 0xCC, 30]);
    handle_jcmp_packet(&mut node, PEER_ADDR, &h, &[9, 2, 0, 0, 0, 0, 0, 0, 0, 0xCC, 30]);
    assert_eq!(lookup_forwarding_table(&node.routes, &5, &0xCC).unwrap().3, 2);
}

#[test]
fn more_hops_do_not_replace_fewer_through_one_router() {
    let mut node = rx_node(false, 5);
    let h = heading(0x05, 0xAA, SELF_NID, 0xAA);
    handle_jcmp_packet(&mut node, PEER_ADDR, &h, &[9, 2, 0, 0, 0, 0, 0, 0, 0, 0xCC, 30]);
    handle_jcmp_packet(&mut node, PEER_ADDR, &h, &[9, 3, 0, 0, 0, 0, 0, 0, 0, 0xCC, 30]);
    handle_jcmp_packet(&mut node, PEER_ADDR, &h, &[9, 2, 0, 0, 0, 0, 0, 0, 0, 0xCC, 30]);
    assert_eq!(lookup_forwarding_table(&node.routes, &5, &0xCC).unwrap().3, 2);
    assert_eq!(node.pcb.router_response_jcmp_rx, 3);
}

#[test]
fn two_routers_answer_and_the_shorter_route_is_looked_up() {
    for order in [[(0x05u64, 2u8), (0x06u64, 3u8)], [(0x06, 3), (0x05, 2)]] {
        let mut node = rx_node(false, 5);
        for (router, hops) in order {
            let h = heading(router, 0xAA, SELF_NID, 0xAA);
            handle_jcmp_packet(
                &mut node,
                PEER_ADDR,
                &h,
                &[9, hops, 0, 0, 0, 0, 0, 0, 0, 0xCC, 30],
            );
        }
        assert_eq!(
            lookup_forwarding_table_route(&node.routes, &0xCC),
            Ok((0x05, 0xCC, "multi0".to_string(), 2))
        );
    }
}

#[test]
fn route_offer_is_taken_only_if_strictly_shorter() {
    let h = heading(0x05, 0xAA, SELF_NID, 0xAA);
    let mut node = rx_node(false, 5);
    record_route_offer(&mut node, &h, 4, 0xCC, 30, Some(4));
    assert!(lookup_forwarding_table(&node.routes, &5, &0xCC).is_err());
    record_route_offer(&mut node, &h, 4, 0xCC, 30, Some(5));
    assert_eq!(lookup_forwarding_table(&node.routes, &5, &0xCC).unwrap().3, 4);
    let mut other = rx_node(false, 5);
    record_route_offer(&mut other, &h, 9, 0xCC, 30, None);
    assert_eq!(lookup_forwarding_table(&other.routes, &5, &0xCC).unwrap().3, 9);
}

#[test]
fn multicast_filter_drops_foreign_locators() {
    let mut node = rx_node(false, 5);
    let mut buf = heading(PEER_NID, 0xCC, SELF_NID, 0xCC).to_vec();
    buf.push(0);
    let r = handle_ilnp_multicast_buffer(&mut node, &buf, buf.len(), PEER_ADDR);
    assert!(r.outbound.is_empty());
    assert_eq!(r.error, None);
    assert_eq!(node.pcb, ILNP_PCB_S::default());
}

#[test]
fn multicast_filter_drops_the_log_locator() {
    let mut node = rx_node(false, 5);
    let mut buf = heading(PEER_NID, 0x10001, SELF_NID, 0x10001).to_vec();
    buf.push(0);
    let r = handle_ilnp_multicast_buffer(&mut node, &buf, buf.len(), PEER_ADDR);
    assert!(r.outbound.is_empty());
    assert_eq!(node.pcb, ILNP_PCB_S::default());
}

#[test]
fn multicast_packet_on_a_joined_locator_is_dispatched() {
    let mut node = rx_node(false, 5);
    let mut buf = heading(PEER_NID, 0xAA, SELF_NID, 0xAA).to_vec();
    buf.push(0);
    buf.resize(1024, 0);
    let r = handle_ilnp_multicast_buffer(&mut node, &buf, 41, PEER_ADDR);
    assert_eq!(r.outbound.len(), 1);
    assert_eq!(node.pcb.nd_solicitation_jcmp_rx, 1);
}

#[test]
fn multicast_packet_uses_only_the_received_length() {
    let mut node = rx_node(false, 5);
    let mut buf = heading(PEER_NID, 0xAA, SELF_NID, 0xAA).to_vec();
    buf.extend_from_slice(&[1, 0x12, 0x34, 0xFF]);
    let r = handle_ilnp_multicast_buffer(&mut node, &buf, 42, PEER_ADDR);
    assert_eq!(r.error, Some(ErrorKind::ParseError));
    let r = handle_ilnp_multicast_buffer(&mut node, &buf, 43, PEER_ADDR);
    assert_eq!(r.error, None);
    assert_eq!(node.neighbours.lookup(PEER_NID), Some(("multi0".to_string(), PEER_ADDR, 0x1234)));
}

#[test]
fn multicast_packet_without_header_or_code_is_dropped() {
    let mut node = rx_node(false, 5);
    let buf = heading(PEER_NID, 0xAA, SELF_NID, 0xAA).to_vec();
    let r = handle_ilnp_multicast_buffer(&mut node, &buf, 39, PEER_ADDR);
    assert_eq!(r.error, None);
    assert!(r.outbound.is_empty());
    let r = handle_ilnp_multicast_buffer(&mut node, &buf, 40, PEER_ADDR);
    assert_eq!(r.error, Some(ErrorKind::ParseError));
    let r = handle_ilnp_multicast_buffer(&mut node, &buf, 41, PEER_ADDR);
    assert_eq!(r.error, Some(ErrorKind::ParseError));
    assert_eq!(node.pcb, ILNP_PCB_S::default());
}

#[test]
fn multicast_data_packet_is_dropped() {
    let mut node = rx_node(false, 5);
    let mut buf = INLPv6Packet::outbound(151, 1, 0xAA, PEER_NID, 0xAA, SELF_NID).to_vec();
    buf.push(0);
    let r = handle_ilnp_multicast_buffer(&mut node, &buf, buf.len(), PEER_ADDR);
    assert!(r.outbound.is_empty());
    assert_eq!(r.error, None);
    assert_eq!(node.pcb, ILNP_PCB_S::default());
}

#[test]
fn data_packet_for_us_is_delivered() {
    let mut node = rx_node(false, 5);
    let mut buf = INLPv6Packet::outbound(151, 2, 0xAA, PEER_NID, 0xAA, SELF_NID).to_vec();
    buf.extend_from_slice(b"hi");
    buf.resize(1500, 0);
    match handle_ilnp_unicast_buffer(&mut node, &buf, 42) {
        Inbound::Deliver(p) => {
            assert_eq!(p.payload, b"hi".to_vec());
            assert_eq!(p.source_nid, PEER_NID);
            assert_eq!(p.source_locator, 0xAA);
            assert_eq!(p.destination_nid, SELF_NID);
            assert_eq!(p.destination_locator, 0xAA);
        },
        other => panic!("wrong outcome: {:?}", other),
    }
    assert_eq!(node.pcb.data_request_rx, 0);
    confirm_delivered(&mut node);
    assert_eq!(node.pcb.data_request_rx, 1);
}

#[test]
fn data_packet_for_another_is_forwarded_by_a_router() {
    let mut node = rx_node(true, 5);
    let header = INLPv6Packet::outbound(151, 2, 0xAA, PEER_NID, 0xBB, 0x09);
    let mut buf = header.to_vec();
    buf.extend_from_slice(b"hi");
    match handle_ilnp_unicast_buffer(&mut node, &buf, buf.len()) {
        Inbound::Forward { header: h, payload } => {
            assert_eq!(h, header);
            assert_eq!(payload, b"hi".to_vec());
        },
        other => panic!("wrong outcome: {:?}", other),
    }
    assert_eq!(node.pcb, ILNP_PCB_S::default());
}

#[test]
fn data_packet_for_another_is_dropped_by_a_non_router() {
    let mut node = rx_node(false, 5);
    let mut buf = INLPv6Packet::outbound(151, 2, 0xAA, PEER_NID, 0xBB, 0x09).to_vec();
    buf.extend_from_slice(b"hi");
    assert!(matches!(
        handle_ilnp_unicast_buffer(&mut node, &buf, buf.len()),
        Inbound::Dropped(ErrorKind::ConfigError)
    ));
    assert_eq!(node.pcb, ILNP_PCB_S::default());
}

#[test]
fn unicast_packet_that_is_short_or_no_data_is_dropped() {
    let mut node = rx_node(true, 5);
    let buf = INLPv6Packet::outbound(150, 0, 0xAA, PEER_NID, 0xAA, SELF_NID).to_vec();
    assert!(matches!(
        handle_ilnp_unicast_buffer(&mut node, &buf, 40),
        Inbound::Dropped(ErrorKind::ParseError)
    ));
    assert!(matches!(
        handle_ilnp_unicast_buffer(&mut node, &buf, 39),
        Inbound::Dropped(ErrorKind::ParseError)
    ));
    assert!(matches!(
        handle_ilnp_unicast_buffer(&mut node, &buf, 41),
        Inbound::Dropped(ErrorKind::ParseError)
    ));
    assert_eq!(node.pcb, ILNP_PCB_S::default());
}

#[test]
fn empty_data_packet_is_delivered_empty() {
    let mut node = rx_node(false, 5);
    let buf = INLPv6Packet::outbound(151, 0, 0xAA, PEER_NID, 0xAA, SELF_NID).to_vec();
    match handle_ilnp_unicast_buffer(&mut node, &buf, 40) {
        Inbound::Deliver(p) => assert!(p.payload.is_empty()),
        other => panic!("wrong outcome: {:?}", other),
    }
}
