use emulator::config::{AppConfig, Config, NetworkConfig, NodeConfig};
use emulator::control::{JCMP_Basic_Pck, JCMP_Pck};
use emulator::error::ErrorKind;
use emulator::header::INLPv6Packet;
use emulator::message::ControlMessage;
use emulator::network::EmulatorLocalNetwork;
use emulator::node::{confirm_delivered, confirm_multicast, unicast_buffer_len, Node};
use emulator::pcb::Counter;
use emulator::tables::MAX_TTL_S;
use emulator::transmit::{
    jcmp_tx, jcmp_tx_advertisement, jcmp_tx_dns_fqdn_query, jcmp_tx_dns_fqdn_response,
    jcmp_tx_dns_ilv_query, jcmp_tx_dns_ilv_response, jcmp_tx_router_request,
    jcmp_tx_router_response, jcmp_tx_solicitation, DNS_HOLDER, ROUTERS_HOLDER,
};
use emulator::underlay::{underlay_multi_tx, underlay_uni_tx};

fn tx_config(router: bool) -> Config {
    Config {
        app: AppConfig {
            logger: false,
            test_convergence: false,
            test_single: false,
            test_flow: false,
            test_throughput: false,
            test_latency: false,
            sensor_application: false,
        },
        node: NodeConfig { router, networks: vec![1, 2], nid: 0x01, name: "node1".to_string() },
        network: NetworkConfig {
            MTU: 1412,
            ND_RTO_MS: 10,
            ND_RETRANSMIT_LIMIT: 3,
            ND_TTL_S: 30,
            ND_CACHE_SIZE: 16,
            DNS_TTL_S: 20,
            AD_HOC_TIMEOUT_MS: 100,
            AD_HOC_RTO_NS: 1000,
            AD_HOC_TTL_S: 40,
            AD_MAX_HOPS: 5,
        },
    }
}

fn tx_node(router: bool) -> Node {
    let config = tx_config(router);
    let local = EmulatorLocalNetwork {
        local_uid: 1000,
        local_index: 2,
        local_nid: 0x01,
        local_fqdn: "node1".to_string(),
        local_ipv6: 0xfe80_0000_0000_0000_0000_0000_0000_0001,
        local_port: 40001,
    };
    let mut node = Node::new(&config, local).unwrap();
    node.register_interface("multi0".to_string(), 0xAA, 0xA0);
    node.register_interface("multi1".to_string(), 0xBB, 0xB0);
    node.register_interface("dns".to_string(), 0x53535353, 0xD0);
    node.register_interface("log".to_string(), 0x10001, 0xE0);
    node
}

fn parse(bytes: &[u8]) -> (INLPv6Packet, ControlMessage) {
    let header = INLPv6Packet::decode(bytes).unwrap();
    let message = ControlMessage::decode(&bytes[40..]).unwrap();
    (header, message)
}

fn check_header(
    h: &INLPv6Packet,
    payload_len: u16,
    source_locator: u64,
    destination_locator: u64,
    destination_nid: u64,
) {
    assert_eq!(h.version, 6);
    assert_eq!(h.traffic_class, 0);
    assert_eq!(h.flow_label, 0);
    assert_eq!(h.payload_length, payload_len);
    assert_eq!(h.next_header, 150);
    assert_eq!(h.hop_limit, 1);
    assert_eq!(h.source_locator, source_locator);
    assert_eq!(h.source_identifier, 0x01);
    assert_eq!(h.destination_locator, destination_locator);
    assert_eq!(h.destination_identifier, destination_nid);
}

#[test]
fn node_starts_empty() {
    let node = Node::new(
        &tx_config(true),
        EmulatorLocalNetwork {
            local_uid: 1,
            local_index: 1,
            local_nid: 1,
            local_fqdn: "n".to_string(),
            local_ipv6: 1,
            local_port: 1,
        },
    )
    .unwrap();
    assert!(node.router);
    assert!(node.interfaces.entries.is_empty());
    assert_eq!(node.pcb, emulator::pcb::ILNP_PCB_S::default());
    assert_eq!(node.neighbours.lookup(1), None);
    assert_eq!(node.network.ND_RETRANSMIT_LIMIT, 3);
}

#[test]
fn node_refuses_a_neighbour_lifetime_beyond_the_limit() {
    let mut config = tx_config(false);
    config.network.ND_TTL_S = MAX_TTL_S + 1;
    let local = EmulatorLocalNetwork {
        local_uid: 1,
        local_index: 1,
        local_nid: 1,
        local_fqdn: "n".to_string(),
        local_ipv6: 1,
        local_port: 1,
    };
    assert_eq!(Node::new(&config, local).err(), Some(ErrorKind::ConfigError));
}

#[test]
fn time_marks_are_kept() {
    let mut node = tx_node(false);
    node.mark_started(10);
    node.mark_ready(20);
    node.mark_finished(30);
    assert_eq!(node.pcb.start_time, 10);
    assert_eq!(node.pcb.ready_time, 20);
    assert_eq!(node.pcb.finish_time, 30);
    assert_eq!(node.pcb.data_request_tx, 0);
}

#[test]
fn unicast_buffer_holds_payload_and_headers() {
    assert_eq!(unicast_buffer_len(1412), 1500);
    assert_eq!(unicast_buffer_len(0), 88);
    assert_eq!(unicast_buffer_len(u32::MAX), 4294967295 + 88);
}

#[test]
fn control_packet_is_header_then_message() {
    let node = tx_node(false);
    let d = jcmp_tx(
        &node,
        &0x02,
        &0xCC,
        &"multi1".to_string(),
        &JCMP_Basic_Pck::new().with_packet_code(0),
        None,
    )
    .unwrap();
    assert_eq!(d.counts, None);
    assert_eq!(d.interface, "multi1");
    assert_eq!(d.group, 0xB0);
    assert_eq!(d.bytes.len(), 41);
    let (h, m) = parse(&d.bytes);
    check_header(&h, 1, 0xCC, 0xBB, 0x02);
    assert!(matches!(m, ControlMessage::Solicitation));
    assert_eq!(node.pcb.nd_solicitation_jcmp_tx, 0);
}

#[test]
fn control_packet_needs_its_interface() {
    let node = tx_node(false);
    let r = jcmp_tx(
        &node,
        &2,
        &3,
        &"multi9".to_string(),
        &JCMP_Basic_Pck::new(),
        Some(Counter::NdSolicitationTx),
    );
    assert_eq!(r.err(), Some(ErrorKind::ConfigError));
}

#[test]
fn solicitation_goes_from_the_interface_locator() {
    let mut node = tx_node(false);
    let d = jcmp_tx_solicitation(&mut node, &0x02, &"multi0".to_string()).unwrap();
    assert_eq!(d.interface, "multi0");
    assert_eq!(d.group, 0xA0);
    let (h, m) = parse(&d.bytes);
    check_header(&h, 1, 0xAA, 0xAA, 0x02);
    assert!(matches!(m, ControlMessage::Solicitation));
    assert_eq!(d.counts, Some(Counter::NdSolicitationTx));
    assert_eq!(node.pcb.nd_solicitation_jcmp_tx, 0);
    confirm_multicast(&mut node, d.counts.unwrap());
    assert_eq!(node.pcb.nd_solicitation_jcmp_tx, 1);
}

#[test]
fn solicitation_on_unknown_interface_counts_nothing() {
    let mut node = tx_node(false);
    let r = jcmp_tx_solicitation(&mut node, &0x02, &"multi5".to_string());
    assert_eq!(r.err(), Some(ErrorKind::ConfigError));
    assert_eq!(node.pcb.nd_solicitation_jcmp_tx, 0);
}

#[test]
fn advertisement_states_the_unicast_port() {
    let mut node = tx_node(false);
    let d = jcmp_tx_advertisement(&mut node, &0x02, &"multi1".to_string()).unwrap();
    assert_eq!(d.group, 0xB0);
    let (h, m) = parse(&d.bytes);
    check_header(&h, 3, 0xBB, 0xBB, 0x02);
    assert!(matches!(m, ControlMessage::Advertisement { destination_port: 40001 }));
    assert_eq!(d.counts, Some(Counter::NdAdvertisementTx));
    assert_eq!(node.pcb.nd_advertisement_jcmp_tx, 0);
    confirm_multicast(&mut node, d.counts.unwrap());
    assert_eq!(node.pcb.nd_advertisement_jcmp_tx, 1);
}

#[test]
fn fqdn_query_goes_to_the_name_service() {
    let mut node = tx_node(false);
    let d = jcmp_tx_dns_fqdn_query(&mut node, &"node2".to_string()).unwrap();
    assert_eq!(d.interface, "dns");
    assert_eq!(d.group, 0xD0);
    let (h, m) = parse(&d.bytes);
    check_header(&h, 6, DNS_HOLDER, 0x53535353, DNS_HOLDER);
    match m {
        ControlMessage::FqdnQuery { fqdn } => assert_eq!(fqdn, b"node2".to_vec()),
        other => panic!("wrong message: {:?}", other),
    }
    assert_eq!(d.counts, Some(Counter::DnsFqdnQueryTx));
    assert_eq!(node.pcb.dns_fqdn_query_jcmp_tx, 0);
    confirm_multicast(&mut node, d.counts.unwrap());
    assert_eq!(node.pcb.dns_fqdn_query_jcmp_tx, 1);
}

#[test]
fn ilv_query_is_addressed_to_the_identifier() {
    let mut node = tx_node(false);
    let d = jcmp_tx_dns_ilv_query(&mut node, &0x07).unwrap();
    assert_eq!(d.interface, "dns");
    let (h, m) = parse(&d.bytes);
    check_header(&h, 1, DNS_HOLDER, 0x53535353, 0x07);
    assert!(matches!(m, ControlMessage::IlvQuery));
    assert_eq!(d.counts, Some(Counter::DnsIlvQueryTx));
    assert_eq!(node.pcb.dns_ilv_query_jcmp_tx, 0);
    confirm_multicast(&mut node, d.counts.unwrap());
    assert_eq!(node.pcb.dns_ilv_query_jcmp_tx, 1);
}

#[test]
fn queries_need_the_name_service() {
    let config = tx_config(false);
    let local = EmulatorLocalNetwork {
        local_uid: 1,
        local_index: 1,
        local_nid: 1,
        local_fqdn: "n".to_string(),
        local_ipv6: 1,
        local_port: 1,
    };
    let mut node = Node::new(&config, local).unwrap();
    node.register_interface("multi0".to_string(), 0xAA, 0xA0);
    assert_eq!(
        jcmp_tx_dns_fqdn_query(&mut node, &"x".to_string()).err(),
        Some(ErrorKind::ConfigError)
    );
    assert_eq!(jcmp_tx_dns_ilv_query(&mut node, &2).err(), Some(ErrorKind::ConfigError));
    assert_eq!(jcmp_tx_dns_fqdn_response(&mut node, &2).err(), Some(ErrorKind::ConfigError));
    assert_eq!(jcmp_tx_dns_ilv_response(&mut node, &2).err(), Some(ErrorKind::ConfigError));
    assert_eq!(node.pcb, emulator::pcb::ILNP_PCB_S::default());
}

#[test]
fn fqdn_response_is_sent_once_for_each_network() {
    let mut node = tx_node(false);
    let out = jcmp_tx_dns_fqdn_response(&mut node, &0x02).unwrap();
    assert_eq!(out.len(), 2);
    let sources = [0xAAu64, 0xBB];
    for (d, source) in out.iter().zip(sources.iter()) {
        assert_eq!(d.interface, "dns");
        assert_eq!(d.group, 0xD0);
        let (h, m) = parse(&d.bytes);
        check_header(&h, 7, *source, 0x53535353, 0x02);
        match m {
            ControlMessage::FqdnResponse { ttl, fqdn } => {
                assert_eq!(ttl, 20);
                assert_eq!(fqdn, b"node1".to_vec());
            },
            other => panic!("wrong message: {:?}", other),
        }
    }
    assert_eq!(node.pcb.dns_fqdn_response_jcmp_tx, 0);
    for d in &out {
        assert_eq!(d.counts, Some(Counter::DnsFqdnResponseTx));
        confirm_multicast(&mut node, d.counts.unwrap());
    }
    assert_eq!(node.pcb.dns_fqdn_response_jcmp_tx, 2);
}

#[test]
fn ilv_response_is_sent_once_for_each_network() {
    let mut node = tx_node(false);
    let out = jcmp_tx_dns_ilv_response(&mut node, &0x02).unwrap();
    assert_eq!(out.len(), 2);
    let (h0, m0) = parse(&out[0].bytes);
    let (h1, _) = parse(&out[1].bytes);
    check_header(&h0, 2, 0xAA, 0x53535353, 0x02);
    check_header(&h1, 2, 0xBB, 0x53535353, 0x02);
    assert!(matches!(m0, ControlMessage::IlvResponse { ttl: 20 }));
    assert_eq!(node.pcb.dns_ilv_response_jcmp_tx, 0);
    for d in &out {
        assert_eq!(d.counts, Some(Counter::DnsIlvResponseTx));
        confirm_multicast(&mut node, d.counts.unwrap());
    }
    assert_eq!(node.pcb.dns_ilv_response_jcmp_tx, 2);
}

#[test]
fn responses_without_networks_send_nothing() {
    let config = tx_config(false);
    let local = EmulatorLocalNetwork {
        local_uid: 1,
        local_index: 1,
        local_nid: 1,
        local_fqdn: "n".to_string(),
        local_ipv6: 1,
        local_port: 1,
    };
    let mut node = Node::new(&config, local).unwrap();
    assert!(jcmp_tx_dns_ilv_response(&mut node, &2).unwrap().is_empty());
    assert!(jcmp_tx_dns_fqdn_response(&mut node, &2).unwrap().is_empty());
}

#[test]
fn router_request_is_addressed_to_the_routers() {
    let mut node = tx_node(false);
    let d = jcmp_tx_router_request(&mut node, &0xCC, &"multi1".to_string(), &2).unwrap();
    assert_eq!(d.interface, "multi1");
    let (h, m) = parse(&d.bytes);
    check_header(&h, 10, 0xBB, 0xBB, ROUTERS_HOLDER);
    assert!(matches!(m, ControlMessage::RouterRequest { hop_count: 2, target: 0xCC }));
    assert_eq!(d.counts, Some(Counter::RouterRequestTx));
    assert_eq!(node.pcb.router_request_jcmp_tx, 0);
    confirm_multicast(&mut node, d.counts.unwrap());
    assert_eq!(node.pcb.router_request_jcmp_tx, 1);
}

#[test]
fn router_response_carries_hops_target_and_lifetime() {
    let mut node = tx_node(true);
    let d =
        jcmp_tx_router_response(&mut node, &0xCC, &0x02, &"multi0".to_string(), &3).unwrap();
    assert_eq!(d.interface, "multi0");
    let (h, m) = parse(&d.bytes);
    check_header(&h, 11, 0xAA, 0xAA, 0x02);
    assert!(matches!(
        m,
        ControlMessage::RouterResponse { hop_count: 3, target: 0xCC, ttl: 40 }
    ));
    assert_eq!(d.counts, Some(Counter::RouterResponseTx));
    assert_eq!(node.pcb.router_response_jcmp_tx, 0);
    confirm_multicast(&mut node, d.counts.unwrap());
    assert_eq!(node.pcb.router_response_jcmp_tx, 1);
}

#[test]
fn only_a_router_sends_a_router_response() {
    let mut node = tx_node(false);
    let r = jcmp_tx_router_response(&mut node, &0xCC, &0x02, &"multi0".to_string(), &3);
    assert_eq!(r.err(), Some(ErrorKind::ConfigError));
    assert_eq!(node.pcb.router_response_jcmp_tx, 0);
}

#[test]
fn sum_type_and_packet_structs_agree_on_the_wire() {
    assert_eq!(
        JCMP_Basic_Pck::new().with_packet_code(0).into_bytes(),
        ControlMessage::Solicitation.encode()
    );
    assert_eq!(
        JCMP_Basic_Pck::new().with_packet_code(6).into_bytes(),
        ControlMessage::IlvQuery.encode()
    );
}

#[test]
fn raw_packets_go_out_unchanged() {
    let node = tx_node(false);
    let d = underlay_multi_tx(&node, &"log".to_string(), b"INFO;x").unwrap();
    assert_eq!(d.counts, None);
    assert_eq!(d.interface, "log");
    assert_eq!(d.group, 0xE0);
    assert_eq!(d.bytes, b"INFO;x".to_vec());
    assert_eq!(
        underlay_multi_tx(&node, &"nope".to_string(), b"x").err(),
        Some(ErrorKind::ConfigError)
    );
    let u = underlay_uni_tx(&0xfe80, &5000, &[1, 2, 3]);
    assert_eq!(u.address, 0xfe80);
    assert_eq!(u.port, 5000);
    assert_eq!(u.bytes, vec![1, 2, 3]);
}

#[test]
fn a_control_packet_that_was_not_sent_is_not_counted() {
    let mut node = tx_node(true);
    let _ = jcmp_tx_solicitation(&mut node, &0x02, &"multi0".to_string()).unwrap();
    let _ = jcmp_tx_advertisement(&mut node, &0x02, &"multi0".to_string()).unwrap();
    let _ = jcmp_tx_dns_fqdn_query(&mut node, &"node2".to_string()).unwrap();
    let _ = jcmp_tx_dns_ilv_query(&mut node, &0x02).unwrap();
    let _ = jcmp_tx_dns_fqdn_response(&mut node, &0x02).unwrap();
    let _ = jcmp_tx_dns_ilv_response(&mut node, &0x02).unwrap();
    let _ = jcmp_tx_router_request(&mut node, &0xCC, &"multi0".to_string(), &0).unwrap();
    let _ = jcmp_tx_router_response(&mut node, &0xCC, &0x02, &"multi0".to_string(), &1).unwrap();
    assert_eq!(node.pcb, emulator::pcb::ILNP_PCB_S::default());
}

#[test]
fn confirming_counts_the_named_counter_alone() {
    let mut node = tx_node(false);
    confirm_multicast(&mut node, Counter::RouterRequestTx);
    confirm_multicast(&mut node, Counter::RouterRequestTx);
    confirm_delivered(&mut node);
    let mut expected = emulator::pcb::ILNP_PCB_S::default();
    expected.router_request_jcmp_tx = 2;
    expected.data_request_rx = 1;
    assert_eq!(node.pcb, expected);
}
