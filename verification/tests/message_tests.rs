use emulator::control::{
    JCMP_Basic_Pck, JCMP_DNS_FQDN_Query_Packet, JCMP_DNS_FQDN_Response_Packet,
    JCMP_DNS_ILV_Response_Packet, JCMP_ND_Advertisement, JCMP_Pck, JCMP_Router_Request,
    JCMP_Router_Response,
};
use emulator::error::ErrorKind;
use emulator::message::ControlMessage;

fn round_trip(message: ControlMessage) -> ControlMessage {
    ControlMessage::decode(&message.encode()).unwrap()
}

#[test]
fn solicitation_is_one_byte() {
    assert_eq!(ControlMessage::Solicitation.encode(), vec![0u8]);
    assert!(matches!(round_trip(ControlMessage::Solicitation), ControlMessage::Solicitation));
}

#[test]
fn advertisement_carries_port_big_endian() {
    let m = ControlMessage::Advertisement { destination_port: 0xABCD };
    assert_eq!(m.encode(), vec![1u8, 0xAB, 0xCD]);
    assert!(matches!(
        round_trip(m),
        ControlMessage::Advertisement { destination_port: 0xABCD }
    ));
}

#[test]
fn fqdn_query_carries_name_as_tail() {
    let m = ControlMessage::FqdnQuery { fqdn: b"node2".to_vec() };
    assert_eq!(m.encode(), vec![4u8, b'n', b'o', b'd', b'e', b'2']);
    match round_trip(m) {
        ControlMessage::FqdnQuery { fqdn } => assert_eq!(fqdn, b"node2".to_vec()),
        other => panic!("wrong message: {:?}", other),
    }
}

#[test]
fn fqdn_query_may_have_empty_name() {
    match ControlMessage::decode(&[4u8]).unwrap() {
        ControlMessage::FqdnQuery { fqdn } => assert!(fqdn.is_empty()),
        other => panic!("wrong message: {:?}", other),
    }
}

#[test]
fn fqdn_response_carries_ttl_and_name() {
    let m = ControlMessage::FqdnResponse { ttl: 30, fqdn: b"n1".to_vec() };
    assert_eq!(m.encode(), vec![5u8, 30, b'n', b'1']);
    match round_trip(m) {
        ControlMessage::FqdnResponse { ttl, fqdn } => {
            assert_eq!(ttl, 30);
            assert_eq!(fqdn, b"n1".to_vec());
        },
        other => panic!("wrong message: {:?}", other),
    }
}

#[test]
fn ilv_query_and_response_round_trip() {
    assert_eq!(ControlMessage::IlvQuery.encode(), vec![6u8]);
    assert!(matches!(round_trip(ControlMessage::IlvQuery), ControlMessage::IlvQuery));
    let m = ControlMessage::IlvResponse { ttl: 9 };
    assert_eq!(m.encode(), vec![7u8, 9]);
    assert!(matches!(round_trip(m), ControlMessage::IlvResponse { ttl: 9 }));
}

#[test]
fn router_request_layout() {
    let m = ControlMessage::RouterRequest { hop_count: 3, target: 0x0102030405060708 };
    assert_eq!(m.encode(), vec![8u8, 3, 1, 2, 3, 4, 5, 6, 7, 8]);
    assert!(matches!(
        round_trip(m),
        ControlMessage::RouterRequest { hop_count: 3, target: 0x0102030405060708 }
    ));
}

#[test]
fn router_response_layout() {
    let m = ControlMessage::RouterResponse { hop_count: 2, target: 0xBB, ttl: 60 };
    assert_eq!(m.encode(), vec![9u8, 2, 0, 0, 0, 0, 0, 0, 0, 0xBB, 60]);
    assert!(matches!(
        round_trip(m),
        ControlMessage::RouterResponse { hop_count: 2, target: 0xBB, ttl: 60 }
    ));
}

#[test]
fn message_codes_are_as_listed() {
    assert_eq!(ControlMessage::Solicitation.code(), 0);
    assert_eq!(ControlMessage::Advertisement { destination_port: 0 }.code(), 1);
    assert_eq!(ControlMessage::FqdnQuery { fqdn: Vec::new() }.code(), 4);
    assert_eq!(ControlMessage::FqdnResponse { ttl: 0, fqdn: Vec::new() }.code(), 5);
    assert_eq!(ControlMessage::IlvQuery.code(), 6);
    assert_eq!(ControlMessage::IlvResponse { ttl: 0 }.code(), 7);
    assert_eq!(ControlMessage::RouterRequest { hop_count: 0, target: 0 }.code(), 8);
    assert_eq!(ControlMessage::RouterResponse { hop_count: 0, target: 0, ttl: 0 }.code(), 9);
}

#[test]
fn decode_rejects_short_payloads() {
    assert_eq!(ControlMessage::decode(&[]).err(), Some(ErrorKind::ParseError));
    assert_eq!(ControlMessage::decode(&[1, 0]).err(), Some(ErrorKind::ParseError));
    assert_eq!(ControlMessage::decode(&[5]).err(), Some(ErrorKind::ParseError));
    assert_eq!(ControlMessage::decode(&[7]).err(), Some(ErrorKind::ParseError));
    assert_eq!(ControlMessage::decode(&[8, 0, 0, 0, 0, 0, 0, 0, 0]).err(), Some(ErrorKind::ParseError));
    assert_eq!(
        ControlMessage::decode(&[9, 0, 0, 0, 0, 0, 0, 0, 0, 0]).err(),
        Some(ErrorKind::ParseError)
    );
}

#[test]
fn decode_accepts_minimum_lengths() {
    assert!(ControlMessage::decode(&[0]).is_ok());
    assert!(ControlMessage::decode(&[1, 0, 0]).is_ok());
    assert!(ControlMessage::decode(&[4]).is_ok());
    assert!(ControlMessage::decode(&[5, 0]).is_ok());
    assert!(ControlMessage::decode(&[6]).is_ok());
    assert!(ControlMessage::decode(&[7, 0]).is_ok());
    assert!(ControlMessage::decode(&[8, 0, 0, 0, 0, 0, 0, 0, 0, 0]).is_ok());
    assert!(ControlMessage::decode(&[9, 0, 0, 0, 0, 0, 0, 0, 0, 0, 0]).is_ok());
}

#[test]
fn decode_rejects_unknown_codes() {
    assert_eq!(ControlMessage::decode(&[2, 0, 0]).err(), Some(ErrorKind::ParseError));
    assert_eq!(ControlMessage::decode(&[3, 0, 0]).err(), Some(ErrorKind::ParseError));
    assert_eq!(ControlMessage::decode(&[10; 16]).err(), Some(ErrorKind::ParseError));
    assert_eq!(ControlMessage::decode(&[255; 16]).err(), Some(ErrorKind::ParseError));
}

#[test]
fn decode_ignores_bytes_after_a_fixed_message() {
    assert!(matches!(
        ControlMessage::decode(&[7, 5, 99, 99]).unwrap(),
        ControlMessage::IlvResponse { ttl: 5 }
    ));
}

#[test]
fn basic_packet_is_its_code() {
    let p = JCMP_Basic_Pck::new().with_packet_code(6);
    assert_eq!(p.packet_code(), 6);
    assert_eq!(p.get_packet_code(), 6);
    assert_eq!(p.into_bytes(), vec![6u8]);
    assert_eq!(JCMP_Basic_Pck::from_bytes([4]).packet_code(), 4);
}

#[test]
fn advertisement_packet_from_bytes() {
    let p = JCMP_ND_Advertisement::from_bytes(&[1, 0x12, 0x34]).unwrap();
    assert_eq!(p.header.packet_code(), 1);
    assert_eq!(p.destination_port, 0x1234);
    assert_eq!(p.get_packet_code(), 1);
    assert_eq!(p.into_bytes(), vec![1u8, 0x12, 0x34]);
    assert_eq!(JCMP_ND_Advertisement::from_bytes(&[1, 0x12]).err(), Some(ErrorKind::ParseError));
}

#[test]
fn fqdn_query_packet_from_bytes() {
    let p = JCMP_DNS_FQDN_Query_Packet::from_bytes(&[4, b'a', b'b']).unwrap();
    assert_eq!(p.header.packet_code(), 4);
    assert_eq!(p.fqdn, b"ab".to_vec());
    assert_eq!(p.into_bytes(), vec![4u8, b'a', b'b']);
    assert_eq!(
        JCMP_DNS_FQDN_Query_Packet::from_bytes(&[]).err(),
        Some(ErrorKind::ParseError)
    );
}

#[test]
fn fqdn_response_packet_from_bytes() {
    let p = JCMP_DNS_FQDN_Response_Packet::from_bytes(&[5, 7, b'x']).unwrap();
    assert_eq!(p.header.packet_code(), 5);
    assert_eq!(p.ttl, 7);
    assert_eq!(p.fqdn, b"x".to_vec());
    assert_eq!(p.get_packet_code(), 5);
    assert_eq!(p.into_bytes(), vec![5u8, 7, b'x']);
    assert_eq!(
        JCMP_DNS_FQDN_Response_Packet::from_bytes(&[5]).err(),
        Some(ErrorKind::ParseError)
    );
}

#[test]
fn ilv_response_packet_builders() {
    let p = JCMP_DNS_ILV_Response_Packet::new().with_packet_code(7).with_ttl(11);
    assert_eq!(p.packet_code(), 7);
    assert_eq!(p.ttl(), 11);
    assert_eq!(p.into_bytes(), vec![7u8, 11]);
    assert_eq!(JCMP_DNS_ILV_Response_Packet::from_bytes([7, 11]), p);
}

#[test]
fn router_request_packet_builders() {
    let p = JCMP_Router_Request::new()
        .with_packet_code(8)
        .with_hop_count(4)
        .with_destination_locator(0xAABB);
    assert_eq!(p.packet_code(), 8);
    assert_eq!(p.hop_count(), 4);
    assert_eq!(p.destination_locator(), 0xAABB);
    assert_eq!(p.into_bytes(), vec![8u8, 4, 0, 0, 0, 0, 0, 0, 0xAA, 0xBB]);
    assert_eq!(JCMP_Router_Request::from_bytes([8, 4, 0, 0, 0, 0, 0, 0, 0xAA, 0xBB]), p);
}

#[test]
fn router_response_packet_builders() {
    let p = JCMP_Router_Response::new()
        .with_packet_code(9)
        .with_hop_count(2)
        .with_destination_locator(0x01)
        .with_ttl(5);
    assert_eq!(p.packet_code(), 9);
    assert_eq!(p.hop_count(), 2);
    assert_eq!(p.destination_locator(), 1);
    assert_eq!(p.ttl(), 5);
    assert_eq!(p.get_packet_code(), 9);
    assert_eq!(p.into_bytes(), vec![9u8, 2, 0, 0, 0, 0, 0, 0, 0, 1, 5]);
    assert_eq!(JCMP_Router_Response::from_bytes([9, 2, 0, 0, 0, 0, 0, 0, 0, 1, 5]), p);
}
