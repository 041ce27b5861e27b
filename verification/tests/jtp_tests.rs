use emulator::error::ErrorKind;
use emulator::jtp::{jtp_rx, jtp_rx_mode, QueueEvent, RecvError, RecvMode, JTP_QUEUE_CAPACITY};
use emulator::network::{EmulatorLocalNetwork, JTPResponse};

fn packet() -> JTPResponse {
    JTPResponse {
        source_locator: 0xAA,
        source_nid: 1,
        destination_locator: 0xAA,
        destination_nid: 2,
        payload: b"hi".to_vec(),
    }
}

#[test]
fn recv_modes_follow_the_sign_of_the_timeout() {
    assert_eq!(jtp_rx_mode(-1), RecvMode::Block);
    assert_eq!(jtp_rx_mode(i64::MIN), RecvMode::Block);
    assert_eq!(jtp_rx_mode(0), RecvMode::Poll);
    assert_eq!(jtp_rx_mode(50), RecvMode::Wait(50));
    assert_eq!(jtp_rx_mode(i64::MAX), RecvMode::Wait(i64::MAX as u64));
}

#[test]
fn recv_returns_the_packet() {
    let r = jtp_rx(QueueEvent::Packet(packet())).unwrap();
    assert_eq!(r.payload, b"hi".to_vec());
    assert_eq!(r.source_nid, 1);
    assert_eq!(r.source_locator, 0xAA);
    assert_eq!(r.destination_nid, 2);
    assert_eq!(r.destination_locator, 0xAA);
}

#[test]
fn recv_reports_why_there_is_no_packet() {
    assert_eq!(jtp_rx(QueueEvent::Empty).err(), Some(RecvError::NoPackets));
    assert_eq!(jtp_rx(QueueEvent::Elapsed).err(), Some(RecvError::TimedOut));
    assert_eq!(jtp_rx(QueueEvent::Closed).err(), Some(RecvError::QueueClosed));
    assert_eq!(RecvError::NoPackets.message(), "no packets");
    assert_eq!(RecvError::TimedOut.message(), "timed out");
    assert_eq!(RecvError::QueueClosed.message(), "queue closed");
}

#[test]
fn application_queue_holds_a_hundred() {
    assert_eq!(JTP_QUEUE_CAPACITY, 100);
}

#[test]
fn error_kinds_have_texts() {
    assert_eq!(ErrorKind::ParseError.message(), "parse error");
    assert_eq!(ErrorKind::ResolutionFailure.message(), "couldn't resolve host");
    assert_eq!(ErrorKind::UnreachableHost.message(), "host unreachable");
    assert_eq!(ErrorKind::IOError.message(), "i/o error");
    assert_eq!(ErrorKind::ConfigError.message(), "interface not found");
    assert_eq!(ErrorKind::LockPoisoned.message(), "lock poisoned");
}

#[test]
fn local_port_can_be_set() {
    let mut local = EmulatorLocalNetwork {
        local_uid: 1,
        local_index: 2,
        local_nid: 3,
        local_fqdn: "n".to_string(),
        local_ipv6: 4,
        local_port: 0,
    };
    local.set_local_port(40000);
    assert_eq!(local.local_port, 40000);
    assert_eq!(local.local_uid, 1);
    assert_eq!(local.local_index, 2);
    assert_eq!(local.local_nid, 3);
    assert_eq!(local.local_fqdn, "n");
    assert_eq!(local.local_ipv6, 4);
}
