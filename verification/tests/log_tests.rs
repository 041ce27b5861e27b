use emulator::config::{AppConfig, Config, NetworkConfig, NodeConfig};
use emulator::error::ErrorKind;
use emulator::log::{log_at, log_error, log_info};
use emulator::network::EmulatorLocalNetwork;
use emulator::node::Node;
use emulator::time::get_current_timestamp;

fn lg_node(with_log: bool) -> Node {
    let config = Config {
        app: AppConfig {
            logger: false,
            test_convergence: false,
            test_single: false,
            test_flow: false,
            test_throughput: false,
            test_latency: false,
            sensor_application: false,
        },
        node: NodeConfig { router: false, networks: vec![1], nid: 0xABC, name: "n".to_string() },
        network: NetworkConfig {
            MTU: 1412,
            ND_RTO_MS: 10,
            ND_RETRANSMIT_LIMIT: 3,
            ND_TTL_S: 30,
            ND_CACHE_SIZE: 16,
            DNS_TTL_S: 20,
            AD_HOC_TIMEOUT_MS: 100,
            AD_HOC_RTO_NS: 1000,
            AD_HOC_TTL_S: 40,
            AD_MAX_HOPS: 5,
        },
    };
    let local = EmulatorLocalNetwork {
        local_uid: 1000,
        local_index: 2,
        local_nid: 0xABC,
        local_fqdn: "n".to_string(),
        local_ipv6: 1,
        local_port: 2,
    };
    let mut node = Node::new(&config, local).unwrap();
    node.register_interface("multi0".to_string(), 0xAA, 0xA0);
    if with_log {
        node.register_interface("log".to_string(), 0xABC0ABC, 0xE0);
    }
    node
}

#[test]
fn log_line_goes_to_the_log_group_as_text() {
    let node = lg_node(true);
    let d = log_at(&node, "INFO", 1_700_000_000_000_001, "ILNP layer running.").unwrap();
    assert_eq!(d.interface, "log");
    assert_eq!(d.group, 0xE0);
    assert_eq!(
        d.bytes,
        b"INFO;0x0000000000000ABC;1700000000000001;ILNP layer running.".to_vec()
    );
}

#[test]
fn log_line_keeps_text_beyond_ascii() {
    let node = lg_node(true);
    let d = log_at(&node, "ERROR", 7, "nœud").unwrap();
    assert_eq!(d.bytes, "ERROR;0x0000000000000ABC;7;nœud".as_bytes().to_vec());
}

#[test]
fn log_line_needs_the_log_interface() {
    let node = lg_node(false);
    assert_eq!(log_at(&node, "INFO", 1, "x").err(), Some(ErrorKind::ConfigError));
    assert_eq!(log_info(&node, "x").err(), Some(ErrorKind::ConfigError));
    assert_eq!(log_error(&node, "x").err(), Some(ErrorKind::ConfigError));
}

#[test]
fn info_and_error_lines_carry_the_present_time() {
    let node = lg_node(true);
    let before = get_current_timestamp().unwrap();
    let info = String::from_utf8(log_info(&node, "hello").unwrap().bytes).unwrap();
    let error = String::from_utf8(log_error(&node, "oops").unwrap().bytes).unwrap();
    let after = get_current_timestamp().unwrap();
    let parts: Vec<&str> = info.split(';').collect();
    assert_eq!(parts.len(), 4);
    assert_eq!(parts[0], "INFO");
    assert_eq!(parts[1], "0x0000000000000ABC");
    let stamp: u64 = parts[2].parse().unwrap();
    assert!(before <= stamp && stamp <= after);
    assert_eq!(parts[3], "hello");
    let parts: Vec<&str> = error.split(';').collect();
    assert_eq!(parts[0], "ERROR");
    assert_eq!(parts[3], "oops");
}
