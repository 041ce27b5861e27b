//! The settings that a node is started with.

use vstd::prelude::*;

verus! {

/// Which application runs on top of the engine.
#[derive(Debug, Clone)]
pub struct AppConfig {
    pub logger: bool,
    pub test_convergence: bool,
    pub test_single: bool,
    pub test_flow: bool,
    pub test_throughput: bool,
    pub test_latency: bool,
    pub sensor_application: bool,
}

/// Who the node is and where it is attached.
#[derive(Debug, Clone)]
pub struct NodeConfig {
    /// Whether the node forwards traffic for others.
    pub router: bool,
    /// The small integers that name the networks the node joins.
    pub networks: Vec<u16>,
    /// The node's identifier.
    pub nid: u64,
    /// The node's name.
    pub name: String,
}

/// Timers, limits and lifetimes of the protocol.
#[allow(non_snake_case)]
#[derive(Debug, Clone, Copy)]
pub struct NetworkConfig {
    pub MTU: u32,
    /// Pause after a solicitation or a query, in milliseconds.
    pub ND_RTO_MS: u64,
    /// How many solicitations or queries one resolution may send.
    pub ND_RETRANSMIT_LIMIT: u64,
    /// Lifetime of a neighbour entry, in seconds.
    pub ND_TTL_S: u64,
    /// How many entries each table holds.
    pub ND_CACHE_SIZE: usize,
    /// Lifetime that this node's name answers carry, in seconds.
    pub DNS_TTL_S: u8,
    /// Deadline of a path discovery, in milliseconds.
    pub AD_HOC_TIMEOUT_MS: u64,
    /// Pause between two looks at the forwarding table, in nanoseconds.
    pub AD_HOC_RTO_NS: u64,
    /// Lifetime that this node's route answers carry, in seconds.
    pub AD_HOC_TTL_S: u8,
    /// A route request that has made more hops than this is dropped.
    pub AD_MAX_HOPS: u8,
}

/// All settings.
#[derive(Debug, Clone)]
pub struct Config {
    pub app: AppConfig,
    pub node: NodeConfig,
    pub network: NetworkConfig,
}

} // verus!
