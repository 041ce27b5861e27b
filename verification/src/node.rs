//! The state of one node, owned by whoever runs it and handed to every
//! operation of the engine, and the datagrams that the engine asks to have
//! sent.

use vstd::prelude::*;
use crate::config::{Config, NetworkConfig};
use crate::error::ErrorKind;
use crate::interfaces::{position_of, InterfaceTable};
use crate::network::EmulatorLocalNetwork;
use crate::pcb::{Counter, ILNP_PCB_S};
use crate::tables::{BindingTable, ForwardingTable, NameTable, NeighbourTable, MAX_TTL_S};

verus! {

/// A packet to send to the multicast group of an interface.
#[derive(Debug, Clone)]
pub struct MulticastDatagram {
    /// Name of the interface.
    pub interface: String,
    /// Address of its multicast group.
    pub group: u128,
    /// The packet: header and payload.
    pub bytes: Vec<u8>,
    /// The counter that counts the packet once it has been sent, if one
    /// does: see `confirm_multicast`.
    pub counts: Option<Counter>,
}

/// A packet to send to one endpoint.
#[derive(Debug, Clone)]
pub struct UnicastDatagram {
    pub address: u128,
    pub port: u16,
    /// The packet: header and payload.
    pub bytes: Vec<u8>,
}

/// Everything a node knows.
pub struct Node {
    /// Whether the node forwards traffic for others.
    pub router: bool,
    pub network: NetworkConfig,
    pub local: EmulatorLocalNetwork,
    pub interfaces: InterfaceTable,
    pub neighbours: NeighbourTable,
    pub names: NameTable,
    pub bindings: BindingTable,
    pub routes: ForwardingTable,
    pub pcb: ILNP_PCB_S,
}

impl Node {
    /// A node with empty tables and all counters at zero. Fails with
    /// `ConfigError` exactly when the lifetime of a neighbour exceeds
    /// `MAX_TTL_S`.
    pub fn new(config: &Config, local: EmulatorLocalNetwork) -> (r: Result<Node, ErrorKind>)
        ensures
            config.network.ND_TTL_S > MAX_TTL_S ==> r is Err && r->Err_0 == ErrorKind::ConfigError,
            config.network.ND_TTL_S <= MAX_TTL_S ==> r is Ok && r->Ok_0.interfaces.wf() && r->Ok_0.router
                == config.node.router && r->Ok_0.network == config.network && r->Ok_0.local
                == local && r->Ok_0.interfaces@.len() == 0 && r->Ok_0.neighbours.entries().dom()
                == Set::<u64>::empty() && r->Ok_0.names.entries().dom() == Set::<
                (u64, u64),
            >::empty() && r->Ok_0.bindings.entries().dom() == Set::<(u64, u64)>::empty()
                && r->Ok_0.routes.entries().dom() == Set::<(u64, u64)>::empty()
                && r->Ok_0.neighbours.limit() == config.network.ND_CACHE_SIZE
                && r->Ok_0.routes.limit() == config.network.ND_CACHE_SIZE
                && r->Ok_0.names.limit() == config.network.ND_CACHE_SIZE
                && r->Ok_0.bindings.limit() == config.network.ND_CACHE_SIZE
                && r->Ok_0.pcb == ILNP_PCB_S::default_spec(),
    {
        if config.network.ND_TTL_S > MAX_TTL_S {
            return Err(ErrorKind::ConfigError);
        }
        let capacity = config.network.ND_CACHE_SIZE;
        Ok(
            Node {
                router: config.node.router,
                network: config.network,
                local,
                interfaces: InterfaceTable::new(),
                neighbours: NeighbourTable::new(capacity),
                names: NameTable::new(capacity),
                bindings: BindingTable::new(capacity),
                routes: ForwardingTable::new(capacity),
                pcb: ILNP_PCB_S::default(),
            },
        )
    }
}


/// The node with one more event of the named kind counted.
pub open spec fn node_counted(node: Node, which: Counter) -> Node {
    Node { pcb: node.pcb.counted(which), ..node }
}

/// Counts a control packet once it has been sent: `which` is the counter
/// that the packet names.
pub fn confirm_multicast(node: &mut Node, which: Counter)
    ensures
        *final(node) == node_counted(*old(node), which),
{
    node.pcb.count(which);
}

/// Counts a data packet for this node once it has been handed to the
/// application.
pub fn confirm_delivered(node: &mut Node)
    ensures
        *final(node) == node_counted(*old(node), Counter::DataRequestRx),
{
    node.pcb.count(Counter::DataRequestRx);
}

/// Bytes that an ILNPv6 header, a UDP header and an IPv6 header take
/// together.
pub const UNDERLAY_OVERHEAD: u64 = 88;

/// Length of the buffer that holds any packet received on the unicast
/// socket: the largest payload and the headers around it.
pub fn unicast_buffer_len(mtu: u32) -> (len: u64)
    ensures
        len == mtu + 88,
{
    mtu as u64 + UNDERLAY_OVERHEAD
}

impl Node {
    /// Notes when the protocol was started.
    pub fn mark_started(&mut self, timestamp: u64)
        ensures
            *final(self) == (Node {
                pcb: ILNP_PCB_S { start_time: timestamp, ..old(self).pcb },
                ..*old(self)
            }),
    {
        self.pcb.start_time = timestamp;
    }

    /// Notes when the protocol was ready for use.
    pub fn mark_ready(&mut self, timestamp: u64)
        ensures
            *final(self) == (Node {
                pcb: ILNP_PCB_S { ready_time: timestamp, ..old(self).pcb },
                ..*old(self)
            }),
    {
        self.pcb.ready_time = timestamp;
    }

    /// Notes when the protocol was shut down.
    pub fn mark_finished(&mut self, timestamp: u64)
        ensures
            *final(self) == (Node {
                pcb: ILNP_PCB_S { finish_time: timestamp, ..old(self).pcb },
                ..*old(self)
            }),
    {
        self.pcb.finish_time = timestamp;
    }

    /// Enters an interface that the node has joined: see
    /// `InterfaceTable::insert`.
    pub fn register_interface(&mut self, name: String, locator: u64, multicast: u128)
        ensures
            old(self).interfaces.wf() ==> final(self).interfaces.wf(),
            *final(self) == (Node { interfaces: final(self).interfaces, ..*old(self) }),
            position_of(old(self).interfaces@, name@) < old(self).interfaces@.len()
                ==> final(self).interfaces@ == old(self).interfaces@.update(
                position_of(old(self).interfaces@, name@),
                (name@, locator, multicast),
            ),
            position_of(old(self).interfaces@, name@) >= old(self).interfaces@.len()
                ==> final(self).interfaces@ == old(self).interfaces@.push(
                (name@, locator, multicast),
            ),
    {
        self.interfaces.insert(name, locator, multicast);
    }
}

} // verus!
