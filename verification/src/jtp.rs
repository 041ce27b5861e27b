//! The transport that applications use: sending by identifier or by name,
//! and receiving with a choice of how long to wait.

use vstd::prelude::*;
use vstd::string::StringExecFns;
use crate::network::JTPResponse;
use crate::node::Node;
use crate::send::{fqdn_tx_begun, ilnp_fqdn_tx, ilnp_nid_tx, nid_tx_begun, Transmission};

verus! {

/// How many packets wait for the application at most; more are dropped.
pub const JTP_QUEUE_CAPACITY: usize = 100;

/// How a receive waits.
#[derive(Debug, Clone, Copy, PartialEq, Eq, Structural)]
pub enum RecvMode {
    /// Until a packet arrives or the queue closes.
    Block,
    /// Not at all.
    Poll,
    /// For so many milliseconds at most.
    Wait(u64),
}

/// What a receive came to.
#[derive(Debug, Clone)]
pub enum QueueEvent {
    /// A packet was waiting or arrived in time.
    Packet(JTPResponse),
    /// No packet was waiting.
    Empty,
    /// The queue is closed.
    Closed,
    /// The time ran out.
    Elapsed,
}

/// Why a receive brought no packet.
#[derive(Debug, Clone, Copy, PartialEq, Eq, Structural)]
pub enum RecvError {
    QueueClosed,
    NoPackets,
    TimedOut,
}

impl RecvError {
    /// A short text for people.
    pub fn message(&self) -> (text: String)
        ensures
            text@ == match *self {
                RecvError::QueueClosed => "queue closed"@,
                RecvError::NoPackets => "no packets"@,
                RecvError::TimedOut => "timed out"@,
            },
    {
        match self {
            RecvError::QueueClosed => String::from_str("queue closed"),
            RecvError::NoPackets => String::from_str("no packets"),
            RecvError::TimedOut => String::from_str("timed out"),
        }
    }
}

/// The way of waiting that `timeout_millisecs` asks for: a negative number
/// blocks, zero polls, a positive number waits that many milliseconds.
pub open spec fn mode_of(timeout_millisecs: i64) -> RecvMode {
    if timeout_millisecs < 0 {
        RecvMode::Block
    } else if timeout_millisecs == 0 {
        RecvMode::Poll
    } else {
        RecvMode::Wait(timeout_millisecs as u64)
    }
}

/// The way of waiting that `timeout_millisecs` asks for: see `mode_of`.
pub fn jtp_rx_mode(timeout_millisecs: i64) -> (mode: RecvMode)
    ensures
        mode == mode_of(timeout_millisecs),
{
    if timeout_millisecs < 0 {
        RecvMode::Block
    } else if timeout_millisecs == 0 {
        RecvMode::Poll
    } else {
        RecvMode::Wait(timeout_millisecs as u64)
    }
}

/// What a receive returns for what it came to: the packet, or why there
/// is none.
pub fn jtp_rx(event: QueueEvent) -> (r: Result<JTPResponse, RecvError>)
    ensures
        r == match event {
            QueueEvent::Packet(packet) => Ok::<JTPResponse, RecvError>(packet),
            QueueEvent::Empty => Err::<JTPResponse, RecvError>(RecvError::NoPackets),
            QueueEvent::Closed => Err::<JTPResponse, RecvError>(RecvError::QueueClosed),
            QueueEvent::Elapsed => Err::<JTPResponse, RecvError>(RecvError::TimedOut),
        },
{
    match event {
        QueueEvent::Packet(packet) => Ok(packet),
        QueueEvent::Empty => Err(RecvError::NoPackets),
        QueueEvent::Closed => Err(RecvError::QueueClosed),
        QueueEvent::Elapsed => Err(RecvError::TimedOut),
    }
}

/// Begins the transmission of `buf` to the node `destination_nid`: see
/// `nid_tx_begun`.
pub fn jtp_nid_tx(node: &Node, destination_nid: &u64, buf: &[u8]) -> (tx: Transmission)
    ensures
        nid_tx_begun(*node, *destination_nid, buf@, tx),
{
    ilnp_nid_tx(node, destination_nid, buf)
}

/// Begins the transmission of `buf` to a node that bears the name
/// `destination_fqdn`: see `fqdn_tx_begun`.
pub fn jtp_fqdn_tx(destination_fqdn: &String, buf: &[u8]) -> (tx: Transmission)
    ensures
        fqdn_tx_begun(*destination_fqdn, buf@, tx),
{
    ilnp_fqdn_tx(destination_fqdn, buf)
}

} // verus!
