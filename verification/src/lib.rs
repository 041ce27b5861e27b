//! The engine of a node of an identifier/locator network that runs over
//! IPv6 multicast groups: packet codecs, the node's tables, the handling of
//! control messages, the resolvers, and the sending of data.
//!
//! The engine does no input or output. It is handed what was received and
//! hands back what is to be sent and how long to wait; whoever runs the
//! node owns the sockets and the clock of the waits.

pub mod error;
pub mod wire;
pub mod format;
pub mod text;
pub mod time;
pub mod header;
pub mod control;
pub mod message;
pub mod config;
pub mod network;
pub mod pcb;
pub mod interfaces;
pub mod ttl;
pub mod tables;
pub mod node;
pub mod underlay;
pub mod transmit;
pub mod dispatch;
pub mod resolve;
pub mod send;
pub mod jtp;
pub mod log;
pub mod sensor;
pub mod laws;
