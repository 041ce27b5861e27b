//! What a node knows of itself on the underlay, and what it hands to the
//! application for each data packet.

use vstd::prelude::*;

verus! {

/// The node's own endpoint. An IPv6 address is its 128 bits, first octet
/// most significant.
#[derive(Debug, Clone)]
pub struct EmulatorLocalNetwork {
    pub local_uid: u16,
    pub local_index: u32,
    pub local_nid: u64,
    pub local_fqdn: String,
    pub local_ipv6: u128,
    pub local_port: u16,
}

impl EmulatorLocalNetwork {
    /// Records the port that the unicast socket was bound to.
    pub fn set_local_port(&mut self, new_port: u16)
        ensures
            final(self).local_port == new_port,
            final(self).local_uid == old(self).local_uid,
            final(self).local_index == old(self).local_index,
            final(self).local_nid == old(self).local_nid,
            final(self).local_fqdn == old(self).local_fqdn,
            final(self).local_ipv6 == old(self).local_ipv6,
    {
        self.local_port = new_port;
    }
}

/// A data packet as the application receives it.
#[derive(Debug, Clone)]
pub struct JTPResponse {
    pub source_locator: u64,
    pub source_nid: u64,
    pub destination_locator: u64,
    pub destination_nid: u64,
    pub payload: Vec<u8>,
}

} // verus!
