//! The protocol control block: three time marks and one counter for each
//! class of packet and direction.

use vstd::prelude::*;

verus! {

/// Names one counter of the control block.
#[derive(Debug, Clone, Copy, PartialEq, Eq, Structural)]
pub enum Counter {
    DataRequestRx,
    DataRequestTx,
    DataRequestForwardRx,
    DataRequestForwardTx,
    NdSolicitationRx,
    NdSolicitationTx,
    NdAdvertisementRx,
    NdAdvertisementTx,
    DnsFqdnQueryRx,
    DnsFqdnQueryTx,
    DnsFqdnResponseRx,
    DnsFqdnResponseTx,
    DnsIlvQueryRx,
    DnsIlvQueryTx,
    DnsIlvResponseRx,
    DnsIlvResponseTx,
    RouterRequestRx,
    RouterRequestTx,
    RouterResponseRx,
    RouterResponseTx,
}

/// The control block. Times are microseconds since the epoch.
#[allow(non_camel_case_types)]
#[derive(Debug, Clone, Copy, PartialEq, Eq, Structural)]
pub struct ILNP_PCB_S {
    pub start_time: u64,
    pub ready_time: u64,
    pub finish_time: u64,
    pub data_request_rx: u64,
    pub data_request_tx: u64,
    pub data_request_forward_rx: u64,
    pub data_request_forward_tx: u64,
    pub nd_solicitation_jcmp_rx: u64,
    pub nd_solicitation_jcmp_tx: u64,
    pub nd_advertisement_jcmp_rx: u64,
    pub nd_advertisement_jcmp_tx: u64,
    pub dns_fqdn_query_jcmp_rx: u64,
    pub dns_fqdn_query_jcmp_tx: u64,
    pub dns_fqdn_response_jcmp_rx: u64,
    pub dns_fqdn_response_jcmp_tx: u64,
    pub dns_ilv_query_jcmp_rx: u64,
    pub dns_ilv_query_jcmp_tx: u64,
    pub dns_ilv_response_jcmp_rx: u64,
    pub dns_ilv_response_jcmp_tx: u64,
    pub router_request_jcmp_rx: u64,
    pub router_request_jcmp_tx: u64,
    pub router_response_jcmp_rx: u64,
    pub router_response_jcmp_tx: u64,
}

/// A counter after one more event: one higher, or unchanged once it has
/// reached the largest value, so that it never goes down.
pub open spec fn bumped(c: u64) -> u64 {
    if c < u64::MAX {
        (c + 1) as u64
    } else {
        c
    }
}

fn bump(c: u64) -> (r: u64)
    ensures
        r == bumped(c),
{
    if c < u64::MAX {
        c + 1
    } else {
        c
    }
}

impl ILNP_PCB_S {
    /// The value of the named counter.
    pub open spec fn value(&self, which: Counter) -> u64 {
        match which {
            Counter::DataRequestRx => self.data_request_rx,
            Counter::DataRequestTx => self.data_request_tx,
            Counter::DataRequestForwardRx => self.data_request_forward_rx,
            Counter::DataRequestForwardTx => self.data_request_forward_tx,
            Counter::NdSolicitationRx => self.nd_solicitation_jcmp_rx,
            Counter::NdSolicitationTx => self.nd_solicitation_jcmp_tx,
            Counter::NdAdvertisementRx => self.nd_advertisement_jcmp_rx,
            Counter::NdAdvertisementTx => self.nd_advertisement_jcmp_tx,
            Counter::DnsFqdnQueryRx => self.dns_fqdn_query_jcmp_rx,
            Counter::DnsFqdnQueryTx => self.dns_fqdn_query_jcmp_tx,
            Counter::DnsFqdnResponseRx => self.dns_fqdn_response_jcmp_rx,
            Counter::DnsFqdnResponseTx => self.dns_fqdn_response_jcmp_tx,
            Counter::DnsIlvQueryRx => self.dns_ilv_query_jcmp_rx,
            Counter::DnsIlvQueryTx => self.dns_ilv_query_jcmp_tx,
            Counter::DnsIlvResponseRx => self.dns_ilv_response_jcmp_rx,
            Counter::DnsIlvResponseTx => self.dns_ilv_response_jcmp_tx,
            Counter::RouterRequestRx => self.router_request_jcmp_rx,
            Counter::RouterRequestTx => self.router_request_jcmp_tx,
            Counter::RouterResponseRx => self.router_response_jcmp_rx,
            Counter::RouterResponseTx => self.router_response_jcmp_tx,
        }
    }

    /// The block with the named counter set to `v` and all else unchanged.
    pub open spec fn with_value(&self, which: Counter, v: u64) -> ILNP_PCB_S {
        match which {
            Counter::DataRequestRx => ILNP_PCB_S { data_request_rx: v, ..*self },
            Counter::DataRequestTx => ILNP_PCB_S { data_request_tx: v, ..*self },
            Counter::DataRequestForwardRx => ILNP_PCB_S { data_request_forward_rx: v, ..*self },
            Counter::DataRequestForwardTx => ILNP_PCB_S { data_request_forward_tx: v, ..*self },
            Counter::NdSolicitationRx => ILNP_PCB_S { nd_solicitation_jcmp_rx: v, ..*self },
            Counter::NdSolicitationTx => ILNP_PCB_S { nd_solicitation_jcmp_tx: v, ..*self },
            Counter::NdAdvertisementRx => ILNP_PCB_S { nd_advertisement_jcmp_rx: v, ..*self },
            Counter::NdAdvertisementTx => ILNP_PCB_S { nd_advertisement_jcmp_tx: v, ..*self },
            Counter::DnsFqdnQueryRx => ILNP_PCB_S { dns_fqdn_query_jcmp_rx: v, ..*self },
            Counter::DnsFqdnQueryTx => ILNP_PCB_S { dns_fqdn_query_jcmp_tx: v, ..*self },
            Counter::DnsFqdnResponseRx => ILNP_PCB_S { dns_fqdn_response_jcmp_rx: v, ..*self },
            Counter::DnsFqdnResponseTx => ILNP_PCB_S { dns_fqdn_response_jcmp_tx: v, ..*self },
            Counter::DnsIlvQueryRx => ILNP_PCB_S { dns_ilv_query_jcmp_rx: v, ..*self },
            Counter::DnsIlvQueryTx => ILNP_PCB_S { dns_ilv_query_jcmp_tx: v, ..*self },
            Counter::DnsIlvResponseRx => ILNP_PCB_S { dns_ilv_response_jcmp_rx: v, ..*self },
            Counter::DnsIlvResponseTx => ILNP_PCB_S { dns_ilv_response_jcmp_tx: v, ..*self },
            Counter::RouterRequestRx => ILNP_PCB_S { router_request_jcmp_rx: v, ..*self },
            Counter::RouterRequestTx => ILNP_PCB_S { router_request_jcmp_tx: v, ..*self },
            Counter::RouterResponseRx => ILNP_PCB_S { router_response_jcmp_rx: v, ..*self },
            Counter::RouterResponseTx => ILNP_PCB_S { router_response_jcmp_tx: v, ..*self },
        }
    }

    /// The block after one event of the named kind.
    pub open spec fn counted(&self, which: Counter) -> ILNP_PCB_S {
        self.with_value(which, bumped(self.value(which)))
    }

    /// The block with every time mark and every counter at zero.
    pub open spec fn default_spec() -> ILNP_PCB_S {
        ILNP_PCB_S {
            start_time: 0,
            ready_time: 0,
            finish_time: 0,
            data_request_rx: 0,
            data_request_tx: 0,
            data_request_forward_rx: 0,
            data_request_forward_tx: 0,
            nd_solicitation_jcmp_rx: 0,
            nd_solicitation_jcmp_tx: 0,
            nd_advertisement_jcmp_rx: 0,
            nd_advertisement_jcmp_tx: 0,
            dns_fqdn_query_jcmp_rx: 0,
            dns_fqdn_query_jcmp_tx: 0,
            dns_fqdn_response_jcmp_rx: 0,
            dns_fqdn_response_jcmp_tx: 0,
            dns_ilv_query_jcmp_rx: 0,
            dns_ilv_query_jcmp_tx: 0,
            dns_ilv_response_jcmp_rx: 0,
            dns_ilv_response_jcmp_tx: 0,
            router_request_jcmp_rx: 0,
            router_request_jcmp_tx: 0,
            router_response_jcmp_rx: 0,
            router_response_jcmp_tx: 0,
        }
    }

    /// The block with every time mark and every counter at zero.
    pub fn default() -> (pcb: ILNP_PCB_S)
        ensures
            pcb == ILNP_PCB_S::default_spec(),
            pcb.start_time == 0,
            pcb.ready_time == 0,
            pcb.finish_time == 0,
            forall|which: Counter| pcb.value(which) == 0,
    {
        ILNP_PCB_S {
            start_time: 0,
            ready_time: 0,
            finish_time: 0,
            data_request_rx: 0,
            data_request_tx: 0,
            data_request_forward_rx: 0,
            data_request_forward_tx: 0,
            nd_solicitation_jcmp_rx: 0,
            nd_solicitation_jcmp_tx: 0,
            nd_advertisement_jcmp_rx: 0,
            nd_advertisement_jcmp_tx: 0,
            dns_fqdn_query_jcmp_rx: 0,
            dns_fqdn_query_jcmp_tx: 0,
            dns_fqdn_response_jcmp_rx: 0,
            dns_fqdn_response_jcmp_tx: 0,
            dns_ilv_query_jcmp_rx: 0,
            dns_ilv_query_jcmp_tx: 0,
            dns_ilv_response_jcmp_rx: 0,
            dns_ilv_response_jcmp_tx: 0,
            router_request_jcmp_rx: 0,
            router_request_jcmp_tx: 0,
            router_response_jcmp_rx: 0,
            router_response_jcmp_tx: 0,
        }
    }

    /// Counts one event of the named kind.
    pub fn count(&mut self, which: Counter)
        ensures
            *final(self) == old(self).counted(which),
    {
        match which {
            Counter::DataRequestRx => {
                self.data_request_rx = bump(self.data_request_rx);
            },
            Counter::DataRequestTx => {
                self.data_request_tx = bump(self.data_request_tx);
            },
            Counter::DataRequestForwardRx => {
                self.data_request_forward_rx = bump(self.data_request_forward_rx);
            },
            Counter::DataRequestForwardTx => {
                self.data_request_forward_tx = bump(self.data_request_forward_tx);
            },
            Counter::NdSolicitationRx => {
                self.nd_solicitation_jcmp_rx = bump(self.nd_solicitation_jcmp_rx);
            },
            Counter::NdSolicitationTx => {
                self.nd_solicitation_jcmp_tx = bump(self.nd_solicitation_jcmp_tx);
            },
            Counter::NdAdvertisementRx => {
                self.nd_advertisement_jcmp_rx = bump(self.nd_advertisement_jcmp_rx);
            },
            Counter::NdAdvertisementTx => {
                self.nd_advertisement_jcmp_tx = bump(self.nd_advertisement_jcmp_tx);
            },
            Counter::DnsFqdnQueryRx => {
                self.dns_fqdn_query_jcmp_rx = bump(self.dns_fqdn_query_jcmp_rx);
            },
            Counter::DnsFqdnQueryTx => {
                self.dns_fqdn_query_jcmp_tx = bump(self.dns_fqdn_query_jcmp_tx);
            },
            Counter::DnsFqdnResponseRx => {
                self.dns_fqdn_response_jcmp_rx = bump(self.dns_fqdn_response_jcmp_rx);
            },
            Counter::DnsFqdnResponseTx => {
                self.dns_fqdn_response_jcmp_tx = bump(self.dns_fqdn_response_jcmp_tx);
            },
            Counter::DnsIlvQueryRx => {
                self.dns_ilv_query_jcmp_rx = bump(self.dns_ilv_query_jcmp_rx);
            },
            Counter::DnsIlvQueryTx => {
                self.dns_ilv_query_jcmp_tx = bump(self.dns_ilv_query_jcmp_tx);
            },
            Counter::DnsIlvResponseRx => {
                self.dns_ilv_response_jcmp_rx = bump(self.dns_ilv_response_jcmp_rx);
            },
            Counter::DnsIlvResponseTx => {
                self.dns_ilv_response_jcmp_tx = bump(self.dns_ilv_response_jcmp_tx);
            },
            Counter::RouterRequestRx => {
                self.router_request_jcmp_rx = bump(self.router_request_jcmp_rx);
            },
            Counter::RouterRequestTx => {
                self.router_request_jcmp_tx = bump(self.router_request_jcmp_tx);
            },
            Counter::RouterResponseRx => {
                self.router_response_jcmp_rx = bump(self.router_response_jcmp_rx);
            },
            Counter::RouterResponseTx => {
                self.router_response_jcmp_tx = bump(self.router_response_jcmp_tx);
            },
        }
    }

    /// Reads the named counter.
    pub fn get(&self, which: Counter) -> (v: u64)
        ensures
            v == self.value(which),
    {
        match which {
            Counter::DataRequestRx => self.data_request_rx,
            Counter::DataRequestTx => self.data_request_tx,
            Counter::DataRequestForwardRx => self.data_request_forward_rx,
            Counter::DataRequestForwardTx => self.data_request_forward_tx,
            Counter::NdSolicitationRx => self.nd_solicitation_jcmp_rx,
            Counter::NdSolicitationTx => self.nd_solicitation_jcmp_tx,
            Counter::NdAdvertisementRx => self.nd_advertisement_jcmp_rx,
            Counter::NdAdvertisementTx => self.nd_advertisement_jcmp_tx,
            Counter::DnsFqdnQueryRx => self.dns_fqdn_query_jcmp_rx,
            Counter::DnsFqdnQueryTx => self.dns_fqdn_query_jcmp_tx,
            Counter::DnsFqdnResponseRx => self.dns_fqdn_response_jcmp_rx,
            Counter::DnsFqdnResponseTx => self.dns_fqdn_response_jcmp_tx,
            Counter::DnsIlvQueryRx => self.dns_ilv_query_jcmp_rx,
            Counter::DnsIlvQueryTx => self.dns_ilv_query_jcmp_tx,
            Counter::DnsIlvResponseRx => self.dns_ilv_response_jcmp_rx,
            Counter::DnsIlvResponseTx => self.dns_ilv_response_jcmp_tx,
            Counter::RouterRequestRx => self.router_request_jcmp_rx,
            Counter::RouterRequestTx => self.router_request_jcmp_tx,
            Counter::RouterResponseRx => self.router_response_jcmp_rx,
            Counter::RouterResponseTx => self.router_response_jcmp_tx,
        }
    }
}

/// Counting never lowers a counter and leaves the others and the time marks
/// alone.
pub proof fn lemma_count_is_monotonic(pcb: ILNP_PCB_S, which: Counter, other: Counter)
    ensures
        pcb.counted(which).value(which) >= pcb.value(which),
        pcb.value(which) < u64::MAX ==> pcb.counted(which).value(which) == pcb.value(which) + 1,
        other != which ==> pcb.counted(which).value(other) == pcb.value(other),
        pcb.counted(which).start_time == pcb.start_time,
        pcb.counted(which).ready_time == pcb.ready_time,
        pcb.counted(which).finish_time == pcb.finish_time,
{
}

} // verus!
