//! Control messages: the payload that follows an ILNPv6 header whose next
//! header is 150. The first byte is the code; what follows depends on it.

use vstd::prelude::*;
use crate::error::ErrorKind;
use crate::wire::{
    be16_at,
    be16_bytes,
    be64_at,
    be64_bytes,
    copy_from,
    push_all,
    push_be16,
    push_be64,
    read_be16,
    read_be64,
};

verus! {

pub const CODE_ND_SOLICITATION: u8 = 0;

pub const CODE_ND_ADVERTISEMENT: u8 = 1;

pub const CODE_DNS_FQDN_QUERY: u8 = 4;

pub const CODE_DNS_FQDN_RESPONSE: u8 = 5;

pub const CODE_DNS_ILV_QUERY: u8 = 6;

pub const CODE_DNS_ILV_RESPONSE: u8 = 7;

pub const CODE_ROUTER_REQUEST: u8 = 8;

pub const CODE_ROUTER_RESPONSE: u8 = 9;

/// What every control message can do: give its wire form and its code.
#[allow(non_camel_case_types)]
pub trait JCMP_Pck {
    /// The wire form of the message.
    spec fn wire(&self) -> Seq<u8>;

    fn into_bytes(&self) -> (bytes: Vec<u8>)
        ensures
            bytes@ == self.wire(),
    ;

    fn get_packet_code(&self) -> (code: u8)
        ensures
            self.wire().len() > 0,
            code == self.wire()[0],
    ;
}

/// A message that is its code alone: a neighbour solicitation (0) or a query
/// for a node's locators (6).
#[allow(non_camel_case_types)]
#[derive(Debug, Clone, Copy, PartialEq, Eq, Structural)]
pub struct JCMP_Basic_Pck {
    pub packet_code: u8,
}

/// A neighbour advertisement (1): the unicast port of the node that answers.
#[allow(non_camel_case_types)]
#[derive(Debug, Clone, Copy, PartialEq, Eq, Structural)]
pub struct JCMP_ND_Advertisement {
    pub header: JCMP_Basic_Pck,
    pub destination_port: u16,
}

/// A query for the node that bears a name (4). The name fills the rest of
/// the message.
#[allow(non_camel_case_types)]
#[derive(Debug, Clone)]
pub struct JCMP_DNS_FQDN_Query_Packet {
    pub header: JCMP_Basic_Pck,
    pub fqdn: Vec<u8>,
}

/// The answer to a query by name (5): how long it may be kept, and the name.
#[allow(non_camel_case_types)]
#[derive(Debug, Clone)]
pub struct JCMP_DNS_FQDN_Response_Packet {
    pub header: JCMP_Basic_Pck,
    pub ttl: u8,
    pub fqdn: Vec<u8>,
}

/// The answer to a query for a node's locators (7): how long it may be kept.
#[allow(non_camel_case_types)]
#[derive(Debug, Clone, Copy, PartialEq, Eq, Structural)]
pub struct JCMP_DNS_ILV_Response_Packet {
    pub packet_code: u8,
    pub ttl: u8,
}

/// A request for a route to a locator (8), with the hops it has made.
#[allow(non_camel_case_types)]
#[derive(Debug, Clone, Copy, PartialEq, Eq, Structural)]
pub struct JCMP_Router_Request {
    pub packet_code: u8,
    pub hop_count: u8,
    pub destination_locator: u64,
}

/// The answer to a route request (9): the hops to the locator, and how long
/// the route may be kept.
#[allow(non_camel_case_types)]
#[derive(Debug, Clone, Copy, PartialEq, Eq, Structural)]
pub struct JCMP_Router_Response {
    pub packet_code: u8,
    pub hop_count: u8,
    pub destination_locator: u64,
    pub ttl: u8,
}

impl JCMP_Basic_Pck {
    pub fn new() -> (p: JCMP_Basic_Pck)
        ensures
            p.packet_code == 0,
    {
        JCMP_Basic_Pck { packet_code: 0 }
    }

    pub fn with_packet_code(self, code: u8) -> (p: JCMP_Basic_Pck)
        ensures
            p.packet_code == code,
    {
        JCMP_Basic_Pck { packet_code: code }
    }

    pub fn packet_code(&self) -> (code: u8)
        ensures
            code == self.packet_code,
    {
        self.packet_code
    }

    pub fn from_bytes(bytes: [u8; 1]) -> (p: JCMP_Basic_Pck)
        ensures
            p.packet_code == bytes@[0],
    {
        JCMP_Basic_Pck { packet_code: bytes[0] }
    }
}

impl JCMP_Pck for JCMP_Basic_Pck {
    open spec fn wire(&self) -> Seq<u8> {
        seq![self.packet_code]
    }

    fn into_bytes(&self) -> (bytes: Vec<u8>) {
        let mut bytes: Vec<u8> = Vec::new();
        bytes.push(self.packet_code);
        assert(bytes@ =~= self.wire());
        bytes
    }

    fn get_packet_code(&self) -> (code: u8) {
        self.packet_code
    }
}

impl JCMP_ND_Advertisement {
    /// Reads an advertisement. Fails exactly when fewer than three bytes are
    /// given; bytes after the third are ignored.
    pub fn from_bytes(bytes: &[u8]) -> (r: Result<JCMP_ND_Advertisement, ErrorKind>)
        ensures
            bytes@.len() < 3 ==> r == Err::<JCMP_ND_Advertisement, ErrorKind>(
                ErrorKind::ParseError,
            ),
            bytes@.len() >= 3 ==> r == Ok::<JCMP_ND_Advertisement, ErrorKind>(
                JCMP_ND_Advertisement {
                    header: JCMP_Basic_Pck { packet_code: bytes@[0] },
                    destination_port: be16_at(bytes@, 1),
                },
            ),
    {
        if bytes.len() < 3 {
            return Err(ErrorKind::ParseError);
        }
        Ok(
            JCMP_ND_Advertisement {
                header: JCMP_Basic_Pck { packet_code: bytes[0] },
                destination_port: read_be16(bytes, 1),
            },
        )
    }
}

impl JCMP_Pck for JCMP_ND_Advertisement {
    open spec fn wire(&self) -> Seq<u8> {
        seq![self.header.packet_code] + be16_bytes(self.destination_port)
    }

    fn into_bytes(&self) -> (bytes: Vec<u8>) {
        let mut bytes: Vec<u8> = Vec::with_capacity(3);
        bytes.push(self.header.packet_code);
        push_be16(&mut bytes, self.destination_port);
        assert(bytes@ =~= self.wire());
        bytes
    }

    fn get_packet_code(&self) -> (code: u8) {
        self.header.packet_code
    }
}

impl JCMP_DNS_FQDN_Query_Packet {
    /// Reads a query by name. Fails exactly when no byte is given.
    pub fn from_bytes(bytes: &[u8]) -> (r: Result<JCMP_DNS_FQDN_Query_Packet, ErrorKind>)
        ensures
            bytes@.len() < 1 ==> r is Err && r->Err_0 == ErrorKind::ParseError,
            bytes@.len() >= 1 ==> r is Ok && r->Ok_0.header.packet_code == bytes@[0]
                && r->Ok_0.fqdn@ == bytes@.skip(1),
    {
        if bytes.len() < 1 {
            return Err(ErrorKind::ParseError);
        }
        Ok(
            JCMP_DNS_FQDN_Query_Packet {
                header: JCMP_Basic_Pck { packet_code: bytes[0] },
                fqdn: copy_from(bytes, 1),
            },
        )
    }
}

impl JCMP_Pck for JCMP_DNS_FQDN_Query_Packet {
    open spec fn wire(&self) -> Seq<u8> {
        seq![self.header.packet_code] + self.fqdn@
    }

    fn into_bytes(&self) -> (bytes: Vec<u8>) {
        let mut bytes: Vec<u8> = Vec::new();
        bytes.push(self.header.packet_code);
        push_all(&mut bytes, self.fqdn.as_slice());
        assert(bytes@ =~= self.wire());
        bytes
    }

    fn get_packet_code(&self) -> (code: u8) {
        self.header.packet_code
    }
}

impl JCMP_DNS_FQDN_Response_Packet {
    /// Reads an answer by name. Fails exactly when fewer than two bytes are
    /// given.
    pub fn from_bytes(bytes: &[u8]) -> (r: Result<JCMP_DNS_FQDN_Response_Packet, ErrorKind>)
        ensures
            bytes@.len() < 2 ==> r is Err && r->Err_0 == ErrorKind::ParseError,
            bytes@.len() >= 2 ==> r is Ok && r->Ok_0.header.packet_code == bytes@[0]
                && r->Ok_0.ttl == bytes@[1] && r->Ok_0.fqdn@ == bytes@.skip(2),
    {
        if bytes.len() < 2 {
            return Err(ErrorKind::ParseError);
        }
        Ok(
            JCMP_DNS_FQDN_Response_Packet {
                header: JCMP_Basic_Pck { packet_code: bytes[0] },
                ttl: bytes[1],
                fqdn: copy_from(bytes, 2),
            },
        )
    }
}

impl JCMP_Pck for JCMP_DNS_FQDN_Response_Packet {
    open spec fn wire(&self) -> Seq<u8> {
        seq![self.header.packet_code, self.ttl] + self.fqdn@
    }

    fn into_bytes(&self) -> (bytes: Vec<u8>) {
        let mut bytes: Vec<u8> = Vec::new();
        bytes.push(self.header.packet_code);
        bytes.push(self.ttl);
        push_all(&mut bytes, self.fqdn.as_slice());
        assert(bytes@ =~= self.wire());
        bytes
    }

    fn get_packet_code(&self) -> (code: u8) {
        self.header.packet_code
    }
}

impl JCMP_DNS_ILV_Response_Packet {
    pub fn new() -> (p: JCMP_DNS_ILV_Response_Packet)
        ensures
            p == (JCMP_DNS_ILV_Response_Packet { packet_code: 0, ttl: 0 }),
    {
        JCMP_DNS_ILV_Response_Packet { packet_code: 0, ttl: 0 }
    }

    pub fn with_packet_code(self, code: u8) -> (p: JCMP_DNS_ILV_Response_Packet)
        ensures
            p == (JCMP_DNS_ILV_Response_Packet { packet_code: code, ..self }),
    {
        JCMP_DNS_ILV_Response_Packet { packet_code: code, ttl: self.ttl }
    }

    pub fn with_ttl(self, ttl: u8) -> (p: JCMP_DNS_ILV_Response_Packet)
        ensures
            p == (JCMP_DNS_ILV_Response_Packet { ttl, ..self }),
    {
        JCMP_DNS_ILV_Response_Packet { packet_code: self.packet_code, ttl }
    }

    pub fn packet_code(&self) -> (code: u8)
        ensures
            code == self.packet_code,
    {
        self.packet_code
    }

    pub fn ttl(&self) -> (ttl: u8)
        ensures
            ttl == self.ttl,
    {
        self.ttl
    }

    pub fn from_bytes(bytes: [u8; 2]) -> (p: JCMP_DNS_ILV_Response_Packet)
        ensures
            p == (JCMP_DNS_ILV_Response_Packet { packet_code: bytes@[0], ttl: bytes@[1] }),
    {
        JCMP_DNS_ILV_Response_Packet { packet_code: bytes[0], ttl: bytes[1] }
    }
}

impl JCMP_Pck for JCMP_DNS_ILV_Response_Packet {
    open spec fn wire(&self) -> Seq<u8> {
        seq![self.packet_code, self.ttl]
    }

    fn into_bytes(&self) -> (bytes: Vec<u8>) {
        let mut bytes: Vec<u8> = Vec::with_capacity(2);
        bytes.push(self.packet_code);
        bytes.push(self.ttl);
        assert(bytes@ =~= self.wire());
        bytes
    }

    fn get_packet_code(&self) -> (code: u8) {
        self.packet_code
    }
}

impl JCMP_Router_Request {
    pub fn new() -> (p: JCMP_Router_Request)
        ensures
            p == (JCMP_Router_Request { packet_code: 0, hop_count: 0, destination_locator: 0 }),
    {
        JCMP_Router_Request { packet_code: 0, hop_count: 0, destination_locator: 0 }
    }

    pub fn with_packet_code(self, code: u8) -> (p: JCMP_Router_Request)
        ensures
            p == (JCMP_Router_Request { packet_code: code, ..self }),
    {
        JCMP_Router_Request { packet_code: code, ..self }
    }

    pub fn with_hop_count(self, hop_count: u8) -> (p: JCMP_Router_Request)
        ensures
            p == (JCMP_Router_Request { hop_count, ..self }),
    {
        JCMP_Router_Request { hop_count, ..self }
    }

    pub fn with_destination_locator(self, locator: u64) -> (p: JCMP_Router_Request)
        ensures
            p == (JCMP_Router_Request { destination_locator: locator, ..self }),
    {
        JCMP_Router_Request { destination_locator: locator, ..self }
    }

    pub fn packet_code(&self) -> (code: u8)
        ensures
            code == self.packet_code,
    {
        self.packet_code
    }

    pub fn hop_count(&self) -> (hops: u8)
        ensures
            hops == self.hop_count,
    {
        self.hop_count
    }

    pub fn destination_locator(&self) -> (locator: u64)
        ensures
            locator == self.destination_locator,
    {
        self.destination_locator
    }

    pub fn from_bytes(bytes: [u8; 10]) -> (p: JCMP_Router_Request)
        ensures
            p == (JCMP_Router_Request {
                packet_code: bytes@[0],
                hop_count: bytes@[1],
                destination_locator: be64_at(bytes@, 2),
            }),
    {
        JCMP_Router_Request {
            packet_code: bytes[0],
            hop_count: bytes[1],
            destination_locator: read_be64(bytes.as_slice(), 2),
        }
    }
}

impl JCMP_Pck for JCMP_Router_Request {
    open spec fn wire(&self) -> Seq<u8> {
        seq![self.packet_code, self.hop_count] + be64_bytes(self.destination_locator)
    }

    fn into_bytes(&self) -> (bytes: Vec<u8>) {
        let mut bytes: Vec<u8> = Vec::with_capacity(10);
        bytes.push(self.packet_code);
        bytes.push(self.hop_count);
        push_be64(&mut bytes, self.destination_locator);
        assert(bytes@ =~= self.wire());
        bytes
    }

    fn get_packet_code(&self) -> (code: u8) {
        self.packet_code
    }
}

impl JCMP_Router_Response {
    pub fn new() -> (p: JCMP_Router_Response)
        ensures
            p == (JCMP_Router_Response {
                packet_code: 0,
                hop_count: 0,
                destination_locator: 0,
                ttl: 0,
            }),
    {
        JCMP_Router_Response { packet_code: 0, hop_count: 0, destination_locator: 0, ttl: 0 }
    }

    pub fn with_packet_code(self, code: u8) -> (p: JCMP_Router_Response)
        ensures
            p == (JCMP_Router_Response { packet_code: code, ..self }),
    {
        JCMP_Router_Response { packet_code: code, ..self }
    }

    pub fn with_hop_count(self, hop_count: u8) -> (p: JCMP_Router_Response)
        ensures
            p == (JCMP_Router_Response { hop_count, ..self }),
    {
        JCMP_Router_Response { hop_count, ..self }
    }

    pub fn with_destination_locator(self, locator: u64) -> (p: JCMP_Router_Response)
        ensures
            p == (JCMP_Router_Response { destination_locator: locator, ..self }),
    {
        JCMP_Router_Response { destination_locator: locator, ..self }
    }

    pub fn with_ttl(self, ttl: u8) -> (p: JCMP_Router_Response)
        ensures
            p == (JCMP_Router_Response { ttl, ..self }),
    {
        JCMP_Router_Response { ttl, ..self }
    }

    pub fn packet_code(&self) -> (code: u8)
        ensures
            code == self.packet_code,
    {
        self.packet_code
    }

    pub fn hop_count(&self) -> (hops: u8)
        ensures
            hops == self.hop_count,
    {
        self.hop_count
    }

    pub fn destination_locator(&self) -> (locator: u64)
        ensures
            locator == self.destination_locator,
    {
        self.destination_locator
    }

    pub fn ttl(&self) -> (ttl: u8)
        ensures
            ttl == self.ttl,
    {
        self.ttl
    }

    pub fn from_bytes(bytes: [u8; 11]) -> (p: JCMP_Router_Response)
        ensures
            p == (JCMP_Router_Response {
                packet_code: bytes@[0],
                hop_count: bytes@[1],
                destination_locator: be64_at(bytes@, 2),
                ttl: bytes@[10],
            }),
    {
        JCMP_Router_Response {
            packet_code: bytes[0],
            hop_count: bytes[1],
            destination_locator: read_be64(bytes.as_slice(), 2),
            ttl: bytes[10],
        }
    }
}

impl JCMP_Pck for JCMP_Router_Response {
    open spec fn wire(&self) -> Seq<u8> {
        seq![self.packet_code, self.hop_count] + be64_bytes(self.destination_locator) + seq![
            self.ttl,
        ]
    }

    fn into_bytes(&self) -> (bytes: Vec<u8>) {
        let mut bytes: Vec<u8> = Vec::with_capacity(11);
        bytes.push(self.packet_code);
        bytes.push(self.hop_count);
        push_be64(&mut bytes, self.destination_locator);
        bytes.push(self.ttl);
        assert(bytes@ =~= self.wire());
        bytes
    }

    fn get_packet_code(&self) -> (code: u8) {
        self.packet_code
    }
}

} // verus!
