//! The 40-byte ILNPv6 header: its fields, its wire form, and the two laws that
//! tie them together.

use vstd::prelude::*;
use crate::error::ErrorKind;
use crate::wire::{be16, hi8, lo8, be64_at, be64_bytes, lemma_be64_of_bytes, lemma_bytes_of_be64, push_be64, read_be64};

verus! {

/// Length of the ILNPv6 header on the wire.
pub const ILNP_HEADER_LEN: usize = 40;

/// Next-header value of a control message.
pub const NEXT_HEADER_CONTROL: u8 = 150;

/// Next-header value of a data packet.
pub const NEXT_HEADER_DATA: u8 = 151;

/// An ILNPv6 header. `version` holds four bits and `flow_label` twenty; the
/// other fields use their whole type.
#[derive(Debug, Clone, Copy, PartialEq, Eq, Structural)]
pub struct INLPv6Packet {
    pub version: u8,
    pub traffic_class: u8,
    pub flow_label: u32,
    pub payload_length: u16,
    pub next_header: u8,
    pub hop_limit: u8,
    pub source_locator: u64,
    pub source_identifier: u64,
    pub destination_locator: u64,
    pub destination_identifier: u64,
}

/// First byte of the wire form: version, then the high half of the traffic class.
pub open spec fn lead_byte0(version: u8, traffic_class: u8) -> u8 {
    ((version & 0x0f) << 4) | (traffic_class >> 4)
}

/// Second byte: the low half of the traffic class, then the top four bits of
/// the flow label.
pub open spec fn lead_byte1(traffic_class: u8, flow_label: u32) -> u8 {
    ((traffic_class & 0x0f) << 4) | (((flow_label >> 16) & 0x0f) as u8)
}

/// Third byte: bits 15 to 8 of the flow label.
pub open spec fn lead_byte2(flow_label: u32) -> u8 {
    ((flow_label >> 8) & 0xff) as u8
}

/// Fourth byte: the low eight bits of the flow label.
pub open spec fn lead_byte3(flow_label: u32) -> u8 {
    (flow_label & 0xff) as u8
}

/// The version carried by a first byte.
pub open spec fn version_of(b0: u8) -> u8 {
    b0 >> 4
}

/// The traffic class carried by the first two bytes.
pub open spec fn traffic_class_of(b0: u8, b1: u8) -> u8 {
    ((b0 & 0x0f) << 4) | (b1 >> 4)
}

/// The flow label carried by bytes two to four.
pub open spec fn flow_label_of(b1: u8, b2: u8, b3: u8) -> u32 {
    (((b1 & 0x0f) as u32) << 16) | ((b2 as u32) << 8) | (b3 as u32)
}

/// The wire form of a header: 40 bytes, fields in order, most significant bit
/// first, multi-byte fields big-endian.
pub open spec fn header_bytes(h: INLPv6Packet) -> Seq<u8> {
    seq![
        lead_byte0(h.version, h.traffic_class),
        lead_byte1(h.traffic_class, h.flow_label),
        lead_byte2(h.flow_label),
        lead_byte3(h.flow_label),
        hi8(h.payload_length),
        lo8(h.payload_length),
        h.next_header,
        h.hop_limit,
    ] + be64_bytes(h.source_locator) + be64_bytes(h.source_identifier) + be64_bytes(
        h.destination_locator,
    ) + be64_bytes(h.destination_identifier)
}

/// The header that the first 40 bytes of `s` spell.
pub open spec fn header_of(s: Seq<u8>) -> INLPv6Packet {
    INLPv6Packet {
        version: version_of(s[0]),
        traffic_class: traffic_class_of(s[0], s[1]),
        flow_label: flow_label_of(s[1], s[2], s[3]),
        payload_length: be16(s[4], s[5]),
        next_header: s[6],
        hop_limit: s[7],
        source_locator: be64_at(s, 8),
        source_identifier: be64_at(s, 16),
        destination_locator: be64_at(s, 24),
        destination_identifier: be64_at(s, 32),
    }
}

impl INLPv6Packet {
    /// Every field is within the width that the wire form gives it.
    pub open spec fn wf(&self) -> bool {
        self.version < 16 && self.flow_label < 0x10_0000
    }
}

proof fn lemma_lead_of_bytes(b0: u8, b1: u8, b2: u8, b3: u8, b4: u8, b5: u8)
    ensures
        lead_byte0(version_of(b0), traffic_class_of(b0, b1)) == b0,
        lead_byte1(traffic_class_of(b0, b1), flow_label_of(b1, b2, b3)) == b1,
        lead_byte2(flow_label_of(b1, b2, b3)) == b2,
        lead_byte3(flow_label_of(b1, b2, b3)) == b3,
        hi8(be16(b4, b5)) == b4,
        lo8(be16(b4, b5)) == b5,
        version_of(b0) < 16,
        flow_label_of(b1, b2, b3) < 0x10_0000,
{
    assert(lead_byte0(version_of(b0), traffic_class_of(b0, b1)) == b0) by (bit_vector);
    assert(lead_byte1(traffic_class_of(b0, b1), flow_label_of(b1, b2, b3)) == b1) by (bit_vector);
    assert(lead_byte2(flow_label_of(b1, b2, b3)) == b2) by (bit_vector);
    assert(lead_byte3(flow_label_of(b1, b2, b3)) == b3) by (bit_vector);
    assert(hi8(be16(b4, b5)) == b4) by (bit_vector);
    assert(lo8(be16(b4, b5)) == b5) by (bit_vector);
    assert(version_of(b0) < 16) by (bit_vector);
    assert(flow_label_of(b1, b2, b3) < 0x10_0000) by (bit_vector);
}

proof fn lemma_bytes_of_lead(version: u8, traffic_class: u8, flow_label: u32, length: u16)
    requires
        version < 16,
        flow_label < 0x10_0000,
    ensures
        version_of(lead_byte0(version, traffic_class)) == version,
        traffic_class_of(
            lead_byte0(version, traffic_class),
            lead_byte1(traffic_class, flow_label),
        ) == traffic_class,
        flow_label_of(
            lead_byte1(traffic_class, flow_label),
            lead_byte2(flow_label),
            lead_byte3(flow_label),
        ) == flow_label,
        be16(hi8(length), lo8(length)) == length,
{
    assert(version_of(lead_byte0(version, traffic_class)) == version) by (bit_vector)
        requires
            version < 16,
    ;
    assert(traffic_class_of(
        lead_byte0(version, traffic_class),
        lead_byte1(traffic_class, flow_label),
    ) == traffic_class) by (bit_vector);
    assert(flow_label_of(
        lead_byte1(traffic_class, flow_label),
        lead_byte2(flow_label),
        lead_byte3(flow_label),
    ) == flow_label) by (bit_vector)
        requires
            flow_label < 0x10_0000,
    ;
    assert(be16(hi8(length), lo8(length)) == length) by (bit_vector);
}

/// Decoding at least 40 bytes and encoding the header again gives back the
/// first 40 bytes unchanged, and the decoded header is well formed.
pub proof fn lemma_header_bytes_of_header_of(s: Seq<u8>)
    requires
        s.len() >= 40,
    ensures
        header_bytes(header_of(s)) == s.subrange(0, 40),
        header_of(s).wf(),
{
    lemma_lead_of_bytes(s[0], s[1], s[2], s[3], s[4], s[5]);
    lemma_bytes_of_be64(s[8], s[9], s[10], s[11], s[12], s[13], s[14], s[15]);
    lemma_bytes_of_be64(s[16], s[17], s[18], s[19], s[20], s[21], s[22], s[23]);
    lemma_bytes_of_be64(s[24], s[25], s[26], s[27], s[28], s[29], s[30], s[31]);
    lemma_bytes_of_be64(s[32], s[33], s[34], s[35], s[36], s[37], s[38], s[39]);
    assert(header_bytes(header_of(s)) =~= s.subrange(0, 40));
}

/// Encoding a well-formed header and decoding the bytes gives back the header;
/// the wire form is 40 bytes long whatever the header.
pub proof fn lemma_header_of_header_bytes(h: INLPv6Packet)
    ensures
        header_bytes(h).len() == 40,
        h.wf() ==> header_of(header_bytes(h)) == h,
{
    let s = header_bytes(h);
    assert(s.len() == 40);
    if h.wf() {
        lemma_bytes_of_lead(h.version, h.traffic_class, h.flow_label, h.payload_length);
        lemma_be64_of_bytes(h.source_locator);
        lemma_be64_of_bytes(h.source_identifier);
        lemma_be64_of_bytes(h.destination_locator);
        lemma_be64_of_bytes(h.destination_identifier);
        assert(be64_at(s, 8) == be64_at(be64_bytes(h.source_locator), 0));
        assert(be64_at(s, 16) == be64_at(be64_bytes(h.source_identifier), 0));
        assert(be64_at(s, 24) == be64_at(be64_bytes(h.destination_locator), 0));
        assert(be64_at(s, 32) == be64_at(be64_bytes(h.destination_identifier), 0));
    }
}


impl INLPv6Packet {
    /// The header with every field zero.
    pub fn new() -> (h: INLPv6Packet)
        ensures
            h == (INLPv6Packet {
                version: 0,
                traffic_class: 0,
                flow_label: 0,
                payload_length: 0,
                next_header: 0,
                hop_limit: 0,
                source_locator: 0,
                source_identifier: 0,
                destination_locator: 0,
                destination_identifier: 0,
            }),
    {
        INLPv6Packet {
            version: 0,
            traffic_class: 0,
            flow_label: 0,
            payload_length: 0,
            next_header: 0,
            hop_limit: 0,
            source_locator: 0,
            source_identifier: 0,
            destination_locator: 0,
            destination_identifier: 0,
        }
    }

    /// The header of a packet that this node sends: version 6, traffic class
    /// and flow label zero, hop limit 1.
    pub fn outbound(
        next_header: u8,
        payload_length: u16,
        source_locator: u64,
        source_identifier: u64,
        destination_locator: u64,
        destination_identifier: u64,
    ) -> (h: INLPv6Packet)
        ensures
            h == (INLPv6Packet {
                version: 6,
                traffic_class: 0,
                flow_label: 0,
                payload_length,
                next_header,
                hop_limit: 1,
                source_locator,
                source_identifier,
                destination_locator,
                destination_identifier,
            }),
            h.wf(),
    {
        INLPv6Packet {
            version: 6,
            traffic_class: 0,
            flow_label: 0,
            payload_length,
            next_header,
            hop_limit: 1,
            source_locator,
            source_identifier,
            destination_locator,
            destination_identifier,
        }
    }

    /// The header that the 40 bytes spell.
    pub fn from_bytes(bytes: [u8; 40]) -> (h: INLPv6Packet)
        ensures
            h == header_of(bytes@),
            h.wf(),
            header_bytes(h) == bytes@,
    {
        proof {
            lemma_header_bytes_of_header_of(bytes@);
            assert(bytes@.subrange(0, 40) =~= bytes@);
        }
        read_header(bytes.as_slice())
    }

    /// The 40 bytes of the wire form.
    pub fn into_bytes(&self) -> (bytes: [u8; 40])
        ensures
            bytes@ == header_bytes(*self),
            self.wf() ==> header_of(bytes@) == *self,
    {
        let v = self.to_vec();
        let mut bytes = [0u8; 40];
        let mut i: usize = 0;
        while i < 40
            invariant
                i <= 40,
                v@.len() == 40,
                forall|j: int| 0 <= j < i ==> bytes@[j] == v@[j],
            decreases 40 - i,
        {
            bytes[i] = v[i];
            i += 1;
        }
        proof {
            assert(bytes@ =~= v@);
            lemma_header_of_header_bytes(*self);
        }
        bytes
    }

    /// The wire form as a vector, ready to have a payload appended.
    pub fn to_vec(&self) -> (out: Vec<u8>)
        ensures
            out@ == header_bytes(*self),
            out@.len() == 40,
    {
        let mut out: Vec<u8> = Vec::with_capacity(40);
        out.push(((self.version & 0x0f) << 4) | (self.traffic_class >> 4));
        out.push(((self.traffic_class & 0x0f) << 4) | (low_nibble(self.flow_label >> 16)));
        out.push(low_byte(self.flow_label >> 8));
        out.push(low_byte(self.flow_label));
        out.push(low_byte16(self.payload_length >> 8));
        out.push(low_byte16(self.payload_length));
        out.push(self.next_header);
        out.push(self.hop_limit);
        proof {
            let fl = self.flow_label;
            let pl = self.payload_length;
            assert(((fl >> 8) & 0xff) as u8 == lead_byte2(fl));
            assert(((pl >> 8) & 0xff) as u8 == hi8(pl)) by (bit_vector);
        }
        push_be64(&mut out, self.source_locator);
        push_be64(&mut out, self.source_identifier);
        push_be64(&mut out, self.destination_locator);
        push_be64(&mut out, self.destination_identifier);
        assert(out@ =~= header_bytes(*self));
        out
    }

    /// Decodes the header at the front of `buf`. Fails exactly when `buf` is
    /// shorter than a header.
    pub fn decode(buf: &[u8]) -> (r: Result<INLPv6Packet, ErrorKind>)
        ensures
            buf@.len() >= 40 ==> r == Ok::<INLPv6Packet, ErrorKind>(header_of(buf@)),
            buf@.len() >= 40 ==> header_bytes(header_of(buf@)) == buf@.subrange(0, 40),
            buf@.len() < 40 ==> r == Err::<INLPv6Packet, ErrorKind>(ErrorKind::ParseError),
    {
        if buf.len() < 40 {
            return Err(ErrorKind::ParseError);
        }
        proof {
            lemma_header_bytes_of_header_of(buf@);
        }
        Ok(read_header(buf))
    }

    pub fn version(&self) -> (v: u8)
        ensures
            v == self.version,
    {
        self.version
    }

    pub fn traffic_class(&self) -> (v: u8)
        ensures
            v == self.traffic_class,
    {
        self.traffic_class
    }

    pub fn flow_label(&self) -> (v: u32)
        ensures
            v == self.flow_label,
    {
        self.flow_label
    }

    pub fn payload_length(&self) -> (v: u16)
        ensures
            v == self.payload_length,
    {
        self.payload_length
    }

    pub fn next_header(&self) -> (v: u8)
        ensures
            v == self.next_header,
    {
        self.next_header
    }

    pub fn hop_limit(&self) -> (v: u8)
        ensures
            v == self.hop_limit,
    {
        self.hop_limit
    }

    pub fn source_locator(&self) -> (v: u64)
        ensures
            v == self.source_locator,
    {
        self.source_locator
    }

    pub fn source_identifier(&self) -> (v: u64)
        ensures
            v == self.source_identifier,
    {
        self.source_identifier
    }

    pub fn destination_locator(&self) -> (v: u64)
        ensures
            v == self.destination_locator,
    {
        self.destination_locator
    }

    pub fn destination_identifier(&self) -> (v: u64)
        ensures
            v == self.destination_identifier,
    {
        self.destination_identifier
    }
}

fn low_nibble(v: u32) -> (b: u8)
    ensures
        b == (v & 0x0f) as u8,
{
    let m: u32 = v & 0x0f;
    assert(m <= 0x0f) by (bit_vector)
        requires
            m == v & 0x0f,
    ;
    m as u8
}

fn low_byte(v: u32) -> (b: u8)
    ensures
        b == (v & 0xff) as u8,
{
    let m: u32 = v & 0xff;
    assert(m <= 0xff) by (bit_vector)
        requires
            m == v & 0xff,
    ;
    m as u8
}

fn low_byte16(v: u16) -> (b: u8)
    ensures
        b == (v & 0xff) as u8,
{
    let m: u16 = v & 0xff;
    assert(m <= 0xff) by (bit_vector)
        requires
            m == v & 0xff,
    ;
    m as u8
}

fn read_header(buf: &[u8]) -> (h: INLPv6Packet)
    requires
        buf@.len() >= 40,
    ensures
        h == header_of(buf@),
{
    let b0 = buf[0];
    let b1 = buf[1];
    let b2 = buf[2];
    let b3 = buf[3];
    INLPv6Packet {
        version: b0 >> 4,
        traffic_class: ((b0 & 0x0f) << 4) | (b1 >> 4),
        flow_label: (((b1 & 0x0f) as u32) << 16) | ((b2 as u32) << 8) | (b3 as u32),
        payload_length: ((buf[4] as u16) << 8) | (buf[5] as u16),
        next_header: buf[6],
        hop_limit: buf[7],
        source_locator: read_be64(buf, 8),
        source_identifier: read_be64(buf, 16),
        destination_locator: read_be64(buf, 24),
        destination_identifier: read_be64(buf, 32),
    }
}


impl INLPv6Packet {
    /// The header with its version set to `version`, which holds four bits.
    pub fn with_version(self, version: u8) -> (h: INLPv6Packet)
        requires
            version < 16,
        ensures
            h == (INLPv6Packet { version, ..self }),
    {
        INLPv6Packet { version, ..self }
    }

    pub fn with_traffic_class(self, traffic_class: u8) -> (h: INLPv6Packet)
        ensures
            h == (INLPv6Packet { traffic_class, ..self }),
    {
        INLPv6Packet { traffic_class, ..self }
    }

    /// The header with its flow label set to `flow_label`, which holds
    /// twenty bits.
    pub fn with_flow_label(self, flow_label: u32) -> (h: INLPv6Packet)
        requires
            flow_label < 0x10_0000,
        ensures
            h == (INLPv6Packet { flow_label, ..self }),
    {
        INLPv6Packet { flow_label, ..self }
    }

    pub fn with_payload_length(self, payload_length: u16) -> (h: INLPv6Packet)
        ensures
            h == (INLPv6Packet { payload_length, ..self }),
    {
        INLPv6Packet { payload_length, ..self }
    }

    pub fn with_next_header(self, next_header: u8) -> (h: INLPv6Packet)
        ensures
            h == (INLPv6Packet { next_header, ..self }),
    {
        INLPv6Packet { next_header, ..self }
    }

    pub fn with_hop_limit(self, hop_limit: u8) -> (h: INLPv6Packet)
        ensures
            h == (INLPv6Packet { hop_limit, ..self }),
    {
        INLPv6Packet { hop_limit, ..self }
    }

    pub fn with_source_locator(self, source_locator: u64) -> (h: INLPv6Packet)
        ensures
            h == (INLPv6Packet { source_locator, ..self }),
    {
        INLPv6Packet { source_locator, ..self }
    }

    pub fn with_source_identifier(self, source_identifier: u64) -> (h: INLPv6Packet)
        ensures
            h == (INLPv6Packet { source_identifier, ..self }),
    {
        INLPv6Packet { source_identifier, ..self }
    }

    pub fn with_destination_locator(self, destination_locator: u64) -> (h: INLPv6Packet)
        ensures
            h == (INLPv6Packet { destination_locator, ..self }),
    {
        INLPv6Packet { destination_locator, ..self }
    }

    pub fn with_destination_identifier(self, destination_identifier: u64) -> (h: INLPv6Packet)
        ensures
            h == (INLPv6Packet { destination_identifier, ..self }),
    {
        INLPv6Packet { destination_identifier, ..self }
    }
}

} // verus!
