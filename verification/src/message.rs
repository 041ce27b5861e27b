//! The control messages as one sum type, with the codec between a message and
//! its wire form.

use vstd::prelude::*;
use crate::error::ErrorKind;
use crate::wire::{
    be16_at, be16_bytes, be64_at, be64_bytes, copy_from, lemma_be16_of_bytes,
    lemma_be64_of_bytes, push_all, push_be16, push_be64, read_be16, read_be64,
};

verus! {

/// A control message, by kind.
#[derive(Debug, Clone)]
pub enum ControlMessage {
    /// Code 0: who has this identifier?
    Solicitation,
    /// Code 1: I have it, and listen on this unicast port.
    Advertisement { destination_port: u16 },
    /// Code 4: who bears this name?
    FqdnQuery { fqdn: Vec<u8> },
    /// Code 5: I bear this name; keep that for `ttl` seconds.
    FqdnResponse { ttl: u8, fqdn: Vec<u8> },
    /// Code 6: where is this identifier attached?
    IlvQuery,
    /// Code 7: I am attached at the source locator; keep that for `ttl` seconds.
    IlvResponse { ttl: u8 },
    /// Code 8: who can reach `target`? The request has made `hop_count` hops.
    RouterRequest { hop_count: u8, target: u64 },
    /// Code 9: I reach `target` in `hop_count` hops; keep that for `ttl` seconds.
    RouterResponse { hop_count: u8, target: u64, ttl: u8 },
}

/// A control message as a mathematical value: names are sequences of bytes.
pub enum MessageView {
    Solicitation,
    Advertisement { destination_port: u16 },
    FqdnQuery { fqdn: Seq<u8> },
    FqdnResponse { ttl: u8, fqdn: Seq<u8> },
    IlvQuery,
    IlvResponse { ttl: u8 },
    RouterRequest { hop_count: u8, target: u64 },
    RouterResponse { hop_count: u8, target: u64, ttl: u8 },
}

impl View for ControlMessage {
    type V = MessageView;

    open spec fn view(&self) -> MessageView {
        match *self {
            ControlMessage::Solicitation => MessageView::Solicitation,
            ControlMessage::Advertisement { destination_port } => MessageView::Advertisement {
                destination_port,
            },
            ControlMessage::FqdnQuery { fqdn } => MessageView::FqdnQuery { fqdn: fqdn@ },
            ControlMessage::FqdnResponse { ttl, fqdn } => MessageView::FqdnResponse {
                ttl,
                fqdn: fqdn@,
            },
            ControlMessage::IlvQuery => MessageView::IlvQuery,
            ControlMessage::IlvResponse { ttl } => MessageView::IlvResponse { ttl },
            ControlMessage::RouterRequest { hop_count, target } => MessageView::RouterRequest {
                hop_count,
                target,
            },
            ControlMessage::RouterResponse { hop_count, target, ttl } => {
                MessageView::RouterResponse { hop_count, target, ttl }
            },
        }
    }
}

/// The code that opens the wire form of a message.
pub open spec fn message_code(m: MessageView) -> u8 {
    match m {
        MessageView::Solicitation => 0,
        MessageView::Advertisement { .. } => 1,
        MessageView::FqdnQuery { .. } => 4,
        MessageView::FqdnResponse { .. } => 5,
        MessageView::IlvQuery => 6,
        MessageView::IlvResponse { .. } => 7,
        MessageView::RouterRequest { .. } => 8,
        MessageView::RouterResponse { .. } => 9,
    }
}

/// The wire form of a message: the code, then the fields in order, integers
/// big-endian, a name last and unframed.
pub open spec fn message_bytes(m: MessageView) -> Seq<u8> {
    match m {
        MessageView::Solicitation => seq![0u8],
        MessageView::Advertisement { destination_port } => seq![1u8] + be16_bytes(
            destination_port,
        ),
        MessageView::FqdnQuery { fqdn } => seq![4u8] + fqdn,
        MessageView::FqdnResponse { ttl, fqdn } => seq![5u8, ttl] + fqdn,
        MessageView::IlvQuery => seq![6u8],
        MessageView::IlvResponse { ttl } => seq![7u8, ttl],
        MessageView::RouterRequest { hop_count, target } => seq![8u8, hop_count] + be64_bytes(
            target,
        ),
        MessageView::RouterResponse { hop_count, target, ttl } => seq![9u8, hop_count]
            + be64_bytes(target) + seq![ttl],
    }
}

/// The least number of bytes that a message with this code takes; `None` for
/// a code that names no message.
pub open spec fn min_len(code: u8) -> Option<nat> {
    if code == 0 || code == 4 || code == 6 {
        Some(1)
    } else if code == 1 {
        Some(3)
    } else if code == 5 || code == 7 {
        Some(2)
    } else if code == 8 {
        Some(10)
    } else if code == 9 {
        Some(11)
    } else {
        None
    }
}

/// Whether `s` opens with a known code and is long enough for it.
pub open spec fn decodable(s: Seq<u8>) -> bool {
    s.len() >= 1 && min_len(s[0]) is Some && s.len() >= min_len(s[0])->Some_0
}

/// The message that `s` spells, for a decodable `s`. Bytes after a message
/// of fixed length are ignored.
pub open spec fn message_of(s: Seq<u8>) -> MessageView {
    if s[0] == 0 {
        MessageView::Solicitation
    } else if s[0] == 1 {
        MessageView::Advertisement { destination_port: be16_at(s, 1) }
    } else if s[0] == 4 {
        MessageView::FqdnQuery { fqdn: s.skip(1) }
    } else if s[0] == 5 {
        MessageView::FqdnResponse { ttl: s[1], fqdn: s.skip(2) }
    } else if s[0] == 6 {
        MessageView::IlvQuery
    } else if s[0] == 7 {
        MessageView::IlvResponse { ttl: s[1] }
    } else if s[0] == 8 {
        MessageView::RouterRequest { hop_count: s[1], target: be64_at(s, 2) }
    } else {
        MessageView::RouterResponse { hop_count: s[1], target: be64_at(s, 2), ttl: s[10] }
    }
}

/// Every message encodes to bytes that decode to the same message.
pub proof fn lemma_message_round_trip(m: MessageView)
    ensures
        decodable(message_bytes(m)),
        message_of(message_bytes(m)) == m,
        message_bytes(m)[0] == message_code(m),
{
    let s = message_bytes(m);
    match m {
        MessageView::Solicitation => {},
        MessageView::Advertisement { destination_port } => {
            lemma_be16_of_bytes(destination_port);
            assert(be16_at(s, 1) == be16_at(be16_bytes(destination_port), 0));
        },
        MessageView::FqdnQuery { fqdn } => {
            assert(s.skip(1) =~= fqdn);
        },
        MessageView::FqdnResponse { ttl, fqdn } => {
            assert(s.skip(2) =~= fqdn);
        },
        MessageView::IlvQuery => {},
        MessageView::IlvResponse { ttl } => {},
        MessageView::RouterRequest { hop_count, target } => {
            lemma_be64_of_bytes(target);
            assert(be64_at(s, 2) == be64_at(be64_bytes(target), 0));
        },
        MessageView::RouterResponse { hop_count, target, ttl } => {
            lemma_be64_of_bytes(target);
            assert(be64_at(s, 2) == be64_at(be64_bytes(target), 0));
        },
    }
}

impl ControlMessage {
    /// The code of the message.
    pub fn code(&self) -> (code: u8)
        ensures
            code == message_code(self@),
    {
        match self {
            ControlMessage::Solicitation => 0,
            ControlMessage::Advertisement { .. } => 1,
            ControlMessage::FqdnQuery { .. } => 4,
            ControlMessage::FqdnResponse { .. } => 5,
            ControlMessage::IlvQuery => 6,
            ControlMessage::IlvResponse { .. } => 7,
            ControlMessage::RouterRequest { .. } => 8,
            ControlMessage::RouterResponse { .. } => 9,
        }
    }

    /// The wire form of the message.
    pub fn encode(&self) -> (bytes: Vec<u8>)
        ensures
            bytes@ == message_bytes(self@),
            decodable(bytes@),
            message_of(bytes@) == self@,
    {
        let mut bytes: Vec<u8> = Vec::new();
        match self {
            ControlMessage::Solicitation => {
                bytes.push(0);
            },
            ControlMessage::Advertisement { destination_port } => {
                bytes.push(1);
                push_be16(&mut bytes, *destination_port);
            },
            ControlMessage::FqdnQuery { fqdn } => {
                bytes.push(4);
                push_all(&mut bytes, fqdn.as_slice());
            },
            ControlMessage::FqdnResponse { ttl, fqdn } => {
                bytes.push(5);
                bytes.push(*ttl);
                push_all(&mut bytes, fqdn.as_slice());
            },
            ControlMessage::IlvQuery => {
                bytes.push(6);
            },
            ControlMessage::IlvResponse { ttl } => {
                bytes.push(7);
                bytes.push(*ttl);
            },
            ControlMessage::RouterRequest { hop_count, target } => {
                bytes.push(8);
                bytes.push(*hop_count);
                push_be64(&mut bytes, *target);
            },
            ControlMessage::RouterResponse { hop_count, target, ttl } => {
                bytes.push(9);
                bytes.push(*hop_count);
                push_be64(&mut bytes, *target);
                bytes.push(*ttl);
            },
        }
        proof {
            assert(bytes@ =~= message_bytes(self@));
            lemma_message_round_trip(self@);
        }
        bytes
    }

    /// Reads a message. Fails exactly when `payload` is empty, opens with a
    /// code that names no message, or is shorter than its code demands.
    pub fn decode(payload: &[u8]) -> (r: Result<ControlMessage, ErrorKind>)
        ensures
            decodable(payload@) ==> r is Ok && r->Ok_0@ == message_of(payload@),
            !decodable(payload@) ==> r is Err && r->Err_0 == ErrorKind::ParseError,
    {
        let n = payload.len();
        if n < 1 {
            return Err(ErrorKind::ParseError);
        }
        let code = payload[0];
        if code == 0 {
            Ok(ControlMessage::Solicitation)
        } else if code == 1 {
            if n < 3 {
                return Err(ErrorKind::ParseError);
            }
            Ok(ControlMessage::Advertisement { destination_port: read_be16(payload, 1) })
        } else if code == 4 {
            Ok(ControlMessage::FqdnQuery { fqdn: copy_from(payload, 1) })
        } else if code == 5 {
            if n < 2 {
                return Err(ErrorKind::ParseError);
            }
            Ok(ControlMessage::FqdnResponse { ttl: payload[1], fqdn: copy_from(payload, 2) })
        } else if code == 6 {
            Ok(ControlMessage::IlvQuery)
        } else if code == 7 {
            if n < 2 {
                return Err(ErrorKind::ParseError);
            }
            Ok(ControlMessage::IlvResponse { ttl: payload[1] })
        } else if code == 8 {
            if n < 10 {
                return Err(ErrorKind::ParseError);
            }
            Ok(
                ControlMessage::RouterRequest {
                    hop_count: payload[1],
                    target: read_be64(payload, 2),
                },
            )
        } else if code == 9 {
            if n < 11 {
                return Err(ErrorKind::ParseError);
            }
            Ok(
                ControlMessage::RouterResponse {
                    hop_count: payload[1],
                    target: read_be64(payload, 2),
                    ttl: payload[10],
                },
            )
        } else {
            Err(ErrorKind::ParseError)
        }
    }
}

} // verus!
