//! Diagnostics: a structured, side-effect-free summary of one packet. The
//! engine surfaces the facts a log line needs — address pair, port pair or
//! ICMP type, and total length — and leaves the rendering to the caller.

use vstd::prelude::*;

verus! {

use crate::classify::PROTO_ICMP;
use crate::classify::PROTO_TCP;
use crate::classify::PROTO_UDP;

/// The protocol-specific part of a packet summary: ports for native TCP and
/// UDP, the ICMP type byte for wrapped traffic, and the raw protocol number
/// for anything else. `Truncated` marks a packet too short for the fields
/// its protocol promises (ports at bytes 20..24, the ICMP type at byte 20),
/// which the engine reports instead of reading past the end of the buffer.
#[derive(Clone, Copy, PartialEq, Eq, Debug)]
pub enum ProtoSummary {
    Icmp { icmp_type: u8 },
    Tcp { src_port: u16, dst_port: u16 },
    Udp { src_port: u16, dst_port: u16 },
    Truncated { proto: u8 },
    Unknown { proto: u8 },
}

/// Everything a one-line diagnostic reports about a packet.
#[derive(Clone, Copy, PartialEq, Eq, Debug)]
pub struct PacketSummary {
    /// Source address octets (bytes 12..16).
    pub src: (u8, u8, u8, u8),
    /// Destination address octets (bytes 16..20).
    pub dst: (u8, u8, u8, u8),
    /// Port pair, ICMP type, or raw protocol number, as applicable.
    pub proto: ProtoSummary,
    /// Total length of the buffer.
    pub len: usize,
}

/// The big-endian 16-bit word at byte offset `i`.
pub open spec fn word_at(s: Seq<u8>, i: int) -> u16 {
    (s[i] * 256 + s[i + 1]) as u16
}

/// The protocol detail `describe` owes for a packet.
pub open spec fn proto_summary_spec(s: Seq<u8>) -> ProtoSummary {
    if s[9] == PROTO_ICMP {
        if s.len() >= 21 {
            ProtoSummary::Icmp { icmp_type: s[20] }
        } else {
            ProtoSummary::Truncated { proto: PROTO_ICMP }
        }
    } else if s[9] == PROTO_TCP {
        if s.len() >= 24 {
            ProtoSummary::Tcp { src_port: word_at(s, 20), dst_port: word_at(s, 22) }
        } else {
            ProtoSummary::Truncated { proto: PROTO_TCP }
        }
    } else if s[9] == PROTO_UDP {
        if s.len() >= 24 {
            ProtoSummary::Udp { src_port: word_at(s, 20), dst_port: word_at(s, 22) }
        } else {
            ProtoSummary::Truncated { proto: PROTO_UDP }
        }
    } else {
        ProtoSummary::Unknown { proto: s[9] }
    }
}

/// The summary `describe` owes for a packet.
pub open spec fn summary_spec(s: Seq<u8>) -> PacketSummary {
    PacketSummary {
        src: (s[12], s[13], s[14], s[15]),
        dst: (s[16], s[17], s[18], s[19]),
        proto: proto_summary_spec(s),
        len: s.len() as usize,
    }
}

/// Collects the facts a diagnostic line surfaces, without touching the
/// buffer. Total on every buffer that holds a full IPv4 header: a packet too
/// short for its protocol's extra fields is summarized as `Truncated` rather
/// than read out of bounds.
pub fn describe(packet: &[u8]) -> (r: PacketSummary)
    requires
        packet@.len() >= 20,
    ensures
        r == summary_spec(packet@),
{
    let src = (packet[12], packet[13], packet[14], packet[15]);
    let dst = (packet[16], packet[17], packet[18], packet[19]);
    let proto = if packet[9] == PROTO_ICMP {
        if packet.len() >= 21 {
            ProtoSummary::Icmp { icmp_type: packet[20] }
        } else {
            ProtoSummary::Truncated { proto: PROTO_ICMP }
        }
    } else if packet[9] == PROTO_TCP {
        if packet.len() >= 24 {
            ProtoSummary::Tcp {
                src_port: (packet[20] as u16) * 256 + (packet[21] as u16),
                dst_port: (packet[22] as u16) * 256 + (packet[23] as u16),
            }
        } else {
            ProtoSummary::Truncated { proto: PROTO_TCP }
        }
    } else if packet[9] == PROTO_UDP {
        if packet.len() >= 24 {
            ProtoSummary::Udp {
                src_port: (packet[20] as u16) * 256 + (packet[21] as u16),
                dst_port: (packet[22] as u16) * 256 + (packet[23] as u16),
            }
        } else {
            ProtoSummary::Truncated { proto: PROTO_UDP }
        }
    } else {
        ProtoSummary::Unknown { proto: packet[9] }
    };
    PacketSummary { src, dst, proto, len: packet.len() }
}

} // verus!
