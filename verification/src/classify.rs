//! The Classifier: pure predicates on the raw packet bytes that decide a
//! packet's current representation and its eligibility for wrapping.

use vstd::prelude::*;

verus! {

/// IPv4 protocol number of ICMP, the wrapped representation.
pub const PROTO_ICMP: u8 = 0x1;

/// IPv4 protocol number of TCP.
pub const PROTO_TCP: u8 = 0x6;

/// IPv4 protocol number of UDP.
pub const PROTO_UDP: u8 = 0x11;

/// The packet is currently in its wrapped (ICMP) representation.
pub open spec fn is_wrapped_spec(s: Seq<u8>) -> bool {
    s[9] == PROTO_ICMP
}

/// The packet is native TCP or UDP, and so eligible for wrapping.
pub open spec fn should_warp_spec(s: Seq<u8>) -> bool {
    s[9] == PROTO_UDP || s[9] == PROTO_TCP
}

/// The destination address ends in octet 255. This is the broadcast
/// heuristic the engine commits to: it deliberately does not consult a
/// netmask.
pub open spec fn is_broadcast_spec(s: Seq<u8>) -> bool {
    s[19] == 255
}

/// True iff the protocol byte is ICMP: the packet is wrapped.
pub fn is_wrapped(packet: &[u8]) -> (r: bool)
    requires
        packet@.len() >= 20,
    ensures
        r == is_wrapped_spec(packet@),
{
    packet[9] == PROTO_ICMP
}

/// True iff the protocol byte is TCP or UDP: the packet can be wrapped.
pub fn should_warp(packet: &[u8]) -> (r: bool)
    requires
        packet@.len() >= 20,
    ensures
        r == should_warp_spec(packet@),
{
    packet[9] == PROTO_UDP || packet[9] == PROTO_TCP
}

/// True iff the last octet of the destination address is 255.
pub fn is_broadcast(packet: &[u8]) -> (r: bool)
    requires
        packet@.len() >= 20,
    ensures
        r == is_broadcast_spec(packet@),
{
    packet[19] == 255
}

/// Law: over the three protocols the engine knows — TCP, UDP and ICMP — a
/// packet is wrapped exactly when it is not transcodable; for every other
/// protocol value both predicates are false.
pub proof fn lemma_classification_partition(s: Seq<u8>)
    ensures
        (s[9] == PROTO_TCP || s[9] == PROTO_UDP || s[9] == PROTO_ICMP) ==> (is_wrapped_spec(s)
            == !should_warp_spec(s)),
        !(s[9] == PROTO_TCP || s[9] == PROTO_UDP || s[9] == PROTO_ICMP) ==> (!is_wrapped_spec(s)
            && !should_warp_spec(s)),
{
}

} // verus!
