//! The Transcoder: the reversible rewrite between the native TCP/UDP
//! representation and the wrapped ICMP one, the optional broadcast-address
//! substitution, and the per-packet orchestration of the engine.

use vstd::prelude::*;

verus! {

use crate::checksum::checksum_spec;
use crate::checksum::header_patch_spec;
use crate::checksum::lemma_header_patch_verifies;
use crate::checksum::put_header_checksum;
use crate::classify::PROTO_ICMP;
use crate::classify::PROTO_TCP;
use crate::classify::PROTO_UDP;
use crate::classify::is_broadcast;
use crate::classify::is_broadcast_spec;
use crate::classify::is_wrapped;
use crate::classify::is_wrapped_spec;
use crate::classify::should_warp;
use crate::classify::should_warp_spec;
use crate::summary::PacketSummary;
use crate::summary::describe;
use crate::summary::summary_spec;

/// The wrapped form of a transcodable packet: for UDP the hidden tag bit
/// (bit 7 of byte 6) is set to remember the original transport, the
/// protocol byte becomes ICMP, and the header checksum is repaired.
pub open spec fn wrap_spec(s: Seq<u8>) -> Seq<u8> {
    let tagged = if s[9] == PROTO_UDP {
        s.update(6, s[6] | 0x80u8)
    } else {
        s
    };
    header_patch_spec(tagged.update(9, PROTO_ICMP))
}

/// The unwrapped form of a packet: the protocol byte is restored from the
/// hidden tag bit (set: UDP, clear: TCP), the tag bit is cleared, and the
/// header checksum is repaired.
pub open spec fn unwrap_spec(s: Seq<u8>) -> Seq<u8> {
    let proto: u8 = if s[6] & 0x80u8 == 0u8 {
        PROTO_TCP
    } else {
        PROTO_UDP
    };
    header_patch_spec(s.update(9, proto).update(6, s[6] & 0x7fu8))
}

/// The packet after broadcast redirection: if the destination ends in octet
/// 255 and a redirect address is configured, the destination bytes 16..20
/// become that address; otherwise the packet is unchanged.
pub open spec fn redirect_spec(s: Seq<u8>, redirect: Option<[u8; 4]>) -> Seq<u8> {
    if is_broadcast_spec(s) && redirect is Some {
        let a = redirect.unwrap();
        s.update(16, a[0]).update(17, a[1]).update(18, a[2]).update(19, a[3])
    } else {
        s
    }
}

/// Disguises a native TCP or UDP packet as ICMP: remembers UDP in the
/// hidden tag bit, sets the protocol byte to ICMP, and repairs the header
/// checksum. Calling this on any other protocol is a contract violation, so
/// the precondition excludes it; the wrapped header's checksum verifies.
pub fn add_wrapper(packet: &mut [u8])
    requires
        old(packet)@.len() >= 20,
        should_warp_spec(old(packet)@),
    ensures
        final(packet)@ == wrap_spec(old(packet)@),
        checksum_spec(final(packet)@.subrange(0, 20)) == 0,
{
    if packet[9] == PROTO_UDP {
        let tagged: u8 = packet[6] | 0x80;
        packet[6] = tagged;
    }
    packet[9] = PROTO_ICMP;
    proof {
        lemma_header_patch_verifies(packet@);
    }
    put_header_checksum(packet);
}

/// Reverses the disguise: restores the protocol byte from the hidden tag
/// bit (set: UDP, clear: TCP), clears the tag bit, and repairs the header
/// checksum; the restored header's checksum verifies.
pub fn rm_wrapper(packet: &mut [u8])
    requires
        old(packet)@.len() >= 20,
    ensures
        final(packet)@ == unwrap_spec(old(packet)@),
        checksum_spec(final(packet)@.subrange(0, 20)) == 0,
{
    if packet[6] & 0x80 == 0 {
        packet[9] = PROTO_TCP;
    } else {
        packet[9] = PROTO_UDP;
    }
    let cleared: u8 = packet[6] & 0x7f;
    packet[6] = cleared;
    proof {
        lemma_header_patch_verifies(packet@);
    }
    put_header_checksum(packet);
}

/// Overwrites the destination address (bytes 16..20) with the configured
/// redirect address when the destination ends in octet 255; a no-op when no
/// redirect is configured or the destination is not broadcast. Runs before
/// checksum repair, which the caller performs as part of wrapping.
pub fn maybe_redirect_broadcast(packet: &mut [u8], redirect: Option<[u8; 4]>)
    requires
        old(packet)@.len() >= 20,
    ensures
        final(packet)@ == redirect_spec(old(packet)@, redirect),
{
    if is_broadcast(&*packet) {
        if let Some(addr) = redirect {
            packet[16] = addr[0];
            packet[17] = addr[1];
            packet[18] = addr[2];
            packet[19] = addr[3];
        }
    }
}

/// Processes one packet: a wrapped packet is unwrapped; a transcodable one
/// is summarized, its broadcast destination optionally redirected, and then
/// wrapped; anything else passes through untouched. Returns the summary the
/// diagnostic step reports: the restored packet when unwrapping, the packet
/// as it arrived otherwise.
pub fn handle(packet: &mut [u8], broadcast: Option<[u8; 4]>) -> (r: PacketSummary)
    requires
        old(packet)@.len() >= 20,
    ensures
        is_wrapped_spec(old(packet)@) ==> final(packet)@ == unwrap_spec(old(packet)@) && r
            == summary_spec(final(packet)@),
        !is_wrapped_spec(old(packet)@) && should_warp_spec(old(packet)@) ==> final(packet)@
            == wrap_spec(redirect_spec(old(packet)@, broadcast)) && r == summary_spec(
            old(packet)@,
        ),
        !is_wrapped_spec(old(packet)@) && !should_warp_spec(old(packet)@) ==> final(packet)@
            == old(packet)@ && r == summary_spec(old(packet)@),
        is_wrapped_spec(old(packet)@) || should_warp_spec(old(packet)@) ==> checksum_spec(
            final(packet)@.subrange(0, 20),
        ) == 0,
{
    if is_wrapped(&*packet) {
        rm_wrapper(packet);
        describe(&*packet)
    } else if should_warp(&*packet) {
        let r = describe(&*packet);
        maybe_redirect_broadcast(packet, broadcast);
        add_wrapper(packet);
        r
    } else {
        describe(&*packet)
    }
}

/// Law: wrapping and then unwrapping a well-formed transcodable packet —
/// native TCP or UDP, hidden tag bit clear, header checksum in its valid
/// transmitted state — restores the packet exactly, protocol byte, tag bit
/// and checksum field included.
pub proof fn lemma_wrap_unwrap_roundtrip(s: Seq<u8>)
    requires
        s.len() >= 20,
        should_warp_spec(s),
        s[6] & 0x80 == 0,
        s == header_patch_spec(s),
    ensures
        unwrap_spec(wrap_spec(s)) == s,
{
    let x = s[6];
    assert((x | 0x80) & 0x80 != 0 && x & 0x80 == x & 0x80) by (bit_vector);
    assert(x & 0x80 == 0 ==> ((x | 0x80) & 0x7f == x && x & 0x7f == x)) by (bit_vector);
    let w = wrap_spec(s);
    let proto: u8 = if s[9] == PROTO_UDP {
        PROTO_UDP
    } else {
        PROTO_TCP
    };
    assert(w[6] & 0x80u8 == 0u8 <==> proto == PROTO_TCP);
    let inner = w.update(9, proto).update(6, w[6] & 0x7fu8);
    assert(inner.update(10, 0u8).update(11, 0u8) =~= s.update(10, 0u8).update(11, 0u8));
    assert(unwrap_spec(w) =~= s);
}

/// Law: the inverse direction of the bijection: unwrapping a wrapped packet
/// (protocol ICMP, header checksum in its valid transmitted state) and then
/// wrapping it again restores the packet exactly, hidden tag bit included.
pub proof fn lemma_unwrap_wrap_roundtrip(s: Seq<u8>)
    requires
        s.len() >= 20,
        is_wrapped_spec(s),
        s == header_patch_spec(s),
    ensures
        wrap_spec(unwrap_spec(s)) == s,
{
    let x = s[6];
    assert(x & 0x80 == 0 ==> x & 0x7f == x) by (bit_vector);
    assert(x & 0x80 != 0 ==> ((x & 0x7f) | 0x80) == x) by (bit_vector);
    let proto: u8 = if x & 0x80u8 == 0u8 {
        PROTO_TCP
    } else {
        PROTO_UDP
    };
    let u = unwrap_spec(s);
    assert(u[9] == proto && u[6] == x & 0x7fu8);
    let tagged = if proto == PROTO_UDP {
        u.update(6, u[6] | 0x80u8)
    } else {
        u
    };
    assert(tagged[6] == x);
    assert(tagged.update(9, PROTO_ICMP).update(10, 0u8).update(11, 0u8) =~= s.update(
        10,
        0u8,
    ).update(11, 0u8));
    assert(wrap_spec(u) =~= s);
}

/// Law: for a packet whose destination ends in octet 255 and a configured
/// redirect address, redirection followed by header repair leaves exactly
/// the four redirect octets in the destination bytes, and the repaired
/// header carries a checksum that verifies against the new destination.
pub proof fn lemma_broadcast_redirect(s: Seq<u8>, addr: [u8; 4])
    requires
        s.len() >= 20,
        is_broadcast_spec(s),
    ensures
        ({
            let p = header_patch_spec(redirect_spec(s, Some(addr)));
            &&& p[16] == addr[0]
            &&& p[17] == addr[1]
            &&& p[18] == addr[2]
            &&& p[19] == addr[3]
            &&& checksum_spec(p.subrange(0, 20)) == 0
        }),
{
    lemma_header_patch_verifies(redirect_spec(s, Some(addr)));
}

} // verus!
