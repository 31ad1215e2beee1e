//! The Checksum Unit: computation and in-place repair of the IPv4 header
//! checksum (RFC 1071, the 16-bit one's-complement Internet checksum).

use vstd::prelude::*;

verus! {

use vstd::arithmetic::div_mod::lemma_fundamental_div_mod;
use vstd::arithmetic::div_mod::lemma_mod_multiples_vanish;
use vstd::arithmetic::div_mod::lemma_small_mod;
use vstd::slice::slice_subrange;

/// The buffer read as big-endian 16-bit words and summed; an odd final byte
/// counts as the high byte of a zero-padded word.
pub open spec fn words_sum(s: Seq<u8>) -> int
    decreases s.len(),
{
    if s.len() == 0 {
        0
    } else if s.len() == 1 {
        s[0] * 256
    } else {
        s[0] * 256 + s[1] + words_sum(s.subrange(2, s.len() as int))
    }
}

/// End-around-carry fold of a non-negative word sum into 16 bits: the value
/// reached by repeatedly adding the bits above the low 16 back into the low
/// 16 until none remain.
pub open spec fn fold_carries(n: int) -> int {
    if n == 0 {
        0
    } else if n % 0xffff == 0 {
        0xffff
    } else {
        n % 0xffff
    }
}

/// The Internet checksum of a byte sequence: the one's complement of the
/// folded big-endian word sum.
pub open spec fn checksum_spec(s: Seq<u8>) -> u16 {
    (0xffff - fold_carries(words_sum(s))) as u16
}

/// The buffer after the checksum field at byte offset `off` has been zeroed,
/// the checksum recomputed over the whole buffer, and the result written
/// back big-endian at `off`.
pub open spec fn patch_spec(s: Seq<u8>, off: int) -> Seq<u8> {
    let z = s.update(off, 0u8).update(off + 1, 0u8);
    let c = checksum_spec(z);
    z.update(off, (c / 256) as u8).update(off + 1, (c % 256) as u8)
}

/// The buffer after its 20-byte IPv4 header checksum (bytes 10 and 11) has
/// been zeroed, recomputed over bytes 0..20, and written back big-endian.
pub open spec fn header_patch_spec(s: Seq<u8>) -> Seq<u8> {
    let z = s.update(10, 0u8).update(11, 0u8);
    let c = checksum_spec(z.subrange(0, 20));
    z.update(10, (c / 256) as u8).update(11, (c % 256) as u8)
}

pub proof fn lemma_words_sum_nonneg(s: Seq<u8>)
    ensures
        0 <= words_sum(s),
    decreases s.len(),
{
    if s.len() >= 2 {
        lemma_words_sum_nonneg(s.subrange(2, s.len() as int));
    }
}

/// Peeling one word off the front of the tail of a buffer.
proof fn lemma_words_sum_step(s: Seq<u8>, i: int)
    requires
        0 <= i,
        i + 2 <= s.len(),
    ensures
        words_sum(s.subrange(i, s.len() as int)) == s[i] * 256 + s[i + 1] + words_sum(
            s.subrange(i + 2, s.len() as int),
        ),
{
    let t = s.subrange(i, s.len() as int);
    assert(t.subrange(2, t.len() as int) =~= s.subrange(i + 2, s.len() as int));
}

/// Replacing the aligned byte pair at even offset `off` changes the word sum
/// by exactly the difference of the words formed by the two pairs.
proof fn lemma_words_sum_update_pair(s: Seq<u8>, off: int, a: u8, b: u8)
    requires
        0 <= off,
        off % 2 == 0,
        off + 1 < s.len(),
    ensures
        words_sum(s.update(off, a).update(off + 1, b)) == words_sum(s) - s[off] * 256 - s[off + 1]
            + a * 256 + b,
    decreases off,
{
    let u = s.update(off, a).update(off + 1, b);
    if off == 0 {
        assert(u.subrange(2, u.len() as int) =~= s.subrange(2, s.len() as int));
    } else {
        let t = s.subrange(2, s.len() as int);
        lemma_words_sum_update_pair(t, off - 2, a, b);
        assert(u.subrange(2, u.len() as int) =~= t.update(off - 2, a).update(off - 1, b));
    }
}

/// A buffer that carries its own Internet checksum sums to zero: patching a
/// checksum word at an aligned offset and then summing the whole buffer
/// always verifies.
proof fn lemma_patch_spec_verifies(s: Seq<u8>, off: int)
    requires
        2 <= s.len(),
        0 <= off,
        off % 2 == 0,
        off + 1 < s.len(),
    ensures
        checksum_spec(patch_spec(s, off)) == 0,
{
    let z = s.update(off, 0u8).update(off + 1, 0u8);
    let c = checksum_spec(z);
    let n: int = words_sum(z);
    lemma_words_sum_nonneg(z);
    assert(0 <= n % 0xffff < 0xffff) by (nonlinear_arith)
        requires
            0 <= n,
    ;
    assert(c == 0xffff - fold_carries(n));
    let hi = (c / 256) as u8;
    let lo = (c % 256) as u8;
    lemma_words_sum_update_pair(z, off, hi, lo);
    assert(hi * 256 + lo == c);
    assert(z[off] == 0 && z[off + 1] == 0);
    let p = patch_spec(s, off);
    assert(words_sum(p) == n + c);
    if n == 0 {
        assert(fold_carries(n + c) == 0xffff);
    } else if n % 0xffff == 0 {
        assert(c == 0);
        assert(fold_carries(n + c) == 0xffff);
    } else {
        let q: int = n / 0xffff;
        lemma_fundamental_div_mod(n, 0xffff);
        assert(n + c == 0xffff * (q + 1));
        lemma_mod_multiples_vanish(q + 1, 0, 0xffff);
        assert((n + c) % 0xffff == 0);
        assert(n + c > 0);
        assert(fold_carries(n + c) == 0xffff);
    }
    assert(checksum_spec(p) == 0);
}

/// Law: for an even-length buffer whose checksum bytes (an aligned pair at
/// offset `off`) are zero, patching the checksum in and then computing the
/// checksum over the same buffer yields zero — the standard Internet-checksum
/// self-verification property.
pub proof fn lemma_patch_then_checksum_zero(s: Seq<u8>, off: int)
    requires
        2 <= s.len(),
        s.len() % 2 == 0,
        0 <= off,
        off % 2 == 0,
        off + 1 < s.len(),
        s[off] == 0,
        s[off + 1] == 0,
    ensures
        checksum_spec(patch_spec(s, off)) == 0,
{
    lemma_patch_spec_verifies(s, off);
}

/// The 20-byte header left behind by a header patch carries a checksum that
/// verifies: summing bytes 0..20 of the patched buffer yields zero.
pub proof fn lemma_header_patch_verifies(s: Seq<u8>)
    requires
        s.len() >= 20,
    ensures
        checksum_spec(header_patch_spec(s).subrange(0, 20)) == 0,
{
    let s20 = s.subrange(0, 20);
    let z = s.update(10, 0u8).update(11, 0u8);
    assert(z.subrange(0, 20) =~= s20.update(10, 0u8).update(11, 0u8));
    lemma_patch_spec_verifies(s20, 10);
    assert(header_patch_spec(s).subrange(0, 20) =~= patch_spec(s20, 10));
}

/// Computes the RFC 1071 Internet checksum of the buffer: big-endian 16-bit
/// words are summed (an odd final byte is zero-padded on the right), carries
/// above bit 16 are folded back in, and the result is inverted.
pub fn calculate_checksum(buffer: &[u8]) -> (r: u16)
    requires
        1 <= buffer@.len() <= 65535,
    ensures
        r == checksum_spec(buffer@),
{
    let mut sum: u32 = 0;
    let mut i: usize = 0;
    proof {
        assert(buffer@.subrange(0, buffer@.len() as int) =~= buffer@);
    }

    while i < buffer.len() - 1
        invariant
            1 <= buffer@.len() <= 65535,
            i % 2 == 0,
            i <= buffer@.len(),
            sum as int + words_sum(buffer@.subrange(i as int, buffer@.len() as int)) == words_sum(
                buffer@,
            ),
            sum as int <= 0x8000 * (i as int),
        decreases buffer@.len() - i,
    {
        let word: u32 = (buffer[i] as u32) * 256 + (buffer[i + 1] as u32);
        proof {
            lemma_words_sum_step(buffer@, i as int);
        }
        sum = sum + word;
        i = i + 2;
    }

    if buffer.len() % 2 == 1 {
        assert(i == buffer@.len() - 1);
        sum = sum + (buffer[buffer.len() - 1] as u32) * 256;
    }
    assert(sum as int == words_sum(buffer@));

    let ghost n: int = words_sum(buffer@);
    while sum > 0xffff
        invariant
            (sum == 0) <==> (n == 0),
            sum as int % 0xffff == n % 0xffff,
        decreases sum,
    {
        let q: u32 = sum / 0x10000;
        let r: u32 = sum % 0x10000;
        proof {
            lemma_fundamental_div_mod(sum as int, 0x10000);
            assert(sum as int == 0xffff * (q as int) + (q as int + r as int));
            lemma_mod_multiples_vanish(q as int, q as int + r as int, 0xffff);
        }
        sum = q + r;
    }

    proof {
        lemma_words_sum_nonneg(buffer@);
        if n != 0 && n % 0xffff == 0 {
            if sum < 0xffff {
                lemma_small_mod(sum as nat, 0xffff as nat);
            }
            assert(sum == 0xffff);
        } else if n != 0 {
            assert(0 <= n % 0xffff < 0xffff) by (nonlinear_arith)
                requires
                    0 <= n,
            ;
            assert(sum != 0xffff);
            lemma_small_mod(sum as nat, 0xffff as nat);
        }
        assert(sum as int == fold_carries(n));
    }
    let r: u16 = !(sum as u16);
    proof {
        assert(!(sum as u16) == 0xffffu16 - (sum as u16)) by (bit_vector);
    }
    r
}

/// Zeroes the two checksum bytes at `offset`, recomputes the Internet
/// checksum over the whole buffer, and writes the result back big-endian.
pub fn put_checksum(data: &mut [u8], offset: usize)
    requires
        old(data)@.len() <= 65535,
        offset + 1 < old(data)@.len(),
    ensures
        final(data)@ == patch_spec(old(data)@, offset as int),
{
    data[offset] = 0;
    data[offset + 1] = 0;
    let checksum: u16 = calculate_checksum(&*data);
    data[offset] = (checksum / 256) as u8;
    data[offset + 1] = (checksum % 256) as u8;
}

/// Zeroes the checksum field (bytes 10 and 11) of the 20-byte IPv4 header at
/// the start of `packet`, recomputes the checksum over bytes 0..20, and
/// writes it back big-endian — the header repair step shared by wrapping,
/// unwrapping and broadcast redirection.
pub fn put_header_checksum(packet: &mut [u8])
    requires
        old(packet)@.len() >= 20,
    ensures
        final(packet)@ == header_patch_spec(old(packet)@),
{
    packet[10] = 0;
    packet[11] = 0;
    let header = slice_subrange(&*packet, 0, 20);
    let checksum: u16 = calculate_checksum(header);
    packet[10] = (checksum / 256) as u8;
    packet[11] = (checksum % 256) as u8;
}

} // verus!
