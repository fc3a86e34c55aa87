use vstd::prelude::*;
use crate::gfx::color::{byte0, byte1, byte2, byte3, lemma_word_bytes};

verus! {

/// The little-endian bytes of a 32-bit word.
pub open spec fn le32(x: u32) -> Seq<u8> {
    seq![byte0(x) as u8, byte1(x) as u8, byte2(x) as u8, byte3(x) as u8]
}

/// The little-endian bytes of a 16-bit word.
pub open spec fn le16(x: u16) -> Seq<u8> {
    seq![(x as int % 0x100) as u8, (x as int / 0x100) as u8]
}

/// The big-endian bytes of a 32-bit word.
pub open spec fn be32(x: u32) -> Seq<u8> {
    seq![byte3(x) as u8, byte2(x) as u8, byte1(x) as u8, byte0(x) as u8]
}

/// The big-endian bytes of a 16-bit word.
pub open spec fn be16(x: u16) -> Seq<u8> {
    seq![(x as int / 0x100) as u8, (x as int % 0x100) as u8]
}

/// The bytes of 32-bit words, each in little-endian (`big` false) or
/// big-endian (`big` true) order.
pub open spec fn words_bytes(ws: Seq<u32>, big: bool) -> Seq<u8>
    decreases ws.len(),
{
    if ws.len() == 0 {
        Seq::empty()
    } else {
        words_bytes(ws.drop_last(), big) + (if big { be32(ws.last()) } else { le32(ws.last()) })
    }
}

/// The bytes of 16-bit words, each in little-endian (`big` false) or
/// big-endian (`big` true) order.
pub open spec fn halves_bytes(hs: Seq<u16>, big: bool) -> Seq<u8>
    decreases hs.len(),
{
    if hs.len() == 0 {
        Seq::empty()
    } else {
        halves_bytes(hs.drop_last(), big) + (if big { be16(hs.last()) } else { le16(hs.last()) })
    }
}

/// `n` zero bytes.
pub open spec fn zeros(n: int) -> Seq<u8> {
    Seq::new(n as nat, |i: int| 0u8)
}

proof fn lemma_half_bits(x: u16)
    by (bit_vector)
    ensures
        x & 0xff == x % 0x100,
        x >> 8u16 == x / 0x100,
{
}

/// Appends the little-endian bytes of `x`.
pub fn push_u32_le(out: &mut Vec<u8>, x: u32)
    ensures
        final(out)@ == old(out)@ + le32(x),
{
    proof {
        lemma_word_bytes(x);
    }
    out.push((x & 0xff) as u8);
    out.push(((x >> 8u32) & 0xff) as u8);
    out.push(((x >> 16u32) & 0xff) as u8);
    out.push((x >> 24u32) as u8);
    proof {
        assert(final(out)@ =~= old(out)@ + le32(x));
    }
}

/// Appends the little-endian bytes of `x`.
pub fn push_u16_le(out: &mut Vec<u8>, x: u16)
    ensures
        final(out)@ == old(out)@ + le16(x),
{
    proof {
        lemma_half_bits(x);
    }
    out.push((x & 0xff) as u8);
    out.push((x >> 8u16) as u8);
    proof {
        assert(final(out)@ =~= old(out)@ + le16(x));
    }
}

/// Appends `n` zero bytes.
pub fn push_zeros(out: &mut Vec<u8>, n: usize)
    ensures
        final(out)@ == old(out)@ + zeros(n as int),
{
    let ghost start = out@;
    let mut i: usize = 0;
    while i < n
        invariant
            0 <= i <= n,
            out@ == start + zeros(i as int),
        decreases n - i,
    {
        out.push(0u8);
        i += 1;
        proof {
            assert(out@ =~= start + zeros(i as int));
        }
    }
}

/// Appends `src[start..start + len]`.
pub fn push_range(out: &mut Vec<u8>, src: &[u8], start: usize, len: usize)
    requires
        start + len <= src@.len(),
    ensures
        final(out)@ == old(out)@ + src@.subrange(start as int, start + len),
{
    let ghost begin = out@;
    let n = src.len();
    let mut i: usize = 0;
    while i < len
        invariant
            0 <= i <= len,
            n == src@.len(),
            start + len <= n,
            out@ == begin + src@.subrange(start as int, start + i),
        decreases len - i,
    {
        out.push(src[start + i]);
        i += 1;
        proof {
            assert(out@ =~= begin + src@.subrange(start as int, start + i));
        }
    }
}

} // verus!
