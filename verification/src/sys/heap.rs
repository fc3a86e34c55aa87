//! The layout of a heap block taken from the kernel's memory partitions: the
//! block's identifier (4 bytes), then padding whose last byte holds the
//! padding's length, then the aligned data.
use vstd::prelude::*;
use crate::gfx::vram_alloc::is_power_of_two;
use vstd::arithmetic::power2::pow2;

verus! {

/// The bytes of a block identifier.
pub const UID_SIZE: usize = 4;

/// The bytes to ask the kernel for: the data, the identifier and room to
/// align.
pub open spec fn block_bytes(size: int, align: int) -> int {
    size + UID_SIZE + align
}

/// The bytes to ask the kernel for, when they fit in 32 bits; `None` (no
/// allocation) otherwise.
pub fn block_size(size: usize, align: usize) -> (r: Option<u32>)
    ensures
        block_bytes(size as int, align as int) <= u32::MAX ==> r == Some(block_bytes(size as int, align as int) as u32),
        block_bytes(size as int, align as int) > u32::MAX ==> r is None,
{
    let total = match size.checked_add(UID_SIZE) {
        Some(s) => match s.checked_add(align) {
            Some(t) => t,
            None => return None,
        },
        None => return None,
    };
    if total <= 0xffff_ffffusize {
        Some(total as u32)
    } else {
        None
    }
}

/// The padding before the data of a block at `base`: one byte for its length
/// and as many more as align the data.
pub open spec fn align_padding(base: int, align: int) -> int {
    1 + (align - (base + UID_SIZE + 1) % align) % align
}

/// Where the data of a block at `base` starts, and the padding byte stored
/// just before it.
pub fn place_in_block(base: usize, align: usize) -> (r: (usize, u8))
    requires
        is_power_of_two(align as int),
        base + UID_SIZE + align <= usize::MAX,
    ensures
        r.0 == base + UID_SIZE + align_padding(base as int, align as int),
        r.1 == align_padding(base as int, align as int) as u8,
{
    let ghost k = choose|k: nat| k < 64 && pow2(k) == align;
    proof {
        vstd::arithmetic::power2::lemma_pow2_pos(k);
    }
    let after_uid = base + UID_SIZE;
    let offset = (align - (after_uid + 1) % align) % align;
    let padding = 1 + offset;
    (after_uid + padding, #[verifier::truncate] (padding as u8))
}

/// The start of the block whose data is at `ptr`, from the padding byte
/// stored just before it.
pub fn block_start(ptr: usize, padding: u8) -> (b: usize)
    requires
        ptr >= padding + UID_SIZE,
    ensures
        b == ptr - padding - UID_SIZE,
{
    ptr - padding as usize - UID_SIZE
}

/// A block's data is aligned, lies within the block asked for, and the block
/// start is found again from the data's address and its padding byte, for
/// alignments up to 128 (a padding of 256 bytes does not fit in its byte).
pub proof fn law_block_start_recovers_base(base: usize, align: usize, size: usize)
    requires
        is_power_of_two(align as int),
        align <= 128,
        base + block_bytes(size as int, align as int) <= usize::MAX,
    ensures
        ({
            let pad = align_padding(base as int, align as int);
            let data = base + UID_SIZE + pad;
            &&& 1 <= pad <= align
            &&& data % (align as int) == 0
            &&& data + size <= base + block_bytes(size as int, align as int)
            &&& data - (pad as u8) - UID_SIZE == base
        }),
{
    let a = align as int;
    let x = base + UID_SIZE + 1;
    let k = choose|k: nat| k < 64 && pow2(k) == align;
    vstd::arithmetic::power2::lemma_pow2_pos(k);
    let off = (a - x % a) % a;
    assert(0 <= off < a) by {
        vstd::arithmetic::div_mod::lemma_mod_bound(a - x % a, a);
    }
    assert((x + off) % a == 0) by {
        vstd::arithmetic::div_mod::lemma_mod_bound(x, a);
        if x % a == 0 {
            vstd::arithmetic::div_mod::lemma_mod_self_0(a);
            assert(off == 0);
        } else {
            vstd::arithmetic::div_mod::lemma_small_mod((a - x % a) as nat, a as nat);
            vstd::arithmetic::div_mod::lemma_fundamental_div_mod(x, a);
            vstd::arithmetic::div_mod::lemma_mod_multiples_basic(x / a + 1, a);
            assert(x + off == a * (x / a + 1)) by (nonlinear_arith)
                requires
                    x == a * (x / a) + x % a,
                    off == a - x % a,
            ;
            vstd::arithmetic::mul::lemma_mul_is_commutative(a, x / a + 1);
        }
    }
    let pad = 1 + off;
    assert(pad as u8 == pad);
}

} // verus!
