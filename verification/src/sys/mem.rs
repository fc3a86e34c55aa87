//! The C runtime's memory routines, on byte buffers.
use vstd::prelude::*;

verus! {

/// Sets the first `num` bytes of `dst` to the low byte of `value`.
pub fn memset(dst: &mut Vec<u8>, value: u32, num: usize)
    requires
        num <= old(dst)@.len(),
    ensures
        final(dst)@.len() == old(dst)@.len(),
        forall|i: int| 0 <= i < num ==> final(dst)@[i] == value as u8,
        forall|i: int| num <= i < old(dst)@.len() ==> final(dst)@[i] == old(dst)@[i],
{
    let byte: u8 = #[verifier::truncate] (value as u8);
    let mut i: usize = 0;
    while i < num
        invariant
            i <= num <= dst@.len(),
            dst@.len() == old(dst)@.len(),
            byte == value as u8,
            forall|j: int| 0 <= j < i ==> dst@[j] == byte,
            forall|j: int| num <= j < old(dst)@.len() ==> dst@[j] == old(dst)@[j],
        decreases num - i,
    {
        dst.set(i, byte);
        i += 1;
    }
}

/// Copies the first `num` bytes of `src` over the first `num` bytes of `dst`.
pub fn memcpy(dst: &mut Vec<u8>, src: &[u8], num: usize)
    requires
        num <= old(dst)@.len(),
        num <= src@.len(),
    ensures
        final(dst)@ == src@.subrange(0, num as int) + old(dst)@.subrange(num as int, old(dst)@.len() as int),
{
    let mut i: usize = 0;
    while i < num
        invariant
            i <= num <= dst@.len(),
            num <= src@.len(),
            dst@.len() == old(dst)@.len(),
            forall|j: int| 0 <= j < i ==> dst@[j] == src@[j],
            forall|j: int| i <= j < old(dst)@.len() ==> dst@[j] == old(dst)@[j],
        decreases num - i,
    {
        dst.set(i, src[i]);
        i += 1;
    }
    proof {
        assert(dst@ =~= src@.subrange(0, num as int) + old(dst)@.subrange(num as int, old(dst)@.len() as int));
    }
}

/// The comparison of the first `num` bytes: the difference of the first pair
/// that differs, or 0.
pub open spec fn compare_prefix(lhs: Seq<u8>, rhs: Seq<u8>, num: int) -> int
    decreases num,
{
    if num <= 0 {
        0
    } else if compare_prefix(lhs, rhs, num - 1) != 0 {
        compare_prefix(lhs, rhs, num - 1)
    } else {
        lhs[num - 1] - rhs[num - 1]
    }
}

/// Compares the first `num` bytes of two buffers.
pub fn memory_compare(lhs: &[u8], rhs: &[u8], num: usize) -> (r: i32)
    requires
        num <= lhs@.len(),
        num <= rhs@.len(),
    ensures
        r == compare_prefix(lhs@, rhs@, num as int),
{
    let mut i: usize = 0;
    while i < num
        invariant
            i <= num <= lhs@.len(),
            num <= rhs@.len(),
            compare_prefix(lhs@, rhs@, i as int) == 0,
        decreases num - i,
    {
        let a = lhs[i];
        let b = rhs[i];
        if a != b {
            proof {
                lemma_compare_settled(lhs@, rhs@, i as int + 1, num as int);
            }
            return a as i32 - b as i32;
        }
        i += 1;
    }
    0
}

proof fn lemma_compare_settled(lhs: Seq<u8>, rhs: Seq<u8>, k: int, n: int)
    requires
        1 <= k <= n,
        compare_prefix(lhs, rhs, k) != 0,
    ensures
        compare_prefix(lhs, rhs, n) == compare_prefix(lhs, rhs, k),
    decreases n - k,
{
    if k < n {
        lemma_compare_settled(lhs, rhs, k, n - 1);
    }
}

/// The length of a NUL-terminated string: the index of its first zero byte.
pub fn strlen(s: &[u8]) -> (n: usize)
    requires
        exists|i: int| 0 <= i < s@.len() && s@[i] == 0,
    ensures
        n < s@.len(),
        s@[n as int] == 0,
        forall|i: int| 0 <= i < n ==> s@[i] != 0,
{
    let mut len: usize = 0;
    while s[len] != 0
        invariant
            len < s@.len(),
            forall|i: int| 0 <= i < len ==> s@[i] != 0,
            exists|i: int| len <= i < s@.len() && s@[i] == 0,
        decreases s@.len() - len,
    {
        len += 1;
    }
    len
}

/// Buffers whose first `num` bytes agree compare equal over them; in
/// particular, after `memcpy` of `num` bytes the destination compares equal
/// to the source.
pub proof fn law_equal_prefixes_compare_equal(lhs: Seq<u8>, rhs: Seq<u8>, num: int)
    requires
        0 <= num <= lhs.len(),
        num <= rhs.len(),
        lhs.subrange(0, num) == rhs.subrange(0, num),
    ensures
        compare_prefix(lhs, rhs, num) == 0,
    decreases num,
{
    if num > 0 {
        assert(lhs.subrange(0, num - 1) =~= lhs.subrange(0, num).subrange(0, num - 1));
        assert(rhs.subrange(0, num - 1) =~= rhs.subrange(0, num).subrange(0, num - 1));
        assert(lhs[num - 1] == lhs.subrange(0, num)[num - 1]);
        assert(rhs[num - 1] == rhs.subrange(0, num)[num - 1]);
        law_equal_prefixes_compare_equal(lhs, rhs, num - 1);
    }
}

/// `buf` with the `num` bytes at `src` copied to `dst`, as they were before
/// the copy (the two ranges may overlap).
pub open spec fn moved(buf: Seq<u8>, dst: int, src: int, num: int) -> Seq<u8> {
    Seq::new(buf.len(), |k: int| if dst <= k < dst + num { buf[src + k - dst] } else { buf[k] })
}

/// Moves `num` bytes of `buf` from offset `src` to offset `dst`; the ranges
/// may overlap, and every byte lands as it was before the move.
pub fn memmove(buf: &mut Vec<u8>, dst: usize, src: usize, num: usize)
    requires
        dst + num <= old(buf)@.len(),
        src + num <= old(buf)@.len(),
    ensures
        final(buf)@ == moved(old(buf)@, dst as int, src as int, num as int),
{
    let ghost before = buf@;
    let len = buf.len();
    if dst <= src {
        let mut i: usize = 0;
        while i < num
            invariant
                i <= num,
                dst <= src,
                dst + num <= before.len(),
                src + num <= before.len(),
                buf@.len() == before.len(),
                before.len() == len,
                forall|k: int| dst <= k < dst + i ==> #[trigger] buf@[k] == before[src + k - dst],
                forall|k: int| 0 <= k < before.len() && !(dst <= k < dst + i) ==> #[trigger] buf@[k] == before[k],
            decreases num - i,
        {
            let b = buf[src + i];
            buf.set(dst + i, b);
            i += 1;
        }
    } else {
        let mut i: usize = num;
        while i > 0
            invariant
                i <= num,
                dst > src,
                dst + num <= before.len(),
                src + num <= before.len(),
                buf@.len() == before.len(),
                before.len() == len,
                forall|k: int| dst + i <= k < dst + num ==> #[trigger] buf@[k] == before[src + k - dst],
                forall|k: int| 0 <= k < before.len() && !(dst + i <= k < dst + num) ==> #[trigger] buf@[k] == before[k],
            decreases i,
        {
            let b = buf[src + i - 1];
            buf.set(dst + i - 1, b);
            i -= 1;
        }
    }
    proof {
        assert(buf@ =~= moved(before, dst as int, src as int, num as int));
    }
}

} // verus!
