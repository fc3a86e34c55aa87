use vstd::prelude::*;
use vstd::arithmetic::power2::{pow2, lemma_pow2_pos};
use vstd::arithmetic::div_mod::lemma_fundamental_div_mod;
use vstd::bits::{low_bits_mask, lemma_u64_low_bits_mask_is_mod};

verus! {

/// `a` is a power of two.
pub open spec fn is_power_of_two(a: int) -> bool {
    exists|k: nat| k < 64 && pow2(k) == a
}

/// The least multiple of `align` that is not below `addr`.
pub open spec fn aligned_up(addr: int, align: int) -> int {
    ((addr + align - 1) / align) * align
}

proof fn lemma_mask_split(y: usize, m: usize)
    by (bit_vector)
    ensures
        y & !m == y - (y & m),
        (y & m) as u64 == (y as u64) & (m as u64),
        y & m <= y,
{
}

/// Rounds `addr` up to the next multiple of the power of two `align`.
pub fn align_up(addr: usize, align: usize) -> (r: usize)
    requires
        is_power_of_two(align as int),
        addr + align - 1 <= usize::MAX,
    ensures
        r == aligned_up(addr as int, align as int),
        r % align == 0,
        addr <= r < addr + align,
{
    let ghost k = choose|k: nat| k < 64 && pow2(k) == align;
    proof {
        lemma_pow2_pos(k);
    }
    let y = addr + (align - 1);
    let m = align - 1;
    let r = y & !m;
    proof {
        lemma_pow2_pos(k);
        lemma_mask_split(y, m);
        assert(m as u64 == low_bits_mask(k) as u64);
        lemma_u64_low_bits_mask_is_mod(y as u64, k);
        assert(y & m == y % align);
        lemma_fundamental_div_mod(y as int, align as int);
        assert(y as int - y as int % align as int == (y as int / align as int) * align) by (nonlinear_arith)
            requires y as int == align * (y as int / align as int) + y as int % align as int;
        assert(r == (y as int / align as int) * align);
        vstd::arithmetic::div_mod::lemma_mod_multiples_basic(y as int / align as int, align as int);
    }
    r
}


/// A free range of VRAM: `size` bytes starting at address `addr`.
#[derive(Clone, Copy, Debug)]
pub struct VramNode {
    pub addr: usize,
    pub size: usize,
}

impl VramNode {
    pub fn new(addr: usize, size: usize) -> (n: Self)
        ensures
            n.addr == addr,
            n.size == size,
    {
        Self { addr, size }
    }

    /// The first address of the range.
    pub fn start(&self) -> (a: usize)
        ensures
            a == self.addr,
    {
        self.addr
    }

    /// The address just past the range.
    pub fn end(&self) -> (a: usize)
        requires
            self.addr + self.size <= usize::MAX,
        ensures
            a == self.addr + self.size,
    {
        self.addr + self.size
    }
}

/// Address `a` lies in the range of `n`.
pub open spec fn in_node(n: VramNode, a: int) -> bool {
    n.addr <= a < n.addr + n.size
}

/// Address `a` lies in one of the first `i` ranges of `s`.
pub open spec fn in_prefix(s: Seq<VramNode>, i: int, a: int) -> bool {
    exists|j: int| 0 <= j < i && j < s.len() && #[trigger] in_node(s[j], a)
}

/// Address `a` lies in one of the ranges of `s`.
pub open spec fn in_nodes(s: Seq<VramNode>, a: int) -> bool {
    in_prefix(s, s.len() as int, a)
}

/// No range of `s` runs past the end of the address space.
pub open spec fn nodes_fit(s: Seq<VramNode>) -> bool {
    forall|i: int| 0 <= i < s.len() ==> #[trigger] s[i].addr + s[i].size <= usize::MAX
}

/// No address lies in two ranges of `s`.
pub open spec fn nodes_disjoint(s: Seq<VramNode>) -> bool {
    forall|i: int, j: int, a: int|
        0 <= i < s.len() && 0 <= j < s.len() && i != j && #[trigger] in_node(s[i], a)
            ==> !#[trigger] in_node(s[j], a)
}

/// The well-formedness of a free list: its ranges fit and are disjoint.
pub open spec fn nodes_wf(s: Seq<VramNode>) -> bool {
    nodes_fit(s) && nodes_disjoint(s)
}

/// The ranges of `s` are ordered by start address.
pub open spec fn sorted_by_start(s: Seq<VramNode>) -> bool {
    forall|i: int, j: int| 0 <= i <= j < s.len() ==> #[trigger] s[i].addr <= #[trigger] s[j].addr
}

/// No range of `s` ends exactly where the next one starts.
pub open spec fn no_adjacent(s: Seq<VramNode>) -> bool {
    forall|i: int| 0 <= i < s.len() - 1 ==> #[trigger] s[i].addr + s[i].size != s[i + 1].addr
}

/// The set of addresses covered by `s`.
pub open spec fn nodes_set(s: Seq<VramNode>) -> Set<int> {
    Set::new(|a: int| in_nodes(s, a))
}

/// Sorts the free ranges by start address with `slice::sort_by_key`.
///
/// Trusted: std documents that the sort reorders the elements (the same
/// elements, each as often as before) so that the keys are ascending.
#[verifier::external_body]
fn sort_by_start(nodes: &mut Vec<VramNode>)
    ensures
        final(nodes)@.to_multiset() == old(nodes)@.to_multiset(),
        sorted_by_start(final(nodes)@),
{
    nodes.sort_by_key(|n| n.start());
}

/// The addresses of `s` with range `i` replaced by `extra` are those of
/// `s` without `[lo, lo + size)`.
proof fn lemma_taken_set(s: Seq<VramNode>, i: int, extra: Seq<VramNode>, mid: Seq<VramNode>, lo: int, size: int)
    requires
        mid == s.remove(i) + extra,
        forall|a: int| in_nodes(s.remove(i) + extra, a) <==> (in_nodes(s, a) && !(lo <= a < lo + size)),
    ensures
        nodes_set(mid) == nodes_set(s).difference(range_set(lo, size)),
{
    assert forall|a: int| #[trigger] nodes_set(mid).contains(a) == nodes_set(s).difference(
        range_set(lo, size),
    ).contains(a) by {
        assert(in_nodes(mid, a) <==> (in_nodes(s, a) && !(lo <= a < lo + size)));
    }
    assert(nodes_set(mid) =~= nodes_set(s).difference(range_set(lo, size)));
}

/// What is left of the free list `[n]` once `size` bytes are taken from the
/// start of `n`: the rest of `n`, if any.
pub open spec fn tail_after(n: VramNode, size: int) -> Seq<VramNode> {
    if size < n.size {
        seq![VramNode { addr: (n.addr + size) as usize, size: (n.size - size) as usize }]
    } else {
        Seq::empty()
    }
}

/// The total size of the ranges of `s`.
pub open spec fn nodes_total(s: Seq<VramNode>) -> int
    decreases s.len(),
{
    if s.len() == 0 {
        0
    } else {
        nodes_total(s.drop_last()) + s.last().size
    }
}

/// Every range of `s` holds at least one byte.
pub open spec fn all_nonempty(s: Seq<VramNode>) -> bool {
    forall|k: int| 0 <= k < s.len() ==> #[trigger] s[k].size > 0
}

proof fn lemma_total_push(s: Seq<VramNode>, n: VramNode)
    ensures
        nodes_total(s.push(n)) == nodes_total(s) + n.size,
{
    assert(s.push(n).drop_last() =~= s);
}

proof fn lemma_total_replace_last(s: Seq<VramNode>, n: VramNode)
    requires
        s.len() > 0,
    ensures
        nodes_total(s.update(s.len() - 1, n)) == nodes_total(s) - s.last().size + n.size,
{
    assert(s.update(s.len() - 1, n).drop_last() =~= s.drop_last());
}

proof fn lemma_total_take(s: Seq<VramNode>, i: int)
    requires
        0 <= i < s.len(),
    ensures
        nodes_total(s.take(i + 1)) == nodes_total(s.take(i)) + s[i].size,
{
    assert(s.take(i + 1).drop_last() =~= s.take(i));
}

proof fn lemma_total_remove(t: Seq<VramNode>, j: int)
    requires
        0 <= j < t.len(),
    ensures
        nodes_total(t) == nodes_total(t.remove(j)) + t[j].size,
    decreases t.len(),
{
    if j == t.len() - 1 {
        assert(t.remove(j) =~= t.drop_last());
    } else {
        lemma_total_remove(t.drop_last(), j);
        assert(t.remove(j).drop_last() =~= t.drop_last().remove(j));
        assert(t.remove(j).last() == t.last());
    }
}

/// Reordering ranges keeps their total size.
proof fn lemma_total_permutation(s: Seq<VramNode>, t: Seq<VramNode>)
    requires
        s.to_multiset() == t.to_multiset(),
    ensures
        nodes_total(s) == nodes_total(t),
    decreases s.len(),
{
    s.to_multiset_ensures();
    t.to_multiset_ensures();
    if s.len() > 0 {
        let x = s.last();
        let d = s.drop_last();
        d.to_multiset_ensures();
        assert(d.push(x) =~= s);
        assert(t.to_multiset().count(x) > 0);
        assert(t.contains(x));
        let j = choose|j: int| 0 <= j < t.len() && t[j] == x;
        let u = t.remove(j);
        assert(u.to_multiset() =~= d.to_multiset()) by {
            assert(s.to_multiset() =~= d.to_multiset().insert(x));
        }
        lemma_total_permutation(d, u);
        lemma_total_remove(t, j);
    }
}

/// A reordering of a list of at most one range is that list.
proof fn lemma_short_permutation(s: Seq<VramNode>, t: Seq<VramNode>)
    requires
        s.to_multiset() == t.to_multiset(),
        s.len() <= 1,
    ensures
        t == s,
{
    broadcast use vstd::multiset::group_multiset_axioms;
    s.to_multiset_ensures();
    t.to_multiset_ensures();
    assert(t.len() == s.len());
    if s.len() == 1 {
        assert(s.to_multiset().count(t[0]) > 0);
        assert(s.contains(t[0]));
        assert(t =~= s);
    } else {
        assert(t =~= s);
    }
}

/// Reordering a free list keeps it well formed and covering the same
/// addresses.
proof fn lemma_permuted_nodes(s: Seq<VramNode>, t: Seq<VramNode>)
    requires
        s.to_multiset() == t.to_multiset(),
        nodes_wf(s),
    ensures
        nodes_wf(t),
        forall|a: int| in_nodes(s, a) == in_nodes(t, a),
{
    broadcast use vstd::multiset::group_multiset_axioms;
    s.to_multiset_ensures();
    t.to_multiset_ensures();
    assert forall|i: int| 0 <= i < t.len() implies s.contains(#[trigger] t[i]) by {
        assert(t.contains(t[i]));
        assert(t.to_multiset().count(t[i]) > 0);
        assert(s.to_multiset().count(t[i]) > 0);
    }
    assert forall|i: int| 0 <= i < s.len() implies t.contains(#[trigger] s[i]) by {
        assert(s.contains(s[i]));
        assert(s.to_multiset().count(s[i]) > 0);
        assert(t.to_multiset().count(s[i]) > 0);
    }
    assert forall|i: int| 0 <= i < t.len() implies #[trigger] t[i].addr + t[i].size
        <= usize::MAX by {
        assert(s.contains(t[i]));
        let k = choose|k: int| 0 <= k < s.len() && s[k] == t[i];
        assert(s[k].addr + s[k].size <= usize::MAX);
    }
    assert forall|a: int| in_nodes(s, a) == in_nodes(t, a) by {
        if in_nodes(s, a) {
            let k = choose|k: int| 0 <= k < s.len() && #[trigger] in_node(s[k], a);
            assert(t.contains(s[k]));
            let i = choose|i: int| 0 <= i < t.len() && t[i] == s[k];
            assert(in_node(t[i], a));
        }
        if in_nodes(t, a) {
            let k = choose|k: int| 0 <= k < t.len() && #[trigger] in_node(t[k], a);
            assert(s.contains(t[k]));
            let i = choose|i: int| 0 <= i < s.len() && s[i] == t[k];
            assert(in_node(s[i], a));
        }
    }
    assert forall|i: int, j: int, a: int|
        0 <= i < t.len() && 0 <= j < t.len() && i != j && #[trigger] in_node(t[i], a)
            implies !#[trigger] in_node(t[j], a) by {
        if in_node(t[j], a) {
            assert(s.contains(t[i]));
            assert(s.contains(t[j]));
            let k1 = choose|k: int| 0 <= k < s.len() && s[k] == t[i];
            let k2 = choose|k: int| 0 <= k < s.len() && s[k] == t[j];
            assert(in_node(s[k1], a));
            assert(in_node(s[k2], a));
            if k1 == k2 {
                let v = t[i];
                let ti = t.remove(i);
                ti.to_multiset_ensures();
                let jj = if j < i { j } else { j - 1 };
                assert(ti[jj] == t[j]);
                assert(ti.contains(v));
                assert(ti.to_multiset().count(v) > 0);
                assert(t.to_multiset().count(v) > 1);
                let sk = s.remove(k1);
                sk.to_multiset_ensures();
                assert(sk.to_multiset().count(v) > 0);
                assert(sk.contains(v));
                let m = choose|m: int| 0 <= m < sk.len() && sk[m] == v;
                let k3 = if m < k1 { m } else { m + 1 };
                assert(s[k3] == v);
                assert(in_node(s[k3], a));
            }
        }
    }
}

/// The ranges of a well-formed list other than the `i`-th do not meet it.
proof fn lemma_others_disjoint(s: Seq<VramNode>, i: int, a: int)
    requires
        nodes_wf(s),
        0 <= i < s.len(),
        in_node(s[i], a),
    ensures
        !in_prefix(s, i, a),
{
    if in_prefix(s, i, a) {
        let j = choose|j: int| 0 <= j < i && j < s.len() && #[trigger] in_node(s[j], a);
        assert(in_node(s[j], a));
    }
}

/// Replacing the `i`-th range of a well-formed list by ranges that cover it
/// except for `[lo, hi)` removes exactly `[lo, hi)` from the covered set.
proof fn lemma_replace_node(s: Seq<VramNode>, i: int, extra: Seq<VramNode>, lo: int, hi: int)
    requires
        nodes_wf(s),
        0 <= i < s.len(),
        nodes_wf(extra),
        lo < hi ==> s[i].addr <= lo && hi <= s[i].addr + s[i].size,
        forall|a: int| in_nodes(extra, a) <==> (in_node(s[i], a) && !(lo <= a < hi)),
    ensures
        nodes_wf(s.remove(i) + extra),
        forall|a: int|
            in_nodes(s.remove(i) + extra, a) <==> (in_nodes(s, a) && !(lo <= a < hi)),
{
    let r = s.remove(i);
    let t = r + extra;
    assert forall|k: int| 0 <= k < r.len() implies #[trigger] r[k] == (if k < i { s[k] } else {
        s[k + 1]
    }) by {}
    assert forall|k: int| 0 <= k < t.len() implies #[trigger] t[k].addr + t[k].size
        <= usize::MAX by {
        if k < r.len() {
            let kk = if k < i { k } else { k + 1 };
            assert(s[kk].addr + s[kk].size <= usize::MAX);
        } else {
            assert(extra[k - r.len()].addr + extra[k - r.len()].size <= usize::MAX);
        }
    }
    assert forall|p: int, q: int, a: int|
        0 <= p < t.len() && 0 <= q < t.len() && p != q && #[trigger] in_node(t[p], a)
            implies !#[trigger] in_node(t[q], a) by {
        if in_node(t[q], a) {
            if p < r.len() && q < r.len() {
                let pp = if p < i { p } else { p + 1 };
                let qq = if q < i { q } else { q + 1 };
                assert(in_node(s[pp], a) && in_node(s[qq], a));
            } else if p >= r.len() && q >= r.len() {
                assert(in_node(extra[p - r.len()], a) && in_node(extra[q - r.len()], a));
            } else {
                let (x, e) = if p < r.len() { (p, q - r.len()) } else { (q, p - r.len()) };
                let xx = if x < i { x } else { x + 1 };
                assert(in_node(extra[e], a));
                assert(in_nodes(extra, a));
                assert(in_node(s[i], a));
                assert(in_node(s[xx], a));
            }
        }
    }
    assert forall|a: int| in_nodes(t, a) <==> (in_nodes(s, a) && !(lo <= a < hi)) by {
        if in_nodes(t, a) {
            let k = choose|k: int| 0 <= k < t.len() && #[trigger] in_node(t[k], a);
            if k < r.len() {
                let kk = if k < i { k } else { k + 1 };
                assert(in_node(s[kk], a));
                if lo <= a < hi {
                    assert(in_node(s[i], a));
                    assert(kk != i);
                }
            } else {
                assert(in_node(extra[k - r.len()], a));
                assert(in_nodes(extra, a));
                assert(in_node(s[i], a));
            }
        }
        if in_nodes(s, a) && !(lo <= a < hi) {
            let k = choose|k: int| 0 <= k < s.len() && #[trigger] in_node(s[k], a);
            if k == i {
                assert(in_nodes(extra, a));
                let e = choose|e: int| 0 <= e < extra.len() && #[trigger] in_node(extra[e], a);
                assert(t[r.len() + e] == extra[e]);
                assert(in_node(t[r.len() + e], a));
            } else {
                let kk = if k < i { k } else { k - 1 };
                assert(t[kk] == s[k]);
                assert(in_node(t[kk], a));
            }
        }
    }
}


/// The aligned start of a placement of `size` bytes in `n` runs past the
/// address space.
pub open spec fn overflows_at(n: VramNode, size: int, align: int) -> bool {
    aligned_up(n.addr as int, align) + size > usize::MAX
}

/// `size` bytes aligned to `align` fit in `n`.
pub open spec fn fits_at(n: VramNode, size: int, align: int) -> bool {
    aligned_up(n.addr as int, align) + size <= n.addr + n.size
}

/// The first index, from `i` on, at which the first-fit search stops: a range
/// where the request fits or where its end would overflow; `s.len()` if none.
pub open spec fn first_stop(s: Seq<VramNode>, size: int, align: int, i: int) -> int
    decreases s.len() - i,
{
    if i >= s.len() {
        s.len() as int
    } else if i >= 0 && (fits_at(s[i], size, align) || overflows_at(s[i], size, align)) {
        i
    } else {
        first_stop(s, size, align, i + 1)
    }
}

/// Rounding up the start of every range the search visits stays in the
/// address space.
pub open spec fn alloc_scan_safe(s: Seq<VramNode>, size: int, align: int) -> bool {
    forall|j: int|
        0 <= j < s.len() && j <= first_stop(s, size, align, 0) ==> #[trigger] s[j].addr + align
            - 1 <= usize::MAX
}

/// Where a first-fit allocation of `size` bytes aligned to `align` starts:
/// the aligned start of the first range where it fits, provided no earlier
/// range made the search give up.
pub open spec fn alloc_outcome(s: Seq<VramNode>, size: int, align: int) -> Option<int> {
    let k = first_stop(s, size, align, 0);
    if 0 <= k < s.len() && !overflows_at(s[k], size, align) {
        Some(aligned_up(s[k].addr as int, align))
    } else {
        None
    }
}

proof fn lemma_first_stop(s: Seq<VramNode>, size: int, align: int, i: int)
    requires
        0 <= i,
    ensures
        i <= first_stop(s, size, align, i) <= s.len() || (i > s.len() && first_stop(
            s,
            size,
            align,
            i,
        ) == s.len()),
        first_stop(s, size, align, i) < s.len() ==> (fits_at(
            s[first_stop(s, size, align, i)],
            size,
            align,
        ) || overflows_at(s[first_stop(s, size, align, i)], size, align)),
    decreases s.len() - i,
{
    if i < s.len() && !(fits_at(s[i], size, align) || overflows_at(s[i], size, align)) {
        lemma_first_stop(s, size, align, i + 1);
    }
}

/// Addresses `[addr, addr + size)`.
pub open spec fn range_set(addr: int, size: int) -> Set<int> {
    Set::new(|a: int| addr <= a < addr + size)
}

/// A chunk of VRAM handed out by a [`VramAllocator`].
pub struct VramChunk {
    addr: usize,
    size: usize,
}

impl View for VramChunk {
    /// The chunk's start address and length.
    type V = (usize, usize);

    closed spec fn view(&self) -> (usize, usize) {
        (self.addr, self.size)
    }
}

impl VramChunk {
    fn new(addr: usize, size: usize) -> (c: Self)
        ensures
            c@ == (addr, size),
    {
        Self { addr, size }
    }

    /// The chunk's start address.
    pub fn addr(&self) -> (a: usize)
        ensures
            a == self@.0,
    {
        self.addr
    }

    /// The chunk's length in bytes.
    pub fn len(&self) -> (n: usize)
        ensures
            n == self@.1,
    {
        self.size
    }

    /// Allocates `size` bytes aligned to `align` from `allocator`.
    pub fn allocate(allocator: &mut VramAllocator, size: usize, align: usize) -> (c: Self)
        requires
            old(allocator).wf(),
            is_power_of_two(align as int),
            alloc_scan_safe(old(allocator)@, size as int, align as int),
            alloc_outcome(old(allocator)@, size as int, align as int) is Some,
        ensures
            final(allocator).wf(),
            alloc_outcome(old(allocator)@, size as int, align as int) == Some(c@.0 as int),
            c@.1 == size,
            c@.0 % align == 0,
            c@.0 + c@.1 <= usize::MAX,
            range_set(c@.0 as int, size as int).subset_of(old(allocator).free_set()),
            final(allocator).free_set() == old(allocator).free_set().difference(
                range_set(c@.0 as int, size as int),
            ),
            old(allocator)@.len() == 1 && c@.0 == old(allocator)@[0].addr ==> final(allocator)@ == tail_after(
                old(allocator)@[0],
                size as int,
            ),
    {
        match allocator.allocate(size, align) {
            Some(c) => c,
            None => {
                assert(false);
                VramChunk::new(0, 0)
            },
        }
    }

    /// Gives the chunk back to `allocator`.
    pub fn dealloc(self, allocator: &mut VramAllocator)
        requires
            old(allocator).wf(),
            self@.0 + self@.1 <= usize::MAX,
            old(allocator).free_set().disjoint(range_set(self@.0 as int, self@.1 as int)),
        ensures
            final(allocator).wf(),
            final(allocator).free_set() == old(allocator).free_set().union(
                range_set(self@.0 as int, self@.1 as int),
            ),
    {
        allocator.dealloc(&self);
    }
}

/// A first-fit allocator over a list of free VRAM ranges.
pub struct VramAllocator {
    free: Vec<VramNode>,
}

impl View for VramAllocator {
    /// The free list.
    type V = Seq<VramNode>;

    closed spec fn view(&self) -> Seq<VramNode> {
        self.free@
    }
}

impl VramAllocator {
    /// The free list's ranges fit the address space and are disjoint.
    pub open spec fn wf(&self) -> bool {
        nodes_wf(self@)
    }

    /// The free addresses.
    pub open spec fn free_set(&self) -> Set<int> {
        nodes_set(self@)
    }

    /// An allocator whose free list is the single range `[base, base + size)`.
    pub fn init(base: usize, size: usize) -> (a: Self)
        requires
            base + size <= usize::MAX,
        ensures
            a.wf(),
            a@ == seq![VramNode { addr: base, size }],
            a.free_set() == range_set(base as int, size as int),
    {
        let free = vec![VramNode::new(base, size)];
        let a = Self { free };
        proof {
            assert(a@ =~= seq![VramNode { addr: base, size }]);
            assert forall|x: int| a.free_set().contains(x) == range_set(
                base as int,
                size as int,
            ).contains(x) by {
                if range_set(base as int, size as int).contains(x) {
                    assert(in_node(a@[0], x));
                }
            }
            assert(a.free_set() =~= range_set(base as int, size as int));
        }
        a
    }

    /// Sorts the free list by address and merges ranges that touch.
    pub fn coalesce(&mut self)
        requires
            old(self).wf(),
        ensures
            final(self).wf(),
            final(self).free_set() == old(self).free_set(),
            sorted_by_start(final(self)@),
            no_adjacent(final(self)@),
            old(self)@.len() <= 1 ==> final(self)@ == old(self)@,
            nodes_total(final(self)@) == nodes_total(old(self)@),
            all_nonempty(old(self)@) ==> all_nonempty(final(self)@),
    {
        let ghost s0 = self.free@;
        sort_by_start(&mut self.free);
        let ghost s = self.free@;
        proof {
            lemma_permuted_nodes(s0, s);
            lemma_total_permutation(s0, s);
            if all_nonempty(s0) {
                s0.to_multiset_ensures();
                s.to_multiset_ensures();
                assert forall|k: int| 0 <= k < s.len() implies #[trigger] s[k].size > 0 by {
                    assert(s.to_multiset().count(s[k]) > 0);
                    assert(s0.contains(s[k]));
                }
            }
            if s0.len() <= 1 {
                lemma_short_permutation(s0, s);
            }
        }
        let mut merged: Vec<VramNode> = Vec::new();
        let n = self.free.len();
        let mut i: usize = 0;
        while i < n
            invariant
                self.free@ == s,
                n == s.len(),
                0 <= i <= n,
                nodes_wf(s),
                sorted_by_start(s),
                nodes_wf(merged@),
                sorted_by_start(merged@),
                no_adjacent(merged@),
                forall|a: int| in_nodes(merged@, a) <==> in_prefix(s, i as int, a),
                merged@.len() > 0 ==> i > 0 && merged@.last().addr <= s[i - 1].addr,
                n <= 1 ==> merged@ =~= s.take(i as int),
                nodes_total(merged@) == nodes_total(s.take(i as int)),
                all_nonempty(s) ==> all_nonempty(merged@),
            decreases n - i,
        {
            let node = self.free[i];
            let ghost before = merged@;
            proof {
                assert(node.addr + node.size <= usize::MAX);
                assert forall|a: int| in_node(node, a) implies !in_nodes(before, a) by {
                    lemma_others_disjoint(s, i as int, a);
                }
            }
            let len = merged.len();
            if len > 0 {
                let last = merged[len - 1];
                proof {
                    assert(last.addr + last.size <= usize::MAX);
                }
                if last.end() == node.start() {
                    let joined = VramNode::new(last.addr, last.size + node.size);
                    merged.set(len - 1, joined);
                    proof {
                        lemma_total_replace_last(before, joined);
                        lemma_total_take(s, i as int);
                        assert(merged@ == before.update(len - 1, joined));
                        let m = merged@;
                        assert forall|a: int| in_node(joined, a) <==> (in_node(last, a) || in_node(
                            node,
                            a,
                        )) by {}
                        assert forall|k: int| 0 <= k < m.len() implies #[trigger] m[k].addr
                            + m[k].size <= usize::MAX by {
                            if k < len - 1 {
                                assert(before[k] == m[k]);
                            }
                        }
                        assert forall|p: int, q: int, a: int|
                            0 <= p < m.len() && 0 <= q < m.len() && p != q && #[trigger] in_node(
                                m[p],
                                a,
                            ) implies !#[trigger] in_node(m[q], a) by {
                            if in_node(m[q], a) {
                                if p != len - 1 && q != len - 1 {
                                    assert(in_node(before[p], a) && in_node(before[q], a));
                                } else {
                                    let o = if p == len - 1 { q } else { p };
                                    assert(in_node(before[o], a));
                                    assert(in_nodes(before, a));
                                    if in_node(node, a) {
                                    } else {
                                        assert(in_node(before[len - 1], a));
                                    }
                                }
                            }
                        }
                        assert forall|p: int, q: int| 0 <= p <= q < m.len() implies #[trigger] m[p].addr
                            <= #[trigger] m[q].addr by {
                            assert(before[p].addr <= before[q].addr);
                        }
                        assert forall|k: int| 0 <= k < m.len() - 1 implies #[trigger] m[k].addr
                            + m[k].size != m[k + 1].addr by {
                            assert(before[k].addr + before[k].size != before[k + 1].addr);
                        }
                        assert forall|a: int| in_nodes(m, a) <==> in_prefix(s, i + 1, a) by {
                            if in_nodes(m, a) {
                                let k = choose|k: int| 0 <= k < m.len() && #[trigger] in_node(m[k], a);
                                if k == len - 1 {
                                    if in_node(last, a) {
                                        assert(in_node(before[len - 1], a));
                                        assert(in_nodes(before, a));
                                        let j = choose|j: int|
                                            0 <= j < i && j < s.len() && #[trigger] in_node(s[j], a);
                                        assert(in_node(s[j], a));
                                    } else {
                                        assert(in_node(s[i as int], a));
                                    }
                                } else {
                                    assert(in_node(before[k], a));
                                    assert(in_nodes(before, a));
                                    let j = choose|j: int|
                                        0 <= j < i && j < s.len() && #[trigger] in_node(s[j], a);
                                    assert(in_node(s[j], a));
                                }
                            }
                            if in_prefix(s, i + 1, a) {
                                let j = choose|j: int|
                                    0 <= j < i + 1 && j < s.len() && #[trigger] in_node(s[j], a);
                                if j == i {
                                    assert(in_node(m[len - 1], a));
                                } else {
                                    assert(in_prefix(s, i as int, a));
                                    assert(in_nodes(before, a));
                                    let k = choose|k: int|
                                        0 <= k < before.len() && #[trigger] in_node(before[k], a);
                                    if k == len - 1 {
                                        assert(in_node(m[len - 1], a));
                                    } else {
                                        assert(in_node(m[k], a));
                                    }
                                }
                            }
                        }
                    }
                    i += 1;
                    continue;
                }
            }
            merged.push(node);
            proof {
                lemma_total_push(before, node);
                lemma_total_take(s, i as int);
                let m = merged@;
                if n <= 1 {
                    assert(m =~= s.take(i + 1));
                }
                assert forall|k: int| 0 <= k < m.len() implies #[trigger] m[k].addr + m[k].size
                    <= usize::MAX by {
                    if k < len {
                        assert(before[k] == m[k]);
                    }
                }
                assert forall|p: int, q: int, a: int|
                    0 <= p < m.len() && 0 <= q < m.len() && p != q && #[trigger] in_node(m[p], a)
                        implies !#[trigger] in_node(m[q], a) by {
                    if in_node(m[q], a) {
                        if p != len && q != len {
                            assert(in_node(before[p], a) && in_node(before[q], a));
                        } else {
                            let o = if p == len { q } else { p };
                            assert(in_node(before[o], a));
                            assert(in_nodes(before, a));
                        }
                    }
                }
                assert forall|p: int, q: int| 0 <= p <= q < m.len() implies #[trigger] m[p].addr
                    <= #[trigger] m[q].addr by {
                    if q == len && p < len {
                        assert(before[p].addr <= before[len - 1].addr);
                        assert(s[i - 1].addr <= s[i as int].addr);
                    } else if q < len {
                        assert(before[p].addr <= before[q].addr);
                    }
                }
                assert forall|k: int| 0 <= k < m.len() - 1 implies #[trigger] m[k].addr
                    + m[k].size != m[k + 1].addr by {
                    if k < len - 1 {
                        assert(before[k].addr + before[k].size != before[k + 1].addr);
                    }
                }
                assert forall|a: int| in_nodes(m, a) <==> in_prefix(s, i + 1, a) by {
                    if in_nodes(m, a) {
                        let k = choose|k: int| 0 <= k < m.len() && #[trigger] in_node(m[k], a);
                        if k == len {
                            assert(in_node(s[i as int], a));
                        } else {
                            assert(in_node(before[k], a));
                            assert(in_nodes(before, a));
                            let j = choose|j: int|
                                0 <= j < i && j < s.len() && #[trigger] in_node(s[j], a);
                            assert(in_node(s[j], a));
                        }
                    }
                    if in_prefix(s, i + 1, a) {
                        let j = choose|j: int|
                            0 <= j < i + 1 && j < s.len() && #[trigger] in_node(s[j], a);
                        if j == i {
                            assert(in_node(m[len as int], a));
                        } else {
                            assert(in_prefix(s, i as int, a));
                            assert(in_nodes(before, a));
                            let k = choose|k: int| 0 <= k < before.len() && #[trigger] in_node(
                                before[k],
                                a,
                            );
                            assert(in_node(m[k], a));
                        }
                    }
                }
            }
            i += 1;
        }
        self.free = merged;
        proof {
            assert(self.free_set() =~= old(self).free_set());
            if n <= 1 {
                assert(s.take(n as int) =~= s);
            }
            assert(s.take(n as int) =~= s);
        }
    }

    /// Gives `chunk` back: its range joins the free list.
    pub fn dealloc(&mut self, chunk: &VramChunk)
        requires
            old(self).wf(),
            chunk@.0 + chunk@.1 <= usize::MAX,
            old(self).free_set().disjoint(range_set(chunk@.0 as int, chunk@.1 as int)),
        ensures
            final(self).wf(),
            final(self).free_set() == old(self).free_set().union(
                range_set(chunk@.0 as int, chunk@.1 as int),
            ),
            sorted_by_start(final(self)@),
            no_adjacent(final(self)@),
    {
        let ghost s = self.free@;
        let node = VramNode::new(chunk.addr, chunk.size);
        self.free.push(node);
        proof {
            let t = self.free@;
            assert(t[s.len() as int] == node);
            assert forall|k: int| 0 <= k < t.len() implies #[trigger] t[k].addr + t[k].size
                <= usize::MAX by {
                if k < s.len() {
                    assert(s[k] == t[k]);
                }
            }
            assert forall|p: int, q: int, a: int|
                0 <= p < t.len() && 0 <= q < t.len() && p != q && #[trigger] in_node(t[p], a)
                    implies !#[trigger] in_node(t[q], a) by {
                if in_node(t[q], a) {
                    if p < s.len() && q < s.len() {
                        assert(in_node(s[p], a) && in_node(s[q], a));
                    } else {
                        let o = if p == s.len() { q } else { p };
                        assert(in_node(s[o], a));
                        assert(nodes_set(s).contains(a));
                        assert(range_set(chunk@.0 as int, chunk@.1 as int).contains(a));
                    }
                }
            }
            assert forall|a: int| in_nodes(t, a) <==> (in_nodes(s, a) || in_node(node, a)) by {
                if in_nodes(t, a) {
                    let k = choose|k: int| 0 <= k < t.len() && #[trigger] in_node(t[k], a);
                    if k < s.len() {
                        assert(in_node(s[k], a));
                    }
                }
                if in_nodes(s, a) {
                    let k = choose|k: int| 0 <= k < s.len() && #[trigger] in_node(s[k], a);
                    assert(in_node(t[k], a));
                }
                if in_node(node, a) {
                    assert(in_node(t[s.len() as int], a));
                }
            }
            assert(self.free_set() =~= old(self).free_set().union(
                range_set(chunk@.0 as int, chunk@.1 as int),
            ));
        }
        self.coalesce();
    }

    /// First-fit allocation of `size` bytes aligned to `align`: the first free
    /// range that can hold them is split around the chunk. `None` if no range
    /// can, or if the end of the aligned placement in a range the search visits
    /// would overflow the address space.
    pub fn allocate(&mut self, size: usize, align: usize) -> (r: Option<VramChunk>)
        requires
            old(self).wf(),
            is_power_of_two(align as int),
            alloc_scan_safe(old(self)@, size as int, align as int),
        ensures
            final(self).wf(),
            match r {
                Some(c) => {
                    &&& alloc_outcome(old(self)@, size as int, align as int) == Some(c@.0 as int)
                    &&& c@.1 == size
                    &&& c@.0 % align == 0
                    &&& c@.0 + c@.1 <= usize::MAX
                    &&& range_set(c@.0 as int, size as int).subset_of(old(self).free_set())
                    &&& final(self).free_set() == old(self).free_set().difference(
                        range_set(c@.0 as int, size as int),
                    )
                    &&& sorted_by_start(final(self)@)
                    &&& no_adjacent(final(self)@)
                    &&& (old(self)@.len() == 1 && c@.0 == old(self)@[0].addr ==> final(self)@ == tail_after(
                        old(self)@[0],
                        size as int,
                    ))
                },
                None => {
                    &&& alloc_outcome(old(self)@, size as int, align as int) is None
                    &&& final(self)@ == old(self)@
                },
            },
    {
        let ghost s = self.free@;
        let (i, alloc_start) = match self.first_fit(size, align) {
            Some(found) => found,
            None => return None,
        };
        let node = self.free[i];
        let alloc_end = alloc_start + size;
        proof {
            lemma_first_stop(s, size as int, align as int, 0);
            assert(node.addr + node.size <= usize::MAX);
        }
        self.free.remove(i);
        let ghost removed = self.free@;
        let ghost mut extra: Seq<VramNode> = Seq::empty();
        if alloc_start > node.start() {
            let left = VramNode::new(node.addr, alloc_start - node.start());
            self.free.push(left);
            proof {
                extra = extra.push(left);
            }
        }
        if alloc_end < node.end() {
            let right = VramNode::new(alloc_end, node.end() - alloc_end);
            self.free.push(right);
            proof {
                extra = extra.push(right);
            }
        }
        proof {
            assert(removed == s.remove(i as int));
            assert(self.free@ =~= s.remove(i as int) + extra);
            assert forall|k: int| 0 <= k < extra.len() implies #[trigger] extra[k].addr
                + extra[k].size <= usize::MAX by {}
            assert forall|a: int| in_nodes(extra, a) <==> (in_node(s[i as int], a) && !(
            alloc_start <= a < alloc_end)) by {
                if in_nodes(extra, a) {
                    let k = choose|k: int| 0 <= k < extra.len() && #[trigger] in_node(extra[k], a);
                }
                if in_node(s[i as int], a) && !(alloc_start <= a < alloc_end) {
                    if a < alloc_start {
                        assert(in_node(extra[0], a));
                    } else {
                        assert(in_node(extra[extra.len() - 1], a));
                    }
                }
            }
            lemma_replace_node(s, i as int, extra, alloc_start as int, alloc_end as int);
            assert forall|a: int| range_set(alloc_start as int, size as int).contains(a)
                implies nodes_set(s).contains(a) by {
                assert(in_node(s[i as int], a));
            }
        }
        let ghost mid = self.free@;
        proof {
            lemma_taken_set(s, i as int, extra, mid, alloc_start as int, size as int);
            if s.len() == 1 && alloc_start == node.addr {
                assert(mid =~= tail_after(node, size as int));
            }
        }
        self.coalesce();
        Some(VramChunk::new(alloc_start, size))
    }

    /// The first-fit search: the index of the range where the search stops and
    /// the aligned start of the placement there, or `None` when the search
    /// finds no range or gives up on an overflowing placement.
    fn first_fit(&self, size: usize, align: usize) -> (r: Option<(usize, usize)>)
        requires
            self.wf(),
            is_power_of_two(align as int),
            alloc_scan_safe(self@, size as int, align as int),
        ensures
            match r {
                Some((i, start)) => {
                    &&& i == first_stop(self@, size as int, align as int, 0)
                    &&& i < self@.len()
                    &&& start == aligned_up(self@[i as int].addr as int, align as int)
                    &&& fits_at(self@[i as int], size as int, align as int)
                    &&& start % align == 0
                    &&& self@[i as int].addr <= start
                    &&& alloc_outcome(self@, size as int, align as int) == Some(start as int)
                },
                None => alloc_outcome(self@, size as int, align as int) is None,
            },
    {
        let ghost s = self.free@;
        let n = self.free.len();
        let mut i: usize = 0;
        while i < n
            invariant
                self.free@ == s,
                n == s.len(),
                0 <= i <= n,
                nodes_wf(s),
                is_power_of_two(align as int),
                alloc_scan_safe(s, size as int, align as int),
                first_stop(s, size as int, align as int, 0) == first_stop(
                    s,
                    size as int,
                    align as int,
                    i as int,
                ),
            decreases n - i,
        {
            let node = self.free[i];
            proof {
                lemma_first_stop(s, size as int, align as int, i as int);
                assert(s[i as int].addr + align - 1 <= usize::MAX);
                assert(node.addr + node.size <= usize::MAX);
            }
            let alloc_start = align_up(node.start(), align);
            let alloc_end = match alloc_start.checked_add(size) {
                Some(e) => e,
                None => {
                    proof {
                        assert(overflows_at(s[i as int], size as int, align as int));
                        assert(first_stop(s, size as int, align as int, i as int) == i);
                    }
                    return None;
                },
            };
            if alloc_end > node.end() {
                i += 1;
                continue;
            }
            proof {
                assert(fits_at(s[i as int], size as int, align as int));
                assert(first_stop(s, size as int, align as int, i as int) == i);
            }
            return Some((i, alloc_start));
        }
        proof {
            lemma_first_stop(s, size as int, align as int, n as int);
        }
        None
    }
}


/// Law: giving back a chunk that was just allocated restores the free
/// addresses the allocator had before, and the chunk meets the requirement of
/// `dealloc` that it be disjoint from the free addresses.
pub proof fn law_dealloc_undoes_allocate(
    before: VramAllocator,
    after_alloc: VramAllocator,
    after_dealloc: VramAllocator,
    addr: int,
    size: int,
)
    requires
        range_set(addr, size).subset_of(before.free_set()),
        after_alloc.free_set() == before.free_set().difference(range_set(addr, size)),
        after_dealloc.free_set() == after_alloc.free_set().union(range_set(addr, size)),
    ensures
        after_alloc.free_set().disjoint(range_set(addr, size)),
        after_dealloc.free_set() == before.free_set(),
{
    assert(after_dealloc.free_set() =~= before.free_set());
}

/// Law: a chunk allocated after another, while the first is still held,
/// does not overlap it.
pub proof fn law_held_chunks_disjoint(
    before: VramAllocator,
    after_first: VramAllocator,
    first_addr: int,
    first_size: int,
    second_addr: int,
    second_size: int,
)
    requires
        after_first.free_set() == before.free_set().difference(range_set(first_addr, first_size)),
        range_set(second_addr, second_size).subset_of(after_first.free_set()),
    ensures
        range_set(first_addr, first_size).disjoint(range_set(second_addr, second_size)),
{
    assert forall|a: int| !(range_set(first_addr, first_size).contains(a) && range_set(second_addr, second_size).contains(a)) by {
        if range_set(second_addr, second_size).contains(a) {
            assert(after_first.free_set().contains(a));
        }
    }
}

/// Law: coalescing keeps the free addresses and the total free size, and
/// when no free range is empty (ranges of size zero can sit inside others),
/// the ranges come out strictly ascending with a gap between each and the
/// next.
pub proof fn law_coalesce_separates_ranges(before: VramAllocator, after: VramAllocator)
    requires
        before.wf(),
        all_nonempty(before@),
        after.wf(),
        after.free_set() == before.free_set(),
        sorted_by_start(after@),
        no_adjacent(after@),
        nodes_total(after@) == nodes_total(before@),
        all_nonempty(before@) ==> all_nonempty(after@),
    ensures
        after.free_set() == before.free_set(),
        nodes_total(after@) == nodes_total(before@),
        forall|k: int| 0 <= k < after@.len() - 1 ==> #[trigger] after@[k].addr + after@[k].size < after@[k + 1].addr,
{
    let t = after@;
    assert forall|k: int| 0 <= k < t.len() - 1 implies #[trigger] t[k].addr + t[k].size < t[k + 1].addr by {
        assert(t[k].addr <= t[k + 1].addr);
        assert(t[k].addr + t[k].size != t[k + 1].addr);
        if t[k].addr + t[k].size > t[k + 1].addr {
            assert(t[k + 1].size > 0);
            assert(in_node(t[k], t[k + 1].addr as int));
            assert(in_node(t[k + 1], t[k + 1].addr as int));
            assert(false);
        }
    }
}

/// No range before the one where the first-fit search stops takes the request.
proof fn lemma_before_stop(s: Seq<VramNode>, size: int, align: int, start: int, i: int)
    requires
        0 <= start <= i < first_stop(s, size, align, start),
    ensures
        !fits_at(s[i], size, align),
    decreases s.len() - start,
{
    if start < i {
        lemma_before_stop(s, size, align, start + 1, i);
    }
}

/// A multiple of `align` at or above `addr` is at or above `addr` rounded up.
proof fn lemma_aligned_up_least(addr: int, align: int, x: int)
    requires
        0 <= addr <= x,
        align > 0,
        x % align == 0,
    ensures
        aligned_up(addr, align) <= x,
{
    let t = addr + align - 1;
    let d = t / align;
    let q = x / align;
    vstd::arithmetic::div_mod::lemma_fundamental_div_mod(t, align);
    vstd::arithmetic::div_mod::lemma_fundamental_div_mod(x, align);
    assert(q * align > (d - 1) * align) by (nonlinear_arith)
        requires
            x == align * q,
            t == align * d + t % align,
            0 <= t % align < align,
            x >= t - align + 1,
    ;
    assert(q >= d) by (nonlinear_arith)
        requires
            q * align > (d - 1) * align,
            align > 0,
    ;
    assert(d * align <= q * align) by (nonlinear_arith)
        requires
            q >= d,
            align > 0,
    ;
}

/// Law: on a free list ordered by address, a first-fit allocation starts at
/// the lowest address, among the multiples of `align`, where `size` bytes
/// fit inside one free range.
pub proof fn law_first_fit_is_lowest(s: Seq<VramNode>, size: int, align: int, j: int, x: int)
    requires
        nodes_wf(s),
        sorted_by_start(s),
        is_power_of_two(align),
        0 <= size,
        alloc_outcome(s, size, align) is Some,
        0 <= j < s.len(),
        s[j].addr <= x,
        x + size <= s[j].addr + s[j].size,
        x % align == 0,
    ensures
        alloc_outcome(s, size, align)->0 <= x,
{
    let k = first_stop(s, size, align, 0);
    lemma_first_stop(s, size, align, 0);
    let ghost kp = choose|kp: nat| kp < 64 && pow2(kp) == align;
    lemma_pow2_pos(kp);
    let a = aligned_up(s[k].addr as int, align);
    assert(alloc_outcome(s, size, align)->0 == a);
    if j < k {
        lemma_before_stop(s, size, align, 0, j);
        lemma_aligned_up_least(s[j].addr as int, align, x);
        assert(false);
    } else if j == k {
        lemma_aligned_up_least(s[k].addr as int, align, x);
    } else {
        assert(s[k].addr <= s[j].addr);
        if x < a {
            assert(fits_at(s[k], size, align));
            if s[j].size > 0 {
                assert(in_node(s[k], s[j].addr as int));
                assert(in_node(s[j], s[j].addr as int));
                assert(false);
            } else {
                lemma_aligned_up_least(s[k].addr as int, align, x);
                assert(false);
            }
        }
    }
}

} // verus!
