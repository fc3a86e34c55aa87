use vstd::prelude::*;
use crate::sys::gu::VertexType;

verus! {

/// The 2-bit texture coordinate format field of a vertex type.
pub open spec fn texture_code(vt: i32) -> int {
    (vt & 3) as int
}

/// The 3-bit color format field of a vertex type.
pub open spec fn color_code(vt: i32) -> int {
    ((vt >> 2u32) & 7) as int
}

/// The 2-bit normal format field of a vertex type.
pub open spec fn normal_code(vt: i32) -> int {
    ((vt >> 5u32) & 3) as int
}

/// The 2-bit position format field of a vertex type.
pub open spec fn position_code(vt: i32) -> int {
    ((vt >> 7u32) & 3) as int
}

/// The 2-bit weight format field of a vertex type.
pub open spec fn weight_code(vt: i32) -> int {
    ((vt >> 9u32) & 3) as int
}

/// The 2-bit index format field of a vertex type.
pub open spec fn index_code(vt: i32) -> int {
    ((vt >> 11u32) & 3) as int
}

/// The 3-bit weight count field of a vertex type (the count minus one).
pub open spec fn weights_code(vt: i32) -> int {
    ((vt >> 14u32) & 7) as int
}

/// Bytes per scalar of a 2-bit format field: 1 (8-bit), 2 (16-bit), 4
/// (float), or 0 when the attribute is absent.
pub open spec fn format_bytes(code: int) -> int {
    if code == 3 {
        4
    } else if code == 1 {
        1
    } else if code == 2 {
        2
    } else {
        0
    }
}

/// Bytes of a color for the 3-bit color field: 4 for 8888, 2 for the 16-bit
/// formats, 0 when absent.
pub open spec fn color_bytes(code: int) -> int {
    if code == 7 {
        4
    } else if code >= 4 {
        2
    } else {
        0
    }
}


/// The byte size of one scalar of each attribute, in layout order: texture
/// coordinates, color, normal, position, weights.
pub open spec fn element_sizes(vt: i32) -> Seq<usize> {
    seq![
        format_bytes(texture_code(vt)) as usize,
        color_bytes(color_code(vt)) as usize,
        format_bytes(normal_code(vt)) as usize,
        format_bytes(position_code(vt)) as usize,
        format_bytes(weight_code(vt)) as usize,
    ]
}

/// The padding that aligns `offset` to `align` (no padding for an alignment
/// of at most one).
pub open spec fn padding(offset: int, align: int) -> int {
    if align > 1 && offset % align != 0 {
        align - offset % align
    } else {
        0
    }
}

/// The offset after laying out the first `i` attributes, each padded to its
/// element size.
pub open spec fn offset_after(elem: Seq<usize>, sizes: Seq<usize>, i: int) -> int
    decreases i,
{
    if i <= 0 {
        0
    } else {
        let o = offset_after(elem, sizes, i - 1);
        o + padding(o, elem[i - 1] as int) + sizes[i - 1]
    }
}

/// The padding placed before attribute `i`.
pub open spec fn padding_before(elem: Seq<usize>, sizes: Seq<usize>, i: int) -> int {
    padding(offset_after(elem, sizes, i), elem[i] as int)
}

proof fn lemma_vertex_fields(vt: i32)
    by (bit_vector)
    ensures
        (vt & 3 == 3) == ((vt & 3) == 3),
        (vt & 1 == 1) == ((vt & 3) == 1 || (vt & 3) == 3),
        (vt & 2 == 2) == ((vt & 3) == 2 || (vt & 3) == 3),
        (vt & 28 == 28) == (((vt >> 2u32) & 7) == 7),
        (vt & 16 == 16) == (((vt >> 2u32) & 7) >= 4),
        (vt & 20 == 20) ==> (((vt >> 2u32) & 7) >= 4),
        (vt & 24 == 24) ==> (((vt >> 2u32) & 7) >= 4),
        (vt & 96 == 96) == (((vt >> 5u32) & 3) == 3),
        (vt & 32 == 32) == (((vt >> 5u32) & 3) == 1 || ((vt >> 5u32) & 3) == 3),
        (vt & 64 == 64) == (((vt >> 5u32) & 3) == 2 || ((vt >> 5u32) & 3) == 3),
        (vt & 384 == 384) == (((vt >> 7u32) & 3) == 3),
        (vt & 128 == 128) == (((vt >> 7u32) & 3) == 1 || ((vt >> 7u32) & 3) == 3),
        (vt & 256 == 256) == (((vt >> 7u32) & 3) == 2 || ((vt >> 7u32) & 3) == 3),
        (vt & 1536 == 1536) == (((vt >> 9u32) & 3) == 3),
        (vt & 512 == 512) == (((vt >> 9u32) & 3) == 1 || ((vt >> 9u32) & 3) == 3),
        (vt & 1024 == 1024) == (((vt >> 9u32) & 3) == 2 || ((vt >> 9u32) & 3) == 3),
        (vt & 4096 == 4096) == (((vt >> 11u32) & 3) == 2 || ((vt >> 11u32) & 3) == 3),
        (vt & 2048 == 2048) == (((vt >> 11u32) & 3) == 1 || ((vt >> 11u32) & 3) == 3),
        (vt & 32768 == 32768) == (((vt >> 14u32) & 7) % 4 >= 2),
        (vt & 16384 == 16384) == (((vt >> 14u32) & 7) % 2 == 1),
        0 <= (vt >> 2u32) & 7 < 8,
        0 <= (vt >> 14u32) & 7 < 8,
        0 <= (vt >> 11u32) & 3 < 4,
{
}

/// `vt` has every bit of `bits`.
fn has(vt: VertexType, bits: i32) -> (b: bool)
    ensures
        b == (vt@ & bits == bits),
{
    vt.contains(VertexType::from_bits_retain(bits))
}

/// The byte size of one scalar of each attribute of `vt`: texture
/// coordinates, color, normal, position, weights.
pub fn vt_element_sizes(vt: VertexType) -> (r: [usize; 5])
    ensures
        r@ == element_sizes(vt@),
{
    proof {
        lemma_vertex_fields(vt@);
    }
    let r = [
        if has(vt, VertexType::TEXTURE_32BITF) {
            4
        } else if has(vt, VertexType::TEXTURE_8BIT) {
            1
        } else if has(vt, VertexType::TEXTURE_16BIT) {
            2
        } else {
            0
        },
        if has(vt, VertexType::COLOR_8888) {
            4
        } else if has(vt, VertexType::COLOR_5650) || has(vt, VertexType::COLOR_5551) || has(
            vt,
            VertexType::COLOR_4444,
        ) {
            2
        } else {
            0
        },
        if has(vt, VertexType::NORMAL_32BITF) {
            4
        } else if has(vt, VertexType::NORMAL_8BIT) {
            1
        } else if has(vt, VertexType::NORMAL_16BIT) {
            2
        } else {
            0
        },
        if has(vt, VertexType::VERTEX_32BITF) {
            4
        } else if has(vt, VertexType::VERTEX_8BIT) {
            1
        } else if has(vt, VertexType::VERTEX_16BIT) {
            2
        } else {
            0
        },
        if has(vt, VertexType::WEIGHT_32BITF) {
            4
        } else if has(vt, VertexType::WEIGHT_8BIT) {
            1
        } else if has(vt, VertexType::WEIGHT_16BIT) {
            2
        } else {
            0
        },
    ];
    proof {
        assert(r@ =~= element_sizes(vt@));
    }
    r
}

/// The byte size of each attribute of `vt`: two texture coordinates, one
/// color, three normal and three position components, and the weights (one
/// to eight, as the weight count field gives them).
pub fn vt_sizes(element_sizes: &[usize; 5], vt: VertexType) -> (r: [usize; 5])
    requires
        element_sizes[0] * 2 <= usize::MAX,
        element_sizes[2] * 3 <= usize::MAX,
        element_sizes[3] * 3 <= usize::MAX,
        element_sizes[4] * 8 <= usize::MAX,
    ensures
        r@ == seq![
            (element_sizes[0] * 2) as usize,
            element_sizes[1],
            (element_sizes[2] * 3) as usize,
            (element_sizes[3] * 3) as usize,
            (element_sizes[4] * (weights_code(vt@) + 1)) as usize,
        ],
{
    proof {
        lemma_vertex_fields(vt@);
    }
    let mut arr = *element_sizes;
    arr[0] = arr[0] * 2;
    arr[2] = arr[2] * 3;
    arr[3] = arr[3] * 3;
    let code = (vt.bits() >> 14u32) & 7;
    assert(0 <= code < 8);
    let weights = code as usize + 1;
    assert(arr[4] * weights <= usize::MAX) by (nonlinear_arith)
        requires
            arr[4] * 8 <= usize::MAX,
            1 <= weights <= 8,
    ;
    arr[4] = arr[4] * weights;
    proof {
        assert(arr@ =~= seq![
            (element_sizes[0] * 2) as usize,
            element_sizes[1],
            (element_sizes[2] * 3) as usize,
            (element_sizes[3] * 3) as usize,
            (element_sizes[4] * (weights_code(vt@) + 1)) as usize,
        ]);
    }
    arr
}

/// Offsets are never negative.
pub proof fn lemma_offset_nonneg(elem: Seq<usize>, sizes: Seq<usize>, i: int)
    ensures
        offset_after(elem, sizes, i) >= 0,
    decreases i,
{
    if i > 0 {
        lemma_offset_nonneg(elem, sizes, i - 1);
        let o = offset_after(elem, sizes, i - 1);
        let a = elem[i - 1] as int;
        if a > 1 && o % a != 0 {
            assert(o % a < a);
        }
    }
}

/// Offsets never decrease along the layout.
pub proof fn lemma_offset_monotonic(elem: Seq<usize>, sizes: Seq<usize>, i: int, j: int)
    requires
        0 <= i <= j,
    ensures
        0 <= offset_after(elem, sizes, i) <= offset_after(elem, sizes, j),
    decreases j - i,
{
    lemma_offset_nonneg(elem, sizes, i);
    if i < j {
        lemma_offset_monotonic(elem, sizes, i, j - 1);
        lemma_offset_nonneg(elem, sizes, j - 1);
        let o = offset_after(elem, sizes, j - 1);
        let a = elem[j - 1] as int;
        if a > 1 && o % a != 0 {
            assert(o % a < a);
        }
    }
}

/// Lays out the five attributes, padding each to its element size: the total
/// size and the padding placed before each attribute.
pub fn vt_alignments(elem_sizes: &[usize; 5], sizes: &[usize; 5]) -> (r: (usize, [usize; 5]))
    requires
        offset_after(elem_sizes@, sizes@, 5) <= usize::MAX,
    ensures
        r.0 == offset_after(elem_sizes@, sizes@, 5),
        forall|i: int| 0 <= i < 5 ==> #[trigger] r.1[i] == padding_before(elem_sizes@, sizes@, i),
{
    let mut arr = [0usize; 5];
    let mut size = 0usize;
    let mut i: usize = 0;
    while i < 5
        invariant
            0 <= i <= 5,
            size == offset_after(elem_sizes@, sizes@, i as int),
            offset_after(elem_sizes@, sizes@, 5) <= usize::MAX,
            forall|k: int| 0 <= k < i ==> #[trigger] arr[k] == padding_before(elem_sizes@, sizes@, k),
            forall|k: int| i <= k < 5 ==> #[trigger] arr[k] == 0,
        decreases 5 - i,
    {
        let (a, s) = (elem_sizes[i], sizes[i]);
        proof {
            lemma_offset_monotonic(elem_sizes@, sizes@, i as int + 1, 5);
            lemma_offset_monotonic(elem_sizes@, sizes@, 0, i as int);
            assert(padding(size as int, a as int) >= 0) by {
                if a > 1 && size % a != 0 {
                    assert(size % a < a);
                }
            }
        }
        if a > 1 && size % a != 0 {
            let align = a - (size % a);
            arr[i] = align;
            size += align;
        }
        size += s;
        i += 1;
    }
    (size, arr)
}

/// The byte size of a vertex laid out from the given element and attribute
/// sizes; a layout of 10 bytes is given 12.
pub fn vt_size(elem_sizes: &[usize; 5], sizes: &[usize; 5]) -> (r: usize)
    requires
        offset_after(elem_sizes@, sizes@, 5) <= usize::MAX,
    ensures
        r == (if offset_after(elem_sizes@, sizes@, 5) == 10 {
            12
        } else {
            offset_after(elem_sizes@, sizes@, 5)
        }),
{
    let mut size = 0usize;
    let mut i: usize = 0;
    while i < 5
        invariant
            0 <= i <= 5,
            size == offset_after(elem_sizes@, sizes@, i as int),
            offset_after(elem_sizes@, sizes@, 5) <= usize::MAX,
        decreases 5 - i,
    {
        let (a, s) = (elem_sizes[i], sizes[i]);
        proof {
            lemma_offset_monotonic(elem_sizes@, sizes@, i as int + 1, 5);
            lemma_offset_monotonic(elem_sizes@, sizes@, 0, i as int);
            assert(padding(size as int, a as int) >= 0) by {
                if a > 1 && size % a != 0 {
                    assert(size % a < a);
                }
            }
        }
        if a > 1 && size % a != 0 {
            let align = a - (size % a);
            size += align;
        }
        size += s;
        i += 1;
    }
    match size {
        10 => 12,
        _ => size,
    }
}

/// The size of one vertex of a vertex type.
#[derive(Clone, Copy)]
pub struct VertexSize(usize);

impl View for VertexSize {
    type V = usize;

    closed spec fn view(&self) -> usize {
        self.0
    }
}

impl VertexSize {
    /// The size in bytes.
    pub fn get(&self) -> (n: usize)
        ensures
            n == self@,
    {
        self.0
    }
}

/// The byte size of one vertex of a vertex type, as the layout gives it.
pub open spec fn vertex_size_of(vt: i32) -> int {
    let elem = element_sizes(vt);
    let sizes = seq![
        (elem[0] * 2) as usize,
        elem[1],
        (elem[2] * 3) as usize,
        (elem[3] * 3) as usize,
        (elem[4] * (weights_code(vt) + 1)) as usize,
    ];
    let total = offset_after(elem, sizes, 5);
    if total == 10 {
        12
    } else {
        total
    }
}

/// A layout of attributes of at most 32 bytes, each aligned to at most 4
/// bytes, takes at most 36 bytes per attribute.
pub proof fn lemma_offset_bounded(elem: Seq<usize>, sizes: Seq<usize>, i: int)
    requires
        0 <= i <= 5,
        elem.len() == 5,
        sizes.len() == 5,
        forall|k: int| 0 <= k < 5 ==> #[trigger] elem[k] <= 4,
        forall|k: int| 0 <= k < 5 ==> #[trigger] sizes[k] <= 32,
    ensures
        0 <= offset_after(elem, sizes, i) <= 36 * i,
    decreases i,
{
    if i > 0 {
        lemma_offset_bounded(elem, sizes, i - 1);
        let o = offset_after(elem, sizes, i - 1);
        if elem[i - 1] > 1 && o % (elem[i - 1] as int) != 0 {
            assert(o % (elem[i - 1] as int) >= 0);
        }
    }
}

/// The size of one vertex of `vertex_type`.
pub fn const_vt_size(vertex_type: VertexType) -> (r: VertexSize)
    ensures
        r@ == vertex_size_of(vertex_type@),
{
    let elem_sizes = vt_element_sizes(vertex_type);
    let sizes = vt_sizes(&elem_sizes, vertex_type);
    proof {
        lemma_vertex_fields(vertex_type@);
        let e4 = elem_sizes@[4] as int;
        let w = weights_code(vertex_type@) + 1;
        assert(e4 * w <= 32) by (nonlinear_arith)
            requires
                0 <= e4 <= 4,
                1 <= w <= 8,
        ;
        assert(sizes@[4] <= 32);
        lemma_offset_bounded(elem_sizes@, sizes@, 5);
    }
    VertexSize(vt_size(&elem_sizes, &sizes))
}

/// Vertex types whose vertex size can be computed.
pub trait Vertex {
    fn vertex_size(&self) -> VertexSize;
}

impl Vertex for VertexType {
    /// The size of one vertex of this type.
    fn vertex_size(&self) -> (r: VertexSize)
        ensures
            r@ == vertex_size_of(self@),
    {
        const_vt_size(*self)
    }
}

/// The byte size of one index for the index format field: 2 when the 16-bit
/// bit is set, else 1 when the 8-bit bit is set, else 0.
pub open spec fn index_bytes(code: int) -> int {
    if code >= 2 {
        2
    } else if code == 1 {
        1
    } else {
        0
    }
}

/// Vertex types that may carry an index format.
pub trait IndexItem {
    fn index_size(&self) -> usize;
}

impl IndexItem for VertexType {
    /// The byte size of one index of this type, 0 for non-indexed types.
    fn index_size(&self) -> (n: usize)
        ensures
            n == index_bytes(index_code(self@)),
    {
        let vt = *self;
        proof {
            lemma_vertex_fields(vt@);
        }
        let n: usize = if has(vt, VertexType::INDEX_16BIT) {
            2
        } else if has(vt, VertexType::INDEX_8BIT) {
            1
        } else {
            0
        };
        n
    }
}

} // verus!
