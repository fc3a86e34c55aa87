//! The model file: a header (primitive, vertex type, vertex data size,
//! index data size), the interleaved vertices, then the indices.
use vstd::prelude::*;
use crate::convert::bytes::{le16, le32, push_range, push_u16_le, push_u32_le, push_zeros, zeros};
use crate::gfx::vertex::{element_sizes, lemma_offset_bounded, offset_after, padding_before, position_code};
use crate::sys::gu::VertexType;

pub use crate::gfx::vertex::{vt_alignments, vt_element_sizes};

verus! {

/// Primitive types.
#[derive(Copy, Clone, Debug, PartialEq, Eq, Structural)]
pub enum Primitive {
    /// Single pixel points (1 vertex per primitive)
    Points,
    /// Single pixel lines (2 vertices per primitive)
    Lines,
    /// Single pixel line-strip (2 vertices for the first primitive, 1 for every following)
    LineStrip,
    /// Filled triangles (3 vertices per primitive)
    Triangles,
    /// Filled triangles-strip (3 vertices for the first primitive, 1 for every following)
    TriangleStrip,
    /// Filled triangle-fan (3 vertices for the first primitive, 1 for every following)
    TriangleFan,
    /// Filled blocks (2 vertices per primitive)
    Sprites,
}

impl Primitive {
    /// The primitive's number in the file.
    pub open spec fn raw(self) -> u32 {
        match self {
            Primitive::Points => 0,
            Primitive::Lines => 1,
            Primitive::LineStrip => 2,
            Primitive::Triangles => 3,
            Primitive::TriangleStrip => 4,
            Primitive::TriangleFan => 5,
            Primitive::Sprites => 6,
        }
    }

    /// The primitive's number in the file.
    pub fn value(self) -> (v: u32)
        ensures
            v == self.raw(),
    {
        match self {
            Primitive::Points => 0,
            Primitive::Lines => 1,
            Primitive::LineStrip => 2,
            Primitive::Triangles => 3,
            Primitive::TriangleStrip => 4,
            Primitive::TriangleFan => 5,
            Primitive::Sprites => 6,
        }
    }
}

/// How a mesh's vertices form primitives.
#[derive(Clone, Copy, Debug, PartialEq, Eq, Structural)]
pub enum RenderMode {
    Points,
    Lines,
    LineLoop,
    LineStrip,
    Triangles,
    TriangleStrip,
    TriangleFan,
}

/// The primitive a mesh is written with, and whether its render mode has one
/// of its own: strips, triangles, lines and line strips do; any other mode
/// is written as triangles.
pub fn primitive_of(mode: RenderMode) -> (r: (Primitive, bool))
    ensures
        r == match mode {
            RenderMode::TriangleStrip => (Primitive::TriangleStrip, true),
            RenderMode::Triangles => (Primitive::Triangles, true),
            RenderMode::Lines => (Primitive::Lines, true),
            RenderMode::LineStrip => (Primitive::LineStrip, true),
            _ => (Primitive::Triangles, false),
        },
{
    match mode {
        RenderMode::TriangleStrip => (Primitive::TriangleStrip, true),
        RenderMode::Triangles => (Primitive::Triangles, true),
        RenderMode::Lines => (Primitive::Lines, true),
        RenderMode::LineStrip => (Primitive::LineStrip, true),
        _ => (Primitive::Triangles, false),
    }
}

/// How a vertex attribute is stored.
#[derive(Clone, Copy, Debug, PartialEq, Eq, Structural)]
pub enum VertexAttrType {
    F32,
    I8,
    I16,
}

/// How vertex colors are stored.
#[derive(Clone, Copy, Debug, PartialEq, Eq, Structural)]
pub enum ColorAttrType {
    Rgba8,
}

/// The width of the mesh's indices.
#[derive(Clone, Copy, Debug, PartialEq, Eq, Structural)]
pub enum IndexFormat {
    U8,
    U16,
    U32,
}

/// The vertex type bits of an attribute kind, for a field whose 8-bit code
/// is `eight`.
pub open spec fn attr_bits(attr: VertexAttrType, eight: i32) -> i32 {
    match attr {
        VertexAttrType::F32 => (eight * 3) as i32,
        VertexAttrType::I16 => (eight * 2) as i32,
        VertexAttrType::I8 => eight,
    }
}

/// The vertex type a model is written with: transformed in 3D, indexed
/// with 8-bit indices for 8-bit source indices and 16-bit ones otherwise,
/// with the attributes that are used.
pub open spec fn model_vertex_bits(
    index: IndexFormat,
    texcoords: Option<VertexAttrType>,
    colors: Option<ColorAttrType>,
    normals: Option<VertexAttrType>,
    positions: VertexAttrType,
) -> i32 {
    (if index == IndexFormat::U8 { VertexType::INDEX_8BIT } else { VertexType::INDEX_16BIT })
        | (match texcoords {
        Some(t) => attr_bits(t, VertexType::TEXTURE_8BIT),
        None => 0,
    }) | (match colors {
        Some(_) => VertexType::COLOR_8888,
        None => 0,
    }) | (match normals {
        Some(n) => attr_bits(n, VertexType::NORMAL_8BIT),
        None => 0,
    }) | attr_bits(positions, VertexType::VERTEX_8BIT)
}

fn attr_type_bits(attr: VertexAttrType, thirty_two: i32, eight: i32, sixteen: i32) -> (b: VertexType)
    requires
        thirty_two == eight * 3,
        sixteen == eight * 2,
    ensures
        b@ == attr_bits(attr, eight),
{
    VertexType::from_bits_retain(
        match attr {
            VertexAttrType::F32 => thirty_two,
            VertexAttrType::I16 => sixteen,
            VertexAttrType::I8 => eight,
        },
    )
}

/// The vertex type of a model with the given index width and attributes
/// (`None` for an attribute that is not written).
pub fn model_vertex_type(
    index: IndexFormat,
    texcoords: Option<VertexAttrType>,
    colors: Option<ColorAttrType>,
    normals: Option<VertexAttrType>,
    positions: VertexAttrType,
) -> (v: VertexType)
    ensures
        v@ == model_vertex_bits(index, texcoords, colors, normals, positions),
{
    let mut v = VertexType::empty();
    v = v.union(VertexType::from_bits_retain(VertexType::TRANSFORM_3D));
    v = v.union(
        VertexType::from_bits_retain(
            match index {
                IndexFormat::U8 => VertexType::INDEX_8BIT,
                IndexFormat::U16 | IndexFormat::U32 => VertexType::INDEX_16BIT,
            },
        ),
    );
    let ghost after_index = v@;
    proof {
        assert(after_index == (if index == IndexFormat::U8 { VertexType::INDEX_8BIT } else { VertexType::INDEX_16BIT })) by {
            assert(0i32 | 0i32 == 0i32 && 0i32 | 0x800i32 == 0x800i32 && 0i32 | 0x1000i32 == 0x1000i32) by (bit_vector);
        }
    }
    match texcoords {
        Some(t) => {
            v = v.union(attr_type_bits(t, VertexType::TEXTURE_32BITF, VertexType::TEXTURE_8BIT, VertexType::TEXTURE_16BIT));
        },
        None => {
            v = v.union(VertexType::empty());
        },
    }
    match colors {
        Some(ColorAttrType::Rgba8) => {
            v = v.union(VertexType::from_bits_retain(VertexType::COLOR_8888));
        },
        None => {
            v = v.union(VertexType::empty());
        },
    }
    match normals {
        Some(n) => {
            v = v.union(attr_type_bits(n, VertexType::NORMAL_32BITF, VertexType::NORMAL_8BIT, VertexType::NORMAL_16BIT));
        },
        None => {
            v = v.union(VertexType::empty());
        },
    }
    v = v.union(attr_type_bits(positions, VertexType::VERTEX_32BITF, VertexType::VERTEX_8BIT, VertexType::VERTEX_16BIT));
    v
}

/// The byte size of each attribute: two texture coordinates, one color,
/// three normal and three position components, one weight.
pub fn vt_sizes(element_sizes: &[usize; 5]) -> (r: [usize; 5])
    requires
        element_sizes[0] * 2 <= usize::MAX,
        element_sizes[2] * 3 <= usize::MAX,
        element_sizes[3] * 3 <= usize::MAX,
    ensures
        r@ == seq![
            (element_sizes[0] * 2) as usize,
            element_sizes[1],
            (element_sizes[2] * 3) as usize,
            (element_sizes[3] * 3) as usize,
            element_sizes[4],
        ],
{
    let mut arr = *element_sizes;
    arr[0] = arr[0] * 2;
    arr[2] = arr[2] * 3;
    arr[3] = arr[3] * 3;
    proof {
        assert(arr@ =~= seq![
            (element_sizes[0] * 2) as usize,
            element_sizes[1],
            (element_sizes[2] * 3) as usize,
            (element_sizes[3] * 3) as usize,
            element_sizes[4],
        ]);
    }
    arr
}

/// The little-endian 16-bit indices.
pub open spec fn indices16(indices: Seq<u16>) -> Seq<u8>
    decreases indices.len(),
{
    if indices.len() == 0 {
        Seq::empty()
    } else {
        indices16(indices.drop_last()) + le16(indices.last())
    }
}

/// Writes 16-bit indices little-endian.
pub fn indices_from_u16(indices: &[u16]) -> (b: Vec<u8>)
    ensures
        b@ == indices16(indices@),
{
    let mut out: Vec<u8> = Vec::new();
    let mut i: usize = 0;
    while i < indices.len()
        invariant
            0 <= i <= indices@.len(),
            out@ == indices16(indices@.take(i as int)),
        decreases indices@.len() - i,
    {
        push_u16_le(&mut out, indices[i]);
        proof {
            assert(indices@.take(i + 1).drop_last() =~= indices@.take(i as int));
        }
        i += 1;
    }
    proof {
        assert(indices@.take(indices@.len() as int) =~= indices@);
    }
    out
}

/// Writes 32-bit indices as 16-bit ones (keeping the low 16 bits),
/// little-endian.
pub fn indices_from_u32(indices: &[u32]) -> (b: Vec<u8>)
    ensures
        b@ == indices16(indices@.map_values(|x: u32| x as u16)),
{
    let ghost narrow = indices@.map_values(|x: u32| x as u16);
    let mut out: Vec<u8> = Vec::new();
    let mut i: usize = 0;
    while i < indices.len()
        invariant
            0 <= i <= indices@.len(),
            narrow == indices@.map_values(|x: u32| x as u16),
            out@ == indices16(narrow.take(i as int)),
        decreases indices@.len() - i,
    {
        push_u16_le(&mut out, #[verifier::truncate] (indices[i] as u16));
        proof {
            assert(narrow.take(i + 1).drop_last() =~= narrow.take(i as int));
        }
        i += 1;
    }
    proof {
        assert(narrow.take(narrow.len() as int) =~= narrow);
    }
    out
}

/// The attribute data of a model, each attribute's bytes one vertex after
/// the other, and which of the optional attributes are written.
pub struct ModelData {
    pub texcoords: Vec<u8>,
    pub colors: Vec<u8>,
    pub normals: Vec<u8>,
    pub positions: Vec<u8>,
    pub use_texcoords: bool,
    pub use_colors: bool,
    pub use_normals: bool,
}

/// An attribute of vertex `i`, after its padding: `size` bytes of `data`.
pub open spec fn attr_record(data: Seq<u8>, pad: int, size: int, i: int) -> Seq<u8> {
    zeros(pad) + data.subrange(i * size, i * size + size)
}

/// The bytes of vertex `i`: its texture coordinates, color and normal (when
/// written) and its position, each after its padding.
pub open spec fn vertex_record(d: ModelData, sizes: Seq<usize>, pads: Seq<usize>, i: int) -> Seq<u8> {
    (if d.use_texcoords { attr_record(d.texcoords@, pads[0] as int, sizes[0] as int, i) } else { Seq::empty() })
        + (if d.use_colors { attr_record(d.colors@, pads[1] as int, sizes[1] as int, i) } else { Seq::empty() })
        + (if d.use_normals { attr_record(d.normals@, pads[2] as int, sizes[2] as int, i) } else { Seq::empty() })
        + attr_record(d.positions@, pads[3] as int, sizes[3] as int, i)
}

/// The bytes of the first `n` vertices.
pub open spec fn vertex_records(d: ModelData, sizes: Seq<usize>, pads: Seq<usize>, n: int) -> Seq<u8>
    decreases n,
{
    if n <= 0 {
        Seq::empty()
    } else {
        vertex_records(d, sizes, pads, n - 1) + vertex_record(d, sizes, pads, n - 1)
    }
}

/// The attribute sizes of a model with vertex type `vt`.
pub open spec fn model_sizes(vt: i32) -> Seq<usize> {
    let e = element_sizes(vt);
    seq![(e[0] * 2) as usize, e[1], (e[2] * 3) as usize, (e[3] * 3) as usize, e[4]]
}

/// The paddings before the attributes of a model with vertex type `vt`.
pub open spec fn model_pads(vt: i32) -> Seq<usize> {
    Seq::new(5, |k: int| padding_before(element_sizes(vt), model_sizes(vt), k) as usize)
}

/// The bytes of one vertex of a model with vertex type `vt`.
pub open spec fn model_vertex_size(vt: i32) -> int {
    offset_after(element_sizes(vt), model_sizes(vt), 5)
}

/// The number of vertices: the position bytes over the size of one position.
pub open spec fn model_vertex_count(d: ModelData, vt: i32) -> int {
    (d.positions@.len() as int) / (model_sizes(vt)[3] as int)
}

/// A model file.
pub open spec fn model_bytes(primitive: Primitive, vt: i32, d: ModelData, indices: Seq<u8>) -> Seq<u8> {
    let n = model_vertex_count(d, vt);
    le32(primitive.raw()) + le32(vt as u32) + le32((model_vertex_size(vt) * n) as u32) + le32(
        indices.len() as u32,
    ) + vertex_records(d, model_sizes(vt), model_pads(vt), n) + indices
}

/// The attribute data of a model holds every vertex's written attributes.
pub open spec fn model_data_complete(d: ModelData, vt: i32) -> bool {
    let n = model_vertex_count(d, vt);
    let sizes = model_sizes(vt);
    &&& sizes[3] > 0
    &&& d.use_texcoords ==> n * sizes[0] <= d.texcoords@.len()
    &&& d.use_colors ==> n * sizes[1] <= d.colors@.len()
    &&& d.use_normals ==> n * sizes[2] <= d.normals@.len()
}

proof fn lemma_slot(n: int, i: int, size: int)
    requires
        0 <= i < n,
        size >= 0,
    ensures
        0 <= i * size,
        i * size + size <= n * size,
        (i + 1) * size == i * size + size,
{
    assert(i * size + size <= n * size && 0 <= i * size && (i + 1) * size == i * size + size) by (nonlinear_arith)
        requires
            0 <= i < n,
            size >= 0,
    ;
}

/// Appends attribute `size` bytes of vertex `i` after `pad` zero bytes.
fn push_attr(out: &mut Vec<u8>, data: &Vec<u8>, pad: usize, size: usize, i: usize, n: usize)
    requires
        i < n,
        n * size <= data@.len(),
    ensures
        final(out)@ == old(out)@ + attr_record(data@, pad as int, size as int, i as int),
{
    let data_len = data.len();
    proof {
        lemma_slot(n as int, i as int, size as int);
        assert(i * size + size <= data_len);
    }
    push_zeros(out, pad);
    push_range(out, data.as_slice(), i * size, size);
    proof {
        assert(final(out)@ =~= old(out)@ + attr_record(data@, pad as int, size as int, i as int));
    }
}

/// Appends vertex `i` of `n`: each written attribute after its padding.
fn push_vertex(out: &mut Vec<u8>, data: &ModelData, sizes: &[usize; 5], pads: &[usize; 5], i: usize, n: usize)
    requires
        i < n,
        sizes@.len() == 5,
        pads@.len() == 5,
        data.use_texcoords ==> n * sizes@[0] <= data.texcoords@.len(),
        data.use_colors ==> n * sizes@[1] <= data.colors@.len(),
        data.use_normals ==> n * sizes@[2] <= data.normals@.len(),
        n * sizes@[3] <= data.positions@.len(),
    ensures
        final(out)@ == old(out)@ + vertex_record(*data, sizes@, pads@, i as int),
{
    let ghost before = out@;
    if data.use_texcoords {
        push_attr(out, &data.texcoords, pads[0], sizes[0], i, n);
    }
    let ghost t = out@;
    if data.use_colors {
        push_attr(out, &data.colors, pads[1], sizes[1], i, n);
    }
    let ghost c = out@;
    if data.use_normals {
        push_attr(out, &data.normals, pads[2], sizes[2], i, n);
    }
    let ghost m = out@;
    push_attr(out, &data.positions, pads[3], sizes[3], i, n);
    proof {
        assert(final(out)@ =~= before + vertex_record(*data, sizes@, pads@, i as int));
    }
}

/// Writes a model file: the header, every vertex's attributes interleaved
/// and padded as the vertex type lays them out, then the index bytes.
pub fn model_file(primitive: Primitive, vertex_type: VertexType, data: &ModelData, indices: &[u8]) -> (f: Vec<u8>)
    requires
        model_data_complete(*data, vertex_type@),
        model_vertex_size(vertex_type@) * model_vertex_count(*data, vertex_type@) <= usize::MAX,
    ensures
        f@ == model_bytes(primitive, vertex_type@, *data, indices@),
{
    let elem_sizes = vt_element_sizes(vertex_type);
    let sizes = vt_sizes(&elem_sizes);
    proof {
        lemma_offset_bounded(elem_sizes@, sizes@, 5);
    }
    let (vertex_size, paddings) = vt_alignments(&elem_sizes, &sizes);
    let ghost gsizes = model_sizes(vertex_type@);
    let ghost gpads = model_pads(vertex_type@);
    proof {
        assert(sizes@ =~= gsizes);
        assert(paddings@ =~= gpads);
    }
    let vertices_length = data.positions.len() / sizes[3];
    let mut out: Vec<u8> = Vec::new();
    push_u32_le(&mut out, primitive.value());
    push_u32_le(&mut out, #[verifier::truncate] (vertex_type.bits() as u32));
    push_u32_le(&mut out, #[verifier::truncate] ((vertex_size * vertices_length) as u32));
    push_u32_le(&mut out, #[verifier::truncate] (indices.len() as u32));
    let ghost header = out@;
    let mut idx: usize = 0;
    while idx < vertices_length
        invariant
            0 <= idx <= vertices_length,
            vertices_length == model_vertex_count(*data, vertex_type@),
            model_data_complete(*data, vertex_type@),
            sizes@ == gsizes,
            paddings@ == gpads,
            gsizes == model_sizes(vertex_type@),
            gpads == model_pads(vertex_type@),
            out@ == header + vertex_records(*data, gsizes, gpads, idx as int),
        decreases vertices_length - idx,
    {
        proof {
            assert(vertices_length * sizes[3] <= data.positions@.len()) by (nonlinear_arith)
                requires
                    vertices_length == (data.positions@.len() as int) / (sizes[3] as int),
                    sizes[3] > 0,
            ;
        }
        push_vertex(&mut out, data, &sizes, &paddings, idx, vertices_length);
        proof {
            assert(vertex_records(*data, gsizes, gpads, idx + 1) =~= vertex_records(*data, gsizes, gpads, idx as int) + vertex_record(*data, gsizes, gpads, idx as int));
        }
        idx += 1;
    }
    let mut k: usize = 0;
    let ghost body = out@;
    while k < indices.len()
        invariant
            0 <= k <= indices@.len(),
            out@ == body + indices@.take(k as int),
        decreases indices@.len() - k,
    {
        out.push(indices[k]);
        k += 1;
        proof {
            assert(out@ =~= body + indices@.take(k as int));
        }
    }
    proof {
        assert(indices@.take(indices@.len() as int) =~= indices@);
        assert(out@ =~= model_bytes(primitive, vertex_type@, *data, indices@));
    }
    out
}

/// Law: a model file starts with the primitive's hardware number as a
/// little-endian word: points 0, lines 1, line strip 2, triangles 3,
/// triangle strip 4, triangle fan 5, sprites 6. Distinct primitives are
/// written as distinct numbers.
pub proof fn law_model_header_primitive(
    primitive: Primitive,
    other: Primitive,
    vt: i32,
    d: ModelData,
    indices: Seq<u8>,
)
    ensures
        model_bytes(primitive, vt, d, indices).take(4) == seq![
            match primitive {
                Primitive::Points => 0u8,
                Primitive::Lines => 1u8,
                Primitive::LineStrip => 2u8,
                Primitive::Triangles => 3u8,
                Primitive::TriangleStrip => 4u8,
                Primitive::TriangleFan => 5u8,
                Primitive::Sprites => 6u8,
            },
            0u8,
            0u8,
            0u8,
        ],
        primitive != other ==> primitive.raw() != other.raw(),
{
    let b = model_bytes(primitive, vt, d, indices);
    let w = le32(primitive.raw());
    assert(b.take(4) =~= w);
    assert(w =~= seq![(primitive.raw() % 0x100) as u8, 0u8, 0u8, 0u8]);
}

/// Law: the number a model file gives a primitive is the one the graphics
/// engine draws it with (`GuPrimitive` of the same name), so a loaded model
/// is drawn as the primitive it was written with.
pub proof fn law_model_primitive_is_hardware_primitive(primitive: Primitive)
    ensures
        primitive.raw() == (match primitive {
            Primitive::Points => crate::sys::gu::GuPrimitive::Points,
            Primitive::Lines => crate::sys::gu::GuPrimitive::Lines,
            Primitive::LineStrip => crate::sys::gu::GuPrimitive::LineStrip,
            Primitive::Triangles => crate::sys::gu::GuPrimitive::Triangles,
            Primitive::TriangleStrip => crate::sys::gu::GuPrimitive::TriangleStrip,
            Primitive::TriangleFan => crate::sys::gu::GuPrimitive::TriangleFan,
            Primitive::Sprites => crate::sys::gu::GuPrimitive::Sprites,
        }).raw(),
{
}

} // verus!
