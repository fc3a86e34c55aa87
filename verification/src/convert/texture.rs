//! The texture file: a header (format, swizzle flag, width, height) followed
//! by the texels.
use vstd::prelude::*;
use crate::convert::bytes::{halves_bytes, le32, push_u32_le, words_bytes};
use crate::gfx::color::{pack, pack_channels};
use crate::sys::gu::TexturePixelFormat;

verus! {

/// The texel encodings the converter writes.
#[derive(Clone, Copy, Debug, PartialEq, Eq, Structural)]
pub enum FormatType {
    Abgr8,
    Abgr4,
    Abgr5551,
    Bgr565,
}

impl FormatType {
    /// The texel format of an encoding.
    pub open spec fn spec_format(self) -> TexturePixelFormat {
        match self {
            FormatType::Abgr8 => TexturePixelFormat::Psm8888,
            FormatType::Abgr4 => TexturePixelFormat::Psm4444,
            FormatType::Abgr5551 => TexturePixelFormat::Psm5551,
            FormatType::Bgr565 => TexturePixelFormat::Psm5650,
        }
    }

    /// The texel format of an encoding.
    pub fn pixel_format(self) -> (f: TexturePixelFormat)
        ensures
            f == self.spec_format(),
    {
        match self {
            FormatType::Abgr8 => TexturePixelFormat::Psm8888,
            FormatType::Abgr4 => TexturePixelFormat::Psm4444,
            FormatType::Abgr5551 => TexturePixelFormat::Psm5551,
            FormatType::Bgr565 => TexturePixelFormat::Psm5650,
        }
    }
}

impl Default for FormatType {
    fn default() -> (f: Self)
        ensures
            f == FormatType::Abgr8,
    {
        FormatType::Abgr8
    }
}

/// An 8-bit channel scaled down to `max` levels (rounding down).
pub open spec fn scale(c: u8, max: int) -> int {
    c * max / 255
}

/// Packs an RGBA color into A8B8G8R8.
pub fn abgr8888(color: [u8; 4]) -> (w: u32)
    ensures
        w == pack(color[3] as int, color[2] as int, color[1] as int, color[0] as int),
{
    pack_channels(color[3], color[2], color[1], color[0])
}

proof fn lemma_small_fields(a: u16, b: u16, g: u16, r: u16)
    by (bit_vector)
    ensures
        (a < 16 && b < 16 && g < 16 && r < 16) ==> (a << 12u16) | (b << 8u16) | (g << 4u16) | r
            == a * 0x1000 + b * 0x100 + g * 0x10 + r,
        (a < 2 && b < 32 && g < 32 && r < 32) ==> (a << 15u16) | (b << 10u16) | (g << 5u16) | r
            == a * 0x8000 + b * 0x400 + g * 0x20 + r,
        (b < 32 && g < 64 && r < 32) ==> (b << 11u16) | (g << 5u16) | r == b * 0x800 + g * 0x20 + r,
{
}

proof fn lemma_scale(c: u8, max: int)
    requires
        0 < max < 256,
    ensures
        0 <= scale(c, max) <= max,
{
    assert(c * max <= 255 * max) by (nonlinear_arith)
        requires
            c <= 255,
            max > 0,
    ;
    assert(c * max >= 0) by (nonlinear_arith)
        requires
            c >= 0,
            max > 0,
    ;
}

/// Packs an RGBA color into A4B4G4R4, each channel scaled to 0..=15.
pub fn abgr4444(color: [u8; 4]) -> (w: u16)
    ensures
        w == scale(color[3], 15) * 0x1000 + scale(color[2], 15) * 0x100 + scale(color[1], 15) * 0x10
            + scale(color[0], 15),
{
    proof {
        lemma_scale(color[0], 15);
        lemma_scale(color[1], 15);
        lemma_scale(color[2], 15);
        lemma_scale(color[3], 15);
    }
    let r = color[0] as u16 * 15 / 255;
    let g = color[1] as u16 * 15 / 255;
    let b = color[2] as u16 * 15 / 255;
    let a = color[3] as u16 * 15 / 255;
    proof {
        lemma_small_fields(a, b, g, r);
    }
    (a << 12u16) | (b << 8u16) | (g << 4u16) | r
}

/// Packs an RGBA color into A1B5G5R5: color channels scaled to 0..=31, alpha
/// set when above 128.
pub fn abgr5551(color: [u8; 4]) -> (w: u16)
    ensures
        w == (if color[3] > 128 { 0x8000int } else { 0 }) + scale(color[2], 31) * 0x400 + scale(
            color[1],
            31,
        ) * 0x20 + scale(color[0], 31),
{
    proof {
        lemma_scale(color[0], 31);
        lemma_scale(color[1], 31);
        lemma_scale(color[2], 31);
    }
    let r = color[0] as u16 * 31 / 255;
    let g = color[1] as u16 * 31 / 255;
    let b = color[2] as u16 * 31 / 255;
    let a: u16 = if color[3] > 128 { 1 } else { 0 };
    proof {
        lemma_small_fields(a, b, g, r);
    }
    (a << 15u16) | (b << 10u16) | (g << 5u16) | r
}

/// Packs an RGB color into B5G6R5: red and blue scaled to 0..=31, green to
/// 0..=63.
pub fn bgr565(color: [u8; 3]) -> (w: u16)
    ensures
        w == scale(color[2], 31) * 0x800 + scale(color[1], 63) * 0x20 + scale(color[0], 31),
{
    proof {
        lemma_scale(color[0], 31);
        lemma_scale(color[1], 63);
        lemma_scale(color[2], 31);
    }
    let r = color[0] as u16 * 31 / 255;
    let g = color[1] as u16 * 63 / 255;
    let b = color[2] as u16 * 31 / 255;
    proof {
        lemma_small_fields(0, b, g, r);
    }
    (b << 11u16) | (g << 5u16) | r
}

/// Exactly one bit of `x` is set.
pub open spec fn single_bit(x: u32) -> bool {
    x != 0 && x & ((x - 1) as u32) == 0
}

/// `x` is a power of two.
pub fn is_power_of_two(x: u32) -> (b: bool)
    ensures
        b == single_bit(x),
{
    x != 0 && x & (x - 1) == 0
}

/// The converter accepts an image whose width and height are powers of two.
pub fn dimensions_supported(width: u32, height: u32) -> (b: bool)
    ensures
        b == (single_bit(width) && single_bit(height)),
{
    is_power_of_two(width) && is_power_of_two(height)
}

/// The header of a texture file: the texel format, a zero byte (not
/// swizzled), the width and the height, little-endian.
pub open spec fn texture_header(format: TexturePixelFormat, width: u32, height: u32) -> Seq<u8> {
    le32(format.raw()) + seq![0u8] + le32(width) + le32(height)
}

/// The header of a texture file.
pub fn texture_file_header(format: TexturePixelFormat, width: u32, height: u32) -> (h: Vec<u8>)
    ensures
        h@ == texture_header(format, width, height),
{
    let mut out: Vec<u8> = Vec::new();
    push_u32_le(&mut out, format.value());
    out.push(0u8);
    push_u32_le(&mut out, width);
    push_u32_le(&mut out, height);
    proof {
        assert(out@ =~= texture_header(format, width, height));
    }
    out
}

/// Encodes RGBA pixels as A8B8G8R8 texels.
pub fn encode_abgr8888(pixels: &[[u8; 4]]) -> (t: Vec<u32>)
    ensures
        t@.len() == pixels@.len(),
        forall|i: int| 0 <= i < pixels@.len() ==> #[trigger] t@[i] == pack(
            pixels@[i][3] as int,
            pixels@[i][2] as int,
            pixels@[i][1] as int,
            pixels@[i][0] as int,
        ),
{
    let mut out: Vec<u32> = Vec::new();
    let mut i: usize = 0;
    while i < pixels.len()
        invariant
            0 <= i <= pixels@.len(),
            out@.len() == i,
            forall|k: int| 0 <= k < i ==> #[trigger] out@[k] == pack(
                pixels@[k][3] as int,
                pixels@[k][2] as int,
                pixels@[k][1] as int,
                pixels@[k][0] as int,
            ),
        decreases pixels@.len() - i,
    {
        out.push(abgr8888(pixels[i]));
        i += 1;
    }
    out
}

/// Encodes RGBA pixels as A4B4G4R4 texels.
pub fn encode_abgr4444(pixels: &[[u8; 4]]) -> (t: Vec<u16>)
    ensures
        t@.len() == pixels@.len(),
        forall|i: int| 0 <= i < pixels@.len() ==> #[trigger] t@[i] == scale(pixels@[i][3], 15)
            * 0x1000 + scale(pixels@[i][2], 15) * 0x100 + scale(pixels@[i][1], 15) * 0x10 + scale(
            pixels@[i][0],
            15,
        ),
{
    let mut out: Vec<u16> = Vec::new();
    let mut i: usize = 0;
    while i < pixels.len()
        invariant
            0 <= i <= pixels@.len(),
            out@.len() == i,
            forall|k: int| 0 <= k < i ==> #[trigger] out@[k] == scale(pixels@[k][3], 15) * 0x1000
                + scale(pixels@[k][2], 15) * 0x100 + scale(pixels@[k][1], 15) * 0x10 + scale(
                pixels@[k][0],
                15,
            ),
        decreases pixels@.len() - i,
    {
        out.push(abgr4444(pixels[i]));
        i += 1;
    }
    out
}

/// Encodes RGBA pixels as A1B5G5R5 texels.
pub fn encode_abgr5551(pixels: &[[u8; 4]]) -> (t: Vec<u16>)
    ensures
        t@.len() == pixels@.len(),
        forall|i: int| 0 <= i < pixels@.len() ==> #[trigger] t@[i] == (if pixels@[i][3] > 128 {
            0x8000int
        } else {
            0
        }) + scale(pixels@[i][2], 31) * 0x400 + scale(pixels@[i][1], 31) * 0x20 + scale(
            pixels@[i][0],
            31,
        ),
{
    let mut out: Vec<u16> = Vec::new();
    let mut i: usize = 0;
    while i < pixels.len()
        invariant
            0 <= i <= pixels@.len(),
            out@.len() == i,
            forall|k: int| 0 <= k < i ==> #[trigger] out@[k] == (if pixels@[k][3] > 128 {
                0x8000int
            } else {
                0
            }) + scale(pixels@[k][2], 31) * 0x400 + scale(pixels@[k][1], 31) * 0x20 + scale(
                pixels@[k][0],
                31,
            ),
        decreases pixels@.len() - i,
    {
        out.push(abgr5551(pixels[i]));
        i += 1;
    }
    out
}

/// Encodes RGB pixels as B5G6R5 texels.
pub fn encode_bgr565(pixels: &[[u8; 3]]) -> (t: Vec<u16>)
    ensures
        t@.len() == pixels@.len(),
        forall|i: int| 0 <= i < pixels@.len() ==> #[trigger] t@[i] == scale(pixels@[i][2], 31)
            * 0x800 + scale(pixels@[i][1], 63) * 0x20 + scale(pixels@[i][0], 31),
{
    let mut out: Vec<u16> = Vec::new();
    let mut i: usize = 0;
    while i < pixels.len()
        invariant
            0 <= i <= pixels@.len(),
            out@.len() == i,
            forall|k: int| 0 <= k < i ==> #[trigger] out@[k] == scale(pixels@[k][2], 31) * 0x800
                + scale(pixels@[k][1], 63) * 0x20 + scale(pixels@[k][0], 31),
        decreases pixels@.len() - i,
    {
        out.push(bgr565(pixels[i]));
        i += 1;
    }
    out
}

/// The bytes of 32-bit texels: `bytemuck::cast_slice::<u32, u8>`.
///
/// Trusted: bytemuck's source shows that this cast never fails (a byte is
/// never more aligned than a word, and any length is a whole number of
/// bytes) and reinterprets the texels' memory: each texel's four bytes, one
/// texel after another, in the machine's byte order, which is little- or
/// big-endian. Which of the two is left open.
#[verifier::external_body]
fn texel_bytes_32(texels: &[u32]) -> (b: Vec<u8>)
    ensures
        b@ == words_bytes(texels@, false) || b@ == words_bytes(texels@, true),
{
    bytemuck::cast_slice::<u32, u8>(texels).to_vec()
}

/// The bytes of 16-bit texels: `bytemuck::cast_slice::<u16, u8>`.
///
/// Trusted: as for 32-bit texels, the cast never fails and gives each
/// texel's two bytes in turn, in the machine's byte order (little- or
/// big-endian, left open).
#[verifier::external_body]
fn texel_bytes_16(texels: &[u16]) -> (b: Vec<u8>)
    ensures
        b@ == halves_bytes(texels@, false) || b@ == halves_bytes(texels@, true),
{
    bytemuck::cast_slice::<u16, u8>(texels).to_vec()
}

/// The A8B8G8R8 texels of RGBA pixels.
pub open spec fn abgr8888_texels(p: Seq<[u8; 4]>) -> Seq<u32> {
    Seq::new(p.len(), |i: int| pack(p[i][3] as int, p[i][2] as int, p[i][1] as int, p[i][0] as int) as u32)
}

/// The A4B4G4R4 texels of RGBA pixels.
pub open spec fn abgr4444_texels(p: Seq<[u8; 4]>) -> Seq<u16> {
    Seq::new(
        p.len(),
        |i: int|
            (scale(p[i][3], 15) * 0x1000 + scale(p[i][2], 15) * 0x100 + scale(p[i][1], 15) * 0x10 + scale(
                p[i][0],
                15,
            )) as u16,
    )
}

/// The A1B5G5R5 texels of RGBA pixels.
pub open spec fn abgr5551_texels(p: Seq<[u8; 4]>) -> Seq<u16> {
    Seq::new(
        p.len(),
        |i: int|
            ((if p[i][3] > 128 { 0x8000int } else { 0 }) + scale(p[i][2], 31) * 0x400 + scale(p[i][1], 31)
                * 0x20 + scale(p[i][0], 31)) as u16,
    )
}

/// The B5G6R5 texels of RGB pixels.
pub open spec fn bgr565_texels(p: Seq<[u8; 3]>) -> Seq<u16> {
    Seq::new(
        p.len(),
        |i: int| (scale(p[i][2], 31) * 0x800 + scale(p[i][1], 63) * 0x20 + scale(p[i][0], 31)) as u16,
    )
}

/// The texel bytes of a texture file: the pixels encoded as `format` asks
/// (B5G6R5 from `rgb`, the others from `rgba`), each texel's bytes in
/// little-endian (`big` false) or big-endian (`big` true) order.
pub open spec fn texel_body(format: FormatType, rgba: Seq<[u8; 4]>, rgb: Seq<[u8; 3]>, big: bool) -> Seq<u8> {
    match format {
        FormatType::Abgr8 => words_bytes(abgr8888_texels(rgba), big),
        FormatType::Abgr4 => halves_bytes(abgr4444_texels(rgba), big),
        FormatType::Abgr5551 => halves_bytes(abgr5551_texels(rgba), big),
        FormatType::Bgr565 => halves_bytes(bgr565_texels(rgb), big),
    }
}

/// `b` is a texture file of the pixels: the header, then the encoded texels,
/// all in one byte order (the machine's).
#[verifier::opaque]
pub open spec fn texture_file_bytes(
    format: FormatType,
    width: u32,
    height: u32,
    rgba: Seq<[u8; 4]>,
    rgb: Seq<[u8; 3]>,
    b: Seq<u8>,
) -> bool {
    let header = texture_header(format.spec_format(), width, height);
    b == header + texel_body(format, rgba, rgb, false) || b == header + texel_body(format, rgba, rgb, true)
}

/// A texture file for an image of `width` by `height` pixels, given as RGBA
/// pixels (`rgba`) and as RGB pixels (`rgb`, used by B5G6R5): the header
/// (the encoding's texel format, not swizzled, the size) then the encoded
/// texels, in the machine's byte order. `None` when a side is not a power of
/// two.
pub fn texture_file(format: FormatType, width: u32, height: u32, rgba: &[[u8; 4]], rgb: &[[u8; 3]]) -> (f: Option<Vec<u8>>)
    ensures
        f is Some <==> single_bit(width) && single_bit(height),
        f matches Some(b) ==> texture_file_bytes(format, width, height, rgba@, rgb@, b@),
{
    if !dimensions_supported(width, height) {
        return None;
    }
    let mut out = texture_file_header(format.pixel_format(), width, height);
    let ghost header = out@;
    let body = match format {
        FormatType::Abgr8 => {
            let t = encode_abgr8888(rgba);
            proof {
                assert(t@ =~= abgr8888_texels(rgba@));
            }
            texel_bytes_32(t.as_slice())
        },
        FormatType::Abgr4 => {
            let t = encode_abgr4444(rgba);
            proof {
                assert(t@ =~= abgr4444_texels(rgba@));
            }
            texel_bytes_16(t.as_slice())
        },
        FormatType::Abgr5551 => {
            let t = encode_abgr5551(rgba);
            proof {
                assert(t@ =~= abgr5551_texels(rgba@));
            }
            texel_bytes_16(t.as_slice())
        },
        FormatType::Bgr565 => {
            let t = encode_bgr565(rgb);
            proof {
                assert(t@ =~= bgr565_texels(rgb@));
            }
            texel_bytes_16(t.as_slice())
        },
    };
    proof {
        assert(body@ == texel_body(format, rgba@, rgb@, false) || body@ == texel_body(format, rgba@, rgb@, true));
    }
    let mut i: usize = 0;
    while i < body.len()
        invariant
            0 <= i <= body@.len(),
            header.len() == 13,
            out@ == header + body@.take(i as int),
        decreases body@.len() - i,
    {
        out.push(body[i]);
        i += 1;
        proof {
            assert(out@ =~= header + body@.take(i as int));
        }
    }
    proof {
        assert(body@.take(body@.len() as int) =~= body@);
        reveal(texture_file_bytes);
    }
    Some(out)
}

/// Decodes an image file: the format named by the file name's extension
/// (`image::ImageFormat::from_path`), the bytes decoded in that format
/// (`image::load_from_memory_with_format`), then the width, the height and
/// the pixels row by row as RGBA (`to_rgba8`) and as RGB (`to_rgb8`).
///
/// Trusted: the crate's source shows that both pixel buffers hold width
/// times height pixels. Nothing is claimed of which image comes out: the
/// crate lets any code in the program register decoders for an extension,
/// so the same bytes need not decode the same way twice. An unknown
/// extension or bytes that do not decode give `None`.
#[verifier::external_body]
fn decode_image(file_name: &str, bytes: &[u8]) -> (r: Option<(u32, u32, Vec<[u8; 4]>, Vec<[u8; 3]>)>)
    ensures
        r matches Some((w, h, rgba, rgb)) ==> rgba@.len() == w * h && rgb@.len() == w * h,
{
    let format = image::ImageFormat::from_path(file_name).ok()?;
    match image::load_from_memory_with_format(bytes, format) {
        Ok(img) => Some((
            img.width(),
            img.height(),
            img.to_rgba8().pixels().map(|p| p.0).collect(),
            img.to_rgb8().pixels().map(|p| p.0).collect(),
        )),
        Err(_) => None,
    }
}

/// Why an image file gives no texture file.
#[derive(Clone, Copy, Debug, PartialEq, Eq, Structural)]
pub enum TextureFileError {
    /// The bytes are not an image that can be decoded.
    Undecodable,
    /// A side of the image is not a power of two.
    UnsupportedDimensions,
}

/// `b` is the texture file of a `w` by `h` image with pixels `rgba` (and
/// `rgb`), both sides powers of two.
pub open spec fn image_texture(
    format: FormatType,
    w: u32,
    h: u32,
    rgba: Seq<[u8; 4]>,
    rgb: Seq<[u8; 3]>,
    b: Seq<u8>,
) -> bool {
    &&& rgba.len() == w * h
    &&& rgb.len() == w * h
    &&& single_bit(w) && single_bit(h)
    &&& texture_file_bytes(format, w, h, rgba, rgb, b)
}

/// `b` is the texture file of some image whose sides are powers of two.
pub open spec fn texture_of_some_image(format: FormatType, b: Seq<u8>) -> bool {
    exists|w: u32, h: u32, rgba: Seq<[u8; 4]>, rgb: Seq<[u8; 3]>|
        #[trigger] image_texture(format, w, h, rgba, rgb, b)
}

proof fn lemma_image_texture(format: FormatType, w: u32, h: u32, rgba: Seq<[u8; 4]>, rgb: Seq<[u8; 3]>, b: Seq<u8>)
    requires
        rgba.len() == w * h,
        rgb.len() == w * h,
        single_bit(w) && single_bit(h),
        texture_file_bytes(format, w, h, rgba, rgb, b),
    ensures
        image_texture(format, w, h, rgba, rgb, b),
{
}

/// The texture file of an image file (its name, for the format its
/// extension names, and its bytes), in `format`: `Undecodable` when the
/// image cannot be decoded, `UnsupportedDimensions` when a side is not a
/// power of two, otherwise what [`texture_file`] gives for its pixels.
pub fn texture_file_from_image(format: FormatType, file_name: &str, bytes: &[u8]) -> (r: Result<Vec<u8>, TextureFileError>)
    ensures
        r matches Ok(b) ==> texture_of_some_image(format, b@),
{
    match decode_image(file_name, bytes) {
        None => Err(TextureFileError::Undecodable),
        Some((width, height, rgba, rgb)) => match texture_file(format, width, height, rgba.as_slice(), rgb.as_slice()) {
            Some(b) => {
                proof {
                    lemma_image_texture(format, width, height, rgba@, rgb@, b@);
                    assert(texture_of_some_image(format, b@));
                }
                Ok(b)
            },
            None => Err(TextureFileError::UnsupportedDimensions),
        },
    }
}

/// Law: a texture file names, in the first four bytes of its header (a
/// little-endian word), the texel format that matches the encoding of the
/// texels after it: 3 (8888) for ABGR8888, 2 (4444) for ABGR4444, 1 (5551)
/// for ABGR5551 and 0 (5650) for BGR565. Distinct encodings are named by
/// distinct formats.
pub proof fn law_texture_header_names_encoding(
    format: FormatType,
    other: FormatType,
    width: u32,
    height: u32,
    rgba: Seq<[u8; 4]>,
    rgb: Seq<[u8; 3]>,
    b: Seq<u8>,
)
    requires
        texture_file_bytes(format, width, height, rgba, rgb, b),
    ensures
        b.len() >= 13,
        b[0] == match format {
            FormatType::Abgr8 => 3u8,
            FormatType::Abgr4 => 2u8,
            FormatType::Abgr5551 => 1u8,
            FormatType::Bgr565 => 0u8,
        },
        b[1] == 0 && b[2] == 0 && b[3] == 0,
        format != other ==> format.spec_format() != other.spec_format(),
{
    reveal(texture_file_bytes);
    let header = texture_header(format.spec_format(), width, height);
    assert(header.len() == 13);
    assert(b.subrange(0, 13) =~= header);
    assert(b[0] == header[0] && b[1] == header[1] && b[2] == header[2] && b[3] == header[3]);
}

} // verus!
