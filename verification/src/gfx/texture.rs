use vstd::prelude::*;
use crate::sys::gu::TexturePixelFormat;
use crate::gfx::vram_alloc::{
    VramAllocator, VramChunk, alloc_outcome, alloc_scan_safe, range_set, tail_after,
};

verus! {

/// The byte size of `len` texels in format `psm` (4-bit indexed texels go
/// two to a byte, an odd one taking a last byte of its own).
pub open spec fn texture_bytes(len: int, psm: TexturePixelFormat) -> int {
    match psm {
        TexturePixelFormat::PsmT4 => (len + 1) / 2,
        TexturePixelFormat::PsmDxt1 => len / 2,
        TexturePixelFormat::PsmT8 | TexturePixelFormat::PsmDxt5 | TexturePixelFormat::PsmDxt3 => len,
        TexturePixelFormat::Psm5650
        | TexturePixelFormat::Psm5551
        | TexturePixelFormat::Psm4444
        | TexturePixelFormat::PsmT16 => len * 2,
        TexturePixelFormat::Psm8888 | TexturePixelFormat::PsmT32 => len * 4,
    }
}

/// The byte size of `len` texels in format `psm`.
pub fn texture_size(len: usize, psm: TexturePixelFormat) -> (n: usize)
    requires
        texture_bytes(len as int, psm) <= usize::MAX,
    ensures
        n == texture_bytes(len as int, psm),
{
    match psm {
        TexturePixelFormat::PsmT4 => len / 2 + len % 2,
        TexturePixelFormat::PsmDxt1 => len / 2,
        TexturePixelFormat::PsmT8 | TexturePixelFormat::PsmDxt5 | TexturePixelFormat::PsmDxt3 => len,
        TexturePixelFormat::Psm5650
        | TexturePixelFormat::Psm5551
        | TexturePixelFormat::Psm4444
        | TexturePixelFormat::PsmT16 => len * 2,
        TexturePixelFormat::Psm8888 | TexturePixelFormat::PsmT32 => len * 4,
    }
}

/// Errors of texture construction.
#[derive(Debug)]
pub enum TextureError {
    /// The buffer's length does not match the texture's size and format.
    InvalidTexture,
}

/// Where a texture's texels live: a RAM buffer, or a chunk of VRAM.
enum TextureBuffer {
    Ram(Vec<u8>),
    Vram(VramChunk),
}

/// A texture: its dimensions, texel format, whether it is swizzled, and its
/// texel buffer.
pub struct Texture {
    size: (u16, u16),
    format: TexturePixelFormat,
    swizzled: bool,
    buffer: TextureBuffer,
}

/// What a [`Texture`] is, seen from outside.
pub struct TextureModel {
    pub width: u16,
    pub height: u16,
    pub format: TexturePixelFormat,
    pub swizzled: bool,
    /// The texels, for a texture in RAM.
    pub ram: Option<Seq<u8>>,
    /// The start address and length of the VRAM chunk, for a texture in VRAM.
    pub vram: Option<(usize, usize)>,
}

impl View for Texture {
    type V = TextureModel;

    closed spec fn view(&self) -> TextureModel {
        TextureModel {
            width: self.size.0,
            height: self.size.1,
            format: self.format,
            swizzled: self.swizzled,
            ram: match &self.buffer {
                TextureBuffer::Ram(v) => Some(v@),
                TextureBuffer::Vram(_) => None,
            },
            vram: match &self.buffer {
                TextureBuffer::Ram(_) => None,
                TextureBuffer::Vram(c) => Some(c@),
            },
        }
    }
}

/// The number of texels of a texture fits in a `usize`.
pub proof fn lemma_texel_count(width: u16, height: u16)
    ensures
        0 <= width * height <= usize::MAX,
{
    assert(width * height <= 0xffff * 0xffff) by (nonlinear_arith)
        requires
            width <= 0xffff,
            height <= 0xffff,
    ;
}

/// The byte size of a texture of the given dimensions and format.
pub open spec fn texture_bytes_for(width: u16, height: u16, format: TexturePixelFormat) -> int {
    texture_bytes(width * height, format)
}

/// A texture's format can be rendered to.
pub open spec fn framebuffer_format(format: TexturePixelFormat) -> bool {
    format == TexturePixelFormat::Psm8888 || format == TexturePixelFormat::Psm4444 || format
        == TexturePixelFormat::Psm5650 || format == TexturePixelFormat::Psm5551
}

/// A texture's format can hold depth.
pub open spec fn depthbuffer_format(format: TexturePixelFormat) -> bool {
    format == TexturePixelFormat::Psm5650 || format == TexturePixelFormat::Psm4444 || format
        == TexturePixelFormat::Psm5551
}

impl Texture {
    /// Allocates a texture's texels from VRAM, aligned to 4 bytes.
    pub fn allocate(
        allocator: &mut VramAllocator,
        width: u16,
        height: u16,
        format: TexturePixelFormat,
        swizzled: bool,
    ) -> (r: Result<Self, TextureError>)
        requires
            old(allocator).wf(),
            texture_bytes_for(width, height, format) <= usize::MAX,
            alloc_scan_safe(old(allocator)@, texture_bytes_for(width, height, format), 4),
            alloc_outcome(old(allocator)@, texture_bytes_for(width, height, format), 4) is Some,
        ensures
            final(allocator).wf(),
            r matches Ok(t) && {
                &&& t@.width == width
                &&& t@.height == height
                &&& t@.format == format
                &&& t@.swizzled == swizzled
                &&& t@.ram is None
                &&& t@.vram matches Some((addr, len)) && {
                    &&& len == texture_bytes_for(width, height, format)
                    &&& alloc_outcome(old(allocator)@, len as int, 4) == Some(addr as int)
                    &&& final(allocator).free_set() == old(allocator).free_set().difference(
                        range_set(addr as int, len as int),
                    )
                    &&& (old(allocator)@.len() == 1 && addr == old(allocator)@[0].addr ==> final(allocator)@
                        == tail_after(old(allocator)@[0], len as int))
                }
            },
    {
        proof {
            lemma_texel_count(width, height);
        }
        let size = texture_size(width as usize * height as usize, format);
        proof {
            vstd::arithmetic::power2::lemma2_to64();
        }
        let chunk = VramChunk::allocate(allocator, size, 4);
        let ghost after = *allocator;
        let r = Self::from_vram_chunk(width, height, format, swizzled, chunk, allocator);
        proof {
            assert(*allocator == after);
        }
        r
    }

    /// A texture whose texels live in `chunk`; `InvalidTexture`, with the
    /// chunk given back to `allocator`, when the chunk's length does not match.
    pub fn from_vram_chunk(
        width: u16,
        height: u16,
        format: TexturePixelFormat,
        swizzled: bool,
        chunk: VramChunk,
        allocator: &mut VramAllocator,
    ) -> (r: Result<Self, TextureError>)
        requires
            texture_bytes_for(width, height, format) <= usize::MAX,
            old(allocator).wf(),
            chunk@.0 + chunk@.1 <= usize::MAX,
            old(allocator).free_set().disjoint(range_set(chunk@.0 as int, chunk@.1 as int)),
        ensures
            final(allocator).wf(),
            r is Ok <==> chunk@.1 == texture_bytes_for(width, height, format),
            r is Ok ==> *final(allocator) == *old(allocator),
            r is Err ==> final(allocator).free_set() == old(allocator).free_set().union(
                range_set(chunk@.0 as int, chunk@.1 as int),
            ),
            r matches Ok(t) ==> t@ == (TextureModel {
                width,
                height,
                format,
                swizzled,
                ram: None,
                vram: Some(chunk@),
            }),
    {
        proof {
            lemma_texel_count(width, height);
        }
        if chunk.len() != texture_size(width as usize * height as usize, format) {
            chunk.dealloc(allocator);
            return Err(TextureError::InvalidTexture);
        }
        Ok(Self { size: (width, height), buffer: TextureBuffer::Vram(chunk), format, swizzled })
    }

    /// A texture whose texels live in the RAM buffer `boxed`;
    /// `InvalidTexture` when its length does not match.
    pub fn from_boxed_slice(
        width: u16,
        height: u16,
        format: TexturePixelFormat,
        swizzled: bool,
        boxed: Box<[u8]>,
    ) -> (r: Result<Self, TextureError>)
        requires
            texture_bytes_for(width, height, format) <= usize::MAX,
        ensures
            r is Ok <==> boxed@.len() == texture_bytes_for(width, height, format),
            r matches Ok(t) ==> t@ == (TextureModel {
                width,
                height,
                format,
                swizzled,
                ram: Some(boxed@),
                vram: None,
            }),
    {
        proof {
            lemma_texel_count(width, height);
        }
        if boxed.len() != texture_size(width as usize * height as usize, format) {
            return Err(TextureError::InvalidTexture);
        }
        let v = boxed.into_vec();
        Ok(Self { size: (width, height), buffer: TextureBuffer::Ram(v), format, swizzled })
    }

    /// Gives a VRAM texture's chunk back to `allocator`; a RAM texture's
    /// buffer is simply freed.
    pub fn release(self, allocator: &mut VramAllocator)
        requires
            old(allocator).wf(),
            self@.vram matches Some((addr, len)) ==> {
                &&& addr + len <= usize::MAX
                &&& old(allocator).free_set().disjoint(range_set(addr as int, len as int))
            },
        ensures
            final(allocator).wf(),
            match self@.vram {
                Some((addr, len)) => final(allocator).free_set() == old(
                    allocator,
                ).free_set().union(range_set(addr as int, len as int)),
                None => *final(allocator) == *old(allocator),
            },
    {
        match self.buffer {
            TextureBuffer::Ram(_) => {},
            TextureBuffer::Vram(chunk) => chunk.dealloc(allocator),
        }
    }

    /// The width and height in texels.
    pub fn size(&self) -> (s: (u16, u16))
        ensures
            s == (self@.width, self@.height),
    {
        self.size
    }

    /// The width in texels.
    pub fn width(&self) -> (w: u16)
        ensures
            w == self@.width,
    {
        self.size.0
    }

    /// The height in texels.
    pub fn height(&self) -> (h: u16)
        ensures
            h == self@.height,
    {
        self.size.1
    }

    /// The texel format.
    pub fn format(&self) -> (f: TexturePixelFormat)
        ensures
            f == self@.format,
    {
        self.format
    }

    /// Whether the texels are stored swizzled.
    pub fn swizzled(&self) -> (b: bool)
        ensures
            b == self@.swizzled,
    {
        self.swizzled
    }

    /// Records whether the texels are stored swizzled.
    pub fn set_swizzled(&mut self, swizzled: bool)
        ensures
            final(self)@ == (TextureModel { swizzled, ..old(self)@ }),
    {
        self.swizzled = swizzled;
    }

    /// The texels of a texture held in RAM.
    pub fn buffer(&self) -> (b: &[u8])
        requires
            self@.ram is Some,
        ensures
            b@ == self@.ram.unwrap(),
    {
        match &self.buffer {
            TextureBuffer::Ram(v) => v.as_slice(),
            TextureBuffer::Vram(_) => vstd::pervasive::unreached(),
        }
    }

    /// The texels of a texture held in RAM, for writing.
    pub fn buffer_mut(&mut self) -> (b: &mut [u8])
        requires
            old(self)@.ram is Some,
        ensures
            b@ == old(self)@.ram.unwrap(),
            final(self)@ == (TextureModel { ram: Some(final(b)@), ..old(self)@ }),
    {
        match &mut self.buffer {
            TextureBuffer::Ram(v) => v.as_mut_slice(),
            TextureBuffer::Vram(_) => vstd::pervasive::unreached(),
        }
    }

    /// The VRAM address of the texels of a texture held in VRAM.
    pub fn vram_addr(&self) -> (a: Option<usize>)
        ensures
            a == (match self@.vram {
                Some((addr, _)) => Some(addr),
                None => None::<usize>,
            }),
    {
        match &self.buffer {
            TextureBuffer::Ram(_) => None,
            TextureBuffer::Vram(c) => Some(c.addr()),
        }
    }

    /// The texture can be rendered to: it is not swizzled and its format is
    /// 8888, 4444, 5650 or 5551.
    pub fn can_be_framebuffer(&self) -> (b: bool)
        ensures
            b == (!self@.swizzled && framebuffer_format(self@.format)),
    {
        if self.swizzled {
            return false;
        }
        match self.format {
            TexturePixelFormat::Psm8888
            | TexturePixelFormat::Psm4444
            | TexturePixelFormat::Psm5650
            | TexturePixelFormat::Psm5551 => true,
            _ => false,
        }
    }

    /// The texture can hold depth: it is not swizzled and its format is
    /// 5650, 4444 or 5551.
    pub fn can_be_depthbuffer(&self) -> (b: bool)
        ensures
            b == (!self@.swizzled && depthbuffer_format(self@.format)),
    {
        if self.swizzled {
            return false;
        }
        match self.format {
            TexturePixelFormat::Psm5650 | TexturePixelFormat::Psm4444
            | TexturePixelFormat::Psm5551 => true,
            _ => false,
        }
    }

    /// Checks a source slice for swizzling into the texture: `None` when its
    /// length does not match the texture, or when the width is not a multiple
    /// of 16 or the height not a multiple of 8. (Swizzling a valid source is
    /// not implemented.)
    pub fn swizzle_from_slice(&mut self, src: &[u8]) -> (r: Option<()>)
        requires
            texture_bytes_for(old(self)@.width, old(self)@.height, old(self)@.format)
                <= usize::MAX,
            !(src@.len() == texture_bytes_for(old(self)@.width, old(self)@.height, old(self)@.format)
                && old(self)@.width % 16 == 0 && old(self)@.height % 8 == 0),
        ensures
            r is None,
            final(self)@ == old(self)@,
    {
        proof {
            lemma_texel_count(self@.width, self@.height);
        }
        let (width, height) = (self.width() as usize, self.height() as usize);
        if src.len() != texture_size(width * height, self.format) {
            return None;
        }
        if width % 16 != 0 || height % 8 != 0 {
            return None;
        }
        None
    }
}

} // verus!
