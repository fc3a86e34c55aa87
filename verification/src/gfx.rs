//! Graphics: colors, vertex layouts, textures, VRAM and display lists, and
//! the screen set-up that ties them together.

pub mod color;
pub mod vram_alloc;
pub mod vertex;
pub mod texture;
pub mod gl;

use vstd::prelude::*;
use crate::gfx::gl::{
    Gl, GlError, GlModel, I8Mat4, I8Vec4, MatrixMode, appended, cmd_word, float_word, float_words,
    matrix_commands, morph_weight_command_spec, region_arg, dither_row,
};
use crate::gfx::texture::{Texture, TextureModel, framebuffer_format, depthbuffer_format, texture_bytes_for};
use crate::gfx::vram_alloc::{
    VramAllocator, VramNode, alloc_outcome, alloc_scan_safe, aligned_up, fits_at, first_stop, nodes_set,
    overflows_at, range_set, tail_after,
};
use crate::sys::ge::GeCommand;
use crate::sys::gu::{DepthFunc, FrontFaceDirection, GuState, ShadingModel, TexturePixelFormat};

verus! {

/// The width of a screen buffer's rows, in pixels.
pub const BUF_WIDTH: usize = 512;
/// The screen's height, in pixels.
pub const SCREEN_HEIGHT: usize = 272;
/// The screen's width, in pixels.
pub const SCREEN_WIDTH: usize = 480;

/// The bit pattern of the float 1.0.
pub const ONE_BITS: u32 = 0x3f80_0000;

/// The 3x4 identity matrix (float bit patterns, axis by axis).
pub open spec fn identity_3x4() -> Seq<u32> {
    seq![ONE_BITS, 0u32, 0u32, 0u32, ONE_BITS, 0u32, 0u32, 0u32, ONE_BITS, 0u32, 0u32, 0u32]
}

/// The 4x4 identity matrix (float bit patterns, column by column).
pub open spec fn identity_4x4() -> Seq<u32> {
    seq![
        ONE_BITS, 0u32, 0u32, 0u32,
        0u32, ONE_BITS, 0u32, 0u32,
        0u32, 0u32, ONE_BITS, 0u32,
        0u32, 0u32, 0u32, ONE_BITS,
    ]
}

/// The words that make `t` (in VRAM at or after `edram_base`) the frame buffer.
pub open spec fn frame_buffer_words(t: TextureModel, edram_base: usize) -> Seq<u32> {
    let offset = (t.vram.unwrap().0 - edram_base) as usize;
    seq![
        cmd_word(GeCommand::FramebufPixFormat, t.format.raw() as usize),
        cmd_word(GeCommand::FrameBufPtr, offset % 0x100_0000),
        cmd_word(GeCommand::FrameBufWidth, (((offset / 0x100_0000) % 0x100) * 0x1_0000 + t.width) as usize),
    ]
}

/// The words that load the identity into a 3x4 matrix.
pub open spec fn identity_matrix_words(mode: MatrixMode) -> Seq<u32> {
    seq![cmd_word(matrix_commands(mode).0, 0)] + float_words(matrix_commands(mode).1, identity_3x4())
}

/// The words that reset bone `i`: its matrix to the identity, its morph
/// weight to zero.
pub open spec fn bone_words(i: u8) -> Seq<u32> {
    seq![cmd_word(GeCommand::BoneMatrixNumber, (i * 12) as usize)] + float_words(
        GeCommand::BoneMatrixData,
        identity_3x4(),
    ) + seq![float_word(morph_weight_command_spec(i), 0)]
}

/// The words that reset the first `n` bones.
pub open spec fn bones_words(n: nat) -> Seq<u32>
    decreases n,
{
    if n == 0 {
        Seq::empty()
    } else {
        bones_words((n - 1) as nat) + bone_words((n - 1) as u8)
    }
}

/// The dither matrix the screen starts with.
pub open spec fn initial_dither() -> I8Mat4 {
    I8Mat4 {
        x: I8Vec4 { x: -4i8, y: 0i8, z: -3i8, w: 1i8 },
        y: I8Vec4 { x: 2i8, y: -2i8, z: 3i8, w: -1i8 },
        z: I8Vec4 { x: -3i8, y: 1i8, z: -4i8, w: 0i8 },
        w: I8Vec4 { x: 3i8, y: -1i8, z: 2i8, w: -2i8 },
    }
}

/// The display list the screen starts with, rendering into `frame`: the frame
/// buffer, the drawing region, the screen offset, the viewport (centered at
/// 2048, 2048; 480 by 272), identity matrices, reset bones, the dither
/// matrix, smooth shading and 16 by 16 patch divisions.
pub open spec fn init_list(frame: TextureModel, edram_base: usize) -> Seq<u32> {
    frame_buffer_words(frame, edram_base) + seq![
        cmd_word(GeCommand::Region1, region_arg(0, 0)),
        cmd_word(GeCommand::Region2, region_arg(479, 271)),
        cmd_word(GeCommand::OffsetX, 1808usize << 4u32),
        cmd_word(GeCommand::OffsetY, 1912usize << 4u32),
        float_word(GeCommand::ViewportXCenter, 0x4500_0000),
        float_word(GeCommand::ViewportYCenter, 0x4500_0000),
        float_word(GeCommand::ViewportXScale, 0x4370_0000),
        float_word(GeCommand::ViewportYScale, 0xc308_0000),
        float_word(GeCommand::ProjMatrixNumber, 0),
    ] + float_words(GeCommand::ProjMatrixData, identity_4x4()) + identity_matrix_words(MatrixMode::View)
        + identity_matrix_words(MatrixMode::Model) + identity_matrix_words(MatrixMode::Texture) + bones_words(8)
        + seq![
        cmd_word(GeCommand::Dith0, dither_row(initial_dither().x)),
        cmd_word(GeCommand::Dith1, dither_row(initial_dither().y)),
        cmd_word(GeCommand::Dith2, dither_row(initial_dither().z)),
        cmd_word(GeCommand::Dith3, dither_row(initial_dither().w)),
        cmd_word(GeCommand::ShadeMode, 1),
        cmd_word(GeCommand::PatchDivision, (16usize << 8u32) | 16usize),
    ]
}

/// The bytes of the frame buffer (512 by 272, 16 bits a pixel).
pub open spec fn frame_bytes() -> int {
    texture_bytes_for(512, 272, TexturePixelFormat::Psm5551)
}

/// The bytes of the depth buffer and of the second buffer (512 by 480, 16
/// bits a pixel).
pub open spec fn extra_buffer_bytes() -> int {
    texture_bytes_for(512, 480, TexturePixelFormat::Psm5551)
}

/// The words that set up depth testing into a depth buffer at `addr`: the
/// depth range from 65535 (near) to 0 (far), depth values passing when
/// greater or equal, the depth test on, and the buffer.
pub open spec fn depth_words(addr: usize) -> Seq<u32> {
    seq![
        float_word(GeCommand::ViewportZScale, 0xc6ff_ff00),
        float_word(GeCommand::ViewportZCenter, 0x46ff_ff00),
        cmd_word(GeCommand::MaxZ, 65535),
        cmd_word(GeCommand::MinZ, 0),
        cmd_word(GeCommand::ZTest, DepthFunc::GreaterOrEqual.raw() as usize),
        cmd_word(GeCommand::ZTestEnable, 1),
        cmd_word(GeCommand::ZBufPtr, addr),
        cmd_word(GeCommand::ZBufWidth, ((addr & 0xff00_0000) >> 8u32) | 512usize),
    ]
}

/// A 512 by 480 texture in VRAM at `addr`, not swizzled.
pub open spec fn vram_texture(format: TexturePixelFormat, addr: usize) -> TextureModel {
    TextureModel {
        width: 512,
        height: 480,
        format,
        swizzled: false,
        ram: None,
        vram: Some((addr, extra_buffer_bytes() as usize)),
    }
}

/// `after`'s free ranges are `before`'s without the `len` bytes at `addr`,
/// and a single free range loses its head.
pub open spec fn took_from(before: Seq<VramNode>, after: Seq<VramNode>, addr: usize, len: int) -> bool {
    &&& nodes_set(after) == nodes_set(before).difference(range_set(addr as int, len))
    &&& (before.len() == 1 && addr == before[0].addr ==> after == tail_after(before[0], len))
}

/// What the screen is, seen from outside.
pub struct GfxModel {
    pub gl: GlModel,
    /// The free VRAM ranges.
    pub free: Seq<VramNode>,
    pub frame: TextureModel,
    pub depth: Option<TextureModel>,
    /// The second buffer, and whether the frame buffer holds the last
    /// finished frame.
    pub double: Option<(TextureModel, bool)>,
    /// The start of VRAM.
    pub edram_base: usize,
}

/// A texture in VRAM, at or after `edram_base`, that can be rendered to.
pub open spec fn render_buffer(t: TextureModel, edram_base: usize) -> bool {
    &&& !t.swizzled
    &&& framebuffer_format(t.format)
    &&& t.vram matches Some((addr, _)) && addr >= edram_base
}

/// The buffer the next frame renders into.
pub open spec fn render_target(g: GfxModel) -> TextureModel {
    match g.double {
        Some((t, true)) => t,
        _ => g.frame,
    }
}

/// The screen once a frame has started.
pub open spec fn started(g: GfxModel) -> GfxModel {
    GfxModel {
        gl: GlModel { list: frame_buffer_words(render_target(g), g.edram_base), display_size: g.gl.display_size },
        double: match g.double {
            Some((t, drawn)) => Some((t, !drawn)),
            None => None,
        },
        ..g
    }
}

/// Which buffer to show once a frame is finished.
#[derive(Clone, Copy, Debug, PartialEq, Eq, Structural)]
pub enum Displayed {
    /// No second buffer: the display stays as it is.
    Unchanged,
    FrameBuffer,
    DoubleBuffer,
}

/// The buffer shown when the frame in progress is finished.
pub open spec fn display_choice(g: GfxModel) -> Displayed {
    match g.double {
        Some((_, false)) => Displayed::DoubleBuffer,
        Some((_, true)) => Displayed::FrameBuffer,
        None => Displayed::Unchanged,
    }
}

/// The texture a choice stands for.
pub open spec fn displayed_texture(g: GfxModel, d: Displayed) -> Option<TextureModel> {
    match d {
        Displayed::Unchanged => None,
        Displayed::FrameBuffer => Some(g.frame),
        Displayed::DoubleBuffer => Some(g.double.unwrap().0),
    }
}

/// The screen: the graphics library, the VRAM allocator and the buffers.
pub struct Gfx {
    gl: Gl,
    vram_allocator: VramAllocator,
    frame_buffer: Texture,
    depth_buffer: Option<Texture>,
    double_buffer: Option<(Texture, bool)>,
    edram_base: usize,
}

impl View for Gfx {
    type V = GfxModel;

    closed spec fn view(&self) -> GfxModel {
        GfxModel {
            gl: self.gl@,
            free: self.vram_allocator@,
            frame: self.frame_buffer@,
            depth: match self.depth_buffer {
                Some(t) => Some(t@),
                None => None,
            },
            double: match self.double_buffer {
                Some((t, drawn)) => Some((t@, drawn)),
                None => None,
            },
            edram_base: self.edram_base,
        }
    }
}

/// A single free range at a 4-byte aligned address gives first-fit
/// allocations of up to its size at its start.
proof fn lemma_single_node_fits(n: VramNode, size: int)
    requires
        n.addr % 4 == 0,
        3 <= size <= n.size,
        n.addr + n.size <= usize::MAX,
    ensures
        alloc_scan_safe(seq![n], size, 4),
        alloc_outcome(seq![n], size, 4) == Some(n.addr as int),
{
    let a = n.addr as int;
    assert(aligned_up(a, 4) == a) by (nonlinear_arith)
        requires
            a % 4 == 0,
            a >= 0,
    ;
    let s = seq![n];
    assert(fits_at(s[0], size, 4));
    assert(!overflows_at(s[0], size, 4));
    assert(first_stop(s, size, 4, 0) == 0);
}

impl Gfx {
    pub const WIDTH: u16 = 480;
    pub const HEIGHT: u16 = 272;
    pub const BUFFER_WIDTH: u16 = 512;

    /// The buffers are textures that can be used as such, and the allocator
    /// is well formed.
    pub open spec fn wf(&self) -> bool {
        &&& self.vram_ok()
        &&& render_buffer(self@.frame, self@.edram_base)
        &&& self@.depth matches Some(d) ==> depthbuffer_format(d.format) && d.vram is Some
        &&& self@.double matches Some((t, _)) ==> render_buffer(t, self@.edram_base)
    }

    /// The allocator is well formed.
    pub closed spec fn vram_ok(&self) -> bool {
        self.vram_allocator.wf()
    }

    /// Sets up the screen over VRAM `[vram_base, vram_base + vram_size)`: a
    /// 512 by 272 frame buffer at its start, the display size, and the
    /// initial display list.
    pub fn init(vram_base: usize, vram_size: usize) -> (r: Result<Gfx, GlError>)
        requires
            vram_base % 4 == 0,
            frame_bytes() <= vram_size,
            vram_base + vram_size <= usize::MAX,
        ensures
            r matches Ok(g) && {
                &&& g.wf()
                &&& g@.edram_base == vram_base
                &&& g@.frame == (TextureModel {
                    width: 512,
                    height: 272,
                    format: TexturePixelFormat::Psm5551,
                    swizzled: false,
                    ram: None,
                    vram: Some((vram_base, frame_bytes() as usize)),
                })
                &&& g@.depth is None
                &&& g@.double is None
                &&& g@.free == tail_after(VramNode { addr: vram_base, size: vram_size }, frame_bytes())
                &&& g@.gl.display_size == Some((480u16, 272u16))
                &&& g@.gl.list == init_list(g@.frame, vram_base)
            },
    {
        let mut vram_allocator = VramAllocator::init(vram_base, vram_size);
        proof {
            lemma_single_node_fits(VramNode { addr: vram_base, size: vram_size }, frame_bytes());
        }
        let frame_buffer = match Texture::allocate(
            &mut vram_allocator,
            Self::BUFFER_WIDTH,
            Self::HEIGHT,
            TexturePixelFormat::Psm5551,
            false,
        ) {
            Ok(t) => t,
            Err(_) => {
                assert(false);
                return Err(GlError::InvalidFramebuffer);
            },
        };
        let mut gl = Gl::new();
        gl.start();
        match gl.set_frame_buffer(&frame_buffer, vram_base) {
            Ok(()) => {},
            Err(e) => return Err(e),
        }
        let ghost l1 = gl@.list;
        gl.set_display_size(Self::WIDTH, Self::HEIGHT);
        match gl.draw_region(0, 0, Self::WIDTH, Self::HEIGHT) {
            Ok(()) => {},
            Err(e) => return Err(e),
        }
        gl.offset(2048 - 240, 2048 - 136);
        gl.viewport_bits(0x4500_0000, 0x4500_0000, 0x4370_0000, 0xc308_0000);
        let identity4: [u32; 16] = [
            ONE_BITS, 0, 0, 0,
            0, ONE_BITS, 0, 0,
            0, 0, ONE_BITS, 0,
            0, 0, 0, ONE_BITS,
        ];
        let identity3: [u32; 12] = [ONE_BITS, 0, 0, 0, ONE_BITS, 0, 0, 0, ONE_BITS, 0, 0, 0];
        proof {
            assert(identity4@ =~= identity_4x4());
            assert(identity3@ =~= identity_3x4());
        }
        gl.overwrite_projection_matrix(identity4);
        gl.overwrite_matrix(MatrixMode::View, identity3);
        gl.overwrite_matrix(MatrixMode::Model, identity3);
        gl.overwrite_matrix(MatrixMode::Texture, identity3);
        let ghost before_bones = gl@;
        let mut bone: u8 = 0;
        while bone < 8
            invariant
                bone <= 8,
                identity3@ == identity_3x4(),
                appended(before_bones, gl@, bones_words(bone as nat)),
            decreases 8 - bone,
        {
            gl.set_bone_matrix(bone, identity3);
            gl.morph_weight(bone, 0);
            proof {
                assert(bones_words((bone + 1) as nat) == bones_words(bone as nat) + bone_words(bone));
            }
            bone += 1;
        }
        let dither = I8Mat4 {
            x: I8Vec4 { x: -4, y: 0, z: -3, w: 1 },
            y: I8Vec4 { x: 2, y: -2, z: 3, w: -1 },
            z: I8Vec4 { x: -3, y: 1, z: -4, w: 0 },
            w: I8Vec4 { x: 3, y: -1, z: 2, w: -2 },
        };
        gl.set_dither(&dither);
        gl.shading_model(ShadingModel::Smooth);
        gl.patch_division(16, 16);
        let g = Gfx {
            gl,
            vram_allocator,
            frame_buffer,
            depth_buffer: None,
            double_buffer: None,
            edram_base: vram_base,
        };
        proof {
            assert(g@.gl.list =~= init_list(g@.frame, vram_base));
        }
        Ok(g)
    }

    /// The usual screen: [`Gfx::init`], then a depth buffer, a second
    /// buffer, back-face culling, the scissor test, clipping and the texture
    /// transform, and the set-up list ended.
    pub fn init_default(vram_base: usize, vram_size: usize) -> (r: Result<Gfx, GlError>)
        requires
            vram_base % 4 == 0,
            frame_bytes() + 2 * extra_buffer_bytes() <= vram_size,
            vram_base + vram_size <= usize::MAX,
        ensures
            r matches Ok(g) && {
                let depth_addr = (vram_base + frame_bytes()) as usize;
                let second_addr = (vram_base + frame_bytes() + extra_buffer_bytes()) as usize;
                &&& g.wf()
                &&& g@.edram_base == vram_base
                &&& g@.frame.vram == Some((vram_base, frame_bytes() as usize))
                &&& g@.depth == Some(vram_texture(TexturePixelFormat::Psm4444, depth_addr))
                &&& g@.double == Some((vram_texture(TexturePixelFormat::Psm5551, second_addr), false))
                &&& g@.free == tail_after(
                    VramNode { addr: vram_base, size: vram_size },
                    frame_bytes() + 2 * extra_buffer_bytes(),
                )
                &&& g@.gl.display_size == Some((480u16, 272u16))
                &&& g@.gl.list == init_list(g@.frame, vram_base) + depth_words(depth_addr) + seq![
                    cmd_word(GeCommand::Cull, 0),
                    cmd_word(GeCommand::CullFaceEnable, 1),
                    cmd_word(GeCommand::Scissor1, region_arg(0, 0)),
                    cmd_word(GeCommand::Scissor2, region_arg(479, 271)),
                    cmd_word(GeCommand::DepthClampEnable, 1),
                    float_word(GeCommand::TexScaleU, ONE_BITS),
                    float_word(GeCommand::TexScaleV, ONE_BITS),
                    float_word(GeCommand::TexOffsetU, 0),
                    float_word(GeCommand::TexOffsetV, 0),
                    cmd_word(GeCommand::Finish, 0),
                    cmd_word(GeCommand::End, 0),
                ]
            },
    {
        let g = match Self::init(vram_base, vram_size) {
            Ok(g) => g,
            Err(e) => return Err(e),
        };
        let ghost g0 = g@;
        let ghost n1 = VramNode { addr: (vram_base + frame_bytes()) as usize, size: (vram_size - frame_bytes()) as usize };
        proof {
            assert(g@.free == seq![n1]);
            lemma_single_node_fits(n1, extra_buffer_bytes());
        }
        let g = g.depth_test();
        let ghost g1 = g@;
        let ghost n2 = VramNode {
            addr: (vram_base + frame_bytes() + extra_buffer_bytes()) as usize,
            size: (vram_size - frame_bytes() - extra_buffer_bytes()) as usize,
        };
        proof {
            assert(g@.free == seq![n2]);
            lemma_single_node_fits(n2, extra_buffer_bytes());
        }
        let g = g.double_buffering();
        let g = g.culling();
        let g = match g.scissor_test() {
            Ok(g) => g,
            Err(e) => return Err(e),
        };
        let g = g.clip_planes();
        let g = g.texture_2d();
        let r = g.build();
        proof {
            let depth_addr = (vram_base + frame_bytes()) as usize;
            let second_addr = (vram_base + frame_bytes() + extra_buffer_bytes()) as usize;
            let gl = r.unwrap()@.gl.list;
            assert(gl =~= init_list(g0.frame, vram_base) + depth_words(depth_addr) + seq![
                cmd_word(GeCommand::Cull, 0),
                cmd_word(GeCommand::CullFaceEnable, 1),
                cmd_word(GeCommand::Scissor1, region_arg(0, 0)),
                cmd_word(GeCommand::Scissor2, region_arg(479, 271)),
                cmd_word(GeCommand::DepthClampEnable, 1),
                float_word(GeCommand::TexScaleU, ONE_BITS),
                float_word(GeCommand::TexScaleV, ONE_BITS),
                float_word(GeCommand::TexOffsetU, 0),
                float_word(GeCommand::TexOffsetV, 0),
                cmd_word(GeCommand::Finish, 0),
                cmd_word(GeCommand::End, 0),
            ]);
        }
        r
    }

    /// Turns on the scissor test over the whole screen.
    pub fn scissor_test(self) -> (r: Result<Gfx, GlError>)
        requires
            self.wf(),
        ensures
            r matches Ok(g) && g.wf() && g@ == (GfxModel {
                gl: GlModel {
                    list: self@.gl.list + seq![
                        cmd_word(GeCommand::Scissor1, region_arg(0, 0)),
                        cmd_word(GeCommand::Scissor2, region_arg(479, 271)),
                    ],
                    ..self@.gl
                },
                ..self@
            }),
    {
        let mut g = self;
        let (width, height) = g.size();
        match g.gl.scissor_region(0, 0, width, height) {
            Ok(()) => {},
            Err(e) => return Err(e),
        }
        proof {
            assert(g@.gl.list =~= self@.gl.list + seq![
                cmd_word(GeCommand::Scissor1, region_arg(0, 0)),
                cmd_word(GeCommand::Scissor2, region_arg(479, 271)),
            ]);
        }
        Ok(g)
    }

    /// Adds a 512 by 480 depth buffer (16 bits a texel) from VRAM and turns
    /// on depth testing into it.
    pub fn depth_test(self) -> (g: Gfx)
        requires
            self.wf(),
            alloc_scan_safe(self@.free, extra_buffer_bytes(), 4),
            alloc_outcome(self@.free, extra_buffer_bytes(), 4) is Some,
        ensures
            g.wf(),
            ({
                let addr = alloc_outcome(self@.free, extra_buffer_bytes(), 4).unwrap() as usize;
                &&& took_from(self@.free, g@.free, addr, extra_buffer_bytes())
                &&& g@ == (GfxModel {
                    gl: GlModel { list: self@.gl.list + depth_words(addr), ..self@.gl },
                    free: g@.free,
                    depth: Some(vram_texture(TexturePixelFormat::Psm4444, addr)),
                    ..self@
                })
            }),
    {
        let mut g = self;
        let depth = match Texture::allocate(
            &mut g.vram_allocator,
            Self::BUFFER_WIDTH,
            Self::WIDTH,
            TexturePixelFormat::Psm4444,
            false,
        ) {
            Ok(t) => t,
            Err(_) => {
                assert(false);
                return g;
            },
        };
        g.gl.depth_range_bits(65535, 0, 0xc6ff_ff00, 0x46ff_ff00);
        g.gl.depth_test_function(DepthFunc::GreaterOrEqual);
        g.gl.set_state(GuState::DepthTest, true);
        match g.gl.set_depth_buffer(&depth) {
            Ok(()) => {},
            Err(_) => {
                assert(false);
            },
        }
        g.depth_buffer = Some(depth);
        proof {
            let addr = alloc_outcome(self@.free, extra_buffer_bytes(), 4).unwrap() as usize;
            assert(g@.gl.list =~= self@.gl.list + depth_words(addr));
            assert(g@.free == g.vram_allocator@);
        }
        g
    }

    /// Adds a second 512 by 480 buffer (16 bits a texel) from VRAM, to
    /// render into every other frame.
    pub fn double_buffering(self) -> (g: Gfx)
        requires
            self.wf(),
            alloc_scan_safe(self@.free, extra_buffer_bytes(), 4),
            alloc_outcome(self@.free, extra_buffer_bytes(), 4) is Some,
            alloc_outcome(self@.free, extra_buffer_bytes(), 4).unwrap() >= self@.edram_base,
        ensures
            g.wf(),
            ({
                let addr = alloc_outcome(self@.free, extra_buffer_bytes(), 4).unwrap() as usize;
                &&& took_from(self@.free, g@.free, addr, extra_buffer_bytes())
                &&& g@ == (GfxModel {
                    free: g@.free,
                    double: Some((vram_texture(TexturePixelFormat::Psm5551, addr), false)),
                    ..self@
                })
            }),
    {
        let mut g = self;
        let second = match Texture::allocate(
            &mut g.vram_allocator,
            Self::BUFFER_WIDTH,
            Self::WIDTH,
            TexturePixelFormat::Psm5551,
            false,
        ) {
            Ok(t) => t,
            Err(_) => {
                assert(false);
                return g;
            },
        };
        g.double_buffer = Some((second, false));
        g
    }

    /// Culls back faces, counter-clockwise ones being in front.
    pub fn culling(self) -> (g: Gfx)
        requires
            self.wf(),
        ensures
            g.wf(),
            g@ == (GfxModel {
                gl: GlModel {
                    list: self@.gl.list + seq![cmd_word(GeCommand::Cull, 0), cmd_word(GeCommand::CullFaceEnable, 1)],
                    ..self@.gl
                },
                ..self@
            }),
    {
        let mut g = self;
        g.gl.front_face_direction(FrontFaceDirection::CounterClockwise);
        g.gl.set_state(GuState::CullFace, true);
        proof {
            assert(g@.gl.list =~= self@.gl.list + seq![cmd_word(GeCommand::Cull, 0), cmd_word(GeCommand::CullFaceEnable, 1)]);
        }
        g
    }

    /// Turns on clipping.
    pub fn clip_planes(self) -> (g: Gfx)
        requires
            self.wf(),
        ensures
            g.wf(),
            g@ == (GfxModel {
                gl: GlModel { list: self@.gl.list + seq![cmd_word(GeCommand::DepthClampEnable, 1)], ..self@.gl },
                ..self@
            }),
    {
        let mut g = self;
        g.gl.set_state(GuState::ClipPlanes, true);
        g
    }

    /// Sets the texture scale to 1 and the texture offset to 0.
    pub fn texture_2d(self) -> (g: Gfx)
        requires
            self.wf(),
        ensures
            g.wf(),
            g@ == (GfxModel {
                gl: GlModel {
                    list: self@.gl.list + seq![
                        float_word(GeCommand::TexScaleU, ONE_BITS),
                        float_word(GeCommand::TexScaleV, ONE_BITS),
                        float_word(GeCommand::TexOffsetU, 0),
                        float_word(GeCommand::TexOffsetV, 0),
                    ],
                    ..self@.gl
                },
                ..self@
            }),
    {
        let mut g = self;
        g.gl.texture_scale(ONE_BITS, ONE_BITS);
        g.gl.texture_offset(0, 0);
        proof {
            assert(g@.gl.list =~= self@.gl.list + seq![
                float_word(GeCommand::TexScaleU, ONE_BITS),
                float_word(GeCommand::TexScaleV, ONE_BITS),
                float_word(GeCommand::TexOffsetU, 0),
                float_word(GeCommand::TexOffsetV, 0),
            ]);
        }
        g
    }

    /// Ends the set-up list (the caller then waits for it to run).
    pub fn build(self) -> (r: Result<Gfx, GlError>)
        requires
            self.wf(),
        ensures
            r matches Ok(g) && g.wf() && g@ == (GfxModel {
                gl: GlModel {
                    list: self@.gl.list + seq![cmd_word(GeCommand::Finish, 0), cmd_word(GeCommand::End, 0)],
                    ..self@.gl
                },
                ..self@
            }),
    {
        let mut g = self;
        g.gl.finish();
        Ok(g)
    }

    /// The screen's size.
    pub fn size(&self) -> (s: (u16, u16))
        ensures
            s == (480u16, 272u16),
    {
        (SCREEN_WIDTH as u16, SCREEN_HEIGHT as u16)
    }

    /// The frame buffer.
    pub fn frame_buffer(&self) -> (t: &Texture)
        ensures
            t@ == self@.frame,
    {
        &self.frame_buffer
    }

    /// The depth buffer, if any.
    pub fn depth_buffer(&self) -> (t: Option<&Texture>)
        ensures
            match t {
                Some(d) => self@.depth == Some(d@),
                None => self@.depth is None,
            },
    {
        match &self.depth_buffer {
            Some(d) => Some(d),
            None => None,
        }
    }

    /// The second buffer, if any, and whether the frame buffer holds the
    /// last finished frame.
    pub fn double_buffer(&self) -> (t: Option<(&Texture, bool)>)
        ensures
            match t {
                Some((d, drawn)) => self@.double == Some((d@, drawn)),
                None => self@.double is None,
            },
    {
        match &self.double_buffer {
            Some((d, drawn)) => Some((d, *drawn)),
            None => None,
        }
    }

    /// The graphics library.
    pub fn gl(&self) -> (g: &Gl)
        ensures
            g@ == self@.gl,
    {
        &self.gl
    }

    /// The graphics library, to write into the display list.
    pub fn gl_mut(&mut self) -> (g: &mut Gl)
        requires
            old(self).wf(),
        ensures
            g@ == old(self)@.gl,
            final(self)@ == (GfxModel { gl: final(g)@, ..old(self)@ }),
            final(self).wf(),
    {
        &mut self.gl
    }

    /// The VRAM allocator.
    pub fn vram_allocator(&self) -> (a: &VramAllocator)
        ensures
            a@ == self@.free,
    {
        &self.vram_allocator
    }

    /// Starts a frame: a new display list rendering into the frame buffer,
    /// or, with a second buffer, into the buffer that was not drawn last.
    pub fn start_frame(&mut self)
        requires
            old(self).wf(),
        ensures
            final(self).wf(),
            final(self)@ == started(old(self)@),
    {
        self.gl.start();
        let target_second = match &self.double_buffer {
            Some((_, drawn)) => *drawn,
            None => false,
        };
        if target_second {
            match &self.double_buffer {
                Some((second, _)) => {
                    match self.gl.set_frame_buffer(second, self.edram_base) {
                        Ok(()) => {},
                        Err(_) => {
                            assert(false);
                        },
                    }
                },
                None => {},
            }
        } else {
            match self.gl.set_frame_buffer(&self.frame_buffer, self.edram_base) {
                Ok(()) => {},
                Err(_) => {
                    assert(false);
                },
            }
        }
        let flipped = match self.double_buffer.take() {
            Some((second, drawn)) => Some((second, !drawn)),
            None => None,
        };
        self.double_buffer = flipped;
        proof {
            assert(self@.gl.list =~= frame_buffer_words(render_target(old(self)@), old(self)@.edram_base));
        }
    }

    /// Finishes the frame's display list and says which buffer to show.
    pub fn finish_frame(&mut self) -> (d: Displayed)
        requires
            old(self).wf(),
        ensures
            final(self).wf(),
            final(self)@ == (GfxModel {
                gl: GlModel {
                    list: old(self)@.gl.list + seq![cmd_word(GeCommand::Finish, 0), cmd_word(GeCommand::End, 0)],
                    ..old(self)@.gl
                },
                ..old(self)@
            }),
            d == display_choice(old(self)@),
    {
        self.gl.finish();
        match &self.double_buffer {
            Some((_, drawn)) => {
                if !*drawn {
                    Displayed::DoubleBuffer
                } else {
                    Displayed::FrameBuffer
                }
            },
            None => Displayed::Unchanged,
        }
    }
}

/// With a second buffer, a finished frame shows the buffer it was rendered
/// into; without one, the display is left as it is.
pub proof fn law_frame_shows_its_buffer(g: GfxModel)
    ensures
        g.double is Some ==> displayed_texture(started(g), display_choice(started(g))) == Some(render_target(g)),
        g.double is None ==> display_choice(started(g)) == Displayed::Unchanged,
{
}

/// With a second buffer, consecutive frames render into the two buffers in
/// turn, and two frames bring the buffers back to where they were.
pub proof fn law_frames_alternate(g: GfxModel)
    requires
        g.double is Some,
    ensures
        ({
            let second = g.double.unwrap().0;
            &&& render_target(g) == second ==> render_target(started(g)) == g.frame
            &&& render_target(g) != second ==> render_target(started(g)) == second
            &&& started(started(g)).double == g.double
            &&& started(started(g)).frame == g.frame
        }),
{
}

} // verus!
