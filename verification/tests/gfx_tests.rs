use psp_apis::gfx::gl::{Gl, GlError, I8Mat4, I8Vec4, ListHandle, MatrixMode, split_address};
use psp_apis::gfx::texture::Texture;
use psp_apis::gfx::vram_alloc::VramAllocator;
use psp_apis::gfx::{Displayed, Gfx};
use psp_apis::sys::ge::{GeCommand, encode_command};
use psp_apis::gfx::vertex::const_vt_size;
use psp_apis::sys::gu::{GuState, LightComponent, ShadingModel, TexturePixelFormat, VertexType, gu_init_list};

const VRAM: usize = 0x0400_0000;
const VRAM_SIZE: usize = 0x20_0000;

fn words(gl: &Gl) -> Vec<u32> {
    gl.list().list().to_vec()
}

#[test]
fn encode_command_puts_opcode_above_argument() {
    assert_eq!(encode_command(GeCommand::Finish, 0), 0x0f00_0000);
    assert_eq!(encode_command(GeCommand::OffsetX, 0x7100), 0x4c00_7100);
    // Only the low 24 bits of the argument are kept.
    assert_eq!(encode_command(GeCommand::End, 0xff12_3456), 0x0c12_3456);
}

#[test]
fn split_address_separates_top_byte() {
    assert_eq!(split_address(0x0412_3456), (0x12_3456, 0x04));
}

#[test]
fn list_handle_sends_words() {
    let mut l = ListHandle::new();
    l.send(GeCommand::Finish, 0);
    l.send_parts(GeCommand::FrameBufWidth, 0x04, 512);
    l.send_float_bits(GeCommand::ViewportXCenter, 0x4500_0000);
    assert_eq!(l.list(), &[0x0f00_0000, 0x9d04_0200, 0x4545_0000][..]);
    l.start();
    assert!(l.list().is_empty());
}

#[test]
fn draw_region_rejects_coordinates_past_ten_bits() {
    let mut gl = Gl::new();
    assert!(matches!(gl.draw_region(0, 0, 1024, 10), Err(GlError::InvalidDrawRegion)));
    assert!(words(&gl).is_empty());
    assert!(gl.draw_region(0, 0, 480, 272).is_ok());
    assert_eq!(words(&gl), vec![0x1500_0000, 0x1604_3ddf]);
}

#[test]
fn scissor_region_rejects_coordinates_past_ten_bits() {
    let mut gl = Gl::new();
    assert!(matches!(gl.scissor_region(2000, 0, 10, 10), Err(GlError::InvalidScissorRegion)));
    assert!(gl.scissor_region(1, 2, 3, 4).is_ok());
    assert_eq!(words(&gl)[0] & 0x00ff_ffff, (2 << 10) | 1);
    assert_eq!(words(&gl)[1] & 0x00ff_ffff, (3 << 10) | 2);
}

#[test]
fn set_state_and_matrices_write_their_commands() {
    let mut gl = Gl::new();
    gl.set_state(GuState::DepthTest, true);
    gl.set_state(GuState::CullFace, false);
    gl.shading_model(ShadingModel::Smooth);
    gl.overwrite_matrix(MatrixMode::View, [0x3f80_0000, 0, 0, 0, 0x3f80_0000, 0, 0, 0, 0x3f80_0000, 0, 0, 0]);
    let w = words(&gl);
    assert_eq!(w[0], 0x2300_0001);
    assert_eq!(w[1], 0x1d00_0000);
    assert_eq!(w[2], 0x5000_0001);
    assert_eq!(w.len(), 3 + 13);
    assert_eq!(w[4], (w[4] & 0xff00_0000) | 0x3f_8000);
}

#[test]
fn dither_rows_pack_four_bit_entries() {
    let mut gl = Gl::new();
    let m = I8Mat4 {
        x: I8Vec4 { x: 1, y: 2, z: 3, w: 4 },
        y: I8Vec4 { x: 0, y: 0, z: 0, w: 0 },
        z: I8Vec4 { x: 5, y: 0, z: 0, w: 0 },
        w: I8Vec4 { x: 0, y: 0, z: 0, w: 7 },
    };
    gl.set_dither(&m);
    let w = words(&gl);
    assert_eq!(w[0] & 0x00ff_ffff, 0x4321);
    assert_eq!(w[1] & 0x00ff_ffff, 0);
    assert_eq!(w[2] & 0x00ff_ffff, 5);
    assert_eq!(w[3] & 0x00ff_ffff, 0x7000);
}

#[test]
fn finish_appends_finish_and_end() {
    let mut gl = Gl::new();
    gl.finish();
    assert_eq!(words(&gl), vec![0x0f00_0000, 0x0c00_0000]);
}

#[test]
fn frame_buffer_offset_is_relative_to_vram() {
    let mut a = VramAllocator::init(VRAM, VRAM_SIZE);
    let t = Texture::allocate(&mut a, 512, 272, TexturePixelFormat::Psm5551, false).unwrap();
    let mut gl = Gl::new();
    assert!(gl.set_frame_buffer(&t, VRAM).is_ok());
    assert_eq!(words(&gl), vec![0xd200_0001, 0x9c00_0000, 0x9d00_0200]);
}

#[test]
fn swizzled_texture_cannot_be_displayed() {
    let mut a = VramAllocator::init(VRAM, VRAM_SIZE);
    let mut t = Texture::allocate(&mut a, 64, 64, TexturePixelFormat::Psm8888, false).unwrap();
    let gl = Gl::new();
    let d = gl.set_display_buffer(&t).unwrap();
    assert_eq!(d.vram, Some(VRAM));
    assert_eq!(d.width, 64);
    t.set_swizzled(true);
    assert!(matches!(gl.set_display_buffer(&t), Err(GlError::InvalidFramebuffer)));
    let mut gl = Gl::new();
    assert!(matches!(gl.set_frame_buffer(&t, VRAM), Err(GlError::InvalidFramebuffer)));
}

#[test]
fn gfx_init_writes_the_initial_list() {
    let g = Gfx::init(VRAM, VRAM_SIZE).unwrap();
    let w = words(g.gl());
    assert_eq!(w.len(), 185);
    assert_eq!(&w[..9], &[
        0xd200_0001, 0x9c00_0000, 0x9d00_0200,
        0x1500_0000, 0x1604_3ddf,
        0x4c00_7100, 0x4d00_7780,
        0x4545_0000, 0x4645_0000,
    ][..]);
    assert_eq!(&w[w.len() - 2..], &[0x5000_0001, 0x3600_1010][..]);
    assert_eq!(g.gl().display_size(), Some((480, 272)));
    assert_eq!(g.frame_buffer().vram_addr(), Some(VRAM));
    assert!(g.depth_buffer().is_none());
    assert!(g.double_buffer().is_none());
    assert_eq!(g.size(), (480, 272));
}

#[test]
fn gfx_init_default_places_buffers_one_after_another() {
    let g = Gfx::init_default(VRAM, VRAM_SIZE).unwrap();
    let frame = 512 * 272 * 2;
    let extra = 512 * 480 * 2;
    assert_eq!(g.depth_buffer().unwrap().vram_addr(), Some(VRAM + frame));
    let (second, drawn) = g.double_buffer().unwrap();
    assert_eq!(second.vram_addr(), Some(VRAM + frame + extra));
    assert!(!drawn);
    let w = words(g.gl());
    assert_eq!(&w[w.len() - 2..], &[0x0f00_0000, 0x0c00_0000][..]);
    assert_eq!(w.len(), 185 + 8 + 11);
    // The depth buffer pointer follows the depth range and test commands.
    assert_eq!(w[185 + 6], 0x9e00_0000 | ((VRAM + frame) as u32 & 0x00ff_ffff));
}

#[test]
fn frames_alternate_between_buffers_and_show_what_they_drew() {
    let mut g = Gfx::init_default(VRAM, VRAM_SIZE).unwrap();
    let frame_off = 0u32;
    let second_off = (512 * 272 * 2 + 512 * 480 * 2) as u32;
    g.start_frame();
    assert_eq!(words(g.gl())[1], 0x9c00_0000 | frame_off);
    assert_eq!(g.finish_frame(), Displayed::FrameBuffer);
    g.start_frame();
    assert_eq!(words(g.gl())[1], 0x9c00_0000 | second_off);
    assert_eq!(g.finish_frame(), Displayed::DoubleBuffer);
    g.start_frame();
    assert_eq!(words(g.gl())[1], 0x9c00_0000 | frame_off);
    assert_eq!(words(g.gl()).len(), 3);
}

#[test]
fn frames_without_second_buffer_leave_display() {
    let mut g = Gfx::init(VRAM, VRAM_SIZE).unwrap();
    g.start_frame();
    assert_eq!(words(g.gl()), vec![0xd200_0001, 0x9c00_0000, 0x9d00_0200]);
    assert_eq!(g.finish_frame(), Displayed::Unchanged);
}

#[test]
fn gl_mut_writes_into_the_screen_list() {
    let mut g = Gfx::init(VRAM, VRAM_SIZE).unwrap();
    g.start_frame();
    g.gl_mut().finish();
    assert_eq!(words(g.gl())[3..].to_vec(), vec![0x0f00_0000, 0x0c00_0000]);
}

#[test]
fn display_foreground_reply() {
    assert!(psp_apis::display::is_foreground(1));
    assert!(!psp_apis::display::is_foreground(0));
}

#[test]
fn binding_vertices_checks_sizes_and_index_bits() {
    let vt = VertexType::from_bits_retain(VertexType::VERTEX_16BIT | VertexType::TRANSFORM_2D);
    let size = const_vt_size(vt);
    let mut gl = Gl::new();
    assert!(matches!(gl.bind_vertices(vt, size, 0x0400_1000, 13), Err(GlError::InvalidVertexArraySize)));
    let indexed = VertexType::from_bits_retain(VertexType::VERTEX_16BIT | VertexType::INDEX_16BIT);
    let isize_ = const_vt_size(indexed);
    assert!(matches!(gl.bind_vertices(indexed, isize_, 0x0400_1000, 12), Err(GlError::VertexTypeContainsIndex)));
    assert!(words(&gl).is_empty());
    let n = gl.bind_vertices(vt, size, 0x0412_3456, 12).unwrap();
    assert_eq!(n.get(), 2);
    assert_eq!(words(&gl), vec![0x1280_0100, 0x1004_0000, 0x0112_3456]);
    let mut gl = Gl::new();
    assert!(matches!(
        gl.bind_indexed_vertices(indexed, isize_, 0x1000, 12, 0x2000, 3),
        Err(GlError::InvalidIndexArraySize)
    ));
    assert_eq!(gl.bind_indexed_vertices(indexed, isize_, 0x1000, 12, 0x2000, 6).unwrap().get(), 3);
}

#[test]
fn color_tables_must_not_be_indexed() {
    let mut a = VramAllocator::init(VRAM, VRAM_SIZE);
    let clut = Texture::allocate(&mut a, 16, 1, TexturePixelFormat::Psm8888, false).unwrap();
    let indexed = Texture::allocate(&mut a, 16, 1, TexturePixelFormat::PsmT8, false).unwrap();
    let mut gl = Gl::new();
    assert!(matches!(gl.load_clut(&indexed, 0, 0xff, 0), Err(GlError::InvalidClutFormat)));
    assert!(gl.load_clut(&clut, 0, 0xff, 0).is_ok());
    assert_eq!(words(&gl).len(), 4);
    assert_eq!(words(&gl)[3] & 0x00ff_ffff, 2);
}

#[test]
fn set_matrix_writes_changed_entries_only() {
    let mut gl = Gl::new();
    let mut bits = [0u32; 12];
    let mut changed = [false; 12];
    bits[0] = 0x3f80_0000;
    changed[0] = true;
    bits[1] = 0x4000_0000;
    changed[1] = true;
    bits[5] = 0x4040_0000;
    changed[5] = true;
    gl.set_matrix(MatrixMode::Model, bits, changed);
    let w = words(&gl);
    // Entry 0 after its number, entry 1 right after it, entry 5 after its
    // number again.
    assert_eq!(w.len(), 5);
    assert_eq!(w[0] & 0x00ff_ffff, 0);
    assert_eq!(w[1] & 0x00ff_ffff, 0x3f_8000);
    assert_eq!(w[2] & 0x00ff_ffff, 0x40_0000);
    assert_eq!(w[3] & 0x00ff_ffff, 5);
    assert_eq!(w[4] & 0x00ff_ffff, 0x40_4000);
    assert_eq!(w[0] >> 24, w[3] >> 24);
    assert_eq!(w[1] >> 24, w[4] >> 24);
    let mut gl = Gl::new();
    gl.set_projection_matrix([0; 16], [false; 16]);
    assert!(words(&gl).is_empty());
}

#[test]
fn fog_keeps_the_color_low_bits() {
    let mut gl = Gl::new();
    gl.fog_bits(0x4120_0000, 0x3dcc_cccd, psp_apis::gfx::color::Color32::from_abgr(0xff11_2233));
    let w = words(&gl);
    assert_eq!(w[0] & 0x00ff_ffff, 0x11_2233);
    assert_eq!(w[1] & 0x00ff_ffff, 0x41_2000);
    assert_eq!(w[2] & 0x00ff_ffff, 0x3d_cccc);
}

#[test]
fn light_color_without_components_writes_nothing() {
    let mut gl = Gl::new();
    gl.light_color(7, LightComponent::from_bits_retain(0), psp_apis::gfx::color::Color32::from_abgr(0xff00_00ff));
    assert!(words(&gl).is_empty());
    gl.light_color(1, LightComponent::from_bits_retain(LightComponent::DIFFUSE), psp_apis::gfx::color::Color32::from_abgr(0xff11_2233));
    assert_eq!(words(&gl).len(), 1);
    assert_eq!(words(&gl)[0] & 0x00ff_ffff, 0x11_2233);
}

#[test]
fn start_up_list_sets_every_register_then_ends() {
    let l = gu_init_list();
    assert_eq!(l.len(), 223);
    assert_eq!(&l[..3], &[0x0100_0000, 0x0200_0000, 0x1000_0000]);
    assert_eq!(&l[219..], &[0x0f00_0000, 0x0c00_0000, 0, 0]);
    assert!(l.iter().all(|w| w & 0xff_ffff == 0));
    assert_eq!(l[218], 0xf900_0000);
}
