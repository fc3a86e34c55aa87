//! Building GE display lists.
//!
//! A [`ListHandle`] holds the words of the display list being built; [`Gl`]
//! writes the commands of the graphics library into it. Floating-point
//! arguments are passed as their IEEE-754 bit patterns; the GE takes their
//! upper 24 bits.
use vstd::prelude::*;
use crate::error::NativeError;
use vstd::arithmetic::logarithm::{lemma_log_s, lemma_log0, log};
use crate::gfx::color::{Color32, byte3};
use crate::gfx::texture::{Texture, depthbuffer_format, framebuffer_format};
use crate::gfx::vertex::{VertexSize, IndexItem, index_bytes, index_code};
use crate::sys::ge::{GeCommand, command_word, encode_command};
use crate::sys::gu::{
    AlphaFunc, BlendFactor, BlendOp, ClearFlags, ColorFunc, DepthFunc, FrontFaceDirection,
    GuPrimitive, GuState, GuTexWrapMode, LightComponent, LightMode, LightType, LogicalOperation,
    MipmapLevel, PatchPrimitive, ShadingModel, StencilFunc, StencilOperation, TextureColorComponent,
    TextureEffect, TextureFilter, TextureLevelMode, TextureMapMode, TexturePixelFormat,
    TextureProjectionMapMode, VertexType,
};

verus! {

/// Errors of the graphics library.
#[derive(Clone, Debug)]
pub enum GlError {
    Native(NativeError),
    InvalidScissorRegion,
    InvalidDrawRegion,
    VertexTypeContainsIndex,
    InvalidVertexArraySize,
    InvalidIndexArraySize,
    InvalidClutFormat,
    InvalidFramebuffer,
    ListNotEmpty,
}

impl From<NativeError> for GlError {
    fn from(from: NativeError) -> (e: Self) {
        Self::Native(from)
    }
}

impl vstd::std_specs::convert::FromSpecImpl<NativeError> for GlError {
    open spec fn obeys_from_spec() -> bool {
        true
    }

    open spec fn from_spec(v: NativeError) -> GlError {
        GlError::Native(v)
    }
}

/// The display-list word of `cmd` with argument `arg` (its low 24 bits).
pub open spec fn cmd_word(cmd: GeCommand, arg: usize) -> u32 {
    command_word(cmd, arg as int)
}

proof fn lemma_arg_bits(x: usize)
    by (bit_vector)
    ensures
        x & 0xff_ffff == x % 0x100_0000,
        x >> 24u32 == x / 0x100_0000,
        (x >> 24u32) & 0xff == (x / 0x100_0000) % 0x100,
{
}

/// Splits a 32-bit address into its least significant 24 bits and its most
/// significant 8 bits.
pub fn split_address(ptr: usize) -> (r: (usize, u8))
    ensures
        r.0 == ptr % 0x100_0000,
        r.1 == (ptr / 0x100_0000) % 0x100,
{
    proof {
        lemma_arg_bits(ptr);
    }
    (ptr & 0xff_ffff, ((ptr >> 24u32) & 0xff) as u8)
}

/// The display list being built: the words written since it was started.
pub struct ListHandle {
    list: Vec<u32>,
}

impl View for ListHandle {
    type V = Seq<u32>;

    closed spec fn view(&self) -> Seq<u32> {
        self.list@
    }
}

impl ListHandle {
    /// An empty display list.
    pub fn new() -> (l: Self)
        ensures
            l@ == Seq::<u32>::empty(),
    {
        ListHandle { list: Vec::new() }
    }

    /// Starts a new display list: the words written so far are discarded.
    pub fn start(&mut self)
        ensures
            final(self)@ == Seq::<u32>::empty(),
    {
        self.list.clear();
    }

    /// The words written so far.
    pub fn list(&self) -> (w: &[u32])
        ensures
            w@ == self@,
    {
        self.list.as_slice()
    }

    /// Writes command `id` with the low 24 bits of `data` as argument.
    pub fn send(&mut self, id: GeCommand, data: usize)
        ensures
            final(self)@ == old(self)@.push(cmd_word(id, data)),
    {
        proof {
            lemma_arg_bits(data);
        }
        let w = encode_command(id, (data & 0xff_ffff) as u32);
        self.list.push(w);
    }

    /// Writes command `id` with `data1` in bits 16..24 and `data2` in bits
    /// 0..16 of the argument.
    pub fn send_parts(&mut self, id: GeCommand, data1: u8, data2: u16)
        ensures
            final(self)@ == old(self)@.push(cmd_word(id, (data1 * 0x1_0000 + data2) as usize)),
    {
        proof {
            lemma_parts(data1, data2);
        }
        self.send(id, ((data1 as usize) << 16u32) | data2 as usize);
    }

    /// Writes command `id` with a floating-point argument given by its bit
    /// pattern: the GE takes the upper 24 bits.
    pub fn send_float_bits(&mut self, id: GeCommand, bits: u32)
        ensures
            final(self)@ == old(self)@.push(cmd_word(id, (bits / 0x100) as usize)),
    {
        proof {
            lemma_float_bits(bits);
        }
        self.send(id, (bits >> 8u32) as usize);
    }
}

proof fn lemma_parts(a: u8, b: u16)
    by (bit_vector)
    ensures
        ((a as usize) << 16u32) | (b as usize) == (a as usize) * 0x1_0000 + (b as usize),
{
}

proof fn lemma_float_bits(x: u32)
    by (bit_vector)
    ensures
        x >> 8u32 == x / 0x100,
{
}

/// The enable command of a state (scissor test and doubled fragments are set
/// by other means).
pub open spec fn state_command(state: GuState) -> GeCommand
    recommends
        state != GuState::ScissorTest && state != GuState::Fragment2X,
{
    match state {
        GuState::AlphaTest => GeCommand::AlphaTestEnable,
        GuState::DepthTest => GeCommand::ZTestEnable,
        GuState::StencilTest => GeCommand::StencilTestEnable,
        GuState::Blend => GeCommand::AlphaBlendEnable,
        GuState::CullFace => GeCommand::CullFaceEnable,
        GuState::Dither => GeCommand::DitherEnable,
        GuState::Fog => GeCommand::FogEnable,
        GuState::ClipPlanes => GeCommand::DepthClampEnable,
        GuState::Texture2D => GeCommand::TextureMapEnable,
        GuState::Lighting => GeCommand::LightingEnable,
        GuState::Light0 => GeCommand::LightEnable0,
        GuState::Light1 => GeCommand::LightEnable1,
        GuState::Light2 => GeCommand::LightEnable2,
        GuState::Light3 => GeCommand::LightEnable3,
        GuState::LineSmooth => GeCommand::AntiAliasEnable,
        GuState::PatchCullFace => GeCommand::PatchCullEnable,
        GuState::ColorTest => GeCommand::ColorTestEnable,
        GuState::ColorLogicOp => GeCommand::LogicOpEnable,
        GuState::FaceNormalReverse => GeCommand::ReverseNormal,
        GuState::PatchFace => GeCommand::PatchFacing,
        _ => GeCommand::Nop,
    }
}

/// The command that enables or disables `state`.
pub fn state_to_command(state: GuState) -> (c: GeCommand)
    requires
        state != GuState::ScissorTest,
        state != GuState::Fragment2X,
    ensures
        c == state_command(state),
{
    match state {
        GuState::AlphaTest => GeCommand::AlphaTestEnable,
        GuState::DepthTest => GeCommand::ZTestEnable,
        GuState::StencilTest => GeCommand::StencilTestEnable,
        GuState::Blend => GeCommand::AlphaBlendEnable,
        GuState::CullFace => GeCommand::CullFaceEnable,
        GuState::Dither => GeCommand::DitherEnable,
        GuState::Fog => GeCommand::FogEnable,
        GuState::ClipPlanes => GeCommand::DepthClampEnable,
        GuState::Texture2D => GeCommand::TextureMapEnable,
        GuState::Lighting => GeCommand::LightingEnable,
        GuState::Light0 => GeCommand::LightEnable0,
        GuState::Light1 => GeCommand::LightEnable1,
        GuState::Light2 => GeCommand::LightEnable2,
        GuState::Light3 => GeCommand::LightEnable3,
        GuState::LineSmooth => GeCommand::AntiAliasEnable,
        GuState::PatchCullFace => GeCommand::PatchCullEnable,
        GuState::ColorTest => GeCommand::ColorTestEnable,
        GuState::ColorLogicOp => GeCommand::LogicOpEnable,
        GuState::FaceNormalReverse => GeCommand::ReverseNormal,
        GuState::PatchFace => GeCommand::PatchFacing,
        GuState::ScissorTest => vstd::pervasive::unreached(),
        GuState::Fragment2X => vstd::pervasive::unreached(),
    }
}

/// The matrices the graphics library sets (the projection has its own
/// commands).
#[derive(Copy, Clone, Debug, PartialEq, Eq, Structural)]
pub enum MatrixMode {
    View,
    Model,
    Texture,
}

/// The matrix-number and matrix-data commands of a matrix.
pub open spec fn matrix_commands(mode: MatrixMode) -> (GeCommand, GeCommand) {
    match mode {
        MatrixMode::View => (GeCommand::ViewMatrixNumber, GeCommand::ViewMatrixData),
        MatrixMode::Model => (GeCommand::WorldMatrixNumber, GeCommand::WorldMatrixData),
        MatrixMode::Texture => (GeCommand::TGenMatrixNumber, GeCommand::TGenMatrixData),
    }
}

/// A count of vertices (or indices) bound for drawing.
#[derive(Clone, Copy)]
pub struct VertexCount(u16);

impl View for VertexCount {
    type V = u16;

    closed spec fn view(&self) -> u16 {
        self.0
    }
}

impl VertexCount {
    /// The count.
    pub fn get(self) -> (n: u16)
        ensures
            n == self@,
    {
        self.0
    }
}

/// A 4-vector of signed bytes.
#[derive(Clone, Copy)]
pub struct I8Vec4 {
    pub x: i8,
    pub y: i8,
    pub z: i8,
    pub w: i8,
}

/// A 4x4 matrix of signed bytes (the dither matrix).
#[derive(Clone, Copy)]
pub struct I8Mat4 {
    pub x: I8Vec4,
    pub y: I8Vec4,
    pub z: I8Vec4,
    pub w: I8Vec4,
}

/// The arguments of showing a buffer: its VRAM address (if in VRAM), its row
/// width and its format.
#[derive(Clone, Copy, Debug, PartialEq, Eq, Structural)]
pub struct DisplayBuffer {
    pub vram: Option<usize>,
    pub width: u16,
    pub format: TexturePixelFormat,
}

/// What a [`Gl`] is, seen from outside.
pub struct GlModel {
    /// The words of the display list.
    pub list: Seq<u32>,
    /// The display size, once set.
    pub display_size: Option<(u16, u16)>,
}

/// The graphics library: writes GE commands into its display list.
pub struct Gl {
    list: ListHandle,
    display_size: Option<(u16, u16)>,
}

impl View for Gl {
    type V = GlModel;

    closed spec fn view(&self) -> GlModel {
        GlModel { list: self.list@, display_size: self.display_size }
    }
}


proof fn lemma_ten_bits(x: u16)
    by (bit_vector)
    ensures
        (x >> 10u16 == 0) == (x < 1024),
{
}

/// `new` is `old` with `words` appended to its display list.
pub open spec fn appended(old: GlModel, new: GlModel, words: Seq<u32>) -> bool {
    new.display_size == old.display_size && new.list =~= old.list + words
}

/// The display-list word of `cmd` with a floating-point argument given by
/// its bit pattern (its upper 24 bits).
pub open spec fn float_word(cmd: GeCommand, bits: u32) -> u32 {
    cmd_word(cmd, (bits / 0x100) as usize)
}

/// The words that update a matrix from entry `i` on, the last entry written
/// being `last`: each changed entry's value, after a number command unless
/// it directly follows the last entry written.
pub open spec fn update_words(
    number: GeCommand,
    data: GeCommand,
    bits: Seq<u32>,
    changed: Seq<bool>,
    i: int,
    last: int,
) -> Seq<u32>
    decreases bits.len() - i,
{
    if i < 0 || i >= bits.len() {
        Seq::empty()
    } else if changed[i] {
        (if i != last + 1 { seq![cmd_word(number, i as usize)] } else { Seq::empty() }) + seq![
            float_word(data, bits[i]),
        ] + update_words(number, data, bits, changed, i + 1, i)
    } else {
        update_words(number, data, bits, changed, i + 1, last)
    }
}

/// The component kind of a light: 2 for the unknown component alone, 1 for
/// diffuse with specular (or a negative mask), 0 otherwise.
pub open spec fn light_kind(components: i32) -> usize {
    if components == 8 {
        2
    } else if components == 6 || components < 0 {
        1
    } else {
        0
    }
}

proof fn lemma_kind_bits(b: i32)
    by (bit_vector)
    ensures
        ((b ^ 6) < 1) == (b == 6 || b < 0),
{
}

proof fn lemma_type_bits(t: usize, k: usize)
    by (bit_vector)
    requires
        t < 4,
        k < 4,
    ensures
        ((t & 0x03) << 8u32) | k == t * 0x100 + k,
{
}

proof fn lemma_clear_vertex_type()
    by (bit_vector)
    ensures
        0x100i32 | 0x80_0000i32 == 0x80_0100i32,
        0x80_0100i32 & 0x1800 == 0,
        0x80_0100i32 & 3 == 0,
        (0x80_0100i32 >> 2u32) & 7 == 0,
        (0x80_0100i32 >> 5u32) & 3 == 0,
        (0x80_0100i32 >> 7u32) & 3 == 2,
        (0x80_0100i32 >> 9u32) & 3 == 0,
        (0x80_0100i32 >> 14u32) & 7 == 0,
{
}

proof fn lemma_component_bits(c: i32)
    by (bit_vector)
    ensures
        c & 1 != 0 ==> c & 7 != 0,
        c & 2 != 0 ==> c & 7 != 0,
        c & 4 != 0 ==> c & 7 != 0,
{
}

proof fn lemma_clear_vertex_size()
    ensures
        crate::gfx::vertex::vertex_size_of(0x80_0100) == 6,
{
    lemma_clear_vertex_type();
    assert(crate::gfx::vertex::weights_code(0x80_0100) == 0);
    assert(crate::gfx::vertex::element_sizes(0x80_0100)[4] == 0);
    reveal_with_fuel(crate::gfx::vertex::offset_after, 6);
}

/// The words of `cmd` with each floating-point value of `bits`.
pub open spec fn float_words(cmd: GeCommand, bits: Seq<u32>) -> Seq<u32> {
    Seq::new(bits.len(), |i: int| float_word(cmd, bits[i]))
}

/// The mipmap bias offset: 16 per level, clamped to `-128..=128`.
pub open spec fn level_offset(bias: i8) -> isize {
    let raw = bias * 16;
    (if raw < -128 {
        -128
    } else if raw > 128 {
        128
    } else {
        raw
    }) as isize
}

/// A dither row's argument: entries `x, y, z, w` at bits 0, 4, 8, 12 (each
/// sign-extended, as the hardware word is built).
pub open spec fn dither_row(row: I8Vec4) -> usize {
    ((row.w as usize) << 12u32) | ((row.z as usize) << 8u32) | ((row.y as usize) << 4u32) | (row.x as usize)
}

/// Indexed texel formats, which cannot hold a color table.
pub open spec fn indexed_format(format: TexturePixelFormat) -> bool {
    format == TexturePixelFormat::PsmT4 || format == TexturePixelFormat::PsmT8 || format
        == TexturePixelFormat::PsmT16 || format == TexturePixelFormat::PsmT32
}

proof fn lemma_low_nibble(b: u8)
    by (bit_vector)
    ensures
        b & 0x0f == b % 0x10,
{
}

proof fn lemma_log_fields(h: u32, w: u32)
    by (bit_vector)
    requires
        h < 16,
        w < 16,
    ensures
        (h << 8u32) | w == h * 0x100 + w,
{
}

/// The four coordinates fit the 10-bit fields of a region command.
pub open spec fn region_fits(start_x: u16, start_y: u16, end_x: u16, end_y: u16) -> bool {
    start_x < 1024 && start_y < 1024 && end_x < 1024 && end_y < 1024
}

/// The argument of a region command: `y` in bits 10..20, `x` in bits 0..10.
pub open spec fn region_arg(x: usize, y: usize) -> usize {
    (y << 10u32) | x
}

proof fn lemma_log_u16_max()
    ensures
        vstd::arithmetic::logarithm::log(2, 0xffff) == 15,
{
    lemma_log_s(2, 0xffff);
    lemma_log_s(2, 0x7fff);
    lemma_log_s(2, 0x3fff);
    lemma_log_s(2, 0x1fff);
    lemma_log_s(2, 0xfff);
    lemma_log_s(2, 0x7ff);
    lemma_log_s(2, 0x3ff);
    lemma_log_s(2, 0x1ff);
    lemma_log_s(2, 0xff);
    lemma_log_s(2, 0x7f);
    lemma_log_s(2, 0x3f);
    lemma_log_s(2, 0x1f);
    lemma_log_s(2, 0xf);
    lemma_log_s(2, 0x7);
    lemma_log_s(2, 0x3);
    lemma_log0(2, 1);
}

/// The floor of the base-2 logarithm of `x`.
pub fn ilog2_u16(x: u16) -> (r: u32)
    requires
        x > 0,
    ensures
        r == vstd::arithmetic::logarithm::log(2, x as int),
        r < 16,
{
    let mut v = x;
    let mut r: u32 = 0;
    while v > 1
        invariant
            v >= 1,
            r + vstd::arithmetic::logarithm::log(2, v as int) == vstd::arithmetic::logarithm::log(
                2,
                x as int,
            ),
            r + v as int <= x,
        decreases v,
    {
        proof {
            vstd::arithmetic::logarithm::lemma_log_s(2, v as int);
        }
        v = v / 2;
        r = r + 1;
    }
    proof {
        assert(vstd::arithmetic::logarithm::log(2, v as int) == 0) by {
            vstd::arithmetic::logarithm::lemma_log0(2, v as int);
        }
        lemma_log_u16_max();
        vstd::arithmetic::logarithm::lemma_log_is_ordered(2, x as int, 0xffff);
    }
    r
}


/// The X position command of light `light`.
pub open spec fn light_x_command_spec(light: u8) -> GeCommand {
    match light {
        0 => GeCommand::Light0X,
        1 => GeCommand::Light1X,
        2 => GeCommand::Light2X,
        _ => GeCommand::Light3X,
    }
}

/// The X position command of light `light`.
pub fn light_x_command(light: u8) -> (c: GeCommand)
    requires
        light < 4,
    ensures
        c == light_x_command_spec(light),
{
    match light {
        0 => GeCommand::Light0X,
        1 => GeCommand::Light1X,
        2 => GeCommand::Light2X,
        3 => GeCommand::Light3X,
        _ => vstd::pervasive::unreached(),
    }
}

/// The Y position command of light `light`.
pub open spec fn light_y_command_spec(light: u8) -> GeCommand {
    match light {
        0 => GeCommand::Light0Y,
        1 => GeCommand::Light1Y,
        2 => GeCommand::Light2Y,
        _ => GeCommand::Light3Y,
    }
}

/// The Y position command of light `light`.
pub fn light_y_command(light: u8) -> (c: GeCommand)
    requires
        light < 4,
    ensures
        c == light_y_command_spec(light),
{
    match light {
        0 => GeCommand::Light0Y,
        1 => GeCommand::Light1Y,
        2 => GeCommand::Light2Y,
        3 => GeCommand::Light3Y,
        _ => vstd::pervasive::unreached(),
    }
}

/// The Z position command of light `light`.
pub open spec fn light_z_command_spec(light: u8) -> GeCommand {
    match light {
        0 => GeCommand::Light0Z,
        1 => GeCommand::Light1Z,
        2 => GeCommand::Light2Z,
        _ => GeCommand::Light3Z,
    }
}

/// The Z position command of light `light`.
pub fn light_z_command(light: u8) -> (c: GeCommand)
    requires
        light < 4,
    ensures
        c == light_z_command_spec(light),
{
    match light {
        0 => GeCommand::Light0Z,
        1 => GeCommand::Light1Z,
        2 => GeCommand::Light2Z,
        3 => GeCommand::Light3Z,
        _ => vstd::pervasive::unreached(),
    }
}

/// The X direction command of light `light`.
pub open spec fn light_direction_x_command_spec(light: u8) -> GeCommand {
    match light {
        0 => GeCommand::Light0DirectionX,
        1 => GeCommand::Light1DirectionX,
        2 => GeCommand::Light2DirectionX,
        _ => GeCommand::Light3DirectionX,
    }
}

/// The X direction command of light `light`.
pub fn light_direction_x_command(light: u8) -> (c: GeCommand)
    requires
        light < 4,
    ensures
        c == light_direction_x_command_spec(light),
{
    match light {
        0 => GeCommand::Light0DirectionX,
        1 => GeCommand::Light1DirectionX,
        2 => GeCommand::Light2DirectionX,
        3 => GeCommand::Light3DirectionX,
        _ => vstd::pervasive::unreached(),
    }
}

/// The Y direction command of light `light`.
pub open spec fn light_direction_y_command_spec(light: u8) -> GeCommand {
    match light {
        0 => GeCommand::Light0DirectionY,
        1 => GeCommand::Light1DirectionY,
        2 => GeCommand::Light2DirectionY,
        _ => GeCommand::Light3DirectionY,
    }
}

/// The Y direction command of light `light`.
pub fn light_direction_y_command(light: u8) -> (c: GeCommand)
    requires
        light < 4,
    ensures
        c == light_direction_y_command_spec(light),
{
    match light {
        0 => GeCommand::Light0DirectionY,
        1 => GeCommand::Light1DirectionY,
        2 => GeCommand::Light2DirectionY,
        3 => GeCommand::Light3DirectionY,
        _ => vstd::pervasive::unreached(),
    }
}

/// The Z direction command of light `light`.
pub open spec fn light_direction_z_command_spec(light: u8) -> GeCommand {
    match light {
        0 => GeCommand::Light0DirectionZ,
        1 => GeCommand::Light1DirectionZ,
        2 => GeCommand::Light2DirectionZ,
        _ => GeCommand::Light3DirectionZ,
    }
}

/// The Z direction command of light `light`.
pub fn light_direction_z_command(light: u8) -> (c: GeCommand)
    requires
        light < 4,
    ensures
        c == light_direction_z_command_spec(light),
{
    match light {
        0 => GeCommand::Light0DirectionZ,
        1 => GeCommand::Light1DirectionZ,
        2 => GeCommand::Light2DirectionZ,
        3 => GeCommand::Light3DirectionZ,
        _ => vstd::pervasive::unreached(),
    }
}

/// The type command of light `light`.
pub open spec fn light_type_command_spec(light: u8) -> GeCommand {
    match light {
        0 => GeCommand::LightType0,
        1 => GeCommand::LightType1,
        2 => GeCommand::LightType2,
        _ => GeCommand::LightType3,
    }
}

/// The type command of light `light`.
pub fn light_type_command(light: u8) -> (c: GeCommand)
    requires
        light < 4,
    ensures
        c == light_type_command_spec(light),
{
    match light {
        0 => GeCommand::LightType0,
        1 => GeCommand::LightType1,
        2 => GeCommand::LightType2,
        3 => GeCommand::LightType3,
        _ => vstd::pervasive::unreached(),
    }
}

/// The ambient color command of light `light`.
pub open spec fn light_ambient_command_spec(light: u8) -> GeCommand {
    match light {
        0 => GeCommand::Light0Ambient,
        1 => GeCommand::Light1Ambient,
        2 => GeCommand::Light2Ambient,
        _ => GeCommand::Light3Ambient,
    }
}

/// The ambient color command of light `light`.
pub fn light_ambient_command(light: u8) -> (c: GeCommand)
    requires
        light < 4,
    ensures
        c == light_ambient_command_spec(light),
{
    match light {
        0 => GeCommand::Light0Ambient,
        1 => GeCommand::Light1Ambient,
        2 => GeCommand::Light2Ambient,
        3 => GeCommand::Light3Ambient,
        _ => vstd::pervasive::unreached(),
    }
}

/// The diffuse color command of light `light`.
pub open spec fn light_diffuse_command_spec(light: u8) -> GeCommand {
    match light {
        0 => GeCommand::Light0Diffuse,
        1 => GeCommand::Light1Diffuse,
        2 => GeCommand::Light2Diffuse,
        _ => GeCommand::Light3Diffuse,
    }
}

/// The diffuse color command of light `light`.
pub fn light_diffuse_command(light: u8) -> (c: GeCommand)
    requires
        light < 4,
    ensures
        c == light_diffuse_command_spec(light),
{
    match light {
        0 => GeCommand::Light0Diffuse,
        1 => GeCommand::Light1Diffuse,
        2 => GeCommand::Light2Diffuse,
        3 => GeCommand::Light3Diffuse,
        _ => vstd::pervasive::unreached(),
    }
}

/// The specular color command of light `light`.
pub open spec fn light_specular_command_spec(light: u8) -> GeCommand {
    match light {
        0 => GeCommand::Light0Specular,
        1 => GeCommand::Light1Specular,
        2 => GeCommand::Light2Specular,
        _ => GeCommand::Light3Specular,
    }
}

/// The specular color command of light `light`.
pub fn light_specular_command(light: u8) -> (c: GeCommand)
    requires
        light < 4,
    ensures
        c == light_specular_command_spec(light),
{
    match light {
        0 => GeCommand::Light0Specular,
        1 => GeCommand::Light1Specular,
        2 => GeCommand::Light2Specular,
        3 => GeCommand::Light3Specular,
        _ => vstd::pervasive::unreached(),
    }
}

/// The constant attenuation command of light `light`.
pub open spec fn light_constant_atten_command_spec(light: u8) -> GeCommand {
    match light {
        0 => GeCommand::Light0ConstantAtten,
        1 => GeCommand::Light1ConstantAtten,
        2 => GeCommand::Light2ConstantAtten,
        _ => GeCommand::Light3ConstantAtten,
    }
}

/// The constant attenuation command of light `light`.
pub fn light_constant_atten_command(light: u8) -> (c: GeCommand)
    requires
        light < 4,
    ensures
        c == light_constant_atten_command_spec(light),
{
    match light {
        0 => GeCommand::Light0ConstantAtten,
        1 => GeCommand::Light1ConstantAtten,
        2 => GeCommand::Light2ConstantAtten,
        3 => GeCommand::Light3ConstantAtten,
        _ => vstd::pervasive::unreached(),
    }
}

/// The linear attenuation command of light `light`.
pub open spec fn light_linear_atten_command_spec(light: u8) -> GeCommand {
    match light {
        0 => GeCommand::Light0LinearAtten,
        1 => GeCommand::Light1LinearAtten,
        2 => GeCommand::Light2LinearAtten,
        _ => GeCommand::Light3LinearAtten,
    }
}

/// The linear attenuation command of light `light`.
pub fn light_linear_atten_command(light: u8) -> (c: GeCommand)
    requires
        light < 4,
    ensures
        c == light_linear_atten_command_spec(light),
{
    match light {
        0 => GeCommand::Light0LinearAtten,
        1 => GeCommand::Light1LinearAtten,
        2 => GeCommand::Light2LinearAtten,
        3 => GeCommand::Light3LinearAtten,
        _ => vstd::pervasive::unreached(),
    }
}

/// The quadratic attenuation command of light `light`.
pub open spec fn light_quadratic_atten_command_spec(light: u8) -> GeCommand {
    match light {
        0 => GeCommand::Light0QuadtraticAtten,
        1 => GeCommand::Light1QuadtraticAtten,
        2 => GeCommand::Light2QuadtraticAtten,
        _ => GeCommand::Light3QuadtraticAtten,
    }
}

/// The quadratic attenuation command of light `light`.
pub fn light_quadratic_atten_command(light: u8) -> (c: GeCommand)
    requires
        light < 4,
    ensures
        c == light_quadratic_atten_command_spec(light),
{
    match light {
        0 => GeCommand::Light0QuadtraticAtten,
        1 => GeCommand::Light1QuadtraticAtten,
        2 => GeCommand::Light2QuadtraticAtten,
        3 => GeCommand::Light3QuadtraticAtten,
        _ => vstd::pervasive::unreached(),
    }
}

/// The exponent attenuation command of light `light`.
pub open spec fn light_exponent_atten_command_spec(light: u8) -> GeCommand {
    match light {
        0 => GeCommand::Light0ExponentAtten,
        1 => GeCommand::Light1ExponentAtten,
        2 => GeCommand::Light2ExponentAtten,
        _ => GeCommand::Light3ExponentAtten,
    }
}

/// The exponent attenuation command of light `light`.
pub fn light_exponent_atten_command(light: u8) -> (c: GeCommand)
    requires
        light < 4,
    ensures
        c == light_exponent_atten_command_spec(light),
{
    match light {
        0 => GeCommand::Light0ExponentAtten,
        1 => GeCommand::Light1ExponentAtten,
        2 => GeCommand::Light2ExponentAtten,
        3 => GeCommand::Light3ExponentAtten,
        _ => vstd::pervasive::unreached(),
    }
}

/// The cutoff command of light `light`.
pub open spec fn light_cutoff_command_spec(light: u8) -> GeCommand {
    match light {
        0 => GeCommand::Light0CutoffAtten,
        1 => GeCommand::Light1CutoffAtten,
        2 => GeCommand::Light2CutoffAtten,
        _ => GeCommand::Light3CutoffAtten,
    }
}

/// The cutoff command of light `light`.
pub fn light_cutoff_command(light: u8) -> (c: GeCommand)
    requires
        light < 4,
    ensures
        c == light_cutoff_command_spec(light),
{
    match light {
        0 => GeCommand::Light0CutoffAtten,
        1 => GeCommand::Light1CutoffAtten,
        2 => GeCommand::Light2CutoffAtten,
        3 => GeCommand::Light3CutoffAtten,
        _ => vstd::pervasive::unreached(),
    }
}

/// The weight command of morph target `index`.
pub open spec fn morph_weight_command_spec(index: u8) -> GeCommand {
    match index {
        0 => GeCommand::MorphWeight0,
        1 => GeCommand::MorphWeight1,
        2 => GeCommand::MorphWeight2,
        3 => GeCommand::MorphWeight3,
        4 => GeCommand::MorphWeight4,
        5 => GeCommand::MorphWeight5,
        6 => GeCommand::MorphWeight6,
        _ => GeCommand::MorphWeight7,
    }
}

/// The weight command of morph target `index`.
pub fn morph_weight_command(index: u8) -> (c: GeCommand)
    requires
        index < 8,
    ensures
        c == morph_weight_command_spec(index),
{
    match index {
        0 => GeCommand::MorphWeight0,
        1 => GeCommand::MorphWeight1,
        2 => GeCommand::MorphWeight2,
        3 => GeCommand::MorphWeight3,
        4 => GeCommand::MorphWeight4,
        5 => GeCommand::MorphWeight5,
        6 => GeCommand::MorphWeight6,
        7 => GeCommand::MorphWeight7,
        _ => vstd::pervasive::unreached(),
    }
}

/// The address command of a mipmap level.
pub open spec fn tex_addr_command_spec(level: MipmapLevel) -> GeCommand {
    match level {
        MipmapLevel::Level0 => GeCommand::TexAddr0,
        MipmapLevel::Level1 => GeCommand::TexAddr1,
        MipmapLevel::Level2 => GeCommand::TexAddr2,
        MipmapLevel::Level3 => GeCommand::TexAddr3,
        MipmapLevel::Level4 => GeCommand::TexAddr4,
        MipmapLevel::Level5 => GeCommand::TexAddr5,
        MipmapLevel::Level6 => GeCommand::TexAddr6,
        MipmapLevel::Level7 => GeCommand::TexAddr7,
    }
}

/// The address command of a mipmap level.
pub fn tex_addr_command(level: MipmapLevel) -> (c: GeCommand)
    ensures
        c == tex_addr_command_spec(level),
{
    match level {
        MipmapLevel::Level0 => GeCommand::TexAddr0,
        MipmapLevel::Level1 => GeCommand::TexAddr1,
        MipmapLevel::Level2 => GeCommand::TexAddr2,
        MipmapLevel::Level3 => GeCommand::TexAddr3,
        MipmapLevel::Level4 => GeCommand::TexAddr4,
        MipmapLevel::Level5 => GeCommand::TexAddr5,
        MipmapLevel::Level6 => GeCommand::TexAddr6,
        MipmapLevel::Level7 => GeCommand::TexAddr7,
    }
}

/// The buffer width command of a mipmap level.
pub open spec fn tex_buf_width_command_spec(level: MipmapLevel) -> GeCommand {
    match level {
        MipmapLevel::Level0 => GeCommand::TexBufWidth0,
        MipmapLevel::Level1 => GeCommand::TexBufWidth1,
        MipmapLevel::Level2 => GeCommand::TexBufWidth2,
        MipmapLevel::Level3 => GeCommand::TexBufWidth3,
        MipmapLevel::Level4 => GeCommand::TexBufWidth4,
        MipmapLevel::Level5 => GeCommand::TexBufWidth5,
        MipmapLevel::Level6 => GeCommand::TexBufWidth6,
        MipmapLevel::Level7 => GeCommand::TexBufWidth7,
    }
}

/// The buffer width command of a mipmap level.
pub fn tex_buf_width_command(level: MipmapLevel) -> (c: GeCommand)
    ensures
        c == tex_buf_width_command_spec(level),
{
    match level {
        MipmapLevel::Level0 => GeCommand::TexBufWidth0,
        MipmapLevel::Level1 => GeCommand::TexBufWidth1,
        MipmapLevel::Level2 => GeCommand::TexBufWidth2,
        MipmapLevel::Level3 => GeCommand::TexBufWidth3,
        MipmapLevel::Level4 => GeCommand::TexBufWidth4,
        MipmapLevel::Level5 => GeCommand::TexBufWidth5,
        MipmapLevel::Level6 => GeCommand::TexBufWidth6,
        MipmapLevel::Level7 => GeCommand::TexBufWidth7,
    }
}

/// The size command of a mipmap level.
pub open spec fn tex_size_command_spec(level: MipmapLevel) -> GeCommand {
    match level {
        MipmapLevel::Level0 => GeCommand::TexSize0,
        MipmapLevel::Level1 => GeCommand::TexSize1,
        MipmapLevel::Level2 => GeCommand::TexSize2,
        MipmapLevel::Level3 => GeCommand::TexSize3,
        MipmapLevel::Level4 => GeCommand::TexSize4,
        MipmapLevel::Level5 => GeCommand::TexSize5,
        MipmapLevel::Level6 => GeCommand::TexSize6,
        MipmapLevel::Level7 => GeCommand::TexSize7,
    }
}

/// The size command of a mipmap level.
pub fn tex_size_command(level: MipmapLevel) -> (c: GeCommand)
    ensures
        c == tex_size_command_spec(level),
{
    match level {
        MipmapLevel::Level0 => GeCommand::TexSize0,
        MipmapLevel::Level1 => GeCommand::TexSize1,
        MipmapLevel::Level2 => GeCommand::TexSize2,
        MipmapLevel::Level3 => GeCommand::TexSize3,
        MipmapLevel::Level4 => GeCommand::TexSize4,
        MipmapLevel::Level5 => GeCommand::TexSize5,
        MipmapLevel::Level6 => GeCommand::TexSize6,
        MipmapLevel::Level7 => GeCommand::TexSize7,
    }
}

impl Gl {
    /// A library with an empty display list and no display size.
    pub fn new() -> (g: Self)
        ensures
            g@.list == Seq::<u32>::empty(),
            g@.display_size is None,
    {
        Gl { list: ListHandle::new(), display_size: None }
    }

    /// The display list.
    pub fn list(&self) -> (l: &ListHandle)
        ensures
            l@ == self@.list,
    {
        &self.list
    }

    /// Starts a new display list.
    pub fn start(&mut self)
        ensures
            final(self)@.list == Seq::<u32>::empty(),
            final(self)@.display_size == old(self)@.display_size,
    {
        self.list.start();
    }

    /// The display size, once set.
    pub fn display_size(&self) -> (s: Option<(u16, u16)>)
        ensures
            s == self@.display_size,
    {
        self.display_size
    }

    /// What to show `display` with: its VRAM address (`None` for a texture
    /// in RAM, whose buffer the caller passes), row width and format;
    /// `InvalidFramebuffer` when the texture cannot be displayed.
    pub fn set_display_buffer(&self, display: &Texture) -> (r: Result<DisplayBuffer, GlError>)
        ensures
            r is Ok <==> !display@.swizzled && framebuffer_format(display@.format),
            r is Err ==> r matches Err(GlError::InvalidFramebuffer),
            r matches Ok(d) ==> d == (DisplayBuffer {
                vram: match display@.vram {
                    Some((addr, _)) => Some(addr),
                    None => None,
                },
                width: display@.width,
                format: display@.format,
            }),
    {
        if !display.can_be_framebuffer() {
            return Err(GlError::InvalidFramebuffer);
        }
        Ok(DisplayBuffer { vram: display.vram_addr(), width: display.width(), format: display.format() })
    }

    /// Records the display size (the caller sets the display mode).
    pub fn set_display_size(&mut self, width: u16, height: u16)
        ensures
            final(self)@.list == old(self)@.list,
            final(self)@.display_size == Some((width, height)),
    {
        self.display_size = Some((width, height));
    }

    /// Renders into `frame`, a texture in VRAM at or after `edram_base`;
    /// `InvalidFramebuffer` when the texture cannot be rendered to.
    pub fn set_frame_buffer(&mut self, frame: &Texture, edram_base: usize) -> (r: Result<(), GlError>)
        requires
            !frame@.swizzled && framebuffer_format(frame@.format) ==> (frame@.vram matches Some((addr, _)) && addr >= edram_base),
        ensures
            final(self)@.display_size == old(self)@.display_size,
            r is Ok <==> !frame@.swizzled && framebuffer_format(frame@.format),
            r is Err ==> (r matches Err(GlError::InvalidFramebuffer)) && final(self)@.list == old(self)@.list,
            r is Ok ==> ({
                let offset = (frame@.vram.unwrap().0 - edram_base) as usize;
                final(self)@.list == old(self)@.list
                    .push(cmd_word(GeCommand::FramebufPixFormat, frame@.format.raw() as usize))
                    .push(cmd_word(GeCommand::FrameBufPtr, offset % 0x100_0000))
                    .push(cmd_word(GeCommand::FrameBufWidth, (((offset / 0x100_0000) % 0x100) * 0x1_0000 + frame@.width) as usize))
            }),
    {
        if !frame.can_be_framebuffer() {
            return Err(GlError::InvalidFramebuffer);
        }
        let addr = match frame.vram_addr() {
            Some(a) => a,
            None => vstd::pervasive::unreached(),
        };
        let (frame1, frame2) = split_address(addr - edram_base);
        self.list.send(GeCommand::FramebufPixFormat, frame.format().value() as usize);
        self.list.send(GeCommand::FrameBufPtr, frame1);
        self.list.send_parts(GeCommand::FrameBufWidth, frame2, frame.width());
        Ok(())
    }

    /// Uses `depth`, a texture in VRAM, as the depth buffer;
    /// `InvalidFramebuffer` when its format cannot hold depth.
    pub fn set_depth_buffer(&mut self, depth: &Texture) -> (r: Result<(), GlError>)
        requires
            depthbuffer_format(depth@.format) ==> depth@.vram is Some,
        ensures
            final(self)@.display_size == old(self)@.display_size,
            r is Ok <==> depthbuffer_format(depth@.format),
            r is Err ==> (r matches Err(GlError::InvalidFramebuffer)) && final(self)@.list == old(self)@.list,
            r is Ok ==> ({
                let addr = depth@.vram.unwrap().0;
                final(self)@.list == old(self)@.list
                    .push(cmd_word(GeCommand::ZBufPtr, addr))
                    .push(cmd_word(GeCommand::ZBufWidth, ((addr & 0xff00_0000) >> 8u32) | depth@.width as usize))
            }),
    {
        match depth.format() {
            TexturePixelFormat::Psm4444 | TexturePixelFormat::Psm5650 | TexturePixelFormat::Psm5551 => {},
            _ => return Err(GlError::InvalidFramebuffer),
        }
        let addr = match depth.vram_addr() {
            Some(a) => a,
            None => vstd::pervasive::unreached(),
        };
        self.list.send(GeCommand::ZBufPtr, addr);
        self.list.send(GeCommand::ZBufWidth, ((addr & 0xff00_0000) >> 8u32) | depth.width() as usize);
        Ok(())
    }

    /// Sets the drawing region to `[start_x, end_x) x [start_y, end_y)`;
    /// `InvalidDrawRegion` when a coordinate does not fit in 10 bits.
    pub fn draw_region(&mut self, start_x: u16, start_y: u16, end_x: u16, end_y: u16) -> (r: Result<(), GlError>)
        requires
            region_fits(start_x, start_y, end_x, end_y) ==> end_x >= 1 && end_y >= 1,
        ensures
            final(self)@.display_size == old(self)@.display_size,
            r is Ok <==> region_fits(start_x, start_y, end_x, end_y),
            r is Err ==> (r matches Err(GlError::InvalidDrawRegion)) && final(self)@.list == old(self)@.list,
            r is Ok ==> final(self)@.list == old(self)@.list
                .push(cmd_word(GeCommand::Region1, region_arg(start_x as usize, start_y as usize)))
                .push(cmd_word(GeCommand::Region2, region_arg((end_x - 1) as usize, (end_y - 1) as usize))),
    {
        proof {
            lemma_ten_bits(start_x);
            lemma_ten_bits(start_y);
            lemma_ten_bits(end_x);
            lemma_ten_bits(end_y);
        }
        if !(start_x >> 10u16 == 0 && start_y >> 10u16 == 0 && end_x >> 10u16 == 0 && end_y >> 10u16 == 0) {
            return Err(GlError::InvalidDrawRegion);
        }
        self.list.send(GeCommand::Region1, ((start_y as usize) << 10u32) | start_x as usize);
        let (end_x, end_y) = (end_x as usize - 1, end_y as usize - 1);
        self.list.send(GeCommand::Region2, (end_y << 10u32) | end_x);
        Ok(())
    }

    /// Sets the scissor region to `[start_x, end_x) x [start_y, end_y)`;
    /// `InvalidScissorRegion` when a coordinate does not fit in 10 bits.
    pub fn scissor_region(&mut self, start_x: u16, start_y: u16, end_x: u16, end_y: u16) -> (r: Result<(), GlError>)
        requires
            region_fits(start_x, start_y, end_x, end_y) ==> end_x >= 1 && end_y >= 1,
        ensures
            final(self)@.display_size == old(self)@.display_size,
            r is Ok <==> region_fits(start_x, start_y, end_x, end_y),
            r is Err ==> (r matches Err(GlError::InvalidScissorRegion)) && final(self)@.list == old(self)@.list,
            r is Ok ==> final(self)@.list == old(self)@.list
                .push(cmd_word(GeCommand::Scissor1, region_arg(start_x as usize, start_y as usize)))
                .push(cmd_word(GeCommand::Scissor2, region_arg((end_x - 1) as usize, (end_y - 1) as usize))),
    {
        proof {
            lemma_ten_bits(start_x);
            lemma_ten_bits(start_y);
            lemma_ten_bits(end_x);
            lemma_ten_bits(end_y);
        }
        if !(start_x >> 10u16 == 0 && start_y >> 10u16 == 0 && end_x >> 10u16 == 0 && end_y >> 10u16 == 0) {
            return Err(GlError::InvalidScissorRegion);
        }
        self.list.send(GeCommand::Scissor1, ((start_y as usize) << 10u32) | start_x as usize);
        let (end_x, end_y) = (end_x as usize - 1, end_y as usize - 1);
        self.list.send(GeCommand::Scissor2, (end_y << 10u32) | end_x);
        Ok(())
    }

    /// Depth values pass the depth test according to `function`.
    pub fn depth_test_function(&mut self, function: DepthFunc)
        ensures
            appended(old(self)@, final(self)@, seq![cmd_word(GeCommand::ZTest, function.raw() as usize)]),
    {
        self.list.send(GeCommand::ZTest, function.value() as usize);
    }

    /// Disables (`true`) or enables depth writes.
    pub fn mask_depth_writes(&mut self, mask: bool)
        ensures
            appended(old(self)@, final(self)@, seq![cmd_word(GeCommand::ZWriteDisable, if mask { 1 } else { 0 })]),
    {
        self.list.send(GeCommand::ZWriteDisable, if mask { 1 } else { 0 });
    }

    /// Sets the viewport's depth scale and center (float bit patterns).
    pub fn viewport_z(&mut self, scale: u32, center: u32)
        ensures
            appended(old(self)@, final(self)@, seq![
                float_word(GeCommand::ViewportZScale, scale),
                float_word(GeCommand::ViewportZCenter, center),
            ]),
    {
        self.list.send_float_bits(GeCommand::ViewportZScale, scale);
        self.list.send_float_bits(GeCommand::ViewportZCenter, center);
    }

    /// Sets the viewport: its center, then its scales, which are half the
    /// width and minus half the height (float bit patterns, computed by the
    /// caller).
    pub fn viewport_bits(&mut self, center_x: u32, center_y: u32, scale_x: u32, scale_y: u32)
        ensures
            appended(old(self)@, final(self)@, seq![
                float_word(GeCommand::ViewportXCenter, center_x),
                float_word(GeCommand::ViewportYCenter, center_y),
                float_word(GeCommand::ViewportXScale, scale_x),
                float_word(GeCommand::ViewportYScale, scale_y),
            ]),
    {
        self.list.send_float_bits(GeCommand::ViewportXCenter, center_x);
        self.list.send_float_bits(GeCommand::ViewportYCenter, center_y);
        self.list.send_float_bits(GeCommand::ViewportXScale, scale_x);
        self.list.send_float_bits(GeCommand::ViewportYScale, scale_y);
    }

    /// Sets the depth range from `near` (the larger, closer value) to `far`:
    /// the depth scale and center (float bit patterns, computed by the caller
    /// as `(far - near) / 2` and `(near + far) / 2` plus the offset), then the
    /// depth limits.
    pub fn depth_range_bits(&mut self, near: u16, far: u16, scale: u32, center: u32)
        ensures
            appended(old(self)@, final(self)@, seq![
                float_word(GeCommand::ViewportZScale, scale),
                float_word(GeCommand::ViewportZCenter, center),
                cmd_word(GeCommand::MaxZ, near as usize),
                cmd_word(GeCommand::MinZ, far as usize),
            ]),
    {
        self.list.send_float_bits(GeCommand::ViewportZScale, scale);
        self.list.send_float_bits(GeCommand::ViewportZCenter, center);
        self.list.send(GeCommand::MaxZ, near as usize);
        self.list.send(GeCommand::MinZ, far as usize);
    }

    /// Sets the fog: its color (the low 24 bits of the ABGR word), its far
    /// distance and the inverse of its depth (float bit patterns, computed by
    /// the caller as `far` and `1 / (far - near)`).
    pub fn fog_bits(&mut self, far: u32, distance: u32, color: Color32)
        ensures
            appended(old(self)@, final(self)@, seq![
                cmd_word(GeCommand::FogColor, (color@ % 0x100_0000) as usize),
                float_word(GeCommand::Fog1, far),
                float_word(GeCommand::Fog2, distance),
            ]),
    {
        let abgr = color.as_abgr() as usize;
        proof {
            lemma_arg_bits(abgr);
        }
        self.list.send(GeCommand::FogColor, abgr & 0xff_ffff);
        self.list.send_float_bits(GeCommand::Fog1, far);
        self.list.send_float_bits(GeCommand::Fog2, distance);
    }

    /// Sets which winding is front-facing: culling gets 0 for
    /// counter-clockwise, 1 for clockwise.
    pub fn front_face_direction(&mut self, direction: FrontFaceDirection)
        ensures
            appended(old(self)@, final(self)@, seq![cmd_word(GeCommand::Cull, match direction {
                FrontFaceDirection::CounterClockwise => 0,
                FrontFaceDirection::Clockwise => 1,
            })]),
    {
        self.list.send(
            GeCommand::Cull,
            match direction {
                FrontFaceDirection::CounterClockwise => 0,
                FrontFaceDirection::Clockwise => 1,
            },
        );
    }

    /// Ends the display list: a finish command, then an end command.
    pub fn finish(&mut self)
        ensures
            appended(old(self)@, final(self)@, seq![
                cmd_word(GeCommand::Finish, 0),
                cmd_word(GeCommand::End, 0),
            ]),
    {
        self.list.send(GeCommand::Finish, 0);
        self.list.send(GeCommand::End, 0);
    }

    /// Calls the display list at `list_addr`: its upper byte goes to the base
    /// register, its lower 24 bits to the call.
    pub fn call_list(&mut self, list_addr: usize)
        ensures
            appended(old(self)@, final(self)@, seq![
                cmd_word(GeCommand::Base, ((list_addr / 0x100_0000) % 0x100) as usize),
                cmd_word(GeCommand::Call, list_addr % 0x100_0000),
            ]),
    {
        let (ptr1, ptr2) = split_address(list_addr);
        self.list.send(GeCommand::Base, ptr2 as usize);
        self.list.send(GeCommand::Call, ptr1);
    }

    /// Binds `vertices_len` bytes of vertices at `vertices_addr`:
    /// `InvalidVertexArraySize` unless the length is a nonzero multiple of
    /// the vertex size, `VertexTypeContainsIndex` for an indexed type;
    /// otherwise the number of vertices.
    pub fn bind_vertices(
        &mut self,
        vertex_type: VertexType,
        vertex_size: VertexSize,
        vertices_addr: usize,
        vertices_len: usize,
    ) -> (r: Result<VertexCount, GlError>)
        ensures
            (vertex_size@ == 0 || vertices_len % vertex_size@ != 0) ==> (r matches Err(GlError::InvalidVertexArraySize)) && final(self)@ == old(self)@,
            !(vertex_size@ == 0 || vertices_len % vertex_size@ != 0) && vertex_type@ & 0x1800 != 0 ==> (r matches Err(GlError::VertexTypeContainsIndex)) && final(self)@ == old(self)@,
            !(vertex_size@ == 0 || vertices_len % vertex_size@ != 0) && vertex_type@ & 0x1800 == 0 ==> {
                &&& r matches Ok(n) && n@ == (vertices_len / vertex_size@) as u16
                &&& appended(old(self)@, final(self)@, seq![
                    cmd_word(GeCommand::VertexType, vertex_type@ as u32 as usize),
                    cmd_word(GeCommand::Base, (vertices_addr >> 8u32) & 0xf_0000),
                    cmd_word(GeCommand::Vaddr, vertices_addr % 0x100_0000),
                ])
            },
    {
        let vertex_size = vertex_size.get();
        if vertex_size == 0 || vertices_len % vertex_size != 0 {
            return Err(GlError::InvalidVertexArraySize);
        }
        proof {
            assert(0x800i32 | 0x1000i32 == 0x1800i32) by (bit_vector);
        }
        if vertex_type.intersects(VertexType::from_bits_retain(VertexType::INDEX_8BIT | VertexType::INDEX_16BIT)) {
            return Err(GlError::VertexTypeContainsIndex);
        }
        self.list.send(GeCommand::VertexType, (#[verifier::truncate] (vertex_type.bits() as u32)) as usize);
        self.list.send(GeCommand::Base, (vertices_addr >> 8u32) & 0xf_0000);
        proof {
            lemma_arg_bits(vertices_addr);
        }
        self.list.send(GeCommand::Vaddr, vertices_addr & 0xff_ffff);
        Ok(VertexCount(#[verifier::truncate] ((vertices_len / vertex_size) as u16)))
    }

    /// Binds `indices_len` bytes of indices at `indices_addr` and
    /// `vertices_len` bytes of vertices at `vertices_addr`:
    /// `InvalidVertexArraySize` unless the vertex bytes are a nonzero
    /// multiple of the vertex size, `InvalidIndexArraySize` unless the index
    /// bytes are a multiple of the (nonzero) index size; otherwise the
    /// number of indices.
    pub fn bind_indexed_vertices(
        &mut self,
        vertex_type: VertexType,
        vertex_size: VertexSize,
        vertices_addr: usize,
        vertices_len: usize,
        indices_addr: usize,
        indices_len: usize,
    ) -> (r: Result<VertexCount, GlError>)
        ensures
            (vertex_size@ == 0 || vertices_len % vertex_size@ != 0) ==> (r matches Err(GlError::InvalidVertexArraySize)) && final(self)@ == old(self)@,
            !(vertex_size@ == 0 || vertices_len % vertex_size@ != 0) && (index_bytes(index_code(vertex_type@)) == 0 || (indices_len as int) % index_bytes(index_code(vertex_type@)) != 0) ==> (r matches Err(GlError::InvalidIndexArraySize)) && final(self)@ == old(self)@,
            !(vertex_size@ == 0 || vertices_len % vertex_size@ != 0) && !(index_bytes(index_code(vertex_type@)) == 0 || (indices_len as int) % index_bytes(index_code(vertex_type@)) != 0) ==> {
                &&& r matches Ok(n) && n@ == ((indices_len as int) / index_bytes(index_code(vertex_type@))) as u16
                &&& appended(old(self)@, final(self)@, seq![
                    cmd_word(GeCommand::VertexType, vertex_type@ as u32 as usize),
                    cmd_word(GeCommand::Base, (indices_addr >> 8u32) & 0xf_0000),
                    cmd_word(GeCommand::Iaddr, indices_addr % 0x100_0000),
                    cmd_word(GeCommand::Base, (vertices_addr >> 8u32) & 0xf_0000),
                    cmd_word(GeCommand::Vaddr, vertices_addr % 0x100_0000),
                ])
            },
    {
        let vertex_size = vertex_size.get();
        if vertex_size == 0 || vertices_len % vertex_size != 0 {
            return Err(GlError::InvalidVertexArraySize);
        }
        let index_size = vertex_type.index_size();
        if index_size == 0 || indices_len % index_size != 0 {
            return Err(GlError::InvalidIndexArraySize);
        }
        self.list.send(GeCommand::VertexType, (#[verifier::truncate] (vertex_type.bits() as u32)) as usize);
        proof {
            lemma_arg_bits(indices_addr);
            lemma_arg_bits(vertices_addr);
        }
        self.list.send(GeCommand::Base, (indices_addr >> 8u32) & 0xf_0000);
        self.list.send(GeCommand::Iaddr, indices_addr & 0xff_ffff);
        self.list.send(GeCommand::Base, (vertices_addr >> 8u32) & 0xf_0000);
        self.list.send(GeCommand::Vaddr, vertices_addr & 0xff_ffff);
        Ok(VertexCount(#[verifier::truncate] ((indices_len / index_size) as u16)))
    }

    /// Draws `vertex_count` bound vertices as primitives `prim` (the caller
    /// then lets the GE run up to here).
    pub fn draw_primitives(&mut self, vertex_count: VertexCount, prim: GuPrimitive)
        ensures
            appended(old(self)@, final(self)@, seq![cmd_word(GeCommand::Prim, (prim.raw() * 0x1_0000 + vertex_count@) as usize)]),
    {
        self.list.send_parts(GeCommand::Prim, prim.value() as u8, vertex_count.get());
    }

    /// Tests the bounding box given by `vertex_count` bound vertices.
    pub fn draw_bounding_box(&mut self, vertex_count: VertexCount)
        ensures
            appended(old(self)@, final(self)@, seq![cmd_word(GeCommand::BoundingBox, vertex_count@ as usize)]),
    {
        self.list.send(GeCommand::BoundingBox, vertex_count.get() as usize);
    }

    /// Draws a bezier surface of `u_vertices` by `v_vertices` control points.
    pub fn draw_bezier(&mut self, u_vertices: u8, v_vertices: u8)
        ensures
            appended(old(self)@, final(self)@, seq![cmd_word(GeCommand::Bezier, ((v_vertices as usize) << 8u32) | (u_vertices as usize))]),
    {
        self.list.send(GeCommand::Bezier, ((v_vertices as usize) << 8u32) | (u_vertices as usize));
    }

    /// Draws a spline surface.
    pub fn draw_spline(&mut self, u_vertices: u8, v_vertices: u8, u_edge: u8, v_edge: u8)
        ensures
            appended(old(self)@, final(self)@, seq![cmd_word(GeCommand::Spline,
                ((v_edge as usize) << 18u32) | ((u_edge as usize) << 16u32) | ((v_vertices as usize) << 8u32) | (u_vertices as usize))]),
    {
        self.list.send(
            GeCommand::Spline,
            ((v_edge as usize) << 18u32) | ((u_edge as usize) << 16u32) | ((v_vertices as usize) << 8u32) | (u_vertices as usize),
        );
    }

    /// Enables or disables `state`.
    pub fn set_state(&mut self, state: GuState, enable: bool)
        requires
            state != GuState::ScissorTest,
            state != GuState::Fragment2X,
        ensures
            appended(old(self)@, final(self)@, seq![cmd_word(state_command(state), if enable { 1 } else { 0 })]),
    {
        self.list.send(state_to_command(state), if enable { 1 } else { 0 });
    }

    /// Sets the position of light `light` (float bit patterns).
    pub fn light_position(&mut self, light: u8, vec: [u32; 3])
        requires
            light < 4,
        ensures
            appended(old(self)@, final(self)@, seq![
                float_word(light_x_command_spec(light), vec[0]),
                float_word(light_y_command_spec(light), vec[1]),
                float_word(light_z_command_spec(light), vec[2]),
            ]),
    {
        self.list.send_float_bits(light_x_command(light), vec[0]);
        self.list.send_float_bits(light_y_command(light), vec[1]);
        self.list.send_float_bits(light_z_command(light), vec[2]);
    }

    /// Sets the direction of light `light` (float bit patterns).
    pub fn light_direction(&mut self, light: u8, vec: [u32; 3])
        requires
            light < 4,
        ensures
            appended(old(self)@, final(self)@, seq![
                float_word(light_direction_x_command_spec(light), vec[0]),
                float_word(light_direction_y_command_spec(light), vec[1]),
                float_word(light_direction_z_command_spec(light), vec[2]),
            ]),
    {
        self.list.send_float_bits(light_direction_x_command(light), vec[0]);
        self.list.send_float_bits(light_direction_y_command(light), vec[1]);
        self.list.send_float_bits(light_direction_z_command(light), vec[2]);
    }

    /// Sets the type of light `light` and which of its components it has.
    pub fn light_type_components(&mut self, light: u8, light_type: LightType, components: LightComponent)
        requires
            light < 4,
        ensures
            appended(old(self)@, final(self)@, seq![cmd_word(
                light_type_command_spec(light),
                (light_type.raw() * 0x100 + light_kind(components@)) as usize,
            )]),
    {
        proof {
            lemma_kind_bits(components@);
        }
        let kind: usize = if components.bits() == 8 {
            2
        } else {
            if components.bits() ^ 6 < 1 { 1 } else { 0 }
        };
        proof {
            lemma_type_bits(light_type.raw() as usize, kind);
        }
        self.list.send(light_type_command(light), ((light_type.value() as usize & 0x03) << 8u32) | kind);
    }

    /// Sets the color of the given components of light `light`.
    pub fn light_color(&mut self, light: u8, component: LightComponent, color: Color32)
        requires
            component@ & 7 != 0 ==> light < 4,
        ensures
            appended(old(self)@, final(self)@,
                (if component@ & 1 != 0 { seq![cmd_word(light_ambient_command_spec(light), (color@ % 0x100_0000) as usize)] } else { Seq::empty() })
                + (if component@ & 2 != 0 { seq![cmd_word(light_diffuse_command_spec(light), (color@ % 0x100_0000) as usize)] } else { Seq::empty() })
                + (if component@ & 4 != 0 { seq![cmd_word(light_specular_command_spec(light), (color@ % 0x100_0000) as usize)] } else { Seq::empty() })),
    {
        let c = color.as_bgr() as usize;
        proof {
            lemma_component_bits(component@);
        }
        if component.intersects(LightComponent::from_bits_retain(LightComponent::AMBIENT)) {
            self.list.send(light_ambient_command(light), c);
        }
        if component.intersects(LightComponent::from_bits_retain(LightComponent::DIFFUSE)) {
            self.list.send(light_diffuse_command(light), c);
        }
        if component.intersects(LightComponent::from_bits_retain(LightComponent::SPECULAR)) {
            self.list.send(light_specular_command(light), c);
        }
    }

    /// Sets the attenuation factors of light `light` (float bit patterns).
    pub fn light_attenuation(&mut self, light: u8, constant: u32, linear: u32, quadratic: u32, exponent: u32)
        requires
            light < 4,
        ensures
            appended(old(self)@, final(self)@, seq![
                float_word(light_constant_atten_command_spec(light), constant),
                float_word(light_linear_atten_command_spec(light), linear),
                float_word(light_quadratic_atten_command_spec(light), quadratic),
                float_word(light_exponent_atten_command_spec(light), exponent),
            ]),
    {
        self.list.send_float_bits(light_constant_atten_command(light), constant);
        self.list.send_float_bits(light_linear_atten_command(light), linear);
        self.list.send_float_bits(light_quadratic_atten_command(light), quadratic);
        self.list.send_float_bits(light_exponent_atten_command(light), exponent);
    }

    /// Sets the spot cutoff of light `light` (float bit pattern).
    pub fn light_cutoff(&mut self, light: u8, cutoff: u32)
        requires
            light < 4,
        ensures
            appended(old(self)@, final(self)@, seq![float_word(light_cutoff_command_spec(light), cutoff)]),
    {
        self.list.send_float_bits(light_cutoff_command(light), cutoff);
    }

    /// Sets the light mode.
    pub fn light_mode(&mut self, mode: LightMode)
        ensures
            appended(old(self)@, final(self)@, seq![cmd_word(GeCommand::LightMode, mode.raw() as usize)]),
    {
        self.list.send(GeCommand::LightMode, mode.value() as usize);
    }

    /// The two corner vertices (16-bit x, y, z) of the sprite that `clear`
    /// draws over the display: `(width, height, depth)` and `(0, 0, depth)`.
    pub fn clear_vertices(&self, depth: u16) -> (v: [[i16; 3]; 2])
        requires
            self@.display_size is Some,
        ensures
            v[0]@ == seq![self@.display_size.unwrap().0 as i16, self@.display_size.unwrap().1 as i16, depth as i16],
            v[1]@ == seq![0i16, 0i16, depth as i16],
    {
        let (width, height) = match self.display_size {
            Some(s) => s,
            None => vstd::pervasive::unreached(),
        };
        let (w, h, d) = (#[verifier::truncate] (width as i16), #[verifier::truncate] (height as i16), #[verifier::truncate] (depth as i16));
        let v = [[w, h, d], [0, 0, d]];
        proof {
            assert(v[0]@ =~= seq![w, h, d]);
            assert(v[1]@ =~= seq![0i16, 0i16, d]);
        }
        v
    }

    /// Clears the buffers selected by `flags` by drawing a sprite over the
    /// display, from the two vertices of [`Gl::clear_vertices`] stored at
    /// `vertices_addr`.
    pub fn clear(&mut self, flags: ClearFlags, vertices_addr: usize) -> (r: Result<(), GlError>)
        requires
            old(self)@.display_size is Some,
        ensures
            r is Ok,
            appended(old(self)@, final(self)@, seq![
                cmd_word(GeCommand::ClearMode, (((flags@ & 7) as usize) << 8u32) | 1),
                cmd_word(GeCommand::VertexType, 0x80_0100),
                cmd_word(GeCommand::Base, (vertices_addr >> 8u32) & 0xf_0000),
                cmd_word(GeCommand::Vaddr, vertices_addr % 0x100_0000),
                cmd_word(GeCommand::Prim, 0x6_0002),
                cmd_word(GeCommand::ClearMode, 0),
            ]),
    {
        let vt = VertexType::from_bits_retain(VertexType::VERTEX_16BIT).union(
            VertexType::from_bits_retain(VertexType::TRANSFORM_2D),
        );
        proof {
            lemma_clear_vertex_type();
        }
        let size = crate::gfx::vertex::const_vt_size(vt);
        proof {
            lemma_clear_vertex_size();
        }
        self.clear_mode(flags);
        let v = match self.bind_vertices(vt, size, vertices_addr, 12) {
            Ok(v) => v,
            Err(e) => return Err(e),
        };
        self.draw_primitives(v, GuPrimitive::Sprites);
        self.disable_clear();
        Ok(())
    }

    /// Enters clear mode for the buffers selected by `flags` (color, stencil,
    /// depth).
    pub fn clear_mode(&mut self, flags: ClearFlags)
        ensures
            appended(old(self)@, final(self)@, seq![cmd_word(GeCommand::ClearMode, (((flags@ & 7) as usize) << 8u32) | 1)]),
    {
        let relevant_flags = flags.intersection(
            ClearFlags::from_bits_retain(ClearFlags::COLOR_BUFFER_BIT).union(
                ClearFlags::from_bits_retain(ClearFlags::STENCIL_BUFFER_BIT),
            ).union(ClearFlags::from_bits_retain(ClearFlags::DEPTH_BUFFER_BIT)),
        );
        proof {
            assert(1u32 | 2u32 | 4u32 == 7u32) by (bit_vector);
        }
        self.list.send(GeCommand::ClearMode, ((relevant_flags.bits() as usize) << 8u32) | 0x01);
    }

    /// Leaves clear mode.
    pub fn disable_clear(&mut self)
        ensures
            appended(old(self)@, final(self)@, seq![cmd_word(GeCommand::ClearMode, 0)]),
    {
        self.list.send(GeCommand::ClearMode, 0);
    }

    /// Masks color and alpha writes with `mask`.
    pub fn mask_pixel(&mut self, mask: Color32)
        ensures
            appended(old(self)@, final(self)@, seq![
                cmd_word(GeCommand::MaskRgb, (mask@ % 0x100_0000) as usize),
                cmd_word(GeCommand::MaskAlpha, byte3(mask@) as usize),
            ]),
    {
        self.list.send(GeCommand::MaskRgb, mask.as_bgr() as usize);
        self.list.send(GeCommand::MaskAlpha, mask.a() as usize);
    }

    /// Sets the clear color: the material's ambient color follows it, and
    /// the ambient material and light are set to it.
    pub fn clear_color(&mut self, color: Color32)
        ensures
            appended(old(self)@, final(self)@, seq![
                cmd_word(GeCommand::MaterialUpdate, 1),
                cmd_word(GeCommand::MaterialAmbient, (color@ % 0x100_0000) as usize),
                cmd_word(GeCommand::MaterialAlpha, byte3(color@) as usize),
                cmd_word(GeCommand::AmbientColor, (color@ % 0x100_0000) as usize),
                cmd_word(GeCommand::AmbientAlpha, byte3(color@) as usize),
            ]),
    {
        self.material_update(LightComponent::from_bits_retain(LightComponent::AMBIENT));
        proof {
            assert(1i32 & 0b111 == 1) by (bit_vector);
        }
        self.material_ambient(color);
        self.ambient(color);
    }

    /// Sets the color test function, reference color and mask.
    pub fn color_function(&mut self, func: ColorFunc, color: Color32, mask: usize)
        ensures
            appended(old(self)@, final(self)@, seq![
                cmd_word(GeCommand::ColorTest, func.raw() as usize),
                cmd_word(GeCommand::ColorRef, (color@ % 0x100_0000) as usize),
                cmd_word(GeCommand::ColorTestmask, mask),
            ]),
    {
        let f = func.value() as usize;
        proof {
            assert(f & 0x03 == f) by (bit_vector)
                requires f < 4usize;
        }
        self.list.send(GeCommand::ColorTest, f & 0x03);
        self.list.send(GeCommand::ColorRef, color.as_bgr() as usize);
        self.list.send(GeCommand::ColorTestmask, mask);
    }

    /// Sets which material components follow the vertex color.
    pub fn color_material(&mut self, components: LightComponent)
        ensures
            appended(old(self)@, final(self)@, seq![cmd_word(GeCommand::MaterialUpdate, components@ as u32 as usize)]),
    {
        self.list.send(GeCommand::MaterialUpdate, (#[verifier::truncate] (components.bits() as u32)) as usize);
    }

    /// Sets the alpha test function, reference value and mask.
    pub fn alpha_function(&mut self, func: AlphaFunc, value: usize, mask: usize)
        ensures
            appended(old(self)@, final(self)@, seq![cmd_word(GeCommand::AlphaTest,
                func.raw() as usize | ((value & 0xff) << 8u32) | ((mask & 0xff) << 16u32))]),
    {
        let arg = func.value() as usize | ((value & 0xff) << 8u32) | ((mask & 0xff) << 16u32);
        self.list.send(GeCommand::AlphaTest, arg);
    }

    /// Sets the ambient light color and alpha.
    pub fn ambient(&mut self, color: Color32)
        ensures
            appended(old(self)@, final(self)@, seq![
                cmd_word(GeCommand::AmbientColor, (color@ % 0x100_0000) as usize),
                cmd_word(GeCommand::AmbientAlpha, byte3(color@) as usize),
            ]),
    {
        self.list.send(GeCommand::AmbientColor, color.as_bgr() as usize);
        self.list.send(GeCommand::AmbientAlpha, color.a() as usize);
    }

    /// Sets the material's emissive color.
    pub fn material_emissive(&mut self, color: Color32)
        ensures
            appended(old(self)@, final(self)@, seq![cmd_word(GeCommand::MaterialEmissive, (color@ % 0x100_0000) as usize)]),
    {
        self.list.send(GeCommand::MaterialEmissive, color.as_bgr() as usize);
    }

    /// Sets the material's ambient color and alpha.
    pub fn material_ambient(&mut self, color: Color32)
        ensures
            appended(old(self)@, final(self)@, seq![
                cmd_word(GeCommand::MaterialAmbient, (color@ % 0x100_0000) as usize),
                cmd_word(GeCommand::MaterialAlpha, byte3(color@) as usize),
            ]),
    {
        self.list.send(GeCommand::MaterialAmbient, color.as_bgr() as usize);
        self.list.send(GeCommand::MaterialAlpha, color.a() as usize);
    }

    /// Sets the material's diffuse color.
    pub fn material_diffuse(&mut self, color: Color32)
        ensures
            appended(old(self)@, final(self)@, seq![cmd_word(GeCommand::MaterialDiffuse, (color@ % 0x100_0000) as usize)]),
    {
        self.list.send(GeCommand::MaterialDiffuse, color.as_bgr() as usize);
    }

    /// Sets the material's specular color.
    pub fn material_specular(&mut self, color: Color32)
        ensures
            appended(old(self)@, final(self)@, seq![cmd_word(GeCommand::MaterialSpecular, (color@ % 0x100_0000) as usize)]),
    {
        self.list.send(GeCommand::MaterialSpecular, color.as_bgr() as usize);
    }

    /// Sets which material components follow the vertex color (ambient,
    /// diffuse, specular bits only).
    pub fn material_update(&mut self, update: LightComponent)
        ensures
            appended(old(self)@, final(self)@, seq![cmd_word(GeCommand::MaterialUpdate, (update@ as usize) & 0b111)]),
    {
        self.list.send(GeCommand::MaterialUpdate, (#[verifier::truncate] (update.bits() as usize)) & 0b111);
    }

    /// Sets the stencil test function, reference value and mask.
    pub fn stencil_function(&mut self, func: StencilFunc, ref_: u8, mask: u8)
        ensures
            appended(old(self)@, final(self)@, seq![cmd_word(GeCommand::StencilTest,
                func.raw() as usize | ((ref_ as usize) << 8u32) | ((mask as usize) << 16u32))]),
    {
        self.list.send(
            GeCommand::StencilTest,
            func.value() as usize | ((ref_ as usize) << 8u32) | ((mask as usize) << 16u32),
        );
    }

    /// Sets the stencil operations on stencil fail, depth fail and pass.
    pub fn stencil_operation(&mut self, fail: StencilOperation, zfail: StencilOperation, zpass: StencilOperation)
        ensures
            appended(old(self)@, final(self)@, seq![cmd_word(GeCommand::StencilOp,
                fail.raw() as usize | ((zfail.raw() as usize) << 8u32) | ((zpass.raw() as usize) << 16u32))]),
    {
        self.list.send(
            GeCommand::StencilOp,
            fail.value() as usize | ((zfail.value() as usize) << 8u32) | ((zpass.value() as usize) << 16u32),
        );
    }

    /// Sets the blending operation, factors and fixed colors.
    pub fn blend_function(&mut self, op: BlendOp, src: BlendFactor, dst: BlendFactor, src_fix: usize, dst_fix: usize)
        requires
            src_fix < 0x100_0000,
            dst_fix < 0x100_0000,
        ensures
            appended(old(self)@, final(self)@, seq![
                cmd_word(GeCommand::BlendMode, ((op.raw() as usize) << 8u32) | ((dst.raw() as usize) << 4u32) | src.raw() as usize),
                cmd_word(GeCommand::BlendFixedA, src_fix),
                cmd_word(GeCommand::BlendFixedB, dst_fix),
            ]),
    {
        self.list.send(
            GeCommand::BlendMode,
            ((op.value() as usize) << 8u32) | ((dst.value() as usize) << 4u32) | src.value() as usize,
        );
        self.list.send(GeCommand::BlendFixedA, src_fix);
        self.list.send(GeCommand::BlendFixedB, dst_fix);
    }

    /// Sets the logical operation applied to pixels.
    pub fn logical_operation(&mut self, op: LogicalOperation)
        ensures
            appended(old(self)@, final(self)@, seq![cmd_word(GeCommand::LogicOp, op.raw() as usize)]),
    {
        self.list.send(GeCommand::LogicOp, op.value() as usize);
    }

    /// Sets the specular power (float bit pattern).
    pub fn specular_coeff(&mut self, power: u32)
        ensures
            appended(old(self)@, final(self)@, seq![float_word(GeCommand::MaterialSpecularCoef, power)]),
    {
        self.list.send_float_bits(GeCommand::MaterialSpecularCoef, power);
    }

    /// Sets the screen offset, in pixels (the GE takes 1/16 pixels).
    pub fn offset(&mut self, x: usize, y: usize)
        ensures
            appended(old(self)@, final(self)@, seq![
                cmd_word(GeCommand::OffsetX, x << 4u32),
                cmd_word(GeCommand::OffsetY, y << 4u32),
            ]),
    {
        self.list.send(GeCommand::OffsetX, x << 4u32);
        self.list.send(GeCommand::OffsetY, y << 4u32);
    }

    /// Writes `cmd` once for each floating-point value of `bits`.
    fn send_floats(&mut self, cmd: GeCommand, bits: &[u32])
        ensures
            appended(old(self)@, final(self)@, float_words(cmd, bits@)),
    {
        let ghost start = self@;
        let mut i: usize = 0;
        while i < bits.len()
            invariant
                0 <= i <= bits@.len(),
                appended(start, self@, float_words(cmd, bits@.take(i as int))),
            decreases bits@.len() - i,
        {
            self.list.send_float_bits(cmd, bits[i]);
            proof {
                assert(float_words(cmd, bits@.take(i + 1)) =~= float_words(cmd, bits@.take(i as int)).push(
                    float_word(cmd, bits@[i as int]),
                ));
            }
            i += 1;
        }
        proof {
            assert(bits@.take(bits@.len() as int) =~= bits@);
        }
    }

    /// The matrix-number and matrix-data commands of a matrix.
    pub fn matrix_to_commands(matrix_mode: MatrixMode) -> (c: (GeCommand, GeCommand))
        ensures
            c == matrix_commands(matrix_mode),
    {
        match matrix_mode {
            MatrixMode::View => (GeCommand::ViewMatrixNumber, GeCommand::ViewMatrixData),
            MatrixMode::Model => (GeCommand::WorldMatrixNumber, GeCommand::WorldMatrixData),
            MatrixMode::Texture => (GeCommand::TGenMatrixNumber, GeCommand::TGenMatrixData),
        }
    }

    /// Writes the entries of a matrix marked as changed: each after a
    /// number command, unless it directly follows the last entry written.
    fn send_changed_entries(&mut self, number_cmd: GeCommand, data_cmd: GeCommand, bits: &[u32], changed: &[bool])
        requires
            bits@.len() == changed@.len(),
        ensures
            appended(old(self)@, final(self)@, update_words(number_cmd, data_cmd, bits@, changed@, 0, 0)),
    {
        let ghost start = self@;
        let mut last: usize = 0;
        let mut i: usize = 0;
        while i < bits.len()
            invariant
                0 <= i <= bits@.len(),
                bits@.len() == changed@.len(),
                last <= i,
                self@.display_size == start.display_size,
                self@.list + update_words(number_cmd, data_cmd, bits@, changed@, i as int, last as int)
                    =~= start.list + update_words(number_cmd, data_cmd, bits@, changed@, 0, 0),
            decreases bits@.len() - i,
        {
            let ghost before = self@.list;
            if changed[i] {
                if i != last + 1 {
                    self.list.send(number_cmd, i);
                }
                self.list.send_float_bits(data_cmd, bits[i]);
                proof {
                    assert(self@.list + update_words(number_cmd, data_cmd, bits@, changed@, i + 1, i as int)
                        =~= before + update_words(number_cmd, data_cmd, bits@, changed@, i as int, last as int));
                }
                last = i;
            }
            i += 1;
        }
    }

    /// Updates a 3x4 matrix: writes the values (float bit patterns) of the
    /// entries marked as changed, each after a number command unless it
    /// directly follows the last entry written.
    pub fn set_matrix(&mut self, matrix_mode: MatrixMode, matrix: [u32; 12], changed: [bool; 12])
        ensures
            appended(old(self)@, final(self)@, update_words(
                matrix_commands(matrix_mode).0,
                matrix_commands(matrix_mode).1,
                matrix@,
                changed@,
                0,
                0,
            )),
    {
        let (number_cmd, data_cmd) = Self::matrix_to_commands(matrix_mode);
        self.send_changed_entries(number_cmd, data_cmd, matrix.as_slice(), changed.as_slice());
    }

    /// Updates the 4x4 projection matrix as [`Gl::set_matrix`] does.
    pub fn set_projection_matrix(&mut self, matrix: [u32; 16], changed: [bool; 16])
        ensures
            appended(old(self)@, final(self)@, update_words(
                GeCommand::ProjMatrixNumber,
                GeCommand::ProjMatrixData,
                matrix@,
                changed@,
                0,
                0,
            )),
    {
        self.send_changed_entries(GeCommand::ProjMatrixNumber, GeCommand::ProjMatrixData, matrix.as_slice(), changed.as_slice());
    }

    /// Loads a 3x4 matrix from its twelve values (float bit patterns),
    /// starting at element 0.
    pub fn overwrite_matrix(&mut self, matrix_mode: MatrixMode, matrix: [u32; 12])
        ensures
            appended(old(self)@, final(self)@, seq![cmd_word(matrix_commands(matrix_mode).0, 0)]
                + float_words(matrix_commands(matrix_mode).1, matrix@)),
    {
        let (number_cmd, data_cmd) = Self::matrix_to_commands(matrix_mode);
        self.list.send(number_cmd, 0);
        self.send_floats(data_cmd, matrix.as_slice());
    }

    /// Loads the 4x4 projection matrix from its sixteen values (float bit
    /// patterns), starting at element 0.
    pub fn overwrite_projection_matrix(&mut self, matrix: [u32; 16])
        ensures
            appended(old(self)@, final(self)@, seq![float_word(GeCommand::ProjMatrixNumber, 0)]
                + float_words(GeCommand::ProjMatrixData, matrix@)),
    {
        self.list.send_float_bits(GeCommand::ProjMatrixNumber, 0);
        self.send_floats(GeCommand::ProjMatrixData, matrix.as_slice());
    }

    /// Loads bone matrix `index` from its twelve values (float bit patterns).
    pub fn set_bone_matrix(&mut self, index: u8, matrix: [u32; 12])
        ensures
            appended(old(self)@, final(self)@, seq![cmd_word(GeCommand::BoneMatrixNumber, (index * 12) as usize)]
                + float_words(GeCommand::BoneMatrixData, matrix@)),
    {
        self.list.send(GeCommand::BoneMatrixNumber, (index as usize) * 12);
        self.send_floats(GeCommand::BoneMatrixData, matrix.as_slice());
    }

    /// Sets the texture environment color.
    pub fn texture_env_color(&mut self, color: Color32)
        ensures
            appended(old(self)@, final(self)@, seq![cmd_word(GeCommand::TexEnvColor, (color@ % 0x100_0000) as usize)]),
    {
        self.list.send(GeCommand::TexEnvColor, color.as_bgr() as usize);
    }

    /// Flushes the texture cache.
    pub fn texture_flush(&mut self)
        ensures
            appended(old(self)@, final(self)@, seq![float_word(GeCommand::TexFlush, 0)]),
    {
        self.list.send_float_bits(GeCommand::TexFlush, 0);
    }

    /// Sets the minifying and magnifying texture filters.
    pub fn texture_filter(&mut self, min: TextureFilter, mag: TextureFilter)
        ensures
            appended(old(self)@, final(self)@, seq![cmd_word(GeCommand::TexFilter, ((mag.raw() as usize) << 8u32) | (min.raw() as usize))]),
    {
        self.list.send(GeCommand::TexFilter, ((mag.value() as usize) << 8u32) | (min.value() as usize));
    }

    /// Sets how textures combine with fragments.
    pub fn texture_function(&mut self, tfx: TextureEffect, tcc: TextureColorComponent, fragment_2x: bool)
        ensures
            appended(old(self)@, final(self)@, seq![cmd_word(GeCommand::TexFunc,
                ((tcc.raw() as usize) << 8u32) | (tfx.raw() as usize) | (if fragment_2x { 1usize } else { 0usize }))]),
    {
        self.list.send(
            GeCommand::TexFunc,
            ((tcc.value() as usize) << 8u32) | (tfx.value() as usize) | (if fragment_2x { 1usize } else { 0usize }),
        );
    }

    /// Sets mipmap level `mipmap` to the texels at `buffer_addr`, of the
    /// given size and stride, then flushes the texture cache.
    pub fn texture_image(&mut self, mipmap: MipmapLevel, buffer_addr: usize, size: (u16, u16), stride: u16)
        requires
            size.0 > 0,
            size.1 > 0,
        ensures
            appended(old(self)@, final(self)@, seq![
                cmd_word(tex_addr_command_spec(mipmap), buffer_addr % 0x100_0000),
                cmd_word(tex_buf_width_command_spec(mipmap), (((buffer_addr / 0x100_0000) % 0x10) * 0x1_0000 + stride) as usize),
                cmd_word(tex_size_command_spec(mipmap), (log(2, size.1 as int) * 0x100 + log(2, size.0 as int)) as usize),
                float_word(GeCommand::TexFlush, 0),
            ]),
    {
        let (tbp1, tbp2) = split_address(buffer_addr);
        self.list.send(tex_addr_command(mipmap), tbp1);
        proof {
            lemma_low_nibble(tbp2);
        }
        self.list.send_parts(tex_buf_width_command(mipmap), tbp2 & 0x0f, stride);
        let (lw, lh) = (ilog2_u16(size.0), ilog2_u16(size.1));
        proof {
            lemma_log_fields(lh, lw);
        }
        self.list.send(tex_size_command(mipmap), ((lh << 8u32) | lw) as usize);
        self.texture_flush();
    }

    /// Sets the texture level mode and the mipmap bias (in 1/16 levels,
    /// clamped to -128..=128).
    pub fn texture_level_mode(&mut self, mode: TextureLevelMode, bias: i8)
        ensures
            appended(old(self)@, final(self)@, seq![cmd_word(GeCommand::TexLevel,
                ((level_offset(bias) as usize) << 16u32) | mode.raw() as usize)]),
    {
        let raw = bias as isize * 16;
        let offset = if raw < -128 {
            -128isize
        } else if raw > 128 {
            128isize
        } else {
            raw
        };
        self.list.send(GeCommand::TexLevel, ((#[verifier::truncate] (offset as usize)) << 16u32) | mode.value() as usize);
    }

    /// Sets the texture map and projection modes.
    pub fn texture_map_mode(&mut self, mode: TextureMapMode, proj_mode: TextureProjectionMapMode)
        ensures
            appended(old(self)@, final(self)@, seq![cmd_word(GeCommand::TexMapMode, ((proj_mode.raw() as usize) << 8u32) | mode.raw() as usize)]),
    {
        self.list.send(GeCommand::TexMapMode, ((proj_mode.value() as usize) << 8u32) | mode.value() as usize);
    }

    /// Sets the light sources used for environment mapping.
    pub fn texture_env_map_matrix(&mut self, u: usize, v: usize)
        ensures
            appended(old(self)@, final(self)@, seq![cmd_word(GeCommand::TexShadeLs, (v << 8u32) | (u & 0x03))]),
    {
        self.list.send(GeCommand::TexShadeLs, (v << 8u32) | (u & 0x03));
    }

    /// Sets the number of mipmaps, whether several color tables are used and
    /// whether the texels are swizzled.
    pub fn texture_mode(&mut self, max_mips: MipmapLevel, multi_clut: bool, swizzle: bool)
        ensures
            appended(old(self)@, final(self)@, seq![cmd_word(GeCommand::TexMode,
                ((max_mips.raw() as usize) << 16u32) | ((if multi_clut { 1usize } else { 0usize }) << 8u32) | (if swizzle { 1usize } else { 0usize }))]),
    {
        self.list.send(
            GeCommand::TexMode,
            ((max_mips.value() as usize) << 16u32) | ((if multi_clut { 1usize } else { 0usize }) << 8u32) | (if swizzle { 1usize } else { 0usize }),
        );
    }

    /// Sets the texel format.
    pub fn texture_format(&mut self, format: TexturePixelFormat)
        ensures
            appended(old(self)@, final(self)@, seq![cmd_word(GeCommand::TexFormat, format.raw() as usize)]),
    {
        self.list.send(GeCommand::TexFormat, format.value() as usize);
    }

    /// Sets the texture offset (float bit patterns; 3D pipeline only).
    pub fn texture_offset(&mut self, u: u32, v: u32)
        ensures
            appended(old(self)@, final(self)@, seq![float_word(GeCommand::TexOffsetU, u), float_word(GeCommand::TexOffsetV, v)]),
    {
        self.list.send_float_bits(GeCommand::TexOffsetU, u);
        self.list.send_float_bits(GeCommand::TexOffsetV, v);
    }

    /// Sets the texture scale (float bit patterns; 3D pipeline only).
    pub fn texture_scale(&mut self, u: u32, v: u32)
        ensures
            appended(old(self)@, final(self)@, seq![float_word(GeCommand::TexScaleU, u), float_word(GeCommand::TexScaleV, v)]),
    {
        self.list.send_float_bits(GeCommand::TexScaleU, u);
        self.list.send_float_bits(GeCommand::TexScaleV, v);
    }

    /// Sets the texture level-of-detail slope (float bit pattern).
    pub fn texture_lod_slope(&mut self, slope: u32)
        ensures
            appended(old(self)@, final(self)@, seq![float_word(GeCommand::TexLodSlope, slope)]),
    {
        self.list.send_float_bits(GeCommand::TexLodSlope, slope);
    }

    /// Sets how texture coordinates wrap in each direction.
    pub fn texture_wrap(&mut self, u: GuTexWrapMode, v: GuTexWrapMode)
        ensures
            appended(old(self)@, final(self)@, seq![cmd_word(GeCommand::TexWrap,
                (((v.raw() as usize) & 0xff) << 8u32) | ((u.raw() as usize) & 0xff))]),
    {
        self.list.send(GeCommand::TexWrap, (((v.value() as usize) & 0xff) << 8u32) | ((u.value() as usize) & 0xff));
    }

    /// Binds a texture held in VRAM: its format, its mode (one color table)
    /// and its texels as mipmap level `mipmap`.
    pub fn texture(&mut self, mipmap: MipmapLevel, texture: &Texture)
        requires
            texture@.vram is Some,
            texture@.width > 0,
            texture@.height > 0,
        ensures
            appended(old(self)@, final(self)@, seq![
                cmd_word(GeCommand::TexFormat, texture@.format.raw() as usize),
                cmd_word(GeCommand::TexMode,
                    ((mipmap.raw() as usize) << 16u32) | (0usize << 8u32) | (if texture@.swizzled { 1usize } else { 0usize })),
                cmd_word(tex_addr_command_spec(mipmap), texture@.vram.unwrap().0 % 0x100_0000),
                cmd_word(tex_buf_width_command_spec(mipmap), (((texture@.vram.unwrap().0 / 0x100_0000) % 0x10) * 0x1_0000 + texture@.width) as usize),
                cmd_word(tex_size_command_spec(mipmap), (log(2, texture@.height as int) * 0x100 + log(2, texture@.width as int)) as usize),
                float_word(GeCommand::TexFlush, 0),
            ]),
    {
        let addr = match texture.vram_addr() {
            Some(a) => a,
            None => vstd::pervasive::unreached(),
        };
        self.texture_format(texture.format());
        self.texture_mode(mipmap, false, texture.swizzled());
        self.texture_image(mipmap, addr, texture.size(), texture.width());
    }

    /// Sets the 4x4 dither matrix, one row per command, four bits per entry.
    pub fn set_dither(&mut self, matrix: &I8Mat4)
        ensures
            appended(old(self)@, final(self)@, seq![
                cmd_word(GeCommand::Dith0, dither_row(matrix.x)),
                cmd_word(GeCommand::Dith1, dither_row(matrix.y)),
                cmd_word(GeCommand::Dith2, dither_row(matrix.z)),
                cmd_word(GeCommand::Dith3, dither_row(matrix.w)),
            ]),
    {
        self.list.send(GeCommand::Dith0, Self::dither_arg(matrix.x));
        self.list.send(GeCommand::Dith1, Self::dither_arg(matrix.y));
        self.list.send(GeCommand::Dith2, Self::dither_arg(matrix.z));
        self.list.send(GeCommand::Dith3, Self::dither_arg(matrix.w));
    }

    fn dither_arg(row: I8Vec4) -> (a: usize)
        ensures
            a == dither_row(row),
    {
        ((#[verifier::truncate] (row.w as usize)) << 12u32) | ((#[verifier::truncate] (row.z as usize)) << 8u32)
            | ((#[verifier::truncate] (row.y as usize)) << 4u32) | (#[verifier::truncate] (row.x as usize))
    }

    /// Sets the subdivision of patches in each direction.
    pub fn patch_division(&mut self, u_divisions: u8, v_divisions: u8)
        ensures
            appended(old(self)@, final(self)@, seq![cmd_word(GeCommand::PatchDivision, ((v_divisions as usize) << 8u32) | u_divisions as usize)]),
    {
        self.list.send(GeCommand::PatchDivision, ((v_divisions as usize) << 8u32) | u_divisions as usize);
    }

    /// Sets the patch facing.
    pub fn patch_front_face(&mut self, unknown: usize)
        ensures
            appended(old(self)@, final(self)@, seq![cmd_word(GeCommand::PatchFacing, unknown)]),
    {
        self.list.send(GeCommand::PatchFacing, unknown);
    }

    /// Sets the primitive patches are drawn with: 2 for points, 1 for line
    /// strips, 0 for triangle strips.
    pub fn patch_primitive(&mut self, primitive: PatchPrimitive)
        ensures
            appended(old(self)@, final(self)@, seq![cmd_word(GeCommand::PatchPrimitive, match primitive {
                PatchPrimitive::Points => 2,
                PatchPrimitive::LineStrip => 1,
                PatchPrimitive::TriangleStrip => 0,
            })]),
    {
        self.list.send(
            GeCommand::PatchPrimitive,
            match primitive {
                PatchPrimitive::Points => 2,
                PatchPrimitive::LineStrip => 1,
                PatchPrimitive::TriangleStrip => 0,
            },
        );
    }

    /// Sets the shading model: 1 for smooth, 0 for flat.
    pub fn shading_model(&mut self, mode: ShadingModel)
        ensures
            appended(old(self)@, final(self)@, seq![cmd_word(GeCommand::ShadeMode, match mode {
                ShadingModel::Smooth => 1,
                ShadingModel::Flat => 0,
            })]),
    {
        self.list.send(
            GeCommand::ShadeMode,
            match mode {
                ShadingModel::Smooth => 1,
                ShadingModel::Flat => 0,
            },
        );
    }

    /// Sets the weight of morph target `index` (float bit pattern).
    pub fn morph_weight(&mut self, index: u8, weight: u32)
        requires
            index < 8,
        ensures
            appended(old(self)@, final(self)@, seq![float_word(morph_weight_command_spec(index), weight)]),
    {
        self.list.send_float_bits(morph_weight_command(index), weight);
    }

    /// Waits for a texture transfer to complete.
    pub fn transfer_sync(&mut self)
        ensures
            appended(old(self)@, final(self)@, seq![cmd_word(GeCommand::TexSync, 0)]),
    {
        self.list.send(GeCommand::TexSync, 0);
    }

    /// Loads the color table held in the VRAM texture `clut`;
    /// `InvalidClutFormat` for an indexed format.
    pub fn load_clut(&mut self, clut: &Texture, shift: u8, mask: u8, unknown: u8) -> (r: Result<(), GlError>)
        requires
            !indexed_format(clut@.format) ==> clut@.vram is Some && clut@.width * clut@.height <= u16::MAX,
        ensures
            r is Ok <==> !indexed_format(clut@.format),
            r is Err ==> (r matches Err(GlError::InvalidClutFormat)) && final(self)@ == old(self)@,
            r is Ok ==> appended(old(self)@, final(self)@, seq![
                cmd_word(GeCommand::ClutFormat,
                    (clut@.format.raw() as usize) | ((shift as usize) << 2u32) | ((mask as usize) << 8u32) | ((unknown as usize) << 16u32)),
                cmd_word(GeCommand::ClutAddr, clut@.vram.unwrap().0 % 0x100_0000),
                cmd_word(GeCommand::ClutAddrUpper, ((clut@.vram.unwrap().0 / 0x100_0000) % 0x100) as usize),
                cmd_word(GeCommand::LoadClut, ((clut@.width * clut@.height) / 8) as usize),
            ]),
    {
        match clut.format() {
            TexturePixelFormat::PsmT4 | TexturePixelFormat::PsmT8 | TexturePixelFormat::PsmT16
            | TexturePixelFormat::PsmT32 => {
                return Err(GlError::InvalidClutFormat);
            },
            _ => {},
        }
        let arg = (clut.format().value() as usize) | ((shift as usize) << 2u32) | ((mask as usize) << 8u32) | ((unknown as usize) << 16u32);
        self.list.send(GeCommand::ClutFormat, arg);
        let addr = match clut.vram_addr() {
            Some(a) => a,
            None => vstd::pervasive::unreached(),
        };
        let (ptr1, ptr2) = split_address(addr);
        self.list.send(GeCommand::ClutAddr, ptr1);
        self.list.send(GeCommand::ClutAddrUpper, ptr2 as usize);
        self.list.send(GeCommand::LoadClut, ((clut.width() * clut.height()) / 8) as usize);
        Ok(())
    }
}

/// The most significant byte of a display-list word is its command's opcode.
proof fn lemma_word_opcode(cmd: GeCommand, arg: usize)
    requires
        cmd.raw() < 0x100,
    ensures
        cmd_word(cmd, arg) / 0x100_0000 == cmd.raw(),
        cmd_word(cmd, arg) % 0x100_0000 == arg % 0x100_0000,
{
    let w = cmd.raw() * 0x100_0000 + arg % 0x100_0000;
    assert(0 <= w < 0x1_0000_0000);
    assert(cmd_word(cmd, arg) == w);
}

/// Law: switching a state on or off appends the word whose opcode is that
/// state's enable command and whose argument is 1 or 0: alpha test 0x22,
/// depth test 0x23, stencil test 0x24, blending 0x21, face culling 0x1d,
/// dithering 0x20, fog 0x1f, clip planes (depth clamp) 0x1c, texturing 0x1e,
/// lighting 0x17, lights 0 to 3 0x18 to 0x1b, line smoothing
/// (anti-aliasing) 0x25, patch culling 0x26, color test 0x27, logic op
/// 0x28, reversed normals 0x51, patch facing 0x38. Distinct states are
/// switched by distinct commands.
pub proof fn law_state_enable_words(state: GuState, other: GuState, enable: bool)
    requires
        state != GuState::ScissorTest && state != GuState::Fragment2X,
        other != GuState::ScissorTest && other != GuState::Fragment2X,
    ensures
        cmd_word(state_command(state), if enable { 1 } else { 0 }) == (match state {
            GuState::AlphaTest => 0x22u32,
            GuState::DepthTest => 0x23u32,
            GuState::StencilTest => 0x24u32,
            GuState::Blend => 0x21u32,
            GuState::CullFace => 0x1du32,
            GuState::Dither => 0x20u32,
            GuState::Fog => 0x1fu32,
            GuState::ClipPlanes => 0x1cu32,
            GuState::Texture2D => 0x1eu32,
            GuState::Lighting => 0x17u32,
            GuState::Light0 => 0x18u32,
            GuState::Light1 => 0x19u32,
            GuState::Light2 => 0x1au32,
            GuState::Light3 => 0x1bu32,
            GuState::LineSmooth => 0x25u32,
            GuState::PatchCullFace => 0x26u32,
            GuState::ColorTest => 0x27u32,
            GuState::ColorLogicOp => 0x28u32,
            GuState::FaceNormalReverse => 0x51u32,
            GuState::PatchFace => 0x38u32,
            _ => 0u32,
        }) * 0x100_0000 + (if enable { 1int } else { 0int }),
        state != other ==> state_command(state) != state_command(other),
{
}

/// Law: a matrix is loaded with the number and data commands of that
/// matrix: the view matrix with 0x3c and 0x3d, the model (world) matrix
/// with 0x3a and 0x3b, the texture-generation matrix with 0x40 and 0x41;
/// the data command is always the one after the number command, and
/// distinct matrices use distinct commands.
pub proof fn law_matrix_commands(mode: MatrixMode, other: MatrixMode)
    ensures
        matrix_commands(mode).0.raw() == match mode {
            MatrixMode::View => 0x3cu32,
            MatrixMode::Model => 0x3au32,
            MatrixMode::Texture => 0x40u32,
        },
        matrix_commands(mode).1.raw() == matrix_commands(mode).0.raw() + 1,
        forall|arg: usize| #[trigger] cmd_word(matrix_commands(mode).0, arg) / 0x100_0000 == matrix_commands(mode).0.raw(),
        forall|arg: usize| #[trigger] cmd_word(matrix_commands(mode).1, arg) / 0x100_0000 == matrix_commands(mode).1.raw(),
        mode != other ==> matrix_commands(mode).0 != matrix_commands(other).0
            && matrix_commands(mode).1 != matrix_commands(other).1,
{
    assert forall|arg: usize| #[trigger] cmd_word(matrix_commands(mode).0, arg) / 0x100_0000 == matrix_commands(mode).0.raw() by {
        lemma_word_opcode(matrix_commands(mode).0, arg);
    }
    assert forall|arg: usize| #[trigger] cmd_word(matrix_commands(mode).1, arg) / 0x100_0000 == matrix_commands(mode).1.raw() by {
        lemma_word_opcode(matrix_commands(mode).1, arg);
    }
}

/// Law: binding a texture as mipmap level `n` (the level the texture-mode
/// word carries) writes its address under opcode 0xa0 + n, its buffer
/// width under 0xa8 + n and its size under 0xb8 + n; distinct levels use
/// distinct commands.
pub proof fn law_texture_level_commands(level: MipmapLevel, other: MipmapLevel, arg: usize)
    ensures
        level.raw() == match level {
            MipmapLevel::Level0 => 0u32,
            MipmapLevel::Level1 => 1u32,
            MipmapLevel::Level2 => 2u32,
            MipmapLevel::Level3 => 3u32,
            MipmapLevel::Level4 => 4u32,
            MipmapLevel::Level5 => 5u32,
            MipmapLevel::Level6 => 6u32,
            MipmapLevel::Level7 => 7u32,
        },
        cmd_word(tex_addr_command_spec(level), arg) / 0x100_0000 == 0xa0 + level.raw(),
        cmd_word(tex_buf_width_command_spec(level), arg) / 0x100_0000 == 0xa8 + level.raw(),
        cmd_word(tex_size_command_spec(level), arg) / 0x100_0000 == 0xb8 + level.raw(),
        level != other ==> tex_addr_command_spec(level) != tex_addr_command_spec(other)
            && tex_buf_width_command_spec(level) != tex_buf_width_command_spec(other)
            && tex_size_command_spec(level) != tex_size_command_spec(other),
{
    lemma_word_opcode(tex_addr_command_spec(level), arg);
    lemma_word_opcode(tex_buf_width_command_spec(level), arg);
    lemma_word_opcode(tex_size_command_spec(level), arg);
}

/// Law: the per-light commands of light `n` (0 to 3) are the hardware's:
/// its type 0x5f + n; its position X, Y, Z 0x63 + 3n and the next two; its
/// direction 0x6f + 3n and the next two; its constant, linear and quadratic
/// attenuation 0x7b + 3n and the next two; its exponent 0x87 + n; its
/// cutoff 0x8b + n; its ambient, diffuse and specular colors 0x8f + 3n and
/// the next two. Distinct lights use distinct commands.
pub proof fn law_light_commands(light: u8, other: u8)
    requires
        light < 4,
        other < 4,
    ensures
        light_type_command_spec(light).raw() == 0x5f + light,
        light_x_command_spec(light).raw() == 0x63 + 3 * light,
        light_y_command_spec(light).raw() == 0x64 + 3 * light,
        light_z_command_spec(light).raw() == 0x65 + 3 * light,
        light_direction_x_command_spec(light).raw() == 0x6f + 3 * light,
        light_direction_y_command_spec(light).raw() == 0x70 + 3 * light,
        light_direction_z_command_spec(light).raw() == 0x71 + 3 * light,
        light_constant_atten_command_spec(light).raw() == 0x7b + 3 * light,
        light_linear_atten_command_spec(light).raw() == 0x7c + 3 * light,
        light_quadratic_atten_command_spec(light).raw() == 0x7d + 3 * light,
        light_exponent_atten_command_spec(light).raw() == 0x87 + light,
        light_cutoff_command_spec(light).raw() == 0x8b + light,
        light_ambient_command_spec(light).raw() == 0x8f + 3 * light,
        light_diffuse_command_spec(light).raw() == 0x90 + 3 * light,
        light_specular_command_spec(light).raw() == 0x91 + 3 * light,
        light != other ==> light_x_command_spec(light) != light_x_command_spec(other),
{
}

/// Law: morph weight `i` (0 to 7) is set with opcode 0x2c + i.
pub proof fn law_morph_weight_commands(index: u8)
    requires
        index < 8,
    ensures
        morph_weight_command_spec(index).raw() == 0x2c + index,
{
}

} // verus!
