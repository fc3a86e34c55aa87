use vstd::prelude::*;
use crate::gfx::color::{pack, pack_channels};
use crate::sys::ge::{command_word, encode_command, GeCommand};

verus! {

/// Primitive types.
#[derive(Clone, Copy, Debug, PartialEq, Eq, Structural)]
pub enum GuPrimitive {
    /// Single pixel points (1 vertex per primitive)
    Points,
    /// Single pixel lines (2 vertices per primitive)
    Lines,
    /// Single pixel line-strip (2 vertices for the first primitive, 1 for every following)
    LineStrip,
    /// Filled triangles (3 vertices per primitive)
    Triangles,
    /// Filled triangles-strip (3 vertices for the first primitive, 1 for every following)
    TriangleStrip,
    /// Filled triangle-fan (3 vertices for the first primitive, 1 for every following)
    TriangleFan,
    /// Filled blocks (2 vertices per primitive)
    Sprites,
}

impl GuPrimitive {
    /// The value the hardware uses for this variant.
    pub open spec fn raw(self) -> u32 {
        match self {
            GuPrimitive::Points => 0,
            GuPrimitive::Lines => 1,
            GuPrimitive::LineStrip => 2,
            GuPrimitive::Triangles => 3,
            GuPrimitive::TriangleStrip => 4,
            GuPrimitive::TriangleFan => 5,
            GuPrimitive::Sprites => 6,
        }
    }

    /// The value the hardware uses for this variant.
    pub fn value(self) -> (v: u32)
        ensures
            v == self.raw(),
    {
        match self {
            GuPrimitive::Points => 0,
            GuPrimitive::Lines => 1,
            GuPrimitive::LineStrip => 2,
            GuPrimitive::Triangles => 3,
            GuPrimitive::TriangleStrip => 4,
            GuPrimitive::TriangleFan => 5,
            GuPrimitive::Sprites => 6,
        }
    }
}

/// Patch primitive types.
#[derive(Clone, Copy, Debug, PartialEq, Eq, Structural)]
pub enum PatchPrimitive {
    Points,
    LineStrip,
    TriangleStrip,
}

impl PatchPrimitive {
    /// The value the hardware uses for this variant.
    pub open spec fn raw(self) -> u32 {
        match self {
            PatchPrimitive::Points => 0,
            PatchPrimitive::LineStrip => 2,
            PatchPrimitive::TriangleStrip => 4,
        }
    }

    /// The value the hardware uses for this variant.
    pub fn value(self) -> (v: u32)
        ensures
            v == self.raw(),
    {
        match self {
            PatchPrimitive::Points => 0,
            PatchPrimitive::LineStrip => 2,
            PatchPrimitive::TriangleStrip => 4,
        }
    }
}

/// States.
#[derive(Clone, Copy, Debug, PartialEq, Eq, Structural)]
pub enum GuState {
    AlphaTest,
    DepthTest,
    ScissorTest,
    StencilTest,
    Blend,
    CullFace,
    Dither,
    Fog,
    ClipPlanes,
    Texture2D,
    Lighting,
    Light0,
    Light1,
    Light2,
    Light3,
    LineSmooth,
    PatchCullFace,
    ColorTest,
    ColorLogicOp,
    FaceNormalReverse,
    PatchFace,
    Fragment2X,
}

impl GuState {
    /// The value the hardware uses for this variant.
    pub open spec fn raw(self) -> u32 {
        match self {
            GuState::AlphaTest => 0,
            GuState::DepthTest => 1,
            GuState::ScissorTest => 2,
            GuState::StencilTest => 3,
            GuState::Blend => 4,
            GuState::CullFace => 5,
            GuState::Dither => 6,
            GuState::Fog => 7,
            GuState::ClipPlanes => 8,
            GuState::Texture2D => 9,
            GuState::Lighting => 10,
            GuState::Light0 => 11,
            GuState::Light1 => 12,
            GuState::Light2 => 13,
            GuState::Light3 => 14,
            GuState::LineSmooth => 15,
            GuState::PatchCullFace => 16,
            GuState::ColorTest => 17,
            GuState::ColorLogicOp => 18,
            GuState::FaceNormalReverse => 19,
            GuState::PatchFace => 20,
            GuState::Fragment2X => 21,
        }
    }

    /// The value the hardware uses for this variant.
    pub fn value(self) -> (v: u32)
        ensures
            v == self.raw(),
    {
        match self {
            GuState::AlphaTest => 0,
            GuState::DepthTest => 1,
            GuState::ScissorTest => 2,
            GuState::StencilTest => 3,
            GuState::Blend => 4,
            GuState::CullFace => 5,
            GuState::Dither => 6,
            GuState::Fog => 7,
            GuState::ClipPlanes => 8,
            GuState::Texture2D => 9,
            GuState::Lighting => 10,
            GuState::Light0 => 11,
            GuState::Light1 => 12,
            GuState::Light2 => 13,
            GuState::Light3 => 14,
            GuState::LineSmooth => 15,
            GuState::PatchCullFace => 16,
            GuState::ColorTest => 17,
            GuState::ColorLogicOp => 18,
            GuState::FaceNormalReverse => 19,
            GuState::PatchFace => 20,
            GuState::Fragment2X => 21,
        }
    }
}

/// Matrix modes.
#[derive(Clone, Copy, Debug, PartialEq, Eq, Structural)]
pub enum MatrixMode {
    Projection,
    View,
    Model,
    Texture,
}

impl MatrixMode {
    /// The value the hardware uses for this variant.
    pub open spec fn raw(self) -> u32 {
        match self {
            MatrixMode::Projection => 0,
            MatrixMode::View => 1,
            MatrixMode::Model => 2,
            MatrixMode::Texture => 3,
        }
    }

    /// The value the hardware uses for this variant.
    pub fn value(self) -> (v: u32)
        ensures
            v == self.raw(),
    {
        match self {
            MatrixMode::Projection => 0,
            MatrixMode::View => 1,
            MatrixMode::Model => 2,
            MatrixMode::Texture => 3,
        }
    }
}

/// Texture pixel formats.
#[derive(Clone, Copy, Debug, PartialEq, Eq, Structural)]
pub enum TexturePixelFormat {
    /// Hicolor, 16-bit.
    Psm5650,
    /// Hicolor, 16-bit
    Psm5551,
    /// Hicolor, 16-bit
    Psm4444,
    /// Truecolor, 32-bit
    Psm8888,
    /// Indexed, 4-bit (2 pixels per byte)
    PsmT4,
    /// Indexed, 8-bit
    PsmT8,
    /// Indexed, 16-bit
    PsmT16,
    /// Indexed, 32-bit
    PsmT32,
    PsmDxt1,
    PsmDxt3,
    PsmDxt5,
}

impl TexturePixelFormat {
    /// The value the hardware uses for this variant.
    pub open spec fn raw(self) -> u32 {
        match self {
            TexturePixelFormat::Psm5650 => 0,
            TexturePixelFormat::Psm5551 => 1,
            TexturePixelFormat::Psm4444 => 2,
            TexturePixelFormat::Psm8888 => 3,
            TexturePixelFormat::PsmT4 => 4,
            TexturePixelFormat::PsmT8 => 5,
            TexturePixelFormat::PsmT16 => 6,
            TexturePixelFormat::PsmT32 => 7,
            TexturePixelFormat::PsmDxt1 => 8,
            TexturePixelFormat::PsmDxt3 => 9,
            TexturePixelFormat::PsmDxt5 => 10,
        }
    }

    /// The value the hardware uses for this variant.
    pub fn value(self) -> (v: u32)
        ensures
            v == self.raw(),
    {
        match self {
            TexturePixelFormat::Psm5650 => 0,
            TexturePixelFormat::Psm5551 => 1,
            TexturePixelFormat::Psm4444 => 2,
            TexturePixelFormat::Psm8888 => 3,
            TexturePixelFormat::PsmT4 => 4,
            TexturePixelFormat::PsmT8 => 5,
            TexturePixelFormat::PsmT16 => 6,
            TexturePixelFormat::PsmT32 => 7,
            TexturePixelFormat::PsmDxt1 => 8,
            TexturePixelFormat::PsmDxt3 => 9,
            TexturePixelFormat::PsmDxt5 => 10,
        }
    }
}

/// Spline mode.
#[derive(Clone, Copy, Debug, PartialEq, Eq, Structural)]
pub enum SplineMode {
    FillFill,
    OpenFill,
    FillOpen,
    OpenOpen,
}

impl SplineMode {
    /// The value the hardware uses for this variant.
    pub open spec fn raw(self) -> u32 {
        match self {
            SplineMode::FillFill => 0,
            SplineMode::OpenFill => 1,
            SplineMode::FillOpen => 2,
            SplineMode::OpenOpen => 3,
        }
    }

    /// The value the hardware uses for this variant.
    pub fn value(self) -> (v: u32)
        ensures
            v == self.raw(),
    {
        match self {
            SplineMode::FillFill => 0,
            SplineMode::OpenFill => 1,
            SplineMode::FillOpen => 2,
            SplineMode::OpenOpen => 3,
        }
    }
}

/// Shading model.
#[derive(Clone, Copy, Debug, PartialEq, Eq, Structural)]
pub enum ShadingModel {
    Flat,
    Smooth,
}

impl ShadingModel {
    /// The value the hardware uses for this variant.
    pub open spec fn raw(self) -> u32 {
        match self {
            ShadingModel::Flat => 0,
            ShadingModel::Smooth => 1,
        }
    }

    /// The value the hardware uses for this variant.
    pub fn value(self) -> (v: u32)
        ensures
            v == self.raw(),
    {
        match self {
            ShadingModel::Flat => 0,
            ShadingModel::Smooth => 1,
        }
    }
}

/// Logical operation.
#[derive(Clone, Copy, Debug, PartialEq, Eq, Structural)]
pub enum LogicalOperation {
    Clear,
    And,
    AndReverse,
    Copy,
    AndInverted,
    Noop,
    Xor,
    Or,
    Nor,
    Equiv,
    Inverted,
    OrReverse,
    CopyInverted,
    OrInverted,
    Nand,
    SetBits,
}

impl LogicalOperation {
    /// The value the hardware uses for this variant.
    pub open spec fn raw(self) -> u32 {
        match self {
            LogicalOperation::Clear => 0,
            LogicalOperation::And => 1,
            LogicalOperation::AndReverse => 2,
            LogicalOperation::Copy => 3,
            LogicalOperation::AndInverted => 4,
            LogicalOperation::Noop => 5,
            LogicalOperation::Xor => 6,
            LogicalOperation::Or => 7,
            LogicalOperation::Nor => 8,
            LogicalOperation::Equiv => 9,
            LogicalOperation::Inverted => 10,
            LogicalOperation::OrReverse => 11,
            LogicalOperation::CopyInverted => 12,
            LogicalOperation::OrInverted => 13,
            LogicalOperation::Nand => 14,
            LogicalOperation::SetBits => 15,
        }
    }

    /// The value the hardware uses for this variant.
    pub fn value(self) -> (v: u32)
        ensures
            v == self.raw(),
    {
        match self {
            LogicalOperation::Clear => 0,
            LogicalOperation::And => 1,
            LogicalOperation::AndReverse => 2,
            LogicalOperation::Copy => 3,
            LogicalOperation::AndInverted => 4,
            LogicalOperation::Noop => 5,
            LogicalOperation::Xor => 6,
            LogicalOperation::Or => 7,
            LogicalOperation::Nor => 8,
            LogicalOperation::Equiv => 9,
            LogicalOperation::Inverted => 10,
            LogicalOperation::OrReverse => 11,
            LogicalOperation::CopyInverted => 12,
            LogicalOperation::OrInverted => 13,
            LogicalOperation::Nand => 14,
            LogicalOperation::SetBits => 15,
        }
    }
}

/// Texture filter.
#[derive(Clone, Copy, Debug, PartialEq, Eq, Structural)]
pub enum TextureFilter {
    Nearest,
    Linear,
    NearestMipmapNearest,
    LinearMipmapNearest,
    NearestMipmapLinear,
    LinearMipmapLinear,
}

impl TextureFilter {
    /// The value the hardware uses for this variant.
    pub open spec fn raw(self) -> u32 {
        match self {
            TextureFilter::Nearest => 0,
            TextureFilter::Linear => 1,
            TextureFilter::NearestMipmapNearest => 4,
            TextureFilter::LinearMipmapNearest => 5,
            TextureFilter::NearestMipmapLinear => 6,
            TextureFilter::LinearMipmapLinear => 7,
        }
    }

    /// The value the hardware uses for this variant.
    pub fn value(self) -> (v: u32)
        ensures
            v == self.raw(),
    {
        match self {
            TextureFilter::Nearest => 0,
            TextureFilter::Linear => 1,
            TextureFilter::NearestMipmapNearest => 4,
            TextureFilter::LinearMipmapNearest => 5,
            TextureFilter::NearestMipmapLinear => 6,
            TextureFilter::LinearMipmapLinear => 7,
        }
    }
}

/// Texture map mode.
#[derive(Clone, Copy, Debug, PartialEq, Eq, Structural)]
pub enum TextureMapMode {
    TextureCoords,
    TextureMatrix,
    EnvironmentMap,
}

impl TextureMapMode {
    /// The value the hardware uses for this variant.
    pub open spec fn raw(self) -> u32 {
        match self {
            TextureMapMode::TextureCoords => 0,
            TextureMapMode::TextureMatrix => 1,
            TextureMapMode::EnvironmentMap => 2,
        }
    }

    /// The value the hardware uses for this variant.
    pub fn value(self) -> (v: u32)
        ensures
            v == self.raw(),
    {
        match self {
            TextureMapMode::TextureCoords => 0,
            TextureMapMode::TextureMatrix => 1,
            TextureMapMode::EnvironmentMap => 2,
        }
    }
}

/// Texture level mode.
#[derive(Clone, Copy, Debug, PartialEq, Eq, Structural)]
pub enum TextureLevelMode {
    Auto,
    Const,
    Slope,
}

impl TextureLevelMode {
    /// The value the hardware uses for this variant.
    pub open spec fn raw(self) -> u32 {
        match self {
            TextureLevelMode::Auto => 0,
            TextureLevelMode::Const => 1,
            TextureLevelMode::Slope => 2,
        }
    }

    /// The value the hardware uses for this variant.
    pub fn value(self) -> (v: u32)
        ensures
            v == self.raw(),
    {
        match self {
            TextureLevelMode::Auto => 0,
            TextureLevelMode::Const => 1,
            TextureLevelMode::Slope => 2,
        }
    }
}

/// Texture projection map mode.
#[derive(Clone, Copy, Debug, PartialEq, Eq, Structural)]
pub enum TextureProjectionMapMode {
    Position,
    Uv,
    NormalizedNormal,
    Normal,
}

impl TextureProjectionMapMode {
    /// The value the hardware uses for this variant.
    pub open spec fn raw(self) -> u32 {
        match self {
            TextureProjectionMapMode::Position => 0,
            TextureProjectionMapMode::Uv => 1,
            TextureProjectionMapMode::NormalizedNormal => 2,
            TextureProjectionMapMode::Normal => 3,
        }
    }

    /// The value the hardware uses for this variant.
    pub fn value(self) -> (v: u32)
        ensures
            v == self.raw(),
    {
        match self {
            TextureProjectionMapMode::Position => 0,
            TextureProjectionMapMode::Uv => 1,
            TextureProjectionMapMode::NormalizedNormal => 2,
            TextureProjectionMapMode::Normal => 3,
        }
    }
}

/// Wrap mode.
#[derive(Clone, Copy, Debug, PartialEq, Eq, Structural)]
pub enum GuTexWrapMode {
    /// The texture repeats after crossing the border
    Repeat,
    /// Texture clamps at the border
    Clamp,
}

impl GuTexWrapMode {
    /// The value the hardware uses for this variant.
    pub open spec fn raw(self) -> u32 {
        match self {
            GuTexWrapMode::Repeat => 0,
            GuTexWrapMode::Clamp => 1,
        }
    }

    /// The value the hardware uses for this variant.
    pub fn value(self) -> (v: u32)
        ensures
            v == self.raw(),
    {
        match self {
            GuTexWrapMode::Repeat => 0,
            GuTexWrapMode::Clamp => 1,
        }
    }
}

/// Front face direction.
#[derive(Clone, Copy, Debug, PartialEq, Eq, Structural)]
pub enum FrontFaceDirection {
    Clockwise,
    CounterClockwise,
}

impl FrontFaceDirection {
    /// The value the hardware uses for this variant.
    pub open spec fn raw(self) -> u32 {
        match self {
            FrontFaceDirection::Clockwise => 0,
            FrontFaceDirection::CounterClockwise => 1,
        }
    }

    /// The value the hardware uses for this variant.
    pub fn value(self) -> (v: u32)
        ensures
            v == self.raw(),
    {
        match self {
            FrontFaceDirection::Clockwise => 0,
            FrontFaceDirection::CounterClockwise => 1,
        }
    }
}

/// Test function for alpha test.
#[derive(Clone, Copy, Debug, PartialEq, Eq, Structural)]
pub enum AlphaFunc {
    Never,
    Always,
    Equal,
    NotEqual,
    Less,
    LessOrEqual,
    Greater,
    GreaterOrEqual,
}

impl AlphaFunc {
    /// The value the hardware uses for this variant.
    pub open spec fn raw(self) -> u32 {
        match self {
            AlphaFunc::Never => 0,
            AlphaFunc::Always => 1,
            AlphaFunc::Equal => 2,
            AlphaFunc::NotEqual => 3,
            AlphaFunc::Less => 4,
            AlphaFunc::LessOrEqual => 5,
            AlphaFunc::Greater => 6,
            AlphaFunc::GreaterOrEqual => 7,
        }
    }

    /// The value the hardware uses for this variant.
    pub fn value(self) -> (v: u32)
        ensures
            v == self.raw(),
    {
        match self {
            AlphaFunc::Never => 0,
            AlphaFunc::Always => 1,
            AlphaFunc::Equal => 2,
            AlphaFunc::NotEqual => 3,
            AlphaFunc::Less => 4,
            AlphaFunc::LessOrEqual => 5,
            AlphaFunc::Greater => 6,
            AlphaFunc::GreaterOrEqual => 7,
        }
    }
}

/// Test function for stencil test.
#[derive(Clone, Copy, Debug, PartialEq, Eq, Structural)]
pub enum StencilFunc {
    Never,
    Always,
    Equal,
    NotEqual,
    Less,
    LessOrEqual,
    Greater,
    GreaterOrEqual,
}

impl StencilFunc {
    /// The value the hardware uses for this variant.
    pub open spec fn raw(self) -> u32 {
        match self {
            StencilFunc::Never => 0,
            StencilFunc::Always => 1,
            StencilFunc::Equal => 2,
            StencilFunc::NotEqual => 3,
            StencilFunc::Less => 4,
            StencilFunc::LessOrEqual => 5,
            StencilFunc::Greater => 6,
            StencilFunc::GreaterOrEqual => 7,
        }
    }

    /// The value the hardware uses for this variant.
    pub fn value(self) -> (v: u32)
        ensures
            v == self.raw(),
    {
        match self {
            StencilFunc::Never => 0,
            StencilFunc::Always => 1,
            StencilFunc::Equal => 2,
            StencilFunc::NotEqual => 3,
            StencilFunc::Less => 4,
            StencilFunc::LessOrEqual => 5,
            StencilFunc::Greater => 6,
            StencilFunc::GreaterOrEqual => 7,
        }
    }
}

/// Test function for color test.
#[derive(Clone, Copy, Debug, PartialEq, Eq, Structural)]
pub enum ColorFunc {
    Never,
    Always,
    Equal,
    NotEqual,
}

impl ColorFunc {
    /// The value the hardware uses for this variant.
    pub open spec fn raw(self) -> u32 {
        match self {
            ColorFunc::Never => 0,
            ColorFunc::Always => 1,
            ColorFunc::Equal => 2,
            ColorFunc::NotEqual => 3,
        }
    }

    /// The value the hardware uses for this variant.
    pub fn value(self) -> (v: u32)
        ensures
            v == self.raw(),
    {
        match self {
            ColorFunc::Never => 0,
            ColorFunc::Always => 1,
            ColorFunc::Equal => 2,
            ColorFunc::NotEqual => 3,
        }
    }
}

/// Test function for depth test.
#[derive(Clone, Copy, Debug, PartialEq, Eq, Structural)]
pub enum DepthFunc {
    /// No pixels pass the depth-test
    Never,
    /// All pixels pass the depth-test
    Always,
    /// Pixels that match the depth-test pass
    Equal,
    /// Pixels that doesn't match the depth-test pass
    NotEqual,
    /// Pixels that are less in depth passes
    Less,
    /// Pixels that are less or equal in depth passes
    LessOrEqual,
    /// Pixels that are greater in depth passes
    Greater,
    /// Pixels that are greater or equal passes
    GreaterOrEqual,
}

impl DepthFunc {
    /// The value the hardware uses for this variant.
    pub open spec fn raw(self) -> u32 {
        match self {
            DepthFunc::Never => 0,
            DepthFunc::Always => 1,
            DepthFunc::Equal => 2,
            DepthFunc::NotEqual => 3,
            DepthFunc::Less => 4,
            DepthFunc::LessOrEqual => 5,
            DepthFunc::Greater => 6,
            DepthFunc::GreaterOrEqual => 7,
        }
    }

    /// The value the hardware uses for this variant.
    pub fn value(self) -> (v: u32)
        ensures
            v == self.raw(),
    {
        match self {
            DepthFunc::Never => 0,
            DepthFunc::Always => 1,
            DepthFunc::Equal => 2,
            DepthFunc::NotEqual => 3,
            DepthFunc::Less => 4,
            DepthFunc::LessOrEqual => 5,
            DepthFunc::Greater => 6,
            DepthFunc::GreaterOrEqual => 7,
        }
    }
}

/// Texture effect apply-modes.
#[derive(Clone, Copy, Debug, PartialEq, Eq, Structural)]
pub enum TextureEffect {
    /// The texture is multiplied with the current diffuse fragment.
    Modulate,
    Decal,
    Blend,
    /// The texture replaces the fragment
    Replace,
    /// The texture is added on-top of the diffuse fragment
    Add,
}

impl TextureEffect {
    /// The value the hardware uses for this variant.
    pub open spec fn raw(self) -> u32 {
        match self {
            TextureEffect::Modulate => 0,
            TextureEffect::Decal => 1,
            TextureEffect::Blend => 2,
            TextureEffect::Replace => 3,
            TextureEffect::Add => 4,
        }
    }

    /// The value the hardware uses for this variant.
    pub fn value(self) -> (v: u32)
        ensures
            v == self.raw(),
    {
        match self {
            TextureEffect::Modulate => 0,
            TextureEffect::Decal => 1,
            TextureEffect::Blend => 2,
            TextureEffect::Replace => 3,
            TextureEffect::Add => 4,
        }
    }
}

/// Texture color component-modes.
#[derive(Clone, Copy, Debug, PartialEq, Eq, Structural)]
pub enum TextureColorComponent {
    /// The texture alpha does not have any effect.
    Rgb,
    /// The texture alpha is taken into account.
    Rgba,
}

impl TextureColorComponent {
    /// The value the hardware uses for this variant.
    pub open spec fn raw(self) -> u32 {
        match self {
            TextureColorComponent::Rgb => 0,
            TextureColorComponent::Rgba => 1,
        }
    }

    /// The value the hardware uses for this variant.
    pub fn value(self) -> (v: u32)
        ensures
            v == self.raw(),
    {
        match self {
            TextureColorComponent::Rgb => 0,
            TextureColorComponent::Rgba => 1,
        }
    }
}

/// Mipmap level.
#[derive(Clone, Copy, Debug, PartialEq, Eq, Structural)]
pub enum MipmapLevel {
    Level0,
    Level1,
    Level2,
    Level3,
    Level4,
    Level5,
    Level6,
    Level7,
}

impl MipmapLevel {
    /// The value the hardware uses for this variant.
    pub open spec fn raw(self) -> u32 {
        match self {
            MipmapLevel::Level0 => 0,
            MipmapLevel::Level1 => 1,
            MipmapLevel::Level2 => 2,
            MipmapLevel::Level3 => 3,
            MipmapLevel::Level4 => 4,
            MipmapLevel::Level5 => 5,
            MipmapLevel::Level6 => 6,
            MipmapLevel::Level7 => 7,
        }
    }

    /// The value the hardware uses for this variant.
    pub fn value(self) -> (v: u32)
        ensures
            v == self.raw(),
    {
        match self {
            MipmapLevel::Level0 => 0,
            MipmapLevel::Level1 => 1,
            MipmapLevel::Level2 => 2,
            MipmapLevel::Level3 => 3,
            MipmapLevel::Level4 => 4,
            MipmapLevel::Level5 => 5,
            MipmapLevel::Level6 => 6,
            MipmapLevel::Level7 => 7,
        }
    }
}

/// Blending operation.
#[derive(Clone, Copy, Debug, PartialEq, Eq, Structural)]
pub enum BlendOp {
    Add,
    Subtract,
    ReverseSubtract,
    Min,
    Max,
    Abs,
}

impl BlendOp {
    /// The value the hardware uses for this variant.
    pub open spec fn raw(self) -> u32 {
        match self {
            BlendOp::Add => 0,
            BlendOp::Subtract => 1,
            BlendOp::ReverseSubtract => 2,
            BlendOp::Min => 3,
            BlendOp::Max => 4,
            BlendOp::Abs => 5,
        }
    }

    /// The value the hardware uses for this variant.
    pub fn value(self) -> (v: u32)
        ensures
            v == self.raw(),
    {
        match self {
            BlendOp::Add => 0,
            BlendOp::Subtract => 1,
            BlendOp::ReverseSubtract => 2,
            BlendOp::Min => 3,
            BlendOp::Max => 4,
            BlendOp::Abs => 5,
        }
    }
}

/// Blending factor.
#[derive(Clone, Copy, Debug, PartialEq, Eq, Structural)]
pub enum BlendFactor {
    Color,
    OneMinusColor,
    SrcAlpha,
    OneMinusSrcAlpha,
    DstAlpha,
    OneMinusDstAlpha,
    /// Use the fixed values provided to the blend function.
    Fix,
}

impl BlendFactor {
    /// The value the hardware uses for this variant.
    pub open spec fn raw(self) -> u32 {
        match self {
            BlendFactor::Color => 0,
            BlendFactor::OneMinusColor => 1,
            BlendFactor::SrcAlpha => 2,
            BlendFactor::OneMinusSrcAlpha => 3,
            BlendFactor::DstAlpha => 4,
            BlendFactor::OneMinusDstAlpha => 5,
            BlendFactor::Fix => 10,
        }
    }

    /// The value the hardware uses for this variant.
    pub fn value(self) -> (v: u32)
        ensures
            v == self.raw(),
    {
        match self {
            BlendFactor::Color => 0,
            BlendFactor::OneMinusColor => 1,
            BlendFactor::SrcAlpha => 2,
            BlendFactor::OneMinusSrcAlpha => 3,
            BlendFactor::DstAlpha => 4,
            BlendFactor::OneMinusDstAlpha => 5,
            BlendFactor::Fix => 10,
        }
    }
}

/// Stencil operations.
#[derive(Clone, Copy, Debug, PartialEq, Eq, Structural)]
pub enum StencilOperation {
    Keep,
    Zero,
    Replace,
    Invert,
    Incr,
    Decr,
}

impl StencilOperation {
    /// The value the hardware uses for this variant.
    pub open spec fn raw(self) -> u32 {
        match self {
            StencilOperation::Keep => 0,
            StencilOperation::Zero => 1,
            StencilOperation::Replace => 2,
            StencilOperation::Invert => 3,
            StencilOperation::Incr => 4,
            StencilOperation::Decr => 5,
        }
    }

    /// The value the hardware uses for this variant.
    pub fn value(self) -> (v: u32)
        ensures
            v == self.raw(),
    {
        match self {
            StencilOperation::Keep => 0,
            StencilOperation::Zero => 1,
            StencilOperation::Replace => 2,
            StencilOperation::Invert => 3,
            StencilOperation::Incr => 4,
            StencilOperation::Decr => 5,
        }
    }
}

/// Light modes.
#[derive(Clone, Copy, Debug, PartialEq, Eq, Structural)]
pub enum LightMode {
    SingleColor,
    SeparateSpecularColor,
}

impl LightMode {
    /// The value the hardware uses for this variant.
    pub open spec fn raw(self) -> u32 {
        match self {
            LightMode::SingleColor => 0,
            LightMode::SeparateSpecularColor => 1,
        }
    }

    /// The value the hardware uses for this variant.
    pub fn value(self) -> (v: u32)
        ensures
            v == self.raw(),
    {
        match self {
            LightMode::SingleColor => 0,
            LightMode::SeparateSpecularColor => 1,
        }
    }
}

/// Light type.
#[derive(Clone, Copy, Debug, PartialEq, Eq, Structural)]
pub enum LightType {
    Directional,
    Pointlight,
    Spotlight,
}

impl LightType {
    /// The value the hardware uses for this variant.
    pub open spec fn raw(self) -> u32 {
        match self {
            LightType::Directional => 0,
            LightType::Pointlight => 1,
            LightType::Spotlight => 2,
        }
    }

    /// The value the hardware uses for this variant.
    pub fn value(self) -> (v: u32)
        ensures
            v == self.raw(),
    {
        match self {
            LightType::Directional => 0,
            LightType::Pointlight => 1,
            LightType::Spotlight => 2,
        }
    }
}

/// Contexts.
#[derive(Clone, Copy, Debug, PartialEq, Eq, Structural)]
pub enum GuContextType {
    Direct,
    Call,
    Send,
}

impl GuContextType {
    /// The value the hardware uses for this variant.
    pub open spec fn raw(self) -> u32 {
        match self {
            GuContextType::Direct => 0,
            GuContextType::Call => 1,
            GuContextType::Send => 2,
        }
    }

    /// The value the hardware uses for this variant.
    pub fn value(self) -> (v: u32)
        ensures
            v == self.raw(),
    {
        match self {
            GuContextType::Direct => 0,
            GuContextType::Call => 1,
            GuContextType::Send => 2,
        }
    }
}

/// List queue mode.
#[derive(Clone, Copy, Debug, PartialEq, Eq, Structural)]
pub enum GuQueueMode {
    /// Place list last in the queue, so it executes in-order
    Tail,
    /// Place list first in queue so that it executes as soon as possible
    Head,
}

impl GuQueueMode {
    /// The value the hardware uses for this variant.
    pub open spec fn raw(self) -> u32 {
        match self {
            GuQueueMode::Tail => 0,
            GuQueueMode::Head => 1,
        }
    }

    /// The value the hardware uses for this variant.
    pub fn value(self) -> (v: u32)
        ensures
            v == self.raw(),
    {
        match self {
            GuQueueMode::Tail => 0,
            GuQueueMode::Head => 1,
        }
    }
}

/// Sync mode.
#[derive(Clone, Copy, Debug, PartialEq, Eq, Structural)]
pub enum GuSyncMode {
    Finish,
    Signal,
    Done,
    List,
    Send,
}

impl GuSyncMode {
    /// The value the hardware uses for this variant.
    pub open spec fn raw(self) -> u32 {
        match self {
            GuSyncMode::Finish => 0,
            GuSyncMode::Signal => 1,
            GuSyncMode::Done => 2,
            GuSyncMode::List => 3,
            GuSyncMode::Send => 4,
        }
    }

    /// The value the hardware uses for this variant.
    pub fn value(self) -> (v: u32)
        ensures
            v == self.raw(),
    {
        match self {
            GuSyncMode::Finish => 0,
            GuSyncMode::Signal => 1,
            GuSyncMode::Done => 2,
            GuSyncMode::List => 3,
            GuSyncMode::Send => 4,
        }
    }
}

/// Sync behavior.
#[derive(Clone, Copy, Debug, PartialEq, Eq, Structural)]
pub enum GuSyncBehavior {
    /// Wait for the GE list to be completed.
    Wait,
    /// Just peek at the current state.
    NoWait,
}

impl GuSyncBehavior {
    /// The value the hardware uses for this variant.
    pub open spec fn raw(self) -> u32 {
        match self {
            GuSyncBehavior::Wait => 0,
            GuSyncBehavior::NoWait => 1,
        }
    }

    /// The value the hardware uses for this variant.
    pub fn value(self) -> (v: u32)
        ensures
            v == self.raw(),
    {
        match self {
            GuSyncBehavior::Wait => 0,
            GuSyncBehavior::NoWait => 1,
        }
    }
}

/// GU callback ID.
#[derive(Clone, Copy, Debug, PartialEq, Eq, Structural)]
pub enum GuCallbackId {
    Signal,
    Finish,
}

impl GuCallbackId {
    /// The value the hardware uses for this variant.
    pub open spec fn raw(self) -> u32 {
        match self {
            GuCallbackId::Signal => 1,
            GuCallbackId::Finish => 4,
        }
    }

    /// The value the hardware uses for this variant.
    pub fn value(self) -> (v: u32)
        ensures
            v == self.raw(),
    {
        match self {
            GuCallbackId::Signal => 1,
            GuCallbackId::Finish => 4,
        }
    }
}

/// Signal behavior.
#[derive(Clone, Copy, Debug, PartialEq, Eq, Structural)]
pub enum SignalBehavior {
    Suspend,
    Continue,
}

impl SignalBehavior {
    /// The value the hardware uses for this variant.
    pub open spec fn raw(self) -> u32 {
        match self {
            SignalBehavior::Suspend => 1,
            SignalBehavior::Continue => 2,
        }
    }

    /// The value the hardware uses for this variant.
    pub fn value(self) -> (v: u32)
        ensures
            v == self.raw(),
    {
        match self {
            SignalBehavior::Suspend => 1,
            SignalBehavior::Continue => 2,
        }
    }
}

proof fn lemma_count_field(n: u32)
    by (bit_vector)
    ensures
        (n & 7) << 14u32 == (n % 8) * 0x4000,
        (n & 7) << 18u32 == (n % 8) * 0x4_0000,
        (n & 7) << 18u32 <= 0x1c_0000,
{
}

/// The vertex type decides how the vertices align and what kind of
/// information they contain.
#[derive(Clone, Copy, Debug, PartialEq, Eq, Structural)]
pub struct VertexType {
    bits: i32,
}

impl View for VertexType {
    type V = i32;

    closed spec fn view(&self) -> i32 {
        self.bits
    }
}

impl VertexType {
    /// 8-bit texture coordinates
    pub const TEXTURE_8BIT: i32 = 1;
    /// 16-bit texture coordinates
    pub const TEXTURE_16BIT: i32 = 2;
    /// 32-bit texture coordinates (float)
    pub const TEXTURE_32BITF: i32 = 3;
    /// 16-bit color (R5G6B5A0)
    pub const COLOR_5650: i32 = 0x10;
    /// 16-bit color (R5G5B5A1)
    pub const COLOR_5551: i32 = 0x14;
    /// 16-bit color (R4G4B4A4)
    pub const COLOR_4444: i32 = 0x18;
    /// 32-bit color (R8G8B8A8)
    pub const COLOR_8888: i32 = 0x1c;
    /// 8-bit normals
    pub const NORMAL_8BIT: i32 = 0x20;
    /// 16-bit normals
    pub const NORMAL_16BIT: i32 = 0x40;
    /// 32-bit normals (float)
    pub const NORMAL_32BITF: i32 = 0x60;
    /// 8-bit vertex position
    pub const VERTEX_8BIT: i32 = 0x80;
    /// 16-bit vertex position
    pub const VERTEX_16BIT: i32 = 0x100;
    /// 32-bit vertex position (float)
    pub const VERTEX_32BITF: i32 = 0x180;
    /// 8-bit weights
    pub const WEIGHT_8BIT: i32 = 0x200;
    /// 16-bit weights
    pub const WEIGHT_16BIT: i32 = 0x400;
    /// 32-bit weights (float)
    pub const WEIGHT_32BITF: i32 = 0x600;
    /// 8-bit vertex index
    pub const INDEX_8BIT: i32 = 0x800;
    /// 16-bit vertex index
    pub const INDEX_16BIT: i32 = 0x1000;
    /// One weight per vertex
    pub const WEIGHTS1: i32 = 0;
    pub const WEIGHTS2: i32 = 0x4000;
    pub const WEIGHTS3: i32 = 0x8000;
    pub const WEIGHTS4: i32 = 0xc000;
    pub const WEIGHTS5: i32 = 0x10000;
    pub const WEIGHTS6: i32 = 0x14000;
    pub const WEIGHTS7: i32 = 0x18000;
    pub const WEIGHTS8: i32 = 0x1c000;
    /// One vertex per primitive for morphing
    pub const VERTICES1: i32 = 0;
    pub const VERTICES2: i32 = 0x40000;
    pub const VERTICES3: i32 = 0x80000;
    pub const VERTICES4: i32 = 0xc0000;
    pub const VERTICES5: i32 = 0x100000;
    pub const VERTICES6: i32 = 0x140000;
    pub const VERTICES7: i32 = 0x180000;
    pub const VERTICES8: i32 = 0x1c0000;
    /// Coordinate is passed directly to the rasterizer
    pub const TRANSFORM_2D: i32 = 0x800000;
    /// Coordinate is transformed before being passed to rasterizer
    pub const TRANSFORM_3D: i32 = 0;

    /// The type with no flag set.
    pub fn empty() -> (t: Self)
        ensures
            t@ == 0,
    {
        VertexType { bits: 0 }
    }

    /// The type with exactly the given bits.
    pub fn from_bits_retain(bits: i32) -> (t: Self)
        ensures
            t@ == bits,
    {
        VertexType { bits }
    }

    /// The raw bits.
    pub fn bits(&self) -> (b: i32)
        ensures
            b == self@,
    {
        self.bits
    }

    /// Every bit of `other` is set in `self`.
    pub fn contains(&self, other: Self) -> (b: bool)
        ensures
            b == (self@ & other@ == other@),
    {
        self.bits & other.bits == other.bits
    }

    /// Some bit of `other` is set in `self`.
    pub fn intersects(&self, other: Self) -> (b: bool)
        ensures
            b == (self@ & other@ != 0),
    {
        self.bits & other.bits != 0
    }

    /// The bits set in either type.
    pub fn union(self, other: Self) -> (t: Self)
        ensures
            t@ == self@ | other@,
    {
        VertexType { bits: self.bits | other.bits }
    }

    /// The bits giving `n` (1 to 8) weights per vertex.
    pub fn num_weights(n: u32) -> (b: i32)
        requires
            n >= 1,
        ensures
            b == ((n - 1) % 8) * 0x4000,
    {
        proof {
            lemma_count_field((n - 1) as u32);
        }
        (((n - 1) & 7) << 14u32) as i32
    }

    /// The bits giving `n` (1 to 8) vertices per primitive for morphing.
    pub fn num_vertices(n: u32) -> (b: i32)
        requires
            n >= 1,
        ensures
            b == ((n - 1) % 8) * 0x4_0000,
    {
        proof {
            lemma_count_field((n - 1) as u32);
        }
        (((n - 1) & 7) << 18u32) as i32
    }
}

/// Clear buffer mask.
#[derive(Clone, Copy, Debug, PartialEq, Eq, Structural)]
pub struct ClearFlags {
    bits: u32,
}

impl View for ClearFlags {
    type V = u32;

    closed spec fn view(&self) -> u32 {
        self.bits
    }
}

impl ClearFlags {
    /// Clears the color buffer.
    pub const COLOR_BUFFER_BIT: u32 = 1;
    /// Clears the stencil buffer.
    pub const STENCIL_BUFFER_BIT: u32 = 2;
    /// Clears the depth buffer.
    pub const DEPTH_BUFFER_BIT: u32 = 4;
    /// Enables fast clearing. This divides the screen into 16 parts and
    /// clears them in parallel.
    pub const FAST_CLEAR_BIT: u32 = 16;

    /// The mask with exactly the given bits.
    pub fn from_bits_retain(bits: u32) -> (f: Self)
        ensures
            f@ == bits,
    {
        ClearFlags { bits }
    }

    /// The raw bits.
    pub fn bits(&self) -> (b: u32)
        ensures
            b == self@,
    {
        self.bits
    }

    /// The bits set in both masks.
    pub fn intersection(self, other: Self) -> (f: Self)
        ensures
            f@ == self@ & other@,
    {
        ClearFlags { bits: self.bits & other.bits }
    }

    /// The bits set in either mask.
    pub fn union(self, other: Self) -> (f: Self)
        ensures
            f@ == self@ | other@,
    {
        ClearFlags { bits: self.bits | other.bits }
    }
}

/// Light components.
#[derive(Clone, Copy, Debug, PartialEq, Eq, Structural)]
pub struct LightComponent {
    bits: i32,
}

impl View for LightComponent {
    type V = i32;

    closed spec fn view(&self) -> i32 {
        self.bits
    }
}

impl LightComponent {
    pub const AMBIENT: i32 = 1;
    pub const DIFFUSE: i32 = 2;
    pub const SPECULAR: i32 = 4;
    pub const UNKNOWN_LIGHT_COMPONENT: i32 = 8;

    /// The components with exactly the given bits.
    pub fn from_bits_retain(bits: i32) -> (c: Self)
        ensures
            c@ == bits,
    {
        LightComponent { bits }
    }

    /// The raw bits.
    pub fn bits(&self) -> (b: i32)
        ensures
            b == self@,
    {
        self.bits
    }

    /// Some bit of `other` is set in `self`.
    pub fn intersects(&self, other: Self) -> (b: bool)
        ensures
            b == (self@ & other@ != 0),
    {
        self.bits & other.bits != 0
    }

    /// The bits set in either set of components.
    pub fn union(self, other: Self) -> (c: Self)
        ensures
            c@ == self@ | other@,
    {
        LightComponent { bits: self.bits | other.bits }
    }
}

/// Map 8-bit color channels into one 32-bit value.
pub fn abgr(a: u8, b: u8, g: u8, r: u8) -> (c: u32)
    ensures
        c == pack(a as int, b as int, g as int, r as int),
{
    pack_channels(a, b, g, r)
}

/// Map 8-bit color channels into one 32-bit value.
pub fn argb(a: u8, r: u8, g: u8, b: u8) -> (c: u32)
    ensures
        c == pack(a as int, b as int, g as int, r as int),
{
    abgr(a, b, g, r)
}

/// Map 8-bit color channels into one 32-bit value.
pub fn rgba(r: u8, g: u8, b: u8, a: u8) -> (c: u32)
    ensures
        c == pack(a as int, b as int, g as int, r as int),
{
    argb(a, r, g, b)
}

/// The commands of the display list that starts the graphics engine, in
/// order: each state register once, then finish, end and two no-ops.
pub open spec fn gu_init_commands() -> Seq<GeCommand> {
    seq![
        GeCommand::Vaddr,
        GeCommand::Iaddr,
        GeCommand::Base,
        GeCommand::VertexType,
        GeCommand::OffsetAddr,
        GeCommand::Region1,
        GeCommand::Region2,
        GeCommand::LightingEnable,
        GeCommand::LightEnable0,
        GeCommand::LightEnable1,
        GeCommand::LightEnable2,
        GeCommand::LightEnable3,
        GeCommand::DepthClampEnable,
        GeCommand::CullFaceEnable,
        GeCommand::TextureMapEnable,
        GeCommand::FogEnable,
        GeCommand::DitherEnable,
        GeCommand::AlphaBlendEnable,
        GeCommand::AlphaTestEnable,
        GeCommand::ZTestEnable,
        GeCommand::StencilTestEnable,
        GeCommand::AntiAliasEnable,
        GeCommand::PatchCullEnable,
        GeCommand::ColorTestEnable,
        GeCommand::LogicOpEnable,
        GeCommand::BoneMatrixNumber,
        GeCommand::BoneMatrixData,
        GeCommand::MorphWeight0,
        GeCommand::MorphWeight1,
        GeCommand::MorphWeight2,
        GeCommand::MorphWeight3,
        GeCommand::MorphWeight4,
        GeCommand::MorphWeight5,
        GeCommand::MorphWeight6,
        GeCommand::MorphWeight7,
        GeCommand::PatchDivision,
        GeCommand::PatchPrimitive,
        GeCommand::PatchFacing,
        GeCommand::WorldMatrixNumber,
        GeCommand::WorldMatrixData,
        GeCommand::ViewMatrixNumber,
        GeCommand::ViewMatrixData,
        GeCommand::ProjMatrixNumber,
        GeCommand::ProjMatrixData,
        GeCommand::TGenMatrixNumber,
        GeCommand::TGenMatrixData,
        GeCommand::ViewportXScale,
        GeCommand::ViewportYScale,
        GeCommand::ViewportZScale,
        GeCommand::ViewportXCenter,
        GeCommand::ViewportYCenter,
        GeCommand::ViewportZCenter,
        GeCommand::TexScaleU,
        GeCommand::TexScaleV,
        GeCommand::TexOffsetU,
        GeCommand::TexOffsetV,
        GeCommand::OffsetX,
        GeCommand::OffsetY,
        GeCommand::ShadeMode,
        GeCommand::ReverseNormal,
        GeCommand::MaterialUpdate,
        GeCommand::MaterialEmissive,
        GeCommand::MaterialAmbient,
        GeCommand::MaterialDiffuse,
        GeCommand::MaterialSpecular,
        GeCommand::MaterialAlpha,
        GeCommand::MaterialSpecularCoef,
        GeCommand::AmbientColor,
        GeCommand::AmbientAlpha,
        GeCommand::LightMode,
        GeCommand::LightType0,
        GeCommand::LightType1,
        GeCommand::LightType2,
        GeCommand::LightType3,
        GeCommand::Light0X,
        GeCommand::Light0Y,
        GeCommand::Light0Z,
        GeCommand::Light1X,
        GeCommand::Light1Y,
        GeCommand::Light1Z,
        GeCommand::Light2X,
        GeCommand::Light2Y,
        GeCommand::Light2Z,
        GeCommand::Light3X,
        GeCommand::Light3Y,
        GeCommand::Light3Z,
        GeCommand::Light0DirectionX,
        GeCommand::Light0DirectionY,
        GeCommand::Light0DirectionZ,
        GeCommand::Light1DirectionX,
        GeCommand::Light1DirectionY,
        GeCommand::Light1DirectionZ,
        GeCommand::Light2DirectionX,
        GeCommand::Light2DirectionY,
        GeCommand::Light2DirectionZ,
        GeCommand::Light3DirectionX,
        GeCommand::Light3DirectionY,
        GeCommand::Light3DirectionZ,
        GeCommand::Light0ConstantAtten,
        GeCommand::Light0LinearAtten,
        GeCommand::Light0QuadtraticAtten,
        GeCommand::Light1ConstantAtten,
        GeCommand::Light1LinearAtten,
        GeCommand::Light1QuadtraticAtten,
        GeCommand::Light2ConstantAtten,
        GeCommand::Light2LinearAtten,
        GeCommand::Light2QuadtraticAtten,
        GeCommand::Light3ConstantAtten,
        GeCommand::Light3LinearAtten,
        GeCommand::Light3QuadtraticAtten,
        GeCommand::Light0ExponentAtten,
        GeCommand::Light1ExponentAtten,
        GeCommand::Light2ExponentAtten,
        GeCommand::Light3ExponentAtten,
        GeCommand::Light0CutoffAtten,
        GeCommand::Light1CutoffAtten,
        GeCommand::Light2CutoffAtten,
        GeCommand::Light3CutoffAtten,
        GeCommand::Light0Ambient,
        GeCommand::Light0Diffuse,
        GeCommand::Light0Specular,
        GeCommand::Light1Ambient,
        GeCommand::Light1Diffuse,
        GeCommand::Light1Specular,
        GeCommand::Light2Ambient,
        GeCommand::Light2Diffuse,
        GeCommand::Light2Specular,
        GeCommand::Light3Ambient,
        GeCommand::Light3Diffuse,
        GeCommand::Light3Specular,
        GeCommand::Cull,
        GeCommand::FrameBufPtr,
        GeCommand::FrameBufWidth,
        GeCommand::ZBufPtr,
        GeCommand::ZBufWidth,
        GeCommand::TexAddr0,
        GeCommand::TexAddr1,
        GeCommand::TexAddr2,
        GeCommand::TexAddr3,
        GeCommand::TexAddr4,
        GeCommand::TexAddr5,
        GeCommand::TexAddr6,
        GeCommand::TexAddr7,
        GeCommand::TexBufWidth0,
        GeCommand::TexBufWidth1,
        GeCommand::TexBufWidth2,
        GeCommand::TexBufWidth3,
        GeCommand::TexBufWidth4,
        GeCommand::TexBufWidth5,
        GeCommand::TexBufWidth6,
        GeCommand::TexBufWidth7,
        GeCommand::ClutAddr,
        GeCommand::ClutAddrUpper,
        GeCommand::TransferSrc,
        GeCommand::TransferSrcW,
        GeCommand::TransferDst,
        GeCommand::TransferDstW,
        GeCommand::TexSize0,
        GeCommand::TexSize1,
        GeCommand::TexSize2,
        GeCommand::TexSize3,
        GeCommand::TexSize4,
        GeCommand::TexSize5,
        GeCommand::TexSize6,
        GeCommand::TexSize7,
        GeCommand::TexMapMode,
        GeCommand::TexShadeLs,
        GeCommand::TexMode,
        GeCommand::TexFormat,
        GeCommand::LoadClut,
        GeCommand::ClutFormat,
        GeCommand::TexFilter,
        GeCommand::TexWrap,
        GeCommand::TexLevel,
        GeCommand::TexFunc,
        GeCommand::TexEnvColor,
        GeCommand::TexFlush,
        GeCommand::TexSync,
        GeCommand::Fog1,
        GeCommand::Fog2,
        GeCommand::FogColor,
        GeCommand::TexLodSlope,
        GeCommand::FramebufPixFormat,
        GeCommand::ClearMode,
        GeCommand::Scissor1,
        GeCommand::Scissor2,
        GeCommand::MinZ,
        GeCommand::MaxZ,
        GeCommand::ColorTest,
        GeCommand::ColorRef,
        GeCommand::ColorTestmask,
        GeCommand::AlphaTest,
        GeCommand::StencilTest,
        GeCommand::StencilOp,
        GeCommand::ZTest,
        GeCommand::BlendMode,
        GeCommand::BlendFixedA,
        GeCommand::BlendFixedB,
        GeCommand::Dith0,
        GeCommand::Dith1,
        GeCommand::Dith2,
        GeCommand::Dith3,
        GeCommand::LogicOp,
        GeCommand::ZWriteDisable,
        GeCommand::MaskRgb,
        GeCommand::MaskAlpha,
        GeCommand::TransferSrcPos,
        GeCommand::TransferDstPos,
        GeCommand::TransferSize,
        GeCommand::Vscx,
        GeCommand::Vscy,
        GeCommand::Vscz,
        GeCommand::Vtcs,
        GeCommand::Vtct,
        GeCommand::Vtcq,
        GeCommand::Vcv,
        GeCommand::Vap,
        GeCommand::Vfc,
        GeCommand::Vscv,
        GeCommand::Finish,
        GeCommand::End,
        GeCommand::Nop,
        GeCommand::Nop,
    ]
}

/// The display list that starts the graphics engine: each command of
/// [`gu_init_commands`] with a zero argument (its opcode in the most
/// significant byte).
pub fn gu_init_list() -> (l: Vec<u32>)
    ensures
        l@ == gu_init_commands().map_values(|c: GeCommand| command_word(c, 0)),
{
    let commands: [GeCommand; 223] = [
        GeCommand::Vaddr,
        GeCommand::Iaddr,
        GeCommand::Base,
        GeCommand::VertexType,
        GeCommand::OffsetAddr,
        GeCommand::Region1,
        GeCommand::Region2,
        GeCommand::LightingEnable,
        GeCommand::LightEnable0,
        GeCommand::LightEnable1,
        GeCommand::LightEnable2,
        GeCommand::LightEnable3,
        GeCommand::DepthClampEnable,
        GeCommand::CullFaceEnable,
        GeCommand::TextureMapEnable,
        GeCommand::FogEnable,
        GeCommand::DitherEnable,
        GeCommand::AlphaBlendEnable,
        GeCommand::AlphaTestEnable,
        GeCommand::ZTestEnable,
        GeCommand::StencilTestEnable,
        GeCommand::AntiAliasEnable,
        GeCommand::PatchCullEnable,
        GeCommand::ColorTestEnable,
        GeCommand::LogicOpEnable,
        GeCommand::BoneMatrixNumber,
        GeCommand::BoneMatrixData,
        GeCommand::MorphWeight0,
        GeCommand::MorphWeight1,
        GeCommand::MorphWeight2,
        GeCommand::MorphWeight3,
        GeCommand::MorphWeight4,
        GeCommand::MorphWeight5,
        GeCommand::MorphWeight6,
        GeCommand::MorphWeight7,
        GeCommand::PatchDivision,
        GeCommand::PatchPrimitive,
        GeCommand::PatchFacing,
        GeCommand::WorldMatrixNumber,
        GeCommand::WorldMatrixData,
        GeCommand::ViewMatrixNumber,
        GeCommand::ViewMatrixData,
        GeCommand::ProjMatrixNumber,
        GeCommand::ProjMatrixData,
        GeCommand::TGenMatrixNumber,
        GeCommand::TGenMatrixData,
        GeCommand::ViewportXScale,
        GeCommand::ViewportYScale,
        GeCommand::ViewportZScale,
        GeCommand::ViewportXCenter,
        GeCommand::ViewportYCenter,
        GeCommand::ViewportZCenter,
        GeCommand::TexScaleU,
        GeCommand::TexScaleV,
        GeCommand::TexOffsetU,
        GeCommand::TexOffsetV,
        GeCommand::OffsetX,
        GeCommand::OffsetY,
        GeCommand::ShadeMode,
        GeCommand::ReverseNormal,
        GeCommand::MaterialUpdate,
        GeCommand::MaterialEmissive,
        GeCommand::MaterialAmbient,
        GeCommand::MaterialDiffuse,
        GeCommand::MaterialSpecular,
        GeCommand::MaterialAlpha,
        GeCommand::MaterialSpecularCoef,
        GeCommand::AmbientColor,
        GeCommand::AmbientAlpha,
        GeCommand::LightMode,
        GeCommand::LightType0,
        GeCommand::LightType1,
        GeCommand::LightType2,
        GeCommand::LightType3,
        GeCommand::Light0X,
        GeCommand::Light0Y,
        GeCommand::Light0Z,
        GeCommand::Light1X,
        GeCommand::Light1Y,
        GeCommand::Light1Z,
        GeCommand::Light2X,
        GeCommand::Light2Y,
        GeCommand::Light2Z,
        GeCommand::Light3X,
        GeCommand::Light3Y,
        GeCommand::Light3Z,
        GeCommand::Light0DirectionX,
        GeCommand::Light0DirectionY,
        GeCommand::Light0DirectionZ,
        GeCommand::Light1DirectionX,
        GeCommand::Light1DirectionY,
        GeCommand::Light1DirectionZ,
        GeCommand::Light2DirectionX,
        GeCommand::Light2DirectionY,
        GeCommand::Light2DirectionZ,
        GeCommand::Light3DirectionX,
        GeCommand::Light3DirectionY,
        GeCommand::Light3DirectionZ,
        GeCommand::Light0ConstantAtten,
        GeCommand::Light0LinearAtten,
        GeCommand::Light0QuadtraticAtten,
        GeCommand::Light1ConstantAtten,
        GeCommand::Light1LinearAtten,
        GeCommand::Light1QuadtraticAtten,
        GeCommand::Light2ConstantAtten,
        GeCommand::Light2LinearAtten,
        GeCommand::Light2QuadtraticAtten,
        GeCommand::Light3ConstantAtten,
        GeCommand::Light3LinearAtten,
        GeCommand::Light3QuadtraticAtten,
        GeCommand::Light0ExponentAtten,
        GeCommand::Light1ExponentAtten,
        GeCommand::Light2ExponentAtten,
        GeCommand::Light3ExponentAtten,
        GeCommand::Light0CutoffAtten,
        GeCommand::Light1CutoffAtten,
        GeCommand::Light2CutoffAtten,
        GeCommand::Light3CutoffAtten,
        GeCommand::Light0Ambient,
        GeCommand::Light0Diffuse,
        GeCommand::Light0Specular,
        GeCommand::Light1Ambient,
        GeCommand::Light1Diffuse,
        GeCommand::Light1Specular,
        GeCommand::Light2Ambient,
        GeCommand::Light2Diffuse,
        GeCommand::Light2Specular,
        GeCommand::Light3Ambient,
        GeCommand::Light3Diffuse,
        GeCommand::Light3Specular,
        GeCommand::Cull,
        GeCommand::FrameBufPtr,
        GeCommand::FrameBufWidth,
        GeCommand::ZBufPtr,
        GeCommand::ZBufWidth,
        GeCommand::TexAddr0,
        GeCommand::TexAddr1,
        GeCommand::TexAddr2,
        GeCommand::TexAddr3,
        GeCommand::TexAddr4,
        GeCommand::TexAddr5,
        GeCommand::TexAddr6,
        GeCommand::TexAddr7,
        GeCommand::TexBufWidth0,
        GeCommand::TexBufWidth1,
        GeCommand::TexBufWidth2,
        GeCommand::TexBufWidth3,
        GeCommand::TexBufWidth4,
        GeCommand::TexBufWidth5,
        GeCommand::TexBufWidth6,
        GeCommand::TexBufWidth7,
        GeCommand::ClutAddr,
        GeCommand::ClutAddrUpper,
        GeCommand::TransferSrc,
        GeCommand::TransferSrcW,
        GeCommand::TransferDst,
        GeCommand::TransferDstW,
        GeCommand::TexSize0,
        GeCommand::TexSize1,
        GeCommand::TexSize2,
        GeCommand::TexSize3,
        GeCommand::TexSize4,
        GeCommand::TexSize5,
        GeCommand::TexSize6,
        GeCommand::TexSize7,
        GeCommand::TexMapMode,
        GeCommand::TexShadeLs,
        GeCommand::TexMode,
        GeCommand::TexFormat,
        GeCommand::LoadClut,
        GeCommand::ClutFormat,
        GeCommand::TexFilter,
        GeCommand::TexWrap,
        GeCommand::TexLevel,
        GeCommand::TexFunc,
        GeCommand::TexEnvColor,
        GeCommand::TexFlush,
        GeCommand::TexSync,
        GeCommand::Fog1,
        GeCommand::Fog2,
        GeCommand::FogColor,
        GeCommand::TexLodSlope,
        GeCommand::FramebufPixFormat,
        GeCommand::ClearMode,
        GeCommand::Scissor1,
        GeCommand::Scissor2,
        GeCommand::MinZ,
        GeCommand::MaxZ,
        GeCommand::ColorTest,
        GeCommand::ColorRef,
        GeCommand::ColorTestmask,
        GeCommand::AlphaTest,
        GeCommand::StencilTest,
        GeCommand::StencilOp,
        GeCommand::ZTest,
        GeCommand::BlendMode,
        GeCommand::BlendFixedA,
        GeCommand::BlendFixedB,
        GeCommand::Dith0,
        GeCommand::Dith1,
        GeCommand::Dith2,
        GeCommand::Dith3,
        GeCommand::LogicOp,
        GeCommand::ZWriteDisable,
        GeCommand::MaskRgb,
        GeCommand::MaskAlpha,
        GeCommand::TransferSrcPos,
        GeCommand::TransferDstPos,
        GeCommand::TransferSize,
        GeCommand::Vscx,
        GeCommand::Vscy,
        GeCommand::Vscz,
        GeCommand::Vtcs,
        GeCommand::Vtct,
        GeCommand::Vtcq,
        GeCommand::Vcv,
        GeCommand::Vap,
        GeCommand::Vfc,
        GeCommand::Vscv,
        GeCommand::Finish,
        GeCommand::End,
        GeCommand::Nop,
        GeCommand::Nop,
    ];
    let mut l: Vec<u32> = Vec::new();
    let mut i: usize = 0;
    while i < 223
        invariant
            i <= 223,
            commands@ == gu_init_commands(),
            l@.len() == i,
            forall|j: int| 0 <= j < i ==> l@[j] == command_word(#[trigger] commands@[j], 0),
        decreases 223 - i,
    {
        l.push(encode_command(commands[i], 0));
        i += 1;
    }
    proof {
        assert(l@ =~= gu_init_commands().map_values(|c: GeCommand| command_word(c, 0)));
    }
    l
}

} // verus!
