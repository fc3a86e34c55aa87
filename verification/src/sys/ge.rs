use vstd::prelude::*;

verus! {

/// Graphics Engine (GE) command opcodes: the most significant byte of each display-list word.
#[derive(Clone, Copy, Debug, PartialEq, Eq, Structural)]
pub enum GeCommand {
    Nop,
    Vaddr,
    Iaddr,
    Prim,
    Bezier,
    Spline,
    BoundingBox,
    Jump,
    BJump,
    Call,
    Ret,
    End,
    Signal,
    Finish,
    Base,
    VertexType,
    OffsetAddr,
    Origin,
    Region1,
    Region2,
    LightingEnable,
    LightEnable0,
    LightEnable1,
    LightEnable2,
    LightEnable3,
    DepthClampEnable,
    CullFaceEnable,
    TextureMapEnable,
    FogEnable,
    DitherEnable,
    AlphaBlendEnable,
    AlphaTestEnable,
    ZTestEnable,
    StencilTestEnable,
    AntiAliasEnable,
    PatchCullEnable,
    ColorTestEnable,
    LogicOpEnable,
    BoneMatrixNumber,
    BoneMatrixData,
    MorphWeight0,
    MorphWeight1,
    MorphWeight2,
    MorphWeight3,
    MorphWeight4,
    MorphWeight5,
    MorphWeight6,
    MorphWeight7,
    PatchDivision,
    PatchPrimitive,
    PatchFacing,
    WorldMatrixNumber,
    WorldMatrixData,
    ViewMatrixNumber,
    ViewMatrixData,
    ProjMatrixNumber,
    ProjMatrixData,
    TGenMatrixNumber,
    TGenMatrixData,
    ViewportXScale,
    ViewportYScale,
    ViewportZScale,
    ViewportXCenter,
    ViewportYCenter,
    ViewportZCenter,
    TexScaleU,
    TexScaleV,
    TexOffsetU,
    TexOffsetV,
    OffsetX,
    OffsetY,
    ShadeMode,
    ReverseNormal,
    MaterialUpdate,
    MaterialEmissive,
    MaterialAmbient,
    MaterialDiffuse,
    MaterialSpecular,
    MaterialAlpha,
    MaterialSpecularCoef,
    AmbientColor,
    AmbientAlpha,
    LightMode,
    LightType0,
    LightType1,
    LightType2,
    LightType3,
    Light0X,
    Light0Y,
    Light0Z,
    Light1X,
    Light1Y,
    Light1Z,
    Light2X,
    Light2Y,
    Light2Z,
    Light3X,
    Light3Y,
    Light3Z,
    Light0DirectionX,
    Light0DirectionY,
    Light0DirectionZ,
    Light1DirectionX,
    Light1DirectionY,
    Light1DirectionZ,
    Light2DirectionX,
    Light2DirectionY,
    Light2DirectionZ,
    Light3DirectionX,
    Light3DirectionY,
    Light3DirectionZ,
    Light0ConstantAtten,
    Light0LinearAtten,
    Light0QuadtraticAtten,
    Light1ConstantAtten,
    Light1LinearAtten,
    Light1QuadtraticAtten,
    Light2ConstantAtten,
    Light2LinearAtten,
    Light2QuadtraticAtten,
    Light3ConstantAtten,
    Light3LinearAtten,
    Light3QuadtraticAtten,
    Light0ExponentAtten,
    Light1ExponentAtten,
    Light2ExponentAtten,
    Light3ExponentAtten,
    Light0CutoffAtten,
    Light1CutoffAtten,
    Light2CutoffAtten,
    Light3CutoffAtten,
    Light0Ambient,
    Light0Diffuse,
    Light0Specular,
    Light1Ambient,
    Light1Diffuse,
    Light1Specular,
    Light2Ambient,
    Light2Diffuse,
    Light2Specular,
    Light3Ambient,
    Light3Diffuse,
    Light3Specular,
    Cull,
    FrameBufPtr,
    FrameBufWidth,
    ZBufPtr,
    ZBufWidth,
    TexAddr0,
    TexAddr1,
    TexAddr2,
    TexAddr3,
    TexAddr4,
    TexAddr5,
    TexAddr6,
    TexAddr7,
    TexBufWidth0,
    TexBufWidth1,
    TexBufWidth2,
    TexBufWidth3,
    TexBufWidth4,
    TexBufWidth5,
    TexBufWidth6,
    TexBufWidth7,
    ClutAddr,
    ClutAddrUpper,
    TransferSrc,
    TransferSrcW,
    TransferDst,
    TransferDstW,
    TexSize0,
    TexSize1,
    TexSize2,
    TexSize3,
    TexSize4,
    TexSize5,
    TexSize6,
    TexSize7,
    TexMapMode,
    TexShadeLs,
    TexMode,
    TexFormat,
    LoadClut,
    ClutFormat,
    TexFilter,
    TexWrap,
    TexLevel,
    TexFunc,
    TexEnvColor,
    TexFlush,
    TexSync,
    Fog1,
    Fog2,
    FogColor,
    TexLodSlope,
    FramebufPixFormat,
    ClearMode,
    Scissor1,
    Scissor2,
    MinZ,
    MaxZ,
    ColorTest,
    ColorRef,
    ColorTestmask,
    AlphaTest,
    StencilTest,
    StencilOp,
    ZTest,
    BlendMode,
    BlendFixedA,
    BlendFixedB,
    Dith0,
    Dith1,
    Dith2,
    Dith3,
    LogicOp,
    ZWriteDisable,
    MaskRgb,
    MaskAlpha,
    TransferStart,
    TransferSrcPos,
    TransferDstPos,
    TransferSize,
    Vscx,
    Vscy,
    Vscz,
    Vtcs,
    Vtct,
    Vtcq,
    Vcv,
    Vap,
    Vfc,
    Vscv,
}

impl GeCommand {
    /// The opcode for this variant.
    pub open spec fn raw(self) -> u32 {
        match self {
            GeCommand::Nop => 0x00,
            GeCommand::Vaddr => 0x01,
            GeCommand::Iaddr => 0x02,
            GeCommand::Prim => 0x04,
            GeCommand::Bezier => 0x05,
            GeCommand::Spline => 0x06,
            GeCommand::BoundingBox => 0x07,
            GeCommand::Jump => 0x08,
            GeCommand::BJump => 0x09,
            GeCommand::Call => 0x0a,
            GeCommand::Ret => 0x0b,
            GeCommand::End => 0x0c,
            GeCommand::Signal => 0x0e,
            GeCommand::Finish => 0x0f,
            GeCommand::Base => 0x10,
            GeCommand::VertexType => 0x12,
            GeCommand::OffsetAddr => 0x13,
            GeCommand::Origin => 0x14,
            GeCommand::Region1 => 0x15,
            GeCommand::Region2 => 0x16,
            GeCommand::LightingEnable => 0x17,
            GeCommand::LightEnable0 => 0x18,
            GeCommand::LightEnable1 => 0x19,
            GeCommand::LightEnable2 => 0x1a,
            GeCommand::LightEnable3 => 0x1b,
            GeCommand::DepthClampEnable => 0x1c,
            GeCommand::CullFaceEnable => 0x1d,
            GeCommand::TextureMapEnable => 0x1e,
            GeCommand::FogEnable => 0x1f,
            GeCommand::DitherEnable => 0x20,
            GeCommand::AlphaBlendEnable => 0x21,
            GeCommand::AlphaTestEnable => 0x22,
            GeCommand::ZTestEnable => 0x23,
            GeCommand::StencilTestEnable => 0x24,
            GeCommand::AntiAliasEnable => 0x25,
            GeCommand::PatchCullEnable => 0x26,
            GeCommand::ColorTestEnable => 0x27,
            GeCommand::LogicOpEnable => 0x28,
            GeCommand::BoneMatrixNumber => 0x2a,
            GeCommand::BoneMatrixData => 0x2b,
            GeCommand::MorphWeight0 => 0x2c,
            GeCommand::MorphWeight1 => 0x2d,
            GeCommand::MorphWeight2 => 0x2e,
            GeCommand::MorphWeight3 => 0x2f,
            GeCommand::MorphWeight4 => 0x30,
            GeCommand::MorphWeight5 => 0x31,
            GeCommand::MorphWeight6 => 0x32,
            GeCommand::MorphWeight7 => 0x33,
            GeCommand::PatchDivision => 0x36,
            GeCommand::PatchPrimitive => 0x37,
            GeCommand::PatchFacing => 0x38,
            GeCommand::WorldMatrixNumber => 0x3a,
            GeCommand::WorldMatrixData => 0x3b,
            GeCommand::ViewMatrixNumber => 0x3c,
            GeCommand::ViewMatrixData => 0x3d,
            GeCommand::ProjMatrixNumber => 0x3e,
            GeCommand::ProjMatrixData => 0x3f,
            GeCommand::TGenMatrixNumber => 0x40,
            GeCommand::TGenMatrixData => 0x41,
            GeCommand::ViewportXScale => 0x42,
            GeCommand::ViewportYScale => 0x43,
            GeCommand::ViewportZScale => 0x44,
            GeCommand::ViewportXCenter => 0x45,
            GeCommand::ViewportYCenter => 0x46,
            GeCommand::ViewportZCenter => 0x47,
            GeCommand::TexScaleU => 0x48,
            GeCommand::TexScaleV => 0x49,
            GeCommand::TexOffsetU => 0x4a,
            GeCommand::TexOffsetV => 0x4b,
            GeCommand::OffsetX => 0x4c,
            GeCommand::OffsetY => 0x4d,
            GeCommand::ShadeMode => 0x50,
            GeCommand::ReverseNormal => 0x51,
            GeCommand::MaterialUpdate => 0x53,
            GeCommand::MaterialEmissive => 0x54,
            GeCommand::MaterialAmbient => 0x55,
            GeCommand::MaterialDiffuse => 0x56,
            GeCommand::MaterialSpecular => 0x57,
            GeCommand::MaterialAlpha => 0x58,
            GeCommand::MaterialSpecularCoef => 0x5b,
            GeCommand::AmbientColor => 0x5c,
            GeCommand::AmbientAlpha => 0x5d,
            GeCommand::LightMode => 0x5e,
            GeCommand::LightType0 => 0x5f,
            GeCommand::LightType1 => 0x60,
            GeCommand::LightType2 => 0x61,
            GeCommand::LightType3 => 0x62,
            GeCommand::Light0X => 0x63,
            GeCommand::Light0Y => 0x64,
            GeCommand::Light0Z => 0x65,
            GeCommand::Light1X => 0x66,
            GeCommand::Light1Y => 0x67,
            GeCommand::Light1Z => 0x68,
            GeCommand::Light2X => 0x69,
            GeCommand::Light2Y => 0x6a,
            GeCommand::Light2Z => 0x6b,
            GeCommand::Light3X => 0x6c,
            GeCommand::Light3Y => 0x6d,
            GeCommand::Light3Z => 0x6e,
            GeCommand::Light0DirectionX => 0x6f,
            GeCommand::Light0DirectionY => 0x70,
            GeCommand::Light0DirectionZ => 0x71,
            GeCommand::Light1DirectionX => 0x72,
            GeCommand::Light1DirectionY => 0x73,
            GeCommand::Light1DirectionZ => 0x74,
            GeCommand::Light2DirectionX => 0x75,
            GeCommand::Light2DirectionY => 0x76,
            GeCommand::Light2DirectionZ => 0x77,
            GeCommand::Light3DirectionX => 0x78,
            GeCommand::Light3DirectionY => 0x79,
            GeCommand::Light3DirectionZ => 0x7a,
            GeCommand::Light0ConstantAtten => 0x7b,
            GeCommand::Light0LinearAtten => 0x7c,
            GeCommand::Light0QuadtraticAtten => 0x7d,
            GeCommand::Light1ConstantAtten => 0x7e,
            GeCommand::Light1LinearAtten => 0x7f,
            GeCommand::Light1QuadtraticAtten => 0x80,
            GeCommand::Light2ConstantAtten => 0x81,
            GeCommand::Light2LinearAtten => 0x82,
            GeCommand::Light2QuadtraticAtten => 0x83,
            GeCommand::Light3ConstantAtten => 0x84,
            GeCommand::Light3LinearAtten => 0x85,
            GeCommand::Light3QuadtraticAtten => 0x86,
            GeCommand::Light0ExponentAtten => 0x87,
            GeCommand::Light1ExponentAtten => 0x88,
            GeCommand::Light2ExponentAtten => 0x89,
            GeCommand::Light3ExponentAtten => 0x8a,
            GeCommand::Light0CutoffAtten => 0x8b,
            GeCommand::Light1CutoffAtten => 0x8c,
            GeCommand::Light2CutoffAtten => 0x8d,
            GeCommand::Light3CutoffAtten => 0x8e,
            GeCommand::Light0Ambient => 0x8f,
            GeCommand::Light0Diffuse => 0x90,
            GeCommand::Light0Specular => 0x91,
            GeCommand::Light1Ambient => 0x92,
            GeCommand::Light1Diffuse => 0x93,
            GeCommand::Light1Specular => 0x94,
            GeCommand::Light2Ambient => 0x95,
            GeCommand::Light2Diffuse => 0x96,
            GeCommand::Light2Specular => 0x97,
            GeCommand::Light3Ambient => 0x98,
            GeCommand::Light3Diffuse => 0x99,
            GeCommand::Light3Specular => 0x9a,
            GeCommand::Cull => 0x9b,
            GeCommand::FrameBufPtr => 0x9c,
            GeCommand::FrameBufWidth => 0x9d,
            GeCommand::ZBufPtr => 0x9e,
            GeCommand::ZBufWidth => 0x9f,
            GeCommand::TexAddr0 => 0xa0,
            GeCommand::TexAddr1 => 0xa1,
            GeCommand::TexAddr2 => 0xa2,
            GeCommand::TexAddr3 => 0xa3,
            GeCommand::TexAddr4 => 0xa4,
            GeCommand::TexAddr5 => 0xa5,
            GeCommand::TexAddr6 => 0xa6,
            GeCommand::TexAddr7 => 0xa7,
            GeCommand::TexBufWidth0 => 0xa8,
            GeCommand::TexBufWidth1 => 0xa9,
            GeCommand::TexBufWidth2 => 0xaa,
            GeCommand::TexBufWidth3 => 0xab,
            GeCommand::TexBufWidth4 => 0xac,
            GeCommand::TexBufWidth5 => 0xad,
            GeCommand::TexBufWidth6 => 0xae,
            GeCommand::TexBufWidth7 => 0xaf,
            GeCommand::ClutAddr => 0xb0,
            GeCommand::ClutAddrUpper => 0xb1,
            GeCommand::TransferSrc => 0xb2,
            GeCommand::TransferSrcW => 0xb3,
            GeCommand::TransferDst => 0xb4,
            GeCommand::TransferDstW => 0xb5,
            GeCommand::TexSize0 => 0xb8,
            GeCommand::TexSize1 => 0xb9,
            GeCommand::TexSize2 => 0xba,
            GeCommand::TexSize3 => 0xbb,
            GeCommand::TexSize4 => 0xbc,
            GeCommand::TexSize5 => 0xbd,
            GeCommand::TexSize6 => 0xbe,
            GeCommand::TexSize7 => 0xbf,
            GeCommand::TexMapMode => 0xc0,
            GeCommand::TexShadeLs => 0xc1,
            GeCommand::TexMode => 0xc2,
            GeCommand::TexFormat => 0xc3,
            GeCommand::LoadClut => 0xc4,
            GeCommand::ClutFormat => 0xc5,
            GeCommand::TexFilter => 0xc6,
            GeCommand::TexWrap => 0xc7,
            GeCommand::TexLevel => 0xc8,
            GeCommand::TexFunc => 0xc9,
            GeCommand::TexEnvColor => 0xca,
            GeCommand::TexFlush => 0xcb,
            GeCommand::TexSync => 0xcc,
            GeCommand::Fog1 => 0xcd,
            GeCommand::Fog2 => 0xce,
            GeCommand::FogColor => 0xcf,
            GeCommand::TexLodSlope => 0xd0,
            GeCommand::FramebufPixFormat => 0xd2,
            GeCommand::ClearMode => 0xd3,
            GeCommand::Scissor1 => 0xd4,
            GeCommand::Scissor2 => 0xd5,
            GeCommand::MinZ => 0xd6,
            GeCommand::MaxZ => 0xd7,
            GeCommand::ColorTest => 0xd8,
            GeCommand::ColorRef => 0xd9,
            GeCommand::ColorTestmask => 0xda,
            GeCommand::AlphaTest => 0xdb,
            GeCommand::StencilTest => 0xdc,
            GeCommand::StencilOp => 0xdd,
            GeCommand::ZTest => 0xde,
            GeCommand::BlendMode => 0xdf,
            GeCommand::BlendFixedA => 0xe0,
            GeCommand::BlendFixedB => 0xe1,
            GeCommand::Dith0 => 0xe2,
            GeCommand::Dith1 => 0xe3,
            GeCommand::Dith2 => 0xe4,
            GeCommand::Dith3 => 0xe5,
            GeCommand::LogicOp => 0xe6,
            GeCommand::ZWriteDisable => 0xe7,
            GeCommand::MaskRgb => 0xe8,
            GeCommand::MaskAlpha => 0xe9,
            GeCommand::TransferStart => 0xea,
            GeCommand::TransferSrcPos => 0xeb,
            GeCommand::TransferDstPos => 0xec,
            GeCommand::TransferSize => 0xee,
            GeCommand::Vscx => 0xf0,
            GeCommand::Vscy => 0xf1,
            GeCommand::Vscz => 0xf2,
            GeCommand::Vtcs => 0xf3,
            GeCommand::Vtct => 0xf4,
            GeCommand::Vtcq => 0xf5,
            GeCommand::Vcv => 0xf6,
            GeCommand::Vap => 0xf7,
            GeCommand::Vfc => 0xf8,
            GeCommand::Vscv => 0xf9,
        }
    }

    /// The opcode.
    pub fn value(self) -> (v: u32)
        ensures
            v == self.raw(),
    {
        match self {
            GeCommand::Nop => 0x00,
            GeCommand::Vaddr => 0x01,
            GeCommand::Iaddr => 0x02,
            GeCommand::Prim => 0x04,
            GeCommand::Bezier => 0x05,
            GeCommand::Spline => 0x06,
            GeCommand::BoundingBox => 0x07,
            GeCommand::Jump => 0x08,
            GeCommand::BJump => 0x09,
            GeCommand::Call => 0x0a,
            GeCommand::Ret => 0x0b,
            GeCommand::End => 0x0c,
            GeCommand::Signal => 0x0e,
            GeCommand::Finish => 0x0f,
            GeCommand::Base => 0x10,
            GeCommand::VertexType => 0x12,
            GeCommand::OffsetAddr => 0x13,
            GeCommand::Origin => 0x14,
            GeCommand::Region1 => 0x15,
            GeCommand::Region2 => 0x16,
            GeCommand::LightingEnable => 0x17,
            GeCommand::LightEnable0 => 0x18,
            GeCommand::LightEnable1 => 0x19,
            GeCommand::LightEnable2 => 0x1a,
            GeCommand::LightEnable3 => 0x1b,
            GeCommand::DepthClampEnable => 0x1c,
            GeCommand::CullFaceEnable => 0x1d,
            GeCommand::TextureMapEnable => 0x1e,
            GeCommand::FogEnable => 0x1f,
            GeCommand::DitherEnable => 0x20,
            GeCommand::AlphaBlendEnable => 0x21,
            GeCommand::AlphaTestEnable => 0x22,
            GeCommand::ZTestEnable => 0x23,
            GeCommand::StencilTestEnable => 0x24,
            GeCommand::AntiAliasEnable => 0x25,
            GeCommand::PatchCullEnable => 0x26,
            GeCommand::ColorTestEnable => 0x27,
            GeCommand::LogicOpEnable => 0x28,
            GeCommand::BoneMatrixNumber => 0x2a,
            GeCommand::BoneMatrixData => 0x2b,
            GeCommand::MorphWeight0 => 0x2c,
            GeCommand::MorphWeight1 => 0x2d,
            GeCommand::MorphWeight2 => 0x2e,
            GeCommand::MorphWeight3 => 0x2f,
            GeCommand::MorphWeight4 => 0x30,
            GeCommand::MorphWeight5 => 0x31,
            GeCommand::MorphWeight6 => 0x32,
            GeCommand::MorphWeight7 => 0x33,
            GeCommand::PatchDivision => 0x36,
            GeCommand::PatchPrimitive => 0x37,
            GeCommand::PatchFacing => 0x38,
            GeCommand::WorldMatrixNumber => 0x3a,
            GeCommand::WorldMatrixData => 0x3b,
            GeCommand::ViewMatrixNumber => 0x3c,
            GeCommand::ViewMatrixData => 0x3d,
            GeCommand::ProjMatrixNumber => 0x3e,
            GeCommand::ProjMatrixData => 0x3f,
            GeCommand::TGenMatrixNumber => 0x40,
            GeCommand::TGenMatrixData => 0x41,
            GeCommand::ViewportXScale => 0x42,
            GeCommand::ViewportYScale => 0x43,
            GeCommand::ViewportZScale => 0x44,
            GeCommand::ViewportXCenter => 0x45,
            GeCommand::ViewportYCenter => 0x46,
            GeCommand::ViewportZCenter => 0x47,
            GeCommand::TexScaleU => 0x48,
            GeCommand::TexScaleV => 0x49,
            GeCommand::TexOffsetU => 0x4a,
            GeCommand::TexOffsetV => 0x4b,
            GeCommand::OffsetX => 0x4c,
            GeCommand::OffsetY => 0x4d,
            GeCommand::ShadeMode => 0x50,
            GeCommand::ReverseNormal => 0x51,
            GeCommand::MaterialUpdate => 0x53,
            GeCommand::MaterialEmissive => 0x54,
            GeCommand::MaterialAmbient => 0x55,
            GeCommand::MaterialDiffuse => 0x56,
            GeCommand::MaterialSpecular => 0x57,
            GeCommand::MaterialAlpha => 0x58,
            GeCommand::MaterialSpecularCoef => 0x5b,
            GeCommand::AmbientColor => 0x5c,
            GeCommand::AmbientAlpha => 0x5d,
            GeCommand::LightMode => 0x5e,
            GeCommand::LightType0 => 0x5f,
            GeCommand::LightType1 => 0x60,
            GeCommand::LightType2 => 0x61,
            GeCommand::LightType3 => 0x62,
            GeCommand::Light0X => 0x63,
            GeCommand::Light0Y => 0x64,
            GeCommand::Light0Z => 0x65,
            GeCommand::Light1X => 0x66,
            GeCommand::Light1Y => 0x67,
            GeCommand::Light1Z => 0x68,
            GeCommand::Light2X => 0x69,
            GeCommand::Light2Y => 0x6a,
            GeCommand::Light2Z => 0x6b,
            GeCommand::Light3X => 0x6c,
            GeCommand::Light3Y => 0x6d,
            GeCommand::Light3Z => 0x6e,
            GeCommand::Light0DirectionX => 0x6f,
            GeCommand::Light0DirectionY => 0x70,
            GeCommand::Light0DirectionZ => 0x71,
            GeCommand::Light1DirectionX => 0x72,
            GeCommand::Light1DirectionY => 0x73,
            GeCommand::Light1DirectionZ => 0x74,
            GeCommand::Light2DirectionX => 0x75,
            GeCommand::Light2DirectionY => 0x76,
            GeCommand::Light2DirectionZ => 0x77,
            GeCommand::Light3DirectionX => 0x78,
            GeCommand::Light3DirectionY => 0x79,
            GeCommand::Light3DirectionZ => 0x7a,
            GeCommand::Light0ConstantAtten => 0x7b,
            GeCommand::Light0LinearAtten => 0x7c,
            GeCommand::Light0QuadtraticAtten => 0x7d,
            GeCommand::Light1ConstantAtten => 0x7e,
            GeCommand::Light1LinearAtten => 0x7f,
            GeCommand::Light1QuadtraticAtten => 0x80,
            GeCommand::Light2ConstantAtten => 0x81,
            GeCommand::Light2LinearAtten => 0x82,
            GeCommand::Light2QuadtraticAtten => 0x83,
            GeCommand::Light3ConstantAtten => 0x84,
            GeCommand::Light3LinearAtten => 0x85,
            GeCommand::Light3QuadtraticAtten => 0x86,
            GeCommand::Light0ExponentAtten => 0x87,
            GeCommand::Light1ExponentAtten => 0x88,
            GeCommand::Light2ExponentAtten => 0x89,
            GeCommand::Light3ExponentAtten => 0x8a,
            GeCommand::Light0CutoffAtten => 0x8b,
            GeCommand::Light1CutoffAtten => 0x8c,
            GeCommand::Light2CutoffAtten => 0x8d,
            GeCommand::Light3CutoffAtten => 0x8e,
            GeCommand::Light0Ambient => 0x8f,
            GeCommand::Light0Diffuse => 0x90,
            GeCommand::Light0Specular => 0x91,
            GeCommand::Light1Ambient => 0x92,
            GeCommand::Light1Diffuse => 0x93,
            GeCommand::Light1Specular => 0x94,
            GeCommand::Light2Ambient => 0x95,
            GeCommand::Light2Diffuse => 0x96,
            GeCommand::Light2Specular => 0x97,
            GeCommand::Light3Ambient => 0x98,
            GeCommand::Light3Diffuse => 0x99,
            GeCommand::Light3Specular => 0x9a,
            GeCommand::Cull => 0x9b,
            GeCommand::FrameBufPtr => 0x9c,
            GeCommand::FrameBufWidth => 0x9d,
            GeCommand::ZBufPtr => 0x9e,
            GeCommand::ZBufWidth => 0x9f,
            GeCommand::TexAddr0 => 0xa0,
            GeCommand::TexAddr1 => 0xa1,
            GeCommand::TexAddr2 => 0xa2,
            GeCommand::TexAddr3 => 0xa3,
            GeCommand::TexAddr4 => 0xa4,
            GeCommand::TexAddr5 => 0xa5,
            GeCommand::TexAddr6 => 0xa6,
            GeCommand::TexAddr7 => 0xa7,
            GeCommand::TexBufWidth0 => 0xa8,
            GeCommand::TexBufWidth1 => 0xa9,
            GeCommand::TexBufWidth2 => 0xaa,
            GeCommand::TexBufWidth3 => 0xab,
            GeCommand::TexBufWidth4 => 0xac,
            GeCommand::TexBufWidth5 => 0xad,
            GeCommand::TexBufWidth6 => 0xae,
            GeCommand::TexBufWidth7 => 0xaf,
            GeCommand::ClutAddr => 0xb0,
            GeCommand::ClutAddrUpper => 0xb1,
            GeCommand::TransferSrc => 0xb2,
            GeCommand::TransferSrcW => 0xb3,
            GeCommand::TransferDst => 0xb4,
            GeCommand::TransferDstW => 0xb5,
            GeCommand::TexSize0 => 0xb8,
            GeCommand::TexSize1 => 0xb9,
            GeCommand::TexSize2 => 0xba,
            GeCommand::TexSize3 => 0xbb,
            GeCommand::TexSize4 => 0xbc,
            GeCommand::TexSize5 => 0xbd,
            GeCommand::TexSize6 => 0xbe,
            GeCommand::TexSize7 => 0xbf,
            GeCommand::TexMapMode => 0xc0,
            GeCommand::TexShadeLs => 0xc1,
            GeCommand::TexMode => 0xc2,
            GeCommand::TexFormat => 0xc3,
            GeCommand::LoadClut => 0xc4,
            GeCommand::ClutFormat => 0xc5,
            GeCommand::TexFilter => 0xc6,
            GeCommand::TexWrap => 0xc7,
            GeCommand::TexLevel => 0xc8,
            GeCommand::TexFunc => 0xc9,
            GeCommand::TexEnvColor => 0xca,
            GeCommand::TexFlush => 0xcb,
            GeCommand::TexSync => 0xcc,
            GeCommand::Fog1 => 0xcd,
            GeCommand::Fog2 => 0xce,
            GeCommand::FogColor => 0xcf,
            GeCommand::TexLodSlope => 0xd0,
            GeCommand::FramebufPixFormat => 0xd2,
            GeCommand::ClearMode => 0xd3,
            GeCommand::Scissor1 => 0xd4,
            GeCommand::Scissor2 => 0xd5,
            GeCommand::MinZ => 0xd6,
            GeCommand::MaxZ => 0xd7,
            GeCommand::ColorTest => 0xd8,
            GeCommand::ColorRef => 0xd9,
            GeCommand::ColorTestmask => 0xda,
            GeCommand::AlphaTest => 0xdb,
            GeCommand::StencilTest => 0xdc,
            GeCommand::StencilOp => 0xdd,
            GeCommand::ZTest => 0xde,
            GeCommand::BlendMode => 0xdf,
            GeCommand::BlendFixedA => 0xe0,
            GeCommand::BlendFixedB => 0xe1,
            GeCommand::Dith0 => 0xe2,
            GeCommand::Dith1 => 0xe3,
            GeCommand::Dith2 => 0xe4,
            GeCommand::Dith3 => 0xe5,
            GeCommand::LogicOp => 0xe6,
            GeCommand::ZWriteDisable => 0xe7,
            GeCommand::MaskRgb => 0xe8,
            GeCommand::MaskAlpha => 0xe9,
            GeCommand::TransferStart => 0xea,
            GeCommand::TransferSrcPos => 0xeb,
            GeCommand::TransferDstPos => 0xec,
            GeCommand::TransferSize => 0xee,
            GeCommand::Vscx => 0xf0,
            GeCommand::Vscy => 0xf1,
            GeCommand::Vscz => 0xf2,
            GeCommand::Vtcs => 0xf3,
            GeCommand::Vtct => 0xf4,
            GeCommand::Vtcq => 0xf5,
            GeCommand::Vcv => 0xf6,
            GeCommand::Vap => 0xf7,
            GeCommand::Vfc => 0xf8,
            GeCommand::Vscv => 0xf9,
        }
    }
}

/// The display-list word for `cmd` with the low 24 bits of `arg` as its argument.
pub open spec fn command_word(cmd: GeCommand, arg: int) -> u32 {
    (cmd.raw() * 0x100_0000 + arg % 0x100_0000) as u32
}

proof fn lemma_word_bits(op: u32, arg: u32)
    by (bit_vector)
    requires
        op < 0x100,
    ensures
        (op << 24u32) | (arg & 0xff_ffff) == op * 0x100_0000 + arg % 0x100_0000,
{
}

/// Encodes a command as a display-list word: the opcode in the most
/// significant byte, the low 24 bits of `arg` below it.
pub fn encode_command(cmd: GeCommand, arg: u32) -> (w: u32)
    ensures
        w == command_word(cmd, arg as int),
{
    let op = cmd.value();
    proof {
        lemma_word_bits(op, arg);
    }
    (op << 24u32) | (arg & 0xff_ffff)
}

} // verus!
