//! Translations of the API's enumerations to Metal's enumeration values.
use vstd::prelude::*;

use super::MetalPlatform;
use crate::types::{
    Action, BlendFactor, BlendOp, ColorMask, CompareFunc, CullMode, FaceWinding, Filter, ImageType,
    IndexType, PixelFormat, PrimitiveType, Usage, VertexFormat, VertexStep,
};

verus! {

/// `MTLLoadAction::DontCare`.
pub const MTL_LOAD_ACTION_DONT_CARE: u64 = 0;

/// `MTLLoadAction::Load`.
pub const MTL_LOAD_ACTION_LOAD: u64 = 1;

/// `MTLLoadAction::Clear`.
pub const MTL_LOAD_ACTION_CLEAR: u64 = 2;

/// `MTLBlendFactor::Zero`.
pub const MTL_BLEND_FACTOR_ZERO: u64 = 0;

/// `MTLBlendFactor::One`.
pub const MTL_BLEND_FACTOR_ONE: u64 = 1;

/// `MTLBlendFactor::SourceColor`.
pub const MTL_BLEND_FACTOR_SOURCE_COLOR: u64 = 2;

/// `MTLBlendFactor::OneMinusSourceColor`.
pub const MTL_BLEND_FACTOR_ONE_MINUS_SOURCE_COLOR: u64 = 3;

/// `MTLBlendFactor::SourceAlpha`.
pub const MTL_BLEND_FACTOR_SOURCE_ALPHA: u64 = 4;

/// `MTLBlendFactor::OneMinusSourceAlpha`.
pub const MTL_BLEND_FACTOR_ONE_MINUS_SOURCE_ALPHA: u64 = 5;

/// `MTLBlendFactor::DestinationColor`.
pub const MTL_BLEND_FACTOR_DESTINATION_COLOR: u64 = 6;

/// `MTLBlendFactor::OneMinusDestinationColor`.
pub const MTL_BLEND_FACTOR_ONE_MINUS_DESTINATION_COLOR: u64 = 7;

/// `MTLBlendFactor::DestinationAlpha`.
pub const MTL_BLEND_FACTOR_DESTINATION_ALPHA: u64 = 8;

/// `MTLBlendFactor::OneMinusDestinationAlpha`.
pub const MTL_BLEND_FACTOR_ONE_MINUS_DESTINATION_ALPHA: u64 = 9;

/// `MTLBlendFactor::SourceAlphaSaturated`.
pub const MTL_BLEND_FACTOR_SOURCE_ALPHA_SATURATED: u64 = 10;

/// `MTLBlendFactor::BlendColor`.
pub const MTL_BLEND_FACTOR_BLEND_COLOR: u64 = 11;

/// `MTLBlendFactor::OneMinusBlendColor`.
pub const MTL_BLEND_FACTOR_ONE_MINUS_BLEND_COLOR: u64 = 12;

/// `MTLBlendFactor::BlendAlpha`.
pub const MTL_BLEND_FACTOR_BLEND_ALPHA: u64 = 13;

/// `MTLBlendFactor::OneMinusBlendAlpha`.
pub const MTL_BLEND_FACTOR_ONE_MINUS_BLEND_ALPHA: u64 = 14;

/// `MTLBlendOperation::Add`.
pub const MTL_BLEND_OPERATION_ADD: u64 = 0;

/// `MTLBlendOperation::Subtract`.
pub const MTL_BLEND_OPERATION_SUBTRACT: u64 = 1;

/// `MTLBlendOperation::ReverseSubtract`.
pub const MTL_BLEND_OPERATION_REVERSE_SUBTRACT: u64 = 2;

/// `MTLColorWriteMask::Red`.
pub const MTL_COLOR_WRITE_MASK_RED: u64 = 8;

/// `MTLColorWriteMask::Green`.
pub const MTL_COLOR_WRITE_MASK_GREEN: u64 = 4;

/// `MTLColorWriteMask::Blue`.
pub const MTL_COLOR_WRITE_MASK_BLUE: u64 = 2;

/// `MTLColorWriteMask::Alpha`.
pub const MTL_COLOR_WRITE_MASK_ALPHA: u64 = 1;

/// `MTLCompareFunction::Never`.
pub const MTL_COMPARE_FUNCTION_NEVER: u64 = 0;

/// `MTLCompareFunction::Less`.
pub const MTL_COMPARE_FUNCTION_LESS: u64 = 1;

/// `MTLCompareFunction::Equal`.
pub const MTL_COMPARE_FUNCTION_EQUAL: u64 = 2;

/// `MTLCompareFunction::LessEqual`.
pub const MTL_COMPARE_FUNCTION_LESS_EQUAL: u64 = 3;

/// `MTLCompareFunction::Greater`.
pub const MTL_COMPARE_FUNCTION_GREATER: u64 = 4;

/// `MTLCompareFunction::NotEqual`.
pub const MTL_COMPARE_FUNCTION_NOT_EQUAL: u64 = 5;

/// `MTLCompareFunction::GreaterEqual`.
pub const MTL_COMPARE_FUNCTION_GREATER_EQUAL: u64 = 6;

/// `MTLCompareFunction::Always`.
pub const MTL_COMPARE_FUNCTION_ALWAYS: u64 = 7;

/// `MTLCullMode::None`.
pub const MTL_CULL_MODE_NONE: u64 = 0;

/// `MTLCullMode::Front`.
pub const MTL_CULL_MODE_FRONT: u64 = 1;

/// `MTLCullMode::Back`.
pub const MTL_CULL_MODE_BACK: u64 = 2;

/// `MTLWinding::Clockwise`.
pub const MTL_WINDING_CLOCKWISE: u64 = 0;

/// `MTLWinding::CounterClockwise`.
pub const MTL_WINDING_COUNTER_CLOCKWISE: u64 = 1;

/// `MTLSamplerMinMagFilter::Nearest`.
pub const MTL_SAMPLER_MIN_MAG_FILTER_NEAREST: u64 = 0;

/// `MTLSamplerMinMagFilter::Linear`.
pub const MTL_SAMPLER_MIN_MAG_FILTER_LINEAR: u64 = 1;

/// `MTLSamplerMipFilter::NotMipmapped`.
pub const MTL_SAMPLER_MIP_FILTER_NOT_MIPMAPPED: u64 = 0;

/// `MTLSamplerMipFilter::Nearest`.
pub const MTL_SAMPLER_MIP_FILTER_NEAREST: u64 = 1;

/// `MTLSamplerMipFilter::Linear`.
pub const MTL_SAMPLER_MIP_FILTER_LINEAR: u64 = 2;

/// `MTLTextureType::D2`.
pub const MTL_TEXTURE_TYPE_D2: u64 = 2;

/// `MTLTextureType::D2Array`.
pub const MTL_TEXTURE_TYPE_D2_ARRAY: u64 = 3;

/// `MTLTextureType::Cube`.
pub const MTL_TEXTURE_TYPE_CUBE: u64 = 5;

/// `MTLTextureType::D3`.
pub const MTL_TEXTURE_TYPE_D3: u64 = 7;

/// `MTLIndexType::UInt16`.
pub const MTL_INDEX_TYPE_UINT16: u64 = 0;

/// `MTLIndexType::UInt32`.
pub const MTL_INDEX_TYPE_UINT32: u64 = 1;

/// `MTLPixelFormat::Invalid`.
pub const MTL_PIXEL_FORMAT_INVALID: u64 = 0;

/// `MTLPixelFormat::R8Unorm`.
pub const MTL_PIXEL_FORMAT_R8_UNORM: u64 = 10;

/// `MTLPixelFormat::R16Float`.
pub const MTL_PIXEL_FORMAT_R16_FLOAT: u64 = 25;

/// `MTLPixelFormat::R32Float`.
pub const MTL_PIXEL_FORMAT_R32_FLOAT: u64 = 55;

/// `MTLPixelFormat::RGBA8Unorm`.
pub const MTL_PIXEL_FORMAT_RGBA8_UNORM: u64 = 70;

/// `MTLPixelFormat::BGRA8Unorm`.
pub const MTL_PIXEL_FORMAT_BGRA8_UNORM: u64 = 80;

/// `MTLPixelFormat::RGB10A2Unorm`.
pub const MTL_PIXEL_FORMAT_RGB10_A2_UNORM: u64 = 90;

/// `MTLPixelFormat::RGBA16Float`.
pub const MTL_PIXEL_FORMAT_RGBA16_FLOAT: u64 = 115;

/// `MTLPixelFormat::RGBA32Float`.
pub const MTL_PIXEL_FORMAT_RGBA32_FLOAT: u64 = 125;

/// `MTLPixelFormat::BC1_RGBA`.
pub const MTL_PIXEL_FORMAT_BC1_RGBA: u64 = 130;

/// `MTLPixelFormat::BC2_RGBA`.
pub const MTL_PIXEL_FORMAT_BC2_RGBA: u64 = 132;

/// `MTLPixelFormat::BC3_RGBA`.
pub const MTL_PIXEL_FORMAT_BC3_RGBA: u64 = 134;

/// `MTLPixelFormat::PVRTC_RGB_2BPP`.
pub const MTL_PIXEL_FORMAT_PVRTC_RGB_2BPP: u64 = 160;

/// `MTLPixelFormat::PVRTC_RGB_4BPP`.
pub const MTL_PIXEL_FORMAT_PVRTC_RGB_4BPP: u64 = 162;

/// `MTLPixelFormat::PVRTC_RGBA_2BPP`.
pub const MTL_PIXEL_FORMAT_PVRTC_RGBA_2BPP: u64 = 164;

/// `MTLPixelFormat::PVRTC_RGBA_4BPP`.
pub const MTL_PIXEL_FORMAT_PVRTC_RGBA_4BPP: u64 = 166;

/// `MTLPixelFormat::ETC2_RGB8`.
pub const MTL_PIXEL_FORMAT_ETC2_RGB8: u64 = 180;

/// `MTLPixelFormat::ETC2_RGB8_sRGB`.
pub const MTL_PIXEL_FORMAT_ETC2_RGB8_SRGB: u64 = 181;

/// `MTLPixelFormat::Depth32Float`.
pub const MTL_PIXEL_FORMAT_DEPTH32_FLOAT: u64 = 252;

/// `MTLPixelFormat::Depth32Float_Stencil8`.
pub const MTL_PIXEL_FORMAT_DEPTH32_FLOAT_STENCIL8: u64 = 260;

/// `MTLPrimitiveType::Point`.
pub const MTL_PRIMITIVE_TYPE_POINT: u64 = 0;

/// `MTLPrimitiveType::Line`.
pub const MTL_PRIMITIVE_TYPE_LINE: u64 = 1;

/// `MTLPrimitiveType::LineStrip`.
pub const MTL_PRIMITIVE_TYPE_LINE_STRIP: u64 = 2;

/// `MTLPrimitiveType::Triangle`.
pub const MTL_PRIMITIVE_TYPE_TRIANGLE: u64 = 3;

/// `MTLPrimitiveType::TriangleStrip`.
pub const MTL_PRIMITIVE_TYPE_TRIANGLE_STRIP: u64 = 4;

/// `MTLResourceOptions::CPUCacheModeWriteCombined`.
pub const MTL_RESOURCE_CPU_CACHE_MODE_WRITE_COMBINED: u64 = 1;

/// `MTLResourceOptions::StorageModeShared`.
pub const MTL_RESOURCE_STORAGE_MODE_SHARED: u64 = 0;

/// `MTLResourceOptions::StorageModeManaged`.
pub const MTL_RESOURCE_STORAGE_MODE_MANAGED: u64 = 16;

/// `MTLVertexFormat::Float`.
pub const MTL_VERTEX_FORMAT_FLOAT: u64 = 28;

/// `MTLVertexFormat::Float2`.
pub const MTL_VERTEX_FORMAT_FLOAT2: u64 = 29;

/// `MTLVertexFormat::Float3`.
pub const MTL_VERTEX_FORMAT_FLOAT3: u64 = 30;

/// `MTLVertexFormat::Float4`.
pub const MTL_VERTEX_FORMAT_FLOAT4: u64 = 31;

/// `MTLVertexFormat::Char4`.
pub const MTL_VERTEX_FORMAT_CHAR4: u64 = 6;

/// `MTLVertexFormat::Char4Normalized`.
pub const MTL_VERTEX_FORMAT_CHAR4_NORMALIZED: u64 = 12;

/// `MTLVertexFormat::UChar4`.
pub const MTL_VERTEX_FORMAT_UCHAR4: u64 = 3;

/// `MTLVertexFormat::UChar4Normalized`.
pub const MTL_VERTEX_FORMAT_UCHAR4_NORMALIZED: u64 = 9;

/// `MTLVertexFormat::Short2`.
pub const MTL_VERTEX_FORMAT_SHORT2: u64 = 16;

/// `MTLVertexFormat::Short2Normalized`.
pub const MTL_VERTEX_FORMAT_SHORT2_NORMALIZED: u64 = 22;

/// `MTLVertexFormat::Short4`.
pub const MTL_VERTEX_FORMAT_SHORT4: u64 = 18;

/// `MTLVertexFormat::Short4Normalized`.
pub const MTL_VERTEX_FORMAT_SHORT4_NORMALIZED: u64 = 24;

/// `MTLVertexFormat::UInt1010102Normalized`.
pub const MTL_VERTEX_FORMAT_UINT1010102_NORMALIZED: u64 = 41;

/// `MTLVertexStepFunction::PerVertex`.
pub const MTL_VERTEX_STEP_FUNCTION_PER_VERTEX: u64 = 1;

/// `MTLVertexStepFunction::PerInstance`.
pub const MTL_VERTEX_STEP_FUNCTION_PER_INSTANCE: u64 = 2;

impl Action {
    /// The result of `mtl_load_action`.
    pub open spec fn spec_mtl_load_action(self) -> u64 {
        match self {
            Action::Clear => MTL_LOAD_ACTION_CLEAR,
            Action::Load => MTL_LOAD_ACTION_LOAD,
            Action::DontCare => MTL_LOAD_ACTION_CLEAR,
        }
    }

    /// Converts this action to Metal's `MTLLoadAction`; `DontCare` clears too.
    pub fn mtl_load_action(self) -> (r: u64)
        ensures
            r == self.spec_mtl_load_action(),
    {
        match self {
            Action::Clear => MTL_LOAD_ACTION_CLEAR,
            Action::Load => MTL_LOAD_ACTION_LOAD,
            Action::DontCare => MTL_LOAD_ACTION_CLEAR,
        }
    }
}

impl BlendFactor {
    /// The result of `mtl_blend_factor`.
    pub open spec fn spec_mtl_blend_factor(self) -> u64 {
        match self {
            BlendFactor::Zero => MTL_BLEND_FACTOR_ZERO,
            BlendFactor::One => MTL_BLEND_FACTOR_ONE,
            BlendFactor::SrcColor => MTL_BLEND_FACTOR_SOURCE_COLOR,
            BlendFactor::OneMinusSrcColor => MTL_BLEND_FACTOR_ONE_MINUS_SOURCE_COLOR,
            BlendFactor::SrcAlpha => MTL_BLEND_FACTOR_SOURCE_ALPHA,
            BlendFactor::OneMinusSrcAlpha => MTL_BLEND_FACTOR_ONE_MINUS_SOURCE_ALPHA,
            BlendFactor::DstColor => MTL_BLEND_FACTOR_DESTINATION_COLOR,
            BlendFactor::OneMinusDstColor => MTL_BLEND_FACTOR_ONE_MINUS_DESTINATION_COLOR,
            BlendFactor::DstAlpha => MTL_BLEND_FACTOR_DESTINATION_ALPHA,
            BlendFactor::OneMinusDstAlpha => MTL_BLEND_FACTOR_ONE_MINUS_DESTINATION_ALPHA,
            BlendFactor::SrcAlphaSaturated => MTL_BLEND_FACTOR_SOURCE_ALPHA_SATURATED,
            BlendFactor::BlendColor => MTL_BLEND_FACTOR_BLEND_COLOR,
            BlendFactor::OneMinusBlendColor => MTL_BLEND_FACTOR_ONE_MINUS_BLEND_COLOR,
            BlendFactor::BlendAlpha => MTL_BLEND_FACTOR_BLEND_ALPHA,
            BlendFactor::OneMinusBlendAlpha => MTL_BLEND_FACTOR_ONE_MINUS_BLEND_ALPHA,
        }
    }

    /// Converts this blend factor to Metal's `MTLBlendFactor`.
    pub fn mtl_blend_factor(self) -> (r: u64)
        ensures
            r == self.spec_mtl_blend_factor(),
    {
        match self {
            BlendFactor::Zero => MTL_BLEND_FACTOR_ZERO,
            BlendFactor::One => MTL_BLEND_FACTOR_ONE,
            BlendFactor::SrcColor => MTL_BLEND_FACTOR_SOURCE_COLOR,
            BlendFactor::OneMinusSrcColor => MTL_BLEND_FACTOR_ONE_MINUS_SOURCE_COLOR,
            BlendFactor::SrcAlpha => MTL_BLEND_FACTOR_SOURCE_ALPHA,
            BlendFactor::OneMinusSrcAlpha => MTL_BLEND_FACTOR_ONE_MINUS_SOURCE_ALPHA,
            BlendFactor::DstColor => MTL_BLEND_FACTOR_DESTINATION_COLOR,
            BlendFactor::OneMinusDstColor => MTL_BLEND_FACTOR_ONE_MINUS_DESTINATION_COLOR,
            BlendFactor::DstAlpha => MTL_BLEND_FACTOR_DESTINATION_ALPHA,
            BlendFactor::OneMinusDstAlpha => MTL_BLEND_FACTOR_ONE_MINUS_DESTINATION_ALPHA,
            BlendFactor::SrcAlphaSaturated => MTL_BLEND_FACTOR_SOURCE_ALPHA_SATURATED,
            BlendFactor::BlendColor => MTL_BLEND_FACTOR_BLEND_COLOR,
            BlendFactor::OneMinusBlendColor => MTL_BLEND_FACTOR_ONE_MINUS_BLEND_COLOR,
            BlendFactor::BlendAlpha => MTL_BLEND_FACTOR_BLEND_ALPHA,
            BlendFactor::OneMinusBlendAlpha => MTL_BLEND_FACTOR_ONE_MINUS_BLEND_ALPHA,
        }
    }
}

impl BlendOp {
    /// The result of `mtl_blend_op`.
    pub open spec fn spec_mtl_blend_op(self) -> u64 {
        match self {
            BlendOp::Add => MTL_BLEND_OPERATION_ADD,
            BlendOp::Subtract => MTL_BLEND_OPERATION_SUBTRACT,
            BlendOp::ReverseSubtract => MTL_BLEND_OPERATION_REVERSE_SUBTRACT,
        }
    }

    /// Converts this blend operation to Metal's `MTLBlendOperation`.
    pub fn mtl_blend_op(self) -> (r: u64)
        ensures
            r == self.spec_mtl_blend_op(),
    {
        match self {
            BlendOp::Add => MTL_BLEND_OPERATION_ADD,
            BlendOp::Subtract => MTL_BLEND_OPERATION_SUBTRACT,
            BlendOp::ReverseSubtract => MTL_BLEND_OPERATION_REVERSE_SUBTRACT,
        }
    }
}

impl CompareFunc {
    /// The result of `mtl_compare_func`.
    pub open spec fn spec_mtl_compare_func(self) -> u64 {
        match self {
            CompareFunc::Never => MTL_COMPARE_FUNCTION_NEVER,
            CompareFunc::Less => MTL_COMPARE_FUNCTION_LESS,
            CompareFunc::Equal => MTL_COMPARE_FUNCTION_EQUAL,
            CompareFunc::LessEqual => MTL_COMPARE_FUNCTION_LESS_EQUAL,
            CompareFunc::Greater => MTL_COMPARE_FUNCTION_GREATER,
            CompareFunc::NotEqual => MTL_COMPARE_FUNCTION_NOT_EQUAL,
            CompareFunc::GreaterEqual => MTL_COMPARE_FUNCTION_GREATER_EQUAL,
            CompareFunc::Always => MTL_COMPARE_FUNCTION_ALWAYS,
        }
    }

    /// Converts this compare function to Metal's `MTLCompareFunction`.
    pub fn mtl_compare_func(self) -> (r: u64)
        ensures
            r == self.spec_mtl_compare_func(),
    {
        match self {
            CompareFunc::Never => MTL_COMPARE_FUNCTION_NEVER,
            CompareFunc::Less => MTL_COMPARE_FUNCTION_LESS,
            CompareFunc::Equal => MTL_COMPARE_FUNCTION_EQUAL,
            CompareFunc::LessEqual => MTL_COMPARE_FUNCTION_LESS_EQUAL,
            CompareFunc::Greater => MTL_COMPARE_FUNCTION_GREATER,
            CompareFunc::NotEqual => MTL_COMPARE_FUNCTION_NOT_EQUAL,
            CompareFunc::GreaterEqual => MTL_COMPARE_FUNCTION_GREATER_EQUAL,
            CompareFunc::Always => MTL_COMPARE_FUNCTION_ALWAYS,
        }
    }
}

impl CullMode {
    /// The result of `mtl_cull_mode`.
    pub open spec fn spec_mtl_cull_mode(self) -> u64 {
        match self {
            CullMode::Disabled => MTL_CULL_MODE_NONE,
            CullMode::Front => MTL_CULL_MODE_FRONT,
            CullMode::Back => MTL_CULL_MODE_BACK,
        }
    }

    /// Converts this cull mode to Metal's `MTLCullMode`.
    pub fn mtl_cull_mode(self) -> (r: u64)
        ensures
            r == self.spec_mtl_cull_mode(),
    {
        match self {
            CullMode::Disabled => MTL_CULL_MODE_NONE,
            CullMode::Front => MTL_CULL_MODE_FRONT,
            CullMode::Back => MTL_CULL_MODE_BACK,
        }
    }
}

impl FaceWinding {
    /// The result of `mtl_winding`.
    pub open spec fn spec_mtl_winding(self) -> u64 {
        match self {
            FaceWinding::CW => MTL_WINDING_CLOCKWISE,
            FaceWinding::CCW => MTL_WINDING_COUNTER_CLOCKWISE,
        }
    }

    /// Converts this face winding to Metal's `MTLWinding`.
    pub fn mtl_winding(self) -> (r: u64)
        ensures
            r == self.spec_mtl_winding(),
    {
        match self {
            FaceWinding::CW => MTL_WINDING_CLOCKWISE,
            FaceWinding::CCW => MTL_WINDING_COUNTER_CLOCKWISE,
        }
    }
}

impl Filter {
    /// The result of `mtl_minmag_filter`.
    pub open spec fn spec_mtl_minmag_filter(self) -> u64 {
        match self {
            Filter::Nearest | Filter::NearestMipmapNearest | Filter::NearestMipmapLinear => MTL_SAMPLER_MIN_MAG_FILTER_NEAREST,
            Filter::Linear | Filter::LinearMipmapNearest | Filter::LinearMipmapLinear => MTL_SAMPLER_MIN_MAG_FILTER_LINEAR,
        }
    }

    /// Converts this filter to Metal's `MTLSamplerMinMagFilter`: its minification and magnification part.
    pub fn mtl_minmag_filter(self) -> (r: u64)
        ensures
            r == self.spec_mtl_minmag_filter(),
    {
        match self {
            Filter::Nearest | Filter::NearestMipmapNearest | Filter::NearestMipmapLinear => MTL_SAMPLER_MIN_MAG_FILTER_NEAREST,
            Filter::Linear | Filter::LinearMipmapNearest | Filter::LinearMipmapLinear => MTL_SAMPLER_MIN_MAG_FILTER_LINEAR,
        }
    }

    /// The result of `mtl_mip_filter`.
    pub open spec fn spec_mtl_mip_filter(self) -> u64 {
        match self {
            Filter::Nearest | Filter::Linear => MTL_SAMPLER_MIP_FILTER_NOT_MIPMAPPED,
            Filter::NearestMipmapNearest | Filter::LinearMipmapNearest => MTL_SAMPLER_MIP_FILTER_NEAREST,
            Filter::NearestMipmapLinear | Filter::LinearMipmapLinear => MTL_SAMPLER_MIP_FILTER_LINEAR,
        }
    }

    /// Converts this filter to Metal's `MTLSamplerMipFilter`: its mipmap part.
    pub fn mtl_mip_filter(self) -> (r: u64)
        ensures
            r == self.spec_mtl_mip_filter(),
    {
        match self {
            Filter::Nearest | Filter::Linear => MTL_SAMPLER_MIP_FILTER_NOT_MIPMAPPED,
            Filter::NearestMipmapNearest | Filter::LinearMipmapNearest => MTL_SAMPLER_MIP_FILTER_NEAREST,
            Filter::NearestMipmapLinear | Filter::LinearMipmapLinear => MTL_SAMPLER_MIP_FILTER_LINEAR,
        }
    }
}

impl ImageType {
    /// The result of `mtl_texture_type`.
    pub open spec fn spec_mtl_texture_type(self) -> u64 {
        match self {
            ImageType::Texture2D => MTL_TEXTURE_TYPE_D2,
            ImageType::Cube => MTL_TEXTURE_TYPE_CUBE,
            ImageType::Texture3D => MTL_TEXTURE_TYPE_D3,
            ImageType::Array => MTL_TEXTURE_TYPE_D2_ARRAY,
        }
    }

    /// Converts this image type to Metal's `MTLTextureType`.
    pub fn mtl_texture_type(self) -> (r: u64)
        ensures
            r == self.spec_mtl_texture_type(),
    {
        match self {
            ImageType::Texture2D => MTL_TEXTURE_TYPE_D2,
            ImageType::Cube => MTL_TEXTURE_TYPE_CUBE,
            ImageType::Texture3D => MTL_TEXTURE_TYPE_D3,
            ImageType::Array => MTL_TEXTURE_TYPE_D2_ARRAY,
        }
    }
}

impl IndexType {
    /// The result of `mtl_index_size`.
    pub open spec fn spec_mtl_index_size(self) -> usize {
        match self {
            IndexType::UInt16 => 2,
            IndexType::UInt32 => 4,
        }
    }

    /// The size in bytes of one index of this type.
    pub fn mtl_index_size(self) -> (r: usize)
        ensures
            r == self.spec_mtl_index_size(),
    {
        match self {
            IndexType::UInt16 => 2,
            IndexType::UInt32 => 4,
        }
    }

    /// The result of `mtl_index_type`.
    pub open spec fn spec_mtl_index_type(self) -> u64 {
        match self {
            IndexType::UInt16 => MTL_INDEX_TYPE_UINT16,
            IndexType::UInt32 => MTL_INDEX_TYPE_UINT32,
        }
    }

    /// Converts this index type to Metal's `MTLIndexType`.
    pub fn mtl_index_type(self) -> (r: u64)
        ensures
            r == self.spec_mtl_index_type(),
    {
        match self {
            IndexType::UInt16 => MTL_INDEX_TYPE_UINT16,
            IndexType::UInt32 => MTL_INDEX_TYPE_UINT32,
        }
    }
}

impl PixelFormat {
    /// The result of `mtl_is_pvrtc`.
    pub open spec fn spec_mtl_is_pvrtc(self) -> bool {
        match self {
            PixelFormat::PVRTC2_RGB | PixelFormat::PVRTC2_RGBA | PixelFormat::PVRTC4_RGB | PixelFormat::PVRTC4_RGBA => true,
            _ => false,
        }
    }

    /// Whether this is a PVRTC compressed format.
    pub fn mtl_is_pvrtc(self) -> (r: bool)
        ensures
            r == self.spec_mtl_is_pvrtc(),
    {
        match self {
            PixelFormat::PVRTC2_RGB | PixelFormat::PVRTC2_RGBA | PixelFormat::PVRTC4_RGB | PixelFormat::PVRTC4_RGBA => true,
            _ => false,
        }
    }

    /// The result of `mtl_rendertarget_color_format`.
    pub open spec fn spec_mtl_rendertarget_color_format(self) -> u64 {
        match self {
            PixelFormat::RGBA8 => MTL_PIXEL_FORMAT_BGRA8_UNORM,
            PixelFormat::RGBA32F => MTL_PIXEL_FORMAT_RGBA32_FLOAT,
            PixelFormat::RGBA16F => MTL_PIXEL_FORMAT_RGBA16_FLOAT,
            PixelFormat::R10G10B10A2 => MTL_PIXEL_FORMAT_RGB10_A2_UNORM,
            _ => MTL_PIXEL_FORMAT_INVALID,
        }
    }

    /// Converts this format to Metal's `MTLPixelFormat` of a color render target; `RGBA8` targets are BGRA in Metal.
    pub fn mtl_rendertarget_color_format(self) -> (r: u64)
        ensures
            r == self.spec_mtl_rendertarget_color_format(),
    {
        match self {
            PixelFormat::RGBA8 => MTL_PIXEL_FORMAT_BGRA8_UNORM,
            PixelFormat::RGBA32F => MTL_PIXEL_FORMAT_RGBA32_FLOAT,
            PixelFormat::RGBA16F => MTL_PIXEL_FORMAT_RGBA16_FLOAT,
            PixelFormat::R10G10B10A2 => MTL_PIXEL_FORMAT_RGB10_A2_UNORM,
            _ => MTL_PIXEL_FORMAT_INVALID,
        }
    }

    /// The result of `mtl_rendertarget_depth_format`.
    pub open spec fn spec_mtl_rendertarget_depth_format(self) -> u64 {
        match self {
            PixelFormat::Depth => MTL_PIXEL_FORMAT_DEPTH32_FLOAT,
            PixelFormat::DepthStencil => MTL_PIXEL_FORMAT_DEPTH32_FLOAT_STENCIL8,
            _ => MTL_PIXEL_FORMAT_INVALID,
        }
    }

    /// Converts this format to Metal's `MTLPixelFormat` of a depth render target.
    pub fn mtl_rendertarget_depth_format(self) -> (r: u64)
        ensures
            r == self.spec_mtl_rendertarget_depth_format(),
    {
        match self {
            PixelFormat::Depth => MTL_PIXEL_FORMAT_DEPTH32_FLOAT,
            PixelFormat::DepthStencil => MTL_PIXEL_FORMAT_DEPTH32_FLOAT_STENCIL8,
            _ => MTL_PIXEL_FORMAT_INVALID,
        }
    }

    /// The result of `mtl_rendertarget_stencil_format`.
    pub open spec fn spec_mtl_rendertarget_stencil_format(self) -> u64 {
        match self {
            PixelFormat::DepthStencil => MTL_PIXEL_FORMAT_DEPTH32_FLOAT_STENCIL8,
            _ => MTL_PIXEL_FORMAT_INVALID,
        }
    }

    /// Converts this format to Metal's `MTLPixelFormat` of a stencil render target.
    pub fn mtl_rendertarget_stencil_format(self) -> (r: u64)
        ensures
            r == self.spec_mtl_rendertarget_stencil_format(),
    {
        match self {
            PixelFormat::DepthStencil => MTL_PIXEL_FORMAT_DEPTH32_FLOAT_STENCIL8,
            _ => MTL_PIXEL_FORMAT_INVALID,
        }
    }
}

impl PrimitiveType {
    /// The result of `mtl_primitive_type`.
    pub open spec fn spec_mtl_primitive_type(self) -> u64 {
        match self {
            PrimitiveType::Points => MTL_PRIMITIVE_TYPE_POINT,
            PrimitiveType::Lines => MTL_PRIMITIVE_TYPE_LINE,
            PrimitiveType::LineStrip => MTL_PRIMITIVE_TYPE_LINE_STRIP,
            PrimitiveType::Triangles => MTL_PRIMITIVE_TYPE_TRIANGLE,
            PrimitiveType::TriangleStrip => MTL_PRIMITIVE_TYPE_TRIANGLE_STRIP,
        }
    }

    /// Converts this primitive type to Metal's `MTLPrimitiveType`.
    pub fn mtl_primitive_type(self) -> (r: u64)
        ensures
            r == self.spec_mtl_primitive_type(),
    {
        match self {
            PrimitiveType::Points => MTL_PRIMITIVE_TYPE_POINT,
            PrimitiveType::Lines => MTL_PRIMITIVE_TYPE_LINE,
            PrimitiveType::LineStrip => MTL_PRIMITIVE_TYPE_LINE_STRIP,
            PrimitiveType::Triangles => MTL_PRIMITIVE_TYPE_TRIANGLE,
            PrimitiveType::TriangleStrip => MTL_PRIMITIVE_TYPE_TRIANGLE_STRIP,
        }
    }
}

impl VertexFormat {
    /// The result of `mtl_vertex_format`.
    pub open spec fn spec_mtl_vertex_format(self) -> u64 {
        match self {
            VertexFormat::Float => MTL_VERTEX_FORMAT_FLOAT,
            VertexFormat::Float2 => MTL_VERTEX_FORMAT_FLOAT2,
            VertexFormat::Float3 => MTL_VERTEX_FORMAT_FLOAT3,
            VertexFormat::Float4 => MTL_VERTEX_FORMAT_FLOAT4,
            VertexFormat::Byte4 => MTL_VERTEX_FORMAT_CHAR4,
            VertexFormat::Byte4N => MTL_VERTEX_FORMAT_CHAR4_NORMALIZED,
            VertexFormat::UByte4 => MTL_VERTEX_FORMAT_UCHAR4,
            VertexFormat::UByte4N => MTL_VERTEX_FORMAT_UCHAR4_NORMALIZED,
            VertexFormat::Short2 => MTL_VERTEX_FORMAT_SHORT2,
            VertexFormat::Short2N => MTL_VERTEX_FORMAT_SHORT2_NORMALIZED,
            VertexFormat::Short4 => MTL_VERTEX_FORMAT_SHORT4,
            VertexFormat::Short4N => MTL_VERTEX_FORMAT_SHORT4_NORMALIZED,
            VertexFormat::UInt10N2 => MTL_VERTEX_FORMAT_UINT1010102_NORMALIZED,
        }
    }

    /// Converts this vertex format to Metal's `MTLVertexFormat`.
    pub fn mtl_vertex_format(self) -> (r: u64)
        ensures
            r == self.spec_mtl_vertex_format(),
    {
        match self {
            VertexFormat::Float => MTL_VERTEX_FORMAT_FLOAT,
            VertexFormat::Float2 => MTL_VERTEX_FORMAT_FLOAT2,
            VertexFormat::Float3 => MTL_VERTEX_FORMAT_FLOAT3,
            VertexFormat::Float4 => MTL_VERTEX_FORMAT_FLOAT4,
            VertexFormat::Byte4 => MTL_VERTEX_FORMAT_CHAR4,
            VertexFormat::Byte4N => MTL_VERTEX_FORMAT_CHAR4_NORMALIZED,
            VertexFormat::UByte4 => MTL_VERTEX_FORMAT_UCHAR4,
            VertexFormat::UByte4N => MTL_VERTEX_FORMAT_UCHAR4_NORMALIZED,
            VertexFormat::Short2 => MTL_VERTEX_FORMAT_SHORT2,
            VertexFormat::Short2N => MTL_VERTEX_FORMAT_SHORT2_NORMALIZED,
            VertexFormat::Short4 => MTL_VERTEX_FORMAT_SHORT4,
            VertexFormat::Short4N => MTL_VERTEX_FORMAT_SHORT4_NORMALIZED,
            VertexFormat::UInt10N2 => MTL_VERTEX_FORMAT_UINT1010102_NORMALIZED,
        }
    }
}

impl VertexStep {
    /// The result of `mtl_step_function`.
    pub open spec fn spec_mtl_step_function(self) -> u64 {
        match self {
            VertexStep::PerVertex => MTL_VERTEX_STEP_FUNCTION_PER_VERTEX,
            VertexStep::PerInstance => MTL_VERTEX_STEP_FUNCTION_PER_INSTANCE,
        }
    }

    /// Converts this vertex step to Metal's `MTLVertexStepFunction`.
    pub fn mtl_step_function(self) -> (r: u64)
        ensures
            r == self.spec_mtl_step_function(),
    {
        match self {
            VertexStep::PerVertex => MTL_VERTEX_STEP_FUNCTION_PER_VERTEX,
            VertexStep::PerInstance => MTL_VERTEX_STEP_FUNCTION_PER_INSTANCE,
        }
    }
}
impl PixelFormat {
    /// The Metal texture format of this format on `platform`. Each platform
    /// has its own compressed formats; a format without a Metal counterpart
    /// maps to `MTLPixelFormat::Invalid`.
    pub open spec fn spec_mtl_texture_format(self, platform: MetalPlatform) -> u64 {
        match self {
            PixelFormat::RGBA8 => MTL_PIXEL_FORMAT_RGBA8_UNORM,
            PixelFormat::R10G10B10A2 => MTL_PIXEL_FORMAT_RGB10_A2_UNORM,
            PixelFormat::RGBA32F => MTL_PIXEL_FORMAT_RGBA32_FLOAT,
            PixelFormat::RGBA16F => MTL_PIXEL_FORMAT_RGBA16_FLOAT,
            PixelFormat::R32F => MTL_PIXEL_FORMAT_R32_FLOAT,
            PixelFormat::R16F => MTL_PIXEL_FORMAT_R16_FLOAT,
            PixelFormat::L8 => MTL_PIXEL_FORMAT_R8_UNORM,
            PixelFormat::DXT1 if platform == MetalPlatform::MacOS => MTL_PIXEL_FORMAT_BC1_RGBA,
            PixelFormat::DXT3 if platform == MetalPlatform::MacOS => MTL_PIXEL_FORMAT_BC2_RGBA,
            PixelFormat::DXT5 if platform == MetalPlatform::MacOS => MTL_PIXEL_FORMAT_BC3_RGBA,
            PixelFormat::PVRTC2_RGB if platform == MetalPlatform::IOS => MTL_PIXEL_FORMAT_PVRTC_RGB_2BPP,
            PixelFormat::PVRTC4_RGB if platform == MetalPlatform::IOS => MTL_PIXEL_FORMAT_PVRTC_RGB_4BPP,
            PixelFormat::PVRTC2_RGBA if platform == MetalPlatform::IOS => MTL_PIXEL_FORMAT_PVRTC_RGBA_2BPP,
            PixelFormat::PVRTC4_RGBA if platform == MetalPlatform::IOS => MTL_PIXEL_FORMAT_PVRTC_RGBA_4BPP,
            PixelFormat::ETC2_RGB8 if platform == MetalPlatform::IOS => MTL_PIXEL_FORMAT_ETC2_RGB8,
            PixelFormat::ETC2_SRGB8 if platform == MetalPlatform::IOS => MTL_PIXEL_FORMAT_ETC2_RGB8_SRGB,
            _ => MTL_PIXEL_FORMAT_INVALID,
        }
    }

    /// Converts this format to Metal's `MTLPixelFormat` of a texture on
    /// `platform`.
    pub fn mtl_texture_format(self, platform: MetalPlatform) -> (r: u64)
        ensures
            r == self.spec_mtl_texture_format(platform),
    {
        let macos = platform == MetalPlatform::MacOS;
        let ios = platform == MetalPlatform::IOS;
        match self {
            PixelFormat::RGBA8 => MTL_PIXEL_FORMAT_RGBA8_UNORM,
            PixelFormat::R10G10B10A2 => MTL_PIXEL_FORMAT_RGB10_A2_UNORM,
            PixelFormat::RGBA32F => MTL_PIXEL_FORMAT_RGBA32_FLOAT,
            PixelFormat::RGBA16F => MTL_PIXEL_FORMAT_RGBA16_FLOAT,
            PixelFormat::R32F => MTL_PIXEL_FORMAT_R32_FLOAT,
            PixelFormat::R16F => MTL_PIXEL_FORMAT_R16_FLOAT,
            PixelFormat::L8 => MTL_PIXEL_FORMAT_R8_UNORM,
            PixelFormat::DXT1 if macos => MTL_PIXEL_FORMAT_BC1_RGBA,
            PixelFormat::DXT3 if macos => MTL_PIXEL_FORMAT_BC2_RGBA,
            PixelFormat::DXT5 if macos => MTL_PIXEL_FORMAT_BC3_RGBA,
            PixelFormat::PVRTC2_RGB if ios => MTL_PIXEL_FORMAT_PVRTC_RGB_2BPP,
            PixelFormat::PVRTC4_RGB if ios => MTL_PIXEL_FORMAT_PVRTC_RGB_4BPP,
            PixelFormat::PVRTC2_RGBA if ios => MTL_PIXEL_FORMAT_PVRTC_RGBA_2BPP,
            PixelFormat::PVRTC4_RGBA if ios => MTL_PIXEL_FORMAT_PVRTC_RGBA_4BPP,
            PixelFormat::ETC2_RGB8 if ios => MTL_PIXEL_FORMAT_ETC2_RGB8,
            PixelFormat::ETC2_SRGB8 if ios => MTL_PIXEL_FORMAT_ETC2_RGB8_SRGB,
            _ => MTL_PIXEL_FORMAT_INVALID,
        }
    }
}

impl Usage {
    /// The Metal resource options of a buffer of this usage on `platform`.
    pub open spec fn spec_mtl_buffer_resource_options(self, platform: MetalPlatform) -> u64 {
        match self {
            Usage::Immutable => MTL_RESOURCE_STORAGE_MODE_SHARED,
            _ => if platform == MetalPlatform::MacOS {
                MTL_RESOURCE_CPU_CACHE_MODE_WRITE_COMBINED | MTL_RESOURCE_STORAGE_MODE_MANAGED
            } else {
                MTL_RESOURCE_CPU_CACHE_MODE_WRITE_COMBINED
            },
        }
    }

    /// Converts this usage to Metal's `MTLResourceOptions` for a buffer on
    /// `platform`: shared storage for immutable buffers, write-combined CPU
    /// caching for updated ones, with managed storage on macOS.
    pub fn mtl_buffer_resource_options(self, platform: MetalPlatform) -> (r: u64)
        ensures
            r == self.spec_mtl_buffer_resource_options(platform),
    {
        match self {
            Usage::Immutable => MTL_RESOURCE_STORAGE_MODE_SHARED,
            Usage::Dynamic | Usage::Stream => {
                if platform == MetalPlatform::MacOS {
                    MTL_RESOURCE_CPU_CACHE_MODE_WRITE_COMBINED | MTL_RESOURCE_STORAGE_MODE_MANAGED
                } else {
                    MTL_RESOURCE_CPU_CACHE_MODE_WRITE_COMBINED
                }
            },
        }
    }
}

impl ColorMask {
    /// The Metal color write mask of this mask: Metal orders the channel
    /// bits the other way round (red 8, green 4, blue 2, alpha 1).
    pub open spec fn spec_mtl_color_write_mask(self) -> u64 {
        ((if self@ & 1 == 1 { MTL_COLOR_WRITE_MASK_RED } else { 0 }) + (if self@ & 2 == 2 {
            MTL_COLOR_WRITE_MASK_GREEN
        } else {
            0
        }) + (if self@ & 4 == 4 { MTL_COLOR_WRITE_MASK_BLUE } else { 0 }) + (if self@ & 8 == 8 {
            MTL_COLOR_WRITE_MASK_ALPHA
        } else {
            0
        })) as u64
    }

    /// Converts this mask to Metal's `MTLColorWriteMask`.
    pub fn mtl_color_write_mask(self) -> (r: u64)
        ensures
            r == self.spec_mtl_color_write_mask(),
    {
        let mut m: u64 = 0;
        if self.contains(ColorMask::r()) {
            m = m + MTL_COLOR_WRITE_MASK_RED;
        }
        if self.contains(ColorMask::g()) {
            m = m + MTL_COLOR_WRITE_MASK_GREEN;
        }
        if self.contains(ColorMask::b()) {
            m = m + MTL_COLOR_WRITE_MASK_BLUE;
        }
        if self.contains(ColorMask::a()) {
            m = m + MTL_COLOR_WRITE_MASK_ALPHA;
        }
        m
    }
}

} // verus!
