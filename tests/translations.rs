use grafiska::metal::translations as mtl;
use grafiska::metal::MetalPlatform;
use grafiska::{
    Action, BlendFactor, BlendOp, BufferType, ColorMask, CompareFunc, CullMode, FaceWinding,
    Filter, ImageType, IndexType, PixelFormat, PrimitiveType, ShaderStage, Usage, VertexFormat,
    VertexStep,
};

#[test]
fn gl_buffer_targets() {
    assert_eq!(BufferType::VertexBuffer.gl_buffer_target(), 0x8892);
    assert_eq!(BufferType::IndexBuffer.gl_buffer_target(), 0x8893);
    assert_eq!(BufferType::VertexBuffer.gl_buffer_target(), gleam::gl::ARRAY_BUFFER);
}

#[test]
fn gl_texture_targets() {
    assert_eq!(ImageType::Texture2D.gl_texture_target(), gleam::gl::TEXTURE_2D);
    assert_eq!(ImageType::Cube.gl_texture_target(), 0x8513);
    assert_eq!(ImageType::Texture3D.gl_texture_target(), 0x806F);
    assert_eq!(ImageType::Array.gl_texture_target(), gleam::gl::TEXTURE_2D_ARRAY);
}

#[test]
fn gl_shader_stages() {
    assert_eq!(ShaderStage::VS.gl_shader_stage(), gleam::gl::VERTEX_SHADER);
    assert_eq!(ShaderStage::FS.gl_shader_stage(), 0x8B30);
}

#[test]
fn gl_usages() {
    assert_eq!(Usage::Immutable.gl_usage(), gleam::gl::STATIC_DRAW);
    assert_eq!(Usage::Dynamic.gl_usage(), 0x88E8);
    assert_eq!(Usage::Stream.gl_usage(), 0x88E0);
}

#[test]
fn mtl_simple_enums() {
    assert_eq!(Action::Clear.mtl_load_action(), mtl::MTL_LOAD_ACTION_CLEAR);
    assert_eq!(Action::Load.mtl_load_action(), 1);
    assert_eq!(Action::DontCare.mtl_load_action(), 2);
    assert_eq!(BlendFactor::Zero.mtl_blend_factor(), 0);
    assert_eq!(BlendFactor::OneMinusDstAlpha.mtl_blend_factor(), 9);
    assert_eq!(BlendFactor::OneMinusBlendAlpha.mtl_blend_factor(), 14);
    assert_eq!(BlendOp::ReverseSubtract.mtl_blend_op(), 2);
    assert_eq!(CompareFunc::LessEqual.mtl_compare_func(), 3);
    assert_eq!(CompareFunc::Always.mtl_compare_func(), 7);
    assert_eq!(CullMode::Disabled.mtl_cull_mode(), 0);
    assert_eq!(CullMode::Back.mtl_cull_mode(), 2);
    assert_eq!(FaceWinding::CW.mtl_winding(), 0);
    assert_eq!(FaceWinding::CCW.mtl_winding(), 1);
    assert_eq!(PrimitiveType::TriangleStrip.mtl_primitive_type(), 4);
    assert_eq!(VertexStep::PerInstance.mtl_step_function(), 2);
    assert_eq!(ImageType::Cube.mtl_texture_type(), 5);
    assert_eq!(ImageType::Array.mtl_texture_type(), 3);
}

#[test]
fn mtl_filters() {
    assert_eq!(Filter::LinearMipmapNearest.mtl_minmag_filter(), 1);
    assert_eq!(Filter::NearestMipmapLinear.mtl_minmag_filter(), 0);
    assert_eq!(Filter::Linear.mtl_mip_filter(), 0);
    assert_eq!(Filter::LinearMipmapNearest.mtl_mip_filter(), 1);
    assert_eq!(Filter::NearestMipmapLinear.mtl_mip_filter(), 2);
}

#[test]
fn mtl_index_types() {
    assert_eq!(IndexType::UInt16.mtl_index_size(), 2);
    assert_eq!(IndexType::UInt32.mtl_index_size(), 4);
    assert_eq!(IndexType::UInt16.mtl_index_type(), 0);
    assert_eq!(IndexType::UInt32.mtl_index_type(), 1);
}

#[test]
fn mtl_pixel_formats() {
    assert!(PixelFormat::PVRTC4_RGBA.mtl_is_pvrtc());
    assert!(!PixelFormat::DXT1.mtl_is_pvrtc());
    assert_eq!(PixelFormat::RGBA8.mtl_texture_format(MetalPlatform::MacOS), 70);
    assert_eq!(PixelFormat::L8.mtl_texture_format(MetalPlatform::IOS), 10);
    assert_eq!(PixelFormat::DXT1.mtl_texture_format(MetalPlatform::MacOS), 130);
    assert_eq!(PixelFormat::DXT1.mtl_texture_format(MetalPlatform::IOS), 0);
    assert_eq!(PixelFormat::ETC2_SRGB8.mtl_texture_format(MetalPlatform::IOS), 181);
    assert_eq!(PixelFormat::PVRTC2_RGB.mtl_texture_format(MetalPlatform::MacOS), 0);
    assert_eq!(PixelFormat::Depth.mtl_texture_format(MetalPlatform::MacOS), 0);
    assert_eq!(PixelFormat::RGBA8.mtl_rendertarget_color_format(), 80);
    assert_eq!(PixelFormat::RGB8.mtl_rendertarget_color_format(), 0);
    assert_eq!(PixelFormat::Depth.mtl_rendertarget_depth_format(), 252);
    assert_eq!(PixelFormat::DepthStencil.mtl_rendertarget_depth_format(), 260);
    assert_eq!(PixelFormat::DepthStencil.mtl_rendertarget_stencil_format(), 260);
    assert_eq!(PixelFormat::Depth.mtl_rendertarget_stencil_format(), 0);
}

#[test]
fn mtl_resource_options() {
    assert_eq!(Usage::Immutable.mtl_buffer_resource_options(MetalPlatform::MacOS), 0);
    assert_eq!(Usage::Dynamic.mtl_buffer_resource_options(MetalPlatform::MacOS), 0x11);
    assert_eq!(Usage::Stream.mtl_buffer_resource_options(MetalPlatform::IOS), 1);
}

#[test]
fn mtl_vertex_formats() {
    assert_eq!(VertexFormat::Float3.mtl_vertex_format(), 30);
    assert_eq!(VertexFormat::Byte4N.mtl_vertex_format(), 12);
    assert_eq!(VertexFormat::UByte4.mtl_vertex_format(), 3);
    assert_eq!(VertexFormat::UInt10N2.mtl_vertex_format(), 41);
}

#[test]
fn mtl_color_write_masks() {
    assert_eq!(ColorMask::rgba().mtl_color_write_mask(), 0xF);
    assert_eq!(ColorMask::r().mtl_color_write_mask(), 8);
    assert_eq!(ColorMask::a().mtl_color_write_mask(), 1);
    assert_eq!(ColorMask::rgb().mtl_color_write_mask(), 14);
    assert_eq!(ColorMask::none().mtl_color_write_mask(), 0);
}
