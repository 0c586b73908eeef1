use grafiska::{ColorMask, PixelFormat, UniformType, VertexFormat};

#[test]
fn compressed_formats() {
    for f in [
        PixelFormat::DXT1,
        PixelFormat::DXT3,
        PixelFormat::DXT5,
        PixelFormat::PVRTC2_RGB,
        PixelFormat::PVRTC4_RGB,
        PixelFormat::PVRTC2_RGBA,
        PixelFormat::PVRTC4_RGBA,
        PixelFormat::ETC2_RGB8,
        PixelFormat::ETC2_SRGB8,
    ] {
        assert!(f.is_compressed_pixel_format());
    }
    for f in [PixelFormat::NoFormat, PixelFormat::RGBA8, PixelFormat::L8, PixelFormat::Depth] {
        assert!(!f.is_compressed_pixel_format());
    }
}

#[test]
fn render_target_formats() {
    assert!(PixelFormat::RGBA8.is_valid_rendertarget_color_format());
    assert!(PixelFormat::RGBA16F.is_valid_rendertarget_color_format());
    assert!(!PixelFormat::RGB8.is_valid_rendertarget_color_format());
    assert!(PixelFormat::Depth.is_valid_rendertarget_depth_format());
    assert!(PixelFormat::DepthStencil.is_valid_rendertarget_depth_format());
    assert!(!PixelFormat::RGBA8.is_valid_rendertarget_depth_format());
    assert!(PixelFormat::DepthStencil.is_depth_stencil_format());
    assert!(!PixelFormat::Depth.is_depth_stencil_format());
}

#[test]
fn pixel_bytesizes() {
    assert_eq!(PixelFormat::RGBA32F.bytesize(), 16);
    assert_eq!(PixelFormat::RGBA16F.bytesize(), 8);
    assert_eq!(PixelFormat::RGBA8.bytesize(), 4);
    assert_eq!(PixelFormat::R10G10B10A2.bytesize(), 4);
    assert_eq!(PixelFormat::R32F.bytesize(), 4);
    assert_eq!(PixelFormat::RGB8.bytesize(), 3);
    assert_eq!(PixelFormat::R5G6B5.bytesize(), 2);
    assert_eq!(PixelFormat::R16F.bytesize(), 2);
    assert_eq!(PixelFormat::L8.bytesize(), 1);
}

#[test]
fn row_pitches() {
    assert_eq!(PixelFormat::RGBA8.row_pitch(100), 400);
    assert_eq!(PixelFormat::RGB8.row_pitch(0), 0);
    assert_eq!(PixelFormat::DXT1.row_pitch(1), 8);
    assert_eq!(PixelFormat::DXT1.row_pitch(0), 8);
    assert_eq!(PixelFormat::DXT1.row_pitch(9), 24);
    assert_eq!(PixelFormat::ETC2_RGB8.row_pitch(16), 32);
    assert_eq!(PixelFormat::DXT5.row_pitch(3), 16);
    assert_eq!(PixelFormat::DXT3.row_pitch(17), 80);
    assert_eq!(PixelFormat::PVRTC4_RGB.row_pitch(4), 16);
    assert_eq!(PixelFormat::PVRTC4_RGBA.row_pitch(64), 128);
    assert_eq!(PixelFormat::PVRTC2_RGB.row_pitch(32), 64);
    assert_eq!(PixelFormat::DXT1.row_pitch(usize::MAX / 4), 1usize << 63);
}

#[test]
fn surface_pitches() {
    assert_eq!(PixelFormat::RGBA8.surface_pitch(4, 3), 48);
    assert_eq!(PixelFormat::RGBA8.surface_pitch(4, 0), 16);
    assert_eq!(PixelFormat::DXT1.surface_pitch(8, 8), 32);
    assert_eq!(PixelFormat::DXT5.surface_pitch(5, 5), 64);
    assert_eq!(PixelFormat::PVRTC2_RGBA.surface_pitch(8, 1), 16);
}

#[test]
fn vertex_bytesizes() {
    assert_eq!(VertexFormat::Float.bytesize(), 4);
    assert_eq!(VertexFormat::Float2.bytesize(), 8);
    assert_eq!(VertexFormat::Float3.bytesize(), 12);
    assert_eq!(VertexFormat::Float4.bytesize(), 16);
    assert_eq!(VertexFormat::UByte4N.bytesize(), 4);
    assert_eq!(VertexFormat::Short4N.bytesize(), 8);
    assert_eq!(VertexFormat::UInt10N2.bytesize(), 4);
}

#[test]
fn uniform_bytesizes() {
    assert_eq!(UniformType::Float.bytesize(3), 12);
    assert_eq!(UniformType::Float3.bytesize(2), 24);
    assert_eq!(UniformType::Mat4.bytesize(1), 64);
    assert_eq!(UniformType::Float4.bytesize(0), 0);
}

#[test]
fn color_masks() {
    assert_eq!(ColorMask::default().bits(), 0xF);
    assert_eq!(ColorMask::rgb().bits(), 7);
    assert_eq!(ColorMask::none().bits(), 0x10);
    assert!(ColorMask::rgba().contains(ColorMask::g()));
    assert!(!ColorMask::rgb().contains(ColorMask::a()));
    assert_eq!(ColorMask::r().union(ColorMask::b()).bits(), 5);
    assert_eq!(ColorMask::from_bits_truncate(0xFF).bits(), 0x1F);
}
