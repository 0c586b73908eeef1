//! The enumerations of the API, and the size rules of pixel, vertex and
//! uniform formats.
use vstd::prelude::*;

verus! {

/// Optional renderer features. Not every backend supports every feature;
/// ask the backend's `query_feature` at run time.
#[allow(non_camel_case_types)]
#[derive(Debug, Clone, Copy, PartialEq, Eq, Structural, Hash)]
pub enum Feature {
    Instancing,
    TextureCompressionDXT,
    TextureCompressionPVRTC,
    TextureCompressionATC,
    TextureCompressionETC2,
    TextureFloat,
    TextureHalfFloat,
    OriginBottomLeft,
    OriginTopLeft,
    MSAARenderTargets,
    PackedVertexFormat_10_2,
    MultipleRenderTarget,
    ImageType3D,
    ImageTypeArray,
}

/// The number of features.
pub const NUM_FEATURES: usize = 14;

impl Feature {
    /// The position of this feature in a table of all features.
    pub open spec fn spec_index(self) -> int {
        match self {
            Feature::Instancing => 0,
            Feature::TextureCompressionDXT => 1,
            Feature::TextureCompressionPVRTC => 2,
            Feature::TextureCompressionATC => 3,
            Feature::TextureCompressionETC2 => 4,
            Feature::TextureFloat => 5,
            Feature::TextureHalfFloat => 6,
            Feature::OriginBottomLeft => 7,
            Feature::OriginTopLeft => 8,
            Feature::MSAARenderTargets => 9,
            Feature::PackedVertexFormat_10_2 => 10,
            Feature::MultipleRenderTarget => 11,
            Feature::ImageType3D => 12,
            Feature::ImageTypeArray => 13,
        }
    }

    /// The position of this feature in a table of all features.
    pub fn index(self) -> (r: usize)
        ensures
            r == self.spec_index(),
            r < NUM_FEATURES,
    {
        match self {
            Feature::Instancing => 0,
            Feature::TextureCompressionDXT => 1,
            Feature::TextureCompressionPVRTC => 2,
            Feature::TextureCompressionATC => 3,
            Feature::TextureCompressionETC2 => 4,
            Feature::TextureFloat => 5,
            Feature::TextureHalfFloat => 6,
            Feature::OriginBottomLeft => 7,
            Feature::OriginTopLeft => 8,
            Feature::MSAARenderTargets => 9,
            Feature::PackedVertexFormat_10_2 => 10,
            Feature::MultipleRenderTarget => 11,
            Feature::ImageType3D => 12,
            Feature::ImageTypeArray => 13,
        }
    }
}

/// The update strategy of a buffer or image. The default is `Immutable`.
#[derive(Debug, Clone, Copy, PartialEq, Eq, Structural, Hash)]
pub enum Usage {
    /// Never updated: the content is given at creation.
    Immutable,
    /// Updated now and then, but not every frame.
    Dynamic,
    /// Updated every frame.
    Stream,
}

impl Default for Usage {
    fn default() -> (r: Self)
        ensures
            r == Usage::Immutable,
    {
        Usage::Immutable
    }
}

/// Whether a buffer holds vertex or index data. The default is vertex data.
#[derive(Debug, Clone, Copy, PartialEq, Eq, Structural, Hash)]
pub enum BufferType {
    VertexBuffer,
    IndexBuffer,
}

impl Default for BufferType {
    fn default() -> (r: Self)
        ensures
            r == BufferType::VertexBuffer,
    {
        BufferType::VertexBuffer
    }
}

/// The element type of an index buffer.
#[derive(Debug, Clone, Copy, PartialEq, Eq, Structural, Hash)]
pub enum IndexType {
    UInt16,
    UInt32,
}

/// The basic image type. The default is `Texture2D`.
#[derive(Debug, Clone, Copy, PartialEq, Eq, Structural, Hash)]
pub enum ImageType {
    Texture2D,
    Cube,
    Texture3D,
    Array,
}

impl Default for ImageType {
    fn default() -> (r: Self)
        ensures
            r == ImageType::Texture2D,
    {
        ImageType::Texture2D
    }
}

/// The two shader stages.
#[derive(Debug, Clone, Copy, PartialEq, Eq, Structural, Hash)]
pub enum ShaderStage {
    /// The vertex shader stage.
    VS,
    /// The fragment shader stage.
    FS,
}

/// A common subset of pixel formats. The default is `RGBA8`.
#[allow(non_camel_case_types)]
#[derive(Debug, Clone, Copy, PartialEq, Eq, Structural, Hash)]
pub enum PixelFormat {
    /// No pixel format (for instance, no depth buffer).
    NoFormat,
    RGBA8,
    RGB8,
    RGBA4,
    R5G6B5,
    R5G5B5A1,
    R10G10B10A2,
    RGBA32F,
    RGBA16F,
    R32F,
    R16F,
    L8,
    DXT1,
    DXT3,
    DXT5,
    Depth,
    DepthStencil,
    PVRTC2_RGB,
    PVRTC4_RGB,
    PVRTC2_RGBA,
    PVRTC4_RGBA,
    ETC2_RGB8,
    ETC2_SRGB8,
}

impl Default for PixelFormat {
    fn default() -> (r: Self)
        ensures
            r == PixelFormat::RGBA8,
    {
        PixelFormat::RGBA8
    }
}

impl PixelFormat {
    /// The block-compressed formats.
    pub open spec fn spec_is_compressed(self) -> bool {
        match self {
            PixelFormat::DXT1 | PixelFormat::DXT3 | PixelFormat::DXT5 | PixelFormat::PVRTC2_RGB
            | PixelFormat::PVRTC4_RGB | PixelFormat::PVRTC2_RGBA | PixelFormat::PVRTC4_RGBA
            | PixelFormat::ETC2_RGB8 | PixelFormat::ETC2_SRGB8 => true,
            _ => false,
        }
    }

    /// The uncompressed color formats, which have a size per pixel.
    pub open spec fn spec_has_bytesize(self) -> bool {
        match self {
            PixelFormat::RGBA32F | PixelFormat::RGBA16F | PixelFormat::RGBA8
            | PixelFormat::R10G10B10A2 | PixelFormat::R32F | PixelFormat::RGB8
            | PixelFormat::R5G5B5A1 | PixelFormat::R5G6B5 | PixelFormat::RGBA4 | PixelFormat::R16F
            | PixelFormat::L8 => true,
            _ => false,
        }
    }

    /// Bytes per pixel of an uncompressed color format.
    pub open spec fn spec_bytesize(self) -> int {
        match self {
            PixelFormat::RGBA32F => 16,
            PixelFormat::RGBA16F => 8,
            PixelFormat::RGBA8 | PixelFormat::R10G10B10A2 | PixelFormat::R32F => 4,
            PixelFormat::RGB8 => 3,
            PixelFormat::R5G5B5A1 | PixelFormat::R5G6B5 | PixelFormat::RGBA4 | PixelFormat::R16F => 2,
            PixelFormat::L8 => 1,
            _ => 0,
        }
    }

    /// Bytes in one row of an image `width` pixels wide. Block-compressed
    /// formats count rows of 4x4 blocks, with a minimum block count.
    pub open spec fn spec_row_pitch(self, width: int) -> int {
        match self {
            PixelFormat::DXT1 | PixelFormat::ETC2_RGB8 | PixelFormat::ETC2_SRGB8 => {
                let pitch = (width + 3) / 4 * 8;
                if pitch < 8 {
                    8
                } else {
                    pitch
                }
            },
            PixelFormat::DXT3 | PixelFormat::DXT5 => {
                let pitch = (width + 3) / 4 * 16;
                if pitch < 16 {
                    16
                } else {
                    pitch
                }
            },
            PixelFormat::PVRTC4_RGB | PixelFormat::PVRTC4_RGBA | PixelFormat::PVRTC2_RGB
            | PixelFormat::PVRTC2_RGBA => {
                let blocks = if width / 4 < 2 {
                    2
                } else {
                    width / 4
                };
                blocks * 8
            },
            _ => width * self.spec_bytesize(),
        }
    }

    /// The number of rows of a surface `height` pixels high: rows of blocks
    /// for a block-compressed format, at least one.
    pub open spec fn spec_num_rows(self, height: int) -> int {
        let rows = if self.spec_is_compressed() {
            (height + 3) / 4
        } else {
            height
        };
        if rows < 1 {
            1
        } else {
            rows
        }
    }

    /// Bytes in a 2D surface (a subimage or a texture slice).
    pub open spec fn spec_surface_pitch(self, width: int, height: int) -> int {
        self.spec_num_rows(height) * self.spec_row_pitch(width)
    }

    /// Whether this is a compressed format.
    pub fn is_compressed_pixel_format(self) -> (r: bool)
        ensures
            r == self.spec_is_compressed(),
    {
        match self {
            PixelFormat::DXT1 | PixelFormat::DXT3 | PixelFormat::DXT5 | PixelFormat::PVRTC2_RGB
            | PixelFormat::PVRTC4_RGB | PixelFormat::PVRTC2_RGBA | PixelFormat::PVRTC4_RGBA
            | PixelFormat::ETC2_RGB8 | PixelFormat::ETC2_SRGB8 => true,
            _ => false,
        }
    }

    /// Whether this format can be rendered to as a color target.
    pub fn is_valid_rendertarget_color_format(self) -> (r: bool)
        ensures
            r == (self == PixelFormat::RGBA8 || self == PixelFormat::R10G10B10A2 || self
                == PixelFormat::RGBA32F || self == PixelFormat::RGBA16F),
    {
        match self {
            PixelFormat::RGBA8 | PixelFormat::R10G10B10A2 | PixelFormat::RGBA32F
            | PixelFormat::RGBA16F => true,
            _ => false,
        }
    }

    /// Whether this format can be rendered to as a depth target.
    pub fn is_valid_rendertarget_depth_format(self) -> (r: bool)
        ensures
            r == (self == PixelFormat::Depth || self == PixelFormat::DepthStencil),
    {
        match self {
            PixelFormat::Depth | PixelFormat::DepthStencil => true,
            _ => false,
        }
    }

    /// Whether this is the combined depth-stencil format.
    pub fn is_depth_stencil_format(self) -> (r: bool)
        ensures
            r == (self == PixelFormat::DepthStencil),
    {
        self == PixelFormat::DepthStencil
    }

    /// Bytes per pixel. Only uncompressed color formats have one.
    pub fn bytesize(self) -> (r: usize)
        requires
            self.spec_has_bytesize(),
        ensures
            r == self.spec_bytesize(),
    {
        match self {
            PixelFormat::RGBA32F => 16,
            PixelFormat::RGBA16F => 8,
            PixelFormat::RGBA8 | PixelFormat::R10G10B10A2 | PixelFormat::R32F => 4,
            PixelFormat::RGB8 => 3,
            PixelFormat::R5G5B5A1 | PixelFormat::R5G6B5 | PixelFormat::RGBA4 | PixelFormat::R16F => 2,
            _ => 1,
        }
    }

    /// Bytes in one row of an image `width` pixels wide.
    pub fn row_pitch(self, width: usize) -> (r: usize)
        requires
            self.spec_has_bytesize() || self.spec_is_compressed(),
            self.spec_row_pitch(width as int) <= usize::MAX,
        ensures
            r == self.spec_row_pitch(width as int),
    {
        match self {
            PixelFormat::DXT1 | PixelFormat::ETC2_RGB8 | PixelFormat::ETC2_SRGB8 => {
                let pitch = ceil_quarter(width) * 8;
                if pitch < 8 {
                    8
                } else {
                    pitch
                }
            },
            PixelFormat::DXT3 | PixelFormat::DXT5 => {
                let pitch = ceil_quarter(width) * 16;
                if pitch < 16 {
                    16
                } else {
                    pitch
                }
            },
            PixelFormat::PVRTC4_RGB | PixelFormat::PVRTC4_RGBA => {
                let block_size: usize = 4 * 4;
                let bpp: usize = 4;
                let width_blocks = if width / 4 < 2 {
                    2
                } else {
                    width / 4
                };
                width_blocks * ((block_size * bpp) / 8)
            },
            PixelFormat::PVRTC2_RGB | PixelFormat::PVRTC2_RGBA => {
                let block_size: usize = 8 * 4;
                let bpp: usize = 2;
                let width_blocks = if width / 4 < 2 {
                    2
                } else {
                    width / 4
                };
                width_blocks * ((block_size * bpp) / 8)
            },
            _ => {
                let size = self.bytesize();
                proof {
                    assert(width as int * size as int == self.spec_row_pitch(width as int));
                }
                width * size
            },
        }
    }

    /// Bytes in a 2D surface `width` by `height` pixels.
    pub fn surface_pitch(self, width: usize, height: usize) -> (r: usize)
        requires
            self.spec_has_bytesize() || self.spec_is_compressed(),
            self.spec_surface_pitch(width as int, height as int) <= usize::MAX,
        ensures
            r == self.spec_surface_pitch(width as int, height as int),
    {
        let num_rows = if self.is_compressed_pixel_format() {
            ceil_quarter(height)
        } else {
            height
        };
        let num_rows = if num_rows < 1 {
            1
        } else {
            num_rows
        };
        let ghost rows = self.spec_num_rows(height as int);
        let ghost pitch = self.spec_row_pitch(width as int);
        assert(rows >= 1);
        assert(pitch >= 0) by {
            assert(self.spec_bytesize() >= 0);
            assert(width as int * self.spec_bytesize() >= 0) by (nonlinear_arith)
                requires
                    width >= 0,
                    self.spec_bytesize() >= 0,
            ;
        }
        assert(pitch <= rows * pitch) by (nonlinear_arith)
            requires
                rows >= 1,
                pitch >= 0,
        ;
        let row = self.row_pitch(width);
        num_rows * row
    }
}

/// `(n + 3) / 4`, computed without overflow.
fn ceil_quarter(n: usize) -> (r: usize)
    ensures
        r == (n as int + 3) / 4,
{
    if n % 4 == 0 {
        n / 4
    } else {
        n / 4 + 1
    }
}

/// A primitive type. The default is `Triangles`.
#[derive(Debug, Clone, Copy, PartialEq, Eq, Structural, Hash)]
pub enum PrimitiveType {
    Points,
    Lines,
    LineStrip,
    Triangles,
    TriangleStrip,
}

impl Default for PrimitiveType {
    fn default() -> (r: Self)
        ensures
            r == PrimitiveType::Triangles,
    {
        PrimitiveType::Triangles
    }
}

/// The filter used when sampling an image. The default is `Nearest`.
#[derive(Debug, Clone, Copy, PartialEq, Eq, Structural, Hash)]
pub enum Filter {
    Nearest,
    Linear,
    NearestMipmapNearest,
    NearestMipmapLinear,
    LinearMipmapNearest,
    LinearMipmapLinear,
}

impl Default for Filter {
    fn default() -> (r: Self)
        ensures
            r == Filter::Nearest,
    {
        Filter::Nearest
    }
}

/// The texture coordinate wrapping mode. The default is `Repeat`.
#[derive(Debug, Clone, Copy, PartialEq, Eq, Structural, Hash)]
pub enum Wrap {
    Repeat,
    ClampToEdge,
    MirroredRepeat,
}

impl Default for Wrap {
    fn default() -> (r: Self)
        ensures
            r == Wrap::Repeat,
    {
        Wrap::Repeat
    }
}

/// The data type of a vertex component.
#[derive(Debug, Clone, Copy, PartialEq, Eq, Structural, Hash)]
pub enum VertexFormat {
    Float,
    Float2,
    Float3,
    Float4,
    Byte4,
    Byte4N,
    UByte4,
    UByte4N,
    Short2,
    Short2N,
    Short4,
    Short4N,
    UInt10N2,
}

impl VertexFormat {
    /// Bytes per vertex component of this format.
    pub open spec fn spec_bytesize(self) -> int {
        match self {
            VertexFormat::Float => 4,
            VertexFormat::Float2 => 8,
            VertexFormat::Float3 => 12,
            VertexFormat::Float4 => 16,
            VertexFormat::Short4 | VertexFormat::Short4N => 8,
            _ => 4,
        }
    }

    /// Size in bytes of this vertex format.
    pub fn bytesize(self) -> (r: usize)
        ensures
            r == self.spec_bytesize(),
    {
        match self {
            VertexFormat::Float => 4,
            VertexFormat::Float2 => 8,
            VertexFormat::Float3 => 12,
            VertexFormat::Float4 => 16,
            VertexFormat::Byte4 => 4,
            VertexFormat::Byte4N => 4,
            VertexFormat::UByte4 => 4,
            VertexFormat::UByte4N => 4,
            VertexFormat::Short2 => 4,
            VertexFormat::Short2N => 4,
            VertexFormat::Short4 => 8,
            VertexFormat::Short4N => 8,
            VertexFormat::UInt10N2 => 4,
        }
    }
}

/// Whether a vertex stream advances per vertex or per instance. The
/// default is `PerVertex`.
#[derive(Debug, Clone, Copy, PartialEq, Eq, Structural, Hash)]
pub enum VertexStep {
    PerVertex,
    PerInstance,
}

impl Default for VertexStep {
    fn default() -> (r: Self)
        ensures
            r == VertexStep::PerVertex,
    {
        VertexStep::PerVertex
    }
}

/// The data type of a uniform block member. The default is `Float`.
#[derive(Debug, Clone, Copy, PartialEq, Eq, Structural, Hash)]
pub enum UniformType {
    Float,
    Float2,
    Float3,
    Float4,
    Mat4,
}

impl Default for UniformType {
    fn default() -> (r: Self)
        ensures
            r == UniformType::Float,
    {
        UniformType::Float
    }
}

impl UniformType {
    /// Bytes of one element of this type.
    pub open spec fn spec_element_size(self) -> int {
        match self {
            UniformType::Float => 4,
            UniformType::Float2 => 8,
            UniformType::Float3 => 12,
            UniformType::Float4 => 16,
            UniformType::Mat4 => 64,
        }
    }

    /// Bytes of an array of `count` uniforms of this type.
    pub fn bytesize(self, count: usize) -> (r: usize)
        requires
            self.spec_element_size() * count <= usize::MAX,
        ensures
            r == self.spec_element_size() * count,
    {
        match self {
            UniformType::Float => 4 * count,
            UniformType::Float2 => 8 * count,
            UniformType::Float3 => 12 * count,
            UniformType::Float4 => 16 * count,
            UniformType::Mat4 => 64 * count,
        }
    }
}

/// The face-culling mode. The default is `Disabled`: no face is culled.
#[derive(Debug, Clone, Copy, PartialEq, Eq, Structural, Hash)]
pub enum CullMode {
    Disabled,
    Front,
    Back,
}

impl Default for CullMode {
    fn default() -> (r: Self)
        ensures
            r == CullMode::Disabled,
    {
        CullMode::Disabled
    }
}

/// The vertex winding of front-facing primitives. The default is `CW`.
#[derive(Debug, Clone, Copy, PartialEq, Eq, Structural, Hash)]
pub enum FaceWinding {
    /// Counter-clockwise.
    CCW,
    /// Clockwise.
    CW,
}

impl Default for FaceWinding {
    fn default() -> (r: Self)
        ensures
            r == FaceWinding::CW,
    {
        FaceWinding::CW
    }
}

/// The compare function of depth and stencil tests. The default is `Always`.
#[derive(Debug, Clone, Copy, PartialEq, Eq, Structural, Hash)]
pub enum CompareFunc {
    Never,
    Less,
    Equal,
    LessEqual,
    Greater,
    NotEqual,
    GreaterEqual,
    Always,
}

impl Default for CompareFunc {
    fn default() -> (r: Self)
        ensures
            r == CompareFunc::Always,
    {
        CompareFunc::Always
    }
}

/// The operation on a stored stencil value when a test passes or fails.
/// The default is `Keep`.
#[derive(Debug, Clone, Copy, PartialEq, Eq, Structural, Hash)]
pub enum StencilOp {
    Keep,
    Zero,
    Replace,
    IncrClamp,
    DecrClamp,
    Invert,
    IncrWrap,
    DecrWrap,
}

impl Default for StencilOp {
    fn default() -> (r: Self)
        ensures
            r == StencilOp::Keep,
    {
        StencilOp::Keep
    }
}

/// The source and destination factors of blending.
#[derive(Debug, Clone, Copy, PartialEq, Eq, Structural, Hash)]
pub enum BlendFactor {
    Zero,
    One,
    SrcColor,
    OneMinusSrcColor,
    SrcAlpha,
    OneMinusSrcAlpha,
    DstColor,
    OneMinusDstColor,
    DstAlpha,
    OneMinusDstAlpha,
    SrcAlphaSaturated,
    BlendColor,
    OneMinusBlendColor,
    BlendAlpha,
    OneMinusBlendAlpha,
}

/// How source and destination values are combined when blending. The
/// default is `Add`.
#[derive(Debug, Clone, Copy, PartialEq, Eq, Structural, Hash)]
pub enum BlendOp {
    Add,
    Subtract,
    ReverseSubtract,
}

impl Default for BlendOp {
    fn default() -> (r: Self)
        ensures
            r == BlendOp::Add,
    {
        BlendOp::Add
    }
}

/// What happens to a render target at the start of a pass.
#[derive(Debug, Clone, Copy, PartialEq, Eq, Structural, Hash)]
pub enum Action {
    /// Clear the render target.
    Clear,
    /// Keep the previous content.
    Load,
    /// Leave the content undefined.
    DontCare,
}

/// The color channels written to the framebuffer, as a set of bits: red 1,
/// green 2, blue 4, alpha 8; the bit 0x10 stands for "no channel". The
/// default writes all four channels.
#[derive(Debug, Clone, Copy, PartialEq, Eq, Structural, Hash)]
pub struct ColorMask {
    bits: u32,
}

/// All bits that a color mask may hold.
pub const COLOR_MASK_ALL_BITS: u32 = 0x1F;

impl View for ColorMask {
    type V = u32;

    closed spec fn view(&self) -> u32 {
        self.bits
    }
}

impl Default for ColorMask {
    fn default() -> (r: Self)
        ensures
            r@ == 0xF,
    {
        ColorMask::rgba()
    }
}

impl ColorMask {
    /// The mask holding the defined bits of `bits`; other bits are dropped.
    pub fn from_bits_truncate(bits: u32) -> (r: ColorMask)
        ensures
            r@ == bits & COLOR_MASK_ALL_BITS,
    {
        ColorMask { bits: bits & COLOR_MASK_ALL_BITS }
    }

    /// The bits of this mask.
    pub fn bits(self) -> (r: u32)
        ensures
            r == self@,
    {
        self.bits
    }

    /// No channel.
    pub fn none() -> (r: ColorMask)
        ensures
            r@ == 0x10,
    {
        ColorMask { bits: 0x10 }
    }

    /// Red.
    pub fn r() -> (r: ColorMask)
        ensures
            r@ == 1,
    {
        ColorMask { bits: 1 }
    }

    /// Green.
    pub fn g() -> (r: ColorMask)
        ensures
            r@ == 2,
    {
        ColorMask { bits: 2 }
    }

    /// Blue.
    pub fn b() -> (r: ColorMask)
        ensures
            r@ == 4,
    {
        ColorMask { bits: 4 }
    }

    /// Alpha.
    pub fn a() -> (r: ColorMask)
        ensures
            r@ == 8,
    {
        ColorMask { bits: 8 }
    }

    /// Red, green and blue.
    pub fn rgb() -> (r: ColorMask)
        ensures
            r@ == 7,
    {
        ColorMask { bits: 7 }
    }

    /// All four channels.
    pub fn rgba() -> (r: ColorMask)
        ensures
            r@ == 0xF,
    {
        ColorMask { bits: 0xF }
    }

    /// Whether every bit of `other` is set in this mask.
    pub fn contains(self, other: ColorMask) -> (r: bool)
        ensures
            r == (self@ & other@ == other@),
    {
        self.bits & other.bits == other.bits
    }

    /// The bits set in either mask.
    pub fn union(self, other: ColorMask) -> (r: ColorMask)
        ensures
            r@ == self@ | other@,
    {
        ColorMask { bits: self.bits | other.bits }
    }
}

} // verus!
