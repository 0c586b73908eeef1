//! Plain descriptions handed to the API to create resources and passes.
use vstd::prelude::*;

use crate::handle::{Buffer, Image, Pipeline, Shader};
use crate::types::{
    Action, BufferType, ColorMask, CompareFunc, ImageType, StencilOp, UniformType, Usage,
    VertexFormat, VertexStep,
};

verus! {

/// Number of shader stages.
pub const NUM_SHADER_STAGES: usize = 2;

/// Number of frames the CPU may run ahead of the GPU.
pub const NUM_INFLIGHT_FRAMES: usize = 2;

/// Maximum number of color attachments of a pass.
pub const MAX_COLOR_ATTACHMENTS: usize = 4;

/// Maximum number of vertex buffers bound at once.
pub const MAX_SHADERSTAGE_BUFFERS: usize = 4;

/// Maximum number of images per shader stage.
pub const MAX_SHADERSTAGE_IMAGES: usize = 12;

/// Maximum number of uniform blocks per shader stage.
pub const MAX_SHADERSTAGE_UBS: usize = 4;

/// Maximum number of members of a uniform block.
pub const MAX_UB_MEMBERS: usize = 16;

/// Maximum number of vertex attributes.
pub const MAX_VERTEX_ATTRIBUTES: usize = 16;

/// Maximum number of mipmap levels.
pub const MAX_MIPMAPS: usize = 16;

/// Maximum number of layers of an array texture.
pub const MAX_TEXTUREARRAY_LAYERS: usize = 128;

/// Number of faces of a cube map.
pub const CUBEFACE_NUM: usize = 6;

/// The pool capacities of a context, one per resource kind.
#[derive(Debug, Clone, Copy, PartialEq, Eq, Structural)]
pub struct Config {
    /// Defaults to 128.
    pub buffer_pool_size: usize,
    /// Defaults to 128.
    pub image_pool_size: usize,
    /// Defaults to 32.
    pub shader_pool_size: usize,
    /// Defaults to 64.
    pub pipeline_pool_size: usize,
    /// Defaults to 16.
    pub pass_pool_size: usize,
    /// Run the GL backend in GLES2 fallback mode even where GLES3 is there.
    pub gl_force_gles2: bool,
    /// Bytes of the Metal backend's per-frame uniform buffer; defaults to
    /// 4 MiB.
    pub mtl_global_uniform_buffer_size: usize,
    /// Slots of the Metal backend's sampler cache; defaults to 64.
    pub mtl_sampler_cache_size: usize,
}

impl Default for Config {
    fn default() -> (r: Self)
        ensures
            r == (Config {
                buffer_pool_size: 128,
                image_pool_size: 128,
                shader_pool_size: 32,
                pipeline_pool_size: 64,
                pass_pool_size: 16,
                gl_force_gles2: false,
                mtl_global_uniform_buffer_size: 0x400000,
                mtl_sampler_cache_size: 64,
            }),
    {
        Config {
            buffer_pool_size: 128,
            image_pool_size: 128,
            shader_pool_size: 32,
            pipeline_pool_size: 64,
            pass_pool_size: 16,
            gl_force_gles2: false,
            mtl_global_uniform_buffer_size: 4 * 1024 * 1024,
            mtl_sampler_cache_size: 64,
        }
    }
}

/// The stencil action at the start of a pass, with its clear value.
#[derive(Debug, Clone, Copy, PartialEq, Eq, Structural)]
pub struct StencilAttachmentAction {
    pub action: Action,
    pub val: u8,
}

/// The resource bindings of the next draw call.
#[derive(Debug, Clone, Copy)]
pub struct DrawState {
    /// The pipeline to draw with.
    pub pipeline: Pipeline,
    pub vertex_buffers: [Buffer; MAX_SHADERSTAGE_BUFFERS],
    pub index_buffer: Option<Buffer>,
    pub vs_images: [Image; MAX_SHADERSTAGE_IMAGES],
    pub fs_images: [Image; MAX_SHADERSTAGE_IMAGES],
}

/// Creation parameters of a buffer.
#[derive(Debug)]
pub struct BufferDesc {
    pub size: usize,
    pub buffer_type: BufferType,
    pub usage: Usage,
    pub content: Vec<u8>,
}

/// The content of one subimage (a cube face at a mip level).
#[derive(Debug)]
pub struct SubimageContent<'c> {
    pub content: &'c [u8],
}

/// The content of an image: subimages by mip level, then by cube face.
#[derive(Debug)]
pub struct ImageContent<'c> {
    pub subimage: [[SubimageContent<'c>; CUBEFACE_NUM]; MAX_MIPMAPS],
}

/// A member of a uniform block.
#[derive(Debug)]
pub struct ShaderUniformDesc {
    pub name: &'static str,
    pub uniform_type: UniformType,
    pub array_count: u32,
}

/// A uniform block of a shader stage.
#[derive(Debug)]
pub struct ShaderUniformBlockDesc {
    pub size: u32,
    pub uniforms: [ShaderUniformDesc; MAX_UB_MEMBERS],
}

/// An image used by a shader stage.
#[derive(Debug)]
pub struct ShaderImageDesc {
    pub name: &'static str,
    pub image_type: ImageType,
}

/// One stage of a shader: its source or byte code, entry point, uniform
/// blocks and images.
#[derive(Debug)]
pub struct ShaderStageDesc {
    pub source: &'static str,
    pub byte_code: &'static [u8],
    pub entry: &'static str,
    pub uniform_blocks: [ShaderUniformBlockDesc; MAX_SHADERSTAGE_UBS],
    pub images: [ShaderImageDesc; MAX_SHADERSTAGE_IMAGES],
}

/// Creation parameters of a shader.
#[derive(Debug)]
pub struct ShaderDesc {
    pub vs: ShaderStageDesc,
    pub fs: ShaderStageDesc,
}

/// A vertex attribute, named or given by semantic name and index.
#[derive(Debug)]
pub struct VertexAttrDesc {
    pub name: &'static str,
    pub sem_name: &'static str,
    pub sem_index: u32,
    pub offset: u32,
    pub format: VertexFormat,
}

/// The layout of one vertex buffer.
#[derive(Debug)]
pub struct VertexLayoutDesc {
    pub stride: u32,
    pub step_func: VertexStep,
    pub step_rate: u32,
    pub attrs: [VertexAttrDesc; MAX_VERTEX_ATTRIBUTES],
}

/// The stencil operations and compare function of one face.
#[derive(Debug, Clone, Copy, PartialEq, Eq, Structural)]
pub struct StencilState {
    pub fail_op: StencilOp,
    pub depth_fail_op: StencilOp,
    pub pass_op: StencilOp,
    pub compare_func: CompareFunc,
}

impl Default for StencilState {
    fn default() -> (r: Self)
        ensures
            r == (StencilState {
                fail_op: StencilOp::Keep,
                depth_fail_op: StencilOp::Keep,
                pass_op: StencilOp::Keep,
                compare_func: CompareFunc::Always,
            }),
    {
        StencilState {
            fail_op: StencilOp::Keep,
            depth_fail_op: StencilOp::Keep,
            pass_op: StencilOp::Keep,
            compare_func: CompareFunc::Always,
        }
    }
}

/// The depth and stencil state of a pipeline.
#[derive(Debug, Clone, Copy, PartialEq, Eq, Structural)]
pub struct DepthStencilState {
    pub stencil_front: StencilState,
    pub stencil_back: StencilState,
    pub depth_compare_func: CompareFunc,
    pub depth_write_enabled: bool,
    pub stencil_enabled: bool,
    pub stencil_read_mask: u8,
    pub stencil_write_mask: ColorMask,
    pub stencil_ref: u8,
}

impl DepthStencilState {
    /// Whether this is the default state: depth test always passes and
    /// writes nothing, stencil is off, all stencil operations keep.
    pub open spec fn is_default(self) -> bool {
        &&& self.stencil_front == self.stencil_back
        &&& self.stencil_front.fail_op == StencilOp::Keep
        &&& self.stencil_front.depth_fail_op == StencilOp::Keep
        &&& self.stencil_front.pass_op == StencilOp::Keep
        &&& self.stencil_front.compare_func == CompareFunc::Always
        &&& self.depth_compare_func == CompareFunc::Always
        &&& !self.depth_write_enabled
        &&& !self.stencil_enabled
        &&& self.stencil_read_mask == 0
        &&& self.stencil_write_mask@ == 0xF
        &&& self.stencil_ref == 0
    }
}

impl Default for DepthStencilState {
    fn default() -> (r: Self)
        ensures
            r.is_default(),
    {
        DepthStencilState {
            stencil_front: StencilState::default(),
            stencil_back: StencilState::default(),
            depth_compare_func: CompareFunc::Always,
            depth_write_enabled: false,
            stencil_enabled: false,
            stencil_read_mask: 0,
            stencil_write_mask: ColorMask::rgba(),
            stencil_ref: 0,
        }
    }
}

/// An attachment of a pass: an image and the subimage rendered to.
#[derive(Debug, Clone, Copy, PartialEq, Eq, Structural)]
pub struct AttachmentDesc {
    /// The image to render to.
    pub image: Image,
    /// The mip level to render to.
    pub mip_level: usize,
    /// The cube face, array layer or depth slice to render to.
    pub index: usize,
}

/// Creation parameters of a pass: up to `MAX_COLOR_ATTACHMENTS` color
/// attachments and an optional depth-stencil attachment. All images must be
/// render targets of one size and one sample count.
#[derive(Debug, Clone, Copy)]
pub struct PassDesc {
    pub color_attachments: [AttachmentDesc; MAX_COLOR_ATTACHMENTS],
    pub depth_stencil_attachment: Option<AttachmentDesc>,
}

} // verus!
