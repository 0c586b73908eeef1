//! The OpenGL backend: its resource payloads, the translation of the API's
//! enumerations to GL values, and the backend state.
use vstd::prelude::*;

use crate::desc::{
    DepthStencilState, MAX_COLOR_ATTACHMENTS, MAX_SHADERSTAGE_BUFFERS, MAX_SHADERSTAGE_IMAGES,
    MAX_SHADERSTAGE_UBS, MAX_UB_MEMBERS, MAX_VERTEX_ATTRIBUTES, NUM_INFLIGHT_FRAMES,
    NUM_SHADER_STAGES,
};
use crate::handle::{Image, Pipeline, Shader};
use crate::types::{
    BufferType, Filter, ImageType, IndexType, PixelFormat, PrimitiveType, UniformType, Usage, Wrap,
};

pub mod backend;
pub mod translations;

pub use backend::Backend;

verus! {

/// The GL payload of a buffer.
pub struct BufferResource {
    pub size: usize,
    pub buffer_type: BufferType,
    pub usage: Usage,
    pub upd_frame_index: u32,
    pub active_slot: usize,
    /// One GL buffer per frame in flight.
    pub gl_buf: Vec<u32>,
    /// Whether the GL buffers were created outside this library.
    pub ext_buffers: bool,
}

impl Default for BufferResource {
    fn default() -> (r: Self)
        ensures
            r.size == 0,
            r.buffer_type == BufferType::VertexBuffer,
            r.usage == Usage::Immutable,
            r.upd_frame_index == 0,
            r.active_slot == 0,
            r.gl_buf@.len() == 0,
            !r.ext_buffers,
    {
        BufferResource {
            size: 0,
            buffer_type: BufferType::VertexBuffer,
            usage: Usage::Immutable,
            upd_frame_index: 0,
            active_slot: 0,
            gl_buf: Vec::with_capacity(NUM_INFLIGHT_FRAMES),
            ext_buffers: false,
        }
    }
}

impl BufferResource {
    /// The GL buffers to delete when the buffer is destroyed: none when
    /// they were created outside this library.
    pub fn owned_gl_buffers(&self) -> (r: Vec<u32>)
        ensures
            r@ == if self.ext_buffers {
                Seq::<u32>::empty()
            } else {
                self.gl_buf@
            },
    {
        if self.ext_buffers {
            Vec::new()
        } else {
            self.gl_buf.clone()
        }
    }
}

/// The GL payload of an image.
pub struct ImageResource {
    pub image_type: ImageType,
    pub render_target: bool,
    pub width: usize,
    pub height: usize,
    pub depth: usize,
    pub num_mipmaps: usize,
    pub usage: Usage,
    pub pixel_format: PixelFormat,
    pub sample_count: usize,
    pub min_filter: Filter,
    pub mag_filter: Filter,
    pub wrap_u: Wrap,
    pub wrap_v: Wrap,
    pub wrap_w: Wrap,
    pub max_anisotropy: u32,
    pub gl_target: u32,
    pub gl_depth_render_buffer: u32,
    pub gl_msaa_render_buffer: u32,
    pub upd_frame_index: u32,
    pub num_slots: usize,
    pub active_slot: usize,
    /// One GL texture per frame in flight.
    pub gl_tex: Vec<u32>,
    /// Whether the GL textures were created outside this library.
    pub ext_textures: bool,
}

impl Default for ImageResource {
    fn default() -> (r: Self)
        ensures
            r.image_type == ImageType::Texture2D,
            !r.render_target,
            r.width == 0 && r.height == 0 && r.depth == 0,
            r.num_mipmaps == 0,
            r.usage == Usage::Immutable,
            r.pixel_format == PixelFormat::RGBA8,
            r.sample_count == 0,
            r.min_filter == Filter::Nearest && r.mag_filter == Filter::Nearest,
            r.wrap_u == Wrap::Repeat && r.wrap_v == Wrap::Repeat && r.wrap_w == Wrap::Repeat,
            r.max_anisotropy == 0,
            r.gl_target == 0,
            r.gl_depth_render_buffer == 0 && r.gl_msaa_render_buffer == 0,
            r.upd_frame_index == 0,
            r.num_slots == 0 && r.active_slot == 0,
            r.gl_tex@ == Seq::new(NUM_INFLIGHT_FRAMES as nat, |i: int| 0u32),
            !r.ext_textures,
    {
        let gl_tex: Vec<u32> = vec![0u32; NUM_INFLIGHT_FRAMES];
        assert(gl_tex@ =~= Seq::new(NUM_INFLIGHT_FRAMES as nat, |i: int| 0u32));
        ImageResource {
            image_type: ImageType::Texture2D,
            render_target: false,
            width: 0,
            height: 0,
            depth: 0,
            num_mipmaps: 0,
            usage: Usage::Immutable,
            pixel_format: PixelFormat::RGBA8,
            sample_count: 0,
            min_filter: Filter::Nearest,
            mag_filter: Filter::Nearest,
            wrap_u: Wrap::Repeat,
            wrap_v: Wrap::Repeat,
            wrap_w: Wrap::Repeat,
            max_anisotropy: 0,
            gl_target: 0,
            gl_depth_render_buffer: 0,
            gl_msaa_render_buffer: 0,
            upd_frame_index: 0,
            num_slots: 0,
            active_slot: 0,
            gl_tex,
            ext_textures: false,
        }
    }
}

impl ImageResource {
    /// The GL textures to delete when the image is destroyed: none when
    /// they were created outside this library.
    pub fn owned_gl_textures(&self) -> (r: Vec<u32>)
        ensures
            r@ == if self.ext_textures {
                Seq::<u32>::empty()
            } else {
                self.gl_tex@
            },
    {
        if self.ext_textures {
            Vec::new()
        } else {
            self.gl_tex.clone()
        }
    }
}

/// A member of a uniform block, as located in the linked GL program.
pub struct Uniform {
    pub gl_loc: i32,
    pub uniform_type: UniformType,
    pub count: u8,
    pub offset: u16,
}

/// A uniform block of a shader stage.
pub struct UniformBlock {
    pub uniforms: Vec<Uniform>,
}

impl Default for UniformBlock {
    fn default() -> (r: Self)
        ensures
            r.uniforms@.len() == 0,
    {
        UniformBlock { uniforms: Vec::with_capacity(MAX_UB_MEMBERS) }
    }
}

/// The uniform blocks and images of one stage of a GL shader.
pub struct ShaderStage {
    pub uniform_blocks: Vec<UniformBlock>,
    pub images: Vec<ImageResource>,
}

impl Default for ShaderStage {
    fn default() -> (r: Self)
        ensures
            r.uniform_blocks@.len() == 0,
            r.images@.len() == 0,
    {
        ShaderStage {
            uniform_blocks: Vec::with_capacity(MAX_SHADERSTAGE_UBS),
            images: Vec::with_capacity(MAX_SHADERSTAGE_IMAGES),
        }
    }
}

/// The GL payload of a shader: the linked program and its two stages.
pub struct ShaderResource {
    pub gl_prog: u32,
    pub stage: Vec<ShaderStage>,
}

impl Default for ShaderResource {
    fn default() -> (r: Self)
        ensures
            r.gl_prog == 0,
            r.stage@.len() == NUM_SHADER_STAGES,
            forall|i: int|
                0 <= i < NUM_SHADER_STAGES ==> (#[trigger] r.stage@[i]).uniform_blocks@.len() == 0
                    && r.stage@[i].images@.len() == 0,
    {
        let mut stage: Vec<ShaderStage> = Vec::with_capacity(NUM_SHADER_STAGES);
        let mut i: usize = 0;
        while i < NUM_SHADER_STAGES
            invariant
                i <= NUM_SHADER_STAGES,
                stage@.len() == i,
                forall|k: int|
                    0 <= k < i ==> (#[trigger] stage@[k]).uniform_blocks@.len() == 0
                        && stage@[k].images@.len() == 0,
            decreases NUM_SHADER_STAGES - i,
        {
            stage.push(ShaderStage::default());
            i += 1;
        }
        ShaderResource { gl_prog: 0, stage }
    }
}

/// How a vertex attribute is fed from a vertex buffer.
pub struct GlAttr {
    /// The vertex buffer slot, -1 if the attribute is not enabled.
    pub vb_index: i8,
    /// The instancing divisor, -1 if not set.
    pub divisor: i8,
    pub stride: i8,
    pub size: i8,
    pub normalized: i8,
    pub offset: u8,
    pub attr_type: u32,
}

impl Default for GlAttr {
    fn default() -> (r: Self)
        ensures
            r.vb_index == -1,
            r.divisor == -1,
            r.stride == 0 && r.size == 0 && r.normalized == 0 && r.offset == 0,
            r.attr_type == 0,
    {
        GlAttr { vb_index: -1, divisor: -1, stride: 0, size: 0, normalized: 0, offset: 0, attr_type: 0 }
    }
}

/// The GL payload of a pipeline.
pub struct PipelineResource {
    pub shader_id: Shader,
    pub primitive_type: PrimitiveType,
    pub index_type: IndexType,
    pub vertex_layout_valid: Vec<bool>,
    pub color_attachment_count: usize,
    pub color_format: PixelFormat,
    pub depth_format: PixelFormat,
    pub sample_count: usize,
    pub gl_attrs: Vec<GlAttr>,
    pub depth_stencil: DepthStencilState,
}

impl Default for PipelineResource {
    fn default() -> (r: Self)
        ensures
            r.primitive_type == PrimitiveType::Triangles,
            r.index_type == IndexType::UInt16,
            r.vertex_layout_valid@.len() == 0,
            r.color_attachment_count == 0,
            r.color_format == PixelFormat::RGBA8,
            r.depth_format == PixelFormat::RGBA8,
            r.sample_count == 0,
            r.gl_attrs@.len() == 0,
    {
        PipelineResource {
            shader_id: Shader::default(),
            primitive_type: PrimitiveType::Triangles,
            index_type: IndexType::UInt16,
            vertex_layout_valid: Vec::with_capacity(MAX_SHADERSTAGE_BUFFERS),
            color_attachment_count: 0,
            color_format: PixelFormat::RGBA8,
            depth_format: PixelFormat::RGBA8,
            sample_count: 0,
            gl_attrs: Vec::with_capacity(MAX_VERTEX_ATTRIBUTES),
            depth_stencil: DepthStencilState::default(),
        }
    }
}

/// An attachment of a GL pass.
#[derive(Default)]
pub struct Attachment {
    pub image_id: Image,
    pub mip_level: usize,
    pub slice: usize,
    pub gl_msaa_resolve_buffer: u32,
}

/// The GL payload of a pass: its framebuffer and attachments.
pub struct PassResource {
    pub gl_fb: u32,
    pub color_atts: Vec<Attachment>,
    pub ds_att: Attachment,
}

impl Default for PassResource {
    fn default() -> (r: Self)
        ensures
            r.gl_fb == 0,
            r.color_atts@.len() == 0,
            r.ds_att.mip_level == 0 && r.ds_att.slice == 0,
            r.ds_att.gl_msaa_resolve_buffer == 0,
    {
        PassResource {
            gl_fb: 0,
            color_atts: Vec::with_capacity(MAX_COLOR_ATTACHMENTS),
            ds_att: Attachment {
                image_id: Image::default(),
                mip_level: 0,
                slice: 0,
                gl_msaa_resolve_buffer: 0,
            },
        }
    }
}

} // verus!
