//! The Metal backend: its resource payloads, the translation of the API's
//! enumerations to Metal's enumeration values, and the backend state.
//!
//! Metal's enumerations are `NSUInteger`s; the translations return those
//! raw values, which equal the discriminants of the corresponding enums of
//! the `metal-rs` bindings.
use vstd::prelude::*;

use crate::desc::{MAX_COLOR_ATTACHMENTS, MAX_SHADERSTAGE_IMAGES, MAX_SHADERSTAGE_UBS, NUM_INFLIGHT_FRAMES, NUM_SHADER_STAGES};
use crate::handle;
use crate::types::{BufferType, Filter, ImageType, PixelFormat, Usage, Wrap};

pub mod backend;
pub mod translations;

pub use backend::Backend;

verus! {

/// The Apple platform the Metal backend runs on; some texture compression
/// formats exist on one of them only.
#[derive(Debug, Clone, Copy, PartialEq, Eq, Structural)]
pub enum MetalPlatform {
    MacOS,
    IOS,
}

/// The Metal payload of a buffer.
#[derive(Debug, Default)]
pub struct Buffer {
    pub size: usize,
    pub buffer_type: BufferType,
    pub usage: Usage,
    pub upd_frame_index: u32,
    pub num_slots: usize,
    pub active_slot: usize,
    pub mtl_buf: [u32; NUM_INFLIGHT_FRAMES],
}

/// The Metal payload of an image.
#[derive(Debug, Default)]
pub struct Image {
    pub image_type: ImageType,
    pub render_target: bool,
    pub width: usize,
    pub height: usize,
    pub depth: usize,
    pub num_mipmaps: usize,
    pub usage: Usage,
    pub pixel_format: PixelFormat,
    pub sample_count: usize,
    pub min_filter: Filter,
    pub mag_filter: Filter,
    pub wrap_u: Wrap,
    pub wrap_v: Wrap,
    pub wrap_w: Wrap,
    pub max_anisotropy: u32,
    pub upd_frame_index: u32,
    pub num_slots: usize,
    pub active_slot: usize,
    pub mtl_tex: [u32; NUM_INFLIGHT_FRAMES],
    pub mtl_depth_tex: u32,
    pub mtl_msaa_tex: u32,
    pub mtl_sampler_state: u32,
}

/// A uniform block of a Metal shader stage.
#[derive(Debug, Default)]
pub struct UniformBlock {
    pub size: usize,
}

/// An image used by a Metal shader stage.
#[derive(Debug, Default)]
pub struct ShaderImage {
    pub image_type: ImageType,
}

/// One stage of a Metal shader: its library, function, uniform blocks and
/// images.
#[derive(Debug, Default)]
pub struct ShaderStage {
    pub num_uniform_blocks: usize,
    pub num_images: usize,
    pub uniform_blocks: [UniformBlock; MAX_SHADERSTAGE_UBS],
    pub images: [ShaderImage; MAX_SHADERSTAGE_IMAGES],
    pub mtl_lib: u32,
    pub mtl_func: u32,
}

/// The Metal payload of a shader.
#[derive(Debug, Default)]
pub struct Shader {
    pub stage: [ShaderStage; NUM_SHADER_STAGES],
}

/// An attachment of a Metal pass.
#[derive(Debug, Default)]
pub struct Attachment {
    pub image_id: handle::Image,
    pub mip_level: u32,
    pub slice: u32,
}

/// The Metal payload of a pass.
#[derive(Debug, Default)]
pub struct Pass {
    pub num_color_atts: u32,
    pub color_atts: [Attachment; MAX_COLOR_ATTACHMENTS],
    pub ds_att: Attachment,
}

} // verus!
