//! Translations of the API's enumerations to OpenGL enum values, taken from
//! gleam's bindings.
use vstd::prelude::*;

use crate::types::{BufferType, ImageType, ShaderStage, Usage};

verus! {

/// Relies on gleam::gl::ARRAY_BUFFER, the GL enum 0x8892.
#[verifier::external_body]
fn gl_array_buffer() -> (r: u32)
    ensures
        r == 0x8892,
{
    gleam::gl::ARRAY_BUFFER
}

/// Relies on gleam::gl::ELEMENT_ARRAY_BUFFER, the GL enum 0x8893.
#[verifier::external_body]
fn gl_element_array_buffer() -> (r: u32)
    ensures
        r == 0x8893,
{
    gleam::gl::ELEMENT_ARRAY_BUFFER
}

/// Relies on gleam::gl::TEXTURE_2D, the GL enum 0x0DE1.
#[verifier::external_body]
fn gl_texture_2d() -> (r: u32)
    ensures
        r == 0x0DE1,
{
    gleam::gl::TEXTURE_2D
}

/// Relies on gleam::gl::TEXTURE_CUBE_MAP, the GL enum 0x8513.
#[verifier::external_body]
fn gl_texture_cube_map() -> (r: u32)
    ensures
        r == 0x8513,
{
    gleam::gl::TEXTURE_CUBE_MAP
}

/// Relies on gleam::gl::TEXTURE_3D, the GL enum 0x806F.
#[verifier::external_body]
fn gl_texture_3d() -> (r: u32)
    ensures
        r == 0x806F,
{
    gleam::gl::TEXTURE_3D
}

/// Relies on gleam::gl::TEXTURE_2D_ARRAY, the GL enum 0x8C1A.
#[verifier::external_body]
fn gl_texture_2d_array() -> (r: u32)
    ensures
        r == 0x8C1A,
{
    gleam::gl::TEXTURE_2D_ARRAY
}

/// Relies on gleam::gl::VERTEX_SHADER, the GL enum 0x8B31.
#[verifier::external_body]
fn gl_vertex_shader() -> (r: u32)
    ensures
        r == 0x8B31,
{
    gleam::gl::VERTEX_SHADER
}

/// Relies on gleam::gl::FRAGMENT_SHADER, the GL enum 0x8B30.
#[verifier::external_body]
fn gl_fragment_shader() -> (r: u32)
    ensures
        r == 0x8B30,
{
    gleam::gl::FRAGMENT_SHADER
}

/// Relies on gleam::gl::STATIC_DRAW, the GL enum 0x88E4.
#[verifier::external_body]
fn gl_static_draw() -> (r: u32)
    ensures
        r == 0x88E4,
{
    gleam::gl::STATIC_DRAW
}

/// Relies on gleam::gl::DYNAMIC_DRAW, the GL enum 0x88E8.
#[verifier::external_body]
fn gl_dynamic_draw() -> (r: u32)
    ensures
        r == 0x88E8,
{
    gleam::gl::DYNAMIC_DRAW
}

/// Relies on gleam::gl::STREAM_DRAW, the GL enum 0x88E0.
#[verifier::external_body]
fn gl_stream_draw() -> (r: u32)
    ensures
        r == 0x88E0,
{
    gleam::gl::STREAM_DRAW
}

/// Relies on gleam::gl::TRIANGLES, the GL enum 0x0004.
#[verifier::external_body]
pub(crate) fn gl_triangles() -> (r: u32)
    ensures
        r == 0x0004,
{
    gleam::gl::TRIANGLES
}

/// Relies on gleam::gl::INVALID_VALUE, the GL enum 0x0501, which also marks
/// a vertex array object that was not created yet.
#[verifier::external_body]
pub(crate) fn gl_invalid_value() -> (r: u32)
    ensures
        r == 0x0501,
{
    gleam::gl::INVALID_VALUE
}

impl BufferType {
    /// The GL buffer binding target of this buffer type.
    pub open spec fn spec_gl_buffer_target(self) -> u32 {
        match self {
            BufferType::VertexBuffer => 0x8892,
            BufferType::IndexBuffer => 0x8893,
        }
    }

    /// Converts this buffer type to its GL binding target.
    pub fn gl_buffer_target(self) -> (r: u32)
        ensures
            r == self.spec_gl_buffer_target(),
    {
        match self {
            BufferType::VertexBuffer => gl_array_buffer(),
            BufferType::IndexBuffer => gl_element_array_buffer(),
        }
    }
}

impl ImageType {
    /// The GL texture target of this image type.
    pub open spec fn spec_gl_texture_target(self) -> u32 {
        match self {
            ImageType::Texture2D => 0x0DE1,
            ImageType::Cube => 0x8513,
            ImageType::Texture3D => 0x806F,
            ImageType::Array => 0x8C1A,
        }
    }

    /// Converts this image type to its GL texture target.
    pub fn gl_texture_target(self) -> (r: u32)
        ensures
            r == self.spec_gl_texture_target(),
    {
        match self {
            ImageType::Texture2D => gl_texture_2d(),
            ImageType::Cube => gl_texture_cube_map(),
            ImageType::Texture3D => gl_texture_3d(),
            ImageType::Array => gl_texture_2d_array(),
        }
    }
}

impl ShaderStage {
    /// The GL shader type of this stage.
    pub open spec fn spec_gl_shader_stage(self) -> u32 {
        match self {
            ShaderStage::VS => 0x8B31,
            ShaderStage::FS => 0x8B30,
        }
    }

    /// Converts this shader stage to its GL shader type.
    pub fn gl_shader_stage(self) -> (r: u32)
        ensures
            r == self.spec_gl_shader_stage(),
    {
        match self {
            ShaderStage::VS => gl_vertex_shader(),
            ShaderStage::FS => gl_fragment_shader(),
        }
    }
}

impl Usage {
    /// The GL buffer usage hint of this usage.
    pub open spec fn spec_gl_usage(self) -> u32 {
        match self {
            Usage::Immutable => 0x88E4,
            Usage::Dynamic => 0x88E8,
            Usage::Stream => 0x88E0,
        }
    }

    /// Converts this usage to its GL buffer usage hint.
    pub fn gl_usage(self) -> (r: u32)
        ensures
            r == self.spec_gl_usage(),
    {
        match self {
            Usage::Immutable => gl_static_draw(),
            Usage::Dynamic => gl_dynamic_draw(),
            Usage::Stream => gl_stream_draw(),
        }
    }
}

} // verus!
