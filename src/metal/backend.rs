//! The state of the Metal backend. The Metal calls themselves are made by
//! the caller, which applies what this state decides.
use vstd::prelude::*;

use super::MetalPlatform;
use crate::handle::{Buffer, Pipeline, ResourceHandle, INVALID_ID};
use crate::types::Feature;

verus! {

/// Whether Metal on `platform` supports feature `f`.
pub open spec fn spec_mtl_feature(platform: MetalPlatform, f: Feature) -> bool {
    match f {
        Feature::Instancing | Feature::TextureFloat | Feature::OriginTopLeft
        | Feature::MSAARenderTargets | Feature::PackedVertexFormat_10_2
        | Feature::MultipleRenderTarget | Feature::ImageType3D | Feature::ImageTypeArray => true,
        Feature::TextureCompressionDXT => platform == MetalPlatform::MacOS,
        Feature::TextureCompressionPVRTC | Feature::TextureCompressionETC2 => platform
            == MetalPlatform::IOS,
        _ => false,
    }
}

/// A rectangle in Metal's coordinates, whose origin is top-left.
#[derive(Debug, Clone, Copy, PartialEq, Eq, Structural)]
pub struct MtlRect {
    pub x: i64,
    pub y: i64,
    pub width: i64,
    pub height: i64,
}

/// The top-left based rectangle for a rectangle given from the top-left
/// (when `origin_top_left`) or from the bottom-left of a target
/// `target_height` pixels high.
pub open spec fn spec_mtl_rect(x: u32, y: u32, width: u32, height: u32, origin_top_left: bool, target_height: u32) -> MtlRect {
    MtlRect {
        x: x as i64,
        y: if origin_top_left {
            y as i64
        } else {
            (target_height - (y + height)) as i64
        },
        width: width as i64,
        height: height as i64,
    }
}

/// The model of the backend state.
pub struct BackendView {
    pub platform: MetalPlatform,
    pub in_pass: bool,
    pub cur_width: u32,
    pub cur_height: u32,
    /// The number of frames committed, modulo 2^32.
    pub frame_index: u32,
    pub cur_pipeline: Pipeline,
    pub cur_index_buffer: Buffer,
}

/// The state of the Metal backend.
pub struct Backend {
    platform: MetalPlatform,
    in_pass: bool,
    cur_width: u32,
    cur_height: u32,
    frame_index: u32,
    cur_pipeline: Pipeline,
    cur_index_buffer: Buffer,
}

impl View for Backend {
    type V = BackendView;

    closed spec fn view(&self) -> BackendView {
        BackendView {
            platform: self.platform,
            in_pass: self.in_pass,
            cur_width: self.cur_width,
            cur_height: self.cur_height,
            frame_index: self.frame_index,
            cur_pipeline: self.cur_pipeline,
            cur_index_buffer: self.cur_index_buffer,
        }
    }
}

/// The top-left based rectangle; see `spec_mtl_rect`.
fn mtl_rect(x: u32, y: u32, width: u32, height: u32, origin_top_left: bool, target_height: u32) -> (r: MtlRect)
    ensures
        r == spec_mtl_rect(x, y, width, height, origin_top_left, target_height),
{
    let mtl_y = if origin_top_left {
        y as i64
    } else {
        target_height as i64 - (y as i64 + height as i64)
    };
    MtlRect { x: x as i64, y: mtl_y, width: width as i64, height: height as i64 }
}

impl Backend {
    /// A backend for `platform`, outside any pass, at frame 0, with nothing
    /// bound.
    pub fn new(platform: MetalPlatform) -> (r: Backend)
        ensures
            r@.platform == platform,
            !r@.in_pass,
            r@.cur_width == 0 && r@.cur_height == 0,
            r@.frame_index == 0,
            r@.cur_pipeline.spec_id() == INVALID_ID,
            r@.cur_index_buffer.spec_id() == INVALID_ID,
    {
        Backend {
            platform,
            in_pass: false,
            cur_width: 0,
            cur_height: 0,
            frame_index: 0,
            cur_pipeline: Pipeline::default(),
            cur_index_buffer: Buffer::default(),
        }
    }

    /// Whether the backend supports feature `f`.
    pub fn query_feature(&self, f: Feature) -> (r: bool)
        ensures
            r == spec_mtl_feature(self@.platform, f),
    {
        match f {
            Feature::Instancing | Feature::TextureFloat | Feature::OriginTopLeft
            | Feature::MSAARenderTargets | Feature::PackedVertexFormat_10_2
            | Feature::MultipleRenderTarget | Feature::ImageType3D | Feature::ImageTypeArray => true,
            Feature::TextureCompressionDXT => self.platform == MetalPlatform::MacOS,
            Feature::TextureCompressionPVRTC | Feature::TextureCompressionETC2 => self.platform
                == MetalPlatform::IOS,
            _ => false,
        }
    }

    /// Forgets the cached bindings.
    pub fn reset_state_cache(&mut self)
        ensures
            final(self)@ == (BackendView {
                cur_pipeline: final(self)@.cur_pipeline,
                cur_index_buffer: final(self)@.cur_index_buffer,
                ..old(self)@
            }),
            final(self)@.cur_pipeline.spec_id() == INVALID_ID,
            final(self)@.cur_index_buffer.spec_id() == INVALID_ID,
    {
        self.cur_pipeline = Pipeline::default();
        self.cur_index_buffer = Buffer::default();
    }

    /// Starts a pass whose targets are `width` by `height`.
    pub fn begin_pass(&mut self, width: u32, height: u32)
        ensures
            final(self)@ == (BackendView {
                in_pass: true,
                cur_width: width,
                cur_height: height,
                ..old(self)@
            }),
    {
        self.in_pass = true;
        self.cur_width = width;
        self.cur_height = height;
    }

    /// The viewport rectangle to hand Metal, given from the top-left corner
    /// (`origin_top_left`) or from the bottom-left one. Outside a pass there
    /// is nothing to apply and the result is `None`.
    pub fn apply_viewport(&self, x: u32, y: u32, width: u32, height: u32, origin_top_left: bool) -> (r: Option<MtlRect>)
        ensures
            r == (if self@.in_pass {
                Some(spec_mtl_rect(x, y, width, height, origin_top_left, self@.cur_height))
            } else {
                None
            }),
    {
        if !self.in_pass {
            return None;
        }
        Some(mtl_rect(x, y, width, height, origin_top_left, self.cur_height))
    }

    /// The scissor rectangle to hand Metal, given from the top-left corner
    /// (`origin_top_left`) or from the bottom-left one. Outside a pass there
    /// is nothing to apply and the result is `None`.
    pub fn apply_scissor_rect(&self, x: u32, y: u32, width: u32, height: u32, origin_top_left: bool) -> (r: Option<MtlRect>)
        ensures
            r == (if self@.in_pass {
                Some(spec_mtl_rect(x, y, width, height, origin_top_left, self@.cur_height))
            } else {
                None
            }),
    {
        if !self.in_pass {
            return None;
        }
        Some(mtl_rect(x, y, width, height, origin_top_left, self.cur_height))
    }

    /// Whether a draw call of `num_elements` elements and `num_instances`
    /// instances is issued: only inside a pass, and only when it draws
    /// something. Otherwise it is dropped.
    pub fn draw(&self, base_element: u32, num_elements: u32, num_instances: u32) -> (r: bool)
        ensures
            r == (self@.in_pass && num_elements > 0 && num_instances > 0),
    {
        self.in_pass && num_elements > 0 && num_instances > 0
    }

    /// Ends the current pass, if any.
    pub fn end_pass(&mut self)
        ensures
            final(self)@ == (BackendView {
                in_pass: false,
                cur_width: 0,
                cur_height: 0,
                ..old(self)@
            }),
    {
        self.in_pass = false;
        self.cur_width = 0;
        self.cur_height = 0;
    }

    /// Finishes the frame and moves to the next one. Inside a pass a frame
    /// cannot end: nothing changes and the result is `false`.
    pub fn commit(&mut self) -> (r: bool)
        ensures
            r == !old(self)@.in_pass,
            r ==> final(self)@ == (BackendView {
                frame_index: if old(self)@.frame_index == u32::MAX {
                    0
                } else {
                    (old(self)@.frame_index + 1) as u32
                },
                ..old(self)@
            }),
            !r ==> final(self)@ == old(self)@,
    {
        if self.in_pass {
            return false;
        }
        self.frame_index = self.frame_index.wrapping_add(1);
        true
    }
}

} // verus!
