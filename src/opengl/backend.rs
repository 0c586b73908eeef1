//! The state of the OpenGL backend. The GL calls themselves are made by the
//! caller, which hands this state what GL reports and applies what it
//! decides.
use vstd::prelude::*;

use super::translations::{gl_invalid_value, gl_triangles};
use super::GlAttr;
use crate::desc::{DepthStencilState, MAX_VERTEX_ATTRIBUTES};
use crate::handle::{Pass, Pipeline, ResourceHandle, INVALID_ID};
use crate::types::{Feature, NUM_FEATURES};

verus! {

/// The GL dialect the backend runs on.
#[derive(Debug, Clone, Copy, PartialEq, Eq, Structural)]
pub enum GlFlavor {
    /// OpenGL ES 2 / WebGL.
    Gles2,
    /// OpenGL ES 3 / WebGL 2.
    Gles3,
    /// Desktop OpenGL 3.3 core profile.
    GlCore33,
}

/// A vertex attribute as last bound.
pub struct CacheAttribute {
    pub gl_attr: GlAttr,
    pub gl_vbuf: u32,
}

/// The GL state last applied, kept to skip redundant GL calls.
pub struct ContextCache {
    pub ds: DepthStencilState,
    pub polygon_offset_enabled: bool,
    pub attrs: Vec<CacheAttribute>,
    pub cur_gl_ib: u32,
    pub cur_primitive_type: u32,
    pub cur_index_type: u32,
    pub cur_pipeline_id: Pipeline,
}

impl ContextCache {
    /// Whether this is the cache of a freshly reset GL state.
    pub open spec fn is_default(&self) -> bool {
        &&& self.ds.is_default()
        &&& !self.polygon_offset_enabled
        &&& self.attrs@.len() == 0
        &&& self.cur_gl_ib == 0
        &&& self.cur_primitive_type == 0x0004
        &&& self.cur_index_type == 0
        &&& self.cur_pipeline_id.spec_id() == INVALID_ID
    }
}

impl Default for ContextCache {
    fn default() -> (r: Self)
        ensures
            r.is_default(),
    {
        ContextCache {
            ds: DepthStencilState::default(),
            polygon_offset_enabled: false,
            attrs: Vec::with_capacity(MAX_VERTEX_ATTRIBUTES),
            cur_gl_ib: 0,
            cur_primitive_type: gl_triangles(),
            cur_index_type: 0,
            cur_pipeline_id: Pipeline::default(),
        }
    }
}

/// What resetting the vertex array object asks of GL.
#[derive(Debug, Clone, Copy, PartialEq, Eq, Structural)]
pub enum VaoStep {
    /// GLES2 has no vertex array objects: nothing to do.
    Skip,
    /// Generate a vertex array object, hand it to `set_vao`, and bind it.
    Generate,
    /// Bind this vertex array object.
    Bind(u32),
}

/// A rectangle in GL's window coordinates, whose origin is bottom-left.
#[derive(Debug, Clone, Copy, PartialEq, Eq, Structural)]
pub struct GlRect {
    pub x: i64,
    pub y: i64,
    pub width: i64,
    pub height: i64,
}

/// The bottom-left based rectangle for a rectangle given from the top-left
/// (when `origin_top_left`) or from the bottom-left of a target `target_height`
/// pixels high.
pub open spec fn spec_gl_rect(x: u32, y: u32, width: u32, height: u32, origin_top_left: bool, target_height: u32) -> GlRect {
    GlRect {
        x: x as i64,
        y: if origin_top_left {
            (target_height - (y + height)) as i64
        } else {
            y as i64
        },
        width: width as i64,
        height: height as i64,
    }
}

/// The features that a GL dialect has whatever its extensions.
pub open spec fn spec_base_feature(flavor: GlFlavor, f: Feature) -> bool {
    ||| f == Feature::OriginBottomLeft
    ||| flavor != GlFlavor::Gles2 && (f == Feature::Instancing || f == Feature::TextureHalfFloat
        || f == Feature::TextureFloat || f == Feature::MSAARenderTargets || f
        == Feature::PackedVertexFormat_10_2 || f == Feature::MultipleRenderTarget || f
        == Feature::ImageType3D || f == Feature::ImageTypeArray)
}

/// Whether the GL extension named `ext` grants feature `f` on `flavor`.
pub open spec fn spec_ext_feature(flavor: GlFlavor, ext: Seq<char>, f: Feature) -> bool {
    if flavor == GlFlavor::GlCore33 {
        ext == "_texture_compression_s3tc"@ && f == Feature::TextureCompressionDXT
    } else {
        ||| flavor == GlFlavor::Gles2 && ext == "_instanced_arrays"@ && f == Feature::Instancing
        ||| flavor == GlFlavor::Gles2 && ext == "_texture_float"@ && f == Feature::TextureFloat
        ||| flavor == GlFlavor::Gles2 && ext == "_texture_half_float"@ && f
            == Feature::TextureHalfFloat
        ||| (ext == "_texture_compression_s3tc"@ || ext == "_compressed_texture_s3tc"@ || ext
            == "texture_compression_dxt1"@) && f == Feature::TextureCompressionDXT
        ||| (ext == "_texture_compression_pvrtc"@ || ext == "_compressed_texture_pvrtc"@) && f
            == Feature::TextureCompressionPVRTC
        ||| ext == "_compressed_texture_atc"@ && f == Feature::TextureCompressionATC
    }
}

/// The name of the extension for anisotropic texture filtering.
pub open spec fn spec_anisotropic_ext(ext: Seq<char>) -> bool {
    ext == "_texture_filter_anisotropic"@
}

/// The model of the backend state.
pub struct BackendView {
    pub in_pass: bool,
    pub force_gles2: bool,
    pub default_framebuffer: u32,
    pub cur_pass_width: u32,
    pub cur_pass_height: u32,
    pub cur_pass_id: Pass,
    /// One flag per feature, by `Feature::spec_index`.
    pub features: Seq<bool>,
    pub ext_anisotropic: bool,
    pub max_anisotropy: i32,
    pub vao: u32,
}

impl BackendView {
    /// Whether feature `f` is supported.
    pub open spec fn has_feature(self, f: Feature) -> bool {
        self.features[f.spec_index()]
    }
}

/// The state of the OpenGL backend.
pub struct Backend {
    in_pass: bool,
    force_gles2: bool,
    default_framebuffer: u32,
    cur_pass_width: u32,
    cur_pass_height: u32,
    cur_pass_id: Pass,
    cache: ContextCache,
    features: Vec<bool>,
    ext_anisotropic: bool,
    max_anisotropy: i32,
    vao: u32,
}

impl View for Backend {
    type V = BackendView;

    closed spec fn view(&self) -> BackendView {
        BackendView {
            in_pass: self.in_pass,
            force_gles2: self.force_gles2,
            default_framebuffer: self.default_framebuffer,
            cur_pass_width: self.cur_pass_width,
            cur_pass_height: self.cur_pass_height,
            cur_pass_id: self.cur_pass_id,
            features: self.features@,
            ext_anisotropic: self.ext_anisotropic,
            max_anisotropy: self.max_anisotropy,
            vao: self.vao,
        }
    }
}

/// Whether `a` and `b` are equal as strings.
fn same_name(a: &String, b: &str) -> (r: bool)
    ensures
        r == (a@ == b@),
{
    let owned = b.to_owned();
    *a == owned
}

/// The extension names told apart: their lengths, and a character where
/// two have the same length.
proof fn lemma_ext_names_distinct()
    ensures
        "_instanced_arrays"@.len() == 17,
        "_texture_float"@.len() == 14,
        "_texture_half_float"@.len() == 19,
        "_compressed_texture_atc"@.len() == 23,
        "_compressed_texture_s3tc"@.len() == 24,
        "texture_compression_dxt1"@.len() == 24,
        "_texture_compression_s3tc"@.len() == 25,
        "_compressed_texture_pvrtc"@.len() == 25,
        "_texture_compression_pvrtc"@.len() == 26,
        "_compressed_texture_s3tc"@ != "texture_compression_dxt1"@,
        "_texture_compression_s3tc"@ != "_compressed_texture_pvrtc"@,
{
    reveal_strlit("_texture_compression_s3tc");
    reveal_strlit("_instanced_arrays");
    reveal_strlit("_texture_float");
    reveal_strlit("_texture_half_float");
    reveal_strlit("_compressed_texture_s3tc");
    reveal_strlit("texture_compression_dxt1");
    reveal_strlit("_texture_compression_pvrtc");
    reveal_strlit("_compressed_texture_pvrtc");
    reveal_strlit("_compressed_texture_atc");
    assert("_compressed_texture_s3tc"@[0] != "texture_compression_dxt1"@[0]);
    assert("_texture_compression_s3tc"@[1] != "_compressed_texture_pvrtc"@[1]);
}

/// The feature that the GL extension `ext` grants on `flavor`, if any.
fn ext_feature(flavor: GlFlavor, ext: &String) -> (r: Option<Feature>)
    ensures
        match r {
            Some(g) => forall|f: Feature| spec_ext_feature(flavor, ext@, f) <==> f == g,
            None => forall|f: Feature| !spec_ext_feature(flavor, ext@, f),
        },
{
    proof {
        lemma_ext_names_distinct();
    }
    let gles2 = flavor == GlFlavor::Gles2;
    if flavor == GlFlavor::GlCore33 {
        if same_name(ext, "_texture_compression_s3tc") {
            Some(Feature::TextureCompressionDXT)
        } else {
            None
        }
    } else if gles2 && same_name(ext, "_instanced_arrays") {
        Some(Feature::Instancing)
    } else if gles2 && same_name(ext, "_texture_float") {
        Some(Feature::TextureFloat)
    } else if gles2 && same_name(ext, "_texture_half_float") {
        Some(Feature::TextureHalfFloat)
    } else if same_name(ext, "_texture_compression_s3tc") || same_name(
        ext,
        "_compressed_texture_s3tc",
    ) || same_name(ext, "texture_compression_dxt1") {
        Some(Feature::TextureCompressionDXT)
    } else if same_name(ext, "_texture_compression_pvrtc") || same_name(
        ext,
        "_compressed_texture_pvrtc",
    ) {
        Some(Feature::TextureCompressionPVRTC)
    } else if same_name(ext, "_compressed_texture_atc") {
        Some(Feature::TextureCompressionATC)
    } else {
        None
    }
}

impl Backend {
    /// Whether the feature table has one entry per feature.
    pub open spec fn wf(&self) -> bool {
        self@.features.len() == NUM_FEATURES
    }

    /// The GL state cache.
    pub closed spec fn spec_cache(&self) -> &ContextCache {
        &self.cache
    }

    /// A backend outside any pass, with no feature known yet, a reset state
    /// cache, and no vertex array object. `default_framebuffer` is the
    /// framebuffer GL had bound at start.
    pub fn new(force_gles2: bool, default_framebuffer: u32) -> (r: Backend)
        ensures
            r.wf(),
            !r@.in_pass,
            r@.force_gles2 == force_gles2,
            r@.default_framebuffer == default_framebuffer,
            r@.cur_pass_width == 0 && r@.cur_pass_height == 0,
            r@.cur_pass_id.spec_id() == INVALID_ID,
            forall|f: Feature| !r@.has_feature(f),
            !r@.ext_anisotropic,
            r@.max_anisotropy == 0,
            r@.vao == 0x0501,
            r.spec_cache().is_default(),
    {
        let features: Vec<bool> = vec![false; NUM_FEATURES];
        Backend {
            in_pass: false,
            force_gles2,
            default_framebuffer,
            cur_pass_width: 0,
            cur_pass_height: 0,
            cur_pass_id: Pass::default(),
            cache: ContextCache::default(),
            features,
            ext_anisotropic: false,
            max_anisotropy: 0,
            vao: gl_invalid_value(),
        }
    }

    /// Marks feature `f` as supported.
    fn grant(&mut self, f: Feature)
        requires
            old(self).wf(),
        ensures
            final(self).wf(),
            final(self)@ == (BackendView {
                features: old(self)@.features.update(f.spec_index(), true),
                ..old(self)@
            }),
            final(self).spec_cache() == old(self).spec_cache(),
    {
        self.features[f.index()] = true;
    }

    /// Records the features that the GL dialect `flavor` and its extensions
    /// `extensions` (as GL lists them) provide. Returns whether the
    /// anisotropic filtering extension is there, in which case the caller
    /// asks GL for its maximum and hands it to `set_max_anisotropy`.
    pub fn init_gl_features(&mut self, flavor: GlFlavor, extensions: &Vec<String>) -> (r: bool)
        requires
            old(self).wf(),
        ensures
            final(self).wf(),
            forall|f: Feature|
                #![trigger final(self)@.has_feature(f)]
                final(self)@.has_feature(f) == (old(self)@.has_feature(f) || spec_base_feature(
                    flavor,
                    f,
                ) || exists|k: int|
                    0 <= k < extensions@.len() && spec_ext_feature(
                        flavor,
                        #[trigger] extensions@[k]@,
                        f,
                    )),
            final(self)@.ext_anisotropic == (old(self)@.ext_anisotropic || exists|k: int|
                0 <= k < extensions@.len() && spec_anisotropic_ext(#[trigger] extensions@[k]@)),
            final(self)@.max_anisotropy == 1,
            r == final(self)@.ext_anisotropic,
            final(self)@ == (BackendView {
                features: final(self)@.features,
                ext_anisotropic: final(self)@.ext_anisotropic,
                max_anisotropy: 1,
                ..old(self)@
            }),
            final(self).spec_cache() == old(self).spec_cache(),
    {
        self.grant(Feature::OriginBottomLeft);
        if flavor != GlFlavor::Gles2 {
            self.grant(Feature::Instancing);
            self.grant(Feature::TextureHalfFloat);
            self.grant(Feature::TextureFloat);
            self.grant(Feature::MSAARenderTargets);
            self.grant(Feature::PackedVertexFormat_10_2);
            self.grant(Feature::MultipleRenderTarget);
            self.grant(Feature::ImageType3D);
            self.grant(Feature::ImageTypeArray);
        }
        assert forall|f: Feature| #[trigger] self@.has_feature(f) == (old(self)@.has_feature(f)
            || spec_base_feature(flavor, f)) by {}
        let ghost base = self@;
        let mut i: usize = 0;
        while i < extensions.len()
            invariant
                self.wf(),
                i <= extensions@.len(),
                self.spec_cache() == old(self).spec_cache(),
                forall|f: Feature|
                    #![trigger self@.has_feature(f)]
                    self@.has_feature(f) == (base.has_feature(f) || exists|k: int|
                        0 <= k < i && spec_ext_feature(flavor, #[trigger] extensions@[k]@, f)),
                self@.ext_anisotropic == (base.ext_anisotropic || exists|k: int|
                    0 <= k < i && spec_anisotropic_ext(#[trigger] extensions@[k]@)),
                self@ == (BackendView {
                    features: self@.features,
                    ext_anisotropic: self@.ext_anisotropic,
                    ..base
                }),
            decreases extensions@.len() - i,
        {
            let ext = &extensions[i];
            let ghost before = self@;
            match ext_feature(flavor, ext) {
                Some(f) => self.grant(f),
                None => {},
            }
            if same_name(ext, "_texture_filter_anisotropic") {
                self.ext_anisotropic = true;
            }
            proof {
                assert forall|f: Feature| #[trigger] self@.has_feature(f) == (base.has_feature(f)
                    || exists|k: int|
                    0 <= k < i + 1 && spec_ext_feature(flavor, #[trigger] extensions@[k]@, f)) by {
                    assert(self@.has_feature(f) == (before.has_feature(f) || spec_ext_feature(
                        flavor,
                        extensions@[i as int]@,
                        f,
                    )));
                    if spec_ext_feature(flavor, extensions@[i as int]@, f) {
                        assert(0 <= i < i + 1);
                    }
                    if exists|k: int|
                        0 <= k < i + 1 && spec_ext_feature(flavor, #[trigger] extensions@[k]@, f) {
                        let k = choose|k: int|
                            0 <= k < i + 1 && spec_ext_feature(flavor, #[trigger] extensions@[k]@, f);
                        if k < i {
                            assert(before.has_feature(f));
                        }
                    }
                }
                if exists|k: int| 0 <= k < i + 1 && spec_anisotropic_ext(#[trigger] extensions@[k]@) {
                    let k = choose|k: int|
                        0 <= k < i + 1 && spec_anisotropic_ext(#[trigger] extensions@[k]@);
                    if k < i {
                        assert(before.ext_anisotropic);
                    }
                }
            }
            i += 1;
        }
        let ghost after_loop = self@;
        self.max_anisotropy = 1;
        assert forall|f: Feature| #[trigger] self@.has_feature(f) == (old(self)@.has_feature(f)
            || spec_base_feature(flavor, f) || exists|k: int|
            0 <= k < extensions@.len() && spec_ext_feature(flavor, #[trigger] extensions@[k]@, f)) by {
            assert(self@.has_feature(f) == after_loop.has_feature(f));
            assert(after_loop.has_feature(f) == (base.has_feature(f) || exists|k: int|
                0 <= k < extensions@.len() && spec_ext_feature(flavor, #[trigger] extensions@[k]@, f)));
        }
        self.ext_anisotropic
    }
    /// Records the largest anisotropy GL supports; ignored unless the
    /// anisotropic filtering extension is there.
    pub fn set_max_anisotropy(&mut self, value: i32)
        requires
            old(self).wf(),
        ensures
            final(self).wf(),
            final(self)@ == (BackendView {
                max_anisotropy: if old(self)@.ext_anisotropic {
                    value
                } else {
                    old(self)@.max_anisotropy
                },
                ..old(self)@
            }),
            final(self).spec_cache() == old(self).spec_cache(),
    {
        if self.ext_anisotropic {
            self.max_anisotropy = value;
        }
    }

    /// Whether the backend supports feature `f`.
    pub fn query_feature(&self, f: Feature) -> (r: bool)
        requires
            self.wf(),
        ensures
            r == self@.has_feature(f),
    {
        self.features[f.index()]
    }

    /// Forgets the cached GL state, after which the caller resets GL's own
    /// state to its defaults.
    pub fn reset_state_cache(&mut self)
        ensures
            final(self)@ == old(self)@,
            final(self).spec_cache().is_default(),
    {
        self.cache = ContextCache::default();
    }

    /// What resetting the vertex array object asks of GL: nothing in GLES2
    /// fallback mode, else binding the vertex array object, which is first
    /// generated if there is none yet.
    pub fn reset_vao(&self) -> (r: VaoStep)
        ensures
            r == (if self@.force_gles2 {
                VaoStep::Skip
            } else if self@.vao == 0x0501 {
                VaoStep::Generate
            } else {
                VaoStep::Bind(self@.vao)
            }),
    {
        if self.force_gles2 {
            VaoStep::Skip
        } else if self.vao == gl_invalid_value() {
            VaoStep::Generate
        } else {
            VaoStep::Bind(self.vao)
        }
    }

    /// Records the vertex array object that GL generated.
    pub fn set_vao(&mut self, vao: u32)
        ensures
            final(self)@ == (BackendView { vao, ..old(self)@ }),
            final(self).spec_cache() == old(self).spec_cache(),
    {
        self.vao = vao;
    }

    /// Starts rendering to `pass`, whose targets are `width` by `height`.
    pub fn begin_pass(&mut self, pass: Pass, width: u32, height: u32)
        ensures
            final(self)@ == (BackendView {
                in_pass: true,
                cur_pass_id: pass,
                cur_pass_width: width,
                cur_pass_height: height,
                ..old(self)@
            }),
            final(self).spec_cache() == old(self).spec_cache(),
    {
        self.in_pass = true;
        self.cur_pass_id = pass;
        self.cur_pass_width = width;
        self.cur_pass_height = height;
    }

    /// The viewport rectangle to hand GL, given from the top-left corner
    /// (`origin_top_left`) or from the bottom-left one. Outside a pass there
    /// is nothing to apply and the result is `None`.
    pub fn apply_viewport(&self, x: u32, y: u32, width: u32, height: u32, origin_top_left: bool) -> (r: Option<GlRect>)
        ensures
            r == (if self@.in_pass {
                Some(spec_gl_rect(x, y, width, height, origin_top_left, self@.cur_pass_height))
            } else {
                None
            }),
    {
        if !self.in_pass {
            return None;
        }
        Some(gl_rect(x, y, width, height, origin_top_left, self.cur_pass_height))
    }

    /// The scissor rectangle to hand GL, given from the top-left corner
    /// (`origin_top_left`) or from the bottom-left one. Outside a pass there
    /// is nothing to apply and the result is `None`.
    pub fn apply_scissor_rect(&self, x: u32, y: u32, width: u32, height: u32, origin_top_left: bool) -> (r: Option<GlRect>)
        ensures
            r == (if self@.in_pass {
                Some(spec_gl_rect(x, y, width, height, origin_top_left, self@.cur_pass_height))
            } else {
                None
            }),
    {
        if !self.in_pass {
            return None;
        }
        Some(gl_rect(x, y, width, height, origin_top_left, self.cur_pass_height))
    }

    /// Whether a draw call of `num_elements` elements and `num_instances`
    /// instances is issued: only inside a pass, and only when it draws
    /// something. Otherwise it is dropped.
    pub fn draw(&self, base_element: u32, num_elements: u32, num_instances: u32) -> (r: bool)
        ensures
            r == (self@.in_pass && num_elements > 0 && num_instances > 0),
    {
        self.in_pass && num_elements > 0 && num_instances > 0
    }

    /// Ends the current pass, if any.
    pub fn end_pass(&mut self)
        ensures
            final(self)@ == (BackendView {
                in_pass: false,
                cur_pass_id: final(self)@.cur_pass_id,
                cur_pass_width: 0,
                cur_pass_height: 0,
                ..old(self)@
            }),
            final(self)@.cur_pass_id.spec_id() == INVALID_ID,
            final(self).spec_cache() == old(self).spec_cache(),
    {
        self.in_pass = false;
        self.cur_pass_id = Pass::default();
        self.cur_pass_width = 0;
        self.cur_pass_height = 0;
    }

    /// Finishes the frame: forgets the bound index buffer, which the caller
    /// then unbinds. Inside a pass a frame cannot end: nothing changes and
    /// the result is `false`.
    pub fn commit(&mut self) -> (r: bool)
        ensures
            r == !old(self)@.in_pass,
            final(self)@ == old(self)@,
            r ==> *final(self).spec_cache() == (ContextCache { cur_gl_ib: 0, ..*old(self).spec_cache() }),
            !r ==> final(self).spec_cache() == old(self).spec_cache(),
    {
        if self.in_pass {
            return false;
        }
        self.cache.cur_gl_ib = 0;
        true
    }
}

/// The bottom-left based rectangle; see `spec_gl_rect`.
fn gl_rect(x: u32, y: u32, width: u32, height: u32, origin_top_left: bool, target_height: u32) -> (r: GlRect)
    ensures
        r == spec_gl_rect(x, y, width, height, origin_top_left, target_height),
{
    let gl_y = if origin_top_left {
        target_height as i64 - (y as i64 + height as i64)
    } else {
        y as i64
    };
    GlRect { x: x as i64, y: gl_y, width: width as i64, height: height as i64 }
}

} // verus!
