//! A rendering context: one resource pool per resource kind, and the state
//! of the OpenGL backend.
use vstd::prelude::*;

use crate::desc::{Config, ShaderImageDesc, ShaderUniformDesc, VertexAttrDesc};
use crate::handle::{Buffer, Image, Pass, Pipeline, ResourceHandle, Shader, INVALID_ID, MAX_POOL_SIZE};
use crate::opengl::backend::{
    spec_anisotropic_ext, spec_base_feature, spec_ext_feature, Backend, BackendView, ContextCache,
    GlFlavor,
    GlRect, VaoStep,
};
use crate::opengl::{BufferResource, ImageResource, PassResource, PipelineResource, ShaderResource};
use crate::pool::{Pool, PoolView, ResourceState};
use crate::types::{Feature, ImageType, UniformType, VertexFormat};

verus! {

/// Whether every pool size of `desc` is a valid pool capacity.
pub open spec fn spec_valid_config(desc: Config) -> bool {
    &&& 0 < desc.buffer_pool_size < MAX_POOL_SIZE
    &&& 0 < desc.image_pool_size < MAX_POOL_SIZE
    &&& 0 < desc.shader_pool_size < MAX_POOL_SIZE
    &&& 0 < desc.pipeline_pool_size < MAX_POOL_SIZE
    &&& 0 < desc.pass_pool_size < MAX_POOL_SIZE
}

/// The handle that allocating from `p` hands out: the next id, or the
/// invalid id when the pool is full.
pub open spec fn spec_alloc_id<T>(p: PoolView<T>) -> u32 {
    if p.free.len() > 0 {
        p.next_id()
    } else {
        INVALID_ID
    }
}

/// The pool after an allocation attempt.
pub open spec fn spec_after_alloc<T>(p: PoolView<T>) -> PoolView<T> {
    if p.free.len() > 0 {
        p.after_alloc()
    } else {
        p
    }
}

/// The pool after a destruction attempt.
pub open spec fn spec_after_destroy<T>(p: PoolView<T>, id: u32) -> PoolView<T> {
    if p.is_live(id) {
        p.after_destroy(id)
    } else {
        p
    }
}

/// The pool after the caller reported how initializing `id` went.
pub open spec fn spec_after_init<T>(p: PoolView<T>, id: u32, resource: T, ok: bool) -> PoolView<T> {
    if p.state_of(id) == Some(ResourceState::Alloc) {
        p.after_init(
            id,
            if ok {
                ResourceState::Valid
            } else {
                ResourceState::Failed
            },
            resource,
        )
    } else {
        p
    }
}

/// A rendering context on the OpenGL backend.
pub struct Context {
    buffer_pool: Pool<Buffer, BufferResource>,
    image_pool: Pool<Image, ImageResource>,
    shader_pool: Pool<Shader, ShaderResource>,
    pipeline_pool: Pool<Pipeline, PipelineResource>,
    pass_pool: Pool<Pass, PassResource>,
    frame_index: u32,
    backend: Backend,
}

impl Context {
    /// The pool of buffers.
    pub closed spec fn buffer_pool(&self) -> PoolView<BufferResource> {
        self.buffer_pool@
    }

    /// The pool of images.
    pub closed spec fn image_pool(&self) -> PoolView<ImageResource> {
        self.image_pool@
    }

    /// The pool of shaders.
    pub closed spec fn shader_pool(&self) -> PoolView<ShaderResource> {
        self.shader_pool@
    }

    /// The pool of pipelines.
    pub closed spec fn pipeline_pool(&self) -> PoolView<PipelineResource> {
        self.pipeline_pool@
    }

    /// The pool of passes.
    pub closed spec fn pass_pool(&self) -> PoolView<PassResource> {
        self.pass_pool@
    }

    /// The backend state.
    pub closed spec fn backend(&self) -> &Backend {
        &self.backend
    }

    /// The number of the current frame, counted from 1, modulo 2^32.
    pub closed spec fn frame_index(&self) -> u32 {
        self.frame_index
    }

    /// The invariant: every pool and the backend are well formed.
    pub open spec fn wf(&self) -> bool {
        &&& self.buffer_pool().wf()
        &&& self.image_pool().wf()
        &&& self.shader_pool().wf()
        &&& self.pipeline_pool().wf()
        &&& self.pass_pool().wf()
        &&& self.backend().wf()
    }

    /// Whether this is a fresh context made from `desc`: each pool is empty
    /// with the capacity `desc` gives it, the frame index is 1, and the
    /// backend is outside any pass, knows no feature and has a reset state
    /// cache, so no pipeline is current.
    pub open spec fn is_new(&self, desc: Config, default_framebuffer: u32) -> bool {
        &&& self.wf()
        &&& self.buffer_pool() == PoolView::<BufferResource>::empty(desc.buffer_pool_size as nat)
        &&& self.image_pool() == PoolView::<ImageResource>::empty(desc.image_pool_size as nat)
        &&& self.shader_pool() == PoolView::<ShaderResource>::empty(desc.shader_pool_size as nat)
        &&& self.pipeline_pool() == PoolView::<PipelineResource>::empty(
            desc.pipeline_pool_size as nat,
        )
        &&& self.pass_pool() == PoolView::<PassResource>::empty(desc.pass_pool_size as nat)
        &&& self.frame_index() == 1
        &&& !self.backend()@.in_pass
        &&& self.backend()@.force_gles2 == desc.gl_force_gles2
        &&& self.backend()@.default_framebuffer == default_framebuffer
        &&& forall|f: Feature| !self.backend()@.has_feature(f)
        &&& self.backend().spec_cache().is_default()
    }

    /// Creates a context whose pools have the capacities of `desc`.
    /// `default_framebuffer` is the framebuffer GL had bound at start.
    pub fn new(desc: Config, default_framebuffer: u32) -> (r: Context)
        requires
            spec_valid_config(desc),
        ensures
            r.is_new(desc, default_framebuffer),
    {
        Context {
            buffer_pool: Pool::new(desc.buffer_pool_size),
            image_pool: Pool::new(desc.image_pool_size),
            shader_pool: Pool::new(desc.shader_pool_size),
            pipeline_pool: Pool::new(desc.pipeline_pool_size),
            pass_pool: Pool::new(desc.pass_pool_size),
            frame_index: 1,
            backend: Backend::new(desc.gl_force_gles2, default_framebuffer),
        }
    }

    /// Creates a context, or `None` when a pool size of `desc` is 0 or not
    /// below `MAX_POOL_SIZE`.
    pub fn try_new(desc: Config, default_framebuffer: u32) -> (r: Option<Context>)
        ensures
            r is Some <==> spec_valid_config(desc),
            r matches Some(c) ==> c.is_new(desc, default_framebuffer),
    {
        if desc.buffer_pool_size == 0 || desc.buffer_pool_size >= MAX_POOL_SIZE
            || desc.image_pool_size == 0 || desc.image_pool_size >= MAX_POOL_SIZE
            || desc.shader_pool_size == 0 || desc.shader_pool_size >= MAX_POOL_SIZE
            || desc.pipeline_pool_size == 0 || desc.pipeline_pool_size >= MAX_POOL_SIZE
            || desc.pass_pool_size == 0 || desc.pass_pool_size >= MAX_POOL_SIZE {
            None
        } else {
            Some(Context::new(desc, default_framebuffer))
        }
    }

    /// Whether the backend supports feature `f`.
    pub fn query_feature(&self, f: Feature) -> (r: bool)
        requires
            self.wf(),
        ensures
            r == self.backend()@.has_feature(f),
    {
        self.backend.query_feature(f)
    }

    /// Records the features of the GL dialect `flavor` and its
    /// `extensions`; see `Backend::init_gl_features`. Returns whether the
    /// caller is to ask GL for the largest anisotropy.
    pub fn init_gl_features(&mut self, flavor: GlFlavor, extensions: &Vec<String>) -> (r: bool)
        requires
            old(self).wf(),
        ensures
            final(self).wf(),
            forall|f: Feature|
                #![trigger final(self).backend()@.has_feature(f)]
                final(self).backend()@.has_feature(f) == (old(self).backend()@.has_feature(f)
                    || spec_base_feature(flavor, f) || exists|k: int|
                    0 <= k < extensions@.len() && spec_ext_feature(
                        flavor,
                        #[trigger] extensions@[k]@,
                        f,
                    )),
            final(self).backend()@.ext_anisotropic == (old(self).backend()@.ext_anisotropic
                || exists|k: int|
                0 <= k < extensions@.len() && spec_anisotropic_ext(#[trigger] extensions@[k]@)),
            r == final(self).backend()@.ext_anisotropic,
            final(self).backend()@.max_anisotropy == 1,
            final(self).backend()@.in_pass == old(self).backend()@.in_pass,
            final(self).backend()@.vao == old(self).backend()@.vao,
            final(self).backend().spec_cache() == old(self).backend().spec_cache(),
            final(self).buffer_pool() == old(self).buffer_pool(),
            final(self).image_pool() == old(self).image_pool(),
            final(self).shader_pool() == old(self).shader_pool(),
            final(self).pipeline_pool() == old(self).pipeline_pool(),
            final(self).pass_pool() == old(self).pass_pool(),
            final(self).frame_index() == old(self).frame_index(),
    {
        self.backend.init_gl_features(flavor, extensions)
    }

    /// Records the largest anisotropy GL supports; ignored unless the
    /// anisotropic filtering extension is there.
    pub fn set_max_anisotropy(&mut self, value: i32)
        requires
            old(self).wf(),
        ensures
            final(self).wf(),
            final(self).backend()@ == (BackendView {
                max_anisotropy: if old(self).backend()@.ext_anisotropic {
                    value
                } else {
                    old(self).backend()@.max_anisotropy
                },
                ..old(self).backend()@
            }),
            final(self).backend().spec_cache() == old(self).backend().spec_cache(),
            final(self).buffer_pool() == old(self).buffer_pool(),
            final(self).image_pool() == old(self).image_pool(),
            final(self).shader_pool() == old(self).shader_pool(),
            final(self).pipeline_pool() == old(self).pipeline_pool(),
            final(self).pass_pool() == old(self).pass_pool(),
            final(self).frame_index() == old(self).frame_index(),
    {
        self.backend.set_max_anisotropy(value);
    }

    /// What resetting the vertex array object asks of GL; see
    /// `Backend::reset_vao`.
    pub fn reset_vao(&self) -> (r: VaoStep)
        ensures
            r == (if self.backend()@.force_gles2 {
                VaoStep::Skip
            } else if self.backend()@.vao == 0x0501 {
                VaoStep::Generate
            } else {
                VaoStep::Bind(self.backend()@.vao)
            }),
    {
        self.backend.reset_vao()
    }

    /// Records the vertex array object that GL generated.
    pub fn set_vao(&mut self, vao: u32)
        requires
            old(self).wf(),
        ensures
            final(self).wf(),
            final(self).backend()@ == (BackendView { vao, ..old(self).backend()@ }),
            final(self).backend().spec_cache() == old(self).backend().spec_cache(),
            final(self).buffer_pool() == old(self).buffer_pool(),
            final(self).image_pool() == old(self).image_pool(),
            final(self).shader_pool() == old(self).shader_pool(),
            final(self).pipeline_pool() == old(self).pipeline_pool(),
            final(self).pass_pool() == old(self).pass_pool(),
            final(self).frame_index() == old(self).frame_index(),
    {
        self.backend.set_vao(vao);
    }

    /// Forgets the backend's cached GL state; call it after using GL
    /// directly.
    pub fn reset_state_cache(&mut self)
        requires
            old(self).wf(),
        ensures
            final(self).wf(),
            final(self).backend()@ == old(self).backend()@,
            final(self).backend().spec_cache().is_default(),
            final(self).buffer_pool() == old(self).buffer_pool(),
            final(self).image_pool() == old(self).image_pool(),
            final(self).shader_pool() == old(self).shader_pool(),
            final(self).pipeline_pool() == old(self).pipeline_pool(),
            final(self).pass_pool() == old(self).pass_pool(),
            final(self).frame_index() == old(self).frame_index(),
    {
        self.backend.reset_state_cache();
    }

    /// Allocates a buffer handle without initializing its resource; the
    /// invalid handle when the pool is full.
    pub fn alloc_buffer(&mut self) -> (r: Buffer)
        requires
            old(self).wf(),
        ensures
            final(self).wf(),
            r.spec_id() == spec_alloc_id(old(self).buffer_pool()),
            final(self).buffer_pool() == spec_after_alloc(old(self).buffer_pool()),
            final(self).image_pool() == old(self).image_pool(),
            final(self).shader_pool() == old(self).shader_pool(),
            final(self).pipeline_pool() == old(self).pipeline_pool(),
            final(self).pass_pool() == old(self).pass_pool(),
            final(self).backend() == old(self).backend(),
            final(self).frame_index() == old(self).frame_index(),
    {
        match self.buffer_pool.allocate() {
            Some(h) => h,
            None => Buffer::default(),
        }
    }

    /// Records how initializing the allocated buffer `buf_id` went: it becomes
    /// `Valid` with payload `resource` when `ok`, else `Failed`. Returns
    /// whether the handle named an allocated, not yet initialized buffer;
    /// otherwise nothing changes.
    pub fn init_buffer(&mut self, buf_id: Buffer, resource: BufferResource, ok: bool) -> (r: bool)
        requires
            old(self).wf(),
        ensures
            final(self).wf(),
            r == (old(self).buffer_pool().state_of(buf_id.spec_id()) == Some(ResourceState::Alloc)),
            final(self).buffer_pool() == spec_after_init(old(self).buffer_pool(), buf_id.spec_id(), resource, ok),
            final(self).image_pool() == old(self).image_pool(),
            final(self).shader_pool() == old(self).shader_pool(),
            final(self).pipeline_pool() == old(self).pipeline_pool(),
            final(self).pass_pool() == old(self).pass_pool(),
            final(self).backend() == old(self).backend(),
            final(self).frame_index() == old(self).frame_index(),
    {
        if ok {
            self.buffer_pool.set_valid(&buf_id, resource)
        } else {
            self.buffer_pool.set_failed(&buf_id, resource)
        }
    }

    /// Destroys the buffer `buf` and returns its payload, for the caller to
    /// release its GL objects. A stale handle changes nothing.
    pub fn destroy_buffer(&mut self, buf: Buffer) -> (r: Option<BufferResource>)
        requires
            old(self).wf(),
        ensures
            final(self).wf(),
            final(self).buffer_pool() == spec_after_destroy(old(self).buffer_pool(), buf.spec_id()),
            r == old(self).buffer_pool().resource_of(buf.spec_id()),
            final(self).image_pool() == old(self).image_pool(),
            final(self).shader_pool() == old(self).shader_pool(),
            final(self).pipeline_pool() == old(self).pipeline_pool(),
            final(self).pass_pool() == old(self).pass_pool(),
            final(self).backend() == old(self).backend(),
            final(self).frame_index() == old(self).frame_index(),
    {
        match self.buffer_pool.destroy(&buf) {
            Some(payload) => payload,
            None => None,
        }
    }

    /// Allocates an image handle without initializing its resource; the
    /// invalid handle when the pool is full.
    pub fn alloc_image(&mut self) -> (r: Image)
        requires
            old(self).wf(),
        ensures
            final(self).wf(),
            r.spec_id() == spec_alloc_id(old(self).image_pool()),
            final(self).image_pool() == spec_after_alloc(old(self).image_pool()),
            final(self).buffer_pool() == old(self).buffer_pool(),
            final(self).shader_pool() == old(self).shader_pool(),
            final(self).pipeline_pool() == old(self).pipeline_pool(),
            final(self).pass_pool() == old(self).pass_pool(),
            final(self).backend() == old(self).backend(),
            final(self).frame_index() == old(self).frame_index(),
    {
        match self.image_pool.allocate() {
            Some(h) => h,
            None => Image::default(),
        }
    }

    /// Records how initializing the allocated image `img_id` went: it becomes
    /// `Valid` with payload `resource` when `ok`, else `Failed`. Returns
    /// whether the handle named an allocated, not yet initialized image;
    /// otherwise nothing changes.
    pub fn init_image(&mut self, img_id: Image, resource: ImageResource, ok: bool) -> (r: bool)
        requires
            old(self).wf(),
        ensures
            final(self).wf(),
            r == (old(self).image_pool().state_of(img_id.spec_id()) == Some(ResourceState::Alloc)),
            final(self).image_pool() == spec_after_init(old(self).image_pool(), img_id.spec_id(), resource, ok),
            final(self).buffer_pool() == old(self).buffer_pool(),
            final(self).shader_pool() == old(self).shader_pool(),
            final(self).pipeline_pool() == old(self).pipeline_pool(),
            final(self).pass_pool() == old(self).pass_pool(),
            final(self).backend() == old(self).backend(),
            final(self).frame_index() == old(self).frame_index(),
    {
        if ok {
            self.image_pool.set_valid(&img_id, resource)
        } else {
            self.image_pool.set_failed(&img_id, resource)
        }
    }

    /// Destroys the image `img` and returns its payload, for the caller to
    /// release its GL objects. A stale handle changes nothing.
    pub fn destroy_image(&mut self, img: Image) -> (r: Option<ImageResource>)
        requires
            old(self).wf(),
        ensures
            final(self).wf(),
            final(self).image_pool() == spec_after_destroy(old(self).image_pool(), img.spec_id()),
            r == old(self).image_pool().resource_of(img.spec_id()),
            final(self).buffer_pool() == old(self).buffer_pool(),
            final(self).shader_pool() == old(self).shader_pool(),
            final(self).pipeline_pool() == old(self).pipeline_pool(),
            final(self).pass_pool() == old(self).pass_pool(),
            final(self).backend() == old(self).backend(),
            final(self).frame_index() == old(self).frame_index(),
    {
        match self.image_pool.destroy(&img) {
            Some(payload) => payload,
            None => None,
        }
    }

    /// Allocates a shader handle without initializing its resource; the
    /// invalid handle when the pool is full.
    pub fn alloc_shader(&mut self) -> (r: Shader)
        requires
            old(self).wf(),
        ensures
            final(self).wf(),
            r.spec_id() == spec_alloc_id(old(self).shader_pool()),
            final(self).shader_pool() == spec_after_alloc(old(self).shader_pool()),
            final(self).buffer_pool() == old(self).buffer_pool(),
            final(self).image_pool() == old(self).image_pool(),
            final(self).pipeline_pool() == old(self).pipeline_pool(),
            final(self).pass_pool() == old(self).pass_pool(),
            final(self).backend() == old(self).backend(),
            final(self).frame_index() == old(self).frame_index(),
    {
        match self.shader_pool.allocate() {
            Some(h) => h,
            None => Shader::default(),
        }
    }

    /// Records how initializing the allocated shader `shd_id` went: it becomes
    /// `Valid` with payload `resource` when `ok`, else `Failed`. Returns
    /// whether the handle named an allocated, not yet initialized shader;
    /// otherwise nothing changes.
    pub fn init_shader(&mut self, shd_id: Shader, resource: ShaderResource, ok: bool) -> (r: bool)
        requires
            old(self).wf(),
        ensures
            final(self).wf(),
            r == (old(self).shader_pool().state_of(shd_id.spec_id()) == Some(ResourceState::Alloc)),
            final(self).shader_pool() == spec_after_init(old(self).shader_pool(), shd_id.spec_id(), resource, ok),
            final(self).buffer_pool() == old(self).buffer_pool(),
            final(self).image_pool() == old(self).image_pool(),
            final(self).pipeline_pool() == old(self).pipeline_pool(),
            final(self).pass_pool() == old(self).pass_pool(),
            final(self).backend() == old(self).backend(),
            final(self).frame_index() == old(self).frame_index(),
    {
        if ok {
            self.shader_pool.set_valid(&shd_id, resource)
        } else {
            self.shader_pool.set_failed(&shd_id, resource)
        }
    }

    /// Destroys the shader `shd` and returns its payload, for the caller to
    /// release its GL objects. A stale handle changes nothing.
    pub fn destroy_shader(&mut self, shd: Shader) -> (r: Option<ShaderResource>)
        requires
            old(self).wf(),
        ensures
            final(self).wf(),
            final(self).shader_pool() == spec_after_destroy(old(self).shader_pool(), shd.spec_id()),
            r == old(self).shader_pool().resource_of(shd.spec_id()),
            final(self).buffer_pool() == old(self).buffer_pool(),
            final(self).image_pool() == old(self).image_pool(),
            final(self).pipeline_pool() == old(self).pipeline_pool(),
            final(self).pass_pool() == old(self).pass_pool(),
            final(self).backend() == old(self).backend(),
            final(self).frame_index() == old(self).frame_index(),
    {
        match self.shader_pool.destroy(&shd) {
            Some(payload) => payload,
            None => None,
        }
    }

    /// Allocates a pipeline handle without initializing its resource; the
    /// invalid handle when the pool is full.
    pub fn alloc_pipeline(&mut self) -> (r: Pipeline)
        requires
            old(self).wf(),
        ensures
            final(self).wf(),
            r.spec_id() == spec_alloc_id(old(self).pipeline_pool()),
            final(self).pipeline_pool() == spec_after_alloc(old(self).pipeline_pool()),
            final(self).buffer_pool() == old(self).buffer_pool(),
            final(self).image_pool() == old(self).image_pool(),
            final(self).shader_pool() == old(self).shader_pool(),
            final(self).pass_pool() == old(self).pass_pool(),
            final(self).backend() == old(self).backend(),
            final(self).frame_index() == old(self).frame_index(),
    {
        match self.pipeline_pool.allocate() {
            Some(h) => h,
            None => Pipeline::default(),
        }
    }

    /// Records how initializing the allocated pipeline `pip_id` went: it becomes
    /// `Valid` with payload `resource` when `ok`, else `Failed`. Returns
    /// whether the handle named an allocated, not yet initialized pipeline;
    /// otherwise nothing changes.
    pub fn init_pipeline(&mut self, pip_id: Pipeline, resource: PipelineResource, ok: bool) -> (r: bool)
        requires
            old(self).wf(),
        ensures
            final(self).wf(),
            r == (old(self).pipeline_pool().state_of(pip_id.spec_id()) == Some(ResourceState::Alloc)),
            final(self).pipeline_pool() == spec_after_init(old(self).pipeline_pool(), pip_id.spec_id(), resource, ok),
            final(self).buffer_pool() == old(self).buffer_pool(),
            final(self).image_pool() == old(self).image_pool(),
            final(self).shader_pool() == old(self).shader_pool(),
            final(self).pass_pool() == old(self).pass_pool(),
            final(self).backend() == old(self).backend(),
            final(self).frame_index() == old(self).frame_index(),
    {
        if ok {
            self.pipeline_pool.set_valid(&pip_id, resource)
        } else {
            self.pipeline_pool.set_failed(&pip_id, resource)
        }
    }

    /// Destroys the pipeline `pip` and returns its payload, for the caller to
    /// release its GL objects. A stale handle changes nothing.
    pub fn destroy_pipeline(&mut self, pip: Pipeline) -> (r: Option<PipelineResource>)
        requires
            old(self).wf(),
        ensures
            final(self).wf(),
            final(self).pipeline_pool() == spec_after_destroy(old(self).pipeline_pool(), pip.spec_id()),
            r == old(self).pipeline_pool().resource_of(pip.spec_id()),
            final(self).buffer_pool() == old(self).buffer_pool(),
            final(self).image_pool() == old(self).image_pool(),
            final(self).shader_pool() == old(self).shader_pool(),
            final(self).pass_pool() == old(self).pass_pool(),
            final(self).backend() == old(self).backend(),
            final(self).frame_index() == old(self).frame_index(),
    {
        match self.pipeline_pool.destroy(&pip) {
            Some(payload) => payload,
            None => None,
        }
    }

    /// Allocates a pass handle without initializing its resource; the
    /// invalid handle when the pool is full.
    pub fn alloc_pass(&mut self) -> (r: Pass)
        requires
            old(self).wf(),
        ensures
            final(self).wf(),
            r.spec_id() == spec_alloc_id(old(self).pass_pool()),
            final(self).pass_pool() == spec_after_alloc(old(self).pass_pool()),
            final(self).buffer_pool() == old(self).buffer_pool(),
            final(self).image_pool() == old(self).image_pool(),
            final(self).shader_pool() == old(self).shader_pool(),
            final(self).pipeline_pool() == old(self).pipeline_pool(),
            final(self).backend() == old(self).backend(),
            final(self).frame_index() == old(self).frame_index(),
    {
        match self.pass_pool.allocate() {
            Some(h) => h,
            None => Pass::default(),
        }
    }

    /// Records how initializing the allocated pass `pass_id` went: it becomes
    /// `Valid` with payload `resource` when `ok`, else `Failed`. Returns
    /// whether the handle named an allocated, not yet initialized pass;
    /// otherwise nothing changes.
    pub fn init_pass(&mut self, pass_id: Pass, resource: PassResource, ok: bool) -> (r: bool)
        requires
            old(self).wf(),
        ensures
            final(self).wf(),
            r == (old(self).pass_pool().state_of(pass_id.spec_id()) == Some(ResourceState::Alloc)),
            final(self).pass_pool() == spec_after_init(old(self).pass_pool(), pass_id.spec_id(), resource, ok),
            final(self).buffer_pool() == old(self).buffer_pool(),
            final(self).image_pool() == old(self).image_pool(),
            final(self).shader_pool() == old(self).shader_pool(),
            final(self).pipeline_pool() == old(self).pipeline_pool(),
            final(self).backend() == old(self).backend(),
            final(self).frame_index() == old(self).frame_index(),
    {
        if ok {
            self.pass_pool.set_valid(&pass_id, resource)
        } else {
            self.pass_pool.set_failed(&pass_id, resource)
        }
    }

    /// Destroys the pass `pass` and returns its payload, for the caller to
    /// release its GL objects. A stale handle changes nothing.
    pub fn destroy_pass(&mut self, pass: Pass) -> (r: Option<PassResource>)
        requires
            old(self).wf(),
        ensures
            final(self).wf(),
            final(self).pass_pool() == spec_after_destroy(old(self).pass_pool(), pass.spec_id()),
            r == old(self).pass_pool().resource_of(pass.spec_id()),
            final(self).buffer_pool() == old(self).buffer_pool(),
            final(self).image_pool() == old(self).image_pool(),
            final(self).shader_pool() == old(self).shader_pool(),
            final(self).pipeline_pool() == old(self).pipeline_pool(),
            final(self).backend() == old(self).backend(),
            final(self).frame_index() == old(self).frame_index(),
    {
        match self.pass_pool.destroy(&pass) {
            Some(payload) => payload,
            None => None,
        }
    }

    /// Starts rendering to the default framebuffer, `width` by `height`.
    pub fn begin_default_pass(&mut self, width: u32, height: u32)
        requires
            old(self).wf(),
        ensures
            final(self).buffer_pool() == old(self).buffer_pool(),
            final(self).image_pool() == old(self).image_pool(),
            final(self).shader_pool() == old(self).shader_pool(),
            final(self).pipeline_pool() == old(self).pipeline_pool(),
            final(self).pass_pool() == old(self).pass_pool(),
            final(self).wf(),
            final(self).backend()@.in_pass,
            final(self).backend()@.cur_pass_width == width,
            final(self).backend()@.cur_pass_height == height,
            final(self).backend()@.cur_pass_id.spec_id() == INVALID_ID,
            final(self).backend()@.features == old(self).backend()@.features,
            final(self).backend()@.vao == old(self).backend()@.vao,
            final(self).frame_index() == old(self).frame_index(),
    {
        self.backend.begin_pass(Pass::default(), width, height);
    }

    /// The viewport rectangle to hand GL; `None` outside a pass.
    pub fn apply_viewport(&self, x: u32, y: u32, width: u32, height: u32, origin_top_left: bool) -> (r: Option<GlRect>)
        ensures
            r == (if self.backend()@.in_pass {
                Some(crate::opengl::backend::spec_gl_rect(x, y, width, height, origin_top_left, self.backend()@.cur_pass_height))
            } else {
                None
            }),
    {
        self.backend.apply_viewport(x, y, width, height, origin_top_left)
    }

    /// The scissor rectangle to hand GL; `None` outside a pass.
    pub fn apply_scissor_rect(&self, x: u32, y: u32, width: u32, height: u32, origin_top_left: bool) -> (r: Option<GlRect>)
        ensures
            r == (if self.backend()@.in_pass {
                Some(crate::opengl::backend::spec_gl_rect(x, y, width, height, origin_top_left, self.backend()@.cur_pass_height))
            } else {
                None
            }),
    {
        self.backend.apply_scissor_rect(x, y, width, height, origin_top_left)
    }

    /// Whether a draw call is issued; outside a pass, or when it would draw
    /// nothing, it is dropped.
    pub fn draw(&self, base_element: u32, num_elements: u32, num_instances: u32) -> (r: bool)
        ensures
            r == (self.backend()@.in_pass && num_elements > 0 && num_instances > 0),
    {
        self.backend.draw(base_element, num_elements, num_instances)
    }

    /// Ends the current pass.
    pub fn end_pass(&mut self)
        requires
            old(self).wf(),
        ensures
            final(self).buffer_pool() == old(self).buffer_pool(),
            final(self).image_pool() == old(self).image_pool(),
            final(self).shader_pool() == old(self).shader_pool(),
            final(self).pipeline_pool() == old(self).pipeline_pool(),
            final(self).pass_pool() == old(self).pass_pool(),
            final(self).wf(),
            !final(self).backend()@.in_pass,
            final(self).backend()@.features == old(self).backend()@.features,
            final(self).backend()@.vao == old(self).backend()@.vao,
            final(self).frame_index() == old(self).frame_index(),
    {
        self.backend.end_pass();
    }

    /// Finishes the frame and moves to the next one. Inside a pass a frame
    /// cannot end: the result is `false` and the frame stays.
    pub fn commit(&mut self) -> (r: bool)
        requires
            old(self).wf(),
        ensures
            final(self).buffer_pool() == old(self).buffer_pool(),
            final(self).image_pool() == old(self).image_pool(),
            final(self).shader_pool() == old(self).shader_pool(),
            final(self).pipeline_pool() == old(self).pipeline_pool(),
            final(self).pass_pool() == old(self).pass_pool(),
            final(self).wf(),
            r == !old(self).backend()@.in_pass,
            final(self).backend()@ == old(self).backend()@,
            r ==> *final(self).backend().spec_cache() == (ContextCache {
                cur_gl_ib: 0,
                ..*old(self).backend().spec_cache()
            }),
            !r ==> final(self).backend().spec_cache() == old(self).backend().spec_cache(),
            final(self).frame_index() == if r && old(self).frame_index() < u32::MAX {
                (old(self).frame_index() + 1) as u32
            } else if r {
                0
            } else {
                old(self).frame_index()
            },
    {
        let r = self.backend.commit();
        if r {
            self.frame_index = self.frame_index.wrapping_add(1);
        }
        r
    }
    /// A vertex attribute found by its name.
    pub fn named_attr(&mut self, name: &'static str, offset: u32, format: VertexFormat) -> (r: VertexAttrDesc)
        ensures
            r == (VertexAttrDesc { name, sem_name: "", sem_index: 0, offset, format }),
            *final(self) == *old(self),
    {
        VertexAttrDesc { name, sem_name: "", sem_index: 0, offset, format }
    }

    /// A vertex attribute found by its semantic name and index.
    pub fn sem_attr(&mut self, sem_name: &'static str, sem_index: u32, offset: u32, format: VertexFormat) -> (r: VertexAttrDesc)
        ensures
            r == (VertexAttrDesc { name: "", sem_name, sem_index, offset, format }),
            *final(self) == *old(self),
    {
        VertexAttrDesc { name: "", sem_name, sem_index, offset, format }
    }

    /// A uniform block member.
    pub fn named_uniform(&mut self, name: &'static str, uniform_type: UniformType, array_count: u32) -> (r: ShaderUniformDesc)
        ensures
            r == (ShaderUniformDesc { name, uniform_type, array_count }),
            *final(self) == *old(self),
    {
        ShaderUniformDesc { name, uniform_type, array_count }
    }

    /// An image used by a shader stage.
    pub fn named_image(&mut self, name: &'static str, image_type: ImageType) -> (r: ShaderImageDesc)
        ensures
            r == (ShaderImageDesc { name, image_type }),
            *final(self) == *old(self),
    {
        ShaderImageDesc { name, image_type }
    }
}

} // verus!
