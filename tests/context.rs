use grafiska::opengl::backend::{GlFlavor, VaoStep};
use grafiska::opengl::{BufferResource, ImageResource, PassResource};
use grafiska::{
    decode, Config, Context, Feature, ImageType, ResourceHandle, UniformType, VertexFormat,
};

#[test]
fn default_config_sizes() {
    let c = Config::default();
    assert_eq!(c.buffer_pool_size, 128);
    assert_eq!(c.image_pool_size, 128);
    assert_eq!(c.shader_pool_size, 32);
    assert_eq!(c.pipeline_pool_size, 64);
    assert_eq!(c.pass_pool_size, 16);
    assert!(!c.gl_force_gles2);
    assert_eq!(c.mtl_global_uniform_buffer_size, 4 * 1024 * 1024);
    assert_eq!(c.mtl_sampler_cache_size, 64);
}

#[test]
fn descriptor_helpers() {
    let mut ctx = Context::new(Config::default(), 0);
    let a = ctx.named_attr("position", 12, VertexFormat::Float3);
    assert_eq!((a.name, a.sem_name, a.sem_index, a.offset), ("position", "", 0, 12));
    let s = ctx.sem_attr("TEXCOORD", 1, 24, VertexFormat::Float2);
    assert_eq!((s.name, s.sem_name, s.sem_index, s.offset), ("", "TEXCOORD", 1, 24));
    assert_eq!(s.format, VertexFormat::Float2);
    let u = ctx.named_uniform("mvp", UniformType::Mat4, 1);
    assert_eq!((u.name, u.uniform_type, u.array_count), ("mvp", UniformType::Mat4, 1));
    let i = ctx.named_image("tex", ImageType::Cube);
    assert_eq!((i.name, i.image_type), ("tex", ImageType::Cube));
}

#[test]
fn try_new_checks_every_pool_size() {
    assert!(Context::try_new(Config::default(), 0).is_some());
    let mut c = Config::default();
    c.pass_pool_size = 0;
    assert!(Context::try_new(c, 0).is_none());
    let mut c = Config::default();
    c.image_pool_size = 65536;
    assert!(Context::try_new(c, 0).is_none());
}

#[test]
fn alloc_init_destroy_buffer() {
    let mut ctx = Context::new(Config::default(), 0);
    assert!(!ctx.query_feature(Feature::Instancing));
    let b = ctx.alloc_buffer();
    assert_eq!(decode(b.id()), (1, 1));
    let mut res = BufferResource::default();
    res.size = 64;
    assert!(ctx.init_buffer(b, res, true));
    assert!(!ctx.init_buffer(b, BufferResource::default(), false));
    let released = ctx.destroy_buffer(b).unwrap();
    assert_eq!(released.size, 64);
    assert!(ctx.destroy_buffer(b).is_none());
}

#[test]
fn pool_exhaustion_gives_invalid_handle() {
    let mut cfg = Config::default();
    cfg.pass_pool_size = 2;
    let mut ctx = Context::new(cfg, 0);
    assert_ne!(ctx.alloc_pass().id(), 0);
    assert_ne!(ctx.alloc_pass().id(), 0);
    assert_eq!(ctx.alloc_pass().id(), 0);
    assert_ne!(ctx.alloc_image().id(), 0);
}

#[test]
fn failed_init_is_still_destroyed() {
    let mut ctx = Context::new(Config::default(), 0);
    let img = ctx.alloc_image();
    let mut res = ImageResource::default();
    res.width = 3;
    assert!(ctx.init_image(img, res, false));
    assert_eq!(ctx.destroy_image(img).map(|r| r.width), Some(3));
    let pass = ctx.alloc_pass();
    assert!(ctx.destroy_pass(pass).is_none());
    assert!(!ctx.init_pass(pass, PassResource::default(), true));
}

#[test]
fn frames_and_passes() {
    let mut ctx = Context::new(Config::default(), 0);
    assert!(!ctx.draw(0, 3, 1));
    ctx.begin_default_pass(800, 600);
    assert!(ctx.draw(0, 3, 1));
    assert!(ctx.apply_viewport(0, 0, 800, 600, true).is_some());
    assert!(ctx.apply_scissor_rect(0, 0, 10, 10, false).is_some());
    assert!(!ctx.commit());
    ctx.end_pass();
    assert!(ctx.commit());
    ctx.reset_state_cache();
}

#[test]
fn context_backend_gets_features_and_vao() {
    let mut ctx = Context::new(Config::default(), 0);
    assert!(!ctx.query_feature(Feature::Instancing));
    let exts = vec!["_texture_filter_anisotropic".to_string()];
    assert!(ctx.init_gl_features(GlFlavor::Gles3, &exts));
    ctx.set_max_anisotropy(8);
    assert!(ctx.query_feature(Feature::Instancing));
    assert!(ctx.query_feature(Feature::OriginBottomLeft));
    assert!(!ctx.query_feature(Feature::TextureCompressionDXT));
    assert_eq!(ctx.reset_vao(), VaoStep::Generate);
    ctx.set_vao(5);
    assert_eq!(ctx.reset_vao(), VaoStep::Bind(5));
    let b = ctx.alloc_buffer();
    ctx.begin_default_pass(4, 4);
    ctx.end_pass();
    assert!(ctx.commit());
    assert!(ctx.destroy_buffer(b).is_none());
    assert!(ctx.destroy_buffer(b).is_none());
}

#[test]
fn owned_gl_objects() {
    let mut b = BufferResource::default();
    b.gl_buf = vec![3, 4];
    assert_eq!(b.owned_gl_buffers(), vec![3, 4]);
    b.ext_buffers = true;
    assert!(b.owned_gl_buffers().is_empty());
    let mut i = ImageResource::default();
    assert_eq!(i.owned_gl_textures(), vec![0, 0]);
    i.gl_tex = vec![7, 8];
    assert_eq!(i.owned_gl_textures(), vec![7, 8]);
    i.ext_textures = true;
    assert!(i.owned_gl_textures().is_empty());
}
