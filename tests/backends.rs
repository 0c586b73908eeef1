use grafiska::metal::backend::MtlRect;
use grafiska::metal::MetalPlatform;
use grafiska::opengl::backend::{GlFlavor, GlRect, VaoStep};
use grafiska::{metal, opengl, Feature, Pass, ResourceHandle};

fn names(list: &[&str]) -> Vec<String> {
    list.iter().map(|s| s.to_string()).collect()
}

#[test]
fn gl_new_backend_has_no_features() {
    let b = opengl::Backend::new(false, 7);
    assert!(!b.query_feature(Feature::OriginBottomLeft));
    assert!(!b.query_feature(Feature::Instancing));
}

#[test]
fn gl_core_features() {
    let mut b = opengl::Backend::new(false, 0);
    let aniso = b.init_gl_features(
        GlFlavor::GlCore33,
        &names(&["_texture_compression_s3tc", "_texture_filter_anisotropic", "_instanced_arrays"]),
    );
    assert!(aniso);
    assert!(b.query_feature(Feature::OriginBottomLeft));
    assert!(b.query_feature(Feature::Instancing));
    assert!(b.query_feature(Feature::ImageTypeArray));
    assert!(b.query_feature(Feature::TextureCompressionDXT));
    assert!(!b.query_feature(Feature::TextureCompressionPVRTC));
    assert!(!b.query_feature(Feature::OriginTopLeft));
}

#[test]
fn gles2_features_come_from_extensions() {
    let mut b = opengl::Backend::new(true, 0);
    let aniso = b.init_gl_features(GlFlavor::Gles2, &names(&["_texture_float", "_compressed_texture_pvrtc"]));
    assert!(!aniso);
    assert!(b.query_feature(Feature::OriginBottomLeft));
    assert!(b.query_feature(Feature::TextureFloat));
    assert!(b.query_feature(Feature::TextureCompressionPVRTC));
    assert!(!b.query_feature(Feature::Instancing));
    assert!(!b.query_feature(Feature::MultipleRenderTarget));
}

#[test]
fn gles3_ignores_gles2_only_extensions() {
    let mut b = opengl::Backend::new(false, 0);
    b.init_gl_features(GlFlavor::Gles3, &names(&["_compressed_texture_atc", "GL_EXT_texture_float"]));
    assert!(b.query_feature(Feature::TextureCompressionATC));
    assert!(b.query_feature(Feature::TextureFloat));
    assert!(!b.query_feature(Feature::TextureCompressionDXT));
}

#[test]
fn gl_vao_steps() {
    let mut b = opengl::Backend::new(false, 0);
    assert_eq!(b.reset_vao(), VaoStep::Generate);
    b.set_vao(3);
    assert_eq!(b.reset_vao(), VaoStep::Bind(3));
    b.set_vao(0x0501);
    assert_eq!(b.reset_vao(), VaoStep::Generate);
    b.set_vao(0x0502);
    assert_eq!(b.reset_vao(), VaoStep::Bind(0x0502));
    let g = opengl::Backend::new(true, 0);
    assert_eq!(g.reset_vao(), VaoStep::Skip);
}

#[test]
fn gl_viewport_flips_top_left_origin() {
    let mut b = opengl::Backend::new(false, 0);
    assert_eq!(b.apply_viewport(0, 0, 10, 10, true), None);
    b.begin_pass(Pass::with(0x0001_0001), 640, 480);
    assert_eq!(
        b.apply_viewport(10, 20, 100, 50, true),
        Some(GlRect { x: 10, y: 410, width: 100, height: 50 })
    );
    assert_eq!(
        b.apply_scissor_rect(10, 20, 100, 50, false),
        Some(GlRect { x: 10, y: 20, width: 100, height: 50 })
    );
    assert_eq!(
        b.apply_scissor_rect(0, 470, 5, 20, true),
        Some(GlRect { x: 0, y: -10, width: 5, height: 20 })
    );
}

#[test]
fn gl_draw_pass_and_commit() {
    let mut b = opengl::Backend::new(false, 0);
    assert!(!b.draw(0, 3, 1));
    b.begin_pass(Pass::default(), 8, 8);
    assert!(b.draw(0, 3, 1));
    assert!(!b.draw(0, 0, 1));
    assert!(!b.draw(0, 3, 0));
    assert!(!b.commit());
    b.end_pass();
    assert!(!b.draw(0, 3, 1));
    assert!(b.commit());
}

#[test]
fn gl_max_anisotropy_needs_extension() {
    let mut b = opengl::Backend::new(false, 0);
    b.init_gl_features(GlFlavor::Gles3, &names(&[]));
    b.set_max_anisotropy(16);
    let mut c = opengl::Backend::new(false, 0);
    assert!(c.init_gl_features(GlFlavor::Gles3, &names(&["_texture_filter_anisotropic"])));
    c.set_max_anisotropy(16);
    b.reset_state_cache();
}

#[test]
fn metal_features_depend_on_platform() {
    let mac = metal::Backend::new(MetalPlatform::MacOS);
    let ios = metal::Backend::new(MetalPlatform::IOS);
    assert!(mac.query_feature(Feature::Instancing));
    assert!(mac.query_feature(Feature::OriginTopLeft));
    assert!(!mac.query_feature(Feature::OriginBottomLeft));
    assert!(mac.query_feature(Feature::TextureCompressionDXT));
    assert!(!ios.query_feature(Feature::TextureCompressionDXT));
    assert!(ios.query_feature(Feature::TextureCompressionPVRTC));
    assert!(ios.query_feature(Feature::TextureCompressionETC2));
    assert!(!mac.query_feature(Feature::TextureCompressionETC2));
    assert!(!mac.query_feature(Feature::TextureHalfFloat));
}

#[test]
fn metal_viewport_flips_bottom_left_origin() {
    let mut b = metal::Backend::new(MetalPlatform::MacOS);
    assert_eq!(b.apply_viewport(1, 2, 3, 4, false), None);
    b.begin_pass(640, 480);
    assert_eq!(
        b.apply_viewport(10, 20, 100, 50, false),
        Some(MtlRect { x: 10, y: 410, width: 100, height: 50 })
    );
    assert_eq!(
        b.apply_scissor_rect(10, 20, 100, 50, true),
        Some(MtlRect { x: 10, y: 20, width: 100, height: 50 })
    );
}

#[test]
fn metal_commit_outside_pass_only() {
    let mut b = metal::Backend::new(MetalPlatform::IOS);
    b.begin_pass(4, 4);
    assert!(b.draw(0, 6, 2));
    assert!(!b.commit());
    b.end_pass();
    assert!(!b.draw(0, 6, 2));
    assert!(b.commit());
    b.reset_state_cache();
}
