//! The scene model: geometry, water regeneration, resizing, the frame
//! plan and the presentation-error policy.

use water_scene::background::Background;
use water_scene::frame::IndexFormat;
use water_scene::frame::LoadOp;
use water_scene::frame::RenderTarget;
use water_scene::frame::SampleSource;
use water_scene::geometry::Vertex;
use water_scene::geometry::VertexFormat;
use water_scene::geometry::VertexStepMode;
use water_scene::geometry::make_quad_indices;
use water_scene::pipeline::BindingType;
use water_scene::pipeline::BlendMode;
use water_scene::pipeline::CullMode;
use water_scene::pipeline::FrontFace;
use water_scene::pipeline::PrimitiveTopology;
use water_scene::pipeline::ShaderEntry;
use water_scene::pipeline::make_texture_bind_group_layout;
use water_scene::scene::FrameRecovery;
use water_scene::scene::Scene;
use water_scene::scene::SurfaceError;
use water_scene::scene::handle_surface_error;
use water_scene::surface::AlphaMode;
use water_scene::surface::PresentMode;
use water_scene::surface::SurfaceConfig;
use water_scene::texture::DecodedImage;
use water_scene::texture::Texture;
use water_scene::texture::TextureFormat;
use water_scene::water::Water;

/// A one-pixel texture, enough to build a scene around.
fn tiny_texture() -> Texture {
    let img = DecodedImage { width: 1, height: 1, pixels: vec![0, 0, 0, 255] };
    Texture::from_image(img)
}

fn test_scene(width: u32, height: u32) -> Scene {
    Scene::new(TextureFormat::Bgra8UnormSrgb, width, height, tiny_texture())
}

#[test]
fn vertex_layout_is_tightly_packed() {
    let l = Vertex::desc();
    assert_eq!(l.array_stride, 24);
    assert_eq!(l.step_mode, VertexStepMode::Vertex);
    assert_eq!(l.attributes.len(), 3);
    assert_eq!(l.attributes[0].offset, 0);
    assert_eq!(l.attributes[0].shader_location, 0);
    assert_eq!(l.attributes[0].format, VertexFormat::Float32x3);
    assert_eq!(l.attributes[1].offset, 12);
    assert_eq!(l.attributes[1].shader_location, 1);
    assert_eq!(l.attributes[1].format, VertexFormat::Float32x2);
    assert_eq!(l.attributes[2].offset, 20);
    assert_eq!(l.attributes[2].shader_location, 2);
    assert_eq!(l.attributes[2].format, VertexFormat::Float32);
}

#[test]
fn quad_indices_are_two_triangles() {
    assert_eq!(make_quad_indices(), vec![2, 1, 0, 2, 3, 1]);
}

#[test]
fn bind_group_layout_binds_texture_then_sampler() {
    let layout = make_texture_bind_group_layout();
    assert_eq!(layout.len(), 2);
    assert_eq!(layout[0].binding, 0);
    assert_eq!(layout[0].ty, BindingType::FilterableTexture2d);
    assert!(layout[0].fragment_visible);
    assert_eq!(layout[1].binding, 1);
    assert_eq!(layout[1].ty, BindingType::FilteringSampler);
    assert!(layout[1].fragment_visible);
}

#[test]
fn background_holds_fixed_quad_and_pipeline() {
    let b = Background::new(tiny_texture(), TextureFormat::Bgra8UnormSrgb);
    assert_eq!(b.indices, vec![2, 1, 0, 2, 3, 1]);
    assert_eq!(b.vertex_array.len(), 4);
    let top_left = b.vertex_array[0];
    assert_eq!(
        top_left,
        Vertex { pos_x: -1000, pos_y: 1000, pos_z: 1000, tex_u: 0, tex_v: 0, seed_milli: 1400 }
    );
    let bottom_right = b.vertex_array[3];
    assert_eq!(
        bottom_right,
        Vertex { pos_x: 1000, pos_y: -5, pos_z: 1000, tex_u: 1000, tex_v: 1000, seed_milli: 0 }
    );
    assert_eq!(b.pipeline.vertex_entry, ShaderEntry::VsMain);
    assert_eq!(b.pipeline.fragment_entry, ShaderEntry::FsMain);
    assert_eq!(b.pipeline.target_format, TextureFormat::Bgra8UnormSrgb);
    assert_eq!(b.pipeline.blend, BlendMode::Replace);
    assert_eq!(b.pipeline.topology, PrimitiveTopology::TriangleList);
    assert_eq!(b.pipeline.front_face, FrontFace::Ccw);
    assert_eq!(b.pipeline.cull_mode, CullMode::Back);
    assert_eq!(b.texture.desc.width, 1);
    assert_eq!(b.texture.desc.height, 1);
}

#[test]
fn water_starts_at_rest_below_the_horizon() {
    let w = Water::new(TextureFormat::Bgra8UnormSrgb);
    assert_eq!(w.indices, vec![2, 1, 0, 2, 3, 1]);
    assert_eq!(w.vertex_array.len(), 4);
    assert_eq!(
        w.vertex_array[0],
        Vertex { pos_x: -1000, pos_y: -5, pos_z: 0, tex_u: 0, tex_v: 500, seed_milli: 0 }
    );
    assert_eq!(w.pipeline.fragment_entry, ShaderEntry::FsMainWater);
}

#[test]
fn regen_stamps_every_seed_with_elapsed_time() {
    let mut w = Water::new(TextureFormat::Bgra8UnormSrgb);
    w.regen(1234);
    assert_eq!(w.vertex_array.len(), 4);
    for v in &w.vertex_array {
        assert_eq!(v.seed_milli, 1234);
    }
}

#[test]
fn regen_resets_to_the_canonical_quad() {
    // Two waters with different histories agree entirely after
    // regenerating at the same elapsed time.
    let mut a = Water::new(TextureFormat::Bgra8UnormSrgb);
    let mut b = Water::new(TextureFormat::Bgra8UnormSrgb);
    a.regen(5);
    a.regen(77);
    a.regen(300);
    b.regen(9000);
    a.regen(1000);
    b.regen(1000);
    assert_eq!(a.vertex_array, b.vertex_array);
    // And the shape is the canonical water quad, top edge on the horizon.
    let expected = [
        Vertex { pos_x: -1000, pos_y: 0, pos_z: 0, tex_u: 0, tex_v: 500, seed_milli: 1000 },
        Vertex { pos_x: 1000, pos_y: 0, pos_z: 0, tex_u: 1000, tex_v: 500, seed_milli: 1000 },
        Vertex { pos_x: -1000, pos_y: -1000, pos_z: 0, tex_u: 0, tex_v: 0, seed_milli: 1000 },
        Vertex { pos_x: 1000, pos_y: -1000, pos_z: 0, tex_u: 1000, tex_v: 0, seed_milli: 1000 },
    ];
    assert_eq!(a.vertex_array, expected.to_vec());
}

#[test]
fn seeds_never_decrease_over_increasing_times() {
    let mut w = Water::new(TextureFormat::Bgra8UnormSrgb);
    let mut last: u64 = 0;
    for t in [0u64, 1, 1, 50, 1000, 86_400_000] {
        w.regen(t);
        assert!(w.vertex_array[0].seed_milli >= last);
        last = w.vertex_array[0].seed_milli;
    }
}

#[test]
fn surface_config_starts_fifo_render_attachment() {
    let c = SurfaceConfig::new(TextureFormat::Bgra8UnormSrgb, 640, 480);
    assert_eq!(c.width, 640);
    assert_eq!(c.height, 480);
    assert_eq!(c.format, TextureFormat::Bgra8UnormSrgb);
    assert_eq!(c.present_mode, PresentMode::Fifo);
    assert_eq!(c.alpha_mode, AlphaMode::Auto);
    assert!(c.usage.render_attachment);
    assert!(!c.usage.texture_binding);
    assert!(!c.usage.copy_src);
    assert!(!c.usage.copy_dst);
}

#[test]
fn degenerate_resize_changes_nothing() {
    let mut s = test_scene(800, 600);
    assert!(!s.resize(0, 600));
    assert_eq!((s.config.width, s.config.height), (800, 600));
    assert_eq!((s.width, s.height), (800, 600));
    assert!(!s.resize(800, 0));
    assert_eq!((s.config.width, s.config.height), (800, 600));
    assert!(!s.resize(0, 0));
    assert_eq!((s.config.width, s.config.height), (800, 600));
}

#[test]
fn valid_resize_updates_configuration_exactly() {
    let mut s = test_scene(800, 600);
    let format_before = s.config.format;
    assert!(s.resize(1024, 768));
    assert_eq!((s.config.width, s.config.height), (1024, 768));
    assert_eq!((s.width, s.height), (1024, 768));
    assert_eq!(s.config.format, format_before);
    assert_eq!(s.config.present_mode, PresentMode::Fifo);
}

#[test]
fn frame_plan_draws_background_twice_then_water() {
    let mut s = test_scene(800, 600);
    let p = s.render(250);
    assert_eq!(p.offscreen.width, 800);
    assert_eq!(p.offscreen.height, 600);
    assert_eq!(p.offscreen.format, TextureFormat::Bgra8UnormSrgb);
    assert!(p.offscreen.usage.render_attachment);
    assert!(p.offscreen.usage.texture_binding);
    assert!(p.offscreen.usage.copy_src);
    assert!(!p.offscreen.usage.copy_dst);
    assert_eq!(p.offscreen.mip_level_count, 1);
    assert_eq!(p.offscreen.sample_count, 1);
    assert_eq!(p.passes.len(), 3);
    assert_eq!(p.passes[0].target, RenderTarget::Offscreen);
    assert_eq!(p.passes[0].source, SampleSource::FloorTexture);
    assert_eq!(p.passes[0].fragment_entry, ShaderEntry::FsMain);
    assert_eq!(p.passes[1].target, RenderTarget::Surface);
    assert_eq!(p.passes[1].source, SampleSource::FloorTexture);
    assert_eq!(p.passes[2].target, RenderTarget::Surface);
    assert_eq!(p.passes[2].source, SampleSource::Offscreen);
    assert_eq!(p.passes[2].fragment_entry, ShaderEntry::FsMainWater);
    for pass in &p.passes {
        assert_eq!(pass.load_op, LoadOp::Load);
        assert!(pass.store);
        assert_eq!(pass.index_format, IndexFormat::Uint16);
        assert_eq!(pass.index_count, 6);
    }
    // The water quad now carries the frame's elapsed time.
    assert_eq!(s.water.vertex_array[0].seed_milli, 250);
}

#[test]
fn surface_errors_get_their_owed_recovery() {
    assert_eq!(handle_surface_error(SurfaceError::Lost), FrameRecovery::Reconfigure);
    assert_eq!(
        handle_surface_error(SurfaceError::OutOfMemory),
        FrameRecovery::Exit { code: 5 }
    );
    assert_eq!(handle_surface_error(SurfaceError::Timeout), FrameRecovery::SkipFrame);
    assert_eq!(handle_surface_error(SurfaceError::Outdated), FrameRecovery::SkipFrame);
}
