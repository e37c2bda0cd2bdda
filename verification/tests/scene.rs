use halloween::page::{App, Edition};
use halloween::scene::{
    gl_size, quad_vertices, ImageSize, MissingUniform, TextureParameter, TextureValue, Viewport,
    COMPONENTS_PER_VERTEX,
};

fn desktop() -> App {
    App { width: 1280, height: 720, is_mobile: false }
}

fn phone() -> App {
    App { width: 390, height: 844, is_mobile: true }
}

#[test]
fn render_loop_starts_on_first_render_only() {
    assert_eq!(desktop().rendered(true), Some((1280, 720)));
    assert_eq!(desktop().rendered(false), None);
}

#[test]
fn quad_is_two_triangles_over_clip_space() {
    assert_eq!(quad_vertices(), vec![-1, -1, 1, -1, -1, 1, -1, 1, 1, -1, 1, 1]);
}

#[test]
fn draw_call_uses_the_whole_buffer() {
    for app in [desktop(), phone()] {
        for edition in [Edition::Year2025, Edition::Year2026] {
            let f = app.frame(edition);
            assert_eq!(f.first_vertex, 0);
            assert_eq!((f.vertex_count * COMPONENTS_PER_VERTEX) as usize, quad_vertices().len());
        }
    }
}

#[test]
fn texture_parameters_clamp_and_filter_linearly() {
    assert_eq!(
        App::create_texture(),
        vec![
            (TextureParameter::WrapS, TextureValue::ClampToEdge),
            (TextureParameter::WrapT, TextureValue::ClampToEdge),
            (TextureParameter::MinFilter, TextureValue::Linear),
            (TextureParameter::MagFilter, TextureValue::Linear),
        ]
    );
}

#[test]
fn sizes_convert_like_as_casts() {
    assert_eq!(gl_size(0), 0);
    assert_eq!(gl_size(1920), 1920);
    assert_eq!(gl_size(i32::MAX as u32), i32::MAX);
    assert_eq!(gl_size(u32::MAX), -1);
    assert_eq!(gl_size(1u32 << 31), i32::MIN);
    assert_eq!(App::init_texture(800, 600), (800, 600));
}

#[test]
fn setup_2025_desktop_and_mobile() {
    let d = desktop().render_gl(Edition::Year2025);
    assert_eq!(d.image_source, "images/circle.png");
    assert_eq!(d.render_targets, 2);
    assert_eq!((d.target_width, d.target_height), (1280, 720));
    let m = phone().render_gl(Edition::Year2025);
    assert_eq!(m.image_source, "images/sprites.png");
    assert_eq!((m.target_width, m.target_height), (390, 844));
}

#[test]
fn setup_2026_uses_one_sheet_and_no_targets() {
    for app in [desktop(), phone()] {
        let s = app.render_gl(Edition::Year2026);
        assert_eq!(s.image_source, "images/skeletons.png");
        assert_eq!(s.render_targets, 0);
    }
}

#[test]
fn frame_2025_phone() {
    let f = phone().frame(Edition::Year2025);
    assert_eq!(f.viewport, Viewport { x: 0, y: 0, width: 390, height: 844 });
    assert_eq!((f.resolution_width, f.resolution_height), (390, 844));
    assert_eq!(f.image_size, ImageSize::Fixed { width: 200, height: 102 });
    assert_eq!(f.mobile_flag, 1);
    assert_eq!(f.image_unit, 1);
    assert_eq!(f.sampler_unit, 0);
    assert_eq!(f.vertex_count, 6);
    assert_eq!(f.missing_uniform, MissingUniform::Fail);
}

#[test]
fn frame_2026_phone_scales_sprites_to_half_surface() {
    let f = phone().frame(Edition::Year2026);
    assert_eq!(f.image_size, ImageSize::HalfSurface);
    assert_eq!(f.mobile_flag, 1);
    assert_eq!(f.missing_uniform, MissingUniform::Skip);
}

#[test]
fn desktop_frames_use_the_large_sheet() {
    for edition in [Edition::Year2025, Edition::Year2026] {
        let f = desktop().frame(edition);
        assert_eq!(f.image_size, ImageSize::Fixed { width: 2000, height: 1024 });
        assert_eq!(f.mobile_flag, 0);
        assert_eq!(f.viewport, Viewport { x: 0, y: 0, width: 1280, height: 720 });
    }
}

#[test]
fn viewport_matches_surface_and_targets() {
    let app = App { width: 3000, height: 2000, is_mobile: false };
    let (w, h) = app.rendered(true).unwrap();
    let f = app.frame(Edition::Year2025);
    let s = app.render_gl(Edition::Year2025);
    assert_eq!((f.viewport.width, f.viewport.height), (gl_size(w), gl_size(h)));
    assert_eq!((s.target_width, s.target_height), (f.viewport.width, f.viewport.height));
}
