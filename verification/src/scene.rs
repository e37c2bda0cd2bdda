//! What the renderer sets up once and draws on every animation frame, as plain
//! values that the application turns into WebGL calls.

use vstd::prelude::*;

use crate::page::{App, Edition};

verus! {

/// Coordinates per vertex in the vertex buffer (x and y).
pub const COMPONENTS_PER_VERTEX: i32 = 2;

/// The full-screen quad in clip space as x,y pairs: the triangles
/// (-1,-1) (1,-1) (-1,1) and (-1,1) (1,-1) (1,1).
pub open spec fn spec_quad() -> Seq<i8> {
    seq![-1i8, -1i8, 1i8, -1i8, -1i8, 1i8, -1i8, 1i8, 1i8, -1i8, 1i8, 1i8]
}

/// The `k`-th vertex of the quad.
pub open spec fn quad_vertex(k: int) -> (i8, i8) {
    (spec_quad()[2 * k], spec_quad()[2 * k + 1])
}

/// The coordinates of the vertex buffer.
pub fn quad_vertices() -> (v: Vec<i8>)
    ensures
        v@ == spec_quad(),
{
    let v: Vec<i8> = vec![-1, -1, 1, -1, -1, 1, -1, 1, 1, -1, 1, 1];
    assert(v@ =~= spec_quad());
    v
}

/// A texture parameter that the renderer sets.
#[derive(Debug, Clone, Copy, PartialEq, Eq, Structural)]
pub enum TextureParameter {
    WrapS,
    WrapT,
    MinFilter,
    MagFilter,
}

/// A value given to a texture parameter.
#[derive(Debug, Clone, Copy, PartialEq, Eq, Structural)]
pub enum TextureValue {
    ClampToEdge,
    Linear,
}

pub open spec fn spec_texture_parameters() -> Seq<(TextureParameter, TextureValue)> {
    seq![
        (TextureParameter::WrapS, TextureValue::ClampToEdge),
        (TextureParameter::WrapT, TextureValue::ClampToEdge),
        (TextureParameter::MinFilter, TextureValue::Linear),
        (TextureParameter::MagFilter, TextureValue::Linear),
    ]
}

/// `u32` to the `i32` that WebGL takes, as Rust's `as` converts it.
pub fn gl_size(n: u32) -> (r: i32)
    ensures
        r == n as i32,
        n <= i32::MAX ==> r == n,
{
    n as i32
}

/// The rectangle of the drawing surface that a frame draws into.
#[derive(Debug, Clone, Copy, PartialEq, Eq, Structural)]
pub struct Viewport {
    pub x: i32,
    pub y: i32,
    pub width: i32,
    pub height: i32,
}

/// The size of the sprite image that the shader is told about.
#[derive(Debug, Clone, Copy, PartialEq, Eq, Structural)]
pub enum ImageSize {
    /// A fixed size in pixels.
    Fixed { width: u32, height: u32 },
    /// Half the width and half the height of the drawing surface.
    HalfSurface,
}

/// What a frame does when the shader program has no location for a uniform.
#[derive(Debug, Clone, Copy, PartialEq, Eq, Structural)]
pub enum MissingUniform {
    /// The frame fails.
    Fail,
    /// The uniform is left unset and the frame goes on.
    Skip,
}

/// What the renderer prepares once, before the first frame.
pub struct SetupPlan {
    /// The address of the sprite image.
    pub image_source: String,
    /// How many off-screen colour targets (a texture with a framebuffer) it
    /// creates.
    pub render_targets: u32,
    /// The size of each off-screen target.
    pub target_width: i32,
    pub target_height: i32,
}

/// What every animation frame does, in this order: upload the sprite image,
/// set the viewport, draw to the screen with the uniforms set, bind the sprite
/// to the texture unit `image_unit`, point the sampler at `sampler_unit` and
/// draw `vertex_count` vertices as triangles from `first_vertex`.
#[derive(Debug, Clone, Copy, PartialEq, Eq, Structural)]
pub struct FramePlan {
    pub viewport: Viewport,
    /// The resolution uniform, in pixels.
    pub resolution_width: u32,
    pub resolution_height: u32,
    pub image_size: ImageSize,
    /// The mobile uniform: 1 on a mobile device, else 0.
    pub mobile_flag: i32,
    pub image_unit: u32,
    pub sampler_unit: i32,
    pub first_vertex: i32,
    pub vertex_count: i32,
    pub missing_uniform: MissingUniform,
}

pub open spec fn spec_image_source(edition: Edition, is_mobile: bool) -> Seq<char> {
    match edition {
        Edition::Year2025 => if is_mobile {
            "images/sprites.png"@
        } else {
            "images/circle.png"@
        },
        Edition::Year2026 => "images/skeletons.png"@,
    }
}

pub open spec fn spec_render_targets(edition: Edition) -> u32 {
    match edition {
        Edition::Year2025 => 2,
        Edition::Year2026 => 0,
    }
}

pub open spec fn spec_image_size(edition: Edition, is_mobile: bool) -> ImageSize {
    if !is_mobile {
        ImageSize::Fixed { width: 2000, height: 1024 }
    } else {
        match edition {
            Edition::Year2025 => ImageSize::Fixed { width: 200, height: 102 },
            Edition::Year2026 => ImageSize::HalfSurface,
        }
    }
}

pub open spec fn spec_missing_uniform(edition: Edition) -> MissingUniform {
    match edition {
        Edition::Year2025 => MissingUniform::Fail,
        Edition::Year2026 => MissingUniform::Skip,
    }
}

/// The frame that `app` draws in `edition`.
pub open spec fn spec_frame(app: App, edition: Edition) -> FramePlan {
    FramePlan {
        viewport: Viewport {
            x: 0,
            y: 0,
            width: app.width as i32,
            height: app.height as i32,
        },
        resolution_width: app.width,
        resolution_height: app.height,
        image_size: spec_image_size(edition, app.is_mobile),
        mobile_flag: if app.is_mobile {
            1
        } else {
            0
        },
        image_unit: 1,
        sampler_unit: 0,
        first_vertex: 0,
        vertex_count: 6,
        missing_uniform: spec_missing_uniform(edition),
    }
}

/// The size given to the drawing surface when the page has been rendered, if
/// the render loop starts then.
pub open spec fn spec_rendered(app: App, first_render: bool) -> Option<(u32, u32)> {
    if first_render {
        Some((app.width, app.height))
    } else {
        None
    }
}

/// The size of the off-screen targets, in WebGL terms.
pub open spec fn spec_target_size(app: App) -> (i32, i32) {
    (app.width as i32, app.height as i32)
}

impl App {
    /// The size to give the drawing surface when the page has been rendered,
    /// or `None` when nothing is to be done: the render loop starts on the
    /// first render only.
    pub fn rendered(&self, first_render: bool) -> (r: Option<(u32, u32)>)
        ensures
            r == spec_rendered(*self, first_render),
            !first_render ==> r is None,
            first_render ==> r == Some((self.width, self.height)),
    {
        if !first_render {
            return None;
        }
        Some((self.width, self.height))
    }

    /// The texture parameters that every texture of the renderer gets, in the
    /// order they are set.
    pub fn create_texture() -> (v: Vec<(TextureParameter, TextureValue)>)
        ensures
            v@ == spec_texture_parameters(),
    {
        let v = vec![
            (TextureParameter::WrapS, TextureValue::ClampToEdge),
            (TextureParameter::WrapT, TextureValue::ClampToEdge),
            (TextureParameter::MinFilter, TextureValue::Linear),
            (TextureParameter::MagFilter, TextureValue::Linear),
        ];
        assert(v@ =~= spec_texture_parameters());
        v
    }

    /// The size in WebGL terms of an off-screen target for a surface of
    /// `width` by `height`.
    pub fn init_texture(width: u32, height: u32) -> (r: (i32, i32))
        ensures
            r == (width as i32, height as i32),
    {
        (gl_size(width), gl_size(height))
    }

    /// What the renderer prepares before the first frame in `edition`.
    pub fn render_gl(&self, edition: Edition) -> (p: SetupPlan)
        ensures
            p.image_source@ == spec_image_source(edition, self.is_mobile),
            p.render_targets == spec_render_targets(edition),
            (p.target_width, p.target_height) == spec_target_size(*self),
            p.target_width == self.width as i32,
            p.target_height == self.height as i32,
    {
        let (target_width, target_height) = App::init_texture(self.width, self.height);
        match edition {
            Edition::Year2025 => {
                let image_source = if self.is_mobile {
                    "images/sprites.png".to_owned()
                } else {
                    "images/circle.png".to_owned()
                };
                SetupPlan { image_source, render_targets: 2, target_width, target_height }
            },
            Edition::Year2026 => SetupPlan {
                image_source: "images/skeletons.png".to_owned(),
                render_targets: 0,
                target_width,
                target_height,
            },
        }
    }

    /// What every animation frame does in `edition`.
    pub fn frame(&self, edition: Edition) -> (f: FramePlan)
        ensures
            f == spec_frame(*self, edition),
            f.resolution_width == self.width,
            f.resolution_height == self.height,
            f.viewport == (Viewport { x: 0, y: 0, width: self.width as i32, height: self.height as i32 }),
    {
        let image_size = if !self.is_mobile {
            ImageSize::Fixed { width: 2000, height: 1024 }
        } else {
            match edition {
                Edition::Year2025 => ImageSize::Fixed { width: 200, height: 102 },
                Edition::Year2026 => ImageSize::HalfSurface,
            }
        };
        let missing_uniform = match edition {
            Edition::Year2025 => MissingUniform::Fail,
            Edition::Year2026 => MissingUniform::Skip,
        };
        FramePlan {
            viewport: Viewport { x: 0, y: 0, width: gl_size(self.width), height: gl_size(self.height) },
            resolution_width: self.width,
            resolution_height: self.height,
            image_size,
            mobile_flag: if self.is_mobile {
                1
            } else {
                0
            },
            image_unit: 1,
            sampler_unit: 0,
            first_vertex: 0,
            vertex_count: 6,
            missing_uniform,
        }
    }
}


/// Every frame draws into the whole drawing surface that was sized when the
/// render loop started: the viewport starts at the origin and has the
/// surface's size as WebGL reads it, which is the size itself whenever it fits
/// in an `i32`.
pub proof fn lemma_viewport_covers_surface(app: App, edition: Edition)
    ensures
        spec_rendered(app, true) matches Some((w, h)) && {
            let v = spec_frame(app, edition).viewport;
            &&& v.x == 0 && v.y == 0
            &&& v.width == w as i32 && v.height == h as i32
            &&& w <= i32::MAX ==> v.width == w
            &&& h <= i32::MAX ==> v.height == h
        },
{
}

/// The render loop starts, and the drawing surface is sized, on the first
/// render only, and then to the page's own size: a later render does nothing.
pub proof fn lemma_rendered_first_only(app: App)
    ensures
        spec_rendered(app, false) is None,
        spec_rendered(app, true) == Some((app.width, app.height)),
{
}

/// Every frame tells the shader the page's own surface size as its
/// resolution, width first, and draws into the viewport of that size at the
/// origin, in every edition.
pub proof fn lemma_frame_uses_surface_size(app: App, edition: Edition)
    ensures
        spec_frame(app, edition).resolution_width == app.width,
        spec_frame(app, edition).resolution_height == app.height,
        spec_frame(app, edition).viewport == (Viewport {
            x: 0,
            y: 0,
            width: app.width as i32,
            height: app.height as i32,
        }),
{
}

/// The off-screen targets are exactly as large as the page's surface, in
/// WebGL's `i32` terms, and as large as the surface given on the first render
/// and the viewport of every frame.
pub proof fn lemma_target_size_is_surface_size(app: App, edition: Edition)
    ensures
        spec_target_size(app) == (app.width as i32, app.height as i32),
        spec_rendered(app, true) == Some((app.width, app.height)),
        spec_target_size(app).0 == spec_frame(app, edition).viewport.width,
        spec_target_size(app).1 == spec_frame(app, edition).viewport.height,
        app.width <= i32::MAX ==> spec_target_size(app).0 == app.width,
        app.height <= i32::MAX ==> spec_target_size(app).1 == app.height,
{
}

/// How the editions differ in what they set up and draw, for every page
/// state: the 2025 edition makes two off-screen targets, picks its sprite
/// sheet and sprite size by device and fails on a missing uniform; the 2026
/// edition makes none, uses one sheet for every device, sizes mobile sprites
/// to half the surface and skips missing uniforms. In both, the sheet is bound
/// to texture unit 1 while the sampler is given unit 0.
pub proof fn lemma_edition_differences(app: App)
    ensures
        spec_render_targets(Edition::Year2025) == 2,
        spec_render_targets(Edition::Year2026) == 0,
        spec_image_source(Edition::Year2025, true) == "images/sprites.png"@,
        spec_image_source(Edition::Year2025, false) == "images/circle.png"@,
        spec_image_source(Edition::Year2026, app.is_mobile) == "images/skeletons.png"@,
        app.is_mobile ==> spec_frame(app, Edition::Year2025).image_size == (ImageSize::Fixed {
            width: 200,
            height: 102,
        }),
        app.is_mobile ==> spec_frame(app, Edition::Year2026).image_size == ImageSize::HalfSurface,
        spec_frame(app, Edition::Year2025).missing_uniform == MissingUniform::Fail,
        spec_frame(app, Edition::Year2026).missing_uniform == MissingUniform::Skip,
        forall|e: Edition|
            #![auto]
            spec_frame(app, e).image_unit == 1 && spec_frame(app, e).sampler_unit == 0,
{
}

/// The off-screen targets have the size of the area every frame draws into.
pub proof fn lemma_targets_match_viewport(app: App, edition: Edition)
    ensures
        spec_target_size(app) == (
            spec_frame(app, edition).viewport.width,
            spec_frame(app, edition).viewport.height,
        ),
{
}

/// Every frame draws exactly the vertices in the vertex buffer: it starts at
/// the first one, and its count times the coordinates per vertex is the length
/// of the buffer.
pub proof fn lemma_draw_matches_buffer(app: App, edition: Edition)
    ensures
        spec_frame(app, edition).first_vertex == 0,
        spec_frame(app, edition).vertex_count * COMPONENTS_PER_VERTEX == spec_quad().len(),
{
}

/// The two triangles of the quad cover the clip square [-1,1] x [-1,1]: all
/// their corners are corners of the square, together they use all four
/// corners, and they share exactly the diagonal from (1,-1) to (-1,1).
pub proof fn lemma_quad_covers_clip_square()
    ensures
        spec_quad().len() == 12,
        forall|i: int| 0 <= i < 12 ==> (#[trigger] spec_quad()[i] == -1 || spec_quad()[i] == 1),
        set![quad_vertex(0), quad_vertex(1), quad_vertex(2), quad_vertex(3), quad_vertex(4), quad_vertex(5)]
            == set![(-1i8, -1i8), (1i8, -1i8), (-1i8, 1i8), (1i8, 1i8)],
        set![quad_vertex(0), quad_vertex(1), quad_vertex(2)].intersect(
            set![quad_vertex(3), quad_vertex(4), quad_vertex(5)],
        ) == set![(1i8, -1i8), (-1i8, 1i8)],
{
    assert(quad_vertex(0) == (-1i8, -1i8));
    assert(quad_vertex(1) == (1i8, -1i8));
    assert(quad_vertex(2) == (-1i8, 1i8));
    assert(quad_vertex(3) == (-1i8, 1i8));
    assert(quad_vertex(4) == (1i8, -1i8));
    assert(quad_vertex(5) == (1i8, 1i8));
    assert(set![quad_vertex(0), quad_vertex(1), quad_vertex(2), quad_vertex(3), quad_vertex(4), quad_vertex(5)]
        =~= set![(-1i8, -1i8), (1i8, -1i8), (-1i8, 1i8), (1i8, 1i8)]);
    assert(set![quad_vertex(0), quad_vertex(1), quad_vertex(2)].intersect(
        set![quad_vertex(3), quad_vertex(4), quad_vertex(5)],
    ) =~= set![(1i8, -1i8), (-1i8, 1i8)]);
}

/// Every texture parameter is set exactly once, both wrap modes clamp to the
/// edge and both filters are linear without mipmaps: what WebGL asks of a
/// texture whose sides need not be powers of two.
pub proof fn lemma_textures_allow_any_size()
    ensures
        spec_texture_parameters().len() == 4,
        forall|i: int, j: int|
            0 <= i < j < 4 ==> (#[trigger] spec_texture_parameters()[i]).0
                != (#[trigger] spec_texture_parameters()[j]).0,
        forall|i: int|
            0 <= i < 4 ==> match #[trigger] spec_texture_parameters()[i] {
                (TextureParameter::WrapS, v) => v == TextureValue::ClampToEdge,
                (TextureParameter::WrapT, v) => v == TextureValue::ClampToEdge,
                (TextureParameter::MinFilter, v) => v == TextureValue::Linear,
                (TextureParameter::MagFilter, v) => v == TextureValue::Linear,
            },
{
}

/// The mobile uniform of every frame tells the shader exactly whether the
/// visitor is on a mobile device, and only a mobile visitor can get a sprite
/// size other than the desktop one.
pub proof fn lemma_frame_follows_device(app: App, edition: Edition)
    ensures
        spec_frame(app, edition).mobile_flag == 1 <==> app.is_mobile,
        spec_frame(app, edition).mobile_flag == 0 <==> !app.is_mobile,
        !app.is_mobile ==> spec_frame(app, edition).image_size == (ImageSize::Fixed {
            width: 2000,
            height: 1024,
        }),
{
}

} // verus!
