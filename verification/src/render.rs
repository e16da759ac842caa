//! Rendering: one ray for each pixel of a frame.

use vstd::prelude::*;
use crate::camera::Camera;
use crate::color::Color;
use crate::fixed::{
    fx_add, fx_mul, fx_neg, fx_ratio, fx_sub, sat_add, sat_mul, sat_neg, sat_ratio, sat_sub, ONE,
    TWO,
};
use crate::scene::Scene;
use crate::shading::{raised, spec_cast_ray, spec_rays, RenderStats, MAX_DEPTH};

verus! {

/// The scalar that stands for a count of pixels.
pub open spec fn pixels(n: u32) -> i64 {
    (n * ONE) as i64
}

/// Where pixel `(x, y)` of a frame of `width` by `height` lies on the
/// screen: `y` from 1 at the first row down toward -1, `x` from -1 at the
/// first column toward 1, widened by the ratio of width to height.
pub open spec fn screen_point(x: u32, y: u32, width: u32, height: u32) -> (i64, i64) {
    let aspect = sat_ratio(pixels(width), pixels(height));
    (
        sat_mul(sat_sub(sat_ratio(sat_mul(TWO, pixels(x)), pixels(width)), ONE), aspect),
        sat_add(sat_neg(sat_ratio(sat_mul(TWO, pixels(y)), pixels(height))), ONE),
    )
}

/// The color of pixel `(x, y)`: that of the ray from the eye through its
/// point of the screen, followed to the full depth.
pub open spec fn spec_pixel(scene: Scene, camera: Camera, x: u32, y: u32, width: u32, height: u32) -> Color {
    let p = screen_point(x, y, width, height);
    spec_cast_ray(scene, camera.eye, camera.spec_get_ray_direction(p.0, p.1), MAX_DEPTH as nat)
}

/// The number of rays that are tested against the scene for pixel `(x, y)`.
pub open spec fn pixel_rays(scene: Scene, camera: Camera, x: u32, y: u32, width: u32, height: u32) -> nat {
    let p = screen_point(x, y, width, height);
    spec_rays(scene, camera.eye, camera.spec_get_ray_direction(p.0, p.1), MAX_DEPTH as nat)
}

/// The number of rays that are tested against the scene for the first `n`
/// pixels of a frame, counted row by row.
pub open spec fn frame_rays(scene: Scene, camera: Camera, width: u32, height: u32, n: nat) -> nat
    decreases n,
{
    if n == 0 {
        0
    } else {
        frame_rays(scene, camera, width, height, (n - 1) as nat) + pixel_rays(
            scene,
            camera,
            (((n - 1) as int) % (width as int)) as u32,
            (((n - 1) as int) / (width as int)) as u32,
            width,
            height,
        )
    }
}

/// Pixel number `j` of `buffer`, counted row by row, holds the packed
/// color of its ray.
pub open spec fn pixel_shows(
    buffer: Seq<u32>,
    j: int,
    scene: Scene,
    camera: Camera,
    width: u32,
    height: u32,
) -> bool {
    buffer[j] == spec_pixel(
        scene,
        camera,
        (j % (width as int)) as u32,
        (j / (width as int)) as u32,
        width,
        height,
    ).spec_to_hex()
}

fn to_pixels(n: u32) -> (v: i64)
    ensures
        v == pixels(n),
{
    (n as i64) * 1_000_000
}

/// Where a pixel lies on the screen. A frame without width or height has
/// its quotients at 0.
pub fn screen_coordinates(x: u32, y: u32, width: u32, height: u32) -> (p: (i64, i64))
    ensures
        p == screen_point(x, y, width, height),
{
    let w = to_pixels(width);
    let h = to_pixels(height);
    let aspect = fx_ratio(w, h);
    (
        fx_mul(fx_sub(fx_ratio(fx_mul(TWO, to_pixels(x)), w), ONE), aspect),
        fx_add(fx_neg(fx_ratio(fx_mul(TWO, to_pixels(y)), h)), ONE),
    )
}

/// The color of one pixel of a frame.
pub fn render_pixel(
    scene: &Scene,
    camera: &Camera,
    x: u32,
    y: u32,
    width: u32,
    height: u32,
    stats: &mut RenderStats,
) -> (c: Color)
    requires
        scene.wf(),
    ensures
        c == spec_pixel(*scene, *camera, x, y, width, height),
        final(stats).rays_cast == raised(
            old(stats).rays_cast,
            pixel_rays(*scene, *camera, x, y, width, height),
        ),
{
    let p = screen_coordinates(x, y, width, height);
    let dir = camera.get_ray_direction(p.0, p.1);
    scene.cast_ray(&camera.eye, &dir, MAX_DEPTH, stats)
}

/// Renders a frame of `width` by `height` pixels: the packed colors
/// `0x00RRGGBB` of the pixels, row by row. A frame without width or height
/// has no pixels.
pub fn render(scene: &Scene, camera: &Camera, width: u32, height: u32, stats: &mut RenderStats) -> (buffer:
    Vec<u32>)
    requires
        scene.wf(),
    ensures
        buffer@.len() == width * height,
        final(stats).rays_cast == raised(
            old(stats).rays_cast,
            frame_rays(*scene, *camera, width, height, (width * height) as nat),
        ),
        forall|j: int|
            0 <= j < width * height ==> #[trigger] pixel_shows(
                buffer@,
                j,
                *scene,
                *camera,
                width,
                height,
            ),
{
    assert(width * height <= 0xffff_ffff * 0xffff_ffff) by (nonlinear_arith)
        requires
            0 <= width <= 0xffff_ffff,
            0 <= height <= 0xffff_ffff,
    ;
    let count: u64 = (width as u64) * (height as u64);
    let mut buffer: Vec<u32> = Vec::new();
    let mut j: u64 = 0;
    while j < count
        invariant
            scene.wf(),
            count == width * height,
            j <= count,
            buffer@.len() == j,
            stats.rays_cast == raised(
                old(stats).rays_cast,
                frame_rays(*scene, *camera, width, height, j as nat),
            ),
            forall|k: int|
                0 <= k < j ==> #[trigger] pixel_shows(buffer@, k, *scene, *camera, width, height),
        decreases count - j,
    {
        assert(width > 0) by (nonlinear_arith)
            requires
                j < width * height,
                j >= 0,
                width >= 0,
        ;
        let x: u64 = j % (width as u64);
        let y: u64 = j / (width as u64);
        proof {
            vstd::arithmetic::div_mod::lemma_fundamental_div_mod(j as int, width as int);
            assert(y < height) by (nonlinear_arith)
                requires
                    j < width * height,
                    j == width * y + x,
                    0 <= x < width,
                    width > 0,
            ;
        }
        let c = render_pixel(scene, camera, x as u32, y as u32, width, height, stats);
        let ghost before = buffer@;
        buffer.push(c.to_hex());
        proof {
            assert forall|k: int| 0 <= k < j + 1 implies #[trigger] pixel_shows(
                buffer@,
                k,
                *scene,
                *camera,
                width,
                height,
            ) by {
                if k < j {
                    assert(pixel_shows(before, k, *scene, *camera, width, height));
                }
            }
        }
        j = j + 1;
    }
    buffer
}

} // verus!
