//! The frame buffer and the quality-tiered render pass: every pixel's ray
//! is computed independently, shaded in parallel, and committed once.

use vstd::prelude::*;
use crate::camera::Camera;
use crate::cube::Cube;
use crate::fx::{fadd, fdiv, fmul, fsub, fx_add, fx_div, fx_mul, fx_sub, SCALE};
use crate::light::{EmissiveSource, Light};
use crate::material::{spec_vector3_to_color, vector3_to_color, Rgb8};
use crate::par::par_shade_pixels;
use crate::quality::QualitySettings;
use crate::shade::{cast_ray, spec_cast_ray};
use crate::textures::TextureManager;
use crate::vec3::Vec3;

verus! {

/// Largest accepted frame edge, in pixels.
pub const MAX_FRAME_DIM: usize = 4096;

/// Tangent of half the fixed 60-degree field of view.
pub const PERSPECTIVE_SCALE: i64 = 37837;

/// A row-major pixel buffer.
#[derive(Debug)]
pub struct Framebuffer {
    pub width: usize,
    pub height: usize,
    pub pixels: Vec<Rgb8>,
}

impl Framebuffer {
    pub open spec fn wf(self) -> bool {
        &&& 0 < self.width <= MAX_FRAME_DIM
        &&& 0 < self.height <= MAX_FRAME_DIM
        &&& self.pixels@.len() == self.width * self.height
    }

    /// A black frame of the given size.
    pub fn new(width: usize, height: usize) -> (r: Framebuffer)
        requires
            0 < width <= MAX_FRAME_DIM,
            0 < height <= MAX_FRAME_DIM,
        ensures
            r.width == width,
            r.height == height,
            r.wf(),
            forall|i: int| 0 <= i < r.pixels@.len()
                ==> #[trigger] r.pixels@[i] == (Rgb8 { r: 0, g: 0, b: 0 }),
    {
        proof {
            assert(width * height <= 4096 * 4096) by (nonlinear_arith)
                requires 0 < width <= 4096, 0 < height <= 4096,
            ;
        }
        let total: usize = width * height;
        let mut pixels: Vec<Rgb8> = Vec::new();
        let mut i: usize = 0;
        while i < total
            invariant
                i <= total,
                pixels@.len() == i,
                forall|k: int| 0 <= k < pixels@.len()
                    ==> #[trigger] pixels@[k] == (Rgb8 { r: 0, g: 0, b: 0 }),
            decreases total - i,
        {
            pixels.push(Rgb8 { r: 0, g: 0, b: 0 });
            i = i + 1;
        }
        Framebuffer { width, height, pixels }
    }

    /// Writes one pixel at `(x, y)`.
    pub fn set_pixel_color(&mut self, x: usize, y: usize, color: Rgb8)
        requires
            old(self).wf(),
            x < old(self).width,
            y < old(self).height,
        ensures
            final(self).width == old(self).width,
            final(self).height == old(self).height,
            final(self).pixels@ == old(self).pixels@.update(
                y * old(self).width + x, color),
            final(self).wf(),
    {
        proof {
            assert(y * self.width + x < self.height * self.width
                && y * self.width + x <= 4096 * 4096) by (nonlinear_arith)
                requires
                    0 <= x < self.width,
                    0 <= y < self.height,
                    self.width <= 4096,
                    self.height <= 4096,
            ;
        }
        let index: usize = y * self.width + x;
        self.pixels[index] = color;
    }
}

/// The world-space ray direction through pixel `(x, y)` of a `w`-by-`h`
/// image: the pixel is mapped to normalized device coordinates (row zero
/// up), scaled by aspect ratio and the field-of-view tangent, and rotated
/// through the camera basis.
pub open spec fn spec_pixel_ray_dir(cam: Camera, w: int, h: int, x: int, y: int) -> Vec3 {
    let xf = x * SCALE;
    let yf = y * SCALE;
    let wf = w * SCALE;
    let hf = h * SCALE;
    let sx = fsub(fdiv(fadd(xf, xf), wf), SCALE as int);
    let sy = fsub(SCALE as int, fdiv(fadd(yf, yf), hf));
    let aspect = fdiv(wf, hf);
    let px = fmul(fmul(sx, aspect), PERSPECTIVE_SCALE as int);
    let py = fmul(sy, PERSPECTIVE_SCALE as int);
    let d = Vec3::spec_normalized(Vec3 { x: px as i64, y: py as i64, z: (-SCALE) as i64 });
    cam.spec_basis_change(d)
}

/// The final color of one pixel of a frame: its ray shaded from depth
/// zero, scaled to bytes.
pub open spec fn spec_shade_pixel(
    objects: Seq<Cube>,
    srcs: Seq<EmissiveSource>,
    light: Light,
    tm: TextureManager,
    cam: Camera,
    q: QualitySettings,
    w: int,
    h: int,
    idx: int,
) -> Rgb8 {
    let x = idx % w;
    let y = idx / w;
    let dir = spec_pixel_ray_dir(cam, w, h, x, y);
    spec_vector3_to_color(
        spec_cast_ray(cam.eye, dir, objects, srcs, light, tm, 0u32, q),
    )
}

/// Shades one pixel; independent of every other pixel, so the frame's
/// pixels may be computed in any order or in parallel.
#[verifier::rlimit(100)]
pub fn shade_pixel(
    objects: &Vec<Cube>,
    srcs: &Vec<EmissiveSource>,
    light: &Light,
    tm: &TextureManager,
    cam: &Camera,
    q: &QualitySettings,
    width: usize,
    height: usize,
    idx: usize,
) -> (r: Rgb8)
    requires
        forall|i: int| 0 <= i < objects@.len() ==> (#[trigger] objects@[i]).wf(),
        forall|i: int| 0 <= i < srcs@.len() ==> (#[trigger] srcs@[i]).wf(),
        light.wf(),
        tm.wf(),
        cam.wf(),
        q.wf(),
        0 < width <= MAX_FRAME_DIM,
        0 < height <= MAX_FRAME_DIM,
        idx < width * height,
    ensures
        r == spec_shade_pixel(
            objects@, srcs@, *light, *tm, *cam, *q,
            width as int, height as int, idx as int),
{
    let x: usize = idx % width;
    let y: usize = idx / width;
    proof {
        assert(x < width && y < height) by (nonlinear_arith)
            requires
                x == idx as int % width as int,
                y == idx as int / width as int,
                0 < width,
                0 < height,
                idx < width * height,
        ;
    }
    let xf: i64 = (x as i64) * SCALE;
    let yf: i64 = (y as i64) * SCALE;
    let wf: i64 = (width as i64) * SCALE;
    let hf: i64 = (height as i64) * SCALE;
    let sx = fx_sub(fx_div(fx_add(xf, xf), wf), SCALE);
    let sy = fx_sub(SCALE, fx_div(fx_add(yf, yf), hf));
    let aspect = fx_div(wf, hf);
    let px = fx_mul(fx_mul(sx, aspect), PERSPECTIVE_SCALE);
    let py = fx_mul(sy, PERSPECTIVE_SCALE);
    let d = Vec3 { x: px, y: py, z: -SCALE };
    let dir = cam.basis_change(&d.normalized());
    let color = cast_ray(&cam.eye, &dir, objects, srcs, light, tm, 0, q);
    vector3_to_color(color)
}

/// Renders a full frame into the buffer: shading runs data-parallel over
/// the independent pixels, and each pixel slot is then committed exactly
/// once.
#[verifier::rlimit(100)]
pub fn render(
    framebuffer: &mut Framebuffer,
    objects: &Vec<Cube>,
    emissive_sources: &Vec<EmissiveSource>,
    camera: &Camera,
    light: &Light,
    texture_manager: &TextureManager,
    quality: &QualitySettings,
)
    requires
        old(framebuffer).wf(),
        forall|i: int| 0 <= i < objects@.len() ==> (#[trigger] objects@[i]).wf(),
        forall|i: int| 0 <= i < emissive_sources@.len()
            ==> (#[trigger] emissive_sources@[i]).wf(),
        camera.wf(),
        light.wf(),
        texture_manager.wf(),
        quality.wf(),
    ensures
        final(framebuffer).width == old(framebuffer).width,
        final(framebuffer).height == old(framebuffer).height,
        final(framebuffer).wf(),
        forall|idx: int| 0 <= idx < final(framebuffer).pixels@.len()
            ==> #[trigger] final(framebuffer).pixels@[idx] == spec_shade_pixel(
                objects@, emissive_sources@, *light, *texture_manager, *camera, *quality,
                old(framebuffer).width as int, old(framebuffer).height as int, idx),
{
    let width = framebuffer.width;
    let height = framebuffer.height;
    proof {
        assert(width * height <= 4096 * 4096) by (nonlinear_arith)
            requires 0 < width <= 4096, 0 < height <= 4096,
        ;
    }
    let total: usize = width * height;
    let pixels = par_shade_pixels(
        objects, emissive_sources, light, texture_manager, camera, quality, width, height,
        total);
    let mut idx: usize = 0;
    while idx < total
        invariant
            framebuffer.wf(),
            framebuffer.width == width,
            framebuffer.height == height,
            total == width * height,
            idx <= total,
            pixels@.len() == total,
            forall|k: int| 0 <= k < total ==> #[trigger] pixels@[k] == spec_shade_pixel(
                objects@, emissive_sources@, *light, *texture_manager, *camera, *quality,
                width as int, height as int, k),
            forall|k: int| 0 <= k < idx
                ==> #[trigger] framebuffer.pixels@[k] == pixels@[k],
        decreases total - idx,
    {
        let x: usize = idx % width;
        let y: usize = idx / width;
        proof {
            assert(x < width && y < height && y * width + x == idx) by (nonlinear_arith)
                requires
                    x == idx as int % width as int,
                    y == idx as int / width as int,
                    0 < width,
                    0 < height,
                    idx < width * height,
            ;
        }
        framebuffer.set_pixel_color(x, y, pixels[idx]);
        idx = idx + 1;
    }
}

} // verus!
