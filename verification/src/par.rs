//! Data-parallel fan-out over independent work items.
//!
//! The scene, lights and textures are read-only during a query or a frame,
//! and every output slot is computed by exactly one closure call, so the
//! parallel passes are free of data races; the reductions over their
//! results are done sequentially in verified code.

use vstd::prelude::*;
use rayon::iter::{
    IndexedParallelIterator, IntoParallelIterator, IntoParallelRefIterator, ParallelIterator,
};
use crate::camera::Camera;
use crate::cube::{Cube, Intersect};
use crate::light::{EmissiveSource, Light};
use crate::material::Rgb8;
use crate::quality::QualitySettings;
use crate::render::{spec_shade_pixel, shade_pixel, MAX_FRAME_DIM};
use crate::textures::TextureManager;
use crate::vec3::Vec3;

verus! {

/// Tests one ray against every primitive of the scene in parallel.
///
/// Relies on rayon's `par_iter().map(..).collect_into_vec(..)` on a slice:
/// an indexed parallel iterator collects one result per input element, in
/// input order. The closure only calls the verified `ray_intersect`.
#[verifier::external_body]
pub fn par_ray_intersections(objects: &Vec<Cube>, ro: Vec3, rd: Vec3) -> (r: Vec<Intersect>)
    requires
        forall|i: int| 0 <= i < objects@.len() ==> (#[trigger] objects@[i]).wf(),
        ro.wf(),
        rd.wf(),
    ensures
        r@.len() == objects@.len(),
        forall|i: int| 0 <= i < r@.len()
            ==> #[trigger] r@[i] == objects@[i].spec_ray_intersect(ro, rd),
{
    let mut out: Vec<Intersect> = Vec::new();
    objects.par_iter().map(|o| o.ray_intersect(&ro, &rd)).collect_into_vec(&mut out);
    out
}

/// Shades every pixel of a frame in parallel.
///
/// Relies on rayon's `into_par_iter().map(..).collect_into_vec(..)` on a
/// range: an indexed parallel iterator collects one result per index, in
/// index order. The closure only calls the verified `shade_pixel`.
#[verifier::external_body]
pub fn par_shade_pixels(
    objects: &Vec<Cube>,
    srcs: &Vec<EmissiveSource>,
    light: &Light,
    tm: &TextureManager,
    cam: &Camera,
    q: &QualitySettings,
    width: usize,
    height: usize,
    total: usize,
) -> (r: Vec<Rgb8>)
    requires
        forall|i: int| 0 <= i < objects@.len() ==> (#[trigger] objects@[i]).wf(),
        forall|i: int| 0 <= i < srcs@.len() ==> (#[trigger] srcs@[i]).wf(),
        light.wf(),
        tm.wf(),
        cam.wf(),
        q.wf(),
        0 < width <= MAX_FRAME_DIM,
        0 < height <= MAX_FRAME_DIM,
        total == width * height,
    ensures
        r@.len() == total,
        forall|i: int| 0 <= i < r@.len() ==> #[trigger] r@[i] == spec_shade_pixel(
            objects@, srcs@, *light, *tm, *cam, *q, width as int, height as int, i),
{
    let mut out: Vec<Rgb8> = Vec::new();
    (0..total)
        .into_par_iter()
        .map(|idx| shade_pixel(objects, srcs, light, tm, cam, q, width, height, idx))
        .collect_into_vec(&mut out);
    out
}

} // verus!
