//! The shading engine: sky, shadowing, emissive lighting, and the
//! recursive Phong-style light transport of `cast_ray`.

use vstd::prelude::*;
use crate::cube::{lemma_ray_intersect_wf, Cube, Intersect};
use crate::fx::{
    fadd, fclamp, fdiv, fmax, fmin, fmul, fpow, fsqrt, fsub, fx_add, fx_clamp, fx_div, fx_max,
    fx_mul, fx_pow, fx_sqrt, fx_sub, in_range, tdiv, FX_HALF, SCALE,
};
use crate::light::{EmissiveSource, Light};
use crate::par::par_ray_intersections;
use crate::quality::QualitySettings;
use crate::textures::{spec_pixel_color, TextureManager};
use crate::vec3::Vec3;

verus! {

/// Offset of secondary-ray origins along the surface normal (about 1e-4).
pub const ORIGIN_BIAS: i64 = 7;

/// Brightness boost of a glowing surface's base color (1.8).
pub const GLOW_BOOST: i64 = 117965;

/// Constant additive glow term of a glowing surface (0.6).
pub const GLOW_ADD: i64 = 39322;

/// Coefficient of the inverse-square-like emissive attenuation (0.35).
pub const EMISSIVE_ATTEN: i64 = 22938;

/// Below this shadow quality, at most two emissive sources are summed.
pub const FEW_SOURCES_SHADOW_Q: i64 = 22938;

/// Below this resolution scale, at most three emissive sources are summed.
pub const FEW_SOURCES_RES_SCALE: i64 = 26214;

/// Scaling of the material's Phong exponent (0.8).
pub const PHONG_EXP_SCALE: i64 = 52429;

/// Cap on the integer Phong exponent.
pub const PHONG_EXP_CAP: i64 = 2048;

/// The sky gradient between the horizon and zenith colors, by the upward
/// component of the (normalized) ray direction alone.
pub open spec fn spec_sky(rd: Vec3) -> Vec3 {
    let d = Vec3::spec_normalized(rd);
    let t = fclamp(fmul(fadd(d.y as int, SCALE as int), FX_HALF as int), 0, SCALE as int);
    Vec3 {
        x: fadd(fmul(53740, fsub(SCALE as int, t)), fmul(17695, t)) as i64,
        y: fadd(fmul(43254, fsub(SCALE as int, t)), fmul(10486, t)) as i64,
        z: fadd(fmul(65536, fsub(SCALE as int, t)), fmul(28180, t)) as i64,
    }
}

/// Background color for a ray that leaves the scene; a function of the
/// ray direction only.
pub fn procedural_sky(rd: &Vec3) -> (r: Vec3)
    requires
        rd.wf(),
    ensures
        r == spec_sky(*rd),
        r.wf(),
{
    let d = rd.normalized();
    let t = fx_clamp(fx_mul(fx_add(d.y, SCALE), FX_HALF), 0, SCALE);
    Vec3 {
        x: fx_add(fx_mul(53740, fx_sub(SCALE, t)), fx_mul(17695, t)),
        y: fx_add(fx_mul(43254, fx_sub(SCALE, t)), fx_mul(10486, t)),
        z: fx_add(fx_mul(65536, fx_sub(SCALE, t)), fx_mul(28180, t)),
    }
}

/// The origin of a secondary ray: the hit point pushed a small bias away
/// from the surface, on the side the outgoing direction leaves through.
pub open spec fn spec_offset_origin(hit: Intersect, direction: Vec3) -> Vec3 {
    let offset = Vec3::spec_scale(hit.normal, ORIGIN_BIAS as int);
    if Vec3::spec_dot(direction, hit.normal) < 0 {
        Vec3::spec_sub(hit.point, offset)
    } else {
        Vec3::spec_add(hit.point, offset)
    }
}

pub fn offset_origin(hit: &Intersect, direction: &Vec3) -> (r: Vec3)
    requires
        hit.wf(),
        direction.wf(),
    ensures
        r == spec_offset_origin(*hit, *direction),
        r.wf(),
{
    let offset = hit.normal.scale(ORIGIN_BIAS);
    if direction.dot(hit.normal) < 0 {
        hit.point.sub(offset)
    } else {
        hit.point.add(offset)
    }
}

/// Mirror reflection of `incident` about `normal`.
pub open spec fn spec_reflect(incident: Vec3, normal: Vec3) -> Vec3 {
    Vec3::spec_sub(
        incident,
        Vec3::spec_scale(
            Vec3::spec_scale(normal, (2 * SCALE) as int),
            Vec3::spec_dot(incident, normal),
        ),
    )
}

pub fn reflect(incident: &Vec3, normal: &Vec3) -> (r: Vec3)
    requires
        incident.wf(),
        normal.wf(),
    ensures
        r == spec_reflect(*incident, *normal),
        r.wf(),
{
    incident.sub(normal.scale(2 * SCALE).scale(incident.dot(*normal)))
}

/// Snell refraction of `incident` entering (or leaving) a medium of index
/// `eta_t`; `None` on a non-positive index or total internal reflection.
pub open spec fn spec_refract(incident: Vec3, normal: Vec3, eta_t: int) -> Option<Vec3> {
    if eta_t <= 0 {
        None
    } else {
        let cosi0 = fclamp(Vec3::spec_dot(incident, normal), -(SCALE as int), SCALE as int);
        let flip = cosi0 > 0;
        let n = if flip { Vec3::spec_neg(normal) } else { normal };
        let cosi = if flip { cosi0 } else { -cosi0 };
        let eta = if flip { fdiv(eta_t, SCALE as int) } else { fdiv(SCALE as int, eta_t) };
        let k = fsub(
            SCALE as int,
            fmul(fmul(eta, eta), fsub(SCALE as int, fmul(cosi, cosi))),
        );
        if k < 0 {
            None
        } else {
            Some(Vec3::spec_normalized(Vec3::spec_add(
                Vec3::spec_scale(incident, eta),
                Vec3::spec_scale(n, fsub(fmul(eta, cosi), fsqrt(k))),
            )))
        }
    }
}

pub fn refract(incident: &Vec3, normal: &Vec3, eta_t: i64) -> (r: Option<Vec3>)
    requires
        incident.wf(),
        normal.wf(),
        in_range(eta_t as int),
    ensures
        r == spec_refract(*incident, *normal, eta_t as int),
        match r {
            Some(d) => d.wf(),
            None => true,
        },
{
    if eta_t <= 0 {
        return None;
    }
    let cosi0 = fx_clamp(incident.dot(*normal), -SCALE, SCALE);
    let flip = cosi0 > 0;
    let n = if flip { normal.neg() } else { *normal };
    let cosi = if flip { cosi0 } else { -cosi0 };
    let eta = if flip { fx_div(eta_t, SCALE) } else { fx_div(SCALE, eta_t) };
    let k = fx_sub(SCALE, fx_mul(fx_mul(eta, eta), fx_sub(SCALE, fx_mul(cosi, cosi))));
    if k < 0 {
        None
    } else {
        Some(incident.scale(eta).add(n.scale(fx_sub(fx_mul(eta, cosi), fx_sqrt(k)))).normalized())
    }
}

/// How many emissive sources the tier affords: two under low shadow
/// quality, three under low resolution, otherwise all of them.
pub open spec fn spec_max_sources(n: int, q: QualitySettings) -> int {
    if q.shadow_quality < FEW_SOURCES_SHADOW_Q {
        fmin(n, 2)
    } else if q.resolution_scale < FEW_SOURCES_RES_SCALE {
        fmin(n, 3)
    } else {
        n
    }
}

/// One emissive source's contribution at a shaded point: culled outside
/// its radius or facing away, otherwise its color scaled by strength,
/// inverse-square-like attenuation, radial falloff, and incidence.
pub open spec fn spec_emissive_contrib(src: EmissiveSource, point: Vec3, normal: Vec3) -> Vec3 {
    let to_light = Vec3::spec_sub(src.position, point);
    let distance = Vec3::spec_length(to_light);
    if distance > src.radius {
        Vec3 { x: 0, y: 0, z: 0 }
    } else {
        let light_dir = Vec3::spec_normalized(to_light);
        let dp = fmax(Vec3::spec_dot(normal, light_dir), 0);
        if dp <= 0 {
            Vec3 { x: 0, y: 0, z: 0 }
        } else {
            let attenuation = fdiv(
                SCALE as int,
                fadd(SCALE as int, fmul(EMISSIVE_ATTEN as int, fmul(distance, distance))),
            );
            let falloff = fmax(fdiv(fsub(src.radius as int, distance), src.radius as int), 0);
            let intensity = fmul(fmul(src.strength as int, attenuation), falloff);
            Vec3::spec_scale(Vec3::spec_scale(src.color, intensity), dp)
        }
    }
}

/// Sum of the contributions of a prefix of the source list, in order.
pub open spec fn spec_emissive_sum(srcs: Seq<EmissiveSource>, point: Vec3, normal: Vec3) -> Vec3
    decreases srcs.len(),
{
    if srcs.len() == 0 {
        Vec3 { x: 0, y: 0, z: 0 }
    } else {
        Vec3::spec_add(
            spec_emissive_sum(srcs.drop_last(), point, normal),
            spec_emissive_contrib(srcs.last(), point, normal),
        )
    }
}

/// The emissive light reaching a point: the sum over the tier's capped
/// prefix of the source list.
pub open spec fn spec_emissive(
    point: Vec3,
    normal: Vec3,
    srcs: Seq<EmissiveSource>,
    q: QualitySettings,
) -> Vec3 {
    spec_emissive_sum(srcs.take(spec_max_sources(srcs.len() as int, q)), point, normal)
}

/// Sums the secondary light reaching `point` from the scene's emissive
/// sources, capped by the quality tier.
pub fn calculate_emissive_lighting(
    point: Vec3,
    normal: Vec3,
    srcs: &Vec<EmissiveSource>,
    q: &QualitySettings,
) -> (r: Vec3)
    requires
        point.wf(),
        normal.wf(),
        forall|i: int| 0 <= i < srcs@.len() ==> (#[trigger] srcs@[i]).wf(),
    ensures
        r == spec_emissive(point, normal, srcs@, *q),
        r.wf(),
{
    let n = srcs.len();
    let max_sources: usize = if q.shadow_quality < FEW_SOURCES_SHADOW_Q {
        if n <= 2 { n } else { 2 }
    } else if q.resolution_scale < FEW_SOURCES_RES_SCALE {
        if n <= 3 { n } else { 3 }
    } else {
        n
    };
    proof {
        assert(max_sources as int == spec_max_sources(srcs@.len() as int, *q));
    }
    let mut total = Vec3 { x: 0, y: 0, z: 0 };
    let mut i: usize = 0;
    proof {
        assert(srcs@.take(max_sources as int).take(0) =~= Seq::<EmissiveSource>::empty());
    }
    while i < max_sources
        invariant
            i <= max_sources <= srcs@.len(),
            point.wf(),
            normal.wf(),
            forall|k: int| 0 <= k < srcs@.len() ==> (#[trigger] srcs@[k]).wf(),
            total == spec_emissive_sum(srcs@.take(max_sources as int).take(i as int), point, normal),
            total.wf(),
        decreases max_sources - i,
    {
        let src = &srcs[i];
        let to_light = src.position.sub(point);
        let distance = to_light.length();
        let gain: Vec3;
        if distance > src.radius {
            gain = Vec3 { x: 0, y: 0, z: 0 };
        } else {
            let light_dir = to_light.normalized();
            let dp = fx_max(normal.dot(light_dir), 0);
            if dp <= 0 {
                gain = Vec3 { x: 0, y: 0, z: 0 };
            } else {
                let attenuation = fx_div(
                    SCALE,
                    fx_add(SCALE, fx_mul(EMISSIVE_ATTEN, fx_mul(distance, distance))),
                );
                let falloff = fx_max(fx_div(fx_sub(src.radius, distance), src.radius), 0);
                let intensity = fx_mul(fx_mul(src.strength, attenuation), falloff);
                gain = src.color.scale(intensity).scale(dp);
            }
        }
        proof {
            assert(gain == spec_emissive_contrib(srcs@[i as int], point, normal));
            assert(srcs@.take(max_sources as int).take(i + 1).drop_last()
                =~= srcs@.take(max_sources as int).take(i as int));
            assert(srcs@.take(max_sources as int).take(i + 1).last() == srcs@[i as int]);
        }
        total = total.add(gain);
        i = i + 1;
    }
    proof {
        assert(srcs@.take(max_sources as int).take(max_sources as int)
            =~= srcs@.take(max_sources as int));
    }
    total
}

/// Reduction of a list of hit records to the nearest, in stable order: a
/// later record displaces the current best only at a strictly smaller
/// distance.
pub open spec fn spec_nearest_fold(hits: Seq<Intersect>) -> Intersect
    decreases hits.len(),
{
    if hits.len() == 0 {
        Intersect::spec_empty()
    } else {
        let prev = spec_nearest_fold(hits.drop_last());
        let h = hits.last();
        if h.is_intersecting && (!prev.is_intersecting || h.distance < prev.distance) {
            h
        } else {
            prev
        }
    }
}

/// The hit records of one ray against every primitive, in scene order.
pub open spec fn spec_all_hits(objects: Seq<Cube>, ro: Vec3, rd: Vec3) -> Seq<Intersect> {
    Seq::new(objects.len(), |i: int| objects[i].spec_ray_intersect(ro, rd))
}

/// The nearest intersection along a ray, in stable scene order.
pub open spec fn spec_nearest(objects: Seq<Cube>, ro: Vec3, rd: Vec3) -> Intersect {
    spec_nearest_fold(spec_all_hits(objects, ro, rd))
}

/// The fold is sound and complete: a returned record that intersects is
/// one of the list's records, none of the list's intersecting records
/// lies closer, and an empty result means none intersects.
pub proof fn lemma_nearest_fold_minimal(hits: Seq<Intersect>)
    ensures
        spec_nearest_fold(hits).is_intersecting ==> exists|i: int|
            0 <= i < hits.len() && spec_nearest_fold(hits) == #[trigger] hits[i],
        forall|i: int| 0 <= i < hits.len() && (#[trigger] hits[i]).is_intersecting
            ==> spec_nearest_fold(hits).is_intersecting
                && spec_nearest_fold(hits).distance <= hits[i].distance,
    decreases hits.len(),
{
    if hits.len() > 0 {
        lemma_nearest_fold_minimal(hits.drop_last());
        let prev = spec_nearest_fold(hits.drop_last());
        let n = spec_nearest_fold(hits);
        assert(hits.last() == hits[hits.len() - 1]);
        assert(forall|i: int| 0 <= i < hits.len() - 1
            ==> #[trigger] hits[i] == hits.drop_last()[i]);
        if n.is_intersecting {
            if !(hits.last().is_intersecting
                && (!prev.is_intersecting || hits.last().distance < prev.distance)) {
                let j = choose|j: int|
                    0 <= j < hits.drop_last().len() && prev == #[trigger] hits.drop_last()[j];
                assert(n == hits[j]);
            }
        }
    }
}

/// The nearest-hit reduction over a scene: a returned hit is one
/// primitive's own hit record, and no intersecting primitive lies closer.
pub proof fn lemma_nearest_is_minimal(objects: Seq<Cube>, ro: Vec3, rd: Vec3)
    ensures
        spec_nearest(objects, ro, rd).is_intersecting ==> exists|i: int|
            0 <= i < objects.len()
                && spec_nearest(objects, ro, rd)
                    == (#[trigger] objects[i].spec_ray_intersect(ro, rd)),
        forall|i: int| 0 <= i < objects.len()
            && (#[trigger] objects[i].spec_ray_intersect(ro, rd)).is_intersecting
            ==> spec_nearest(objects, ro, rd).is_intersecting
                && spec_nearest(objects, ro, rd).distance
                    <= objects[i].spec_ray_intersect(ro, rd).distance,
{
    let hits = spec_all_hits(objects, ro, rd);
    lemma_nearest_fold_minimal(hits);
    assert forall|i: int|
        0 <= i < objects.len()
            && (#[trigger] objects[i].spec_ray_intersect(ro, rd)).is_intersecting
        implies spec_nearest(objects, ro, rd).is_intersecting
            && spec_nearest(objects, ro, rd).distance
                <= objects[i].spec_ray_intersect(ro, rd).distance
    by {
        assert(hits[i] == objects[i].spec_ray_intersect(ro, rd));
    };
}

/// The sequential reduction of a list of hit records to the nearest.
fn fold_nearest(hits: &Vec<Intersect>) -> (r: Intersect)
    requires
        forall|k: int| 0 <= k < hits@.len() ==> (#[trigger] hits@[k]).wf(),
    ensures
        r == spec_nearest_fold(hits@),
        r.wf(),
{
    let mut best = Intersect::empty();
    let mut i: usize = 0;
    proof {
        assert(hits@.take(0) =~= Seq::<Intersect>::empty());
    }
    while i < hits.len()
        invariant
            i <= hits@.len(),
            forall|k: int| 0 <= k < hits@.len() ==> (#[trigger] hits@[k]).wf(),
            best == spec_nearest_fold(hits@.take(i as int)),
            best.wf(),
        decreases hits@.len() - i,
    {
        let h = hits[i];
        proof {
            assert(hits@.take(i + 1).drop_last() =~= hits@.take(i as int));
            assert(hits@.take(i + 1).last() == hits@[i as int]);
        }
        if h.is_intersecting && (!best.is_intersecting || h.distance < best.distance) {
            best = h;
        }
        i = i + 1;
    }
    proof {
        assert(hits@.take(hits@.len() as int) =~= hits@);
    }
    best
}

/// Finds the nearest hit over all primitives; the intersection tests run
/// in parallel and the minimum is reduced in stable scene order.
pub fn nearest_intersect(objects: &Vec<Cube>, ro: Vec3, rd: Vec3) -> (r: Intersect)
    requires
        forall|i: int| 0 <= i < objects@.len() ==> (#[trigger] objects@[i]).wf(),
        ro.wf(),
        rd.wf(),
    ensures
        r == spec_nearest(objects@, ro, rd),
        r.wf(),
{
    let hits = par_ray_intersections(objects, ro, rd);
    proof {
        assert forall|k: int| 0 <= k < hits@.len() implies (#[trigger] hits@[k]).wf() by {
            lemma_ray_intersect_wf(objects@[k], ro, rd);
        };
        assert(hits@ =~= spec_all_hits(objects@, ro, rd));
    }
    fold_nearest(&hits)
}

/// Whether any primitive blocks the ray within the given distance.
pub open spec fn spec_any_occluder(objects: Seq<Cube>, ro: Vec3, rd: Vec3, max_d: int) -> bool {
    exists|i: int|
        0 <= i < objects.len() && (#[trigger] objects[i].spec_ray_intersect(ro, rd)).is_intersecting
            && objects[i].spec_ray_intersect(ro, rd).distance < max_d
}

fn any_occluder(objects: &Vec<Cube>, ro: Vec3, rd: Vec3, max_d: i64) -> (r: bool)
    requires
        forall|i: int| 0 <= i < objects@.len() ==> (#[trigger] objects@[i]).wf(),
        ro.wf(),
        rd.wf(),
    ensures
        r == spec_any_occluder(objects@, ro, rd, max_d as int),
{
    let hits = par_ray_intersections(objects, ro, rd);
    let mut i: usize = 0;
    while i < hits.len()
        invariant
            hits@.len() == objects@.len(),
            i <= hits@.len(),
            forall|k: int| 0 <= k < hits@.len()
                ==> #[trigger] hits@[k] == objects@[k].spec_ray_intersect(ro, rd),
            forall|k: int| 0 <= k < i
                ==> !((#[trigger] objects@[k].spec_ray_intersect(ro, rd)).is_intersecting
                    && objects@[k].spec_ray_intersect(ro, rd).distance < max_d),
        decreases hits@.len() - i,
    {
        let h = hits[i];
        if h.is_intersecting && h.distance < max_d {
            return true;
        }
        i = i + 1;
    }
    false
}

/// Full occlusion (one) when any primitive blocks the path from the hit
/// point to the light, else zero.
pub open spec fn spec_cast_shadow(hit: Intersect, light: Light, objects: Seq<Cube>) -> int {
    let to_light = Vec3::spec_sub(light.position, hit.point);
    let light_dir = Vec3::spec_normalized(to_light);
    let light_distance = Vec3::spec_length(to_light);
    let shadow_origin = spec_offset_origin(hit, light_dir);
    if spec_any_occluder(objects, shadow_origin, light_dir, light_distance) {
        SCALE as int
    } else {
        0
    }
}

/// Shadow query: occlusion of the primary light at a hit point.
pub fn cast_shadow(hit: &Intersect, light: &Light, objects: &Vec<Cube>) -> (r: i64)
    requires
        hit.wf(),
        light.wf(),
        forall|i: int| 0 <= i < objects@.len() ==> (#[trigger] objects@[i]).wf(),
    ensures
        r == spec_cast_shadow(*hit, *light, objects@),
        r == 0 || r == SCALE,
{
    let to_light = light.position.sub(hit.point);
    let light_dir = to_light.normalized();
    let light_distance = to_light.length();
    let shadow_origin = offset_origin(hit, &light_dir);
    if any_occluder(objects, shadow_origin, light_dir, light_distance) {
        SCALE
    } else {
        0
    }
}

/// The integer Phong exponent: `0.8` times the material's exponent,
/// truncated and capped.
pub open spec fn spec_phong_exp(s: int) -> int {
    fclamp(tdiv(fmul(s, PHONG_EXP_SCALE as int), SCALE as int), 0, PHONG_EXP_CAP as int)
}

fn phong_exp(s: i64) -> (r: u32)
    ensures
        r == spec_phong_exp(s as int),
{
    let m = fx_mul(s, PHONG_EXP_SCALE);
    let mm: i64 = if m >= 0 { m } else { -m };
    let qm: i64 = mm / SCALE;
    let q: i64 = if m >= 0 { qm } else { -qm };
    proof {
        crate::fx::lemma_tdiv_bounds(m as int, SCALE as int);
    }
    if q < 0 {
        0
    } else if q > PHONG_EXP_CAP {
        PHONG_EXP_CAP as u32
    } else {
        q as u32
    }
}

/// The local Phong shading at a hit: shadowed light intensity, textured
/// or flat base color with the glow boosts, emissive-source light, and
/// the specular highlight, blended by the first two albedo weights.
pub open spec fn spec_shade_local(
    hit: Intersect,
    ro: Vec3,
    objects: Seq<Cube>,
    srcs: Seq<EmissiveSource>,
    light: Light,
    tm: TextureManager,
    q: QualitySettings,
) -> Vec3 {
    let light_dir = Vec3::spec_normalized(Vec3::spec_sub(light.position, hit.point));
    let view_dir = Vec3::spec_normalized(Vec3::spec_sub(ro, hit.point));
    let reflect_dir = Vec3::spec_normalized(spec_reflect(Vec3::spec_neg(light_dir), hit.normal));
    let shadow_intensity = if q.shadow_quality > 0 {
        fmul(spec_cast_shadow(hit, light, objects), q.shadow_quality as int)
    } else {
        0
    };
    let light_intensity = fmul(light.intensity as int, fsub(SCALE as int, shadow_intensity));
    let diffuse_color = match hit.material.texture_id {
        Some(id) => {
            let tex = spec_pixel_color(tm, id as int, hit.u as int, hit.v as int);
            if hit.material.glow {
                Vec3::spec_scale(tex, GLOW_BOOST as int)
            } else {
                tex
            }
        },
        None => hit.material.diffuse,
    };
    let diffuse_intensity = fmul(
        fmax(Vec3::spec_dot(hit.normal, light_dir), 0),
        light_intensity,
    );
    let diffuse0 = Vec3::spec_scale(diffuse_color, diffuse_intensity);
    let diffuse1 = if hit.material.texture_id is Some && hit.material.glow {
        Vec3::spec_add(diffuse0, Vec3::spec_scale(diffuse_color, GLOW_ADD as int))
    } else {
        diffuse0
    };
    let emissive_light = spec_emissive(hit.point, hit.normal, srcs, q);
    let diffuse2 = Vec3::spec_add(diffuse1, Vec3::spec_mul_comp(diffuse_color, emissive_light));
    let specular_intensity = fmul(
        fpow(
            fmax(Vec3::spec_dot(view_dir, reflect_dir), 0),
            spec_phong_exp(hit.material.specular as int) as nat,
        ),
        light_intensity,
    );
    let specular = Vec3::spec_scale(light.color, specular_intensity);
    Vec3::spec_add(
        Vec3::spec_scale(diffuse2, hit.material.albedo[0] as int),
        Vec3::spec_scale(specular, hit.material.albedo[1] as int),
    )
}

fn shade_local(
    hit: &Intersect,
    ro: &Vec3,
    objects: &Vec<Cube>,
    srcs: &Vec<EmissiveSource>,
    light: &Light,
    tm: &TextureManager,
    q: &QualitySettings,
) -> (r: Vec3)
    requires
        hit.wf(),
        ro.wf(),
        forall|i: int| 0 <= i < objects@.len() ==> (#[trigger] objects@[i]).wf(),
        forall|i: int| 0 <= i < srcs@.len() ==> (#[trigger] srcs@[i]).wf(),
        light.wf(),
        tm.wf(),
        q.wf(),
    ensures
        r == spec_shade_local(*hit, *ro, objects@, srcs@, *light, *tm, *q),
        r.wf(),
{
    let light_dir = light.position.sub(hit.point).normalized();
    let view_dir = ro.sub(hit.point).normalized();
    let reflect_dir = reflect(&light_dir.neg(), &hit.normal).normalized();
    let shadow_intensity = if q.shadow_quality > 0 {
        fx_mul(cast_shadow(hit, light, objects), q.shadow_quality)
    } else {
        0
    };
    let light_intensity = fx_mul(light.intensity, fx_sub(SCALE, shadow_intensity));
    let diffuse_color = match hit.material.texture_id {
        Some(id) => {
            let tex = tm.get_pixel_color(id, hit.u, hit.v);
            if hit.material.glow {
                tex.scale(GLOW_BOOST)
            } else {
                tex
            }
        },
        None => hit.material.diffuse,
    };
    let diffuse_intensity = fx_mul(fx_max(hit.normal.dot(light_dir), 0), light_intensity);
    let mut diffuse = diffuse_color.scale(diffuse_intensity);
    if hit.material.texture_id.is_some() && hit.material.glow {
        diffuse = diffuse.add(diffuse_color.scale(GLOW_ADD));
    }
    let emissive_light = calculate_emissive_lighting(hit.point, hit.normal, srcs, q);
    diffuse = diffuse.add(diffuse_color.mul_comp(emissive_light));
    let specular_intensity = fx_mul(
        fx_pow(fx_max(view_dir.dot(reflect_dir), 0), phong_exp(hit.material.specular)),
        light_intensity,
    );
    let specular = light.color.scale(specular_intensity);
    diffuse.scale(hit.material.albedo[0]).add(specular.scale(hit.material.albedo[1]))
}

/// The color a ray gathers from the scene.
///
/// Beyond the tier's depth cap this is the sky color, with no scene
/// interaction at all. Otherwise the nearest hit (or, if none, the sky)
/// is shaded locally; reflective and transmissive materials recurse one
/// depth deeper, and the parts are blended by the albedo weights, the
/// local part's weight floored at zero, plus the material's own emission.
pub open spec fn spec_cast_ray(
    ro: Vec3,
    rd: Vec3,
    objects: Seq<Cube>,
    srcs: Seq<EmissiveSource>,
    light: Light,
    tm: TextureManager,
    depth: u32,
    q: QualitySettings,
) -> Vec3
    decreases (if depth > q.max_ray_depth { 0int } else { q.max_ray_depth + 1 - depth }),
{
    if depth > q.max_ray_depth {
        spec_sky(rd)
    } else {
        let hit = spec_nearest(objects, ro, rd);
        if !hit.is_intersecting {
            spec_sky(rd)
        } else {
            let phong = spec_shade_local(hit, ro, objects, srcs, light, tm, q);
            let reflectivity = fclamp(hit.material.albedo[2] as int, 0, SCALE as int);
            let reflect_color = if reflectivity > 0 && depth < q.max_ray_depth {
                let rdir = Vec3::spec_normalized(spec_reflect(rd, hit.normal));
                let rorig = spec_offset_origin(hit, rdir);
                spec_cast_ray(rorig, rdir, objects, srcs, light, tm, (depth + 1) as u32, q)
            } else {
                Vec3 { x: 0, y: 0, z: 0 }
            };
            let transparency = if q.enable_refraction {
                fclamp(hit.material.albedo[3] as int, 0, SCALE as int)
            } else {
                0
            };
            let refract_color = if transparency > 0 && depth < q.max_ray_depth {
                let refr_index = fmax(hit.material.refractive_index as int, SCALE as int);
                let incident = Vec3::spec_normalized(rd);
                match spec_refract(incident, hit.normal, refr_index) {
                    Some(rdir) => {
                        let rorig = spec_offset_origin(hit, rdir);
                        spec_cast_ray(rorig, rdir, objects, srcs, light, tm, (depth + 1) as u32, q)
                    },
                    None => Vec3 { x: 0, y: 0, z: 0 },
                }
            } else {
                Vec3 { x: 0, y: 0, z: 0 }
            };
            let base_weight = fmax(fsub(fsub(SCALE as int, reflectivity), transparency), 0);
            let emission = Vec3::spec_scale(
                hit.material.emission,
                hit.material.emission_strength as int,
            );
            Vec3::spec_add(
                Vec3::spec_add(
                    Vec3::spec_add(
                        Vec3::spec_scale(phong, base_weight),
                        Vec3::spec_scale(reflect_color, reflectivity),
                    ),
                    Vec3::spec_scale(refract_color, transparency),
                ),
                emission,
            )
        }
    }
}

pub fn cast_ray(
    ro: &Vec3,
    rd: &Vec3,
    objects: &Vec<Cube>,
    emissive_sources: &Vec<EmissiveSource>,
    light: &Light,
    texture_manager: &TextureManager,
    depth: u32,
    quality: &QualitySettings,
) -> (r: Vec3)
    requires
        ro.wf(),
        rd.wf(),
        forall|i: int| 0 <= i < objects@.len() ==> (#[trigger] objects@[i]).wf(),
        forall|i: int| 0 <= i < emissive_sources@.len()
            ==> (#[trigger] emissive_sources@[i]).wf(),
        light.wf(),
        texture_manager.wf(),
        quality.wf(),
    ensures
        r == spec_cast_ray(
            *ro, *rd, objects@, emissive_sources@, *light, *texture_manager, depth, *quality),
        r.wf(),
    decreases (if depth > quality.max_ray_depth {
        0int
    } else {
        quality.max_ray_depth + 1 - depth
    }),
{
    if depth > quality.max_ray_depth {
        return procedural_sky(rd);
    }

    let hit = nearest_intersect(objects, *ro, *rd);
    if !hit.is_intersecting {
        return procedural_sky(rd);
    }

    let phong = shade_local(&hit, ro, objects, emissive_sources, light, texture_manager,
        quality);

    let reflectivity = fx_clamp(hit.material.albedo[2], 0, SCALE);
    let reflect_color = if reflectivity > 0 && depth < quality.max_ray_depth {
        let rdir = reflect(rd, &hit.normal).normalized();
        let rorig = offset_origin(&hit, &rdir);
        cast_ray(&rorig, &rdir, objects, emissive_sources, light, texture_manager,
            depth + 1, quality)
    } else {
        Vec3 { x: 0, y: 0, z: 0 }
    };

    let transparency = if quality.enable_refraction {
        fx_clamp(hit.material.albedo[3], 0, SCALE)
    } else {
        0
    };
    let refract_color = if transparency > 0 && depth < quality.max_ray_depth {
        let refr_index = fx_max(hit.material.refractive_index, SCALE);
        let incident = rd.normalized();
        match refract(&incident, &hit.normal, refr_index) {
            Some(rdir) => {
                let rorig = offset_origin(&hit, &rdir);
                cast_ray(&rorig, &rdir, objects, emissive_sources, light, texture_manager,
                    depth + 1, quality)
            },
            None => Vec3 { x: 0, y: 0, z: 0 },
        }
    } else {
        Vec3 { x: 0, y: 0, z: 0 }
    };

    let base_weight = fx_max(fx_sub(fx_sub(SCALE, reflectivity), transparency), 0);
    let emission = hit.material.emission.scale(hit.material.emission_strength);

    phong.scale(base_weight)
        .add(reflect_color.scale(reflectivity))
        .add(refract_color.scale(transparency))
        .add(emission)
}

/// Beyond the tier's depth cap, a ray's color is the sky color alone,
/// whatever the scene, the lights or the textures hold: no intersection
/// enters the result.
pub proof fn lemma_depth_cap_returns_sky(
    ro: Vec3,
    rd: Vec3,
    objects: Seq<Cube>,
    srcs: Seq<EmissiveSource>,
    light: Light,
    tm: TextureManager,
    depth: u32,
    q: QualitySettings,
)
    requires
        depth > q.max_ray_depth,
    ensures
        spec_cast_ray(ro, rd, objects, srcs, light, tm, depth, q) == spec_sky(rd),
{
}

/// For a fully opaque, non-reflective, non-refractive material (albedo
/// `[1, 0, 0, 0]`), the ray's color is exactly the local Phong diffuse
/// term plus the material's own emission: the specular weight, the
/// recursive reflection and the refraction all contribute nothing.
pub proof fn lemma_opaque_hit_is_local_phong(
    ro: Vec3,
    rd: Vec3,
    objects: Seq<Cube>,
    srcs: Seq<EmissiveSource>,
    light: Light,
    tm: TextureManager,
    depth: u32,
    q: QualitySettings,
)
    requires
        depth <= q.max_ray_depth,
        spec_nearest(objects, ro, rd).is_intersecting,
        spec_nearest(objects, ro, rd).material.albedo[0] == SCALE,
        spec_nearest(objects, ro, rd).material.albedo[1] == 0,
        spec_nearest(objects, ro, rd).material.albedo[2] == 0,
        spec_nearest(objects, ro, rd).material.albedo[3] == 0,
    ensures
        spec_cast_ray(ro, rd, objects, srcs, light, tm, depth, q) == Vec3::spec_add(
            spec_shade_local(spec_nearest(objects, ro, rd), ro, objects, srcs, light, tm, q),
            Vec3::spec_scale(
                spec_nearest(objects, ro, rd).material.emission,
                spec_nearest(objects, ro, rd).material.emission_strength as int,
            ),
        ),
{
    let hit = spec_nearest(objects, ro, rd);
    let phong = spec_shade_local(hit, ro, objects, srcs, light, tm, q);
    let zero = Vec3 { x: 0, y: 0, z: 0 };
    assert(fclamp(0, 0, SCALE as int) == 0);
    let reflectivity = fclamp(hit.material.albedo[2] as int, 0, SCALE as int);
    let transparency = if q.enable_refraction {
        fclamp(hit.material.albedo[3] as int, 0, SCALE as int)
    } else {
        0
    };
    assert(reflectivity == 0 && transparency == 0);
    let base_weight = fmax(fsub(fsub(SCALE as int, 0), 0), 0);
    assert(base_weight == SCALE as int);
    assert(in_range(phong.x as int) && in_range(phong.y as int) && in_range(phong.z as int));
    lemma_scale_by_one(phong);
    lemma_scale_by_zero(zero);
    let emission = Vec3::spec_scale(hit.material.emission,
        hit.material.emission_strength as int);
    assert(Vec3::spec_add(Vec3::spec_scale(phong, SCALE as int), Vec3::spec_scale(zero, 0))
        == Vec3::spec_add(phong, zero));
    assert(Vec3::spec_add(phong, zero) == phong);
}

/// Scaling by the fixed-point one is the identity on representable
/// vectors.
pub proof fn lemma_scale_by_one(v: Vec3)
    requires
        v.wf(),
    ensures
        Vec3::spec_scale(v, SCALE as int) == v,
{
    lemma_fmul_by_scale(v.x as int);
    lemma_fmul_by_scale(v.y as int);
    lemma_fmul_by_scale(v.z as int);
}

/// Scaling any vector by zero gives the zero vector.
pub proof fn lemma_scale_by_zero(v: Vec3)
    ensures
        Vec3::spec_scale(v, 0) == (Vec3 { x: 0, y: 0, z: 0 }),
{
    assert(v.x as int * 0 == 0 && v.y as int * 0 == 0 && v.z as int * 0 == 0);
    assert(tdiv(0, SCALE as int) == 0) by {
        vstd::arithmetic::div_mod::lemma_div_of0(SCALE as int);
    }
}

/// Multiplying a representable value by the fixed-point one returns it.
pub proof fn lemma_fmul_by_scale(a: int)
    requires
        in_range(a),
    ensures
        fmul(a, SCALE as int) == a,
{
    if a >= 0 {
        vstd::arithmetic::div_mod::lemma_div_multiples_vanish(a, SCALE as int);
    } else {
        vstd::arithmetic::div_mod::lemma_div_multiples_vanish(-a, SCALE as int);
        assert((-(a * SCALE as int)) == (-a) * SCALE as int) by (nonlinear_arith);
    }
}

} // verus!
