//! The solid primitive: an axis-aligned cube, and ray/cube intersection by
//! the slab method.

use vstd::prelude::*;
use crate::fx::{
    fabs_s, fadd, fclamp, fdiv, fmax, fmin, fmul, fneg, fsub, fx_abs, fx_add, fx_clamp, fx_div,
    fx_max, fx_min, fx_mul, fx_neg, fx_sub, in_range, lemma_fdiv_unit, FX_HALF, FX_LIM, SCALE,
};
use crate::material::Material;
use crate::vec3::Vec3;

verus! {

/// Distance of a boundary-face candidate may deviate from the face plane by
/// at most this much (about 10^-3 in real units).
pub const FACE_EPS: i64 = 66;

/// An axis-aligned box `[center - half, center + half]` with a material.
#[derive(Clone, Copy, Debug)]
pub struct Cube {
    pub center: Vec3,
    pub half: Vec3,
    pub material: Material,
}

/// The per-ray hit record. A missing hit is the `empty()` sentinel with
/// `is_intersecting == false` and the saturated maximum as its distance.
#[derive(Clone, Copy, Debug)]
pub struct Intersect {
    pub is_intersecting: bool,
    pub distance: i64,
    pub point: Vec3,
    pub normal: Vec3,
    pub u: i64,
    pub v: i64,
    pub material: Material,
}

impl Intersect {
    /// Every field representable; a real hit lies at a non-negative
    /// distance with face coordinates in `[0, 1]`.
    pub open spec fn wf(self) -> bool {
        &&& in_range(self.distance as int)
        &&& self.point.wf()
        &&& self.normal.wf()
        &&& in_range(self.u as int) && in_range(self.v as int)
        &&& self.material.wf()
        &&& self.is_intersecting ==> self.distance >= 0 && 0 <= self.u <= SCALE
            && 0 <= self.v <= SCALE
    }

    pub open spec fn spec_empty() -> Intersect {
        Intersect {
            is_intersecting: false,
            distance: FX_LIM,
            point: Vec3 { x: 0, y: 0, z: 0 },
            normal: Vec3 { x: 0, y: 0, z: 0 },
            u: 0,
            v: 0,
            material: Material {
                diffuse: Vec3 { x: 0, y: 0, z: 0 },
                albedo: [0i64, 0i64, 0i64, 0i64],
                specular: 0,
                refractive_index: 0,
                texture_id: None::<usize>,
                glow: false,
                emission: Vec3 { x: 0, y: 0, z: 0 },
                emission_strength: 0,
            },
        }
    }

    pub fn empty() -> (r: Intersect)
        ensures
            r == Intersect::spec_empty(),
    {
        Intersect {
            is_intersecting: false,
            distance: FX_LIM,
            point: Vec3 { x: 0, y: 0, z: 0 },
            normal: Vec3 { x: 0, y: 0, z: 0 },
            u: 0,
            v: 0,
            material: Material::black(),
        }
    }
}

/// The unit-length axis component carrying the sign of `a` (the sign of
/// zero counts as positive).
pub open spec fn sign_unit(a: int) -> int {
    if a >= 0 {
        SCALE as int
    } else {
        -(SCALE as int)
    }
}

/// Smaller parametric distance at which the ray crosses one slab's planes.
pub open spec fn axis_tmin(lo: int, hi: int, o: int, d: int) -> int {
    fmin(fdiv(fsub(lo, o), d), fdiv(fsub(hi, o), d))
}

/// Larger parametric distance at which the ray crosses one slab's planes.
pub open spec fn axis_tmax(lo: int, hi: int, o: int, d: int) -> int {
    fmax(fdiv(fsub(lo, o), d), fdiv(fsub(hi, o), d))
}

impl Cube {
    /// Positive half-extents, everything representable.
    pub open spec fn wf(self) -> bool {
        &&& self.center.wf()
        &&& self.half.wf()
        &&& self.half.x > 0 && self.half.y > 0 && self.half.z > 0
        &&& self.material.wf()
    }

    pub fn new(center: Vec3, half: Vec3, material: Material) -> (r: Cube)
        requires
            center.wf(),
            half.wf(),
            half.x > 0 && half.y > 0 && half.z > 0,
            material.wf(),
        ensures
            r == (Cube { center, half, material }),
            r.wf(),
    {
        Cube { center, half, material }
    }

    pub open spec fn spec_min_bound(self) -> Vec3 {
        Vec3::spec_sub(self.center, self.half)
    }

    pub open spec fn spec_max_bound(self) -> Vec3 {
        Vec3::spec_add(self.center, self.half)
    }

    /// The ray runs parallel to some slab and starts outside it, so it can
    /// never enter the box.
    pub open spec fn spec_parallel_miss(self, ro: Vec3, rd: Vec3) -> bool {
        let mn = self.spec_min_bound();
        let mx = self.spec_max_bound();
        ||| (rd.x == 0 && (ro.x < mn.x || ro.x > mx.x))
        ||| (rd.y == 0 && (ro.y < mn.y || ro.y > mx.y))
        ||| (rd.z == 0 && (ro.z < mn.z || ro.z > mx.z))
    }

    /// Entry distance: the largest per-axis slab entry (an axis the ray is
    /// parallel to constrains nothing).
    pub open spec fn spec_tnear(self, ro: Vec3, rd: Vec3) -> int {
        let mn = self.spec_min_bound();
        let mx = self.spec_max_bound();
        let tx = if rd.x == 0 { -(FX_LIM as int) } else {
            axis_tmin(mn.x as int, mx.x as int, ro.x as int, rd.x as int)
        };
        let ty = if rd.y == 0 { -(FX_LIM as int) } else {
            axis_tmin(mn.y as int, mx.y as int, ro.y as int, rd.y as int)
        };
        let tz = if rd.z == 0 { -(FX_LIM as int) } else {
            axis_tmin(mn.z as int, mx.z as int, ro.z as int, rd.z as int)
        };
        fmax(fmax(tx, ty), tz)
    }

    /// Exit distance: the smallest per-axis slab exit.
    pub open spec fn spec_tfar(self, ro: Vec3, rd: Vec3) -> int {
        let mn = self.spec_min_bound();
        let mx = self.spec_max_bound();
        let tx = if rd.x == 0 { FX_LIM as int } else {
            axis_tmax(mn.x as int, mx.x as int, ro.x as int, rd.x as int)
        };
        let ty = if rd.y == 0 { FX_LIM as int } else {
            axis_tmax(mn.y as int, mx.y as int, ro.y as int, rd.y as int)
        };
        let tz = if rd.z == 0 { FX_LIM as int } else {
            axis_tmax(mn.z as int, mx.z as int, ro.z as int, rd.z as int)
        };
        fmin(fmin(tx, ty), tz)
    }

    /// The hit distance, if any: the slab intervals must overlap and the
    /// box must not lie entirely behind the ray; a ray starting inside
    /// (negative entry) hits at the exit.
    pub open spec fn spec_hit_t(self, ro: Vec3, rd: Vec3) -> Option<i64> {
        if self.spec_parallel_miss(ro, rd) {
            None
        } else {
            let tn = self.spec_tnear(ro, rd);
            let tf = self.spec_tfar(ro, rd);
            if tn > tf || tf < 0 {
                None
            } else if tn >= 0 {
                Some(tn as i64)
            } else {
                Some(tf as i64)
            }
        }
    }

    /// Face selection at a boundary point: the axis whose face plane the
    /// point lies closest to (ties broken x, then y, then z; z is the
    /// fallback), the outward unit normal on that axis, and the face's
    /// texture coordinates in `[0, 1]` (with the flips that keep textures
    /// unmirrored).
    pub open spec fn spec_face(self, p: Vec3) -> (Vec3, i64, i64) {
        let local = Vec3::spec_sub(p, self.center);
        let dx = fabs_s(fsub(fabs_s(local.x as int), self.half.x as int));
        let dy = fabs_s(fsub(fabs_s(local.y as int), self.half.y as int));
        let dz = fabs_s(fsub(fabs_s(local.z as int), self.half.z as int));
        if dx <= dy && dx <= dz && dx < FACE_EPS {
            let n = Vec3 { x: sign_unit(local.x as int) as i64, y: 0, z: 0 };
            let u = fclamp(fmul(fadd(fdiv(local.z as int, self.half.z as int), SCALE as int),
                FX_HALF as int), 0, SCALE as int);
            let v = fclamp(fmul(fadd(fdiv(local.y as int, self.half.y as int), SCALE as int),
                FX_HALF as int), 0, SCALE as int);
            (n, u as i64, fsub(SCALE as int, v) as i64)
        } else if dy <= dx && dy <= dz && dy < FACE_EPS {
            let n = Vec3 { x: 0, y: sign_unit(local.y as int) as i64, z: 0 };
            let u = fclamp(fmul(fadd(fdiv(local.x as int, self.half.x as int), SCALE as int),
                FX_HALF as int), 0, SCALE as int);
            let v = fclamp(fmul(fadd(fdiv(local.z as int, self.half.z as int), SCALE as int),
                FX_HALF as int), 0, SCALE as int);
            (n, u as i64, v as i64)
        } else {
            let n = Vec3 { x: 0, y: 0, z: sign_unit(local.z as int) as i64 };
            let u = if local.z > 0 {
                fclamp(fmul(fadd(fdiv(local.x as int, self.half.x as int), SCALE as int),
                    FX_HALF as int), 0, SCALE as int)
            } else {
                fclamp(fmul(fadd(fdiv(fneg(local.x as int), self.half.x as int), SCALE as int),
                    FX_HALF as int), 0, SCALE as int)
            };
            let v = fclamp(fmul(fadd(fdiv(local.y as int, self.half.y as int), SCALE as int),
                FX_HALF as int), 0, SCALE as int);
            (n, u as i64, fsub(SCALE as int, v) as i64)
        }
    }

    /// The full intersection result: distance, outward face normal, and
    /// face texture coordinates.
    pub open spec fn spec_intersect(self, ro: Vec3, rd: Vec3) -> Option<(i64, Vec3, i64, i64)> {
        match self.spec_hit_t(ro, rd) {
            None => None,
            Some(t) => {
                let p = Vec3::spec_add(ro, Vec3::spec_scale(rd, t as int));
                let (n, u, v) = self.spec_face(p);
                Some((t, n, u, v))
            },
        }
    }

    /// The slab phase: entry/exit interval intersection over the three
    /// axes, yielding the hit distance if the ray meets the box.
    fn hit_t(&self, ro: Vec3, rd: Vec3) -> (r: Option<i64>)
        requires
            self.wf(),
            ro.wf(),
            rd.wf(),
        ensures
            r == self.spec_hit_t(ro, rd),
            match r {
                Some(t) => t >= 0 && in_range(t as int),
                None => true,
            },
    {
        let minb = self.center.sub(self.half);
        let maxb = self.center.add(self.half);

        if rd.x == 0 && (ro.x < minb.x || ro.x > maxb.x) {
            return None;
        }
        if rd.y == 0 && (ro.y < minb.y || ro.y > maxb.y) {
            return None;
        }
        if rd.z == 0 && (ro.z < minb.z || ro.z > maxb.z) {
            return None;
        }

        let tnx = if rd.x == 0 { -FX_LIM } else {
            fx_min(fx_div(fx_sub(minb.x, ro.x), rd.x), fx_div(fx_sub(maxb.x, ro.x), rd.x))
        };
        let tny = if rd.y == 0 { -FX_LIM } else {
            fx_min(fx_div(fx_sub(minb.y, ro.y), rd.y), fx_div(fx_sub(maxb.y, ro.y), rd.y))
        };
        let tnz = if rd.z == 0 { -FX_LIM } else {
            fx_min(fx_div(fx_sub(minb.z, ro.z), rd.z), fx_div(fx_sub(maxb.z, ro.z), rd.z))
        };
        let tfx = if rd.x == 0 { FX_LIM } else {
            fx_max(fx_div(fx_sub(minb.x, ro.x), rd.x), fx_div(fx_sub(maxb.x, ro.x), rd.x))
        };
        let tfy = if rd.y == 0 { FX_LIM } else {
            fx_max(fx_div(fx_sub(minb.y, ro.y), rd.y), fx_div(fx_sub(maxb.y, ro.y), rd.y))
        };
        let tfz = if rd.z == 0 { FX_LIM } else {
            fx_max(fx_div(fx_sub(minb.z, ro.z), rd.z), fx_div(fx_sub(maxb.z, ro.z), rd.z))
        };

        let t_near = fx_max(fx_max(tnx, tny), tnz);
        let t_far = fx_min(fx_min(tfx, tfy), tfz);

        if t_near > t_far || t_far < 0 {
            return None;
        }

        if t_near >= 0 {
            Some(t_near)
        } else {
            Some(t_far)
        }
    }

    /// The face phase: outward normal and texture coordinates at a
    /// boundary point.
    fn face_at(&self, p: Vec3) -> (r: (Vec3, i64, i64))
        requires
            self.wf(),
            p.wf(),
        ensures
            r == self.spec_face(p),
            (r.0 == (Vec3 { x: SCALE, y: 0, z: 0 })
                || r.0 == (Vec3 { x: (-SCALE) as i64, y: 0, z: 0 })
                || r.0 == (Vec3 { x: 0, y: SCALE, z: 0 })
                || r.0 == (Vec3 { x: 0, y: (-SCALE) as i64, z: 0 })
                || r.0 == (Vec3 { x: 0, y: 0, z: SCALE })
                || r.0 == (Vec3 { x: 0, y: 0, z: (-SCALE) as i64 })),
            0 <= r.1 <= SCALE,
            0 <= r.2 <= SCALE,
    {
        let local = p.sub(self.center);

        let dx = fx_abs(fx_sub(fx_abs(local.x), self.half.x));
        let dy = fx_abs(fx_sub(fx_abs(local.y), self.half.y));
        let dz = fx_abs(fx_sub(fx_abs(local.z), self.half.z));

        if dx <= dy && dx <= dz && dx < FACE_EPS {
            let n = Vec3 { x: if local.x >= 0 { SCALE } else { -SCALE }, y: 0, z: 0 };
            let u = fx_clamp(
                fx_mul(fx_add(fx_div(local.z, self.half.z), SCALE), FX_HALF), 0, SCALE);
            let v = fx_clamp(
                fx_mul(fx_add(fx_div(local.y, self.half.y), SCALE), FX_HALF), 0, SCALE);
            (n, u, fx_sub(SCALE, v))
        } else if dy <= dx && dy <= dz && dy < FACE_EPS {
            let n = Vec3 { x: 0, y: if local.y >= 0 { SCALE } else { -SCALE }, z: 0 };
            let u = fx_clamp(
                fx_mul(fx_add(fx_div(local.x, self.half.x), SCALE), FX_HALF), 0, SCALE);
            let v = fx_clamp(
                fx_mul(fx_add(fx_div(local.z, self.half.z), SCALE), FX_HALF), 0, SCALE);
            (n, u, v)
        } else {
            let n = Vec3 { x: 0, y: 0, z: if local.z >= 0 { SCALE } else { -SCALE } };
            let u = if local.z > 0 {
                fx_clamp(
                    fx_mul(fx_add(fx_div(local.x, self.half.x), SCALE), FX_HALF), 0, SCALE)
            } else {
                fx_clamp(
                    fx_mul(fx_add(fx_div(fx_neg(local.x), self.half.x), SCALE), FX_HALF),
                    0, SCALE)
            };
            let v = fx_clamp(
                fx_mul(fx_add(fx_div(local.y, self.half.y), SCALE), FX_HALF), 0, SCALE);
            (n, u, fx_sub(SCALE, v))
        }
    }

    /// Slab-method ray/box intersection.
    ///
    /// Returns `None` when the per-axis entry/exit intervals do not
    /// overlap at a non-negative distance. On a hit, the distance is
    /// non-negative, the normal is one of the six unit axis directions,
    /// and the texture coordinates lie in `[0, 1]`.
    pub fn intersect(&self, ro: Vec3, rd: Vec3) -> (r: Option<(i64, Vec3, i64, i64)>)
        requires
            self.wf(),
            ro.wf(),
            rd.wf(),
        ensures
            r == self.spec_intersect(ro, rd),
            match r {
                Some(hit) => {
                    &&& hit.0 >= 0
                    &&& in_range(hit.0 as int)
                    &&& (hit.1 == (Vec3 { x: SCALE, y: 0, z: 0 })
                        || hit.1 == (Vec3 { x: (-SCALE) as i64, y: 0, z: 0 })
                        || hit.1 == (Vec3 { x: 0, y: SCALE, z: 0 })
                        || hit.1 == (Vec3 { x: 0, y: (-SCALE) as i64, z: 0 })
                        || hit.1 == (Vec3 { x: 0, y: 0, z: SCALE })
                        || hit.1 == (Vec3 { x: 0, y: 0, z: (-SCALE) as i64 }))
                    &&& 0 <= hit.2 <= SCALE
                    &&& 0 <= hit.3 <= SCALE
                },
                None => true,
            },
    {
        match self.hit_t(ro, rd) {
            None => None,
            Some(t) => {
                let p = ro.add(rd.scale(t));
                let (n, u, v) = self.face_at(p);
                Some((t, n, u, v))
            },
        }
    }

    /// The intersection as a full hit record; a miss yields the empty
    /// sentinel.
    pub open spec fn spec_ray_intersect(self, ro: Vec3, rd: Vec3) -> Intersect {
        match self.spec_intersect(ro, rd) {
            None => Intersect::spec_empty(),
            Some(hit) => Intersect {
                is_intersecting: true,
                distance: hit.0,
                point: Vec3::spec_add(ro, Vec3::spec_scale(rd, hit.0 as int)),
                normal: hit.1,
                u: hit.2,
                v: hit.3,
                material: self.material,
            },
        }
    }

    pub fn ray_intersect(&self, ro: &Vec3, rd: &Vec3) -> (r: Intersect)
        requires
            self.wf(),
            ro.wf(),
            rd.wf(),
        ensures
            r == self.spec_ray_intersect(*ro, *rd),
    {
        match self.intersect(*ro, *rd) {
            Some((t, normal, u, v)) => {
                let point = ro.add(rd.scale(t));
                Intersect {
                    is_intersecting: true,
                    distance: t,
                    point,
                    normal,
                    u,
                    v,
                    material: self.material,
                }
            },
            None => Intersect::empty(),
        }
    }
}

/// What the library may assume of any hit record a cube yields: it is
/// well formed, and a real hit lies at a non-negative distance.
pub proof fn lemma_ray_intersect_wf(c: Cube, ro: Vec3, rd: Vec3)
    requires
        c.wf(),
        ro.wf(),
        rd.wf(),
    ensures
        c.spec_ray_intersect(ro, rd).wf(),
        c.spec_ray_intersect(ro, rd).material == c.material
            || c.spec_ray_intersect(ro, rd) == Intersect::spec_empty(),
{
    let r = c.spec_ray_intersect(ro, rd);
    match c.spec_intersect(ro, rd) {
        None => {
            assert(r == Intersect::spec_empty());
        },
        Some(hit) => {
            let t = c.spec_hit_t(ro, rd).unwrap();
            let tn = c.spec_tnear(ro, rd);
            let tf = c.spec_tfar(ro, rd);
            assert(in_range(tn) && in_range(tf));
            assert(t == hit.0 && hit.0 >= 0 && in_range(hit.0 as int));
            let p = Vec3::spec_add(ro, Vec3::spec_scale(rd, t as int));
            assert(p.wf());
            let face = c.spec_face(p);
            assert(face.0.wf());
            assert(0 <= face.1 <= SCALE && 0 <= face.2 <= SCALE);
            assert(r.point == p && r.normal == face.0 && r.u == face.1 && r.v == face.2);
        },
    }
}

/// A ray whose origin lies inside the box — strictly, by at least one
/// truncation step of the direction on every axis — hits it, and the hit
/// distance is the exit distance (`t_far`), not the entry.
pub proof fn lemma_inside_ray_exits(c: Cube, ro: Vec3, rd: Vec3)
    requires
        c.wf(),
        ro.wf(),
        rd.wf(),
        rd.x != 0 ==> fsub(c.spec_min_bound().x as int, ro.x as int) * (SCALE as int)
            <= -fabs_s(rd.x as int)
            && fsub(c.spec_max_bound().x as int, ro.x as int) * (SCALE as int)
                >= fabs_s(rd.x as int),
        rd.x == 0 ==> c.spec_min_bound().x <= ro.x <= c.spec_max_bound().x,
        rd.y != 0 ==> fsub(c.spec_min_bound().y as int, ro.y as int) * (SCALE as int)
            <= -fabs_s(rd.y as int)
            && fsub(c.spec_max_bound().y as int, ro.y as int) * (SCALE as int)
                >= fabs_s(rd.y as int),
        rd.y == 0 ==> c.spec_min_bound().y <= ro.y <= c.spec_max_bound().y,
        rd.z != 0 ==> fsub(c.spec_min_bound().z as int, ro.z as int) * (SCALE as int)
            <= -fabs_s(rd.z as int)
            && fsub(c.spec_max_bound().z as int, ro.z as int) * (SCALE as int)
                >= fabs_s(rd.z as int),
        rd.z == 0 ==> c.spec_min_bound().z <= ro.z <= c.spec_max_bound().z,
    ensures
        c.spec_tnear(ro, rd) < 0 <= c.spec_tfar(ro, rd),
        c.spec_hit_t(ro, rd) == Some(c.spec_tfar(ro, rd) as i64),
        c.spec_ray_intersect(ro, rd).is_intersecting,
        c.spec_ray_intersect(ro, rd).distance == c.spec_tfar(ro, rd),
{
    let mn = c.spec_min_bound();
    let mx = c.spec_max_bound();
    assert(!c.spec_parallel_miss(ro, rd));
    if rd.x != 0 {
        lemma_fdiv_unit(fsub(mn.x as int, ro.x as int), rd.x as int);
        lemma_fdiv_unit(fsub(mx.x as int, ro.x as int), rd.x as int);
    }
    if rd.y != 0 {
        lemma_fdiv_unit(fsub(mn.y as int, ro.y as int), rd.y as int);
        lemma_fdiv_unit(fsub(mx.y as int, ro.y as int), rd.y as int);
    }
    if rd.z != 0 {
        lemma_fdiv_unit(fsub(mn.z as int, ro.z as int), rd.z as int);
        lemma_fdiv_unit(fsub(mx.z as int, ro.z as int), rd.z as int);
    }
    assert(c.spec_tnear(ro, rd) <= -1);
    assert(c.spec_tfar(ro, rd) >= 1);
}

/// A ray separated from the box by its x slab — parallel outside it, or
/// beyond one of its two planes and not approaching, by at least one
/// truncation step — misses.
pub proof fn lemma_separated_x_misses(c: Cube, ro: Vec3, rd: Vec3)
    requires
        c.wf(),
        ro.wf(),
        rd.wf(),
        (rd.x == 0 && (ro.x < c.spec_min_bound().x || ro.x > c.spec_max_bound().x))
            || (rd.x > 0 && fsub(c.spec_max_bound().x as int, ro.x as int) * (SCALE as int)
                <= -(rd.x as int))
            || (rd.x < 0 && fsub(c.spec_min_bound().x as int, ro.x as int) * (SCALE as int)
                >= -(rd.x as int)),
    ensures
        c.spec_hit_t(ro, rd) is None,
        c.spec_ray_intersect(ro, rd) == Intersect::spec_empty(),
{
    let mn = c.spec_min_bound();
    let mx = c.spec_max_bound();
    if c.spec_parallel_miss(ro, rd) {
    } else {
        let a1 = fsub(mn.x as int, ro.x as int);
        let a2 = fsub(mx.x as int, ro.x as int);
        assert(mn.x <= mx.x);
        assert(a1 <= a2);
        if rd.x > 0 {
            assert(a2 * (SCALE as int) <= -(rd.x as int));
            assert(a2 < 0 && a1 < 0);
            assert(a1 * (SCALE as int) <= a2 * (SCALE as int)) by (nonlinear_arith)
                requires a1 <= a2, SCALE == 65536,
            ;
            lemma_fdiv_unit(a1, rd.x as int);
            lemma_fdiv_unit(a2, rd.x as int);
            assert(axis_tmax(mn.x as int, mx.x as int, ro.x as int, rd.x as int) <= -1);
        } else {
            assert(rd.x < 0);
            assert(a1 * (SCALE as int) >= -(rd.x as int));
            assert(a1 > 0 && a2 > 0);
            assert(a2 * (SCALE as int) >= a1 * (SCALE as int)) by (nonlinear_arith)
                requires a1 <= a2, SCALE == 65536,
            ;
            lemma_fdiv_unit(a1, rd.x as int);
            lemma_fdiv_unit(a2, rd.x as int);
            assert(axis_tmax(mn.x as int, mx.x as int, ro.x as int, rd.x as int) <= -1);
        }
        assert(c.spec_tfar(ro, rd) <= -1);
    }
}

/// A ray separated from the box by its y slab — parallel outside it, or
/// beyond one of its two planes and not approaching, by at least one
/// truncation step — misses.
pub proof fn lemma_separated_y_misses(c: Cube, ro: Vec3, rd: Vec3)
    requires
        c.wf(),
        ro.wf(),
        rd.wf(),
        (rd.y == 0 && (ro.y < c.spec_min_bound().y || ro.y > c.spec_max_bound().y))
            || (rd.y > 0 && fsub(c.spec_max_bound().y as int, ro.y as int) * (SCALE as int)
                <= -(rd.y as int))
            || (rd.y < 0 && fsub(c.spec_min_bound().y as int, ro.y as int) * (SCALE as int)
                >= -(rd.y as int)),
    ensures
        c.spec_hit_t(ro, rd) is None,
        c.spec_ray_intersect(ro, rd) == Intersect::spec_empty(),
{
    let mn = c.spec_min_bound();
    let mx = c.spec_max_bound();
    if c.spec_parallel_miss(ro, rd) {
    } else {
        let a1 = fsub(mn.y as int, ro.y as int);
        let a2 = fsub(mx.y as int, ro.y as int);
        assert(mn.y <= mx.y);
        assert(a1 <= a2);
        if rd.y > 0 {
            assert(a2 * (SCALE as int) <= -(rd.y as int));
            assert(a2 < 0 && a1 < 0);
            assert(a1 * (SCALE as int) <= a2 * (SCALE as int)) by (nonlinear_arith)
                requires a1 <= a2, SCALE == 65536,
            ;
            lemma_fdiv_unit(a1, rd.y as int);
            lemma_fdiv_unit(a2, rd.y as int);
            assert(axis_tmax(mn.y as int, mx.y as int, ro.y as int, rd.y as int) <= -1);
        } else {
            assert(rd.y < 0);
            assert(a1 * (SCALE as int) >= -(rd.y as int));
            assert(a1 > 0 && a2 > 0);
            assert(a2 * (SCALE as int) >= a1 * (SCALE as int)) by (nonlinear_arith)
                requires a1 <= a2, SCALE == 65536,
            ;
            lemma_fdiv_unit(a1, rd.y as int);
            lemma_fdiv_unit(a2, rd.y as int);
            assert(axis_tmax(mn.y as int, mx.y as int, ro.y as int, rd.y as int) <= -1);
        }
        assert(c.spec_tfar(ro, rd) <= -1);
    }
}

/// A ray separated from the box by its z slab — parallel outside it, or
/// beyond one of its two planes and not approaching, by at least one
/// truncation step — misses.
pub proof fn lemma_separated_z_misses(c: Cube, ro: Vec3, rd: Vec3)
    requires
        c.wf(),
        ro.wf(),
        rd.wf(),
        (rd.z == 0 && (ro.z < c.spec_min_bound().z || ro.z > c.spec_max_bound().z))
            || (rd.z > 0 && fsub(c.spec_max_bound().z as int, ro.z as int) * (SCALE as int)
                <= -(rd.z as int))
            || (rd.z < 0 && fsub(c.spec_min_bound().z as int, ro.z as int) * (SCALE as int)
                >= -(rd.z as int)),
    ensures
        c.spec_hit_t(ro, rd) is None,
        c.spec_ray_intersect(ro, rd) == Intersect::spec_empty(),
{
    let mn = c.spec_min_bound();
    let mx = c.spec_max_bound();
    if c.spec_parallel_miss(ro, rd) {
    } else {
        let a1 = fsub(mn.z as int, ro.z as int);
        let a2 = fsub(mx.z as int, ro.z as int);
        assert(mn.z <= mx.z);
        assert(a1 <= a2);
        if rd.z > 0 {
            assert(a2 * (SCALE as int) <= -(rd.z as int));
            assert(a2 < 0 && a1 < 0);
            assert(a1 * (SCALE as int) <= a2 * (SCALE as int)) by (nonlinear_arith)
                requires a1 <= a2, SCALE == 65536,
            ;
            lemma_fdiv_unit(a1, rd.z as int);
            lemma_fdiv_unit(a2, rd.z as int);
            assert(axis_tmax(mn.z as int, mx.z as int, ro.z as int, rd.z as int) <= -1);
        } else {
            assert(rd.z < 0);
            assert(a1 * (SCALE as int) >= -(rd.z as int));
            assert(a1 > 0 && a2 > 0);
            assert(a2 * (SCALE as int) >= a1 * (SCALE as int)) by (nonlinear_arith)
                requires a1 <= a2, SCALE == 65536,
            ;
            lemma_fdiv_unit(a1, rd.z as int);
            lemma_fdiv_unit(a2, rd.z as int);
            assert(axis_tmax(mn.z as int, mx.z as int, ro.z as int, rd.z as int) <= -1);
        }
        assert(c.spec_tfar(ro, rd) <= -1);
    }
}

/// When a hit's normal lies on the x or y axis, the hit point stands
/// within the face epsilon of that axis's face plane (`|local| = half`).
/// The z axis is the fallback of the face selection and carries no such
/// bound.
pub proof fn lemma_hit_point_near_face(c: Cube, ro: Vec3, rd: Vec3)
    requires
        c.wf(),
        ro.wf(),
        rd.wf(),
        c.spec_intersect(ro, rd) is Some,
    ensures
        ({
            let hit = c.spec_intersect(ro, rd).unwrap();
            let p = Vec3::spec_add(ro, Vec3::spec_scale(rd, hit.0 as int));
            let local = Vec3::spec_sub(p, c.center);
            &&& hit.1.x != 0 ==> fabs_s(fsub(fabs_s(local.x as int), c.half.x as int))
                < FACE_EPS
            &&& hit.1.y != 0 ==> fabs_s(fsub(fabs_s(local.y as int), c.half.y as int))
                < FACE_EPS
        }),
{
}

} // verus!
