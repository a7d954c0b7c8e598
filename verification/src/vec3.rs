//! Three-component vector algebra over saturating fixed-point scalars.

use vstd::prelude::*;
use crate::fx::{
    fadd, fdiv, fmul, fneg, fsub, fx_add, fx_div, fx_mul, fx_neg, fx_sub, in_range, is_isqrt,
    isqrt_of, isqrt_u128, lemma_isqrt_unique, sat, FX_LIM,
};

verus! {

/// A vector (or a linear-space color) with fixed-point components.
#[derive(Clone, Copy, Debug, PartialEq, Eq, Structural)]
pub struct Vec3 {
    pub x: i64,
    pub y: i64,
    pub z: i64,
}

impl Vec3 {
    /// All components within the saturated fixed-point range.
    pub open spec fn wf(self) -> bool {
        in_range(self.x as int) && in_range(self.y as int) && in_range(self.z as int)
    }

    pub open spec fn spec_new(x: int, y: int, z: int) -> Vec3 {
        Vec3 { x: sat(x) as i64, y: sat(y) as i64, z: sat(z) as i64 }
    }

    pub open spec fn spec_add(a: Vec3, b: Vec3) -> Vec3 {
        Vec3 {
            x: fadd(a.x as int, b.x as int) as i64,
            y: fadd(a.y as int, b.y as int) as i64,
            z: fadd(a.z as int, b.z as int) as i64,
        }
    }

    pub open spec fn spec_sub(a: Vec3, b: Vec3) -> Vec3 {
        Vec3 {
            x: fsub(a.x as int, b.x as int) as i64,
            y: fsub(a.y as int, b.y as int) as i64,
            z: fsub(a.z as int, b.z as int) as i64,
        }
    }

    pub open spec fn spec_neg(a: Vec3) -> Vec3 {
        Vec3 {
            x: fneg(a.x as int) as i64,
            y: fneg(a.y as int) as i64,
            z: fneg(a.z as int) as i64,
        }
    }

    /// Scaling by a fixed-point scalar.
    pub open spec fn spec_scale(a: Vec3, s: int) -> Vec3 {
        Vec3 {
            x: fmul(a.x as int, s) as i64,
            y: fmul(a.y as int, s) as i64,
            z: fmul(a.z as int, s) as i64,
        }
    }

    /// Component-wise product (used to tint one color by another).
    pub open spec fn spec_mul_comp(a: Vec3, b: Vec3) -> Vec3 {
        Vec3 {
            x: fmul(a.x as int, b.x as int) as i64,
            y: fmul(a.y as int, b.y as int) as i64,
            z: fmul(a.z as int, b.z as int) as i64,
        }
    }

    /// The squared Euclidean norm in raw units (not rescaled).
    pub open spec fn norm2(a: Vec3) -> int {
        a.x as int * a.x as int + a.y as int * a.y as int + a.z as int * a.z as int
    }

    pub open spec fn spec_dot(a: Vec3, b: Vec3) -> int {
        sat(crate::fx::tdiv(
            a.x as int * b.x as int + a.y as int * b.y as int + a.z as int * b.z as int,
            crate::fx::SCALE as int,
        ))
    }

    pub open spec fn spec_cross(a: Vec3, b: Vec3) -> Vec3 {
        Vec3 {
            x: fsub(fmul(a.y as int, b.z as int), fmul(a.z as int, b.y as int)) as i64,
            y: fsub(fmul(a.z as int, b.x as int), fmul(a.x as int, b.z as int)) as i64,
            z: fsub(fmul(a.x as int, b.y as int), fmul(a.y as int, b.x as int)) as i64,
        }
    }

    /// The fixed-point length: integer square root of the squared norm.
    pub open spec fn spec_length(a: Vec3) -> int {
        sat(isqrt_of(Self::norm2(a)))
    }

    /// Zero-length vectors normalize to themselves; no division by zero.
    pub open spec fn spec_normalized(a: Vec3) -> Vec3 {
        let l = Self::spec_length(a);
        if l == 0 {
            a
        } else {
            Vec3 {
                x: fdiv(a.x as int, l) as i64,
                y: fdiv(a.y as int, l) as i64,
                z: fdiv(a.z as int, l) as i64,
            }
        }
    }

    /// Constructor; out-of-range components saturate.
    pub fn new(x: i64, y: i64, z: i64) -> (r: Vec3)
        ensures
            r == Self::spec_new(x as int, y as int, z as int),
            r.wf(),
    {
        Vec3 { x: fx_add(x, 0), y: fx_add(y, 0), z: fx_add(z, 0) }
    }

    pub fn zero() -> (r: Vec3)
        ensures
            r == (Vec3 { x: 0, y: 0, z: 0 }),
            r.wf(),
    {
        Vec3 { x: 0, y: 0, z: 0 }
    }

    pub fn add(self, o: Vec3) -> (r: Vec3)
        ensures
            r == Self::spec_add(self, o),
            r.wf(),
    {
        Vec3 { x: fx_add(self.x, o.x), y: fx_add(self.y, o.y), z: fx_add(self.z, o.z) }
    }

    pub fn sub(self, o: Vec3) -> (r: Vec3)
        ensures
            r == Self::spec_sub(self, o),
            r.wf(),
    {
        Vec3 { x: fx_sub(self.x, o.x), y: fx_sub(self.y, o.y), z: fx_sub(self.z, o.z) }
    }

    pub fn neg(self) -> (r: Vec3)
        ensures
            r == Self::spec_neg(self),
            r.wf(),
    {
        Vec3 { x: fx_neg(self.x), y: fx_neg(self.y), z: fx_neg(self.z) }
    }

    pub fn scale(self, s: i64) -> (r: Vec3)
        ensures
            r == Self::spec_scale(self, s as int),
            r.wf(),
    {
        Vec3 { x: fx_mul(self.x, s), y: fx_mul(self.y, s), z: fx_mul(self.z, s) }
    }

    pub fn mul_comp(self, o: Vec3) -> (r: Vec3)
        ensures
            r == Self::spec_mul_comp(self, o),
            r.wf(),
    {
        Vec3 { x: fx_mul(self.x, o.x), y: fx_mul(self.y, o.y), z: fx_mul(self.z, o.z) }
    }

    pub fn dot(self, o: Vec3) -> (r: i64)
        requires
            self.wf(),
            o.wf(),
        ensures
            r == Self::spec_dot(self, o),
            in_range(r as int),
    {
        proof {
            assert(-0x400000000000000000000000 <= self.x as int * o.x as int
                    <= 0x400000000000000000000000
                && -0x400000000000000000000000 <= self.y as int * o.y as int
                    <= 0x400000000000000000000000
                && -0x400000000000000000000000 <= self.z as int * o.z as int
                    <= 0x400000000000000000000000) by (nonlinear_arith)
                requires
                    -70368744177664 <= self.x as int <= 70368744177664,
                    -70368744177664 <= self.y as int <= 70368744177664,
                    -70368744177664 <= self.z as int <= 70368744177664,
                    -70368744177664 <= o.x as int <= 70368744177664,
                    -70368744177664 <= o.y as int <= 70368744177664,
                    -70368744177664 <= o.z as int <= 70368744177664,
            ;
        }
        let s: i128 = (self.x as i128) * (o.x as i128) + (self.y as i128) * (o.y as i128)
            + (self.z as i128) * (o.z as i128);
        let sm: i128 = if s >= 0 { s } else { -s };
        let qm: i128 = sm / (crate::fx::SCALE as i128);
        let q: i128 = if s >= 0 { qm } else { -qm };
        if q > FX_LIM as i128 {
            FX_LIM
        } else if q < -FX_LIM as i128 {
            -FX_LIM
        } else {
            q as i64
        }
    }

    pub fn cross(self, o: Vec3) -> (r: Vec3)
        ensures
            r == Self::spec_cross(self, o),
            r.wf(),
    {
        Vec3 {
            x: fx_sub(fx_mul(self.y, o.z), fx_mul(self.z, o.y)),
            y: fx_sub(fx_mul(self.z, o.x), fx_mul(self.x, o.z)),
            z: fx_sub(fx_mul(self.x, o.y), fx_mul(self.y, o.x)),
        }
    }

    pub fn length(self) -> (r: i64)
        requires
            self.wf(),
        ensures
            r == Self::spec_length(self),
            r >= 0,
            in_range(r as int),
    {
        proof {
            lemma_norm2_bounds(self);
        }
        let s: i128 = (self.x as i128) * (self.x as i128) + (self.y as i128) * (self.y as i128)
            + (self.z as i128) * (self.z as i128);
        let r: u64 = isqrt_u128(s as u128);
        if r > FX_LIM as u64 {
            FX_LIM
        } else {
            r as i64
        }
    }

    pub fn normalized(self) -> (r: Vec3)
        requires
            self.wf(),
        ensures
            r == Self::spec_normalized(self),
            r.wf(),
    {
        let l = self.length();
        if l == 0 {
            self
        } else {
            Vec3 { x: fx_div(self.x, l), y: fx_div(self.y, l), z: fx_div(self.z, l) }
        }
    }

    /// Alias kept for callers that use the longer name.
    pub fn normalize(self) -> (r: Vec3)
        requires
            self.wf(),
        ensures
            r == Self::spec_normalized(self),
            r.wf(),
    {
        self.normalized()
    }
}

/// The length is zero exactly when the vector is zero, so `normalized`
/// never divides by zero and fixes only the zero vector.
/// The squares of well-formed components are small and nonnegative, so the
/// squared norm is within the square-root routine's domain.
pub proof fn lemma_norm2_bounds(a: Vec3)
    requires
        a.wf(),
    ensures
        0 <= Vec3::norm2(a) < 0x1000000000000000000000000,
        0 <= a.x as int * a.x as int <= 0x400000000000000000000000,
        0 <= a.y as int * a.y as int <= 0x400000000000000000000000,
        0 <= a.z as int * a.z as int <= 0x400000000000000000000000,
        Vec3::norm2(a) == 0 <==> a.x == 0 && a.y == 0 && a.z == 0,
{
    assert(0 <= a.x as int * a.x as int <= 0x400000000000000000000000
        && 0 <= a.y as int * a.y as int <= 0x400000000000000000000000
        && 0 <= a.z as int * a.z as int <= 0x400000000000000000000000
        && ((a.x as int * a.x as int + a.y as int * a.y as int + a.z as int * a.z as int == 0)
            <==> (a.x as int == 0 && a.y as int == 0 && a.z as int == 0))) by (nonlinear_arith)
        requires
            -70368744177664 <= a.x as int <= 70368744177664,
            -70368744177664 <= a.y as int <= 70368744177664,
            -70368744177664 <= a.z as int <= 70368744177664,
    ;
}

pub proof fn lemma_length_zero_iff_zero(a: Vec3)
    requires
        a.wf(),
    ensures
        Vec3::spec_length(a) == 0 <==> a == (Vec3 { x: 0, y: 0, z: 0 }),
{
    let n = Vec3::norm2(a);
    lemma_norm2_bounds(a);
    lemma_isqrt_exists(n);
    let r = choose|r: int| is_isqrt(n, r);
    if n == 0 {
        assert(is_isqrt(0, 0)) by (nonlinear_arith);
        lemma_isqrt_unique(n, r, 0);
    } else {
        if r == 0 {
            assert(false) by (nonlinear_arith)
                requires is_isqrt(n, 0), n >= 1,
            ;
        }
    }
}

/// Every nonnegative integer has an integer square root.
pub proof fn lemma_isqrt_exists(n: int)
    requires
        0 <= n,
    ensures
        is_isqrt(n, isqrt_of(n)),
    decreases n,
{
    if n == 0 {
        assert(is_isqrt(0, 0)) by (nonlinear_arith);
        assert(is_isqrt(n, choose|r: int| is_isqrt(n, r)));
    } else {
        lemma_isqrt_exists(n - 1);
        let p = isqrt_of(n - 1);
        if (p + 1) * (p + 1) <= n {
            assert(is_isqrt(n, p + 1)) by (nonlinear_arith)
                requires is_isqrt(n - 1, p), (p + 1) * (p + 1) <= n,
            ;
        } else {
            assert(is_isqrt(n, p));
        }
        assert(is_isqrt(n, choose|r: int| is_isqrt(n, r)));
    }
}

} // verus!
