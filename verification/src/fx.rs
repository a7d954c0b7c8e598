//! Saturating fixed-point scalar arithmetic.
//!
//! Every quantity of the rendering core is a fixed-point number: an `i64`
//! holding the real value times `SCALE`. All operations saturate at
//! `±FX_LIM`, so they are total and never overflow; each executable
//! operation is pinned to an exact mathematical mirror over `int`.

use vstd::prelude::*;

verus! {

/// Fixed-point scale: raw value `SCALE` stands for the real number 1.
pub const SCALE: i64 = 65536;

/// One half, in fixed point.
pub const FX_HALF: i64 = 32768;

/// Saturation bound of every fixed-point value (2^46 raw).
pub const FX_LIM: i64 = 70368744177664;

/// Saturation to the representable range `[-FX_LIM, FX_LIM]`.
pub open spec fn sat(x: int) -> int {
    if x > FX_LIM as int {
        FX_LIM as int
    } else if x < -(FX_LIM as int) {
        -(FX_LIM as int)
    } else {
        x
    }
}

/// Division truncating toward zero, the semantics of `/` on signed machine
/// integers (spec-level `/` is Euclidean, so divide the magnitudes and
/// reapply the sign).
pub open spec fn tdiv(a: int, b: int) -> int {
    let m = if a >= 0 { a } else { -a };
    let n = if b >= 0 { b } else { -b };
    if (a >= 0) == (b >= 0) {
        m / n
    } else {
        -(m / n)
    }
}

/// Saturating fixed-point addition.
pub open spec fn fadd(a: int, b: int) -> int {
    sat(a + b)
}

/// Saturating fixed-point subtraction.
pub open spec fn fsub(a: int, b: int) -> int {
    sat(a - b)
}

/// Saturating fixed-point negation.
pub open spec fn fneg(a: int) -> int {
    sat(-a)
}

/// Saturating fixed-point multiplication: `(a * b) / SCALE`, truncated.
pub open spec fn fmul(a: int, b: int) -> int {
    sat(tdiv(a * b, SCALE as int))
}

/// Saturating fixed-point division: `(a * SCALE) / b`, truncated; division
/// by zero yields zero rather than a fault.
pub open spec fn fdiv(a: int, b: int) -> int {
    if b == 0 {
        0
    } else {
        sat(tdiv(a * (SCALE as int), b))
    }
}

/// Whether a raw value lies in the saturated range.
pub open spec fn in_range(a: int) -> bool {
    -(FX_LIM as int) <= a <= FX_LIM as int
}

pub fn fx_add(a: i64, b: i64) -> (r: i64)
    ensures
        r == fadd(a as int, b as int),
        in_range(r as int),
{
    let s: i128 = a as i128 + b as i128;
    if s > FX_LIM as i128 {
        FX_LIM
    } else if s < -FX_LIM as i128 {
        -FX_LIM
    } else {
        s as i64
    }
}

pub fn fx_sub(a: i64, b: i64) -> (r: i64)
    ensures
        r == fsub(a as int, b as int),
        in_range(r as int),
{
    let s: i128 = a as i128 - b as i128;
    if s > FX_LIM as i128 {
        FX_LIM
    } else if s < -FX_LIM as i128 {
        -FX_LIM
    } else {
        s as i64
    }
}

pub fn fx_neg(a: i64) -> (r: i64)
    ensures
        r == fneg(a as int),
        in_range(r as int),
{
    if a > FX_LIM {
        -FX_LIM
    } else if a < -FX_LIM {
        FX_LIM
    } else {
        -a
    }
}

pub fn fx_mul(a: i64, b: i64) -> (r: i64)
    ensures
        r == fmul(a as int, b as int),
        in_range(r as int),
{
    proof {
        assert(i128::MIN <= a as int * b as int <= i128::MAX) by (nonlinear_arith)
            requires
                i64::MIN <= a as int <= i64::MAX,
                i64::MIN <= b as int <= i64::MAX,
        ;
    }
    let p: i128 = (a as i128) * (b as i128);
    let q: i128 = p / (SCALE as i128);
    if q > FX_LIM as i128 {
        FX_LIM
    } else if q < -FX_LIM as i128 {
        -FX_LIM
    } else {
        q as i64
    }
}

pub fn fx_div(a: i64, b: i64) -> (r: i64)
    ensures
        r == fdiv(a as int, b as int),
        in_range(r as int),
{
    if b == 0 {
        return 0;
    }
    proof {
        assert(i128::MIN <= a as int * (SCALE as int) <= i128::MAX) by (nonlinear_arith)
            requires
                i64::MIN <= a as int <= i64::MAX,
        ;
    }
    let p: i128 = (a as i128) * (SCALE as i128);
    let pm: i128 = if p >= 0 { p } else { -p };
    let bm: i128 = if b >= 0 { b as i128 } else { -(b as i128) };
    let qm: i128 = pm / bm;
    let q: i128 = if (p >= 0) == (b >= 0) { qm } else { -qm };
    proof {
        assert(fdiv(a as int, b as int) == sat(q as int));
    }
    if q > FX_LIM as i128 {
        FX_LIM
    } else if q < -FX_LIM as i128 {
        -FX_LIM
    } else {
        q as i64
    }
}

/// Fixed-point minimum.
pub open spec fn fmin(a: int, b: int) -> int {
    if a <= b {
        a
    } else {
        b
    }
}

/// Fixed-point maximum.
pub open spec fn fmax(a: int, b: int) -> int {
    if a >= b {
        a
    } else {
        b
    }
}

/// Clamp into `[lo, hi]` (callers pass `lo <= hi`).
pub open spec fn fclamp(x: int, lo: int, hi: int) -> int {
    if x < lo {
        lo
    } else if x > hi {
        hi
    } else {
        x
    }
}

pub fn fx_min(a: i64, b: i64) -> (r: i64)
    ensures
        r == fmin(a as int, b as int),
{
    if a <= b {
        a
    } else {
        b
    }
}

pub fn fx_max(a: i64, b: i64) -> (r: i64)
    ensures
        r == fmax(a as int, b as int),
{
    if a >= b {
        a
    } else {
        b
    }
}

pub fn fx_clamp(x: i64, lo: i64, hi: i64) -> (r: i64)
    ensures
        r == fclamp(x as int, lo as int, hi as int),
{
    if x < lo {
        lo
    } else if x > hi {
        hi
    } else {
        x
    }
}

/// Saturating absolute value.
pub open spec fn fabs_s(a: int) -> int {
    sat(if a < 0 { -a } else { a })
}

pub fn fx_abs(a: i64) -> (r: i64)
    ensures
        r == fabs_s(a as int),
        in_range(r as int),
{
    if a < 0 {
        fx_neg(a)
    } else if a > FX_LIM {
        FX_LIM
    } else {
        a
    }
}

/// Truncated division never grows the magnitude and keeps (or zeroes) the
/// sign of `a/b`.
pub proof fn lemma_tdiv_bounds(a: int, b: int)
    requires
        b != 0,
    ensures
        a >= 0 && b > 0 ==> 0 <= tdiv(a, b) <= a,
        a <= 0 && b > 0 ==> a <= tdiv(a, b) <= 0,
        a >= 0 && b < 0 ==> -a <= tdiv(a, b) <= 0,
        a <= 0 && b < 0 ==> 0 <= tdiv(a, b) <= -a,
{
    let m = if a >= 0 { a } else { -a };
    let n = if b >= 0 { b } else { -b };
    vstd::arithmetic::div_mod::lemma_div_pos_is_pos(m, n);
    vstd::arithmetic::div_mod::lemma_div_nonincreasing(m, n);
}

/// When the magnitude of the numerator reaches that of the denominator,
/// the truncated quotient is at least one step away from zero.
pub proof fn lemma_tdiv_unit(a: int, b: int)
    requires
        b != 0,
        a >= b || -a >= b,
        a >= -b || -a >= -b,
    ensures
        (a >= 0) == (b >= 0) ==> tdiv(a, b) >= 1,
        (a >= 0) != (b >= 0) ==> tdiv(a, b) <= -1,
{
    let m = if a >= 0 { a } else { -a };
    let n = if b >= 0 { b } else { -b };
    vstd::arithmetic::div_mod::lemma_div_by_self(n);
    vstd::arithmetic::div_mod::lemma_div_is_ordered(n, m, n);
}

/// The circle constant, in fixed point.
pub const PI_FX: i64 = 205887;

/// A full turn, in fixed point.
pub const TWO_PI_FX: i64 = 411774;

/// A quarter turn, in fixed point.
pub const HALF_PI_FX: i64 = 102944;

/// An angle reduced into `[0, 2π)` (the Euclidean remainder).
pub open spec fn wrapped(a: int) -> int {
    a % (TWO_PI_FX as int)
}

pub fn wrap_angle(a: i64) -> (r: i64)
    ensures
        r == wrapped(a as int),
        0 <= r < TWO_PI_FX,
{
    let m: i64 = TWO_PI_FX;
    let r0: i64 = if a >= 0 {
        a % m
    } else {
        let s: i128 = (-(a as i128)) % (m as i128);
        -(s as i64)
    };
    proof {
        if a < 0 {
            let q = (-a) as int / m as int;
            let s = (-a) as int % m as int;
            vstd::arithmetic::div_mod::lemma_fundamental_div_mod((-a) as int, m as int);
            vstd::arithmetic::div_mod::lemma_mod_bound((-a) as int, m as int);
            if s == 0 {
                vstd::arithmetic::div_mod::lemma_fundamental_div_mod_converse(
                    a as int, m as int, -q, 0);
            } else {
                vstd::arithmetic::div_mod::lemma_fundamental_div_mod_converse(
                    a as int, m as int, -q - 1, m as int - s);
            }
        } else {
            vstd::arithmetic::div_mod::lemma_mod_bound(a as int, m as int);
        }
    }
    if r0 < 0 {
        r0 + m
    } else {
        r0
    }
}

/// The polynomial sine approximation on `[0, π]`:
/// `16x(π−x) / (5π² − 4x(π−x))`, in fixed point.
pub open spec fn sin_half_turn(x: int) -> int {
    let p = fmul(x, fsub(PI_FX as int, x));
    fdiv(fmul(16 * SCALE as int, p), fsub(fmul(5 * SCALE as int, fmul(PI_FX as int, PI_FX as int)), fmul(4 * SCALE as int, p)))
}

/// Sine of a fixed-point angle in radians: the angle is wrapped into
/// `[0, 2π)` and the half-turn polynomial is applied with the sign of the
/// half it falls in.
pub open spec fn fsin(a: int) -> int {
    let w = wrapped(a);
    if w <= PI_FX as int {
        sin_half_turn(w)
    } else {
        fneg(sin_half_turn(w - PI_FX as int))
    }
}

/// Cosine, as the sine a quarter turn ahead.
pub open spec fn fcos(a: int) -> int {
    fsin(sat(a + HALF_PI_FX as int))
}

pub fn fx_sin(a: i64) -> (r: i64)
    ensures
        r == fsin(a as int),
        in_range(r as int),
{
    let w = wrap_angle(a);
    if w <= PI_FX {
        sin_half(w)
    } else {
        fx_neg(sin_half(w - PI_FX))
    }
}

pub fn fx_cos(a: i64) -> (r: i64)
    ensures
        r == fcos(a as int),
        in_range(r as int),
{
    fx_sin(fx_add(a, HALF_PI_FX))
}

fn sin_half(x: i64) -> (r: i64)
    requires
        0 <= x <= PI_FX,
    ensures
        r == sin_half_turn(x as int),
        in_range(r as int),
{
    let p = fx_mul(x, fx_sub(PI_FX, x));
    fx_div(
        fx_mul(16 * SCALE, p),
        fx_sub(fx_mul(5 * SCALE, fx_mul(PI_FX, PI_FX)), fx_mul(4 * SCALE, p)),
    )
}

/// A fixed-point quotient is at least one whole step from zero once the
/// scaled numerator's magnitude reaches the denominator's, with the sign
/// given by the operands' signs.
pub proof fn lemma_fdiv_unit(a: int, b: int)
    requires
        b != 0,
        a * (SCALE as int) >= b || -(a * (SCALE as int)) >= b,
        a * (SCALE as int) >= -b || -(a * (SCALE as int)) >= -b,
    ensures
        ((a >= 0) == (b >= 0)) ==> fdiv(a, b) >= 1,
        ((a >= 0) != (b >= 0)) ==> fdiv(a, b) <= -1,
{
    let s = a * (SCALE as int);
    assert(a > 0 ==> s > 0 && a < 0 ==> s < 0 && a == 0 ==> s == 0) by (nonlinear_arith)
        requires s == a * (SCALE as int), SCALE == 65536,
    ;
    lemma_tdiv_unit(s, b);
}

/// Exact integer square root: the unique `r` with `r² <= n < (r+1)²`.
pub open spec fn is_isqrt(n: int, r: int) -> bool {
    0 <= r && r * r <= n && n < (r + 1) * (r + 1)
}

/// The integer square root, as a function.
pub open spec fn isqrt_of(n: int) -> int {
    choose|r: int| is_isqrt(n, r)
}

pub proof fn lemma_isqrt_unique(n: int, r1: int, r2: int)
    requires
        is_isqrt(n, r1),
        is_isqrt(n, r2),
    ensures
        r1 == r2,
{
    if r1 < r2 {
        assert((r1 + 1) * (r1 + 1) <= r2 * r2) by (nonlinear_arith)
            requires 0 <= r1, 0 <= r2, r1 < r2,
        ;
    }
    if r2 < r1 {
        assert((r2 + 1) * (r2 + 1) <= r1 * r1) by (nonlinear_arith)
            requires 0 <= r1, 0 <= r2, r2 < r1,
        ;
    }
}

/// Fixed-point power with a non-negative integer exponent.
pub open spec fn fpow(b: int, e: nat) -> int
    decreases e,
{
    if e == 0 {
        SCALE as int
    } else {
        fmul(b, fpow(b, (e - 1) as nat))
    }
}

pub fn fx_pow(b: i64, e: u32) -> (r: i64)
    ensures
        r == fpow(b as int, e as nat),
        in_range(r as int),
{
    let mut acc: i64 = SCALE;
    let mut i: u32 = 0;
    while i < e
        invariant
            i <= e,
            acc == fpow(b as int, i as nat),
            in_range(acc as int),
        decreases e - i,
    {
        acc = fx_mul(b, acc);
        i = i + 1;
    }
    acc
}

/// Fixed-point square root: `sqrt(a / SCALE) * SCALE`, truncated; negative
/// inputs yield zero.
pub open spec fn fsqrt(a: int) -> int {
    if a < 0 {
        0
    } else {
        sat(isqrt_of(a * SCALE))
    }
}

pub fn fx_sqrt(a: i64) -> (r: i64)
    requires
        in_range(a as int),
    ensures
        r == fsqrt(a as int),
        r >= 0,
        in_range(r as int),
{
    if a < 0 {
        return 0;
    }
    let n: u128 = (a as u128) * (SCALE as u128);
    proof {
        assert(n == a as int * SCALE && n < 0x1000000000000000000000000) by (nonlinear_arith)
            requires
                0 <= a as int <= 70368744177664,
                n == a as int * (SCALE as int),
                SCALE == 65536,
        ;
    }
    let r: u64 = isqrt_u128(n);
    if r > FX_LIM as u64 {
        FX_LIM
    } else {
        r as i64
    }
}

pub fn isqrt_u128(n: u128) -> (r: u64)
    requires
        n < 0x1000000000000000000000000,  // 2^96
    ensures
        is_isqrt(n as int, r as int),
        r == isqrt_of(n as int),
{
    let mut lo: u64 = 0;
    let mut hi: u64 = 0x1000000000000;  // 2^48
    proof {
        assert((0x1000000000000int) * (0x1000000000000int) > n as int) by (nonlinear_arith)
            requires n < 0x1000000000000000000000000,
        ;
    }
    while hi - lo > 1
        invariant
            lo < hi,
            hi <= 0x1000000000000,
            lo as int * lo as int <= n as int,
            hi as int * hi as int > n as int,
        decreases hi - lo,
    {
        let mid: u64 = lo + (hi - lo) / 2;
        proof {
            assert(mid as int * mid as int <= u128::MAX) by (nonlinear_arith)
                requires 0 <= mid as int <= 0x1000000000000,
            ;
        }
        let sq: u128 = (mid as u128) * (mid as u128);
        if sq <= n {
            lo = mid;
        } else {
            hi = mid;
        }
    }
    proof {
        assert(is_isqrt(n as int, lo as int));
        let w = choose|r: int| is_isqrt(n as int, r);
        lemma_isqrt_unique(n as int, lo as int, w);
    }
    lo
}

} // verus!
