//! Fixed-point trigonometry on angles measured in radians.
//!
//! Angles are fixed-point values (see [`crate::fixed`]). Sine and cosine are
//! computed by range reduction to an octant followed by a truncated Taylor
//! polynomial; their exact values are pinned down by the spec functions
//! [`sp_sin`] and [`sp_cos`]. The inverse functions work by bisection against
//! the forward functions and promise only a range; their accuracy is a
//! numeric matter, exercised by the test suite.

use vstd::prelude::*;

verus! {

use crate::fixed::FP_ONE;
use crate::fixed::fx_clamp;
use crate::fixed::fx_mul;
use crate::fixed::clamp_fp;
use crate::fixed::lemma_fx_mul_bound;
use crate::fixed::lemma_mul_bound;
use crate::fixed::mul_fp;
use vstd::arithmetic::div_mod::lemma_fundamental_div_mod;
use vstd::arithmetic::div_mod::lemma_mod_multiples_vanish;
use vstd::arithmetic::div_mod::lemma_small_mod;

/// pi / 2 in fixed point.
pub const HALF_PI_FP: i64 = 26353589;

/// pi in fixed point; exactly twice `HALF_PI_FP` so that halving is exact.
pub const PI_FP: i64 = 52707178;

/// 2 * pi in fixed point.
pub const TWO_PI_FP: i64 = 105414356;

/// pi / 4 in fixed point, the threshold of the octant reduction.
pub const QUARTER_PI_FP: i64 = 13176795;

/// Largest angle magnitude the trigonometric entry points accept.
pub const ANGLE_ARG_LIM: i64 = 1099511627776;

/// 1/6, 1/20, 1/42 in fixed point: the factored Taylor coefficients of sine.
pub const INV6_FP: i64 = 2796203;

pub const INV20_FP: i64 = 838861;

pub const INV42_FP: i64 = 399458;

/// 1/2, 1/12, 1/30, 1/56 in fixed point: the factored Taylor coefficients of
/// cosine.
pub const INV2_FP: i64 = 8388608;

pub const INV12_FP: i64 = 1398101;

pub const INV30_FP: i64 = 559241;

pub const INV56_FP: i64 = 299593;

/// The canonical representative of an angle: congruent modulo 2*pi, in
/// [-pi, pi).
pub open spec fn sp_wrap_angle(x: int) -> int {
    ((x + PI_FP) % (TWO_PI_FP as int)) - PI_FP
}

/// The sine polynomial of the octant reduction, for arguments in
/// [0, pi/2]: u * (1 - u^2/6 * (1 - u^2/20 * (1 - u^2/42))).
pub open spec fn sp_sin_poly(u: int) -> int {
    let u2 = fx_mul(u, u);
    let t3 = FP_ONE - fx_mul(u2, INV42_FP as int);
    let t2 = FP_ONE - fx_mul(fx_mul(u2, INV20_FP as int), t3);
    let t1 = FP_ONE - fx_mul(fx_mul(u2, INV6_FP as int), t2);
    fx_mul(u, t1)
}

/// The cosine polynomial of the octant reduction, for arguments in
/// [0, pi/2]: 1 - u^2/2 * (1 - u^2/12 * (1 - u^2/30 * (1 - u^2/56))).
pub open spec fn sp_cos_poly(u: int) -> int {
    let u2 = fx_mul(u, u);
    let t4 = FP_ONE - fx_mul(u2, INV56_FP as int);
    let t3 = FP_ONE - fx_mul(fx_mul(u2, INV30_FP as int), t4);
    let t2 = FP_ONE - fx_mul(fx_mul(u2, INV12_FP as int), t3);
    FP_ONE - fx_mul(fx_mul(u2, INV2_FP as int), t2)
}

/// Sine on [0, pi]: fold into [0, pi/2], then pick whichever polynomial has
/// the smaller argument.
pub open spec fn sp_sin_half(w: int) -> int {
    let u = if w > HALF_PI_FP {
        PI_FP - w
    } else {
        w
    };
    if u <= QUARTER_PI_FP {
        sp_sin_poly(u)
    } else {
        sp_cos_poly(HALF_PI_FP - u)
    }
}

/// Sine of an arbitrary angle, clamped into [-1, 1].
/// Opaque: callers reason through it by name; [`sin_fp`] realizes it.
#[verifier::opaque]
pub open spec fn sp_sin(x: int) -> int {
    let w = sp_wrap_angle(x);
    let s = if w < 0 {
        -sp_sin_half(-w)
    } else {
        sp_sin_half(w)
    };
    fx_clamp(s, -FP_ONE as int, FP_ONE as int)
}

/// Cosine, as the sine of the shifted angle.
/// Opaque: callers reason through it by name; [`cos_fp`] realizes it.
#[verifier::opaque]
pub open spec fn sp_cos(x: int) -> int {
    sp_sin(x + HALF_PI_FP)
}

/// Wrap an angle into [-pi, pi), preserving it modulo 2*pi.
pub fn wrap_angle(x: i64) -> (r: i64)
    requires
        -2 * (ANGLE_ARG_LIM as int) <= x <= 2 * (ANGLE_ARG_LIM as int),
    ensures
        r as int == sp_wrap_angle(x as int),
        -PI_FP <= r < PI_FP,
{
    let mut r: i64 = x;
    let ghost mut k: int = 0;
    while r >= PI_FP
        invariant
            x as int == r + k * (TWO_PI_FP as int),
            r <= 2 * (ANGLE_ARG_LIM as int),
            -2 * (ANGLE_ARG_LIM as int) <= r,
        decreases r + TWO_PI_FP,
    {
        r = r - TWO_PI_FP;
        proof {
            k = k + 1;
            assert(x as int == r + k * (TWO_PI_FP as int)) by (nonlinear_arith)
                requires
                    x as int == (r + TWO_PI_FP) + (k - 1) * (TWO_PI_FP as int),
            ;
        }
    }
    while r < -PI_FP
        invariant
            x as int == r + k * (TWO_PI_FP as int),
            r < PI_FP,
            -2 * (ANGLE_ARG_LIM as int) - (TWO_PI_FP as int) <= r,
        decreases TWO_PI_FP - r,
    {
        r = r + TWO_PI_FP;
        proof {
            k = k - 1;
            assert(x as int == r + k * (TWO_PI_FP as int)) by (nonlinear_arith)
                requires
                    x as int == (r - TWO_PI_FP) + (k + 1) * (TWO_PI_FP as int),
            ;
        }
    }
    proof {
        let t = TWO_PI_FP as int;
        lemma_mod_multiples_vanish(k, r + PI_FP, t);
        assert(k * t + (r + PI_FP) == x + PI_FP);
        lemma_small_mod((r + PI_FP) as nat, t as nat);
    }
    r
}

/// Evaluate the sine polynomial; exact with respect to [`sp_sin_poly`].
fn sin_poly(u: i64) -> (r: i64)
    requires
        0 <= u <= HALF_PI_FP,
    ensures
        r as int == sp_sin_poly(u as int),
        -9 * (FP_ONE as int) <= r <= 9 * (FP_ONE as int),
{
    proof {
        lemma_mul_bound(u as int, u as int, HALF_PI_FP as int, HALF_PI_FP as int);
    }
    let u2 = mul_fp(u, u);
    proof {
        lemma_fx_mul_bound(u as int, u as int, HALF_PI_FP as int, HALF_PI_FP as int, 3 * FP_ONE as int);
        lemma_mul_bound(u2 as int, INV42_FP as int, 3 * FP_ONE as int, INV42_FP as int);
        lemma_fx_mul_bound(u2 as int, INV42_FP as int, 3 * FP_ONE as int, INV42_FP as int, FP_ONE as int);
    }
    let t3 = FP_ONE - mul_fp(u2, INV42_FP);
    proof {
        lemma_mul_bound(u2 as int, INV20_FP as int, 3 * FP_ONE as int, INV20_FP as int);
        lemma_fx_mul_bound(u2 as int, INV20_FP as int, 3 * FP_ONE as int, INV20_FP as int, FP_ONE as int);
    }
    let m2 = mul_fp(u2, INV20_FP);
    proof {
        lemma_mul_bound(m2 as int, t3 as int, FP_ONE as int, 2 * FP_ONE as int);
        lemma_fx_mul_bound(m2 as int, t3 as int, FP_ONE as int, 2 * FP_ONE as int, 2 * FP_ONE as int);
    }
    let t2 = FP_ONE - mul_fp(m2, t3);
    proof {
        lemma_mul_bound(u2 as int, INV6_FP as int, 3 * FP_ONE as int, INV6_FP as int);
        lemma_fx_mul_bound(u2 as int, INV6_FP as int, 3 * FP_ONE as int, INV6_FP as int, FP_ONE as int);
    }
    let m1 = mul_fp(u2, INV6_FP);
    proof {
        lemma_mul_bound(m1 as int, t2 as int, FP_ONE as int, 3 * FP_ONE as int);
        lemma_fx_mul_bound(m1 as int, t2 as int, FP_ONE as int, 3 * FP_ONE as int, 3 * FP_ONE as int);
    }
    let t1 = FP_ONE - mul_fp(m1, t2);
    proof {
        lemma_mul_bound(u as int, t1 as int, HALF_PI_FP as int, 4 * FP_ONE as int);
        lemma_fx_mul_bound(u as int, t1 as int, HALF_PI_FP as int, 4 * FP_ONE as int, 7 * FP_ONE as int);
    }
    mul_fp(u, t1)
}

/// Evaluate the cosine polynomial; exact with respect to [`sp_cos_poly`].
fn cos_poly(u: i64) -> (r: i64)
    requires
        0 <= u <= HALF_PI_FP,
    ensures
        r as int == sp_cos_poly(u as int),
        -9 * (FP_ONE as int) <= r <= 9 * (FP_ONE as int),
{
    proof {
        lemma_mul_bound(u as int, u as int, HALF_PI_FP as int, HALF_PI_FP as int);
    }
    let u2 = mul_fp(u, u);
    proof {
        lemma_fx_mul_bound(u as int, u as int, HALF_PI_FP as int, HALF_PI_FP as int, 3 * FP_ONE as int);
        lemma_mul_bound(u2 as int, INV56_FP as int, 3 * FP_ONE as int, INV56_FP as int);
        lemma_fx_mul_bound(u2 as int, INV56_FP as int, 3 * FP_ONE as int, INV56_FP as int, FP_ONE as int);
    }
    let t4 = FP_ONE - mul_fp(u2, INV56_FP);
    proof {
        lemma_mul_bound(u2 as int, INV30_FP as int, 3 * FP_ONE as int, INV30_FP as int);
        lemma_fx_mul_bound(u2 as int, INV30_FP as int, 3 * FP_ONE as int, INV30_FP as int, FP_ONE as int);
    }
    let m3 = mul_fp(u2, INV30_FP);
    proof {
        lemma_mul_bound(m3 as int, t4 as int, FP_ONE as int, 2 * FP_ONE as int);
        lemma_fx_mul_bound(m3 as int, t4 as int, FP_ONE as int, 2 * FP_ONE as int, 2 * FP_ONE as int);
    }
    let t3 = FP_ONE - mul_fp(m3, t4);
    proof {
        lemma_mul_bound(u2 as int, INV12_FP as int, 3 * FP_ONE as int, INV12_FP as int);
        lemma_fx_mul_bound(u2 as int, INV12_FP as int, 3 * FP_ONE as int, INV12_FP as int, FP_ONE as int);
    }
    let m2 = mul_fp(u2, INV12_FP);
    proof {
        lemma_mul_bound(m2 as int, t3 as int, FP_ONE as int, 3 * FP_ONE as int);
        lemma_fx_mul_bound(m2 as int, t3 as int, FP_ONE as int, 3 * FP_ONE as int, 3 * FP_ONE as int);
    }
    let t2 = FP_ONE - mul_fp(m2, t3);
    proof {
        lemma_mul_bound(u2 as int, INV2_FP as int, 3 * FP_ONE as int, INV2_FP as int);
        lemma_fx_mul_bound(u2 as int, INV2_FP as int, 3 * FP_ONE as int, INV2_FP as int, 2 * FP_ONE as int);
    }
    let m1 = mul_fp(u2, INV2_FP);
    proof {
        lemma_mul_bound(m1 as int, t2 as int, 2 * FP_ONE as int, 4 * FP_ONE as int);
        lemma_fx_mul_bound(m1 as int, t2 as int, 2 * FP_ONE as int, 4 * FP_ONE as int, 8 * FP_ONE as int);
    }
    FP_ONE - mul_fp(m1, t2)
}

/// Sine on [0, pi]; exact with respect to [`sp_sin_half`].
fn sin_half(w: i64) -> (r: i64)
    requires
        0 <= w <= PI_FP,
    ensures
        r as int == sp_sin_half(w as int),
        -9 * (FP_ONE as int) <= r <= 9 * (FP_ONE as int),
{
    let u = if w > HALF_PI_FP {
        PI_FP - w
    } else {
        w
    };
    if u <= QUARTER_PI_FP {
        sin_poly(u)
    } else {
        cos_poly(HALF_PI_FP - u)
    }
}

/// The sine of an angle, in [-1, 1].
pub fn sin_fp(x: i64) -> (r: i64)
    requires
        -(ANGLE_ARG_LIM as int) <= x <= ANGLE_ARG_LIM as int,
    ensures
        r as int == sp_sin(x as int),
        -FP_ONE <= r <= FP_ONE,
{
    proof {
        reveal(sp_sin);
    }
    let w = wrap_angle(x);
    let s = if w < 0 {
        -sin_half(-w)
    } else {
        sin_half(w)
    };
    clamp_fp(s, -FP_ONE, FP_ONE)
}

/// The cosine of an angle, in [-1, 1].
pub fn cos_fp(x: i64) -> (r: i64)
    requires
        -(ANGLE_ARG_LIM as int) <= x <= ANGLE_ARG_LIM as int,
    ensures
        r as int == sp_cos(x as int),
        -FP_ONE <= r <= FP_ONE,
{
    proof {
        reveal(sp_sin);
        reveal(sp_cos);
    }
    let w = wrap_angle(x + HALF_PI_FP);
    let s = if w < 0 {
        -sin_half(-w)
    } else {
        sin_half(w)
    };
    clamp_fp(s, -FP_ONE, FP_ONE)
}

/// The arcsine bisection, mirrored as a spec function: halve the bracket,
/// keeping the half whose lower end's sine does not exceed the argument.
/// The search is deterministic, so this pins [`asin_fp`] exactly.
pub open spec fn sp_asin_rec(lo: int, hi: int, v: int) -> int
    decreases hi - lo,
{
    if hi - lo <= 1 {
        lo
    } else {
        let mid = lo + (hi - lo) / 2;
        if sp_sin(mid) <= v {
            sp_asin_rec(mid, hi, v)
        } else {
            sp_asin_rec(lo, mid, v)
        }
    }
}

/// The arcsine of a value in [-1, 1]: the bisection started on the full
/// bracket [-pi/2, pi/2].
pub open spec fn sp_asin(v: int) -> int {
    sp_asin_rec(-HALF_PI_FP as int, HALF_PI_FP as int, v)
}

/// Arcsine by bisection against [`sin_fp`], for arguments in [-1, 1];
/// exactly [`sp_asin`], an angle in [-pi/2, pi/2]. How close its sine
/// comes to the argument is a numeric matter, exercised by the tests.
pub fn asin_fp(v: i64) -> (r: i64)
    requires
        -FP_ONE <= v <= FP_ONE,
    ensures
        r as int == sp_asin(v as int),
        -HALF_PI_FP <= r <= HALF_PI_FP,
{
    let mut lo: i64 = -HALF_PI_FP;
    let mut hi: i64 = HALF_PI_FP;
    while hi - lo > 1
        invariant
            -HALF_PI_FP <= lo <= hi <= HALF_PI_FP,
            sp_asin_rec(lo as int, hi as int, v as int) == sp_asin(v as int),
        decreases hi - lo,
    {
        let mid: i64 = lo + ((hi - lo) as u64 / 2) as i64;
        proof {
            assert(mid as int == lo + (hi - lo) / 2);
        }
        if sin_fp(mid) <= v {
            lo = mid;
        } else {
            hi = mid;
        }
    }
    proof {
        assert(sp_asin_rec(lo as int, hi as int, v as int) == lo);
    }
    lo
}

/// The quadrant bracket that `atan2_fp` bisects: an angle interval of width
/// pi/2 chosen by the signs of the two components.
pub open spec fn sp_atan2_bracket(x: int, z: int) -> (int, int) {
    if x >= 0 {
        if z >= 0 {
            (0, HALF_PI_FP as int)
        } else {
            (HALF_PI_FP as int, PI_FP as int)
        }
    } else {
        if z >= 0 {
            (-HALF_PI_FP as int, 0)
        } else {
            (-PI_FP as int, -HALF_PI_FP as int)
        }
    }
}

/// The atan2 bisection, mirrored as a spec function: at the midpoint angle
/// the sign of `x * cos(mid) - z * sin(mid)` says which side of (x, z) the
/// angle lies on. Deterministic, so this pins [`atan2_fp`] exactly.
pub open spec fn sp_atan2_rec(lo: int, hi: int, x: int, z: int) -> int
    decreases hi - lo,
{
    if hi - lo <= 1 {
        lo
    } else {
        let mid = lo + (hi - lo) / 2;
        if fx_mul(x, sp_cos(mid)) - fx_mul(z, sp_sin(mid)) >= 0 {
            sp_atan2_rec(mid, hi, x, z)
        } else {
            sp_atan2_rec(lo, mid, x, z)
        }
    }
}

/// The angle of the planar vector (x, z) about the vertical axis: the
/// bisection started on the quadrant bracket of the input's signs.
pub open spec fn sp_atan2(x: int, z: int) -> int {
    sp_atan2_rec(sp_atan2_bracket(x, z).0, sp_atan2_bracket(x, z).1, x, z)
}

/// The angle of the planar vector (x, z), measured as a rotation about the
/// vertical axis: atan2 by bisection against the forward functions;
/// exactly [`sp_atan2`], inside the quadrant of its input. Its accuracy is
/// a numeric matter, exercised by the tests.
#[verifier::rlimit(100)]
pub fn atan2_fp(x: i64, z: i64) -> (r: i64)
    requires
        -0x400_0000_0000 <= x <= 0x400_0000_0000,
        -0x400_0000_0000 <= z <= 0x400_0000_0000,
    ensures
        r as int == sp_atan2(x as int, z as int),
        sp_atan2_bracket(x as int, z as int).0 <= r <= sp_atan2_bracket(x as int, z as int).1,
        -PI_FP <= r <= PI_FP,
{
    let mut lo: i64;
    let mut hi: i64;
    if x >= 0 {
        if z >= 0 {
            lo = 0;
            hi = HALF_PI_FP;
        } else {
            lo = HALF_PI_FP;
            hi = PI_FP;
        }
    } else {
        if z >= 0 {
            lo = -HALF_PI_FP;
            hi = 0;
        } else {
            lo = -PI_FP;
            hi = -HALF_PI_FP;
        }
    }
    while hi - lo > 1
        invariant
            sp_atan2_bracket(x as int, z as int).0 <= lo <= hi <= sp_atan2_bracket(
                x as int,
                z as int,
            ).1,
            -PI_FP <= lo <= hi <= PI_FP,
            -0x400_0000_0000 <= x <= 0x400_0000_0000,
            -0x400_0000_0000 <= z <= 0x400_0000_0000,
            sp_atan2_rec(lo as int, hi as int, x as int, z as int) == sp_atan2(x as int, z as int),
        decreases hi - lo,
    {
        let mid: i64 = lo + ((hi - lo) as u64 / 2) as i64;
        let c = cos_fp(mid);
        let s = sin_fp(mid);
        proof {
            assert(mid as int == lo + (hi - lo) / 2);
            lemma_mul_bound(x as int, c as int, 0x400_0000_0000, FP_ONE as int);
            lemma_fx_mul_bound(x as int, c as int, 0x400_0000_0000, FP_ONE as int, 0x400_0000_0000);
            lemma_mul_bound(z as int, s as int, 0x400_0000_0000, FP_ONE as int);
            lemma_fx_mul_bound(z as int, s as int, 0x400_0000_0000, FP_ONE as int, 0x400_0000_0000);
        }
        let f = mul_fp(x, c) - mul_fp(z, s);
        if f >= 0 {
            lo = mid;
        } else {
            hi = mid;
        }
    }
    proof {
        assert(sp_atan2_rec(lo as int, hi as int, x as int, z as int) == lo);
    }
    lo
}

} // verus!
