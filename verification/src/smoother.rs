//! Exponential-decay smoothing of the camera pose.
//!
//! The filter keeps the previous output (the lag value) and blends it toward
//! each new raw pose by a factor `1 - weight^(dt * rate)`, so smoothing is
//! independent of the frame rate. The first sample passes through unchanged.

use vstd::prelude::*;

verus! {

use crate::fixed::FP_ONE;
use crate::fixed::fx_mul;
use crate::fixed::lemma_mul_bound;
use crate::fixed::lemma_trunc_div_bound;
use crate::fixed::mul_fp;
use crate::fixed::sqrt_fp;
use crate::geometry::Vec3Fx;
use crate::look::LookTransform;
use crate::look::sp_pose_in_range;
use vstd::arithmetic::div_mod::lemma_div_is_ordered;

/// Bound on the pose coordinates the smoother carries: 2^44.
pub const SMOOTH_POS_LIM: i64 = 17592186044416;

/// Decay events per second: the exponent of the blend is `dt * 60`.
pub const SMOOTH_RATE_FP: i64 = 1006632960;

/// Largest elapsed time `smooth` accepts: 64 seconds.
pub const DT_LIM: i64 = 1073741824;

/// One linear interpolation step: `a + t * (b - a)`.
pub open spec fn sp_lerp1(a: int, b: int, t: int) -> int {
    a + fx_mul(t, b - a)
}

/// The distance between two values.
pub open spec fn sp_abs_diff(a: int, b: int) -> int {
    if a >= b {
        a - b
    } else {
        b - a
    }
}

/// `c` lies between `a` and `b`, no farther from `b` than `a` is: one
/// smoothing step neither overshoots its goal nor retreats from it.
pub open spec fn sp_approaches(a: int, b: int, c: int) -> bool {
    &&& (a <= b ==> a <= c <= b)
    &&& (b <= a ==> b <= c <= a)
    &&& sp_abs_diff(c, b) <= sp_abs_diff(a, b)
}

/// A pose interpolated componentwise with one factor `t`.
pub open spec fn sp_pose_lerp(l: LookTransform, raw: LookTransform, out: LookTransform, t: int) -> bool {
    &&& 0 <= t <= FP_ONE
    &&& out.eye.x as int == sp_lerp1(l.eye.x as int, raw.eye.x as int, t)
    &&& out.eye.y as int == sp_lerp1(l.eye.y as int, raw.eye.y as int, t)
    &&& out.eye.z as int == sp_lerp1(l.eye.z as int, raw.eye.z as int, t)
    &&& out.target.x as int == sp_lerp1(l.target.x as int, raw.target.x as int, t)
    &&& out.target.y as int == sp_lerp1(l.target.y as int, raw.target.y as int, t)
    &&& out.target.z as int == sp_lerp1(l.target.z as int, raw.target.z as int, t)
}

/// Every coordinate of `out` lies between the lag and the raw pose, at most
/// as far from the raw pose as the lag was.
pub open spec fn sp_pose_approaches(l: LookTransform, raw: LookTransform, out: LookTransform) -> bool {
    &&& sp_approaches(l.eye.x as int, raw.eye.x as int, out.eye.x as int)
    &&& sp_approaches(l.eye.y as int, raw.eye.y as int, out.eye.y as int)
    &&& sp_approaches(l.eye.z as int, raw.eye.z as int, out.eye.z as int)
    &&& sp_approaches(l.target.x as int, raw.target.x as int, out.target.x as int)
    &&& sp_approaches(l.target.y as int, raw.target.y as int, out.target.y as int)
    &&& sp_approaches(l.target.z as int, raw.target.z as int, out.target.z as int)
}

/// A lerp with factor in [0, 1] approaches its goal.
pub proof fn lemma_lerp_approaches(a: int, b: int, t: int)
    requires
        0 <= t <= FP_ONE,
    ensures
        sp_approaches(a, b, sp_lerp1(a, b, t)),
{
    let one = FP_ONE as int;
    let d = b - a;
    if d >= 0 {
        assert(0 <= t * d <= d * one) by (nonlinear_arith)
            requires
                0 <= t <= one,
                0 <= d,
        ;
        lemma_trunc_div_bound(t * d, one, d);
        lemma_div_is_ordered(0, t * d, one);
    } else {
        assert(d * one <= t * d <= 0) by (nonlinear_arith)
            requires
                0 <= t <= one,
                d < 0,
        ;
        lemma_trunc_div_bound(t * d, one, -d);
        lemma_div_is_ordered(0, -(t * d), one);
    }
}

/// One interpolation step, executable form.
fn lerp_fp(a: i64, b: i64, t: i64) -> (r: i64)
    requires
        -(SMOOTH_POS_LIM as int) <= a <= SMOOTH_POS_LIM as int,
        -(SMOOTH_POS_LIM as int) <= b <= SMOOTH_POS_LIM as int,
        0 <= t <= FP_ONE,
    ensures
        r as int == sp_lerp1(a as int, b as int, t as int),
        sp_approaches(a as int, b as int, r as int),
        -(SMOOTH_POS_LIM as int) <= r <= SMOOTH_POS_LIM as int,
{
    proof {
        lemma_mul_bound(t as int, b - a, FP_ONE as int, 2 * SMOOTH_POS_LIM as int);
        lemma_lerp_approaches(a as int, b as int, t as int);
    }
    a + mul_fp(t, b - a)
}

/// Fixed-point values in [0, 1] are closed under multiplication.
proof fn lemma_fx_mul_unit(a: int, b: int)
    requires
        0 <= a <= FP_ONE,
        0 <= b <= FP_ONE,
    ensures
        0 <= fx_mul(a, b) <= FP_ONE,
{
    let one = FP_ONE as int;
    assert(0 <= a * b <= one * one) by (nonlinear_arith)
        requires
            0 <= a <= one,
            0 <= b <= one,
    ;
    lemma_trunc_div_bound(a * b, one, one);
    lemma_div_is_ordered(0, a * b, one);
}

/// Square root of a value in [0, 1] stays in [0, 1].
fn sqrt_unit(v: i64) -> (r: i64)
    requires
        0 <= v <= FP_ONE,
    ensures
        r as int == crate::fixed::sp_sqrt_fx(v as int),
        0 <= r <= FP_ONE,
{
    let r = sqrt_fp(v);
    proof {
        assert(r as int <= FP_ONE as int) by (nonlinear_arith)
            requires
                0 <= r as int,
                (r as int) * (r as int) <= (v as int) * (FP_ONE as int),
                v as int <= FP_ONE as int,
                FP_ONE as int == 16777216,
        ;
    }
    r
}

/// The square-and-multiply pass over the integer part of the exponent,
/// mirrored as a spec function over the running state.
pub open spec fn sp_pow_bin(result: int, base: int, k: int) -> int
    decreases k,
{
    if k <= 0 {
        result
    } else {
        let r2 = if k % 2 == 1 {
            fx_mul(result, base)
        } else {
            result
        };
        sp_pow_bin(r2, fx_mul(base, base), k / 2)
    }
}

/// The twelve square-root bits of the fractional part of the exponent,
/// mirrored as a spec function over the running state.
pub open spec fn sp_pow_frac(result: int, cur: int, rem: int, i: int) -> int
    decreases 12 - i,
{
    if i >= 12 {
        result
    } else {
        let rem2 = 2 * rem;
        if rem2 >= FP_ONE {
            sp_pow_frac(fx_mul(result, cur), crate::fixed::sp_sqrt_fx(cur), rem2 - FP_ONE, i + 1)
        } else {
            sp_pow_frac(result, crate::fixed::sp_sqrt_fx(cur), rem2, i + 1)
        }
    }
}

/// `w` raised to the fixed-point exponent `e`, as the algorithm computes
/// it: the integer part by square-and-multiply, the fractional part by
/// twelve square-root bits. Deterministic, so this pins [`pow_unit_fp`]
/// exactly, as `sp_isqrt` pins the square root.
pub open spec fn sp_pow_unit(w: int, e: int) -> int {
    sp_pow_frac(
        sp_pow_bin(FP_ONE as int, w, e / (FP_ONE as int)),
        crate::fixed::sp_sqrt_fx(w),
        e % (FP_ONE as int),
        0,
    )
}

/// `w` raised to the fixed-point exponent `e`; exactly [`sp_pow_unit`].
/// For a base in [0, 1] the result stays in [0, 1].
fn pow_unit_fp(w: i64, e: i64) -> (r: i64)
    requires
        0 <= w <= FP_ONE,
        0 <= e,
    ensures
        r as int == sp_pow_unit(w as int, e as int),
        0 <= r <= FP_ONE,
{
    let mut result: i64 = FP_ONE;
    let mut base: i64 = w;
    let mut k: u64 = (e as u64) / (FP_ONE as u64);
    proof {
        assert(k as int == (e as int) / (FP_ONE as int));
    }
    while k > 0
        invariant
            0 <= result <= FP_ONE,
            0 <= base <= FP_ONE,
            0 <= w <= FP_ONE,
            0 <= e,
            sp_pow_bin(result as int, base as int, k as int) == sp_pow_bin(
                FP_ONE as int,
                w as int,
                (e as int) / (FP_ONE as int),
            ),
        decreases k,
    {
        proof {
            lemma_fx_mul_unit(result as int, base as int);
            lemma_fx_mul_unit(base as int, base as int);
            lemma_mul_bound(result as int, base as int, FP_ONE as int, FP_ONE as int);
            lemma_mul_bound(base as int, base as int, FP_ONE as int, FP_ONE as int);
        }
        if k % 2 == 1 {
            result = mul_fp(result, base);
        }
        base = mul_fp(base, base);
        k = k / 2;
    }
    let mut rem: i64 = ((e as u64) % (FP_ONE as u64)) as i64;
    let mut cur: i64 = sqrt_unit(w);
    let mut i: u64 = 0;
    proof {
        assert(rem as int == (e as int) % (FP_ONE as int));
        assert(sp_pow_frac(result as int, cur as int, rem as int, 0) == sp_pow_unit(
            w as int,
            e as int,
        ));
    }
    while i < 12
        invariant
            i <= 12,
            0 <= result <= FP_ONE,
            0 <= cur <= FP_ONE,
            0 <= rem < FP_ONE,
            0 <= w <= FP_ONE,
            0 <= e,
            sp_pow_frac(result as int, cur as int, rem as int, i as int) == sp_pow_unit(
                w as int,
                e as int,
            ),
        decreases 12 - i,
    {
        proof {
            lemma_fx_mul_unit(result as int, cur as int);
            lemma_mul_bound(result as int, cur as int, FP_ONE as int, FP_ONE as int);
        }
        rem = 2 * rem;
        if rem >= FP_ONE {
            rem = rem - FP_ONE;
            result = mul_fp(result, cur);
        }
        cur = sqrt_unit(cur);
        i = i + 1;
    }
    result
}

/// The interpolation factor of one smoothing step:
/// `1 - weight^(dt * rate)`, with a zero weight meaning no smoothing at
/// all for any positive elapsed time.
pub open spec fn sp_blend_factor(w: int, dt: int) -> int {
    if w == 0 && dt > 0 {
        FP_ONE as int
    } else {
        FP_ONE - sp_pow_unit(w, fx_mul(dt, SMOOTH_RATE_FP as int))
    }
}

/// The exponential-decay filter: a blend weight and the retained previous
/// output.
#[derive(Clone, Copy, Debug)]
pub struct Smoother {
    pub weight: i64,
    pub lag: Option<LookTransform>,
}

impl Smoother {
    /// The representation invariant: weight strictly below one, lag pose
    /// within the coordinate bound.
    pub open spec fn wf(self) -> bool {
        &&& 0 <= self.weight < FP_ONE
        &&& match self.lag {
            Option::Some(l) => sp_pose_in_range(l, SMOOTH_POS_LIM as int),
            Option::None => true,
        }
    }

    /// A fresh filter: no lag value yet, so the first sample passes through.
    pub fn new(weight: i64) -> (r: Self)
        requires
            0 <= weight < FP_ONE,
        ensures
            r.weight == weight,
            r.lag is None,
            r.wf(),
    {
        Smoother { weight, lag: None }
    }

    /// Feed one raw pose and the elapsed time; returns the smoothed pose and
    /// retains it as the new lag value.
    ///
    /// The first sample is returned unchanged. Afterwards every coordinate
    /// moves from the lag value toward the raw pose by the shared
    /// interpolation factor `1 - weight^(dt * rate)` (see
    /// [`sp_blend_factor`]), never overshooting and never retreating; a
    /// lag already equal to the raw pose stays equal, and a zero weight
    /// passes the raw pose through for any positive elapsed time.
    pub fn smooth(&mut self, raw: &LookTransform, dt: i64) -> (r: LookTransform)
        requires
            old(self).wf(),
            sp_pose_in_range(*raw, SMOOTH_POS_LIM as int),
            0 <= dt <= DT_LIM,
        ensures
            final(self).weight == old(self).weight,
            final(self).lag == Some(r),
            final(self).wf(),
            old(self).lag is None ==> r == *raw,
            old(self).lag matches Some(l) ==> {
                &&& sp_pose_lerp(l, *raw, r, sp_blend_factor(old(self).weight as int, dt as int))
                &&& sp_pose_approaches(l, *raw, r)
                &&& (l == *raw ==> r == *raw)
            },
            old(self).lag is Some && old(self).weight == 0 && 0 < dt ==> r == *raw,
    {
        match self.lag {
            None => {
                self.lag = Some(*raw);
                *raw
            },
            Some(l) => {
                let t: i64;
                if self.weight == 0 && dt > 0 {
                    t = FP_ONE;
                } else {
                    proof {
                        lemma_mul_bound(
                            dt as int,
                            SMOOTH_RATE_FP as int,
                            DT_LIM as int,
                            SMOOTH_RATE_FP as int,
                        );
                        assert(0 <= (dt as int) * (SMOOTH_RATE_FP as int)) by (nonlinear_arith)
                            requires
                                0 <= dt as int,
                                0 < SMOOTH_RATE_FP as int,
                        ;
                        lemma_div_is_ordered(0, (dt as int) * (SMOOTH_RATE_FP as int), FP_ONE as int);
                    }
                    let e = mul_fp(dt, SMOOTH_RATE_FP);
                    t = FP_ONE - pow_unit_fp(self.weight, e);
                }
                proof {
                    assert(t as int == sp_blend_factor(self.weight as int, dt as int));
                }
                let out = LookTransform {
                    eye: Vec3Fx {
                        x: lerp_fp(l.eye.x, raw.eye.x, t),
                        y: lerp_fp(l.eye.y, raw.eye.y, t),
                        z: lerp_fp(l.eye.z, raw.eye.z, t),
                    },
                    target: Vec3Fx {
                        x: lerp_fp(l.target.x, raw.target.x, t),
                        y: lerp_fp(l.target.y, raw.target.y, t),
                        z: lerp_fp(l.target.z, raw.target.z, t),
                    },
                };
                proof {
                    assert(sp_pose_lerp(l, *raw, out, t as int));
                    if l == *raw {
                        assert(out.eye == raw.eye);
                        assert(out.target == raw.target);
                    }
                    if self.weight == 0 && dt > 0 {
                        crate::fixed::lemma_fx_mul_one(raw.eye.x - l.eye.x);
                        crate::fixed::lemma_fx_mul_one(raw.eye.y - l.eye.y);
                        crate::fixed::lemma_fx_mul_one(raw.eye.z - l.eye.z);
                        crate::fixed::lemma_fx_mul_one(raw.target.x - l.target.x);
                        crate::fixed::lemma_fx_mul_one(raw.target.y - l.target.y);
                        crate::fixed::lemma_fx_mul_one(raw.target.z - l.target.z);
                        assert(out.eye == raw.eye);
                        assert(out.target == raw.target);
                    }
                }
                self.lag = Some(out);
                out
            },
        }
    }
}

/// The pose and its filter, composed as one rig component.
#[derive(Clone, Copy, Debug)]
pub struct LookTransformBundle {
    pub transform: LookTransform,
    pub smoother: Smoother,
}

} // verus!
