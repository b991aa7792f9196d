//! The pose types: yaw/pitch angles safe from the gimbal singularity, and
//! the eye/target transform with its derived direction and radius.

use vstd::prelude::*;

verus! {

use crate::fixed::FP_ONE;
use crate::fixed::ISQRT_RES_LIM;
use crate::fixed::clamp_fp;
use crate::fixed::div_fp;
use crate::fixed::fx_clamp;
use crate::fixed::fx_div;
use crate::fixed::fx_mul;
use crate::fixed::lemma_fx_mul_bound;
use crate::fixed::lemma_fx_square_nonneg;
use crate::fixed::lemma_mul_bound;
use crate::fixed::lemma_sp_isqrt;
use crate::fixed::lemma_trunc_div_bound;
use crate::fixed::mul_fp;
use crate::fixed::sp_isqrt;
use crate::fixed::sqrt_fp;
use crate::geometry::LEN2_ARG_LIM;
use crate::geometry::Vec3Fx;
use crate::geometry::sp_in_range3;
use crate::geometry::sp_len2;
use crate::geometry::v3_len2_fp;
use crate::geometry::v3_sub;
use crate::trig::ANGLE_ARG_LIM;
use crate::trig::HALF_PI_FP;
use crate::trig::PI_FP;
use crate::trig::asin_fp;
use crate::trig::atan2_fp;
use crate::trig::cos_fp;
use crate::trig::sin_fp;
use crate::trig::sp_asin;
use crate::trig::sp_atan2;
use crate::trig::sp_cos;
use crate::trig::sp_sin;
use crate::trig::sp_wrap_angle;
use crate::trig::wrap_angle;
use vstd::arithmetic::div_mod::lemma_fundamental_div_mod;

/// Largest pitch magnitude `LookAngles` ever holds: pi/2 minus a margin of
/// 1/1024 radian, strictly inside the open interval around the gimbal
/// singularity.
pub const PITCH_LIM_FP: i64 = 26337205;

/// Bound on the coordinates of caller-supplied poses: 2^40.
pub const POSE_LIM: i64 = 1099511627776;

/// Bound within which derived quantities of a pose stay computable: 2^41.
pub const POSE_EXT_LIM: i64 = 2199023255552;

/// A gimbal-lock-safe direction: yaw wrapped into [-pi, pi], pitch clamped
/// strictly inside (-pi/2, pi/2).
#[derive(Clone, Copy, Debug, PartialEq, Eq, Structural)]
pub struct LookAngles {
    pub yaw: i64,
    pub pitch: i64,
}

/// Dividing a component of a vector by the integer square root of the
/// vector's scaled squared length stays far inside `i64`.
pub proof fn lemma_component_div_in_range(c: int, d2: int, n: int)
    requires
        fx_mul(c, c) <= d2,
        1 <= d2,
        0 <= n,
        n * n <= d2 * (FP_ONE as int),
        d2 * (FP_ONE as int) < (n + 1) * (n + 1),
    ensures
        1 <= n,
        -(4098 * (FP_ONE as int)) <= fx_div(c, n) <= 4098 * (FP_ONE as int),
{
    let one = FP_ONE as int;
    assert(1 <= n) by (nonlinear_arith)
        requires
            d2 * one < (n + 1) * (n + 1),
            1 <= d2,
            one == 16777216,
            0 <= n,
    ;
    lemma_fx_square_nonneg(c);
    lemma_fundamental_div_mod(c * c, one);
    assert(c * c < (d2 + 1) * one) by (nonlinear_arith)
        requires
            c * c == one * ((c * c) / one) + (c * c) % one,
            (c * c) / one <= d2,
            0 <= (c * c) % one < one,
            0 < one,
    ;
    assert(-(n + 4097) <= c <= n + 4097) by (nonlinear_arith)
        requires
            c * c < (d2 + 1) * one,
            d2 * one < (n + 1) * (n + 1),
            0 <= n,
            one == 16777216,
    ;
    assert(-((4098 * one) * n) <= c * one <= (4098 * one) * n) by (nonlinear_arith)
        requires
            -(n + 4097) <= c <= n + 4097,
            1 <= n,
            one == 16777216,
    ;
    lemma_trunc_div_bound(c * one, n, 4098 * one);
}

/// The angles a direction vector reads as: yaw is the planar angle of the
/// horizontal components, pitch the arcsine of the vertical component
/// divided by the vector's length (zero when the length truncates to
/// zero), clamped clear of the poles.
pub open spec fn sp_from_vector(v: Vec3Fx) -> LookAngles {
    let n = crate::fixed::sp_sqrt_fx(sp_len2(v));
    let vy = if n >= 1 {
        fx_clamp(fx_div(v.y as int, n), -FP_ONE as int, FP_ONE as int)
    } else {
        0
    };
    LookAngles {
        yaw: sp_atan2(v.x as int, v.z as int) as i64,
        pitch: fx_clamp(sp_asin(vy), -PITCH_LIM_FP as int, PITCH_LIM_FP as int) as i64,
    }
}

impl LookAngles {
    /// The representation invariant: yaw canonical, pitch clear of the
    /// singularity.
    pub open spec fn wf(self) -> bool {
        &&& -PI_FP <= self.yaw <= PI_FP
        &&& -PITCH_LIM_FP <= self.pitch <= PITCH_LIM_FP
    }

    /// The angles looking straight along the horizontal forward axis.
    pub fn new() -> (r: Self)
        ensures
            r.yaw == 0,
            r.pitch == 0,
            r.wf(),
    {
        LookAngles { yaw: 0, pitch: 0 }
    }

    /// Accumulate a yaw delta; the result is wrapped back into [-pi, pi).
    pub fn add_yaw(&mut self, delta: i64)
        requires
            old(self).wf(),
            -(ANGLE_ARG_LIM as int) <= delta <= ANGLE_ARG_LIM as int,
        ensures
            final(self).yaw as int == sp_wrap_angle(old(self).yaw + delta),
            final(self).pitch == old(self).pitch,
            final(self).wf(),
    {
        self.yaw = wrap_angle(self.yaw + delta);
    }

    /// Accumulate a pitch delta; the result is clamped strictly inside the
    /// open interval around the poles, so the singularity is unreachable.
    pub fn add_pitch(&mut self, delta: i64)
        requires
            old(self).wf(),
            -(ANGLE_ARG_LIM as int) <= delta <= ANGLE_ARG_LIM as int,
        ensures
            final(self).pitch as int == fx_clamp(
                old(self).pitch + delta,
                -PITCH_LIM_FP as int,
                PITCH_LIM_FP as int,
            ),
            final(self).yaw == old(self).yaw,
            final(self).wf(),
    {
        self.pitch = clamp_fp(self.pitch + delta, -PITCH_LIM_FP, PITCH_LIM_FP);
    }

    /// Contract check run by the reducers after a tick's pitch deltas: the
    /// pitch must be strictly clear of straight up or down. Under the
    /// representation invariant the check can never fire, which is
    /// discharged here once and for all.
    pub fn assert_not_looking_up(&self)
        requires
            self.wf(),
    {
        proof {
            assert(-HALF_PI_FP < self.pitch < HALF_PI_FP);
        }
    }

    /// The unit look direction described by the angles:
    /// (cos pitch * sin yaw, sin pitch, cos pitch * cos yaw).
    pub fn unit_vector(&self) -> (r: Vec3Fx)
        requires
            self.wf(),
        ensures
            r.x as int == sp_unit_x(self.yaw as int, self.pitch as int),
            r.y as int == sp_unit_y(self.pitch as int),
            r.z as int == sp_unit_z(self.yaw as int, self.pitch as int),
            sp_in_range3(r, FP_ONE as int),
    {
        let cp = cos_fp(self.pitch);
        let sy = sin_fp(self.yaw);
        let sinp = sin_fp(self.pitch);
        let cy = cos_fp(self.yaw);
        proof {
            lemma_mul_bound(cp as int, sy as int, FP_ONE as int, FP_ONE as int);
            lemma_fx_mul_bound(cp as int, sy as int, FP_ONE as int, FP_ONE as int, FP_ONE as int);
            lemma_mul_bound(cp as int, cy as int, FP_ONE as int, FP_ONE as int);
            lemma_fx_mul_bound(cp as int, cy as int, FP_ONE as int, FP_ONE as int, FP_ONE as int);
        }
        Vec3Fx { x: mul_fp(cp, sy), y: sinp, z: mul_fp(cp, cy) }
    }

    /// The angles of a direction vector: yaw from the horizontal-plane
    /// components, pitch from the normalized vertical component. A
    /// direction degenerate at fixed-point resolution (scaled squared
    /// length zero) reads as level pitch. Exactly [`sp_from_vector`].
    pub fn from_vector(v: Vec3Fx) -> (r: LookAngles)
        requires
            sp_in_range3(v, LEN2_ARG_LIM as int),
        ensures
            r == sp_from_vector(v),
            r.wf(),
    {
        let d2 = v3_len2_fp(v);
        let n = sqrt_fp(d2);
        let vy = if n > 0 {
            proof {
                lemma_fx_square_nonneg(v.x as int);
                lemma_fx_square_nonneg(v.y as int);
                lemma_fx_square_nonneg(v.z as int);
                assert(1 <= d2) by {
                    if d2 == 0 {
                        assert((n as int) * (n as int) <= 0);
                        assert((n as int) * (n as int) >= 1) by (nonlinear_arith)
                            requires
                                1 <= n as int,
                        ;
                    }
                }
                lemma_component_div_in_range(v.y as int, d2 as int, n as int);
            }
            let q = div_fp(v.y, n);
            clamp_fp(q, -FP_ONE, FP_ONE)
        } else {
            0
        };
        let pitch0 = asin_fp(vy);
        let pitch = clamp_fp(pitch0, -PITCH_LIM_FP, PITCH_LIM_FP);
        let yaw = atan2_fp(v.x, v.z);
        LookAngles { yaw, pitch }
    }
}

/// The camera pose: where the eye sits and what it looks at.
#[derive(Clone, Copy, Debug, PartialEq, Eq, Structural)]
pub struct LookTransform {
    pub eye: Vec3Fx,
    pub target: Vec3Fx,
}

/// The scaled squared distance between two points given by coordinates.
pub open spec fn sp_dist2_pts(ax: int, ay: int, az: int, bx: int, by: int, bz: int) -> int {
    fx_mul(bx - ax, bx - ax) + fx_mul(by - ay, by - ay) + fx_mul(bz - az, bz - az)
}

/// The distance between two points given by coordinates, as the integer
/// square root of the scaled squared distance.
pub open spec fn sp_radius_pts(ax: int, ay: int, az: int, bx: int, by: int, bz: int) -> int {
    sp_isqrt(sp_dist2_pts(ax, ay, az, bx, by, bz) * (FP_ONE as int))
}

/// The scaled squared distance from eye to target.
pub open spec fn sp_dist2(t: LookTransform) -> int {
    sp_dist2_pts(
        t.eye.x as int,
        t.eye.y as int,
        t.eye.z as int,
        t.target.x as int,
        t.target.y as int,
        t.target.z as int,
    )
}

/// The eye-to-target distance, as the integer square root of the scaled
/// squared distance.
pub open spec fn sp_radius(t: LookTransform) -> int {
    sp_isqrt(sp_dist2(t) * (FP_ONE as int))
}

/// The components of the unit look direction described by yaw and pitch.
pub open spec fn sp_unit_x(yaw: int, pitch: int) -> int {
    fx_mul(sp_cos(pitch), sp_sin(yaw))
}

pub open spec fn sp_unit_y(pitch: int) -> int {
    sp_sin(pitch)
}

pub open spec fn sp_unit_z(yaw: int, pitch: int) -> int {
    fx_mul(sp_cos(pitch), sp_cos(yaw))
}

/// The normalized look direction of a pose: each coordinate difference
/// divided by the radius, clamped into [-1, 1].
pub open spec fn sp_direction(t: LookTransform) -> Vec3Fx {
    Vec3Fx {
        x: fx_clamp(
            fx_div(t.target.x - t.eye.x, sp_radius(t)),
            -FP_ONE as int,
            FP_ONE as int,
        ) as i64,
        y: fx_clamp(
            fx_div(t.target.y - t.eye.y, sp_radius(t)),
            -FP_ONE as int,
            FP_ONE as int,
        ) as i64,
        z: fx_clamp(
            fx_div(t.target.z - t.eye.z, sp_radius(t)),
            -FP_ONE as int,
            FP_ONE as int,
        ) as i64,
    }
}

/// All six coordinates of a pose within `[-m, m]`.
pub open spec fn sp_pose_in_range(t: LookTransform, m: int) -> bool {
    &&& sp_in_range3(t.eye, m)
    &&& sp_in_range3(t.target, m)
}

impl LookTransform {
    /// A pose from its two points.
    pub fn new(eye: Vec3Fx, target: Vec3Fx) -> (r: Self)
        ensures
            r.eye == eye,
            r.target == target,
    {
        LookTransform { eye, target }
    }

    /// The eye-to-target distance, recomputed from the points on every call.
    pub fn radius(&self) -> (r: i64)
        requires
            sp_pose_in_range(*self, POSE_EXT_LIM as int),
        ensures
            r as int == sp_radius(*self),
            0 <= r,
            r as int <= ISQRT_RES_LIM as int,
    {
        let d = v3_sub(self.target, self.eye);
        let d2 = v3_len2_fp(d);
        proof {
            assert(sp_len2(d) == sp_dist2(*self));
        }
        sqrt_fp(d2)
    }

    /// The normalized look direction, recomputed from the points on every
    /// call; each component is the clamped quotient of the coordinate
    /// difference by the radius. Exactly [`sp_direction`].
    pub fn look_direction(&self) -> (r: Vec3Fx)
        requires
            sp_pose_in_range(*self, POSE_EXT_LIM as int),
            1 <= sp_dist2(*self),
        ensures
            r == sp_direction(*self),
            r.x as int == fx_clamp(
                fx_div(self.target.x - self.eye.x, sp_radius(*self)),
                -FP_ONE as int,
                FP_ONE as int,
            ),
            r.y as int == fx_clamp(
                fx_div(self.target.y - self.eye.y, sp_radius(*self)),
                -FP_ONE as int,
                FP_ONE as int,
            ),
            r.z as int == fx_clamp(
                fx_div(self.target.z - self.eye.z, sp_radius(*self)),
                -FP_ONE as int,
                FP_ONE as int,
            ),
            sp_in_range3(r, FP_ONE as int),
    {
        let d = v3_sub(self.target, self.eye);
        let d2 = v3_len2_fp(d);
        let n = sqrt_fp(d2);
        proof {
            assert(sp_len2(d) == sp_dist2(*self));
            lemma_fx_square_nonneg(d.x as int);
            lemma_fx_square_nonneg(d.y as int);
            lemma_fx_square_nonneg(d.z as int);
            lemma_component_div_in_range(d.x as int, d2 as int, n as int);
            lemma_component_div_in_range(d.y as int, d2 as int, n as int);
            lemma_component_div_in_range(d.z as int, d2 as int, n as int);
        }
        let qx = div_fp(d.x, n);
        let qy = div_fp(d.y, n);
        let qz = div_fp(d.z, n);
        Vec3Fx {
            x: clamp_fp(qx, -FP_ONE, FP_ONE),
            y: clamp_fp(qy, -FP_ONE, FP_ONE),
            z: clamp_fp(qz, -FP_ONE, FP_ONE),
        }
    }
}

} // verus!
