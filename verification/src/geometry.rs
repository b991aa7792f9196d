//! Plane and space vectors with fixed-point components.

use vstd::prelude::*;

verus! {

use crate::fixed::FP_PROD_LIM;
use crate::fixed::fx_mul;
use crate::fixed::lemma_fx_square_nonneg;
use crate::fixed::lemma_mul_bound;
use crate::fixed::mul_fp;

/// Bound on the components `v3_len2_fp` accepts: 2^42, so the three scaled
/// squares and their sum stay within `i64`.
pub const LEN2_ARG_LIM: i64 = 4398046511104;

/// A planar delta (pointer motion), in fixed point.
#[derive(Clone, Copy, Debug, PartialEq, Eq, Structural)]
pub struct Vec2Fx {
    pub x: i64,
    pub y: i64,
}

/// A point or direction in space, in fixed point.
#[derive(Clone, Copy, Debug, PartialEq, Eq, Structural)]
pub struct Vec3Fx {
    pub x: i64,
    pub y: i64,
    pub z: i64,
}

/// All components of a planar vector within `[-m, m]`.
pub open spec fn sp_in_range2(v: Vec2Fx, m: int) -> bool {
    &&& -m <= v.x <= m
    &&& -m <= v.y <= m
}

/// All components of a space vector within `[-m, m]`.
pub open spec fn sp_in_range3(v: Vec3Fx, m: int) -> bool {
    &&& -m <= v.x <= m
    &&& -m <= v.y <= m
    &&& -m <= v.z <= m
}

/// The scaled squared length of a space vector.
pub open spec fn sp_len2(v: Vec3Fx) -> int {
    fx_mul(v.x as int, v.x as int) + fx_mul(v.y as int, v.y as int) + fx_mul(
        v.z as int,
        v.z as int,
    )
}

/// Componentwise sum.
pub fn v3_add(a: Vec3Fx, b: Vec3Fx) -> (r: Vec3Fx)
    requires
        sp_in_range3(a, 0x2000_0000_0000_0000),
        sp_in_range3(b, 0x2000_0000_0000_0000),
    ensures
        r.x as int == a.x + b.x,
        r.y as int == a.y + b.y,
        r.z as int == a.z + b.z,
{
    Vec3Fx { x: a.x + b.x, y: a.y + b.y, z: a.z + b.z }
}

/// Componentwise difference.
pub fn v3_sub(a: Vec3Fx, b: Vec3Fx) -> (r: Vec3Fx)
    requires
        sp_in_range3(a, 0x2000_0000_0000_0000),
        sp_in_range3(b, 0x2000_0000_0000_0000),
    ensures
        r.x as int == a.x - b.x,
        r.y as int == a.y - b.y,
        r.z as int == a.z - b.z,
{
    Vec3Fx { x: a.x - b.x, y: a.y - b.y, z: a.z - b.z }
}

/// Componentwise negation.
pub fn v3_neg(a: Vec3Fx) -> (r: Vec3Fx)
    requires
        sp_in_range3(a, 0x2000_0000_0000_0000),
    ensures
        r.x as int == -a.x,
        r.y as int == -a.y,
        r.z as int == -a.z,
{
    Vec3Fx { x: -a.x, y: -a.y, z: -a.z }
}

/// A space vector scaled by a fixed-point factor.
pub fn v3_scale(s: i64, v: Vec3Fx) -> (r: Vec3Fx)
    requires
        -(FP_PROD_LIM as int) < (s as int) * (v.x as int) < FP_PROD_LIM as int,
        -(FP_PROD_LIM as int) < (s as int) * (v.y as int) < FP_PROD_LIM as int,
        -(FP_PROD_LIM as int) < (s as int) * (v.z as int) < FP_PROD_LIM as int,
    ensures
        r.x as int == fx_mul(s as int, v.x as int),
        r.y as int == fx_mul(s as int, v.y as int),
        r.z as int == fx_mul(s as int, v.z as int),
{
    Vec3Fx { x: mul_fp(s, v.x), y: mul_fp(s, v.y), z: mul_fp(s, v.z) }
}

/// The cross product of a vector with the world up axis (0, 1, 0).
pub fn v3_cross_up(v: Vec3Fx) -> (r: Vec3Fx)
    requires
        sp_in_range3(v, 0x2000_0000_0000_0000),
    ensures
        r.x as int == -v.z,
        r.y as int == 0,
        r.z as int == v.x,
{
    Vec3Fx { x: -v.z, y: 0, z: v.x }
}

/// A vector scaled componentwise by a fixed-point factor, spec form.
pub open spec fn sp_scale3(s: int, v: Vec3Fx) -> Vec3Fx {
    Vec3Fx {
        x: fx_mul(s, v.x as int) as i64,
        y: fx_mul(s, v.y as int) as i64,
        z: fx_mul(s, v.z as int) as i64,
    }
}

/// Componentwise negation, spec form.
pub open spec fn sp_neg3(v: Vec3Fx) -> Vec3Fx {
    Vec3Fx { x: (-(v.x as int)) as i64, y: (-(v.y as int)) as i64, z: (-(v.z as int)) as i64 }
}

/// Cross product with the world up axis, spec form.
pub open spec fn sp_cross_up3(v: Vec3Fx) -> Vec3Fx {
    Vec3Fx { x: (-(v.z as int)) as i64, y: 0, z: v.x }
}

/// The scaled squared length, executable form.
pub fn v3_len2_fp(v: Vec3Fx) -> (r: i64)
    requires
        sp_in_range3(v, LEN2_ARG_LIM as int),
    ensures
        r as int == sp_len2(v),
        0 <= r,
{
    proof {
        lemma_mul_bound(v.x as int, v.x as int, LEN2_ARG_LIM as int, LEN2_ARG_LIM as int);
        lemma_mul_bound(v.y as int, v.y as int, LEN2_ARG_LIM as int, LEN2_ARG_LIM as int);
        lemma_mul_bound(v.z as int, v.z as int, LEN2_ARG_LIM as int, LEN2_ARG_LIM as int);
        lemma_fx_square_nonneg(v.x as int);
        lemma_fx_square_nonneg(v.y as int);
        lemma_fx_square_nonneg(v.z as int);
        crate::fixed::lemma_fx_mul_bound(
            v.x as int,
            v.x as int,
            LEN2_ARG_LIM as int,
            LEN2_ARG_LIM as int,
            1152921504606846976,
        );
        crate::fixed::lemma_fx_mul_bound(
            v.y as int,
            v.y as int,
            LEN2_ARG_LIM as int,
            LEN2_ARG_LIM as int,
            1152921504606846976,
        );
        crate::fixed::lemma_fx_mul_bound(
            v.z as int,
            v.z as int,
            LEN2_ARG_LIM as int,
            LEN2_ARG_LIM as int,
            1152921504606846976,
        );
    }
    mul_fp(v.x, v.x) + mul_fp(v.y, v.y) + mul_fp(v.z, v.z)
}

} // verus!
