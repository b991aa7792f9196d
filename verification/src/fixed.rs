//! Fixed-point scalar arithmetic.
//!
//! Every scalar of the library (world coordinates, radians, blend weights,
//! zoom factors) is an `i64` counting units of `1/FP_ONE`. Products and
//! quotients are computed through 128-bit intermediates and truncate toward
//! zero, like the hardware operations they stand in for.

use vstd::prelude::*;

verus! {

use vstd::arithmetic::div_mod::lemma_div_is_ordered;
use vstd::arithmetic::div_mod::lemma_div_by_multiple;
use vstd::arithmetic::div_mod::lemma_fundamental_div_mod;

/// One whole unit (1.0) in the fixed-point representation: 2^24.
pub const FP_ONE: i64 = 16777216;

/// Largest product `a * b` (as a mathematical integer) that `mul_fp` accepts:
/// 2^86, so that the scaled result stays within `i64`.
pub const FP_PROD_LIM: i128 = 77371252455336267181195264;

/// Upper bound on the radicand `isqrt_u128` accepts: 2^88.
pub const ISQRT_ARG_LIM: u128 = 309485009821345068724781056;

/// Upper bound on integer square roots of accepted radicands: 2^44.
pub const ISQRT_RES_LIM: u64 = 17592186044416;

/// Integer division truncating toward zero, for a positive divisor.
pub open spec fn trunc_div(a: int, b: int) -> int
    recommends
        b > 0,
{
    if a >= 0 {
        a / b
    } else {
        -((-a) / b)
    }
}

/// The fixed-point product: `a * b / FP_ONE`, truncated toward zero.
pub open spec fn fx_mul(a: int, b: int) -> int {
    trunc_div(a * b, FP_ONE as int)
}

/// The fixed-point quotient: `a * FP_ONE / b`, truncated toward zero.
pub open spec fn fx_div(a: int, b: int) -> int
    recommends
        b != 0,
{
    if b > 0 {
        trunc_div(a * (FP_ONE as int), b)
    } else {
        trunc_div(-(a * (FP_ONE as int)), -b)
    }
}

/// Clamping to a closed interval.
pub open spec fn fx_clamp(v: int, lo: int, hi: int) -> int {
    if v < lo {
        lo
    } else if v > hi {
        hi
    } else {
        v
    }
}

/// Truncated division shrinks magnitudes: `|trunc_div(a, b)| <= m` whenever
/// `|a| <= m * b`.
pub proof fn lemma_trunc_div_bound(a: int, b: int, m: int)
    requires
        b > 0,
        0 <= m,
        -(m * b) <= a <= m * b,
    ensures
        -m <= trunc_div(a, b) <= m,
{
    if a >= 0 {
        lemma_div_is_ordered(a, m * b, b);
        lemma_div_by_multiple(m, b);
        lemma_div_is_ordered(0, a, b);
    } else {
        lemma_div_is_ordered(-a, m * b, b);
        lemma_div_by_multiple(m, b);
        lemma_div_is_ordered(0, -a, b);
    }
}

/// Bound on a product from bounds on its factors.
pub proof fn lemma_mul_bound(a: int, b: int, am: int, bm: int)
    by (nonlinear_arith)
    requires
        -am <= a <= am,
        -bm <= b <= bm,
        0 <= am,
        0 <= bm,
    ensures
        -(am * bm) <= a * b <= am * bm,
{
}

/// Bound on a fixed-point product from bounds on its factors:
/// `|a| <= am` and `|b| <= bm` give `|fx_mul(a, b)| <= m` for any `m`
/// with `am * bm <= m * FP_ONE`.
pub proof fn lemma_fx_mul_bound(a: int, b: int, am: int, bm: int, m: int)
    requires
        -am <= a <= am,
        -bm <= b <= bm,
        0 <= am,
        0 <= bm,
        0 <= m,
        am * bm <= m * (FP_ONE as int),
    ensures
        -m <= fx_mul(a, b) <= m,
{
    lemma_mul_bound(a, b, am, bm);
    lemma_trunc_div_bound(a * b, FP_ONE as int, m);
}

/// Multiplying by one is exact: `fx_mul(FP_ONE, b) == b`.
pub proof fn lemma_fx_mul_one(b: int)
    ensures
        fx_mul(FP_ONE as int, b) == b,
        fx_mul(b, FP_ONE as int) == b,
{
    let one = FP_ONE as int;
    if b >= 0 {
        lemma_div_by_multiple(b, one);
        assert(one * b == b * one) by (nonlinear_arith);
    } else {
        lemma_div_by_multiple(-b, one);
        assert(-(one * b) == (-b) * one) by (nonlinear_arith);
        assert(-(b * one) == (-b) * one) by (nonlinear_arith);
    }
}

/// A square never goes negative, before or after rescaling.
pub proof fn lemma_fx_square_nonneg(a: int)
    ensures
        0 <= a * a,
        0 <= fx_mul(a, a),
    decreases 0int,
{
    assert(0 <= a * a) by (nonlinear_arith);
    lemma_div_is_ordered(0, a * a, FP_ONE as int);
}

/// Fixed-point multiplication, truncating toward zero.
pub fn mul_fp(a: i64, b: i64) -> (r: i64)
    requires
        -(FP_PROD_LIM as int) < (a as int) * (b as int) < FP_PROD_LIM as int,
    ensures
        r as int == fx_mul(a as int, b as int),
{
    proof {
        lemma_mul_bound(
            a as int,
            b as int,
            9223372036854775808,
            9223372036854775808,
        );
    }
    let p: i128 = (a as i128) * (b as i128);
    if p >= 0 {
        let q: u128 = (p as u128) / (FP_ONE as u128);
        proof {
            lemma_fundamental_div_mod(p as int, FP_ONE as int);
            assert(q < 4611686018427387904) by (nonlinear_arith)
                requires
                    (p as int) == (FP_ONE as int) * (q as int) + (p as int) % (FP_ONE as int),
                    0 <= (p as int) % (FP_ONE as int),
                    (p as int) < FP_PROD_LIM as int,
                    FP_PROD_LIM as int == 77371252455336267181195264,
                    0 <= q,
            ;
        }
        q as i64
    } else {
        let n: i128 = -p;
        let q: u128 = (n as u128) / (FP_ONE as u128);
        proof {
            lemma_fundamental_div_mod(n as int, FP_ONE as int);
            assert(q < 4611686018427387904) by (nonlinear_arith)
                requires
                    (n as int) == (FP_ONE as int) * (q as int) + (n as int) % (FP_ONE as int),
                    0 <= (n as int) % (FP_ONE as int),
                    (n as int) < FP_PROD_LIM as int,
                    FP_PROD_LIM as int == 77371252455336267181195264,
                    0 <= q,
            ;
        }
        -(q as i64)
    }
}

/// Fixed-point division by a positive divisor, truncating toward zero.
pub fn div_fp(a: i64, b: i64) -> (r: i64)
    requires
        b > 0,
        -0x7fff_ffff_ffff_ffff <= fx_div(a as int, b as int) <= 0x7fff_ffff_ffff_ffff,
    ensures
        r as int == fx_div(a as int, b as int),
{
    let num: i128 = (a as i128) * (FP_ONE as i128);
    proof {
        lemma_mul_bound(a as int, FP_ONE as int, 9223372036854775808, FP_ONE as int);
    }
    if num >= 0 {
        let q: u128 = (num as u128) / (b as u128);
        q as i64
    } else {
        let q: u128 = ((-num) as u128) / (b as u128);
        -(q as i64)
    }
}

/// Clamp a value to a closed interval.
pub fn clamp_fp(v: i64, lo: i64, hi: i64) -> (r: i64)
    requires
        lo <= hi,
    ensures
        r as int == fx_clamp(v as int, lo as int, hi as int),
        lo <= r <= hi,
{
    if v < lo {
        lo
    } else if v > hi {
        hi
    } else {
        v
    }
}

/// Integer square root: the unique `r` with `r^2 <= m < (r + 1)^2`, defined
/// by counting up.
pub open spec fn sp_isqrt(m: int) -> int
    decreases m,
{
    if m <= 0 {
        0
    } else {
        let r = sp_isqrt(m - 1);
        if (r + 1) * (r + 1) <= m {
            r + 1
        } else {
            r
        }
    }
}

pub proof fn lemma_sp_isqrt(m: int)
    requires
        0 <= m,
    ensures
        0 <= sp_isqrt(m),
        sp_isqrt(m) * sp_isqrt(m) <= m,
        m < (sp_isqrt(m) + 1) * (sp_isqrt(m) + 1),
    decreases m,
{
    if m == 0 {
        assert(sp_isqrt(0) == 0);
    } else {
        lemma_sp_isqrt(m - 1);
        let r = sp_isqrt(m - 1);
        if (r + 1) * (r + 1) <= m {
            assert((r + 1 + 1) * (r + 1 + 1) > m) by (nonlinear_arith)
                requires
                    0 <= r,
                    m - 1 < (r + 1) * (r + 1),
            ;
        }
    }
}

/// Two integer square roots of the same value agree.
pub proof fn lemma_isqrt_unique(m: int, r: int)
    requires
        0 <= m,
        0 <= r,
        r * r <= m,
        m < (r + 1) * (r + 1),
    ensures
        r == sp_isqrt(m),
{
    lemma_sp_isqrt(m);
    let s = sp_isqrt(m);
    if r < s {
        assert((r + 1) * (r + 1) <= s * s) by (nonlinear_arith)
            requires
                0 <= r,
                r < s,
        ;
    }
    if s < r {
        assert((s + 1) * (s + 1) <= r * r) by (nonlinear_arith)
            requires
                0 <= s,
                s < r,
        ;
    }
}

/// Integer square root of a 128-bit value below 2^88, by bisection.
pub fn isqrt_u128(m: u128) -> (r: u64)
    requires
        m < ISQRT_ARG_LIM,
    ensures
        r as int == sp_isqrt(m as int),
        (r as int) * (r as int) <= m as int,
        (m as int) < (r as int + 1) * (r as int + 1),
        r <= ISQRT_RES_LIM,
{
    let mut lo: u64 = 0;
    let mut hi: u64 = ISQRT_RES_LIM;
    proof {
        assert((hi as int + 1) * (hi as int + 1) > m as int) by (nonlinear_arith)
            requires
                hi as int == 17592186044416,
                (m as int) < 309485009821345068724781056,
        ;
    }
    while lo < hi
        invariant
            lo <= hi,
            hi <= ISQRT_RES_LIM,
            (lo as int) * (lo as int) <= m as int,
            (m as int) < (hi as int + 1) * (hi as int + 1),
        decreases hi - lo,
    {
        let mid: u64 = lo + (hi - lo + 1) / 2;
        proof {
            assert((mid as int) * (mid as int) <= 309485009821345068724781056)
                by (nonlinear_arith)
                requires
                    0 <= mid as int <= 17592186044416,
            ;
        }
        let sq: u128 = (mid as u128) * (mid as u128);
        if sq <= m {
            lo = mid;
        } else {
            hi = mid - 1;
        }
    }
    proof {
        lemma_isqrt_unique(m as int, lo as int);
    }
    lo
}

/// The square root of a fixed-point value, as a fixed-point value:
/// `sp_isqrt(v * FP_ONE)`.
pub open spec fn sp_sqrt_fx(v: int) -> int {
    sp_isqrt(v * (FP_ONE as int))
}

/// Fixed-point square root.
pub fn sqrt_fp(v: i64) -> (r: i64)
    requires
        0 <= v,
    ensures
        r as int == sp_sqrt_fx(v as int),
        0 <= r,
        (r as int) * (r as int) <= (v as int) * (FP_ONE as int),
        (v as int) * (FP_ONE as int) < (r as int + 1) * (r as int + 1),
        r as int <= ISQRT_RES_LIM as int,
{
    proof {
        assert((v as int) * (FP_ONE as int) < 309485009821345068724781056)
            by (nonlinear_arith)
            requires
                0 <= v as int <= 9223372036854775807,
                FP_ONE as int == 16777216,
        ;
    }
    let m: u128 = (v as u128) * (FP_ONE as u128);
    let r: u64 = isqrt_u128(m);
    r as i64
}

} // verus!
