//! Signed 16.16 fixed-point scalars.
//!
//! A scalar holds `value * 65536`, so one world unit is `FP_ONE`. Products
//! and quotients round toward zero, exactly as the spec functions here state.

use vstd::arithmetic::div_mod::{
    lemma_div_is_ordered, lemma_div_multiples_vanish, lemma_div_nonincreasing,
    lemma_multiply_divide_le,
};
use vstd::arithmetic::mul::{lemma_mul_inequality, lemma_mul_upper_bound};
use vstd::prelude::*;

verus! {

/// One world unit.
pub const FP_ONE: i64 = 65536;

/// Half a world unit.
pub const FP_HALF: i64 = 32768;

/// Boundary tolerance used by the shape tests, about a thousandth of a unit.
pub const FP_EPS: i64 = 66;

pub open spec fn fp_abs_s(v: int) -> int {
    if v >= 0 { v } else { -v }
}

/// Division that rounds toward zero, the rounding every scalar operation
/// below uses. Meaningful only for `q != 0`.
pub open spec fn fp_quot(p: int, q: int) -> int {
    let pa = if p >= 0 { p } else { -p };
    let qa = if q >= 0 { q } else { -q };
    let m = pa / qa;
    if (p >= 0) == (q >= 0) { m } else { -m }
}

/// The fixed-point product: `a * b` scaled back down by one unit.
pub open spec fn fp_mul_s(a: int, b: int) -> int {
    fp_quot(a * b, 65536)
}

/// The fixed-point quotient: `a` scaled up by one unit, then divided by `b`.
pub open spec fn fp_div_s(a: int, b: int) -> int {
    fp_quot(a * 65536, b)
}

pub open spec fn fp_clamp_s(v: int, lo: int, hi: int) -> int {
    if v < lo { lo } else if v > hi { hi } else { v }
}

/// The magnitude of a rounded-toward-zero quotient is the floor quotient of
/// the magnitudes.
pub proof fn lemma_quot_abs(p: int, q: int)
    requires
        q > 0,
    ensures
        fp_abs_s(fp_quot(p, q)) == fp_abs_s(p) / q,
        fp_abs_s(fp_quot(p, q)) <= fp_abs_s(p),
{
    lemma_div_nonincreasing(fp_abs_s(p), q);
}

/// Bound transfer through a rounded quotient: if `|p| <= c * q` then
/// `|fp_quot(p, q)| <= c`.
pub proof fn lemma_quot_bound(p: int, q: int, c: int)
    requires
        q > 0,
        fp_abs_s(p) <= q * c,
    ensures
        fp_abs_s(fp_quot(p, q)) <= c,
{
    lemma_quot_abs(p, q);
    lemma_multiply_divide_le(fp_abs_s(p), q, c);
}

/// A product of two scalars in `[0, FP_ONE]` stays in `[0, FP_ONE]` and below
/// both factors.
pub proof fn lemma_fp_mul_unit(a: int, b: int)
    requires
        0 <= a <= 65536,
        0 <= b <= 65536,
    ensures
        0 <= fp_mul_s(a, b) <= 65536,
        fp_mul_s(a, b) <= a,
        fp_mul_s(a, b) <= b,
        0 <= a * b <= 65536 * 65536,
{
    lemma_mul_upper_bound(a, a, b, 65536);
    lemma_mul_upper_bound(a, 65536, b, b);
    assert(fp_mul_s(a, b) == (a * b) / 65536);
    lemma_multiply_divide_le(a * b, 65536, a);
    assert(a * b <= 65536 * b) by {
        lemma_mul_inequality(a, 65536, b);
    }
    lemma_multiply_divide_le(a * b, 65536, b);
}

/// General magnitude bound for a fixed-point product.
pub proof fn lemma_fp_mul_bound(a: int, b: int, aa: int, bb: int)
    requires
        fp_abs_s(a) <= aa,
        fp_abs_s(b) <= bb,
    ensures
        fp_abs_s(a * b) <= aa * bb,
        fp_abs_s(fp_mul_s(a, b)) <= (aa * bb) / 65536,
{
    assert(fp_abs_s(a * b) <= aa * bb) by {
        lemma_mul_upper_bound(fp_abs_s(a), aa, fp_abs_s(b), bb);
        assert(fp_abs_s(a * b) == fp_abs_s(a) * fp_abs_s(b)) by (nonlinear_arith);
    }
    lemma_quot_abs(a * b, 65536);
    lemma_div_is_ordered(fp_abs_s(a * b), aa * bb, 65536);
}

pub fn fp_mul(a: i64, b: i64) -> (r: i64)
    requires
        -0x7FFF_FFFF_FFFF_FFFF * 0x10000 <= (a as int) * (b as int) <= 0x7FFF_FFFF_FFFF_FFFF
            * 0x10000,
    ensures
        r == fp_mul_s(a as int, b as int),
        fp_abs_s(r as int) == fp_abs_s((a as int) * (b as int)) / 65536,
{
    let p: i128 = (a as i128) * (b as i128);
    proof {
        lemma_quot_abs(p as int, 65536);
        lemma_div_is_ordered(fp_abs_s(p as int), 0x7FFF_FFFF_FFFF_FFFFint * 0x10000, 65536);
        lemma_div_multiples_vanish(0x7FFF_FFFF_FFFF_FFFF, 0x10000);
    }
    if p >= 0 {
        let q: u128 = (p as u128) / 65536;
        q as i64
    } else {
        let n: i128 = -p;
        let q: u128 = (n as u128) / 65536;
        -(q as i64)
    }
}

pub fn fp_div(a: i64, b: i64) -> (r: i64)
    requires
        b != 0,
        -0x7FFF_FFFF_FFFF <= a <= 0x7FFF_FFFF_FFFF,
        -0x7FFF_FFFF_FFFF_FFFF <= b,
    ensures
        r == fp_div_s(a as int, b as int),
        fp_abs_s(r as int) == (fp_abs_s(a as int) * 65536) / fp_abs_s(b as int),
{
    let pa: u64 = if a >= 0 {
        a as u64
    } else {
        (-a) as u64
    };
    let qa: u64 = if b >= 0 {
        b as u64
    } else {
        (-b) as u64
    };
    let p: u64 = pa * 65536;
    let m: u64 = p / qa;
    proof {
        lemma_div_is_ordered(p as int, 0x7FFF_FFFF_FFFFint * 0x10000, qa as int);
        lemma_div_nonincreasing(0x7FFF_FFFF_FFFFint * 0x10000, qa as int);
        assert(fp_abs_s((a as int) * 65536) == pa as int * 65536) by (nonlinear_arith)
            requires
                pa == fp_abs_s(a as int),
        ;
    }
    let neg: bool = (a >= 0) != (b >= 0);
    if neg {
        -(m as i64)
    } else {
        m as i64
    }
}

pub fn fp_clamp(v: i64, lo: i64, hi: i64) -> (r: i64)
    requires
        lo <= hi,
    ensures
        r == fp_clamp_s(v as int, lo as int, hi as int),
        lo <= r <= hi,
{
    if v < lo {
        lo
    } else if v > hi {
        hi
    } else {
        v
    }
}

/// Clamp into the unit interval `[0, FP_ONE]`.
pub fn fp_clamp01(v: i64) -> (r: i64)
    ensures
        r == fp_clamp_s(v as int, 0, 65536),
        0 <= r <= 65536,
{
    fp_clamp(v, 0, FP_ONE)
}

pub fn fp_abs(v: i64) -> (r: i64)
    requires
        -0x7FFF_FFFF_FFFF_FFFF <= v,
    ensures
        r == fp_abs_s(v as int),
{
    if v >= 0 {
        v
    } else {
        -v
    }
}

/// The integer voxel coordinate that contains a fixed-point coordinate:
/// floor division by one unit.
pub fn fp_floor_units(v: i64) -> (r: i64)
    requires
        -0x4000_0000_0000_0000 <= v <= 0x4000_0000_0000_0000,
    ensures
        r == (v as int) / 65536,
{
    if v >= 0 {
        ((v as u64) / 65536) as i64
    } else {
        let n: u64 = (-v) as u64;
        let m: u64 = (n + 65535) / 65536;
        proof {
            lemma_floor_of_negative(v as int, n as int, m as int);
            lemma_div_is_ordered((n + 65535) as int, 0x4000_0000_0000_FFFF, 65536);
        }
        -(m as i64)
    }
}

proof fn lemma_floor_of_negative(v: int, n: int, m: int)
    requires
        v < 0,
        n == -v,
        m == (n + 65535) / 65536,
    ensures
        -m == v / 65536,
{
    let q = n / 65536;
    let r = n % 65536;
    vstd::arithmetic::div_mod::lemma_fundamental_div_mod(n, 65536);
    if r == 0 {
        assert(m == q) by {
            vstd::arithmetic::div_mod::lemma_hoist_over_denominator(65535, q, 65536);
            assert(65536 * q + 65535 == 65535 + q * 65536) by (nonlinear_arith);
        }
        assert(v == 65536 * (-q)) by (nonlinear_arith)
            requires
                n == 65536 * q + r,
                v == -n,
                r == 0,
        ;
        lemma_div_multiples_vanish(-q, 65536);
    } else {
        assert(m == q + 1) by {
            vstd::arithmetic::div_mod::lemma_hoist_over_denominator(r + 65535, q, 65536);
            assert(n + 65535 == (r + 65535) + q * 65536) by (nonlinear_arith)
                requires
                    n == 65536 * q + r,
            ;
            assert((r + 65535) / 65536 == 1) by {
                vstd::arithmetic::div_mod::lemma_fundamental_div_mod_converse(
                    r + 65535,
                    65536,
                    1,
                    r - 1,
                );
            }
        }
        assert(v == 65536 * (-q - 1) + (65536 - r)) by (nonlinear_arith)
            requires
                n == 65536 * q + r,
                v == -n,
        ;
        vstd::arithmetic::div_mod::lemma_fundamental_div_mod_converse(
            v,
            65536,
            -q - 1,
            65536 - r,
        );
    }
}

/// Integer square root: the largest `r` with `r * r <= n`.
pub fn fp_isqrt(n: u128) -> (r: u64)
    ensures
        (r as int) * (r as int) <= n as int,
        (n as int) < ((r as int) + 1) * ((r as int) + 1),
{
    let mut lo: u128 = 0;
    let mut hi: u128 = 0x1_0000_0000_0000_0000;
    proof {
        assert((0x1_0000_0000_0000_0000 as int) * (0x1_0000_0000_0000_0000 as int) > n as int)
            by (nonlinear_arith)
            requires
                n < 0x1_0000_0000_0000_0000_0000_0000_0000_0000,
        ;
    }
    while lo + 1 < hi
        invariant
            lo < hi <= 0x1_0000_0000_0000_0000,
            (lo as int) * (lo as int) <= n as int,
            (n as int) < (hi as int) * (hi as int),
        decreases hi - lo,
    {
        let mid: u128 = lo + (hi - lo) / 2;
        proof {
            assert((mid as int) * (mid as int) < 0x1_0000_0000_0000_0000_0000_0000_0000_0000)
                by (nonlinear_arith)
                requires
                    mid < 0x1_0000_0000_0000_0000,
            ;
        }
        if mid * mid <= n {
            lo = mid;
        } else {
            hi = mid;
        }
    }
    lo as u64
}

/// Recursive fixed-point power with the same rounding as `fp_mul`.
pub open spec fn fp_pow_s(b: int, e: nat) -> int
    decreases e,
{
    if e == 0 {
        65536
    } else {
        fp_mul_s(b, fp_pow_s(b, (e - 1) as nat))
    }
}

/// Powers of a unit-interval base stay in the unit interval.
pub proof fn lemma_fp_pow_unit(b: int, e: nat)
    requires
        0 <= b <= 65536,
    ensures
        0 <= fp_pow_s(b, e) <= 65536,
    decreases e,
{
    if e != 0 {
        lemma_fp_pow_unit(b, (e - 1) as nat);
        lemma_fp_mul_unit(b, fp_pow_s(b, (e - 1) as nat));
    }
}

pub fn fp_pow(b: i64, e: u64) -> (r: i64)
    requires
        0 <= b <= 65536,
    ensures
        r == fp_pow_s(b as int, e as nat),
        0 <= r <= 65536,
{
    let mut r: i64 = FP_ONE;
    let mut i: u64 = 0;
    while i < e
        invariant
            0 <= b <= 65536,
            0 <= r <= 65536,
            i <= e,
            r == fp_pow_s(b as int, i as nat),
        decreases e - i,
    {
        proof {
            lemma_fp_mul_unit(r as int, b as int);
            assert(fp_mul_s(r as int, b as int) == fp_mul_s(b as int, r as int)) by {
                assert((r as int) * (b as int) == (b as int) * (r as int));
            }
        }
        r = fp_mul(r, b);
        i = i + 1;
    }
    r
}

} // verus!
