//! Three-component vectors over the fixed-point scalars.

use crate::fixed::{
    fp_abs_s, fp_div, fp_div_s, fp_isqrt, fp_mul, fp_mul_s, fp_quot, FP_ONE,
};
use vstd::arithmetic::div_mod::lemma_multiply_divide_le;
use vstd::arithmetic::mul::{lemma_mul_inequality, lemma_mul_upper_bound};
use vstd::prelude::*;

verus! {

#[derive(Clone, Copy, Debug, PartialEq, Eq, Structural)]
pub struct Vec3 {
    pub x: i64,
    pub y: i64,
    pub z: i64,
}

/// The largest component magnitude.
pub open spec fn vmax_s(v: Vec3) -> int {
    let ax = fp_abs_s(v.x as int);
    let ay = fp_abs_s(v.y as int);
    let az = fp_abs_s(v.z as int);
    if ax >= ay {
        if ax >= az {
            ax
        } else {
            az
        }
    } else {
        if ay >= az {
            ay
        } else {
            az
        }
    }
}

/// Every component has magnitude at most `m`.
pub open spec fn bounded_s(v: Vec3, m: int) -> bool {
    &&& fp_abs_s(v.x as int) <= m
    &&& fp_abs_s(v.y as int) <= m
    &&& fp_abs_s(v.z as int) <= m
}

pub open spec fn vadd_s(a: Vec3, b: Vec3) -> Vec3 {
    Vec3 { x: (a.x + b.x) as i64, y: (a.y + b.y) as i64, z: (a.z + b.z) as i64 }
}

pub open spec fn vsub_s(a: Vec3, b: Vec3) -> Vec3 {
    Vec3 { x: (a.x - b.x) as i64, y: (a.y - b.y) as i64, z: (a.z - b.z) as i64 }
}

pub open spec fn vneg_s(a: Vec3) -> Vec3 {
    Vec3 { x: (-a.x) as i64, y: (-a.y) as i64, z: (-a.z) as i64 }
}

pub open spec fn vscale_s(v: Vec3, k: int) -> Vec3 {
    Vec3 {
        x: fp_mul_s(v.x as int, k) as i64,
        y: fp_mul_s(v.y as int, k) as i64,
        z: fp_mul_s(v.z as int, k) as i64,
    }
}

/// Component-wise fixed-point product.
pub open spec fn vhadamard_s(a: Vec3, b: Vec3) -> Vec3 {
    Vec3 {
        x: fp_mul_s(a.x as int, b.x as int) as i64,
        y: fp_mul_s(a.y as int, b.y as int) as i64,
        z: fp_mul_s(a.z as int, b.z as int) as i64,
    }
}

pub open spec fn vdot_s(a: Vec3, b: Vec3) -> int {
    fp_mul_s(a.x as int, b.x as int) + fp_mul_s(a.y as int, b.y as int) + fp_mul_s(
        a.z as int,
        b.z as int,
    )
}

/// The squared length before rescaling: the plain sum of squared components.
pub open spec fn norm2_s(v: Vec3) -> int {
    (v.x as int) * (v.x as int) + (v.y as int) * (v.y as int) + (v.z as int) * (v.z as int)
}

pub open spec fn is_sqrt_of(r: int, n: int) -> bool {
    &&& 0 <= r
    &&& r * r <= n
    &&& n < (r + 1) * (r + 1)
}

/// The integer square root, named through its defining property.
pub open spec fn sqrt_s(n: int) -> int {
    choose|r: int| is_sqrt_of(r, n)
}

pub proof fn lemma_sqrt_unique(r: int, n: int)
    requires
        is_sqrt_of(r, n),
    ensures
        sqrt_s(n) == r,
{
    let c = choose|q: int| is_sqrt_of(q, n);
    assert(is_sqrt_of(c, n));
    assert(c == r) by (nonlinear_arith)
        requires
            is_sqrt_of(c, n),
            is_sqrt_of(r, n),
    ;
}

/// The length of `v` as a fixed-point scalar (the components carry one scale
/// factor, so the root of the raw square sum is already scaled).
pub open spec fn length_s(v: Vec3) -> int {
    sqrt_s(norm2_s(v))
}

#[verifier::opaque]
pub open spec fn normalized_s(v: Vec3) -> Vec3 {
    if length_s(v) == 0 {
        Vec3 { x: 0, y: 0, z: 0 }
    } else {
        Vec3 {
            x: fp_div_s(v.x as int, length_s(v)) as i64,
            y: fp_div_s(v.y as int, length_s(v)) as i64,
            z: fp_div_s(v.z as int, length_s(v)) as i64,
        }
    }
}

impl Vec3 {
    pub fn new(x: i64, y: i64, z: i64) -> (r: Vec3)
        ensures
            r == (Vec3 { x, y, z }),
    {
        Vec3 { x, y, z }
    }

    pub fn zero() -> (r: Vec3)
        ensures
            r == (Vec3 { x: 0, y: 0, z: 0 }),
    {
        Vec3 { x: 0, y: 0, z: 0 }
    }

    pub fn plus(&self, other: &Vec3) -> (r: Vec3)
        requires
            bounded_s(*self, 0x3000_0000_0000_0000),
            bounded_s(*other, 0x3000_0000_0000_0000),
        ensures
            r == vadd_s(*self, *other),
            r.x == self.x + other.x,
            r.y == self.y + other.y,
            r.z == self.z + other.z,
    {
        Vec3 { x: self.x + other.x, y: self.y + other.y, z: self.z + other.z }
    }

    pub fn minus(&self, other: &Vec3) -> (r: Vec3)
        requires
            bounded_s(*self, 0x3000_0000_0000_0000),
            bounded_s(*other, 0x3000_0000_0000_0000),
        ensures
            r == vsub_s(*self, *other),
            r.x == self.x - other.x,
            r.y == self.y - other.y,
            r.z == self.z - other.z,
    {
        Vec3 { x: self.x - other.x, y: self.y - other.y, z: self.z - other.z }
    }

    pub fn negated(&self) -> (r: Vec3)
        requires
            bounded_s(*self, 0x3000_0000_0000_0000),
        ensures
            r == vneg_s(*self),
            r.x == -self.x && r.y == -self.y && r.z == -self.z,
    {
        Vec3 { x: -self.x, y: -self.y, z: -self.z }
    }

    pub fn scaled(&self, k: i64) -> (r: Vec3)
        requires
            fp_abs_s((self.x as int) * (k as int)) <= 0x7FFF_FFFF_FFFF_FFFFint * 0x10000,
            fp_abs_s((self.y as int) * (k as int)) <= 0x7FFF_FFFF_FFFF_FFFFint * 0x10000,
            fp_abs_s((self.z as int) * (k as int)) <= 0x7FFF_FFFF_FFFF_FFFFint * 0x10000,
        ensures
            r == vscale_s(*self, k as int),
    {
        Vec3 { x: fp_mul(self.x, k), y: fp_mul(self.y, k), z: fp_mul(self.z, k) }
    }

    pub fn hadamard(&self, other: &Vec3) -> (r: Vec3)
        requires
            fp_abs_s((self.x as int) * (other.x as int)) <= 0x7FFF_FFFF_FFFFint * 0x10000,
            fp_abs_s((self.y as int) * (other.y as int)) <= 0x7FFF_FFFF_FFFFint * 0x10000,
            fp_abs_s((self.z as int) * (other.z as int)) <= 0x7FFF_FFFF_FFFFint * 0x10000,
        ensures
            r == vhadamard_s(*self, *other),
    {
        Vec3 {
            x: fp_mul(self.x, other.x),
            y: fp_mul(self.y, other.y),
            z: fp_mul(self.z, other.z),
        }
    }

    pub fn dot(&self, other: &Vec3) -> (r: i64)
        requires
            fp_abs_s((self.x as int) * (other.x as int)) <= 0x7FFF_FFFF_FFFFint * 0x10000,
            fp_abs_s((self.y as int) * (other.y as int)) <= 0x7FFF_FFFF_FFFFint * 0x10000,
            fp_abs_s((self.z as int) * (other.z as int)) <= 0x7FFF_FFFF_FFFFint * 0x10000,
        ensures
            r == vdot_s(*self, *other),
    {
        let px: i64 = fp_mul(self.x, other.x);
        let py: i64 = fp_mul(self.y, other.y);
        let pz: i64 = fp_mul(self.z, other.z);
        px + py + pz
    }

    /// Fixed-point length via the integer square root of the raw square sum.
    pub fn length(&self) -> (r: i64)
        requires
            bounded_s(*self, 0x4000_0000_0000),
        ensures
            r == length_s(*self),
            0 <= r <= 2 * 0x4000_0000_0000,
            is_sqrt_of(r as int, norm2_s(*self)),
    {
        let xx: u128 = square_u128(self.x);
        let yy: u128 = square_u128(self.y);
        let zz: u128 = square_u128(self.z);
        let n2: u128 = xx + yy + zz;
        let root: u64 = fp_isqrt(n2);
        proof {
            lemma_sqrt_unique(root as int, n2 as int);
            assert((2 * 0x4000_0000_0000int) * (2 * 0x4000_0000_0000int) > n2 as int);
            assert(root as int <= 2 * 0x4000_0000_0000int) by (nonlinear_arith)
                requires
                    (root as int) * (root as int) <= n2 as int,
                    (n2 as int) < (2 * 0x4000_0000_0000int) * (2 * 0x4000_0000_0000int),
                    0 <= root as int,
            ;
        }
        root as i64
    }

    /// Scale to unit length; the zero vector stays zero.
    pub fn normalized(&self) -> (r: Vec3)
        requires
            bounded_s(*self, 0x4000_0000_0000),
        ensures
            r == normalized_s(*self),
            bounded_s(r, 65536),
    {
        proof {
            reveal(normalized_s);
        }
        let len: i64 = self.length();
        if len == 0 {
            Vec3 { x: 0, y: 0, z: 0 }
        } else {
            proof {
                let lx = self.x as int;
                let ly = self.y as int;
                let lz = self.z as int;
                let ln = len as int;
                assert(lx * lx <= ln * ln + 2 * ln && ly * ly <= ln * ln + 2 * ln && lz * lz
                    <= ln * ln + 2 * ln) by (nonlinear_arith)
                    requires
                        lx * lx + ly * ly + lz * lz < (ln + 1) * (ln + 1),
                ;
                lemma_unit_quotient(self.x as int, len as int);
                lemma_unit_quotient(self.y as int, len as int);
                lemma_unit_quotient(self.z as int, len as int);
            }
            Vec3 {
                x: fp_div(self.x, len),
                y: fp_div(self.y, len),
                z: fp_div(self.z, len),
            }
        }
    }
}

/// If `|c| <= len` then the rescaled quotient `c / len` has magnitude at most
/// one unit.
pub proof fn lemma_unit_quotient(c: int, len: int)
    requires
        len > 0,
        c * c <= len * len + 2 * len,
    ensures
        fp_abs_s(fp_div_s(c, len)) <= 65536,
{
    assert(fp_abs_s(c) <= len) by (nonlinear_arith)
        requires
            len > 0,
            c * c <= len * len + 2 * len,
    ;
    assert(fp_abs_s(fp_div_s(c, len)) == (fp_abs_s(c) * 65536) / len) by {
        crate::fixed::lemma_quot_abs(c * 65536, len);
        assert(fp_abs_s(c * 65536) == fp_abs_s(c) * 65536) by (nonlinear_arith);
    }
    lemma_mul_inequality(fp_abs_s(c), len, 65536);
    lemma_multiply_divide_le(fp_abs_s(c) * 65536, len, 65536);
}

/// The square of a component as an unsigned 128-bit value.
fn square_u128(v: i64) -> (r: u128)
    requires
        -0x4000_0000_0000 <= v <= 0x4000_0000_0000,
    ensures
        r as int == (v as int) * (v as int),
        r as int <= 0x4000_0000_0000int * 0x4000_0000_0000,
{
    let a: u64 = if v >= 0 {
        v as u64
    } else {
        (-v) as u64
    };
    proof {
        assert((a as int) * (a as int) == (v as int) * (v as int)) by (nonlinear_arith)
            requires
                a as int == fp_abs_s(v as int),
        ;
        lemma_mul_upper_bound(a as int, 0x4000_0000_0000, a as int, 0x4000_0000_0000);
    }
    (a as u128) * (a as u128)
}

} // verus!
