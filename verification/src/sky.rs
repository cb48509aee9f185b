//! Procedural day/night sky: blended horizon and zenith palettes, a sun
//! glow term, and sparse hashed stars at night.

use crate::fixed::{
    fp_clamp01, fp_clamp_s, fp_div, fp_div_s, fp_mul, fp_mul_s, fp_pow, fp_pow_s, FP_HALF, FP_ONE,
};
use crate::vec3::{bounded_s, normalized_s, vadd_s, vdot_s, vscale_s, Vec3};
use vstd::arithmetic::div_mod::{lemma_div_is_ordered, lemma_multiply_divide_le};
use vstd::arithmetic::mul::{lemma_mul_inequality, lemma_mul_upper_bound};
use vstd::prelude::*;

verus! {

/// Every channel lies in the unit interval.
pub open spec fn valid_color_s(c: Vec3) -> bool {
    &&& 0 <= c.x <= 65536
    &&& 0 <= c.y <= 65536
    &&& 0 <= c.z <= 65536
}

/// The deterministic star hash of a ray direction: an integer scramble of
/// the components, in `[0, FP_ONE)`. The same direction always hashes to the
/// same value, so the star pattern is reproducible.
pub open spec fn star_hash_s(d: Vec3) -> int {
    let sx = d.x + 65536;
    let sy = d.y + 65536;
    let sz = d.z + 65536;
    let s = sx * 12990 + sy * 78233 + sz * 37719;
    let m = (s % 0x1_0000_0000) * 2654435761;
    (m / 65536) % 65536
}

/// The sun tint used on each branch.
pub open spec fn sun_color_s(is_day: bool) -> Vec3 {
    if is_day {
        Vec3 { x: 65536, y: 62259, z: 55706 }
    } else {
        Vec3 { x: 26214, y: 22938, z: 19661 }
    }
}

/// The full sky color computation, mirrored exactly: vertical blend,
/// optional sun glow, optional night star, then the final channel clamps.
pub open spec fn sky_sample_s(sky: Skybox, d: Vec3, is_day: bool) -> Vec3 {
    let t = fp_clamp_s(fp_div_s(d.y as int, 131072) + 32768, 0, 65536);
    let horizon = if is_day { sky.day_horizon } else { sky.night_horizon };
    let zenith = if is_day { sky.day_zenith } else { sky.night_zenith };
    let ts = fp_clamp_s(fp_mul_s(fp_mul_s(t, t), 3 * 65536 - 2 * t), 0, 65536);
    let col0 = vadd_s(vscale_s(horizon, 65536 - ts), vscale_s(zenith, ts));
    let sun_dot = fp_clamp_s(vdot_s(normalized_s(d), sky.sun_direction), 0, 65536);
    let sun_contrib = fp_mul_s(fp_mul_s(fp_pow_s(sun_dot, 16), sky.sun_intensity as int), 32768);
    let col1 = if sun_contrib > 0 {
        vadd_s(col0, vscale_s(sun_color_s(is_day), sun_contrib))
    } else {
        col0
    };
    let col2 = if !is_day && star_hash_s(d) > 65503 {
        let brightness = fp_clamp_s((star_hash_s(d) - 65503) * 65536 / 33, 0, 65536);
        vadd_s(
            col1,
            vscale_s(Vec3 { x: 65536, y: 65536, z: 68813 }, 45875 + fp_mul_s(19661, brightness)),
        )
    } else {
        col1
    };
    Vec3 {
        x: fp_clamp_s(col2.x as int, 0, 65536) as i64,
        y: fp_clamp_s(col2.y as int, 0, 65536) as i64,
        z: fp_clamp_s(col2.z as int, 0, 65536) as i64,
    }
}

/// The skybox a sun vector determines: fixed palettes, the normalized sun
/// direction, and the fixed sun intensity.
pub open spec fn skybox_of_s(sun: Vec3) -> Skybox {
    Skybox {
        day_horizon: Vec3 { x: 65536, y: 39322, z: 19661 },
        day_zenith: Vec3 { x: 19661, y: 45875, z: 65536 },
        night_horizon: Vec3 { x: 13107, y: 6554, z: 19661 },
        night_zenith: Vec3 { x: 655, y: 655, z: 3277 },
        sun_direction: normalized_s(sun),
        sun_intensity: 32768,
    }
}

pub struct Skybox {
    pub day_horizon: Vec3,
    pub day_zenith: Vec3,
    pub night_horizon: Vec3,
    pub night_zenith: Vec3,
    pub sun_direction: Vec3,
    pub sun_intensity: i64,
}

impl Skybox {
    pub open spec fn wf_s(self) -> bool {
        &&& valid_color_s(self.day_horizon)
        &&& valid_color_s(self.day_zenith)
        &&& valid_color_s(self.night_horizon)
        &&& valid_color_s(self.night_zenith)
        &&& bounded_s(self.sun_direction, 65536)
        &&& 0 <= self.sun_intensity <= 65536
    }

    /// Fixed palettes and a normalized sun direction.
    pub fn new(sun_dir: Vec3) -> (r: Skybox)
        requires
            bounded_s(sun_dir, 0x4000_0000_0000),
        ensures
            r == skybox_of_s(sun_dir),
            r.wf_s(),
            r.day_horizon == (Vec3 { x: 65536, y: 39322, z: 19661 }),
            r.day_zenith == (Vec3 { x: 19661, y: 45875, z: 65536 }),
            r.night_horizon == (Vec3 { x: 13107, y: 6554, z: 19661 }),
            r.night_zenith == (Vec3 { x: 655, y: 655, z: 3277 }),
            r.sun_direction == normalized_s(sun_dir),
            r.sun_intensity == 32768,
    {
        Skybox {
            day_horizon: Vec3 { x: 65536, y: 39322, z: 19661 },
            day_zenith: Vec3 { x: 19661, y: 45875, z: 65536 },
            night_horizon: Vec3 { x: 13107, y: 6554, z: 19661 },
            night_zenith: Vec3 { x: 655, y: 655, z: 3277 },
            sun_direction: sun_dir.normalized(),
            sun_intensity: 32768,
        }
    }

    /// Sky color for a ray direction: horizon/zenith blend by a smoothed
    /// vertical factor, a high-power sun glow, and at night sparse hashed
    /// stars. Every channel is clamped into the unit interval, on both the
    /// day and the night branch.
    pub fn sample(&self, direction: &Vec3, is_day: bool) -> (r: Vec3)
        requires
            self.wf_s(),
            bounded_s(*direction, 65536),
        ensures
            r == sky_sample_s(*self, *direction, is_day),
            valid_color_s(r),
    {
        let t: i64 = fp_clamp01(fp_div(direction.y, 2 * FP_ONE) + FP_HALF);
        let horizon: Vec3 = if is_day {
            self.day_horizon
        } else {
            self.night_horizon
        };
        let zenith: Vec3 = if is_day {
            self.day_zenith
        } else {
            self.night_zenith
        };
        proof {
            crate::fixed::lemma_fp_mul_unit(t as int, t as int);
        }
        let tt: i64 = fp_mul(t, t);
        proof {
            lemma_unit_scale_range(tt as int, 3 * 65536 - 2 * (t as int), 3 * 65536int);
        }
        let t_smooth: i64 = fp_clamp01(fp_mul(tt, 3 * FP_ONE - 2 * t));
        proof {
            lemma_unit_scale_range(horizon.x as int, 65536 - t_smooth as int, 65536);
            lemma_unit_scale_range(horizon.y as int, 65536 - t_smooth as int, 65536);
            lemma_unit_scale_range(horizon.z as int, 65536 - t_smooth as int, 65536);
            lemma_unit_scale_range(zenith.x as int, t_smooth as int, 65536);
            lemma_unit_scale_range(zenith.y as int, t_smooth as int, 65536);
            lemma_unit_scale_range(zenith.z as int, t_smooth as int, 65536);
        }
        let mut col: Vec3 = horizon.scaled(FP_ONE - t_smooth).plus(&zenith.scaled(t_smooth));
        let dn: Vec3 = direction.normalized();
        proof {
            lemma_unit_dot_products(dn, self.sun_direction);
        }
        let sun_dot: i64 = fp_clamp01(dn.dot(&self.sun_direction));
        proof {
            crate::fixed::lemma_fp_pow_unit(sun_dot as int, 16);
            crate::fixed::lemma_fp_mul_unit(
                fp_pow_s(sun_dot as int, 16) as int,
                self.sun_intensity as int,
            );
            crate::fixed::lemma_fp_mul_unit(
                fp_mul_s(fp_pow_s(sun_dot as int, 16), self.sun_intensity as int),
                32768,
            );
        }
        let sun_contrib: i64 = fp_mul(fp_mul(fp_pow(sun_dot, 16), self.sun_intensity), FP_HALF);
        if sun_contrib > 0 {
            let sun_color: Vec3 = if is_day {
                Vec3 { x: 65536, y: 62259, z: 55706 }
            } else {
                Vec3 { x: 26214, y: 22938, z: 19661 }
            };
            proof {
                lemma_unit_scale_range(sun_color.x as int, sun_contrib as int, 65536);
                lemma_unit_scale_range(sun_color.y as int, sun_contrib as int, 65536);
                lemma_unit_scale_range(sun_color.z as int, sun_contrib as int, 65536);
            }
            col = col.plus(&sun_color.scaled(sun_contrib));
        }
        if !is_day {
            let hsh: i64 = star_hash(direction);
            if hsh > 65503 {
                proof {
                    lemma_mul_inequality((hsh - 65503) as int, 33, 65536);
                    lemma_multiply_divide_le(((hsh - 65503) as int) * 65536, 33, 65536int * 65536);
                }
                let brightness: i64 = fp_clamp01(
                    ((((hsh - 65503) as u64) * 65536) / 33) as i64,
                );
                proof {
                    crate::fixed::lemma_fp_mul_unit(19661, brightness as int);
                }
                let star_k: i64 = 45875 + fp_mul(19661, brightness);
                let star_col: Vec3 = Vec3 { x: 65536, y: 65536, z: 68813 };
                proof {
                    lemma_unit_scale_range(star_k as int, star_col.x as int, 65536);
                    lemma_unit_scale_range(star_k as int, star_col.y as int, 65536);
                    lemma_unit_scale_range(star_k as int, 68813, 68813);
                }
                col = col.plus(&star_col.scaled(star_k));
            }
        }
        Vec3 { x: fp_clamp01(col.x), y: fp_clamp01(col.y), z: fp_clamp01(col.z) }
    }
}

/// A product of a unit-interval scalar with a scalar in `[0, b]` stays in
/// `[0, b]`, taking either factor as the unit one.
pub proof fn lemma_unit_scale_range(a: int, k: int, b: int)
    requires
        0 <= a <= 65536,
        0 <= k <= b,
        b <= 3 * 65536,
    ensures
        0 <= fp_mul_s(a, k) <= b,
        0 <= fp_mul_s(k, a) <= b,
        0 <= a * k <= 65536 * (3 * 65536),
        0 <= k * a <= 65536 * (3 * 65536),
    {
    lemma_mul_upper_bound(a, 65536, k, b);
    lemma_mul_upper_bound(a, 65536, k, 3 * 65536int);
    assert(fp_mul_s(a, k) == (a * k) / 65536);
    assert(65536 * b <= 65536 * (3 * 65536)) by (nonlinear_arith)
        requires
            b <= 3 * 65536,
    ;
    lemma_multiply_divide_le(a * k, 65536, b);
    assert(a * k == k * a);
}

/// Unit-bounded vectors give componentwise products within the dot-product
/// precondition.
pub proof fn lemma_unit_dot_products(a: Vec3, b: Vec3)
    requires
        bounded_s(a, 65536),
        bounded_s(b, 65536),
    ensures
        crate::fixed::fp_abs_s((a.x as int) * (b.x as int)) <= 0x7FFF_FFFF_FFFFint * 0x10000,
        crate::fixed::fp_abs_s((a.y as int) * (b.y as int)) <= 0x7FFF_FFFF_FFFFint * 0x10000,
        crate::fixed::fp_abs_s((a.z as int) * (b.z as int)) <= 0x7FFF_FFFF_FFFFint * 0x10000,
{
    crate::fixed::lemma_fp_mul_bound(a.x as int, b.x as int, 65536, 65536);
    crate::fixed::lemma_fp_mul_bound(a.y as int, b.y as int, 65536, 65536);
    crate::fixed::lemma_fp_mul_bound(a.z as int, b.z as int, 65536, 65536);
}

/// The deterministic star hash as executable code.
fn star_hash(d: &Vec3) -> (r: i64)
    requires
        bounded_s(*d, 65536),
    ensures
        r == star_hash_s(*d),
        0 <= r <= 65535,
{
    let sx: u64 = (d.x + 65536) as u64;
    let sy: u64 = (d.y + 65536) as u64;
    let sz: u64 = (d.z + 65536) as u64;
    let s: u64 = sx * 12990 + sy * 78233 + sz * 37719;
    let m: u64 = (s % 0x1_0000_0000) * 2654435761;
    proof {
        lemma_mul_inequality(s as int % 0x1_0000_0000, 0xFFFF_FFFF, 2654435761);
    }
    let r: u64 = (m / 65536) % 65536;
    r as i64
}

} // verus!
