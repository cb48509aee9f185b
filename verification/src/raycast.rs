//! Ray traversal of the voxel grid: the bounding-box slab test, the primary
//! incremental (DDA) traversal, and the fixed-step fallback marcher.

use crate::block::{is_solid_s, BlockType};
use crate::fixed::{fp_abs, fp_abs_s, fp_div, fp_div_s, fp_floor_units, fp_mul_s, FP_HALF, FP_ONE};
use crate::uv::uv_s;
use crate::vec3::{bounded_s, length_s, norm2_s, normalized_s, sqrt_s, vadd_s, vmax_s, vscale_s, vsub_s, Vec3};
use crate::world::{axis_unit_s, calc_normal_s, VoxelWorld};
use vstd::arithmetic::div_mod::{lemma_div_is_ordered, lemma_fundamental_div_mod};
use vstd::arithmetic::mul::lemma_mul_inequality;
use vstd::prelude::*;

verus! {

/// A parametric distance beyond every bounded traversal; stands in for an
/// infinite per-axis crossing distance.
pub const T_SENTINEL: i64 = 0x2000_0000_0000_0000;

/// Step length of the fallback marcher, about three hundredths of a unit.
pub const MARCH_STEP: i64 = 1966;

/// The result of a traversal query: parametric distance, outward unit face
/// normal, the block that was hit, its texture coordinates, the hit voxel,
/// and the inward-biased sample point that passed the shape test.
pub struct RayHit {
    pub t: i64,
    pub normal: Vec3,
    pub block: BlockType,
    pub uv: (i64, i64),
    pub vx: i64,
    pub vy: i64,
    pub vz: i64,
    pub point: Vec3,
}

/// Every nonzero component of `n` points against the ray direction on that
/// axis.
pub open spec fn opposes_s(n: Vec3, d: Vec3) -> bool {
    &&& (n.x != 0 ==> d.x != 0 && ((n.x > 0) <==> (d.x < 0)))
    &&& (n.y != 0 ==> d.y != 0 && ((n.y > 0) <==> (d.y < 0)))
    &&& (n.z != 0 ==> d.z != 0 && ((n.z > 0) <==> (d.z < 0)))
}

/// What both traversal algorithms promise of a reported hit: the hit voxel
/// is in range and holds a solid block, the sample point passes that block's
/// shape test, the normal is an axis unit, the texture coordinates are the
/// ones the UV resolver assigns to the sample point, and the parametric
/// distance keeps the recomputed hit point within bounded range of the grid.
#[verifier::opaque]
pub open spec fn hit_ok_s(w: VoxelWorld, origin: Vec3, dir: Vec3, h: RayHit) -> bool {
    &&& 0 <= h.t <= 0x2000_0000_0000_0000
    &&& w.in_range_s(h.vx as int, h.vy as int, h.vz as int)
    &&& h.block == w.block_at_s(h.vx as int, h.vy as int, h.vz as int)
    &&& is_solid_s(h.block)
    &&& w.occupies_s(h.vx as int, h.vy as int, h.vz as int, h.point)
    &&& axis_unit_s(h.normal)
    &&& h.uv.0 == uv_s(
        h.block,
        h.point.x - h.vx * 65536,
        h.point.y - h.vy * 65536,
        h.point.z - h.vz * 65536,
        h.normal,
    ).0
    &&& h.uv.1 == uv_s(
        h.block,
        h.point.x - h.vx * 65536,
        h.point.y - h.vy * 65536,
        h.point.z - h.vz * 65536,
        h.normal,
    ).1
    &&& 0 <= h.uv.0 <= 65536
    &&& 0 <= h.uv.1 <= 65536
    &&& bounded_s(vadd_s(origin, vscale_s(dir, h.t as int)), 3 * vmax_s(origin) + 0x4000_0000)
}

/// A hit on a slab is a hit on its lower half: any hit record either
/// traversal reports for a slab voxel has its sample point's local height at
/// or below one half (plus tolerance); a ray that only passes through the
/// upper half of that cell can never produce such a record.
pub proof fn lemma_slab_hit_is_low(w: VoxelWorld, origin: Vec3, dir: Vec3, h: RayHit)
    requires
        hit_ok_s(w, origin, dir, h),
        h.block == BlockType::SlabPiedra,
    ensures
        crate::world::local_clamped_s(h.point.y as int, h.vy as int) <= 32768 + 66,
{
    reveal(hit_ok_s);
}

/// A hit on a stair lands on its base or on its raised step: any hit record
/// either traversal reports for a stair voxel has its sample point low (at
/// or below half height, plus tolerance) or behind the half-depth line
/// (minus tolerance); the empty notch in front of the step never produces a
/// record.
pub proof fn lemma_stair_hit_misses_notch(w: VoxelWorld, origin: Vec3, dir: Vec3, h: RayHit)
    requires
        hit_ok_s(w, origin, dir, h),
        h.block == BlockType::EscaleraPiedra,
    ensures
        crate::world::local_clamped_s(h.point.y as int, h.vy as int) <= 32768 + 66
            || crate::world::local_clamped_s(h.point.z as int, h.vz as int) >= 32768 - 66,
{
    reveal(hit_ok_s);
}

pub open spec fn max2_s(a: int, b: int) -> int {
    if a >= b {
        a
    } else {
        b
    }
}

pub open spec fn min2_s(a: int, b: int) -> int {
    if a <= b {
        a
    } else {
        b
    }
}

/// Entry distance of the ray into one axis slab; an axis the ray runs
/// parallel to is an infinite slab.
pub open spec fn axis_lo_s(o: int, d: int, mn: int, mx: int) -> int {
    if d == 0 {
        -0x2000_0000_0000_0000
    } else {
        min2_s(fp_div_s(mn - o, d), fp_div_s(mx - o, d))
    }
}

/// Exit distance of the ray out of one axis slab.
pub open spec fn axis_hi_s(o: int, d: int, mn: int, mx: int) -> int {
    if d == 0 {
        0x2000_0000_0000_0000
    } else {
        max2_s(fp_div_s(mn - o, d), fp_div_s(mx - o, d))
    }
}

/// Latest slab entry over the three axes.
pub open spec fn aabb_lo_s(o: Vec3, d: Vec3, mn: Vec3, mx: Vec3) -> int {
    max2_s(
        max2_s(
            axis_lo_s(o.x as int, d.x as int, mn.x as int, mx.x as int),
            axis_lo_s(o.y as int, d.y as int, mn.y as int, mx.y as int),
        ),
        axis_lo_s(o.z as int, d.z as int, mn.z as int, mx.z as int),
    )
}

/// Earliest slab exit over the three axes.
pub open spec fn aabb_hi_s(o: Vec3, d: Vec3, mn: Vec3, mx: Vec3) -> int {
    min2_s(
        min2_s(
            axis_hi_s(o.x as int, d.x as int, mn.x as int, mx.x as int),
            axis_hi_s(o.y as int, d.y as int, mn.y as int, mx.y as int),
        ),
        axis_hi_s(o.z as int, d.z as int, mn.z as int, mx.z as int),
    )
}

/// Entry and exit distances of one axis slab, ordered.
fn axis_slab(o: i64, d: i64, mn: i64, mx: i64) -> (r: (i64, i64))
    requires
        -0x100_0000_0000 <= o <= 0x100_0000_0000,
        -65536 <= d <= 65536,
        -0x8000_0000 <= mn <= 0x8000_0000,
        -0x8000_0000 <= mx <= 0x8000_0000,
    ensures
        r.0 == axis_lo_s(o as int, d as int, mn as int, mx as int),
        r.1 == axis_hi_s(o as int, d as int, mn as int, mx as int),
        -0x2000_0000_0000_0000 <= r.0 <= r.1 <= 0x2000_0000_0000_0000,
{
    if d == 0 {
        (-T_SENTINEL, T_SENTINEL)
    } else {
        let t1: i64 = fp_div(mn - o, d);
        let t2: i64 = fp_div(mx - o, d);
        proof {
            crate::fixed::lemma_quot_abs((mn - o) * 65536, fp_abs_s(d as int));
            crate::fixed::lemma_quot_abs((mx - o) * 65536, fp_abs_s(d as int));
        }
        if t1 > t2 {
            (t2, t1)
        } else {
            (t1, t2)
        }
    }
}

/// Slab-method intersection of the ray with an axis-aligned box; `Some`
/// carries the ordered entry and exit distances.
pub fn ray_aabb_intersect(orig: &Vec3, dir: &Vec3, aabb_min: &Vec3, aabb_max: &Vec3) -> (r: Option<
    (i64, i64),
>)
    requires
        bounded_s(*orig, 0x100_0000_0000),
        bounded_s(*dir, 65536),
        bounded_s(*aabb_min, 0x8000_0000),
        bounded_s(*aabb_max, 0x8000_0000),
    ensures
        match r {
            Some(t) => {
                &&& t.0 == aabb_lo_s(*orig, *dir, *aabb_min, *aabb_max)
                &&& t.1 == aabb_hi_s(*orig, *dir, *aabb_min, *aabb_max)
                &&& -0x2000_0000_0000_0000 <= t.0 <= t.1 <= 0x2000_0000_0000_0000
            },
            None => aabb_lo_s(*orig, *dir, *aabb_min, *aabb_max) > aabb_hi_s(
                *orig,
                *dir,
                *aabb_min,
                *aabb_max,
            ),
        },
{
    let (mut tmin, mut tmax): (i64, i64) = axis_slab(orig.x, dir.x, aabb_min.x, aabb_max.x);
    let (tymin, tymax): (i64, i64) = axis_slab(orig.y, dir.y, aabb_min.y, aabb_max.y);
    if tmin > tymax || tymin > tmax {
        return None;
    }
    if tymin > tmin {
        tmin = tymin;
    }
    if tymax < tmax {
        tmax = tymax;
    }
    let (tzmin, tzmax): (i64, i64) = axis_slab(orig.z, dir.z, aabb_min.z, aabb_max.z);
    if tmin > tzmax || tzmin > tmax {
        return None;
    }
    if tzmin > tmin {
        tmin = tzmin;
    }
    if tzmax < tmax {
        tmax = tzmax;
    }
    Some((tmin, tmax))
}

/// One probe of the fallback marcher at parameter `t`: the sampled voxel's
/// hit record if it is in range, not the origin's own voxel, solid, and its
/// shape test passes at the inward-biased sample point.
#[verifier::opaque]
pub open spec fn march_probe_s(
    w: VoxelWorld,
    o: Vec3,
    d: Vec3,
    t: int,
    ox0: int,
    oy0: int,
    oz0: int,
) -> Option<RayHit> {
    let p = vadd_s(o, vscale_s(d, t));
    let x = p.x as int / 65536;
    let y = p.y as int / 65536;
    let z = p.z as int / 65536;
    if w.in_range_s(x, y, z) && !(x == ox0 && y == oy0 && z == oz0) && is_solid_s(
        w.block_at_s(x, y, z),
    ) {
        let center = Vec3 {
            x: (x * 65536 + 32768) as i64,
            y: (y * 65536 + 32768) as i64,
            z: (z * 65536 + 32768) as i64,
        };
        let tc = vsub_s(center, p);
        let ieps = 7 + t / 0x100000;
        let hi = if length_s(tc) > 0 {
            vadd_s(p, vscale_s(normalized_s(tc), ieps))
        } else {
            vsub_s(p, vscale_s(d, ieps))
        };
        if w.occupies_s(x, y, z, hi) {
            let n = calc_normal_s(x, y, z, hi);
        let b = w.block_at_s(x, y, z);
            Some(
                RayHit {
                    t: t as i64,
                    normal: n,
                    block: b,
                    uv: (
                        uv_s(b, hi.x - x * 65536, hi.y - y * 65536, hi.z - z * 65536, n).0 as i64,
                        uv_s(b, hi.x - x * 65536, hi.y - y * 65536, hi.z - z * 65536, n).1 as i64,
                    ),
                    vx: x as i64,
                    vy: y as i64,
                    vz: z as i64,
                    point: hi,
                },
            )
        } else {
            None
        }
    } else {
        None
    }
}

/// The fixed-step march from parameter `t` to the box exit: the first probe
/// that reports a hit, or nothing.
pub open spec fn march_s(
    w: VoxelWorld,
    o: Vec3,
    d: Vec3,
    t: int,
    tmax: int,
    ox0: int,
    oy0: int,
    oz0: int,
) -> Option<RayHit>
    decreases tmax + 1966 - t,
{
    if t > tmax {
        None
    } else {
        match march_probe_s(w, o, d, t, ox0, oy0, oz0) {
            Some(h) => Some(h),
            None => march_s(w, o, d, t + 1966, tmax, ox0, oy0, oz0),
        }
    }
}

/// The fallback traversal's entire outcome: nothing when the grid's box is
/// missed or lies behind the origin, else the march from the box entry.
#[verifier::opaque]
pub open spec fn raycast_simple_s(w: VoxelWorld, origin: Vec3, dir: Vec3) -> Option<RayHit> {
    let mn = Vec3 { x: 0, y: 0, z: 0 };
    let mx = Vec3 {
        x: (w.width * 65536) as i64,
        y: (w.height * 65536) as i64,
        z: (w.depth * 65536) as i64,
    };
    let lo = aabb_lo_s(origin, dir, mn, mx);
    let hi = aabb_hi_s(origin, dir, mn, mx);
    if lo > hi || hi < 0 {
        None
    } else {
        march_s(
            w,
            origin,
            dir,
            if lo < 0 {
                0
            } else {
                lo
            },
            hi,
            origin.x as int / 65536,
            origin.y as int / 65536,
            origin.z as int / 65536,
        )
    }
}

impl VoxelWorld {
    /// One probe of the fallback marcher as executable code; `(ox0, oy0,
    /// oz0)` is the voxel of the ray's own origin, which is never reported.
    #[verifier::rlimit(100)]
    fn march_probe(
        &self,
        origin: &Vec3,
        direction: &Vec3,
        t: i64,
        ox0: i64,
        oy0: i64,
        oz0: i64,
    ) -> (r: Option<RayHit>)
        requires
            self.wf_s(),
            bounded_s(*origin, 0x80_0000_0000),
            bounded_s(*direction, 65536),
            0 <= t <= 0x2000_0000_0000_0000,
            ox0 == origin.x as int / 65536,
            oy0 == origin.y as int / 65536,
            oz0 == origin.z as int / 65536,
        ensures
            r == march_probe_s(
                *self,
                *origin,
                *direction,
                t as int,
                ox0 as int,
                oy0 as int,
                oz0 as int,
            ),
            match r {
                Some(h) => {
                    &&& hit_ok_s(*self, *origin, *direction, h)
                    &&& h.t == t
                    &&& h.t > 0
                    &&& !(h.vx == ox0 && h.vy == oy0 && h.vz == oz0)
                    &&& h.normal == calc_normal_s(h.vx as int, h.vy as int, h.vz as int, h.point)
                    &&& fp_abs_s(
                        h.point.x - (origin.x + fp_mul_s(direction.x as int, h.t as int)),
                    ) <= 7 + (h.t as int) / 0x100000
                    &&& fp_abs_s(
                        h.point.y - (origin.y + fp_mul_s(direction.y as int, h.t as int)),
                    ) <= 7 + (h.t as int) / 0x100000
                    &&& fp_abs_s(
                        h.point.z - (origin.z + fp_mul_s(direction.z as int, h.t as int)),
                    ) <= 7 + (h.t as int) / 0x100000
                },
                None => true,
            },
    {
        proof {
            reveal(march_probe_s);
            reveal(hit_ok_s);
            lemma_scale_le_t(direction.x as int, t as int);
            lemma_scale_le_t(direction.y as int, t as int);
            lemma_scale_le_t(direction.z as int, t as int);
        }
        let p: Vec3 = origin.plus(&direction.scaled(t));
        let x: i64 = fp_floor_units(p.x);
        let y: i64 = fp_floor_units(p.y);
        let z: i64 = fp_floor_units(p.z);
        if x >= 0 && y >= 0 && z >= 0 && x < self.width as i64 && y < self.height as i64 && z
            < self.depth as i64 && !(x == ox0 && y == oy0 && z == oz0) {
            proof {
                lemma_fundamental_div_mod(p.x as int, 65536);
                lemma_fundamental_div_mod(p.y as int, 65536);
                lemma_fundamental_div_mod(p.z as int, 65536);
            }
            let block = self.get_block(x, y, z);
            if block.is_solid() {
                let block_center = Vec3::new(
                    x * FP_ONE + FP_HALF,
                    y * FP_ONE + FP_HALF,
                    z * FP_ONE + FP_HALF,
                );
                let to_center = block_center.minus(&p);
                proof {
                    lemma_div_is_ordered(t as int, 0x2000_0000_0000_0000, 0x100000);
                }
                let inward_eps: i64 = 7 + ((t as u64) / 0x100000) as i64;
                let tc_len: i64 = to_center.length();
                let hit_in: Vec3 = if tc_len > 0 {
                    let inward = to_center.normalized();
                    proof {
                        lemma_eps_scale(inward.x as int, inward_eps as int);
                        lemma_eps_scale(inward.y as int, inward_eps as int);
                        lemma_eps_scale(inward.z as int, inward_eps as int);
                    }
                    p.plus(&inward.scaled(inward_eps))
                } else {
                    proof {
                        lemma_eps_scale(direction.x as int, inward_eps as int);
                        lemma_eps_scale(direction.y as int, inward_eps as int);
                        lemma_eps_scale(direction.z as int, inward_eps as int);
                    }
                    p.minus(&direction.scaled(inward_eps))
                };
                if self.check_special_collision(x, y, z, &hit_in) {
                    let normal = self.calculate_normal(x, y, z, &hit_in);
                    let uv = self.calculate_uv(&hit_in, &normal, x, y, z);
                    proof {
                        assert(t != 0);
                    }
                    return Some(
                        RayHit { t, normal, block, uv, vx: x, vy: y, vz: z, point: hit_in },
                    );
                }
            }
        }
        None
    }

    /// Fixed-step fallback traversal: march along the ray through the grid's
    /// bounding box and report the first voxel whose shape test passes at an
    /// inward-biased sample point. The origin's own voxel is never reported,
    /// so a ray that starts inside a solid voxel cannot hit it at distance
    /// zero.
    pub fn raycast_simple(&self, origin: &Vec3, direction: &Vec3) -> (r: Option<RayHit>)
        requires
            self.wf_s(),
            bounded_s(*origin, 0x80_0000_0000),
            bounded_s(*direction, 65536),
        ensures
            r == raycast_simple_s(*self, *origin, *direction),
            match r {
                Some(h) => {
                    &&& hit_ok_s(*self, *origin, *direction, h)
                    &&& h.t > 0
                    &&& !(h.vx == origin.x as int / 65536 && h.vy == origin.y as int / 65536
                        && h.vz == origin.z as int / 65536)
                    &&& h.normal == calc_normal_s(h.vx as int, h.vy as int, h.vz as int, h.point)
                    &&& fp_abs_s(
                        h.point.x - (origin.x + fp_mul_s(direction.x as int, h.t as int)),
                    ) <= 7 + (h.t as int) / 0x100000
                    &&& fp_abs_s(
                        h.point.y - (origin.y + fp_mul_s(direction.y as int, h.t as int)),
                    ) <= 7 + (h.t as int) / 0x100000
                    &&& fp_abs_s(
                        h.point.z - (origin.z + fp_mul_s(direction.z as int, h.t as int)),
                    ) <= 7 + (h.t as int) / 0x100000
                },
                None => true,
            },
    {
        proof {
            reveal(raycast_simple_s);
        }
        let ox0: i64 = fp_floor_units(origin.x);
        let oy0: i64 = fp_floor_units(origin.y);
        let oz0: i64 = fp_floor_units(origin.z);
        let aabb_min = Vec3::zero();
        let aabb_max = Vec3::new(
            (self.width as i64) * FP_ONE,
            (self.height as i64) * FP_ONE,
            (self.depth as i64) * FP_ONE,
        );
        let span = ray_aabb_intersect(origin, direction, &aabb_min, &aabb_max);
        if let Some((tmin0, tmax)) = span {
            if tmax < 0 {
                return None;
            }
            let mut t: i64 = if tmin0 < 0 {
                0
            } else {
                tmin0
            };
            while t <= tmax
                invariant
                    self.wf_s(),
                    bounded_s(*origin, 0x80_0000_0000),
                    bounded_s(*direction, 65536),
                    0 <= t,
                    tmax <= 0x2000_0000_0000_0000,
                    ox0 == origin.x as int / 65536,
                    oy0 == origin.y as int / 65536,
                    oz0 == origin.z as int / 65536,
                    raycast_simple_s(*self, *origin, *direction) == march_s(
                        *self,
                        *origin,
                        *direction,
                        t as int,
                        tmax as int,
                        ox0 as int,
                        oy0 as int,
                        oz0 as int,
                    ),
                decreases tmax + MARCH_STEP - t,
            {
                let found: Option<RayHit> = self.march_probe(origin, direction, t, ox0, oy0, oz0);
                if let Some(h) = found {
                    return Some(h);
                }
                t = t + MARCH_STEP;
            }
        }
        None
    }
}

/// The walking direction of one axis: toward positive coordinates unless
/// the ray moves negatively on it.
pub open spec fn step_of_s(dc: int) -> int {
    if dc >= 0 {
        1
    } else {
        -1
    }
}

/// The crossing-distance increment of one axis: the parameter it takes to
/// cross one voxel, or the sentinel for a parallel axis.
pub open spec fn axis_delta_s(dc: int) -> int {
    if dc == 0 {
        0x2000_0000_0000_0000
    } else {
        fp_div_s(65536, fp_abs_s(dc))
    }
}

/// The distance to the first grid-plane crossing of one axis, never less
/// than one fixed-point tick so a reported hit distance is strictly
/// positive; the sentinel for a parallel axis.
pub open spec fn axis_tinit_s(oc: int, dc: int) -> int {
    if dc == 0 {
        0x2000_0000_0000_0000
    } else {
        let fl = oc / 65536;
        let t0 = if dc > 0 {
            fp_div_s(fl * 65536 + 65536 - oc, dc)
        } else {
            fp_div_s(oc - fl * 65536, -dc)
        };
        if t0 < 1 {
            1
        } else {
            t0
        }
    }
}

/// A unit-bounded nonzero direction component crosses a voxel no faster
/// than one unit of parameter.
pub proof fn lemma_axis_delta_ge(dc: int)
    requires
        dc != 0,
        -65536 <= dc <= 65536,
    ensures
        65536 <= axis_delta_s(dc) <= 0x1_0000_0000,
{
    vstd::arithmetic::div_mod::lemma_div_is_ordered_by_denominator(
        0x1_0000_0000,
        fp_abs_s(dc),
        65536,
    );
    vstd::arithmetic::div_mod::lemma_div_nonincreasing(0x1_0000_0000, fp_abs_s(dc));
    crate::fixed::lemma_quot_abs(65536int * 65536, fp_abs_s(dc));
}

/// Per-axis stepping state for the incremental traversal: the step
/// direction, the crossing-distance increment, and the distance to the first
/// grid-plane crossing. A zero direction component never crosses its planes,
/// so both distances are the sentinel.
fn axis_setup(oc: i64, dc: i64) -> (r: (i64, i64, i64))
    requires
        -0x200_0000_0000 <= oc <= 0x200_0000_0000,
        -65536 <= dc <= 65536,
    ensures
        r.0 == step_of_s(dc as int),
        r.1 == axis_delta_s(dc as int),
        r.2 == axis_tinit_s(oc as int, dc as int),
        dc == 0 ==> r.1 == T_SENTINEL && r.2 == T_SENTINEL,
        dc != 0 ==> 65536 <= r.1 <= 0x1_0000_0000,
        dc != 0 ==> 1 <= r.2 <= 0x1_0000_0000,
{
    let step: i64 = if dc >= 0 {
        1
    } else {
        -1
    };
    if dc == 0 {
        return (step, T_SENTINEL, T_SENTINEL);
    }
    let fl: i64 = fp_floor_units(oc);
    let mag: i64 = fp_abs(dc);
    proof {
        lemma_fundamental_div_mod(oc as int, 65536);
        vstd::arithmetic::div_mod::lemma_div_is_ordered_by_denominator(
            0x1_0000_0000,
            mag as int,
            65536,
        );
        vstd::arithmetic::div_mod::lemma_div_nonincreasing(0x1_0000_0000, mag as int);
        crate::fixed::lemma_quot_abs(65536int * 65536, mag as int);
    }
    let delta: i64 = fp_div(FP_ONE, mag);
    let tinit: i64 = if dc > 0 {
        let num: i64 = fl * FP_ONE + FP_ONE - oc;
        proof {
            lemma_div_is_ordered((num as int) * 65536, 0x1_0000_0000int * 65536, mag as int);
            vstd::arithmetic::div_mod::lemma_div_nonincreasing(
                (num as int) * 65536,
                mag as int,
            );
            crate::fixed::lemma_quot_abs((num as int) * 65536, mag as int);
        }
        fp_div(num, dc)
    } else {
        let num: i64 = oc - fl * FP_ONE;
        proof {
            lemma_div_is_ordered((num as int) * 65536, 0x1_0000_0000int * 65536, mag as int);
            vstd::arithmetic::div_mod::lemma_div_nonincreasing(
                (num as int) * 65536,
                mag as int,
            );
            crate::fixed::lemma_quot_abs((num as int) * 65536, mag as int);
        }
        fp_div(num, -dc)
    };
    let tinit1: i64 = if tinit < 1 {
        1
    } else {
        tinit
    };
    (step, delta, tinit1)
}

/// A length reported against components bounded by `m` is at most `2 * m`.
proof fn lemma_length_le(v: Vec3, r: int, m: int)
    requires
        crate::vec3::is_sqrt_of(r, crate::vec3::norm2_s(v)),
        bounded_s(v, m),
        0 <= m,
    ensures
        0 <= r <= 2 * m,
{
    assert(r <= 2 * m) by (nonlinear_arith)
        requires
            0 <= r,
            r * r <= crate::vec3::norm2_s(v),
            crate::vec3::norm2_s(v) == (v.x as int) * (v.x as int) + (v.y as int) * (v.y as int)
                + (v.z as int) * (v.z as int),
            fp_abs_s(v.x as int) <= m,
            fp_abs_s(v.y as int) <= m,
            fp_abs_s(v.z as int) <= m,
            0 <= m,
    ;
}


/// The face direction assembled from the stepped axes, before normalizing.
pub open spec fn face_dir_s(d: Vec3, sx: bool, sy: bool, sz: bool) -> Vec3 {
    Vec3 {
        x: (if sx {
            neg_unit_s(d.x as int)
        } else {
            0
        }) as i64,
        y: (if sy {
            neg_unit_s(d.y as int)
        } else {
            0
        }) as i64,
        z: (if sz {
            neg_unit_s(d.z as int)
        } else {
            0
        }) as i64,
    }
}

/// The inward-biased sample point of a candidate voxel: the first of the
/// face-offset, ray-offset and center-offset candidates that passes the
/// voxel's shape test, else the ray-offset point.
pub open spec fn pick_inward_s(
    w: VoxelWorld,
    x: int,
    y: int,
    z: int,
    hp: Vec3,
    d: Vec3,
    tc: Vec3,
    sx: bool,
    sy: bool,
    sz: bool,
    ieps: int,
) -> Vec3 {
    let def = vsub_s(hp, vscale_s(d, ieps));
    if sx || sy || sz {
        let cf = vadd_s(hp, vscale_s(normalized_s(face_dir_s(d, sx, sy, sz)), ieps));
        if w.occupies_s(x, y, z, cf) {
            cf
        } else if w.occupies_s(x, y, z, def) {
            def
        } else if length_s(tc) > 0 {
            let cc = vadd_s(hp, vscale_s(normalized_s(tc), ieps));
            if w.occupies_s(x, y, z, cc) {
                cc
            } else {
                def
            }
        } else {
            def
        }
    } else {
        if w.occupies_s(x, y, z, def) {
            def
        } else if length_s(tc) > 0 {
            let cc = vadd_s(hp, vscale_s(normalized_s(tc), ieps));
            if w.occupies_s(x, y, z, cc) {
                cc
            } else {
                def
            }
        } else {
            def
        }
    }
}

/// Choose the inward-biased sample point for a candidate voxel: try an
/// offset along the derived face direction, then backward along the ray,
/// then toward the voxel center, keeping the first that passes the shape
/// test (the caller re-tests the chosen point).
#[verifier::rlimit(100)]
fn pick_inward_point(
    w: &VoxelWorld,
    x: i64,
    y: i64,
    z: i64,
    hit_point: &Vec3,
    dir: &Vec3,
    to_center: &Vec3,
    stepped_x: bool,
    stepped_y: bool,
    stepped_z: bool,
    inward_eps: i64,
) -> (r: Vec3)
    requires
        w.wf_s(),
        -0x1_0000_0000 <= x <= 0x1_0000_0000,
        -0x1_0000_0000 <= y <= 0x1_0000_0000,
        -0x1_0000_0000 <= z <= 0x1_0000_0000,
        bounded_s(*hit_point, 0x40_0000_0000_0000),
        bounded_s(*dir, 65536),
        bounded_s(*to_center, 0x4000_0000_0000),
        0 <= inward_eps <= 0x4000_0000_0000,
    ensures
        r == pick_inward_s(
            *w,
            x as int,
            y as int,
            z as int,
            *hit_point,
            *dir,
            *to_center,
            stepped_x,
            stepped_y,
            stepped_z,
            inward_eps as int,
        ),
        bounded_s(r, 0x80_0000_0000_0000),
        fp_abs_s(r.x - hit_point.x) <= inward_eps,
        fp_abs_s(r.y - hit_point.y) <= inward_eps,
        fp_abs_s(r.z - hit_point.z) <= inward_eps,
{
    let mut fdx: i64 = 0;
    let mut fdy: i64 = 0;
    let mut fdz: i64 = 0;
    if stepped_x {
        fdx = if dir.x > 0 {
            -FP_ONE
        } else {
            FP_ONE
        };
    }
    if stepped_y {
        fdy = if dir.y > 0 {
            -FP_ONE
        } else {
            FP_ONE
        };
    }
    if stepped_z {
        fdz = if dir.z > 0 {
            -FP_ONE
        } else {
            FP_ONE
        };
    }
    let have_face: bool = stepped_x || stepped_y || stepped_z;
    let fd = Vec3 { x: fdx, y: fdy, z: fdz };
    let tc_len: i64 = to_center.length();
    proof {
        lemma_eps_scale(dir.x as int, inward_eps as int);
        lemma_eps_scale(dir.y as int, inward_eps as int);
        lemma_eps_scale(dir.z as int, inward_eps as int);
    }
    let default_in: Vec3 = hit_point.minus(&dir.scaled(inward_eps));
    let mut hit_in: Vec3 = default_in;
    if have_face {
        let fdn = fd.normalized();
        proof {
            lemma_eps_scale(fdn.x as int, inward_eps as int);
            lemma_eps_scale(fdn.y as int, inward_eps as int);
            lemma_eps_scale(fdn.z as int, inward_eps as int);
        }
        let cf = hit_point.plus(&fdn.scaled(inward_eps));
        if w.check_special_collision(x, y, z, &cf) {
            hit_in = cf;
        } else if w.check_special_collision(x, y, z, &default_in) {
            hit_in = default_in;
        } else if tc_len > 0 {
            let tcn = to_center.normalized();
            proof {
                lemma_eps_scale(tcn.x as int, inward_eps as int);
                lemma_eps_scale(tcn.y as int, inward_eps as int);
                lemma_eps_scale(tcn.z as int, inward_eps as int);
            }
            let cc = hit_point.plus(&tcn.scaled(inward_eps));
            if w.check_special_collision(x, y, z, &cc) {
                hit_in = cc;
            }
        }
    } else {
        if w.check_special_collision(x, y, z, &default_in) {
            hit_in = default_in;
        } else if tc_len > 0 {
            let tcn = to_center.normalized();
            proof {
                lemma_eps_scale(tcn.x as int, inward_eps as int);
                lemma_eps_scale(tcn.y as int, inward_eps as int);
                lemma_eps_scale(tcn.z as int, inward_eps as int);
            }
            let cc = hit_point.plus(&tcn.scaled(inward_eps));
            if w.check_special_collision(x, y, z, &cc) {
                hit_in = cc;
            }
        }
    }
    hit_in
}

/// The unit normal of the face entered against direction component `dc`.
pub open spec fn neg_unit_s(dc: int) -> int {
    if dc > 0 {
        -65536
    } else {
        65536
    }
}

/// The single-axis face normal derived from the stepped axes; a tie is
/// broken toward the axis whose direction component is largest in magnitude.
pub open spec fn derive_normal_s(d: Vec3, sx: bool, sy: bool, sz: bool) -> Vec3 {
    let count = (if sx {
        1int
    } else {
        0
    }) + (if sy {
        1int
    } else {
        0
    }) + (if sz {
        1int
    } else {
        0
    });
    if count > 1 {
        let ax = if sx {
            fp_abs_s(d.x as int)
        } else {
            -1
        };
        let ay = if sy {
            fp_abs_s(d.y as int)
        } else {
            -1
        };
        let az = if sz {
            fp_abs_s(d.z as int)
        } else {
            -1
        };
        if ax >= ay && ax >= az {
            Vec3 { x: neg_unit_s(d.x as int) as i64, y: 0, z: 0 }
        } else if ay >= ax && ay >= az {
            Vec3 { x: 0, y: neg_unit_s(d.y as int) as i64, z: 0 }
        } else {
            Vec3 { x: 0, y: 0, z: neg_unit_s(d.z as int) as i64 }
        }
    } else {
        Vec3 {
            x: (if sx {
                neg_unit_s(d.x as int)
            } else {
                0
            }) as i64,
            y: (if sy {
                neg_unit_s(d.y as int)
            } else {
                0
            }) as i64,
            z: (if sz {
                neg_unit_s(d.z as int)
            } else {
                0
            }) as i64,
        }
    }
}

/// Derive the single-axis face normal from the stepped axes: one stepped
/// axis gives its own face; a tie hands the face to the axis whose direction
/// component is largest in magnitude (most head-on).
fn derive_normal(dir: &Vec3, stepped_x: bool, stepped_y: bool, stepped_z: bool) -> (n: Vec3)
    requires
        bounded_s(*dir, 65536),
        stepped_x || stepped_y || stepped_z,
        stepped_x ==> dir.x != 0,
        stepped_y ==> dir.y != 0,
        stepped_z ==> dir.z != 0,
    ensures
        n == derive_normal_s(*dir, stepped_x, stepped_y, stepped_z),
        axis_unit_s(n),
        opposes_s(n, *dir),
{
    let mut nx: i64 = 0;
    let mut ny: i64 = 0;
    let mut nz: i64 = 0;
    let mut stepped_count: i64 = 0;
    if stepped_x {
        nx = if dir.x > 0 {
            -FP_ONE
        } else {
            FP_ONE
        };
        stepped_count = stepped_count + 1;
    }
    if stepped_y {
        ny = if dir.y > 0 {
            -FP_ONE
        } else {
            FP_ONE
        };
        stepped_count = stepped_count + 1;
    }
    if stepped_z {
        nz = if dir.z > 0 {
            -FP_ONE
        } else {
            FP_ONE
        };
        stepped_count = stepped_count + 1;
    }
    if stepped_count > 1 {
        let absx: i64 = if stepped_x {
            fp_abs(dir.x)
        } else {
            -1
        };
        let absy: i64 = if stepped_y {
            fp_abs(dir.y)
        } else {
            -1
        };
        let absz: i64 = if stepped_z {
            fp_abs(dir.z)
        } else {
            -1
        };
        if absx >= absy && absx >= absz {
            ny = 0;
            nz = 0;
            nx = if dir.x > 0 {
                -FP_ONE
            } else {
                FP_ONE
            };
        } else if absy >= absx && absy >= absz {
            nx = 0;
            nz = 0;
            ny = if dir.y > 0 {
                -FP_ONE
            } else {
                FP_ONE
            };
        } else {
            nx = 0;
            ny = 0;
            nz = if dir.z > 0 {
                -FP_ONE
            } else {
                FP_ONE
            };
        }
    }
    Vec3 { x: nx, y: ny, z: nz }
}


/// The outcome of testing one candidate voxel at crossing distance `mint`:
/// the hit record if the voxel holds a solid block whose shape test passes
/// at the inward-biased sample point, else nothing.
#[verifier::opaque]
pub open spec fn test_voxel_s(
    w: VoxelWorld,
    x: int,
    y: int,
    z: int,
    mint: int,
    e0: int,
    o: Vec3,
    d: Vec3,
    sx: bool,
    sy: bool,
    sz: bool,
) -> Option<RayHit> {
    let hp = vadd_s(o, vscale_s(d, mint));
    let center = Vec3 {
        x: (x * 65536 + 32768) as i64,
        y: (y * 65536 + 32768) as i64,
        z: (z * 65536 + 32768) as i64,
    };
    let tc = vsub_s(center, hp);
    let hi = pick_inward_s(w, x, y, z, hp, d, tc, sx, sy, sz, 7 + e0);
    let b = w.block_at_s(x, y, z);
    if is_solid_s(b) && w.occupies_s(x, y, z, hi) {
        let n = derive_normal_s(d, sx, sy, sz);
        Some(
            RayHit {
                t: mint as i64,
                normal: n,
                block: b,
                uv: (
                    uv_s(b, hi.x - x * 65536, hi.y - y * 65536, hi.z - z * 65536, n).0 as i64,
                    uv_s(b, hi.x - x * 65536, hi.y - y * 65536, hi.z - z * 65536, n).1 as i64,
                ),
                vx: x as i64,
                vy: y as i64,
                vz: z as i64,
                point: hi,
            },
        )
    } else {
        None
    }
}

impl VoxelWorld {
    /// Test one candidate voxel of the incremental traversal: compute the
    /// crossing point, pick an inward-biased sample point, and if the voxel
    /// holds a solid block whose shape test passes there, build the hit
    /// record with the face normal derived from the stepped axes.
    #[verifier::rlimit(100)]
    fn test_voxel(
        &self,
        x: i64,
        y: i64,
        z: i64,
        min_t: i64,
        e0: i64,
        o: &Vec3,
        dir: &Vec3,
        sx: bool,
        sy: bool,
        sz: bool,
    ) -> (r: Option<RayHit>)
        requires
            self.wf_s(),
            self.in_range_s(x as int, y as int, z as int),
            0 <= min_t <= 0x200_0000_0000,
            0 <= e0 <= 0x200000,
            bounded_s(*o, 0x80_0000_0400),
            bounded_s(*dir, 65536),
            sx || sy || sz,
            sx ==> dir.x != 0,
            sy ==> dir.y != 0,
            sz ==> dir.z != 0,
        ensures
            r == test_voxel_s(
                *self,
                x as int,
                y as int,
                z as int,
                min_t as int,
                e0 as int,
                *o,
                *dir,
                sx,
                sy,
                sz,
            ),
            match r {
                Some(h) => {
                    &&& h.t == min_t
                    &&& h.vx == x && h.vy == y && h.vz == z
                    &&& h.block == self.block_at_s(x as int, y as int, z as int)
                    &&& is_solid_s(h.block)
                    &&& self.occupies_s(x as int, y as int, z as int, h.point)
                    &&& axis_unit_s(h.normal)
                    &&& opposes_s(h.normal, *dir)
                    &&& h.uv.0 == uv_s(
                        h.block,
                        h.point.x - h.vx * 65536,
                        h.point.y - h.vy * 65536,
                        h.point.z - h.vz * 65536,
                        h.normal,
                    ).0
                    &&& h.uv.1 == uv_s(
                        h.block,
                        h.point.x - h.vx * 65536,
                        h.point.y - h.vy * 65536,
                        h.point.z - h.vz * 65536,
                        h.normal,
                    ).1
                    &&& 0 <= h.uv.0 <= 65536
                    &&& 0 <= h.uv.1 <= 65536
                    &&& fp_abs_s(h.point.x - (o.x + fp_mul_s(dir.x as int, min_t as int))) <= 7
                        + e0
                    &&& fp_abs_s(h.point.y - (o.y + fp_mul_s(dir.y as int, min_t as int))) <= 7
                        + e0
                    &&& fp_abs_s(h.point.z - (o.z + fp_mul_s(dir.z as int, min_t as int))) <= 7
                        + e0
                },
                None => true,
            },
    {
        proof {
            reveal(test_voxel_s);
            lemma_scale_le_t(dir.x as int, min_t as int);
            lemma_scale_le_t(dir.y as int, min_t as int);
            lemma_scale_le_t(dir.z as int, min_t as int);
        }
        let hit_point: Vec3 = o.plus(&dir.scaled(min_t));
        let block_center = Vec3::new(
            x * FP_ONE + FP_HALF,
            y * FP_ONE + FP_HALF,
            z * FP_ONE + FP_HALF,
        );
        let to_center = block_center.minus(&hit_point);
        let inward_eps: i64 = 7 + e0;
        let hit_in: Vec3 = pick_inward_point(
            self,
            x,
            y,
            z,
            &hit_point,
            dir,
            &to_center,
            sx,
            sy,
            sz,
            inward_eps,
        );
        let block = self.get_block(x, y, z);
        if block.is_solid() && self.check_special_collision(x, y, z, &hit_in) {
            let normal = derive_normal(dir, sx, sy, sz);
            let uv = self.calculate_uv(&hit_in, &normal, x, y, z);
            Some(RayHit { t: min_t, normal, block, uv, vx: x, vy: y, vz: z, point: hit_in })
        } else {
            None
        }
    }
}


/// The per-axis state of the incremental walk: the step direction matches
/// the ray, a parallel axis sits at the sentinel, the crossing-distance
/// increment is one voxel's worth of parameter, and the voxel coordinate has
/// moved from its start monotonically, no further than the crossing
/// distances allow.
/// A crossing distance capped at the sentinel.
pub open spec fn cap_t_s(t: int) -> int {
    if t > 0x2000_0000_0000_0000 {
        0x2000_0000_0000_0000
    } else {
        t
    }
}

/// The conditions under which the walk's recursion is well defined: a
/// unit-bounded direction, a bounded traversal cap, sentinels on parallel
/// axes, and crossing distances within the sentinel.
pub open spec fn dda_guard_s(d: Vec3, maxd: int, tx: int, ty: int, tz: int) -> bool {
    &&& bounded_s(d, 65536)
    &&& 0 <= maxd <= 0x200_0000_0000
    &&& (d.x == 0 ==> tx == 0x2000_0000_0000_0000)
    &&& (d.y == 0 ==> ty == 0x2000_0000_0000_0000)
    &&& (d.z == 0 ==> tz == 0x2000_0000_0000_0000)
    &&& 0 <= tx <= 0x2000_0000_0000_0000
    &&& 0 <= ty <= 0x2000_0000_0000_0000
    &&& 0 <= tz <= 0x2000_0000_0000_0000
}

/// The whole incremental traversal from a walk state, as a recursive
/// function: stop beyond the traversal cap, advance every axis that ties
/// for the nearest crossing, stop at the first out-of-range voxel, and
/// otherwise report the first voxel whose shape test passes, or keep
/// walking.
pub open spec fn dda_s(
    w: VoxelWorld,
    o: Vec3,
    d: Vec3,
    maxd: int,
    x: int,
    y: int,
    z: int,
    tx: int,
    ty: int,
    tz: int,
) -> Option<RayHit>
    decreases 3 * 0x2000_0000_0000_0000int - tx - ty - tz,
        when dda_guard_s(d, maxd, tx, ty, tz)
{
    let mint = min2_s(min2_s(tx, ty), tz);
    if mint > maxd {
        None
    } else {
        let e0 = mint / 0x100000;
        let eps = if e0 < 1 { 1int } else { e0 };
        let stx = tx - mint <= eps;
        let sty = ty - mint <= eps;
        let stz = tz - mint <= eps;
        let x1 = if stx { x + step_of_s(d.x as int) } else { x };
        let y1 = if sty { y + step_of_s(d.y as int) } else { y };
        let z1 = if stz { z + step_of_s(d.z as int) } else { z };
        let tx1 = if stx { cap_t_s(tx + axis_delta_s(d.x as int)) } else { tx };
        let ty1 = if sty { cap_t_s(ty + axis_delta_s(d.y as int)) } else { ty };
        let tz1 = if stz { cap_t_s(tz + axis_delta_s(d.z as int)) } else { tz };
        if x1 < 0 || y1 < 0 || z1 < 0 || x1 >= w.width || y1 >= w.height || z1 >= w.depth {
            None
        } else {
            match test_voxel_s(w, x1, y1, z1, mint, e0, o, d, stx, sty, stz) {
                Some(h) => Some(h),
                None => {
                    proof {
                        if d.x != 0 {
                            lemma_axis_delta_ge(d.x as int);
                        }
                        if d.y != 0 {
                            lemma_axis_delta_ge(d.y as int);
                        }
                        if d.z != 0 {
                            lemma_axis_delta_ge(d.z as int);
                        }
                        assert(stx || sty || stz);
                        assert(tx1 >= tx && ty1 >= ty && tz1 >= tz);
                        assert(stx ==> tx1 > tx);
                        assert(sty ==> ty1 > ty);
                        assert(stz ==> tz1 > tz);
                    }
                    dda_s(w, o, d, maxd, x1, y1, z1, tx1, ty1, tz1)
                },
            }
        }
    }
}

/// The origin the walk actually starts from: nudged one hundredth of a unit
/// forward when it begins inside a solid voxel.
pub open spec fn nudged_origin_s(w: VoxelWorld, origin: Vec3, dir: Vec3) -> Vec3 {
    if is_solid_s(
        w.block_at_s(
            origin.x as int / 65536,
            origin.y as int / 65536,
            origin.z as int / 65536,
        ),
    ) {
        vadd_s(origin, vscale_s(dir, 655))
    } else {
        origin
    }
}

/// The traversal cap: the distance from the walk origin to the grid's
/// center plus one and a half of the grid's spatial diagonal.
pub open spec fn max_dist_s(w: VoxelWorld, o: Vec3) -> int {
    let diag = sqrt_s(
        norm2_s(
            Vec3 {
                x: (w.width * 65536) as i64,
                y: (w.height * 65536) as i64,
                z: (w.depth * 65536) as i64,
            },
        ),
    );
    let dist = sqrt_s(
        norm2_s(
            vsub_s(
                Vec3 {
                    x: (w.width * 32768) as i64,
                    y: (w.height * 32768) as i64,
                    z: (w.depth * 32768) as i64,
                },
                o,
            ),
        ),
    );
    dist + diag + diag / 2
}

/// The primary traversal's entire outcome as a function of the grid, the
/// ray origin and the direction.
#[verifier::opaque]
pub open spec fn raycast_s(w: VoxelWorld, origin: Vec3, dir: Vec3) -> Option<RayHit> {
    let o = nudged_origin_s(w, origin, dir);
    dda_s(
        w,
        o,
        dir,
        max_dist_s(w, o),
        o.x as int / 65536,
        o.y as int / 65536,
        o.z as int / 65536,
        axis_tinit_s(o.x as int, dir.x as int),
        axis_tinit_s(o.y as int, dir.y as int),
        axis_tinit_s(o.z as int, dir.z as int),
    )
}

/// Beyond the traversal cap the walk stops with no hit.
proof fn lemma_dda_none(
    w: VoxelWorld,
    o: Vec3,
    d: Vec3,
    maxd: int,
    x: int,
    y: int,
    z: int,
    tx: int,
    ty: int,
    tz: int,
)
    requires
        dda_guard_s(d, maxd, tx, ty, tz),
        min2_s(min2_s(tx, ty), tz) > maxd,
    ensures
        dda_s(w, o, d, maxd, x, y, z, tx, ty, tz) == None::<RayHit>,
{
}

/// One unfolding of the walk below the traversal cap, phrased over the
/// stepped state the loop computes.
#[verifier::rlimit(60)]
proof fn lemma_dda_progress(
    w: VoxelWorld,
    o: Vec3,
    d: Vec3,
    maxd: int,
    x0: int,
    y0: int,
    z0: int,
    tx0: int,
    ty0: int,
    tz0: int,
    mint: int,
    eps: int,
    stx: bool,
    sty: bool,
    stz: bool,
    x1: int,
    y1: int,
    z1: int,
    tx1: int,
    ty1: int,
    tz1: int,
)
    requires
        dda_guard_s(d, maxd, tx0, ty0, tz0),
        mint == min2_s(min2_s(tx0, ty0), tz0),
        mint <= maxd,
        eps == (if mint / 0x100000 < 1 {
            1int
        } else {
            mint / 0x100000
        }),
        stx == (tx0 - mint <= eps),
        sty == (ty0 - mint <= eps),
        stz == (tz0 - mint <= eps),
        x1 == (if stx {
            x0 + step_of_s(d.x as int)
        } else {
            x0
        }),
        y1 == (if sty {
            y0 + step_of_s(d.y as int)
        } else {
            y0
        }),
        z1 == (if stz {
            z0 + step_of_s(d.z as int)
        } else {
            z0
        }),
        tx1 == (if stx {
            cap_t_s(tx0 + axis_delta_s(d.x as int))
        } else {
            tx0
        }),
        ty1 == (if sty {
            cap_t_s(ty0 + axis_delta_s(d.y as int))
        } else {
            ty0
        }),
        tz1 == (if stz {
            cap_t_s(tz0 + axis_delta_s(d.z as int))
        } else {
            tz0
        }),
    ensures
        (x1 < 0 || y1 < 0 || z1 < 0 || x1 >= w.width || y1 >= w.height || z1 >= w.depth)
            ==> dda_s(w, o, d, maxd, x0, y0, z0, tx0, ty0, tz0) == None::<RayHit>,
        !(x1 < 0 || y1 < 0 || z1 < 0 || x1 >= w.width || y1 >= w.height || z1 >= w.depth)
            ==> dda_s(w, o, d, maxd, x0, y0, z0, tx0, ty0, tz0) == (match test_voxel_s(
            w,
            x1,
            y1,
            z1,
            mint,
            mint / 0x100000,
            o,
            d,
            stx,
            sty,
            stz,
        ) {
            Some(h) => Some(h),
            None => dda_s(w, o, d, maxd, x1, y1, z1, tx1, ty1, tz1),
        }),
{
}

pub open spec fn axis_walk_inv_s(
    d: int,
    step: int,
    c: int,
    g0: int,
    f0: int,
    t: int,
    delta: int,
    maxd: int,
) -> bool {
    &&& step == (if d >= 0 {
        1int
    } else {
        -1int
    })
    &&& (d == 0 ==> t == 0x2000_0000_0000_0000)
    &&& (d != 0 ==> 65536 <= delta <= 0x1_0000_0000)
    &&& 0 <= t <= 0x2000_0000_0000_0000
    &&& (d >= 0 ==> g0 >= f0 && c >= g0 && 65536 * (c - g0) <= t && 65536 * (c - g0) <= maxd
        + 0x300000)
    &&& (d < 0 ==> g0 <= f0 && c <= g0 && 65536 * (g0 - c) <= t && 65536 * (g0 - c) <= maxd
        + 0x300000)
}

/// Advance one axis of the walk when its crossing distance ties with the
/// nearest crossing (within the distance-scaled tolerance): step the voxel
/// coordinate and push the next crossing out by the per-voxel increment,
/// capped at the sentinel.
fn advance_axis(
    c: &mut i64,
    t: &mut i64,
    step: i64,
    delta: i64,
    d: i64,
    min_t: i64,
    eps: i64,
    g0: Ghost<int>,
    f0: Ghost<int>,
    maxd: Ghost<int>,
) -> (stepped: bool)
    requires
        axis_walk_inv_s(
            d as int,
            step as int,
            *old(c) as int,
            g0@,
            f0@,
            *old(t) as int,
            delta as int,
            maxd@,
        ),
        0 <= min_t <= maxd@,
        maxd@ <= 0x200_0000_0000,
        1 <= eps <= 0x200001,
        min_t <= *old(t),
        -0x800002 <= g0@ <= 0x800002,
    ensures
        axis_walk_inv_s(
            d as int,
            step as int,
            *final(c) as int,
            g0@,
            f0@,
            *final(t) as int,
            delta as int,
            maxd@,
        ),
        stepped == (*old(t) - min_t <= eps),
        stepped ==> d != 0 && *final(c) == *old(c) + step && *old(t) < *final(t),
        stepped ==> *final(t) == cap_t_s(*old(t) + delta),
        !stepped ==> *final(c) == *old(c) && *final(t) == *old(t),
        *old(t) <= *final(t),
{
    if *t - min_t <= eps {
        proof {
            assert(d != 0);
        }
        *c = *c + step;
        let nt: i64 = *t + delta;
        *t = if nt > T_SENTINEL {
            T_SENTINEL
        } else {
            nt
        };
        true
    } else {
        false
    }
}

/// Assemble the traversal's hit-side postconditions from the per-voxel
/// test's guarantees and the walk's constant facts.
#[verifier::rlimit(100)]
proof fn lemma_hit_facts(
    w: VoxelWorld,
    origin: Vec3,
    dirp: Vec3,
    o: Vec3,
    vm0: int,
    maxd: int,
    h: RayHit,
    min_t: int,
    e0: int,
)
    requires
        bounded_s(origin, 0x80_0000_0000),
        bounded_s(dirp, 65536),
        vm0 == vmax_s(origin),
        bounded_s(o, vm0 + 656),
        fp_abs_s(o.x - origin.x) <= 655,
        fp_abs_s(o.y - origin.y) <= 655,
        fp_abs_s(o.z - origin.z) <= 655,
        0 <= maxd <= 2 * vm0 + 0x2000_0000,
        o == nudged_origin_s(w, origin, dirp),
        h.t == min_t,
        1 <= min_t <= maxd,
        e0 == min_t / 0x100000,
        w.in_range_s(h.vx as int, h.vy as int, h.vz as int),
        h.block == w.block_at_s(h.vx as int, h.vy as int, h.vz as int),
        is_solid_s(h.block),
        w.occupies_s(h.vx as int, h.vy as int, h.vz as int, h.point),
        axis_unit_s(h.normal),
        opposes_s(h.normal, dirp),
        h.uv.0 == uv_s(
            h.block,
            h.point.x - h.vx * 65536,
            h.point.y - h.vy * 65536,
            h.point.z - h.vz * 65536,
            h.normal,
        ).0,
        h.uv.1 == uv_s(
            h.block,
            h.point.x - h.vx * 65536,
            h.point.y - h.vy * 65536,
            h.point.z - h.vz * 65536,
            h.normal,
        ).1,
        0 <= h.uv.0 <= 65536,
        0 <= h.uv.1 <= 65536,
        fp_abs_s(h.point.x - (o.x + fp_mul_s(dirp.x as int, min_t))) <= 7 + e0,
        fp_abs_s(h.point.y - (o.y + fp_mul_s(dirp.y as int, min_t))) <= 7 + e0,
        fp_abs_s(h.point.z - (o.z + fp_mul_s(dirp.z as int, min_t))) <= 7 + e0,
    ensures
        hit_ok_s(w, origin, dirp, h),
        h.t <= 2 * vmax_s(origin) + 0x4000_0000,
        fp_abs_s(h.point.x - (origin.x + fp_mul_s(dirp.x as int, h.t as int))) <= 662 + (
        h.t as int) / 0x100000,
        fp_abs_s(h.point.y - (origin.y + fp_mul_s(dirp.y as int, h.t as int))) <= 662 + (
        h.t as int) / 0x100000,
        fp_abs_s(h.point.z - (origin.z + fp_mul_s(dirp.z as int, h.t as int))) <= 662 + (
        h.t as int) / 0x100000,
        !is_solid_s(
            w.block_at_s(
                origin.x as int / 65536,
                origin.y as int / 65536,
                origin.z as int / 65536,
            ),
        ) ==> {
            &&& fp_abs_s(h.point.x - (origin.x + fp_mul_s(dirp.x as int, h.t as int))) <= 7 + (
            h.t as int) / 0x100000
            &&& fp_abs_s(h.point.y - (origin.y + fp_mul_s(dirp.y as int, h.t as int))) <= 7 + (
            h.t as int) / 0x100000
            &&& fp_abs_s(h.point.z - (origin.z + fp_mul_s(dirp.z as int, h.t as int))) <= 7 + (
            h.t as int) / 0x100000
        },
{
    reveal(hit_ok_s);
    lemma_scale_le_t(dirp.x as int, min_t);
    lemma_scale_le_t(dirp.y as int, min_t);
    lemma_scale_le_t(dirp.z as int, min_t);
}

/// Everything about the walk that never changes while it runs: the grid is
/// well formed, the ray is bounded, the (possibly nudged) start point, its
/// voxel, the per-axis step directions and increments, and the traversal
/// cap.
pub open spec fn walk_consts_s(
    w: VoxelWorld,
    origin: Vec3,
    dirp: Vec3,
    o: Vec3,
    maxd: int,
    vm0: int,
    fx0: int,
    fy0: int,
    fz0: int,
    gx0: int,
    gy0: int,
    gz0: int,
    step_x: int,
    step_y: int,
    step_z: int,
    dlx: int,
    dly: int,
    dlz: int,
) -> bool {
    &&& w.wf_s()
    &&& bounded_s(dirp, 65536)
    &&& bounded_s(origin, 0x80_0000_0000)
    &&& vm0 == vmax_s(origin)
    &&& bounded_s(o, vm0 + 656)
    &&& fp_abs_s(o.x - origin.x) <= 655
    &&& fp_abs_s(o.y - origin.y) <= 655
    &&& fp_abs_s(o.z - origin.z) <= 655
    &&& 0 <= maxd <= 2 * vm0 + 0x2000_0000
    &&& maxd <= 0x200_0000_0000
    &&& o == nudged_origin_s(w, origin, dirp)
    &&& fx0 == origin.x as int / 65536
    &&& fy0 == origin.y as int / 65536
    &&& fz0 == origin.z as int / 65536
    &&& gx0 == o.x as int / 65536
    &&& gy0 == o.y as int / 65536
    &&& gz0 == o.z as int / 65536
    &&& -0x800002 <= gx0 <= 0x800002
    &&& -0x800002 <= gy0 <= 0x800002
    &&& -0x800002 <= gz0 <= 0x800002
    &&& step_x == step_of_s(dirp.x as int)
    &&& step_y == step_of_s(dirp.y as int)
    &&& step_z == step_of_s(dirp.z as int)
    &&& dlx == axis_delta_s(dirp.x as int)
    &&& dly == axis_delta_s(dirp.y as int)
    &&& dlz == axis_delta_s(dirp.z as int)
}

/// Advance every axis whose crossing distance ties with the nearest one,
/// preserving the per-axis walk state, and relate the transition to one
/// unfolding of the walk's recursion.
#[verifier::rlimit(100)]
fn advance_all(
    w: &VoxelWorld,
    o: Ghost<Vec3>,
    d: &Vec3,
    maxd: i64,
    min_t: i64,
    eps: i64,
    e0: i64,
    x: &mut i64,
    y: &mut i64,
    z: &mut i64,
    tx: &mut i64,
    ty: &mut i64,
    tz: &mut i64,
    step_x: i64,
    step_y: i64,
    step_z: i64,
    dlx: i64,
    dly: i64,
    dlz: i64,
    g0: Ghost<(int, int, int)>,
    f0: Ghost<(int, int, int)>,
) -> (st: (bool, bool, bool))
    requires
        dda_guard_s(*d, maxd as int, *old(tx) as int, *old(ty) as int, *old(tz) as int),
        min_t as int == min2_s(min2_s(*old(tx) as int, *old(ty) as int), *old(tz) as int),
        0 <= min_t <= maxd,
        maxd <= 0x200_0000_0000,
        e0 as int == (min_t as int) / 0x100000,
        eps == (if e0 < 1 {
            1i64
        } else {
            e0
        }),
        step_x as int == step_of_s(d.x as int),
        step_y as int == step_of_s(d.y as int),
        step_z as int == step_of_s(d.z as int),
        dlx as int == axis_delta_s(d.x as int),
        dly as int == axis_delta_s(d.y as int),
        dlz as int == axis_delta_s(d.z as int),
        axis_walk_inv_s(
            d.x as int,
            step_x as int,
            *old(x) as int,
            g0@.0,
            f0@.0,
            *old(tx) as int,
            dlx as int,
            maxd as int,
        ),
        axis_walk_inv_s(
            d.y as int,
            step_y as int,
            *old(y) as int,
            g0@.1,
            f0@.1,
            *old(ty) as int,
            dly as int,
            maxd as int,
        ),
        axis_walk_inv_s(
            d.z as int,
            step_z as int,
            *old(z) as int,
            g0@.2,
            f0@.2,
            *old(tz) as int,
            dlz as int,
            maxd as int,
        ),
        -0x800002 <= g0@.0 <= 0x800002,
        -0x800002 <= g0@.1 <= 0x800002,
        -0x800002 <= g0@.2 <= 0x800002,
    ensures
        axis_walk_inv_s(
            d.x as int,
            step_x as int,
            *final(x) as int,
            g0@.0,
            f0@.0,
            *final(tx) as int,
            dlx as int,
            maxd as int,
        ),
        axis_walk_inv_s(
            d.y as int,
            step_y as int,
            *final(y) as int,
            g0@.1,
            f0@.1,
            *final(ty) as int,
            dly as int,
            maxd as int,
        ),
        axis_walk_inv_s(
            d.z as int,
            step_z as int,
            *final(z) as int,
            g0@.2,
            f0@.2,
            *final(tz) as int,
            dlz as int,
            maxd as int,
        ),
        dda_guard_s(*d, maxd as int, *final(tx) as int, *final(ty) as int, *final(tz) as int),
        *old(tx) <= *final(tx) && *old(ty) <= *final(ty) && *old(tz) <= *final(tz),
        st.0 || st.1 || st.2,
        st.0 ==> d.x != 0 && *final(x) == *old(x) + step_x && *old(tx) < *final(tx),
        st.1 ==> d.y != 0 && *final(y) == *old(y) + step_y && *old(ty) < *final(ty),
        st.2 ==> d.z != 0 && *final(z) == *old(z) + step_z && *old(tz) < *final(tz),
        !st.0 ==> *final(x) == *old(x),
        !st.1 ==> *final(y) == *old(y),
        !st.2 ==> *final(z) == *old(z),
        ({
            let oob = *final(x) < 0 || *final(y) < 0 || *final(z) < 0 || (*final(x) as int)
                >= w.width || (*final(y) as int) >= w.height || (*final(z) as int) >= w.depth;
            &&& (oob ==> dda_s(
                *w,
                o@,
                *d,
                maxd as int,
                *old(x) as int,
                *old(y) as int,
                *old(z) as int,
                *old(tx) as int,
                *old(ty) as int,
                *old(tz) as int,
            ) == None::<RayHit>)
            &&& (!oob ==> dda_s(
                *w,
                o@,
                *d,
                maxd as int,
                *old(x) as int,
                *old(y) as int,
                *old(z) as int,
                *old(tx) as int,
                *old(ty) as int,
                *old(tz) as int,
            ) == (match test_voxel_s(
                *w,
                *final(x) as int,
                *final(y) as int,
                *final(z) as int,
                min_t as int,
                e0 as int,
                o@,
                *d,
                st.0,
                st.1,
                st.2,
            ) {
                Some(h) => Some(h),
                None => dda_s(
                    *w,
                    o@,
                    *d,
                    maxd as int,
                    *final(x) as int,
                    *final(y) as int,
                    *final(z) as int,
                    *final(tx) as int,
                    *final(ty) as int,
                    *final(tz) as int,
                ),
            }))
        }),
{
    let ghost pre_x: int = *x as int;
    let ghost pre_y: int = *y as int;
    let ghost pre_z: int = *z as int;
    let ghost pre_tx: int = *tx as int;
    let ghost pre_ty: int = *ty as int;
    let ghost pre_tz: int = *tz as int;
    let stepped_x: bool = advance_axis(
        x,
        tx,
        step_x,
        dlx,
        d.x,
        min_t,
        eps,
        Ghost(g0@.0),
        Ghost(f0@.0),
        Ghost(maxd as int),
    );
    let stepped_y: bool = advance_axis(
        y,
        ty,
        step_y,
        dly,
        d.y,
        min_t,
        eps,
        Ghost(g0@.1),
        Ghost(f0@.1),
        Ghost(maxd as int),
    );
    let stepped_z: bool = advance_axis(
        z,
        tz,
        step_z,
        dlz,
        d.z,
        min_t,
        eps,
        Ghost(g0@.2),
        Ghost(f0@.2),
        Ghost(maxd as int),
    );
    proof {
        assert(stepped_x || stepped_y || stepped_z);
        lemma_dda_progress(
            *w,
            o@,
            *d,
            maxd as int,
            pre_x,
            pre_y,
            pre_z,
            pre_tx,
            pre_ty,
            pre_tz,
            min_t as int,
            eps as int,
            stepped_x,
            stepped_y,
            stepped_z,
            *x as int,
            *y as int,
            *z as int,
            *tx as int,
            *ty as int,
            *tz as int,
        );
    }
    (stepped_x, stepped_y, stepped_z)
}

impl VoxelWorld {
    /// Primary traversal: incremental grid stepping over per-axis crossing
    /// distances, advancing every axis that ties for the nearest crossing,
    /// deriving the face normal from the stepped axes (most head-on axis
    /// wins a tie), and testing each entered voxel's shape at an
    /// inward-biased sample point. A ray that starts inside a solid voxel is
    /// first nudged forward so it cannot report its own voxel at distance
    /// zero.
    #[verifier::rlimit(100)]
    pub fn raycast(&self, origin: &Vec3, direction: &Vec3) -> (r: Option<RayHit>)
        requires
            self.wf_s(),
            bounded_s(*origin, 0x80_0000_0000),
            bounded_s(*direction, 65536),
        ensures
            r == raycast_s(*self, *origin, *direction),
            match r {
                Some(h) => {
                    &&& hit_ok_s(*self, *origin, *direction, h)
                    &&& opposes_s(h.normal, *direction)
                    &&& h.t >= 1
                    &&& h.t <= 2 * vmax_s(*origin) + 0x4000_0000
                    &&& fp_abs_s(
                        h.point.x - (origin.x + fp_mul_s(direction.x as int, h.t as int)),
                    ) <= 662 + (h.t as int) / 0x100000
                    &&& fp_abs_s(
                        h.point.y - (origin.y + fp_mul_s(direction.y as int, h.t as int)),
                    ) <= 662 + (h.t as int) / 0x100000
                    &&& fp_abs_s(
                        h.point.z - (origin.z + fp_mul_s(direction.z as int, h.t as int)),
                    ) <= 662 + (h.t as int) / 0x100000
                    &&& !is_solid_s(
                        self.block_at_s(
                            origin.x as int / 65536,
                            origin.y as int / 65536,
                            origin.z as int / 65536,
                        ),
                    ) ==> {
                        &&& fp_abs_s(
                            h.point.x - (origin.x + fp_mul_s(direction.x as int, h.t as int)),
                        ) <= 7 + (h.t as int) / 0x100000
                        &&& fp_abs_s(
                            h.point.y - (origin.y + fp_mul_s(direction.y as int, h.t as int)),
                        ) <= 7 + (h.t as int) / 0x100000
                        &&& fp_abs_s(
                            h.point.z - (origin.z + fp_mul_s(direction.z as int, h.t as int)),
                        ) <= 7 + (h.t as int) / 0x100000
                    }
                    &&& !(h.vx == origin.x as int / 65536 && h.vy == origin.y as int / 65536
                        && h.vz == origin.z as int / 65536)
                },
                None => true,
            },
    {
        let dir: Vec3 = *direction;
        let mut o: Vec3 = *origin;
        let fx0: i64 = fp_floor_units(o.x);
        let fy0: i64 = fp_floor_units(o.y);
        let fz0: i64 = fp_floor_units(o.z);
        let ghost vm0: int = vmax_s(*origin);
        if self.get_block(fx0, fy0, fz0).is_solid() {
            proof {
                lemma_eps_scale(dir.x as int, 655);
                lemma_eps_scale(dir.y as int, 655);
                lemma_eps_scale(dir.z as int, 655);
            }
            o = o.plus(&dir.scaled(655));
        }
        proof {
            if dir.x >= 0 {
                lemma_div_is_ordered(origin.x as int, o.x as int, 65536);
            } else {
                lemma_div_is_ordered(o.x as int, origin.x as int, 65536);
            }
            if dir.y >= 0 {
                lemma_div_is_ordered(origin.y as int, o.y as int, 65536);
            } else {
                lemma_div_is_ordered(o.y as int, origin.y as int, 65536);
            }
            if dir.z >= 0 {
                lemma_div_is_ordered(origin.z as int, o.z as int, 65536);
            } else {
                lemma_div_is_ordered(o.z as int, origin.z as int, 65536);
            }
        }
        let center = Vec3::new(
            (self.width as i64) * FP_HALF,
            (self.height as i64) * FP_HALF,
            (self.depth as i64) * FP_HALF,
        );
        let diag_v = Vec3::new(
            (self.width as i64) * FP_ONE,
            (self.height as i64) * FP_ONE,
            (self.depth as i64) * FP_ONE,
        );
        let world_diag: i64 = diag_v.length();
        let to_c = center.minus(&o);
        let dist_c: i64 = to_c.length();
        proof {
            lemma_length_le(diag_v, world_diag as int, 0x4000000);
            lemma_length_le(to_c, dist_c as int, vm0 + 656 + 0x2000000);
        }
        let max_distance: i64 = dist_c + world_diag + ((world_diag as u64) / 2) as i64;
        let mut x: i64 = fp_floor_units(o.x);
        let mut y: i64 = fp_floor_units(o.y);
        let mut z: i64 = fp_floor_units(o.z);
        let ghost gx0: int = x as int;
        let ghost gy0: int = y as int;
        let ghost gz0: int = z as int;
        let (step_x, tx_delta, tx_init): (i64, i64, i64) = axis_setup(o.x, dir.x);
        let (step_y, ty_delta, ty_init): (i64, i64, i64) = axis_setup(o.y, dir.y);
        let (step_z, tz_delta, tz_init): (i64, i64, i64) = axis_setup(o.z, dir.z);
        let mut tx: i64 = tx_init;
        let mut ty: i64 = ty_init;
        let mut tz: i64 = tz_init;
        proof {
            reveal(raycast_s);
            assert(o == nudged_origin_s(*self, *origin, *direction));
            assert(max_distance as int == max_dist_s(*self, o));
        }
        loop
            invariant_except_break
                raycast_s(*self, *origin, *direction) == dda_s(
                    *self,
                    o,
                    dir,
                    max_distance as int,
                    x as int,
                    y as int,
                    z as int,
                    tx as int,
                    ty as int,
                    tz as int,
                ),
            invariant
                dir == *direction,
                walk_consts_s(
                    *self,
                    *origin,
                    dir,
                    o,
                    max_distance as int,
                    vm0,
                    fx0 as int,
                    fy0 as int,
                    fz0 as int,
                    gx0,
                    gy0,
                    gz0,
                    step_x as int,
                    step_y as int,
                    step_z as int,
                    tx_delta as int,
                    ty_delta as int,
                    tz_delta as int,
                ),
                dda_guard_s(dir, max_distance as int, tx as int, ty as int, tz as int),
                tx >= 1,
                ty >= 1,
                tz >= 1,
                axis_walk_inv_s(
                    dir.x as int,
                    step_x as int,
                    x as int,
                    gx0,
                    fx0 as int,
                    tx as int,
                    tx_delta as int,
                    max_distance as int,
                ),
                axis_walk_inv_s(
                    dir.y as int,
                    step_y as int,
                    y as int,
                    gy0,
                    fy0 as int,
                    ty as int,
                    ty_delta as int,
                    max_distance as int,
                ),
                axis_walk_inv_s(
                    dir.z as int,
                    step_z as int,
                    z as int,
                    gz0,
                    fz0 as int,
                    tz as int,
                    tz_delta as int,
                    max_distance as int,
                ),
            ensures
                raycast_s(*self, *origin, *direction) == None::<RayHit>,
            decreases 3 * T_SENTINEL - tx - ty - tz,
        {
            let mut min_t: i64 = tx;
            if ty < min_t {
                min_t = ty;
            }
            if tz < min_t {
                min_t = tz;
            }
            if min_t > max_distance {
                proof {
                    lemma_dda_none(
                        *self,
                        o,
                        dir,
                        max_distance as int,
                        x as int,
                        y as int,
                        z as int,
                        tx as int,
                        ty as int,
                        tz as int,
                    );
                }
                break ;
            }
            proof {
                lemma_div_is_ordered(min_t as int, 0x200_0000_0000, 0x100000);
            }
            let e0: i64 = ((min_t as u64) / 0x100000) as i64;
            let eps: i64 = if e0 < 1 {
                1
            } else {
                e0
            };
            let st: (bool, bool, bool) = advance_all(
                self,
                Ghost(o),
                &dir,
                max_distance,
                min_t,
                eps,
                e0,
                &mut x,
                &mut y,
                &mut z,
                &mut tx,
                &mut ty,
                &mut tz,
                step_x,
                step_y,
                step_z,
                tx_delta,
                ty_delta,
                tz_delta,
                Ghost((gx0, gy0, gz0)),
                Ghost((fx0 as int, fy0 as int, fz0 as int)),
            );
            let stepped_x: bool = st.0;
            let stepped_y: bool = st.1;
            let stepped_z: bool = st.2;
            if x < 0 || y < 0 || z < 0 || x >= self.width as i64 || y >= self.height as i64 || z
                >= self.depth as i64 {
                break ;
            }
            let found: Option<RayHit> = self.test_voxel(
                x,
                y,
                z,
                min_t,
                e0,
                &o,
                &dir,
                stepped_x,
                stepped_y,
                stepped_z,
            );
            if let Some(h) = found {
                proof {
                    lemma_hit_facts(
                        *self,
                        *origin,
                        dir,
                        o,
                        vm0,
                        max_distance as int,
                        h,
                        min_t as int,
                        e0 as int,
                    );
                    if stepped_x {
                        assert(x != fx0);
                    }
                    if stepped_y {
                        assert(y != fy0);
                    }
                    if stepped_z {
                        assert(z != fz0);
                    }
                }
                return Some(h);
            }
        }
        None
    }
}

/// Scaling a unit-bounded component by a small inward offset keeps the
/// product, and the scaled result, small.
proof fn lemma_eps_scale(c: int, e: int)
    requires
        -65536 <= c <= 65536,
        0 <= e <= 0x4000_0000_0000,
    ensures
        fp_abs_s(c * e) <= 65536 * 0x4000_0000_0000,
        fp_abs_s(fp_mul_s(c, e)) <= e,
{
    assert(fp_abs_s(c * e) == fp_abs_s(c) * e) by (nonlinear_arith)
        requires
            0 <= e,
    ;
    lemma_mul_inequality(fp_abs_s(c), 65536, e);
    crate::fixed::lemma_quot_bound(c * e, 65536, e);
}

/// A direction component scaled by a nonnegative distance moves at most that
/// distance.
pub proof fn lemma_scale_le_t(d: int, t: int)
    requires
        -65536 <= d <= 65536,
        0 <= t,
    ensures
        fp_abs_s(d * t) <= 65536 * t,
        fp_abs_s(fp_mul_s(d, t)) <= t,
{
    assert(fp_abs_s(d * t) == fp_abs_s(d) * t) by (nonlinear_arith)
        requires
            0 <= t,
    ;
    lemma_mul_inequality(fp_abs_s(d), 65536, t);
    crate::fixed::lemma_quot_bound(d * t, 65536, t);
}

} // verus!
