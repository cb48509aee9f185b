//! The shading pipeline: diffuse/specular/fresnel lighting, an emissive
//! neighborhood scan, bounded recursive reflection, and color packing.

use crate::block::{emits_light_s, BlockType};
use crate::fixed::{
    fp_abs_s, fp_clamp01, fp_clamp_s, fp_mul, fp_mul_s, fp_pow, fp_pow_s, fp_floor_units,
    lemma_fp_mul_bound, lemma_fp_mul_unit, FP_HALF, FP_ONE,
};
use crate::material::{get_material, material_s, wf_material_s, MaterialProperties};
use crate::raycast::{hit_ok_s, RayHit};
use crate::sky::{lemma_unit_dot_products, lemma_unit_scale_range, valid_color_s, Skybox};
use crate::texture::{channel_to_byte, channel_byte_s, TextureManager};
use crate::vec3::{bounded_s, normalized_s, vadd_s, vdot_s, vneg_s, vscale_s, vsub_s, Vec3};
use crate::world::{axis_unit_s, VoxelWorld};
use vstd::arithmetic::div_mod::{
    lemma_div_is_ordered, lemma_div_is_ordered_by_denominator, lemma_div_multiples_vanish,
};
use vstd::prelude::*;

verus! {

/// One unit times a scalar is that scalar exactly, for either sign.
pub proof fn lemma_unit_mul_exact(c: int)
    ensures
        fp_mul_s(65536, c) == c,
        fp_mul_s(c, 65536) == c,
        fp_mul_s(-65536, c) == -c,
        fp_mul_s(0, c) == 0,
        fp_mul_s(c, 0) == 0,
{
    if c >= 0 {
        lemma_div_multiples_vanish(c, 65536);
        assert(65536 * c == c * 65536);
    } else {
        lemma_div_multiples_vanish(-c, 65536);
        assert(65536 * (-c) == -(65536 * c));
    }
}

/// The dot product of an axis unit with a unit-bounded vector is itself
/// unit-bounded.
pub proof fn lemma_axis_dot(n: Vec3, v: Vec3)
    requires
        axis_unit_s(n),
        bounded_s(v, 65536),
    ensures
        -65536 <= vdot_s(n, v) <= 65536,
{
    lemma_unit_mul_exact(v.x as int);
    lemma_unit_mul_exact(v.y as int);
    lemma_unit_mul_exact(v.z as int);
}

/// Mirror reflection of a direction about a surface normal.
#[verifier::opaque]
pub open spec fn reflect_s(d: Vec3, n: Vec3) -> Vec3 {
    vsub_s(d, vscale_s(n, 2 * vdot_s(d, n)))
}

pub fn reflect(dir: &Vec3, normal: &Vec3) -> (r: Vec3)
    requires
        bounded_s(*dir, 65536),
        bounded_s(*normal, 65536),
    ensures
        r == reflect_s(*dir, *normal),
        bounded_s(r, 7 * 65536int),
{
    proof {
        reveal(reflect_s);
        lemma_unit_dot_products(*dir, *normal);
        lemma_fp_mul_bound(dir.x as int, normal.x as int, 65536, 65536);
        lemma_fp_mul_bound(dir.y as int, normal.y as int, 65536, 65536);
        lemma_fp_mul_bound(dir.z as int, normal.z as int, 65536, 65536);
    }
    let dt: i64 = dir.dot(normal);
    let k: i64 = 2 * dt;
    proof {
        lemma_fp_mul_bound(normal.x as int, k as int, 65536, 6 * 65536int);
        lemma_fp_mul_bound(normal.y as int, k as int, 65536, 6 * 65536int);
        lemma_fp_mul_bound(normal.z as int, k as int, 65536, 6 * 65536int);
    }
    dir.minus(&normal.scaled(k))
}

/// Linear blend from the dielectric base toward a channel by the metallic
/// factor.
pub open spec fn lerp_base_s(c: int, m: int) -> int {
    2621 + fp_mul_s(c - 2621, m)
}

proof fn lemma_lerp_base(c: int, m: int)
    requires
        0 <= c <= 65536,
        0 <= m <= 65536,
    ensures
        0 <= lerp_base_s(c, m) <= 65536,
        fp_abs_s((c - 2621) * m) <= 65536 * 65536,
{
    let d = c - 2621;
    if d >= 0 {
        lemma_fp_mul_unit(d, m);
    } else {
        lemma_fp_mul_unit(-d, m);
        assert((-d) * m == -(d * m)) by (nonlinear_arith);
    }
}

/// Schlick-style view-angle reflectance: the averaged base reflectance
/// blended toward the specular tint by the metallic factor, raised toward
/// one by the fifth power of the view-angle complement.
#[verifier::opaque]
pub open spec fn fresnel_s(view: Vec3, n: Vec3, m: MaterialProperties) -> int {
    let vdn = fp_clamp_s(vdot_s(view, n), 0, 65536);
    let f0 = (lerp_base_s(m.specular_color.x as int, m.metallic as int) + lerp_base_s(
        m.specular_color.y as int,
        m.metallic as int,
    ) + lerp_base_s(m.specular_color.z as int, m.metallic as int)) / 3;
    f0 + fp_mul_s(65536 - f0, fp_pow_s(65536 - vdn, 5))
}

pub fn fresnel_simple(view_dir: &Vec3, normal: &Vec3, material: &MaterialProperties) -> (r: i64)
    requires
        bounded_s(*view_dir, 65536),
        bounded_s(*normal, 65536),
        wf_material_s(*material),
    ensures
        r == fresnel_s(*view_dir, *normal, *material),
        0 <= r <= 65536,
{
    proof {
        reveal(fresnel_s);
        lemma_unit_dot_products(*view_dir, *normal);
        lemma_lerp_base(material.specular_color.x as int, material.metallic as int);
        lemma_lerp_base(material.specular_color.y as int, material.metallic as int);
        lemma_lerp_base(material.specular_color.z as int, material.metallic as int);
    }
    let v_dot_n: i64 = fp_clamp01(view_dir.dot(normal));
    let f0x: i64 = 2621 + fp_mul(material.specular_color.x - 2621, material.metallic);
    let f0y: i64 = 2621 + fp_mul(material.specular_color.y - 2621, material.metallic);
    let f0z: i64 = 2621 + fp_mul(material.specular_color.z - 2621, material.metallic);
    let f0: i64 = (((f0x + f0y + f0z) as u64) / 3) as i64;
    proof {
        lemma_div_is_ordered((f0x + f0y + f0z) as int, 3 * 65536int, 3);
        crate::fixed::lemma_fp_pow_unit(65536 - v_dot_n as int, 5);
        lemma_fp_mul_unit(65536 - f0 as int, fp_pow_s(65536 - v_dot_n as int, 5));
    }
    f0 + fp_mul(FP_ONE - f0, fp_pow(FP_ONE - v_dot_n, 5))
}

/// Inverse-square glow falloff of an emissive block center at offset
/// `(dx, dy, dz)` from the shaded point, with a small epsilon against
/// singularities.
pub open spec fn glow_falloff_s(dx: int, dy: int, dz: int) -> int {
    6442450944int / ((dx * dx) / 65536 + (dy * dy) / 65536 + (dz * dz) / 65536 + 7)
}

fn glow_falloff(dx: i64, dy: i64, dz: i64) -> (r: i64)
    requires
        -0x4_0000_0000_0000 <= dx <= 0x4_0000_0000_0000,
        -0x4_0000_0000_0000 <= dy <= 0x4_0000_0000_0000,
        -0x4_0000_0000_0000 <= dz <= 0x4_0000_0000_0000,
    ensures
        r == glow_falloff_s(dx as int, dy as int, dz as int),
        0 <= r <= 0x4000_0000,
{
    let ax: u64 = if dx >= 0 {
        dx as u64
    } else {
        (-dx) as u64
    };
    let ay: u64 = if dy >= 0 {
        dy as u64
    } else {
        (-dy) as u64
    };
    let az: u64 = if dz >= 0 {
        dz as u64
    } else {
        (-dz) as u64
    };
    proof {
        vstd::arithmetic::mul::lemma_mul_upper_bound(
            ax as int,
            0x4_0000_0000_0000,
            ax as int,
            0x4_0000_0000_0000,
        );
        vstd::arithmetic::mul::lemma_mul_upper_bound(
            ay as int,
            0x4_0000_0000_0000,
            ay as int,
            0x4_0000_0000_0000,
        );
        vstd::arithmetic::mul::lemma_mul_upper_bound(
            az as int,
            0x4_0000_0000_0000,
            az as int,
            0x4_0000_0000_0000,
        );
        assert((ax as int) * (ax as int) == (dx as int) * (dx as int) && (ay as int) * (
        ay as int) == (dy as int) * (dy as int) && (az as int) * (az as int) == (dz as int) * (
        dz as int)) by (nonlinear_arith)
            requires
                ax as int == fp_abs_s(dx as int),
                ay as int == fp_abs_s(dy as int),
                az as int == fp_abs_s(dz as int),
        ;
    }
    let xx: u128 = (ax as u128) * (ax as u128);
    let yy: u128 = (ay as u128) * (ay as u128);
    let zz: u128 = (az as u128) * (az as u128);
    let d2: u128 = xx / 65536 + yy / 65536 + zz / 65536 + 7;
    proof {
        lemma_div_is_ordered_by_denominator(6442450944, 7, d2 as int);
    }
    let q: u128 = 6442450944u128 / d2;
    q as i64
}

/// The glow contribution of scan slot `j` (decoded to an offset in the
/// `9 x 9 x 9` neighborhood) around base voxel `(bx0, by0, bz0)`: the
/// falloff of that voxel's center if it is in range and emissive, else zero.
pub open spec fn glow_contrib_s(
    w: VoxelWorld,
    p: Vec3,
    bx0: int,
    by0: int,
    bz0: int,
    j: int,
) -> int {
    let oy = j / 81 - 4;
    let oz = (j % 81) / 9 - 4;
    let ox = j % 9 - 4;
    let bx = bx0 + ox;
    let by = by0 + oy;
    let bz = bz0 + oz;
    if w.in_range_s(bx, by, bz) && emits_light_s(w.block_at_s(bx, by, bz)) {
        glow_falloff_s(
            bx * 65536 + 32768 - p.x,
            by * 65536 + 32768 - p.y,
            bz * 65536 + 32768 - p.z,
        )
    } else {
        0
    }
}

/// Sum of the first `j` scan slots' contributions.
pub open spec fn glow_sum_s(w: VoxelWorld, p: Vec3, bx0: int, by0: int, bz0: int, j: int) -> int
    decreases j,
{
    if j <= 0 {
        0
    } else {
        glow_sum_s(w, p, bx0, by0, bz0, j - 1) + glow_contrib_s(w, p, bx0, by0, bz0, j - 1)
    }
}

/// Total neighborhood glow at a point, capped at one unit.
pub open spec fn glow_total_s(w: VoxelWorld, p: Vec3) -> int {
    let s = glow_sum_s(
        w,
        p,
        (p.x as int) / 65536,
        (p.y as int) / 65536,
        (p.z as int) / 65536,
        729,
    );
    if s > 65536 {
        65536
    } else {
        s
    }
}

proof fn lemma_glow_contrib_range(w: VoxelWorld, p: Vec3, bx0: int, by0: int, bz0: int, j: int)
    ensures
        0 <= glow_contrib_s(w, p, bx0, by0, bz0, j) <= 0x4000_0000,
{
    let oy = j / 81 - 4;
    let oz = (j % 81) / 9 - 4;
    let ox = j % 9 - 4;
    let bx = bx0 + ox;
    let by = by0 + oy;
    let bz = bz0 + oz;
    if w.in_range_s(bx, by, bz) && emits_light_s(w.block_at_s(bx, by, bz)) {
        let d2 = ((bx * 65536 + 32768 - p.x) * (bx * 65536 + 32768 - p.x)) / 65536 + ((by * 65536
            + 32768 - p.y) * (by * 65536 + 32768 - p.y)) / 65536 + ((bz * 65536 + 32768 - p.z) * (
        bz * 65536 + 32768 - p.z)) / 65536 + 7;
        let ex = bx * 65536 + 32768 - p.x;
        let ey = by * 65536 + 32768 - p.y;
        let ez = bz * 65536 + 32768 - p.z;
        assert(ex * ex >= 0 && ey * ey >= 0 && ez * ez >= 0) by (nonlinear_arith);
        vstd::arithmetic::div_mod::lemma_div_pos_is_pos(ex * ex, 65536);
        vstd::arithmetic::div_mod::lemma_div_pos_is_pos(ey * ey, 65536);
        vstd::arithmetic::div_mod::lemma_div_pos_is_pos(ez * ez, 65536);
        lemma_div_is_ordered_by_denominator(6442450944, 7, d2);
    }
}

/// Scan the `9 x 9 x 9` voxel neighborhood of a shaded point for emissive
/// blocks and accumulate their inverse-square glow, capped at one unit.
pub fn emissive_scan(world: &VoxelWorld, hit_point: &Vec3) -> (r: i64)
    requires
        world.wf_s(),
        bounded_s(*hit_point, 0x400_0000_0000),
    ensures
        r == glow_total_s(*world, *hit_point),
        0 <= r <= 65536,
{
    let bx0: i64 = fp_floor_units(hit_point.x);
    let by0: i64 = fp_floor_units(hit_point.y);
    let bz0: i64 = fp_floor_units(hit_point.z);
    let mut acc: i64 = 0;
    let mut j: usize = 0;
    while j < 729
        invariant
            world.wf_s(),
            bounded_s(*hit_point, 0x400_0000_0000),
            bx0 == (hit_point.x as int) / 65536,
            by0 == (hit_point.y as int) / 65536,
            bz0 == (hit_point.z as int) / 65536,
            -0x4000001 <= bx0 <= 0x4000000,
            -0x4000001 <= by0 <= 0x4000000,
            -0x4000001 <= bz0 <= 0x4000000,
            j <= 729,
            acc == glow_sum_s(*world, *hit_point, bx0 as int, by0 as int, bz0 as int, j as int),
            0 <= acc <= (j as int) * 0x4000_0000,
        decreases 729 - j,
    {
        let oy: i64 = (j / 81) as i64 - 4;
        let oz: i64 = ((j % 81) / 9) as i64 - 4;
        let ox: i64 = (j % 9) as i64 - 4;
        let bx: i64 = bx0 + ox;
        let by: i64 = by0 + oy;
        let bz: i64 = bz0 + oz;
        proof {
            lemma_glow_contrib_range(
                *world,
                *hit_point,
                bx0 as int,
                by0 as int,
                bz0 as int,
                j as int,
            );
        }
        if bx >= 0 && by >= 0 && bz >= 0 && bx < world.width as i64 && by < world.height as i64
            && bz < world.depth as i64 {
            let b = world.get_block(bx, by, bz);
            if b.emits_light() {
                let dx: i64 = bx * FP_ONE + FP_HALF - hit_point.x;
                let dy: i64 = by * FP_ONE + FP_HALF - hit_point.y;
                let dz: i64 = bz * FP_ONE + FP_HALF - hit_point.z;
                let c: i64 = glow_falloff(dx, dy, dz);
                acc = acc + c;
            }
        }
        j = j + 1;
    }
    if acc > FP_ONE {
        FP_ONE
    } else {
        acc
    }
}

/// The position bound shade accepts at each recursion depth; each reflection
/// bounce can move the ray origin at most a fixed factor further out.
pub open spec fn shade_pos_limit_s(depth: int) -> int {
    if depth <= 0 {
        0x2_0000_0000
    } else if depth == 1 {
        0x8_0000_0000
    } else if depth == 2 {
        0x20_0000_0000
    } else {
        0x80_0000_0000
    }
}

/// Pack a color into an opaque ARGB word: alpha fixed at full, each channel
/// clamped to the unit interval and scaled to a byte.
pub open spec fn pack_color_s(c: Vec3) -> int {
    0xFF000000 + channel_byte_s(fp_clamp_s(c.x as int, 0, 65536)) * 0x10000 + channel_byte_s(
        fp_clamp_s(c.y as int, 0, 65536),
    ) * 0x100 + channel_byte_s(fp_clamp_s(c.z as int, 0, 65536))
}

pub fn pack_color(col: &Vec3) -> (r: u32)
    ensures
        r == pack_color_s(*col),
        0xFF00_0000 <= r <= 0xFFFF_FFFF,
{
    let rc: u8 = channel_to_byte(fp_clamp01(col.x));
    let gc: u8 = channel_to_byte(fp_clamp01(col.y));
    let bc: u8 = channel_to_byte(fp_clamp01(col.z));
    0xFF00_0000u32 + (rc as u32) * 0x10000 + (gc as u32) * 0x100 + (bc as u32)
}

/// One texture byte as a fixed-point unit channel.
pub fn byte_to_channel(b: u8) -> (r: i64)
    ensures
        r == (b as int) * 65536 / 255,
        0 <= r <= 65536,
{
    proof {
        vstd::arithmetic::mul::lemma_mul_inequality(b as int, 255, 65536);
        vstd::arithmetic::div_mod::lemma_multiply_divide_le((b as int) * 65536, 255, 65536);
    }
    (((b as u64) * 65536) / 255) as i64
}

/// The direct lighting of a hit, mirrored exactly: diffuse term weighted by
/// the light angle, plus the specular highlight.
#[verifier::opaque]
pub open spec fn direct_light_s(
    h: RayHit,
    d: Vec3,
    view: Vec3,
    hp: Vec3,
    base: Vec3,
    m: MaterialProperties,
    fres: int,
    light: Vec3,
) -> Vec3 {
    let sample_pt = vsub_s(hp, vscale_s(d, 1));
    let ldir = normalized_s(vsub_s(light, sample_pt));
    let half = normalized_s(vadd_s(ldir, view));
    let ndl0 = vdot_s(h.normal, ldir);
    let ndl = if ndl0 < 0 { 0int } else { ndl0 };
    let ndh0 = vdot_s(h.normal, half);
    let ndh = if ndh0 < 0 { 0int } else { ndh0 };
    let sh = 65536 - m.roughness;
    let shf = if sh < 655 { 655int } else { sh };
    let spec_term = fp_pow_s(ndh, (shf / 256) as nat);
    let diffuse = vscale_s(vscale_s(base, 65536 - m.metallic), ndl);
    let spec_k = fp_mul_s(fp_mul_s(spec_term, m.reflectance as int), fres);
    vadd_s(vscale_s(diffuse, 58982), vscale_s(m.specular_color, spec_k))
}

/// The direct lighting of a hit: diffuse term weighted by the light angle,
/// plus the specular highlight.
#[verifier::rlimit(100)]
fn direct_light(
    h: &RayHit,
    dir: &Vec3,
    view_dir: &Vec3,
    hit_point: &Vec3,
    base_color: &Vec3,
    material: &MaterialProperties,
    fresnel: i64,
    light_pos: &Vec3,
) -> (r: Vec3)
    requires
        axis_unit_s(h.normal),
        bounded_s(*dir, 65536),
        bounded_s(*view_dir, 65536),
        bounded_s(*hit_point, 0x400_0000_0000),
        bounded_s(*light_pos, 0x2_0000_0000),
        valid_color_s(*base_color),
        wf_material_s(*material),
        0 <= fresnel <= 65536,
    ensures
        r == direct_light_s(
            *h,
            *dir,
            *view_dir,
            *hit_point,
            *base_color,
            *material,
            fresnel as int,
            *light_pos,
        ),
        0 <= r.x <= 2 * 65536,
        0 <= r.y <= 2 * 65536,
        0 <= r.z <= 2 * 65536,
{
    proof {
        reveal(direct_light_s);
    }
    let sample_point: Vec3 = hit_point.minus(&dir.scaled(1));
    let light_dir: Vec3 = light_pos.minus(&sample_point).normalized();
    let half: Vec3 = light_dir.plus(view_dir).normalized();
    let normal: Vec3 = h.normal;
    proof {
        lemma_unit_dot_products(normal, light_dir);
        lemma_unit_dot_products(normal, half);
        lemma_axis_dot(normal, light_dir);
        lemma_axis_dot(normal, half);
    }
    let nl0: i64 = normal.dot(&light_dir);
    let n_dot_l: i64 = if nl0 < 0 {
        0
    } else {
        nl0
    };
    let nh0: i64 = normal.dot(&half);
    let n_dot_h: i64 = if nh0 < 0 {
        0
    } else {
        nh0
    };
    let sh: i64 = FP_ONE - material.roughness;
    let sh_floor: i64 = if sh < 655 {
        655
    } else {
        sh
    };
    let shin_exp: u64 = (sh_floor as u64) / 256;
    let spec_term: i64 = fp_pow(n_dot_h, shin_exp);
    proof {
        lemma_fp_mul_unit(base_color.x as int, 65536 - material.metallic as int);
        lemma_fp_mul_unit(base_color.y as int, 65536 - material.metallic as int);
        lemma_fp_mul_unit(base_color.z as int, 65536 - material.metallic as int);
    }
    let diffuse0: Vec3 = base_color.scaled(FP_ONE - material.metallic);
    proof {
        lemma_fp_mul_unit(diffuse0.x as int, n_dot_l as int);
        lemma_fp_mul_unit(diffuse0.y as int, n_dot_l as int);
        lemma_fp_mul_unit(diffuse0.z as int, n_dot_l as int);
    }
    let diffuse: Vec3 = diffuse0.scaled(n_dot_l);
    proof {
        lemma_fp_mul_unit(spec_term as int, material.reflectance as int);
        lemma_fp_mul_unit(
            fp_mul_s(spec_term as int, material.reflectance as int),
            fresnel as int,
        );
    }
    let spec_k: i64 = fp_mul(fp_mul(spec_term, material.reflectance), fresnel);
    proof {
        lemma_fp_mul_unit(material.specular_color.x as int, spec_k as int);
        lemma_fp_mul_unit(material.specular_color.y as int, spec_k as int);
        lemma_fp_mul_unit(material.specular_color.z as int, spec_k as int);
        lemma_fp_mul_unit(diffuse.x as int, 58982);
        lemma_fp_mul_unit(diffuse.y as int, 58982);
        lemma_fp_mul_unit(diffuse.z as int, 58982);
    }
    let specular: Vec3 = material.specular_color.scaled(spec_k);
    diffuse.scaled(58982).plus(&specular)
}

/// The ambient and emissive terms of a hit, mirrored exactly: ambient-lit
/// base color, the material's own glow, and the night boost for strongly
/// emissive blocks.
#[verifier::opaque]
pub open spec fn ambient_light_s(
    w: VoxelWorld,
    h: RayHit,
    hp: Vec3,
    base: Vec3,
    m: MaterialProperties,
    is_day: bool,
) -> Vec3 {
    let amb = (if is_day { 22938int } else { 5243 }) + glow_total_s(w, hp) + (if emits_light_s(
        h.block,
    ) { 16384int } else { 0 });
    let col = vadd_s(
        vscale_s(vscale_s(base, amb), 39322),
        vscale_s(m.albedo, m.emissive_strength as int),
    );
    if !is_day && m.emissive_strength > 32768 {
        let boost = match h.block {
            BlockType::Lava => 13107int,
            BlockType::BloqueMagma => 9830,
            _ => 6554,
        };
        vadd_s(col, vscale_s(m.albedo, fp_mul_s(m.emissive_strength as int, boost)))
    } else {
        col
    }
}

/// The ambient and emissive terms of a hit: ambient-lit base color (day or
/// night base plus neighborhood glow plus a bonus for an emissive block),
/// the material's own glow, and the night boost for strongly emissive
/// blocks.
#[verifier::rlimit(100)]
fn ambient_light(
    world: &VoxelWorld,
    h: &RayHit,
    hit_point: &Vec3,
    base_color: &Vec3,
    material: &MaterialProperties,
    is_day: bool,
) -> (r: Vec3)
    requires
        world.wf_s(),
        bounded_s(*hit_point, 0x400_0000_0000),
        valid_color_s(*base_color),
        wf_material_s(*material),
    ensures
        r == ambient_light_s(*world, *h, *hit_point, *base_color, *material, is_day),
        0 <= r.x <= 8 * 65536,
        0 <= r.y <= 8 * 65536,
        0 <= r.z <= 8 * 65536,
{
    proof {
        reveal(ambient_light_s);
    }
    let emissive_amount: i64 = emissive_scan(world, hit_point);
    let base_ambient: i64 = if is_day {
        22938
    } else {
        5243
    };
    let ambient: i64 = base_ambient + emissive_amount + (if h.block.emits_light() {
        16384
    } else {
        0
    });
    proof {
        lemma_unit_scale_range(base_color.x as int, ambient as int, 3 * 65536int);
        lemma_unit_scale_range(base_color.y as int, ambient as int, 3 * 65536int);
        lemma_unit_scale_range(base_color.z as int, ambient as int, 3 * 65536int);
    }
    let ambient_col: Vec3 = base_color.scaled(ambient);
    proof {
        lemma_unit_scale_range(39322, ambient_col.x as int, 3 * 65536int);
        lemma_unit_scale_range(39322, ambient_col.y as int, 3 * 65536int);
        lemma_unit_scale_range(39322, ambient_col.z as int, 3 * 65536int);
        lemma_unit_scale_range(
            material.albedo.x as int,
            material.emissive_strength as int,
            3 * 65536int,
        );
        lemma_unit_scale_range(
            material.albedo.y as int,
            material.emissive_strength as int,
            3 * 65536int,
        );
        lemma_unit_scale_range(
            material.albedo.z as int,
            material.emissive_strength as int,
            3 * 65536int,
        );
    }
    let mut color: Vec3 = ambient_col.scaled(39322).plus(
        &material.albedo.scaled(material.emissive_strength),
    );
    if !is_day && material.emissive_strength > 32768 {
        let night_boost: i64 = match h.block {
            BlockType::Lava => 13107,
            BlockType::BloqueMagma => 9830,
            _ => 6554,
        };
        proof {
            lemma_unit_scale_range(
                night_boost as int,
                material.emissive_strength as int,
                3 * 65536int,
            );
        }
        let night_k: i64 = fp_mul(material.emissive_strength, night_boost);
        proof {
            lemma_unit_scale_range(material.albedo.x as int, night_k as int, 3 * 65536int);
            lemma_unit_scale_range(material.albedo.y as int, night_k as int, 3 * 65536int);
            lemma_unit_scale_range(material.albedo.z as int, night_k as int, 3 * 65536int);
        }
        color = color.plus(&material.albedo.scaled(night_k));
    }
    color
}

/// All local illumination of a hit, mirrored exactly: the textured base
/// color under direct light plus the ambient and emissive terms.
#[verifier::opaque]
pub open spec fn shade_surface_s(
    w: VoxelWorld,
    tm: TextureManager,
    h: RayHit,
    d: Vec3,
    view: Vec3,
    hp: Vec3,
    fres: int,
    light: Vec3,
    is_day: bool,
) -> Vec3 {
    let tex = crate::texture::sample_s(
        tm.textures@[crate::block::ordinal_s(h.block)],
        h.uv.0 as int,
        h.uv.1 as int,
    );
    let tex_col = Vec3 {
        x: ((tex.0 as int) * 65536 / 255) as i64,
        y: ((tex.1 as int) * 65536 / 255) as i64,
        z: ((tex.2 as int) * 65536 / 255) as i64,
    };
    let base = crate::vec3::vhadamard_s(tex_col, material_s(h.block).albedo);
    vadd_s(
        direct_light_s(h, d, view, hp, base, material_s(h.block), fres, light),
        ambient_light_s(w, h, hp, base, material_s(h.block), is_day),
    )
}

/// All local (non-recursive) illumination of a hit: the textured base color
/// under direct light plus the ambient and emissive terms.
fn shade_surface(
    world: &VoxelWorld,
    texture_manager: &TextureManager,
    h: &RayHit,
    dir: &Vec3,
    view_dir: &Vec3,
    hit_point: &Vec3,
    fresnel: i64,
    light_pos: &Vec3,
    is_day: bool,
) -> (r: Vec3)
    requires
        world.wf_s(),
        texture_manager.wf_s(),
        axis_unit_s(h.normal),
        bounded_s(*dir, 65536),
        bounded_s(*view_dir, 65536),
        bounded_s(*hit_point, 0x400_0000_0000),
        bounded_s(*light_pos, 0x2_0000_0000),
        0 <= fresnel <= 65536,
    ensures
        r == shade_surface_s(
            *world,
            *texture_manager,
            *h,
            *dir,
            *view_dir,
            *hit_point,
            fresnel as int,
            *light_pos,
            is_day,
        ),
        0 <= r.x <= 0xA_0000,
        0 <= r.y <= 0xA_0000,
        0 <= r.z <= 0xA_0000,
{
    proof {
        reveal(shade_surface_s);
    }
    let tex_rgb: (u8, u8, u8) = texture_manager.get_texture(h.block).sample(h.uv.0, h.uv.1);
    let tex_col: Vec3 = Vec3 {
        x: byte_to_channel(tex_rgb.0),
        y: byte_to_channel(tex_rgb.1),
        z: byte_to_channel(tex_rgb.2),
    };
    let material: MaterialProperties = get_material(h.block);
    proof {
        lemma_fp_mul_unit(tex_col.x as int, material.albedo.x as int);
        lemma_fp_mul_unit(tex_col.y as int, material.albedo.y as int);
        lemma_fp_mul_unit(tex_col.z as int, material.albedo.z as int);
    }
    let base_color: Vec3 = tex_col.hadamard(&material.albedo);
    let lit: Vec3 = direct_light(
        h,
        dir,
        view_dir,
        hit_point,
        &base_color,
        &material,
        fresnel,
        light_pos,
    );
    let amb: Vec3 = ambient_light(world, h, hit_point, &base_color, &material, is_day);
    lit.plus(&amb)
}

/// The whole recursive shading computation, mirrored exactly: the primary
/// traversal's hit (or the fallback's), its surface illumination, one
/// weighted reflection bounce per allowed depth, the final channel clamps;
/// and the sky on a miss.
#[verifier::opaque]
pub open spec fn shade_hit_s(
    h: RayHit,
    origin: Vec3,
    dir: Vec3,
    depth: int,
    max_bounces: int,
    w: VoxelWorld,
    tm: TextureManager,
    light: Vec3,
    is_day: bool,
) -> Vec3
    decreases max_bounces - depth, 0int,
{
    let hp = vadd_s(origin, vscale_s(dir, h.t as int));
    let view = vneg_s(normalized_s(dir));
    let m = material_s(h.block);
    let fres = fresnel_s(view, h.normal, m);
    let col0 = shade_surface_s(w, tm, h, dir, view, hp, fres, light, is_day);
    let col1 = if m.reflectance > 6554 && depth < max_bounces {
        let rdir = normalized_s(reflect_s(dir, h.normal));
        let rorig = vadd_s(hp, vscale_s(h.normal, 66));
        let refl = shade_s(rorig, rdir, depth + 1, max_bounces, w, tm, light, is_day);
        let boost = if m.roughness < 6554 { 78643int } else { 65536 };
        vadd_s(col0, vscale_s(refl, fp_mul_s(fp_mul_s(m.reflectance as int, fres), boost)))
    } else {
        col0
    };
    Vec3 {
        x: fp_clamp_s(col1.x as int, 0, 65536) as i64,
        y: fp_clamp_s(col1.y as int, 0, 65536) as i64,
        z: fp_clamp_s(col1.z as int, 0, 65536) as i64,
    }
}

#[verifier::opaque]
pub open spec fn shade_s(
    origin: Vec3,
    dir: Vec3,
    depth: int,
    max_bounces: int,
    w: VoxelWorld,
    tm: TextureManager,
    light: Vec3,
    is_day: bool,
) -> Vec3
    decreases max_bounces - depth, 1int,
{
    let hit = match crate::raycast::raycast_s(w, origin, dir) {
        Some(h) => Some(h),
        None => crate::raycast::raycast_simple_s(w, origin, dir),
    };
    match hit {
        Some(h) => shade_hit_s(h, origin, dir, depth, max_bounces, w, tm, light, is_day),
        None => crate::sky::sky_sample_s(crate::sky::skybox_of_s(light), dir, is_day),
    }
}

/// Light one reported hit: surface illumination plus one weighted
/// reflection bounce when the material is reflective and depth allows.
#[verifier::rlimit(100)]
#[verifier::spinoff_prover]
fn shade_hit(
    h: RayHit,
    origin: Vec3,
    dir: Vec3,
    depth: usize,
    max_bounces: usize,
    world: &VoxelWorld,
    texture_manager: &TextureManager,
    light_pos: &Vec3,
    is_day: bool,
) -> (r: Vec3)
    requires
        world.wf_s(),
        texture_manager.wf_s(),
        depth <= max_bounces,
        max_bounces <= 3,
        bounded_s(origin, shade_pos_limit_s(depth as int)),
        bounded_s(dir, 65536),
        bounded_s(*light_pos, 0x2_0000_0000),
        0 <= h.t <= 0x2000_0000_0000_0000,
        axis_unit_s(h.normal),
        bounded_s(
            crate::vec3::vadd_s(origin, vscale_s(dir, h.t as int)),
            3 * crate::vec3::vmax_s(origin) + 0x4000_0000,
        ),
    ensures
        r == shade_hit_s(
            h,
            origin,
            dir,
            depth as int,
            max_bounces as int,
            *world,
            *texture_manager,
            *light_pos,
            is_day,
        ),
        valid_color_s(r),
    decreases max_bounces - depth, 0int,
{
    proof {
        reveal(shade_hit_s);
        crate::raycast::lemma_scale_le_t(dir.x as int, h.t as int);
        crate::raycast::lemma_scale_le_t(dir.y as int, h.t as int);
        crate::raycast::lemma_scale_le_t(dir.z as int, h.t as int);
    }
    let hit_point: Vec3 = origin.plus(&dir.scaled(h.t));
    let view_dir: Vec3 = dir.normalized().negated();
    let normal: Vec3 = h.normal;
    let material: MaterialProperties = get_material(h.block);
    let fresnel: i64 = fresnel_simple(&view_dir, &normal, &material);
    let mut color: Vec3 = shade_surface(
        world,
        texture_manager,
        &h,
        &dir,
        &view_dir,
        &hit_point,
        fresnel,
        light_pos,
        is_day,
    );
    if material.reflectance > 6554 && depth < max_bounces {
        let reflect_dir: Vec3 = reflect(&dir, &normal).normalized();
        proof {
            lemma_fp_mul_bound(normal.x as int, 66, 65536, 66);
            lemma_fp_mul_bound(normal.y as int, 66, 65536, 66);
            lemma_fp_mul_bound(normal.z as int, 66, 65536, 66);
        }
        let reflect_origin: Vec3 = hit_point.plus(&normal.scaled(66));
        let reflected: Vec3 = shade(
            reflect_origin,
            reflect_dir,
            depth + 1,
            max_bounces,
            world,
            texture_manager,
            light_pos,
            is_day,
        );
        let refl_boost: i64 = if material.roughness < 6554 {
            78643
        } else {
            65536
        };
        proof {
            lemma_fp_mul_unit(material.reflectance as int, fresnel as int);
            lemma_unit_scale_range(
                fp_mul_s(material.reflectance as int, fresnel as int),
                refl_boost as int,
                78643,
            );
        }
        let refl_k: i64 = fp_mul(fp_mul(material.reflectance, fresnel), refl_boost);
        proof {
            lemma_unit_scale_range(reflected.x as int, refl_k as int, 78643);
            lemma_unit_scale_range(reflected.y as int, refl_k as int, 78643);
            lemma_unit_scale_range(reflected.z as int, refl_k as int, 78643);
        }
        color = color.plus(&reflected.scaled(refl_k));
    }
    Vec3 { x: fp_clamp01(color.x), y: fp_clamp01(color.y), z: fp_clamp01(color.z) }
}

/// Recursive, depth-bounded shading of one ray: traverse (primary, then
/// fallback), light the hit, recurse once per allowed bounce for reflective
/// materials, and fall back to the sky when nothing is hit. Every channel
/// of the result lies in the unit interval.
#[verifier::rlimit(100)]
#[verifier::spinoff_prover]
pub fn shade(
    origin: Vec3,
    dir: Vec3,
    depth: usize,
    max_bounces: usize,
    world: &VoxelWorld,
    texture_manager: &TextureManager,
    light_pos: &Vec3,
    is_day: bool,
) -> (r: Vec3)
    requires
        world.wf_s(),
        texture_manager.wf_s(),
        depth <= max_bounces,
        max_bounces <= 3,
        bounded_s(origin, shade_pos_limit_s(depth as int)),
        bounded_s(dir, 65536),
        bounded_s(*light_pos, 0x2_0000_0000),
    ensures
        r == shade_s(
            origin,
            dir,
            depth as int,
            max_bounces as int,
            *world,
            *texture_manager,
            *light_pos,
            is_day,
        ),
        valid_color_s(r),
    decreases max_bounces - depth, 1int,
{
    proof {
        reveal(shade_s);
    }
    let hit: Option<RayHit> = match world.raycast(&origin, &dir) {
        Some(h) => Some(h),
        None => world.raycast_simple(&origin, &dir),
    };
    proof {
        reveal(hit_ok_s);
    }
    match hit {
        Some(h) => shade_hit(
            h,
            origin,
            dir,
            depth,
            max_bounces,
            world,
            texture_manager,
            light_pos,
            is_day,
        ),
        None => {
            let sky: Skybox = Skybox::new(*light_pos);
            sky.sample(&dir, is_day)
        },
    }
}

/// Render one ray into an opaque packed ARGB color: shade it with three
/// reflection bounces allowed, then clamp and pack every channel.
pub fn cast_ray(
    ray_origin: &Vec3,
    ray_direction: &Vec3,
    world: &VoxelWorld,
    texture_manager: &TextureManager,
    light_pos: &Vec3,
    is_day: bool,
) -> (r: u32)
    requires
        world.wf_s(),
        texture_manager.wf_s(),
        bounded_s(*ray_origin, 0x2_0000_0000),
        bounded_s(*ray_direction, 65536),
        bounded_s(*light_pos, 0x2_0000_0000),
    ensures
        r == pack_color_s(
            shade_s(
                *ray_origin,
                *ray_direction,
                0,
                3,
                *world,
                *texture_manager,
                *light_pos,
                is_day,
            ),
        ),
        0xFF00_0000 <= r <= 0xFFFF_FFFF,
{
    let max_bounces: usize = 3;
    let col: Vec3 = shade(
        *ray_origin,
        *ray_direction,
        0,
        max_bounces,
        world,
        texture_manager,
        light_pos,
        is_day,
    );
    pack_color(&col)
}

} // verus!
