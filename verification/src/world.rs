//! The dense voxel grid, its bounds-total accessor, the shape-aware
//! collision predicate, and the fallback face-normal estimate.

use crate::block::{from_char_s, BlockType};
use crate::fixed::{fp_clamp, fp_clamp_s, FP_EPS, FP_HALF, FP_ONE};
use crate::vec3::{bounded_s, Vec3};
use vstd::arithmetic::div_mod::{
    lemma_fundamental_div_mod, lemma_fundamental_div_mod_converse, lemma_multiply_divide_lt,
};
use vstd::prelude::*;

verus! {

/// A dense `width x height x depth` grid of blocks in row-major layer order.
pub struct VoxelWorld {
    pub blocks: Vec<BlockType>,
    pub width: usize,
    pub height: usize,
    pub depth: usize,
}

/// Local coordinate of a fixed-point world coordinate inside voxel `c`,
/// clamped into the tolerance-expanded unit interval.
pub open spec fn local_clamped_s(p: int, c: int) -> int {
    fp_clamp_s(p - c * 65536, -66, 65536int + 66)
}

/// Whether a clamped local point lies in the occupied sub-volume of a block
/// shape: full cube, lower-half slab, or L-shaped stair with its raised step
/// on the +Z side.
pub open spec fn shape_occupies_s(block: BlockType, lx: int, ly: int, lz: int) -> bool {
    match block {
        BlockType::SlabPiedra => ly <= 32768 + 66,
        BlockType::EscaleraPiedra => ly <= 32768 + 66 || (ly <= 65536 + 66 && lz >= 32768
            - 66),
        _ => {
            &&& -66 <= lx <= 65536 + 66
            &&& -66 <= ly <= 65536 + 66
            &&& -66 <= lz <= 65536 + 66
        },
    }
}

impl VoxelWorld {
    pub open spec fn wf_s(self) -> bool {
        &&& self.blocks@.len() == self.width * self.height * self.depth
        &&& self.width <= 1024
        &&& self.height <= 1024
        &&& self.depth <= 1024
    }

    pub open spec fn in_range_s(self, x: int, y: int, z: int) -> bool {
        &&& 0 <= x < self.width
        &&& 0 <= y < self.height
        &&& 0 <= z < self.depth
    }

    /// Flat index of an in-range coordinate.
    pub open spec fn index_s(self, x: int, y: int, z: int) -> int {
        y * (self.width * self.depth) + z * self.width + x
    }

    /// The block stored at a coordinate; everything out of range reads as
    /// empty space.
    pub open spec fn block_at_s(self, x: int, y: int, z: int) -> BlockType {
        if self.in_range_s(x, y, z) {
            self.blocks@[self.index_s(x, y, z)]
        } else {
            BlockType::Aire
        }
    }

    /// The shape-aware point-in-block test at voxel `(x, y, z)`.
    pub open spec fn occupies_s(self, x: int, y: int, z: int, p: Vec3) -> bool {
        shape_occupies_s(
            self.block_at_s(x, y, z),
            local_clamped_s(p.x as int, x),
            local_clamped_s(p.y as int, y),
            local_clamped_s(p.z as int, z),
        )
    }

    pub fn new() -> (r: VoxelWorld)
        ensures
            r.wf_s(),
            r.width == 0 && r.height == 0 && r.depth == 0,
            r.blocks@.len() == 0,
    {
        VoxelWorld { blocks: Vec::new(), width: 0, height: 0, depth: 0 }
    }

    /// Bounds-checked accessor; never fails, out-of-range is empty.
    pub fn get_block(&self, x: i64, y: i64, z: i64) -> (r: BlockType)
        requires
            self.wf_s(),
        ensures
            r == self.block_at_s(x as int, y as int, z as int),
    {
        if x < 0 || y < 0 || z < 0 || x >= self.width as i64 || y >= self.height as i64 || z
            >= self.depth as i64 {
            return BlockType::Aire;
        }
        proof {
            let wi = self.width as int;
            let hi = self.height as int;
            let di = self.depth as int;
            assert(wi * di <= 0x100000 && 0 <= (y as int) * (wi * di) && (y as int) * (wi * di)
                + (z as int) * wi + (x as int) < 0x40000000 && 0 <= (z as int) * wi)
                by (nonlinear_arith)
                requires
                    0 <= (x as int) && (x as int) < wi,
                    0 <= (y as int) && (y as int) < hi,
                    0 <= (z as int) && (z as int) < di,
                    wi <= 1024,
                    hi <= 1024,
                    di <= 1024,
            ;
            lemma_flat_index_in_range(wi, hi, di, x as int, y as int, z as int);
        }
        let idx: usize = (y as usize) * (self.width * self.depth) + (z as usize) * self.width + (
        x as usize);
        self.blocks[idx]
    }

    /// Decide whether `point` lies inside the occupied sub-volume of the
    /// block at voxel `(x, y, z)`, honoring slab and stair shapes.
    pub fn check_special_collision(&self, x: i64, y: i64, z: i64, point: &Vec3) -> (r: bool)
        requires
            self.wf_s(),
            -0x1_0000_0000 <= x <= 0x1_0000_0000,
            -0x1_0000_0000 <= y <= 0x1_0000_0000,
            -0x1_0000_0000 <= z <= 0x1_0000_0000,
            bounded_s(*point, 0x1000_0000_0000_0000),
        ensures
            r == self.occupies_s(x as int, y as int, z as int, *point),
    {
        let block = self.get_block(x, y, z);
        let lx: i64 = fp_clamp(point.x - x * FP_ONE, -FP_EPS, FP_ONE + FP_EPS);
        let ly: i64 = fp_clamp(point.y - y * FP_ONE, -FP_EPS, FP_ONE + FP_EPS);
        let lz: i64 = fp_clamp(point.z - z * FP_ONE, -FP_EPS, FP_ONE + FP_EPS);
        match block {
            BlockType::SlabPiedra => ly <= FP_HALF_PLUS_EPS,
            BlockType::EscaleraPiedra => {
                if ly <= FP_HALF_PLUS_EPS {
                    true
                } else if ly <= FP_ONE + FP_EPS && lz >= FP_HALF_MINUS_EPS {
                    true
                } else {
                    false
                }
            },
            _ => {
                lx >= -FP_EPS && lx <= FP_ONE + FP_EPS && ly >= -FP_EPS && ly <= FP_ONE + FP_EPS
                    && lz >= -FP_EPS && lz <= FP_ONE + FP_EPS
            },
        }
    }

    /// Face normal estimated from which face of the voxel's center the point
    /// is nearest to (largest-magnitude offset axis wins).
    pub fn calculate_normal(&self, x: i64, y: i64, z: i64, hit_point: &Vec3) -> (r: Vec3)
        requires
            -0x1_0000_0000 <= x <= 0x1_0000_0000,
            -0x1_0000_0000 <= y <= 0x1_0000_0000,
            -0x1_0000_0000 <= z <= 0x1_0000_0000,
            bounded_s(*hit_point, 0x1000_0000_0000_0000),
        ensures
            r == calc_normal_s(x as int, y as int, z as int, *hit_point),
            axis_unit_s(r),
    {
        let tx: i64 = hit_point.x - (x * FP_ONE + FP_HALF);
        let ty: i64 = hit_point.y - (y * FP_ONE + FP_HALF);
        let tz: i64 = hit_point.z - (z * FP_ONE + FP_HALF);
        let ax: i64 = if tx >= 0 {
            tx
        } else {
            -tx
        };
        let ay: i64 = if ty >= 0 {
            ty
        } else {
            -ty
        };
        let az: i64 = if tz >= 0 {
            tz
        } else {
            -tz
        };
        if ax > ay && ax > az {
            Vec3 { x: sgn_unit(tx), y: 0, z: 0 }
        } else if ay > az {
            Vec3 { x: 0, y: sgn_unit(ty), z: 0 }
        } else {
            Vec3 { x: 0, y: 0, z: sgn_unit(tz) }
        }
    }
}

/// Half a unit plus the boundary tolerance.
pub const FP_HALF_PLUS_EPS: i64 = 32834;

/// Half a unit minus the boundary tolerance.
pub const FP_HALF_MINUS_EPS: i64 = 32702;

pub open spec fn sgn_unit_s(v: int) -> int {
    if v >= 0 {
        65536
    } else {
        -65536
    }
}

fn sgn_unit(v: i64) -> (r: i64)
    ensures
        r == sgn_unit_s(v as int),
{
    if v >= 0 {
        FP_ONE
    } else {
        -FP_ONE
    }
}

/// Exactly one component is plus or minus one unit, the others are zero.
pub open spec fn axis_unit_s(n: Vec3) -> bool {
    ||| (n.x == 65536 || n.x == -65536) && n.y == 0 && n.z == 0
    ||| (n.y == 65536 || n.y == -65536) && n.x == 0 && n.z == 0
    ||| (n.z == 65536 || n.z == -65536) && n.x == 0 && n.y == 0
}

/// The nearest-face normal at a point inside voxel `(x, y, z)`.
pub open spec fn calc_normal_s(x: int, y: int, z: int, p: Vec3) -> Vec3 {
    let tx = p.x - (x * 65536 + 32768);
    let ty = p.y - (y * 65536 + 32768);
    let tz = p.z - (z * 65536 + 32768);
    let ax = if tx >= 0 { tx } else { -tx };
    let ay = if ty >= 0 { ty } else { -ty };
    let az = if tz >= 0 { tz } else { -tz };
    if ax > ay && ax > az {
        Vec3 { x: sgn_unit_s(tx) as i64, y: 0, z: 0 }
    } else if ay > az {
        Vec3 { x: 0, y: sgn_unit_s(ty) as i64, z: 0 }
    } else {
        Vec3 { x: 0, y: 0, z: sgn_unit_s(tz) as i64 }
    }
}

/// In-range coordinates give a flat index inside the block array.
pub proof fn lemma_flat_index_in_range(w: int, h: int, d: int, x: int, y: int, z: int)
    requires
        0 <= x < w,
        0 <= y < h,
        0 <= z < d,
    ensures
        0 <= y * (w * d) + z * w + x < w * h * d,
{
    assert(0 <= y * (w * d) + z * w + x < w * h * d) by (nonlinear_arith)
        requires
            0 <= x < w,
            0 <= y < h,
            0 <= z < d,
    ;
}

/// The block a stack of layer grids stores at a coordinate: layer `y`, line
/// `z`, column `x`; anything past the provided text is empty space.
pub open spec fn layer_block_s(layers: Seq<Vec<Vec<char>>>, x: int, y: int, z: int) -> BlockType {
    if 0 <= y < layers.len() {
        let lines = layers[y]@;
        if 0 <= z < lines.len() {
            let line = lines[z]@;
            if 0 <= x < line.len() {
                from_char_s(line[x])
            } else {
                BlockType::Aire
            }
        } else {
            BlockType::Aire
        }
    } else {
        BlockType::Aire
    }
}

/// `layer_block_s` read through a flat index in the grid's storage order.
pub open spec fn flat_layer_block_s(
    layers: Seq<Vec<Vec<char>>>,
    w: int,
    d: int,
    j: int,
) -> BlockType {
    let y = j / (w * d);
    let rem = j % (w * d);
    let z = rem / w;
    let x = rem % w;
    layer_block_s(layers, x, y, z)
}

/// Decoding the flat index of an in-range coordinate gives the coordinate
/// back.
pub proof fn lemma_flat_index_decode(w: int, d: int, x: int, y: int, z: int)
    requires
        0 <= x < w,
        0 <= z < d,
        0 <= y,
    ensures
        (y * (w * d) + z * w + x) / (w * d) == y,
        (y * (w * d) + z * w + x) % (w * d) == z * w + x,
        (z * w + x) / w == z,
        (z * w + x) % w == x,
{
    assert(0 <= z * w + x < w * d) by (nonlinear_arith)
        requires
            0 <= x < w,
            0 <= z < d,
    ;
    lemma_fundamental_div_mod_converse(y * (w * d) + z * w + x, w * d, y, z * w + x);
    lemma_fundamental_div_mod_converse(z * w + x, w, z, x);
}

impl VoxelWorld {
    /// Build the grid from layer text already split into characters: one
    /// outer entry per layer (bottom to top), one line per depth row, one
    /// character per column. Missing or short entries read as empty space;
    /// extra text beyond the fixed footprint is ignored.
    pub fn load_from_layer_data(&mut self, layer_data: &Vec<Vec<Vec<char>>>)
        requires
            layer_data@.len() <= 1024,
        ensures
            layer_data@.len() == 0 ==> *final(self) == *old(self),
            layer_data@.len() > 0 ==> {
                &&& final(self).wf_s()
                &&& final(self).width == 15
                &&& final(self).depth == 19
                &&& final(self).height == layer_data@.len()
                &&& forall|x: int, y: int, z: int|
                    final(self).in_range_s(x, y, z) ==> final(self).block_at_s(x, y, z)
                        == layer_block_s(layer_data@, x, y, z)
            },
    {
        if layer_data.len() == 0 {
            return ;
        }
        let w: usize = 15;
        let d: usize = 19;
        let h: usize = layer_data.len();
        let total: usize = w * h * d;
        let mut blocks: Vec<BlockType> = Vec::new();
        let mut i: usize = 0;
        while i < total
            invariant
                w == 15,
                d == 19,
                h == layer_data@.len(),
                total == w * h * d,
                h <= 1024,
                i <= total,
                blocks@.len() == i,
                forall|j: int|
                    0 <= j < i ==> blocks@[j] == flat_layer_block_s(
                        layer_data@,
                        w as int,
                        d as int,
                        j,
                    ),
            decreases total - i,
        {
            let wd: usize = w * d;
            let y: usize = i / wd;
            let rem: usize = i % wd;
            let z: usize = rem / w;
            let x: usize = rem % w;
            proof {
                assert((wd as int) * (h as int) == (w as int) * (h as int) * (d as int));
                lemma_multiply_divide_lt(i as int, wd as int, h as int);
                lemma_multiply_divide_lt(rem as int, w as int, d as int);
            }
            let value: BlockType = if z < layer_data[y].len() {
                let line: &Vec<char> = &layer_data[y][z];
                if x < line.len() {
                    BlockType::from_char(line[x])
                } else {
                    BlockType::Aire
                }
            } else {
                BlockType::Aire
            };
            blocks.push(value);
            i = i + 1;
        }
        self.blocks = blocks;
        self.width = w;
        self.height = h;
        self.depth = d;
        proof {
            assert forall|x: int, y: int, z: int| self.in_range_s(x, y, z) implies self
                .block_at_s(x, y, z) == layer_block_s(layer_data@, x, y, z) by {
                lemma_flat_index_decode(15, 19, x, y, z);
                lemma_flat_index_in_range(15, self.height as int, 19, x, y, z);
            }
        }
    }
}

/// A slab never occupies the upper half of its cell: a sample point whose
/// local height is above one half (plus tolerance) misses it.
pub proof fn lemma_slab_misses_above(w: VoxelWorld, x: int, y: int, z: int, p: Vec3)
    requires
        w.block_at_s(x, y, z) == BlockType::SlabPiedra,
        p.y - y * 65536 > 32768 + 66,
    ensures
        !w.occupies_s(x, y, z, p),
{
}

/// A slab always occupies the lower half of its cell: a sample point whose
/// local height is at most one half (plus tolerance) hits it.
pub proof fn lemma_slab_hits_below(w: VoxelWorld, x: int, y: int, z: int, p: Vec3)
    requires
        w.block_at_s(x, y, z) == BlockType::SlabPiedra,
        p.y - y * 65536 <= 32768 + 66,
    ensures
        w.occupies_s(x, y, z, p),
{
}

/// The notch of a stair is empty: above half height (plus tolerance) and in
/// front of the raised step (local depth below one half minus tolerance),
/// the stair is missed.
pub proof fn lemma_stair_misses_notch(w: VoxelWorld, x: int, y: int, z: int, p: Vec3)
    requires
        w.block_at_s(x, y, z) == BlockType::EscaleraPiedra,
        p.y - y * 65536 > 32768 + 66,
        p.z - z * 65536 < 32768 - 66,
    ensures
        !w.occupies_s(x, y, z, p),
{
}

/// The raised step of a stair is solid: any sample point with local depth at
/// least one half (minus tolerance) hits the stair.
pub proof fn lemma_stair_hits_step(w: VoxelWorld, x: int, y: int, z: int, p: Vec3)
    requires
        w.block_at_s(x, y, z) == BlockType::EscaleraPiedra,
        p.z - z * 65536 >= 32768 - 66,
    ensures
        w.occupies_s(x, y, z, p),
{
}

/// The base of a stair is solid: any sample point with local height at most
/// one half (plus tolerance) hits the stair.
pub proof fn lemma_stair_hits_base(w: VoxelWorld, x: int, y: int, z: int, p: Vec3)
    requires
        w.block_at_s(x, y, z) == BlockType::EscaleraPiedra,
        p.y - y * 65536 <= 32768 + 66,
    ensures
        w.occupies_s(x, y, z, p),
{
}

} // verus!
