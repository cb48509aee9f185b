//! Texture-coordinate resolution for a hit point on a block face, with
//! distinct mapping rules per shape and per face axis.

use crate::block::BlockType;
use crate::fixed::{fp_clamp01, fp_clamp_s, FP_HALF, FP_ONE};
use crate::vec3::{bounded_s, Vec3};
use crate::world::VoxelWorld;
use vstd::prelude::*;

verus! {

pub open spec fn clamp01_s(v: int) -> int {
    fp_clamp_s(v, 0, 65536)
}

/// Face mapping for an X-dominant normal on a full cube.
pub open spec fn face_x_s(nx: int, ly: int, lz: int) -> (int, int) {
    let u = if nx > 0 { 65536 - lz } else { lz };
    (clamp01_s(u), clamp01_s(65536 - ly))
}

/// Face mapping for a Y-dominant normal on a full cube.
pub open spec fn face_y_s(ny: int, lx: int, lz: int) -> (int, int) {
    let v = if ny > 0 { 65536 - lz } else { lz };
    (clamp01_s(lx), clamp01_s(v))
}

/// Face mapping for a Z-dominant normal on a full cube.
pub open spec fn face_z_s(nz: int, lx: int, ly: int) -> (int, int) {
    let u = if nz < 0 { 65536 - lx } else { lx };
    (clamp01_s(u), clamp01_s(65536 - ly))
}

/// The texture coordinates for a hit at local point `(lx, ly, lz)` of a block
/// of kind `block` on the face selected by `n`. Slabs rescale their side
/// faces to the existing lower half; stairs split their top and side faces
/// between base tread and raised step.
pub open spec fn uv_s(block: BlockType, lx: int, ly: int, lz: int, n: Vec3) -> (int, int) {
    let nx = n.x as int;
    let ny = n.y as int;
    let nz = n.z as int;
    let anx = if nx >= 0 { nx } else { -nx };
    let any = if ny >= 0 { ny } else { -ny };
    match block {
        BlockType::SlabPiedra => {
            if any > 32768 {
                face_y_s(ny, lx, lz)
            } else if anx > 32768 {
                let u = if nx > 0 { 65536 - lz } else { lz };
                (clamp01_s(u), clamp01_s(65536 - 2 * ly))
            } else {
                let u = if nz < 0 { 65536 - lx } else { lx };
                (clamp01_s(u), clamp01_s(65536 - 2 * ly))
            }
        },
        BlockType::EscaleraPiedra => {
            if ny > 32768 {
                if lz >= 32768 {
                    (clamp01_s(lx), clamp01_s(2 * lz - 65536))
                } else {
                    (clamp01_s(lx), clamp01_s(2 * lz))
                }
            } else if anx > 32768 {
                if lz >= 32768 && ly >= 32768 {
                    let u0 = clamp01_s(2 * lz - 65536);
                    let v = clamp01_s(65536 - (2 * ly - 65536));
                    let u = if nx > 0 { 65536 - u0 } else { u0 };
                    (u, v)
                } else {
                    let u = if nx > 0 { 65536 - lz } else { lz };
                    (clamp01_s(u), clamp01_s(65536 - 2 * ly))
                }
            } else {
                if lz >= 32768 && ly >= 32768 {
                    let u0 = clamp01_s(lx);
                    let v = clamp01_s(65536 - (2 * ly - 65536));
                    let u = if nz < 0 { 65536 - u0 } else { u0 };
                    (u, v)
                } else {
                    let u = if nz < 0 { 65536 - lx } else { lx };
                    (clamp01_s(u), clamp01_s(65536 - ly))
                }
            }
        },
        _ => {
            if anx > 32768 {
                face_x_s(nx, ly, lz)
            } else if any > 32768 {
                face_y_s(ny, lx, lz)
            } else {
                face_z_s(nz, lx, ly)
            }
        },
    }
}

impl VoxelWorld {
    /// Compute the texture coordinates, both in `[0, FP_ONE]`, for a hit at
    /// `hit_point` on the face of voxel `(block_x, block_y, block_z)` whose
    /// outward normal is `normal`.
    pub fn calculate_uv(
        &self,
        hit_point: &Vec3,
        normal: &Vec3,
        block_x: i64,
        block_y: i64,
        block_z: i64,
    ) -> (r: (i64, i64))
        requires
            self.wf_s(),
            -0x1_0000_0000 <= block_x <= 0x1_0000_0000,
            -0x1_0000_0000 <= block_y <= 0x1_0000_0000,
            -0x1_0000_0000 <= block_z <= 0x1_0000_0000,
            bounded_s(*hit_point, 0x1000_0000_0000_0000),
            bounded_s(*normal, 0x1000_0000_0000_0000),
        ensures
            r.0 == uv_s(
                self.block_at_s(block_x as int, block_y as int, block_z as int),
                hit_point.x - block_x * 65536,
                hit_point.y - block_y * 65536,
                hit_point.z - block_z * 65536,
                *normal,
            ).0,
            r.1 == uv_s(
                self.block_at_s(block_x as int, block_y as int, block_z as int),
                hit_point.x - block_x * 65536,
                hit_point.y - block_y * 65536,
                hit_point.z - block_z * 65536,
                *normal,
            ).1,
            0 <= r.0 <= 65536,
            0 <= r.1 <= 65536,
    {
        let block_type = self.get_block(block_x, block_y, block_z);
        let lx: i64 = hit_point.x - block_x * FP_ONE;
        let ly: i64 = hit_point.y - block_y * FP_ONE;
        let lz: i64 = hit_point.z - block_z * FP_ONE;
        let nx: i64 = normal.x;
        let ny: i64 = normal.y;
        let nz: i64 = normal.z;
        let anx: i64 = if nx >= 0 {
            nx
        } else {
            -nx
        };
        let any: i64 = if ny >= 0 {
            ny
        } else {
            -ny
        };
        match block_type {
            BlockType::SlabPiedra => {
                if any > FP_HALF {
                    face_y(ny, lx, lz)
                } else if anx > FP_HALF {
                    let u: i64 = if nx > 0 {
                        FP_ONE - lz
                    } else {
                        lz
                    };
                    (fp_clamp01(u), fp_clamp01(FP_ONE - 2 * ly))
                } else {
                    let u: i64 = if nz < 0 {
                        FP_ONE - lx
                    } else {
                        lx
                    };
                    (fp_clamp01(u), fp_clamp01(FP_ONE - 2 * ly))
                }
            },
            BlockType::EscaleraPiedra => {
                if ny > FP_HALF {
                    if lz >= FP_HALF {
                        (fp_clamp01(lx), fp_clamp01(2 * lz - FP_ONE))
                    } else {
                        (fp_clamp01(lx), fp_clamp01(2 * lz))
                    }
                } else if anx > FP_HALF {
                    if lz >= FP_HALF && ly >= FP_HALF {
                        let u0: i64 = fp_clamp01(2 * lz - FP_ONE);
                        let v: i64 = fp_clamp01(FP_ONE - (2 * ly - FP_ONE));
                        let u: i64 = if nx > 0 {
                            FP_ONE - u0
                        } else {
                            u0
                        };
                        (u, v)
                    } else {
                        let u: i64 = if nx > 0 {
                            FP_ONE - lz
                        } else {
                            lz
                        };
                        (fp_clamp01(u), fp_clamp01(FP_ONE - 2 * ly))
                    }
                } else {
                    if lz >= FP_HALF && ly >= FP_HALF {
                        let u0: i64 = fp_clamp01(lx);
                        let v: i64 = fp_clamp01(FP_ONE - (2 * ly - FP_ONE));
                        let u: i64 = if nz < 0 {
                            FP_ONE - u0
                        } else {
                            u0
                        };
                        (u, v)
                    } else {
                        let u: i64 = if nz < 0 {
                            FP_ONE - lx
                        } else {
                            lx
                        };
                        (fp_clamp01(u), fp_clamp01(FP_ONE - ly))
                    }
                }
            },
            _ => {
                if anx > FP_HALF {
                    face_x(nx, ly, lz)
                } else if any > FP_HALF {
                    face_y(ny, lx, lz)
                } else {
                    face_z(nz, lx, ly)
                }
            },
        }
    }
}

fn face_x(nx: i64, ly: i64, lz: i64) -> (r: (i64, i64))
    requires
        -0x2000_0000_0000_0000 <= ly <= 0x2000_0000_0000_0000,
        -0x2000_0000_0000_0000 <= lz <= 0x2000_0000_0000_0000,
    ensures
        r.0 == face_x_s(nx as int, ly as int, lz as int).0,
        r.1 == face_x_s(nx as int, ly as int, lz as int).1,
        0 <= r.0 <= 65536,
        0 <= r.1 <= 65536,
{
    let u: i64 = if nx > 0 {
        FP_ONE - lz
    } else {
        lz
    };
    (fp_clamp01(u), fp_clamp01(FP_ONE - ly))
}

fn face_y(ny: i64, lx: i64, lz: i64) -> (r: (i64, i64))
    requires
        -0x2000_0000_0000_0000 <= lx <= 0x2000_0000_0000_0000,
        -0x2000_0000_0000_0000 <= lz <= 0x2000_0000_0000_0000,
    ensures
        r.0 == face_y_s(ny as int, lx as int, lz as int).0,
        r.1 == face_y_s(ny as int, lx as int, lz as int).1,
        0 <= r.0 <= 65536,
        0 <= r.1 <= 65536,
{
    let v: i64 = if ny > 0 {
        FP_ONE - lz
    } else {
        lz
    };
    (fp_clamp01(lx), fp_clamp01(v))
}

fn face_z(nz: i64, lx: i64, ly: i64) -> (r: (i64, i64))
    requires
        -0x2000_0000_0000_0000 <= lx <= 0x2000_0000_0000_0000,
        -0x2000_0000_0000_0000 <= ly <= 0x2000_0000_0000_0000,
    ensures
        r.0 == face_z_s(nz as int, lx as int, ly as int).0,
        r.1 == face_z_s(nz as int, lx as int, ly as int).1,
        0 <= r.0 <= 65536,
        0 <= r.1 <= 65536,
{
    let u: i64 = if nz < 0 {
        FP_ONE - lx
    } else {
        lx
    };
    (fp_clamp01(u), fp_clamp01(FP_ONE - ly))
}

} // verus!
