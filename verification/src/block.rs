//! The closed set of block kinds and their per-kind constant tables.

use crate::vec3::Vec3;
use vstd::prelude::*;

verus! {

/// Material/shape of one voxel; `Aire` is the explicit empty variant.
#[derive(Clone, Copy, Debug, PartialEq, Eq, Structural)]
pub enum BlockType {
    Aire,
    TerracotaNaranja,
    Netherrack,
    BloqueMagma,
    TerracotaNormal,
    TerracotaAmarilla,
    ObsidianaNormal,
    Lava,
    BloqueOro,
    Cofre,
    EscaleraPiedra,
    SlabPiedra,
    CryingObsidian,
}

pub open spec fn ordinal_s(b: BlockType) -> int {
    match b {
        BlockType::Aire => 0,
        BlockType::TerracotaNaranja => 1,
        BlockType::Netherrack => 2,
        BlockType::BloqueMagma => 3,
        BlockType::TerracotaNormal => 4,
        BlockType::TerracotaAmarilla => 5,
        BlockType::ObsidianaNormal => 6,
        BlockType::Lava => 7,
        BlockType::BloqueOro => 8,
        BlockType::Cofre => 9,
        BlockType::EscaleraPiedra => 10,
        BlockType::SlabPiedra => 11,
        BlockType::CryingObsidian => 12,
    }
}

pub open spec fn from_char_s(c: char) -> BlockType {
    match c {
        'n' => BlockType::TerracotaNaranja,
        'i' => BlockType::Netherrack,
        'l' => BlockType::BloqueMagma,
        't' => BlockType::TerracotaNormal,
        'a' => BlockType::TerracotaAmarilla,
        'o' => BlockType::ObsidianaNormal,
        'p' => BlockType::Lava,
        'y' => BlockType::BloqueOro,
        'c' => BlockType::Cofre,
        'e' => BlockType::EscaleraPiedra,
        's' => BlockType::SlabPiedra,
        'k' => BlockType::CryingObsidian,
        _ => BlockType::Aire,
    }
}

pub open spec fn is_solid_s(b: BlockType) -> bool {
    b != BlockType::Aire
}

pub open spec fn emits_light_s(b: BlockType) -> bool {
    b == BlockType::BloqueMagma || b == BlockType::Lava
}

/// Fallback color of each block kind, in fixed-point channels.
pub open spec fn color_s(b: BlockType) -> Vec3 {
    match b {
        BlockType::Aire => Vec3 { x: 0, y: 0, z: 0 },
        BlockType::TerracotaNaranja => Vec3 { x: 52429, y: 26214, z: 6554 },
        BlockType::Netherrack => Vec3 { x: 26214, y: 13107, z: 13107 },
        BlockType::BloqueMagma => Vec3 { x: 58982, y: 19661, z: 6554 },
        BlockType::TerracotaNormal => Vec3 { x: 39322, y: 26214, z: 19661 },
        BlockType::TerracotaAmarilla => Vec3 { x: 58982, y: 52429, z: 13107 },
        BlockType::ObsidianaNormal => Vec3 { x: 6554, y: 6554, z: 13107 },
        BlockType::Lava => Vec3 { x: 65536, y: 32768, z: 0 },
        BlockType::BloqueOro => Vec3 { x: 65536, y: 52429, z: 0 },
        BlockType::Cofre => Vec3 { x: 32768, y: 19661, z: 13107 },
        BlockType::EscaleraPiedra => Vec3 { x: 32768, y: 32768, z: 32768 },
        BlockType::SlabPiedra => Vec3 { x: 39322, y: 39322, z: 39322 },
        BlockType::CryingObsidian => Vec3 { x: 19661, y: 6554, z: 26214 },
    }
}

impl BlockType {
    /// Position of this kind in the texture table.
    pub fn ordinal(self) -> (r: usize)
        ensures
            r == ordinal_s(self),
            r < 13,
    {
        match self {
            BlockType::Aire => 0,
            BlockType::TerracotaNaranja => 1,
            BlockType::Netherrack => 2,
            BlockType::BloqueMagma => 3,
            BlockType::TerracotaNormal => 4,
            BlockType::TerracotaAmarilla => 5,
            BlockType::ObsidianaNormal => 6,
            BlockType::Lava => 7,
            BlockType::BloqueOro => 8,
            BlockType::Cofre => 9,
            BlockType::EscaleraPiedra => 10,
            BlockType::SlabPiedra => 11,
            BlockType::CryingObsidian => 12,
        }
    }

    /// The block kind a layer-file character denotes; anything unknown (and
    /// the blank) is empty space.
    pub fn from_char(c: char) -> (r: BlockType)
        ensures
            r == from_char_s(c),
    {
        match c {
            'n' => BlockType::TerracotaNaranja,
            'i' => BlockType::Netherrack,
            'l' => BlockType::BloqueMagma,
            't' => BlockType::TerracotaNormal,
            'a' => BlockType::TerracotaAmarilla,
            'o' => BlockType::ObsidianaNormal,
            'p' => BlockType::Lava,
            'y' => BlockType::BloqueOro,
            'c' => BlockType::Cofre,
            'e' => BlockType::EscaleraPiedra,
            's' => BlockType::SlabPiedra,
            'k' => BlockType::CryingObsidian,
            _ => BlockType::Aire,
        }
    }

    pub fn get_color(self) -> (r: Vec3)
        ensures
            r == color_s(self),
            crate::vec3::bounded_s(r, 65536),
            0 <= r.x && 0 <= r.y && 0 <= r.z,
    {
        match self {
            BlockType::Aire => Vec3 { x: 0, y: 0, z: 0 },
            BlockType::TerracotaNaranja => Vec3 { x: 52429, y: 26214, z: 6554 },
            BlockType::Netherrack => Vec3 { x: 26214, y: 13107, z: 13107 },
            BlockType::BloqueMagma => Vec3 { x: 58982, y: 19661, z: 6554 },
            BlockType::TerracotaNormal => Vec3 { x: 39322, y: 26214, z: 19661 },
            BlockType::TerracotaAmarilla => Vec3 { x: 58982, y: 52429, z: 13107 },
            BlockType::ObsidianaNormal => Vec3 { x: 6554, y: 6554, z: 13107 },
            BlockType::Lava => Vec3 { x: 65536, y: 32768, z: 0 },
            BlockType::BloqueOro => Vec3 { x: 65536, y: 52429, z: 0 },
            BlockType::Cofre => Vec3 { x: 32768, y: 19661, z: 13107 },
            BlockType::EscaleraPiedra => Vec3 { x: 32768, y: 32768, z: 32768 },
            BlockType::SlabPiedra => Vec3 { x: 39322, y: 39322, z: 39322 },
            BlockType::CryingObsidian => Vec3 { x: 19661, y: 6554, z: 26214 },
        }
    }

    /// True for every kind but the empty one.
    pub fn is_solid(self) -> (r: bool)
        ensures
            r == is_solid_s(self),
    {
        !matches!(self, BlockType::Aire)
    }

    pub fn emits_light(self) -> (r: bool)
        ensures
            r == emits_light_s(self),
    {
        matches!(self, BlockType::BloqueMagma | BlockType::Lava)
    }

    pub fn is_slab(self) -> (r: bool)
        ensures
            r == (self == BlockType::SlabPiedra),
    {
        matches!(self, BlockType::SlabPiedra)
    }

    pub fn is_stairs(self) -> (r: bool)
        ensures
            r == (self == BlockType::EscaleraPiedra),
    {
        matches!(self, BlockType::EscaleraPiedra)
    }
}

} // verus!
