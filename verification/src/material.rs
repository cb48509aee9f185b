//! Per-kind constant material records for the shading pipeline.

use crate::block::BlockType;
use crate::vec3::Vec3;
use vstd::prelude::*;

verus! {

/// Constant shading properties of one block kind. Scalars are fixed-point;
/// `emissive_strength` may exceed one unit (glowing blocks).
#[derive(Clone, Copy, Debug, PartialEq, Eq, Structural)]
pub struct MaterialProperties {
    pub albedo: Vec3,
    pub metallic: i64,
    pub roughness: i64,
    pub reflectance: i64,
    pub emissive_strength: i64,
    pub specular_color: Vec3,
}

/// Channel and factor ranges every material record satisfies.
pub open spec fn wf_material_s(m: MaterialProperties) -> bool {
    &&& 0 <= m.albedo.x <= 65536
    &&& 0 <= m.albedo.y <= 65536
    &&& 0 <= m.albedo.z <= 65536
    &&& 0 <= m.metallic <= 65536
    &&& 0 <= m.roughness <= 65536
    &&& 0 <= m.reflectance <= 65536
    &&& 0 <= m.emissive_strength <= 131072
    &&& 0 <= m.specular_color.x <= 65536
    &&& 0 <= m.specular_color.y <= 65536
    &&& 0 <= m.specular_color.z <= 65536
}

/// The constant material table, one record per block kind.
#[verifier::opaque]
pub open spec fn material_s(block: BlockType) -> MaterialProperties {
    match block {
        BlockType::BloqueOro => MaterialProperties {
            albedo: Vec3 { x: 65536, y: 50201, z: 22020 },
            metallic: 58982,
            roughness: 7864,
            reflectance: 52429,
            emissive_strength: 0,
            specular_color: Vec3 { x: 65536, y: 55706, z: 29491 },
        },
        BlockType::ObsidianaNormal => MaterialProperties {
            albedo: Vec3 { x: 9830, y: 7864, z: 7864 },
            metallic: 0,
            roughness: 1966,
            reflectance: 62259,
            emissive_strength: 0,
            specular_color: Vec3 { x: 58982, y: 58982, z: 62259 },
        },
        BlockType::CryingObsidian => MaterialProperties {
            albedo: Vec3 { x: 19661, y: 3277, z: 29491 },
            metallic: 0,
            roughness: 7864,
            reflectance: 36045,
            emissive_strength: 5243,
            specular_color: Vec3 { x: 39322, y: 13107, z: 52429 },
        },
        BlockType::Lava => MaterialProperties {
            albedo: Vec3 { x: 58982, y: 26214, z: 6554 },
            metallic: 0,
            roughness: 22938,
            reflectance: 16384,
            emissive_strength: 98304,
            specular_color: Vec3 { x: 65536, y: 39322, z: 13107 },
        },
        BlockType::BloqueMagma => MaterialProperties {
            albedo: Vec3 { x: 32768, y: 13107, z: 6554 },
            metallic: 0,
            roughness: 18350,
            reflectance: 18350,
            emissive_strength: 52429,
            specular_color: Vec3 { x: 45875, y: 19661, z: 9830 },
        },
        _ => MaterialProperties {
            albedo: Vec3 { x: 52429, y: 52429, z: 52429 },
            metallic: 0,
            roughness: 58982,
            reflectance: 2621,
            emissive_strength: 0,
            specular_color: Vec3 { x: 2621, y: 2621, z: 2621 },
        },
    }
}

impl MaterialProperties {
    pub fn new(
        albedo: Vec3,
        metallic: i64,
        roughness: i64,
        reflectance: i64,
        emissive_strength: i64,
        specular_color: Vec3,
    ) -> (r: MaterialProperties)
        ensures
            r == (MaterialProperties {
                albedo,
                metallic,
                roughness,
                reflectance,
                emissive_strength,
                specular_color,
            }),
    {
        MaterialProperties {
            albedo,
            metallic,
            roughness,
            reflectance,
            emissive_strength,
            specular_color,
        }
    }
}

/// Look up the constant material record of a block kind.
pub fn get_material(block: BlockType) -> (r: MaterialProperties)
    ensures
        r == material_s(block),
        wf_material_s(r),
{
    proof {
        reveal(material_s);
    }
    match block {
        BlockType::BloqueOro => MaterialProperties::new(
            Vec3::new(65536, 50201, 22020),
            58982,
            7864,
            52429,
            0,
            Vec3::new(65536, 55706, 29491),
        ),
        BlockType::ObsidianaNormal => MaterialProperties::new(
            Vec3::new(9830, 7864, 7864),
            0,
            1966,
            62259,
            0,
            Vec3::new(58982, 58982, 62259),
        ),
        BlockType::CryingObsidian => MaterialProperties::new(
            Vec3::new(19661, 3277, 29491),
            0,
            7864,
            36045,
            5243,
            Vec3::new(39322, 13107, 52429),
        ),
        BlockType::Lava => MaterialProperties::new(
            Vec3::new(58982, 26214, 6554),
            0,
            22938,
            16384,
            98304,
            Vec3::new(65536, 39322, 13107),
        ),
        BlockType::BloqueMagma => MaterialProperties::new(
            Vec3::new(32768, 13107, 6554),
            0,
            18350,
            18350,
            52429,
            Vec3::new(45875, 19661, 9830),
        ),
        _ => MaterialProperties::new(
            Vec3::new(52429, 52429, 52429),
            0,
            58982,
            2621,
            0,
            Vec3::new(2621, 2621, 2621),
        ),
    }
}

} // verus!
