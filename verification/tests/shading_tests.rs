use voxel_diorama::block::BlockType;
use voxel_diorama::lighting::{cast_ray, emissive_scan, fresnel_simple, pack_color, reflect, shade};
use voxel_diorama::material::get_material;
use voxel_diorama::texture::TextureManager;
use voxel_diorama::vec3::Vec3;
use voxel_diorama::world::VoxelWorld;

const ONE: i64 = 65536;

fn single_block_world(block: BlockType) -> VoxelWorld {
    VoxelWorld {
        blocks: vec![block],
        width: 1,
        height: 1,
        depth: 1,
    }
}

#[test]
fn reflection_mirrors_about_the_normal() {
    let d = Vec3::new(ONE, -ONE, 0);
    let n = Vec3::new(0, ONE, 0);
    let r = reflect(&d, &n);
    assert_eq!(r, Vec3::new(ONE, ONE, 0));
    // A grazing direction along the surface is unchanged.
    let g = Vec3::new(ONE, 0, 0);
    assert_eq!(reflect(&g, &n), g);
}

#[test]
fn fresnel_is_strongest_at_grazing_angles() {
    let m = get_material(BlockType::ObsidianaNormal);
    let n = Vec3::new(0, ONE, 0);
    let head_on = fresnel_simple(&Vec3::new(0, ONE, 0), &n, &m);
    let grazing = fresnel_simple(&Vec3::new(ONE, 0, 0), &n, &m);
    assert!(head_on < grazing);
    // Obsidian is non-metallic, so head-on reflectance is the dielectric
    // base 0.04 exactly, and a fully grazing view reflects everything.
    assert_eq!(head_on, 2621);
    assert_eq!(grazing, ONE);
}

#[test]
fn pack_color_clamps_and_fixes_alpha() {
    assert_eq!(pack_color(&Vec3::new(0, 0, 0)), 0xFF00_0000);
    assert_eq!(pack_color(&Vec3::new(ONE, ONE, ONE)), 0xFFFF_FFFF);
    // Oversaturated and negative channels clamp before scaling.
    assert_eq!(pack_color(&Vec3::new(10 * ONE, -ONE, ONE)), 0xFFFF_00FF);
    // A mid gray: 32768 * 255 / 65536 = 127 in every channel.
    assert_eq!(
        pack_color(&Vec3::new(ONE / 2, ONE / 2, ONE / 2)),
        0xFF7F_7F7F
    );
}

#[test]
fn shade_channels_stay_in_unit_range_for_varied_materials() {
    let tm = TextureManager::with_fallback_colors();
    let light = Vec3::new(ONE / 2, 4 * ONE, ONE / 2);
    let origin = Vec3::new(ONE / 2, 5 * ONE / 2, ONE / 2);
    let dir = Vec3::new(0, -ONE, 0);
    let blocks = [
        BlockType::TerracotaNormal, // near-zero reflectance
        BlockType::ObsidianaNormal, // near-full reflectance
        BlockType::BloqueOro,       // metallic
        BlockType::Lava,            // emissive
    ];
    for b in blocks {
        let w = single_block_world(b);
        for is_day in [true, false] {
            let c = shade(origin, dir, 0, 3, &w, &tm, &light, is_day);
            assert!(0 <= c.x && c.x <= ONE, "x out of range for {:?}", b);
            assert!(0 <= c.y && c.y <= ONE, "y out of range for {:?}", b);
            assert!(0 <= c.z && c.z <= ONE, "z out of range for {:?}", b);
        }
    }
}

#[test]
fn shade_at_maximum_recursion_depth_stays_in_range() {
    let tm = TextureManager::with_fallback_colors();
    let w = single_block_world(BlockType::ObsidianaNormal);
    let light = Vec3::new(ONE / 2, 4 * ONE, ONE / 2);
    let c = shade(
        Vec3::new(ONE / 2, 5 * ONE / 2, ONE / 2),
        Vec3::new(0, -ONE, 0),
        3,
        3,
        &w,
        &tm,
        &light,
        true,
    );
    assert!(0 <= c.x && c.x <= ONE);
    assert!(0 <= c.y && c.y <= ONE);
    assert!(0 <= c.z && c.z <= ONE);
}

#[test]
fn cast_ray_packs_an_opaque_color() {
    let tm = TextureManager::with_fallback_colors();
    let w = single_block_world(BlockType::TerracotaAmarilla);
    let origin = Vec3::new(ONE / 2, 5 * ONE / 2, ONE / 2);
    let dir = Vec3::new(0, -ONE, 0);
    let light = Vec3::new(ONE / 2, 4 * ONE, ONE / 2);
    let c = cast_ray(&origin, &dir, &w, &tm, &light, true);
    assert_eq!(c >> 24, 0xFF);
    // Deterministic: the same ray gives the same color.
    assert_eq!(c, cast_ray(&origin, &dir, &w, &tm, &light, true));
}

#[test]
fn emissive_block_shades_brighter_than_a_dark_matte_one() {
    // One full-cube block seen top-down, light directly above: the diffuse
    // term is near its maximum, and the emissive block adds its self-glow
    // and ambient bonus.
    let tm = TextureManager::with_fallback_colors();
    let origin = Vec3::new(ONE / 2, 5 * ONE / 2, ONE / 2);
    let dir = Vec3::new(0, -ONE, 0);
    let light = Vec3::new(ONE / 2, 4 * ONE, ONE / 2);
    let lava = shade(
        origin,
        dir,
        0,
        3,
        &single_block_world(BlockType::Lava),
        &tm,
        &light,
        true,
    );
    let rock = shade(
        origin,
        dir,
        0,
        3,
        &single_block_world(BlockType::Netherrack),
        &tm,
        &light,
        true,
    );
    let lava_sum: i64 = lava.x + lava.y + lava.z;
    let rock_sum: i64 = rock.x + rock.y + rock.z;
    assert!(lava_sum > rock_sum, "lava {} rock {}", lava_sum, rock_sum);
    // The red channel of the lava view saturates from the self-glow.
    assert!(lava.x > 3 * ONE / 4);
}

#[test]
fn neighborhood_glow_follows_the_inverse_square_formula() {
    let lava = single_block_world(BlockType::Lava);
    // Standing inside the glowing block: the capped maximum.
    assert_eq!(
        emissive_scan(&lava, &Vec3::new(ONE / 2, ONE / 2, ONE / 2)),
        ONE
    );
    // Three units from the block center along one axis: a single
    // contribution of 1.5 / (distance squared + epsilon).
    let three_away = Vec3::new(7 * ONE / 2, ONE / 2, ONE / 2);
    let d2: i64 = (3 * ONE) * (3 * ONE) / ONE + 7;
    assert_eq!(emissive_scan(&lava, &three_away), 6442450944i64 / d2);
    // Beyond the scan radius: nothing.
    assert_eq!(
        emissive_scan(&lava, &Vec3::new(21 * ONE / 2, ONE / 2, ONE / 2)),
        0
    );
}
