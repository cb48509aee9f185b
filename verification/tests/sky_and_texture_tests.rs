use voxel_diorama::block::BlockType;
use voxel_diorama::sky::Skybox;
use voxel_diorama::texture::{fallback_color_bytes, Texture, TextureManager};
use voxel_diorama::vec3::Vec3;

const ONE: i64 = 65536;

#[test]
fn sky_channels_stay_in_range_on_both_branches() {
    let sky = Skybox::new(Vec3::new(ONE, 2 * ONE, ONE / 2));
    let mut state: u64 = 42;
    let mut next = move || {
        state = state
            .wrapping_mul(6364136223846793005)
            .wrapping_add(1442695040888963407);
        ((state >> 20) % (2 * ONE as u64 + 1)) as i64 - ONE
    };
    for _ in 0..200 {
        let d = Vec3::new(next(), next(), next());
        for is_day in [true, false] {
            let c = sky.sample(&d, is_day);
            assert!(0 <= c.x && c.x <= ONE);
            assert!(0 <= c.y && c.y <= ONE);
            assert!(0 <= c.z && c.z <= ONE);
        }
    }
}

#[test]
fn sky_is_deterministic_for_a_fixed_direction() {
    let sky = Skybox::new(Vec3::new(ONE, 2 * ONE, ONE / 2));
    let d = Vec3::new(12345, -54321, 23456);
    assert_eq!(sky.sample(&d, false), sky.sample(&d, false));
    assert_eq!(sky.sample(&d, true), sky.sample(&d, true));
}

#[test]
fn looking_up_by_day_shows_more_zenith_than_horizon_blue() {
    let sky = Skybox::new(Vec3::new(0, ONE, 0));
    let up = sky.sample(&Vec3::new(0, ONE, 0), true);
    let level = sky.sample(&Vec3::new(ONE, 0, 0), true);
    // The day zenith is bluer than the day horizon.
    assert!(up.z > level.z);
}

#[test]
fn night_sky_is_darker_than_day_sky() {
    let sky = Skybox::new(Vec3::new(0, ONE, 0));
    let d = Vec3::new(ONE / 2, ONE / 3, -ONE / 4);
    let day = sky.sample(&d, true);
    let night = sky.sample(&d, false);
    assert!(day.x + day.y + day.z > night.x + night.y + night.z);
}

#[test]
fn solid_texture_samples_its_color_everywhere() {
    let t = Texture::new(16, 16, (10, 20, 30));
    assert_eq!(t.sample(0, 0), (10, 20, 30));
    assert_eq!(t.sample(ONE, ONE), (10, 20, 30));
    assert_eq!(t.sample(ONE / 3, 2 * ONE / 3), (10, 20, 30));
}

#[test]
fn texture_sampling_is_nearest_neighbor() {
    // A 2 x 1 texture: left pixel red, right pixel green.
    let t = Texture::from_pixels(2, 1, vec![(255, 0, 0), (0, 255, 0)]);
    assert_eq!(t.sample(0, 0), (255, 0, 0));
    assert_eq!(t.sample(ONE / 4, 0), (255, 0, 0));
    // From the second half of the span, the right pixel wins.
    assert_eq!(t.sample(ONE / 2, 0), (0, 255, 0));
    assert_eq!(t.sample(ONE, 0), (0, 255, 0));
}

#[test]
fn fallback_table_uses_each_block_color() {
    let tm = TextureManager::with_fallback_colors();
    // The fixed-point channels 52429, 26214 and 6554 scale to bytes
    // 204, 101 and 25.
    assert_eq!(fallback_color_bytes(BlockType::TerracotaNaranja), (204, 101, 25));
    let tex = tm.get_texture(BlockType::TerracotaNaranja);
    assert_eq!(tex.sample(ONE / 2, ONE / 2), (204, 101, 25));
    let lava = tm.get_texture(BlockType::Lava);
    assert_eq!(lava.sample(0, 0), (255, 127, 0));
}
