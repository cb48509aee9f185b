use voxel_diorama::block::BlockType;
use voxel_diorama::raycast::ray_aabb_intersect;
use voxel_diorama::vec3::Vec3;
use voxel_diorama::world::VoxelWorld;

const ONE: i64 = 65536;

fn row_world(blocks: Vec<BlockType>) -> VoxelWorld {
    let width: usize = blocks.len();
    VoxelWorld {
        blocks,
        width,
        height: 1,
        depth: 1,
    }
}

#[test]
fn aabb_slab_test_finds_entry_and_exit() {
    let orig = Vec3::new(-ONE, ONE / 2, ONE / 2);
    let dir = Vec3::new(ONE, 0, 0);
    let mn = Vec3::new(0, 0, 0);
    let mx = Vec3::new(2 * ONE, ONE, ONE);
    let (tmin, tmax) = ray_aabb_intersect(&orig, &dir, &mn, &mx).expect("must intersect");
    assert_eq!(tmin, ONE);
    assert_eq!(tmax, 3 * ONE);
}

#[test]
fn aabb_misses_when_aimed_away() {
    // Rising ray that can only reach the box's height range before its
    // width range: the slab intervals never overlap.
    let orig = Vec3::new(-ONE, 5 * ONE, ONE / 2);
    let dir = Vec3::new(ONE, ONE, 0);
    let mn = Vec3::new(0, 0, 0);
    let mx = Vec3::new(2 * ONE, ONE, ONE);
    assert!(ray_aabb_intersect(&orig, &dir, &mn, &mx).is_none());
}

#[test]
fn head_on_hit_reports_outward_normal_and_analytic_distance() {
    // Solid block in the third cell of a 3-cell row; ray starts inside the
    // grid and marches +X.
    let w = row_world(vec![
        BlockType::Aire,
        BlockType::Aire,
        BlockType::TerracotaNormal,
    ]);
    let origin = Vec3::new(ONE / 2, ONE / 2, ONE / 2);
    let dir = Vec3::new(ONE, 0, 0);
    let h = w.raycast(&origin, &dir).expect("must hit");
    assert_eq!((h.vx, h.vy, h.vz), (2, 0, 0));
    assert_eq!(h.block, BlockType::TerracotaNormal);
    // The face plane sits at x = 2, one and a half units from the origin.
    assert_eq!(h.t, 3 * ONE / 2);
    // The normal points back against the ray.
    assert_eq!(h.normal, Vec3::new(-ONE, 0, 0));
}

#[test]
fn ray_from_outside_the_grid_falls_back_to_the_marcher() {
    let w = row_world(vec![BlockType::Netherrack]);
    // Two units above the block, aimed straight down at its top face.
    let origin = Vec3::new(ONE / 2, 5 * ONE / 2, ONE / 2);
    let dir = Vec3::new(0, -ONE, 0);
    let h = w
        .raycast(&origin, &dir)
        .or_else(|| w.raycast_simple(&origin, &dir))
        .expect("must hit");
    assert_eq!((h.vx, h.vy, h.vz), (0, 0, 0));
    assert_eq!(h.normal, Vec3::new(0, ONE, 0));
    // Analytic entry is one and a half units; the marcher lands within one
    // step of it.
    assert!((h.t - 3 * ONE / 2).abs() <= 1966 * 2, "t = {}", h.t);
}

#[test]
fn origin_inside_solid_voxel_still_hits_the_next_block() {
    let w = row_world(vec![
        BlockType::TerracotaNormal,
        BlockType::Netherrack,
        BlockType::Netherrack,
    ]);
    let origin = Vec3::new(ONE / 2, ONE / 2, ONE / 2);
    let dir = Vec3::new(ONE, 0, 0);
    let h = w.raycast(&origin, &dir).expect("must hit");
    // No self-hit at distance zero on the origin voxel.
    assert!(h.t > 0);
    assert_eq!((h.vx, h.vy, h.vz), (1, 0, 0));
    assert_eq!(h.block, BlockType::Netherrack);
}

#[test]
fn slab_passes_rays_above_and_stops_rays_below() {
    let w = row_world(vec![BlockType::SlabPiedra]);
    let dir = Vec3::new(ONE, 0, 0);
    // Through the empty upper half: no hit on the slab.
    let high = Vec3::new(-ONE / 2, 3 * ONE / 4, ONE / 2);
    assert!(w.raycast(&high, &dir).is_none());
    assert!(w.raycast_simple(&high, &dir).is_none());
    // Through the solid lower half: a hit.
    let low = Vec3::new(-ONE / 2, ONE / 4, ONE / 2);
    let h = w
        .raycast(&low, &dir)
        .or_else(|| w.raycast_simple(&low, &dir))
        .expect("must hit");
    assert_eq!(h.block, BlockType::SlabPiedra);
}

#[test]
fn stair_notch_passes_and_step_stops() {
    let w = row_world(vec![BlockType::EscaleraPiedra]);
    let dir = Vec3::new(ONE, 0, 0);
    // High and in front of the raised step: the notch, no hit.
    let notch = Vec3::new(-ONE / 2, 3 * ONE / 4, ONE / 4);
    assert!(w.raycast(&notch, &dir).is_none());
    assert!(w.raycast_simple(&notch, &dir).is_none());
    // High but behind the half-depth line: the raised step, a hit.
    let step = Vec3::new(-ONE / 2, 3 * ONE / 4, 3 * ONE / 4);
    let h = w
        .raycast(&step, &dir)
        .or_else(|| w.raycast_simple(&step, &dir))
        .expect("must hit");
    assert_eq!(h.block, BlockType::EscaleraPiedra);
    // Low anywhere: the base, a hit.
    let base = Vec3::new(-ONE / 2, ONE / 4, ONE / 4);
    assert!(w
        .raycast(&base, &dir)
        .or_else(|| w.raycast_simple(&base, &dir))
        .is_some());
}

#[test]
fn ray_that_misses_everything_reports_nothing() {
    let w = row_world(vec![BlockType::Netherrack]);
    let origin = Vec3::new(ONE / 2, 5 * ONE, ONE / 2);
    let dir = Vec3::new(ONE, 0, 0);
    assert!(w.raycast(&origin, &dir).is_none());
    assert!(w.raycast_simple(&origin, &dir).is_none());
}

#[test]
fn hit_uv_is_inside_the_unit_square() {
    let w = row_world(vec![BlockType::Aire, BlockType::EscaleraPiedra]);
    let origin = Vec3::new(ONE / 2, ONE / 4, ONE / 2);
    let dir = Vec3::new(ONE, 0, 0);
    let h = w.raycast(&origin, &dir).expect("must hit");
    assert!(0 <= h.uv.0 && h.uv.0 <= ONE);
    assert!(0 <= h.uv.1 && h.uv.1 <= ONE);
}

#[test]
fn empty_world_never_hits() {
    let w = VoxelWorld::new();
    assert_eq!(w.get_block(0, 0, 0), BlockType::Aire);
    let origin = Vec3::new(ONE / 2, ONE / 2, ONE / 2);
    let dir = Vec3::new(ONE, 0, 0);
    assert!(w.raycast(&origin, &dir).is_none());
    assert!(w.raycast_simple(&origin, &dir).is_none());
}

#[test]
fn exact_corner_tie_still_yields_a_single_axis_normal() {
    // A diagonal ray aimed exactly at the corner of the only cell: both
    // axes cross at the same distance, yet the reported face normal must be
    // a single axis unit pointing against the ray.
    let w = row_world(vec![BlockType::TerracotaNormal]);
    let origin = Vec3::new(-ONE / 2, -ONE / 2, ONE / 2);
    let diag: i64 = 46341; // about one over the square root of two
    let dir = Vec3::new(diag, diag, 0);
    let h = w.raycast(&origin, &dir).expect("must hit");
    assert_eq!((h.vx, h.vy, h.vz), (0, 0, 0));
    let comps = [h.normal.x, h.normal.y, h.normal.z];
    let nonzero = comps.iter().filter(|c| **c != 0).count();
    assert_eq!(nonzero, 1);
    assert!(comps.iter().all(|c| *c == 0 || *c == ONE || *c == -ONE));
    // The tie breaks toward an axis the ray actually moves along, pointing
    // back against it.
    assert!(h.normal.x == -ONE || h.normal.y == -ONE);
}

#[test]
fn marcher_never_reports_the_origin_voxel() {
    // Origin inside the only solid block: neither traversal may claim a hit
    // at distance zero on the ray's own voxel, and with nothing beyond it
    // there is nothing to hit.
    let w = row_world(vec![BlockType::Netherrack]);
    let origin = Vec3::new(ONE / 2, ONE / 2, ONE / 2);
    let dir = Vec3::new(ONE, 0, 0);
    assert!(w.raycast_simple(&origin, &dir).is_none());
    assert!(w.raycast(&origin, &dir).is_none());
}

#[test]
fn marcher_from_inside_a_solid_voxel_hits_the_next_block() {
    let w = row_world(vec![
        BlockType::TerracotaNormal,
        BlockType::Netherrack,
        BlockType::Netherrack,
    ]);
    let origin = Vec3::new(ONE / 2, ONE / 2, ONE / 2);
    let dir = Vec3::new(ONE, 0, 0);
    let h = w.raycast_simple(&origin, &dir).expect("must hit");
    assert!(h.t > 0);
    assert_eq!((h.vx, h.vy, h.vz), (1, 0, 0));
    assert_eq!(h.block, BlockType::Netherrack);
}

#[test]
fn texture_sampling_is_total() {
    let t = voxel_diorama::texture::Texture::from_pixels(2, 1, vec![(255, 0, 0), (0, 255, 0)]);
    // Out-of-range coordinates clamp into the valid range.
    assert_eq!(t.sample(-5 * ONE, -ONE), (255, 0, 0));
    assert_eq!(t.sample(9 * ONE, 3 * ONE), (0, 255, 0));
}
