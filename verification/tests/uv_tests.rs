use voxel_diorama::block::BlockType;
use voxel_diorama::vec3::Vec3;
use voxel_diorama::world::VoxelWorld;

const ONE: i64 = 65536;

fn single_block_world(block: BlockType) -> VoxelWorld {
    VoxelWorld {
        blocks: vec![block],
        width: 1,
        height: 1,
        depth: 1,
    }
}

#[test]
fn cube_face_mappings_flip_as_documented() {
    let w = single_block_world(BlockType::TerracotaNormal);
    let p = Vec3::new(ONE, ONE / 4, ONE / 4);
    // +X face: u = 1 - local_z, v = 1 - local_y.
    let (u, v) = w.calculate_uv(&p, &Vec3::new(ONE, 0, 0), 0, 0, 0);
    assert_eq!(u, 3 * ONE / 4);
    assert_eq!(v, 3 * ONE / 4);
    // -X face: u = local_z, v = 1 - local_y.
    let (u, v) = w.calculate_uv(&Vec3::new(0, ONE / 4, ONE / 4), &Vec3::new(-ONE, 0, 0), 0, 0, 0);
    assert_eq!(u, ONE / 4);
    assert_eq!(v, 3 * ONE / 4);
    // Top face: u = local_x, v = 1 - local_z.
    let (u, v) = w.calculate_uv(&Vec3::new(ONE / 8, ONE, ONE / 4), &Vec3::new(0, ONE, 0), 0, 0, 0);
    assert_eq!(u, ONE / 8);
    assert_eq!(v, 3 * ONE / 4);
    // Bottom face: u = local_x, v = local_z.
    let (u, v) = w.calculate_uv(&Vec3::new(ONE / 8, 0, ONE / 4), &Vec3::new(0, -ONE, 0), 0, 0, 0);
    assert_eq!(u, ONE / 8);
    assert_eq!(v, ONE / 4);
}

#[test]
fn slab_side_faces_rescale_the_lower_half() {
    let w = single_block_world(BlockType::SlabPiedra);
    // +X side at local_y = 0.25: v = 1 - 2 * local_y = 0.5.
    let (u, v) = w.calculate_uv(&Vec3::new(ONE, ONE / 4, ONE / 4), &Vec3::new(ONE, 0, 0), 0, 0, 0);
    assert_eq!(u, 3 * ONE / 4);
    assert_eq!(v, ONE / 2);
    // Top of a slab maps like a full block top.
    let (u, v) = w.calculate_uv(
        &Vec3::new(ONE / 8, ONE / 2, ONE / 4),
        &Vec3::new(0, ONE, 0),
        0,
        0,
        0,
    );
    assert_eq!(u, ONE / 8);
    assert_eq!(v, 3 * ONE / 4);
}

#[test]
fn stair_top_splits_at_half_depth() {
    let w = single_block_world(BlockType::EscaleraPiedra);
    // Base tread: local_z = 0.25 maps to v = 2 * local_z = 0.5.
    let (u, v) = w.calculate_uv(
        &Vec3::new(ONE / 8, ONE / 2, ONE / 4),
        &Vec3::new(0, ONE, 0),
        0,
        0,
        0,
    );
    assert_eq!(u, ONE / 8);
    assert_eq!(v, ONE / 2);
    // Raised tread: local_z = 0.75 maps to v = 2 * local_z - 1 = 0.5.
    let (u, v) = w.calculate_uv(
        &Vec3::new(ONE / 8, ONE, 3 * ONE / 4),
        &Vec3::new(0, ONE, 0),
        0,
        0,
        0,
    );
    assert_eq!(u, ONE / 8);
    assert_eq!(v, ONE / 2);
}

#[test]
fn uv_stays_in_unit_square_for_randomized_points_and_shapes() {
    // A small deterministic linear-congruential generator.
    let mut state: u64 = 0x1234_5678_9abc_def0;
    let mut next = move || {
        state = state
            .wrapping_mul(6364136223846793005)
            .wrapping_add(1442695040888963407);
        (state >> 16) % (ONE as u64 + 1)
    };
    let shapes = [
        BlockType::TerracotaNormal,
        BlockType::SlabPiedra,
        BlockType::EscaleraPiedra,
        BlockType::Lava,
    ];
    let normals = [
        Vec3::new(ONE, 0, 0),
        Vec3::new(-ONE, 0, 0),
        Vec3::new(0, ONE, 0),
        Vec3::new(0, -ONE, 0),
        Vec3::new(0, 0, ONE),
        Vec3::new(0, 0, -ONE),
    ];
    for shape in shapes {
        let w = single_block_world(shape);
        for n in normals {
            for _ in 0..50 {
                let p = Vec3::new(next() as i64, next() as i64, next() as i64);
                let (u, v) = w.calculate_uv(&p, &n, 0, 0, 0);
                assert!(0 <= u && u <= ONE, "u out of range: {}", u);
                assert!(0 <= v && v <= ONE, "v out of range: {}", v);
            }
        }
    }
}
