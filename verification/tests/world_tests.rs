use voxel_diorama::block::BlockType;
use voxel_diorama::vec3::Vec3;
use voxel_diorama::world::VoxelWorld;

fn single_block_world(block: BlockType) -> VoxelWorld {
    VoxelWorld {
        blocks: vec![block],
        width: 1,
        height: 1,
        depth: 1,
    }
}

const ONE: i64 = 65536;

#[test]
fn out_of_range_reads_are_empty() {
    let w = single_block_world(BlockType::Netherrack);
    assert_eq!(w.get_block(0, 0, 0), BlockType::Netherrack);
    assert_eq!(w.get_block(-1, 0, 0), BlockType::Aire);
    assert_eq!(w.get_block(0, 1, 0), BlockType::Aire);
    assert_eq!(w.get_block(0, 0, 19), BlockType::Aire);
    assert_eq!(w.get_block(1000, -50, 3), BlockType::Aire);
}

#[test]
fn layer_data_loads_in_row_major_order() {
    let mut w = VoxelWorld::new();
    // One layer; line 0 is "n", line 1 is " i".
    let layer: Vec<Vec<char>> = vec![vec!['n'], vec![' ', 'i']];
    w.load_from_layer_data(&vec![layer]);
    assert_eq!(w.width, 15);
    assert_eq!(w.depth, 19);
    assert_eq!(w.height, 1);
    assert_eq!(w.get_block(0, 0, 0), BlockType::TerracotaNaranja);
    assert_eq!(w.get_block(0, 0, 1), BlockType::Aire);
    assert_eq!(w.get_block(1, 0, 1), BlockType::Netherrack);
    assert_eq!(w.get_block(5, 0, 5), BlockType::Aire);
}

#[test]
fn layer_text_beyond_the_footprint_is_ignored() {
    let mut w = VoxelWorld::new();
    // A line longer than the 15-block width, and more lines than the
    // 19-row depth: the excess is dropped.
    let long_line: Vec<char> = vec!['n'; 30];
    let mut lines: Vec<Vec<char>> = vec![long_line];
    for _ in 0..25 {
        lines.push(vec!['i']);
    }
    w.load_from_layer_data(&vec![lines]);
    assert_eq!(w.get_block(14, 0, 0), BlockType::TerracotaNaranja);
    assert_eq!(w.get_block(15, 0, 0), BlockType::Aire);
    assert_eq!(w.get_block(0, 0, 18), BlockType::Netherrack);
    assert_eq!(w.get_block(0, 0, 19), BlockType::Aire);
}

#[test]
fn empty_layer_data_changes_nothing() {
    let mut w = VoxelWorld::new();
    w.load_from_layer_data(&Vec::new());
    assert_eq!(w.width, 0);
    assert_eq!(w.height, 0);
    assert_eq!(w.depth, 0);
}

#[test]
fn full_cube_occupies_its_whole_cell() {
    let w = single_block_world(BlockType::TerracotaNormal);
    assert!(w.check_special_collision(0, 0, 0, &Vec3::new(ONE / 2, ONE / 2, ONE / 2)));
    assert!(w.check_special_collision(0, 0, 0, &Vec3::new(10, 65530, 30000)));
    // Clamping makes the cube test total even for far-away points.
    assert!(w.check_special_collision(0, 0, 0, &Vec3::new(5 * ONE, ONE / 2, ONE / 2)));
}

#[test]
fn slab_occupies_only_its_lower_half() {
    let w = single_block_world(BlockType::SlabPiedra);
    // Above one half (plus tolerance): empty.
    assert!(!w.check_special_collision(0, 0, 0, &Vec3::new(ONE / 2, 3 * ONE / 4, ONE / 2)));
    assert!(!w.check_special_collision(0, 0, 0, &Vec3::new(ONE / 2, 32835, ONE / 2)));
    // At or below one half: solid.
    assert!(w.check_special_collision(0, 0, 0, &Vec3::new(ONE / 2, ONE / 2, ONE / 2)));
    assert!(w.check_special_collision(0, 0, 0, &Vec3::new(ONE / 2, ONE / 4, ONE / 2)));
    assert!(w.check_special_collision(0, 0, 0, &Vec3::new(ONE / 2, 0, ONE / 2)));
}

#[test]
fn stair_notch_is_empty_and_step_is_solid() {
    let w = single_block_world(BlockType::EscaleraPiedra);
    // The notch: high and in front of the step.
    assert!(!w.check_special_collision(0, 0, 0, &Vec3::new(ONE / 2, 3 * ONE / 4, ONE / 4)));
    // The raised step: high but behind the half-depth line.
    assert!(w.check_special_collision(0, 0, 0, &Vec3::new(ONE / 2, 3 * ONE / 4, 3 * ONE / 4)));
    // The base: low anywhere.
    assert!(w.check_special_collision(0, 0, 0, &Vec3::new(ONE / 2, ONE / 4, ONE / 4)));
    assert!(w.check_special_collision(0, 0, 0, &Vec3::new(ONE / 2, ONE / 4, 3 * ONE / 4)));
}

#[test]
fn nearest_face_normal_picks_the_dominant_axis() {
    let w = single_block_world(BlockType::TerracotaNormal);
    // Near the top face.
    let n = w.calculate_normal(0, 0, 0, &Vec3::new(ONE / 2, 63000, ONE / 2));
    assert_eq!(n, Vec3::new(0, ONE, 0));
    // Near the bottom face.
    let n = w.calculate_normal(0, 0, 0, &Vec3::new(ONE / 2, 2000, ONE / 2));
    assert_eq!(n, Vec3::new(0, -ONE, 0));
    // Near the +X face.
    let n = w.calculate_normal(0, 0, 0, &Vec3::new(64000, ONE / 2, ONE / 2));
    assert_eq!(n, Vec3::new(ONE, 0, 0));
}
