use voxel_diorama::block::BlockType;
use voxel_diorama::material::get_material;
use voxel_diorama::vec3::Vec3;

#[test]
fn from_char_maps_every_known_character() {
    assert_eq!(BlockType::from_char('n'), BlockType::TerracotaNaranja);
    assert_eq!(BlockType::from_char('i'), BlockType::Netherrack);
    assert_eq!(BlockType::from_char('l'), BlockType::BloqueMagma);
    assert_eq!(BlockType::from_char('t'), BlockType::TerracotaNormal);
    assert_eq!(BlockType::from_char('a'), BlockType::TerracotaAmarilla);
    assert_eq!(BlockType::from_char('o'), BlockType::ObsidianaNormal);
    assert_eq!(BlockType::from_char('p'), BlockType::Lava);
    assert_eq!(BlockType::from_char('y'), BlockType::BloqueOro);
    assert_eq!(BlockType::from_char('c'), BlockType::Cofre);
    assert_eq!(BlockType::from_char('e'), BlockType::EscaleraPiedra);
    assert_eq!(BlockType::from_char('s'), BlockType::SlabPiedra);
    assert_eq!(BlockType::from_char('k'), BlockType::CryingObsidian);
    assert_eq!(BlockType::from_char(' '), BlockType::Aire);
    assert_eq!(BlockType::from_char('?'), BlockType::Aire);
}

#[test]
fn solidity_and_shape_predicates() {
    assert!(!BlockType::Aire.is_solid());
    assert!(BlockType::SlabPiedra.is_solid());
    assert!(BlockType::Lava.is_solid());
    assert!(BlockType::SlabPiedra.is_slab());
    assert!(!BlockType::EscaleraPiedra.is_slab());
    assert!(BlockType::EscaleraPiedra.is_stairs());
    assert!(!BlockType::SlabPiedra.is_stairs());
}

#[test]
fn only_magma_and_lava_emit_light() {
    let all = [
        BlockType::Aire,
        BlockType::TerracotaNaranja,
        BlockType::Netherrack,
        BlockType::BloqueMagma,
        BlockType::TerracotaNormal,
        BlockType::TerracotaAmarilla,
        BlockType::ObsidianaNormal,
        BlockType::Lava,
        BlockType::BloqueOro,
        BlockType::Cofre,
        BlockType::EscaleraPiedra,
        BlockType::SlabPiedra,
        BlockType::CryingObsidian,
    ];
    for b in all {
        let expected = b == BlockType::BloqueMagma || b == BlockType::Lava;
        assert_eq!(b.emits_light(), expected);
    }
}

#[test]
fn ordinals_cover_the_whole_table() {
    assert_eq!(BlockType::Aire.ordinal(), 0);
    assert_eq!(BlockType::TerracotaNaranja.ordinal(), 1);
    assert_eq!(BlockType::EscaleraPiedra.ordinal(), 10);
    assert_eq!(BlockType::SlabPiedra.ordinal(), 11);
    assert_eq!(BlockType::CryingObsidian.ordinal(), 12);
}

#[test]
fn fallback_colors_match_the_table() {
    assert_eq!(BlockType::Aire.get_color(), Vec3 { x: 0, y: 0, z: 0 });
    assert_eq!(
        BlockType::TerracotaNaranja.get_color(),
        Vec3 {
            x: 52429,
            y: 26214,
            z: 6554
        }
    );
    assert_eq!(
        BlockType::Lava.get_color(),
        Vec3 {
            x: 65536,
            y: 32768,
            z: 0
        }
    );
}

#[test]
fn gold_material_is_metallic_and_reflective() {
    let m = get_material(BlockType::BloqueOro);
    assert_eq!(m.metallic, 58982);
    assert_eq!(m.roughness, 7864);
    assert_eq!(m.reflectance, 52429);
    assert_eq!(m.emissive_strength, 0);
    assert_eq!(
        m.albedo,
        Vec3 {
            x: 65536,
            y: 50201,
            z: 22020
        }
    );
}

#[test]
fn lava_material_glows_beyond_one_unit() {
    let m = get_material(BlockType::Lava);
    assert_eq!(m.emissive_strength, 98304);
    assert_eq!(m.reflectance, 16384);
}

#[test]
fn default_material_is_matte() {
    let m = get_material(BlockType::Cofre);
    assert_eq!(m.metallic, 0);
    assert_eq!(m.roughness, 58982);
    assert_eq!(m.reflectance, 2621);
    assert_eq!(
        m.specular_color,
        Vec3 {
            x: 2621,
            y: 2621,
            z: 2621
        }
    );
}
