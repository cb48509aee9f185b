use voxel_diorama::fixed::{fp_clamp, fp_div, fp_floor_units, fp_isqrt, fp_mul, fp_pow, FP_ONE};
use voxel_diorama::vec3::Vec3;

#[test]
fn products_round_toward_zero() {
    assert_eq!(fp_mul(FP_ONE, FP_ONE), FP_ONE);
    assert_eq!(fp_mul(32768, 32768), 16384);
    assert_eq!(fp_mul(-32768, 32768), -16384);
    assert_eq!(fp_mul(3, 3), 0);
    assert_eq!(fp_mul(-3, 3), 0);
}

#[test]
fn quotients_round_toward_zero() {
    assert_eq!(fp_div(FP_ONE, 2 * FP_ONE), 32768);
    assert_eq!(fp_div(-FP_ONE, 2 * FP_ONE), -32768);
    assert_eq!(fp_div(1, 3), 21845);
    assert_eq!(fp_div(FP_ONE, -FP_ONE), -FP_ONE);
}

#[test]
fn floor_units_rounds_down_for_negative_coordinates() {
    assert_eq!(fp_floor_units(0), 0);
    assert_eq!(fp_floor_units(65535), 0);
    assert_eq!(fp_floor_units(65536), 1);
    assert_eq!(fp_floor_units(-1), -1);
    assert_eq!(fp_floor_units(-65536), -1);
    assert_eq!(fp_floor_units(-65537), -2);
}

#[test]
fn integer_square_roots_are_exact_floors() {
    assert_eq!(fp_isqrt(0), 0);
    assert_eq!(fp_isqrt(1), 1);
    assert_eq!(fp_isqrt(3), 1);
    assert_eq!(fp_isqrt(4), 2);
    assert_eq!(fp_isqrt(65536 * 65536), 65536);
    assert_eq!(fp_isqrt(2 * 65536 * 65536), 92681);
}

#[test]
fn clamp_selects_the_nearest_bound() {
    assert_eq!(fp_clamp(-5, 0, 10), 0);
    assert_eq!(fp_clamp(5, 0, 10), 5);
    assert_eq!(fp_clamp(15, 0, 10), 10);
}

#[test]
fn unit_powers_decay() {
    assert_eq!(fp_pow(FP_ONE, 16), FP_ONE);
    assert_eq!(fp_pow(0, 5), 0);
    assert_eq!(fp_pow(32768, 2), 16384);
    let p = fp_pow(65000, 256);
    assert!(p < 8000);
    assert!(p > 0);
}

#[test]
fn vector_length_and_normalize_are_consistent() {
    let v = Vec3::new(3 * FP_ONE, 4 * FP_ONE, 0);
    assert_eq!(v.length(), 5 * FP_ONE);
    let n = v.normalized();
    assert_eq!(n.x, fp_div(3 * FP_ONE, 5 * FP_ONE));
    assert_eq!(n.y, fp_div(4 * FP_ONE, 5 * FP_ONE));
    assert_eq!(n.z, 0);
    assert_eq!(Vec3::zero().normalized(), Vec3::zero());
}

#[test]
fn dot_product_of_unit_axes() {
    let x = Vec3::new(FP_ONE, 0, 0);
    let y = Vec3::new(0, FP_ONE, 0);
    assert_eq!(x.dot(&x), FP_ONE);
    assert_eq!(x.dot(&y), 0);
    assert_eq!(x.dot(&Vec3::new(-FP_ONE, 0, 0)), -FP_ONE);
}
