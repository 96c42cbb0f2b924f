use bouncing_spheres::fixed::{fx_abs, fx_add, fx_div, fx_mul, fx_neg, fx_sqrt, fx_sub, FX_ONE};
use bouncing_spheres::vector3d::{
    blend, blend_vectors, cross, dot, is_in_interval, reflect, unit_vector, zero_in, Vector3d,
};

fn v(x: i64, y: i64, z: i64) -> Vector3d {
    Vector3d { x, y, z }
}

#[test]
fn test_cross_product() {
    let result = cross(&v(FX_ONE, 0, 0), &v(0, FX_ONE, 0));
    assert_eq!(result, v(0, 0, FX_ONE));
}

#[test]
fn test_fixed_mul_div() {
    assert_eq!(fx_mul(2_000_000, 3_000_000), 6_000_000);
    assert_eq!(fx_mul(-2_000_000, 3_000_000), -6_000_000);
    assert_eq!(fx_mul(1, 1), 0);
    assert_eq!(fx_div(1_000_000, 2_000_000), 500_000);
    assert_eq!(fx_div(-1_000_000, 2_000_000), -500_000);
    assert_eq!(fx_div(5, 0), 0);
    assert_eq!(fx_add(i64::MAX, 1), i64::MAX);
    assert_eq!(fx_sub(i64::MIN, 1), i64::MIN);
    assert_eq!(fx_neg(-7), 7);
    assert_eq!(fx_abs(-7), 7);
}

#[test]
fn test_fixed_sqrt() {
    assert_eq!(fx_sqrt(1_000_000), 1_000_000);
    assert_eq!(fx_sqrt(4_000_000), 2_000_000);
    assert_eq!(fx_sqrt(2_000_000), 1_414_213);
    assert_eq!(fx_sqrt(0), 0);
    assert_eq!(fx_sqrt(-5), 0);
}

#[test]
fn test_vector_length() {
    let a = v(3_000_000, 4_000_000, 0);
    assert_eq!(a.length_squared(), 25_000_000);
    assert_eq!(a.length(), 5_000_000);
    assert_eq!(Vector3d::null(), v(0, 0, 0));
}

#[test]
fn test_vector_arithmetic() {
    let a = v(1_000_000, 2_000_000, 3_000_000);
    let b = v(4_000_000, 5_000_000, 6_000_000);
    assert_eq!(a.add(&b), v(5_000_000, 7_000_000, 9_000_000));
    assert_eq!(b.sub(&a), v(3_000_000, 3_000_000, 3_000_000));
    assert_eq!(a.mul(2_000_000), v(2_000_000, 4_000_000, 6_000_000));
    assert_eq!(a.div(2_000_000), v(500_000, 1_000_000, 1_500_000));
    assert_eq!(dot(&a, &b), 32_000_000);
}

#[test]
fn test_unit_vector() {
    let a = v(3_000_000, 4_000_000, 0);
    assert_eq!(unit_vector(&a), v(600_000, 800_000, 0));
}

#[test]
fn test_reflect() {
    // Reflecting a downward ray about the upward normal flips its y.
    let incoming = v(1_000_000, -1_000_000, 0);
    let normal = v(0, 1_000_000, 0);
    assert_eq!(reflect(&incoming, &normal), v(1_000_000, 1_000_000, 0));
}

#[test]
fn test_zero_in_and_interval() {
    assert!(is_in_interval(500_000, 0, 1_000_000));
    assert!(!is_in_interval(0, 0, 1_000_000));
    assert_eq!(zero_in(100, 50), 0);
    assert_eq!(zero_in(100, -50), 0);
    assert_eq!(zero_in(100, 100), 100);
    assert_eq!(zero_in(0, 5), 5);
}

#[test]
fn test_blend_scalars_and_vectors() {
    assert_eq!(blend(1_000_000, 0, 250_000), 250_000);
    assert_eq!(
        blend_vectors(&v(1_000_000, 0, 0), &v(0, 1_000_000, 0), 250_000),
        v(250_000, 750_000, 0)
    );
}
