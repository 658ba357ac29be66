use tracer::fixed::{
    add_fix, div_fix, div_int, mul_fix, neg_fix, sqrt_fix, sub_fix, FIX_HALF, FIX_LIMIT, FIX_ONE,
};
use tracer::ray::{Ray, V3};

#[test]
fn multiplication_is_exact_on_half_units() {
    assert_eq!(mul_fix(1_500_000, 1_500_000), 2_250_000);
    assert_eq!(mul_fix(FIX_HALF, FIX_ONE), FIX_HALF);
    assert_eq!(mul_fix(0, 123_456), 0);
}

#[test]
fn multiplication_truncates_toward_zero() {
    // 0.000001 * 0.5 rounds to zero, from both sides
    assert_eq!(mul_fix(1, FIX_HALF), 0);
    assert_eq!(mul_fix(-1, FIX_HALF), 0);
}

#[test]
fn division_truncates_toward_zero() {
    assert_eq!(div_fix(FIX_ONE, 3_000_000), 333_333);
    assert_eq!(div_fix(-FIX_ONE, 3_000_000), -333_333);
    assert_eq!(div_fix(FIX_ONE, -3_000_000), -333_333);
}

#[test]
fn division_by_zero_saturates_by_sign() {
    assert_eq!(div_fix(5, 0), FIX_LIMIT);
    assert_eq!(div_fix(-5, 0), -FIX_LIMIT);
    assert_eq!(div_fix(0, 0), 0);
}

#[test]
fn addition_saturates_at_the_limit() {
    assert_eq!(add_fix(FIX_LIMIT, FIX_LIMIT), FIX_LIMIT);
    assert_eq!(sub_fix(-FIX_LIMIT, FIX_LIMIT), -FIX_LIMIT);
    assert_eq!(add_fix(2_000_000, 3_000_000), 5_000_000);
    assert_eq!(neg_fix(7), -7);
}

#[test]
fn square_root_is_exact_on_squares() {
    assert_eq!(sqrt_fix(FIX_ONE), FIX_ONE);
    assert_eq!(sqrt_fix(4_000_000), 2_000_000);
    assert_eq!(sqrt_fix(0), 0);
    assert_eq!(sqrt_fix(-5), 0);
}

#[test]
fn square_root_rounds_down() {
    // sqrt(2) = 1.41421356...
    assert_eq!(sqrt_fix(2_000_000), 1_414_213);
}

#[test]
fn integer_division_splits_a_sum_of_samples() {
    assert_eq!(div_int(10_000_000, 4), 2_500_000);
    assert_eq!(div_int(-10_000_001, 4), -2_500_000);
}

#[test]
fn vector_arithmetic_matches_hand_values() {
    let a = V3::new(1_000_000, 2_000_000, 3_000_000);
    let b = V3::new(1_000_000, 0, 0);
    assert_eq!(a.add(&b), V3::new(2_000_000, 2_000_000, 3_000_000));
    assert_eq!(a.sub(&b), V3::new(0, 2_000_000, 3_000_000));
    assert_eq!(a.dot(&b), 1_000_000);
    assert_eq!(a.scale(2_000_000), V3::new(2_000_000, 4_000_000, 6_000_000));
    assert_eq!(
        a.cross(&b),
        V3::new(0, 3_000_000, -2_000_000)
    );
    assert_eq!(V3::new(0, 3_000_000, 4_000_000).length(), 5_000_000);
    assert_eq!(
        V3::new(1_000_000, 0, -1_000_000).normalize(),
        V3::new(707_107, 0, -707_107)
    );
}

#[test]
fn ray_points_along_its_direction() {
    let r = Ray::new(V3::new(1_000_000, 2_000_000, 3_000_000), V3::new(1_000_000, 0, 0));
    assert_eq!(r.origin(), V3::new(1_000_000, 2_000_000, 3_000_000));
    assert_eq!(r.direction(), V3::new(1_000_000, 0, 0));
    assert_eq!(
        r.point_at_parameter(2_000_000),
        V3::new(3_000_000, 2_000_000, 3_000_000)
    );
}
