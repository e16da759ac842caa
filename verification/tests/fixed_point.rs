use raytracer::color::{to_channel, to_scalar, Color};
use raytracer::fixed::{
    fx_abs, fx_add, fx_clamp, fx_div, fx_max, fx_min, fx_mul, fx_neg, fx_ratio, fx_sqrt, fx_sub,
    BIAS, EPSILON, INFINITE, NEG_INFINITE, NEG_ONE, ONE,
};
use raytracer::vector::Vec3;

#[test]
fn product_is_scaled_back_and_truncated() {
    assert_eq!(fx_mul(1_500_000, 2_000_000), 3_000_000);
    assert_eq!(fx_mul(ONE, ONE), ONE);
    assert_eq!(fx_mul(333_333, 3_000_000), 999_999);
    assert_eq!(fx_mul(1, 1), 0);
    assert_eq!(fx_mul(-1_500_000, 1), -1);
    assert_eq!(fx_mul(-1, 999_999), 0);
    assert_eq!(fx_mul(-2_500_000, -2_000_000), 5_000_000);
}

#[test]
fn quotient_rounds_toward_zero() {
    assert_eq!(fx_div(ONE, 3_000_000), 333_333);
    assert_eq!(fx_div(-ONE, 3_000_000), -333_333);
    assert_eq!(fx_div(ONE, -3_000_000), -333_333);
    assert_eq!(fx_div(-ONE, -3_000_000), 333_333);
    assert_eq!(fx_div(4_500_000, -ONE), -4_500_000);
    assert_eq!(fx_div(7, 2), 3_500_000);
}

#[test]
fn guarded_quotient_is_zero_for_a_zero_divisor() {
    assert_eq!(fx_ratio(ONE, 0), 0);
    assert_eq!(fx_ratio(ONE, 4_000_000), 250_000);
}

#[test]
fn arithmetic_saturates_at_the_ends() {
    assert_eq!(fx_add(i64::MAX, 1), i64::MAX);
    assert_eq!(fx_add(i64::MIN, -1), i64::MIN);
    assert_eq!(fx_sub(i64::MIN, 1), i64::MIN);
    assert_eq!(fx_sub(i64::MAX, -1), i64::MAX);
    assert_eq!(fx_neg(i64::MIN), i64::MAX);
    assert_eq!(fx_abs(i64::MIN), i64::MAX);
    assert_eq!(fx_mul(i64::MAX, 2_000_000), i64::MAX);
    assert_eq!(fx_mul(i64::MAX, -2_000_000), i64::MIN);
    assert_eq!(fx_mul(i64::MIN, i64::MIN), i64::MAX);
    assert_eq!(fx_div(i64::MAX, 1), i64::MAX);
    assert_eq!(fx_div(i64::MIN, 1), i64::MIN);
    assert_eq!(fx_div(i64::MIN, -1), i64::MAX);
}

#[test]
fn sum_and_difference_are_exact_within_range() {
    assert_eq!(fx_add(1_250_000, -2_500_000), -1_250_000);
    assert_eq!(fx_sub(1_250_000, -2_500_000), 3_750_000);
    assert_eq!(fx_neg(5), -5);
    assert_eq!(fx_abs(-7), 7);
    assert_eq!(fx_abs(7), 7);
}

#[test]
fn square_root_rounds_down() {
    assert_eq!(fx_sqrt(4_000_000), 2_000_000);
    assert_eq!(fx_sqrt(2_000_000), 1_414_213);
    assert_eq!(fx_sqrt(ONE), ONE);
    assert_eq!(fx_sqrt(1), 1_000);
    assert_eq!(fx_sqrt(0), 0);
    assert_eq!(fx_sqrt(-4_000_000), 0);
    assert_eq!(fx_sqrt(i64::MAX), 3_037_000_499_976);
}

#[test]
fn square_root_brackets_its_argument() {
    for a in [1i64, 2, 3, 999_999, 1_000_001, 123_456_789, 9_000_000_000_000, i64::MAX] {
        let r = fx_sqrt(a) as i128;
        let n = a as i128 * 1_000_000;
        assert!(r * r <= n);
        assert!(n < (r + 1) * (r + 1));
    }
}

#[test]
fn least_greatest_and_clamp() {
    assert_eq!(fx_min(3, -4), -4);
    assert_eq!(fx_max(3, -4), 3);
    assert_eq!(fx_clamp(5, 0, 3), 3);
    assert_eq!(fx_clamp(-5, 0, 3), 0);
    assert_eq!(fx_clamp(2, 0, 3), 2);
    assert_eq!(fx_clamp(2, 4, 3), 4);
}

#[test]
fn constants_have_their_values() {
    assert_eq!(ONE, 1_000_000);
    assert_eq!(NEG_ONE, -1_000_000);
    assert_eq!(EPSILON, 1);
    assert_eq!(BIAS, 1_000);
    assert_eq!(INFINITE, i64::MAX);
    assert_eq!(NEG_INFINITE, i64::MIN);
}

#[test]
fn vector_operations() {
    let a = Vec3::new(1_000_000, 2_000_000, 3_000_000);
    let b = Vec3::new(-4_000_000, 500_000, 2_000_000);
    assert_eq!(a.plus(&b), Vec3::new(-3_000_000, 2_500_000, 5_000_000));
    assert_eq!(a.minus(&b), Vec3::new(5_000_000, 1_500_000, 1_000_000));
    assert_eq!(a.scale(500_000), Vec3::new(500_000, 1_000_000, 1_500_000));
    assert_eq!(a.negated(), Vec3::new(-1_000_000, -2_000_000, -3_000_000));
    assert_eq!(a.dot(&b), 3_000_000);
    assert_eq!(a.cross(&b), Vec3::new(2_500_000, -14_000_000, 8_500_000));
    assert_eq!(a.component(0), 1_000_000);
    assert_eq!(a.component(1), 2_000_000);
    assert_eq!(a.component(2), 3_000_000);
    assert_eq!(Vec3::zero(), Vec3::new(0, 0, 0));
    assert_eq!(a.advance(&b, 2_000_000), Vec3::new(-7_000_000, 3_000_000, 7_000_000));
}

#[test]
fn length_distance_and_unit_vectors() {
    let v = Vec3::new(3_000_000, 0, -4_000_000);
    assert_eq!(v.length(), 5_000_000);
    assert_eq!(v.normalize(), Vec3::new(600_000, 0, -800_000));
    assert_eq!(v.direction(), Vec3::new(600_000, 0, -800_000));
    assert_eq!(Vec3::zero().direction(), Vec3::zero());
    assert_eq!(Vec3::new(1_000_000, 1_000_000, 1_000_000).distance(&Vec3::new(1_000_000, 4_000_000, 5_000_000)), 5_000_000);
}

#[test]
fn channels_truncate_and_saturate() {
    assert_eq!(to_channel(0), 0);
    assert_eq!(to_channel(-5_000_000), 0);
    assert_eq!(to_channel(999_999), 0);
    assert_eq!(to_channel(1_000_000), 1);
    assert_eq!(to_channel(254_999_999), 254);
    assert_eq!(to_channel(255_000_000), 255);
    assert_eq!(to_channel(i64::MAX), 255);
    assert_eq!(to_scalar(255), 255_000_000);
    assert_eq!(to_scalar(0), 0);
}

#[test]
fn colors_convert_and_pack() {
    let c = Color::new(18, 52, 86);
    assert_eq!(c.to_hex(), 0x123456);
    assert_eq!(c.to_vec3(), Vec3::new(18_000_000, 52_000_000, 86_000_000));
    assert_eq!(Color::from_vec3(Vec3::new(300_000_000, -1, 17_900_000)), Color::new(255, 0, 17));
    assert_eq!(Color::black(), Color::new(0, 0, 0));
    assert_eq!(c.clamp(), c);
    assert_eq!(Color::new(255, 255, 255).to_hex(), 0xffffff);
    assert_eq!(c.plus(&Color::new(1, 203, 200)), Color::new(19, 255, 255));
    assert_eq!(c.plus(&Color::black()), c);
}
