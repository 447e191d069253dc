use crowdfund_vault::math::{quadratic_match, scale, sqrt_scaled, unscale, SCALE};

#[test]
fn sqrt_scaled_of_non_positive_is_zero() {
    assert_eq!(sqrt_scaled(0), 0);
    assert_eq!(sqrt_scaled(-5), 0);
    assert_eq!(sqrt_scaled(i128::MIN), 0);
}

#[test]
fn sqrt_scaled_of_one_is_scale() {
    assert_eq!(sqrt_scaled(1), SCALE);
}

#[test]
fn sqrt_scaled_of_perfect_squares_is_exact() {
    assert_eq!(sqrt_scaled(100), 10 * SCALE);
    assert_eq!(sqrt_scaled(400), 20 * SCALE);
    assert_eq!(sqrt_scaled(900), 30 * SCALE);
    assert_eq!(sqrt_scaled(1_000_000), 1_000 * SCALE);
}

#[test]
fn sqrt_scaled_uses_one_linear_correction() {
    // isqrt(2) = 1; 1e9 + (2 - 1) * 1e9 / 2
    assert_eq!(sqrt_scaled(2), 1_500_000_000);
    // isqrt(10) = 3; 3e9 + (10 - 9) * 1e9 / 6
    assert_eq!(sqrt_scaled(10), 3_166_666_666);
    // isqrt(99) = 9; 9e9 + 18 * 1e9 / 18
    assert_eq!(sqrt_scaled(99), 10_000_000_000);
}

#[test]
fn sqrt_scaled_of_largest_value_does_not_overflow() {
    let r = sqrt_scaled(i128::MAX);
    // isqrt(i128::MAX) = 13_043_817_825_332_782_212
    assert!(r >= 13_043_817_825_332_782_212 * SCALE);
    assert!(r <= 13_043_817_825_332_782_213 * SCALE);
}

#[test]
fn unscale_truncates_toward_zero() {
    assert_eq!(unscale(3_999_999_999), 3);
    assert_eq!(unscale(-1_500_000_000), -1);
    assert_eq!(unscale(999_999_999), 0);
}

#[test]
fn scale_multiplies_by_scale() {
    assert_eq!(scale(3), 3_000_000_000);
    assert_eq!(scale(-2), -2_000_000_000);
}

#[test]
fn quadratic_match_of_three_squares() {
    // (10 + 20 + 30)^2
    assert_eq!(quadratic_match(&[100, 400, 900]), 3_600);
}

#[test]
fn quadratic_match_single_contributor_gets_its_amount() {
    assert_eq!(quadratic_match(&[1_000_000]), 1_000_000);
}

#[test]
fn quadratic_match_of_nothing_is_zero() {
    assert_eq!(quadratic_match(&[]), 0);
}

#[test]
fn quadratic_match_ignores_non_positive_amounts() {
    assert_eq!(quadratic_match(&[0, -7, 400]), 400);
}

#[test]
fn quadratic_match_saturates_the_square() {
    // the squared root sum exceeds i128, so it saturates before unscaling
    let r = quadratic_match(&[i128::MAX, i128::MAX]);
    assert_eq!(r, unscale(unscale(i128::MAX)));
}
