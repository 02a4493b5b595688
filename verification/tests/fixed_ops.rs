use perfcalc::effective::calculate_miss_penalty;
use perfcalc::fixed::{fadd, fdiv, fexp2, fmul, fpow45, fpowf, fsqrt, fsub, Fix, SCALE};

#[test]
fn products_and_quotients_are_exact() {
    let a = Fix { raw: 2_500_000 };
    let b = Fix { raw: 4_000_000 };
    assert_eq!(fmul(a, b).raw, 10_000_000);
    assert_eq!(fdiv(b, a).raw, 1_600_000);
    assert_eq!(fadd(a, b).raw, 6_500_000);
    assert_eq!(fsub(a, b).raw, 0);
    assert_eq!(fsub(b, a).raw, 1_500_000);
}

#[test]
fn division_by_zero_saturates() {
    assert_eq!(fdiv(Fix::one(), Fix { raw: 0 }).raw, u64::MAX);
}

#[test]
fn square_root_is_floor_exact() {
    assert_eq!(fsqrt(Fix { raw: 4 * SCALE }).raw, 2 * SCALE);
    assert_eq!(fsqrt(Fix { raw: 0 }).raw, 0);
    assert_eq!(fsqrt(Fix { raw: 2_250_000 }).raw, 1_500_000);
}

#[test]
fn four_fifths_power_on_a_power_of_two() {
    // 32^(4/5) is exactly 16.
    assert_eq!(fpow45(Fix { raw: 32 * SCALE }).raw, 16 * SCALE);
    assert_eq!(fpow45(Fix { raw: 0 }).raw, 0);
}

#[test]
fn exponentials_on_integer_points() {
    assert_eq!(fexp2(Fix { raw: 0 }).raw, SCALE);
    assert_eq!(fexp2(Fix::one()).raw, 2 * SCALE);
    assert_eq!(fexp2(Fix { raw: 3 * SCALE }).raw, 8 * SCALE);
}

#[test]
fn powers_keep_one_fixed() {
    assert_eq!(fpowf(Fix::one(), Fix { raw: 1_170_000 }).raw, SCALE);
    assert_eq!(fpowf(Fix { raw: 12_345 }, Fix { raw: 0 }).raw, SCALE);
    assert_eq!(fpowf(Fix { raw: 0 }, Fix::one()).raw, 0);
}

#[test]
fn general_power_approximates_squares() {
    // 4^2 through the logarithmic path stays within a tenth of a
    // percent of 16.
    let r = fpowf(Fix { raw: 4 * SCALE }, Fix { raw: 2 * SCALE }).raw;
    assert!(r >= 15_980_000 && r <= 16_020_000, "got {}", r);
}

#[test]
fn miss_penalty_formula_exact_point() {
    // With one difficult strain section and two misses the penalty is
    // 0.94 / (2 / 2 + 1) = 0.47.
    let p = calculate_miss_penalty(Fix { raw: 2 * SCALE }, Fix::one());
    assert_eq!(p.raw, 470_000);
}
