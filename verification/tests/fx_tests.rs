use vide::fx::{Fx, FX_HALF_RAW, FX_ONE_RAW};

#[test]
fn from_int_scales_exactly() {
    assert_eq!(Fx::from_int(0).raw, 0);
    assert_eq!(Fx::from_int(1).raw, FX_ONE_RAW);
    assert_eq!(Fx::from_int(-3).raw, -3 * FX_ONE_RAW);
    assert_eq!(Fx::from_int(10).raw, 10 * FX_ONE_RAW);
}

#[test]
fn ratio_is_exact_on_dyadic_fractions() {
    assert_eq!(Fx::ratio(1, 2).raw, FX_HALF_RAW);
    assert_eq!(Fx::ratio(7, 8).raw, 57344);
    assert_eq!(Fx::ratio(7, 8).raw as f64 / FX_ONE_RAW as f64, 0.875);
}

#[test]
fn ratio_truncates_toward_zero() {
    assert_eq!(Fx::ratio(1, 3).raw, 21845);
}

#[test]
fn from_int_saturates_at_the_bounds() {
    assert_eq!(Fx::from_int(i64::MAX).raw, i64::MAX);
    assert_eq!(Fx::from_int(i64::MIN).raw, i64::MIN);
}

#[test]
fn add_saturates_instead_of_wrapping() {
    let top = Fx { raw: i64::MAX };
    assert_eq!(top.add(Fx::one()).raw, i64::MAX);
    let bottom = Fx { raw: i64::MIN };
    assert_eq!(bottom.sub(Fx::one()).raw, i64::MIN);
}

#[test]
fn mul_truncates_extra_fraction_bits() {
    let third = Fx::ratio(1, 3);
    assert_eq!(third.mul(Fx::from_int(3)).raw, 65535);
    assert_eq!(Fx::from_int(-3).mul(Fx::half()).raw, -3 * FX_HALF_RAW);
}

#[test]
fn round_to_i64_rounds_halves_away_from_zero() {
    assert_eq!(Fx::half().round_to_i64(), 1);
    assert_eq!(Fx { raw: -FX_HALF_RAW }.round_to_i64(), -1);
    assert_eq!(Fx { raw: FX_HALF_RAW - 1 }.round_to_i64(), 0);
    assert_eq!(Fx::from_int(191).add(Fx::ratio(1, 4)).round_to_i64(), 191);
}

#[test]
fn lt_compares_by_value() {
    assert!(Fx::zero().lt(Fx::one()));
    assert!(!Fx::one().lt(Fx::one()));
    assert!(Fx::from_int(-1).lt(Fx::zero()));
}
