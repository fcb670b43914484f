use vide::ease::{
    Easing, IN_BACK, IN_EXPONENTIAL, IN_OUT_BACK, IN_OUT_QUINTIC, IN_QUADRATIC, LINEAR, OUT_BACK,
    OUT_CUBIC, OUT_QUADRATIC,
};
use vide::fx::{Fx, FX_ONE_RAW};

#[test]
fn out_cubic_hits_its_closed_form_values() {
    assert_eq!(OUT_CUBIC.apply(Fx::zero()).raw, 0);
    assert_eq!(OUT_CUBIC.apply(Fx::one()).raw, FX_ONE_RAW);
    let half = OUT_CUBIC.apply(Fx::half());
    assert_eq!(half.raw as f64 / FX_ONE_RAW as f64, 0.875);
}

#[test]
fn linear_is_the_identity() {
    let t = Fx::ratio(3, 7);
    assert_eq!(LINEAR.apply(t).raw, t.raw);
}

#[test]
fn in_quadratic_squares_progress() {
    assert_eq!(IN_QUADRATIC.apply(Fx::half()).raw as f64 / FX_ONE_RAW as f64, 0.25);
}

#[test]
fn out_quadratic_at_half_is_three_quarters() {
    assert_eq!(OUT_QUADRATIC.apply(Fx::half()).raw as f64 / FX_ONE_RAW as f64, 0.75);
}

#[test]
fn in_exponential_is_the_tenth_power() {
    let quarter = Fx::ratio(1, 4);
    // 0.25^10 = 2^-20; at sixteen fraction bits that truncates to zero.
    assert_eq!(IN_EXPONENTIAL.apply(quarter).raw, 0);
    assert_eq!(IN_EXPONENTIAL.apply(Fx::one()).raw, FX_ONE_RAW);
}

#[test]
fn in_out_quintic_is_piecewise_at_half() {
    assert_eq!(IN_OUT_QUINTIC.apply(Fx::half()).raw as f64 / FX_ONE_RAW as f64, 0.5);
    assert_eq!(IN_OUT_QUINTIC.apply(Fx::ratio(1, 4)).raw as f64 / FX_ONE_RAW as f64, 16.0 * 0.25f64.powi(5));
}

#[test]
fn every_curve_starts_at_zero_and_ends_at_one() {
    let curves = [
        Easing::Linear,
        Easing::InQuadratic,
        Easing::InCubic,
        Easing::InQuartic,
        Easing::InQuintic,
        Easing::InExponential,
        Easing::OutQuadratic,
        Easing::OutCubic,
        Easing::OutQuartic,
        Easing::OutQuintic,
        Easing::OutExponential,
        Easing::InOutQuintic,
        Easing::InBack,
        Easing::OutBack,
        Easing::InOutBack,
    ];
    for curve in curves {
        assert_eq!(curve.apply(Fx::zero()).raw, 0);
        assert_eq!(curve.apply(Fx::one()).raw, FX_ONE_RAW);
    }
}

#[test]
fn back_curves_evaluate_as_identity() {
    let t = Fx::ratio(2, 5);
    assert_eq!(IN_BACK.apply(t).raw, t.raw);
    assert_eq!(OUT_BACK.apply(t).raw, t.raw);
    assert_eq!(IN_OUT_BACK.apply(t).raw, t.raw);
}
