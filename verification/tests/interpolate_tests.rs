use vide::color::Color;
use vide::fx::Fx;
use vide::interpolate::Interpolate;

#[test]
fn blending_a_value_with_itself_is_the_identity() {
    let progresses = [Fx::zero(), Fx::half(), Fx::one(), Fx::from_int(2), Fx::from_int(-1)];
    for t in progresses {
        let a = Fx::ratio(13, 4);
        assert_eq!(Fx::interpolate(a, a, t).raw, a.raw);

        assert_eq!(i64::interpolate(42, 42, t), 42);

        let pair = (Fx::from_int(3), Fx::from_int(-7));
        assert_eq!(<(Fx, Fx)>::interpolate(pair, pair, t), pair);

        let c = Color::from_raw(Fx::ratio(1, 3), Fx::half(), Fx::one(), Fx::zero());
        assert_eq!(Color::interpolate(c, c, t), c);
    }
}

#[test]
fn blending_at_zero_returns_the_start() {
    let a = Fx::from_int(5);
    let b = Fx::from_int(9);
    assert_eq!(Fx::interpolate(a, b, Fx::zero()).raw, a.raw);
    assert_eq!(i64::interpolate(-4, 900, Fx::zero()), -4);
}

#[test]
fn blending_at_one_returns_the_end() {
    let a = Fx::from_int(5);
    let b = Fx::from_int(9);
    assert_eq!(Fx::interpolate(a, b, Fx::one()).raw, b.raw);
    assert_eq!(i64::interpolate(-4, 900, Fx::one()), 900);
}

#[test]
fn overshooting_progress_is_not_clamped() {
    let a = Fx::zero();
    let b = Fx::from_int(10);
    assert_eq!(Fx::interpolate(a, b, Fx::from_int(2)).raw, Fx::from_int(20).raw);
    assert_eq!(Fx::interpolate(a, b, Fx::from_int(-1)).raw, Fx::from_int(-10).raw);
}

#[test]
fn whole_number_blending_rounds_to_nearest() {
    let three_quarters = Fx::ratio(3, 4);
    // 255 * 0.75 = 191.25, which rounds down to 191.
    assert_eq!(i64::interpolate(0, 255, three_quarters), 191);
    // 10 * 0.75 = 7.5, which rounds away from zero to 8.
    assert_eq!(i64::interpolate(0, 10, three_quarters), 8);
}

#[test]
fn composite_values_blend_component_wise() {
    let a = (Fx::zero(), Fx::from_int(10));
    let b = (Fx::from_int(4), Fx::from_int(20));
    let mid = <(Fx, Fx)>::interpolate(a, b, Fx::half());
    assert_eq!(mid.0.raw, Fx::from_int(2).raw);
    assert_eq!(mid.1.raw, Fx::from_int(15).raw);

    let white = Color::white();
    let black = Color::black();
    let grey = Color::interpolate(white, black, Fx::half());
    assert_eq!(grey.r.raw, Fx::half().raw);
    assert_eq!(grey.a.raw, Fx::one().raw);
}
