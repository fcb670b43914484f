use vide::animation::{AnimatedProperty, AnimatedPropertyBuilder, Keyframe, KeyframeTiming};
use vide::ease::{Easing, LINEAR, OUT_CUBIC, OUT_QUADRATIC};
use vide::error::AuthoringError;
use vide::fx::Fx;

fn single_anchor(frame: u64, value: Fx) -> AnimatedProperty<Fx> {
    AnimatedPropertyBuilder::new(60)
        .keyframe(KeyframeTiming::Abs(0u64), LINEAR, Fx::zero())
        .keyframe(KeyframeTiming::Abs(frame), LINEAR, value)
        .build()
        .unwrap()
}

#[test]
fn evaluate_zero_returns_the_initial_value() {
    let initial = Fx::from_int(7);
    let plain = AnimatedPropertyBuilder::<Fx>::new(60)
        .keyframe(KeyframeTiming::Abs(0u64), LINEAR, initial)
        .build()
        .unwrap();
    assert_eq!(plain.evaluate(0).raw, initial.raw);

    let with_later_anchor = AnimatedPropertyBuilder::new(60)
        .keyframe(KeyframeTiming::Abs(0u64), LINEAR, initial)
        .keyframe(KeyframeTiming::Abs(30u64), OUT_CUBIC, Fx::from_int(100))
        .build()
        .unwrap();
    assert_eq!(with_later_anchor.evaluate(0).raw, initial.raw);
}

#[test]
fn no_extrapolation_past_the_last_anchor() {
    let p = single_anchor(30, Fx::from_int(10));
    assert_eq!(p.evaluate(1000).raw, Fx::from_int(10).raw);
    assert_eq!(p.evaluate(31).raw, Fx::from_int(10).raw);
}

#[test]
fn evaluate_exactly_at_an_anchor_gives_its_value() {
    let p = single_anchor(30, Fx::from_int(10));
    assert_eq!(p.evaluate(30).raw, Fx::from_int(10).raw);
}

#[test]
fn evaluate_between_anchors_interpolates() {
    let p = single_anchor(30, Fx::from_int(10));
    assert_eq!(p.evaluate(15).raw, Fx::from_int(5).raw);
}

#[test]
fn eased_segment_at_midpoint() {
    let p: AnimatedProperty<i64> = AnimatedPropertyBuilder::new(60)
        .keyframe(KeyframeTiming::Abs(0u64), LINEAR, 0i64)
        .keyframe(KeyframeTiming::Abs(30u64), OUT_QUADRATIC, 255i64)
        .build()
        .unwrap();
    // At the midpoint the eased progress is 0.75; 255 * 0.75 rounds to 191.
    assert_eq!(p.evaluate(15), 191);
}

#[test]
fn relative_keyframe_offsets_from_the_previous_anchor() {
    let p = AnimatedPropertyBuilder::new(60)
        .keyframe(KeyframeTiming::Abs(0u64), LINEAR, Fx::zero())
        .keyframe(KeyframeTiming::Abs(10u64), LINEAR, Fx::from_int(1))
        .keyframe(KeyframeTiming::Rel(5u64), LINEAR, Fx::from_int(2))
        .build()
        .unwrap();
    assert_eq!(p.keyframes.len(), 2);
    assert_eq!(p.keyframes[0].frame, 10);
    assert_eq!(p.keyframes[1].frame, 15);
}

#[test]
fn hold_matches_a_relative_keyframe_with_the_previous_value() {
    let base = || {
        AnimatedPropertyBuilder::new(60)
            .keyframe(KeyframeTiming::Abs(0u64), LINEAR, Fx::zero())
            .keyframe(KeyframeTiming::Abs(10u64), OUT_CUBIC, Fx::from_int(4))
    };
    let held = base().hold(5u64).build().unwrap();
    let spelled = base()
        .keyframe(KeyframeTiming::Rel(5u64), LINEAR, Fx::from_int(4))
        .build()
        .unwrap();
    assert_eq!(held.keyframes.len(), spelled.keyframes.len());
    for (a, b) in held.keyframes.iter().zip(spelled.keyframes.iter()) {
        assert_eq!(a.frame, b.frame);
        assert_eq!(a.easing, b.easing);
        assert_eq!(a.value.raw, b.value.raw);
    }
    // The held value delays the next transition: it is constant on the hold.
    assert_eq!(held.evaluate(12).raw, Fx::from_int(4).raw);
    assert_eq!(held.evaluate(15).raw, Fx::from_int(4).raw);
}

#[test]
fn hold_before_any_value_fails_the_build() {
    let r = AnimatedPropertyBuilder::<Fx>::new(60).hold(5u64).build();
    assert_eq!(r.unwrap_err(), AuthoringError::MissingInitial);
}

#[test]
fn build_without_initial_fails() {
    let r = AnimatedPropertyBuilder::new(60)
        .keyframe(KeyframeTiming::Abs(10u64), LINEAR, Fx::one())
        .build();
    assert_eq!(r.unwrap_err(), AuthoringError::MissingInitial);
}

#[test]
fn build_rejects_non_increasing_frames() {
    let r = AnimatedPropertyBuilder::new(60)
        .keyframe(KeyframeTiming::Abs(0u64), LINEAR, Fx::zero())
        .keyframe(KeyframeTiming::Abs(10u64), LINEAR, Fx::one())
        .keyframe(KeyframeTiming::Abs(5u64), LINEAR, Fx::one())
        .build();
    assert_eq!(r.unwrap_err(), AuthoringError::NonIncreasingFrames);
}

#[test]
fn build_rejects_a_duplicated_frame() {
    let r = AnimatedPropertyBuilder::new(60)
        .keyframe(KeyframeTiming::Abs(0u64), LINEAR, Fx::zero())
        .keyframe(KeyframeTiming::Abs(10u64), LINEAR, Fx::one())
        .keyframe(KeyframeTiming::Abs(10u64), LINEAR, Fx::one())
        .build();
    assert_eq!(r.unwrap_err(), AuthoringError::NonIncreasingFrames);
}

#[test]
fn absolute_zero_overwrites_the_initial_value() {
    let p = AnimatedPropertyBuilder::new(60)
        .keyframe(KeyframeTiming::Abs(0u64), LINEAR, Fx::from_int(1))
        .keyframe(KeyframeTiming::Abs(0u64), LINEAR, Fx::from_int(2))
        .build()
        .unwrap();
    assert_eq!(p.keyframes.len(), 0);
    assert_eq!(p.evaluate(0).raw, Fx::from_int(2).raw);
}

#[test]
fn zero_length_segment_steps_instead_of_dividing() {
    let kfs = vec![Keyframe { frame: 0, easing: Easing::Linear, value: Fx::from_int(9) }];
    let p = AnimatedProperty::new(Fx::from_int(1), kfs);
    // The synthetic anchor and the first keyframe coincide at frame zero:
    // an instantaneous step to the initial value, never a division fault.
    assert_eq!(p.evaluate(0).raw, Fx::from_int(1).raw);
    assert_eq!(p.evaluate(1).raw, Fx::from_int(9).raw);
}

#[test]
fn push_keyframe_appends_behind_the_existing_anchors() {
    let mut p = single_anchor(30, Fx::from_int(10));
    p.push_keyframe(Keyframe { frame: 60, easing: Easing::Linear, value: Fx::from_int(20) });
    assert_eq!(p.keyframes.len(), 2);
    assert_eq!(p.evaluate(45).raw, Fx::from_int(15).raw);
}
