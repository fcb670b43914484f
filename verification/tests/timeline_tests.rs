use vide::animation::{AnimatedPropertyBuilder, KeyframeTiming};
use vide::clip::Clip;
use vide::color::Color;
use vide::ease::{LINEAR, OUT_QUADRATIC};
use vide::effect::EffectRegistry;
use vide::fx::Fx;
use vide::rect::Rect;
use vide::render::RenderEvent;
use vide::timing::TimeSpan;
use vide::transform::Transform;
use vide::video::{Video, VideoSettings};

fn constant_pair(x: i64, y: i64) -> vide::animation::AnimatedProperty<(Fx, Fx)> {
    AnimatedPropertyBuilder::new(60)
        .keyframe(KeyframeTiming::Abs(0u64), LINEAR, (Fx::from_int(x), Fx::from_int(y)))
        .build()
        .unwrap()
}

fn constant_color(c: Color) -> vide::animation::AnimatedProperty<Color> {
    AnimatedPropertyBuilder::new(60)
        .keyframe(KeyframeTiming::Abs(0u64), LINEAR, c)
        .build()
        .unwrap()
}

fn plain_rect() -> Rect {
    Rect {
        position: constant_pair(0, 0),
        size: constant_pair(100, 100),
        color: constant_color(Color::white()),
    }
}

fn effect_events(events: &[RenderEvent]) -> Vec<(usize, u64)> {
    events
        .iter()
        .filter_map(|e| match e {
            RenderEvent::Effect { id, frame, .. } => Some((*id, *frame)),
            _ => None,
        })
        .collect()
}

#[test]
fn child_window_gates_activity_half_open() {
    let mut root: Clip<Rect> = Clip::empty(TimeSpan::from_secs(5), 60);
    let idx = root.new_clip(10u64, 20u64);
    let child = &root.children[idx];
    assert!(!child.in_time_frame(9, 300));
    assert!(child.in_time_frame(10, 300));
    assert!(child.in_time_frame(15, 300));
    assert!(child.in_time_frame(19, 300));
    assert!(!child.in_time_frame(20, 300));
    assert!(!child.in_time_frame(25, 300));
}

#[test]
fn active_child_sees_its_local_frame() {
    let mut registry = EffectRegistry::new();
    let mut root: Clip<Rect> = Clip::empty(TimeSpan::from_secs(5), 60);
    let idx = root.new_clip(10u64, 20u64);
    root.children[idx].effect(&mut registry, plain_rect());

    let video = Video { settings: VideoSettings { fps: 60, ..Default::default() }, root };
    // Outer frame 15 lies in the child's window; its local frame is 5.
    let events = video.resolve_frame(15, 300);
    assert_eq!(effect_events(&events), vec![(0, 5)]);
    // Outside the window the whole subtree is skipped.
    assert!(effect_events(&video.resolve_frame(9, 300)).is_empty());
    assert!(effect_events(&video.resolve_frame(20, 300)).is_empty());
}

#[test]
fn an_unset_end_stops_at_the_enclosing_window() {
    let child: Clip<Rect> = Clip {
        start: Some(5),
        end: None,
        transform: Transform::default(),
        children: Vec::new(),
        effects: Vec::new(),
        fps: 60,
    };
    assert!(child.in_time_frame(9, 10));
    assert!(!child.in_time_frame(10, 10));
    assert_eq!(child.end_frame(10), 10);
}

#[test]
fn an_out_of_parent_window_is_not_clamped() {
    // An explicit child window past the parent's own end stays as authored:
    // the parent's activity check is what gates descent.
    let mut root: Clip<Rect> = Clip::empty(TimeSpan::from_secs(1), 60);
    let idx = root.new_clip(200u64, 250u64);
    assert_eq!(root.children[idx].start, Some(200));
    assert_eq!(root.children[idx].end, Some(250));
    assert!(root.children[idx].in_time_frame(220, 60));
}

#[test]
fn progress_is_the_local_fraction_of_the_window() {
    let mut root: Clip<Rect> = Clip::empty(TimeSpan::from_secs(5), 60);
    let idx = root.new_clip(10u64, 20u64);
    let p = root.children[idx].progress(15, 300);
    assert_eq!(p.raw, Fx::half().raw);
}

#[test]
fn children_draw_behind_the_nodes_own_effects() {
    let mut registry = EffectRegistry::new();
    let mut root: Clip<Rect> = Clip::empty(TimeSpan::from_secs(5), 60);
    let idx = root.new_clip(10u64, 20u64);
    root.children[idx].effect(&mut registry, plain_rect());
    root.effect(&mut registry, plain_rect());

    let video = Video { settings: VideoSettings { fps: 60, ..Default::default() }, root };
    let events = video.resolve_frame(15, 300);
    // The child's push (local frame 5) comes before the root's own push
    // (frame 15).
    assert_eq!(effect_events(&events), vec![(0, 5), (0, 15)]);
}

#[test]
fn harvest_collects_each_kind_once_in_first_seen_order() {
    let mut registry = EffectRegistry::new();
    let mut root: Clip<Rect> = Clip::empty(TimeSpan::from_secs(5), 60);
    let first = root.new_clip(0u64, 10u64);
    root.children[first].effect(&mut registry, plain_rect());
    let second = root.new_clip(10u64, 20u64);
    root.children[second].effect(&mut registry, plain_rect());

    let kinds = root.harvest();
    assert_eq!(kinds, vec![0]);
    assert_eq!(registry.len(), 1);
}

#[test]
fn end_to_end_alpha_at_the_eased_midpoint() {
    // A 150-frame video at 60 fps; one child active on [60, 180) holds a
    // rectangle whose alpha eases from 0 to 255 over its first 30 local
    // frames.
    let mut registry = EffectRegistry::new();
    let settings = VideoSettings {
        fps: 60,
        duration: TimeSpan::from_millis(2500),
        ..Default::default()
    };
    let mut video: Video<Rect> = Video::new(settings);
    assert_eq!(video.settings.total_frames(), 150);

    let idx = video.root.new_clip(60u64, 180u64);
    let fading = Rect {
        position: constant_pair(0, 0),
        size: constant_pair(100, 100),
        color: AnimatedPropertyBuilder::new(60)
            .keyframe(
                KeyframeTiming::Abs(0u64),
                LINEAR,
                Color::from_raw(Fx::one(), Fx::one(), Fx::one(), Fx::zero()),
            )
            .keyframe(
                KeyframeTiming::Abs(30u64),
                OUT_QUADRATIC,
                Color::from_raw(Fx::one(), Fx::one(), Fx::one(), Fx::from_int(255)),
            )
            .build()
            .unwrap(),
    };
    video.root.children[idx].effect(&mut registry, fading);

    // Outer frame 75 is local frame 15 of the child: halfway to the anchor,
    // eased progress 0.75, alpha 255 * 0.75 = 191.25, rounded 191.
    let events = video.resolve_frame(75, 150);
    let pushes = effect_events(&events);
    assert_eq!(pushes, vec![(0, 15)]);
    let alpha = events
        .iter()
        .find_map(|e| match e {
            RenderEvent::Effect { record, .. } => Some(record.fields[7]),
            _ => None,
        })
        .unwrap();
    assert_eq!(alpha.round_to_i64(), 191);
    assert_eq!(alpha.raw as f64 / 65536.0, 255.0 * 0.75);
}
