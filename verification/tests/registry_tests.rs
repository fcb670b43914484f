use vide::effect::{EffectRegistry, InstanceRecord};
use vide::error::InternalConsistencyError;
use vide::fx::Fx;
use vide::render::{KindBatches, RenderEvent};
use vide::transform::Mat4;

fn record(v: i64) -> InstanceRecord {
    InstanceRecord { fields: vec![Fx::from_int(v)] }
}

fn push_event(id: usize, v: i64, frame: u64) -> RenderEvent {
    RenderEvent::Effect { id, record: record(v), frame }
}

#[test]
fn the_same_key_keeps_one_shared_kind_id() {
    let mut registry = EffectRegistry::new();
    let first = registry.register(111);
    let second = registry.register(222);
    assert_eq!(first, 0);
    assert_eq!(second, 1);
    // Registering a key again is idempotent: the id assigned first.
    assert_eq!(registry.register(111), 0);
    assert_eq!(registry.register(222), 1);
    assert_eq!(registry.len(), 2);
}

#[test]
fn distinct_keys_get_distinct_dense_ids() {
    let mut registry = EffectRegistry::new();
    let a = registry.register(7);
    let b = registry.register(8);
    let c = registry.register(9);
    assert_eq!((a, b, c), (0, 1, 2));
    assert!(registry.is_registered(8));
    assert!(!registry.is_registered(10));
}

#[test]
fn collect_batches_groups_by_kind_in_order() {
    let events = vec![
        push_event(0, 10, 1),
        RenderEvent::SetTransform(Mat4::identity()),
        push_event(1, 20, 1),
        push_event(0, 30, 1),
    ];
    let batches = KindBatches::collect_batches(&events, 2).unwrap();
    assert_eq!(batches.batches[0].len(), 2);
    assert_eq!(batches.batches[0][0].fields[0].raw, Fx::from_int(10).raw);
    assert_eq!(batches.batches[0][1].fields[0].raw, Fx::from_int(30).raw);
    assert_eq!(batches.batches[1].len(), 1);
    assert_eq!(batches.batches[1][0].fields[0].raw, Fx::from_int(20).raw);
}

#[test]
fn an_unknown_kind_aborts_the_frame() {
    let events = vec![push_event(5, 1, 0)];
    let r = KindBatches::collect_batches(&events, 1);
    assert_eq!(r.unwrap_err(), InternalConsistencyError::UnknownKind);
}

#[test]
fn draining_returns_exactly_what_was_pushed_since_last_drain() {
    let events = vec![push_event(0, 1, 0), push_event(0, 2, 0)];
    let mut batches = KindBatches::collect_batches(&events, 1).unwrap();
    let drained = batches.take_batch(0);
    assert_eq!(drained.len(), 2);
    assert_eq!(drained[0].fields[0].raw, Fx::from_int(1).raw);
    assert_eq!(drained[1].fields[0].raw, Fx::from_int(2).raw);
    // The batch lived for one frame: a second drain hands back nothing.
    assert!(batches.take_batch(0).is_empty());
}

#[test]
fn register_backends_accepts_a_clean_harvest() {
    let kinds = vec![0usize, 1, 2];
    let batches = KindBatches::register_backends(&kinds, 3).unwrap();
    assert_eq!(batches.kind_count(), 3);
    assert!(batches.batches.iter().all(|b| b.is_empty()));
}

#[test]
fn register_backends_rejects_a_double_harvest() {
    let kinds = vec![0usize, 1, 0];
    let r = KindBatches::register_backends(&kinds, 2);
    assert_eq!(r.unwrap_err(), InternalConsistencyError::DuplicateHarvest);
}

#[test]
fn register_backends_rejects_an_unassigned_kind() {
    let kinds = vec![0usize, 3];
    let r = KindBatches::register_backends(&kinds, 2);
    assert_eq!(r.unwrap_err(), InternalConsistencyError::UnknownKind);
}
