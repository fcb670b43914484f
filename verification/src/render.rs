//! The wire format the core emits — ordered render events — and the
//! per-kind batching that turns one frame's events into one draw submission
//! per effect kind.
//!
//! The batching protocol: for a given frame every active effect instance of
//! a kind is pushed, in tree traversal order, before that kind is drained;
//! draining hands back exactly the instances pushed since the previous
//! drain, so a batch lives for one frame.

use crate::effect::InstanceRecord;
use crate::error::InternalConsistencyError;
use crate::fx::Fx;
use crate::transform::Mat4;
use vstd::prelude::*;

verus! {

/// One ordered instruction handed to the rendering collaborator.
#[derive(Clone, Debug)]
pub enum RenderEvent {
    /// Writes raw bytes into the numbered backend buffer at an offset.
    WriteBuffer {
        /// Which backend buffer to write.
        buffer: u64,
        /// The byte offset written at.
        offset: u64,
        /// The bytes to write.
        data: Vec<u8>,
    },
    /// Sets the transform under which the following effects draw.
    SetTransform(Mat4),
    /// Pushes one evaluated effect instance of the given kind for `frame`.
    Effect {
        /// The registry-assigned kind id.
        id: usize,
        /// The instance's evaluated parameters.
        record: InstanceRecord,
        /// The frame the instance was evaluated at.
        frame: u64,
    },
}

/// The mathematical shape of a render event.
pub enum RenderEventView {
    /// Writes raw bytes into the numbered backend buffer at an offset.
    WriteBuffer {
        /// Which backend buffer to write.
        buffer: u64,
        /// The byte offset written at.
        offset: u64,
        /// The bytes to write.
        data: Seq<u8>,
    },
    /// Sets the transform under which the following effects draw.
    SetTransform(Mat4),
    /// Pushes one evaluated effect instance of the given kind for `frame`.
    Effect {
        /// The registry-assigned kind id.
        id: usize,
        /// The instance's evaluated parameters.
        record: Seq<Fx>,
        /// The frame the instance was evaluated at.
        frame: u64,
    },
}

impl vstd::view::DeepView for InstanceRecord {
    type V = Seq<Fx>;

    open spec fn deep_view(&self) -> Seq<Fx> {
        self.fields@
    }
}

impl vstd::view::DeepView for RenderEvent {
    type V = RenderEventView;

    open spec fn deep_view(&self) -> RenderEventView {
        match self {
            RenderEvent::WriteBuffer { buffer, offset, data } => RenderEventView::WriteBuffer {
                buffer: *buffer,
                offset: *offset,
                data: data@,
            },
            RenderEvent::SetTransform(m) => RenderEventView::SetTransform(*m),
            RenderEvent::Effect { id, record, frame } => RenderEventView::Effect {
                id: *id,
                record: record@,
                frame: *frame,
            },
        }
    }
}

/// Whether an event pushes an effect instance of kind `id`.
pub open spec fn event_pushes_kind(e: RenderEventView, id: int) -> bool {
    match e {
        RenderEventView::Effect { id: k, .. } => k as int == id,
        _ => false,
    }
}

/// The record an effect event carries.
pub open spec fn event_record(e: RenderEventView) -> Seq<Fx> {
    match e {
        RenderEventView::Effect { record, .. } => record,
        _ => Seq::empty(),
    }
}

/// Whether an event names a kind outside the registered range.
pub open spec fn event_kind_unknown(e: RenderEventView, n_kinds: int) -> bool {
    match e {
        RenderEventView::Effect { id, .. } => id as int >= n_kinds,
        _ => false,
    }
}

/// The batch of kind `id` after one frame's events: the records of exactly
/// the effect events of that kind, in emission order.
pub open spec fn kind_batch_spec(events: Seq<RenderEventView>, id: int) -> Seq<Seq<Fx>>
    decreases events.len(),
{
    if events.len() == 0 {
        Seq::empty()
    } else {
        (if event_pushes_kind(events[0], id) {
            seq![event_record(events[0])]
        } else {
            Seq::empty()
        }) + kind_batch_spec(events.skip(1), id)
    }
}

proof fn lemma_kind_batch_snoc(events: Seq<RenderEventView>, e: RenderEventView, id: int)
    ensures
        kind_batch_spec(events.push(e), id) == kind_batch_spec(events, id) + (
        if event_pushes_kind(e, id) {
            seq![event_record(e)]
        } else {
            Seq::<Seq<Fx>>::empty()
        }),
    decreases events.len(),
{
    reveal_with_fuel(kind_batch_spec, 3);
    let tail: Seq<Seq<Fx>> = if event_pushes_kind(e, id) {
        seq![event_record(e)]
    } else {
        Seq::<Seq<Fx>>::empty()
    };
    if events.len() == 0 {
        assert(events.push(e)[0] == e);
        assert(events.push(e).skip(1) =~= Seq::<RenderEventView>::empty());
        assert(kind_batch_spec(events.push(e), id) =~~= kind_batch_spec(events, id) + tail);
    } else {
        assert(events.push(e)[0] == events[0]);
        assert(events.push(e).skip(1) =~= events.skip(1).push(e));
        lemma_kind_batch_snoc(events.skip(1), e, id);
        let head: Seq<Seq<Fx>> = if event_pushes_kind(events[0], id) {
            seq![event_record(events[0])]
        } else {
            Seq::<Seq<Fx>>::empty()
        };
        assert(kind_batch_spec(events.push(e), id) == head + (kind_batch_spec(events.skip(1), id)
            + tail));
        vstd::seq_lib::lemma_concat_associative(head, kind_batch_spec(events.skip(1), id), tail);
    }
}

/// The per-kind batches of one frame: `batches[k]` accumulates the records
/// pushed for kind `k` since that kind was last drained.
#[derive(Debug)]
pub struct KindBatches {
    /// One batch per registered kind, indexed by kind id.
    pub batches: Vec<Vec<InstanceRecord>>,
}

impl KindBatches {
    /// Empty batches for `n_kinds` registered kinds.
    pub fn new(n_kinds: usize) -> (r: KindBatches)
        ensures
            r.batches.deep_view().len() == n_kinds,
            forall|k: int| 0 <= k < n_kinds ==> r.batches.deep_view()[k].len() == 0,
    {
        let mut batches: Vec<Vec<InstanceRecord>> = Vec::new();
        let mut i: usize = 0;
        while i < n_kinds
            invariant
                0 <= i <= n_kinds,
                batches@.len() == i,
                forall|k: int| 0 <= k < i ==> batches@[k]@.len() == 0,
            decreases n_kinds - i,
        {
            batches.push(Vec::new());
            i = i + 1;
        }
        KindBatches { batches }
    }

    /// How many kinds the batches cover.
    pub fn kind_count(&self) -> (n: usize)
        ensures
            n == self.batches@.len(),
    {
        self.batches.len()
    }

    fn push_record(&mut self, id: usize, rec: InstanceRecord)
        requires
            id < old(self).batches@.len(),
        ensures
            final(self).batches@.len() == old(self).batches@.len(),
            final(self).batches.deep_view() == old(self).batches.deep_view().update(
                id as int,
                old(self).batches.deep_view()[id as int].push(rec@),
            ),
    {
        self.batches[id].push(rec);
        proof {
            assert(self.batches.deep_view() =~~= old(self).batches.deep_view().update(
                id as int,
                old(self).batches.deep_view()[id as int].push(rec@),
            ));
        }
    }

    /// Groups one frame's events into per-kind batches: batch `k` receives
    /// the records of exactly the effect events of kind `k`, in order. An
    /// event naming an unregistered kind is an internal-consistency fault
    /// and aborts the frame.
    pub fn collect_batches(events: &Vec<RenderEvent>, n_kinds: usize) -> (r: Result<
        KindBatches,
        InternalConsistencyError,
    >)
        ensures
            match r {
                Ok(b) => {
                    &&& forall|j: int|
                        0 <= j < events.deep_view().len() ==> !event_kind_unknown(
                            events.deep_view()[j],
                            n_kinds as int,
                        )
                    &&& b.batches.deep_view().len() == n_kinds
                    &&& forall|k: int|
                        0 <= k < n_kinds ==> b.batches.deep_view()[k] == kind_batch_spec(
                            events.deep_view(),
                            k,
                        )
                },
                Err(e) => {
                    &&& e == InternalConsistencyError::UnknownKind
                    &&& exists|j: int|
                        0 <= j < events.deep_view().len() && event_kind_unknown(
                            events.deep_view()[j],
                            n_kinds as int,
                        )
                },
            },
    {
        let ghost evs = events.deep_view();
        let mut b = KindBatches::new(n_kinds);
        let n = events.len();
        let mut i: usize = 0;
        while i < n
            invariant
                evs == events.deep_view(),
                n == events@.len(),
                evs.len() == events@.len(),
                0 <= i <= n,
                b.batches@.len() == n_kinds,
                forall|j: int| 0 <= j < i ==> !event_kind_unknown(evs[j], n_kinds as int),
                forall|k: int|
                    0 <= k < n_kinds ==> b.batches.deep_view()[k] == kind_batch_spec(
                        evs.take(i as int),
                        k,
                    ),
            decreases n - i,
        {
            proof {
                assert(evs[i as int] == events@[i as int].deep_view());
                assert(evs.take(i + 1) =~= evs.take(i as int).push(evs[i as int]));
            }
            match &events[i] {
                RenderEvent::Effect { id, record, .. } => {
                    if *id >= n_kinds {
                        assert(event_kind_unknown(evs[i as int], n_kinds as int));
                        return Err(InternalConsistencyError::UnknownKind);
                    }
                    let ghost pre_deep = b.batches.deep_view();
                    b.push_record(*id, record.clone_record());
                    proof {
                        assert forall|k: int| 0 <= k < n_kinds implies b.batches.deep_view()[k]
                            == kind_batch_spec(evs.take(i + 1), k) by {
                            lemma_kind_batch_snoc(evs.take(i as int), evs[i as int], k);
                            if k == *id {
                                assert(b.batches.deep_view()[k] == pre_deep[k].push(
                                    event_record(evs[i as int]),
                                ));
                                assert(pre_deep[k].push(event_record(evs[i as int])) =~= pre_deep[k]
                                    + seq![event_record(evs[i as int])]);
                            } else {
                                assert(b.batches.deep_view()[k] == pre_deep[k]);
                                assert(pre_deep[k] + Seq::<Seq<Fx>>::empty() =~= pre_deep[k]);
                            }
                        }
                    }
                },
                _ => {
                    proof {
                        assert forall|k: int| 0 <= k < n_kinds implies b.batches.deep_view()[k]
                            == kind_batch_spec(evs.take(i + 1), k) by {
                            lemma_kind_batch_snoc(evs.take(i as int), evs[i as int], k);
                            assert(b.batches.deep_view()[k] + Seq::<Seq<Fx>>::empty()
                                =~= b.batches.deep_view()[k]);
                        }
                    }
                },
            }
            i = i + 1;
        }
        proof {
            assert(evs.take(n as int) =~= evs);
        }
        Ok(b)
    }

    /// Accepts a harvested kind list and sets up one empty batch per
    /// registered kind. A kind outside the registry's range, or one handed
    /// in twice, is an internal-consistency fault: backend construction
    /// happens exactly once per kind or not at all.
    pub fn register_backends(kinds: &Vec<usize>, n_kinds: usize) -> (r: Result<
        KindBatches,
        InternalConsistencyError,
    >)
        ensures
            match r {
                Ok(b) => {
                    &&& forall|i: int| 0 <= i < kinds@.len() ==> kinds@[i] < n_kinds
                    &&& forall|i: int, j: int|
                        0 <= i < j < kinds@.len() ==> kinds@[i] != kinds@[j]
                    &&& b.batches.deep_view().len() == n_kinds
                    &&& forall|k: int| 0 <= k < n_kinds ==> b.batches.deep_view()[k].len() == 0
                },
                Err(e) => {
                    &&& ((exists|i: int| 0 <= i < kinds@.len() && kinds@[i] >= n_kinds) || (
                    exists|i: int, j: int| 0 <= i < j < kinds@.len() && kinds@[i] == kinds@[j]))
                    &&& e == (if exists|i: int| 0 <= i < kinds@.len() && kinds@[i] >= n_kinds {
                        InternalConsistencyError::UnknownKind
                    } else {
                        InternalConsistencyError::DuplicateHarvest
                    })
                },
            },
    {
        let n = kinds.len();
        let mut i: usize = 0;
        while i < n
            invariant
                n == kinds@.len(),
                0 <= i <= n,
                forall|j: int| 0 <= j < i ==> kinds@[j] < n_kinds,
            decreases n - i,
        {
            if kinds[i] >= n_kinds {
                return Err(InternalConsistencyError::UnknownKind);
            }
            i = i + 1;
        }
        let mut i: usize = 0;
        while i < n
            invariant
                n == kinds@.len(),
                0 <= i <= n,
                forall|j: int| 0 <= j < n ==> kinds@[j] < n_kinds,
                forall|p: int, q: int| 0 <= p < q < n && q < i ==> kinds@[p] != kinds@[q],
            decreases n - i,
        {
            let mut j: usize = 0;
            while j < i
                invariant
                    n == kinds@.len(),
                    0 <= j <= i < n,
                    forall|p: int| 0 <= p < n ==> kinds@[p] < n_kinds,
                    forall|p: int| 0 <= p < j ==> kinds@[p] != kinds@[i as int],
                decreases i - j,
            {
                if kinds[j] == kinds[i] {
                    return Err(InternalConsistencyError::DuplicateHarvest);
                }
                j = j + 1;
            }
            proof {
                assert forall|p: int, q: int| 0 <= p < q < n && q < i + 1 implies kinds@[p]
                    != kinds@[q] by {
                    if q == i as int {
                        assert(kinds@[p] != kinds@[i as int]);
                    }
                }
            }
            i = i + 1;
        }
        Ok(KindBatches::new(n_kinds))
    }

    /// Drains one kind's batch: hands back exactly the records pushed for
    /// that kind since the previous drain and leaves the batch empty.
    pub fn take_batch(&mut self, id: usize) -> (r: Vec<InstanceRecord>)
        requires
            id < old(self).batches@.len(),
        ensures
            r.deep_view() == old(self).batches.deep_view()[id as int],
            final(self).batches.deep_view() == old(self).batches.deep_view().update(
                id as int,
                Seq::<Seq<Fx>>::empty(),
            ),
    {
        let mut drained: Vec<InstanceRecord> = Vec::new();
        core::mem::swap(&mut self.batches[id], &mut drained);
        proof {
            assert(self.batches.deep_view() =~~= old(self).batches.deep_view().update(
                id as int,
                Seq::<Seq<Fx>>::empty(),
            ));
            assert(drained.deep_view() =~~= old(self).batches.deep_view()[id as int]);
        }
        drained
    }
}

impl InstanceRecord {
    /// An exact copy of the record.
    pub fn clone_record(&self) -> (r: InstanceRecord)
        ensures
            r@ == self@,
    {
        let mut fields: Vec<Fx> = Vec::new();
        let n = self.fields.len();
        let mut i: usize = 0;
        while i < n
            invariant
                n == self.fields@.len(),
                0 <= i <= n,
                fields@ =~= self.fields@.take(i as int),
            decreases n - i,
        {
            fields.push(self.fields[i]);
            proof {
                assert(fields@ =~= self.fields@.take(i + 1));
            }
            i = i + 1;
        }
        proof {
            assert(self.fields@.take(n as int) =~= self.fields@);
        }
        InstanceRecord { fields }
    }
}

} // verus!
