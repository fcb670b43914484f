//! The clip timeline tree: time-scoped nodes owning children and effect
//! instances, resolved per frame into an ordered render event list.
//!
//! A node is active for an outer frame iff `start <= frame < end`, the end
//! defaulting to the enclosing window when unset; inactive subtrees are
//! skipped whole. Resolution is depth-first: an active node composes its
//! transform under its parent's, resolves its children first, then emits
//! its own transform and effects — children draw behind, the node's own
//! effects draw in front.

use crate::effect::{Effect, EffectData, EffectRegistry};
use crate::fx::Fx;
use crate::render::{RenderEvent, RenderEventView};
use crate::timing::{derive_clip_spec, IntoFrame, Time, TimeSpan};
use crate::transform::{
    mat_mul_spec, opengl_to_wgpu_spec, transform_matrix_spec, Mat4, Transform,
};
use vstd::prelude::*;

verus! {

/// A clip's descriptive information: an optional name and how long it
/// runs.
#[derive(Clone, Debug)]
pub struct ClipInfo {
    /// The clip's name, if it was given one.
    pub name: Option<String>,
    /// How long the clip runs.
    pub duration: TimeSpan,
}

/// A time-scoped node of the timeline tree, exclusively owning its
/// children and effect instances.
pub struct Clip<P> {
    /// First frame of the window; unset plays from frame zero.
    pub start: Option<u64>,
    /// Frame the window ends before; unset plays until the enclosing
    /// window ends.
    pub end: Option<u64>,
    /// The node's own placement, composed under its parent's.
    pub transform: Transform,
    /// The children, resolved before the node's own effects.
    pub children: Vec<Clip<P>>,
    /// The effect instances attached to this node.
    pub effects: Vec<EffectData<P>>,
    /// The frame rate used to convert authored times.
    pub fps: u64,
}

impl<P> Clip<P> {
    /// The first frame of the window.
    pub open spec fn start_val(self) -> u64 {
        match self.start {
            Some(s) => s,
            None => 0,
        }
    }

    /// The frame the window ends before, defaulting to the enclosing end.
    pub open spec fn end_val(self, parent_end: u64) -> u64 {
        match self.end {
            Some(e) => e,
            None => parent_end,
        }
    }

    /// Whether the node is active at an outer frame: within the half-open
    /// window `[start, end)`.
    pub open spec fn active_spec(self, frame: u64, parent_end: u64) -> bool {
        self.start_val() <= frame < self.end_val(parent_end)
    }

    /// Well-formedness of the subtree: an explicit window is ordered, the
    /// frame rate is positive, and every child is well formed at the same
    /// rate.
    pub open spec fn wf(self) -> bool
        decreases self,
    {
        &&& self.fps > 0
        &&& match (self.start, self.end) {
            (Some(s), Some(e)) => s <= e,
            _ => true,
        }
        &&& forall|i: int|
            0 <= i < self.children@.len() ==> (#[trigger] self.children@[i]).wf()
                && self.children@[i].fps == self.fps
    }

    /// The first frame of the window.
    pub fn start_frame(&self) -> (r: u64)
        ensures
            r == self.start_val(),
    {
        match self.start {
            Some(s) => s,
            None => 0,
        }
    }

    /// The frame the window ends before, given the enclosing end.
    pub fn end_frame(&self, parent_end: u64) -> (r: u64)
        ensures
            r == self.end_val(parent_end),
    {
        match self.end {
            Some(e) => e,
            None => parent_end,
        }
    }

    /// Whether the node is active at an outer frame.
    pub fn in_time_frame(&self, frame: u64, parent_end: u64) -> (r: bool)
        ensures
            r == self.active_spec(frame, parent_end),
    {
        self.start_frame() <= frame && frame < self.end_frame(parent_end)
    }

    /// How far through its window an active node is at an outer frame.
    pub fn progress(&self, frame: u64, parent_end: u64) -> (r: Fx)
        requires
            self.active_spec(frame, parent_end),
        ensures
            r == Fx::ratio_spec(
                frame - self.start_val(),
                self.end_val(parent_end) - self.start_val(),
            ),
    {
        let s = self.start_frame();
        let e = self.end_frame(parent_end);
        Fx::ratio(frame - s, e - s)
    }

    /// The root clip of a video: a window from frame zero to the video's
    /// whole duration.
    pub fn empty(duration: TimeSpan, fps: u64) -> (r: Clip<P>)
        requires
            fps > 0,
            duration.wf(),
        ensures
            r.start == Some(0u64),
            r.end == Some(duration.frame_spec(fps) as u64),
            r.children@.len() == 0,
            r.effects@.len() == 0,
            r.fps == fps,
            r.wf(),
    {
        Clip {
            start: Some(0),
            end: Some(duration.into_frame(fps)),
            transform: Transform::default(),
            children: Vec::new(),
            effects: Vec::new(),
            fps,
        }
    }

    /// Creates a child scoped to the half-open window `[start, end)` and
    /// hands back its index among the children.
    pub fn new_clip<F: IntoFrame>(&mut self, start: F, end: F) -> (idx: usize)
        requires
            old(self).wf(),
            start.wf_spec(),
            end.wf_spec(),
            start.frame_spec(old(self).fps) <= end.frame_spec(old(self).fps),
        ensures
            idx == old(self).children@.len(),
            final(self).children@.len() == old(self).children@.len() + 1,
            forall|i: int|
                0 <= i < old(self).children@.len() ==> final(self).children@[i]
                    == old(self).children@[i],
            final(self).children@.last().start == Some(
                start.frame_spec(old(self).fps) as u64,
            ),
            final(self).children@.last().end == Some(end.frame_spec(old(self).fps) as u64),
            final(self).children@.last().children@.len() == 0,
            final(self).children@.last().effects@.len() == 0,
            final(self).children@.last().fps == old(self).fps,
            final(self).start == old(self).start,
            final(self).end == old(self).end,
            final(self).effects == old(self).effects,
            final(self).fps == old(self).fps,
            final(self).wf(),
    {
        let child: Clip<P> = Clip {
            start: Some(start.into_frame(self.fps)),
            end: Some(end.into_frame(self.fps)),
            transform: Transform::default(),
            children: Vec::new(),
            effects: Vec::new(),
            fps: self.fps,
        };
        let idx = self.children.len();
        self.children.push(child);
        proof {
            assert forall|i: int| 0 <= i < self.children@.len() implies (#[trigger] self.children@[i]).wf()
                && self.children@[i].fps == self.fps by {
                if i < old(self).children@.len() {
                    assert(old(self).children@[i].wf());
                } else {
                    assert(self.children@[i].children@.len() == 0);
                }
            }
        }
        idx
    }

    /// Attaches an already-built child behind the existing ones.
    pub fn push_clip(&mut self, child: Clip<P>)
        requires
            old(self).wf(),
            child.wf(),
            child.fps == old(self).fps,
        ensures
            final(self).children@ == old(self).children@.push(child),
            final(self).start == old(self).start,
            final(self).end == old(self).end,
            final(self).effects == old(self).effects,
            final(self).transform == old(self).transform,
            final(self).fps == old(self).fps,
            final(self).wf(),
    {
        self.children.push(child);
    }
}

impl<P: Effect> Clip<P> {
    /// Attaches one effect instance. Its concrete type's kind id comes from
    /// the registry: assigned earlier if the type was ever seen, fresh and
    /// dense otherwise.
    pub fn effect(&mut self, registry: &mut EffectRegistry, params: P) -> (id: usize)
        requires
            old(self).wf(),
            old(registry).wf(),
        ensures
            final(registry).wf(),
            final(registry).keys@.len() >= old(registry).keys@.len(),
            id < final(registry).keys@.len(),
            final(registry).keys@[id as int] == params.kind_key_spec(),
            crate::effect::registry_has(old(registry).keys@, params.kind_key_spec())
                ==> *final(registry) == *old(registry),
            !crate::effect::registry_has(old(registry).keys@, params.kind_key_spec())
                ==> final(registry).keys@ == old(registry).keys@.push(params.kind_key_spec())
                && id == old(registry).keys@.len(),
            final(self).effects@ == old(self).effects@.push(EffectData { id, params }),
            final(self).start == old(self).start,
            final(self).end == old(self).end,
            final(self).children == old(self).children,
            final(self).fps == old(self).fps,
            final(self).wf(),
            clip_ids_bounded(*old(self), old(registry).keys@.len() as int) ==> clip_ids_bounded(
                *final(self),
                final(registry).keys@.len() as int,
            ),
    {
        let key = params.type_key();
        let id = registry.register(key);
        self.effects.push(EffectData { id, params });
        proof {
            if clip_ids_bounded(*old(self), old(registry).keys@.len() as int) {
                lemma_children_ids_bounded_monotone(
                    self.children@,
                    old(registry).keys@.len() as int,
                    registry.keys@.len() as int,
                );
            }
        }
        id
    }
}

/// A subtree whose ids lie below `n` also lies below any larger bound:
/// registering further kinds never unsettles an already-consistent tree.
pub proof fn lemma_clip_ids_bounded_monotone<P>(clip: Clip<P>, n: int, m: int)
    requires
        clip_ids_bounded(clip, n),
        n <= m,
    ensures
        clip_ids_bounded(clip, m),
    decreases clip, 1int,
{
    lemma_children_ids_bounded_monotone(clip.children@, n, m);
}

proof fn lemma_children_ids_bounded_monotone<P>(children: Seq<Clip<P>>, n: int, m: int)
    requires
        children_ids_bounded(children, n),
        n <= m,
    ensures
        children_ids_bounded(children, m),
    decreases children, 0int,
{
    if children.len() > 0 {
        lemma_clip_ids_bounded_monotone(children[0], n, m);
        lemma_children_ids_bounded_monotone(children.skip(1), n, m);
    }
}

/// The kind ids of one node's effects, in attachment order.
pub open spec fn effect_ids<P>(effects: Seq<EffectData<P>>) -> Seq<usize> {
    effects.map_values(|e: EffectData<P>| e.id)
}

/// Every kind id in a subtree, in traversal order: the node's own effects
/// before its children's, children in order.
pub open spec fn clip_kinds_spec<P>(clip: Clip<P>) -> Seq<usize>
    decreases clip, 1int,
{
    effect_ids(clip.effects@) + children_kinds_spec(clip.children@)
}

/// Every kind id under a row of children, in traversal order.
pub open spec fn children_kinds_spec<P>(children: Seq<Clip<P>>) -> Seq<usize>
    decreases children, 0int,
{
    if children.len() == 0 {
        Seq::empty()
    } else {
        clip_kinds_spec(children[0]) + children_kinds_spec(children.skip(1))
    }
}

/// Keeps the first occurrence of each id and drops the rest, preserving
/// first-seen order.
pub open spec fn first_seen(ids: Seq<usize>) -> Seq<usize>
    decreases ids.len(),
{
    if ids.len() == 0 {
        Seq::empty()
    } else {
        let rest = first_seen(ids.drop_last());
        if rest.contains(ids.last()) {
            rest
        } else {
            rest.push(ids.last())
        }
    }
}

proof fn lemma_first_seen_step(s: Seq<usize>, x: usize)
    ensures
        first_seen(s.push(x)) == if first_seen(s).contains(x) {
            first_seen(s)
        } else {
            first_seen(s).push(x)
        },
{
    assert(s.push(x).drop_last() =~= s);
    assert(s.push(x).last() == x);
}

/// The harvest never hands one kind out twice: the first-seen ids are
/// pairwise distinct.
pub proof fn lemma_first_seen_distinct(ids: Seq<usize>)
    ensures
        forall|i: int, j: int|
            0 <= i < j < first_seen(ids).len() ==> first_seen(ids)[i] != first_seen(ids)[j],
    decreases ids.len(),
{
    if ids.len() > 0 {
        lemma_first_seen_distinct(ids.drop_last());
        let rest = first_seen(ids.drop_last());
        let x = ids.last();
        if !rest.contains(x) {
            assert forall|i: int, j: int|
                0 <= i < j < first_seen(ids).len() implies first_seen(ids)[i]
                != first_seen(ids)[j] by {
                if j == first_seen(ids).len() - 1 {
                    assert(first_seen(ids)[i] == rest[i]);
                    assert(!rest.contains(x));
                }
            }
        }
    }
}

fn contains_id(v: &Vec<usize>, id: usize) -> (r: bool)
    ensures
        r == v@.contains(id),
{
    let n = v.len();
    let mut i: usize = 0;
    while i < n
        invariant
            n == v@.len(),
            0 <= i <= n,
            forall|j: int| 0 <= j < i ==> v@[j] != id,
        decreases n - i,
    {
        if v[i] == id {
            return true;
        }
        i = i + 1;
    }
    false
}

impl<P> Clip<P> {
    fn harvest_into(&self, Ghost(prefix): Ghost<Seq<usize>>, out: &mut Vec<usize>)
        requires
            self.wf(),
            old(out)@ == first_seen(prefix),
        ensures
            final(out)@ == first_seen(prefix + clip_kinds_spec(*self)),
        decreases *self,
    {
        let m = self.effects.len();
        let mut k: usize = 0;
        while k < m
            invariant
                self.wf(),
                m == self.effects@.len(),
                0 <= k <= m,
                out@ == first_seen(prefix + effect_ids(self.effects@.take(k as int))),
            decreases m - k,
        {
            let id = self.effects[k].id;
            proof {
                assert(prefix + effect_ids(self.effects@.take(k + 1)) =~= (prefix + effect_ids(
                    self.effects@.take(k as int),
                )).push(id));
                lemma_first_seen_step(prefix + effect_ids(self.effects@.take(k as int)), id);
            }
            if !contains_id(out, id) {
                out.push(id);
            }
            k = k + 1;
        }
        proof {
            assert(self.effects@.take(m as int) =~= self.effects@);
        }
        let ghost after_own = prefix + effect_ids(self.effects@);
        let n = self.children.len();
        let mut i: usize = 0;
        while i < n
            invariant
                self.wf(),
                n == self.children@.len(),
                0 <= i <= n,
                out@ == first_seen(after_own + children_kinds_spec(self.children@.take(i as int))),
                after_own == prefix + effect_ids(self.effects@),
            decreases n - i,
        {
            let ghost pre = after_own + children_kinds_spec(self.children@.take(i as int));
            let child = &self.children[i];
            child.harvest_into(Ghost(pre), out);
            proof {
                lemma_children_kinds_snoc(self.children@.take(i as int), self.children@[i as int]);
                assert(self.children@.take(i + 1) =~= self.children@.take(i as int).push(
                    self.children@[i as int],
                ));
                assert(after_own + children_kinds_spec(self.children@.take(i + 1)) =~= pre
                    + clip_kinds_spec(self.children@[i as int]));
            }
            i = i + 1;
        }
        proof {
            assert(self.children@.take(n as int) =~= self.children@);
            assert(prefix + clip_kinds_spec(*self) =~= after_own + children_kinds_spec(
                self.children@,
            ));
        }
    }

    /// The one-time harvest pass: walks the whole subtree and hands back
    /// the distinct effect kind ids used, in first-seen traversal order,
    /// so each kind's backend is constructed exactly once.
    pub fn harvest(&self) -> (kinds: Vec<usize>)
        requires
            self.wf(),
        ensures
            kinds@ == first_seen(clip_kinds_spec(*self)),
    {
        let mut out: Vec<usize> = Vec::new();
        proof {
            assert(first_seen(Seq::<usize>::empty()) =~= Seq::<usize>::empty());
            assert(Seq::<usize>::empty() + clip_kinds_spec(*self) =~= clip_kinds_spec(*self));
        }
        self.harvest_into(Ghost(Seq::empty()), &mut out);
        out
    }
}

proof fn lemma_children_kinds_snoc<P>(children: Seq<Clip<P>>, c: Clip<P>)
    ensures
        children_kinds_spec(children.push(c)) == children_kinds_spec(children) + clip_kinds_spec(
            c,
        ),
    decreases children.len(),
{
    reveal_with_fuel(children_kinds_spec, 3);
    if children.len() == 0 {
        assert(children.push(c)[0] == c);
        assert(children.push(c).skip(1) =~= Seq::<Clip<P>>::empty());
        assert(children_kinds_spec(children.push(c)) =~= children_kinds_spec(children)
            + clip_kinds_spec(c));
    } else {
        assert(children.push(c)[0] == children[0]);
        assert(children.push(c).skip(1) =~= children.skip(1).push(c));
        lemma_children_kinds_snoc(children.skip(1), c);
        vstd::seq_lib::lemma_concat_associative(
            clip_kinds_spec(children[0]),
            children_kinds_spec(children.skip(1)),
            clip_kinds_spec(c),
        );
    }
}

/// The events one node's own effects emit at a frame: one push per
/// instance, in attachment order, carrying the parameters evaluated at
/// that frame.
pub open spec fn effects_events_spec<P: Effect>(effects: Seq<EffectData<P>>, frame: u64) -> Seq<
    RenderEventView,
> {
    effects.map_values(
        |e: EffectData<P>|
            RenderEventView::Effect { id: e.id, record: e.params.push_spec(frame), frame },
    )
}

/// The ordered events an active node contributes: its children's events
/// first, then its own transform (with the backend's projection
/// correction) and its own effects.
pub open spec fn resolve_spec<P: Effect>(
    clip: Clip<P>,
    time: Time,
    clip_end: u64,
    parent: Mat4,
) -> Seq<RenderEventView>
    decreases clip, 1int,
{
    let matrix = mat_mul_spec(parent, transform_matrix_spec(clip.transform));
    resolve_children_spec(clip.children@, time, clip_end, matrix, clip.fps) + seq![
        RenderEventView::SetTransform(mat_mul_spec(matrix, opengl_to_wgpu_spec())),
    ] + effects_events_spec(clip.effects@, time.clip_frame)
}

/// The events one child contributes: nothing when it is inactive at the
/// outer frame; otherwise its full resolution under its local frame, time
/// and progress.
pub open spec fn child_events_spec<P: Effect>(
    child: Clip<P>,
    time: Time,
    clip_end: u64,
    matrix: Mat4,
    fps: u64,
) -> Seq<RenderEventView>
    decreases child, 2int,
{
    if child.active_spec(time.clip_frame, clip_end) {
        let cf = (time.clip_frame - child.start_val()) as u64;
        let ct = Fx::ratio_spec(cf as int, fps as int);
        let cp = Fx::ratio_spec(cf as int, child.end_val(clip_end) - child.start_val());
        resolve_spec(
            child,
            derive_clip_spec(time, cf, ct, cp),
            child.end_val(clip_end),
            matrix,
        )
    } else {
        Seq::empty()
    }
}

/// The events of a row of children, in order.
pub open spec fn resolve_children_spec<P: Effect>(
    children: Seq<Clip<P>>,
    time: Time,
    clip_end: u64,
    matrix: Mat4,
    fps: u64,
) -> Seq<RenderEventView>
    decreases children, 0int,
{
    if children.len() == 0 {
        Seq::empty()
    } else {
        child_events_spec(children[0], time, clip_end, matrix, fps) + resolve_children_spec(
            children.skip(1),
            time,
            clip_end,
            matrix,
            fps,
        )
    }
}

/// Whether every effect in the subtree carries a kind id below `n`: true
/// of any tree whose effects were all attached through a registry that
/// assigned fewer than `n` kinds.
pub open spec fn clip_ids_bounded<P>(clip: Clip<P>, n: int) -> bool
    decreases clip, 1int,
{
    (forall|i: int| 0 <= i < clip.effects@.len() ==> (#[trigger] clip.effects@[i]).id < n)
        && children_ids_bounded(clip.children@, n)
}

/// Whether every effect under a row of children carries a kind id below
/// `n`.
pub open spec fn children_ids_bounded<P>(children: Seq<Clip<P>>, n: int) -> bool
    decreases children, 0int,
{
    children.len() == 0 || (clip_ids_bounded(children[0], n) && children_ids_bounded(
        children.skip(1),
        n,
    ))
}

/// Type correctness by construction: when every effect in the tree names a
/// registered kind, no event the tree resolves to names an unknown one, so
/// batching a resolved frame can never abort.
pub proof fn lemma_resolve_kinds_known<P: Effect>(
    clip: Clip<P>,
    time: Time,
    clip_end: u64,
    parent: Mat4,
    n: int,
)
    requires
        clip_ids_bounded(clip, n),
    ensures
        forall|j: int|
            0 <= j < resolve_spec(clip, time, clip_end, parent).len()
                ==> !crate::render::event_kind_unknown(
                #[trigger] resolve_spec(clip, time, clip_end, parent)[j],
                n,
            ),
    decreases clip, 1int,
{
    let matrix = mat_mul_spec(parent, transform_matrix_spec(clip.transform));
    lemma_children_kinds_known(clip.children@, time, clip_end, matrix, clip.fps, n);
    let children_part = resolve_children_spec(clip.children@, time, clip_end, matrix, clip.fps);
    let own_part = effects_events_spec(clip.effects@, time.clip_frame);
    assert forall|j: int|
        0 <= j < resolve_spec(clip, time, clip_end, parent).len()
            implies !crate::render::event_kind_unknown(
            resolve_spec(clip, time, clip_end, parent)[j],
            n,
        ) by {
        let whole = resolve_spec(clip, time, clip_end, parent);
        if j < children_part.len() {
            assert(whole[j] == children_part[j]);
        } else if j == children_part.len() {
            assert(whole[j] == RenderEventView::SetTransform(
                mat_mul_spec(matrix, opengl_to_wgpu_spec()),
            ));
        } else {
            let k = j - children_part.len() - 1;
            assert(whole[j] == own_part[k]);
            assert(own_part[k] == RenderEventView::Effect {
                id: clip.effects@[k].id,
                record: clip.effects@[k].params.push_spec(time.clip_frame),
                frame: time.clip_frame,
            });
            assert(clip.effects@[k].id < n);
        }
    }
}

proof fn lemma_children_kinds_known<P: Effect>(
    children: Seq<Clip<P>>,
    time: Time,
    clip_end: u64,
    matrix: Mat4,
    fps: u64,
    n: int,
)
    requires
        children_ids_bounded(children, n),
    ensures
        forall|j: int|
            0 <= j < resolve_children_spec(children, time, clip_end, matrix, fps).len()
                ==> !crate::render::event_kind_unknown(
                #[trigger] resolve_children_spec(children, time, clip_end, matrix, fps)[j],
                n,
            ),
    decreases children, 2int,
{
    if children.len() > 0 {
        lemma_child_kinds_known(children[0], time, clip_end, matrix, fps, n);
        lemma_children_kinds_known(children.skip(1), time, clip_end, matrix, fps, n);
        let head = child_events_spec(children[0], time, clip_end, matrix, fps);
        let tail = resolve_children_spec(children.skip(1), time, clip_end, matrix, fps);
        assert forall|j: int|
            0 <= j < resolve_children_spec(children, time, clip_end, matrix, fps).len()
                implies !crate::render::event_kind_unknown(
                resolve_children_spec(children, time, clip_end, matrix, fps)[j],
                n,
            ) by {
            let whole = resolve_children_spec(children, time, clip_end, matrix, fps);
            if j < head.len() {
                assert(whole[j] == head[j]);
            } else {
                assert(whole[j] == tail[j - head.len()]);
            }
        }
    }
}

proof fn lemma_child_kinds_known<P: Effect>(
    child: Clip<P>,
    time: Time,
    clip_end: u64,
    matrix: Mat4,
    fps: u64,
    n: int,
)
    requires
        clip_ids_bounded(child, n),
    ensures
        forall|j: int|
            0 <= j < child_events_spec(child, time, clip_end, matrix, fps).len()
                ==> !crate::render::event_kind_unknown(
                #[trigger] child_events_spec(child, time, clip_end, matrix, fps)[j],
                n,
            ),
    decreases child, 3int,
{
    if child.active_spec(time.clip_frame, clip_end) {
        let cf = (time.clip_frame - child.start_val()) as u64;
        let ct = Fx::ratio_spec(cf as int, fps as int);
        let cp = Fx::ratio_spec(cf as int, child.end_val(clip_end) - child.start_val());
        let derived = derive_clip_spec(time, cf, ct, cp);
        lemma_resolve_kinds_known(child, derived, child.end_val(clip_end), matrix, n);
        let ev = resolve_spec(child, derived, child.end_val(clip_end), matrix);
        assert(child_events_spec(child, time, clip_end, matrix, fps) == ev);
        assert forall|j: int|
            0 <= j < child_events_spec(child, time, clip_end, matrix, fps).len()
                implies !crate::render::event_kind_unknown(
                child_events_spec(child, time, clip_end, matrix, fps)[j],
                n,
            ) by {
            assert(child_events_spec(child, time, clip_end, matrix, fps)[j] == ev[j]);
        }
    }
}

proof fn lemma_first_seen_elements(ids: Seq<usize>)
    ensures
        forall|k: int|
            0 <= k < first_seen(ids).len() ==> ids.contains(#[trigger] first_seen(ids)[k]),
    decreases ids.len(),
{
    if ids.len() > 0 {
        lemma_first_seen_elements(ids.drop_last());
        let rest = first_seen(ids.drop_last());
        assert forall|k: int|
            0 <= k < first_seen(ids).len() implies ids.contains(first_seen(ids)[k]) by {
            if k < rest.len() {
                assert(ids.drop_last().contains(rest[k]));
                let i = choose|i: int|
                    0 <= i < ids.drop_last().len() && ids.drop_last()[i] == rest[k];
                assert(ids[i] == first_seen(ids)[k]);
            } else {
                assert(first_seen(ids)[k] == ids.last());
            }
        }
    }
}

proof fn lemma_clip_kinds_bounded<P>(clip: Clip<P>, n: int)
    requires
        clip_ids_bounded(clip, n),
    ensures
        forall|k: int|
            0 <= k < clip_kinds_spec(clip).len() ==> #[trigger] clip_kinds_spec(clip)[k] < n,
    decreases clip, 1int,
{
    lemma_children_kinds_bounded(clip.children@, n);
    let own = effect_ids(clip.effects@);
    let rest = children_kinds_spec(clip.children@);
    assert forall|k: int|
        0 <= k < clip_kinds_spec(clip).len() implies clip_kinds_spec(clip)[k] < n by {
        if k < own.len() {
            assert(clip_kinds_spec(clip)[k] == clip.effects@[k].id);
            assert(clip.effects@[k].id < n);
        } else {
            assert(clip_kinds_spec(clip)[k] == rest[k - own.len()]);
        }
    }
}

proof fn lemma_children_kinds_bounded<P>(children: Seq<Clip<P>>, n: int)
    requires
        children_ids_bounded(children, n),
    ensures
        forall|k: int|
            0 <= k < children_kinds_spec(children).len() ==> #[trigger] children_kinds_spec(
                children,
            )[k] < n,
    decreases children, 2int,
{
    if children.len() > 0 {
        lemma_clip_kinds_bounded(children[0], n);
        lemma_children_kinds_bounded(children.skip(1), n);
        let head = clip_kinds_spec(children[0]);
        let tail = children_kinds_spec(children.skip(1));
        assert forall|k: int|
            0 <= k < children_kinds_spec(children).len() implies children_kinds_spec(children)[k]
            < n by {
            if k < head.len() {
                assert(children_kinds_spec(children)[k] == head[k]);
            } else {
                assert(children_kinds_spec(children)[k] == tail[k - head.len()]);
            }
        }
    }
}

/// The harvest of a consistent tree always registers cleanly: its kind
/// list holds each kind exactly once and every kind it names was assigned
/// by the registry, so backend construction happens exactly once per kind
/// used.
pub proof fn lemma_harvest_registers_each_kind_once<P>(clip: Clip<P>, n: int)
    requires
        clip_ids_bounded(clip, n),
    ensures
        forall|i: int, j: int|
            0 <= i < j < first_seen(clip_kinds_spec(clip)).len() ==> first_seen(
                clip_kinds_spec(clip),
            )[i] != first_seen(clip_kinds_spec(clip))[j],
        forall|k: int|
            0 <= k < first_seen(clip_kinds_spec(clip)).len() ==> #[trigger] first_seen(
                clip_kinds_spec(clip),
            )[k] < n,
{
    let kinds = clip_kinds_spec(clip);
    lemma_first_seen_distinct(kinds);
    lemma_first_seen_elements(kinds);
    lemma_clip_kinds_bounded(clip, n);
    assert forall|k: int|
        0 <= k < first_seen(kinds).len() implies #[trigger] first_seen(kinds)[k] < n by {
        assert(kinds.contains(first_seen(kinds)[k]));
        let i = choose|i: int| 0 <= i < kinds.len() && kinds[i] == first_seen(kinds)[k];
        assert(kinds[i] < n);
    }
}

/// An inactive node is skipped whole: at an outer frame outside its
/// half-open window, a child and its entire subtree contribute no events
/// at all.
pub proof fn lemma_inactive_child_emits_nothing<P: Effect>(
    child: Clip<P>,
    time: Time,
    clip_end: u64,
    matrix: Mat4,
    fps: u64,
)
    requires
        !child.active_spec(time.clip_frame, clip_end),
    ensures
        child_events_spec(child, time, clip_end, matrix, fps) == Seq::<RenderEventView>::empty(),
{
}

proof fn lemma_children_snoc<P: Effect>(
    children: Seq<Clip<P>>,
    c: Clip<P>,
    time: Time,
    clip_end: u64,
    matrix: Mat4,
    fps: u64,
)
    ensures
        resolve_children_spec(children.push(c), time, clip_end, matrix, fps)
            == resolve_children_spec(children, time, clip_end, matrix, fps) + child_events_spec(
            c,
            time,
            clip_end,
            matrix,
            fps,
        ),
    decreases children.len(),
{
    reveal_with_fuel(resolve_children_spec, 3);
    if children.len() == 0 {
        assert(children.push(c)[0] == c);
        assert(children.push(c).skip(1) =~= Seq::<Clip<P>>::empty());
        assert(resolve_children_spec(children.push(c), time, clip_end, matrix, fps)
            =~~= resolve_children_spec(children, time, clip_end, matrix, fps)
            + child_events_spec(c, time, clip_end, matrix, fps));
    } else {
        assert(children.push(c)[0] == children[0]);
        assert(children.push(c).skip(1) =~= children.skip(1).push(c));
        lemma_children_snoc(children.skip(1), c, time, clip_end, matrix, fps);
        vstd::seq_lib::lemma_concat_associative(
            child_events_spec(children[0], time, clip_end, matrix, fps),
            resolve_children_spec(children.skip(1), time, clip_end, matrix, fps),
            child_events_spec(c, time, clip_end, matrix, fps),
        );
    }
}

impl<P: Effect> Clip<P> {
    /// Resolves this node for one frame into its ordered render events:
    /// active children first, depth first, then the node's own transform
    /// and effects.
    pub fn render(&self, time: Time, clip_end: u64, parent_matrix: Mat4) -> (events: Vec<
        RenderEvent,
    >)
        requires
            self.wf(),
        ensures
            events.deep_view() == resolve_spec(*self, time, clip_end, parent_matrix),
        decreases *self,
    {
        let matrix = parent_matrix.mul(&self.transform.matrix());
        let mut events: Vec<RenderEvent> = Vec::new();
        let n = self.children.len();
        let mut i: usize = 0;
        while i < n
            invariant
                self.wf(),
                n == self.children@.len(),
                0 <= i <= n,
                matrix == mat_mul_spec(parent_matrix, transform_matrix_spec(self.transform)),
                events.deep_view() == resolve_children_spec(
                    self.children@.take(i as int),
                    time,
                    clip_end,
                    matrix,
                    self.fps,
                ),
            decreases n - i,
        {
            proof {
                assert(self.children@.take(i + 1) =~= self.children@.take(i as int).push(
                    self.children@[i as int],
                ));
                lemma_children_snoc(
                    self.children@.take(i as int),
                    self.children@[i as int],
                    time,
                    clip_end,
                    matrix,
                    self.fps,
                );
            }
            let child = &self.children[i];
            let cs = child.start_frame();
            let ce = child.end_frame(clip_end);
            if cs <= time.clip_frame && time.clip_frame < ce {
                let cf = time.clip_frame - cs;
                let ct = Fx::ratio(cf, self.fps);
                let cp = Fx::ratio(cf, ce - cs);
                let derived = time.derive_clip(cf, ct, cp);
                let ghost pre_deep = events.deep_view();
                let mut child_events = child.render(derived, ce, matrix);
                let ghost child_deep = child_events.deep_view();
                events.append(&mut child_events);
                proof {
                    assert(events.deep_view() =~~= pre_deep + child_deep);
                }
            } else {
                proof {
                    assert(events.deep_view() + Seq::<RenderEventView>::empty()
                        =~= events.deep_view());
                }
            }
            i = i + 1;
        }
        proof {
            assert(self.children@.take(n as int) =~= self.children@);
        }
        let ghost children_deep = events.deep_view();
        events.push(RenderEvent::SetTransform(matrix.mul(&Mat4::opengl_to_wgpu())));
        proof {
            assert(events.deep_view() =~~= children_deep + seq![
                RenderEventView::SetTransform(mat_mul_spec(matrix, opengl_to_wgpu_spec())),
            ]);
        }
        let ghost head_deep = events.deep_view();
        let m = self.effects.len();
        let mut j: usize = 0;
        while j < m
            invariant
                self.wf(),
                m == self.effects@.len(),
                0 <= j <= m,
                events.deep_view() == head_deep + effects_events_spec(
                    self.effects@.take(j as int),
                    time.clip_frame,
                ),
            decreases m - j,
        {
            let e = &self.effects[j];
            let record = e.params.push(time.clip_frame);
            let ghost pre_deep = events.deep_view();
            events.push(RenderEvent::Effect { id: e.id, record, frame: time.clip_frame });
            proof {
                assert(self.effects@.take(j + 1) =~= self.effects@.take(j as int).push(
                    self.effects@[j as int],
                ));
                assert(effects_events_spec(self.effects@.take(j + 1), time.clip_frame)
                    =~= effects_events_spec(self.effects@.take(j as int), time.clip_frame).push(
                    RenderEventView::Effect {
                        id: self.effects@[j as int].id,
                        record: self.effects@[j as int].params.push_spec(time.clip_frame),
                        frame: time.clip_frame,
                    },
                ));
                assert(events.deep_view() =~~= pre_deep.push(
                    RenderEventView::Effect {
                        id: self.effects@[j as int].id,
                        record: self.effects@[j as int].params.push_spec(time.clip_frame),
                        frame: time.clip_frame,
                    },
                ));
                assert(head_deep + effects_events_spec(self.effects@.take(j as int), time.clip_frame).push(
                    RenderEventView::Effect {
                        id: self.effects@[j as int].id,
                        record: self.effects@[j as int].params.push_spec(time.clip_frame),
                        frame: time.clip_frame,
                    },
                ) =~= (head_deep + effects_events_spec(self.effects@.take(j as int), time.clip_frame)).push(
                    RenderEventView::Effect {
                        id: self.effects@[j as int].id,
                        record: self.effects@[j as int].params.push_spec(time.clip_frame),
                        frame: time.clip_frame,
                    },
                ));
            }
            j = j + 1;
        }
        proof {
            assert(self.effects@.take(m as int) =~= self.effects@);
            assert(children_deep + seq![
                RenderEventView::SetTransform(mat_mul_spec(matrix, opengl_to_wgpu_spec())),
            ] + effects_events_spec(self.effects@, time.clip_frame) =~= head_deep
                + effects_events_spec(self.effects@, time.clip_frame));
        }
        events
    }
}

} // verus!
