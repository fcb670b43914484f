//! Animated properties: a keyframe sequence per parameter, evaluated at any
//! frame by eased interpolation between the two enclosing anchors.

use crate::ease::{ease_val, Easing};
use crate::error::AuthoringError;
use crate::fx::{fx_ratio_val, Fx};
use crate::interpolate::Interpolate;
use crate::timing::{sat_u64, IntoFrame};
use vstd::prelude::*;

verus! {

/// One animation anchor: entering this keyframe from the previous anchor
/// eases by `easing` and lands on `value` at `frame`.
#[derive(Clone, Copy, Debug)]
pub struct Keyframe<T> {
    /// The frame this anchor lands on.
    pub frame: u64,
    /// The curve governing the transition into this anchor.
    pub easing: Easing,
    /// The value reached at `frame`.
    pub value: T,
}

/// Whether the anchors are ordered strictly by frame, so that every
/// animation segment has positive length and no frame is anchored twice.
pub open spec fn frames_strictly_increasing<T>(kfs: Seq<Keyframe<T>>) -> bool {
    forall|i: int, j: int| 0 <= i < j < kfs.len() ==> kfs[i].frame < kfs[j].frame
}

/// The value of the segment entering `next` from the anchor
/// `(prev_frame, prev_value)`, sampled at `frame`. A zero-length segment is
/// an instantaneous step to the previous value, never a division fault.
pub open spec fn segment_val<T: Interpolate>(
    prev_frame: u64,
    prev_value: T,
    next: Keyframe<T>,
    frame: u64,
) -> T
    recommends
        prev_frame <= frame <= next.frame,
{
    if next.frame == prev_frame {
        prev_value
    } else {
        T::lerp_spec(
            prev_value,
            next.value,
            ease_val(
                next.easing,
                fx_ratio_val(frame - prev_frame, next.frame - prev_frame),
            ),
        )
    }
}

/// Scans the anchors for the first segment that contains `frame`, carrying
/// the most recent anchor along; past the last anchor the last value holds
/// unchanged.
pub open spec fn eval_scan<T: Interpolate>(
    prev_frame: u64,
    prev_value: T,
    kfs: Seq<Keyframe<T>>,
    frame: u64,
) -> T
    decreases kfs.len(),
{
    if kfs.len() == 0 {
        prev_value
    } else if frame <= kfs[0].frame {
        segment_val(prev_frame, prev_value, kfs[0], frame)
    } else {
        eval_scan(kfs[0].frame, kfs[0].value, kfs.skip(1), frame)
    }
}

/// The value an animated property takes at `frame`: the initial value acts
/// as a synthetic linear anchor at frame zero.
pub open spec fn eval_spec<T: Interpolate>(initial: T, kfs: Seq<Keyframe<T>>, frame: u64) -> T {
    eval_scan(0, initial, kfs, frame)
}

impl<T: Interpolate + Copy> Keyframe<T> {
    /// Samples the segment entering this anchor from `previous`: the
    /// easing of this anchor reparameterizes the progress between the two
    /// frames.
    pub fn evaluate(&self, previous: &Keyframe<T>, frame: u64) -> (r: T)
        requires
            previous.frame <= frame <= self.frame,
        ensures
            r == segment_val(previous.frame, previous.value, *self, frame),
    {
        segment(previous.frame, previous.value, self, frame)
    }
}

/// A parameter animated over frames: an initial value plus a sequence of
/// anchors ordered strictly by frame.
#[derive(Debug)]
pub struct AnimatedProperty<T> {
    /// The value before the first anchor, acting as a linear anchor at
    /// frame zero.
    pub initial: T,
    /// The anchors, ordered strictly by frame.
    pub keyframes: Vec<Keyframe<T>>,
}

fn segment<T: Interpolate + Copy>(
    prev_frame: u64,
    prev_value: T,
    next: &Keyframe<T>,
    frame: u64,
) -> (r: T)
    requires
        prev_frame <= frame <= next.frame,
    ensures
        r == segment_val(prev_frame, prev_value, *next, frame),
{
    if next.frame == prev_frame {
        prev_value
    } else {
        let t = Fx::ratio(frame - prev_frame, next.frame - prev_frame);
        T::interpolate(prev_value, next.value, next.easing.apply(t))
    }
}

impl<T: Interpolate + Copy> AnimatedProperty<T> {
    /// Whether the property is well formed: its anchors are ordered
    /// strictly by frame.
    pub open spec fn wf(self) -> bool {
        frames_strictly_increasing(self.keyframes@)
    }

    /// Builds a property from its initial value and ordered anchors.
    pub fn new(initial: T, keyframes: Vec<Keyframe<T>>) -> (r: AnimatedProperty<T>)
        requires
            frames_strictly_increasing(keyframes@),
        ensures
            r.initial == initial,
            r.keyframes == keyframes,
            r.wf(),
    {
        AnimatedProperty { initial, keyframes }
    }

    /// Appends one anchor behind the existing ones.
    pub fn push_keyframe(&mut self, keyframe: Keyframe<T>)
        requires
            old(self).wf(),
            old(self).keyframes@.len() > 0 ==> old(self).keyframes@.last().frame < keyframe.frame,
        ensures
            final(self).initial == old(self).initial,
            final(self).keyframes@ == old(self).keyframes@.push(keyframe),
            final(self).wf(),
    {
        self.keyframes.push(keyframe);
        proof {
            let kfs = self.keyframes@;
            assert forall|i: int, j: int| 0 <= i < j < kfs.len() implies kfs[i].frame
                < kfs[j].frame by {
                if j == kfs.len() - 1 && i < j - 1 {
                    assert(kfs[i].frame < kfs[j - 1].frame);
                }
            }
        }
    }

    /// Samples the property at `frame`: the exact eased interpolation
    /// between the two enclosing anchors, the initial value before the
    /// first anchor, and the last value past the last anchor.
    pub fn evaluate(&self, frame: u64) -> (r: T)
        ensures
            r == eval_spec(self.initial, self.keyframes@, frame),
    {
        let ghost kfs = self.keyframes@;
        let n = self.keyframes.len();
        if n == 0 {
            return self.initial;
        }
        if frame <= self.keyframes[0].frame {
            return segment(0, self.initial, &self.keyframes[0], frame);
        }
        let mut i: usize = 0;
        while i + 1 < n
            invariant
                kfs == self.keyframes@,
                n == kfs.len(),
                0 <= i < n,
                frame > kfs[i as int].frame,
                eval_spec(self.initial, kfs, frame) == eval_scan(
                    kfs[i as int].frame,
                    kfs[i as int].value,
                    kfs.skip(i + 1),
                    frame,
                ),
            decreases n - i,
        {
            if frame <= self.keyframes[i + 1].frame {
                assert(kfs.skip(i + 1)[0] == kfs[i + 1]);
                return segment(
                    self.keyframes[i].frame,
                    self.keyframes[i].value,
                    &self.keyframes[i + 1],
                    frame,
                );
            }
            proof {
                assert(kfs.skip(i + 1)[0] == kfs[i + 1]);
                assert(kfs.skip(i + 1).skip(1) =~= kfs.skip(i + 2));
            }
            i = i + 1;
        }
        assert(kfs.skip(i + 1).len() == 0);
        self.keyframes[i].value
    }
}

/// When an anchor is authored: `Abs` places it at a frame-equivalent of its
/// own, `Rel` offsets it from the previous anchor's frame, or from frame
/// zero if there is none yet.
#[derive(Clone, Copy, Debug)]
pub enum KeyframeTiming<F> {
    /// An absolute position on the timeline.
    Abs(F),
    /// An offset from the previous anchor.
    Rel(F),
}

/// Whether the time carried by an anchor position is well formed.
pub open spec fn timing_wf<F: IntoFrame>(at: KeyframeTiming<F>) -> bool {
    match at {
        KeyframeTiming::Abs(x) => x.wf_spec(),
        KeyframeTiming::Rel(x) => x.wf_spec(),
    }
}

/// The frame of the last anchor, or zero when there is none.
pub open spec fn last_frame<T>(kfs: Seq<Keyframe<T>>) -> int {
    if kfs.len() == 0 {
        0
    } else {
        kfs.last().frame as int
    }
}

/// The frame an anchor position denotes, given the previous anchor's frame;
/// relative offsets saturate at the largest frame.
pub open spec fn timing_frame_spec<F: IntoFrame, T>(
    at: KeyframeTiming<F>,
    kfs: Seq<Keyframe<T>>,
    fps: u64,
) -> int {
    match at {
        KeyframeTiming::Abs(x) => x.frame_spec(fps),
        KeyframeTiming::Rel(x) => sat_u64(last_frame(kfs) + x.frame_spec(fps)),
    }
}

/// The builder state after one `keyframe` call computing frame `f`: at
/// frame zero the initial value is overwritten instead of anchoring a
/// zero-length segment; elsewhere one anchor is appended.
pub open spec fn keyframe_applied<T>(
    initial: Option<T>,
    kfs: Seq<Keyframe<T>>,
    f: int,
    easing: Easing,
    value: T,
) -> (Option<T>, Seq<Keyframe<T>>)
    recommends
        0 <= f <= u64::MAX,
{
    if f == 0 {
        (Some(value), kfs)
    } else {
        (initial, kfs.push(Keyframe { frame: f as u64, easing, value }))
    }
}

/// The builder state after one `hold` call with frame offset `off`: the
/// previous value is carried forward linearly, delaying the next
/// transition; with no value to carry there is no result.
pub open spec fn hold_applied<T>(initial: Option<T>, kfs: Seq<Keyframe<T>>, off: int) -> Option<
    (Option<T>, Seq<Keyframe<T>>),
>
    recommends
        0 <= off <= u64::MAX,
{
    if kfs.len() > 0 {
        Some(
            (
                initial,
                kfs.push(
                    Keyframe {
                        frame: sat_u64(kfs.last().frame + off) as u64,
                        easing: Easing::Linear,
                        value: kfs.last().value,
                    },
                ),
            ),
        )
    } else if initial is Some {
        Some(
            (
                initial,
                kfs.push(Keyframe { frame: off as u64, easing: Easing::Linear, value: initial->0 }),
            ),
        )
    } else {
        None
    }
}

/// Collects anchors one call at a time and assembles the property, failing
/// on a malformed sequence instead of repairing it.
pub struct AnimatedPropertyBuilder<T> {
    /// The initial value, once one was established.
    pub initial: Option<T>,
    /// The anchors collected so far, in authoring order.
    pub keyframes: Vec<Keyframe<T>>,
    /// The frame rate used to convert authored times to frames.
    pub fps: u64,
    /// Set when a `hold` was issued before any value was established; makes
    /// `build` fail.
    pub hold_failed: bool,
}

impl<T: Interpolate + Copy> AnimatedPropertyBuilder<T> {
    /// An empty builder at the given frame rate.
    pub fn new(fps: u64) -> (r: AnimatedPropertyBuilder<T>)
        ensures
            r.initial is None,
            r.keyframes@.len() == 0,
            r.fps == fps,
            !r.hold_failed,
    {
        AnimatedPropertyBuilder { initial: None, keyframes: Vec::new(), fps, hold_failed: false }
    }

    /// Authors one anchor: at frame zero the initial value is overwritten,
    /// elsewhere an anchor is appended at the denoted frame.
    pub fn keyframe<F: IntoFrame>(self, at: KeyframeTiming<F>, easing: Easing, value: T) -> (r:
        AnimatedPropertyBuilder<T>)
        requires
            timing_wf(at),
        ensures
            (r.initial, r.keyframes@) == keyframe_applied(
                self.initial,
                self.keyframes@,
                timing_frame_spec(at, self.keyframes@, self.fps),
                easing,
                value,
            ),
            r.fps == self.fps,
            r.hold_failed == self.hold_failed,
    {
        let mut this = self;
        let frame: u64 = match at {
            KeyframeTiming::Abs(x) => x.into_frame(this.fps),
            KeyframeTiming::Rel(x) => {
                let off = x.into_frame(this.fps);
                let last: u64 = if this.keyframes.len() > 0 {
                    this.keyframes[this.keyframes.len() - 1].frame
                } else {
                    0
                };
                if last > u64::MAX - off {
                    u64::MAX
                } else {
                    last + off
                }
            },
        };
        if frame == 0 {
            this.initial = Some(value);
            this
        } else {
            this.keyframes.push(Keyframe { frame, easing, value });
            this
        }
    }

    /// Appends an already-built anchor behind the collected ones.
    pub fn push_keyframe(self, keyframe: Keyframe<T>) -> (r: AnimatedPropertyBuilder<T>)
        ensures
            r.keyframes@ == self.keyframes@.push(keyframe),
            r.initial == self.initial,
            r.fps == self.fps,
            r.hold_failed == self.hold_failed,
    {
        let mut this = self;
        this.keyframes.push(keyframe);
        this
    }

    /// Delays the next transition: appends an anchor carrying the previous
    /// value forward linearly for `time`. Issued before any value exists,
    /// it marks the builder failed.
    pub fn hold<F: IntoFrame>(self, time: F) -> (r: AnimatedPropertyBuilder<T>)
        requires
            time.wf_spec(),
        ensures
            r.fps == self.fps,
            match hold_applied(self.initial, self.keyframes@, time.frame_spec(self.fps)) {
                Some(applied) => (r.initial, r.keyframes@) == applied && r.hold_failed
                    == self.hold_failed,
                None => r.initial == self.initial && r.keyframes@ == self.keyframes@
                    && r.hold_failed,
            },
    {
        let mut this = self;
        let off = time.into_frame(this.fps);
        if this.keyframes.len() > 0 {
            let last = this.keyframes[this.keyframes.len() - 1];
            let frame: u64 = if last.frame > u64::MAX - off {
                u64::MAX
            } else {
                last.frame + off
            };
            this.keyframes.push(Keyframe { frame, easing: Easing::Linear, value: last.value });
            this
        } else {
            match this.initial {
                Some(value) => {
                    this.keyframes.push(Keyframe { frame: off, easing: Easing::Linear, value });
                    this
                },
                None => {
                    this.hold_failed = true;
                    this
                },
            }
        }
    }

    /// Assembles the property. Fails when no initial value was ever
    /// established (or a `hold` found none), or when the anchors are not
    /// strictly increasing by frame.
    pub fn build(self) -> (r: Result<AnimatedProperty<T>, AuthoringError>)
        ensures
            match r {
                Ok(p) => !self.hold_failed && self.initial is Some && frames_strictly_increasing(
                    self.keyframes@,
                ) && p.initial == self.initial->0 && p.keyframes@ == self.keyframes@ && p.wf(),
                Err(e) => {
                    &&& (self.hold_failed || self.initial is None
                        || !frames_strictly_increasing(self.keyframes@))
                    &&& e == (if self.hold_failed || self.initial is None {
                        AuthoringError::MissingInitial
                    } else {
                        AuthoringError::NonIncreasingFrames
                    })
                },
            },
    {
        if self.hold_failed {
            return Err(AuthoringError::MissingInitial);
        }
        let initial = match self.initial {
            Some(v) => v,
            None => {
                return Err(AuthoringError::MissingInitial);
            },
        };
        let n = self.keyframes.len();
        let mut i: usize = 0;
        while i + 1 < n
            invariant
                n == self.keyframes@.len(),
                0 <= i <= n,
                n > 0 ==> i < n,
                !self.hold_failed,
                self.initial is Some,
                forall|p: int, q: int|
                    0 <= p < q < self.keyframes@.len() && q <= i ==> self.keyframes@[p].frame
                        < self.keyframes@[q].frame,
            decreases n - i,
        {
            if self.keyframes[i].frame >= self.keyframes[i + 1].frame {
                proof {
                    let kfs = self.keyframes@;
                    assert(!frames_strictly_increasing(kfs)) by {
                        assert(!(kfs[i as int].frame < kfs[i + 1].frame));
                    }
                }
                return Err(AuthoringError::NonIncreasingFrames);
            }
            proof {
                assert forall|p: int, q: int|
                    0 <= p < q < self.keyframes@.len() && q <= i + 1 implies self.keyframes@[p].frame
                    < self.keyframes@[q].frame by {
                    if q == i + 1 && p < i {
                        assert(self.keyframes@[p].frame < self.keyframes@[i as int].frame);
                    }
                }
            }
            i = i + 1;
        }
        proof {
            assert forall|p: int, q: int|
                0 <= p < q < self.keyframes@.len() implies self.keyframes@[p].frame
                < self.keyframes@[q].frame by {
                assert(q <= i);
            }
        }
        Ok(AnimatedProperty { initial, keyframes: self.keyframes })
    }
}

/// A freshly built, unoverridden property evaluates to its declared initial
/// value at frame zero.
pub proof fn lemma_evaluate_at_zero<T: Interpolate>(initial: T, kfs: Seq<Keyframe<T>>)
    ensures
        eval_spec(initial, kfs, 0) == initial,
{
    if kfs.len() > 0 {
        if kfs[0].frame != 0 {
            assert(fx_ratio_val(0, kfs[0].frame as int) == 0) by {
                assert(0int * 65536 == 0);
                assert(0int / (kfs[0].frame as int) == 0) by {
                    vstd::arithmetic::div_mod::lemma_basic_div(0, kfs[0].frame as int);
                }
            }
            crate::ease::lemma_ease_zero(kfs[0].easing);
            T::lemma_lerp_zero(initial, kfs[0].value);
        }
    }
}

proof fn lemma_scan_beyond<T: Interpolate>(
    prev_frame: u64,
    prev_value: T,
    kfs: Seq<Keyframe<T>>,
    frame: u64,
)
    requires
        forall|j: int| 0 <= j < kfs.len() ==> kfs[j].frame < frame,
    ensures
        eval_scan(prev_frame, prev_value, kfs, frame) == if kfs.len() == 0 {
            prev_value
        } else {
            kfs.last().value
        },
    decreases kfs.len(),
{
    if kfs.len() > 0 {
        lemma_scan_beyond(kfs[0].frame, kfs[0].value, kfs.skip(1), frame);
        if kfs.len() > 1 {
            assert(kfs.skip(1).last() == kfs.last());
        }
    }
}

/// No extrapolation: past its last anchor a property holds the last
/// anchor's value unchanged.
pub proof fn lemma_no_extrapolation<T: Interpolate>(initial: T, kfs: Seq<Keyframe<T>>, frame: u64)
    requires
        frames_strictly_increasing(kfs),
        kfs.len() > 0,
        frame > kfs.last().frame,
    ensures
        eval_spec(initial, kfs, frame) == kfs.last().value,
{
    assert forall|j: int| 0 <= j < kfs.len() implies kfs[j].frame < frame by {
        if j < kfs.len() - 1 {
            assert(kfs[j].frame < kfs[kfs.len() - 1].frame);
        }
    }
    lemma_scan_beyond(0, initial, kfs, frame);
}

/// A `hold` after at least one anchor is the same operation as a relative
/// `keyframe` carrying the previous value with linear easing. The one
/// exception is a zero offset from an anchor at frame zero, where the
/// relative `keyframe` would overwrite the initial value instead.
pub proof fn lemma_hold_matches_relative_keyframe<T>(
    initial: Option<T>,
    kfs: Seq<Keyframe<T>>,
    off: int,
)
    requires
        kfs.len() > 0,
        0 <= off <= u64::MAX,
        sat_u64(kfs.last().frame + off) != 0,
    ensures
        hold_applied(initial, kfs, off) == Some(
            keyframe_applied(
                initial,
                kfs,
                sat_u64(kfs.last().frame + off),
                Easing::Linear,
                kfs.last().value,
            ),
        ),
{
}

/// A relative anchor authored after an anchor at frame `F` lands on
/// `F + d`, saturating at the largest frame.
pub proof fn lemma_relative_keyframe_appends<T, F: IntoFrame>(
    at: F,
    kfs: Seq<Keyframe<T>>,
    fps: u64,
)
    requires
        kfs.len() > 0,
    ensures
        timing_frame_spec(KeyframeTiming::Rel(at), kfs, fps) == sat_u64(
            kfs.last().frame + at.frame_spec(fps),
        ),
{
}

} // verus!
