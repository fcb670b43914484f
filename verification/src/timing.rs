//! Frame arithmetic: conversions from authored time units to discrete
//! frames, and the per-frame timing context handed down the clip tree.

use crate::fx::Fx;
use vstd::prelude::*;

verus! {

/// Saturates a nonnegative integer at the largest `u64`.
pub open spec fn sat_u64(x: int) -> int {
    if x > u64::MAX as int {
        u64::MAX as int
    } else {
        x
    }
}

/// A quantity of time convertible to a whole number of frames at a given
/// frame rate, by `frame = floor(seconds * fps)`.
pub trait IntoFrame: Sized {
    /// Whether the value is well formed.
    spec fn wf_spec(self) -> bool;

    /// The exact frame count this time denotes at `fps` frames per second.
    spec fn frame_spec(self, fps: u64) -> int;

    /// Converts to a frame count.
    fn into_frame(self, fps: u64) -> (r: u64)
        requires
            self.wf_spec(),
        ensures
            r as int == self.frame_spec(fps),
    ;
}

impl IntoFrame for u64 {
    /// A frame count stands for itself, whatever the rate.
    open spec fn wf_spec(self) -> bool {
        true
    }

    open spec fn frame_spec(self, fps: u64) -> int {
        self as int
    }

    fn into_frame(self, fps: u64) -> (r: u64) {
        self
    }
}

/// A span of wall-clock time: whole seconds plus a sub-second remainder in
/// nanoseconds.
#[derive(Clone, Copy, Debug, PartialEq, Eq, Structural)]
pub struct TimeSpan {
    /// Whole seconds.
    pub secs: u64,
    /// Nanoseconds below one second.
    pub nanos: u32,
}

impl TimeSpan {
    /// A well-formed span keeps its remainder below one second.
    pub open spec fn wf(self) -> bool {
        self.nanos < 1_000_000_000
    }

    /// A span of whole seconds.
    pub fn from_secs(secs: u64) -> (r: TimeSpan)
        ensures
            r == (TimeSpan { secs, nanos: 0 }),
    {
        TimeSpan { secs, nanos: 0 }
    }

    /// A span given in milliseconds.
    pub fn from_millis(millis: u64) -> (r: TimeSpan)
        ensures
            r.secs == millis as int / 1000,
            r.nanos == (millis as int % 1000) * 1_000_000,
            r.wf(),
    {
        TimeSpan { secs: millis / 1000, nanos: ((millis % 1000) as u32) * 1_000_000 }
    }
}

impl IntoFrame for TimeSpan {
    open spec fn wf_spec(self) -> bool {
        self.wf()
    }

    /// `floor(seconds * fps)`, saturating at the largest frame number: the
    /// whole seconds contribute exactly, the remainder contributes its
    /// rounded-down share.
    open spec fn frame_spec(self, fps: u64) -> int {
        sat_u64(self.secs * fps + (self.nanos * fps) / 1_000_000_000)
    }

    fn into_frame(self, fps: u64) -> (r: u64)
    {
        proof {
            let s = self.secs as int;
            let f = fps as int;
            let n = self.nanos as int;
            assert(0 <= s * f <= 0xFFFF_FFFF_FFFF_FFFF * 0xFFFF_FFFF_FFFF_FFFF)
                by (nonlinear_arith)
                requires
                    0 <= s <= 0xFFFF_FFFF_FFFF_FFFF,
                    0 <= f <= 0xFFFF_FFFF_FFFF_FFFF,
            ;
            assert(0 <= n * f <= 999_999_999 * 0xFFFF_FFFF_FFFF_FFFF) by (nonlinear_arith)
                requires
                    0 <= n <= 999_999_999,
                    0 <= f <= 0xFFFF_FFFF_FFFF_FFFF,
            ;
            vstd::arithmetic::div_mod::lemma_div_is_ordered(
                n * f,
                999_999_999int * 0xFFFF_FFFF_FFFF_FFFF,
                1_000_000_000,
            );
        }
        let whole: u128 = (self.secs as u128) * (fps as u128);
        let part: u128 = ((self.nanos as u128) * (fps as u128)) / 1_000_000_000;
        let total: u128 = whole + part;
        if total > u64::MAX as u128 {
            u64::MAX
        } else {
            total as u64
        }
    }
}

/// The timing context of one output frame, at the three nesting
/// granularities: the whole video, the enclosing clip (the sequence), and
/// the current clip.
#[derive(Clone, Copy, Debug, PartialEq, Eq, Structural)]
pub struct Time {
    /// Current frame of the whole video.
    pub video_frame: u64,
    /// Current frame relative to the first frame of the enclosing clip.
    pub sequence_frame: u64,
    /// Current frame relative to the first frame of this clip.
    pub clip_frame: u64,
    /// Seconds since the start of the video.
    pub video_time: Fx,
    /// Seconds since the start of the enclosing clip.
    pub sequence_time: Fx,
    /// Seconds since the start of this clip.
    pub clip_time: Fx,
    /// Progress through the video, from zero to one.
    pub video_progress: Fx,
    /// Progress through the enclosing clip, from zero to one.
    pub sequence_progress: Fx,
    /// Progress through this clip, from zero to one.
    pub clip_progress: Fx,
}

/// The context a child clip sees: the old clip scope becomes the sequence
/// scope and the child's own frame, time and progress take the clip scope.
pub open spec fn derive_clip_spec(t: Time, clip_frame: u64, clip_time: Fx, clip_progress: Fx) -> Time {
    Time {
        sequence_frame: t.clip_frame,
        sequence_time: t.clip_time,
        sequence_progress: t.clip_progress,
        clip_frame,
        clip_time,
        clip_progress,
        ..t
    }
}

impl Time {
    /// The context seen by a child clip: the old clip scope becomes the
    /// sequence scope and the child's own frame, time and progress take the
    /// clip scope.
    pub fn derive_clip(self, clip_frame: u64, clip_time: Fx, clip_progress: Fx) -> (r: Time)
        ensures
            r == derive_clip_spec(self, clip_frame, clip_time, clip_progress),
    {
        Time {
            sequence_frame: self.clip_frame,
            sequence_time: self.clip_time,
            sequence_progress: self.clip_progress,
            clip_frame,
            clip_time,
            clip_progress,
            ..self
        }
    }

    /// The context of frame `frame` at the top of the tree, where all
    /// three granularities coincide, as a spec value.
    pub open spec fn at_root_spec(frame: u64, fps: u64, total_frames: u64) -> Time
        recommends
            fps > 0,
            total_frames > 0,
    {
        Time {
            video_frame: frame,
            sequence_frame: frame,
            clip_frame: frame,
            video_time: Fx::ratio_spec(frame as int, fps as int),
            sequence_time: Fx::ratio_spec(frame as int, fps as int),
            clip_time: Fx::ratio_spec(frame as int, fps as int),
            video_progress: Fx::ratio_spec(frame as int, total_frames as int),
            sequence_progress: Fx::ratio_spec(frame as int, total_frames as int),
            clip_progress: Fx::ratio_spec(frame as int, total_frames as int),
        }
    }

    /// The context of frame `frame` at the top of the tree, where all three
    /// granularities coincide.
    pub fn at_root(frame: u64, fps: u64, total_frames: u64) -> (r: Time)
        requires
            fps > 0,
            total_frames > 0,
        ensures
            r == Time::at_root_spec(frame, fps, total_frames),
    {
        let time = Fx::ratio(frame, fps);
        let progress = Fx::ratio(frame, total_frames);
        Time {
            video_frame: frame,
            sequence_frame: frame,
            clip_frame: frame,
            video_time: time,
            sequence_time: time,
            clip_time: time,
            video_progress: progress,
            sequence_progress: progress,
            clip_progress: progress,
        }
    }
}

} // verus!
