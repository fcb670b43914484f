//! The frame resolver: per-frame timing context and the resolution of the
//! root clip into one ordered render event list, handed to the rendering
//! and exporting collaborators.

use crate::clip::{resolve_spec, Clip};
use crate::color::{channel_val, Color};
use crate::effect::Effect;
use crate::fx::{Fx, FX_ONE_RAW};
use crate::render::RenderEvent;
use crate::timing::{IntoFrame, Time, TimeSpan};
use crate::transform::{mat_scale_spec, Mat4};
use vstd::prelude::*;

verus! {

/// The fixed parameters of one render job.
#[derive(Clone, Copy, Debug)]
pub struct VideoSettings {
    /// Output frames per second.
    pub fps: u64,
    /// Output width and height in pixels.
    pub resolution: (u32, u32),
    /// How long the video runs.
    pub duration: TimeSpan,
    /// The color the frame is cleared to before drawing.
    pub background_color: Color,
}

impl VideoSettings {
    /// Well-formed settings: a positive rate, positive dimensions, a
    /// well-formed duration.
    pub open spec fn wf(self) -> bool {
        self.fps > 0 && self.resolution.0 > 0 && self.resolution.1 > 0 && self.duration.wf()
    }

    /// How many frames the video has: `floor(seconds * fps)`.
    pub fn total_frames(&self) -> (r: u64)
        requires
            self.duration.wf(),
        ensures
            r as int == self.duration.frame_spec(self.fps),
    {
        self.duration.into_frame(self.fps)
    }
}

impl Default for VideoSettings {
    /// Sixty frames per second, full HD, thirty seconds, near-black
    /// background.
    fn default() -> (r: VideoSettings)
        ensures
            r.fps == 60,
            r.resolution == (1920u32, 1080u32),
            r.duration == (TimeSpan { secs: 30, nanos: 0 }),
            r.background_color == (Color {
                r: channel_val(0x17),
                g: channel_val(0x17),
                b: channel_val(0x17),
                a: Fx { raw: FX_ONE_RAW },
            }),
            r.wf(),
    {
        VideoSettings {
            fps: 60,
            resolution: (1920, 1080),
            duration: TimeSpan::from_secs(30),
            background_color: Color::from_raw(
                Fx::ratio(0x17, 255),
                Fx::ratio(0x17, 255),
                Fx::ratio(0x17, 255),
                Fx::one(),
            ),
        }
    }
}

/// The root transform mapping pixel coordinates to clip space: a scale of
/// `2 / width` and `2 / height`.
pub open spec fn screen_matrix_spec(width: u32, height: u32) -> Mat4
    recommends
        width > 0,
        height > 0,
{
    mat_scale_spec(
        Fx::ratio_spec(2, width as int),
        Fx::ratio_spec(2, height as int),
        Fx { raw: FX_ONE_RAW },
    )
}

/// A video: its settings and the root clip of its timeline.
pub struct Video<P> {
    /// The job's fixed parameters.
    pub settings: VideoSettings,
    /// The root of the clip tree, scoped to the whole video.
    pub root: Clip<P>,
}

impl<P> Video<P> {
    /// A video is well formed when its settings are and its root tree is,
    /// at the settings' frame rate.
    pub open spec fn wf(self) -> bool {
        self.settings.wf() && self.root.wf() && self.root.fps == self.settings.fps
    }

    /// A new video with an empty root clip spanning the whole duration.
    pub fn new(settings: VideoSettings) -> (r: Video<P>)
        requires
            settings.wf(),
        ensures
            r.settings == settings,
            r.root.start == Some(0u64),
            r.root.end == Some(settings.duration.frame_spec(settings.fps) as u64),
            r.root.children@.len() == 0,
            r.root.effects@.len() == 0,
            r.wf(),
    {
        Video { settings, root: Clip::empty(settings.duration, settings.fps) }
    }
}

impl<P: Effect> Video<P> {
    /// Resolves one output frame: builds the frame's timing context and
    /// the screen transform, and hands back the ordered render events of
    /// the whole tree for that frame.
    pub fn resolve_frame(&self, frame: u64, total_frames: u64) -> (events: Vec<RenderEvent>)
        requires
            self.wf(),
            total_frames > 0,
        ensures
            events.deep_view() == resolve_spec(
                self.root,
                Time::at_root_spec(frame, self.settings.fps, total_frames),
                total_frames,
                screen_matrix_spec(self.settings.resolution.0, self.settings.resolution.1),
            ),
    {
        let time = Time::at_root(frame, self.settings.fps, total_frames);
        let screen = Mat4::from_nonuniform_scale(
            Fx::ratio(2, self.settings.resolution.0 as u64),
            Fx::ratio(2, self.settings.resolution.1 as u64),
            Fx::one(),
        );
        self.root.render(time, total_frames, screen)
    }
}

} // verus!
