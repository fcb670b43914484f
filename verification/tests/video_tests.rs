use vide::clip::Clip;
use vide::fx::{Fx, FX_ONE_RAW};
use vide::rect::Rect;
use vide::render::RenderEvent;
use vide::shader::{FragmentPass, ShaderGenerator, ShaderPass, VertexPass};
use vide::timing::{IntoFrame, TimeSpan};
use vide::video::{Video, VideoSettings};

#[test]
fn default_settings_are_full_hd_at_sixty() {
    let s = VideoSettings::default();
    assert_eq!(s.fps, 60);
    assert_eq!(s.resolution, (1920, 1080));
    assert_eq!(s.duration, TimeSpan::from_secs(30));
    // 0x17 of 255, scaled to sixteen fraction bits.
    assert_eq!(s.background_color.r.raw, (0x17 * 65536) / 255);
    assert_eq!(s.background_color.a.raw, FX_ONE_RAW);
}

#[test]
fn durations_convert_by_flooring_seconds_times_fps() {
    assert_eq!(TimeSpan::from_secs(30).into_frame(60), 1800);
    assert_eq!(TimeSpan::from_millis(2500).into_frame(60), 150);
    assert_eq!(TimeSpan::from_millis(999).into_frame(60), 59);
    assert_eq!(10u64.into_frame(60), 10);
}

#[test]
fn a_new_video_spans_its_whole_duration() {
    let settings = VideoSettings { duration: TimeSpan::from_secs(2), ..Default::default() };
    let video: Video<Rect> = Video::new(settings);
    assert_eq!(video.root.start, Some(0));
    assert_eq!(video.root.end, Some(120));
    assert!(video.root.children.is_empty());
}

#[test]
fn an_empty_frame_still_sets_the_screen_transform() {
    let video: Video<Rect> = Video::new(VideoSettings::default());
    let events = video.resolve_frame(0, 1800);
    assert_eq!(events.len(), 1);
    match &events[0] {
        RenderEvent::SetTransform(m) => {
            // The screen scale 2/1920 and 2/1080, halved in depth by the
            // backend correction.
            assert_eq!(m.m00.raw, (2 * 65536) / 1920);
            assert_eq!(m.m11.raw, (2 * 65536) / 1080);
            assert_eq!(m.m22.raw, 32768);
            assert_eq!(m.m23.raw, 32768);
            assert_eq!(m.m33.raw, FX_ONE_RAW);
        },
        _ => panic!("expected a transform event"),
    }
}

#[test]
fn clip_empty_scopes_the_window_to_the_duration() {
    let root: Clip<Rect> = Clip::empty(TimeSpan::from_secs(5), 60);
    assert_eq!(root.start, Some(0));
    assert_eq!(root.end, Some(300));
    assert_eq!(root.fps, 60);
}

#[test]
fn shader_generator_files_passes_by_stage() {
    let mut generator = ShaderGenerator::new();
    generator.push(ShaderPass {
        vertex_pass: Some(VertexPass {}),
        fragment_pass: None,
        mesh_pass: None,
    });
    generator.push(ShaderPass {
        vertex_pass: Some(VertexPass {}),
        fragment_pass: Some(FragmentPass {}),
        mesh_pass: None,
    });
    assert_eq!(generator.vertex_passes.len(), 2);
    assert_eq!(generator.fragment_passes.len(), 1);
    assert_eq!(generator.mesh_passes.len(), 0);
    assert!(generator.parameters.is_empty());
}
