use mpv_window::boundary::{cleanup_after, respond, CreatedWindow, OpenError, WINDOW_ID};
use mpv_window::driver::{abort_open, video_viewport, Action, FrameDriver, Phase, VideoViewport};
use mpv_window::events::{quiet, translate, ControlSignals, RawEvent};
use mpv_window::geometry::{LogicalSize, PhysicalSize, ScaleFactor};
use mpv_window::ui::RedrawGate;

fn logical(width: u32, height: u32) -> LogicalSize {
    LogicalSize { width, height }
}

fn physical(width: u64, height: u64) -> PhysicalSize {
    PhysicalSize { width, height }
}

fn running(width: u64, height: u64) -> FrameDriver {
    FrameDriver::new(physical(width, height))
}

#[test]
fn scale_factor_rejects_zero_denominator() {
    assert!(ScaleFactor::new(1, 0).is_none());
    let s = ScaleFactor::new(3, 2).unwrap();
    assert_eq!((s.num, s.den), (3, 2));
}

#[test]
fn scale_rounds_to_nearest() {
    let s = ScaleFactor::new(3, 2).unwrap();
    assert_eq!(s.scale(1000), 1500);
    assert_eq!(s.scale(3), 5);
    assert_eq!(s.scale(1), 2);
    assert_eq!(s.scale(0), 0);
    let third = ScaleFactor::new(1, 3).unwrap();
    assert_eq!(third.scale(4), 1);
    assert_eq!(third.scale(5), 2);
}

#[test]
fn scale_of_largest_input_does_not_overflow() {
    let s = ScaleFactor::new(u32::MAX, 1).unwrap();
    assert_eq!(s.scale(u32::MAX), (u32::MAX as u64) * (u32::MAX as u64));
}

#[test]
fn identity_keeps_sizes() {
    let s = ScaleFactor::identity();
    assert_eq!(logical(1000, 600).to_physical(&s), physical(1000, 600));
}

#[test]
fn to_physical_scales_both_sides() {
    let s = ScaleFactor::new(2, 1).unwrap();
    assert_eq!(logical(1000, 600).to_physical(&s), physical(2000, 1200));
}

#[test]
fn translate_of_no_events_is_quiet() {
    let s = ScaleFactor::identity();
    assert_eq!(translate(&vec![], &s), quiet());
}

#[test]
fn translate_keeps_last_resize() {
    let s = ScaleFactor::new(2, 1).unwrap();
    let events = vec![
        RawEvent::Resized(logical(100, 50)),
        RawEvent::Input { changes_ui: true },
        RawEvent::Other,
        RawEvent::Resized(logical(200, 100)),
    ];
    let sig = translate(&events, &s);
    assert_eq!(sig.resized, Some(physical(400, 200)));
    assert!(sig.ui_changed);
    assert!(!sig.close);
}

#[test]
fn translate_sees_close_and_ignores_unchanged_input() {
    let s = ScaleFactor::identity();
    let events = vec![RawEvent::Input { changes_ui: false }, RawEvent::CloseRequested, RawEvent::Other];
    let sig = translate(&events, &s);
    assert!(sig.close);
    assert!(!sig.ui_changed);
    assert_eq!(sig.resized, None);
}

#[test]
fn cycle_rebuilds_targets_at_last_resize_first() {
    let s = ScaleFactor::new(2, 1).unwrap();
    let mut d = running(2000, 1200);
    let events = vec![RawEvent::Resized(logical(300, 200)), RawEvent::Resized(logical(640, 480))];
    let sig = translate(&events, &s);
    let acts = d.cycle(&sig, Some(logical(640, 480)), &s);
    assert_eq!(d.targets, physical(1280, 960));
    assert_eq!(acts[0], Action::ResizeTargets(physical(1280, 960)));
    assert_eq!(acts[1], Action::RebuildUiTarget);
    assert_eq!(
        acts[2],
        Action::DrawVideo(VideoViewport { x: 0, y: 0, width: 1280, height: -960 })
    );
    assert_eq!(acts.len(), 5);
}

#[test]
fn cycle_without_resize_keeps_targets() {
    let s = ScaleFactor::identity();
    let mut d = running(1000, 600);
    let _ = d.cycle(&quiet(), Some(logical(1000, 600)), &s);
    assert_eq!(d.targets, physical(1000, 600));
}

#[test]
fn playing_cycle_draws_video_widgets_then_swaps() {
    let s = ScaleFactor::identity();
    let mut d = running(1000, 600);
    let acts = d.cycle(&quiet(), Some(logical(1000, 600)), &s);
    assert_eq!(
        acts,
        vec![
            Action::DrawVideo(VideoViewport { x: 0, y: 0, width: 1000, height: -600 }),
            Action::CompositeUi(physical(1000, 600)),
            Action::Swap,
        ]
    );
    let again = d.cycle(&quiet(), Some(logical(1000, 600)), &s);
    assert_eq!(again, acts);
    assert!(d.is_running());
}

#[test]
fn paused_cycle_draws_widgets_only_after_a_change() {
    let s = ScaleFactor::identity();
    let mut d = running(1000, 600);
    d.set_playing(false);
    assert_eq!(
        d.cycle(&quiet(), Some(logical(1000, 600)), &s),
        vec![Action::CompositeUi(physical(1000, 600)), Action::Swap]
    );
    assert_eq!(d.cycle(&quiet(), Some(logical(1000, 600)), &s), vec![]);
    let changed = ControlSignals { close: false, resized: None, ui_changed: true };
    assert_eq!(
        d.cycle(&changed, Some(logical(1000, 600)), &s),
        vec![Action::CompositeUi(physical(1000, 600)), Action::Swap]
    );
    assert_eq!(d.cycle(&quiet(), Some(logical(1000, 600)), &s), vec![]);
}

#[test]
fn gate_yields_once_per_change() {
    let mut g = RedrawGate::new();
    assert!(g.maybe_draw(false));
    assert!(!g.maybe_draw(false));
    g.handle_input(false);
    assert!(!g.maybe_draw(false));
    g.handle_input(true);
    g.handle_input(false);
    assert!(g.maybe_draw(false));
    assert!(!g.maybe_draw(false));
    assert!(g.maybe_draw(true));
    assert!(!g.dirty);
}

#[test]
fn video_viewport_flips_height() {
    let v = video_viewport(&physical(1000, 600));
    assert_eq!(v, VideoViewport { x: 0, y: 0, width: 1000, height: -600 });
    assert!(v.width > 0 && v.height < 0);
}

#[test]
fn video_viewport_clamps_huge_sizes() {
    let v = video_viewport(&physical(1u64 << 40, 1u64 << 40));
    assert_eq!(v.width, i32::MAX);
    assert_eq!(v.height, -i32::MAX);
}

#[test]
fn close_makes_the_cycle_the_last() {
    let s = ScaleFactor::identity();
    let mut d = running(1000, 600);
    let sig = translate(&vec![RawEvent::Input { changes_ui: true }, RawEvent::CloseRequested], &s);
    let acts = d.cycle(&sig, Some(logical(1000, 600)), &s);
    assert_eq!(acts, vec![Action::ReleasePlayback, Action::DestroyContext]);
    assert_eq!(d.phase, Phase::Terminating);
    assert!(!d.is_running());
    assert_eq!(d.cycle(&quiet(), Some(logical(1000, 600)), &s), vec![]);
    assert_eq!(d.shutdown(), vec![]);
}

#[test]
fn close_with_resize_rebuilds_then_tears_down() {
    let s = ScaleFactor::identity();
    let mut d = running(1000, 600);
    let sig = translate(&vec![RawEvent::Resized(logical(800, 500)), RawEvent::CloseRequested], &s);
    let acts = d.cycle(&sig, Some(logical(800, 500)), &s);
    assert_eq!(
        acts,
        vec![
            Action::ResizeTargets(physical(800, 500)),
            Action::RebuildUiTarget,
            Action::ReleasePlayback,
            Action::DestroyContext,
        ]
    );
}

#[test]
fn lost_window_ends_the_loop() {
    let s = ScaleFactor::identity();
    let mut d = running(1000, 600);
    let acts = d.cycle(&quiet(), None, &s);
    assert_eq!(acts, vec![Action::ReleasePlayback, Action::DestroyContext]);
    assert_eq!(d.phase, Phase::Terminating);
}

#[test]
fn shutdown_releases_playback_first_and_once() {
    let mut d = running(1000, 600);
    assert_eq!(d.shutdown(), vec![Action::ReleasePlayback, Action::DestroyContext]);
    assert_eq!(d.shutdown(), vec![]);
}

#[test]
fn abort_open_releases_before_destroying() {
    assert_eq!(abort_open(true), vec![Action::ReleasePlayback, Action::DestroyContext]);
    assert_eq!(abort_open(false), vec![Action::DestroyContext]);
}

#[test]
fn response_for_a_window_that_opened() {
    let r = respond(Ok(()));
    assert_eq!(r.err, None);
    assert_eq!(r.ok, Some(CreatedWindow { id: 1 }));
    assert_eq!(WINDOW_ID, 1);
}

#[test]
fn response_for_a_video_that_did_not_load() {
    let r = respond(Err(OpenError::Load));
    assert_eq!(r.err, Some("could not load the video".to_string()));
    assert_eq!(r.ok, None);
    assert_eq!(cleanup_after(&OpenError::Load), vec![Action::ReleasePlayback, Action::DestroyContext]);
}

#[test]
fn every_error_has_a_message_and_no_window() {
    let all = [
        OpenError::BadRequest,
        OpenError::ContextCreation,
        OpenError::EngineInit,
        OpenError::EngineOption,
        OpenError::Load,
    ];
    for e in all {
        let r = respond(Err(e));
        assert_eq!(r.err, Some(e.message()));
        assert!(!e.message().is_empty());
        assert!(r.ok.is_none());
        let undo = cleanup_after(&e);
        assert!(undo.is_empty() || undo.last() == Some(&Action::DestroyContext));
    }
    assert_eq!(OpenError::BadRequest.message(), "malformed request: expected a url string");
    assert_eq!(cleanup_after(&OpenError::ContextCreation), vec![]);
    assert_eq!(cleanup_after(&OpenError::BadRequest), vec![]);
    assert_eq!(cleanup_after(&OpenError::EngineInit), vec![Action::DestroyContext]);
    assert_eq!(cleanup_after(&OpenError::EngineOption), vec![Action::ReleasePlayback, Action::DestroyContext]);
}
