use workstation_app::app::WorkstationApp;
use workstation_app::display::PANE_WAIT_MS;
use workstation_app::frame::{FrameIdentity, FrameOrigin, FrameStage, VolumeFrame};
use workstation_app::history::{HistoryPolicy, PlaybackState};
use workstation_app::loop_export::{export_view_name, CaptureOutcome, CaptureStep, LoopExporter};
use workstation_app::moment::Moment;
use workstation_app::panes::RenderedPane;
use workstation_app::settings::{iq_controls_from, Annotation, SettingsCache, WINDOW_VON_HANN};

fn untouched() -> SettingsCache {
    let annotation = Annotation {
        ring_count: 4,
        ring_labels: true,
        site_declutter_max: 40,
        site_marker_max: 200,
        range_decimals: 1,
        coordinate_decimals: 4,
    };
    SettingsCache::new(true, annotation, iq_controls_from(64, WINDOW_VON_HANN))
}

fn frame(origin: FrameOrigin, seconds: i64, source: &str) -> VolumeFrame {
    VolumeFrame {
        identity: FrameIdentity {
            site_id: "KTLX".to_owned(),
            volume_time: Moment::new(seconds, 0).expect("a moment in range"),
        },
        origin,
        stage: FrameStage::Complete,
        source_label: source.to_owned(),
        cuts: 1,
        radials: 360,
        estimated_bytes: 1_000,
        located: true,
        volume: 0,
    }
}

fn two_sources() -> WorkstationApp {
    let policy = HistoryPolicy { max_frames: 0, max_estimated_bytes: 0 };
    let mut app = WorkstationApp::new(policy, untouched());
    for source in ["selected/first.nc", "selected/second.nc"] {
        let _ = app
            .display
            .history
            .install_distinct(frame(FrameOrigin::Local, 1_768_605_600, source));
    }
    app
}

/// The first pane's picture lands.
fn paint(app: &mut WorkstationApp) {
    let stamp = app.display.board.current_stamp(0);
    let _ = app.display.board.install_render(RenderedPane {
        pane: 0,
        stamp,
        width: 8,
        height: 8,
        elapsed_text: "1.0 ms".to_owned(),
        filter_line: None,
    });
}

#[test]
fn loop_export_keeps_equal_timestamp_frames_and_restores_selection_and_playback() {
    let mut app = two_sources();
    assert!(app.display.history.select(1));
    app.display.history.set_playback(PlaybackState::Playing);

    app.begin_loop_export(false, "loop".to_owned(), 700);

    let state = app.exporter.state.as_ref().expect("loop capture started");
    assert_eq!(state.frame_keys.len(), 2);
    assert_eq!(state.frame_keys[0].source_label, "selected/first.nc");
    assert_eq!(state.frame_keys[1].source_label, "selected/second.nc");
    assert_eq!(state.delay_ms, 700);
    assert_eq!(app.display.history.selected_index(), Some(0));
    assert_eq!(app.display.history.playback(), PlaybackState::Paused);

    let state = app.exporter.state.take().expect("capture remains active");
    LoopExporter::restore_loop_export_selection(&state, &mut app.display);
    assert_eq!(app.display.history.selected_index(), Some(1));
    assert!(!app.display.history.follows_live());
    assert_eq!(app.display.history.playback(), PlaybackState::Playing);
}

#[test]
fn loop_export_restores_live_follow_on_failure() {
    let policy = HistoryPolicy { max_frames: 0, max_estimated_bytes: 0 };
    let mut app = WorkstationApp::new(policy, untouched());
    for timestamp in [1_768_605_600, 1_768_605_900] {
        let _ = app.display.history.install(frame(FrameOrigin::Live, timestamp, "live"));
    }
    app.display.history.go_live();
    assert!(app.display.history.follows_live());

    app.begin_loop_export(false, "loop".to_owned(), 700);
    assert_eq!(app.display.history.selected_index(), Some(0));
    assert!(!app.display.history.follows_live());
    app.abort_loop_export("the test removed a frame");

    assert!(app.exporter.state.is_none());
    assert!(app.display.history.follows_live());
    assert_eq!(app.display.history.selected_index(), Some(1));
    assert_eq!(
        app.exporter.notice.as_deref(),
        Some("Loop export failed: the test removed a frame")
    );
    assert_eq!(app.status, "Loop export failed: the test removed a frame");
}

#[test]
fn every_frame_is_captured_once_it_is_really_on_screen() {
    let mut app = two_sources();
    assert!(app.display.history.select(1));
    app.begin_loop_export(false, "loop".to_owned(), 0);
    assert_eq!(app.exporter.state.as_ref().unwrap().delay_ms, 1);
    let id = app.exporter.state.as_ref().unwrap().capture_id;
    for index in 0..2 {
        // Not drawn yet: wait. Drawn: two paints to settle, then the picture.
        assert_eq!(app.drive_loop_export_capture(), CaptureStep::Wait(PANE_WAIT_MS));
        paint(&mut app);
        assert_eq!(app.drive_loop_export_capture(), CaptureStep::Repaint);
        assert_eq!(app.drive_loop_export_capture(), CaptureStep::Repaint);
        assert_eq!(
            app.drive_loop_export_capture(),
            CaptureStep::Screenshot { capture_id: id, frame_index: index }
        );
        assert_eq!(app.drive_loop_export_capture(), CaptureStep::Rest);
        assert!(app.exporter.progress().unwrap().contains("of 2"));
        // A capture of another export, or of another frame, is not taken.
        assert_eq!(app.take_loop_capture(id + 1, index).0, CaptureOutcome::Ignored);
        assert_eq!(app.take_loop_capture(id, index + 1).0, CaptureOutcome::Ignored);
        let (outcome, done) = app.take_loop_capture(id, index);
        if index == 0 {
            assert_eq!(outcome, CaptureOutcome::Kept);
            assert!(done.is_none());
        } else {
            assert_eq!(outcome, CaptureOutcome::Finished);
            assert_eq!(done.unwrap().file_base, "loop");
        }
    }
    assert!(app.exporter.state.is_none());
    assert_eq!(app.exporter.progress(), None);
    assert_eq!(app.display.history.selected_index(), Some(1));
    assert_eq!(app.drive_loop_export_capture(), CaptureStep::Rest);
}

#[test]
fn a_frame_that_left_the_screen_ends_the_export() {
    let mut app = two_sources();
    app.begin_loop_export(false, "loop".to_owned(), 700);
    assert!(app.display.history.select(1));
    assert_eq!(app.drive_loop_export_capture(), CaptureStep::Failed);
    assert_eq!(
        app.status,
        "Loop export failed: the requested frame is no longer displayed"
    );

    app.begin_loop_export(false, "loop".to_owned(), 700);
    paint(&mut app);
    let _ = app.drive_loop_export_capture();
    let _ = app.drive_loop_export_capture();
    let id = match app.drive_loop_export_capture() {
        CaptureStep::Screenshot { capture_id, .. } => capture_id,
        _ => panic!("the picture is due"),
    };
    assert!(app.display.history.select(1));
    assert_eq!(app.take_loop_capture(id, 0).0, CaptureOutcome::Failed);
    assert_eq!(
        app.status,
        "Loop export failed: the displayed frame changed during capture"
    );
}

#[test]
fn a_frame_that_was_let_go_ends_the_export() {
    let mut app = two_sources();
    app.begin_loop_export(false, "loop".to_owned(), 700);
    paint(&mut app);
    let _ = app.drive_loop_export_capture();
    let _ = app.drive_loop_export_capture();
    let id = match app.drive_loop_export_capture() {
        CaptureStep::Screenshot { capture_id, .. } => capture_id,
        _ => panic!("the picture is due"),
    };
    app.display.history.clear();
    let _ = app
        .display
        .history
        .install(frame(FrameOrigin::Local, 1_768_605_600, "selected/first.nc"));
    assert_eq!(app.take_loop_capture(id, 0).0, CaptureOutcome::Kept);
    assert!(app.exporter.state.is_none());
    assert_eq!(
        app.status,
        "Loop export failed: a frame was removed from the timeline before it could be captured"
    );
}

#[test]
fn nothing_is_exported_of_nothing_or_beside_another_export() {
    let policy = HistoryPolicy { max_frames: 0, max_estimated_bytes: 0 };
    let mut app = WorkstationApp::new(policy, untouched());
    app.begin_loop_export(false, "loop".to_owned(), 700);
    assert!(app.exporter.state.is_none());
    let mut app = two_sources();
    app.begin_loop_export(true, "loop".to_owned(), 700);
    assert!(app.exporter.state.is_none());
    app.begin_loop_export(false, "first".to_owned(), 5_000_000_000);
    assert_eq!(app.exporter.state.as_ref().unwrap().delay_ms, u32::MAX);
    app.begin_loop_export(false, "second".to_owned(), 700);
    assert_eq!(app.exporter.state.as_ref().unwrap().file_base, "first");
}

#[test]
fn an_export_is_named_by_what_is_shown() {
    assert_eq!(export_view_name("REF", 1), "REF");
    assert_eq!(export_view_name("VEL", 4), "4panes-VEL-active");
}
