use workstation_app::age::{age_repaint_interval, format_age, STALL_AFTER_SECONDS};
use workstation_app::app::WorkstationApp;
use workstation_app::frame::{FrameIdentity, FrameOrigin, FrameStage, VolumeFrame};
use workstation_app::history::{HistoryPolicy, InstallReport};
use workstation_app::install::LoadedVolume;
use workstation_app::live::FeedFreshness;
use workstation_app::moment::Moment;
use workstation_app::panes::{PaneBoard, RenderedPane, TextureAction};
use workstation_app::sequence::{FileSequence, PreflightEstimate};
use workstation_app::session::LiveUpdate;
use workstation_app::settings::{iq_controls_from, Annotation, SettingsCache, WINDOW_VON_HANN};
use workstation_app::vrot::VrotState;

fn untouched() -> SettingsCache {
    let annotation = Annotation {
        ring_count: 4,
        ring_labels: true,
        site_declutter_max: 40,
        site_marker_max: 200,
        range_decimals: 1,
        coordinate_decimals: 4,
    };
    SettingsCache::new(true, annotation, iq_controls_from(64, WINDOW_VON_HANN))
}

fn unlimited() -> HistoryPolicy {
    HistoryPolicy { max_frames: 0, max_estimated_bytes: 0 }
}

fn frame(seconds: i64, stage: FrameStage, radials: usize) -> VolumeFrame {
    VolumeFrame {
        identity: FrameIdentity {
            site_id: "KTLX".to_owned(),
            volume_time: Moment::new(seconds, 0).unwrap(),
        },
        origin: FrameOrigin::Live,
        stage,
        source_label: "live".to_owned(),
        cuts: 1,
        radials,
        estimated_bytes: 10,
        located: true,
        volume: 1,
    }
}

fn install(app: &mut WorkstationApp, frame: VolumeFrame) -> Option<InstallReport> {
    let generation = app.display.board.session_clock.current();
    app.install_loaded_volume(
        LoadedVolume { generation, frame, pulses: None, elapsed_ms: "1.0".to_owned() },
        &vec![],
    )
}

fn picture(board: &PaneBoard, pane: usize) -> RenderedPane {
    RenderedPane {
        pane,
        stamp: board.current_stamp(pane),
        width: 4,
        height: 4,
        elapsed_text: "1.0 ms".to_owned(),
        filter_line: None,
    }
}

#[test]
fn growth_reaches_the_screen_and_blanks_nothing() {
    let mut app = WorkstationApp::new(unlimited(), untouched());
    let _ = install(&mut app, frame(100, FrameStage::Partial, 120));
    let shown = picture(&app.display.board, 0);
    let _ = app.display.board.install_render(shown);
    let clock = app.display.board.frame_clock.current();
    app.display.vrot.state = VrotState::Complete;

    // The same frame, grown: drawn again, and the measurement stands.
    let _ = install(&mut app, frame(100, FrameStage::Partial, 220));
    assert_ne!(app.display.board.frame_clock.current(), clock);
    assert!(app.display.board.panes[0].texture.is_some());
    assert_eq!(app.display.vrot.state, VrotState::Complete);
    assert_eq!(app.status, "Partial volume ready in 1.0 ms · 1 frame(s)");

    // The same data once more: nothing to draw.
    let clock = app.display.board.frame_clock.current();
    let _ = install(&mut app, frame(100, FrameStage::Partial, 220));
    assert_eq!(app.display.board.frame_clock.current(), clock);

    let report = install(&mut app, frame(100, FrameStage::Complete, 360)).unwrap();
    assert_eq!(report.evicted, 0);
    assert!(app.display.board.panes[0].texture.is_some());
    assert_ne!(app.display.vrot.state, VrotState::Complete);
    assert_eq!(app.status, "Complete volume ready in 1.0 ms · 1 frame(s) · Replaced");
    let _ = install(&mut app, frame(200, FrameStage::Complete, 360));
    assert_eq!(app.status, "Complete volume ready in 1.0 ms · 2 frame(s) · Inserted");
}

#[test]
fn a_session_starts_clean() {
    let mut app = WorkstationApp::new(unlimited(), untouched());
    let _ = install(&mut app, frame(100, FrameStage::Complete, 360));
    let shown = picture(&app.display.board, 0);
    let _ = app.display.board.install_render(shown);
    app.live.site = Some("KTLX".to_owned());
    app.display.vrot.state = VrotState::AwaitingSecond;
    let before = app.display.board.session_clock.current();
    let (generation, was_live) = app.begin_local_session(unlimited());
    assert!(was_live);
    assert_ne!(generation, before);
    assert!(app.display.history.is_empty());
    assert!(app.display.board.panes[0].texture.is_none());
    assert_eq!(app.display.vrot.state, VrotState::Idle);
    assert_eq!(app.live.site, None);
    assert!(app.live.feed.is_none());
}

#[test]
fn a_volume_that_is_ready_says_nothing_of_the_feed() {
    let mut app = WorkstationApp::new(unlimited(), untouched());
    let (generation, _) = app.start_live("KTLX", unlimited());
    let newest = Moment::new(1_000_000, 0).unwrap();
    let _ = app.take_live_update(LiveUpdate::FeedStatus {
        generation,
        site: "KTLX".to_owned(),
        newest_volume_time: newest,
        freshness: FeedFreshness::Current,
    });
    let request = app
        .take_live_update(LiveUpdate::VolumeReady {
            generation,
            site: "KTLX".to_owned(),
            path: "cache/KTLX_V06".to_owned(),
            stage: FrameStage::Partial,
            when: "1970-01-12T13:40:00Z".to_owned(),
            chunk_count: 7,
            total_size: 3_145_728,
            cache_hit: false,
        })
        .expect("the volume is decoded");
    assert_eq!(request.path, "cache/KTLX_V06");
    assert_eq!(request.source_label, "KTLX 1970-01-12T13:40:00Z");
    assert_eq!(request.final_stage, FrameStage::Partial);
    assert_eq!(app.live.status, "7 chunk(s) · 3.0 MiB · downloaded");
    let feed = app.live.feed.as_ref().unwrap();
    assert_eq!(feed.newest_volume_time.seconds(), 1_000_000);
    let _ = app.take_live_update(LiveUpdate::Failed {
        generation,
        site: "KTLX".to_owned(),
        message: "bucket is gone".to_owned(),
    });
    assert_eq!(app.status, "KTLX: bucket is gone");
    assert!(app.live.feed.is_some());
    let _ = app.take_live_update(LiveUpdate::Stopped);
    assert!(app.live.feed.is_none());
}

#[test]
fn an_age_reads_the_same_until_the_screen_wakes() {
    for seconds in [0_i64, 1, 59, 60, 61, 119, 3_599, 3_600, 86_399, 86_400, 31_536_000] {
        let wait = age_repaint_interval(seconds) as i64;
        for later in seconds..seconds + wait {
            assert_eq!(format_age(later), format_age(seconds));
        }
        if seconds < STALL_AFTER_SECONDS {
            assert!(seconds + wait <= STALL_AFTER_SECONDS);
        }
    }
}

#[test]
fn a_current_picture_is_not_replaced_by_an_older_view() {
    let mut app = WorkstationApp::new(unlimited(), untouched());
    let _ = install(&mut app, frame(100, FrameStage::Complete, 360));
    let older = picture(&app.display.board, 0);
    app.display.board.invalidate_view_panes(&vec![0]);
    let current = picture(&app.display.board, 0);
    let stamp = current.stamp;
    assert_eq!(app.display.board.install_render(current), TextureAction::Replace);
    assert_eq!(app.display.board.install_render(older), TextureAction::Discard);
    assert_eq!(app.display.board.panes[0].texture.unwrap().stamp, stamp);
}

#[test]
fn the_first_file_fixes_the_radar() {
    let estimate = PreflightEstimate { input_size_text: String::new(), estimated_decoded_bytes: 0 };
    let mut files = FileSequence::new(vec!["a".to_owned(), "b".to_owned()], estimate);
    assert_eq!(files.total(), 2);
    assert!(files.refuse_radar("DOW7", false).is_none(), "the first file is of its own radar");
    assert_eq!(files.take_next().as_deref(), Some("a"));
    files.count_decoded("DOW7".to_owned(), false, None);
    assert!(files.refuse_radar("dow7", true).is_none());
    assert!(files.refuse_radar("DOW7", false).is_some(), "the radar moved");
    assert!(files.refuse_radar("NOXP", true).is_some());
    assert_eq!(files.logical_volumes(), 1);
    assert!(files.progress("loading", 1).contains("loading"));
    assert_eq!(files.take_next().as_deref(), Some("b"));
    assert_eq!(files.take_next(), None);
    assert_eq!(files.current_path().map(String::as_str), Some("b"));
}
