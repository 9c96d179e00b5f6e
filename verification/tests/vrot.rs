use workstation_app::app::WorkstationApp;
use workstation_app::display::PlaybackStep;
use workstation_app::follow::FollowCandidate;
use workstation_app::frame::{FrameIdentity, FrameOrigin, FrameStage, VolumeFrame};
use workstation_app::history::{HistoryPolicy, PlaybackState};
use workstation_app::install::LoadedVolume;
use workstation_app::moment::Moment;
use workstation_app::panes::RenderedPane;
use workstation_app::settings::{iq_controls_from, Annotation, SettingsCache, WINDOW_VON_HANN};
use workstation_app::vrot::{
    vrot_readout, vrot_report_line, StaleReason, VrotClick, VrotNext, VrotNumbers, VrotState,
    VrotTool,
};

fn untouched() -> SettingsCache {
    let annotation = Annotation {
        ring_count: 4,
        ring_labels: true,
        site_declutter_max: 40,
        site_marker_max: 200,
        range_decimals: 1,
        coordinate_decimals: 4,
    };
    SettingsCache::new(true, annotation, iq_controls_from(64, WINDOW_VON_HANN))
}

fn unlimited() -> HistoryPolicy {
    HistoryPolicy { max_frames: 0, max_estimated_bytes: 0 }
}

fn renderable_volume(seconds: i64) -> VolumeFrame {
    VolumeFrame {
        identity: FrameIdentity {
            site_id: "KTLX".to_owned(),
            volume_time: Moment::new(seconds, 0).expect("a moment in range"),
        },
        origin: FrameOrigin::Live,
        stage: FrameStage::Complete,
        source_label: "test".to_owned(),
        cuts: 1,
        radials: 360,
        estimated_bytes: 1_000,
        located: true,
        volume: seconds as u64,
    }
}

fn install(app: &mut WorkstationApp, frame: VolumeFrame) {
    let generation = app.display.board.session_clock.current();
    let _ = app.install_loaded_volume(
        LoadedVolume { generation, frame, pulses: None, elapsed_ms: "1.0".to_owned() },
        &vec![],
    );
}

fn completed_vrot(app: &mut WorkstationApp) {
    app.display.vrot.state = VrotState::Complete;
    app.display.vrot.on_pane = true;
    app.display.vrot.pane = 0;
}

#[test]
fn every_frame_change_site_retires_the_vrot_measurement() {
    let mut app = WorkstationApp::new(unlimited(), untouched());

    // A new volume installing between the two clicks.
    install(&mut app, renderable_volume(1_700_000_000));
    completed_vrot(&mut app);
    install(&mut app, renderable_volume(1_700_000_360));
    assert_eq!(
        app.display.vrot.stale_reason(),
        Some(StaleReason::NewVolume),
        "install_loaded_volume did not retire the measurement"
    );

    // A timeline scrub.
    completed_vrot(&mut app);
    let before = app.display.history.current_frame_signature();
    assert!(app.display.history.select(0));
    app.display.commit_history_selection(before);
    assert_eq!(app.display.vrot.stale_reason(), Some(StaleReason::NewVolume));

    // A playback step.
    completed_vrot(&mut app);
    let stamp = app.display.board.current_stamp(0);
    let _ = app.display.board.install_render(RenderedPane {
        pane: 0,
        stamp,
        width: 8,
        height: 8,
        elapsed_text: "1.0 ms".to_owned(),
        filter_line: None,
    });
    app.display.history.set_playback(PlaybackState::Playing);
    let visible = app.workspace.visible_panes();
    assert_eq!(app.display.advance_playback(&visible, 2_000, 700), PlaybackStep::Stepped);
    assert_eq!(
        app.display.vrot.stale_reason(),
        Some(StaleReason::NewVolume),
        "advance_playback did not retire the measurement"
    );

    // A product change on the Vrot pane: DVEL gates paired with SRV gates would
    // silently mix reference frames.
    completed_vrot(&mut app);
    app.apply_product_selection(0, 5);
    assert_eq!(app.display.vrot.stale_reason(), Some(StaleReason::DifferentProduct));

    // A new archive load may be any radar's file.
    completed_vrot(&mut app);
    let _ = app.begin_load("Z:/definitely/not/here_V06".to_owned(), unlimited());
    assert_eq!(app.display.vrot.stale_reason(), Some(StaleReason::DifferentSite));

    // A live start. The mark happens before the session is even attempted,
    // exactly like the unconditional history clear beside it.
    completed_vrot(&mut app);
    let _ = app.start_live("12", unlimited());
    assert_eq!(app.display.vrot.stale_reason(), Some(StaleReason::DifferentSite));

    // A half-finished pair is discarded outright rather than completed across
    // two volumes.
    install(&mut app, renderable_volume(1_700_000_720));
    app.display.vrot.state = VrotState::AwaitingSecond;
    install(&mut app, renderable_volume(1_700_001_080));
    assert_eq!(app.display.vrot.state, VrotState::Idle);
}

#[test]
fn a_tilt_change_retires_the_measurement_too() {
    let mut app = WorkstationApp::new(unlimited(), untouched());
    install(&mut app, renderable_volume(1_700_000_000));
    completed_vrot(&mut app);
    let candidates: Vec<Option<FollowCandidate>> = vec![None, None, None, None];
    app.change_active_tilt(Some(3), false, &candidates);
    assert_eq!(app.display.vrot.stale_reason(), Some(StaleReason::DifferentCut));
}

#[test]
fn the_vrot_report_line_follows_the_units_on_both_paths() {
    // Default units, both orders: character-for-character what shipped.
    let metric = VrotNumbers {
        knots: "58.3",
        mps: "30.0",
        delta_v_mps: "60.0",
        separation: "0.80 km",
        height: "0.30 km",
        elevation_deg: "0.50",
        cut_index: "0",
    };
    for mps_first in [false, true] {
        let line = vrot_report_line(mps_first, &metric, &vec![]);
        assert!(line.contains("separation 0.80 km | height 0.30 km ARL"), "{line}");
    }

    // Miles and feet. 0.80 km is 0.50 mi; 300 m is 984 ft.
    let statute = VrotNumbers { separation: "0.50 mi", height: "984 ft", ..metric };
    for mps_first in [false, true] {
        let line = vrot_report_line(mps_first, &statute, &vec![]);
        assert!(
            line.contains("separation 0.50 mi | height 984 ft ARL"),
            "mps_first={mps_first}: {line}"
        );
        assert!(
            !line.contains(" km"),
            "mps_first={mps_first}: a kilometre survived: {line}"
        );
        // The measurement itself is unmoved.
        assert!(line.contains("delta-V 60.0 m/s"), "{line}");
    }
    let warned = vrot_report_line(true, &metric, &vec!["aliased".to_owned()]);
    assert!(warned.contains("aliased"), "{warned}");
}

#[test]
fn two_clicks_measure_and_a_third_begins_again() {
    let mut tool = VrotTool::new();
    tool.active = true;
    assert_eq!(tool.take_click(2, false), VrotClick::Nothing);
    assert_eq!(tool.take_click(2, true), VrotClick::Sample);
    assert_eq!(tool.take_sample(false).0, VrotNext::Refused);
    let (next, line) = tool.take_sample(true);
    assert_eq!(next, VrotNext::KeepFirst);
    assert!(line.is_some());
    assert_eq!(tool.state, VrotState::AwaitingSecond);
    assert_eq!(tool.take_click(2, true), VrotClick::Sample);
    assert_eq!(tool.take_sample(true).0, VrotNext::Measure);
    let line = tool.take_measurement(Ok("Vrot 30".to_owned()));
    assert_eq!(line, "Vrot 30");
    assert_eq!(tool.state, VrotState::Complete);
    // A change on another pane leaves it alone.
    tool.note_panes_changed(&vec![0, 1], StaleReason::DifferentProduct);
    assert_eq!(tool.state, VrotState::Complete);
    tool.note_panes_changed(&vec![2], StaleReason::DifferentProduct);
    assert_eq!(tool.stale_reason(), Some(StaleReason::DifferentProduct));
    assert_eq!(tool.take_sample(true).0, VrotNext::KeepFirst);
}

#[test]
fn a_pair_that_cannot_be_measured_says_why() {
    let mut tool = VrotTool::new();
    tool.state = VrotState::AwaitingSecond;
    let line = tool.take_measurement(Err("too far apart".to_owned()));
    assert!(line.contains("too far apart"), "{line}");
    assert_ne!(tool.state, VrotState::Complete);
}

#[test]
fn the_readout_leads_with_the_unit_that_was_asked_for() {
    assert!(vrot_readout(true, "58.3", "30.0").contains("30.0 m/s"));
    assert!(vrot_readout(false, "58.3", "30.0").contains("58.3 kt"));
}
