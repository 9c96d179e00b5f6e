use workstation_app::app::WorkstationApp;
use workstation_app::catalog::{
    DATA, DATA_FOLLOW_LOW_TILTS_ENABLED, DATA_FOLLOW_MAX_ELEVATION_DEG,
};
use workstation_app::follow::{follow_allowed, follow_subject, FollowCandidate};
use workstation_app::frame::{FrameIdentity, FrameOrigin, FrameStage, VolumeFrame};
use workstation_app::history::{HistoryPolicy, PlaybackState};
use workstation_app::install::LoadedVolume;
use workstation_app::moment::Moment;
use workstation_app::panes::SweepState;
use workstation_app::settings::{
    iq_controls_from, Annotation, SettingEffect, SettingsCache, WINDOW_VON_HANN,
};
use workstation_app::sweeps::SweepWish;
use workstation_app::workspace::{PaneLayout, PaneProduct, TiltSelection};

fn untouched() -> SettingsCache {
    let annotation = Annotation {
        ring_count: 4,
        ring_labels: true,
        site_declutter_max: 40,
        site_marker_max: 200,
        range_decimals: 1,
        coordinate_decimals: 4,
    };
    SettingsCache::new(true, annotation, iq_controls_from(64, WINDOW_VON_HANN))
}

const VOLUME_TIME: i64 = 1_700_000_000;

fn unlimited() -> HistoryPolicy {
    HistoryPolicy { max_frames: 0, max_estimated_bytes: 0 }
}

fn install_partial(app: &mut WorkstationApp, cuts: usize, radials: usize) {
    let generation = app.display.board.session_clock.current();
    let frame = VolumeFrame {
        identity: FrameIdentity {
            site_id: "KTLX".to_owned(),
            volume_time: Moment::new(VOLUME_TIME, 0).unwrap(),
        },
        origin: FrameOrigin::Live,
        stage: FrameStage::Partial,
        source_label: "test".to_owned(),
        cuts,
        radials,
        estimated_bytes: 1_000,
        located: true,
        volume: 1,
    };
    let _ = app.install_loaded_volume(
        LoadedVolume { generation, frame, pulses: None, elapsed_ms: "1.0".to_owned() },
        &vec![],
    );
}

/// The sweep each pane would follow to, as it was scanned behind the volume's
/// start.
fn newest(cut_index: usize, offset_ms: u32) -> Vec<Option<FollowCandidate>> {
    let seconds = VOLUME_TIME + i64::from(offset_ms / 1_000);
    (0..4)
        .map(|_| {
            Some(FollowCandidate { cut_index, scan_time: Moment::new(seconds, 0).unwrap() })
        })
        .collect()
}

fn following(app: &WorkstationApp) -> bool {
    follow_allowed(
        app.live.site.is_some(),
        app.display.history.follows_live(),
        app.display.history.playback(),
        true,
    )
}

/// The analyst switches following on.
fn switch_on(app: &mut WorkstationApp, candidates: &Vec<Option<FollowCandidate>>) {
    let allowed = following(app);
    let effect = app.apply_changed_setting(
        DATA,
        DATA_FOLLOW_LOW_TILTS_ENABLED,
        false,
        unlimited(),
        allowed,
        candidates,
    );
    assert_eq!(effect, SettingEffect::LiveFollow);
}

#[test]
fn live_follow_animates_an_arriving_sweep_over_the_previous_completed_sweep() {
    let mut app = WorkstationApp::new(unlimited(), untouched());
    app.live.site = Some("KTLX".to_owned());
    install_partial(&mut app, 2, 480);
    switch_on(&mut app, &newest(1, 60_000));
    assert_eq!(
        app.workspace.panes[0].tilt,
        TiltSelection::CutIndex(1),
        "Auto tilt must select the incoming repeat while it is actually sweeping"
    );

    let wish = || Some(SweepWish { product: "REF".to_owned(), cut_index: 1, present: true });
    assert!(app.begin_sweep_round(true));
    assert!(app.ready_pane_sweep(0, wish()));
    let first = SweepState {
        start_bits: 0,
        revealed_bits: 10.0_f32.to_bits(),
        frontier_bits: 120.0_f32.to_bits(),
        complete: false,
    };
    app.step_pane_sweep(0, Some(first));
    let held = app.display.board.panes[0]
        .sweep_state
        .expect("the selected incoming cut drives the existing live animator");
    assert!(!held.complete, "an arriving sweep must not be called complete");

    // More of the same sweep arrives: the reveal goes on, it does not start anew.
    install_partial(&mut app, 2, 580);
    let allowed = following(&app);
    app.follow_live_low_tilts(allowed, &newest(1, 60_000));
    assert!(app.begin_sweep_round(true));
    assert!(app.ready_pane_sweep(0, wish()));
    assert_eq!(
        app.display.board.panes[0].sweep_state,
        Some(first),
        "the same incoming sweep remains animated as new radials arrive"
    );
    let grown = SweepState { frontier_bits: 220.0_f32.to_bits(), ..first };
    app.step_pane_sweep(0, Some(grown));
    assert!(f32::from_bits(app.display.board.panes[0].sweep_state.unwrap().frontier_bits) > 120.0);
}

#[test]
fn live_follow_selects_newest_completed_sweep_below_the_adjustable_ceiling() {
    let mut app = WorkstationApp::new(unlimited(), untouched());
    app.live.site = Some("KTLX".to_owned());
    install_partial(&mut app, 4, 1_440);

    switch_on(&mut app, &newest(2, 60_000));
    assert_eq!(
        app.workspace.panes[0].tilt,
        TiltSelection::CutIndex(2),
        "the newest complete 1.3° sweep is allowed; the newer 1.8° sweep is not"
    );

    // Below the new ceiling the newest sweep is the first one: older than what is
    // followed, and taken all the same.
    let allowed = following(&app);
    let effect = app.apply_changed_setting(
        DATA,
        DATA_FOLLOW_MAX_ELEVATION_DEG,
        false,
        unlimited(),
        allowed,
        &newest(0, 0),
    );
    assert_eq!(effect, SettingEffect::LiveFollow);
    assert_eq!(
        app.workspace.panes[0].tilt,
        TiltSelection::CutIndex(0),
        "changing the ceiling immediately honors the analyst's new limit"
    );
}

#[test]
fn live_follow_respects_manual_tilt_until_a_new_completed_sweep_arrives() {
    let mut app = WorkstationApp::new(unlimited(), untouched());
    app.live.site = Some("KTLX".to_owned());
    install_partial(&mut app, 2, 720);
    switch_on(&mut app, &newest(1, 30_000));
    assert_eq!(app.workspace.panes[0].tilt, TiltSelection::CutIndex(1));

    let allowed = following(&app);
    app.change_active_tilt(Some(0), allowed, &newest(1, 30_000));
    app.follow_live_low_tilts(allowed, &newest(1, 30_000));
    assert_eq!(
        app.workspace.panes[0].tilt,
        TiltSelection::CutIndex(0),
        "repainting the existing volume must not steal back a manually chosen tilt"
    );

    install_partial(&mut app, 3, 1_080);
    let allowed = following(&app);
    app.follow_live_low_tilts(allowed, &newest(2, 60_000));
    assert_eq!(
        app.workspace.panes[0].tilt,
        TiltSelection::CutIndex(2),
        "the next genuinely new completed low sweep resumes automatic following"
    );
}

#[test]
fn live_follow_never_changes_historical_playback_or_local_sessions() {
    let mut app = WorkstationApp::new(unlimited(), untouched());
    install_partial(&mut app, 2, 720);
    switch_on(&mut app, &newest(1, 30_000));
    assert_eq!(
        app.workspace.panes[0].tilt,
        TiltSelection::LowestAvailable,
        "a local or archived session is never an automatic live-follow target"
    );

    app.live.site = Some("KTLX".to_owned());
    app.display.history.set_playback(PlaybackState::Playing);
    let allowed = following(&app);
    assert!(!allowed);
    app.follow_live_low_tilts(allowed, &newest(1, 30_000));
    assert_eq!(
        app.workspace.panes[0].tilt,
        TiltSelection::LowestAvailable,
        "timeline playback owns its selection even while a live site is connected"
    );
}

#[test]
fn following_needs_a_live_edge_that_rests_and_the_setting() {
    assert!(follow_allowed(true, true, PlaybackState::Paused, true));
    assert!(!follow_allowed(false, true, PlaybackState::Paused, true));
    assert!(!follow_allowed(true, false, PlaybackState::Paused, true));
    assert!(!follow_allowed(true, true, PlaybackState::Playing, true));
    assert!(!follow_allowed(true, true, PlaybackState::Paused, false));
}

#[test]
fn only_a_product_of_one_sweep_follows() {
    let modeled = PaneProduct::Modeled(3);
    assert_eq!(follow_subject(&modeled, true, true, false), Some(3));
    assert_eq!(follow_subject(&modeled, true, true, true), None);
    assert_eq!(follow_subject(&modeled, false, true, false), None);
    assert_eq!(follow_subject(&modeled, true, false, false), None);
    let source = PaneProduct::Source("VL1_CRR".to_owned());
    assert_eq!(follow_subject(&source, true, true, false), None);
}

#[test]
fn the_tilt_of_every_pane_on_screen_follows() {
    let mut app = WorkstationApp::new(unlimited(), untouched());
    app.live.site = Some("KTLX".to_owned());
    install_partial(&mut app, 2, 720);
    app.set_layout(PaneLayout::Four);
    switch_on(&mut app, &newest(1, 30_000));
    for pane in 0..4 {
        assert_eq!(app.workspace.panes[pane].tilt, TiltSelection::CutIndex(1));
    }
}

#[test]
fn a_reveal_waits_for_the_picture_in_flight() {
    let mut app = WorkstationApp::new(unlimited(), untouched());
    assert!(!app.begin_sweep_round(true), "nothing is on screen");
    install_partial(&mut app, 1, 10);
    assert!(!app.begin_sweep_round(false), "animation is off");
    assert!(app.begin_sweep_round(true));
    let stamp = app.display.board.current_stamp(0);
    app.display.board.panes[0].pending_stamp = Some(stamp);
    let wish = Some(SweepWish { product: "REF".to_owned(), cut_index: 0, present: true });
    assert!(!app.ready_pane_sweep(0, wish));
    app.display.board.panes[0].pending_stamp = None;
    assert!(!app.ready_pane_sweep(0, None), "nothing to reveal");
    // A reveal that does not move asks for no picture.
    let wish = Some(SweepWish { product: "REF".to_owned(), cut_index: 0, present: true });
    assert!(app.ready_pane_sweep(0, wish));
    let state = SweepState { start_bits: 1, revealed_bits: 2, frontier_bits: 3, complete: false };
    app.step_pane_sweep(0, Some(state));
    let clock = app.display.board.panes[0].sweep_clock.current();
    app.step_pane_sweep(0, Some(state));
    assert_eq!(app.display.board.panes[0].sweep_clock.current(), clock);
    app.step_pane_sweep(0, Some(SweepState { revealed_bits: 9, ..state }));
    assert_ne!(app.display.board.panes[0].sweep_clock.current(), clock);
}
