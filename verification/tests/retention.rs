use workstation_app::app::WorkstationApp;
use workstation_app::frame::{FrameIdentity, FrameOrigin, FrameStage, VolumeFrame};
use workstation_app::history::{
    configured_history_policy, history_policy_status, live_history_policy, Disposition,
    HistoryPolicy, PlaybackState, VolumeHistory, LIVE_MAX_BYTES, LIVE_MAX_FRAMES,
};
use workstation_app::moment::Moment;
use workstation_app::readouts::history_size;
use workstation_app::settings::{iq_controls_from, Annotation, SettingsCache, WINDOW_VON_HANN};
use workstation_app::sweeps::{MeasureStep, MeasuredFor};

fn untouched() -> SettingsCache {
    let annotation = Annotation {
        ring_count: 4,
        ring_labels: true,
        site_declutter_max: 40,
        site_marker_max: 200,
        range_decimals: 1,
        coordinate_decimals: 4,
    };
    SettingsCache::new(true, annotation, iq_controls_from(64, WINDOW_VON_HANN))
}

fn policy(max_frames: usize, max_estimated_bytes: usize) -> HistoryPolicy {
    HistoryPolicy { max_frames, max_estimated_bytes }
}

fn live_default() -> HistoryPolicy {
    policy(LIVE_MAX_FRAMES, LIVE_MAX_BYTES)
}

fn frame(site: &str, seconds: i64, source: &str) -> VolumeFrame {
    VolumeFrame {
        identity: FrameIdentity {
            site_id: site.to_owned(),
            volume_time: Moment::new(seconds, 0).expect("a moment in range"),
        },
        origin: FrameOrigin::Local,
        stage: FrameStage::Complete,
        source_label: source.to_owned(),
        cuts: 1,
        radials: 360,
        estimated_bytes: 1_000,
        located: true,
        volume: 0,
    }
}

#[test]
fn timeline_status_names_unlimited_and_each_configured_dimension() {
    assert_eq!(history_policy_status(policy(0, 0)), "retention Unlimited");
    assert_eq!(
        history_policy_status(policy(30, 0)),
        "retention limit 30 frames / Unlimited RAM"
    );
    assert_eq!(
        history_policy_status(policy(0, 1024 * 1024 * 1024)),
        "retention limit Unlimited frames / 1.0 GiB RAM"
    );
}

#[test]
fn zero_settings_are_local_unlimited_but_live_safe_per_dimension() {
    let configured = configured_history_policy(0, 0);
    assert_eq!(configured, policy(0, 0));
    assert_eq!(live_history_policy(configured), live_default());

    // A local session actively replaces the live-safe default with the
    // operator's literal zero/Unlimited settings.
    let mut app = WorkstationApp::new(live_default(), untouched());
    let _ = app.begin_local_session(configured);
    assert_eq!(app.display.history.policy(), policy(0, 0));

    assert_eq!(
        live_history_policy(configured_history_policy(45, 0)),
        policy(45, live_default().max_estimated_bytes),
        "a positive configured dimension is preserved while zero gets only the live fallback"
    );
}

#[test]
fn a_configured_size_is_in_binary_megabytes_and_never_negative() {
    assert_eq!(configured_history_policy(12, 3), policy(12, 3 * 1_048_576));
    assert_eq!(configured_history_policy(-5, -1), policy(0, 0));
}

#[test]
fn stepping_between_equal_identity_sources_refreshes_frame_and_capabilities() {
    let mut app = WorkstationApp::new(policy(0, 0), untouched());
    let mut measured = MeasuredFor::new();
    let _ = app
        .display
        .history
        .install_distinct(frame("KTLX", 1_768_605_600, "selected/first.nc"));
    let _ = app
        .display
        .history
        .install_distinct(frame("KTLX", 1_768_605_600, "selected/second.nc"));
    assert!(app.display.history.select(0));
    assert!(matches!(
        measured.refresh_capabilities(&app.display.history),
        MeasureStep::Measure
    ));
    let before_signature = app.display.history.current_frame_signature();
    let before_label = measured.signature.as_ref().unwrap().key.source_label.clone();
    let before_clock = app.display.board.frame_clock.current();

    assert!(app.display.history.select(1));
    app.display.commit_history_selection(before_signature);
    assert_ne!(app.display.board.frame_clock.current(), before_clock);
    assert!(matches!(
        measured.refresh_capabilities(&app.display.history),
        MeasureStep::Measure
    ));
    assert_ne!(measured.signature.as_ref().unwrap().key.source_label, before_label);
    assert_eq!(
        app.display.history.current().unwrap().source_label,
        "selected/second.nc"
    );
    // Nothing moved: what was measured is kept.
    assert!(matches!(
        measured.refresh_capabilities(&app.display.history),
        MeasureStep::Keep
    ));
}

#[test]
fn frames_stand_by_radar_then_time_and_the_selection_stays_on_its_frame() {
    let mut history = VolumeHistory::new(policy(0, 0));
    let report = history.install(frame("KTLX", 100, "a"));
    assert_eq!(report.disposition, Disposition::Inserted);
    let _ = history.install(frame("KTLX", 200, "b"));
    assert!(history.select(0));
    let _ = history.install(frame("KABR", 500, "c"));
    let order: Vec<_> = history
        .frames()
        .iter()
        .map(|one| (one.identity.site_id.clone(), one.identity.volume_time.seconds()))
        .collect();
    assert_eq!(
        order,
        [
            ("KABR".to_owned(), 500),
            ("KTLX".to_owned(), 100),
            ("KTLX".to_owned(), 200),
        ]
    );
    assert_eq!(history.current().unwrap().source_label, "a");
    assert_eq!(history.selected_index(), Some(1));

    // The same scan again is replaced where it stands, not listed twice.
    let report = history.install(frame("KTLX", 100, "again"));
    assert_eq!(report.disposition, Disposition::Replaced);
    assert_eq!(history.len(), 3);
    assert_eq!(history.current().unwrap().source_label, "again");
    // Beside another source of the same scan it stands on its own.
    let report = history.install_distinct(frame("KTLX", 100, "other"));
    assert_eq!(report.disposition, Disposition::Inserted);
    assert_eq!(history.len(), 4);
}

#[test]
fn a_bounded_timeline_lets_the_first_frames_go() {
    let mut history = VolumeHistory::new(policy(2, 0));
    let _ = history.install(frame("KTLX", 100, "a"));
    let _ = history.install(frame("KTLX", 200, "b"));
    let report = history.install(frame("KTLX", 300, "c"));
    assert_eq!(report.evicted, 1);
    let kept: Vec<_> = history.frames().iter().map(|one| one.source_label.as_str()).collect();
    assert_eq!(kept, ["b", "c"]);
    // A bound on bytes does the same.
    assert_eq!(history.set_policy(policy(0, 1_500)), 1);
    assert_eq!(history.len(), 1);
    assert_eq!(history.estimated_bytes(), 1_000);
    assert_eq!(history_size(&history), "history 0.0 MiB");
}

#[test]
fn playback_wraps_and_a_selection_out_of_range_is_refused() {
    let mut history = VolumeHistory::new(policy(0, 0));
    assert!(!history.select(0));
    assert_eq!(history.selected_index(), None);
    for (seconds, label) in [(1, "a"), (2, "b"), (3, "c")] {
        let _ = history.install(frame("KTLX", seconds, label));
    }
    assert!(!history.select(3));
    assert!(history.select(2));
    history.advance_wrapping();
    assert_eq!(history.selected_index(), Some(0));
    history.advance_wrapping();
    assert_eq!(history.selected_index(), Some(1));
    history.set_playback(PlaybackState::Playing);
    assert_eq!(history.playback(), PlaybackState::Playing);
    history.go_live();
    assert_eq!(history.selected_index(), Some(2));
    assert!(history.at_live_edge());
    assert_eq!(history.current_frame_extent(), Some((1, 360)));
    history.clear();
    assert!(history.is_empty());
}
