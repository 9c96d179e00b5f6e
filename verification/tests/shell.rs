use workstation_app::app::{PulseSession, WorkstationApp};
use workstation_app::canvas::{pane_subject, PaneAction, PaneFacts, PaneSubject};
use workstation_app::choices::Reestimate;
use workstation_app::clock::Generation;
use workstation_app::frame::{FrameIdentity, FrameOrigin, FrameStage, VolumeFrame};
use workstation_app::history::{
    HistoryPolicy, PlaybackState, LIVE_MAX_BYTES, LIVE_MAX_FRAMES,
};
use workstation_app::live::FeedFreshness;
use workstation_app::moment::Moment;
use workstation_app::readouts::SourcePalette;
use workstation_app::session::{FailureRoute, LiveUpdate, VolumeRoute};
use workstation_app::settings::{iq_controls_from, Annotation, SettingsCache, WINDOW_VON_HANN};
use workstation_app::sites::{PlaceStep, Warnings};
use workstation_app::toolbar::PaneClick;
use workstation_app::vrot::{VrotClick, VrotNext, VrotState};
use workstation_app::windows::imagery_provider;
use workstation_app::workspace::{PaneLayout, PaneProduct, TiltSelection};

fn untouched() -> SettingsCache {
    let annotation = Annotation {
        ring_count: 4,
        ring_labels: true,
        site_declutter_max: 40,
        site_marker_max: 200,
        range_decimals: 1,
        coordinate_decimals: 4,
    };
    SettingsCache::new(true, annotation, iq_controls_from(64, WINDOW_VON_HANN))
}

fn unlimited() -> HistoryPolicy {
    HistoryPolicy { max_frames: 0, max_estimated_bytes: 0 }
}

fn test_app() -> WorkstationApp {
    WorkstationApp::new(unlimited(), untouched())
}

fn frame(seconds: i64) -> VolumeFrame {
    VolumeFrame {
        identity: FrameIdentity {
            site_id: "KTLX".to_owned(),
            volume_time: Moment::new(seconds, 0).unwrap(),
        },
        origin: FrameOrigin::Live,
        stage: FrameStage::Complete,
        source_label: "x".to_owned(),
        cuts: 1,
        radials: 1,
        estimated_bytes: 1,
        located: true,
        volume: 1,
    }
}

fn click() -> PaneClick {
    PaneClick {
        clicked: true,
        vrot_active: false,
        source_field: false,
        section_wants: false,
        section_took: false,
        observation: None,
        site: None,
        nearest: false,
    }
}

#[test]
fn a_start_on_a_file_and_a_radar_remains_with_the_radar() {
    let mut app = test_app();
    assert_eq!(app.status, "Drop a Level II file here or enter a path above");
    assert_eq!(app.browse_near(), None);
    let actions = app.start(Some("dir/a_V06".to_owned()), Some("ktlx".to_owned()), unlimited());
    let load = actions.load.expect("the file is asked for");
    assert_eq!(load.path, "dir/a_V06");
    assert_eq!(load.origin, FrameOrigin::Local);
    let (generation, site, label) = actions.live.expect("the radar goes live");
    assert_eq!(site, "ktlx");
    assert!(label.contains("KTLX"), "{label}");
    assert_eq!(generation, app.display.board.session_clock.current());
    assert_ne!(load.generation, generation, "the file is of an earlier session");
    assert_eq!(app.route_volume(load.generation, FrameStage::Complete), VolumeRoute::Ignore);
    assert_eq!(app.route_volume(generation, FrameStage::Complete), VolumeRoute::Install);
    assert_eq!(app.browse_near().as_deref(), Some("dir/a_V06"));
}

#[test]
fn a_live_session_begins_bounded_and_reports_itself() {
    let mut app = test_app();
    let _ = app.display.history.install(frame(1));
    let (generation, _) = app.start_live("ktlx", unlimited());
    assert!(app.display.history.is_empty());
    assert_eq!(app.display.history.policy().max_frames, LIVE_MAX_FRAMES);
    assert_eq!(app.display.history.policy().max_estimated_bytes, LIVE_MAX_BYTES);
    app.note_live_start(Ok("KTLX".to_owned()));
    assert_eq!(app.live.site.as_deref(), Some("KTLX"));
    assert_eq!(app.remembered(), (Some("KTLX".to_owned()), true));

    assert!(app
        .take_live_update(LiveUpdate::Started { generation, site: "KTLX".to_owned() })
        .is_none());
    assert_eq!(app.status, "Live KTLX");
    assert_eq!(app.live.status, "waiting for volume");

    let newest = Moment::new(1_787_156_686, 0).unwrap();
    let report = LiveUpdate::FeedStatus {
        generation,
        site: "KTLX".to_owned(),
        newest_volume_time: newest,
        freshness: FeedFreshness::Current,
    };
    assert!(app.take_live_update(report).is_none());
    assert!(app.live.feed.is_some());
    // A report of an earlier session is not about this one.
    let stale = LiveUpdate::Started {
        generation: Generation { value: generation.value.wrapping_sub(1) },
        site: "KOAX".to_owned(),
    };
    assert!(app.take_live_update(stale).is_none());
    assert_eq!(app.status, "Live KTLX");

    app.note_live_start(Err("no such radar".to_owned()));
    assert_eq!(app.live.site, None);
    assert!(app.status.contains("no such radar"), "{}", app.status);
    app.stop_live();
    assert!(app.live.feed.is_none());
}

#[test]
fn a_failure_is_told_to_whom_it_concerns() {
    let mut app = test_app();
    let (request, _) = app.begin_load("dir/a".to_owned(), unlimited());
    app.note_load_started(request.generation, "dir/a");
    assert!(app.status.contains("dir/a"), "{}", app.status);
    let old = Generation { value: request.generation.value.wrapping_sub(1) };
    assert_eq!(app.take_load_failure(old, "dir/z", "late"), FailureRoute::Ignore);
    assert!(!app.status.contains("late"));
    assert_eq!(app.take_load_failure(request.generation, "dir/a", "broken"), FailureRoute::Told);
    assert_eq!(app.status, "dir/a: broken");
    app.note_load_worker_closed("dir/b");
    assert!(app.status.contains("dir/b"), "{}", app.status);
}

#[test]
fn clicks_on_a_pane_select_it_and_ask_for_what_they_hit() {
    let mut app = test_app();
    let station = PaneClick { observation: Some("KOKC".to_owned()), ..click() };
    assert!(matches!(app.take_pane_click(2, station), PaneAction::OpenHistory(id) if id == "KOKC"));
    assert_eq!(app.status, "Loading observation history for KOKC");
    assert_eq!(app.workspace.active_pane, 2);
    let site = PaneClick { site: Some("ktlx".to_owned()), ..click() };
    match app.take_pane_click(1, site) {
        PaneAction::StartLive(id, label) => assert_eq!((id.as_str(), label.as_str()), ("ktlx", "KTLX")),
        _ => panic!("the radar under the cursor goes live"),
    }
    let nearest = PaneClick { clicked: false, nearest: true, ..click() };
    assert!(matches!(app.take_pane_click(0, nearest), PaneAction::FindNearest));
    app.note_nearest_site("Nearest radar is KTLX".to_owned());
    assert_eq!(app.status, "Nearest radar is KTLX");
    let nothing = PaneClick { clicked: false, ..click() };
    assert!(matches!(app.take_pane_click(3, nothing), PaneAction::Nothing));
    assert_eq!(app.workspace.active_pane, 0);
}

#[test]
fn the_velocity_tool_takes_two_gates_of_one_pane() {
    let mut app = test_app();
    app.toggle_vrot();
    assert!(app.display.vrot.active);
    let gate = PaneClick { vrot_active: true, ..click() };
    assert!(matches!(app.take_pane_click(1, gate), PaneAction::SampleVrot));
    assert_eq!(app.begin_vrot_sample(1, true), VrotClick::Sample);
    assert_eq!(app.take_vrot_sample(false), VrotNext::Refused);
    assert_eq!(app.status, "Vrot: that point has no velocity");
    assert_eq!(app.take_vrot_sample(true), VrotNext::KeepFirst);
    assert_eq!(app.status, "Vrot: click the other side of the couplet");
    assert_eq!(app.take_vrot_sample(true), VrotNext::Measure);
    app.take_vrot_measurement(Ok("Vrot 58 kt (30.0 m/s)".to_owned()));
    assert_eq!(app.status, "Vrot 58 kt (30.0 m/s)");
    assert_eq!(app.display.vrot.state, VrotState::Complete);
    app.take_vrot_measurement(Err("too far apart".to_owned()));
    assert_eq!(app.status, "Vrot refused: too far apart");
    assert_eq!(app.display.vrot.state, VrotState::Idle);
    // Arming the cross-section puts the velocity tool down, and the other way
    // round: a click is never for both.
    app.note_section_armed(true);
    assert!(!app.display.vrot.active);
    app.toggle_vrot();
    assert!(!app.tools.section_armed);
    app.clear_vrot();
    assert_eq!(app.display.vrot.state, VrotState::Idle);
}

#[test]
fn a_source_field_says_so_wherever_it_is_drawn() {
    let now = Moment::new(1_787_156_820, 0).unwrap();
    let mut app = test_app();
    let _ = app.display.history.install(frame(1_787_156_686));
    app.apply_source_field_selection(0, "VL1_CRR");
    let facts = PaneFacts {
        palette: SourcePalette::Automatic,
        filter: None,
        filter_badge: None,
        hail_summary: None,
        provenance: None,
    };
    let texts = app.pane_texts(0, &facts, &now);
    assert!(texts.status.starts_with("SOURCE FIELD"), "{}", texts.status);
    assert_eq!(texts.badges.first().map(String::as_str), Some("SOURCE FIELD"));
    let product = &app.workspace.panes[0].product;
    assert_eq!(pane_subject(product, true), PaneSubject::SourceField);
    assert_eq!(pane_subject(product, false), PaneSubject::MissingField);
    assert_eq!(pane_subject(&PaneProduct::Modeled(3), false), PaneSubject::Product);
    let wake = app.wake_up(false, &now);
    assert_eq!((wake.frame_ms, wake.age_seconds), (None, Some(46)));
    assert_eq!(app.wake_up(true, &now).frame_ms, Some(16));
}

#[test]
fn linked_panes_share_a_product_and_a_tilt() {
    let mut app = test_app();
    app.set_layout(PaneLayout::Four);
    app.workspace.panes[0].product_link = Some(1);
    app.workspace.panes[2].product_link = Some(1);
    app.apply_product_selection(0, 4);
    assert!(matches!(app.workspace.panes[2].product, PaneProduct::Modeled(4)));
    assert!(matches!(app.workspace.panes[1].product, PaneProduct::Modeled(0)));
    app.workspace.panes[0].tilt_link = Some(2);
    app.workspace.panes[3].tilt_link = Some(2);
    app.set_active(0);
    let _ = app.display.history.install(frame(1));
    app.change_active_tilt(Some(2), false, &vec![None, None, None, None]);
    assert_eq!(app.workspace.panes[3].tilt, TiltSelection::CutIndex(2));
    assert_eq!(app.workspace.panes[1].tilt, TiltSelection::LowestAvailable);
    let linked = app.workspace.cameras_linked();
    app.set_camera_links(!linked);
    assert_eq!(app.workspace.cameras_linked(), !linked);
    app.set_camera_links(true);
    app.set_camera_links(true);
    assert!(app.workspace.cameras_linked());
    app.set_camera_links(false);
    assert!(!app.workspace.cameras_linked());
}

#[test]
fn switches_of_the_picture() {
    let mut app = test_app();
    let now = Moment::new(1_000, 0).unwrap();
    let mut warnings = Warnings::new("live".to_owned());
    assert_eq!(warnings.refresh_placed_hazards(true, Some(1), 10, &now).0, PlaceStep::Place);
    warnings.note_placed_hazards(4);
    // The map answers the click in the frame it falls in.
    assert_eq!(app.toggle_warnings(&mut warnings, Some(1), 11, &now), (false, PlaceStep::Drop, None));
    assert_eq!(warnings.placed, 0);
    let (shown, step, when) = app.toggle_warnings(&mut warnings, Some(1), 12, &now);
    assert!(shown);
    assert_eq!(step, PlaceStep::Place);
    assert_eq!(when.as_deref(), Some("1970-01-01T00:16:40Z"));
    assert_eq!((warnings.placed_for, warnings.placed_at_ms), (Some(1), Some(12)));
    app.set_vol3d_open(true);
    assert!(app.tools.vol3d_open);
    let clock = app.display.board.palette_clock.current();
    app.note_palette_change();
    assert_ne!(app.display.board.palette_clock.current(), clock);
    let status = app.status.clone();
    app.note_filter_cleared(true);
    assert_eq!(app.status, status, "a filter that still hides something is not off");
    app.note_filter_cleared(false);
    assert_ne!(app.status, status);
    app.set_initial_product(Some(6));
    assert!(matches!(app.workspace.panes[0].product, PaneProduct::Modeled(6)));
    app.set_initial_camera(true, true);
}

#[test]
fn a_record_of_pulses_is_estimated_anew() {
    let mut app = test_app();
    let _ = app.display.history.install(frame(10));
    app.pulses = Some(PulseSession { site_id: "KTLX".to_owned(), snr_available: true });
    app.apply_timeseries_settings(Reestimate::Unchanged);
    app.apply_timeseries_settings(Reestimate::Refused("too few pulses".to_owned()));
    assert!(app.status.contains("too few pulses"), "{}", app.status);
    let mut again = frame(10);
    again.volume = 2;
    app.apply_timeseries_settings(Reestimate::Done {
        frame: again,
        provenance: "32 pulses".to_owned(),
    });
    assert_eq!(app.status, "Level 1: 32 pulses");
    assert_eq!(app.display.history.len(), 1);
    assert_eq!(app.display.history.current().unwrap().volume, 2);
}

#[test]
fn imagery_that_may_not_be_shown_is_not_chosen() {
    let keys = vec!["none".to_owned(), "usgs".to_owned(), "other".to_owned()];
    let permitted = vec![true, true, false];
    assert_eq!(imagery_provider(&keys, &permitted, "usgs"), Some(1));
    assert_eq!(imagery_provider(&keys, &permitted, "other"), None);
    assert_eq!(imagery_provider(&keys, &permitted, "stranger"), None);
}

#[test]
fn a_workstation_that_has_loaded_nothing_is_at_rest() {
    let app = test_app();
    assert!(!app.display.vrot.active);
    assert_eq!(app.display.vrot.state, VrotState::Idle);
    assert_eq!(app.display.history.playback(), PlaybackState::Paused);
    assert!(app.display.history.follows_live());
    assert_eq!(app.display.board.session_clock.current(), Generation { value: 0 });
    assert_eq!(app.planner.clock.current(), Generation { value: 0 });
    assert_eq!(app.exporter.next_capture_id, 0);
    assert!(app.exporter.notice.is_none());
    assert!(app.settings_cache == untouched());
}

#[test]
fn every_request_carries_what_pulses_are_estimated_with() {
    let mut app = test_app();
    app.settings_cache.iq_controls = iq_controls_from(17, "hamming");
    let wanted = app.settings_cache.iq_controls;
    let (request, _) = app.begin_load("dir/a".to_owned(), unlimited());
    assert_eq!(request.iq_controls, wanted);
    let (generation, _) = app.start_live("KTLX", unlimited());
    app.settings_cache.iq_controls = iq_controls_from(33, WINDOW_VON_HANN);
    let request = app
        .take_live_update(LiveUpdate::VolumeReady {
            generation,
            site: "KTLX".to_owned(),
            path: "cache/KTLX_V06".to_owned(),
            stage: FrameStage::Partial,
            when: "now".to_owned(),
            chunk_count: 1,
            total_size: 1,
            cache_hit: true,
        })
        .expect("the volume is decoded");
    assert_eq!(request.iq_controls.dwell_pulses, 33);
}
