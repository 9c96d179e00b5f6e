use workstation_app::app::{PulseSession, WorkstationApp};
use workstation_app::canvas::PaneFacts;
use workstation_app::frame::{FrameIdentity, FrameOrigin, FrameStage, VolumeFrame};
use workstation_app::history::HistoryPolicy;
use workstation_app::install::{ground_move, GroundMove, LoadedVolume};
use workstation_app::moment::Moment;
use workstation_app::readouts::{frame_position_is_known, SourcePalette};
use workstation_app::settings::{iq_controls_from, Annotation, SettingsCache, WINDOW_VON_HANN};
use workstation_app::sites::{time_series_site, LocatedSite, SiteDirectory};
use workstation_app::workspace::{PaneProduct, REFLECTIVITY, RELATIVE_POWER};

fn untouched() -> SettingsCache {
    let annotation = Annotation {
        ring_count: 4,
        ring_labels: true,
        site_declutter_max: 40,
        site_marker_max: 200,
        range_decimals: 1,
        coordinate_decimals: 4,
    };
    SettingsCache::new(true, annotation, iq_controls_from(64, WINDOW_VON_HANN))
}

const VELOCITY: u16 = 6;

fn test_app() -> WorkstationApp {
    WorkstationApp::new(HistoryPolicy { max_frames: 0, max_estimated_bytes: 0 }, untouched())
}

/// A sweep staring in one direction, as the application opens a record of it with
/// no directory at hand.
fn install_time_series(app: &mut WorkstationApp, site: &str, calibrated: bool) {
    let generation = app.display.board.session_clock.current();
    let site = site.strip_suffix("_RVP").unwrap_or(site);
    let frame = VolumeFrame {
        identity: FrameIdentity {
            site_id: site.to_owned(),
            volume_time: Moment::new(1_369_079_161, 0).unwrap(),
        },
        origin: FrameOrigin::Local,
        stage: FrameStage::Complete,
        source_label: "stare.iqd".to_owned(),
        cuts: 1,
        radials: 16,
        estimated_bytes: 1_000,
        located: false,
        volume: 1,
    };
    let pulses = PulseSession { site_id: site.to_owned(), snr_available: calibrated };
    let mut loaded =
        LoadedVolume { generation, frame, pulses: Some(pulses), elapsed_ms: "1.0".to_owned() };
    let research = if site == "KOUN" { Some(research_koun()) } else { None };
    let found = loaded.locate_loaded_time_series(&vec![], research);
    assert_eq!(found.is_some(), loaded.frame.located);
    let _ = app.install_loaded_volume(loaded, &vec![]);
}

fn research_koun() -> LocatedSite {
    LocatedSite {
        id: "KOUN".to_owned(),
        name: None,
        latitude_bits: 35.236058_f64.to_bits(),
        longitude_bits: (-97.46235_f64).to_bits(),
    }
}

#[test]
fn an_uncalibrated_iq_cube_opens_on_relative_power_instead_of_a_blank_ref_pane() {
    let mut app = test_app();
    let active = app.workspace.active_pane;
    assert!(
        matches!(app.workspace.panes[active].product, PaneProduct::Modeled(REFLECTIVITY)),
        "fixture starts on the ordinary workspace default"
    );

    install_time_series(&mut app, "OUPRIME", false);

    assert!(matches!(
        app.workspace.panes[active].product,
        PaneProduct::Modeled(RELATIVE_POWER)
    ));
    assert!(app.fallback_from_ref[active]);
    assert!(app.pulses.is_some(), "I/Q session stays installed");
}

#[test]
fn relative_power_fallback_restores_ref_for_the_next_calibrated_source() {
    let mut app = test_app();
    let active = app.workspace.active_pane;
    install_time_series(&mut app, "OUPRIME", false);
    assert!(matches!(
        app.workspace.panes[active].product,
        PaneProduct::Modeled(RELATIVE_POWER)
    ));

    install_time_series(&mut app, "KOUN", true);
    assert!(
        matches!(app.workspace.panes[active].product, PaneProduct::Modeled(REFLECTIVITY)),
        "the app-owned fallback must not leak into the next source"
    );
    assert!(!app.fallback_from_ref[active]);
}

#[test]
fn explicit_product_choice_cancels_relative_power_fallback_restoration() {
    let mut app = test_app();
    let active = app.workspace.active_pane;
    install_time_series(&mut app, "OUPRIME", false);

    app.apply_product_selection(active, VELOCITY);
    assert!(!app.fallback_from_ref[active]);
    install_time_series(&mut app, "KOUN", true);
    assert!(
        matches!(app.workspace.panes[active].product, PaneProduct::Modeled(VELOCITY)),
        "a real analyst choice must not be mistaken for the app-owned fallback"
    );
}

#[test]
fn a_sweep_with_no_position_gets_no_geography_to_be_drawn_over() {
    let now = Moment::new(1_369_079_200, 0).unwrap();
    let mut app = test_app();
    install_time_series(&mut app, "ZQZQ_RVP", true);
    assert!(!frame_position_is_known(app.display.history.current()));

    let facts = PaneFacts {
        palette: SourcePalette::Automatic,
        filter: None,
        filter_badge: None,
        hail_summary: None,
        provenance: Some("Level 1 · 32 pulses"),
    };
    let texts = app.pane_texts(0, &facts, &now);
    assert!(
        texts.status.contains("POSITION UNKNOWN"),
        "the pane does not admit it has no position: {}",
        texts.status
    );
    // And nothing geographic reaches the pane to be drawn.
    assert!(!texts.map.projection);
    assert!(!texts.map.geometry);
    assert!(!texts.map.tiles);
    assert!(!texts.map.sites);
    assert!(!texts.map.hazards);

    // The control: a frame that DOES know where it is gets all of it back.
    let generation = app.display.board.session_clock.current();
    let located = VolumeFrame {
        identity: FrameIdentity {
            site_id: "KTLX".to_owned(),
            volume_time: Moment::new(1_369_079_180, 0).unwrap(),
        },
        origin: FrameOrigin::Live,
        stage: FrameStage::Complete,
        source_label: "test".to_owned(),
        cuts: 0,
        radials: 0,
        estimated_bytes: 0,
        located: true,
        volume: 2,
    };
    let _ = app.install_loaded_volume(
        LoadedVolume { generation, frame: located, pulses: None, elapsed_ms: "1.0".to_owned() },
        &vec![],
    );
    // The history keeps the sweep that was already selected, and orders frames
    // by site before time, so the new one is not simply the last: scrub to it by
    // name.
    let ktlx = app
        .display
        .history
        .frames()
        .iter()
        .position(|frame| frame.identity.site_id == "KTLX")
        .expect("the located volume is in the history");
    assert!(app.display.history.select(ktlx));
    assert!(frame_position_is_known(app.display.history.current()));
    let texts = app.pane_texts(0, &facts, &now);
    assert!(texts.map.projection, "a located frame lost its projection too");
    assert!(texts.map.geometry && texts.map.tiles && texts.map.sites && texts.map.hazards);
}

#[test]
fn a_research_radar_is_placed_from_the_sourced_table_with_no_directory() {
    let mut app = test_app();
    install_time_series(&mut app, "KOUN_RVP", true);

    assert!(
        frame_position_is_known(app.display.history.current()),
        "the reference record's own site is still unplaced"
    );
    let frame = app.display.history.current().expect("the record is installed");
    assert_eq!(frame.identity.site_id, "KOUN");
    let sourced = time_series_site(&vec![], "KOUN", Some(research_koun())).expect("KOUN is sourced");
    assert_eq!(f64::from_bits(sourced.latitude_bits), 35.236058);
    assert_eq!(f64::from_bits(sourced.longitude_bits), -97.46235);

    // And the geography the unlocated case withholds is now handed to the pane.
    let facts = PaneFacts {
        palette: SourcePalette::Automatic,
        filter: None,
        filter_badge: None,
        hail_summary: None,
        provenance: None,
    };
    let now = Moment::new(1_369_079_200, 0).unwrap();
    assert!(app.pane_texts(0, &facts, &now).map.projection);
}

#[test]
fn a_frame_that_waits_is_placed_when_the_directory_arrives() {
    let mut app = test_app();
    install_time_series(&mut app, "KTLX_RVP", true);
    assert!(!frame_position_is_known(app.display.history.current()));
    let directory = vec![LocatedSite { id: "KTLX".to_owned(), ..research_koun() }];
    let found = app.locate_time_series_frame(&directory, None).expect("the directory has it");
    assert_eq!(found.id, "KTLX");
    assert!(frame_position_is_known(app.display.history.current()));
    assert_eq!(app.display.history.len(), 1, "the frame is placed where it stands");
    // A frame that is placed is left alone.
    assert!(app.locate_time_series_frame(&directory, None).is_none());
    let clock = app.display.board.frame_clock.current();
    let mut known = SiteDirectory::new();
    known.placed_for = Some(9);
    app.note_frame_located(&vec![0], &mut known);
    assert_eq!(known.placed_for, None);
    assert_ne!(app.display.board.frame_clock.current(), clock);
    assert!(app.display.board.panes[0].pending_stamp.is_none());
}

#[test]
fn an_unsourced_site_still_installs_with_no_position() {
    let mut app = test_app();
    install_time_series(&mut app, "ZQZQ_RVP", true);
    assert!(app.locate_time_series_frame(&vec![], None).is_none());
    let frame = app.display.history.current().expect("the record is installed");
    assert!(!frame.located);
    assert!(!frame_position_is_known(app.display.history.current()));
}

#[test]
fn a_volume_of_an_earlier_request_changes_nothing() {
    let mut app = test_app();
    let old = app.display.board.session_clock.current();
    let _ = app.begin_local_session(HistoryPolicy { max_frames: 0, max_estimated_bytes: 0 });
    let frame = VolumeFrame {
        identity: FrameIdentity {
            site_id: "KTLX".to_owned(),
            volume_time: Moment::new(5, 0).unwrap(),
        },
        origin: FrameOrigin::Local,
        stage: FrameStage::Complete,
        source_label: "late".to_owned(),
        cuts: 1,
        radials: 1,
        estimated_bytes: 1,
        located: true,
        volume: 1,
    };
    let report = app.install_loaded_volume(
        LoadedVolume { generation: old, frame, pulses: None, elapsed_ms: "1.0".to_owned() },
        &vec![],
    );
    assert!(report.is_none());
    assert!(app.display.history.is_empty());
}

#[test]
fn the_ground_moves_when_a_radar_is_opened_and_when_it_changes() {
    assert_eq!(ground_move(true, true, false), GroundMove::LeaveOverview);
    assert_eq!(ground_move(true, false, true), GroundMove::LeaveOverview);
    assert_eq!(ground_move(true, false, false), GroundMove::Kept);
    assert_eq!(ground_move(false, false, true), GroundMove::Kept);
    assert_eq!(ground_move(false, true, false), GroundMove::SiteChange);
    assert_eq!(ground_move(false, false, false), GroundMove::Kept);
}
