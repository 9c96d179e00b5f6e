use workstation_app::app::WorkstationApp;
use workstation_app::clock::{Generation, RenderStamp};
use workstation_app::display::{PlaybackStep, PANE_WAIT_MS};
use workstation_app::frame::{FrameIdentity, FrameOrigin, FrameStage, VolumeFrame};
use workstation_app::history::{HistoryPolicy, PlaybackState};
use workstation_app::install::LoadedVolume;
use workstation_app::moment::Moment;
use workstation_app::panes::{
    texture_name, RenderDecision, RenderTerminal, RenderWish, RenderedPane, TextureAction,
};
use workstation_app::settings::{iq_controls_from, Annotation, SettingsCache, WINDOW_VON_HANN};
use workstation_app::source_field::source_field_2d_only_message;
use workstation_app::windows::ToolWindow;
use workstation_app::workspace::{modeled_product_or_source_field, PaneProduct};

fn untouched() -> SettingsCache {
    let annotation = Annotation {
        ring_count: 4,
        ring_labels: true,
        site_declutter_max: 40,
        site_marker_max: 200,
        range_decimals: 1,
        coordinate_decimals: 4,
    };
    SettingsCache::new(true, annotation, iq_controls_from(64, WINDOW_VON_HANN))
}

fn test_app() -> WorkstationApp {
    WorkstationApp::new(HistoryPolicy { max_frames: 0, max_estimated_bytes: 0 }, untouched())
}

fn renderable_volume(seconds: i64) -> VolumeFrame {
    VolumeFrame {
        identity: FrameIdentity {
            site_id: "KTLX".to_owned(),
            volume_time: Moment::new(seconds, 0).expect("a moment in range"),
        },
        origin: FrameOrigin::Live,
        stage: FrameStage::Complete,
        source_label: "test".to_owned(),
        cuts: 1,
        radials: 360,
        estimated_bytes: 1_000,
        located: true,
        volume: seconds as u64,
    }
}

fn install(app: &mut WorkstationApp, frame: VolumeFrame) {
    let generation = app.display.board.session_clock.current();
    let _ = app.install_loaded_volume(
        LoadedVolume { generation, frame, pulses: None, elapsed_ms: "1.0".to_owned() },
        &vec![],
    );
}

fn modeled_wish<'a>(product_id: &'a str, cut_index: Option<usize>) -> RenderWish<'a> {
    RenderWish {
        source_name: None,
        product_id,
        cut_index,
        measured: true,
        source_has_values: true,
    }
}

fn rendered(stamp: RenderStamp) -> RenderedPane {
    RenderedPane {
        pane: 0,
        stamp,
        width: 8,
        height: 8,
        elapsed_text: "2.0 ms".to_owned(),
        filter_line: None,
    }
}

/// Measure, ask for the first pane's picture, and let it land.
fn pump_render(app: &mut WorkstationApp) {
    app.display.board.update_viewport(0, true);
    if app.display.history.is_empty() {
        return;
    }
    match app.display.board.ensure_render_requested(0, &modeled_wish("REF", Some(0))) {
        RenderDecision::Ask { stamp, .. } => {
            app.display.board.note_request(0, stamp, true);
            assert_ne!(
                app.display.board.install_render(rendered(stamp)),
                TextureAction::Discard
            );
        }
        RenderDecision::Rest => {}
    }
    assert!(app.display.board.panes[0].pending_stamp.is_none());
}

#[test]
fn a_frame_change_keeps_the_last_picture_until_the_new_render_lands() {
    let mut app = test_app();
    install(&mut app, renderable_volume(1_700_000_000));
    install(&mut app, renderable_volume(1_700_000_360));
    pump_render(&mut app);
    let held = app.display.board.panes[0]
        .texture
        .as_ref()
        .expect("the live-edge frame rendered")
        .stamp;

    // Scrub back one frame, exactly as the timeline slider does.
    let before = app.display.history.current_frame_signature();
    assert!(app.display.history.select(0));
    app.display.history.set_playback(PlaybackState::Paused);
    app.display.commit_history_selection(before);

    let texture = app.display.board.panes[0]
        .texture
        .as_ref()
        .expect("the outgoing frame is HELD on a scrub, not blanked");
    assert_eq!(texture.stamp, held);
    assert_ne!(
        texture.stamp,
        app.display.board.current_stamp(0),
        "the held texture must read as stale"
    );
    let visible = app.workspace.visible_panes();
    assert!(
        !app.display.board.visible_panes_ready(&visible),
        "a held stale texture must not count as ready, or playback pacing breaks"
    );

    // The replacement still lands and swaps it.
    pump_render(&mut app);
    let swapped = app.display.board.panes[0]
        .texture
        .as_ref()
        .expect("the selected frame rendered");
    assert_eq!(swapped.stamp, app.display.board.current_stamp(0));
}

#[test]
fn a_product_or_tilt_change_keeps_the_texture_while_the_replacement_renders() {
    let mut app = test_app();
    install(&mut app, renderable_volume(1_700_000_000));
    pump_render(&mut app);
    assert!(app.display.board.panes[0].texture.is_some());

    app.display.board.invalidate_semantic_panes(&vec![0]);
    let texture = app.display.board.panes[0]
        .texture
        .as_ref()
        .expect("a product/tilt change must not blank the pane to bare basemap");
    assert_ne!(texture.stamp, app.display.board.current_stamp(0));
}

#[test]
fn a_failed_decode_never_blanks_a_frame_that_is_on_screen() {
    let mut app = test_app();
    install(&mut app, renderable_volume(1_700_000_000));
    pump_render(&mut app);

    app.handle_load_failure("KTLX live", "one bad chunk round trip");
    assert!(
        app.display.board.panes[0].texture.is_some(),
        "a failed live decode blanked an intact picture"
    );
    assert!(app.status.contains("one bad chunk round trip"));

    // Nothing on screen: the failure IS the load the analyst is waiting on, and
    // clearing is the honest answer.
    app.display.history.clear();
    app.handle_load_failure("C:/gone_V06", "could not read");
    assert!(app.display.board.panes[0].texture.is_none());
}

#[test]
fn a_failed_render_is_terminal_not_a_hot_loop() {
    let mut app = test_app();
    install(&mut app, renderable_volume(1_700_000_000));
    pump_render(&mut app);

    // A camera tick, then the worker reports failure for the new stamp.
    app.display.board.invalidate_view_panes(&vec![0]);
    let stamp = app.display.board.current_stamp(0);
    app.display.board.handle_render_failure(0, stamp, "no reflectivity cuts".to_owned());
    assert_eq!(app.display.board.panes[0].terminal, Some(RenderTerminal::Failed(stamp)));
    assert_eq!(app.display.board.panes[0].status, "no reflectivity cuts");

    // The identical stamp is never resubmitted...
    let wish = modeled_wish("REF", Some(0));
    assert!(matches!(
        app.display.board.ensure_render_requested(0, &wish),
        RenderDecision::Rest
    ));
    assert_eq!(
        app.display.board.panes[0].pending_stamp,
        None,
        "the doomed stamp was resubmitted - this is the render-worker hot loop"
    );
    // ...the pane does not gate playback...
    let visible = app.workspace.visible_panes();
    assert!(
        app.display.board.visible_panes_ready(&visible),
        "a terminal pane froze playback at a 60 Hz spin"
    );
    // ...and any clock bump retries on its own.
    app.display.board.invalidate_view_panes(&vec![0]);
    match app.display.board.ensure_render_requested(0, &wish) {
        RenderDecision::Ask { stamp, .. } => app.display.board.note_request(0, stamp, true),
        RenderDecision::Rest => panic!("a new stamp must retry"),
    }
    assert!(app.display.board.panes[0].pending_stamp.is_some(), "a new stamp must retry");
}

#[test]
fn playback_steps_past_a_pane_that_cannot_render() {
    let mut app = test_app();
    install(&mut app, renderable_volume(1_700_000_000));
    install(&mut app, renderable_volume(1_700_000_360));
    pump_render(&mut app);

    app.display.board.invalidate_view_panes(&vec![0]);
    let stamp = app.display.board.current_stamp(0);
    app.display.board.handle_render_failure(0, stamp, "implausible field".to_owned());

    app.display.history.set_playback(PlaybackState::Playing);
    let before = app.display.history.selected_index();
    let visible = app.workspace.visible_panes();
    assert_eq!(app.display.advance_playback(&visible, 2_000, 700), PlaybackStep::Stepped);
    assert_ne!(
        app.display.history.selected_index(),
        before,
        "playback froze on the failed render"
    );
}

#[test]
fn an_unavailable_product_is_terminal_and_does_not_gate_playback() {
    let mut app = test_app();
    install(&mut app, renderable_volume(1_700_000_000));
    app.display.board.update_viewport(0, true);
    // The volume carries reflectivity only; ask the pane for velocity.
    let decision = app.display.board.ensure_render_requested(0, &modeled_wish("DVEL", None));
    assert!(matches!(decision, RenderDecision::Rest));
    let stamp = app.display.board.current_stamp(0);
    assert_eq!(
        app.display.board.panes[0].terminal,
        Some(RenderTerminal::Unavailable(stamp))
    );
    assert!(app.display.board.panes[0].status.contains("unavailable"));
    let visible = app.workspace.visible_panes();
    assert!(
        app.display.board.visible_panes_ready(&visible),
        "an unavailable product froze playback"
    );
}

#[test]
fn source_field_static_tools_stop_before_the_reflectivity_default() {
    let mut app = test_app();
    app.apply_source_field_selection(0, "VL1_CRR");
    assert_eq!(
        modeled_product_or_source_field(&app.workspace.panes[0].product),
        Err("VL1_CRR"),
        "a producer-native id crossed the static resolver's REF default"
    );
    for tool in ["3D Volume", "Cross-section"] {
        let refusal = source_field_2d_only_message(tool, "VL1_CRR");
        assert!(refusal.contains("VL1_CRR"), "{refusal}");
        assert!(refusal.contains("2D only"), "{refusal}");
        assert!(!refusal.contains("REF"), "REF leaked into {refusal}");
        assert!(
            !refusal.contains("Reflectivity"),
            "reflectivity leaked into {refusal}"
        );
    }
    app.set_vol3d_open(true);

    // A slice and an armed placement from the previously selected modeled
    // product must not remain on glass behind the refusal.
    app.note_section_armed(true);
    app.note_section_line(true);
    assert!(app.tools.section_lined);
    app.note_section_armed(true);

    assert!(matches!(
        app.vol3d_window(),
        ToolWindow::Refused { producer, message } if producer == "VL1_CRR"
            && message == source_field_2d_only_message("3D Volume", "VL1_CRR")
    ));
    assert!(matches!(
        app.xsection_window(),
        ToolWindow::Refused { producer, message } if producer == "VL1_CRR"
            && message == source_field_2d_only_message("Cross-section", "VL1_CRR")
    ));
    assert!(!app.tools.section_armed);
    assert!(
        !app.tools.section_lined,
        "a modeled-product section line survived the source-field refusal"
    );
}

#[test]
fn a_tool_works_on_exactly_the_product_of_the_active_pane() {
    let mut app = test_app();
    app.apply_product_selection(0, 6);
    assert!(matches!(app.vol3d_window(), ToolWindow::Closed));
    assert!(matches!(app.xsection_window(), ToolWindow::Closed));
    app.set_vol3d_open(true);
    app.note_section_line(true);
    app.note_section_armed(true);
    assert!(matches!(app.vol3d_window(), ToolWindow::Modeled(6)));
    assert!(matches!(app.xsection_window(), ToolWindow::Modeled(6)));
    assert!(app.tools.section_armed && app.tools.section_lined);
    // A window that is closed refuses nothing and drops nothing.
    app.apply_source_field_selection(0, "VL1_CRR");
    app.set_section_open(false);
    assert!(matches!(app.xsection_window(), ToolWindow::Closed));
    assert!(app.tools.section_armed && app.tools.section_lined);
    app.note_section_line(false);
    assert!(!app.tools.section_lined && !app.tools.section_open);
}

#[test]
fn an_absent_source_field_clears_the_stale_product_raster() {
    let mut app = test_app();
    install(&mut app, renderable_volume(1_700_000_000));
    pump_render(&mut app);
    assert!(app.display.board.panes[0].texture.is_some());

    app.apply_source_field_selection(0, "ABSENT_NATIVE_FIELD");
    let wish = RenderWish {
        source_name: Some("ABSENT_NATIVE_FIELD"),
        product_id: "REF",
        cut_index: None,
        measured: true,
        source_has_values: false,
    };
    let _ = app.display.board.ensure_render_requested(0, &wish);

    assert!(app.display.board.panes[0].texture.is_none());
    assert!(app.display.board.panes[0]
        .status
        .contains("ABSENT_NATIVE_FIELD unavailable"));
    assert_eq!(
        app.display.board.panes[0].terminal,
        Some(RenderTerminal::Unavailable(app.display.board.current_stamp(0)))
    );
}

#[test]
fn an_all_nodata_source_field_clears_the_stale_product_raster() {
    let mut app = test_app();
    install(&mut app, renderable_volume(1_700_000_000));
    pump_render(&mut app);
    assert!(app.display.board.panes[0].texture.is_some());

    app.apply_source_field_selection(0, "EMPTY_NATIVE");
    let wish = RenderWish {
        source_name: Some("EMPTY_NATIVE"),
        product_id: "REF",
        cut_index: Some(0),
        measured: true,
        source_has_values: false,
    };
    let _ = app.display.board.ensure_render_requested(0, &wish);

    assert!(app.display.board.panes[0].texture.is_none());
    assert!(app.display.board.panes[0]
        .status
        .contains("EMPTY_NATIVE has no finite values"));
    assert_eq!(
        app.display.board.panes[0].terminal,
        Some(RenderTerminal::Unavailable(app.display.board.current_stamp(0)))
    );
}

#[test]
fn a_render_completed_mid_gesture_installs_under_its_own_camera() {
    let mut app = test_app();
    install(&mut app, renderable_volume(1_700_000_000));
    pump_render(&mut app);

    // The gesture: a pointer-move frame bumps the view clock.
    let old = app.display.board.current_stamp(0);
    app.display.board.invalidate_view_panes(&vec![0]);
    let current = app.display.board.current_stamp(0);
    assert_ne!(old, current);
    app.display.board.panes[0].pending_stamp = Some(current);

    // The worker finishes the render it started BEFORE the bump.
    assert_eq!(
        app.display.board.install_render(rendered(old)),
        TextureAction::Update,
        "the view-stale render was discarded - drag-start pixels for the whole gesture"
    );
    let texture = app.display.board.panes[0].texture.as_ref().expect("a texture");
    assert_eq!(texture.stamp, old, "it installs under its OWN stamp");
    assert_eq!(
        app.display.board.panes[0].pending_stamp,
        Some(current),
        "the exact-stamp render is still owed"
    );
    let visible = app.workspace.visible_panes();
    assert!(
        !app.display.board.visible_panes_ready(&visible),
        "stale pixels are not readiness"
    );

    // A render stale in its FRAME is still a different volume: discarded.
    let wrong_frame = RenderStamp {
        frame: Generation { value: 9_999 },
        ..app.display.board.current_stamp(0)
    };
    assert_eq!(
        app.display.board.install_render(rendered(wrong_frame)),
        TextureAction::Discard,
        "a frame-stale render must still be discarded"
    );
    assert_eq!(app.display.board.panes[0].texture.as_ref().unwrap().stamp, old);
}

#[test]
fn playback_waits_for_its_time_and_for_every_pane() {
    let mut app = test_app();
    let visible = app.workspace.visible_panes();
    install(&mut app, renderable_volume(1_700_000_000));
    install(&mut app, renderable_volume(1_700_000_360));
    assert_eq!(app.display.advance_playback(&visible, 9_000, 700), PlaybackStep::Idle);
    assert!(app.display.toggle_playback());
    assert_eq!(
        app.display.advance_playback(&visible, 700, 700),
        PlaybackStep::Wait(PANE_WAIT_MS)
    );
    pump_render(&mut app);
    assert_eq!(app.display.advance_playback(&visible, 100, 700), PlaybackStep::Wait(600));
    assert_eq!(app.display.advance_playback(&visible, 700, 700), PlaybackStep::Stepped);
    assert_eq!(app.display.history.selected_index(), Some(0));
    assert!(!app.display.toggle_playback());
}

#[test]
fn a_picture_of_another_size_is_a_new_texture() {
    let mut app = test_app();
    install(&mut app, renderable_volume(1_700_000_000));
    pump_render(&mut app);
    let mut wider = rendered(app.display.board.current_stamp(0));
    wider.width = 16;
    let name = texture_name(&wider);
    assert!(name.contains('0'), "{name}");
    assert_eq!(app.display.board.install_render(wider), TextureAction::Replace);
    assert_eq!(app.display.board.panes[0].texture.as_ref().unwrap().width, 16);
    assert_eq!(app.display.board.panes[0].status, "2.0 ms");
}

#[test]
fn a_product_the_analyst_chose_is_modeled() {
    let mut app = test_app();
    app.apply_product_selection(0, 7);
    assert_eq!(modeled_product_or_source_field(&app.workspace.panes[0].product), Ok(7));
    assert!(matches!(app.workspace.panes[0].product, PaneProduct::Modeled(7)));
}
