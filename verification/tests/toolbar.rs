use workstation_app::app::WorkstationApp;
use workstation_app::bar::{
    bar_controls, bar_texts, control_label, menu_controls, BarWords, Control, MenuTitle,
};
use workstation_app::frame::{FrameIdentity, FrameOrigin, FrameStage, VolumeFrame};
use workstation_app::history::{HistoryPolicy, PlaybackState};
use workstation_app::moment::Moment;
use workstation_app::settings::{
    iq_controls_from, Annotation, SettingsCache, ToolbarStyle, WINDOW_VON_HANN,
};
use workstation_app::toolbar::{
    decode_line, follow_hover, follow_label, history_button, layers_menu_steps, next_wake,
    observations_line, offers_section, palette_installed_line, palette_reset_line,
    palette_saved_line, pane_map, route_click, source_palette_action, source_palette_binding,
    source_palette_hover, source_palette_label, timeline_controls, toolbar_steps, vrot_bar_text,
    warnings_chip, ClickRoute, LayerClicks, LayerState, LayerStep, PaletteAction, PaletteOrigin,
    PaneClick, TimelineClicks, ToolbarClicks, ToolbarState, ToolbarStep,
};
use workstation_app::workspace::{PaneLayout, PaneProduct};

fn untouched() -> SettingsCache {
    let annotation = Annotation {
        ring_count: 4,
        ring_labels: true,
        site_declutter_max: 40,
        site_marker_max: 200,
        range_decimals: 1,
        coordinate_decimals: 4,
    };
    SettingsCache::new(true, annotation, iq_controls_from(64, WINDOW_VON_HANN))
}

fn test_app() -> WorkstationApp {
    WorkstationApp::new(HistoryPolicy { max_frames: 0, max_estimated_bytes: 0 }, untouched())
}

fn no_clicks() -> ToolbarClicks {
    ToolbarClicks {
        palette_changed: false,
        filter_changed: false,
        quality_changed: false,
        open_browser: false,
        export_view: false,
        export_loop: false,
        open_online: false,
        load: false,
        live: false,
        layout: PaneLayout::One,
        product: None,
        source_field: None,
        tilt_down: false,
        tilt_up: false,
        toggle_follow: false,
        open_follow_settings: false,
        toggle_warnings: false,
        toggle_camera_links: false,
    }
}

fn bar() -> ToolbarState<'static> {
    ToolbarState {
        source_path: "  C:/case/KTLX  ",
        site_text: " KTLX ",
        live: false,
        layout: PaneLayout::One,
        active_pane: 2,
        product: 0,
        frames: 2,
        loop_exporting: false,
        view_exporting: false,
        follow_enabled: true,
        cameras_linked: true,
    }
}

#[test]
fn a_frame_without_a_click_does_nothing() {
    assert!(toolbar_steps(&no_clicks(), &bar()).is_empty());
}

#[test]
fn the_clicks_of_one_frame_are_done_in_order() {
    let clicks = ToolbarClicks {
        palette_changed: true,
        filter_changed: true,
        quality_changed: true,
        open_browser: true,
        export_view: true,
        export_loop: true,
        open_online: true,
        load: true,
        live: true,
        layout: PaneLayout::Four,
        product: Some(5),
        source_field: None,
        tilt_down: true,
        tilt_up: true,
        toggle_follow: true,
        open_follow_settings: true,
        toggle_warnings: true,
        toggle_camera_links: true,
    };
    let steps = toolbar_steps(&clicks, &bar());
    assert_eq!(steps.len(), 15);
    assert!(matches!(steps[0], ToolbarStep::ReadFilter));
    assert!(matches!(steps[1], ToolbarStep::Redraw));
    assert!(matches!(steps[2], ToolbarStep::OpenBrowser));
    assert!(matches!(steps[3], ToolbarStep::ExportView));
    assert!(matches!(steps[4], ToolbarStep::ExportLoop));
    assert!(matches!(steps[5], ToolbarStep::OpenOnline));
    assert!(matches!(&steps[6], ToolbarStep::Load(path) if path == "C:/case/KTLX"));
    assert!(matches!(&steps[7], ToolbarStep::StartLive(site) if site == "KTLX"));
    assert!(matches!(steps[8], ToolbarStep::SetLayout(PaneLayout::Four)));
    assert!(matches!(steps[9], ToolbarStep::ChooseProduct { pane: 2, code: 5 }));
    assert!(matches!(steps[10], ToolbarStep::TiltUp));
    assert!(matches!(steps[11], ToolbarStep::SetFollow(false)));
    assert!(matches!(steps[12], ToolbarStep::OpenDataSettings));
    assert!(matches!(steps[13], ToolbarStep::ToggleWarnings));
    assert!(matches!(steps[14], ToolbarStep::SetCameraLinks(false)));
}

#[test]
fn what_the_bar_holds_decides_what_a_click_does() {
    let mut clicks = no_clicks();
    clicks.live = true;
    clicks.load = true;
    clicks.export_view = true;
    clicks.export_loop = true;
    clicks.product = Some(0);
    let empty = ToolbarState { source_path: " ", site_text: "", frames: 0, ..bar() };
    let steps = toolbar_steps(&clicks, &empty);
    assert_eq!(steps.len(), 1, "only the window itself can be exported");
    assert!(matches!(steps[0], ToolbarStep::ExportView));
    let busy = ToolbarState { live: true, loop_exporting: true, source_path: "", ..bar() };
    let steps = toolbar_steps(&clicks, &busy);
    assert_eq!(steps.len(), 1);
    assert!(matches!(steps[0], ToolbarStep::StopLive));

    let mut clicks = no_clicks();
    clicks.source_field = Some("VL1_CRR".to_owned());
    clicks.product = Some(9);
    clicks.tilt_down = true;
    let steps = toolbar_steps(&clicks, &bar());
    assert!(
        matches!(&steps[0], ToolbarStep::ChooseSource { pane: 2, name } if name == "VL1_CRR")
    );
    assert!(matches!(steps[1], ToolbarStep::TiltDown));
    assert_eq!(steps.len(), 2);
}

#[test]
fn the_opening_click_opens_the_picker() {
    let mut app = test_app();
    assert_eq!(app.click_picker(true), (true, true));
    app.close_picker(false, false);
    assert_eq!(app.click_picker(false), (true, false));
    app.close_picker(true, false);
    assert_eq!(app.click_picker(false), (false, false));
    assert_eq!(app.click_picker(true), (true, true));
    assert_eq!(app.click_picker(true), (false, false));
}

#[test]
fn the_layer_menu_acts_on_what_is_shown() {
    let every = LayerClicks {
        observations: false,
        mesonet: true,
        refresh_observations: true,
        open_history: true,
        open_settings: true,
        placefiles: true,
        manage_placefiles: true,
        refresh_placefiles: true,
    };
    let shown = LayerState {
        observations: true,
        mesonet: false,
        station: true,
        placefiles: true,
        any_placefile: true,
    };
    assert_eq!(
        layers_menu_steps(every, shown),
        [
            LayerStep::SetMesonet(true),
            LayerStep::RefreshObservations,
            LayerStep::OpenHistory,
            LayerStep::OpenObservationSettings,
            LayerStep::SetPlacefiles(false),
            LayerStep::OpenPlacefiles,
            LayerStep::RefreshPlacefiles,
        ]
    );
    let hidden = LayerState {
        observations: false,
        station: false,
        any_placefile: false,
        ..shown
    };
    assert_eq!(
        layers_menu_steps(every, hidden),
        [
            LayerStep::OpenObservationSettings,
            LayerStep::SetPlacefiles(false),
            LayerStep::OpenPlacefiles,
        ]
    );
    let switched = LayerClicks { observations: true, ..every };
    assert_eq!(
        layers_menu_steps(switched, hidden)[..2],
        [LayerStep::SetObservations(true), LayerStep::SetMesonet(true)]
    );
}

#[test]
fn the_bars_texts() {
    assert!(follow_label(true, "1.5").contains("1.5"));
    assert_ne!(follow_label(true, "1.5"), follow_label(false, "1.5"));
    assert!(follow_hover("1.5", 20).contains("20"));
    assert!(warnings_chip("Warnings", Some(3)).contains('3'));
    assert_eq!(warnings_chip("Warnings", None), "Warnings");
    assert_eq!(vrot_bar_text("Vrot 58 kt (30.0 m/s)", None), "Vrot 58 kt (30.0 m/s)");
    assert!(vrot_bar_text("Vrot", Some("new volume")).contains("new volume"));
    assert_eq!(observations_line(4, "fresh"), "4 reporting stations · fresh");
    assert_eq!(history_button("KOKC"), "Open KOKC observation history…");
    assert_eq!(decode_line("12.3"), "decode 12.3 ms");
}

#[test]
fn a_palette_says_how_long_it_stays() {
    assert_eq!(
        source_palette_label(PaletteOrigin::Automatic, "-1.000", "2.500"),
        "AUTO -1.000…2.500"
    );
    assert_eq!(
        source_palette_label(PaletteOrigin::Saved, "0", "1"),
        "CUSTOM · SAVED 0…1"
    );
    assert_eq!(source_palette_binding(PaletteOrigin::Automatic), None);
    assert!(source_palette_binding(PaletteOrigin::Session).unwrap().contains("Session-only"));
    assert!(source_palette_hover(PaletteOrigin::Saved).contains("Reset"));
    assert_eq!(source_palette_action(PaletteOrigin::Automatic, false, true), None);
    assert_eq!(
        source_palette_action(PaletteOrigin::Saved, true, true),
        Some(PaletteAction::Reset)
    );
    assert_eq!(
        source_palette_action(PaletteOrigin::Automatic, true, true),
        Some(PaletteAction::Edit)
    );
    assert_eq!(
        palette_reset_line(Some("VL1")),
        "VL1 palette reset to automatic observed range"
    );
    assert_eq!(
        palette_reset_line(None),
        "source field palette reset to automatic observed range"
    );
    assert!(palette_installed_line("VL1", true).contains("return after restart"));
    assert!(palette_installed_line("VL1", false).contains("undo"));
    assert_eq!(palette_saved_line("a.pal", None), "Colour table saved to a.pal");
    assert_eq!(
        palette_saved_line("a.pal", Some("VL1")),
        "Colour table saved to a.pal · VL1 binding saved for restart"
    );
}

fn frame(seconds: i64) -> VolumeFrame {
    VolumeFrame {
        identity: FrameIdentity {
            site_id: "KTLX".to_owned(),
            volume_time: Moment::new(seconds, 0).unwrap(),
        },
        origin: FrameOrigin::Local,
        stage: FrameStage::Complete,
        source_label: "x".to_owned(),
        cuts: 1,
        radials: 1,
        estimated_bytes: 1,
        located: true,
        volume: 1,
    }
}

fn no_timeline_clicks() -> TimelineClicks {
    TimelineClicks {
        previous: false,
        play: false,
        next: false,
        go_live: false,
        export: false,
        slide: None,
    }
}

#[test]
fn the_timeline_steps_slides_and_plays() {
    let mut app = test_app();
    for seconds in [1, 2, 3] {
        let _ = app.display.history.install(frame(seconds));
    }
    assert!(app.display.history.select(1));
    let next = TimelineClicks { next: true, ..no_timeline_clicks() };
    assert_eq!(app.timeline_actions(next, false), (false, false));
    assert_eq!(app.display.history.selected_index(), Some(2));
    let _ = app.timeline_actions(next, false);
    assert_eq!(app.display.history.selected_index(), Some(2), "there is nothing behind the last");
    let previous = TimelineClicks { previous: true, ..no_timeline_clicks() };
    let _ = app.timeline_actions(previous, false);
    assert_eq!(app.display.history.selected_index(), Some(1));
    let slide = TimelineClicks { slide: Some(0), next: true, ..no_timeline_clicks() };
    let _ = app.timeline_actions(slide, false);
    assert_eq!(app.display.history.selected_index(), Some(0));
    let play = TimelineClicks { play: true, export: true, ..no_timeline_clicks() };
    assert_eq!(app.timeline_actions(play, false), (true, true));
    assert_eq!(app.display.history.playback(), PlaybackState::Playing);
    assert_eq!(app.timeline_actions(play, true), (false, false));
    let live = TimelineClicks { go_live: true, slide: Some(0), ..no_timeline_clicks() };
    let _ = app.timeline_actions(live, false);
    assert_eq!(app.display.history.selected_index(), Some(2));
    assert!(app.display.history.follows_live());
}

#[test]
fn an_export_has_the_timeline() {
    let mut app = test_app();
    for seconds in [1, 2] {
        let _ = app.display.history.install(frame(seconds));
    }
    app.begin_loop_export(false, "loop".to_owned(), 700);
    let every = TimelineClicks {
        previous: true,
        play: true,
        next: true,
        go_live: true,
        export: true,
        slide: Some(1),
    };
    assert_eq!(app.timeline_actions(every, false), (false, false));
    assert_eq!(app.display.history.selected_index(), Some(0));
    assert_eq!(app.display.history.playback(), PlaybackState::Paused);
    let controls = timeline_controls(2, 0, true, false);
    assert!(!controls.step && !controls.next && !controls.go_live && !controls.export);
    let alone = timeline_controls(1, 0, false, false);
    assert!(!alone.step && !alone.next && alone.go_live && alone.export);
}

#[test]
fn a_click_on_a_pane_is_for_one_thing() {
    let click = |vrot: bool, source: bool| PaneClick {
        clicked: true,
        vrot_active: vrot,
        source_field: source,
        section_wants: true,
        section_took: true,
        observation: Some("KOKC".to_owned()),
        site: Some("KTLX".to_owned()),
        nearest: false,
    };
    assert_eq!(route_click(&click(true, false)), ClickRoute::VrotGate);
    assert!(!offers_section(&click(true, false)));
    // A field under its producer's own name is no velocity.
    assert_ne!(route_click(&click(true, true)), ClickRoute::VrotGate);
    assert!(offers_section(&click(false, false)));
    assert_eq!(route_click(&click(false, false)), ClickRoute::SectionEndpoint);
    let refused = PaneClick { section_took: false, ..click(false, false) };
    assert_eq!(route_click(&refused), ClickRoute::Observation);
    let site = PaneClick { observation: None, section_took: false, ..click(false, false) };
    assert_eq!(route_click(&site), ClickRoute::Site);
    let bare = PaneClick { site: None, observation: None, section_took: false, ..click(false, false) };
    assert_eq!(route_click(&bare), ClickRoute::SelectPane);
    let nowhere = PaneClick { clicked: false, site: None, observation: None, section_took: false, ..click(false, false) };
    assert_eq!(route_click(&nowhere), ClickRoute::Nothing);
    let nearest = PaneClick { nearest: true, ..nowhere };
    assert_eq!(route_click(&nearest), ClickRoute::NearestSite);
}

#[test]
fn the_map_is_all_or_nothing_and_the_screen_wakes_for_its_ages() {
    assert!(pane_map(true).projection && pane_map(true).hazards);
    assert!(!pane_map(false).projection && !pane_map(false).geometry && !pane_map(false).tiles);
    let wake = next_wake(true, Some(61), Some(5));
    assert_eq!(wake.frame_ms, Some(16));
    assert_eq!(wake.age_seconds, Some(59));
    let wake = next_wake(false, None, Some(5));
    assert_eq!((wake.frame_ms, wake.age_seconds), (None, Some(1)));
    assert_eq!(next_wake(false, None, None).age_seconds, None);
}

#[test]
fn a_choice_is_for_the_pane_that_was_active_as_the_bar_was_drawn() {
    let mut app = test_app();
    app.set_layout(PaneLayout::Four);
    app.set_active(3);
    app.set_camera_links(true);
    app.workspace.panes[1].camera_link = None;
    assert!(!app.workspace.cameras_linked());
    let mut clicks = no_clicks();
    clicks.layout = PaneLayout::One;
    clicks.product = Some(4);
    clicks.toggle_camera_links = true;
    let state = ToolbarState {
        layout: app.workspace.layout,
        active_pane: app.workspace.active_pane,
        cameras_linked: app.workspace.cameras_linked(),
        ..bar()
    };
    for step in toolbar_steps(&clicks, &state) {
        match step {
            ToolbarStep::SetLayout(layout) => app.set_layout(layout),
            ToolbarStep::ChooseProduct { pane, code } => app.apply_product_selection(pane, code),
            ToolbarStep::SetCameraLinks(linked) => app.set_camera_links(linked),
            _ => panic!("nothing else was clicked"),
        }
    }
    assert_eq!(app.workspace.active_pane, 0);
    assert!(matches!(app.workspace.panes[3].product, PaneProduct::Modeled(4)));
    // The pane that is left was linked, but not all were as the bar was drawn.
    assert!(app.workspace.cameras_linked());
}

fn words() -> BarWords {
    BarWords {
        source_path: String::new(),
        site_text: String::new(),
        profile: Some("Profile: chase".to_owned()),
        layout: "1 pane".to_owned(),
        quality: "Smooth".to_owned(),
        basemap: "Dark".to_owned(),
        imagery: "No imagery".to_owned(),
        vrot_begun: false,
        product: "Reflectivity".to_owned(),
        palette: Some("NWS Reflectivity".to_owned()),
        filter: "Filter".to_owned(),
        tilt: "0.48°".to_owned(),
        follow: "Auto tilt".to_owned(),
        snr: None,
        resolution: None,
        live: false,
        live_status: String::new(),
        stall: None,
        warnings: "Warnings offline".to_owned(),
        vrot: None,
        active_pane: 0,
    }
}

#[test]
fn the_menu_bar_keeps_storm_controls_out_and_occasional_ones_filed() {
    let app = test_app();
    assert_eq!(app.settings_cache.toolbar_style, ToolbarStyle::Menus);
    let product = words().product;
    let texts = bar_texts(app.settings_cache.toolbar_style, &words());

    for on_the_row in [
        "File",
        "View",
        "Map",
        "Tools",
        "KRTX",
        "Start live",
        "− Tilt",
        "+ Tilt",
    ] {
        assert!(
            texts.iter().any(|text| text == on_the_row),
            "the menu bar drew no {on_the_row:?}. It drew: {texts:?}"
        );
    }
    assert!(
        texts.iter().any(|text| text.starts_with(&product)),
        "the menu bar lost the product button. It drew: {texts:?}"
    );
    for filed_away in ["Link cameras", "Level II file path", "Settings…"] {
        assert!(
            !texts.iter().any(|text| text == filed_away),
            "{filed_away:?} leaked out of its menu onto the row. The bar drew: {texts:?}"
        );
    }
}

#[test]
fn the_everything_style_puts_every_control_on_the_bar() {
    let mut app = test_app();
    app.settings_cache.toolbar_style = ToolbarStyle::Everything;
    let expected = words();
    let texts = bar_texts(app.settings_cache.toolbar_style, &words());

    let mut wanted = vec![
        "Radar volume file path".to_owned(),
        "Load".to_owned(),
        "Export current view".to_owned(),
        "Export loop…".to_owned(),
        "Online Level I…".to_owned(),
        "KRTX".to_owned(),
        "Start live".to_owned(),
        expected.layout,
        expected.quality,
        "− Tilt".to_owned(),
        expected.tilt,
        "+ Tilt".to_owned(),
        expected.basemap,
        "No imagery".to_owned(),
        "Link cameras".to_owned(),
        "3D".to_owned(),
        "XSec".to_owned(),
        "Vrot".to_owned(),
        "Settings".to_owned(),
        expected.product,
        "Pane 1".to_owned(),
    ];
    wanted.extend(expected.palette);
    for control in &wanted {
        assert!(
            texts.iter().any(|text| text == control),
            "the bar drew no {control:?} control. It drew: {texts:?}"
        );
    }
    assert!(
        texts.iter().any(|text| text.starts_with(&expected.warnings)),
        "the bar drew no warnings chip. It drew: {texts:?}"
    );
    for title in ["File", "View", "Map", "Tools"] {
        assert!(
            !texts.iter().any(|text| text == title),
            "a {title:?} menu title is on the everything-visible bar. It drew: {texts:?}"
        );
    }
}

#[test]
fn what_is_filed_away_is_on_the_row_of_the_other_style_alone() {
    let compact = bar_controls(ToolbarStyle::Menus);
    let full = bar_controls(ToolbarStyle::Everything);
    for title in [MenuTitle::File, MenuTitle::View, MenuTitle::Ground, MenuTitle::Tools] {
        assert!(compact.contains(&Control::Menu(title)));
        assert!(!full.contains(&Control::Menu(title)));
        for control in menu_controls(title) {
            assert!(!compact.contains(&control), "{control:?}");
            let profiles = matches!(control, Control::Profiles | Control::ProfileLine);
            assert_eq!(full.contains(&control), !profiles, "{control:?}");
        }
    }
    assert_eq!(compact.len(), 20);
    assert_eq!(full.len(), 33);
}

#[test]
fn a_control_reads_as_its_style_and_its_state_say() {
    let mut words = words();
    let label = |style, control, words: &BarWords| control_label(style, control, words);
    assert_eq!(label(ToolbarStyle::Menus, Control::Settings, &words).as_deref(), Some("Settings…"));
    assert_eq!(
        label(ToolbarStyle::Menus, Control::ProductPicker, &words).as_deref(),
        Some("Reflectivity ⏷")
    );
    assert_eq!(label(ToolbarStyle::Menus, Control::ClearVrot, &words), None);
    assert_eq!(label(ToolbarStyle::Menus, Control::LiveStatus, &words), None);
    words.vrot_begun = true;
    words.live = true;
    words.live_status = "connecting".to_owned();
    words.site_text = "KTLX".to_owned();
    words.active_pane = 2;
    assert_eq!(
        label(ToolbarStyle::Everything, Control::ClearVrot, &words).as_deref(),
        Some("Clear Vrot")
    );
    assert_eq!(label(ToolbarStyle::Menus, Control::Live, &words).as_deref(), Some("Stop live"));
    assert_eq!(
        label(ToolbarStyle::Menus, Control::LiveStatus, &words).as_deref(),
        Some("connecting")
    );
    assert_eq!(label(ToolbarStyle::Menus, Control::SiteBox, &words).as_deref(), Some("KTLX"));
    assert_eq!(
        label(ToolbarStyle::Everything, Control::ActivePane, &words).as_deref(),
        Some("Pane 3")
    );
}
