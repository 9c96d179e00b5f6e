use workstation_app::app::WorkstationApp;
use workstation_app::catalog::{
    full_registry, ANNOTATION, DATA, DATA_HISTORY_MAX_FRAMES, NETWORK, OBSERVATIONS, RADAR,
    RADAR_FILTER_MIN_DBZ, RADAR_QUALITY, TIMESERIES, UNITS, VOL3D,
};
use workstation_app::frame::{FrameIdentity, FrameOrigin, FrameStage, VolumeFrame};
use workstation_app::follow::FollowCandidate;
use workstation_app::history::HistoryPolicy;
use workstation_app::moment::Moment;
use workstation_app::settings::{
    every_setting, follow_interval_seconds, iq_controls_from, iq_taper_from_id, network_tuning,
    observation_refresh_seconds, sanitized_top_m, setting_effect, site_label_mode, start_on_saved_site,
    startup_site, toolbar_style, vol3d_choices, Annotation, FloorMode, IqControls, SettingEffect,
    SettingsCache, SiteLabelMode, StoredNetwork, StoredSettings, Taper, ThresholdMode,
    ToolbarStyle, Vol3dQuality, DEFAULT_TOP_M, MAX_TOP_M, MIN_TOP_M,
};
use workstation_app::theme;
use workstation_app::workspace::{PaneProduct, REFLECTIVITY};

fn unlimited() -> HistoryPolicy {
    HistoryPolicy { max_frames: 0, max_estimated_bytes: 0 }
}

fn nobody() -> Vec<Option<FollowCandidate>> {
    vec![None, None, None, None]
}

fn fresh_cache() -> SettingsCache {
    SettingsCache::new(
        true,
        Annotation {
            ring_count: 4,
            ring_labels: true,
            site_declutter_max: 40,
            site_marker_max: 200,
            range_decimals: 1,
            coordinate_decimals: 4,
        },
        IqControls { dwell_pulses: 64, taper: Taper::VonHann },
    )
}

fn stored() -> StoredSettings {
    StoredSettings {
        double_click_reset: true,
        toolbar: "menus".to_owned(),
        site_labels: "auto".to_owned(),
        site_markers: true,
        observations_enabled: false,
        placefiles_enabled: true,
        legend: true,
        sweep_animation: true,
        vrot_units: "kt".to_owned(),
        ring_count: 4,
        ring_labels: true,
        site_declutter_max: 40,
        site_marker_max: 200,
        range_decimals: 1,
        coordinate_decimals: 4,
        xsection_top_km: 18,
        loop_frame_ms: 700,
        dwell_pulses: 64,
        window: "von_hann".to_owned(),
        spectrum_channel: "horizontal".to_owned(),
    }
}

#[test]
fn the_default_toolbar_style_is_the_menu_bar() {
    assert_eq!(fresh_cache().toolbar_style, ToolbarStyle::Menus);
    assert_eq!(toolbar_style("menus"), ToolbarStyle::Menus);
    let mut app = WorkstationApp::new(unlimited(), fresh_cache());
    app.recompute_settings_cache(&stored());
    assert_eq!(app.settings_cache.toolbar_style, ToolbarStyle::Menus);
    // A value of a later build does not pick the style for it.
    assert_eq!(toolbar_style("somewhere else"), ToolbarStyle::Menus);
    assert_eq!(toolbar_style("full"), ToolbarStyle::Everything);
}

#[test]
fn untouched_settings_resolve_to_what_a_session_starts_with() {
    let mut app = WorkstationApp::new(unlimited(), fresh_cache());
    assert_eq!(app.settings_cache.loop_frame_ms, 700);
    app.recompute_settings_cache(&stored());
    assert!(app.settings_cache == fresh_cache());
}

#[test]
fn the_top_of_the_slice_is_fenced() {
    assert_eq!(sanitized_top_m(18), DEFAULT_TOP_M);
    // The menu's own ends pass the fence untouched.
    assert_eq!(sanitized_top_m(4), MIN_TOP_M);
    assert_eq!(sanitized_top_m(24), MAX_TOP_M);
    assert_eq!(sanitized_top_m(5), 5_000);
    for (stored_km, top_m) in [(30, 24_000), (3, 4_000), (-7, 4_000), (i64::MAX, 24_000), (i64::MIN, 4_000)] {
        let mut app = WorkstationApp::new(unlimited(), fresh_cache());
        assert_eq!(app.settings_cache.xsection_top_m, DEFAULT_TOP_M);
        let mut edited = stored();
        edited.xsection_top_km = stored_km;
        app.recompute_settings_cache(&edited);
        assert_eq!(app.settings_cache.xsection_top_m, top_m);
    }
}

#[test]
fn stored_values_are_fenced_and_named() {
    let mut app = WorkstationApp::new(unlimited(), fresh_cache());
    let mut odd = stored();
    odd.double_click_reset = false;
    odd.site_labels = "never".to_owned();
    odd.vrot_units = "mps".to_owned();
    odd.ring_count = -3;
    odd.range_decimals = 40;
    odd.coordinate_decimals = -1;
    odd.loop_frame_ms = -9;
    odd.xsection_top_km = 24;
    odd.dwell_pulses = 0;
    odd.window = "blackman".to_owned();
    odd.spectrum_channel = "vertical".to_owned();
    app.recompute_settings_cache(&odd);
    let cache = app.settings_cache;
    assert!(!cache.double_click_reset);
    assert_eq!(cache.site_labels, SiteLabelMode::Never);
    assert!(cache.vrot_mps_first);
    assert_eq!(cache.annotation.ring_count, 0);
    assert_eq!(cache.annotation.range_decimals, 9);
    assert_eq!(cache.annotation.coordinate_decimals, 0);
    assert_eq!(cache.loop_frame_ms, 0);
    assert_eq!(cache.xsection_top_m, 24_000);
    assert_eq!(cache.iq_controls, IqControls { dwell_pulses: 1, taper: Taper::Blackman });
    assert_eq!(cache.iq_spectrum_channel, 1);
    assert_eq!(site_label_mode("always"), SiteLabelMode::Always);
    assert_eq!(iq_taper_from_id("hamming"), Taper::Hamming);
    assert_eq!(iq_taper_from_id("none of them"), Taper::Rectangular);
    assert_eq!(iq_controls_from(32, "von_hann").dwell_pulses, 32);
    let choices = vol3d_choices("below", "draft", "column-max");
    assert_eq!(choices.threshold_mode, ThresholdMode::Below);
    assert_eq!(choices.quality, Vol3dQuality::Draft);
    assert_eq!(choices.floor_mode, FloorMode::ColumnMax);
    let strange = vol3d_choices("", "", "");
    assert_eq!(strange.threshold_mode, ThresholdMode::Above);
    assert_eq!(strange.quality, Vol3dQuality::Balanced);
    assert_eq!(strange.floor_mode, FloorMode::LowestTilt);
}

#[test]
fn network_settings_are_counted_and_never_wrap() {
    let tuning = network_tuning(StoredNetwork {
        archive_poll_seconds: 30,
        archive_lead_minutes: -2,
        stall_after_seconds: 900,
        live_cache_limit_mb: 2,
        download_batch: 8,
        download_attempts: -1,
        retry_backoff_ms: 250,
    });
    assert_eq!(tuning.archive_poll_seconds, 30);
    assert_eq!(tuning.archive_lead_minutes, -2);
    assert_eq!(tuning.stall_after_seconds, 900);
    assert_eq!(tuning.live_cache_bytes, 2_097_152);
    assert_eq!(tuning.download_batch, 8);
    assert_eq!(tuning.download_attempts, 0);
    assert_eq!(tuning.retry_backoff_ms, 250);
    let huge = network_tuning(StoredNetwork {
        archive_poll_seconds: 0,
        archive_lead_minutes: 0,
        stall_after_seconds: 0,
        live_cache_limit_mb: i64::MAX,
        download_batch: 0,
        download_attempts: 0,
        retry_backoff_ms: 0,
    });
    assert_eq!(huge.live_cache_bytes, u64::MAX);
    assert_eq!(observation_refresh_seconds(0), 1);
    assert_eq!(observation_refresh_seconds(300), 300);
    assert_eq!(follow_interval_seconds(-5), 0);
}

#[test]
fn every_page_reaches_its_place() {
    assert_eq!(setting_effect(OBSERVATIONS, "anything"), SettingEffect::Observations);
    assert_eq!(setting_effect(VOL3D, "anything"), SettingEffect::Vol3d);
    assert_eq!(setting_effect(TIMESERIES, "anything"), SettingEffect::TimeSeries);
    assert_eq!(setting_effect(NETWORK, "anything"), SettingEffect::Network);
    assert_eq!(setting_effect(UNITS, "anything"), SettingEffect::ProbeTexts);
    assert_eq!(setting_effect(ANNOTATION, "anything"), SettingEffect::ProbeTexts);
    assert_eq!(setting_effect(RADAR, RADAR_FILTER_MIN_DBZ), SettingEffect::GateFilter);
    assert_eq!(setting_effect(RADAR, "legend"), SettingEffect::Nothing);
    assert_eq!(setting_effect("appearance", "theme"), SettingEffect::Nothing);
    assert!(theme::restyles("appearance", theme::DENSITY));
    assert!(!theme::restyles("appearance", "toolbar"));
    assert!(!theme::restyles("radar", theme::THEME));
}

#[test]
fn a_switch_of_profiles_reaches_every_row() {
    let registry = full_registry(theme::settings_category());
    let changed = every_setting(&registry);
    let count: usize = registry.categories().iter().map(|page| page.settings.len()).sum();
    assert_eq!(changed.len(), count);
    for page in registry.categories() {
        for row in &page.settings {
            assert!(
                changed.iter().any(|one| one.category == page.id && one.id == row.id),
                "{}/{}",
                page.id,
                row.id
            );
        }
    }
    let mut app = WorkstationApp::new(unlimited(), fresh_cache());
    app.note_profile_switched(Some("Storm"));
    assert_eq!(app.status, "Profile 'Storm' applied");
    app.note_save_failed("disk full");
    assert_eq!(app.status, "Settings save failed: disk full");
}

#[test]
fn a_changed_setting_redraws_what_it_changes() {
    let mut app = WorkstationApp::new(unlimited(), fresh_cache());
    let clock = app.display.board.panes[0].view_clock.current();
    let _ = app.apply_changed_setting(RADAR, RADAR_QUALITY, false, unlimited(), false, &nobody());
    assert_eq!(app.display.board.panes[0].view_clock.current(), clock);
    let _ = app.apply_changed_setting(RADAR, RADAR_QUALITY, true, unlimited(), false, &nobody());
    assert_ne!(app.display.board.panes[0].view_clock.current(), clock);

    for seconds in [1, 2, 3] {
        let _ = app.display.history.install(VolumeFrame {
            identity: FrameIdentity {
                site_id: "KTLX".to_owned(),
                volume_time: Moment::new(seconds, 0).unwrap(),
            },
            origin: FrameOrigin::Local,
            stage: FrameStage::Complete,
            source_label: "x".to_owned(),
            cuts: 1,
            radials: 1,
            estimated_bytes: 1,
            located: true,
            volume: 1,
        });
    }
    let narrow = HistoryPolicy { max_frames: 1, max_estimated_bytes: 0 };
    let effect =
        app.apply_changed_setting(DATA, DATA_HISTORY_MAX_FRAMES, false, narrow, false, &nobody());
    assert_eq!(effect, SettingEffect::HistoryLimits);
    assert_eq!(app.display.history.len(), 1);
    // A live session stays bounded whatever is configured.
    app.live.site = Some("KTLX".to_owned());
    let _ =
        app.apply_changed_setting(DATA, DATA_HISTORY_MAX_FRAMES, false, unlimited(), false, &nobody());
    assert!(app.display.history.policy().max_frames > 0);
    assert!(app.display.history.policy().max_estimated_bytes > 0);

    app.display.board.set_probe_text(0, Some("35 dBZ".to_owned()));
    let _ = app.apply_changed_setting(UNITS, "distance", false, unlimited(), false, &nobody());
    assert_eq!(app.display.board.panes[0].probe_text, None);
}

#[test]
fn an_unknown_saved_product_is_reset_and_named() {
    let mut app = WorkstationApp::new(unlimited(), fresh_cache());
    app.apply_product_selection(1, 9);
    app.restore_products(&vec![None, Some("XYZ".to_owned()), None, None]);
    assert!(matches!(app.workspace.panes[1].product, PaneProduct::Modeled(REFLECTIVITY)));
    assert_eq!(app.status, "Unknown saved product 'XYZ' - reset to default");
}

#[test]
fn a_start_goes_where_it_is_told_before_where_it_was() {
    assert_eq!(
        start_on_saved_site("  ktlx ", true, Some("KOAX".to_owned())).as_deref(),
        Some("KTLX")
    );
    assert_eq!(
        start_on_saved_site(" ", true, Some("KOAX".to_owned())).as_deref(),
        Some("KOAX")
    );
    assert_eq!(start_on_saved_site("", false, Some("KOAX".to_owned())), None);
    assert_eq!(start_on_saved_site("straße", false, None).as_deref(), Some("STRASSE"));
    let saved = || Some("KOAX".to_owned());
    assert_eq!(
        startup_site(&None, Some(" ktlx".to_owned()), saved()),
        Some((" ktlx".to_owned(), "KTLX".to_owned()))
    );
    assert_eq!(startup_site(&Some("a.nc".to_owned()), None, saved()), None);
    assert_eq!(
        startup_site(&None, None, saved()),
        Some(("KOAX".to_owned(), "KOAX".to_owned()))
    );
    assert_eq!(startup_site(&None, None, None), None);
}
