//! Settings as the workstation uses them: stored values resolved once into what
//! the paint path reads, and what a changed setting reaches.

use crate::app::WorkstationApp;
use crate::catalog;
use crate::follow::FollowCandidate;
use crate::history::{machine_count, HistoryPolicy};
use crate::panes::MAX_PANES;
use crate::registry::SettingsRegistry;
use crate::text::{same_text, trim, uppercase};
use crate::workspace::{PaneProduct, REFLECTIVITY};
use vstd::prelude::*;

verus! {

use crate::app::{app_wf, AppView};
use crate::choices::{limits_applied, low_tilts_followed, recoloured, redrawn};
use crate::display::DisplayView;
use crate::follow::forgotten;
use crate::panes::{probes_dropped, semantics_invalidated, text_view};
use crate::registry::PageView;
use crate::text::{trimmed, unicode_uppercase};
use crate::workspace::{visible_of, IntentView, ProductView, WorkspaceView};

pub const WINDOW_VON_HANN: &'static str = "von_hann";

pub const WINDOW_HAMMING: &'static str = "hamming";

pub const WINDOW_BLACKMAN: &'static str = "blackman";

pub const CHANNEL_VERTICAL: &'static str = "vertical";

/// Bytes in a mebibyte.
pub const MEBIBYTE: u64 = 1_048_576;

// ---------------------------------------------------------------------------
// Choices by name
// ---------------------------------------------------------------------------

/// Which toolbar draws.
#[derive(Clone, Copy, Debug, PartialEq, Eq, Structural)]
pub enum ToolbarStyle {
    /// One compact row; the occasional controls live under menus.
    Menus,
    /// Every control at once.
    Everything,
}

/// The toolbar a stored value names; a stranger value is the compact one.
pub open spec fn toolbar_named(id: Seq<char>) -> ToolbarStyle {
    if id == "full"@ {
        ToolbarStyle::Everything
    } else {
        ToolbarStyle::Menus
    }
}

/// The toolbar a stored value names.
pub fn toolbar_style(id: &str) -> (style: ToolbarStyle)
    ensures
        style == toolbar_named(id@),
{
    if same_text(id, "full") {
        ToolbarStyle::Everything
    } else {
        ToolbarStyle::Menus
    }
}

/// When radar markers carry their names.
#[derive(Clone, Copy, Debug, PartialEq, Eq, Structural)]
pub enum SiteLabelMode {
    Auto,
    Always,
    Never,
}

/// The mode a stored value names.
pub open spec fn labels_named(id: Seq<char>) -> SiteLabelMode {
    if id == "always"@ {
        SiteLabelMode::Always
    } else if id == "never"@ {
        SiteLabelMode::Never
    } else {
        SiteLabelMode::Auto
    }
}

/// The mode a stored value names.
pub fn site_label_mode(id: &str) -> (mode: SiteLabelMode)
    ensures
        mode == labels_named(id@),
{
    if same_text(id, "always") {
        SiteLabelMode::Always
    } else if same_text(id, "never") {
        SiteLabelMode::Never
    } else {
        SiteLabelMode::Auto
    }
}

/// The window a spectrum is taken under.
#[derive(Clone, Copy, Debug, PartialEq, Eq, Structural)]
pub enum Taper {
    Rectangular,
    VonHann,
    Hamming,
    Blackman,
}

/// The window a stored value names; a value that names none is the estimator's
/// own.
pub open spec fn taper_named(id: Seq<char>) -> Taper {
    if id == WINDOW_VON_HANN@ {
        Taper::VonHann
    } else if id == WINDOW_HAMMING@ {
        Taper::Hamming
    } else if id == WINDOW_BLACKMAN@ {
        Taper::Blackman
    } else {
        Taper::Rectangular
    }
}

/// The window a stored value names.
pub fn iq_taper_from_id(id: &str) -> (taper: Taper)
    ensures
        taper == taper_named(id@),
{
    if same_text(id, WINDOW_VON_HANN) {
        Taper::VonHann
    } else if same_text(id, WINDOW_HAMMING) {
        Taper::Hamming
    } else if same_text(id, WINDOW_BLACKMAN) {
        Taper::Blackman
    } else {
        Taper::Rectangular
    }
}

/// Which side of the threshold the volume explorer keeps.
#[derive(Clone, Copy, Debug, PartialEq, Eq, Structural)]
pub enum ThresholdMode {
    Above,
    Below,
}

/// How finely the volume explorer marches.
#[derive(Clone, Copy, Debug, PartialEq, Eq, Structural)]
pub enum Vol3dQuality {
    Draft,
    Balanced,
    High,
}

/// What lies on the floor of the volume explorer's box.
#[derive(Clone, Copy, Debug, PartialEq, Eq, Structural)]
pub enum FloorMode {
    Off,
    LowestTilt,
    ColumnMax,
}

/// The volume explorer's choices.
#[derive(Clone, Copy, Debug, PartialEq, Eq, Structural)]
pub struct Vol3dChoices {
    pub threshold_mode: ThresholdMode,
    pub quality: Vol3dQuality,
    pub floor_mode: FloorMode,
}

/// The choices that stored values name.
pub open spec fn vol3d_named(mode: Seq<char>, quality: Seq<char>, floor: Seq<char>) -> Vol3dChoices {
    Vol3dChoices {
        threshold_mode: if mode == "below"@ {
            ThresholdMode::Below
        } else {
            ThresholdMode::Above
        },
        quality: if quality == "draft"@ {
            Vol3dQuality::Draft
        } else if quality == "high"@ {
            Vol3dQuality::High
        } else {
            Vol3dQuality::Balanced
        },
        floor_mode: if floor == "off"@ {
            FloorMode::Off
        } else if floor == "column-max"@ {
            FloorMode::ColumnMax
        } else {
            FloorMode::LowestTilt
        },
    }
}

/// The choices that stored values name.
pub fn vol3d_choices(mode: &str, quality: &str, floor: &str) -> (choices: Vol3dChoices)
    ensures
        choices == vol3d_named(mode@, quality@, floor@),
{
    Vol3dChoices {
        threshold_mode: if same_text(mode, "below") {
            ThresholdMode::Below
        } else {
            ThresholdMode::Above
        },
        quality: if same_text(quality, "draft") {
            Vol3dQuality::Draft
        } else if same_text(quality, "high") {
            Vol3dQuality::High
        } else {
            Vol3dQuality::Balanced
        },
        floor_mode: if same_text(floor, "off") {
            FloorMode::Off
        } else if same_text(floor, "column-max") {
            FloorMode::ColumnMax
        } else {
            FloorMode::LowestTilt
        },
    }
}

// ---------------------------------------------------------------------------
// Numbers
// ---------------------------------------------------------------------------

/// A stored number, nothing below zero.
pub open spec fn at_least_zero(value: int) -> int {
    if value < 0 {
        0
    } else {
        value
    }
}

/// A stored number as a machine word: nothing below zero, and no more than a
/// word holds.
pub open spec fn word(value: int) -> int {
    if at_least_zero(value) > usize::MAX {
        usize::MAX as int
    } else {
        at_least_zero(value)
    }
}

/// A stored number of decimals.
pub open spec fn decimals(value: int) -> int {
    if value < 0 {
        0
    } else if value > 9 {
        9
    } else {
        value
    }
}

/// A stored number, nothing below zero.
fn unsigned(value: i64) -> (number: u64)
    ensures
        number == at_least_zero(value as int),
{
    if value < 0 {
        0
    } else {
        value as u64
    }
}

/// A stored number of decimals.
fn decimal_places(value: i64) -> (places: u8)
    ensures
        places == decimals(value as int),
{
    if value < 0 {
        0
    } else if value > 9 {
        9
    } else {
        value as u8
    }
}

/// The lowest top a cross-section is drawn with, in metres.
pub const MIN_TOP_M: i64 = 4_000;

/// The highest top a cross-section is drawn with, in metres.
pub const MAX_TOP_M: i64 = 24_000;

/// The top of a cross-section that nobody has set, in metres.
pub const DEFAULT_TOP_M: i64 = 18_000;

/// The top a cross-section is drawn with where `metres` is asked for: a value
/// that no menu offers is brought within what the sampler takes.
pub open spec fn fenced_top(metres: int) -> int {
    if metres < MIN_TOP_M {
        MIN_TOP_M as int
    } else if metres > MAX_TOP_M {
        MAX_TOP_M as int
    } else {
        metres
    }
}

/// The top a cross-section is drawn with, in metres, where these kilometres are
/// stored.
pub fn sanitized_top_m(kilometres: i64) -> (metres: i64)
    ensures
        metres == fenced_top(kilometres * 1000),
{
    if kilometres < MIN_TOP_M / 1000 {
        MIN_TOP_M
    } else if kilometres > MAX_TOP_M / 1000 {
        MAX_TOP_M
    } else {
        kilometres * 1000
    }
}

/// What the readouts and rings are drawn with.
#[derive(Clone, Copy, Debug, PartialEq, Eq, Structural)]
pub struct Annotation {
    pub ring_count: usize,
    pub ring_labels: bool,
    pub site_declutter_max: usize,
    pub site_marker_max: usize,
    pub range_decimals: u8,
    pub coordinate_decimals: u8,
}

/// What a record of pulses is estimated with.
#[derive(Clone, Copy, Debug, PartialEq, Eq, Structural)]
pub struct IqControls {
    pub dwell_pulses: usize,
    pub taper: Taper,
}

/// Settings as they are stored, resolved to the values in force.
pub struct StoredSettings {
    pub double_click_reset: bool,
    pub toolbar: String,
    pub site_labels: String,
    pub site_markers: bool,
    pub observations_enabled: bool,
    pub placefiles_enabled: bool,
    pub legend: bool,
    pub sweep_animation: bool,
    pub vrot_units: String,
    pub ring_count: i64,
    pub ring_labels: bool,
    pub site_declutter_max: i64,
    pub site_marker_max: i64,
    pub range_decimals: i64,
    pub coordinate_decimals: i64,
    pub xsection_top_km: i64,
    pub loop_frame_ms: i64,
    pub dwell_pulses: i64,
    pub window: String,
    pub spectrum_channel: String,
}

/// What the paint path reads of the settings.
#[derive(Clone, Copy, Debug, PartialEq, Eq, Structural)]
pub struct SettingsCache {
    /// Whether a double click puts a pane's camera back.
    pub double_click_reset: bool,
    pub toolbar_style: ToolbarStyle,
    pub site_labels: SiteLabelMode,
    pub site_markers: bool,
    pub observations_enabled: bool,
    pub placefiles_enabled: bool,
    pub legend: bool,
    pub sweep_animation: bool,
    pub vrot_mps_first: bool,
    pub annotation: Annotation,
    /// How high the cross-section is drawn, in metres.
    pub xsection_top_m: i64,
    pub loop_frame_ms: u64,
    pub iq_controls: IqControls,
    /// Zero is the horizontal channel, one the vertical.
    pub iq_spectrum_channel: usize,
}

/// The settings the paint path reads.
pub open spec fn cache_of(stored: StoredSettings) -> SettingsCache {
    SettingsCache {
        double_click_reset: stored.double_click_reset,
        toolbar_style: toolbar_named(stored.toolbar@),
        site_labels: labels_named(stored.site_labels@),
        site_markers: stored.site_markers,
        observations_enabled: stored.observations_enabled,
        placefiles_enabled: stored.placefiles_enabled,
        legend: stored.legend,
        sweep_animation: stored.sweep_animation,
        vrot_mps_first: stored.vrot_units@ == "mps"@,
        annotation: Annotation {
            ring_count: word(stored.ring_count as int) as usize,
            ring_labels: stored.ring_labels,
            site_declutter_max: word(stored.site_declutter_max as int) as usize,
            site_marker_max: word(stored.site_marker_max as int) as usize,
            range_decimals: decimals(stored.range_decimals as int) as u8,
            coordinate_decimals: decimals(stored.coordinate_decimals as int) as u8,
        },
        xsection_top_m: fenced_top(stored.xsection_top_km * 1000) as i64,
        loop_frame_ms: at_least_zero(stored.loop_frame_ms as int) as u64,
        iq_controls: controls_of(stored.dwell_pulses as int, stored.window@),
        iq_spectrum_channel: if stored.spectrum_channel@ == CHANNEL_VERTICAL@ {
            1
        } else {
            0
        },
    }
}

/// What a record of pulses is estimated with: a dwell of one pulse at least.
pub open spec fn controls_of(dwell_pulses: int, window: Seq<char>) -> IqControls {
    IqControls {
        dwell_pulses: if dwell_pulses < 1 {
            1
        } else {
            word(dwell_pulses) as usize
        },
        taper: taper_named(window),
    }
}

/// What a record of pulses is estimated with.
pub fn iq_controls_from(dwell_pulses: i64, window: &str) -> (controls: IqControls)
    ensures
        controls == controls_of(dwell_pulses as int, window@),
{
    IqControls {
        dwell_pulses: if dwell_pulses < 1 {
            1
        } else {
            machine_count(dwell_pulses)
        },
        taper: iq_taper_from_id(window),
    }
}

impl SettingsCache {
    /// Settings that nobody has touched, around the defaults of the camera, the
    /// readouts and the estimator.
    pub fn new(
        double_click_reset: bool,
        annotation: Annotation,
        iq_controls: IqControls,
    ) -> (cache: SettingsCache)
        ensures
            cache == (SettingsCache {
                double_click_reset,
                toolbar_style: ToolbarStyle::Menus,
                site_labels: SiteLabelMode::Auto,
                site_markers: true,
                observations_enabled: false,
                placefiles_enabled: true,
                legend: true,
                sweep_animation: true,
                vrot_mps_first: false,
                annotation,
                xsection_top_m: DEFAULT_TOP_M,
                loop_frame_ms: 700,
                iq_controls,
                iq_spectrum_channel: 0,
            }),
    {
        SettingsCache {
            double_click_reset,
            toolbar_style: ToolbarStyle::Menus,
            site_labels: SiteLabelMode::Auto,
            site_markers: true,
            observations_enabled: false,
            placefiles_enabled: true,
            legend: true,
            sweep_animation: true,
            vrot_mps_first: false,
            annotation,
            xsection_top_m: DEFAULT_TOP_M,
            loop_frame_ms: 700,
            iq_controls,
            iq_spectrum_channel: 0,
        }
    }
}

/// The settings the paint path reads.
fn cached(stored: &StoredSettings) -> (cache: SettingsCache)
    ensures
        cache == cache_of(*stored),
{
    SettingsCache {
        double_click_reset: stored.double_click_reset,
        toolbar_style: toolbar_style(stored.toolbar.as_str()),
        site_labels: site_label_mode(stored.site_labels.as_str()),
        site_markers: stored.site_markers,
        observations_enabled: stored.observations_enabled,
        placefiles_enabled: stored.placefiles_enabled,
        legend: stored.legend,
        sweep_animation: stored.sweep_animation,
        vrot_mps_first: same_text(stored.vrot_units.as_str(), "mps"),
        annotation: Annotation {
            ring_count: machine_count(stored.ring_count),
            ring_labels: stored.ring_labels,
            site_declutter_max: machine_count(stored.site_declutter_max),
            site_marker_max: machine_count(stored.site_marker_max),
            range_decimals: decimal_places(stored.range_decimals),
            coordinate_decimals: decimal_places(stored.coordinate_decimals),
        },
        xsection_top_m: sanitized_top_m(stored.xsection_top_km),
        loop_frame_ms: unsigned(stored.loop_frame_ms),
        iq_controls: iq_controls_from(stored.dwell_pulses, stored.window.as_str()),
        iq_spectrum_channel: if same_text(
            stored.spectrum_channel.as_str(),
            CHANNEL_VERTICAL,
        ) {
            1
        } else {
            0
        },
    }
}

impl WorkstationApp {
    /// Resolves stored settings into what the paint path reads.
    pub fn recompute_settings_cache(&mut self, stored: &StoredSettings)
        ensures
            final(self)@ == (AppView { settings_cache: cache_of(*stored), ..old(self)@ }),
    {
        self.settings_cache = cached(stored);
    }
}

/// How the live worker polls and transfers, before its own fences.
#[derive(Clone, Copy, Debug, PartialEq, Eq, Structural)]
pub struct NetTuning {
    pub archive_poll_seconds: u64,
    pub archive_lead_minutes: i64,
    pub stall_after_seconds: u64,
    pub live_cache_bytes: u64,
    pub download_batch: usize,
    pub download_attempts: usize,
    pub retry_backoff_ms: u64,
}

/// The network settings as they are stored.
#[derive(Clone, Copy, Debug, PartialEq, Eq, Structural)]
pub struct StoredNetwork {
    pub archive_poll_seconds: i64,
    pub archive_lead_minutes: i64,
    pub stall_after_seconds: i64,
    pub live_cache_limit_mb: i64,
    pub download_batch: i64,
    pub download_attempts: i64,
    pub retry_backoff_ms: i64,
}

/// A stored number of mebibytes as bytes, as far as they can be counted.
pub open spec fn cache_bytes(megabytes: int) -> int {
    if at_least_zero(megabytes) * MEBIBYTE > u64::MAX {
        u64::MAX as int
    } else {
        at_least_zero(megabytes) * MEBIBYTE
    }
}

/// How the live worker polls and transfers.
pub open spec fn tuning_of(stored: StoredNetwork) -> NetTuning {
    NetTuning {
        archive_poll_seconds: at_least_zero(stored.archive_poll_seconds as int) as u64,
        archive_lead_minutes: stored.archive_lead_minutes,
        stall_after_seconds: at_least_zero(stored.stall_after_seconds as int) as u64,
        live_cache_bytes: cache_bytes(stored.live_cache_limit_mb as int) as u64,
        download_batch: word(stored.download_batch as int) as usize,
        download_attempts: word(stored.download_attempts as int) as usize,
        retry_backoff_ms: at_least_zero(stored.retry_backoff_ms as int) as u64,
    }
}

/// How the live worker polls and transfers.
pub fn network_tuning(stored: StoredNetwork) -> (tuning: NetTuning)
    ensures
        tuning == tuning_of(stored),
{
    NetTuning {
        archive_poll_seconds: unsigned(stored.archive_poll_seconds),
        archive_lead_minutes: stored.archive_lead_minutes,
        stall_after_seconds: unsigned(stored.stall_after_seconds),
        live_cache_bytes: match unsigned(stored.live_cache_limit_mb).checked_mul(MEBIBYTE) {
            Some(bytes) => bytes,
            None => u64::MAX,
        },
        download_batch: machine_count(stored.download_batch),
        download_attempts: machine_count(stored.download_attempts),
        retry_backoff_ms: unsigned(stored.retry_backoff_ms),
    }
}

/// The seconds between two refreshes of the observations: one at least.
pub fn observation_refresh_seconds(stored: i64) -> (seconds: u64)
    ensures
        seconds == (if stored < 1 {
            1
        } else {
            stored as int
        }),
{
    if stored < 1 {
        1
    } else {
        stored as u64
    }
}

/// The seconds of scan time between two sweeps that the follower takes.
pub fn follow_interval_seconds(stored: i64) -> (seconds: u64)
    ensures
        seconds == at_least_zero(stored as int),
{
    unsigned(stored)
}

// ---------------------------------------------------------------------------
// What a changed setting reaches
// ---------------------------------------------------------------------------

/// What a changed setting reaches besides what the paint path reads anyway.
#[derive(Clone, Copy, Debug, PartialEq, Eq, Structural)]
pub enum SettingEffect {
    Quality,
    BasemapStyle,
    ImageryProvider,
    ImageryDim,
    Observations,
    StormMotion,
    HistoryLimits,
    LiveFollow,
    /// Same data, different picture.
    GateFilter,
    Vol3d,
    /// What the moments of a record of pulses are.
    TimeSeries,
    Network,
    /// The readout under the cursor is written anew.
    ProbeTexts,
    Nothing,
}

/// What a changed setting reaches.
pub open spec fn effect_of(category: Seq<char>, id: Seq<char>) -> SettingEffect {
    if category == catalog::RADAR@ {
        if id == catalog::RADAR_QUALITY@ {
            SettingEffect::Quality
        } else if id == catalog::RADAR_FILTER_MIN_DBZ@ || id == catalog::RADAR_FILTER_VEL_NEEDS_DBZ@
            || id == catalog::RADAR_FILTER_MIN_RHO@ || id == catalog::RADAR_FILTER_HIDE_RF@ || id
            == catalog::RADAR_FILTER_MIN_RANGE_KM@ {
            SettingEffect::GateFilter
        } else {
            SettingEffect::Nothing
        }
    } else if category == catalog::MAP@ {
        if id == catalog::MAP_BASEMAP_STYLE@ {
            SettingEffect::BasemapStyle
        } else if id == catalog::MAP_IMAGERY_PROVIDER@ {
            SettingEffect::ImageryProvider
        } else if id == catalog::MAP_IMAGERY_DIM@ || id == catalog::MAP_IMAGERY_DIM_AUTO@ {
            SettingEffect::ImageryDim
        } else {
            SettingEffect::Nothing
        }
    } else if category == catalog::OBSERVATIONS@ {
        SettingEffect::Observations
    } else if category == catalog::ANALYSIS@ {
        if id == catalog::ANALYSIS_STORM_MOTION_DIR@ || id == catalog::ANALYSIS_STORM_MOTION_SPEED@ {
            SettingEffect::StormMotion
        } else {
            SettingEffect::Nothing
        }
    } else if category == catalog::DATA@ {
        if id == catalog::DATA_HISTORY_MAX_FRAMES@ || id == catalog::DATA_HISTORY_MAX_MB@ {
            SettingEffect::HistoryLimits
        } else if id == catalog::DATA_FOLLOW_LOW_TILTS_ENABLED@ || id
            == catalog::DATA_FOLLOW_MAX_ELEVATION_DEG@ || id
            == catalog::DATA_FOLLOW_MIN_SWEEP_INTERVAL_SECONDS@ {
            SettingEffect::LiveFollow
        } else if id == catalog::DATA_POLL_SECONDS@ || id == catalog::DATA_LIVE_CACHE_LIMIT_MB@ {
            SettingEffect::Network
        } else {
            SettingEffect::Nothing
        }
    } else if category == catalog::VOL3D@ {
        SettingEffect::Vol3d
    } else if category == catalog::TIMESERIES@ {
        SettingEffect::TimeSeries
    } else if category == catalog::NETWORK@ {
        SettingEffect::Network
    } else if category == catalog::UNITS@ || category == catalog::ANNOTATION@ {
        SettingEffect::ProbeTexts
    } else {
        SettingEffect::Nothing
    }
}

/// What a changed setting reaches.
pub fn setting_effect(category: &str, id: &str) -> (effect: SettingEffect)
    ensures
        effect == effect_of(category@, id@),
{
    if same_text(category, catalog::RADAR) {
        if same_text(id, catalog::RADAR_QUALITY) {
            SettingEffect::Quality
        } else if same_text(id, catalog::RADAR_FILTER_MIN_DBZ) || same_text(
            id,
            catalog::RADAR_FILTER_VEL_NEEDS_DBZ,
        ) || same_text(id, catalog::RADAR_FILTER_MIN_RHO) || same_text(
            id,
            catalog::RADAR_FILTER_HIDE_RF,
        ) || same_text(id, catalog::RADAR_FILTER_MIN_RANGE_KM) {
            SettingEffect::GateFilter
        } else {
            SettingEffect::Nothing
        }
    } else if same_text(category, catalog::MAP) {
        if same_text(id, catalog::MAP_BASEMAP_STYLE) {
            SettingEffect::BasemapStyle
        } else if same_text(id, catalog::MAP_IMAGERY_PROVIDER) {
            SettingEffect::ImageryProvider
        } else if same_text(id, catalog::MAP_IMAGERY_DIM) || same_text(
            id,
            catalog::MAP_IMAGERY_DIM_AUTO,
        ) {
            SettingEffect::ImageryDim
        } else {
            SettingEffect::Nothing
        }
    } else if same_text(category, catalog::OBSERVATIONS) {
        SettingEffect::Observations
    } else if same_text(category, catalog::ANALYSIS) {
        if same_text(id, catalog::ANALYSIS_STORM_MOTION_DIR) || same_text(
            id,
            catalog::ANALYSIS_STORM_MOTION_SPEED,
        ) {
            SettingEffect::StormMotion
        } else {
            SettingEffect::Nothing
        }
    } else if same_text(category, catalog::DATA) {
        if same_text(id, catalog::DATA_HISTORY_MAX_FRAMES) || same_text(
            id,
            catalog::DATA_HISTORY_MAX_MB,
        ) {
            SettingEffect::HistoryLimits
        } else if same_text(id, catalog::DATA_FOLLOW_LOW_TILTS_ENABLED) || same_text(
            id,
            catalog::DATA_FOLLOW_MAX_ELEVATION_DEG,
        ) || same_text(id, catalog::DATA_FOLLOW_MIN_SWEEP_INTERVAL_SECONDS) {
            SettingEffect::LiveFollow
        } else if same_text(id, catalog::DATA_POLL_SECONDS) || same_text(
            id,
            catalog::DATA_LIVE_CACHE_LIMIT_MB,
        ) {
            SettingEffect::Network
        } else {
            SettingEffect::Nothing
        }
    } else if same_text(category, catalog::VOL3D) {
        SettingEffect::Vol3d
    } else if same_text(category, catalog::TIMESERIES) {
        SettingEffect::TimeSeries
    } else if same_text(category, catalog::NETWORK) {
        SettingEffect::Network
    } else if same_text(category, catalog::UNITS) || same_text(category, catalog::ANNOTATION) {
        SettingEffect::ProbeTexts
    } else {
        SettingEffect::Nothing
    }
}

/// A page that reaches one place as a whole does so whatever its row: no row
/// declared later on these pages goes without effect.
pub proof fn law_whole_pages_reach_their_place(id: Seq<char>)
    ensures
        effect_of(catalog::OBSERVATIONS@, id) == SettingEffect::Observations,
        effect_of(catalog::VOL3D@, id) == SettingEffect::Vol3d,
        effect_of(catalog::TIMESERIES@, id) == SettingEffect::TimeSeries,
        effect_of(catalog::NETWORK@, id) == SettingEffect::Network,
        effect_of(catalog::UNITS@, id) == SettingEffect::ProbeTexts,
        effect_of(catalog::ANNOTATION@, id) == SettingEffect::ProbeTexts,
{
    reveal_strlit("radar");
    reveal_strlit("map");
    reveal_strlit("observations");
    reveal_strlit("analysis");
    reveal_strlit("data");
    reveal_strlit("vol3d");
    reveal_strlit("timeseries");
    reveal_strlit("network");
    reveal_strlit("units");
    reveal_strlit("annotation");
    assert(catalog::RADAR@.len() == 5);
    assert(catalog::MAP@.len() == 3);
    assert(catalog::OBSERVATIONS@.len() == 12);
    assert(catalog::ANALYSIS@.len() == 8);
    assert(catalog::DATA@.len() == 4);
    assert(catalog::VOL3D@.len() == 5);
    assert(catalog::TIMESERIES@.len() == 10);
    assert(catalog::NETWORK@.len() == 7);
    assert(catalog::UNITS@.len() == 5);
    assert(catalog::ANNOTATION@.len() == 10);
    assert(catalog::VOL3D@[0] != catalog::RADAR@[0]);
    assert(catalog::UNITS@[0] != catalog::RADAR@[0]);
    assert(catalog::UNITS@[0] != catalog::VOL3D@[0]);
    assert(catalog::ANNOTATION@[0] != catalog::TIMESERIES@[0]);
}

/// The workstation after a changed setting reached what is its own.
pub open spec fn setting_reached(
    app: AppView,
    effect: SettingEffect,
    quality_changed: bool,
    configured: HistoryPolicy,
    following: bool,
    candidates: Seq<Option<FollowCandidate>>,
) -> AppView {
    match effect {
        SettingEffect::Quality => if quality_changed {
            redrawn(app)
        } else {
            app
        },
        SettingEffect::StormMotion => redrawn(app),
        SettingEffect::GateFilter => redrawn(app),
        SettingEffect::HistoryLimits => limits_applied(app, configured),
        SettingEffect::LiveFollow => low_tilts_followed(
            AppView { follow: forgotten(), ..app },
            following,
            candidates,
        ),
        SettingEffect::ProbeTexts => AppView {
            display: DisplayView {
                board: probes_dropped(app.display.board),
                ..app.display
            },
            ..app
        },
        _ => app,
    }
}

/// Every row the registry declares, page by page, as pairs of page and row.
pub open spec fn rows_of(pages: Seq<PageView>) -> Seq<(Seq<char>, Seq<char>)>
    decreases pages.len(),
{
    if pages.len() == 0 {
        Seq::empty()
    } else {
        let page = pages.last();
        rows_of(pages.drop_last()) + page.rows.map_values(|row: Seq<char>| (page.id, row))
    }
}

/// A switch of profiles passes over no setting: every row of every page that is
/// declared is among those that changed.
pub proof fn law_a_switch_reaches_every_row(pages: Seq<PageView>, page: int, row: int)
    requires
        0 <= page < pages.len(),
        0 <= row < pages[page].rows.len(),
    ensures
        rows_of(pages).contains((pages[page].id, pages[page].rows[row])),
    decreases pages.len(),
{
    let last = pages.last();
    let head = rows_of(pages.drop_last());
    let tail = last.rows.map_values(|r: Seq<char>| (last.id, r));
    let pair = (pages[page].id, pages[page].rows[row]);
    if page == pages.len() - 1 {
        assert(tail[row] == pair);
        assert((head + tail)[head.len() + row] == pair);
    } else {
        assert(pages.drop_last()[page] == pages[page]);
        law_a_switch_reaches_every_row(pages.drop_last(), page, row);
        let k = choose|k: int| 0 <= k < head.len() && head[k] == pair;
        assert((head + tail)[k] == pair);
    }
}

/// A changed setting, by its page and row.
pub struct ChangedSetting {
    pub category: String,
    pub id: String,
}

/// Changed settings as contracts see them.
pub open spec fn changed_view(changed: Seq<ChangedSetting>) -> Seq<(Seq<char>, Seq<char>)> {
    changed.map_values(|c: ChangedSetting| (c.category@, c.id@))
}

/// Every row the registry declares, as changed.
pub fn every_setting(registry: &SettingsRegistry) -> (changed: Vec<ChangedSetting>)
    ensures
        changed_view(changed@) == rows_of(registry@),
{
    let pages = registry.categories();
    let ghost all = registry@;
    let mut changed: Vec<ChangedSetting> = Vec::new();
    let mut at: usize = 0;
    assert(changed_view(changed@) =~= rows_of(all.take(0)));
    while at < pages.len()
        invariant
            at <= pages@.len(),
            all == registry@,
            pages@.len() == all.len(),
            forall|i: int| 0 <= i < all.len() ==> (#[trigger] pages@[i])@ == all[i],
            changed_view(changed@) == rows_of(all.take(at as int)),
        decreases pages@.len() - at,
    {
        let page = &pages[at];
        let ghost head = changed_view(changed@);
        let ghost rows = all[at as int].rows;
        let ghost pair = |row: Seq<char>| (all[at as int].id, row);
        let mut row: usize = 0;
        assert(head + rows.take(0).map_values(pair) =~= head);
        while row < page.settings.len()
            invariant
                row <= page.settings@.len(),
                at < all.len(),
                page@ == all[at as int],
                rows == all[at as int].rows,
                rows.len() == page.settings@.len(),
                pair == (|row: Seq<char>| (all[at as int].id, row)),
                changed_view(changed@) == head + rows.take(row as int).map_values(pair),
            decreases page.settings@.len() - row,
        {
            let ghost here = changed_view(changed@);
            assert(rows[row as int] == page.settings@[row as int].id@);
            changed.push(
                ChangedSetting {
                    category: page.id.clone(),
                    id: page.settings[row].id.clone(),
                },
            );
            row = row + 1;
            proof {
                assert(changed_view(changed@) =~= here.push(pair(rows[row - 1])));
                assert(rows.take(row as int).map_values(pair) =~= rows.take(
                    row - 1,
                ).map_values(pair).push(pair(rows[row - 1])));
                assert(changed_view(changed@) =~= head + rows.take(row as int).map_values(pair));
            }
        }
        proof {
            let next = all.take(at + 1);
            assert(next.drop_last() =~= all.take(at as int));
            assert(next.last() == all[at as int]);
            assert(rows.take(rows.len() as int) =~= rows);
            let page_id = next.last().id;
            assert(rows.map_values(pair) =~= rows.map_values(|r: Seq<char>| (page_id, r)));
            assert(changed_view(changed@) =~= rows_of(next));
        }
        at = at + 1;
    }
    assert(all.take(all.len() as int) =~= all);
    changed
}

impl WorkstationApp {
    /// Applies a changed setting to what is the workstation's own, and says what
    /// it reaches. `quality_changed` says whether the quality it names is
    /// another than the one in force.
    pub fn apply_changed_setting(
        &mut self,
        category: &str,
        id: &str,
        quality_changed: bool,
        configured: HistoryPolicy,
        following: bool,
        candidates: &Vec<Option<FollowCandidate>>,
    ) -> (effect: SettingEffect)
        requires
            app_wf(old(self)@),
            candidates@.len() == MAX_PANES,
        ensures
            app_wf(final(self)@),
            effect == effect_of(category@, id@),
            final(self)@ == setting_reached(
                old(self)@,
                effect,
                quality_changed,
                configured,
                following,
                candidates@,
            ),
    {
        let effect = setting_effect(category, id);
        match effect {
            SettingEffect::Quality => {
                if quality_changed {
                    self.invalidate_visible();
                }
            },
            SettingEffect::StormMotion => self.invalidate_visible(),
            SettingEffect::GateFilter => self.invalidate_visible(),
            SettingEffect::HistoryLimits => self.apply_history_limits(configured),
            SettingEffect::LiveFollow => self.restart_live_follow(following, candidates),
            SettingEffect::ProbeTexts => self.display.board.drop_probe_texts(),
            _ => {},
        }
        effect
    }

    /// Takes note of a profile that was switched to: every picture on screen is
    /// of other data and colours, and its name is told.
    pub fn note_profile_switched(&mut self, name: Option<&str>)
        requires
            app_wf(old(self)@),
        ensures
            app_wf(final(self)@),
            final(self)@ == profile_switched(old(self)@, crate::tilt::str_view(name)),
    {
        let visible = self.workspace.visible_panes();
        self.display.board.invalidate_semantic_panes(&visible);
        if let Some(profile) = name {
            let mut status = "Profile '".to_owned();
            status.append(profile);
            status.append("' applied");
            self.status = status;
        }
        self.note_palette_change();
    }

    /// Says that the settings could not be saved.
    pub fn note_save_failed(&mut self, error: &str)
        requires
            app_wf(old(self)@),
        ensures
            app_wf(final(self)@),
            final(self)@ == (AppView {
                status: "Settings save failed: "@ + error@,
                ..old(self)@
            }),
    {
        let mut status = "Settings save failed: ".to_owned();
        status.append(error);
        self.status = status;
    }

    /// Puts panes whose stored product nobody knows back on the default, and
    /// says so; then every pane on screen is drawn anew. `unknown` gives each
    /// pane's stored id where it is not known.
    pub fn restore_products(&mut self, unknown: &Vec<Option<String>>)
        requires
            app_wf(old(self)@),
            unknown@.len() == MAX_PANES,
        ensures
            app_wf(final(self)@),
            final(self)@ == redrawn(
                products_restored(old(self)@, unknown@.map_values(|u: Option<String>| text_view(u)), MAX_PANES as nat),
            ),
    {
        let ghost before = self@;
        let ghost ids = unknown@.map_values(|u: Option<String>| text_view(u));
        let mut at: usize = 0;
        while at < MAX_PANES
            invariant
                at <= MAX_PANES,
                before == old(self)@,
                app_wf(before),
                app_wf(self@),
                unknown@.len() == MAX_PANES,
                ids == unknown@.map_values(|u: Option<String>| text_view(u)),
                self@ == products_restored(before, ids, at as nat),
            decreases MAX_PANES - at,
        {
            let ghost here = self@;
            assert(ids[at as int] == text_view(unknown@[at as int]));
            match &unknown[at] {
                None => {},
                Some(id) => {
                    let mut intent = self.workspace.panes.remove(at);
                    assert(intent@ == here.workspace.panes[at as int]);
                    intent.product = PaneProduct::Modeled(REFLECTIVITY);
                    self.workspace.panes.insert(at, intent);
                    assert(self@.workspace.panes =~= here.workspace.panes.update(
                        at as int,
                        intent@,
                    ));
                    let mut status = "Unknown saved product '".to_owned();
                    status.append(id.as_str());
                    status.append("' - reset to default");
                    self.status = status;
                },
            }
            at = at + 1;
        }
        self.invalidate_visible();
    }
}

/// The workstation after the first `count` panes were looked over for products
/// nobody knows.
pub open spec fn products_restored(app: AppView, unknown: Seq<Option<Seq<char>>>, count: nat) -> AppView
    decreases count,
{
    if count == 0 {
        app
    } else {
        let before = products_restored(app, unknown, (count - 1) as nat);
        let pane = count - 1;
        match unknown[pane] {
            None => before,
            Some(id) => AppView {
                workspace: WorkspaceView {
                    panes: before.workspace.panes.update(
                        pane,
                        IntentView {
                            product: ProductView::Modeled(REFLECTIVITY),
                            ..before.workspace.panes[pane]
                        },
                    ),
                    ..before.workspace
                },
                status: "Unknown saved product '"@ + id + "' - reset to default"@,
                ..before
            },
        }
    }
}

/// The workstation after a profile was switched to.
pub open spec fn profile_switched(app: AppView, name: Option<Seq<char>>) -> AppView {
    let visible = visible_of(app.workspace.layout);
    recoloured(
        AppView {
            display: DisplayView {
                board: semantics_invalidated(app.display.board, visible),
                ..app.display
            },
            status: match name {
                Some(profile) => "Profile '"@ + profile + "' applied"@,
                None => app.status,
            },
            ..app
        },
    )
}

/// A switch of profiles keeps what belongs to the session: the frames, the live
/// radar and its feed.
pub proof fn law_a_switch_keeps_the_session(app: AppView, name: Option<Seq<char>>)
    ensures
        profile_switched(app, name).display.history == app.display.history,
        profile_switched(app, name).live == app.live,
        profile_switched(app, name).playlist == app.playlist,
        profile_switched(app, name).workspace == app.workspace,
{
}

// ---------------------------------------------------------------------------
// Starting
// ---------------------------------------------------------------------------

/// The radar the settings start on: one that is stated, else the last one where
/// that is resumed.
pub open spec fn saved_site(startup: Seq<char>, resume: bool, last: Option<Seq<char>>) -> Option<
    Seq<char>,
> {
    let stated = unicode_uppercase(trimmed(startup));
    if stated.len() > 0 {
        Some(stated)
    } else if resume {
        last
    } else {
        None
    }
}

/// The radar a start goes live on. What the command line states beats what the
/// settings remember.
pub open spec fn started_site(
    path: Option<Seq<char>>,
    site: Option<Seq<char>>,
    saved: Option<Seq<char>>,
) -> Option<Seq<char>> {
    if site is Some {
        site
    } else if path is Some {
        None
    } else {
        saved
    }
}

/// The radar the settings start on.
pub fn start_on_saved_site(startup: &str, resume: bool, last: Option<String>) -> (site: Option<
    String,
>)
    ensures
        text_view(site) == saved_site(startup@, resume, text_view(last)),
{
    let stated = uppercase(trim(startup).as_str());
    let empty = same_text(stated.as_str(), "");
    proof {
        reveal_strlit("");
        if stated@.len() == 0 {
            assert(stated@ =~= ""@);
        }
    }
    if !empty {
        Some(stated)
    } else if resume {
        last
    } else {
        None
    }
}

/// The radar a start goes live on, and how its box reads.
pub fn startup_site(path: &Option<String>, site: Option<String>, saved: Option<String>) -> (start:
    Option<(String, String)>)
    ensures
        match (start, started_site(text_view(*path), text_view(site), text_view(saved))) {
            (Some((radar, label)), Some(expected)) => radar@ == expected && label@
                == unicode_uppercase(trimmed(expected)),
            (None, None) => true,
            _ => false,
        },
{
    let radar = match site {
        Some(stated) => Some(stated),
        None => match path {
            Some(_) => None,
            None => saved,
        },
    };
    match radar {
        Some(name) => {
            let label = uppercase(trim(name.as_str()).as_str());
            Some((name, label))
        },
        None => None,
    }
}

// ---------------------------------------------------------------------------
// Laws of settings
// ---------------------------------------------------------------------------

/// What each name chooses; a name that is not known chooses the first entry.
pub proof fn law_what_names_choose(id: Seq<char>, quality: Seq<char>, floor: Seq<char>)
    ensures
        toolbar_named(id) == ToolbarStyle::Everything <==> id == "full"@,
        labels_named(id) == SiteLabelMode::Always <==> id == "always"@,
        id == "never"@ ==> labels_named(id) != SiteLabelMode::Auto,
        labels_named(id) == SiteLabelMode::Auto <==> id != "always"@ && id != "never"@,
        taper_named(id) == Taper::Rectangular <==> id != "von_hann"@ && id != "hamming"@ && id
            != "blackman"@,
        taper_named("von_hann"@) == Taper::VonHann,
        taper_named("hamming"@) == Taper::Hamming,
        taper_named("blackman"@) == Taper::Blackman,
        vol3d_named(id, quality, floor).threshold_mode == ThresholdMode::Below <==> id
            == "below"@,
        vol3d_named(id, quality, floor).quality == Vol3dQuality::Balanced <==> quality
            != "draft"@ && quality != "high"@,
        quality == "draft"@ ==> vol3d_named(id, quality, floor).quality == Vol3dQuality::Draft,
        vol3d_named(id, "high"@, floor).quality == Vol3dQuality::High,
        vol3d_named(id, quality, floor).floor_mode == FloorMode::LowestTilt <==> floor != "off"@
            && floor != "column-max"@,
        floor == "off"@ ==> vol3d_named(id, quality, floor).floor_mode == FloorMode::Off,
        vol3d_named(id, quality, "column-max"@).floor_mode == FloorMode::ColumnMax,
{
    reveal_strlit("von_hann");
    reveal_strlit("hamming");
    reveal_strlit("blackman");
    reveal_strlit("draft");
    reveal_strlit("high");
    reveal_strlit("off");
    reveal_strlit("column-max");
    assert("von_hann"@[0] != "blackman"@[0]);
    assert("hamming"@.len() == 7 && "von_hann"@.len() == 8 && "blackman"@.len() == 8);
    assert("draft"@.len() == 5 && "high"@.len() == 4);
    assert("off"@.len() == 3 && "column-max"@.len() == 10);
}

/// Numbers that were stored come out as they are, held to what can be meant: a
/// count is never negative, decimals are nine at most, and the top of a section
/// lies between four and twenty-four kilometres.
pub proof fn law_stored_numbers_are_held_to_what_they_mean(value: int)
    ensures
        value >= 0 ==> at_least_zero(value) == value,
        value < 0 ==> at_least_zero(value) == 0,
        0 <= value <= usize::MAX ==> word(value) == value,
        value < 0 ==> word(value) == 0,
        value > usize::MAX ==> word(value) == usize::MAX,
        0 <= value <= 9 ==> decimals(value) == value,
        0 <= decimals(value) <= 9,
        value > 9 ==> decimals(value) == 9,
        4_000 <= value <= 24_000 ==> fenced_top(value) == value,
        value < 4_000 ==> fenced_top(value) == 4_000,
        value > 24_000 ==> fenced_top(value) == 24_000,
        0 <= value && value * 1_048_576 <= u64::MAX ==> cache_bytes(value) == value * 1_048_576,
        value < 0 ==> cache_bytes(value) == 0,
        cache_bytes(value) <= u64::MAX,
{
}

/// What the paint path reads is what was stored, setting by setting.
pub proof fn law_the_cache_is_what_was_stored(stored: StoredSettings)
    ensures
        ({
            let cache = cache_of(stored);
            &&& cache.double_click_reset == stored.double_click_reset
            &&& cache.toolbar_style == toolbar_named(stored.toolbar@)
            &&& cache.site_labels == labels_named(stored.site_labels@)
            &&& cache.site_markers == stored.site_markers
            &&& cache.observations_enabled == stored.observations_enabled
            &&& cache.placefiles_enabled == stored.placefiles_enabled
            &&& cache.legend == stored.legend
            &&& cache.sweep_animation == stored.sweep_animation
            &&& cache.vrot_mps_first <==> stored.vrot_units@ == "mps"@
            &&& cache.annotation.ring_labels == stored.ring_labels
            &&& 0 <= stored.ring_count <= 4_294_967_295 ==> cache.annotation.ring_count
                == stored.ring_count
            &&& 0 <= stored.site_declutter_max <= 4_294_967_295
                ==> cache.annotation.site_declutter_max == stored.site_declutter_max
            &&& 0 <= stored.site_marker_max <= 4_294_967_295 ==> cache.annotation.site_marker_max
                == stored.site_marker_max
            &&& 0 <= stored.range_decimals <= 9 ==> cache.annotation.range_decimals
                == stored.range_decimals
            &&& 0 <= stored.coordinate_decimals <= 9 ==> cache.annotation.coordinate_decimals
                == stored.coordinate_decimals
            &&& 4 <= stored.xsection_top_km <= 24 ==> cache.xsection_top_m
                == stored.xsection_top_km * 1_000
            &&& 4_000 <= cache.xsection_top_m <= 24_000
            &&& stored.loop_frame_ms >= 0 ==> cache.loop_frame_ms == stored.loop_frame_ms
            &&& cache.iq_controls.dwell_pulses >= 1
            &&& 1 <= stored.dwell_pulses <= 4_294_967_295 ==> cache.iq_controls.dwell_pulses
                == stored.dwell_pulses
            &&& cache.iq_controls.taper == taper_named(stored.window@)
            &&& cache.iq_spectrum_channel == (if stored.spectrum_channel@ == "vertical"@ {
                1int
            } else {
                0int
            })
        }),
{
}

/// The network is tuned by what was stored, number by number.
pub proof fn law_the_network_is_tuned_as_stored(stored: StoredNetwork)
    ensures
        ({
            let tuning = tuning_of(stored);
            &&& stored.archive_poll_seconds >= 0 ==> tuning.archive_poll_seconds
                == stored.archive_poll_seconds
            &&& tuning.archive_lead_minutes == stored.archive_lead_minutes
            &&& stored.stall_after_seconds >= 0 ==> tuning.stall_after_seconds
                == stored.stall_after_seconds
            &&& 0 <= stored.live_cache_limit_mb <= 1_000_000_000 ==> tuning.live_cache_bytes
                == stored.live_cache_limit_mb * 1_048_576
            &&& 0 <= stored.download_batch <= 4_294_967_295 ==> tuning.download_batch
                == stored.download_batch
            &&& 0 <= stored.download_attempts <= 4_294_967_295 ==> tuning.download_attempts
                == stored.download_attempts
            &&& stored.retry_backoff_ms >= 0 ==> tuning.retry_backoff_ms
                == stored.retry_backoff_ms
        }),
{
}

/// What reaches the workstation of each kind of change: other limits are applied,
/// a following that was set anew starts over, other numbers drop the readouts,
/// another look draws the screen anew, and a quality that is the same does not.
/// What is for others leaves it as it is.
pub proof fn law_what_a_setting_reaches(
    app: AppView,
    effect: SettingEffect,
    quality_changed: bool,
    configured: HistoryPolicy,
    following: bool,
    candidates: Seq<Option<FollowCandidate>>,
    pane: int,
)
    requires
        app_wf(app),
        0 <= pane < MAX_PANES,
    ensures
        ({
            let after = setting_reached(
                app,
                effect,
                quality_changed,
                configured,
                following,
                candidates,
            );
            &&& effect is HistoryLimits ==> after == limits_applied(app, configured)
            &&& effect is LiveFollow ==> after == low_tilts_followed(
                AppView { follow: forgotten(), ..app },
                following,
                candidates,
            )
            &&& effect is ProbeTexts ==> after.display.board.panes[pane].probe_text is None
                && after.display.board.panes[pane].texture
                == app.display.board.panes[pane].texture && after.display.history
                == app.display.history
            &&& effect is StormMotion || effect is GateFilter || (effect is Quality
                && quality_changed) ==> after == redrawn(app)
            &&& effect is Quality && !quality_changed ==> after == app
            &&& effect is BasemapStyle || effect is ImageryProvider || effect is ImageryDim
                || effect is Observations || effect is Vol3d || effect is TimeSeries
                || effect is Network || effect is Nothing ==> after == app
        }),
{
}

/// Products that are not known give way to the default, pane by pane: a pane
/// whose saved product is known keeps it, and none loses its tilt or its links.
pub proof fn law_unknown_products_give_way(
    app: AppView,
    unknown: Seq<Option<Seq<char>>>,
    count: nat,
    pane: int,
)
    requires
        app_wf(app),
        unknown.len() == MAX_PANES,
        count <= MAX_PANES,
        0 <= pane < MAX_PANES,
    ensures
        ({
            let after = products_restored(app, unknown, count);
            &&& after.workspace.panes.len() == app.workspace.panes.len()
            &&& after.workspace.layout == app.workspace.layout
            &&& after.workspace.active_pane == app.workspace.active_pane
            &&& after.workspace.panes[pane] == (if pane < count && unknown[pane] is Some {
                IntentView {
                    product: ProductView::Modeled(REFLECTIVITY),
                    ..app.workspace.panes[pane]
                }
            } else {
                app.workspace.panes[pane]
            })
            &&& after.display == app.display
            &&& (forall|i: int| 0 <= i < count ==> #[trigger] unknown[i] is None) ==> after == app
            &&& count == pane + 1 && unknown[pane] is Some ==> after.status
                == "Unknown saved product '"@ + unknown[pane]->0 + "' - reset to default"@
        }),
    decreases count,
{
    if count > 0 {
        law_unknown_products_give_way(app, unknown, (count - 1) as nat, pane);
        if forall|i: int| 0 <= i < count ==> #[trigger] unknown[i] is None {
            assert(unknown[count - 1] is None);
        }
    }
}

/// A profile that was switched to draws the screen anew from other data and under
/// other colours, and says its name where it has one.
pub proof fn law_what_a_profile_switch_does(app: AppView, name: Option<Seq<char>>, pane: int)
    requires
        app_wf(app),
        0 <= pane < MAX_PANES,
    ensures
        ({
            let after = profile_switched(app, name);
            let shown = visible_of(app.workspace.layout).contains(pane as usize);
            &&& name matches Some(profile) ==> after.status == "Profile '"@ + profile
                + "' applied"@
            &&& name is None ==> after.status == app.status
            &&& !shown ==> after.display.board.panes[pane] == app.display.board.panes[pane]
            &&& shown ==> after.display.board.panes[pane] == crate::panes::pane_changed(
                crate::panes::pane_changed(
                    app.display.board.panes[pane],
                    crate::panes::PaneChange::Semantic,
                ),
                crate::panes::PaneChange::View,
            )
            &&& after.display.board.palette != app.display.board.palette
            &&& after.display.board.frame == app.display.board.frame
            &&& after.display.board.session == app.display.board.session
            &&& after.display.vrot == app.display.vrot
        }),
{
    let visible = visible_of(app.workspace.layout);
    crate::workspace::law_a_layout_shows_panes_once(app.workspace.layout);
    crate::panes::law_only_the_listed_panes_change(app.display.board, visible, pane as usize);
    let board = semantics_invalidated(app.display.board, visible);
    crate::panes::lemma_with_panes(
        app.display.board,
        visible,
        |one: crate::panes::PaneView| crate::panes::semantic_invalidated(one),
    );
    crate::panes::law_only_the_listed_panes_change(board, visible, pane as usize);
}

/// Which radar the workstation opens on. One that is stated to be opened on comes
/// first, in capitals and without the space around it; else the last one, where
/// the analyst wants to resume. A radar that was given at the start outranks that,
/// and a file that was given alone opens none.
pub proof fn law_which_radar_is_opened_on(
    startup: Seq<char>,
    resume: bool,
    last: Option<Seq<char>>,
    path: Option<Seq<char>>,
    site: Option<Seq<char>>,
    saved: Option<Seq<char>>,
)
    ensures
        unicode_uppercase(trimmed(startup)).len() > 0 ==> saved_site(startup, resume, last) == Some(
            unicode_uppercase(trimmed(startup)),
        ),
        unicode_uppercase(trimmed(startup)).len() == 0 && resume ==> saved_site(
            startup,
            resume,
            last,
        ) == last,
        unicode_uppercase(trimmed(startup)).len() == 0 && !resume ==> saved_site(
            startup,
            resume,
            last,
        ) is None,
        site is Some ==> started_site(path, site, saved) == site,
        site is None && path is Some ==> started_site(path, site, saved) is None,
        site is None && path is None ==> started_site(path, site, saved) == saved,
{
}

/// Which settings reach what, page by page and for every row of the page; rows and
/// pages that are not named here reach nothing.
pub proof fn law_which_settings_reach_what(category: Seq<char>, id: Seq<char>)
    ensures
        effect_of("radar"@, id) == (if id == "quality"@ {
            SettingEffect::Quality
        } else if id == "filter_min_dbz"@ || id == "filter_vel_needs_dbz"@ || id
            == "filter_min_rho"@ || id == "filter_hide_rf"@ || id == "filter_min_range_km"@ {
            SettingEffect::GateFilter
        } else {
            SettingEffect::Nothing
        }),
        effect_of("map"@, id) is BasemapStyle <==> id == "basemap_style"@,
        effect_of("map"@, id) is ImageryProvider <==> id == "imagery_provider"@,
        effect_of("map"@, id) is ImageryDim <==> id == "imagery_dim"@ || id
            == "imagery_dim_auto"@,
        effect_of("analysis"@, id) is StormMotion <==> id == "storm_motion_dir"@ || id
            == "storm_motion_speed"@,
        effect_of("data"@, id) is HistoryLimits <==> id == "history_max_frames"@ || id
            == "history_max_mb"@,
        effect_of("data"@, id) is LiveFollow <==> id == "follow_low_tilts_enabled"@ || id
            == "follow_max_elevation_deg"@ || id == "follow_min_sweep_interval_seconds"@,
        effect_of("data"@, id) is Network <==> id == "poll_seconds"@ || id
            == "live_cache_limit_mb"@,
        category != "radar"@ && category != "map"@ && category != "observations"@ && category
            != "analysis"@ && category != "data"@ && category != "vol3d"@ && category
            != "timeseries"@ && category != "network"@ && category != "units"@ && category
            != "annotation"@ ==> effect_of(category, id) is Nothing,
{
    reveal_strlit("radar");
    assert("radar"@.len() == 5);
    reveal_strlit("map");
    assert("map"@.len() == 3);
    reveal_strlit("observations");
    assert("observations"@.len() == 12);
    reveal_strlit("analysis");
    assert("analysis"@.len() == 8);
    reveal_strlit("data");
    assert("data"@.len() == 4);
    reveal_strlit("vol3d");
    assert("vol3d"@.len() == 5);
    reveal_strlit("timeseries");
    assert("timeseries"@.len() == 10);
    reveal_strlit("network");
    assert("network"@.len() == 7);
    reveal_strlit("units");
    assert("units"@.len() == 5);
    reveal_strlit("annotation");
    assert("annotation"@.len() == 10);
    reveal_strlit("quality");
    assert("quality"@.len() == 7);
    reveal_strlit("filter_min_dbz");
    assert("filter_min_dbz"@.len() == 14);
    reveal_strlit("filter_vel_needs_dbz");
    assert("filter_vel_needs_dbz"@.len() == 20);
    reveal_strlit("filter_min_rho");
    assert("filter_min_rho"@.len() == 14);
    reveal_strlit("filter_hide_rf");
    assert("filter_hide_rf"@.len() == 14);
    reveal_strlit("filter_min_range_km");
    assert("filter_min_range_km"@.len() == 19);
    reveal_strlit("basemap_style");
    assert("basemap_style"@.len() == 13);
    reveal_strlit("imagery_provider");
    assert("imagery_provider"@.len() == 16);
    reveal_strlit("imagery_dim");
    assert("imagery_dim"@.len() == 11);
    reveal_strlit("imagery_dim_auto");
    assert("imagery_dim_auto"@.len() == 16);
    reveal_strlit("storm_motion_dir");
    assert("storm_motion_dir"@.len() == 16);
    reveal_strlit("storm_motion_speed");
    assert("storm_motion_speed"@.len() == 18);
    reveal_strlit("history_max_frames");
    assert("history_max_frames"@.len() == 18);
    reveal_strlit("history_max_mb");
    assert("history_max_mb"@.len() == 14);
    reveal_strlit("follow_low_tilts_enabled");
    assert("follow_low_tilts_enabled"@.len() == 24);
    reveal_strlit("follow_max_elevation_deg");
    assert("follow_max_elevation_deg"@.len() == 24);
    reveal_strlit("follow_min_sweep_interval_seconds");
    assert("follow_min_sweep_interval_seconds"@.len() == 33);
    reveal_strlit("poll_seconds");
    assert("poll_seconds"@.len() == 12);
    reveal_strlit("live_cache_limit_mb");
    assert("live_cache_limit_mb"@.len() == 19);
    assert("imagery_provider"@[8] != "imagery_dim_auto"@[8]);
}

} // verus!
