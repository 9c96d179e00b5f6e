//! The settings the workstation's own pages declare, by page and by row.
//!
//! A page's constant is its id; a row's constant starts with its page's.

use crate::registry::{SettingSpec, SettingsCategory, SettingsRegistry};
use vstd::prelude::*;

verus! {

use crate::registry::{
    ids_are_distinct, law_declaring_never_splits_a_page, lemma_page_index, lemma_page_index_is,
    with_page, with_pages, PageView,
};

pub const APPEARANCE: &'static str = "appearance";

pub const APPEARANCE_TOOLBAR: &'static str = "toolbar";

pub const MAP: &'static str = "map";

pub const MAP_BASEMAP_STYLE: &'static str = "basemap_style";

pub const MAP_IMAGERY_PROVIDER: &'static str = "imagery_provider";

pub const MAP_IMAGERY_DIM: &'static str = "imagery_dim";

pub const MAP_IMAGERY_DIM_AUTO: &'static str = "imagery_dim_auto";

pub const MAP_SITE_LABELS: &'static str = "site_labels";

pub const MAP_SITE_MARKERS: &'static str = "site_markers";

pub const MAP_PLACEFILES_ENABLED: &'static str = "placefiles_enabled";

pub const OBSERVATIONS: &'static str = "observations";

pub const OBSERVATIONS_ENABLED: &'static str = "enabled";

pub const OBSERVATIONS_MESONET_ENABLED: &'static str = "mesonet_enabled";

pub const OBSERVATIONS_REFRESH_SECONDS: &'static str = "refresh_seconds";

pub const OBSERVATIONS_SHOW_TEMPERATURE: &'static str = "show_temperature";

pub const OBSERVATIONS_SHOW_DEWPOINT: &'static str = "show_dewpoint";

pub const OBSERVATIONS_SHOW_WIND_BARBS: &'static str = "show_wind_barbs";

pub const OBSERVATIONS_SHOW_STATION_ID: &'static str = "show_station_id";

pub const OBSERVATIONS_SHOW_SKY_COVER: &'static str = "show_sky_cover";

pub const OBSERVATIONS_SHOW_WEATHER: &'static str = "show_weather";

pub const OBSERVATIONS_SHOW_VISIBILITY: &'static str = "show_visibility";

pub const OBSERVATIONS_SHOW_PRESSURE: &'static str = "show_pressure";

pub const OBSERVATIONS_SHOW_GUSTS: &'static str = "show_gusts";

pub const OBSERVATIONS_DECLUTTER_POINTS: &'static str = "declutter_points";

pub const OBSERVATIONS_FAHRENHEIT: &'static str = "fahrenheit";

pub const RADAR: &'static str = "radar";

pub const RADAR_QUALITY: &'static str = "quality";

pub const RADAR_LEGEND: &'static str = "legend";

pub const RADAR_SWEEP_ANIMATION: &'static str = "sweep_animation";

pub const RADAR_SWEEP_SPEED: &'static str = "sweep_speed";

pub const RADAR_FILTER_MIN_DBZ: &'static str = "filter_min_dbz";

pub const RADAR_FILTER_VEL_NEEDS_DBZ: &'static str = "filter_vel_needs_dbz";

pub const RADAR_FILTER_MIN_RHO: &'static str = "filter_min_rho";

pub const RADAR_FILTER_HIDE_RF: &'static str = "filter_hide_rf";

pub const RADAR_FILTER_MIN_RANGE_KM: &'static str = "filter_min_range_km";

pub const NAVIGATION: &'static str = "navigation";

pub const NAVIGATION_ZOOM_PER_NOTCH: &'static str = "zoom_per_notch";

pub const NAVIGATION_KEY_PAN_RATE: &'static str = "key_pan_rate";

pub const NAVIGATION_KEY_ZOOM_RATE: &'static str = "key_zoom_rate";

pub const NAVIGATION_DOUBLE_CLICK_RESET: &'static str = "double_click_reset";

pub const VOL3D: &'static str = "vol3d";

pub const VOL3D_THRESHOLD_DBZ: &'static str = "threshold_dbz";

pub const VOL3D_THRESHOLD_MODE: &'static str = "threshold_mode";

pub const VOL3D_OPACITY: &'static str = "opacity";

pub const VOL3D_DENSITY: &'static str = "density";

pub const VOL3D_SHADING: &'static str = "shading";

pub const VOL3D_QUALITY: &'static str = "quality";

pub const VOL3D_BOX_SIZE_KM: &'static str = "box_size_km";

pub const VOL3D_VERTICAL_EXAGGERATION: &'static str = "vertical_exaggeration";

pub const VOL3D_FOV_SCALE: &'static str = "fov_scale";

pub const VOL3D_FLOOR_MODE: &'static str = "floor_mode";

pub const VOL3D_FLOOR_OPACITY: &'static str = "floor_opacity";

pub const VOL3D_RAMP_LOW_DBZ: &'static str = "ramp_low_dbz";

pub const VOL3D_RAMP_HIGH_DBZ: &'static str = "ramp_high_dbz";

pub const VOL3D_RAMP_GAMMA: &'static str = "ramp_gamma";

pub const VOL3D_RAMP_FLOOR: &'static str = "ramp_floor";

pub const VOL3D_RAMP_GAIN: &'static str = "ramp_gain";

pub const VOL3D_SHOW_GRID: &'static str = "show_grid";

pub const VOL3D_SHOW_BOX: &'static str = "show_box";

pub const VOL3D_SHOW_LABELS: &'static str = "show_labels";

pub const ANALYSIS: &'static str = "analysis";

pub const ANALYSIS_STORM_MOTION_DIR: &'static str = "storm_motion_dir";

pub const ANALYSIS_STORM_MOTION_SPEED: &'static str = "storm_motion_speed";

pub const ANALYSIS_VROT_UNITS: &'static str = "vrot_units";

pub const DATA: &'static str = "data";

pub const DATA_STARTUP_SITE: &'static str = "startup_site";

pub const DATA_RESUME_LAST_SITE: &'static str = "resume_last_site";

pub const DATA_HISTORY_MAX_FRAMES: &'static str = "history_max_frames";

pub const DATA_HISTORY_MAX_MB: &'static str = "history_max_mb";

pub const DATA_LOOP_FRAME_MS: &'static str = "loop_frame_ms";

pub const DATA_POLL_SECONDS: &'static str = "poll_seconds";

pub const DATA_LIVE_CACHE_LIMIT_MB: &'static str = "live_cache_limit_mb";

pub const DATA_FOLLOW_LOW_TILTS_ENABLED: &'static str = "follow_low_tilts_enabled";

pub const DATA_FOLLOW_MAX_ELEVATION_DEG: &'static str = "follow_max_elevation_deg";

pub const DATA_FOLLOW_MIN_SWEEP_INTERVAL_SECONDS: &'static str = "follow_min_sweep_interval_seconds";

pub const UNITS: &'static str = "units";

pub const UNITS_DISTANCE: &'static str = "distance";

pub const UNITS_ALTITUDE: &'static str = "altitude";

pub const UNITS_TIME_ZONE: &'static str = "time_zone";

pub const UNITS_CLOCK: &'static str = "clock";

pub const NETWORK: &'static str = "network";

pub const NETWORK_ARCHIVE_POLL_SECONDS: &'static str = "archive_poll_seconds";

pub const NETWORK_ARCHIVE_LEAD_MINUTES: &'static str = "archive_lead_minutes";

pub const NETWORK_STALL_AFTER_SECONDS: &'static str = "stall_after_seconds";

pub const NETWORK_DOWNLOAD_BATCH: &'static str = "download_batch";

pub const NETWORK_DOWNLOAD_ATTEMPTS: &'static str = "download_attempts";

pub const NETWORK_RETRY_BACKOFF_MS: &'static str = "retry_backoff_ms";

pub const ANNOTATION: &'static str = "annotation";

pub const ANNOTATION_RING_LADDER: &'static str = "ring_ladder";

pub const ANNOTATION_RING_COUNT: &'static str = "ring_count";

pub const ANNOTATION_RING_LABELS: &'static str = "ring_labels";

pub const ANNOTATION_SITE_MARKER_SIZE: &'static str = "site_marker_size";

pub const ANNOTATION_SITE_LABEL_SIZE: &'static str = "site_label_size";

pub const ANNOTATION_SITE_DECLUTTER_MAX: &'static str = "site_declutter_max";

pub const ANNOTATION_SITE_MARKER_MAX: &'static str = "site_marker_max";

pub const ANNOTATION_RANGE_DECIMALS: &'static str = "range_decimals";

pub const ANNOTATION_COORDINATE_DECIMALS: &'static str = "coordinate_decimals";

pub const ANNOTATION_CORNER_READOUT: &'static str = "corner_readout";

pub const XSECTION: &'static str = "xsection";

pub const XSECTION_TOP_KM: &'static str = "top_km";

pub const TIMESERIES: &'static str = "timeseries";

pub const TIMESERIES_DWELL_PULSES: &'static str = "dwell_pulses";

pub const TIMESERIES_WINDOW: &'static str = "window";

pub const TIMESERIES_SNR_MIN_DB: &'static str = "snr_min_db";

pub const TIMESERIES_SPECTRUM_CHANNEL: &'static str = "spectrum_channel";

pub const PROFILES: &'static str = "profiles";

pub const PROFILES_SHOW_IN_STATUS: &'static str = "show_in_status";

/// The rows a page is declared with.
pub open spec fn row_texts(rows: Seq<&'static str>) -> Seq<Seq<char>> {
    rows.map_values(|row: &'static str| row@)
}

/// A page of this id with these rows.
pub fn declare(id: &str, rows: Vec<&'static str>) -> (page: SettingsCategory)
    ensures
        page@ == (PageView { id: id@, rows: row_texts(rows@) }),
{
    let mut settings: Vec<SettingSpec> = Vec::new();
    let mut at: usize = 0;
    while at < rows.len()
        invariant
            at <= rows@.len(),
            settings@.len() == at,
            forall|i: int| 0 <= i < at ==> (#[trigger] settings@[i]).id@ == rows@[i]@,
        decreases rows@.len() - at,
    {
        settings.push(SettingSpec { id: rows[at].to_owned() });
        at = at + 1;
    }
    let page = SettingsCategory { id: id.to_owned(), settings };
    assert(page@.rows =~= row_texts(rows@));
    page
}

/// The rows of the `appearance` page.
pub open spec fn appearance_page_view() -> PageView {
    PageView {
        id: APPEARANCE@,
        rows: seq![
            APPEARANCE_TOOLBAR@,
        ],
    }
}

/// The `appearance` page.
fn appearance_page() -> (page: SettingsCategory)
    ensures
        page@ == appearance_page_view(),
{
    let page = declare(
        APPEARANCE,
        vec![
            APPEARANCE_TOOLBAR,
        ],
    );
    assert(page@.rows =~= appearance_page_view().rows);
    page
}

/// The rows of the `map` page.
pub open spec fn map_page_view() -> PageView {
    PageView {
        id: MAP@,
        rows: seq![
            MAP_BASEMAP_STYLE@,
            MAP_IMAGERY_PROVIDER@,
            MAP_IMAGERY_DIM@,
            MAP_IMAGERY_DIM_AUTO@,
            MAP_SITE_LABELS@,
            MAP_SITE_MARKERS@,
            MAP_PLACEFILES_ENABLED@,
        ],
    }
}

/// The `map` page.
fn map_page() -> (page: SettingsCategory)
    ensures
        page@ == map_page_view(),
{
    let page = declare(
        MAP,
        vec![
            MAP_BASEMAP_STYLE,
            MAP_IMAGERY_PROVIDER,
            MAP_IMAGERY_DIM,
            MAP_IMAGERY_DIM_AUTO,
            MAP_SITE_LABELS,
            MAP_SITE_MARKERS,
            MAP_PLACEFILES_ENABLED,
        ],
    );
    assert(page@.rows =~= map_page_view().rows);
    page
}

/// The rows of the `observations` page.
pub open spec fn observations_page_view() -> PageView {
    PageView {
        id: OBSERVATIONS@,
        rows: seq![
            OBSERVATIONS_ENABLED@,
            OBSERVATIONS_MESONET_ENABLED@,
            OBSERVATIONS_REFRESH_SECONDS@,
            OBSERVATIONS_SHOW_TEMPERATURE@,
            OBSERVATIONS_SHOW_DEWPOINT@,
            OBSERVATIONS_SHOW_WIND_BARBS@,
            OBSERVATIONS_SHOW_STATION_ID@,
            OBSERVATIONS_SHOW_SKY_COVER@,
            OBSERVATIONS_SHOW_WEATHER@,
            OBSERVATIONS_SHOW_VISIBILITY@,
            OBSERVATIONS_SHOW_PRESSURE@,
            OBSERVATIONS_SHOW_GUSTS@,
            OBSERVATIONS_DECLUTTER_POINTS@,
            OBSERVATIONS_FAHRENHEIT@,
        ],
    }
}

/// The `observations` page.
fn observations_page() -> (page: SettingsCategory)
    ensures
        page@ == observations_page_view(),
{
    let page = declare(
        OBSERVATIONS,
        vec![
            OBSERVATIONS_ENABLED,
            OBSERVATIONS_MESONET_ENABLED,
            OBSERVATIONS_REFRESH_SECONDS,
            OBSERVATIONS_SHOW_TEMPERATURE,
            OBSERVATIONS_SHOW_DEWPOINT,
            OBSERVATIONS_SHOW_WIND_BARBS,
            OBSERVATIONS_SHOW_STATION_ID,
            OBSERVATIONS_SHOW_SKY_COVER,
            OBSERVATIONS_SHOW_WEATHER,
            OBSERVATIONS_SHOW_VISIBILITY,
            OBSERVATIONS_SHOW_PRESSURE,
            OBSERVATIONS_SHOW_GUSTS,
            OBSERVATIONS_DECLUTTER_POINTS,
            OBSERVATIONS_FAHRENHEIT,
        ],
    );
    assert(page@.rows =~= observations_page_view().rows);
    page
}

/// The rows of the `radar` page.
pub open spec fn radar_page_view() -> PageView {
    PageView {
        id: RADAR@,
        rows: seq![
            RADAR_QUALITY@,
            RADAR_LEGEND@,
            RADAR_SWEEP_ANIMATION@,
            RADAR_SWEEP_SPEED@,
            RADAR_FILTER_MIN_DBZ@,
            RADAR_FILTER_VEL_NEEDS_DBZ@,
            RADAR_FILTER_MIN_RHO@,
            RADAR_FILTER_HIDE_RF@,
            RADAR_FILTER_MIN_RANGE_KM@,
        ],
    }
}

/// The `radar` page.
fn radar_page() -> (page: SettingsCategory)
    ensures
        page@ == radar_page_view(),
{
    let page = declare(
        RADAR,
        vec![
            RADAR_QUALITY,
            RADAR_LEGEND,
            RADAR_SWEEP_ANIMATION,
            RADAR_SWEEP_SPEED,
            RADAR_FILTER_MIN_DBZ,
            RADAR_FILTER_VEL_NEEDS_DBZ,
            RADAR_FILTER_MIN_RHO,
            RADAR_FILTER_HIDE_RF,
            RADAR_FILTER_MIN_RANGE_KM,
        ],
    );
    assert(page@.rows =~= radar_page_view().rows);
    page
}

/// The rows of the `navigation` page.
pub open spec fn navigation_page_view() -> PageView {
    PageView {
        id: NAVIGATION@,
        rows: seq![
            NAVIGATION_ZOOM_PER_NOTCH@,
            NAVIGATION_KEY_PAN_RATE@,
            NAVIGATION_KEY_ZOOM_RATE@,
            NAVIGATION_DOUBLE_CLICK_RESET@,
        ],
    }
}

/// The `navigation` page.
fn navigation_page() -> (page: SettingsCategory)
    ensures
        page@ == navigation_page_view(),
{
    let page = declare(
        NAVIGATION,
        vec![
            NAVIGATION_ZOOM_PER_NOTCH,
            NAVIGATION_KEY_PAN_RATE,
            NAVIGATION_KEY_ZOOM_RATE,
            NAVIGATION_DOUBLE_CLICK_RESET,
        ],
    );
    assert(page@.rows =~= navigation_page_view().rows);
    page
}

/// The rows of the `vol3d` page.
pub open spec fn vol3d_page_view() -> PageView {
    PageView {
        id: VOL3D@,
        rows: seq![
            VOL3D_THRESHOLD_DBZ@,
            VOL3D_THRESHOLD_MODE@,
            VOL3D_OPACITY@,
            VOL3D_DENSITY@,
            VOL3D_SHADING@,
            VOL3D_QUALITY@,
            VOL3D_BOX_SIZE_KM@,
            VOL3D_VERTICAL_EXAGGERATION@,
            VOL3D_FOV_SCALE@,
            VOL3D_FLOOR_MODE@,
            VOL3D_FLOOR_OPACITY@,
            VOL3D_RAMP_LOW_DBZ@,
            VOL3D_RAMP_HIGH_DBZ@,
            VOL3D_RAMP_GAMMA@,
            VOL3D_RAMP_FLOOR@,
            VOL3D_RAMP_GAIN@,
            VOL3D_SHOW_GRID@,
            VOL3D_SHOW_BOX@,
            VOL3D_SHOW_LABELS@,
        ],
    }
}

/// The `vol3d` page.
fn vol3d_page() -> (page: SettingsCategory)
    ensures
        page@ == vol3d_page_view(),
{
    let page = declare(
        VOL3D,
        vec![
            VOL3D_THRESHOLD_DBZ,
            VOL3D_THRESHOLD_MODE,
            VOL3D_OPACITY,
            VOL3D_DENSITY,
            VOL3D_SHADING,
            VOL3D_QUALITY,
            VOL3D_BOX_SIZE_KM,
            VOL3D_VERTICAL_EXAGGERATION,
            VOL3D_FOV_SCALE,
            VOL3D_FLOOR_MODE,
            VOL3D_FLOOR_OPACITY,
            VOL3D_RAMP_LOW_DBZ,
            VOL3D_RAMP_HIGH_DBZ,
            VOL3D_RAMP_GAMMA,
            VOL3D_RAMP_FLOOR,
            VOL3D_RAMP_GAIN,
            VOL3D_SHOW_GRID,
            VOL3D_SHOW_BOX,
            VOL3D_SHOW_LABELS,
        ],
    );
    assert(page@.rows =~= vol3d_page_view().rows);
    page
}

/// The rows of the `analysis` page.
pub open spec fn analysis_page_view() -> PageView {
    PageView {
        id: ANALYSIS@,
        rows: seq![
            ANALYSIS_STORM_MOTION_DIR@,
            ANALYSIS_STORM_MOTION_SPEED@,
            ANALYSIS_VROT_UNITS@,
        ],
    }
}

/// The `analysis` page.
fn analysis_page() -> (page: SettingsCategory)
    ensures
        page@ == analysis_page_view(),
{
    let page = declare(
        ANALYSIS,
        vec![
            ANALYSIS_STORM_MOTION_DIR,
            ANALYSIS_STORM_MOTION_SPEED,
            ANALYSIS_VROT_UNITS,
        ],
    );
    assert(page@.rows =~= analysis_page_view().rows);
    page
}

/// The rows of the `data` page.
pub open spec fn data_page_view() -> PageView {
    PageView {
        id: DATA@,
        rows: seq![
            DATA_STARTUP_SITE@,
            DATA_RESUME_LAST_SITE@,
            DATA_HISTORY_MAX_FRAMES@,
            DATA_HISTORY_MAX_MB@,
            DATA_LOOP_FRAME_MS@,
            DATA_POLL_SECONDS@,
            DATA_LIVE_CACHE_LIMIT_MB@,
            DATA_FOLLOW_LOW_TILTS_ENABLED@,
            DATA_FOLLOW_MAX_ELEVATION_DEG@,
            DATA_FOLLOW_MIN_SWEEP_INTERVAL_SECONDS@,
        ],
    }
}

/// The `data` page.
fn data_page() -> (page: SettingsCategory)
    ensures
        page@ == data_page_view(),
{
    let page = declare(
        DATA,
        vec![
            DATA_STARTUP_SITE,
            DATA_RESUME_LAST_SITE,
            DATA_HISTORY_MAX_FRAMES,
            DATA_HISTORY_MAX_MB,
            DATA_LOOP_FRAME_MS,
            DATA_POLL_SECONDS,
            DATA_LIVE_CACHE_LIMIT_MB,
            DATA_FOLLOW_LOW_TILTS_ENABLED,
            DATA_FOLLOW_MAX_ELEVATION_DEG,
            DATA_FOLLOW_MIN_SWEEP_INTERVAL_SECONDS,
        ],
    );
    assert(page@.rows =~= data_page_view().rows);
    page
}

/// The rows of the `units` page.
pub open spec fn units_page_view() -> PageView {
    PageView {
        id: UNITS@,
        rows: seq![
            UNITS_DISTANCE@,
            UNITS_ALTITUDE@,
            UNITS_TIME_ZONE@,
            UNITS_CLOCK@,
        ],
    }
}

/// The `units` page.
fn units_page() -> (page: SettingsCategory)
    ensures
        page@ == units_page_view(),
{
    let page = declare(
        UNITS,
        vec![
            UNITS_DISTANCE,
            UNITS_ALTITUDE,
            UNITS_TIME_ZONE,
            UNITS_CLOCK,
        ],
    );
    assert(page@.rows =~= units_page_view().rows);
    page
}

/// The rows of the `network` page.
pub open spec fn network_page_view() -> PageView {
    PageView {
        id: NETWORK@,
        rows: seq![
            NETWORK_ARCHIVE_POLL_SECONDS@,
            NETWORK_ARCHIVE_LEAD_MINUTES@,
            NETWORK_STALL_AFTER_SECONDS@,
            NETWORK_DOWNLOAD_BATCH@,
            NETWORK_DOWNLOAD_ATTEMPTS@,
            NETWORK_RETRY_BACKOFF_MS@,
        ],
    }
}

/// The `network` page.
fn network_page() -> (page: SettingsCategory)
    ensures
        page@ == network_page_view(),
{
    let page = declare(
        NETWORK,
        vec![
            NETWORK_ARCHIVE_POLL_SECONDS,
            NETWORK_ARCHIVE_LEAD_MINUTES,
            NETWORK_STALL_AFTER_SECONDS,
            NETWORK_DOWNLOAD_BATCH,
            NETWORK_DOWNLOAD_ATTEMPTS,
            NETWORK_RETRY_BACKOFF_MS,
        ],
    );
    assert(page@.rows =~= network_page_view().rows);
    page
}

/// The rows of the `annotation` page.
pub open spec fn annotation_page_view() -> PageView {
    PageView {
        id: ANNOTATION@,
        rows: seq![
            ANNOTATION_RING_LADDER@,
            ANNOTATION_RING_COUNT@,
            ANNOTATION_RING_LABELS@,
            ANNOTATION_SITE_MARKER_SIZE@,
            ANNOTATION_SITE_LABEL_SIZE@,
            ANNOTATION_SITE_DECLUTTER_MAX@,
            ANNOTATION_SITE_MARKER_MAX@,
            ANNOTATION_RANGE_DECIMALS@,
            ANNOTATION_COORDINATE_DECIMALS@,
            ANNOTATION_CORNER_READOUT@,
        ],
    }
}

/// The `annotation` page.
fn annotation_page() -> (page: SettingsCategory)
    ensures
        page@ == annotation_page_view(),
{
    let page = declare(
        ANNOTATION,
        vec![
            ANNOTATION_RING_LADDER,
            ANNOTATION_RING_COUNT,
            ANNOTATION_RING_LABELS,
            ANNOTATION_SITE_MARKER_SIZE,
            ANNOTATION_SITE_LABEL_SIZE,
            ANNOTATION_SITE_DECLUTTER_MAX,
            ANNOTATION_SITE_MARKER_MAX,
            ANNOTATION_RANGE_DECIMALS,
            ANNOTATION_COORDINATE_DECIMALS,
            ANNOTATION_CORNER_READOUT,
        ],
    );
    assert(page@.rows =~= annotation_page_view().rows);
    page
}

/// The rows of the `xsection` page.
pub open spec fn xsection_page_view() -> PageView {
    PageView {
        id: XSECTION@,
        rows: seq![
            XSECTION_TOP_KM@,
        ],
    }
}

/// The `xsection` page.
fn xsection_page() -> (page: SettingsCategory)
    ensures
        page@ == xsection_page_view(),
{
    let page = declare(
        XSECTION,
        vec![
            XSECTION_TOP_KM,
        ],
    );
    assert(page@.rows =~= xsection_page_view().rows);
    page
}

/// The rows of the `timeseries` page.
pub open spec fn timeseries_page_view() -> PageView {
    PageView {
        id: TIMESERIES@,
        rows: seq![
            TIMESERIES_DWELL_PULSES@,
            TIMESERIES_WINDOW@,
            TIMESERIES_SNR_MIN_DB@,
            TIMESERIES_SPECTRUM_CHANNEL@,
        ],
    }
}

/// The `timeseries` page.
fn timeseries_page() -> (page: SettingsCategory)
    ensures
        page@ == timeseries_page_view(),
{
    let page = declare(
        TIMESERIES,
        vec![
            TIMESERIES_DWELL_PULSES,
            TIMESERIES_WINDOW,
            TIMESERIES_SNR_MIN_DB,
            TIMESERIES_SPECTRUM_CHANNEL,
        ],
    );
    assert(page@.rows =~= timeseries_page_view().rows);
    page
}

/// The rows of the `profiles` page.
pub open spec fn profiles_page_view() -> PageView {
    PageView {
        id: PROFILES@,
        rows: seq![
            PROFILES_SHOW_IN_STATUS@,
        ],
    }
}

/// The `profiles` page.
fn profiles_page() -> (page: SettingsCategory)
    ensures
        page@ == profiles_page_view(),
{
    let page = declare(
        PROFILES,
        vec![
            PROFILES_SHOW_IN_STATUS,
        ],
    );
    assert(page@.rows =~= profiles_page_view().rows);
    page
}

/// Every page of the catalog, in the order it declares them.
pub open spec fn catalog_pages() -> Seq<PageView> {
    seq![
        appearance_page_view(),
        map_page_view(),
        observations_page_view(),
        radar_page_view(),
        navigation_page_view(),
        vol3d_page_view(),
        analysis_page_view(),
        data_page_view(),
        units_page_view(),
        network_page_view(),
        annotation_page_view(),
        xsection_page_view(),
        timeseries_page_view(),
        profiles_page_view(),
    ]
}

/// One more page of a list, declared.
proof fn lemma_next_page(pages: Seq<PageView>, more: Seq<PageView>, count: int)
    requires
        0 <= count < more.len(),
    ensures
        with_pages(pages, more.take(count + 1)) == with_page(
            with_pages(pages, more.take(count)),
            more[count],
        ),
{
    assert(more.take(count + 1).drop_last() =~= more.take(count));
    assert(more.take(count + 1).last() == more[count]);
}

/// No page of the catalog but its first goes by the look's id.
proof fn lemma_the_look_is_one_page(count: int)
    requires
        0 < count < catalog_pages().len(),
    ensures
        catalog_pages()[count].id != APPEARANCE@,
{
    reveal_strlit("appearance");
    reveal_strlit("map");
    reveal_strlit("observations");
    reveal_strlit("radar");
    reveal_strlit("navigation");
    reveal_strlit("vol3d");
    reveal_strlit("analysis");
    reveal_strlit("data");
    reveal_strlit("units");
    reveal_strlit("network");
    reveal_strlit("annotation");
    reveal_strlit("xsection");
    reveal_strlit("timeseries");
    reveal_strlit("profiles");
    assert(MAP@.len() == 3);
    assert(OBSERVATIONS@.len() == 12);
    assert(RADAR@.len() == 5);
    assert(NAVIGATION@[0] == 'n');
    assert(APPEARANCE@[0] == 'a');
    assert(VOL3D@.len() == 5);
    assert(ANALYSIS@.len() == 8);
    assert(DATA@.len() == 4);
    assert(UNITS@.len() == 5);
    assert(NETWORK@.len() == 7);
    assert(ANNOTATION@[1] == 'n');
    assert(APPEARANCE@[1] == 'p');
    assert(XSECTION@.len() == 8);
    assert(TIMESERIES@[0] == 't');
    assert(APPEARANCE@[0] == 'a');
    assert(PROFILES@.len() == 8);
}

/// The settings window opens on the look: its page comes first, holds what the
/// look declares and the catalog's own row behind it, and no page is split.
pub proof fn law_the_look_is_one_page_and_the_first(look: PageView)
    requires
        look.id == APPEARANCE@,
    ensures
        with_pages(seq![look], catalog_pages())[0] == (PageView {
            id: look.id,
            rows: look.rows + appearance_page_view().rows,
        }),
        ids_are_distinct(with_pages(seq![look], catalog_pages())),
{
    let more = catalog_pages();
    lemma_the_look_opens(look, more.len() as int);
    assert(more.take(more.len() as int) =~= more);
}

/// What the law says, once some pages of the catalog were declared.
proof fn lemma_the_look_opens(look: PageView, count: int)
    requires
        look.id == APPEARANCE@,
        0 <= count <= catalog_pages().len(),
    ensures
        with_pages(seq![look], catalog_pages().take(count)).len() > 0,
        with_pages(seq![look], catalog_pages().take(count))[0] == (PageView {
            id: look.id,
            rows: if count == 0 {
                look.rows
            } else {
                look.rows + appearance_page_view().rows
            },
        }),
        ids_are_distinct(with_pages(seq![look], catalog_pages().take(count))),
    decreases count,
{
    let more = catalog_pages();
    if count == 0 {
        assert(more.take(0) =~= Seq::<PageView>::empty());
    } else {
        lemma_the_look_opens(look, count - 1);
        lemma_next_page(seq![look], more, count - 1);
        let before = with_pages(seq![look], more.take(count - 1));
        let page = more[count - 1];
        law_declaring_never_splits_a_page(before, page);
        lemma_page_index(before, page.id);
        if count > 1 {
            lemma_the_look_is_one_page(count - 1);
        } else {
            assert(page == appearance_page_view());
            lemma_page_index_is(before, page.id, 0);
        }
    }
}

/// Declares every page of the catalog.
pub fn register_into(registry: &mut SettingsRegistry)
    ensures
        final(registry)@ == with_pages(old(registry)@, catalog_pages()),
{
    let ghost before = registry@;
    let ghost pages = catalog_pages();
    registry.register(appearance_page());
    registry.register(map_page());
    registry.register(observations_page());
    registry.register(radar_page());
    registry.register(navigation_page());
    registry.register(vol3d_page());
    registry.register(analysis_page());
    registry.register(data_page());
    registry.register(units_page());
    registry.register(network_page());
    registry.register(annotation_page());
    registry.register(xsection_page());
    registry.register(timeseries_page());
    registry.register(profiles_page());
    proof {
        assert(pages.take(0) =~= Seq::<PageView>::empty());
        assert(with_pages(before, pages.take(0)) == before);
        lemma_next_page(before, pages, 0);
        lemma_next_page(before, pages, 1);
        lemma_next_page(before, pages, 2);
        lemma_next_page(before, pages, 3);
        lemma_next_page(before, pages, 4);
        lemma_next_page(before, pages, 5);
        lemma_next_page(before, pages, 6);
        lemma_next_page(before, pages, 7);
        lemma_next_page(before, pages, 8);
        lemma_next_page(before, pages, 9);
        lemma_next_page(before, pages, 10);
        lemma_next_page(before, pages, 11);
        lemma_next_page(before, pages, 12);
        lemma_next_page(before, pages, 13);
        assert(pages.take(14) =~= pages);
    }
}

/// Every page the application runs on: the page the look declares, then the
/// catalog's.
pub fn full_registry(appearance: SettingsCategory) -> (registry: SettingsRegistry)
    ensures
        registry@ == with_pages(seq![appearance@], catalog_pages()),
{
    let mut registry = SettingsRegistry::new();
    registry.register(appearance);
    assert(registry@ =~= seq![appearance@]);
    register_into(&mut registry);
    registry
}

} // verus!
