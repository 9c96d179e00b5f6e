//! The bar, the layer menu and the timeline's controls: what a click comes to,
//! and in which order several of one frame are carried out.

use crate::app::WorkstationApp;
use crate::history::PlaybackState;
use crate::text::{append_decimal, same_text, trim};
use crate::workspace::PaneLayout;
use vstd::prelude::*;

verus! {

use crate::app::{app_wf, AppView};
use crate::display::{frame_chosen, playback_toggled, taken_live, DisplayView};
use crate::text::{decimal, trimmed};
use crate::tilt::str_view;

/// One step, where it is to be taken.
pub open spec fn when<A>(wanted: bool, step: A) -> Seq<A> {
    if wanted {
        seq![step]
    } else {
        Seq::empty()
    }
}

/// Whether a text holds anything but white space.
fn says_something(text: &str) -> (yes: bool)
    ensures
        yes == (trimmed(text@).len() > 0),
{
    let short = trim(text);
    proof {
        reveal_strlit("");
        if short@.len() == 0 {
            assert(short@ =~= ""@);
        }
    }
    !same_text(short.as_str(), "")
}

// ---------------------------------------------------------------------------
// The bar
// ---------------------------------------------------------------------------

/// What was clicked on the bar in one frame, on the row or in a menu.
pub struct ToolbarClicks {
    /// Whether a colour table was installed or taken back.
    pub palette_changed: bool,
    pub filter_changed: bool,
    pub quality_changed: bool,
    pub open_browser: bool,
    pub export_view: bool,
    pub export_loop: bool,
    pub open_online: bool,
    pub load: bool,
    /// The button that starts a live session, or stops the one that runs.
    pub live: bool,
    pub layout: PaneLayout,
    pub product: Option<u16>,
    pub source_field: Option<String>,
    pub tilt_down: bool,
    pub tilt_up: bool,
    pub toggle_follow: bool,
    pub open_follow_settings: bool,
    pub toggle_warnings: bool,
    pub toggle_camera_links: bool,
}

/// What the bar shows.
pub struct ToolbarState<'a> {
    pub source_path: &'a str,
    pub site_text: &'a str,
    pub live: bool,
    pub layout: PaneLayout,
    /// The pane that is active as the bar is drawn.
    pub active_pane: usize,
    /// The modeled product the active pane stands for.
    pub product: u16,
    pub frames: usize,
    pub loop_exporting: bool,
    pub view_exporting: bool,
    pub follow_enabled: bool,
    /// Whether the cameras on screen are linked as the bar is drawn.
    pub cameras_linked: bool,
}

/// One thing to do about a click on the bar. A choice is for the pane that was
/// active, and a switch away from what was so, as the bar was drawn.
pub enum ToolbarStep {
    /// Read the filter anew, and say so where it is off.
    ReadFilter,
    /// Ask every pane on screen for another view.
    Redraw,
    OpenBrowser,
    ExportView,
    ExportLoop,
    OpenOnline,
    Load(String),
    StartLive(String),
    StopLive,
    SetLayout(PaneLayout),
    ChooseSource { pane: usize, name: String },
    ChooseProduct { pane: usize, code: u16 },
    TiltUp,
    TiltDown,
    SetFollow(bool),
    OpenDataSettings,
    ToggleWarnings,
    SetCameraLinks(bool),
}

/// A step as contracts see it.
pub ghost enum StepView {
    ReadFilter,
    Redraw,
    OpenBrowser,
    ExportView,
    ExportLoop,
    OpenOnline,
    Load(Seq<char>),
    StartLive(Seq<char>),
    StopLive,
    SetLayout(PaneLayout),
    ChooseSource { pane: usize, name: Seq<char> },
    ChooseProduct { pane: usize, code: u16 },
    TiltUp,
    TiltDown,
    SetFollow(bool),
    OpenDataSettings,
    ToggleWarnings,
    SetCameraLinks(bool),
}

impl View for ToolbarStep {
    type V = StepView;

    open spec fn view(&self) -> StepView {
        match self {
            ToolbarStep::ReadFilter => StepView::ReadFilter,
            ToolbarStep::Redraw => StepView::Redraw,
            ToolbarStep::OpenBrowser => StepView::OpenBrowser,
            ToolbarStep::ExportView => StepView::ExportView,
            ToolbarStep::ExportLoop => StepView::ExportLoop,
            ToolbarStep::OpenOnline => StepView::OpenOnline,
            ToolbarStep::Load(path) => StepView::Load(path@),
            ToolbarStep::StartLive(site) => StepView::StartLive(site@),
            ToolbarStep::StopLive => StepView::StopLive,
            ToolbarStep::SetLayout(layout) => StepView::SetLayout(*layout),
            ToolbarStep::ChooseSource { pane, name } => StepView::ChooseSource {
                pane: *pane,
                name: name@,
            },
            ToolbarStep::ChooseProduct { pane, code } => StepView::ChooseProduct {
                pane: *pane,
                code: *code,
            },
            ToolbarStep::TiltUp => StepView::TiltUp,
            ToolbarStep::TiltDown => StepView::TiltDown,
            ToolbarStep::SetFollow(on) => StepView::SetFollow(*on),
            ToolbarStep::OpenDataSettings => StepView::OpenDataSettings,
            ToolbarStep::ToggleWarnings => StepView::ToggleWarnings,
            ToolbarStep::SetCameraLinks(linked) => StepView::SetCameraLinks(*linked),
        }
    }
}

/// Steps as contracts see them.
pub open spec fn steps_view(steps: Seq<ToolbarStep>) -> Seq<StepView> {
    steps.map_values(|step: ToolbarStep| step@)
}

/// Whether the window may be exported as a picture.
pub open spec fn may_export_view(state: ToolbarState) -> bool {
    !state.view_exporting && !state.loop_exporting
}

/// Whether the timeline may be exported as a loop.
pub open spec fn may_export_loop(state: ToolbarState) -> bool {
    state.frames > 0 && may_export_view(state)
}

/// What the live button does.
pub open spec fn live_steps(clicks: ToolbarClicks, state: ToolbarState) -> Seq<StepView> {
    if !clicks.live {
        Seq::empty()
    } else if state.live {
        seq![StepView::StopLive]
    } else {
        when(
            trimmed(state.site_text@).len() > 0,
            StepView::StartLive(trimmed(state.site_text@)),
        )
    }
}

/// What a choice in the product picker does: a field under its producer's own
/// name comes before a product.
pub open spec fn product_steps(clicks: ToolbarClicks, state: ToolbarState) -> Seq<StepView> {
    match (clicks.source_field, clicks.product) {
        (Some(name), _) => seq![
            StepView::ChooseSource { pane: state.active_pane, name: name@ },
        ],
        (None, Some(code)) => when(
            code != state.product,
            StepView::ChooseProduct { pane: state.active_pane, code },
        ),
        (None, None) => Seq::empty(),
    }
}

/// What the tilt buttons do.
pub open spec fn tilt_steps(clicks: ToolbarClicks) -> Seq<StepView> {
    if clicks.tilt_up {
        seq![StepView::TiltUp]
    } else {
        when(clicks.tilt_down, StepView::TiltDown)
    }
}

/// The steps about pictures, files and windows, behind those so far.
pub open spec fn with_window_steps(
    steps: Seq<StepView>,
    clicks: ToolbarClicks,
    state: ToolbarState,
) -> Seq<StepView> {
    steps + when(clicks.filter_changed, StepView::ReadFilter) + when(
        clicks.quality_changed || clicks.palette_changed || clicks.filter_changed,
        StepView::Redraw,
    ) + when(clicks.open_browser, StepView::OpenBrowser) + when(
        clicks.export_view && may_export_view(state),
        StepView::ExportView,
    ) + when(clicks.export_loop && may_export_loop(state), StepView::ExportLoop) + when(
        clicks.open_online,
        StepView::OpenOnline,
    ) + when(
        clicks.load && trimmed(state.source_path@).len() > 0,
        StepView::Load(trimmed(state.source_path@)),
    )
}

/// The steps about the session and the panes, behind those so far.
pub open spec fn with_pane_steps(
    steps: Seq<StepView>,
    clicks: ToolbarClicks,
    state: ToolbarState,
) -> Seq<StepView> {
    steps + live_steps(clicks, state) + when(
        clicks.layout != state.layout,
        StepView::SetLayout(clicks.layout),
    ) + product_steps(clicks, state) + tilt_steps(clicks)
}

/// The steps about what is switched, behind those so far.
pub open spec fn with_switch_steps(
    steps: Seq<StepView>,
    clicks: ToolbarClicks,
    state: ToolbarState,
) -> Seq<StepView> {
    steps + when(clicks.toggle_follow, StepView::SetFollow(!state.follow_enabled)) + when(
        clicks.open_follow_settings,
        StepView::OpenDataSettings,
    ) + when(clicks.toggle_warnings, StepView::ToggleWarnings) + when(
        clicks.toggle_camera_links,
        StepView::SetCameraLinks(!state.cameras_linked),
    )
}

/// What the clicks of one frame come to, in the order it is done.
pub open spec fn steps_of(clicks: ToolbarClicks, state: ToolbarState) -> Seq<StepView> {
    with_switch_steps(
        with_pane_steps(with_window_steps(Seq::empty(), clicks, state), clicks, state),
        clicks,
        state,
    )
}

/// A frame without a click does nothing.
pub proof fn law_no_click_no_step(clicks: ToolbarClicks, state: ToolbarState)
    requires
        !clicks.palette_changed && !clicks.filter_changed && !clicks.quality_changed,
        !clicks.open_browser && !clicks.export_view && !clicks.export_loop && !clicks.open_online,
        !clicks.load && !clicks.live,
        clicks.layout == state.layout,
        clicks.product is None && clicks.source_field is None,
        !clicks.tilt_down && !clicks.tilt_up,
        !clicks.toggle_follow && !clicks.open_follow_settings,
        !clicks.toggle_warnings && !clicks.toggle_camera_links,
    ensures
        steps_of(clicks, state) =~= Seq::<StepView>::empty(),
{
}

/// Adds a step.
fn take_step(steps: &mut Vec<ToolbarStep>, wanted: bool, step: ToolbarStep)
    ensures
        steps_view(final(steps)@) == steps_view(old(steps)@) + when(wanted, step@),
{
    let ghost before = steps_view(steps@);
    if wanted {
        steps.push(step);
        assert(steps_view(steps@) =~= before.push(step@));
    }
    assert(steps_view(steps@) =~= before + when(wanted, step@));
}

/// Adds the steps about pictures, files and windows.
fn take_window_steps(steps: &mut Vec<ToolbarStep>, clicks: &ToolbarClicks, state: &ToolbarState)
    ensures
        steps_view(final(steps)@) == with_window_steps(steps_view(old(steps)@), *clicks, *state),
{
    let may_view = !state.view_exporting && !state.loop_exporting;
    let path = trim(state.source_path);
    take_step(steps, clicks.filter_changed, ToolbarStep::ReadFilter);
    take_step(
        steps,
        clicks.quality_changed || clicks.palette_changed || clicks.filter_changed,
        ToolbarStep::Redraw,
    );
    take_step(steps, clicks.open_browser, ToolbarStep::OpenBrowser);
    take_step(steps, clicks.export_view && may_view, ToolbarStep::ExportView);
    take_step(
        steps,
        clicks.export_loop && state.frames > 0 && may_view,
        ToolbarStep::ExportLoop,
    );
    take_step(steps, clicks.open_online, ToolbarStep::OpenOnline);
    take_step(
        steps,
        clicks.load && says_something(state.source_path),
        ToolbarStep::Load(path),
    );
}

/// Adds what the live button does.
fn take_live_steps(steps: &mut Vec<ToolbarStep>, clicks: &ToolbarClicks, state: &ToolbarState)
    ensures
        steps_view(final(steps)@) == steps_view(old(steps)@) + live_steps(*clicks, *state),
{
    let ghost before = steps_view(steps@);
    if clicks.live {
        if state.live {
            take_step(steps, true, ToolbarStep::StopLive);
        } else {
            let site = trim(state.site_text);
            take_step(steps, says_something(state.site_text), ToolbarStep::StartLive(site));
        }
    }
    assert(steps_view(steps@) =~= before + live_steps(*clicks, *state));
}

/// Adds what a choice in the product picker does.
fn take_product_steps(steps: &mut Vec<ToolbarStep>, clicks: &ToolbarClicks, state: &ToolbarState)
    ensures
        steps_view(final(steps)@) == steps_view(old(steps)@) + product_steps(*clicks, *state),
{
    let ghost before = steps_view(steps@);
    match &clicks.source_field {
        Some(name) => take_step(
            steps,
            true,
            ToolbarStep::ChooseSource { pane: state.active_pane, name: name.clone() },
        ),
        None => match clicks.product {
            Some(code) => take_step(
                steps,
                code != state.product,
                ToolbarStep::ChooseProduct { pane: state.active_pane, code },
            ),
            None => {},
        },
    }
    assert(steps_view(steps@) =~= before + product_steps(*clicks, *state));
}

/// Adds what the tilt buttons do.
fn take_tilt_steps(steps: &mut Vec<ToolbarStep>, clicks: &ToolbarClicks)
    ensures
        steps_view(final(steps)@) == steps_view(old(steps)@) + tilt_steps(*clicks),
{
    let ghost before = steps_view(steps@);
    if clicks.tilt_up {
        take_step(steps, true, ToolbarStep::TiltUp);
    } else {
        take_step(steps, clicks.tilt_down, ToolbarStep::TiltDown);
    }
    assert(steps_view(steps@) =~= before + tilt_steps(*clicks));
}

/// What the clicks of one frame come to, in the order it is done.
pub fn toolbar_steps(clicks: &ToolbarClicks, state: &ToolbarState) -> (steps: Vec<ToolbarStep>)
    ensures
        steps_view(steps@) == steps_of(*clicks, *state),
{
    let mut steps: Vec<ToolbarStep> = Vec::new();
    assert(steps_view(steps@) =~= Seq::empty());
    take_window_steps(&mut steps, clicks, state);
    take_live_steps(&mut steps, clicks, state);
    take_step(
        &mut steps,
        clicks.layout != state.layout,
        ToolbarStep::SetLayout(clicks.layout),
    );
    take_product_steps(&mut steps, clicks, state);
    take_tilt_steps(&mut steps, clicks);
    take_step(
        &mut steps,
        clicks.toggle_follow,
        ToolbarStep::SetFollow(!state.follow_enabled),
    );
    take_step(&mut steps, clicks.open_follow_settings, ToolbarStep::OpenDataSettings);
    take_step(&mut steps, clicks.toggle_warnings, ToolbarStep::ToggleWarnings);
    take_step(
        &mut steps,
        clicks.toggle_camera_links,
        ToolbarStep::SetCameraLinks(!state.cameras_linked),
    );
    steps
}

/// How the follower's button reads. `elevation` is its ceiling, written to a
/// tenth of a degree.
pub fn follow_label(enabled: bool, elevation: &str) -> (label: String)
    ensures
        label@ == (if enabled {
            "Auto \u{2264}"@ + elevation@ + "\u{b0}"@
        } else {
            "Auto tilt"@
        }),
{
    if enabled {
        let mut label = "Auto \u{2264}".to_owned();
        label.append(elevation);
        label.append("\u{b0}");
        label
    } else {
        "Auto tilt".to_owned()
    }
}

/// What the follower's button does.
pub fn follow_hover(elevation: &str, interval_seconds: u64) -> (text: String)
    ensures
        text@ == "Follow arriving live sweeps at or below "@ + elevation@
            + "\u{b0} with the real radial sweep animation; minimum scan-time gap "@ + decimal(
            interval_seconds as nat,
        )
            + " s. Click to toggle; right-click to adjust the elevation, update interval, or feed polling."@,
{
    let mut text = "Follow arriving live sweeps at or below ".to_owned();
    text.append(elevation);
    text.append("\u{b0} with the real radial sweep animation; minimum scan-time gap ");
    append_decimal(&mut text, interval_seconds);
    text.append(
        " s. Click to toggle; right-click to adjust the elevation, update interval, or feed polling.",
    );
    text
}

/// How the warnings' button reads: the feed's state, and how many are in force
/// where that is known.
pub fn warnings_chip(label: &str, active: Option<usize>) -> (text: String)
    ensures
        text@ == (match active {
            Some(count) => label@ + " \u{b7} "@ + decimal(count as nat),
            None => label@,
        }),
{
    let mut text = label.to_owned();
    if let Some(count) = active {
        text.append(" \u{b7} ");
        append_decimal(&mut text, count as u64);
    }
    text
}

/// How a measurement reads on the bar: one that is retired says why on the
/// label itself.
pub fn vrot_bar_text(readout: &str, stale: Option<&str>) -> (text: String)
    ensures
        text@ == (match str_view(stale) {
            Some(reason) => readout@ + " \u{b7} STALE: "@ + reason,
            None => readout@,
        }),
{
    let mut text = readout.to_owned();
    if let Some(reason) = stale {
        text.append(" \u{b7} STALE: ");
        text.append(reason);
    }
    text
}

/// The workstation with its product picker open or closed.
pub open spec fn with_picker(app: AppView, open: bool) -> AppView {
    AppView {
        tools: crate::app::ToolState { product_picker_open: open, ..app.tools },
        ..app
    }
}

/// The workstation after a frame's look at the picker's button.
pub open spec fn picker_clicked(app: AppView, clicked: bool) -> AppView {
    with_picker(app, app.tools.product_picker_open != clicked)
}

/// The workstation after what happened in the picker while it was drawn: a
/// product, a field or a palette to edit was chosen, or it was dismissed.
pub open spec fn picker_used(app: AppView, chosen: bool, dismissed: bool) -> AppView {
    with_picker(app, app.tools.product_picker_open && !chosen && !dismissed)
}

/// The button opens a picker that is closed and closes one that is open, and a
/// picker stays as it is without a click, a choice or a dismissal. What happens
/// in it leaves a picker that is not drawn closed.
pub proof fn law_the_opening_click_opens(app: AppView, chosen: bool, dismissed: bool)
    ensures
        picker_used(picker_clicked(app, true), false, false).tools.product_picker_open
            == !app.tools.product_picker_open,
        picker_used(picker_clicked(app, false), false, false) == app,
        app.tools.product_picker_open ==> picker_used(
            picker_clicked(app, true),
            chosen,
            dismissed,
        ) == with_picker(app, false),
        chosen || dismissed ==> picker_used(picker_clicked(app, true), chosen, dismissed)
            == with_picker(app, false),
{
}

impl WorkstationApp {
    /// Takes a click on the picker's button, and says whether the picker is
    /// drawn this frame and whether it was opened by this click.
    pub fn click_picker(&mut self, clicked: bool) -> (drawn: (bool, bool))
        requires
            app_wf(old(self)@),
        ensures
            app_wf(final(self)@),
            final(self)@ == picker_clicked(old(self)@, clicked),
            drawn.0 == final(self)@.tools.product_picker_open,
            drawn.1 == (clicked && drawn.0),
    {
        if clicked {
            self.tools.product_picker_open = !self.tools.product_picker_open;
        }
        (self.tools.product_picker_open, clicked && self.tools.product_picker_open)
    }

    /// Takes what happened in the picker while it was drawn.
    pub fn close_picker(&mut self, chosen: bool, dismissed: bool)
        requires
            app_wf(old(self)@),
        ensures
            app_wf(final(self)@),
            final(self)@ == picker_used(old(self)@, chosen, dismissed),
    {
        if chosen || dismissed {
            self.tools.product_picker_open = false;
        }
    }
}

// ---------------------------------------------------------------------------
// The layer menu
// ---------------------------------------------------------------------------

/// What was clicked in the layer menu in one frame.
#[derive(Clone, Copy, Debug, PartialEq, Eq, Structural)]
pub struct LayerClicks {
    pub observations: bool,
    pub mesonet: bool,
    pub refresh_observations: bool,
    pub open_history: bool,
    pub open_settings: bool,
    pub placefiles: bool,
    pub manage_placefiles: bool,
    pub refresh_placefiles: bool,
}

/// What the layer menu shows.
#[derive(Clone, Copy, Debug, PartialEq, Eq, Structural)]
pub struct LayerState {
    pub observations: bool,
    pub mesonet: bool,
    /// Whether a station is selected.
    pub station: bool,
    pub placefiles: bool,
    /// Whether there is a placefile.
    pub any_placefile: bool,
}

/// One thing to do about a click in the layer menu.
#[derive(Clone, Copy, Debug, PartialEq, Eq, Structural)]
pub enum LayerStep {
    SetObservations(bool),
    SetMesonet(bool),
    RefreshObservations,
    OpenHistory,
    OpenObservationSettings,
    SetPlacefiles(bool),
    OpenPlacefiles,
    RefreshPlacefiles,
}

/// What the clicks of one frame come to. What belongs to the observations acts
/// only while they are shown as the click leaves them.
pub open spec fn layer_steps_of(clicks: LayerClicks, state: LayerState) -> Seq<LayerStep> {
    let shown = state.observations != clicks.observations;
    when(clicks.observations, LayerStep::SetObservations(!state.observations)) + when(
        clicks.mesonet && shown,
        LayerStep::SetMesonet(!state.mesonet),
    ) + when(clicks.refresh_observations && shown, LayerStep::RefreshObservations) + when(
        clicks.open_history && state.station,
        LayerStep::OpenHistory,
    ) + when(clicks.open_settings, LayerStep::OpenObservationSettings) + when(
        clicks.placefiles,
        LayerStep::SetPlacefiles(!state.placefiles),
    ) + when(clicks.manage_placefiles, LayerStep::OpenPlacefiles) + when(
        clicks.refresh_placefiles && state.any_placefile,
        LayerStep::RefreshPlacefiles,
    )
}

/// Adds a step.
fn take_layer_step(steps: &mut Vec<LayerStep>, wanted: bool, step: LayerStep)
    ensures
        final(steps)@ == old(steps)@ + when(wanted, step),
{
    let ghost before = steps@;
    if wanted {
        steps.push(step);
    }
    assert(steps@ =~= before + when(wanted, step));
}

/// What the clicks of one frame come to.
pub fn layers_menu_steps(clicks: LayerClicks, state: LayerState) -> (steps: Vec<LayerStep>)
    ensures
        steps@ == layer_steps_of(clicks, state),
{
    let shown = state.observations != clicks.observations;
    let mut steps: Vec<LayerStep> = Vec::new();
    take_layer_step(
        &mut steps,
        clicks.observations,
        LayerStep::SetObservations(!state.observations),
    );
    assert(steps@ =~= when(clicks.observations, LayerStep::SetObservations(!state.observations)));
    take_layer_step(&mut steps, clicks.mesonet && shown, LayerStep::SetMesonet(!state.mesonet));
    take_layer_step(
        &mut steps,
        clicks.refresh_observations && shown,
        LayerStep::RefreshObservations,
    );
    take_layer_step(&mut steps, clicks.open_history && state.station, LayerStep::OpenHistory);
    take_layer_step(&mut steps, clicks.open_settings, LayerStep::OpenObservationSettings);
    take_layer_step(
        &mut steps,
        clicks.placefiles,
        LayerStep::SetPlacefiles(!state.placefiles),
    );
    take_layer_step(&mut steps, clicks.manage_placefiles, LayerStep::OpenPlacefiles);
    take_layer_step(
        &mut steps,
        clicks.refresh_placefiles && state.any_placefile,
        LayerStep::RefreshPlacefiles,
    );
    steps
}

/// What the layer menu says of the observations.
pub fn observations_line(stations: usize, status: &str) -> (text: String)
    ensures
        text@ == decimal(stations as nat) + " reporting stations \u{b7} "@ + status@,
{
    let mut text = String::new();
    append_decimal(&mut text, stations as u64);
    text.append(" reporting stations \u{b7} ");
    text.append(status);
    assert(text@ =~= decimal(stations as nat) + " reporting stations \u{b7} "@ + status@);
    text
}

/// How the button to a station's history reads.
pub fn history_button(station: &str) -> (text: String)
    ensures
        text@ == "Open "@ + station@ + " observation history\u{2026}"@,
{
    let mut text = "Open ".to_owned();
    text.append(station);
    text.append(" observation history\u{2026}");
    text
}

/// What asking for a station's history says.
pub fn history_line(station: &str) -> (text: String)
    ensures
        text@ == "Loading observation history for "@ + station@,
{
    let mut text = "Loading observation history for ".to_owned();
    text.append(station);
    text
}

// ---------------------------------------------------------------------------
// The palette of a field under its producer's own name
// ---------------------------------------------------------------------------

/// Where such a palette comes from.
#[derive(Clone, Copy, Debug, PartialEq, Eq, Structural)]
pub enum PaletteOrigin {
    /// Stretched over the values that are there.
    Automatic,
    /// The analyst's, saved.
    Saved,
    /// The analyst's, for this session.
    Session,
}

/// How a palette's origin reads.
pub open spec fn origin_text(origin: PaletteOrigin) -> Seq<char> {
    match origin {
        PaletteOrigin::Automatic => "AUTO"@,
        PaletteOrigin::Saved => "CUSTOM \u{b7} SAVED"@,
        PaletteOrigin::Session => "CUSTOM \u{b7} SESSION"@,
    }
}

/// How the palette control reads. The range comes written to a thousandth.
pub fn source_palette_label(origin: PaletteOrigin, minimum: &str, maximum: &str) -> (text: String)
    ensures
        text@ == origin_text(origin) + " "@ + minimum@ + "\u{2026}"@ + maximum@,
{
    let mut text = match origin {
        PaletteOrigin::Automatic => "AUTO".to_owned(),
        PaletteOrigin::Saved => "CUSTOM \u{b7} SAVED".to_owned(),
        PaletteOrigin::Session => "CUSTOM \u{b7} SESSION".to_owned(),
    };
    text.append(" ");
    text.append(minimum);
    text.append("\u{2026}");
    text.append(maximum);
    text
}

/// What the palette control says of how long the palette stays; nothing of an
/// automatic one.
pub fn source_palette_binding(origin: PaletteOrigin) -> (text: Option<&'static str>)
    ensures
        match origin {
            PaletteOrigin::Automatic => text is None,
            PaletteOrigin::Saved => text matches Some(line) && line@
                == "Saved binding \u{b7} returns after restart"@,
            PaletteOrigin::Session => text matches Some(line) && line@
                == "Session-only preview \u{b7} Save in the editor to keep it"@,
        },
{
    match origin {
        PaletteOrigin::Automatic => None,
        PaletteOrigin::Saved => Some("Saved binding \u{b7} returns after restart"),
        PaletteOrigin::Session => Some(
            "Session-only preview \u{b7} Save in the editor to keep it",
        ),
    }
}

/// What the palette control explains.
pub fn source_palette_hover(origin: PaletteOrigin) -> (text: &'static str)
    ensures
        text@ == (match origin {
            PaletteOrigin::Automatic => "Automatic visibility: this exact source field is stretched across its observed finite values. Edit to set reproducible fixed stops and colours."@,
            PaletteOrigin::Saved => "Saved field-specific palette and fixed raw-value range. It does not affect any other source field; Reset returns this exact id to automatic observed-range display."@,
            PaletteOrigin::Session => "Session-only field-specific preview; it will not return after restart. Save the matching edit to keep it, or choose CUSTOM \u{2192} Reset to observed range to undo it."@,
        }),
{
    match origin {
        PaletteOrigin::Automatic => "Automatic visibility: this exact source field is stretched across its observed finite values. Edit to set reproducible fixed stops and colours.",
        PaletteOrigin::Saved => "Saved field-specific palette and fixed raw-value range. It does not affect any other source field; Reset returns this exact id to automatic observed-range display.",
        PaletteOrigin::Session => "Session-only field-specific preview; it will not return after restart. Save the matching edit to keep it, or choose CUSTOM \u{2192} Reset to observed range to undo it.",
    }
}

/// What was done with such a palette.
#[derive(Clone, Copy, Debug, PartialEq, Eq, Structural)]
pub enum PaletteAction {
    Edit,
    Reset,
}

/// What a click in the palette control comes to: there is nothing to take back
/// of an automatic palette.
pub fn source_palette_action(origin: PaletteOrigin, edit: bool, reset: bool) -> (action: Option<
    PaletteAction,
>)
    ensures
        action == (if reset && origin != PaletteOrigin::Automatic {
            Some(PaletteAction::Reset)
        } else if edit {
            Some(PaletteAction::Edit)
        } else {
            None
        }),
{
    if reset && origin != PaletteOrigin::Automatic {
        Some(PaletteAction::Reset)
    } else if edit {
        Some(PaletteAction::Edit)
    } else {
        None
    }
}

/// What taking such a palette back says.
pub fn palette_reset_line(name: Option<&str>) -> (text: String)
    ensures
        text@ == (match str_view(name) {
            Some(producer) => producer,
            None => "source field"@,
        }) + " palette reset to automatic observed range"@,
{
    let mut text = match name {
        Some(producer) => producer.to_owned(),
        None => "source field".to_owned(),
    };
    text.append(" palette reset to automatic observed range");
    text
}

/// What installing such a palette says.
pub fn palette_installed_line(label: &str, durable: bool) -> (text: String)
    ensures
        text@ == (if durable {
            "Saved palette binding applied only to "@ + label@
                + "; it will return after restart"@
        } else {
            "Session-only preview applied to "@ + label@
                + " \u{b7} undo: CUSTOM \u{2192} Reset to observed range"@
        }),
{
    if durable {
        let mut text = "Saved palette binding applied only to ".to_owned();
        text.append(label);
        text.append("; it will return after restart");
        text
    } else {
        let mut text = "Session-only preview applied to ".to_owned();
        text.append(label);
        text.append(" \u{b7} undo: CUSTOM \u{2192} Reset to observed range");
        text
    }
}

/// What saving a colour table says; `bound` names the field it stays with.
pub fn palette_saved_line(path: &str, bound: Option<&str>) -> (text: String)
    ensures
        text@ == (match str_view(bound) {
            Some(label) => "Colour table saved to "@ + path@ + " \u{b7} "@ + label
                + " binding saved for restart"@,
            None => "Colour table saved to "@ + path@,
        }),
{
    let mut text = "Colour table saved to ".to_owned();
    text.append(path);
    if let Some(label) = bound {
        text.append(" \u{b7} ");
        text.append(label);
        text.append(" binding saved for restart");
    }
    text
}

// ---------------------------------------------------------------------------
// The timeline
// ---------------------------------------------------------------------------

/// What was clicked on the timeline in one frame.
#[derive(Clone, Copy, Debug, PartialEq, Eq, Structural)]
pub struct TimelineClicks {
    pub previous: bool,
    pub play: bool,
    pub next: bool,
    pub go_live: bool,
    pub export: bool,
    /// Where the slider was moved to.
    pub slide: Option<usize>,
}

/// Which of the timeline's controls act.
#[derive(Clone, Copy, Debug, PartialEq, Eq, Structural)]
pub struct TimelineControls {
    pub step: bool,
    pub next: bool,
    pub go_live: bool,
    pub export: bool,
}

/// Which of the timeline's controls act. None does while a loop is exported:
/// the export has the timeline.
pub open spec fn controls_of(
    frames: nat,
    selected: int,
    loop_exporting: bool,
    view_exporting: bool,
) -> TimelineControls {
    TimelineControls {
        step: frames > 1 && !loop_exporting,
        next: frames > 1 && selected + 1 < frames && !loop_exporting,
        go_live: frames > 0 && !loop_exporting,
        export: frames > 0 && !loop_exporting && !view_exporting,
    }
}

/// Which of the timeline's controls act.
pub fn timeline_controls(
    frames: usize,
    selected: usize,
    loop_exporting: bool,
    view_exporting: bool,
) -> (controls: TimelineControls)
    ensures
        controls == controls_of(
            frames as nat,
            selected as int,
            loop_exporting,
            view_exporting,
        ),
{
    TimelineControls {
        step: frames > 1 && !loop_exporting,
        next: frames > 1 && selected < frames - 1 && !loop_exporting,
        go_live: frames > 0 && !loop_exporting,
        export: frames > 0 && !loop_exporting && !view_exporting,
    }
}

/// Where the clicks of one frame take the timeline: the slider goes before the
/// buttons, the later button before the earlier.
pub open spec fn chosen_frame(
    clicks: TimelineClicks,
    controls: TimelineControls,
    selected: int,
) -> Option<int> {
    if controls.step && clicks.slide is Some {
        Some(clicks.slide->0 as int)
    } else if clicks.next && controls.next {
        Some(selected + 1)
    } else if clicks.previous && controls.step && selected > 0 {
        Some(selected - 1)
    } else {
        None
    }
}

/// The display after the clicks of one frame on the timeline.
pub open spec fn timeline_clicked(
    display: DisplayView,
    clicks: TimelineClicks,
    controls: TimelineControls,
) -> DisplayView {
    let looped = if clicks.play && controls.step {
        playback_toggled(display)
    } else {
        display
    };
    if clicks.go_live && controls.go_live {
        taken_live(looped)
    } else {
        match chosen_frame(clicks, controls, display.history.selected) {
            Some(index) => frame_chosen(looped, index),
            None => looped,
        }
    }
}

/// While a loop is exported no click moves the timeline.
pub proof fn law_an_export_has_the_timeline(
    display: DisplayView,
    clicks: TimelineClicks,
    view_exporting: bool,
)
    ensures
        timeline_clicked(
            display,
            clicks,
            controls_of(
                display.history.frames.len(),
                display.history.selected,
                true,
                view_exporting,
            ),
        ) == display,
{
}

impl WorkstationApp {
    /// Takes the clicks of one frame on the timeline, and says whether the loop
    /// was started and whether an export is asked for.
    #[verifier::rlimit(40)]
    pub fn timeline_actions(&mut self, clicks: TimelineClicks, view_exporting: bool) -> (told: (
        bool,
        bool,
    ))
        requires
            app_wf(old(self)@),
        ensures
            app_wf(final(self)@),
            ({
                let before = old(self)@.display;
                let controls = controls_of(
                    before.history.frames.len(),
                    before.history.selected,
                    old(self)@.exporter.state is Some,
                    view_exporting,
                );
                &&& final(self)@ == (AppView {
                    display: timeline_clicked(before, clicks, controls),
                    ..old(self)@
                })
                &&& told.0 == (clicks.play && controls.step && before.history.playback
                    != PlaybackState::Playing)
                &&& told.1 == (clicks.export && controls.export)
            }),
    {
        let frames: usize = self.display.history.len();
        let selected: usize = match self.display.history.selected_index() {
            Some(index) => index,
            None => 0,
        };
        let controls = timeline_controls(
            frames,
            selected,
            self.exporter.state.is_some(),
            view_exporting,
        );
        let mut started = false;
        if clicks.play && controls.step {
            started = self.display.toggle_playback();
        }
        if clicks.go_live && controls.go_live {
            self.display.go_live();
        } else {
            match clicks.slide {
                Some(index) => {
                    if controls.step {
                        self.display.choose_frame(index);
                        return (started, clicks.export && controls.export);
                    }
                },
                None => {},
            }
            if clicks.next && controls.next {
                self.display.choose_frame(selected + 1);
            } else if clicks.previous && controls.step && selected > 0 {
                self.display.choose_frame(selected - 1);
            }
        }
        (started, clicks.export && controls.export)
    }
}

/// What the timeline says of the last decode.
pub fn decode_line(load_ms: &str) -> (text: String)
    ensures
        text@ == "decode "@ + load_ms@ + " ms"@,
{
    let mut text = "decode ".to_owned();
    text.append(load_ms);
    text.append(" ms");
    text
}

// ---------------------------------------------------------------------------
// Clicks on a pane
// ---------------------------------------------------------------------------

/// What was clicked on a pane in one frame.
pub struct PaneClick {
    pub clicked: bool,
    /// Whether the velocity tool takes clicks.
    pub vrot_active: bool,
    /// Whether the pane shows a field under its producer's own name.
    pub source_field: bool,
    /// Whether the cross-section takes clicks, and there is ground under the
    /// cursor.
    pub section_wants: bool,
    /// Whether the cross-section took it.
    pub section_took: bool,
    pub observation: Option<String>,
    pub site: Option<String>,
    /// Whether the nearest radar is asked for.
    pub nearest: bool,
}

/// What a click on a pane is for.
#[derive(Clone, Copy, Debug, PartialEq, Eq, Structural)]
pub enum ClickRoute {
    Nothing,
    VrotGate,
    SectionEndpoint,
    Observation,
    Site,
    NearestSite,
    SelectPane,
}

/// Whether a click is an endpoint of a velocity couplet.
pub open spec fn is_vrot_gate(click: PaneClick) -> bool {
    click.vrot_active && click.clicked && !click.source_field
}

/// Whether a click is offered to the cross-section.
pub open spec fn section_offered(click: PaneClick) -> bool {
    !is_vrot_gate(click) && click.section_wants && click.clicked
}

/// What a click on a pane is for.
pub open spec fn click_route(click: PaneClick) -> ClickRoute {
    if is_vrot_gate(click) {
        ClickRoute::VrotGate
    } else if section_offered(click) && click.section_took {
        ClickRoute::SectionEndpoint
    } else if click.observation is Some {
        ClickRoute::Observation
    } else if click.site is Some {
        ClickRoute::Site
    } else if click.nearest {
        ClickRoute::NearestSite
    } else if click.clicked {
        ClickRoute::SelectPane
    } else {
        ClickRoute::Nothing
    }
}

/// Whether a click is offered to the cross-section.
pub fn offers_section(click: &PaneClick) -> (yes: bool)
    ensures
        yes == section_offered(*click),
{
    !(click.vrot_active && click.clicked && !click.source_field) && click.section_wants
        && click.clicked
}

/// What a click on a pane is for.
pub fn route_click(click: &PaneClick) -> (route: ClickRoute)
    ensures
        route == click_route(*click),
{
    if click.vrot_active && click.clicked && !click.source_field {
        ClickRoute::VrotGate
    } else if offers_section(click) && click.section_took {
        ClickRoute::SectionEndpoint
    } else if click.observation.is_some() {
        ClickRoute::Observation
    } else if click.site.is_some() {
        ClickRoute::Site
    } else if click.nearest {
        ClickRoute::NearestSite
    } else if click.clicked {
        ClickRoute::SelectPane
    } else {
        ClickRoute::Nothing
    }
}

/// A field that no product stands for is never measured as a velocity.
pub proof fn law_a_source_field_is_no_velocity(click: PaneClick)
    requires
        click.source_field,
    ensures
        click_route(click) !is VrotGate,
{
}

/// What of the map a pane may draw.
#[derive(Clone, Copy, Debug, PartialEq, Eq, Structural)]
pub struct PaneMap {
    pub geometry: bool,
    pub tiles: bool,
    pub projection: bool,
    pub sites: bool,
    pub hazards: bool,
}

/// What of the map a pane may draw: all of it, or, under a sweep nobody knows
/// the place of, nothing that names a place.
pub fn pane_map(located: bool) -> (map: PaneMap)
    ensures
        map == (PaneMap {
            geometry: located,
            tiles: located,
            projection: located,
            sites: located,
            hazards: located,
        }),
{
    PaneMap {
        geometry: located,
        tiles: located,
        projection: located,
        sites: located,
        hazards: located,
    }
}

/// When the screen is drawn again by itself.
#[derive(Clone, Copy, Debug, PartialEq, Eq, Structural)]
pub struct WakeUp {
    /// In how many milliseconds, where something moves.
    pub frame_ms: Option<u64>,
    /// In how many seconds, where an age is on screen.
    pub age_seconds: Option<i64>,
}

/// When the screen is drawn again by itself: soon while something moves, and
/// when the age on screen next reads otherwise. Where no frame is on screen the
/// feed's age is.
pub fn next_wake(moving: bool, frame_age: Option<i64>, feed_age: Option<i64>) -> (wake: WakeUp)
    ensures
        wake.frame_ms == (if moving {
            Some(crate::display::PANE_WAIT_MS)
        } else {
            None
        }),
        wake.age_seconds == (match (frame_age, feed_age) {
            (Some(age), _) => Some(crate::age::repaint_interval(age as int) as i64),
            (None, Some(age)) => Some(crate::age::repaint_interval(age as int) as i64),
            (None, None) => None,
        }),
{
    WakeUp {
        frame_ms: if moving {
            Some(crate::display::PANE_WAIT_MS)
        } else {
            None
        },
        age_seconds: match (frame_age, feed_age) {
            (Some(age), _) => Some(crate::age::age_repaint_interval(age) as i64),
            (None, Some(age)) => Some(crate::age::age_repaint_interval(age) as i64),
            (None, None) => None,
        },
    }
}

// ---------------------------------------------------------------------------
// Laws of clicks
// ---------------------------------------------------------------------------

/// What a click on a pane goes to, first come first served: a gate of the velocity
/// tool where it is up and the pane shows no source field; an end of a section that
/// wants one and took it; an observation; a radar; the nearest radar; and else the
/// pane itself is selected. Without a click none but the map's own marks answers.
pub proof fn law_what_a_click_goes_to(click: PaneClick)
    ensures
        ({
            let route = click_route(click);
            let gate = click.clicked && click.vrot_active && !click.source_field;
            let end = !gate && click.clicked && click.section_wants && click.section_took;
            &&& route is VrotGate <==> gate
            &&& route is SectionEndpoint <==> end
            &&& route is Observation <==> !gate && !end && click.observation is Some
            &&& route is Site <==> !gate && !end && click.observation is None && click.site is Some
            &&& route is NearestSite <==> !gate && !end && click.observation is None
                && click.site is None && click.nearest
            &&& route is SelectPane <==> !gate && !end && click.observation is None
                && click.site is None && !click.nearest && click.clicked
            &&& section_offered(click) <==> click.clicked && click.section_wants && !gate
        }),
{
}

/// Which of the timeline's controls answer: none while a loop is exported; moving
/// takes two frames, and moving on takes one behind the one on screen; going live
/// and exporting take one, and exporting waits for a picture that is being saved.
pub proof fn law_which_controls_answer(
    frames: nat,
    selected: int,
    loop_exporting: bool,
    view_exporting: bool,
)
    ensures
        ({
            let controls = controls_of(frames, selected, loop_exporting, view_exporting);
            &&& loop_exporting ==> !controls.step && !controls.next && !controls.go_live
                && !controls.export
            &&& !loop_exporting ==> {
                &&& controls.step <==> frames >= 2
                &&& controls.next <==> frames >= 2 && selected <= frames - 2
                &&& controls.go_live <==> frames >= 1
                &&& controls.export <==> frames >= 1 && !view_exporting
            }
        }),
{
}

/// Where the timeline stands after clicks on its controls: at the live edge where
/// that was clicked; else where the slider was put; else on the next frame; else on
/// the one before, unless the first is on screen. Each of them pauses the loop; the
/// loop's button alone turns it on and off. The frames stay as they are.
pub proof fn law_where_clicks_take_the_timeline(display: DisplayView, clicks: TimelineClicks)
    requires
        crate::history::history_wf(display.history),
        clicks.slide matches Some(place) ==> place < display.history.frames.len(),
    ensures
        ({
            let frames = display.history.frames.len();
            let at = display.history.selected;
            let after = timeline_clicked(
                display,
                clicks,
                controls_of(frames, at, false, false),
            ).history;
            let live = clicks.go_live && frames >= 1;
            let slid = !live && clicks.slide is Some && frames >= 2;
            let on = !live && !slid && clicks.next && at + 1 < frames;
            let back = !live && !slid && !on && clicks.previous && at > 0;
            &&& after.frames == display.history.frames
            &&& live ==> after.selected == frames - 1 && after.follows_live
            &&& slid ==> after.selected == clicks.slide->0 && !after.follows_live
            &&& on ==> after.selected == at + 1 && !after.follows_live
            &&& back ==> after.selected == at - 1 && !after.follows_live
            &&& live || slid || on || back ==> after.playback == PlaybackState::Paused
            &&& !live && !slid && !on && !back ==> {
                &&& after.selected == at
                &&& after.follows_live == display.history.follows_live
                &&& clicks.play && frames >= 2 <==> after.playback != display.history.playback
            }
        }),
{
}

/// The picker is open exactly where a click opened it, and a choice or a click
/// beside it closes it; nothing else of the workstation changes.
pub proof fn law_what_opens_and_closes_the_picker(
    app: AppView,
    clicked: bool,
    chosen: bool,
    dismissed: bool,
)
    ensures
        picker_clicked(app, clicked).tools.product_picker_open <==> (
        app.tools.product_picker_open != clicked),
        picker_used(app, chosen, dismissed).tools.product_picker_open
            <==> app.tools.product_picker_open && !chosen && !dismissed,
        picker_clicked(app, clicked) == (AppView {
            tools: picker_clicked(app, clicked).tools,
            ..app
        }),
        picker_clicked(app, clicked).tools == (crate::app::ToolState {
            product_picker_open: picker_clicked(app, clicked).tools.product_picker_open,
            ..app.tools
        }),
        picker_used(app, chosen, dismissed) == (AppView {
            tools: crate::app::ToolState {
                product_picker_open: picker_used(
                    app,
                    chosen,
                    dismissed,
                ).tools.product_picker_open,
                ..app.tools
            },
            ..app
        }),
{
}

/// The place of each step of the bar among those of one frame.
pub open spec fn bar_rank(step: StepView) -> int {
    match step {
        StepView::ReadFilter => 0,
        StepView::Redraw => 1,
        StepView::OpenBrowser => 2,
        StepView::ExportView => 3,
        StepView::ExportLoop => 4,
        StepView::OpenOnline => 5,
        StepView::Load(_) => 6,
        StepView::StopLive => 7,
        StepView::StartLive(_) => 8,
        StepView::SetLayout(_) => 9,
        StepView::ChooseSource { .. } => 10,
        StepView::ChooseProduct { .. } => 11,
        StepView::TiltUp => 12,
        StepView::TiltDown => 13,
        StepView::SetFollow(_) => 14,
        StepView::OpenDataSettings => 15,
        StepView::ToggleWarnings => 16,
        StepView::SetCameraLinks(_) => 17,
    }
}

/// Whether steps stand in order, each once, all of them before a place.
#[verifier::opaque]
pub open spec fn in_order<A>(steps: Seq<A>, rank: spec_fn(A) -> int, end: int) -> bool {
    &&& forall|i: int| 0 <= i < steps.len() ==> rank(#[trigger] steps[i]) < end
    &&& forall|i: int, j: int|
        0 <= i < j < steps.len() ==> rank(#[trigger] steps[i]) < rank(#[trigger] steps[j])
}

/// Whether a step is among some.
#[verifier::opaque]
pub open spec fn among<A>(step: A, steps: Seq<A>) -> bool {
    steps.contains(step)
}

/// What one step more, or none, adds to steps that stand in order.
proof fn lemma_next_step<A>(
    steps: Seq<A>,
    tail: Seq<A>,
    probe: A,
    rank: spec_fn(A) -> int,
    from: int,
    end: int,
)
    requires
        in_order(steps, rank, from),
        tail.len() <= 1,
        tail.len() == 1 ==> from <= rank(tail[0]) < end,
        from <= end,
    ensures
        among(probe, steps + tail) <==> among(probe, steps) || (tail.len() == 1 && tail[0]
            == probe),
        in_order(steps + tail, rank, end),
{
    reveal(in_order);
    reveal(among);
    let more = steps + tail;
    if steps.contains(probe) {
        let k = choose|k: int| 0 <= k < steps.len() && steps[k] == probe;
        assert(more[k] == probe);
    }
    if tail.len() == 1 && tail[0] == probe {
        assert(more[steps.len() as int] == probe);
    }
    if more.contains(probe) {
        let k = choose|k: int| 0 <= k < more.len() && more[k] == probe;
        if k < steps.len() {
            assert(steps[k] == probe);
        }
    }
    assert forall|i: int| 0 <= i < more.len() implies rank(#[trigger] more[i]) < end by {
        if i < steps.len() {
            assert(more[i] == steps[i]);
        }
    }
    assert forall|i: int, j: int| 0 <= i < j < more.len() implies rank(#[trigger] more[i]) < rank(
        #[trigger] more[j],
    ) by {
        assert(more[i] == steps[i]);
        if j < steps.len() {
            assert(more[j] == steps[j]);
        }
    }
}

proof fn lemma_steps_in_order<A>(steps: Seq<A>, probe: A, rank: spec_fn(A) -> int, end: int)
    requires
        in_order(steps, rank, end),
    ensures
        among(probe, steps) <==> steps.contains(probe),
        forall|i: int, j: int|
            0 <= i < j < steps.len() ==> rank(#[trigger] steps[i]) < rank(#[trigger] steps[j]),
{
    reveal(in_order);
    reveal(among);
}

proof fn lemma_window_steps(
    steps: Seq<StepView>,
    clicks: ToolbarClicks,
    state: ToolbarState,
    step: StepView,
    rank: spec_fn(StepView) -> int,
)
    requires
        rank == (|one: StepView| bar_rank(one)),
        in_order(steps, rank, 0),
    ensures
        in_order(with_window_steps(steps, clicks, state), rank, 7),
        among(step, with_window_steps(steps, clicks, state)) <==> among(step, steps) || (match step {
            StepView::ReadFilter => clicks.filter_changed,
            StepView::Redraw => clicks.filter_changed || clicks.quality_changed
                || clicks.palette_changed,
            StepView::OpenBrowser => clicks.open_browser,
            StepView::ExportView => clicks.export_view && !state.view_exporting
                && !state.loop_exporting,
            StepView::ExportLoop => clicks.export_loop && !state.view_exporting
                && !state.loop_exporting && state.frames >= 1,
            StepView::OpenOnline => clicks.open_online,
            StepView::Load(path) => clicks.load && path == trimmed(state.source_path@)
                && path.len() > 0,
            _ => false,
        }),
{
    let s0 = steps;
    lemma_next_step(s0, when(clicks.filter_changed, StepView::ReadFilter), step, rank, 0, 1);
    let s1 = s0 + when(clicks.filter_changed, StepView::ReadFilter);
    lemma_next_step(s1, when(
        clicks.quality_changed || clicks.palette_changed || clicks.filter_changed,
        StepView::Redraw,
    ), step, rank, 1, 2);
    let s2 = s1 + when(
        clicks.quality_changed || clicks.palette_changed || clicks.filter_changed,
        StepView::Redraw,
    );
    lemma_next_step(s2, when(clicks.open_browser, StepView::OpenBrowser), step, rank, 2, 3);
    let s3 = s2 + when(clicks.open_browser, StepView::OpenBrowser);
    lemma_next_step(s3, when(clicks.export_view && may_export_view(state), StepView::ExportView), step, rank, 3, 4);
    let s4 = s3 + when(clicks.export_view && may_export_view(state), StepView::ExportView);
    lemma_next_step(s4, when(clicks.export_loop && may_export_loop(state), StepView::ExportLoop), step, rank, 4, 5);
    let s5 = s4 + when(clicks.export_loop && may_export_loop(state), StepView::ExportLoop);
    lemma_next_step(s5, when(clicks.open_online, StepView::OpenOnline), step, rank, 5, 6);
    let s6 = s5 + when(clicks.open_online, StepView::OpenOnline);
    lemma_next_step(s6, when(
        clicks.load && trimmed(state.source_path@).len() > 0,
        StepView::Load(trimmed(state.source_path@)),
    ), step, rank, 6, 7);
    let s7 = s6 + when(
        clicks.load && trimmed(state.source_path@).len() > 0,
        StepView::Load(trimmed(state.source_path@)),
    );
}

proof fn lemma_pane_steps(
    steps: Seq<StepView>,
    clicks: ToolbarClicks,
    state: ToolbarState,
    step: StepView,
    rank: spec_fn(StepView) -> int,
)
    requires
        rank == (|one: StepView| bar_rank(one)),
        in_order(steps, rank, 7),
    ensures
        in_order(with_pane_steps(steps, clicks, state), rank, 14),
        among(step, with_pane_steps(steps, clicks, state)) <==> among(step, steps) || (match step {
            StepView::StopLive => clicks.live && state.live,
            StepView::StartLive(site) => clicks.live && !state.live && site == trimmed(
                state.site_text@,
            ) && site.len() > 0,
            StepView::SetLayout(layout) => layout == clicks.layout && layout != state.layout,
            StepView::ChooseSource { pane, name } => pane == state.active_pane && (
            clicks.source_field matches Some(field) && field@ == name),
            StepView::ChooseProduct { pane, code } => pane == state.active_pane
                && clicks.source_field is None && clicks.product == Some(code) && code
                != state.product,
            StepView::TiltUp => clicks.tilt_up,
            StepView::TiltDown => clicks.tilt_down && !clicks.tilt_up,
            _ => false,
        }),
{
    let s0 = steps;
    lemma_next_step(s0, live_steps(clicks, state), step, rank, 7, 9);
    let s1 = s0 + live_steps(clicks, state);
    lemma_next_step(s1, when(clicks.layout != state.layout, StepView::SetLayout(clicks.layout)), step, rank, 9, 10);
    let s2 = s1 + when(clicks.layout != state.layout, StepView::SetLayout(clicks.layout));
    lemma_next_step(s2, product_steps(clicks, state), step, rank, 10, 12);
    let s3 = s2 + product_steps(clicks, state);
    lemma_next_step(s3, tilt_steps(clicks), step, rank, 12, 14);
    let s4 = s3 + tilt_steps(clicks);
}

proof fn lemma_switch_steps(
    steps: Seq<StepView>,
    clicks: ToolbarClicks,
    state: ToolbarState,
    step: StepView,
    rank: spec_fn(StepView) -> int,
)
    requires
        rank == (|one: StepView| bar_rank(one)),
        in_order(steps, rank, 14),
    ensures
        in_order(with_switch_steps(steps, clicks, state), rank, 18),
        among(step, with_switch_steps(steps, clicks, state)) <==> among(step, steps) || (match step {
            StepView::SetFollow(on) => clicks.toggle_follow && on != state.follow_enabled,
            StepView::OpenDataSettings => clicks.open_follow_settings,
            StepView::ToggleWarnings => clicks.toggle_warnings,
            StepView::SetCameraLinks(on) => clicks.toggle_camera_links && on
                != state.cameras_linked,
            _ => false,
        }),
{
    let s0 = steps;
    lemma_next_step(s0, when(clicks.toggle_follow, StepView::SetFollow(!state.follow_enabled)), step, rank, 14, 15);
    let s1 = s0 + when(clicks.toggle_follow, StepView::SetFollow(!state.follow_enabled));
    lemma_next_step(s1, when(clicks.open_follow_settings, StepView::OpenDataSettings), step, rank, 15, 16);
    let s2 = s1 + when(clicks.open_follow_settings, StepView::OpenDataSettings);
    lemma_next_step(s2, when(clicks.toggle_warnings, StepView::ToggleWarnings), step, rank, 16, 17);
    let s3 = s2 + when(clicks.toggle_warnings, StepView::ToggleWarnings);
    lemma_next_step(s3, when(clicks.toggle_camera_links, StepView::SetCameraLinks(!state.cameras_linked)), step, rank, 17, 18);
    let s4 = s3 + when(clicks.toggle_camera_links, StepView::SetCameraLinks(!state.cameras_linked));
}

/// Each click on the bar comes to its own step and to no other, with what the bar
/// held at the click: a path or a radar without the space around it, the active
/// pane, and the other way of each switch. An export waits for the one that runs,
/// a loop for a frame, a product for another than is shown, and a source field
/// outranks a product. Whatever was clicked in one frame is carried out once each,
/// in one order.
pub proof fn law_each_click_comes_to_its_step(
    clicks: ToolbarClicks,
    state: ToolbarState,
    step: StepView,
)
    ensures
        ({
            let steps = steps_of(clicks, state);
            let exporting = state.view_exporting || state.loop_exporting;
            &&& steps.contains(step) <==> (match step {
                StepView::ReadFilter => clicks.filter_changed,
                StepView::Redraw => clicks.filter_changed || clicks.quality_changed
                    || clicks.palette_changed,
                StepView::OpenBrowser => clicks.open_browser,
                StepView::ExportView => clicks.export_view && !exporting,
                StepView::ExportLoop => clicks.export_loop && !exporting && state.frames >= 1,
                StepView::OpenOnline => clicks.open_online,
                StepView::Load(path) => clicks.load && path == trimmed(state.source_path@)
                    && path.len() > 0,
                StepView::StopLive => clicks.live && state.live,
                StepView::StartLive(site) => clicks.live && !state.live && site == trimmed(
                    state.site_text@,
                ) && site.len() > 0,
                StepView::SetLayout(layout) => layout == clicks.layout && layout != state.layout,
                StepView::ChooseSource { pane, name } => pane == state.active_pane && (
                clicks.source_field matches Some(field) && field@ == name),
                StepView::ChooseProduct { pane, code } => pane == state.active_pane
                    && clicks.source_field is None && clicks.product == Some(code) && code
                    != state.product,
                StepView::TiltUp => clicks.tilt_up,
                StepView::TiltDown => clicks.tilt_down && !clicks.tilt_up,
                StepView::SetFollow(on) => clicks.toggle_follow && on != state.follow_enabled,
                StepView::OpenDataSettings => clicks.open_follow_settings,
                StepView::ToggleWarnings => clicks.toggle_warnings,
                StepView::SetCameraLinks(on) => clicks.toggle_camera_links && on
                    != state.cameras_linked,
            })
            &&& forall|i: int, j: int|
                0 <= i < j < steps.len() ==> bar_rank(#[trigger] steps[i]) < bar_rank(
                    #[trigger] steps[j],
                )
        }),
{
    let rank = |one: StepView| bar_rank(one);
    let none = Seq::<StepView>::empty();
    assert(in_order(none, rank, 0) && !among(step, none)) by {
        reveal(in_order);
        reveal(among);
    }
    lemma_window_steps(none, clicks, state, step, rank);
    let windows = with_window_steps(none, clicks, state);
    lemma_pane_steps(windows, clicks, state, step, rank);
    lemma_switch_steps(
        with_pane_steps(windows, clicks, state),
        clicks,
        state,
        step,
        rank,
    );
    let steps = steps_of(clicks, state);
    lemma_steps_in_order(steps, step, rank, 18);
    assert forall|i: int, j: int| 0 <= i < j < steps.len() implies bar_rank(#[trigger] steps[i])
        < bar_rank(#[trigger] steps[j]) by {
        assert(rank(steps[i]) < rank(steps[j]));
    }
}

/// The place of each step of the layer menu among those of one frame.
pub open spec fn layer_rank(step: LayerStep) -> int {
    match step {
        LayerStep::SetObservations(_) => 0,
        LayerStep::SetMesonet(_) => 1,
        LayerStep::RefreshObservations => 2,
        LayerStep::OpenHistory => 3,
        LayerStep::OpenObservationSettings => 4,
        LayerStep::SetPlacefiles(_) => 5,
        LayerStep::OpenPlacefiles => 6,
        LayerStep::RefreshPlacefiles => 7,
    }
}

proof fn lemma_layer_steps(
    clicks: LayerClicks,
    state: LayerState,
    step: LayerStep,
    rank: spec_fn(LayerStep) -> int,
)
    requires
        rank == (|one: LayerStep| layer_rank(one)),
    ensures
        in_order(layer_steps_of(clicks, state), rank, 8),
        ({
            let shown = state.observations != clicks.observations;
            among(step, layer_steps_of(clicks, state)) <==> (match step {
                LayerStep::SetObservations(on) => clicks.observations && on != state.observations,
                LayerStep::SetMesonet(on) => clicks.mesonet && shown && on != state.mesonet,
                LayerStep::RefreshObservations => clicks.refresh_observations && shown,
                LayerStep::OpenHistory => clicks.open_history && state.station,
                LayerStep::OpenObservationSettings => clicks.open_settings,
                LayerStep::SetPlacefiles(on) => clicks.placefiles && on != state.placefiles,
                LayerStep::OpenPlacefiles => clicks.manage_placefiles,
                LayerStep::RefreshPlacefiles => clicks.refresh_placefiles && state.any_placefile,
            })
        }),
{
    let shown = state.observations != clicks.observations;
    let s0 = when(clicks.observations, LayerStep::SetObservations(!state.observations));
    assert(in_order(s0, rank, 1) && (among(step, s0) <==> s0.len() == 1 && s0[0] == step)) by {
        reveal(in_order);
        reveal(among);
    }
    lemma_next_step(s0, when(clicks.mesonet && shown, LayerStep::SetMesonet(!state.mesonet)), step, rank, 1, 2);
    let s1 = s0 + when(clicks.mesonet && shown, LayerStep::SetMesonet(!state.mesonet));
    lemma_next_step(s1, when(clicks.refresh_observations && shown, LayerStep::RefreshObservations), step, rank, 2, 3);
    let s2 = s1 + when(clicks.refresh_observations && shown, LayerStep::RefreshObservations);
    lemma_next_step(s2, when(clicks.open_history && state.station, LayerStep::OpenHistory), step, rank, 3, 4);
    let s3 = s2 + when(clicks.open_history && state.station, LayerStep::OpenHistory);
    lemma_next_step(s3, when(clicks.open_settings, LayerStep::OpenObservationSettings), step, rank, 4, 5);
    let s4 = s3 + when(clicks.open_settings, LayerStep::OpenObservationSettings);
    lemma_next_step(s4, when(clicks.placefiles, LayerStep::SetPlacefiles(!state.placefiles)), step, rank, 5, 6);
    let s5 = s4 + when(clicks.placefiles, LayerStep::SetPlacefiles(!state.placefiles));
    lemma_next_step(s5, when(clicks.manage_placefiles, LayerStep::OpenPlacefiles), step, rank, 6, 7);
    let s6 = s5 + when(clicks.manage_placefiles, LayerStep::OpenPlacefiles);
    lemma_next_step(s6, when(clicks.refresh_placefiles && state.any_placefile, LayerStep::RefreshPlacefiles), step, rank, 7, 8);
    let s7 = s6 + when(clicks.refresh_placefiles && state.any_placefile, LayerStep::RefreshPlacefiles);
}

/// Each click in the layer menu comes to its own step and to no other: a switch
/// turns what it stands for the other way; what belongs to observations answers
/// where they are shown once the click on them is done; a history takes a station,
/// and a refresh something to refresh. They are carried out once each, in order.
pub proof fn law_each_layer_click_comes_to_its_step(
    clicks: LayerClicks,
    state: LayerState,
    step: LayerStep,
)
    ensures
        ({
            let steps = layer_steps_of(clicks, state);
            let shown = if clicks.observations {
                !state.observations
            } else {
                state.observations
            };
            &&& steps.contains(step) <==> (match step {
                LayerStep::SetObservations(on) => clicks.observations && on != state.observations,
                LayerStep::SetMesonet(on) => clicks.mesonet && shown && on != state.mesonet,
                LayerStep::RefreshObservations => clicks.refresh_observations && shown,
                LayerStep::OpenHistory => clicks.open_history && state.station,
                LayerStep::OpenObservationSettings => clicks.open_settings,
                LayerStep::SetPlacefiles(on) => clicks.placefiles && on != state.placefiles,
                LayerStep::OpenPlacefiles => clicks.manage_placefiles,
                LayerStep::RefreshPlacefiles => clicks.refresh_placefiles && state.any_placefile,
            })
            &&& forall|i: int, j: int|
                0 <= i < j < steps.len() ==> layer_rank(#[trigger] steps[i]) < layer_rank(
                    #[trigger] steps[j],
                )
        }),
{
    let rank = |one: LayerStep| layer_rank(one);
    let steps = layer_steps_of(clicks, state);
    lemma_layer_steps(clicks, state, step, rank);
    lemma_steps_in_order(steps, step, rank, 8);
    assert forall|i: int, j: int| 0 <= i < j < steps.len() implies layer_rank(
        #[trigger] steps[i],
    ) < layer_rank(#[trigger] steps[j]) by {
        assert(rank(steps[i]) < rank(steps[j]));
    }
}

} // verus!
