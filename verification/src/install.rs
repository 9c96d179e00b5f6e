//! Putting a decoded volume on the timeline, with everything that moves with it.

use crate::app::{PulseSession, WorkstationApp};
use crate::clock::Generation;
use crate::frame::{same_signature, FrameStage, VolumeFrame};
use crate::history::{Disposition, InstallReport};
use crate::panes::MAX_PANES;
use crate::sites::{time_series_site, LocatedSite};
use crate::text::append_decimal;
use crate::vrot::StaleReason;
use crate::workspace::{PaneProduct, REFLECTIVITY, RELATIVE_POWER};
use vstd::prelude::*;

verus! {

use crate::app::{app_wf, pulses_view, AppView, PulsesView};
use crate::clock::next_generation;
use crate::display::DisplayView;
use crate::frame::FrameView;
use crate::history::{
    current_extent, current_signature, install_report, installed, HistoryView,
};
use crate::panes::{
    board_wf, frame_changed, lemma_with_panes, panes_wf, stamp_of, view_invalidated,
    views_invalidated, BoardView, PaneView,
};
use crate::sites::{directory, published_site, pulse_site, site_view, SiteView};
use crate::text::decimal;
use crate::vrot::{made_stale, VrotTool};
use crate::workspace::{IntentView, ProductView, WorkspaceView};

/// A volume as the loader hands it over.
pub struct LoadedVolume {
    /// The session it was asked for in.
    pub generation: Generation,
    pub frame: VolumeFrame,
    /// The pulses it was computed from, where it was.
    pub pulses: Option<PulseSession>,
    /// How long the decode took, written in milliseconds.
    pub elapsed_ms: String,
}

/// A loaded volume as contracts see it.
pub ghost struct LoadedView {
    pub generation: Generation,
    pub frame: FrameView,
    pub pulses: Option<PulsesView>,
    pub elapsed_ms: Seq<char>,
}

impl View for LoadedVolume {
    type V = LoadedView;

    open spec fn view(&self) -> LoadedView {
        LoadedView {
            generation: self.generation,
            frame: self.frame@,
            pulses: pulses_view(self.pulses),
            elapsed_ms: self.elapsed_ms@,
        }
    }
}

/// A frame once its radar was found.
pub open spec fn located_frame(frame: FrameView) -> FrameView {
    FrameView { located: true, ..frame }
}

/// Where the radar of a loaded volume's pulses stood, where it has pulses and
/// their radar is known.
pub open spec fn loaded_site(
    loaded: LoadedView,
    sites: Seq<SiteView>,
    research: Option<SiteView>,
) -> Option<SiteView> {
    match loaded.pulses {
        Some(session) => pulse_site(sites, session.site_id, research),
        None => None,
    }
}

/// A loaded volume once its radar was looked for.
pub open spec fn volume_located(
    loaded: LoadedView,
    sites: Seq<SiteView>,
    research: Option<SiteView>,
) -> LoadedView {
    if loaded_site(loaded, sites, research) is Some {
        LoadedView { frame: located_frame(loaded.frame), ..loaded }
    } else {
        loaded
    }
}

/// A record of pulses from a radar that neither catalog knows keeps no place
/// rather than borrow one, and a volume that a radar delivered is left as it is.
pub proof fn law_an_unknown_radar_gets_no_place(loaded: LoadedView, sites: Seq<SiteView>)
    ensures
        loaded.pulses is None ==> forall|research: Option<SiteView>|
            volume_located(loaded, sites, research) == loaded,
        loaded.pulses matches Some(session) && published_site(sites, session.site_id) is None
            ==> volume_located(loaded, sites, None) == loaded,
{
}

impl LoadedVolume {
    /// Gives a volume that was computed from pulses the place its record does
    /// not state, and says which. `research` is what the table of research
    /// radars has for it.
    pub fn locate_loaded_time_series(
        &mut self,
        sites: &Vec<LocatedSite>,
        research: Option<LocatedSite>,
    ) -> (found: Option<LocatedSite>)
        ensures
            site_view(found) == loaded_site(old(self)@, directory(sites@), site_view(research)),
            final(self)@ == volume_located(old(self)@, directory(sites@), site_view(research)),
    {
        let found = match &self.pulses {
            Some(session) => time_series_site(sites, session.site_id.as_str(), research),
            None => None,
        };
        if found.is_some() {
            self.frame.located = true;
        }
        found
    }
}

/// What a volume does to the ground under the cameras.
#[derive(Clone, Copy, Debug, PartialEq, Eq, Structural)]
pub enum GroundMove {
    Kept,
    /// The cameras leave the overview the window opened on; their kilometres
    /// stay what they were.
    LeaveOverview,
    /// The kilometres name another place: every camera is derived anew, and a
    /// section line is gone.
    SiteChange,
}

/// What a volume does to the ground. `opening` says whether the map still stands
/// on the anchor it opened on, `anchored` whether the volume moved it.
pub open spec fn ground_of(opening: bool, anchored: bool, has_pulses: bool) -> GroundMove {
    if anchored {
        if opening {
            GroundMove::LeaveOverview
        } else {
            GroundMove::SiteChange
        }
    } else if opening && has_pulses {
        GroundMove::LeaveOverview
    } else {
        GroundMove::Kept
    }
}

/// What a volume does to the ground.
pub fn ground_move(opening: bool, anchored: bool, has_pulses: bool) -> (ground: GroundMove)
    ensures
        ground == ground_of(opening, anchored, has_pulses),
{
    if anchored {
        if opening {
            GroundMove::LeaveOverview
        } else {
            GroundMove::SiteChange
        }
    } else if opening && has_pulses {
        GroundMove::LeaveOverview
    } else {
        GroundMove::Kept
    }
}

// ---------------------------------------------------------------------------
// Reflectivity where there is none
// ---------------------------------------------------------------------------

/// Whether a volume comes from a receiver whose calibration is unknown, so that
/// it has relative power and no reflectivity.
pub open spec fn is_relative(pulses: Option<PulsesView>) -> bool {
    pulses matches Some(session) && !session.snr_available
}

/// What a pane draws after an install: reflectivity that cannot be had gives way
/// to relative power, and comes back with the next volume that has it.
pub open spec fn fallback_product(relative: bool, marked: bool, product: ProductView) -> ProductView {
    if relative && product == ProductView::Modeled(REFLECTIVITY) {
        ProductView::Modeled(RELATIVE_POWER)
    } else if !relative && marked && product == ProductView::Modeled(RELATIVE_POWER) {
        ProductView::Modeled(REFLECTIVITY)
    } else {
        product
    }
}

/// Whether relative power on a pane stands in for reflectivity after an install.
pub open spec fn fallback_mark(relative: bool, marked: bool, product: ProductView) -> bool {
    relative && (marked || product == ProductView::Modeled(REFLECTIVITY))
}

/// The workstation after every pane took what it can have.
pub open spec fn fallback_applied(app: AppView, relative: bool) -> AppView {
    AppView {
        workspace: WorkspaceView {
            panes: Seq::new(
                app.workspace.panes.len(),
                |i: int|
                    IntentView {
                        product: fallback_product(
                            relative,
                            app.fallback[i],
                            app.workspace.panes[i].product,
                        ),
                        ..app.workspace.panes[i]
                    },
            ),
            ..app.workspace
        },
        fallback: Seq::new(
            app.fallback.len(),
            |i: int|
                fallback_mark(relative, app.fallback[i], app.workspace.panes[i].product),
        ),
        display: DisplayView {
            board: BoardView {
                panes: Seq::new(
                    app.display.board.panes.len(),
                    |i: int|
                        if fallback_product(
                            relative,
                            app.fallback[i],
                            app.workspace.panes[i].product,
                        ) != app.workspace.panes[i].product {
                            PaneView {
                                pane_clock: next_generation(
                                    app.display.board.panes[i].pane_clock,
                                ),
                                ..app.display.board.panes[i]
                            }
                        } else {
                            app.display.board.panes[i]
                        },
                ),
                ..app.display.board
            },
            ..app.display
        },
        ..app
    }
}

/// A pane on reflectivity that meets an uncalibrated volume shows relative
/// power, however many such volumes follow, and shows reflectivity again with
/// the first calibrated one.
pub proof fn law_relative_power_gives_reflectivity_back(marked: bool)
    ensures
        ({
            let asked = ProductView::Modeled(REFLECTIVITY);
            let shown = fallback_product(true, marked, asked);
            let mark = fallback_mark(true, marked, asked);
            &&& shown == ProductView::Modeled(RELATIVE_POWER)
            &&& fallback_product(true, mark, shown) == shown
            &&& fallback_mark(true, mark, shown) == mark
            &&& fallback_product(false, mark, shown) == asked
            &&& !fallback_mark(false, mark, shown)
        }),
{
}

/// Relative power that the analyst chose, and every other product but
/// reflectivity, stays what it is whatever arrives.
pub proof fn law_a_choice_is_never_replaced(relative: bool, marked: bool, product: ProductView)
    requires
        product != ProductView::Modeled(REFLECTIVITY),
        product == ProductView::Modeled(RELATIVE_POWER) ==> !marked,
    ensures
        fallback_product(relative, marked, product) == product,
        fallback_product(
            !relative,
            fallback_mark(relative, marked, product),
            product,
        ) == product,
{
}

// ---------------------------------------------------------------------------
// The install
// ---------------------------------------------------------------------------

/// What an install says of frames that went.
pub open spec fn eviction_text(evicted: nat) -> Seq<char> {
    if evicted == 0 {
        Seq::empty()
    } else {
        " \u{b7} "@ + decimal(evicted) + " frame(s) evicted by configured history limit"@
    }
}

/// The name of what became of a frame.
pub open spec fn disposition_name(disposition: Disposition) -> Seq<char> {
    match disposition {
        Disposition::Inserted => "Inserted"@,
        Disposition::Replaced => "Replaced"@,
    }
}

/// What an install says.
pub open spec fn install_text(
    stage: FrameStage,
    elapsed_ms: Seq<char>,
    frames: nat,
    report: InstallReport,
) -> Seq<char> {
    (match stage {
        FrameStage::Preview => "Preview ready in "@,
        FrameStage::Partial => "Partial volume ready in "@,
        FrameStage::Complete => "Complete volume ready in "@,
    }) + elapsed_ms + " ms \u{b7} "@ + decimal(frames) + " frame(s)"@ + (match stage {
        FrameStage::Complete => " \u{b7} "@ + disposition_name(report.disposition),
        _ => Seq::empty(),
    }) + eviction_text(report.evicted as nat)
}

/// The display after a timeline took a frame. Another frame on screen makes
/// every picture stale and retires a measurement; the same frame grown makes
/// every picture stale and leaves the panes at what they are waiting for.
pub open spec fn arrived(display: DisplayView, history: HistoryView) -> DisplayView {
    if current_signature(history) != current_signature(display.history) {
        DisplayView {
            history,
            board: frame_changed(display.board),
            vrot: VrotTool {
                state: made_stale(display.vrot.state, StaleReason::NewVolume),
                ..display.vrot
            },
        }
    } else if current_extent(history) != current_extent(display.history) {
        DisplayView {
            history,
            board: BoardView {
                frame: next_generation(display.board.frame),
                ..display.board
            },
            ..display
        }
    } else {
        DisplayView { history, ..display }
    }
}

/// The workstation after a volume arrived. One of another session changes
/// nothing. `moved` lists the panes whose cameras the ground moved under.
pub open spec fn volume_arrived(
    app: AppView,
    loaded: LoadedView,
    moved: Seq<usize>,
    by_source: bool,
) -> AppView {
    if loaded.generation != app.display.board.session {
        app
    } else {
        let fitted = fallback_applied(app, is_relative(loaded.pulses));
        let history = installed(fitted.display.history, loaded.frame, by_source);
        AppView {
            display: arrived(
                DisplayView {
                    board: views_invalidated(fitted.display.board, moved),
                    ..fitted.display
                },
                history,
            ),
            pulses: loaded.pulses,
            load_ms: Some(loaded.elapsed_ms),
            status: install_text(
                loaded.frame.stage,
                loaded.elapsed_ms,
                history.frames.len(),
                install_report(fitted.display.history, loaded.frame, by_source),
            ),
            ..fitted
        }
    }
}

/// A volume that was asked for in another session changes nothing.
pub proof fn law_a_stale_volume_changes_nothing(
    app: AppView,
    loaded: LoadedView,
    moved: Seq<usize>,
    by_source: bool,
)
    requires
        loaded.generation != app.display.board.session,
    ensures
        volume_arrived(app, loaded, moved, by_source) == app,
{
}

/// Asking panes for another view keeps every picture.
pub proof fn lemma_views_keep_textures(board: BoardView, listed: Seq<usize>, pane: int)
    requires
        board_wf(board),
        panes_wf(listed),
        0 <= pane < MAX_PANES,
    ensures
        board_wf(views_invalidated(board, listed)),
        views_invalidated(board, listed).panes[pane].texture == board.panes[pane].texture,
        views_invalidated(board, listed).frame == board.frame,
    decreases listed.len(),
{
    let change = |p: PaneView| view_invalidated(p);
    lemma_with_panes(board, listed, change);
    if listed.len() > 0 {
        let rest = listed.drop_last();
        assert forall|i: int| 0 <= i < rest.len() implies (#[trigger] rest[i]) < MAX_PANES by {
            assert(rest[i] == listed[i]);
        }
        lemma_views_keep_textures(board, rest, pane);
        lemma_with_panes(board, rest, change);
        assert(listed.last() == listed[listed.len() - 1]);
    }
}

/// No volume that arrives blanks a pane: whatever is on screen stays there until
/// its replacement is drawn.
pub proof fn law_an_arrival_blanks_nothing(
    app: AppView,
    loaded: LoadedView,
    moved: Seq<usize>,
    by_source: bool,
    pane: int,
)
    requires
        app_wf(app),
        panes_wf(moved),
        0 <= pane < MAX_PANES,
    ensures
        volume_arrived(app, loaded, moved, by_source).display.board.panes[pane].texture
            == app.display.board.panes[pane].texture,
{
    let fitted = fallback_applied(app, is_relative(loaded.pulses));
    lemma_views_keep_textures(fitted.display.board, moved, pane);
}

/// A frame that grew on screen is drawn again: no pane's picture is current any
/// more, and none is blank for it.
pub proof fn law_growth_reaches_the_screen(
    display: DisplayView,
    history: HistoryView,
    pane: int,
)
    requires
        board_wf(display.board),
        0 <= pane < MAX_PANES,
        current_signature(history) == current_signature(display.history),
        current_extent(history) != current_extent(display.history),
    ensures
        stamp_of(arrived(display, history).board, pane) != stamp_of(display.board, pane),
        arrived(display, history).board.panes == display.board.panes,
        arrived(display, history).vrot == display.vrot,
{
    crate::clock::law_a_bump_changes_the_reading(display.board.frame);
}

/// What a volume of this session changes and what it leaves: the frame goes on
/// the timeline, its pulses and its time are those it came with, and the line
/// says so. Nothing of the session itself, of the tools, or of where each pane
/// looks is touched.
pub proof fn law_what_an_arrival_changes(
    app: AppView,
    loaded: LoadedView,
    moved: Seq<usize>,
    by_source: bool,
    pane: int,
)
    requires
        app_wf(app),
        panes_wf(moved),
        0 <= pane < MAX_PANES,
        loaded.generation == app.display.board.session,
    ensures
        ({
            let after = volume_arrived(app, loaded, moved, by_source);
            let before = app.workspace.panes[pane];
            let now = after.workspace.panes[pane];
            let uncalibrated = loaded.pulses matches Some(session) && !session.snr_available;
            &&& after.display.history == installed(app.display.history, loaded.frame, by_source)
            &&& after.pulses == loaded.pulses
            &&& after.load_ms == Some(loaded.elapsed_ms)
            &&& after.display.board.session == app.display.board.session
            &&& after.display.board.palette == app.display.board.palette
            &&& after.display.vrot.active == app.display.vrot.active
            &&& after.follow == app.follow
            &&& after.exporter == app.exporter
            &&& after.planner == app.planner
            &&& after.playlist == app.playlist
            &&& after.live == app.live
            &&& after.source_path == app.source_path
            &&& after.tools == app.tools
            &&& after.settings_cache == app.settings_cache
            &&& after.workspace.layout == app.workspace.layout
            &&& after.workspace.active_pane == app.workspace.active_pane
            &&& after.workspace.panes.len() == app.workspace.panes.len()
            &&& now.tilt == before.tilt
            &&& now.camera_link == before.camera_link
            &&& now.product_link == before.product_link
            &&& now.tilt_link == before.tilt_link
            &&& now.product != before.product ==> (uncalibrated && before.product
                == ProductView::Modeled(REFLECTIVITY) && now.product == ProductView::Modeled(
                RELATIVE_POWER,
            )) || (!uncalibrated && app.fallback[pane] && before.product == ProductView::Modeled(
                RELATIVE_POWER,
            ) && now.product == ProductView::Modeled(REFLECTIVITY))
            &&& uncalibrated ==> now.product != ProductView::Modeled(REFLECTIVITY)
            &&& !uncalibrated ==> !after.fallback[pane]
            &&& uncalibrated ==> after.fallback[pane] == (app.fallback[pane] || before.product
                == ProductView::Modeled(REFLECTIVITY))
            &&& after.fallback.len() == app.fallback.len()
        }),
{
    let fitted = fallback_applied(app, is_relative(loaded.pulses));
    lemma_with_panes(fitted.display.board, moved, |one: PaneView| view_invalidated(one));
}

/// What a frame on the timeline does to the screen. Another frame, or another
/// stage of it, starts every pane over and retires a measurement; the same one
/// with more cuts or radials moves the frame's clock and nothing else; the same
/// one as it was moves nothing.
pub proof fn law_how_a_frame_reaches_the_screen(display: DisplayView, history: HistoryView)
    requires
        display.history.frames.len() > 0,
        history.frames.len() > 0,
    ensures
        ({
            let after = arrived(display, history);
            let before = display.history.frames[display.history.selected];
            let now = history.frames[history.selected];
            let same = before.identity == now.identity && before.source_label == now.source_label
                && before.stage == now.stage;
            let grown = before.cuts != now.cuts || before.radials != now.radials;
            &&& after.history == history
            &&& !same ==> after.board == frame_changed(display.board)
            &&& !same ==> after.vrot.state == (match display.vrot.state {
                crate::vrot::VrotState::Complete => crate::vrot::VrotState::Stale(
                    StaleReason::NewVolume,
                ),
                crate::vrot::VrotState::Stale(earlier) => crate::vrot::VrotState::Stale(earlier),
                _ => crate::vrot::VrotState::Idle,
            })
            &&& same ==> after.vrot == display.vrot && after.board.panes == display.board.panes
            &&& same && !grown ==> after.board == display.board
            &&& same && grown && display.board.frame.value < u64::MAX ==> after.board.frame.value
                == display.board.frame.value + 1
            &&& after.board.session == display.board.session
            &&& after.board.palette == display.board.palette
        }),
{
}

/// What a volume does to the ground: it names another place exactly where it
/// moved an anchor that the map no longer opened on; it leaves the opening
/// overview where it moved that anchor or has pulses; else the ground stays.
pub proof fn law_what_moves_the_ground(opening: bool, anchored: bool, has_pulses: bool)
    ensures
        ground_of(opening, anchored, has_pulses) is SiteChange <==> anchored && !opening,
        ground_of(opening, anchored, has_pulses) is LeaveOverview <==> opening && (anchored
            || has_pulses),
        ground_of(opening, anchored, has_pulses) is Kept <==> !anchored && !(opening
            && has_pulses),
{
}

/// A volume is given a place exactly where it has pulses whose radar is known,
/// and nothing else of it changes.
pub proof fn law_what_locating_changes(
    loaded: LoadedView,
    sites: Seq<SiteView>,
    research: Option<SiteView>,
)
    ensures
        ({
            let after = volume_located(loaded, sites, research);
            let found = loaded_site(loaded, sites, research);
            &&& found is Some ==> loaded.pulses is Some
            &&& after.frame == (FrameView {
                located: loaded.frame.located || found is Some,
                ..loaded.frame
            })
            &&& after.generation == loaded.generation
            &&& after.pulses == loaded.pulses
            &&& after.elapsed_ms == loaded.elapsed_ms
        }),
{
}

/// What an install says.
fn install_line(stage: FrameStage, elapsed_ms: &str, frames: usize, report: InstallReport) -> (text:
    String)
    ensures
        text@ == install_text(stage, elapsed_ms@, frames as nat, report),
{
    let mut text = match stage {
        FrameStage::Preview => "Preview ready in ".to_owned(),
        FrameStage::Partial => "Partial volume ready in ".to_owned(),
        FrameStage::Complete => "Complete volume ready in ".to_owned(),
    };
    text.append(elapsed_ms);
    text.append(" ms \u{b7} ");
    append_decimal(&mut text, frames as u64);
    text.append(" frame(s)");
    let ghost head = text@;
    let ghost middle = match stage {
        FrameStage::Complete => " \u{b7} "@ + disposition_name(report.disposition),
        _ => Seq::empty(),
    };
    if let FrameStage::Complete = stage {
        text.append(" \u{b7} ");
        text.append(
            match report.disposition {
                Disposition::Inserted => "Inserted",
                Disposition::Replaced => "Replaced",
            },
        );
    }
    assert(text@ =~= head + middle);
    let ghost body = text@;
    if report.evicted > 0 {
        text.append(" \u{b7} ");
        append_decimal(&mut text, report.evicted as u64);
        text.append(" frame(s) evicted by configured history limit");
    }
    assert(text@ =~= body + eviction_text(report.evicted as nat));
    text
}

impl WorkstationApp {
    /// Gives every pane what it can have of a volume.
    fn fit_products(&mut self, relative: bool)
        requires
            app_wf(old(self)@),
        ensures
            final(self)@ == fallback_applied(old(self)@, relative),
            app_wf(final(self)@),
    {
        let ghost before = self@;
        let ghost goal = fallback_applied(before, relative);
        let mut at: usize = 0;
        while at < MAX_PANES
            invariant
                at <= MAX_PANES,
                before == old(self)@,
                app_wf(before),
                goal == fallback_applied(before, relative),
                self@ == (AppView {
                    workspace: self@.workspace,
                    fallback: self@.fallback,
                    display: self@.display,
                    ..before
                }),
                self@.workspace == (WorkspaceView {
                    panes: self@.workspace.panes,
                    ..before.workspace
                }),
                self@.display == (DisplayView {
                    board: BoardView {
                        panes: self@.display.board.panes,
                        ..before.display.board
                    },
                    ..before.display
                }),
                self@.workspace.panes.len() == MAX_PANES,
                self@.fallback.len() == MAX_PANES,
                self@.display.board.panes.len() == MAX_PANES,
                forall|i: int|
                    0 <= i < at ==> #[trigger] self@.workspace.panes[i]
                        == goal.workspace.panes[i],
                forall|i: int| 0 <= i < at ==> #[trigger] self@.fallback[i] == goal.fallback[i],
                forall|i: int|
                    0 <= i < at ==> #[trigger] self@.display.board.panes[i]
                        == goal.display.board.panes[i],
                forall|i: int|
                    at <= i < MAX_PANES ==> #[trigger] self@.workspace.panes[i]
                        == before.workspace.panes[i],
                forall|i: int|
                    at <= i < MAX_PANES ==> #[trigger] self@.fallback[i] == before.fallback[i],
                forall|i: int|
                    at <= i < MAX_PANES ==> #[trigger] self@.display.board.panes[i]
                        == before.display.board.panes[i],
            decreases MAX_PANES - at,
        {
            let ghost here = self@;
            let marked = self.fallback_from_ref[at];
            let mut intent = self.workspace.panes.remove(at);
            assert(intent@ == here.workspace.panes[at as int]);
            let code: Option<u16> = match &intent.product {
                PaneProduct::Modeled(code) => Some(*code),
                PaneProduct::Source(_) => None,
            };
            let is_ref = match code {
                Some(c) => c == REFLECTIVITY,
                None => false,
            };
            let is_power = match code {
                Some(c) => c == RELATIVE_POWER,
                None => false,
            };
            self.fallback_from_ref.set(at, relative && (marked || is_ref));
            let mut runtime = self.display.board.panes.remove(at);
            assert(runtime@ == here.display.board.panes[at as int]);
            if relative && is_ref {
                intent.product = PaneProduct::Modeled(RELATIVE_POWER);
                let _ = runtime.pane_clock.bump();
            } else if !relative && marked && is_power {
                intent.product = PaneProduct::Modeled(REFLECTIVITY);
                let _ = runtime.pane_clock.bump();
            }
            self.workspace.panes.insert(at, intent);
            self.display.board.panes.insert(at, runtime);
            assert(self@.workspace.panes =~= here.workspace.panes.update(at as int, intent@));
            assert(self@.display.board.panes =~= here.display.board.panes.update(
                at as int,
                runtime@,
            ));
            at = at + 1;
        }
        assert(self@.workspace.panes =~= goal.workspace.panes);
        assert(self@.fallback =~= goal.fallback);
        assert(self@.display.board.panes =~= goal.display.board.panes);
    }

    /// Installs a volume: in the place of the same scan, or beside other sources
    /// of it where `by_source` says so. `moved` lists the panes whose cameras
    /// the ground moved under.
    #[verifier::rlimit(40)]
    pub fn install_loaded_volume_with_mode(
        &mut self,
        loaded: LoadedVolume,
        moved: &Vec<usize>,
        by_source: bool,
    ) -> (report: Option<InstallReport>)
        requires
            app_wf(old(self)@),
            panes_wf(moved@),
        ensures
            final(self)@ == volume_arrived(old(self)@, loaded@, moved@, by_source),
            app_wf(final(self)@),
            report == (if loaded.generation == old(self)@.display.board.session {
                Some(install_report(old(self)@.display.history, loaded@.frame, by_source))
            } else {
                None
            }),
    {
        if loaded.generation != self.display.board.session_clock.current() {
            return None;
        }
        let relative = match &loaded.pulses {
            Some(session) => !session.snr_available,
            None => false,
        };
        self.pulses = loaded.pulses;
        self.fit_products(relative);
        self.display.board.invalidate_view_panes(moved);
        let before = self.display.history.current_frame_signature();
        let before_extent = self.display.history.current_frame_extent();
        let stage = loaded.frame.stage;
        let report = self.display.history.install_by(loaded.frame, by_source);
        let after = self.display.history.current_frame_signature();
        let after_extent = self.display.history.current_frame_extent();
        if !same_signature(&before, &after) {
            self.display.board.note_frame_change();
            self.display.vrot.mark_stale(StaleReason::NewVolume);
        } else {
            let grown = match (before_extent, after_extent) {
                (Some(left), Some(right)) => left.0 != right.0 || left.1 != right.1,
                (None, None) => false,
                _ => true,
            };
            if grown {
                let _ = self.display.board.frame_clock.bump();
            }
        }
        self.status =
        install_line(stage, loaded.elapsed_ms.as_str(), self.display.history.len(), report);
        self.load_ms = Some(loaded.elapsed_ms);
        Some(report)
    }

    /// Installs a volume in the place of the same scan.
    pub fn install_loaded_volume(&mut self, loaded: LoadedVolume, moved: &Vec<usize>) -> (report:
        Option<InstallReport>)
        requires
            app_wf(old(self)@),
            panes_wf(moved@),
        ensures
            final(self)@ == volume_arrived(old(self)@, loaded@, moved@, false),
            app_wf(final(self)@),
            report == (if loaded.generation == old(self)@.display.board.session {
                Some(install_report(old(self)@.display.history, loaded@.frame, false))
            } else {
                None
            }),
    {
        self.install_loaded_volume_with_mode(loaded, moved, false)
    }

    /// Installs a volume beside other sources of the same scan.
    pub fn install_distinct_loaded_volume(
        &mut self,
        loaded: LoadedVolume,
        moved: &Vec<usize>,
    ) -> (report: Option<InstallReport>)
        requires
            app_wf(old(self)@),
            panes_wf(moved@),
        ensures
            final(self)@ == volume_arrived(old(self)@, loaded@, moved@, true),
            app_wf(final(self)@),
            report == (if loaded.generation == old(self)@.display.board.session {
                Some(install_report(old(self)@.display.history, loaded@.frame, true))
            } else {
                None
            }),
    {
        self.install_loaded_volume_with_mode(loaded, moved, true)
    }
}

/// What an install says begins with how far the volume is and how long it took;
/// what became of a frame is said of a complete one alone, and that frames went
/// only where some did.
pub proof fn law_what_an_install_says(
    stage: FrameStage,
    elapsed_ms: Seq<char>,
    frames: nat,
    report: InstallReport,
)
    ensures
        ({
            let text = install_text(stage, elapsed_ms, frames, report);
            let ready = if stage is Preview {
                "Preview ready in "@
            } else if stage is Partial {
                "Partial volume ready in "@
            } else {
                "Complete volume ready in "@
            };
            let head = ready + elapsed_ms + " ms \u{b7} "@ + decimal(frames) + " frame(s)"@;
            &&& head.is_prefix_of(text)
            &&& stage !is Complete && report.evicted == 0 ==> text == head
            &&& stage is Complete && report.evicted == 0 ==> text == head + (" \u{b7} "@ + (
            if report.disposition is Replaced {
                "Replaced"@
            } else {
                "Inserted"@
            }))
            &&& report.evicted > 0 ==> (" \u{b7} "@ + decimal(report.evicted as nat)
                + " frame(s) evicted by configured history limit"@).is_suffix_of(text)
        }),
{
    let text = install_text(stage, elapsed_ms, frames, report);
    let ready = if stage is Preview {
        "Preview ready in "@
    } else if stage is Partial {
        "Partial volume ready in "@
    } else {
        "Complete volume ready in "@
    };
    let head = ready + elapsed_ms + " ms \u{b7} "@ + decimal(frames) + " frame(s)"@;
    assert(head =~= text.subrange(0, head.len() as int));
    if report.evicted > 0 {
        let tail = " \u{b7} "@ + decimal(report.evicted as nat)
            + " frame(s) evicted by configured history limit"@;
        assert(tail =~= text.subrange(text.len() - tail.len(), text.len() as int));
    } else if stage !is Complete {
        assert(text =~= head);
    } else {
        assert(text =~= head + (" \u{b7} "@ + disposition_name(report.disposition)));
    }
}

} // verus!
