//! Windows beside the canvas: starting up, the playlist's memory warning, files
//! that are dropped, and what a session leaves to be remembered.

use crate::app::{ToolState, WorkstationApp};
use crate::bytes::format_binary_bytes;
use crate::clock::Generation;
use crate::history::HistoryPolicy;
use crate::placefile::dropped_path_is_placefile;
use crate::session::{LoadRequest, NextFile};
use crate::source_field::source_field_2d_only_message;
use crate::text::{append_decimal, decimal_text, same_text, trim};
use crate::workspace::{modeled_product_or_source_field, PaneProduct};
use vstd::prelude::*;

verus! {

use crate::app::{app_wf, AppView};
use crate::bytes::binary_bytes_text;
use crate::panes::text_view;
use crate::placefile::{header_view, is_placefile};
use crate::planner::PlannerView;
use crate::session::{
    files_begun, file_asked, live_begun, live_label, local_request, next_view, NextView,
};
use crate::source_field::two_dimensional_only_sentence;
use crate::text::{decimal, texts, trimmed};
use crate::workspace::ProductView;

/// What a start leaves to do.
pub struct StartActions {
    /// Decode this file.
    pub load: Option<LoadRequest>,
    /// Start the live service under this generation, on this radar; its session
    /// goes by the name.
    pub live: Option<(Generation, String, String)>,
}

/// The workstation after its start: a file that was named is asked for, and then
/// a radar goes live. Where both were, the radar's session is what remains.
pub open spec fn started(
    app: AppView,
    path: Option<Seq<char>>,
    site: Option<Seq<char>>,
    policy: HistoryPolicy,
) -> AppView {
    let loaded = match path {
        Some(file) => file_asked(app, file, policy),
        None => app,
    };
    match site {
        Some(_) => live_begun(loaded, policy),
        None => loaded,
    }
}

impl WorkstationApp {
    /// Starts on a file, on a radar, on both or on neither.
    pub fn start(&mut self, path: Option<String>, site: Option<String>, policy: HistoryPolicy) -> (actions:
        StartActions)
        requires
            app_wf(old(self)@),
        ensures
            app_wf(final(self)@),
            final(self)@ == started(old(self)@, text_view(path), text_view(site), policy),
            match (actions.load, path) {
                (Some(request), Some(file)) => request@ == local_request(
                    file_asked(old(self)@, file@, policy),
                    file@,
                ),
                (None, None) => true,
                _ => false,
            },
            match (actions.live, site) {
                (Some((generation, radar, label)), Some(stated)) => generation
                    == final(self)@.display.board.session && radar == stated && label@
                    == live_label(stated@),
                (None, None) => true,
                _ => false,
            },
    {
        let load = match path {
            Some(file) => {
                let (request, _) = self.begin_load(file, policy);
                Some(request)
            },
            None => None,
        };
        let live = match site {
            Some(radar) => {
                let (generation, label) = self.start_live(radar.as_str(), policy);
                Some((generation, radar, label))
            },
            None => None,
        };
        StartActions { load, live }
    }

    /// Where the file browser starts, where a path was typed.
    pub fn browse_near(&self) -> (near: Option<String>)
        ensures
            text_view(near) == (if trimmed(self@.source_path).len() > 0 {
                Some(trimmed(self@.source_path))
            } else {
                None
            }),
    {
        let typed = trim(self.source_path_text.as_str());
        proof {
            reveal_strlit("");
            if typed@.len() == 0 {
                assert(typed@ =~= ""@);
            }
        }
        if same_text(typed.as_str(), "") {
            None
        } else {
            Some(typed)
        }
    }

    /// What is remembered of the session: the live radar, and whether warnings
    /// are shown.
    pub fn remembered(&self) -> (kept: (Option<String>, bool))
        ensures
            text_view(kept.0) == self@.live.site,
            kept.1 == self@.tools.show_warnings,
    {
        let site = match &self.live.site {
            Some(site) => Some(site.clone()),
            None => None,
        };
        (site, self.tools.show_warnings)
    }
}

// ---------------------------------------------------------------------------
// The playlist's memory warning
// ---------------------------------------------------------------------------

/// The window about a planned playlist.
pub enum PreflightWindow {
    Closed,
    /// The estimate is awaited; this is what is said.
    Estimating(String),
    /// A yes is awaited: how many files, how large they are, and what they may
    /// take.
    Confirm { selected: String, input: String, estimated: String },
}

/// The window about a planned playlist, as contracts see it.
pub ghost enum PreflightView {
    Closed,
    Estimating(Seq<char>),
    Confirm { selected: Seq<char>, input: Seq<char>, estimated: Seq<char> },
}

impl View for PreflightWindow {
    type V = PreflightView;

    open spec fn view(&self) -> PreflightView {
        match self {
            PreflightWindow::Closed => PreflightView::Closed,
            PreflightWindow::Estimating(text) => PreflightView::Estimating(text@),
            PreflightWindow::Confirm { selected, input, estimated } => PreflightView::Confirm {
                selected: selected@,
                input: input@,
                estimated: estimated@,
            },
        }
    }
}

/// The window about a planned playlist.
pub open spec fn preflight_window_of(planner: PlannerView) -> PreflightView {
    match (planner.pending, planner.confirmation) {
        (Some(pending), _) => PreflightView::Estimating(
            "Inspecting "@ + decimal(pending.selected as nat) + " selected files\u{2026}"@,
        ),
        (None, Some(waiting)) => PreflightView::Confirm {
            selected: decimal(waiting.paths.len()),
            input: waiting.estimate.input_size_text,
            estimated: binary_bytes_text(waiting.estimate.estimated_decoded_bytes as nat),
        },
        (None, None) => PreflightView::Closed,
    }
}

/// What was clicked in the window about a planned playlist.
#[derive(Clone, Copy, Debug, PartialEq, Eq, Structural)]
pub struct PreflightClicks {
    pub continue_loading: bool,
    pub cancel: bool,
    /// Whether the window was closed.
    pub closed: bool,
}

/// Whether a yes was given to a selection that waits for one.
pub open spec fn is_confirmed(planner: PlannerView, clicks: PreflightClicks) -> bool {
    planner.pending is None && planner.confirmation is Some && clicks.continue_loading
}

impl WorkstationApp {
    /// The window about a planned playlist.
    pub fn preflight_window(&self) -> (window: PreflightWindow)
        ensures
            window@ == preflight_window_of(self@.planner),
    {
        match (&self.planner.pending, &self.planner.confirmation) {
            (Some(pending), _) => {
                let mut text = "Inspecting ".to_owned();
                append_decimal(&mut text, pending.selected as u64);
                text.append(" selected files\u{2026}");
                PreflightWindow::Estimating(text)
            },
            (None, Some(waiting)) => PreflightWindow::Confirm {
                selected: decimal_text(waiting.paths.len() as u64),
                input: waiting.estimate.input_size_text.clone(),
                estimated: format_binary_bytes(waiting.estimate.estimated_decoded_bytes),
            },
            (None, None) => PreflightWindow::Closed,
        }
    }

    /// Takes what was clicked in the window about a planned playlist. A yes
    /// begins loading everything that was selected; a no leaves the session on
    /// screen as it is. Gives what to do next, and whether a live session has
    /// to be stopped.
    pub fn playlist_preflight_window(&mut self, clicks: PreflightClicks, policy: HistoryPolicy) -> (begun:
        Option<(NextFile, bool)>)
        requires
            app_wf(old(self)@),
            old(self)@.planner.confirmation matches Some(waiting) ==> waiting.paths.len() > 0,
        ensures
            app_wf(final(self)@),
            begun is Some <==> is_confirmed(old(self)@.planner, clicks),
            begun matches Some((next, was_live)) ==> {
                let waiting = old(self)@.planner.confirmation->0;
                &&& was_live == (old(self)@.live.site is Some)
                &&& final(self)@ == files_begun(
                    old(self)@,
                    waiting.paths,
                    waiting.estimate,
                    policy,
                )
                &&& next_view(next) == NextView::Load(
                    local_request(final(self)@, waiting.paths[0]),
                )
            },
            begun is None ==> final(self)@ == (if clicks.cancel || clicks.closed {
                match crate::planner::planned_count(old(self)@.planner) {
                    None => old(self)@,
                    Some(selected) => AppView {
                        planner: crate::planner::plan_cancelled(old(self)@.planner),
                        status: crate::planner::cancelled_text(
                            selected,
                            old(self)@.display.history.frames.len(),
                        ),
                        ..old(self)@
                    },
                }
            } else {
                old(self)@
            }),
    {
        if self.planner.pending.is_none() && clicks.continue_loading {
            match self.planner.confirm() {
                Some(waiting) => {
                    let ghost given = texts(waiting.paths@);
                    assert(given[0] == waiting.paths@[0]@);
                    return Some(
                        self.start_load_sequence(waiting.paths, waiting.estimate, policy),
                    );
                },
                None => {},
            }
        }
        if clicks.cancel || clicks.closed {
            self.abandon_playlist();
        }
        None
    }
}

// ---------------------------------------------------------------------------
// Dropped files
// ---------------------------------------------------------------------------

/// A dropped file, and its start where that could be read.
pub struct DroppedFile {
    pub path: String,
    pub header: Option<Vec<u8>>,
}

/// Whether a dropped file is a placefile.
pub open spec fn is_overlay(file: DroppedFile) -> bool {
    is_placefile(file.path@, header_view(file.header))
}

/// The paths of those files that are placefiles, or of those that are not, as
/// they were dropped.
pub open spec fn paths_where(files: Seq<DroppedFile>, overlays: bool) -> Seq<Seq<char>>
    decreases files.len(),
{
    if files.len() == 0 {
        Seq::empty()
    } else {
        let rest = paths_where(files.drop_last(), overlays);
        if is_overlay(files.last()) == overlays {
            rest.push(files.last().path@)
        } else {
            rest
        }
    }
}

/// Nothing of a drop is lost or taken twice: every file is on the list it
/// belongs to, and the two lists hold as many as were dropped.
pub proof fn law_a_drop_is_split_whole(files: Seq<DroppedFile>)
    ensures
        paths_where(files, true).len() + paths_where(files, false).len() == files.len(),
        forall|i: int|
            0 <= i < files.len() ==> paths_where(files, is_overlay(files[i])).contains(
                (#[trigger] files[i]).path@,
            ),
    decreases files.len(),
{
    if files.len() > 0 {
        let head = files.drop_last();
        law_a_drop_is_split_whole(head);
        assert forall|i: int| 0 <= i < files.len() implies paths_where(
            files,
            is_overlay(files[i]),
        ).contains((#[trigger] files[i]).path@) by {
            let list = paths_where(files, is_overlay(files[i]));
            let rest = paths_where(head, is_overlay(files[i]));
            if i == files.len() - 1 {
                assert(list.last() == files[i].path@);
                assert(list[list.len() - 1] == files[i].path@);
            } else {
                assert(head[i] == files[i]);
                let k = choose|k: int| 0 <= k < rest.len() && rest[k] == files[i].path@;
                assert(list[k] == files[i].path@);
            }
        }
    }
}

/// Splits a drop into placefiles and what may be radar volumes.
pub fn split_dropped_files(files: Vec<DroppedFile>) -> (split: (Vec<String>, Vec<String>))
    ensures
        texts(split.0@) == paths_where(files@, true),
        texts(split.1@) == paths_where(files@, false),
{
    let mut overlays: Vec<String> = Vec::new();
    let mut volumes: Vec<String> = Vec::new();
    let mut at: usize = 0;
    assert(texts(overlays@) =~= paths_where(files@.take(0), true));
    assert(texts(volumes@) =~= paths_where(files@.take(0), false));
    while at < files.len()
        invariant
            at <= files@.len(),
            texts(overlays@) == paths_where(files@.take(at as int), true),
            texts(volumes@) == paths_where(files@.take(at as int), false),
        decreases files@.len() - at,
    {
        let ghost before = (texts(overlays@), texts(volumes@));
        let path = files[at].path.clone();
        proof {
            let next = files@.take(at + 1);
            assert(next.drop_last() =~= files@.take(at as int));
            assert(next.last() == files@[at as int]);
        }
        if dropped_path_is_placefile(path.as_str(), &files[at].header) {
            overlays.push(path);
            assert(texts(overlays@) =~= before.0.push(path@));
        } else {
            volumes.push(path);
            assert(texts(volumes@) =~= before.1.push(path@));
        }
        at = at + 1;
    }
    assert(files@.take(files@.len() as int) =~= files@);
    (overlays, volumes)
}

/// The imagery a stored key names: the first provider of that key, where its
/// terms are met; never another in its place.
pub fn imagery_provider(keys: &Vec<String>, permitted: &Vec<bool>, key: &str) -> (chosen: Option<
    usize,
>)
    requires
        keys@.len() == permitted@.len(),
    ensures
        match chosen {
            Some(at) => {
                &&& at < keys@.len()
                &&& keys@[at as int]@ == key@
                &&& permitted@[at as int]
                &&& forall|i: int| 0 <= i < at ==> (#[trigger] keys@[i])@ != key@
            },
            None => (forall|i: int| 0 <= i < keys@.len() ==> (#[trigger] keys@[i])@ != key@) || (
            exists|at: int|
                0 <= at < keys@.len() && (#[trigger] keys@[at])@ == key@ && !permitted@[at] && (
                forall|i: int| 0 <= i < at ==> (#[trigger] keys@[i])@ != key@)),
        },
{
    let mut at: usize = 0;
    while at < keys.len()
        invariant
            at <= keys@.len(),
            keys@.len() == permitted@.len(),
            forall|i: int| 0 <= i < at ==> (#[trigger] keys@[i])@ != key@,
        decreases keys@.len() - at,
    {
        if same_text(keys[at].as_str(), key) {
            assert(keys@[at as int]@ == key@);
            return if permitted[at] {
                Some(at)
            } else {
                None
            };
        }
        at = at + 1;
    }
    None
}

// ---------------------------------------------------------------------------
// The volume explorer and the cross-section
// ---------------------------------------------------------------------------

/// The window of a tool that only modeled products stand behind.
pub enum ToolWindow {
    Closed,
    /// The active pane draws a field that no modeled product stands for; this is
    /// its name, and what is said.
    Refused { producer: String, message: String },
    /// The tool works on this product.
    Modeled(u16),
}

/// The window of a tool, as contracts see it.
pub ghost enum ToolWindowView {
    Closed,
    Refused { producer: Seq<char>, message: Seq<char> },
    Modeled(u16),
}

impl View for ToolWindow {
    type V = ToolWindowView;

    open spec fn view(&self) -> ToolWindowView {
        match self {
            ToolWindow::Closed => ToolWindowView::Closed,
            ToolWindow::Refused { producer, message } => ToolWindowView::Refused {
                producer: producer@,
                message: message@,
            },
            ToolWindow::Modeled(code) => ToolWindowView::Modeled(*code),
        }
    }
}

/// The window of a tool over the active pane's product.
pub open spec fn tool_window_of(
    tool: Seq<char>,
    open: bool,
    product: ProductView,
) -> ToolWindowView {
    if !open {
        ToolWindowView::Closed
    } else {
        match product {
            ProductView::Modeled(code) => ToolWindowView::Modeled(code),
            ProductView::Source(name) => ToolWindowView::Refused {
                producer: name,
                message: two_dimensional_only_sentence(tool, name),
            },
        }
    }
}

/// The window of a tool over a product.
fn tool_window(tool: &str, open: bool, product: &PaneProduct) -> (window: ToolWindow)
    ensures
        window@ == tool_window_of(tool@, open, product@),
{
    if !open {
        return ToolWindow::Closed;
    }
    match modeled_product_or_source_field(product) {
        Ok(code) => ToolWindow::Modeled(code),
        Err(name) => ToolWindow::Refused {
            producer: name.to_owned(),
            message: source_field_2d_only_message(tool, name),
        },
    }
}

/// What the active pane draws.
pub open spec fn active_product(app: AppView) -> ProductView {
    app.workspace.panes[app.workspace.active_pane].product
}

/// The window of the volume explorer.
pub open spec fn volume_window_of(app: AppView) -> ToolWindowView {
    tool_window_of("3D Volume"@, app.tools.vol3d_open, active_product(app))
}

/// The window of the cross-section.
pub open spec fn section_window_of(app: AppView) -> ToolWindowView {
    tool_window_of("Cross-section"@, app.tools.section_open, active_product(app))
}

/// The workstation after the cross-section's window was drawn. A window that
/// refuses leaves neither a line nor an armed click of an earlier product behind
/// it.
pub open spec fn section_window_drawn(app: AppView) -> AppView {
    if section_window_of(app) is Refused {
        AppView {
            tools: ToolState { section_armed: false, section_lined: false, ..app.tools },
            ..app
        }
    } else {
        app
    }
}

/// A field that no modeled product stands for is refused by an open tool, in its
/// own name, and never turned into a product; it stays selected, and nothing of
/// a section is left on the panes. A tool that is closed says nothing, and one
/// over a modeled product works on exactly that product.
pub proof fn law_no_product_is_substituted(app: AppView)
    ensures
        active_product(app) matches ProductView::Source(name) ==> {
            &&& volume_window_of(app) !is Modeled
            &&& section_window_of(app) !is Modeled
            &&& app.tools.vol3d_open ==> volume_window_of(app) == (ToolWindowView::Refused {
                producer: name,
                message: two_dimensional_only_sentence("3D Volume"@, name),
            })
            &&& app.tools.section_open ==> {
                &&& section_window_of(app) is Refused
                &&& !section_window_drawn(app).tools.section_armed
                &&& !section_window_drawn(app).tools.section_lined
            }
        },
        active_product(app) matches ProductView::Modeled(code) ==> {
            &&& app.tools.vol3d_open ==> volume_window_of(app) == ToolWindowView::Modeled(code)
            &&& app.tools.section_open ==> section_window_of(app) == ToolWindowView::Modeled(code)
            &&& section_window_drawn(app) == app
        },
        active_product(section_window_drawn(app)) == active_product(app),
        !app.tools.section_open ==> section_window_drawn(app) == app,
{
}

impl WorkstationApp {
    /// The window of the volume explorer over the active pane's product.
    pub fn vol3d_window(&self) -> (window: ToolWindow)
        requires
            app_wf(self@),
        ensures
            window@ == volume_window_of(self@),
    {
        let active: usize = self.workspace.active_pane;
        assert(self@.workspace.panes[active as int] == self.workspace.panes@[active as int]@);
        tool_window("3D Volume", self.tools.vol3d_open, &self.workspace.panes[active].product)
    }

    /// The window of the cross-section over the active pane's product. Where it
    /// refuses, the section is disarmed and its line dropped.
    pub fn xsection_window(&mut self) -> (window: ToolWindow)
        requires
            app_wf(old(self)@),
        ensures
            window@ == section_window_of(old(self)@),
            final(self)@ == section_window_drawn(old(self)@),
            app_wf(final(self)@),
    {
        let active: usize = self.workspace.active_pane;
        assert(self@.workspace.panes[active as int] == self.workspace.panes@[active as int]@);
        let window = tool_window(
            "Cross-section",
            self.tools.section_open,
            &self.workspace.panes[active].product,
        );
        match &window {
            ToolWindow::Refused { .. } => {
                self.tools.section_armed = false;
                self.tools.section_lined = false;
            },
            _ => {},
        }
        window
    }

    /// Opens or closes the cross-section's window.
    pub fn set_section_open(&mut self, open: bool)
        requires
            app_wf(old(self)@),
        ensures
            app_wf(final(self)@),
            final(self)@ == (AppView {
                tools: ToolState { section_open: open, ..old(self)@.tools },
                ..old(self)@
            }),
    {
        self.tools.section_open = open;
    }

    /// Takes note of a section's line: placed, which opens its window, or gone,
    /// as it is once the ground it was stated on has moved.
    pub fn note_section_line(&mut self, placed: bool)
        requires
            app_wf(old(self)@),
        ensures
            app_wf(final(self)@),
            final(self)@ == (AppView {
                tools: ToolState {
                    section_lined: placed,
                    section_open: placed || old(self)@.tools.section_open,
                    ..old(self)@.tools
                },
                ..old(self)@
            }),
    {
        self.tools.section_lined = placed;
        if placed {
            self.tools.section_open = true;
        }
    }
}

/// What starting does: a file that was given is asked for, a radar that was given
/// begins a live session, and with both the radar's session is the one that
/// stands; with neither nothing changes.
pub proof fn law_what_starting_does(
    app: AppView,
    path: Option<Seq<char>>,
    site: Option<Seq<char>>,
    policy: HistoryPolicy,
)
    ensures
        ({
            let after = started(app, path, site, policy);
            &&& path is None && site is None ==> after == app
            &&& path matches Some(file) ==> after.source_path == file && after.status
                == "Loading "@ + file
            &&& path is None ==> after.source_path == app.source_path && after.status
                == app.status
            &&& path is Some || site is Some ==> {
                &&& after.display.history.frames.len() == 0
                &&& after.playlist.sequence is None
                &&& after.planner.pending is None
                &&& after.planner.confirmation is None
                &&& after.live.feed is None
            }
            &&& site is Some ==> after.display.history.policy == crate::history::live_policy(
                policy,
            )
            &&& site is None && path is Some ==> after.display.history.policy == policy
            &&& after.workspace == app.workspace
            &&& after.tools == app.tools
        }),
{
}

/// What the memory warning shows: that a plan is being estimated, before anything
/// else; then what waits for a yes, with how many files, how much there is to read
/// and how much memory it takes; and nothing where there is no plan. A yes counts
/// only once there is something to say yes to.
pub proof fn law_what_the_memory_warning_shows(planner: PlannerView, clicks: PreflightClicks)
    ensures
        ({
            let window = preflight_window_of(planner);
            &&& window is Closed <==> planner.pending is None && planner.confirmation is None
            &&& window is Estimating <==> planner.pending is Some
            &&& planner.pending matches Some(pending) ==> window == PreflightView::Estimating(
                "Inspecting "@ + decimal(pending.selected as nat) + " selected files\u{2026}"@,
            )
            &&& planner.pending is None ==> (planner.confirmation matches Some(waiting) ==> window
                == (PreflightView::Confirm {
                selected: decimal(waiting.paths.len()),
                input: waiting.estimate.input_size_text,
                estimated: binary_bytes_text(waiting.estimate.estimated_decoded_bytes as nat),
            }))
            &&& is_confirmed(planner, clicks) <==> window is Confirm && clicks.continue_loading
        }),
{
}

/// Dropped files are parted and each part keeps their order: of two files of one
/// kind the one dropped first stands first.
pub proof fn law_a_drop_keeps_its_order(files: Seq<DroppedFile>, first: int, second: int) -> (places: (
    int,
    int,
))
    requires
        0 <= first < second < files.len(),
        is_overlay(files[first]) == is_overlay(files[second]),
    ensures
        ({
            let list = paths_where(files, is_overlay(files[first]));
            &&& 0 <= places.0 < places.1 < list.len()
            &&& list[places.0] == files[first].path@
            &&& list[places.1] == files[second].path@
        }),
    decreases files.len(),
{
    let kind = is_overlay(files[first]);
    let head = files.drop_last();
    let list = paths_where(files, kind);
    let rest = paths_where(head, kind);
    assert(head[first] == files[first]);
    if second < files.len() - 1 {
        assert(head[second] == files[second]);
        let places = law_a_drop_keeps_its_order(head, first, second);
        assert(list[places.0] == rest[places.0] && list[places.1] == rest[places.1]);
        places
    } else {
        law_a_drop_is_split_whole(head);
        let k = choose|k: int| 0 <= k < rest.len() && rest[k] == files[first].path@;
        assert(list[k] == rest[k]);
        assert(list[rest.len() as int] == files[second].path@);
        (k, rest.len() as int)
    }
}

/// A tool's window is closed where it is not open, and else of the product itself;
/// a source field is refused by its own name.
pub proof fn law_what_a_tool_window_is_of(tool: Seq<char>, open: bool, product: ProductView)
    ensures
        ({
            let window = tool_window_of(tool, open, product);
            &&& window is Closed <==> !open
            &&& open ==> (product matches ProductView::Modeled(code) ==> window
                == ToolWindowView::Modeled(code))
            &&& open ==> (product matches ProductView::Source(name) ==> (window matches
                ToolWindowView::Refused { producer, message } && producer == name && message
                == tool + " is unavailable for exact source field "@ + name
                + ". Exact source fields are currently 2D only; "@ + name
                + " remains selected and no modeled product was substituted."@))
        }),
{
}

/// The tools are of the pane that is active, and of no other: what they show is
/// that pane's product, and drawing the section changes at most what the section
/// itself holds.
pub proof fn law_the_tools_are_of_the_active_pane(app: AppView)
    requires
        app_wf(app),
    ensures
        ({
            let product = app.workspace.panes[app.workspace.active_pane].product;
            let drawn = section_window_drawn(app);
            &&& active_product(app) == product
            &&& volume_window_of(app) is Closed <==> !app.tools.vol3d_open
            &&& section_window_of(app) is Closed <==> !app.tools.section_open
            &&& volume_window_of(app) matches ToolWindowView::Modeled(code) ==> product
                == ProductView::Modeled(code)
            &&& section_window_of(app) matches ToolWindowView::Modeled(code) ==> product
                == ProductView::Modeled(code)
            &&& volume_window_of(app) is Refused <==> app.tools.vol3d_open && product is Source
            &&& section_window_of(app) is Refused <==> app.tools.section_open && product is Source
            &&& drawn == (AppView { tools: drawn.tools, ..app })
            &&& drawn.tools == (ToolState {
                section_armed: drawn.tools.section_armed,
                section_lined: drawn.tools.section_lined,
                ..app.tools
            })
        }),
{
}

} // verus!
