//! The workstation: everything that decides what is on screen, and what holds of
//! it at all times.

use crate::display::Display;
use crate::follow::FollowState;
use crate::history::{HistoryPolicy, VolumeHistory};
use crate::live::LiveFeed;
use crate::loop_export::LoopExporter;
use crate::panes::{PaneBoard, MAX_PANES};
use crate::planner::PlaylistPlanner;
use crate::sequence::FileSequence;
use crate::settings::SettingsCache;
use crate::vrot::{VrotState, VrotTool};
use crate::workspace::WorkspaceState;
use vstd::prelude::*;

verus! {

use crate::clock::Generation;
use crate::display::{display_wf, DisplayView};
use crate::follow::{follow_wf, forgotten, FollowView};
use crate::live::{feed_view, FeedView};
use crate::loop_export::{exporter_wf, ExporterView};
use crate::panes::text_view;
use crate::planner::PlannerView;
use crate::sequence::{sequence_wf, SequenceView};
use crate::session::empty_history;
use crate::workspace::{default_intent, workspace_wf, PaneLayout, WorkspaceView};

/// An open record of pulses: the field on screen is computed from it here.
pub struct PulseSession {
    /// The name the signal processor goes by.
    pub site_id: String,
    /// Whether the receiver's calibration is known, so that signal-to-noise is.
    pub snr_available: bool,
}

/// A record of pulses as contracts see it.
pub ghost struct PulsesView {
    pub site_id: Seq<char>,
    pub snr_available: bool,
}

impl View for PulseSession {
    type V = PulsesView;

    open spec fn view(&self) -> PulsesView {
        PulsesView { site_id: self.site_id@, snr_available: self.snr_available }
    }
}

/// A record that may be absent, as contracts see it.
pub open spec fn pulses_view(pulses: Option<PulseSession>) -> Option<PulsesView> {
    match pulses {
        Some(p) => Some(p@),
        None => None,
    }
}

/// The live session: the radar, what its transfers last said, and the feed's
/// report of itself.
pub struct LiveSession {
    pub site: Option<String>,
    pub status: String,
    pub feed: Option<LiveFeed>,
}

/// The live session as contracts see it.
pub ghost struct LiveSessionView {
    pub site: Option<Seq<char>>,
    pub status: Seq<char>,
    pub feed: Option<FeedView>,
}

impl View for LiveSession {
    type V = LiveSessionView;

    open spec fn view(&self) -> LiveSessionView {
        LiveSessionView {
            site: text_view(self.site),
            status: self.status@,
            feed: feed_view(self.feed),
        }
    }
}

/// The playlist that runs, and what the timeline says of the last one.
pub struct Playlist {
    pub sequence: Option<FileSequence>,
    pub status: Option<String>,
    pub detail: Option<String>,
}

/// The playlist as contracts see it.
pub ghost struct PlaylistView {
    pub sequence: Option<SequenceView>,
    pub status: Option<Seq<char>>,
    pub detail: Option<Seq<char>>,
}

/// A playlist that may be absent, as contracts see it.
pub open spec fn sequence_view(sequence: Option<FileSequence>) -> Option<SequenceView> {
    match sequence {
        Some(s) => Some(s@),
        None => None,
    }
}

impl View for Playlist {
    type V = PlaylistView;

    open spec fn view(&self) -> PlaylistView {
        PlaylistView {
            sequence: sequence_view(self.sequence),
            status: text_view(self.status),
            detail: text_view(self.detail),
        }
    }
}

/// Which tools are up.
#[derive(Clone, Copy, Debug, PartialEq, Eq, Structural)]
pub struct ToolState {
    pub vol3d_open: bool,
    /// Whether a click takes an endpoint of a cross-section.
    pub section_armed: bool,
    pub section_open: bool,
    /// Whether a cross-section's line lies on the panes.
    pub section_lined: bool,
    pub show_warnings: bool,
    pub product_picker_open: bool,
}

/// The workstation.
pub struct WorkstationApp {
    pub display: Display,
    pub workspace: WorkspaceState,
    pub follow: FollowState,
    pub exporter: LoopExporter,
    pub planner: PlaylistPlanner,
    pub playlist: Playlist,
    pub live: LiveSession,
    pub pulses: Option<PulseSession>,
    /// The panes that show relative power only because reflectivity cannot be
    /// had.
    pub fallback_from_ref: Vec<bool>,
    pub status: String,
    pub source_path_text: String,
    /// How long the last decode took, written in milliseconds.
    pub load_ms: Option<String>,
    pub tools: ToolState,
    pub settings_cache: SettingsCache,
}

/// The workstation as contracts see it.
pub ghost struct AppView {
    pub display: DisplayView,
    pub workspace: WorkspaceView,
    pub follow: FollowView,
    pub exporter: ExporterView,
    pub planner: PlannerView,
    pub playlist: PlaylistView,
    pub live: LiveSessionView,
    pub pulses: Option<PulsesView>,
    pub fallback: Seq<bool>,
    pub status: Seq<char>,
    pub source_path: Seq<char>,
    pub load_ms: Option<Seq<char>>,
    pub tools: ToolState,
    pub settings_cache: SettingsCache,
}

impl View for WorkstationApp {
    type V = AppView;

    open spec fn view(&self) -> AppView {
        AppView {
            display: self.display@,
            workspace: self.workspace@,
            follow: self.follow@,
            exporter: self.exporter@,
            planner: self.planner@,
            playlist: self.playlist@,
            live: self.live@,
            pulses: pulses_view(self.pulses),
            fallback: self.fallback_from_ref@,
            status: self.status@,
            source_path: self.source_path_text@,
            load_ms: text_view(self.load_ms),
            tools: self.tools,
            settings_cache: self.settings_cache,
        }
    }
}

/// What holds of the workstation at all times. Among it: a click is never both a
/// velocity gate and a section endpoint.
pub open spec fn app_wf(app: AppView) -> bool {
    &&& display_wf(app.display)
    &&& workspace_wf(app.workspace)
    &&& follow_wf(app.follow)
    &&& exporter_wf(app.exporter)
    &&& app.fallback.len() == MAX_PANES
    &&& app.playlist.sequence matches Some(sequence) ==> sequence_wf(sequence)
    &&& !(app.display.vrot.active && app.tools.section_armed)
}

impl WorkstationApp {
    /// A workstation that has loaded nothing, under a history policy and the
    /// settings the paint path reads.
    pub fn new(policy: HistoryPolicy, settings_cache: SettingsCache) -> (app: WorkstationApp)
        ensures
            app_wf(app@),
            app@.display.history == empty_history(policy),
            app@.display.vrot == (VrotTool {
                active: false,
                state: VrotState::Idle,
                on_pane: false,
                pane: 0,
            }),
            app@.display.board.session == (Generation { value: 0 }),
            app@.display.board.frame == (Generation { value: 0 }),
            app@.display.board.palette == (Generation { value: 0 }),
            app@.workspace.layout == PaneLayout::One,
            app@.workspace.active_pane == 0,
            forall|i: int|
                0 <= i < MAX_PANES ==> #[trigger] app@.workspace.panes[i] == default_intent(),
            forall|i: int|
                0 <= i < MAX_PANES ==> #[trigger] app@.display.board.panes[i]
                    == crate::panes::blank_pane(),
            app@.follow == forgotten(),
            app@.exporter == (ExporterView { state: None, next_capture_id: 0, notice: None }),
            app@.planner == (PlannerView {
                clock: Generation { value: 0 },
                pending: None,
                confirmation: None,
            }),
            app@.playlist == (PlaylistView { sequence: None, status: None, detail: None }),
            app@.live == (LiveSessionView { site: None, status: Seq::empty(), feed: None }),
            app@.pulses is None,
            forall|i: int| 0 <= i < MAX_PANES ==> !(#[trigger] app@.fallback[i]),
            app@.status == "Drop a Level II file here or enter a path above"@,
            app@.source_path == Seq::<char>::empty(),
            app@.load_ms is None,
            app@.tools == (ToolState {
                vol3d_open: false,
                section_armed: false,
                section_open: false,
                section_lined: false,
                show_warnings: true,
                product_picker_open: false,
            }),
            app@.settings_cache == settings_cache,
    {
        let app = WorkstationApp {
            display: Display {
                history: VolumeHistory::new(policy),
                board: PaneBoard::new(),
                vrot: VrotTool::new(),
            },
            workspace: WorkspaceState::new(),
            follow: FollowState::new(),
            exporter: LoopExporter::new(),
            planner: PlaylistPlanner::new(),
            playlist: Playlist { sequence: None, status: None, detail: None },
            live: LiveSession { site: None, status: String::new(), feed: None },
            pulses: None,
            fallback_from_ref: vec![false, false, false, false],
            status: "Drop a Level II file here or enter a path above".to_owned(),
            source_path_text: String::new(),
            load_ms: None,
            tools: ToolState {
                vol3d_open: false,
                section_armed: false,
                section_open: false,
                section_lined: false,
                show_warnings: true,
                product_picker_open: false,
            },
            settings_cache,
        };
        assert(app@.live.status =~= Seq::empty());
        assert(app@.source_path =~= Seq::empty());
        app
    }

    /// Opens or closes the volume explorer.
    pub fn set_vol3d_open(&mut self, open: bool)
        ensures
            final(self)@ == (AppView {
                tools: ToolState { vol3d_open: open, ..old(self)@.tools },
                ..old(self)@
            }),
    {
        self.tools.vol3d_open = open;
    }
}

} // verus!
