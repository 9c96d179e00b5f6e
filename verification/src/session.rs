//! Sessions: a local file, a playlist of local files, or a live radar. Beginning
//! one retires whatever went before it.

use crate::app::WorkstationApp;
use crate::clock::Generation;
use crate::frame::{FrameOrigin, FrameStage, VolumeFrame};
use crate::history::{live_history_policy, HistoryPolicy};
use crate::install::LoadedVolume;
use crate::live::{transfer_status, FeedFreshness, LiveFeed};
use crate::moment::Moment;
use crate::planner::{PlanAnswer, PlanRequest};
use crate::sequence::{FileSequence, PreflightEstimate, ScanExtent};
use crate::settings::IqControls;
use crate::text::{trim, uppercase};
use crate::vrot::StaleReason;
use vstd::prelude::*;

verus! {

use crate::app::{app_wf, AppView, LiveSessionView, PlaylistView};
use crate::clock::next_generation;
use crate::display::DisplayView;
use crate::follow::forgotten;
use crate::frame::FrameView;
use crate::history::{live_policy, HistoryView, PlaybackState};
use crate::install::{volume_arrived, LoadedView};
use crate::live::{transfer_text, FeedView};
use crate::panes::{all_cleared, panes_wf, session_changed, text_view, BoardView};
use crate::paths::is_playlist_of;
use crate::planner::{
    answer_of, awaiting_text, cancelled_text, estimating_text, plan_answered, plan_begun,
    plan_cancelled, planned_count, unplanned_text, PlannerView,
};
use crate::sequence::{
    admitted, asked_next, completion_detail, completion_text, failed, flushed, flushed_frame,
    member_accepted, new_sequence, plus, progress_detail, progress_text, radar_mismatch,
    worker_closed, EstimateView, SequenceView,
};
use crate::text::{texts, trimmed, unicode_uppercase};
use crate::vrot::{made_stale, VrotTool};

/// A file to decode.
pub struct LoadRequest {
    pub generation: Generation,
    pub path: String,
    pub origin: FrameOrigin,
    pub final_stage: FrameStage,
    pub source_label: String,
    /// What a record of pulses is estimated with.
    pub iq_controls: IqControls,
}

/// A request as contracts see it.
pub ghost struct RequestView {
    pub generation: Generation,
    pub path: Seq<char>,
    pub origin: FrameOrigin,
    pub final_stage: FrameStage,
    pub source_label: Seq<char>,
    pub iq_controls: IqControls,
}

impl View for LoadRequest {
    type V = RequestView;

    open spec fn view(&self) -> RequestView {
        RequestView {
            generation: self.generation,
            path: self.path@,
            origin: self.origin,
            final_stage: self.final_stage,
            source_label: self.source_label@,
            iq_controls: self.iq_controls,
        }
    }
}

/// The request for a local file, in the session and under the settings of a
/// workstation.
pub open spec fn local_request(app: AppView, path: Seq<char>) -> RequestView {
    RequestView {
        generation: app.display.board.session,
        path,
        origin: FrameOrigin::Local,
        final_stage: FrameStage::Complete,
        source_label: path,
        iq_controls: app.settings_cache.iq_controls,
    }
}

// ---------------------------------------------------------------------------
// Beginning
// ---------------------------------------------------------------------------

/// An empty timeline under a policy.
pub open spec fn empty_history(policy: HistoryPolicy) -> HistoryView {
    HistoryView {
        frames: Seq::empty(),
        selected: 0,
        follows_live: true,
        playback: PlaybackState::Paused,
        policy,
    }
}

/// The display at the beginning of a session: nothing of the last one is kept,
/// on screen, or measured.
pub open spec fn display_begun(display: DisplayView, policy: HistoryPolicy) -> DisplayView {
    DisplayView {
        history: empty_history(policy),
        board: session_changed(display.board),
        vrot: VrotTool {
            state: made_stale(display.vrot.state, StaleReason::DifferentSite),
            ..display.vrot
        },
    }
}

/// The workstation at the beginning of a local session.
pub open spec fn local_session_begun(app: AppView, policy: HistoryPolicy) -> AppView {
    AppView {
        display: display_begun(app.display, policy),
        follow: forgotten(),
        planner: plan_cancelled(app.planner),
        live: LiveSessionView {
            site: None,
            status: if app.live.site is Some {
                Seq::empty()
            } else {
                app.live.status
            },
            feed: None,
        },
        load_ms: None,
        ..app
    }
}

/// No playlist, and nothing said of one.
pub open spec fn no_playlist() -> PlaylistView {
    PlaylistView { sequence: None, status: None, detail: None }
}

/// The workstation with one local file asked for.
pub open spec fn file_asked(app: AppView, path: Seq<char>, policy: HistoryPolicy) -> AppView {
    AppView {
        playlist: no_playlist(),
        source_path: path,
        status: "Loading "@ + path,
        ..local_session_begun(app, policy)
    }
}

/// The workstation after what is said of a running playlist was brought up to
/// date.
pub open spec fn playlist_told(app: AppView, action: Seq<char>) -> AppView {
    match app.playlist.sequence {
        None => app,
        Some(sequence) => AppView {
            playlist: PlaylistView {
                status: Some(
                    progress_text(sequence, action, app.display.history.frames.len()),
                ),
                detail: Some(progress_detail(sequence)),
                ..app.playlist
            },
            ..app
        },
    }
}

/// The workstation with a playlist of which nothing has been asked for.
pub open spec fn playlist_begun(
    app: AppView,
    paths: Seq<Seq<char>>,
    estimate: EstimateView,
    policy: HistoryPolicy,
) -> AppView {
    let begun = local_session_begun(app, policy);
    playlist_told(
        AppView {
            source_path: paths[0],
            playlist: PlaylistView {
                sequence: Some(new_sequence(paths, estimate)),
                ..begun.playlist
            },
            ..begun
        },
        "starting"@,
    )
}

/// The workstation after the next file of its playlist was asked for; where
/// there is none, the scan that waits is handed over.
pub open spec fn next_asked(app: AppView) -> AppView {
    match app.playlist.sequence {
        None => app,
        Some(sequence) => if sequence.next < sequence.paths.len() {
            let asked = playlist_told(
                AppView {
                    playlist: PlaylistView {
                        sequence: Some(asked_next(sequence)),
                        ..app.playlist
                    },
                    ..app
                },
                "loading"@,
            );
            AppView { status: "Loading "@ + sequence.paths[sequence.next], ..asked }
        } else {
            AppView {
                playlist: PlaylistView { sequence: Some(flushed(sequence)), ..app.playlist },
                ..app
            }
        },
    }
}

/// What to do next about a playlist, as contracts see it.
pub ghost enum NextView {
    Nothing,
    Load(RequestView),
    Ended(Option<FrameView>),
}

/// What to do next about a playlist: ask for its next file, or, where there is
/// none, put what waits on the timeline and finish.
pub open spec fn next_step(app: AppView) -> NextView {
    match app.playlist.sequence {
        None => NextView::Nothing,
        Some(sequence) => if sequence.next < sequence.paths.len() {
            NextView::Load(local_request(app, sequence.paths[sequence.next]))
        } else {
            NextView::Ended(flushed_frame(sequence))
        },
    }
}

/// What to do next about a playlist.
pub enum NextFile {
    /// No playlist runs.
    Nothing,
    /// Decode this file.
    Load(LoadRequest),
    /// Put this scan on the timeline, where there is one, and finish.
    Ended(Option<VolumeFrame>),
}

/// What to do next, as contracts see it.
pub open spec fn next_view(next: NextFile) -> NextView {
    match next {
        NextFile::Nothing => NextView::Nothing,
        NextFile::Load(request) => NextView::Load(request@),
        NextFile::Ended(frame) => NextView::Ended(frame_view(frame)),
    }
}

/// A frame that may be absent, as contracts see it.
pub open spec fn frame_view(frame: Option<VolumeFrame>) -> Option<FrameView> {
    match frame {
        Some(f) => Some(f@),
        None => None,
    }
}

/// The workstation after its playlist was finished.
pub open spec fn playlist_finished(app: AppView) -> AppView {
    match app.playlist.sequence {
        None => app,
        Some(sequence) => AppView {
            playlist: PlaylistView {
                sequence: None,
                status: Some(completion_text(sequence, app.display.history.frames.len())),
                detail: Some(completion_detail(sequence)),
            },
            pulses: None,
            display: if app.display.history.frames.len() == 0 {
                DisplayView { board: all_cleared(app.display.board), ..app.display }
            } else {
                app.display
            },
            ..app
        },
    }
}

/// A session that begins leaves nothing of the last one behind: no frame, no
/// picture, no measurement that reads as current, and no report of a feed.
pub proof fn law_a_session_starts_clean(app: AppView, policy: HistoryPolicy, pane: int)
    requires
        app_wf(app),
        0 <= pane < crate::panes::MAX_PANES,
    ensures
        ({
            let begun = local_session_begun(app, policy);
            &&& begun.display.history.frames.len() == 0
            &&& begun.display.board.panes[pane].texture is None
            &&& begun.display.board.session != app.display.board.session
            &&& begun.display.vrot.state !is Complete
            &&& begun.display.vrot.state !is AwaitingSecond
            &&& begun.live.site is None
            &&& begun.live.feed is None
            &&& begun.planner.pending is None
            &&& begun.planner.confirmation is None
        }),
{
    crate::panes::law_frames_hold_and_sessions_blank(app.display.board, pane);
    crate::clock::law_a_bump_changes_the_reading(app.display.board.session);
    crate::vrot::law_going_stale_is_final(
        app.display.vrot.state,
        StaleReason::DifferentSite,
        StaleReason::NewVolume,
    );
}

/// What was asked for in an earlier session cannot reach the timeline of a later
/// one.
pub proof fn law_an_old_request_is_never_installed(
    app: AppView,
    policy: HistoryPolicy,
    loaded: LoadedView,
    moved: Seq<usize>,
    by_source: bool,
)
    requires
        loaded.generation == app.display.board.session,
    ensures
        volume_arrived(local_session_begun(app, policy), loaded, moved, by_source)
            == local_session_begun(app, policy),
        volume_arrived(live_begun(app, policy), loaded, moved, by_source) == live_begun(
            app,
            policy,
        ),
        volume_arrived(live_stopped(app), loaded, moved, by_source) == live_stopped(app),
{
    crate::clock::law_a_bump_changes_the_reading(app.display.board.session);
}

/// The workstation after files that were planned began: one is an ordinary load,
/// several are a playlist of which the first is asked for.
pub open spec fn files_begun(
    app: AppView,
    paths: Seq<Seq<char>>,
    estimate: EstimateView,
    policy: HistoryPolicy,
) -> AppView {
    let ready = AppView {
        planner: PlannerView { confirmation: None, ..app.planner },
        ..app
    };
    if paths.len() == 1 {
        file_asked(ready, paths[0], policy)
    } else {
        next_asked(playlist_begun(ready, paths, estimate, policy))
    }
}

/// A single file that was planned runs no playlist; several run one of exactly
/// those files.
pub proof fn law_one_file_is_no_playlist(
    app: AppView,
    paths: Seq<Seq<char>>,
    estimate: EstimateView,
    policy: HistoryPolicy,
)
    requires
        paths.len() > 0,
    ensures
        files_begun(app, paths, estimate, policy).playlist.sequence is None <==> paths.len() == 1,
        paths.len() > 1 ==> files_begun(app, paths, estimate, policy).playlist.sequence->0.paths
            == paths,
        files_begun(app, paths, estimate, policy).source_path == paths[0],
{
}

impl WorkstationApp {
    /// Begins a local session and gives its generation, and whether a live
    /// session has to be stopped.
    pub fn begin_local_session(&mut self, policy: HistoryPolicy) -> (begun: (Generation, bool))
        requires
            app_wf(old(self)@),
        ensures
            final(self)@ == local_session_begun(old(self)@, policy),
            app_wf(final(self)@),
            begun.0 == final(self)@.display.board.session,
            begun.1 == (old(self)@.live.site is Some),
    {
        self.planner.cancel();
        let was_live = self.live.site.is_some();
        if was_live {
            self.live.site = None;
            self.live.status = String::new();
            assert(self@.live.status =~= Seq::empty());
        }
        self.live.feed = None;
        self.follow.reset_live_follow_state();
        self.display.vrot.mark_stale(StaleReason::DifferentSite);
        let generation = self.display.board.note_session_change();
        self.display.history.clear();
        let _ = self.display.history.set_policy(policy);
        self.load_ms = None;
        assert(self@.display.history.frames =~= Seq::empty());
        (generation, was_live)
    }

    /// Asks for one local file, and says whether a live session has to be
    /// stopped.
    pub fn begin_load(&mut self, path: String, policy: HistoryPolicy) -> (begun: (LoadRequest, bool))
        requires
            app_wf(old(self)@),
        ensures
            final(self)@ == file_asked(old(self)@, path@, policy),
            app_wf(final(self)@),
            begun.0@ == local_request(final(self)@, path@),
            begun.1 == (old(self)@.live.site is Some),
    {
        self.playlist.sequence = None;
        self.playlist.status = None;
        self.playlist.detail = None;
        let (generation, was_live) = self.begin_local_session(policy);
        self.source_path_text = path.clone();
        let mut status = "Loading ".to_owned();
        status.append(path.as_str());
        self.status = status;
        let source_label = path.clone();
        (
            LoadRequest {
                generation,
                path,
                origin: FrameOrigin::Local,
                final_stage: FrameStage::Complete,
                source_label,
                iq_controls: self.settings_cache.iq_controls,
            },
            was_live,
        )
    }

    /// Records that the worker took no request for this path.
    pub fn note_load_worker_closed(&mut self, path: &str)
        ensures
            final(self)@ == (AppView {
                status: "load worker is closed: "@ + path@,
                ..old(self)@
            }),
    {
        let mut status = "load worker is closed: ".to_owned();
        status.append(path);
        self.status = status;
    }

    // -----------------------------------------------------------------------
    // Planning a playlist
    // -----------------------------------------------------------------------

    /// Plans a selection of local files; the session on screen stays as it is.
    pub fn begin_load_sequence(&mut self, paths: Vec<String>) -> (request: Option<PlanRequest>)
        requires
            app_wf(old(self)@),
        ensures
            app_wf(final(self)@),
            match request {
                None => paths@.len() == 0 && final(self)@ == old(self)@,
                Some(plan) => {
                    &&& paths@.len() > 0
                    &&& plan.paths@.len() > 0
                    &&& is_playlist_of(texts(plan.paths@), texts(paths@))
                    &&& plan.generation == final(self)@.planner.clock
                    &&& final(self)@ == (AppView {
                        planner: plan_begun(old(self)@.planner, plan.paths@.len() as usize),
                        status: estimating_text(plan.paths@.len()),
                        ..old(self)@
                    })
                },
            },
    {
        match self.planner.begin(paths) {
            None => None,
            Some((request, line)) => {
                self.status = line;
                Some(request)
            },
        }
    }

    /// Records that a plan could not start.
    pub fn note_plan_refused(&mut self, error: &str, selected: usize)
        requires
            app_wf(old(self)@),
        ensures
            final(self)@ == (AppView {
                planner: PlannerView { pending: None, ..old(self)@.planner },
                status: unplanned_text(error@, selected as nat),
                ..old(self)@
            }),
            app_wf(final(self)@),
    {
        self.status = self.planner.refuse(error, selected);
    }

    /// Takes an estimate that arrived; gives the files to load where nothing has
    /// to be asked.
    pub fn poll_playlist_preflight(
        &mut self,
        generation: Generation,
        paths: Vec<String>,
        estimate: PreflightEstimate,
        large: bool,
    ) -> (start: Option<(Vec<String>, PreflightEstimate)>)
        requires
            app_wf(old(self)@),
        ensures
            app_wf(final(self)@),
            final(self)@ == (AppView {
                planner: plan_answered(
                    old(self)@.planner,
                    generation,
                    texts(paths@),
                    estimate@,
                    large,
                ),
                status: if answer_of(old(self)@.planner, generation, large) is Ask {
                    awaiting_text(paths@.len(), estimate.estimated_decoded_bytes)
                } else {
                    old(self)@.status
                },
                ..old(self)@
            }),
            start == (if answer_of(old(self)@.planner, generation, large) is Start {
                Some((paths, estimate))
            } else {
                None
            }),
    {
        match self.planner.take_estimate(generation, paths, estimate, large) {
            PlanAnswer::Ignored => None,
            PlanAnswer::Ask(line) => {
                self.status = line;
                None
            },
            PlanAnswer::Start(files, said) => Some((files, said)),
        }
    }

    /// Drops whatever is planned.
    pub fn cancel_playlist_preflight(&mut self)
        requires
            app_wf(old(self)@),
        ensures
            final(self)@ == (AppView {
                planner: plan_cancelled(old(self)@.planner),
                ..old(self)@
            }),
            app_wf(final(self)@),
    {
        self.planner.cancel();
    }

    /// Takes the no to whatever is planned.
    pub fn abandon_playlist(&mut self)
        requires
            app_wf(old(self)@),
        ensures
            app_wf(final(self)@),
            final(self)@ == (match planned_count(old(self)@.planner) {
                None => old(self)@,
                Some(selected) => AppView {
                    planner: plan_cancelled(old(self)@.planner),
                    status: cancelled_text(
                        selected,
                        old(self)@.display.history.frames.len(),
                    ),
                    ..old(self)@
                },
            }),
    {
        let retained: usize = self.display.history.len();
        if let Some(line) = self.planner.abandon(retained) {
            self.status = line;
        }
    }

    /// Begins loading files whose plan was accepted. One file is an ordinary
    /// load. Says what to ask for first, and whether a live session has to be
    /// stopped.
    pub fn start_load_sequence(
        &mut self,
        paths: Vec<String>,
        estimate: PreflightEstimate,
        policy: HistoryPolicy,
    ) -> (begun: (NextFile, bool))
        requires
            app_wf(old(self)@),
            paths@.len() > 0,
        ensures
            app_wf(final(self)@),
            begun.1 == (old(self)@.live.site is Some),
            final(self)@ == files_begun(old(self)@, texts(paths@), estimate@, policy),
            next_view(begun.0) == NextView::Load(
                local_request(final(self)@, paths@[0]@),
            ),
    {
        let _ = self.planner.confirm();
        if paths.len() == 1 {
            let path = paths[0].clone();
            let (request, was_live) = self.begin_load(path, policy);
            return (NextFile::Load(request), was_live);
        }
        let first = paths[0].clone();
        assert(texts(paths@)[0] == first@);
        let (_, was_live) = self.begin_local_session(policy);
        self.source_path_text = first;
        self.playlist.sequence = Some(FileSequence::new(paths, estimate));
        self.update_sequence_status("starting");
        (self.request_next_sequence_file(), was_live)
    }

    // -----------------------------------------------------------------------
    // Running a playlist
    // -----------------------------------------------------------------------

    /// Brings what is said of a running playlist up to date.
    pub fn update_sequence_status(&mut self, action: &str)
        requires
            app_wf(old(self)@),
        ensures
            final(self)@ == playlist_told(old(self)@, action@),
            app_wf(final(self)@),
    {
        let retained: usize = self.display.history.len();
        match &self.playlist.sequence {
            None => {},
            Some(sequence) => {
                let status = sequence.progress(action, retained);
                let detail = sequence.progress_hover();
                self.playlist.status = Some(status);
                self.playlist.detail = Some(detail);
            },
        }
    }

    /// Asks for the next file of the playlist.
    pub fn request_next_sequence_file(&mut self) -> (next: NextFile)
        requires
            app_wf(old(self)@),
        ensures
            final(self)@ == next_asked(old(self)@),
            next_view(next) == next_step(old(self)@),
            app_wf(final(self)@),
    {
        match self.playlist.sequence.take() {
            None => NextFile::Nothing,
            Some(mut sequence) => {
                match sequence.take_next() {
                    None => {
                        let ended = sequence.flush_pending_sweep_assembly();
                        self.playlist.sequence = Some(sequence);
                        NextFile::Ended(ended)
                    },
                    Some(path) => {
                        self.playlist.sequence = Some(sequence);
                        self.update_sequence_status("loading");
                        let mut status = "Loading ".to_owned();
                        status.append(path.as_str());
                        self.status = status;
                        let source_label = path.clone();
                        NextFile::Load(
                            LoadRequest {
                                generation: self.display.board.session_clock.current(),
                                path,
                                origin: FrameOrigin::Local,
                                final_stage: FrameStage::Complete,
                                source_label,
                                iq_controls: self.settings_cache.iq_controls,
                            },
                        )
                    },
                }
            },
        }
    }

    /// Records that the worker serves no more files, and finishes the playlist.
    pub fn note_sequence_worker_closed(&mut self)
        requires
            app_wf(old(self)@),
        ensures
            final(self)@ == (match old(self)@.playlist.sequence {
                None => old(self)@,
                Some(sequence) => playlist_finished(
                    AppView {
                        playlist: PlaylistView {
                            sequence: Some(worker_closed(sequence)),
                            ..old(self)@.playlist
                        },
                        ..old(self)@
                    },
                ),
            }),
            app_wf(final(self)@),
    {
        match self.playlist.sequence.take() {
            None => {},
            Some(mut sequence) => {
                sequence.note_worker_closed();
                self.playlist.sequence = Some(sequence);
                self.finish_file_sequence();
            },
        }
    }

    /// Records that the awaited file failed: a hard boundary, so that the scan
    /// which waits goes to the timeline.
    pub fn finish_sequence_failure(&mut self, message: String) -> (ended: Option<VolumeFrame>)
        requires
            app_wf(old(self)@),
        ensures
            app_wf(final(self)@),
            match old(self)@.playlist.sequence {
                None => final(self)@ == old(self)@ && ended is None,
                Some(sequence) => {
                    &&& final(self)@ == (AppView {
                        playlist: PlaylistView {
                            sequence: Some(failed(flushed(sequence), message@)),
                            ..old(self)@.playlist
                        },
                        ..old(self)@
                    })
                    &&& frame_view(ended) == flushed_frame(sequence)
                },
            },
    {
        match self.playlist.sequence.take() {
            None => None,
            Some(mut sequence) => {
                let ended = sequence.flush_pending_sweep_assembly();
                sequence.note_failure(message);
                self.playlist.sequence = Some(sequence);
                ended
            },
        }
    }
}

/// What a file's own bytes prove of the scan it belongs to.
#[derive(Clone, Copy, Debug, PartialEq, Eq, Structural)]
pub struct SweepMembership {
    /// The scan's number inside the archive.
    pub volume_sequence: u16,
    /// The scan it makes with the one that waits, where it belongs to it.
    pub joined: Option<ScanExtent>,
}

/// A file of a playlist that decoded.
pub struct DecodedFile {
    /// The radar's name as the file states it.
    pub site: String,
    /// Whether the radar stood where the playlist's first did.
    pub same_position: bool,
    /// Whether it is a record of pulses.
    pub level_one: bool,
    /// Why it is kept apart, where that is worth a word.
    pub refusal: Option<String>,
    pub membership: Option<SweepMembership>,
    pub frame: VolumeFrame,
}

/// A decoded file as contracts see it.
pub ghost struct DecodedView {
    pub site: Seq<char>,
    pub same_position: bool,
    pub level_one: bool,
    pub refusal: Option<Seq<char>>,
    pub membership: Option<SweepMembership>,
    pub frame: FrameView,
}

impl View for DecodedFile {
    type V = DecodedView;

    open spec fn view(&self) -> DecodedView {
        DecodedView {
            site: self.site@,
            same_position: self.same_position,
            level_one: self.level_one,
            refusal: text_view(self.refusal),
            membership: self.membership,
            frame: self.frame@,
        }
    }
}

/// Why a decoded file is skipped, where it is.
pub open spec fn skipped(sequence: SequenceView, file: DecodedView) -> Option<Seq<char>> {
    radar_mismatch(sequence, trimmed(file.site), file.same_position)
}

/// The playlist after a file decoded.
pub open spec fn decoded(sequence: SequenceView, file: DecodedView) -> SequenceView {
    match skipped(sequence, file) {
        Some(reason) => failed(flushed(sequence), reason),
        None => {
            let counted = admitted(sequence, trimmed(file.site), file.level_one, file.refusal);
            match file.membership {
                Some(member) => member_accepted(
                    counted,
                    file.frame,
                    member.volume_sequence,
                    member.joined,
                ),
                None => flushed(counted),
            }
        },
    }
}

/// The scan that ends when a file decodes: one that waits does, unless the file
/// extends it.
pub open spec fn scan_ended(sequence: SequenceView, file: DecodedView) -> Option<FrameView> {
    match (skipped(sequence, file), file.membership) {
        (None, Some(member)) => if member.joined is Some {
            None
        } else {
            flushed_frame(sequence)
        },
        _ => flushed_frame(sequence),
    }
}

/// What of a file that decoded goes to the timeline at once: all of it, unless
/// it is skipped or may be one sweep of a longer scan.
pub open spec fn own_frame(sequence: SequenceView, file: DecodedView) -> Option<FrameView> {
    if skipped(sequence, file) is None && file.membership is None {
        Some(file.frame)
    } else {
        None
    }
}

/// A file of another radar is never put on the timeline, and stays in the
/// account as failed.
pub proof fn law_another_radar_is_refused(sequence: SequenceView, file: DecodedView)
    requires
        sequence.site_id matches Some(expected) && crate::text::ascii_lowered(trimmed(file.site))
            != crate::text::ascii_lowered(expected),
    ensures
        own_frame(sequence, file) is None,
        decoded(sequence, file).failures.len() == sequence.failures.len() + 1,
        decoded(sequence, file).loaded == sequence.loaded,
{
}

/// Why a file is skipped: it is of another radar than the playlist's, whatever
/// the case of its letters, or its radar stood elsewhere. The first file is of
/// the playlist's own radar.
pub proof fn law_a_file_is_skipped_for_its_radar_alone(sequence: SequenceView, file: DecodedView)
    ensures
        skipped(sequence, file) is Some <==> (sequence.site_id matches Some(expected) && (
        crate::text::ascii_lowered(trimmed(file.site)) != crate::text::ascii_lowered(expected)
            || !file.same_position)),
        own_frame(sequence, file) is Some <==> skipped(sequence, file) is None
            && file.membership is None,
        own_frame(sequence, file) is Some ==> own_frame(sequence, file) == Some(file.frame),
{
}

/// No scan is lost. A scan that waits when a file decodes either goes to the
/// timeline as it stands, or is the one the file's bytes prove that it extends,
/// and then it waits on with that file in it. It goes exactly where the file does
/// not extend it.
pub proof fn law_no_scan_is_lost(sequence: SequenceView, file: DecodedView)
    ensures
        sequence.pending is None ==> scan_ended(sequence, file) is None,
        sequence.pending matches Some(waiting) ==> ({
            let after = decoded(sequence, file);
            let extends = skipped(sequence, file) is None && (file.membership matches Some(member)
                && member.joined is Some);
            &&& !extends ==> scan_ended(sequence, file) == Some(waiting.frame)
            &&& extends ==> scan_ended(sequence, file) is None && (after.pending matches Some(now)
                && now.member_count == waiting.member_count + 1 && now.volume_sequence
                == waiting.volume_sequence && now.first_source_label
                == waiting.first_source_label && now.frame.identity == waiting.frame.identity
                && now.frame.origin == waiting.frame.origin && now.frame.stage
                == waiting.frame.stage && now.frame.volume == waiting.frame.volume
                && now.frame.cuts == (file.membership->0.joined->0).cuts && now.frame.radials == (
            file.membership->0.joined->0).radials && now.frame.estimated_bytes == (
            file.membership->0.joined->0).estimated_bytes)
        }),
{
}

/// No file is lost. A file that decodes is counted and is either put on the
/// timeline itself, begins a scan that waits, or extends the one that waited; a
/// file that is skipped is in the account as failed, under its path, and is
/// counted as nothing else. The files still to come stay as they are.
pub proof fn law_no_file_is_lost(sequence: SequenceView, file: DecodedView)
    requires
        1 <= sequence.next <= sequence.paths.len(),
    ensures
        ({
            let after = decoded(sequence, file);
            let path = sequence.paths[sequence.next - 1];
            &&& after.paths == sequence.paths
            &&& after.next == sequence.next
            &&& after.evicted_frames == sequence.evicted_frames
            &&& skipped(sequence, file) matches Some(reason) ==> {
                &&& after.loaded == sequence.loaded
                &&& after.pending is None
                &&& after.site_id == sequence.site_id
                &&& after.refusals == sequence.refusals
                &&& after.failures.len() == sequence.failures.len() + 1
                &&& after.failures.last().path == path
                &&& after.failures.last().note == reason
                &&& after.failures.drop_last() == sequence.failures
                &&& own_frame(sequence, file) is None
            }
            &&& skipped(sequence, file) is None ==> {
                &&& after.loaded == sequence.loaded + 1
                &&& after.level1_files == sequence.level1_files + (if file.level_one {
                    1int
                } else {
                    0int
                })
                &&& after.failures == sequence.failures
                &&& after.site_id == (match sequence.site_id {
                    Some(first) => Some(first),
                    None => Some(trimmed(file.site)),
                })
                &&& file.refusal is None ==> after.refusals == sequence.refusals
                &&& file.refusal matches Some(reason) ==> after.refusals.len()
                    == sequence.refusals.len() + 1 && after.refusals.last().path == path
                    && after.refusals.last().note == reason
                &&& file.membership is None ==> own_frame(sequence, file) == Some(file.frame)
                    && after.pending is None
                &&& (file.membership matches Some(member) && (member.joined is None
                    || sequence.pending is None)) ==> (after.pending matches Some(now)
                    && now.frame == file.frame && now.member_count == 1 && now.volume_sequence == (
                file.membership->0).volume_sequence)
            }
        }),
{
    let failures = decoded(sequence, file).failures;
    if skipped(sequence, file) is Some {
        assert(failures.drop_last() =~= sequence.failures);
    }
}

/// What a playlist is left with, and what it has put on the timeline, after
/// files decoded one after the other.
pub open spec fn playlist_run(sequence: SequenceView, files: Seq<DecodedView>) -> (
    SequenceView,
    Seq<FrameView>,
)
    decreases files.len(),
{
    if files.len() == 0 {
        (sequence, Seq::empty())
    } else {
        let before = playlist_run(sequence, files.drop_last());
        let file = files.last();
        let ended = match scan_ended(before.0, file) {
            Some(frame) => before.1.push(frame),
            None => before.1,
        };
        (
            decoded(before.0, file),
            match own_frame(before.0, file) {
                Some(frame) => ended.push(frame),
                None => ended,
            },
        )
    }
}

/// A playlist leaves as many frames as it has scans: what it has put on the
/// timeline, and the scan that still waits, number exactly the scans that the
/// files make: one for each file that is a scan of its own, and one for each run
/// of files that were proven to belong together.
pub proof fn law_every_scan_reaches_the_timeline(
    paths: Seq<Seq<char>>,
    estimate: EstimateView,
    files: Seq<DecodedView>,
)
    requires
        files.len() <= usize::MAX,
        paths.len() <= usize::MAX,
    ensures
        ({
            let run = playlist_run(new_sequence(paths, estimate), files);
            let begins = |i: int|
                {
                    let before = playlist_run(new_sequence(paths, estimate), files.take(i)).0;
                    skipped(before, files[i]) is None && !(before.pending is Some && (
                    files[i].membership matches Some(member) && member.joined is Some))
                };
            &&& run.1.len() + (if run.0.pending is Some {
                1int
            } else {
                0int
            }) == count_where(files.len(), begins)
            &&& run.1.len() + (if run.0.pending is Some {
                1int
            } else {
                0int
            }) == crate::sequence::logical_count(run.0)
            &&& flushed_frame(run.0) == (match run.0.pending {
                Some(waiting) => Some(waiting.frame),
                None => None,
            })
        }),
        crate::sequence::sequence_wf(playlist_run(new_sequence(paths, estimate), files).0),
        playlist_run(new_sequence(paths, estimate), files).0.loaded <= files.len(),
    decreases files.len(),
{
    let begins = |i: int|
        {
            let before = playlist_run(new_sequence(paths, estimate), files.take(i)).0;
            skipped(before, files[i]) is None && !(before.pending is Some && (
            files[i].membership matches Some(member) && member.joined is Some))
        };
    if files.len() > 0 {
        let rest = files.drop_last();
        law_every_scan_reaches_the_timeline(paths, estimate, rest);
        let earlier = |i: int|
            {
                let before = playlist_run(new_sequence(paths, estimate), rest.take(i)).0;
                skipped(before, rest[i]) is None && !(before.pending is Some && (
                rest[i].membership matches Some(member) && member.joined is Some))
            };
        assert forall|i: int| 0 <= i < rest.len() implies #[trigger] begins(i) == #[trigger] earlier(i) by {
            assert(files.take(i) =~= rest.take(i));
        }
        lemma_count_where(rest.len(), begins, earlier);
        assert(files.take(files.len() - 1) =~= rest);
        let before = playlist_run(new_sequence(paths, estimate), rest).0;
        let after = decoded(before, files.last());
        crate::sequence::law_scans_are_counted_exactly(before);
        crate::sequence::law_scans_are_counted_exactly(after);
    }
}

/// How many of the first numbers a test holds of.
pub open spec fn count_where(count: nat, test: spec_fn(int) -> bool) -> int
    decreases count,
{
    if count == 0 {
        0
    } else {
        count_where((count - 1) as nat, test) + (if test(count - 1) {
            1int
        } else {
            0int
        })
    }
}

proof fn lemma_count_where(count: nat, one: spec_fn(int) -> bool, other: spec_fn(int) -> bool)
    requires
        forall|i: int| 0 <= i < count ==> #[trigger] one(i) == #[trigger] other(i),
    ensures
        count_where(count, one) == count_where(count, other),
    decreases count,
{
    if count > 0 {
        lemma_count_where((count - 1) as nat, one, other);
    }
}

impl WorkstationApp {
    /// Takes a file of the playlist that decoded, and gives the frames to put on
    /// the timeline: the scan that ended, then the file's own.
    pub fn finish_sequence_volume(&mut self, file: DecodedFile) -> (frames: (
        Option<VolumeFrame>,
        Option<VolumeFrame>,
    ))
        requires
            app_wf(old(self)@),
            old(self)@.playlist.sequence matches Some(sequence) && sequence.loaded < usize::MAX,
        ensures
            app_wf(final(self)@),
            ({
                let sequence = old(self)@.playlist.sequence->0;
                &&& final(self)@ == (AppView {
                    playlist: PlaylistView {
                        sequence: Some(decoded(sequence, file@)),
                        ..old(self)@.playlist
                    },
                    ..old(self)@
                })
                &&& frame_view(frames.0) == scan_ended(sequence, file@)
                &&& frame_view(frames.1) == own_frame(sequence, file@)
            }),
    {
        match self.playlist.sequence.take() {
            None => (None, None),
            Some(mut sequence) => {
                let site = trim(file.site.as_str());
                match sequence.refuse_radar(site.as_str(), file.same_position) {
                    Some(reason) => {
                        let ended = sequence.flush_pending_sweep_assembly();
                        sequence.note_failure(reason);
                        self.playlist.sequence = Some(sequence);
                        (ended, None)
                    },
                    None => {
                        sequence.count_decoded(site, file.level_one, file.refusal);
                        match file.membership {
                            Some(member) => {
                                let ended = sequence.accept_proven_sweep_member(
                                    file.frame,
                                    member.volume_sequence,
                                    member.joined,
                                );
                                self.playlist.sequence = Some(sequence);
                                (ended, None)
                            },
                            None => {
                                let ended = sequence.flush_pending_sweep_assembly();
                                self.playlist.sequence = Some(sequence);
                                (ended, Some(file.frame))
                            },
                        }
                    },
                }
            },
        }
    }

    /// Puts a frame of the playlist on the timeline, beside other sources of the
    /// same scan; its pulses do not outlive that.
    pub fn install_sequence_frame(&mut self, loaded: LoadedVolume, moved: &Vec<usize>)
        requires
            app_wf(old(self)@),
            panes_wf(moved@),
        ensures
            final(self)@ == sequence_frame_installed(old(self)@, loaded@, moved@),
            app_wf(final(self)@),
    {
        let report = self.install_distinct_loaded_volume(loaded, moved);
        if let Some(told) = report {
            match self.playlist.sequence.take() {
                None => {},
                Some(mut sequence) => {
                    sequence.note_evictions(told.evicted);
                    self.playlist.sequence = Some(sequence);
                },
            }
        }
        self.pulses = None;
    }

    /// Finishes the playlist and says what came of it.
    pub fn finish_file_sequence(&mut self)
        requires
            app_wf(old(self)@),
        ensures
            final(self)@ == playlist_finished(old(self)@),
            app_wf(final(self)@),
    {
        let retained: usize = self.display.history.len();
        match self.playlist.sequence.take() {
            None => {},
            Some(sequence) => {
                self.playlist.status = Some(sequence.completion(retained));
                self.playlist.detail = Some(sequence.completion_hover());
                self.pulses = None;
                if self.display.history.is_empty() {
                    self.display.board.clear_all_panes();
                }
            },
        }
    }
}

/// The workstation after a frame of its playlist was put on the timeline.
pub open spec fn sequence_frame_installed(app: AppView, loaded: LoadedView, moved: Seq<usize>) -> AppView {
    let after = volume_arrived(app, loaded, moved, true);
    AppView {
        playlist: if loaded.generation == app.display.board.session {
            PlaylistView {
                sequence: match after.playlist.sequence {
                    Some(sequence) => Some(
                        SequenceView {
                            evicted_frames: plus(
                                sequence.evicted_frames as int,
                                crate::history::install_report(
                                    app.display.history,
                                    loaded.frame,
                                    true,
                                ).evicted as int,
                            ) as usize,
                            ..sequence
                        },
                    ),
                    None => None,
                },
                ..after.playlist
            }
        } else {
            after.playlist
        },
        pulses: None,
        ..after
    }
}

// ---------------------------------------------------------------------------
// What the decoder says
// ---------------------------------------------------------------------------

/// Where a decoded volume goes.
#[derive(Clone, Copy, Debug, PartialEq, Eq, Structural)]
pub enum VolumeRoute {
    /// It is of another session, or a preview a playlist does not want.
    Ignore,
    Playlist,
    Install,
}

/// Where a decoded volume goes. A playlist waits for each file's last answer.
pub open spec fn route_of(app: AppView, generation: Generation, stage: FrameStage) -> VolumeRoute {
    if generation != app.display.board.session {
        VolumeRoute::Ignore
    } else if app.playlist.sequence is Some {
        if stage == FrameStage::Complete {
            VolumeRoute::Playlist
        } else {
            VolumeRoute::Ignore
        }
    } else {
        VolumeRoute::Install
    }
}

/// What a decode that failed comes to.
#[derive(Clone, Copy, Debug, PartialEq, Eq, Structural)]
pub enum FailureRoute {
    /// It is of another session.
    Ignore,
    /// It is the playlist's to record.
    Playlist,
    /// It was told.
    Told,
}

/// The workstation after a decode failed outside a playlist: it says so, and
/// blanks the panes only where nothing is kept.
pub open spec fn failure_told(app: AppView, label: Seq<char>, message: Seq<char>) -> AppView {
    AppView {
        status: label + ": "@ + message,
        display: if app.display.history.frames.len() == 0 {
            DisplayView { board: all_cleared(app.display.board), ..app.display }
        } else {
            app.display
        },
        ..app
    }
}

/// A decode that fails never takes a picture away from a session that has a
/// frame.
pub proof fn law_a_failed_decode_never_blanks_a_frame(
    app: AppView,
    label: Seq<char>,
    message: Seq<char>,
)
    requires
        app.display.history.frames.len() > 0,
    ensures
        failure_told(app, label, message).display == app.display,
{
}

impl WorkstationApp {
    /// Takes note that a decode began.
    pub fn note_load_started(&mut self, generation: Generation, label: &str)
        requires
            app_wf(old(self)@),
        ensures
            final(self)@ == (if generation == old(self)@.display.board.session {
                AppView {
                    status: "Decoding "@ + label@,
                    ..playlist_told(old(self)@, "decoding"@)
                }
            } else {
                old(self)@
            }),
            app_wf(final(self)@),
    {
        if generation == self.display.board.session_clock.current() {
            self.update_sequence_status("decoding");
            let mut status = "Decoding ".to_owned();
            status.append(label);
            self.status = status;
        }
    }

    /// Where a decoded volume goes.
    pub fn route_volume(&self, generation: Generation, stage: FrameStage) -> (route: VolumeRoute)
        ensures
            route == route_of(self@, generation, stage),
    {
        if generation != self.display.board.session_clock.current() {
            VolumeRoute::Ignore
        } else if self.playlist.sequence.is_some() {
            if stage == FrameStage::Complete {
                VolumeRoute::Playlist
            } else {
                VolumeRoute::Ignore
            }
        } else {
            VolumeRoute::Install
        }
    }

    /// Says that a decode failed.
    pub fn handle_load_failure(&mut self, label: &str, message: &str)
        requires
            app_wf(old(self)@),
        ensures
            final(self)@ == failure_told(old(self)@, label@, message@),
            app_wf(final(self)@),
    {
        let mut status = label.to_owned();
        status.append(": ");
        status.append(message);
        self.status = status;
        if self.display.history.is_empty() {
            self.display.board.clear_all_panes();
        }
    }

    /// Takes a decode that failed.
    pub fn take_load_failure(&mut self, generation: Generation, label: &str, message: &str) -> (route:
        FailureRoute)
        requires
            app_wf(old(self)@),
        ensures
            app_wf(final(self)@),
            route == (if generation != old(self)@.display.board.session {
                FailureRoute::Ignore
            } else if old(self)@.playlist.sequence is Some {
                FailureRoute::Playlist
            } else {
                FailureRoute::Told
            }),
            final(self)@ == (if route == FailureRoute::Told {
                failure_told(old(self)@, label@, message@)
            } else {
                old(self)@
            }),
    {
        if generation != self.display.board.session_clock.current() {
            FailureRoute::Ignore
        } else if self.playlist.sequence.is_some() {
            FailureRoute::Playlist
        } else {
            self.handle_load_failure(label, message);
            FailureRoute::Told
        }
    }
}

// ---------------------------------------------------------------------------
// Live
// ---------------------------------------------------------------------------

/// The workstation at the beginning of a live session, before the service said
/// whether it runs.
pub open spec fn live_begun(app: AppView, configured: HistoryPolicy) -> AppView {
    AppView {
        display: display_begun(app.display, live_policy(configured)),
        playlist: no_playlist(),
        planner: plan_cancelled(app.planner),
        follow: forgotten(),
        live: LiveSessionView { feed: None, ..app.live },
        load_ms: None,
        ..app
    }
}

/// The name a live session goes by.
pub open spec fn live_label(site: Seq<char>) -> Seq<char> {
    unicode_uppercase(trimmed(site))
}

/// The workstation after the live session was stopped.
pub open spec fn live_stopped(app: AppView) -> AppView {
    AppView {
        display: DisplayView {
            board: BoardView {
                session: next_generation(app.display.board.session),
                ..app.display.board
            },
            ..app.display
        },
        live: LiveSessionView { site: None, status: Seq::empty(), feed: None },
        follow: forgotten(),
        status: "Live session stopped"@,
        ..app
    }
}

/// A live session is bounded whatever is configured, and begins with nothing
/// known of its feed.
pub proof fn law_a_live_session_begins_bounded(app: AppView, configured: HistoryPolicy)
    ensures
        live_begun(app, configured).display.history.policy.max_frames > 0,
        live_begun(app, configured).display.history.policy.max_estimated_bytes > 0,
        live_begun(app, configured).live.feed is None,
        live_begun(app, configured).display.history.frames.len() == 0,
{
    crate::history::law_a_live_session_is_bounded(configured);
}

/// What the live service says.
pub enum LiveUpdate {
    Started { generation: Generation, site: String },
    /// The feed's report of itself.
    FeedStatus {
        generation: Generation,
        site: String,
        newest_volume_time: Moment,
        freshness: FeedFreshness,
    },
    /// A volume was transferred; `when` is its time in the analyst's words.
    VolumeReady {
        generation: Generation,
        site: String,
        path: String,
        stage: FrameStage,
        when: String,
        chunk_count: usize,
        total_size: u64,
        cache_hit: bool,
    },
    Failed { generation: Generation, site: String, message: String },
    Stopped,
}

/// The workstation after the live service said something.
pub open spec fn live_told(app: AppView, update: LiveUpdate) -> AppView {
    let session = app.display.board.session;
    match update {
        LiveUpdate::Started { generation, site } => if generation == session {
            AppView {
                status: "Live "@ + site@,
                live: LiveSessionView { status: "waiting for volume"@, ..app.live },
                ..app
            }
        } else {
            app
        },
        LiveUpdate::FeedStatus { generation, site, newest_volume_time, freshness } => if generation
            == session {
            AppView {
                live: LiveSessionView {
                    feed: Some(FeedView { site: site@, newest_volume_time, freshness }),
                    ..app.live
                },
                ..app
            }
        } else {
            app
        },
        LiveUpdate::VolumeReady { generation, chunk_count, total_size, cache_hit, .. } => if generation
            == session {
            AppView {
                live: LiveSessionView {
                    status: transfer_text(chunk_count as nat, total_size as nat, cache_hit),
                    ..app.live
                },
                ..app
            }
        } else {
            app
        },
        LiveUpdate::Failed { generation, site, message } => if generation == session {
            AppView {
                status: site@ + ": "@ + message@,
                live: LiveSessionView { status: "error"@, ..app.live },
                ..app
            }
        } else {
            app
        },
        LiveUpdate::Stopped => AppView {
            live: LiveSessionView { status: Seq::empty(), feed: None, ..app.live },
            ..app
        },
    }
}

/// What to decode after the live service said something.
pub open spec fn live_request(app: AppView, update: LiveUpdate) -> Option<RequestView> {
    match update {
        LiveUpdate::VolumeReady { generation, site, path, stage, when, .. } => if generation
            == app.display.board.session {
            Some(
                RequestView {
                    generation,
                    path: path@,
                    origin: FrameOrigin::Live,
                    final_stage: stage,
                    source_label: site@ + " "@ + when@,
                    iq_controls: app.settings_cache.iq_controls,
                },
            )
        } else {
            None
        },
        _ => None,
    }
}

/// Only the feed's own report says how fresh it is: a volume that is ready, a
/// failure or a start leave the report as it was.
pub proof fn law_only_a_report_changes_the_feed(app: AppView, update: LiveUpdate)
    requires
        update !is FeedStatus,
        update !is Stopped,
    ensures
        live_told(app, update).live.feed == app.live.feed,
{
}

impl WorkstationApp {
    /// Begins a live session of a radar. Gives its generation and the name it
    /// goes by; the service is started with them.
    pub fn start_live(&mut self, site: &str, configured: HistoryPolicy) -> (begun: (
        Generation,
        String,
    ))
        requires
            app_wf(old(self)@),
        ensures
            final(self)@ == live_begun(old(self)@, configured),
            app_wf(final(self)@),
            begun.0 == final(self)@.display.board.session,
            begun.1@ == live_label(site@),
    {
        self.playlist.sequence = None;
        self.planner.cancel();
        self.playlist.status = None;
        self.playlist.detail = None;
        self.display.vrot.mark_stale(StaleReason::DifferentSite);
        let generation = self.display.board.note_session_change();
        self.display.history.clear();
        self.follow.reset_live_follow_state();
        let _ = self.display.history.set_policy(live_history_policy(configured));
        self.load_ms = None;
        self.live.feed = None;
        assert(self@.display.history.frames =~= Seq::empty());
        (generation, uppercase(trim(site).as_str()))
    }

    /// Records what the live service said to being started.
    pub fn note_live_start(&mut self, started: Result<String, String>)
        requires
            app_wf(old(self)@),
        ensures
            app_wf(final(self)@),
            final(self)@ == (match started {
                Ok(label) => AppView {
                    status: "Starting live "@ + label@,
                    live: LiveSessionView {
                        site: Some(label@),
                        status: "connecting"@,
                        ..old(self)@.live
                    },
                    ..old(self)@
                },
                Err(message) => AppView {
                    status: message@,
                    live: LiveSessionView {
                        site: None,
                        status: Seq::empty(),
                        ..old(self)@.live
                    },
                    ..old(self)@
                },
            }),
    {
        match started {
            Ok(label) => {
                let mut status = "Starting live ".to_owned();
                status.append(label.as_str());
                self.status = status;
                self.live.status = "connecting".to_owned();
                self.live.site = Some(label);
            },
            Err(message) => {
                self.status = message;
                self.live.status = String::new();
                self.live.site = None;
                assert(self@.live.status =~= Seq::empty());
            },
        }
    }

    /// Stops the live session: what is on its way cannot be installed any more.
    pub fn stop_live(&mut self)
        requires
            app_wf(old(self)@),
        ensures
            final(self)@ == live_stopped(old(self)@),
            app_wf(final(self)@),
    {
        let _ = self.display.board.session_clock.bump();
        self.live.site = None;
        self.live.status = String::new();
        self.follow.reset_live_follow_state();
        self.live.feed = None;
        self.status = "Live session stopped".to_owned();
        assert(self@.live.status =~= Seq::empty());
    }

    /// Takes what the live service said, and gives what to decode.
    pub fn take_live_update(&mut self, update: LiveUpdate) -> (request: Option<LoadRequest>)
        requires
            app_wf(old(self)@),
        ensures
            final(self)@ == live_told(old(self)@, update),
            app_wf(final(self)@),
            match (request, live_request(old(self)@, update)) {
                (Some(asked), Some(expected)) => asked@ == expected,
                (None, None) => true,
                _ => false,
            },
    {
        let session = self.display.board.session_clock.current();
        match update {
            LiveUpdate::Started { generation, site } => {
                if generation == session {
                    let mut status = "Live ".to_owned();
                    status.append(site.as_str());
                    self.status = status;
                    self.live.status = "waiting for volume".to_owned();
                }
                None
            },
            LiveUpdate::FeedStatus { generation, site, newest_volume_time, freshness } => {
                if generation == session {
                    self.live.feed = Some(LiveFeed { site, newest_volume_time, freshness });
                }
                None
            },
            LiveUpdate::VolumeReady {
                generation,
                site,
                path,
                stage,
                when,
                chunk_count,
                total_size,
                cache_hit,
            } => {
                if generation != session {
                    return None;
                }
                self.live.status = transfer_status(chunk_count, total_size, cache_hit);
                let mut source_label = site;
                source_label.append(" ");
                source_label.append(when.as_str());
                Some(
                    LoadRequest {
                        generation,
                        path,
                        origin: FrameOrigin::Live,
                        final_stage: stage,
                        source_label,
                        iq_controls: self.settings_cache.iq_controls,
                    },
                )
            },
            LiveUpdate::Failed { generation, site, message } => {
                if generation == session {
                    let mut status = site;
                    status.append(": ");
                    status.append(message.as_str());
                    self.status = status;
                    self.live.status = "error".to_owned();
                }
                None
            },
            LiveUpdate::Stopped => {
                self.live.status = String::new();
                self.live.feed = None;
                assert(self@.live.status =~= Seq::empty());
                None
            },
        }
    }
}

// ---------------------------------------------------------------------------
// Laws of sessions
// ---------------------------------------------------------------------------

/// What beginning a local session changes: nothing is on the timeline, which
/// follows what comes under the policy given; the live session, the plan, the
/// follower's memory and the last decode's time are gone. What the analyst set up
/// stays: the layout and what each pane is asked for, the tools, the exporter, the
/// settings.
pub proof fn law_what_beginning_a_session_changes(app: AppView, policy: HistoryPolicy, pane: int)
    requires
        app_wf(app),
        0 <= pane < crate::panes::MAX_PANES,
    ensures
        ({
            let begun = local_session_begun(app, policy);
            &&& begun.display.history.frames.len() == 0
            &&& begun.display.history.follows_live
            &&& begun.display.history.playback == PlaybackState::Paused
            &&& begun.display.history.policy == policy
            &&& begun.display.board == session_changed(app.display.board)
            &&& begun.display.vrot.active == app.display.vrot.active
            &&& begun.follow.last_scan[pane] is None
            &&& begun.follow.manual_hold[pane] is None
            &&& begun.planner.pending is None
            &&& begun.planner.confirmation is None
            &&& begun.live.site is None
            &&& begun.live.feed is None
            &&& app.live.site is Some ==> begun.live.status.len() == 0
            &&& app.live.site is None ==> begun.live.status == app.live.status
            &&& begun.load_ms is None
            &&& begun.workspace == app.workspace
            &&& begun.exporter == app.exporter
            &&& begun.playlist == app.playlist
            &&& begun.pulses == app.pulses
            &&& begun.fallback == app.fallback
            &&& begun.status == app.status
            &&& begun.source_path == app.source_path
            &&& begun.tools == app.tools
            &&& begun.settings_cache == app.settings_cache
        }),
{
}

/// What asking for files does. One file is asked for as itself, with no playlist;
/// several make a playlist of exactly those, in the order given, of which the
/// first is asked for.
pub proof fn law_what_asking_for_files_does(
    app: AppView,
    paths: Seq<Seq<char>>,
    estimate: EstimateView,
    policy: HistoryPolicy,
)
    requires
        paths.len() > 0,
    ensures
        ({
            let after = files_begun(app, paths, estimate, policy);
            &&& after.source_path == paths[0]
            &&& after.status == "Loading "@ + paths[0]
            &&& after.display.history.frames.len() == 0
            &&& after.planner.confirmation is None
            &&& paths.len() == 1 ==> after.playlist == (PlaylistView {
                sequence: None,
                status: None,
                detail: None,
            })
            &&& paths.len() > 1 ==> {
                &&& after.playlist.sequence matches Some(sequence)
                &&& sequence.paths == paths
                &&& sequence.next == 1
                &&& sequence.loaded == 0
                &&& sequence.failures.len() == 0
                &&& sequence.pending is None
                &&& sequence.site_id is None
                &&& sequence.assembled_files == 0
                &&& sequence.assembled_groups == 0
                &&& sequence.refusals.len() == 0
                &&& sequence.evicted_frames == 0
                &&& sequence.level1_files == 0
                &&& sequence.input_size_text == estimate.input_size_text
                &&& sequence.estimated_decoded_bytes == estimate.estimated_decoded_bytes
                &&& after.playlist.status is Some
                &&& after.playlist.detail is Some
            }
        }),
{
}

/// What a playlist does next: it asks for the file that comes next, in this
/// session and with the settings of now, and when none is left it hands over the
/// scan that still waits, so that nothing waits any more.
pub proof fn law_what_a_playlist_does_next(app: AppView)
    ensures
        app.playlist.sequence is None ==> next_step(app) is Nothing && next_asked(app) == app,
        app.playlist.sequence matches Some(sequence) ==> {
            let after = next_asked(app);
            &&& sequence.next < sequence.paths.len() ==> {
                &&& next_step(app) matches NextView::Load(request)
                &&& request.path == sequence.paths[sequence.next]
                &&& request.source_label == sequence.paths[sequence.next]
                &&& request.generation == app.display.board.session
                &&& request.origin == FrameOrigin::Local
                &&& request.final_stage == FrameStage::Complete
                &&& request.iq_controls == app.settings_cache.iq_controls
                &&& after.status == "Loading "@ + sequence.paths[sequence.next]
                &&& after.playlist.sequence matches Some(asked)
                &&& asked == (SequenceView { next: sequence.next + 1, ..sequence })
            }
            &&& sequence.next >= sequence.paths.len() ==> {
                &&& next_step(app) == NextView::Ended(
                    match sequence.pending {
                        Some(waiting) => Some(waiting.frame),
                        None => None,
                    },
                )
                &&& after.playlist.sequence matches Some(ended)
                &&& ended.pending is None
                &&& ended.loaded == sequence.loaded
                &&& ended.failures == sequence.failures
                &&& after.status == app.status
            }
            &&& after.display == app.display
            &&& after.live == app.live
            &&& after.planner == app.planner
            &&& after.workspace == app.workspace
        },
{
}

/// Every file that was answered is in the account once: as many decoded and as
/// many failed, together, as there were answers.
pub proof fn law_every_answer_is_in_the_account(sequence: SequenceView, files: Seq<DecodedView>)
    ensures
        ({
            let after = playlist_run(sequence, files).0;
            &&& after.loaded + after.failures.len() == sequence.loaded + sequence.failures.len()
                + files.len()
            &&& after.paths == sequence.paths
            &&& after.next == sequence.next
        }),
    decreases files.len(),
{
    if files.len() > 0 {
        law_every_answer_is_in_the_account(sequence, files.drop_last());
    }
}

/// When a playlist is over it says so, drops the pulses, and blanks the panes only
/// where it left nothing on the timeline.
pub proof fn law_how_a_playlist_ends(app: AppView, pane: int)
    requires
        app_wf(app),
        0 <= pane < crate::panes::MAX_PANES,
        app.playlist.sequence is Some,
    ensures
        ({
            let after = playlist_finished(app);
            &&& after.playlist.sequence is None
            &&& after.playlist.status is Some
            &&& after.playlist.detail is Some
            &&& after.pulses is None
            &&& after.display.history == app.display.history
            &&& after.display.vrot == app.display.vrot
            &&& app.display.history.frames.len() > 0 ==> after.display.board == app.display.board
            &&& app.display.history.frames.len() == 0
                ==> after.display.board.panes[pane].texture is None
            &&& after.status == app.status
            &&& after.live == app.live
            &&& after.workspace == app.workspace
        }),
{
}

/// A frame of the playlist goes on the timeline beside other sources of the same
/// scan, what it displaces is added to the playlist's account, and its pulses go.
pub proof fn law_a_playlist_frame_is_installed(app: AppView, loaded: LoadedView, moved: Seq<usize>)
    requires
        app_wf(app),
        loaded.generation == app.display.board.session,
        app.playlist.sequence is Some,
    ensures
        ({
            let after = sequence_frame_installed(app, loaded, moved);
            let report = crate::history::install_report(app.display.history, loaded.frame, true);
            &&& after.display.history == crate::history::installed(
                app.display.history,
                loaded.frame,
                true,
            )
            &&& after.pulses is None
            &&& after.playlist.sequence matches Some(now)
            &&& now == (SequenceView {
                evicted_frames: now.evicted_frames,
                ..app.playlist.sequence->0
            })
            &&& app.playlist.sequence->0.evicted_frames + report.evicted <= usize::MAX
                ==> now.evicted_frames == app.playlist.sequence->0.evicted_frames + report.evicted
        }),
{
}

/// Where an answer of the decoder goes: one of another session nowhere; in a
/// playlist, the last answer of a file to the playlist and an earlier one nowhere;
/// else on the timeline.
pub proof fn law_where_an_answer_goes(app: AppView, generation: Generation, stage: FrameStage)
    ensures
        ({
            let route = route_of(app, generation, stage);
            let current = generation == app.display.board.session;
            &&& route is Install <==> current && app.playlist.sequence is None
            &&& route is Playlist <==> current && app.playlist.sequence is Some && stage
                == FrameStage::Complete
            &&& route is Ignore <==> !current || (app.playlist.sequence is Some && stage
                != FrameStage::Complete)
        }),
{
}

/// What beginning and stopping a live session change. Beginning drops the
/// timeline, the playlist and the plan, and keeps the analyst's panes; stopping
/// keeps the timeline and every picture, and lets no answer of the session in any
/// more.
pub proof fn law_what_live_begins_and_stops(app: AppView, configured: HistoryPolicy)
    ensures
        ({
            let begun = live_begun(app, configured);
            &&& begun.display.history.frames.len() == 0
            &&& begun.display.history.follows_live
            &&& begun.display.board == session_changed(app.display.board)
            &&& begun.playlist.sequence is None
            &&& begun.playlist.status is None
            &&& begun.playlist.detail is None
            &&& begun.planner.pending is None
            &&& begun.planner.confirmation is None
            &&& begun.live.feed is None
            &&& begun.live.site == app.live.site
            &&& begun.live.status == app.live.status
            &&& begun.load_ms is None
            &&& begun.workspace == app.workspace
            &&& begun.tools == app.tools
            &&& begun.exporter == app.exporter
            &&& begun.status == app.status
            &&& begun.settings_cache == app.settings_cache
        }),
        ({
            let stopped = live_stopped(app);
            &&& stopped.display.history == app.display.history
            &&& stopped.display.vrot == app.display.vrot
            &&& stopped.display.board.panes == app.display.board.panes
            &&& stopped.display.board.frame == app.display.board.frame
            &&& stopped.display.board.palette == app.display.board.palette
            &&& stopped.display.board.session != app.display.board.session
            &&& stopped.live.site is None
            &&& stopped.live.feed is None
            &&& stopped.live.status.len() == 0
            &&& stopped.status == "Live session stopped"@
            &&& stopped.playlist == app.playlist
            &&& stopped.planner == app.planner
            &&& stopped.workspace == app.workspace
        }),
{
}

/// The reading that a report of a live session belongs to, where it has one.
pub open spec fn update_generation(update: LiveUpdate) -> Option<Generation> {
    match update {
        LiveUpdate::Started { generation, .. } => Some(generation),
        LiveUpdate::FeedStatus { generation, .. } => Some(generation),
        LiveUpdate::VolumeReady { generation, .. } => Some(generation),
        LiveUpdate::Failed { generation, .. } => Some(generation),
        LiveUpdate::Stopped => None,
    }
}

/// What a report of a live session does. One of another session does nothing and
/// asks for nothing. A volume that is ready, and nothing else, is asked for: the
/// file, stage and settings are its own, and it goes by the radar and the time. No
/// report touches the screen, the playlist or the plan.
pub proof fn law_what_a_live_report_does(app: AppView, update: LiveUpdate)
    ensures
        ({
            let after = live_told(app, update);
            let asked = live_request(app, update);
            let foreign = update_generation(update) matches Some(generation) && generation
                != app.display.board.session;
            &&& foreign ==> after == app && asked is None
            &&& asked is Some <==> update is VolumeReady && !foreign
            &&& after.display == app.display
            &&& after.playlist == app.playlist
            &&& after.planner == app.planner
            &&& after.workspace == app.workspace
            &&& after.follow == app.follow
            &&& after.tools == app.tools
            &&& after.live.site == app.live.site
            &&& asked matches Some(request) ==> {
                &&& request.generation == app.display.board.session
                &&& request.path == update->path@
                &&& request.origin == FrameOrigin::Live
                &&& request.final_stage == update->stage
                &&& request.source_label == update->VolumeReady_site@ + " "@ + update->when@
                &&& request.iq_controls == app.settings_cache.iq_controls
            }
            &&& update is Started && !foreign ==> after.status == "Live "@ + update->Started_site@
                && after.live.status == "waiting for volume"@
            &&& update is FeedStatus && !foreign ==> after.live.feed == Some(
                FeedView {
                    site: update->FeedStatus_site@,
                    newest_volume_time: update->newest_volume_time,
                    freshness: update->freshness,
                },
            ) && after.status == app.status && after.live.status == app.live.status
            &&& update is Failed && !foreign ==> after.status == update->Failed_site@ + ": "@
                + update->message@ && after.live.status == "error"@
            &&& update is Stopped ==> after.live.feed is None && after.live.status.len() == 0
                && after.status == app.status
        }),
{
}

/// What a failed decode does: it is told, and the panes are blanked only where the
/// timeline is empty.
pub proof fn law_what_a_failed_decode_does(
    app: AppView,
    label: Seq<char>,
    message: Seq<char>,
    pane: int,
)
    requires
        app_wf(app),
        0 <= pane < crate::panes::MAX_PANES,
    ensures
        ({
            let after = failure_told(app, label, message);
            &&& after.status == label + ": "@ + message
            &&& after.display.history == app.display.history
            &&& after.display.vrot == app.display.vrot
            &&& app.display.history.frames.len() > 0 ==> after.display == app.display
            &&& app.display.history.frames.len() == 0
                ==> after.display.board.panes[pane].texture is None
            &&& after.live == app.live
            &&& after.playlist == app.playlist
            &&& after.pulses == app.pulses
            &&& after.workspace == app.workspace
        }),
{
}

/// A local file is asked for as itself: by its own path, in this session, whole,
/// and with the settings of now. Asking for it alone ends any playlist.
pub proof fn law_how_a_local_file_is_asked_for(
    app: AppView,
    path: Seq<char>,
    policy: HistoryPolicy,
)
    ensures
        ({
            let request = local_request(app, path);
            &&& request.generation == app.display.board.session
            &&& request.path == path
            &&& request.source_label == path
            &&& request.origin == FrameOrigin::Local
            &&& request.final_stage == FrameStage::Complete
            &&& request.iq_controls == app.settings_cache.iq_controls
        }),
        ({
            let after = file_asked(app, path, policy);
            &&& after.playlist.sequence is None
            &&& after.playlist.status is None
            &&& after.playlist.detail is None
            &&& after.source_path == path
            &&& after.status == "Loading "@ + path
            &&& after.display.board.session != app.display.board.session
            &&& after.display.history.frames.len() == 0
            &&& after.display.history.policy == policy
        }),
{
}

} // verus!
