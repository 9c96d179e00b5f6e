//! What is on screen: the timeline, the panes that draw it, and the measurement
//! made on it. A change of frame reaches all three.

use crate::frame::{same_signature, FrameSignature};
use crate::history::{PlaybackState, VolumeHistory};
use crate::panes::PaneBoard;
use crate::vrot::{StaleReason, VrotTool};
use vstd::prelude::*;

verus! {

use crate::frame::{signature_view, SignatureView};
use crate::history::{
    advanced, current_signature, gone_live, history_wf, selected_at, HistoryView,
};
use crate::panes::{all_ready, board_wf, frame_changed, panes_wf, BoardView};
use crate::vrot::made_stale;

/// How soon to look again at panes that are not ready, in milliseconds.
pub const PANE_WAIT_MS: u64 = 16;

/// What is on screen.
pub struct Display {
    pub history: VolumeHistory,
    pub board: PaneBoard,
    pub vrot: VrotTool,
}

/// What is on screen, as contracts see it.
pub ghost struct DisplayView {
    pub history: HistoryView,
    pub board: BoardView,
    pub vrot: VrotTool,
}

impl View for Display {
    type V = DisplayView;

    open spec fn view(&self) -> DisplayView {
        DisplayView { history: self.history@, board: self.board@, vrot: self.vrot }
    }
}

/// What holds of every display.
pub open spec fn display_wf(display: DisplayView) -> bool {
    history_wf(display.history) && board_wf(display.board)
}

/// The display after its timeline may have moved from the frame `before`:
/// where another frame is on screen, every picture is stale, none is dropped,
/// and a measurement is retired.
pub open spec fn committed(display: DisplayView, before: Option<SignatureView>) -> DisplayView {
    if current_signature(display.history) != before {
        DisplayView {
            board: frame_changed(display.board),
            vrot: VrotTool {
                state: made_stale(display.vrot.state, StaleReason::NewVolume),
                ..display.vrot
            },
            ..display
        }
    } else {
        display
    }
}

/// The display with its timeline as given, and what follows from that.
pub open spec fn with_history(display: DisplayView, history: HistoryView) -> DisplayView {
    committed(DisplayView { history, ..display }, current_signature(display.history))
}

/// The display with a frame chosen by hand.
pub open spec fn frame_chosen(display: DisplayView, index: int) -> DisplayView {
    with_history(
        display,
        HistoryView {
            playback: PlaybackState::Paused,
            ..selected_at(display.history, index)
        },
    )
}

/// The display taken to the live edge by hand.
pub open spec fn taken_live(display: DisplayView) -> DisplayView {
    with_history(
        display,
        HistoryView { playback: PlaybackState::Paused, ..gone_live(display.history) },
    )
}

/// The display with the loop started, or paused where it ran.
pub open spec fn playback_toggled(display: DisplayView) -> DisplayView {
    DisplayView {
        history: HistoryView {
            playback: if display.history.playback == PlaybackState::Playing {
                PlaybackState::Paused
            } else {
                PlaybackState::Playing
            },
            ..display.history
        },
        ..display
    }
}

/// What a playing timeline does with a moment.
#[derive(Clone, Copy, Debug, PartialEq, Eq, Structural)]
pub enum PlaybackStep {
    /// It does not play.
    Idle,
    /// It waits this many milliseconds.
    Wait(u64),
    /// It moved on.
    Stepped,
}

/// What a playing timeline does: it waits for every pane on screen, then until
/// the frame has been shown long enough, and moves on.
pub open spec fn playback_step(
    display: DisplayView,
    visible: Seq<usize>,
    elapsed_ms: u64,
    frame_ms: u64,
) -> PlaybackStep {
    if display.history.playback != PlaybackState::Playing || display.history.frames.len() < 2 {
        PlaybackStep::Idle
    } else if !all_ready(display.board, visible) {
        PlaybackStep::Wait(PANE_WAIT_MS)
    } else if elapsed_ms < frame_ms {
        PlaybackStep::Wait((frame_ms - elapsed_ms) as u64)
    } else {
        PlaybackStep::Stepped
    }
}

/// The display after a moment of a playing timeline.
pub open spec fn played(
    display: DisplayView,
    visible: Seq<usize>,
    elapsed_ms: u64,
    frame_ms: u64,
) -> DisplayView {
    if playback_step(display, visible, elapsed_ms, frame_ms) is Stepped {
        with_history(display, advanced(display.history))
    } else {
        display
    }
}

/// A change of frame keeps every picture on screen until the next one lands,
/// and retires a finished measurement.
pub proof fn law_a_change_of_frame_holds_the_picture(
    display: DisplayView,
    history: HistoryView,
    pane: int,
)
    requires
        board_wf(display.board),
        0 <= pane < crate::panes::MAX_PANES,
        current_signature(history) != current_signature(display.history),
    ensures
        with_history(display, history).board.panes[pane].texture
            == display.board.panes[pane].texture,
        crate::panes::stamp_of(with_history(display, history).board, pane)
            != crate::panes::stamp_of(display.board, pane),
        with_history(display, history).vrot.state !is Complete,
        with_history(display, history).vrot.state !is AwaitingSecond,
{
    crate::panes::law_frames_hold_and_sessions_blank(display.board, pane);
    crate::vrot::law_going_stale_is_final(
        display.vrot.state,
        StaleReason::NewVolume,
        StaleReason::NewVolume,
    );
}

/// A loop over frames it cannot draw does not stop: once every pane on screen
/// has a terminal answer and the frame's time is up, it moves on.
pub proof fn law_playback_passes_what_cannot_be_drawn(
    display: DisplayView,
    visible: Seq<usize>,
    elapsed_ms: u64,
    frame_ms: u64,
)
    requires
        display.history.playback == PlaybackState::Playing,
        display.history.frames.len() >= 2,
        elapsed_ms >= frame_ms,
        forall|i: int|
            0 <= i < visible.len() ==> {
                let pane = #[trigger] visible[i] as int;
                let runtime = display.board.panes[pane];
                &&& runtime.pending_stamp is None
                &&& runtime.terminal matches Some(terminal) && crate::panes::terminal_stamp(terminal)
                    == crate::panes::stamp_of(display.board, pane)
            },
    ensures
        playback_step(display, visible, elapsed_ms, frame_ms) is Stepped,
        played(display, visible, elapsed_ms, frame_ms).history == advanced(display.history),
{
}

/// Moving the timeline moves nothing else unless another frame, or another stage
/// of the same one, comes on screen; then every pane starts over and a
/// measurement is retired. The tool's settings are not touched.
pub proof fn law_what_moving_the_timeline_touches(display: DisplayView, history: HistoryView)
    ensures
        ({
            let after = with_history(display, history);
            let (old_frame, new_frame) = (
                display.history.frames[display.history.selected],
                history.frames[history.selected],
            );
            let same = (display.history.frames.len() == 0 && history.frames.len() == 0) || (
            display.history.frames.len() > 0 && history.frames.len() > 0 && old_frame.identity
                == new_frame.identity && old_frame.source_label == new_frame.source_label
                && old_frame.stage == new_frame.stage);
            &&& after.history == history
            &&& same ==> after.board == display.board && after.vrot == display.vrot
            &&& !same ==> after.board == frame_changed(display.board)
            &&& !same ==> after.vrot == (VrotTool { state: after.vrot.state, ..display.vrot })
            &&& !same ==> after.vrot.state == made_stale(
                display.vrot.state,
                StaleReason::NewVolume,
            )
        }),
{
}

/// What the analyst's hand does to the timeline: a chosen frame is on screen, the
/// loop rests and the live edge is left; going live puts the last frame on screen
/// and follows what comes; the loop's button turns it on and off and moves nothing.
pub proof fn law_what_the_hand_does_to_the_timeline(display: DisplayView, index: int)
    ensures
        ({
            let chosen = frame_chosen(display, index).history;
            let live = taken_live(display).history;
            let toggled = playback_toggled(display);
            let count = display.history.frames.len();
            &&& chosen.frames == display.history.frames
            &&& chosen.playback == PlaybackState::Paused
            &&& 0 <= index < count ==> chosen.selected == index && !chosen.follows_live
            &&& !(0 <= index < count) ==> chosen.selected == display.history.selected
                && chosen.follows_live == display.history.follows_live
            &&& live.frames == display.history.frames
            &&& live.playback == PlaybackState::Paused
            &&& live.follows_live
            &&& count > 0 ==> live.selected == count - 1
            &&& toggled.history.playback != display.history.playback
            &&& toggled.history.frames == display.history.frames
            &&& toggled.history.selected == display.history.selected
            &&& toggled.history.follows_live == display.history.follows_live
            &&& toggled.board == display.board
            &&& toggled.vrot == display.vrot
            &&& playback_toggled(toggled) == display
        }),
{
}

/// When a playing loop moves: it plays, there are two frames at least, every pane
/// on screen has had its say, and the frame has been there its full time. It then
/// shows the frame after it, and the first after the last. Otherwise nothing moves,
/// and what it waits for is the rest of the frame's time or the panes.
pub proof fn law_when_a_loop_moves(
    display: DisplayView,
    visible: Seq<usize>,
    elapsed_ms: u64,
    frame_ms: u64,
)
    requires
        display_wf(display),
    ensures
        ({
            let step = playback_step(display, visible, elapsed_ms, frame_ms);
            let after = played(display, visible, elapsed_ms, frame_ms);
            let plays = display.history.playback == PlaybackState::Playing
                && display.history.frames.len() >= 2;
            let ready = forall|i: int|
                0 <= i < visible.len() ==> crate::panes::pane_ready(
                    display.board,
                    #[trigger] visible[i] as int,
                );
            &&& step is Idle <==> !plays
            &&& plays && !ready ==> step == PlaybackStep::Wait(16)
            &&& plays && ready && elapsed_ms < frame_ms ==> (step matches PlaybackStep::Wait(rest)
                && elapsed_ms + rest == frame_ms)
            &&& step is Stepped <==> plays && ready && elapsed_ms >= frame_ms
            &&& step !is Stepped ==> after == display
            &&& step is Stepped ==> {
                &&& display.history.selected + 1 < display.history.frames.len()
                    ==> after.history.selected == display.history.selected + 1
                &&& display.history.selected + 1 == display.history.frames.len()
                    ==> after.history.selected == 0
                &&& after.history.frames == display.history.frames
                &&& after.history.playback == PlaybackState::Playing
            }
        }),
{
}

impl Display {
    /// Acts on a timeline that may have moved from the frame `before`.
    pub fn commit_history_selection(&mut self, before: Option<FrameSignature>)
        requires
            display_wf(old(self)@),
        ensures
            final(self)@ == committed(old(self)@, signature_view(before)),
            display_wf(final(self)@),
    {
        let after = self.history.current_frame_signature();
        if !same_signature(&after, &before) {
            self.board.note_frame_change();
            self.vrot.mark_stale(StaleReason::NewVolume);
        }
    }

    /// Puts a frame on screen by hand, and pauses the loop.
    pub fn choose_frame(&mut self, index: usize)
        requires
            display_wf(old(self)@),
        ensures
            final(self)@ == frame_chosen(old(self)@, index as int),
            display_wf(final(self)@),
    {
        let before = self.history.current_frame_signature();
        let _ = self.history.select(index);
        self.history.set_playback(PlaybackState::Paused);
        self.commit_history_selection(before);
    }

    /// Goes to the live edge by hand, and pauses the loop.
    pub fn go_live(&mut self)
        requires
            display_wf(old(self)@),
        ensures
            final(self)@ == taken_live(old(self)@),
            display_wf(final(self)@),
    {
        let before = self.history.current_frame_signature();
        self.history.go_live();
        self.history.set_playback(PlaybackState::Paused);
        self.commit_history_selection(before);
    }

    /// Starts the loop, or pauses it; says whether it plays now.
    pub fn toggle_playback(&mut self) -> (plays: bool)
        requires
            display_wf(old(self)@),
        ensures
            final(self)@ == playback_toggled(old(self)@),
            plays == (final(self)@.history.playback == PlaybackState::Playing),
            display_wf(final(self)@),
    {
        if self.history.playback() == PlaybackState::Playing {
            self.history.set_playback(PlaybackState::Paused);
            false
        } else {
            self.history.set_playback(PlaybackState::Playing);
            true
        }
    }

    /// Gives a playing timeline its moment.
    pub fn advance_playback(&mut self, visible: &Vec<usize>, elapsed_ms: u64, frame_ms: u64) -> (step:
        PlaybackStep)
        requires
            display_wf(old(self)@),
            panes_wf(visible@),
        ensures
            step == playback_step(old(self)@, visible@, elapsed_ms, frame_ms),
            final(self)@ == played(old(self)@, visible@, elapsed_ms, frame_ms),
            display_wf(final(self)@),
    {
        if self.history.playback() != PlaybackState::Playing || self.history.len() < 2 {
            return PlaybackStep::Idle;
        }
        if !self.board.visible_panes_ready(visible) {
            return PlaybackStep::Wait(PANE_WAIT_MS);
        }
        if elapsed_ms < frame_ms {
            return PlaybackStep::Wait(frame_ms - elapsed_ms);
        }
        let before = self.history.current_frame_signature();
        self.history.advance_wrapping();
        self.commit_history_selection(before);
        PlaybackStep::Stepped
    }
}

} // verus!
