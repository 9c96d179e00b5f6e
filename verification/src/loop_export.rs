//! Exporting the timeline as a loop: every kept frame is put on screen in turn,
//! captured once it is really there, and what the analyst was looking at is put
//! back however it ends.

use crate::display::{Display, PANE_WAIT_MS};
use crate::frame::FrameKey;
use crate::history::{PlaybackState, VolumeHistory};
use crate::text::append_decimal;
use vstd::prelude::*;

verus! {

use crate::display::{display_wf, with_history, DisplayView};
use crate::find::{first_where, lemma_first_where, lemma_first_where_is};
use crate::frame::{key_of, FrameKeyView, FrameView};
use crate::history::{
    current_frame, gone_live, history_wf, keys_are_distinct, selected_at, HistoryView,
};
use crate::panes::{all_ready, panes_wf, text_view};
use crate::text::decimal;

/// Paints a frame gets after it is chosen before it is captured.
pub const SETTLING_PAINTS: u8 = 2;

/// One export in progress. The pictures are kept by whoever takes them.
pub struct LoopExportState {
    pub capture_id: u64,
    pub frame_keys: Vec<FrameKey>,
    pub original_frame: Option<FrameKey>,
    pub original_selected: Option<usize>,
    pub original_follows_live: bool,
    pub original_playback: PlaybackState,
    /// The frame being captured, and how many have been.
    pub next_index: usize,
    pub awaiting_screenshot: bool,
    pub settled_paints_remaining: u8,
    pub file_base: String,
    pub delay_ms: u32,
}

/// A key that may be absent, as contracts see it.
pub open spec fn key_view(key: Option<FrameKey>) -> Option<FrameKeyView> {
    match key {
        Some(k) => Some(k@),
        None => None,
    }
}

/// An export as contracts see it.
pub ghost struct ExportView {
    pub capture_id: u64,
    pub keys: Seq<FrameKeyView>,
    pub original_frame: Option<FrameKeyView>,
    pub original_selected: Option<usize>,
    pub original_follows_live: bool,
    pub original_playback: PlaybackState,
    pub next_index: int,
    pub awaiting_screenshot: bool,
    pub settled_paints_remaining: u8,
    pub file_base: Seq<char>,
    pub delay_ms: u32,
}

impl View for LoopExportState {
    type V = ExportView;

    open spec fn view(&self) -> ExportView {
        ExportView {
            capture_id: self.capture_id,
            keys: self.frame_keys@.map_values(|key: FrameKey| key@),
            original_frame: key_view(self.original_frame),
            original_selected: self.original_selected,
            original_follows_live: self.original_follows_live,
            original_playback: self.original_playback,
            next_index: self.next_index as int,
            awaiting_screenshot: self.awaiting_screenshot,
            settled_paints_remaining: self.settled_paints_remaining,
            file_base: self.file_base@,
            delay_ms: self.delay_ms,
        }
    }
}

/// The exporter: the export in progress, and what the last one came to.
pub struct LoopExporter {
    pub state: Option<LoopExportState>,
    pub next_capture_id: u64,
    pub notice: Option<String>,
}

/// The exporter as contracts see it.
pub ghost struct ExporterView {
    pub state: Option<ExportView>,
    pub next_capture_id: u64,
    pub notice: Option<Seq<char>>,
}

/// An export that may be absent, as contracts see it.
pub open spec fn state_view(state: Option<LoopExportState>) -> Option<ExportView> {
    match state {
        Some(s) => Some(s@),
        None => None,
    }
}

impl View for LoopExporter {
    type V = ExporterView;

    open spec fn view(&self) -> ExporterView {
        ExporterView {
            state: state_view(self.state),
            next_capture_id: self.next_capture_id,
            notice: text_view(self.notice),
        }
    }
}

/// What holds of every exporter: a running export has a frame left to capture.
pub open spec fn exporter_wf(exporter: ExporterView) -> bool {
    exporter.state matches Some(state) ==> 0 <= state.next_index < state.keys.len()
}

/// Where the frame of this key stands, or the number of frames.
pub open spec fn key_index(frames: Seq<FrameView>, key: FrameKeyView) -> int {
    first_where(frames, |frame: FrameView| key_of(frame) == key)
}

/// The keys of the frames.
pub open spec fn keys_of(frames: Seq<FrameView>) -> Seq<FrameKeyView> {
    frames.map_values(|frame: FrameView| key_of(frame))
}

/// The key of the frame on screen.
pub open spec fn current_key(history: HistoryView) -> Option<FrameKeyView> {
    match current_frame(history) {
        Some(frame) => Some(key_of(frame)),
        None => None,
    }
}

/// The key of the frame being captured.
pub open spec fn target_key(state: ExportView) -> FrameKeyView {
    state.keys[state.next_index]
}

/// The timeline as it was before the export, as far as it still can be: at the
/// live edge where it followed it, else on the frame it was on, else on that
/// frame's place.
pub open spec fn restored_history(history: HistoryView, state: ExportView) -> HistoryView {
    let moved = if state.original_follows_live {
        gone_live(history)
    } else {
        let at = match state.original_frame {
            Some(key) => key_index(history.frames, key),
            None => history.frames.len() as int,
        };
        if at < history.frames.len() {
            selected_at(history, at)
        } else {
            match state.original_selected {
                Some(place) => selected_at(history, place as int),
                None => history,
            }
        }
    };
    HistoryView { playback: state.original_playback, ..moved }
}

/// The display put back as it was before the export.
pub open spec fn restored(display: DisplayView, state: ExportView) -> DisplayView {
    with_history(display, restored_history(display.history, state))
}

/// What an export that fails says.
pub open spec fn failure_text(reason: Seq<char>) -> Seq<char> {
    "Loop export failed: "@ + reason
}

/// The display and the exporter after an export failed.
pub open spec fn aborted(display: DisplayView, exporter: ExporterView, reason: Seq<char>) -> (
    DisplayView,
    ExporterView,
) {
    match exporter.state {
        None => (display, exporter),
        Some(state) => (
            restored(display, state),
            ExporterView { state: None, notice: Some(failure_text(reason)), ..exporter },
        ),
    }
}

/// The reasons an export fails.
pub open spec fn removed_reason() -> Seq<char> {
    "a frame was removed from the timeline before it could be captured"@
}

pub open spec fn changed_reason() -> Seq<char> {
    "the displayed frame changed during capture"@
}

pub open spec fn lost_reason() -> Seq<char> {
    "the requested frame is no longer displayed"@
}

/// The display and the exporter after the frame to capture was put on screen.
pub open spec fn frame_selected(display: DisplayView, exporter: ExporterView) -> (
    DisplayView,
    ExporterView,
) {
    match exporter.state {
        None => (display, exporter),
        Some(state) => {
            let at = key_index(display.history.frames, target_key(state));
            if at < display.history.frames.len() {
                (
                    with_history(display, selected_at(display.history, at)),
                    ExporterView {
                        state: Some(
                            ExportView { settled_paints_remaining: SETTLING_PAINTS, ..state },
                        ),
                        ..exporter
                    },
                )
            } else {
                aborted(display, exporter, removed_reason())
            }
        },
    }
}

/// A frame time as a delay a moving picture can state.
pub open spec fn delay_of(frame_ms: u64) -> u32 {
    if frame_ms < 1 {
        1
    } else if frame_ms > u32::MAX {
        u32::MAX
    } else {
        frame_ms as u32
    }
}

/// The next capture's number.
pub open spec fn next_id(id: u64) -> u64 {
    if id == u64::MAX {
        0
    } else {
        (id + 1) as u64
    }
}

/// The export that begins on a timeline.
pub open spec fn new_export(
    history: HistoryView,
    id: u64,
    file_base: Seq<char>,
    frame_ms: u64,
) -> ExportView {
    ExportView {
        capture_id: id,
        keys: keys_of(history.frames),
        original_frame: current_key(history),
        original_selected: if history.frames.len() == 0 {
            None
        } else {
            Some(history.selected as usize)
        },
        original_follows_live: history.follows_live,
        original_playback: history.playback,
        next_index: 0,
        awaiting_screenshot: false,
        settled_paints_remaining: SETTLING_PAINTS,
        file_base,
        delay_ms: delay_of(frame_ms),
    }
}

/// The display and the exporter after an export was asked for. It begins where
/// there is something to export and no other export runs.
pub open spec fn export_begun(
    display: DisplayView,
    exporter: ExporterView,
    other_export: bool,
    file_base: Seq<char>,
    frame_ms: u64,
) -> (DisplayView, ExporterView) {
    if display.history.frames.len() == 0 || exporter.state is Some || other_export {
        (display, exporter)
    } else {
        let id = next_id(exporter.next_capture_id);
        frame_selected(
            DisplayView {
                history: HistoryView { playback: PlaybackState::Paused, ..display.history },
                ..display
            },
            ExporterView {
                state: Some(new_export(display.history, id, file_base, frame_ms)),
                next_capture_id: id,
                notice: None,
            },
        )
    }
}

/// What a capture that arrived comes to.
#[derive(Clone, Copy, Debug, PartialEq, Eq, Structural)]
pub enum CaptureOutcome {
    /// It is not the one that is awaited.
    Ignored,
    /// The export failed.
    Failed,
    /// Keep the picture; the next frame is on its way to the screen, or the
    /// export failed on it.
    Kept,
    /// Keep the picture; it is the last.
    Finished,
}

/// Whether a capture is the one that is awaited.
pub open spec fn awaited(exporter: ExporterView, capture_id: u64, frame_index: int) -> bool {
    exporter.state matches Some(state) && state.capture_id == capture_id && state.next_index
        == frame_index && state.awaiting_screenshot
}

/// What a capture that arrived comes to: the display, the exporter, and what to
/// do with the picture.
pub open spec fn captured(
    display: DisplayView,
    exporter: ExporterView,
    capture_id: u64,
    frame_index: int,
) -> (DisplayView, ExporterView, CaptureOutcome) {
    if !awaited(exporter, capture_id, frame_index) {
        (display, exporter, CaptureOutcome::Ignored)
    } else {
        let state = exporter.state->0;
        if current_key(display.history) != Some(target_key(state)) {
            let after = aborted(display, exporter, changed_reason());
            (after.0, after.1, CaptureOutcome::Failed)
        } else if state.next_index + 1 < state.keys.len() {
            let after = frame_selected(
                display,
                ExporterView {
                    state: Some(
                        ExportView {
                            next_index: state.next_index + 1,
                            awaiting_screenshot: false,
                            ..state
                        },
                    ),
                    ..exporter
                },
            );
            (after.0, after.1, CaptureOutcome::Kept)
        } else {
            (
                restored(display, state),
                ExporterView { state: None, ..exporter },
                CaptureOutcome::Finished,
            )
        }
    }
}

/// What to do about a running export once a frame was painted.
#[derive(Clone, Copy, Debug, PartialEq, Eq, Structural)]
pub enum CaptureStep {
    /// Nothing.
    Rest,
    /// The export failed.
    Failed,
    /// Paint again after this many milliseconds.
    Wait(u64),
    /// Paint again now.
    Repaint,
    /// Take the picture, tagged with the capture and the frame.
    Screenshot { capture_id: u64, frame_index: usize },
}

/// What to do about a running export once a frame was painted: wait for every
/// pane on screen, let it settle, and take the picture.
pub open spec fn driven(display: DisplayView, exporter: ExporterView, visible: Seq<usize>) -> (
    DisplayView,
    ExporterView,
    CaptureStep,
) {
    match exporter.state {
        None => (display, exporter, CaptureStep::Rest),
        Some(state) => if state.awaiting_screenshot {
            (display, exporter, CaptureStep::Rest)
        } else if current_key(display.history) != Some(target_key(state)) {
            let after = aborted(display, exporter, lost_reason());
            (after.0, after.1, CaptureStep::Failed)
        } else if !all_ready(display.board, visible) {
            (display, exporter, CaptureStep::Wait(PANE_WAIT_MS))
        } else if state.settled_paints_remaining > 0 {
            (
                display,
                ExporterView {
                    state: Some(
                        ExportView {
                            settled_paints_remaining: (state.settled_paints_remaining - 1) as u8,
                            ..state
                        },
                    ),
                    ..exporter
                },
                CaptureStep::Repaint,
            )
        } else {
            (
                display,
                ExporterView {
                    state: Some(ExportView { awaiting_screenshot: true, ..state }),
                    ..exporter
                },
                CaptureStep::Screenshot {
                    capture_id: state.capture_id,
                    frame_index: state.next_index as usize,
                },
            )
        },
    }
}

// ---------------------------------------------------------------------------
// Laws
// ---------------------------------------------------------------------------

/// Whatever an export did to the timeline, putting it back gives the analyst the
/// frame, the live edge and the loop they had, as long as the frames are those
/// it began with.
pub proof fn law_an_export_gives_the_timeline_back(
    history: HistoryView,
    during: HistoryView,
    id: u64,
    file_base: Seq<char>,
    frame_ms: u64,
)
    requires
        history_wf(history),
        history.frames.len() > 0,
        keys_are_distinct(history.frames),
        during.frames == history.frames,
        during.policy == history.policy,
    ensures
        restored_history(during, new_export(history, id, file_base, frame_ms)) == history,
{
    let key = key_of(history.frames[history.selected]);
    let wanted = |frame: FrameView| key_of(frame) == key;
    assert forall|i: int| 0 <= i < history.selected implies !wanted(
        #[trigger] history.frames[i],
    ) by {
        assert(key_of(history.frames[i]) != key_of(history.frames[history.selected]));
    }
    lemma_first_where_is(history.frames, wanted, history.selected);
    assert(key_index(history.frames, key) == history.selected);
}

/// An export begins with the oldest frame, plans every frame in timeline order
/// and leaves none out.
pub proof fn law_an_export_plans_every_frame(
    display: DisplayView,
    exporter: ExporterView,
    file_base: Seq<char>,
    frame_ms: u64,
)
    requires
        display_wf(display),
        display.history.frames.len() > 0,
        exporter.state is None,
    ensures
        ({
            let begun = export_begun(display, exporter, false, file_base, frame_ms);
            &&& begun.1.state matches Some(state)
            &&& state.keys == keys_of(display.history.frames)
            &&& state.next_index == 0
            &&& current_key(begun.0.history) == Some(keys_of(display.history.frames)[0])
            &&& begun.0.history.selected == 0
            &&& begun.0.history.playback == PlaybackState::Paused
        }),
{
    let key = key_of(display.history.frames[0]);
    lemma_first_where_is(
        display.history.frames,
        |frame: FrameView| key_of(frame) == key,
        0,
    );
    assert(keys_of(display.history.frames)[0] == key);
}

/// A picture is kept only of the frame it was asked for: while another frame is
/// on screen no capture is kept and none is taken.
pub proof fn law_only_the_planned_frame_is_captured(
    display: DisplayView,
    exporter: ExporterView,
    capture_id: u64,
    frame_index: int,
    visible: Seq<usize>,
)
    requires
        exporter_wf(exporter),
        exporter.state matches Some(state) && current_key(display.history) != Some(
            target_key(state),
        ),
    ensures
        captured(display, exporter, capture_id, frame_index).2 !is Kept,
        captured(display, exporter, capture_id, frame_index).2 !is Finished,
        driven(display, exporter, visible).2 !is Screenshot,
{
}

/// A picture is taken only when every pane on screen is ready.
pub proof fn law_a_picture_is_taken_only_when_ready(
    display: DisplayView,
    exporter: ExporterView,
    visible: Seq<usize>,
)
    requires
        driven(display, exporter, visible).2 is Screenshot,
    ensures
        all_ready(display.board, visible),
{
}

/// However an export ends, the exporter is free again, and one that failed says
/// why.
pub proof fn law_an_export_that_ends_is_over(
    display: DisplayView,
    exporter: ExporterView,
    reason: Seq<char>,
    capture_id: u64,
    frame_index: int,
)
    requires
        exporter.state is Some,
    ensures
        aborted(display, exporter, reason).1.state is None,
        aborted(display, exporter, reason).1.notice == Some(failure_text(reason)),
        captured(display, exporter, capture_id, frame_index).2 is Finished ==> captured(
            display,
            exporter,
            capture_id,
            frame_index,
        ).1.state is None,
{
}

/// A capture that is kept and does not end the export moves the target to the
/// very next planned frame and to no other: the plan and the number of the
/// capture stay, the picture is asked for anew, and the screen is on the frame
/// that comes next. Where that frame has left the timeline the export fails. The
/// last planned frame, and only the last, ends it.
pub proof fn law_a_kept_capture_moves_to_the_next_frame(
    display: DisplayView,
    exporter: ExporterView,
    capture_id: u64,
    frame_index: int,
)
    requires
        exporter_wf(exporter),
    ensures
        ({
            let (shown, after, outcome) = captured(display, exporter, capture_id, frame_index);
            &&& outcome is Ignored ==> shown == display && after == exporter
            &&& exporter.state is None ==> outcome is Ignored
            &&& after.next_capture_id == exporter.next_capture_id
            &&& exporter.state matches Some(state) ==> {
                let showing = display.history.frames.len() > 0 && key_of(
                    display.history.frames[display.history.selected],
                ) == state.keys[state.next_index];
                &&& outcome !is Ignored <==> state.capture_id == capture_id && state.next_index
                    == frame_index && state.awaiting_screenshot
                &&& outcome is Failed <==> outcome !is Ignored && !showing
                &&& outcome is Failed ==> after.state is None && after.notice == Some(
                    "Loop export failed: "@ + "the displayed frame changed during capture"@,
                )
                &&& outcome is Finished ==> state.next_index + 1 == state.keys.len()
                    && after.state is None && after.notice == exporter.notice
                &&& outcome is Kept ==> state.next_index + 1 < state.keys.len()
                &&& outcome is Kept ==> (match after.state {
                    Some(next) => {
                        &&& next.next_index == state.next_index + 1
                        &&& next.keys == state.keys
                        &&& next.capture_id == state.capture_id
                        &&& !next.awaiting_screenshot
                        &&& next.settled_paints_remaining == 2
                        &&& next.original_frame == state.original_frame
                        &&& next.original_selected == state.original_selected
                        &&& next.original_follows_live == state.original_follows_live
                        &&& next.original_playback == state.original_playback
                        &&& next.file_base == state.file_base
                        &&& next.delay_ms == state.delay_ms
                        &&& 0 <= shown.history.selected < shown.history.frames.len()
                        &&& key_of(shown.history.frames[shown.history.selected])
                            == state.keys[state.next_index + 1]
                        &&& shown.history.frames == display.history.frames
                        &&& shown.history.playback == display.history.playback
                        &&& !shown.history.follows_live
                    },
                    None => {
                        &&& forall|i: int|
                            0 <= i < display.history.frames.len() ==> key_of(
                                #[trigger] display.history.frames[i],
                            ) != state.keys[state.next_index + 1]
                        &&& after.notice == Some(
                            "Loop export failed: "@
                                + "a frame was removed from the timeline before it could be captured"@,
                        )
                    },
                })
            }
        }),
{
    if let Some(state) = exporter.state {
        if state.next_index + 1 < state.keys.len() {
            let key = state.keys[state.next_index + 1];
            let wanted = |frame: FrameView| key_of(frame) == key;
            lemma_first_where(display.history.frames, wanted);
            assert forall|i: int|
                0 <= i < first_where(display.history.frames, wanted) implies key_of(
                #[trigger] display.history.frames[i],
            ) != key by {
                assert(!wanted(display.history.frames[i]));
            }
        }
    }
}

/// What may happen while an export runs, with what is on screen when it does.
pub ghost enum ExportEvent {
    /// The panes listed were painted.
    Painted(DisplayView, Seq<usize>),
    /// A picture arrived, tagged with a capture and a frame.
    Arrived(DisplayView, u64, int),
}

/// A running export, and the pictures it has kept: the frame each was taken for,
/// and the key of the frame that was on screen.
pub ghost struct ExportRun {
    pub exporter: ExporterView,
    pub kept: Seq<(int, Option<FrameKeyView>)>,
    pub finished: bool,
}

/// An export after some events.
pub open spec fn export_run(start: ExporterView, events: Seq<ExportEvent>) -> ExportRun
    decreases events.len(),
{
    if events.len() == 0 {
        ExportRun { exporter: start, kept: Seq::empty(), finished: false }
    } else {
        let before = export_run(start, events.drop_last());
        match events.last() {
            ExportEvent::Painted(display, visible) => ExportRun {
                exporter: driven(display, before.exporter, visible).1,
                ..before
            },
            ExportEvent::Arrived(display, capture_id, frame_index) => {
                let after = captured(display, before.exporter, capture_id, frame_index);
                ExportRun {
                    exporter: after.1,
                    kept: if after.2 is Kept || after.2 is Finished {
                        before.kept.push(
                            (
                                frame_index,
                                if display.history.frames.len() == 0 {
                                    None
                                } else {
                                    Some(key_of(display.history.frames[display.history.selected]))
                                },
                            ),
                        )
                    } else {
                        before.kept
                    },
                    finished: before.finished || after.2 is Finished,
                }
            },
        }
    }
}

/// An export leaves no planned frame uncaptured, whatever is painted, arrives or
/// changes on screen while it runs: the pictures it has kept are of the first
/// planned frames, one of each and in their order, and when it finishes they are
/// of all of them. One that failed is over and has kept a part.
pub proof fn law_a_finished_export_has_every_frame(
    start: ExporterView,
    events: Seq<ExportEvent>,
    index: int,
)
    requires
        start.state matches Some(state) && state.next_index == 0 && state.keys.len() > 0,
    ensures
        ({
            let run = export_run(start, events);
            let keys = start.state->0.keys;
            &&& run.kept.len() <= keys.len()
            &&& 0 <= index < run.kept.len() ==> run.kept[index] == (index, Some(keys[index]))
            &&& run.finished <==> run.kept.len() == keys.len()
            &&& run.finished ==> run.exporter.state is None
            &&& run.exporter.state matches Some(now) ==> now.keys == keys && now.next_index
                == run.kept.len() && now.capture_id == start.state->0.capture_id
        }),
    decreases events.len(),
{
    if events.len() > 0 {
        let rest = events.drop_last();
        law_a_finished_export_has_every_frame(start, rest, index);
        let before = export_run(start, rest);
        match events.last() {
            ExportEvent::Painted(_, _) => {},
            ExportEvent::Arrived(display, capture_id, frame_index) => {
                law_a_kept_capture_moves_to_the_next_frame(
                    display,
                    before.exporter,
                    capture_id,
                    frame_index,
                );
            },
        }
    }
}

/// How a frame comes to be captured. While its picture is awaited nothing is
/// done; while the panes are not ready it waits; then two more paints pass, one
/// at a time; then the picture is taken under this export's number and this
/// frame's place, and no second one is. What is on screen does not move.
pub proof fn law_a_frame_settles_before_its_picture(
    display: DisplayView,
    exporter: ExporterView,
    visible: Seq<usize>,
)
    requires
        exporter_wf(exporter),
        exporter.state matches Some(state) && state.keys.len() <= usize::MAX,
    ensures
        ({
            let state = exporter.state->0;
            let (shown, after, step) = driven(display, exporter, visible);
            let showing = display.history.frames.len() > 0 && key_of(
                display.history.frames[display.history.selected],
            ) == state.keys[state.next_index];
            let ready = forall|i: int|
                0 <= i < visible.len() ==> crate::panes::pane_ready(
                    display.board,
                    #[trigger] visible[i] as int,
                );
            let left = state.settled_paints_remaining;
            &&& step is Rest <==> state.awaiting_screenshot
            &&& step is Failed <==> !state.awaiting_screenshot && !showing
            &&& step is Wait <==> !state.awaiting_screenshot && showing && !ready
            &&& step is Wait ==> step == CaptureStep::Wait(16)
            &&& step is Repaint <==> !state.awaiting_screenshot && showing && ready && left > 0
            &&& step is Screenshot ==> step->capture_id == state.capture_id && step->frame_index
                == state.next_index
            &&& step is Rest || step is Wait ==> after == exporter
            &&& step !is Failed ==> shown == display
            &&& step is Failed ==> after.state is None && after.notice == Some(
                "Loop export failed: "@ + "the requested frame is no longer displayed"@,
            )
            &&& step is Repaint ==> after.state == Some(
                ExportView { settled_paints_remaining: (left - 1) as u8, ..state },
            )
            &&& step is Screenshot ==> after.state == Some(
                ExportView { awaiting_screenshot: true, ..state },
            )
            &&& step !is Failed ==> after.notice == exporter.notice
            &&& after.next_capture_id == exporter.next_capture_id
        }),
        driven(display, exporter, visible).2 matches CaptureStep::Screenshot {
            capture_id,
            frame_index,
        } ==> {
            let after = driven(display, exporter, visible).1;
            &&& driven(display, after, visible) == (display, after, CaptureStep::Rest)
            &&& captured(display, after, capture_id, frame_index as int).2 is Kept || captured(
                display,
                after,
                capture_id,
                frame_index as int,
            ).2 is Finished
        },
{
}

/// What an export remembers and how it starts: it begins only where there are
/// frames and nothing else is being exported, under a number that no capture
/// before it had, with the frame, the live edge and the loop the analyst had.
pub proof fn law_how_an_export_begins(
    display: DisplayView,
    exporter: ExporterView,
    other_export: bool,
    file_base: Seq<char>,
    frame_ms: u64,
)
    requires
        display_wf(display),
        display.history.frames.len() <= usize::MAX,
    ensures
        ({
            let (shown, after) = export_begun(
                display,
                exporter,
                other_export,
                file_base,
                frame_ms,
            );
            let starts = display.history.frames.len() > 0 && exporter.state is None
                && !other_export;
            &&& !starts ==> shown == display && after == exporter
            &&& starts ==> {
                &&& after.state matches Some(state)
                &&& after.notice is None
                &&& after.next_capture_id == state.capture_id
                &&& after.next_capture_id != exporter.next_capture_id
                &&& exporter.next_capture_id < u64::MAX ==> state.capture_id
                    == exporter.next_capture_id + 1
                &&& state.keys.len() == display.history.frames.len()
                &&& forall|i: int|
                    0 <= i < state.keys.len() ==> #[trigger] state.keys[i] == key_of(
                        display.history.frames[i],
                    )
                &&& state.original_frame == Some(
                    key_of(display.history.frames[display.history.selected]),
                )
                &&& state.original_selected == Some(display.history.selected as usize)
                &&& state.original_follows_live == display.history.follows_live
                &&& state.original_playback == display.history.playback
                &&& state.next_index == 0
                &&& !state.awaiting_screenshot
                &&& state.settled_paints_remaining == 2
                &&& state.file_base == file_base
                &&& 1 <= frame_ms <= u32::MAX ==> state.delay_ms == frame_ms
                &&& frame_ms == 0 ==> state.delay_ms == 1
                &&& frame_ms > u32::MAX ==> state.delay_ms == u32::MAX
                &&& shown.history.frames == display.history.frames
                &&& shown.history.selected == 0
            }
        }),
{
    if display.history.frames.len() > 0 {
        law_an_export_plans_every_frame(
            display,
            ExporterView { state: None, ..exporter },
            file_base,
            frame_ms,
        );
        let key = key_of(display.history.frames[0]);
        lemma_first_where_is(
            display.history.frames,
            |frame: FrameView| key_of(frame) == key,
            0,
        );
        assert(keys_of(display.history.frames)[0] == key);
    }
}

/// How the timeline is put back: the loop runs or rests as it did; one that
/// followed the live edge is at its last frame; else the first frame of the
/// remembered key is on screen, or where it has gone the remembered place.
pub proof fn law_how_the_timeline_is_put_back(history: HistoryView, state: ExportView)
    requires
        history_wf(history),
    ensures
        ({
            let after = restored_history(history, state);
            let at = after.selected;
            &&& after.frames == history.frames
            &&& after.policy == history.policy
            &&& after.playback == state.original_playback
            &&& state.original_follows_live ==> after.follows_live && (history.frames.len() > 0
                ==> at == history.frames.len() - 1)
            &&& !state.original_follows_live ==> (state.original_frame matches Some(key) ==> {
                let stays = exists|i: int|
                    0 <= i < history.frames.len() && key_of(#[trigger] history.frames[i]) == key;
                &&& stays ==> 0 <= at < history.frames.len() && key_of(history.frames[at]) == key
                    && !after.follows_live
                &&& !stays && (state.original_selected matches Some(place) && place
                    < history.frames.len()) ==> at == state.original_selected->0
                    && !after.follows_live
                &&& !stays && (state.original_selected matches Some(place) ==> place
                    >= history.frames.len()) ==> at == history.selected && after.follows_live
                    == history.follows_live
            })
        }),
{
    if let Some(key) = state.original_frame {
        let wanted = |frame: FrameView| key_of(frame) == key;
        lemma_first_where(history.frames, wanted);
        assert forall|i: int|
            0 <= i < first_where(history.frames, wanted) implies key_of(
            #[trigger] history.frames[i],
        ) != key by {
            assert(!wanted(history.frames[i]));
        }
        let found = first_where(history.frames, wanted);
        if found < history.frames.len() {
            assert(key_of(history.frames[found]) == key);
        }
    }
}

// ---------------------------------------------------------------------------
// The exporter
// ---------------------------------------------------------------------------

/// Finds the frame of a key.
fn find_frame(history: &VolumeHistory, key: &FrameKey) -> (index: Option<usize>)
    ensures
        match index {
            Some(at) => at == key_index(history@.frames, key@) && at < history@.frames.len(),
            None => key_index(history@.frames, key@) == history@.frames.len(),
        },
{
    let frames = history.frames();
    let mut at: usize = 0;
    while at < frames.len() && !key.names(&frames[at])
        invariant
            at <= frames@.len(),
            frames@.len() == history@.frames.len(),
            forall|i: int| 0 <= i < frames@.len() ==> (#[trigger] frames@[i])@ == history@.frames[i],
            forall|i: int| 0 <= i < at ==> key_of(#[trigger] history@.frames[i]) != key@,
        decreases frames@.len() - at,
    {
        assert(frames@[at as int]@ == history@.frames[at as int]);
        at = at + 1;
    }
    proof {
        if at < frames@.len() {
            assert(frames@[at as int]@ == history@.frames[at as int]);
        }
        lemma_first_where_is(
            history@.frames,
            |frame: FrameView| key_of(frame) == key@,
            at as int,
        );
    }
    if at < frames.len() {
        Some(at)
    } else {
        None
    }
}

/// Whether the frame on screen goes by a key.
fn shows(history: &VolumeHistory, key: &FrameKey) -> (yes: bool)
    requires
        history_wf(history@),
    ensures
        yes == (current_key(history@) == Some(key@)),
{
    match history.current() {
        Some(frame) => key.names(frame),
        None => false,
    }
}

impl LoopExporter {
    /// An exporter that has exported nothing.
    pub fn new() -> (exporter: LoopExporter)
        ensures
            exporter@ == (ExporterView { state: None, next_capture_id: 0, notice: None }),
            exporter_wf(exporter@),
    {
        LoopExporter { state: None, next_capture_id: 0, notice: None }
    }

    /// Begins an export of the kept timeline. `other_export` says whether a still
    /// is being exported.
    pub fn begin_loop_export(
        &mut self,
        display: &mut Display,
        other_export: bool,
        file_base: String,
        frame_ms: u64,
    )
        requires
            display_wf(old(display)@),
            exporter_wf(old(self)@),
        ensures
            (final(display)@, final(self)@) == export_begun(
                old(display)@,
                old(self)@,
                other_export,
                file_base@,
                frame_ms,
            ),
            display_wf(final(display)@),
            exporter_wf(final(self)@),
    {
        if display.history.is_empty() || self.state.is_some() || other_export {
            return;
        }
        let ghost before = display@;
        let frames = display.history.frames();
        let mut frame_keys: Vec<FrameKey> = Vec::new();
        let mut at: usize = 0;
        while at < frames.len()
            invariant
                at <= frames@.len(),
                frame_keys@.len() == at,
                frames@.len() == before.history.frames.len(),
                forall|i: int|
                    0 <= i < frames@.len() ==> (#[trigger] frames@[i])@
                        == before.history.frames[i],
                forall|i: int|
                    0 <= i < at ==> (#[trigger] frame_keys@[i])@ == key_of(
                        before.history.frames[i],
                    ),
            decreases frames@.len() - at,
        {
            assert(frames@[at as int]@ == before.history.frames[at as int]);
            frame_keys.push(FrameKey::from_frame(&frames[at]));
            at = at + 1;
        }
        let original_frame = match display.history.current() {
            Some(frame) => Some(FrameKey::from_frame(frame)),
            None => None,
        };
        let id: u64 = self.next_capture_id.wrapping_add(1);
        self.next_capture_id = id;
        self.notice = None;
        let delay_ms: u32 = if frame_ms < 1 {
            1
        } else if frame_ms > u32::MAX as u64 {
            u32::MAX
        } else {
            frame_ms as u32
        };
        let state = LoopExportState {
            capture_id: id,
            frame_keys,
            original_frame,
            original_selected: display.history.selected_index(),
            original_follows_live: display.history.follows_live(),
            original_playback: display.history.playback(),
            next_index: 0,
            awaiting_screenshot: false,
            settled_paints_remaining: SETTLING_PAINTS,
            file_base,
            delay_ms,
        };
        assert(state@.keys =~= keys_of(before.history.frames));
        assert(state@ == new_export(before.history, id, file_base@, frame_ms));
        self.state = Some(state);
        display.history.set_playback(PlaybackState::Paused);
        self.select_loop_export_frame(display);
    }

    /// Puts the frame to capture on screen, or ends the export where it is gone.
    fn select_loop_export_frame(&mut self, display: &mut Display)
        requires
            display_wf(old(display)@),
            exporter_wf(old(self)@),
        ensures
            (final(display)@, final(self)@) == frame_selected(old(display)@, old(self)@),
            display_wf(final(display)@),
            exporter_wf(final(self)@),
    {
        match self.state.take() {
            None => {},
            Some(mut state) => {
                assert(state@.keys[state.next_index as int]
                    == state.frame_keys@[state.next_index as int]@);
                let found = find_frame(&display.history, &state.frame_keys[state.next_index]);
                match found {
                    None => {
                        self.state = Some(state);
                        self.abort_loop_export(
                            display,
                            "a frame was removed from the timeline before it could be captured",
                        );
                    },
                    Some(index) => {
                        let before = display.history.current_frame_signature();
                        let _ = display.history.select(index);
                        display.commit_history_selection(before);
                        state.settled_paints_remaining = SETTLING_PAINTS;
                        self.state = Some(state);
                    },
                }
            },
        }
    }

    /// Puts the display back as it was before an export.
    pub fn restore_loop_export_selection(state: &LoopExportState, display: &mut Display)
        requires
            display_wf(old(display)@),
        ensures
            final(display)@ == restored(old(display)@, state@),
            display_wf(final(display)@),
    {
        let before = display.history.current_frame_signature();
        if state.original_follows_live {
            display.history.go_live();
        } else {
            let found = match &state.original_frame {
                Some(key) => find_frame(&display.history, key),
                None => None,
            };
            proof {
                match state@.original_frame {
                    Some(key) => {
                        lemma_first_where(
                            display@.history.frames,
                            |frame: FrameView| key_of(frame) == key,
                        );
                    },
                    None => {},
                }
            }
            match found {
                Some(index) => {
                    let _ = display.history.select(index);
                },
                None => {
                    if let Some(place) = state.original_selected {
                        let _ = display.history.select(place);
                    }
                },
            }
        }
        display.history.set_playback(state.original_playback);
        display.commit_history_selection(before);
    }

    /// Ends an export that failed, and keeps the line to show.
    pub fn abort_loop_export(&mut self, display: &mut Display, reason: &str)
        requires
            display_wf(old(display)@),
        ensures
            (final(display)@, final(self)@) == aborted(old(display)@, old(self)@, reason@),
            display_wf(final(display)@),
            exporter_wf(final(self)@),
    {
        match self.state.take() {
            None => {},
            Some(state) => {
                Self::restore_loop_export_selection(&state, display);
                let mut message = "Loop export failed: ".to_owned();
                message.append(reason);
                self.notice = Some(message);
            },
        }
    }

    /// Takes a capture that arrived. An export that it finishes is handed over.
    pub fn take_capture(
        &mut self,
        display: &mut Display,
        capture_id: u64,
        frame_index: usize,
    ) -> (taken: (CaptureOutcome, Option<LoopExportState>))
        requires
            display_wf(old(display)@),
            exporter_wf(old(self)@),
        ensures
            (final(display)@, final(self)@, taken.0) == captured(
                old(display)@,
                old(self)@,
                capture_id,
                frame_index as int,
            ),
            display_wf(final(display)@),
            exporter_wf(final(self)@),
            taken.0 is Finished <==> taken.1 is Some,
            taken.1 matches Some(done) ==> old(self)@.state == Some(done@),
    {
        match self.state.take() {
            None => (CaptureOutcome::Ignored, None),
            Some(mut state) => {
                let matching = state.capture_id == capture_id && state.next_index == frame_index
                    && state.awaiting_screenshot;
                if !matching {
                    self.state = Some(state);
                    return (CaptureOutcome::Ignored, None);
                }
                assert(state@.keys[state.next_index as int]
                    == state.frame_keys@[state.next_index as int]@);
                if !shows(&display.history, &state.frame_keys[state.next_index]) {
                    self.state = Some(state);
                    self.abort_loop_export(
                        display,
                        "the displayed frame changed during capture",
                    );
                    return (CaptureOutcome::Failed, None);
                }
                let count: usize = state.frame_keys.len();
                if state.next_index + 1 < count {
                    state.next_index = state.next_index + 1;
                    state.awaiting_screenshot = false;
                    self.state = Some(state);
                    self.select_loop_export_frame(display);
                    return (CaptureOutcome::Kept, None);
                }
                Self::restore_loop_export_selection(&state, display);
                (CaptureOutcome::Finished, Some(state))
            },
        }
    }

    /// Decides about a running export once a frame was painted.
    pub fn drive_loop_export_capture(&mut self, display: &mut Display, visible: &Vec<usize>) -> (step:
        CaptureStep)
        requires
            display_wf(old(display)@),
            exporter_wf(old(self)@),
            panes_wf(visible@),
        ensures
            (final(display)@, final(self)@, step) == driven(
                old(display)@,
                old(self)@,
                visible@,
            ),
            display_wf(final(display)@),
            exporter_wf(final(self)@),
    {
        match self.state.take() {
            None => CaptureStep::Rest,
            Some(mut state) => {
                if state.awaiting_screenshot {
                    self.state = Some(state);
                    return CaptureStep::Rest;
                }
                assert(state@.keys[state.next_index as int]
                    == state.frame_keys@[state.next_index as int]@);
                if !shows(&display.history, &state.frame_keys[state.next_index]) {
                    self.state = Some(state);
                    self.abort_loop_export(
                        display,
                        "the requested frame is no longer displayed",
                    );
                    return CaptureStep::Failed;
                }
                if !display.board.visible_panes_ready(visible) {
                    self.state = Some(state);
                    return CaptureStep::Wait(PANE_WAIT_MS);
                }
                if state.settled_paints_remaining > 0 {
                    state.settled_paints_remaining = state.settled_paints_remaining - 1;
                    self.state = Some(state);
                    return CaptureStep::Repaint;
                }
                state.awaiting_screenshot = true;
                let step = CaptureStep::Screenshot {
                    capture_id: state.capture_id,
                    frame_index: state.next_index,
                };
                self.state = Some(state);
                step
            },
        }
    }

    /// How far a running export is.
    pub fn progress(&self) -> (text: Option<String>)
        requires
            exporter_wf(self@),
        ensures
            text_view(text) == (match self@.state {
                Some(state) => Some(
                    "Exporting loop: frame "@ + decimal((state.next_index + 1) as nat) + " of "@
                        + decimal(state.keys.len()),
                ),
                None => None,
            }),
    {
        match &self.state {
            None => None,
            Some(state) => {
                let count: usize = state.frame_keys.len();
                let mut text = "Exporting loop: frame ".to_owned();
                append_decimal(&mut text, state.next_index as u64 + 1);
                text.append(" of ");
                append_decimal(&mut text, count as u64);
                Some(text)
            },
        }
    }
}

/// The name of the view in an exported file: the active pane's product, with how
/// many panes there are where there is more than one.
pub open spec fn view_name(product: Seq<char>, panes: nat) -> Seq<char> {
    if panes == 1 {
        product
    } else {
        decimal(panes) + "panes-"@ + product + "-active"@
    }
}

/// The name of the view in an exported file.
pub fn export_view_name(product: &str, panes: usize) -> (name: String)
    ensures
        name@ == view_name(product@, panes as nat),
{
    if panes == 1 {
        product.to_owned()
    } else {
        let mut name = String::new();
        append_decimal(&mut name, panes as u64);
        name.append("panes-");
        name.append(product);
        name.append("-active");
        assert(name@ =~= view_name(product@, panes as nat));
        name
    }
}

} // verus!
