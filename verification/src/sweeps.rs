//! Revealing a sweep as it arrives, one step for each picture that has landed,
//! and knowing which volume a measurement is of.

use crate::app::WorkstationApp;
use crate::frame::{same_signature, FrameIdentity, FrameSignature};
use crate::history::VolumeHistory;
use crate::panes::{PaneRuntime, SweepKey, SweepState, MAX_PANES};
use vstd::prelude::*;

verus! {

use crate::app::{app_wf, AppView};
use crate::clock::next_generation;
use crate::display::DisplayView;
use crate::frame::{signature_view, IdentityView, SignatureView};
use crate::history::{
    at_live_edge, current_extent, current_frame, current_signature, history_wf, HistoryView,
};
use crate::panes::{
    all_sweeps_reset, stamp_of, sweep_reset, with_pane, BoardView, PaneView, SweepKeyView,
};

/// What a pane draws, where a sweep serves it.
pub struct SweepWish {
    pub product: String,
    pub cut_index: usize,
    /// Whether the volume has such a sweep.
    pub present: bool,
}

/// Whether sweeps are revealed step by step: only at the live edge, and not
/// while a loop is being exported.
pub open spec fn reveals(app: AppView, animation: bool) -> bool {
    app.display.history.frames.len() > 0 && app.exporter.state is None && at_live_edge(
        app.display.history,
    ) && animation
}

/// The reveal a pane's wish is of.
pub open spec fn wished_key(identity: IdentityView, wish: SweepWish) -> SweepKeyView {
    SweepKeyView { identity, product: wish.product@, cut_index: wish.cut_index }
}

/// A pane before its reveal is stepped. A reveal of another sweep starts over.
pub open spec fn sweep_readied(
    pane: PaneView,
    identity: IdentityView,
    wish: Option<SweepWish>,
) -> PaneView {
    match wish {
        None => sweep_reset(pane),
        Some(wanted) => {
            let key = wished_key(identity, wanted);
            let own = if pane.sweep_key == Some(key) {
                pane
            } else {
                PaneView { sweep_key: Some(key), sweep_state: None, ..pane }
            };
            if own.pending_stamp is None && !wanted.present {
                sweep_reset(own)
            } else {
                own
            }
        },
    }
}

/// Whether a pane's reveal is stepped now: a sweep serves it and no picture is
/// on its way.
pub open spec fn sweep_steps(pane: PaneView, wish: Option<SweepWish>) -> bool {
    wish matches Some(wanted) && wanted.present && pane.pending_stamp is None
}

/// A pane after its reveal was stepped. Only a reveal that moved asks for
/// another picture.
pub open spec fn sweep_stepped(pane: PaneView, after: Option<SweepState>) -> PaneView {
    PaneView {
        sweep_state: after,
        sweep_clock: if pane.sweep_state == after {
            pane.sweep_clock
        } else {
            next_generation(pane.sweep_clock)
        },
        ..pane
    }
}

/// A picture on its way is never outrun: while one is awaited the pane's stamp
/// stays what it was asked for under.
pub proof fn law_a_render_in_flight_is_not_outrun(
    pane: PaneView,
    identity: IdentityView,
    wish: Option<SweepWish>,
)
    requires
        pane.pending_stamp is Some,
    ensures
        !sweep_steps(pane, wish),
        sweep_readied(pane, identity, wish).sweep_clock == pane.sweep_clock,
        sweep_readied(pane, identity, wish).pending_stamp == pane.pending_stamp,
{
}

/// A reveal that stands still asks for nothing, and one that moves asks for
/// another picture.
pub proof fn law_only_a_reveal_that_moves_is_drawn(
    board: BoardView,
    pane: int,
    after: Option<SweepState>,
)
    requires
        crate::panes::board_wf(board),
        0 <= pane < MAX_PANES,
    ensures
        ({
            let stepped = with_pane(board, pane, sweep_stepped(board.panes[pane], after));
            stamp_of(stepped, pane) == stamp_of(board, pane) <==> board.panes[pane].sweep_state
                == after
        }),
{
    crate::clock::law_a_bump_changes_the_reading(board.panes[pane].sweep_clock);
}

impl PaneRuntime {
    /// Readies the pane's reveal, and says whether it is stepped now.
    pub fn ready_sweep(&mut self, identity: &FrameIdentity, wish: Option<SweepWish>) -> (steps: bool)
        ensures
            final(self)@ == sweep_readied(old(self)@, identity@, wish),
            steps == sweep_steps(old(self)@, wish),
    {
        match wish {
            None => {
                self.reset_sweep();
                false
            },
            Some(wanted) => {
                let key = SweepKey {
                    identity: identity.copy(),
                    product: wanted.product,
                    cut_index: wanted.cut_index,
                };
                let same = match &self.sweep_key {
                    Some(held) => held.same(&key),
                    None => false,
                };
                if !same {
                    self.reset_sweep();
                    self.sweep_key = Some(key);
                }
                if self.pending_stamp.is_some() {
                    return false;
                }
                if !wanted.present {
                    self.reset_sweep();
                    return false;
                }
                true
            },
        }
    }

    /// Takes the reveal's next step.
    pub fn step_sweep(&mut self, after: Option<SweepState>)
        ensures
            final(self)@ == sweep_stepped(old(self)@, after),
    {
        let moved = match (self.sweep_state, after) {
            (Some(left), Some(right)) => left != right,
            (None, None) => false,
            _ => true,
        };
        self.sweep_state = after;
        if moved {
            let _ = self.sweep_clock.bump();
        }
    }
}

impl WorkstationApp {
    /// Begins a round of reveal steps, and says whether there is one. Where
    /// there is none every reveal starts over.
    pub fn begin_sweep_round(&mut self, animation: bool) -> (runs: bool)
        requires
            app_wf(old(self)@),
        ensures
            app_wf(final(self)@),
            runs == reveals(old(self)@, animation),
            final(self)@ == (if runs {
                old(self)@
            } else {
                AppView {
                    display: DisplayView {
                        board: all_sweeps_reset(old(self)@.display.board),
                        ..old(self)@.display
                    },
                    ..old(self)@
                }
            }),
    {
        let runs = !self.display.history.is_empty() && self.exporter.state.is_none()
            && self.display.history.at_live_edge() && animation;
        if !runs {
            self.display.board.reset_all_sweeps();
        }
        runs
    }

    /// Readies a pane's reveal, and says whether it is stepped now.
    pub fn ready_pane_sweep(&mut self, pane: usize, wish: Option<SweepWish>) -> (steps: bool)
        requires
            app_wf(old(self)@),
            pane < MAX_PANES,
            old(self)@.display.history.frames.len() > 0,
        ensures
            app_wf(final(self)@),
            steps == sweep_steps(old(self)@.display.board.panes[pane as int], wish),
            final(self)@ == (AppView {
                display: DisplayView {
                    board: with_pane(
                        old(self)@.display.board,
                        pane as int,
                        sweep_readied(
                            old(self)@.display.board.panes[pane as int],
                            current_frame(old(self)@.display.history)->0.identity,
                            wish,
                        ),
                    ),
                    ..old(self)@.display
                },
                ..old(self)@
            }),
    {
        let ghost before = self@.display.board;
        let identity = match self.display.history.current() {
            Some(frame) => frame.identity.copy(),
            None => {
                return false;
            },
        };
        let mut runtime = self.display.board.panes.remove(pane);
        assert(runtime@ == before.panes[pane as int]);
        let steps = runtime.ready_sweep(&identity, wish);
        self.display.board.panes.insert(pane, runtime);
        assert(self@.display.board.panes =~= before.panes.update(pane as int, runtime@));
        steps
    }

    /// Takes a pane's next reveal step.
    pub fn step_pane_sweep(&mut self, pane: usize, after: Option<SweepState>)
        requires
            app_wf(old(self)@),
            pane < MAX_PANES,
        ensures
            app_wf(final(self)@),
            final(self)@ == (AppView {
                display: DisplayView {
                    board: with_pane(
                        old(self)@.display.board,
                        pane as int,
                        sweep_stepped(old(self)@.display.board.panes[pane as int], after),
                    ),
                    ..old(self)@.display
                },
                ..old(self)@
            }),
    {
        let ghost before = self@.display.board;
        let mut runtime = self.display.board.panes.remove(pane);
        assert(runtime@ == before.panes[pane as int]);
        runtime.step_sweep(after);
        self.display.board.panes.insert(pane, runtime);
        assert(self@.display.board.panes =~= before.panes.update(pane as int, runtime@));
    }
}

// ---------------------------------------------------------------------------
// What a measurement is of
// ---------------------------------------------------------------------------

/// What the volume was last measured for, and whether there is a measurement.
pub struct MeasuredFor {
    pub signature: Option<FrameSignature>,
    pub extent: Option<(usize, usize)>,
    pub present: bool,
}

/// What the volume was measured for, as contracts see it.
pub ghost struct MeasuredView {
    pub signature: Option<SignatureView>,
    pub extent: Option<(usize, usize)>,
    pub present: bool,
}

impl View for MeasuredFor {
    type V = MeasuredView;

    open spec fn view(&self) -> MeasuredView {
        MeasuredView {
            signature: signature_view(self.signature),
            extent: self.extent,
            present: self.present,
        }
    }
}

/// What to do about the measurement.
#[derive(Clone, Copy, Debug, PartialEq, Eq, Structural)]
pub enum MeasureStep {
    /// It is of the volume on screen.
    Keep,
    /// Measure the volume on screen.
    Measure,
    /// There is nothing to measure.
    Forget,
}

/// What to do about the measurement.
pub open spec fn measure_step(measured: MeasuredView, history: HistoryView) -> MeasureStep {
    if measured.present && measured.signature == current_signature(history) && measured.extent
        == current_extent(history) {
        MeasureStep::Keep
    } else if history.frames.len() > 0 {
        MeasureStep::Measure
    } else {
        MeasureStep::Forget
    }
}

/// What is measured after the step was taken.
pub open spec fn measured_after(measured: MeasuredView, history: HistoryView) -> MeasuredView {
    if measure_step(measured, history) is Keep {
        measured
    } else {
        MeasuredView {
            signature: current_signature(history),
            extent: current_extent(history),
            present: history.frames.len() > 0,
        }
    }
}

/// A measurement that is kept is of the frame on screen as it is: from the same
/// source, at the same stage, with as much data.
pub proof fn law_a_kept_measurement_is_of_the_screen(measured: MeasuredView, history: HistoryView)
    ensures
        measured_after(measured, history).signature == current_signature(history) || history.frames.len()
            == 0,
        measured_after(measured, history).extent == current_extent(history) || history.frames.len()
            == 0,
        history.frames.len() > 0 ==> measure_step(measured_after(measured, history), history)
            is Keep,
{
}

impl MeasuredFor {
    /// Nothing measured.
    pub fn new() -> (measured: MeasuredFor)
        ensures
            measured@ == (MeasuredView { signature: None, extent: None, present: false }),
    {
        MeasuredFor { signature: None, extent: None, present: false }
    }

    /// Forgets the measurement, so that the volume on screen is measured anew.
    pub fn forget(&mut self)
        ensures
            final(self)@ == (MeasuredView { signature: None, extent: None, present: false }),
    {
        *self = MeasuredFor::new();
    }

    /// Says what to do about the measurement of the volume on screen.
    pub fn refresh_capabilities(&mut self, history: &VolumeHistory) -> (step: MeasureStep)
        requires
            history_wf(history@),
        ensures
            step == measure_step(old(self)@, history@),
            final(self)@ == measured_after(old(self)@, history@),
    {
        let signature = history.current_frame_signature();
        let extent = history.current_frame_extent();
        let same_extent = match (self.extent, extent) {
            (Some(left), Some(right)) => left.0 == right.0 && left.1 == right.1,
            (None, None) => true,
            _ => false,
        };
        if self.present && same_extent && same_signature(&self.signature, &signature) {
            return MeasureStep::Keep;
        }
        self.signature = signature;
        self.extent = extent;
        self.present = !history.is_empty();
        if self.present {
            MeasureStep::Measure
        } else {
            MeasureStep::Forget
        }
    }
}

/// When a sweep is revealed step by step: something is on the timeline, no export
/// runs, the timeline is at the live edge, and the analyst wants it.
pub proof fn law_when_a_sweep_is_revealed(app: AppView, animation: bool)
    requires
        history_wf(app.display.history),
    ensures
        reveals(app, animation) <==> animation && app.exporter.state is None
            && app.display.history.frames.len() > 0 && app.display.history.selected
            == app.display.history.frames.len() - 1,
{
}

/// How a pane is readied for a reveal. Without a wish, or with a sweep that is not
/// there while nothing is being drawn, the reveal is dropped; a reveal of another
/// sweep starts over under its own key; one of the same sweep goes on as it was.
/// Nothing but the reveal changes.
pub proof fn law_how_a_reveal_is_readied(
    pane: PaneView,
    identity: IdentityView,
    wish: Option<SweepWish>,
)
    ensures
        ({
            let after = sweep_readied(pane, identity, wish);
            let dropped = wish is None || (pane.pending_stamp is None && !wish->0.present);
            let same = wish matches Some(wanted) && (pane.sweep_key matches Some(key)
                && key.identity == identity && key.product == wanted.product@ && key.cut_index
                == wanted.cut_index);
            &&& after == (PaneView {
                sweep_key: after.sweep_key,
                sweep_state: after.sweep_state,
                ..pane
            })
            &&& dropped ==> after.sweep_key is None && after.sweep_state is None
            &&& !dropped && same ==> after == pane
            &&& !dropped && !same ==> after.sweep_state is None && (after.sweep_key matches Some(
                key,
            ) && key.identity == identity && key.product == wish->0.product@ && key.cut_index
                == wish->0.cut_index)
            &&& sweep_steps(pane, wish) <==> wish is Some && wish->0.present
                && pane.pending_stamp is None
        }),
{
}

/// A step of a reveal is what was stepped to, and moves the reveal's clock by one
/// where that is another state and not at all where it is the same.
pub proof fn law_what_a_step_of_a_reveal_does(pane: PaneView, after: Option<SweepState>)
    ensures
        ({
            let stepped = sweep_stepped(pane, after);
            &&& stepped == (PaneView {
                sweep_state: after,
                sweep_clock: stepped.sweep_clock,
                ..pane
            })
            &&& pane.sweep_state == after ==> stepped.sweep_clock == pane.sweep_clock
            &&& pane.sweep_state != after && pane.sweep_clock.value < u64::MAX
                ==> stepped.sweep_clock.value == pane.sweep_clock.value + 1
        }),
{
}

/// When the volume on screen is measured: a measurement of another frame, another
/// stage or another extent is not kept; of an empty timeline there is none.
pub proof fn law_when_a_volume_is_measured(measured: MeasuredView, history: HistoryView)
    requires
        history_wf(history),
        history.frames.len() > 0,
    ensures
        ({
            let frame = history.frames[history.selected];
            let after = measured_after(measured, history);
            let of_screen = measured.present && (measured.signature matches Some(known)
                && known.key.identity == frame.identity && known.key.source_label
                == frame.source_label && known.stage == frame.stage) && measured.extent == Some(
                (frame.cuts, frame.radials),
            );
            &&& measure_step(measured, history) is Keep <==> of_screen
            &&& measure_step(measured, history) is Measure <==> !of_screen
            &&& after.present
            &&& after.extent == Some((frame.cuts, frame.radials))
            &&& after.signature matches Some(known)
            &&& known.key.identity == frame.identity
            &&& known.key.source_label == frame.source_label
            &&& known.stage == frame.stage
        }),
{
}

} // verus!
