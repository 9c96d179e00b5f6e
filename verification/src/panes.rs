//! What each pane shows, what it is waiting for, and when a picture that
//! arrives still belongs on it.

use crate::clock::{GenerationClock, RenderStamp};
use crate::frame::FrameIdentity;
use crate::text::{append_decimal, same_text};
use vstd::prelude::*;

verus! {

use crate::clock::{next_generation, Generation};
use crate::frame::IdentityView;
use crate::text::decimal;

/// How many panes the workspace has, shown or not.
pub const MAX_PANES: usize = 4;

/// Why a pane has no render in flight and is not given one for a stamp.
#[derive(Clone, Copy, Debug, PartialEq, Eq, Structural)]
pub enum RenderTerminal {
    /// The worker failed this exact stamp.
    Failed(RenderStamp),
    /// Nothing in the volume can serve the pane's product for this stamp.
    Unavailable(RenderStamp),
}

/// The stamp a terminal answer is about.
pub open spec fn terminal_stamp(terminal: RenderTerminal) -> RenderStamp {
    match terminal {
        RenderTerminal::Failed(stamp) => stamp,
        RenderTerminal::Unavailable(stamp) => stamp,
    }
}

impl RenderTerminal {
    /// The stamp the answer is about.
    pub fn stamp(self) -> (stamp: RenderStamp)
        ensures
            stamp == terminal_stamp(self),
    {
        match self {
            RenderTerminal::Failed(stamp) => stamp,
            RenderTerminal::Unavailable(stamp) => stamp,
        }
    }
}

/// The picture on a pane: what it was made from, and its size.
#[derive(Clone, Copy, Debug, PartialEq, Eq, Structural)]
pub struct InstalledTexture {
    pub stamp: RenderStamp,
    pub width: u32,
    pub height: u32,
}

/// How far a sweep has been revealed: bit patterns of degrees, and whether the
/// whole sweep is on screen.
#[derive(Clone, Copy, Debug, PartialEq, Eq, Structural)]
pub struct SweepState {
    pub start_bits: u32,
    pub revealed_bits: u32,
    pub frontier_bits: u32,
    pub complete: bool,
}

/// What a pane's reveal is a reveal of.
pub struct SweepKey {
    pub identity: FrameIdentity,
    pub product: String,
    pub cut_index: usize,
}

/// A sweep key as contracts see it.
pub ghost struct SweepKeyView {
    pub identity: IdentityView,
    pub product: Seq<char>,
    pub cut_index: usize,
}

impl View for SweepKey {
    type V = SweepKeyView;

    open spec fn view(&self) -> SweepKeyView {
        SweepKeyView {
            identity: self.identity@,
            product: self.product@,
            cut_index: self.cut_index,
        }
    }
}

impl SweepKey {
    /// Whether two keys are of the same sweep.
    pub fn same(&self, other: &SweepKey) -> (same: bool)
        ensures
            same == (self@ == other@),
    {
        self.cut_index == other.cut_index && self.identity.same(&other.identity) && same_text(
            self.product.as_str(),
            other.product.as_str(),
        )
    }
}

/// Text that may be absent, as contracts see it.
pub open spec fn text_view(text: Option<String>) -> Option<Seq<char>> {
    match text {
        Some(t) => Some(t@),
        None => None,
    }
}

/// A key that may be absent, as contracts see it.
pub open spec fn sweep_key_view(key: Option<SweepKey>) -> Option<SweepKeyView> {
    match key {
        Some(k) => Some(k@),
        None => None,
    }
}

/// One pane's bookkeeping.
pub struct PaneRuntime {
    pub pane_clock: GenerationClock,
    pub view_clock: GenerationClock,
    pub sweep_clock: GenerationClock,
    pub texture: Option<InstalledTexture>,
    pub pending_stamp: Option<RenderStamp>,
    pub terminal: Option<RenderTerminal>,
    /// Whether the pane's size is known.
    pub measured: bool,
    pub status: String,
    /// The engine's own account of the gates it removed from the picture on
    /// screen.
    pub filter_line: Option<String>,
    pub probe_text: Option<String>,
    pub sweep_key: Option<SweepKey>,
    pub sweep_state: Option<SweepState>,
}

/// A pane as contracts see it.
pub ghost struct PaneView {
    pub pane_clock: Generation,
    pub view_clock: Generation,
    pub sweep_clock: Generation,
    pub texture: Option<InstalledTexture>,
    pub pending_stamp: Option<RenderStamp>,
    pub terminal: Option<RenderTerminal>,
    pub measured: bool,
    pub status: Seq<char>,
    pub filter_line: Option<Seq<char>>,
    pub probe_text: Option<Seq<char>>,
    pub sweep_key: Option<SweepKeyView>,
    pub sweep_state: Option<SweepState>,
}

impl View for PaneRuntime {
    type V = PaneView;

    open spec fn view(&self) -> PaneView {
        PaneView {
            pane_clock: self.pane_clock.current,
            view_clock: self.view_clock.current,
            sweep_clock: self.sweep_clock.current,
            texture: self.texture,
            pending_stamp: self.pending_stamp,
            terminal: self.terminal,
            measured: self.measured,
            status: self.status@,
            filter_line: text_view(self.filter_line),
            probe_text: text_view(self.probe_text),
            sweep_key: sweep_key_view(self.sweep_key),
            sweep_state: self.sweep_state,
        }
    }
}

/// A pane that has shown nothing yet.
pub open spec fn blank_pane() -> PaneView {
    PaneView {
        pane_clock: Generation { value: 0 },
        view_clock: Generation { value: 0 },
        sweep_clock: Generation { value: 0 },
        texture: None,
        pending_stamp: None,
        terminal: None,
        measured: false,
        status: Seq::empty(),
        filter_line: None,
        probe_text: None,
        sweep_key: None,
        sweep_state: None,
    }
}

/// A pane whose reveal starts over.
pub open spec fn sweep_reset(pane: PaneView) -> PaneView {
    PaneView { sweep_key: None, sweep_state: None, ..pane }
}

/// A pane that is drawn differently from the same data. What is on screen stays
/// there until the new picture lands.
pub open spec fn view_invalidated(pane: PaneView) -> PaneView {
    PaneView {
        view_clock: next_generation(pane.view_clock),
        pending_stamp: None,
        terminal: None,
        ..pane
    }
}

/// A pane that is asked for other data of the same site: another product or
/// another tilt.
pub open spec fn semantic_invalidated(pane: PaneView) -> PaneView {
    sweep_reset(
        PaneView {
            pane_clock: next_generation(pane.pane_clock),
            pending_stamp: None,
            terminal: None,
            status: Seq::empty(),
            ..pane
        },
    )
}

/// A pane at a frame change: its bookkeeping starts over, what is on screen
/// stays.
pub open spec fn pane_reset(pane: PaneView) -> PaneView {
    sweep_reset(
        PaneView { pending_stamp: None, terminal: None, status: Seq::empty(), ..pane },
    )
}

/// A pane at a session change: its bookkeeping starts over and it is blank.
pub open spec fn pane_cleared(pane: PaneView) -> PaneView {
    PaneView { texture: None, ..pane_reset(pane) }
}

/// A pane without its cursor readout.
pub open spec fn probe_dropped(pane: PaneView) -> PaneView {
    PaneView { probe_text: None, ..pane }
}

/// What becomes of a pane, alone or with others.
#[derive(Clone, Copy, Debug, PartialEq, Eq, Structural)]
pub enum PaneChange {
    View,
    Semantic,
    Reset,
    Clear,
    Sweep,
    Probe,
}

/// A pane after a change.
pub open spec fn pane_changed(pane: PaneView, change: PaneChange) -> PaneView {
    match change {
        PaneChange::View => view_invalidated(pane),
        PaneChange::Semantic => semantic_invalidated(pane),
        PaneChange::Reset => pane_reset(pane),
        PaneChange::Clear => pane_cleared(pane),
        PaneChange::Sweep => sweep_reset(pane),
        PaneChange::Probe => probe_dropped(pane),
    }
}

impl PaneRuntime {
    /// A pane that has shown nothing yet.
    pub fn new() -> (pane: Self)
        ensures
            pane@ == blank_pane(),
    {
        let pane = PaneRuntime {
            pane_clock: GenerationClock::new(),
            view_clock: GenerationClock::new(),
            sweep_clock: GenerationClock::new(),
            texture: None,
            pending_stamp: None,
            terminal: None,
            measured: false,
            status: String::new(),
            filter_line: None,
            probe_text: None,
            sweep_key: None,
            sweep_state: None,
        };
        assert(pane@.status =~= Seq::empty());
        pane
    }

    /// Starts the reveal over.
    pub fn reset_sweep(&mut self)
        ensures
            final(self)@ == sweep_reset(old(self)@),
    {
        self.sweep_key = None;
        self.sweep_state = None;
    }

    /// Asks for a picture of the same data under another view.
    pub fn invalidate_view(&mut self)
        ensures
            final(self)@ == view_invalidated(old(self)@),
    {
        let _ = self.view_clock.bump();
        self.pending_stamp = None;
        self.terminal = None;
    }

    /// Asks for a picture of other data.
    pub fn invalidate_semantic(&mut self)
        ensures
            final(self)@ == semantic_invalidated(old(self)@),
    {
        let _ = self.pane_clock.bump();
        self.pending_stamp = None;
        self.terminal = None;
        self.status = String::new();
        self.reset_sweep();
        assert(self@.status =~= Seq::empty());
    }

    /// Starts the bookkeeping over and keeps what is on screen.
    pub fn reset(&mut self)
        ensures
            final(self)@ == pane_reset(old(self)@),
    {
        self.pending_stamp = None;
        self.terminal = None;
        self.status = String::new();
        self.reset_sweep();
        assert(self@.status =~= Seq::empty());
    }

    /// Starts the bookkeeping over and blanks the pane.
    pub fn clear(&mut self)
        ensures
            final(self)@ == pane_cleared(old(self)@),
    {
        self.reset();
        self.texture = None;
    }

    /// Makes a change.
    fn change(&mut self, change: PaneChange)
        ensures
            final(self)@ == pane_changed(old(self)@, change),
    {
        match change {
            PaneChange::View => self.invalidate_view(),
            PaneChange::Semantic => self.invalidate_semantic(),
            PaneChange::Reset => self.reset(),
            PaneChange::Clear => self.clear(),
            PaneChange::Sweep => self.reset_sweep(),
            PaneChange::Probe => {
                self.probe_text = None;
            },
        }
    }
}

// ---------------------------------------------------------------------------
// The board
// ---------------------------------------------------------------------------

/// Every pane, and the clocks they share.
pub struct PaneBoard {
    pub session_clock: GenerationClock,
    pub frame_clock: GenerationClock,
    pub palette_clock: GenerationClock,
    pub panes: Vec<PaneRuntime>,
}

/// The board as contracts see it.
pub ghost struct BoardView {
    pub session: Generation,
    pub frame: Generation,
    pub palette: Generation,
    pub panes: Seq<PaneView>,
}

impl View for PaneBoard {
    type V = BoardView;

    open spec fn view(&self) -> BoardView {
        BoardView {
            session: self.session_clock.current,
            frame: self.frame_clock.current,
            palette: self.palette_clock.current,
            panes: self.panes@.map_values(|pane: PaneRuntime| pane@),
        }
    }
}

/// A board has every pane.
pub open spec fn board_wf(board: BoardView) -> bool {
    board.panes.len() == MAX_PANES
}

/// Places on the board.
pub open spec fn panes_wf(panes: Seq<usize>) -> bool {
    forall|i: int| 0 <= i < panes.len() ==> (#[trigger] panes[i]) < MAX_PANES
}

/// The stamp of a picture that would be current on a pane.
pub open spec fn stamp_of(board: BoardView, pane: int) -> RenderStamp {
    RenderStamp {
        pane_id: pane as usize,
        session: board.session,
        frame: board.frame,
        pane: board.panes[pane].pane_clock,
        view: board.panes[pane].view_clock,
        palette: board.palette,
        sweep: board.panes[pane].sweep_clock,
    }
}

/// The board with one pane changed.
pub open spec fn with_pane(board: BoardView, pane: int, value: PaneView) -> BoardView {
    BoardView { panes: board.panes.update(pane, value), ..board }
}

/// The board with the listed panes changed, one after another.
pub open spec fn with_panes(
    board: BoardView,
    listed: Seq<usize>,
    change: spec_fn(PaneView) -> PaneView,
) -> BoardView
    decreases listed.len(),
{
    if listed.len() == 0 {
        board
    } else {
        let before = with_panes(board, listed.drop_last(), change);
        let pane = listed.last() as int;
        with_pane(before, pane, change(before.panes[pane]))
    }
}

/// The board with every pane changed.
pub open spec fn with_every_pane(
    board: BoardView,
    change: spec_fn(PaneView) -> PaneView,
) -> BoardView {
    BoardView { panes: board.panes.map_values(change), ..board }
}

/// The listed panes asked for another view.
pub open spec fn views_invalidated(board: BoardView, listed: Seq<usize>) -> BoardView {
    with_panes(board, listed, |pane: PaneView| view_invalidated(pane))
}

/// The listed panes asked for other data.
pub open spec fn semantics_invalidated(board: BoardView, listed: Seq<usize>) -> BoardView {
    with_panes(board, listed, |pane: PaneView| semantic_invalidated(pane))
}

/// Every pane at a frame change.
pub open spec fn all_reset(board: BoardView) -> BoardView {
    with_every_pane(board, |pane: PaneView| pane_reset(pane))
}

/// Every pane at a session change.
pub open spec fn all_cleared(board: BoardView) -> BoardView {
    with_every_pane(board, |pane: PaneView| pane_cleared(pane))
}

/// Every pane with its reveal started over.
pub open spec fn all_sweeps_reset(board: BoardView) -> BoardView {
    with_every_pane(board, |pane: PaneView| sweep_reset(pane))
}

/// Another frame is on screen: every picture is stale and none is dropped.
pub open spec fn frame_changed(board: BoardView) -> BoardView {
    all_reset(BoardView { frame: next_generation(board.frame), ..board })
}

/// Another session begins: nothing of the last one is current or on screen.
pub open spec fn session_changed(board: BoardView) -> BoardView {
    all_cleared(
        BoardView {
            session: next_generation(board.session),
            frame: next_generation(board.frame),
            ..board
        },
    )
}

/// The colours changed: every visible pane is asked for another view.
pub open spec fn palette_changed(board: BoardView, visible: Seq<usize>) -> BoardView {
    views_invalidated(BoardView { palette: next_generation(board.palette), ..board }, visible)
}

/// Changing panes leaves the shared clocks and the unlisted panes alone.
pub proof fn lemma_with_panes(
    board: BoardView,
    listed: Seq<usize>,
    change: spec_fn(PaneView) -> PaneView,
)
    requires
        board_wf(board),
        panes_wf(listed),
    ensures
        board_wf(with_panes(board, listed, change)),
        with_panes(board, listed, change).session == board.session,
        with_panes(board, listed, change).frame == board.frame,
        with_panes(board, listed, change).palette == board.palette,
        forall|pane: int|
            0 <= pane < MAX_PANES && !listed.contains(pane as usize) ==> (#[trigger] with_panes(
                board,
                listed,
                change,
            ).panes[pane]) == board.panes[pane],
    decreases listed.len(),
{
    if listed.len() > 0 {
        let rest = listed.drop_last();
        assert(panes_wf(rest)) by {
            assert forall|i: int| 0 <= i < rest.len() implies (#[trigger] rest[i])
                < MAX_PANES by {
                assert(rest[i] == listed[i]);
            }
        }
        lemma_with_panes(board, rest, change);
        let last = listed.last();
        assert(last == listed[listed.len() - 1]);
        assert forall|pane: int| 0 <= pane < MAX_PANES && !listed.contains(pane as usize) implies (
        #[trigger] with_panes(board, listed, change).panes[pane]) == board.panes[pane] by {
            assert(listed.contains(last));
            assert(!rest.contains(pane as usize)) by {
                if rest.contains(pane as usize) {
                    let k = choose|k: int| 0 <= k < rest.len() && rest[k] == pane as usize;
                    assert(listed[k] == pane as usize);
                }
            }
        }
    }
}

/// A pane that is listed once is changed once.
pub proof fn lemma_with_panes_listed(
    board: BoardView,
    listed: Seq<usize>,
    change: spec_fn(PaneView) -> PaneView,
    at: int,
)
    requires
        board_wf(board),
        panes_wf(listed),
        listed.no_duplicates(),
        0 <= at < listed.len(),
    ensures
        with_panes(board, listed, change).panes[listed[at] as int] == change(
            board.panes[listed[at] as int],
        ),
    decreases listed.len(),
{
    let rest = listed.drop_last();
    assert(panes_wf(rest)) by {
        assert forall|i: int| 0 <= i < rest.len() implies (#[trigger] rest[i]) < MAX_PANES by {
            assert(rest[i] == listed[i]);
        }
    }
    lemma_with_panes(board, rest, change);
    if at == listed.len() - 1 {
        assert(!rest.contains(listed[at]));
    } else {
        assert(rest.no_duplicates());
        lemma_with_panes_listed(board, rest, change, at);
        assert(rest[at] == listed[at]);
        assert(listed[at] != listed.last());
    }
}

/// A pane that is asked for another view, or for other data, has a new stamp,
/// keeps its picture, and waits for nothing: the next request is a new one.
pub proof fn law_an_invalidated_pane_asks_again(board: BoardView, listed: Seq<usize>, at: int)
    requires
        board_wf(board),
        panes_wf(listed),
        listed.no_duplicates(),
        0 <= at < listed.len(),
    ensures
        ({
            let pane = listed[at] as int;
            let viewed = views_invalidated(board, listed);
            let changed = semantics_invalidated(board, listed);
            &&& stamp_of(viewed, pane) != stamp_of(board, pane)
            &&& viewed.panes[pane].texture == board.panes[pane].texture
            &&& viewed.panes[pane].pending_stamp is None
            &&& viewed.panes[pane].terminal is None
            &&& stamp_of(changed, pane) != stamp_of(board, pane)
            &&& changed.panes[pane].texture == board.panes[pane].texture
            &&& changed.panes[pane].pending_stamp is None
            &&& changed.panes[pane].terminal is None
        }),
{
    lemma_with_panes_listed(board, listed, |pane: PaneView| view_invalidated(pane), at);
    lemma_with_panes_listed(board, listed, |pane: PaneView| semantic_invalidated(pane), at);
    lemma_with_panes(board, listed, |pane: PaneView| view_invalidated(pane));
    lemma_with_panes(board, listed, |pane: PaneView| semantic_invalidated(pane));
    crate::clock::law_a_bump_changes_the_reading(board.panes[listed[at] as int].view_clock);
    crate::clock::law_a_bump_changes_the_reading(board.panes[listed[at] as int].pane_clock);
}

/// A frame change inside a session holds every picture, and makes each of them
/// stale; a session change drops every picture.
pub proof fn law_frames_hold_and_sessions_blank(board: BoardView, pane: int)
    requires
        board_wf(board),
        0 <= pane < MAX_PANES,
    ensures
        frame_changed(board).panes[pane].texture == board.panes[pane].texture,
        stamp_of(frame_changed(board), pane) != stamp_of(board, pane),
        session_changed(board).panes[pane].texture is None,
        stamp_of(session_changed(board), pane) != stamp_of(board, pane),
{
    crate::clock::law_a_bump_changes_the_reading(board.frame);
    crate::clock::law_a_bump_changes_the_reading(board.session);
}

impl PaneBoard {
    /// A board of blank panes.
    pub fn new() -> (board: Self)
        ensures
            board_wf(board@),
            board@.session == (Generation { value: 0 }),
            board@.frame == (Generation { value: 0 }),
            board@.palette == (Generation { value: 0 }),
            forall|i: int| 0 <= i < MAX_PANES ==> #[trigger] board@.panes[i] == blank_pane(),
    {
        let mut panes: Vec<PaneRuntime> = Vec::new();
        while panes.len() < MAX_PANES
            invariant
                panes@.len() <= MAX_PANES,
                forall|i: int| 0 <= i < panes@.len() ==> (#[trigger] panes@[i])@ == blank_pane(),
            decreases MAX_PANES - panes@.len(),
        {
            panes.push(PaneRuntime::new());
        }
        PaneBoard {
            session_clock: GenerationClock::new(),
            frame_clock: GenerationClock::new(),
            palette_clock: GenerationClock::new(),
            panes,
        }
    }

    /// The stamp of a picture that would be current on a pane.
    pub fn current_stamp(&self, pane: usize) -> (stamp: RenderStamp)
        requires
            board_wf(self@),
            pane < MAX_PANES,
        ensures
            stamp == stamp_of(self@, pane as int),
    {
        assert(self@.panes[pane as int] == self.panes@[pane as int]@);
        RenderStamp {
            pane_id: pane,
            session: self.session_clock.current(),
            frame: self.frame_clock.current(),
            pane: self.panes[pane].pane_clock.current(),
            view: self.panes[pane].view_clock.current(),
            palette: self.palette_clock.current(),
            sweep: self.panes[pane].sweep_clock.current(),
        }
    }

    /// Changes the listed panes, one after the other.
    fn change_panes(&mut self, listed: &Vec<usize>, change: PaneChange)
        requires
            board_wf(old(self)@),
            panes_wf(listed@),
        ensures
            final(self)@ == with_panes(
                old(self)@,
                listed@,
                |pane: PaneView| pane_changed(pane, change),
            ),
            board_wf(final(self)@),
    {
        let ghost step = |pane: PaneView| pane_changed(pane, change);
        let mut at: usize = 0;
        assert(listed@.take(0) =~= Seq::empty());
        while at < listed.len()
            invariant
                at <= listed@.len(),
                board_wf(self@),
                panes_wf(listed@),
                step == (|pane: PaneView| pane_changed(pane, change)),
                self@ == with_panes(old(self)@, listed@.take(at as int), step),
            decreases listed@.len() - at,
        {
            let pane: usize = listed[at];
            let ghost before = self@;
            let mut runtime = self.panes.remove(pane);
            assert(runtime@ == before.panes[pane as int]);
            runtime.change(change);
            self.panes.insert(pane, runtime);
            proof {
                let next = listed@.take(at + 1);
                assert(next.drop_last() =~= listed@.take(at as int));
                assert(next.last() == pane);
                assert(self@.panes =~= before.panes.update(pane as int, runtime@));
                assert(self@ == with_panes(old(self)@, next, step));
            }
            at = at + 1;
        }
        assert(listed@.take(listed@.len() as int) =~= listed@);
    }

    /// Changes every pane.
    fn change_every_pane(&mut self, change: PaneChange)
        requires
            board_wf(old(self)@),
        ensures
            final(self)@ == with_every_pane(
                old(self)@,
                |pane: PaneView| pane_changed(pane, change),
            ),
            board_wf(final(self)@),
    {
        let ghost before = self@;
        let mut at: usize = 0;
        while at < MAX_PANES
            invariant
                at <= MAX_PANES,
                before == old(self)@,
                board_wf(before),
                board_wf(self@),
                self@.session == before.session,
                self@.frame == before.frame,
                self@.palette == before.palette,
                forall|i: int|
                    0 <= i < at ==> #[trigger] self@.panes[i] == pane_changed(
                        before.panes[i],
                        change,
                    ),
                forall|i: int|
                    at <= i < MAX_PANES ==> #[trigger] self@.panes[i] == before.panes[i],
            decreases MAX_PANES - at,
        {
            let ghost here = self@;
            let mut runtime = self.panes.remove(at);
            assert(runtime@ == here.panes[at as int]);
            runtime.change(change);
            self.panes.insert(at, runtime);
            assert(self@.panes =~= here.panes.update(at as int, runtime@));
            at = at + 1;
        }
        assert(self@.panes =~= with_every_pane(
            before,
            |pane: PaneView| pane_changed(pane, change),
        ).panes);
    }

    /// Asks the listed panes for another view of the same data.
    pub fn invalidate_view_panes(&mut self, listed: &Vec<usize>)
        requires
            board_wf(old(self)@),
            panes_wf(listed@),
        ensures
            final(self)@ == views_invalidated(old(self)@, listed@),
            board_wf(final(self)@),
    {
        self.change_panes(listed, PaneChange::View);
        assert((|pane: PaneView| pane_changed(pane, PaneChange::View)) =~= (|pane: PaneView|
            view_invalidated(pane)));
    }

    /// Asks the listed panes for other data.
    pub fn invalidate_semantic_panes(&mut self, listed: &Vec<usize>)
        requires
            board_wf(old(self)@),
            panes_wf(listed@),
        ensures
            final(self)@ == semantics_invalidated(old(self)@, listed@),
            board_wf(final(self)@),
    {
        self.change_panes(listed, PaneChange::Semantic);
        assert((|pane: PaneView| pane_changed(pane, PaneChange::Semantic)) =~= (|pane: PaneView|
            semantic_invalidated(pane)));
    }

    /// Starts every pane's bookkeeping over and keeps what is on screen.
    pub fn reset_all_panes(&mut self)
        requires
            board_wf(old(self)@),
        ensures
            final(self)@ == all_reset(old(self)@),
            board_wf(final(self)@),
    {
        self.change_every_pane(PaneChange::Reset);
        assert((|pane: PaneView| pane_changed(pane, PaneChange::Reset)) =~= (|pane: PaneView|
            pane_reset(pane)));
    }

    /// Starts every pane's bookkeeping over and blanks them all.
    pub fn clear_all_panes(&mut self)
        requires
            board_wf(old(self)@),
        ensures
            final(self)@ == all_cleared(old(self)@),
            board_wf(final(self)@),
    {
        self.change_every_pane(PaneChange::Clear);
        assert((|pane: PaneView| pane_changed(pane, PaneChange::Clear)) =~= (|pane: PaneView|
            pane_cleared(pane)));
    }

    /// Starts every pane's reveal over.
    pub fn reset_all_sweeps(&mut self)
        requires
            board_wf(old(self)@),
        ensures
            final(self)@ == all_sweeps_reset(old(self)@),
            board_wf(final(self)@),
    {
        self.change_every_pane(PaneChange::Sweep);
        assert((|pane: PaneView| pane_changed(pane, PaneChange::Sweep)) =~= (|pane: PaneView|
            sweep_reset(pane)));
    }

    /// Drops every pane's cursor readout, so that it is built anew.
    pub fn drop_probe_texts(&mut self)
        requires
            board_wf(old(self)@),
        ensures
            final(self)@ == probes_dropped(old(self)@),
            board_wf(final(self)@),
    {
        self.change_every_pane(PaneChange::Probe);
        assert((|pane: PaneView| pane_changed(pane, PaneChange::Probe)) =~= (|pane: PaneView|
            probe_dropped(pane)));
    }

    /// Another frame is on screen.
    pub fn note_frame_change(&mut self)
        requires
            board_wf(old(self)@),
        ensures
            final(self)@ == frame_changed(old(self)@),
            board_wf(final(self)@),
    {
        let _ = self.frame_clock.bump();
        self.reset_all_panes();
    }

    /// Another session begins; gives its generation.
    pub fn note_session_change(&mut self) -> (generation: Generation)
        requires
            board_wf(old(self)@),
        ensures
            final(self)@ == session_changed(old(self)@),
            generation == final(self)@.session,
            board_wf(final(self)@),
    {
        let generation = self.session_clock.bump();
        let _ = self.frame_clock.bump();
        self.clear_all_panes();
        generation
    }

    /// The colours changed.
    pub fn note_palette_change(&mut self, visible: &Vec<usize>)
        requires
            board_wf(old(self)@),
            panes_wf(visible@),
        ensures
            final(self)@ == palette_changed(old(self)@, visible@),
            board_wf(final(self)@),
    {
        let _ = self.palette_clock.bump();
        self.invalidate_view_panes(visible);
    }

    /// Takes note of a pane's size. A size that is new, or that moved by more
    /// than layout noise, asks for another view.
    pub fn update_viewport(&mut self, pane: usize, moved: bool)
        requires
            board_wf(old(self)@),
            pane < MAX_PANES,
        ensures
            final(self)@ == viewport_updated(old(self)@, pane as int, moved),
            board_wf(final(self)@),
    {
        let ghost before = self@;
        let mut runtime = self.panes.remove(pane);
        assert(runtime@ == before.panes[pane as int]);
        if !runtime.measured || moved {
            runtime.measured = true;
            runtime.pending_stamp = None;
            let _ = runtime.view_clock.bump();
        }
        self.panes.insert(pane, runtime);
        assert(self@.panes =~= before.panes.update(pane as int, runtime@));
        assert(before.panes.update(pane as int, before.panes[pane as int]) =~= before.panes);
    }
}

/// Every pane without its cursor readout.
pub open spec fn probes_dropped(board: BoardView) -> BoardView {
    with_every_pane(board, |pane: PaneView| probe_dropped(pane))
}

/// The board after a pane's size was noted.
pub open spec fn viewport_updated(board: BoardView, pane: int, moved: bool) -> BoardView {
    let runtime = board.panes[pane];
    if !runtime.measured || moved {
        with_pane(
            board,
            pane,
            PaneView {
                measured: true,
                pending_stamp: None,
                view_clock: next_generation(runtime.view_clock),
                ..runtime
            },
        )
    } else {
        board
    }
}

// ---------------------------------------------------------------------------
// Asking for pictures
// ---------------------------------------------------------------------------

/// What a pane wants drawn, and what is known of it.
pub struct RenderWish<'a> {
    /// The producer's name of the exact source field, where the pane carries
    /// one.
    pub source_name: Option<&'a str>,
    /// The modeled product's id.
    pub product_id: &'a str,
    /// The sweep that serves the pane, where one does.
    pub cut_index: Option<usize>,
    /// Whether the volume has been measured.
    pub measured: bool,
    /// Whether the source field has finite values on that sweep.
    pub source_has_values: bool,
}

/// What to do about a pane's picture.
#[derive(Clone, Copy, Debug, PartialEq, Eq, Structural)]
pub enum RenderDecision {
    /// Nothing.
    Rest,
    /// Ask the worker for this stamp of this sweep; a sweep still arriving is
    /// drawn over the last complete one as far as it has been revealed.
    Ask { stamp: RenderStamp, cut_index: usize, blend: Option<SweepState> },
}

/// The name a pane's picture goes by: the source field's, or the product's.
pub open spec fn wish_name(wish: RenderWish) -> Seq<char> {
    match wish.source_name {
        Some(name) => name@,
        None => wish.product_id@,
    }
}

/// A pane for which there will be no picture of its current stamp. Where it
/// carries a source field nothing else may stay on screen in its name.
pub open spec fn unavailable(
    board: BoardView,
    pane: int,
    blank: bool,
    status: Seq<char>,
) -> BoardView {
    let runtime = board.panes[pane];
    with_pane(
        board,
        pane,
        PaneView {
            pending_stamp: None,
            terminal: Some(RenderTerminal::Unavailable(stamp_of(board, pane))),
            texture: if blank {
                None
            } else {
                runtime.texture
            },
            status,
            ..runtime
        },
    )
}

/// Whether a pane has, or waits for, a picture of its current stamp, or has been
/// told that it failed.
pub open spec fn settled(board: BoardView, pane: int) -> bool {
    let runtime = board.panes[pane];
    let stamp = stamp_of(board, pane);
    ||| (runtime.texture matches Some(texture) && texture.stamp == stamp)
    ||| runtime.pending_stamp == Some(stamp)
    ||| runtime.terminal == Some(RenderTerminal::Failed(stamp))
}

/// What a pane is given for a wish: the board after it, and what to do.
pub open spec fn render_decided(board: BoardView, pane: int, wish: RenderWish) -> (
    BoardView,
    RenderDecision,
) {
    match wish.cut_index {
        None => (
            unavailable(
                board,
                pane,
                wish.source_name is Some,
                wish_name(wish) + " unavailable"@,
            ),
            RenderDecision::Rest,
        ),
        Some(cut_index) => if settled(board, pane) || !wish.measured {
            (board, RenderDecision::Rest)
        } else if wish.source_name is Some && !wish.source_has_values {
            (
                unavailable(board, pane, true, wish_name(wish) + " has no finite values"@),
                RenderDecision::Rest,
            )
        } else {
            (
                board,
                RenderDecision::Ask {
                    stamp: stamp_of(board, pane),
                    cut_index,
                    blend: match board.panes[pane].sweep_state {
                        Some(state) => if wish.source_name is None && !state.complete {
                            Some(state)
                        } else {
                            None
                        },
                        None => None,
                    },
                },
            )
        },
    }
}

/// What became of a request.
pub open spec fn request_noted(
    board: BoardView,
    pane: int,
    stamp: RenderStamp,
    accepted: bool,
) -> BoardView {
    let runtime = board.panes[pane];
    with_pane(
        board,
        pane,
        if accepted {
            PaneView { pending_stamp: Some(stamp), status: "rendering"@, ..runtime }
        } else {
            PaneView { status: "render worker closed"@, ..runtime }
        },
    )
}

/// A failed stamp is never asked for again: as long as nothing moves a clock,
/// the pane rests.
pub proof fn law_a_failed_stamp_is_never_asked_again(
    board: BoardView,
    pane: int,
    message: Seq<char>,
    wish: RenderWish,
)
    requires
        board_wf(board),
        0 <= pane < MAX_PANES,
    ensures
        ({
            let failed = render_failed(board, pane, stamp_of(board, pane), message);
            render_decided(failed, pane, wish).1 == RenderDecision::Rest
        }),
{
}

/// Whether the picture on screen was asked for by now: its stamp reads no later
/// than the pane's clocks, which have not come round.
pub open spec fn picture_is_of_the_past(pane: PaneView) -> bool {
    &&& pane.view_clock.value < u64::MAX
    &&& pane.pane_clock.value < u64::MAX
    &&& pane.texture matches Some(texture) ==> texture.stamp.view.value <= pane.view_clock.value
        && texture.stamp.pane.value <= pane.pane_clock.value
}

/// A pane that is asked for another view, or for other data, is given a picture
/// again, whatever it shows, waits for or was told before.
pub proof fn law_a_moved_clock_retries(board: BoardView, pane: usize, wish: RenderWish)
    requires
        board_wf(board),
        pane < MAX_PANES,
        wish.cut_index is Some,
        wish.measured,
        wish.source_name is None || wish.source_has_values,
        picture_is_of_the_past(board.panes[pane as int]),
    ensures
        render_decided(views_invalidated(board, seq![pane]), pane as int, wish).1 is Ask,
        render_decided(semantics_invalidated(board, seq![pane]), pane as int, wish).1 is Ask,
{
    let listed = seq![pane];
    assert(listed[0] == pane);
    lemma_with_panes_listed(board, listed, |one: PaneView| view_invalidated(one), 0);
    lemma_with_panes_listed(board, listed, |one: PaneView| semantic_invalidated(one), 0);
}

impl PaneBoard {
    /// Decides what to do about a pane's picture.
    pub fn ensure_render_requested(&mut self, pane: usize, wish: &RenderWish) -> (decision:
        RenderDecision)
        requires
            board_wf(old(self)@),
            pane < MAX_PANES,
        ensures
            (final(self)@, decision) == render_decided(old(self)@, pane as int, *wish),
            board_wf(final(self)@),
    {
        let stamp = self.current_stamp(pane);
        let ghost before = self@;
        let cut_index: usize = match wish.cut_index {
            None => {
                let mut status = match wish.source_name {
                    Some(name) => name.to_owned(),
                    None => wish.product_id.to_owned(),
                };
                status.append(" unavailable");
                self.mark_unavailable(pane, stamp, wish.source_name.is_some(), status);
                return RenderDecision::Rest;
            },
            Some(index) => index,
        };
        assert(before.panes[pane as int] == self.panes@[pane as int]@);
        let current = match self.panes[pane].texture {
            Some(texture) => texture.stamp == stamp,
            None => false,
        };
        let pending = match self.panes[pane].pending_stamp {
            Some(waiting) => waiting == stamp,
            None => false,
        };
        let failed = match self.panes[pane].terminal {
            Some(RenderTerminal::Failed(dead)) => dead == stamp,
            _ => false,
        };
        assert((current || pending || failed) == settled(before, pane as int));
        if current || pending || failed || !wish.measured {
            return RenderDecision::Rest;
        }
        if let Some(name) = wish.source_name {
            if !wish.source_has_values {
                let mut status = name.to_owned();
                status.append(" has no finite values");
                self.mark_unavailable(pane, stamp, true, status);
                return RenderDecision::Rest;
            }
        }
        let blend = match self.panes[pane].sweep_state {
            Some(state) => if wish.source_name.is_none() && !state.complete {
                Some(state)
            } else {
                None
            },
            None => None,
        };
        RenderDecision::Ask { stamp, cut_index, blend }
    }

    /// Records that there will be no picture of a pane's current stamp.
    fn mark_unavailable(&mut self, pane: usize, stamp: RenderStamp, blank: bool, status: String)
        requires
            board_wf(old(self)@),
            pane < MAX_PANES,
            stamp == stamp_of(old(self)@, pane as int),
        ensures
            final(self)@ == unavailable(old(self)@, pane as int, blank, status@),
            board_wf(final(self)@),
    {
        let ghost before = self@;
        let mut runtime = self.panes.remove(pane);
        assert(runtime@ == before.panes[pane as int]);
        runtime.pending_stamp = None;
        runtime.terminal = Some(RenderTerminal::Unavailable(stamp));
        if blank {
            runtime.texture = None;
        }
        runtime.status = status;
        self.panes.insert(pane, runtime);
        assert(self@.panes =~= before.panes.update(pane as int, runtime@));
    }

    /// Records what became of a request the worker was given.
    pub fn note_request(&mut self, pane: usize, stamp: RenderStamp, accepted: bool)
        requires
            board_wf(old(self)@),
            pane < MAX_PANES,
        ensures
            final(self)@ == request_noted(old(self)@, pane as int, stamp, accepted),
            board_wf(final(self)@),
    {
        let ghost before = self@;
        let mut runtime = self.panes.remove(pane);
        assert(runtime@ == before.panes[pane as int]);
        if accepted {
            runtime.pending_stamp = Some(stamp);
            runtime.status = "rendering".to_owned();
        } else {
            runtime.status = "render worker closed".to_owned();
        }
        self.panes.insert(pane, runtime);
        assert(self@.panes =~= before.panes.update(pane as int, runtime@));
    }
}

// ---------------------------------------------------------------------------
// Pictures that arrive
// ---------------------------------------------------------------------------

/// The board after the worker failed a stamp. A failure of anything but the
/// pane's current stamp says nothing about it.
pub open spec fn render_failed(
    board: BoardView,
    pane: int,
    stamp: RenderStamp,
    message: Seq<char>,
) -> BoardView {
    if stamp == stamp_of(board, pane) {
        with_pane(
            board,
            pane,
            PaneView {
                pending_stamp: None,
                terminal: Some(RenderTerminal::Failed(stamp)),
                status: message,
                ..board.panes[pane]
            },
        )
    } else {
        board
    }
}

/// What to do with a picture that arrived.
#[derive(Clone, Copy, Debug, PartialEq, Eq, Structural)]
pub enum TextureAction {
    /// Drop it: it is a picture of something else.
    Discard,
    /// Write it into the texture the pane has.
    Update,
    /// Give the pane a texture of this size.
    Replace,
}

/// A picture that arrived, but for its pixels.
pub struct RenderedPane {
    pub pane: usize,
    pub stamp: RenderStamp,
    pub width: u32,
    pub height: u32,
    /// How long it took, in the words the pane header uses.
    pub elapsed_text: String,
    /// The engine's account of the gates it removed, where it removed any.
    pub filter_line: Option<String>,
}

/// Whether two stamps differ in the view alone.
pub open spec fn differs_in_view_only(stamp: RenderStamp, current: RenderStamp) -> bool {
    stamp != current && (RenderStamp { view: current.view, ..stamp }) == current
}

/// Whether a picture of `stamp` belongs on a pane: it is current, or it is the
/// same data under an older camera and nothing newer is on screen.
pub open spec fn belongs(board: BoardView, pane: int, stamp: RenderStamp) -> bool {
    let current = stamp_of(board, pane);
    let on_screen = board.panes[pane].texture;
    ||| stamp == current
    ||| differs_in_view_only(stamp, current) && !(on_screen matches Some(texture) && texture.stamp
        == current)
}

/// What to do with a picture.
pub open spec fn texture_action(
    board: BoardView,
    pane: int,
    stamp: RenderStamp,
    width: u32,
    height: u32,
) -> TextureAction {
    if !belongs(board, pane, stamp) {
        TextureAction::Discard
    } else {
        match board.panes[pane].texture {
            Some(texture) => if texture.width == width && texture.height == height {
                TextureAction::Update
            } else {
                TextureAction::Replace
            },
            None => TextureAction::Replace,
        }
    }
}

/// The board after a picture arrived. A picture under an older camera leaves
/// the render of the current stamp owed.
pub open spec fn render_installed(board: BoardView, rendered: RenderedPane) -> BoardView {
    let pane = rendered.pane as int;
    let runtime = board.panes[pane];
    if !belongs(board, pane, rendered.stamp) {
        board
    } else {
        let shown = PaneView {
            texture: Some(
                InstalledTexture {
                    stamp: rendered.stamp,
                    width: rendered.width,
                    height: rendered.height,
                },
            ),
            ..runtime
        };
        with_pane(
            board,
            pane,
            if rendered.stamp == stamp_of(board, pane) {
                PaneView {
                    pending_stamp: None,
                    terminal: None,
                    status: rendered.elapsed_text@,
                    filter_line: text_view(rendered.filter_line),
                    ..shown
                }
            } else {
                shown
            },
        )
    }
}

/// A picture that is exactly current is never replaced by an older view of it,
/// and never by a picture of other data.
pub proof fn law_a_current_picture_stays(board: BoardView, rendered: RenderedPane)
    requires
        board_wf(board),
        rendered.pane < MAX_PANES,
        rendered.stamp != stamp_of(board, rendered.pane as int),
        board.panes[rendered.pane as int].texture matches Some(texture) && texture.stamp
            == stamp_of(board, rendered.pane as int),
    ensures
        render_installed(board, rendered) == board,
{
}

/// A picture of another session, frame, product, palette or reveal never
/// reaches the screen.
pub proof fn law_other_data_is_never_shown(board: BoardView, rendered: RenderedPane)
    requires
        board_wf(board),
        rendered.pane < MAX_PANES,
        ({
            let current = stamp_of(board, rendered.pane as int);
            let stamp = rendered.stamp;
            ||| stamp.pane_id != current.pane_id
            ||| stamp.session != current.session
            ||| stamp.frame != current.frame
            ||| stamp.pane != current.pane
            ||| stamp.palette != current.palette
            ||| stamp.sweep != current.sweep
        }),
    ensures
        render_installed(board, rendered) == board,
        texture_action(
            board,
            rendered.pane as int,
            rendered.stamp,
            rendered.width,
            rendered.height,
        ) == TextureAction::Discard,
{
}

/// A picture under an older camera leaves the exact render owed: what the pane
/// waits for does not change.
pub proof fn law_an_older_view_leaves_the_render_owed(board: BoardView, rendered: RenderedPane)
    requires
        board_wf(board),
        rendered.pane < MAX_PANES,
        rendered.stamp != stamp_of(board, rendered.pane as int),
    ensures
        render_installed(board, rendered).panes[rendered.pane as int].pending_stamp
            == board.panes[rendered.pane as int].pending_stamp,
        render_installed(board, rendered).panes[rendered.pane as int].terminal
            == board.panes[rendered.pane as int].terminal,
{
}

/// The name a new texture is given: the pane, the view's generation, the size.
pub open spec fn texture_label(rendered: RenderedPane) -> Seq<char> {
    "radar-pane-"@ + decimal(rendered.pane as nat) + "-"@ + decimal(
        rendered.stamp.view.value as nat,
    ) + "-"@ + decimal(rendered.width as nat) + "x"@ + decimal(rendered.height as nat)
}

/// The name a new texture is given.
pub fn texture_name(rendered: &RenderedPane) -> (name: String)
    ensures
        name@ == texture_label(*rendered),
{
    let mut name = "radar-pane-".to_owned();
    append_decimal(&mut name, rendered.pane as u64);
    name.append("-");
    append_decimal(&mut name, rendered.stamp.view.value);
    name.append("-");
    append_decimal(&mut name, rendered.width as u64);
    name.append("x");
    append_decimal(&mut name, rendered.height as u64);
    name
}

impl PaneBoard {
    /// Records that the worker could not draw a stamp.
    pub fn handle_render_failure(&mut self, pane: usize, stamp: RenderStamp, message: String)
        requires
            board_wf(old(self)@),
            pane < MAX_PANES,
        ensures
            final(self)@ == render_failed(old(self)@, pane as int, stamp, message@),
            board_wf(final(self)@),
    {
        let current = self.current_stamp(pane);
        if stamp == current {
            let ghost before = self@;
            let mut runtime = self.panes.remove(pane);
            assert(runtime@ == before.panes[pane as int]);
            runtime.pending_stamp = None;
            runtime.terminal = Some(RenderTerminal::Failed(stamp));
            runtime.status = message;
            self.panes.insert(pane, runtime);
            assert(self@.panes =~= before.panes.update(pane as int, runtime@));
        }
    }

    /// Takes a picture that arrived, and says what to do with its pixels.
    pub fn install_render(&mut self, rendered: RenderedPane) -> (action: TextureAction)
        requires
            board_wf(old(self)@),
            rendered.pane < MAX_PANES,
        ensures
            final(self)@ == render_installed(old(self)@, rendered),
            action == texture_action(
                old(self)@,
                rendered.pane as int,
                rendered.stamp,
                rendered.width,
                rendered.height,
            ),
            board_wf(final(self)@),
    {
        let pane: usize = rendered.pane;
        let current = self.current_stamp(pane);
        let ghost before = self@;
        assert(before.panes[pane as int] == self.panes@[pane as int]@);
        let exact = rendered.stamp == current;
        let mut reviewed = rendered.stamp;
        reviewed.view = current.view;
        let view_stale_only = !exact && reviewed == current;
        if !exact && !view_stale_only {
            return TextureAction::Discard;
        }
        let current_on_screen = match self.panes[pane].texture {
            Some(texture) => texture.stamp == current,
            None => false,
        };
        if view_stale_only && current_on_screen {
            return TextureAction::Discard;
        }
        let same_size = match self.panes[pane].texture {
            Some(texture) => texture.width == rendered.width && texture.height == rendered.height,
            None => false,
        };
        let mut runtime = self.panes.remove(pane);
        assert(runtime@ == before.panes[pane as int]);
        runtime.texture =
        Some(
            InstalledTexture {
                stamp: rendered.stamp,
                width: rendered.width,
                height: rendered.height,
            },
        );
        if exact {
            runtime.pending_stamp = None;
            runtime.terminal = None;
            runtime.status = rendered.elapsed_text;
            runtime.filter_line = rendered.filter_line;
        }
        self.panes.insert(pane, runtime);
        assert(self@.panes =~= before.panes.update(pane as int, runtime@));
        if same_size {
            TextureAction::Update
        } else {
            TextureAction::Replace
        }
    }
}

// ---------------------------------------------------------------------------
// Readiness
// ---------------------------------------------------------------------------

/// Whether a pane has said its last word about its current stamp: its picture
/// is on screen, or none is coming.
pub open spec fn pane_ready(board: BoardView, pane: int) -> bool {
    let runtime = board.panes[pane];
    let stamp = stamp_of(board, pane);
    &&& runtime.pending_stamp is None
    &&& ((runtime.texture matches Some(texture) && texture.stamp == stamp) || (
    runtime.terminal matches Some(terminal) && terminal_stamp(terminal) == stamp))
}

/// Whether every listed pane is ready.
pub open spec fn all_ready(board: BoardView, listed: Seq<usize>) -> bool {
    forall|i: int| 0 <= i < listed.len() ==> pane_ready(board, #[trigger] listed[i] as int)
}

/// A pane whose current stamp failed, or has no picture, does not hold playback
/// back.
pub proof fn law_a_terminal_pane_is_ready(
    board: BoardView,
    pane: int,
    message: Seq<char>,
    blank: bool,
)
    requires
        board_wf(board),
        0 <= pane < MAX_PANES,
    ensures
        pane_ready(render_failed(board, pane, stamp_of(board, pane), message), pane),
        pane_ready(unavailable(board, pane, blank, message), pane),
{
}

/// A held picture is not readiness: after a frame change no pane is ready until
/// a picture of the new frame lands, whatever it holds of earlier ones.
pub proof fn law_a_held_picture_is_not_ready(board: BoardView, pane: int)
    requires
        board_wf(board),
        0 <= pane < MAX_PANES,
        board.frame.value < u64::MAX,
        board.panes[pane].texture matches Some(texture) ==> texture.stamp.frame.value
            <= board.frame.value,
    ensures
        !pane_ready(frame_changed(board), pane),
{
}

/// What is asked for is what was wished for: the sweep is the one that serves the
/// pane, the stamp reads the pane's clocks and the shared ones of this moment, and
/// a sweep that is still arriving is blended in as far as it has been revealed,
/// except under a source field.
pub proof fn law_a_request_is_for_the_wished_sweep(board: BoardView, pane: int, wish: RenderWish)
    requires
        board_wf(board),
        0 <= pane < MAX_PANES,
    ensures
        render_decided(board, pane, wish).1 matches RenderDecision::Ask {
            stamp,
            cut_index,
            blend,
        } ==> {
            &&& wish.cut_index == Some(cut_index)
            &&& stamp.pane_id == pane
            &&& stamp.session == board.session
            &&& stamp.frame == board.frame
            &&& stamp.palette == board.palette
            &&& stamp.pane == board.panes[pane].pane_clock
            &&& stamp.view == board.panes[pane].view_clock
            &&& stamp.sweep == board.panes[pane].sweep_clock
            &&& blend matches Some(state) ==> board.panes[pane].sweep_state == Some(state)
            &&& blend is Some <==> wish.source_name is None && (
            board.panes[pane].sweep_state matches Some(state) && !state.complete)
            &&& render_decided(board, pane, wish).0 == board
        },
{
}

/// When a picture is asked for: the volume is measured, a sweep serves the pane,
/// its source field has something to draw, and of what the pane shows, waits for
/// or was told failed, nothing carries the stamp that its clocks read now.
pub proof fn law_when_a_picture_is_asked_for(board: BoardView, pane: int, wish: RenderWish)
    requires
        board_wf(board),
        0 <= pane < MAX_PANES,
    ensures
        ({
            let runtime = board.panes[pane];
            let now = RenderStamp {
                pane_id: pane as usize,
                session: board.session,
                frame: board.frame,
                pane: runtime.pane_clock,
                view: runtime.view_clock,
                palette: board.palette,
                sweep: runtime.sweep_clock,
            };
            render_decided(board, pane, wish).1 is Ask <==> {
                &&& wish.cut_index is Some
                &&& wish.measured
                &&& wish.source_name is Some ==> wish.source_has_values
                &&& !(runtime.texture matches Some(texture) && texture.stamp == now)
                &&& runtime.pending_stamp != Some(now)
                &&& runtime.terminal != Some(RenderTerminal::Failed(now))
            }
        }),
{
}

/// What a decision leaves of the board: nothing but the pane may change, and it
/// does only where no picture of its stamp can be had. Then it waits for none, is
/// told so of its present stamp, and keeps what it shows unless it stands for a
/// source field.
pub proof fn law_a_pane_without_data_is_told_so(
    board: BoardView,
    pane: int,
    wish: RenderWish,
    other: int,
)
    requires
        board_wf(board),
        0 <= pane < MAX_PANES,
        0 <= other < MAX_PANES,
    ensures
        ({
            let after = render_decided(board, pane, wish).0;
            let told = after.panes[pane];
            let name = match wish.source_name {
                Some(name) => name@,
                None => wish.product_id@,
            };
            &&& after.session == board.session
            &&& after.frame == board.frame
            &&& after.palette == board.palette
            &&& after.panes.len() == board.panes.len()
            &&& other != pane ==> after.panes[other] == board.panes[other]
            &&& after != board ==> render_decided(board, pane, wish).1 == RenderDecision::Rest
            &&& wish.cut_index is None ==> told.status == name + " unavailable"@
            &&& wish.cut_index is Some && after != board ==> wish.source_name is Some
                && !wish.source_has_values && told.status == name + " has no finite values"@
            &&& wish.cut_index is None || after != board ==> {
                &&& told.pending_stamp is None
                &&& told.terminal == Some(
                    RenderTerminal::Unavailable(
                        RenderStamp {
                            pane_id: pane as usize,
                            session: board.session,
                            frame: board.frame,
                            pane: board.panes[pane].pane_clock,
                            view: board.panes[pane].view_clock,
                            palette: board.palette,
                            sweep: board.panes[pane].sweep_clock,
                        },
                    ),
                )
                &&& wish.source_name is Some ==> told.texture is None
                &&& wish.source_name is None ==> told.texture == board.panes[pane].texture
                &&& told.pane_clock == board.panes[pane].pane_clock
                &&& told.view_clock == board.panes[pane].view_clock
                &&& told.sweep_clock == board.panes[pane].sweep_clock
                &&& told.measured == board.panes[pane].measured
                &&& told.filter_line == board.panes[pane].filter_line
                &&& told.probe_text == board.panes[pane].probe_text
                &&& told.sweep_key == board.panes[pane].sweep_key
                &&& told.sweep_state == board.panes[pane].sweep_state
            }
        }),
{
}

/// A request that was accepted is not made a second time, and one that was not
/// is made again: nothing but the wait and the words of this one pane changes.
pub proof fn law_one_request_for_one_stamp(
    board: BoardView,
    pane: int,
    wish: RenderWish,
    accepted: bool,
    other: int,
)
    requires
        board_wf(board),
        0 <= pane < MAX_PANES,
        0 <= other < MAX_PANES,
        render_decided(board, pane, wish).1 is Ask,
    ensures
        ({
            let asked = render_decided(board, pane, wish).1;
            let after = request_noted(board, pane, asked->stamp, accepted);
            &&& accepted ==> render_decided(after, pane, wish) == (after, RenderDecision::Rest)
            &&& accepted ==> after.panes[pane].pending_stamp == Some(asked->stamp)
            &&& accepted ==> after.panes[pane].status == "rendering"@
            &&& !accepted ==> render_decided(after, pane, wish).1 == asked
            &&& !accepted ==> after.panes[pane].status == "render worker closed"@
            &&& after.panes[pane].texture == board.panes[pane].texture
            &&& after.panes[pane].terminal == board.panes[pane].terminal
            &&& after.panes.len() == board.panes.len()
            &&& other != pane ==> after.panes[other] == board.panes[other]
            &&& after.session == board.session
            &&& after.frame == board.frame
            &&& after.palette == board.palette
        }),
{
}

/// A picture of the stamp that was asked for is put on screen at its own size,
/// ends the wait, says how long it took, and leaves nothing to ask for; no other
/// pane changes.
pub proof fn law_the_picture_that_was_asked_for_is_shown(
    board: BoardView,
    rendered: RenderedPane,
    wish: RenderWish,
    other: int,
)
    requires
        board_wf(board),
        rendered.pane < MAX_PANES,
        0 <= other < MAX_PANES,
        render_decided(board, rendered.pane as int, wish).1 is Ask,
        rendered.stamp == render_decided(board, rendered.pane as int, wish).1->stamp,
    ensures
        ({
            let pane = rendered.pane as int;
            let after = render_installed(board, rendered);
            let shown = after.panes[pane];
            &&& shown.texture == Some(
                InstalledTexture {
                    stamp: rendered.stamp,
                    width: rendered.width,
                    height: rendered.height,
                },
            )
            &&& shown.pending_stamp is None
            &&& shown.terminal is None
            &&& shown.status == rendered.elapsed_text@
            &&& shown.filter_line == text_view(rendered.filter_line)
            &&& shown.pane_clock == board.panes[pane].pane_clock
            &&& shown.view_clock == board.panes[pane].view_clock
            &&& shown.sweep_clock == board.panes[pane].sweep_clock
            &&& shown.sweep_state == board.panes[pane].sweep_state
            &&& pane_ready(after, pane)
            &&& render_decided(after, pane, wish) == (after, RenderDecision::Rest)
            &&& after.panes.len() == board.panes.len()
            &&& other != pane ==> after.panes[other] == board.panes[other]
            &&& after.session == board.session
            &&& after.frame == board.frame
            &&& after.palette == board.palette
        }),
{
}

/// While a camera moves the pane shows what comes: a picture of the same data
/// under another camera is put on screen unless the exact one is there already,
/// and the texture is written over where the size is the same.
pub proof fn law_the_same_data_under_an_older_camera_is_shown(
    board: BoardView,
    rendered: RenderedPane,
)
    requires
        board_wf(board),
        rendered.pane < MAX_PANES,
        ({
            let current = stamp_of(board, rendered.pane as int);
            let stamp = rendered.stamp;
            &&& stamp.pane_id == current.pane_id
            &&& stamp.session == current.session
            &&& stamp.frame == current.frame
            &&& stamp.pane == current.pane
            &&& stamp.palette == current.palette
            &&& stamp.sweep == current.sweep
        }),
        !(board.panes[rendered.pane as int].texture matches Some(texture) && texture.stamp
            == stamp_of(board, rendered.pane as int)),
    ensures
        render_installed(board, rendered).panes[rendered.pane as int].texture == Some(
            InstalledTexture {
                stamp: rendered.stamp,
                width: rendered.width,
                height: rendered.height,
            },
        ),
        texture_action(
            board,
            rendered.pane as int,
            rendered.stamp,
            rendered.width,
            rendered.height,
        ) == (if board.panes[rendered.pane as int].texture matches Some(texture) && texture.width
            == rendered.width && texture.height == rendered.height {
            TextureAction::Update
        } else {
            TextureAction::Replace
        }),
{
    let current = stamp_of(board, rendered.pane as int);
    assert((RenderStamp { view: current.view, ..rendered.stamp }) == current);
}

/// A failure is about the stamp it names: of the present one it ends the wait and
/// is told, with what is on screen left there; of any other it is not heard.
pub proof fn law_a_failure_is_about_its_stamp(
    board: BoardView,
    pane: int,
    stamp: RenderStamp,
    message: Seq<char>,
    other: int,
)
    requires
        board_wf(board),
        0 <= pane < MAX_PANES,
        0 <= other < MAX_PANES,
    ensures
        ({
            let after = render_failed(board, pane, stamp, message);
            let current = stamp.pane_id == pane && stamp.session == board.session && stamp.frame
                == board.frame && stamp.palette == board.palette && stamp.pane
                == board.panes[pane].pane_clock && stamp.view == board.panes[pane].view_clock
                && stamp.sweep == board.panes[pane].sweep_clock;
            &&& !current ==> after == board
            &&& current ==> after.panes[pane] == (PaneView {
                pending_stamp: None,
                terminal: Some(RenderTerminal::Failed(stamp)),
                status: message,
                ..board.panes[pane]
            })
            &&& other != pane ==> after.panes[other] == board.panes[other]
            &&& after.panes.len() == board.panes.len()
            &&& after.session == board.session
            &&& after.frame == board.frame
            &&& after.palette == board.palette
        }),
{
}

/// What each change of a pane touches. Another view moves the view's clock and
/// no other; other data move the pane's clock and start the reveal over; a frame
/// change moves none and keeps the picture; a session change drops the picture
/// too. None touches the size, the readout or the filter's line.
pub proof fn law_what_a_change_touches(pane: PaneView)
    ensures
        pane_changed(pane, PaneChange::View) == (PaneView {
            view_clock: pane_changed(pane, PaneChange::View).view_clock,
            pending_stamp: None,
            terminal: None,
            ..pane
        }),
        pane_changed(pane, PaneChange::Semantic) == (PaneView {
            pane_clock: pane_changed(pane, PaneChange::Semantic).pane_clock,
            pending_stamp: None,
            terminal: None,
            status: Seq::empty(),
            sweep_key: None,
            sweep_state: None,
            ..pane
        }),
        pane_changed(pane, PaneChange::Reset) == (PaneView {
            pending_stamp: None,
            terminal: None,
            status: Seq::empty(),
            sweep_key: None,
            sweep_state: None,
            ..pane
        }),
        pane_changed(pane, PaneChange::Clear) == (PaneView {
            texture: None,
            pending_stamp: None,
            terminal: None,
            status: Seq::empty(),
            sweep_key: None,
            sweep_state: None,
            ..pane
        }),
        pane_changed(pane, PaneChange::Sweep) == (PaneView {
            sweep_key: None,
            sweep_state: None,
            ..pane
        }),
        pane_changed(pane, PaneChange::Probe) == (PaneView { probe_text: None, ..pane }),
        pane.view_clock.value < u64::MAX ==> pane_changed(pane, PaneChange::View).view_clock.value
            == pane.view_clock.value + 1,
        pane.pane_clock.value < u64::MAX ==> pane_changed(
            pane,
            PaneChange::Semantic,
        ).pane_clock.value == pane.pane_clock.value + 1,
{
}

/// A change to listed panes is made to them and to no other: each that is listed
/// once is changed once, and the shared clocks stand still.
pub proof fn law_only_the_listed_panes_change(board: BoardView, listed: Seq<usize>, pane: usize)
    requires
        board_wf(board),
        panes_wf(listed),
        listed.no_duplicates(),
        pane < MAX_PANES,
    ensures
        ({
            let viewed = views_invalidated(board, listed);
            let changed = semantics_invalidated(board, listed);
            let coloured = palette_changed(board, listed);
            let at = pane as int;
            &&& viewed.panes[at] == (if listed.contains(pane) {
                pane_changed(board.panes[at], PaneChange::View)
            } else {
                board.panes[at]
            })
            &&& changed.panes[at] == (if listed.contains(pane) {
                pane_changed(board.panes[at], PaneChange::Semantic)
            } else {
                board.panes[at]
            })
            &&& coloured.panes[at] == viewed.panes[at]
            &&& viewed.session == board.session && viewed.frame == board.frame && viewed.palette
                == board.palette
            &&& changed.session == board.session && changed.frame == board.frame
                && changed.palette == board.palette
            &&& coloured.session == board.session && coloured.frame == board.frame
                && coloured.palette != board.palette
        }),
{
    let recoloured = BoardView { palette: next_generation(board.palette), ..board };
    let view = |one: PaneView| view_invalidated(one);
    let semantic = |one: PaneView| semantic_invalidated(one);
    lemma_with_panes(board, listed, view);
    lemma_with_panes(board, listed, semantic);
    lemma_with_panes(recoloured, listed, view);
    if listed.contains(pane) {
        let at = choose|at: int| 0 <= at < listed.len() && listed[at] == pane;
        lemma_with_panes_listed(board, listed, view, at);
        lemma_with_panes_listed(board, listed, semantic, at);
        lemma_with_panes_listed(recoloured, listed, view, at);
    } else {
        assert(with_panes(board, listed, view).panes[pane as int] == board.panes[pane as int]);
        assert(with_panes(board, listed, semantic).panes[pane as int]
            == board.panes[pane as int]);
        assert(with_panes(recoloured, listed, view).panes[pane as int]
            == board.panes[pane as int]);
    }
}

/// What a change of frame and of session does to every pane, and to the shared
/// clocks: the frame's moves at both, the session's at one, the colours' at none.
pub proof fn law_what_frame_and_session_changes_touch(board: BoardView, pane: int)
    requires
        board_wf(board),
        0 <= pane < MAX_PANES,
        board.frame.value < u64::MAX,
        board.session.value < u64::MAX,
    ensures
        frame_changed(board).frame.value == board.frame.value + 1,
        frame_changed(board).session == board.session,
        frame_changed(board).palette == board.palette,
        frame_changed(board).panes.len() == board.panes.len(),
        frame_changed(board).panes[pane] == pane_changed(board.panes[pane], PaneChange::Reset),
        session_changed(board).frame.value == board.frame.value + 1,
        session_changed(board).session.value == board.session.value + 1,
        session_changed(board).palette == board.palette,
        session_changed(board).panes.len() == board.panes.len(),
        session_changed(board).panes[pane] == pane_changed(board.panes[pane], PaneChange::Clear),
        all_sweeps_reset(board).panes[pane] == pane_changed(board.panes[pane], PaneChange::Sweep),
        all_sweeps_reset(board).session == board.session && all_sweeps_reset(board).frame
            == board.frame && all_sweeps_reset(board).palette == board.palette,
        probes_dropped(board).panes[pane] == pane_changed(board.panes[pane], PaneChange::Probe),
        probes_dropped(board).session == board.session && probes_dropped(board).frame
            == board.frame && probes_dropped(board).palette == board.palette,
        all_cleared(board).panes[pane] == pane_changed(board.panes[pane], PaneChange::Clear),
        all_cleared(board).session == board.session && all_cleared(board).frame == board.frame
            && all_cleared(board).palette == board.palette,
{
}

/// A pane is asked for another view when its size is first known and whenever its
/// camera moves, and only then.
pub proof fn law_a_viewport_is_noted(board: BoardView, pane: int, moved: bool, other: int)
    requires
        board_wf(board),
        0 <= pane < MAX_PANES,
        0 <= other < MAX_PANES,
    ensures
        ({
            let after = viewport_updated(board, pane, moved);
            let runtime = board.panes[pane];
            &&& runtime.measured && !moved ==> after == board
            &&& !runtime.measured || moved ==> after.panes[pane].view_clock != runtime.view_clock
                && after.panes[pane] == (PaneView {
                measured: true,
                pending_stamp: None,
                view_clock: after.panes[pane].view_clock,
                ..runtime
            })
            &&& after.panes[pane].measured
            &&& other != pane ==> after.panes[other] == board.panes[other]
            &&& after.session == board.session && after.frame == board.frame && after.palette
                == board.palette
        }),
{
}

/// When a pane is ready: it waits for nothing, and what it shows or was last told
/// carries exactly the stamp that its clocks read now. Panes are ready together
/// where each of them is.
pub proof fn law_when_a_pane_is_ready(board: BoardView, pane: int, listed: Seq<usize>)
    requires
        board_wf(board),
        0 <= pane < MAX_PANES,
    ensures
        ({
            let runtime = board.panes[pane];
            let now = RenderStamp {
                pane_id: pane as usize,
                session: board.session,
                frame: board.frame,
                pane: runtime.pane_clock,
                view: runtime.view_clock,
                palette: board.palette,
                sweep: runtime.sweep_clock,
            };
            pane_ready(board, pane) <==> {
                &&& runtime.pending_stamp is None
                &&& (runtime.texture matches Some(texture) && texture.stamp == now)
                    || runtime.terminal == Some(RenderTerminal::Failed(now)) || runtime.terminal
                    == Some(RenderTerminal::Unavailable(now))
            }
        }),
        listed.contains(pane as usize) && all_ready(board, listed) ==> pane_ready(board, pane),
        all_ready(board, Seq::empty()),
        forall|more: usize|
            all_ready(board, listed) && pane_ready(board, more as int) ==> #[trigger] all_ready(
                board,
                listed.push(more),
            ),
{
    if listed.contains(pane as usize) && all_ready(board, listed) {
        let k = choose|k: int| 0 <= k < listed.len() && listed[k] == pane as usize;
        assert(pane_ready(board, listed[k] as int));
    }
    assert forall|more: usize|
        all_ready(board, listed) && pane_ready(board, more as int) implies #[trigger] all_ready(
        board,
        listed.push(more),
    ) by {
        let longer = listed.push(more);
        assert forall|i: int| 0 <= i < longer.len() implies pane_ready(
            board,
            #[trigger] longer[i] as int,
        ) by {
            if i < listed.len() {
                assert(longer[i] == listed[i]);
            }
        }
    }
}

impl PaneBoard {
    /// Whether every listed pane is ready.
    pub fn visible_panes_ready(&self, visible: &Vec<usize>) -> (ready: bool)
        requires
            board_wf(self@),
            panes_wf(visible@),
        ensures
            ready == all_ready(self@, visible@),
    {
        let mut at: usize = 0;
        while at < visible.len()
            invariant
                at <= visible@.len(),
                board_wf(self@),
                panes_wf(visible@),
                forall|i: int|
                    0 <= i < at ==> pane_ready(self@, #[trigger] visible@[i] as int),
            decreases visible@.len() - at,
        {
            let pane: usize = visible[at];
            let current = self.current_stamp(pane);
            assert(self@.panes[pane as int] == self.panes@[pane as int]@);
            let rendered = match self.panes[pane].texture {
                Some(texture) => texture.stamp == current,
                None => false,
            };
            let terminal = match self.panes[pane].terminal {
                Some(answer) => answer.stamp() == current,
                None => false,
            };
            if !(self.panes[pane].pending_stamp.is_none() && (rendered || terminal)) {
                assert(!pane_ready(self@, visible@[at as int] as int));
                return false;
            }
            at = at + 1;
        }
        true
    }
}

} // verus!
