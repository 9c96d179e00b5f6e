//! Planning a playlist before anything is loaded: the selection's memory is
//! estimated beside the running session, and a large one waits for a yes.

use crate::bytes::format_binary_bytes;
use crate::clock::{Generation, GenerationClock};
use crate::paths::ordered_unique_paths;
use crate::sequence::PreflightEstimate;
use crate::text::append_decimal;
use vstd::prelude::*;

verus! {

use crate::bytes::binary_bytes_text;
use crate::clock::next_generation;
use crate::panes::text_view;
use crate::paths::{is_playlist_of, law_a_playlist_loses_no_file, same_path};
use crate::sequence::EstimateView;
use crate::text::{decimal, texts};

/// A selection whose estimate is awaited.
#[derive(Clone, Copy, Debug, PartialEq, Eq, Structural)]
pub struct PendingPlan {
    pub generation: Generation,
    pub selected: usize,
}

/// A large selection that waits for a yes.
pub struct PlaylistConfirmation {
    pub paths: Vec<String>,
    pub estimate: PreflightEstimate,
}

/// A selection that waits, as contracts see it.
pub ghost struct ConfirmationView {
    pub paths: Seq<Seq<char>>,
    pub estimate: EstimateView,
}

impl View for PlaylistConfirmation {
    type V = ConfirmationView;

    open spec fn view(&self) -> ConfirmationView {
        ConfirmationView { paths: texts(self.paths@), estimate: self.estimate@ }
    }
}

/// A selection that may wait, as contracts see it.
pub open spec fn confirmation_view(waiting: Option<PlaylistConfirmation>) -> Option<
    ConfirmationView,
> {
    match waiting {
        Some(w) => Some(w@),
        None => None,
    }
}

/// The planner.
pub struct PlaylistPlanner {
    pub clock: GenerationClock,
    pub pending: Option<PendingPlan>,
    pub confirmation: Option<PlaylistConfirmation>,
}

/// The planner as contracts see it.
pub ghost struct PlannerView {
    pub clock: Generation,
    pub pending: Option<PendingPlan>,
    pub confirmation: Option<ConfirmationView>,
}

impl View for PlaylistPlanner {
    type V = PlannerView;

    open spec fn view(&self) -> PlannerView {
        PlannerView {
            clock: self.clock.current,
            pending: self.pending,
            confirmation: confirmation_view(self.confirmation),
        }
    }
}

/// The planner with nothing on its mind; an answer still on its way is to
/// nothing.
pub open spec fn plan_cancelled(planner: PlannerView) -> PlannerView {
    PlannerView { clock: next_generation(planner.clock), pending: None, confirmation: None }
}

/// The planner with a selection of `selected` files sent out to be estimated.
pub open spec fn plan_begun(planner: PlannerView, selected: usize) -> PlannerView {
    let generation = next_generation(plan_cancelled(planner).clock);
    PlannerView {
        clock: generation,
        pending: Some(PendingPlan { generation, selected }),
        confirmation: None,
    }
}

/// What an estimate comes to.
pub ghost enum AnswerView {
    /// It is of a selection that is no longer wanted.
    Ignored,
    /// It is large: ask.
    Ask,
    /// Load.
    Start,
}

/// What an estimate comes to.
pub open spec fn answer_of(planner: PlannerView, generation: Generation, large: bool) -> AnswerView {
    match planner.pending {
        Some(pending) => if pending.generation != generation {
            AnswerView::Ignored
        } else if large {
            AnswerView::Ask
        } else {
            AnswerView::Start
        },
        None => AnswerView::Ignored,
    }
}

/// The planner after an estimate arrived.
pub open spec fn plan_answered(
    planner: PlannerView,
    generation: Generation,
    paths: Seq<Seq<char>>,
    estimate: EstimateView,
    large: bool,
) -> PlannerView {
    match answer_of(planner, generation, large) {
        AnswerView::Ignored => planner,
        AnswerView::Ask => PlannerView {
            pending: None,
            confirmation: Some(ConfirmationView { paths, estimate }),
            ..planner
        },
        AnswerView::Start => PlannerView { pending: None, ..planner },
    }
}

/// How many files the plan on the planner's mind is of.
pub open spec fn planned_count(planner: PlannerView) -> Option<nat> {
    match planner.pending {
        Some(pending) => Some(pending.selected as nat),
        None => match planner.confirmation {
            Some(waiting) => Some(waiting.paths.len()),
            None => None,
        },
    }
}

pub open spec fn estimating_text(selected: nat) -> Seq<char> {
    "Estimating playlist memory \u{b7} "@ + decimal(selected) + " selected"@
}

pub open spec fn unplanned_text(error: Seq<char>, selected: nat) -> Seq<char> {
    "Playlist preflight could not start ("@ + error + ") \u{b7} "@ + decimal(selected)
        + " selected \u{b7} 0 decoded \u{b7} 0 logical volumes \u{b7} 0 failed"@
}

pub open spec fn awaiting_text(selected: nat, bytes: u64) -> Seq<char> {
    "Large playlist awaiting confirmation \u{b7} "@ + decimal(selected)
        + " selected \u{b7} estimated "@ + binary_bytes_text(bytes as nat) + " decoded RAM"@
}

pub open spec fn cancelled_text(selected: nat, retained: nat) -> Seq<char> {
    "Playlist cancelled \u{b7} "@ + decimal(selected)
        + " selected \u{b7} 0 decoded \u{b7} 0 logical volumes \u{b7} 0 new retained \u{b7} existing session unchanged ("@
        + decimal(retained) + " frame(s)) \u{b7} 0 failed"@
}

/// A plan that was cancelled is never acted on, whatever arrives later.
pub proof fn law_a_cancelled_plan_is_never_acted_on(
    planner: PlannerView,
    generation: Generation,
    large: bool,
)
    ensures
        answer_of(plan_cancelled(planner), generation, large) is Ignored,
        plan_cancelled(planner).confirmation is None,
{
}

/// Of two selections one after the other only the second is acted on: the
/// first one's estimate is ignored.
pub proof fn law_the_last_selection_counts(
    planner: PlannerView,
    first: usize,
    second: usize,
    large: bool,
)
    ensures
        ({
            let one = plan_begun(planner, first);
            let two = plan_begun(one, second);
            &&& answer_of(two, one.pending->0.generation, large) is Ignored
            &&& answer_of(two, two.pending->0.generation, large) !is Ignored
        }),
{
}

/// No selection is refused for its size: a large one waits, whole, for the
/// analyst's word, and any other starts at once.
pub proof fn law_a_warning_is_not_a_limit(
    planner: PlannerView,
    generation: Generation,
    paths: Seq<Seq<char>>,
    estimate: EstimateView,
)
    requires
        planner.pending matches Some(pending) && pending.generation == generation,
    ensures
        plan_answered(planner, generation, paths, estimate, true).confirmation == Some(
            ConfirmationView { paths, estimate },
        ),
        answer_of(planner, generation, false) is Start,
{
}

/// What an estimate comes to.
pub enum PlanAnswer {
    /// It is of a selection that is no longer wanted.
    Ignored,
    /// It is large: show this line and ask.
    Ask(String),
    /// Load these files.
    Start(Vec<String>, PreflightEstimate),
}

/// A selection to estimate.
pub struct PlanRequest {
    pub generation: Generation,
    pub paths: Vec<String>,
}

impl PlaylistPlanner {
    /// A planner with nothing on its mind.
    pub fn new() -> (planner: PlaylistPlanner)
        ensures
            planner@ == (PlannerView {
                clock: Generation { value: 0 },
                pending: None,
                confirmation: None,
            }),
    {
        PlaylistPlanner { clock: GenerationClock::new(), pending: None, confirmation: None }
    }

    /// Drops whatever is planned.
    pub fn cancel(&mut self)
        ensures
            final(self)@ == plan_cancelled(old(self)@),
    {
        let _ = self.clock.bump();
        self.pending = None;
        self.confirmation = None;
    }

    /// Plans a selection, put in playlist order, and gives what to estimate and
    /// the line to show. An empty selection changes nothing.
    pub fn begin(&mut self, paths: Vec<String>) -> (begun: Option<(PlanRequest, String)>)
        ensures
            match begun {
                None => paths@.len() == 0 && final(self)@ == old(self)@,
                Some((request, line)) => {
                    &&& paths@.len() > 0
                    &&& is_playlist_of(texts(request.paths@), texts(paths@))
                    &&& request.paths@.len() > 0
                    &&& final(self)@ == plan_begun(old(self)@, request.paths@.len() as usize)
                    &&& final(self)@.pending matches Some(pending) && request.generation
                        == pending.generation
                    &&& line@ == estimating_text(request.paths@.len())
                },
            },
    {
        let ghost given = texts(paths@);
        let ordered = ordered_unique_paths(paths);
        proof {
            let list = texts(ordered@);
            law_a_playlist_loses_no_file(list, given);
            if given.len() > 0 {
                let k = choose|k: int| 0 <= k < list.len() && same_path(given[0], list[k]);
                assert(0 <= k < list.len());
            }
            if list.len() > 0 {
                assert(given.contains(list[0]));
            }
        }
        if ordered.len() == 0 {
            return None;
        }
        self.cancel();
        let selected: usize = ordered.len();
        let generation = self.clock.bump();
        self.pending = Some(PendingPlan { generation, selected });
        let mut line = "Estimating playlist memory \u{b7} ".to_owned();
        append_decimal(&mut line, selected as u64);
        line.append(" selected");
        Some((PlanRequest { generation, paths: ordered }, line))
    }

    /// Records that the estimate could not start, and gives the line to show.
    pub fn refuse(&mut self, error: &str, selected: usize) -> (line: String)
        ensures
            final(self)@ == (PlannerView { pending: None, ..old(self)@ }),
            line@ == unplanned_text(error@, selected as nat),
    {
        self.pending = None;
        let mut line = "Playlist preflight could not start (".to_owned();
        line.append(error);
        line.append(") \u{b7} ");
        append_decimal(&mut line, selected as u64);
        line.append(" selected \u{b7} 0 decoded \u{b7} 0 logical volumes \u{b7} 0 failed");
        line
    }

    /// Takes an estimate that arrived. `large` says whether it asks for a yes.
    pub fn take_estimate(
        &mut self,
        generation: Generation,
        paths: Vec<String>,
        estimate: PreflightEstimate,
        large: bool,
    ) -> (answer: PlanAnswer)
        ensures
            final(self)@ == plan_answered(
                old(self)@,
                generation,
                texts(paths@),
                estimate@,
                large,
            ),
            match (answer, answer_of(old(self)@, generation, large)) {
                (PlanAnswer::Ignored, AnswerView::Ignored) => true,
                (PlanAnswer::Ask(line), AnswerView::Ask) => line@ == awaiting_text(
                    paths@.len(),
                    estimate.estimated_decoded_bytes,
                ),
                (PlanAnswer::Start(files, said), AnswerView::Start) => files == paths && said
                    == estimate,
                _ => false,
            },
    {
        let current = match self.pending {
            Some(pending) => pending.generation == generation,
            None => false,
        };
        if !current {
            return PlanAnswer::Ignored;
        }
        self.pending = None;
        if !large {
            return PlanAnswer::Start(paths, estimate);
        }
        let mut line = "Large playlist awaiting confirmation \u{b7} ".to_owned();
        append_decimal(&mut line, paths.len() as u64);
        line.append(" selected \u{b7} estimated ");
        line.append(format_binary_bytes(estimate.estimated_decoded_bytes).as_str());
        line.append(" decoded RAM");
        self.confirmation = Some(PlaylistConfirmation { paths, estimate });
        PlanAnswer::Ask(line)
    }

    /// Takes the yes to a large selection.
    pub fn confirm(&mut self) -> (confirmed: Option<PlaylistConfirmation>)
        ensures
            final(self)@ == (PlannerView { confirmation: None, ..old(self)@ }),
            confirmation_view(confirmed) == old(self)@.confirmation,
    {
        self.confirmation.take()
    }

    /// Takes the no to whatever is planned, and gives the line to show.
    /// `retained` is how many frames the session keeps.
    pub fn abandon(&mut self, retained: usize) -> (line: Option<String>)
        ensures
            text_view(line) == (match planned_count(old(self)@) {
                Some(selected) => Some(cancelled_text(selected, retained as nat)),
                None => None,
            }),
            final(self)@ == (if planned_count(old(self)@) is Some {
                plan_cancelled(old(self)@)
            } else {
                old(self)@
            }),
    {
        let selected: usize = match (&self.pending, &self.confirmation) {
            (Some(pending), _) => pending.selected,
            (None, Some(waiting)) => waiting.paths.len(),
            (None, None) => {
                return None;
            },
        };
        self.cancel();
        let mut line = "Playlist cancelled \u{b7} ".to_owned();
        append_decimal(&mut line, selected as u64);
        line.append(
            " selected \u{b7} 0 decoded \u{b7} 0 logical volumes \u{b7} 0 new retained \u{b7} existing session unchanged (",
        );
        append_decimal(&mut line, retained as u64);
        line.append(" frame(s)) \u{b7} 0 failed");
        Some(line)
    }
}

/// A selection that is to be planned replaces every other: it waits under a
/// reading of the clock that none before it had, with as many files as were
/// selected, and no earlier one waits for a yes.
pub proof fn law_a_plan_begins_alone(planner: PlannerView, selected: usize)
    requires
        planner.clock.value < u64::MAX - 1,
    ensures
        ({
            let after = plan_begun(planner, selected);
            &&& after.pending matches Some(pending)
            &&& pending.selected == selected
            &&& pending.generation == after.clock
            &&& after.clock.value == planner.clock.value + 2
            &&& after.confirmation is None
            &&& plan_cancelled(planner).clock.value == planner.clock.value + 1
            &&& plan_cancelled(planner).pending is None
            &&& plan_cancelled(planner).confirmation is None
        }),
{
}

/// What an estimate does. One of a plan that no longer waits does nothing. Of the
/// plan that waits, it ends the wait; a large one asks first and keeps exactly the
/// files and the estimate it was given; any other starts at once and asks nothing.
pub proof fn law_what_an_estimate_does(
    planner: PlannerView,
    generation: Generation,
    paths: Seq<Seq<char>>,
    estimate: EstimateView,
    large: bool,
)
    ensures
        ({
            let after = plan_answered(planner, generation, paths, estimate, large);
            let answer = answer_of(planner, generation, large);
            let current = planner.pending matches Some(pending) && pending.generation
                == generation;
            &&& answer is Ignored <==> !current
            &&& answer is Ask <==> current && large
            &&& answer is Start <==> current && !large
            &&& !current ==> after == planner
            &&& after.clock == planner.clock
            &&& current ==> after.pending is None
            &&& answer is Ask ==> after.confirmation == Some(ConfirmationView { paths, estimate })
            &&& answer is Start ==> after.confirmation == planner.confirmation
        }),
{
}

/// How many files a plan is of: those selected while it is estimated, else those
/// that wait for a yes; without either there is no plan.
pub proof fn law_how_many_files_are_planned(planner: PlannerView)
    ensures
        planned_count(planner) is None <==> planner.pending is None && planner.confirmation is None,
        planner.pending matches Some(pending) ==> planned_count(planner) == Some(
            pending.selected as nat,
        ),
        planner.pending is None ==> (planner.confirmation matches Some(waiting) ==> planned_count(
            planner,
        ) == Some(waiting.paths.len())),
{
}

} // verus!
