//! The rotational-velocity tool: two clicks on a couplet make a measurement,
//! which stands until what it was measured on is gone.

use crate::panes::MAX_PANES;
use vstd::prelude::*;

verus! {

/// Why a measurement no longer describes what is on screen.
#[derive(Clone, Copy, Debug, PartialEq, Eq, Structural)]
pub enum StaleReason {
    NewVolume,
    DifferentCut,
    DifferentProduct,
    DifferentSite,
}

/// How far a measurement has come. The samples themselves are kept by the
/// sampler.
#[derive(Clone, Copy, Debug, PartialEq, Eq, Structural)]
pub enum VrotState {
    Idle,
    /// One side of the couplet was clicked.
    AwaitingSecond,
    Complete,
    /// A measurement of something that is no longer on screen.
    Stale(StaleReason),
}

/// A measurement when what it was measured on goes: half a pair is dropped, a
/// finished one is retired, and one that is retired stays as it was.
pub open spec fn made_stale(state: VrotState, reason: StaleReason) -> VrotState {
    match state {
        VrotState::Idle => VrotState::Idle,
        VrotState::AwaitingSecond => VrotState::Idle,
        VrotState::Complete => VrotState::Stale(reason),
        VrotState::Stale(earlier) => VrotState::Stale(earlier),
    }
}

/// The tool.
#[derive(Clone, Copy, Debug, PartialEq, Eq, Structural)]
pub struct VrotTool {
    /// Whether a click takes an endpoint instead of selecting a pane.
    pub active: bool,
    pub state: VrotState,
    /// The pane the measurement is made on, where one has been.
    pub on_pane: bool,
    pub pane: usize,
}

/// Whether the tool's pane is among these.
pub open spec fn measured_on(tool: VrotTool, panes: Seq<usize>) -> bool {
    tool.on_pane && panes.contains(tool.pane)
}

/// The tool when the listed panes change: a measurement on one of them is
/// retired.
pub open spec fn panes_changed(tool: VrotTool, panes: Seq<usize>, reason: StaleReason) -> VrotTool {
    if measured_on(tool, panes) {
        VrotTool { state: made_stale(tool.state, reason), ..tool }
    } else {
        tool
    }
}

/// A retired measurement is never current again by going stale once more, and
/// half a pair never survives.
pub proof fn law_going_stale_is_final(state: VrotState, reason: StaleReason, later: StaleReason)
    ensures
        made_stale(state, reason) !is Complete,
        made_stale(state, reason) !is AwaitingSecond,
        made_stale(made_stale(state, reason), later) == made_stale(state, reason),
{
}

/// What a click on a pane came to, before anything is measured.
#[derive(Clone, Copy, Debug, PartialEq, Eq, Structural)]
pub enum VrotClick {
    /// There is nothing under the cursor to sample.
    Nothing,
    /// Sample what is under the cursor.
    Sample,
}

/// What a sampled gate is for.
#[derive(Clone, Copy, Debug, PartialEq, Eq, Structural)]
pub enum VrotNext {
    /// It has no velocity.
    Refused,
    /// It is the first of the pair: keep it.
    KeepFirst,
    /// It completes the pair: measure.
    Measure,
}

/// The tool after a click on a pane. A click in another pane abandons half a
/// pair rather than pairing gates of two pictures.
pub open spec fn clicked(tool: VrotTool, pane: usize) -> VrotTool {
    if tool.on_pane && tool.pane == pane {
        tool
    } else {
        VrotTool { state: VrotState::Idle, on_pane: true, pane, ..tool }
    }
}

/// What a sampled gate is for.
pub open spec fn sampled(state: VrotState, has_velocity: bool) -> VrotNext {
    if !has_velocity {
        VrotNext::Refused
    } else if state is AwaitingSecond {
        VrotNext::Measure
    } else {
        VrotNext::KeepFirst
    }
}

/// The state after a gate was sampled.
pub open spec fn state_after_sample(state: VrotState, next: VrotNext) -> VrotState {
    match next {
        VrotNext::KeepFirst => VrotState::AwaitingSecond,
        _ => state,
    }
}

impl VrotTool {
    /// A tool that is off.
    pub fn new() -> (tool: Self)
        ensures
            tool == (VrotTool { active: false, state: VrotState::Idle, on_pane: false, pane: 0 }),
    {
        VrotTool { active: false, state: VrotState::Idle, on_pane: false, pane: 0 }
    }

    /// Retires the measurement.
    pub fn mark_stale(&mut self, reason: StaleReason)
        ensures
            *final(self) == (VrotTool {
                state: made_stale(old(self).state, reason),
                ..*old(self)
            }),
    {
        self.state = match self.state {
            VrotState::Idle => VrotState::Idle,
            VrotState::AwaitingSecond => VrotState::Idle,
            VrotState::Complete => VrotState::Stale(reason),
            VrotState::Stale(earlier) => VrotState::Stale(earlier),
        };
    }

    /// Retires the measurement where it was made on one of these panes.
    pub fn note_panes_changed(&mut self, panes: &Vec<usize>, reason: StaleReason)
        ensures
            *final(self) == panes_changed(*old(self), panes@, reason),
    {
        let mut at: usize = 0;
        let mut found = false;
        while at < panes.len()
            invariant
                at <= panes@.len(),
                *self == *old(self),
                found == (exists|i: int| 0 <= i < at && #[trigger] panes@[i] == self.pane),
            decreases panes@.len() - at,
        {
            if panes[at] == self.pane {
                found = true;
            }
            at = at + 1;
        }
        assert(found == panes@.contains(self.pane));
        if self.on_pane && found {
            self.mark_stale(reason);
        }
    }

    /// Why the measurement is retired, where it is.
    pub fn stale_reason(&self) -> (reason: Option<StaleReason>)
        ensures
            reason == (match self.state {
                VrotState::Stale(reason) => Some(reason),
                _ => None,
            }),
    {
        match self.state {
            VrotState::Stale(reason) => Some(reason),
            _ => None,
        }
    }

    /// Takes a click on a pane. `has_target` says whether there is a gate under
    /// the cursor and a sweep to read it from.
    pub fn take_click(&mut self, pane: usize, has_target: bool) -> (click: VrotClick)
        requires
            pane < MAX_PANES,
        ensures
            *final(self) == clicked(*old(self), pane),
            click == (if has_target {
                VrotClick::Sample
            } else {
                VrotClick::Nothing
            }),
    {
        if !(self.on_pane && self.pane == pane) {
            self.state = VrotState::Idle;
            self.on_pane = true;
            self.pane = pane;
        }
        if has_target {
            VrotClick::Sample
        } else {
            VrotClick::Nothing
        }
    }

    /// Takes what was sampled, and gives the line to show where there
    /// is nothing to measure yet.
    pub fn take_sample(&mut self, has_velocity: bool) -> (taken: (VrotNext, Option<&'static str>))
        ensures
            taken.0 == sampled(old(self).state, has_velocity),
            *final(self) == (VrotTool {
                state: state_after_sample(old(self).state, taken.0),
                ..*old(self)
            }),
            match taken.0 {
                VrotNext::Refused => taken.1 matches Some(line) && line@
                    == "Vrot: that point has no velocity"@,
                VrotNext::KeepFirst => taken.1 matches Some(line) && line@
                    == "Vrot: click the other side of the couplet"@,
                VrotNext::Measure => taken.1 is None,
            },
    {
        if !has_velocity {
            return (VrotNext::Refused, Some("Vrot: that point has no velocity"));
        }
        match self.state {
            VrotState::AwaitingSecond => (VrotNext::Measure, None),
            _ => {
                self.state = VrotState::AwaitingSecond;
                (VrotNext::KeepFirst, Some("Vrot: click the other side of the couplet"))
            },
        }
    }

    /// Takes what measuring the pair came to, and gives the line to show: the
    /// report, or why it was refused.
    pub fn take_measurement(&mut self, measured: Result<String, String>) -> (line: String)
        ensures
            match measured {
                Ok(report) => line@ == report@ && *final(self) == (VrotTool {
                    state: VrotState::Complete,
                    ..*old(self)
                }),
                Err(refusal) => line@ == "Vrot refused: "@ + refusal@ && *final(self) == (
                VrotTool { state: VrotState::Idle, ..*old(self) }),
            },
    {
        match measured {
            Ok(report) => {
                self.state = VrotState::Complete;
                report
            },
            Err(refusal) => {
                self.state = VrotState::Idle;
                let mut line = "Vrot refused: ".to_owned();
                line.append(refusal.as_str());
                line
            },
        }
    }
}

/// Two clicks on gates with a velocity, in one pane, make a measurement of that
/// pair; a click in another pane starts a new pair.
pub proof fn law_a_pair_is_made_in_one_pane(tool: VrotTool, pane: usize, other: usize)
    requires
        tool.state is Idle,
        pane != other,
    ensures
        ({
            let first = clicked(tool, pane);
            let kept = VrotTool {
                state: state_after_sample(first.state, sampled(first.state, true)),
                ..first
            };
            &&& sampled(clicked(kept, pane).state, true) == VrotNext::Measure
            &&& sampled(clicked(kept, other).state, true) == VrotNext::KeepFirst
        }),
{
}

/// What going stale does to each state: a finished measurement is retired for the
/// reason given, one retired before keeps its reason, and what is not finished is
/// dropped.
pub proof fn law_what_going_stale_does(state: VrotState, reason: StaleReason)
    ensures
        state is Complete <==> made_stale(state, reason) is Stale && state !is Stale,
        state is Complete ==> made_stale(state, reason) == VrotState::Stale(reason),
        state is Stale ==> made_stale(state, reason) == state,
        state is Idle || state is AwaitingSecond ==> made_stale(state, reason) is Idle,
{
}

/// A change of panes retires the measurement exactly where it was made on one of
/// them, and touches neither the tool's switch nor its pane.
pub proof fn law_only_a_measured_pane_retires(
    tool: VrotTool,
    panes: Seq<usize>,
    reason: StaleReason,
)
    ensures
        ({
            let after = panes_changed(tool, panes, reason);
            &&& after.active == tool.active
            &&& after.on_pane == tool.on_pane
            &&& after.pane == tool.pane
            &&& !tool.on_pane || !panes.contains(tool.pane) ==> after == tool
            &&& tool.on_pane && panes.contains(tool.pane) && tool.state is Complete
                ==> after.state == VrotState::Stale(reason)
            &&& tool.on_pane && panes.contains(tool.pane) && tool.state is AwaitingSecond
                ==> after.state is Idle
        }),
{
}

/// What a click does to the tool: it is on that pane from then on; in the pane it
/// was on nothing changes; in another, what was being measured is dropped.
pub proof fn law_what_a_click_does(tool: VrotTool, pane: usize)
    ensures
        clicked(tool, pane).on_pane,
        clicked(tool, pane).pane == pane,
        clicked(tool, pane).active == tool.active,
        tool.on_pane && tool.pane == pane ==> clicked(tool, pane).state == tool.state,
        !(tool.on_pane && tool.pane == pane) ==> clicked(tool, pane).state is Idle,
{
}

/// What a sampled gate does: without a velocity it changes nothing; with one it
/// completes a pair that waits for its second, and else is the first of a new
/// pair.
pub proof fn law_what_a_sampled_gate_does(state: VrotState, has_velocity: bool)
    ensures
        sampled(state, has_velocity) is Refused <==> !has_velocity,
        sampled(state, has_velocity) is Measure <==> has_velocity && state is AwaitingSecond,
        state_after_sample(state, sampled(state, has_velocity)) is AwaitingSecond <==> (state
            is AwaitingSecond || has_velocity),
        !has_velocity ==> state_after_sample(state, sampled(state, has_velocity)) == state,
{
}

/// The rotational velocity in both units, the analyst's first. The numbers come
/// written: whole knots, and metres per second to a tenth.
pub open spec fn readout_text(mps_first: bool, knots: Seq<char>, mps: Seq<char>) -> Seq<char> {
    if mps_first {
        "Vrot "@ + mps + " m/s ("@ + knots + " kt)"@
    } else {
        "Vrot "@ + knots + " kt ("@ + mps + " m/s)"@
    }
}

/// The rotational velocity in both units.
pub fn vrot_readout(mps_first: bool, knots: &str, mps: &str) -> (text: String)
    ensures
        text@ == readout_text(mps_first, knots@, mps@),
{
    let mut text = "Vrot ".to_owned();
    if mps_first {
        text.append(mps);
        text.append(" m/s (");
        text.append(knots);
        text.append(" kt)");
    } else {
        text.append(knots);
        text.append(" kt (");
        text.append(mps);
        text.append(" m/s)");
    }
    text
}

/// A finished measurement, written in the analyst's units.
pub struct VrotNumbers<'a> {
    pub knots: &'a str,
    pub mps: &'a str,
    pub delta_v_mps: &'a str,
    pub separation: &'a str,
    pub height: &'a str,
    pub elevation_deg: &'a str,
    pub cut_index: &'a str,
}

/// The warnings of a measurement, one behind another.
pub open spec fn warnings_text(warnings: Seq<Seq<char>>) -> Seq<char>
    decreases warnings.len(),
{
    if warnings.len() == 0 {
        Seq::empty()
    } else {
        warnings_text(warnings.drop_last()) + (" | WARNING: "@ + warnings.last())
    }
}

/// A measurement in full.
pub open spec fn report_text(
    mps_first: bool,
    numbers: VrotNumbers,
    warnings: Seq<Seq<char>>,
) -> Seq<char> {
    readout_text(mps_first, numbers.knots@, numbers.mps@) + " | delta-V "@ + numbers.delta_v_mps@
        + " m/s | separation "@ + numbers.separation@ + " | height "@ + numbers.height@ + " ARL | "@
        + numbers.elevation_deg@ + " deg cut "@ + numbers.cut_index@ + warnings_text(warnings)
}

/// A measurement in full.
pub fn vrot_report_line(mps_first: bool, numbers: &VrotNumbers, warnings: &Vec<String>) -> (text:
    String)
    ensures
        text@ == report_text(mps_first, *numbers, crate::text::texts(warnings@)),
{
    let mut text = vrot_readout(mps_first, numbers.knots, numbers.mps);
    text.append(" | delta-V ");
    text.append(numbers.delta_v_mps);
    text.append(" m/s | separation ");
    text.append(numbers.separation);
    text.append(" | height ");
    text.append(numbers.height);
    text.append(" ARL | ");
    text.append(numbers.elevation_deg);
    text.append(" deg cut ");
    text.append(numbers.cut_index);
    let ghost head = text@;
    let ghost list = crate::text::texts(warnings@);
    let mut at: usize = 0;
    assert(text@ =~= head + warnings_text(list.take(0)));
    while at < warnings.len()
        invariant
            at <= warnings@.len(),
            list == crate::text::texts(warnings@),
            text@ == head + warnings_text(list.take(at as int)),
        decreases warnings@.len() - at,
    {
        text.append(" | WARNING: ");
        text.append(warnings[at].as_str());
        proof {
            let next = list.take(at + 1);
            assert(next.drop_last() =~= list.take(at as int));
            assert(next.last() == warnings@[at as int]@);
            assert(text@ =~= head + warnings_text(next));
        }
        at = at + 1;
    }
    assert(list.take(warnings@.len() as int) =~= list);
    text
}

/// The analyst's unit leads and the other stands behind it in brackets, and both
/// carry their own number.
pub proof fn law_the_analysts_unit_leads(knots: Seq<char>, mps: Seq<char>)
    ensures
        readout_text(true, knots, mps) == "Vrot "@ + mps + " m/s ("@ + knots + " kt)"@,
        readout_text(false, knots, mps) == "Vrot "@ + knots + " kt ("@ + mps + " m/s)"@,
{
}

/// Every warning of a measurement stands in its report, behind those before it.
pub proof fn law_every_warning_is_told(warnings: Seq<Seq<char>>, at: int)
    requires
        0 <= at < warnings.len(),
    ensures
        ({
            let all = warnings_text(warnings);
            let before = warnings_text(warnings.take(at));
            let one = " | WARNING: "@ + warnings[at];
            &&& before.len() + one.len() <= all.len()
            &&& all.subrange(0, before.len() as int) == before
            &&& all.subrange(before.len() as int, before.len() as int + one.len()) == one
        }),
    decreases warnings.len(),
{
    let all = warnings_text(warnings);
    let rest = warnings.drop_last();
    let before = warnings_text(warnings.take(at));
    let one = " | WARNING: "@ + warnings[at];
    if at == warnings.len() - 1 {
        assert(warnings.take(at) =~= rest);
        assert(all.subrange(0, before.len() as int) =~= before);
        assert(all.subrange(before.len() as int, before.len() as int + one.len()) =~= one);
    } else {
        law_every_warning_is_told(rest, at);
        assert(rest.take(at) =~= warnings.take(at));
        assert(rest[at] == warnings[at]);
        let head = warnings_text(rest);
        assert(all.subrange(0, before.len() as int) =~= head.subrange(0, before.len() as int));
        assert(all.subrange(before.len() as int, before.len() as int + one.len()) =~= head.subrange(
            before.len() as int,
            before.len() as int + one.len(),
        ));
    }
}

} // verus!
