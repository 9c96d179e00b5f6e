//! The readout under the cursor: which gates it may quote, what it says of a
//! field no product stands for, and why a gate has no spectrum.

use crate::moment::Moment;
use crate::panes::{PaneBoard, MAX_PANES};
use crate::text::{ascii_lowercase, same_text};
use vstd::prelude::*;

verus! {

use crate::panes::{board_wf, text_view, with_pane, PaneView};
use crate::text::ascii_lowered;
use crate::tilt::str_view;

/// Everything a mask of hidden gates depends on.
pub struct CensorKey {
    pub site: String,
    pub volume_time: Moment,
    pub cut_index: usize,
    pub moment: String,
    /// The number the criteria in force go by.
    pub filter: u64,
}

/// A mask's key as contracts see it.
pub ghost struct CensorView {
    pub site: Seq<char>,
    pub volume_time: Moment,
    pub cut_index: usize,
    pub moment: Seq<char>,
    pub filter: u64,
}

impl View for CensorKey {
    type V = CensorView;

    open spec fn view(&self) -> CensorView {
        CensorView {
            site: self.site@,
            volume_time: self.volume_time,
            cut_index: self.cut_index,
            moment: self.moment@,
            filter: self.filter,
        }
    }
}

impl CensorKey {
    /// Whether two keys are of the same mask.
    pub fn same(&self, other: &CensorKey) -> (same: bool)
        ensures
            same == (self@ == other@),
    {
        self.cut_index == other.cut_index && self.filter == other.filter && self.volume_time
            == other.volume_time && same_text(self.site.as_str(), other.site.as_str())
            && same_text(self.moment.as_str(), other.moment.as_str())
    }
}

/// The mask that is held, by what it is of.
pub struct ProbeCensor {
    pub held: Option<CensorKey>,
}

/// A key that may be absent, as contracts see it.
pub open spec fn censor_view(key: Option<CensorKey>) -> Option<CensorView> {
    match key {
        Some(k) => Some(k@),
        None => None,
    }
}

/// What to do about the mask.
#[derive(Clone, Copy, Debug, PartialEq, Eq, Structural)]
pub enum CensorStep {
    /// No gate is hidden from this readout; no mask is held.
    Off,
    /// The mask that is held is the one.
    Keep,
    /// Evaluate the criteria for this sweep.
    Evaluate,
}

/// What to do about the mask: the pane hides gates only where the filter is on
/// and the product is drawn from one sweep.
pub open spec fn censor_step(
    held: Option<CensorView>,
    filter_active: bool,
    derived: bool,
    wanted: CensorView,
) -> CensorStep {
    if !filter_active || derived {
        CensorStep::Off
    } else if held == Some(wanted) {
        CensorStep::Keep
    } else {
        CensorStep::Evaluate
    }
}

/// Whether the renderer hides gates on a pane.
pub open spec fn pane_is_filtered(filter_active: bool, derived: bool) -> bool {
    filter_active && !derived
}

/// The readout is censored on exactly the panes that the renderer filters, and
/// by a mask of exactly the sweep and criteria in force.
pub proof fn law_the_readout_hides_what_the_pane_hides(
    held: Option<CensorView>,
    filter_active: bool,
    derived: bool,
    wanted: CensorView,
)
    ensures
        censor_step(held, filter_active, derived, wanted) is Off <==> !pane_is_filtered(
            filter_active,
            derived,
        ),
        censor_step(held, filter_active, derived, wanted) is Keep ==> held == Some(wanted),
{
}

impl ProbeCensor {
    /// No mask.
    pub fn new() -> (censor: ProbeCensor)
        ensures
            censor.held is None,
    {
        ProbeCensor { held: None }
    }

    /// Says what to do about the mask for the sweep a readout is about to read.
    pub fn probe_censor(&mut self, filter_active: bool, derived: bool, wanted: CensorKey) -> (step:
        CensorStep)
        ensures
            step == censor_step(censor_view(old(self).held), filter_active, derived, wanted@),
            censor_view(final(self).held) == (if step is Off {
                None
            } else {
                Some(wanted@)
            }),
    {
        if !filter_active || derived {
            self.held = None;
            return CensorStep::Off;
        }
        let fresh = match &self.held {
            Some(key) => key.same(&wanted),
            None => false,
        };
        if fresh {
            CensorStep::Keep
        } else {
            self.held = Some(wanted);
            CensorStep::Evaluate
        }
    }
}

/// A readout of a field under its producer's own name: the reading, and the unit
/// the producer states.
pub open spec fn source_readout(reading: Seq<char>, units: Option<Seq<char>>) -> Seq<char> {
    reading + " | producer unit token: "@ + (match units {
        Some(token) => token,
        None => "not provided"@,
    })
}

/// A readout of a field under its producer's own name.
pub fn source_probe_text(reading: String, units: Option<&str>) -> (text: String)
    ensures
        text@ == source_readout(reading@, str_view(units)),
{
    let mut text = reading;
    text.append(" | producer unit token: ");
    match units {
        Some(token) => text.append(token),
        None => text.append("not provided"),
    }
    text
}

impl PaneBoard {
    /// Sets a pane's readout; nothing where the cursor is over nothing.
    pub fn set_probe_text(&mut self, pane: usize, text: Option<String>)
        requires
            board_wf(old(self)@),
            pane < MAX_PANES,
        ensures
            board_wf(final(self)@),
            final(self)@ == with_pane(
                old(self)@,
                pane as int,
                PaneView {
                    probe_text: text_view(text),
                    ..old(self)@.panes[pane as int]
                },
            ),
    {
        let ghost before = self@;
        let mut runtime = self.panes.remove(pane);
        assert(runtime@ == before.panes[pane as int]);
        runtime.probe_text = text;
        self.panes.insert(pane, runtime);
        assert(self@.panes =~= before.panes.update(pane as int, runtime@));
    }
}

// ---------------------------------------------------------------------------
// Spectra
// ---------------------------------------------------------------------------

/// A pixel the pane drew nothing at.
pub struct BlankCell<'a> {
    /// Whether the pane's own filter removed it.
    pub masked: bool,
    /// The kind of nothing it is.
    pub label: &'a str,
}

/// What the pulses of a gate came to.
#[derive(Clone, Copy, Debug, PartialEq, Eq, Structural)]
pub struct GateEstimate {
    pub below_noise: bool,
    pub censored: bool,
}

/// Why a gate has no spectrum to show. What the pane drew is asked first: a
/// picture of something the pane left empty on purpose would contradict it.
pub open spec fn absence_text(blank: Option<BlankCell>, estimate: Option<GateEstimate>) -> Option<
    Seq<char>,
> {
    if blank matches Some(cell) && cell.masked {
        Some("hidden by the pane's gate filter"@)
    } else if estimate matches Some(gate) && gate.below_noise {
        Some("no power above the receiver noise"@)
    } else if estimate matches Some(gate) && gate.censored {
        Some("below the SNR threshold"@)
    } else {
        match blank {
            Some(cell) => Some(ascii_lowered(cell.label@)),
            None => None,
        }
    }
}

/// A pixel that is blank never has a spectrum drawn beside it, and neither has
/// a gate that nothing was measured in.
pub proof fn law_a_blank_gate_has_no_spectrum(
    blank: Option<BlankCell>,
    estimate: Option<GateEstimate>,
)
    ensures
        absence_text(blank, estimate) is None <==> blank is None && (estimate matches Some(gate)
            ==> !gate.below_noise && !gate.censored),
{
}

/// Why a gate has no spectrum to show, or nothing where it has one.
pub fn gate_spectrum_absence(blank: &Option<BlankCell>, estimate: Option<GateEstimate>) -> (reason:
    Option<String>)
    ensures
        text_view(reason) == absence_text(*blank, estimate),
{
    let masked = match blank {
        Some(cell) => cell.masked,
        None => false,
    };
    if masked {
        return Some("hidden by the pane's gate filter".to_owned());
    }
    if let Some(gate) = estimate {
        if gate.below_noise {
            return Some("no power above the receiver noise".to_owned());
        }
        if gate.censored {
            return Some("below the SNR threshold".to_owned());
        }
    }
    match blank {
        Some(cell) => Some(ascii_lowercase(cell.label)),
        None => None,
    }
}

/// What the readout under the cursor came to.
pub enum ProbeReading<'a> {
    Value,
    Absent(BlankCell<'a>),
    OutsideSweep,
}

/// What to show of a gate's spectrum.
pub enum SpectrumStep {
    /// No panel.
    Hide,
    /// A panel that says why there is no spectrum.
    Explain(String),
    /// The transform of the pulses.
    Transform,
}

/// The pixel that a reading found blank, where it did.
pub open spec fn reading_blank(reading: ProbeReading) -> Option<BlankCell> {
    match reading {
        ProbeReading::Absent(cell) => Some(cell),
        _ => None,
    }
}

/// What to show of a gate's spectrum: a panel only over a sweep that was computed
/// from pulses.
pub fn gate_spectrum_for(
    has_pulses: bool,
    reading: ProbeReading,
    estimate: Option<GateEstimate>,
) -> (step: SpectrumStep)
    ensures
        step is Hide <==> !has_pulses || reading is OutsideSweep,
        has_pulses && reading !is OutsideSweep ==> match (step, absence_text(
            reading_blank(reading),
            estimate,
        )) {
            (SpectrumStep::Explain(reason), Some(expected)) => reason@ == expected,
            (SpectrumStep::Transform, None) => true,
            _ => false,
        },
{
    if !has_pulses {
        return SpectrumStep::Hide;
    }
    let blank = match reading {
        ProbeReading::OutsideSweep => {
            return SpectrumStep::Hide;
        },
        ProbeReading::Value => None,
        ProbeReading::Absent(cell) => Some(cell),
    };
    match gate_spectrum_absence(&blank, estimate) {
        Some(reason) => SpectrumStep::Explain(reason),
        None => SpectrumStep::Transform,
    }
}

/// What the readout's filter does: nothing where the pane draws without one or its
/// product is derived; else it keeps what it evaluated exactly while every part of
/// what was asked for is the same, and evaluates anew otherwise.
pub proof fn law_when_the_filter_is_evaluated(
    held: Option<CensorView>,
    filter_active: bool,
    derived: bool,
    wanted: CensorView,
)
    ensures
        ({
            let step = censor_step(held, filter_active, derived, wanted);
            let same = held matches Some(known) && known.site == wanted.site && known.volume_time
                == wanted.volume_time && known.cut_index == wanted.cut_index && known.moment
                == wanted.moment && known.filter == wanted.filter;
            &&& step is Off <==> !filter_active || derived
            &&& step is Keep <==> filter_active && !derived && same
            &&& step is Evaluate <==> filter_active && !derived && !same
        }),
{
}

/// Why a gate has no spectrum, first reason first: the pane hides it, there is no
/// power above the noise, it is under the threshold, or what its cell itself says
/// in small letters. With none of these there is a spectrum.
pub proof fn law_why_a_gate_has_no_spectrum(
    blank: Option<BlankCell>,
    estimate: Option<GateEstimate>,
)
    ensures
        ({
            let told = absence_text(blank, estimate);
            let masked = blank matches Some(cell) && cell.masked;
            let silent = estimate matches Some(gate) && gate.below_noise;
            let weak = estimate matches Some(gate) && gate.censored;
            &&& masked ==> told == Some("hidden by the pane's gate filter"@)
            &&& !masked && silent ==> told == Some("no power above the receiver noise"@)
            &&& !masked && !silent && weak ==> told == Some("below the SNR threshold"@)
            &&& !masked && !silent && !weak ==> told is Some == blank is Some
            &&& !masked && !silent && !weak ==> (told matches Some(words) ==> words.len()
                == blank->0.label@.len() && forall|i: int|
                0 <= i < words.len() ==> !('A' <= #[trigger] words[i] <= 'Z'))
        }),
{
    if blank is Some {
        let label = blank->0.label@;
        assert forall|i: int| 0 <= i < label.len() implies !('A' <= #[trigger] ascii_lowered(
            label,
        )[i] <= 'Z') by {
            crate::text::law_lowering_touches_capitals_alone(label, i);
        }
    }
}

/// A reading is blank exactly where its cell is, and carries what that says.
pub proof fn law_a_reading_is_blank_where_its_cell_is(reading: ProbeReading)
    ensures
        reading_blank(reading) is Some <==> reading is Absent,
        reading matches ProbeReading::Absent(cell) ==> reading_blank(reading) == Some(cell),
{
}

} // verus!
