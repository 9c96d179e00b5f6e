//! Which sweep a pane draws, and how it says so.

use crate::text::{append_decimal, join};
use crate::workspace::TiltSelection;
use vstd::prelude::*;

verus! {

use crate::find::{first_where, lemma_first_where, lemma_first_where_is};
use crate::text::{decimal, joined, texts};

// ---------------------------------------------------------------------------
// Fields under their producer's name
// ---------------------------------------------------------------------------

/// The first sweep that carries a field.
pub open spec fn first_available(available: Seq<bool>) -> Option<usize> {
    let at = first_where(available, |carries: bool| carries);
    if at < available.len() {
        Some(at as usize)
    } else {
        None
    }
}

/// Whether `at` is the sweep nearest a wanted elevation among those that carry a
/// field: none of them is nearer, and none before it is as near.
pub open spec fn is_nearest(available: Seq<bool>, distance: Seq<u32>, at: int) -> bool {
    &&& 0 <= at < available.len()
    &&& available[at]
    &&& forall|i: int|
        0 <= i < available.len() && #[trigger] available[i] ==> distance[at] <= distance[i]
    &&& forall|i: int| 0 <= i < at && #[trigger] available[i] ==> distance[at] < distance[i]
}

/// The sweep that serves a pane which carries a source field.
pub open spec fn source_cut(
    tilt: TiltSelection,
    available: Seq<bool>,
    distance: Seq<u32>,
    cut: Option<usize>,
) -> bool {
    match tilt {
        TiltSelection::LowestAvailable => cut == first_available(available),
        TiltSelection::CutIndex(index) => cut == (if index < available.len()
            && available[index as int] {
            Some(index as usize)
        } else {
            first_available(available)
        }),
        TiltSelection::NearestElevationTenths(_) => match cut {
            Some(at) => is_nearest(available, distance, at as int),
            None => first_available(available) is None,
        },
    }
}

/// The first sweep that carries a field.
fn find_available(available: &Vec<bool>) -> (cut: Option<usize>)
    ensures
        cut == first_available(available@),
        cut matches Some(at) ==> at < available@.len() && available@[at as int],
{
    let mut at: usize = 0;
    while at < available.len() && !available[at]
        invariant
            at <= available@.len(),
            forall|i: int| 0 <= i < at ==> !#[trigger] available@[i],
        decreases available@.len() - at,
    {
        at = at + 1;
    }
    proof {
        lemma_first_where_is(available@, |carries: bool| carries, at as int);
    }
    if at < available.len() {
        Some(at)
    } else {
        None
    }
}

/// The sweep that serves a pane which carries a source field. `available` says
/// of each sweep whether it carries the field, and `distance` orders the sweeps
/// by how far they are from the wanted elevation.
pub fn resolve_source_cut(tilt: TiltSelection, available: &Vec<bool>, distance: &Vec<u32>) -> (cut:
    Option<usize>)
    requires
        distance@.len() == available@.len(),
    ensures
        source_cut(tilt, available@, distance@, cut),
        cut matches Some(at) ==> at < available@.len() && available@[at as int],
        cut is None <==> first_available(available@) is None,
{
    proof {
        lemma_first_where(available@, |carries: bool| carries);
    }
    match tilt {
        TiltSelection::LowestAvailable => find_available(available),
        TiltSelection::CutIndex(index) => {
            let wanted: usize = index as usize;
            if wanted < available.len() && available[wanted] {
                proof {
                    let found = first_where(available@, |carries: bool| carries);
                    if found == available@.len() {
                        assert(!available@[wanted as int]);
                    }
                }
                Some(wanted)
            } else {
                find_available(available)
            }
        },
        TiltSelection::NearestElevationTenths(_) => {
            let mut best: Option<usize> = None;
            let mut at: usize = 0;
            while at < available.len()
                invariant
                    at <= available@.len(),
                    distance@.len() == available@.len(),
                    match best {
                        Some(b) => b < at && available@[b as int] && (forall|i: int|
                            0 <= i < at && #[trigger] available@[i] ==> distance@[b as int]
                                <= distance@[i]) && (forall|i: int|
                            0 <= i < b && #[trigger] available@[i] ==> distance@[b as int]
                                < distance@[i]),
                        None => forall|i: int| 0 <= i < at ==> !#[trigger] available@[i],
                    },
                decreases available@.len() - at,
            {
                if available[at] {
                    let nearer = match best {
                        Some(b) => distance[at] < distance[b],
                        None => true,
                    };
                    if nearer {
                        best = Some(at);
                    }
                }
                at = at + 1;
            }
            proof {
                let found = first_where(available@, |carries: bool| carries);
                match best {
                    Some(b) => {
                        if found == available@.len() {
                            assert(!available@[b as int]);
                        }
                    },
                    None => {
                        if found < available@.len() {
                            assert(available@[found]);
                        }
                    },
                }
            }
            best
        },
    }
}

/// The sweep `delta` places on from `index` and from each sweep after it, up to
/// the first that carries the field; none where the sweeps run out first.
pub open spec fn stepped(available: Seq<bool>, index: int, delta: int) -> Option<int>
    decreases
            (if delta > 0 {
                available.len() - index
            } else {
                index
            }),
    when delta != 0 && 0 <= index < available.len()
{
    let next = index + delta;
    if next < 0 || next >= available.len() {
        None
    } else if available[next] {
        Some(next)
    } else {
        stepped(available, next, delta)
    }
}

/// The sweep one step on for a pane which carries a source field.
pub fn step_source_cut(available: &Vec<bool>, current: usize, delta: isize) -> (next: Option<usize>)
    requires
        current < available@.len(),
    ensures
        delta == 0 ==> next == Some(current),
        delta != 0 ==> match (next, stepped(available@, current as int, delta as int)) {
            (Some(found), Some(expected)) => found == expected,
            (None, None) => true,
            _ => false,
        },
{
    if delta == 0 {
        return Some(current);
    }
    let mut index: usize = current;
    loop
        invariant
            index < available@.len(),
            delta != 0,
            current < available@.len(),
            stepped(available@, current as int, delta as int) == stepped(
                available@,
                index as int,
                delta as int,
            ),
        decreases
                (if delta > 0 {
                    available@.len() - index
                } else {
                    index as int
                }),
    {
        let next: usize;
        if delta > 0 {
            let ahead: usize = available.len() - index;
            if delta as usize >= ahead {
                return None;
            }
            next = index + delta as usize;
        } else {
            let back: usize = if delta == isize::MIN {
                isize::MAX as usize + 1
            } else {
                (-delta) as usize
            };
            if back > index {
                return None;
            }
            next = index - back;
        }
        assert(next == index + delta);
        if available[next] {
            return Some(next);
        }
        index = next;
    }
}

/// A step lands on a sweep that carries the field, on the side that was asked
/// for.
pub proof fn law_a_step_lands_on_the_field(available: Seq<bool>, index: int, delta: int)
    requires
        delta != 0,
        0 <= index < available.len(),
    ensures
        stepped(available, index, delta) matches Some(next) ==> {
            &&& 0 <= next < available.len()
            &&& available[next]
            &&& delta > 0 ==> next > index
            &&& delta < 0 ==> next < index
        },
    decreases
            (if delta > 0 {
                available.len() - index
            } else {
                index
            }),
{
    let next = index + delta;
    if 0 <= next < available.len() && !available[next] {
        law_a_step_lands_on_the_field(available, next, delta);
    }
}

/// The first sweep that carries a field: it does, and none before it; there is
/// one as soon as any sweep does.
pub proof fn law_the_first_available_is_first(available: Seq<bool>, other: int)
    requires
        available.len() <= usize::MAX,
        0 <= other < available.len(),
    ensures
        first_available(available) matches Some(at) ==> at < available.len()
            && available[at as int] && (available[other] ==> at <= other),
        available[other] ==> first_available(available) is Some,
{
    let carries = |one: bool| one;
    lemma_first_where(available, carries);
    let found = first_where(available, carries);
    if other < found {
        assert(!carries(available[other]));
    }
}

/// The sweep that serves a source field carries it, whichever tilt is wanted. A
/// wanted sweep that carries it is served itself; a wanted elevation is served by
/// a sweep none other is nearer to; what cannot be served so is served by the
/// first that carries the field, and nothing is where none does.
pub proof fn law_what_serves_a_source_field(
    tilt: TiltSelection,
    available: Seq<bool>,
    distance: Seq<u32>,
    cut: Option<usize>,
    other: int,
)
    requires
        available.len() <= usize::MAX,
        distance.len() == available.len(),
        source_cut(tilt, available, distance, cut),
        0 <= other < available.len(),
    ensures
        cut matches Some(at) ==> at < available.len() && available[at as int],
        available[other] ==> cut is Some,
        tilt matches TiltSelection::CutIndex(index) && index == other && available[other]
            ==> cut == Some(other as usize),
        tilt matches TiltSelection::CutIndex(index) && (index >= available.len()
            || !available[index as int]) && available[other] ==> cut->0 <= other,
        tilt is LowestAvailable && available[other] ==> cut->0 <= other,
        tilt is NearestElevationTenths && available[other] ==> distance[cut->0 as int]
            < distance[other] || (distance[cut->0 as int] == distance[other] && cut->0 <= other),
{
    let carries = |one: bool| one;
    lemma_first_where(available, carries);
    let found = first_where(available, carries);
    if other < found {
        assert(!carries(available[other]));
    }
    if found < available.len() {
        assert(carries(available[found]));
    }
}

/// A step goes to the nearest sweep that carries the field a whole number of
/// strides away: none it passed over does, and where it finds none, none there
/// is.
pub proof fn law_a_step_passes_over_no_sweep(
    available: Seq<bool>,
    index: int,
    delta: int,
    strides: int,
)
    requires
        delta != 0,
        0 <= index < available.len(),
        strides >= 1,
        0 <= index + strides * delta < available.len(),
        available[index + strides * delta],
    ensures
        stepped(available, index, delta) matches Some(next) && (delta > 0 ==> next <= index
            + strides * delta) && (delta < 0 ==> next >= index + strides * delta),
    decreases strides,
{
    let next = index + delta;
    assert(strides * delta == delta + (strides - 1) * delta) by (nonlinear_arith);
    assert((strides - 1) * delta >= 0 || delta < 0) by (nonlinear_arith)
        requires
            strides >= 1,
    ;
    assert((strides - 1) * delta <= 0 || delta > 0) by (nonlinear_arith)
        requires
            strides >= 1,
            delta != 0,
    ;
    if !available[next] {
        if strides == 1 {
            assert(strides * delta == delta) by (nonlinear_arith)
                requires
                    strides == 1,
            ;
        } else {
            law_a_step_passes_over_no_sweep(available, next, delta, strides - 1);
        }
    }
}

/// What serves a modeled product: until the volume is measured the first sweep
/// listed; then the wanted sweep where it carries the product, the nearest for a
/// wanted elevation, and the lowest otherwise.
pub proof fn law_what_serves_a_modeled_product(tilt: TiltSelection, cuts: ModeledCuts)
    ensures
        !cuts.measured ==> modeled_cut(tilt, cuts) == cuts.first_listed,
        cuts.measured && tilt is LowestAvailable ==> modeled_cut(tilt, cuts) == cuts.lowest,
        cuts.measured && tilt is NearestElevationTenths ==> modeled_cut(tilt, cuts)
            == cuts.nearest,
        cuts.measured && cuts.wanted_carries ==> (tilt matches TiltSelection::CutIndex(index)
            ==> modeled_cut(tilt, cuts) == Some(index as usize)),
        cuts.measured && !cuts.wanted_carries && tilt is CutIndex ==> modeled_cut(tilt, cuts)
            == cuts.lowest,
{
}

// ---------------------------------------------------------------------------
// Modeled products
// ---------------------------------------------------------------------------

/// What the product engine says of a volume for one product.
#[derive(Clone, Copy, Debug, PartialEq, Eq, Structural)]
pub struct ModeledCuts {
    /// Whether the volume has been measured.
    pub measured: bool,
    /// The first sweep listed that carries the product.
    pub first_listed: Option<usize>,
    /// The freshest sweep of the lowest tilt that serves it.
    pub lowest: Option<usize>,
    /// The sweep nearest the wanted elevation that serves it.
    pub nearest: Option<usize>,
    /// Whether the wanted sweep carries it.
    pub wanted_carries: bool,
}

/// The sweep that serves a pane which draws a modeled product. Until the volume
/// has been measured, the first listed has to do.
pub open spec fn modeled_cut(tilt: TiltSelection, cuts: ModeledCuts) -> Option<usize> {
    if !cuts.measured {
        cuts.first_listed
    } else {
        match tilt {
            TiltSelection::LowestAvailable => cuts.lowest,
            TiltSelection::CutIndex(index) => if cuts.wanted_carries {
                Some(index as usize)
            } else {
                cuts.lowest
            },
            TiltSelection::NearestElevationTenths(_) => cuts.nearest,
        }
    }
}

/// The sweep that serves a pane which draws a modeled product.
pub fn resolve_modeled_cut(tilt: TiltSelection, cuts: &ModeledCuts) -> (cut: Option<usize>)
    ensures
        cut == modeled_cut(tilt, *cuts),
{
    if !cuts.measured {
        return cuts.first_listed;
    }
    match tilt {
        TiltSelection::LowestAvailable => cuts.lowest,
        TiltSelection::CutIndex(index) => if cuts.wanted_carries {
            Some(index as usize)
        } else {
            cuts.lowest
        },
        TiltSelection::NearestElevationTenths(_) => cuts.nearest,
    }
}

// ---------------------------------------------------------------------------
// What the tilt readout says
// ---------------------------------------------------------------------------

/// The tilt readout: the measured elevation, else the stored one, else that
/// there is none.
pub open spec fn tilt_label(
    has_frame: bool,
    cut: Option<usize>,
    measured_deg: Option<Seq<char>>,
    stored_deg: Option<Seq<char>>,
) -> Seq<char> {
    if !has_frame {
        "No tilt"@
    } else if cut is None {
        "Unavailable"@
    } else {
        match measured_deg {
            Some(degrees) => degrees + "\u{b0}"@,
            None => match stored_deg {
                Some(degrees) => degrees + "\u{b0}"@,
                None => "Unavailable"@,
            },
        }
    }
}

/// Text that may be absent, as contracts see it.
pub open spec fn str_view(text: Option<&str>) -> Option<Seq<char>> {
    match text {
        Some(t) => Some(t@),
        None => None,
    }
}

/// The tilt readout. Elevations come written, to two decimals.
pub fn active_tilt_label(
    has_frame: bool,
    cut: Option<usize>,
    measured_deg: Option<&str>,
    stored_deg: Option<&str>,
) -> (label: String)
    ensures
        label@ == tilt_label(has_frame, cut, str_view(measured_deg), str_view(stored_deg)),
{
    if !has_frame {
        return "No tilt".to_owned();
    }
    if cut.is_none() {
        return "Unavailable".to_owned();
    }
    let degrees = match measured_deg {
        Some(degrees) => Some(degrees),
        None => stored_deg,
    };
    match degrees {
        Some(degrees) => {
            let mut label = degrees.to_owned();
            label.append("\u{b0}");
            label
        },
        None => "Unavailable".to_owned(),
    }
}

/// The sweep that was chosen, with its measured numbers written.
pub struct ChosenCut<'a> {
    pub index: usize,
    pub count: usize,
    pub leg: &'a str,
    pub nominal_deg: &'a str,
    pub stored_deg: &'a str,
    pub radials: usize,
    pub coverage_deg: &'a str,
    pub complete: bool,
    pub nyquist_mps: Option<&'a str>,
    pub repeats_passed_over: usize,
    /// How much fresher the sweep is than the first one listed, where it is.
    pub fresher_seconds: Option<&'a str>,
}

/// What follows the azimuth coverage of a sweep.
pub open spec fn arriving_note(complete: bool) -> Seq<char> {
    if complete {
        ""@
    } else {
        ", still arriving"@
    }
}

/// The lines that say why this sweep was chosen.
pub open spec fn chosen_cut_lines(cut: ChosenCut) -> Seq<Seq<char>> {
    seq![
        "cut "@ + decimal(cut.index as nat) + " of "@ + decimal(cut.count as nat) + " - "@
            + cut.leg@ + " leg at "@ + cut.nominal_deg@ + "\u{b0} (stored "@ + cut.stored_deg@
            + "\u{b0})"@,
        decimal(cut.radials as nat) + " radials, "@ + cut.coverage_deg@ + "\u{b0} of azimuth"@
            + arriving_note(cut.complete),
    ] + (match cut.nyquist_mps {
        Some(nyquist) => seq!["Nyquist "@ + nyquist@ + " m/s"@],
        None => Seq::empty(),
    }) + (if cut.repeats_passed_over > 0 {
        seq![
            decimal(cut.repeats_passed_over as nat) + " other sweep(s) of this tilt in the volume"@,
        ]
    } else {
        Seq::empty()
    }) + (match cut.fresher_seconds {
        Some(seconds) => seq![
            seconds@ + " s fresher than the first sweep listed in the file"@,
        ],
        None => Seq::empty(),
    })
}

/// What the engine could say of the active pane's sweep.
pub enum TiltFacts<'a> {
    Unmeasured,
    /// No sweep carries the moment of this name.
    NotCarried(&'a str),
    NotSelected,
    Chosen(ChosenCut<'a>),
}

/// Why this sweep and not another.
pub open spec fn tilt_hover(facts: TiltFacts) -> Seq<char> {
    match facts {
        TiltFacts::Unmeasured => "No volume measured yet"@,
        TiltFacts::NotCarried(moment) => "No sweep in this volume carries "@ + moment@,
        TiltFacts::NotSelected => "No sweep selected"@,
        TiltFacts::Chosen(cut) => joined(chosen_cut_lines(cut), "\n"@),
    }
}

/// Why this sweep and not another.
pub fn active_tilt_hover(facts: &TiltFacts) -> (text: String)
    ensures
        text@ == tilt_hover(*facts),
{
    match facts {
        TiltFacts::Unmeasured => "No volume measured yet".to_owned(),
        TiltFacts::NotCarried(moment) => {
            let mut text = "No sweep in this volume carries ".to_owned();
            text.append(moment);
            text
        },
        TiltFacts::NotSelected => "No sweep selected".to_owned(),
        TiltFacts::Chosen(cut) => {
            let mut lines: Vec<String> = Vec::new();
            let mut line = "cut ".to_owned();
            append_decimal(&mut line, cut.index as u64);
            line.append(" of ");
            append_decimal(&mut line, cut.count as u64);
            line.append(" - ");
            line.append(cut.leg);
            line.append(" leg at ");
            line.append(cut.nominal_deg);
            line.append("\u{b0} (stored ");
            line.append(cut.stored_deg);
            line.append("\u{b0})");
            lines.push(line);
            let mut line = String::new();
            append_decimal(&mut line, cut.radials as u64);
            line.append(" radials, ");
            line.append(cut.coverage_deg);
            line.append("\u{b0} of azimuth");
            line.append(
                if cut.complete {
                    ""
                } else {
                    ", still arriving"
                },
            );
            assert(line@ =~= chosen_cut_lines(*cut)[1]);
            lines.push(line);
            if let Some(nyquist) = cut.nyquist_mps {
                let mut line = "Nyquist ".to_owned();
                line.append(nyquist);
                line.append(" m/s");
                lines.push(line);
            }
            if cut.repeats_passed_over > 0 {
                let mut line = String::new();
                append_decimal(&mut line, cut.repeats_passed_over as u64);
                line.append(" other sweep(s) of this tilt in the volume");
                assert(line@ =~= decimal(cut.repeats_passed_over as nat)
                    + " other sweep(s) of this tilt in the volume"@);
                lines.push(line);
            }
            if let Some(seconds) = cut.fresher_seconds {
                let mut line = seconds.to_owned();
                line.append(" s fresher than the first sweep listed in the file");
                lines.push(line);
            }
            assert(texts(lines@) =~= chosen_cut_lines(*cut));
            join(&lines, "\n")
        },
    }
}

/// The sentence that ends every account of a source field.
pub open spec fn source_field_limit() -> Seq<char> {
    "Exact source fields are currently 2D only; no modeled product was substituted."@
}

/// The sweep of a source field, with its numbers written.
pub struct SourceCut<'a> {
    pub index: usize,
    pub count: usize,
    pub nominal_deg: &'a str,
    pub stored_deg: &'a str,
    pub rows: usize,
    pub radials: usize,
    /// The measured azimuth coverage and whether the sweep is complete, where
    /// the volume has been measured.
    pub coverage: Option<(&'a str, bool)>,
    pub description: Option<&'a str>,
    pub units: Option<&'a str>,
}

/// What is known of a source field's sweep.
pub enum SourceFacts<'a> {
    /// Nothing is on screen, or the sweep is not in the volume.
    Selected,
    NotCarried,
    Found(SourceCut<'a>),
}

/// The lines that describe a source field's sweep.
pub open spec fn source_cut_lines(name: Seq<char>, cut: SourceCut) -> Seq<Seq<char>> {
    seq![
        "Exact source field "@ + name + " \u{b7} 2D only"@,
        "cut "@ + decimal(cut.index as nat) + " of "@ + decimal(cut.count as nat) + " at "@
            + cut.nominal_deg@ + "\u{b0} (stored "@ + cut.stored_deg@ + "\u{b0})"@,
        decimal(cut.rows as nat) + " source rows on "@ + decimal(cut.radials as nat)
            + " sweep radials"@,
    ] + (match cut.coverage {
        Some((degrees, complete)) => seq![
            degrees@ + "\u{b0} of azimuth"@ + arriving_note(complete),
        ],
        None => Seq::empty(),
    }) + (match cut.description {
        Some(description) => seq!["Producer description: "@ + description@],
        None => Seq::empty(),
    }) + seq![
        "Producer unit token: "@ + (match cut.units {
            Some(units) => units@,
            None => "not provided"@,
        }),
        source_field_limit(),
    ]
}

/// What the tilt readout says of a source field.
pub open spec fn source_hover(name: Seq<char>, facts: SourceFacts) -> Seq<char> {
    match facts {
        SourceFacts::Selected => "Exact source field "@ + name + " is selected.\n"@
            + source_field_limit(),
        SourceFacts::NotCarried => "No sweep in this volume carries exact source field "@ + name
            + ".\n"@ + source_field_limit(),
        SourceFacts::Found(cut) => joined(source_cut_lines(name, cut), "\n"@),
    }
}

/// Describes the exact producer field a pane carries, without interpreting it.
pub fn source_field_tilt_hover(name: &str, facts: &SourceFacts) -> (text: String)
    ensures
        text@ == source_hover(name@, *facts),
{
    match facts {
        SourceFacts::Selected => {
            let mut text = "Exact source field ".to_owned();
            text.append(name);
            text.append(" is selected.\n");
            text.append(
                "Exact source fields are currently 2D only; no modeled product was substituted.",
            );
            text
        },
        SourceFacts::NotCarried => {
            let mut text = "No sweep in this volume carries exact source field ".to_owned();
            text.append(name);
            text.append(".\n");
            text.append(
                "Exact source fields are currently 2D only; no modeled product was substituted.",
            );
            text
        },
        SourceFacts::Found(cut) => {
            let mut lines: Vec<String> = Vec::new();
            let mut line = "Exact source field ".to_owned();
            line.append(name);
            line.append(" \u{b7} 2D only");
            lines.push(line);
            let mut line = "cut ".to_owned();
            append_decimal(&mut line, cut.index as u64);
            line.append(" of ");
            append_decimal(&mut line, cut.count as u64);
            line.append(" at ");
            line.append(cut.nominal_deg);
            line.append("\u{b0} (stored ");
            line.append(cut.stored_deg);
            line.append("\u{b0})");
            lines.push(line);
            let mut line = String::new();
            append_decimal(&mut line, cut.rows as u64);
            line.append(" source rows on ");
            append_decimal(&mut line, cut.radials as u64);
            line.append(" sweep radials");
            assert(line@ =~= source_cut_lines(name@, *cut)[2]);
            lines.push(line);
            if let Some((degrees, complete)) = cut.coverage {
                let mut line = degrees.to_owned();
                line.append("\u{b0} of azimuth");
                line.append(
                    if complete {
                        ""
                    } else {
                        ", still arriving"
                    },
                );
                lines.push(line);
            }
            if let Some(description) = cut.description {
                let mut line = "Producer description: ".to_owned();
                line.append(description);
                lines.push(line);
            }
            let mut line = "Producer unit token: ".to_owned();
            line.append(
                match cut.units {
                    Some(units) => units,
                    None => "not provided",
                },
            );
            lines.push(line);
            lines.push(
                "Exact source fields are currently 2D only; no modeled product was substituted.".to_owned(),
            );
            assert(texts(lines@) =~= source_cut_lines(name@, *cut));
            join(&lines, "\n")
        },
    }
}

/// What the processor did to the sweep on screen before it was written.
pub struct SweepCensoring<'a> {
    pub moment: &'a str,
    /// The threshold in decibels, written, where the source states one.
    pub snr_threshold_db: Option<&'a str>,
    /// What was combined, where the sweep is coarser than it was collected.
    pub recombination: Option<&'a str>,
}

/// The two readouts of a sweep's censoring; nothing where the source states
/// nothing.
pub open spec fn censoring_readouts(censoring: Option<SweepCensoring>) -> (
    Option<Seq<char>>,
    Option<Seq<char>>,
) {
    match censoring {
        None => (None, None),
        Some(stated) => (
            match stated.snr_threshold_db {
                Some(db) => Some(stated.moment@ + " SNR threshold "@ + db@ + " dB"@),
                None => None,
            },
            match stated.recombination {
                Some(label) => Some("Resolution reduced on this sweep: "@ + label@),
                None => None,
            },
        ),
    }
}

/// The two readouts of the active sweep's censoring.
pub fn active_censoring_readouts(censoring: &Option<SweepCensoring>) -> (readouts: (
    Option<String>,
    Option<String>,
))
    ensures
        (crate::panes::text_view(readouts.0), crate::panes::text_view(readouts.1))
            == censoring_readouts(*censoring),
{
    match censoring {
        None => (None, None),
        Some(stated) => {
            let threshold = match stated.snr_threshold_db {
                Some(db) => {
                    let mut text = stated.moment.to_owned();
                    text.append(" SNR threshold ");
                    text.append(db);
                    text.append(" dB");
                    Some(text)
                },
                None => None,
            };
            let loss = match stated.recombination {
                Some(label) => {
                    let mut text = "Resolution reduced on this sweep: ".to_owned();
                    text.append(label);
                    Some(text)
                },
                None => None,
            };
            (threshold, loss)
        },
    }
}

/// What the tilt readout says: without a frame that there is no tilt; without a
/// sweep, or an elevation of it, that none is available; and else the elevation,
/// measured before stored.
pub proof fn law_what_the_tilt_readout_says(
    has_frame: bool,
    cut: Option<usize>,
    measured_deg: Option<Seq<char>>,
    stored_deg: Option<Seq<char>>,
)
    ensures
        ({
            let label = tilt_label(has_frame, cut, measured_deg, stored_deg);
            &&& !has_frame ==> label == "No tilt"@
            &&& has_frame && (cut is None || (measured_deg is None && stored_deg is None))
                ==> label == "Unavailable"@
            &&& has_frame && cut is Some && measured_deg is Some ==> label == (
            measured_deg->0).push('\u{b0}')
            &&& has_frame && cut is Some && measured_deg is None && stored_deg is Some ==> label
                == (stored_deg->0).push('\u{b0}')
        }),
{
    reveal_strlit("\u{b0}");
    if measured_deg is Some {
        assert(measured_deg->0 + "\u{b0}"@ =~= (measured_deg->0).push('\u{b0}'));
    }
    if stored_deg is Some {
        assert(stored_deg->0 + "\u{b0}"@ =~= (stored_deg->0).push('\u{b0}'));
    }
}

/// Which lines tell why a sweep was chosen: always what it is and how much of it
/// there is; then its Nyquist velocity, how many others were passed over, and how
/// much fresher it is, each where it holds, in this order.
pub proof fn law_which_lines_tell_of_a_sweep(cut: ChosenCut)
    ensures
        ({
            let lines = chosen_cut_lines(cut);
            let nyquist = if cut.nyquist_mps is Some {
                1int
            } else {
                0int
            };
            let others = if cut.repeats_passed_over > 0 {
                1int
            } else {
                0int
            };
            let fresher = if cut.fresher_seconds is Some {
                1int
            } else {
                0int
            };
            &&& lines.len() == 2 + nyquist + others + fresher
            &&& ("cut "@ + decimal(cut.index as nat) + " of "@ + decimal(
                cut.count as nat,
            )).is_prefix_of(lines[0])
            &&& (decimal(cut.radials as nat) + " radials, "@).is_prefix_of(lines[1])
            &&& !cut.complete ==> ", still arriving"@.is_suffix_of(lines[1])
            &&& nyquist == 1 ==> lines[2] == "Nyquist "@ + (cut.nyquist_mps->0)@ + " m/s"@
            &&& others == 1 ==> decimal(cut.repeats_passed_over as nat).is_prefix_of(
                lines[2 + nyquist],
            )
            &&& fresher == 1 ==> (cut.fresher_seconds->0)@.is_prefix_of(lines.last())
        }),
{
    let lines = chosen_cut_lines(cut);
    let head = "cut "@ + decimal(cut.index as nat) + " of "@ + decimal(cut.count as nat);
    assert(head =~= lines[0].subrange(0, head.len() as int));
    let radials = decimal(cut.radials as nat) + " radials, "@;
    assert(radials =~= lines[1].subrange(0, radials.len() as int));
    if !cut.complete {
        let tail = ", still arriving"@;
        assert(tail =~= lines[1].subrange(lines[1].len() - tail.len(), lines[1].len() as int));
    }
    if cut.repeats_passed_over > 0 {
        let line = lines[2 + (if cut.nyquist_mps is Some {
            1int
        } else {
            0int
        })];
        let count = decimal(cut.repeats_passed_over as nat);
        assert(count =~= line.subrange(0, count.len() as int));
    }
    if cut.fresher_seconds is Some {
        let seconds = (cut.fresher_seconds->0)@;
        assert(seconds =~= lines.last().subrange(0, seconds.len() as int));
    }
}

/// What is said of a censored sweep: its threshold where it states one, and that
/// its resolution was reduced where it was; of any other sweep nothing.
pub proof fn law_what_is_said_of_censoring(censoring: Option<SweepCensoring>)
    ensures
        ({
            let (threshold, reduced) = censoring_readouts(censoring);
            &&& threshold is Some <==> (censoring matches Some(stated)
                && stated.snr_threshold_db is Some)
            &&& reduced is Some <==> (censoring matches Some(stated)
                && stated.recombination is Some)
            &&& threshold matches Some(words) ==> words == (censoring->0).moment@
                + " SNR threshold "@ + ((censoring->0).snr_threshold_db->0)@ + " dB"@
            &&& reduced matches Some(words) ==> words == "Resolution reduced on this sweep: "@ + (
            (censoring->0).recombination->0)@
        }),
{
}

} // verus!
