//! Where radars stand, and when markers and warnings are put on the map anew.

use crate::moment::Moment;
use crate::text::same_ignoring_ascii_case;
use vstd::prelude::*;

verus! {

use crate::find::{first_where, lemma_first_where_is};
use crate::moment::rfc3339_text;
use crate::panes::text_view;
use crate::text::ascii_lowered;

/// How long placed warnings stand before they are placed again, so that one
/// which has run out goes without waiting for the next poll.
pub const HAZARD_REPLACEMENT_MS: u64 = 30_000;

/// A radar and where it stands, in bit patterns of degrees.
pub struct LocatedSite {
    pub id: String,
    pub name: Option<String>,
    pub latitude_bits: u64,
    pub longitude_bits: u64,
}

/// A radar as contracts see it.
pub ghost struct SiteView {
    pub id: Seq<char>,
    pub name: Option<Seq<char>>,
    pub latitude_bits: u64,
    pub longitude_bits: u64,
}

impl View for LocatedSite {
    type V = SiteView;

    open spec fn view(&self) -> SiteView {
        SiteView {
            id: self.id@,
            name: text_view(self.name),
            latitude_bits: self.latitude_bits,
            longitude_bits: self.longitude_bits,
        }
    }
}

/// A radar that may be unknown, as contracts see it.
pub open spec fn site_view(site: Option<LocatedSite>) -> Option<SiteView> {
    match site {
        Some(s) => Some(s@),
        None => None,
    }
}

impl LocatedSite {
    /// A copy.
    pub fn copy(&self) -> (copy: LocatedSite)
        ensures
            copy@ == self@,
    {
        LocatedSite {
            id: self.id.clone(),
            name: match &self.name {
                Some(name) => Some(name.clone()),
                None => None,
            },
            latitude_bits: self.latitude_bits,
            longitude_bits: self.longitude_bits,
        }
    }
}

/// A directory as contracts see it.
pub open spec fn directory(sites: Seq<LocatedSite>) -> Seq<SiteView> {
    sites.map_values(|site: LocatedSite| site@)
}

/// The first radar of a directory that goes by an id, in any case of letters.
pub open spec fn published_site(sites: Seq<SiteView>, id: Seq<char>) -> Option<SiteView> {
    let at = first_where(
        sites,
        |site: SiteView| ascii_lowered(site.id) == ascii_lowered(id),
    );
    if at < sites.len() {
        Some(sites[at])
    } else {
        None
    }
}

/// Where the radar of a record of pulses stood: what the published directory
/// says, else what the research table does, else nothing.
pub open spec fn pulse_site(
    sites: Seq<SiteView>,
    id: Seq<char>,
    research: Option<SiteView>,
) -> Option<SiteView> {
    match published_site(sites, id) {
        Some(site) => Some(site),
        None => research,
    }
}

/// The published directory outranks the research table, and a radar in neither
/// gets no position rather than another's.
pub proof fn law_the_published_directory_outranks_the_table(
    sites: Seq<SiteView>,
    id: Seq<char>,
    research: Option<SiteView>,
)
    ensures
        published_site(sites, id) is Some ==> pulse_site(sites, id, research) == published_site(
            sites,
            id,
        ),
        published_site(sites, id) is None ==> pulse_site(sites, id, research) == research,
        published_site(sites, id) is None && research is None ==> pulse_site(sites, id, research)
            is None,
{
}

/// A radar in the directory, by id.
pub fn located_site<'a>(sites: &'a Vec<LocatedSite>, id: &str) -> (found: Option<&'a LocatedSite>)
    ensures
        match (found, published_site(directory(sites@), id@)) {
            (Some(site), Some(expected)) => site@ == expected,
            (None, None) => true,
            _ => false,
        },
{
    let ghost all = directory(sites@);
    let ghost wanted = |site: SiteView| ascii_lowered(site.id) == ascii_lowered(id@);
    let mut at: usize = 0;
    while at < sites.len()
        invariant
            at <= sites@.len(),
            all == directory(sites@),
            wanted == (|site: SiteView| ascii_lowered(site.id) == ascii_lowered(id@)),
            forall|i: int| 0 <= i < at ==> !wanted(#[trigger] all[i]),
        decreases sites@.len() - at,
    {
        assert(all[at as int] == sites@[at as int]@);
        if same_ignoring_ascii_case(sites[at].id.as_str(), id) {
            proof {
                lemma_first_where_is(all, wanted, at as int);
            }
            return Some(&sites[at]);
        }
        at = at + 1;
    }
    proof {
        lemma_first_where_is(all, wanted, at as int);
    }
    None
}

/// Where the radar of a record of pulses stood. `research` is what the research
/// table says of it.
pub fn time_series_site(
    sites: &Vec<LocatedSite>,
    id: &str,
    research: Option<LocatedSite>,
) -> (found: Option<LocatedSite>)
    ensures
        site_view(found) == pulse_site(directory(sites@), id@, site_view(research)),
{
    match located_site(sites, id) {
        Some(site) => Some(site.copy()),
        None => research,
    }
}

/// What to do about things placed on the map.
#[derive(Clone, Copy, Debug, PartialEq, Eq, Structural)]
pub enum PlaceStep {
    Keep,
    /// Take them off, and forget what they were placed for.
    Drop,
    /// Place them for the projection in force.
    Place,
}

// ---------------------------------------------------------------------------
// The directory and the warnings as they arrive
// ---------------------------------------------------------------------------

/// The radars the window knows of, and the ground their markers stand on.
pub struct SiteDirectory {
    pub sites: Vec<LocatedSite>,
    /// How many markers are on the map.
    pub placed: usize,
    /// The projection the markers were placed for.
    pub placed_for: Option<u64>,
}

/// The directory as contracts see it.
pub ghost struct DirectoryView {
    pub sites: Seq<SiteView>,
    pub placed: usize,
    pub placed_for: Option<u64>,
}

impl View for SiteDirectory {
    type V = DirectoryView;

    open spec fn view(&self) -> DirectoryView {
        DirectoryView {
            sites: directory(self.sites@),
            placed: self.placed,
            placed_for: self.placed_for,
        }
    }
}

/// What to do about the radar markers: switched off they go, and they are placed
/// once for each projection.
pub open spec fn markers_step(
    known: DirectoryView,
    shown: bool,
    projection: Option<u64>,
) -> PlaceStep {
    if !shown {
        if known.placed > 0 {
            PlaceStep::Drop
        } else {
            PlaceStep::Keep
        }
    } else if projection is None || projection == known.placed_for {
        PlaceStep::Keep
    } else {
        PlaceStep::Place
    }
}

/// The directory after that was done. How many markers a projection had room for
/// is told afterwards.
pub open spec fn markers_refreshed(
    known: DirectoryView,
    shown: bool,
    projection: Option<u64>,
) -> DirectoryView {
    match markers_step(known, shown, projection) {
        PlaceStep::Keep => known,
        PlaceStep::Drop => DirectoryView { placed: 0, placed_for: None, ..known },
        PlaceStep::Place => DirectoryView { placed_for: projection, ..known },
    }
}

impl SiteDirectory {
    /// A window that no directory has reached yet.
    pub fn new() -> (known: SiteDirectory)
        ensures
            known@ == (DirectoryView { sites: Seq::empty(), placed: 0, placed_for: None }),
    {
        let known = SiteDirectory { sites: Vec::new(), placed: 0, placed_for: None };
        assert(known@.sites =~= Seq::empty());
        known
    }

    /// Takes what the directory service has brought, and says whether a frame
    /// that waits for a place should be looked at again. A new list replaces the
    /// old one and has every marker placed anew.
    pub fn poll_site_directory(&mut self, brought: Option<Vec<LocatedSite>>) -> (arrived: bool)
        ensures
            arrived == (brought is Some),
            final(self)@ == (match brought {
                Some(sites) => DirectoryView {
                    sites: directory(sites@),
                    placed_for: None,
                    ..old(self)@
                },
                None => old(self)@,
            }),
    {
        match brought {
            Some(sites) => {
                self.sites = sites;
                self.placed_for = None;
                true
            },
            None => false,
        }
    }

    /// Says what to do about the radar markers on the map of this projection,
    /// and records what they are placed for from now on.
    pub fn refresh_placed_sites(&mut self, shown: bool, projection: Option<u64>) -> (step: PlaceStep)
        ensures
            step == markers_step(old(self)@, shown, projection),
            final(self)@ == markers_refreshed(old(self)@, shown, projection),
    {
        if !shown {
            if self.placed == 0 {
                return PlaceStep::Keep;
            }
            self.placed = 0;
            self.placed_for = None;
            return PlaceStep::Drop;
        }
        let stands = match (projection, self.placed_for) {
            (None, _) => true,
            (Some(wanted), Some(held)) => wanted == held,
            (Some(_), None) => false,
        };
        if stands {
            PlaceStep::Keep
        } else {
            self.placed_for = projection;
            PlaceStep::Place
        }
    }

    /// Takes note of how many markers came on the map when they were placed.
    pub fn note_placed_sites(&mut self, placed: usize)
        ensures
            final(self)@ == (DirectoryView { placed, ..old(self)@ }),
    {
        self.placed = placed;
    }

    /// Forgets what the markers were placed for, so that they are placed anew.
    pub fn forget_placing(&mut self)
        ensures
            final(self)@ == (DirectoryView { placed_for: None, ..old(self)@ }),
    {
        self.placed_for = None;
    }
}

/// One answer of the warnings service: how the feed is, and its records under
/// the numbers the service keeps them by. A poll that failed has no records.
pub struct WarningsUpdate {
    pub state: String,
    pub records: Option<Vec<u64>>,
}

/// An answer as contracts see it.
pub ghost struct WarningsUpdateView {
    pub state: Seq<char>,
    pub records: Option<Seq<u64>>,
}

impl View for WarningsUpdate {
    type V = WarningsUpdateView;

    open spec fn view(&self) -> WarningsUpdateView {
        WarningsUpdateView {
            state: self.state@,
            records: match self.records {
                Some(records) => Some(records@),
                None => None,
            },
        }
    }
}

/// The warnings in force as they were last heard of.
pub struct Warnings {
    pub state: String,
    pub records: Vec<u64>,
    /// How many of them are on the map.
    pub placed: usize,
    /// The projection they were placed for.
    pub placed_for: Option<u64>,
    /// When they were put on the map, on the window's clock.
    pub placed_at_ms: Option<u64>,
}

/// The warnings as contracts see them.
pub ghost struct WarningsView {
    pub state: Seq<char>,
    pub records: Seq<u64>,
    pub placed: usize,
    pub placed_for: Option<u64>,
    pub placed_at_ms: Option<u64>,
}

impl View for Warnings {
    type V = WarningsView;

    open spec fn view(&self) -> WarningsView {
        WarningsView {
            state: self.state@,
            records: self.records@,
            placed: self.placed,
            placed_for: self.placed_for,
            placed_at_ms: self.placed_at_ms,
        }
    }
}

/// The warnings after one answer of the service.
pub open spec fn warnings_polled(
    warnings: WarningsView,
    update: WarningsUpdateView,
) -> WarningsView {
    match update.records {
        Some(records) => WarningsView {
            state: update.state,
            records,
            placed_at_ms: None,
            ..warnings
        },
        None => WarningsView { state: update.state, ..warnings },
    }
}

/// Whether what was placed at `placed_at_ms` has to be placed anew.
pub open spec fn placing_is_stale(placed_at_ms: Option<u64>, now_ms: u64) -> bool {
    match placed_at_ms {
        Some(at) => now_ms - at >= HAZARD_REPLACEMENT_MS,
        None => true,
    }
}

/// What to do about the warnings: switched off they go, and they are placed for
/// each projection, and again from time to time.
pub open spec fn hazards_step(
    warnings: WarningsView,
    shown: bool,
    projection: Option<u64>,
    now_ms: u64,
) -> PlaceStep {
    if !shown {
        if warnings.placed > 0 {
            PlaceStep::Drop
        } else {
            PlaceStep::Keep
        }
    } else if projection is None {
        PlaceStep::Keep
    } else if projection == warnings.placed_for && !placing_is_stale(
        warnings.placed_at_ms,
        now_ms,
    ) {
        PlaceStep::Keep
    } else {
        PlaceStep::Place
    }
}

/// The warnings after that was done. How many a projection had room for is told
/// afterwards.
pub open spec fn hazards_refreshed(
    warnings: WarningsView,
    shown: bool,
    projection: Option<u64>,
    now_ms: u64,
) -> WarningsView {
    match hazards_step(warnings, shown, projection, now_ms) {
        PlaceStep::Keep => warnings,
        PlaceStep::Drop => WarningsView { placed: 0, placed_at_ms: None, ..warnings },
        PlaceStep::Place => WarningsView {
            placed_for: projection,
            placed_at_ms: Some(now_ms),
            ..warnings
        },
    }
}

/// The warnings with nothing known of where and when they were placed.
pub open spec fn placing_forgotten(warnings: WarningsView) -> WarningsView {
    WarningsView { placed_for: None, placed_at_ms: None, ..warnings }
}

/// What a placing of the warnings goes by: the instant by which those that ran
/// out are left off.
pub open spec fn placing_text(step: PlaceStep, now: Moment) -> Option<Seq<char>> {
    if step is Place {
        Some(rfc3339_text(now.spec_seconds(), now.spec_nanos()))
    } else {
        None
    }
}

/// A poll that failed is heard and leaves the records, and what is drawn of
/// them, alone: a bad round trip never blanks the map. One that brought records
/// has them placed at the next look at a map whose ground is known.
pub proof fn law_a_failed_poll_keeps_the_warnings(
    warnings: WarningsView,
    update: WarningsUpdateView,
    projection: u64,
    now_ms: u64,
)
    ensures
        warnings_polled(warnings, update).state == update.state,
        update.records is None ==> warnings_polled(warnings, update) == (WarningsView {
            state: update.state,
            ..warnings
        }),
        update.records matches Some(records) ==> warnings_polled(warnings, update).records
            == records && hazards_step(
            warnings_polled(warnings, update),
            true,
            Some(projection),
            now_ms,
        ) is Place,
{
}

/// What was taken off the map comes back at once when it is switched on again,
/// however soon; a change of ground places everything anew; and what was placed
/// stands for that ground, the warnings until their time is up.
pub proof fn law_what_is_shown_is_placed(
    known: DirectoryView,
    warnings: WarningsView,
    projection: u64,
    hidden_ms: u64,
    now_ms: u64,
)
    ensures
        known.placed > 0 ==> markers_step(
            markers_refreshed(known, false, Some(projection)),
            true,
            Some(projection),
        ) is Place,
        warnings.placed > 0 ==> hazards_step(
            hazards_refreshed(warnings, false, Some(projection), hidden_ms),
            true,
            Some(projection),
            now_ms,
        ) is Place,
        known.placed_for != Some(projection) ==> markers_step(known, true, Some(projection)) is Place,
        warnings.placed_for != Some(projection) ==> hazards_step(
            warnings,
            true,
            Some(projection),
            now_ms,
        ) is Place,
        markers_step(
            markers_refreshed(known, true, Some(projection)),
            true,
            Some(projection),
        ) is Keep,
        hazards_step(
            hazards_refreshed(placing_forgotten(warnings), true, Some(projection), hidden_ms),
            true,
            Some(projection),
            now_ms,
        ) is Keep <==> now_ms - hidden_ms < HAZARD_REPLACEMENT_MS,
{
}

impl Warnings {
    /// A feed that has not answered yet. `state` is how such a feed reads.
    pub fn new(state: String) -> (warnings: Warnings)
        ensures
            warnings@ == (WarningsView {
                state: state@,
                records: Seq::empty(),
                placed: 0,
                placed_for: None,
                placed_at_ms: None,
            }),
    {
        Warnings { state, records: Vec::new(), placed: 0, placed_for: None, placed_at_ms: None }
    }

    /// Takes one answer of the warnings service.
    pub fn poll_warnings(&mut self, update: WarningsUpdate)
        ensures
            final(self)@ == warnings_polled(old(self)@, update@),
    {
        self.state = update.state;
        match update.records {
            Some(records) => {
                self.records = records;
                self.placed_at_ms = None;
            },
            None => {},
        }
    }

    /// Says what to do about the warnings on the map of this projection and,
    /// where they are placed, the instant by which those that ran out are left
    /// off; records what they are placed for from now on. `now_ms` is the
    /// window's clock, `now` the calendar's.
    pub fn refresh_placed_hazards(
        &mut self,
        shown: bool,
        projection: Option<u64>,
        now_ms: u64,
        now: &Moment,
    ) -> (told: (PlaceStep, Option<String>))
        ensures
            told.0 == hazards_step(old(self)@, shown, projection, now_ms),
            text_view(told.1) == placing_text(told.0, *now),
            final(self)@ == hazards_refreshed(old(self)@, shown, projection, now_ms),
    {
        if !shown {
            if self.placed == 0 {
                return (PlaceStep::Keep, None);
            }
            self.placed = 0;
            self.placed_at_ms = None;
            return (PlaceStep::Drop, None);
        }
        let stale = match self.placed_at_ms {
            Some(at) => now_ms >= at && now_ms - at >= HAZARD_REPLACEMENT_MS,
            None => true,
        };
        let stands = match (projection, self.placed_for) {
            (None, _) => true,
            (Some(wanted), Some(held)) => wanted == held && !stale,
            (Some(_), None) => false,
        };
        if stands {
            (PlaceStep::Keep, None)
        } else {
            self.placed_for = projection;
            self.placed_at_ms = Some(now_ms);
            (PlaceStep::Place, Some(now.rfc3339()))
        }
    }

    /// Takes note of how many warnings came on the map when they were placed.
    pub fn note_placed_hazards(&mut self, placed: usize)
        ensures
            final(self)@ == (WarningsView { placed, ..old(self)@ }),
    {
        self.placed = placed;
    }

    /// Forgets where and when the warnings were placed, so that they are placed
    /// anew.
    pub fn forget_placing(&mut self)
        ensures
            final(self)@ == placing_forgotten(old(self)@),
    {
        self.placed_for = None;
        self.placed_at_ms = None;
    }
}

/// The radar that is found goes by the name asked for, whatever the case of its
/// letters, and stands before every other that does; one is found wherever the
/// directory has it.
pub proof fn law_the_radar_found_is_the_one_asked_for(
    sites: Seq<SiteView>,
    id: Seq<char>,
    other: int,
) -> (place: int)
    requires
        0 <= other < sites.len(),
    ensures
        published_site(sites, id) matches Some(found) ==> 0 <= place < sites.len() && found
            == sites[place] && ascii_lowered(found.id) == ascii_lowered(id),
        ascii_lowered(sites[other].id) == ascii_lowered(id) ==> published_site(sites, id) is Some
            && place <= other,
{
    let wanted = |site: SiteView| ascii_lowered(site.id) == ascii_lowered(id);
    crate::find::lemma_first_where(sites, wanted);
    let place = first_where(sites, wanted);
    if other < place {
        assert(!wanted(sites[other]));
    }
    place
}

/// When markers are put on the map: hidden ones are dropped where there are any;
/// shown ones are placed exactly where the map stands another way than they were
/// placed for. What was dropped counts as none, and what is placed is placed for
/// the map of now.
pub proof fn law_when_markers_are_placed(
    known: DirectoryView,
    shown: bool,
    projection: Option<u64>,
)
    ensures
        ({
            let step = markers_step(known, shown, projection);
            let after = markers_refreshed(known, shown, projection);
            &&& step is Place <==> shown && projection is Some && projection != known.placed_for
            &&& step is Drop <==> !shown && known.placed > 0
            &&& after.sites == known.sites
            &&& step is Keep ==> after == known
            &&& step is Drop ==> after.placed == 0 && after.placed_for is None
            &&& step is Place ==> after.placed_for == projection && after.placed == known.placed
        }),
{
}

/// When warnings are put on the map: hidden ones are dropped where there are any;
/// shown ones are placed where the map stands another way than they were placed
/// for, where they have not been placed, or where half a minute has gone by.
pub proof fn law_when_warnings_are_placed(
    warnings: WarningsView,
    shown: bool,
    projection: Option<u64>,
    now_ms: u64,
)
    ensures
        ({
            let step = hazards_step(warnings, shown, projection, now_ms);
            let after = hazards_refreshed(warnings, shown, projection, now_ms);
            let fresh = projection == warnings.placed_for && (
            warnings.placed_at_ms matches Some(at) && now_ms < at + 30_000);
            &&& step is Place <==> shown && projection is Some && !fresh
            &&& step is Drop <==> !shown && warnings.placed > 0
            &&& after.records == warnings.records
            &&& after.state == warnings.state
            &&& step is Keep ==> after == warnings
            &&& step is Drop ==> after.placed == 0 && after.placed_at_ms is None
                && after.placed_for == warnings.placed_for
            &&& step is Place ==> after.placed_for == projection && after.placed_at_ms == Some(
                now_ms,
            ) && after.placed == warnings.placed
        }),
{
}

/// What a poll of the warnings changes: the state it tells, and where it brought
/// records, the records, which are then placed anew. What is on the map stays.
pub proof fn law_what_a_poll_changes(warnings: WarningsView, update: WarningsUpdateView)
    ensures
        ({
            let after = warnings_polled(warnings, update);
            &&& after.state == update.state
            &&& after.placed == warnings.placed
            &&& after.placed_for == warnings.placed_for
            &&& update.records is None ==> after.records == warnings.records
                && after.placed_at_ms == warnings.placed_at_ms
            &&& update.records matches Some(records) ==> after.records == records
                && after.placed_at_ms is None
            &&& placing_forgotten(warnings) == (WarningsView {
                placed_for: None,
                placed_at_ms: None,
                ..warnings
            })
        }),
{
}

} // verus!
