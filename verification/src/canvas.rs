//! The canvas: what each pane says of its picture, what of the map it may draw
//! under it, and what becomes of a click on it.

use crate::app::WorkstationApp;
use crate::moment::Moment;
use crate::panes::MAX_PANES;
use crate::readouts::{
    displayed_frame_age, frame_position_is_known, pane_badges, pane_header_status,
    source_field_status, SourcePalette,
};
use crate::text::uppercase;
use crate::toolbar::{
    history_line, next_wake, pane_map, route_click, ClickRoute, PaneClick, PaneMap, WakeUp,
};
use crate::vrot::{VrotClick, VrotNext, VrotState, VrotTool};
use crate::workspace::{modeled_product_or_source_field, PaneProduct};
use vstd::prelude::*;

verus! {

use crate::age::volume_age;
use crate::app::{app_wf, AppView};
use crate::display::DisplayView;
use crate::history::current_frame;
use crate::readouts::{
    badge_list, displayed_age, header_parts, header_tail, position_is_known, separator,
    source_header,
};
use crate::text::{joined, texts, unicode_uppercase};
use crate::tilt::str_view;
use crate::toolbar::click_route;
use crate::vrot::{clicked, sampled, state_after_sample};
use crate::workspace::{ProductView, WorkspaceView};

/// What a pane's texts are made from besides the workstation's own state.
pub struct PaneFacts<'a> {
    /// The palette of the field a pane carries under its producer's own name.
    pub palette: SourcePalette,
    /// The criteria in force, where gates are hidden.
    pub filter: Option<&'a str>,
    /// The word for that beside the colours.
    pub filter_badge: Option<&'a str>,
    /// What a hail product assumed.
    pub hail_summary: Option<&'a str>,
    /// What the field of a record of pulses was made with.
    pub provenance: Option<&'a str>,
}

/// What a pane says of its picture.
pub struct PaneTexts {
    pub status: String,
    pub badges: Vec<String>,
    pub map: PaneMap,
}

/// What the field on screen was made with, where it was made here.
pub open spec fn made_with(app: AppView, facts: PaneFacts) -> Option<Seq<char>> {
    if app.pulses is Some {
        str_view(facts.provenance)
    } else {
        None
    }
}

/// The right-hand end of a pane's header row.
pub open spec fn pane_status(app: AppView, pane: int, facts: PaneFacts, now: Moment) -> Seq<char> {
    let runtime = app.display.board.panes[pane];
    let status = joined(
        header_parts(
            str_view(facts.filter),
            runtime.filter_line,
            header_tail(
                made_with(app, facts),
                app.live.feed,
                current_frame(app.display.history),
                runtime.status,
                now,
            ),
        ),
        separator(),
    );
    match app.workspace.panes[pane].product {
        ProductView::Modeled(_) => status,
        ProductView::Source(_) => source_header(facts.palette, status),
    }
}

/// A pane's badges.
pub open spec fn pane_badge_list(app: AppView, pane: int, facts: PaneFacts, now: Moment) -> Seq<
    Seq<char>,
> {
    let list = badge_list(
        app.pulses is Some,
        app.live.feed,
        current_frame(app.display.history),
        str_view(facts.filter_badge),
        str_view(facts.hail_summary),
        now,
    );
    match app.workspace.panes[pane].product {
        ProductView::Modeled(_) => list,
        ProductView::Source(_) => list.insert(0, "SOURCE FIELD"@),
    }
}

/// Whether a pane may draw anything that names a place.
pub open spec fn may_name_places(app: AppView) -> bool {
    position_is_known(current_frame(app.display.history))
}

/// A sweep whose place nobody knows is drawn over nothing that names one, and
/// its header says so wherever the field was computed here.
pub proof fn law_an_unplaced_sweep_gets_no_map(
    app: AppView,
    provenance: Seq<char>,
    now: Moment,
    render_status: Seq<char>,
)
    requires
        current_frame(app.display.history) matches Some(frame) && !frame.located,
    ensures
        !may_name_places(app),
        header_tail(
            Some(provenance),
            app.live.feed,
            current_frame(app.display.history),
            render_status,
            now,
        )[0] == "POSITION UNKNOWN - radar-local kilometres only"@,
{
}

/// A field under its producer's own name leads with saying so, in its header and
/// in its badges.
pub proof fn law_a_source_field_says_so(app: AppView, pane: int, facts: PaneFacts, now: Moment)
    requires
        app.workspace.panes[pane].product is Source,
    ensures
        pane_badge_list(app, pane, facts, now)[0] == "SOURCE FIELD"@,
        "SOURCE FIELD \u{b7} native-grid \u{b7} "@.is_prefix_of(
            pane_status(app, pane, facts, now),
        ),
{
    let status = pane_status(app, pane, facts, now);
    let head = "SOURCE FIELD \u{b7} native-grid \u{b7} "@;
    assert(status.subrange(0, head.len() as int) =~= head);
}

/// What a click on a pane leaves to do.
pub enum PaneAction {
    Nothing,
    /// Sample what is under the cursor.
    SampleVrot,
    /// Ask for this station's history.
    OpenHistory(String),
    /// Start live on this radar; its box reads as the second.
    StartLive(String, String),
    /// Find the nearest radar.
    FindNearest,
}

/// The workstation after a click on a pane. Every click that is for something
/// makes the pane the active one.
pub open spec fn pane_clicked(app: AppView, pane: int, click: PaneClick) -> AppView {
    match click_route(click) {
        ClickRoute::Nothing => app,
        ClickRoute::Observation => AppView {
            workspace: WorkspaceView { active_pane: pane, ..app.workspace },
            status: "Loading observation history for "@ + click.observation->0@,
            ..app
        },
        _ => AppView {
            workspace: WorkspaceView { active_pane: pane, ..app.workspace },
            ..app
        },
    }
}

/// The workstation after the velocity tool was given what was sampled.
pub open spec fn vrot_sampled(app: AppView, has_velocity: bool) -> AppView {
    let tool = app.display.vrot;
    let next = sampled(tool.state, has_velocity);
    AppView {
        display: DisplayView {
            vrot: VrotTool { state: state_after_sample(tool.state, next), ..tool },
            ..app.display
        },
        status: match next {
            VrotNext::Refused => "Vrot: that point has no velocity"@,
            VrotNext::KeepFirst => "Vrot: click the other side of the couplet"@,
            VrotNext::Measure => app.status,
        },
        ..app
    }
}

/// How a pane is titled and read under the cursor.
#[derive(Clone, Copy, Debug, PartialEq, Eq, Structural)]
pub enum PaneSubject {
    /// A modeled product.
    Product,
    /// A field that is there, under its producer's own name.
    SourceField,
    /// A field that this sweep does not have: nothing is read or explained in
    /// its name.
    MissingField,
}

/// What a pane is of. `shown` says whether the sweep has the field.
pub fn pane_subject(product: &PaneProduct, shown: bool) -> (subject: PaneSubject)
    ensures
        subject == (match product@ {
            ProductView::Modeled(_) => PaneSubject::Product,
            ProductView::Source(_) => if shown {
                PaneSubject::SourceField
            } else {
                PaneSubject::MissingField
            },
        }),
{
    match modeled_product_or_source_field(product) {
        Ok(_) => PaneSubject::Product,
        Err(_) => if shown {
            PaneSubject::SourceField
        } else {
            PaneSubject::MissingField
        },
    }
}

impl WorkstationApp {
    /// What a pane says of its picture, and what of the map it may draw.
    pub fn pane_texts(&self, pane: usize, facts: &PaneFacts, now: &Moment) -> (texts_of: PaneTexts)
        requires
            app_wf(self@),
            pane < MAX_PANES,
        ensures
            texts_of.status@ == pane_status(self@, pane as int, *facts, *now),
            texts(texts_of.badges@) == pane_badge_list(self@, pane as int, *facts, *now),
            texts_of.map == (PaneMap {
                geometry: may_name_places(self@),
                tiles: may_name_places(self@),
                projection: may_name_places(self@),
                sites: may_name_places(self@),
                hazards: may_name_places(self@),
            }),
    {
        let frame = self.display.history.current();
        let level_one = self.pulses.is_some();
        let provenance = if level_one {
            facts.provenance
        } else {
            None
        };
        assert(self@.display.board.panes[pane as int] == self.display.board.panes@[pane as int]@);
        assert(self@.workspace.panes[pane as int] == self.workspace.panes@[pane as int]@);
        let status = pane_header_status(
            facts.filter,
            &self.display.board.panes[pane].filter_line,
            provenance,
            &self.live.feed,
            frame,
            self.display.board.panes[pane].status.as_str(),
            now,
        );
        let mut badges = pane_badges(
            level_one,
            &self.live.feed,
            frame,
            facts.filter_badge,
            facts.hail_summary,
            now,
        );
        let ghost list = texts(badges@);
        let map = pane_map(frame_position_is_known(frame));
        match &self.workspace.panes[pane].product {
            PaneProduct::Modeled(_) => PaneTexts { status, badges, map },
            PaneProduct::Source(_) => {
                badges.insert(0, "SOURCE FIELD".to_owned());
                assert(texts(badges@) =~= list.insert(0, "SOURCE FIELD"@));
                PaneTexts {
                    status: source_field_status(facts.palette, status.as_str()),
                    badges,
                    map,
                }
            },
        }
    }

    /// Takes a click on a pane, and says what is left to do.
    pub fn take_pane_click(&mut self, pane: usize, click: PaneClick) -> (action: PaneAction)
        requires
            app_wf(old(self)@),
            pane < MAX_PANES,
        ensures
            app_wf(final(self)@),
            final(self)@ == pane_clicked(old(self)@, pane as int, click),
            match (action, click_route(click)) {
                (PaneAction::SampleVrot, ClickRoute::VrotGate) => true,
                (PaneAction::OpenHistory(station), ClickRoute::Observation) => click.observation
                    == Some(station),
                (PaneAction::StartLive(site, label), ClickRoute::Site) => click.site == Some(site)
                    && label@ == unicode_uppercase(site@),
                (PaneAction::FindNearest, ClickRoute::NearestSite) => true,
                (PaneAction::Nothing, ClickRoute::Nothing) => true,
                (PaneAction::Nothing, ClickRoute::SectionEndpoint) => true,
                (PaneAction::Nothing, ClickRoute::SelectPane) => true,
                _ => false,
            },
    {
        let route = route_click(&click);
        match route {
            ClickRoute::Nothing => {
                return PaneAction::Nothing;
            },
            _ => {},
        }
        self.workspace.set_active(pane);
        match route {
            ClickRoute::VrotGate => PaneAction::SampleVrot,
            ClickRoute::Observation => match click.observation {
                Some(station) => {
                    self.status = history_line(station.as_str());
                    PaneAction::OpenHistory(station)
                },
                None => PaneAction::Nothing,
            },
            ClickRoute::Site => match click.site {
                Some(site) => {
                    let label = uppercase(site.as_str());
                    PaneAction::StartLive(site, label)
                },
                None => PaneAction::Nothing,
            },
            ClickRoute::NearestSite => PaneAction::FindNearest,
            _ => PaneAction::Nothing,
        }
    }

    /// Takes a click for the velocity tool. `has_target` says whether there is
    /// something under the cursor and a sweep to read it from.
    pub fn begin_vrot_sample(&mut self, pane: usize, has_target: bool) -> (click: VrotClick)
        requires
            app_wf(old(self)@),
            pane < MAX_PANES,
        ensures
            app_wf(final(self)@),
            final(self)@ == (AppView {
                workspace: WorkspaceView {
                    active_pane: pane as int,
                    ..old(self)@.workspace
                },
                display: DisplayView {
                    vrot: clicked(old(self)@.display.vrot, pane),
                    ..old(self)@.display
                },
                ..old(self)@
            }),
            click == (if has_target {
                VrotClick::Sample
            } else {
                VrotClick::Nothing
            }),
    {
        self.workspace.set_active(pane);
        self.display.vrot.take_click(pane, has_target)
    }

    /// Takes what was sampled for the velocity tool, and says what comes next.
    pub fn take_vrot_sample(&mut self, has_velocity: bool) -> (next: VrotNext)
        requires
            app_wf(old(self)@),
        ensures
            app_wf(final(self)@),
            next == sampled(old(self)@.display.vrot.state, has_velocity),
            final(self)@ == vrot_sampled(old(self)@, has_velocity),
    {
        let taken = self.display.vrot.take_sample(has_velocity);
        if let Some(line) = taken.1 {
            self.status = line.to_owned();
        }
        taken.0
    }

    /// Takes what measuring the pair came to, and tells the report or why there
    /// is none.
    pub fn take_vrot_measurement(&mut self, measured: Result<String, String>)
        requires
            app_wf(old(self)@),
        ensures
            app_wf(final(self)@),
            final(self)@ == (AppView {
                display: DisplayView {
                    vrot: VrotTool {
                        state: if measured is Ok {
                            VrotState::Complete
                        } else {
                            VrotState::Idle
                        },
                        ..old(self)@.display.vrot
                    },
                    ..old(self)@.display
                },
                status: match measured {
                    Ok(report) => report@,
                    Err(refusal) => "Vrot refused: "@ + refusal@,
                },
                ..old(self)@
            }),
    {
        self.status = self.display.vrot.take_measurement(measured);
    }

    /// Says how the nearest radar was chosen, or that there is none. On a live
    /// session that it started, this comes after what the start says.
    pub fn note_nearest_site(&mut self, line: String)
        requires
            app_wf(old(self)@),
        ensures
            app_wf(final(self)@),
            final(self)@ == (AppView { status: line@, ..old(self)@ }),
    {
        self.status = line;
    }

    /// When the screen is drawn again by itself. `revealing` says whether a
    /// sweep is being revealed.
    pub fn wake_up(&self, revealing: bool, now: &Moment) -> (wake: WakeUp)
        requires
            app_wf(self@),
        ensures
            wake.frame_ms is Some <==> revealing || awaits_picture(self@),
            wake.frame_ms matches Some(ms) ==> ms == crate::display::PANE_WAIT_MS,
            match displayed_age(current_frame(self@.display.history), *now) {
                Some(age) => wake.age_seconds == Some(
                    crate::age::repaint_interval(age) as i64,
                ),
                None => match self@.live.feed {
                    Some(feed) => wake.age_seconds == Some(
                        crate::age::repaint_interval(
                            volume_age(feed.newest_volume_time, *now) as int,
                        ) as i64,
                    ),
                    None => wake.age_seconds is None,
                },
            },
    {
        let mut waiting = false;
        let mut at: usize = 0;
        while at < MAX_PANES
            invariant
                at <= MAX_PANES,
                app_wf(self@),
                waiting == (exists|i: int|
                    0 <= i < at && (#[trigger] self@.display.board.panes[i]).pending_stamp is Some),
            decreases MAX_PANES - at,
        {
            assert(self@.display.board.panes[at as int] == self.display.board.panes@[at as int]@);
            if self.display.board.panes[at].pending_stamp.is_some() {
                waiting = true;
            }
            at = at + 1;
        }
        let frame_age: Option<i64> = displayed_frame_age(self.display.history.current(), now);
        let feed_age: Option<i64> = match &self.live.feed {
            Some(feed) => Some(crate::age::volume_age_at(&feed.newest_volume_time, now)),
            None => None,
        };
        next_wake(revealing || waiting, frame_age, feed_age)
    }
}

/// Whether a pane waits for a picture.
pub open spec fn awaits_picture(app: AppView) -> bool {
    exists|i: int|
        0 <= i < MAX_PANES && (#[trigger] app.display.board.panes[i]).pending_stamp is Some
}

/// What a click on a pane changes: whatever it goes to, the pane it fell on is the
/// active one from then on; only an observation is spoken of; nothing else of the
/// workstation moves, and a click that goes nowhere moves nothing.
pub proof fn law_a_click_selects_its_pane(app: AppView, pane: int, click: PaneClick)
    ensures
        ({
            let after = pane_clicked(app, pane, click);
            let route = click_route(click);
            &&& route is Nothing ==> after == app
            &&& route !is Nothing ==> after.workspace.active_pane == pane
            &&& after.workspace.panes == app.workspace.panes
            &&& after.workspace.layout == app.workspace.layout
            &&& route is Observation ==> after.status == "Loading observation history for "@
                + click.observation->0@
            &&& route !is Observation ==> after.status == app.status
            &&& after.display == app.display
            &&& after.live == app.live
            &&& after.tools == app.tools
            &&& after.playlist == app.playlist
        }),
{
}

/// What a sampled gate changes: without a velocity it is told and the pair is as
/// it was; the first of a pair is kept and the other side asked for; the second
/// says nothing yet, and the pair is measured.
pub proof fn law_what_a_sample_tells(app: AppView, has_velocity: bool)
    ensures
        ({
            let after = vrot_sampled(app, has_velocity);
            let waiting = app.display.vrot.state is AwaitingSecond;
            &&& !has_velocity ==> after.status == "Vrot: that point has no velocity"@
                && after.display.vrot == app.display.vrot
            &&& has_velocity && !waiting ==> after.status
                == "Vrot: click the other side of the couplet"@
                && after.display.vrot.state is AwaitingSecond
            &&& has_velocity && waiting ==> after == app
            &&& after.display.vrot.active == app.display.vrot.active
            &&& after.display.vrot.pane == app.display.vrot.pane
            &&& after.display.history == app.display.history
            &&& after.display.board == app.display.board
            &&& after.workspace == app.workspace
        }),
{
}

/// Places may be named unless the frame on screen has none; what a volume was made
/// with is told only where it has pulses.
pub proof fn law_when_places_and_makers_are_named(app: AppView, facts: PaneFacts)
    ensures
        may_name_places(app) <==> app.display.history.frames.len() == 0
            || app.display.history.frames[app.display.history.selected].located,
        made_with(app, facts) is Some <==> app.pulses is Some && facts.provenance is Some,
        made_with(app, facts) matches Some(words) ==> words == facts.provenance->0@,
{
}

/// A picture is awaited where any pane waits for one.
pub proof fn law_any_pane_may_await_a_picture(app: AppView, pane: int)
    requires
        0 <= pane < MAX_PANES,
    ensures
        app.display.board.panes[pane].pending_stamp is Some ==> awaits_picture(app),
        (forall|i: int|
            0 <= i < MAX_PANES ==> (#[trigger] app.display.board.panes[i]).pending_stamp is None)
            ==> !awaits_picture(app),
{
}

} // verus!
