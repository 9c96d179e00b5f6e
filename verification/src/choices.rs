//! What the analyst chooses: products, tilts, tools and limits, with everything
//! that has to move with a choice.

use crate::app::{ToolState, WorkstationApp};
use crate::follow::{follow_allowed, FollowCandidate};
use crate::frame::VolumeFrame;
use crate::history::{live_history_policy, HistoryPolicy};
use crate::moment::Moment;
use crate::panes::MAX_PANES;
use crate::sites::{time_series_site, LocatedSite, PlaceStep, SiteDirectory, Warnings};
use crate::text::append_decimal;
use crate::vrot::{StaleReason, VrotState};
use crate::workspace::{PaneLayout, PaneProduct, TiltSelection};
use vstd::prelude::*;

verus! {

use crate::app::{app_wf, AppView, PlaylistView};
use crate::clock::next_generation;
use crate::display::DisplayView;
use crate::follow::{
    followed, followed_panes, forgotten, held, may_follow, offers_nothing_newer, panes_forgotten,
    tilts_followed,
};
use crate::history::{
    current_frame, eviction_count, installed, live_policy, trimmed_to_policy, HistoryView,
};
use crate::install::{fallback_applied, lemma_views_keep_textures, located_frame};
use crate::panes::{
    frame_changed, palette_changed, panes_wf, semantics_invalidated, text_view, views_invalidated,
};
use crate::sequence::{plus, SequenceView};
use crate::sites::{
    directory, hazards_refreshed, hazards_step, placing_forgotten, placing_text, pulse_site,
    site_view, DirectoryView, WarningsView,
};
use crate::text::decimal;
use crate::vrot::{panes_changed, VrotTool};
use crate::workspace::{
    camera_links_set, product_applied, product_takers, tilt_applied, tilt_takers, visible_of,
    IntentView, ProductView, WorkspaceView,
};

/// Every pane.
pub open spec fn every_pane() -> Seq<usize> {
    seq![0usize, 1usize, 2usize, 3usize]
}

/// Every pane.
fn all_panes() -> (panes: Vec<usize>)
    ensures
        panes@ == every_pane(),
        panes_wf(panes@),
{
    let panes: Vec<usize> = vec![0usize, 1usize, 2usize, 3usize];
    assert(panes@ =~= every_pane());
    panes
}

// ---------------------------------------------------------------------------
// Products
// ---------------------------------------------------------------------------

/// The marks of panes whose product stands in for another, without the listed
/// panes.
pub open spec fn marks_cleared(marks: Seq<bool>, listed: Seq<usize>) -> Seq<bool> {
    Seq::new(marks.len(), |i: int| marks[i] && !listed.contains(i as usize))
}

/// Clearing one pane more clears its mark.
proof fn lemma_mark_cleared(marks: Seq<bool>, listed: Seq<usize>, pane: usize)
    requires
        pane < marks.len() <= usize::MAX,
    ensures
        marks_cleared(marks, listed.push(pane)) == marks_cleared(marks, listed).update(
            pane as int,
            false,
        ),
{
    let more = listed.push(pane);
    let left = marks_cleared(marks, more);
    let right = marks_cleared(marks, listed).update(pane as int, false);
    assert forall|i: int| 0 <= i < marks.len() implies #[trigger] left[i] == right[i] by {
        if i == pane {
            assert(more[listed.len() as int] == i as usize);
        } else if listed.contains(i as usize) {
            let k = choose|k: int| 0 <= k < listed.len() && listed[k] == i as usize;
            assert(more[k] == i as usize);
        } else if more.contains(i as usize) {
            let k = choose|k: int| 0 <= k < more.len() && more[k] == i as usize;
            if k < listed.len() {
                assert(listed[k] == i as usize);
            }
        }
    }
    assert(left =~= right);
}

/// The workstation after a pane was given a product. A modeled product also
/// starts the pane's following over.
pub open spec fn product_chosen(app: AppView, pane: int, product: ProductView) -> AppView {
    let changed = product_takers(app.workspace, pane, product);
    AppView {
        workspace: product_applied(app.workspace, pane, product),
        fallback: marks_cleared(app.fallback, changed),
        follow: if product is Modeled {
            panes_forgotten(app.follow, changed)
        } else {
            app.follow
        },
        display: DisplayView {
            board: semantics_invalidated(app.display.board, changed),
            vrot: panes_changed(app.display.vrot, changed, StaleReason::DifferentProduct),
            ..app.display
        },
        ..app
    }
}

/// A product that is chosen is no stand-in: the pane draws it, and whatever
/// arrives later keeps it, unless it is reflectivity that cannot be had.
pub proof fn law_an_explicit_choice_cancels_the_fallback(
    app: AppView,
    pane: int,
    product: ProductView,
    relative: bool,
)
    requires
        app_wf(app),
        0 <= pane < MAX_PANES,
        app.workspace.panes[pane].product != product,
    ensures
        product_chosen(app, pane, product).workspace.panes[pane].product == product,
        !product_chosen(app, pane, product).fallback[pane],
        !relative || product != ProductView::Modeled(crate::workspace::REFLECTIVITY)
            ==> fallback_applied(
            product_chosen(app, pane, product),
            relative,
        ).workspace.panes[pane].product == product,
{
    crate::workspace::law_a_pane_takes_what_it_is_given(
        app.workspace,
        pane,
        product,
        TiltSelection::LowestAvailable,
    );
}

/// A choice of product keeps the picture until the new one is drawn, and
/// retires a measurement made on the pane.
pub proof fn law_a_product_change_holds_the_picture(
    app: AppView,
    pane: int,
    product: ProductView,
)
    requires
        app_wf(app),
        0 <= pane < MAX_PANES,
        app.workspace.panes[pane].product != product,
    ensures
        product_chosen(app, pane, product).display.board.panes[pane].texture
            == app.display.board.panes[pane].texture,
        app.display.vrot.on_pane && app.display.vrot.pane == pane ==> product_chosen(
            app,
            pane,
            product,
        ).display.vrot.state !is Complete,
{
    let changed = product_takers(app.workspace, pane, product);
    crate::workspace::law_a_pane_takes_what_it_is_given(
        app.workspace,
        pane,
        product,
        TiltSelection::LowestAvailable,
    );
    crate::workspace::lemma_panes_where(
        MAX_PANES as nat,
        |p: int| crate::workspace::takes_product(app.workspace, pane, p, product),
    );
    let at = choose|at: int| 0 <= at < changed.len() && changed[at] == pane as usize;
    crate::panes::law_an_invalidated_pane_asks_again(app.display.board, changed, at);
}

/// The workstation with every pane on a product that was stated at the start.
pub open spec fn opened_on(app: AppView, product: u16) -> AppView {
    AppView {
        workspace: WorkspaceView {
            panes: Seq::new(
                app.workspace.panes.len(),
                |i: int|
                    IntentView {
                        product: ProductView::Modeled(product),
                        ..app.workspace.panes[i]
                    },
            ),
            ..app.workspace
        },
        display: DisplayView {
            board: semantics_invalidated(app.display.board, every_pane()),
            ..app.display
        },
        ..app
    }
}

impl WorkstationApp {
    /// Gives a pane a product, with everything that has to move with it.
    fn choose_product(&mut self, pane: usize, product: &PaneProduct)
        requires
            app_wf(old(self)@),
            pane < MAX_PANES,
        ensures
            final(self)@ == product_chosen(old(self)@, pane as int, product@),
            app_wf(final(self)@),
    {
        let ghost before = self@;
        let changed = self.workspace.apply_product_from(pane, product);
        self.display.vrot.note_panes_changed(&changed, StaleReason::DifferentProduct);
        let mut at: usize = 0;
        while at < changed.len()
            invariant
                at <= changed@.len(),
                panes_wf(changed@),
                before.fallback.len() == MAX_PANES,
                self@ == (AppView {
                    workspace: self@.workspace,
                    display: self@.display,
                    fallback: self@.fallback,
                    ..before
                }),
                self@.workspace == product_applied(before.workspace, pane as int, product@),
                self@.display == (DisplayView {
                    vrot: panes_changed(
                        before.display.vrot,
                        changed@,
                        StaleReason::DifferentProduct,
                    ),
                    ..before.display
                }),
                self@.fallback =~= marks_cleared(before.fallback, changed@.take(at as int)),
            decreases changed@.len() - at,
        {
            let index: usize = changed[at];
            let ghost here = changed@.take(at as int);
            self.fallback_from_ref.set(index, false);
            proof {
                assert(changed@.take(at + 1) =~= here.push(index));
                lemma_mark_cleared(before.fallback, here, index);
            }
            at = at + 1;
        }
        assert(changed@.take(changed@.len() as int) =~= changed@);
        if let PaneProduct::Modeled(_) = product {
            self.follow.forget(&changed);
        }
        self.display.board.invalidate_semantic_panes(&changed);
    }

    /// Gives a pane a modeled product.
    pub fn apply_product_selection(&mut self, pane: usize, product: u16)
        requires
            app_wf(old(self)@),
            pane < MAX_PANES,
        ensures
            final(self)@ == product_chosen(
                old(self)@,
                pane as int,
                ProductView::Modeled(product),
            ),
            app_wf(final(self)@),
    {
        self.choose_product(pane, &PaneProduct::Modeled(product));
    }

    /// Gives a pane a field under its producer's own name.
    pub fn apply_source_field_selection(&mut self, pane: usize, producer_name: &str)
        requires
            app_wf(old(self)@),
            pane < MAX_PANES,
        ensures
            final(self)@ == product_chosen(
                old(self)@,
                pane as int,
                ProductView::Source(producer_name@),
            ),
            app_wf(final(self)@),
    {
        let product = PaneProduct::Source(producer_name.to_owned());
        assert(product@ == ProductView::Source(producer_name@));
        self.choose_product(pane, &product);
    }

    /// Opens every pane on a product stated at the start, where one was.
    pub fn set_initial_product(&mut self, product: Option<u16>)
        requires
            app_wf(old(self)@),
        ensures
            final(self)@ == (match product {
                Some(code) => opened_on(old(self)@, code),
                None => old(self)@,
            }),
            app_wf(final(self)@),
    {
        match product {
            None => {},
            Some(code) => {
                let ghost before = self@;
                let mut at: usize = 0;
                while at < MAX_PANES
                    invariant
                        at <= MAX_PANES,
                        before == old(self)@,
                        app_wf(before),
                        self@ == (AppView { workspace: self@.workspace, ..before }),
                        self@.workspace == (WorkspaceView {
                            panes: self@.workspace.panes,
                            ..before.workspace
                        }),
                        self@.workspace.panes.len() == MAX_PANES,
                        forall|i: int|
                            0 <= i < at ==> #[trigger] self@.workspace.panes[i] == opened_on(
                                before,
                                code,
                            ).workspace.panes[i],
                        forall|i: int|
                            at <= i < MAX_PANES ==> #[trigger] self@.workspace.panes[i]
                                == before.workspace.panes[i],
                    decreases MAX_PANES - at,
                {
                    let ghost here = self@;
                    let mut intent = self.workspace.panes.remove(at);
                    assert(intent@ == here.workspace.panes[at as int]);
                    intent.product = PaneProduct::Modeled(code);
                    self.workspace.panes.insert(at, intent);
                    assert(self@.workspace.panes =~= here.workspace.panes.update(
                        at as int,
                        intent@,
                    ));
                    at = at + 1;
                }
                assert(self@.workspace.panes =~= opened_on(before, code).workspace.panes);
                let panes = all_panes();
                self.display.board.invalidate_semantic_panes(&panes);
            },
        }
    }

    /// Takes note of cameras stated at the start: every pane is drawn anew where
    /// a scale or a centre was stated.
    pub fn set_initial_camera(&mut self, zoom_stated: bool, center_stated: bool)
        requires
            app_wf(old(self)@),
        ensures
            final(self)@ == (if zoom_stated || center_stated {
                AppView {
                    display: DisplayView {
                        board: views_invalidated(old(self)@.display.board, every_pane()),
                        ..old(self)@.display
                    },
                    ..old(self)@
                }
            } else {
                old(self)@
            }),
            app_wf(final(self)@),
    {
        if zoom_stated || center_stated {
            let panes = all_panes();
            self.display.board.invalidate_view_panes(&panes);
        }
    }
}

// ---------------------------------------------------------------------------
// Tilts
// ---------------------------------------------------------------------------

/// The time of the volume on screen.
pub open spec fn screen_time(history: HistoryView) -> Option<crate::moment::Moment> {
    match current_frame(history) {
        Some(frame) => Some(frame.identity.volume_time),
        None => None,
    }
}

/// The workstation after the active pane was stepped to a sweep. The choice
/// holds the follower off on a live session, and a measurement made on a
/// modeled product of the pane is retired.
pub open spec fn tilt_stepped(
    app: AppView,
    cut_index: usize,
    following: bool,
    candidates: Seq<Option<FollowCandidate>>,
) -> AppView {
    let active = app.workspace.active_pane;
    let tilt = TiltSelection::CutIndex(cut_index as u16);
    let changed = tilt_takers(app.workspace, active, tilt);
    AppView {
        workspace: tilt_applied(app.workspace, active, tilt),
        follow: if app.live.site is Some && following {
            held(app.follow, changed, candidates, screen_time(app.display.history))
        } else {
            app.follow
        },
        display: DisplayView {
            board: semantics_invalidated(app.display.board, changed),
            vrot: if app.workspace.panes[active].product is Modeled {
                panes_changed(app.display.vrot, changed, StaleReason::DifferentCut)
            } else {
                app.display.vrot
            },
            ..app.display
        },
        ..app
    }
}

/// The workstation after the follower had its turn.
pub open spec fn low_tilts_followed(
    app: AppView,
    following: bool,
    candidates: Seq<Option<FollowCandidate>>,
) -> AppView {
    if !may_follow(
        app.live.site is Some,
        app.display.history.follows_live,
        app.display.history.playback,
        following,
    ) {
        app
    } else {
        let visible = visible_of(app.workspace.layout);
        let changed = followed_panes(app.workspace, visible, app.follow, candidates);
        AppView {
            workspace: tilts_followed(app.workspace, visible, app.follow, candidates),
            follow: followed(visible, app.follow, candidates),
            display: DisplayView {
                board: semantics_invalidated(app.display.board, changed),
                vrot: panes_changed(app.display.vrot, changed, StaleReason::DifferentCut),
                ..app.display
            },
            ..app
        }
    }
}

/// A tilt chosen by hand on a live session is the analyst's until a newer sweep
/// arrives: a turn of the follower that is offered nothing newer than what there
/// was leaves it alone.
pub proof fn law_a_manual_tilt_is_not_taken_back(
    app: AppView,
    cut_index: usize,
    candidates: Seq<Option<FollowCandidate>>,
    offered: Seq<Option<FollowCandidate>>,
)
    requires
        app_wf(app),
        candidates.len() == MAX_PANES,
        offers_nothing_newer(
            offered[app.workspace.active_pane],
            candidates[app.workspace.active_pane],
        ),
        app.live.site is Some,
        app.workspace.panes[app.workspace.active_pane].tilt != TiltSelection::CutIndex(
            cut_index as u16,
        ),
    ensures
        ({
            let chosen = tilt_stepped(app, cut_index, true, candidates);
            let active = app.workspace.active_pane;
            low_tilts_followed(chosen, true, offered).workspace.panes[active].tilt
                == TiltSelection::CutIndex(cut_index as u16)
        }),
{
    let active = app.workspace.active_pane;
    let tilt = TiltSelection::CutIndex(cut_index as u16);
    let changed = tilt_takers(app.workspace, active, tilt);
    crate::workspace::law_a_pane_takes_what_it_is_given(
        app.workspace,
        active,
        app.workspace.panes[active].product,
        tilt,
    );
    let chosen = tilt_stepped(app, cut_index, true, candidates);
    crate::follow::law_a_hold_keeps_the_choice(
        app.follow,
        changed,
        candidates,
        offered,
        screen_time(app.display.history),
        visible_of(chosen.workspace.layout),
        active,
    );
}

impl WorkstationApp {
    /// Steps the active pane to a sweep, where there is a volume and one to step
    /// to. `following` says whether the follower is on; `candidates` are the
    /// newest usable sweeps of each pane.
    pub fn change_active_tilt(
        &mut self,
        next: Option<usize>,
        following: bool,
        candidates: &Vec<Option<FollowCandidate>>,
    )
        requires
            app_wf(old(self)@),
            candidates@.len() == MAX_PANES,
        ensures
            final(self)@ == (match next {
                Some(cut_index) => if old(self)@.display.history.frames.len() > 0 {
                    tilt_stepped(old(self)@, cut_index, following, candidates@)
                } else {
                    old(self)@
                },
                None => old(self)@,
            }),
            app_wf(final(self)@),
    {
        if self.display.history.is_empty() {
            return;
        }
        let cut_index: usize = match next {
            Some(index) => index,
            None => {
                return;
            },
        };
        let active: usize = self.workspace.active_pane;
        assert(self@.workspace.panes[active as int] == self.workspace.panes@[active as int]@);
        let modeled = match &self.workspace.panes[active].product {
            PaneProduct::Modeled(_) => true,
            PaneProduct::Source(_) => false,
        };
        let changed = self.workspace.apply_tilt_from(
            active,
            TiltSelection::CutIndex(
                #[verifier::truncate]
                (cut_index as u16),
            ),
        );
        if self.live.site.is_some() && following {
            let volume_time = match self.display.history.current() {
                Some(frame) => Some(frame.identity.volume_time),
                None => None,
            };
            self.follow.hold(&changed, candidates, volume_time);
        }
        if modeled {
            self.display.vrot.note_panes_changed(&changed, StaleReason::DifferentCut);
        }
        self.display.board.invalidate_semantic_panes(&changed);
    }

    /// Gives the follower its turn.
    pub fn follow_live_low_tilts(
        &mut self,
        following: bool,
        candidates: &Vec<Option<FollowCandidate>>,
    )
        requires
            app_wf(old(self)@),
            candidates@.len() == MAX_PANES,
        ensures
            final(self)@ == low_tilts_followed(old(self)@, following, candidates@),
            app_wf(final(self)@),
    {
        if !follow_allowed(
            self.live.site.is_some(),
            self.display.history.follows_live(),
            self.display.history.playback(),
            following,
        ) {
            return;
        }
        let visible = self.workspace.visible_panes();
        let changed = self.follow.follow(&mut self.workspace, &visible, candidates);
        self.display.vrot.note_panes_changed(&changed, StaleReason::DifferentCut);
        self.display.board.invalidate_semantic_panes(&changed);
    }

    /// Reconsiders the sweep on screen after the following itself was changed.
    pub fn restart_live_follow(
        &mut self,
        following: bool,
        candidates: &Vec<Option<FollowCandidate>>,
    )
        requires
            app_wf(old(self)@),
            candidates@.len() == MAX_PANES,
        ensures
            final(self)@ == low_tilts_followed(
                AppView { follow: forgotten(), ..old(self)@ },
                following,
                candidates@,
            ),
            app_wf(final(self)@),
    {
        self.follow.reset_live_follow_state();
        self.follow_live_low_tilts(following, candidates);
    }
}

// ---------------------------------------------------------------------------
// Tools
// ---------------------------------------------------------------------------

/// The velocity tool with nothing measured.
pub open spec fn vrot_cleared(tool: VrotTool) -> VrotTool {
    VrotTool { state: VrotState::Idle, on_pane: false, ..tool }
}

/// A click on the warnings' switch is answered in the frame it falls in: shown,
/// they are placed on any map whose ground is known; hidden, what is on the map
/// goes.
pub proof fn law_the_map_answers_the_switch(
    warnings: WarningsView,
    projection: u64,
    now_ms: u64,
)
    ensures
        hazards_step(placing_forgotten(warnings), true, Some(projection), now_ms) is Place,
        warnings.placed > 0 ==> hazards_step(
            placing_forgotten(warnings),
            false,
            Some(projection),
            now_ms,
        ) is Drop,
        hazards_refreshed(
            placing_forgotten(warnings),
            false,
            Some(projection),
            now_ms,
        ).placed == 0,
{
}

impl WorkstationApp {
    /// Switches the velocity tool. Switched on, it takes the clicks from the
    /// cross-section; switched off, it forgets what it measured.
    pub fn toggle_vrot(&mut self)
        requires
            app_wf(old(self)@),
        ensures
            app_wf(final(self)@),
            final(self)@ == (if old(self)@.display.vrot.active {
                AppView {
                    display: DisplayView {
                        vrot: VrotTool {
                            active: false,
                            ..vrot_cleared(old(self)@.display.vrot)
                        },
                        ..old(self)@.display
                    },
                    ..old(self)@
                }
            } else {
                AppView {
                    display: DisplayView {
                        vrot: VrotTool { active: true, ..old(self)@.display.vrot },
                        ..old(self)@.display
                    },
                    tools: ToolState { section_armed: false, ..old(self)@.tools },
                    ..old(self)@
                }
            }),
    {
        self.display.vrot.active = !self.display.vrot.active;
        if self.display.vrot.active {
            self.tools.section_armed = false;
        } else {
            self.display.vrot.state = VrotState::Idle;
            self.display.vrot.on_pane = false;
        }
    }

    /// Forgets what the velocity tool measured.
    pub fn clear_vrot(&mut self)
        requires
            app_wf(old(self)@),
        ensures
            app_wf(final(self)@),
            final(self)@ == (AppView {
                display: DisplayView {
                    vrot: vrot_cleared(old(self)@.display.vrot),
                    ..old(self)@.display
                },
                ..old(self)@
            }),
    {
        self.display.vrot.state = VrotState::Idle;
        self.display.vrot.on_pane = false;
    }

    /// Takes note of the cross-section being armed or not. Armed, it takes the
    /// clicks from the velocity tool.
    pub fn note_section_armed(&mut self, armed: bool)
        requires
            app_wf(old(self)@),
        ensures
            app_wf(final(self)@),
            final(self)@ == (AppView {
                tools: ToolState { section_armed: armed, ..old(self)@.tools },
                display: if armed {
                    DisplayView {
                        vrot: VrotTool {
                            active: false,
                            ..vrot_cleared(old(self)@.display.vrot)
                        },
                        ..old(self)@.display
                    }
                } else {
                    old(self)@.display
                },
                ..old(self)@
            }),
    {
        self.tools.section_armed = armed;
        if armed {
            self.display.vrot.active = false;
            self.display.vrot.state = VrotState::Idle;
            self.display.vrot.on_pane = false;
        }
    }

    /// Shows the warnings, or hides them, and has the map answer in the same
    /// frame. Gives whether they are shown now, in which case they are asked for
    /// anew, and what to do about those on the map of this projection, as
    /// [`Warnings::refresh_placed_hazards`] does.
    pub fn toggle_warnings(
        &mut self,
        warnings: &mut Warnings,
        projection: Option<u64>,
        now_ms: u64,
        now: &Moment,
    ) -> (told: (bool, PlaceStep, Option<String>))
        requires
            app_wf(old(self)@),
        ensures
            app_wf(final(self)@),
            told.0 == !old(self)@.tools.show_warnings,
            final(self)@ == (AppView {
                tools: ToolState { show_warnings: told.0, ..old(self)@.tools },
                ..old(self)@
            }),
            told.1 == hazards_step(
                placing_forgotten(old(warnings)@),
                told.0,
                projection,
                now_ms,
            ),
            text_view(told.2) == placing_text(told.1, *now),
            final(warnings)@ == hazards_refreshed(
                placing_forgotten(old(warnings)@),
                told.0,
                projection,
                now_ms,
            ),
    {
        self.tools.show_warnings = !self.tools.show_warnings;
        let shown = self.tools.show_warnings;
        warnings.forget_placing();
        let (step, text) = warnings.refresh_placed_hazards(shown, projection, now_ms, now);
        (shown, step, text)
    }

    /// Shares the window out anew. A pane that is no longer shown stops being
    /// the active one.
    pub fn set_layout(&mut self, layout: PaneLayout)
        requires
            app_wf(old(self)@),
        ensures
            app_wf(final(self)@),
            final(self)@ == (AppView {
                workspace: WorkspaceView {
                    layout,
                    active_pane: if old(self)@.workspace.active_pane < visible_of(layout).len() {
                        old(self)@.workspace.active_pane
                    } else {
                        0
                    },
                    ..old(self)@.workspace
                },
                ..old(self)@
            }),
    {
        let count: usize = crate::workspace::visible_panes(layout).len();
        self.workspace.layout = layout;
        if self.workspace.active_pane >= count {
            self.workspace.active_pane = 0;
        }
    }

    /// Links the visible cameras, or unlinks them.
    pub fn set_camera_links(&mut self, linked: bool)
        requires
            app_wf(old(self)@),
        ensures
            app_wf(final(self)@),
            final(self)@ == (AppView {
                workspace: camera_links_set(old(self)@.workspace, linked),
                ..old(self)@
            }),
    {
        self.workspace.set_camera_links(linked);
    }

    /// Makes a pane the active one.
    pub fn set_active(&mut self, pane: usize)
        requires
            app_wf(old(self)@),
            pane < MAX_PANES,
        ensures
            app_wf(final(self)@),
            final(self)@ == (AppView {
                workspace: WorkspaceView {
                    active_pane: pane as int,
                    ..old(self)@.workspace
                },
                ..old(self)@
            }),
    {
        self.workspace.set_active(pane);
    }
}

// ---------------------------------------------------------------------------
// Pictures and limits
// ---------------------------------------------------------------------------

/// The workstation with every pane on screen asked for another view.
pub open spec fn redrawn(app: AppView) -> AppView {
    AppView {
        display: DisplayView {
            board: views_invalidated(app.display.board, visible_of(app.workspace.layout)),
            ..app.display
        },
        ..app
    }
}

/// The workstation after its colours changed.
pub open spec fn recoloured(app: AppView) -> AppView {
    AppView {
        display: DisplayView {
            board: palette_changed(app.display.board, visible_of(app.workspace.layout)),
            ..app.display
        },
        ..app
    }
}

/// What a limit that removed frames says.
pub open spec fn limit_text(evicted: nat, retained: nat) -> Seq<char> {
    "History limit applied \u{b7} "@ + decimal(evicted) + " frame(s) evicted \u{b7} "@ + decimal(
        retained,
    ) + " retained"@
}

/// The workstation after the configured limits changed. Every eviction is told.
pub open spec fn limits_applied(app: AppView, configured: HistoryPolicy) -> AppView {
    let policy = if app.live.site is Some {
        live_policy(configured)
    } else {
        configured
    };
    let evicted = eviction_count(app.display.history.frames, policy);
    let history = trimmed_to_policy(HistoryView { policy, ..app.display.history });
    let kept = AppView { display: DisplayView { history, ..app.display }, ..app };
    if evicted == 0 {
        kept
    } else {
        AppView {
            playlist: PlaylistView {
                sequence: match app.playlist.sequence {
                    Some(sequence) => Some(
                        SequenceView {
                            evicted_frames: plus(
                                sequence.evicted_frames as int,
                                evicted as int,
                            ) as usize,
                            ..sequence
                        },
                    ),
                    None => None,
                },
                ..app.playlist
            },
            status: limit_text(evicted, history.frames.len()),
            ..kept
        }
    }
}

/// A live session stays bounded whatever limit is set while it runs.
pub proof fn law_a_live_session_stays_bounded(app: AppView, configured: HistoryPolicy)
    requires
        app.live.site is Some,
    ensures
        limits_applied(app, configured).display.history.policy.max_frames > 0,
        limits_applied(app, configured).display.history.policy.max_estimated_bytes > 0,
{
    crate::history::law_a_live_session_is_bounded(configured);
}

/// What became of estimating an open record of pulses anew.
pub enum Reestimate {
    /// The controls are those it was estimated with.
    Unchanged,
    Refused(String),
    /// The field under the new controls, and what it was made with.
    Done { frame: VolumeFrame, provenance: String },
}

/// The workstation after an open record of pulses was estimated anew. A refusal
/// leaves the field on screen.
pub open spec fn reestimated(app: AppView, outcome: Reestimate) -> AppView {
    if app.pulses is None {
        app
    } else {
        match outcome {
            Reestimate::Unchanged => app,
            Reestimate::Refused(error) => AppView { status: "Level 1: "@ + error@, ..app },
            Reestimate::Done { frame, provenance } => AppView {
                status: "Level 1: "@ + provenance@,
                display: DisplayView {
                    history: installed(app.display.history, frame@, false),
                    board: frame_changed(app.display.board),
                    ..app.display
                },
                ..app
            },
        }
    }
}

/// Whether the frame on screen waits for its radar to be found.
pub open spec fn awaits_place(app: AppView) -> bool {
    app.pulses is Some && (current_frame(app.display.history) matches Some(frame)
        && !frame.located)
}

/// The workstation after the ground moved under the frame on screen. The panes
/// `moved` have cameras that left the overview.
pub open spec fn ground_moved(app: AppView, moved: Seq<usize>) -> AppView {
    AppView {
        display: DisplayView {
            board: frame_changed(views_invalidated(app.display.board, moved)),
            ..app.display
        },
        ..app
    }
}

/// A place that is found late is drawn: the frame's clock moves, so that every
/// pane is asked again, and no picture is taken off the screen meanwhile.
pub proof fn law_a_late_place_is_drawn(app: AppView, moved: Seq<usize>, pane: int)
    requires
        app_wf(app),
        panes_wf(moved),
        0 <= pane < MAX_PANES,
    ensures
        ground_moved(app, moved).display.board.frame == next_generation(app.display.board.frame),
        ground_moved(app, moved).display.board.panes[pane].texture
            == app.display.board.panes[pane].texture,
        ground_moved(app, moved).display.history == app.display.history,
        ground_moved(app, moved).workspace == app.workspace,
{
    lemma_views_keep_textures(app.display.board, moved, pane);
}

impl WorkstationApp {
    /// Asks every pane on screen for another view of the same data.
    pub fn invalidate_visible(&mut self)
        requires
            app_wf(old(self)@),
        ensures
            final(self)@ == redrawn(old(self)@),
            app_wf(final(self)@),
    {
        let visible = self.workspace.visible_panes();
        self.display.board.invalidate_view_panes(&visible);
    }

    /// Takes note that the colours changed.
    pub fn note_palette_change(&mut self)
        requires
            app_wf(old(self)@),
        ensures
            final(self)@ == recoloured(old(self)@),
            app_wf(final(self)@),
    {
        let visible = self.workspace.visible_panes();
        self.display.board.note_palette_change(&visible);
    }

    /// Says so when no gate is hidden any more.
    pub fn note_filter_cleared(&mut self, filter_active: bool)
        requires
            app_wf(old(self)@),
        ensures
            app_wf(final(self)@),
            final(self)@ == (if filter_active {
                old(self)@
            } else {
                AppView {
                    status: "Gate filter cleared - every gate is being drawn"@,
                    ..old(self)@
                }
            }),
    {
        if !filter_active {
            self.status = "Gate filter cleared - every gate is being drawn".to_owned();
        }
    }

    /// Applies the limits that are configured to the timeline as it is.
    pub fn apply_history_limits(&mut self, configured: HistoryPolicy)
        requires
            app_wf(old(self)@),
        ensures
            final(self)@ == limits_applied(old(self)@, configured),
            app_wf(final(self)@),
    {
        let policy = if self.live.site.is_some() {
            live_history_policy(configured)
        } else {
            configured
        };
        let evicted: usize = self.display.history.set_policy(policy);
        if evicted > 0 {
            match self.playlist.sequence.take() {
                None => {},
                Some(mut sequence) => {
                    sequence.note_evictions(evicted);
                    self.playlist.sequence = Some(sequence);
                },
            }
            let mut status = "History limit applied \u{b7} ".to_owned();
            append_decimal(&mut status, evicted as u64);
            status.append(" frame(s) evicted \u{b7} ");
            append_decimal(&mut status, self.display.history.len() as u64);
            status.append(" retained");
            self.status = status;
        }
    }

    /// Takes what estimating the open record of pulses anew came to.
    pub fn apply_timeseries_settings(&mut self, outcome: Reestimate)
        requires
            app_wf(old(self)@),
        ensures
            final(self)@ == reestimated(old(self)@, outcome),
            app_wf(final(self)@),
    {
        if self.pulses.is_none() {
            return;
        }
        match outcome {
            Reestimate::Unchanged => {},
            Reestimate::Refused(error) => {
                let mut status = "Level 1: ".to_owned();
                status.append(error.as_str());
                self.status = status;
            },
            Reestimate::Done { frame, provenance } => {
                let _ = self.display.history.install(frame);
                self.display.board.note_frame_change();
                let mut status = "Level 1: ".to_owned();
                status.append(provenance.as_str());
                self.status = status;
            },
        }
    }

    /// Gives the frame on screen the place its radar was found at, where it
    /// waits for one; a frame that states its own is left alone.
    pub fn locate_time_series_frame(
        &mut self,
        sites: &Vec<LocatedSite>,
        research: Option<LocatedSite>,
    ) -> (found: Option<LocatedSite>)
        requires
            app_wf(old(self)@),
        ensures
            app_wf(final(self)@),
            site_view(found) == (if awaits_place(old(self)@) {
                pulse_site(
                    directory(sites@),
                    old(self)@.pulses->0.site_id,
                    site_view(research),
                )
            } else {
                None
            }),
            final(self)@ == (if found is Some {
                AppView {
                    display: DisplayView {
                        history: installed(
                            old(self)@.display.history,
                            located_frame(current_frame(old(self)@.display.history)->0),
                            false,
                        ),
                        ..old(self)@.display
                    },
                    ..old(self)@
                }
            } else {
                old(self)@
            }),
    {
        let site = match &self.pulses {
            None => {
                return None;
            },
            Some(session) => session.site_id.clone(),
        };
        let mut frame = match self.display.history.current() {
            None => {
                return None;
            },
            Some(frame) => frame.copy(),
        };
        if frame.located {
            return None;
        }
        let found = time_series_site(sites, site.as_str(), research);
        if found.is_some() {
            frame.located = true;
            let _ = self.display.history.install(frame);
        }
        found
    }

    /// Takes note that the ground moved under a frame whose radar was found.
    /// `moved` lists the panes whose cameras left the overview. The markers of
    /// `known` are placed anew.
    pub fn note_frame_located(&mut self, moved: &Vec<usize>, known: &mut SiteDirectory)
        requires
            app_wf(old(self)@),
            panes_wf(moved@),
        ensures
            app_wf(final(self)@),
            final(self)@ == ground_moved(old(self)@, moved@),
            final(known)@ == (DirectoryView { placed_for: None, ..old(known)@ }),
    {
        known.forget_placing();
        self.display.board.invalidate_view_panes(moved);
        self.display.board.note_frame_change();
    }
}

// ---------------------------------------------------------------------------
// Laws of choices
// ---------------------------------------------------------------------------

/// What choosing a product does to each pane. The chosen one and its group draw
/// it; a pane whose product changes by that is asked for other data, no longer
/// stands in for reflectivity, and where the product is modeled is followed
/// afresh; a measurement on it is retired. Every other pane is left alone, and so
/// is the timeline.
pub proof fn law_what_choosing_a_product_does(
    app: AppView,
    pane: int,
    product: ProductView,
    other: int,
)
    requires
        app_wf(app),
        0 <= pane < MAX_PANES,
        0 <= other < MAX_PANES,
    ensures
        ({
            let after = product_chosen(app, pane, product);
            let before = app.workspace.panes[other];
            let grouped = other == pane || (before.product_link is Some && before.product_link
                == app.workspace.panes[pane].product_link);
            let changes = grouped && before.product != product;
            &&& after.workspace.panes[other].product == (if grouped {
                product
            } else {
                before.product
            })
            &&& after.workspace.panes[other].tilt == before.tilt
            &&& after.fallback[other] == (app.fallback[other] && !changes)
            &&& changes && product is Modeled ==> after.follow.last_scan[other] is None
                && after.follow.manual_hold[other] is None
            &&& !changes || product is Source ==> after.follow.last_scan[other]
                == app.follow.last_scan[other] && after.follow.manual_hold[other]
                == app.follow.manual_hold[other]
            &&& changes ==> after.display.board.panes[other] == crate::panes::pane_changed(
                app.display.board.panes[other],
                crate::panes::PaneChange::Semantic,
            )
            &&& !changes ==> after.display.board.panes[other] == app.display.board.panes[other]
            &&& app.display.vrot.on_pane && app.display.vrot.pane == other && changes
                && app.display.vrot.state is Complete ==> after.display.vrot.state
                == VrotState::Stale(StaleReason::DifferentProduct)
            &&& app.display.vrot.on_pane && app.display.vrot.pane == other && !changes
                ==> after.display.vrot == app.display.vrot
            &&& !app.display.vrot.on_pane ==> after.display.vrot == app.display.vrot
            &&& after.display.history == app.display.history
            &&& after.display.board.session == app.display.board.session
            &&& after.display.board.frame == app.display.board.frame
            &&& after.display.board.palette == app.display.board.palette
            &&& after.live == app.live
            &&& after.playlist == app.playlist
            &&& after.exporter == app.exporter
            &&& after.tools == app.tools
            &&& after.pulses == app.pulses
        }),
{
    let changed = product_takers(app.workspace, pane, product);
    crate::workspace::law_a_product_reaches_its_group(app.workspace, pane, product, other);
    let chosen = |one: int| crate::workspace::takes_product(app.workspace, pane, one, product);
    crate::workspace::lemma_panes_where(MAX_PANES as nat, chosen);
    assert(panes_wf(changed));
    crate::panes::law_only_the_listed_panes_change(
        app.display.board,
        changed,
        other as usize,
    );
}

/// What stepping the tilt does to each pane. The active one and its group look at
/// the sweep stepped to; a pane whose tilt changes by that is asked for other data,
/// and while a live session is followed it is held at the newest sweep it was
/// offered, or at the volume on screen; a measurement of a modeled product on it
/// is retired.
pub proof fn law_what_stepping_the_tilt_does(
    app: AppView,
    cut_index: usize,
    following: bool,
    candidates: Seq<Option<FollowCandidate>>,
    other: int,
)
    requires
        app_wf(app),
        candidates.len() == MAX_PANES,
        0 <= other < MAX_PANES,
        cut_index <= u16::MAX,
    ensures
        ({
            let after = tilt_stepped(app, cut_index, following, candidates);
            let active = app.workspace.panes[app.workspace.active_pane];
            let before = app.workspace.panes[other];
            let tilt = TiltSelection::CutIndex(cut_index as u16);
            let grouped = other == app.workspace.active_pane || (before.tilt_link is Some
                && before.tilt_link == active.tilt_link);
            let changes = grouped && before.tilt != tilt;
            let follows = app.live.site is Some && following;
            &&& after.workspace.panes[other].tilt == (if grouped {
                tilt
            } else {
                before.tilt
            })
            &&& after.workspace.panes[other].product == before.product
            &&& after.follow.last_scan == app.follow.last_scan
            &&& !(changes && follows) ==> after.follow.manual_hold[other]
                == app.follow.manual_hold[other]
            &&& changes && follows ==> after.follow.manual_hold[other] == (
            match candidates[other] {
                Some(offered) => Some(offered.scan_time),
                None => if app.display.history.frames.len() == 0 {
                    None
                } else {
                    Some(
                        app.display.history.frames[app.display.history.selected].identity.volume_time,
                    )
                },
            })
            &&& changes ==> after.display.board.panes[other] == crate::panes::pane_changed(
                app.display.board.panes[other],
                crate::panes::PaneChange::Semantic,
            )
            &&& !changes ==> after.display.board.panes[other] == app.display.board.panes[other]
            &&& app.display.vrot.on_pane && app.display.vrot.pane == other && changes
                && active.product is Modeled && app.display.vrot.state is Complete
                ==> after.display.vrot.state == VrotState::Stale(StaleReason::DifferentCut)
            &&& active.product is Source ==> after.display.vrot == app.display.vrot
            &&& app.display.vrot.on_pane && app.display.vrot.pane == other && !changes
                ==> after.display.vrot == app.display.vrot
            &&& after.display.history == app.display.history
            &&& after.fallback == app.fallback
            &&& after.live == app.live
            &&& after.tools == app.tools
        }),
{
    let active = app.workspace.active_pane;
    let tilt = TiltSelection::CutIndex(cut_index as u16);
    let changed = tilt_takers(app.workspace, active, tilt);
    crate::workspace::law_a_tilt_reaches_its_group(app.workspace, active, tilt, other);
    let chosen = |one: int| crate::workspace::takes_tilt(app.workspace, active, one, tilt);
    crate::workspace::lemma_panes_where(MAX_PANES as nat, chosen);
    assert(panes_wf(changed));
    crate::panes::law_only_the_listed_panes_change(
        app.display.board,
        changed,
        other as usize,
    );
}

/// What the follower does to each pane: nothing unless a live session stands still
/// at its edge and following is on; then a pane on screen that may take the sweep
/// it is offered looks at exactly that one, and is asked for it where it looked at
/// another.
pub proof fn law_what_the_follower_does(
    app: AppView,
    following: bool,
    candidates: Seq<Option<FollowCandidate>>,
    pane: int,
)
    requires
        app_wf(app),
        candidates.len() == MAX_PANES,
        0 <= pane < MAX_PANES,
    ensures
        ({
            let after = low_tilts_followed(app, following, candidates);
            let before = app.workspace.panes[pane];
            let allowed = app.live.site is Some && app.display.history.follows_live && following
                && app.display.history.playback != crate::history::PlaybackState::Playing;
            let takes = allowed && visible_of(app.workspace.layout).contains(pane as usize)
                && candidates[pane] is Some && (candidates[pane]->0).cut_index <= 65_535 && (
            app.follow.manual_hold[pane] is None || (candidates[pane]->0).scan_time.total_nanos()
                > (app.follow.manual_hold[pane]->0).total_nanos());
            let moves = takes && before.tilt != TiltSelection::CutIndex(
                (candidates[pane]->0).cut_index as u16,
            );
            &&& !allowed ==> after == app
            &&& takes ==> after.workspace.panes[pane].tilt == TiltSelection::CutIndex(
                (candidates[pane]->0).cut_index as u16,
            )
            &&& !takes ==> after.workspace.panes[pane] == before
            &&& after.workspace.panes[pane].product == before.product
            &&& moves ==> after.display.board.panes[pane] == crate::panes::pane_changed(
                app.display.board.panes[pane],
                crate::panes::PaneChange::Semantic,
            )
            &&& !moves ==> after.display.board.panes[pane] == app.display.board.panes[pane]
            &&& app.display.vrot.on_pane && app.display.vrot.pane == pane && moves
                && app.display.vrot.state is Complete ==> after.display.vrot.state
                == VrotState::Stale(StaleReason::DifferentCut)
            &&& app.display.vrot.on_pane && app.display.vrot.pane == pane && !moves
                ==> after.display.vrot == app.display.vrot
            &&& after.display.history == app.display.history
            &&& after.fallback == app.fallback
            &&& after.live == app.live
        }),
{
    let visible = visible_of(app.workspace.layout);
    let changed = followed_panes(app.workspace, visible, app.follow, candidates);
    crate::follow::law_each_pane_takes_its_own_sweep(
        app.workspace,
        visible,
        app.follow,
        candidates,
        pane,
    );
    let moves = |one: int|
        crate::follow::moves_tilt(app.workspace, visible, app.follow, candidates, one);
    crate::workspace::lemma_panes_where(MAX_PANES as nat, moves);
    assert(panes_wf(changed));
    crate::panes::law_only_the_listed_panes_change(app.display.board, changed, pane as usize);
}

/// The workstation opened on a product: every pane draws it and is asked for it,
/// and keeps its tilt and its links.
pub proof fn law_opening_on_a_product_reaches_every_pane(app: AppView, product: u16, pane: int)
    requires
        app_wf(app),
        0 <= pane < MAX_PANES,
    ensures
        ({
            let after = opened_on(app, product);
            &&& after.workspace.panes[pane] == (IntentView {
                product: ProductView::Modeled(product),
                ..app.workspace.panes[pane]
            })
            &&& after.workspace.layout == app.workspace.layout
            &&& after.workspace.active_pane == app.workspace.active_pane
            &&& after.display.board.panes[pane] == crate::panes::pane_changed(
                app.display.board.panes[pane],
                crate::panes::PaneChange::Semantic,
            )
            &&& after.display.history == app.display.history
            &&& after.display.vrot == app.display.vrot
            &&& after.fallback == app.fallback
        }),
{
    assert(every_pane()[pane] == pane as usize);
    assert(every_pane().contains(pane as usize));
    crate::panes::law_only_the_listed_panes_change(
        app.display.board,
        every_pane(),
        pane as usize,
    );
}

/// Drawing the screen anew, and under other colours, asks the panes on screen for
/// another view and no others; only other colours move the colours' clock.
pub proof fn law_a_redraw_is_for_the_screen(app: AppView, pane: int)
    requires
        app_wf(app),
        0 <= pane < MAX_PANES,
    ensures
        ({
            let again = redrawn(app);
            let coloured = recoloured(app);
            let count = match app.workspace.layout {
                PaneLayout::One => 1int,
                PaneLayout::TwoVertical => 2int,
                PaneLayout::TwoHorizontal => 2int,
                PaneLayout::Four => 4int,
            };
            let expected = if pane < count {
                crate::panes::pane_changed(
                    app.display.board.panes[pane],
                    crate::panes::PaneChange::View,
                )
            } else {
                app.display.board.panes[pane]
            };
            &&& again.display.board.panes[pane] == expected
            &&& coloured.display.board.panes[pane] == expected
            &&& again.display.board.palette == app.display.board.palette
            &&& coloured.display.board.palette != app.display.board.palette
            &&& again.display.board.frame == app.display.board.frame
            &&& coloured.display.board.frame == app.display.board.frame
            &&& again.display.history == app.display.history
            &&& coloured.display.history == app.display.history
            &&& again.workspace == app.workspace
            &&& coloured.workspace == app.workspace
        }),
{
    crate::workspace::law_a_layout_shows_panes_once(app.workspace.layout);
    crate::workspace::law_a_layout_shows_the_first_panes(app.workspace.layout, pane as usize);
    crate::panes::law_only_the_listed_panes_change(
        app.display.board,
        visible_of(app.workspace.layout),
        pane as usize,
    );
}

/// What limits do to the timeline: outside a live session they are those that were
/// set; what has to go is added to a playlist's account and told; where nothing
/// has to go nothing is said.
pub proof fn law_what_limits_do(app: AppView, configured: HistoryPolicy)
    requires
        app_wf(app),
        app.display.history.frames.len() <= usize::MAX,
    ensures
        ({
            let after = limits_applied(app, configured);
            let policy = after.display.history.policy;
            let gone = app.display.history.frames.len() - after.display.history.frames.len();
            &&& app.live.site is None ==> policy == configured
            &&& app.live.site is Some ==> policy == live_policy(configured)
            &&& gone == eviction_count(app.display.history.frames, policy)
            &&& gone == 0 ==> after.status == app.status && after.playlist == app.playlist
            &&& gone > 0 ==> after.status == "History limit applied \u{b7} "@ + decimal(
                gone as nat,
            ) + " frame(s) evicted \u{b7} "@ + decimal(after.display.history.frames.len())
                + " retained"@
            &&& gone > 0 ==> (app.playlist.sequence matches Some(before) ==> {
                &&& after.playlist.sequence matches Some(now)
                &&& now == (SequenceView { evicted_frames: now.evicted_frames, ..before })
                &&& before.evicted_frames + gone <= usize::MAX ==> now.evicted_frames
                    == before.evicted_frames + gone
            })
            &&& after.display.board == app.display.board
            &&& after.display.vrot == app.display.vrot
            &&& after.workspace == app.workspace
            &&& after.live == app.live
        }),
{
    let policy = if app.live.site is Some {
        live_policy(configured)
    } else {
        configured
    };
    crate::history::lemma_eviction_count(app.display.history.frames, policy);
}

/// What estimating the pulses anew comes to: nothing without pulses or where
/// nothing changed; a refusal is told and changes nothing else; a new volume takes
/// its place on the timeline, is drawn anew, and its provenance is told.
pub proof fn law_what_a_reestimate_does(app: AppView, outcome: Reestimate)
    ensures
        ({
            let after = reestimated(app, outcome);
            &&& app.pulses is None || outcome is Unchanged ==> after == app
            &&& app.pulses is Some ==> (outcome matches Reestimate::Refused(error) ==> after == (
            AppView { status: "Level 1: "@ + error@, ..app }))
            &&& app.pulses is Some ==> (outcome matches Reestimate::Done { frame, provenance } ==> {
                &&& after.status == "Level 1: "@ + provenance@
                &&& after.display.history == installed(app.display.history, frame@, false)
                &&& after.display.board == frame_changed(app.display.board)
                &&& after.display.vrot == app.display.vrot
                &&& after.pulses == app.pulses
                &&& after.workspace == app.workspace
            })
            &&& awaits_place(app) <==> app.pulses is Some && app.display.history.frames.len() > 0
                && !app.display.history.frames[app.display.history.selected].located
        }),
{
}

} // verus!
