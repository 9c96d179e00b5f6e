//! Following the newest low sweep at the live edge, without taking a tilt away
//! from an analyst who chose one.

use crate::history::PlaybackState;
use crate::moment::Moment;
use crate::panes::MAX_PANES;
use crate::workspace::{
    modeled_product_or_source_field, PaneProduct, TiltSelection, WorkspaceState,
};
use vstd::prelude::*;

verus! {

use crate::panes::panes_wf;
use crate::workspace::{
    lemma_panes_where, panes_where, workspace_wf, IntentView, ProductView, WorkspaceView,
};

/// The newest usable sweep that can serve a pane's product.
#[derive(Clone, Copy, Debug, PartialEq, Eq, Structural)]
pub struct FollowCandidate {
    pub cut_index: usize,
    pub scan_time: Moment,
}

/// What the follower remembers of each pane: the sweep it last took, and the
/// sweep an analyst's own choice holds it back to.
pub struct FollowState {
    pub last_scan: Vec<Option<Moment>>,
    pub manual_hold: Vec<Option<Moment>>,
}

/// The follower's memory as contracts see it.
pub ghost struct FollowView {
    pub last_scan: Seq<Option<Moment>>,
    pub manual_hold: Seq<Option<Moment>>,
}

impl View for FollowState {
    type V = FollowView;

    open spec fn view(&self) -> FollowView {
        FollowView { last_scan: self.last_scan@, manual_hold: self.manual_hold@ }
    }
}

/// The follower remembers every pane.
pub open spec fn follow_wf(follow: FollowView) -> bool {
    follow.last_scan.len() == MAX_PANES && follow.manual_hold.len() == MAX_PANES
}

/// A follower that remembers nothing.
pub open spec fn forgotten() -> FollowView {
    FollowView {
        last_scan: Seq::new(MAX_PANES as nat, |pane: int| None),
        manual_hold: Seq::new(MAX_PANES as nat, |pane: int| None),
    }
}

/// Whether the follower may act at all: on a live session, at the live edge,
/// with the timeline at rest, and switched on.
pub open spec fn may_follow(
    live: bool,
    follows_live: bool,
    playback: PlaybackState,
    enabled: bool,
) -> bool {
    live && follows_live && playback != PlaybackState::Playing && enabled
}

/// Whether the follower may act at all.
pub fn follow_allowed(
    live: bool,
    follows_live: bool,
    playback: PlaybackState,
    enabled: bool,
) -> (allowed: bool)
    ensures
        allowed == may_follow(live, follows_live, playback, enabled),
{
    live && follows_live && playback != PlaybackState::Playing && enabled
}

/// The follower acts neither on a local session, nor away from the live edge,
/// nor while the timeline plays.
pub proof fn law_following_is_for_the_live_edge_alone(
    live: bool,
    follows_live: bool,
    playback: PlaybackState,
    enabled: bool,
)
    requires
        !live || !follows_live || playback == PlaybackState::Playing || !enabled,
    ensures
        !may_follow(live, follows_live, playback, enabled),
{
}

/// The product a pane could follow the newest sweep of: a modeled one that is
/// read from a single sweep of a frame that was measured.
pub open spec fn followed_product(
    product: ProductView,
    has_frame: bool,
    measured: bool,
    derived: bool,
) -> Option<u16> {
    match product {
        ProductView::Modeled(code) => if has_frame && measured && !derived {
            Some(code)
        } else {
            None
        },
        ProductView::Source(_) => None,
    }
}

/// The product a pane could follow the newest sweep of. `derived` says whether
/// the product is computed from the volume as a whole.
pub fn follow_subject(product: &PaneProduct, has_frame: bool, measured: bool, derived: bool) -> (code:
    Option<u16>)
    ensures
        code == followed_product(product@, has_frame, measured, derived),
{
    match modeled_product_or_source_field(product) {
        Ok(code) => if has_frame && measured && !derived {
            Some(code)
        } else {
            None
        },
        Err(_) => None,
    }
}

/// Whether a pane takes a candidate: there is one, a tilt can name it, and it is
/// newer than what a manual choice holds the pane to.
pub open spec fn takes_candidate(
    hold: Option<Moment>,
    candidate: Option<FollowCandidate>,
) -> bool {
    candidate matches Some(found) && found.cut_index <= u16::MAX && (hold matches Some(held)
        ==> found.scan_time.total_nanos() > held.total_nanos())
}

/// A pane that was given a tilt by hand keeps it until a newer sweep arrives,
/// and follows again from then on.
pub proof fn law_a_manual_tilt_holds_until_a_newer_sweep(held: Moment, candidate: FollowCandidate)
    requires
        candidate.cut_index <= u16::MAX,
    ensures
        takes_candidate(Some(held), Some(candidate)) <==> candidate.scan_time.total_nanos()
            > held.total_nanos(),
        takes_candidate(None, Some(candidate)),
{
}

/// Whether a pane on screen takes its candidate.
pub open spec fn pane_takes(
    visible: Seq<usize>,
    follow: FollowView,
    candidates: Seq<Option<FollowCandidate>>,
    pane: int,
) -> bool {
    visible.contains(pane as usize) && takes_candidate(follow.manual_hold[pane], candidates[pane])
}

/// The tilt a candidate is taken as.
pub open spec fn candidate_tilt(candidate: Option<FollowCandidate>) -> TiltSelection {
    TiltSelection::CutIndex(candidate->0.cut_index as u16)
}

/// The follower's memory after it acted.
pub open spec fn followed(
    visible: Seq<usize>,
    follow: FollowView,
    candidates: Seq<Option<FollowCandidate>>,
) -> FollowView {
    FollowView {
        last_scan: Seq::new(
            follow.last_scan.len(),
            |pane: int|
                if pane_takes(visible, follow, candidates, pane) {
                    Some(candidates[pane]->0.scan_time)
                } else {
                    follow.last_scan[pane]
                },
        ),
        manual_hold: Seq::new(
            follow.manual_hold.len(),
            |pane: int|
                if pane_takes(visible, follow, candidates, pane) {
                    None
                } else {
                    follow.manual_hold[pane]
                },
        ),
    }
}

/// The workspace after the follower acted.
pub open spec fn tilts_followed(
    workspace: WorkspaceView,
    visible: Seq<usize>,
    follow: FollowView,
    candidates: Seq<Option<FollowCandidate>>,
) -> WorkspaceView {
    WorkspaceView {
        panes: Seq::new(
            workspace.panes.len(),
            |pane: int|
                if pane_takes(visible, follow, candidates, pane) {
                    IntentView {
                        tilt: candidate_tilt(candidates[pane]),
                        ..workspace.panes[pane]
                    }
                } else {
                    workspace.panes[pane]
                },
        ),
        ..workspace
    }
}

/// Whether the follower gives a pane another tilt than it has.
pub open spec fn moves_tilt(
    workspace: WorkspaceView,
    visible: Seq<usize>,
    follow: FollowView,
    candidates: Seq<Option<FollowCandidate>>,
    pane: int,
) -> bool {
    pane_takes(visible, follow, candidates, pane) && workspace.panes[pane].tilt
        != candidate_tilt(candidates[pane])
}

/// The panes the follower gives another tilt, in order.
pub open spec fn followed_panes(
    workspace: WorkspaceView,
    visible: Seq<usize>,
    follow: FollowView,
    candidates: Seq<Option<FollowCandidate>>,
) -> Seq<usize> {
    panes_where(
        MAX_PANES as nat,
        |pane: int| moves_tilt(workspace, visible, follow, candidates, pane),
    )
}

/// Whether a list of panes has one in it.
fn lists(panes: &Vec<usize>, pane: usize) -> (yes: bool)
    ensures
        yes == panes@.contains(pane),
{
    let mut at: usize = 0;
    while at < panes.len()
        invariant
            at <= panes@.len(),
            forall|i: int| 0 <= i < at ==> #[trigger] panes@[i] != pane,
        decreases panes@.len() - at,
    {
        if panes[at] == pane {
            assert(panes@[at as int] == pane);
            return true;
        }
        at = at + 1;
    }
    false
}

/// The sweep a manual choice holds a pane back to: the newest usable one, else
/// the volume on screen.
pub open spec fn hold_frontier(
    candidate: Option<FollowCandidate>,
    volume_time: Option<Moment>,
) -> Option<Moment> {
    match candidate {
        Some(found) => Some(found.scan_time),
        None => volume_time,
    }
}

/// The follower's memory after the listed panes were given a tilt by hand.
pub open spec fn held(
    follow: FollowView,
    listed: Seq<usize>,
    candidates: Seq<Option<FollowCandidate>>,
    volume_time: Option<Moment>,
) -> FollowView {
    FollowView {
        manual_hold: Seq::new(
            follow.manual_hold.len(),
            |pane: int|
                if listed.contains(pane as usize) {
                    hold_frontier(candidates[pane], volume_time)
                } else {
                    follow.manual_hold[pane]
                },
        ),
        ..follow
    }
}

/// The follower's memory without the listed panes.
pub open spec fn panes_forgotten(follow: FollowView, listed: Seq<usize>) -> FollowView {
    FollowView {
        last_scan: Seq::new(
            follow.last_scan.len(),
            |pane: int|
                if listed.contains(pane as usize) {
                    None
                } else {
                    follow.last_scan[pane]
                },
        ),
        manual_hold: Seq::new(
            follow.manual_hold.len(),
            |pane: int|
                if listed.contains(pane as usize) {
                    None
                } else {
                    follow.manual_hold[pane]
                },
        ),
    }
}

/// Whether what a pane is offered was scanned no later than what is known.
pub open spec fn offers_nothing_newer(
    offered: Option<FollowCandidate>,
    known: Option<FollowCandidate>,
) -> bool {
    offered matches Some(sweep) ==> (known matches Some(newest) && sweep.scan_time.total_nanos()
        <= newest.scan_time.total_nanos())
}

/// After a pane was given a tilt by hand, the sweep it was chosen over is not
/// taken again, and neither is any older one.
pub proof fn law_a_hold_keeps_the_choice(
    follow: FollowView,
    listed: Seq<usize>,
    candidates: Seq<Option<FollowCandidate>>,
    offered: Seq<Option<FollowCandidate>>,
    volume_time: Option<Moment>,
    visible: Seq<usize>,
    pane: int,
)
    requires
        follow_wf(follow),
        candidates.len() == MAX_PANES,
        0 <= pane < MAX_PANES,
        listed.contains(pane as usize),
        offers_nothing_newer(offered[pane], candidates[pane]),
    ensures
        !pane_takes(visible, held(follow, listed, candidates, volume_time), offered, pane),
{
}

/// Each pane on screen takes its own sweep and no other pane's: one that is
/// offered a sweep which a tilt can name, and which no choice by hand holds it
/// back from, ends on exactly that sweep, is listed where that is another tilt
/// than it had, and is free of the hold; every other pane keeps its tilt and what
/// is remembered of it. Nothing else of a pane changes.
pub proof fn law_each_pane_takes_its_own_sweep(
    workspace: WorkspaceView,
    visible: Seq<usize>,
    follow: FollowView,
    candidates: Seq<Option<FollowCandidate>>,
    pane: int,
)
    requires
        workspace_wf(workspace),
        follow_wf(follow),
        candidates.len() == MAX_PANES,
        0 <= pane < MAX_PANES,
    ensures
        ({
            let before = workspace.panes[pane];
            let moved = tilts_followed(workspace, visible, follow, candidates);
            let after = moved.panes[pane];
            let remembered = followed(visible, follow, candidates);
            let listed = followed_panes(workspace, visible, follow, candidates);
            let takes = visible.contains(pane as usize) && candidates[pane] is Some && (
            candidates[pane]->0).cut_index <= 65_535 && (follow.manual_hold[pane] is None || (
            candidates[pane]->0).scan_time.total_nanos() > (
            follow.manual_hold[pane]->0).total_nanos());
            &&& moved.panes.len() == workspace.panes.len()
            &&& moved.layout == workspace.layout
            &&& moved.active_pane == workspace.active_pane
            &&& takes ==> after.tilt == TiltSelection::CutIndex(
                (candidates[pane]->0).cut_index as u16,
            ) && remembered.last_scan[pane] == Some((candidates[pane]->0).scan_time)
                && remembered.manual_hold[pane] is None
            &&& !takes ==> after == before && remembered.last_scan[pane]
                == follow.last_scan[pane] && remembered.manual_hold[pane]
                == follow.manual_hold[pane]
            &&& after.product == before.product
            &&& after.camera_link == before.camera_link
            &&& after.product_link == before.product_link
            &&& after.tilt_link == before.tilt_link
            &&& listed.contains(pane as usize) <==> after.tilt != before.tilt
        }),
{
    let moves = |one: int| moves_tilt(workspace, visible, follow, candidates, one);
    lemma_panes_where(MAX_PANES as nat, moves);
    assert(moves(pane) == moves_tilt(workspace, visible, follow, candidates, pane));
}

/// A choice by hand holds the chosen panes back to the newest sweep they were
/// offered, or to the volume on screen, and leaves every other pane alone.
pub proof fn law_a_hold_is_for_the_chosen_panes(
    follow: FollowView,
    listed: Seq<usize>,
    candidates: Seq<Option<FollowCandidate>>,
    volume_time: Option<Moment>,
    pane: int,
)
    requires
        follow_wf(follow),
        candidates.len() == MAX_PANES,
        0 <= pane < MAX_PANES,
    ensures
        ({
            let after = held(follow, listed, candidates, volume_time);
            &&& follow_wf(after)
            &&& after.last_scan == follow.last_scan
            &&& !listed.contains(pane as usize) ==> after.manual_hold[pane]
                == follow.manual_hold[pane]
            &&& listed.contains(pane as usize) && candidates[pane] is Some
                ==> after.manual_hold[pane] == Some((candidates[pane]->0).scan_time)
            &&& listed.contains(pane as usize) && candidates[pane] is None
                ==> after.manual_hold[pane] == volume_time
        }),
        ({
            let after = panes_forgotten(follow, listed);
            &&& listed.contains(pane as usize) ==> after.last_scan[pane] is None
                && after.manual_hold[pane] is None
            &&& !listed.contains(pane as usize) ==> after.last_scan[pane]
                == follow.last_scan[pane] && after.manual_hold[pane] == follow.manual_hold[pane]
        }),
        forgotten().last_scan[pane] is None,
        forgotten().manual_hold[pane] is None,
{
}

/// The follower acts on a live session at its edge that stands still, where it
/// is switched on; and it follows modeled products of measured frames that are
/// read from one sweep, each under its own code.
pub proof fn law_when_and_what_is_followed(
    live: bool,
    follows_live: bool,
    playback: PlaybackState,
    enabled: bool,
    product: ProductView,
    has_frame: bool,
    measured: bool,
    derived: bool,
)
    ensures
        may_follow(live, follows_live, playback, enabled) <==> live && follows_live && enabled
            && playback == PlaybackState::Paused,
        followed_product(product, has_frame, measured, derived) matches Some(code) ==> product
            == ProductView::Modeled(code) && has_frame && measured && !derived,
        product is Modeled && has_frame && measured && !derived ==> followed_product(
            product,
            has_frame,
            measured,
            derived,
        ) is Some,
{
}

impl FollowState {
    /// A follower that remembers nothing.
    pub fn new() -> (follow: FollowState)
        ensures
            follow@ == forgotten(),
            follow_wf(follow@),
    {
        let mut follow = FollowState { last_scan: Vec::new(), manual_hold: Vec::new() };
        let mut at: usize = 0;
        while at < MAX_PANES
            invariant
                at <= MAX_PANES,
                follow.last_scan@.len() == at,
                follow.manual_hold@.len() == at,
                forall|i: int| 0 <= i < at ==> (#[trigger] follow.last_scan@[i]) is None,
                forall|i: int| 0 <= i < at ==> (#[trigger] follow.manual_hold@[i]) is None,
            decreases MAX_PANES - at,
        {
            follow.last_scan.push(None);
            follow.manual_hold.push(None);
            at = at + 1;
        }
        assert(follow@.last_scan =~= forgotten().last_scan);
        assert(follow@.manual_hold =~= forgotten().manual_hold);
        follow
    }

    /// Forgets everything.
    pub fn reset_live_follow_state(&mut self)
        ensures
            final(self)@ == forgotten(),
            follow_wf(final(self)@),
    {
        *self = FollowState::new();
    }

    /// Gives each pane on screen the candidate it takes, and lists those whose
    /// tilt changed.
    pub fn follow(
        &mut self,
        workspace: &mut WorkspaceState,
        visible: &Vec<usize>,
        candidates: &Vec<Option<FollowCandidate>>,
    ) -> (changed: Vec<usize>)
        requires
            follow_wf(old(self)@),
            workspace_wf(old(workspace)@),
            panes_wf(visible@),
            candidates@.len() == MAX_PANES,
        ensures
            final(self)@ == followed(visible@, old(self)@, candidates@),
            final(workspace)@ == tilts_followed(
                old(workspace)@,
                visible@,
                old(self)@,
                candidates@,
            ),
            changed@ == followed_panes(old(workspace)@, visible@, old(self)@, candidates@),
            follow_wf(final(self)@),
            workspace_wf(final(workspace)@),
            panes_wf(changed@),
    {
        let ghost follow0 = self@;
        let ghost work0 = workspace@;
        let ghost chosen = |pane: int| moves_tilt(work0, visible@, follow0, candidates@, pane);
        let mut changed: Vec<usize> = Vec::new();
        let mut pane: usize = 0;
        while pane < MAX_PANES
            invariant
                pane <= MAX_PANES,
                follow0 == old(self)@,
                work0 == old(workspace)@,
                follow_wf(follow0),
                workspace_wf(work0),
                candidates@.len() == MAX_PANES,
                chosen == (|pane: int|
                    moves_tilt(work0, visible@, follow0, candidates@, pane)),
                follow_wf(self@),
                workspace@.layout == work0.layout,
                workspace@.active_pane == work0.active_pane,
                workspace@.panes.len() == MAX_PANES,
                changed@ == panes_where(pane as nat, chosen),
                forall|i: int|
                    0 <= i < pane ==> #[trigger] self@.last_scan[i] == followed(
                        visible@,
                        follow0,
                        candidates@,
                    ).last_scan[i],
                forall|i: int|
                    0 <= i < pane ==> #[trigger] self@.manual_hold[i] == followed(
                        visible@,
                        follow0,
                        candidates@,
                    ).manual_hold[i],
                forall|i: int|
                    pane <= i < MAX_PANES ==> #[trigger] self@.last_scan[i]
                        == follow0.last_scan[i],
                forall|i: int|
                    pane <= i < MAX_PANES ==> #[trigger] self@.manual_hold[i]
                        == follow0.manual_hold[i],
                forall|i: int|
                    0 <= i < pane ==> #[trigger] workspace@.panes[i] == tilts_followed(
                        work0,
                        visible@,
                        follow0,
                        candidates@,
                    ).panes[i],
                forall|i: int|
                    pane <= i < MAX_PANES ==> #[trigger] workspace@.panes[i] == work0.panes[i],
            decreases MAX_PANES - pane,
        {
            let ghost here = workspace@;
            let newer = match (candidates[pane], self.manual_hold[pane]) {
                (Some(found), Some(held)) => found.scan_time.is_after(&held),
                (Some(_), None) => true,
                (None, _) => false,
            };
            let mut moved = false;
            if let Some(found) = candidates[pane] {
                if lists(visible, pane) && newer && found.cut_index <= u16::MAX as usize {
                    assert(pane_takes(visible@, follow0, candidates@, pane as int));
                    let selected = TiltSelection::CutIndex(found.cut_index as u16);
                    let mut intent = workspace.panes.remove(pane);
                    assert(intent@ == here.panes[pane as int]);
                    moved = intent.tilt != selected;
                    intent.tilt = selected;
                    workspace.panes.insert(pane, intent);
                    assert(workspace@.panes =~= here.panes.update(pane as int, intent@));
                    self.last_scan.set(pane, Some(found.scan_time));
                    self.manual_hold.set(pane, None);
                }
            }
            assert(moved == chosen(pane as int));
            if moved {
                changed.push(pane);
            }
            pane = pane + 1;
        }
        proof {
            lemma_panes_where(MAX_PANES as nat, chosen);
            assert(self@.last_scan =~= followed(visible@, follow0, candidates@).last_scan);
            assert(self@.manual_hold =~= followed(visible@, follow0, candidates@).manual_hold);
            assert(workspace@.panes =~= tilts_followed(
                work0,
                visible@,
                follow0,
                candidates@,
            ).panes);
        }
        changed
    }

    /// Holds the listed panes to the sweep they were taken from by hand.
    pub fn hold(
        &mut self,
        listed: &Vec<usize>,
        candidates: &Vec<Option<FollowCandidate>>,
        volume_time: Option<Moment>,
    )
        requires
            follow_wf(old(self)@),
            candidates@.len() == MAX_PANES,
        ensures
            final(self)@ == held(old(self)@, listed@, candidates@, volume_time),
            follow_wf(final(self)@),
    {
        let ghost follow0 = self@;
        let mut pane: usize = 0;
        while pane < MAX_PANES
            invariant
                pane <= MAX_PANES,
                follow0 == old(self)@,
                follow_wf(follow0),
                candidates@.len() == MAX_PANES,
                self@.last_scan == follow0.last_scan,
                self@.manual_hold.len() == MAX_PANES,
                forall|i: int|
                    0 <= i < pane ==> #[trigger] self@.manual_hold[i] == held(
                        follow0,
                        listed@,
                        candidates@,
                        volume_time,
                    ).manual_hold[i],
                forall|i: int|
                    pane <= i < MAX_PANES ==> #[trigger] self@.manual_hold[i]
                        == follow0.manual_hold[i],
            decreases MAX_PANES - pane,
        {
            if lists(listed, pane) {
                let frontier = match candidates[pane] {
                    Some(found) => Some(found.scan_time),
                    None => volume_time,
                };
                self.manual_hold.set(pane, frontier);
            }
            pane = pane + 1;
        }
        assert(self@.manual_hold =~= held(follow0, listed@, candidates@, volume_time).manual_hold);
    }

    /// Forgets the listed panes.
    pub fn forget(&mut self, listed: &Vec<usize>)
        requires
            follow_wf(old(self)@),
        ensures
            final(self)@ == panes_forgotten(old(self)@, listed@),
            follow_wf(final(self)@),
    {
        let ghost follow0 = self@;
        let mut pane: usize = 0;
        while pane < MAX_PANES
            invariant
                pane <= MAX_PANES,
                follow0 == old(self)@,
                follow_wf(follow0),
                follow_wf(self@),
                forall|i: int|
                    0 <= i < pane ==> #[trigger] self@.manual_hold[i] == panes_forgotten(
                        follow0,
                        listed@,
                    ).manual_hold[i],
                forall|i: int|
                    0 <= i < pane ==> #[trigger] self@.last_scan[i] == panes_forgotten(
                        follow0,
                        listed@,
                    ).last_scan[i],
                forall|i: int|
                    pane <= i < MAX_PANES ==> #[trigger] self@.manual_hold[i]
                        == follow0.manual_hold[i],
                forall|i: int|
                    pane <= i < MAX_PANES ==> #[trigger] self@.last_scan[i]
                        == follow0.last_scan[i],
            decreases MAX_PANES - pane,
        {
            if lists(listed, pane) {
                self.last_scan.set(pane, None);
                self.manual_hold.set(pane, None);
            }
            pane = pane + 1;
        }
        assert(self@.manual_hold =~= panes_forgotten(follow0, listed@).manual_hold);
        assert(self@.last_scan =~= panes_forgotten(follow0, listed@).last_scan);
    }
}

} // verus!
