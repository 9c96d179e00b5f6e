//! What the analyst asked each pane for: the layout, the product and the tilt.

use crate::panes::MAX_PANES;
use crate::text::same_text;
use vstd::prelude::*;

verus! {

use crate::panes::panes_wf;

/// Reflectivity, the product a fresh pane opens on.
pub const REFLECTIVITY: u16 = 0;

/// Power relative to an uncalibrated receiver.
pub const RELATIVE_POWER: u16 = 1;

/// How the panes share the window.
#[derive(Clone, Copy, Debug, PartialEq, Eq, Structural)]
pub enum PaneLayout {
    One,
    TwoVertical,
    TwoHorizontal,
    Four,
}

/// The panes a layout shows, in order.
pub open spec fn visible_of(layout: PaneLayout) -> Seq<usize> {
    match layout {
        PaneLayout::One => seq![0usize],
        PaneLayout::TwoVertical => seq![0usize, 1usize],
        PaneLayout::TwoHorizontal => seq![0usize, 1usize],
        PaneLayout::Four => seq![0usize, 1usize, 2usize, 3usize],
    }
}

/// A layout shows panes of the board, each of them once.
pub proof fn law_a_layout_shows_panes_once(layout: PaneLayout)
    ensures
        panes_wf(visible_of(layout)),
        visible_of(layout).no_duplicates(),
        visible_of(layout).len() > 0,
{
}

/// The panes a layout shows, in order.
pub fn visible_panes(layout: PaneLayout) -> (panes: Vec<usize>)
    ensures
        panes@ == visible_of(layout),
        panes_wf(panes@),
{
    let panes: Vec<usize> = match layout {
        PaneLayout::One => vec![0usize],
        PaneLayout::TwoVertical => vec![0usize, 1usize],
        PaneLayout::TwoHorizontal => vec![0usize, 1usize],
        PaneLayout::Four => vec![0usize, 1usize, 2usize, 3usize],
    };
    assert(panes@ =~= visible_of(layout));
    panes
}

/// Which sweep a pane wants.
#[derive(Clone, Copy, Debug, PartialEq, Eq, Structural)]
pub enum TiltSelection {
    LowestAvailable,
    CutIndex(u16),
    NearestElevationTenths(i16),
}

/// What a pane draws: a modeled product by its code, or a field under its
/// producer's own name.
pub enum PaneProduct {
    Modeled(u16),
    Source(String),
}

/// A pane's product as contracts see it.
pub ghost enum ProductView {
    Modeled(u16),
    Source(Seq<char>),
}

impl View for PaneProduct {
    type V = ProductView;

    open spec fn view(&self) -> ProductView {
        match self {
            PaneProduct::Modeled(code) => ProductView::Modeled(*code),
            PaneProduct::Source(name) => ProductView::Source(name@),
        }
    }
}

impl PaneProduct {
    /// Whether two panes draw the same thing.
    pub fn same(&self, other: &PaneProduct) -> (same: bool)
        ensures
            same == (self@ == other@),
    {
        match (self, other) {
            (PaneProduct::Modeled(left), PaneProduct::Modeled(right)) => *left == *right,
            (PaneProduct::Source(left), PaneProduct::Source(right)) => same_text(
                left.as_str(),
                right.as_str(),
            ),
            _ => false,
        }
    }

    /// A copy.
    pub fn copy(&self) -> (copy: PaneProduct)
        ensures
            copy == *self,
    {
        match self {
            PaneProduct::Modeled(code) => PaneProduct::Modeled(*code),
            PaneProduct::Source(name) => PaneProduct::Source(name.clone()),
        }
    }
}

/// The modeled product a pane draws, or the producer's name of the field that
/// no modeled product stands for. Nothing turns the one into the other.
pub fn modeled_product_or_source_field(product: &PaneProduct) -> (found: Result<u16, &str>)
    ensures
        match product@ {
            ProductView::Modeled(code) => found == Ok::<u16, &str>(code),
            ProductView::Source(name) => found matches Err(producer) && producer@ == name,
        },
{
    match product {
        PaneProduct::Modeled(code) => Ok(*code),
        PaneProduct::Source(name) => Err(name.as_str()),
    }
}

/// One pane's wishes, and the groups it moves with.
pub struct PaneIntent {
    pub product: PaneProduct,
    pub tilt: TiltSelection,
    pub camera_link: Option<u8>,
    pub product_link: Option<u8>,
    pub tilt_link: Option<u8>,
}

/// A pane's wishes as contracts see them.
pub ghost struct IntentView {
    pub product: ProductView,
    pub tilt: TiltSelection,
    pub camera_link: Option<u8>,
    pub product_link: Option<u8>,
    pub tilt_link: Option<u8>,
}

impl View for PaneIntent {
    type V = IntentView;

    open spec fn view(&self) -> IntentView {
        IntentView {
            product: self.product@,
            tilt: self.tilt,
            camera_link: self.camera_link,
            product_link: self.product_link,
            tilt_link: self.tilt_link,
        }
    }
}

/// The workspace.
pub struct WorkspaceState {
    pub layout: PaneLayout,
    pub active_pane: usize,
    pub panes: Vec<PaneIntent>,
}

/// The workspace as contracts see it.
pub ghost struct WorkspaceView {
    pub layout: PaneLayout,
    pub active_pane: int,
    pub panes: Seq<IntentView>,
}

impl View for WorkspaceState {
    type V = WorkspaceView;

    open spec fn view(&self) -> WorkspaceView {
        WorkspaceView {
            layout: self.layout,
            active_pane: self.active_pane as int,
            panes: self.panes@.map_values(|pane: PaneIntent| pane@),
        }
    }
}

/// A workspace has every pane, and one of them is active.
pub open spec fn workspace_wf(workspace: WorkspaceView) -> bool {
    workspace.panes.len() == MAX_PANES && 0 <= workspace.active_pane < MAX_PANES
}

/// What a pane is asked for when nothing is stored.
pub open spec fn default_intent() -> IntentView {
    IntentView {
        product: ProductView::Modeled(REFLECTIVITY),
        tilt: TiltSelection::LowestAvailable,
        camera_link: None,
        product_link: None,
        tilt_link: None,
    }
}

/// Whether two panes move together under a link.
pub open spec fn linked(left: Option<u8>, right: Option<u8>) -> bool {
    left is Some && left == right
}

/// Whether pane `pane` takes the product that pane `from` is given.
pub open spec fn takes_product(
    workspace: WorkspaceView,
    from: int,
    pane: int,
    product: ProductView,
) -> bool {
    (pane == from || linked(
        workspace.panes[pane].product_link,
        workspace.panes[from].product_link,
    )) && workspace.panes[pane].product != product
}

/// Whether pane `pane` takes the tilt that pane `from` is given.
pub open spec fn takes_tilt(
    workspace: WorkspaceView,
    from: int,
    pane: int,
    tilt: TiltSelection,
) -> bool {
    (pane == from || linked(workspace.panes[pane].tilt_link, workspace.panes[from].tilt_link))
        && workspace.panes[pane].tilt != tilt
}

/// The workspace after a pane, and those linked with it, were given a product.
pub open spec fn product_applied(
    workspace: WorkspaceView,
    from: int,
    product: ProductView,
) -> WorkspaceView {
    WorkspaceView {
        panes: Seq::new(
            workspace.panes.len(),
            |pane: int|
                if takes_product(workspace, from, pane, product) {
                    IntentView { product, ..workspace.panes[pane] }
                } else {
                    workspace.panes[pane]
                },
        ),
        ..workspace
    }
}

/// The workspace after a pane, and those linked with it, were given a tilt.
pub open spec fn tilt_applied(
    workspace: WorkspaceView,
    from: int,
    tilt: TiltSelection,
) -> WorkspaceView {
    WorkspaceView {
        panes: Seq::new(
            workspace.panes.len(),
            |pane: int|
                if takes_tilt(workspace, from, pane, tilt) {
                    IntentView { tilt, ..workspace.panes[pane] }
                } else {
                    workspace.panes[pane]
                },
        ),
        ..workspace
    }
}

/// The panes below `count` that `chosen` holds of, in order.
pub open spec fn panes_where(count: nat, chosen: spec_fn(int) -> bool) -> Seq<usize>
    decreases count,
{
    if count == 0 {
        Seq::empty()
    } else {
        let before = panes_where((count - 1) as nat, chosen);
        if chosen(count - 1) {
            before.push((count - 1) as usize)
        } else {
            before
        }
    }
}

/// The panes that [`panes_where`] lists are those that were chosen, each once.
pub proof fn lemma_panes_where(count: nat, chosen: spec_fn(int) -> bool)
    requires
        count <= usize::MAX,
    ensures
        panes_where(count, chosen).no_duplicates(),
        forall|i: int|
            0 <= i < panes_where(count, chosen).len() ==> (#[trigger] panes_where(
                count,
                chosen,
            )[i]) < count && chosen(panes_where(count, chosen)[i] as int),
        forall|pane: int|
            0 <= pane < count ==> (#[trigger] chosen(pane) <==> panes_where(
                count,
                chosen,
            ).contains(pane as usize)),
    decreases count,
{
    if count > 0 {
        let before = panes_where((count - 1) as nat, chosen);
        let all = panes_where(count, chosen);
        lemma_panes_where((count - 1) as nat, chosen);
        assert forall|i: int| 0 <= i < all.len() implies (#[trigger] all[i]) < count && chosen(
            all[i] as int,
        ) by {
            if i < before.len() {
                assert(all[i] == before[i]);
            }
        }
        assert forall|pane: int| 0 <= pane < count implies (#[trigger] chosen(pane)
            <==> all.contains(pane as usize)) by {
            if pane < count - 1 {
                if chosen(pane) {
                    assert(before.contains(pane as usize));
                    let k = choose|k: int| 0 <= k < before.len() && before[k] == pane as usize;
                    assert(all[k] == pane as usize);
                }
                if all.contains(pane as usize) {
                    let k = choose|k: int| 0 <= k < all.len() && all[k] == pane as usize;
                    assert(k < before.len());
                    assert(before[k] == pane as usize);
                }
            } else {
                if chosen(pane) {
                    assert(all[all.len() - 1] == pane as usize);
                }
                if all.contains(pane as usize) {
                    let k = choose|k: int| 0 <= k < all.len() && all[k] == pane as usize;
                    if k < before.len() {
                        assert(before[k] == pane as usize);
                    }
                }
            }
        }
    }
}

/// The panes that take a product, in order.
pub open spec fn product_takers(
    workspace: WorkspaceView,
    from: int,
    product: ProductView,
) -> Seq<usize> {
    panes_where(MAX_PANES as nat, |pane: int| takes_product(workspace, from, pane, product))
}

/// The panes that take a tilt, in order.
pub open spec fn tilt_takers(
    workspace: WorkspaceView,
    from: int,
    tilt: TiltSelection,
) -> Seq<usize> {
    panes_where(MAX_PANES as nat, |pane: int| takes_tilt(workspace, from, pane, tilt))
}

/// A product given to a pane that draws something else is taken: the pane draws
/// it and is among those that changed.
pub proof fn law_a_pane_takes_what_it_is_given(
    workspace: WorkspaceView,
    from: int,
    product: ProductView,
    tilt: TiltSelection,
)
    requires
        workspace_wf(workspace),
        0 <= from < MAX_PANES,
    ensures
        product_applied(workspace, from, product).panes[from].product == product,
        tilt_applied(workspace, from, tilt).panes[from].tilt == tilt,
        product_takers(workspace, from, product).contains(from as usize)
            <==> workspace.panes[from].product != product,
        tilt_takers(workspace, from, tilt).contains(from as usize)
            <==> workspace.panes[from].tilt != tilt,
{
    let product_chosen = |pane: int| takes_product(workspace, from, pane, product);
    let tilt_chosen = |pane: int| takes_tilt(workspace, from, pane, tilt);
    lemma_panes_where(MAX_PANES as nat, product_chosen);
    lemma_panes_where(MAX_PANES as nat, tilt_chosen);
    assert(product_chosen(from) <==> workspace.panes[from].product != product);
    assert(tilt_chosen(from) <==> workspace.panes[from].tilt != tilt);
}

/// Whether two panes move together under a link.
fn same_link(left: Option<u8>, right: Option<u8>) -> (yes: bool)
    ensures
        yes == linked(left, right),
{
    match (left, right) {
        (Some(l), Some(r)) => l == r,
        _ => false,
    }
}

impl WorkspaceState {
    /// A workspace as it ships: one pane, on reflectivity, at the lowest tilt.
    pub fn new() -> (workspace: Self)
        ensures
            workspace_wf(workspace@),
            workspace@.layout == PaneLayout::One,
            workspace@.active_pane == 0,
            forall|i: int|
                0 <= i < MAX_PANES ==> #[trigger] workspace@.panes[i] == default_intent(),
    {
        let mut panes: Vec<PaneIntent> = Vec::new();
        while panes.len() < MAX_PANES
            invariant
                panes@.len() <= MAX_PANES,
                forall|i: int|
                    0 <= i < panes@.len() ==> (#[trigger] panes@[i])@ == default_intent(),
            decreases MAX_PANES - panes@.len(),
        {
            panes.push(
                PaneIntent {
                    product: PaneProduct::Modeled(REFLECTIVITY),
                    tilt: TiltSelection::LowestAvailable,
                    camera_link: None,
                    product_link: None,
                    tilt_link: None,
                },
            );
        }
        WorkspaceState { layout: PaneLayout::One, active_pane: 0, panes }
    }

    /// The panes on screen.
    pub fn visible_panes(&self) -> (panes: Vec<usize>)
        ensures
            panes@ == visible_of(self@.layout),
            panes_wf(panes@),
    {
        visible_panes(self.layout)
    }

    /// Makes a pane the active one.
    pub fn set_active(&mut self, pane: usize)
        requires
            workspace_wf(old(self)@),
            pane < MAX_PANES,
        ensures
            final(self)@ == (WorkspaceView { active_pane: pane as int, ..old(self)@ }),
            workspace_wf(final(self)@),
    {
        self.active_pane = pane;
    }

    /// Gives a pane a product, and those linked with it; lists the panes that
    /// changed.
    pub fn apply_product_from(&mut self, from: usize, product: &PaneProduct) -> (changed: Vec<
        usize,
    >)
        requires
            workspace_wf(old(self)@),
            from < MAX_PANES,
        ensures
            final(self)@ == product_applied(old(self)@, from as int, product@),
            changed@ == product_takers(old(self)@, from as int, product@),
            workspace_wf(final(self)@),
            panes_wf(changed@),
    {
        let ghost before = self@;
        let ghost chosen = |pane: int| takes_product(before, from as int, pane, product@);
        let group = self.panes[from].product_link;
        assert(before.panes[from as int] == self.panes@[from as int]@);
        let mut changed: Vec<usize> = Vec::new();
        let mut pane: usize = 0;
        while pane < MAX_PANES
            invariant
                pane <= MAX_PANES,
                from < MAX_PANES,
                before == old(self)@,
                workspace_wf(before),
                chosen == (|pane: int| takes_product(before, from as int, pane, product@)),
                group == before.panes[from as int].product_link,
                self@.layout == before.layout,
                self@.active_pane == before.active_pane,
                self@.panes.len() == MAX_PANES,
                changed@ == panes_where(pane as nat, chosen),
                forall|i: int|
                    0 <= i < pane ==> #[trigger] self@.panes[i] == product_applied(
                        before,
                        from as int,
                        product@,
                    ).panes[i],
                forall|i: int|
                    pane <= i < MAX_PANES ==> #[trigger] self@.panes[i] == before.panes[i],
            decreases MAX_PANES - pane,
        {
            let ghost here = self@;
            let mut intent = self.panes.remove(pane);
            assert(intent@ == here.panes[pane as int]);
            let moves = (pane == from || same_link(intent.product_link, group))
                && !intent.product.same(product);
            assert(moves == chosen(pane as int));
            if moves {
                intent.product = product.copy();
                changed.push(pane);
            }
            self.panes.insert(pane, intent);
            assert(self@.panes =~= here.panes.update(pane as int, intent@));
            pane = pane + 1;
        }
        proof {
            lemma_panes_where(MAX_PANES as nat, chosen);
            assert(self@.panes =~= product_applied(before, from as int, product@).panes);
        }
        changed
    }

    /// Gives a pane a tilt, and those linked with it; lists the panes that
    /// changed.
    pub fn apply_tilt_from(&mut self, from: usize, tilt: TiltSelection) -> (changed: Vec<usize>)
        requires
            workspace_wf(old(self)@),
            from < MAX_PANES,
        ensures
            final(self)@ == tilt_applied(old(self)@, from as int, tilt),
            changed@ == tilt_takers(old(self)@, from as int, tilt),
            workspace_wf(final(self)@),
            panes_wf(changed@),
    {
        let ghost before = self@;
        let ghost chosen = |pane: int| takes_tilt(before, from as int, pane, tilt);
        let group = self.panes[from].tilt_link;
        assert(before.panes[from as int] == self.panes@[from as int]@);
        let mut changed: Vec<usize> = Vec::new();
        let mut pane: usize = 0;
        while pane < MAX_PANES
            invariant
                pane <= MAX_PANES,
                from < MAX_PANES,
                before == old(self)@,
                workspace_wf(before),
                chosen == (|pane: int| takes_tilt(before, from as int, pane, tilt)),
                group == before.panes[from as int].tilt_link,
                self@.layout == before.layout,
                self@.active_pane == before.active_pane,
                self@.panes.len() == MAX_PANES,
                changed@ == panes_where(pane as nat, chosen),
                forall|i: int|
                    0 <= i < pane ==> #[trigger] self@.panes[i] == tilt_applied(
                        before,
                        from as int,
                        tilt,
                    ).panes[i],
                forall|i: int|
                    pane <= i < MAX_PANES ==> #[trigger] self@.panes[i] == before.panes[i],
            decreases MAX_PANES - pane,
        {
            let ghost here = self@;
            let mut intent = self.panes.remove(pane);
            assert(intent@ == here.panes[pane as int]);
            let moves = (pane == from || same_link(intent.tilt_link, group)) && intent.tilt != tilt;
            assert(moves == chosen(pane as int));
            if moves {
                intent.tilt = tilt;
                changed.push(pane);
            }
            self.panes.insert(pane, intent);
            assert(self@.panes =~= here.panes.update(pane as int, intent@));
            pane = pane + 1;
        }
        proof {
            lemma_panes_where(MAX_PANES as nat, chosen);
            assert(self@.panes =~= tilt_applied(before, from as int, tilt).panes);
        }
        changed
    }

    /// Whether every pane on screen moves its camera with the others.
    pub fn cameras_linked(&self) -> (yes: bool)
        requires
            workspace_wf(self@),
        ensures
            yes == cameras_are_linked(self@),
    {
        let visible = self.visible_panes();
        let mut at: usize = 0;
        while at < visible.len()
            invariant
                at <= visible@.len(),
                workspace_wf(self@),
                visible@ == visible_of(self@.layout),
                panes_wf(visible@),
                forall|i: int|
                    0 <= i < at ==> self@.panes[#[trigger] visible@[i] as int].camera_link == Some(
                        0u8,
                    ),
            decreases visible@.len() - at,
        {
            let pane: usize = visible[at];
            assert(self@.panes[pane as int] == self.panes@[pane as int]@);
            let in_group = match self.panes[pane].camera_link {
                Some(group) => group == 0,
                None => false,
            };
            if !in_group {
                assert(self@.panes[visible@[at as int] as int].camera_link != Some(0u8));
                return false;
            }
            at = at + 1;
        }
        true
    }

    /// Links every visible camera, or unlinks them.
    pub fn set_camera_links(&mut self, linked: bool)
        requires
            workspace_wf(old(self)@),
        ensures
            final(self)@ == camera_links_set(old(self)@, linked),
            workspace_wf(final(self)@),
    {
        let group: Option<u8> = if linked {
            Some(0)
        } else {
            None
        };
        let ghost before = self@;
        let count: usize = self.visible_panes().len();
        let mut pane: usize = 0;
        while pane < count
            invariant
                pane <= count,
                before == old(self)@,
                workspace_wf(before),
                count == visible_of(before.layout).len(),
                count <= MAX_PANES,
                self@.layout == before.layout,
                self@.active_pane == before.active_pane,
                self@.panes.len() == MAX_PANES,
                forall|i: int|
                    0 <= i < pane ==> #[trigger] self@.panes[i] == (IntentView {
                        camera_link: group,
                        ..before.panes[i]
                    }),
                forall|i: int|
                    pane <= i < MAX_PANES ==> #[trigger] self@.panes[i] == before.panes[i],
            decreases count - pane,
        {
            let ghost here = self@;
            let mut intent = self.panes.remove(pane);
            assert(intent@ == here.panes[pane as int]);
            intent.camera_link = group;
            self.panes.insert(pane, intent);
            assert(self@.panes =~= here.panes.update(pane as int, intent@));
            pane = pane + 1;
        }
        assert(self@.panes =~= camera_links_set(before, linked).panes);
    }
}

/// Whether every pane on screen is in the first camera group.
pub open spec fn cameras_are_linked(workspace: WorkspaceView) -> bool {
    forall|i: int|
        0 <= i < visible_of(workspace.layout).len() ==> workspace.panes[(#[trigger] visible_of(
            workspace.layout,
        )[i]) as int].camera_link == Some(0u8)
}

/// The workspace with the visible cameras linked, or with them unlinked.
pub open spec fn camera_links_set(workspace: WorkspaceView, linked: bool) -> WorkspaceView {
    let group: Option<u8> = if linked {
        Some(0u8)
    } else {
        None
    };
    WorkspaceView {
        panes: Seq::new(
            workspace.panes.len(),
            |pane: int|
                if pane < visible_of(workspace.layout).len() {
                    IntentView { camera_link: group, ..workspace.panes[pane] }
                } else {
                    workspace.panes[pane]
                },
        ),
        ..workspace
    }
}

/// Linking the cameras links them and unlinking them does not, so that a switch
/// to what they are not always changes whether they are.
pub proof fn law_toggling_links_toggles_them(workspace: WorkspaceView, linked: bool)
    requires
        workspace_wf(workspace),
    ensures
        cameras_are_linked(camera_links_set(workspace, linked)) == linked,
{
    let visible = visible_of(workspace.layout);
    let after = camera_links_set(workspace, linked);
    assert(visible[0] == 0);
    assert forall|i: int| 0 <= i < visible.len() implies #[trigger] visible[i] == i by {}
    if linked {
        assert forall|i: int| 0 <= i < visible.len() implies after.panes[(#[trigger] visible[i])
            as int].camera_link == Some(0u8) by {}
    } else {
        assert(after.panes[visible[0] as int].camera_link is None);
    }
}

/// Listed panes stand in order.
proof fn lemma_panes_where_ascend(count: nat, chosen: spec_fn(int) -> bool)
    requires
        count <= usize::MAX,
    ensures
        forall|i: int, j: int|
            0 <= i < j < panes_where(count, chosen).len() ==> #[trigger] panes_where(
                count,
                chosen,
            )[i] < #[trigger] panes_where(count, chosen)[j],
    decreases count,
{
    if count > 0 {
        let before = panes_where((count - 1) as nat, chosen);
        let all = panes_where(count, chosen);
        lemma_panes_where_ascend((count - 1) as nat, chosen);
        lemma_panes_where((count - 1) as nat, chosen);
        assert forall|i: int, j: int| 0 <= i < j < all.len() implies #[trigger] all[i]
            < #[trigger] all[j] by {
            assert(all[i] == before[i]);
            if j < before.len() {
                assert(all[j] == before[j]);
            }
        }
    }
}

/// A product given to a pane reaches that pane and every pane in its group, and no
/// other; nothing but the product of those panes changes. The panes listed are
/// those whose product is another than it was, in order and each once.
pub proof fn law_a_product_reaches_its_group(
    workspace: WorkspaceView,
    from: int,
    product: ProductView,
    pane: int,
)
    requires
        workspace_wf(workspace),
        0 <= from < MAX_PANES,
        0 <= pane < MAX_PANES,
    ensures
        ({
            let after = product_applied(workspace, from, product);
            let listed = product_takers(workspace, from, product);
            let before = workspace.panes[pane];
            let grouped = pane == from || (match (
                before.product_link,
                workspace.panes[from].product_link,
            ) {
                (Some(one), Some(other)) => one == other,
                _ => false,
            });
            &&& after.layout == workspace.layout
            &&& after.active_pane == workspace.active_pane
            &&& after.panes.len() == workspace.panes.len()
            &&& grouped ==> after.panes[pane].product == product
            &&& !grouped ==> after.panes[pane].product == before.product
            &&& after.panes[pane].tilt == before.tilt
            &&& after.panes[pane].camera_link == before.camera_link
            &&& after.panes[pane].product_link == before.product_link
            &&& after.panes[pane].tilt_link == before.tilt_link
            &&& listed.contains(pane as usize) <==> after.panes[pane].product != before.product
            &&& listed.no_duplicates()
            &&& forall|i: int, j: int|
                0 <= i < j < listed.len() ==> #[trigger] listed[i] < #[trigger] listed[j]
        }),
{
    let chosen = |one: int| takes_product(workspace, from, one, product);
    lemma_panes_where(MAX_PANES as nat, chosen);
    lemma_panes_where_ascend(MAX_PANES as nat, chosen);
    assert(chosen(pane) == takes_product(workspace, from, pane, product));
}

/// A tilt given to a pane reaches that pane and every pane in its group, and no
/// other; nothing but the tilt of those panes changes. The panes listed are those
/// whose tilt is another than it was, in order and each once.
pub proof fn law_a_tilt_reaches_its_group(
    workspace: WorkspaceView,
    from: int,
    tilt: TiltSelection,
    pane: int,
)
    requires
        workspace_wf(workspace),
        0 <= from < MAX_PANES,
        0 <= pane < MAX_PANES,
    ensures
        ({
            let after = tilt_applied(workspace, from, tilt);
            let listed = tilt_takers(workspace, from, tilt);
            let before = workspace.panes[pane];
            let grouped = pane == from || (match (
                before.tilt_link,
                workspace.panes[from].tilt_link,
            ) {
                (Some(one), Some(other)) => one == other,
                _ => false,
            });
            &&& after.layout == workspace.layout
            &&& after.active_pane == workspace.active_pane
            &&& after.panes.len() == workspace.panes.len()
            &&& grouped ==> after.panes[pane].tilt == tilt
            &&& !grouped ==> after.panes[pane].tilt == before.tilt
            &&& after.panes[pane].product == before.product
            &&& after.panes[pane].camera_link == before.camera_link
            &&& after.panes[pane].product_link == before.product_link
            &&& after.panes[pane].tilt_link == before.tilt_link
            &&& listed.contains(pane as usize) <==> after.panes[pane].tilt != before.tilt
            &&& listed.no_duplicates()
            &&& forall|i: int, j: int|
                0 <= i < j < listed.len() ==> #[trigger] listed[i] < #[trigger] listed[j]
        }),
{
    let chosen = |one: int| takes_tilt(workspace, from, one, tilt);
    lemma_panes_where(MAX_PANES as nat, chosen);
    lemma_panes_where_ascend(MAX_PANES as nat, chosen);
    assert(chosen(pane) == takes_tilt(workspace, from, pane, tilt));
}

/// A layout shows the first panes, one, two or four of them.
pub proof fn law_a_layout_shows_the_first_panes(layout: PaneLayout, pane: usize)
    ensures
        visible_of(layout).len() == (match layout {
            PaneLayout::One => 1nat,
            PaneLayout::TwoVertical => 2nat,
            PaneLayout::TwoHorizontal => 2nat,
            PaneLayout::Four => 4nat,
        }),
        pane < visible_of(layout).len() ==> visible_of(layout)[pane as int] == pane,
        visible_of(layout).contains(pane) <==> pane < visible_of(layout).len(),
{
    let visible = visible_of(layout);
    if pane < visible.len() {
        assert(visible[pane as int] == pane);
    }
}

/// Linking the cameras puts those of the panes on screen in one group and leaves
/// the others as they are; unlinking takes them out; nothing else changes. They
/// count as linked where every one on screen is in that group.
pub proof fn law_camera_links_are_for_the_screen(workspace: WorkspaceView, linked: bool, pane: int)
    requires
        workspace_wf(workspace),
        0 <= pane < MAX_PANES,
    ensures
        ({
            let after = camera_links_set(workspace, linked);
            let count = match workspace.layout {
                PaneLayout::One => 1int,
                PaneLayout::TwoVertical => 2int,
                PaneLayout::TwoHorizontal => 2int,
                PaneLayout::Four => 4int,
            };
            &&& after.layout == workspace.layout
            &&& after.active_pane == workspace.active_pane
            &&& after.panes.len() == workspace.panes.len()
            &&& pane >= count ==> after.panes[pane] == workspace.panes[pane]
            &&& pane < count && linked ==> after.panes[pane].camera_link == Some(0u8)
            &&& pane < count && !linked ==> after.panes[pane].camera_link is None
            &&& after.panes[pane].product == workspace.panes[pane].product
            &&& after.panes[pane].tilt == workspace.panes[pane].tilt
            &&& after.panes[pane].product_link == workspace.panes[pane].product_link
            &&& after.panes[pane].tilt_link == workspace.panes[pane].tilt_link
            &&& cameras_are_linked(workspace) && pane < count
                ==> workspace.panes[pane].camera_link == Some(0u8)
            &&& (forall|one: int|
                0 <= one < count ==> #[trigger] workspace.panes[one].camera_link == Some(0u8))
                ==> cameras_are_linked(workspace)
        }),
{
    let visible = visible_of(workspace.layout);
    assert forall|i: int| 0 <= i < visible.len() implies #[trigger] visible[i] == i by {}
    if pane < visible.len() {
        assert(visible[pane] == pane);
    }
}

} // verus!
