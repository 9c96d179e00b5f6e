//! What settings exist: pages, in the order the settings window lists them,
//! and the rows of each page.

use crate::text::same_text;
use vstd::prelude::*;

verus! {

/// One declared setting.
pub struct SettingSpec {
    pub id: String,
}

/// One settings page.
pub struct SettingsCategory {
    pub id: String,
    pub settings: Vec<SettingSpec>,
}

/// A page as contracts see it: its id and the ids of its rows.
pub ghost struct PageView {
    pub id: Seq<char>,
    pub rows: Seq<Seq<char>>,
}

impl View for SettingsCategory {
    type V = PageView;

    open spec fn view(&self) -> PageView {
        PageView { id: self.id@, rows: self.settings@.map_values(|spec: SettingSpec| spec.id@) }
    }
}

/// Every page, in registration order.
pub struct SettingsRegistry {
    pages: Vec<SettingsCategory>,
}

impl View for SettingsRegistry {
    type V = Seq<PageView>;

    closed spec fn view(&self) -> Seq<PageView> {
        self.pages@.map_values(|page: SettingsCategory| page@)
    }
}

/// The place of the first page called `id`, or the number of pages where none
/// is.
pub open spec fn page_index(pages: Seq<PageView>, id: Seq<char>) -> int
    decreases pages.len(),
{
    if pages.len() == 0 || pages[0].id == id {
        0
    } else {
        1 + page_index(pages.subrange(1, pages.len() as int), id)
    }
}

/// `pages` with `page` declared as well: its rows behind those of the page of
/// that id, or as a new page behind the others.
pub open spec fn with_page(pages: Seq<PageView>, page: PageView) -> Seq<PageView> {
    let at = page_index(pages, page.id);
    if at < pages.len() {
        pages.update(at, PageView { id: page.id, rows: pages[at].rows + page.rows })
    } else {
        pages.push(page)
    }
}

/// `pages` with each page of `more` declared as well, in order.
pub open spec fn with_pages(pages: Seq<PageView>, more: Seq<PageView>) -> Seq<PageView>
    decreases more.len(),
{
    if more.len() == 0 {
        pages
    } else {
        with_page(with_pages(pages, more.drop_last()), more.last())
    }
}

/// No two pages go by one id.
pub open spec fn ids_are_distinct(pages: Seq<PageView>) -> bool {
    forall|i: int, j: int|
        0 <= i < j < pages.len() ==> (#[trigger] pages[i]).id != (#[trigger] pages[j]).id
}

/// What [`page_index`] finds, said of every page before it.
pub proof fn lemma_page_index(pages: Seq<PageView>, id: Seq<char>)
    ensures
        0 <= page_index(pages, id) <= pages.len(),
        page_index(pages, id) < pages.len() ==> pages[page_index(pages, id)].id == id,
        forall|i: int| 0 <= i < page_index(pages, id) ==> (#[trigger] pages[i]).id != id,
    decreases pages.len(),
{
    if pages.len() > 0 && pages[0].id != id {
        let rest = pages.subrange(1, pages.len() as int);
        lemma_page_index(rest, id);
        assert forall|i: int| 0 <= i < page_index(pages, id) implies (#[trigger] pages[i]).id
            != id by {
            if i > 0 {
                assert(rest[i - 1] == pages[i]);
            }
        }
    }
}

/// The first page called `id` is where [`page_index`] says.
pub proof fn lemma_page_index_is(pages: Seq<PageView>, id: Seq<char>, at: int)
    requires
        0 <= at <= pages.len(),
        at < pages.len() ==> pages[at].id == id,
        forall|i: int| 0 <= i < at ==> (#[trigger] pages[i]).id != id,
    ensures
        page_index(pages, id) == at,
{
    lemma_page_index(pages, id);
    let found = page_index(pages, id);
    if found < at {
        assert(pages[found].id != id);
    }
    if at < found {
        assert(pages[at].id != id);
    }
}

/// Declaring a page never splits one: pages stay one to an id.
pub proof fn law_declaring_never_splits_a_page(pages: Seq<PageView>, page: PageView)
    requires
        ids_are_distinct(pages),
    ensures
        ids_are_distinct(with_page(pages, page)),
{
    lemma_page_index(pages, page.id);
    let at = page_index(pages, page.id);
    let next = with_page(pages, page);
    assert forall|i: int, j: int| 0 <= i < j < next.len() implies (#[trigger] next[i]).id != (
    #[trigger] next[j]).id by {
        if at < pages.len() {
            assert(next[i].id == pages[i].id);
            assert(next[j].id == pages[j].id);
        } else {
            assert(next[i] == pages[i]);
            if j < pages.len() {
                assert(next[j] == pages[j]);
            }
        }
    }
}

/// Declaring a page loses no row: every row of every page, and every row of the
/// page that is declared, is on the page of its id afterwards.
pub proof fn law_declaring_keeps_every_row(
    pages: Seq<PageView>,
    page: PageView,
    kept: int,
    row: Seq<char>,
)
    requires
        0 <= kept < pages.len(),
        pages[kept].rows.contains(row),
    ensures
        with_page(pages, page)[kept].id == pages[kept].id,
        with_page(pages, page)[kept].rows.contains(row),
        forall|added: Seq<char>|
            page.rows.contains(added) ==> with_page(pages, page)[page_index(
                pages,
                page.id,
            )].rows.contains(added),
{
    lemma_page_index(pages, page.id);
    let at = page_index(pages, page.id);
    let next = with_page(pages, page);
    let k = choose|k: int| 0 <= k < pages[kept].rows.len() && pages[kept].rows[k] == row;
    assert(next[kept].rows[k] == row);
    assert forall|added: Seq<char>| page.rows.contains(added) implies next[at].rows.contains(
        added,
    ) by {
        let m = choose|m: int| 0 <= m < page.rows.len() && page.rows[m] == added;
        if at < pages.len() {
            assert(next[at].rows[pages[at].rows.len() + m] == added);
        } else {
            assert(next[at].rows[m] == added);
        }
    }
}

impl SettingsRegistry {
    /// A registry with no pages.
    pub fn new() -> (registry: Self)
        ensures
            registry@ == Seq::<PageView>::empty(),
    {
        let registry = SettingsRegistry { pages: Vec::new() };
        assert(registry@ =~= Seq::<PageView>::empty());
        registry
    }

    /// Every page, in registration order.
    pub fn categories(&self) -> (pages: &Vec<SettingsCategory>)
        ensures
            pages@.map_values(|page: SettingsCategory| page@) == self@,
    {
        &self.pages
    }

    /// Declares a page, or adds to the page of that id.
    pub fn register(&mut self, page: SettingsCategory)
        ensures
            final(self)@ == with_page(old(self)@, page@),
    {
        let ghost before = self@;
        let mut at: usize = 0;
        while at < self.pages.len() && !same_text(self.pages[at].id.as_str(), page.id.as_str())
            invariant
                at <= self.pages@.len(),
                self@ == before,
                before == old(self)@,
                forall|i: int| 0 <= i < at ==> (#[trigger] before[i]).id != page@.id,
            decreases self.pages@.len() - at,
        {
            assert(before[at as int] == self.pages@[at as int]@);
            at = at + 1;
        }
        proof {
            if at < self.pages@.len() {
                assert(before[at as int] == self.pages@[at as int]@);
            }
            lemma_page_index_is(before, page@.id, at as int);
        }
        if at < self.pages.len() {
            let mut target = self.pages.remove(at);
            let ghost rows = target@.rows;
            let mut rest = page.settings;
            let ghost added = page@.rows;
            target.settings.append(&mut rest);
            assert(target@.rows =~= rows + added);
            self.pages.insert(at, target);
            assert(self@ =~= with_page(before, page@));
        } else {
            self.pages.push(page);
            assert(self@ =~= with_page(before, page@));
        }
    }
}

/// What declaring a page does: where a page of that name is known its rows stand
/// behind those it has, and every other page stays where and as it is; else it is
/// the last page.
pub proof fn law_where_a_page_is_declared(pages: Seq<PageView>, page: PageView, other: int)
    requires
        0 <= other < pages.len(),
        ids_are_distinct(pages),
    ensures
        ({
            let after = with_page(pages, page);
            let known = exists|i: int| 0 <= i < pages.len() && (#[trigger] pages[i]).id == page.id;
            &&& pages[other].id == page.id ==> after.len() == pages.len() && after[other].id
                == page.id && after[other].rows == pages[other].rows + page.rows
            &&& pages[other].id != page.id ==> after[other] == pages[other]
            &&& known ==> after.len() == pages.len()
            &&& !known ==> after == pages.push(page)
        }),
{
    lemma_page_index(pages, page.id);
    let at = page_index(pages, page.id);
    if at < pages.len() {
        assert(pages[at].id == page.id);
        if pages[other].id == page.id && other != at {
            if other < at {
                assert(pages[other].id != pages[at].id);
            } else {
                assert(pages[at].id != pages[other].id);
            }
        }
    } else {
        assert(pages[other].id != page.id);
    }
}

/// Declaring pages one after the other is declaring them all.
pub proof fn law_pages_are_declared_one_by_one(
    pages: Seq<PageView>,
    more: Seq<PageView>,
    page: PageView,
)
    ensures
        with_pages(pages, Seq::empty()) == pages,
        with_pages(pages, more.push(page)) == with_page(with_pages(pages, more), page),
{
    assert(more.push(page).drop_last() =~= more);
}

} // verus!
