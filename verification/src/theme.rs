//! The look: its axes, and the settings page they are declared on.

use crate::catalog::declare;
use crate::registry::SettingsCategory;
use vstd::prelude::*;

verus! {

use crate::registry::PageView;

pub const CATEGORY: &'static str = "appearance";

pub const THEME: &'static str = "theme";

pub const ACCENT: &'static str = "accent";

pub const CHROME_EDGES: &'static str = "chrome_edges";

pub const DENSITY: &'static str = "density";

pub const UI_SCALE: &'static str = "ui_scale";

/// The page of the look's five axes.
pub open spec fn look_page() -> PageView {
    PageView { id: CATEGORY@, rows: seq![THEME@, ACCENT@, CHROME_EDGES@, DENSITY@, UI_SCALE@] }
}

/// The page of the look's five axes: the look, then the size.
pub fn settings_category() -> (page: SettingsCategory)
    ensures
        page@ == look_page(),
{
    let page = declare(CATEGORY, vec![THEME, ACCENT, CHROME_EDGES, DENSITY, UI_SCALE]);
    assert(page@.rows =~= look_page().rows);
    page
}

/// Whether a changed setting is one of the look's axes, so that the look is
/// installed again.
pub fn restyles(category: &str, id: &str) -> (yes: bool)
    ensures
        yes == (category@ == CATEGORY@ && (id@ == THEME@ || id@ == ACCENT@ || id@ == CHROME_EDGES@
            || id@ == DENSITY@ || id@ == UI_SCALE@)),
{
    crate::text::same_text(category, CATEGORY) && (crate::text::same_text(id, THEME)
        || crate::text::same_text(id, ACCENT) || crate::text::same_text(id, CHROME_EDGES)
        || crate::text::same_text(id, DENSITY) || crate::text::same_text(id, UI_SCALE))
}

} // verus!
