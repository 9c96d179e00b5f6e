use workstation_app::catalog::{
    full_registry, ANALYSIS, ANNOTATION, APPEARANCE, APPEARANCE_TOOLBAR, DATA, MAP, NAVIGATION,
    NETWORK, OBSERVATIONS, PROFILES, RADAR, TIMESERIES, UNITS, VOL3D, XSECTION,
};
use workstation_app::theme;

#[test]
fn the_appearance_page_is_one_page_declared_in_two_files() {
    assert_eq!(theme::CATEGORY, APPEARANCE);
    let registry = full_registry(theme::settings_category());
    let appearance = registry
        .categories()
        .iter()
        .filter(|category| category.id == theme::CATEGORY)
        .collect::<Vec<_>>();
    assert_eq!(appearance.len(), 1, "the page split into two");
    let ids = appearance[0]
        .settings
        .iter()
        .map(|spec| spec.id.as_str())
        .collect::<Vec<_>>();
    assert_eq!(
        ids,
        vec![
            theme::THEME,
            theme::ACCENT,
            theme::CHROME_EDGES,
            theme::DENSITY,
            theme::UI_SCALE,
            APPEARANCE_TOOLBAR,
        ],
        "the look, then the size, then the layout"
    );
    assert_eq!(
        registry.categories().first().map(|category| category.id.as_str()),
        Some(theme::CATEGORY),
        "Appearance is the first page in the category list"
    );
}

#[test]
fn the_application_registry_is_the_appearance_page_and_the_whole_catalog() {
    let registry = full_registry(theme::settings_category());
    let ids = registry
        .categories()
        .iter()
        .map(|category| category.id.as_str())
        .collect::<Vec<_>>();
    assert_eq!(
        ids,
        vec![
            // Theme settings and catalog settings share this page.
            theme::CATEGORY,
            MAP,
            OBSERVATIONS,
            RADAR,
            NAVIGATION,
            VOL3D,
            ANALYSIS,
            DATA,
            // The four operational settings pages...
            UNITS,
            NETWORK,
            ANNOTATION,
            XSECTION,
            // The Level 1 page, which arrived with the time-series reader.
            TIMESERIES,
            // ...and the page about all the other pages, last.
            PROFILES,
        ],
        "the category list is the window's left column, in registration order"
    );
    // Every page carries rows. A page registered empty is a page that
    // reads as present and does nothing.
    for category in registry.categories() {
        assert!(
            !category.settings.is_empty(),
            "the {} page is registered with no rows",
            category.id
        );
    }
}
