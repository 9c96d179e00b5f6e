use workstation_app::moment::Moment;
use workstation_app::sites::{
    located_site, time_series_site, LocatedSite, PlaceStep, SiteDirectory, Warnings,
    WarningsUpdate,
};

fn site(id: &str, name: Option<&str>, latitude: f64, longitude: f64) -> LocatedSite {
    LocatedSite {
        id: id.to_owned(),
        name: name.map(str::to_owned),
        latitude_bits: latitude.to_bits(),
        longitude_bits: longitude.to_bits(),
    }
}

#[test]
fn the_published_directory_outranks_the_sourced_table() {
    let research = || Some(site("KOUN", None, 35.236058, -97.46235));
    let mut sites = vec![site("KOUN", Some("published"), 41.0, -101.0)];
    let published = time_series_site(&sites, "KOUN", research())
        .expect("both catalogs have KOUN in this test");
    assert_eq!(published.name.as_deref(), Some("published"));
    assert_eq!(f64::from_bits(published.latitude_bits), 41.0);
    assert_eq!(f64::from_bits(published.longitude_bits), -101.0);

    // Take the directory away and the sourced table answers instead.
    sites.clear();
    let sourced =
        time_series_site(&sites, "KOUN", research()).expect("the sourced table has KOUN");
    assert_eq!(f64::from_bits(sourced.latitude_bits), 35.236058);
    assert_eq!(f64::from_bits(sourced.longitude_bits), -97.46235);

    // A site in neither is still refused, which is the behaviour this whole path
    // is built around and the one the fallback must not cost.
    assert!(time_series_site(&sites, "ZQZQ", None).is_none());
    assert!(time_series_site(&sites, "NOXP", None).is_none());
}

#[test]
fn a_radar_is_found_whatever_the_case_of_its_letters() {
    let sites = vec![site("KTLX", None, 1.0, 2.0), site("KOAX", None, 3.0, 4.0)];
    assert_eq!(located_site(&sites, "koax").unwrap().id, "KOAX");
    assert!(located_site(&sites, "KOA").is_none());
}

#[test]
fn markers_are_placed_once_for_each_projection() {
    let mut known = SiteDirectory::new();
    assert_eq!(known.refresh_placed_sites(false, Some(1)), PlaceStep::Keep);
    assert_eq!(known.refresh_placed_sites(true, None), PlaceStep::Keep);
    assert_eq!(known.refresh_placed_sites(true, Some(1)), PlaceStep::Place);
    known.note_placed_sites(3);
    assert_eq!(known.placed_for, Some(1));
    assert_eq!(known.refresh_placed_sites(true, Some(1)), PlaceStep::Keep);
    assert_eq!(known.refresh_placed_sites(true, Some(2)), PlaceStep::Place);
    assert_eq!(known.refresh_placed_sites(true, Some(2)), PlaceStep::Keep);
    // Taken off, they come back at once when they are switched on again.
    assert_eq!(known.refresh_placed_sites(false, Some(2)), PlaceStep::Drop);
    assert_eq!((known.placed, known.placed_for), (0, None));
    assert_eq!(known.refresh_placed_sites(false, Some(2)), PlaceStep::Keep);
    assert_eq!(known.refresh_placed_sites(true, Some(2)), PlaceStep::Place);
    known.forget_placing();
    assert_eq!(known.refresh_placed_sites(true, Some(2)), PlaceStep::Place);
}

#[test]
fn warnings_are_placed_again_for_the_hour_they_are_read_at() {
    let now = Moment::new(1_787_156_686, 999_999_999).unwrap();
    let mut warnings = Warnings::new("live".to_owned());
    assert_eq!(warnings.refresh_placed_hazards(true, None, 0, &now).0, PlaceStep::Keep);
    let (step, when) = warnings.refresh_placed_hazards(true, Some(1), 1_000, &now);
    assert_eq!(step, PlaceStep::Place);
    assert_eq!(when.as_deref(), Some("2026-08-19T16:24:46Z"));
    warnings.note_placed_hazards(2);
    let (step, when) = warnings.refresh_placed_hazards(true, Some(1), 30_999, &now);
    assert_eq!(step, PlaceStep::Keep);
    assert_eq!(when, None);
    assert_eq!(warnings.refresh_placed_hazards(true, Some(1), 31_000, &now).0, PlaceStep::Place);
    assert_eq!(warnings.placed_at_ms, Some(31_000));
    assert_eq!(warnings.refresh_placed_hazards(true, Some(2), 31_001, &now).0, PlaceStep::Place);
    assert_eq!(warnings.placed_for, Some(2));
    // A clock that reads earlier makes nothing stale.
    assert_eq!(warnings.refresh_placed_hazards(true, Some(2), 5, &now).0, PlaceStep::Keep);
    assert_eq!(warnings.refresh_placed_hazards(false, Some(2), 31_002, &now).0, PlaceStep::Drop);
    assert_eq!((warnings.placed, warnings.placed_at_ms), (0, None));
    assert_eq!(warnings.refresh_placed_hazards(true, Some(2), 31_003, &now).0, PlaceStep::Place);
}

#[test]
fn a_directory_that_arrives_has_the_markers_placed_anew() {
    let mut known = SiteDirectory::new();
    assert!(!known.poll_site_directory(None));
    known.placed_for = Some(7);
    assert!(!known.poll_site_directory(None));
    assert_eq!(known.placed_for, Some(7));
    assert!(known.poll_site_directory(Some(vec![site("KTLX", None, 1.0, 2.0)])));
    assert_eq!(known.placed_for, None);
    assert!(known.poll_site_directory(Some(vec![site("KOAX", None, 3.0, 4.0)])));
    assert_eq!(known.sites.len(), 1);
    assert_eq!(known.sites[0].id, "KOAX");
    assert_eq!(known.refresh_placed_sites(true, Some(7)), PlaceStep::Place);
}

#[test]
fn a_failed_poll_leaves_the_warnings_alone() {
    let mut warnings = Warnings::new("unknown".to_owned());
    warnings.poll_warnings(WarningsUpdate {
        state: "live".to_owned(),
        records: Some(vec![3, 5]),
    });
    assert_eq!(warnings.state, "live");
    assert_eq!(warnings.records, [3, 5]);
    warnings.placed_at_ms = Some(100);
    warnings.poll_warnings(WarningsUpdate { state: "offline".to_owned(), records: None });
    assert_eq!(warnings.state, "offline");
    assert_eq!(warnings.records, [3, 5]);
    assert_eq!(warnings.placed_at_ms, Some(100));
    // No warning in force is an answer too.
    warnings.poll_warnings(WarningsUpdate { state: "live".to_owned(), records: Some(vec![]) });
    assert!(warnings.records.is_empty());
    assert_eq!(warnings.placed_at_ms, None);
}
