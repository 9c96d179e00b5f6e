use workstation_app::placefile::{
    dropped_path_is_placefile, placefile_by_name, placefile_chosen_line, placefiles_added_line,
    reads_as_placefile_header, row_label, EntryKind, ListedEntry, NameVerdict, PlacefileBrowser,
};
use workstation_app::windows::{split_dropped_files, DroppedFile};

fn entry(name: &str, kind: EntryKind) -> ListedEntry {
    ListedEntry { path: format!("dir/{name}"), name: name.to_owned(), kind }
}

#[test]
fn the_browser_lists_folders_first_and_then_names_without_regard_to_case() {
    let browser = PlacefileBrowser::open(
        "dir".to_owned(),
        Ok(vec![
            entry("b.txt", EntryKind::File),
            entry("zeta", EntryKind::Directory),
            entry("A.pf", EntryKind::File),
            entry("socket", EntryKind::Other),
            entry("Alpha", EntryKind::Directory),
        ]),
    );
    let labels: Vec<_> = browser.entries.iter().map(row_label).collect();
    assert!(labels[0].contains("Alpha") && labels[1].contains("zeta"), "{labels:?}");
    let names: Vec<_> = browser.entries.iter().map(|one| one.name.as_str()).collect();
    assert_eq!(names, ["Alpha", "zeta", "A.pf", "b.txt"]);
    assert_eq!(browser.directory_text, "dir");
    assert_eq!(browser.error, None);
}

#[test]
fn a_row_that_was_read_twice_is_listed_twice() {
    let browser = PlacefileBrowser::open(
        "dir".to_owned(),
        Ok(vec![
            entry("b", EntryKind::File),
            entry("a", EntryKind::File),
            entry("b", EntryKind::File),
        ]),
    );
    let names: Vec<_> = browser.entries.iter().map(|one| one.name.as_str()).collect();
    assert_eq!(names, ["a", "b", "b"]);
}

#[test]
fn a_folder_that_cannot_be_read_says_so_and_the_next_one_clears_it() {
    let mut browser = PlacefileBrowser::open("gone".to_owned(), Err("not found".to_owned()));
    assert!(browser.entries.is_empty());
    assert!(browser.error.as_deref().unwrap().contains("not found"));
    browser.change_directory("dir".to_owned(), Ok(vec![entry("a.pf", EntryKind::File)]));
    assert_eq!(browser.directory, "dir");
    assert_eq!(browser.entries.len(), 1);
    assert_eq!(browser.error, None);
    browser.reload(Ok(vec![]));
    assert!(browser.entries.is_empty());
}

#[test]
fn a_placefile_is_known_by_its_name_or_by_two_directives() {
    assert_eq!(placefile_by_name("x/a.PF"), NameVerdict::Placefile);
    assert_eq!(placefile_by_name("x/a.placefile"), NameVerdict::Placefile);
    assert_eq!(placefile_by_name("x/a.nc"), NameVerdict::Something);
    assert_eq!(placefile_by_name("x/a.txt"), NameVerdict::Unsaid);
    assert_eq!(placefile_by_name("x.d/feed"), NameVerdict::Unsaid);
    assert_eq!(placefile_by_name("x/.hidden"), NameVerdict::Unsaid);

    let header = |text: &str| text.as_bytes().to_vec();
    assert!(reads_as_placefile_header(&header("Title: Storms\r\nREFRESH : 5\n")));
    assert!(reads_as_placefile_header(&header("\u{feff}Title: a\n\u{feff}\u{feff} Icon: 1,2\n")));
    assert!(!reads_as_placefile_header(&header("Title: Storms\nnothing else\n")));
    assert!(!reads_as_placefile_header(&header("Title; Storms\nRefresh; 5\n")));
    assert!(!reads_as_placefile_header(&header("")));
    // Not text at all, although the directives are there.
    let mut broken = header("Title: Storms\nRefresh: 5\n");
    broken.push(0xff);
    assert!(!reads_as_placefile_header(&broken));

    let two = Some(header("Title: Storms\nRefresh: 5"));
    assert!(dropped_path_is_placefile("x/feed", &two));
    assert!(dropped_path_is_placefile("x/feed.txt", &two));
    assert!(!dropped_path_is_placefile("x/feed.txt", &None));
    assert!(!dropped_path_is_placefile("x/feed.nc", &two));
    assert!(dropped_path_is_placefile("x/feed.pf", &None));
}

#[test]
fn a_drop_is_split_into_overlays_and_volumes() {
    let (overlays, volumes) = split_dropped_files(vec![
        DroppedFile { path: "a.pf".to_owned(), header: None },
        DroppedFile { path: "KTLX_V06".to_owned(), header: Some(vec![0x41, 0x52]) },
        DroppedFile {
            path: "feed.txt".to_owned(),
            header: Some(b"Title: a\nColor: 1 2 3\n".to_vec()),
        },
        DroppedFile { path: "b.nc".to_owned(), header: None },
    ]);
    assert_eq!(overlays, ["a.pf", "feed.txt"]);
    assert_eq!(volumes, ["KTLX_V06", "b.nc"]);
}

#[test]
fn what_was_added_is_told() {
    assert_eq!(placefiles_added_line(0), None);
    assert!(placefiles_added_line(1).unwrap().contains('1'));
    assert!(placefiles_added_line(3).unwrap().contains('3'));
    assert!(placefile_chosen_line("x/a.pf", true).contains("a.pf"));
    assert_ne!(placefile_chosen_line("x/a.pf", true), placefile_chosen_line("x/a.pf", false));
}
