use workstation_app::paths::{
    file_name, is_same_path, name_text, ordered_unique_paths, short_path_label,
};

#[test]
fn file_playlist_input_is_filename_ordered_and_exact_duplicates_are_removed() {
    let ordered = ordered_unique_paths(vec![
        "C:/case/KTLX_003".to_owned(),
        "C:/case/KTLX_001".to_owned(),
        "C:/case/KTLX_002".to_owned(),
        "C:/case/KTLX_001".to_owned(),
    ]);
    assert_eq!(
        ordered,
        ["KTLX_001", "KTLX_002", "KTLX_003"]
            .into_iter()
            .map(|name| format!("C:/case/{name}"))
            .collect::<Vec<_>>()
    );
}

#[test]
fn names_are_ordered_without_regard_to_case_and_paths_part_equal_names() {
    let ordered = ordered_unique_paths(vec![
        "b/SAME".to_owned(),
        "z/alpha".to_owned(),
        "a/same".to_owned(),
        "a/same".to_owned(),
        "y/ALPHA".to_owned(),
    ]);
    assert_eq!(ordered, ["y/ALPHA", "z/alpha", "a/same", "b/SAME"]);
    assert!(ordered_unique_paths(vec![]).is_empty());
}

#[test]
fn a_short_name_is_its_own_label() {
    assert_eq!(short_path_label("C:/case/KTLX_003"), "KTLX_003");
    assert_eq!(file_name("C:/case/KTLX_003").as_deref(), Some("KTLX_003"));
    assert_eq!(file_name("/"), None);
    assert_eq!(name_text("dir/KTLX"), "KTLX");
}

#[test]
fn a_long_name_is_cut_to_its_label() {
    let label = short_path_label(&format!("dir/{}tail", "a".repeat(60)));
    assert_eq!(label, format!("{}\u{2026}", "a".repeat(55)));
    let exact = "b".repeat(56);
    assert_eq!(short_path_label(&exact), exact);
}

#[test]
fn a_path_is_the_same_however_its_separators_are_written() {
    assert!(is_same_path("a/b", "a//b"));
    assert!(is_same_path("a/b", "a/./b/"));
    assert!(is_same_path("a/b/.", "a/b"));
    assert!(is_same_path("/", "//."));
    assert!(is_same_path("/a", "/./a"));
    assert!(is_same_path("./", "."));
    assert!(is_same_path("././a", "./a"));
    assert!(is_same_path("", ""));
    assert!(!is_same_path("./a", "a"));
    assert!(!is_same_path("/a", "a"));
    assert!(!is_same_path("", "."));
    assert!(!is_same_path("a/../b", "b"));
    assert!(!is_same_path("a/b", "a/B"));
    assert!(!is_same_path("a", "a/a"));
    for left in ["a/b", "a//b", "./a", "a", "/a", "//a/.", "", ".", "./.", "/", "..", "a/..", "../"] {
        for right in ["a/b", "a/b/", "./a", "a/", "/a", "", ".", "./", "//", "..", "a//..", "b"] {
            assert_eq!(
                is_same_path(left, right),
                std::path::Path::new(left) == std::path::Path::new(right),
                "{left:?} and {right:?}"
            );
        }
    }
}

#[test]
fn the_first_of_paths_that_are_the_same_is_kept() {
    let list = |paths: &[&str]| -> Vec<String> {
        ordered_unique_paths(paths.iter().map(|path| (*path).to_owned()).collect())
    };
    assert_eq!(list(&["a/b", "a//b"]), ["a//b"]);
    assert_eq!(list(&["a/b", "a/b/", "a/./b"]), ["a/./b"]);
    // What stands between them in order keeps them apart.
    assert_eq!(list(&["a/b", "a/0/b", "a//b"]), ["a//b", "a/0/b", "a/b"]);
}
