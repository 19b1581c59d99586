use claude_config_manager::file_ops::{
    ReadError, Removal, check_readable, parent_directory, removal,
};
use claude_config_manager::listing::{
    ListingError, list_directory, list_directory_queries, sort_keyed_entries,
};
use claude_config_manager::ordering::{KeyedEntry, item_precedes, text_precedes};
use claude_config_manager::platform::Platform;
use claude_config_manager::snapshot::{DirectoryEntry, Listing, PathStatus, Query, Snapshot};

fn entry(name: &str, is_directory: bool) -> DirectoryEntry {
    DirectoryEntry { name: name.to_string(), path: format!("/d/{}", name), is_directory }
}

fn keyed(name: &str, key: &str, is_directory: bool) -> KeyedEntry {
    KeyedEntry { entry: entry(name, is_directory), key: key.chars().collect() }
}

fn chars(text: &str) -> Vec<char> {
    text.chars().collect()
}

fn names(entries: &[DirectoryEntry]) -> Vec<&str> {
    entries.iter().map(|e| e.name.as_str()).collect()
}

fn listed(entries: Vec<DirectoryEntry>) -> Vec<String> {
    let mut snapshot = Snapshot::new();
    snapshot.record_listing("/d", Listing::Entries(entries));
    list_directory("/d", &snapshot).unwrap().into_iter().map(|e| e.name).collect()
}

#[test]
fn text_order_goes_character_by_character() {
    assert!(text_precedes(&chars("a"), &chars("b")));
    assert!(!text_precedes(&chars("b"), &chars("a")));
    assert!(!text_precedes(&chars("a"), &chars("a")));
    assert!(text_precedes(&chars(""), &chars("a")));
    assert!(!text_precedes(&chars("a"), &chars("")));
    assert!(!text_precedes(&chars(""), &chars("")));
    assert!(text_precedes(&chars("ab"), &chars("abc")));
    assert!(!text_precedes(&chars("abc"), &chars("ab")));
    assert!(text_precedes(&chars("abc"), &chars("abd")));
    assert!(text_precedes(&chars("B"), &chars("a")));
    assert!(text_precedes(&chars("z"), &chars("\u{e9}")));
    assert!(text_precedes(&chars("\u{e9}"), &chars("\u{1f600}")));
}

#[test]
fn directories_are_shown_before_files() {
    assert!(item_precedes(&keyed("z", "z", true), &keyed("a", "a", false)));
    assert!(!item_precedes(&keyed("a", "a", false), &keyed("z", "z", true)));
    assert!(item_precedes(&keyed("a", "a", true), &keyed("b", "b", true)));
    assert!(!item_precedes(&keyed("a", "a", true), &keyed("A", "a", true)));
}

#[test]
fn directory_listing_is_shown_in_order() {
    assert_eq!(
        listed(vec![entry("b.txt", false), entry("A", true), entry("a.txt", false)]),
        vec!["A", "a.txt", "b.txt"]
    );
}

#[test]
fn listing_ignores_case_within_a_group() {
    assert_eq!(
        listed(vec![
            entry("b.txt", false),
            entry("C.txt", false),
            entry("a.txt", false),
            entry("zeta", true),
            entry("Beta", true),
            entry("alpha", true),
        ]),
        vec!["alpha", "Beta", "zeta", "a.txt", "b.txt", "C.txt"]
    );
    // by raw characters the capital would come first
    assert_eq!(listed(vec![entry("a.txt", false), entry("B.txt", false)]), vec!["a.txt", "B.txt"]);
    assert_eq!(listed(vec![entry("B.txt", false), entry("a.txt", false)]), vec!["a.txt", "B.txt"]);
}

#[test]
fn names_that_differ_only_in_case_keep_their_order() {
    assert_eq!(
        listed(vec![entry("readme", false), entry("README", false), entry("ReadMe", false)]),
        vec!["readme", "README", "ReadMe"]
    );
    assert_eq!(
        listed(vec![entry("README", false), entry("ReadMe", false), entry("readme", false)]),
        vec!["README", "ReadMe", "readme"]
    );
}

#[test]
fn listing_keeps_every_entry() {
    let shown = listed(vec![
        entry("x", false),
        entry("x", false),
        entry("d", true),
        entry("", false),
        entry("d", true),
    ]);
    assert_eq!(shown, vec!["d", "d", "", "x", "x"]);
    assert!(listed(vec![]).is_empty());
}

#[test]
fn listing_keeps_paths_with_their_names() {
    let mut snapshot = Snapshot::new();
    snapshot.record_listing("/d", Listing::Entries(vec![entry("b", false), entry("a", true)]));
    let shown = list_directory("/d", &snapshot).unwrap();
    assert_eq!(names(&shown), vec!["a", "b"]);
    assert_eq!(shown[0].path, "/d/a");
    assert!(shown[0].is_directory);
    assert_eq!(shown[1].path, "/d/b");
    assert!(!shown[1].is_directory);
}

#[test]
fn sorting_goes_by_the_keys_given() {
    let sorted = sort_keyed_entries(vec![
        keyed("one", "3", false),
        keyed("two", "1", false),
        keyed("three", "2", true),
        keyed("four", "1", false),
    ]);
    let order: Vec<&str> = sorted.iter().map(|k| k.entry.name.as_str()).collect();
    assert_eq!(order, vec!["three", "two", "four", "one"]);
    assert!(sort_keyed_entries(vec![]).is_empty());
}

#[test]
fn listing_fails_where_the_snapshot_has_none() {
    let mut snapshot = Snapshot::new();
    assert_eq!(list_directory("/d", &snapshot).unwrap_err(), ListingError::NotObserved);
    let queries = list_directory_queries("/d", &snapshot);
    assert_eq!(queries.len(), 1);
    assert!(matches!(&queries[0], Query::Listing(path) if path == "/d"));

    snapshot.record_listing("/d", Listing::Unreadable);
    assert_eq!(list_directory("/d", &snapshot).unwrap_err(), ListingError::Unreadable);
    assert!(list_directory_queries("/d", &snapshot).is_empty());
}

#[test]
fn directory_cannot_be_read_as_a_file() {
    let mut snapshot = Snapshot::new();
    snapshot.record_status("/dir", PathStatus::Directory);
    snapshot.record_status("/file", PathStatus::File);
    snapshot.record_status("/gone", PathStatus::Missing);
    assert_eq!(check_readable("/dir", &snapshot), Err(ReadError::IsDirectory));
    assert_eq!(check_readable("/file", &snapshot), Ok(()));
    assert_eq!(check_readable("/gone", &snapshot), Ok(()));
    assert_eq!(check_readable("/unknown", &snapshot), Ok(()));
    assert_eq!(ReadError::IsDirectory.message(), "path is a directory");
}

#[test]
fn removal_follows_what_was_found() {
    let mut snapshot = Snapshot::new();
    snapshot.record_status("/dir", PathStatus::Directory);
    snapshot.record_status("/file", PathStatus::File);
    snapshot.record_status("/gone", PathStatus::Missing);
    assert_eq!(removal("/dir", &snapshot), Removal::Tree);
    assert_eq!(removal("/file", &snapshot), Removal::File);
    assert_eq!(removal("/gone", &snapshot), Removal::Nothing);
    assert_eq!(removal("/unknown", &snapshot), Removal::Nothing);
}

#[test]
fn parent_directory_is_what_stands_before_the_last_separator() {
    assert_eq!(parent_directory("/a/b/c.txt", Platform::Other), Some("/a/b".to_string()));
    assert_eq!(parent_directory("/c.txt", Platform::Other), Some("/".to_string()));
    assert_eq!(parent_directory("a/c.txt", Platform::Other), Some("a".to_string()));
    assert_eq!(parent_directory("c.txt", Platform::Other), None);
    assert_eq!(parent_directory("", Platform::Other), None);
    assert_eq!(parent_directory("/", Platform::Other), Some("/".to_string()));
    assert_eq!(parent_directory("C:\\a\\c.txt", Platform::Other), None);
    assert_eq!(parent_directory("C:\\a\\c.txt", Platform::Windows), Some("C:\\a".to_string()));
    assert_eq!(parent_directory("C:\\a/c.txt", Platform::Windows), Some("C:\\a".to_string()));
}
