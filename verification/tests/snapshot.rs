use claude_config_manager::path_info::{file_exists, get_path_info, path_info_queries};
use claude_config_manager::platform::Platform;
use claude_config_manager::snapshot::{DirectoryEntry, Listing, PathStatus, Query, Snapshot};

fn entry(name: &str, path: &str, is_directory: bool) -> DirectoryEntry {
    DirectoryEntry { name: name.to_string(), path: path.to_string(), is_directory }
}

#[test]
fn empty_snapshot_knows_nothing() {
    let snapshot = Snapshot::new();
    assert!(!snapshot.knows_status("/a"));
    assert!(!snapshot.knows_listing("/a"));
    assert_eq!(snapshot.status("/a"), PathStatus::Missing);
    assert!(!snapshot.is_present("/a"));
    assert!(!snapshot.is_directory("/a"));
    assert!(snapshot.entries("/a").is_none());
    assert!(snapshot.listing("/a").is_none());
}

#[test]
fn recorded_status_is_read_back() {
    let mut snapshot = Snapshot::new();
    snapshot.record_status("/a", PathStatus::File);
    snapshot.record_status("/d", PathStatus::Directory);
    snapshot.record_status("/gone", PathStatus::Missing);
    assert_eq!(snapshot.status("/a"), PathStatus::File);
    assert!(snapshot.is_present("/a"));
    assert!(!snapshot.is_directory("/a"));
    assert!(snapshot.is_directory("/d"));
    assert!(snapshot.is_present("/d"));
    assert!(snapshot.knows_status("/gone"));
    assert!(!snapshot.is_present("/gone"));
    assert!(!snapshot.knows_status("/other"));
}

#[test]
fn later_record_replaces_earlier() {
    let mut snapshot = Snapshot::new();
    snapshot.record_status("/a", PathStatus::File);
    snapshot.record_status("/a", PathStatus::Directory);
    assert_eq!(snapshot.status("/a"), PathStatus::Directory);
    snapshot.record_listing("/a", Listing::Unreadable);
    assert!(snapshot.knows_listing("/a"));
    assert!(snapshot.entries("/a").is_none());
    snapshot.record_listing("/a", Listing::Entries(vec![entry("x", "/a/x", false)]));
    let entries = snapshot.entries("/a").unwrap();
    assert_eq!(entries.len(), 1);
    assert_eq!(entries[0].name, "x");
    assert_eq!(entries[0].path, "/a/x");
    assert!(!entries[0].is_directory);
}

#[test]
fn snapshot_answers_what_it_holds() {
    let mut snapshot = Snapshot::new();
    snapshot.record_status("/a", PathStatus::Missing);
    snapshot.record_listing("/d", Listing::Unreadable);
    assert!(snapshot.answers(&Query::Status("/a".to_string())));
    assert!(!snapshot.answers(&Query::Listing("/a".to_string())));
    assert!(snapshot.answers(&Query::Listing("/d".to_string())));
    assert!(!snapshot.answers(&Query::Status("/d".to_string())));
}

#[test]
fn path_info_reports_what_was_found() {
    let mut snapshot = Snapshot::new();
    snapshot.record_status("/file", PathStatus::File);
    snapshot.record_status("/dir", PathStatus::Directory);
    snapshot.record_status("/gone", PathStatus::Missing);

    let file = get_path_info("/file", &snapshot);
    assert_eq!(file.path, "/file");
    assert!(file.exists);
    assert!(!file.is_directory);

    let dir = get_path_info("/dir", &snapshot);
    assert_eq!(dir.path, "/dir");
    assert!(dir.exists);
    assert!(dir.is_directory);

    let gone = get_path_info("/gone", &snapshot);
    assert_eq!(gone.path, "/gone");
    assert!(!gone.exists);
    assert!(!gone.is_directory);

    let unknown = get_path_info("/unknown", &snapshot);
    assert_eq!(unknown.path, "/unknown");
    assert!(!unknown.exists);
    assert!(!unknown.is_directory);
}

#[test]
fn path_info_agrees_with_file_exists() {
    let mut snapshot = Snapshot::new();
    snapshot.record_status("/file", PathStatus::File);
    snapshot.record_status("/dir", PathStatus::Directory);
    snapshot.record_status("/gone", PathStatus::Missing);
    for path in ["/file", "/dir", "/gone", "/unknown", ""] {
        assert_eq!(get_path_info(path, &snapshot).exists, file_exists(path, &snapshot));
    }
    assert!(file_exists("/file", &snapshot));
    assert!(file_exists("/dir", &snapshot));
    assert!(!file_exists("/gone", &snapshot));
    assert!(!file_exists("/unknown", &snapshot));
}

#[test]
fn path_info_asks_for_what_is_unknown() {
    let mut snapshot = Snapshot::new();
    let queries = path_info_queries("/a", &snapshot);
    assert_eq!(queries.len(), 1);
    assert!(matches!(&queries[0], Query::Status(path) if path == "/a"));
    snapshot.record_status("/a", PathStatus::Missing);
    assert!(path_info_queries("/a", &snapshot).is_empty());
}

#[test]
fn child_entry_carries_the_joined_path() {
    let child = DirectoryEntry::child_of("/base", "app", true, Platform::Other);
    assert_eq!(child.name, "app");
    assert_eq!(child.path, "/base/app");
    assert!(child.is_directory);
    let child = DirectoryEntry::child_of("C:\\base", "notes.txt", false, Platform::Windows);
    assert_eq!(child.path, "C:\\base\\notes.txt");
    assert!(!child.is_directory);
    let child = DirectoryEntry::child_of("/", "etc", true, Platform::Other);
    assert_eq!(child.path, "/etc");
}

#[test]
fn listing_of_children_is_told_from_one_of_strangers() {
    let mut snapshot = Snapshot::new();
    assert!(snapshot.lists_children_of("/base", Platform::Other));
    snapshot.record_listing("/base", Listing::Unreadable);
    assert!(snapshot.lists_children_of("/base", Platform::Other));
    snapshot.record_listing(
        "/base",
        Listing::Entries(vec![
            DirectoryEntry::child_of("/base", "a", true, Platform::Other),
            DirectoryEntry::child_of("/base", "b", false, Platform::Other),
        ]),
    );
    assert!(snapshot.lists_children_of("/base", Platform::Other));
    assert!(!snapshot.lists_children_of("/base", Platform::Windows));
    snapshot.record_listing(
        "/base",
        Listing::Entries(vec![
            DirectoryEntry::child_of("/base", "a", true, Platform::Other),
            entry("b", "/elsewhere/b", false),
        ]),
    );
    assert!(!snapshot.lists_children_of("/base", Platform::Other));
    snapshot.record_listing("/base", Listing::Entries(vec![entry("b", "/base/deep/b", true)]));
    assert!(!snapshot.lists_children_of("/base", Platform::Other));
}

#[test]
fn readable_empty_directory_has_entries_and_they_are_none() {
    let mut snapshot = Snapshot::new();
    snapshot.record_listing("/empty", Listing::Entries(vec![]));
    assert!(snapshot.entries("/empty").is_some());
    assert!(snapshot.entries("/empty").unwrap().is_empty());
    snapshot.record_listing("/locked", Listing::Unreadable);
    assert!(snapshot.entries("/locked").is_none());
    assert!(snapshot.entries("/unread").is_none());
}
