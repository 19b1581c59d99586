use claude_config_manager::names::Vocabulary;
use claude_config_manager::platform::Platform;
use claude_config_manager::project::{
    detect_project, list_projects, list_projects_queries, marker_path_list, project_config_files,
    project_config_queries, project_path_list,
};
use claude_config_manager::snapshot::{DirectoryEntry, Listing, PathStatus, Query, Snapshot};

fn words() -> Vocabulary {
    Vocabulary {
        instructions_file: "GUIDE.md".to_string(),
        local_instructions_file: "GUIDE.local.md".to_string(),
        config_directory: ".tool".to_string(),
        user_registry_file: ".tool.json".to_string(),
        other_enterprise_base: "/etc/tool".to_string(),
    }
}

fn child(name: &str, is_directory: bool) -> DirectoryEntry {
    DirectoryEntry { name: name.to_string(), path: format!("/base/{}", name), is_directory }
}

fn base_with(children: Vec<DirectoryEntry>) -> Snapshot {
    let mut snapshot = Snapshot::new();
    snapshot.record_listing("/base", Listing::Entries(children));
    snapshot
}

fn answer_all(snapshot: &mut Snapshot, queries: &[Query]) {
    for query in queries {
        match query {
            Query::Status(path) => snapshot.record_status(path, PathStatus::Missing),
            Query::Listing(path) => snapshot.record_listing(path, Listing::Unreadable),
        }
    }
}

#[test]
fn marker_paths_are_the_eight_marks_of_a_project() {
    assert_eq!(
        marker_path_list("/base/app", Platform::Other, &words()),
        vec![
            "/base/app/GUIDE.md",
            "/base/app/.tool/GUIDE.md",
            "/base/app/.git",
            "/base/app/package.json",
            "/base/app/tsconfig.json",
            "/base/app/pyproject.toml",
            "/base/app/go.mod",
            "/base/app/Cargo.toml",
        ]
    );
}

#[test]
fn project_paths_are_the_ten_slots() {
    assert_eq!(
        project_path_list("/base/app", Platform::Other, &words()),
        vec![
            "/base/app/GUIDE.md",
            "/base/app/.tool/GUIDE.md",
            "/base/app/GUIDE.local.md",
            "/base/app/.tool/settings.json",
            "/base/app/.tool/settings.local.json",
            "/base/app/.tool/rules",
            "/base/app/.tool/commands",
            "/base/app/.tool/agents",
            "/base/app/.tool/skills",
            "/base/app/.mcp.json",
        ]
    );
}

#[test]
fn bare_manifest_makes_a_project_without_instructions() {
    let mut snapshot = base_with(vec![child("app", true)]);
    snapshot.record_status("/base/app/Cargo.toml", PathStatus::File);
    let projects = list_projects("/base", Platform::Other, &words(), &snapshot);
    assert_eq!(projects.len(), 1);
    assert_eq!(projects[0].id, "app");
    assert_eq!(projects[0].name, "app");
    assert_eq!(projects[0].path, "/base/app");
    assert!(!projects[0].has_claude_md);
    assert!(!projects[0].config_files.claude_md.exists);
    assert_eq!(projects[0].config_files.claude_md.path, "/base/app/GUIDE.md");
}

#[test]
fn each_marker_alone_makes_a_project() {
    for marker in [
        "GUIDE.md",
        ".tool/GUIDE.md",
        ".git",
        "package.json",
        "tsconfig.json",
        "pyproject.toml",
        "go.mod",
        "Cargo.toml",
    ] {
        let mut snapshot = base_with(vec![child("app", true)]);
        snapshot.record_status(&format!("/base/app/{}", marker), PathStatus::File);
        let projects = list_projects("/base", Platform::Other, &words(), &snapshot);
        assert_eq!(projects.len(), 1, "marker {}", marker);
        assert_eq!(detect_project("/base/app", Platform::Other, &words(), &snapshot).0, true);
    }
}

#[test]
fn directory_without_any_marker_is_left_out() {
    let mut snapshot = base_with(vec![child("notes", true), child("app", true)]);
    snapshot.record_status("/base/notes/README.md", PathStatus::File);
    snapshot.record_status("/base/notes/Makefile", PathStatus::File);
    snapshot.record_status("/base/notes/Cargo.toml", PathStatus::Missing);
    snapshot.record_status("/base/app/.git", PathStatus::Directory);
    let projects = list_projects("/base", Platform::Other, &words(), &snapshot);
    assert_eq!(projects.len(), 1);
    assert_eq!(projects[0].name, "app");
    assert_eq!(
        detect_project("/base/notes", Platform::Other, &words(), &snapshot),
        (false, false)
    );
}

#[test]
fn instructions_flag_follows_either_place() {
    let at_root = {
        let mut s = base_with(vec![child("app", true)]);
        s.record_status("/base/app/GUIDE.md", PathStatus::File);
        s
    };
    let in_config = {
        let mut s = base_with(vec![child("app", true)]);
        s.record_status("/base/app/.tool/GUIDE.md", PathStatus::File);
        s
    };
    let both = {
        let mut s = base_with(vec![child("app", true)]);
        s.record_status("/base/app/GUIDE.md", PathStatus::File);
        s.record_status("/base/app/.tool/GUIDE.md", PathStatus::File);
        s
    };
    let neither = {
        let mut s = base_with(vec![child("app", true)]);
        s.record_status("/base/app/.git", PathStatus::Directory);
        s.record_status("/base/app/GUIDE.local.md", PathStatus::File);
        s
    };
    for (snapshot, expected) in
        [(at_root, true), (in_config, true), (both, true), (neither, false)]
    {
        let projects = list_projects("/base", Platform::Other, &words(), &snapshot);
        assert_eq!(projects.len(), 1);
        assert_eq!(projects[0].has_claude_md, expected);
        assert_eq!(
            detect_project("/base/app", Platform::Other, &words(), &snapshot),
            (true, expected)
        );
    }
}

#[test]
fn only_child_directories_are_listed() {
    let mut snapshot = base_with(vec![
        child("file.txt", false),
        child("one", true),
        child("Cargo.toml", false),
        child("two", true),
    ]);
    // a file that carries a marker below it is still no project
    snapshot.record_status("/base/file.txt/.git", PathStatus::Directory);
    snapshot.record_status("/base/one/package.json", PathStatus::File);
    snapshot.record_status("/base/two/go.mod", PathStatus::File);
    // a grandchild with markers of its own, and a listing to find it in
    snapshot.record_listing(
        "/base/one",
        Listing::Entries(vec![DirectoryEntry {
            name: "inner".to_string(),
            path: "/base/one/inner".to_string(),
            is_directory: true,
        }]),
    );
    snapshot.record_status("/base/one/inner/Cargo.toml", PathStatus::File);
    // the base itself carries a marker too
    snapshot.record_status("/base/Cargo.toml", PathStatus::File);

    let projects = list_projects("/base", Platform::Other, &words(), &snapshot);
    let paths: Vec<&str> = projects.iter().map(|p| p.path.as_str()).collect();
    assert_eq!(paths, vec!["/base/one", "/base/two"]);
}

#[test]
fn projects_come_in_the_order_of_the_listing() {
    let mut snapshot =
        base_with(vec![child("zeta", true), child("alpha", true), child("mid", true)]);
    for name in ["zeta", "alpha", "mid"] {
        snapshot.record_status(&format!("/base/{}/.git", name), PathStatus::Directory);
    }
    let projects = list_projects("/base", Platform::Other, &words(), &snapshot);
    let names: Vec<&str> = projects.iter().map(|p| p.name.as_str()).collect();
    assert_eq!(names, vec!["zeta", "alpha", "mid"]);
}

#[test]
fn unread_or_unreadable_base_gives_no_projects() {
    let mut snapshot = Snapshot::new();
    snapshot.record_status("/base/app/Cargo.toml", PathStatus::File);
    assert!(list_projects("/base", Platform::Other, &words(), &snapshot).is_empty());
    snapshot.record_listing("/base", Listing::Unreadable);
    assert!(list_projects("/base", Platform::Other, &words(), &snapshot).is_empty());
    snapshot.record_listing("/base", Listing::Entries(vec![]));
    assert!(list_projects("/base", Platform::Other, &words(), &snapshot).is_empty());
}

#[test]
fn project_config_files_fill_every_slot() {
    let mut snapshot = Snapshot::new();
    snapshot.record_status("/p/GUIDE.md", PathStatus::File);
    snapshot.record_status("/p/.tool/rules", PathStatus::Directory);
    snapshot.record_status("/p/.mcp.json", PathStatus::File);
    let files = project_config_files("/p", Platform::Other, &words(), &snapshot);
    assert_eq!(files.claude_md.path, "/p/GUIDE.md");
    assert!(files.claude_md.exists);
    assert_eq!(files.claude_md_alt.path, "/p/.tool/GUIDE.md");
    assert!(!files.claude_md_alt.exists);
    assert_eq!(files.claude_local_md.path, "/p/GUIDE.local.md");
    assert!(!files.claude_local_md.exists);
    assert_eq!(files.settings.path, "/p/.tool/settings.json");
    assert_eq!(files.settings_local.path, "/p/.tool/settings.local.json");
    assert_eq!(files.rules.path, "/p/.tool/rules");
    assert!(files.rules.exists);
    assert!(files.rules.is_directory);
    assert_eq!(files.commands.path, "/p/.tool/commands");
    assert_eq!(files.agents.path, "/p/.tool/agents");
    assert_eq!(files.skills.path, "/p/.tool/skills");
    assert_eq!(files.mcp.path, "/p/.mcp.json");
    assert!(files.mcp.exists);
    assert!(!files.mcp.is_directory);
}

#[test]
fn project_config_queries_name_the_unknown_slots() {
    let mut snapshot = Snapshot::new();
    snapshot.record_status("/p/GUIDE.md", PathStatus::File);
    let queries = project_config_queries("/p", Platform::Other, &words(), &snapshot);
    assert_eq!(queries.len(), 9);
    assert!(matches!(&queries[0], Query::Status(path) if path == "/p/.tool/GUIDE.md"));
    answer_all(&mut snapshot, &queries);
    assert!(project_config_queries("/p", Platform::Other, &words(), &snapshot).is_empty());
}

#[test]
fn listing_queries_go_round_by_round() {
    let mut snapshot = Snapshot::new();

    let first = list_projects_queries("/base", Platform::Other, &words(), &snapshot);
    assert_eq!(first.len(), 1);
    assert!(matches!(&first[0], Query::Listing(path) if path == "/base"));

    snapshot
        .record_listing("/base", Listing::Entries(vec![child("app", true), child("x.txt", false)]));
    let second = list_projects_queries("/base", Platform::Other, &words(), &snapshot);
    assert_eq!(second.len(), 8);
    assert!(matches!(&second[0], Query::Status(path) if path == "/base/app/GUIDE.md"));
    assert!(matches!(&second[7], Query::Status(path) if path == "/base/app/Cargo.toml"));

    answer_all(&mut snapshot, &second);
    snapshot.record_status("/base/app/go.mod", PathStatus::File);
    let third = list_projects_queries("/base", Platform::Other, &words(), &snapshot);
    // the two places of the instructions file are known by now
    assert_eq!(third.len(), 8);
    assert!(matches!(&third[0], Query::Status(path) if path == "/base/app/GUIDE.local.md"));

    answer_all(&mut snapshot, &third);
    assert!(list_projects_queries("/base", Platform::Other, &words(), &snapshot).is_empty());
    let projects = list_projects("/base", Platform::Other, &words(), &snapshot);
    assert_eq!(projects.len(), 1);
    assert_eq!(projects[0].path, "/base/app");
}

#[test]
fn listing_queries_ask_nothing_of_an_unreadable_base() {
    let mut snapshot = Snapshot::new();
    snapshot.record_listing("/base", Listing::Unreadable);
    assert!(list_projects_queries("/base", Platform::Other, &words(), &snapshot).is_empty());
}
