use claude_config_manager::names::Vocabulary;
use claude_config_manager::platform::Platform;
use claude_config_manager::snapshot::{PathStatus, Query, Snapshot};
use claude_config_manager::well_known::{
    HostEnvironment, config_path_queries, enterprise_path_list, get_config_paths, user_path_list,
};

fn vocabulary(other_enterprise_base: &str) -> Vocabulary {
    Vocabulary {
        instructions_file: "GUIDE.md".to_string(),
        local_instructions_file: "GUIDE.local.md".to_string(),
        config_directory: ".tool".to_string(),
        user_registry_file: ".tool.json".to_string(),
        other_enterprise_base: other_enterprise_base.to_string(),
    }
}

fn host(platform: Platform, home: Option<&str>, user_profile: Option<&str>) -> HostEnvironment {
    HostEnvironment {
        platform,
        home: home.map(|s| s.to_string()),
        user_profile: user_profile.map(|s| s.to_string()),
    }
}

#[test]
fn platform_is_read_from_the_os_name() {
    assert_eq!(Platform::from_os_name("windows"), Platform::Windows);
    assert_eq!(Platform::from_os_name("macos"), Platform::MacOs);
    assert_eq!(Platform::from_os_name("linux"), Platform::Other);
    assert_eq!(Platform::from_os_name("freebsd"), Platform::Other);
    assert_eq!(Platform::from_os_name(""), Platform::Other);
    assert_eq!(Platform::from_os_name("Windows"), Platform::Other);
}

#[test]
fn separators_follow_the_platform() {
    assert_eq!(Platform::Windows.separator(), '\\');
    assert_eq!(Platform::MacOs.separator(), '/');
    assert_eq!(Platform::Other.separator(), '/');
    assert!(Platform::Windows.is_separator('/'));
    assert!(Platform::Windows.is_separator('\\'));
    assert!(Platform::Other.is_separator('/'));
    assert!(!Platform::Other.is_separator('\\'));
    assert!(!Platform::MacOs.is_separator('\\'));
    assert!(!Platform::Windows.is_separator(':'));
}

#[test]
fn home_is_taken_from_the_first_variable_that_is_set() {
    assert_eq!(host(Platform::Other, Some("/home/u"), Some("C:\\u")).home_directory(), "/home/u");
    assert_eq!(host(Platform::Other, Some("/home/u"), None).home_directory(), "/home/u");
    assert_eq!(host(Platform::Windows, None, Some("C:\\u")).home_directory(), "C:\\u");
    assert_eq!(host(Platform::Other, None, None).home_directory(), ".");
}

#[test]
fn enterprise_base_follows_the_platform() {
    let words = vocabulary("/etc/tool");
    assert_eq!(Platform::Windows.enterprise_base(&words), "C:\\Program Files\\ClaudeCode");
    assert_eq!(
        Platform::MacOs.enterprise_base(&words),
        "/Library/Application Support/ClaudeCode"
    );
    assert_eq!(Platform::Other.enterprise_base(&words), "/etc/tool");
    assert_eq!(Platform::Other.enterprise_base(&vocabulary("/opt/x")), "/opt/x");
    assert_eq!(
        Platform::Windows.enterprise_base(&vocabulary("/opt/x")),
        "C:\\Program Files\\ClaudeCode"
    );
}

#[test]
fn enterprise_paths_lie_under_the_base() {
    let paths = enterprise_path_list(Platform::Other, &vocabulary("/etc/tool"));
    assert_eq!(
        paths,
        vec!["/etc/tool/GUIDE.md", "/etc/tool/managed-mcp.json", "/etc/tool/settings.json"]
    );
    let paths = enterprise_path_list(Platform::Windows, &vocabulary("/etc/tool"));
    assert_eq!(
        paths,
        vec![
            "C:\\Program Files\\ClaudeCode\\GUIDE.md",
            "C:\\Program Files\\ClaudeCode\\managed-mcp.json",
            "C:\\Program Files\\ClaudeCode\\settings.json"
        ]
    );
    let paths = enterprise_path_list(Platform::MacOs, &vocabulary("/etc/tool"));
    assert_eq!(
        paths,
        vec![
            "/Library/Application Support/ClaudeCode/GUIDE.md",
            "/Library/Application Support/ClaudeCode/managed-mcp.json",
            "/Library/Application Support/ClaudeCode/settings.json"
        ]
    );
}

#[test]
fn user_paths_lie_under_the_home_directory() {
    let paths = user_path_list("/home/u", Platform::Other, &vocabulary("/etc/tool"));
    assert_eq!(
        paths,
        vec![
            "/home/u/.tool/GUIDE.md",
            "/home/u/.tool/GUIDE.local.md",
            "/home/u/.tool/settings.json",
            "/home/u/.tool/settings.local.json",
            "/home/u/.tool/agents",
            "/home/u/.tool/commands",
            "/home/u/.tool/skills",
            "/home/u/.tool.json",
        ]
    );
}

#[test]
fn config_paths_fill_every_slot() {
    let mut snapshot = Snapshot::new();
    snapshot.record_status("/etc/tool/GUIDE.md", PathStatus::File);
    snapshot.record_status("/etc/tool/settings.json", PathStatus::Missing);
    snapshot.record_status("/home/u/.tool/settings.json", PathStatus::File);
    snapshot.record_status("/home/u/.tool/agents", PathStatus::Directory);
    snapshot.record_status("/home/u/.tool.json", PathStatus::File);
    let found = get_config_paths(
        &host(Platform::Other, Some("/home/u"), None),
        &vocabulary("/etc/tool"),
        &snapshot,
    );

    assert_eq!(found.enterprise.claude_md.path, "/etc/tool/GUIDE.md");
    assert!(found.enterprise.claude_md.exists);
    assert!(!found.enterprise.claude_md.is_directory);
    assert_eq!(found.enterprise.managed_mcp.path, "/etc/tool/managed-mcp.json");
    assert!(!found.enterprise.managed_mcp.exists);
    assert_eq!(found.enterprise.managed_settings.path, "/etc/tool/settings.json");
    assert!(!found.enterprise.managed_settings.exists);

    assert_eq!(found.user.claude_md.path, "/home/u/.tool/GUIDE.md");
    assert!(!found.user.claude_md.exists);
    assert_eq!(found.user.claude_local_md.path, "/home/u/.tool/GUIDE.local.md");
    assert!(!found.user.claude_local_md.exists);
    assert_eq!(found.user.settings.path, "/home/u/.tool/settings.json");
    assert!(found.user.settings.exists);
    assert_eq!(found.user.settings_local.path, "/home/u/.tool/settings.local.json");
    assert!(!found.user.settings_local.exists);
    assert_eq!(found.user.agents.path, "/home/u/.tool/agents");
    assert!(found.user.agents.exists);
    assert!(found.user.agents.is_directory);
    assert_eq!(found.user.commands.path, "/home/u/.tool/commands");
    assert!(!found.user.commands.exists);
    assert_eq!(found.user.skills.path, "/home/u/.tool/skills");
    assert!(!found.user.skills.exists);
    assert_eq!(found.user.mcp.path, "/home/u/.tool.json");
    assert!(found.user.mcp.exists);
}

#[test]
fn config_paths_without_a_home_fall_back_to_the_current_directory() {
    let snapshot = Snapshot::new();
    let found =
        get_config_paths(&host(Platform::Other, None, None), &vocabulary("/etc/tool"), &snapshot);
    assert_eq!(found.user.claude_md.path, "./.tool/GUIDE.md");
    assert_eq!(found.user.mcp.path, "./.tool.json");
    assert!(!found.user.claude_md.exists);
}

#[test]
fn config_paths_on_windows_use_backslashes() {
    let mut snapshot = Snapshot::new();
    snapshot.record_status("C:\\Program Files\\ClaudeCode\\settings.json", PathStatus::File);
    let found = get_config_paths(
        &host(Platform::Windows, None, Some("C:\\Users\\u")),
        &vocabulary("/etc/tool"),
        &snapshot,
    );
    assert_eq!(found.enterprise.claude_md.path, "C:\\Program Files\\ClaudeCode\\GUIDE.md");
    assert_eq!(
        found.enterprise.managed_settings.path,
        "C:\\Program Files\\ClaudeCode\\settings.json"
    );
    assert!(found.enterprise.managed_settings.exists);
    assert_eq!(found.user.settings.path, "C:\\Users\\u\\.tool\\settings.json");
    assert_eq!(found.user.mcp.path, "C:\\Users\\u\\.tool.json");
}

#[test]
fn config_paths_do_not_depend_on_what_was_found() {
    let mut snapshot = Snapshot::new();
    let environment = host(Platform::MacOs, Some("/Users/u"), Some("ignored"));
    let words = vocabulary("/etc/tool");
    let before = get_config_paths(&environment, &words, &snapshot);
    snapshot.record_status("/Users/u/.tool/settings.json", PathStatus::File);
    let after = get_config_paths(&environment, &words, &snapshot);
    assert_eq!(before.user.settings.path, after.user.settings.path);
    assert_eq!(before.enterprise.claude_md.path, after.enterprise.claude_md.path);
    assert_eq!(before.user.settings.path, "/Users/u/.tool/settings.json");
    assert!(!before.user.settings.exists);
    assert!(after.user.settings.exists);
    assert!(!after.user.settings.is_directory);
    for info in [&after.user.claude_md, &after.user.agents, &after.enterprise.managed_mcp] {
        assert!(!info.path.is_empty());
        assert!(!info.is_directory || info.exists);
    }
}

#[test]
fn config_queries_name_each_unknown_path_once() {
    let mut snapshot = Snapshot::new();
    let environment = host(Platform::Other, Some("/home/u"), None);
    let vocabulary = vocabulary("/etc/tool");
    let queries = config_path_queries(&environment, &vocabulary, &snapshot);
    assert_eq!(queries.len(), 11);
    assert!(matches!(&queries[0], Query::Status(path) if path == "/etc/tool/GUIDE.md"));
    assert!(matches!(&queries[10], Query::Status(path) if path == "/home/u/.tool.json"));
    for query in &queries {
        if let Query::Status(path) = query {
            snapshot.record_status(path, PathStatus::Missing);
        }
    }
    assert!(config_path_queries(&environment, &vocabulary, &snapshot).is_empty());
}
