use claude_config_manager::paths::{join, relative_path};
use claude_config_manager::platform::Platform;

#[test]
fn join_puts_one_separator_between() {
    assert_eq!(join("/proj", "src", Platform::Other), "/proj/src");
    assert_eq!(join("/proj/", "src", Platform::Other), "/proj/src");
    assert_eq!(join("", "src", Platform::Other), "src");
    assert_eq!(join("/", "etc", Platform::MacOs), "/etc");
}

#[test]
fn join_on_windows_writes_a_backslash() {
    assert_eq!(join("C:\\proj", "src", Platform::Windows), "C:\\proj\\src");
    assert_eq!(join("C:\\proj\\", "src", Platform::Windows), "C:\\proj\\src");
    assert_eq!(join("C:/proj/", "src", Platform::Windows), "C:/proj/src");
    assert_eq!(join("a\\b", "c", Platform::Other), "a\\b/c");
}

#[test]
fn relative_path_strips_the_root() {
    assert_eq!(
        relative_path("/proj", "/proj/src/billing", Platform::Other),
        Some("src/billing".to_string())
    );
    assert_eq!(
        relative_path("/proj/", "/proj/src/billing", Platform::Other),
        Some("src/billing".to_string())
    );
    assert_eq!(relative_path("/proj", "/proj", Platform::Other), Some(String::new()));
    assert_eq!(relative_path("", "src/a", Platform::Other), Some("src/a".to_string()));
}

#[test]
fn relative_path_refuses_what_is_not_below() {
    assert_eq!(relative_path("/proj", "/project/src", Platform::Other), None);
    assert_eq!(relative_path("/proj", "/other/src", Platform::Other), None);
    assert_eq!(relative_path("/proj/src", "/proj", Platform::Other), None);
    assert_eq!(relative_path("C:\\proj", "C:\\proj\\src", Platform::Other), None);
    assert_eq!(
        relative_path("C:\\proj", "C:\\proj\\src", Platform::Windows),
        Some("src".to_string())
    );
}
