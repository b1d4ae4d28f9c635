use install_loader::config::{join, InstallerConfig};
use install_loader::display::display_string;

#[test]
fn join_is_base_separator_segment() {
    assert_eq!(join("a", "b"), "a\\b");
}

#[test]
fn join_empty_base_leaves_segment_bare() {
    assert_eq!(join("", "b"), "b");
}

#[test]
fn join_inserts_no_second_separator() {
    assert_eq!(join("a\\", "b"), "a\\b");
    assert_eq!(join("a/", "b"), "a/b");
}

#[test]
fn windows_root_scenario() {
    let c = InstallerConfig::new("C:\\Game", false, None);
    assert_eq!(c.sub_folder, "C:\\Game");
    assert_eq!(c.logs_folder, "C:\\Game\\INSTALLER_LOGS");
    assert_eq!(c.python_path, "C:\\Game\\python\\python.exe");
    assert_eq!(c.server_info_path, "C:\\Game\\server-info.json");
    assert_eq!(c.server_info_old, "C:\\Game\\server-info-old.json");
    assert!(!c.is_retry);
}

#[test]
fn relative_root_retry_scenario() {
    let c = InstallerConfig::new("./install", true, None);
    assert!(c.is_retry);
    assert_eq!(c.logs_folder, "./install\\INSTALLER_LOGS");
    assert_eq!(c.python_path, "./install\\python\\python.exe");
    assert_eq!(c.server_info_path, "./install\\server-info.json");
    assert_eq!(c.server_info_old, "./install\\server-info-old.json");
}

#[test]
fn unresolvable_root_uses_placeholder() {
    // The host could not stat the root (missing path, permission denied):
    // the display degrades to the placeholder, every other field is still
    // computed normally.
    let c = InstallerConfig::new("C:\\Game", true, None);
    assert_eq!(c.sub_folder_display, "couldn't determine path");
    assert_eq!(c.sub_folder, "C:\\Game");
    assert_eq!(c.logs_folder, "C:\\Game\\INSTALLER_LOGS");
    assert_eq!(c.python_path, "C:\\Game\\python\\python.exe");
    assert_eq!(c.server_info_path, "C:\\Game\\server-info.json");
    assert_eq!(c.server_info_old, "C:\\Game\\server-info-old.json");
    assert!(c.is_retry);
}

#[test]
fn resolved_root_is_displayed() {
    let c = InstallerConfig::new("./game", false, Some(String::from("/home/user/game")));
    assert_eq!(c.sub_folder_display, "/home/user/game");
    assert_eq!(c.sub_folder, "./game");
}

#[test]
fn retry_flag_stored_unchanged() {
    assert!(!InstallerConfig::new("r", false, None).is_retry);
    assert!(InstallerConfig::new("r", true, None).is_retry);
}

#[test]
fn empty_root_still_resolves() {
    // No validation: an empty root is accepted, every field is derived, and
    // the derived paths stay relative to the current directory (no leading
    // separator appears).
    let c = InstallerConfig::new("", false, None);
    assert_eq!(c.sub_folder, "");
    assert_eq!(c.logs_folder, "INSTALLER_LOGS");
    assert_eq!(c.python_path, "python\\python.exe");
    assert_eq!(c.server_info_path, "server-info.json");
    assert_eq!(c.server_info_old, "server-info-old.json");
    assert_eq!(c.sub_folder_display, "couldn't determine path");
}

#[test]
fn trailing_separator_root_not_doubled() {
    let c = InstallerConfig::new("C:\\Game\\", false, None);
    assert_eq!(c.logs_folder, "C:\\Game\\INSTALLER_LOGS");
    assert_eq!(c.python_path, "C:\\Game\\python\\python.exe");
    assert_eq!(c.server_info_path, "C:\\Game\\server-info.json");
    assert_eq!(c.server_info_old, "C:\\Game\\server-info-old.json");
}

#[test]
fn resolution_is_deterministic() {
    let a = InstallerConfig::new("./install", true, Some(String::from("/abs/install")));
    let b = InstallerConfig::new("./install", true, Some(String::from("/abs/install")));
    assert_eq!(a.sub_folder, b.sub_folder);
    assert_eq!(a.sub_folder_display, b.sub_folder_display);
    assert_eq!(a.logs_folder, b.logs_folder);
    assert_eq!(a.python_path, b.python_path);
    assert_eq!(a.is_retry, b.is_retry);
    assert_eq!(a.server_info_path, b.server_info_path);
    assert_eq!(a.server_info_old, b.server_info_old);
}

#[test]
fn display_string_resolved_or_fallback() {
    assert_eq!(
        display_string(Some(String::from("/abs/path")), "couldn't determine path"),
        "/abs/path"
    );
    assert_eq!(
        display_string(None, "couldn't determine path"),
        "couldn't determine path"
    );
    assert!(!display_string(None, "couldn't determine path").is_empty());
    assert!(!display_string(Some(String::from("/abs")), "couldn't determine path").is_empty());
}

#[test]
fn empty_resolved_value_counts_as_failure() {
    // No absolute path is empty, so an empty resolved value degrades to the
    // fallback: the display is never empty, whatever the host hands in.
    assert_eq!(
        display_string(Some(String::new()), "couldn't determine path"),
        "couldn't determine path"
    );
    let c = InstallerConfig::new("./game", false, Some(String::new()));
    assert_eq!(c.sub_folder_display, "couldn't determine path");
}
