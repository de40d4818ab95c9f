use std::path::Path;

use world_monitor::paths::sanitize_path_for_node;

#[test]
fn strips_extended_drive_prefix() {
    let raw = Path::new(r"\\?\C:\Program Files\nodejs\node.exe");
    assert_eq!(
        sanitize_path_for_node(&raw.to_string_lossy()),
        r"C:\Program Files\nodejs\node.exe".to_string()
    );
}

#[test]
fn strips_extended_unc_prefix_and_preserves_unc_root() {
    let raw = Path::new(r"\\?\UNC\server\share\sidecar\local-api-server.mjs");
    assert_eq!(
        sanitize_path_for_node(&raw.to_string_lossy()),
        r"\\server\share\sidecar\local-api-server.mjs".to_string()
    );
}

#[test]
fn leaves_standard_paths_unchanged() {
    let raw = Path::new(r"C:\Users\alice\sidecar\local-api-server.mjs");
    assert_eq!(
        sanitize_path_for_node(&raw.to_string_lossy()),
        r"C:\Users\alice\sidecar\local-api-server.mjs".to_string()
    );
}

#[test]
fn unix_paths_are_unchanged() {
    assert_eq!(
        sanitize_path_for_node("/usr/lib/world-monitor/sidecar/local-api-server.mjs"),
        "/usr/lib/world-monitor/sidecar/local-api-server.mjs"
    );
}

#[test]
fn bare_prefixes_leave_empty_or_root() {
    assert_eq!(sanitize_path_for_node(r"\\?\"), "");
    assert_eq!(sanitize_path_for_node(r"\\?\UNC\"), r"\\");
    assert_eq!(sanitize_path_for_node(""), "");
}
