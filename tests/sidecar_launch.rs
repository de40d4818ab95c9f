use world_monitor::paths::{
    choose_api_root, common_node_locations, node_binary_name, node_search_order,
    open_in_shell, open_path_in_shell, ApiRoot,
};
use world_monitor::secrets::SecretStore;
use world_monitor::sidecar::{
    launch_plan, local_token_text, require_node, require_script, LocalApiState,
};

fn pair(k: &str, v: &str) -> (String, String) {
    (k.to_string(), v.to_string())
}

#[test]
fn token_is_issued_once() {
    let mut state: LocalApiState<u32> = LocalApiState::new();
    assert_eq!(state.local_api_token().unwrap_err(), "Token not generated");
    assert_eq!(state.issue_token("first".to_string()), "first");
    assert_eq!(state.issue_token("second".to_string()), "first");
    assert_eq!(state.local_api_token().unwrap(), "first");
}

#[test]
fn child_is_attached_and_detached() {
    let mut state: LocalApiState<u32> = LocalApiState::new();
    assert!(!state.is_running());
    state.attach(4242);
    assert!(state.is_running());
    assert_eq!(state.detach(), Some(4242));
    assert!(!state.is_running());
    assert_eq!(state.detach(), None);
}

#[test]
fn token_text_is_two_padded_hex_halves() {
    assert_eq!(local_token_text(0xab, 1), "00000000000000ab0000000000000001");
    assert_eq!(local_token_text(u64::MAX, 0), "ffffffffffffffff0000000000000000");
    assert_eq!(local_token_text(0x0123456789abcdef, 0xfedcba9876543210).len(), 32);
    assert_eq!(
        local_token_text(0x0123456789abcdef, 0xfedcba9876543210),
        "0123456789abcdeffedcba9876543210"
    );
}

#[test]
fn missing_script_and_node_are_reported() {
    assert!(require_script("/a/sidecar/local-api-server.mjs", true).is_ok());
    assert_eq!(
        require_script("/a/sidecar/local-api-server.mjs", false).unwrap_err(),
        "Local API sidecar script missing at /a/sidecar/local-api-server.mjs"
    );
    assert_eq!(
        require_node(None).unwrap_err(),
        "Node.js executable not found. Install Node 18+ or set LOCAL_API_NODE_BIN"
    );
    assert_eq!(require_node(Some("/usr/bin/node".to_string())).unwrap(), "/usr/bin/node");
}

#[test]
fn launch_plan_sets_sidecar_environment_then_secrets_then_convex() {
    let secrets = SecretStore::new()
        .with_secret("FINNHUB_API_KEY", " f ")
        .ok()
        .unwrap()
        .with_secret("GROQ_API_KEY", "g")
        .ok()
        .unwrap();
    let plan = launch_plan(
        r"\\?\C:\app\sidecar\local-api-server.mjs",
        r"\\?\UNC\srv\share\app",
        "tok",
        &secrets,
        Some("https://convex.example".to_string()),
    );
    assert_eq!(plan.script_arg, r"C:\app\sidecar\local-api-server.mjs");
    assert_eq!(plan.secret_count, 2);
    assert_eq!(
        plan.env,
        vec![
            pair("LOCAL_API_PORT", "46123"),
            pair("LOCAL_API_RESOURCE_DIR", r"\\srv\share\app"),
            pair("LOCAL_API_MODE", "tauri-sidecar"),
            pair("LOCAL_API_TOKEN", "tok"),
            pair("GROQ_API_KEY", "g"),
            pair("FINNHUB_API_KEY", "f"),
            pair("CONVEX_URL", "https://convex.example"),
        ]
    );
}

#[test]
fn launch_plan_without_secrets_or_convex() {
    let plan = launch_plan("/opt/app/sidecar/x.mjs", "/opt/app", "t", &SecretStore::new(), None);
    assert_eq!(plan.script_arg, "/opt/app/sidecar/x.mjs");
    assert_eq!(plan.env.len(), 4);
    assert_eq!(plan.secret_count, 0);
    assert_eq!(plan.env[1], pair("LOCAL_API_RESOURCE_DIR", "/opt/app"));
}

#[test]
fn api_root_follows_the_packaging_layout() {
    assert!(matches!(choose_api_root(true, true), ApiRoot::ResourceDir));
    assert!(matches!(choose_api_root(true, false), ApiRoot::ResourceDir));
    assert!(matches!(choose_api_root(false, true), ApiRoot::LiftedDir));
    assert!(matches!(choose_api_root(false, false), ApiRoot::ResourceDir));
}

#[test]
fn node_candidates_are_tried_in_order() {
    let order = node_search_order(
        Some("/custom/node".to_string()),
        None,
        vec!["/home/u/bin/node".to_string()],
        false,
    );
    assert_eq!(
        order,
        vec![
            "/custom/node",
            "/home/u/bin/node",
            "/opt/homebrew/bin/node",
            "/usr/local/bin/node",
            "/usr/bin/node",
            "/opt/local/bin/node",
        ]
    );
    let windows = node_search_order(None, Some(r"R:\sidecar\node\node.exe".to_string()), vec![], true);
    assert_eq!(
        windows,
        vec![
            r"R:\sidecar\node\node.exe",
            r"C:\Program Files\nodejs\node.exe",
            r"C:\Program Files (x86)\nodejs\node.exe",
        ]
    );
    assert_eq!(common_node_locations(true).len(), 2);
    assert_eq!(node_binary_name(true), "node.exe");
    assert_eq!(node_binary_name(false), "node");
}

#[test]
fn shell_opener_per_platform() {
    assert_eq!(open_in_shell("macos", "https://a.example/").program, "open");
    assert_eq!(open_in_shell("windows", "x").program, "explorer");
    assert_eq!(open_in_shell("linux", "x").program, "xdg-open");
    assert_eq!(open_in_shell("freebsd", "x").program, "xdg-open");
    assert_eq!(open_in_shell("linux", "https://a.example/").arg, "https://a.example/");
    let cmd = open_path_in_shell("macos", "/Users/a/Library/Logs/app");
    assert_eq!(cmd.program, "open");
    assert_eq!(cmd.arg, "/Users/a/Library/Logs/app");
}
