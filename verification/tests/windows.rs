use winkit::errors::WinkitError;
use winkit::json::Json;
use winkit::models::WindowInfo;
use winkit::providers::mock::MockWindowsBackend;
use winkit::tools::listing::Listing;
use winkit::tools::windows::list_windows_handler;

fn window(
    hwnd: isize,
    title: &str,
    pid: u32,
    process_name: Option<&str>,
    visible: bool,
) -> WindowInfo {
    WindowInfo {
        hwnd,
        title: title.to_string(),
        class_name: Some("MockWindowClass".to_string()),
        process_id: pid,
        process_name: process_name.map(str::to_string),
        visible,
        minimized: false,
        maximized: false,
        foreground: false,
    }
}

fn state_with(windows: Vec<WindowInfo>) -> MockWindowsBackend {
    MockWindowsBackend {
        windows,
        ..Default::default()
    }
}

fn call(state: &MockWindowsBackend, args: &str) -> Result<Listing<WindowInfo>, WinkitError> {
    list_windows_handler(state, &Json::parse(args).unwrap(), 200)
}

/// Three visible windows (one with an empty title) and one hidden window.
fn sample_windows() -> Vec<WindowInfo> {
    vec![
        window(1, "ChatGPT", 1001, Some("chrome.exe"), true),
        window(2, "OpenCode", 1002, Some("opencode.exe"), true),
        window(3, "", 1003, Some("explorer.exe"), true),
        window(4, "Hidden Helper", 1004, None, false),
    ]
}

#[test]
fn visible_only_returns_visible_windows_with_matching_count() {
    let state = state_with(sample_windows());
    let out = call(&state, "{}").unwrap();
    assert_eq!(out.items.len(), 3);
    assert_eq!(out.count, out.items.len());
    assert!(out.items.iter().all(|w| w.visible));
    assert!(!out.items.iter().any(|w| w.title == "Hidden Helper"));
}

#[test]
fn include_hidden_returns_visible_and_hidden() {
    let state = state_with(sample_windows());
    let out = call(&state, "{\"include_hidden\": true}").unwrap();
    assert_eq!(out.items.len(), 4);
    assert_eq!(out.count, out.items.len());
    assert!(out.items.iter().any(|w| !w.visible));
}

#[test]
fn include_hidden_defaults_to_false() {
    let state = state_with(sample_windows());
    let out = call(&state, "{}").unwrap();
    assert_eq!(out.items.len(), 3);
    assert!(out.items.iter().all(|w| w.visible));
}

#[test]
fn empty_desktop_returns_empty_without_error() {
    let state = state_with(Vec::new());
    let out = call(&state, "{}").unwrap();
    assert_eq!(out.count, 0);
    assert!(out.items.is_empty());
}

#[test]
fn empty_title_window_is_still_returned() {
    let state = state_with(vec![window(1, "", 1001, Some("chrome.exe"), true)]);
    let out = call(&state, "{}").unwrap();
    assert_eq!(out.items.len(), 1);
    assert_eq!(out.items[0].title, "");
}

#[test]
fn unresolvable_process_name_is_null_not_an_error() {
    let state = state_with(vec![window(1, "No Meta", 9999, None, true)]);
    let out = call(&state, "{}").unwrap();
    assert_eq!(out.items.len(), 1);
    assert!(out.items[0].process_name.is_none());
}

#[test]
fn limit_zero_clamps_to_at_least_one() {
    let state = state_with(sample_windows());
    let out = call(&state, "{\"limit\": 0}").unwrap();
    assert_eq!(out.items.len(), 1);
    assert_eq!(out.count, 1);
}

#[test]
fn limit_truncates_and_count_matches() {
    let state = state_with(sample_windows());
    let out = call(&state, "{\"limit\": 2, \"include_hidden\": true}").unwrap();
    assert_eq!(out.items.len(), 2);
    assert_eq!(out.count, out.items.len());
    assert!(out.truncated);
}

#[test]
fn repeated_calls_are_consistent() {
    let state = state_with(sample_windows());
    for _ in 0..25 {
        let out = call(&state, "{}").unwrap();
        assert_eq!(out.items.len(), 3);
        assert_eq!(out.count, out.items.len());
    }
}

#[test]
fn partial_metadata_failure_keeps_other_windows() {
    let mut windows = sample_windows();
    windows[1] = window(2, "OpenCode", 1002, None, true);
    let state = state_with(windows);
    let out = call(&state, "{}").unwrap();
    assert_eq!(out.items.len(), 3);
    let broken = out.items.iter().find(|w| w.hwnd == 2).unwrap();
    assert!(broken.process_name.is_none());
    let named: Vec<&str> = out
        .items
        .iter()
        .filter_map(|w| w.process_name.as_deref())
        .collect();
    assert_eq!(named.len(), 2);
    assert!(named.contains(&"chrome.exe"));
    assert!(named.contains(&"explorer.exe"));
}
