use winkit::chrome::discovery::probe_error;
use winkit::chrome::page::handshake_result;
use winkit::chrome::tabs::{page_tabs, TabInfo};
use winkit::config::{BrowserConfig, Config};
use winkit::errors::{ErrorKind, WinkitError};
use winkit::json::Json;
use winkit::models::TargetInfo;
use winkit::permissions::Capability;
use winkit::tools::apps::{
    chrome_get_active_tab_definition, chrome_get_tab_definition, chrome_info_definition,
    chrome_list_tabs_definition, chrome_timeout, get_application_definition,
    list_applications_definition, list_tabs_reply,
};
use winkit::tools::browser::{
    chrome_approve_managed_action_definition, chrome_capture_screenshot_definition,
    chrome_get_page_summary_definition, chrome_list_managed_sessions_definition,
    chrome_navigate_managed_session_definition, chrome_start_managed_session_definition,
    chrome_stop_managed_session_definition,
};
use winkit::tools::diagnostics::{
    chrome_diagnose_tab_definition, chrome_get_tab_memory_definition,
    chrome_get_tab_network_definition, chrome_get_tab_performance_definition,
    chrome_get_tab_runtime_definition, chrome_tab_trend_definition,
};
use winkit::tools::diskscan::{
    disk_scan_cancel_definition, disk_scan_definition, disk_scan_find_definition,
    disk_scan_folder_size_definition, disk_scan_largest_files_definition,
    disk_scan_largest_folders_definition, disk_scan_start_definition,
    disk_scan_status_definition,
};
use winkit::tools::toolset::ToolDefinition;

fn chrome() -> BrowserConfig {
    Config::default().chrome
}

#[test]
fn browser_tools_are_described() {
    let c = chrome();
    let tools: Vec<ToolDefinition> = vec![
        list_applications_definition(),
        get_application_definition(),
        chrome_info_definition(&c),
        chrome_list_tabs_definition(&c),
        chrome_get_tab_definition(&c),
        chrome_get_active_tab_definition(&c),
        chrome_get_tab_performance_definition(&c),
        chrome_get_tab_memory_definition(&c),
        chrome_get_tab_network_definition(&c),
        chrome_get_tab_runtime_definition(&c),
        chrome_diagnose_tab_definition(&c),
        chrome_tab_trend_definition(&c),
        chrome_start_managed_session_definition(),
        chrome_list_managed_sessions_definition(),
        chrome_navigate_managed_session_definition(),
        chrome_stop_managed_session_definition(),
        chrome_get_page_summary_definition(),
        chrome_capture_screenshot_definition(),
        chrome_approve_managed_action_definition(),
        disk_scan_definition(),
        disk_scan_start_definition(),
        disk_scan_status_definition(),
        disk_scan_cancel_definition(),
        disk_scan_largest_files_definition(),
        disk_scan_largest_folders_definition(),
        disk_scan_folder_size_definition(),
        disk_scan_find_definition(),
    ];
    assert_eq!(tools.len(), 27);
    for t in &tools {
        assert!(!t.description.is_empty());
        assert_eq!(t.input_schema.bool_at("additionalProperties"), Some(false));
    }
    assert_eq!(tools[2].timeout_ms, Some(15_000));
    assert_eq!(tools[2].timeout_ms, chrome_timeout(&c));
    assert_eq!(tools[11].timeout_ms, Some(80_000));
    assert_eq!(tools[12].timeout_ms, Some(90_000));
    assert_eq!(tools[12].capability, None);
    assert_eq!(tools[19].capability, Some(Capability::StorageRead));
    let headless = tools[12].input_schema.member("properties").member("headless");
    assert_eq!(headless.bool_at("default"), Some(false));
    assert_eq!(headless.bool_at("optional"), Some(true));
    let endings = tools[23].input_schema.member("properties").member("extensions");
    assert_eq!(endings.text_at("type").as_deref(), Some("array"));
    assert_eq!(endings.member("items").text_at("type").as_deref(), Some("string"));
}

#[test]
fn tab_listings_are_cut() {
    let target = |id: &str| TargetInfo {
        id: id.to_string(),
        title: id.to_string(),
        url: format!("http://h/{id}"),
        kind: "page".to_string(),
        attachable: true,
        browser_context_id: None,
    };
    let tabs: Vec<TabInfo> = page_tabs(&vec![target("a"), target("b"), target("c")]);
    let args = Json::parse("{\"limit\": 2}").unwrap();
    let cut = list_tabs_reply(&args, 100, tabs);
    assert_eq!(cut.count, 2);
    assert!(cut.truncated);
}

#[test]
fn small_answers() {
    let e = probe_error(WinkitError::timeout("late"));
    assert_eq!(e.kind, ErrorKind::ApplicationUnavailable);
    assert_eq!(e.message, "late");
    let done = handshake_result(&Json::parse("{\"product\":\"Chrome/1\"}").unwrap());
    assert_eq!(done.bool_at("verified"), Some(true));
    assert_eq!(done.text_at("browser_version").as_deref(), Some("Chrome/1"));
}
