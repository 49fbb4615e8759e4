use std::sync::Mutex;
use winkit::chrome::cdp::check_dial;
use winkit::chrome::discovery::{
    application_state, cmdline_flag, discover_with, endpoint_from_answer, parse_active_port,
    plan_probes, ports_from_processes, probe_budget, sorted_ports, ApplicationState,
    ChromeConfig, ChromeDiscoveryResult, ChromeState, DiscoveryCache, DiscoveryIo,
};
use winkit::chrome::report::{application_info, browser_info};
use winkit::errors::ErrorKind;
use winkit::models::{ChromeEndpoint, ProcessInfo};

fn chrome_proc(flags: Option<&str>) -> ProcessInfo {
    ProcessInfo {
        pid: 420,
        name: "chrome.exe".to_string(),
        parent_pid: Some(4),
        executable_path: Some(
            "C:\\Program Files\\Google\\Chrome\\Application\\chrome.exe".into(),
        ),
        command_line: flags.map(|f| format!("chrome.exe {f}")),
        working_set_bytes: Some(1_900_000_000),
        private_bytes: Some(950_000_000),
        threads: Some(40),
        start_time: Some("2026-08-13T08:00:00.000Z".to_string()),
        cpu_time_ms: Some(123_456),
        cpu_percent: None,
    }
}

fn endpoint(port: u16) -> ChromeEndpoint {
    ChromeEndpoint {
        port,
        browser_ws_url: format!("ws://127.0.0.1:{port}/devtools/browser/abc"),
        browser_version: "Chrome/126.0.0.0".to_string(),
        protocol_version: "1.3".to_string(),
        user_agent: Some("Mozilla/5.0".to_string()),
    }
}

/// A scriptable discovery surface: every probe is recorded and returns the
/// configured endpoint (or none).
#[derive(Default)]
struct MockIo {
    installed: Option<String>,
    running: Vec<ProcessInfo>,
    ports: Vec<u16>,
    probe_result: Option<ChromeEndpoint>,
    probed: Mutex<Vec<(u16, u64)>>,
}

impl MockIo {
    fn new(installed: bool, running: Vec<ProcessInfo>, ports: Vec<u16>) -> Self {
        let path = "C:\\Program Files\\Google\\Chrome\\Application\\chrome.exe".to_string();
        Self {
            installed: if installed { Some(path) } else { None },
            running,
            ports,
            probe_result: None,
            probed: Mutex::new(Vec::new()),
        }
    }

    fn probes(&self) -> Vec<(u16, u64)> {
        self.probed.lock().unwrap().clone()
    }
}

impl DiscoveryIo for MockIo {
    fn installed_path(&self) -> Option<String> {
        self.installed.clone()
    }
    fn running_processes(&self) -> Vec<ProcessInfo> {
        self.running.clone()
    }
    fn devtools_ports(&self, _: &Vec<ProcessInfo>) -> Vec<u16> {
        self.ports.clone()
    }
    fn probe_endpoint(&self, port: u16, budget_ms: u64) -> Option<ChromeEndpoint> {
        self.probed.lock().unwrap().push((port, budget_ms));
        self.probe_result.clone()
    }
}

fn config() -> ChromeConfig {
    ChromeConfig {
        fallback_port: 0,
        discovery_timeout_ms: 2_000,
    }
}

#[test]
fn chrome_absent_returns_not_installed_without_probing() {
    let io = MockIo::new(false, Vec::new(), Vec::new());
    let result = discover_with(&config(), &io).unwrap();
    assert_eq!(result.state, ChromeState::NotInstalled);
    assert!(result.installed_path.is_none());
    assert!(result.running_processes.is_empty());
    assert!(result.endpoint.is_none());
    assert!(io.probes().is_empty());
    let remediation = result.remediation.expect("absent Chrome needs guidance");
    assert!(remediation.contains("not installed"));
}

#[test]
fn chrome_installed_but_not_running_returns_installed() {
    let io = MockIo::new(true, Vec::new(), Vec::new());
    let result = discover_with(&config(), &io).unwrap();
    assert_eq!(result.state, ChromeState::Installed);
    assert!(result.installed_path.is_some());
    assert!(result.endpoint.is_none());
    assert!(io.probes().is_empty());
    let remediation = result
        .remediation
        .expect("installed-but-idle Chrome needs guidance");
    assert!(remediation.contains("not running"));
}

#[test]
fn chrome_running_without_debugging_endpoint_returns_unavailable() {
    let io = MockIo::new(true, vec![chrome_proc(None)], Vec::new());
    let result = discover_with(&config(), &io).unwrap();
    assert_eq!(result.state, ChromeState::EndpointUnavailable);
    assert_eq!(result.running_processes.len(), 1);
    assert!(result.endpoint.is_none());
    assert!(io.probes().is_empty());
    let remediation = result.remediation.expect("no endpoint needs remediation");
    assert!(remediation.contains("--remote-debugging-port=9222"));
}

#[test]
fn closed_port_on_explicit_debug_flag_returns_unavailable() {
    let io = MockIo::new(
        true,
        vec![chrome_proc(Some("--remote-debugging-port=9222"))],
        vec![9222],
    );
    let result = discover_with(&config(), &io).unwrap();
    assert_eq!(result.state, ChromeState::EndpointUnavailable);
    let probes = io.probes();
    assert_eq!(probes.len(), 1);
    assert_eq!(probes[0].0, 9222);
    assert!(result.endpoint.is_none());
    assert!(result.remediation.is_some());
}

#[test]
fn closed_port_from_active_port_file_returns_unavailable() {
    let io = MockIo::new(true, vec![chrome_proc(None)], vec![9333]);
    let result = discover_with(&config(), &io).unwrap();
    assert_eq!(result.state, ChromeState::EndpointUnavailable);
    let probes = io.probes();
    assert_eq!(probes.len(), 1);
    assert_eq!(probes[0].0, 9333);
    assert!(result.endpoint.is_none());
}

#[test]
fn fallback_port_is_probed_when_no_candidate_ports_exist() {
    let mut cfg = config();
    cfg.fallback_port = 9222;
    let io = MockIo::new(true, vec![chrome_proc(None)], Vec::new());
    let result = discover_with(&cfg, &io).unwrap();
    assert_eq!(result.state, ChromeState::EndpointUnavailable);
    let probes = io.probes();
    assert_eq!(probes.len(), 1);
    assert_eq!(probes[0].0, 9222);
}

#[test]
fn reachable_endpoint_returns_available_state_and_endpoint() {
    let mut io = MockIo::new(
        true,
        vec![chrome_proc(Some("--remote-debugging-port=9444"))],
        vec![9444],
    );
    io.probe_result = Some(endpoint(9444));
    let result = discover_with(&config(), &io).unwrap();
    assert_eq!(result.state, ChromeState::EndpointAvailable);
    let ep = result.endpoint.expect("endpoint was reachable");
    assert_eq!(ep.port, 9444);
    assert_eq!(
        ep.browser_ws_url,
        "ws://127.0.0.1:9444/devtools/browser/abc"
    );
    assert_eq!(result.running_processes.len(), 1);
    assert!(result.remediation.is_none());
}

#[test]
fn every_probe_receives_only_remaining_budget() {
    let mut io = MockIo::new(true, vec![chrome_proc(None)], vec![9223, 9224]);
    io.probe_result = None;
    let cfg = config();
    let timeout = cfg.discovery_timeout_ms.max(50);
    let result = discover_with(&cfg, &io).unwrap();
    assert_eq!(result.state, ChromeState::EndpointUnavailable);
    let probes = io.probes();
    assert_eq!(probes.len(), 2);
    for (_port, budget) in &probes {
        assert!(*budget <= timeout, "probe exceeded the pass budget");
        assert!(*budget > timeout.saturating_sub(50));
    }
    assert!(probes[1].1 <= probes[0].1);
}

#[test]
fn state_descriptions_are_stable() {
    assert_eq!(
        ChromeState::NotInstalled.describe(),
        "Chrome is not installed"
    );
    assert_eq!(
        ChromeState::EndpointAvailable.describe(),
        "Chrome inspection endpoint is available"
    );
    assert_eq!(
        ChromeState::Connected.describe(),
        "Chrome adapter is connected"
    );
}

#[test]
fn refuses_remote_websocket_endpoints() {
    let url = "ws://evil.example.com:9222/devtools/browser/x";
    match check_dial(url) {
        Err(e) => assert_eq!(e.kind, ErrorKind::ProtocolError),
        Ok(_) => panic!("expected the connection attempt to be refused"),
    }
    assert!(check_dial("ws://127.0.0.1:9222/devtools/browser/x").is_ok());
}

#[test]
fn a_spent_budget_is_no_budget() {
    assert_eq!(probe_budget(100, 0), Some(100));
    assert_eq!(probe_budget(100, 40), Some(60));
    assert_eq!(probe_budget(100, 99), None);
    assert_eq!(probe_budget(100, 100), None);
    assert_eq!(probe_budget(100, 150), None);
}

#[test]
fn ports_are_tried_once_and_in_order() {
    assert_eq!(sorted_ports(&vec![9333, 9222, 9333]), vec![9222, 9333]);
    assert_eq!(plan_probes(&vec![9333, 9222], 9222), vec![9222, 9333]);
    assert_eq!(plan_probes(&Vec::new(), 9222), vec![9222]);
    assert_eq!(plan_probes(&Vec::new(), 0), Vec::<u16>::new());
}

#[test]
fn flags_are_read_from_command_lines() {
    assert_eq!(
        cmdline_flag("chrome.exe --remote-debugging-port=9222 --x", "--remote-debugging-port="),
        Some("9222".to_string())
    );
    assert_eq!(cmdline_flag("chrome.exe --x", "--remote-debugging-port="), None);
    assert_eq!(
        ports_from_processes(&vec![chrome_proc(Some("--remote-debugging-port=9333"))]),
        vec![9333]
    );
}

#[test]
fn active_port_files_name_a_port() {
    let found = parse_active_port("9222\n/devtools/browser/abc\n");
    assert_eq!(found, Some((9222, "/devtools/browser/abc".to_string())));
    assert_eq!(parse_active_port("nonsense"), None);
}

#[test]
fn answers_become_endpoints() {
    let body = r#"{"Browser":"Chrome/126.0","Protocol-Version":"1.3","webSocketDebuggerUrl":"ws://127.0.0.1:9222/devtools/browser/abc","User-Agent":"Mozilla/5.0"}"#;
    let e = endpoint_from_answer(9222, 200, body).unwrap();
    assert_eq!(e.browser_version, "Chrome/126.0");
    assert_eq!(e.protocol_version, "1.3");
    assert_eq!(e.browser_ws_url, "ws://127.0.0.1:9222/devtools/browser/abc");
    assert!(endpoint_from_answer(9222, 404, body).is_none());
    assert!(endpoint_from_answer(9222, 200, "not json").is_none());
}

#[test]
fn cached_results_grow_old() {
    let io = MockIo::new(false, Vec::new(), Vec::new());
    let mut cache = DiscoveryCache::new();
    assert!(cache.get(0).is_none());
    cache.put(1_000, discover_with(&config(), &io).unwrap());
    assert_eq!(cache.get(1_000).unwrap().state, ChromeState::NotInstalled);
    assert!(cache.get(1_000_000).is_none());
    cache.put(1_000, discover_with(&config(), &io).unwrap());
    cache.invalidate();
    assert!(cache.get(1_000).is_none());
}

#[test]
fn the_browser_is_told_as_it_was_found() {
    assert_eq!(
        application_state(ChromeState::Running),
        ApplicationState::RunningNotInspectable
    );
    let found = ChromeDiscoveryResult {
        state: ChromeState::EndpointAvailable,
        installed_path: Some("C:\\chrome.exe".to_string()),
        running_processes: vec![chrome_proc(None)],
        endpoint: Some(endpoint(9222)),
        remediation: None,
    };
    let info = application_info(&found, true, 3);
    assert_eq!(info.id, "chrome");
    assert_eq!(info.version, "Chrome/126.0.0.0");
    assert_eq!(info.state, ApplicationState::Connected);
    assert_eq!(info.capabilities.len(), 7);
    assert_eq!(info.details.uint_at("tabs"), Some(3));
    assert_eq!(info.details.uint_at("devtools_port"), Some(9222));
    let browser = browser_info(&found, None, None);
    assert_eq!(browser.tabs, 0);
    assert_eq!(browser.devtools_port, Some(9222));
    assert_eq!(browser.state, "Chrome inspection endpoint is available");
}

/// A surface on which every probe outlasts the whole pass and fails.
struct SlowIo {
    probed: Mutex<Vec<u16>>,
}

impl DiscoveryIo for SlowIo {
    fn installed_path(&self) -> Option<String> {
        Some("C:\\Program Files\\Google\\Chrome\\Application\\chrome.exe".to_string())
    }
    fn running_processes(&self) -> Vec<ProcessInfo> {
        vec![chrome_proc(None)]
    }
    fn devtools_ports(&self, _: &Vec<ProcessInfo>) -> Vec<u16> {
        vec![9223, 9224]
    }
    fn probe_endpoint(&self, port: u16, _budget_ms: u64) -> Option<ChromeEndpoint> {
        // Outlast the 100 ms discovery deadline, then fail.
        let began = std::time::Instant::now();
        while began.elapsed().as_millis() < 150 {
            std::hint::spin_loop();
        }
        self.probed.lock().unwrap().push(port);
        None
    }
}

#[test]
fn probing_stops_when_the_pass_deadline_is_exhausted() {
    let mut cfg = config();
    cfg.discovery_timeout_ms = 100;
    let io = SlowIo {
        probed: Mutex::new(Vec::new()),
    };
    let result = discover_with(&cfg, &io).unwrap();
    assert_eq!(result.state, ChromeState::EndpointUnavailable);
    // The first probe burned the whole budget, so the second candidate port is
    // never tried.
    assert_eq!(*io.probed.lock().unwrap(), vec![9223]);
}

#[test]
fn ports_are_probed_in_turn_until_one_answers() {
    let mut cfg = config();
    cfg.fallback_port = 9222;
    let io = MockIo::new(true, vec![chrome_proc(None)], vec![9230, 9224, 9230]);
    let none = discover_with(&cfg, &io).unwrap();
    assert_eq!(none.state, ChromeState::EndpointUnavailable);
    let ports: Vec<u16> = io.probes().iter().map(|p| p.0).collect();
    assert_eq!(ports, vec![9224, 9230, 9222]);
    let mut answering = MockIo::new(true, vec![chrome_proc(None)], vec![9230, 9224]);
    answering.probe_result = Some(endpoint(9224));
    let found = discover_with(&cfg, &answering).unwrap();
    assert_eq!(found.endpoint.unwrap().port, 9224);
    let ports: Vec<u16> = answering.probes().iter().map(|p| p.0).collect();
    assert_eq!(ports, vec![9224]);
}
