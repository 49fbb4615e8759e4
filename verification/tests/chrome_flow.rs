use winkit::chrome::attempt::{
    advance_attempt, begin_attempt, find_wanted, is_retryable, wanted_host, AttemptAction, AttemptEvent,
    AttemptPlan, Phase,
};
use winkit::chrome::cdp::{
    attached_session, call_timeout, evaluated, evaluated_bool, read_frame, read_reply, write_call,
    CdpEvent, CdpFrame,
};
use winkit::chrome::launch::LaunchMode;
use winkit::chrome::managed::{
    browser_exit_error, check_start, monitor_step, startup_wait, stop_step, ChildReport,
    ManagedSession, ManagedState, MonitorAction, SessionTable, StartAction, StartRun, StopAction,
};
use winkit::chrome::metrics::{
    collect_plan, growth, growth_rate, status_buckets, to_memory, to_network, to_runtime, trend_interval,
    CollectStep, MemoryInfo, NetworkSummary, RuntimeInfo, TabMetricsBundle, TrendMemory,
};
use winkit::chrome::page::{
    check_page_host, handshake_plan, navigated, observe_window, page_summary, plan_screenshot,
    resolve_tab_id, screenshot_result, HandshakeStep,
};
use winkit::chrome::report::{
    machine_time, process_totals, resource_usage, sampled_time, summary_value, tab_evidence,
    trend_evidence, ChromeProcessSummary,
};
use winkit::chrome::session::{
    exception_text, first_arg_text, parse_dom_counters, parse_heap, parse_metrics,
    parse_page_state, process_events, processes_from, targets_from, Observation,
};
use winkit::chrome::paths::PathStyle;
use winkit::chrome::tabs::{
    detect_by_title, find_active_tab, find_tab, finish_tabs, ids_in_title, page_tabs, probe_ids,
};
use winkit::errors::{ErrorKind, WinkitError};
use winkit::json::Json;
use winkit::models::{ChromeEndpoint, TargetInfo};
use winkit::providers::mock::MockWindowsBackend;
use winkit::tools::browser::list_sessions;

fn json(text: &str) -> Json {
    Json::parse(text).unwrap()
}

fn endpoint(url: &str) -> ChromeEndpoint {
    ChromeEndpoint {
        port: 9333,
        browser_ws_url: url.to_string(),
        browser_version: "Chrome/126.0.0.0".to_string(),
        protocol_version: "1.3".to_string(),
        user_agent: None,
    }
}

fn page_target(id: &str, title: &str, url: &str) -> TargetInfo {
    TargetInfo {
        id: id.to_string(),
        title: title.to_string(),
        url: url.to_string(),
        kind: "page".to_string(),
        attachable: true,
        browser_context_id: None,
    }
}

fn session(id: &str, url: &str) -> ManagedSession {
    ManagedSession::new(
        id.to_string(),
        format!("C:\\w\\session-{id}"),
        "C:\\w".to_string(),
        PathStyle::Windows,
        9333,
        false,
        Some(url.to_string()),
        LaunchMode::HeadedDefault,
        "2026-08-13T08:00:00.000Z".to_string(),
    )
}

/// Runs an attempt against a browser that answers as given, and hands back its
/// last action.
fn drive(
    plan: &AttemptPlan,
    found: &str,
    targets: &[TargetInfo],
    handshake: bool,
    shown: bool,
    alive_for: usize,
) -> AttemptAction {
    let (mut phase, mut action): (Phase, AttemptAction) = begin_attempt();
    let mut left: u64 = 10_000;
    let mut asked = 0;
    for _ in 0..1000 {
        let event = match &action {
            AttemptAction::AskChild => {
                asked += 1;
                AttemptEvent::ChildStatus { exited: asked > alive_for, remaining_ms: left }
            }
            AttemptAction::ProbeEndpoint { .. } => AttemptEvent::Endpoint {
                found: if found.is_empty() { None } else { Some(endpoint(found)) },
                remaining_ms: left,
            },
            AttemptAction::ProbeTargets { .. } => AttemptEvent::Targets {
                targets: targets.to_vec(),
                remaining_ms: left,
            },
            AttemptAction::VerifyReady { .. } => AttemptEvent::Handshake {
                ok: handshake,
                remaining_ms: left,
            },
            AttemptAction::CheckWindow => AttemptEvent::Window { shown, remaining_ms: left },
            AttemptAction::Sleep { ms } => {
                left = left.saturating_sub(*ms);
                AttemptEvent::Slept
            }
            _ => return action,
        };
        let (next, then) = advance_attempt(plan, phase, event);
        phase = next;
        action = then;
    }
    panic!("the attempt did not end")
}

fn plan(headless: bool) -> AttemptPlan {
    AttemptPlan {
        headless,
        host: wanted_host(&Some("http://localhost:3000/".to_string())),
        stability_ms: 0,
    }
}

const LOCAL: &str = "ws://127.0.0.1:9333/devtools/browser/abc";

#[test]
fn an_attempt_becomes_ready() {
    let targets = [page_target("T1", "App", "http://localhost:3000/")];
    let end = drive(&plan(false), LOCAL, &targets, true, true, 100);
    match end {
        AttemptAction::Ready { tab_id } => assert_eq!(tab_id, "T1"),
        _ => panic!("the attempt should have become ready"),
    }
}

#[test]
fn an_attempt_fails_for_one_reason() {
    let targets = [page_target("T1", "App", "http://localhost:3000/")];
    let foreign = [page_target("T1", "App", "http://elsewhere.example/")];
    let remote = "ws://evil.example.com:9222/x";
    assert!(matches!(
        drive(&plan(true), LOCAL, &targets, true, true, 0),
        AttemptAction::FailExited { .. }
    ));
    assert!(matches!(
        drive(&plan(true), remote, &targets, true, true, 100),
        AttemptAction::FailNotLoopback
    ));
    for end in [
        drive(&plan(true), "", &targets, true, true, 1000),
        drive(&plan(true), LOCAL, &foreign, true, true, 1000),
        drive(&plan(true), LOCAL, &targets, false, true, 1000),
        drive(&plan(false), LOCAL, &targets, true, false, 1000),
    ] {
        assert!(matches!(end, AttemptAction::FailDeadline));
    }
    assert!(matches!(
        drive(&plan(true), LOCAL, &targets, true, false, 1000),
        AttemptAction::Ready { .. }
    ));
    assert_eq!(find_wanted(&foreign.to_vec(), &plan(true).host), None);
}

#[test]
fn a_start_tries_two_modes() {
    let mut run = StartRun::new(false);
    match run.next(5_000) {
        StartAction::Try { mode, .. } => assert_eq!(mode, LaunchMode::HeadedDefault),
        _ => panic!("expected a try"),
    }
    let gone = WinkitError::new(ErrorKind::BrowserExited, "gone".to_string());
    let exit = AttemptAction::FailExited { reason: "gone" };
    assert!(run.attempt_failed(LaunchMode::HeadedDefault, gone, &Some(exit)).is_none());
    assert!(is_retryable(&AttemptAction::FailDeadline));
    match run.next(5_000) {
        StartAction::Try { mode, .. } => assert_eq!(mode, LaunchMode::HeadedSoftware),
        _ => panic!("expected a second try"),
    }
    let late = WinkitError::endpoint_unavailable("late");
    run.attempt_failed(LaunchMode::HeadedSoftware, late, &Some(AttemptAction::FailDeadline));
    match run.next(5_000) {
        StartAction::GiveUp { error } => {
            assert_eq!(error.kind, ErrorKind::BrowserExited);
            assert!(error.message.contains("headed-default"));
            assert!(error.message.contains("headed-software"));
        }
        _ => panic!("expected the start to be given up"),
    }
    let mut fatal = StartRun::new(true);
    let refused = WinkitError::protocol("not loopback");
    let remote = Some(AttemptAction::FailNotLoopback);
    assert!(fatal.attempt_failed(LaunchMode::HeadlessSoftware, refused, &remote).is_some());
    let mut unborn = StartRun::new(true);
    let broken = WinkitError::internal("no profile");
    assert!(unborn.attempt_failed(LaunchMode::HeadlessSoftware, broken, &None).is_some());
}

#[test]
fn starts_are_limited() {
    let ready = vec![ManagedState::Ready, ManagedState::Closed];
    assert!(check_start(true, true, &ready, 2).is_ok());
    assert_eq!(check_start(true, true, &ready, 1).unwrap_err().kind, ErrorKind::ConcurrencyLimit);
    assert_eq!(check_start(false, true, &ready, 2).unwrap_err().kind, ErrorKind::FeatureDisabled);
    assert!(check_start(true, false, &ready, 2).is_err());
    assert_eq!(startup_wait(Some(99_999), 20_000), 20_000);
}

#[test]
fn sessions_live_and_end() {
    let mut s = session("wk-1", "http://localhost:3000/");
    assert!(s.ensure_ready().is_err());
    s.mark_ready("T1".to_string());
    assert!(s.ensure_ready().is_ok());
    s.capture_exit(ChildReport {
        exit_code: Some(-5),
        diagnostics: Some("GPU process exited unexpectedly: exit_code=0xC0000022".to_string()),
    });
    assert_eq!(s.gpu_exit_code.as_deref(), Some("0xC0000022"));
    let e = browser_exit_error(&s);
    assert_eq!(e.kind, ErrorKind::BrowserExited);
    assert!(e.message.contains("-5"));
    assert!(s.claim_exit_cleanup());
    assert!(!s.claim_exit_cleanup());
    s.finish_stop(Some(Err("in use".to_string())));
    assert_eq!(s.state, ManagedState::CleanupFailed);
    let told = summary_value(&s);
    assert_eq!(told.text_at("state").as_deref(), Some("cleanup_failed"));
    assert_eq!(told.text_at("cleanup_error").as_deref(), Some("in use"));
    assert_eq!(told.text_at("profile").as_deref(), Some("session-wk-1"));
    assert_eq!(told.text_at("window_mode").as_deref(), Some("headed"));
    assert!(matches!(told.get("exit_code"), Some(Json::NegInt(-5))));
    let list = list_sessions(true, &vec![s]);
    assert_eq!(list.uint_at("count"), Some(1));
    assert_eq!(monitor_step(ManagedState::Ready, true), MonitorAction::HandleExit);
    assert_eq!(monitor_step(ManagedState::Ready, false), MonitorAction::Keep);
    assert_eq!(monitor_step(ManagedState::Stopping, true), MonitorAction::Leave);
    assert_eq!(stop_step(true, 0), StopAction::CleanUp);
    assert!(matches!(stop_step(false, 0), StopAction::Wait { .. }));
    assert_eq!(stop_step(false, 60_000), StopAction::Kill);
}

#[test]
fn tables_find_sessions() {
    let mut table = SessionTable::new();
    table.insert(session("b", "http://localhost:2/"));
    table.insert(session("a", "http://localhost:1/"));
    assert_eq!(table.states().len(), 2);
    assert_eq!(table.sessions[0].session_id, "a");
    assert_eq!(table.get("c").err().unwrap().kind, ErrorKind::NotFound);
    assert!(table.find_ready_for("http://localhost:1/").is_none());
    table.sessions[0].mark_ready("T".to_string());
    assert_eq!(table.find_ready_for("http://localhost:1/"), Some(0));
    assert_eq!(table.remove("a").unwrap().session_id, "a");
    assert!(table.remove("a").is_none());
}

#[test]
fn calls_and_replies_fit_together() {
    let call = write_call(7, "Page.navigate", json("{\"url\":\"x\"}"), &Some("S".to_string()));
    assert_eq!(
        call,
        "{\"id\":7,\"method\":\"Page.navigate\",\"params\":{\"url\":\"x\"},\"sessionId\":\"S\"}"
    );
    match read_frame("{\"id\":7,\"result\":{\"a\":1}}") {
        CdpFrame::Reply { id, .. } => assert_eq!(id, 7),
        _ => panic!("expected a reply"),
    }
    match read_frame("{\"method\":\"Network.x\",\"params\":{},\"sessionId\":\"S\"}") {
        CdpFrame::Event { event: e } => assert_eq!(e.method, "Network.x"),
        _ => panic!("expected an event"),
    }
    let fine = read_reply("M", &json("{\"result\":{\"a\":1}}")).ok().unwrap();
    assert_eq!(fine.uint_at("a"), Some(1));
    assert!(read_reply("M", &json("{\"error\":{\"message\":\"no\"}}")).is_err());
    assert_eq!(call_timeout("M").kind, ErrorKind::Timeout);
    assert_eq!(attached_session(&json("{\"sessionId\":\"S\"}")).unwrap(), "S");
    assert!(attached_session(&json("{}")).is_err());
    let value = evaluated(&json("{\"result\":{\"value\":true}}")).ok().unwrap();
    assert!(evaluated_bool(&value));
}

fn event(method: &str, params: &str) -> CdpEvent {
    CdpEvent {
        session_id: None,
        method: method.to_string(),
        params: json(params),
    }
}

fn events() -> Vec<CdpEvent> {
    vec![
        event("Network.requestWillBeSent", "{\"requestId\":\"1\",\"timestamp\":1.5,\"request\":{\"method\":\"GET\",\"url\":\"http://h/a?q=1\"}}"),
        event("Network.responseReceived", "{\"requestId\":\"1\",\"timestamp\":2.5,\"response\":{\"status\":404,\"mimeType\":\"text/html\"}}"),
        event("Network.requestWillBeSent", "{\"requestId\":\"2\",\"timestamp\":1.5,\"request\":{\"method\":\"GET\",\"url\":\"http://h/b\"}}"),
        event("Network.loadingFailed", "{\"requestId\":\"2\",\"errorText\":\"net::ERR\"}"),
        event("Runtime.consoleAPICalled", "{\"type\":\"error\",\"args\":[{\"value\":\"boom\"}]}"),
        event("Runtime.exceptionThrown", "{\"exceptionDetails\":{\"text\":\"Uncaught\",\"exception\":{\"description\":\"Error: bad\"}}}"),
    ]
}

#[test]
fn events_are_observed() {
    let mut o = Observation::new();
    process_events(&mut o, events());
    assert_eq!(o.requests.len(), 2);
    assert_eq!(o.requests[0].status, Some(404));
    assert!(!o.requests[0].url.contains("q=1"));
    assert!(o.requests[1].failed);
    assert_eq!(o.console[0].level, "error");
    assert_eq!(o.console[0].text, "boom");
    assert_eq!(o.exceptions.len(), 1);
    assert_eq!(first_arg_text(&json("{\"args\":[{\"value\":\"hi\"}]}")), "hi");
    assert!(exception_text(&json("{\"exceptionDetails\":{\"text\":\"Uncaught\"}}")).contains("Uncaught"));
    assert_eq!(status_buckets(&o.requests), [(404, 1)]);
}

#[test]
fn bundles_become_reports() {
    let steps = collect_plan(0);
    assert!(!steps.contains(&CollectStep::EnableNetwork));
    let steps = collect_plan(3_000);
    assert!(steps.contains(&CollectStep::DisableRuntime));
    let mut b = TabMetricsBundle::new("T1".to_string());
    b.absorb(CollectStep::HeapBefore, Some(json("{\"used\":100,\"total\":200,\"limit\":300}")));
    b.absorb(CollectStep::HeapAfter, Some(json("{\"used\":150,\"total\":200,\"limit\":300}")));
    b.absorb(CollectStep::Counters, Some(json("{\"documents\":1,\"nodes\":20,\"jsEventListeners\":3}")));
    b.absorb_events(3_000, events());
    let memory = to_memory(&b);
    assert_eq!(memory.dom_nodes, Some(20));
    assert_eq!(memory.growth_bytes, Some(50));
    let network = to_network(&b, &vec![Some(1_000), None]);
    assert_eq!((network.total_requests, network.failed), (2, 1));
    assert_eq!(network.status_buckets, [(404, 1)]);
    let runtime = to_runtime(&b);
    assert_eq!((runtime.console_errors, runtime.exceptions), (1, 1));
    assert_eq!(growth(100, 40), -60);
    assert_eq!(growth_rate(-60, 2_000), Some(-30));
    assert_eq!(growth_rate(5, 0), None);
}

#[test]
fn answers_are_parsed() {
    assert_eq!(parse_heap(&json("{\"used\":1,\"total\":2,\"limit\":3}")).total, 2);
    assert_eq!(parse_dom_counters(&json("{\"nodes\":7}")).nodes, 7);
    assert_eq!(parse_page_state(&json("{\"title\":\"T\"}")).title, "T");
    let metrics = parse_metrics(&json("{\"metrics\":[{\"name\":\"Nodes\",\"value\":5}]}"));
    assert_eq!(metrics.len(), 1);
    assert_eq!(metrics[0].0, "Nodes");
    let twice = parse_metrics(&json(
        "{\"metrics\":[{\"name\":\"A\",\"value\":1},{\"name\":\"B\",\"value\":2},{\"name\":\"A\",\"value\":3}]}",
    ));
    assert_eq!(twice.len(), 2);
    assert_eq!((twice[0].0.as_str(), twice[0].1.render()), ("A", "3".to_string()));
    assert_eq!((trend_interval(1), trend_interval(700)), (500, 700));
    let targets = targets_from(&json("{\"targetInfos\":[{\"targetId\":\"A\",\"type\":\"page\",\"title\":\"t\",\"url\":\"u\"}]}"));
    assert_eq!((targets[0].id.as_str(), targets[0].kind.as_str()), ("A", "page"));
    let processes = processes_from(&json("{\"processInfo\":[{\"type\":\"browser\",\"id\":42,\"cpuTime\":1.5}]}"));
    assert_eq!(processes[0].pid, 42);
}

#[test]
fn tabs_are_found() {
    let mut worker = page_target("W", "worker", "http://h/w.js");
    worker.kind = "service_worker".to_string();
    let targets = vec![
        page_target("A", "Mail", "http://h/mail"),
        worker,
        page_target("B", "News", "http://h/news"),
    ];
    let tabs = page_tabs(&targets);
    assert_eq!(tabs.len(), 2);
    assert_eq!(probe_ids(&tabs).len(), 2);
    let (tabs, active) = detect_by_title(tabs, "News - Google Chrome");
    assert_eq!(active.as_deref(), Some("B"));
    assert_eq!(find_tab(&tabs, "http://h/mail").unwrap(), 0);
    assert_eq!(find_tab(&tabs, "B").unwrap(), 1);
    assert!(find_tab(&tabs, "Z").is_err());
    assert_eq!(find_active_tab(&tabs, &active).unwrap(), 1);
    let shown = finish_tabs(tabs, &active, 1);
    assert_eq!(shown.len(), 1);
}

#[test]
fn pages_are_told() {
    assert_eq!(observe_window(Some(99_999), 3_000), 30_000);
    assert_eq!(observe_window(None, 3_000), 3_000);
    let mut o = Observation::new();
    process_events(&mut o, events());
    let told = page_summary("wk-1", &json("{\"title\":\"T\"}"), &o, 100, 120, 50);
    assert_eq!(told.text_at("session_id").as_deref(), Some("wk-1"));
    assert_eq!(handshake_plan(false, false)[0], HandshakeStep::Connect);
    assert!(check_page_host(&Json::text("http://localhost:3000/x"), "http://127.0.0.1:3000/").is_ok());
    assert!(check_page_host(&Json::text("http://example.com/"), "http://localhost/").is_err());
    assert_eq!(navigated("http://localhost/", "T").text_at("url").as_deref(), Some("http://localhost/"));
    let shot = plan_screenshot(Some(4_000), Some(100), 1_000);
    assert!(shot.params.is_object());
    let small = screenshot_result("wk-1", &json("{\"data\":\"aGk=\"}"), Some(1), Some(1), 10);
    assert!(small.is_ok());
    let large = screenshot_result("wk-1", &json("{\"data\":\"aGk=\"}"), Some(1), Some(1), 1);
    assert!(large.is_err());
    let mut s = session("wk-1", "http://localhost:3000/");
    let targets = vec![page_target("T9", "App", "http://localhost:3000/")];
    assert_eq!(resolve_tab_id(&mut s, &targets).unwrap(), "T9");
    assert!(resolve_tab_id(&mut session("x", "u"), &Vec::new()).is_err());
}

#[test]
fn the_browser_takes_its_share() {
    let mock = MockWindowsBackend::with_fixtures();
    let processes = mock.processes[1..4].to_vec();
    let (memory, time) = process_totals(&processes);
    assert_eq!((memory, time), (3_700_000_000, 370_368));
    assert_eq!(sampled_time(&vec![Some(5), None, Some(9)], &vec![Some(8), Some(1), Some(3)]), 3);
    assert_eq!(machine_time((10, 20), (15, 18)), 5);
    assert_eq!(machine_time((0, 0), (u64::MAX, 1)), u64::MAX);
    let usage = resource_usage(&Some(ChromeProcessSummary {
        processes,
        total_working_set_bytes: memory,
        total_cpu_time_ms: time,
        cpu_percent: json("42.5"),
    }));
    assert_eq!(usage.array_at("chrome_processes").unwrap().len(), 3);
    assert_eq!(usage.member("aggregate_cpu_percent").render(), "42.5");
    assert!(resource_usage(&None).member("total_working_set_bytes").is_null());
}

#[test]
fn a_diagnosis_rests_on_what_was_measured() {
    let usage = Some(ChromeProcessSummary {
        processes: Vec::new(),
        total_working_set_bytes: 0,
        total_cpu_time_ms: 0,
        cpu_percent: Json::UInt(12),
    });
    let memory = MemoryInfo {
        js_heap_used_bytes: Some(100),
        js_heap_total_bytes: Some(200),
        js_heap_limit_bytes: None,
        dom_documents: Some(1),
        dom_nodes: Some(7),
        js_event_listeners: None,
        growth_bytes: Some(50),
        growth_rate_bytes_per_second: Some(25),
    };
    let network = NetworkSummary {
        observation_ms: 2000,
        total_requests: 4,
        completed: 3,
        failed: 1,
        bytes_transferred: Some(900),
        status_buckets: Vec::new(),
        top_slowest: Vec::new(),
        failures: Vec::new(),
    };
    let runtime = RuntimeInfo {
        observation_ms: 2000,
        document_url: String::new(),
        ready_state: None,
        title: None,
        console_errors: 2,
        console_warnings: 3,
        exceptions: 1,
        console_samples: Vec::new(),
        exception_samples: Vec::new(),
    };
    let times = (Json::UInt(30), Json::UInt(90));
    let tab = tab_evidence(&usage, Json::UInt(5), Json::UInt(6), times, &memory, &network, &runtime);
    assert_eq!(tab.cpu_percent.render(), "12");
    assert_eq!((tab.js_heap_used_bytes, tab.heap_growth_bytes_per_second), (Some(100), Some(25)));
    assert!(!tab.heap_growth_sustained);
    assert_eq!((tab.long_task_ms.render(), tab.script_ms.render()), ("5".into(), "6".into()));
    assert_eq!((tab.total_requests, tab.failed_requests, tab.dom_nodes), (4, 1, Some(7)));
    assert_eq!((tab.avg_response_ms.render(), tab.p95_response_ms.render()), ("30".into(), "90".into()));
    assert_eq!((tab.bytes_transferred, tab.console_errors, tab.exceptions), (Some(900), 2, 1));
    let grown = TrendMemory {
        start_bytes: Some(1),
        end_bytes: Some(9),
        delta_bytes: Some(8),
        growth_rate_bytes_per_second: Some(4),
        sustained_growth: true,
    };
    let trend = trend_evidence(&None, Json::UInt(5), Json::UInt(6), &grown);
    assert_eq!(trend.cpu_percent.render(), "null");
    assert_eq!((trend.js_heap_used_bytes, trend.heap_growth_sustained), (Some(9), true));
    assert_eq!((trend.total_requests, trend.console_errors, trend.dom_nodes), (0, 0, None));
    assert_eq!(trend.avg_response_ms.render(), "null");
}

#[test]
fn titles_in_lower_case_are_looked_for() {
    let tabs = page_tabs(&vec![
        page_target("a", "News", "https://a/"),
        page_target("b", "", "https://b/"),
        page_target("c", "Mail", "https://c/"),
    ]);
    let lowered: Vec<String> = tabs.iter().map(|t| t.title.to_lowercase()).collect();
    assert_eq!(ids_in_title("news - browser", &lowered, &tabs), ["a"]);
    assert_eq!(ids_in_title("News - browser", &lowered, &tabs), Vec::<String>::new());
    assert_eq!(ids_in_title("mail and news", &lowered, &tabs), ["a", "c"]);
}
