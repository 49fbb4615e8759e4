use winkit::config::Config;
use winkit::errors::ErrorKind;
use winkit::json::Json;
use winkit::permissions::{check_permission, Capability, PermissionMode};
use winkit::models::ProcessInfo;
use winkit::providers::mock::{processes_named, MockWindowsBackend};
use winkit::server::profiles::ToolProfile;
use winkit::text::byte_len;
use winkit::tools::args::{
    clamp_limit, clamp_minutes, item_envelope, level_to_min, list_envelope, list_envelope_with,
    optional_parse_port, optional_string_array, parse_pid, parse_port, required_path,
    required_string, required_u32, required_u64, validated_path,
};
use winkit::tools::environment::{
    audit_path_env_handler, startup_programs_handler, system_update_status_handler,
    tool_guide_handler,
};
use winkit::tools::hardware::{probe_budget, probe_outcome, sample_window, sampling_from_args};
use winkit::tools::network::{
    find_process_on_port_handler, list_connections_handler, list_listening_ports_handler,
    list_network_interfaces_handler,
};
use winkit::tools::processes::{
    arrange_by, find_process_handler, get_process_handler, get_process_tree_handler,
    list_processes_handler, SortKey,
};
use winkit::tools::registry::registry_diagnostics_handler;
use winkit::tools::services::{get_service_handler, list_services_handler};
use winkit::tools::storage::{disk_usage_handler, list_drives_handler};
use winkit::tools::system::snapshot_handler;
use winkit::tools::toolset::{
    profile_gate_message, tool_action_capability, tool_in_profile, tool_profiles,
    verify_integrity, CallTerms, ToolDefinition, ToolRegistry,
};

fn state() -> MockWindowsBackend {
    MockWindowsBackend::with_fixtures()
}

fn args(text: &str) -> Json {
    Json::parse(text).unwrap()
}

/// The canonical tool set.
const EXPECTED_TOOLS: &[&str] = &[
    "audit_path_env",
    "battery_status",
    "correlate_recent_failures",
    "crash_history",
    "dev_environment",
    "diagnose_local_webapp",
    "diagnose_workspace",
    "directory_overview",
    "disk_health",
    "disk_performance",
    "disk_usage",
    "find_files",
    "find_process",
    "find_process_on_port",
    "get_application_errors",
    "get_process",
    "get_process_tree",
    "get_recent_events",
    "get_service",
    "get_system_errors",
    "hardware_snapshot",
    "list_connections",
    "list_dev_servers",
    "list_drives",
    "list_listening_ports",
    "list_network_interfaces",
    "list_processes",
    "list_services",
    "list_windows",
    "network_diagnose",
    "network_snapshot",
    "power_status",
    "privacy_info",
    "read_text_file",
    "registry_diagnostics",
    "shutdown_analysis",
    "snapshot",
    "startup_programs",
    "system_diagnose",
    "system_health",
    "system_health_trend",
    "system_info",
    "system_update_status",
    "thermal_snapshot",
    "tool_guide",
    "wait_for_http",
    "wait_for_port",
    "wait_for_process",
    "wifi_scan",
    "wifi_status",
    "workspace_snapshot",
];

#[test]
fn registry_builds_every_expected_tool_exactly_once() {
    let registry = ToolRegistry::build(&Config::default());
    let names = registry.all_names();
    assert_eq!(
        names, EXPECTED_TOOLS,
        "registered set diverged from the canonical list"
    );
    let mut unique = names.clone();
    unique.dedup();
    assert_eq!(names.len(), unique.len(), "a tool is registered twice");
    assert_eq!(verify_integrity(&registry).unwrap(), names.len());
}

#[test]
fn every_tool_has_complete_definition() {
    let registry = ToolRegistry::build(&Config::default());
    for name in registry.all_names() {
        let t = registry.get(&name).unwrap();
        assert!(!t.name.is_empty());
        assert!(!t.description.is_empty());
        assert!(t.input_schema.is_object(), "'{name}' has no object schema");
        assert!(
            t.capability.is_some() ^ tool_action_capability(&name).is_some(),
            "'{name}' must declare exactly one capability source"
        );
        assert!(t.timeout_ms.is_none() || t.timeout_ms.unwrap() > 0);
    }
}

#[test]
fn tools_list_reflects_effective_profile() {
    let mut cfg = Config::default();
    cfg.tools.profile = "core".to_string();
    let core = ToolRegistry::build(&cfg);
    let names: Vec<String> = core.schemas().into_iter().map(|row| row.name).collect();
    assert_eq!(
        names,
        [
            "list_listening_ports",
            "list_processes",
            "privacy_info",
            "system_health",
            "tool_guide",
            "workspace_snapshot"
        ]
    );

    let mut cfg = Config::default();
    cfg.tools.disabled = vec!["list_windows".to_string()];
    let reg = ToolRegistry::build(&cfg);
    assert!(!reg.schemas().iter().any(|row| row.name == "list_windows"));
}

#[test]
fn profile_exposed_tool_counts_are_exact() {
    for (profile, expected) in [("core", 6), ("developer", 51), ("full", 51)] {
        let mut cfg = Config::default();
        cfg.tools.profile = profile.to_string();
        let reg = ToolRegistry::build(&cfg);
        let n = reg.schemas().len();
        assert_eq!(
            n, expected,
            "profile '{profile}' exposes {n} tools, expected {expected}"
        );
    }
}

#[test]
fn profile_table_covers_all_registered_tools() {
    let registry = ToolRegistry::build(&Config::default());
    for name in registry.all_names() {
        assert!(
            !tool_profiles(&name).is_empty(),
            "tool '{name}' has an empty profile membership"
        );
        assert!(
            tool_in_profile(&name, ToolProfile::Full),
            "tool '{name}' should be visible in the full profile"
        );
    }
}

#[test]
fn developer_profile_is_a_superset_of_core() {
    for core_tool in [
        "workspace_snapshot",
        "system_health",
        "list_processes",
        "list_listening_ports",
        "privacy_info",
        "tool_guide",
    ] {
        assert!(tool_in_profile(core_tool, ToolProfile::Core));
        assert!(tool_in_profile(core_tool, ToolProfile::Developer));
    }
}

#[test]
fn level_mapping_covers_documented_names() {
    assert_eq!(level_to_min("critical"), Some(1));
    assert_eq!(level_to_min("ERROR"), Some(2));
    assert_eq!(level_to_min("warning"), Some(3));
    assert_eq!(level_to_min("info"), Some(4));
    assert_eq!(level_to_min("verbose"), Some(5));
    assert_eq!(level_to_min("nonsense"), None);
}

#[test]
fn clamp_limit_bounds_requests() {
    assert_eq!(clamp_limit(None, 200), 200);
    assert_eq!(clamp_limit(Some(0), 200), 1);
    assert_eq!(clamp_limit(Some(5000), 200), 200);
    assert_eq!(clamp_limit(Some(50), 200), 50);
}

#[test]
fn required_helpers_report_missing_keys() {
    let args = args("{\"pid\": 123}");
    assert_eq!(
        required_string(&args, "path").unwrap_err().kind,
        ErrorKind::InvalidArgument
    );
    assert_eq!(required_u32(&args, "pid").unwrap(), 123);
}

#[test]
fn list_processes_sort_by_and_top() {
    let out =
        list_processes_handler(&state(), &args("{\"sort_by\": \"memory\", \"top\": 2}"), 500)
            .unwrap();
    assert_eq!(out.count, 2);
    let mem: Vec<u64> = out
        .processes
        .iter()
        .map(|p| p.working_set_bytes.unwrap_or(0))
        .collect();
    assert!(
        mem.windows(2).all(|w| w[0] >= w[1]),
        "must be memory-descending"
    );

    let out =
        list_processes_handler(&state(), &args("{\"sort_by\": \"name\", \"top\": 3}"), 500)
            .unwrap();
    let names: Vec<String> = out
        .processes
        .iter()
        .map(|p| p.name.to_lowercase())
        .collect();
    let mut sorted = names.clone();
    sorted.sort();
    assert_eq!(names, sorted);
}

#[test]
fn list_processes_rejects_unknown_sort_key() {
    let err = list_processes_handler(&state(), &args("{\"sort_by\": \"magic\"}"), 500).unwrap_err();
    assert_eq!(err.kind, ErrorKind::InvalidArgument);
    assert_eq!(
        err.message,
        "'sort_by' must be memory, cpu_time, name, or pid (got 'magic')"
    );
}

#[test]
fn list_processes_reports_command_line_cap() {
    let out = list_processes_handler(&state(), &args("{}"), 500).unwrap();
    assert!(out.command_line_capped_at > 0);
    assert!(!out.truncated);
    let seven = list_processes_handler(&state(), &args("{\"limit\": 7}"), 500).unwrap();
    assert!(seven.truncated);
}

#[test]
fn long_command_lines_are_cut_and_equals_keep_their_order() {
    let mut mock = state();
    mock.processes[0].command_line = Some("x".repeat(400));
    let out = list_processes_handler(&mock, &args("{\"sort_by\": \"cpu_time\"}"), 500).unwrap();
    assert_eq!(out.processes[0].pid, 4);
    assert_eq!(out.processes[0].command_line.as_ref().unwrap().len(), 300);
    let pids: Vec<u32> = out.processes.iter().map(|p| p.pid).collect();
    assert_eq!(pids, [4, 420, 521, 618, 771, 900, 1010]);
    let by_pid = list_processes_handler(&mock, &args("{\"sort_by\": \"pid\", \"top\": 0}"), 500).unwrap();
    assert_eq!(by_pid.count, 1);
    assert_eq!(by_pid.processes[0].pid, 1010);
}

#[test]
fn processes_are_found_by_id_and_by_name() {
    let mock = state();
    assert_eq!(get_process_handler(&mock, &args("{\"pid\": 900}")).unwrap().name, "node.exe");
    let gone = get_process_handler(&mock, &args("{\"pid\": 77}")).unwrap_err();
    assert_eq!(gone.message, "no process with pid 77 is running");
    let zero = get_process_handler(&mock, &args("{\"pid\": 0}")).unwrap_err();
    assert_eq!(zero.message, "'pid' must be > 0");
    let tree = get_process_tree_handler(&mock, &args("{\"pid\": 420, \"max_depth\": 99}"), 16).unwrap();
    assert_eq!((tree.max_depth, tree.max_nodes), (16, 500));
    assert_eq!(tree.root.children.len(), 2);
    let flat = get_process_tree_handler(&mock, &args("{\"pid\": 420}"), 0).unwrap();
    assert_eq!(flat.max_depth, 0);
    let wide = get_process_tree_handler(&mock, &args("{\"pid\": 420, \"max_nodes\": 9999}"), 16).unwrap();
    assert_eq!(wide.max_nodes, 2000);
    let found = find_process_handler(&mock, &args("{\"query\": \" Chrome \"}"), 500).unwrap();
    assert_eq!(found.count, 3);
    assert!(!found.truncated);
    let none = find_process_handler(&mock, &args("{}"), 500).unwrap_err();
    assert_eq!(none.message, "missing required argument 'name'");
    let long = Json::object().with("name", Json::text(&"n".repeat(257)));
    let long = find_process_handler(&mock, &long, 500).unwrap_err();
    assert_eq!(long.message, "'name' is too long (max 256)");
    let blank = find_process_handler(&mock, &args("{\"name\": \"  \"}"), 500).unwrap_err();
    assert_eq!(blank.message, "'name' must not be empty");
}

#[test]
fn ports_and_connections_are_listed() {
    let mock = state();
    let ports = list_listening_ports_handler(&mock, &args("{\"limit\": 2}"), 500).unwrap();
    assert_eq!(ports.count, 2);
    assert!(ports.truncated);
    let owner = find_process_on_port_handler(&mock, &args("{\"port\": 3000}")).unwrap();
    assert!(owner.found);
    let free = find_process_on_port_handler(&mock, &args("{\"port\": 81}")).unwrap();
    assert_eq!(free.message.as_deref(), Some("no process is listening on port 81"));
    let bad = find_process_on_port_handler(&mock, &args("{\"port\": 70000}")).unwrap_err();
    assert_eq!(bad.message, "'port' must be an integer in 1..=65535");
    assert_eq!(list_connections_handler(&mock, &args("{}"), 500).unwrap().count, 1);
    let interfaces = list_network_interfaces_handler(&mock).unwrap();
    assert_eq!(interfaces.count, 1);
    assert!(interfaces.truncated);
}

#[test]
fn services_and_volumes_are_listed() {
    let mock = state();
    let services = list_services_handler(&mock, &args("{}"), 500).unwrap();
    assert_eq!((services.count, services.running), (1, 1));
    assert_eq!(get_service_handler(&mock, &args("{\"name\": \"spooler\"}")).unwrap().name, "Spooler");
    let none = get_service_handler(&mock, &args("{\"name\": \"x\"}")).unwrap_err();
    assert_eq!(none.message, "no service named 'x' was found");
    assert_eq!(list_drives_handler(&mock).unwrap().count, 1);
    let (path, usage) = disk_usage_handler(&mock, &args("{\"path\": \" C: \"}")).unwrap();
    assert_eq!((path.as_str(), usage.path.as_str()), ("C:", "C:"));
}

#[test]
fn registry_diagnostics_returns_fixture_view() {
    let out = registry_diagnostics_handler(&state(), &args("{}")).unwrap();
    assert_eq!(out.system_identity.product_name.as_deref(), Some("Windows 11 Pro"));
    assert_eq!(out.counts.startup_programs, 3);
    assert_eq!(out.counts.installed_software, 2);
    let startup = &out.startup_programs;
    assert!(startup.iter().any(|s| s.name == "OneDrive" && s.enabled));
    assert!(startup.iter().any(|s| s.name == "OldTool" && !s.enabled));
    assert!(startup
        .iter()
        .any(|s| s.hidden && s.entry_type == "run_once" && !s.impact.is_empty()));
}

#[test]
fn registry_diagnostics_skips_software_when_requested() {
    let out =
        registry_diagnostics_handler(&state(), &args("{\"include_software\": false}")).unwrap();
    assert!(out.installed_software.is_empty());
    assert_eq!(out.counts.installed_software, 0);
}

#[test]
fn registry_diagnostics_caps_software() {
    let out = registry_diagnostics_handler(&state(), &args("{\"max_software\": 1}")).unwrap();
    assert_eq!(out.installed_software.len(), 1);
    assert_eq!(out.counts.installed_software, 1);
}

#[test]
fn startup_programs_uses_registry_fixture() {
    let out = startup_programs_handler(&state()).unwrap();
    assert_eq!(out.count, 2);
    assert_eq!(out.enabled, 1);
}

#[test]
fn guide_lists_entries_and_every_referenced_tool_exists() {
    let out = tool_guide_handler();
    let entries = out.array_at("guide").unwrap();
    assert!(entries.len() >= 15);
    let reg = ToolRegistry::build(&Config::default());
    for e in entries {
        let tool = e.text_at("tool").unwrap();
        assert!(
            reg.get(&tool).is_some(),
            "guide references unknown tool '{tool}'"
        );
        assert!(e.array_at("symptoms").unwrap().len() >= 2);
    }
}

#[test]
fn updates_and_the_search_path_are_reported() {
    let mock = state();
    assert_eq!(system_update_status_handler(&mock, &args("{\"max_hotfixes\": 1}")).unwrap().hotfixes.len(), 1);
    assert_eq!(system_update_status_handler(&mock, &args("{}")).unwrap().hotfixes.len(), 2);
    assert_eq!(audit_path_env_handler(&mock).unwrap().missing_indexes, [3]);
}

#[test]
fn the_machine_at_a_glance() {
    let mut limits = Config::default().limits;
    limits.max_snapshot_processes = 2;
    let s = snapshot_handler(&state(), &limits).unwrap();
    assert_eq!(s.process_count, 7);
    assert!(s.processes_truncated);
    let pids: Vec<u32> = s.top_by_memory.iter().map(|p| p.pid).collect();
    assert_eq!(pids, [420, 521]);
    assert_eq!(s.listening_ports.len(), 3);
    assert!(!s.listening_ports_truncated);
    assert_eq!(s.services_running, 1);
    assert_eq!(s.window_samples[0].process_id, 420);
}

#[test]
fn windows_and_budgets_are_bounded() {
    assert_eq!(sample_window(None, 15_000), 1000);
    assert_eq!(sample_window(None, 400), 400);
    assert_eq!(sample_window(None, 0), 0);
    assert_eq!(sample_window(Some(0), 400), 1);
    assert_eq!(sample_window(Some(999), 400), 400);
    assert_eq!(probe_budget(5000, 1000), 5000);
    assert_eq!(probe_budget(500, 1000), 2000);
    assert_eq!(probe_budget(500, u64::MAX), u64::MAX);
    assert_eq!(sampling_from_args(&args("{\"sample_window_ms\": 8000}"), 5000, 15_000), (8000, 9000));
    let slow: Result<u8, _> = Err(winkit::errors::WinkitError::timeout("late"));
    assert_eq!(
        probe_outcome(slow, 250).unwrap_err().message,
        "hardware probe exceeded the 250 ms probe budget"
    );
}

#[test]
fn arguments_are_checked() {
    let a = args("{\"p\": 80, \"q\": 0, \"list\": [\" a \", \"\", 3], \"n\": 4294967297, \"t\": \" x \"}");
    assert_eq!(parse_port(&a, "p").unwrap(), 80);
    assert!(parse_port(&a, "q").is_err());
    assert_eq!(optional_parse_port(&a, "none").unwrap(), None);
    assert_eq!(parse_pid(&a, "p").unwrap(), 80);
    assert_eq!(optional_string_array(&a, "list"), Some(vec!["a".to_string()]));
    assert_eq!(required_u32(&a, "n").unwrap(), 1);
    assert_eq!(required_u64(&a, "n").unwrap(), 4294967297);
    assert_eq!(required_string(&a, "t").unwrap(), "x");
    assert_eq!(required_path(&a, "t").unwrap(), "x");
    assert_eq!(validated_path(" ").unwrap_err().message, "'path' must not be empty");
    assert_eq!(validated_path(&"p".repeat(32_769)).unwrap_err().message, "'path' is too long");
    assert_eq!(clamp_minutes(0), 1);
    assert_eq!(clamp_minutes(999_999), 129_600);
}

#[test]
fn envelopes_have_one_shape() {
    let list = list_envelope("rows", Json::Array(Vec::new()), 2, 2);
    assert_eq!(list.render(), "{\"count\":2,\"rows\":[],\"truncated\":true}");
    let more = list_envelope_with("rows", Json::Null, 1, 2, args("{\"extra\": 5}"));
    assert_eq!(more.render(), "{\"count\":1,\"extra\":5,\"rows\":null,\"truncated\":false}");
    assert_eq!(item_envelope("one", Json::Bool(true)).render(), "{\"one\":true}");
}

#[test]
fn schemas_describe_their_parameters() {
    let registry = ToolRegistry::build(&Config::default());
    let schema = &registry.get("get_process_tree").unwrap().input_schema;
    let expected = "{\"additionalProperties\":false,\"properties\":{\"max_depth\":{\"description\":\"Default: configured max find depth.\",\"maximum\":32,\"minimum\":1,\"type\":\"integer\"},\"max_nodes\":{\"default\":500,\"minimum\":1,\"type\":\"integer\"},\"pid\":{\"minimum\":1,\"type\":\"integer\"}},\"required\":[\"pid\"],\"type\":\"object\"}";
    assert_eq!(schema.render(), expected);
}

fn terms(operation_timeout_ms: u64) -> CallTerms {
    CallTerms {
        mode: PermissionMode::ReadOnly,
        operation_timeout_ms,
    }
}

#[test]
fn calls_are_refused_with_a_reason() {
    let mut cfg = Config::default();
    cfg.tools.profile = "core".to_string();
    cfg.tools.disabled = vec!["tool_guide".to_string()];
    let reg = ToolRegistry::build(&cfg);
    assert_eq!(reg.check_call("list_processes", terms(15_000)).unwrap(), 15_000);
    assert_eq!(reg.check_call("nope", terms(1)).unwrap_err().message, "unknown tool 'nope'");
    assert_eq!(
        reg.check_call("tool_guide", terms(1)).unwrap_err().message,
        "tool 'tool_guide' is disabled by configuration"
    );
    assert_eq!(
        reg.check_call("snapshot", terms(1)).unwrap_err().message,
        profile_gate_message("snapshot", ToolProfile::Core)
    );
    assert_eq!(
        profile_gate_message("snapshot", ToolProfile::Core),
        "tool 'snapshot' is not available in tool profile 'core'; this developer workflow tool is only enabled in tool profile 'developer' or 'full'"
    );
    assert_eq!(reg.profile(), ToolProfile::Core);
}

#[test]
fn incomplete_tools_are_found() {
    let mut reg = ToolRegistry::new(&Vec::new(), ToolProfile::Full);
    reg.register(ToolDefinition {
        name: "odd",
        description: "",
        input_schema: Json::object(),
        capability: Some(Capability::SystemRead),
        timeout_ms: None,
    });
    assert_eq!(verify_integrity(&reg).unwrap_err().message, "tool 'odd' has no description");
    reg.register(ToolDefinition {
        name: "odd",
        description: "now described",
        input_schema: Json::Null,
        capability: None,
        timeout_ms: None,
    });
    assert_eq!(reg.names(), ["odd"]);
    assert_eq!(
        verify_integrity(&reg).unwrap_err().message,
        "tool 'odd' has a non-object input schema"
    );
}

#[test]
fn modes_are_known_by_name() {
    assert_eq!(PermissionMode::parse("safe").unwrap(), PermissionMode::Safe);
    assert_eq!(
        PermissionMode::parse("root").unwrap_err().message,
        "unknown permission mode 'root'"
    );
    assert_eq!(Capability::SystemRead.as_str(), "system.read");
    assert_eq!(Capability::ApplicationTabsRead.as_str(), "application.tabs.read");
}

#[test]
fn numbers_are_integers_where_they_can_be() {
    let five = Json::number(serde_json::Number::from(5u64));
    assert!(matches!(five, Json::UInt(5)));
    let less = Json::number(serde_json::Number::from(-5i64));
    assert!(matches!(less, Json::NegInt(-5)));
    let half = Json::number(serde_json::Number::from_f64(2.5).unwrap());
    assert_eq!(half.render(), "2.5");
    match half.copy() {
        Json::Decimal(d) => assert_eq!(d.number().as_f64(), Some(2.5)),
        _ => panic!("a decimal was expected"),
    }
    let list = Json::parse("[2.5, -3, 18446744073709551615]").unwrap();
    assert_eq!(list.render(), "[2.5,-3,18446744073709551615]");
}

#[test]
fn modes_grant_reading_and_deny_actions() {
    let modes = [
        PermissionMode::Safe,
        PermissionMode::ReadOnly,
        PermissionMode::Approval,
        PermissionMode::Unrestricted,
    ];
    let registry = ToolRegistry::build(&Config::default());
    for mode in modes {
        let terms = CallTerms { mode, operation_timeout_ms: 1 };
        assert!(check_permission(mode, Some(Capability::ProcessRead), "t").is_ok());
        assert!(registry.check_call("list_processes", terms).is_ok());
        assert_eq!(PermissionMode::parse(mode.as_str()).unwrap(), mode);
    }
    let denied = check_permission(PermissionMode::ReadOnly, None, "t").unwrap_err();
    assert_eq!(denied.kind, ErrorKind::PermissionDenied);
    assert_eq!(
        denied.message,
        "tool 't' declares no read capability, and permission mode 'read_only' allows no actions"
    );
    assert!(check_permission(PermissionMode::Safe, None, "t").is_err());
    assert!(check_permission(PermissionMode::Approval, None, "t").is_ok());
}

#[test]
fn numbers_out_of_range_are_refused() {
    let a = args("{\"port\": 4294967376, \"pid\": 4294967297, \"most\": 65535, \"zero\": 0}");
    assert_eq!(parse_port(&a, "port").unwrap_err().kind, ErrorKind::InvalidArgument);
    assert_eq!(
        parse_port(&a, "port").unwrap_err().message,
        "'port' must be an integer in 1..=65535"
    );
    assert_eq!(optional_parse_port(&a, "port").unwrap_err().kind, ErrorKind::InvalidArgument);
    assert_eq!(parse_port(&a, "most").unwrap(), 65535);
    assert_eq!(parse_pid(&a, "pid").unwrap_err().kind, ErrorKind::InvalidArgument);
    assert_eq!(parse_pid(&a, "zero").unwrap_err().message, "'zero' must be > 0");
}

#[test]
fn a_list_is_cut_exactly_at_its_limit() {
    let none = list_envelope("items", Json::Array(Vec::new()), 0, 0);
    assert_eq!(none.render(), "{\"count\":0,\"items\":[],\"truncated\":true}");
    let short = list_envelope("items", Json::Array(Vec::new()), 0, 3);
    assert_eq!(short.render(), "{\"count\":0,\"items\":[],\"truncated\":false}");
    assert_eq!(clamp_limit(None, 0), 0);
}

#[test]
fn of_two_members_the_later_one_is_written() {
    let twice = Json::object().with("a", Json::UInt(1)).with("b", Json::UInt(2)).with("a", Json::UInt(3));
    assert_eq!(twice.render(), "{\"a\":3,\"b\":2}");
}

fn process(pid: u32, name: &str) -> ProcessInfo {
    ProcessInfo {
        pid,
        name: name.to_string(),
        parent_pid: None,
        executable_path: None,
        command_line: None,
        working_set_bytes: None,
        private_bytes: None,
        threads: None,
        start_time: None,
        cpu_time_ms: None,
        cpu_percent: None,
    }
}

#[test]
fn rows_follow_the_names_given_in_lower_case() {
    let processes = vec![process(1, "b"), process(2, "A"), process(3, "a")];
    let lowered: Vec<String> = ["b", "a", "a"].iter().map(|s| s.to_string()).collect();
    let pids = |rows: &[ProcessInfo]| rows.iter().map(|p| p.pid).collect::<Vec<u32>>();
    assert_eq!(pids(&arrange_by(&processes, &lowered, SortKey::Name, None)), [2, 3, 1]);
    assert_eq!(pids(&arrange_by(&processes, &lowered, SortKey::Name, Some(2))), [2, 3]);
    assert_eq!(pids(&arrange_by(&processes, &lowered, SortKey::Pid, None)), [3, 2, 1]);
    assert_eq!(pids(&processes_named(&processes, &lowered, "a", 10)), [2, 3]);
    assert_eq!(pids(&processes_named(&processes, &lowered, "a", 1)), [2]);
    assert!(processes_named(&processes, &lowered, "A", 10).is_empty());
}

#[test]
fn bytes_are_counted_as_written() {
    assert_eq!(byte_len(""), 0);
    assert_eq!(byte_len("abc"), 3);
    assert_eq!(byte_len("\u{e9}\u{20ac}"), 5);
}
