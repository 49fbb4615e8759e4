//! Startup programs, the search path, updates, and the guide to the tools.

use crate::errors::WinkitError;
use crate::json::{array_of_texts, json_views, lemma_array_view, text_array, Json, JsonView};
use crate::models::{PathAudit, StartupProgram, UpdateStatus};
use crate::permissions::Capability;
use crate::providers::windows::WindowsBackend;
use crate::text::views;
use crate::tools::args::{clamp_limit, limit_for, optional_usize, usize_at};
use crate::tools::schema::{input_schema, param_views, schema_view, Param, ParamKind, ParamView};
use crate::tools::toolset::{ToolDefinition, ToolView};
use vstd::prelude::*;
use vstd::string::*;

verus! {

/// The most updates that are listed.
pub const MAX_HOTFIXES: usize = 50;

/// How many updates are listed where no number is asked for.
pub const DEFAULT_HOTFIXES: usize = 10;

/// The programs that start with the machine.
#[derive(Debug)]
pub struct StartupPrograms {
    pub startup_programs: Vec<StartupProgram>,
    pub count: usize,
    pub enabled: usize,
}

/// The programs that are not hidden.
pub open spec fn shown_programs(programs: Seq<StartupProgram>) -> Seq<StartupProgram> {
    programs.filter(|p: StartupProgram| !p.hidden)
}

/// How many of the programs are enabled.
pub open spec fn enabled_count(programs: Seq<StartupProgram>) -> nat {
    programs.filter(|p: StartupProgram| p.enabled).len()
}

/// The programs that start with the machine, without the hidden ones.
pub fn startup_view(programs: Vec<StartupProgram>) -> (r: StartupPrograms)
    ensures
        r.startup_programs@ == shown_programs(programs@),
        r.count == shown_programs(programs@).len(),
        r.enabled == enabled_count(shown_programs(programs@)),
{
    let ghost all = programs@;
    let ghost keep = |p: StartupProgram| !p.hidden;
    let ghost on = |p: StartupProgram| p.enabled;
    let mut shown: Vec<StartupProgram> = Vec::new();
    let mut enabled: usize = 0;
    let total: usize = programs.len();
    proof {
        reveal(Seq::filter);
        assert(all.take(0).filter(keep) =~= Seq::<StartupProgram>::empty());
    }
    for p in it: programs
        invariant
            it.seq() == all,
            keep == (|p: StartupProgram| !p.hidden),
            on == (|p: StartupProgram| p.enabled),
            shown@ == all.take(it.index()).filter(keep),
            enabled == shown@.filter(on).len(),
            enabled <= shown@.len(),
            shown@.len() <= it.index() <= total,
            total == all.len(),
    {
        let ghost k = it.index();
        let ghost before = shown@;
        proof {
            reveal(Seq::filter);
            assert(all.take(k + 1).drop_last() =~= all.take(k));
            assert(all.take(k + 1).last() == p);
        }
        if !p.hidden {
            let is_enabled = p.enabled;
            shown.push(p);
            assert(shown@.drop_last() =~= before);
            if is_enabled {
                enabled = enabled + 1;
            }
        }
    }
    assert(all.take(all.len() as int) =~= all);
    let count: usize = shown.len();
    StartupPrograms { startup_programs: shown, count, enabled }
}

/// The programs that start with the machine.
pub fn startup_programs_handler<B: WindowsBackend>(backend: &B) -> (r: Result<
    StartupPrograms,
    WinkitError,
>)
    ensures
        exists|answer: Result<crate::models::RegistryDiagnostics, WinkitError>| #[trigger]
            call_ensures(B::registry_diagnostics, (backend, false, 0usize), answer) && (
            match answer {
                Ok(d) => r matches Ok(s) && s.startup_programs@ == shown_programs(
                    d.startup_programs@,
                ) && s.count == shown_programs(d.startup_programs@).len() && s.enabled
                    == enabled_count(shown_programs(d.startup_programs@)),
                Err(e) => r == Err::<StartupPrograms, WinkitError>(e),
            }),
{
    match backend.registry_diagnostics(false, 0) {
        Ok(d) => Ok(startup_view(d.startup_programs)),
        Err(e) => Err(e),
    }
}

/// What is wrong with the search path.
pub fn audit_path_env_handler<B: WindowsBackend>(backend: &B) -> (r: Result<
    PathAudit,
    WinkitError,
>)
    ensures
        call_ensures(B::path_audit, (backend,), r),
{
    backend.path_audit()
}

/// How many updates are listed.
pub open spec fn hotfix_limit(args: JsonView) -> usize {
    match usize_at(args, "max_hotfixes"@) {
        Some(n) => limit_for(Some(n), MAX_HOTFIXES),
        None => DEFAULT_HOTFIXES,
    }
}

/// Whether updates are pending or installed.
pub fn system_update_status_handler<B: WindowsBackend>(backend: &B, args: &Json) -> (r: Result<
    UpdateStatus,
    WinkitError,
>)
    ensures
        call_ensures(B::update_status, (backend, hotfix_limit(args@)), r),
{
    let limit: usize = match optional_usize(args, "max_hotfixes") {
        Some(n) => clamp_limit(Some(n), MAX_HOTFIXES),
        None => DEFAULT_HOTFIXES,
    };
    backend.update_status(limit)
}

/// One row of the guide: what is seen, which tool helps, how it is called, and
/// what to know of it.
pub open spec fn guide_row(
    symptoms: Seq<Seq<char>>,
    tool: Seq<char>,
    example_args: JsonView,
    notes: Seq<char>,
) -> JsonView {
    JsonView::object().with("symptoms"@, text_array(symptoms)).with(
        "tool"@,
        JsonView::Text(tool),
    ).with("example_args"@, example_args).with("notes"@, JsonView::Text(notes))
}

fn guide_entry(symptoms: Vec<String>, tool: &str, example_args: Json, notes: &str) -> (r: Json)
    ensures
        r@ == guide_row(views(symptoms@), tool@, example_args@, notes@),
{
    Json::object().with("symptoms", array_of_texts(&symptoms)).with("tool", Json::text(tool)).with(
        "example_args",
        example_args,
    ).with("notes", Json::text(notes))
}

/// The rows of the guide.
pub open spec fn guide_rows() -> Seq<JsonView> {
    seq![
        guide_row(
            seq!["high memory"@, "RAM"@, "what is eating my RAM"@, "slow machine"@, "performance"@],
            "system_health"@,
            JsonView::object(),
            "Grouped per-application CPU/memory with statuses; follow up with get_process or get_process_tree on a specific PID."@,
        ),
        guide_row(
            seq!["overall diagnosis"@, "full checkup"@, "something is wrong"@],
            "system_diagnose"@,
            JsonView::object(),
            "Ranked evidence-backed findings across memory, storage, battery, thermal, Wi-Fi. Start here for vague complaints."@,
        ),
        guide_row(
            seq!["disk space"@, "disk full"@, "storage pressure"@, "free space"@],
            "directory_overview"@,
            JsonView::object().with("path"@, JsonView::Text("<suspect folder>"@)),
            "Recursive size per child, largest first. Use list_drives/disk_usage to find which drive is low first."@,
        ),
        guide_row(
            seq!["read a log file"@, "read config"@, "see file contents"@, "tail a log"@],
            "read_text_file"@,
            JsonView::object().with("path"@, JsonView::Text("<absolute path>"@)).with("mode"@, JsonView::Text("tail"@)),
            "Bounded text read; head/tail/all modes; binary files are refused."@,
        ),
        guide_row(
            seq!["find a file"@, "locate config"@, "where is this file"@, "lost file"@],
            "find_files"@,
            JsonView::object().with("root"@, JsonView::Text("<start dir>"@)).with("pattern"@, JsonView::Text("*.log"@)),
            "Wildcard filename search under one root, bounded depth/results."@,
        ),
        guide_row(
            seq!["crash"@, "BSOD"@, "application error"@, "what crashed"@],
            "crash_history"@,
            JsonView::object().with("since_minutes"@, JsonView::Int(1440)),
            "Application errors + WER + bugchecks in one report."@,
        ),
        guide_row(
            seq!["why did my pc restart"@, "unexpected reboot"@, "power loss"@, "shutdown"@],
            "shutdown_analysis"@,
            JsonView::object().with("since_minutes"@, JsonView::Int(720)),
            "Classifies clean vs dirty shutdowns; pair with system_update_status to rule out update reboots."@,
        ),
        guide_row(
            seq!["pending reboot"@, "windows update"@, "hotfix"@, "KB"@],
            "system_update_status"@,
            JsonView::object(),
            "Reboot-pending markers plus recent hotfixes."@,
        ),
        guide_row(
            seq!["port already in use"@, "port conflict"@, "who listens on port"@, "EADDRINUSE"@],
            "list_listening_ports"@,
            JsonView::object(),
            "Then find_process_on_port(port=N) for ownership; list_connections for outbound state."@,
        ),
        guide_row(
            seq!["local server not reachable"@, "dev server broken"@, "localhost refuses connection"@],
            "diagnose_local_webapp"@,
            JsonView::object().with("url"@, JsonView::Text("http://localhost:3000"@)),
            "End-to-end: port owner, HTTP probe, workspace correlation."@,
        ),
        guide_row(
            seq!["service failed"@, "is service running"@, "windows service"@],
            "get_service"@,
            JsonView::object().with("name"@, JsonView::Text("<service name>"@)),
            "Use list_services first when the exact name is unknown."@,
        ),
        guide_row(
            seq!["event log"@, "error log"@, "event viewer"@, "recent errors"@],
            "get_system_errors"@,
            JsonView::object().with("max_results"@, JsonView::Int(20)),
            "Bound results (max_results/since_minutes); message text is truncated per event."@,
        ),
        guide_row(
            seq!["cpu temperature"@, "fan spinning"@, "overheating"@, "thermal"@],
            "thermal_snapshot"@,
            JsonView::object(),
            "Pair with hardware_snapshot for clocks/utilization context."@,
        ),
        guide_row(
            seq!["battery health"@, "battery drains"@, "on battery"@],
            "battery_status"@,
            JsonView::object(),
            "Design vs full-charge capacity, cycle count when available."@,
        ),
        guide_row(
            seq!["wifi slow"@, "signal strength"@, "wireless"@],
            "network_diagnose"@,
            JsonView::object(),
            "Signal, link speed, gateway reachability; wifi_scan lists nearby networks when enabled."@,
        ),
        guide_row(
            seq!["process tree"@, "child processes"@, "which process spawned"@],
            "get_process_tree"@,
            JsonView::object().with("pid"@, JsonView::Int(1234)),
            "Bounded-depth ancestry/descendants of one PID."@,
        ),
        guide_row(
            seq!["workspace"@, "project scan"@, "repo info"@, "package managers"@],
            "workspace_snapshot"@,
            JsonView::object().with("workspace_path"@, JsonView::Text("<project dir>"@)),
            "Languages/frameworks/scripts/git state; diagnose_workspace adds live findings."@,
        ),
        guide_row(
            seq!["dev tools missing"@, "node not found"@, "PATH broken"@, "command not recognized"@, "'git' is not recognized"@],
            "audit_path_env"@,
            JsonView::object(),
            "Per-entry existence/duplicate checks; also try dev_environment to see which dev tools probe successfully."@,
        ),
        guide_row(
            seq!["startup programs"@, "autorun"@, "runs at boot"@, "disable startup"@],
            "startup_programs"@,
            JsonView::object(),
            "Run/RunOnce entries with enabled state. WinKit is read-only: it cannot disable anything."@,
        ),
    ]
}

/// The rows of the guide.
pub fn guide_entries() -> (r: Vec<Json>)
    ensures
        json_views(r@) == guide_rows(),
{
    let mut rows: Vec<Json> = Vec::new();
    let seen: Vec<String> = vec!["high memory".to_string(), "RAM".to_string(), "what is eating my RAM".to_string(), "slow machine".to_string(), "performance".to_string()];
    assert(views(seen@) =~= seq!["high memory"@, "RAM"@, "what is eating my RAM"@, "slow machine"@, "performance"@]);
    rows.push(
        guide_entry(
            seen,
            "system_health",
            Json::object(),
            "Grouped per-application CPU/memory with statuses; follow up with get_process or get_process_tree on a specific PID.",
        ),
    );
    let seen: Vec<String> = vec!["overall diagnosis".to_string(), "full checkup".to_string(), "something is wrong".to_string()];
    assert(views(seen@) =~= seq!["overall diagnosis"@, "full checkup"@, "something is wrong"@]);
    rows.push(
        guide_entry(
            seen,
            "system_diagnose",
            Json::object(),
            "Ranked evidence-backed findings across memory, storage, battery, thermal, Wi-Fi. Start here for vague complaints.",
        ),
    );
    let seen: Vec<String> = vec!["disk space".to_string(), "disk full".to_string(), "storage pressure".to_string(), "free space".to_string()];
    assert(views(seen@) =~= seq!["disk space"@, "disk full"@, "storage pressure"@, "free space"@]);
    rows.push(
        guide_entry(
            seen,
            "directory_overview",
            Json::object().with("path", Json::text("<suspect folder>")),
            "Recursive size per child, largest first. Use list_drives/disk_usage to find which drive is low first.",
        ),
    );
    let seen: Vec<String> = vec!["read a log file".to_string(), "read config".to_string(), "see file contents".to_string(), "tail a log".to_string()];
    assert(views(seen@) =~= seq!["read a log file"@, "read config"@, "see file contents"@, "tail a log"@]);
    rows.push(
        guide_entry(
            seen,
            "read_text_file",
            Json::object().with("path", Json::text("<absolute path>")).with("mode", Json::text("tail")),
            "Bounded text read; head/tail/all modes; binary files are refused.",
        ),
    );
    let seen: Vec<String> = vec!["find a file".to_string(), "locate config".to_string(), "where is this file".to_string(), "lost file".to_string()];
    assert(views(seen@) =~= seq!["find a file"@, "locate config"@, "where is this file"@, "lost file"@]);
    rows.push(
        guide_entry(
            seen,
            "find_files",
            Json::object().with("root", Json::text("<start dir>")).with("pattern", Json::text("*.log")),
            "Wildcard filename search under one root, bounded depth/results.",
        ),
    );
    let seen: Vec<String> = vec!["crash".to_string(), "BSOD".to_string(), "application error".to_string(), "what crashed".to_string()];
    assert(views(seen@) =~= seq!["crash"@, "BSOD"@, "application error"@, "what crashed"@]);
    rows.push(
        guide_entry(
            seen,
            "crash_history",
            Json::object().with("since_minutes", Json::UInt(1440)),
            "Application errors + WER + bugchecks in one report.",
        ),
    );
    let seen: Vec<String> = vec!["why did my pc restart".to_string(), "unexpected reboot".to_string(), "power loss".to_string(), "shutdown".to_string()];
    assert(views(seen@) =~= seq!["why did my pc restart"@, "unexpected reboot"@, "power loss"@, "shutdown"@]);
    rows.push(
        guide_entry(
            seen,
            "shutdown_analysis",
            Json::object().with("since_minutes", Json::UInt(720)),
            "Classifies clean vs dirty shutdowns; pair with system_update_status to rule out update reboots.",
        ),
    );
    let seen: Vec<String> = vec!["pending reboot".to_string(), "windows update".to_string(), "hotfix".to_string(), "KB".to_string()];
    assert(views(seen@) =~= seq!["pending reboot"@, "windows update"@, "hotfix"@, "KB"@]);
    rows.push(
        guide_entry(
            seen,
            "system_update_status",
            Json::object(),
            "Reboot-pending markers plus recent hotfixes.",
        ),
    );
    let seen: Vec<String> = vec!["port already in use".to_string(), "port conflict".to_string(), "who listens on port".to_string(), "EADDRINUSE".to_string()];
    assert(views(seen@) =~= seq!["port already in use"@, "port conflict"@, "who listens on port"@, "EADDRINUSE"@]);
    rows.push(
        guide_entry(
            seen,
            "list_listening_ports",
            Json::object(),
            "Then find_process_on_port(port=N) for ownership; list_connections for outbound state.",
        ),
    );
    let seen: Vec<String> = vec!["local server not reachable".to_string(), "dev server broken".to_string(), "localhost refuses connection".to_string()];
    assert(views(seen@) =~= seq!["local server not reachable"@, "dev server broken"@, "localhost refuses connection"@]);
    rows.push(
        guide_entry(
            seen,
            "diagnose_local_webapp",
            Json::object().with("url", Json::text("http://localhost:3000")),
            "End-to-end: port owner, HTTP probe, workspace correlation.",
        ),
    );
    let seen: Vec<String> = vec!["service failed".to_string(), "is service running".to_string(), "windows service".to_string()];
    assert(views(seen@) =~= seq!["service failed"@, "is service running"@, "windows service"@]);
    rows.push(
        guide_entry(
            seen,
            "get_service",
            Json::object().with("name", Json::text("<service name>")),
            "Use list_services first when the exact name is unknown.",
        ),
    );
    let seen: Vec<String> = vec!["event log".to_string(), "error log".to_string(), "event viewer".to_string(), "recent errors".to_string()];
    assert(views(seen@) =~= seq!["event log"@, "error log"@, "event viewer"@, "recent errors"@]);
    rows.push(
        guide_entry(
            seen,
            "get_system_errors",
            Json::object().with("max_results", Json::UInt(20)),
            "Bound results (max_results/since_minutes); message text is truncated per event.",
        ),
    );
    let seen: Vec<String> = vec!["cpu temperature".to_string(), "fan spinning".to_string(), "overheating".to_string(), "thermal".to_string()];
    assert(views(seen@) =~= seq!["cpu temperature"@, "fan spinning"@, "overheating"@, "thermal"@]);
    rows.push(
        guide_entry(
            seen,
            "thermal_snapshot",
            Json::object(),
            "Pair with hardware_snapshot for clocks/utilization context.",
        ),
    );
    let seen: Vec<String> = vec!["battery health".to_string(), "battery drains".to_string(), "on battery".to_string()];
    assert(views(seen@) =~= seq!["battery health"@, "battery drains"@, "on battery"@]);
    rows.push(
        guide_entry(
            seen,
            "battery_status",
            Json::object(),
            "Design vs full-charge capacity, cycle count when available.",
        ),
    );
    let seen: Vec<String> = vec!["wifi slow".to_string(), "signal strength".to_string(), "wireless".to_string()];
    assert(views(seen@) =~= seq!["wifi slow"@, "signal strength"@, "wireless"@]);
    rows.push(
        guide_entry(
            seen,
            "network_diagnose",
            Json::object(),
            "Signal, link speed, gateway reachability; wifi_scan lists nearby networks when enabled.",
        ),
    );
    let seen: Vec<String> = vec!["process tree".to_string(), "child processes".to_string(), "which process spawned".to_string()];
    assert(views(seen@) =~= seq!["process tree"@, "child processes"@, "which process spawned"@]);
    rows.push(
        guide_entry(
            seen,
            "get_process_tree",
            Json::object().with("pid", Json::UInt(1234)),
            "Bounded-depth ancestry/descendants of one PID.",
        ),
    );
    let seen: Vec<String> = vec!["workspace".to_string(), "project scan".to_string(), "repo info".to_string(), "package managers".to_string()];
    assert(views(seen@) =~= seq!["workspace"@, "project scan"@, "repo info"@, "package managers"@]);
    rows.push(
        guide_entry(
            seen,
            "workspace_snapshot",
            Json::object().with("workspace_path", Json::text("<project dir>")),
            "Languages/frameworks/scripts/git state; diagnose_workspace adds live findings.",
        ),
    );
    let seen: Vec<String> = vec!["dev tools missing".to_string(), "node not found".to_string(), "PATH broken".to_string(), "command not recognized".to_string(), "'git' is not recognized".to_string()];
    assert(views(seen@) =~= seq!["dev tools missing"@, "node not found"@, "PATH broken"@, "command not recognized"@, "'git' is not recognized"@]);
    rows.push(
        guide_entry(
            seen,
            "audit_path_env",
            Json::object(),
            "Per-entry existence/duplicate checks; also try dev_environment to see which dev tools probe successfully.",
        ),
    );
    let seen: Vec<String> = vec!["startup programs".to_string(), "autorun".to_string(), "runs at boot".to_string(), "disable startup".to_string()];
    assert(views(seen@) =~= seq!["startup programs"@, "autorun"@, "runs at boot"@, "disable startup"@]);
    rows.push(
        guide_entry(
            seen,
            "startup_programs",
            Json::object(),
            "Run/RunOnce entries with enabled state. WinKit is read-only: it cannot disable anything.",
        ),
    );
    assert(json_views(rows@) =~= guide_rows());
    rows
}

/// The tools that the guide leads to.
pub open spec fn guided_tools() -> Seq<Seq<char>> {
    seq![
        "system_health"@,
        "system_diagnose"@,
        "directory_overview"@,
        "read_text_file"@,
        "find_files"@,
        "crash_history"@,
        "shutdown_analysis"@,
        "system_update_status"@,
        "list_listening_ports"@,
        "diagnose_local_webapp"@,
        "get_service"@,
        "get_system_errors"@,
        "thermal_snapshot"@,
        "battery_status"@,
        "network_diagnose"@,
        "get_process_tree"@,
        "workspace_snapshot"@,
        "audit_path_env"@,
        "startup_programs"@,
    ]
}

/// Every row of the guide names its tool.
pub proof fn law_guide_names_its_tools(i: int)
    requires
        0 <= i < guide_rows().len(),
    ensures
        guide_rows().len() == guided_tools().len(),
        guide_rows()[i].text_at("tool"@) == Some(guided_tools()[i]),
{
    reveal_strlit("symptoms");
    reveal_strlit("tool");
    reveal_strlit("example_args");
    reveal_strlit("notes");
    assert("tool"@.len() == 4 && "symptoms"@.len() == 8 && "example_args"@.len() == 12
        && "notes"@.len() == 5);
}

/// The rules of use.
pub open spec fn guide_rules() -> Seq<Seq<char>> {
    seq![
        "Every tool is read-only: WinKit never writes, kills, or changes anything."@,
        "Prefer the high-level diagnose_* tools before raw listing tools."@,
        "All list tools take limits; pass them to keep responses small."@,
        "Reports separate measured evidence from interpretation; findings carry stable IDs and confidence."@,
    ]
}

/// What the profiles offer.
pub open spec fn guide_profiles() -> JsonView {
    JsonView::object().with("core"@, JsonView::Text("6 safe essentials (low-latency)"@)).with(
        "developer"@,
        JsonView::Text("recommended default; all workflow + diagnostic tools"@),
    ).with("full"@, JsonView::Text("identical set to developer today"@))
}

/// The guide to the tools. It is the same on every machine.
pub fn tool_guide_handler() -> (r: Json)
    ensures
        r@ == JsonView::object().with("guide"@, JsonView::Array(guide_rows())).with(
            "profiles"@,
            guide_profiles(),
        ).with("rules"@, text_array(guide_rules())),
{
    let rows = guide_entries();
    proof {
        lemma_array_view(rows);
    }
    let rules: Vec<String> = vec![
        "Every tool is read-only: WinKit never writes, kills, or changes anything.".to_string(),
        "Prefer the high-level diagnose_* tools before raw listing tools.".to_string(),
        "All list tools take limits; pass them to keep responses small.".to_string(),
        "Reports separate measured evidence from interpretation; findings carry stable IDs and confidence.".to_string(),
    ];
    assert(views(rules@) =~= guide_rules());
    let profiles = Json::object().with("core", Json::text("6 safe essentials (low-latency)")).with(
        "developer",
        Json::text("recommended default; all workflow + diagnostic tools"),
    ).with("full", Json::text("identical set to developer today"));
    Json::object().with("guide", Json::Array(rows)).with("profiles", profiles).with(
        "rules",
        array_of_texts(&rules),
    )
}

/// What the tool `startup_programs` does, in words.
pub const STARTUP_PROGRAMS_ABOUT: &'static str = "List autostart entries from Run/RunOnce keys under HKLM and HKCU with their command line and enabled/disabled state (from StartupApproved). Answers \"why does X start with my PC?\" without the full registry_diagnostics payload.";

/// The tool `startup_programs`.
pub open spec fn startup_programs_tool() -> ToolView {
    ToolView {
        name: "startup_programs"@,
        description: STARTUP_PROGRAMS_ABOUT@,
        input_schema: schema_view(Seq::empty()),
        capability: Some(Capability::RegistryRead),
        timeout_ms: None,
    }
}

/// The tool `startup_programs`.
pub fn startup_programs_definition() -> (r: ToolDefinition)
    ensures
        r@ == startup_programs_tool(),
{
    let params: Vec<Param> = Vec::new();
    assert(param_views(params@) =~= Seq::<ParamView>::empty());
    ToolDefinition {
        name: "startup_programs",
        description: STARTUP_PROGRAMS_ABOUT,
        input_schema: input_schema(&params),
        capability: Some(Capability::RegistryRead),
        timeout_ms: None,
    }
}

/// What the tool `audit_path_env` does, in words.
pub const AUDIT_PATH_ENV_ABOUT: &'static str = "Audit the PATH environment variable: every process entry checked for existence, cross-scope duplicates, and empty ';;' entries, compared against the machine (HKLM) and user (HKCU) scope definitions. Answers \"why can't my shell find this tool?\". Read-only; %VAR% segments are expanded for existence checks only.";

/// The tool `audit_path_env`.
pub open spec fn audit_path_env_tool() -> ToolView {
    ToolView {
        name: "audit_path_env"@,
        description: AUDIT_PATH_ENV_ABOUT@,
        input_schema: schema_view(Seq::empty()),
        capability: Some(Capability::SystemRead),
        timeout_ms: None,
    }
}

/// The tool `audit_path_env`.
pub fn audit_path_env_definition() -> (r: ToolDefinition)
    ensures
        r@ == audit_path_env_tool(),
{
    let params: Vec<Param> = Vec::new();
    assert(param_views(params@) =~= Seq::<ParamView>::empty());
    ToolDefinition {
        name: "audit_path_env",
        description: AUDIT_PATH_ENV_ABOUT,
        input_schema: input_schema(&params),
        capability: Some(Capability::SystemRead),
        timeout_ms: None,
    }
}

/// What the tool `system_update_status` does, in words.
pub const SYSTEM_UPDATE_STATUS_ABOUT: &'static str = "Windows update posture in one call: whether a reboot is pending (Component Based Servicing / Windows Update / PendingFileRenameOperations markers), plus the most recent installed hotfixes (KB IDs, newest first). Pairs with shutdown_analysis when investigating surprise reboots.";

/// The parameters of the tool `system_update_status`.
pub open spec fn system_update_status_params() -> Seq<ParamView> {
    seq![
        ParamView::new("max_hotfixes"@, ParamKind::Integer)
            .at_least(1)
            .at_most(50)
            .about("Hotfix entries to include (default 10)."@),
    ]
}

/// The tool `system_update_status`.
pub open spec fn system_update_status_tool() -> ToolView {
    ToolView {
        name: "system_update_status"@,
        description: SYSTEM_UPDATE_STATUS_ABOUT@,
        input_schema: schema_view(system_update_status_params()),
        capability: Some(Capability::SystemRead),
        timeout_ms: None,
    }
}

/// The tool `system_update_status`.
pub fn system_update_status_definition() -> (r: ToolDefinition)
    ensures
        r@ == system_update_status_tool(),
{
    let params: Vec<Param> = vec![
        Param::new("max_hotfixes", ParamKind::Integer)
            .at_least(1)
            .at_most(50)
            .about("Hotfix entries to include (default 10)."),
    ];
    assert(param_views(params@) =~= system_update_status_params());
    ToolDefinition {
        name: "system_update_status",
        description: SYSTEM_UPDATE_STATUS_ABOUT,
        input_schema: input_schema(&params),
        capability: Some(Capability::SystemRead),
        timeout_ms: None,
    }
}

/// What the tool `tool_guide` does, in words.
pub const TOOL_GUIDE_ABOUT: &'static str = "Route a problem to the right WinKit tool: returns a symptom→tool routing table (memory, disk space, crashes, ports, logs, files, updates, PATH...) with example arguments. Call this first when unsure which tool fits the question.";

/// The tool `tool_guide`.
pub open spec fn tool_guide_tool() -> ToolView {
    ToolView {
        name: "tool_guide"@,
        description: TOOL_GUIDE_ABOUT@,
        input_schema: schema_view(Seq::empty()),
        capability: Some(Capability::SystemRead),
        timeout_ms: None,
    }
}

/// The tool `tool_guide`.
pub fn tool_guide_definition() -> (r: ToolDefinition)
    ensures
        r@ == tool_guide_tool(),
{
    let params: Vec<Param> = Vec::new();
    assert(param_views(params@) =~= Seq::<ParamView>::empty());
    ToolDefinition {
        name: "tool_guide",
        description: TOOL_GUIDE_ABOUT,
        input_schema: input_schema(&params),
        capability: Some(Capability::SystemRead),
        timeout_ms: None,
    }
}

/// The programs that start with the machine are told without the hidden ones and in
/// their order; of those that are told the enabled ones are counted.
pub proof fn law_hidden_programs_are_not_told(programs: Vec<StartupProgram>, r: StartupPrograms)
    requires
        call_ensures(startup_view, (programs,), r),
    ensures
        r.startup_programs@ == programs@.filter(|p: StartupProgram| !p.hidden),
        r.count == r.startup_programs@.len(),
        r.enabled == programs@.filter(|p: StartupProgram| !p.hidden && p.enabled).len(),
        forall|i: int|
            0 <= i < programs@.len() && !programs@[i].hidden ==> r.startup_programs@.contains(
                #[trigger] programs@[i],
            ),
        forall|i: int|
            0 <= i < r.startup_programs@.len() ==> !(#[trigger] r.startup_programs@[i]).hidden,
{
    lemma_enabled_of_shown(programs@);
    let keep = |p: StartupProgram| !p.hidden;
    assert(r.startup_programs@ == programs@.filter(keep));
    assert forall|i: int| 0 <= i < programs@.len() && !programs@[i].hidden implies r.startup_programs@.contains(
        #[trigger] programs@[i],
    ) by {
        programs@.lemma_filter_contains(keep, i);
    }
    assert forall|i: int| 0 <= i < r.startup_programs@.len() implies !(
    #[trigger] r.startup_programs@[i]).hidden by {
        programs@.lemma_filter_pred(keep, i);
    }
}

proof fn lemma_enabled_of_shown(programs: Seq<StartupProgram>)
    ensures
        enabled_count(shown_programs(programs)) == programs.filter(
            |p: StartupProgram| !p.hidden && p.enabled,
        ).len(),
    decreases programs.len(),
{
    reveal(Seq::filter);
    if programs.len() > 0 {
        let rest = programs.drop_last();
        lemma_enabled_of_shown(rest);
        if !programs.last().hidden {
            assert(shown_programs(programs).drop_last() =~= shown_programs(rest));
        }
    }
}

/// Updates are listed up to the number asked for, between one and fifty; ten where
/// none is.
pub proof fn law_updates_are_bounded<B: WindowsBackend>(
    backend: B,
    args: Json,
    r: Result<UpdateStatus, WinkitError>,
)
    requires
        call_ensures(system_update_status_handler::<B>, (&backend, &args), r),
    ensures
        exists|most: usize|
            {
                &&& 1 <= most <= 50
                &&& usize_at(args@, "max_hotfixes"@) is None ==> most == 10
                &&& usize_at(args@, "max_hotfixes"@) matches Some(n) ==> (1 <= n <= 50 ==> most
                    == n)
                &&& #[trigger] call_ensures(B::update_status, (&backend, most), r)
            },
{
    let most = hotfix_limit(args@);
    assert(call_ensures(B::update_status, (&backend, most), r));
}

} // verus!
