//! What is told of a browser: the application, the browser itself, a managed
//! session, and what its processes take.

use crate::chrome::discovery::{
    application_state, state_in_general, ApplicationState, ChromeDiscoveryResult, ChromeState,
};
use crate::chrome::managed::{ManagedSession, ManagedState};
use crate::chrome::metrics::{MemoryInfo, NetworkSummary, RuntimeInfo, TrendMemory};
use crate::chrome::page::{json_opt, opt_int};
use crate::chrome::paths::{contained_under, file_name_of, inside, last_segment, PathStyle};
use crate::chrome::session::BrowserProcessInfo;
use crate::json::{json_views, lemma_array_view, Json, JsonView};
use crate::models::{ChromeEndpoint, ProcessInfo};
use crate::text::{opt_view, starts_with, views};
use vstd::prelude::*;
use vstd::string::*;

verus! {

/// A text that may be missing; null where it is.
pub open spec fn opt_text(v: Option<Seq<char>>) -> JsonView {
    match v {
        Some(s) => JsonView::Text(s),
        None => JsonView::Null,
    }
}

fn json_of_text(v: &Option<String>) -> (r: Json)
    ensures
        r@ == opt_text(opt_view(*v)),
{
    match v {
        Some(s) => Json::text(s),
        None => Json::Null,
    }
}

/// A signed number that may be missing; null where it is.
pub open spec fn opt_signed(v: Option<i32>) -> JsonView {
    match v {
        Some(n) => JsonView::Int(n as int),
        None => JsonView::Null,
    }
}

fn json_of_signed(v: Option<i32>) -> (r: Json)
    ensures
        r@ == opt_signed(v),
{
    match v {
        Some(n) => {
            if n < 0 {
                Json::NegInt(n as i64)
            } else {
                Json::UInt(n as u64)
            }
        },
        None => Json::Null,
    }
}

/// The name of a session's state.
pub open spec fn state_name(s: ManagedState) -> Seq<char> {
    match s {
        ManagedState::Disabled => "disabled"@,
        ManagedState::Starting => "starting"@,
        ManagedState::Ready => "ready"@,
        ManagedState::EndpointUnavailable => "endpoint_unavailable"@,
        ManagedState::BrowserExited => "browser_exited"@,
        ManagedState::Stopping => "stopping"@,
        ManagedState::Closed => "closed"@,
        ManagedState::CleanupFailed => "cleanup_failed"@,
    }
}

fn name_of_state(s: ManagedState) -> (r: &'static str)
    ensures
        r@ == state_name(s),
{
    match s {
        ManagedState::Disabled => "disabled",
        ManagedState::Starting => "starting",
        ManagedState::Ready => "ready",
        ManagedState::EndpointUnavailable => "endpoint_unavailable",
        ManagedState::BrowserExited => "browser_exited",
        ManagedState::Stopping => "stopping",
        ManagedState::Closed => "closed",
        ManagedState::CleanupFailed => "cleanup_failed",
    }
}

/// What is told of a managed session.
pub open spec fn session_summary(s: ManagedSession) -> JsonView {
    JsonView::object().with("session_id"@, JsonView::Text(s.session_id@)).with(
        "state"@,
        JsonView::Text(state_name(s.state)),
    ).with("state_description"@, JsonView::Text(s.state.description())).with(
        "url"@,
        opt_text(opt_view(s.initial_url)),
    ).with("port"@, JsonView::Int(s.port as int)).with("headless"@, JsonView::Bool(s.headless)).with(
        "window_mode"@,
        JsonView::Text(
            if s.mode.is_headed() {
                "headed"@
            } else {
                "headless"@
            },
        ),
    ).with("launch_mode"@, JsonView::Text(s.mode.label_view())).with(
        "started_at"@,
        JsonView::Text(s.started_at@),
    ).with("profile"@, JsonView::Text(last_segment(s.profile_dir@, s.style))).with(
        "cleanup_error"@,
        opt_text(opt_view(s.cleanup_error)),
    ).with("exit_code"@, opt_signed(s.exit_code)).with(
        "gpu_exit_code"@,
        opt_text(opt_view(s.gpu_exit_code)),
    ).with("last_diagnostics"@, opt_text(opt_view(s.stderr_diagnostics)))
}

/// What is told of a managed session.
pub fn summary_value(s: &ManagedSession) -> (r: Json)
    ensures
        r@ == session_summary(*s),
{
    Json::object().with("session_id", Json::text(&s.session_id)).with(
        "state",
        Json::text(name_of_state(s.state)),
    ).with("state_description", Json::text(s.state.describe())).with(
        "url",
        json_of_text(&s.initial_url),
    ).with("port", Json::UInt(s.port as u64)).with("headless", Json::Bool(s.headless)).with(
        "window_mode",
        Json::text(s.mode.window_mode()),
    ).with("launch_mode", Json::text(s.mode.label())).with(
        "started_at",
        Json::text(&s.started_at),
    ).with("profile", Json::text(&s.profile_name())).with(
        "cleanup_error",
        json_of_text(&s.cleanup_error),
    ).with("exit_code", json_of_signed(s.exit_code)).with(
        "gpu_exit_code",
        json_of_text(&s.gpu_exit_code),
    ).with("last_diagnostics", json_of_text(&s.stderr_diagnostics))
}

/// The state of a browser that was discovered, and perhaps connected to.
pub open spec fn live_state(discovered: ChromeState, connected: bool) -> ChromeState {
    if connected {
        ChromeState::Connected
    } else {
        discovered
    }
}

/// What is told of an application.
pub struct ApplicationInfo {
    pub id: &'static str,
    pub display_name: &'static str,
    pub version: String,
    pub state: ApplicationState,
    pub capabilities: Vec<String>,
    pub details: Json,
}

/// What the browser's adapter can do.
pub open spec fn browser_capabilities() -> Seq<Seq<char>> {
    seq![
        "application.discover"@,
        "application.tabs.read"@,
        "application.performance.read"@,
        "application.memory.read"@,
        "application.network.read"@,
        "application.runtime.read"@,
        "application.diagnostics.read"@,
    ]
}

/// The version of a browser that has an endpoint.
pub open spec fn version_of(endpoint: Option<ChromeEndpoint>) -> Seq<char> {
    match endpoint {
        Some(e) => e.browser_version@,
        None => "unknown"@,
    }
}

/// What is told of an endpoint; null where there is none.
pub open spec fn endpoint_details(endpoint: Option<ChromeEndpoint>) -> JsonView {
    match endpoint {
        Some(e) => JsonView::object().with("port"@, JsonView::Int(e.port as int)).with(
            "browser_version"@,
            JsonView::Text(e.browser_version@),
        ).with("protocol_version"@, JsonView::Text(e.protocol_version@)),
        None => JsonView::Null,
    }
}

/// The port of an endpoint; null where there is none.
pub open spec fn endpoint_port(endpoint: Option<ChromeEndpoint>) -> JsonView {
    match endpoint {
        Some(e) => JsonView::Int(e.port as int),
        None => JsonView::Null,
    }
}

/// The details of the application.
pub open spec fn application_details(d: ChromeDiscoveryResult, tabs: usize) -> JsonView {
    JsonView::object().with("state_detail"@, JsonView::Text(d.state.description())).with(
        "installed_path"@,
        opt_text(opt_view(d.installed_path)),
    ).with("running_processes"@, JsonView::Int(d.running_processes@.len() as int)).with(
        "devtools_port"@,
        endpoint_port(d.endpoint),
    ).with("endpoint"@, endpoint_details(d.endpoint)).with("tabs"@, JsonView::Int(tabs as int))
}

fn version_text(endpoint: &Option<ChromeEndpoint>) -> (r: String)
    ensures
        r@ == version_of(*endpoint),
{
    match endpoint {
        Some(e) => e.browser_version.clone(),
        None => "unknown".to_string(),
    }
}

fn state_of(discovered: ChromeState, connected: bool) -> (r: ChromeState)
    ensures
        r == live_state(discovered, connected),
{
    if connected {
        ChromeState::Connected
    } else {
        discovered
    }
}

/// What is told of the browser as an application.
pub fn application_info(d: &ChromeDiscoveryResult, connected: bool, tabs: usize) -> (r:
    ApplicationInfo)
    ensures
        r.id@ == "chrome"@,
        r.display_name@ == "Google Chrome"@,
        r.version@ == version_of(d.endpoint),
        r.state == state_in_general(live_state(d.state, connected)),
        views(r.capabilities@) == browser_capabilities(),
        r.details@ == application_details(*d, tabs),
{
    let capabilities: Vec<String> = vec![
        "application.discover".to_string(),
        "application.tabs.read".to_string(),
        "application.performance.read".to_string(),
        "application.memory.read".to_string(),
        "application.network.read".to_string(),
        "application.runtime.read".to_string(),
        "application.diagnostics.read".to_string(),
    ];
    assert(views(capabilities@) =~= browser_capabilities());
    let (port, endpoint) = match &d.endpoint {
        Some(e) => (
            Json::UInt(e.port as u64),
            Json::object().with("port", Json::UInt(e.port as u64)).with(
                "browser_version",
                Json::text(&e.browser_version),
            ).with("protocol_version", Json::text(&e.protocol_version)),
        ),
        None => (Json::Null, Json::Null),
    };
    let details = Json::object().with("state_detail", Json::text(d.state.describe())).with(
        "installed_path",
        json_of_text(&d.installed_path),
    ).with("running_processes", Json::UInt(d.running_processes.len() as u64)).with(
        "devtools_port",
        port,
    ).with("endpoint", endpoint).with("tabs", Json::UInt(tabs as u64));
    ApplicationInfo {
        id: "chrome",
        display_name: "Google Chrome",
        version: version_text(&d.endpoint),
        state: application_state(state_of(d.state, connected)),
        capabilities,
        details,
    }
}

/// What is told of a browser.
pub struct BrowserInfo {
    pub name: &'static str,
    pub version: String,
    pub user_agent: Option<String>,
    pub protocol_version: Option<String>,
    pub web_socket_url: Option<String>,
    pub devtools_port: Option<u16>,
    pub state: &'static str,
    pub tabs: usize,
    pub processes: Vec<BrowserProcessInfo>,
}

/// Does it tell of the browser that was discovered?
pub open spec fn tells_of_browser(
    b: BrowserInfo,
    d: ChromeDiscoveryResult,
    tabs: Option<usize>,
    processes: Option<Vec<BrowserProcessInfo>>,
) -> bool {
    &&& b.name@ == "Google Chrome"@
    &&& b.version@ == version_of(d.endpoint)
    &&& b.state@ == d.state.description()
    &&& b.tabs == (match tabs {
        Some(n) => n,
        None => 0,
    })
    &&& match processes {
        Some(v) => b.processes == v,
        None => b.processes@.len() == 0,
    }
    &&& match d.endpoint {
        Some(e) => {
            &&& opt_view(b.user_agent) == opt_view(e.user_agent)
            &&& opt_view(b.protocol_version) == Some(e.protocol_version@)
            &&& opt_view(b.web_socket_url) == Some(e.browser_ws_url@)
            &&& b.devtools_port == Some(e.port)
        },
        None => b.user_agent is None && b.protocol_version is None && b.web_socket_url is None
            && b.devtools_port is None,
    }
}

/// What is told of the browser that was discovered: with the number of tabs and
/// the processes as far as they could be had.
pub fn browser_info(
    d: &ChromeDiscoveryResult,
    tabs: Option<usize>,
    processes: Option<Vec<BrowserProcessInfo>>,
) -> (r: BrowserInfo)
    ensures
        tells_of_browser(r, *d, tabs, processes),
{
    let (user_agent, protocol_version, web_socket_url, devtools_port) = match &d.endpoint {
        Some(e) => (
            e.user_agent.clone(),
            Some(e.protocol_version.clone()),
            Some(e.browser_ws_url.clone()),
            Some(e.port),
        ),
        None => (None, None, None, None),
    };
    BrowserInfo {
        name: "Google Chrome",
        version: version_text(&d.endpoint),
        user_agent,
        protocol_version,
        web_socket_url,
        devtools_port,
        state: d.state.describe(),
        tabs: match tabs {
            Some(n) => n,
            None => 0,
        },
        processes: match processes {
            Some(v) => v,
            None => Vec::new(),
        },
    }
}

/// What the processes of the browser take together.
pub struct ChromeProcessSummary {
    pub processes: Vec<ProcessInfo>,
    pub total_working_set_bytes: u64,
    pub total_cpu_time_ms: u64,
    /// How much of all processors, in percent, where it could be measured.
    pub cpu_percent: Json,
}

/// The sum of what is known of the memory.
pub open spec fn memory_sum(processes: Seq<ProcessInfo>) -> int
    decreases processes.len(),
{
    if processes.len() == 0 {
        0
    } else {
        memory_sum(processes.drop_last()) + (match processes.last().working_set_bytes {
            Some(n) => n as int,
            None => 0,
        })
    }
}

/// The sum of what is known of the processor time.
pub open spec fn time_sum(processes: Seq<ProcessInfo>) -> int
    decreases processes.len(),
{
    if processes.len() == 0 {
        0
    } else {
        time_sum(processes.drop_last()) + (match processes.last().cpu_time_ms {
            Some(n) => n as int,
            None => 0,
        })
    }
}

proof fn lemma_sums_grow(processes: Seq<ProcessInfo>, n: int)
    requires
        0 <= n <= processes.len(),
    ensures
        0 <= memory_sum(processes.take(n)) <= memory_sum(processes),
        0 <= time_sum(processes.take(n)) <= time_sum(processes),
    decreases processes.len(),
{
    if processes.len() == 0 {
        assert(processes.take(n) =~= processes);
    } else if n == processes.len() {
        assert(processes.take(n) =~= processes);
        lemma_sums_grow(processes.drop_last(), n - 1);
        assert(processes.drop_last().take(n - 1) =~= processes.drop_last());
    } else {
        lemma_sums_grow(processes.drop_last(), n);
        assert(processes.drop_last().take(n) =~= processes.take(n));
    }
}

/// The memory and the processor time that the processes take together.
pub fn process_totals(processes: &Vec<ProcessInfo>) -> (r: (u64, u64))
    requires
        memory_sum(processes@) <= u64::MAX,
        time_sum(processes@) <= u64::MAX,
    ensures
        r.0 == memory_sum(processes@),
        r.1 == time_sum(processes@),
{
    let mut memory: u64 = 0;
    let mut time: u64 = 0;
    let mut i: usize = 0;
    assert(processes@.take(0).len() == 0);
    while i < processes.len()
        invariant
            memory_sum(processes@) <= u64::MAX,
            time_sum(processes@) <= u64::MAX,
            i <= processes@.len(),
            memory == memory_sum(processes@.take(i as int)),
            time == time_sum(processes@.take(i as int)),
        decreases processes@.len() - i,
    {
        proof {
            lemma_sums_grow(processes@, i + 1);
            assert(processes@.take(i + 1).drop_last() =~= processes@.take(i as int));
            assert(processes@.take(i + 1).last() == processes@[i as int]);
        }
        memory = memory + processes[i].working_set_bytes.unwrap_or(0);
        time = time + processes[i].cpu_time_ms.unwrap_or(0);
        i = i + 1;
    }
    assert(processes@.take(processes@.len() as int) =~= processes@);
    (memory, time)
}

/// How much larger `b` is than `a`; nothing where it is not.
pub open spec fn rise(a: u64, b: u64) -> int {
    if b > a {
        b - a
    } else {
        0
    }
}

/// The processor time that processes took between two samples: of those that
/// could be sampled both times.
pub open spec fn time_between(first: Seq<Option<u64>>, second: Seq<Option<u64>>) -> int
    decreases first.len(),
{
    if first.len() == 0 || second.len() == 0 {
        0
    } else {
        time_between(first.drop_first(), second.drop_first()) + (match (first[0], second[0]) {
            (Some(a), Some(b)) => rise(a, b),
            _ => 0,
        })
    }
}

proof fn lemma_time_positive(first: Seq<Option<u64>>, second: Seq<Option<u64>>)
    ensures
        time_between(first, second) >= 0,
    decreases first.len(),
{
    if first.len() > 0 && second.len() > 0 {
        lemma_time_positive(first.drop_first(), second.drop_first());
    }
}

/// The processor time that processes took between two samples.
pub fn sampled_time(first: &Vec<Option<u64>>, second: &Vec<Option<u64>>) -> (r: u64)
    requires
        time_between(first@, second@) <= u64::MAX,
    ensures
        r == time_between(first@, second@),
{
    let n: usize = if first.len() < second.len() {
        first.len()
    } else {
        second.len()
    };
    let mut total: u64 = 0;
    let mut i: usize = 0;
    proof {
        assert(first@.skip(0) =~= first@);
        assert(second@.skip(0) =~= second@);
    }
    while i < n
        invariant
            n <= first@.len(),
            n <= second@.len(),
            i <= n,
            time_between(first@, second@) <= u64::MAX,
            total + time_between(first@.skip(i as int), second@.skip(i as int)) == time_between(
                first@,
                second@,
            ),
        decreases n - i,
    {
        proof {
            assert(first@.skip(i as int)[0] == first@[i as int]);
            assert(second@.skip(i as int)[0] == second@[i as int]);
            assert(first@.skip(i as int).drop_first() =~= first@.skip(i + 1));
            assert(second@.skip(i as int).drop_first() =~= second@.skip(i + 1));
            lemma_time_positive(first@.skip(i + 1), second@.skip(i + 1));
        }
        if let (Some(a), Some(b)) = (first[i], second[i]) {
            total = total + b.saturating_sub(a);
        }
        i = i + 1;
    }
    total
}

/// The processor time of the whole machine between two samples, each given as
/// the time in the kernel and the time of users.
pub fn machine_time(first: (u64, u64), second: (u64, u64)) -> (r: u64)
    ensures
        r == (if rise(first.0, second.0) + rise(first.1, second.1) > u64::MAX {
            u64::MAX as int
        } else {
            rise(first.0, second.0) + rise(first.1, second.1)
        }),
{
    second.0.saturating_sub(first.0).saturating_add(second.1.saturating_sub(first.1))
}

/// One process of the browser, as it is told.
pub open spec fn process_details(p: ProcessInfo) -> JsonView {
    JsonView::object().with("pid"@, JsonView::Int(p.pid as int)).with(
        "name"@,
        JsonView::Text(p.name@),
    ).with("working_set_bytes"@, opt_int(p.working_set_bytes)).with(
        "cpu_time_ms"@,
        opt_int(p.cpu_time_ms),
    )
}

/// Why the numbers are of all processes together.
pub const MAPPING_NOTE: &'static str = "Chrome's public debugging API does not expose an exact tab->renderer PID mapping; Windows-side numbers are the aggregate of all chrome.exe processes and are labelled as such";

/// What the browser takes of the machine.
pub open spec fn usage_of(s: Option<ChromeProcessSummary>) -> JsonView {
    let (processes, memory, cpu) = match s {
        Some(c) => (
            c.processes@.map_values(|p: ProcessInfo| process_details(p)),
            JsonView::Int(c.total_working_set_bytes as int),
            c.cpu_percent@,
        ),
        None => (Seq::empty(), JsonView::Null, JsonView::Null),
    };
    JsonView::object().with("chrome_processes"@, JsonView::Array(processes)).with(
        "total_working_set_bytes"@,
        memory,
    ).with("aggregate_cpu_percent"@, cpu).with(
        "cpu_percent_basis"@,
        JsonView::Text("system_capacity_all_cores"@),
    ).with("mapping_note"@, JsonView::Text(MAPPING_NOTE@))
}

/// What the browser takes of the machine.
pub fn resource_usage(s: &Option<ChromeProcessSummary>) -> (r: Json)
    ensures
        r@ == usage_of(*s),
{
    let mut rows: Vec<Json> = Vec::new();
    let mut memory = Json::Null;
    let mut cpu = Json::Null;
    match s {
        Some(c) => {
            let mut i: usize = 0;
            while i < c.processes.len()
                invariant
                    i <= c.processes@.len(),
                    rows@.len() == i,
                    forall|k: int|
                        0 <= k < i ==> (#[trigger] rows@[k])@ == process_details(c.processes@[k]),
                decreases c.processes@.len() - i,
            {
                let p = &c.processes[i];
                rows.push(
                    Json::object().with("pid", Json::UInt(p.pid as u64)).with(
                        "name",
                        Json::text(&p.name),
                    ).with("working_set_bytes", json_opt(p.working_set_bytes)).with(
                        "cpu_time_ms",
                        json_opt(p.cpu_time_ms),
                    ),
                );
                i = i + 1;
            }
            memory = Json::UInt(c.total_working_set_bytes);
            cpu = c.cpu_percent.copy();
            assert(json_views(rows@) =~= c.processes@.map_values(|p: ProcessInfo| process_details(p)));
        },
        None => {
            assert(json_views(rows@) =~= Seq::<JsonView>::empty());
        },
    }
    proof {
        lemma_array_view(rows);
    }
    Json::object().with("chrome_processes", Json::Array(rows)).with(
        "total_working_set_bytes",
        memory,
    ).with("aggregate_cpu_percent", cpu).with(
        "cpu_percent_basis",
        Json::text("system_capacity_all_cores"),
    ).with("mapping_note", Json::text(MAPPING_NOTE))
}

/// What a diagnosis of a tab rests on. Measurements that the browser gives in
/// floating point are carried as they came.
pub struct TabDiagnosticData {
    pub cpu_percent: Json,
    pub js_heap_used_bytes: Option<u64>,
    pub heap_growth_bytes_per_second: Option<i64>,
    pub heap_growth_sustained: bool,
    pub long_task_ms: Json,
    pub script_ms: Json,
    pub dom_nodes: Option<u64>,
    pub total_requests: usize,
    pub failed_requests: usize,
    pub avg_response_ms: Json,
    pub p95_response_ms: Json,
    pub bytes_transferred: Option<u64>,
    pub console_errors: usize,
    pub exceptions: usize,
}

/// What a diagnosis of a tab leaves open.
pub const TAB_LIMITATION: &'static str =
    "Signals are deterministic heuristics over measured evidence; WinKit cannot determine a root cause by itself — the AI agent interprets the evidence.";

/// What a diagnosis of a tab that was watched for a while leaves open.
pub const TREND_LIMITATION: &'static str =
    "Trend sampling covers JS heap, script, and long-task metrics only; network and runtime activity were not measured during this window.";

/// The share of the processors that the browser takes; null where it was not
/// measured.
pub open spec fn cpu_share(usage: Option<ChromeProcessSummary>) -> JsonView {
    match usage {
        Some(c) => c.cpu_percent@,
        None => JsonView::Null,
    }
}

fn share_of_cpu(usage: &Option<ChromeProcessSummary>) -> (r: Json)
    ensures
        r@ == cpu_share(*usage),
{
    match usage {
        Some(c) => c.cpu_percent.copy(),
        None => Json::Null,
    }
}

/// What a diagnosis of a tab rests on; of the response times, the mean and the
/// 95th percentile are given. Two measurements of the heap cannot show that it
/// keeps growing, so a diagnosis never says so.
pub fn tab_evidence(
    usage: &Option<ChromeProcessSummary>,
    long_task_ms: Json,
    script_ms: Json,
    response_ms: (Json, Json),
    memory: &MemoryInfo,
    network: &NetworkSummary,
    runtime: &RuntimeInfo,
) -> (r: TabDiagnosticData)
    ensures
        r.cpu_percent@ == cpu_share(*usage),
        r.js_heap_used_bytes == memory.js_heap_used_bytes,
        r.heap_growth_bytes_per_second == memory.growth_rate_bytes_per_second,
        !r.heap_growth_sustained,
        r.long_task_ms@ == long_task_ms@,
        r.script_ms@ == script_ms@,
        r.dom_nodes == memory.dom_nodes,
        r.total_requests == network.total_requests,
        r.failed_requests == network.failed,
        r.avg_response_ms@ == response_ms.0@,
        r.p95_response_ms@ == response_ms.1@,
        r.bytes_transferred == network.bytes_transferred,
        r.console_errors == runtime.console_errors,
        r.exceptions == runtime.exceptions,
{
    TabDiagnosticData {
        cpu_percent: share_of_cpu(usage),
        js_heap_used_bytes: memory.js_heap_used_bytes,
        heap_growth_bytes_per_second: memory.growth_rate_bytes_per_second,
        heap_growth_sustained: false,
        long_task_ms,
        script_ms,
        dom_nodes: memory.dom_nodes,
        total_requests: network.total_requests,
        failed_requests: network.failed,
        avg_response_ms: response_ms.0,
        p95_response_ms: response_ms.1,
        bytes_transferred: network.bytes_transferred,
        console_errors: runtime.console_errors,
        exceptions: runtime.exceptions,
    }
}

/// What a diagnosis of a tab that was watched for a while rests on: its heap
/// and its scripts; nothing is known of the network and the console.
pub fn trend_evidence(
    usage: &Option<ChromeProcessSummary>,
    long_task_ms: Json,
    script_ms: Json,
    memory: &TrendMemory,
) -> (r: TabDiagnosticData)
    ensures
        r.cpu_percent@ == cpu_share(*usage),
        r.js_heap_used_bytes == memory.end_bytes,
        r.heap_growth_bytes_per_second == memory.growth_rate_bytes_per_second,
        r.heap_growth_sustained == memory.sustained_growth,
        r.long_task_ms@ == long_task_ms@,
        r.script_ms@ == script_ms@,
        r.dom_nodes is None,
        r.total_requests == 0,
        r.failed_requests == 0,
        r.avg_response_ms@ == JsonView::Null,
        r.p95_response_ms@ == JsonView::Null,
        r.bytes_transferred is None,
        r.console_errors == 0,
        r.exceptions == 0,
{
    TabDiagnosticData {
        cpu_percent: share_of_cpu(usage),
        js_heap_used_bytes: memory.end_bytes,
        heap_growth_bytes_per_second: memory.growth_rate_bytes_per_second,
        heap_growth_sustained: memory.sustained_growth,
        long_task_ms,
        script_ms,
        dom_nodes: None,
        total_requests: 0,
        failed_requests: 0,
        avg_response_ms: Json::Null,
        p95_response_ms: Json::Null,
        bytes_transferred: None,
        console_errors: 0,
        exceptions: 0,
    }
}

/// A directory that was made for a session and is to be removed again unless
/// the session takes it over.
#[derive(Debug)]
pub struct ProfileGuard {
    pub profile: String,
    pub root: String,
    pub style: PathStyle,
    pub armed: bool,
}

impl ProfileGuard {
    /// A guard that stands.
    pub fn new(profile: String, root: String, style: PathStyle) -> (r: Self)
        ensures
            r.profile == profile,
            r.root == root,
            r.style == style,
            r.armed,
    {
        ProfileGuard { profile, root, style, armed: true }
    }

    /// Hands the directory to the session: the guard does nothing any more.
    pub fn disarm(&mut self)
        ensures
            !final(self).armed,
            final(self).profile == old(self).profile,
            final(self).root == old(self).root,
            final(self).style == old(self).style,
    {
        self.armed = false;
    }

    /// May the directory be removed by its name alone, where it cannot be
    /// resolved? Only while the guard stands, and only a session's directory
    /// strictly inside the managed root.
    pub fn may_remove(&self) -> (r: bool)
        ensures
            r == (self.armed && "session-"@.is_prefix_of(last_segment(self.profile@, self.style))
                && inside(self.profile@, self.root@, self.style)),
    {
        self.armed && starts_with(&file_name_of(&self.profile, self.style), "session-")
            && contained_under(&self.profile, &self.root, self.style)
    }
}

/// What is told of a session is what the session holds, each under its name.
pub proof fn law_sessions_are_told_as_they_are(s: ManagedSession, r: Json)
    requires
        call_ensures(summary_value, (&s,), r),
    ensures
        r@.text_at("session_id"@) == Some(s.session_id@),
        r@.text_at("state"@) == Some("disabled"@) <==> s.state == ManagedState::Disabled,
        r@.text_at("state"@) == Some("starting"@) <==> s.state == ManagedState::Starting,
        r@.text_at("state"@) == Some("ready"@) <==> s.state == ManagedState::Ready,
        r@.text_at("state"@) == Some("endpoint_unavailable"@) <==> s.state == ManagedState::EndpointUnavailable,
        r@.text_at("state"@) == Some("browser_exited"@) <==> s.state == ManagedState::BrowserExited,
        r@.text_at("state"@) == Some("stopping"@) <==> s.state == ManagedState::Stopping,
        r@.text_at("state"@) == Some("closed"@) <==> s.state == ManagedState::Closed,
        r@.text_at("state"@) == Some("cleanup_failed"@) <==> s.state == ManagedState::CleanupFailed,
        s.initial_url matches Some(u) ==> r@.text_at("url"@) == Some(u@),
        s.initial_url is None ==> r@.get("url"@) == Some(JsonView::Null),
        r@.uint_at("port"@) == Some(s.port as u64),
        r@.bool_at("headless"@) == Some(s.headless),
        r@.text_at("started_at"@) == Some(s.started_at@),
        s.exit_code matches Some(n) ==> r@.get("exit_code"@) == Some(JsonView::Int(n as int)),
        s.exit_code is None ==> r@.get("exit_code"@) == Some(JsonView::Null),
        s.cleanup_error matches Some(e) ==> r@.text_at("cleanup_error"@) == Some(e@),
        s.cleanup_error is None ==> r@.get("cleanup_error"@) == Some(JsonView::Null),
        s.gpu_exit_code matches Some(e) ==> r@.text_at("gpu_exit_code"@) == Some(e@),
        s.stderr_diagnostics matches Some(e) ==> r@.text_at("last_diagnostics"@) == Some(e@),
        s.mode == crate::chrome::launch::LaunchMode::HeadedDefault || s.mode
            == crate::chrome::launch::LaunchMode::HeadedSoftware ==> r@.text_at("window_mode"@)
            == Some("headed"@),
        s.mode == crate::chrome::launch::LaunchMode::HeadlessSoftware || s.mode
            == crate::chrome::launch::LaunchMode::HeadlessInProcessGpu ==> r@.text_at(
            "window_mode"@,
        ) == Some("headless"@),
{
    reveal_strlit("session_id");
    assert("session_id"@.len() == 10);
    reveal_strlit("state");
    assert("state"@.len() == 5);
    reveal_strlit("state_description");
    assert("state_description"@.len() == 17);
    reveal_strlit("url");
    assert("url"@.len() == 3);
    reveal_strlit("port");
    assert("port"@.len() == 4);
    reveal_strlit("headless");
    assert("headless"@.len() == 8);
    reveal_strlit("window_mode");
    assert("window_mode"@.len() == 11);
    reveal_strlit("launch_mode");
    assert("launch_mode"@.len() == 11);
    reveal_strlit("started_at");
    assert("started_at"@.len() == 10);
    reveal_strlit("profile");
    assert("profile"@.len() == 7);
    reveal_strlit("cleanup_error");
    assert("cleanup_error"@.len() == 13);
    reveal_strlit("exit_code");
    assert("exit_code"@.len() == 9);
    reveal_strlit("gpu_exit_code");
    assert("gpu_exit_code"@.len() == 13);
    reveal_strlit("last_diagnostics");
    assert("last_diagnostics"@.len() == 16);
    assert("session_id"@[1] != "started_at"@[1]);
    assert("window_mode"@[0] != "launch_mode"@[0]);
    assert("cleanup_error"@[0] != "gpu_exit_code"@[0]);
    reveal_strlit("disabled");
    assert("disabled"@.len() == 8);
    reveal_strlit("starting");
    assert("starting"@.len() == 8);
    reveal_strlit("ready");
    assert("ready"@.len() == 5);
    reveal_strlit("endpoint_unavailable");
    assert("endpoint_unavailable"@.len() == 20);
    reveal_strlit("browser_exited");
    assert("browser_exited"@.len() == 14);
    reveal_strlit("stopping");
    assert("stopping"@.len() == 8);
    reveal_strlit("closed");
    assert("closed"@.len() == 6);
    reveal_strlit("cleanup_failed");
    assert("cleanup_failed"@.len() == 14);
    assert("disabled"@[0] != "starting"@[0]);
    assert("disabled"@[0] != "stopping"@[0]);
    assert("starting"@[2] != "stopping"@[2]);
    assert("browser_exited"@[0] != "cleanup_failed"@[0]);
}

/// What is told of the application is what was found: the version and the port are
/// those of its endpoint, and it counts as connected exactly where it is.
pub proof fn law_application_is_told_as_found(
    d: ChromeDiscoveryResult,
    connected: bool,
    tabs: usize,
    r: ApplicationInfo,
)
    requires
        call_ensures(application_info, (&d, connected, tabs), r),
        d.state != ChromeState::Connected,
    ensures
        r.state == ApplicationState::Connected <==> connected,
        !connected && d.state == ChromeState::EndpointAvailable <==> r.state
            == ApplicationState::RunningInspectable,
        !connected && (d.state == ChromeState::EndpointUnavailable || d.state
            == ChromeState::Running) <==> r.state == ApplicationState::RunningNotInspectable,
        !connected && d.state == ChromeState::NotInstalled <==> r.state
            == ApplicationState::NotInstalled,
        d.endpoint matches Some(e) ==> r.version@ == e.browser_version@ && r.details@.uint_at(
            "devtools_port"@,
        ) == Some(e.port as u64) && r.details@.member("endpoint"@).uint_at("port"@) == Some(
            e.port as u64,
        ),
        d.endpoint is None ==> r.details@.get("devtools_port"@) == Some(JsonView::Null),
        r.details@.get("running_processes"@) == Some(
            JsonView::Int(d.running_processes@.len() as int),
        ),
        r.details@.get("tabs"@) == Some(JsonView::Int(tabs as int)),
        d.installed_path matches Some(p) ==> r.details@.text_at("installed_path"@) == Some(p@),
{
    reveal_strlit("state_detail");
    assert("state_detail"@.len() == 12);
    reveal_strlit("installed_path");
    assert("installed_path"@.len() == 14);
    reveal_strlit("running_processes");
    assert("running_processes"@.len() == 17);
    reveal_strlit("devtools_port");
    assert("devtools_port"@.len() == 13);
    reveal_strlit("endpoint");
    assert("endpoint"@.len() == 8);
    reveal_strlit("tabs");
    assert("tabs"@.len() == 4);
    reveal_strlit("browser_version");
    assert("browser_version"@.len() == 15);
    reveal_strlit("protocol_version");
    assert("protocol_version"@.len() == 16);
    reveal_strlit("port");
    assert("port"@.len() == 4);
    assert("tabs"@[0] != "port"@[0]);
}

/// What is told of the browser is what was found: the facts of its endpoint, and
/// the tabs and processes that could be had.
pub proof fn law_browser_is_told_as_found(
    d: ChromeDiscoveryResult,
    tabs: Option<usize>,
    processes: Option<Vec<BrowserProcessInfo>>,
    r: BrowserInfo,
)
    requires
        call_ensures(browser_info, (&d, tabs, processes), r),
    ensures
        d.endpoint matches Some(e) ==> r.version@ == e.browser_version@ && r.devtools_port == Some(
            e.port,
        ) && r.web_socket_url is Some && r.web_socket_url->0@ == e.browser_ws_url@
            && r.protocol_version is Some && r.protocol_version->0@ == e.protocol_version@,
        d.endpoint is None ==> r.devtools_port is None && r.web_socket_url is None,
        tabs matches Some(n) ==> r.tabs == n,
        tabs is None ==> r.tabs == 0,
        processes matches Some(v) ==> r.processes == v,
{
}

/// The totals are sums over all processes of what is known of each.
pub proof fn law_process_totals_are_sums(processes: Vec<ProcessInfo>, r: (u64, u64))
    requires
        call_ensures(process_totals, (&processes,), r),
    ensures
        r.0 == processes@.fold_left(
            0int,
            |n: int, p: ProcessInfo|
                n + if p.working_set_bytes is Some {
                    p.working_set_bytes->0 as int
                } else {
                    0
                },
        ),
        r.1 == processes@.fold_left(
            0int,
            |n: int, p: ProcessInfo|
                n + if p.cpu_time_ms is Some {
                    p.cpu_time_ms->0 as int
                } else {
                    0
                },
        ),
{
    lemma_totals(processes@);
}

proof fn lemma_totals(processes: Seq<ProcessInfo>)
    ensures
        memory_sum(processes) == processes.fold_left(
            0int,
            |n: int, p: ProcessInfo|
                n + if p.working_set_bytes is Some {
                    p.working_set_bytes->0 as int
                } else {
                    0
                },
        ),
        time_sum(processes) == processes.fold_left(
            0int,
            |n: int, p: ProcessInfo|
                n + if p.cpu_time_ms is Some {
                    p.cpu_time_ms->0 as int
                } else {
                    0
                },
        ),
    decreases processes.len(),
{
    if processes.len() > 0 {
        lemma_totals(processes.drop_last());
    }
}

/// One process more adds the time by which its second sample is above its first,
/// and nothing where one of them is missing or it is not above.
pub proof fn law_each_process_adds_its_time(
    first: Vec<Option<u64>>,
    second: Vec<Option<u64>>,
    more_first: Vec<Option<u64>>,
    more_second: Vec<Option<u64>>,
    a: Option<u64>,
    b: Option<u64>,
    r: u64,
    s: u64,
)
    requires
        call_ensures(sampled_time, (&first, &second), r),
        call_ensures(sampled_time, (&more_first, &more_second), s),
        first@.len() == second@.len(),
        more_first@ == first@.push(a),
        more_second@ == second@.push(b),
    ensures
        a is Some && b is Some && b->0 >= a->0 ==> s == r + (b->0 - a->0),
        a is None || b is None || b->0 < a->0 ==> s == r,
        first@.len() == 0 ==> r == 0,
{
    lemma_time_pushed(first@, second@, a, b);
}

proof fn lemma_time_pushed(
    first: Seq<Option<u64>>,
    second: Seq<Option<u64>>,
    a: Option<u64>,
    b: Option<u64>,
)
    requires
        first.len() == second.len(),
    ensures
        time_between(first.push(a), second.push(b)) == time_between(first, second) + (match (a, b) {
            (Some(x), Some(y)) => rise(x, y),
            _ => 0,
        }),
    decreases first.len(),
{
    let f = first.push(a);
    let s = second.push(b);
    if first.len() == 0 {
        assert(f.drop_first() =~= Seq::<Option<u64>>::empty());
        assert(time_between(f.drop_first(), s.drop_first()) == 0);
    } else {
        assert(f.drop_first() =~= first.drop_first().push(a));
        assert(s.drop_first() =~= second.drop_first().push(b));
        lemma_time_pushed(first.drop_first(), second.drop_first(), a, b);
    }
}

/// A diagnosis rests on what was measured of the tab, each measurement in its own
/// place; two samples never show sustained growth.
pub proof fn law_tab_evidence_is_what_was_measured(
    usage: Option<ChromeProcessSummary>,
    long_task_ms: Json,
    script_ms: Json,
    response_ms: (Json, Json),
    memory: MemoryInfo,
    network: NetworkSummary,
    runtime: RuntimeInfo,
    r: TabDiagnosticData,
)
    requires
        call_ensures(
            tab_evidence,
            (&usage, long_task_ms, script_ms, response_ms, &memory, &network, &runtime),
            r,
        ),
    ensures
        usage matches Some(c) ==> r.cpu_percent@ == c.cpu_percent@,
        usage is None ==> r.cpu_percent@ == JsonView::Null,
        r.console_errors == runtime.console_errors,
        r.exceptions == runtime.exceptions,
        r.total_requests == network.total_requests,
        r.failed_requests == network.failed,
        r.bytes_transferred == network.bytes_transferred,
        r.js_heap_used_bytes == memory.js_heap_used_bytes,
        r.heap_growth_bytes_per_second == memory.growth_rate_bytes_per_second,
        r.dom_nodes == memory.dom_nodes,
        r.long_task_ms@ == long_task_ms@ && r.script_ms@ == script_ms@,
        r.avg_response_ms@ == response_ms.0@ && r.p95_response_ms@ == response_ms.1@,
        !r.heap_growth_sustained,
{
}

/// A diagnosis of a tab that was watched rests on its heap at the end and on whether
/// it kept growing; of the network and the console nothing is said.
pub proof fn law_trend_evidence_is_what_was_measured(
    usage: Option<ChromeProcessSummary>,
    long_task_ms: Json,
    script_ms: Json,
    memory: TrendMemory,
    r: TabDiagnosticData,
)
    requires
        call_ensures(trend_evidence, (&usage, long_task_ms, script_ms, &memory), r),
    ensures
        usage matches Some(c) ==> r.cpu_percent@ == c.cpu_percent@,
        r.js_heap_used_bytes == memory.end_bytes,
        r.heap_growth_bytes_per_second == memory.growth_rate_bytes_per_second,
        r.heap_growth_sustained <==> memory.sustained_growth,
        r.long_task_ms@ == long_task_ms@ && r.script_ms@ == script_ms@,
        r.total_requests == 0 && r.failed_requests == 0 && r.console_errors == 0 && r.exceptions
            == 0,
{
}

/// What the browser takes is told with its total and every process, each with its
/// own numbers.
pub proof fn law_usage_lists_every_process(c: ChromeProcessSummary, r: Json)
    requires
        call_ensures(resource_usage, (&Some(c),), r),
    ensures
        r@.get("total_working_set_bytes"@) == Some(
            JsonView::Int(c.total_working_set_bytes as int),
        ),
        r@.get("aggregate_cpu_percent"@) == Some(c.cpu_percent@),
        r@.array_at("chrome_processes"@) is Some,
        r@.array_at("chrome_processes"@)->0.len() == c.processes@.len(),
        forall|i: int|
            0 <= i < c.processes@.len() ==> {
                let row = #[trigger] r@.array_at("chrome_processes"@)->0[i];
                &&& row.uint_at("pid"@) == Some(c.processes@[i].pid as u64)
                &&& row.text_at("name"@) == Some(c.processes@[i].name@)
                &&& c.processes@[i].working_set_bytes is Some ==> row.uint_at(
                    "working_set_bytes"@,
                ) == c.processes@[i].working_set_bytes
                &&& c.processes@[i].cpu_time_ms is Some ==> row.uint_at("cpu_time_ms"@)
                    == c.processes@[i].cpu_time_ms
            },
{
    reveal_strlit("chrome_processes");
    assert("chrome_processes"@.len() == 16);
    reveal_strlit("total_working_set_bytes");
    assert("total_working_set_bytes"@.len() == 23);
    reveal_strlit("aggregate_cpu_percent");
    assert("aggregate_cpu_percent"@.len() == 21);
    reveal_strlit("cpu_percent_basis");
    assert("cpu_percent_basis"@.len() == 17);
    reveal_strlit("mapping_note");
    assert("mapping_note"@.len() == 12);
    reveal_strlit("pid");
    assert("pid"@.len() == 3);
    reveal_strlit("name");
    assert("name"@.len() == 4);
    reveal_strlit("working_set_bytes");
    assert("working_set_bytes"@.len() == 17);
    reveal_strlit("cpu_time_ms");
    assert("cpu_time_ms"@.len() == 11);
}

/// A directory is removed by its name only while the guard stands, only where its
/// name is that of a session, and never where it is the root itself.
pub proof fn law_guards_remove_sessions_only(g: ProfileGuard, r: bool)
    requires
        call_ensures(ProfileGuard::may_remove, (&g,), r),
    ensures
        r ==> g.armed && g.profile@ != g.root@,
        r ==> "session-"@.is_prefix_of(last_segment(g.profile@, g.style)),
        g.armed && "session-"@.is_prefix_of(last_segment(g.profile@, g.style)) && inside(
            g.profile@,
            g.root@,
            g.style,
        ) ==> r,
{
}

} // verus!
