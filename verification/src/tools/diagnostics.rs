//! Tab tools: performance, memory, network, runtime, diagnosis and trends.

use crate::config::BrowserConfig;
use crate::errors::{ErrorKind, WinkitError};
use crate::json::Json;
use crate::permissions::Capability;
use crate::text::trimmed;
use crate::tools::args::{needed_text, optional_u64, required_string};
use crate::tools::schema::{input_schema, param_views, schema_view, Param, ParamKind, ParamView};
use crate::tools::toolset::{ToolDefinition, ToolView};
use vstd::prelude::*;
use vstd::string::*;

verus! {

/// How long a tab is watched where no time is asked for, in milliseconds.
pub const DEFAULT_TREND_MS: u64 = 10_000;

/// How long a tab is watched at least, in milliseconds.
pub const MIN_TREND_MS: u64 = 2000;

/// How long a tab is watched.
pub open spec fn trend_time(requested: Option<u64>, trend_max_ms: u64) -> u64 {
    let wanted = match requested {
        Some(n) => n,
        None => DEFAULT_TREND_MS,
    };
    if wanted < MIN_TREND_MS {
        MIN_TREND_MS
    } else if wanted > trend_max_ms {
        trend_max_ms
    } else {
        wanted
    }
}

/// The tab that the arguments name, and how long it is watched.
pub fn trend_request(args: &Json, trend_max_ms: u64) -> (r: Result<(String, u64), WinkitError>)
    requires
        needed_text(args@, "tab_id"@) is Ok ==> trend_max_ms >= MIN_TREND_MS,
    ensures
        match (needed_text(args@, "tab_id"@), r) {
            (Ok(id), Ok(q)) => q.0@ == id && q.1 == trend_time(
                args@.uint_at("observe_ms"@),
                trend_max_ms,
            ) && MIN_TREND_MS <= q.1 <= trend_max_ms,
            (Err(refusal), Err(e)) => e@ == refusal,
            _ => false,
        },
{
    let tab_id = match required_string(args, "tab_id") {
        Ok(t) => t,
        Err(e) => {
            return Err(e);
        },
    };
    let wanted: u64 = match optional_u64(args, "observe_ms") {
        Some(n) => n,
        None => DEFAULT_TREND_MS,
    };
    let time: u64 = if wanted < MIN_TREND_MS {
        MIN_TREND_MS
    } else if wanted > trend_max_ms {
        trend_max_ms
    } else {
        wanted
    };
    Ok((tab_id, time))
}

/// What the tool `chrome_get_tab_performance` does, in words.
pub const CHROME_GET_TAB_PERFORMANCE_ABOUT: &'static str = "Performance metrics for one Chrome tab (CPU-ish timing metrics, long tasks, script duration, and deltas between two samples).";

/// The parameters that tab id tools share.
pub open spec fn tab_id_params() -> Seq<ParamView> {
    seq![
        ParamView::new("tab_id"@, ParamKind::Text)
            .about("Tab target id (from chrome_list_tabs) or exact URL."@)
            .needed(),
    ]
}

fn tab_id_param_list() -> (r: Vec<Param>)
    ensures
        param_views(r@) == tab_id_params(),
{
    let params: Vec<Param> = vec![
        Param::new("tab_id", ParamKind::Text)
            .about("Tab target id (from chrome_list_tabs) or exact URL.")
            .needed(),
    ];
    assert(param_views(params@) =~= tab_id_params());
    params
}

/// The tool `chrome_get_tab_performance`.
pub open spec fn chrome_get_tab_performance_tool(chrome: BrowserConfig) -> ToolView {
    ToolView {
        name: "chrome_get_tab_performance"@,
        description: CHROME_GET_TAB_PERFORMANCE_ABOUT@,
        input_schema: schema_view(tab_id_params()),
        capability: Some(Capability::ApplicationPerformanceRead),
        timeout_ms: Some(chrome.operation_timeout_ms),
    }
}

/// The tool `chrome_get_tab_performance`.
pub fn chrome_get_tab_performance_definition(chrome: &BrowserConfig) -> (r: ToolDefinition)
    ensures
        r@ == chrome_get_tab_performance_tool(*chrome),
{
    let params: Vec<Param> = tab_id_param_list();
    ToolDefinition {
        name: "chrome_get_tab_performance",
        description: CHROME_GET_TAB_PERFORMANCE_ABOUT,
        input_schema: input_schema(&params),
        capability: Some(Capability::ApplicationPerformanceRead),
        timeout_ms: Some(chrome.operation_timeout_ms),
    }
}

/// What the tool `chrome_get_tab_memory` does, in words.
pub const CHROME_GET_TAB_MEMORY_ABOUT: &'static str = "Memory picture of one Chrome tab: JS heap, DOM counters, and heap growth between two samples.";

/// The tool `chrome_get_tab_memory`.
pub open spec fn chrome_get_tab_memory_tool(chrome: BrowserConfig) -> ToolView {
    ToolView {
        name: "chrome_get_tab_memory"@,
        description: CHROME_GET_TAB_MEMORY_ABOUT@,
        input_schema: schema_view(tab_id_params()),
        capability: Some(Capability::ApplicationMemoryRead),
        timeout_ms: Some(chrome.operation_timeout_ms),
    }
}

/// The tool `chrome_get_tab_memory`.
pub fn chrome_get_tab_memory_definition(chrome: &BrowserConfig) -> (r: ToolDefinition)
    ensures
        r@ == chrome_get_tab_memory_tool(*chrome),
{
    let params: Vec<Param> = tab_id_param_list();
    ToolDefinition {
        name: "chrome_get_tab_memory",
        description: CHROME_GET_TAB_MEMORY_ABOUT,
        input_schema: input_schema(&params),
        capability: Some(Capability::ApplicationMemoryRead),
        timeout_ms: Some(chrome.operation_timeout_ms),
    }
}

/// What the tool `chrome_get_tab_network` does, in words.
pub const CHROME_GET_TAB_NETWORK_ABOUT: &'static str = "Network activity for one Chrome tab during the observation window: request counts, failures, latency, slowest requests. Headers, cookies, and bodies are never captured.";

/// The tool `chrome_get_tab_network`.
pub open spec fn chrome_get_tab_network_tool(chrome: BrowserConfig) -> ToolView {
    ToolView {
        name: "chrome_get_tab_network"@,
        description: CHROME_GET_TAB_NETWORK_ABOUT@,
        input_schema: schema_view(tab_id_params()),
        capability: Some(Capability::ApplicationNetworkRead),
        timeout_ms: Some(chrome.operation_timeout_ms),
    }
}

/// The tool `chrome_get_tab_network`.
pub fn chrome_get_tab_network_definition(chrome: &BrowserConfig) -> (r: ToolDefinition)
    ensures
        r@ == chrome_get_tab_network_tool(*chrome),
{
    let params: Vec<Param> = tab_id_param_list();
    ToolDefinition {
        name: "chrome_get_tab_network",
        description: CHROME_GET_TAB_NETWORK_ABOUT,
        input_schema: input_schema(&params),
        capability: Some(Capability::ApplicationNetworkRead),
        timeout_ms: Some(chrome.operation_timeout_ms),
    }
}

/// What the tool `chrome_get_tab_runtime` does, in words.
pub const CHROME_GET_TAB_RUNTIME_ABOUT: &'static str = "Console errors, warnings, exceptions, and page state for one Chrome tab during the observation window. Output is truncated and never contains secrets.";

/// The tool `chrome_get_tab_runtime`.
pub open spec fn chrome_get_tab_runtime_tool(chrome: BrowserConfig) -> ToolView {
    ToolView {
        name: "chrome_get_tab_runtime"@,
        description: CHROME_GET_TAB_RUNTIME_ABOUT@,
        input_schema: schema_view(tab_id_params()),
        capability: Some(Capability::ApplicationRuntimeRead),
        timeout_ms: Some(chrome.operation_timeout_ms),
    }
}

/// The tool `chrome_get_tab_runtime`.
pub fn chrome_get_tab_runtime_definition(chrome: &BrowserConfig) -> (r: ToolDefinition)
    ensures
        r@ == chrome_get_tab_runtime_tool(*chrome),
{
    let params: Vec<Param> = tab_id_param_list();
    ToolDefinition {
        name: "chrome_get_tab_runtime",
        description: CHROME_GET_TAB_RUNTIME_ABOUT,
        input_schema: input_schema(&params),
        capability: Some(Capability::ApplicationRuntimeRead),
        timeout_ms: Some(chrome.operation_timeout_ms),
    }
}

/// What the tool `chrome_diagnose_tab` does, in words.
pub const CHROME_DIAGNOSE_TAB_ABOUT: &'static str = "Cross-layer diagnostics for one Chrome tab: tab metadata, Windows-side Chrome resource usage, performance, memory, network, runtime, and deterministic evidence-based signals with possible causes. Signals are heuristics, not root-cause claims.";

/// The tool `chrome_diagnose_tab`.
pub open spec fn chrome_diagnose_tab_tool(chrome: BrowserConfig) -> ToolView {
    ToolView {
        name: "chrome_diagnose_tab"@,
        description: CHROME_DIAGNOSE_TAB_ABOUT@,
        input_schema: schema_view(tab_id_params()),
        capability: Some(Capability::ApplicationDiagnosticsRead),
        timeout_ms: Some(chrome.operation_timeout_ms),
    }
}

/// The tool `chrome_diagnose_tab`.
pub fn chrome_diagnose_tab_definition(chrome: &BrowserConfig) -> (r: ToolDefinition)
    ensures
        r@ == chrome_diagnose_tab_tool(*chrome),
{
    let params: Vec<Param> = tab_id_param_list();
    ToolDefinition {
        name: "chrome_diagnose_tab",
        description: CHROME_DIAGNOSE_TAB_ABOUT,
        input_schema: input_schema(&params),
        capability: Some(Capability::ApplicationDiagnosticsRead),
        timeout_ms: Some(chrome.operation_timeout_ms),
    }
}

/// What the tool `chrome_tab_trend` does, in words.
pub const CHROME_TAB_TREND_ABOUT: &'static str = "Time-series view of one Chrome tab: JS heap and script/long-task activity sampled every few seconds over an observation window (default 10 s), reduced to what changed — growth, rate, sustained growth — plus a deterministic evidence-based report. Use it to answer 'what changed in this tab over the last N seconds'.";

/// The parameters of the tool `chrome_tab_trend`.
pub open spec fn chrome_tab_trend_params() -> Seq<ParamView> {
    seq![
        ParamView::new("tab_id"@, ParamKind::Text)
            .about("Tab target id (from chrome_list_tabs) or exact URL."@)
            .needed(),
        ParamView::new("observe_ms"@, ParamKind::Integer)
            .about("Observation window in milliseconds (default 10000, clamped between 2000 and the configured maximum)."@),
    ]
}

/// The tool `chrome_tab_trend`.
pub open spec fn chrome_tab_trend_tool(chrome: BrowserConfig) -> ToolView {
    ToolView {
        name: "chrome_tab_trend"@,
        description: CHROME_TAB_TREND_ABOUT@,
        input_schema: schema_view(chrome_tab_trend_params()),
        capability: Some(Capability::ApplicationDiagnosticsRead),
        timeout_ms: Some((chrome.operation_timeout_ms + chrome.trend_max_ms + 5_000) as u64),
    }
}

/// The tool `chrome_tab_trend`.
pub fn chrome_tab_trend_definition(chrome: &BrowserConfig) -> (r: ToolDefinition)
    requires
        chrome.operation_timeout_ms + chrome.trend_max_ms + 5_000 <= u64::MAX,
    ensures
        r@ == chrome_tab_trend_tool(*chrome),
{
    let params: Vec<Param> = vec![
        Param::new("tab_id", ParamKind::Text)
            .about("Tab target id (from chrome_list_tabs) or exact URL.")
            .needed(),
        Param::new("observe_ms", ParamKind::Integer)
            .about("Observation window in milliseconds (default 10000, clamped between 2000 and the configured maximum)."),
    ];
    assert(param_views(params@) =~= chrome_tab_trend_params());
    ToolDefinition {
        name: "chrome_tab_trend",
        description: CHROME_TAB_TREND_ABOUT,
        input_schema: input_schema(&params),
        capability: Some(Capability::ApplicationDiagnosticsRead),
        timeout_ms: Some(chrome.operation_timeout_ms + chrome.trend_max_ms + 5_000),
    }
}

/// A tab is watched for as long as was asked, at least two seconds and no longer than
/// is configured; for ten seconds where nothing was asked. Without a tab nothing is
/// watched.
pub proof fn law_tabs_are_watched_as_asked(
    args: Json,
    trend_max_ms: u64,
    r: Result<(String, u64), WinkitError>,
)
    requires
        trend_max_ms >= 2000,
        call_ensures(trend_request, (&args, trend_max_ms), r),
    ensures
        r is Ok <==> args@.text_at("tab_id"@) is Some && trimmed(args@.text_at("tab_id"@)->0).len()
            > 0,
        r matches Err(e) ==> e.kind == ErrorKind::InvalidArgument,
        r matches Ok(q) ==> {
            &&& q.0@ == trimmed(args@.text_at("tab_id"@)->0)
            &&& 2000 <= q.1 <= trend_max_ms
            &&& args@.uint_at("observe_ms"@) matches Some(n) ==> (2000 <= n <= trend_max_ms ==> q.1
                == n)
            &&& args@.uint_at("observe_ms"@) is None && trend_max_ms >= 10000 ==> q.1 == 10000
        },
{
}

} // verus!
