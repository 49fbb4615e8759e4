//! The tools of the developer workflow: waiting, projects, local web
//! applications, and trends.

use crate::permissions::Capability;
use crate::tools::schema::{open_schema, open_schema_view};
use crate::tools::toolset::{ToolDefinition, ToolView};
use vstd::prelude::*;
use vstd::string::*;

verus! {

/// What the tool `workspace_snapshot` does, in words.
pub const WORKSPACE_SNAPSHOT_ABOUT: &'static str = "Languages, frameworks, scripts and version-control state of a project directory.";

/// The tool `workspace_snapshot`.
pub open spec fn workspace_snapshot_tool() -> ToolView {
    ToolView {
        name: "workspace_snapshot"@,
        description: WORKSPACE_SNAPSHOT_ABOUT@,
        input_schema: open_schema_view(),
        capability: Some(Capability::FilesystemRead),
        timeout_ms: None,
    }
}

/// The tool `workspace_snapshot`.
pub fn workspace_snapshot_definition() -> (r: ToolDefinition)
    ensures
        r@ == workspace_snapshot_tool(),
{
    ToolDefinition {
        name: "workspace_snapshot",
        description: WORKSPACE_SNAPSHOT_ABOUT,
        input_schema: open_schema(),
        capability: Some(Capability::FilesystemRead),
        timeout_ms: None,
    }
}

/// What the tool `list_dev_servers` does, in words.
pub const LIST_DEV_SERVERS_ABOUT: &'static str = "Development servers that run on this machine, with their ports and processes.";

/// The tool `list_dev_servers`.
pub open spec fn list_dev_servers_tool() -> ToolView {
    ToolView {
        name: "list_dev_servers"@,
        description: LIST_DEV_SERVERS_ABOUT@,
        input_schema: open_schema_view(),
        capability: Some(Capability::NetworkRead),
        timeout_ms: None,
    }
}

/// The tool `list_dev_servers`.
pub fn list_dev_servers_definition() -> (r: ToolDefinition)
    ensures
        r@ == list_dev_servers_tool(),
{
    ToolDefinition {
        name: "list_dev_servers",
        description: LIST_DEV_SERVERS_ABOUT,
        input_schema: open_schema(),
        capability: Some(Capability::NetworkRead),
        timeout_ms: None,
    }
}

/// What the tool `diagnose_workspace` does, in words.
pub const DIAGNOSE_WORKSPACE_ABOUT: &'static str = "Diagnosis of a project directory: what was measured, and ranked findings.";

/// The tool `diagnose_workspace`.
pub open spec fn diagnose_workspace_tool() -> ToolView {
    ToolView {
        name: "diagnose_workspace"@,
        description: DIAGNOSE_WORKSPACE_ABOUT@,
        input_schema: open_schema_view(),
        capability: Some(Capability::FilesystemRead),
        timeout_ms: None,
    }
}

/// The tool `diagnose_workspace`.
pub fn diagnose_workspace_definition() -> (r: ToolDefinition)
    ensures
        r@ == diagnose_workspace_tool(),
{
    ToolDefinition {
        name: "diagnose_workspace",
        description: DIAGNOSE_WORKSPACE_ABOUT,
        input_schema: open_schema(),
        capability: Some(Capability::FilesystemRead),
        timeout_ms: None,
    }
}

/// What the tool `diagnose_local_webapp` does, in words.
pub const DIAGNOSE_LOCAL_WEBAPP_ABOUT: &'static str = "Diagnosis of a local web application: who owns its port, whether it answers, and which project it belongs to.";

/// The tool `diagnose_local_webapp`.
pub open spec fn diagnose_local_webapp_tool() -> ToolView {
    ToolView {
        name: "diagnose_local_webapp"@,
        description: DIAGNOSE_LOCAL_WEBAPP_ABOUT@,
        input_schema: open_schema_view(),
        capability: Some(Capability::NetworkRead),
        timeout_ms: None,
    }
}

/// The tool `diagnose_local_webapp`.
pub fn diagnose_local_webapp_definition() -> (r: ToolDefinition)
    ensures
        r@ == diagnose_local_webapp_tool(),
{
    ToolDefinition {
        name: "diagnose_local_webapp",
        description: DIAGNOSE_LOCAL_WEBAPP_ABOUT,
        input_schema: open_schema(),
        capability: Some(Capability::NetworkRead),
        timeout_ms: None,
    }
}

/// What the tool `wait_for_port` does, in words.
pub const WAIT_FOR_PORT_ABOUT: &'static str = "Wait, for a bounded time, until a port is listened on.";

/// The tool `wait_for_port`.
pub open spec fn wait_for_port_tool() -> ToolView {
    ToolView {
        name: "wait_for_port"@,
        description: WAIT_FOR_PORT_ABOUT@,
        input_schema: open_schema_view(),
        capability: Some(Capability::NetworkRead),
        timeout_ms: None,
    }
}

/// The tool `wait_for_port`.
pub fn wait_for_port_definition() -> (r: ToolDefinition)
    ensures
        r@ == wait_for_port_tool(),
{
    ToolDefinition {
        name: "wait_for_port",
        description: WAIT_FOR_PORT_ABOUT,
        input_schema: open_schema(),
        capability: Some(Capability::NetworkRead),
        timeout_ms: None,
    }
}

/// What the tool `wait_for_http` does, in words.
pub const WAIT_FOR_HTTP_ABOUT: &'static str = "Wait, for a bounded time, until a local address answers over HTTP.";

/// The tool `wait_for_http`.
pub open spec fn wait_for_http_tool() -> ToolView {
    ToolView {
        name: "wait_for_http"@,
        description: WAIT_FOR_HTTP_ABOUT@,
        input_schema: open_schema_view(),
        capability: Some(Capability::NetworkRead),
        timeout_ms: None,
    }
}

/// The tool `wait_for_http`.
pub fn wait_for_http_definition() -> (r: ToolDefinition)
    ensures
        r@ == wait_for_http_tool(),
{
    ToolDefinition {
        name: "wait_for_http",
        description: WAIT_FOR_HTTP_ABOUT,
        input_schema: open_schema(),
        capability: Some(Capability::NetworkRead),
        timeout_ms: None,
    }
}

/// What the tool `wait_for_process` does, in words.
pub const WAIT_FOR_PROCESS_ABOUT: &'static str = "Wait, for a bounded time, until a process runs or is gone.";

/// The tool `wait_for_process`.
pub open spec fn wait_for_process_tool() -> ToolView {
    ToolView {
        name: "wait_for_process"@,
        description: WAIT_FOR_PROCESS_ABOUT@,
        input_schema: open_schema_view(),
        capability: Some(Capability::ProcessRead),
        timeout_ms: None,
    }
}

/// The tool `wait_for_process`.
pub fn wait_for_process_definition() -> (r: ToolDefinition)
    ensures
        r@ == wait_for_process_tool(),
{
    ToolDefinition {
        name: "wait_for_process",
        description: WAIT_FOR_PROCESS_ABOUT,
        input_schema: open_schema(),
        capability: Some(Capability::ProcessRead),
        timeout_ms: None,
    }
}

/// What the tool `correlate_recent_failures` does, in words.
pub const CORRELATE_RECENT_FAILURES_ABOUT: &'static str = "Recent failures side by side, by when they happened. Closeness in time is no claim of cause.";

/// The tool `correlate_recent_failures`.
pub open spec fn correlate_recent_failures_tool() -> ToolView {
    ToolView {
        name: "correlate_recent_failures"@,
        description: CORRELATE_RECENT_FAILURES_ABOUT@,
        input_schema: open_schema_view(),
        capability: Some(Capability::EventRead),
        timeout_ms: None,
    }
}

/// The tool `correlate_recent_failures`.
pub fn correlate_recent_failures_definition() -> (r: ToolDefinition)
    ensures
        r@ == correlate_recent_failures_tool(),
{
    ToolDefinition {
        name: "correlate_recent_failures",
        description: CORRELATE_RECENT_FAILURES_ABOUT,
        input_schema: open_schema(),
        capability: Some(Capability::EventRead),
        timeout_ms: None,
    }
}

/// What the tool `system_health_trend` does, in words.
pub const SYSTEM_HEALTH_TREND_ABOUT: &'static str = "Health of the machine sampled over a bounded window, and what changed in it.";

/// The tool `system_health_trend`.
pub open spec fn system_health_trend_tool() -> ToolView {
    ToolView {
        name: "system_health_trend"@,
        description: SYSTEM_HEALTH_TREND_ABOUT@,
        input_schema: open_schema_view(),
        capability: Some(Capability::ProcessRead),
        timeout_ms: None,
    }
}

/// The tool `system_health_trend`.
pub fn system_health_trend_definition() -> (r: ToolDefinition)
    ensures
        r@ == system_health_trend_tool(),
{
    ToolDefinition {
        name: "system_health_trend",
        description: SYSTEM_HEALTH_TREND_ABOUT,
        input_schema: open_schema(),
        capability: Some(Capability::ProcessRead),
        timeout_ms: None,
    }
}

/// What the tool `privacy_info` does, in words.
pub const PRIVACY_INFO_ABOUT: &'static str = "What is read, what is never read, and that nothing is stored or sent.";

/// The tool `privacy_info`.
pub open spec fn privacy_info_tool() -> ToolView {
    ToolView {
        name: "privacy_info"@,
        description: PRIVACY_INFO_ABOUT@,
        input_schema: open_schema_view(),
        capability: Some(Capability::SystemRead),
        timeout_ms: None,
    }
}

/// The tool `privacy_info`.
pub fn privacy_info_definition() -> (r: ToolDefinition)
    ensures
        r@ == privacy_info_tool(),
{
    ToolDefinition {
        name: "privacy_info",
        description: PRIVACY_INFO_ABOUT,
        input_schema: open_schema(),
        capability: Some(Capability::SystemRead),
        timeout_ms: None,
    }
}

} // verus!
