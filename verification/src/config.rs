//! The configuration of the server.

use crate::errors::{err_view, res_view, ErrorKind, WinkitError};
use crate::models::Real;
use crate::permissions::{mode_of, PermissionMode};
use vstd::prelude::*;
use vstd::string::*;

verus! {

/// How much a tool returns, and how long it takes.
#[derive(Debug, Clone, Copy)]
pub struct Limits {
    pub max_processes: usize,
    pub max_snapshot_processes: usize,
    pub max_find_depth: u32,
    pub max_network_results: usize,
    pub max_services: usize,
    pub max_storage_results: usize,
    pub max_events: usize,
    pub max_windows: usize,
    pub max_payload_bytes: usize,
    pub operation_timeout_ms: u64,
}

/// Which tools are offered.
#[derive(Debug)]
pub struct ToolsConfig {
    pub disabled: Vec<String>,
    pub profile: String,
}

/// Which providers are in use; none named means all.
#[derive(Debug)]
pub struct ProvidersConfig {
    pub enabled: Vec<String>,
}

/// The permission mode, by its name.
#[derive(Debug)]
pub struct PermissionsConfig {
    pub mode: String,
}

/// How the hardware is probed.
#[derive(Debug, Clone, Copy)]
pub struct HardwareConfig {
    pub probe_timeout_ms: u64,
}

/// From where on a measurement counts as unhealthy.
#[derive(Debug, Clone, Copy)]
pub struct HealthConfig {
    pub high_cpu_percent: Real,
    pub high_memory_bytes: u64,
    pub low_disk_free_bytes: u64,
    pub high_memory_load_percent: Real,
    pub max_groups: usize,
}

/// How a browser is observed.
#[derive(Debug, Clone, Copy)]
pub struct BrowserConfig {
    pub operation_timeout_ms: u64,
    pub trend_max_ms: u64,
    pub max_tabs: usize,
}

/// Which directories may be read; none allowed by name means all.
#[derive(Debug)]
pub struct WorkspacesConfig {
    pub allow_roots: Vec<String>,
    pub deny_roots: Vec<String>,
}

/// The configuration of the server.
#[derive(Debug)]
pub struct Config {
    pub limits: Limits,
    pub tools: ToolsConfig,
    pub providers: ProvidersConfig,
    pub permissions: PermissionsConfig,
    pub hardware: HardwareConfig,
    pub health: HealthConfig,
    pub chrome: BrowserConfig,
    pub workspaces: WorkspacesConfig,
}

/// The limits that hold where none are configured.
pub open spec fn default_limits() -> Limits {
    Limits {
        max_processes: 500,
        max_snapshot_processes: 15,
        max_find_depth: 16,
        max_network_results: 500,
        max_services: 500,
        max_storage_results: 200,
        max_events: 200,
        max_windows: 200,
        max_payload_bytes: 1_048_576,
        operation_timeout_ms: 15_000,
    }
}

/// The thresholds that hold where none are configured: a quarter of the
/// processor, two gibibytes, ten gigabytes free, and 85 percent of the memory.
pub open spec fn default_health() -> HealthConfig {
    HealthConfig {
        high_cpu_percent: Real { bits: 0x4039_0000_0000_0000 },
        high_memory_bytes: 2_147_483_648,
        low_disk_free_bytes: 10_000_000_000,
        high_memory_load_percent: Real { bits: 0x4055_4000_0000_0000 },
        max_groups: 25,
    }
}

/// The limits keep room for at least one of everything.
pub open spec fn limits_wf(l: Limits) -> bool {
    &&& l.max_processes >= 1
    &&& l.max_find_depth >= 1
    &&& l.max_network_results >= 1
    &&& l.max_services >= 1
    &&& l.max_storage_results >= 1
    &&& l.max_events >= 1
    &&& l.max_windows >= 1
}

/// Do the limits keep room for at least one of everything?
pub fn limits_hold(l: &Limits) -> (r: bool)
    ensures
        r == limits_wf(*l),
{
    l.max_processes >= 1 && l.max_find_depth >= 1 && l.max_network_results >= 1 && l.max_services
        >= 1 && l.max_storage_results >= 1 && l.max_events >= 1 && l.max_windows >= 1
}

impl Default for HealthConfig {
    fn default() -> (r: Self)
        ensures
            r == default_health(),
    {
        HealthConfig {
            high_cpu_percent: Real { bits: 0x4039_0000_0000_0000 },
            high_memory_bytes: 2_147_483_648,
            low_disk_free_bytes: 10_000_000_000,
            high_memory_load_percent: Real { bits: 0x4055_4000_0000_0000 },
            max_groups: 25,
        }
    }
}

impl Default for Config {
    fn default() -> (r: Self)
        ensures
            r.limits == default_limits(),
            limits_wf(r.limits),
            r.tools.disabled@.len() == 0,
            r.tools.profile@ == "developer"@,
            r.providers.enabled@.len() == 0,
            r.permissions.mode@ == "read_only"@,
            r.hardware.probe_timeout_ms == 5000,
            r.health == default_health(),
            r.chrome.operation_timeout_ms == 15_000,
            r.chrome.trend_max_ms == 60_000,
            r.chrome.max_tabs == 100,
            r.workspaces.allow_roots@.len() == 0,
            r.workspaces.deny_roots@.len() == 0,
    {
        Config {
            limits: Limits {
                max_processes: 500,
                max_snapshot_processes: 15,
                max_find_depth: 16,
                max_network_results: 500,
                max_services: 500,
                max_storage_results: 200,
                max_events: 200,
                max_windows: 200,
                max_payload_bytes: 1_048_576,
                operation_timeout_ms: 15_000,
            },
            tools: ToolsConfig { disabled: Vec::new(), profile: "developer".to_string() },
            providers: ProvidersConfig { enabled: Vec::new() },
            permissions: PermissionsConfig { mode: "read_only".to_string() },
            hardware: HardwareConfig { probe_timeout_ms: 5000 },
            health: HealthConfig::default(),
            chrome: BrowserConfig {
                operation_timeout_ms: 15_000,
                trend_max_ms: 60_000,
                max_tabs: 100,
            },
            workspaces: WorkspacesConfig { allow_roots: Vec::new(), deny_roots: Vec::new() },
        }
    }
}

impl Config {
    /// The permission mode, or the refusal of a name that is no mode's.
    pub fn permission_mode(&self) -> (r: Result<PermissionMode, WinkitError>)
        ensures
            res_view(r) == (match mode_of(self.permissions.mode@) {
                Some(m) => Ok(m),
                None => Err(
                    err_view(
                        ErrorKind::InvalidArgument,
                        "unknown permission mode '"@ + self.permissions.mode@ + "'"@,
                    ),
                ),
            }),
    {
        PermissionMode::parse(&self.permissions.mode)
    }
}

/// Limits hold exactly where each leaves room for at least one.
pub proof fn law_limits_leave_room(l: Limits, r: bool)
    requires
        call_ensures(limits_hold, (&l,), r),
    ensures
        r <==> l.max_processes > 0 && l.max_find_depth > 0 && l.max_network_results > 0
            && l.max_services > 0 && l.max_storage_results > 0 && l.max_events > 0 && l.max_windows
            > 0,
{
}

} // verus!
