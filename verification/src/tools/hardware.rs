//! Hardware telemetry: how long a probe may take, and over which window it
//! samples.

use crate::errors::{err_view, ErrorKind, ErrorView, WinkitError};
use crate::json::Json;
use crate::models::WifiAdapterStatus;
use crate::permissions::Capability;
use crate::text::{concat3, decimal, decimal_text};
use crate::tools::args::optional_u64;
use crate::tools::listing::{listing, lists, Listing};
use crate::tools::schema::{input_schema, param_views, schema_view, Param, ParamKind, ParamView};
use crate::tools::toolset::{ToolDefinition, ToolView};
use vstd::prelude::*;
use vstd::string::*;

verus! {

/// The window that is sampled where none is asked for, in milliseconds.
pub const DEFAULT_WINDOW_MS: u64 = 1000;

/// The requested window brought between one and `max` milliseconds; where none
/// is requested, the usual one or `max`, whichever is shorter.
pub open spec fn window_for(requested: Option<u64>, max: u64) -> u64 {
    match requested {
        Some(v) => if v < 1 {
            1
        } else if v > max {
            max
        } else {
            v
        },
        None => if DEFAULT_WINDOW_MS > max {
            max
        } else {
            DEFAULT_WINDOW_MS
        },
    }
}

/// The requested window brought between one and `max` milliseconds; where none
/// is requested, the usual one or `max`, whichever is shorter.
pub fn sample_window(requested: Option<u64>, max: u64) -> (r: u64)
    requires
        requested is Some ==> max >= 1,
    ensures
        r == window_for(requested, max),
        r <= max,
        max >= 1 ==> r >= 1,
{
    match requested {
        Some(v) => {
            if v < 1 {
                1
            } else if v > max {
                max
            } else {
                v
            }
        },
        None => {
            if DEFAULT_WINDOW_MS > max {
                max
            } else {
                DEFAULT_WINDOW_MS
            }
        },
    }
}

/// How long a probe may take that samples a window: the configured time, and
/// at least a second more than the window.
pub open spec fn budget_for(configured_ms: u64, window_ms: u64) -> u64 {
    let least = if window_ms + 1000 > u64::MAX {
        u64::MAX
    } else {
        (window_ms + 1000) as u64
    };
    if configured_ms > least {
        configured_ms
    } else {
        least
    }
}

/// How long a probe may take that samples a window.
pub fn probe_budget(configured_ms: u64, window_ms: u64) -> (r: u64)
    ensures
        r == budget_for(configured_ms, window_ms),
{
    let least: u64 = window_ms.saturating_add(1000);
    if configured_ms > least {
        configured_ms
    } else {
        least
    }
}

/// A window always fits into the time that its probe may take.
pub proof fn law_window_fits_its_budget(requested: Option<u64>, max: u64, configured_ms: u64)
    ensures
        window_for(requested, max) <= budget_for(configured_ms, window_for(requested, max)),
        configured_ms <= budget_for(configured_ms, window_for(requested, max)),
        window_for(requested, max) < u64::MAX ==> window_for(requested, max) < budget_for(
            configured_ms,
            window_for(requested, max),
        ),
{
}

/// The window and the time of a probe that samples.
pub fn sampling_from_args(args: &Json, probe_timeout_ms: u64, operation_timeout_ms: u64) -> (r: (
    u64,
    u64,
))
    requires
        args@.uint_at("sample_window_ms"@) is Some ==> operation_timeout_ms >= 1,
    ensures
        r.0 == window_for(args@.uint_at("sample_window_ms"@), operation_timeout_ms),
        r.1 == budget_for(probe_timeout_ms, r.0),
{
    let window = sample_window(optional_u64(args, "sample_window_ms"), operation_timeout_ms);
    (window, probe_budget(probe_timeout_ms, window))
}

/// The error of a probe, as it is reported: a probe that ran out of time is
/// reported with its budget.
pub open spec fn probe_error_view(e: ErrorView, budget_ms: u64) -> ErrorView {
    if e.kind == ErrorKind::Timeout {
        err_view(
            ErrorKind::Timeout,
            "hardware probe exceeded the "@ + decimal(budget_ms as nat) + " ms probe budget"@,
        )
    } else {
        e
    }
}

/// The outcome of a probe, as it is reported.
pub fn probe_outcome<T>(outcome: Result<T, WinkitError>, budget_ms: u64) -> (r: Result<
    T,
    WinkitError,
>)
    ensures
        match outcome {
            Ok(x) => r == Ok::<T, WinkitError>(x),
            Err(e) => r matches Err(f) && f@ == probe_error_view(e@, budget_ms),
        },
{
    match outcome {
        Ok(x) => Ok(x),
        Err(e) => {
            if let ErrorKind::Timeout = e.kind {
                Err(
                    WinkitError::timeout(
                        &concat3(
                            "hardware probe exceeded the ",
                            &decimal_text(budget_ms),
                            " ms probe budget",
                        ),
                    ),
                )
            } else {
                Err(e)
            }
        },
    }
}

/// The listing of the wireless adapters that a probe found.
pub fn wifi_listing(adapters: Vec<WifiAdapterStatus>) -> (r: Listing<WifiAdapterStatus>)
    ensures
        lists(r, adapters@, adapters.len()),
{
    let all: usize = adapters.len();
    listing(adapters, all)
}

/// What the tool `hardware_snapshot` does, in words.
pub const HARDWARE_SNAPSHOT_ABOUT: &'static str = "Complete hardware snapshot: CPU, GPU, memory, storage devices, network adapters, battery, power state, and every sensor that could be read.";

/// The tool `hardware_snapshot`.
pub open spec fn hardware_snapshot_tool() -> ToolView {
    ToolView {
        name: "hardware_snapshot"@,
        description: HARDWARE_SNAPSHOT_ABOUT@,
        input_schema: schema_view(Seq::empty()),
        capability: Some(Capability::HardwareRead),
        timeout_ms: None,
    }
}

/// The tool `hardware_snapshot`.
pub fn hardware_snapshot_definition() -> (r: ToolDefinition)
    ensures
        r@ == hardware_snapshot_tool(),
{
    let params: Vec<Param> = Vec::new();
    assert(param_views(params@) =~= Seq::<ParamView>::empty());
    ToolDefinition {
        name: "hardware_snapshot",
        description: HARDWARE_SNAPSHOT_ABOUT,
        input_schema: input_schema(&params),
        capability: Some(Capability::HardwareRead),
        timeout_ms: None,
    }
}

/// What the tool `thermal_snapshot` does, in words.
pub const THERMAL_SNAPSHOT_ABOUT: &'static str = "Thermal state of the machine: every temperature sensor that could be read plus a deterministic interpretation (throttling, thermal pressure, frequency reduction). ACPI thermal zones are elevation-gated on some hosts and are then reported as permission_denied.";

/// The tool `thermal_snapshot`.
pub open spec fn thermal_snapshot_tool() -> ToolView {
    ToolView {
        name: "thermal_snapshot"@,
        description: THERMAL_SNAPSHOT_ABOUT@,
        input_schema: schema_view(Seq::empty()),
        capability: Some(Capability::HardwareRead),
        timeout_ms: None,
    }
}

/// The tool `thermal_snapshot`.
pub fn thermal_snapshot_definition() -> (r: ToolDefinition)
    ensures
        r@ == thermal_snapshot_tool(),
{
    let params: Vec<Param> = Vec::new();
    assert(param_views(params@) =~= Seq::<ParamView>::empty());
    ToolDefinition {
        name: "thermal_snapshot",
        description: THERMAL_SNAPSHOT_ABOUT,
        input_schema: input_schema(&params),
        capability: Some(Capability::HardwareRead),
        timeout_ms: None,
    }
}

/// What the tool `battery_status` does, in words.
pub const BATTERY_STATUS_ABOUT: &'static str = "Battery state (percent, charging, estimated time remaining) plus battery health from design vs full-charge capacity when the OS exposes it.";

/// The tool `battery_status`.
pub open spec fn battery_status_tool() -> ToolView {
    ToolView {
        name: "battery_status"@,
        description: BATTERY_STATUS_ABOUT@,
        input_schema: schema_view(Seq::empty()),
        capability: Some(Capability::PowerRead),
        timeout_ms: None,
    }
}

/// The tool `battery_status`.
pub fn battery_status_definition() -> (r: ToolDefinition)
    ensures
        r@ == battery_status_tool(),
{
    let params: Vec<Param> = Vec::new();
    assert(param_views(params@) =~= Seq::<ParamView>::empty());
    ToolDefinition {
        name: "battery_status",
        description: BATTERY_STATUS_ABOUT,
        input_schema: input_schema(&params),
        capability: Some(Capability::PowerRead),
        timeout_ms: None,
    }
}

/// What the tool `power_status` does, in words.
pub const POWER_STATUS_ABOUT: &'static str = "Power source status: AC or battery, battery percent and state, estimated time remaining.";

/// The tool `power_status`.
pub open spec fn power_status_tool() -> ToolView {
    ToolView {
        name: "power_status"@,
        description: POWER_STATUS_ABOUT@,
        input_schema: schema_view(Seq::empty()),
        capability: Some(Capability::PowerRead),
        timeout_ms: None,
    }
}

/// The tool `power_status`.
pub fn power_status_definition() -> (r: ToolDefinition)
    ensures
        r@ == power_status_tool(),
{
    let params: Vec<Param> = Vec::new();
    assert(param_views(params@) =~= Seq::<ParamView>::empty());
    ToolDefinition {
        name: "power_status",
        description: POWER_STATUS_ABOUT,
        input_schema: input_schema(&params),
        capability: Some(Capability::PowerRead),
        timeout_ms: None,
    }
}

/// What the tool `disk_health` does, in words.
pub const DISK_HEALTH_ABOUT: &'static str = "Physical storage health: NVMe S.M.A.R.T. (critical warnings, spare, media errors, power-on hours) when readable, otherwise the OS storage-stack health status (MSFT_PhysicalDisk, no elevation required), otherwise an explicit reason.";

/// The tool `disk_health`.
pub open spec fn disk_health_tool() -> ToolView {
    ToolView {
        name: "disk_health"@,
        description: DISK_HEALTH_ABOUT@,
        input_schema: schema_view(Seq::empty()),
        capability: Some(Capability::StorageHealthRead),
        timeout_ms: None,
    }
}

/// The tool `disk_health`.
pub fn disk_health_definition() -> (r: ToolDefinition)
    ensures
        r@ == disk_health_tool(),
{
    let params: Vec<Param> = Vec::new();
    assert(param_views(params@) =~= Seq::<ParamView>::empty());
    ToolDefinition {
        name: "disk_health",
        description: DISK_HEALTH_ABOUT,
        input_schema: input_schema(&params),
        capability: Some(Capability::StorageHealthRead),
        timeout_ms: None,
    }
}

/// What the tool `disk_performance` does, in words.
pub const DISK_PERFORMANCE_ABOUT: &'static str = "Storage activity sampled over a short window: busy percent, queue depth, read/write throughput and IOPS per physical disk.";

/// The parameters of the tool `disk_performance`.
pub open spec fn disk_performance_params() -> Seq<ParamView> {
    seq![
        ParamView::new("sample_window_ms"@, ParamKind::Integer)
            .at_least(1)
            .about("Milliseconds to sample (default 1000, bounded by the operation timeout)."@),
    ]
}

/// The tool `disk_performance`.
pub open spec fn disk_performance_tool() -> ToolView {
    ToolView {
        name: "disk_performance"@,
        description: DISK_PERFORMANCE_ABOUT@,
        input_schema: schema_view(disk_performance_params()),
        capability: Some(Capability::StorageRead),
        timeout_ms: None,
    }
}

/// The tool `disk_performance`.
pub fn disk_performance_definition() -> (r: ToolDefinition)
    ensures
        r@ == disk_performance_tool(),
{
    let params: Vec<Param> = vec![
        Param::new("sample_window_ms", ParamKind::Integer)
            .at_least(1)
            .about("Milliseconds to sample (default 1000, bounded by the operation timeout)."),
    ];
    assert(param_views(params@) =~= disk_performance_params());
    ToolDefinition {
        name: "disk_performance",
        description: DISK_PERFORMANCE_ABOUT,
        input_schema: input_schema(&params),
        capability: Some(Capability::StorageRead),
        timeout_ms: None,
    }
}

/// What the tool `network_snapshot` does, in words.
pub const NETWORK_SNAPSHOT_ABOUT: &'static str = "Bounded composite network snapshot: interfaces, Wi-Fi adapter status, active TCP connections, and listening ports.";

/// The tool `network_snapshot`.
pub open spec fn network_snapshot_tool() -> ToolView {
    ToolView {
        name: "network_snapshot"@,
        description: NETWORK_SNAPSHOT_ABOUT@,
        input_schema: schema_view(Seq::empty()),
        capability: Some(Capability::NetworkRead),
        timeout_ms: None,
    }
}

/// The tool `network_snapshot`.
pub fn network_snapshot_definition() -> (r: ToolDefinition)
    ensures
        r@ == network_snapshot_tool(),
{
    let params: Vec<Param> = Vec::new();
    assert(param_views(params@) =~= Seq::<ParamView>::empty());
    ToolDefinition {
        name: "network_snapshot",
        description: NETWORK_SNAPSHOT_ABOUT,
        input_schema: input_schema(&params),
        capability: Some(Capability::NetworkRead),
        timeout_ms: None,
    }
}

/// What the tool `network_diagnose` does, in words.
pub const NETWORK_DIAGNOSE_ABOUT: &'static str = "Connectivity diagnosis per interface: gateway reachability and latency (ICMP), Wi-Fi signal and link speed, plus structured findings. Never conflates Wi-Fi weakness with an 'Internet broken' conclusion.";

/// The parameters of the tool `network_diagnose`.
pub open spec fn network_diagnose_params() -> Seq<ParamView> {
    seq![
        ParamView::new("sample_window_ms"@, ParamKind::Integer)
            .at_least(1)
            .about("Milliseconds to sample (default 1000, bounded by the operation timeout)."@),
    ]
}

/// The tool `network_diagnose`.
pub open spec fn network_diagnose_tool() -> ToolView {
    ToolView {
        name: "network_diagnose"@,
        description: NETWORK_DIAGNOSE_ABOUT@,
        input_schema: schema_view(network_diagnose_params()),
        capability: Some(Capability::NetworkDiagnosticsRead),
        timeout_ms: None,
    }
}

/// The tool `network_diagnose`.
pub fn network_diagnose_definition() -> (r: ToolDefinition)
    ensures
        r@ == network_diagnose_tool(),
{
    let params: Vec<Param> = vec![
        Param::new("sample_window_ms", ParamKind::Integer)
            .at_least(1)
            .about("Milliseconds to sample (default 1000, bounded by the operation timeout)."),
    ];
    assert(param_views(params@) =~= network_diagnose_params());
    ToolDefinition {
        name: "network_diagnose",
        description: NETWORK_DIAGNOSE_ABOUT,
        input_schema: input_schema(&params),
        capability: Some(Capability::NetworkDiagnosticsRead),
        timeout_ms: None,
    }
}

/// What the tool `wifi_status` does, in words.
pub const WIFI_STATUS_ABOUT: &'static str = "Wi-Fi adapter status: state (connected/disconnected), SSID, signal, RSSI, link speed, channel and band. Not a scan — no radio probing.";

/// The tool `wifi_status`.
pub open spec fn wifi_status_tool() -> ToolView {
    ToolView {
        name: "wifi_status"@,
        description: WIFI_STATUS_ABOUT@,
        input_schema: schema_view(Seq::empty()),
        capability: Some(Capability::WifiRead),
        timeout_ms: None,
    }
}

/// The tool `wifi_status`.
pub fn wifi_status_definition() -> (r: ToolDefinition)
    ensures
        r@ == wifi_status_tool(),
{
    let params: Vec<Param> = Vec::new();
    assert(param_views(params@) =~= Seq::<ParamView>::empty());
    ToolDefinition {
        name: "wifi_status",
        description: WIFI_STATUS_ABOUT,
        input_schema: input_schema(&params),
        capability: Some(Capability::WifiRead),
        timeout_ms: None,
    }
}

/// What the tool `wifi_scan` does, in words.
pub const WIFI_SCAN_ABOUT: &'static str = "Scan for nearby Wi-Fi networks (radio probe). Gated by configuration `hardware.wifi_scan_enabled`; when disabled, returns an explicit 'unavailable' status instead of an empty list.";

/// The tool `wifi_scan`.
pub open spec fn wifi_scan_tool() -> ToolView {
    ToolView {
        name: "wifi_scan"@,
        description: WIFI_SCAN_ABOUT@,
        input_schema: schema_view(Seq::empty()),
        capability: Some(Capability::WifiRead),
        timeout_ms: None,
    }
}

/// The tool `wifi_scan`.
pub fn wifi_scan_definition() -> (r: ToolDefinition)
    ensures
        r@ == wifi_scan_tool(),
{
    let params: Vec<Param> = Vec::new();
    assert(param_views(params@) =~= Seq::<ParamView>::empty());
    ToolDefinition {
        name: "wifi_scan",
        description: WIFI_SCAN_ABOUT,
        input_schema: input_schema(&params),
        capability: Some(Capability::WifiRead),
        timeout_ms: None,
    }
}

/// A window is sampled for as long as was asked, at least a millisecond and no longer
/// than an operation may take; a second where nothing was asked. The probe is given at
/// least a second more than its window, and never less than what is configured.
pub proof fn law_probes_have_time_for_their_window(
    args: Json,
    probe_timeout_ms: u64,
    operation_timeout_ms: u64,
    r: (u64, u64),
)
    requires
        operation_timeout_ms >= 1,
        call_ensures(sampling_from_args, (&args, probe_timeout_ms, operation_timeout_ms), r),
    ensures
        1 <= r.0 <= operation_timeout_ms,
        args@.uint_at("sample_window_ms"@) matches Some(w) ==> (1 <= w <= operation_timeout_ms
            ==> r.0 == w),
        args@.uint_at("sample_window_ms"@) is None && operation_timeout_ms >= 1000 ==> r.0 == 1000,
        r.1 >= probe_timeout_ms,
        r.0 <= u64::MAX - 1000 ==> r.1 >= r.0 + 1000,
        r.1 == probe_timeout_ms || r.1 == r.0 + 1000 || r.1 == u64::MAX,
{
}

/// What a probe finds is handed on, and so is its error; of a probe that ran out of
/// time the budget is told.
pub proof fn law_probe_outcomes_are_handed_on<T>(
    outcome: Result<T, WinkitError>,
    budget_ms: u64,
    r: Result<T, WinkitError>,
)
    requires
        call_ensures(probe_outcome::<T>, (outcome, budget_ms), r),
    ensures
        outcome is Ok <==> r is Ok,
        outcome is Ok ==> r->Ok_0 == outcome->Ok_0,
        outcome is Err ==> r->Err_0.kind == outcome->Err_0.kind,
        outcome is Err && outcome->Err_0.kind != ErrorKind::Timeout ==> r->Err_0.message@
            == outcome->Err_0.message@,
        outcome is Err && outcome->Err_0.kind == ErrorKind::Timeout ==> r->Err_0.message@
            == "hardware probe exceeded the "@ + decimal(budget_ms as nat) + " ms probe budget"@,
{
}

} // verus!
