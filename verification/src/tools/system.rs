//! The machine at a glance.

use crate::config::Limits;
use crate::errors::WinkitError;
use crate::models::{
    DriveInfo, NetworkInterfaceInfo, PortInfo, ProcessInfo, ResourceSnapshot, ServiceInfo,
    SystemInfo, WindowInfo,
};
use crate::order::{comes_before, is_stable_order, keys_view, stable_order};
use crate::permissions::Capability;
use crate::providers::windows::WindowsBackend;
use crate::text::opt_view;
use crate::tools::processes::or_zero;
use crate::tools::schema::{input_schema, param_views, schema_view, Param, ParamView};
use crate::tools::services::{count_running, running_count, runs};
use crate::tools::toolset::{ToolDefinition, ToolView};
use vstd::prelude::*;
use vstd::string::*;

verus! {

/// How many ports and windows a snapshot shows.
pub const SNAPSHOT_SAMPLES: usize = 20;

/// The longest time that a snapshot measures the load, in milliseconds.
pub const SNAPSHOT_LOAD_MS: u64 = 1000;

/// A process in a snapshot.
#[derive(Debug)]
pub struct ProcessRow {
    pub pid: u32,
    pub name: String,
    pub working_set_bytes: Option<u64>,
    pub cpu_time_ms: Option<u64>,
}

/// A port in a snapshot.
#[derive(Debug)]
pub struct PortRow {
    pub port: u16,
    pub protocol: String,
    pub pid: Option<u32>,
    pub process_name: Option<String>,
    pub address: String,
}

/// A window in a snapshot.
#[derive(Debug)]
pub struct WindowRow {
    pub hwnd: isize,
    pub title: String,
    pub process_id: u32,
    pub process_name: Option<String>,
    pub visible: bool,
    pub foreground: bool,
}

/// The machine at a glance.
#[derive(Debug)]
pub struct MachineSnapshot {
    pub system: SystemInfo,
    pub resources: ResourceSnapshot,
    pub process_count: usize,
    pub processes_truncated: bool,
    pub top_by_memory: Vec<ProcessRow>,
    pub storage: Vec<DriveInfo>,
    pub interfaces: usize,
    pub listening_port_count: usize,
    pub listening_ports_truncated: bool,
    pub listening_ports: Vec<PortRow>,
    pub service_count: usize,
    pub services_running: usize,
    pub services_truncated: bool,
    pub window_count: usize,
    pub windows_truncated: bool,
    pub window_samples: Vec<WindowRow>,
}

/// What the machine answered for a snapshot.
pub struct SnapshotInputs {
    pub system: SystemInfo,
    pub resources: ResourceSnapshot,
    pub processes: Vec<ProcessInfo>,
    pub drives: Vec<DriveInfo>,
    pub services: Vec<ServiceInfo>,
    pub windows: Vec<WindowInfo>,
    pub ports: Vec<PortInfo>,
    pub interfaces: Vec<NetworkInterfaceInfo>,
}

/// The keys by which the largest consumers of memory come first.
pub open spec fn memory_keys(processes: Seq<ProcessInfo>) -> Seq<Seq<u64>> {
    processes.map_values(|p: ProcessInfo| seq![(u64::MAX - or_zero(p.working_set_bytes)) as u64])
}

/// Does the row show the process?
pub open spec fn shows_process(row: ProcessRow, p: ProcessInfo) -> bool {
    row.pid == p.pid && row.name@ == p.name@ && row.working_set_bytes == p.working_set_bytes
        && row.cpu_time_ms == p.cpu_time_ms
}

/// The smaller of two lengths.
pub open spec fn at_most_of(n: nat, max: usize) -> int {
    if n < max {
        n as int
    } else {
        max as int
    }
}

/// Are the rows the processes that take the most memory, the most first,
/// equals as they stood?
pub open spec fn shows_top(rows: Seq<ProcessRow>, processes: Seq<ProcessInfo>, max: usize) -> bool {
    exists|order: Seq<usize>| #[trigger]
        is_stable_order(memory_keys(processes), order) && rows_in_order(rows, processes, order, max)
}

/// Are the rows the first processes in this order?
pub open spec fn rows_in_order(
    rows: Seq<ProcessRow>,
    processes: Seq<ProcessInfo>,
    order: Seq<usize>,
    max: usize,
) -> bool {
    &&& rows.len() == at_most_of(processes.len(), max)
    &&& forall|i: int|
        0 <= i < rows.len() ==> shows_process(#[trigger] rows[i], processes[order[i] as int])
}

/// The processes that take the most memory.
pub fn top_by_memory(processes: &Vec<ProcessInfo>, max: usize) -> (r: Vec<ProcessRow>)
    ensures
        shows_top(r@, processes@, max),
{
    let mut keys: Vec<Vec<u64>> = Vec::new();
    let mut i: usize = 0;
    while i < processes.len()
        invariant
            i <= processes@.len(),
            keys@.len() == i,
            forall|k: int|
                0 <= k < i ==> (#[trigger] keys@[k])@ == seq![
                    (u64::MAX - or_zero(processes@[k].working_set_bytes)) as u64,
                ],
        decreases processes@.len() - i,
    {
        let first: u64 = u64::MAX - processes[i].working_set_bytes.unwrap_or(0);
        let key: Vec<u64> = vec![first];
        assert(key@ =~= seq![first]);
        keys.push(key);
        i = i + 1;
    }
    assert(keys_view(keys@) =~= memory_keys(processes@));
    let order = stable_order(&keys);
    let total: usize = order.len();
    let kept: usize = if total < max {
        total
    } else {
        max
    };
    let mut rows: Vec<ProcessRow> = Vec::new();
    let mut j: usize = 0;
    while j < kept
        invariant
            is_stable_order(memory_keys(processes@), order@),
            order@.len() == processes@.len(),
            kept <= order@.len(),
            j <= kept,
            rows@.len() == j,
            forall|k: int|
                0 <= k < j ==> shows_process(#[trigger] rows@[k], processes@[order@[k] as int]),
        decreases kept - j,
    {
        assert(order@[j as int] < memory_keys(processes@).len());
        let p = &processes[order[j]];
        rows.push(
            ProcessRow {
                pid: p.pid,
                name: p.name.clone(),
                working_set_bytes: p.working_set_bytes,
                cpu_time_ms: p.cpu_time_ms,
            },
        );
        j = j + 1;
    }
    assert(rows_in_order(rows@, processes@, order@, max));
    rows
}

/// In a snapshot no process follows one that takes less memory.
pub proof fn law_top_descends(
    rows: Seq<ProcessRow>,
    processes: Seq<ProcessInfo>,
    max: usize,
    i: int,
    j: int,
)
    requires
        shows_top(rows, processes, max),
        0 <= i < j < rows.len(),
    ensures
        or_zero(rows[i].working_set_bytes) >= or_zero(rows[j].working_set_bytes),
{
    reveal_with_fuel(crate::order::key_lt, 2);
    let keys = memory_keys(processes);
    let order = choose|order: Seq<usize>| #[trigger]
        is_stable_order(keys, order) && rows_in_order(rows, processes, order, max);
    let a = order[i] as int;
    let b = order[j] as int;
    assert(comes_before(keys, a, b));
    assert(shows_process(rows[i], processes[a]) && shows_process(rows[j], processes[b]));
    assert(keys[a][0] == u64::MAX - or_zero(processes[a].working_set_bytes));
    assert(keys[b][0] == u64::MAX - or_zero(processes[b].working_set_bytes));
    assert(keys[a].drop_first().len() == 0);
}

/// Does the row show the port?
pub open spec fn shows_port(row: PortRow, p: PortInfo) -> bool {
    row.port == p.port && row.protocol@ == p.protocol@ && row.pid == p.pid && opt_view(
        row.process_name,
    ) == opt_view(p.process_name) && row.address@ == p.address@
}

/// Does the row show the window?
pub open spec fn shows_window(row: WindowRow, w: WindowInfo) -> bool {
    row.hwnd == w.hwnd && row.title@ == w.title@ && row.process_id == w.process_id && opt_view(
        row.process_name,
    ) == opt_view(w.process_name) && row.visible == w.visible && row.foreground == w.foreground
}

fn port_rows(ports: &Vec<PortInfo>) -> (r: Vec<PortRow>)
    ensures
        r@.len() == at_most_of(ports@.len(), SNAPSHOT_SAMPLES),
        forall|i: int| 0 <= i < r@.len() ==> shows_port(#[trigger] r@[i], ports@[i]),
{
    let mut rows: Vec<PortRow> = Vec::new();
    let mut i: usize = 0;
    while i < ports.len() && i < SNAPSHOT_SAMPLES
        invariant
            i <= ports@.len(),
            i <= SNAPSHOT_SAMPLES,
            rows@.len() == i,
            forall|k: int| 0 <= k < i ==> shows_port(#[trigger] rows@[k], ports@[k]),
        decreases ports@.len() - i,
    {
        let p = &ports[i];
        rows.push(
            PortRow {
                port: p.port,
                protocol: p.protocol.clone(),
                pid: p.pid,
                process_name: p.process_name.clone(),
                address: p.address.clone(),
            },
        );
        i = i + 1;
    }
    rows
}

fn window_rows(windows: &Vec<WindowInfo>) -> (r: Vec<WindowRow>)
    ensures
        r@.len() == at_most_of(windows@.len(), SNAPSHOT_SAMPLES),
        forall|i: int| 0 <= i < r@.len() ==> shows_window(#[trigger] r@[i], windows@[i]),
{
    let mut rows: Vec<WindowRow> = Vec::new();
    let mut i: usize = 0;
    while i < windows.len() && i < SNAPSHOT_SAMPLES
        invariant
            i <= windows@.len(),
            i <= SNAPSHOT_SAMPLES,
            rows@.len() == i,
            forall|k: int| 0 <= k < i ==> shows_window(#[trigger] rows@[k], windows@[k]),
        decreases windows@.len() - i,
    {
        let w = &windows[i];
        rows.push(
            WindowRow {
                hwnd: w.hwnd,
                title: w.title.clone(),
                process_id: w.process_id,
                process_name: w.process_name.clone(),
                visible: w.visible,
                foreground: w.foreground,
            },
        );
        i = i + 1;
    }
    rows
}

/// Is it the snapshot of what the machine answered?
pub open spec fn snapshot_of(s: MachineSnapshot, i: SnapshotInputs, limits: Limits) -> bool {
    &&& s.system == i.system
    &&& s.resources == i.resources
    &&& s.process_count == i.processes@.len()
    &&& s.processes_truncated == (i.processes@.len() > limits.max_snapshot_processes)
    &&& shows_top(s.top_by_memory@, i.processes@, limits.max_snapshot_processes)
    &&& s.storage == i.drives
    &&& s.interfaces == i.interfaces@.len()
    &&& s.listening_port_count == i.ports@.len()
    &&& s.listening_ports_truncated == (i.ports@.len() > SNAPSHOT_SAMPLES)
    &&& s.listening_ports@.len() == at_most_of(i.ports@.len(), SNAPSHOT_SAMPLES)
    &&& forall|k: int|
        0 <= k < s.listening_ports@.len() ==> shows_port(
            #[trigger] s.listening_ports@[k],
            i.ports@[k],
        )
    &&& s.service_count == i.services@.len()
    &&& s.services_running == running_count(i.services@)
    &&& s.services_truncated == (i.services@.len() == limits.max_services)
    &&& s.window_count == i.windows@.len()
    &&& s.windows_truncated == (i.windows@.len() > SNAPSHOT_SAMPLES)
    &&& s.window_samples@.len() == at_most_of(i.windows@.len(), SNAPSHOT_SAMPLES)
    &&& forall|k: int|
        0 <= k < s.window_samples@.len() ==> shows_window(
            #[trigger] s.window_samples@[k],
            i.windows@[k],
        )
}

/// The snapshot of what the machine answered.
pub fn compose_snapshot(inputs: SnapshotInputs, limits: &Limits) -> (r: MachineSnapshot)
    ensures
        snapshot_of(r, inputs, *limits),
{
    let top = top_by_memory(&inputs.processes, limits.max_snapshot_processes);
    let ports = port_rows(&inputs.ports);
    let windows = window_rows(&inputs.windows);
    let running: usize = count_running(&inputs.services);
    MachineSnapshot {
        system: inputs.system,
        resources: inputs.resources,
        process_count: inputs.processes.len(),
        processes_truncated: inputs.processes.len() > limits.max_snapshot_processes,
        top_by_memory: top,
        storage: inputs.drives,
        interfaces: inputs.interfaces.len(),
        listening_port_count: inputs.ports.len(),
        listening_ports_truncated: inputs.ports.len() > SNAPSHOT_SAMPLES,
        listening_ports: ports,
        service_count: inputs.services.len(),
        services_running: running,
        services_truncated: inputs.services.len() == limits.max_services,
        window_count: inputs.windows.len(),
        windows_truncated: inputs.windows.len() > SNAPSHOT_SAMPLES,
        window_samples: windows,
    }
}

/// How long a snapshot measures the load.
pub open spec fn load_interval(limits: Limits) -> u64 {
    if limits.operation_timeout_ms < SNAPSHOT_LOAD_MS {
        limits.operation_timeout_ms
    } else {
        SNAPSHOT_LOAD_MS
    }
}

/// Are these the machine's answers?
pub open spec fn answered<B: WindowsBackend>(
    backend: &B,
    limits: Limits,
    i: SnapshotInputs,
) -> bool {
    &&& call_ensures(B::system_info, (backend,), Ok::<SystemInfo, WinkitError>(i.system))
    &&& call_ensures(
        B::resource_snapshot,
        (backend, load_interval(limits)),
        Ok::<ResourceSnapshot, WinkitError>(i.resources),
    )
    &&& call_ensures(
        B::list_processes,
        (backend, limits.max_processes),
        Ok::<Vec<ProcessInfo>, WinkitError>(i.processes),
    )
    &&& call_ensures(B::list_drives, (backend,), Ok::<Vec<DriveInfo>, WinkitError>(i.drives))
    &&& call_ensures(
        B::list_services,
        (backend, limits.max_services),
        Ok::<Vec<ServiceInfo>, WinkitError>(i.services),
    )
    &&& call_ensures(
        B::list_windows,
        (backend, limits.max_windows, false),
        Ok::<Vec<WindowInfo>, WinkitError>(i.windows),
    )
    &&& call_ensures(
        B::list_listening_ports,
        (backend, limits.max_network_results),
        Ok::<Vec<PortInfo>, WinkitError>(i.ports),
    )
    &&& call_ensures(
        B::list_network_interfaces,
        (backend,),
        Ok::<Vec<NetworkInterfaceInfo>, WinkitError>(i.interfaces),
    )
}

/// Was the question of this number answered? A snapshot asks eight questions,
/// one after the other.
pub open spec fn gave_answer<B: WindowsBackend>(backend: &B, limits: Limits, n: int) -> bool {
    if n == 0 {
        exists|x: SystemInfo|
            #[trigger] call_ensures(B::system_info, (backend,), Ok::<SystemInfo, WinkitError>(x))
    } else if n == 1 {
        exists|x: ResourceSnapshot|
            #[trigger] call_ensures(B::resource_snapshot, (backend, load_interval(limits)), Ok::<ResourceSnapshot, WinkitError>(x))
    } else if n == 2 {
        exists|x: Vec<ProcessInfo>|
            #[trigger] call_ensures(B::list_processes, (backend, limits.max_processes), Ok::<Vec<ProcessInfo>, WinkitError>(x))
    } else if n == 3 {
        exists|x: Vec<DriveInfo>|
            #[trigger] call_ensures(B::list_drives, (backend,), Ok::<Vec<DriveInfo>, WinkitError>(x))
    } else if n == 4 {
        exists|x: Vec<ServiceInfo>|
            #[trigger] call_ensures(B::list_services, (backend, limits.max_services), Ok::<Vec<ServiceInfo>, WinkitError>(x))
    } else if n == 5 {
        exists|x: Vec<WindowInfo>|
            #[trigger] call_ensures(B::list_windows, (backend, limits.max_windows, false), Ok::<Vec<WindowInfo>, WinkitError>(x))
    } else if n == 6 {
        exists|x: Vec<PortInfo>|
            #[trigger] call_ensures(B::list_listening_ports, (backend, limits.max_network_results), Ok::<Vec<PortInfo>, WinkitError>(x))
    } else {
        exists|x: Vec<NetworkInterfaceInfo>|
            #[trigger] call_ensures(B::list_network_interfaces, (backend,), Ok::<Vec<NetworkInterfaceInfo>, WinkitError>(x))
    }
}

/// Did the question of this number fail with this error?
pub open spec fn gave_error<B: WindowsBackend>(
    backend: &B,
    limits: Limits,
    n: int,
    e: WinkitError,
) -> bool {
    if n == 0 {
        call_ensures(B::system_info, (backend,), Err::<SystemInfo, WinkitError>(e))
    } else if n == 1 {
        call_ensures(B::resource_snapshot, (backend, load_interval(limits)), Err::<ResourceSnapshot, WinkitError>(e))
    } else if n == 2 {
        call_ensures(B::list_processes, (backend, limits.max_processes), Err::<Vec<ProcessInfo>, WinkitError>(e))
    } else if n == 3 {
        call_ensures(B::list_drives, (backend,), Err::<Vec<DriveInfo>, WinkitError>(e))
    } else if n == 4 {
        call_ensures(B::list_services, (backend, limits.max_services), Err::<Vec<ServiceInfo>, WinkitError>(e))
    } else if n == 5 {
        call_ensures(B::list_windows, (backend, limits.max_windows, false), Err::<Vec<WindowInfo>, WinkitError>(e))
    } else if n == 6 {
        call_ensures(B::list_listening_ports, (backend, limits.max_network_results), Err::<Vec<PortInfo>, WinkitError>(e))
    } else {
        call_ensures(B::list_network_interfaces, (backend,), Err::<Vec<NetworkInterfaceInfo>, WinkitError>(e))
    }
}

/// Is it the error of the first question of a snapshot that failed?
pub open spec fn failed<B: WindowsBackend>(backend: &B, limits: Limits, e: WinkitError) -> bool {
    exists|n: int|
        0 <= n < 8 && #[trigger] gave_error(backend, limits, n, e) && forall|k: int|
            0 <= k < n ==> #[trigger] gave_answer(backend, limits, k)
}

/// The machine at a glance; or the error of the first question that failed.
pub fn snapshot_handler<B: WindowsBackend>(backend: &B, limits: &Limits) -> (r: Result<
    MachineSnapshot,
    WinkitError,
>)
    ensures
        match r {
            Ok(s) => exists|i: SnapshotInputs| #[trigger]
                answered(backend, *limits, i) && snapshot_of(s, i, *limits),
            Err(e) => failed(backend, *limits, e),
        },
{
    let interval: u64 = if limits.operation_timeout_ms < SNAPSHOT_LOAD_MS {
        limits.operation_timeout_ms
    } else {
        SNAPSHOT_LOAD_MS
    };
    let system = match backend.system_info() {
        Ok(x) => x,
        Err(e) => {
            assert(gave_error(backend, *limits, 0, e));
            return Err(e);
        },
    };
    assert(gave_answer(backend, *limits, 0));
    let resources = match backend.resource_snapshot(interval) {
        Ok(x) => x,
        Err(e) => {
            assert(gave_error(backend, *limits, 1, e));
            return Err(e);
        },
    };
    assert(gave_answer(backend, *limits, 1));
    let processes = match backend.list_processes(limits.max_processes) {
        Ok(x) => x,
        Err(e) => {
            assert(gave_error(backend, *limits, 2, e));
            return Err(e);
        },
    };
    assert(gave_answer(backend, *limits, 2));
    let drives = match backend.list_drives() {
        Ok(x) => x,
        Err(e) => {
            assert(gave_error(backend, *limits, 3, e));
            return Err(e);
        },
    };
    assert(gave_answer(backend, *limits, 3));
    let services = match backend.list_services(limits.max_services) {
        Ok(x) => x,
        Err(e) => {
            assert(gave_error(backend, *limits, 4, e));
            return Err(e);
        },
    };
    assert(gave_answer(backend, *limits, 4));
    let windows = match backend.list_windows(limits.max_windows, false) {
        Ok(x) => x,
        Err(e) => {
            assert(gave_error(backend, *limits, 5, e));
            return Err(e);
        },
    };
    assert(gave_answer(backend, *limits, 5));
    let ports = match backend.list_listening_ports(limits.max_network_results) {
        Ok(x) => x,
        Err(e) => {
            assert(gave_error(backend, *limits, 6, e));
            return Err(e);
        },
    };
    assert(gave_answer(backend, *limits, 6));
    let interfaces = match backend.list_network_interfaces() {
        Ok(x) => x,
        Err(e) => {
            assert(gave_error(backend, *limits, 7, e));
            return Err(e);
        },
    };
    assert(gave_answer(backend, *limits, 7));
    let inputs = SnapshotInputs {
        system,
        resources,
        processes,
        drives,
        services,
        windows,
        ports,
        interfaces,
    };
    assert(answered(backend, *limits, inputs));
    Ok(compose_snapshot(inputs, limits))
}

/// What the tool `system_info` does, in words.
pub const SYSTEM_INFO_ABOUT: &'static str = "Operating-system information (version, build, uptime, architecture) plus the active permission mode and registered providers.";

/// The tool `system_info`.
pub open spec fn system_info_tool() -> ToolView {
    ToolView {
        name: "system_info"@,
        description: SYSTEM_INFO_ABOUT@,
        input_schema: schema_view(Seq::empty()),
        capability: Some(Capability::SystemRead),
        timeout_ms: None,
    }
}

/// The tool `system_info`.
pub fn system_info_definition() -> (r: ToolDefinition)
    ensures
        r@ == system_info_tool(),
{
    let params: Vec<Param> = Vec::new();
    assert(param_views(params@) =~= Seq::<ParamView>::empty());
    ToolDefinition {
        name: "system_info",
        description: SYSTEM_INFO_ABOUT,
        input_schema: input_schema(&params),
        capability: Some(Capability::SystemRead),
        timeout_ms: None,
    }
}

/// What the tool `snapshot` does, in words.
pub const SNAPSHOT_ABOUT: &'static str = "A concise aggregate view of the machine: system, resources, top memory processes, drives, network ports, services, windows, and — when readable — storage health, Wi-Fi, thermals, and power summaries.";

/// The tool `snapshot`.
pub open spec fn snapshot_tool() -> ToolView {
    ToolView {
        name: "snapshot"@,
        description: SNAPSHOT_ABOUT@,
        input_schema: schema_view(Seq::empty()),
        capability: Some(Capability::SystemRead),
        timeout_ms: None,
    }
}

/// The tool `snapshot`.
pub fn snapshot_definition() -> (r: ToolDefinition)
    ensures
        r@ == snapshot_tool(),
{
    let params: Vec<Param> = Vec::new();
    assert(param_views(params@) =~= Seq::<ParamView>::empty());
    ToolDefinition {
        name: "snapshot",
        description: SNAPSHOT_ABOUT,
        input_schema: input_schema(&params),
        capability: Some(Capability::SystemRead),
        timeout_ms: None,
    }
}

/// Does the row show one of the processes?
pub open spec fn shows_one_of(row: ProcessRow, processes: Seq<ProcessInfo>) -> bool {
    exists|k: int| 0 <= k < processes.len() && shows_process(row, #[trigger] processes[k])
}

/// The processes of a snapshot are those that take the most memory: each row shows one
/// of them, and none that is left out takes more than one that is shown.
pub proof fn law_largest_are_shown(
    processes: Vec<ProcessInfo>,
    max: usize,
    r: Vec<ProcessRow>,
)
    requires
        call_ensures(top_by_memory, (&processes, max), r),
    ensures
        processes@.len() <= max ==> r@.len() == processes@.len(),
        processes@.len() > max ==> r@.len() == max,
        forall|i: int, j: int|
            0 <= i < j < r@.len() ==> (#[trigger] r@[i]).working_set_bytes.unwrap_or(0) >= (
            #[trigger] r@[j]).working_set_bytes.unwrap_or(0),
        forall|i: int|
            0 <= i < r@.len() ==> shows_one_of(#[trigger] r@[i], processes@),
        forall|k: int|
            0 <= k < processes@.len() ==> (exists|i: int|
                0 <= i < r@.len() && shows_process(#[trigger] r@[i], #[trigger] processes@[k])) || (
            forall|i: int|
                0 <= i < r@.len() ==> (#[trigger] r@[i]).working_set_bytes.unwrap_or(0)
                    >= processes@[k].working_set_bytes.unwrap_or(0)),
{
    let keys = memory_keys(processes@);
    let order = choose|order: Seq<usize>| #[trigger]
        is_stable_order(keys, order) && rows_in_order(r@, processes@, order, max);
    assert forall|i: int, j: int| 0 <= i < j < r@.len() implies (
    #[trigger] r@[i]).working_set_bytes.unwrap_or(0) >= (
    #[trigger] r@[j]).working_set_bytes.unwrap_or(0) by {
        law_top_descends(r@, processes@, max, i, j);
    }
    assert forall|i: int| 0 <= i < r@.len() implies shows_one_of(
        #[trigger] r@[i],
        processes@,
    ) by {
        assert(order[i] < keys.len());
        assert(shows_process(r@[i], processes@[order[i] as int]));
    }
    assert forall|k: int| 0 <= k < processes@.len() implies (exists|i: int|
        0 <= i < r@.len() && shows_process(#[trigger] r@[i], #[trigger] processes@[k])) || (forall|
        i: int,
    |
        0 <= i < r@.len() ==> (#[trigger] r@[i]).working_set_bytes.unwrap_or(0)
            >= processes@[k].working_set_bytes.unwrap_or(0)) by {
        assert(processes@.len() == processes.len());
        assert(order.contains(k as usize));
        let at = choose|at: int| 0 <= at < order.len() && order[at] == k as usize;
        if at < r@.len() {
            assert(shows_process(r@[at], processes@[k]));
        } else {
            reveal_with_fuel(crate::order::key_lt, 2);
            assert forall|i: int| 0 <= i < r@.len() implies (
            #[trigger] r@[i]).working_set_bytes.unwrap_or(0)
                >= processes@[k].working_set_bytes.unwrap_or(0) by {
                let a = order[i] as int;
                assert(comes_before(keys, order[i] as int, order[at] as int));
                assert(shows_process(r@[i], processes@[a]));
                assert(keys[a][0] == u64::MAX - or_zero(processes@[a].working_set_bytes));
                assert(keys[k][0] == u64::MAX - or_zero(processes@[k].working_set_bytes));
                assert(keys[a].drop_first().len() == 0);
            }
        }
    }
}

/// A snapshot counts what the machine gave, shows the first twenty ports and windows
/// and all volumes, and says of each list whether it is shown in part.
pub proof fn law_snapshot_tells_the_machine(
    inputs: SnapshotInputs,
    limits: Limits,
    r: MachineSnapshot,
)
    requires
        call_ensures(compose_snapshot, (inputs, &limits), r),
    ensures
        r.system == inputs.system,
        r.resources == inputs.resources,
        r.storage == inputs.drives,
        r.process_count == inputs.processes@.len(),
        r.processes_truncated <==> inputs.processes@.len() > limits.max_snapshot_processes,
        r.top_by_memory@.len() <= limits.max_snapshot_processes,
        r.interfaces == inputs.interfaces@.len(),
        r.listening_port_count == inputs.ports@.len(),
        r.listening_ports_truncated <==> inputs.ports@.len() > 20,
        r.listening_ports@.len() == if inputs.ports@.len() > 20 {
            20
        } else {
            inputs.ports@.len()
        },
        forall|k: int|
            0 <= k < r.listening_ports@.len() ==> (#[trigger] r.listening_ports@[k]).port
                == inputs.ports@[k].port && r.listening_ports@[k].protocol@
                == inputs.ports@[k].protocol@ && r.listening_ports@[k].pid == inputs.ports@[k].pid
                && r.listening_ports@[k].address@ == inputs.ports@[k].address@,
        r.service_count == inputs.services@.len(),
        r.services_running == inputs.services@.filter(
            |s: ServiceInfo| s.state@ == "running"@,
        ).len(),
        r.services_truncated <==> inputs.services@.len() == limits.max_services,
        r.window_count == inputs.windows@.len(),
        r.windows_truncated <==> inputs.windows@.len() > 20,
        r.window_samples@.len() == if inputs.windows@.len() > 20 {
            20
        } else {
            inputs.windows@.len()
        },
        forall|k: int|
            0 <= k < r.window_samples@.len() ==> (#[trigger] r.window_samples@[k]).hwnd
                == inputs.windows@[k].hwnd && r.window_samples@[k].title@
                == inputs.windows@[k].title@ && r.window_samples@[k].process_id
                == inputs.windows@[k].process_id && r.window_samples@[k].visible
                == inputs.windows@[k].visible && r.window_samples@[k].foreground
                == inputs.windows@[k].foreground,
{
    assert((|s: ServiceInfo| runs(s)) =~= (|s: ServiceInfo| s.state@ == "running"@));
}

/// A snapshot is of what the machine answers to each question, asked with the limit that
/// is set for it; hidden windows are among the windows.
pub proof fn law_snapshots_ask_within_the_limits<B: WindowsBackend>(
    backend: B,
    limits: Limits,
    s: MachineSnapshot,
)
    requires
        call_ensures(
            snapshot_handler::<B>,
            (&backend, &limits),
            Ok::<MachineSnapshot, WinkitError>(s),
        ),
    ensures
        call_ensures(B::system_info, (&backend,), Ok::<SystemInfo, WinkitError>(s.system)),
        call_ensures(B::list_drives, (&backend,), Ok::<Vec<DriveInfo>, WinkitError>(s.storage)),
        exists|ms: u64| #[trigger]
            call_ensures(
                B::resource_snapshot,
                (&backend, ms),
                Ok::<ResourceSnapshot, WinkitError>(s.resources),
            ) && ms <= 1000 && ms <= limits.operation_timeout_ms && (ms == 1000 || ms
                == limits.operation_timeout_ms),
        exists|x: Vec<ProcessInfo>| #[trigger]
            call_ensures(
                B::list_processes,
                (&backend, limits.max_processes),
                Ok::<Vec<ProcessInfo>, WinkitError>(x),
            ) && s.process_count == x@.len(),
        exists|x: Vec<ServiceInfo>| #[trigger]
            call_ensures(
                B::list_services,
                (&backend, limits.max_services),
                Ok::<Vec<ServiceInfo>, WinkitError>(x),
            ) && s.service_count == x@.len(),
        exists|x: Vec<WindowInfo>| #[trigger]
            call_ensures(
                B::list_windows,
                (&backend, limits.max_windows, false),
                Ok::<Vec<WindowInfo>, WinkitError>(x),
            ) && s.window_count == x@.len(),
        exists|x: Vec<PortInfo>| #[trigger]
            call_ensures(
                B::list_listening_ports,
                (&backend, limits.max_network_results),
                Ok::<Vec<PortInfo>, WinkitError>(x),
            ) && s.listening_port_count == x@.len(),
        exists|x: Vec<NetworkInterfaceInfo>| #[trigger]
            call_ensures(
                B::list_network_interfaces,
                (&backend,),
                Ok::<Vec<NetworkInterfaceInfo>, WinkitError>(x),
            ) && s.interfaces == x@.len(),
{
    let i = choose|i: SnapshotInputs| #[trigger]
        answered(&backend, limits, i) && snapshot_of(s, i, limits);
    assert(call_ensures(
        B::resource_snapshot,
        (&backend, load_interval(limits)),
        Ok::<ResourceSnapshot, WinkitError>(s.resources),
    ));
    assert(call_ensures(
        B::list_processes,
        (&backend, limits.max_processes),
        Ok::<Vec<ProcessInfo>, WinkitError>(i.processes),
    ));
    assert(call_ensures(
        B::list_services,
        (&backend, limits.max_services),
        Ok::<Vec<ServiceInfo>, WinkitError>(i.services),
    ));
    assert(call_ensures(
        B::list_windows,
        (&backend, limits.max_windows, false),
        Ok::<Vec<WindowInfo>, WinkitError>(i.windows),
    ));
    assert(call_ensures(
        B::list_listening_ports,
        (&backend, limits.max_network_results),
        Ok::<Vec<PortInfo>, WinkitError>(i.ports),
    ));
    assert(call_ensures(
        B::list_network_interfaces,
        (&backend,),
        Ok::<Vec<NetworkInterfaceInfo>, WinkitError>(i.interfaces),
    ));
}

/// A snapshot that fails hands on the error of one of its questions.
pub proof fn law_failed_snapshots_hand_on_the_error<B: WindowsBackend>(
    backend: B,
    limits: Limits,
    e: WinkitError,
)
    requires
        call_ensures(
            snapshot_handler::<B>,
            (&backend, &limits),
            Err::<MachineSnapshot, WinkitError>(e),
        ),
    ensures
        call_ensures(B::system_info, (&backend,), Err::<SystemInfo, WinkitError>(e)) || (exists|
            ms: u64,
        | #[trigger]
            call_ensures(
                B::resource_snapshot,
                (&backend, ms),
                Err::<ResourceSnapshot, WinkitError>(e),
            )) || call_ensures(
            B::list_processes,
            (&backend, limits.max_processes),
            Err::<Vec<ProcessInfo>, WinkitError>(e),
        ) || call_ensures(B::list_drives, (&backend,), Err::<Vec<DriveInfo>, WinkitError>(e))
            || call_ensures(
            B::list_services,
            (&backend, limits.max_services),
            Err::<Vec<ServiceInfo>, WinkitError>(e),
        ) || call_ensures(
            B::list_windows,
            (&backend, limits.max_windows, false),
            Err::<Vec<WindowInfo>, WinkitError>(e),
        ) || call_ensures(
            B::list_listening_ports,
            (&backend, limits.max_network_results),
            Err::<Vec<PortInfo>, WinkitError>(e),
        ) || call_ensures(
            B::list_network_interfaces,
            (&backend,),
            Err::<Vec<NetworkInterfaceInfo>, WinkitError>(e),
        ),
{
    let n = choose|n: int|
        0 <= n < 8 && #[trigger] gave_error(&backend, limits, n, e) && forall|k: int|
            0 <= k < n ==> #[trigger] gave_answer(&backend, limits, k);
    assert(gave_error(&backend, limits, n, e));
    if n == 1 {
        assert(call_ensures(
            B::resource_snapshot,
            (&backend, load_interval(limits)),
            Err::<ResourceSnapshot, WinkitError>(e),
        ));
    }
}

} // verus!
