//! A backend that answers from memory.

use crate::errors::WinkitError;
use crate::models::{
    copy_connection_infos, copy_drive_infos, copy_network_interface_infos, copy_port_infos,
    copy_wifi_adapters, first_connection_infos, first_hotfixes, first_installed_software,
    first_of_all, first_port_infos, first_process_infos, first_service_infos, ApplicationGroupInfo,
    ApplicationGroupInfoView, BatteryStatus, ConnectionInfo, ConnectionInfoView, DevEnvironment,
    DiskHealthReport, DiskUsage, DriveInfo, DriveInfoView, EventInfo, EventInfoView, EventLevel,
    EventQuery, EventQueryView, HardwareSnapshot, InstalledSoftware, InstalledSoftwareView,
    NetworkDiagnosis, NetworkInterfaceInfo, NetworkInterfaceInfoView, NetworkSnapshot,
    NetworkSnapshotView, PathAudit, PathAuditView, PortInfo, PortInfoView, PowerStatus, ProcessInfo,
    ProcessInfoView, ProcessOnPort, ProcessOnPortView, ProcessTreeNode, Real, RegistryCounts,
    RegistryCountsView, RegistryDiagnostics, RegistryDiagnosticsView, ResourceSnapshot, ServiceInfo,
    ServiceInfoView, StorageActivity, SystemIdentity, SystemInfo, ThermalSnapshot,
    UnavailableReading, UnavailableReadingView, UpdateStatus, UpdateStatusView, WifiAdapterStatus,
    WifiAdapterStatusView, WifiScan, WindowInfo, WindowInfoView,
};
use crate::namemap::{as_map, has_name, NameMap};
use crate::order::{comes_before, is_stable_order, key_lt, keys_view, stable_order, text_lt};
use crate::providers::clock::{clock_said, is_minutes_before, minutes_before, now_nanos};
use crate::providers::sample::{
    sample_battery_status, sample_battery_status_view, sample_connections, sample_connections_view,
    sample_dev_environment, sample_dev_environment_view, sample_disk_health,
    sample_disk_health_view, sample_disk_usage, sample_disk_usage_view, sample_drives,
    sample_drives_view, sample_events, sample_events_view, sample_hardware_snapshot,
    sample_hardware_snapshot_view, sample_interfaces, sample_interfaces_view,
    sample_network_diagnose, sample_network_diagnose_view, sample_path_audit,
    sample_path_audit_view, sample_ports, sample_ports_view, sample_power_status,
    sample_power_status_view, sample_registry, sample_registry_view, sample_resource_snapshot,
    sample_resource_snapshot_view, sample_services, sample_services_view, sample_storage_activity,
    sample_storage_activity_view, sample_system_info, sample_system_info_view,
    sample_thermal_snapshot, sample_thermal_snapshot_view, sample_update_status,
    sample_update_status_view, sample_wifi, sample_wifi_scan, sample_wifi_scan_view,
    sample_wifi_view, sample_windows, sample_windows_view,
};
use crate::providers::windows::WindowsBackend;
use crate::text::{
    ascii_lower, concat2, contains, drop_suffix, lower, lowercase, occurs, opt_view, same,
    same_ignoring_case, to_lowercase, trim, trimmed, views, without_suffix,
};
use crate::time::{parse_rfc3339_epoch_secs, parsed_seconds};
use vstd::prelude::*;
use vstd::string::*;

verus! {

/// A backend that answers from memory.
#[derive(Debug)]
pub struct MockWindowsBackend {
    pub processes: Vec<ProcessInfo>,
    pub ports: Vec<PortInfo>,
    pub connections: Vec<ConnectionInfo>,
    pub interfaces: Vec<NetworkInterfaceInfo>,
    pub drives: Vec<DriveInfo>,
    pub services: Vec<ServiceInfo>,
    pub events: Vec<EventInfo>,
    pub registry: RegistryDiagnostics,
    pub windows: Vec<WindowInfo>,
    pub wifi: Vec<WifiAdapterStatus>,
    pub path_audit: PathAudit,
    pub update_status: UpdateStatus,
}

/// [`MockWindowsBackend`] taken by its views.
#[verifier::ext_equal]
pub struct MockView {
    pub processes: Seq<ProcessInfoView>,
    pub ports: Seq<PortInfoView>,
    pub connections: Seq<ConnectionInfoView>,
    pub interfaces: Seq<NetworkInterfaceInfoView>,
    pub drives: Seq<DriveInfoView>,
    pub services: Seq<ServiceInfoView>,
    pub events: Seq<EventInfoView>,
    pub registry: RegistryDiagnosticsView,
    pub windows: Seq<WindowInfoView>,
    pub wifi: Seq<WifiAdapterStatusView>,
    pub path_audit: PathAuditView,
    pub update_status: UpdateStatusView,
}

impl View for MockWindowsBackend {
    type V = MockView;

    open spec fn view(&self) -> MockView {
        MockView {
            processes: self.processes@.map_values(|x: ProcessInfo| x@),
            ports: self.ports@.map_values(|x: PortInfo| x@),
            connections: self.connections@.map_values(|x: ConnectionInfo| x@),
            interfaces: self.interfaces@.map_values(|x: NetworkInterfaceInfo| x@),
            drives: self.drives@.map_values(|x: DriveInfo| x@),
            services: self.services@.map_values(|x: ServiceInfo| x@),
            events: self.events@.map_values(|x: EventInfo| x@),
            registry: self.registry@,
            windows: self.windows@.map_values(|x: WindowInfo| x@),
            wifi: self.wifi@.map_values(|x: WifiAdapterStatus| x@),
            path_audit: self.path_audit@,
            update_status: self.update_status@,
        }
    }
}

impl Default for MockWindowsBackend {
    /// A machine of which nothing is known.
    fn default() -> (r: Self)
        ensures
            r@.processes.len() == 0,
            r@.ports.len() == 0,
            r@.connections.len() == 0,
            r@.interfaces.len() == 0,
            r@.drives.len() == 0,
            r@.services.len() == 0,
            r@.events.len() == 0,
            r@.registry.startup_programs.len() == 0,
            r@.registry.installed_software.len() == 0,
            r@.registry.counts == (RegistryCountsView { startup_programs: 0, installed_software: 0 }),
            r@.windows.len() == 0,
            r@.wifi.len() == 0,
            r@.path_audit.process_entries.len() == 0,
            r@.path_audit.total_entries == 0,
            !r@.update_status.reboot_pending,
            r@.update_status.hotfixes.len() == 0,
    {
        MockWindowsBackend {
            processes: Vec::new(),
            ports: Vec::new(),
            connections: Vec::new(),
            interfaces: Vec::new(),
            drives: Vec::new(),
            services: Vec::new(),
            events: Vec::new(),
            registry: RegistryDiagnostics {
                system_identity: SystemIdentity {
                    product_name: None,
                    display_version: None,
                    current_version: None,
                    current_build: None,
                    ubr: None,
                    install_date: None,
                    edition_id: None,
                    build_lab_ex: None,
                },
                startup_programs: Vec::new(),
                installed_software: Vec::new(),
                counts: RegistryCounts { startup_programs: 0, installed_software: 0 },
                warnings: Vec::new(),
            },
            windows: Vec::new(),
            wifi: Vec::new(),
            path_audit: PathAudit {
                process_entries: Vec::new(),
                machine_path_available: false,
                user_path_available: false,
                duplicate_indexes: Vec::new(),
                empty_indexes: Vec::new(),
                missing_indexes: Vec::new(),
                issues: Vec::new(),
                total_entries: 0,
            },
            update_status: UpdateStatus {
                reboot_pending: false,
                reboot_signals: Vec::new(),
                hotfixes: Vec::new(),
                total_hotfixes_reported: 0,
                unavailable: Vec::new(),
            },
        }
    }
}

/// A process of the sample machine.
pub open spec fn sample_process_view(
    pid: u32,
    parent_pid: Option<u32>,
    name: Seq<char>,
    memory: Option<u64>,
) -> ProcessInfoView {
    ProcessInfoView {
        pid,
        name,
        parent_pid,
        executable_path: Some("C:\\Program Files\\"@ + name),
        command_line: if name == "node.exe"@ {
            Some("C:\\work\\app\\node.exe --watch src/index.js"@)
        } else {
            None
        },
        working_set_bytes: memory,
        private_bytes: match memory {
            Some(m) => Some((m / 2) as u64),
            None => None,
        },
        threads: Some(12),
        start_time: Some("2026-08-13T08:00:00.000Z"@),
        cpu_time_ms: Some(123_456),
        cpu_percent: None,
    }
}

fn sample_process(
    pid: u32,
    parent_pid: Option<u32>,
    name: &str,
    memory: Option<u64>,
) -> (r: ProcessInfo)
    ensures
        r@ == sample_process_view(pid, parent_pid, name@, memory),
{
    let command_line = if same(name, "node.exe") {
        Some("C:\\work\\app\\node.exe --watch src/index.js".to_string())
    } else {
        None
    };
    ProcessInfo {
        pid,
        name: name.to_string(),
        parent_pid,
        executable_path: Some(concat2("C:\\Program Files\\", name)),
        command_line,
        working_set_bytes: memory,
        private_bytes: match memory {
            Some(m) => Some(m / 2),
            None => None,
        },
        threads: Some(12),
        start_time: Some("2026-08-13T08:00:00.000Z".to_string()),
        cpu_time_ms: Some(123_456),
        cpu_percent: None,
    }
}

/// The processes of the sample machine.
pub open spec fn sample_processes_view() -> Seq<ProcessInfoView> {
    seq![
        sample_process_view(4, None, "System"@, None),
        sample_process_view(420, Some(4), "chrome.exe"@, Some(1_900_000_000)),
        sample_process_view(521, Some(420), "chrome.exe"@, Some(1_100_000_000)),
        sample_process_view(618, Some(420), "chrome.exe"@, Some(700_000_000)),
        sample_process_view(771, Some(4), "svchost.exe"@, Some(80_000_000)),
        sample_process_view(900, Some(4), "node.exe"@, Some(320_000_000)),
        sample_process_view(1010, None, "explorer.exe"@, Some(250_000_000)),
    ]
}

fn sample_processes() -> (r: Vec<ProcessInfo>)
    ensures
        r@.map_values(|x: ProcessInfo| x@) == sample_processes_view(),
{
    let r: Vec<ProcessInfo> = vec![
        sample_process(4, None, "System", None),
        sample_process(420, Some(4), "chrome.exe", Some(1_900_000_000)),
        sample_process(521, Some(420), "chrome.exe", Some(1_100_000_000)),
        sample_process(618, Some(420), "chrome.exe", Some(700_000_000)),
        sample_process(771, Some(4), "svchost.exe", Some(80_000_000)),
        sample_process(900, Some(4), "node.exe", Some(320_000_000)),
        sample_process(1010, None, "explorer.exe", Some(250_000_000)),
    ];
    assert(r@.map_values(|x: ProcessInfo| x@) =~= sample_processes_view());
    r
}

/// The sample machine, with the time of its one crash.
pub open spec fn sample_machine(crash: Option<Seq<char>>) -> MockView {
    MockView {
        processes: sample_processes_view(),
        ports: sample_ports_view(),
        connections: sample_connections_view(),
        interfaces: sample_interfaces_view(),
        drives: sample_drives_view(),
        services: sample_services_view(),
        events: sample_events_view(crash),
        registry: sample_registry_view(),
        windows: sample_windows_view(),
        wifi: sample_wifi_view(),
        path_audit: sample_path_audit_view(),
        update_status: sample_update_status_view(),
    }
}

impl MockWindowsBackend {
    /// The sample machine at a time, given in milliseconds since 1970. Its
    /// crash lies half an hour back.
    pub fn with_fixtures_at(now_ms: u64) -> (r: Self)
        ensures
            exists|crash: Option<Seq<char>>| #[trigger]
                is_minutes_before(crash, now_ms, 30) && r@ == sample_machine(crash),
    {
        let crash = minutes_before(now_ms, 30);
        let ghost time = opt_view(crash);
        let r = MockWindowsBackend {
            processes: sample_processes(),
            ports: sample_ports(),
            connections: sample_connections(),
            interfaces: sample_interfaces(),
            drives: sample_drives(),
            services: sample_services(),
            events: sample_events(crash),
            registry: sample_registry(),
            windows: sample_windows(),
            wifi: sample_wifi(),
            path_audit: sample_path_audit(),
            update_status: sample_update_status(),
        };
        assert(is_minutes_before(time, now_ms, 30) && r@ == sample_machine(time));
        r
    }

    /// The sample machine, now: its crash lies half an hour before what the
    /// clock said.
    pub fn with_fixtures() -> (r: Self)
        ensures
            exists|nanos: u64, crash: Option<Seq<char>>| #[trigger]
                clock_said(nanos) && #[trigger] is_minutes_before(
                    crash,
                    (nanos / 1_000_000) as u64,
                    30,
                ) && r@ == sample_machine(crash),
    {
        MockWindowsBackend::with_fixtures_at(now_nanos() / 1_000_000)
    }
}

/// The process of an id; the first of several.
pub open spec fn process_of(processes: Seq<ProcessInfoView>, pid: u32) -> Option<ProcessInfoView>
    decreases processes.len(),
{
    if processes.len() == 0 {
        None
    } else if processes[0].pid == pid {
        Some(processes[0])
    } else {
        process_of(processes.drop_first(), pid)
    }
}

fn find_pid(processes: &Vec<ProcessInfo>, pid: u32) -> (r: Option<usize>)
    ensures
        match r {
            Some(i) => i < processes@.len() && process_of(
                processes@.map_values(|x: ProcessInfo| x@),
                pid,
            ) == Some(processes@[i as int]@),
            None => process_of(processes@.map_values(|x: ProcessInfo| x@), pid) is None,
        },
{
    let ghost all = processes@.map_values(|x: ProcessInfo| x@);
    let mut i: usize = 0;
    assert(all.skip(0) =~= all);
    while i < processes.len()
        invariant
            all == processes@.map_values(|x: ProcessInfo| x@),
            i <= processes@.len(),
            process_of(all, pid) == process_of(all.skip(i as int), pid),
        decreases processes@.len() - i,
    {
        assert(all.skip(i as int)[0] == processes@[i as int]@);
        assert(all.skip(i as int).drop_first() =~= all.skip(i + 1));
        if processes[i].pid == pid {
            return Some(i);
        }
        i = i + 1;
    }
    None
}

/// The processes whose names, given in lower case, hold what is wanted.
pub open spec fn named_within(
    processes: Seq<ProcessInfoView>,
    lowered: Seq<Seq<char>>,
    wanted: Seq<char>,
) -> Seq<ProcessInfoView>
    decreases processes.len(),
{
    if processes.len() == 0 {
        Seq::empty()
    } else {
        let before = named_within(processes.drop_last(), lowered.drop_last(), wanted);
        if occurs(lowered.last(), wanted) {
            before.push(processes.last())
        } else {
            before
        }
    }
}

/// The processes whose names hold the needle, in any mix of cases.
pub open spec fn named_like(processes: Seq<ProcessInfoView>, needle: Seq<char>) -> Seq<
    ProcessInfoView,
> {
    named_within(
        processes,
        processes.map_values(|p: ProcessInfoView| lowercase(p.name)),
        lowercase(needle),
    )
}

/// The processes that another one started.
pub open spec fn children_of(processes: Seq<ProcessInfoView>, pid: u32) -> Seq<ProcessInfoView> {
    processes.filter(|p: ProcessInfoView| p.parent_pid == Some(pid))
}

/// Does the node show the process, one step below the root?
pub open spec fn is_child_node(n: ProcessTreeNode, p: ProcessInfoView) -> bool {
    &&& n.pid == p.pid
    &&& n.name@ == p.name
    &&& n.parent_pid == p.parent_pid
    &&& n.working_set_bytes == p.working_set_bytes
    &&& n.threads == p.threads
    &&& n.cpu_time_ms == p.cpu_time_ms
    &&& n.depth == 1
    &&& n.children@.len() == 0
}

/// Is it the tree of a process: its name and what it started?
pub open spec fn is_tree_of(n: ProcessTreeNode, processes: Seq<ProcessInfoView>, pid: u32) -> bool {
    let children = children_of(processes, pid);
    &&& n.pid == pid
    &&& Some(n.name@) == (match process_of(processes, pid) {
        Some(p) => Some(p.name),
        None => None,
    })
    &&& n.parent_pid is None
    &&& n.working_set_bytes is None
    &&& n.threads is None
    &&& n.cpu_time_ms is None
    &&& n.depth == 0
    &&& n.children@.len() == children.len()
    &&& forall|i: int|
        0 <= i < children.len() ==> is_child_node(#[trigger] n.children@[i], children[i])
}

/// The service of a name or a display name, in any mix of cases; the first of
/// several.
pub open spec fn service_of(services: Seq<ServiceInfoView>, name: Seq<char>) -> Option<
    ServiceInfoView,
>
    decreases services.len(),
{
    if services.len() == 0 {
        None
    } else if ascii_lower(services[0].name) == ascii_lower(name) || ascii_lower(
        services[0].display_name,
    ) == ascii_lower(name) {
        Some(services[0])
    } else {
        service_of(services.drop_first(), name)
    }
}

/// Who listens on a port; the first of several.
pub open spec fn owner_of(ports: Seq<PortInfoView>, port: u16) -> Option<ProcessOnPortView>
    decreases ports.len(),
{
    if ports.len() == 0 {
        None
    } else if ports[0].port == port {
        Some(
            ProcessOnPortView {
                port: ports[0].port,
                protocol: ports[0].protocol,
                pid: ports[0].pid,
                process_name: ports[0].process_name,
                state: ports[0].state,
            },
        )
    } else {
        owner_of(ports.drop_first(), port)
    }
}

/// The title of the window in front; the first of several.
pub open spec fn front_title(windows: Seq<WindowInfoView>) -> Option<Seq<char>>
    decreases windows.len(),
{
    if windows.len() == 0 {
        None
    } else if windows[0].foreground {
        Some(windows[0].title)
    } else {
        front_title(windows.drop_first())
    }
}

/// Is the event recent enough: no further back than so many minutes before
/// now? What has no time that can be read is taken to be.
pub open spec fn is_recent(e: EventInfoView, since_minutes: Option<u64>, now_ns: u64) -> bool {
    match (since_minutes, e.time_created) {
        (Some(minutes), Some(text)) => match parsed_seconds(text) {
            Some(seconds) => seconds * 1_000_000_000 >= now_ns - minutes * 60_000_000_000,
            None => true,
        },
        _ => true,
    }
}

/// Is the event one that the query asks for?
pub open spec fn is_asked_for(e: EventInfoView, q: EventQueryView, now_ns: u64) -> bool {
    &&& e.channel == Some(q.log)
    &&& (q.min_level matches Some(l) ==> e.level.number_view() <= l)
    &&& (q.provider matches Some(p) ==> e.provider == Some(p))
    &&& (q.event_id matches Some(id) ==> e.event_id == Some(id))
    &&& is_recent(e, q.since_minutes, now_ns)
}

/// The events that a query asks for, as many as it takes.
pub open spec fn events_for(events: Seq<EventInfoView>, q: EventQueryView, now_ns: u64) -> Seq<
    EventInfoView,
> {
    first_of_all(
        events.filter(|e: EventInfoView| is_asked_for(e, q, now_ns)),
        q.max_results as int,
    )
}

fn is_same_text(a: &Option<String>, b: &str) -> (r: bool)
    ensures
        r == (opt_view(*a) == Some(b@)),
{
    match a {
        Some(s) => same(s, b),
        None => false,
    }
}

fn recent(e: &EventInfo, since_minutes: Option<u64>, now_ns: u64) -> (r: bool)
    ensures
        r == is_recent(e@, since_minutes, now_ns),
{
    match (since_minutes, &e.time_created) {
        (Some(minutes), Some(text)) => match parse_rfc3339_epoch_secs(text) {
            Some(seconds) => {
                let then: u128 = seconds as u128 * 1_000_000_000;
                let back: u128 = minutes as u128 * 60_000_000_000;
                then + back >= now_ns as u128
            },
            None => true,
        },
        _ => true,
    }
}

fn asked_for(e: &EventInfo, q: &EventQuery, now_ns: u64) -> (r: bool)
    ensures
        r == is_asked_for(e@, q@, now_ns),
{
    let level = match q.min_level {
        Some(l) => e.level.number() <= l,
        None => true,
    };
    let provider = match &q.provider {
        Some(p) => is_same_text(&e.provider, p),
        None => true,
    };
    let event_id = match q.event_id {
        Some(id) => match e.event_id {
            Some(other) => other == id,
            None => false,
        },
        None => true,
    };
    is_same_text(&e.channel, &q.log) && level && provider && event_id && recent(
        e,
        q.since_minutes,
        now_ns,
    )
}

/// The events that a query asks for at a time, given in nanoseconds since 1970.
pub fn matching_events(events: &Vec<EventInfo>, query: &EventQuery, now_ns: u64) -> (r: Vec<
    EventInfo,
>)
    ensures
        r@.map_values(|x: EventInfo| x@) == events_for(
            events@.map_values(|x: EventInfo| x@),
            query@,
            now_ns,
        ),
{
    let ghost all = events@.map_values(|x: EventInfo| x@);
    let ghost keep = |e: EventInfoView| is_asked_for(e, query@, now_ns);
    let mut out: Vec<EventInfo> = Vec::new();
    let mut i: usize = 0;
    proof {
        reveal(Seq::filter);
        assert(all.take(0).filter(keep) =~= Seq::<EventInfoView>::empty());
        assert(out@.map_values(|x: EventInfo| x@) =~= first_of_all(
            all.take(0).filter(keep),
            query.max_results as int,
        ));
    }
    while i < events.len()
        invariant
            all == events@.map_values(|x: EventInfo| x@),
            keep == (|e: EventInfoView| is_asked_for(e, query@, now_ns)),
            i <= events@.len(),
            out@.map_values(|x: EventInfo| x@) == first_of_all(
                all.take(i as int).filter(keep),
                query.max_results as int,
            ),
        decreases events@.len() - i,
    {
        let e = &events[i];
        let ghost before = out@;
        let ghost found = all.take(i as int).filter(keep);
        proof {
            reveal(Seq::filter);
            assert(all.take(i + 1).drop_last() =~= all.take(i as int));
            assert(all.take(i + 1).last() == e@);
            assert(before.map_values(|x: EventInfo| x@).len() == before.len());
        }
        if asked_for(e, query, now_ns) && out.len() < query.max_results {
            out.push(e.clone());
            assert(out@.map_values(|x: EventInfo| x@) =~= before.map_values(|x: EventInfo| x@).push(
                e@,
            ));
            assert(first_of_all(found.push(e@), query.max_results as int) =~= first_of_all(
                found,
                query.max_results as int,
            ).push(e@));
        } else {
            proof {
                if keep(e@) {
                    assert(first_of_all(found.push(e@), query.max_results as int) =~= first_of_all(
                        found,
                        query.max_results as int,
                    ));
                }
            }
        }
        i = i + 1;
    }
    assert(all.take(all.len() as int) =~= all);
    out
}

/// The name of an application: its program's name in lower case, without the
/// ending of a program.
pub open spec fn stem_of(name: Seq<char>) -> Seq<char> {
    without_suffix(ascii_lower(trimmed(name)), ".exe"@)
}

/// The name of an application as people know it.
pub open spec fn shown_name(stem: Seq<char>) -> Seq<char> {
    if stem == "chrome"@ {
        "Google Chrome"@
    } else {
        stem
    }
}

fn display_name(stem: &str) -> (r: String)
    ensures
        r@ == shown_name(stem@),
{
    if same(stem, "chrome") {
        "Google Chrome".to_string()
    } else {
        stem.to_string()
    }
}

/// The processes of an application.
pub open spec fn processes_of(processes: Seq<ProcessInfoView>, stem: Seq<char>) -> Seq<
    ProcessInfoView,
> {
    processes.filter(|p: ProcessInfoView| stem_of(p.name) == stem)
}

/// The memory that processes take.
pub open spec fn memory_of(processes: Seq<ProcessInfoView>) -> int
    decreases processes.len(),
{
    if processes.len() == 0 {
        0
    } else {
        memory_of(processes.drop_last()) + (match processes.last().working_set_bytes {
            Some(n) => n as int,
            None => 0,
        })
    }
}

/// A number as one of 64 bits; what is larger is the largest.
pub open spec fn capped(n: int) -> u64 {
    if n > u64::MAX {
        u64::MAX
    } else {
        n as u64
    }
}

/// An application and what it takes.
pub open spec fn group_of(processes: Seq<ProcessInfoView>, stem: Seq<char>) -> ApplicationGroupInfoView {
    let own = processes_of(processes, stem);
    ApplicationGroupInfoView {
        name: stem,
        display_name: shown_name(stem),
        process_count: own.len() as usize,
        tree_process_count: own.len() as usize,
        total_working_set_bytes: capped(memory_of(own)),
        own_working_set_bytes: capped(memory_of(own)),
        cpu_percent: if stem == "chrome"@ {
            Some(Real { bits: 0x4045_4000_0000_0000 })
        } else {
            None
        },
        cpu_percent_basis: "system_capacity_all_cores"@,
        cpu_percent_sample_ms: 300,
        status: "normal"@,
    }
}

/// Are these the names of all applications, in order?
pub open spec fn are_stems(stems: Seq<Seq<char>>, processes: Seq<ProcessInfoView>) -> bool {
    &&& forall|i: int, j: int|
        0 <= i < j < stems.len() ==> text_lt(#[trigger] stems[i], #[trigger] stems[j])
    &&& forall|i: int|
        0 <= i < processes.len() ==> stems.contains(stem_of((#[trigger] processes[i]).name))
    &&& forall|k: int| 0 <= k < stems.len() ==> has_stem(processes, #[trigger] stems[k])
}

/// Is there a process of the application?
pub open spec fn has_stem(processes: Seq<ProcessInfoView>, stem: Seq<char>) -> bool {
    exists|i: int| 0 <= i < processes.len() && stem_of((#[trigger] processes[i]).name) == stem
}

/// The keys by which what takes the most memory comes first.
pub open spec fn group_keys(groups: Seq<ApplicationGroupInfoView>) -> Seq<Seq<u64>> {
    groups.map_values(
        |g: ApplicationGroupInfoView| seq![(u64::MAX - g.total_working_set_bytes) as u64],
    )
}

/// The applications of these names.
pub open spec fn groups_of(processes: Seq<ProcessInfoView>, stems: Seq<Seq<char>>) -> Seq<
    ApplicationGroupInfoView,
> {
    stems.map_values(|s: Seq<char>| group_of(processes, s))
}

/// Are these the applications, what takes the most memory first and else by
/// name, at most `limit`?
pub open spec fn are_groups(
    r: Seq<ApplicationGroupInfoView>,
    processes: Seq<ProcessInfoView>,
    limit: usize,
) -> bool {
    exists|stems: Seq<Seq<char>>, order: Seq<usize>| #[trigger]
        are_stems(stems, processes) && #[trigger] is_stable_order(
            group_keys(groups_of(processes, stems)),
            order,
        ) && groups_follow(r, groups_of(processes, stems), order, limit)
}

/// Are these the first groups in this order?
pub open spec fn groups_follow(
    r: Seq<ApplicationGroupInfoView>,
    groups: Seq<ApplicationGroupInfoView>,
    order: Seq<usize>,
    limit: usize,
) -> bool {
    &&& r.len() == (if groups.len() < limit {
        groups.len() as int
    } else {
        limit as int
    })
    &&& forall|i: int| 0 <= i < r.len() ==> #[trigger] r[i] == groups[order[i] as int]
}

fn stem(name: &str) -> (r: String)
    ensures
        r@ == stem_of(name@),
{
    drop_suffix(&lower(&trim(name)), ".exe")
}

proof fn lemma_memory_grows(processes: Seq<ProcessInfoView>)
    ensures
        memory_of(processes) >= 0,
    decreases processes.len(),
{
    if processes.len() > 0 {
        lemma_memory_grows(processes.drop_last());
    }
}

fn group_named(processes: &Vec<ProcessInfo>, name: &str) -> (r: ApplicationGroupInfo)
    ensures
        r@ == group_of(processes@.map_values(|x: ProcessInfo| x@), name@),
{
    let ghost all = processes@.map_values(|x: ProcessInfo| x@);
    let ghost keep = |p: ProcessInfoView| stem_of(p.name) == name@;
    let mut count: usize = 0;
    let mut memory: u64 = 0;
    let mut i: usize = 0;
    proof {
        reveal(Seq::filter);
        assert(all.take(0).filter(keep) =~= Seq::<ProcessInfoView>::empty());
    }
    while i < processes.len()
        invariant
            all == processes@.map_values(|x: ProcessInfo| x@),
            keep == (|p: ProcessInfoView| stem_of(p.name) == name@),
            i <= processes@.len(),
            count <= i,
            count == all.take(i as int).filter(keep).len(),
            memory == capped(memory_of(all.take(i as int).filter(keep))),
        decreases processes@.len() - i,
    {
        let p = &processes[i];
        let ghost found = all.take(i as int).filter(keep);
        proof {
            reveal(Seq::filter);
            assert(all.take(i + 1).drop_last() =~= all.take(i as int));
            assert(all.take(i + 1).last() == p@);
            lemma_memory_grows(found);
        }
        if same(&stem(&p.name), name) {
            count = count + 1;
            memory = memory.saturating_add(p.working_set_bytes.unwrap_or(0));
            proof {
                assert(found.push(p@).drop_last() =~= found);
            }
        }
        i = i + 1;
    }
    assert(all.take(all.len() as int) =~= all);
    let cpu_percent = if same(name, "chrome") {
        Some(Real { bits: 0x4045_4000_0000_0000 })
    } else {
        None
    };
    ApplicationGroupInfo {
        name: name.to_string(),
        display_name: display_name(name),
        process_count: count,
        tree_process_count: count,
        total_working_set_bytes: memory,
        own_working_set_bytes: memory,
        cpu_percent,
        cpu_percent_basis: "system_capacity_all_cores".to_string(),
        cpu_percent_sample_ms: 300,
        status: "normal".to_string(),
    }
}

fn stems_in(processes: &Vec<ProcessInfo>) -> (r: Vec<String>)
    ensures
        are_stems(views(r@), processes@.map_values(|x: ProcessInfo| x@)),
{
    let ghost all = processes@.map_values(|x: ProcessInfo| x@);
    let mut found: NameMap<bool> = NameMap::new();
    let mut i: usize = 0;
    while i < processes.len()
        invariant
            all == processes@.map_values(|x: ProcessInfo| x@),
            i <= processes@.len(),
            found.wf(),
            forall|k: int|
                0 <= k < i ==> as_map(found.entries()).dom().contains(
                    stem_of((#[trigger] all[k]).name),
                ),
            forall|s: Seq<char>| #[trigger]
                as_map(found.entries()).dom().contains(s) ==> has_stem(all, s),
        decreases processes@.len() - i,
    {
        let name = stem(&processes[i].name);
        assert(all[i as int] == processes@[i as int]@);
        assert(has_stem(all, name@));
        found.insert(&name, true);
        i = i + 1;
    }
    let mut out: Vec<String> = Vec::new();
    let n: usize = found.len();
    let ghost entries = found.entries();
    let mut j: usize = 0;
    while j < n
        invariant
            n == found.entries().len(),
            entries == found.entries(),
            j <= n,
            out@.len() == j,
            forall|k: int| 0 <= k < j ==> (#[trigger] out@[k])@ == entries[k].0,
        decreases n - j,
    {
        out.push(found.name_at(j).clone());
        j = j + 1;
    }
    proof {
        let stems = views(out@);
        assert forall|a: int, b: int| 0 <= a < b < stems.len() implies text_lt(
            #[trigger] stems[a],
            #[trigger] stems[b],
        ) by {
            assert(text_lt(entries[a].0, entries[b].0));
        }
        assert forall|k: int| 0 <= k < all.len() implies stems.contains(
            stem_of((#[trigger] all[k]).name),
        ) by {
            let s = stem_of(all[k].name);
            assert(has_name(entries, s));
            let e = choose|e: int| 0 <= e < entries.len() && (#[trigger] entries[e]).0 == s;
            assert(stems[e] == s);
        }
        assert forall|k: int| 0 <= k < stems.len() implies has_stem(all, #[trigger] stems[k]) by {
            assert(entries[k].0 == stems[k]);
            assert(has_name(entries, stems[k]));
            assert(as_map(entries).dom().contains(stems[k]));
        }
    }
    out
}

/// The applications of the machine.
pub fn group_processes(processes: &Vec<ProcessInfo>, limit: usize) -> (r: Vec<
    ApplicationGroupInfo,
>)
    ensures
        are_groups(
            r@.map_values(|x: ApplicationGroupInfo| x@),
            processes@.map_values(|x: ProcessInfo| x@),
            limit,
        ),
{
    let ghost all = processes@.map_values(|x: ProcessInfo| x@);
    let stems = stems_in(processes);
    let mut groups: Vec<ApplicationGroupInfo> = Vec::new();
    let mut keys: Vec<Vec<u64>> = Vec::new();
    let mut i: usize = 0;
    while i < stems.len()
        invariant
            all == processes@.map_values(|x: ProcessInfo| x@),
            i <= stems@.len(),
            groups@.len() == i,
            keys@.len() == i,
            forall|k: int| 0 <= k < i ==> (#[trigger] groups@[k])@ == group_of(all, stems@[k]@),
            forall|k: int|
                0 <= k < i ==> (#[trigger] keys@[k])@ == seq![
                    (u64::MAX - group_of(all, stems@[k]@).total_working_set_bytes) as u64,
                ],
        decreases stems@.len() - i,
    {
        let g = group_named(processes, &stems[i]);
        let first: u64 = u64::MAX - g.total_working_set_bytes;
        let key: Vec<u64> = vec![first];
        assert(key@ =~= seq![first]);
        assert(g@.total_working_set_bytes == g.total_working_set_bytes);
        keys.push(key);
        groups.push(g);
        i = i + 1;
    }
    let ghost shown = groups_of(all, views(stems@));
    assert(keys_view(keys@) =~= group_keys(shown));
    let order = stable_order(&keys);
    let total: usize = order.len();
    let kept: usize = if total < limit {
        total
    } else {
        limit
    };
    let mut out: Vec<ApplicationGroupInfo> = Vec::new();
    let mut j: usize = 0;
    while j < kept
        invariant
            all == processes@.map_values(|x: ProcessInfo| x@),
            shown == groups_of(all, views(stems@)),
            is_stable_order(group_keys(shown), order@),
            order@.len() == groups@.len(),
            stems@.len() == groups@.len(),
            forall|k: int|
                0 <= k < groups@.len() ==> (#[trigger] groups@[k])@ == group_of(all, stems@[k]@),
            kept <= order@.len(),
            j <= kept,
            out@.len() == j,
            forall|k: int| 0 <= k < j ==> (#[trigger] out@[k])@ == shown[order@[k] as int],
        decreases kept - j,
    {
        assert(order@[j as int] < group_keys(shown).len());
        out.push(groups[order[j]].clone());
        j = j + 1;
    }
    proof {
        let r = out@.map_values(|x: ApplicationGroupInfo| x@);
        assert(groups_follow(r, shown, order@, limit));
        assert(are_stems(views(stems@), all));
    }
    out
}

/// The first processes whose names, given in lower case, hold what is wanted.
pub fn processes_named(
    processes: &Vec<ProcessInfo>,
    lowered: &Vec<String>,
    wanted: &str,
    limit: usize,
) -> (r: Vec<ProcessInfo>)
    requires
        lowered@.len() == processes@.len(),
    ensures
        r@.map_values(|x: ProcessInfo| x@) == first_of_all(
            named_within(processes@.map_values(|x: ProcessInfo| x@), views(lowered@), wanted@),
            limit as int,
        ),
{
    let ghost all = processes@.map_values(|x: ProcessInfo| x@);
    let ghost names = views(lowered@);
    let mut out: Vec<ProcessInfo> = Vec::new();
    let mut i: usize = 0;
    assert(out@.map_values(|x: ProcessInfo| x@) =~= first_of_all(
        named_within(all.take(0), names.take(0), wanted@),
        limit as int,
    ));
    while i < processes.len()
        invariant
            all == processes@.map_values(|x: ProcessInfo| x@),
            names == views(lowered@),
            lowered@.len() == processes@.len(),
            i <= processes@.len(),
            out@.map_values(|x: ProcessInfo| x@) == first_of_all(
                named_within(all.take(i as int), names.take(i as int), wanted@),
                limit as int,
            ),
        decreases processes@.len() - i,
    {
        let p = &processes[i];
        let ghost before = out@;
        let ghost found = named_within(all.take(i as int), names.take(i as int), wanted@);
        proof {
            assert(all.take(i + 1).drop_last() =~= all.take(i as int));
            assert(names.take(i + 1).drop_last() =~= names.take(i as int));
            assert(all.take(i + 1).last() == p@);
            assert(names.take(i + 1).last() == lowered@[i as int]@);
            assert(before.map_values(|x: ProcessInfo| x@).len() == before.len());
        }
        let named = contains(&lowered[i], wanted);
        if named && out.len() < limit {
            out.push(p.clone());
            assert(out@.map_values(|x: ProcessInfo| x@) =~= before.map_values(
                |x: ProcessInfo| x@,
            ).push(p@));
            assert(first_of_all(found.push(p@), limit as int) =~= first_of_all(
                found,
                limit as int,
            ).push(p@));
        } else if named {
            assert(first_of_all(found.push(p@), limit as int) =~= first_of_all(
                found,
                limit as int,
            ));
        }
        i = i + 1;
    }
    assert(all.take(all.len() as int) =~= all);
    assert(names.take(names.len() as int) =~= names);
    out
}

fn named_processes(processes: &Vec<ProcessInfo>, needle: &str, limit: usize) -> (r: Vec<
    ProcessInfo,
>)
    ensures
        r@.map_values(|x: ProcessInfo| x@) == first_of_all(
            named_like(processes@.map_values(|x: ProcessInfo| x@), needle@),
            limit as int,
        ),
{
    let mut lowered: Vec<String> = Vec::new();
    let mut i: usize = 0;
    while i < processes.len()
        invariant
            i <= processes@.len(),
            lowered@.len() == i,
            forall|k: int|
                0 <= k < i ==> (#[trigger] lowered@[k])@ == lowercase(processes@[k].name@),
        decreases processes@.len() - i,
    {
        lowered.push(to_lowercase(&processes[i].name));
        i = i + 1;
    }
    assert(views(lowered@) =~= processes@.map_values(|x: ProcessInfo| x@).map_values(
        |p: ProcessInfoView| lowercase(p.name),
    ));
    processes_named(processes, &lowered, &to_lowercase(needle), limit)
}

/// The windows that are shown, or all.
pub open spec fn windows_shown(windows: Seq<WindowInfoView>, visible_only: bool) -> Seq<
    WindowInfoView,
> {
    windows.filter(|w: WindowInfoView| !visible_only || w.visible)
}

fn shown_windows(windows: &Vec<WindowInfo>, limit: usize, visible_only: bool) -> (r: Vec<
    WindowInfo,
>)
    ensures
        r@.map_values(|x: WindowInfo| x@) == first_of_all(
            windows_shown(windows@.map_values(|x: WindowInfo| x@), visible_only),
            limit as int,
        ),
{
    let ghost all = windows@.map_values(|x: WindowInfo| x@);
    let ghost keep = |w: WindowInfoView| !visible_only || w.visible;
    let mut out: Vec<WindowInfo> = Vec::new();
    let mut i: usize = 0;
    proof {
        reveal(Seq::filter);
        assert(all.take(0).filter(keep) =~= Seq::<WindowInfoView>::empty());
        assert(out@.map_values(|x: WindowInfo| x@) =~= first_of_all(
            all.take(0).filter(keep),
            limit as int,
        ));
    }
    while i < windows.len()
        invariant
            all == windows@.map_values(|x: WindowInfo| x@),
            keep == (|w: WindowInfoView| !visible_only || w.visible),
            i <= windows@.len(),
            out@.map_values(|x: WindowInfo| x@) == first_of_all(
                all.take(i as int).filter(keep),
                limit as int,
            ),
        decreases windows@.len() - i,
    {
        let w = &windows[i];
        let ghost before = out@;
        let ghost found = all.take(i as int).filter(keep);
        proof {
            reveal(Seq::filter);
            assert(all.take(i + 1).drop_last() =~= all.take(i as int));
            assert(all.take(i + 1).last() == w@);
            assert(before.map_values(|x: WindowInfo| x@).len() == before.len());
        }
        if (!visible_only || w.visible) && out.len() < limit {
            out.push(w.clone());
            assert(out@.map_values(|x: WindowInfo| x@) =~= before.map_values(|x: WindowInfo| x@).push(
                w@,
            ));
            assert(first_of_all(found.push(w@), limit as int) =~= first_of_all(
                found,
                limit as int,
            ).push(w@));
        } else {
            proof {
                if keep(w@) {
                    assert(first_of_all(found.push(w@), limit as int) =~= first_of_all(
                        found,
                        limit as int,
                    ));
                }
            }
        }
        i = i + 1;
    }
    assert(all.take(all.len() as int) =~= all);
    out
}

fn child_nodes(processes: &Vec<ProcessInfo>, pid: u32) -> (r: Vec<ProcessTreeNode>)
    ensures
        ({
            let children = children_of(processes@.map_values(|x: ProcessInfo| x@), pid);
            r@.len() == children.len() && forall|i: int|
                0 <= i < children.len() ==> is_child_node(#[trigger] r@[i], children[i])
        }),
{
    let ghost all = processes@.map_values(|x: ProcessInfo| x@);
    let ghost keep = |p: ProcessInfoView| p.parent_pid == Some(pid);
    let mut out: Vec<ProcessTreeNode> = Vec::new();
    let mut i: usize = 0;
    proof {
        reveal(Seq::filter);
        assert(all.take(0).filter(keep) =~= Seq::<ProcessInfoView>::empty());
    }
    while i < processes.len()
        invariant
            all == processes@.map_values(|x: ProcessInfo| x@),
            keep == (|p: ProcessInfoView| p.parent_pid == Some(pid)),
            i <= processes@.len(),
            out@.len() == all.take(i as int).filter(keep).len(),
            forall|k: int|
                0 <= k < out@.len() ==> is_child_node(
                    #[trigger] out@[k],
                    all.take(i as int).filter(keep)[k],
                ),
        decreases processes@.len() - i,
    {
        let p = &processes[i];
        proof {
            reveal(Seq::filter);
            assert(all.take(i + 1).drop_last() =~= all.take(i as int));
            assert(all.take(i + 1).last() == p@);
        }
        let is_child = match p.parent_pid {
            Some(parent) => parent == pid,
            None => false,
        };
        if is_child {
            out.push(
                ProcessTreeNode {
                    pid: p.pid,
                    name: p.name.clone(),
                    parent_pid: p.parent_pid,
                    working_set_bytes: p.working_set_bytes,
                    threads: p.threads,
                    cpu_time_ms: p.cpu_time_ms,
                    depth: 1,
                    children: Vec::new(),
                },
            );
        }
        i = i + 1;
    }
    assert(all.take(all.len() as int) =~= all);
    out
}

/// The registry as it is asked for: with or without the installed software, and
/// at most so much of it.
pub open spec fn registry_for(
    r: RegistryDiagnosticsView,
    include_software: bool,
    max_software: usize,
) -> RegistryDiagnosticsView {
    let software = if include_software {
        first_of_all(r.installed_software, max_software as int)
    } else {
        Seq::empty()
    };
    RegistryDiagnosticsView {
        installed_software: software,
        counts: RegistryCountsView { installed_software: software.len() as usize, ..r.counts },
        ..r
    }
}

/// The network, as it is taken together.
pub open spec fn network_view(m: MockView) -> NetworkSnapshotView {
    NetworkSnapshotView {
        status: "ok"@,
        timestamp: "2026-08-13T08:00:07.000Z"@,
        duration_ms: 30,
        interfaces: m.interfaces,
        wifi: m.wifi,
        connections: m.connections,
        listening_ports: m.ports,
        completeness: "full"@,
        unavailable: Seq::empty(),
    }
}

impl WindowsBackend for MockWindowsBackend {
    fn system_info(&self) -> (r: Result<SystemInfo, WinkitError>)
        ensures
            r matches Ok(x) && x@ == sample_system_info_view(),
    {
        Ok(sample_system_info())
    }

    fn resource_snapshot(&self, _sample_interval_ms: u64) -> (r: Result<
        ResourceSnapshot,
        WinkitError,
    >)
        ensures
            r matches Ok(x) && x@ == sample_resource_snapshot_view(),
    {
        Ok(sample_resource_snapshot())
    }

    fn list_processes(&self, limit: usize) -> (r: Result<Vec<ProcessInfo>, WinkitError>)
        ensures
            r matches Ok(v) && v@.map_values(|x: ProcessInfo| x@) == first_of_all(
                self@.processes,
                limit as int,
            ),
    {
        Ok(first_process_infos(&self.processes, limit))
    }

    fn get_process(&self, pid: u32) -> (r: Result<Option<ProcessInfo>, WinkitError>)
        ensures
            match r {
                Ok(Some(p)) => process_of(self@.processes, pid) == Some(p@),
                Ok(None) => process_of(self@.processes, pid) is None,
                Err(_) => false,
            },
    {
        match find_pid(&self.processes, pid) {
            Some(i) => Ok(Some(self.processes[i].clone())),
            None => Ok(None),
        }
    }

    fn get_process_tree(&self, pid: u32, _max_depth: u32, _max_nodes: usize) -> (r: Result<
        Option<ProcessTreeNode>,
        WinkitError,
    >)
        ensures
            match r {
                Ok(Some(n)) => is_tree_of(n, self@.processes, pid),
                Ok(None) => process_of(self@.processes, pid) is None,
                Err(_) => false,
            },
    {
        match find_pid(&self.processes, pid) {
            None => Ok(None),
            Some(i) => Ok(
                Some(
                    ProcessTreeNode {
                        pid,
                        name: self.processes[i].name.clone(),
                        parent_pid: None,
                        working_set_bytes: None,
                        threads: None,
                        cpu_time_ms: None,
                        depth: 0,
                        children: child_nodes(&self.processes, pid),
                    },
                ),
            ),
        }
    }

    fn find_process(&self, needle: &str, limit: usize) -> (r: Result<
        Vec<ProcessInfo>,
        WinkitError,
    >)
        ensures
            r matches Ok(v) && v@.map_values(|x: ProcessInfo| x@) == first_of_all(
                named_like(self@.processes, needle@),
                limit as int,
            ),
    {
        Ok(named_processes(&self.processes, needle, limit))
    }

    fn list_listening_ports(&self, limit: usize) -> (r: Result<Vec<PortInfo>, WinkitError>)
        ensures
            r matches Ok(v) && v@.map_values(|x: PortInfo| x@) == first_of_all(
                self@.ports,
                limit as int,
            ),
    {
        Ok(first_port_infos(&self.ports, limit))
    }

    fn find_process_on_port(&self, port: u16) -> (r: Result<Option<ProcessOnPort>, WinkitError>)
        ensures
            match r {
                Ok(Some(p)) => owner_of(self@.ports, port) == Some(p@),
                Ok(None) => owner_of(self@.ports, port) is None,
                Err(_) => false,
            },
    {
        let ghost all = self@.ports;
        let mut i: usize = 0;
        assert(all.skip(0) =~= all);
        while i < self.ports.len()
            invariant
                all == self@.ports,
                i <= self.ports@.len(),
                owner_of(all, port) == owner_of(all.skip(i as int), port),
            decreases self.ports@.len() - i,
        {
            let p = &self.ports[i];
            assert(all.skip(i as int)[0] == p@);
            assert(all.skip(i as int).drop_first() =~= all.skip(i + 1));
            if p.port == port {
                return Ok(
                    Some(
                        ProcessOnPort {
                            port: p.port,
                            protocol: p.protocol.clone(),
                            pid: p.pid,
                            process_name: p.process_name.clone(),
                            state: p.state.clone(),
                        },
                    ),
                );
            }
            i = i + 1;
        }
        Ok(None)
    }

    fn list_network_interfaces(&self) -> (r: Result<Vec<NetworkInterfaceInfo>, WinkitError>)
        ensures
            r matches Ok(v) && v@.map_values(|x: NetworkInterfaceInfo| x@) == self@.interfaces,
    {
        Ok(copy_network_interface_infos(&self.interfaces))
    }

    fn list_connections(&self, limit: usize) -> (r: Result<Vec<ConnectionInfo>, WinkitError>)
        ensures
            r matches Ok(v) && v@.map_values(|x: ConnectionInfo| x@) == first_of_all(
                self@.connections,
                limit as int,
            ),
    {
        Ok(first_connection_infos(&self.connections, limit))
    }

    fn list_drives(&self) -> (r: Result<Vec<DriveInfo>, WinkitError>)
        ensures
            r matches Ok(v) && v@.map_values(|x: DriveInfo| x@) == self@.drives,
    {
        Ok(copy_drive_infos(&self.drives))
    }

    fn disk_usage(&self, path: &str) -> (r: Result<DiskUsage, WinkitError>)
        ensures
            r matches Ok(x) && x@ == sample_disk_usage_view(path@),
    {
        Ok(sample_disk_usage(path))
    }

    fn list_services(&self, limit: usize) -> (r: Result<Vec<ServiceInfo>, WinkitError>)
        ensures
            r matches Ok(v) && v@.map_values(|x: ServiceInfo| x@) == first_of_all(
                self@.services,
                limit as int,
            ),
    {
        Ok(first_service_infos(&self.services, limit))
    }

    fn get_service(&self, name: &str) -> (r: Result<Option<ServiceInfo>, WinkitError>)
        ensures
            match r {
                Ok(Some(s)) => service_of(self@.services, name@) == Some(s@),
                Ok(None) => service_of(self@.services, name@) is None,
                Err(_) => false,
            },
    {
        let ghost all = self@.services;
        let mut i: usize = 0;
        assert(all.skip(0) =~= all);
        while i < self.services.len()
            invariant
                all == self@.services,
                i <= self.services@.len(),
                service_of(all, name@) == service_of(all.skip(i as int), name@),
            decreases self.services@.len() - i,
        {
            let s = &self.services[i];
            assert(all.skip(i as int)[0] == s@);
            assert(all.skip(i as int).drop_first() =~= all.skip(i + 1));
            if same_ignoring_case(&s.name, name) || same_ignoring_case(&s.display_name, name) {
                return Ok(Some(s.clone()));
            }
            i = i + 1;
        }
        Ok(None)
    }

    fn get_recent_events(&self, query: &EventQuery) -> (r: Result<Vec<EventInfo>, WinkitError>)
        ensures
            r matches Ok(v) && exists|now_ns: u64| #[trigger]
                clock_said(now_ns) && v@.map_values(|x: EventInfo| x@) == events_for(
                    self@.events,
                    query@,
                    now_ns,
                ),
    {
        let now_ns = now_nanos();
        let found = matching_events(&self.events, query, now_ns);
        assert(found@.map_values(|x: EventInfo| x@) == events_for(self@.events, query@, now_ns));
        Ok(found)
    }

    fn list_windows(&self, limit: usize, visible_only: bool) -> (r: Result<
        Vec<WindowInfo>,
        WinkitError,
    >)
        ensures
            r matches Ok(v) && v@.map_values(|x: WindowInfo| x@) == first_of_all(
                windows_shown(self@.windows, visible_only),
                limit as int,
            ),
    {
        Ok(shown_windows(&self.windows, limit, visible_only))
    }

    fn foreground_window_title(&self) -> (r: Result<Option<String>, WinkitError>)
        ensures
            r matches Ok(t) && opt_view(t) == front_title(self@.windows),
    {
        let ghost all = self@.windows;
        let mut i: usize = 0;
        assert(all.skip(0) =~= all);
        while i < self.windows.len()
            invariant
                all == self@.windows,
                i <= self.windows@.len(),
                front_title(all) == front_title(all.skip(i as int)),
            decreases self.windows@.len() - i,
        {
            let w = &self.windows[i];
            assert(all.skip(i as int)[0] == w@);
            assert(all.skip(i as int).drop_first() =~= all.skip(i + 1));
            if w.foreground {
                return Ok(Some(w.title.clone()));
            }
            i = i + 1;
        }
        Ok(None)
    }

    fn application_groups(&self, limit: usize) -> (r: Result<
        Vec<ApplicationGroupInfo>,
        WinkitError,
    >)
        ensures
            r matches Ok(v) && are_groups(
                v@.map_values(|x: ApplicationGroupInfo| x@),
                self@.processes,
                limit,
            ),
    {
        Ok(group_processes(&self.processes, limit))
    }

    fn dev_environment(&self) -> (r: Result<DevEnvironment, WinkitError>)
        ensures
            r matches Ok(x) && x@ == sample_dev_environment_view(),
    {
        Ok(sample_dev_environment())
    }

    fn hardware_snapshot(&self) -> (r: Result<HardwareSnapshot, WinkitError>)
        ensures
            r matches Ok(x) && x@ == sample_hardware_snapshot_view(),
    {
        Ok(sample_hardware_snapshot())
    }

    fn thermal_snapshot(&self) -> (r: Result<ThermalSnapshot, WinkitError>)
        ensures
            r matches Ok(x) && x@ == sample_thermal_snapshot_view(),
    {
        Ok(sample_thermal_snapshot())
    }

    fn battery_status(&self) -> (r: Result<BatteryStatus, WinkitError>)
        ensures
            r matches Ok(x) && x@ == sample_battery_status_view(),
    {
        Ok(sample_battery_status())
    }

    fn power_status(&self) -> (r: Result<PowerStatus, WinkitError>)
        ensures
            r matches Ok(x) && x@ == sample_power_status_view(),
    {
        Ok(sample_power_status())
    }

    fn disk_health(&self) -> (r: Result<DiskHealthReport, WinkitError>)
        ensures
            r matches Ok(x) && x@ == sample_disk_health_view(),
    {
        Ok(sample_disk_health())
    }

    fn storage_activity(&self, sample_window_ms: u64) -> (r: Result<StorageActivity, WinkitError>)
        ensures
            r matches Ok(x) && x@ == sample_storage_activity_view(sample_window_ms),
    {
        Ok(sample_storage_activity(sample_window_ms))
    }

    fn network_snapshot(&self) -> (r: Result<NetworkSnapshot, WinkitError>)
        ensures
            r matches Ok(x) && x@ == network_view(self@),
    {
        let unavailable: Vec<UnavailableReading> = Vec::new();
        assert(unavailable@.map_values(|x: UnavailableReading| x@) =~= Seq::<
            UnavailableReadingView,
        >::empty());
        Ok(
            NetworkSnapshot {
                status: "ok".to_string(),
                timestamp: "2026-08-13T08:00:07.000Z".to_string(),
                duration_ms: 30,
                interfaces: copy_network_interface_infos(&self.interfaces),
                wifi: copy_wifi_adapters(&self.wifi),
                connections: copy_connection_infos(&self.connections),
                listening_ports: copy_port_infos(&self.ports),
                completeness: "full".to_string(),
                unavailable,
            },
        )
    }

    fn wifi_status(&self) -> (r: Result<Vec<WifiAdapterStatus>, WinkitError>)
        ensures
            r matches Ok(v) && v@.map_values(|x: WifiAdapterStatus| x@) == self@.wifi,
    {
        Ok(copy_wifi_adapters(&self.wifi))
    }

    fn wifi_scan(&self) -> (r: Result<WifiScan, WinkitError>)
        ensures
            r matches Ok(x) && x@ == sample_wifi_scan_view(),
    {
        Ok(sample_wifi_scan())
    }

    fn network_diagnose(&self, sample_window_ms: u64) -> (r: Result<NetworkDiagnosis, WinkitError>)
        ensures
            r matches Ok(x) && x@ == sample_network_diagnose_view(sample_window_ms),
    {
        Ok(sample_network_diagnose(sample_window_ms))
    }

    fn registry_diagnostics(&self, include_software: bool, max_software: usize) -> (r: Result<
        RegistryDiagnostics,
        WinkitError,
    >)
        ensures
            r matches Ok(x) && x@ == registry_for(self@.registry, include_software, max_software),
    {
        let mut diag = self.registry.clone();
        diag.installed_software = if include_software {
            first_installed_software(&self.registry.installed_software, max_software)
        } else {
            Vec::new()
        };
        let ghost software = diag.installed_software@.map_values(|x: InstalledSoftware| x@);
        diag.counts.installed_software = diag.installed_software.len();
        assert(software.len() == diag.installed_software@.len());
        if !include_software {
            assert(software =~= Seq::<InstalledSoftwareView>::empty());
        }
        assert(diag@ =~= registry_for(self@.registry, include_software, max_software));
        Ok(diag)
    }

    fn path_audit(&self) -> (r: Result<PathAudit, WinkitError>)
        ensures
            r matches Ok(x) && x@ == self@.path_audit,
    {
        Ok(self.path_audit.clone())
    }

    fn update_status(&self, max_hotfixes: usize) -> (r: Result<UpdateStatus, WinkitError>)
        ensures
            r matches Ok(x) && x@ == (UpdateStatusView {
                hotfixes: first_of_all(self@.update_status.hotfixes, max_hotfixes as int),
                ..self@.update_status
            }),
    {
        let mut status = self.update_status.clone();
        status.hotfixes = first_hotfixes(&self.update_status.hotfixes, max_hotfixes);
        Ok(status)
    }
}

/// Is the event of the log, at least as severe as asked, from the provider, of the
/// number, and no older than asked, each where it is asked for? The less severe has
/// the higher number. An event whose time cannot be read counts as recent.
pub open spec fn answers(e: EventInfo, q: EventQuery, now_ns: u64) -> bool {
    &&& e.channel is Some && e.channel->0@ == q.log@
    &&& q.min_level is Some ==> match e.level {
        EventLevel::Critical => 1 <= q.min_level->0,
        EventLevel::Error => 2 <= q.min_level->0,
        EventLevel::Warning => 3 <= q.min_level->0,
        EventLevel::Information => 4 <= q.min_level->0,
        EventLevel::Verbose => 5 <= q.min_level->0,
    }
    &&& q.provider is Some ==> e.provider is Some && e.provider->0@ == q.provider->0@
    &&& q.event_id is Some ==> e.event_id == q.event_id
    &&& q.since_minutes is Some && e.time_created is Some && parsed_seconds(
        e.time_created->0@,
    ) is Some ==> parsed_seconds(e.time_created->0@)->0 * 1_000_000_000 + q.since_minutes->0
        * 60_000_000_000 >= now_ns
}

/// A query gives the first events that it asks for, in their order and as they are, and
/// no more than it takes.
pub proof fn law_queries_are_answered(
    events: Vec<EventInfo>,
    query: EventQuery,
    now_ns: u64,
    r: Vec<EventInfo>,
)
    requires
        call_ensures(matching_events, (&events, &query, now_ns), r),
    ensures
        ({
            let all = events@.filter(|e: EventInfo| answers(e, query, now_ns));
            &&& all.len() <= query.max_results ==> r@.len() == all.len()
            &&& all.len() > query.max_results ==> r@.len() == query.max_results
            &&& forall|i: int| 0 <= i < r@.len() ==> (#[trigger] r@[i])@ == all[i]@
        }),
{
    let shown = events@.map_values(|x: EventInfo| x@);
    lemma_events_filtered(events@, query, now_ns);
    let got = r@.map_values(|x: EventInfo| x@);
    assert(got.len() == r@.len());
    assert forall|i: int| 0 <= i < r@.len() implies (#[trigger] r@[i])@ == events@.filter(
        |e: EventInfo| answers(e, query, now_ns),
    )[i]@ by {
        assert(got[i] == r@[i]@);
    }
}

proof fn lemma_events_filtered(events: Seq<EventInfo>, query: EventQuery, now_ns: u64)
    ensures
        ({
            let a = events.map_values(|x: EventInfo| x@).filter(
                |e: EventInfoView| is_asked_for(e, query@, now_ns),
            );
            let b = events.filter(|e: EventInfo| answers(e, query, now_ns));
            a.len() == b.len() && forall|i: int| 0 <= i < a.len() ==> #[trigger] a[i] == b[i]@
        }),
    decreases events.len(),
{
    reveal(Seq::filter);
    let shown = events.map_values(|x: EventInfo| x@);
    if events.len() > 0 {
        let rest = events.drop_last();
        lemma_events_filtered(rest, query, now_ns);
        assert(shown.drop_last() =~= rest.map_values(|x: EventInfo| x@));
        assert(shown.last() == events.last()@);
        assert(is_asked_for(events.last()@, query@, now_ns) == answers(
            events.last(),
            query,
            now_ns,
        ));
    }
}

/// A process is found by its number, the first of several; and none where none has it.
pub proof fn law_processes_are_found_by_number(processes: Seq<ProcessInfoView>, pid: u32)
    ensures
        process_of(processes, pid) is None <==> forall|i: int|
            0 <= i < processes.len() ==> (#[trigger] processes[i]).pid != pid,
        process_of(processes, pid) matches Some(p) ==> p.pid == pid && exists|i: int|
            0 <= i < processes.len() && p == #[trigger] processes[i] && forall|k: int|
                0 <= k < i ==> (#[trigger] processes[k]).pid != pid,
    decreases processes.len(),
{
    if processes.len() > 0 {
        let rest = processes.drop_first();
        law_processes_are_found_by_number(rest, pid);
        assert forall|k: int| 0 < k < processes.len() implies #[trigger] processes[k] == rest[k
            - 1] by {}
        if processes[0].pid == pid {
            assert(processes[0] == process_of(processes, pid)->0);
        } else {
            if process_of(rest, pid) is None {
                assert forall|i: int| 0 <= i < processes.len() implies (
                #[trigger] processes[i]).pid != pid by {
                    if i > 0 {
                        assert(rest[i - 1].pid != pid);
                    }
                }
            } else {
                let i = choose|i: int|
                    0 <= i < rest.len() && process_of(rest, pid)->0 == #[trigger] rest[i]
                        && forall|k: int| 0 <= k < i ==> (#[trigger] rest[k]).pid != pid;
                assert(processes[i + 1] == rest[i]);
                assert forall|k: int| 0 <= k < i + 1 implies (#[trigger] processes[k]).pid
                    != pid by {
                    if k > 0 {
                        assert(rest[k - 1].pid != pid);
                    }
                }
            }
        }
    }
}

/// A service is found by its name or the name that is shown, in any mix of cases; and
/// none where none has it.
pub proof fn law_services_are_found_by_name(services: Seq<ServiceInfoView>, name: Seq<char>)
    ensures
        service_of(services, name) is None <==> forall|i: int|
            0 <= i < services.len() ==> ascii_lower((#[trigger] services[i]).name) != ascii_lower(
                name,
            ) && ascii_lower(services[i].display_name) != ascii_lower(name),
        service_of(services, name) matches Some(s) ==> services.contains(s) && (ascii_lower(s.name)
            == ascii_lower(name) || ascii_lower(s.display_name) == ascii_lower(name)),
    decreases services.len(),
{
    if services.len() > 0 {
        let rest = services.drop_first();
        law_services_are_found_by_name(rest, name);
        assert forall|k: int| 0 < k < services.len() implies #[trigger] services[k] == rest[k
            - 1] by {}
        assert(services[0] == services.first());
        match service_of(rest, name) {
            Some(s) => {
                let i = choose|i: int| 0 <= i < rest.len() && rest[i] == s;
                assert(services[i + 1] == s);
                assert(!(ascii_lower(services[i + 1].name) != ascii_lower(name) && ascii_lower(
                    services[i + 1].display_name,
                ) != ascii_lower(name)));
            },
            None => {},
        }
    }
}

/// Who listens on a port is told as the list has it, and nobody where nobody does.
pub proof fn law_owners_are_found_by_port(ports: Seq<PortInfoView>, port: u16)
    ensures
        owner_of(ports, port) is None <==> forall|i: int|
            0 <= i < ports.len() ==> (#[trigger] ports[i]).port != port,
        owner_of(ports, port) matches Some(o) ==> o.port == port && exists|i: int|
            0 <= i < ports.len() && (#[trigger] ports[i]).port == port && ports[i].pid == o.pid
                && ports[i].protocol == o.protocol && ports[i].process_name == o.process_name
                && ports[i].state == o.state,
    decreases ports.len(),
{
    if ports.len() > 0 {
        let rest = ports.drop_first();
        law_owners_are_found_by_port(rest, port);
        assert forall|k: int| 0 < k < ports.len() implies #[trigger] ports[k] == rest[k - 1] by {}
        if ports[0].port != port {
            match owner_of(rest, port) {
                Some(o) => {
                    let i = choose|i: int|
                        0 <= i < rest.len() && (#[trigger] rest[i]).port == port && rest[i].pid
                            == o.pid && rest[i].protocol == o.protocol && rest[i].process_name
                            == o.process_name && rest[i].state == o.state;
                    assert(ports[i + 1] == rest[i]);
                },
                None => {},
            }
        }
    }
}

/// Processes are searched by name in any mix of cases: exactly those are found whose
/// names hold what is wanted, in their order.
pub proof fn law_searches_find_by_name(processes: Seq<ProcessInfoView>, needle: Seq<char>)
    ensures
        named_like(processes, needle) == processes.filter(
            |p: ProcessInfoView| occurs(lowercase(p.name), lowercase(needle)),
        ),
    decreases processes.len(),
{
    reveal(Seq::filter);
    let names = processes.map_values(|p: ProcessInfoView| lowercase(p.name));
    if processes.len() > 0 {
        let rest = processes.drop_last();
        law_searches_find_by_name(rest, needle);
        assert(names.drop_last() =~= rest.map_values(|p: ProcessInfoView| lowercase(p.name)));
        assert(names.last() == lowercase(processes.last().name));
    } else {
        assert(named_like(processes, needle) =~= Seq::<ProcessInfoView>::empty());
    }
}

/// Applications come with what takes the most memory first. Each has as many processes
/// as carry its name, and takes what they take together; and none that is left out
/// takes more than one that is listed.
pub proof fn law_largest_applications_come_first(
    processes: Vec<ProcessInfo>,
    limit: usize,
    r: Vec<ApplicationGroupInfo>,
)
    requires
        call_ensures(group_processes, (&processes, limit), r),
    ensures
        r@.len() <= limit,
        forall|i: int, j: int|
            0 <= i < j < r@.len() ==> (#[trigger] r@[i]).total_working_set_bytes >= (
            #[trigger] r@[j]).total_working_set_bytes,
        forall|i: int|
            0 <= i < r@.len() ==> is_application(
                #[trigger] r@[i],
                processes@.map_values(|x: ProcessInfo| x@),
            ),
        forall|k: int|
            #![trigger processes@[k]]
            0 <= k < processes@.len() ==> {
                let name = without_suffix(ascii_lower(trimmed(processes@[k].name@)), ".exe"@);
                (exists|i: int| 0 <= i < r@.len() && (#[trigger] r@[i]).name@ == name) || (r@.len()
                    == limit)
            },
{
    let all = processes@.map_values(|x: ProcessInfo| x@);
    let shown = r@.map_values(|x: ApplicationGroupInfo| x@);
    let (stems, order) = choose|stems: Seq<Seq<char>>, order: Seq<usize>| #[trigger]
        are_stems(stems, all) && #[trigger] is_stable_order(
            group_keys(groups_of(all, stems)),
            order,
        ) && groups_follow(shown, groups_of(all, stems), order, limit);
    let groups = groups_of(all, stems);
    let keys = group_keys(groups);
    assert(shown.len() == r@.len());
    assert forall|i: int, j: int| 0 <= i < j < r@.len() implies (
    #[trigger] r@[i]).total_working_set_bytes >= (
    #[trigger] r@[j]).total_working_set_bytes by {
        reveal_with_fuel(key_lt, 2);
        assert(shown[i] == r@[i]@ && shown[j] == r@[j]@);
        let (a, b) = (order[i] as int, order[j] as int);
        assert(comes_before(keys, order[i] as int, order[j] as int));
        assert(keys[a] == seq![(u64::MAX - groups[a].total_working_set_bytes) as u64]);
        assert(keys[b] == seq![(u64::MAX - groups[b].total_working_set_bytes) as u64]);
        assert(keys[a][0] == u64::MAX - groups[a].total_working_set_bytes);
        assert(keys[b][0] == u64::MAX - groups[b].total_working_set_bytes);
        assert(keys[a].drop_first().len() == 0);
    }
    assert forall|i: int| 0 <= i < r@.len() implies is_application(#[trigger] r@[i], all) by {
        assert(shown[i] == r@[i]@);
        assert(order[i] < keys.len());
        assert(groups[order[i] as int] == group_of(all, stems[order[i] as int]));
        let stem = stems[order[i] as int];
        lemma_few(all, stem);
        lemma_memory_grows(processes_of(all, stem));
        assert(r@[i].name@ == stem);
        assert((|p: ProcessInfoView|
            without_suffix(ascii_lower(trimmed(p.name)), ".exe"@) == r@[i].name@) =~= (|
            p: ProcessInfoView,
        | stem_of(p.name) == stem));
        assert(all.len() == processes.len());
    }
    assert forall|k: int| #![trigger processes@[k]] 0 <= k < processes@.len() implies {
        let name = without_suffix(ascii_lower(trimmed(processes@[k].name@)), ".exe"@);
        (exists|i: int| 0 <= i < r@.len() && (#[trigger] r@[i]).name@ == name) || (r@.len()
            == limit)
    } by {
        assert(all[k] == processes@[k]@);
        let name = stem_of(all[k].name);
        assert(stems.contains(name));
        let s = choose|s: int| 0 <= s < stems.len() && stems[s] == name;
        if r@.len() < limit {
            assert(r@.len() == groups.len() && r@.len() == r.len());
            assert(groups.len() == order.len());
            lemma_place(order, groups.len() as int, s);
            let i = choose|i: int| 0 <= i < order.len() && order[i] == s as usize;
            assert(shown[i] == r@[i]@);
            assert(r@[i].name@ == name);
        }
    }
}

proof fn lemma_place(order: Seq<usize>, n: int, s: int)
    requires
        0 <= s < n,
        n == order.len(),
        forall|k: usize| k < n ==> #[trigger] order.contains(k),
        n <= usize::MAX,
    ensures
        exists|i: int| 0 <= i < order.len() && order[i] == s as usize,
{
    assert(order.contains(s as usize));
}

proof fn lemma_few(processes: Seq<ProcessInfoView>, stem: Seq<char>)
    ensures
        processes_of(processes, stem).len() <= processes.len(),
    decreases processes.len(),
{
    reveal(Seq::filter);
    if processes.len() > 0 {
        lemma_few(processes.drop_last(), stem);
    }
}

/// Is this what the processes of the application's name come to?
pub open spec fn is_application(g: ApplicationGroupInfo, processes: Seq<ProcessInfoView>) -> bool {
    let own = processes.filter(
        |p: ProcessInfoView|
            without_suffix(ascii_lower(trimmed(p.name)), ".exe"@) == g.name@,
    );
    &&& g.process_count == own.len()
    &&& memory_of(own) <= u64::MAX ==> g.total_working_set_bytes == memory_of(own)
    &&& memory_of(own) > u64::MAX ==> g.total_working_set_bytes == u64::MAX
    &&& g.name@ == "chrome"@ ==> g.display_name@ == "Google Chrome"@
    &&& g.name@ != "chrome"@ ==> g.display_name@ == g.name@
}

/// Each process adds the memory that it takes.
pub proof fn law_memory_adds_up(processes: Seq<ProcessInfoView>, p: ProcessInfoView)
    ensures
        memory_of(processes.push(p)) == memory_of(processes) + p.working_set_bytes.unwrap_or(0),
        memory_of(Seq::<ProcessInfoView>::empty()) == 0,
{
    assert(processes.push(p).drop_last() =~= processes);
}

/// The registry is told without software where none is asked for, and with the first
/// so many programs where it is; their number is told with them.
pub proof fn law_software_is_bounded(
    r: RegistryDiagnosticsView,
    include_software: bool,
    max_software: usize,
)
    requires
        r.installed_software.len() <= usize::MAX,
    ensures
        ({
            let told = registry_for(r, include_software, max_software);
            &&& told.installed_software.is_prefix_of(r.installed_software)
            &&& !include_software ==> told.installed_software.len() == 0
            &&& include_software && r.installed_software.len() <= max_software
                ==> told.installed_software == r.installed_software
            &&& include_software && r.installed_software.len() > max_software
                ==> told.installed_software.len() == max_software
            &&& told.counts.installed_software == told.installed_software.len()
            &&& told.startup_programs == r.startup_programs
            &&& told.counts.startup_programs == r.counts.startup_programs
            &&& told.system_identity == r.system_identity
        }),
{
}

/// The title in front is that of the first window in the foreground.
pub proof fn law_front_window_is_the_first(windows: Seq<WindowInfoView>)
    ensures
        front_title(windows) is None <==> forall|i: int|
            0 <= i < windows.len() ==> !(#[trigger] windows[i]).foreground,
        front_title(windows) matches Some(t) ==> exists|i: int|
            {
                &&& 0 <= i < windows.len()
                &&& (#[trigger] windows[i]).foreground
                &&& windows[i].title == t
                &&& forall|j: int| 0 <= j < i ==> !(#[trigger] windows[j]).foreground
            },
    decreases windows.len(),
{
    if windows.len() > 0 {
        if windows[0].foreground {
            assert(front_title(windows) == Some(windows[0].title));
        } else {
            let rest = windows.drop_first();
            law_front_window_is_the_first(rest);
            if front_title(rest) is None {
                assert forall|i: int| 0 <= i < windows.len() implies !(#[trigger] windows[i])
                    .foreground by {
                    if i > 0 {
                        assert(windows[i] == rest[i - 1]);
                    }
                }
            } else {
                let k = choose|i: int|
                    {
                        &&& 0 <= i < rest.len()
                        &&& (#[trigger] rest[i]).foreground
                        &&& rest[i].title == front_title(rest)->0
                        &&& forall|j: int| 0 <= j < i ==> !(#[trigger] rest[j]).foreground
                    };
                assert(windows[k + 1] == rest[k]);
                assert forall|j: int| 0 <= j < k + 1 implies !(#[trigger] windows[j]).foreground by {
                    if j > 0 {
                        assert(windows[j] == rest[j - 1]);
                    }
                }
            }
        }
    }
}

} // verus!
