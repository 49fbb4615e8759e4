//! The data that providers report and tools pass on.

use crate::text::{opt_view, views};
use vstd::prelude::*;

verus! {

/// A floating-point number by its bits. The library carries such numbers and
/// does not compute with them.
#[derive(Debug, Clone, Copy, PartialEq, Eq, Structural)]
pub struct Real {
    pub bits: u64,
}

/// How severe an event is.
#[derive(Debug, Clone, Copy, PartialEq, Eq, Structural)]
pub enum EventLevel {
    Critical,
    Error,
    Warning,
    Information,
    Verbose,
}

/// What a sensor belongs to.
#[derive(Debug, Clone, Copy, PartialEq, Eq, Structural)]
pub enum SensorClass {
    CpuPackage,
    CpuCore,
    Gpu,
    Storage,
    Battery,
    System,
}

/// What a sensor measures.
#[derive(Debug, Clone, Copy, PartialEq, Eq, Structural)]
pub enum SensorKind {
    Temperature,
    ClockRate,
    Power,
    FanSpeed,
    Load,
}

/// Where a reading comes from.
#[derive(Debug, Clone, Copy, PartialEq, Eq, Structural)]
pub enum SensorSource {
    PerformanceCounter,
    ThermalZone,
    StorageDriver,
    PowerDriver,
}

/// How far a reading can be relied on.
#[derive(Debug, Clone, Copy, PartialEq, Eq, Structural)]
pub enum SensorQuality {
    High,
    Medium,
    Low,
}

/// Whether something can be read.
#[derive(Debug, Clone, Copy, PartialEq, Eq, Structural)]
pub enum SensorAvailability {
    Available,
    Unsupported,
    PermissionDenied,
    Failed,
}

impl EventLevel {
    /// The number of the level, from one (critical) to five (verbose).
    pub open spec fn number_view(self) -> u32 {
        match self {
            EventLevel::Critical => 1,
            EventLevel::Error => 2,
            EventLevel::Warning => 3,
            EventLevel::Information => 4,
            EventLevel::Verbose => 5,
        }
    }

    /// The number of the level, from one (critical) to five (verbose).
    pub fn number(self) -> (r: u32)
        ensures
            r == self.number_view(),
    {
        match self {
            EventLevel::Critical => 1,
            EventLevel::Error => 2,
            EventLevel::Warning => 3,
            EventLevel::Information => 4,
            EventLevel::Verbose => 5,
        }
    }
}

/// The same texts again.
pub fn copy_texts(v: &Vec<String>) -> (r: Vec<String>)
    ensures
        views(r@) == views(v@),
{
    let mut out: Vec<String> = Vec::new();
    let mut i: usize = 0;
    while i < v.len()
        invariant
            i <= v@.len(),
            out@.len() == i,
            forall|k: int| 0 <= k < i ==> (#[trigger] out@[k])@ == v@[k]@,
        decreases v@.len() - i,
    {
        out.push(v[i].clone());
        i = i + 1;
    }
    assert(views(out@) =~= views(v@));
    out
}

/// The same numbers again.
pub fn copy_numbers(v: &Vec<usize>) -> (r: Vec<usize>)
    ensures
        r@ == v@,
{
    let mut out: Vec<usize> = Vec::new();
    let mut i: usize = 0;
    while i < v.len()
        invariant
            i <= v@.len(),
            out@ =~= v@.take(i as int),
        decreases v@.len() - i,
    {
        out.push(v[i]);
        i = i + 1;
    }
    assert(v@.take(v@.len() as int) == v@);
    out
}

/// One process. A field that could not be read is absent.
#[derive(Debug)]
pub struct ProcessInfo {
    pub pid: u32,
    pub name: String,
    pub parent_pid: Option<u32>,
    pub executable_path: Option<String>,
    pub command_line: Option<String>,
    pub working_set_bytes: Option<u64>,
    pub private_bytes: Option<u64>,
    pub threads: Option<u32>,
    pub start_time: Option<String>,
    pub cpu_time_ms: Option<u64>,
    pub cpu_percent: Option<Real>,
}

/// [`ProcessInfo`] taken by its views.
#[verifier::ext_equal]
pub struct ProcessInfoView {
    pub pid: u32,
    pub name: Seq<char>,
    pub parent_pid: Option<u32>,
    pub executable_path: Option<Seq<char>>,
    pub command_line: Option<Seq<char>>,
    pub working_set_bytes: Option<u64>,
    pub private_bytes: Option<u64>,
    pub threads: Option<u32>,
    pub start_time: Option<Seq<char>>,
    pub cpu_time_ms: Option<u64>,
    pub cpu_percent: Option<Real>,
}

impl View for ProcessInfo {
    type V = ProcessInfoView;

    open spec fn view(&self) -> ProcessInfoView {
        ProcessInfoView {
            pid: self.pid,
            name: self.name@,
            parent_pid: self.parent_pid,
            executable_path: opt_view(self.executable_path),
            command_line: opt_view(self.command_line),
            working_set_bytes: self.working_set_bytes,
            private_bytes: self.private_bytes,
            threads: self.threads,
            start_time: opt_view(self.start_time),
            cpu_time_ms: self.cpu_time_ms,
            cpu_percent: self.cpu_percent,
        }
    }
}

impl Clone for ProcessInfo {
    fn clone(&self) -> (r: Self)
        ensures
            r@ == self@,
            r == *self,
    {
        ProcessInfo {
            pid: self.pid,
            name: self.name.clone(),
            parent_pid: self.parent_pid,
            executable_path: self.executable_path.clone(),
            command_line: self.command_line.clone(),
            working_set_bytes: self.working_set_bytes,
            private_bytes: self.private_bytes,
            threads: self.threads,
            start_time: self.start_time.clone(),
            cpu_time_ms: self.cpu_time_ms,
            cpu_percent: self.cpu_percent,
        }
    }
}

/// One top-level window.
#[derive(Debug)]
pub struct WindowInfo {
    pub hwnd: isize,
    pub title: String,
    pub class_name: Option<String>,
    pub process_id: u32,
    pub process_name: Option<String>,
    pub visible: bool,
    pub minimized: bool,
    pub maximized: bool,
    pub foreground: bool,
}

/// [`WindowInfo`] taken by its views.
#[verifier::ext_equal]
pub struct WindowInfoView {
    pub hwnd: isize,
    pub title: Seq<char>,
    pub class_name: Option<Seq<char>>,
    pub process_id: u32,
    pub process_name: Option<Seq<char>>,
    pub visible: bool,
    pub minimized: bool,
    pub maximized: bool,
    pub foreground: bool,
}

impl View for WindowInfo {
    type V = WindowInfoView;

    open spec fn view(&self) -> WindowInfoView {
        WindowInfoView {
            hwnd: self.hwnd,
            title: self.title@,
            class_name: opt_view(self.class_name),
            process_id: self.process_id,
            process_name: opt_view(self.process_name),
            visible: self.visible,
            minimized: self.minimized,
            maximized: self.maximized,
            foreground: self.foreground,
        }
    }
}

impl Clone for WindowInfo {
    fn clone(&self) -> (r: Self)
        ensures
            r@ == self@,
            r == *self,
    {
        WindowInfo {
            hwnd: self.hwnd,
            title: self.title.clone(),
            class_name: self.class_name.clone(),
            process_id: self.process_id,
            process_name: self.process_name.clone(),
            visible: self.visible,
            minimized: self.minimized,
            maximized: self.maximized,
            foreground: self.foreground,
        }
    }
}

/// One debugging target of a browser.
#[derive(Debug)]
pub struct TargetInfo {
    pub id: String,
    pub title: String,
    pub url: String,
    pub kind: String,
    pub attachable: bool,
    pub browser_context_id: Option<String>,
}

/// [`TargetInfo`] taken by its views.
#[verifier::ext_equal]
pub struct TargetInfoView {
    pub id: Seq<char>,
    pub title: Seq<char>,
    pub url: Seq<char>,
    pub kind: Seq<char>,
    pub attachable: bool,
    pub browser_context_id: Option<Seq<char>>,
}

impl View for TargetInfo {
    type V = TargetInfoView;

    open spec fn view(&self) -> TargetInfoView {
        TargetInfoView {
            id: self.id@,
            title: self.title@,
            url: self.url@,
            kind: self.kind@,
            attachable: self.attachable,
            browser_context_id: opt_view(self.browser_context_id),
        }
    }
}

impl Clone for TargetInfo {
    fn clone(&self) -> (r: Self)
        ensures
            r@ == self@,
            r == *self,
    {
        TargetInfo {
            id: self.id.clone(),
            title: self.title.clone(),
            url: self.url.clone(),
            kind: self.kind.clone(),
            attachable: self.attachable,
            browser_context_id: self.browser_context_id.clone(),
        }
    }
}

/// A browser's debugging endpoint.
#[derive(Debug)]
pub struct ChromeEndpoint {
    pub port: u16,
    pub browser_ws_url: String,
    pub browser_version: String,
    pub protocol_version: String,
    pub user_agent: Option<String>,
}

/// [`ChromeEndpoint`] taken by its views.
#[verifier::ext_equal]
pub struct ChromeEndpointView {
    pub port: u16,
    pub browser_ws_url: Seq<char>,
    pub browser_version: Seq<char>,
    pub protocol_version: Seq<char>,
    pub user_agent: Option<Seq<char>>,
}

impl View for ChromeEndpoint {
    type V = ChromeEndpointView;

    open spec fn view(&self) -> ChromeEndpointView {
        ChromeEndpointView {
            port: self.port,
            browser_ws_url: self.browser_ws_url@,
            browser_version: self.browser_version@,
            protocol_version: self.protocol_version@,
            user_agent: opt_view(self.user_agent),
        }
    }
}

impl Clone for ChromeEndpoint {
    fn clone(&self) -> (r: Self)
        ensures
            r@ == self@,
            r == *self,
    {
        ChromeEndpoint {
            port: self.port,
            browser_ws_url: self.browser_ws_url.clone(),
            browser_version: self.browser_version.clone(),
            protocol_version: self.protocol_version.clone(),
            user_agent: self.user_agent.clone(),
        }
    }
}

/// One entry of an event log.
#[derive(Debug)]
pub struct EventInfo {
    pub record_id: Option<u64>,
    pub event_id: Option<u32>,
    pub level: EventLevel,
    pub provider: Option<String>,
    pub channel: Option<String>,
    pub time_created: Option<String>,
    pub computer: Option<String>,
    pub process_id: Option<u32>,
    pub message: Option<String>,
    pub message_truncated: Option<bool>,
}

/// [`EventInfo`] taken by its views.
#[verifier::ext_equal]
pub struct EventInfoView {
    pub record_id: Option<u64>,
    pub event_id: Option<u32>,
    pub level: EventLevel,
    pub provider: Option<Seq<char>>,
    pub channel: Option<Seq<char>>,
    pub time_created: Option<Seq<char>>,
    pub computer: Option<Seq<char>>,
    pub process_id: Option<u32>,
    pub message: Option<Seq<char>>,
    pub message_truncated: Option<bool>,
}

impl View for EventInfo {
    type V = EventInfoView;

    open spec fn view(&self) -> EventInfoView {
        EventInfoView {
            record_id: self.record_id,
            event_id: self.event_id,
            level: self.level,
            provider: opt_view(self.provider),
            channel: opt_view(self.channel),
            time_created: opt_view(self.time_created),
            computer: opt_view(self.computer),
            process_id: self.process_id,
            message: opt_view(self.message),
            message_truncated: self.message_truncated,
        }
    }
}

impl Clone for EventInfo {
    fn clone(&self) -> (r: Self)
        ensures
            r@ == self@,
            r == *self,
    {
        EventInfo {
            record_id: self.record_id,
            event_id: self.event_id,
            level: self.level,
            provider: self.provider.clone(),
            channel: self.channel.clone(),
            time_created: self.time_created.clone(),
            computer: self.computer.clone(),
            process_id: self.process_id,
            message: self.message.clone(),
            message_truncated: self.message_truncated,
        }
    }
}

/// What is asked of an event log.
#[derive(Debug)]
pub struct EventQuery {
    pub log: String,
    pub min_level: Option<u32>,
    pub since_minutes: Option<u64>,
    pub provider: Option<String>,
    pub event_id: Option<u32>,
    pub max_results: usize,
}

/// [`EventQuery`] taken by its views.
#[verifier::ext_equal]
pub struct EventQueryView {
    pub log: Seq<char>,
    pub min_level: Option<u32>,
    pub since_minutes: Option<u64>,
    pub provider: Option<Seq<char>>,
    pub event_id: Option<u32>,
    pub max_results: usize,
}

impl View for EventQuery {
    type V = EventQueryView;

    open spec fn view(&self) -> EventQueryView {
        EventQueryView {
            log: self.log@,
            min_level: self.min_level,
            since_minutes: self.since_minutes,
            provider: opt_view(self.provider),
            event_id: self.event_id,
            max_results: self.max_results,
        }
    }
}

impl Clone for EventQuery {
    fn clone(&self) -> (r: Self)
        ensures
            r@ == self@,
            r == *self,
    {
        EventQuery {
            log: self.log.clone(),
            min_level: self.min_level,
            since_minutes: self.since_minutes,
            provider: self.provider.clone(),
            event_id: self.event_id,
            max_results: self.max_results,
        }
    }
}

/// What is known of the machine itself.
#[derive(Debug)]
pub struct SystemInfo {
    pub os_name: String,
    pub version: String,
    pub build: u32,
    pub architecture: String,
    pub uptime_seconds: u64,
    pub boot_time: Option<String>,
    pub hostname: Option<String>,
    pub cpu_cores: u32,
    pub logical_processors: u32,
    pub total_memory_bytes: Option<u64>,
}

/// [`SystemInfo`] taken by its views.
#[verifier::ext_equal]
pub struct SystemInfoView {
    pub os_name: Seq<char>,
    pub version: Seq<char>,
    pub build: u32,
    pub architecture: Seq<char>,
    pub uptime_seconds: u64,
    pub boot_time: Option<Seq<char>>,
    pub hostname: Option<Seq<char>>,
    pub cpu_cores: u32,
    pub logical_processors: u32,
    pub total_memory_bytes: Option<u64>,
}

impl View for SystemInfo {
    type V = SystemInfoView;

    open spec fn view(&self) -> SystemInfoView {
        SystemInfoView {
            os_name: self.os_name@,
            version: self.version@,
            build: self.build,
            architecture: self.architecture@,
            uptime_seconds: self.uptime_seconds,
            boot_time: opt_view(self.boot_time),
            hostname: opt_view(self.hostname),
            cpu_cores: self.cpu_cores,
            logical_processors: self.logical_processors,
            total_memory_bytes: self.total_memory_bytes,
        }
    }
}

impl Clone for SystemInfo {
    fn clone(&self) -> (r: Self)
        ensures
            r@ == self@,
            r == *self,
    {
        SystemInfo {
            os_name: self.os_name.clone(),
            version: self.version.clone(),
            build: self.build,
            architecture: self.architecture.clone(),
            uptime_seconds: self.uptime_seconds,
            boot_time: self.boot_time.clone(),
            hostname: self.hostname.clone(),
            cpu_cores: self.cpu_cores,
            logical_processors: self.logical_processors,
            total_memory_bytes: self.total_memory_bytes,
        }
    }
}

/// How busy the machine is.
#[derive(Debug)]
pub struct ResourceSnapshot {
    pub cpu_busy_percent: Option<Real>,
    pub cpu_busy_percent_basis: String,
    pub memory_load_percent: Option<Real>,
    pub total_memory_bytes: Option<u64>,
    pub available_memory_bytes: Option<u64>,
}

/// [`ResourceSnapshot`] taken by its views.
#[verifier::ext_equal]
pub struct ResourceSnapshotView {
    pub cpu_busy_percent: Option<Real>,
    pub cpu_busy_percent_basis: Seq<char>,
    pub memory_load_percent: Option<Real>,
    pub total_memory_bytes: Option<u64>,
    pub available_memory_bytes: Option<u64>,
}

impl View for ResourceSnapshot {
    type V = ResourceSnapshotView;

    open spec fn view(&self) -> ResourceSnapshotView {
        ResourceSnapshotView {
            cpu_busy_percent: self.cpu_busy_percent,
            cpu_busy_percent_basis: self.cpu_busy_percent_basis@,
            memory_load_percent: self.memory_load_percent,
            total_memory_bytes: self.total_memory_bytes,
            available_memory_bytes: self.available_memory_bytes,
        }
    }
}

impl Clone for ResourceSnapshot {
    fn clone(&self) -> (r: Self)
        ensures
            r@ == self@,
            r == *self,
    {
        ResourceSnapshot {
            cpu_busy_percent: self.cpu_busy_percent,
            cpu_busy_percent_basis: self.cpu_busy_percent_basis.clone(),
            memory_load_percent: self.memory_load_percent,
            total_memory_bytes: self.total_memory_bytes,
            available_memory_bytes: self.available_memory_bytes,
        }
    }
}

/// One port that a process listens on.
#[derive(Debug)]
pub struct PortInfo {
    pub port: u16,
    pub protocol: String,
    pub pid: Option<u32>,
    pub process_name: Option<String>,
    pub state: Option<String>,
    pub address: String,
}

/// [`PortInfo`] taken by its views.
#[verifier::ext_equal]
pub struct PortInfoView {
    pub port: u16,
    pub protocol: Seq<char>,
    pub pid: Option<u32>,
    pub process_name: Option<Seq<char>>,
    pub state: Option<Seq<char>>,
    pub address: Seq<char>,
}

impl View for PortInfo {
    type V = PortInfoView;

    open spec fn view(&self) -> PortInfoView {
        PortInfoView {
            port: self.port,
            protocol: self.protocol@,
            pid: self.pid,
            process_name: opt_view(self.process_name),
            state: opt_view(self.state),
            address: self.address@,
        }
    }
}

impl Clone for PortInfo {
    fn clone(&self) -> (r: Self)
        ensures
            r@ == self@,
            r == *self,
    {
        PortInfo {
            port: self.port,
            protocol: self.protocol.clone(),
            pid: self.pid,
            process_name: self.process_name.clone(),
            state: self.state.clone(),
            address: self.address.clone(),
        }
    }
}

/// The same items again.
pub fn copy_port_infos(v: &Vec<PortInfo>) -> (r: Vec<PortInfo>)
    ensures
        r@.map_values(|x: PortInfo| x@) == v@.map_values(|x: PortInfo| x@),
{
    let mut out: Vec<PortInfo> = Vec::new();
    let mut i: usize = 0;
    while i < v.len()
        invariant
            i <= v@.len(),
            out@.len() == i,
            forall|k: int| 0 <= k < i ==> (#[trigger] out@[k])@ == v@[k]@,
        decreases v@.len() - i,
    {
        out.push(v[i].clone());
        i = i + 1;
    }
    assert(out@.map_values(|x: PortInfo| x@) =~= v@.map_values(|x: PortInfo| x@));
    out
}

/// The process that listens on a port.
#[derive(Debug)]
pub struct ProcessOnPort {
    pub port: u16,
    pub protocol: String,
    pub pid: Option<u32>,
    pub process_name: Option<String>,
    pub state: Option<String>,
}

/// [`ProcessOnPort`] taken by its views.
#[verifier::ext_equal]
pub struct ProcessOnPortView {
    pub port: u16,
    pub protocol: Seq<char>,
    pub pid: Option<u32>,
    pub process_name: Option<Seq<char>>,
    pub state: Option<Seq<char>>,
}

impl View for ProcessOnPort {
    type V = ProcessOnPortView;

    open spec fn view(&self) -> ProcessOnPortView {
        ProcessOnPortView {
            port: self.port,
            protocol: self.protocol@,
            pid: self.pid,
            process_name: opt_view(self.process_name),
            state: opt_view(self.state),
        }
    }
}

impl Clone for ProcessOnPort {
    fn clone(&self) -> (r: Self)
        ensures
            r@ == self@,
            r == *self,
    {
        ProcessOnPort {
            port: self.port,
            protocol: self.protocol.clone(),
            pid: self.pid,
            process_name: self.process_name.clone(),
            state: self.state.clone(),
        }
    }
}

/// One network connection.
#[derive(Debug)]
pub struct ConnectionInfo {
    pub protocol: String,
    pub state: String,
    pub local_address: String,
    pub local_port: u16,
    pub remote_address: String,
    pub remote_port: u16,
    pub pid: Option<u32>,
    pub process_name: Option<String>,
}

/// [`ConnectionInfo`] taken by its views.
#[verifier::ext_equal]
pub struct ConnectionInfoView {
    pub protocol: Seq<char>,
    pub state: Seq<char>,
    pub local_address: Seq<char>,
    pub local_port: u16,
    pub remote_address: Seq<char>,
    pub remote_port: u16,
    pub pid: Option<u32>,
    pub process_name: Option<Seq<char>>,
}

impl View for ConnectionInfo {
    type V = ConnectionInfoView;

    open spec fn view(&self) -> ConnectionInfoView {
        ConnectionInfoView {
            protocol: self.protocol@,
            state: self.state@,
            local_address: self.local_address@,
            local_port: self.local_port,
            remote_address: self.remote_address@,
            remote_port: self.remote_port,
            pid: self.pid,
            process_name: opt_view(self.process_name),
        }
    }
}

impl Clone for ConnectionInfo {
    fn clone(&self) -> (r: Self)
        ensures
            r@ == self@,
            r == *self,
    {
        ConnectionInfo {
            protocol: self.protocol.clone(),
            state: self.state.clone(),
            local_address: self.local_address.clone(),
            local_port: self.local_port,
            remote_address: self.remote_address.clone(),
            remote_port: self.remote_port,
            pid: self.pid,
            process_name: self.process_name.clone(),
        }
    }
}

/// The same items again.
pub fn copy_connection_infos(v: &Vec<ConnectionInfo>) -> (r: Vec<ConnectionInfo>)
    ensures
        r@.map_values(|x: ConnectionInfo| x@) == v@.map_values(|x: ConnectionInfo| x@),
{
    let mut out: Vec<ConnectionInfo> = Vec::new();
    let mut i: usize = 0;
    while i < v.len()
        invariant
            i <= v@.len(),
            out@.len() == i,
            forall|k: int| 0 <= k < i ==> (#[trigger] out@[k])@ == v@[k]@,
        decreases v@.len() - i,
    {
        out.push(v[i].clone());
        i = i + 1;
    }
    assert(out@.map_values(|x: ConnectionInfo| x@) =~= v@.map_values(|x: ConnectionInfo| x@));
    out
}

/// One network interface.
#[derive(Debug)]
pub struct NetworkInterfaceInfo {
    pub index: u32,
    pub name: String,
    pub description: String,
    pub mac_address: Option<String>,
    pub ipv4_addresses: Vec<String>,
    pub ipv4_masks: Vec<String>,
    pub gateway: Option<String>,
    pub is_loopback: bool,
    pub is_up: bool,
}

/// [`NetworkInterfaceInfo`] taken by its views.
#[verifier::ext_equal]
pub struct NetworkInterfaceInfoView {
    pub index: u32,
    pub name: Seq<char>,
    pub description: Seq<char>,
    pub mac_address: Option<Seq<char>>,
    pub ipv4_addresses: Seq<Seq<char>>,
    pub ipv4_masks: Seq<Seq<char>>,
    pub gateway: Option<Seq<char>>,
    pub is_loopback: bool,
    pub is_up: bool,
}

impl View for NetworkInterfaceInfo {
    type V = NetworkInterfaceInfoView;

    open spec fn view(&self) -> NetworkInterfaceInfoView {
        NetworkInterfaceInfoView {
            index: self.index,
            name: self.name@,
            description: self.description@,
            mac_address: opt_view(self.mac_address),
            ipv4_addresses: views(self.ipv4_addresses@),
            ipv4_masks: views(self.ipv4_masks@),
            gateway: opt_view(self.gateway),
            is_loopback: self.is_loopback,
            is_up: self.is_up,
        }
    }
}

impl Clone for NetworkInterfaceInfo {
    fn clone(&self) -> (r: Self)
        ensures
            r@ == self@,
    {
        NetworkInterfaceInfo {
            index: self.index,
            name: self.name.clone(),
            description: self.description.clone(),
            mac_address: self.mac_address.clone(),
            ipv4_addresses: copy_texts(&self.ipv4_addresses),
            ipv4_masks: copy_texts(&self.ipv4_masks),
            gateway: self.gateway.clone(),
            is_loopback: self.is_loopback,
            is_up: self.is_up,
        }
    }
}

/// The same items again.
pub fn copy_network_interface_infos(v: &Vec<NetworkInterfaceInfo>) -> (r: Vec<NetworkInterfaceInfo>)
    ensures
        r@.map_values(|x: NetworkInterfaceInfo| x@) == v@.map_values(|x: NetworkInterfaceInfo| x@),
{
    let mut out: Vec<NetworkInterfaceInfo> = Vec::new();
    let mut i: usize = 0;
    while i < v.len()
        invariant
            i <= v@.len(),
            out@.len() == i,
            forall|k: int| 0 <= k < i ==> (#[trigger] out@[k])@ == v@[k]@,
        decreases v@.len() - i,
    {
        out.push(v[i].clone());
        i = i + 1;
    }
    assert(out@.map_values(|x: NetworkInterfaceInfo| x@) =~= v@.map_values(|x: NetworkInterfaceInfo| x@));
    out
}

/// One storage volume.
#[derive(Debug)]
pub struct DriveInfo {
    pub root: String,
    pub kind: String,
    pub total_bytes: Option<u64>,
    pub free_bytes: Option<u64>,
    pub used_bytes: Option<u64>,
    pub percent_used: Option<Real>,
}

/// [`DriveInfo`] taken by its views.
#[verifier::ext_equal]
pub struct DriveInfoView {
    pub root: Seq<char>,
    pub kind: Seq<char>,
    pub total_bytes: Option<u64>,
    pub free_bytes: Option<u64>,
    pub used_bytes: Option<u64>,
    pub percent_used: Option<Real>,
}

impl View for DriveInfo {
    type V = DriveInfoView;

    open spec fn view(&self) -> DriveInfoView {
        DriveInfoView {
            root: self.root@,
            kind: self.kind@,
            total_bytes: self.total_bytes,
            free_bytes: self.free_bytes,
            used_bytes: self.used_bytes,
            percent_used: self.percent_used,
        }
    }
}

impl Clone for DriveInfo {
    fn clone(&self) -> (r: Self)
        ensures
            r@ == self@,
            r == *self,
    {
        DriveInfo {
            root: self.root.clone(),
            kind: self.kind.clone(),
            total_bytes: self.total_bytes,
            free_bytes: self.free_bytes,
            used_bytes: self.used_bytes,
            percent_used: self.percent_used,
        }
    }
}

/// The same items again.
pub fn copy_drive_infos(v: &Vec<DriveInfo>) -> (r: Vec<DriveInfo>)
    ensures
        r@.map_values(|x: DriveInfo| x@) == v@.map_values(|x: DriveInfo| x@),
{
    let mut out: Vec<DriveInfo> = Vec::new();
    let mut i: usize = 0;
    while i < v.len()
        invariant
            i <= v@.len(),
            out@.len() == i,
            forall|k: int| 0 <= k < i ==> (#[trigger] out@[k])@ == v@[k]@,
        decreases v@.len() - i,
    {
        out.push(v[i].clone());
        i = i + 1;
    }
    assert(out@.map_values(|x: DriveInfo| x@) =~= v@.map_values(|x: DriveInfo| x@));
    out
}

/// The space on the volume that holds a path.
#[derive(Debug)]
pub struct DiskUsage {
    pub path: String,
    pub total_bytes: Option<u64>,
    pub free_bytes: Option<u64>,
    pub used_bytes: Option<u64>,
    pub percent_used: Option<Real>,
}

/// [`DiskUsage`] taken by its views.
#[verifier::ext_equal]
pub struct DiskUsageView {
    pub path: Seq<char>,
    pub total_bytes: Option<u64>,
    pub free_bytes: Option<u64>,
    pub used_bytes: Option<u64>,
    pub percent_used: Option<Real>,
}

impl View for DiskUsage {
    type V = DiskUsageView;

    open spec fn view(&self) -> DiskUsageView {
        DiskUsageView {
            path: self.path@,
            total_bytes: self.total_bytes,
            free_bytes: self.free_bytes,
            used_bytes: self.used_bytes,
            percent_used: self.percent_used,
        }
    }
}

impl Clone for DiskUsage {
    fn clone(&self) -> (r: Self)
        ensures
            r@ == self@,
            r == *self,
    {
        DiskUsage {
            path: self.path.clone(),
            total_bytes: self.total_bytes,
            free_bytes: self.free_bytes,
            used_bytes: self.used_bytes,
            percent_used: self.percent_used,
        }
    }
}

/// One service.
#[derive(Debug)]
pub struct ServiceInfo {
    pub name: String,
    pub display_name: String,
    pub state: String,
    pub service_type: String,
    pub process_id: Option<u32>,
    pub win32_exit_code: Option<u32>,
    pub start_type: Option<String>,
    pub binary_path: Option<String>,
    pub service_start_name: Option<String>,
}

/// [`ServiceInfo`] taken by its views.
#[verifier::ext_equal]
pub struct ServiceInfoView {
    pub name: Seq<char>,
    pub display_name: Seq<char>,
    pub state: Seq<char>,
    pub service_type: Seq<char>,
    pub process_id: Option<u32>,
    pub win32_exit_code: Option<u32>,
    pub start_type: Option<Seq<char>>,
    pub binary_path: Option<Seq<char>>,
    pub service_start_name: Option<Seq<char>>,
}

impl View for ServiceInfo {
    type V = ServiceInfoView;

    open spec fn view(&self) -> ServiceInfoView {
        ServiceInfoView {
            name: self.name@,
            display_name: self.display_name@,
            state: self.state@,
            service_type: self.service_type@,
            process_id: self.process_id,
            win32_exit_code: self.win32_exit_code,
            start_type: opt_view(self.start_type),
            binary_path: opt_view(self.binary_path),
            service_start_name: opt_view(self.service_start_name),
        }
    }
}

impl Clone for ServiceInfo {
    fn clone(&self) -> (r: Self)
        ensures
            r@ == self@,
            r == *self,
    {
        ServiceInfo {
            name: self.name.clone(),
            display_name: self.display_name.clone(),
            state: self.state.clone(),
            service_type: self.service_type.clone(),
            process_id: self.process_id,
            win32_exit_code: self.win32_exit_code,
            start_type: self.start_type.clone(),
            binary_path: self.binary_path.clone(),
            service_start_name: self.service_start_name.clone(),
        }
    }
}

/// What the registry says of the system.
#[derive(Debug)]
pub struct SystemIdentity {
    pub product_name: Option<String>,
    pub display_version: Option<String>,
    pub current_version: Option<String>,
    pub current_build: Option<String>,
    pub ubr: Option<String>,
    pub install_date: Option<String>,
    pub edition_id: Option<String>,
    pub build_lab_ex: Option<String>,
}

/// [`SystemIdentity`] taken by its views.
#[verifier::ext_equal]
pub struct SystemIdentityView {
    pub product_name: Option<Seq<char>>,
    pub display_version: Option<Seq<char>>,
    pub current_version: Option<Seq<char>>,
    pub current_build: Option<Seq<char>>,
    pub ubr: Option<Seq<char>>,
    pub install_date: Option<Seq<char>>,
    pub edition_id: Option<Seq<char>>,
    pub build_lab_ex: Option<Seq<char>>,
}

impl View for SystemIdentity {
    type V = SystemIdentityView;

    open spec fn view(&self) -> SystemIdentityView {
        SystemIdentityView {
            product_name: opt_view(self.product_name),
            display_version: opt_view(self.display_version),
            current_version: opt_view(self.current_version),
            current_build: opt_view(self.current_build),
            ubr: opt_view(self.ubr),
            install_date: opt_view(self.install_date),
            edition_id: opt_view(self.edition_id),
            build_lab_ex: opt_view(self.build_lab_ex),
        }
    }
}

impl Clone for SystemIdentity {
    fn clone(&self) -> (r: Self)
        ensures
            r@ == self@,
            r == *self,
    {
        SystemIdentity {
            product_name: self.product_name.clone(),
            display_version: self.display_version.clone(),
            current_version: self.current_version.clone(),
            current_build: self.current_build.clone(),
            ubr: self.ubr.clone(),
            install_date: self.install_date.clone(),
            edition_id: self.edition_id.clone(),
            build_lab_ex: self.build_lab_ex.clone(),
        }
    }
}

/// One program that starts with the machine.
#[derive(Debug)]
pub struct StartupProgram {
    pub name: String,
    pub command: String,
    pub scope: String,
    pub source_key: String,
    pub enabled: bool,
    pub entry_type: String,
    pub hidden: bool,
    pub impact: String,
    pub impact_reasons: Vec<String>,
}

/// [`StartupProgram`] taken by its views.
#[verifier::ext_equal]
pub struct StartupProgramView {
    pub name: Seq<char>,
    pub command: Seq<char>,
    pub scope: Seq<char>,
    pub source_key: Seq<char>,
    pub enabled: bool,
    pub entry_type: Seq<char>,
    pub hidden: bool,
    pub impact: Seq<char>,
    pub impact_reasons: Seq<Seq<char>>,
}

impl View for StartupProgram {
    type V = StartupProgramView;

    open spec fn view(&self) -> StartupProgramView {
        StartupProgramView {
            name: self.name@,
            command: self.command@,
            scope: self.scope@,
            source_key: self.source_key@,
            enabled: self.enabled,
            entry_type: self.entry_type@,
            hidden: self.hidden,
            impact: self.impact@,
            impact_reasons: views(self.impact_reasons@),
        }
    }
}

impl Clone for StartupProgram {
    fn clone(&self) -> (r: Self)
        ensures
            r@ == self@,
    {
        StartupProgram {
            name: self.name.clone(),
            command: self.command.clone(),
            scope: self.scope.clone(),
            source_key: self.source_key.clone(),
            enabled: self.enabled,
            entry_type: self.entry_type.clone(),
            hidden: self.hidden,
            impact: self.impact.clone(),
            impact_reasons: copy_texts(&self.impact_reasons),
        }
    }
}

/// The same items again.
pub fn copy_startup_programs(v: &Vec<StartupProgram>) -> (r: Vec<StartupProgram>)
    ensures
        r@.map_values(|x: StartupProgram| x@) == v@.map_values(|x: StartupProgram| x@),
{
    let mut out: Vec<StartupProgram> = Vec::new();
    let mut i: usize = 0;
    while i < v.len()
        invariant
            i <= v@.len(),
            out@.len() == i,
            forall|k: int| 0 <= k < i ==> (#[trigger] out@[k])@ == v@[k]@,
        decreases v@.len() - i,
    {
        out.push(v[i].clone());
        i = i + 1;
    }
    assert(out@.map_values(|x: StartupProgram| x@) =~= v@.map_values(|x: StartupProgram| x@));
    out
}

/// One installed program.
#[derive(Debug)]
pub struct InstalledSoftware {
    pub name: String,
    pub version: Option<String>,
    pub publisher: Option<String>,
    pub install_date: Option<String>,
}

/// [`InstalledSoftware`] taken by its views.
#[verifier::ext_equal]
pub struct InstalledSoftwareView {
    pub name: Seq<char>,
    pub version: Option<Seq<char>>,
    pub publisher: Option<Seq<char>>,
    pub install_date: Option<Seq<char>>,
}

impl View for InstalledSoftware {
    type V = InstalledSoftwareView;

    open spec fn view(&self) -> InstalledSoftwareView {
        InstalledSoftwareView {
            name: self.name@,
            version: opt_view(self.version),
            publisher: opt_view(self.publisher),
            install_date: opt_view(self.install_date),
        }
    }
}

impl Clone for InstalledSoftware {
    fn clone(&self) -> (r: Self)
        ensures
            r@ == self@,
            r == *self,
    {
        InstalledSoftware {
            name: self.name.clone(),
            version: self.version.clone(),
            publisher: self.publisher.clone(),
            install_date: self.install_date.clone(),
        }
    }
}

/// The same items again.
pub fn copy_installed_software(v: &Vec<InstalledSoftware>) -> (r: Vec<InstalledSoftware>)
    ensures
        r@.map_values(|x: InstalledSoftware| x@) == v@.map_values(|x: InstalledSoftware| x@),
{
    let mut out: Vec<InstalledSoftware> = Vec::new();
    let mut i: usize = 0;
    while i < v.len()
        invariant
            i <= v@.len(),
            out@.len() == i,
            forall|k: int| 0 <= k < i ==> (#[trigger] out@[k])@ == v@[k]@,
        decreases v@.len() - i,
    {
        out.push(v[i].clone());
        i = i + 1;
    }
    assert(out@.map_values(|x: InstalledSoftware| x@) =~= v@.map_values(|x: InstalledSoftware| x@));
    out
}

/// How many entries the registry listings have.
#[derive(Debug)]
pub struct RegistryCounts {
    pub startup_programs: usize,
    pub installed_software: usize,
}

/// [`RegistryCounts`] taken by its views.
#[verifier::ext_equal]
pub struct RegistryCountsView {
    pub startup_programs: usize,
    pub installed_software: usize,
}

impl View for RegistryCounts {
    type V = RegistryCountsView;

    open spec fn view(&self) -> RegistryCountsView {
        RegistryCountsView {
            startup_programs: self.startup_programs,
            installed_software: self.installed_software,
        }
    }
}

impl Clone for RegistryCounts {
    fn clone(&self) -> (r: Self)
        ensures
            r@ == self@,
            r == *self,
    {
        RegistryCounts {
            startup_programs: self.startup_programs,
            installed_software: self.installed_software,
        }
    }
}

/// What was read from the allowed registry keys.
#[derive(Debug)]
pub struct RegistryDiagnostics {
    pub system_identity: SystemIdentity,
    pub startup_programs: Vec<StartupProgram>,
    pub installed_software: Vec<InstalledSoftware>,
    pub counts: RegistryCounts,
    pub warnings: Vec<String>,
}

/// [`RegistryDiagnostics`] taken by its views.
#[verifier::ext_equal]
pub struct RegistryDiagnosticsView {
    pub system_identity: SystemIdentityView,
    pub startup_programs: Seq<StartupProgramView>,
    pub installed_software: Seq<InstalledSoftwareView>,
    pub counts: RegistryCountsView,
    pub warnings: Seq<Seq<char>>,
}

impl View for RegistryDiagnostics {
    type V = RegistryDiagnosticsView;

    open spec fn view(&self) -> RegistryDiagnosticsView {
        RegistryDiagnosticsView {
            system_identity: self.system_identity@,
            startup_programs: self.startup_programs@.map_values(|x: StartupProgram| x@),
            installed_software: self.installed_software@.map_values(|x: InstalledSoftware| x@),
            counts: self.counts@,
            warnings: views(self.warnings@),
        }
    }
}

impl Clone for RegistryDiagnostics {
    fn clone(&self) -> (r: Self)
        ensures
            r@ == self@,
    {
        RegistryDiagnostics {
            system_identity: self.system_identity.clone(),
            startup_programs: copy_startup_programs(&self.startup_programs),
            installed_software: copy_installed_software(&self.installed_software),
            counts: self.counts.clone(),
            warnings: copy_texts(&self.warnings),
        }
    }
}

/// The state of one wireless adapter.
#[derive(Debug)]
pub struct WifiAdapterStatus {
    pub adapter_id: String,
    pub description: String,
    pub state: String,
    pub ssid: Option<String>,
    pub signal_percent: Option<u32>,
    pub rssi_dbm: Option<i32>,
    pub link_speed_mbps: Option<Real>,
    pub channel: Option<u32>,
    pub frequency_mhz: Option<u32>,
    pub band: Option<String>,
    pub authentication: Option<String>,
    pub cipher: Option<String>,
    pub is_up: bool,
}

/// [`WifiAdapterStatus`] taken by its views.
#[verifier::ext_equal]
pub struct WifiAdapterStatusView {
    pub adapter_id: Seq<char>,
    pub description: Seq<char>,
    pub state: Seq<char>,
    pub ssid: Option<Seq<char>>,
    pub signal_percent: Option<u32>,
    pub rssi_dbm: Option<i32>,
    pub link_speed_mbps: Option<Real>,
    pub channel: Option<u32>,
    pub frequency_mhz: Option<u32>,
    pub band: Option<Seq<char>>,
    pub authentication: Option<Seq<char>>,
    pub cipher: Option<Seq<char>>,
    pub is_up: bool,
}

impl View for WifiAdapterStatus {
    type V = WifiAdapterStatusView;

    open spec fn view(&self) -> WifiAdapterStatusView {
        WifiAdapterStatusView {
            adapter_id: self.adapter_id@,
            description: self.description@,
            state: self.state@,
            ssid: opt_view(self.ssid),
            signal_percent: self.signal_percent,
            rssi_dbm: self.rssi_dbm,
            link_speed_mbps: self.link_speed_mbps,
            channel: self.channel,
            frequency_mhz: self.frequency_mhz,
            band: opt_view(self.band),
            authentication: opt_view(self.authentication),
            cipher: opt_view(self.cipher),
            is_up: self.is_up,
        }
    }
}

impl Clone for WifiAdapterStatus {
    fn clone(&self) -> (r: Self)
        ensures
            r@ == self@,
            r == *self,
    {
        WifiAdapterStatus {
            adapter_id: self.adapter_id.clone(),
            description: self.description.clone(),
            state: self.state.clone(),
            ssid: self.ssid.clone(),
            signal_percent: self.signal_percent,
            rssi_dbm: self.rssi_dbm,
            link_speed_mbps: self.link_speed_mbps,
            channel: self.channel,
            frequency_mhz: self.frequency_mhz,
            band: self.band.clone(),
            authentication: self.authentication.clone(),
            cipher: self.cipher.clone(),
            is_up: self.is_up,
        }
    }
}

/// The same items again.
pub fn copy_wifi_adapters(v: &Vec<WifiAdapterStatus>) -> (r: Vec<WifiAdapterStatus>)
    ensures
        r@.map_values(|x: WifiAdapterStatus| x@) == v@.map_values(|x: WifiAdapterStatus| x@),
{
    let mut out: Vec<WifiAdapterStatus> = Vec::new();
    let mut i: usize = 0;
    while i < v.len()
        invariant
            i <= v@.len(),
            out@.len() == i,
            forall|k: int| 0 <= k < i ==> (#[trigger] out@[k])@ == v@[k]@,
        decreases v@.len() - i,
    {
        out.push(v[i].clone());
        i = i + 1;
    }
    assert(out@.map_values(|x: WifiAdapterStatus| x@) =~= v@.map_values(|x: WifiAdapterStatus| x@));
    out
}

/// One entry of the search path.
#[derive(Debug)]
pub struct PathEntry {
    pub raw: String,
    pub expanded: String,
    pub exists: bool,
    pub scopes: Vec<String>,
}

/// [`PathEntry`] taken by its views.
#[verifier::ext_equal]
pub struct PathEntryView {
    pub raw: Seq<char>,
    pub expanded: Seq<char>,
    pub exists: bool,
    pub scopes: Seq<Seq<char>>,
}

impl View for PathEntry {
    type V = PathEntryView;

    open spec fn view(&self) -> PathEntryView {
        PathEntryView {
            raw: self.raw@,
            expanded: self.expanded@,
            exists: self.exists,
            scopes: views(self.scopes@),
        }
    }
}

impl Clone for PathEntry {
    fn clone(&self) -> (r: Self)
        ensures
            r@ == self@,
    {
        PathEntry {
            raw: self.raw.clone(),
            expanded: self.expanded.clone(),
            exists: self.exists,
            scopes: copy_texts(&self.scopes),
        }
    }
}

/// The same items again.
pub fn copy_path_entries(v: &Vec<PathEntry>) -> (r: Vec<PathEntry>)
    ensures
        r@.map_values(|x: PathEntry| x@) == v@.map_values(|x: PathEntry| x@),
{
    let mut out: Vec<PathEntry> = Vec::new();
    let mut i: usize = 0;
    while i < v.len()
        invariant
            i <= v@.len(),
            out@.len() == i,
            forall|k: int| 0 <= k < i ==> (#[trigger] out@[k])@ == v@[k]@,
        decreases v@.len() - i,
    {
        out.push(v[i].clone());
        i = i + 1;
    }
    assert(out@.map_values(|x: PathEntry| x@) =~= v@.map_values(|x: PathEntry| x@));
    out
}

/// What is wrong with the search path.
#[derive(Debug)]
pub struct PathAudit {
    pub process_entries: Vec<PathEntry>,
    pub machine_path_available: bool,
    pub user_path_available: bool,
    pub duplicate_indexes: Vec<usize>,
    pub empty_indexes: Vec<usize>,
    pub missing_indexes: Vec<usize>,
    pub issues: Vec<String>,
    pub total_entries: usize,
}

/// [`PathAudit`] taken by its views.
#[verifier::ext_equal]
pub struct PathAuditView {
    pub process_entries: Seq<PathEntryView>,
    pub machine_path_available: bool,
    pub user_path_available: bool,
    pub duplicate_indexes: Seq<usize>,
    pub empty_indexes: Seq<usize>,
    pub missing_indexes: Seq<usize>,
    pub issues: Seq<Seq<char>>,
    pub total_entries: usize,
}

impl View for PathAudit {
    type V = PathAuditView;

    open spec fn view(&self) -> PathAuditView {
        PathAuditView {
            process_entries: self.process_entries@.map_values(|x: PathEntry| x@),
            machine_path_available: self.machine_path_available,
            user_path_available: self.user_path_available,
            duplicate_indexes: self.duplicate_indexes@,
            empty_indexes: self.empty_indexes@,
            missing_indexes: self.missing_indexes@,
            issues: views(self.issues@),
            total_entries: self.total_entries,
        }
    }
}

impl Clone for PathAudit {
    fn clone(&self) -> (r: Self)
        ensures
            r@ == self@,
    {
        PathAudit {
            process_entries: copy_path_entries(&self.process_entries),
            machine_path_available: self.machine_path_available,
            user_path_available: self.user_path_available,
            duplicate_indexes: copy_numbers(&self.duplicate_indexes),
            empty_indexes: copy_numbers(&self.empty_indexes),
            missing_indexes: copy_numbers(&self.missing_indexes),
            issues: copy_texts(&self.issues),
            total_entries: self.total_entries,
        }
    }
}

/// One installed update.
#[derive(Debug)]
pub struct Hotfix {
    pub hotfix_id: String,
    pub description: Option<String>,
    pub installed_on: Option<String>,
}

/// [`Hotfix`] taken by its views.
#[verifier::ext_equal]
pub struct HotfixView {
    pub hotfix_id: Seq<char>,
    pub description: Option<Seq<char>>,
    pub installed_on: Option<Seq<char>>,
}

impl View for Hotfix {
    type V = HotfixView;

    open spec fn view(&self) -> HotfixView {
        HotfixView {
            hotfix_id: self.hotfix_id@,
            description: opt_view(self.description),
            installed_on: opt_view(self.installed_on),
        }
    }
}

impl Clone for Hotfix {
    fn clone(&self) -> (r: Self)
        ensures
            r@ == self@,
            r == *self,
    {
        Hotfix {
            hotfix_id: self.hotfix_id.clone(),
            description: self.description.clone(),
            installed_on: self.installed_on.clone(),
        }
    }
}

/// The same items again.
pub fn copy_hotfixes(v: &Vec<Hotfix>) -> (r: Vec<Hotfix>)
    ensures
        r@.map_values(|x: Hotfix| x@) == v@.map_values(|x: Hotfix| x@),
{
    let mut out: Vec<Hotfix> = Vec::new();
    let mut i: usize = 0;
    while i < v.len()
        invariant
            i <= v@.len(),
            out@.len() == i,
            forall|k: int| 0 <= k < i ==> (#[trigger] out@[k])@ == v@[k]@,
        decreases v@.len() - i,
    {
        out.push(v[i].clone());
        i = i + 1;
    }
    assert(out@.map_values(|x: Hotfix| x@) =~= v@.map_values(|x: Hotfix| x@));
    out
}

/// Whether updates are pending or installed.
#[derive(Debug)]
pub struct UpdateStatus {
    pub reboot_pending: bool,
    pub reboot_signals: Vec<String>,
    pub hotfixes: Vec<Hotfix>,
    pub total_hotfixes_reported: usize,
    pub unavailable: Vec<String>,
}

/// [`UpdateStatus`] taken by its views.
#[verifier::ext_equal]
pub struct UpdateStatusView {
    pub reboot_pending: bool,
    pub reboot_signals: Seq<Seq<char>>,
    pub hotfixes: Seq<HotfixView>,
    pub total_hotfixes_reported: usize,
    pub unavailable: Seq<Seq<char>>,
}

impl View for UpdateStatus {
    type V = UpdateStatusView;

    open spec fn view(&self) -> UpdateStatusView {
        UpdateStatusView {
            reboot_pending: self.reboot_pending,
            reboot_signals: views(self.reboot_signals@),
            hotfixes: self.hotfixes@.map_values(|x: Hotfix| x@),
            total_hotfixes_reported: self.total_hotfixes_reported,
            unavailable: views(self.unavailable@),
        }
    }
}

impl Clone for UpdateStatus {
    fn clone(&self) -> (r: Self)
        ensures
            r@ == self@,
    {
        UpdateStatus {
            reboot_pending: self.reboot_pending,
            reboot_signals: copy_texts(&self.reboot_signals),
            hotfixes: copy_hotfixes(&self.hotfixes),
            total_hotfixes_reported: self.total_hotfixes_reported,
            unavailable: copy_texts(&self.unavailable),
        }
    }
}

/// The processes of one application.
#[derive(Debug)]
pub struct ApplicationGroupInfo {
    pub name: String,
    pub display_name: String,
    pub process_count: usize,
    pub tree_process_count: usize,
    pub total_working_set_bytes: u64,
    pub own_working_set_bytes: u64,
    pub cpu_percent: Option<Real>,
    pub cpu_percent_basis: String,
    pub cpu_percent_sample_ms: u64,
    pub status: String,
}

/// [`ApplicationGroupInfo`] taken by its views.
#[verifier::ext_equal]
pub struct ApplicationGroupInfoView {
    pub name: Seq<char>,
    pub display_name: Seq<char>,
    pub process_count: usize,
    pub tree_process_count: usize,
    pub total_working_set_bytes: u64,
    pub own_working_set_bytes: u64,
    pub cpu_percent: Option<Real>,
    pub cpu_percent_basis: Seq<char>,
    pub cpu_percent_sample_ms: u64,
    pub status: Seq<char>,
}

impl View for ApplicationGroupInfo {
    type V = ApplicationGroupInfoView;

    open spec fn view(&self) -> ApplicationGroupInfoView {
        ApplicationGroupInfoView {
            name: self.name@,
            display_name: self.display_name@,
            process_count: self.process_count,
            tree_process_count: self.tree_process_count,
            total_working_set_bytes: self.total_working_set_bytes,
            own_working_set_bytes: self.own_working_set_bytes,
            cpu_percent: self.cpu_percent,
            cpu_percent_basis: self.cpu_percent_basis@,
            cpu_percent_sample_ms: self.cpu_percent_sample_ms,
            status: self.status@,
        }
    }
}

impl Clone for ApplicationGroupInfo {
    fn clone(&self) -> (r: Self)
        ensures
            r@ == self@,
            r == *self,
    {
        ApplicationGroupInfo {
            name: self.name.clone(),
            display_name: self.display_name.clone(),
            process_count: self.process_count,
            tree_process_count: self.tree_process_count,
            total_working_set_bytes: self.total_working_set_bytes,
            own_working_set_bytes: self.own_working_set_bytes,
            cpu_percent: self.cpu_percent,
            cpu_percent_basis: self.cpu_percent_basis.clone(),
            cpu_percent_sample_ms: self.cpu_percent_sample_ms,
            status: self.status.clone(),
        }
    }
}

/// One development tool.
#[derive(Debug)]
pub struct DevTool {
    pub name: String,
    pub found: bool,
    pub path: Option<String>,
    pub version: Option<String>,
    pub version_reason: Option<String>,
}

/// [`DevTool`] taken by its views.
#[verifier::ext_equal]
pub struct DevToolView {
    pub name: Seq<char>,
    pub found: bool,
    pub path: Option<Seq<char>>,
    pub version: Option<Seq<char>>,
    pub version_reason: Option<Seq<char>>,
}

impl View for DevTool {
    type V = DevToolView;

    open spec fn view(&self) -> DevToolView {
        DevToolView {
            name: self.name@,
            found: self.found,
            path: opt_view(self.path),
            version: opt_view(self.version),
            version_reason: opt_view(self.version_reason),
        }
    }
}

impl Clone for DevTool {
    fn clone(&self) -> (r: Self)
        ensures
            r@ == self@,
            r == *self,
    {
        DevTool {
            name: self.name.clone(),
            found: self.found,
            path: self.path.clone(),
            version: self.version.clone(),
            version_reason: self.version_reason.clone(),
        }
    }
}

/// The same items again.
pub fn copy_dev_tools(v: &Vec<DevTool>) -> (r: Vec<DevTool>)
    ensures
        r@.map_values(|x: DevTool| x@) == v@.map_values(|x: DevTool| x@),
{
    let mut out: Vec<DevTool> = Vec::new();
    let mut i: usize = 0;
    while i < v.len()
        invariant
            i <= v@.len(),
            out@.len() == i,
            forall|k: int| 0 <= k < i ==> (#[trigger] out@[k])@ == v@[k]@,
        decreases v@.len() - i,
    {
        out.push(v[i].clone());
        i = i + 1;
    }
    assert(out@.map_values(|x: DevTool| x@) =~= v@.map_values(|x: DevTool| x@));
    out
}

/// One development server.
#[derive(Debug)]
pub struct DevServerInfo {
    pub port: u16,
    pub pid: Option<u32>,
    pub process_name: Option<String>,
}

/// [`DevServerInfo`] taken by its views.
#[verifier::ext_equal]
pub struct DevServerInfoView {
    pub port: u16,
    pub pid: Option<u32>,
    pub process_name: Option<Seq<char>>,
}

impl View for DevServerInfo {
    type V = DevServerInfoView;

    open spec fn view(&self) -> DevServerInfoView {
        DevServerInfoView {
            port: self.port,
            pid: self.pid,
            process_name: opt_view(self.process_name),
        }
    }
}

impl Clone for DevServerInfo {
    fn clone(&self) -> (r: Self)
        ensures
            r@ == self@,
            r == *self,
    {
        DevServerInfo {
            port: self.port,
            pid: self.pid,
            process_name: self.process_name.clone(),
        }
    }
}

/// The same items again.
pub fn copy_dev_server_infos(v: &Vec<DevServerInfo>) -> (r: Vec<DevServerInfo>)
    ensures
        r@.map_values(|x: DevServerInfo| x@) == v@.map_values(|x: DevServerInfo| x@),
{
    let mut out: Vec<DevServerInfo> = Vec::new();
    let mut i: usize = 0;
    while i < v.len()
        invariant
            i <= v@.len(),
            out@.len() == i,
            forall|k: int| 0 <= k < i ==> (#[trigger] out@[k])@ == v@[k]@,
        decreases v@.len() - i,
    {
        out.push(v[i].clone());
        i = i + 1;
    }
    assert(out@.map_values(|x: DevServerInfo| x@) =~= v@.map_values(|x: DevServerInfo| x@));
    out
}

/// The development tools and servers of the machine.
#[derive(Debug)]
pub struct DevEnvironment {
    pub tools: Vec<DevTool>,
    pub development_servers: Vec<DevServerInfo>,
}

/// [`DevEnvironment`] taken by its views.
#[verifier::ext_equal]
pub struct DevEnvironmentView {
    pub tools: Seq<DevToolView>,
    pub development_servers: Seq<DevServerInfoView>,
}

impl View for DevEnvironment {
    type V = DevEnvironmentView;

    open spec fn view(&self) -> DevEnvironmentView {
        DevEnvironmentView {
            tools: self.tools@.map_values(|x: DevTool| x@),
            development_servers: self.development_servers@.map_values(|x: DevServerInfo| x@),
        }
    }
}

impl Clone for DevEnvironment {
    fn clone(&self) -> (r: Self)
        ensures
            r@ == self@,
    {
        DevEnvironment {
            tools: copy_dev_tools(&self.tools),
            development_servers: copy_dev_server_infos(&self.development_servers),
        }
    }
}

/// One row of a process snapshot.
#[derive(Debug)]
pub struct ProcessEntry {
    pub pid: u32,
    pub ppid: Option<u32>,
    pub name: String,
    pub threads: u32,
    pub priority: i32,
}

/// [`ProcessEntry`] taken by its views.
#[verifier::ext_equal]
pub struct ProcessEntryView {
    pub pid: u32,
    pub ppid: Option<u32>,
    pub name: Seq<char>,
    pub threads: u32,
    pub priority: i32,
}

impl View for ProcessEntry {
    type V = ProcessEntryView;

    open spec fn view(&self) -> ProcessEntryView {
        ProcessEntryView {
            pid: self.pid,
            ppid: self.ppid,
            name: self.name@,
            threads: self.threads,
            priority: self.priority,
        }
    }
}

impl Clone for ProcessEntry {
    fn clone(&self) -> (r: Self)
        ensures
            r@ == self@,
            r == *self,
    {
        ProcessEntry {
            pid: self.pid,
            ppid: self.ppid,
            name: self.name.clone(),
            threads: self.threads,
            priority: self.priority,
        }
    }
}

/// The processor.
#[derive(Debug)]
pub struct CpuHardwareInfo {
    pub name: Option<String>,
    pub vendor: Option<String>,
    pub family: Option<u32>,
    pub model: Option<u32>,
    pub stepping: Option<u32>,
    pub cores: Option<u32>,
    pub logical_processors: Option<u32>,
    pub base_clock_mhz: Option<Real>,
    pub current_clock_mhz: Option<Real>,
    pub utilization_percent: Option<Real>,
    pub package_temperature_c: Option<Real>,
    pub temperature_source: Option<String>,
}

/// [`CpuHardwareInfo`] taken by its views.
#[verifier::ext_equal]
pub struct CpuHardwareInfoView {
    pub name: Option<Seq<char>>,
    pub vendor: Option<Seq<char>>,
    pub family: Option<u32>,
    pub model: Option<u32>,
    pub stepping: Option<u32>,
    pub cores: Option<u32>,
    pub logical_processors: Option<u32>,
    pub base_clock_mhz: Option<Real>,
    pub current_clock_mhz: Option<Real>,
    pub utilization_percent: Option<Real>,
    pub package_temperature_c: Option<Real>,
    pub temperature_source: Option<Seq<char>>,
}

impl View for CpuHardwareInfo {
    type V = CpuHardwareInfoView;

    open spec fn view(&self) -> CpuHardwareInfoView {
        CpuHardwareInfoView {
            name: opt_view(self.name),
            vendor: opt_view(self.vendor),
            family: self.family,
            model: self.model,
            stepping: self.stepping,
            cores: self.cores,
            logical_processors: self.logical_processors,
            base_clock_mhz: self.base_clock_mhz,
            current_clock_mhz: self.current_clock_mhz,
            utilization_percent: self.utilization_percent,
            package_temperature_c: self.package_temperature_c,
            temperature_source: opt_view(self.temperature_source),
        }
    }
}

impl Clone for CpuHardwareInfo {
    fn clone(&self) -> (r: Self)
        ensures
            r@ == self@,
            r == *self,
    {
        CpuHardwareInfo {
            name: self.name.clone(),
            vendor: self.vendor.clone(),
            family: self.family,
            model: self.model,
            stepping: self.stepping,
            cores: self.cores,
            logical_processors: self.logical_processors,
            base_clock_mhz: self.base_clock_mhz,
            current_clock_mhz: self.current_clock_mhz,
            utilization_percent: self.utilization_percent,
            package_temperature_c: self.package_temperature_c,
            temperature_source: self.temperature_source.clone(),
        }
    }
}

/// One graphics device.
#[derive(Debug)]
pub struct GpuHardwareInfo {
    pub name: Option<String>,
    pub vendor: String,
    pub driver_version: Option<String>,
    pub video_memory_bytes: Option<u64>,
    pub temperature_available: bool,
    pub temperature_c: Option<Real>,
    pub temperature_reason: Option<String>,
}

/// [`GpuHardwareInfo`] taken by its views.
#[verifier::ext_equal]
pub struct GpuHardwareInfoView {
    pub name: Option<Seq<char>>,
    pub vendor: Seq<char>,
    pub driver_version: Option<Seq<char>>,
    pub video_memory_bytes: Option<u64>,
    pub temperature_available: bool,
    pub temperature_c: Option<Real>,
    pub temperature_reason: Option<Seq<char>>,
}

impl View for GpuHardwareInfo {
    type V = GpuHardwareInfoView;

    open spec fn view(&self) -> GpuHardwareInfoView {
        GpuHardwareInfoView {
            name: opt_view(self.name),
            vendor: self.vendor@,
            driver_version: opt_view(self.driver_version),
            video_memory_bytes: self.video_memory_bytes,
            temperature_available: self.temperature_available,
            temperature_c: self.temperature_c,
            temperature_reason: opt_view(self.temperature_reason),
        }
    }
}

impl Clone for GpuHardwareInfo {
    fn clone(&self) -> (r: Self)
        ensures
            r@ == self@,
            r == *self,
    {
        GpuHardwareInfo {
            name: self.name.clone(),
            vendor: self.vendor.clone(),
            driver_version: self.driver_version.clone(),
            video_memory_bytes: self.video_memory_bytes,
            temperature_available: self.temperature_available,
            temperature_c: self.temperature_c,
            temperature_reason: self.temperature_reason.clone(),
        }
    }
}

/// The same items again.
pub fn copy_gpu_hardware_infos(v: &Vec<GpuHardwareInfo>) -> (r: Vec<GpuHardwareInfo>)
    ensures
        r@.map_values(|x: GpuHardwareInfo| x@) == v@.map_values(|x: GpuHardwareInfo| x@),
{
    let mut out: Vec<GpuHardwareInfo> = Vec::new();
    let mut i: usize = 0;
    while i < v.len()
        invariant
            i <= v@.len(),
            out@.len() == i,
            forall|k: int| 0 <= k < i ==> (#[trigger] out@[k])@ == v@[k]@,
        decreases v@.len() - i,
    {
        out.push(v[i].clone());
        i = i + 1;
    }
    assert(out@.map_values(|x: GpuHardwareInfo| x@) =~= v@.map_values(|x: GpuHardwareInfo| x@));
    out
}

/// The memory modules.
#[derive(Debug)]
pub struct MemoryHardwareInfo {
    pub total_bytes: Option<u64>,
    pub module_count: Option<u32>,
}

/// [`MemoryHardwareInfo`] taken by its views.
#[verifier::ext_equal]
pub struct MemoryHardwareInfoView {
    pub total_bytes: Option<u64>,
    pub module_count: Option<u32>,
}

impl View for MemoryHardwareInfo {
    type V = MemoryHardwareInfoView;

    open spec fn view(&self) -> MemoryHardwareInfoView {
        MemoryHardwareInfoView {
            total_bytes: self.total_bytes,
            module_count: self.module_count,
        }
    }
}

impl Clone for MemoryHardwareInfo {
    fn clone(&self) -> (r: Self)
        ensures
            r@ == self@,
            r == *self,
    {
        MemoryHardwareInfo {
            total_bytes: self.total_bytes,
            module_count: self.module_count,
        }
    }
}

/// One storage device.
#[derive(Debug)]
pub struct StorageDeviceInfo {
    pub device: String,
    pub model: Option<String>,
    pub interface: String,
    pub capacity_bytes: Option<u64>,
    pub is_system: bool,
}

/// [`StorageDeviceInfo`] taken by its views.
#[verifier::ext_equal]
pub struct StorageDeviceInfoView {
    pub device: Seq<char>,
    pub model: Option<Seq<char>>,
    pub interface: Seq<char>,
    pub capacity_bytes: Option<u64>,
    pub is_system: bool,
}

impl View for StorageDeviceInfo {
    type V = StorageDeviceInfoView;

    open spec fn view(&self) -> StorageDeviceInfoView {
        StorageDeviceInfoView {
            device: self.device@,
            model: opt_view(self.model),
            interface: self.interface@,
            capacity_bytes: self.capacity_bytes,
            is_system: self.is_system,
        }
    }
}

impl Clone for StorageDeviceInfo {
    fn clone(&self) -> (r: Self)
        ensures
            r@ == self@,
            r == *self,
    {
        StorageDeviceInfo {
            device: self.device.clone(),
            model: self.model.clone(),
            interface: self.interface.clone(),
            capacity_bytes: self.capacity_bytes,
            is_system: self.is_system,
        }
    }
}

/// The same items again.
pub fn copy_storage_device_infos(v: &Vec<StorageDeviceInfo>) -> (r: Vec<StorageDeviceInfo>)
    ensures
        r@.map_values(|x: StorageDeviceInfo| x@) == v@.map_values(|x: StorageDeviceInfo| x@),
{
    let mut out: Vec<StorageDeviceInfo> = Vec::new();
    let mut i: usize = 0;
    while i < v.len()
        invariant
            i <= v@.len(),
            out@.len() == i,
            forall|k: int| 0 <= k < i ==> (#[trigger] out@[k])@ == v@[k]@,
        decreases v@.len() - i,
    {
        out.push(v[i].clone());
        i = i + 1;
    }
    assert(out@.map_values(|x: StorageDeviceInfo| x@) =~= v@.map_values(|x: StorageDeviceInfo| x@));
    out
}

/// One network adapter.
#[derive(Debug)]
pub struct NetworkAdapterInfo {
    pub index: u32,
    pub name: String,
    pub description: String,
    pub mac_address: Option<String>,
    pub is_wifi: bool,
    pub is_up: bool,
    pub ipv4_addresses: Vec<String>,
    pub gateway: Option<String>,
}

/// [`NetworkAdapterInfo`] taken by its views.
#[verifier::ext_equal]
pub struct NetworkAdapterInfoView {
    pub index: u32,
    pub name: Seq<char>,
    pub description: Seq<char>,
    pub mac_address: Option<Seq<char>>,
    pub is_wifi: bool,
    pub is_up: bool,
    pub ipv4_addresses: Seq<Seq<char>>,
    pub gateway: Option<Seq<char>>,
}

impl View for NetworkAdapterInfo {
    type V = NetworkAdapterInfoView;

    open spec fn view(&self) -> NetworkAdapterInfoView {
        NetworkAdapterInfoView {
            index: self.index,
            name: self.name@,
            description: self.description@,
            mac_address: opt_view(self.mac_address),
            is_wifi: self.is_wifi,
            is_up: self.is_up,
            ipv4_addresses: views(self.ipv4_addresses@),
            gateway: opt_view(self.gateway),
        }
    }
}

impl Clone for NetworkAdapterInfo {
    fn clone(&self) -> (r: Self)
        ensures
            r@ == self@,
    {
        NetworkAdapterInfo {
            index: self.index,
            name: self.name.clone(),
            description: self.description.clone(),
            mac_address: self.mac_address.clone(),
            is_wifi: self.is_wifi,
            is_up: self.is_up,
            ipv4_addresses: copy_texts(&self.ipv4_addresses),
            gateway: self.gateway.clone(),
        }
    }
}

/// The same items again.
pub fn copy_network_adapter_infos(v: &Vec<NetworkAdapterInfo>) -> (r: Vec<NetworkAdapterInfo>)
    ensures
        r@.map_values(|x: NetworkAdapterInfo| x@) == v@.map_values(|x: NetworkAdapterInfo| x@),
{
    let mut out: Vec<NetworkAdapterInfo> = Vec::new();
    let mut i: usize = 0;
    while i < v.len()
        invariant
            i <= v@.len(),
            out@.len() == i,
            forall|k: int| 0 <= k < i ==> (#[trigger] out@[k])@ == v@[k]@,
        decreases v@.len() - i,
    {
        out.push(v[i].clone());
        i = i + 1;
    }
    assert(out@.map_values(|x: NetworkAdapterInfo| x@) =~= v@.map_values(|x: NetworkAdapterInfo| x@));
    out
}

/// The battery.
#[derive(Debug)]
pub struct BatteryInfo {
    pub present: bool,
    pub percent: Option<u32>,
    pub ac_online: Option<bool>,
    pub charging: Option<bool>,
    pub estimated_time_remaining_seconds: Option<u64>,
}

/// [`BatteryInfo`] taken by its views.
#[verifier::ext_equal]
pub struct BatteryInfoView {
    pub present: bool,
    pub percent: Option<u32>,
    pub ac_online: Option<bool>,
    pub charging: Option<bool>,
    pub estimated_time_remaining_seconds: Option<u64>,
}

impl View for BatteryInfo {
    type V = BatteryInfoView;

    open spec fn view(&self) -> BatteryInfoView {
        BatteryInfoView {
            present: self.present,
            percent: self.percent,
            ac_online: self.ac_online,
            charging: self.charging,
            estimated_time_remaining_seconds: self.estimated_time_remaining_seconds,
        }
    }
}

impl Clone for BatteryInfo {
    fn clone(&self) -> (r: Self)
        ensures
            r@ == self@,
            r == *self,
    {
        BatteryInfo {
            present: self.present,
            percent: self.percent,
            ac_online: self.ac_online,
            charging: self.charging,
            estimated_time_remaining_seconds: self.estimated_time_remaining_seconds,
        }
    }
}

/// Where the power comes from.
#[derive(Debug)]
pub struct PowerStateInfo {
    pub power_source: String,
    pub ac_online: Option<bool>,
    pub battery_present: bool,
    pub battery_percent: Option<u32>,
    pub battery_state: Option<String>,
    pub charging: Option<bool>,
    pub estimated_time_remaining_seconds: Option<u64>,
}

/// [`PowerStateInfo`] taken by its views.
#[verifier::ext_equal]
pub struct PowerStateInfoView {
    pub power_source: Seq<char>,
    pub ac_online: Option<bool>,
    pub battery_present: bool,
    pub battery_percent: Option<u32>,
    pub battery_state: Option<Seq<char>>,
    pub charging: Option<bool>,
    pub estimated_time_remaining_seconds: Option<u64>,
}

impl View for PowerStateInfo {
    type V = PowerStateInfoView;

    open spec fn view(&self) -> PowerStateInfoView {
        PowerStateInfoView {
            power_source: self.power_source@,
            ac_online: self.ac_online,
            battery_present: self.battery_present,
            battery_percent: self.battery_percent,
            battery_state: opt_view(self.battery_state),
            charging: self.charging,
            estimated_time_remaining_seconds: self.estimated_time_remaining_seconds,
        }
    }
}

impl Clone for PowerStateInfo {
    fn clone(&self) -> (r: Self)
        ensures
            r@ == self@,
            r == *self,
    {
        PowerStateInfo {
            power_source: self.power_source.clone(),
            ac_online: self.ac_online,
            battery_present: self.battery_present,
            battery_percent: self.battery_percent,
            battery_state: self.battery_state.clone(),
            charging: self.charging,
            estimated_time_remaining_seconds: self.estimated_time_remaining_seconds,
        }
    }
}

/// One reading of a sensor.
#[derive(Debug)]
pub struct SensorReading {
    pub id: String,
    pub label: String,
    pub class: SensorClass,
    pub kind: SensorKind,
    pub device: String,
    pub value: Option<Real>,
    pub unit: String,
    pub source: SensorSource,
    pub quality: SensorQuality,
    pub min: Option<Real>,
    pub max: Option<Real>,
    pub availability: SensorAvailability,
}

/// [`SensorReading`] taken by its views.
#[verifier::ext_equal]
pub struct SensorReadingView {
    pub id: Seq<char>,
    pub label: Seq<char>,
    pub class: SensorClass,
    pub kind: SensorKind,
    pub device: Seq<char>,
    pub value: Option<Real>,
    pub unit: Seq<char>,
    pub source: SensorSource,
    pub quality: SensorQuality,
    pub min: Option<Real>,
    pub max: Option<Real>,
    pub availability: SensorAvailability,
}

impl View for SensorReading {
    type V = SensorReadingView;

    open spec fn view(&self) -> SensorReadingView {
        SensorReadingView {
            id: self.id@,
            label: self.label@,
            class: self.class,
            kind: self.kind,
            device: self.device@,
            value: self.value,
            unit: self.unit@,
            source: self.source,
            quality: self.quality,
            min: self.min,
            max: self.max,
            availability: self.availability,
        }
    }
}

impl Clone for SensorReading {
    fn clone(&self) -> (r: Self)
        ensures
            r@ == self@,
            r == *self,
    {
        SensorReading {
            id: self.id.clone(),
            label: self.label.clone(),
            class: self.class,
            kind: self.kind,
            device: self.device.clone(),
            value: self.value,
            unit: self.unit.clone(),
            source: self.source,
            quality: self.quality,
            min: self.min,
            max: self.max,
            availability: self.availability,
        }
    }
}

/// The same items again.
pub fn copy_sensor_readings(v: &Vec<SensorReading>) -> (r: Vec<SensorReading>)
    ensures
        r@.map_values(|x: SensorReading| x@) == v@.map_values(|x: SensorReading| x@),
{
    let mut out: Vec<SensorReading> = Vec::new();
    let mut i: usize = 0;
    while i < v.len()
        invariant
            i <= v@.len(),
            out@.len() == i,
            forall|k: int| 0 <= k < i ==> (#[trigger] out@[k])@ == v@[k]@,
        decreases v@.len() - i,
    {
        out.push(v[i].clone());
        i = i + 1;
    }
    assert(out@.map_values(|x: SensorReading| x@) =~= v@.map_values(|x: SensorReading| x@));
    out
}

/// Something that could not be read, and why.
#[derive(Debug)]
pub struct UnavailableReading {
    pub component: String,
    pub reading: String,
    pub availability: SensorAvailability,
    pub reason: String,
}

/// [`UnavailableReading`] taken by its views.
#[verifier::ext_equal]
pub struct UnavailableReadingView {
    pub component: Seq<char>,
    pub reading: Seq<char>,
    pub availability: SensorAvailability,
    pub reason: Seq<char>,
}

impl View for UnavailableReading {
    type V = UnavailableReadingView;

    open spec fn view(&self) -> UnavailableReadingView {
        UnavailableReadingView {
            component: self.component@,
            reading: self.reading@,
            availability: self.availability,
            reason: self.reason@,
        }
    }
}

impl Clone for UnavailableReading {
    fn clone(&self) -> (r: Self)
        ensures
            r@ == self@,
            r == *self,
    {
        UnavailableReading {
            component: self.component.clone(),
            reading: self.reading.clone(),
            availability: self.availability,
            reason: self.reason.clone(),
        }
    }
}

/// The same items again.
pub fn copy_unavailable_readings(v: &Vec<UnavailableReading>) -> (r: Vec<UnavailableReading>)
    ensures
        r@.map_values(|x: UnavailableReading| x@) == v@.map_values(|x: UnavailableReading| x@),
{
    let mut out: Vec<UnavailableReading> = Vec::new();
    let mut i: usize = 0;
    while i < v.len()
        invariant
            i <= v@.len(),
            out@.len() == i,
            forall|k: int| 0 <= k < i ==> (#[trigger] out@[k])@ == v@[k]@,
        decreases v@.len() - i,
    {
        out.push(v[i].clone());
        i = i + 1;
    }
    assert(out@.map_values(|x: UnavailableReading| x@) =~= v@.map_values(|x: UnavailableReading| x@));
    out
}

/// The hardware of the machine.
#[derive(Debug)]
pub struct HardwareSnapshot {
    pub status: String,
    pub timestamp: String,
    pub duration_ms: u64,
    pub cpu: CpuHardwareInfo,
    pub gpus: Vec<GpuHardwareInfo>,
    pub memory: MemoryHardwareInfo,
    pub storage: Vec<StorageDeviceInfo>,
    pub network_adapters: Vec<NetworkAdapterInfo>,
    pub battery: Option<BatteryInfo>,
    pub power_state: PowerStateInfo,
    pub sensors: Vec<SensorReading>,
    pub completeness: String,
    pub unavailable: Vec<UnavailableReading>,
}

/// [`HardwareSnapshot`] taken by its views.
#[verifier::ext_equal]
pub struct HardwareSnapshotView {
    pub status: Seq<char>,
    pub timestamp: Seq<char>,
    pub duration_ms: u64,
    pub cpu: CpuHardwareInfoView,
    pub gpus: Seq<GpuHardwareInfoView>,
    pub memory: MemoryHardwareInfoView,
    pub storage: Seq<StorageDeviceInfoView>,
    pub network_adapters: Seq<NetworkAdapterInfoView>,
    pub battery: Option<BatteryInfoView>,
    pub power_state: PowerStateInfoView,
    pub sensors: Seq<SensorReadingView>,
    pub completeness: Seq<char>,
    pub unavailable: Seq<UnavailableReadingView>,
}

impl View for HardwareSnapshot {
    type V = HardwareSnapshotView;

    open spec fn view(&self) -> HardwareSnapshotView {
        HardwareSnapshotView {
            status: self.status@,
            timestamp: self.timestamp@,
            duration_ms: self.duration_ms,
            cpu: self.cpu@,
            gpus: self.gpus@.map_values(|x: GpuHardwareInfo| x@),
            memory: self.memory@,
            storage: self.storage@.map_values(|x: StorageDeviceInfo| x@),
            network_adapters: self.network_adapters@.map_values(|x: NetworkAdapterInfo| x@),
            battery: match self.battery {
                Some(x) => Some(x@),
                None => None,
            },
            power_state: self.power_state@,
            sensors: self.sensors@.map_values(|x: SensorReading| x@),
            completeness: self.completeness@,
            unavailable: self.unavailable@.map_values(|x: UnavailableReading| x@),
        }
    }
}

impl Clone for HardwareSnapshot {
    fn clone(&self) -> (r: Self)
        ensures
            r@ == self@,
    {
        HardwareSnapshot {
            status: self.status.clone(),
            timestamp: self.timestamp.clone(),
            duration_ms: self.duration_ms,
            cpu: self.cpu.clone(),
            gpus: copy_gpu_hardware_infos(&self.gpus),
            memory: self.memory.clone(),
            storage: copy_storage_device_infos(&self.storage),
            network_adapters: copy_network_adapter_infos(&self.network_adapters),
            battery: match &self.battery {
                Some(x) => Some(x.clone()),
                None => None,
            },
            power_state: self.power_state.clone(),
            sensors: copy_sensor_readings(&self.sensors),
            completeness: self.completeness.clone(),
            unavailable: copy_unavailable_readings(&self.unavailable),
        }
    }
}

/// One measured fact.
#[derive(Debug)]
pub struct EvidencePoint {
    pub metric: String,
    pub value: String,
    pub detail: String,
}

/// [`EvidencePoint`] taken by its views.
#[verifier::ext_equal]
pub struct EvidencePointView {
    pub metric: Seq<char>,
    pub value: Seq<char>,
    pub detail: Seq<char>,
}

impl View for EvidencePoint {
    type V = EvidencePointView;

    open spec fn view(&self) -> EvidencePointView {
        EvidencePointView {
            metric: self.metric@,
            value: self.value@,
            detail: self.detail@,
        }
    }
}

impl Clone for EvidencePoint {
    fn clone(&self) -> (r: Self)
        ensures
            r@ == self@,
            r == *self,
    {
        EvidencePoint {
            metric: self.metric.clone(),
            value: self.value.clone(),
            detail: self.detail.clone(),
        }
    }
}

/// The same items again.
pub fn copy_evidence_points(v: &Vec<EvidencePoint>) -> (r: Vec<EvidencePoint>)
    ensures
        r@.map_values(|x: EvidencePoint| x@) == v@.map_values(|x: EvidencePoint| x@),
{
    let mut out: Vec<EvidencePoint> = Vec::new();
    let mut i: usize = 0;
    while i < v.len()
        invariant
            i <= v@.len(),
            out@.len() == i,
            forall|k: int| 0 <= k < i ==> (#[trigger] out@[k])@ == v@[k]@,
        decreases v@.len() - i,
    {
        out.push(v[i].clone());
        i = i + 1;
    }
    assert(out@.map_values(|x: EvidencePoint| x@) =~= v@.map_values(|x: EvidencePoint| x@));
    out
}

/// What the temperatures amount to.
#[derive(Debug)]
pub struct ThermalStateSummary {
    pub cpu_throttling: String,
    pub gpu_throttling: String,
    pub cpu_thermal_pressure: String,
    pub gpu_thermal_pressure: String,
    pub cpu_frequency_reduced: Option<bool>,
    pub evidence: Vec<EvidencePoint>,
    pub limitations: Vec<String>,
}

/// [`ThermalStateSummary`] taken by its views.
#[verifier::ext_equal]
pub struct ThermalStateSummaryView {
    pub cpu_throttling: Seq<char>,
    pub gpu_throttling: Seq<char>,
    pub cpu_thermal_pressure: Seq<char>,
    pub gpu_thermal_pressure: Seq<char>,
    pub cpu_frequency_reduced: Option<bool>,
    pub evidence: Seq<EvidencePointView>,
    pub limitations: Seq<Seq<char>>,
}

impl View for ThermalStateSummary {
    type V = ThermalStateSummaryView;

    open spec fn view(&self) -> ThermalStateSummaryView {
        ThermalStateSummaryView {
            cpu_throttling: self.cpu_throttling@,
            gpu_throttling: self.gpu_throttling@,
            cpu_thermal_pressure: self.cpu_thermal_pressure@,
            gpu_thermal_pressure: self.gpu_thermal_pressure@,
            cpu_frequency_reduced: self.cpu_frequency_reduced,
            evidence: self.evidence@.map_values(|x: EvidencePoint| x@),
            limitations: views(self.limitations@),
        }
    }
}

impl Clone for ThermalStateSummary {
    fn clone(&self) -> (r: Self)
        ensures
            r@ == self@,
    {
        ThermalStateSummary {
            cpu_throttling: self.cpu_throttling.clone(),
            gpu_throttling: self.gpu_throttling.clone(),
            cpu_thermal_pressure: self.cpu_thermal_pressure.clone(),
            gpu_thermal_pressure: self.gpu_thermal_pressure.clone(),
            cpu_frequency_reduced: self.cpu_frequency_reduced,
            evidence: copy_evidence_points(&self.evidence),
            limitations: copy_texts(&self.limitations),
        }
    }
}

/// The temperatures of the machine.
#[derive(Debug)]
pub struct ThermalSnapshot {
    pub status: String,
    pub timestamp: String,
    pub duration_ms: u64,
    pub sensors: Vec<SensorReading>,
    pub thermal_state: ThermalStateSummary,
    pub completeness: String,
    pub unavailable: Vec<UnavailableReading>,
    pub warnings: Vec<String>,
}

/// [`ThermalSnapshot`] taken by its views.
#[verifier::ext_equal]
pub struct ThermalSnapshotView {
    pub status: Seq<char>,
    pub timestamp: Seq<char>,
    pub duration_ms: u64,
    pub sensors: Seq<SensorReadingView>,
    pub thermal_state: ThermalStateSummaryView,
    pub completeness: Seq<char>,
    pub unavailable: Seq<UnavailableReadingView>,
    pub warnings: Seq<Seq<char>>,
}

impl View for ThermalSnapshot {
    type V = ThermalSnapshotView;

    open spec fn view(&self) -> ThermalSnapshotView {
        ThermalSnapshotView {
            status: self.status@,
            timestamp: self.timestamp@,
            duration_ms: self.duration_ms,
            sensors: self.sensors@.map_values(|x: SensorReading| x@),
            thermal_state: self.thermal_state@,
            completeness: self.completeness@,
            unavailable: self.unavailable@.map_values(|x: UnavailableReading| x@),
            warnings: views(self.warnings@),
        }
    }
}

impl Clone for ThermalSnapshot {
    fn clone(&self) -> (r: Self)
        ensures
            r@ == self@,
    {
        ThermalSnapshot {
            status: self.status.clone(),
            timestamp: self.timestamp.clone(),
            duration_ms: self.duration_ms,
            sensors: copy_sensor_readings(&self.sensors),
            thermal_state: self.thermal_state.clone(),
            completeness: self.completeness.clone(),
            unavailable: copy_unavailable_readings(&self.unavailable),
            warnings: copy_texts(&self.warnings),
        }
    }
}

/// How worn the battery is.
#[derive(Debug)]
pub struct BatteryHealth {
    pub designed_capacity_mwh: Option<u32>,
    pub full_charge_capacity_mwh: Option<u32>,
    pub current_charge_mwh: Option<u32>,
    pub cycle_count: Option<u32>,
    pub health_percent: Option<Real>,
    pub temperature_c: Option<Real>,
    pub availability: SensorAvailability,
    pub reason: Option<String>,
}

/// [`BatteryHealth`] taken by its views.
#[verifier::ext_equal]
pub struct BatteryHealthView {
    pub designed_capacity_mwh: Option<u32>,
    pub full_charge_capacity_mwh: Option<u32>,
    pub current_charge_mwh: Option<u32>,
    pub cycle_count: Option<u32>,
    pub health_percent: Option<Real>,
    pub temperature_c: Option<Real>,
    pub availability: SensorAvailability,
    pub reason: Option<Seq<char>>,
}

impl View for BatteryHealth {
    type V = BatteryHealthView;

    open spec fn view(&self) -> BatteryHealthView {
        BatteryHealthView {
            designed_capacity_mwh: self.designed_capacity_mwh,
            full_charge_capacity_mwh: self.full_charge_capacity_mwh,
            current_charge_mwh: self.current_charge_mwh,
            cycle_count: self.cycle_count,
            health_percent: self.health_percent,
            temperature_c: self.temperature_c,
            availability: self.availability,
            reason: opt_view(self.reason),
        }
    }
}

impl Clone for BatteryHealth {
    fn clone(&self) -> (r: Self)
        ensures
            r@ == self@,
            r == *self,
    {
        BatteryHealth {
            designed_capacity_mwh: self.designed_capacity_mwh,
            full_charge_capacity_mwh: self.full_charge_capacity_mwh,
            current_charge_mwh: self.current_charge_mwh,
            cycle_count: self.cycle_count,
            health_percent: self.health_percent,
            temperature_c: self.temperature_c,
            availability: self.availability,
            reason: self.reason.clone(),
        }
    }
}

/// The battery and its health.
#[derive(Debug)]
pub struct BatteryStatus {
    pub status: String,
    pub timestamp: String,
    pub present: bool,
    pub percent: Option<u32>,
    pub ac_online: Option<bool>,
    pub charging: Option<bool>,
    pub battery_state: Option<String>,
    pub estimated_time_remaining_seconds: Option<u64>,
    pub health: Option<BatteryHealth>,
    pub unavailable: Vec<UnavailableReading>,
}

/// [`BatteryStatus`] taken by its views.
#[verifier::ext_equal]
pub struct BatteryStatusView {
    pub status: Seq<char>,
    pub timestamp: Seq<char>,
    pub present: bool,
    pub percent: Option<u32>,
    pub ac_online: Option<bool>,
    pub charging: Option<bool>,
    pub battery_state: Option<Seq<char>>,
    pub estimated_time_remaining_seconds: Option<u64>,
    pub health: Option<BatteryHealthView>,
    pub unavailable: Seq<UnavailableReadingView>,
}

impl View for BatteryStatus {
    type V = BatteryStatusView;

    open spec fn view(&self) -> BatteryStatusView {
        BatteryStatusView {
            status: self.status@,
            timestamp: self.timestamp@,
            present: self.present,
            percent: self.percent,
            ac_online: self.ac_online,
            charging: self.charging,
            battery_state: opt_view(self.battery_state),
            estimated_time_remaining_seconds: self.estimated_time_remaining_seconds,
            health: match self.health {
                Some(x) => Some(x@),
                None => None,
            },
            unavailable: self.unavailable@.map_values(|x: UnavailableReading| x@),
        }
    }
}

impl Clone for BatteryStatus {
    fn clone(&self) -> (r: Self)
        ensures
            r@ == self@,
    {
        BatteryStatus {
            status: self.status.clone(),
            timestamp: self.timestamp.clone(),
            present: self.present,
            percent: self.percent,
            ac_online: self.ac_online,
            charging: self.charging,
            battery_state: self.battery_state.clone(),
            estimated_time_remaining_seconds: self.estimated_time_remaining_seconds,
            health: match &self.health {
                Some(x) => Some(x.clone()),
                None => None,
            },
            unavailable: copy_unavailable_readings(&self.unavailable),
        }
    }
}

/// Where the power comes from, and for how long.
#[derive(Debug)]
pub struct PowerStatus {
    pub status: String,
    pub timestamp: String,
    pub power_source: String,
    pub ac_online: Option<bool>,
    pub battery_present: bool,
    pub battery_percent: Option<u32>,
    pub battery_state: Option<String>,
    pub charging: Option<bool>,
    pub estimated_time_remaining_seconds: Option<u64>,
    pub unavailable: Vec<UnavailableReading>,
}

/// [`PowerStatus`] taken by its views.
#[verifier::ext_equal]
pub struct PowerStatusView {
    pub status: Seq<char>,
    pub timestamp: Seq<char>,
    pub power_source: Seq<char>,
    pub ac_online: Option<bool>,
    pub battery_present: bool,
    pub battery_percent: Option<u32>,
    pub battery_state: Option<Seq<char>>,
    pub charging: Option<bool>,
    pub estimated_time_remaining_seconds: Option<u64>,
    pub unavailable: Seq<UnavailableReadingView>,
}

impl View for PowerStatus {
    type V = PowerStatusView;

    open spec fn view(&self) -> PowerStatusView {
        PowerStatusView {
            status: self.status@,
            timestamp: self.timestamp@,
            power_source: self.power_source@,
            ac_online: self.ac_online,
            battery_present: self.battery_present,
            battery_percent: self.battery_percent,
            battery_state: opt_view(self.battery_state),
            charging: self.charging,
            estimated_time_remaining_seconds: self.estimated_time_remaining_seconds,
            unavailable: self.unavailable@.map_values(|x: UnavailableReading| x@),
        }
    }
}

impl Clone for PowerStatus {
    fn clone(&self) -> (r: Self)
        ensures
            r@ == self@,
    {
        PowerStatus {
            status: self.status.clone(),
            timestamp: self.timestamp.clone(),
            power_source: self.power_source.clone(),
            ac_online: self.ac_online,
            battery_present: self.battery_present,
            battery_percent: self.battery_percent,
            battery_state: self.battery_state.clone(),
            charging: self.charging,
            estimated_time_remaining_seconds: self.estimated_time_remaining_seconds,
            unavailable: copy_unavailable_readings(&self.unavailable),
        }
    }
}

/// The health of one storage device.
#[derive(Debug)]
pub struct StorageHealthDevice {
    pub device: String,
    pub model: Option<String>,
    pub interface: String,
    pub health_status: Option<String>,
    pub temperature_c: Option<Real>,
    pub critical_warning: Vec<String>,
    pub percentage_used: Option<u32>,
    pub available_spare: Option<u32>,
    pub available_spare_threshold: Option<u32>,
    pub media_errors: Option<u64>,
    pub power_on_hours: Option<u64>,
    pub unsafe_shutdowns: Option<u64>,
    pub data_units_read: Option<u64>,
    pub data_units_written: Option<u64>,
    pub reallocated_sectors: Option<u64>,
    pub media_type: Option<String>,
    pub bus_type: Option<String>,
    pub firmware_version: Option<String>,
    pub serial_number: Option<String>,
    pub physical_location: Option<String>,
    pub spindle_speed_rpm: Option<u32>,
    pub availability: SensorAvailability,
    pub reason: Option<String>,
}

/// [`StorageHealthDevice`] taken by its views.
#[verifier::ext_equal]
pub struct StorageHealthDeviceView {
    pub device: Seq<char>,
    pub model: Option<Seq<char>>,
    pub interface: Seq<char>,
    pub health_status: Option<Seq<char>>,
    pub temperature_c: Option<Real>,
    pub critical_warning: Seq<Seq<char>>,
    pub percentage_used: Option<u32>,
    pub available_spare: Option<u32>,
    pub available_spare_threshold: Option<u32>,
    pub media_errors: Option<u64>,
    pub power_on_hours: Option<u64>,
    pub unsafe_shutdowns: Option<u64>,
    pub data_units_read: Option<u64>,
    pub data_units_written: Option<u64>,
    pub reallocated_sectors: Option<u64>,
    pub media_type: Option<Seq<char>>,
    pub bus_type: Option<Seq<char>>,
    pub firmware_version: Option<Seq<char>>,
    pub serial_number: Option<Seq<char>>,
    pub physical_location: Option<Seq<char>>,
    pub spindle_speed_rpm: Option<u32>,
    pub availability: SensorAvailability,
    pub reason: Option<Seq<char>>,
}

impl View for StorageHealthDevice {
    type V = StorageHealthDeviceView;

    open spec fn view(&self) -> StorageHealthDeviceView {
        StorageHealthDeviceView {
            device: self.device@,
            model: opt_view(self.model),
            interface: self.interface@,
            health_status: opt_view(self.health_status),
            temperature_c: self.temperature_c,
            critical_warning: views(self.critical_warning@),
            percentage_used: self.percentage_used,
            available_spare: self.available_spare,
            available_spare_threshold: self.available_spare_threshold,
            media_errors: self.media_errors,
            power_on_hours: self.power_on_hours,
            unsafe_shutdowns: self.unsafe_shutdowns,
            data_units_read: self.data_units_read,
            data_units_written: self.data_units_written,
            reallocated_sectors: self.reallocated_sectors,
            media_type: opt_view(self.media_type),
            bus_type: opt_view(self.bus_type),
            firmware_version: opt_view(self.firmware_version),
            serial_number: opt_view(self.serial_number),
            physical_location: opt_view(self.physical_location),
            spindle_speed_rpm: self.spindle_speed_rpm,
            availability: self.availability,
            reason: opt_view(self.reason),
        }
    }
}

impl Clone for StorageHealthDevice {
    fn clone(&self) -> (r: Self)
        ensures
            r@ == self@,
    {
        StorageHealthDevice {
            device: self.device.clone(),
            model: self.model.clone(),
            interface: self.interface.clone(),
            health_status: self.health_status.clone(),
            temperature_c: self.temperature_c,
            critical_warning: copy_texts(&self.critical_warning),
            percentage_used: self.percentage_used,
            available_spare: self.available_spare,
            available_spare_threshold: self.available_spare_threshold,
            media_errors: self.media_errors,
            power_on_hours: self.power_on_hours,
            unsafe_shutdowns: self.unsafe_shutdowns,
            data_units_read: self.data_units_read,
            data_units_written: self.data_units_written,
            reallocated_sectors: self.reallocated_sectors,
            media_type: self.media_type.clone(),
            bus_type: self.bus_type.clone(),
            firmware_version: self.firmware_version.clone(),
            serial_number: self.serial_number.clone(),
            physical_location: self.physical_location.clone(),
            spindle_speed_rpm: self.spindle_speed_rpm,
            availability: self.availability,
            reason: self.reason.clone(),
        }
    }
}

/// The same items again.
pub fn copy_storage_health_devices(v: &Vec<StorageHealthDevice>) -> (r: Vec<StorageHealthDevice>)
    ensures
        r@.map_values(|x: StorageHealthDevice| x@) == v@.map_values(|x: StorageHealthDevice| x@),
{
    let mut out: Vec<StorageHealthDevice> = Vec::new();
    let mut i: usize = 0;
    while i < v.len()
        invariant
            i <= v@.len(),
            out@.len() == i,
            forall|k: int| 0 <= k < i ==> (#[trigger] out@[k])@ == v@[k]@,
        decreases v@.len() - i,
    {
        out.push(v[i].clone());
        i = i + 1;
    }
    assert(out@.map_values(|x: StorageHealthDevice| x@) =~= v@.map_values(|x: StorageHealthDevice| x@));
    out
}

/// The health of the storage devices.
#[derive(Debug)]
pub struct DiskHealthReport {
    pub status: String,
    pub timestamp: String,
    pub duration_ms: u64,
    pub devices: Vec<StorageHealthDevice>,
    pub completeness: String,
    pub unavailable: Vec<UnavailableReading>,
}

/// [`DiskHealthReport`] taken by its views.
#[verifier::ext_equal]
pub struct DiskHealthReportView {
    pub status: Seq<char>,
    pub timestamp: Seq<char>,
    pub duration_ms: u64,
    pub devices: Seq<StorageHealthDeviceView>,
    pub completeness: Seq<char>,
    pub unavailable: Seq<UnavailableReadingView>,
}

impl View for DiskHealthReport {
    type V = DiskHealthReportView;

    open spec fn view(&self) -> DiskHealthReportView {
        DiskHealthReportView {
            status: self.status@,
            timestamp: self.timestamp@,
            duration_ms: self.duration_ms,
            devices: self.devices@.map_values(|x: StorageHealthDevice| x@),
            completeness: self.completeness@,
            unavailable: self.unavailable@.map_values(|x: UnavailableReading| x@),
        }
    }
}

impl Clone for DiskHealthReport {
    fn clone(&self) -> (r: Self)
        ensures
            r@ == self@,
    {
        DiskHealthReport {
            status: self.status.clone(),
            timestamp: self.timestamp.clone(),
            duration_ms: self.duration_ms,
            devices: copy_storage_health_devices(&self.devices),
            completeness: self.completeness.clone(),
            unavailable: copy_unavailable_readings(&self.unavailable),
        }
    }
}

/// How busy one disk is.
#[derive(Debug)]
pub struct DiskActivity {
    pub device: String,
    pub busy_percent: Option<Real>,
    pub avg_queue_depth: Option<Real>,
    pub read_bytes_per_second: Option<Real>,
    pub write_bytes_per_second: Option<Real>,
    pub read_per_second: Option<Real>,
    pub write_per_second: Option<Real>,
    pub availability: SensorAvailability,
    pub reason: Option<String>,
}

/// [`DiskActivity`] taken by its views.
#[verifier::ext_equal]
pub struct DiskActivityView {
    pub device: Seq<char>,
    pub busy_percent: Option<Real>,
    pub avg_queue_depth: Option<Real>,
    pub read_bytes_per_second: Option<Real>,
    pub write_bytes_per_second: Option<Real>,
    pub read_per_second: Option<Real>,
    pub write_per_second: Option<Real>,
    pub availability: SensorAvailability,
    pub reason: Option<Seq<char>>,
}

impl View for DiskActivity {
    type V = DiskActivityView;

    open spec fn view(&self) -> DiskActivityView {
        DiskActivityView {
            device: self.device@,
            busy_percent: self.busy_percent,
            avg_queue_depth: self.avg_queue_depth,
            read_bytes_per_second: self.read_bytes_per_second,
            write_bytes_per_second: self.write_bytes_per_second,
            read_per_second: self.read_per_second,
            write_per_second: self.write_per_second,
            availability: self.availability,
            reason: opt_view(self.reason),
        }
    }
}

impl Clone for DiskActivity {
    fn clone(&self) -> (r: Self)
        ensures
            r@ == self@,
            r == *self,
    {
        DiskActivity {
            device: self.device.clone(),
            busy_percent: self.busy_percent,
            avg_queue_depth: self.avg_queue_depth,
            read_bytes_per_second: self.read_bytes_per_second,
            write_bytes_per_second: self.write_bytes_per_second,
            read_per_second: self.read_per_second,
            write_per_second: self.write_per_second,
            availability: self.availability,
            reason: self.reason.clone(),
        }
    }
}

/// The same items again.
pub fn copy_disk_activities(v: &Vec<DiskActivity>) -> (r: Vec<DiskActivity>)
    ensures
        r@.map_values(|x: DiskActivity| x@) == v@.map_values(|x: DiskActivity| x@),
{
    let mut out: Vec<DiskActivity> = Vec::new();
    let mut i: usize = 0;
    while i < v.len()
        invariant
            i <= v@.len(),
            out@.len() == i,
            forall|k: int| 0 <= k < i ==> (#[trigger] out@[k])@ == v@[k]@,
        decreases v@.len() - i,
    {
        out.push(v[i].clone());
        i = i + 1;
    }
    assert(out@.map_values(|x: DiskActivity| x@) =~= v@.map_values(|x: DiskActivity| x@));
    out
}

/// How busy the disks are.
#[derive(Debug)]
pub struct StorageActivity {
    pub status: String,
    pub timestamp: String,
    pub sample_window_ms: u64,
    pub disks: Vec<DiskActivity>,
    pub completeness: String,
    pub unavailable: Vec<UnavailableReading>,
}

/// [`StorageActivity`] taken by its views.
#[verifier::ext_equal]
pub struct StorageActivityView {
    pub status: Seq<char>,
    pub timestamp: Seq<char>,
    pub sample_window_ms: u64,
    pub disks: Seq<DiskActivityView>,
    pub completeness: Seq<char>,
    pub unavailable: Seq<UnavailableReadingView>,
}

impl View for StorageActivity {
    type V = StorageActivityView;

    open spec fn view(&self) -> StorageActivityView {
        StorageActivityView {
            status: self.status@,
            timestamp: self.timestamp@,
            sample_window_ms: self.sample_window_ms,
            disks: self.disks@.map_values(|x: DiskActivity| x@),
            completeness: self.completeness@,
            unavailable: self.unavailable@.map_values(|x: UnavailableReading| x@),
        }
    }
}

impl Clone for StorageActivity {
    fn clone(&self) -> (r: Self)
        ensures
            r@ == self@,
    {
        StorageActivity {
            status: self.status.clone(),
            timestamp: self.timestamp.clone(),
            sample_window_ms: self.sample_window_ms,
            disks: copy_disk_activities(&self.disks),
            completeness: self.completeness.clone(),
            unavailable: copy_unavailable_readings(&self.unavailable),
        }
    }
}

/// The network of the machine.
#[derive(Debug)]
pub struct NetworkSnapshot {
    pub status: String,
    pub timestamp: String,
    pub duration_ms: u64,
    pub interfaces: Vec<NetworkInterfaceInfo>,
    pub wifi: Vec<WifiAdapterStatus>,
    pub connections: Vec<ConnectionInfo>,
    pub listening_ports: Vec<PortInfo>,
    pub completeness: String,
    pub unavailable: Vec<UnavailableReading>,
}

/// [`NetworkSnapshot`] taken by its views.
#[verifier::ext_equal]
pub struct NetworkSnapshotView {
    pub status: Seq<char>,
    pub timestamp: Seq<char>,
    pub duration_ms: u64,
    pub interfaces: Seq<NetworkInterfaceInfoView>,
    pub wifi: Seq<WifiAdapterStatusView>,
    pub connections: Seq<ConnectionInfoView>,
    pub listening_ports: Seq<PortInfoView>,
    pub completeness: Seq<char>,
    pub unavailable: Seq<UnavailableReadingView>,
}

impl View for NetworkSnapshot {
    type V = NetworkSnapshotView;

    open spec fn view(&self) -> NetworkSnapshotView {
        NetworkSnapshotView {
            status: self.status@,
            timestamp: self.timestamp@,
            duration_ms: self.duration_ms,
            interfaces: self.interfaces@.map_values(|x: NetworkInterfaceInfo| x@),
            wifi: self.wifi@.map_values(|x: WifiAdapterStatus| x@),
            connections: self.connections@.map_values(|x: ConnectionInfo| x@),
            listening_ports: self.listening_ports@.map_values(|x: PortInfo| x@),
            completeness: self.completeness@,
            unavailable: self.unavailable@.map_values(|x: UnavailableReading| x@),
        }
    }
}

impl Clone for NetworkSnapshot {
    fn clone(&self) -> (r: Self)
        ensures
            r@ == self@,
    {
        NetworkSnapshot {
            status: self.status.clone(),
            timestamp: self.timestamp.clone(),
            duration_ms: self.duration_ms,
            interfaces: copy_network_interface_infos(&self.interfaces),
            wifi: copy_wifi_adapters(&self.wifi),
            connections: copy_connection_infos(&self.connections),
            listening_ports: copy_port_infos(&self.listening_ports),
            completeness: self.completeness.clone(),
            unavailable: copy_unavailable_readings(&self.unavailable),
        }
    }
}

/// One wireless network in reach.
#[derive(Debug)]
pub struct WifiNetwork {
    pub ssid: Option<String>,
    pub bssid: Option<String>,
    pub signal_percent: Option<u32>,
    pub rssi_dbm: Option<i32>,
    pub channel: Option<u32>,
    pub frequency_mhz: Option<u32>,
    pub band: Option<String>,
    pub security: Option<String>,
    pub link_quality: Option<u32>,
}

/// [`WifiNetwork`] taken by its views.
#[verifier::ext_equal]
pub struct WifiNetworkView {
    pub ssid: Option<Seq<char>>,
    pub bssid: Option<Seq<char>>,
    pub signal_percent: Option<u32>,
    pub rssi_dbm: Option<i32>,
    pub channel: Option<u32>,
    pub frequency_mhz: Option<u32>,
    pub band: Option<Seq<char>>,
    pub security: Option<Seq<char>>,
    pub link_quality: Option<u32>,
}

impl View for WifiNetwork {
    type V = WifiNetworkView;

    open spec fn view(&self) -> WifiNetworkView {
        WifiNetworkView {
            ssid: opt_view(self.ssid),
            bssid: opt_view(self.bssid),
            signal_percent: self.signal_percent,
            rssi_dbm: self.rssi_dbm,
            channel: self.channel,
            frequency_mhz: self.frequency_mhz,
            band: opt_view(self.band),
            security: opt_view(self.security),
            link_quality: self.link_quality,
        }
    }
}

impl Clone for WifiNetwork {
    fn clone(&self) -> (r: Self)
        ensures
            r@ == self@,
            r == *self,
    {
        WifiNetwork {
            ssid: self.ssid.clone(),
            bssid: self.bssid.clone(),
            signal_percent: self.signal_percent,
            rssi_dbm: self.rssi_dbm,
            channel: self.channel,
            frequency_mhz: self.frequency_mhz,
            band: self.band.clone(),
            security: self.security.clone(),
            link_quality: self.link_quality,
        }
    }
}

/// The same items again.
pub fn copy_wifi_networks(v: &Vec<WifiNetwork>) -> (r: Vec<WifiNetwork>)
    ensures
        r@.map_values(|x: WifiNetwork| x@) == v@.map_values(|x: WifiNetwork| x@),
{
    let mut out: Vec<WifiNetwork> = Vec::new();
    let mut i: usize = 0;
    while i < v.len()
        invariant
            i <= v@.len(),
            out@.len() == i,
            forall|k: int| 0 <= k < i ==> (#[trigger] out@[k])@ == v@[k]@,
        decreases v@.len() - i,
    {
        out.push(v[i].clone());
        i = i + 1;
    }
    assert(out@.map_values(|x: WifiNetwork| x@) =~= v@.map_values(|x: WifiNetwork| x@));
    out
}

/// The wireless networks in reach.
#[derive(Debug)]
pub struct WifiScan {
    pub status: String,
    pub timestamp: String,
    pub adapter_id: Option<String>,
    pub networks: Vec<WifiNetwork>,
    pub truncated: bool,
    pub unavailable: Vec<UnavailableReading>,
}

/// [`WifiScan`] taken by its views.
#[verifier::ext_equal]
pub struct WifiScanView {
    pub status: Seq<char>,
    pub timestamp: Seq<char>,
    pub adapter_id: Option<Seq<char>>,
    pub networks: Seq<WifiNetworkView>,
    pub truncated: bool,
    pub unavailable: Seq<UnavailableReadingView>,
}

impl View for WifiScan {
    type V = WifiScanView;

    open spec fn view(&self) -> WifiScanView {
        WifiScanView {
            status: self.status@,
            timestamp: self.timestamp@,
            adapter_id: opt_view(self.adapter_id),
            networks: self.networks@.map_values(|x: WifiNetwork| x@),
            truncated: self.truncated,
            unavailable: self.unavailable@.map_values(|x: UnavailableReading| x@),
        }
    }
}

impl Clone for WifiScan {
    fn clone(&self) -> (r: Self)
        ensures
            r@ == self@,
    {
        WifiScan {
            status: self.status.clone(),
            timestamp: self.timestamp.clone(),
            adapter_id: self.adapter_id.clone(),
            networks: copy_wifi_networks(&self.networks),
            truncated: self.truncated,
            unavailable: copy_unavailable_readings(&self.unavailable),
        }
    }
}

/// What was found of one interface.
#[derive(Debug)]
pub struct NetworkDiagnosticInterface {
    pub description: String,
    pub is_wifi: bool,
    pub is_up: bool,
    pub gateway: Option<String>,
    pub signal_percent: Option<u32>,
    pub rssi_dbm: Option<i32>,
    pub link_speed_mbps: Option<Real>,
    pub packet_loss_percent: Option<Real>,
    pub gateway_latency_ms: Option<Real>,
}

/// [`NetworkDiagnosticInterface`] taken by its views.
#[verifier::ext_equal]
pub struct NetworkDiagnosticInterfaceView {
    pub description: Seq<char>,
    pub is_wifi: bool,
    pub is_up: bool,
    pub gateway: Option<Seq<char>>,
    pub signal_percent: Option<u32>,
    pub rssi_dbm: Option<i32>,
    pub link_speed_mbps: Option<Real>,
    pub packet_loss_percent: Option<Real>,
    pub gateway_latency_ms: Option<Real>,
}

impl View for NetworkDiagnosticInterface {
    type V = NetworkDiagnosticInterfaceView;

    open spec fn view(&self) -> NetworkDiagnosticInterfaceView {
        NetworkDiagnosticInterfaceView {
            description: self.description@,
            is_wifi: self.is_wifi,
            is_up: self.is_up,
            gateway: opt_view(self.gateway),
            signal_percent: self.signal_percent,
            rssi_dbm: self.rssi_dbm,
            link_speed_mbps: self.link_speed_mbps,
            packet_loss_percent: self.packet_loss_percent,
            gateway_latency_ms: self.gateway_latency_ms,
        }
    }
}

impl Clone for NetworkDiagnosticInterface {
    fn clone(&self) -> (r: Self)
        ensures
            r@ == self@,
            r == *self,
    {
        NetworkDiagnosticInterface {
            description: self.description.clone(),
            is_wifi: self.is_wifi,
            is_up: self.is_up,
            gateway: self.gateway.clone(),
            signal_percent: self.signal_percent,
            rssi_dbm: self.rssi_dbm,
            link_speed_mbps: self.link_speed_mbps,
            packet_loss_percent: self.packet_loss_percent,
            gateway_latency_ms: self.gateway_latency_ms,
        }
    }
}

/// The same items again.
pub fn copy_network_diagnostic_interfaces(v: &Vec<NetworkDiagnosticInterface>) -> (r: Vec<NetworkDiagnosticInterface>)
    ensures
        r@.map_values(|x: NetworkDiagnosticInterface| x@) == v@.map_values(|x: NetworkDiagnosticInterface| x@),
{
    let mut out: Vec<NetworkDiagnosticInterface> = Vec::new();
    let mut i: usize = 0;
    while i < v.len()
        invariant
            i <= v@.len(),
            out@.len() == i,
            forall|k: int| 0 <= k < i ==> (#[trigger] out@[k])@ == v@[k]@,
        decreases v@.len() - i,
    {
        out.push(v[i].clone());
        i = i + 1;
    }
    assert(out@.map_values(|x: NetworkDiagnosticInterface| x@) =~= v@.map_values(|x: NetworkDiagnosticInterface| x@));
    out
}

/// What is wrong with the network.
#[derive(Debug)]
pub struct NetworkDiagnosis {
    pub status: String,
    pub timestamp: String,
    pub duration_ms: u64,
    pub summary: String,
    pub interfaces: Vec<NetworkDiagnosticInterface>,
    pub findings: Vec<String>,
    pub completeness: String,
    pub unavailable: Vec<UnavailableReading>,
    pub external_connectivity: String,
}

/// [`NetworkDiagnosis`] taken by its views.
#[verifier::ext_equal]
pub struct NetworkDiagnosisView {
    pub status: Seq<char>,
    pub timestamp: Seq<char>,
    pub duration_ms: u64,
    pub summary: Seq<char>,
    pub interfaces: Seq<NetworkDiagnosticInterfaceView>,
    pub findings: Seq<Seq<char>>,
    pub completeness: Seq<char>,
    pub unavailable: Seq<UnavailableReadingView>,
    pub external_connectivity: Seq<char>,
}

impl View for NetworkDiagnosis {
    type V = NetworkDiagnosisView;

    open spec fn view(&self) -> NetworkDiagnosisView {
        NetworkDiagnosisView {
            status: self.status@,
            timestamp: self.timestamp@,
            duration_ms: self.duration_ms,
            summary: self.summary@,
            interfaces: self.interfaces@.map_values(|x: NetworkDiagnosticInterface| x@),
            findings: views(self.findings@),
            completeness: self.completeness@,
            unavailable: self.unavailable@.map_values(|x: UnavailableReading| x@),
            external_connectivity: self.external_connectivity@,
        }
    }
}

impl Clone for NetworkDiagnosis {
    fn clone(&self) -> (r: Self)
        ensures
            r@ == self@,
    {
        NetworkDiagnosis {
            status: self.status.clone(),
            timestamp: self.timestamp.clone(),
            duration_ms: self.duration_ms,
            summary: self.summary.clone(),
            interfaces: copy_network_diagnostic_interfaces(&self.interfaces),
            findings: copy_texts(&self.findings),
            completeness: self.completeness.clone(),
            unavailable: copy_unavailable_readings(&self.unavailable),
            external_connectivity: self.external_connectivity.clone(),
        }
    }
}

/// What the temperatures tell of the machine.
#[derive(Debug)]
pub struct SystemThermalEvidence {
    pub cpu_thermal_pressure: String,
    pub cpu_throttling: String,
    pub cpu_frequency_reduced: Option<bool>,
    pub cpu_temperature_c: Option<Real>,
    pub gpu_thermal_pressure: String,
}

/// [`SystemThermalEvidence`] taken by its views.
#[verifier::ext_equal]
pub struct SystemThermalEvidenceView {
    pub cpu_thermal_pressure: Seq<char>,
    pub cpu_throttling: Seq<char>,
    pub cpu_frequency_reduced: Option<bool>,
    pub cpu_temperature_c: Option<Real>,
    pub gpu_thermal_pressure: Seq<char>,
}

impl View for SystemThermalEvidence {
    type V = SystemThermalEvidenceView;

    open spec fn view(&self) -> SystemThermalEvidenceView {
        SystemThermalEvidenceView {
            cpu_thermal_pressure: self.cpu_thermal_pressure@,
            cpu_throttling: self.cpu_throttling@,
            cpu_frequency_reduced: self.cpu_frequency_reduced,
            cpu_temperature_c: self.cpu_temperature_c,
            gpu_thermal_pressure: self.gpu_thermal_pressure@,
        }
    }
}

impl Clone for SystemThermalEvidence {
    fn clone(&self) -> (r: Self)
        ensures
            r@ == self@,
            r == *self,
    {
        SystemThermalEvidence {
            cpu_thermal_pressure: self.cpu_thermal_pressure.clone(),
            cpu_throttling: self.cpu_throttling.clone(),
            cpu_frequency_reduced: self.cpu_frequency_reduced,
            cpu_temperature_c: self.cpu_temperature_c,
            gpu_thermal_pressure: self.gpu_thermal_pressure.clone(),
        }
    }
}

/// What one storage device tells of its health.
#[derive(Debug)]
pub struct SystemStorageHealthEvidence {
    pub device: String,
    pub interface: String,
    pub health_status: Option<String>,
    pub temperature_c: Option<Real>,
    pub percentage_used: Option<u32>,
}

/// [`SystemStorageHealthEvidence`] taken by its views.
#[verifier::ext_equal]
pub struct SystemStorageHealthEvidenceView {
    pub device: Seq<char>,
    pub interface: Seq<char>,
    pub health_status: Option<Seq<char>>,
    pub temperature_c: Option<Real>,
    pub percentage_used: Option<u32>,
}

impl View for SystemStorageHealthEvidence {
    type V = SystemStorageHealthEvidenceView;

    open spec fn view(&self) -> SystemStorageHealthEvidenceView {
        SystemStorageHealthEvidenceView {
            device: self.device@,
            interface: self.interface@,
            health_status: opt_view(self.health_status),
            temperature_c: self.temperature_c,
            percentage_used: self.percentage_used,
        }
    }
}

impl Clone for SystemStorageHealthEvidence {
    fn clone(&self) -> (r: Self)
        ensures
            r@ == self@,
            r == *self,
    {
        SystemStorageHealthEvidence {
            device: self.device.clone(),
            interface: self.interface.clone(),
            health_status: self.health_status.clone(),
            temperature_c: self.temperature_c,
            percentage_used: self.percentage_used,
        }
    }
}

/// The same items again.
pub fn copy_system_storage_health_evidences(v: &Vec<SystemStorageHealthEvidence>) -> (r: Vec<SystemStorageHealthEvidence>)
    ensures
        r@.map_values(|x: SystemStorageHealthEvidence| x@) == v@.map_values(|x: SystemStorageHealthEvidence| x@),
{
    let mut out: Vec<SystemStorageHealthEvidence> = Vec::new();
    let mut i: usize = 0;
    while i < v.len()
        invariant
            i <= v@.len(),
            out@.len() == i,
            forall|k: int| 0 <= k < i ==> (#[trigger] out@[k])@ == v@[k]@,
        decreases v@.len() - i,
    {
        out.push(v[i].clone());
        i = i + 1;
    }
    assert(out@.map_values(|x: SystemStorageHealthEvidence| x@) =~= v@.map_values(|x: SystemStorageHealthEvidence| x@));
    out
}

/// What the battery tells.
#[derive(Debug)]
pub struct SystemBatteryEvidence {
    pub present: bool,
    pub percent: Option<u32>,
    pub ac_online: Option<bool>,
    pub charging: Option<bool>,
    pub battery_state: Option<String>,
    pub health_percent: Option<Real>,
}

/// [`SystemBatteryEvidence`] taken by its views.
#[verifier::ext_equal]
pub struct SystemBatteryEvidenceView {
    pub present: bool,
    pub percent: Option<u32>,
    pub ac_online: Option<bool>,
    pub charging: Option<bool>,
    pub battery_state: Option<Seq<char>>,
    pub health_percent: Option<Real>,
}

impl View for SystemBatteryEvidence {
    type V = SystemBatteryEvidenceView;

    open spec fn view(&self) -> SystemBatteryEvidenceView {
        SystemBatteryEvidenceView {
            present: self.present,
            percent: self.percent,
            ac_online: self.ac_online,
            charging: self.charging,
            battery_state: opt_view(self.battery_state),
            health_percent: self.health_percent,
        }
    }
}

impl Clone for SystemBatteryEvidence {
    fn clone(&self) -> (r: Self)
        ensures
            r@ == self@,
            r == *self,
    {
        SystemBatteryEvidence {
            present: self.present,
            percent: self.percent,
            ac_online: self.ac_online,
            charging: self.charging,
            battery_state: self.battery_state.clone(),
            health_percent: self.health_percent,
        }
    }
}

/// What one wireless adapter tells.
#[derive(Debug)]
pub struct SystemWifiEvidence {
    pub description: String,
    pub state: String,
    pub signal_percent: Option<u32>,
    pub link_speed_mbps: Option<Real>,
}

/// [`SystemWifiEvidence`] taken by its views.
#[verifier::ext_equal]
pub struct SystemWifiEvidenceView {
    pub description: Seq<char>,
    pub state: Seq<char>,
    pub signal_percent: Option<u32>,
    pub link_speed_mbps: Option<Real>,
}

impl View for SystemWifiEvidence {
    type V = SystemWifiEvidenceView;

    open spec fn view(&self) -> SystemWifiEvidenceView {
        SystemWifiEvidenceView {
            description: self.description@,
            state: self.state@,
            signal_percent: self.signal_percent,
            link_speed_mbps: self.link_speed_mbps,
        }
    }
}

impl Clone for SystemWifiEvidence {
    fn clone(&self) -> (r: Self)
        ensures
            r@ == self@,
            r == *self,
    {
        SystemWifiEvidence {
            description: self.description.clone(),
            state: self.state.clone(),
            signal_percent: self.signal_percent,
            link_speed_mbps: self.link_speed_mbps,
        }
    }
}

/// The same items again.
pub fn copy_system_wifi_evidences(v: &Vec<SystemWifiEvidence>) -> (r: Vec<SystemWifiEvidence>)
    ensures
        r@.map_values(|x: SystemWifiEvidence| x@) == v@.map_values(|x: SystemWifiEvidence| x@),
{
    let mut out: Vec<SystemWifiEvidence> = Vec::new();
    let mut i: usize = 0;
    while i < v.len()
        invariant
            i <= v@.len(),
            out@.len() == i,
            forall|k: int| 0 <= k < i ==> (#[trigger] out@[k])@ == v@[k]@,
        decreases v@.len() - i,
    {
        out.push(v[i].clone());
        i = i + 1;
    }
    assert(out@.map_values(|x: SystemWifiEvidence| x@) =~= v@.map_values(|x: SystemWifiEvidence| x@));
    out
}

/// The space on one volume, where it is known.
#[derive(Debug)]
pub struct SystemDriveEvidence {
    pub subject: String,
    pub free_bytes: u64,
    pub total_bytes: u64,
}

/// [`SystemDriveEvidence`] taken by its views.
#[verifier::ext_equal]
pub struct SystemDriveEvidenceView {
    pub subject: Seq<char>,
    pub free_bytes: u64,
    pub total_bytes: u64,
}

impl View for SystemDriveEvidence {
    type V = SystemDriveEvidenceView;

    open spec fn view(&self) -> SystemDriveEvidenceView {
        SystemDriveEvidenceView {
            subject: self.subject@,
            free_bytes: self.free_bytes,
            total_bytes: self.total_bytes,
        }
    }
}

impl Clone for SystemDriveEvidence {
    fn clone(&self) -> (r: Self)
        ensures
            r@ == self@,
            r == *self,
    {
        SystemDriveEvidence {
            subject: self.subject.clone(),
            free_bytes: self.free_bytes,
            total_bytes: self.total_bytes,
        }
    }
}

/// The same items again.
pub fn copy_system_drive_evidences(v: &Vec<SystemDriveEvidence>) -> (r: Vec<SystemDriveEvidence>)
    ensures
        r@.map_values(|x: SystemDriveEvidence| x@) == v@.map_values(|x: SystemDriveEvidence| x@),
{
    let mut out: Vec<SystemDriveEvidence> = Vec::new();
    let mut i: usize = 0;
    while i < v.len()
        invariant
            i <= v@.len(),
            out@.len() == i,
            forall|k: int| 0 <= k < i ==> (#[trigger] out@[k])@ == v@[k]@,
        decreases v@.len() - i,
    {
        out.push(v[i].clone());
        i = i + 1;
    }
    assert(out@.map_values(|x: SystemDriveEvidence| x@) =~= v@.map_values(|x: SystemDriveEvidence| x@));
    out
}

/// What one application takes.
#[derive(Debug)]
pub struct SystemAppEvidence {
    pub name: String,
    pub display_name: String,
    pub process_count: usize,
    pub tree_process_count: usize,
    pub working_set_bytes: u64,
    pub own_working_set_bytes: u64,
    pub cpu_percent: Option<Real>,
}

/// [`SystemAppEvidence`] taken by its views.
#[verifier::ext_equal]
pub struct SystemAppEvidenceView {
    pub name: Seq<char>,
    pub display_name: Seq<char>,
    pub process_count: usize,
    pub tree_process_count: usize,
    pub working_set_bytes: u64,
    pub own_working_set_bytes: u64,
    pub cpu_percent: Option<Real>,
}

impl View for SystemAppEvidence {
    type V = SystemAppEvidenceView;

    open spec fn view(&self) -> SystemAppEvidenceView {
        SystemAppEvidenceView {
            name: self.name@,
            display_name: self.display_name@,
            process_count: self.process_count,
            tree_process_count: self.tree_process_count,
            working_set_bytes: self.working_set_bytes,
            own_working_set_bytes: self.own_working_set_bytes,
            cpu_percent: self.cpu_percent,
        }
    }
}

impl Clone for SystemAppEvidence {
    fn clone(&self) -> (r: Self)
        ensures
            r@ == self@,
            r == *self,
    {
        SystemAppEvidence {
            name: self.name.clone(),
            display_name: self.display_name.clone(),
            process_count: self.process_count,
            tree_process_count: self.tree_process_count,
            working_set_bytes: self.working_set_bytes,
            own_working_set_bytes: self.own_working_set_bytes,
            cpu_percent: self.cpu_percent,
        }
    }
}

/// The same items again.
pub fn copy_system_app_evidences(v: &Vec<SystemAppEvidence>) -> (r: Vec<SystemAppEvidence>)
    ensures
        r@.map_values(|x: SystemAppEvidence| x@) == v@.map_values(|x: SystemAppEvidence| x@),
{
    let mut out: Vec<SystemAppEvidence> = Vec::new();
    let mut i: usize = 0;
    while i < v.len()
        invariant
            i <= v@.len(),
            out@.len() == i,
            forall|k: int| 0 <= k < i ==> (#[trigger] out@[k])@ == v@[k]@,
        decreases v@.len() - i,
    {
        out.push(v[i].clone());
        i = i + 1;
    }
    assert(out@.map_values(|x: SystemAppEvidence| x@) =~= v@.map_values(|x: SystemAppEvidence| x@));
    out
}

/// The evidence that a diagnosis rests on.
#[derive(Debug)]
pub struct SystemDiagnosticData {
    pub memory_load_percent: Option<Real>,
    pub memory_available_bytes: Option<u64>,
    pub memory_total_bytes: Option<u64>,
    pub memory_growth_bytes_per_second: Option<i64>,
    pub drives: Vec<SystemDriveEvidence>,
    pub app_groups: Vec<SystemAppEvidence>,
    pub thermal: Option<SystemThermalEvidence>,
    pub storage_health: Vec<SystemStorageHealthEvidence>,
    pub battery: Option<SystemBatteryEvidence>,
    pub wifi: Vec<SystemWifiEvidence>,
}

/// [`SystemDiagnosticData`] taken by its views.
#[verifier::ext_equal]
pub struct SystemDiagnosticDataView {
    pub memory_load_percent: Option<Real>,
    pub memory_available_bytes: Option<u64>,
    pub memory_total_bytes: Option<u64>,
    pub memory_growth_bytes_per_second: Option<i64>,
    pub drives: Seq<SystemDriveEvidenceView>,
    pub app_groups: Seq<SystemAppEvidenceView>,
    pub thermal: Option<SystemThermalEvidenceView>,
    pub storage_health: Seq<SystemStorageHealthEvidenceView>,
    pub battery: Option<SystemBatteryEvidenceView>,
    pub wifi: Seq<SystemWifiEvidenceView>,
}

impl View for SystemDiagnosticData {
    type V = SystemDiagnosticDataView;

    open spec fn view(&self) -> SystemDiagnosticDataView {
        SystemDiagnosticDataView {
            memory_load_percent: self.memory_load_percent,
            memory_available_bytes: self.memory_available_bytes,
            memory_total_bytes: self.memory_total_bytes,
            memory_growth_bytes_per_second: self.memory_growth_bytes_per_second,
            drives: self.drives@.map_values(|x: SystemDriveEvidence| x@),
            app_groups: self.app_groups@.map_values(|x: SystemAppEvidence| x@),
            thermal: match self.thermal {
                Some(x) => Some(x@),
                None => None,
            },
            storage_health: self.storage_health@.map_values(|x: SystemStorageHealthEvidence| x@),
            battery: match self.battery {
                Some(x) => Some(x@),
                None => None,
            },
            wifi: self.wifi@.map_values(|x: SystemWifiEvidence| x@),
        }
    }
}

impl Clone for SystemDiagnosticData {
    fn clone(&self) -> (r: Self)
        ensures
            r@ == self@,
    {
        SystemDiagnosticData {
            memory_load_percent: self.memory_load_percent,
            memory_available_bytes: self.memory_available_bytes,
            memory_total_bytes: self.memory_total_bytes,
            memory_growth_bytes_per_second: self.memory_growth_bytes_per_second,
            drives: copy_system_drive_evidences(&self.drives),
            app_groups: copy_system_app_evidences(&self.app_groups),
            thermal: match &self.thermal {
                Some(x) => Some(x.clone()),
                None => None,
            },
            storage_health: copy_system_storage_health_evidences(&self.storage_health),
            battery: match &self.battery {
                Some(x) => Some(x.clone()),
                None => None,
            },
            wifi: copy_system_wifi_evidences(&self.wifi),
        }
    }
}

/// The first `n` items again.
pub fn first_process_infos(v: &Vec<ProcessInfo>, n: usize) -> (r: Vec<ProcessInfo>)
    ensures
        r@.map_values(|x: ProcessInfo| x@) == first_of_all(v@.map_values(|x: ProcessInfo| x@), n as int),
{
    let total: usize = v.len();
    let kept: usize = if total < n {
        total
    } else {
        n
    };
    let mut out: Vec<ProcessInfo> = Vec::new();
    let mut i: usize = 0;
    while i < kept
        invariant
            kept <= v@.len(),
            i <= kept,
            out@.len() == i,
            forall|k: int| 0 <= k < i ==> (#[trigger] out@[k])@ == v@[k]@,
        decreases kept - i,
    {
        out.push(v[i].clone());
        i = i + 1;
    }
    assert(out@.map_values(|x: ProcessInfo| x@) =~= first_of_all(v@.map_values(|x: ProcessInfo| x@), n as int));
    out
}

/// The first `n` items again.
pub fn first_port_infos(v: &Vec<PortInfo>, n: usize) -> (r: Vec<PortInfo>)
    ensures
        r@.map_values(|x: PortInfo| x@) == first_of_all(v@.map_values(|x: PortInfo| x@), n as int),
{
    let total: usize = v.len();
    let kept: usize = if total < n {
        total
    } else {
        n
    };
    let mut out: Vec<PortInfo> = Vec::new();
    let mut i: usize = 0;
    while i < kept
        invariant
            kept <= v@.len(),
            i <= kept,
            out@.len() == i,
            forall|k: int| 0 <= k < i ==> (#[trigger] out@[k])@ == v@[k]@,
        decreases kept - i,
    {
        out.push(v[i].clone());
        i = i + 1;
    }
    assert(out@.map_values(|x: PortInfo| x@) =~= first_of_all(v@.map_values(|x: PortInfo| x@), n as int));
    out
}

/// The first `n` items again.
pub fn first_connection_infos(v: &Vec<ConnectionInfo>, n: usize) -> (r: Vec<ConnectionInfo>)
    ensures
        r@.map_values(|x: ConnectionInfo| x@) == first_of_all(v@.map_values(|x: ConnectionInfo| x@), n as int),
{
    let total: usize = v.len();
    let kept: usize = if total < n {
        total
    } else {
        n
    };
    let mut out: Vec<ConnectionInfo> = Vec::new();
    let mut i: usize = 0;
    while i < kept
        invariant
            kept <= v@.len(),
            i <= kept,
            out@.len() == i,
            forall|k: int| 0 <= k < i ==> (#[trigger] out@[k])@ == v@[k]@,
        decreases kept - i,
    {
        out.push(v[i].clone());
        i = i + 1;
    }
    assert(out@.map_values(|x: ConnectionInfo| x@) =~= first_of_all(v@.map_values(|x: ConnectionInfo| x@), n as int));
    out
}

/// The first `n` items again.
pub fn first_service_infos(v: &Vec<ServiceInfo>, n: usize) -> (r: Vec<ServiceInfo>)
    ensures
        r@.map_values(|x: ServiceInfo| x@) == first_of_all(v@.map_values(|x: ServiceInfo| x@), n as int),
{
    let total: usize = v.len();
    let kept: usize = if total < n {
        total
    } else {
        n
    };
    let mut out: Vec<ServiceInfo> = Vec::new();
    let mut i: usize = 0;
    while i < kept
        invariant
            kept <= v@.len(),
            i <= kept,
            out@.len() == i,
            forall|k: int| 0 <= k < i ==> (#[trigger] out@[k])@ == v@[k]@,
        decreases kept - i,
    {
        out.push(v[i].clone());
        i = i + 1;
    }
    assert(out@.map_values(|x: ServiceInfo| x@) =~= first_of_all(v@.map_values(|x: ServiceInfo| x@), n as int));
    out
}

/// The first `n` items again.
pub fn first_hotfixes(v: &Vec<Hotfix>, n: usize) -> (r: Vec<Hotfix>)
    ensures
        r@.map_values(|x: Hotfix| x@) == first_of_all(v@.map_values(|x: Hotfix| x@), n as int),
{
    let total: usize = v.len();
    let kept: usize = if total < n {
        total
    } else {
        n
    };
    let mut out: Vec<Hotfix> = Vec::new();
    let mut i: usize = 0;
    while i < kept
        invariant
            kept <= v@.len(),
            i <= kept,
            out@.len() == i,
            forall|k: int| 0 <= k < i ==> (#[trigger] out@[k])@ == v@[k]@,
        decreases kept - i,
    {
        out.push(v[i].clone());
        i = i + 1;
    }
    assert(out@.map_values(|x: Hotfix| x@) =~= first_of_all(v@.map_values(|x: Hotfix| x@), n as int));
    out
}

/// The first `n` items again.
pub fn first_installed_software(v: &Vec<InstalledSoftware>, n: usize) -> (r: Vec<InstalledSoftware>)
    ensures
        r@.map_values(|x: InstalledSoftware| x@) == first_of_all(v@.map_values(|x: InstalledSoftware| x@), n as int),
{
    let total: usize = v.len();
    let kept: usize = if total < n {
        total
    } else {
        n
    };
    let mut out: Vec<InstalledSoftware> = Vec::new();
    let mut i: usize = 0;
    while i < kept
        invariant
            kept <= v@.len(),
            i <= kept,
            out@.len() == i,
            forall|k: int| 0 <= k < i ==> (#[trigger] out@[k])@ == v@[k]@,
        decreases kept - i,
    {
        out.push(v[i].clone());
        i = i + 1;
    }
    assert(out@.map_values(|x: InstalledSoftware| x@) =~= first_of_all(v@.map_values(|x: InstalledSoftware| x@), n as int));
    out
}

/// The first `n` items, or all where there are fewer.
pub open spec fn first_of_all<A>(s: Seq<A>, n: int) -> Seq<A> {
    if s.len() <= n {
        s
    } else {
        s.take(n)
    }
}

/// One process of a tree, with the processes that it started.
#[derive(Debug)]
pub struct ProcessTreeNode {
    pub pid: u32,
    pub name: String,
    pub parent_pid: Option<u32>,
    pub working_set_bytes: Option<u64>,
    pub threads: Option<u32>,
    pub cpu_time_ms: Option<u64>,
    pub depth: u32,
    pub children: Vec<ProcessTreeNode>,
}

} // verus!
