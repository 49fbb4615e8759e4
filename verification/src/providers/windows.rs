//! What the operating system is asked.

use crate::errors::WinkitError;
use crate::models::{
    ApplicationGroupInfo, BatteryStatus, ConnectionInfo, DevEnvironment, DiskHealthReport,
    DiskUsage, DriveInfo, EventInfo, EventQuery, HardwareSnapshot, NetworkDiagnosis,
    NetworkInterfaceInfo, NetworkSnapshot, PathAudit, PortInfo, PowerStatus, ProcessInfo,
    ProcessOnPort, ProcessTreeNode, RegistryDiagnostics, ResourceSnapshot, ServiceInfo,
    StorageActivity, SystemInfo, ThermalSnapshot, UpdateStatus, WifiAdapterStatus, WifiScan,
    WindowInfo,
};
use vstd::prelude::*;

verus! {

/// Everything the tools read of the operating system. Nothing is promised of
/// an answer: what the tools do is stated for every answer there can be.
pub trait WindowsBackend {
    /// What is known of the machine itself.
    fn system_info(&self) -> Result<SystemInfo, WinkitError>;

    /// How busy the machine is, over an interval.
    fn resource_snapshot(&self, sample_interval_ms: u64) -> Result<ResourceSnapshot, WinkitError>;

    /// The running processes, at most `limit`.
    fn list_processes(&self, limit: usize) -> Result<Vec<ProcessInfo>, WinkitError>;

    /// The process with this id.
    fn get_process(&self, pid: u32) -> Result<Option<ProcessInfo>, WinkitError>;

    /// The process with this id and what it started.
    fn get_process_tree(&self, pid: u32, max_depth: u32, max_nodes: usize) -> Result<
        Option<ProcessTreeNode>,
        WinkitError,
    >;

    /// The processes whose name holds `needle`, at most `limit`.
    fn find_process(&self, needle: &str, limit: usize) -> Result<Vec<ProcessInfo>, WinkitError>;

    /// The ports that are listened on, at most `limit`.
    fn list_listening_ports(&self, limit: usize) -> Result<Vec<PortInfo>, WinkitError>;

    /// The process that listens on a port.
    fn find_process_on_port(&self, port: u16) -> Result<Option<ProcessOnPort>, WinkitError>;

    /// The network interfaces.
    fn list_network_interfaces(&self) -> Result<Vec<NetworkInterfaceInfo>, WinkitError>;

    /// The network connections, at most `limit`.
    fn list_connections(&self, limit: usize) -> Result<Vec<ConnectionInfo>, WinkitError>;

    /// The storage volumes.
    fn list_drives(&self) -> Result<Vec<DriveInfo>, WinkitError>;

    /// The space on the volume that holds a path.
    fn disk_usage(&self, path: &str) -> Result<DiskUsage, WinkitError>;

    /// The services, at most `limit`.
    fn list_services(&self, limit: usize) -> Result<Vec<ServiceInfo>, WinkitError>;

    /// The service of a name.
    fn get_service(&self, name: &str) -> Result<Option<ServiceInfo>, WinkitError>;

    /// The entries of an event log.
    fn get_recent_events(&self, query: &EventQuery) -> Result<Vec<EventInfo>, WinkitError>;

    /// The top-level windows, at most `limit`.
    fn list_windows(&self, limit: usize, visible_only: bool) -> Result<
        Vec<WindowInfo>,
        WinkitError,
    >;

    /// The title of the window in front.
    fn foreground_window_title(&self) -> Result<Option<String>, WinkitError>;

    /// The processes by application, at most `limit` groups.
    fn application_groups(&self, limit: usize) -> Result<Vec<ApplicationGroupInfo>, WinkitError>;

    /// The development tools and servers.
    fn dev_environment(&self) -> Result<DevEnvironment, WinkitError>;

    /// The hardware.
    fn hardware_snapshot(&self) -> Result<HardwareSnapshot, WinkitError>;

    /// The temperatures.
    fn thermal_snapshot(&self) -> Result<ThermalSnapshot, WinkitError>;

    /// The battery.
    fn battery_status(&self) -> Result<BatteryStatus, WinkitError>;

    /// Where the power comes from.
    fn power_status(&self) -> Result<PowerStatus, WinkitError>;

    /// The health of the storage devices.
    fn disk_health(&self) -> Result<DiskHealthReport, WinkitError>;

    /// How busy the disks are, over a window.
    fn storage_activity(&self, sample_window_ms: u64) -> Result<StorageActivity, WinkitError>;

    /// The network.
    fn network_snapshot(&self) -> Result<NetworkSnapshot, WinkitError>;

    /// The wireless adapters.
    fn wifi_status(&self) -> Result<Vec<WifiAdapterStatus>, WinkitError>;

    /// The wireless networks in reach.
    fn wifi_scan(&self) -> Result<WifiScan, WinkitError>;

    /// What is wrong with the network, over a window.
    fn network_diagnose(&self, sample_window_ms: u64) -> Result<NetworkDiagnosis, WinkitError>;

    /// What the allowed registry keys hold.
    fn registry_diagnostics(&self, include_software: bool, max_software: usize) -> Result<
        RegistryDiagnostics,
        WinkitError,
    >;

    /// What is wrong with the search path.
    fn path_audit(&self) -> Result<PathAudit, WinkitError>;

    /// Whether updates are pending or installed.
    fn update_status(&self, max_hotfixes: usize) -> Result<UpdateStatus, WinkitError>;
}

} // verus!
