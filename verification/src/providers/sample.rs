//! A sample machine: fixed answers to everything that a machine is asked.

use crate::models::{
    BatteryHealth, BatteryHealthView, BatteryInfo, BatteryInfoView, BatteryStatus,
    BatteryStatusView, ConnectionInfo, ConnectionInfoView, CpuHardwareInfo, CpuHardwareInfoView,
    DevEnvironment, DevEnvironmentView, DevServerInfo, DevServerInfoView, DevTool, DevToolView,
    DiskActivity, DiskActivityView, DiskHealthReport, DiskHealthReportView, DiskUsage,
    DiskUsageView, DriveInfo, DriveInfoView, EventInfo, EventInfoView, EventLevel, EvidencePoint,
    EvidencePointView, GpuHardwareInfo, GpuHardwareInfoView, HardwareSnapshot, HardwareSnapshotView,
    Hotfix, HotfixView, InstalledSoftware, InstalledSoftwareView, MemoryHardwareInfo,
    MemoryHardwareInfoView, NetworkAdapterInfo, NetworkAdapterInfoView, NetworkDiagnosis,
    NetworkDiagnosisView, NetworkDiagnosticInterface, NetworkDiagnosticInterfaceView,
    NetworkInterfaceInfo, NetworkInterfaceInfoView, PathAudit, PathAuditView, PathEntry,
    PathEntryView, PortInfo, PortInfoView, PowerStateInfo, PowerStateInfoView, PowerStatus,
    PowerStatusView, ProcessEntry, ProcessEntryView, Real, RegistryCounts, RegistryCountsView,
    RegistryDiagnostics, RegistryDiagnosticsView, ResourceSnapshot, ResourceSnapshotView,
    SensorAvailability, SensorClass, SensorKind, SensorQuality, SensorReading, SensorReadingView,
    SensorSource, ServiceInfo, ServiceInfoView, StartupProgram, StartupProgramView, StorageActivity,
    StorageActivityView, StorageDeviceInfo, StorageDeviceInfoView, StorageHealthDevice,
    StorageHealthDeviceView, SystemIdentity, SystemIdentityView, SystemInfo, SystemInfoView,
    ThermalSnapshot, ThermalSnapshotView, ThermalStateSummary, ThermalStateSummaryView,
    UnavailableReading, UnavailableReadingView, UpdateStatus, UpdateStatusView, WifiAdapterStatus,
    WifiAdapterStatusView, WifiNetwork, WifiNetworkView, WifiScan, WifiScanView, WindowInfo,
    WindowInfoView,
};
use crate::text::{opt_view, views};
use vstd::prelude::*;
use vstd::string::*;

verus! {

/// The ports of the sample machine.
pub open spec fn sample_ports_view() -> Seq<PortInfoView> {
    seq![
        PortInfoView {
            port: 3000,
            protocol: "tcp"@,
            pid: Some(900),
            process_name: Some("node.exe"@),
            state: Some("listen"@),
            address: "127.0.0.1"@,
        },
        PortInfoView {
            port: 9222,
            protocol: "tcp"@,
            pid: Some(420),
            process_name: Some("chrome.exe"@),
            state: Some("listen"@),
            address: "127.0.0.1"@,
        },
        PortInfoView {
            port: 5432,
            protocol: "tcp"@,
            pid: Some(771),
            process_name: Some("postgres.exe"@),
            state: Some("listen"@),
            address: "0.0.0.0"@,
        },
    ]
}

/// The ports of the sample machine.
pub fn sample_ports() -> (r: Vec<PortInfo>)
    ensures
        r@.map_values(|x: PortInfo| x@) == sample_ports_view(),
{
    let list_1: Vec<PortInfo> = vec![
        PortInfo {
            port: 3000,
            protocol: "tcp".to_string(),
            pid: Some(900),
            process_name: Some("node.exe".to_string()),
            state: Some("listen".to_string()),
            address: "127.0.0.1".to_string(),
        },
        PortInfo {
            port: 9222,
            protocol: "tcp".to_string(),
            pid: Some(420),
            process_name: Some("chrome.exe".to_string()),
            state: Some("listen".to_string()),
            address: "127.0.0.1".to_string(),
        },
        PortInfo {
            port: 5432,
            protocol: "tcp".to_string(),
            pid: Some(771),
            process_name: Some("postgres.exe".to_string()),
            state: Some("listen".to_string()),
            address: "0.0.0.0".to_string(),
        },
    ];
    assert(list_1@.map_values(|x: PortInfo| x@) =~= sample_ports_view());
    list_1
}

/// The connections of the sample machine.
pub open spec fn sample_connections_view() -> Seq<ConnectionInfoView> {
    seq![
        ConnectionInfoView {
            protocol: "tcp"@,
            state: "established"@,
            local_address: "127.0.0.1"@,
            local_port: 3000,
            remote_address: "127.0.0.1"@,
            remote_port: 52340,
            pid: Some(900),
            process_name: Some("node.exe"@),
        },
    ]
}

/// The connections of the sample machine.
pub fn sample_connections() -> (r: Vec<ConnectionInfo>)
    ensures
        r@.map_values(|x: ConnectionInfo| x@) == sample_connections_view(),
{
    let list_1: Vec<ConnectionInfo> = vec![
        ConnectionInfo {
            protocol: "tcp".to_string(),
            state: "established".to_string(),
            local_address: "127.0.0.1".to_string(),
            local_port: 3000,
            remote_address: "127.0.0.1".to_string(),
            remote_port: 52340,
            pid: Some(900),
            process_name: Some("node.exe".to_string()),
        },
    ];
    assert(list_1@.map_values(|x: ConnectionInfo| x@) =~= sample_connections_view());
    list_1
}

/// The interfaces of the sample machine.
pub open spec fn sample_interfaces_view() -> Seq<NetworkInterfaceInfoView> {
    seq![
        NetworkInterfaceInfoView {
            index: 1,
            name: "Ethernet"@,
            description: "Intel(R) Ethernet Connection"@,
            mac_address: Some("00:11:22:33:44:55"@),
            ipv4_addresses: seq!["192.168.1.20"@],
            ipv4_masks: seq!["255.255.255.0"@],
            gateway: Some("192.168.1.1"@),
            is_loopback: false,
            is_up: true,
        },
    ]
}

/// The interfaces of the sample machine.
pub fn sample_interfaces() -> (r: Vec<NetworkInterfaceInfo>)
    ensures
        r@.map_values(|x: NetworkInterfaceInfo| x@) == sample_interfaces_view(),
{
    let list_1: Vec<String> = vec!["192.168.1.20".to_string()];
    assert(views(list_1@) =~= seq!["192.168.1.20"@]);
    let list_2: Vec<String> = vec!["255.255.255.0".to_string()];
    assert(views(list_2@) =~= seq!["255.255.255.0"@]);
    let list_3: Vec<NetworkInterfaceInfo> = vec![
        NetworkInterfaceInfo {
            index: 1,
            name: "Ethernet".to_string(),
            description: "Intel(R) Ethernet Connection".to_string(),
            mac_address: Some("00:11:22:33:44:55".to_string()),
            ipv4_addresses: list_1,
            ipv4_masks: list_2,
            gateway: Some("192.168.1.1".to_string()),
            is_loopback: false,
            is_up: true,
        },
    ];
    assert(list_3@.map_values(|x: NetworkInterfaceInfo| x@) =~= sample_interfaces_view());
    list_3
}

/// The volumes of the sample machine.
pub open spec fn sample_drives_view() -> Seq<DriveInfoView> {
    seq![
        DriveInfoView {
            root: "C:\\"@,
            kind: "fixed"@,
            total_bytes: Some(1_000_000_000_000),
            free_bytes: Some(400_000_000_000),
            used_bytes: Some(600_000_000_000),
            percent_used: Some(Real { bits: 0x404e000000000000 }),
        },
    ]
}

/// The volumes of the sample machine.
pub fn sample_drives() -> (r: Vec<DriveInfo>)
    ensures
        r@.map_values(|x: DriveInfo| x@) == sample_drives_view(),
{
    let list_1: Vec<DriveInfo> = vec![
        DriveInfo {
            root: "C:\\".to_string(),
            kind: "fixed".to_string(),
            total_bytes: Some(1_000_000_000_000),
            free_bytes: Some(400_000_000_000),
            used_bytes: Some(600_000_000_000),
            percent_used: Some(Real { bits: 0x404e000000000000 }),
        },
    ];
    assert(list_1@.map_values(|x: DriveInfo| x@) =~= sample_drives_view());
    list_1
}

/// The services of the sample machine.
pub open spec fn sample_services_view() -> Seq<ServiceInfoView> {
    seq![
        ServiceInfoView {
            name: "Spooler"@,
            display_name: "Print Spooler"@,
            state: "running"@,
            service_type: "win32_share_process"@,
            process_id: Some(771),
            win32_exit_code: None,
            start_type: Some("auto"@),
            binary_path: Some("C:\\Windows\\System32\\spoolsv.exe"@),
            service_start_name: Some("LocalSystem"@),
        },
    ]
}

/// The services of the sample machine.
pub fn sample_services() -> (r: Vec<ServiceInfo>)
    ensures
        r@.map_values(|x: ServiceInfo| x@) == sample_services_view(),
{
    let list_1: Vec<ServiceInfo> = vec![
        ServiceInfo {
            name: "Spooler".to_string(),
            display_name: "Print Spooler".to_string(),
            state: "running".to_string(),
            service_type: "win32_share_process".to_string(),
            process_id: Some(771),
            win32_exit_code: None,
            start_type: Some("auto".to_string()),
            binary_path: Some("C:\\Windows\\System32\\spoolsv.exe".to_string()),
            service_start_name: Some("LocalSystem".to_string()),
        },
    ];
    assert(list_1@.map_values(|x: ServiceInfo| x@) =~= sample_services_view());
    list_1
}

/// The events of the sample machine; the time of the crash is given.
pub open spec fn sample_events_view(time: Option<Seq<char>>) -> Seq<EventInfoView> {
    seq![
        EventInfoView {
            record_id: Some(42),
            event_id: Some(1000),
            level: EventLevel::Error,
            provider: Some("Application Error"@),
            channel: Some("Application"@),
            time_created: time,
            computer: Some("DESKTOP-X"@),
            process_id: Some(521),
            message: Some("Faulting application name: chrome.exe"@),
            message_truncated: None,
        },
    ]
}

/// The events of the sample machine; the time of the crash is given.
pub fn sample_events(time: Option<String>) -> (r: Vec<EventInfo>)
    ensures
        r@.map_values(|x: EventInfo| x@) == sample_events_view(opt_view(time)),
{
    let list_1: Vec<EventInfo> = vec![
        EventInfo {
            record_id: Some(42),
            event_id: Some(1000),
            level: EventLevel::Error,
            provider: Some("Application Error".to_string()),
            channel: Some("Application".to_string()),
            time_created: time,
            computer: Some("DESKTOP-X".to_string()),
            process_id: Some(521),
            message: Some("Faulting application name: chrome.exe".to_string()),
            message_truncated: None,
        },
    ];
    assert(list_1@.map_values(|x: EventInfo| x@) =~= sample_events_view(opt_view(time)));
    list_1
}

/// The registry of the sample machine.
pub open spec fn sample_registry_view() -> RegistryDiagnosticsView {
    RegistryDiagnosticsView {
        system_identity: SystemIdentityView {
            product_name: Some("Windows 11 Pro"@),
            display_version: Some("23H2"@),
            current_version: Some("6.3"@),
            current_build: Some("22631"@),
            ubr: Some("4036"@),
            install_date: Some("2024-01-15T00:00:00.000Z"@),
            edition_id: Some("Professional"@),
            build_lab_ex: Some("22631.1.amd64fre.ni_release.220506-1250"@),
        },
        startup_programs: seq![
            StartupProgramView {
                name: "OneDrive"@,
                command: "C:\\Program Files\\Microsoft OneDrive\\OneDrive.exe /background"@,
                scope: "user"@,
                source_key: "HKCU\\SOFTWARE\\Microsoft\\Windows\\CurrentVersion\\Run"@,
                enabled: true,
                entry_type: "run"@,
                hidden: false,
                impact: "medium"@,
                impact_reasons: seq!["executable is sizable (~29 MB)"@],
            },
            StartupProgramView {
                name: "OldTool"@,
                command: "C:\\Tools\\old.exe"@,
                scope: "machine"@,
                source_key: "HKLM\\SOFTWARE\\Microsoft\\Windows\\CurrentVersion\\Run"@,
                enabled: false,
                entry_type: "run"@,
                hidden: false,
                impact: "none"@,
                impact_reasons: seq!["entry is disabled; it does not run at startup until re-enabled"@],
            },
            StartupProgramView {
                name: "TelemetrySetup"@,
                command: "C:\\Tools\\telemetry_setup.exe /quiet"@,
                scope: "user"@,
                source_key: "HKCU\\SOFTWARE\\Microsoft\\Windows\\CurrentVersion\\RunOnce"@,
                enabled: true,
                entry_type: "run_once"@,
                hidden: true,
                impact: "low"@,
                impact_reasons: seq!["one-shot entry; Windows deletes it after the next logon"@],
            },
        ],
        installed_software: seq![
            InstalledSoftwareView {
                name: "Visual Studio Code"@,
                version: Some("1.90.0"@),
                publisher: Some("Microsoft Corporation"@),
                install_date: None,
            },
            InstalledSoftwareView {
                name: "Git"@,
                version: Some("2.45.0"@),
                publisher: Some("The Git Development Community"@),
                install_date: Some("20240601"@),
            },
        ],
        counts: RegistryCountsView { startup_programs: 3, installed_software: 2 },
        warnings: Seq::empty(),
    }
}

/// The registry of the sample machine.
pub fn sample_registry() -> (r: RegistryDiagnostics)
    ensures
        r@ == sample_registry_view(),
{
    let list_1: Vec<String> = vec!["executable is sizable (~29 MB)".to_string()];
    assert(views(list_1@) =~= seq!["executable is sizable (~29 MB)"@]);
    let list_2: Vec<String> = vec![
        "entry is disabled; it does not run at startup until re-enabled".to_string(),
    ];
    assert(views(list_2@) =~= seq!["entry is disabled; it does not run at startup until re-enabled"@]);
    let list_3: Vec<String> = vec![
        "one-shot entry; Windows deletes it after the next logon".to_string(),
    ];
    assert(views(list_3@) =~= seq!["one-shot entry; Windows deletes it after the next logon"@]);
    let list_4: Vec<StartupProgram> = vec![
        StartupProgram {
            name: "OneDrive".to_string(),
            command: "C:\\Program Files\\Microsoft OneDrive\\OneDrive.exe /background".to_string(),
            scope: "user".to_string(),
            source_key: "HKCU\\SOFTWARE\\Microsoft\\Windows\\CurrentVersion\\Run".to_string(),
            enabled: true,
            entry_type: "run".to_string(),
            hidden: false,
            impact: "medium".to_string(),
            impact_reasons: list_1,
        },
        StartupProgram {
            name: "OldTool".to_string(),
            command: "C:\\Tools\\old.exe".to_string(),
            scope: "machine".to_string(),
            source_key: "HKLM\\SOFTWARE\\Microsoft\\Windows\\CurrentVersion\\Run".to_string(),
            enabled: false,
            entry_type: "run".to_string(),
            hidden: false,
            impact: "none".to_string(),
            impact_reasons: list_2,
        },
        StartupProgram {
            name: "TelemetrySetup".to_string(),
            command: "C:\\Tools\\telemetry_setup.exe /quiet".to_string(),
            scope: "user".to_string(),
            source_key: "HKCU\\SOFTWARE\\Microsoft\\Windows\\CurrentVersion\\RunOnce".to_string(),
            enabled: true,
            entry_type: "run_once".to_string(),
            hidden: true,
            impact: "low".to_string(),
            impact_reasons: list_3,
        },
    ];
    assert(list_4@.map_values(|x: StartupProgram| x@) =~= seq![
        StartupProgramView {
            name: "OneDrive"@,
            command: "C:\\Program Files\\Microsoft OneDrive\\OneDrive.exe /background"@,
            scope: "user"@,
            source_key: "HKCU\\SOFTWARE\\Microsoft\\Windows\\CurrentVersion\\Run"@,
            enabled: true,
            entry_type: "run"@,
            hidden: false,
            impact: "medium"@,
            impact_reasons: seq!["executable is sizable (~29 MB)"@],
        },
        StartupProgramView {
            name: "OldTool"@,
            command: "C:\\Tools\\old.exe"@,
            scope: "machine"@,
            source_key: "HKLM\\SOFTWARE\\Microsoft\\Windows\\CurrentVersion\\Run"@,
            enabled: false,
            entry_type: "run"@,
            hidden: false,
            impact: "none"@,
            impact_reasons: seq!["entry is disabled; it does not run at startup until re-enabled"@],
        },
        StartupProgramView {
            name: "TelemetrySetup"@,
            command: "C:\\Tools\\telemetry_setup.exe /quiet"@,
            scope: "user"@,
            source_key: "HKCU\\SOFTWARE\\Microsoft\\Windows\\CurrentVersion\\RunOnce"@,
            enabled: true,
            entry_type: "run_once"@,
            hidden: true,
            impact: "low"@,
            impact_reasons: seq!["one-shot entry; Windows deletes it after the next logon"@],
        },
    ]);
    let list_5: Vec<InstalledSoftware> = vec![
        InstalledSoftware {
            name: "Visual Studio Code".to_string(),
            version: Some("1.90.0".to_string()),
            publisher: Some("Microsoft Corporation".to_string()),
            install_date: None,
        },
        InstalledSoftware {
            name: "Git".to_string(),
            version: Some("2.45.0".to_string()),
            publisher: Some("The Git Development Community".to_string()),
            install_date: Some("20240601".to_string()),
        },
    ];
    assert(list_5@.map_values(|x: InstalledSoftware| x@) =~= seq![
        InstalledSoftwareView {
            name: "Visual Studio Code"@,
            version: Some("1.90.0"@),
            publisher: Some("Microsoft Corporation"@),
            install_date: None,
        },
        InstalledSoftwareView {
            name: "Git"@,
            version: Some("2.45.0"@),
            publisher: Some("The Git Development Community"@),
            install_date: Some("20240601"@),
        },
    ]);
    let list_6: Vec<String> = Vec::new();
    assert(views(list_6@) =~= Seq::<Seq<char>>::empty());
    RegistryDiagnostics {
        system_identity: SystemIdentity {
            product_name: Some("Windows 11 Pro".to_string()),
            display_version: Some("23H2".to_string()),
            current_version: Some("6.3".to_string()),
            current_build: Some("22631".to_string()),
            ubr: Some("4036".to_string()),
            install_date: Some("2024-01-15T00:00:00.000Z".to_string()),
            edition_id: Some("Professional".to_string()),
            build_lab_ex: Some("22631.1.amd64fre.ni_release.220506-1250".to_string()),
        },
        startup_programs: list_4,
        installed_software: list_5,
        counts: RegistryCounts { startup_programs: 3, installed_software: 2 },
        warnings: list_6,
    }
}

/// The windows of the sample machine.
pub open spec fn sample_windows_view() -> Seq<WindowInfoView> {
    seq![
        WindowInfoView {
            hwnd: 0x000A_0001,
            title: "My Heavy Tab - Google Chrome"@,
            class_name: Some("Chrome_WidgetWin_1"@),
            process_id: 420,
            process_name: Some("chrome.exe"@),
            visible: true,
            minimized: false,
            maximized: true,
            foreground: true,
        },
    ]
}

/// The windows of the sample machine.
pub fn sample_windows() -> (r: Vec<WindowInfo>)
    ensures
        r@.map_values(|x: WindowInfo| x@) == sample_windows_view(),
{
    let list_1: Vec<WindowInfo> = vec![
        WindowInfo {
            hwnd: 0x000A_0001,
            title: "My Heavy Tab - Google Chrome".to_string(),
            class_name: Some("Chrome_WidgetWin_1".to_string()),
            process_id: 420,
            process_name: Some("chrome.exe".to_string()),
            visible: true,
            minimized: false,
            maximized: true,
            foreground: true,
        },
    ];
    assert(list_1@.map_values(|x: WindowInfo| x@) =~= sample_windows_view());
    list_1
}

/// The wireless adapters of the sample machine.
pub open spec fn sample_wifi_view() -> Seq<WifiAdapterStatusView> {
    seq![
        WifiAdapterStatusView {
            adapter_id: "{11111111-2222-3333-4444-555555555555}"@,
            description: "Intel(R) Wi-Fi 6 AX210"@,
            state: "connected"@,
            ssid: Some("HomeNet"@),
            signal_percent: Some(68),
            rssi_dbm: Some((-55) as i32),
            link_speed_mbps: Some(Real { bits: 0x408b100000000000 }),
            channel: Some(36),
            frequency_mhz: Some(5180),
            band: Some("5ghz"@),
            authentication: Some("wpa2_psk"@),
            cipher: Some("ccmp"@),
            is_up: true,
        },
    ]
}

/// The wireless adapters of the sample machine.
pub fn sample_wifi() -> (r: Vec<WifiAdapterStatus>)
    ensures
        r@.map_values(|x: WifiAdapterStatus| x@) == sample_wifi_view(),
{
    let list_1: Vec<WifiAdapterStatus> = vec![
        WifiAdapterStatus {
            adapter_id: "{11111111-2222-3333-4444-555555555555}".to_string(),
            description: "Intel(R) Wi-Fi 6 AX210".to_string(),
            state: "connected".to_string(),
            ssid: Some("HomeNet".to_string()),
            signal_percent: Some(68),
            rssi_dbm: Some(-55),
            link_speed_mbps: Some(Real { bits: 0x408b100000000000 }),
            channel: Some(36),
            frequency_mhz: Some(5180),
            band: Some("5ghz".to_string()),
            authentication: Some("wpa2_psk".to_string()),
            cipher: Some("ccmp".to_string()),
            is_up: true,
        },
    ];
    assert(list_1@.map_values(|x: WifiAdapterStatus| x@) =~= sample_wifi_view());
    list_1
}

/// The search path of the sample machine.
pub open spec fn sample_path_audit_view() -> PathAuditView {
    PathAuditView {
        process_entries: seq![
            PathEntryView {
                raw: "C:\\Windows\\System32"@,
                expanded: "C:\\Windows\\System32"@,
                exists: true,
                scopes: seq!["machine"@, "process"@],
            },
            PathEntryView {
                raw: "C:\\Windows"@,
                expanded: "C:\\Windows"@,
                exists: true,
                scopes: seq!["machine"@, "process"@],
            },
            PathEntryView {
                raw: "%USERPROFILE%\\.cargo\\bin"@,
                expanded: "C:\\Users\\dev\\.cargo\\bin"@,
                exists: true,
                scopes: seq!["user"@, "process"@],
            },
            PathEntryView {
                raw: "D:\\tools\\missing"@,
                expanded: "D:\\tools\\missing"@,
                exists: false,
                scopes: seq!["user"@, "process"@],
            },
        ],
        machine_path_available: true,
        user_path_available: true,
        duplicate_indexes: seq![1],
        empty_indexes: Seq::empty(),
        missing_indexes: seq![3],
        issues: seq![
            "2 duplicate entries across scopes (first shadows later ones)"@,
            "1 entry(ies) point to directories that do not exist"@,
        ],
        total_entries: 4,
    }
}

/// The search path of the sample machine.
pub fn sample_path_audit() -> (r: PathAudit)
    ensures
        r@ == sample_path_audit_view(),
{
    let list_1: Vec<String> = vec!["machine".to_string(), "process".to_string()];
    assert(views(list_1@) =~= seq!["machine"@, "process"@]);
    let list_2: Vec<String> = vec!["machine".to_string(), "process".to_string()];
    assert(views(list_2@) =~= seq!["machine"@, "process"@]);
    let list_3: Vec<String> = vec!["user".to_string(), "process".to_string()];
    assert(views(list_3@) =~= seq!["user"@, "process"@]);
    let list_4: Vec<String> = vec!["user".to_string(), "process".to_string()];
    assert(views(list_4@) =~= seq!["user"@, "process"@]);
    let list_5: Vec<PathEntry> = vec![
        PathEntry {
            raw: "C:\\Windows\\System32".to_string(),
            expanded: "C:\\Windows\\System32".to_string(),
            exists: true,
            scopes: list_1,
        },
        PathEntry {
            raw: "C:\\Windows".to_string(),
            expanded: "C:\\Windows".to_string(),
            exists: true,
            scopes: list_2,
        },
        PathEntry {
            raw: "%USERPROFILE%\\.cargo\\bin".to_string(),
            expanded: "C:\\Users\\dev\\.cargo\\bin".to_string(),
            exists: true,
            scopes: list_3,
        },
        PathEntry {
            raw: "D:\\tools\\missing".to_string(),
            expanded: "D:\\tools\\missing".to_string(),
            exists: false,
            scopes: list_4,
        },
    ];
    assert(list_5@.map_values(|x: PathEntry| x@) =~= seq![
        PathEntryView {
            raw: "C:\\Windows\\System32"@,
            expanded: "C:\\Windows\\System32"@,
            exists: true,
            scopes: seq!["machine"@, "process"@],
        },
        PathEntryView {
            raw: "C:\\Windows"@,
            expanded: "C:\\Windows"@,
            exists: true,
            scopes: seq!["machine"@, "process"@],
        },
        PathEntryView {
            raw: "%USERPROFILE%\\.cargo\\bin"@,
            expanded: "C:\\Users\\dev\\.cargo\\bin"@,
            exists: true,
            scopes: seq!["user"@, "process"@],
        },
        PathEntryView {
            raw: "D:\\tools\\missing"@,
            expanded: "D:\\tools\\missing"@,
            exists: false,
            scopes: seq!["user"@, "process"@],
        },
    ]);
    let list_6: Vec<usize> = vec![1];
    assert(list_6@ =~= seq![1]);
    let list_7: Vec<usize> = Vec::new();
    assert(list_7@ =~= Seq::<usize>::empty());
    let list_8: Vec<usize> = vec![3];
    assert(list_8@ =~= seq![3]);
    let list_9: Vec<String> = vec![
        "2 duplicate entries across scopes (first shadows later ones)".to_string(),
        "1 entry(ies) point to directories that do not exist".to_string(),
    ];
    assert(views(list_9@) =~= seq![
        "2 duplicate entries across scopes (first shadows later ones)"@,
        "1 entry(ies) point to directories that do not exist"@,
    ]);
    PathAudit {
        process_entries: list_5,
        machine_path_available: true,
        user_path_available: true,
        duplicate_indexes: list_6,
        empty_indexes: list_7,
        missing_indexes: list_8,
        issues: list_9,
        total_entries: 4,
    }
}

/// The updates of the sample machine.
pub open spec fn sample_update_status_view() -> UpdateStatusView {
    UpdateStatusView {
        reboot_pending: true,
        reboot_signals: seq!["windows_update_reboot_required"@],
        hotfixes: seq![
            HotfixView {
                hotfix_id: "KB5041585"@,
                description: Some("Update"@),
                installed_on: Some("8/14/2026"@),
            },
            HotfixView {
                hotfix_id: "KB5039302"@,
                description: Some("Security Update"@),
                installed_on: Some("7/10/2026"@),
            },
        ],
        total_hotfixes_reported: 2,
        unavailable: Seq::empty(),
    }
}

/// The updates of the sample machine.
pub fn sample_update_status() -> (r: UpdateStatus)
    ensures
        r@ == sample_update_status_view(),
{
    let list_1: Vec<String> = vec!["windows_update_reboot_required".to_string()];
    assert(views(list_1@) =~= seq!["windows_update_reboot_required"@]);
    let list_2: Vec<Hotfix> = vec![
        Hotfix {
            hotfix_id: "KB5041585".to_string(),
            description: Some("Update".to_string()),
            installed_on: Some("8/14/2026".to_string()),
        },
        Hotfix {
            hotfix_id: "KB5039302".to_string(),
            description: Some("Security Update".to_string()),
            installed_on: Some("7/10/2026".to_string()),
        },
    ];
    assert(list_2@.map_values(|x: Hotfix| x@) =~= seq![
        HotfixView {
            hotfix_id: "KB5041585"@,
            description: Some("Update"@),
            installed_on: Some("8/14/2026"@),
        },
        HotfixView {
            hotfix_id: "KB5039302"@,
            description: Some("Security Update"@),
            installed_on: Some("7/10/2026"@),
        },
    ]);
    let list_3: Vec<String> = Vec::new();
    assert(views(list_3@) =~= Seq::<Seq<char>>::empty());
    UpdateStatus {
        reboot_pending: true,
        reboot_signals: list_1,
        hotfixes: list_2,
        total_hotfixes_reported: 2,
        unavailable: list_3,
    }
}

/// The sample machine itself.
pub open spec fn sample_system_info_view() -> SystemInfoView {
    SystemInfoView {
        os_name: "Windows"@,
        version: "10.0"@,
        build: 22631,
        architecture: "x64"@,
        uptime_seconds: 86_400,
        boot_time: Some("2026-08-12T00:00:00.000Z"@),
        hostname: Some("mock-host"@),
        cpu_cores: 8,
        logical_processors: 16,
        total_memory_bytes: Some(16_000_000_000),
    }
}

/// The sample machine itself.
pub fn sample_system_info() -> (r: SystemInfo)
    ensures
        r@ == sample_system_info_view(),
{
    SystemInfo {
        os_name: "Windows".to_string(),
        version: "10.0".to_string(),
        build: 22631,
        architecture: "x64".to_string(),
        uptime_seconds: 86_400,
        boot_time: Some("2026-08-12T00:00:00.000Z".to_string()),
        hostname: Some("mock-host".to_string()),
        cpu_cores: 8,
        logical_processors: 16,
        total_memory_bytes: Some(16_000_000_000),
    }
}

/// How busy the sample machine is.
pub open spec fn sample_resource_snapshot_view() -> ResourceSnapshotView {
    ResourceSnapshotView {
        cpu_busy_percent: Some(Real { bits: 0x403f000000000000 }),
        cpu_busy_percent_basis: "system_capacity_all_cores"@,
        memory_load_percent: Some(Real { bits: 0x404f000000000000 }),
        total_memory_bytes: Some(16_000_000_000),
        available_memory_bytes: Some(6_000_000_000),
    }
}

/// How busy the sample machine is.
pub fn sample_resource_snapshot() -> (r: ResourceSnapshot)
    ensures
        r@ == sample_resource_snapshot_view(),
{
    ResourceSnapshot {
        cpu_busy_percent: Some(Real { bits: 0x403f000000000000 }),
        cpu_busy_percent_basis: "system_capacity_all_cores".to_string(),
        memory_load_percent: Some(Real { bits: 0x404f000000000000 }),
        total_memory_bytes: Some(16_000_000_000),
        available_memory_bytes: Some(6_000_000_000),
    }
}

/// The space on the volume of any path.
pub open spec fn sample_disk_usage_view(path: Seq<char>) -> DiskUsageView {
    DiskUsageView {
        path: path,
        total_bytes: Some(1_000_000_000_000),
        free_bytes: Some(400_000_000_000),
        used_bytes: Some(600_000_000_000),
        percent_used: Some(Real { bits: 0x404e000000000000 }),
    }
}

/// The space on the volume of any path.
pub fn sample_disk_usage(path: &str) -> (r: DiskUsage)
    ensures
        r@ == sample_disk_usage_view(path@),
{
    DiskUsage {
        path: path.to_string(),
        total_bytes: Some(1_000_000_000_000),
        free_bytes: Some(400_000_000_000),
        used_bytes: Some(600_000_000_000),
        percent_used: Some(Real { bits: 0x404e000000000000 }),
    }
}

/// The development tools of the sample machine.
pub open spec fn sample_dev_environment_view() -> DevEnvironmentView {
    DevEnvironmentView {
        tools: seq![
            DevToolView {
                name: "node"@,
                found: true,
                path: Some("C:\\Program Files\\nodejs\\node.exe"@),
                version: Some("v22.0.0"@),
                version_reason: None,
            },
            DevToolView {
                name: "npm"@,
                found: true,
                path: Some("C:\\Program Files\\nodejs\\npm.cmd"@),
                version: Some("10.0.0"@),
                version_reason: None,
            },
            DevToolView {
                name: "cargo"@,
                found: false,
                path: None,
                version: None,
                version_reason: None,
            },
        ],
        development_servers: seq![
            DevServerInfoView {
                port: 3000,
                pid: Some(900),
                process_name: Some("node.exe"@),
            },
        ],
    }
}

/// The development tools of the sample machine.
pub fn sample_dev_environment() -> (r: DevEnvironment)
    ensures
        r@ == sample_dev_environment_view(),
{
    let list_1: Vec<DevTool> = vec![
        DevTool {
            name: "node".to_string(),
            found: true,
            path: Some("C:\\Program Files\\nodejs\\node.exe".to_string()),
            version: Some("v22.0.0".to_string()),
            version_reason: None,
        },
        DevTool {
            name: "npm".to_string(),
            found: true,
            path: Some("C:\\Program Files\\nodejs\\npm.cmd".to_string()),
            version: Some("10.0.0".to_string()),
            version_reason: None,
        },
        DevTool {
            name: "cargo".to_string(),
            found: false,
            path: None,
            version: None,
            version_reason: None,
        },
    ];
    assert(list_1@.map_values(|x: DevTool| x@) =~= seq![
        DevToolView {
            name: "node"@,
            found: true,
            path: Some("C:\\Program Files\\nodejs\\node.exe"@),
            version: Some("v22.0.0"@),
            version_reason: None,
        },
        DevToolView {
            name: "npm"@,
            found: true,
            path: Some("C:\\Program Files\\nodejs\\npm.cmd"@),
            version: Some("10.0.0"@),
            version_reason: None,
        },
        DevToolView {
            name: "cargo"@,
            found: false,
            path: None,
            version: None,
            version_reason: None,
        },
    ]);
    let list_2: Vec<DevServerInfo> = vec![
        DevServerInfo {
            port: 3000,
            pid: Some(900),
            process_name: Some("node.exe".to_string()),
        },
    ];
    assert(list_2@.map_values(|x: DevServerInfo| x@) =~= seq![
        DevServerInfoView {
            port: 3000,
            pid: Some(900),
            process_name: Some("node.exe"@),
        },
    ]);
    DevEnvironment { tools: list_1, development_servers: list_2 }
}

/// The hardware of the sample machine.
pub open spec fn sample_hardware_snapshot_view() -> HardwareSnapshotView {
    HardwareSnapshotView {
        status: "ok"@,
        timestamp: "2026-08-13T08:00:01.000Z"@,
        duration_ms: 42,
        cpu: CpuHardwareInfoView {
            name: Some("Intel(R) Core(TM) i7-10700K"@),
            vendor: Some("GenuineIntel"@),
            family: Some(6),
            model: Some(165),
            stepping: Some(5),
            cores: Some(8),
            logical_processors: Some(16),
            base_clock_mhz: Some(Real { bits: 0x40adb00000000000 }),
            current_clock_mhz: Some(Real { bits: 0x40adb00000000000 }),
            utilization_percent: Some(Real { bits: 0x403f000000000000 }),
            package_temperature_c: Some(Real { bits: 0x404a000000000000 }),
            temperature_source: Some("acpi_thermal_zone"@),
        },
        gpus: seq![
            GpuHardwareInfoView {
                name: Some("NVIDIA GeForce RTX 3070"@),
                vendor: "nvidia"@,
                driver_version: Some("31.0.15.3644"@),
                video_memory_bytes: Some(8_589_934_592),
                temperature_available: false,
                temperature_c: None,
                temperature_reason: Some("no documented GPU temperature read path on Windows without a vendor SDK"@),
            },
        ],
        memory: MemoryHardwareInfoView {
            total_bytes: Some(16_000_000_000),
            module_count: Some(2),
        },
        storage: seq![
            StorageDeviceInfoView {
                device: "PhysicalDrive0"@,
                model: Some("Samsung SSD 980 PRO 1TB"@),
                interface: "nvme"@,
                capacity_bytes: Some(1_000_204_886_016),
                is_system: true,
            },
        ],
        network_adapters: seq![
            NetworkAdapterInfoView {
                index: 1,
                name: "Ethernet"@,
                description: "Intel(R) Ethernet Connection"@,
                mac_address: Some("00:11:22:33:44:55"@),
                is_wifi: false,
                is_up: true,
                ipv4_addresses: seq!["192.168.1.20"@],
                gateway: Some("192.168.1.1"@),
            },
        ],
        battery: Some(BatteryInfoView {
            present: true,
            percent: Some(71),
            ac_online: Some(false),
            charging: Some(false),
            estimated_time_remaining_seconds: Some(21_600),
        }),
        power_state: PowerStateInfoView {
            power_source: "battery"@,
            ac_online: Some(false),
            battery_present: true,
            battery_percent: Some(71),
            battery_state: Some("discharging"@),
            charging: Some(false),
            estimated_time_remaining_seconds: Some(21_600),
        },
        sensors: seq![
            SensorReadingView {
                id: "cpu_frequency"@,
                label: "CPU current frequency"@,
                class: SensorClass::CpuPackage,
                kind: SensorKind::ClockRate,
                device: "cpu_package"@,
                value: Some(Real { bits: 0x40adb00000000000 }),
                unit: "mhz"@,
                source: SensorSource::PerformanceCounter,
                quality: SensorQuality::Medium,
                min: None,
                max: Some(Real { bits: 0x40adb00000000000 }),
                availability: SensorAvailability::Available,
            },
            SensorReadingView {
                id: "thermal_zone-0"@,
                label: "Thermal zone 0"@,
                class: SensorClass::CpuPackage,
                kind: SensorKind::Temperature,
                device: "0"@,
                value: Some(Real { bits: 0x404a000000000000 }),
                unit: "temperature_c"@,
                source: SensorSource::ThermalZone,
                quality: SensorQuality::High,
                min: None,
                max: None,
                availability: SensorAvailability::Available,
            },
        ],
        completeness: "full"@,
        unavailable: Seq::empty(),
    }
}

/// The hardware of the sample machine.
pub fn sample_hardware_snapshot() -> (r: HardwareSnapshot)
    ensures
        r@ == sample_hardware_snapshot_view(),
{
    let list_1: Vec<GpuHardwareInfo> = vec![
        GpuHardwareInfo {
            name: Some("NVIDIA GeForce RTX 3070".to_string()),
            vendor: "nvidia".to_string(),
            driver_version: Some("31.0.15.3644".to_string()),
            video_memory_bytes: Some(8_589_934_592),
            temperature_available: false,
            temperature_c: None,
            temperature_reason: Some("no documented GPU temperature read path on Windows without a vendor SDK".to_string()),
        },
    ];
    assert(list_1@.map_values(|x: GpuHardwareInfo| x@) =~= seq![
        GpuHardwareInfoView {
            name: Some("NVIDIA GeForce RTX 3070"@),
            vendor: "nvidia"@,
            driver_version: Some("31.0.15.3644"@),
            video_memory_bytes: Some(8_589_934_592),
            temperature_available: false,
            temperature_c: None,
            temperature_reason: Some("no documented GPU temperature read path on Windows without a vendor SDK"@),
        },
    ]);
    let list_2: Vec<StorageDeviceInfo> = vec![
        StorageDeviceInfo {
            device: "PhysicalDrive0".to_string(),
            model: Some("Samsung SSD 980 PRO 1TB".to_string()),
            interface: "nvme".to_string(),
            capacity_bytes: Some(1_000_204_886_016),
            is_system: true,
        },
    ];
    assert(list_2@.map_values(|x: StorageDeviceInfo| x@) =~= seq![
        StorageDeviceInfoView {
            device: "PhysicalDrive0"@,
            model: Some("Samsung SSD 980 PRO 1TB"@),
            interface: "nvme"@,
            capacity_bytes: Some(1_000_204_886_016),
            is_system: true,
        },
    ]);
    let list_3: Vec<String> = vec!["192.168.1.20".to_string()];
    assert(views(list_3@) =~= seq!["192.168.1.20"@]);
    let list_4: Vec<NetworkAdapterInfo> = vec![
        NetworkAdapterInfo {
            index: 1,
            name: "Ethernet".to_string(),
            description: "Intel(R) Ethernet Connection".to_string(),
            mac_address: Some("00:11:22:33:44:55".to_string()),
            is_wifi: false,
            is_up: true,
            ipv4_addresses: list_3,
            gateway: Some("192.168.1.1".to_string()),
        },
    ];
    assert(list_4@.map_values(|x: NetworkAdapterInfo| x@) =~= seq![
        NetworkAdapterInfoView {
            index: 1,
            name: "Ethernet"@,
            description: "Intel(R) Ethernet Connection"@,
            mac_address: Some("00:11:22:33:44:55"@),
            is_wifi: false,
            is_up: true,
            ipv4_addresses: seq!["192.168.1.20"@],
            gateway: Some("192.168.1.1"@),
        },
    ]);
    let list_5: Vec<SensorReading> = vec![
        SensorReading {
            id: "cpu_frequency".to_string(),
            label: "CPU current frequency".to_string(),
            class: SensorClass::CpuPackage,
            kind: SensorKind::ClockRate,
            device: "cpu_package".to_string(),
            value: Some(Real { bits: 0x40adb00000000000 }),
            unit: "mhz".to_string(),
            source: SensorSource::PerformanceCounter,
            quality: SensorQuality::Medium,
            min: None,
            max: Some(Real { bits: 0x40adb00000000000 }),
            availability: SensorAvailability::Available,
        },
        SensorReading {
            id: "thermal_zone-0".to_string(),
            label: "Thermal zone 0".to_string(),
            class: SensorClass::CpuPackage,
            kind: SensorKind::Temperature,
            device: "0".to_string(),
            value: Some(Real { bits: 0x404a000000000000 }),
            unit: "temperature_c".to_string(),
            source: SensorSource::ThermalZone,
            quality: SensorQuality::High,
            min: None,
            max: None,
            availability: SensorAvailability::Available,
        },
    ];
    assert(list_5@.map_values(|x: SensorReading| x@) =~= seq![
        SensorReadingView {
            id: "cpu_frequency"@,
            label: "CPU current frequency"@,
            class: SensorClass::CpuPackage,
            kind: SensorKind::ClockRate,
            device: "cpu_package"@,
            value: Some(Real { bits: 0x40adb00000000000 }),
            unit: "mhz"@,
            source: SensorSource::PerformanceCounter,
            quality: SensorQuality::Medium,
            min: None,
            max: Some(Real { bits: 0x40adb00000000000 }),
            availability: SensorAvailability::Available,
        },
        SensorReadingView {
            id: "thermal_zone-0"@,
            label: "Thermal zone 0"@,
            class: SensorClass::CpuPackage,
            kind: SensorKind::Temperature,
            device: "0"@,
            value: Some(Real { bits: 0x404a000000000000 }),
            unit: "temperature_c"@,
            source: SensorSource::ThermalZone,
            quality: SensorQuality::High,
            min: None,
            max: None,
            availability: SensorAvailability::Available,
        },
    ]);
    let list_6: Vec<UnavailableReading> = Vec::new();
    assert(list_6@.map_values(|x: UnavailableReading| x@) =~= Seq::<UnavailableReadingView>::empty());
    HardwareSnapshot {
        status: "ok".to_string(),
        timestamp: "2026-08-13T08:00:01.000Z".to_string(),
        duration_ms: 42,
        cpu: CpuHardwareInfo {
            name: Some("Intel(R) Core(TM) i7-10700K".to_string()),
            vendor: Some("GenuineIntel".to_string()),
            family: Some(6),
            model: Some(165),
            stepping: Some(5),
            cores: Some(8),
            logical_processors: Some(16),
            base_clock_mhz: Some(Real { bits: 0x40adb00000000000 }),
            current_clock_mhz: Some(Real { bits: 0x40adb00000000000 }),
            utilization_percent: Some(Real { bits: 0x403f000000000000 }),
            package_temperature_c: Some(Real { bits: 0x404a000000000000 }),
            temperature_source: Some("acpi_thermal_zone".to_string()),
        },
        gpus: list_1,
        memory: MemoryHardwareInfo {
            total_bytes: Some(16_000_000_000),
            module_count: Some(2),
        },
        storage: list_2,
        network_adapters: list_4,
        battery: Some(BatteryInfo {
            present: true,
            percent: Some(71),
            ac_online: Some(false),
            charging: Some(false),
            estimated_time_remaining_seconds: Some(21_600),
        }),
        power_state: PowerStateInfo {
            power_source: "battery".to_string(),
            ac_online: Some(false),
            battery_present: true,
            battery_percent: Some(71),
            battery_state: Some("discharging".to_string()),
            charging: Some(false),
            estimated_time_remaining_seconds: Some(21_600),
        },
        sensors: list_5,
        completeness: "full".to_string(),
        unavailable: list_6,
    }
}

/// The temperatures of the sample machine.
pub open spec fn sample_thermal_snapshot_view() -> ThermalSnapshotView {
    ThermalSnapshotView {
        status: "ok"@,
        timestamp: "2026-08-13T08:00:02.000Z"@,
        duration_ms: 15,
        sensors: seq![
            SensorReadingView {
                id: "thermal_zone-0"@,
                label: "Thermal zone 0"@,
                class: SensorClass::CpuPackage,
                kind: SensorKind::Temperature,
                device: "0"@,
                value: Some(Real { bits: 0x404a000000000000 }),
                unit: "temperature_c"@,
                source: SensorSource::ThermalZone,
                quality: SensorQuality::High,
                min: None,
                max: None,
                availability: SensorAvailability::Available,
            },
        ],
        thermal_state: ThermalStateSummaryView {
            cpu_throttling: "not_observed"@,
            gpu_throttling: "unknown"@,
            cpu_thermal_pressure: "low"@,
            gpu_thermal_pressure: "unknown"@,
            cpu_frequency_reduced: Some(false),
            evidence: seq![
                EvidencePointView {
                    metric: "cpu_temperature_c"@,
                    value: "52.0 C"@,
                    detail: "ACPI thermal zone temperature"@,
                },
            ],
            limitations: seq![
                "GPU temperature is not readable without a vendor SDK; GPU throttling is unknown"@,
            ],
        },
        completeness: "full"@,
        unavailable: seq![
            UnavailableReadingView {
                component: "gpu"@,
                reading: "temperature"@,
                availability: SensorAvailability::Unsupported,
                reason: "no documented Windows API exposes GPU temperature without a vendor SDK"@,
            },
        ],
        warnings: Seq::empty(),
    }
}

/// The temperatures of the sample machine.
pub fn sample_thermal_snapshot() -> (r: ThermalSnapshot)
    ensures
        r@ == sample_thermal_snapshot_view(),
{
    let list_1: Vec<SensorReading> = vec![
        SensorReading {
            id: "thermal_zone-0".to_string(),
            label: "Thermal zone 0".to_string(),
            class: SensorClass::CpuPackage,
            kind: SensorKind::Temperature,
            device: "0".to_string(),
            value: Some(Real { bits: 0x404a000000000000 }),
            unit: "temperature_c".to_string(),
            source: SensorSource::ThermalZone,
            quality: SensorQuality::High,
            min: None,
            max: None,
            availability: SensorAvailability::Available,
        },
    ];
    assert(list_1@.map_values(|x: SensorReading| x@) =~= seq![
        SensorReadingView {
            id: "thermal_zone-0"@,
            label: "Thermal zone 0"@,
            class: SensorClass::CpuPackage,
            kind: SensorKind::Temperature,
            device: "0"@,
            value: Some(Real { bits: 0x404a000000000000 }),
            unit: "temperature_c"@,
            source: SensorSource::ThermalZone,
            quality: SensorQuality::High,
            min: None,
            max: None,
            availability: SensorAvailability::Available,
        },
    ]);
    let list_2: Vec<EvidencePoint> = vec![
        EvidencePoint {
            metric: "cpu_temperature_c".to_string(),
            value: "52.0 C".to_string(),
            detail: "ACPI thermal zone temperature".to_string(),
        },
    ];
    assert(list_2@.map_values(|x: EvidencePoint| x@) =~= seq![
        EvidencePointView {
            metric: "cpu_temperature_c"@,
            value: "52.0 C"@,
            detail: "ACPI thermal zone temperature"@,
        },
    ]);
    let list_3: Vec<String> = vec![
        "GPU temperature is not readable without a vendor SDK; GPU throttling is unknown".to_string(),
    ];
    assert(views(list_3@) =~= seq![
        "GPU temperature is not readable without a vendor SDK; GPU throttling is unknown"@,
    ]);
    let list_4: Vec<UnavailableReading> = vec![
        UnavailableReading {
            component: "gpu".to_string(),
            reading: "temperature".to_string(),
            availability: SensorAvailability::Unsupported,
            reason: "no documented Windows API exposes GPU temperature without a vendor SDK".to_string(),
        },
    ];
    assert(list_4@.map_values(|x: UnavailableReading| x@) =~= seq![
        UnavailableReadingView {
            component: "gpu"@,
            reading: "temperature"@,
            availability: SensorAvailability::Unsupported,
            reason: "no documented Windows API exposes GPU temperature without a vendor SDK"@,
        },
    ]);
    let list_5: Vec<String> = Vec::new();
    assert(views(list_5@) =~= Seq::<Seq<char>>::empty());
    ThermalSnapshot {
        status: "ok".to_string(),
        timestamp: "2026-08-13T08:00:02.000Z".to_string(),
        duration_ms: 15,
        sensors: list_1,
        thermal_state: ThermalStateSummary {
            cpu_throttling: "not_observed".to_string(),
            gpu_throttling: "unknown".to_string(),
            cpu_thermal_pressure: "low".to_string(),
            gpu_thermal_pressure: "unknown".to_string(),
            cpu_frequency_reduced: Some(false),
            evidence: list_2,
            limitations: list_3,
        },
        completeness: "full".to_string(),
        unavailable: list_4,
        warnings: list_5,
    }
}

/// The battery of the sample machine.
pub open spec fn sample_battery_status_view() -> BatteryStatusView {
    BatteryStatusView {
        status: "ok"@,
        timestamp: "2026-08-13T08:00:03.000Z"@,
        present: true,
        percent: Some(71),
        ac_online: Some(false),
        charging: Some(false),
        battery_state: Some("discharging"@),
        estimated_time_remaining_seconds: Some(21_600),
        health: Some(BatteryHealthView {
            designed_capacity_mwh: Some(90_000),
            full_charge_capacity_mwh: Some(72_000),
            current_charge_mwh: Some(51_120),
            cycle_count: None,
            health_percent: Some(Real { bits: 0x4054000000000000 }),
            temperature_c: None,
            availability: SensorAvailability::Available,
            reason: None,
        }),
        unavailable: Seq::empty(),
    }
}

/// The battery of the sample machine.
pub fn sample_battery_status() -> (r: BatteryStatus)
    ensures
        r@ == sample_battery_status_view(),
{
    let list_1: Vec<UnavailableReading> = Vec::new();
    assert(list_1@.map_values(|x: UnavailableReading| x@) =~= Seq::<UnavailableReadingView>::empty());
    BatteryStatus {
        status: "ok".to_string(),
        timestamp: "2026-08-13T08:00:03.000Z".to_string(),
        present: true,
        percent: Some(71),
        ac_online: Some(false),
        charging: Some(false),
        battery_state: Some("discharging".to_string()),
        estimated_time_remaining_seconds: Some(21_600),
        health: Some(BatteryHealth {
            designed_capacity_mwh: Some(90_000),
            full_charge_capacity_mwh: Some(72_000),
            current_charge_mwh: Some(51_120),
            cycle_count: None,
            health_percent: Some(Real { bits: 0x4054000000000000 }),
            temperature_c: None,
            availability: SensorAvailability::Available,
            reason: None,
        }),
        unavailable: list_1,
    }
}

/// The power of the sample machine.
pub open spec fn sample_power_status_view() -> PowerStatusView {
    PowerStatusView {
        status: "ok"@,
        timestamp: "2026-08-13T08:00:04.000Z"@,
        power_source: "battery"@,
        ac_online: Some(false),
        battery_present: true,
        battery_percent: Some(71),
        battery_state: Some("discharging"@),
        charging: Some(false),
        estimated_time_remaining_seconds: Some(21_600),
        unavailable: Seq::empty(),
    }
}

/// The power of the sample machine.
pub fn sample_power_status() -> (r: PowerStatus)
    ensures
        r@ == sample_power_status_view(),
{
    let list_1: Vec<UnavailableReading> = Vec::new();
    assert(list_1@.map_values(|x: UnavailableReading| x@) =~= Seq::<UnavailableReadingView>::empty());
    PowerStatus {
        status: "ok".to_string(),
        timestamp: "2026-08-13T08:00:04.000Z".to_string(),
        power_source: "battery".to_string(),
        ac_online: Some(false),
        battery_present: true,
        battery_percent: Some(71),
        battery_state: Some("discharging".to_string()),
        charging: Some(false),
        estimated_time_remaining_seconds: Some(21_600),
        unavailable: list_1,
    }
}

/// The health of the disks of the sample machine.
pub open spec fn sample_disk_health_view() -> DiskHealthReportView {
    DiskHealthReportView {
        status: "healthy"@,
        timestamp: "2026-08-13T08:00:05.000Z"@,
        duration_ms: 20,
        devices: seq![
            StorageHealthDeviceView {
                device: "PhysicalDrive0"@,
                model: Some("Samsung SSD 980 PRO 1TB"@),
                interface: "nvme"@,
                health_status: Some("healthy"@),
                temperature_c: Some(Real { bits: 0x4043000000000000 }),
                critical_warning: Seq::empty(),
                percentage_used: Some(12),
                available_spare: Some(100),
                available_spare_threshold: Some(10),
                media_errors: Some(0),
                power_on_hours: Some(1_234),
                unsafe_shutdowns: Some(7),
                data_units_read: Some(1_000_000),
                data_units_written: Some(500_000),
                reallocated_sectors: None,
                media_type: Some("ssd"@),
                bus_type: Some("nvme"@),
                firmware_version: Some("4B2QGXA7"@),
                serial_number: Some("S680NF0R123456"@),
                physical_location: None,
                spindle_speed_rpm: None,
                availability: SensorAvailability::Available,
                reason: None,
            },
        ],
        completeness: "full"@,
        unavailable: Seq::empty(),
    }
}

/// The health of the disks of the sample machine.
pub fn sample_disk_health() -> (r: DiskHealthReport)
    ensures
        r@ == sample_disk_health_view(),
{
    let list_1: Vec<String> = Vec::new();
    assert(views(list_1@) =~= Seq::<Seq<char>>::empty());
    let list_2: Vec<StorageHealthDevice> = vec![
        StorageHealthDevice {
            device: "PhysicalDrive0".to_string(),
            model: Some("Samsung SSD 980 PRO 1TB".to_string()),
            interface: "nvme".to_string(),
            health_status: Some("healthy".to_string()),
            temperature_c: Some(Real { bits: 0x4043000000000000 }),
            critical_warning: list_1,
            percentage_used: Some(12),
            available_spare: Some(100),
            available_spare_threshold: Some(10),
            media_errors: Some(0),
            power_on_hours: Some(1_234),
            unsafe_shutdowns: Some(7),
            data_units_read: Some(1_000_000),
            data_units_written: Some(500_000),
            reallocated_sectors: None,
            media_type: Some("ssd".to_string()),
            bus_type: Some("nvme".to_string()),
            firmware_version: Some("4B2QGXA7".to_string()),
            serial_number: Some("S680NF0R123456".to_string()),
            physical_location: None,
            spindle_speed_rpm: None,
            availability: SensorAvailability::Available,
            reason: None,
        },
    ];
    assert(list_2@.map_values(|x: StorageHealthDevice| x@) =~= seq![
        StorageHealthDeviceView {
            device: "PhysicalDrive0"@,
            model: Some("Samsung SSD 980 PRO 1TB"@),
            interface: "nvme"@,
            health_status: Some("healthy"@),
            temperature_c: Some(Real { bits: 0x4043000000000000 }),
            critical_warning: Seq::empty(),
            percentage_used: Some(12),
            available_spare: Some(100),
            available_spare_threshold: Some(10),
            media_errors: Some(0),
            power_on_hours: Some(1_234),
            unsafe_shutdowns: Some(7),
            data_units_read: Some(1_000_000),
            data_units_written: Some(500_000),
            reallocated_sectors: None,
            media_type: Some("ssd"@),
            bus_type: Some("nvme"@),
            firmware_version: Some("4B2QGXA7"@),
            serial_number: Some("S680NF0R123456"@),
            physical_location: None,
            spindle_speed_rpm: None,
            availability: SensorAvailability::Available,
            reason: None,
        },
    ]);
    let list_3: Vec<UnavailableReading> = Vec::new();
    assert(list_3@.map_values(|x: UnavailableReading| x@) =~= Seq::<UnavailableReadingView>::empty());
    DiskHealthReport {
        status: "healthy".to_string(),
        timestamp: "2026-08-13T08:00:05.000Z".to_string(),
        duration_ms: 20,
        devices: list_2,
        completeness: "full".to_string(),
        unavailable: list_3,
    }
}

/// How busy the disks of the sample machine are.
pub open spec fn sample_storage_activity_view(sample_window_ms: u64) -> StorageActivityView {
    StorageActivityView {
        status: "ok"@,
        timestamp: "2026-08-13T08:00:06.000Z"@,
        sample_window_ms: sample_window_ms,
        disks: seq![
            DiskActivityView {
                device: "0"@,
                busy_percent: Some(Real { bits: 0x4010cccccccccccd }),
                avg_queue_depth: Some(Real { bits: 0x3fd3333333333333 }),
                read_bytes_per_second: Some(Real { bits: 0x4130000000000000 }),
                write_bytes_per_second: Some(Real { bits: 0x4120000000000000 }),
                read_per_second: Some(Real { bits: 0x4028000000000000 }),
                write_per_second: Some(Real { bits: 0x4018000000000000 }),
                availability: SensorAvailability::Available,
                reason: None,
            },
        ],
        completeness: "full"@,
        unavailable: Seq::empty(),
    }
}

/// How busy the disks of the sample machine are.
pub fn sample_storage_activity(sample_window_ms: u64) -> (r: StorageActivity)
    ensures
        r@ == sample_storage_activity_view(sample_window_ms),
{
    let list_1: Vec<DiskActivity> = vec![
        DiskActivity {
            device: "0".to_string(),
            busy_percent: Some(Real { bits: 0x4010cccccccccccd }),
            avg_queue_depth: Some(Real { bits: 0x3fd3333333333333 }),
            read_bytes_per_second: Some(Real { bits: 0x4130000000000000 }),
            write_bytes_per_second: Some(Real { bits: 0x4120000000000000 }),
            read_per_second: Some(Real { bits: 0x4028000000000000 }),
            write_per_second: Some(Real { bits: 0x4018000000000000 }),
            availability: SensorAvailability::Available,
            reason: None,
        },
    ];
    assert(list_1@.map_values(|x: DiskActivity| x@) =~= seq![
        DiskActivityView {
            device: "0"@,
            busy_percent: Some(Real { bits: 0x4010cccccccccccd }),
            avg_queue_depth: Some(Real { bits: 0x3fd3333333333333 }),
            read_bytes_per_second: Some(Real { bits: 0x4130000000000000 }),
            write_bytes_per_second: Some(Real { bits: 0x4120000000000000 }),
            read_per_second: Some(Real { bits: 0x4028000000000000 }),
            write_per_second: Some(Real { bits: 0x4018000000000000 }),
            availability: SensorAvailability::Available,
            reason: None,
        },
    ]);
    let list_2: Vec<UnavailableReading> = Vec::new();
    assert(list_2@.map_values(|x: UnavailableReading| x@) =~= Seq::<UnavailableReadingView>::empty());
    StorageActivity {
        status: "ok".to_string(),
        timestamp: "2026-08-13T08:00:06.000Z".to_string(),
        sample_window_ms: sample_window_ms,
        disks: list_1,
        completeness: "full".to_string(),
        unavailable: list_2,
    }
}

/// The networks around the sample machine.
pub open spec fn sample_wifi_scan_view() -> WifiScanView {
    WifiScanView {
        status: "ok"@,
        timestamp: "2026-08-13T08:00:08.000Z"@,
        adapter_id: Some("{11111111-2222-3333-4444-555555555555}"@),
        networks: seq![
            WifiNetworkView {
                ssid: Some("HomeNet"@),
                bssid: Some("AA:BB:CC:DD:EE:01"@),
                signal_percent: Some(68),
                rssi_dbm: Some((-55) as i32),
                channel: Some(36),
                frequency_mhz: Some(5180),
                band: Some("5ghz"@),
                security: None,
                link_quality: Some(68),
            },
            WifiNetworkView {
                ssid: Some("NeighborNet"@),
                bssid: Some("AA:BB:CC:DD:EE:02"@),
                signal_percent: Some(22),
                rssi_dbm: Some((-82) as i32),
                channel: Some(6),
                frequency_mhz: Some(2437),
                band: Some("2.4ghz"@),
                security: None,
                link_quality: Some(22),
            },
        ],
        truncated: false,
        unavailable: Seq::empty(),
    }
}

/// The networks around the sample machine.
pub fn sample_wifi_scan() -> (r: WifiScan)
    ensures
        r@ == sample_wifi_scan_view(),
{
    let list_1: Vec<WifiNetwork> = vec![
        WifiNetwork {
            ssid: Some("HomeNet".to_string()),
            bssid: Some("AA:BB:CC:DD:EE:01".to_string()),
            signal_percent: Some(68),
            rssi_dbm: Some(-55),
            channel: Some(36),
            frequency_mhz: Some(5180),
            band: Some("5ghz".to_string()),
            security: None,
            link_quality: Some(68),
        },
        WifiNetwork {
            ssid: Some("NeighborNet".to_string()),
            bssid: Some("AA:BB:CC:DD:EE:02".to_string()),
            signal_percent: Some(22),
            rssi_dbm: Some(-82),
            channel: Some(6),
            frequency_mhz: Some(2437),
            band: Some("2.4ghz".to_string()),
            security: None,
            link_quality: Some(22),
        },
    ];
    assert(list_1@.map_values(|x: WifiNetwork| x@) =~= seq![
        WifiNetworkView {
            ssid: Some("HomeNet"@),
            bssid: Some("AA:BB:CC:DD:EE:01"@),
            signal_percent: Some(68),
            rssi_dbm: Some((-55) as i32),
            channel: Some(36),
            frequency_mhz: Some(5180),
            band: Some("5ghz"@),
            security: None,
            link_quality: Some(68),
        },
        WifiNetworkView {
            ssid: Some("NeighborNet"@),
            bssid: Some("AA:BB:CC:DD:EE:02"@),
            signal_percent: Some(22),
            rssi_dbm: Some((-82) as i32),
            channel: Some(6),
            frequency_mhz: Some(2437),
            band: Some("2.4ghz"@),
            security: None,
            link_quality: Some(22),
        },
    ]);
    let list_2: Vec<UnavailableReading> = Vec::new();
    assert(list_2@.map_values(|x: UnavailableReading| x@) =~= Seq::<UnavailableReadingView>::empty());
    WifiScan {
        status: "ok".to_string(),
        timestamp: "2026-08-13T08:00:08.000Z".to_string(),
        adapter_id: Some("{11111111-2222-3333-4444-555555555555}".to_string()),
        networks: list_1,
        truncated: false,
        unavailable: list_2,
    }
}

/// What is found of the network of the sample machine.
pub open spec fn sample_network_diagnose_view(sample_window_ms: u64) -> NetworkDiagnosisView {
    NetworkDiagnosisView {
        status: "ok"@,
        timestamp: "2026-08-13T08:00:09.000Z"@,
        duration_ms: (if sample_window_ms < 1_000 { sample_window_ms } else { 1_000 }),
        summary: "no network issues detected"@,
        interfaces: seq![
            NetworkDiagnosticInterfaceView {
                description: "Intel(R) Ethernet Connection"@,
                is_wifi: false,
                is_up: true,
                gateway: Some("192.168.1.1"@),
                signal_percent: None,
                rssi_dbm: None,
                link_speed_mbps: Some(Real { bits: 0x408f400000000000 }),
                packet_loss_percent: Some(Real { bits: 0x0 }),
                gateway_latency_ms: Some(Real { bits: 0x4000000000000000 }),
            },
        ],
        findings: Seq::empty(),
        completeness: "full"@,
        unavailable: Seq::empty(),
        external_connectivity: "ok"@,
    }
}

/// What is found of the network of the sample machine.
pub fn sample_network_diagnose(sample_window_ms: u64) -> (r: NetworkDiagnosis)
    ensures
        r@ == sample_network_diagnose_view(sample_window_ms),
{
    let list_1: Vec<NetworkDiagnosticInterface> = vec![
        NetworkDiagnosticInterface {
            description: "Intel(R) Ethernet Connection".to_string(),
            is_wifi: false,
            is_up: true,
            gateway: Some("192.168.1.1".to_string()),
            signal_percent: None,
            rssi_dbm: None,
            link_speed_mbps: Some(Real { bits: 0x408f400000000000 }),
            packet_loss_percent: Some(Real { bits: 0x0 }),
            gateway_latency_ms: Some(Real { bits: 0x4000000000000000 }),
        },
    ];
    assert(list_1@.map_values(|x: NetworkDiagnosticInterface| x@) =~= seq![
        NetworkDiagnosticInterfaceView {
            description: "Intel(R) Ethernet Connection"@,
            is_wifi: false,
            is_up: true,
            gateway: Some("192.168.1.1"@),
            signal_percent: None,
            rssi_dbm: None,
            link_speed_mbps: Some(Real { bits: 0x408f400000000000 }),
            packet_loss_percent: Some(Real { bits: 0x0 }),
            gateway_latency_ms: Some(Real { bits: 0x4000000000000000 }),
        },
    ]);
    let list_2: Vec<String> = Vec::new();
    assert(views(list_2@) =~= Seq::<Seq<char>>::empty());
    let list_3: Vec<UnavailableReading> = Vec::new();
    assert(list_3@.map_values(|x: UnavailableReading| x@) =~= Seq::<UnavailableReadingView>::empty());
    NetworkDiagnosis {
        status: "ok".to_string(),
        timestamp: "2026-08-13T08:00:09.000Z".to_string(),
        duration_ms: (if sample_window_ms < 1_000 { sample_window_ms } else { 1_000 }),
        summary: "no network issues detected".to_string(),
        interfaces: list_1,
        findings: list_2,
        completeness: "full".to_string(),
        unavailable: list_3,
        external_connectivity: "ok".to_string(),
    }
}

/// A few rows of a process snapshot.
pub open spec fn fixture_process_entries_view() -> Seq<ProcessEntryView> {
    seq![
        ProcessEntryView {
            pid: 420,
            ppid: Some(4),
            name: "chrome.exe"@,
            threads: 40,
            priority: 8,
        },
        ProcessEntryView {
            pid: 521,
            ppid: Some(420),
            name: "chrome.exe"@,
            threads: 16,
            priority: 8,
        },
        ProcessEntryView {
            pid: 900,
            ppid: Some(4),
            name: "node.exe"@,
            threads: 9,
            priority: 8,
        },
    ]
}

/// A few rows of a process snapshot.
pub fn fixture_process_entries() -> (r: Vec<ProcessEntry>)
    ensures
        r@.map_values(|x: ProcessEntry| x@) == fixture_process_entries_view(),
{
    let list_1: Vec<ProcessEntry> = vec![
        ProcessEntry {
            pid: 420,
            ppid: Some(4),
            name: "chrome.exe".to_string(),
            threads: 40,
            priority: 8,
        },
        ProcessEntry {
            pid: 521,
            ppid: Some(420),
            name: "chrome.exe".to_string(),
            threads: 16,
            priority: 8,
        },
        ProcessEntry {
            pid: 900,
            ppid: Some(4),
            name: "node.exe".to_string(),
            threads: 9,
            priority: 8,
        },
    ];
    assert(list_1@.map_values(|x: ProcessEntry| x@) =~= fixture_process_entries_view());
    list_1
}

} // verus!
