//! Machine-wide diagnosis: the evidence, and what it amounts to.
//!
//! Evidence is collected as far as it can be had. What could not be measured
//! makes the diagnosis a limited one; it never makes it fail.

use crate::config::HealthConfig;
use crate::floats::{at_least, place, place_of};
use crate::models::{
    ApplicationGroupInfo, ApplicationGroupInfoView, BatteryStatus, BatteryStatusView,
    DiskHealthReport, DiskHealthReportView, DriveInfo, DriveInfoView, Real, ResourceSnapshot,
    ResourceSnapshotView, SensorAvailability, SensorClass, SensorReading, SensorReadingView,
    StorageHealthDeviceView, SystemAppEvidence, SystemAppEvidenceView, SystemBatteryEvidence,
    SystemBatteryEvidenceView, SystemDiagnosticData, SystemDiagnosticDataView, SystemDriveEvidence,
    SystemDriveEvidenceView, SystemStorageHealthEvidence, SystemStorageHealthEvidenceView,
    SystemThermalEvidence, SystemThermalEvidenceView, SystemWifiEvidence, SystemWifiEvidenceView,
    ThermalSnapshot, ThermalSnapshotView, WifiAdapterStatus, WifiAdapterStatusView,
};
use crate::order::is_stable_order;
use crate::tools::conditions::{
    adapter_issues, battery_issues, condition_issues, device_issues, growth_issues, heat_issues,
    is_throttled, judge_conditions, storage_health_issues, thermal_issues, wear_issues, wifi_issues,
};
use crate::tools::health::{
    application_issues, cpu_issue, drive_issue, drive_issues, drive_label, drive_views,
    found_issues, group_issues, group_views, high_cpu, high_memory, is_ranking, issue_keys,
    issue_views, judge, label_of, law_ranking_descends, memory_issue, pressure_issue, rank_issues,
    ranks_by, Amount, HealthIssue, IssueView,
};
use crate::text::{concat2, same};
use vstd::prelude::*;
use vstd::string::*;

verus! {

/// Does the reading tell how hot the processor is?
pub open spec fn is_cpu_heat(s: SensorReadingView) -> bool {
    s.availability == SensorAvailability::Available && (s.class == SensorClass::CpuPackage
        || s.class == SensorClass::CpuCore)
}

/// The highest of the processor's readings.
pub open spec fn hottest(sensors: Seq<SensorReadingView>) -> Option<Real>
    decreases sensors.len(),
{
    if sensors.len() == 0 {
        None
    } else {
        let before = hottest(sensors.drop_last());
        match (is_cpu_heat(sensors.last()), sensors.last().value) {
            (true, Some(t)) => match before {
                Some(h) => if place(t) >= place(h) {
                    Some(t)
                } else {
                    Some(h)
                },
                None => Some(t),
            },
            _ => before,
        }
    }
}

/// The highest of the processor's readings.
pub fn cpu_temperature(sensors: &Vec<SensorReading>) -> (r: Option<Real>)
    ensures
        r == hottest(sensors@.map_values(|s: SensorReading| s@)),
{
    let ghost all = sensors@.map_values(|s: SensorReading| s@);
    let mut best: Option<Real> = None;
    let mut i: usize = 0;
    assert(all.take(0).len() == 0);
    while i < sensors.len()
        invariant
            all == sensors@.map_values(|s: SensorReading| s@),
            i <= sensors@.len(),
            best == hottest(all.take(i as int)),
        decreases sensors@.len() - i,
    {
        let s = &sensors[i];
        proof {
            assert(all.take(i + 1).drop_last() =~= all.take(i as int));
            assert(all.take(i + 1).last() == s@);
        }
        if s.availability == SensorAvailability::Available && (s.class == SensorClass::CpuPackage
            || s.class == SensorClass::CpuCore) {
            if let Some(t) = s.value {
                best = match best {
                    Some(h) => {
                        if place_of(t) >= place_of(h) {
                            Some(t)
                        } else {
                            Some(h)
                        }
                    },
                    None => Some(t),
                };
            }
        }
        i = i + 1;
    }
    assert(all.take(all.len() as int) =~= all);
    best
}

/// No reading of the processor is above the one that is reported.
pub proof fn law_hottest_is_highest(sensors: Seq<SensorReadingView>, i: int)
    requires
        0 <= i < sensors.len(),
        is_cpu_heat(sensors[i]),
        sensors[i].value is Some,
    ensures
        hottest(sensors) is Some,
        place(hottest(sensors)->0) >= place(sensors[i].value->0),
    decreases sensors.len(),
{
    if i < sensors.len() - 1 {
        assert(sensors.drop_last()[i] == sensors[i]);
        law_hottest_is_highest(sensors.drop_last(), i);
    }
}

/// What the temperatures tell.
pub open spec fn thermal_evidence(t: ThermalSnapshotView) -> SystemThermalEvidenceView {
    SystemThermalEvidenceView {
        cpu_thermal_pressure: t.thermal_state.cpu_thermal_pressure,
        cpu_throttling: t.thermal_state.cpu_throttling,
        cpu_frequency_reduced: t.thermal_state.cpu_frequency_reduced,
        cpu_temperature_c: hottest(t.sensors),
        gpu_thermal_pressure: t.thermal_state.gpu_thermal_pressure,
    }
}

/// What the temperatures tell.
pub fn evidence_of_thermal(t: &ThermalSnapshot) -> (r: SystemThermalEvidence)
    ensures
        r@ == thermal_evidence(t@),
{
    SystemThermalEvidence {
        cpu_thermal_pressure: t.thermal_state.cpu_thermal_pressure.clone(),
        cpu_throttling: t.thermal_state.cpu_throttling.clone(),
        cpu_frequency_reduced: t.thermal_state.cpu_frequency_reduced,
        cpu_temperature_c: cpu_temperature(&t.sensors),
        gpu_thermal_pressure: t.thermal_state.gpu_thermal_pressure.clone(),
    }
}

/// What one storage device tells.
pub open spec fn device_evidence(d: StorageHealthDeviceView) -> SystemStorageHealthEvidenceView {
    SystemStorageHealthEvidenceView {
        device: d.device,
        interface: d.interface,
        health_status: d.health_status,
        temperature_c: d.temperature_c,
        percentage_used: d.percentage_used,
    }
}

/// What the storage devices tell.
pub open spec fn storage_evidence(r: Option<DiskHealthReportView>) -> Seq<
    SystemStorageHealthEvidenceView,
> {
    match r {
        Some(r) => r.devices.map_values(|d: StorageHealthDeviceView| device_evidence(d)),
        None => Seq::empty(),
    }
}

fn evidence_of_storage(report: &Option<DiskHealthReport>) -> (r: Vec<SystemStorageHealthEvidence>)
    ensures
        r@.map_values(|d: SystemStorageHealthEvidence| d@) == storage_evidence(
            match *report {
                Some(x) => Some(x@),
                None => None,
            },
        ),
{
    let mut out: Vec<SystemStorageHealthEvidence> = Vec::new();
    match report {
        Some(report) => {
            let mut i: usize = 0;
            while i < report.devices.len()
                invariant
                    i <= report.devices@.len(),
                    out@.len() == i,
                    forall|k: int|
                        0 <= k < i ==> (#[trigger] out@[k])@ == device_evidence(
                            report.devices@[k]@,
                        ),
                decreases report.devices@.len() - i,
            {
                let d = &report.devices[i];
                out.push(
                    SystemStorageHealthEvidence {
                        device: d.device.clone(),
                        interface: d.interface.clone(),
                        health_status: d.health_status.clone(),
                        temperature_c: d.temperature_c,
                        percentage_used: d.percentage_used,
                    },
                );
                i = i + 1;
            }
        },
        None => {},
    }
    assert(out@.map_values(|d: SystemStorageHealthEvidence| d@) =~= storage_evidence(
        match *report {
            Some(x) => Some(x@),
            None => None,
        },
    ));
    out
}

/// What the battery tells.
pub open spec fn battery_evidence(b: BatteryStatusView) -> SystemBatteryEvidenceView {
    SystemBatteryEvidenceView {
        present: b.present,
        percent: b.percent,
        ac_online: b.ac_online,
        charging: b.charging,
        battery_state: b.battery_state,
        health_percent: match b.health {
            Some(h) => h.health_percent,
            None => None,
        },
    }
}

/// What the battery tells.
pub fn evidence_of_battery(b: &BatteryStatus) -> (r: SystemBatteryEvidence)
    ensures
        r@ == battery_evidence(b@),
{
    SystemBatteryEvidence {
        present: b.present,
        percent: b.percent,
        ac_online: b.ac_online,
        charging: b.charging,
        battery_state: b.battery_state.clone(),
        health_percent: match &b.health {
            Some(h) => h.health_percent,
            None => None,
        },
    }
}

/// What one wireless adapter tells.
pub open spec fn adapter_evidence(a: WifiAdapterStatusView) -> SystemWifiEvidenceView {
    SystemWifiEvidenceView {
        description: a.description,
        state: a.state,
        signal_percent: a.signal_percent,
        link_speed_mbps: a.link_speed_mbps,
    }
}

/// What the wireless adapters tell.
pub open spec fn wifi_evidence(adapters: Option<Seq<WifiAdapterStatus>>) -> Seq<
    SystemWifiEvidenceView,
> {
    match adapters {
        Some(v) => v.map_values(|a: WifiAdapterStatus| adapter_evidence(a@)),
        None => Seq::empty(),
    }
}

fn evidence_of_wifi(adapters: &Option<Vec<WifiAdapterStatus>>) -> (r: Vec<SystemWifiEvidence>)
    ensures
        r@.map_values(|a: SystemWifiEvidence| a@) == wifi_evidence(
            match *adapters {
                Some(v) => Some(v@),
                None => None,
            },
        ),
{
    let mut out: Vec<SystemWifiEvidence> = Vec::new();
    match adapters {
        Some(v) => {
            let mut i: usize = 0;
            while i < v.len()
                invariant
                    i <= v@.len(),
                    out@.len() == i,
                    forall|k: int|
                        0 <= k < i ==> (#[trigger] out@[k])@ == adapter_evidence(v@[k]@),
                decreases v@.len() - i,
            {
                let a = &v[i];
                out.push(
                    SystemWifiEvidence {
                        description: a.description.clone(),
                        state: a.state.clone(),
                        signal_percent: a.signal_percent,
                        link_speed_mbps: a.link_speed_mbps,
                    },
                );
                i = i + 1;
            }
        },
        None => {},
    }
    assert(out@.map_values(|a: SystemWifiEvidence| a@) =~= wifi_evidence(
        match *adapters {
            Some(v) => Some(v@),
            None => None,
        },
    ));
    out
}

/// The volumes whose size and free space are both known.
pub open spec fn drive_evidence(drives: Seq<DriveInfoView>) -> Seq<SystemDriveEvidenceView>
    decreases drives.len(),
{
    if drives.len() == 0 {
        Seq::empty()
    } else {
        let before = drive_evidence(drives.drop_last());
        match (drives.last().free_bytes, drives.last().total_bytes) {
            (Some(free_bytes), Some(total_bytes)) => before.push(
                SystemDriveEvidenceView {
                    subject: label_of(drives.last().root),
                    free_bytes,
                    total_bytes,
                },
            ),
            _ => before,
        }
    }
}

fn evidence_of_drives(drives: &Vec<DriveInfo>) -> (r: Vec<SystemDriveEvidence>)
    ensures
        r@.map_values(|d: SystemDriveEvidence| d@) == drive_evidence(drive_views(drives@)),
{
    let ghost all = drive_views(drives@);
    let mut out: Vec<SystemDriveEvidence> = Vec::new();
    let mut i: usize = 0;
    proof {
        assert(all.take(0).len() == 0);
        assert(out@.map_values(|d: SystemDriveEvidence| d@) =~= Seq::<
            SystemDriveEvidenceView,
        >::empty());
    }
    while i < drives.len()
        invariant
            all == drive_views(drives@),
            i <= drives@.len(),
            out@.map_values(|d: SystemDriveEvidence| d@) == drive_evidence(all.take(i as int)),
        decreases drives@.len() - i,
    {
        let d = &drives[i];
        let ghost before = out@;
        proof {
            assert(all.take(i + 1).drop_last() =~= all.take(i as int));
            assert(all.take(i + 1).last() == d@);
        }
        if let (Some(free_bytes), Some(total_bytes)) = (d.free_bytes, d.total_bytes) {
            let one = SystemDriveEvidence {
                subject: drive_label(&d.root),
                free_bytes,
                total_bytes,
            };
            let ghost shown = one@;
            out.push(one);
            assert(out@.map_values(|d: SystemDriveEvidence| d@) =~= before.map_values(
                |d: SystemDriveEvidence| d@,
            ).push(shown));
        }
        i = i + 1;
    }
    assert(all.take(all.len() as int) =~= all);
    out
}

/// What one application takes.
pub open spec fn app_evidence(g: ApplicationGroupInfoView) -> SystemAppEvidenceView {
    SystemAppEvidenceView {
        name: g.name,
        display_name: g.display_name,
        process_count: g.process_count,
        tree_process_count: g.tree_process_count,
        working_set_bytes: g.total_working_set_bytes,
        own_working_set_bytes: g.own_working_set_bytes,
        cpu_percent: g.cpu_percent,
    }
}

fn evidence_of_apps(groups: &Vec<ApplicationGroupInfo>) -> (r: Vec<SystemAppEvidence>)
    ensures
        r@.map_values(|a: SystemAppEvidence| a@) == group_views(groups@).map_values(
            |g: ApplicationGroupInfoView| app_evidence(g),
        ),
{
    let mut out: Vec<SystemAppEvidence> = Vec::new();
    let mut i: usize = 0;
    while i < groups.len()
        invariant
            i <= groups@.len(),
            out@.len() == i,
            forall|k: int| 0 <= k < i ==> (#[trigger] out@[k])@ == app_evidence(groups@[k]@),
        decreases groups@.len() - i,
    {
        let g = &groups[i];
        out.push(
            SystemAppEvidence {
                name: g.name.clone(),
                display_name: g.display_name.clone(),
                process_count: g.process_count,
                tree_process_count: g.tree_process_count,
                working_set_bytes: g.total_working_set_bytes,
                own_working_set_bytes: g.own_working_set_bytes,
                cpu_percent: g.cpu_percent,
            },
        );
        i = i + 1;
    }
    assert(out@.map_values(|a: SystemAppEvidence| a@) =~= group_views(groups@).map_values(
        |g: ApplicationGroupInfoView| app_evidence(g),
    ));
    out
}

/// The largest change of memory for which a rate is computed, in bytes.
pub const MAX_CHANGE_BYTES: u64 = 9_223_372_036_854_775;

/// Is the change one that a rate is computed for?
pub open spec fn rate_fits(earlier: u64, later: u64) -> bool {
    earlier - later <= MAX_CHANGE_BYTES && later - earlier <= MAX_CHANGE_BYTES
}

/// How fast memory is taken, in bytes per second, between two measurements of
/// what is available: less than a byte per second counts as none.
pub open spec fn growth_rate(earlier: u64, later: u64, elapsed_ms: u64) -> int {
    if earlier >= later {
        (earlier - later) * 1000 / elapsed_ms as int
    } else {
        -((later - earlier) * 1000 / elapsed_ms as int)
    }
}

fn rate_of_growth(earlier: u64, later: u64, elapsed_ms: u64) -> (r: i64)
    requires
        rate_fits(earlier, later),
        elapsed_ms >= 1,
    ensures
        r == growth_rate(earlier, later, elapsed_ms),
{
    let amount: u64 = if earlier >= later {
        earlier - later
    } else {
        later - earlier
    };
    let scaled: u64 = amount * 1000;
    let per_second: u64 = scaled / elapsed_ms;
    proof {
        vstd::arithmetic::div_mod::lemma_div_is_ordered_by_denominator(
            scaled as int,
            1,
            elapsed_ms as int,
        );
        assert(scaled as int / 1 == scaled as int);
    }
    if earlier >= later {
        per_second as i64
    } else {
        -(per_second as i64)
    }
}

/// A measurement of the later snapshot, or else of the earlier one.
pub open spec fn latest<T>(earlier: Option<T>, later: Option<T>) -> Option<T> {
    match later {
        Some(x) => Some(x),
        None => earlier,
    }
}

/// The load of a snapshot, where there is one.
pub open spec fn load_in(s: Option<ResourceSnapshotView>) -> Option<Real> {
    match s {
        Some(s) => s.memory_load_percent,
        None => None,
    }
}

/// The available memory of a snapshot, where there is one.
pub open spec fn available_in(s: Option<ResourceSnapshotView>) -> Option<u64> {
    match s {
        Some(s) => s.available_memory_bytes,
        None => None,
    }
}

/// The whole memory of a snapshot, where there is one.
pub open spec fn total_in(s: Option<ResourceSnapshotView>) -> Option<u64> {
    match s {
        Some(s) => s.total_memory_bytes,
        None => None,
    }
}

/// Memory that grows and memory that shrinks by the same amount have opposite
/// rates.
pub proof fn law_rate_is_symmetric(a: u64, b: u64, elapsed_ms: u64)
    requires
        elapsed_ms >= 1,
    ensures
        growth_rate(a, b, elapsed_ms) == -growth_rate(b, a, elapsed_ms),
{
    if a == b {
        assert(0int * 1000 / elapsed_ms as int == 0);
    }
}

/// How fast memory was taken between two snapshots. A change that is too large
/// for a rate counts as not measured.
pub open spec fn growth_between(
    a: Option<ResourceSnapshotView>,
    b: Option<ResourceSnapshotView>,
    elapsed_ms: u64,
) -> Option<int> {
    match (available_in(a), available_in(b)) {
        (Some(x), Some(y)) => if rate_fits(x, y) {
            Some(growth_rate(x, y, elapsed_ms))
        } else {
            None
        },
        _ => None,
    }
}

/// A value that may be missing, taken by its view.
pub open spec fn shown<T: View>(x: Option<T>) -> Option<T::V> {
    match x {
        Some(x) => Some(x@),
        None => None,
    }
}

/// Is it the evidence that these measurements give?
pub open spec fn collects(
    d: SystemDiagnosticDataView,
    groups: Seq<ApplicationGroupInfo>,
    drives: Seq<DriveInfo>,
    thermal: Option<ThermalSnapshotView>,
    storage: Option<DiskHealthReportView>,
    battery: Option<BatteryStatusView>,
    wifi: Option<Seq<WifiAdapterStatus>>,
    earlier: Option<ResourceSnapshotView>,
    later: Option<ResourceSnapshotView>,
    elapsed_ms: u64,
) -> bool {
    &&& d.memory_load_percent == latest(load_in(earlier), load_in(later))
    &&& d.memory_available_bytes == latest(available_in(earlier), available_in(later))
    &&& d.memory_total_bytes == latest(total_in(earlier), total_in(later))
    &&& match (d.memory_growth_bytes_per_second, growth_between(earlier, later, elapsed_ms)) {
        (Some(g), Some(h)) => g == h,
        (None, None) => true,
        _ => false,
    }
    &&& d.drives == drive_evidence(drive_views(drives))
    &&& d.app_groups == group_views(groups).map_values(
        |g: ApplicationGroupInfoView| app_evidence(g),
    )
    &&& d.thermal == (match thermal {
        Some(t) => Some(thermal_evidence(t)),
        None => None,
    })
    &&& d.storage_health == storage_evidence(storage)
    &&& d.battery == (match battery {
        Some(b) => Some(battery_evidence(b)),
        None => None,
    })
    &&& d.wifi == wifi_evidence(wifi)
}

/// The evidence that measurements give. What could not be measured is missing.
pub fn collect_evidence(
    groups: &Vec<ApplicationGroupInfo>,
    drives: &Vec<DriveInfo>,
    thermal: &Option<ThermalSnapshot>,
    storage: &Option<DiskHealthReport>,
    battery: &Option<BatteryStatus>,
    wifi: &Option<Vec<WifiAdapterStatus>>,
    earlier: &Option<ResourceSnapshot>,
    later: &Option<ResourceSnapshot>,
    elapsed_ms: u64,
) -> (r: SystemDiagnosticData)
    requires
        elapsed_ms >= 1,
    ensures
        collects(
            r@,
            groups@,
            drives@,
            shown(*thermal),
            shown(*storage),
            shown(*battery),
            match *wifi {
                Some(v) => Some(v@),
                None => None,
            },
            shown(*earlier),
            shown(*later),
            elapsed_ms,
        ),
{
    let (load_a, available_a, total_a) = match earlier {
        Some(s) => (s.memory_load_percent, s.available_memory_bytes, s.total_memory_bytes),
        None => (None, None, None),
    };
    let (load_b, available_b, total_b) = match later {
        Some(s) => (s.memory_load_percent, s.available_memory_bytes, s.total_memory_bytes),
        None => (None, None, None),
    };
    let growth: Option<i64> = match (available_a, available_b) {
        (Some(x), Some(y)) => {
            let change: u64 = if x >= y {
                x - y
            } else {
                y - x
            };
            if change <= MAX_CHANGE_BYTES {
                Some(rate_of_growth(x, y, elapsed_ms))
            } else {
                None
            }
        },
        _ => None,
    };
    SystemDiagnosticData {
        memory_load_percent: if load_b.is_some() {
            load_b
        } else {
            load_a
        },
        memory_available_bytes: if available_b.is_some() {
            available_b
        } else {
            available_a
        },
        memory_total_bytes: if total_b.is_some() {
            total_b
        } else {
            total_a
        },
        memory_growth_bytes_per_second: growth,
        drives: evidence_of_drives(drives),
        app_groups: evidence_of_apps(groups),
        thermal: match thermal {
            Some(t) => Some(evidence_of_thermal(t)),
            None => None,
        },
        storage_health: evidence_of_storage(storage),
        battery: match battery {
            Some(b) => Some(evidence_of_battery(b)),
            None => None,
        },
        wifi: evidence_of_wifi(wifi),
    }
}

/// The applications of the evidence, as groups.
pub open spec fn evidence_groups(apps: Seq<SystemAppEvidenceView>) -> Seq<
    ApplicationGroupInfoView,
> {
    apps.map_values(|a: SystemAppEvidenceView| group_of(a))
}

/// An application of the evidence, as a group.
pub open spec fn group_of(a: SystemAppEvidenceView) -> ApplicationGroupInfoView {
    ApplicationGroupInfoView {
        name: a.name,
        display_name: a.display_name,
        process_count: a.process_count,
        tree_process_count: a.tree_process_count,
        total_working_set_bytes: a.working_set_bytes,
        own_working_set_bytes: a.own_working_set_bytes,
        cpu_percent: a.cpu_percent,
        cpu_percent_basis: ""@,
        cpu_percent_sample_ms: 0,
        status: ""@,
    }
}

/// A volume of the evidence.
pub open spec fn drive_of(d: SystemDriveEvidenceView) -> DriveInfoView {
    DriveInfoView {
        root: d.subject,
        kind: ""@,
        total_bytes: Some(d.total_bytes),
        free_bytes: Some(d.free_bytes),
        used_bytes: None,
        percent_used: None,
    }
}

/// The volumes of the evidence.
pub open spec fn evidence_drives(drives: Seq<SystemDriveEvidenceView>) -> Seq<DriveInfoView> {
    drives.map_values(|d: SystemDriveEvidenceView| drive_of(d))
}

/// The memory of the evidence.
pub open spec fn evidence_memory(d: SystemDiagnosticDataView) -> ResourceSnapshotView {
    ResourceSnapshotView {
        cpu_busy_percent: None,
        cpu_busy_percent_basis: ""@,
        memory_load_percent: d.memory_load_percent,
        total_memory_bytes: d.memory_total_bytes,
        available_memory_bytes: d.memory_available_bytes,
    }
}

/// What is over its threshold in the evidence, as it is found.
pub open spec fn evidence_issues(d: SystemDiagnosticDataView, config: HealthConfig) -> Seq<
    IssueView,
> {
    found_issues(
        evidence_groups(d.app_groups),
        evidence_memory(d),
        evidence_drives(d.drives),
        config,
    ) + condition_issues(d)
}

/// What is measured of a machine.
#[derive(Debug, Clone, Copy, PartialEq, Eq, Structural)]
pub enum Dimension {
    AppCpu,
    AppMemory,
    Storage,
    MemoryPressure,
    MemoryGrowth,
    Thermal,
    StorageHealth,
    Battery,
    Wifi,
}

impl Dimension {
    /// The name of the dimension, which is the category of its findings.
    pub open spec fn name(self) -> Seq<char> {
        match self {
            Dimension::AppCpu => "app_cpu"@,
            Dimension::AppMemory => "app_memory"@,
            Dimension::Storage => "storage"@,
            Dimension::MemoryPressure => "memory_pressure"@,
            Dimension::MemoryGrowth => "memory_growth"@,
            Dimension::Thermal => "thermal"@,
            Dimension::StorageHealth => "storage_health"@,
            Dimension::Battery => "battery"@,
            Dimension::Wifi => "wifi"@,
        }
    }

    /// The name of the dimension.
    pub fn as_str(self) -> (r: &'static str)
        ensures
            r@ == self.name(),
    {
        match self {
            Dimension::AppCpu => "app_cpu",
            Dimension::AppMemory => "app_memory",
            Dimension::Storage => "storage",
            Dimension::MemoryPressure => "memory_pressure",
            Dimension::MemoryGrowth => "memory_growth",
            Dimension::Thermal => "thermal",
            Dimension::StorageHealth => "storage_health",
            Dimension::Battery => "battery",
            Dimension::Wifi => "wifi",
        }
    }
}

/// All dimensions.
pub open spec fn all_dimensions() -> Seq<Dimension> {
    seq![
        Dimension::AppCpu,
        Dimension::AppMemory,
        Dimension::Storage,
        Dimension::MemoryPressure,
        Dimension::MemoryGrowth,
        Dimension::Thermal,
        Dimension::StorageHealth,
        Dimension::Battery,
        Dimension::Wifi,
    ]
}

/// Is the processor load of any application known?
pub open spec fn knows_cpu(apps: Seq<SystemAppEvidenceView>) -> bool {
    exists|i: int| 0 <= i < apps.len() && (#[trigger] apps[i]).cpu_percent is Some
}

/// Was the dimension measured?
pub open spec fn was_measured(d: SystemDiagnosticDataView, dimension: Dimension) -> bool {
    match dimension {
        Dimension::AppCpu => knows_cpu(d.app_groups),
        Dimension::AppMemory => d.app_groups.len() > 0,
        Dimension::Storage => d.drives.len() > 0,
        Dimension::MemoryPressure => d.memory_load_percent is Some,
        Dimension::MemoryGrowth => d.memory_growth_bytes_per_second is Some,
        Dimension::Thermal => d.thermal is Some,
        Dimension::StorageHealth => d.storage_health.len() > 0,
        Dimension::Battery => d.battery is Some,
        Dimension::Wifi => d.wifi.len() > 0,
    }
}

/// Is there a finding of this category?
pub open spec fn has_category(issues: Seq<IssueView>, category: Seq<char>) -> bool {
    exists|i: int| 0 <= i < issues.len() && (#[trigger] issues[i]).category == category
}

/// Was the dimension measured and found healthy?
pub open spec fn is_clean(d: SystemDiagnosticDataView, config: HealthConfig, dimension: Dimension) -> bool {
    was_measured(d, dimension) && !has_category(evidence_issues(d, config), dimension.name())
}

fn measured(data: &SystemDiagnosticData, dimension: Dimension) -> (r: bool)
    ensures
        r == was_measured(data@, dimension),
{
    match dimension {
        Dimension::AppCpu => {
            let mut i: usize = 0;
            while i < data.app_groups.len()
                invariant
                    dimension == Dimension::AppCpu,
                    i <= data.app_groups@.len(),
                    forall|k: int|
                        0 <= k < i ==> (#[trigger] data@.app_groups[k]).cpu_percent is None,
                decreases data.app_groups@.len() - i,
            {
                assert(data@.app_groups[i as int] == data.app_groups@[i as int]@);
                if data.app_groups[i].cpu_percent.is_some() {
                    return true;
                }
                i = i + 1;
            }
            false
        },
        Dimension::AppMemory => data.app_groups.len() > 0,
        Dimension::Storage => data.drives.len() > 0,
        Dimension::MemoryPressure => data.memory_load_percent.is_some(),
        Dimension::MemoryGrowth => data.memory_growth_bytes_per_second.is_some(),
        Dimension::Thermal => data.thermal.is_some(),
        Dimension::StorageHealth => data.storage_health.len() > 0,
        Dimension::Battery => data.battery.is_some(),
        Dimension::Wifi => data.wifi.len() > 0,
    }
}

fn any_of_category(issues: &Vec<HealthIssue>, category: &str) -> (r: bool)
    ensures
        r == has_category(issue_views(issues@), category@),
{
    let ghost all = issue_views(issues@);
    let mut i: usize = 0;
    while i < issues.len()
        invariant
            all == issue_views(issues@),
            i <= issues@.len(),
            forall|k: int| 0 <= k < i ==> (#[trigger] all[k]).category != category@,
        decreases issues@.len() - i,
    {
        assert(all[i as int] == issues@[i as int]@);
        if same(issues[i].category, category) {
            return true;
        }
        i = i + 1;
    }
    false
}

/// The dimensions that were measured and found healthy, for the issues that
/// were found.
fn find_clean(data: &SystemDiagnosticData, issues: &Vec<HealthIssue>, config: &HealthConfig) -> (r:
    Vec<Dimension>)
    requires
        issue_views(issues@) == evidence_issues(data@, *config),
    ensures
        r@ == all_dimensions().filter(|x: Dimension| is_clean(data@, *config, x)),
{
    let all = vec![
        Dimension::AppCpu,
        Dimension::AppMemory,
        Dimension::Storage,
        Dimension::MemoryPressure,
        Dimension::MemoryGrowth,
        Dimension::Thermal,
        Dimension::StorageHealth,
        Dimension::Battery,
        Dimension::Wifi,
    ];
    let ghost clean = |x: Dimension| is_clean(data@, *config, x);
    let mut out: Vec<Dimension> = Vec::new();
    let mut i: usize = 0;
    proof {
        reveal(Seq::filter);
        assert(all@ =~= all_dimensions());
        assert(all@.take(0).filter(clean) =~= Seq::<Dimension>::empty());
    }
    while i < all.len()
        invariant
            i <= all@.len(),
            clean == (|x: Dimension| is_clean(data@, *config, x)),
            issue_views(issues@) == evidence_issues(data@, *config),
            out@ == all@.take(i as int).filter(clean),
        decreases all@.len() - i,
    {
        let x = all[i];
        proof {
            reveal(Seq::filter);
            assert(all@.take(i + 1).drop_last() =~= all@.take(i as int));
            assert(all@.take(i + 1).last() == x);
        }
        if measured(data, x) && !any_of_category(issues, x.as_str()) {
            out.push(x);
        }
        i = i + 1;
    }
    assert(all@.take(all@.len() as int) =~= all@);
    out
}

/// One thing that was measured.
#[derive(Debug)]
pub struct Measurement {
    pub metric: &'static str,
    pub subject: String,
    pub value: Amount,
}

/// [`Measurement`] taken by its views.
#[verifier::ext_equal]
pub struct MeasurementView {
    pub metric: Seq<char>,
    pub subject: Seq<char>,
    pub value: Amount,
}

impl View for Measurement {
    type V = MeasurementView;

    open spec fn view(&self) -> MeasurementView {
        MeasurementView { metric: self.metric@, subject: self.subject@, value: self.value }
    }
}

/// The measurements taken by their views.
pub open spec fn measurement_views(v: Seq<Measurement>) -> Seq<MeasurementView> {
    v.map_values(|m: Measurement| m@)
}

/// What was measured of the memory.
pub open spec fn memory_measurements(d: SystemDiagnosticDataView) -> Seq<MeasurementView> {
    let none = Seq::<MeasurementView>::empty();
    let load = match d.memory_load_percent {
        Some(v) => none.push(
            MeasurementView {
                metric: "memory_load_percent"@,
                subject: "memory"@,
                value: Amount::LoadPercent(v),
            },
        ),
        None => none,
    };
    let available = match d.memory_available_bytes {
        Some(v) => load.push(
            MeasurementView {
                metric: "memory_available_bytes"@,
                subject: "memory"@,
                value: Amount::Bytes(v),
            },
        ),
        None => load,
    };
    let total = match d.memory_total_bytes {
        Some(v) => available.push(
            MeasurementView {
                metric: "memory_total_bytes"@,
                subject: "memory"@,
                value: Amount::Bytes(v),
            },
        ),
        None => available,
    };
    match d.memory_growth_bytes_per_second {
        Some(v) => total.push(
            MeasurementView {
                metric: "memory_growth_bytes_per_second"@,
                subject: "memory"@,
                value: Amount::BytesPerSecond(v),
            },
        ),
        None => total,
    }
}

/// What was measured of the volumes.
pub open spec fn drive_measurements(drives: Seq<SystemDriveEvidenceView>) -> Seq<MeasurementView> {
    drives.map_values(
        |d: SystemDriveEvidenceView|
            MeasurementView {
                metric: "drive_free_bytes"@,
                subject: d.subject,
                value: Amount::FreeBytes(d.free_bytes),
            },
    )
}

/// What was measured of the applications.
pub open spec fn app_measurements(apps: Seq<SystemAppEvidenceView>) -> Seq<MeasurementView>
    decreases apps.len(),
{
    if apps.len() == 0 {
        Seq::empty()
    } else {
        let app = apps.last();
        let memory = app_measurements(apps.drop_last()).push(
            MeasurementView {
                metric: "app_working_set_bytes"@,
                subject: app.display_name,
                value: Amount::Bytes(app.working_set_bytes),
            },
        );
        match app.cpu_percent {
            Some(c) => memory.push(
                MeasurementView {
                    metric: "app_cpu_percent"@,
                    subject: app.display_name,
                    value: Amount::CpuPercent(c),
                },
            ),
            None => memory,
        }
    }
}

fn measure_memory(data: &SystemDiagnosticData) -> (r: Vec<Measurement>)
    ensures
        measurement_views(r@) == memory_measurements(data@),
{
    let mut out: Vec<Measurement> = Vec::new();
    assert(measurement_views(out@) =~= Seq::<MeasurementView>::empty());
    if let Some(v) = data.memory_load_percent {
        let ghost before = out@;
        let m = Measurement {
            metric: "memory_load_percent",
            subject: "memory".to_string(),
            value: Amount::LoadPercent(v),
        };
        let ghost one = m@;
        out.push(m);
        assert(measurement_views(out@) =~= measurement_views(before).push(one));
    }
    if let Some(v) = data.memory_available_bytes {
        let ghost before = out@;
        let m = Measurement {
            metric: "memory_available_bytes",
            subject: "memory".to_string(),
            value: Amount::Bytes(v),
        };
        let ghost one = m@;
        out.push(m);
        assert(measurement_views(out@) =~= measurement_views(before).push(one));
    }
    if let Some(v) = data.memory_total_bytes {
        let ghost before = out@;
        let m = Measurement {
            metric: "memory_total_bytes",
            subject: "memory".to_string(),
            value: Amount::Bytes(v),
        };
        let ghost one = m@;
        out.push(m);
        assert(measurement_views(out@) =~= measurement_views(before).push(one));
    }
    if let Some(v) = data.memory_growth_bytes_per_second {
        let ghost before = out@;
        let m = Measurement {
            metric: "memory_growth_bytes_per_second",
            subject: "memory".to_string(),
            value: Amount::BytesPerSecond(v),
        };
        let ghost one = m@;
        out.push(m);
        assert(measurement_views(out@) =~= measurement_views(before).push(one));
    }
    out
}

fn measure_drives(drives: &Vec<SystemDriveEvidence>) -> (r: Vec<Measurement>)
    ensures
        measurement_views(r@) == drive_measurements(
            drives@.map_values(|d: SystemDriveEvidence| d@),
        ),
{
    let mut out: Vec<Measurement> = Vec::new();
    let mut i: usize = 0;
    while i < drives.len()
        invariant
            i <= drives@.len(),
            out@.len() == i,
            forall|k: int|
                0 <= k < i ==> (#[trigger] out@[k])@ == (MeasurementView {
                    metric: "drive_free_bytes"@,
                    subject: drives@[k].subject@,
                    value: Amount::FreeBytes(drives@[k].free_bytes),
                }),
        decreases drives@.len() - i,
    {
        out.push(
            Measurement {
                metric: "drive_free_bytes",
                subject: drives[i].subject.clone(),
                value: Amount::FreeBytes(drives[i].free_bytes),
            },
        );
        i = i + 1;
    }
    assert(measurement_views(out@) =~= drive_measurements(
        drives@.map_values(|d: SystemDriveEvidence| d@),
    ));
    out
}

fn measure_apps(apps: &Vec<SystemAppEvidence>) -> (r: Vec<Measurement>)
    ensures
        measurement_views(r@) == app_measurements(apps@.map_values(|a: SystemAppEvidence| a@)),
{
    let ghost all = apps@.map_values(|a: SystemAppEvidence| a@);
    let mut out: Vec<Measurement> = Vec::new();
    let mut i: usize = 0;
    proof {
        assert(all.take(0).len() == 0);
        assert(measurement_views(out@) =~= Seq::<MeasurementView>::empty());
    }
    while i < apps.len()
        invariant
            all == apps@.map_values(|a: SystemAppEvidence| a@),
            i <= apps@.len(),
            measurement_views(out@) == app_measurements(all.take(i as int)),
        decreases apps@.len() - i,
    {
        let a = &apps[i];
        proof {
            assert(all.take(i + 1).drop_last() =~= all.take(i as int));
            assert(all.take(i + 1).last() == a@);
        }
        let ghost before = out@;
        let m = Measurement {
            metric: "app_working_set_bytes",
            subject: a.display_name.clone(),
            value: Amount::Bytes(a.working_set_bytes),
        };
        let ghost one = m@;
        out.push(m);
        assert(measurement_views(out@) =~= measurement_views(before).push(one));
        if let Some(c) = a.cpu_percent {
            let ghost between = out@;
            let m = Measurement {
                metric: "app_cpu_percent",
                subject: a.display_name.clone(),
                value: Amount::CpuPercent(c),
            };
            let ghost two = m@;
            out.push(m);
            assert(measurement_views(out@) =~= measurement_views(between).push(two));
        }
        i = i + 1;
    }
    assert(all.take(all.len() as int) =~= all);
    out
}

/// A cause that the findings may have.
#[derive(Debug)]
pub struct PossibleCause {
    pub hypothesis: String,
}

/// What a finding may come from.
pub open spec fn hypothesis_of(i: IssueView) -> Seq<char> {
    if i.category == "storage"@ {
        "storage pressure on "@ + i.subject
    } else if i.category == "memory_pressure"@ {
        "memory pressure on "@ + i.subject
    } else if i.category == "app_cpu"@ {
        "sustained processor load from "@ + i.subject
    } else if i.category == "app_memory"@ {
        "large working set of "@ + i.subject
    } else if i.category == "memory_growth"@ {
        "fast growth of "@ + i.subject
    } else if i.category == "thermal"@ {
        "thermal limits of "@ + i.subject
    } else if i.category == "storage_health"@ {
        "wear or failure of "@ + i.subject
    } else if i.category == "battery"@ {
        "wear of "@ + i.subject
    } else {
        "weak signal of "@ + i.subject
    }
}

fn causes_of(findings: &Vec<HealthIssue>) -> (r: Vec<PossibleCause>)
    ensures
        r@.len() == findings@.len(),
        forall|i: int|
            0 <= i < r@.len() ==> (#[trigger] r@[i]).hypothesis@ == hypothesis_of(findings@[i]@),
{
    let mut out: Vec<PossibleCause> = Vec::new();
    let mut i: usize = 0;
    while i < findings.len()
        invariant
            i <= findings@.len(),
            out@.len() == i,
            forall|k: int|
                0 <= k < i ==> (#[trigger] out@[k]).hypothesis@ == hypothesis_of(findings@[k]@),
        decreases findings@.len() - i,
    {
        let f = &findings[i];
        let words = if same(f.category, "storage") {
            "storage pressure on "
        } else if same(f.category, "memory_pressure") {
            "memory pressure on "
        } else if same(f.category, "app_cpu") {
            "sustained processor load from "
        } else if same(f.category, "app_memory") {
            "large working set of "
        } else if same(f.category, "memory_growth") {
            "fast growth of "
        } else if same(f.category, "thermal") {
            "thermal limits of "
        } else if same(f.category, "storage_health") {
            "wear or failure of "
        } else if same(f.category, "battery") {
            "wear of "
        } else {
            "weak signal of "
        };
        out.push(PossibleCause { hypothesis: concat2(words, &f.subject) });
        i = i + 1;
    }
    out
}

/// What was measured, and what it may come from.
#[derive(Debug)]
pub struct DiagnosticReport {
    pub measurements: Vec<Measurement>,
    pub possible_causes: Vec<PossibleCause>,
}

/// The diagnosis: ranked findings, what was measured and found healthy, the
/// report behind them, and whether everything could be measured.
#[derive(Debug)]
pub struct Diagnosis {
    pub findings: Vec<HealthIssue>,
    pub checked_clean: Vec<Dimension>,
    pub report: DiagnosticReport,
    pub evidence_completeness: &'static str,
}

/// Was everything measured?
pub open spec fn is_complete(d: SystemDiagnosticDataView) -> bool {
    d.memory_load_percent is Some && d.memory_growth_bytes_per_second is Some && d.drives.len() > 0
        && d.app_groups.len() > 0 && d.thermal is Some && d.storage_health.len() > 0
        && d.battery is Some && d.wifi.len() > 0
}

/// Is it the diagnosis that the evidence gives?
pub open spec fn diagnoses(r: Diagnosis, d: SystemDiagnosticDataView, config: HealthConfig) -> bool {
    &&& is_ranking(issue_views(r.findings@), evidence_issues(d, config))
    &&& r.checked_clean@ == all_dimensions().filter(|x: Dimension| is_clean(d, config, x))
    &&& measurement_views(r.report.measurements@) == memory_measurements(d) + drive_measurements(
        d.drives,
    ) + app_measurements(d.app_groups)
    &&& r.report.possible_causes@.len() == r.findings@.len()
    &&& forall|i: int|
        0 <= i < r.findings@.len() ==> (#[trigger] r.report.possible_causes@[i]).hypothesis@
            == hypothesis_of(r.findings@[i]@)
    &&& r.evidence_completeness@ == (if is_complete(d) {
        "full"@
    } else {
        "limited"@
    })
}

/// The diagnosis that the evidence gives.
pub fn analyze_system(data: &SystemDiagnosticData, config: &HealthConfig) -> (r: Diagnosis)
    ensures
        diagnoses(r, data@, *config),
{
    let mut groups: Vec<ApplicationGroupInfo> = Vec::new();
    let mut i: usize = 0;
    while i < data.app_groups.len()
        invariant
            i <= data.app_groups@.len(),
            groups@.len() == i,
            forall|k: int|
                0 <= k < i ==> (#[trigger] groups@[k])@ == group_of(data.app_groups@[k]@),
        decreases data.app_groups@.len() - i,
    {
        let a = &data.app_groups[i];
        groups.push(
            ApplicationGroupInfo {
                name: a.name.clone(),
                display_name: a.display_name.clone(),
                process_count: a.process_count,
                tree_process_count: a.tree_process_count,
                total_working_set_bytes: a.working_set_bytes,
                own_working_set_bytes: a.own_working_set_bytes,
                cpu_percent: a.cpu_percent,
                cpu_percent_basis: "".to_string(),
                cpu_percent_sample_ms: 0,
                status: "".to_string(),
            },
        );
        i = i + 1;
    }
    let mut drives: Vec<DriveInfo> = Vec::new();
    let mut j: usize = 0;
    while j < data.drives.len()
        invariant
            j <= data.drives@.len(),
            drives@.len() == j,
            forall|k: int| 0 <= k < j ==> (#[trigger] drives@[k])@ == drive_of(data.drives@[k]@),
        decreases data.drives@.len() - j,
    {
        let d = &data.drives[j];
        drives.push(
            DriveInfo {
                root: d.subject.clone(),
                kind: "".to_string(),
                total_bytes: Some(d.total_bytes),
                free_bytes: Some(d.free_bytes),
                used_bytes: None,
                percent_used: None,
            },
        );
        j = j + 1;
    }
    let memory = ResourceSnapshot {
        cpu_busy_percent: None,
        cpu_busy_percent_basis: "".to_string(),
        memory_load_percent: data.memory_load_percent,
        total_memory_bytes: data.memory_total_bytes,
        available_memory_bytes: data.memory_available_bytes,
    };
    proof {
        assert(group_views(groups@) =~= evidence_groups(data@.app_groups));
        assert(drive_views(drives@) =~= evidence_drives(data@.drives));
    }
    let judged = judge(&groups, &memory, &drives, config);
    let mut issues = judged.issues;
    judge_conditions(data, &mut issues);
    let checked_clean = find_clean(data, &issues, config);
    let findings = rank_issues(&issues);
    let possible_causes = causes_of(&findings);
    let mut measurements = measure_memory(data);
    let mut of_drives = measure_drives(&data.drives);
    let mut of_apps = measure_apps(&data.app_groups);
    let ghost first = measurements@;
    let ghost second = of_drives@;
    let ghost third = of_apps@;
    measurements.append(&mut of_drives);
    measurements.append(&mut of_apps);
    assert(measurement_views(measurements@) =~= measurement_views(first) + measurement_views(second)
        + measurement_views(third));
    let complete = data.memory_load_percent.is_some() && data.memory_growth_bytes_per_second.is_some()
        && data.drives.len() > 0 && data.app_groups.len() > 0 && data.thermal.is_some()
        && data.storage_health.len() > 0 && data.battery.is_some() && data.wifi.len() > 0;
    Diagnosis {
        findings,
        checked_clean,
        report: DiagnosticReport { measurements, possible_causes },
        evidence_completeness: if complete {
            "full"
        } else {
            "limited"
        },
    }
}

/// A dimension is called clean exactly where it was measured and no finding is
/// of its category.
pub proof fn law_clean_has_no_finding(
    r: Diagnosis,
    d: SystemDiagnosticDataView,
    config: HealthConfig,
    x: Dimension,
)
    requires
        diagnoses(r, d, config),
    ensures
        r.checked_clean@.contains(x) <==> was_measured(d, x) && !has_category(
            issue_views(r.findings@),
            x.name(),
        ),
{
    let clean = |x: Dimension| is_clean(d, config, x);
    let all = all_dimensions();
    let ranked = issue_views(r.findings@);
    let found = evidence_issues(d, config);
    let order = choose|order: Seq<usize>| #[trigger]
        is_stable_order(issue_keys(found), order) && ranks_by(ranked, found, order);
    if has_category(ranked, x.name()) {
        let i = choose|i: int|
            0 <= i < ranked.len() && (#[trigger] ranked[i]).category == x.name();
        assert(ranked[i] == found[order[i] as int]);
        assert(order[i] < issue_keys(found).len());
    }
    if has_category(found, x.name()) {
        let k = choose|k: int| 0 <= k < found.len() && (#[trigger] found[k]).category == x.name();
        let n = r.findings.len();
        assert(k < n);
        assert(order.contains(k as usize));
        let i = choose|i: int| 0 <= i < order.len() && order[i] == k as usize;
        assert(ranked[i] == found[k]);
    }
    assert(all.contains(x)) by {
        assert(all[0] == Dimension::AppCpu && all[1] == Dimension::AppMemory && all[2]
            == Dimension::Storage && all[3] == Dimension::MemoryPressure && all[4]
            == Dimension::MemoryGrowth && all[5] == Dimension::Thermal && all[6]
            == Dimension::StorageHealth && all[7] == Dimension::Battery && all[8]
            == Dimension::Wifi);
    }
    let k = choose|k: int| 0 <= k < all.len() && all[k] == x;
    if clean(x) {
        all.lemma_filter_contains(clean, k);
    }
    if r.checked_clean@.contains(x) {
        let i = choose|i: int| 0 <= i < r.checked_clean@.len() && r.checked_clean@[i] == x;
        all.lemma_filter_pred(clean, i);
    }
}

proof fn lemma_has_concat(a: Seq<IssueView>, b: Seq<IssueView>, c: Seq<char>)
    ensures
        has_category(a + b, c) <==> has_category(a, c) || has_category(b, c),
{
    if has_category(a, c) {
        let i = choose|i: int| 0 <= i < a.len() && (#[trigger] a[i]).category == c;
        assert((a + b)[i] == a[i]);
    }
    if has_category(b, c) {
        let i = choose|i: int| 0 <= i < b.len() && (#[trigger] b[i]).category == c;
        assert((a + b)[a.len() + i] == b[i]);
    }
    if has_category(a + b, c) {
        let i = choose|i: int| 0 <= i < (a + b).len() && (#[trigger] (a + b)[i]).category == c;
        if i < a.len() {
            assert(a[i].category == c);
        } else {
            assert(b[i - a.len()].category == c);
        }
    }
}

proof fn lemma_one_category(issue: IssueView, c: Seq<char>)
    ensures
        has_category(seq![issue], c) <==> issue.category == c,
        !has_category(Seq::empty(), c),
{
    let one = seq![issue];
    assert(one[0] == issue);
}

/// Is one of the applications at least as busy as the threshold says?
pub open spec fn some_app_is_busy(apps: Seq<SystemAppEvidenceView>, config: HealthConfig) -> bool {
    exists|i: int|
        0 <= i < apps.len() && (#[trigger] apps[i]).cpu_percent is Some && at_least(
            apps[i].cpu_percent->0,
            config.high_cpu_percent,
        )
}

/// Does one of the applications take at least as much memory as the threshold says?
pub open spec fn some_app_is_large(apps: Seq<SystemAppEvidenceView>, config: HealthConfig) -> bool {
    exists|i: int|
        0 <= i < apps.len() && (#[trigger] apps[i]).working_set_bytes >= config.high_memory_bytes
}

proof fn lemma_app_categories(
    apps: Seq<SystemAppEvidenceView>,
    total: Option<u64>,
    config: HealthConfig,
    c: Seq<char>,
)
    ensures
        has_category(application_issues(evidence_groups(apps), total, config), c) <==> (c
            == "app_cpu"@ && some_app_is_busy(apps, config)) || (c == "app_memory"@
            && some_app_is_large(apps, config)),
    decreases apps.len(),
{
    reveal_strlit("app_cpu");
    assert("app_cpu"@.len() == 7);
    reveal_strlit("app_memory");
    assert("app_memory"@.len() == 10);
    let groups = evidence_groups(apps);
    if apps.len() > 0 {
        let rest = apps.drop_last();
        let last = apps.len() - 1;
        lemma_app_categories(rest, total, config, c);
        assert(groups.drop_last() =~= evidence_groups(rest));
        let g = groups.last();
        assert(g == group_of(apps[last]));
        let own = group_issues(g, total, config);
        lemma_has_concat(application_issues(evidence_groups(rest), total, config), own, c);
        lemma_own_categories(g, total, config, c);
        assert forall|i: int| 0 <= i < rest.len() implies rest[i] == #[trigger] apps[i] by {}
        if some_app_is_busy(rest, config) {
            let i = choose|i: int|
                0 <= i < rest.len() && (#[trigger] rest[i]).cpu_percent is Some && at_least(
                    rest[i].cpu_percent->0,
                    config.high_cpu_percent,
                );
            assert(apps[i] == rest[i]);
        }
        if some_app_is_busy(apps, config) && !some_app_is_busy(rest, config) {
            let i = choose|i: int|
                0 <= i < apps.len() && (#[trigger] apps[i]).cpu_percent is Some && at_least(
                    apps[i].cpu_percent->0,
                    config.high_cpu_percent,
                );
            if i < last {
                assert(rest[i] == apps[i]);
            }
        }
        if some_app_is_large(rest, config) {
            let i = choose|i: int|
                0 <= i < rest.len() && (#[trigger] rest[i]).working_set_bytes
                    >= config.high_memory_bytes;
            assert(apps[i] == rest[i]);
        }
        if some_app_is_large(apps, config) && !some_app_is_large(rest, config) {
            let i = choose|i: int|
                0 <= i < apps.len() && (#[trigger] apps[i]).working_set_bytes
                    >= config.high_memory_bytes;
            if i < last {
                assert(rest[i] == apps[i]);
            }
        }
        assert(apps[last].cpu_percent == g.cpu_percent);
    }
}

proof fn lemma_own_categories(
    g: ApplicationGroupInfoView,
    total: Option<u64>,
    config: HealthConfig,
    c: Seq<char>,
)
    ensures
        has_category(group_issues(g, total, config), c) <==> (c == "app_cpu"@ && high_cpu(g, config))
            || (c == "app_memory"@ && high_memory(g, config)),
{
    reveal_strlit("app_cpu");
    assert("app_cpu"@.len() == 7);
    reveal_strlit("app_memory");
    assert("app_memory"@.len() == 10);
    let cpu = cpu_issue(g, config);
    let memory = memory_issue(g, total, config);
    let busy = if high_cpu(g, config) {
        seq![cpu]
    } else {
        Seq::empty()
    };
    lemma_one_category(cpu, c);
    lemma_one_category(memory, c);
    lemma_has_concat(busy, seq![memory], c);
    assert(busy.push(memory) =~= busy + seq![memory]);
}

/// Has one of the volumes as little space left as the threshold says?
pub open spec fn some_drive_is_full(
    drives: Seq<SystemDriveEvidenceView>,
    config: HealthConfig,
) -> bool {
    exists|i: int|
        0 <= i < drives.len() && (#[trigger] drives[i]).free_bytes <= config.low_disk_free_bytes
}

proof fn lemma_drive_categories(
    drives: Seq<SystemDriveEvidenceView>,
    config: HealthConfig,
    c: Seq<char>,
)
    ensures
        has_category(drive_issues(evidence_drives(drives), config), c) <==> c == "storage"@
            && some_drive_is_full(drives, config),
    decreases drives.len(),
{
    let all = evidence_drives(drives);
    if drives.len() > 0 {
        let rest = drives.drop_last();
        let last = drives.len() - 1;
        lemma_drive_categories(rest, config, c);
        assert(all.drop_last() =~= evidence_drives(rest));
        let before = drive_issues(evidence_drives(rest), config);
        let d = all.last();
        assert(d == drive_of(drives[last]));
        lemma_one_category(drive_issue(d, config), c);
        lemma_has_concat(before, seq![drive_issue(d, config)], c);
        assert(before.push(drive_issue(d, config)) =~= before + seq![drive_issue(d, config)]);
        if some_drive_is_full(rest, config) {
            let i = choose|i: int|
                0 <= i < rest.len() && (#[trigger] rest[i]).free_bytes
                    <= config.low_disk_free_bytes;
            assert(drives[i] == rest[i]);
        }
        if some_drive_is_full(drives, config) && !some_drive_is_full(rest, config) {
            let i = choose|i: int|
                0 <= i < drives.len() && (#[trigger] drives[i]).free_bytes
                    <= config.low_disk_free_bytes;
            if i < last {
                assert(rest[i] == drives[i]);
            }
        }
    }
}

/// Does one of the devices say that it is worn or not healthy?
pub open spec fn some_device_is_worn(devices: Seq<SystemStorageHealthEvidenceView>) -> bool {
    exists|i: int|
        0 <= i < devices.len() && (((#[trigger] devices[i]).percentage_used is Some
            && devices[i].percentage_used->0 >= 90) || (devices[i].health_status is Some
            && devices[i].health_status->0 != "healthy"@))
}

proof fn lemma_device_categories(devices: Seq<SystemStorageHealthEvidenceView>, c: Seq<char>)
    ensures
        has_category(storage_health_issues(devices), c) <==> c == "storage_health"@
            && some_device_is_worn(devices),
    decreases devices.len(),
{
    if devices.len() > 0 {
        let rest = devices.drop_last();
        let last = devices.len() - 1;
        let d = devices[last];
        lemma_device_categories(rest, c);
        lemma_has_concat(storage_health_issues(rest), device_issues(d), c);
        let worn = wear_issues(d);
        if worn.len() > 0 {
            assert(worn =~= seq![worn[0]]);
            lemma_one_category(worn[0], c);
        } else {
            assert(worn =~= Seq::<IssueView>::empty());
            lemma_one_category(device_issues(d)[0], c);
        }
        if device_issues(d).len() > worn.len() {
            let unwell = device_issues(d).last();
            lemma_one_category(unwell, c);
            lemma_has_concat(worn, seq![unwell], c);
            assert(device_issues(d) =~= worn + seq![unwell]);
        }
        if some_device_is_worn(rest) {
            let i = choose|i: int|
                0 <= i < rest.len() && (((#[trigger] rest[i]).percentage_used is Some
                    && rest[i].percentage_used->0 >= 90) || (rest[i].health_status is Some
                    && rest[i].health_status->0 != "healthy"@));
            assert(devices[i] == rest[i]);
        }
        if some_device_is_worn(devices) && !some_device_is_worn(rest) {
            let i = choose|i: int|
                0 <= i < devices.len() && (((#[trigger] devices[i]).percentage_used is Some
                    && devices[i].percentage_used->0 >= 90) || (devices[i].health_status is Some
                    && devices[i].health_status->0 != "healthy"@));
            if i < last {
                assert(rest[i] == devices[i]);
            }
        }
        assert(d == devices[last]);
    }
}

/// Has one of the wireless adapters a signal below a quarter?
pub open spec fn some_signal_is_weak(adapters: Seq<SystemWifiEvidenceView>) -> bool {
    exists|i: int|
        0 <= i < adapters.len() && (#[trigger] adapters[i]).signal_percent is Some
            && adapters[i].signal_percent->0 < 25
}

proof fn lemma_wifi_categories(adapters: Seq<SystemWifiEvidenceView>, c: Seq<char>)
    ensures
        has_category(wifi_issues(adapters), c) <==> c == "wifi"@ && some_signal_is_weak(adapters),
    decreases adapters.len(),
{
    if adapters.len() > 0 {
        let rest = adapters.drop_last();
        let last = adapters.len() - 1;
        let a = adapters[last];
        lemma_wifi_categories(rest, c);
        let own = adapter_issues(a);
        lemma_has_concat(wifi_issues(rest), own, c);
        if own.len() > 0 {
            assert(own =~= seq![own[0]]);
            lemma_one_category(own[0], c);
        } else {
            assert(own =~= Seq::<IssueView>::empty());
            assert(!has_category(own, c));
        }
        if some_signal_is_weak(rest) {
            let i = choose|i: int|
                0 <= i < rest.len() && (#[trigger] rest[i]).signal_percent is Some
                    && rest[i].signal_percent->0 < 25;
            assert(adapters[i] == rest[i]);
        }
        if some_signal_is_weak(adapters) && !some_signal_is_weak(rest) {
            let i = choose|i: int|
                0 <= i < adapters.len() && (#[trigger] adapters[i]).signal_percent is Some
                    && adapters[i].signal_percent->0 < 25;
            if i < last {
                assert(rest[i] == adapters[i]);
            }
        }
        assert(a == adapters[last]);
    }
}

/// Is the processor at ninety degrees or above, or seen to be held back?
pub open spec fn runs_hot(t: SystemThermalEvidenceView) -> bool {
    ||| t.cpu_temperature_c is Some && at_least(
        t.cpu_temperature_c->0,
        Real { bits: 0x4056_8000_0000_0000 },
    )
    ||| t.cpu_throttling == "observed"@
    ||| t.cpu_frequency_reduced == Some(true)
}

proof fn lemma_thermal_categories(t: Option<SystemThermalEvidenceView>, c: Seq<char>)
    ensures
        has_category(thermal_issues(t), c) <==> c == "thermal"@ && t is Some && runs_hot(t->0),
{
    match t {
        Some(t) => {
            let heat = heat_issues(t);
            if heat.len() > 0 {
                assert(heat =~= seq![heat[0]]);
                lemma_one_category(heat[0], c);
            } else {
                assert(heat =~= Seq::<IssueView>::empty());
                assert(!has_category(heat, c));
            }
            if is_throttled(t) {
                let held = thermal_issues(Some(t)).last();
                lemma_one_category(held, c);
                lemma_has_concat(heat, seq![held], c);
                assert(thermal_issues(Some(t)) =~= heat + seq![held]);
            }
        },
        None => {
            assert(!has_category(thermal_issues(t), c));
        },
    }
}

proof fn lemma_plain_categories(
    rate: Option<i64>,
    battery: Option<SystemBatteryEvidenceView>,
    c: Seq<char>,
)
    ensures
        has_category(growth_issues(rate), c) <==> c == "memory_growth"@ && rate is Some && rate->0
            >= 52_428_800,
        has_category(battery_issues(battery), c) <==> c == "battery"@ && battery is Some
            && battery->0.present && battery->0.health_percent is Some && at_least(
            Real { bits: 0x4049_0000_0000_0000 },
            battery->0.health_percent->0,
        ),
{
    let g = growth_issues(rate);
    if g.len() > 0 {
        assert(g =~= seq![g[0]]);
        lemma_one_category(g[0], c);
    } else {
        assert(!has_category(g, c));
    }
    let b = battery_issues(battery);
    if b.len() > 0 {
        assert(b =~= seq![b[0]]);
        lemma_one_category(b[0], c);
    } else {
        assert(!has_category(b, c));
    }
}

proof fn lemma_found_categories(d: SystemDiagnosticDataView, config: HealthConfig, c: Seq<char>)
    ensures
        has_category(evidence_issues(d, config), c) <==> {
            ||| c == "app_cpu"@ && some_app_is_busy(d.app_groups, config)
            ||| c == "app_memory"@ && some_app_is_large(d.app_groups, config)
            ||| c == "storage"@ && some_drive_is_full(d.drives, config)
            ||| c == "memory_pressure"@ && d.memory_load_percent is Some && at_least(
                d.memory_load_percent->0,
                config.high_memory_load_percent,
            )
            ||| c == "memory_growth"@ && d.memory_growth_bytes_per_second is Some
                && d.memory_growth_bytes_per_second->0 >= 52_428_800
            ||| c == "thermal"@ && d.thermal is Some && runs_hot(d.thermal->0)
            ||| c == "storage_health"@ && some_device_is_worn(d.storage_health)
            ||| c == "battery"@ && d.battery is Some && d.battery->0.present
                && d.battery->0.health_percent is Some && at_least(
                Real { bits: 0x4049_0000_0000_0000 },
                d.battery->0.health_percent->0,
            )
            ||| c == "wifi"@ && some_signal_is_weak(d.wifi)
        },
{
    let groups = evidence_groups(d.app_groups);
    let memory = evidence_memory(d);
    let drives = evidence_drives(d.drives);
    let apps = application_issues(groups, d.memory_total_bytes, config);
    let full = drive_issues(drives, config);
    let found = found_issues(groups, memory, drives, config);
    lemma_app_categories(d.app_groups, d.memory_total_bytes, config, c);
    lemma_drive_categories(d.drives, config, c);
    lemma_has_concat(apps, full, c);
    let pressure = pressure_issue(memory, config);
    lemma_one_category(pressure, c);
    lemma_has_concat(apps + full, seq![pressure], c);
    assert((apps + full).push(pressure) =~= apps + full + seq![pressure]);
    lemma_has_concat(found, condition_issues(d), c);
    let a = growth_issues(d.memory_growth_bytes_per_second);
    let b = thermal_issues(d.thermal);
    let e = storage_health_issues(d.storage_health);
    let f = battery_issues(d.battery);
    let g = wifi_issues(d.wifi);
    lemma_has_concat(a, b, c);
    lemma_has_concat(a + b, e, c);
    lemma_has_concat(a + b + e, f, c);
    lemma_has_concat(a + b + e + f, g, c);
    lemma_plain_categories(d.memory_growth_bytes_per_second, d.battery, c);
    lemma_thermal_categories(d.thermal, c);
    lemma_device_categories(d.storage_health, c);
    lemma_wifi_categories(d.wifi, c);
}

/// A dimension has a finding exactly where what was measured of it is over its
/// threshold: each by its own measurement, whatever the others are.
pub proof fn law_findings_have_their_causes(
    data: SystemDiagnosticData,
    config: HealthConfig,
    r: Diagnosis,
)
    requires
        call_ensures(analyze_system, (&data, &config), r),
    ensures
        has_category(issue_views(r.findings@), "app_cpu"@) <==> some_app_is_busy(
            data@.app_groups,
            config,
        ),
        has_category(issue_views(r.findings@), "app_memory"@) <==> some_app_is_large(
            data@.app_groups,
            config,
        ),
        has_category(issue_views(r.findings@), "storage"@) <==> some_drive_is_full(
            data@.drives,
            config,
        ),
        has_category(issue_views(r.findings@), "memory_pressure"@)
            <==> data.memory_load_percent is Some && at_least(
            data.memory_load_percent->0,
            config.high_memory_load_percent,
        ),
        has_category(issue_views(r.findings@), "memory_growth"@)
            <==> data.memory_growth_bytes_per_second is Some
            && data.memory_growth_bytes_per_second->0 >= 52_428_800,
        has_category(issue_views(r.findings@), "thermal"@) <==> data@.thermal is Some && runs_hot(
            data@.thermal->0,
        ),
        has_category(issue_views(r.findings@), "storage_health"@) <==> some_device_is_worn(
            data@.storage_health,
        ),
        has_category(issue_views(r.findings@), "battery"@) <==> data@.battery is Some
            && data@.battery->0.present && data@.battery->0.health_percent is Some && at_least(
            Real { bits: 0x4049_0000_0000_0000 },
            data@.battery->0.health_percent->0,
        ),
        has_category(issue_views(r.findings@), "wifi"@) <==> some_signal_is_weak(data@.wifi),
{
    reveal_strlit("app_cpu");
    assert("app_cpu"@.len() == 7);
    reveal_strlit("app_memory");
    assert("app_memory"@.len() == 10);
    reveal_strlit("storage");
    assert("storage"@.len() == 7);
    reveal_strlit("memory_pressure");
    assert("memory_pressure"@.len() == 15);
    reveal_strlit("memory_growth");
    assert("memory_growth"@.len() == 13);
    reveal_strlit("thermal");
    assert("thermal"@.len() == 7);
    reveal_strlit("storage_health");
    assert("storage_health"@.len() == 14);
    reveal_strlit("battery");
    assert("battery"@.len() == 7);
    reveal_strlit("wifi");
    assert("wifi"@.len() == 4);
    assert("app_cpu"@[0] != "storage"@[0]);
    assert("app_cpu"@[0] != "thermal"@[0]);
    assert("app_cpu"@[0] != "battery"@[0]);
    assert("storage"@[0] != "thermal"@[0]);
    assert("storage"@[0] != "battery"@[0]);
    assert("thermal"@[0] != "battery"@[0]);
    let d = data@;
    lemma_found_categories(d, config, "app_cpu"@);
    lemma_ranked_categories(r, d, config, "app_cpu"@);
    lemma_found_categories(d, config, "app_memory"@);
    lemma_ranked_categories(r, d, config, "app_memory"@);
    lemma_found_categories(d, config, "storage"@);
    lemma_ranked_categories(r, d, config, "storage"@);
    lemma_found_categories(d, config, "memory_pressure"@);
    lemma_ranked_categories(r, d, config, "memory_pressure"@);
    lemma_found_categories(d, config, "memory_growth"@);
    lemma_ranked_categories(r, d, config, "memory_growth"@);
    lemma_found_categories(d, config, "thermal"@);
    lemma_ranked_categories(r, d, config, "thermal"@);
    lemma_found_categories(d, config, "storage_health"@);
    lemma_ranked_categories(r, d, config, "storage_health"@);
    lemma_found_categories(d, config, "battery"@);
    lemma_ranked_categories(r, d, config, "battery"@);
    lemma_found_categories(d, config, "wifi"@);
    lemma_ranked_categories(r, d, config, "wifi"@);
}

/// Ranking keeps the categories.
proof fn lemma_ranked_categories(
    r: Diagnosis,
    d: SystemDiagnosticDataView,
    config: HealthConfig,
    c: Seq<char>,
)
    requires
        diagnoses(r, d, config),
    ensures
        has_category(issue_views(r.findings@), c) <==> has_category(evidence_issues(d, config), c),
{
    let ranked = issue_views(r.findings@);
    let found = evidence_issues(d, config);
    let order = choose|order: Seq<usize>| #[trigger]
        is_stable_order(issue_keys(found), order) && ranks_by(ranked, found, order);
    if has_category(ranked, c) {
        let i = choose|i: int| 0 <= i < ranked.len() && (#[trigger] ranked[i]).category == c;
        assert(ranked[i] == found[order[i] as int]);
        assert(order[i] < issue_keys(found).len());
    }
    if has_category(found, c) {
        let k = choose|k: int| 0 <= k < found.len() && (#[trigger] found[k]).category == c;
        let n = r.findings.len();
        assert(k < n);
        assert(order.contains(k as usize));
        let i = choose|i: int| 0 <= i < order.len() && order[i] == k as usize;
        assert(ranked[i] == found[k]);
    }
}

/// Findings come the worst first, each with a cause that names its subject; the
/// evidence counts as full exactly where everything could be measured; and every
/// application, volume and figure of the memory that was measured is told.
pub proof fn law_diagnosis_is_ordered_and_complete(
    data: SystemDiagnosticData,
    config: HealthConfig,
    r: Diagnosis,
)
    requires
        call_ensures(analyze_system, (&data, &config), r),
    ensures
        forall|i: int, j: int|
            0 <= i < j < r.findings@.len() ==> (#[trigger] r.findings@[i]).score >= (
            #[trigger] r.findings@[j]).score,
        r.report.possible_causes@.len() == r.findings@.len(),
        forall|i: int|
            0 <= i < r.findings@.len() ==> (#[trigger] r.findings@[i]).subject@.is_suffix_of(
                r.report.possible_causes@[i].hypothesis@,
            ),
        r.evidence_completeness@ == "full"@ <==> {
            &&& data.memory_load_percent is Some
            &&& data.memory_growth_bytes_per_second is Some
            &&& data.drives@.len() > 0
            &&& data.app_groups@.len() > 0
            &&& data.thermal is Some
            &&& data.storage_health@.len() > 0
            &&& data.battery is Some
            &&& data.wifi@.len() > 0
        },
        r.evidence_completeness@ != "full"@ ==> r.evidence_completeness@ == "limited"@,
        r.checked_clean@.contains(Dimension::MemoryPressure) <==> data.memory_load_percent is Some
            && !at_least(data.memory_load_percent->0, config.high_memory_load_percent),
        r.checked_clean@.contains(Dimension::Storage) <==> data.drives@.len() > 0
            && !some_drive_is_full(data@.drives, config),
        r.checked_clean@.contains(Dimension::AppMemory) <==> data.app_groups@.len() > 0
            && !some_app_is_large(data@.app_groups, config),
        r.checked_clean@.contains(Dimension::Wifi) <==> data.wifi@.len() > 0
            && !some_signal_is_weak(data@.wifi),
        r.checked_clean@.contains(Dimension::StorageHealth) <==> data.storage_health@.len() > 0
            && !some_device_is_worn(data@.storage_health),
        r.checked_clean@.contains(Dimension::Thermal) <==> data.thermal is Some && !runs_hot(
            data@.thermal->0,
        ),
{
    let d = data@;
    law_findings_have_their_causes(data, config, r);
    law_clean_has_no_finding(r, d, config, Dimension::MemoryPressure);
    law_clean_has_no_finding(r, d, config, Dimension::Storage);
    law_clean_has_no_finding(r, d, config, Dimension::AppMemory);
    law_clean_has_no_finding(r, d, config, Dimension::Wifi);
    law_clean_has_no_finding(r, d, config, Dimension::StorageHealth);
    law_clean_has_no_finding(r, d, config, Dimension::Thermal);
    reveal_strlit("full");
    assert("full"@.len() == 4);
    reveal_strlit("limited");
    assert("limited"@.len() == 7);
    let ranked = issue_views(r.findings@);
    assert forall|i: int, j: int| 0 <= i < j < r.findings@.len() implies (
    #[trigger] r.findings@[i]).score >= (#[trigger] r.findings@[j]).score by {
        law_ranking_descends(ranked, evidence_issues(d, config), i, j);
        assert(ranked[i] == r.findings@[i]@ && ranked[j] == r.findings@[j]@);
    }
    assert forall|i: int| 0 <= i < r.findings@.len() implies (
    #[trigger] r.findings@[i]).subject@.is_suffix_of(
        r.report.possible_causes@[i].hypothesis@,
    ) by {
        let f = r.findings@[i]@;
        let said = r.report.possible_causes@[i].hypothesis@;
        assert(said == hypothesis_of(f));
        let n = said.len() - f.subject.len();
        assert(said.skip(n) =~= f.subject);
        assert(f.subject.is_suffix_of(said)) by {
            assert(said.subrange(n, said.len() as int) =~= f.subject);
        }
    }
}

/// The evidence is what was measured: the memory as the later snapshot has it, or
/// else the earlier one; all applications; the volumes of which size and free space
/// are known; and memory that became less available counts as growth.
pub proof fn law_evidence_is_what_was_measured(
    groups: Vec<ApplicationGroupInfo>,
    drives: Vec<DriveInfo>,
    thermal: Option<ThermalSnapshot>,
    storage: Option<DiskHealthReport>,
    battery: Option<BatteryStatus>,
    wifi: Option<Vec<WifiAdapterStatus>>,
    earlier: Option<ResourceSnapshot>,
    later: Option<ResourceSnapshot>,
    elapsed_ms: u64,
    r: SystemDiagnosticData,
)
    requires
        elapsed_ms >= 1,
        call_ensures(
            collect_evidence,
            (
                &groups,
                &drives,
                &thermal,
                &storage,
                &battery,
                &wifi,
                &earlier,
                &later,
                elapsed_ms,
            ),
            r,
        ),
    ensures
        later is Some && later->0.memory_load_percent is Some ==> r.memory_load_percent
            == later->0.memory_load_percent,
        later is Some && later->0.available_memory_bytes is Some ==> r.memory_available_bytes
            == later->0.available_memory_bytes,
        later is Some && later->0.total_memory_bytes is Some ==> r.memory_total_bytes
            == later->0.total_memory_bytes,
        later is None && earlier is Some ==> r.memory_load_percent
            == earlier->0.memory_load_percent && r.memory_available_bytes
            == earlier->0.available_memory_bytes && r.memory_total_bytes
            == earlier->0.total_memory_bytes,
        r.app_groups@.len() == groups@.len(),
        forall|i: int|
            0 <= i < groups@.len() ==> (#[trigger] r.app_groups@[i]).display_name@
                == groups@[i].display_name@ && r.app_groups@[i].working_set_bytes
                == groups@[i].total_working_set_bytes && r.app_groups@[i].cpu_percent
                == groups@[i].cpu_percent && r.app_groups@[i].process_count
                == groups@[i].process_count,
        r.drives@.len() == drives@.filter(
            |d: DriveInfo| d.free_bytes is Some && d.total_bytes is Some,
        ).len(),
        forall|i: int|
            0 <= i < r.drives@.len() ==> {
                let d = drives@.filter(
                    |d: DriveInfo| d.free_bytes is Some && d.total_bytes is Some,
                )[i];
                (#[trigger] r.drives@[i]).free_bytes == d.free_bytes->0 && r.drives@[i].total_bytes
                    == d.total_bytes->0
            },
        r.thermal is Some <==> thermal is Some,
        r.battery is Some <==> battery is Some,
        battery is Some ==> r.battery->0.present == battery->0.present,
        wifi matches Some(v) ==> r.wifi@.len() == v@.len() && forall|i: int|
            0 <= i < v@.len() ==> (#[trigger] r.wifi@[i]).signal_percent == v@[i].signal_percent
                && r.wifi@[i].description@ == v@[i].description@,
        r.memory_growth_bytes_per_second matches Some(g) ==> earlier is Some && later is Some
            && earlier->0.available_memory_bytes is Some && later->0.available_memory_bytes is Some
            && {
            let lost = earlier->0.available_memory_bytes->0 - later->0.available_memory_bytes->0;
            &&& lost >= 0 ==> g >= 0 && g * elapsed_ms <= lost * 1000 < (g + 1) * elapsed_ms
            &&& lost <= 0 ==> g <= 0 && (g - 1) * elapsed_ms < lost * 1000 <= g * elapsed_ms
        },
{
    let apps = r@.app_groups;
    assert(apps.len() == r.app_groups@.len());
    assert(group_views(groups@).len() == groups@.len());
    assert forall|i: int| 0 <= i < groups@.len() implies (
    #[trigger] r.app_groups@[i]).display_name@ == groups@[i].display_name@
        && r.app_groups@[i].working_set_bytes == groups@[i].total_working_set_bytes
        && r.app_groups@[i].cpu_percent == groups@[i].cpu_percent && r.app_groups@[i].process_count
        == groups@[i].process_count by {
        assert(apps[i] == r.app_groups@[i]@);
        assert(apps[i] == app_evidence(groups@[i]@));
    }
    lemma_drives_filtered(drives@);
    assert(r@.drives.len() == r.drives@.len());
    assert forall|i: int| 0 <= i < r.drives@.len() implies {
        let d = drives@.filter(|d: DriveInfo| d.free_bytes is Some && d.total_bytes is Some)[i];
        (#[trigger] r.drives@[i]).free_bytes == d.free_bytes->0 && r.drives@[i].total_bytes
            == d.total_bytes->0
    } by {
        assert(r@.drives[i] == r.drives@[i]@);
    }
    assert(r@.wifi.len() == r.wifi@.len());
    match wifi {
        Some(v) => {
            assert forall|i: int| 0 <= i < v@.len() implies (
            #[trigger] r.wifi@[i]).signal_percent == v@[i].signal_percent
                && r.wifi@[i].description@ == v@[i].description@ by {
                assert(r@.wifi[i] == r.wifi@[i]@);
                assert(r@.wifi[i] == adapter_evidence(v@[i]@));
            }
        },
        None => {},
    }
    if battery is Some {
        assert(r@.battery == Some(r.battery->0@));
    }
    if r.memory_growth_bytes_per_second is Some {
        lemma_growth_rate(
            earlier->0.available_memory_bytes->0,
            later->0.available_memory_bytes->0,
            elapsed_ms,
        );
    }
}

proof fn lemma_growth_rate(x: u64, y: u64, elapsed_ms: u64)
    requires
        elapsed_ms >= 1,
    ensures
        ({
            let g = growth_rate(x, y, elapsed_ms);
            let lost = x - y;
            &&& lost >= 0 ==> g >= 0 && g * elapsed_ms <= lost * 1000 < (g + 1) * elapsed_ms
            &&& lost <= 0 ==> g <= 0 && (g - 1) * elapsed_ms < lost * 1000 <= g * elapsed_ms
        }),
{
    let g = growth_rate(x, y, elapsed_ms);
    let m = elapsed_ms as int;
    let n = if x >= y {
        (x - y) * 1000
    } else {
        (y - x) * 1000
    };
    let q = n / m;
    assert(q >= 0 && q * m <= n < (q + 1) * m) by (nonlinear_arith)
        requires
            q == n / m,
            n >= 0,
            m >= 1,
    ;
    if x < y {
        assert((-q - 1) * m == -((q + 1) * m) && (-q) * m == -(q * m)) by (nonlinear_arith);
    } else if x == y {
        assert(q == 0) by (nonlinear_arith)
            requires
                q == n / m,
                n == 0,
                m >= 1,
        ;
    }
}

proof fn lemma_drives_filtered(drives: Seq<DriveInfo>)
    ensures
        drive_evidence(drive_views(drives)).len() == drives.filter(
            |d: DriveInfo| d.free_bytes is Some && d.total_bytes is Some,
        ).len(),
        forall|i: int|
            0 <= i < drive_evidence(drive_views(drives)).len() ==> {
                let d = drives.filter(
                    |d: DriveInfo| d.free_bytes is Some && d.total_bytes is Some,
                )[i];
                let e = #[trigger] drive_evidence(drive_views(drives))[i];
                e.free_bytes == d.free_bytes->0 && e.total_bytes == d.total_bytes->0
            },
    decreases drives.len(),
{
    reveal(Seq::filter);
    if drives.len() > 0 {
        let rest = drives.drop_last();
        lemma_drives_filtered(rest);
        assert(drive_views(drives).drop_last() =~= drive_views(rest));
        assert(drive_views(drives).last() == drives.last()@);
        let before = drive_evidence(drive_views(rest));
        let all = drive_evidence(drive_views(drives));
        assert forall|i: int| 0 <= i < all.len() implies {
            let d = drives.filter(|d: DriveInfo| d.free_bytes is Some && d.total_bytes is Some)[i];
            let e = #[trigger] all[i];
            e.free_bytes == d.free_bytes->0 && e.total_bytes == d.total_bytes->0
        } by {
            if i < before.len() {
                assert(all[i] == before[i]);
            }
        }
    }
}

/// The temperature of the processor is the highest of the readings that are available
/// and are of its package or a core; readings of anything else do not count.
pub proof fn law_processor_readings_count(sensors: Vec<SensorReading>, r: Option<Real>)
    requires
        call_ensures(cpu_temperature, (&sensors,), r),
    ensures
        r is None <==> forall|i: int|
            0 <= i < sensors@.len() ==> !reads_processor(#[trigger] sensors@[i]),
        r matches Some(t) ==> {
            &&& exists|i: int|
                0 <= i < sensors@.len() && reads_processor(#[trigger] sensors@[i])
                    && sensors@[i].value == Some(t)
            &&& forall|i: int|
                0 <= i < sensors@.len() && reads_processor(#[trigger] sensors@[i]) ==> place(t)
                    >= place(sensors@[i].value->0)
        },
{
    let all = sensors@.map_values(|s: SensorReading| s@);
    lemma_hottest_is_read(all);
    assert forall|i: int| 0 <= i < sensors@.len() implies reads_processor(#[trigger] sensors@[i])
        == (is_cpu_heat(all[i]) && all[i].value is Some) by {
        assert(all[i] == sensors@[i]@);
    }
    assert forall|i: int| 0 <= i < sensors@.len() && reads_processor(#[trigger] sensors@[i]) implies {
        &&& r is Some
        &&& place(r->0) >= place(sensors@[i].value->0)
    } by {
        assert(all[i] == sensors@[i]@);
        law_hottest_is_highest(all, i);
    }
    if let Some(t) = r {
        let i = choose|i: int|
            0 <= i < all.len() && is_cpu_heat(#[trigger] all[i]) && all[i].value == Some(t);
        assert(all[i] == sensors@[i]@);
        assert(reads_processor(sensors@[i]));
    }
}

/// Is it an available reading of the processor's temperature?
pub open spec fn reads_processor(s: SensorReading) -> bool {
    &&& s.availability == SensorAvailability::Available
    &&& s.class == SensorClass::CpuPackage || s.class == SensorClass::CpuCore
    &&& s.value is Some
}

proof fn lemma_hottest_is_read(sensors: Seq<SensorReadingView>)
    ensures
        hottest(sensors) matches Some(t) ==> exists|i: int|
            0 <= i < sensors.len() && is_cpu_heat(#[trigger] sensors[i]) && sensors[i].value
                == Some(t),
    decreases sensors.len(),
{
    if sensors.len() > 0 {
        let rest = sensors.drop_last();
        lemma_hottest_is_read(rest);
        if let Some(t) = hottest(sensors) {
            if is_cpu_heat(sensors.last()) && sensors.last().value == Some(t) {
                assert(sensors[sensors.len() - 1] == sensors.last());
            } else {
                let i = choose|i: int|
                    0 <= i < rest.len() && is_cpu_heat(#[trigger] rest[i]) && rest[i].value
                        == Some(t);
                assert(sensors[i] == rest[i]);
            }
        }
    }
}

/// What temperatures, storage devices and the battery tell is taken over as it is.
pub proof fn law_conditions_are_taken_over(
    groups: Vec<ApplicationGroupInfo>,
    drives: Vec<DriveInfo>,
    thermal: Option<ThermalSnapshot>,
    storage: Option<DiskHealthReport>,
    battery: Option<BatteryStatus>,
    wifi: Option<Vec<WifiAdapterStatus>>,
    earlier: Option<ResourceSnapshot>,
    later: Option<ResourceSnapshot>,
    elapsed_ms: u64,
    r: SystemDiagnosticData,
)
    requires
        elapsed_ms >= 1,
        call_ensures(
            collect_evidence,
            (
                &groups,
                &drives,
                &thermal,
                &storage,
                &battery,
                &wifi,
                &earlier,
                &later,
                elapsed_ms,
            ),
            r,
        ),
    ensures
        thermal matches Some(t) ==> {
            &&& r@.thermal->0.cpu_throttling == t.thermal_state.cpu_throttling@
            &&& r@.thermal->0.cpu_frequency_reduced == t.thermal_state.cpu_frequency_reduced
            &&& r@.thermal->0.cpu_thermal_pressure == t.thermal_state.cpu_thermal_pressure@
        },
        storage is None ==> r@.storage_health.len() == 0,
        storage matches Some(s) ==> {
            &&& r@.storage_health.len() == s.devices@.len()
            &&& forall|i: int|
                0 <= i < s.devices@.len() ==> {
                    let e = #[trigger] r@.storage_health[i];
                    &&& e.device == s.devices@[i]@.device
                    &&& e.percentage_used == s.devices@[i].percentage_used
                    &&& e.health_status == s.devices@[i]@.health_status
                    &&& e.temperature_c == s.devices@[i].temperature_c
                }
        },
        battery matches Some(b) ==> {
            &&& r@.battery->0.present == b.present
            &&& r@.battery->0.percent == b.percent
            &&& r@.battery->0.charging == b.charging
            &&& b.health is None ==> r@.battery->0.health_percent is None
            &&& b.health matches Some(h) ==> r@.battery->0.health_percent == h.health_percent
        },
        wifi is None ==> r@.wifi.len() == 0,
{
    if let Some(s) = storage {
        assert forall|i: int| 0 <= i < s.devices@.len() implies {
            let e = #[trigger] r@.storage_health[i];
            &&& e.device == s.devices@[i]@.device
            &&& e.percentage_used == s.devices@[i].percentage_used
            &&& e.health_status == s.devices@[i]@.health_status
            &&& e.temperature_c == s.devices@[i].temperature_c
        } by {
            assert(s@.devices[i] == s.devices@[i]@);
        }
    }
}

/// Everything that was measured of the memory, the volumes and the applications is told
/// as evidence, each under its name.
pub proof fn law_measurements_are_told(d: SystemDiagnosticDataView, apps: Seq<SystemAppEvidenceView>, app: SystemAppEvidenceView)
    ensures
        memory_measurements(d).len() == (if d.memory_load_percent is Some {
            1int
        } else {
            0
        }) + (if d.memory_available_bytes is Some {
            1int
        } else {
            0
        }) + (if d.memory_total_bytes is Some {
            1int
        } else {
            0
        }) + (if d.memory_growth_bytes_per_second is Some {
            1int
        } else {
            0
        }),
        d.memory_load_percent matches Some(v) ==> memory_measurements(d)[0].value
            == Amount::LoadPercent(v),
        d.memory_growth_bytes_per_second matches Some(v) ==> memory_measurements(d).last().value
            == Amount::BytesPerSecond(v),
        app_measurements(apps.push(app)).take(app_measurements(apps).len() as int)
            == app_measurements(apps),
        app_measurements(apps.push(app))[app_measurements(apps).len() as int] == (MeasurementView {
            metric: "app_working_set_bytes"@,
            subject: app.display_name,
            value: Amount::Bytes(app.working_set_bytes),
        }),
        app.cpu_percent matches Some(c) ==> app_measurements(apps.push(app)).last() == (
        MeasurementView {
            metric: "app_cpu_percent"@,
            subject: app.display_name,
            value: Amount::CpuPercent(c),
        }),
        app.cpu_percent is None ==> app_measurements(apps.push(app)).len() == app_measurements(
            apps,
        ).len() + 1,
{
    assert(apps.push(app).drop_last() =~= apps);
    let before = app_measurements(apps);
    assert(app_measurements(apps.push(app)).take(before.len() as int) =~= before);
}

} // verus!
