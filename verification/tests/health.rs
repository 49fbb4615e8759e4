use winkit::config::HealthConfig;
use winkit::diagnostics::{
    app_cpu_score, app_memory_score, memory_pressure_score, severity, storage_score,
};
use winkit::floats::{is_at_least, place_of, whole_part};
use winkit::models::{
    ApplicationGroupInfo, DriveInfo, Real, ResourceSnapshot, SystemAppEvidence,
    SystemBatteryEvidence, SystemDiagnosticData, SystemDriveEvidence, SystemStorageHealthEvidence,
    SystemThermalEvidence, SystemWifiEvidence,
};
use winkit::providers::mock::MockWindowsBackend;
use winkit::providers::windows::WindowsBackend;
use winkit::json::Json;
use winkit::tools::evidence::{analyze_system, collect_evidence, cpu_temperature, Dimension};
use winkit::tools::health::{build_health_report, drive_label, system_health_handler, Amount};

fn number(x: f64) -> Real {
    Real { bits: x.to_bits() }
}

fn group(name: &str, ws_mb: u64, cpu: Option<f64>) -> ApplicationGroupInfo {
    ApplicationGroupInfo {
        name: name.into(),
        display_name: name.into(),
        process_count: 1,
        tree_process_count: 1,
        total_working_set_bytes: ws_mb * 1024 * 1024,
        own_working_set_bytes: ws_mb * 1024 * 1024,
        cpu_percent: cpu.map(number),
        cpu_percent_basis: "system_capacity_all_cores".into(),
        cpu_percent_sample_ms: 300,
        status: "normal".into(),
    }
}

fn snapshot(load: f64, total: u64, available: u64) -> ResourceSnapshot {
    ResourceSnapshot {
        cpu_busy_percent: None,
        cpu_busy_percent_basis: "system_capacity_all_cores".into(),
        memory_load_percent: Some(number(load)),
        total_memory_bytes: Some(total),
        available_memory_bytes: Some(available),
    }
}

#[test]
fn flags_high_cpu_and_high_memory_with_thresholds() {
    let groups = vec![
        group("chrome", 3_500, Some(45.0)),
        group("node", 200, Some(5.0)),
    ];
    let cfg = HealthConfig::default();
    let report = build_health_report(
        groups,
        &snapshot(40.0, 16_000_000_000, 9_600_000_000),
        &vec![],
        &cfg,
    );
    assert_eq!(report.applications[0].status, "high_cpu_and_memory");
    assert_eq!(report.applications[1].status, "normal");
    assert_eq!(report.issues.len(), 2);
    assert!(report.issues.iter().any(|i| i.kind == "high_cpu"));
    assert!(report.issues.iter().any(|i| i.kind == "high_memory"));
    for issue in &report.issues {
        assert!(issue.score > 0);
        assert!(!issue.category.is_empty());
    }
    assert_eq!(report.issues[0].kind, "high_memory");
}

#[test]
fn flags_low_disk_space_and_memory_pressure() {
    let cfg = HealthConfig::default();
    let report = build_health_report(
        Vec::new(),
        &snapshot(92.0, 16_000_000_000, 1_280_000_000),
        &vec![DriveInfo {
            root: "C:\\".into(),
            kind: "fixed".into(),
            total_bytes: Some(500_000_000_000),
            free_bytes: Some(5_000_000_000),
            used_bytes: Some(495_000_000_000),
            percent_used: Some(number(99.0)),
        }],
        &cfg,
    );
    assert!(report.system.memory_pressure);
    assert!(report.system.drives[0].low_disk_space);
    assert_eq!(report.issues.len(), 2);
    let storage = report
        .issues
        .iter()
        .find(|i| i.kind == "low_disk_space")
        .unwrap();
    assert_eq!(storage.severity, "critical");
    assert_eq!(storage.score, 100);
    assert_eq!(storage.category, "storage");
    assert_eq!(report.issues[0].kind, "low_disk_space");
    assert!(report.issues.iter().any(|i| i.kind == "memory_pressure"));
}

#[test]
fn quiet_machine_reports_no_issues() {
    let cfg = HealthConfig::default();
    let report = build_health_report(
        vec![group("node", 100, Some(1.0))],
        &snapshot(30.0, 16_000_000_000, 11_200_000_000),
        &vec![DriveInfo {
            root: "C:\\".into(),
            kind: "fixed".into(),
            total_bytes: Some(500_000_000_000),
            free_bytes: Some(200_000_000_000),
            used_bytes: Some(300_000_000_000),
            percent_used: Some(number(60.0)),
        }],
        &cfg,
    );
    assert!(report.issues.is_empty());
    assert_eq!(report.applications[0].status, "normal");
    assert!(!report.system.drives[0].low_disk_space);
}

#[test]
fn drive_label_normalizes_trailing_separator() {
    assert_eq!(drive_label("C:\\"), "C:");
    assert_eq!(drive_label("D:/"), "D:");
}

#[test]
fn issues_are_sorted_by_score_descending() {
    let cfg = HealthConfig::default();
    let report = build_health_report(
        vec![group("chrome", 4_000, Some(12.0))],
        &snapshot(88.0, 16_000_000_000, 1_900_000_000),
        &vec![DriveInfo {
            root: "C:\\".into(),
            kind: "fixed".into(),
            total_bytes: Some(500_000_000_000),
            free_bytes: Some(3_000_000_000),
            used_bytes: Some(497_000_000_000),
            percent_used: Some(number(99.4)),
        }],
        &cfg,
    );
    let scores: Vec<u8> = report.issues.iter().map(|i| i.score).collect();
    let mut sorted = scores.clone();
    sorted.sort_by(|a, b| b.cmp(a));
    assert_eq!(scores, sorted);
    assert_eq!(scores.len(), 3);
}

#[test]
fn diagnose_with_mock_evidence_ranks_findings() {
    let data = SystemDiagnosticData {
        memory_load_percent: Some(number(92.0)),
        memory_available_bytes: Some(1_280_000_000),
        memory_total_bytes: Some(16_000_000_000),
        memory_growth_bytes_per_second: Some(2 * 1024 * 1024),
        drives: vec![SystemDriveEvidence {
            subject: "C:".into(),
            free_bytes: 5_000_000_000,
            total_bytes: 500_000_000_000,
        }],
        app_groups: vec![SystemAppEvidence {
            name: "chrome".into(),
            display_name: "Google Chrome".into(),
            process_count: 3,
            tree_process_count: 8,
            working_set_bytes: 3_500 * 1024 * 1024,
            own_working_set_bytes: 1_200 * 1024 * 1024,
            cpu_percent: Some(number(45.0)),
        }],
        thermal: None,
        storage_health: Vec::new(),
        battery: None,
        wifi: Vec::new(),
    };
    let diagnosis = analyze_system(&data, &HealthConfig::default());
    assert!(!diagnosis.findings.is_empty());
    assert_eq!(diagnosis.findings[0].category, "storage");
    assert!(diagnosis.report.measurements.len() >= 6);
    assert!(diagnosis
        .report
        .possible_causes
        .iter()
        .any(|c| c.hypothesis.contains("storage pressure")));
    assert_eq!(diagnosis.evidence_completeness, "limited");
    assert_eq!(diagnosis.checked_clean, vec![Dimension::MemoryGrowth]);
}

#[test]
fn evidence_is_collected_as_far_as_it_can_be_had() {
    let mock = MockWindowsBackend::with_fixtures();
    let groups = mock.application_groups(10).unwrap();
    let drives = mock.list_drives().unwrap();
    let thermal = mock.thermal_snapshot().ok();
    let storage = mock.disk_health().ok();
    let battery = mock.battery_status().ok();
    let wifi = mock.wifi_status().ok();
    let earlier = Some(snapshot(50.0, 16_000_000_000, 6_002_000_000));
    let later = Some(snapshot(62.0, 16_000_000_000, 6_000_000_000));
    let data = collect_evidence(
        &groups, &drives, &thermal, &storage, &battery, &wifi, &earlier, &later, 500,
    );
    assert_eq!(data.memory_growth_bytes_per_second, Some(4_000_000));
    assert_eq!(data.memory_load_percent, Some(number(62.0)));
    assert_eq!(
        data.thermal.as_ref().unwrap().cpu_temperature_c,
        Some(number(52.0))
    );
    assert_eq!(data.storage_health[0].percentage_used, Some(12));
    assert_eq!(
        data.battery.as_ref().unwrap().health_percent,
        Some(number(80.0))
    );
    assert_eq!(data.wifi[0].state, "connected");
    assert_eq!(data.drives[0].subject, "C:");
    let full = analyze_system(&data, &HealthConfig::default());
    assert_eq!(full.evidence_completeness, "full");
    for x in [Dimension::Thermal, Dimension::StorageHealth, Dimension::Battery, Dimension::Wifi] {
        assert!(full.checked_clean.contains(&x));
        assert!(full.findings.iter().all(|f| f.category != x.as_str()));
    }
    let back = collect_evidence(
        &groups, &drives, &None, &None, &None, &None, &later, &earlier, 500,
    );
    assert_eq!(back.memory_growth_bytes_per_second, Some(-4_000_000));
    assert!(back.thermal.is_none());
    let only = collect_evidence(&groups, &drives, &None, &None, &None, &None, &later, &None, 1);
    assert_eq!(only.memory_growth_bytes_per_second, None);
    assert_eq!(only.memory_load_percent, Some(number(62.0)));
    let vast = Some(snapshot(50.0, u64::MAX, u64::MAX));
    let none = Some(snapshot(50.0, u64::MAX, 0));
    let jump = collect_evidence(&groups, &drives, &None, &None, &None, &None, &vast, &none, 1);
    assert_eq!(jump.memory_growth_bytes_per_second, None);
}

#[test]
fn bad_conditions_are_found() {
    let quiet = SystemDiagnosticData {
        memory_load_percent: None,
        memory_available_bytes: None,
        memory_total_bytes: None,
        memory_growth_bytes_per_second: Some(60 * 1024 * 1024),
        drives: Vec::new(),
        app_groups: Vec::new(),
        thermal: Some(SystemThermalEvidence {
            cpu_thermal_pressure: "high".into(),
            cpu_throttling: "observed".into(),
            cpu_frequency_reduced: Some(true),
            cpu_temperature_c: Some(number(97.5)),
            gpu_thermal_pressure: "unknown".into(),
        }),
        storage_health: vec![SystemStorageHealthEvidence {
            device: "disk 0".into(),
            interface: "nvme".into(),
            health_status: Some("warning".into()),
            temperature_c: None,
            percentage_used: Some(95),
        }],
        battery: Some(SystemBatteryEvidence {
            present: true,
            percent: Some(80),
            ac_online: Some(true),
            charging: Some(false),
            battery_state: None,
            health_percent: Some(number(41.0)),
        }),
        wifi: vec![SystemWifiEvidence {
            description: "adapter".into(),
            state: "connected".into(),
            signal_percent: Some(20),
            link_speed_mbps: None,
        }],
    };
    let diagnosis = analyze_system(&quiet, &HealthConfig::default());
    let told: Vec<(&str, u8)> = diagnosis.findings.iter().map(|f| (f.kind, f.score)).collect();
    assert_eq!(
        told,
        vec![
            ("cpu_temperature", 97),
            ("storage_wear", 95),
            ("storage_unhealthy", 90),
            ("weak_signal", 80),
            ("cpu_throttling", 70),
            ("memory_growth", 60),
            ("battery_wear", 59),
        ]
    );
    assert!(diagnosis.checked_clean.is_empty());
    assert_eq!(diagnosis.report.possible_causes[0].hypothesis, "thermal limits of cpu");
    assert_eq!(diagnosis.evidence_completeness, "limited");
}

#[test]
fn the_health_of_the_sample_machine() {
    let mock = MockWindowsBackend::with_fixtures();
    let args = Json::parse("{\"limit\": 3}").unwrap();
    let report = system_health_handler(&mock, &args, &HealthConfig::default()).unwrap();
    assert_eq!(report.applications.len(), 3);
    assert_eq!(report.applications[0].status, "high_cpu_and_memory");
    assert!(!report.system.memory_pressure);
    match report.issues[0].value {
        Amount::Megabytes(mb) => assert_eq!(mb, 3_700_000_000 / 1_048_576),
        _ => panic!("the largest issue is one of memory"),
    }
}

#[test]
fn scores_follow_their_formulas() {
    assert_eq!(app_cpu_score(number(45.9)), 45);
    assert_eq!(app_cpu_score(number(0.2)), 1);
    assert_eq!(app_cpu_score(number(900.0)), 100);
    assert_eq!(app_memory_score(4_000_000_000, Some(16_000_000_000)), 75);
    assert_eq!(app_memory_score(4_000_000_000, None), 50);
    assert_eq!(storage_score(Some(5), Some(500)), 100);
    assert_eq!(storage_score(Some(50), Some(500)), 55);
    assert_eq!(storage_score(Some(5), None), 100);
    assert_eq!(memory_pressure_score(number(85.0), Some(10), Some(100)), 90);
    assert_eq!(memory_pressure_score(number(92.0), Some(10), Some(100)), 92);
    assert_eq!(severity(80), "critical");
    assert_eq!(severity(60), "high");
    assert_eq!(severity(40), "medium");
    assert_eq!(severity(39), "low");
}

#[test]
fn numbers_compare_by_their_bits() {
    for (a, b) in [
        (1.0, 2.0),
        (-1.0, 1.0),
        (-2.0, -1.0),
        (0.0, -0.0),
        (1.5, 1.5),
        (f64::INFINITY, 1e300),
        (1.0, f64::NAN),
        (f64::NAN, f64::NAN),
    ] {
        assert_eq!(is_at_least(number(a), number(b)), a >= b, "{a} {b}");
        assert_eq!(is_at_least(number(b), number(a)), b >= a, "{b} {a}");
        assert_eq!(place_of(number(a)) < place_of(number(b)), a.total_cmp(&b).is_lt());
    }
    for x in [0.0, 0.99, 1.0, 45.0, 99.999, 4_503_599_627_370_495.0] {
        assert_eq!(whole_part(number(x)), x as u64);
    }
    assert_eq!(whole_part(number(-3.0)), 0);
    assert_eq!(whole_part(number(f64::NAN)), 0);
}

#[test]
fn the_highest_reading_of_the_processor_counts() {
    let mock = MockWindowsBackend::with_fixtures();
    let snapshot = mock.hardware_snapshot().unwrap();
    assert_eq!(cpu_temperature(&snapshot.sensors), Some(number(3800.0)));
    assert_eq!(cpu_temperature(&Vec::new()), None);
}
