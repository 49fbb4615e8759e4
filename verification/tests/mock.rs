use winkit::models::{EventInfo, EventLevel, EventQuery};
use winkit::providers::clock::{minutes_ago_rfc3339, minutes_before};
use winkit::providers::mock::{group_processes, matching_events, MockWindowsBackend};
use winkit::providers::sample::fixture_process_entries;
use winkit::providers::windows::WindowsBackend;
use winkit::time::{date_time, format_rfc3339, parse_rfc3339_epoch_secs};

fn sample_event(record_id: u64, event_id: u32, provider: &str, channel: &str) -> EventInfo {
    EventInfo {
        record_id: Some(record_id),
        event_id: Some(event_id),
        level: EventLevel::Error,
        provider: Some(provider.to_string()),
        channel: Some(channel.to_string()),
        time_created: minutes_ago_rfc3339(60),
        computer: Some("HOST".to_string()),
        process_id: None,
        message: Some("boom".to_string()),
        message_truncated: None,
    }
}

#[test]
fn mock_event_query_filters_by_event_id_and_provider() {
    let mock = MockWindowsBackend {
        events: vec![
            sample_event(1, 1001, "A", "System"),
            sample_event(2, 41, "B", "System"),
            sample_event(3, 1001, "A", "System"),
        ],
        ..Default::default()
    };
    let q = EventQuery {
        log: "System".to_string(),
        min_level: None,
        since_minutes: Some(43_200),
        provider: Some("A".to_string()),
        event_id: Some(1001),
        max_results: 10,
    };
    let out = mock.get_recent_events(&q).unwrap();
    assert_eq!(out.len(), 2);
    assert!(out
        .iter()
        .all(|e| e.event_id == Some(1001) && e.provider.as_deref() == Some("A")));
}

#[test]
fn mock_event_query_respects_since_window() {
    let old = EventInfo {
        time_created: minutes_ago_rfc3339(100_000),
        ..sample_event(1, 1001, "A", "System")
    };
    let mock = MockWindowsBackend {
        events: vec![old.clone(), sample_event(2, 41, "A", "System")],
        ..Default::default()
    };
    let q = EventQuery {
        log: "System".to_string(),
        min_level: None,
        since_minutes: Some(43_200),
        provider: None,
        event_id: None,
        max_results: 10,
    };
    let out = mock.get_recent_events(&q).unwrap();
    assert_eq!(out.len(), 1);
    assert_eq!(out[0].record_id, Some(2));
}

#[test]
fn mock_registry_diagnostics_honors_flags() {
    let mock = MockWindowsBackend::with_fixtures();
    let all = mock.registry_diagnostics(true, 200).unwrap();
    assert_eq!(all.counts.installed_software, 2);
    let no_software = mock.registry_diagnostics(false, 200).unwrap();
    assert!(no_software.installed_software.is_empty());
    assert_eq!(no_software.counts.installed_software, 0);
    let capped = mock.registry_diagnostics(true, 1).unwrap();
    assert_eq!(capped.installed_software.len(), 1);
    assert_eq!(capped.counts.installed_software, 1);
}

#[test]
fn update_status_and_path_audit_are_mocked_or_unsupported() {
    let mock = MockWindowsBackend::with_fixtures();
    let status = mock.update_status(10).unwrap();
    assert!(status.hotfixes.len() <= 10);
    let audit = mock.path_audit().unwrap();
    assert_eq!(audit.total_entries, audit.process_entries.len());
}

#[test]
fn events_are_held_to_a_given_time() {
    let at = |text: &str| EventInfo {
        time_created: Some(text.to_string()),
        ..sample_event(1, 1, "A", "System")
    };
    let events = vec![
        at("2026-08-13T08:00:00.000Z"),
        at("2026-08-13T07:59:59.000Z"),
        at("no time at all"),
    ];
    let q = EventQuery {
        log: "System".to_string(),
        min_level: Some(2),
        since_minutes: Some(60),
        provider: None,
        event_id: None,
        max_results: 10,
    };
    let nine = parse_rfc3339_epoch_secs("2026-08-13T09:00:00.000Z").unwrap();
    let out = matching_events(&events, &q, nine * 1_000_000_000);
    assert_eq!(out.len(), 2);
    assert_eq!(
        out[0].time_created.as_deref(),
        Some("2026-08-13T08:00:00.000Z")
    );
    let strict = EventQuery { min_level: Some(1), ..q };
    assert!(matching_events(&events, &strict, nine * 1_000_000_000).is_empty());
}

#[test]
fn the_sample_machine_is_whole() {
    let mock = MockWindowsBackend::with_fixtures();
    assert_eq!(mock.processes.len(), 7);
    assert_eq!(mock.list_processes(2).unwrap().len(), 2);
    assert_eq!(mock.get_process(900).unwrap().unwrap().name, "node.exe");
    assert!(mock.get_process(1).unwrap().is_none());
    assert_eq!(mock.find_process("CHROME", 10).unwrap().len(), 3);
    assert_eq!(mock.find_process_on_port(3000).unwrap().unwrap().pid, Some(900));
    assert!(mock.find_process_on_port(1).unwrap().is_none());
    assert_eq!(
        mock.get_service("print spooler").unwrap().unwrap().name,
        "Spooler"
    );
    let tree = mock.get_process_tree(420, 3, 10).unwrap().unwrap();
    assert_eq!(tree.children.len(), 2);
    assert_eq!(
        mock.foreground_window_title().unwrap().as_deref(),
        Some("My Heavy Tab - Google Chrome")
    );
    assert_eq!(mock.disk_usage("D:").unwrap().path, "D:");
    assert_eq!(
        mock.drives[0].percent_used.map(|r| f64::from_bits(r.bits)),
        Some(60.0)
    );
    assert_eq!(mock.network_diagnose(5).unwrap().duration_ms, 5);
    assert_eq!(mock.network_diagnose(5_000).unwrap().duration_ms, 1_000);
    assert_eq!(mock.hardware_snapshot().unwrap().sensors.len(), 2);
    assert_eq!(fixture_process_entries().len(), 3);
}

#[test]
fn processes_are_grouped_by_application() {
    let mock = MockWindowsBackend::with_fixtures();
    let groups = group_processes(&mock.processes, 10);
    let names: Vec<&str> = groups.iter().map(|g| g.name.as_str()).collect();
    assert_eq!(names, ["chrome", "node", "explorer", "svchost", "system"]);
    assert_eq!(groups[0].process_count, 3);
    assert_eq!(groups[0].total_working_set_bytes, 3_700_000_000);
    assert_eq!(
        groups[0].cpu_percent.map(|r| f64::from_bits(r.bits)),
        Some(42.5)
    );
    assert_eq!(group_processes(&mock.processes, 2).len(), 2);
}

#[test]
fn times_are_read_back() {
    let text = format_rfc3339(1_786_608_000_123);
    assert_eq!(parse_rfc3339_epoch_secs(&text), Some(1_786_608_000));
    assert_eq!(format_rfc3339(0), "1970-01-01T00:00:00.000Z");
    assert_eq!(format_rfc3339(951_782_400_000), "2000-02-29T00:00:00.000Z");
    let end = date_time(253_402_300_799);
    assert_eq!((end.year, end.month, end.day), (9999, 12, 31));
    assert_eq!(parse_rfc3339_epoch_secs("2026-02-29T00:00:00Z"), None);
    assert_eq!(parse_rfc3339_epoch_secs("2026-02-28T00:00:00"), None);
    assert_eq!(parse_rfc3339_epoch_secs("1970-01-02T00:00:00Z"), Some(86_400));
    assert_eq!(
        minutes_before(60_000 * 3, 2),
        Some("1970-01-01T00:01:00.000Z".to_string())
    );
    assert_eq!(minutes_before(0, 1), None);
}
