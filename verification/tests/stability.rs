use winkit::json::Json;
use winkit::models::{EventInfo, EventLevel};
use winkit::providers::clock::minutes_ago_rfc3339;
use winkit::providers::mock::MockWindowsBackend;
use winkit::tools::events::{
    bounded_events, get_application_errors_handler, get_recent_events_handler,
    get_system_errors_handler, message_cap_used,
};
use winkit::tools::stability::{
    crash_history_handler, extract_bugcheck_code, shutdown_analysis_handler, CrashCategory,
    CrashHistory, ShutdownCategory,
};

fn event(
    record_id: u64,
    event_id: u32,
    provider: &str,
    channel: &str,
    minutes_ago: u64,
    message: Option<&str>,
) -> EventInfo {
    EventInfo {
        record_id: Some(record_id),
        event_id: Some(event_id),
        level: EventLevel::Error,
        provider: Some(provider.to_string()),
        channel: Some(channel.to_string()),
        time_created: minutes_ago_rfc3339(minutes_ago),
        computer: Some("DESKTOP-X".into()),
        process_id: None,
        message: message.map(str::to_string),
        message_truncated: None,
    }
}

fn state_with(events: Vec<EventInfo>) -> MockWindowsBackend {
    MockWindowsBackend {
        events,
        ..Default::default()
    }
}

fn args(text: &str) -> Json {
    Json::parse(text).unwrap()
}

fn count(h: &CrashHistory, c: CrashCategory) -> usize {
    h.categories.iter().find(|b| b.category == c).unwrap().count
}

#[test]
fn message_cap_used_clamps_requests() {
    assert_eq!(message_cap_used(None, 600, 4000), 600);
    assert_eq!(message_cap_used(Some(10), 600, 4000), 64);
    assert_eq!(message_cap_used(Some(99_999), 600, 4000), 4000);
    assert_eq!(message_cap_used(Some(120), 600, 4000), 120);
}

fn event_with_message(m: &str) -> EventInfo {
    EventInfo {
        record_id: None,
        event_id: Some(1000),
        level: EventLevel::Error,
        provider: None,
        channel: None,
        time_created: None,
        computer: None,
        process_id: None,
        message: Some(m.to_string()),
        message_truncated: None,
    }
}

#[test]
fn bounded_events_marks_and_shortens_long_messages() {
    let mut events = vec![
        event_with_message(&"x".repeat(2_000)),
        event_with_message("short"),
    ];
    assert_eq!(bounded_events(&mut events, None, 600, 4_000), 2);
    assert_eq!(events[0].message_truncated, Some(true));
    assert_eq!(events[0].message.as_ref().unwrap().chars().count(), 600);
    assert_eq!(events[1].message_truncated, None);
    assert_eq!(events[1].message.as_deref(), Some("short"));
}

#[test]
fn extract_bugcheck_code_parses_message() {
    let msg = "The computer has rebooted from a bugcheck. The bugcheck was: 0x00000124 \
               (0x0000000000000000, 0xffffffffc0000005, 0x0, 0x0). A dump was saved in: \
               C:\\Windows\\MEMORY.DMP.";
    assert_eq!(
        extract_bugcheck_code(Some(msg)),
        Some("0x00000124".to_string())
    );
    assert_eq!(extract_bugcheck_code(Some("no bugcheck here")), None);
    assert_eq!(extract_bugcheck_code(None), None);
}

#[test]
fn crash_history_groups_categorizes_and_caps() {
    let events = vec![
        event(1, 1001, "Microsoft-Windows-WER-SystemErrorReporting", "System", 60,
            Some("The computer has rebooted from a bugcheck. The bugcheck was: 0x00000124 (0, 0, 0). A dump was saved in: C:\\Windows\\MEMORY.DMP.")),
        event(2, 41, "Microsoft-Windows-Kernel-Power", "System", 120,
            Some("The system has rebooted without cleanly shutting down first.")),
        event(3, 19, "Microsoft-Windows-WHEA-Logger", "System", 300,
            Some("A corrected hardware error has occurred.")),
        event(4, 1000, "Application Error", "Application", 30,
            Some("Faulting application name: chrome.exe")),
    ];
    let state = state_with(events);
    let out = crash_history_handler(&state, &args("{}"), 200).unwrap();
    assert_eq!(out.total, 4);
    assert_eq!(count(&out, CrashCategory::Bugcheck), 1);
    assert_eq!(count(&out, CrashCategory::UncleanShutdown), 1);
    assert_eq!(count(&out, CrashCategory::HardwareError), 1);
    assert_eq!(count(&out, CrashCategory::AppCrash), 1);
    assert_eq!(count(&out, CrashCategory::WerReport), 0);
    assert_eq!(out.crashes[0].record_id, Some(4));
    assert_eq!(out.crashes[3].record_id, Some(3));
    let bugcheck = out
        .crashes
        .iter()
        .find(|c| c.category == CrashCategory::Bugcheck)
        .unwrap();
    assert_eq!(bugcheck.bugcheck_code.as_deref(), Some("0x00000124"));
    assert_eq!(bugcheck.category.as_str(), "bugcheck");
    let app = out
        .crashes
        .iter()
        .find(|c| c.category == CrashCategory::AppCrash)
        .unwrap();
    assert_eq!(app.bugcheck_code, None);
}

#[test]
fn crash_history_respects_lookback_window() {
    let events = vec![
        event(1, 1001, "Microsoft-Windows-WER-SystemErrorReporting", "System", 100_000,
            Some("The computer has rebooted from a bugcheck. The bugcheck was: 0x00000124 (0, 0, 0).")),
        event(2, 1000, "Application Error", "Application", 60,
            Some("Faulting application name: chrome.exe")),
    ];
    let state = state_with(events);
    let out = crash_history_handler(&state, &args("{\"since_minutes\": 43200}"), 200).unwrap();
    assert_eq!(out.total, 1);
    assert_eq!(out.crashes[0].record_id, Some(2));
}

#[test]
fn crash_history_reports_query_failures_as_warnings() {
    let state = state_with(vec![]);
    let out = crash_history_handler(&state, &args("{}"), 200).unwrap();
    assert_eq!(out.total, 0);
    assert!(out.warnings.is_empty());
}

#[test]
fn shutdown_analysis_reports_last_boot_and_last_shutdown_kind() {
    let log = "Microsoft-Windows-Eventlog";
    let events = vec![
        event(11, 6005, log, "System", 600, Some("The Event log service was started.")),
        event(12, 6013, log, "System", 600, Some("The system uptime is 86400 seconds.")),
        event(
            13,
            6008,
            log,
            "System",
            720,
            Some("The previous system shutdown at 9:00:00 AM on 8/18/2026 was unexpected."),
        ),
        event(
            14,
            1074,
            "User32",
            "System",
            2880,
            Some("The process C:\\Windows\\System32\\shutdown.exe ... reason: Other (Unplanned)"),
        ),
        event(15, 6006, log, "System", 4320, Some("The Event log service was stopped.")),
        event(
            16,
            41,
            "Microsoft-Windows-Kernel-Power",
            "System",
            5760,
            Some("The system has rebooted without cleanly shutting down first."),
        ),
        event(
            17,
            42,
            "Microsoft-Windows-Kernel-Power",
            "System",
            1500,
            Some("The system is entering sleep."),
        ),
    ];
    let state = state_with(events);
    let out = shutdown_analysis_handler(&state, &args("{}"), 200).unwrap();
    assert_eq!(out.summary.boots, 1);
    assert_eq!(out.summary.clean_shutdowns, 1);
    assert_eq!(out.summary.unexpected_shutdowns, 1);
    assert_eq!(out.summary.user_initiated_shutdowns, 1);
    assert_eq!(out.summary.power_losses, 1);
    assert_eq!(out.summary.sleeps, 1);
    assert_eq!(out.summary.hibernations, 0);
    assert_eq!(
        out.summary.last_shutdown_kind,
        Some(ShutdownCategory::UnexpectedShutdown)
    );
    assert_eq!(ShutdownCategory::UnexpectedShutdown.as_str(), "unexpected_shutdown");
    assert_eq!(out.current_uptime_seconds, Some(86400));
    assert!(out.last_boot_time.is_some());
}

#[test]
fn shutdown_analysis_kind_is_null_without_shutdown_evidence() {
    let events = vec![
        event(
            21,
            6005,
            "Microsoft-Windows-Eventlog",
            "System",
            600,
            Some("The Event log service was started."),
        ),
        event(
            22,
            42,
            "Microsoft-Windows-Kernel-Power",
            "System",
            1500,
            Some("The system is entering sleep."),
        ),
    ];
    let state = state_with(events);
    let out = shutdown_analysis_handler(&state, &args("{}"), 200).unwrap();
    assert!(out.summary.last_shutdown_kind.is_none());
    assert_eq!(out.summary.boots, 1);
}

#[test]
fn event_queries_refuse_unknown_levels() {
    let state = state_with(vec![
        event(1, 7, "A", "Application", 1, Some("one")),
        event(2, 7, "A", "Application", 1, None),
        event(3, 7, "A", "System", 1, Some("three")),
    ]);
    assert!(get_recent_events_handler(&state, &args("{\"level\": \"loud\"}"), 50).is_err());
    let all = get_recent_events_handler(&state, &args("{}"), 50).unwrap();
    assert_eq!(all.count, 2);
    assert_eq!(all.skipped_null_messages, None);
    let errors = get_application_errors_handler(&state, &args("{}"), 50).unwrap();
    assert_eq!(errors.count, 1);
    assert_eq!(errors.skipped_null_messages, Some(1));
    let named = get_application_errors_handler(&state, &args("{\"provider\": \"A\"}"), 50).unwrap();
    assert_eq!(named.count, 2);
    let system = get_system_errors_handler(&state, &args("{}"), 50).unwrap();
    assert_eq!(system.events[0].record_id, Some(3));
}
