use winkit::chrome::diag::{
    gpu_exit_code_from_diag, redact_value, sanitize_diag, strip_url_query, StderrTail,
};
use winkit::chrome::launch::{
    base64_decoded_len, build_chrome_args, display_url, hosts_match, sanitize_url, url_host,
    ws_is_loopback, LaunchMode,
};
use winkit::chrome::metrics::{summarize_trend, trend_offsets, TrendSample};
use winkit::chrome::paths::{
    check_cleanup, contained_under, is_drive_root, is_within, make_session_id, owned_tree_match,
    session_profile_dir, PathStyle,
};
use winkit::chrome::report::ProfileGuard;

#[test]
fn build_chrome_args_are_fixed_and_safe() {
    let args = build_chrome_args(
        "C:\\profiles\\session-wk-1",
        9333,
        Some("http://localhost:3000/".to_string()),
        false,
        LaunchMode::HeadedDefault,
    );
    assert!(args.contains(&"--remote-debugging-port=9333".to_string()));
    assert!(args.contains(&"--user-data-dir=C:\\profiles\\session-wk-1".to_string()));
    assert!(args.contains(&"--remote-allow-origins=*".to_string()));
    assert!(args.contains(&"--no-first-run".to_string()));
    assert!(args.contains(&"--no-default-browser-check".to_string()));
    assert!(args.contains(&"--disable-background-networking".to_string()));
    assert!(args.contains(&"http://localhost:3000/".to_string()));
    assert!(!args.iter().any(|a| a.contains("--headless")));
    assert!(args.contains(&"--window-size=1280,900".to_string()));
    assert!(
        !args.iter().any(|a| a == "--disable-gpu"),
        "the default headed configuration has no GPU rendering flags"
    );
    assert!(!args.iter().any(|a| a.contains("--in-process-gpu")));

    let headed_sw = build_chrome_args("C:\\p", 1, None, false, LaunchMode::HeadedSoftware);
    assert!(
        !headed_sw.iter().any(|a| a.contains("--headless")),
        "the headed fallback must never become headless"
    );
    assert!(
        headed_sw.contains(&"--window-size=1280,900".to_string()),
        "the headed fallback must still open a visible sized window"
    );
    assert!(headed_sw.contains(&"--disable-gpu".to_string()));
    assert!(headed_sw.contains(&"--disable-gpu-compositing".to_string()));
    assert!(headed_sw.contains(&"--disable-gpu-rasterization".to_string()));
    assert!(headed_sw.contains(&"--use-angle=swiftshader".to_string()));
    assert!(headed_sw.contains(&"--disable-gpu-program-cache".to_string()));
    assert!(headed_sw.contains(&"--disable-gpu-shader-disk-cache".to_string()));
    assert!(!headed_sw.iter().any(|a| a.contains("--in-process-gpu")));

    let software = build_chrome_args("C:\\p", 1, None, true, LaunchMode::HeadlessSoftware);
    assert!(software.contains(&"--headless=new".to_string()));
    assert!(software.contains(&"--disable-gpu".to_string()));
    assert!(software.contains(&"--disable-gpu-compositing".to_string()));
    assert!(software.contains(&"--use-angle=swiftshader".to_string()));
    assert!(software.contains(&"--disable-gpu-program-cache".to_string()));
    assert!(software.contains(&"--disable-gpu-shader-disk-cache".to_string()));
    assert!(!software.iter().any(|a| a.contains("--in-process-gpu")));
    assert!(!software.iter().any(|a| a.contains("--window-size")));

    let in_proc = build_chrome_args("C:\\p", 1, None, true, LaunchMode::HeadlessInProcessGpu);
    assert!(in_proc.contains(&"--headless=new".to_string()));
    assert!(in_proc.contains(&"--in-process-gpu".to_string()));
    assert!(in_proc.contains(&"--disable-gpu-shader-disk-cache".to_string()));
    assert!(
        !in_proc.contains(&"--disable-gpu".to_string()),
        "the in-process-GPU fallback replaces --disable-gpu"
    );
    assert!(!in_proc.iter().any(|a| a.contains("--window-size")));

    for mode in [
        LaunchMode::HeadedDefault,
        LaunchMode::HeadedSoftware,
        LaunchMode::HeadlessSoftware,
        LaunchMode::HeadlessInProcessGpu,
    ] {
        let m = build_chrome_args("C:\\p", 1, None, true, mode);
        assert!(!m.iter().any(|a| a.contains("--no-sandbox")));
        assert!(!m.iter().any(|a| a.contains("--disable-web-security")));
        assert!(!m.iter().any(|a| a.contains("--remote-debugging-address")));
        assert!(!m.iter().any(|a| a.starts_with("http")));
        if mode.window_mode() == "headed" {
            let h = build_chrome_args("C:\\p", 1, None, false, mode);
            assert!(
                !h.iter().any(|a| a.contains("--headless")),
                "headed modes must never pass --headless (mode: {})",
                mode.label()
            );
            assert!(!h.iter().any(|a| a.contains("--in-process-gpu")));
            assert!(h.contains(&"--window-size=1280,900".to_string()));
        }
    }
}

#[test]
fn args_never_allow_shell_or_caller_flags() {
    let args = build_chrome_args(
        "C:\\profiles\\session-wk-2",
        9444,
        Some("http://localhost:3000/a".to_string()),
        true,
        LaunchMode::HeadlessSoftware,
    );
    assert_eq!(
        args.last().map(String::as_str),
        Some("http://localhost:3000/a")
    );
    for a in &args {
        assert!(
            !a.contains("&&") && !a.contains("|") && !a.contains(";") && !a.contains("`"),
            "argument must be a plain flag/value: {a}"
        );
        assert!(!a.contains("cmd.exe") && !a.contains("powershell"));
    }
}

#[test]
fn owned_tree_match_identifies_only_the_owned_profile() {
    let profile =
        r"C:\Users\me\AppData\Local\Temp\winkit-managed-test-42-wk-1a00\session-wk-1a00";
    assert!(owned_tree_match(
        r#""C:\Program Files\Google\Chrome\Application\chrome.exe" --type=crashpad-handler "--user-data-dir=\\?\C:\Users\me\AppData\Local\Temp\winkit-managed-test-42-wk-1a00\session-wk-1a00" /prefetch:4"#,
        profile
    ));
    assert!(owned_tree_match(
        r#""C:\Program Files\Google\Chrome\Application\chrome.exe" --type=renderer --user-data-dir="C:\Users\me\AppData\Local\Temp\winkit-managed-test-42-wk-1a00\session-wk-1a00""#,
        profile
    ));
    assert!(!owned_tree_match(
        r#""C:\Program Files\Google\Chrome\Application\chrome.exe" --no-startup-window "--user-data-dir=C:\Users\me\AppData\Local\Google\Chrome\User Data" /prefetch:5"#,
        profile
    ));
    assert!(!owned_tree_match(
        r#""C:\Program Files\Google\Chrome\Application\chrome.exe" --type=renderer "--user-data-dir=C:\Users\me\AppData\Local\Temp\winkit-managed-test-42-wk-1a00\session-wk-1a01""#,
        profile
    ));
}

#[test]
fn contained_under_enforces_strict_containment() {
    let root = "C:\\winkit-profiles";
    assert!(contained_under("C:\\winkit-profiles\\session-1", root, PathStyle::Windows));
    assert!(!contained_under(root, root, PathStyle::Windows));
    assert!(!contained_under("C:\\winkit-profiles2\\session-1", root, PathStyle::Windows));
    assert!(!contained_under("C:\\other\\session-1", root, PathStyle::Windows));
    assert!(!contained_under(
        "C:\\winkit-profiles\\session-1\\..\\..",
        root,
        PathStyle::Windows
    ));
    assert!(contained_under("c:\\WINKIT-PROFILES\\SESSION-1", root, PathStyle::Windows));
}

#[test]
fn base64_decoded_len_matches_common_encodings() {
    assert_eq!(base64_decoded_len(""), 0);
    assert_eq!(base64_decoded_len("SGVsbG8="), 5);
    assert_eq!(base64_decoded_len("aGk="), 2);
    assert_eq!(base64_decoded_len("YWJjZA=="), 4);
}

#[test]
fn display_url_strips_query_and_fragment() {
    assert_eq!(
        display_url("http://localhost:3000/app?token=secret#x"),
        "http://localhost:3000/app"
    );
    assert_eq!(
        display_url("http://localhost:3000/"),
        "http://localhost:3000/"
    );
}

#[test]
fn stderr_tail_is_bounded_and_keeps_recent_entries() {
    let mut tail = StderrTail::new(128);
    for i in 0..40u32 {
        tail.push(format!("line {i:02}\n").as_bytes());
    }
    let text = tail.tail();
    assert!(
        text.contains("line 39"),
        "the tail must keep the most recent entries"
    );
    assert!(
        !text.contains("line 00"),
        "old entries must be dropped when the buffer is full"
    );
    assert!(text.chars().count() <= 400, "tail stays bounded");
}

#[test]
fn diagnostics_are_redacted_and_query_stripped() {
    let raw = "GPU process exited unexpectedly: exit_code=0xC0000022\n\
               [INFO] page URL http://localhost:3000/app?token=SECRET#frag\n\
               auth sk-abc123def456\n";
    let clean = sanitize_diag(raw);
    assert!(
        clean.contains("GPU process exited unexpectedly"),
        "useful diagnostics survive"
    );
    assert!(clean.contains("http://localhost:3000/app"));
    assert!(
        !clean.contains("token=SECRET"),
        "query strings must be stripped from URLs"
    );
    assert!(
        !clean.contains("sk-abc123def456"),
        "token literals must be redacted"
    );
    assert!(clean.contains("sk-<redacted>"));
    assert!(!clean.contains("#frag"));
}

#[test]
fn strip_url_query_keeps_scheme_host_path_only() {
    assert_eq!(
        strip_url_query("visit http://localhost:3000/a?b=c#d now"),
        "visit http://localhost:3000/a now"
    );
    assert_eq!(strip_url_query("no urls here"), "no urls here");
    assert_eq!(
        strip_url_query("https://127.0.0.1:9444/x"),
        "https://127.0.0.1:9444/x"
    );
}

#[test]
fn gpu_exit_code_extracts_the_reported_code() {
    assert_eq!(
        gpu_exit_code_from_diag(
            "[1234:5678:0821/120000.123:ERROR:gpu_process_host.cc(1000)] \
             GPU process exited unexpectedly: exit_code=-1073741790"
        ),
        Some("-1073741790".to_string())
    );
    assert_eq!(
        gpu_exit_code_from_diag("GPU process exited unexpectedly: exit_code=0xC0000022"),
        Some("0xC0000022".to_string())
    );
    assert_eq!(
        gpu_exit_code_from_diag("[INFO] page URL http://localhost:3000/a"),
        None
    );
    assert_eq!(
        gpu_exit_code_from_diag("GPU process exited unexpectedly: exit_code="),
        None
    );
}

#[test]
fn unrelated_chrome_processes_never_match_owned_profiles() {
    let profile =
        r"C:\Users\me\AppData\Local\Temp\winkit-managed-test-42-wk-1a00\session-wk-1a00";
    assert!(!owned_tree_match(
        r#""C:\Program Files\Google\Chrome\Application\chrome.exe" --type=renderer "--user-data-dir=C:\Users\me\AppData\Local\Google\Chrome\User Data""#,
        profile
    ));
    assert!(!owned_tree_match(
        r#""C:\Program Files\Google\Chrome\Application\chrome.exe" --type=renderer "--user-data-dir=C:\Users\me\AppData\Local\Temp\winkit-managed-test-42-wk-1a00\session-wk-1a01""#,
        profile
    ));
    assert!(!owned_tree_match(
        r#""C:\Program Files\Google\Chrome\Application\chrome.exe" --type=renderer "--user-data-dir=C:\Users\me\AppData\Local\Temp\winkit-managed-test-42-wk-1a00\session-wk-1a00-extra""#,
        profile
    ));
    assert!(owned_tree_match(
        r#""C:\Program Files\Google\Chrome\Application\chrome.exe" --type=crashpad-handler "--user-data-dir=\\?\C:\users\me\appdata\local\temp\winkit-managed-test-42-wk-1a00\session-wk-1a00" /prefetch:4"#,
        profile
    ));
}

fn heap_sample(mb: u64, offset: u64) -> TrendSample {
    TrendSample {
        offset_ms: offset,
        js_heap_used_bytes: Some(mb * 1024 * 1024),
    }
}

#[test]
fn trend_summary_computes_growth_rate_and_sustained_flag() {
    let samples = vec![
        heap_sample(100, 0),
        heap_sample(110, 2_000),
        heap_sample(125, 4_000),
    ];
    let memory = summarize_trend(&samples, 4_000);
    assert_eq!(memory.start_bytes, Some(100 * 1024 * 1024));
    assert_eq!(memory.end_bytes, Some(125 * 1024 * 1024));
    assert_eq!(memory.delta_bytes, Some(25 * 1024 * 1024));
    assert_eq!(
        memory.growth_rate_bytes_per_second,
        Some(25 * 1024 * 1024 * 1000 / 4_000)
    );
    assert!(memory.sustained_growth);
}

#[test]
fn trend_summary_flat_or_spiky_series_is_not_sustained() {
    let flat = vec![
        heap_sample(100, 0),
        heap_sample(100, 2_000),
        heap_sample(100, 4_000),
    ];
    let memory = summarize_trend(&flat, 4_000);
    assert_eq!(memory.delta_bytes, Some(0));
    assert!(!memory.sustained_growth);

    let spiky = vec![
        heap_sample(100, 0),
        heap_sample(160, 2_000),
        heap_sample(120, 4_000),
    ];
    let memory = summarize_trend(&spiky, 4_000);
    assert!(!memory.sustained_growth);

    let two = vec![heap_sample(100, 0), heap_sample(150, 2_000)];
    let memory = summarize_trend(&two, 2_000);
    assert!(!memory.sustained_growth);
}

#[test]
fn samples_are_spread_over_the_window() {
    assert_eq!(trend_offsets(4_000, 2_000), vec![0, 2_000, 4_000]);
    assert_eq!(trend_offsets(5_000, 2_000), vec![0, 2_000, 4_000, 6_000]);
}

#[test]
fn cleanup_is_refused_outside_the_root() {
    let root = "C:\\winkit-profiles";
    assert!(check_cleanup("C:\\winkit-profiles\\session-1", root, PathStyle::Windows).is_ok());
    let named = check_cleanup("C:\\winkit-profiles\\other", root, PathStyle::Windows).unwrap_err();
    assert!(named.contains("not a WinKit-owned session"));
    let itself = check_cleanup(root, root, PathStyle::Windows).unwrap_err();
    assert!(itself.contains("refusing"));
    let foreign = check_cleanup("C:\\elsewhere\\session-1", root, PathStyle::Windows).unwrap_err();
    assert!(foreign.contains("not strictly contained"));
}

#[test]
fn guards_only_remove_what_they_made() {
    let mut guard = ProfileGuard::new(
        "C:\\w\\session-1".to_string(),
        "C:\\w".to_string(),
        PathStyle::Windows,
    );
    assert!(guard.may_remove());
    guard.disarm();
    assert!(!guard.may_remove());
    let other = ProfileGuard::new(
        "C:\\w\\data".to_string(),
        "C:\\w".to_string(),
        PathStyle::Windows,
    );
    assert!(!other.may_remove());
}

#[test]
fn sessions_have_names_and_directories() {
    assert_eq!(make_session_id(255, 16), "wk-ff-00000010");
    assert_eq!(
        session_profile_dir("C:\\w", "wk-1", PathStyle::Windows),
        "C:\\w\\session-wk-1"
    );
    assert_eq!(session_profile_dir("/w", "wk-1", PathStyle::Unix), "/w/session-wk-1");
    assert!(is_drive_root("C:\\", false));
    assert!(!is_drive_root("C:\\w", true));
}

#[test]
fn hosts_are_compared_without_ports() {
    assert_eq!(
        url_host("http://localhost:3000/a"),
        Some("localhost".to_string())
    );
    assert_eq!(url_host("http://LocalHost/"), Some("localhost".to_string()));
    assert_eq!(url_host("nonsense"), None);
    assert!(hosts_match("127.0.0.1", "localhost"));
    assert!(!hosts_match("example.com", "localhost"));
    assert!(ws_is_loopback("ws://127.0.0.1:9222/devtools"));
    assert!(ws_is_loopback("ws://localhost:9222/devtools"));
    assert!(!ws_is_loopback("ws://10.0.0.1:9222/devtools"));
    assert!(ws_is_loopback("ws://[::1]:9222/devtools/browser/x"));
    assert!(ws_is_loopback("ws://user@localhost:9222/devtools"));
    assert!(!ws_is_loopback("ws://localhost:x@evil.example.com:9222/devtools/browser/x"));
    assert!(!ws_is_loopback("ws://localhost@evil.example.com/devtools"));
    assert!(!ws_is_loopback("ws://evil.example.com?@localhost/devtools"));
    assert!(!ws_is_loopback("ws://[::1]evil.example.com/devtools"));
    assert!(!ws_is_loopback("wss://localhost:9222/devtools"));
    assert!(!sanitize_url("http://h/p?q=1#f").contains("q=1"));
}

#[test]
fn secrets_do_not_survive() {
    assert_eq!(redact_value("key sk-abc123def456 end"), "key sk-<redacted> end");
    assert_eq!(redact_value("nothing here"), "nothing here");
}

#[test]
fn case_counts_where_it_does() {
    let root = "/var/winkit";
    assert!(contained_under("/var/winkit/session-1", root, PathStyle::Unix));
    assert!(!contained_under("/VAR/WinKit/session-1", root, PathStyle::Unix));
    assert!(contained_under("/VAR/WinKit/session-1", root, PathStyle::Windows));
    assert!(check_cleanup("/var/winkit/session-1", root, PathStyle::Unix).is_ok());
    assert!(check_cleanup("/var/WINKIT/session-1", root, PathStyle::Unix)
        .unwrap_err()
        .contains("not strictly contained"));
    assert!(check_cleanup("/var/winkit/other", root, PathStyle::Unix)
        .unwrap_err()
        .contains("not a WinKit-owned session"));
    assert!(is_within("c:/w/session-1", "c:/w"));
    assert!(!is_within("c:/w", "c:/w"));
    assert!(!is_within("c:/w2/session-1", "c:/w"));
    assert!(!is_within("c:/w", ""));
}

#[test]
fn cleaned_output_is_clean_as_a_whole() {
    let long = "x".repeat(500);
    let raw = format!(
        "{long}\r\n\nopen https://h/p?key=1 then sk-def\nsk-a http://h/?q#f\n"
    );
    let clean = sanitize_diag(&raw);
    let lines: Vec<&str> = clean.lines().collect();
    assert_eq!(lines[0].len(), 400);
    assert_eq!(lines[1], "open https://h/p then sk-<redacted>");
    assert_eq!(lines[2], "sk-<redacted> http://h/");
    assert_eq!(lines.len(), 3);
    let many = "y\n".repeat(5000);
    assert_eq!(sanitize_diag(&many).len(), 4096);
}
