use winkit::errors::{ErrorKind, WinkitError};
use winkit::json::Json;
use winkit::tools::diskscan::{
    disk_scan_cancel_handler, disk_scan_find_handler, disk_scan_folder_size_handler,
    disk_scan_handler, disk_scan_largest_files_handler, disk_scan_largest_folders_handler,
    disk_scan_start_handler, disk_scan_status_handler, query_request, scan_request, scan_status,
    start_request, tell, DiskQueryKind, DiskQueryRequest, DiskQueryResult, DiskScanRequest,
    DiskScanner, SnapshotOrigin,
};
use winkit::tools::diagnostics::trend_request;
use winkit::tools::browser;
use winkit::tools::files::{
    check_directory, check_file, decode_text, first_line_start, matches_name, overview,
    path_is_under, plan_find, plan_overview, plan_read, text_slice, window_of, FileFacts, OverviewWalk, ReadMode, TreeStats,
};

fn args(text: &str) -> Json {
    Json::parse(text).unwrap()
}

fn parts(path: &str) -> Vec<String> {
    path.split('\\').map(str::to_string).collect()
}

#[test]
fn reads_are_planned() {
    let plan = plan_read(&args("{\"path\": \" C:\\\\a.log \"}")).unwrap();
    assert_eq!((plan.path.as_str(), plan.mode, plan.max_bytes), ("C:\\a.log", ReadMode::Head, 32768));
    let tail = plan_read(&args("{\"path\": \"a\", \"mode\": \"tail\", \"max_bytes\": 1}")).unwrap();
    assert_eq!((tail.mode.as_str(), tail.max_bytes), ("tail", 64));
    let most = plan_read(&args("{\"path\": \"a\", \"max_bytes\": 9999999}")).unwrap();
    assert_eq!(most.max_bytes, 262_144);
    let odd = plan_read(&args("{\"path\": \"a\", \"mode\": \"middle\"}")).unwrap_err();
    assert_eq!(odd.message, "'mode' must be head, tail, or all (got 'middle')");
    let long = Json::object().with("path", Json::text(&"p".repeat(4097)));
    assert_eq!(plan_read(&long).unwrap_err().kind, ErrorKind::PathRejected);
}

#[test]
fn paths_are_held_to_the_policy() {
    let facts = FileFacts {
        absolute: true,
        resolved: Some(parts("C:\\work\\a.log")),
        regular: true,
    };
    let work = vec![Some(parts("C:\\work"))];
    let other = vec![Some(parts("C:\\other")), None];
    let none = Vec::new();
    assert!(check_file("C:\\work\\a.log", &facts, &none, &none).is_ok());
    assert!(check_file("C:\\work\\a.log", &facts, &work, &other).is_ok());
    let denied = check_file("x", &facts, &work, &work).unwrap_err();
    assert_eq!(denied.message, "file 'x' is under a configured workspaces.deny_roots entry");
    let outside = check_file("x", &facts, &other, &none).unwrap_err();
    assert_eq!(outside.message, "file 'x' is outside the configured workspaces.allow_roots");
    assert_eq!(check_file("  ", &facts, &none, &none).unwrap_err().message, "file path is empty");
    let relative = FileFacts { absolute: false, resolved: None, regular: false };
    assert_eq!(check_file("x", &relative, &none, &none).unwrap_err().kind, ErrorKind::PathRejected);
    let missing = FileFacts { absolute: true, resolved: None, regular: false };
    assert_eq!(check_file("x", &missing, &none, &none).unwrap_err().kind, ErrorKind::NotFound);
    let folder = FileFacts { regular: false, ..facts };
    assert_eq!(check_file("x", &folder, &none, &none).unwrap_err().message, "'x' is not a regular file");
    assert!(!path_is_under(&parts("C:\\work2"), &parts("C:\\work")));
}

#[test]
fn windows_of_files() {
    assert_eq!(window_of(ReadMode::Head, 1000, 100), (0, 100));
    assert_eq!(window_of(ReadMode::Tail, 1000, 100), (900, 100));
    assert_eq!(window_of(ReadMode::Tail, 50, 100), (0, 50));
    assert_eq!(first_line_start(&b"ne\nnext\n".to_vec()), 3);
    assert_eq!(first_line_start(&b"none".to_vec()), 4);
}

#[test]
fn names_match_patterns() {
    for (pattern, name, expected) in [
        ("*.log", "alpha.LOG", true),
        ("*.log", "beta.txt", false),
        ("report??.json", "report01.json", true),
        ("report??.json", "report1.json", false),
        ("*", "", true),
        ("a*b*c", "aXXbYYc", true),
        ("a*b*c", "aXXbYY", false),
        ("", "", true),
        ("", "x", false),
    ] {
        assert_eq!(matches_name(pattern, name), expected, "{pattern} {name}");
    }
}

#[test]
fn searches_are_planned() {
    let plan = plan_find(&args("{\"root\": \"C:\", \"pattern\": \"*.log\"}")).unwrap();
    assert_eq!((plan.max_depth, plan.max_results), (6, 100));
    let most = plan_find(&args("{\"root\": \"C:\", \"pattern\": \"x\", \"max_depth\": 99, \"max_results\": 0}")).unwrap();
    assert_eq!((most.max_depth, most.max_results), (12, 1));
    let path = plan_find(&args("{\"root\": \"C:\", \"pattern\": \"a/b\"}")).unwrap_err();
    assert_eq!(path.kind, ErrorKind::InvalidArgument);
    assert!(plan_find(&args("{\"root\": \"C:\", \"pattern\": \"a\\\\b\"}")).is_err());
    assert_eq!(plan_overview(&args("{\"path\": \" C: \"}")).unwrap(), ("C:".to_string(), 50));
    assert_eq!(plan_overview(&args("{\"path\": \"C:\", \"max_children\": 900}")).unwrap().1, 500);
}

fn stats(path: &str, size_bytes: u64, files: usize) -> TreeStats {
    TreeStats { path: path.to_string(), size_bytes, files, dirs: 0, truncated: false }
}

#[test]
fn overviews_show_the_largest_children() {
    let found = vec![stats("a", 10, 1), stats("b", 30, 2), stats("c", 30, 3), stats("d", 5, 4)];
    let o = overview(found, false, 3);
    let names: Vec<&str> = o.children.iter().map(|s| s.path.as_str()).collect();
    assert_eq!(names, ["b", "c", "a"]);
    assert_eq!((o.total_size_bytes, o.total_files, o.children_shown), (75, 10, 3));
    assert!(o.children_truncated);
}

#[test]
fn each_child_gets_its_own_share() {
    let mut walk = OverviewWalk::new(4);
    assert_eq!(walk.next_budget(), 50_000);
    walk.add_dir(TreeStats { truncated: true, ..stats("b", 20, 2) });
    assert_eq!(walk.next_budget(), 50_000);
    walk.add_file("f".to_string(), 7);
    assert_eq!(walk.next_budget(), 50_000);
    walk.add_dir(stats("a", 10, 1));
    assert_eq!(walk.next_budget(), 50_000);
    let o = walk.finish(50);
    assert_eq!((o.total_size_bytes, o.total_files), (37, 4));
    assert!(o.children_truncated);
    assert_eq!(OverviewWalk::new(0).next_budget(), 200_000);
    assert_eq!(OverviewWalk::new(1_000_000).next_budget(), 2_000);
}

fn origin() -> SnapshotOrigin {
    SnapshotOrigin {
        volume: "D:".to_string(),
        scanner: "walk".to_string(),
        cached: true,
        snapshot_age_ms: None,
    }
}

#[test]
fn disk_questions_and_answers() {
    let scan = scan_request(&args("{\"path\": \"D:\"}")).unwrap();
    assert_eq!((scan.refresh, scan.max_age_ms), (false, 30_000));
    let start = start_request(&args("{\"path\": \"D:\"}")).unwrap();
    assert_eq!((start.refresh, start.max_age_ms), (true, 0));
    assert!(scan_request(&args("{}")).is_err());
    let none: Option<u8> = None;
    assert_eq!(scan_status("s1", none).unwrap_err().message, "no scan with id 's1'");
    let text = "{\"path\": \"D:\", \"limit\": 2, \"pattern\": \"*.zip\", \"extensions\": [\" zip \"]}";
    let find = query_request(DiskQueryKind::FindFiles, &args(text), 200, 77).unwrap();
    assert_eq!((find.limit, find.min_size_bytes), (2, 77));
    assert_eq!(find.pattern.as_deref(), Some("*.zip"));
    assert_eq!(find.extensions, Some(vec!["zip".to_string()]));
    let folders = query_request(DiskQueryKind::TopFolders, &args(text), 200, 77).unwrap();
    assert_eq!((folders.min_size_bytes, folders.pattern, folders.extensions), (0, None, None));
    let rows = vec![Json::UInt(1), Json::UInt(2)];
    let told = tell(DiskQueryKind::TopFiles, 2, DiskQueryResult::TopFiles(rows, origin())).unwrap();
    assert_eq!(
        told.render(),
        "{\"count\":2,\"diagnostics\":{\"cached\":true,\"scanner\":\"walk\",\"snapshot_age_ms\":null,\"volume\":\"D:\"},\"files\":[1,2],\"truncated\":true}"
    );
    let other = DiskQueryResult::FolderSize(Json::Null, origin());
    let wrong = tell(DiskQueryKind::TopFiles, 2, other).err().unwrap();
    assert_eq!(wrong.message, "unexpected query result kind");
}

#[test]
fn browser_requests_have_defaults() {
    let start = browser::start_request(&args("{\"url\": \"http://localhost\"}"), true).unwrap();
    assert!(start.headless && start.reuse_existing);
    assert_eq!(start.wait_for_ready_ms, None);
    let own = browser::start_request(
        &args("{\"url\": \"http://localhost\", \"headless\": false, \"reuse_existing\": false, \"wait_for_ready_ms\": 5}"),
        true,
    )
    .unwrap();
    assert!(!own.headless && !own.reuse_existing);
    assert_eq!(own.wait_for_ready_ms, Some(5));
    assert_eq!(trend_request(&args("{}"), 0).unwrap_err().kind, ErrorKind::InvalidArgument);
    assert_eq!(trend_request(&args("{\"tab_id\": \"t\"}"), 60_000).unwrap().1, 10_000);
    assert_eq!(trend_request(&args("{\"tab_id\": \"t\", \"observe_ms\": 1}"), 60_000).unwrap().1, 2_000);
    assert_eq!(trend_request(&args("{\"tab_id\": \"t\", \"observe_ms\": 99999}"), 60_000).unwrap().1, 60_000);
}

/// A scanner that answers with what it was asked.
struct EchoScanner {
    wrong_kind: bool,
}

impl DiskScanner for EchoScanner {
    fn disk_scan(&self, request: &DiskScanRequest) -> Result<Json, WinkitError> {
        Ok(Json::text(&format!("{} {} {}", request.path, request.refresh, request.max_age_ms)))
    }
    fn disk_scan_start(&self, request: &DiskScanRequest) -> Result<Json, WinkitError> {
        Err(WinkitError::internal(&format!("{} {}", request.path, request.refresh)))
    }
    fn disk_scan_status(&self, scan_id: &str) -> Result<Option<Json>, WinkitError> {
        Ok(if scan_id == "s1" { Some(Json::UInt(1)) } else { None })
    }
    fn disk_scan_cancel(&self, scan_id: &str) -> Result<bool, WinkitError> {
        Ok(scan_id == "s1")
    }
    fn disk_scan_query(&self, request: &DiskQueryRequest) -> Result<DiskQueryResult, WinkitError> {
        let rows = vec![Json::UInt(request.limit as u64), Json::UInt(request.min_size_bytes)];
        if self.wrong_kind {
            return Ok(DiskQueryResult::FindFiles(rows, false, origin()));
        }
        Ok(match request.kind {
            DiskQueryKind::TopFiles => DiskQueryResult::TopFiles(rows, origin()),
            DiskQueryKind::TopFolders => DiskQueryResult::TopFolders(rows, origin()),
            DiskQueryKind::FolderSize => DiskQueryResult::FolderSize(Json::UInt(9), origin()),
            DiskQueryKind::FindFiles => DiskQueryResult::FindFiles(rows, true, origin()),
        })
    }
}

#[test]
fn scans_are_run_and_told() {
    let s = EchoScanner { wrong_kind: false };
    let scan = disk_scan_handler(&s, &args("{\"path\": \"D:\", \"max_age_ms\": 7}")).unwrap();
    assert_eq!(scan.render(), "{\"scan\":\"D: false 7\"}");
    let started = disk_scan_start_handler(&s, &args("{\"path\": \"D:\"}")).err().unwrap();
    assert_eq!(started.message, "D: true");
    let known = args("{\"scan_id\": \"s1\"}");
    let other = args("{\"scan_id\": \"s2\"}");
    assert_eq!(disk_scan_status_handler(&s, &known).unwrap().render(), "{\"status\":1}");
    let missing = disk_scan_status_handler(&s, &other).err().unwrap();
    assert_eq!(missing.kind, ErrorKind::NotFound);
    assert_eq!(missing.message, "no scan with id 's2'");
    assert_eq!(
        disk_scan_cancel_handler(&s, &known).unwrap().render(),
        "{\"cancelled\":true,\"scan_id\":\"s1\"}"
    );
    assert_eq!(
        disk_scan_cancel_handler(&s, &other).unwrap().render(),
        "{\"cancelled\":false,\"scan_id\":\"s2\"}"
    );
    assert!(disk_scan_handler(&s, &args("{}")).is_err());
    assert!(disk_scan_cancel_handler(&s, &args("{}")).is_err());
}

#[test]
fn snapshots_are_asked_and_told() {
    let s = EchoScanner { wrong_kind: false };
    let text = args("{\"path\": \"D:\", \"limit\": 2}");
    let from = "\"diagnostics\":{\"cached\":true,\"scanner\":\"walk\",\"snapshot_age_ms\":null,\"volume\":\"D:\"}";
    let files = disk_scan_largest_files_handler(&s, &text, 200, 5).unwrap();
    assert_eq!(
        files.render(),
        format!("{{\"count\":2,{from},\"files\":[2,5],\"truncated\":true}}")
    );
    let folders = disk_scan_largest_folders_handler(&s, &args("{\"path\": \"D:\"}"), 200).unwrap();
    assert_eq!(
        folders.render(),
        format!("{{\"count\":2,{from},\"folders\":[200,0],\"truncated\":false}}")
    );
    let size = disk_scan_folder_size_handler(&s, &text).unwrap();
    assert_eq!(size.render(), format!("{{{from},\"folder\":9}}"));
    let found = disk_scan_find_handler(&s, &text, 1, 6).unwrap();
    assert_eq!(
        found.render(),
        format!("{{\"count\":2,{from},\"files\":[1,6],\"truncated\":true}}")
    );
    let odd = EchoScanner { wrong_kind: true };
    let wrong = disk_scan_folder_size_handler(&odd, &text).err().unwrap();
    assert_eq!(wrong.kind, ErrorKind::InternalError);
    assert_eq!(wrong.message, "unexpected query result kind");
}

#[test]
fn texts_are_decoded_by_their_marks() {
    let plain = decode_text(&b"h\xC3\xA9".to_vec()).unwrap();
    assert_eq!((plain.0, plain.1.as_str()), ("utf-8", "h\u{e9}"));
    let marked = decode_text(&b"\xEF\xBB\xBFhi".to_vec()).unwrap();
    assert_eq!((marked.0, marked.1.as_str()), ("utf-8", "hi"));
    let low = decode_text(&vec![0xFF, 0xFE, 0x68, 0x00, 0xE9, 0x00, 0x01]).unwrap();
    assert_eq!((low.0, low.1.as_str()), ("utf-16le", "h\u{e9}"));
    let high = decode_text(&vec![0xFE, 0xFF, 0x00, 0x68, 0x20, 0xAC]).unwrap();
    assert_eq!((high.0, high.1.as_str()), ("utf-16be", "h\u{20ac}"));
    let bad = decode_text(&vec![0x41, 0xFF]).unwrap();
    assert_eq!(bad.1, "A\u{fffd}");
    let blob = decode_text(&vec![0x4D, 0x5A, 0x00, 0x90, 0x00, 0x01]).unwrap_err();
    assert_eq!(blob.kind, ErrorKind::InvalidArgument);
    assert!(blob.message.contains("binary"));
    assert_eq!(decode_text(&Vec::new()).unwrap().1, "");
}

#[test]
fn the_end_of_a_file_begins_with_a_whole_line() {
    let bytes = b"rest\nline one\nline two\n".to_vec();
    let tail = text_slice(ReadMode::Tail, 100, 124, &bytes).unwrap();
    assert_eq!(tail.content, "line one\nline two\n");
    assert_eq!((tail.returned_bytes, tail.truncated), (18, true));
    let all = text_slice(ReadMode::Tail, 0, 23, &bytes).unwrap();
    assert_eq!((all.returned_bytes, all.truncated), (23, false));
    let head = text_slice(ReadMode::Head, 0, 50, &bytes).unwrap();
    assert_eq!((head.encoding, head.total_bytes, head.truncated), ("utf-8", 50, true));
}

#[test]
fn directories_are_held_to_the_policy() {
    let facts = FileFacts {
        absolute: true,
        resolved: Some(parts("C:\\files\\a")),
        regular: true,
    };
    let files = vec![Some(parts("C:\\files"))];
    let other = vec![Some(parts("C:\\other"))];
    let none = Vec::new();
    assert!(check_directory("directory", "C:\\files\\a", &facts, &files, &none).is_ok());
    let denied = check_directory("search root", "C:\\files\\a", &facts, &none, &files).unwrap_err();
    assert_eq!(denied.kind, ErrorKind::PathRejected);
    assert_eq!(
        denied.message,
        "search root 'C:\\files\\a' is under a configured workspaces.deny_roots entry"
    );
    let outside = check_directory("directory", "x", &facts, &other, &none).unwrap_err();
    assert_eq!(outside.message, "directory 'x' is outside the configured workspaces.allow_roots");
    assert_eq!(
        check_directory("directory", " ", &facts, &none, &none).unwrap_err().message,
        "directory is empty"
    );
    let flat = FileFacts { regular: false, ..facts };
    assert_eq!(
        check_directory("directory", "x", &flat, &none, &none).unwrap_err().message,
        "directory 'x' is not a directory"
    );
    let missing = FileFacts { absolute: true, resolved: None, regular: false };
    assert_eq!(
        check_directory("directory", "x", &missing, &none, &none).unwrap_err().kind,
        ErrorKind::PathRejected
    );
    let relative = FileFacts { absolute: false, resolved: None, regular: false };
    assert_eq!(
        check_directory("search root", "x", &relative, &none, &none).unwrap_err().message,
        "search root 'x' must be absolute"
    );
}
