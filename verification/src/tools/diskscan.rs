//! Disk-space analysis: what is asked of a volume's snapshot, and how the
//! answers are told.

use crate::chrome::page::{json_opt, opt_int};
use crate::errors::{err_view, ErrorKind, ErrorView, WinkitError};
use crate::json::{json_views, lemma_array_view, Json, JsonView};
use crate::permissions::Capability;
use crate::text::{concat3, opt_view, trimmed};
use crate::tools::args::{
    clamp_limit, item_envelope, limit_for, needed_text, opt_views, optional_bool, optional_string,
    optional_string_array, optional_u64, optional_usize, required_string, trimmed_texts, usize_at,
};
use crate::tools::schema::{input_schema, param_views, schema_view, Param, ParamKind, ParamView};
use crate::tools::toolset::{ToolDefinition, ToolView};
use vstd::prelude::*;
use vstd::string::*;

verus! {

/// How old a snapshot may be where no age is asked for, in milliseconds.
pub const DEFAULT_SNAPSHOT_AGE_MS: u64 = 30_000;

/// A scan of a volume.
#[derive(Debug)]
pub struct DiskScanRequest {
    pub path: String,
    pub refresh: bool,
    pub max_age_ms: u64,
}

/// Is it the scan that the arguments ask for?
pub open spec fn is_scan_request(r: Result<DiskScanRequest, WinkitError>, args: JsonView) -> bool {
    match (needed_text(args, "path"@), r) {
        (Ok(path), Ok(q)) => {
            &&& q.path@ == path
            &&& q.refresh == (args.bool_at("refresh"@) == Some(true))
            &&& q.max_age_ms == (match args.uint_at("max_age_ms"@) {
                Some(n) => n,
                None => DEFAULT_SNAPSHOT_AGE_MS,
            })
        },
        (Err(refusal), Err(e)) => e@ == refusal,
        _ => false,
    }
}

/// The scan that the arguments ask for.
pub fn scan_request(args: &Json) -> (r: Result<DiskScanRequest, WinkitError>)
    ensures
        is_scan_request(r, args@),
{
    match required_string(args, "path") {
        Err(e) => Err(e),
        Ok(path) => Ok(
            DiskScanRequest {
                path,
                refresh: match optional_bool(args, "refresh") {
                    Some(b) => b,
                    None => false,
                },
                max_age_ms: match optional_u64(args, "max_age_ms") {
                    Some(n) => n,
                    None => DEFAULT_SNAPSHOT_AGE_MS,
                },
            },
        ),
    }
}

/// The scan that is started in the background: always a fresh one.
pub fn start_request(args: &Json) -> (r: Result<DiskScanRequest, WinkitError>)
    ensures
        match (needed_text(args@, "path"@), r) {
            (Ok(path), Ok(q)) => q.path@ == path && q.refresh && q.max_age_ms == 0,
            (Err(refusal), Err(e)) => e@ == refusal,
            _ => false,
        },
{
    match required_string(args, "path") {
        Err(e) => Err(e),
        Ok(path) => Ok(DiskScanRequest { path, refresh: true, max_age_ms: 0 }),
    }
}

/// The refusal of an id that no background scan has.
pub open spec fn no_scan(scan_id: Seq<char>) -> ErrorView {
    err_view(ErrorKind::NotFound, "no scan with id '"@ + scan_id + "'"@)
}

/// The status of a background scan, or the refusal where there is none of the
/// id.
pub fn scan_status<T>(scan_id: &str, status: Option<T>) -> (r: Result<T, WinkitError>)
    ensures
        match status {
            Some(s) => r == Ok::<T, WinkitError>(s),
            None => r matches Err(e) && e@ == no_scan(scan_id@),
        },
{
    match status {
        Some(s) => Ok(s),
        None => Err(WinkitError::not_found(&concat3("no scan with id '", scan_id, "'"))),
    }
}

/// What is asked of a snapshot.
#[derive(Debug, Clone, Copy, PartialEq, Eq, Structural)]
pub enum DiskQueryKind {
    TopFiles,
    TopFolders,
    FolderSize,
    FindFiles,
}

/// A question to a snapshot.
#[derive(Debug)]
pub struct DiskQueryRequest {
    pub path: String,
    pub kind: DiskQueryKind,
    pub limit: usize,
    pub min_size_bytes: u64,
    pub extensions: Option<Vec<String>>,
    pub pattern: Option<String>,
}

/// The endings that the arguments ask for.
pub open spec fn wanted_extensions(args: JsonView) -> Option<Seq<Seq<char>>> {
    match args.array_at("extensions"@) {
        Some(items) => if trimmed_texts(items).len() == 0 {
            None
        } else {
            Some(trimmed_texts(items))
        },
        None => None,
    }
}

/// Is it the question that the arguments ask? Files are looked for by size and
/// ending, and by a pattern where they are searched; the least size is given in
/// bytes.
pub open spec fn asks(
    q: DiskQueryRequest,
    kind: DiskQueryKind,
    path: Seq<char>,
    args: JsonView,
    max_results: usize,
    min_size_bytes: u64,
) -> bool {
    let of_files = kind == DiskQueryKind::TopFiles || kind == DiskQueryKind::FindFiles;
    &&& q.path@ == path
    &&& q.kind == kind
    &&& q.limit == (if kind == DiskQueryKind::FolderSize {
        0
    } else {
        limit_for(usize_at(args, "limit"@), max_results)
    })
    &&& q.min_size_bytes == (if of_files {
        min_size_bytes
    } else {
        0
    })
    &&& opt_views(q.extensions) == (if of_files {
        wanted_extensions(args)
    } else {
        None
    })
    &&& opt_view(q.pattern) == (if kind == DiskQueryKind::FindFiles {
        args.text_at("pattern"@)
    } else {
        None
    })
}

/// The question that the arguments ask.
pub fn query_request(
    kind: DiskQueryKind,
    args: &Json,
    max_results: usize,
    min_size_bytes: u64,
) -> (r: Result<DiskQueryRequest, WinkitError>)
    requires
        usize_at(args@, "limit"@) is Some ==> max_results >= 1,
    ensures
        match (needed_text(args@, "path"@), r) {
            (Ok(path), Ok(q)) => asks(q, kind, path, args@, max_results, min_size_bytes),
            (Err(refusal), Err(e)) => e@ == refusal,
            _ => false,
        },
{
    let path = match required_string(args, "path") {
        Ok(p) => p,
        Err(e) => {
            return Err(e);
        },
    };
    let of_files = kind == DiskQueryKind::TopFiles || kind == DiskQueryKind::FindFiles;
    Ok(
        DiskQueryRequest {
            path,
            kind,
            limit: if kind == DiskQueryKind::FolderSize {
                0
            } else {
                clamp_limit(optional_usize(args, "limit"), max_results)
            },
            min_size_bytes: if of_files {
                min_size_bytes
            } else {
                0
            },
            extensions: if of_files {
                optional_string_array(args, "extensions")
            } else {
                None
            },
            pattern: if kind == DiskQueryKind::FindFiles {
                optional_string(args, "pattern")
            } else {
                None
            },
        },
    )
}

/// Where an answer comes from.
#[derive(Debug)]
pub struct SnapshotOrigin {
    pub volume: String,
    pub scanner: String,
    pub cached: bool,
    pub snapshot_age_ms: Option<u64>,
}

/// The answer to a question.
pub enum DiskQueryResult {
    TopFiles(Vec<Json>, SnapshotOrigin),
    TopFolders(Vec<Json>, SnapshotOrigin),
    FolderSize(Json, SnapshotOrigin),
    /// The files, and whether there may be more.
    FindFiles(Vec<Json>, bool, SnapshotOrigin),
}

/// Where an answer comes from, as it is told.
pub open spec fn origin_view(o: SnapshotOrigin) -> JsonView {
    JsonView::object().with("volume"@, JsonView::Text(o.volume@)).with(
        "scanner"@,
        JsonView::Text(o.scanner@),
    ).with("cached"@, JsonView::Bool(o.cached)).with("snapshot_age_ms"@, opt_int(o.snapshot_age_ms))
}

/// Where an answer comes from, as it is told.
pub fn diagnostics_json(o: &SnapshotOrigin) -> (r: Json)
    ensures
        r@ == origin_view(*o),
{
    Json::object().with("volume", Json::text(&o.volume)).with(
        "scanner",
        Json::text(&o.scanner),
    ).with("cached", Json::Bool(o.cached)).with("snapshot_age_ms", json_opt(o.snapshot_age_ms))
}

/// A list of entries, as it is told.
pub open spec fn entries_view(
    key: Seq<char>,
    entries: Seq<Json>,
    truncated: bool,
    o: SnapshotOrigin,
) -> JsonView {
    JsonView::object().with(key, JsonView::Array(json_views(entries))).with(
        "count"@,
        JsonView::Int(entries.len() as int),
    ).with("truncated"@, JsonView::Bool(truncated)).with("diagnostics"@, origin_view(o))
}

fn entries_json(key: &str, entries: Vec<Json>, truncated: bool, o: &SnapshotOrigin) -> (r: Json)
    ensures
        r@ == entries_view(key@, entries@, truncated, *o),
{
    let count: usize = entries.len();
    proof {
        lemma_array_view(entries);
    }
    Json::object().with(key, Json::Array(entries)).with("count", Json::UInt(count as u64)).with(
        "truncated",
        Json::Bool(truncated),
    ).with("diagnostics", diagnostics_json(o))
}

/// What an answer to a question of a kind tells; none where it answers another
/// question.
pub open spec fn told(kind: DiskQueryKind, limit: usize, answer: DiskQueryResult) -> Option<
    JsonView,
> {
    match (kind, answer) {
        (DiskQueryKind::TopFiles, DiskQueryResult::TopFiles(entries, o)) => Some(
            entries_view("files"@, entries@, entries@.len() == limit, o),
        ),
        (DiskQueryKind::TopFolders, DiskQueryResult::TopFolders(entries, o)) => Some(
            entries_view("folders"@, entries@, entries@.len() == limit, o),
        ),
        (DiskQueryKind::FolderSize, DiskQueryResult::FolderSize(folder, o)) => Some(
            JsonView::object().with("folder"@, folder@).with("diagnostics"@, origin_view(o)),
        ),
        (DiskQueryKind::FindFiles, DiskQueryResult::FindFiles(entries, truncated, o)) => Some(
            entries_view("files"@, entries@, truncated, o),
        ),
        _ => None,
    }
}

/// What an answer tells; an answer to another question is an error.
pub fn tell(kind: DiskQueryKind, limit: usize, answer: DiskQueryResult) -> (r: Result<
    Json,
    WinkitError,
>)
    ensures
        match (told(kind, limit, answer), r) {
            (Some(v), Ok(j)) => j@ == v,
            (None, Err(e)) => e@ == err_view(
                ErrorKind::InternalError,
                "unexpected query result kind"@,
            ),
            _ => false,
        },
{
    match (kind, answer) {
        (DiskQueryKind::TopFiles, DiskQueryResult::TopFiles(entries, o)) => {
            let full = entries.len() == limit;
            Ok(entries_json("files", entries, full, &o))
        },
        (DiskQueryKind::TopFolders, DiskQueryResult::TopFolders(entries, o)) => {
            let full = entries.len() == limit;
            Ok(entries_json("folders", entries, full, &o))
        },
        (DiskQueryKind::FolderSize, DiskQueryResult::FolderSize(folder, o)) => Ok(
            Json::object().with("folder", folder).with("diagnostics", diagnostics_json(&o)),
        ),
        (DiskQueryKind::FindFiles, DiskQueryResult::FindFiles(entries, truncated, o)) => Ok(
            entries_json("files", entries, truncated, &o),
        ),
        _ => Err(WinkitError::internal("unexpected query result kind")),
    }
}

/// What scans volumes and answers questions about them. Nothing is promised of
/// an answer.
pub trait DiskScanner {
    /// Scans a volume, or serves its snapshot.
    fn disk_scan(&self, request: &DiskScanRequest) -> Result<Json, WinkitError>;

    /// Starts a scan in the background.
    fn disk_scan_start(&self, request: &DiskScanRequest) -> Result<Json, WinkitError>;

    /// The status of a background scan.
    fn disk_scan_status(&self, scan_id: &str) -> Result<Option<Json>, WinkitError>;

    /// Cancels a background scan; was there one to cancel?
    fn disk_scan_cancel(&self, scan_id: &str) -> Result<bool, WinkitError>;

    /// Answers a question from the snapshot.
    fn disk_scan_query(&self, request: &DiskQueryRequest) -> Result<DiskQueryResult, WinkitError>;
}

/// Scans the volume that the arguments name.
pub fn disk_scan_handler<S: DiskScanner>(scanner: &S, args: &Json) -> (r: Result<Json, WinkitError>)
    ensures
        match needed_text(args@, "path"@) {
            Err(refusal) => r matches Err(e) && e@ == refusal,
            Ok(_) => exists|q: DiskScanRequest, answer: Result<Json, WinkitError>|
                is_scan_request(Ok(q), args@) && #[trigger] call_ensures(
                    S::disk_scan,
                    (scanner, &q),
                    answer,
                ) && (match answer {
                    Ok(v) => r matches Ok(j) && j@ == JsonView::object().with("scan"@, v@),
                    Err(e) => r == Err::<Json, WinkitError>(e),
                }),
        },
{
    match scan_request(args) {
        Err(e) => Err(e),
        Ok(q) => match scanner.disk_scan(&q) {
            Ok(v) => Ok(item_envelope("scan", v)),
            Err(e) => Err(e),
        },
    }
}

/// Starts a scan of the volume that the arguments name.
pub fn disk_scan_start_handler<S: DiskScanner>(scanner: &S, args: &Json) -> (r: Result<
    Json,
    WinkitError,
>)
    ensures
        match needed_text(args@, "path"@) {
            Err(refusal) => r matches Err(e) && e@ == refusal,
            Ok(path) => exists|q: DiskScanRequest, answer: Result<Json, WinkitError>|
                q.path@ == path && q.refresh && q.max_age_ms == 0 && #[trigger] call_ensures(
                    S::disk_scan_start,
                    (scanner, &q),
                    answer,
                ) && (match answer {
                    Ok(v) => r matches Ok(j) && j@ == JsonView::object().with("status"@, v@),
                    Err(e) => r == Err::<Json, WinkitError>(e),
                }),
        },
{
    match start_request(args) {
        Err(e) => Err(e),
        Ok(q) => match scanner.disk_scan_start(&q) {
            Ok(v) => Ok(item_envelope("status", v)),
            Err(e) => Err(e),
        },
    }
}

/// The status of the background scan that the arguments name.
pub fn disk_scan_status_handler<S: DiskScanner>(scanner: &S, args: &Json) -> (r: Result<
    Json,
    WinkitError,
>)
    ensures
        match needed_text(args@, "scan_id"@) {
            Err(refusal) => r matches Err(e) && e@ == refusal,
            Ok(id) => exists|asked: &str, answer: Result<Option<Json>, WinkitError>|
                asked@ == id && #[trigger] call_ensures(
                    S::disk_scan_status,
                    (scanner, asked),
                    answer,
                ) && (match answer {
                    Ok(Some(v)) => r matches Ok(j) && j@ == JsonView::object().with("status"@, v@),
                    Ok(None) => r matches Err(e) && e@ == no_scan(id),
                    Err(e) => r == Err::<Json, WinkitError>(e),
                }),
        },
{
    let id = match required_string(args, "scan_id") {
        Ok(id) => id,
        Err(e) => {
            return Err(e);
        },
    };
    match scanner.disk_scan_status(id.as_str()) {
        Err(e) => Err(e),
        Ok(found) => match scan_status(&id, found) {
            Ok(v) => Ok(item_envelope("status", v)),
            Err(e) => Err(e),
        },
    }
}

/// Cancels the background scan that the arguments name.
pub fn disk_scan_cancel_handler<S: DiskScanner>(scanner: &S, args: &Json) -> (r: Result<
    Json,
    WinkitError,
>)
    ensures
        match needed_text(args@, "scan_id"@) {
            Err(refusal) => r matches Err(e) && e@ == refusal,
            Ok(id) => exists|asked: &str, answer: Result<bool, WinkitError>|
                asked@ == id && #[trigger] call_ensures(
                    S::disk_scan_cancel,
                    (scanner, asked),
                    answer,
                ) && (match answer {
                    Ok(b) => r matches Ok(j) && j@ == JsonView::object().with(
                        "cancelled"@,
                        JsonView::Bool(b),
                    ).with("scan_id"@, JsonView::Text(id)),
                    Err(e) => r == Err::<Json, WinkitError>(e),
                }),
        },
{
    let id = match required_string(args, "scan_id") {
        Ok(id) => id,
        Err(e) => {
            return Err(e);
        },
    };
    match scanner.disk_scan_cancel(id.as_str()) {
        Ok(b) => Ok(
            Json::object().with("cancelled", Json::Bool(b)).with("scan_id", Json::text(&id)),
        ),
        Err(e) => Err(e),
    }
}

/// Is `r` the answer to a question of this kind: a refusal where no path is
/// given, and else what the scanner's answer tells, or its error?
pub open spec fn answers_query<S: DiskScanner>(
    r: Result<Json, WinkitError>,
    scanner: &S,
    kind: DiskQueryKind,
    args: JsonView,
    max_results: usize,
    min_size_bytes: u64,
) -> bool {
    match needed_text(args, "path"@) {
        Err(refusal) => r matches Err(e) && e@ == refusal,
        Ok(path) => exists|q: DiskQueryRequest, answer: Result<DiskQueryResult, WinkitError>|
            asks(q, kind, path, args, max_results, min_size_bytes) && #[trigger] call_ensures(
                S::disk_scan_query,
                (scanner, &q),
                answer,
            ) && (match answer {
                Err(e) => r == Err::<Json, WinkitError>(e),
                Ok(a) => match (told(kind, q.limit, a), r) {
                    (Some(v), Ok(j)) => j@ == v,
                    (None, Err(e)) => e@ == err_view(
                        ErrorKind::InternalError,
                        "unexpected query result kind"@,
                    ),
                    _ => false,
                },
            }),
    }
}

fn run_query<S: DiskScanner>(
    scanner: &S,
    kind: DiskQueryKind,
    args: &Json,
    max_results: usize,
    min_size_bytes: u64,
) -> (r: Result<Json, WinkitError>)
    requires
        usize_at(args@, "limit"@) is Some ==> max_results >= 1,
    ensures
        answers_query(r, scanner, kind, args@, max_results, min_size_bytes),
{
    match query_request(kind, args, max_results, min_size_bytes) {
        Err(e) => Err(e),
        Ok(q) => {
            match scanner.disk_scan_query(&q) {
                Ok(a) => tell(kind, q.limit, a),
                Err(e) => Err(e),
            }
        },
    }
}

/// The largest files on a volume or below a directory; the least size is given
/// in bytes.
pub fn disk_scan_largest_files_handler<S: DiskScanner>(
    scanner: &S,
    args: &Json,
    max_results: usize,
    min_size_bytes: u64,
) -> (r: Result<Json, WinkitError>)
    requires
        usize_at(args@, "limit"@) is Some ==> max_results >= 1,
    ensures
        answers_query(
            r,
            scanner,
            DiskQueryKind::TopFiles,
            args@,
            max_results,
            min_size_bytes,
        ),
{
    run_query(scanner, DiskQueryKind::TopFiles, args, max_results, min_size_bytes)
}

/// The largest directories on a volume or below a directory.
pub fn disk_scan_largest_folders_handler<S: DiskScanner>(
    scanner: &S,
    args: &Json,
    max_results: usize,
) -> (r: Result<Json, WinkitError>)
    requires
        usize_at(args@, "limit"@) is Some ==> max_results >= 1,
    ensures
        answers_query(r, scanner, DiskQueryKind::TopFolders, args@, max_results, 0),
{
    run_query(scanner, DiskQueryKind::TopFolders, args, max_results, 0)
}

/// The size of a directory.
pub fn disk_scan_folder_size_handler<S: DiskScanner>(scanner: &S, args: &Json) -> (r: Result<
    Json,
    WinkitError,
>)
    ensures
        answers_query(r, scanner, DiskQueryKind::FolderSize, args@, 1, 0),
{
    run_query(scanner, DiskQueryKind::FolderSize, args, 1, 0)
}

/// The files that a search finds; the least size is given in bytes.
pub fn disk_scan_find_handler<S: DiskScanner>(
    scanner: &S,
    args: &Json,
    max_results: usize,
    min_size_bytes: u64,
) -> (r: Result<Json, WinkitError>)
    requires
        usize_at(args@, "limit"@) is Some ==> max_results >= 1,
    ensures
        answers_query(
            r,
            scanner,
            DiskQueryKind::FindFiles,
            args@,
            max_results,
            min_size_bytes,
        ),
{
    run_query(scanner, DiskQueryKind::FindFiles, args, max_results, min_size_bytes)
}

/// What the tool `disk_scan` does, in words.
pub const DISK_SCAN_ABOUT: &'static str = "Scan the volume containing a path and return a compact storage summary: capacity, indexed counts, largest files, and largest folders. Uses a fast NTFS MFT metadata scan when possible; when the fast path is unavailable (e.g. volume access denied without an elevated token) it falls back to a recursive scan of the requested directory and reports scanner='recursive_fallback' with the reason in fast_path_unavailable. Results are cached per scope, so repeated calls are instant. Use refresh=true to force a rescan.";

/// The parameters of the tool `disk_scan`.
pub open spec fn disk_scan_params() -> Seq<ParamView> {
    seq![
        ParamView::new("path"@, ParamKind::Text)
            .about("Any path on the volume to analyze, e.g. 'D:', 'D:\\', or 'D:\\Games'."@)
            .needed(),
        ParamView::new("refresh"@, ParamKind::Boolean)
            .about("Force a fresh scan even when a cached snapshot is available (default false)."@),
        ParamView::new("max_age_ms"@, ParamKind::Number)
            .about("Serve a cached snapshot younger than this many ms without rescanning (default 30000)."@),
    ]
}

/// The tool `disk_scan`.
pub open spec fn disk_scan_tool() -> ToolView {
    ToolView {
        name: "disk_scan"@,
        description: DISK_SCAN_ABOUT@,
        input_schema: schema_view(disk_scan_params()),
        capability: Some(Capability::StorageRead),
        timeout_ms: None,
    }
}

/// The tool `disk_scan`.
pub fn disk_scan_definition() -> (r: ToolDefinition)
    ensures
        r@ == disk_scan_tool(),
{
    let params: Vec<Param> = vec![
        Param::new("path", ParamKind::Text)
            .about("Any path on the volume to analyze, e.g. 'D:', 'D:\\', or 'D:\\Games'.")
            .needed(),
        Param::new("refresh", ParamKind::Boolean)
            .about("Force a fresh scan even when a cached snapshot is available (default false)."),
        Param::new("max_age_ms", ParamKind::Number)
            .about("Serve a cached snapshot younger than this many ms without rescanning (default 30000)."),
    ];
    assert(param_views(params@) =~= disk_scan_params());
    ToolDefinition {
        name: "disk_scan",
        description: DISK_SCAN_ABOUT,
        input_schema: input_schema(&params),
        capability: Some(Capability::StorageRead),
        timeout_ms: None,
    }
}

/// What the tool `disk_scan_start` does, in words.
pub const DISK_SCAN_START_ABOUT: &'static str = "Start a background scan of the volume containing a path. Returns a scan_id and status; poll with disk_scan_status. The scan does not block other MCP tools.";

/// The parameters of the tool `disk_scan_start`.
pub open spec fn disk_scan_start_params() -> Seq<ParamView> {
    seq![
        ParamView::new("path"@, ParamKind::Text)
            .about("Any path on the volume to analyze, e.g. 'D:'."@)
            .needed(),
    ]
}

/// The tool `disk_scan_start`.
pub open spec fn disk_scan_start_tool() -> ToolView {
    ToolView {
        name: "disk_scan_start"@,
        description: DISK_SCAN_START_ABOUT@,
        input_schema: schema_view(disk_scan_start_params()),
        capability: Some(Capability::StorageRead),
        timeout_ms: None,
    }
}

/// The tool `disk_scan_start`.
pub fn disk_scan_start_definition() -> (r: ToolDefinition)
    ensures
        r@ == disk_scan_start_tool(),
{
    let params: Vec<Param> = vec![
        Param::new("path", ParamKind::Text)
            .about("Any path on the volume to analyze, e.g. 'D:'.")
            .needed(),
    ];
    assert(param_views(params@) =~= disk_scan_start_params());
    ToolDefinition {
        name: "disk_scan_start",
        description: DISK_SCAN_START_ABOUT,
        input_schema: input_schema(&params),
        capability: Some(Capability::StorageRead),
        timeout_ms: None,
    }
}

/// What the tool `disk_scan_status` does, in words.
pub const DISK_SCAN_STATUS_ABOUT: &'static str = "Poll a background disk scan by scan_id. When the scan completes, the result includes the full storage summary.";

/// The parameters of the tool `disk_scan_status`.
pub open spec fn disk_scan_status_params() -> Seq<ParamView> {
    seq![
        ParamView::new("scan_id"@, ParamKind::Text)
            .about("The scan_id returned by disk_scan_start."@)
            .needed(),
    ]
}

/// The tool `disk_scan_status`.
pub open spec fn disk_scan_status_tool() -> ToolView {
    ToolView {
        name: "disk_scan_status"@,
        description: DISK_SCAN_STATUS_ABOUT@,
        input_schema: schema_view(disk_scan_status_params()),
        capability: Some(Capability::StorageRead),
        timeout_ms: None,
    }
}

/// The tool `disk_scan_status`.
pub fn disk_scan_status_definition() -> (r: ToolDefinition)
    ensures
        r@ == disk_scan_status_tool(),
{
    let params: Vec<Param> = vec![
        Param::new("scan_id", ParamKind::Text)
            .about("The scan_id returned by disk_scan_start.")
            .needed(),
    ];
    assert(param_views(params@) =~= disk_scan_status_params());
    ToolDefinition {
        name: "disk_scan_status",
        description: DISK_SCAN_STATUS_ABOUT,
        input_schema: input_schema(&params),
        capability: Some(Capability::StorageRead),
        timeout_ms: None,
    }
}

/// What the tool `disk_scan_cancel` does, in words.
pub const DISK_SCAN_CANCEL_ABOUT: &'static str = "Cancel a running background disk scan by scan_id. The scan stops at the next checkpoint; partial results are discarded.";

/// The parameters of the tool `disk_scan_cancel`.
pub open spec fn disk_scan_cancel_params() -> Seq<ParamView> {
    seq![
        ParamView::new("scan_id"@, ParamKind::Text)
            .about("The scan_id returned by disk_scan_start."@)
            .needed(),
    ]
}

/// The tool `disk_scan_cancel`.
pub open spec fn disk_scan_cancel_tool() -> ToolView {
    ToolView {
        name: "disk_scan_cancel"@,
        description: DISK_SCAN_CANCEL_ABOUT@,
        input_schema: schema_view(disk_scan_cancel_params()),
        capability: Some(Capability::StorageRead),
        timeout_ms: None,
    }
}

/// The tool `disk_scan_cancel`.
pub fn disk_scan_cancel_definition() -> (r: ToolDefinition)
    ensures
        r@ == disk_scan_cancel_tool(),
{
    let params: Vec<Param> = vec![
        Param::new("scan_id", ParamKind::Text)
            .about("The scan_id returned by disk_scan_start.")
            .needed(),
    ];
    assert(param_views(params@) =~= disk_scan_cancel_params());
    ToolDefinition {
        name: "disk_scan_cancel",
        description: DISK_SCAN_CANCEL_ABOUT,
        input_schema: input_schema(&params),
        capability: Some(Capability::StorageRead),
        timeout_ms: None,
    }
}

/// What the tool `disk_scan_largest_files` does, in words.
pub const DISK_SCAN_LARGEST_FILES_ABOUT: &'static str = "Largest files on the volume containing a path, or under that path when it is a directory. Answered from the cached snapshot in milliseconds (a scan happens automatically on first use).";

/// The parameters of the tool `disk_scan_largest_files`.
pub open spec fn disk_scan_largest_files_params() -> Seq<ParamView> {
    seq![
        ParamView::new("path"@, ParamKind::Text)
            .about("A path on the volume (e.g. 'D:') or a subtree root (e.g. 'D:\\Games')."@)
            .needed(),
        ParamView::new("limit"@, ParamKind::Integer)
            .at_least(1)
            .about("Maximum results (default: configured limit)."@),
        ParamView::new("min_size_mb"@, ParamKind::Number)
            .at_least(0)
            .about("Only files at least this large, in MB (default 0)."@),
        ParamView::new("extensions"@, ParamKind::TextList)
            .about("Optional extension filter, e.g. [\"zip\", \"iso\"]."@),
    ]
}

/// The tool `disk_scan_largest_files`.
pub open spec fn disk_scan_largest_files_tool() -> ToolView {
    ToolView {
        name: "disk_scan_largest_files"@,
        description: DISK_SCAN_LARGEST_FILES_ABOUT@,
        input_schema: schema_view(disk_scan_largest_files_params()),
        capability: Some(Capability::StorageRead),
        timeout_ms: None,
    }
}

/// The tool `disk_scan_largest_files`.
pub fn disk_scan_largest_files_definition() -> (r: ToolDefinition)
    ensures
        r@ == disk_scan_largest_files_tool(),
{
    let params: Vec<Param> = vec![
        Param::new("path", ParamKind::Text)
            .about("A path on the volume (e.g. 'D:') or a subtree root (e.g. 'D:\\Games').")
            .needed(),
        Param::new("limit", ParamKind::Integer)
            .at_least(1)
            .about("Maximum results (default: configured limit)."),
        Param::new("min_size_mb", ParamKind::Number)
            .at_least(0)
            .about("Only files at least this large, in MB (default 0)."),
        Param::new("extensions", ParamKind::TextList)
            .about("Optional extension filter, e.g. [\"zip\", \"iso\"]."),
    ];
    assert(param_views(params@) =~= disk_scan_largest_files_params());
    ToolDefinition {
        name: "disk_scan_largest_files",
        description: DISK_SCAN_LARGEST_FILES_ABOUT,
        input_schema: input_schema(&params),
        capability: Some(Capability::StorageRead),
        timeout_ms: None,
    }
}

/// What the tool `disk_scan_largest_folders` does, in words.
pub const DISK_SCAN_LARGEST_FOLDERS_ABOUT: &'static str = "Largest directories on the volume containing a path, or under that path when it is a directory. Sizes are aggregate descendant-file sizes. Answered from the cached snapshot.";

/// The parameters of the tool `disk_scan_largest_folders`.
pub open spec fn disk_scan_largest_folders_params() -> Seq<ParamView> {
    seq![
        ParamView::new("path"@, ParamKind::Text)
            .about("A path on the volume (e.g. 'D:') or a subtree root (e.g. 'D:\\Games')."@)
            .needed(),
        ParamView::new("limit"@, ParamKind::Integer)
            .at_least(1)
            .about("Maximum results (default: configured limit)."@),
    ]
}

/// The tool `disk_scan_largest_folders`.
pub open spec fn disk_scan_largest_folders_tool() -> ToolView {
    ToolView {
        name: "disk_scan_largest_folders"@,
        description: DISK_SCAN_LARGEST_FOLDERS_ABOUT@,
        input_schema: schema_view(disk_scan_largest_folders_params()),
        capability: Some(Capability::StorageRead),
        timeout_ms: None,
    }
}

/// The tool `disk_scan_largest_folders`.
pub fn disk_scan_largest_folders_definition() -> (r: ToolDefinition)
    ensures
        r@ == disk_scan_largest_folders_tool(),
{
    let params: Vec<Param> = vec![
        Param::new("path", ParamKind::Text)
            .about("A path on the volume (e.g. 'D:') or a subtree root (e.g. 'D:\\Games').")
            .needed(),
        Param::new("limit", ParamKind::Integer)
            .at_least(1)
            .about("Maximum results (default: configured limit)."),
    ];
    assert(param_views(params@) =~= disk_scan_largest_folders_params());
    ToolDefinition {
        name: "disk_scan_largest_folders",
        description: DISK_SCAN_LARGEST_FOLDERS_ABOUT,
        input_schema: input_schema(&params),
        capability: Some(Capability::StorageRead),
        timeout_ms: None,
    }
}

/// What the tool `disk_scan_folder_size` does, in words.
pub const DISK_SCAN_FOLDER_SIZE_ABOUT: &'static str = "Aggregate size of a directory (sum of descendant file sizes), answered from the cached snapshot without rescanning.";

/// The parameters of the tool `disk_scan_folder_size`.
pub open spec fn disk_scan_folder_size_params() -> Seq<ParamView> {
    seq![
        ParamView::new("path"@, ParamKind::Text)
            .about("The directory to measure, e.g. 'D:\\Games'."@)
            .needed(),
    ]
}

/// The tool `disk_scan_folder_size`.
pub open spec fn disk_scan_folder_size_tool() -> ToolView {
    ToolView {
        name: "disk_scan_folder_size"@,
        description: DISK_SCAN_FOLDER_SIZE_ABOUT@,
        input_schema: schema_view(disk_scan_folder_size_params()),
        capability: Some(Capability::StorageRead),
        timeout_ms: None,
    }
}

/// The tool `disk_scan_folder_size`.
pub fn disk_scan_folder_size_definition() -> (r: ToolDefinition)
    ensures
        r@ == disk_scan_folder_size_tool(),
{
    let params: Vec<Param> = vec![
        Param::new("path", ParamKind::Text)
            .about("The directory to measure, e.g. 'D:\\Games'.")
            .needed(),
    ];
    assert(param_views(params@) =~= disk_scan_folder_size_params());
    ToolDefinition {
        name: "disk_scan_folder_size",
        description: DISK_SCAN_FOLDER_SIZE_ABOUT,
        input_schema: input_schema(&params),
        capability: Some(Capability::StorageRead),
        timeout_ms: None,
    }
}

/// What the tool `disk_scan_find` does, in words.
pub const DISK_SCAN_FIND_ABOUT: &'static str = "Find files under a path matching a name pattern ('*' and '?' wildcards, or a substring), an extension filter, and a minimum size. Answered from the cached snapshot; full paths are only built for matches.";

/// The parameters of the tool `disk_scan_find`.
pub open spec fn disk_scan_find_params() -> Seq<ParamView> {
    seq![
        ParamView::new("path"@, ParamKind::Text)
            .about("Directory to search under, e.g. 'D:\\Projects'."@)
            .needed(),
        ParamView::new("pattern"@, ParamKind::Text)
            .about("Name pattern: '*.zip', '?ata*', or a plain substring."@),
        ParamView::new("extensions"@, ParamKind::TextList).about("Optional extension filter."@),
        ParamView::new("min_size_mb"@, ParamKind::Number)
            .at_least(0)
            .about("Only files at least this large, in MB (default 0)."@),
        ParamView::new("limit"@, ParamKind::Integer)
            .at_least(1)
            .about("Maximum results (default: configured limit)."@),
    ]
}

/// The tool `disk_scan_find`.
pub open spec fn disk_scan_find_tool() -> ToolView {
    ToolView {
        name: "disk_scan_find"@,
        description: DISK_SCAN_FIND_ABOUT@,
        input_schema: schema_view(disk_scan_find_params()),
        capability: Some(Capability::StorageRead),
        timeout_ms: None,
    }
}

/// The tool `disk_scan_find`.
pub fn disk_scan_find_definition() -> (r: ToolDefinition)
    ensures
        r@ == disk_scan_find_tool(),
{
    let params: Vec<Param> = vec![
        Param::new("path", ParamKind::Text)
            .about("Directory to search under, e.g. 'D:\\Projects'.")
            .needed(),
        Param::new("pattern", ParamKind::Text)
            .about("Name pattern: '*.zip', '?ata*', or a plain substring."),
        Param::new("extensions", ParamKind::TextList).about("Optional extension filter."),
        Param::new("min_size_mb", ParamKind::Number)
            .at_least(0)
            .about("Only files at least this large, in MB (default 0)."),
        Param::new("limit", ParamKind::Integer)
            .at_least(1)
            .about("Maximum results (default: configured limit)."),
    ];
    assert(param_views(params@) =~= disk_scan_find_params());
    ToolDefinition {
        name: "disk_scan_find",
        description: DISK_SCAN_FIND_ABOUT,
        input_schema: input_schema(&params),
        capability: Some(Capability::StorageRead),
        timeout_ms: None,
    }
}

/// A scan is asked for of the path in the arguments; a snapshot serves it that is no
/// older than asked, half a minute where nothing is, unless a fresh one is wanted. A
/// scan in the background is always a fresh one.
pub proof fn law_scans_are_as_asked(
    args: Json,
    r: Result<DiskScanRequest, WinkitError>,
    s: Result<DiskScanRequest, WinkitError>,
)
    requires
        call_ensures(scan_request, (&args,), r),
        call_ensures(start_request, (&args,), s),
    ensures
        r is Ok <==> args@.text_at("path"@) is Some && trimmed(args@.text_at("path"@)->0).len() > 0,
        s is Ok <==> r is Ok,
        r matches Err(e) ==> e.kind == ErrorKind::InvalidArgument,
        r matches Ok(q) ==> {
            &&& q.path@ == trimmed(args@.text_at("path"@)->0)
            &&& args@.bool_at("refresh"@) matches Some(b) ==> q.refresh == b
            &&& args@.bool_at("refresh"@) is None ==> !q.refresh
            &&& args@.uint_at("max_age_ms"@) matches Some(n) ==> q.max_age_ms == n
            &&& args@.uint_at("max_age_ms"@) is None ==> q.max_age_ms == 30000
        },
        s matches Ok(q) ==> q.path@ == trimmed(args@.text_at("path"@)->0) && q.refresh
            && q.max_age_ms == 0,
{
}

/// A question is of the kind that was asked, about the path in the arguments, and for
/// no more results than allowed. Size and endings matter for files only, and a pattern
/// for the search only.
pub proof fn law_questions_are_as_asked(
    kind: DiskQueryKind,
    args: Json,
    max_results: usize,
    min_size_bytes: u64,
    r: Result<DiskQueryRequest, WinkitError>,
)
    requires
        max_results >= 1,
        call_ensures(query_request, (kind, &args, max_results, min_size_bytes), r),
    ensures
        r is Ok <==> args@.text_at("path"@) is Some && trimmed(args@.text_at("path"@)->0).len() > 0,
        r matches Ok(q) ==> {
            &&& q.path@ == trimmed(args@.text_at("path"@)->0)
            &&& q.kind == kind
            &&& kind == DiskQueryKind::FolderSize ==> q.limit == 0
            &&& kind != DiskQueryKind::FolderSize ==> 1 <= q.limit <= max_results
            &&& kind != DiskQueryKind::FolderSize && usize_at(args@, "limit"@) is None ==> q.limit
                == max_results
            &&& kind != DiskQueryKind::FolderSize && usize_at(args@, "limit"@) is Some && 1
                <= usize_at(args@, "limit"@)->0 <= max_results ==> q.limit == usize_at(
                args@,
                "limit"@,
            )->0
            &&& kind == DiskQueryKind::TopFiles || kind == DiskQueryKind::FindFiles
                ==> q.min_size_bytes == min_size_bytes
            &&& kind == DiskQueryKind::TopFolders || kind == DiskQueryKind::FolderSize
                ==> q.min_size_bytes == 0 && q.extensions is None
            &&& kind == DiskQueryKind::FindFiles ==> opt_view(q.pattern) == args@.text_at(
                "pattern"@,
            )
            &&& kind != DiskQueryKind::FindFiles ==> q.pattern is None
        },
{
}

/// An answer to the question that was asked is told with all its entries, their number
/// and where it comes from; an answer to another question is an error.
pub proof fn law_answers_are_told(
    kind: DiskQueryKind,
    limit: usize,
    answer: DiskQueryResult,
    r: Result<Json, WinkitError>,
)
    requires
        call_ensures(tell, (kind, limit, answer), r),
    ensures
        r is Ok <==> match answer {
            DiskQueryResult::TopFiles(_, _) => kind == DiskQueryKind::TopFiles,
            DiskQueryResult::TopFolders(_, _) => kind == DiskQueryKind::TopFolders,
            DiskQueryResult::FolderSize(_, _) => kind == DiskQueryKind::FolderSize,
            DiskQueryResult::FindFiles(_, _, _) => kind == DiskQueryKind::FindFiles,
        },
        r matches Err(e) ==> e.kind == ErrorKind::InternalError,
        r matches Ok(j) ==> match answer {
            DiskQueryResult::TopFiles(v, o) => {
                &&& j@.array_at("files"@) == Some(json_views(v@))
                &&& j@.uint_at("count"@) == Some(v@.len() as u64)
                &&& j@.bool_at("truncated"@) == Some(v@.len() == limit)
                &&& tells_origin(j@, o)
            },
            DiskQueryResult::TopFolders(v, o) => {
                &&& j@.array_at("folders"@) == Some(json_views(v@))
                &&& j@.uint_at("count"@) == Some(v@.len() as u64)
                &&& j@.bool_at("truncated"@) == Some(v@.len() == limit)
                &&& tells_origin(j@, o)
            },
            DiskQueryResult::FolderSize(v, o) => j@.get("folder"@) == Some(v@) && tells_origin(
                j@,
                o,
            ),
            DiskQueryResult::FindFiles(v, more, o) => {
                &&& j@.array_at("files"@) == Some(json_views(v@))
                &&& j@.uint_at("count"@) == Some(v@.len() as u64)
                &&& j@.bool_at("truncated"@) == Some(more)
                &&& tells_origin(j@, o)
            },
        },
{
    reveal_strlit("files");
    assert("files"@.len() == 5);
    reveal_strlit("folders");
    assert("folders"@.len() == 7);
    reveal_strlit("folder");
    assert("folder"@.len() == 6);
    reveal_strlit("count");
    assert("count"@.len() == 5);
    reveal_strlit("truncated");
    assert("truncated"@.len() == 9);
    reveal_strlit("diagnostics");
    assert("diagnostics"@.len() == 11);
    reveal_strlit("volume");
    assert("volume"@.len() == 6);
    reveal_strlit("scanner");
    assert("scanner"@.len() == 7);
    reveal_strlit("cached");
    assert("cached"@.len() == 6);
    reveal_strlit("snapshot_age_ms");
    assert("snapshot_age_ms"@.len() == 15);
    assert("files"@[0] != "count"@[0]);
    assert("folders"@[0] != "scanner"@[0]);
    assert("folder"@[0] != "volume"@[0]);
    assert("folder"@[0] != "cached"@[0]);
    assert("volume"@[0] != "cached"@[0]);
    match answer {
        DiskQueryResult::TopFiles(v, _) => {
            assert(v@.len() == v.len());
        },
        DiskQueryResult::TopFolders(v, _) => {
            assert(v@.len() == v.len());
        },
        DiskQueryResult::FindFiles(v, _, _) => {
            assert(v@.len() == v.len());
        },
        _ => {},
    }
}

/// Does the value say where it comes from?
pub open spec fn tells_origin(j: JsonView, o: SnapshotOrigin) -> bool {
    &&& j.get("diagnostics"@) matches Some(d)
    &&& d.text_at("volume"@) == Some(o.volume@)
    &&& d.text_at("scanner"@) == Some(o.scanner@)
    &&& d.bool_at("cached"@) == Some(o.cached)
    &&& d.uint_at("snapshot_age_ms"@) == o.snapshot_age_ms
}

/// A scan is cancelled by its id, and whether there was one to cancel is told.
pub proof fn law_scans_are_cancelled_by_id<S: DiskScanner>(
    scanner: S,
    args: Json,
    r: Result<Json, WinkitError>,
)
    requires
        call_ensures(disk_scan_cancel_handler::<S>, (&scanner, &args), r),
        args@.text_at("scan_id"@) is Some,
        trimmed(args@.text_at("scan_id"@)->0).len() > 0,
    ensures
        exists|asked: &str, answer: Result<bool, WinkitError>|
            {
                &&& asked@ == trimmed(args@.text_at("scan_id"@)->0)
                &&& #[trigger] call_ensures(S::disk_scan_cancel, (&scanner, asked), answer)
                &&& answer is Ok <==> r is Ok
                &&& answer is Ok ==> r->Ok_0@.bool_at("cancelled"@) == Some(answer->Ok_0)
                    && r->Ok_0@.text_at("scan_id"@) == Some(asked@)
                &&& answer is Err ==> r->Err_0 == answer->Err_0
            },
{
    reveal_strlit("cancelled");
    assert("cancelled"@.len() == 9);
    reveal_strlit("scan_id");
    assert("scan_id"@.len() == 7);
}

/// The largest files are asked for with the least size and the number of them, and
/// told as files.
pub proof fn law_largest_files_are_asked_for<S: DiskScanner>(
    scanner: S,
    args: Json,
    max_results: usize,
    min_size_bytes: u64,
    r: Result<Json, WinkitError>,
)
    requires
        max_results >= 1,
        call_ensures(disk_scan_largest_files_handler::<S>, (&scanner, &args, max_results, min_size_bytes), r),
    ensures
        args@.text_at("path"@) is None ==> r is Err,
        r matches Ok(j) ==> exists|q: DiskQueryRequest, answer: Result<DiskQueryResult, WinkitError>|
            {
                &&& #[trigger] call_ensures(S::disk_scan_query, (&scanner, &q), answer)
                &&& answer is Ok
                &&& q.kind == DiskQueryKind::TopFiles
                &&& q.path@ == trimmed(args@.text_at("path"@)->0)
                &&& 1 <= q.limit <= max_results
                &&& usize_at(args@, "limit"@) is None ==> q.limit == max_results
                &&& q.min_size_bytes == min_size_bytes
                &&& q.pattern is None
                &&& answer->Ok_0 is TopFiles
                &&& j@.array_at("files"@) == Some(json_views(answer->Ok_0->TopFiles_0@))
            },
{
    if let Ok(j) = r {
        let (q, answer) = choose|
            q: DiskQueryRequest,
            answer: Result<DiskQueryResult, WinkitError>,
        |
            asks(
                q,
                DiskQueryKind::TopFiles,
                trimmed(args@.text_at("path"@)->0),
                args@,
                max_results,
                min_size_bytes,
            ) && #[trigger] call_ensures(S::disk_scan_query, (&scanner, &q), answer) && (
            match answer {
                Err(e) => r == Err::<Json, WinkitError>(e),
                Ok(a) => match (told(DiskQueryKind::TopFiles, q.limit, a), r) {
                    (Some(v), Ok(j)) => j@ == v,
                    (None, Err(e)) => e@ == err_view(
                        ErrorKind::InternalError,
                        "unexpected query result kind"@,
                    ),
                    _ => false,
                },
            });
        assert(answer is Ok);
        reveal_strlit("files");
        assert("files"@.len() == 5);
        reveal_strlit("folders");
        assert("folders"@.len() == 7);
        reveal_strlit("folder");
        assert("folder"@.len() == 6);
        reveal_strlit("count");
        assert("count"@.len() == 5);
        reveal_strlit("truncated");
        assert("truncated"@.len() == 9);
        reveal_strlit("diagnostics");
        assert("diagnostics"@.len() == 11);
        assert("files"@[0] != "count"@[0]);
        assert(call_ensures(S::disk_scan_query, (&scanner, &q), answer));
    }
}

/// The largest directories are asked for with the number of them, and told as
/// folders.
pub proof fn law_largest_folders_are_asked_for<S: DiskScanner>(
    scanner: S,
    args: Json,
    max_results: usize,
    r: Result<Json, WinkitError>,
)
    requires
        max_results >= 1,
        call_ensures(disk_scan_largest_folders_handler::<S>, (&scanner, &args, max_results), r),
    ensures
        args@.text_at("path"@) is None ==> r is Err,
        r matches Ok(j) ==> exists|q: DiskQueryRequest, answer: Result<DiskQueryResult, WinkitError>|
            {
                &&& #[trigger] call_ensures(S::disk_scan_query, (&scanner, &q), answer)
                &&& answer is Ok
                &&& q.kind == DiskQueryKind::TopFolders
                &&& q.path@ == trimmed(args@.text_at("path"@)->0)
                &&& 1 <= q.limit <= max_results
                &&& usize_at(args@, "limit"@) is None ==> q.limit == max_results
                &&& q.min_size_bytes == 0
                &&& q.extensions is None
                &&& q.pattern is None
                &&& answer->Ok_0 is TopFolders
                &&& j@.array_at("folders"@) == Some(json_views(answer->Ok_0->TopFolders_0@))
            },
{
    if let Ok(j) = r {
        let (q, answer) = choose|
            q: DiskQueryRequest,
            answer: Result<DiskQueryResult, WinkitError>,
        |
            asks(
                q,
                DiskQueryKind::TopFolders,
                trimmed(args@.text_at("path"@)->0),
                args@,
                max_results,
                0u64,
            ) && #[trigger] call_ensures(S::disk_scan_query, (&scanner, &q), answer) && (
            match answer {
                Err(e) => r == Err::<Json, WinkitError>(e),
                Ok(a) => match (told(DiskQueryKind::TopFolders, q.limit, a), r) {
                    (Some(v), Ok(j)) => j@ == v,
                    (None, Err(e)) => e@ == err_view(
                        ErrorKind::InternalError,
                        "unexpected query result kind"@,
                    ),
                    _ => false,
                },
            });
        assert(answer is Ok);
        reveal_strlit("files");
        assert("files"@.len() == 5);
        reveal_strlit("folders");
        assert("folders"@.len() == 7);
        reveal_strlit("folder");
        assert("folder"@.len() == 6);
        reveal_strlit("count");
        assert("count"@.len() == 5);
        reveal_strlit("truncated");
        assert("truncated"@.len() == 9);
        reveal_strlit("diagnostics");
        assert("diagnostics"@.len() == 11);
        assert("files"@[0] != "count"@[0]);
        assert(call_ensures(S::disk_scan_query, (&scanner, &q), answer));
    }
}

/// The size of a directory is asked for without a limit, and told as the
/// folder.
pub proof fn law_folder_sizes_are_asked_for<S: DiskScanner>(
    scanner: S,
    args: Json,
    r: Result<Json, WinkitError>,
)
    requires
        call_ensures(disk_scan_folder_size_handler::<S>, (&scanner, &args), r),
    ensures
        args@.text_at("path"@) is None ==> r is Err,
        r matches Ok(j) ==> exists|q: DiskQueryRequest, answer: Result<DiskQueryResult, WinkitError>|
            {
                &&& #[trigger] call_ensures(S::disk_scan_query, (&scanner, &q), answer)
                &&& answer is Ok
                &&& q.kind == DiskQueryKind::FolderSize
                &&& q.path@ == trimmed(args@.text_at("path"@)->0)
                &&& q.limit == 0
                &&& q.min_size_bytes == 0
                &&& q.extensions is None
                &&& q.pattern is None
                &&& answer->Ok_0 is FolderSize
                &&& j@.get("folder"@) == Some(answer->Ok_0->FolderSize_0@)
            },
{
    if let Ok(j) = r {
        let (q, answer) = choose|
            q: DiskQueryRequest,
            answer: Result<DiskQueryResult, WinkitError>,
        |
            asks(
                q,
                DiskQueryKind::FolderSize,
                trimmed(args@.text_at("path"@)->0),
                args@,
                1usize,
                0u64,
            ) && #[trigger] call_ensures(S::disk_scan_query, (&scanner, &q), answer) && (
            match answer {
                Err(e) => r == Err::<Json, WinkitError>(e),
                Ok(a) => match (told(DiskQueryKind::FolderSize, q.limit, a), r) {
                    (Some(v), Ok(j)) => j@ == v,
                    (None, Err(e)) => e@ == err_view(
                        ErrorKind::InternalError,
                        "unexpected query result kind"@,
                    ),
                    _ => false,
                },
            });
        assert(answer is Ok);
        reveal_strlit("files");
        assert("files"@.len() == 5);
        reveal_strlit("folders");
        assert("folders"@.len() == 7);
        reveal_strlit("folder");
        assert("folder"@.len() == 6);
        reveal_strlit("count");
        assert("count"@.len() == 5);
        reveal_strlit("truncated");
        assert("truncated"@.len() == 9);
        reveal_strlit("diagnostics");
        assert("diagnostics"@.len() == 11);
        assert("files"@[0] != "count"@[0]);
        assert(call_ensures(S::disk_scan_query, (&scanner, &q), answer));
    }
}

/// A search is asked for with its pattern, the least size and the number of files,
/// and told as files.
pub proof fn law_searches_are_asked_for<S: DiskScanner>(
    scanner: S,
    args: Json,
    max_results: usize,
    min_size_bytes: u64,
    r: Result<Json, WinkitError>,
)
    requires
        max_results >= 1,
        call_ensures(disk_scan_find_handler::<S>, (&scanner, &args, max_results, min_size_bytes), r),
    ensures
        args@.text_at("path"@) is None ==> r is Err,
        r matches Ok(j) ==> exists|q: DiskQueryRequest, answer: Result<DiskQueryResult, WinkitError>|
            {
                &&& #[trigger] call_ensures(S::disk_scan_query, (&scanner, &q), answer)
                &&& answer is Ok
                &&& q.kind == DiskQueryKind::FindFiles
                &&& q.path@ == trimmed(args@.text_at("path"@)->0)
                &&& 1 <= q.limit <= max_results
                &&& usize_at(args@, "limit"@) is None ==> q.limit == max_results
                &&& q.min_size_bytes == min_size_bytes
                &&& opt_view(q.pattern) == args@.text_at("pattern"@)
                &&& answer->Ok_0 is FindFiles
                &&& j@.array_at("files"@) == Some(json_views(answer->Ok_0->FindFiles_0@))
            },
{
    if let Ok(j) = r {
        let (q, answer) = choose|
            q: DiskQueryRequest,
            answer: Result<DiskQueryResult, WinkitError>,
        |
            asks(
                q,
                DiskQueryKind::FindFiles,
                trimmed(args@.text_at("path"@)->0),
                args@,
                max_results,
                min_size_bytes,
            ) && #[trigger] call_ensures(S::disk_scan_query, (&scanner, &q), answer) && (
            match answer {
                Err(e) => r == Err::<Json, WinkitError>(e),
                Ok(a) => match (told(DiskQueryKind::FindFiles, q.limit, a), r) {
                    (Some(v), Ok(j)) => j@ == v,
                    (None, Err(e)) => e@ == err_view(
                        ErrorKind::InternalError,
                        "unexpected query result kind"@,
                    ),
                    _ => false,
                },
            });
        assert(answer is Ok);
        reveal_strlit("files");
        assert("files"@.len() == 5);
        reveal_strlit("folders");
        assert("folders"@.len() == 7);
        reveal_strlit("folder");
        assert("folder"@.len() == 6);
        reveal_strlit("count");
        assert("count"@.len() == 5);
        reveal_strlit("truncated");
        assert("truncated"@.len() == 9);
        reveal_strlit("diagnostics");
        assert("diagnostics"@.len() == 11);
        assert("files"@[0] != "count"@[0]);
        assert(call_ensures(S::disk_scan_query, (&scanner, &q), answer));
    }
}

/// A scan is asked about by its identifier; one that is not known is not found.
pub proof fn law_scans_are_asked_about_by_id<S: DiskScanner>(
    scanner: S,
    args: Json,
    r: Result<Json, WinkitError>,
)
    requires
        call_ensures(disk_scan_status_handler::<S>, (&scanner, &args), r),
        args@.text_at("scan_id"@) is Some,
        trimmed(args@.text_at("scan_id"@)->0).len() > 0,
    ensures
        exists|asked: &str, answer: Result<Option<Json>, WinkitError>|
            {
                &&& asked@ == trimmed(args@.text_at("scan_id"@)->0)
                &&& #[trigger] call_ensures(S::disk_scan_status, (&scanner, asked), answer)
                &&& r is Ok <==> answer is Ok && answer->Ok_0 is Some
                &&& answer is Ok && answer->Ok_0 is Some ==> r->Ok_0@.get("status"@) == Some(
                    answer->Ok_0->0@,
                )
                &&& answer is Ok && answer->Ok_0 is None ==> r->Err_0.kind == ErrorKind::NotFound
                &&& answer is Err ==> r->Err_0 == answer->Err_0
            },
{
}

} // verus!
