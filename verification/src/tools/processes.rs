//! Process tools.

use crate::errors::{err_view, res_view, ErrorKind, ErrorView, WinkitError};
use crate::json::{Json, JsonView};
use crate::models::{ProcessInfo, ProcessInfoView, ProcessTreeNode};
use crate::order::{
    comes_before, is_stable_order, key_lt, key_of_text, keys_view, law_stable_order_is_unique,
    lemma_key_irreflexive, lemma_key_transitive, stable_order, text_key, text_lt,
};
use crate::permissions::Capability;
use crate::providers::windows::WindowsBackend;
use crate::text::{
    byte_len, clipped, concat3, decimal, decimal_text, lowercase, same, to_lowercase, trim, trimmed,
    truncate, utf8_len, views,
};
use crate::tools::args::{
    clamp_limit, limit_for, missing, needed_pid, optional_string, optional_u32, optional_usize,
    parse_pid, u32_at, usize_at,
};
use crate::tools::listing::{listing, lists, Listing};
use crate::tools::schema::{input_schema, param_views, schema_view, Param, ParamKind, ParamView};
use crate::tools::toolset::{ToolDefinition, ToolView};
use vstd::prelude::*;
use vstd::string::*;

verus! {

/// How much of a command line a listing shows.
pub const LIST_STRING_CAP: usize = 300;

/// The most processes of a tree.
pub const MAX_TREE_NODES: usize = 2000;

/// How many processes of a tree are shown where no number is asked for.
pub const DEFAULT_TREE_NODES: usize = 500;

/// The longest name to search for, in bytes.
pub const MAX_NAME_BYTES: usize = 256;

/// What a process listing is ordered by.
#[derive(Debug, Clone, Copy, PartialEq, Eq, Structural)]
pub enum SortKey {
    /// As the machine gave them.
    Given,
    Memory,
    CpuTime,
    Pid,
    Name,
}

/// What the arguments ask to order by.
pub open spec fn wanted_order(args: JsonView) -> Result<SortKey, ErrorView> {
    match args.text_at("sort_by"@) {
        None => Ok(SortKey::Given),
        Some(s) => if s == "memory"@ {
            Ok(SortKey::Memory)
        } else if s == "cpu_time"@ {
            Ok(SortKey::CpuTime)
        } else if s == "name"@ {
            Ok(SortKey::Name)
        } else if s == "pid"@ {
            Ok(SortKey::Pid)
        } else {
            Err(
                err_view(
                    ErrorKind::InvalidArgument,
                    "'sort_by' must be memory, cpu_time, name, or pid (got '"@ + s + "')"@,
                ),
            )
        },
    }
}

/// What the arguments ask to order by.
pub fn order_from_args(args: &Json) -> (r: Result<SortKey, WinkitError>)
    ensures
        res_view(r) == wanted_order(args@),
{
    match optional_string(args, "sort_by") {
        None => Ok(SortKey::Given),
        Some(s) => {
            if same(&s, "memory") {
                Ok(SortKey::Memory)
            } else if same(&s, "cpu_time") {
                Ok(SortKey::CpuTime)
            } else if same(&s, "name") {
                Ok(SortKey::Name)
            } else if same(&s, "pid") {
                Ok(SortKey::Pid)
            } else {
                Err(
                    WinkitError::invalid_argument(
                        &concat3(
                            "'sort_by' must be memory, cpu_time, name, or pid (got '",
                            &s,
                            "')",
                        ),
                    ),
                )
            }
        },
    }
}

/// A number that may be missing, as one; nothing counts as zero.
pub open spec fn or_zero(n: Option<u64>) -> u64 {
    match n {
        Some(n) => n,
        None => 0,
    }
}

/// By what a process, whose name in lower case is given, is ordered among
/// others; what has the smaller key comes first, so that the largest consumers
/// lead.
pub open spec fn row_key(p: ProcessInfoView, lowered: Seq<char>, key: SortKey) -> Seq<u64> {
    match key {
        SortKey::Given => seq![0u64],
        SortKey::Memory => seq![(u64::MAX - or_zero(p.working_set_bytes)) as u64],
        SortKey::CpuTime => seq![(u64::MAX - or_zero(p.cpu_time_ms)) as u64],
        SortKey::Pid => seq![(u64::MAX - p.pid as u64) as u64],
        SortKey::Name => text_key(lowered),
    }
}

fn sort_key(p: &ProcessInfo, lowered: &str, key: SortKey) -> (r: Vec<u64>)
    ensures
        r@ == row_key(p@, lowered@, key),
{
    if let SortKey::Name = key {
        return key_of_text(lowered);
    }
    let first: u64 = match key {
        SortKey::Memory => u64::MAX - p.working_set_bytes.unwrap_or(0),
        SortKey::CpuTime => u64::MAX - p.cpu_time_ms.unwrap_or(0),
        SortKey::Pid => u64::MAX - p.pid as u64,
        _ => 0,
    };
    let out: Vec<u64> = vec![first];
    assert(out@ =~= row_key(p@, lowered@, key));
    out
}

/// The keys of all processes, whose names in lower case are given.
pub open spec fn row_keys(
    processes: Seq<ProcessInfo>,
    lowered: Seq<Seq<char>>,
    key: SortKey,
) -> Seq<Seq<u64>> {
    Seq::new(processes.len(), |i: int| row_key(processes[i]@, lowered[i], key))
}

/// The names of the processes in lower case.
pub open spec fn lowered_names(processes: Seq<ProcessInfo>) -> Seq<Seq<char>> {
    processes.map_values(|p: ProcessInfo| lowercase(p.name@))
}

/// A process as a listing shows it: its command line cut short.
pub open spec fn short_row(p: ProcessInfoView) -> ProcessInfoView {
    ProcessInfoView {
        command_line: match p.command_line {
            Some(c) => Some(clipped(c, LIST_STRING_CAP as int)),
            None => None,
        },
        ..p
    }
}

/// How many rows are kept where `top` asks for the first ones.
pub open spec fn rows_kept(top: Option<usize>, n: int) -> int {
    match top {
        Some(t) => if t < 1 && n >= 1 {
            1
        } else if t < n {
            t as int
        } else {
            n
        },
        None => n,
    }
}

/// Are the rows those of the processes, whose names in lower case are given, in
/// the order of `key`, equals as they stood, the first `top` of them, with short
/// command lines?
pub open spec fn arranged_by(
    rows: Seq<ProcessInfo>,
    processes: Seq<ProcessInfo>,
    lowered: Seq<Seq<char>>,
    key: SortKey,
    top: Option<usize>,
) -> bool {
    exists|order: Seq<usize>| #[trigger]
        is_stable_order(row_keys(processes, lowered, key), order) && rows_follow(
            rows,
            processes,
            order,
            top,
        )
}

/// Are the rows those of the processes in the order of `key`, equals as they
/// stood, the first `top` of them, with short command lines? By name they are
/// ordered in lower case.
pub open spec fn arranged(
    rows: Seq<ProcessInfo>,
    processes: Seq<ProcessInfo>,
    key: SortKey,
    top: Option<usize>,
) -> bool {
    arranged_by(rows, processes, lowered_names(processes), key, top)
}

/// Are the rows those that `order` picks, the first `top` of them?
pub open spec fn rows_follow(
    rows: Seq<ProcessInfo>,
    processes: Seq<ProcessInfo>,
    order: Seq<usize>,
    top: Option<usize>,
) -> bool {
    &&& rows.len() == rows_kept(top, processes.len() as int)
    &&& forall|i: int|
        0 <= i < rows.len() ==> (#[trigger] rows[i])@ == short_row(processes[order[i] as int]@)
}

/// The rows of a process listing.
pub fn arrange(processes: &Vec<ProcessInfo>, key: SortKey, top: Option<usize>) -> (r: Vec<
    ProcessInfo,
>)
    ensures
        arranged(r@, processes@, key, top),
{
    let mut lowered: Vec<String> = Vec::new();
    let mut i: usize = 0;
    while i < processes.len()
        invariant
            i <= processes@.len(),
            lowered@.len() == i,
            forall|k: int|
                0 <= k < i ==> (#[trigger] lowered@[k])@ == lowercase(processes@[k].name@),
        decreases processes@.len() - i,
    {
        lowered.push(to_lowercase(&processes[i].name));
        i = i + 1;
    }
    assert(views(lowered@) =~= lowered_names(processes@));
    arrange_by(processes, &lowered, key, top)
}

/// The rows of a process listing, for processes whose names in lower case are
/// given.
pub fn arrange_by(
    processes: &Vec<ProcessInfo>,
    lowered: &Vec<String>,
    key: SortKey,
    top: Option<usize>,
) -> (r: Vec<ProcessInfo>)
    requires
        lowered@.len() == processes@.len(),
    ensures
        arranged_by(r@, processes@, views(lowered@), key, top),
{
    let mut keys: Vec<Vec<u64>> = Vec::new();
    let mut i: usize = 0;
    while i < processes.len()
        invariant
            i <= processes@.len(),
            lowered@.len() == processes@.len(),
            keys@.len() == i,
            forall|k: int|
                0 <= k < i ==> (#[trigger] keys@[k])@ == row_key(
                    processes@[k]@,
                    lowered@[k]@,
                    key,
                ),
        decreases processes@.len() - i,
    {
        keys.push(sort_key(&processes[i], &lowered[i], key));
        i = i + 1;
    }
    assert(keys_view(keys@) =~= row_keys(processes@, views(lowered@), key));
    let order = stable_order(&keys);
    let total: usize = order.len();
    let kept: usize = match top {
        Some(t) => {
            if t < 1 && total >= 1 {
                1
            } else if t < total {
                t
            } else {
                total
            }
        },
        None => total,
    };
    let mut rows: Vec<ProcessInfo> = Vec::new();
    let mut j: usize = 0;
    while j < kept
        invariant
            is_stable_order(row_keys(processes@, views(lowered@), key), order@),
            order@.len() == processes@.len(),
            kept <= order@.len(),
            j <= kept,
            rows@.len() == j,
            forall|k: int|
                0 <= k < j ==> (#[trigger] rows@[k])@ == short_row(processes@[order@[k] as int]@),
        decreases kept - j,
    {
        assert(order@[j as int] < row_keys(processes@, views(lowered@), key).len());
        let p = &processes[order[j]];
        let mut row = p.clone();
        row.command_line = match &p.command_line {
            Some(c) => Some(truncate(c, LIST_STRING_CAP)),
            None => None,
        };
        assert(row@ == short_row(p@));
        rows.push(row);
        j = j + 1;
    }
    assert(rows_follow(rows@, processes@, order@, top));
    rows
}

/// A process listing.
#[derive(Debug)]
pub struct ProcessList {
    pub processes: Vec<ProcessInfo>,
    pub count: usize,
    pub truncated: bool,
    pub command_line_capped_at: usize,
}

/// Is `r` the listing of these processes that the arguments ask for?
pub open spec fn process_list_of(
    r: Result<ProcessList, WinkitError>,
    args: JsonView,
    limit: usize,
    processes: Seq<ProcessInfo>,
) -> bool {
    match wanted_order(args) {
        Err(refusal) => r matches Err(e) && e@ == refusal,
        Ok(key) => r matches Ok(l) && arranged(
            l.processes@,
            processes,
            key,
            usize_at(args, "top"@),
        ) && l.count == l.processes@.len() && l.truncated == (l.count == limit)
            && l.command_line_capped_at == LIST_STRING_CAP,
    }
}

/// The listing of processes that the arguments ask for.
pub fn process_list(args: &Json, limit: usize, processes: Vec<ProcessInfo>) -> (r: Result<
    ProcessList,
    WinkitError,
>)
    ensures
        process_list_of(r, args@, limit, processes@),
{
    let key = match order_from_args(args) {
        Ok(k) => k,
        Err(e) => {
            return Err(e);
        },
    };
    let rows = arrange(&processes, key, optional_usize(args, "top"));
    let count: usize = rows.len();
    Ok(
        ProcessList {
            processes: rows,
            count,
            truncated: count == limit,
            command_line_capped_at: LIST_STRING_CAP,
        },
    )
}

/// A listing holds at least one row of a machine that runs anything, and never
/// more than were asked for.
pub proof fn law_listing_is_bounded(
    rows: Seq<ProcessInfo>,
    processes: Seq<ProcessInfo>,
    key: SortKey,
    top: Option<usize>,
)
    requires
        arranged(rows, processes, key, top),
    ensures
        rows.len() <= processes.len(),
        processes.len() >= 1 && top is Some ==> rows.len() >= 1,
        top is Some && top->0 >= 1 ==> rows.len() <= top->0,
        forall|i: int|
            0 <= i < rows.len() ==> ((#[trigger] rows[i])@.command_line matches Some(c) ==> c.len()
                <= LIST_STRING_CAP),
{
}

/// Without an order asked for, the processes stay as the machine gave them.
pub proof fn law_given_order_is_kept(
    rows: Seq<ProcessInfo>,
    processes: Seq<ProcessInfo>,
)
    requires
        arranged(rows, processes, SortKey::Given, None),
        processes.len() <= usize::MAX,
    ensures
        rows.len() == processes.len(),
        forall|i: int| 0 <= i < rows.len() ==> (#[trigger] rows[i])@ == short_row(processes[i]@),
{
    let keys = row_keys(processes, lowered_names(processes), SortKey::Given);
    let order = choose|order: Seq<usize>| #[trigger]
        is_stable_order(keys, order) && rows_follow(rows, processes, order, None);
    let same_order = Seq::new(processes.len(), |i: int| i as usize);
    assert forall|i: int, j: int| 0 <= i < j < same_order.len() implies crate::order::comes_before(
        keys,
        #[trigger] same_order[i] as int,
        #[trigger] same_order[j] as int,
    ) by {
        assert(keys[i] == keys[j]);
    }
    assert forall|k: usize| k < keys.len() implies #[trigger] same_order.contains(k) by {
        assert(same_order[k as int] == k);
    }
    law_stable_order_is_unique(keys, order, same_order);
}

/// The running processes, ordered and cut as the arguments ask.
pub fn list_processes_handler<B: WindowsBackend>(
    backend: &B,
    args: &Json,
    max_processes: usize,
) -> (r: Result<ProcessList, WinkitError>)
    requires
        usize_at(args@, "limit"@) is Some ==> max_processes >= 1,
    ensures
        exists|answer: Result<Vec<ProcessInfo>, WinkitError>| #[trigger]
            call_ensures(
                B::list_processes,
                (backend, limit_for(usize_at(args@, "limit"@), max_processes)),
                answer,
            ) && (match answer {
                Ok(processes) => process_list_of(
                    r,
                    args@,
                    limit_for(usize_at(args@, "limit"@), max_processes),
                    processes@,
                ),
                Err(e) => r == Err::<ProcessList, WinkitError>(e),
            }),
{
    let limit = clamp_limit(optional_usize(args, "limit"), max_processes);
    match backend.list_processes(limit) {
        Ok(processes) => process_list(args, limit, processes),
        Err(e) => Err(e),
    }
}

/// The refusal of a process number that no process has.
pub open spec fn not_running(pid: u32) -> ErrorView {
    err_view(
        ErrorKind::InvalidArgument,
        "no process with pid "@ + decimal(pid as nat) + " is running"@,
    )
}

fn not_running_error(pid: u32) -> (r: WinkitError)
    ensures
        r@ == not_running(pid),
{
    WinkitError::invalid_argument(
        &concat3("no process with pid ", &decimal_text(pid as u64), " is running"),
    )
}

/// What was found, or the refusal where nothing was.
pub open spec fn found_or<T>(
    r: Result<T, WinkitError>,
    answer: Result<Option<T>, WinkitError>,
    refusal: ErrorView,
) -> bool {
    match answer {
        Ok(Some(x)) => r == Ok::<T, WinkitError>(x),
        Ok(None) => r matches Err(e) && e@ == refusal,
        Err(e) => r == Err::<T, WinkitError>(e),
    }
}

/// The process of an id.
pub fn get_process_handler<B: WindowsBackend>(backend: &B, args: &Json) -> (r: Result<
    ProcessInfo,
    WinkitError,
>)
    ensures
        match needed_pid(args@, "pid"@) {
            Err(refusal) => r matches Err(e) && e@ == refusal,
            Ok(pid) => exists|answer: Result<Option<ProcessInfo>, WinkitError>| #[trigger]
                call_ensures(B::get_process, (backend, pid), answer) && found_or(
                    r,
                    answer,
                    not_running(pid),
                ),
        },
{
    let pid = match parse_pid(args, "pid") {
        Ok(p) => p,
        Err(e) => {
            return Err(e);
        },
    };
    let answer = backend.get_process(pid);
    let ghost given = answer;
    let r = match answer {
        Ok(Some(process)) => Ok(process),
        Ok(None) => Err(not_running_error(pid)),
        Err(e) => Err(e),
    };
    assert(found_or(r, given, not_running(pid)));
    r
}

/// A process tree and the bounds it was asked with.
#[derive(Debug)]
pub struct ProcessTree {
    pub root: ProcessTreeNode,
    pub pid: u32,
    pub max_depth: u32,
    pub max_nodes: usize,
}

/// How deep a tree goes.
pub open spec fn tree_depth(args: JsonView, max_find_depth: u32) -> u32 {
    match u32_at(args, "max_depth"@) {
        Some(d) => if d < 1 {
            1
        } else if d > max_find_depth {
            max_find_depth
        } else {
            d
        },
        None => max_find_depth,
    }
}

/// How many processes a tree shows.
pub open spec fn tree_nodes(args: JsonView) -> usize {
    match usize_at(args, "max_nodes"@) {
        Some(n) => limit_for(Some(n), MAX_TREE_NODES),
        None => DEFAULT_TREE_NODES,
    }
}

/// The process of an id and what it started.
pub fn get_process_tree_handler<B: WindowsBackend>(
    backend: &B,
    args: &Json,
    max_find_depth: u32,
) -> (r: Result<ProcessTree, WinkitError>)
    requires
        needed_pid(args@, "pid"@) is Ok && u32_at(args@, "max_depth"@) is Some ==> max_find_depth
            >= 1,
    ensures
        match needed_pid(args@, "pid"@) {
            Err(refusal) => r matches Err(e) && e@ == refusal,
            Ok(pid) => {
                let depth = tree_depth(args@, max_find_depth);
                let nodes = tree_nodes(args@);
                exists|answer: Result<Option<ProcessTreeNode>, WinkitError>| #[trigger]
                    call_ensures(B::get_process_tree, (backend, pid, depth, nodes), answer) && (
                    match answer {
                        Ok(Some(root)) => r == Ok::<ProcessTree, WinkitError>(
                            ProcessTree { root, pid, max_depth: depth, max_nodes: nodes },
                        ),
                        Ok(None) => r matches Err(e) && e@ == not_running(pid),
                        Err(e) => r == Err::<ProcessTree, WinkitError>(e),
                    })
            },
        },
{
    let pid = match parse_pid(args, "pid") {
        Ok(p) => p,
        Err(e) => {
            return Err(e);
        },
    };
    let max_depth: u32 = match optional_u32(args, "max_depth") {
        Some(d) => {
            if d < 1 {
                1
            } else if d > max_find_depth {
                max_find_depth
            } else {
                d
            }
        },
        None => max_find_depth,
    };
    let max_nodes: usize = match optional_usize(args, "max_nodes") {
        Some(n) => clamp_limit(Some(n), MAX_TREE_NODES),
        None => DEFAULT_TREE_NODES,
    };
    match backend.get_process_tree(pid, max_depth, max_nodes) {
        Ok(Some(root)) => Ok(ProcessTree { root, pid, max_depth, max_nodes }),
        Ok(None) => Err(not_running_error(pid)),
        Err(e) => Err(e),
    }
}

/// The name that the arguments ask to search for: `name`, or else `query`.
pub open spec fn wanted_name(args: JsonView) -> Result<Seq<char>, ErrorView> {
    let given = match args.text_at("name"@) {
        Some(s) => Some(s),
        None => args.text_at("query"@),
    };
    match given {
        None => Err(missing("name"@)),
        Some(s) => if trimmed(s).len() == 0 {
            Err(err_view(ErrorKind::InvalidArgument, "'name' must not be empty"@))
        } else if utf8_len(trimmed(s)) > MAX_NAME_BYTES {
            Err(err_view(ErrorKind::InvalidArgument, "'name' is too long (max 256)"@))
        } else {
            Ok(trimmed(s))
        },
    }
}

fn name_from_args(args: &Json) -> (r: Result<String, WinkitError>)
    ensures
        crate::tools::args::text_result(r) == wanted_name(args@),
{
    let given = match optional_string(args, "name") {
        Some(s) => Some(s),
        None => optional_string(args, "query"),
    };
    match given {
        None => {
            assert("missing required argument '"@ + "name"@ + "'"@
                =~= "missing required argument 'name'"@) by {
                reveal_strlit("missing required argument '");
                reveal_strlit("name");
                reveal_strlit("'");
                reveal_strlit("missing required argument 'name'");
            }
            Err(WinkitError::invalid_argument("missing required argument 'name'"))
        },
        Some(s) => {
            let t = trim(&s);
            if t.as_str().is_empty() {
                return Err(WinkitError::invalid_argument("'name' must not be empty"));
            }
            if byte_len(&t) > MAX_NAME_BYTES {
                return Err(WinkitError::invalid_argument("'name' is too long (max 256)"));
            }
            Ok(t)
        },
    }
}

/// The processes whose name holds what the arguments ask for.
pub fn find_process_handler<B: WindowsBackend>(
    backend: &B,
    args: &Json,
    max_processes: usize,
) -> (r: Result<Listing<ProcessInfo>, WinkitError>)
    requires
        usize_at(args@, "limit"@) is Some ==> max_processes >= 1,
    ensures
        match wanted_name(args@) {
            Err(refusal) => r matches Err(e) && e@ == refusal,
            Ok(name) => {
                let limit = limit_for(usize_at(args@, "limit"@), max_processes);
                exists|needle: &str, answer: Result<Vec<ProcessInfo>, WinkitError>|
                    needle@ == name && #[trigger] call_ensures(
                        B::find_process,
                        (backend, needle, limit),
                        answer,
                    ) && (match answer {
                        Ok(processes) => r matches Ok(l) && lists(l, processes@, limit),
                        Err(e) => r == Err::<Listing<ProcessInfo>, WinkitError>(e),
                    })
            },
        },
{
    let name = match name_from_args(args) {
        Ok(n) => n,
        Err(e) => {
            return Err(e);
        },
    };
    let limit = clamp_limit(optional_usize(args, "limit"), max_processes);
    match backend.find_process(name.as_str(), limit) {
        Ok(processes) => Ok(listing(processes, limit)),
        Err(e) => Err(e),
    }
}

/// What the tool `list_processes` does, in words.
pub const LIST_PROCESSES_ABOUT: &'static str = "List running processes with PID, name, memory, threads, and start time. Processes with readable memory are listed first, ordered by memory usage. For big listings use sort_by (memory|cpu_time|name|pid) plus top (e.g. top 15) instead of paging through hundreds of rows; use get_process for full command lines of one PID.";

/// The parameters of the tool `list_processes`.
pub open spec fn list_processes_params() -> Seq<ParamView> {
    seq![
        ParamView::new("limit"@, ParamKind::Integer)
            .at_least(1)
            .about("Maximum results (defaults to the configured limit)."@),
        ParamView::new("sort_by"@, ParamKind::Text)
            .choice("memory"@)
            .choice("cpu_time"@)
            .choice("name"@)
            .choice("pid"@)
            .about("Order results (default: memory)."@),
        ParamView::new("top"@, ParamKind::Integer)
            .at_least(1)
            .about("Keep only the first N rows after sorting — the cheap way to ask 'top consumers'."@),
    ]
}

/// The tool `list_processes`.
pub open spec fn list_processes_tool() -> ToolView {
    ToolView {
        name: "list_processes"@,
        description: LIST_PROCESSES_ABOUT@,
        input_schema: schema_view(list_processes_params()),
        capability: Some(Capability::ProcessRead),
        timeout_ms: None,
    }
}

/// The tool `list_processes`.
pub fn list_processes_definition() -> (r: ToolDefinition)
    ensures
        r@ == list_processes_tool(),
{
    let params: Vec<Param> = vec![
        Param::new("limit", ParamKind::Integer)
            .at_least(1)
            .about("Maximum results (defaults to the configured limit)."),
        Param::new("sort_by", ParamKind::Text)
            .choice("memory")
            .choice("cpu_time")
            .choice("name")
            .choice("pid")
            .about("Order results (default: memory)."),
        Param::new("top", ParamKind::Integer)
            .at_least(1)
            .about("Keep only the first N rows after sorting — the cheap way to ask 'top consumers'."),
    ];
    assert(param_views(params@) =~= list_processes_params());
    ToolDefinition {
        name: "list_processes",
        description: LIST_PROCESSES_ABOUT,
        input_schema: input_schema(&params),
        capability: Some(Capability::ProcessRead),
        timeout_ms: None,
    }
}

/// What the tool `get_process` does, in words.
pub const GET_PROCESS_ABOUT: &'static str = "Detailed information about one process by PID: memory, threads, CPU time, executable path, and command line when readable. Includes a two-sample CPU percent estimate (relative to total system CPU capacity) when the process is openable; for multi-sample CPU evidence use system_health.";

/// The parameters of the tool `get_process`.
pub open spec fn get_process_params() -> Seq<ParamView> {
    seq![
        ParamView::new("pid"@, ParamKind::Integer).at_least(1).needed(),
    ]
}

/// The tool `get_process`.
pub open spec fn get_process_tool() -> ToolView {
    ToolView {
        name: "get_process"@,
        description: GET_PROCESS_ABOUT@,
        input_schema: schema_view(get_process_params()),
        capability: Some(Capability::ProcessRead),
        timeout_ms: None,
    }
}

/// The tool `get_process`.
pub fn get_process_definition() -> (r: ToolDefinition)
    ensures
        r@ == get_process_tool(),
{
    let params: Vec<Param> = vec![
        Param::new("pid", ParamKind::Integer).at_least(1).needed(),
    ];
    assert(param_views(params@) =~= get_process_params());
    ToolDefinition {
        name: "get_process",
        description: GET_PROCESS_ABOUT,
        input_schema: input_schema(&params),
        capability: Some(Capability::ProcessRead),
        timeout_ms: None,
    }
}

/// What the tool `get_process_tree` does, in words.
pub const GET_PROCESS_TREE_ABOUT: &'static str = "The process tree rooted at a PID (children and descendants), depth-bounded.";

/// The parameters of the tool `get_process_tree`.
pub open spec fn get_process_tree_params() -> Seq<ParamView> {
    seq![
        ParamView::new("pid"@, ParamKind::Integer).at_least(1).needed(),
        ParamView::new("max_depth"@, ParamKind::Integer)
            .at_least(1)
            .at_most(32)
            .about("Default: configured max find depth."@),
        ParamView::new("max_nodes"@, ParamKind::Integer).at_least(1).or_count(500),
    ]
}

/// The tool `get_process_tree`.
pub open spec fn get_process_tree_tool() -> ToolView {
    ToolView {
        name: "get_process_tree"@,
        description: GET_PROCESS_TREE_ABOUT@,
        input_schema: schema_view(get_process_tree_params()),
        capability: Some(Capability::ProcessRead),
        timeout_ms: None,
    }
}

/// The tool `get_process_tree`.
pub fn get_process_tree_definition() -> (r: ToolDefinition)
    ensures
        r@ == get_process_tree_tool(),
{
    let params: Vec<Param> = vec![
        Param::new("pid", ParamKind::Integer).at_least(1).needed(),
        Param::new("max_depth", ParamKind::Integer)
            .at_least(1)
            .at_most(32)
            .about("Default: configured max find depth."),
        Param::new("max_nodes", ParamKind::Integer).at_least(1).or_count(500),
    ];
    assert(param_views(params@) =~= get_process_tree_params());
    ToolDefinition {
        name: "get_process_tree",
        description: GET_PROCESS_TREE_ABOUT,
        input_schema: input_schema(&params),
        capability: Some(Capability::ProcessRead),
        timeout_ms: None,
    }
}

/// What the tool `find_process` does, in words.
pub const FIND_PROCESS_ABOUT: &'static str = "Search running processes by case-insensitive substring of the executable name (e.g. 'chrome', 'node').";

/// The parameters of the tool `find_process`.
pub open spec fn find_process_params() -> Seq<ParamView> {
    seq![
        ParamView::new("name"@, ParamKind::Text)
            .about("Substring to match against process names."@)
            .needed(),
        ParamView::new("limit"@, ParamKind::Integer).at_least(1),
    ]
}

/// The tool `find_process`.
pub open spec fn find_process_tool() -> ToolView {
    ToolView {
        name: "find_process"@,
        description: FIND_PROCESS_ABOUT@,
        input_schema: schema_view(find_process_params()),
        capability: Some(Capability::ProcessRead),
        timeout_ms: None,
    }
}

/// The tool `find_process`.
pub fn find_process_definition() -> (r: ToolDefinition)
    ensures
        r@ == find_process_tool(),
{
    let params: Vec<Param> = vec![
        Param::new("name", ParamKind::Text)
            .about("Substring to match against process names.")
            .needed(),
        Param::new("limit", ParamKind::Integer).at_least(1),
    ];
    assert(param_views(params@) =~= find_process_params());
    ToolDefinition {
        name: "find_process",
        description: FIND_PROCESS_ABOUT,
        input_schema: input_schema(&params),
        capability: Some(Capability::ProcessRead),
        timeout_ms: None,
    }
}

/// Does the process come after none of the others by what the listing is ordered by:
/// more memory, more time on the processor and higher numbers first, and names from
/// the front of the alphabet, in lower case?
pub open spec fn goes_first(a: ProcessInfoView, b: ProcessInfoView, key: SortKey) -> bool {
    match key {
        SortKey::Given => true,
        SortKey::Memory => a.working_set_bytes.unwrap_or(0) >= b.working_set_bytes.unwrap_or(0),
        SortKey::CpuTime => a.cpu_time_ms.unwrap_or(0) >= b.cpu_time_ms.unwrap_or(0),
        SortKey::Pid => a.pid >= b.pid,
        SortKey::Name => !text_lt(lowercase(b.name), lowercase(a.name)),
    }
}

proof fn lemma_first_by_key(a: ProcessInfoView, b: ProcessInfoView, key: SortKey)
    requires
        ({
            let x = row_key(a, lowercase(a.name), key);
            let y = row_key(b, lowercase(b.name), key);
            key_lt(x, y) || x == y
        }),
    ensures
        goes_first(a, b, key),
{
    let x = row_key(a, lowercase(a.name), key);
    let y = row_key(b, lowercase(b.name), key);
    if let SortKey::Name = key {
        lemma_key_irreflexive(x);
        if key_lt(x, y) && key_lt(y, x) {
            lemma_key_transitive(x, y, x);
        }
    } else {
        assert(x.drop_first() =~= Seq::<u64>::empty());
        assert(y.drop_first() =~= Seq::<u64>::empty());
        assert(x[0] <= y[0]);
    }
}

/// A process listing is ordered as asked, and holds the first ones: no process that
/// is left out comes before one that is shown. Each row is one of the processes, of
/// which only the command line may be shortened.
pub proof fn law_first_ones_are_shown(
    processes: Vec<ProcessInfo>,
    key: SortKey,
    top: Option<usize>,
    r: Vec<ProcessInfo>,
)
    requires
        call_ensures(arrange, (&processes, key, top), r),
    ensures
        forall|i: int, j: int|
            0 <= i < j < r@.len() ==> goes_first((#[trigger] r@[i])@, (#[trigger] r@[j])@, key),
        forall|i: int|
            0 <= i < r@.len() ==> exists|k: int|
                0 <= k < processes@.len() && is_row_of(#[trigger] r@[i], #[trigger] processes@[k]),
        forall|k: int|
            0 <= k < processes@.len() ==> shown_or_last(r@, #[trigger] processes@[k], key),
        top is None ==> r@.len() == processes@.len(),
        top matches Some(t) ==> {
            &&& t >= processes@.len() ==> r@.len() == processes@.len()
            &&& 1 <= t < processes@.len() ==> r@.len() == t
            &&& t == 0 && processes@.len() > 0 ==> r@.len() == 1
        },
{
    let lowered = lowered_names(processes@);
    let keys = row_keys(processes@, lowered, key);
    let order = choose|order: Seq<usize>| #[trigger]
        is_stable_order(keys, order) && rows_follow(r@, processes@, order, top);
    assert forall|i: int, j: int| 0 <= i < j < r@.len() implies goes_first(
        (#[trigger] r@[i])@,
        (#[trigger] r@[j])@,
        key,
    ) by {
        let (a, b) = (order[i] as int, order[j] as int);
        assert(comes_before(keys, order[i] as int, order[j] as int));
        lemma_first_by_key(processes@[a]@, processes@[b]@, key);
    }
    assert forall|i: int| 0 <= i < r@.len() implies exists|k: int|
        0 <= k < processes@.len() && is_row_of(#[trigger] r@[i], #[trigger] processes@[k]) by {
        let a = order[i] as int;
        assert(order[i] < keys.len());
        assert(is_row_of(r@[i], processes@[a]));
    }
    assert forall|k: int| 0 <= k < processes@.len() implies shown_or_last(
        r@,
        #[trigger] processes@[k],
        key,
    ) by {
        assert(k < keys.len());
        assert(processes@.len() == processes.len());
        assert(order.contains(k as usize));
        let at = choose|at: int| 0 <= at < order.len() && order[at] == k as usize;
        if at < r@.len() {
            assert(is_row_of(r@[at], processes@[k]));
        } else {
            assert forall|i: int| 0 <= i < r@.len() implies goes_first(
                (#[trigger] r@[i])@,
                processes@[k]@,
                key,
            ) by {
                assert(comes_before(keys, order[i] as int, order[at] as int));
                lemma_first_by_key(processes@[order[i] as int]@, processes@[k]@, key);
            }
        }
    }
}

/// Is the row that of the process: the same but for a long command line, of which the
/// row has the beginning?
pub open spec fn is_row_of(row: ProcessInfo, p: ProcessInfo) -> bool {
    &&& row.pid == p.pid
    &&& row.name@ == p.name@
    &&& row.parent_pid == p.parent_pid
    &&& row.working_set_bytes == p.working_set_bytes
    &&& row.private_bytes == p.private_bytes
    &&& row.threads == p.threads
    &&& row.cpu_time_ms == p.cpu_time_ms
    &&& row.cpu_percent == p.cpu_percent
    &&& row.command_line is Some <==> p.command_line is Some
    &&& p.command_line matches Some(c) ==> {
        &&& c@.len() <= 300 ==> row.command_line->0@ == c@
        &&& c@.len() > 300 ==> row.command_line->0@.len() <= 300
    }
}

/// Is the process shown, or does it come before none of those that are?
pub open spec fn shown_or_last(rows: Seq<ProcessInfo>, p: ProcessInfo, key: SortKey) -> bool {
    ||| exists|i: int| 0 <= i < rows.len() && is_row_of(#[trigger] rows[i], p)
    ||| forall|i: int| 0 <= i < rows.len() ==> goes_first((#[trigger] rows[i])@, p@, key)
}

/// The listing is ordered by what `sort_by` names and cut at `top`; a name that
/// stands for no order is refused. It counts its rows, and may be incomplete where
/// they are as many as could be asked for.
pub proof fn law_process_listing_is_as_asked(
    args: Json,
    limit: usize,
    processes: Vec<ProcessInfo>,
    r: Result<ProcessList, WinkitError>,
)
    requires
        call_ensures(process_list, (&args, limit, processes), r),
    ensures
        r is Err <==> {
            let s = args@.text_at("sort_by"@);
            s is Some && s->0 != "memory"@ && s->0 != "cpu_time"@ && s->0 != "name"@ && s->0
                != "pid"@
        },
        r matches Err(e) ==> e.kind == ErrorKind::InvalidArgument,
        r matches Ok(l) ==> {
            &&& l.count == l.processes@.len()
            &&& l.truncated <==> l.processes@.len() == limit
            &&& l.command_line_capped_at == 300
            &&& args@.text_at("sort_by"@) == Some("memory"@) ==> arranged(
                l.processes@,
                processes@,
                SortKey::Memory,
                usize_at(args@, "top"@),
            )
            &&& args@.text_at("sort_by"@) == Some("cpu_time"@) ==> arranged(
                l.processes@,
                processes@,
                SortKey::CpuTime,
                usize_at(args@, "top"@),
            )
            &&& args@.text_at("sort_by"@) == Some("name"@) ==> arranged(
                l.processes@,
                processes@,
                SortKey::Name,
                usize_at(args@, "top"@),
            )
            &&& args@.text_at("sort_by"@) == Some("pid"@) ==> arranged(
                l.processes@,
                processes@,
                SortKey::Pid,
                usize_at(args@, "top"@),
            )
            &&& args@.text_at("sort_by"@) is None ==> arranged(
                l.processes@,
                processes@,
                SortKey::Given,
                usize_at(args@, "top"@),
            )
        },
{
    reveal_strlit("memory");
    assert("memory"@.len() == 6);
    reveal_strlit("cpu_time");
    assert("cpu_time"@.len() == 8);
    reveal_strlit("name");
    assert("name"@.len() == 4);
    reveal_strlit("pid");
    assert("pid"@.len() == 3);
}

/// A process that was asked for is given as the machine has it. Where the machine has
/// none of that number, the number is refused with its name in words; so is anything
/// that is no process number, before the machine is asked.
pub proof fn law_processes_are_got_by_number<B: WindowsBackend>(
    backend: B,
    args: Json,
    r: Result<ProcessInfo, WinkitError>,
)
    requires
        call_ensures(get_process_handler::<B>, (&backend, &args), r),
    ensures
        ({
            let pid = args@.uint_at("pid"@);
            if pid is None || pid->0 == 0 || pid->0 > 4294967295 {
                r is Err && r->Err_0.kind == ErrorKind::InvalidArgument
            } else {
                exists|answer: Result<Option<ProcessInfo>, WinkitError>| #[trigger]
                    call_ensures(B::get_process, (&backend, pid->0 as u32), answer) && match answer {
                        Ok(Some(p)) => r is Ok && r->Ok_0 == p,
                        Ok(None) => r is Err && r->Err_0.kind == ErrorKind::InvalidArgument
                            && r->Err_0.message@ == "no process with pid "@ + decimal(
                            pid->0 as nat,
                        ) + " is running"@,
                        Err(e) => r is Err && r->Err_0 == e,
                    }
            }
        }),
{
}

/// A tree is asked of the machine no deeper than is allowed, and with between one and
/// 2000 processes, 500 where no number is given; what the machine gives is handed on
/// with those bounds.
pub proof fn law_trees_are_bounded<B: WindowsBackend>(
    backend: B,
    args: Json,
    max_find_depth: u32,
    r: Result<ProcessTree, WinkitError>,
)
    requires
        max_find_depth >= 1,
        call_ensures(get_process_tree_handler::<B>, (&backend, &args, max_find_depth), r),
    ensures
        r matches Ok(t) ==> {
            &&& args@.uint_at("pid"@) == Some(t.pid as u64)
            &&& 1 <= t.max_depth <= max_find_depth
            &&& u32_at(args@, "max_depth"@) is None ==> t.max_depth == max_find_depth
            &&& u32_at(args@, "max_depth"@) matches Some(d) ==> (1 <= d <= max_find_depth
                ==> t.max_depth == d)
            &&& 1 <= t.max_nodes <= 2000
            &&& usize_at(args@, "max_nodes"@) is None ==> t.max_nodes == 500
            &&& usize_at(args@, "max_nodes"@) matches Some(n) ==> (1 <= n <= 2000 ==> t.max_nodes
                == n)
            &&& call_ensures(
                B::get_process_tree,
                (&backend, t.pid, t.max_depth, t.max_nodes),
                Ok(Some(t.root)),
            )
        },
{
}

/// A search asks the machine for the name without the white space around it: `name`,
/// or `query` where there is none. No name, an empty one and one of more than 256
/// bytes are refused.
pub proof fn law_searches_have_a_name<B: WindowsBackend>(
    backend: B,
    args: Json,
    max_processes: usize,
    r: Result<Listing<ProcessInfo>, WinkitError>,
)
    requires
        max_processes >= 1,
        call_ensures(find_process_handler::<B>, (&backend, &args, max_processes), r),
    ensures
        ({
            let s = if args@.text_at("name"@) is Some {
                args@.text_at("name"@)
            } else {
                args@.text_at("query"@)
            };
            if s is None || trimmed(s->0).len() == 0 || utf8_len(trimmed(s->0)) > 256 {
                r is Err && r->Err_0.kind == ErrorKind::InvalidArgument
            } else {
                exists|needle: &str, limit: usize, answer: Result<Vec<ProcessInfo>, WinkitError>|
                    {
                        &&& needle@ == trimmed(s->0)
                        &&& 1 <= limit <= max_processes
                        &&& #[trigger] call_ensures(
                            B::find_process,
                            (&backend, needle, limit),
                            answer,
                        )
                        &&& answer is Ok <==> r is Ok
                        &&& answer is Ok ==> r->Ok_0.items@ == answer->Ok_0@ && r->Ok_0.count
                            == answer->Ok_0@.len()
                        &&& answer is Err ==> r->Err_0 == answer->Err_0
                    }
            }
        }),
{
    match wanted_name(args@) {
        Ok(name) => {
            let limit = limit_for(usize_at(args@, "limit"@), max_processes);
            let (needle, answer) = choose|
                needle: &str,
                answer: Result<Vec<ProcessInfo>, WinkitError>,
            |
                needle@ == name && #[trigger] call_ensures(
                    B::find_process,
                    (&backend, needle, limit),
                    answer,
                ) && (match answer {
                    Ok(processes) => r matches Ok(l) && lists(l, processes@, limit),
                    Err(e) => r == Err::<Listing<ProcessInfo>, WinkitError>(e),
                });
            assert(call_ensures(B::find_process, (&backend, needle, limit), answer));
        },
        Err(_) => {},
    }
}

} // verus!
