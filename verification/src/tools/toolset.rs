//! The tools that are offered: their definitions, their profiles and the
//! registry that holds them.

use crate::errors::{err_view, res_view, ErrorKind, ErrorView, WinkitError};
use crate::json::{Json, JsonView};
use crate::models::copy_texts;
use crate::order::{
    key_less, key_of_text, lemma_key_irreflexive, lemma_key_total, lemma_key_transitive,
    lemma_text_key_injective, text_key, text_lt,
};
use crate::permissions::{check_permission, denial, grants, Capability, PermissionMode};
use crate::server::profiles::ToolProfile;
use crate::text::{concat2, concat3, decimal, decimal_text, same, views};
use vstd::prelude::*;
use vstd::string::*;

verus! {

/// One tool.
pub struct ToolDefinition {
    pub name: &'static str,
    pub description: &'static str,
    pub input_schema: Json,
    /// What the tool reads.
    pub capability: Option<Capability>,
    /// How long the tool may take, where it has a time of its own.
    pub timeout_ms: Option<u64>,
}

/// [`ToolDefinition`] taken by its views.
pub struct ToolView {
    pub name: Seq<char>,
    pub description: Seq<char>,
    pub input_schema: JsonView,
    pub capability: Option<Capability>,
    pub timeout_ms: Option<u64>,
}

impl View for ToolDefinition {
    type V = ToolView;

    open spec fn view(&self) -> ToolView {
        ToolView {
            name: self.name@,
            description: self.description@,
            input_schema: self.input_schema@,
            capability: self.capability,
            timeout_ms: self.timeout_ms,
        }
    }
}

/// The tools of the profile `core`.
pub open spec fn core_tools() -> Seq<Seq<char>> {
    seq![
        "workspace_snapshot"@,
        "system_health"@,
        "list_processes"@,
        "list_listening_ports"@,
        "privacy_info"@,
        "tool_guide"@,
    ]
}

/// The tools that the profiles `developer` and `full` add.
pub open spec fn developer_tools() -> Seq<Seq<char>> {
    seq![
        "system_info"@,
        "snapshot"@,
        "get_process"@,
        "get_process_tree"@,
        "find_process"@,
        "find_process_on_port"@,
        "list_network_interfaces"@,
        "list_connections"@,
        "list_drives"@,
        "disk_usage"@,
        "list_services"@,
        "get_service"@,
        "get_recent_events"@,
        "get_application_errors"@,
        "get_system_errors"@,
        "crash_history"@,
        "shutdown_analysis"@,
        "registry_diagnostics"@,
        "list_windows"@,
        "system_diagnose"@,
        "hardware_snapshot"@,
        "thermal_snapshot"@,
        "battery_status"@,
        "power_status"@,
        "disk_health"@,
        "disk_performance"@,
        "network_snapshot"@,
        "network_diagnose"@,
        "wifi_status"@,
        "wifi_scan"@,
        "startup_programs"@,
        "audit_path_env"@,
        "system_update_status"@,
        "read_text_file"@,
        "find_files"@,
        "directory_overview"@,
        "dev_environment"@,
        "list_dev_servers"@,
        "diagnose_workspace"@,
        "diagnose_local_webapp"@,
        "wait_for_port"@,
        "wait_for_http"@,
        "wait_for_process"@,
        "correlate_recent_failures"@,
        "system_health_trend"@,
    ]
}

/// Is the tool one of those that `core` leaves out? A tool that no profile
/// names is in every profile.
pub open spec fn beyond_core(name: Seq<char>) -> bool {
    developer_tools().contains(name)
}

/// Is the tool offered in the profile?
pub open spec fn in_profile(name: Seq<char>, profile: ToolProfile) -> bool {
    profile != ToolProfile::Core || !beyond_core(name)
}

/// The profiles of a tool.
pub open spec fn profiles_of(name: Seq<char>) -> Seq<ToolProfile> {
    if beyond_core(name) {
        seq![ToolProfile::Developer, ToolProfile::Full]
    } else {
        seq![ToolProfile::Core, ToolProfile::Developer, ToolProfile::Full]
    }
}

fn leaves_core(name: &str) -> (r: bool)
    ensures
        r == beyond_core(name@),
{
    let listed: [&'static str; 45] = [
        "system_info",
        "snapshot",
        "get_process",
        "get_process_tree",
        "find_process",
        "find_process_on_port",
        "list_network_interfaces",
        "list_connections",
        "list_drives",
        "disk_usage",
        "list_services",
        "get_service",
        "get_recent_events",
        "get_application_errors",
        "get_system_errors",
        "crash_history",
        "shutdown_analysis",
        "registry_diagnostics",
        "list_windows",
        "system_diagnose",
        "hardware_snapshot",
        "thermal_snapshot",
        "battery_status",
        "power_status",
        "disk_health",
        "disk_performance",
        "network_snapshot",
        "network_diagnose",
        "wifi_status",
        "wifi_scan",
        "startup_programs",
        "audit_path_env",
        "system_update_status",
        "read_text_file",
        "find_files",
        "directory_overview",
        "dev_environment",
        "list_dev_servers",
        "diagnose_workspace",
        "diagnose_local_webapp",
        "wait_for_port",
        "wait_for_http",
        "wait_for_process",
        "correlate_recent_failures",
        "system_health_trend",
    ];
    let ghost all = developer_tools();
    let mut i: usize = 0;
    while i < 45
        invariant
            i <= 45,
            all == developer_tools(),
            all.len() == 45,
            forall|k: int| 0 <= k < 45 ==> (#[trigger] listed@[k])@ == all[k],
            forall|k: int| 0 <= k < i ==> all[k] != name@,
        decreases 45 - i,
    {
        if same(name, listed[i]) {
            assert(all[i as int] == name@);
            return true;
        }
        i = i + 1;
    }
    false
}

/// The profiles of a tool, from the smallest.
pub fn tool_profiles(name: &str) -> (r: Vec<ToolProfile>)
    ensures
        r@ == profiles_of(name@),
{
    if leaves_core(name) {
        vec![ToolProfile::Developer, ToolProfile::Full]
    } else {
        vec![ToolProfile::Core, ToolProfile::Developer, ToolProfile::Full]
    }
}

/// Is the tool offered in the profile?
pub fn tool_in_profile(name: &str, profile: ToolProfile) -> (r: bool)
    ensures
        r == in_profile(name@, profile),
        r == profiles_of(name@).contains(profile),
{
    proof {
        let two = seq![ToolProfile::Developer, ToolProfile::Full];
        let three = seq![ToolProfile::Core, ToolProfile::Developer, ToolProfile::Full];
        assert(two[0] == ToolProfile::Developer && two[1] == ToolProfile::Full);
        assert(three[0] == ToolProfile::Core && three[1] == ToolProfile::Developer && three[2]
            == ToolProfile::Full);
    }
    match profile {
        ToolProfile::Core => !leaves_core(name),
        _ => true,
    }
}

/// What is said of a tool that the profile leaves out.
pub open spec fn gate_words(name: Seq<char>, profile: ToolProfile) -> Seq<char> {
    "tool '"@ + name + ("' is not available in tool profile '"@ + profile.name() + ("'"@ + if beyond_core(
        name,
    ) {
        "; this developer workflow tool is only enabled in tool profile 'developer' or 'full'"@
    } else {
        ""@
    }))
}

/// What is said of a tool that the profile leaves out.
pub fn profile_gate_message(name: &str, profile: ToolProfile) -> (r: String)
    ensures
        r@ == gate_words(name@, profile),
{
    let hint = if leaves_core(name) {
        "; this developer workflow tool is only enabled in tool profile 'developer' or 'full'"
    } else {
        ""
    };
    concat3(
        "tool '",
        name,
        &concat3(
            "' is not available in tool profile '",
            profile.as_str(),
            &concat2("'", hint),
        ),
    )
}

/// The capability of a tool that changes something. No tool does.
pub fn tool_action_capability(_name: &str) -> (r: Option<Capability>)
    ensures
        r is None,
{
    None
}

/// What `core` offers `developer` offers too, and `full` offers every tool.
pub proof fn law_profiles_are_nested(name: Seq<char>)
    ensures
        in_profile(name, ToolProfile::Core) ==> in_profile(name, ToolProfile::Developer),
        in_profile(name, ToolProfile::Developer) ==> in_profile(name, ToolProfile::Full),
        in_profile(name, ToolProfile::Full),
        profiles_of(name).len() > 0,
{
}

/// The registry of tools.
pub struct ToolRegistry {
    tools: Vec<ToolDefinition>,
    disabled: Vec<String>,
    profile: ToolProfile,
}

/// The registry taken by its views: the tools by name, in order.
pub struct RegistryView {
    pub tools: Seq<ToolView>,
    pub disabled: Seq<Seq<char>>,
    pub profile: ToolProfile,
}

/// The definitions taken by their views.
pub open spec fn tool_views(tools: Seq<ToolDefinition>) -> Seq<ToolView> {
    tools.map_values(|t: ToolDefinition| t@)
}

/// Do the tools stand in the order of their names, each name once?
pub open spec fn in_name_order(tools: Seq<ToolView>) -> bool {
    forall|i: int, j: int|
        0 <= i < j < tools.len() ==> text_lt((#[trigger] tools[i]).name, (#[trigger] tools[j]).name)
}

/// Is there a tool of this name?
pub open spec fn has_tool(tools: Seq<ToolView>, name: Seq<char>) -> bool {
    exists|i: int| 0 <= i < tools.len() && (#[trigger] tools[i]).name == name
}

/// The tool of a name.
pub open spec fn tool_of(tools: Seq<ToolView>, name: Seq<char>) -> ToolView {
    tools[choose|i: int| 0 <= i < tools.len() && (#[trigger] tools[i]).name == name]
}

/// The tools as a map from their names.
pub open spec fn tool_map(tools: Seq<ToolView>) -> Map<Seq<char>, ToolView> {
    Map::new(|name: Seq<char>| has_tool(tools, name), |name: Seq<char>| tool_of(tools, name))
}

/// The names of the tools.
pub open spec fn tool_names(tools: Seq<ToolView>) -> Seq<Seq<char>> {
    tools.map_values(|t: ToolView| t.name)
}

/// In a list in name order every tool is found by its name.
pub proof fn lemma_tool_of(tools: Seq<ToolView>, i: int)
    requires
        in_name_order(tools),
        0 <= i < tools.len(),
    ensures
        has_tool(tools, tools[i].name),
        tool_of(tools, tools[i].name) == tools[i],
{
    let name = tools[i].name;
    assert(tools[i].name == name);
    let j = choose|j: int| 0 <= j < tools.len() && (#[trigger] tools[j]).name == name;
    lemma_key_irreflexive(text_key(name));
    if j < i {
        assert(text_lt(tools[j].name, tools[i].name));
    } else if i < j {
        assert(text_lt(tools[i].name, tools[j].name));
    }
}

/// Two lists in name order with the same tools are the same list.
pub proof fn law_name_order_is_unique(a: Seq<ToolView>, b: Seq<ToolView>)
    requires
        in_name_order(a),
        in_name_order(b),
        tool_map(a) == tool_map(b),
    ensures
        a == b,
    decreases a.len(),
{
    assert forall|i: int| 0 <= i < a.len() implies has_tool(b, (#[trigger] a[i]).name) by {
        lemma_tool_of(a, i);
        assert(tool_map(a).dom().contains(a[i].name));
        assert(tool_map(b).dom().contains(a[i].name));
    }
    assert forall|i: int| 0 <= i < b.len() implies has_tool(a, (#[trigger] b[i]).name) by {
        lemma_tool_of(b, i);
        assert(tool_map(b).dom().contains(b[i].name));
        assert(tool_map(a).dom().contains(b[i].name));
    }
    if a.len() == 0 {
        if b.len() > 0 {
            assert(has_tool(a, b[0].name));
        }
        assert(a =~= b);
    } else {
        assert(has_tool(b, a[a.len() - 1].name));
        let last = a.len() - 1;
        let end = b.len() - 1;
        // The last names agree: each is found in the other list, at or before its end.
        let j = choose|j: int| 0 <= j < b.len() && (#[trigger] b[j]).name == a[last].name;
        assert(has_tool(a, b[end].name));
        let i = choose|i: int| 0 <= i < a.len() && (#[trigger] a[i]).name == b[end].name;
        if j < end {
            assert(text_lt(b[j].name, b[end].name));
            if i < last {
                assert(text_lt(a[i].name, a[last].name));
                lemma_key_transitive(
                    text_key(a[last].name),
                    text_key(b[end].name),
                    text_key(a[last].name),
                );
            }
            lemma_key_irreflexive(text_key(a[last].name));
        }
        assert(b[end].name == a[last].name);
        lemma_tool_of(a, last);
        lemma_tool_of(b, end);
        assert(tool_map(a).dom().contains(a[last].name));
        assert(tool_map(b).dom().contains(b[end].name));
        assert(tool_map(a)[a[last].name] == tool_of(a, a[last].name));
        assert(tool_map(b)[b[end].name] == tool_of(b, b[end].name));
        assert(a[last] == b[end]);
        let ra = a.drop_last();
        let rb = b.drop_last();
        assert forall|x: int, y: int| 0 <= x < y < ra.len() implies text_lt(
            (#[trigger] ra[x]).name,
            (#[trigger] ra[y]).name,
        ) by {
            assert(ra[x] == a[x] && ra[y] == a[y]);
        }
        assert forall|x: int, y: int| 0 <= x < y < rb.len() implies text_lt(
            (#[trigger] rb[x]).name,
            (#[trigger] rb[y]).name,
        ) by {
            assert(rb[x] == b[x] && rb[y] == b[y]);
        }
        lemma_without_last(a);
        lemma_without_last(b);
        law_name_order_is_unique(ra, rb);
        assert(a =~= ra.push(a[last]));
        assert(b =~= rb.push(b[end]));
    }
}

proof fn lemma_without_last(tools: Seq<ToolView>)
    requires
        in_name_order(tools),
        tools.len() > 0,
    ensures
        in_name_order(tools.drop_last()),
        tool_map(tools.drop_last()) == tool_map(tools).remove(tools.last().name),
{
    let rest = tools.drop_last();
    let m = tool_map(rest);
    let n = tool_map(tools).remove(tools.last().name);
    assert forall|x: int, y: int| 0 <= x < y < rest.len() implies text_lt(
        (#[trigger] rest[x]).name,
        (#[trigger] rest[y]).name,
    ) by {
        assert(rest[x] == tools[x] && rest[y] == tools[y]);
    }
    assert forall|name: Seq<char>| #[trigger] m.dom().contains(name) implies n.dom().contains(name)
        && m[name] == n[name] by {
        let i = choose|i: int| 0 <= i < rest.len() && (#[trigger] rest[i]).name == name;
        lemma_tool_of(rest, i);
        assert(tools[i] == rest[i]);
        lemma_tool_of(tools, i);
        assert(text_lt(tools[i].name, tools[tools.len() - 1].name));
        lemma_key_irreflexive(text_key(name));
    }
    assert forall|name: Seq<char>| #[trigger] n.dom().contains(name) implies m.dom().contains(
        name,
    ) by {
        let i = choose|i: int| 0 <= i < tools.len() && (#[trigger] tools[i]).name == name;
        assert(i < rest.len());
        assert(rest[i].name == name);
    }
    assert(m =~= n);
}

/// Where a name belongs among tools in name order.
pub open spec fn place_of(tools: Seq<ToolView>, name: Seq<char>, at: int) -> bool {
    &&& 0 <= at <= tools.len()
    &&& forall|i: int| 0 <= i < at ==> text_lt((#[trigger] tools[i]).name, name)
    &&& forall|i: int| at <= i < tools.len() ==> !text_lt((#[trigger] tools[i]).name, name)
}

/// A tool set into its place keeps the order, and the map gains just that tool.
proof fn lemma_placed(tools: Seq<ToolView>, tool: ToolView, at: int)
    requires
        in_name_order(tools),
        place_of(tools, tool.name, at),
    ensures
        ({
            let found = at < tools.len() && tools[at].name == tool.name;
            let after = if found {
                tools.update(at, tool)
            } else {
                tools.insert(at, tool)
            };
            in_name_order(after) && tool_map(after) == tool_map(tools).insert(tool.name, tool)
        }),
{
    let found = at < tools.len() && tools[at].name == tool.name;
    let after = if found {
        tools.update(at, tool)
    } else {
        tools.insert(at, tool)
    };
    assert forall|i: int| at <= i < tools.len() && !(found && i == at) implies text_lt(
        tool.name,
        (#[trigger] tools[i]).name,
    ) by {
        lemma_key_total(text_key(tools[i].name), text_key(tool.name));
        if text_key(tools[i].name) == text_key(tool.name) {
            lemma_text_key_injective(tools[i].name, tool.name);
            if found {
                assert(text_lt(tools[at].name, tools[i].name));
                lemma_key_irreflexive(text_key(tool.name));
            } else {
                // At its place stands another name, so this one stands further on.
                assert(at < i);
                lemma_key_total(text_key(tools[at].name), text_key(tool.name));
                assert(text_lt(tools[at].name, tools[i].name));
            }
        }
    }
    assert forall|x: int, y: int| 0 <= x < y < after.len() implies text_lt(
        (#[trigger] after[x]).name,
        (#[trigger] after[y]).name,
    ) by {
        if found {
            if x != at {
                assert(after[x] == tools[x]);
            }
            if y != at {
                assert(after[y] == tools[y]);
            }
            assert(text_lt(tools[x].name, tools[y].name));
        } else {
            let p = if x < at {
                x
            } else {
                x - 1
            };
            let q = if y < at {
                y
            } else {
                y - 1
            };
            if x != at {
                assert(after[x] == tools[p]);
            }
            if y != at {
                assert(after[y] == tools[q]);
            }
            if x != at && y != at {
                assert(text_lt(tools[p].name, tools[q].name));
            }
        }
    }
    let m = tool_map(after);
    let n = tool_map(tools).insert(tool.name, tool);
    assert(after[at] == tool);
    lemma_tool_of(after, at);
    assert forall|name: Seq<char>| #[trigger] m.dom().contains(name) implies n.dom().contains(name)
        && m[name] == n[name] by {
        let i = choose|i: int| 0 <= i < after.len() && (#[trigger] after[i]).name == name;
        lemma_tool_of(after, i);
        if i != at {
            let p = if found || i < at {
                i
            } else {
                i - 1
            };
            assert(after[i] == tools[p]);
            lemma_tool_of(tools, p);
            lemma_key_irreflexive(text_key(name));
            if i < at {
                assert(text_lt(after[i].name, after[at].name));
            } else {
                assert(text_lt(after[at].name, after[i].name));
            }
        }
    }
    assert forall|name: Seq<char>| #[trigger] n.dom().contains(name) implies m.dom().contains(
        name,
    ) by {
        if name != tool.name {
            let i = choose|i: int| 0 <= i < tools.len() && (#[trigger] tools[i]).name == name;
            let p = if found || i < at {
                i
            } else {
                i + 1
            };
            assert(after[p] == tools[i]);
            assert(after[p].name == name);
        }
    }
    assert(m =~= n);
}

/// Is the tool offered: in the profile and not switched off?
pub open spec fn offered(r: RegistryView, name: Seq<char>) -> bool {
    in_profile(name, r.profile) && !r.disabled.contains(name)
}

/// The tools that are offered, in the order of their names.
pub open spec fn offered_tools(r: RegistryView) -> Seq<ToolView> {
    r.tools.filter(|t: ToolView| offered(r, t.name))
}

/// On what terms tools are called.
#[derive(Debug, Clone, Copy)]
pub struct CallTerms {
    /// What a tool may do.
    pub mode: PermissionMode,
    /// How long a tool may take that has no time of its own, in milliseconds.
    pub operation_timeout_ms: u64,
}

/// What a call of a tool is answered before the tool runs: how long it may
/// take, or why it is refused.
pub open spec fn call_gate(r: RegistryView, name: Seq<char>, terms: CallTerms) -> Result<
    u64,
    ErrorView,
> {
    if !has_tool(r.tools, name) {
        Err(unknown_tool(name))
    } else if !grants(terms.mode, tool_of(r.tools, name).capability) {
        Err(denial(terms.mode, name))
    } else if r.disabled.contains(name) {
        Err(err_view(ErrorKind::InvalidArgument, "tool '"@ + name + "' is disabled by configuration"@))
    } else if !in_profile(name, r.profile) {
        Err(err_view(ErrorKind::InvalidArgument, gate_words(name, r.profile)))
    } else {
        match tool_of(r.tools, name).timeout_ms {
            Some(t) => Ok(t),
            None => Ok(terms.operation_timeout_ms),
        }
    }
}

/// The refusal of a tool that does not exist.
pub open spec fn unknown_tool(name: Seq<char>) -> ErrorView {
    err_view(ErrorKind::InvalidArgument, "unknown tool '"@ + name + "'"@)
}

/// The error of a tool that took too long.
pub open spec fn overran(name: Seq<char>, timeout_ms: u64) -> ErrorView {
    err_view(
        ErrorKind::Timeout,
        "tool '"@ + name + ("' exceeded the "@ + decimal(timeout_ms as nat) + " ms timeout"@),
    )
}

/// One row of a tool listing.
pub struct ToolRow {
    pub name: String,
    pub description: String,
    pub input_schema: Json,
}

/// Does the row show the tool?
pub open spec fn shows(row: ToolRow, t: ToolView) -> bool {
    row.name@ == t.name && row.description@ == t.description && row.input_schema@ == t.input_schema
}

impl ToolRegistry {
    /// The registry taken by its views.
    pub closed spec fn view(&self) -> RegistryView {
        RegistryView {
            tools: tool_views(self.tools@),
            disabled: views(self.disabled@),
            profile: self.profile,
        }
    }

    /// The tools stand in the order of their names, each name once.
    pub open spec fn wf(&self) -> bool {
        in_name_order(self.view().tools)
    }

    /// A registry without tools.
    pub fn new(disabled: &Vec<String>, profile: ToolProfile) -> (r: Self)
        ensures
            r.wf(),
            r.view().tools.len() == 0,
            r.view().disabled == views(disabled@),
            r.view().profile == profile,
    {
        ToolRegistry { tools: Vec::new(), disabled: copy_texts(disabled), profile }
    }

    fn place(&self, name: &str) -> (r: usize)
        requires
            self.wf(),
        ensures
            place_of(self.view().tools, name@, r as int),
    {
        let key = key_of_text(name);
        let mut i: usize = 0;
        while i < self.tools.len()
            invariant
                self.wf(),
                key@ == text_key(name@),
                i <= self.tools@.len(),
                forall|k: int|
                    0 <= k < i ==> text_lt((#[trigger] self.view().tools[k]).name, name@),
            decreases self.tools@.len() - i,
        {
            assert(self.view().tools[i as int].name == self.tools@[i as int].name@);
            if !key_less(&key_of_text(self.tools[i].name), &key) {
                assert forall|k: int| i <= k < self.view().tools.len() implies !text_lt(
                    (#[trigger] self.view().tools[k]).name,
                    name@,
                ) by {
                    if i < k && text_lt(self.view().tools[k].name, name@) {
                        assert(text_lt(self.view().tools[i as int].name, self.view().tools[k].name));
                        lemma_key_transitive(
                            text_key(self.view().tools[i as int].name),
                            text_key(self.view().tools[k].name),
                            text_key(name@),
                        );
                    }
                }
                return i;
            }
            i = i + 1;
        }
        i
    }

    /// Puts a tool in. One that had its name gives way.
    pub fn register(&mut self, tool: ToolDefinition)
        requires
            old(self).wf(),
        ensures
            final(self).wf(),
            tool_map(final(self).view().tools) == tool_map(old(self).view().tools).insert(
                tool@.name,
                tool@,
            ),
            final(self).view().disabled == old(self).view().disabled,
            final(self).view().profile == old(self).view().profile,
    {
        let at = self.place(tool.name);
        let ghost before = self.view().tools;
        proof {
            lemma_placed(before, tool@, at as int);
            if at < self.tools@.len() {
                assert(before[at as int].name == self.tools@[at as int].name@);
            }
        }
        let ghost placed = tool@;
        if at < self.tools.len() && same(self.tools[at].name, tool.name) {
            self.tools.set(at, tool);
            assert(self.view().tools =~= before.update(at as int, placed));
        } else {
            self.tools.insert(at, tool);
            assert(self.view().tools =~= before.insert(at as int, placed));
        }
    }

    /// The tool of a name.
    pub fn get(&self, name: &str) -> (r: Option<&ToolDefinition>)
        requires
            self.wf(),
        ensures
            match r {
                Some(t) => has_tool(self.view().tools, name@) && t@ == tool_of(
                    self.view().tools,
                    name@,
                ) && t@.name == name@,
                None => !has_tool(self.view().tools, name@),
            },
    {
        let mut i: usize = 0;
        while i < self.tools.len()
            invariant
                self.wf(),
                i <= self.tools@.len(),
                forall|k: int| 0 <= k < i ==> (#[trigger] self.view().tools[k]).name != name@,
            decreases self.tools@.len() - i,
        {
            assert(self.view().tools[i as int] == self.tools@[i as int]@);
            if same(self.tools[i].name, name) {
                proof {
                    lemma_tool_of(self.view().tools, i as int);
                }
                return Some(&self.tools[i]);
            }
            i = i + 1;
        }
        None
    }

    /// The names of all tools, in order.
    pub fn names(&self) -> (r: Vec<String>)
        ensures
            views(r@) == tool_names(self.view().tools),
    {
        let mut out: Vec<String> = Vec::new();
        let mut i: usize = 0;
        while i < self.tools.len()
            invariant
                i <= self.tools@.len(),
                out@.len() == i,
                forall|k: int| 0 <= k < i ==> (#[trigger] out@[k])@ == self.tools@[k].name@,
            decreases self.tools@.len() - i,
        {
            out.push(self.tools[i].name.to_string());
            i = i + 1;
        }
        assert(views(out@) =~= tool_names(self.view().tools));
        out
    }

    /// The names of all tools, in order, whatever the profile.
    pub fn all_names(&self) -> (r: Vec<String>)
        ensures
            views(r@) == tool_names(self.view().tools),
    {
        self.names()
    }

    /// The profile in use.
    pub fn profile(&self) -> (r: ToolProfile)
        ensures
            r == self.view().profile,
    {
        self.profile
    }

    /// Is the tool switched off?
    pub fn is_disabled(&self, name: &str) -> (r: bool)
        ensures
            r == self.view().disabled.contains(name@),
    {
        let mut i: usize = 0;
        while i < self.disabled.len()
            invariant
                i <= self.disabled@.len(),
                forall|k: int| 0 <= k < i ==> (#[trigger] self.view().disabled[k]) != name@,
            decreases self.disabled@.len() - i,
        {
            assert(self.view().disabled[i as int] == self.disabled@[i as int]@);
            if same(&self.disabled[i], name) {
                return true;
            }
            i = i + 1;
        }
        false
    }

    /// The rows of the tool listing: the tools that are offered, in the order
    /// of their names.
    pub fn schemas(&self) -> (r: Vec<ToolRow>)
        requires
            self.wf(),
        ensures
            r@.len() == offered_tools(self.view()).len(),
            forall|i: int|
                0 <= i < r@.len() ==> shows(#[trigger] r@[i], offered_tools(self.view())[i]),
    {
        let mut out: Vec<ToolRow> = Vec::new();
        let ghost all = self.view().tools;
        let ghost keep = |t: ToolView| offered(self.view(), t.name);
        let mut i: usize = 0;
        proof {
            reveal(Seq::filter);
            assert(all.take(0).filter(keep) =~= Seq::<ToolView>::empty());
        }
        while i < self.tools.len()
            invariant
                all == self.view().tools,
                keep == (|t: ToolView| offered(self.view(), t.name)),
                i <= self.tools@.len(),
                out@.len() == all.take(i as int).filter(keep).len(),
                forall|k: int|
                    0 <= k < out@.len() ==> shows(
                        #[trigger] out@[k],
                        all.take(i as int).filter(keep)[k],
                    ),
            decreases self.tools@.len() - i,
        {
            let t = &self.tools[i];
            proof {
                reveal(Seq::filter);
                assert(all.take(i + 1).drop_last() =~= all.take(i as int));
                assert(all.take(i + 1).last() == t@);
            }
            if tool_in_profile(t.name, self.profile) && !self.is_disabled(t.name) {
                out.push(
                    ToolRow {
                        name: t.name.to_string(),
                        description: t.description.to_string(),
                        input_schema: t.input_schema.copy(),
                    },
                );
            }
            i = i + 1;
        }
        assert(all.take(all.len() as int) =~= all);
        out
    }

    /// How long a call of the tool may take, or why it is refused: the tool is
    /// unknown, not permitted, switched off, or not in the profile.
    pub fn check_call(&self, name: &str, terms: CallTerms) -> (r: Result<u64, WinkitError>)
        requires
            self.wf(),
        ensures
            res_view(r) == call_gate(self.view(), name@, terms),
    {
        match self.get(name) {
            None => Err(WinkitError::invalid_argument(&concat3("unknown tool '", name, "'"))),
            Some(tool) => {
                match check_permission(terms.mode, tool.capability, name) {
                    Ok(_) => {},
                    Err(e) => {
                        return Err(e);
                    },
                }
                if self.is_disabled(name) {
                    return Err(
                        WinkitError::invalid_argument(
                            &concat3("tool '", name, "' is disabled by configuration"),
                        ),
                    );
                }
                if !tool_in_profile(name, self.profile) {
                    return Err(
                        WinkitError::invalid_argument(&profile_gate_message(name, self.profile)),
                    );
                }
                match tool.timeout_ms {
                    Some(t) => Ok(t),
                    None => Ok(terms.operation_timeout_ms),
                }
            },
        }
    }
}

/// The error of a tool that took too long.
pub fn timeout_error(name: &str, timeout_ms: u64) -> (r: WinkitError)
    ensures
        r@ == overran(name@, timeout_ms),
{
    WinkitError::timeout(
        &concat3(
            "tool '",
            name,
            &concat3("' exceeded the ", &decimal_text(timeout_ms), " ms timeout"),
        ),
    )
}

/// A call of a tool is let through exactly where the tool is listed and the
/// permission mode grants what it declares.
pub proof fn law_listed_is_callable(r: RegistryView, name: Seq<char>, terms: CallTerms)
    requires
        in_name_order(r.tools),
    ensures
        call_gate(r, name, terms) is Ok <==> has_tool(offered_tools(r), name) && grants(
            terms.mode,
            tool_of(r.tools, name).capability,
        ),
{
    let keep = |t: ToolView| offered(r, t.name);
    let rows = offered_tools(r);
    if has_tool(rows, name) {
        let i = choose|i: int| 0 <= i < rows.len() && (#[trigger] rows[i]).name == name;
        r.tools.lemma_filter_pred(keep, i);
        assert(rows.contains(rows[i]));
        r.tools.lemma_filter_contains_rev(keep, rows[i]);
        let j = choose|j: int| 0 <= j < r.tools.len() && r.tools[j] == rows[i];
        assert(r.tools[j].name == name);
    }
    if call_gate(r, name, terms) is Ok {
        let j = choose|j: int| 0 <= j < r.tools.len() && (#[trigger] r.tools[j]).name == name;
        assert(keep(r.tools[j]));
        r.tools.lemma_filter_contains(keep, j);
        let i = choose|i: int| 0 <= i < rows.len() && rows[i] == r.tools[j];
        assert(rows[i].name == name);
    }
}

/// The listing stands in the order of the names, and shows only what is
/// offered.
pub proof fn law_listing_is_in_order(r: RegistryView)
    requires
        in_name_order(r.tools),
    ensures
        in_name_order(offered_tools(r)),
        forall|i: int|
            0 <= i < offered_tools(r).len() ==> offered(r, (#[trigger] offered_tools(r)[i]).name),
{
    let keep = |t: ToolView| offered(r, t.name);
    lemma_filter_in_order(r.tools, keep);
    assert forall|i: int| 0 <= i < offered_tools(r).len() implies offered(
        r,
        (#[trigger] offered_tools(r)[i]).name,
    ) by {
        r.tools.lemma_filter_pred(keep, i);
    }
}

proof fn lemma_filter_in_order(tools: Seq<ToolView>, keep: spec_fn(ToolView) -> bool)
    requires
        in_name_order(tools),
    ensures
        in_name_order(tools.filter(keep)),
    decreases tools.len(),
{
    reveal(Seq::filter);
    if tools.len() > 0 {
        lemma_without_last(tools);
        let rest = tools.drop_last();
        lemma_filter_in_order(rest, keep);
        let kept = rest.filter(keep);
        if keep(tools.last()) {
            let all = tools.filter(keep);
            assert(all =~= kept.push(tools.last()));
            assert forall|i: int, j: int| 0 <= i < j < all.len() implies text_lt(
                (#[trigger] all[i]).name,
                (#[trigger] all[j]).name,
            ) by {
                if j < kept.len() {
                    assert(all[i] == kept[i] && all[j] == kept[j]);
                } else {
                    assert(all[i] == kept[i]);
                    assert(kept.contains(kept[i]));
                    rest.lemma_filter_contains_rev(keep, kept[i]);
                    let k = choose|k: int| 0 <= k < rest.len() && rest[k] == kept[i];
                    assert(tools[k] == rest[k]);
                    assert(text_lt(tools[k].name, tools[tools.len() - 1].name));
                }
            }
        }
    }
}

/// Is the definition complete: a name, a description, an object as schema and
/// one source of permission?
pub open spec fn complete(t: ToolView) -> bool {
    t.name.len() > 0 && t.description.len() > 0 && t.input_schema is Object && t.capability is Some
}

/// What is wrong with the first tool that is not complete.
pub open spec fn defect(t: ToolView) -> ErrorView {
    if t.name.len() == 0 {
        err_view(ErrorKind::InternalError, "tool with empty name registered"@)
    } else if t.description.len() == 0 {
        err_view(ErrorKind::InternalError, "tool '"@ + t.name + "' has no description"@)
    } else if !(t.input_schema is Object) {
        err_view(ErrorKind::InternalError, "tool '"@ + t.name + "' has a non-object input schema"@)
    } else {
        err_view(ErrorKind::InternalError, "tool '"@ + t.name + "' declares no capability"@)
    }
}

/// The number of tools, where every one is complete; else what is wrong with
/// the first that is not.
pub open spec fn integrity(tools: Seq<ToolView>) -> Result<nat, ErrorView>
    decreases tools.len(),
{
    if tools.len() == 0 {
        Ok(0)
    } else {
        match integrity(tools.drop_last()) {
            Err(e) => Err(e),
            Ok(n) => if complete(tools.last()) {
                Ok(n + 1)
            } else {
                Err(defect(tools.last()))
            },
        }
    }
}

proof fn lemma_integrity_early(tools: Seq<ToolView>, n: int)
    requires
        0 <= n <= tools.len(),
        integrity(tools.take(n)) is Err,
    ensures
        integrity(tools) == integrity(tools.take(n)),
    decreases tools.len() - n,
{
    if n < tools.len() {
        assert(tools.take(n + 1).drop_last() =~= tools.take(n));
        lemma_integrity_early(tools, n + 1);
    } else {
        assert(tools.take(n) =~= tools);
    }
}

/// Checks that every tool is complete, and counts them.
pub fn verify_integrity(registry: &ToolRegistry) -> (r: Result<usize, WinkitError>)
    requires
        registry.wf(),
    ensures
        match r {
            Ok(n) => integrity(registry.view().tools) == Ok::<nat, ErrorView>(n as nat),
            Err(e) => integrity(registry.view().tools) == Err::<nat, ErrorView>(e@),
        },
        r is Ok ==> r->Ok_0 == registry.view().tools.len(),
{
    let ghost all = registry.view().tools;
    let mut i: usize = 0;
    assert(all.take(0).len() == 0);
    while i < registry.tools.len()
        invariant
            all == registry.view().tools,
            i <= registry.tools@.len(),
            integrity(all.take(i as int)) == Ok::<nat, ErrorView>(i as nat),
        decreases registry.tools@.len() - i,
    {
        let t = &registry.tools[i];
        let whole = match &t.input_schema {
            Json::Object(_) => true,
            _ => false,
        };
        proof {
            assert(all.take(i + 1).drop_last() =~= all.take(i as int));
            assert(all.take(i + 1).last() == t@);
            if !complete(t@) {
                lemma_integrity_early(all, i + 1);
            }
        }
        if t.name.is_empty() {
            return Err(WinkitError::internal("tool with empty name registered"));
        }
        if t.description.is_empty() {
            return Err(WinkitError::internal(&concat3("tool '", t.name, "' has no description")));
        }
        if !whole {
            return Err(
                WinkitError::internal(&concat3("tool '", t.name, "' has a non-object input schema")),
            );
        }
        if t.capability.is_none() {
            return Err(WinkitError::internal(&concat3("tool '", t.name, "' declares no capability")));
        }
        i = i + 1;
    }
    assert(all.take(all.len() as int) =~= all);
    Ok(registry.tools.len())
}

/// The essentials are offered in every profile; what the developer workflow adds is
/// offered in all but the smallest, and so are its profiles told.
pub proof fn law_essentials_are_in_every_profile(
    name: &str,
    profile: ToolProfile,
    r: bool,
    p: Vec<ToolProfile>,
)
    requires
        call_ensures(tool_in_profile, (name, profile), r),
        call_ensures(tool_profiles, (name,), p),
    ensures
        core_tools().contains(name@) ==> r && p@.len() == 3,
        developer_tools().contains(name@) ==> (r <==> profile != ToolProfile::Core),
        profile == ToolProfile::Developer || profile == ToolProfile::Full ==> r,
        p@.contains(profile) <==> r,
{
    lemma_essentials(name@);
    let two = seq![ToolProfile::Developer, ToolProfile::Full];
    let three = seq![ToolProfile::Core, ToolProfile::Developer, ToolProfile::Full];
    assert(two[0] == ToolProfile::Developer && two[1] == ToolProfile::Full);
    assert(three[0] == ToolProfile::Core && three[1] == ToolProfile::Developer && three[2]
        == ToolProfile::Full);
}

proof fn lemma_essentials(name: Seq<char>)
    ensures
        core_tools().contains(name) ==> !developer_tools().contains(name),
{
    reveal_strlit("workspace_snapshot");
    assert("workspace_snapshot"@.len() == 18);
    reveal_strlit("system_health");
    assert("system_health"@.len() == 13);
    reveal_strlit("list_processes");
    assert("list_processes"@.len() == 14);
    reveal_strlit("list_listening_ports");
    assert("list_listening_ports"@.len() == 20);
    reveal_strlit("privacy_info");
    assert("privacy_info"@.len() == 12);
    reveal_strlit("tool_guide");
    assert("tool_guide"@.len() == 10);
    reveal_strlit("system_info");
    assert("system_info"@.len() == 11);
    reveal_strlit("snapshot");
    assert("snapshot"@.len() == 8);
    reveal_strlit("get_process");
    assert("get_process"@.len() == 11);
    reveal_strlit("get_process_tree");
    assert("get_process_tree"@.len() == 16);
    reveal_strlit("find_process");
    assert("find_process"@.len() == 12);
    reveal_strlit("find_process_on_port");
    assert("find_process_on_port"@.len() == 20);
    reveal_strlit("list_network_interfaces");
    assert("list_network_interfaces"@.len() == 23);
    reveal_strlit("list_connections");
    assert("list_connections"@.len() == 16);
    reveal_strlit("list_drives");
    assert("list_drives"@.len() == 11);
    reveal_strlit("disk_usage");
    assert("disk_usage"@.len() == 10);
    reveal_strlit("list_services");
    assert("list_services"@.len() == 13);
    reveal_strlit("get_service");
    assert("get_service"@.len() == 11);
    reveal_strlit("get_recent_events");
    assert("get_recent_events"@.len() == 17);
    reveal_strlit("get_application_errors");
    assert("get_application_errors"@.len() == 22);
    reveal_strlit("get_system_errors");
    assert("get_system_errors"@.len() == 17);
    reveal_strlit("crash_history");
    assert("crash_history"@.len() == 13);
    reveal_strlit("shutdown_analysis");
    assert("shutdown_analysis"@.len() == 17);
    reveal_strlit("registry_diagnostics");
    assert("registry_diagnostics"@.len() == 20);
    reveal_strlit("list_windows");
    assert("list_windows"@.len() == 12);
    reveal_strlit("system_diagnose");
    assert("system_diagnose"@.len() == 15);
    reveal_strlit("hardware_snapshot");
    assert("hardware_snapshot"@.len() == 17);
    reveal_strlit("thermal_snapshot");
    assert("thermal_snapshot"@.len() == 16);
    reveal_strlit("battery_status");
    assert("battery_status"@.len() == 14);
    reveal_strlit("power_status");
    assert("power_status"@.len() == 12);
    reveal_strlit("disk_health");
    assert("disk_health"@.len() == 11);
    reveal_strlit("disk_performance");
    assert("disk_performance"@.len() == 16);
    reveal_strlit("network_snapshot");
    assert("network_snapshot"@.len() == 16);
    reveal_strlit("network_diagnose");
    assert("network_diagnose"@.len() == 16);
    reveal_strlit("wifi_status");
    assert("wifi_status"@.len() == 11);
    reveal_strlit("wifi_scan");
    assert("wifi_scan"@.len() == 9);
    reveal_strlit("startup_programs");
    assert("startup_programs"@.len() == 16);
    reveal_strlit("audit_path_env");
    assert("audit_path_env"@.len() == 14);
    reveal_strlit("system_update_status");
    assert("system_update_status"@.len() == 20);
    reveal_strlit("read_text_file");
    assert("read_text_file"@.len() == 14);
    reveal_strlit("find_files");
    assert("find_files"@.len() == 10);
    reveal_strlit("directory_overview");
    assert("directory_overview"@.len() == 18);
    reveal_strlit("dev_environment");
    assert("dev_environment"@.len() == 15);
    reveal_strlit("list_dev_servers");
    assert("list_dev_servers"@.len() == 16);
    reveal_strlit("diagnose_workspace");
    assert("diagnose_workspace"@.len() == 18);
    reveal_strlit("diagnose_local_webapp");
    assert("diagnose_local_webapp"@.len() == 21);
    reveal_strlit("wait_for_port");
    assert("wait_for_port"@.len() == 13);
    reveal_strlit("wait_for_http");
    assert("wait_for_http"@.len() == 13);
    reveal_strlit("wait_for_process");
    assert("wait_for_process"@.len() == 16);
    reveal_strlit("correlate_recent_failures");
    assert("correlate_recent_failures"@.len() == 25);
    reveal_strlit("system_health_trend");
    assert("system_health_trend"@.len() == 19);
    assert("workspace_snapshot"@[0] != "directory_overview"@[0]);
    assert("workspace_snapshot"@[0] != "diagnose_workspace"@[0]);
    assert("system_health"@[0] != "list_services"@[0]);
    assert("system_health"@[0] != "crash_history"@[0]);
    assert("system_health"@[0] != "wait_for_port"@[0]);
    assert("system_health"@[0] != "wait_for_http"@[0]);
    assert("list_processes"@[0] != "battery_status"@[0]);
    assert("list_processes"@[0] != "audit_path_env"@[0]);
    assert("list_processes"@[0] != "read_text_file"@[0]);
    assert("list_listening_ports"@[0] != "find_process_on_port"@[0]);
    assert("list_listening_ports"@[0] != "registry_diagnostics"@[0]);
    assert("list_listening_ports"@[0] != "system_update_status"@[0]);
    assert("privacy_info"@[0] != "find_process"@[0]);
    assert("privacy_info"@[0] != "list_windows"@[0]);
    assert("privacy_info"@[1] != "power_status"@[1]);
    assert("tool_guide"@[0] != "disk_usage"@[0]);
    assert("tool_guide"@[0] != "find_files"@[0]);
}

/// A tool is called exactly where there is one of that name, its permission is granted,
/// it is not switched off and the profile offers it; and then for as long as the tool
/// says, or as is usual.
pub proof fn law_calls_are_let_through(
    registry: ToolRegistry,
    name: &str,
    terms: CallTerms,
    r: Result<u64, WinkitError>,
    i: int,
)
    requires
        registry.wf(),
        call_ensures(ToolRegistry::check_call, (&registry, name, terms), r),
        0 <= i < registry.view().tools.len(),
        registry.view().tools[i].name == name@,
    ensures
        ({
            let tool = registry.view().tools[i];
            let granted = tool.capability is Some || terms.mode == PermissionMode::Approval
                || terms.mode == PermissionMode::Unrestricted;
            let off = registry.view().disabled.contains(name@);
            let left_out = registry.view().profile == ToolProfile::Core
                && developer_tools().contains(name@);
            &&& r is Ok <==> granted && !off && !left_out
            &&& r is Ok && tool.timeout_ms is Some ==> r->Ok_0 == tool.timeout_ms->0
            &&& r is Ok && tool.timeout_ms is None ==> r->Ok_0 == terms.operation_timeout_ms
            &&& r is Err && !granted ==> r->Err_0.kind == ErrorKind::PermissionDenied
            &&& r is Err && granted ==> r->Err_0.kind == ErrorKind::InvalidArgument
        }),
{
    lemma_tool_of(registry.view().tools, i);
}

/// A tool that there is none of is not called.
pub proof fn law_unknown_tools_are_refused(
    registry: ToolRegistry,
    name: &str,
    terms: CallTerms,
    r: Result<u64, WinkitError>,
)
    requires
        registry.wf(),
        call_ensures(ToolRegistry::check_call, (&registry, name, terms), r),
        forall|i: int|
            0 <= i < registry.view().tools.len() ==> (#[trigger] registry.view().tools[i]).name
                != name@,
    ensures
        r is Err,
        r->Err_0.kind == ErrorKind::InvalidArgument,
        r->Err_0.message@ == "unknown tool '"@ + name@ + "'"@,
{
}

/// The tools are in order exactly where each has a name, a description, an object as
/// its schema and a capability; then their number is told.
pub proof fn law_every_tool_is_complete(registry: ToolRegistry, r: Result<usize, WinkitError>)
    requires
        registry.wf(),
        call_ensures(verify_integrity, (&registry,), r),
    ensures
        r is Ok <==> forall|i: int|
            0 <= i < registry.view().tools.len() ==> is_whole(#[trigger] registry.view().tools[i]),
        r is Ok ==> r->Ok_0 == registry.view().tools.len(),
        r is Err ==> r->Err_0.kind == ErrorKind::InternalError,
{
    lemma_integrity_of_all(registry.view().tools);
}

/// Has the tool everything that a tool has to have?
pub open spec fn is_whole(t: ToolView) -> bool {
    &&& t.name.len() > 0
    &&& t.description.len() > 0
    &&& t.input_schema is Object
    &&& t.capability is Some
}

proof fn lemma_integrity_of_all(tools: Seq<ToolView>)
    ensures
        integrity(tools) is Ok <==> forall|i: int|
            0 <= i < tools.len() ==> is_whole(#[trigger] tools[i]),
        integrity(tools) is Err ==> integrity(tools)->Err_0.kind == ErrorKind::InternalError,
    decreases tools.len(),
{
    if tools.len() > 0 {
        let rest = tools.drop_last();
        lemma_integrity_of_all(rest);
        if integrity(tools) is Ok {
            assert forall|i: int| 0 <= i < tools.len() implies is_whole(#[trigger] tools[i]) by {
                if i < rest.len() {
                    assert(rest[i] == tools[i]);
                }
            }
        }
        if forall|i: int| 0 <= i < tools.len() ==> is_whole(#[trigger] tools[i]) {
            assert forall|i: int| 0 <= i < rest.len() implies is_whole(#[trigger] rest[i]) by {
                assert(rest[i] == tools[i]);
            }
            assert(is_whole(tools[tools.len() - 1]));
        }
    }
}

/// A tool that a profile does not offer is refused with its name and the profile's, and
/// a tool that `core` leaves out with the profiles that offer it.
pub proof fn law_refusals_name_tool_and_profile(name: &str, profile: ToolProfile, r: String)
    requires
        call_ensures(profile_gate_message, (name, profile), r),
    ensures
        ({
            let told = "tool '"@ + name@ + "' is not available in tool profile '"@ + profile.name()
                + "'"@;
            &&& told.is_prefix_of(r@)
            &&& in_profile(name@, ToolProfile::Core) ==> r@ == told
            &&& !in_profile(name@, ToolProfile::Core) ==> r@ == told
                + "; this developer workflow tool is only enabled in tool profile 'developer' or 'full'"@
        }),
{
    reveal_strlit("");
    let told = "tool '"@ + name@ + "' is not available in tool profile '"@ + profile.name() + "'"@;
    assert(r@.take(told.len() as int) =~= told);
}

} // verus!
