//! Every tool, put into one registry.

use crate::config::Config;
use crate::server::profiles::{profile_of, ToolProfile};
use crate::text::{ascii_lower, views};
use crate::tools::developer::{dev_environment_definition, dev_environment_tool};
use crate::tools::environment::{
    guided_tools, audit_path_env_definition, audit_path_env_tool, startup_programs_definition,
    startup_programs_tool, system_update_status_definition, system_update_status_tool,
    tool_guide_definition, tool_guide_tool,
};
use crate::tools::events::{
    get_application_errors_definition, get_application_errors_tool, get_recent_events_definition,
    get_recent_events_tool, get_system_errors_definition, get_system_errors_tool,
};
use crate::tools::files::{
    directory_overview_definition, directory_overview_tool, find_files_definition, find_files_tool,
    read_text_file_definition, read_text_file_tool,
};
use crate::tools::hardware::{
    battery_status_definition, battery_status_tool, disk_health_definition, disk_health_tool,
    disk_performance_definition, disk_performance_tool, hardware_snapshot_definition,
    hardware_snapshot_tool, network_diagnose_definition, network_diagnose_tool,
    network_snapshot_definition, network_snapshot_tool, power_status_definition, power_status_tool,
    thermal_snapshot_definition, thermal_snapshot_tool, wifi_scan_definition, wifi_scan_tool,
    wifi_status_definition, wifi_status_tool,
};
use crate::tools::health::{
    system_diagnose_definition, system_diagnose_tool, system_health_definition, system_health_tool,
};
use crate::tools::network::{
    find_process_on_port_definition, find_process_on_port_tool, list_connections_definition,
    list_connections_tool, list_listening_ports_definition, list_listening_ports_tool,
    list_network_interfaces_definition, list_network_interfaces_tool,
};
use crate::tools::processes::{
    find_process_definition, find_process_tool, get_process_definition, get_process_tool,
    get_process_tree_definition, get_process_tree_tool, list_processes_definition,
    list_processes_tool,
};
use crate::tools::registry::{registry_diagnostics_definition, registry_diagnostics_tool};
use crate::tools::services::{
    get_service_definition, get_service_tool, list_services_definition, list_services_tool,
};
use crate::tools::stability::{
    crash_history_definition, crash_history_tool, shutdown_analysis_definition,
    shutdown_analysis_tool,
};
use crate::tools::storage::{
    disk_usage_definition, disk_usage_tool, list_drives_definition, list_drives_tool,
};
use crate::tools::system::{
    snapshot_definition, snapshot_tool, system_info_definition, system_info_tool,
};
use crate::tools::windows::{list_windows_definition, list_windows_tool};
use crate::tools::workflows::{
    correlate_recent_failures_definition, correlate_recent_failures_tool,
    diagnose_local_webapp_definition, diagnose_local_webapp_tool, diagnose_workspace_definition,
    diagnose_workspace_tool, list_dev_servers_definition, list_dev_servers_tool,
    privacy_info_definition, privacy_info_tool, system_health_trend_definition,
    system_health_trend_tool, wait_for_http_definition, wait_for_http_tool,
    wait_for_port_definition, wait_for_port_tool, wait_for_process_definition,
    wait_for_process_tool, workspace_snapshot_definition, workspace_snapshot_tool,
};
use crate::tools::toolset::{has_tool, tool_map, ToolRegistry, ToolView};
use vstd::prelude::*;

verus! {

/// Every tool that there is.
pub open spec fn every_tool() -> Seq<ToolView> {
    seq![
        system_info_tool(),
        snapshot_tool(),
        list_processes_tool(),
        get_process_tool(),
        get_process_tree_tool(),
        find_process_tool(),
        list_listening_ports_tool(),
        find_process_on_port_tool(),
        list_network_interfaces_tool(),
        list_connections_tool(),
        list_drives_tool(),
        disk_usage_tool(),
        list_services_tool(),
        get_service_tool(),
        get_recent_events_tool(),
        get_application_errors_tool(),
        get_system_errors_tool(),
        crash_history_tool(),
        shutdown_analysis_tool(),
        list_windows_tool(),
        dev_environment_tool(),
        registry_diagnostics_tool(),
        hardware_snapshot_tool(),
        thermal_snapshot_tool(),
        battery_status_tool(),
        power_status_tool(),
        disk_health_tool(),
        disk_performance_tool(),
        network_snapshot_tool(),
        network_diagnose_tool(),
        wifi_status_tool(),
        wifi_scan_tool(),
        workspace_snapshot_tool(),
        list_dev_servers_tool(),
        diagnose_workspace_tool(),
        diagnose_local_webapp_tool(),
        wait_for_port_tool(),
        wait_for_http_tool(),
        wait_for_process_tool(),
        correlate_recent_failures_tool(),
        system_health_trend_tool(),
        privacy_info_tool(),
        system_health_tool(),
        system_diagnose_tool(),
        startup_programs_tool(),
        audit_path_env_tool(),
        system_update_status_tool(),
        tool_guide_tool(),
        read_text_file_tool(),
        find_files_tool(),
        directory_overview_tool(),
    ]
}

/// A list of tools as a map; of two with the same name the later one counts.
pub open spec fn catalog_of(tools: Seq<ToolView>) -> Map<Seq<char>, ToolView>
    decreases tools.len(),
{
    if tools.len() == 0 {
        Map::empty()
    } else {
        catalog_of(tools.drop_last()).insert(tools.last().name, tools.last())
    }
}

/// Is it known: is there a tool of this name?
pub open spec fn is_known(name: Seq<char>) -> bool {
    exists|i: int| 0 <= i < every_tool().len() && (#[trigger] every_tool()[i]).name == name
}

/// The profile that a configuration asks for; the default one where it asks
/// for none that there is.
pub open spec fn configured_profile(name: Seq<char>) -> ToolProfile {
    match profile_of(name) {
        Some(p) => p,
        None => ToolProfile::Developer,
    }
}

fn register_part_1(registry: &mut ToolRegistry)
    requires
        old(registry).wf(),
        tool_map(old(registry).view().tools) == catalog_of(every_tool().take(0)),
    ensures
        final(registry).wf(),
        tool_map(final(registry).view().tools) == catalog_of(every_tool().take(10)),
        final(registry).view().disabled == old(registry).view().disabled,
        final(registry).view().profile == old(registry).view().profile,
{
    registry.register(system_info_definition());
    proof {
        lemma_next(0);
    }
    registry.register(snapshot_definition());
    proof {
        lemma_next(1);
    }
    registry.register(list_processes_definition());
    proof {
        lemma_next(2);
    }
    registry.register(get_process_definition());
    proof {
        lemma_next(3);
    }
    registry.register(get_process_tree_definition());
    proof {
        lemma_next(4);
    }
    registry.register(find_process_definition());
    proof {
        lemma_next(5);
    }
    registry.register(list_listening_ports_definition());
    proof {
        lemma_next(6);
    }
    registry.register(find_process_on_port_definition());
    proof {
        lemma_next(7);
    }
    registry.register(list_network_interfaces_definition());
    proof {
        lemma_next(8);
    }
    registry.register(list_connections_definition());
    proof {
        lemma_next(9);
    }
}

fn register_part_2(registry: &mut ToolRegistry)
    requires
        old(registry).wf(),
        tool_map(old(registry).view().tools) == catalog_of(every_tool().take(10)),
    ensures
        final(registry).wf(),
        tool_map(final(registry).view().tools) == catalog_of(every_tool().take(20)),
        final(registry).view().disabled == old(registry).view().disabled,
        final(registry).view().profile == old(registry).view().profile,
{
    registry.register(list_drives_definition());
    proof {
        lemma_next(10);
    }
    registry.register(disk_usage_definition());
    proof {
        lemma_next(11);
    }
    registry.register(list_services_definition());
    proof {
        lemma_next(12);
    }
    registry.register(get_service_definition());
    proof {
        lemma_next(13);
    }
    registry.register(get_recent_events_definition());
    proof {
        lemma_next(14);
    }
    registry.register(get_application_errors_definition());
    proof {
        lemma_next(15);
    }
    registry.register(get_system_errors_definition());
    proof {
        lemma_next(16);
    }
    registry.register(crash_history_definition());
    proof {
        lemma_next(17);
    }
    registry.register(shutdown_analysis_definition());
    proof {
        lemma_next(18);
    }
    registry.register(list_windows_definition());
    proof {
        lemma_next(19);
    }
}

fn register_part_3(registry: &mut ToolRegistry)
    requires
        old(registry).wf(),
        tool_map(old(registry).view().tools) == catalog_of(every_tool().take(20)),
    ensures
        final(registry).wf(),
        tool_map(final(registry).view().tools) == catalog_of(every_tool().take(30)),
        final(registry).view().disabled == old(registry).view().disabled,
        final(registry).view().profile == old(registry).view().profile,
{
    registry.register(dev_environment_definition());
    proof {
        lemma_next(20);
    }
    registry.register(registry_diagnostics_definition());
    proof {
        lemma_next(21);
    }
    registry.register(hardware_snapshot_definition());
    proof {
        lemma_next(22);
    }
    registry.register(thermal_snapshot_definition());
    proof {
        lemma_next(23);
    }
    registry.register(battery_status_definition());
    proof {
        lemma_next(24);
    }
    registry.register(power_status_definition());
    proof {
        lemma_next(25);
    }
    registry.register(disk_health_definition());
    proof {
        lemma_next(26);
    }
    registry.register(disk_performance_definition());
    proof {
        lemma_next(27);
    }
    registry.register(network_snapshot_definition());
    proof {
        lemma_next(28);
    }
    registry.register(network_diagnose_definition());
    proof {
        lemma_next(29);
    }
}

fn register_part_4(registry: &mut ToolRegistry)
    requires
        old(registry).wf(),
        tool_map(old(registry).view().tools) == catalog_of(every_tool().take(30)),
    ensures
        final(registry).wf(),
        tool_map(final(registry).view().tools) == catalog_of(every_tool().take(40)),
        final(registry).view().disabled == old(registry).view().disabled,
        final(registry).view().profile == old(registry).view().profile,
{
    registry.register(wifi_status_definition());
    proof {
        lemma_next(30);
    }
    registry.register(wifi_scan_definition());
    proof {
        lemma_next(31);
    }
    registry.register(workspace_snapshot_definition());
    proof {
        lemma_next(32);
    }
    registry.register(list_dev_servers_definition());
    proof {
        lemma_next(33);
    }
    registry.register(diagnose_workspace_definition());
    proof {
        lemma_next(34);
    }
    registry.register(diagnose_local_webapp_definition());
    proof {
        lemma_next(35);
    }
    registry.register(wait_for_port_definition());
    proof {
        lemma_next(36);
    }
    registry.register(wait_for_http_definition());
    proof {
        lemma_next(37);
    }
    registry.register(wait_for_process_definition());
    proof {
        lemma_next(38);
    }
    registry.register(correlate_recent_failures_definition());
    proof {
        lemma_next(39);
    }
}

fn register_part_5(registry: &mut ToolRegistry)
    requires
        old(registry).wf(),
        tool_map(old(registry).view().tools) == catalog_of(every_tool().take(40)),
    ensures
        final(registry).wf(),
        tool_map(final(registry).view().tools) == catalog_of(every_tool().take(50)),
        final(registry).view().disabled == old(registry).view().disabled,
        final(registry).view().profile == old(registry).view().profile,
{
    registry.register(system_health_trend_definition());
    proof {
        lemma_next(40);
    }
    registry.register(privacy_info_definition());
    proof {
        lemma_next(41);
    }
    registry.register(system_health_definition());
    proof {
        lemma_next(42);
    }
    registry.register(system_diagnose_definition());
    proof {
        lemma_next(43);
    }
    registry.register(startup_programs_definition());
    proof {
        lemma_next(44);
    }
    registry.register(audit_path_env_definition());
    proof {
        lemma_next(45);
    }
    registry.register(system_update_status_definition());
    proof {
        lemma_next(46);
    }
    registry.register(tool_guide_definition());
    proof {
        lemma_next(47);
    }
    registry.register(read_text_file_definition());
    proof {
        lemma_next(48);
    }
    registry.register(find_files_definition());
    proof {
        lemma_next(49);
    }
}

fn register_part_6(registry: &mut ToolRegistry)
    requires
        old(registry).wf(),
        tool_map(old(registry).view().tools) == catalog_of(every_tool().take(50)),
    ensures
        final(registry).wf(),
        tool_map(final(registry).view().tools) == catalog_of(every_tool().take(51)),
        final(registry).view().disabled == old(registry).view().disabled,
        final(registry).view().profile == old(registry).view().profile,
{
    registry.register(directory_overview_definition());
    proof {
        lemma_next(50);
    }
}

proof fn lemma_next(n: int)
    requires
        0 <= n < 51,
    ensures
        catalog_of(every_tool().take(n + 1)) == catalog_of(every_tool().take(n)).insert(
            every_tool()[n].name,
            every_tool()[n],
        ),
{
    let all = every_tool();
    assert(all.take(n + 1).drop_last() =~= all.take(n));
    assert(all.take(n + 1).last() == all[n]);
}

impl ToolRegistry {
    /// The registry of every tool, with the profile and the switched-off tools
    /// of a configuration.
    pub fn build(config: &Config) -> (r: Self)
        ensures
            r.wf(),
            tool_map(r.view().tools) == catalog_of(every_tool()),
            r.view().disabled == views(config.tools.disabled@),
            r.view().profile == configured_profile(config.tools.profile@),
    {
        let profile = match ToolProfile::parse(&config.tools.profile) {
            Ok(p) => p,
            Err(_) => ToolProfile::default_profile(),
        };
        let mut registry = ToolRegistry::new(&config.tools.disabled, profile);
        proof {
            assert(every_tool().take(0).len() == 0);
            assert(tool_map(registry.view().tools) =~= Map::<Seq<char>, ToolView>::empty());
        }
        register_part_1(&mut registry);
        register_part_2(&mut registry);
        register_part_3(&mut registry);
        register_part_4(&mut registry);
        register_part_5(&mut registry);
        register_part_6(&mut registry);
        assert(every_tool().take(51) =~= every_tool());
        registry
    }
}

proof fn lemma_catalog_has(tools: Seq<ToolView>, i: int)
    requires
        0 <= i < tools.len(),
    ensures
        catalog_of(tools).dom().contains(tools[i].name),
    decreases tools.len(),
{
    if i < tools.len() - 1 {
        assert(tools.drop_last()[i] == tools[i]);
        lemma_catalog_has(tools.drop_last(), i);
    }
}

/// A name in the map of a list is the name of one of its tools.
pub proof fn lemma_catalog_only(tools: Seq<ToolView>, name: Seq<char>)
    requires
        catalog_of(tools).dom().contains(name),
    ensures
        exists|i: int| 0 <= i < tools.len() && (#[trigger] tools[i]).name == name,
    decreases tools.len(),
{
    if tools.last().name == name {
        assert(tools[tools.len() - 1].name == name);
    } else {
        lemma_catalog_only(tools.drop_last(), name);
        let i = choose|i: int|
            0 <= i < tools.len() - 1 && (#[trigger] tools.drop_last()[i]).name == name;
        assert(tools[i].name == name);
    }
}

/// The registry holds the known tools and no others.
pub proof fn law_registry_is_complete(tools: Seq<ToolView>, name: Seq<char>)
    requires
        tool_map(tools) == catalog_of(every_tool()),
    ensures
        has_tool(tools, name) <==> is_known(name),
{
    if is_known(name) {
        let i = choose|i: int|
            0 <= i < every_tool().len() && (#[trigger] every_tool()[i]).name == name;
        lemma_catalog_has(every_tool(), i);
        assert(tool_map(tools).dom().contains(name));
    }
    if has_tool(tools, name) {
        assert(tool_map(tools).dom().contains(name));
        lemma_catalog_only(every_tool(), name);
    }
}

/// Every tool that the guide leads to is one that there is.
pub proof fn law_guide_leads_to_tools(i: int)
    requires
        0 <= i < guided_tools().len(),
    ensures
        is_known(guided_tools()[i]),
{
    let all = every_tool();
    if i == 0 {
        assert(all[42].name == guided_tools()[0]);
    }
    if i == 1 {
        assert(all[43].name == guided_tools()[1]);
    }
    if i == 2 {
        assert(all[50].name == guided_tools()[2]);
    }
    if i == 3 {
        assert(all[48].name == guided_tools()[3]);
    }
    if i == 4 {
        assert(all[49].name == guided_tools()[4]);
    }
    if i == 5 {
        assert(all[17].name == guided_tools()[5]);
    }
    if i == 6 {
        assert(all[18].name == guided_tools()[6]);
    }
    if i == 7 {
        assert(all[46].name == guided_tools()[7]);
    }
    if i == 8 {
        assert(all[6].name == guided_tools()[8]);
    }
    if i == 9 {
        assert(all[35].name == guided_tools()[9]);
    }
    if i == 10 {
        assert(all[13].name == guided_tools()[10]);
    }
    if i == 11 {
        assert(all[16].name == guided_tools()[11]);
    }
    if i == 12 {
        assert(all[23].name == guided_tools()[12]);
    }
    if i == 13 {
        assert(all[24].name == guided_tools()[13]);
    }
    if i == 14 {
        assert(all[29].name == guided_tools()[14]);
    }
    if i == 15 {
        assert(all[4].name == guided_tools()[15]);
    }
    if i == 16 {
        assert(all[32].name == guided_tools()[16]);
    }
    if i == 17 {
        assert(all[45].name == guided_tools()[17]);
    }
    if i == 18 {
        assert(all[44].name == guided_tools()[18]);
    }
}

/// The profile is the one whose name is configured, in any mix of cases; any other name
/// stands for `developer`.
pub proof fn law_other_profiles_are_developer(config: Config, r: ToolRegistry)
    requires
        call_ensures(ToolRegistry::build, (&config,), r),
    ensures
        r.view().profile == ToolProfile::Core <==> ascii_lower(config.tools.profile@) == "core"@,
        r.view().profile == ToolProfile::Full <==> ascii_lower(config.tools.profile@) == "full"@,
        r.view().profile == ToolProfile::Developer <==> ascii_lower(config.tools.profile@)
            != "core"@ && ascii_lower(config.tools.profile@) != "full"@,
        r.view().disabled == views(config.tools.disabled@),
{
    reveal_strlit("core");
    assert("core"@.len() == 4);
    reveal_strlit("developer");
    assert("developer"@.len() == 9);
    reveal_strlit("full");
    assert("full"@.len() == 4);
    assert("core"@[0] != "full"@[0]);
}

} // verus!
