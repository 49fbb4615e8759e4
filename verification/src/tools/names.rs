//! The names of the tools, in order.

use crate::order::{key_lt, lemma_key_transitive, text_key, text_lt};
use crate::server::profiles::ToolProfile;
use crate::tools::catalog::{
    catalog_of, every_tool, is_known, law_registry_is_complete, lemma_catalog_only,
};
use crate::tools::environment::tool_guide_tool;
use crate::tools::health::system_health_tool;
use crate::tools::network::list_listening_ports_tool;
use crate::tools::processes::list_processes_tool;
use crate::tools::toolset::{
    beyond_core, core_tools, developer_tools, has_tool, in_name_order, in_profile,
    law_listing_is_in_order, offered, offered_tools, tool_of, RegistryView,
    law_name_order_is_unique, lemma_tool_of, tool_map, tool_names, ToolView,
};
use crate::tools::workflows::{privacy_info_tool, workspace_snapshot_tool};
use vstd::prelude::*;
use vstd::string::*;

verus! {

/// The names of all tools, in order.
pub open spec fn all_tool_names() -> Seq<Seq<char>> {
    seq![
        "audit_path_env"@,
        "battery_status"@,
        "correlate_recent_failures"@,
        "crash_history"@,
        "dev_environment"@,
        "diagnose_local_webapp"@,
        "diagnose_workspace"@,
        "directory_overview"@,
        "disk_health"@,
        "disk_performance"@,
        "disk_usage"@,
        "find_files"@,
        "find_process"@,
        "find_process_on_port"@,
        "get_application_errors"@,
        "get_process"@,
        "get_process_tree"@,
        "get_recent_events"@,
        "get_service"@,
        "get_system_errors"@,
        "hardware_snapshot"@,
        "list_connections"@,
        "list_dev_servers"@,
        "list_drives"@,
        "list_listening_ports"@,
        "list_network_interfaces"@,
        "list_processes"@,
        "list_services"@,
        "list_windows"@,
        "network_diagnose"@,
        "network_snapshot"@,
        "power_status"@,
        "privacy_info"@,
        "read_text_file"@,
        "registry_diagnostics"@,
        "shutdown_analysis"@,
        "snapshot"@,
        "startup_programs"@,
        "system_diagnose"@,
        "system_health"@,
        "system_health_trend"@,
        "system_info"@,
        "system_update_status"@,
        "thermal_snapshot"@,
        "tool_guide"@,
        "wait_for_http"@,
        "wait_for_port"@,
        "wait_for_process"@,
        "wifi_scan"@,
        "wifi_status"@,
        "workspace_snapshot"@,
    ]
}

/// Where the tools of [`every_tool`] stand in the order of their names.
spec fn ranks() -> Seq<int> {
    seq![
        41int,
        36int,
        26int,
        15int,
        16int,
        12int,
        24int,
        13int,
        25int,
        21int,
        23int,
        10int,
        27int,
        18int,
        17int,
        14int,
        19int,
        3int,
        35int,
        28int,
        4int,
        34int,
        20int,
        43int,
        1int,
        31int,
        8int,
        9int,
        30int,
        29int,
        49int,
        48int,
        50int,
        22int,
        6int,
        5int,
        46int,
        45int,
        47int,
        2int,
        40int,
        32int,
        39int,
        38int,
        37int,
        0int,
        42int,
        44int,
        33int,
        11int,
        7int,
    ]
}

/// Where the tools in the order of their names stand in [`every_tool`].
spec fn sources() -> Seq<int> {
    seq![
        45int,
        24int,
        39int,
        17int,
        20int,
        35int,
        34int,
        50int,
        26int,
        27int,
        11int,
        49int,
        5int,
        7int,
        15int,
        3int,
        4int,
        14int,
        13int,
        16int,
        22int,
        9int,
        33int,
        10int,
        6int,
        8int,
        2int,
        12int,
        19int,
        29int,
        28int,
        25int,
        41int,
        48int,
        21int,
        18int,
        1int,
        44int,
        43int,
        42int,
        40int,
        0int,
        46int,
        23int,
        47int,
        37int,
        36int,
        38int,
        31int,
        30int,
        32int,
    ]
}

/// Every tool, in the order of the names.
pub closed spec fn tools_in_order() -> Seq<ToolView> {
    Seq::new(51, |i: int| every_tool()[sources()[i]])
}

/// Texts that agree up to some place, and differ there, stand in the order of
/// the characters there; a text comes before those that go on from it.
proof fn lemma_first_difference(a: Seq<char>, b: Seq<char>, k: int)
    requires
        0 <= k <= a.len(),
        k < b.len(),
        a.take(k) == b.take(k),
        k < a.len() ==> (a[k] as u32) < (b[k] as u32),
    ensures
        text_lt(a, b),
    decreases k,
{
    reveal_with_fuel(key_lt, 2);
    let ka = text_key(a);
    let kb = text_key(b);
    if k == 0 {
        if a.len() > 0 {
            assert(ka[0] == a[0] as u64 && kb[0] == b[0] as u64);
            lemma_numbers(a[0], b[0]);
        }
    } else {
        assert(a.take(k)[0] == a[0] && b.take(k)[0] == b[0]);
        assert(ka[0] == kb[0]);
        assert(ka.drop_first() =~= text_key(a.drop_first()));
        assert(kb.drop_first() =~= text_key(b.drop_first()));
        assert(a.drop_first().take(k - 1) =~= a.take(k).drop_first());
        assert(b.drop_first().take(k - 1) =~= b.take(k).drop_first());
        lemma_first_difference(a.drop_first(), b.drop_first(), k - 1);
    }
}

proof fn lemma_numbers(a: char, b: char)
    requires
        (a as u32) < (b as u32),
    ensures
        (a as u64) < (b as u64),
{
}

proof fn lemma_ascending_1()
    ensures
        forall|i: int|
            0 <= i < 10 ==> text_lt(#[trigger] all_tool_names()[i], all_tool_names()[i + 1]),
{
    reveal_strlit("audit_path_env");
    reveal_strlit("battery_status");
    reveal_strlit("correlate_recent_failures");
    reveal_strlit("crash_history");
    reveal_strlit("dev_environment");
    reveal_strlit("diagnose_local_webapp");
    reveal_strlit("diagnose_workspace");
    reveal_strlit("directory_overview");
    reveal_strlit("disk_health");
    reveal_strlit("disk_performance");
    reveal_strlit("disk_usage");
    let names = all_tool_names();
    assert("audit_path_env"@.take(0) =~= "battery_status"@.take(0));
    lemma_first_difference("audit_path_env"@, "battery_status"@, 0);
    assert(text_lt(names[0], names[1]));
    assert("battery_status"@.take(0) =~= "correlate_recent_failures"@.take(0));
    lemma_first_difference("battery_status"@, "correlate_recent_failures"@, 0);
    assert(text_lt(names[1], names[2]));
    assert("correlate_recent_failures"@.take(1) =~= "crash_history"@.take(1));
    lemma_first_difference("correlate_recent_failures"@, "crash_history"@, 1);
    assert(text_lt(names[2], names[3]));
    assert("crash_history"@.take(0) =~= "dev_environment"@.take(0));
    lemma_first_difference("crash_history"@, "dev_environment"@, 0);
    assert(text_lt(names[3], names[4]));
    assert("dev_environment"@.take(1) =~= "diagnose_local_webapp"@.take(1));
    lemma_first_difference("dev_environment"@, "diagnose_local_webapp"@, 1);
    assert(text_lt(names[4], names[5]));
    assert("diagnose_local_webapp"@.take(9) =~= "diagnose_workspace"@.take(9));
    lemma_first_difference("diagnose_local_webapp"@, "diagnose_workspace"@, 9);
    assert(text_lt(names[5], names[6]));
    assert("diagnose_workspace"@.take(2) =~= "directory_overview"@.take(2));
    lemma_first_difference("diagnose_workspace"@, "directory_overview"@, 2);
    assert(text_lt(names[6], names[7]));
    assert("directory_overview"@.take(2) =~= "disk_health"@.take(2));
    lemma_first_difference("directory_overview"@, "disk_health"@, 2);
    assert(text_lt(names[7], names[8]));
    assert("disk_health"@.take(5) =~= "disk_performance"@.take(5));
    lemma_first_difference("disk_health"@, "disk_performance"@, 5);
    assert(text_lt(names[8], names[9]));
    assert("disk_performance"@.take(5) =~= "disk_usage"@.take(5));
    lemma_first_difference("disk_performance"@, "disk_usage"@, 5);
    assert(text_lt(names[9], names[10]));
}

proof fn lemma_ascending_2()
    ensures
        forall|i: int|
            10 <= i < 20 ==> text_lt(#[trigger] all_tool_names()[i], all_tool_names()[i + 1]),
{
    reveal_strlit("disk_usage");
    reveal_strlit("find_files");
    reveal_strlit("find_process");
    reveal_strlit("find_process_on_port");
    reveal_strlit("get_application_errors");
    reveal_strlit("get_process");
    reveal_strlit("get_process_tree");
    reveal_strlit("get_recent_events");
    reveal_strlit("get_service");
    reveal_strlit("get_system_errors");
    reveal_strlit("hardware_snapshot");
    let names = all_tool_names();
    assert("disk_usage"@.take(0) =~= "find_files"@.take(0));
    lemma_first_difference("disk_usage"@, "find_files"@, 0);
    assert(text_lt(names[10], names[11]));
    assert("find_files"@.take(5) =~= "find_process"@.take(5));
    lemma_first_difference("find_files"@, "find_process"@, 5);
    assert(text_lt(names[11], names[12]));
    assert("find_process"@.take(12) =~= "find_process_on_port"@.take(12));
    lemma_first_difference("find_process"@, "find_process_on_port"@, 12);
    assert(text_lt(names[12], names[13]));
    assert("find_process_on_port"@.take(0) =~= "get_application_errors"@.take(0));
    lemma_first_difference("find_process_on_port"@, "get_application_errors"@, 0);
    assert(text_lt(names[13], names[14]));
    assert("get_application_errors"@.take(4) =~= "get_process"@.take(4));
    lemma_first_difference("get_application_errors"@, "get_process"@, 4);
    assert(text_lt(names[14], names[15]));
    assert("get_process"@.take(11) =~= "get_process_tree"@.take(11));
    lemma_first_difference("get_process"@, "get_process_tree"@, 11);
    assert(text_lt(names[15], names[16]));
    assert("get_process_tree"@.take(4) =~= "get_recent_events"@.take(4));
    lemma_first_difference("get_process_tree"@, "get_recent_events"@, 4);
    assert(text_lt(names[16], names[17]));
    assert("get_recent_events"@.take(4) =~= "get_service"@.take(4));
    lemma_first_difference("get_recent_events"@, "get_service"@, 4);
    assert(text_lt(names[17], names[18]));
    assert("get_service"@.take(5) =~= "get_system_errors"@.take(5));
    lemma_first_difference("get_service"@, "get_system_errors"@, 5);
    assert(text_lt(names[18], names[19]));
    assert("get_system_errors"@.take(0) =~= "hardware_snapshot"@.take(0));
    lemma_first_difference("get_system_errors"@, "hardware_snapshot"@, 0);
    assert(text_lt(names[19], names[20]));
}

proof fn lemma_ascending_3()
    ensures
        forall|i: int|
            20 <= i < 30 ==> text_lt(#[trigger] all_tool_names()[i], all_tool_names()[i + 1]),
{
    reveal_strlit("hardware_snapshot");
    reveal_strlit("list_connections");
    reveal_strlit("list_dev_servers");
    reveal_strlit("list_drives");
    reveal_strlit("list_listening_ports");
    reveal_strlit("list_network_interfaces");
    reveal_strlit("list_processes");
    reveal_strlit("list_services");
    reveal_strlit("list_windows");
    reveal_strlit("network_diagnose");
    reveal_strlit("network_snapshot");
    let names = all_tool_names();
    assert("hardware_snapshot"@.take(0) =~= "list_connections"@.take(0));
    lemma_first_difference("hardware_snapshot"@, "list_connections"@, 0);
    assert(text_lt(names[20], names[21]));
    assert("list_connections"@.take(5) =~= "list_dev_servers"@.take(5));
    lemma_first_difference("list_connections"@, "list_dev_servers"@, 5);
    assert(text_lt(names[21], names[22]));
    assert("list_dev_servers"@.take(6) =~= "list_drives"@.take(6));
    lemma_first_difference("list_dev_servers"@, "list_drives"@, 6);
    assert(text_lt(names[22], names[23]));
    assert("list_drives"@.take(5) =~= "list_listening_ports"@.take(5));
    lemma_first_difference("list_drives"@, "list_listening_ports"@, 5);
    assert(text_lt(names[23], names[24]));
    assert("list_listening_ports"@.take(5) =~= "list_network_interfaces"@.take(5));
    lemma_first_difference("list_listening_ports"@, "list_network_interfaces"@, 5);
    assert(text_lt(names[24], names[25]));
    assert("list_network_interfaces"@.take(5) =~= "list_processes"@.take(5));
    lemma_first_difference("list_network_interfaces"@, "list_processes"@, 5);
    assert(text_lt(names[25], names[26]));
    assert("list_processes"@.take(5) =~= "list_services"@.take(5));
    lemma_first_difference("list_processes"@, "list_services"@, 5);
    assert(text_lt(names[26], names[27]));
    assert("list_services"@.take(5) =~= "list_windows"@.take(5));
    lemma_first_difference("list_services"@, "list_windows"@, 5);
    assert(text_lt(names[27], names[28]));
    assert("list_windows"@.take(0) =~= "network_diagnose"@.take(0));
    lemma_first_difference("list_windows"@, "network_diagnose"@, 0);
    assert(text_lt(names[28], names[29]));
    assert("network_diagnose"@.take(8) =~= "network_snapshot"@.take(8));
    lemma_first_difference("network_diagnose"@, "network_snapshot"@, 8);
    assert(text_lt(names[29], names[30]));
}

proof fn lemma_ascending_4()
    ensures
        forall|i: int|
            30 <= i < 40 ==> text_lt(#[trigger] all_tool_names()[i], all_tool_names()[i + 1]),
{
    reveal_strlit("network_snapshot");
    reveal_strlit("power_status");
    reveal_strlit("privacy_info");
    reveal_strlit("read_text_file");
    reveal_strlit("registry_diagnostics");
    reveal_strlit("shutdown_analysis");
    reveal_strlit("snapshot");
    reveal_strlit("startup_programs");
    reveal_strlit("system_diagnose");
    reveal_strlit("system_health");
    reveal_strlit("system_health_trend");
    let names = all_tool_names();
    assert("network_snapshot"@.take(0) =~= "power_status"@.take(0));
    lemma_first_difference("network_snapshot"@, "power_status"@, 0);
    assert(text_lt(names[30], names[31]));
    assert("power_status"@.take(1) =~= "privacy_info"@.take(1));
    lemma_first_difference("power_status"@, "privacy_info"@, 1);
    assert(text_lt(names[31], names[32]));
    assert("privacy_info"@.take(0) =~= "read_text_file"@.take(0));
    lemma_first_difference("privacy_info"@, "read_text_file"@, 0);
    assert(text_lt(names[32], names[33]));
    assert("read_text_file"@.take(2) =~= "registry_diagnostics"@.take(2));
    lemma_first_difference("read_text_file"@, "registry_diagnostics"@, 2);
    assert(text_lt(names[33], names[34]));
    assert("registry_diagnostics"@.take(0) =~= "shutdown_analysis"@.take(0));
    lemma_first_difference("registry_diagnostics"@, "shutdown_analysis"@, 0);
    assert(text_lt(names[34], names[35]));
    assert("shutdown_analysis"@.take(1) =~= "snapshot"@.take(1));
    lemma_first_difference("shutdown_analysis"@, "snapshot"@, 1);
    assert(text_lt(names[35], names[36]));
    assert("snapshot"@.take(1) =~= "startup_programs"@.take(1));
    lemma_first_difference("snapshot"@, "startup_programs"@, 1);
    assert(text_lt(names[36], names[37]));
    assert("startup_programs"@.take(1) =~= "system_diagnose"@.take(1));
    lemma_first_difference("startup_programs"@, "system_diagnose"@, 1);
    assert(text_lt(names[37], names[38]));
    assert("system_diagnose"@.take(7) =~= "system_health"@.take(7));
    lemma_first_difference("system_diagnose"@, "system_health"@, 7);
    assert(text_lt(names[38], names[39]));
    assert("system_health"@.take(13) =~= "system_health_trend"@.take(13));
    lemma_first_difference("system_health"@, "system_health_trend"@, 13);
    assert(text_lt(names[39], names[40]));
}

proof fn lemma_ascending_5()
    ensures
        forall|i: int|
            40 <= i < 50 ==> text_lt(#[trigger] all_tool_names()[i], all_tool_names()[i + 1]),
{
    reveal_strlit("system_health_trend");
    reveal_strlit("system_info");
    reveal_strlit("system_update_status");
    reveal_strlit("thermal_snapshot");
    reveal_strlit("tool_guide");
    reveal_strlit("wait_for_http");
    reveal_strlit("wait_for_port");
    reveal_strlit("wait_for_process");
    reveal_strlit("wifi_scan");
    reveal_strlit("wifi_status");
    reveal_strlit("workspace_snapshot");
    let names = all_tool_names();
    assert("system_health_trend"@.take(7) =~= "system_info"@.take(7));
    lemma_first_difference("system_health_trend"@, "system_info"@, 7);
    assert(text_lt(names[40], names[41]));
    assert("system_info"@.take(7) =~= "system_update_status"@.take(7));
    lemma_first_difference("system_info"@, "system_update_status"@, 7);
    assert(text_lt(names[41], names[42]));
    assert("system_update_status"@.take(0) =~= "thermal_snapshot"@.take(0));
    lemma_first_difference("system_update_status"@, "thermal_snapshot"@, 0);
    assert(text_lt(names[42], names[43]));
    assert("thermal_snapshot"@.take(1) =~= "tool_guide"@.take(1));
    lemma_first_difference("thermal_snapshot"@, "tool_guide"@, 1);
    assert(text_lt(names[43], names[44]));
    assert("tool_guide"@.take(0) =~= "wait_for_http"@.take(0));
    lemma_first_difference("tool_guide"@, "wait_for_http"@, 0);
    assert(text_lt(names[44], names[45]));
    assert("wait_for_http"@.take(9) =~= "wait_for_port"@.take(9));
    lemma_first_difference("wait_for_http"@, "wait_for_port"@, 9);
    assert(text_lt(names[45], names[46]));
    assert("wait_for_port"@.take(10) =~= "wait_for_process"@.take(10));
    lemma_first_difference("wait_for_port"@, "wait_for_process"@, 10);
    assert(text_lt(names[46], names[47]));
    assert("wait_for_process"@.take(1) =~= "wifi_scan"@.take(1));
    lemma_first_difference("wait_for_process"@, "wifi_scan"@, 1);
    assert(text_lt(names[47], names[48]));
    assert("wifi_scan"@.take(6) =~= "wifi_status"@.take(6));
    lemma_first_difference("wifi_scan"@, "wifi_status"@, 6);
    assert(text_lt(names[48], names[49]));
    assert("wifi_status"@.take(1) =~= "workspace_snapshot"@.take(1));
    lemma_first_difference("wifi_status"@, "workspace_snapshot"@, 1);
    assert(text_lt(names[49], names[50]));
}

proof fn lemma_ascending(i: int, j: int)
    requires
        0 <= i < j < 51,
    ensures
        text_lt(all_tool_names()[i], all_tool_names()[j]),
    decreases j - i,
{
    lemma_ascending_1();
    lemma_ascending_2();
    lemma_ascending_3();
    lemma_ascending_4();
    lemma_ascending_5();
    let names = all_tool_names();
    assert(text_lt(names[i], names[i + 1]));
    if i + 1 < j {
        lemma_ascending(i + 1, j);
        lemma_key_transitive(text_key(names[i]), text_key(names[i + 1]), text_key(names[j]));
    }
}

proof fn lemma_named()
    ensures
        tools_in_order().len() == 51,
        every_tool().len() == 51,
        forall|i: int|
            0 <= i < 51 ==> (#[trigger] tools_in_order()[i]).name == all_tool_names()[i],
        forall|i: int|
            0 <= i < 51 ==> 0 <= #[trigger] ranks()[i] < 51 && tools_in_order()[ranks()[i]]
                == every_tool()[i],
        forall|i: int| 0 <= i < 51 ==> 0 <= #[trigger] sources()[i] < 51,
        forall|i: int| 0 <= i < 51 ==> #[trigger] ranks()[sources()[i]] == i,
{
    let all = every_tool();
    let ordered = tools_in_order();
    assert(ordered[0] == all[45]);
    assert(ordered[0].name == all_tool_names()[0]);
    assert(ranks()[0] == 41 && sources()[0] == 45);
    assert(ordered[1] == all[24]);
    assert(ordered[1].name == all_tool_names()[1]);
    assert(ranks()[1] == 36 && sources()[1] == 24);
    assert(ordered[2] == all[39]);
    assert(ordered[2].name == all_tool_names()[2]);
    assert(ranks()[2] == 26 && sources()[2] == 39);
    assert(ordered[3] == all[17]);
    assert(ordered[3].name == all_tool_names()[3]);
    assert(ranks()[3] == 15 && sources()[3] == 17);
    assert(ordered[4] == all[20]);
    assert(ordered[4].name == all_tool_names()[4]);
    assert(ranks()[4] == 16 && sources()[4] == 20);
    assert(ordered[5] == all[35]);
    assert(ordered[5].name == all_tool_names()[5]);
    assert(ranks()[5] == 12 && sources()[5] == 35);
    assert(ordered[6] == all[34]);
    assert(ordered[6].name == all_tool_names()[6]);
    assert(ranks()[6] == 24 && sources()[6] == 34);
    assert(ordered[7] == all[50]);
    assert(ordered[7].name == all_tool_names()[7]);
    assert(ranks()[7] == 13 && sources()[7] == 50);
    assert(ordered[8] == all[26]);
    assert(ordered[8].name == all_tool_names()[8]);
    assert(ranks()[8] == 25 && sources()[8] == 26);
    assert(ordered[9] == all[27]);
    assert(ordered[9].name == all_tool_names()[9]);
    assert(ranks()[9] == 21 && sources()[9] == 27);
    assert(ordered[10] == all[11]);
    assert(ordered[10].name == all_tool_names()[10]);
    assert(ranks()[10] == 23 && sources()[10] == 11);
    assert(ordered[11] == all[49]);
    assert(ordered[11].name == all_tool_names()[11]);
    assert(ranks()[11] == 10 && sources()[11] == 49);
    assert(ordered[12] == all[5]);
    assert(ordered[12].name == all_tool_names()[12]);
    assert(ranks()[12] == 27 && sources()[12] == 5);
    assert(ordered[13] == all[7]);
    assert(ordered[13].name == all_tool_names()[13]);
    assert(ranks()[13] == 18 && sources()[13] == 7);
    assert(ordered[14] == all[15]);
    assert(ordered[14].name == all_tool_names()[14]);
    assert(ranks()[14] == 17 && sources()[14] == 15);
    assert(ordered[15] == all[3]);
    assert(ordered[15].name == all_tool_names()[15]);
    assert(ranks()[15] == 14 && sources()[15] == 3);
    assert(ordered[16] == all[4]);
    assert(ordered[16].name == all_tool_names()[16]);
    assert(ranks()[16] == 19 && sources()[16] == 4);
    assert(ordered[17] == all[14]);
    assert(ordered[17].name == all_tool_names()[17]);
    assert(ranks()[17] == 3 && sources()[17] == 14);
    assert(ordered[18] == all[13]);
    assert(ordered[18].name == all_tool_names()[18]);
    assert(ranks()[18] == 35 && sources()[18] == 13);
    assert(ordered[19] == all[16]);
    assert(ordered[19].name == all_tool_names()[19]);
    assert(ranks()[19] == 28 && sources()[19] == 16);
    assert(ordered[20] == all[22]);
    assert(ordered[20].name == all_tool_names()[20]);
    assert(ranks()[20] == 4 && sources()[20] == 22);
    assert(ordered[21] == all[9]);
    assert(ordered[21].name == all_tool_names()[21]);
    assert(ranks()[21] == 34 && sources()[21] == 9);
    assert(ordered[22] == all[33]);
    assert(ordered[22].name == all_tool_names()[22]);
    assert(ranks()[22] == 20 && sources()[22] == 33);
    assert(ordered[23] == all[10]);
    assert(ordered[23].name == all_tool_names()[23]);
    assert(ranks()[23] == 43 && sources()[23] == 10);
    assert(ordered[24] == all[6]);
    assert(ordered[24].name == all_tool_names()[24]);
    assert(ranks()[24] == 1 && sources()[24] == 6);
    assert(ordered[25] == all[8]);
    assert(ordered[25].name == all_tool_names()[25]);
    assert(ranks()[25] == 31 && sources()[25] == 8);
    assert(ordered[26] == all[2]);
    assert(ordered[26].name == all_tool_names()[26]);
    assert(ranks()[26] == 8 && sources()[26] == 2);
    assert(ordered[27] == all[12]);
    assert(ordered[27].name == all_tool_names()[27]);
    assert(ranks()[27] == 9 && sources()[27] == 12);
    assert(ordered[28] == all[19]);
    assert(ordered[28].name == all_tool_names()[28]);
    assert(ranks()[28] == 30 && sources()[28] == 19);
    assert(ordered[29] == all[29]);
    assert(ordered[29].name == all_tool_names()[29]);
    assert(ranks()[29] == 29 && sources()[29] == 29);
    assert(ordered[30] == all[28]);
    assert(ordered[30].name == all_tool_names()[30]);
    assert(ranks()[30] == 49 && sources()[30] == 28);
    assert(ordered[31] == all[25]);
    assert(ordered[31].name == all_tool_names()[31]);
    assert(ranks()[31] == 48 && sources()[31] == 25);
    assert(ordered[32] == all[41]);
    assert(ordered[32].name == all_tool_names()[32]);
    assert(ranks()[32] == 50 && sources()[32] == 41);
    assert(ordered[33] == all[48]);
    assert(ordered[33].name == all_tool_names()[33]);
    assert(ranks()[33] == 22 && sources()[33] == 48);
    assert(ordered[34] == all[21]);
    assert(ordered[34].name == all_tool_names()[34]);
    assert(ranks()[34] == 6 && sources()[34] == 21);
    assert(ordered[35] == all[18]);
    assert(ordered[35].name == all_tool_names()[35]);
    assert(ranks()[35] == 5 && sources()[35] == 18);
    assert(ordered[36] == all[1]);
    assert(ordered[36].name == all_tool_names()[36]);
    assert(ranks()[36] == 46 && sources()[36] == 1);
    assert(ordered[37] == all[44]);
    assert(ordered[37].name == all_tool_names()[37]);
    assert(ranks()[37] == 45 && sources()[37] == 44);
    assert(ordered[38] == all[43]);
    assert(ordered[38].name == all_tool_names()[38]);
    assert(ranks()[38] == 47 && sources()[38] == 43);
    assert(ordered[39] == all[42]);
    assert(ordered[39].name == all_tool_names()[39]);
    assert(ranks()[39] == 2 && sources()[39] == 42);
    assert(ordered[40] == all[40]);
    assert(ordered[40].name == all_tool_names()[40]);
    assert(ranks()[40] == 40 && sources()[40] == 40);
    assert(ordered[41] == all[0]);
    assert(ordered[41].name == all_tool_names()[41]);
    assert(ranks()[41] == 32 && sources()[41] == 0);
    assert(ordered[42] == all[46]);
    assert(ordered[42].name == all_tool_names()[42]);
    assert(ranks()[42] == 39 && sources()[42] == 46);
    assert(ordered[43] == all[23]);
    assert(ordered[43].name == all_tool_names()[43]);
    assert(ranks()[43] == 38 && sources()[43] == 23);
    assert(ordered[44] == all[47]);
    assert(ordered[44].name == all_tool_names()[44]);
    assert(ranks()[44] == 37 && sources()[44] == 47);
    assert(ordered[45] == all[37]);
    assert(ordered[45].name == all_tool_names()[45]);
    assert(ranks()[45] == 0 && sources()[45] == 37);
    assert(ordered[46] == all[36]);
    assert(ordered[46].name == all_tool_names()[46]);
    assert(ranks()[46] == 42 && sources()[46] == 36);
    assert(ordered[47] == all[38]);
    assert(ordered[47].name == all_tool_names()[47]);
    assert(ranks()[47] == 44 && sources()[47] == 38);
    assert(ordered[48] == all[31]);
    assert(ordered[48].name == all_tool_names()[48]);
    assert(ranks()[48] == 33 && sources()[48] == 31);
    assert(ordered[49] == all[30]);
    assert(ordered[49].name == all_tool_names()[49]);
    assert(ranks()[49] == 11 && sources()[49] == 30);
    assert(ordered[50] == all[32]);
    assert(ordered[50].name == all_tool_names()[50]);
    assert(ranks()[50] == 7 && sources()[50] == 32);
}

proof fn lemma_catalog_value(tools: Seq<ToolView>, i: int)
    requires
        0 <= i < tools.len(),
        forall|x: int, y: int|
            0 <= x < y < tools.len() ==> (#[trigger] tools[x]).name != (#[trigger] tools[y]).name,
    ensures
        catalog_of(tools).dom().contains(tools[i].name),
        catalog_of(tools)[tools[i].name] == tools[i],
    decreases tools.len(),
{
    let rest = tools.drop_last();
    if i < tools.len() - 1 {
        assert forall|x: int, y: int| 0 <= x < y < rest.len() implies (#[trigger] rest[x]).name != (
        #[trigger] rest[y]).name by {
            assert(rest[x] == tools[x] && rest[y] == tools[y]);
        }
        lemma_catalog_value(rest, i);
        assert(rest[i] == tools[i]);
        assert(tools[i].name != tools[tools.len() - 1].name);
    }
}

/// A registry in name order that holds the known tools holds each of the
/// 51 names once, in this order.
pub proof fn law_registered_names(tools: Seq<ToolView>)
    requires
        in_name_order(tools),
        tool_map(tools) == catalog_of(every_tool()),
    ensures
        tools == tools_in_order(),
        tool_names(tools) == all_tool_names(),
        tools.len() == 51,
{
    let all = every_tool();
    let ordered = tools_in_order();
    lemma_named();
    assert forall|i: int, j: int| 0 <= i < j < ordered.len() implies text_lt(
        (#[trigger] ordered[i]).name,
        (#[trigger] ordered[j]).name,
    ) by {
        lemma_ascending(i, j);
    }
    assert forall|x: int, y: int| 0 <= x < y < all.len() implies (#[trigger] all[x]).name != (
    #[trigger] all[y]).name by {
        let a = ranks()[x];
        let b = ranks()[y];
        assert(ordered[a] == all[x] && ordered[b] == all[y]);
        lemma_distinct_ranks(x, y);
        if all[x].name == all[y].name {
            crate::order::lemma_key_irreflexive(text_key(all[x].name));
            if a < b {
                assert(text_lt(ordered[a].name, ordered[b].name));
            } else {
                assert(text_lt(ordered[b].name, ordered[a].name));
            }
        }
    }
    let m = tool_map(ordered);
    let n = catalog_of(all);
    assert forall|name: Seq<char>| #[trigger] m.dom().contains(name) implies n.dom().contains(name)
        && m[name] == n[name] by {
        let i = choose|i: int| 0 <= i < ordered.len() && (#[trigger] ordered[i]).name == name;
        lemma_tool_of(ordered, i);
        let k = sources()[i];
        assert(ordered[ranks()[k]] == all[k]);
        lemma_catalog_value(all, k);
    }
    assert forall|name: Seq<char>| #[trigger] n.dom().contains(name) implies m.dom().contains(
        name,
    ) by {
        lemma_catalog_only(all, name);
        let k = choose|k: int| 0 <= k < all.len() && (#[trigger] all[k]).name == name;
        assert(ordered[ranks()[k]] == all[k]);
    }
    assert(m =~= n);
    law_name_order_is_unique(tools, ordered);
    assert(tool_names(tools) =~= all_tool_names());
}

proof fn lemma_distinct_ranks(x: int, y: int)
    requires
        0 <= x < y < 51,
    ensures
        ranks()[x] != ranks()[y],
{
    lemma_sources_back();
    assert(sources()[ranks()[x]] == x);
    assert(sources()[ranks()[y]] == y);
}

proof fn lemma_sources_back()
    ensures
        forall|i: int| 0 <= i < 51 ==> #[trigger] sources()[ranks()[i]] == i,
{
    assert(sources()[ranks()[0]] == 0);
    assert(sources()[ranks()[1]] == 1);
    assert(sources()[ranks()[2]] == 2);
    assert(sources()[ranks()[3]] == 3);
    assert(sources()[ranks()[4]] == 4);
    assert(sources()[ranks()[5]] == 5);
    assert(sources()[ranks()[6]] == 6);
    assert(sources()[ranks()[7]] == 7);
    assert(sources()[ranks()[8]] == 8);
    assert(sources()[ranks()[9]] == 9);
    assert(sources()[ranks()[10]] == 10);
    assert(sources()[ranks()[11]] == 11);
    assert(sources()[ranks()[12]] == 12);
    assert(sources()[ranks()[13]] == 13);
    assert(sources()[ranks()[14]] == 14);
    assert(sources()[ranks()[15]] == 15);
    assert(sources()[ranks()[16]] == 16);
    assert(sources()[ranks()[17]] == 17);
    assert(sources()[ranks()[18]] == 18);
    assert(sources()[ranks()[19]] == 19);
    assert(sources()[ranks()[20]] == 20);
    assert(sources()[ranks()[21]] == 21);
    assert(sources()[ranks()[22]] == 22);
    assert(sources()[ranks()[23]] == 23);
    assert(sources()[ranks()[24]] == 24);
    assert(sources()[ranks()[25]] == 25);
    assert(sources()[ranks()[26]] == 26);
    assert(sources()[ranks()[27]] == 27);
    assert(sources()[ranks()[28]] == 28);
    assert(sources()[ranks()[29]] == 29);
    assert(sources()[ranks()[30]] == 30);
    assert(sources()[ranks()[31]] == 31);
    assert(sources()[ranks()[32]] == 32);
    assert(sources()[ranks()[33]] == 33);
    assert(sources()[ranks()[34]] == 34);
    assert(sources()[ranks()[35]] == 35);
    assert(sources()[ranks()[36]] == 36);
    assert(sources()[ranks()[37]] == 37);
    assert(sources()[ranks()[38]] == 38);
    assert(sources()[ranks()[39]] == 39);
    assert(sources()[ranks()[40]] == 40);
    assert(sources()[ranks()[41]] == 41);
    assert(sources()[ranks()[42]] == 42);
    assert(sources()[ranks()[43]] == 43);
    assert(sources()[ranks()[44]] == 44);
    assert(sources()[ranks()[45]] == 45);
    assert(sources()[ranks()[46]] == 46);
    assert(sources()[ranks()[47]] == 47);
    assert(sources()[ranks()[48]] == 48);
    assert(sources()[ranks()[49]] == 49);
    assert(sources()[ranks()[50]] == 50);
}

proof fn lemma_core_workspace_snapshot()
    ensures
        !beyond_core("workspace_snapshot"@),
{
    reveal_strlit("workspace_snapshot");
    let names = developer_tools();
    assert forall|i: int| 0 <= i < names.len() implies #[trigger] names[i] != "workspace_snapshot"@ by {
        if i == 0 {
            reveal_strlit("system_info");
            assert("system_info"@.len() != "workspace_snapshot"@.len());
        }
        if i == 1 {
            reveal_strlit("snapshot");
            assert("snapshot"@.len() != "workspace_snapshot"@.len());
        }
        if i == 2 {
            reveal_strlit("get_process");
            assert("get_process"@.len() != "workspace_snapshot"@.len());
        }
        if i == 3 {
            reveal_strlit("get_process_tree");
            assert("get_process_tree"@.len() != "workspace_snapshot"@.len());
        }
        if i == 4 {
            reveal_strlit("find_process");
            assert("find_process"@.len() != "workspace_snapshot"@.len());
        }
        if i == 5 {
            reveal_strlit("find_process_on_port");
            assert("find_process_on_port"@.len() != "workspace_snapshot"@.len());
        }
        if i == 6 {
            reveal_strlit("list_network_interfaces");
            assert("list_network_interfaces"@.len() != "workspace_snapshot"@.len());
        }
        if i == 7 {
            reveal_strlit("list_connections");
            assert("list_connections"@.len() != "workspace_snapshot"@.len());
        }
        if i == 8 {
            reveal_strlit("list_drives");
            assert("list_drives"@.len() != "workspace_snapshot"@.len());
        }
        if i == 9 {
            reveal_strlit("disk_usage");
            assert("disk_usage"@.len() != "workspace_snapshot"@.len());
        }
        if i == 10 {
            reveal_strlit("list_services");
            assert("list_services"@.len() != "workspace_snapshot"@.len());
        }
        if i == 11 {
            reveal_strlit("get_service");
            assert("get_service"@.len() != "workspace_snapshot"@.len());
        }
        if i == 12 {
            reveal_strlit("get_recent_events");
            assert("get_recent_events"@.len() != "workspace_snapshot"@.len());
        }
        if i == 13 {
            reveal_strlit("get_application_errors");
            assert("get_application_errors"@.len() != "workspace_snapshot"@.len());
        }
        if i == 14 {
            reveal_strlit("get_system_errors");
            assert("get_system_errors"@.len() != "workspace_snapshot"@.len());
        }
        if i == 15 {
            reveal_strlit("crash_history");
            assert("crash_history"@.len() != "workspace_snapshot"@.len());
        }
        if i == 16 {
            reveal_strlit("shutdown_analysis");
            assert("shutdown_analysis"@.len() != "workspace_snapshot"@.len());
        }
        if i == 17 {
            reveal_strlit("registry_diagnostics");
            assert("registry_diagnostics"@.len() != "workspace_snapshot"@.len());
        }
        if i == 18 {
            reveal_strlit("list_windows");
            assert("list_windows"@.len() != "workspace_snapshot"@.len());
        }
        if i == 19 {
            reveal_strlit("system_diagnose");
            assert("system_diagnose"@.len() != "workspace_snapshot"@.len());
        }
        if i == 20 {
            reveal_strlit("hardware_snapshot");
            assert("hardware_snapshot"@.len() != "workspace_snapshot"@.len());
        }
        if i == 21 {
            reveal_strlit("thermal_snapshot");
            assert("thermal_snapshot"@.len() != "workspace_snapshot"@.len());
        }
        if i == 22 {
            reveal_strlit("battery_status");
            assert("battery_status"@.len() != "workspace_snapshot"@.len());
        }
        if i == 23 {
            reveal_strlit("power_status");
            assert("power_status"@.len() != "workspace_snapshot"@.len());
        }
        if i == 24 {
            reveal_strlit("disk_health");
            assert("disk_health"@.len() != "workspace_snapshot"@.len());
        }
        if i == 25 {
            reveal_strlit("disk_performance");
            assert("disk_performance"@.len() != "workspace_snapshot"@.len());
        }
        if i == 26 {
            reveal_strlit("network_snapshot");
            assert("network_snapshot"@.len() != "workspace_snapshot"@.len());
        }
        if i == 27 {
            reveal_strlit("network_diagnose");
            assert("network_diagnose"@.len() != "workspace_snapshot"@.len());
        }
        if i == 28 {
            reveal_strlit("wifi_status");
            assert("wifi_status"@.len() != "workspace_snapshot"@.len());
        }
        if i == 29 {
            reveal_strlit("wifi_scan");
            assert("wifi_scan"@.len() != "workspace_snapshot"@.len());
        }
        if i == 30 {
            reveal_strlit("startup_programs");
            assert("startup_programs"@.len() != "workspace_snapshot"@.len());
        }
        if i == 31 {
            reveal_strlit("audit_path_env");
            assert("audit_path_env"@.len() != "workspace_snapshot"@.len());
        }
        if i == 32 {
            reveal_strlit("system_update_status");
            assert("system_update_status"@.len() != "workspace_snapshot"@.len());
        }
        if i == 33 {
            reveal_strlit("read_text_file");
            assert("read_text_file"@.len() != "workspace_snapshot"@.len());
        }
        if i == 34 {
            reveal_strlit("find_files");
            assert("find_files"@.len() != "workspace_snapshot"@.len());
        }
        if i == 35 {
            reveal_strlit("directory_overview");
            assert("directory_overview"@[0] != "workspace_snapshot"@[0]);
        }
        if i == 36 {
            reveal_strlit("dev_environment");
            assert("dev_environment"@.len() != "workspace_snapshot"@.len());
        }
        if i == 37 {
            reveal_strlit("list_dev_servers");
            assert("list_dev_servers"@.len() != "workspace_snapshot"@.len());
        }
        if i == 38 {
            reveal_strlit("diagnose_workspace");
            assert("diagnose_workspace"@[0] != "workspace_snapshot"@[0]);
        }
        if i == 39 {
            reveal_strlit("diagnose_local_webapp");
            assert("diagnose_local_webapp"@.len() != "workspace_snapshot"@.len());
        }
        if i == 40 {
            reveal_strlit("wait_for_port");
            assert("wait_for_port"@.len() != "workspace_snapshot"@.len());
        }
        if i == 41 {
            reveal_strlit("wait_for_http");
            assert("wait_for_http"@.len() != "workspace_snapshot"@.len());
        }
        if i == 42 {
            reveal_strlit("wait_for_process");
            assert("wait_for_process"@.len() != "workspace_snapshot"@.len());
        }
        if i == 43 {
            reveal_strlit("correlate_recent_failures");
            assert("correlate_recent_failures"@.len() != "workspace_snapshot"@.len());
        }
        if i == 44 {
            reveal_strlit("system_health_trend");
            assert("system_health_trend"@.len() != "workspace_snapshot"@.len());
        }
    }
}

proof fn lemma_core_system_health()
    ensures
        !beyond_core("system_health"@),
{
    reveal_strlit("system_health");
    let names = developer_tools();
    assert forall|i: int| 0 <= i < names.len() implies #[trigger] names[i] != "system_health"@ by {
        if i == 0 {
            reveal_strlit("system_info");
            assert("system_info"@.len() != "system_health"@.len());
        }
        if i == 1 {
            reveal_strlit("snapshot");
            assert("snapshot"@.len() != "system_health"@.len());
        }
        if i == 2 {
            reveal_strlit("get_process");
            assert("get_process"@.len() != "system_health"@.len());
        }
        if i == 3 {
            reveal_strlit("get_process_tree");
            assert("get_process_tree"@.len() != "system_health"@.len());
        }
        if i == 4 {
            reveal_strlit("find_process");
            assert("find_process"@.len() != "system_health"@.len());
        }
        if i == 5 {
            reveal_strlit("find_process_on_port");
            assert("find_process_on_port"@.len() != "system_health"@.len());
        }
        if i == 6 {
            reveal_strlit("list_network_interfaces");
            assert("list_network_interfaces"@.len() != "system_health"@.len());
        }
        if i == 7 {
            reveal_strlit("list_connections");
            assert("list_connections"@.len() != "system_health"@.len());
        }
        if i == 8 {
            reveal_strlit("list_drives");
            assert("list_drives"@.len() != "system_health"@.len());
        }
        if i == 9 {
            reveal_strlit("disk_usage");
            assert("disk_usage"@.len() != "system_health"@.len());
        }
        if i == 10 {
            reveal_strlit("list_services");
            assert("list_services"@[0] != "system_health"@[0]);
        }
        if i == 11 {
            reveal_strlit("get_service");
            assert("get_service"@.len() != "system_health"@.len());
        }
        if i == 12 {
            reveal_strlit("get_recent_events");
            assert("get_recent_events"@.len() != "system_health"@.len());
        }
        if i == 13 {
            reveal_strlit("get_application_errors");
            assert("get_application_errors"@.len() != "system_health"@.len());
        }
        if i == 14 {
            reveal_strlit("get_system_errors");
            assert("get_system_errors"@.len() != "system_health"@.len());
        }
        if i == 15 {
            reveal_strlit("crash_history");
            assert("crash_history"@[0] != "system_health"@[0]);
        }
        if i == 16 {
            reveal_strlit("shutdown_analysis");
            assert("shutdown_analysis"@.len() != "system_health"@.len());
        }
        if i == 17 {
            reveal_strlit("registry_diagnostics");
            assert("registry_diagnostics"@.len() != "system_health"@.len());
        }
        if i == 18 {
            reveal_strlit("list_windows");
            assert("list_windows"@.len() != "system_health"@.len());
        }
        if i == 19 {
            reveal_strlit("system_diagnose");
            assert("system_diagnose"@.len() != "system_health"@.len());
        }
        if i == 20 {
            reveal_strlit("hardware_snapshot");
            assert("hardware_snapshot"@.len() != "system_health"@.len());
        }
        if i == 21 {
            reveal_strlit("thermal_snapshot");
            assert("thermal_snapshot"@.len() != "system_health"@.len());
        }
        if i == 22 {
            reveal_strlit("battery_status");
            assert("battery_status"@.len() != "system_health"@.len());
        }
        if i == 23 {
            reveal_strlit("power_status");
            assert("power_status"@.len() != "system_health"@.len());
        }
        if i == 24 {
            reveal_strlit("disk_health");
            assert("disk_health"@.len() != "system_health"@.len());
        }
        if i == 25 {
            reveal_strlit("disk_performance");
            assert("disk_performance"@.len() != "system_health"@.len());
        }
        if i == 26 {
            reveal_strlit("network_snapshot");
            assert("network_snapshot"@.len() != "system_health"@.len());
        }
        if i == 27 {
            reveal_strlit("network_diagnose");
            assert("network_diagnose"@.len() != "system_health"@.len());
        }
        if i == 28 {
            reveal_strlit("wifi_status");
            assert("wifi_status"@.len() != "system_health"@.len());
        }
        if i == 29 {
            reveal_strlit("wifi_scan");
            assert("wifi_scan"@.len() != "system_health"@.len());
        }
        if i == 30 {
            reveal_strlit("startup_programs");
            assert("startup_programs"@.len() != "system_health"@.len());
        }
        if i == 31 {
            reveal_strlit("audit_path_env");
            assert("audit_path_env"@.len() != "system_health"@.len());
        }
        if i == 32 {
            reveal_strlit("system_update_status");
            assert("system_update_status"@.len() != "system_health"@.len());
        }
        if i == 33 {
            reveal_strlit("read_text_file");
            assert("read_text_file"@.len() != "system_health"@.len());
        }
        if i == 34 {
            reveal_strlit("find_files");
            assert("find_files"@.len() != "system_health"@.len());
        }
        if i == 35 {
            reveal_strlit("directory_overview");
            assert("directory_overview"@.len() != "system_health"@.len());
        }
        if i == 36 {
            reveal_strlit("dev_environment");
            assert("dev_environment"@.len() != "system_health"@.len());
        }
        if i == 37 {
            reveal_strlit("list_dev_servers");
            assert("list_dev_servers"@.len() != "system_health"@.len());
        }
        if i == 38 {
            reveal_strlit("diagnose_workspace");
            assert("diagnose_workspace"@.len() != "system_health"@.len());
        }
        if i == 39 {
            reveal_strlit("diagnose_local_webapp");
            assert("diagnose_local_webapp"@.len() != "system_health"@.len());
        }
        if i == 40 {
            reveal_strlit("wait_for_port");
            assert("wait_for_port"@[0] != "system_health"@[0]);
        }
        if i == 41 {
            reveal_strlit("wait_for_http");
            assert("wait_for_http"@[0] != "system_health"@[0]);
        }
        if i == 42 {
            reveal_strlit("wait_for_process");
            assert("wait_for_process"@.len() != "system_health"@.len());
        }
        if i == 43 {
            reveal_strlit("correlate_recent_failures");
            assert("correlate_recent_failures"@.len() != "system_health"@.len());
        }
        if i == 44 {
            reveal_strlit("system_health_trend");
            assert("system_health_trend"@.len() != "system_health"@.len());
        }
    }
}

proof fn lemma_core_list_processes()
    ensures
        !beyond_core("list_processes"@),
{
    reveal_strlit("list_processes");
    let names = developer_tools();
    assert forall|i: int| 0 <= i < names.len() implies #[trigger] names[i] != "list_processes"@ by {
        if i == 0 {
            reveal_strlit("system_info");
            assert("system_info"@.len() != "list_processes"@.len());
        }
        if i == 1 {
            reveal_strlit("snapshot");
            assert("snapshot"@.len() != "list_processes"@.len());
        }
        if i == 2 {
            reveal_strlit("get_process");
            assert("get_process"@.len() != "list_processes"@.len());
        }
        if i == 3 {
            reveal_strlit("get_process_tree");
            assert("get_process_tree"@.len() != "list_processes"@.len());
        }
        if i == 4 {
            reveal_strlit("find_process");
            assert("find_process"@.len() != "list_processes"@.len());
        }
        if i == 5 {
            reveal_strlit("find_process_on_port");
            assert("find_process_on_port"@.len() != "list_processes"@.len());
        }
        if i == 6 {
            reveal_strlit("list_network_interfaces");
            assert("list_network_interfaces"@.len() != "list_processes"@.len());
        }
        if i == 7 {
            reveal_strlit("list_connections");
            assert("list_connections"@.len() != "list_processes"@.len());
        }
        if i == 8 {
            reveal_strlit("list_drives");
            assert("list_drives"@.len() != "list_processes"@.len());
        }
        if i == 9 {
            reveal_strlit("disk_usage");
            assert("disk_usage"@.len() != "list_processes"@.len());
        }
        if i == 10 {
            reveal_strlit("list_services");
            assert("list_services"@.len() != "list_processes"@.len());
        }
        if i == 11 {
            reveal_strlit("get_service");
            assert("get_service"@.len() != "list_processes"@.len());
        }
        if i == 12 {
            reveal_strlit("get_recent_events");
            assert("get_recent_events"@.len() != "list_processes"@.len());
        }
        if i == 13 {
            reveal_strlit("get_application_errors");
            assert("get_application_errors"@.len() != "list_processes"@.len());
        }
        if i == 14 {
            reveal_strlit("get_system_errors");
            assert("get_system_errors"@.len() != "list_processes"@.len());
        }
        if i == 15 {
            reveal_strlit("crash_history");
            assert("crash_history"@.len() != "list_processes"@.len());
        }
        if i == 16 {
            reveal_strlit("shutdown_analysis");
            assert("shutdown_analysis"@.len() != "list_processes"@.len());
        }
        if i == 17 {
            reveal_strlit("registry_diagnostics");
            assert("registry_diagnostics"@.len() != "list_processes"@.len());
        }
        if i == 18 {
            reveal_strlit("list_windows");
            assert("list_windows"@.len() != "list_processes"@.len());
        }
        if i == 19 {
            reveal_strlit("system_diagnose");
            assert("system_diagnose"@.len() != "list_processes"@.len());
        }
        if i == 20 {
            reveal_strlit("hardware_snapshot");
            assert("hardware_snapshot"@.len() != "list_processes"@.len());
        }
        if i == 21 {
            reveal_strlit("thermal_snapshot");
            assert("thermal_snapshot"@.len() != "list_processes"@.len());
        }
        if i == 22 {
            reveal_strlit("battery_status");
            assert("battery_status"@[0] != "list_processes"@[0]);
        }
        if i == 23 {
            reveal_strlit("power_status");
            assert("power_status"@.len() != "list_processes"@.len());
        }
        if i == 24 {
            reveal_strlit("disk_health");
            assert("disk_health"@.len() != "list_processes"@.len());
        }
        if i == 25 {
            reveal_strlit("disk_performance");
            assert("disk_performance"@.len() != "list_processes"@.len());
        }
        if i == 26 {
            reveal_strlit("network_snapshot");
            assert("network_snapshot"@.len() != "list_processes"@.len());
        }
        if i == 27 {
            reveal_strlit("network_diagnose");
            assert("network_diagnose"@.len() != "list_processes"@.len());
        }
        if i == 28 {
            reveal_strlit("wifi_status");
            assert("wifi_status"@.len() != "list_processes"@.len());
        }
        if i == 29 {
            reveal_strlit("wifi_scan");
            assert("wifi_scan"@.len() != "list_processes"@.len());
        }
        if i == 30 {
            reveal_strlit("startup_programs");
            assert("startup_programs"@.len() != "list_processes"@.len());
        }
        if i == 31 {
            reveal_strlit("audit_path_env");
            assert("audit_path_env"@[0] != "list_processes"@[0]);
        }
        if i == 32 {
            reveal_strlit("system_update_status");
            assert("system_update_status"@.len() != "list_processes"@.len());
        }
        if i == 33 {
            reveal_strlit("read_text_file");
            assert("read_text_file"@[0] != "list_processes"@[0]);
        }
        if i == 34 {
            reveal_strlit("find_files");
            assert("find_files"@.len() != "list_processes"@.len());
        }
        if i == 35 {
            reveal_strlit("directory_overview");
            assert("directory_overview"@.len() != "list_processes"@.len());
        }
        if i == 36 {
            reveal_strlit("dev_environment");
            assert("dev_environment"@.len() != "list_processes"@.len());
        }
        if i == 37 {
            reveal_strlit("list_dev_servers");
            assert("list_dev_servers"@.len() != "list_processes"@.len());
        }
        if i == 38 {
            reveal_strlit("diagnose_workspace");
            assert("diagnose_workspace"@.len() != "list_processes"@.len());
        }
        if i == 39 {
            reveal_strlit("diagnose_local_webapp");
            assert("diagnose_local_webapp"@.len() != "list_processes"@.len());
        }
        if i == 40 {
            reveal_strlit("wait_for_port");
            assert("wait_for_port"@.len() != "list_processes"@.len());
        }
        if i == 41 {
            reveal_strlit("wait_for_http");
            assert("wait_for_http"@.len() != "list_processes"@.len());
        }
        if i == 42 {
            reveal_strlit("wait_for_process");
            assert("wait_for_process"@.len() != "list_processes"@.len());
        }
        if i == 43 {
            reveal_strlit("correlate_recent_failures");
            assert("correlate_recent_failures"@.len() != "list_processes"@.len());
        }
        if i == 44 {
            reveal_strlit("system_health_trend");
            assert("system_health_trend"@.len() != "list_processes"@.len());
        }
    }
}

proof fn lemma_core_list_listening_ports()
    ensures
        !beyond_core("list_listening_ports"@),
{
    reveal_strlit("list_listening_ports");
    let names = developer_tools();
    assert forall|i: int| 0 <= i < names.len() implies #[trigger] names[i] != "list_listening_ports"@ by {
        if i == 0 {
            reveal_strlit("system_info");
            assert("system_info"@.len() != "list_listening_ports"@.len());
        }
        if i == 1 {
            reveal_strlit("snapshot");
            assert("snapshot"@.len() != "list_listening_ports"@.len());
        }
        if i == 2 {
            reveal_strlit("get_process");
            assert("get_process"@.len() != "list_listening_ports"@.len());
        }
        if i == 3 {
            reveal_strlit("get_process_tree");
            assert("get_process_tree"@.len() != "list_listening_ports"@.len());
        }
        if i == 4 {
            reveal_strlit("find_process");
            assert("find_process"@.len() != "list_listening_ports"@.len());
        }
        if i == 5 {
            reveal_strlit("find_process_on_port");
            assert("find_process_on_port"@[0] != "list_listening_ports"@[0]);
        }
        if i == 6 {
            reveal_strlit("list_network_interfaces");
            assert("list_network_interfaces"@.len() != "list_listening_ports"@.len());
        }
        if i == 7 {
            reveal_strlit("list_connections");
            assert("list_connections"@.len() != "list_listening_ports"@.len());
        }
        if i == 8 {
            reveal_strlit("list_drives");
            assert("list_drives"@.len() != "list_listening_ports"@.len());
        }
        if i == 9 {
            reveal_strlit("disk_usage");
            assert("disk_usage"@.len() != "list_listening_ports"@.len());
        }
        if i == 10 {
            reveal_strlit("list_services");
            assert("list_services"@.len() != "list_listening_ports"@.len());
        }
        if i == 11 {
            reveal_strlit("get_service");
            assert("get_service"@.len() != "list_listening_ports"@.len());
        }
        if i == 12 {
            reveal_strlit("get_recent_events");
            assert("get_recent_events"@.len() != "list_listening_ports"@.len());
        }
        if i == 13 {
            reveal_strlit("get_application_errors");
            assert("get_application_errors"@.len() != "list_listening_ports"@.len());
        }
        if i == 14 {
            reveal_strlit("get_system_errors");
            assert("get_system_errors"@.len() != "list_listening_ports"@.len());
        }
        if i == 15 {
            reveal_strlit("crash_history");
            assert("crash_history"@.len() != "list_listening_ports"@.len());
        }
        if i == 16 {
            reveal_strlit("shutdown_analysis");
            assert("shutdown_analysis"@.len() != "list_listening_ports"@.len());
        }
        if i == 17 {
            reveal_strlit("registry_diagnostics");
            assert("registry_diagnostics"@[0] != "list_listening_ports"@[0]);
        }
        if i == 18 {
            reveal_strlit("list_windows");
            assert("list_windows"@.len() != "list_listening_ports"@.len());
        }
        if i == 19 {
            reveal_strlit("system_diagnose");
            assert("system_diagnose"@.len() != "list_listening_ports"@.len());
        }
        if i == 20 {
            reveal_strlit("hardware_snapshot");
            assert("hardware_snapshot"@.len() != "list_listening_ports"@.len());
        }
        if i == 21 {
            reveal_strlit("thermal_snapshot");
            assert("thermal_snapshot"@.len() != "list_listening_ports"@.len());
        }
        if i == 22 {
            reveal_strlit("battery_status");
            assert("battery_status"@.len() != "list_listening_ports"@.len());
        }
        if i == 23 {
            reveal_strlit("power_status");
            assert("power_status"@.len() != "list_listening_ports"@.len());
        }
        if i == 24 {
            reveal_strlit("disk_health");
            assert("disk_health"@.len() != "list_listening_ports"@.len());
        }
        if i == 25 {
            reveal_strlit("disk_performance");
            assert("disk_performance"@.len() != "list_listening_ports"@.len());
        }
        if i == 26 {
            reveal_strlit("network_snapshot");
            assert("network_snapshot"@.len() != "list_listening_ports"@.len());
        }
        if i == 27 {
            reveal_strlit("network_diagnose");
            assert("network_diagnose"@.len() != "list_listening_ports"@.len());
        }
        if i == 28 {
            reveal_strlit("wifi_status");
            assert("wifi_status"@.len() != "list_listening_ports"@.len());
        }
        if i == 29 {
            reveal_strlit("wifi_scan");
            assert("wifi_scan"@.len() != "list_listening_ports"@.len());
        }
        if i == 30 {
            reveal_strlit("startup_programs");
            assert("startup_programs"@.len() != "list_listening_ports"@.len());
        }
        if i == 31 {
            reveal_strlit("audit_path_env");
            assert("audit_path_env"@.len() != "list_listening_ports"@.len());
        }
        if i == 32 {
            reveal_strlit("system_update_status");
            assert("system_update_status"@[0] != "list_listening_ports"@[0]);
        }
        if i == 33 {
            reveal_strlit("read_text_file");
            assert("read_text_file"@.len() != "list_listening_ports"@.len());
        }
        if i == 34 {
            reveal_strlit("find_files");
            assert("find_files"@.len() != "list_listening_ports"@.len());
        }
        if i == 35 {
            reveal_strlit("directory_overview");
            assert("directory_overview"@.len() != "list_listening_ports"@.len());
        }
        if i == 36 {
            reveal_strlit("dev_environment");
            assert("dev_environment"@.len() != "list_listening_ports"@.len());
        }
        if i == 37 {
            reveal_strlit("list_dev_servers");
            assert("list_dev_servers"@.len() != "list_listening_ports"@.len());
        }
        if i == 38 {
            reveal_strlit("diagnose_workspace");
            assert("diagnose_workspace"@.len() != "list_listening_ports"@.len());
        }
        if i == 39 {
            reveal_strlit("diagnose_local_webapp");
            assert("diagnose_local_webapp"@.len() != "list_listening_ports"@.len());
        }
        if i == 40 {
            reveal_strlit("wait_for_port");
            assert("wait_for_port"@.len() != "list_listening_ports"@.len());
        }
        if i == 41 {
            reveal_strlit("wait_for_http");
            assert("wait_for_http"@.len() != "list_listening_ports"@.len());
        }
        if i == 42 {
            reveal_strlit("wait_for_process");
            assert("wait_for_process"@.len() != "list_listening_ports"@.len());
        }
        if i == 43 {
            reveal_strlit("correlate_recent_failures");
            assert("correlate_recent_failures"@.len() != "list_listening_ports"@.len());
        }
        if i == 44 {
            reveal_strlit("system_health_trend");
            assert("system_health_trend"@.len() != "list_listening_ports"@.len());
        }
    }
}

proof fn lemma_core_privacy_info()
    ensures
        !beyond_core("privacy_info"@),
{
    reveal_strlit("privacy_info");
    let names = developer_tools();
    assert forall|i: int| 0 <= i < names.len() implies #[trigger] names[i] != "privacy_info"@ by {
        if i == 0 {
            reveal_strlit("system_info");
            assert("system_info"@.len() != "privacy_info"@.len());
        }
        if i == 1 {
            reveal_strlit("snapshot");
            assert("snapshot"@.len() != "privacy_info"@.len());
        }
        if i == 2 {
            reveal_strlit("get_process");
            assert("get_process"@.len() != "privacy_info"@.len());
        }
        if i == 3 {
            reveal_strlit("get_process_tree");
            assert("get_process_tree"@.len() != "privacy_info"@.len());
        }
        if i == 4 {
            reveal_strlit("find_process");
            assert("find_process"@[0] != "privacy_info"@[0]);
        }
        if i == 5 {
            reveal_strlit("find_process_on_port");
            assert("find_process_on_port"@.len() != "privacy_info"@.len());
        }
        if i == 6 {
            reveal_strlit("list_network_interfaces");
            assert("list_network_interfaces"@.len() != "privacy_info"@.len());
        }
        if i == 7 {
            reveal_strlit("list_connections");
            assert("list_connections"@.len() != "privacy_info"@.len());
        }
        if i == 8 {
            reveal_strlit("list_drives");
            assert("list_drives"@.len() != "privacy_info"@.len());
        }
        if i == 9 {
            reveal_strlit("disk_usage");
            assert("disk_usage"@.len() != "privacy_info"@.len());
        }
        if i == 10 {
            reveal_strlit("list_services");
            assert("list_services"@.len() != "privacy_info"@.len());
        }
        if i == 11 {
            reveal_strlit("get_service");
            assert("get_service"@.len() != "privacy_info"@.len());
        }
        if i == 12 {
            reveal_strlit("get_recent_events");
            assert("get_recent_events"@.len() != "privacy_info"@.len());
        }
        if i == 13 {
            reveal_strlit("get_application_errors");
            assert("get_application_errors"@.len() != "privacy_info"@.len());
        }
        if i == 14 {
            reveal_strlit("get_system_errors");
            assert("get_system_errors"@.len() != "privacy_info"@.len());
        }
        if i == 15 {
            reveal_strlit("crash_history");
            assert("crash_history"@.len() != "privacy_info"@.len());
        }
        if i == 16 {
            reveal_strlit("shutdown_analysis");
            assert("shutdown_analysis"@.len() != "privacy_info"@.len());
        }
        if i == 17 {
            reveal_strlit("registry_diagnostics");
            assert("registry_diagnostics"@.len() != "privacy_info"@.len());
        }
        if i == 18 {
            reveal_strlit("list_windows");
            assert("list_windows"@[0] != "privacy_info"@[0]);
        }
        if i == 19 {
            reveal_strlit("system_diagnose");
            assert("system_diagnose"@.len() != "privacy_info"@.len());
        }
        if i == 20 {
            reveal_strlit("hardware_snapshot");
            assert("hardware_snapshot"@.len() != "privacy_info"@.len());
        }
        if i == 21 {
            reveal_strlit("thermal_snapshot");
            assert("thermal_snapshot"@.len() != "privacy_info"@.len());
        }
        if i == 22 {
            reveal_strlit("battery_status");
            assert("battery_status"@.len() != "privacy_info"@.len());
        }
        if i == 23 {
            reveal_strlit("power_status");
            assert("power_status"@[1] != "privacy_info"@[1]);
        }
        if i == 24 {
            reveal_strlit("disk_health");
            assert("disk_health"@.len() != "privacy_info"@.len());
        }
        if i == 25 {
            reveal_strlit("disk_performance");
            assert("disk_performance"@.len() != "privacy_info"@.len());
        }
        if i == 26 {
            reveal_strlit("network_snapshot");
            assert("network_snapshot"@.len() != "privacy_info"@.len());
        }
        if i == 27 {
            reveal_strlit("network_diagnose");
            assert("network_diagnose"@.len() != "privacy_info"@.len());
        }
        if i == 28 {
            reveal_strlit("wifi_status");
            assert("wifi_status"@.len() != "privacy_info"@.len());
        }
        if i == 29 {
            reveal_strlit("wifi_scan");
            assert("wifi_scan"@.len() != "privacy_info"@.len());
        }
        if i == 30 {
            reveal_strlit("startup_programs");
            assert("startup_programs"@.len() != "privacy_info"@.len());
        }
        if i == 31 {
            reveal_strlit("audit_path_env");
            assert("audit_path_env"@.len() != "privacy_info"@.len());
        }
        if i == 32 {
            reveal_strlit("system_update_status");
            assert("system_update_status"@.len() != "privacy_info"@.len());
        }
        if i == 33 {
            reveal_strlit("read_text_file");
            assert("read_text_file"@.len() != "privacy_info"@.len());
        }
        if i == 34 {
            reveal_strlit("find_files");
            assert("find_files"@.len() != "privacy_info"@.len());
        }
        if i == 35 {
            reveal_strlit("directory_overview");
            assert("directory_overview"@.len() != "privacy_info"@.len());
        }
        if i == 36 {
            reveal_strlit("dev_environment");
            assert("dev_environment"@.len() != "privacy_info"@.len());
        }
        if i == 37 {
            reveal_strlit("list_dev_servers");
            assert("list_dev_servers"@.len() != "privacy_info"@.len());
        }
        if i == 38 {
            reveal_strlit("diagnose_workspace");
            assert("diagnose_workspace"@.len() != "privacy_info"@.len());
        }
        if i == 39 {
            reveal_strlit("diagnose_local_webapp");
            assert("diagnose_local_webapp"@.len() != "privacy_info"@.len());
        }
        if i == 40 {
            reveal_strlit("wait_for_port");
            assert("wait_for_port"@.len() != "privacy_info"@.len());
        }
        if i == 41 {
            reveal_strlit("wait_for_http");
            assert("wait_for_http"@.len() != "privacy_info"@.len());
        }
        if i == 42 {
            reveal_strlit("wait_for_process");
            assert("wait_for_process"@.len() != "privacy_info"@.len());
        }
        if i == 43 {
            reveal_strlit("correlate_recent_failures");
            assert("correlate_recent_failures"@.len() != "privacy_info"@.len());
        }
        if i == 44 {
            reveal_strlit("system_health_trend");
            assert("system_health_trend"@.len() != "privacy_info"@.len());
        }
    }
}

proof fn lemma_core_tool_guide()
    ensures
        !beyond_core("tool_guide"@),
{
    reveal_strlit("tool_guide");
    let names = developer_tools();
    assert forall|i: int| 0 <= i < names.len() implies #[trigger] names[i] != "tool_guide"@ by {
        if i == 0 {
            reveal_strlit("system_info");
            assert("system_info"@.len() != "tool_guide"@.len());
        }
        if i == 1 {
            reveal_strlit("snapshot");
            assert("snapshot"@.len() != "tool_guide"@.len());
        }
        if i == 2 {
            reveal_strlit("get_process");
            assert("get_process"@.len() != "tool_guide"@.len());
        }
        if i == 3 {
            reveal_strlit("get_process_tree");
            assert("get_process_tree"@.len() != "tool_guide"@.len());
        }
        if i == 4 {
            reveal_strlit("find_process");
            assert("find_process"@.len() != "tool_guide"@.len());
        }
        if i == 5 {
            reveal_strlit("find_process_on_port");
            assert("find_process_on_port"@.len() != "tool_guide"@.len());
        }
        if i == 6 {
            reveal_strlit("list_network_interfaces");
            assert("list_network_interfaces"@.len() != "tool_guide"@.len());
        }
        if i == 7 {
            reveal_strlit("list_connections");
            assert("list_connections"@.len() != "tool_guide"@.len());
        }
        if i == 8 {
            reveal_strlit("list_drives");
            assert("list_drives"@.len() != "tool_guide"@.len());
        }
        if i == 9 {
            reveal_strlit("disk_usage");
            assert("disk_usage"@[0] != "tool_guide"@[0]);
        }
        if i == 10 {
            reveal_strlit("list_services");
            assert("list_services"@.len() != "tool_guide"@.len());
        }
        if i == 11 {
            reveal_strlit("get_service");
            assert("get_service"@.len() != "tool_guide"@.len());
        }
        if i == 12 {
            reveal_strlit("get_recent_events");
            assert("get_recent_events"@.len() != "tool_guide"@.len());
        }
        if i == 13 {
            reveal_strlit("get_application_errors");
            assert("get_application_errors"@.len() != "tool_guide"@.len());
        }
        if i == 14 {
            reveal_strlit("get_system_errors");
            assert("get_system_errors"@.len() != "tool_guide"@.len());
        }
        if i == 15 {
            reveal_strlit("crash_history");
            assert("crash_history"@.len() != "tool_guide"@.len());
        }
        if i == 16 {
            reveal_strlit("shutdown_analysis");
            assert("shutdown_analysis"@.len() != "tool_guide"@.len());
        }
        if i == 17 {
            reveal_strlit("registry_diagnostics");
            assert("registry_diagnostics"@.len() != "tool_guide"@.len());
        }
        if i == 18 {
            reveal_strlit("list_windows");
            assert("list_windows"@.len() != "tool_guide"@.len());
        }
        if i == 19 {
            reveal_strlit("system_diagnose");
            assert("system_diagnose"@.len() != "tool_guide"@.len());
        }
        if i == 20 {
            reveal_strlit("hardware_snapshot");
            assert("hardware_snapshot"@.len() != "tool_guide"@.len());
        }
        if i == 21 {
            reveal_strlit("thermal_snapshot");
            assert("thermal_snapshot"@.len() != "tool_guide"@.len());
        }
        if i == 22 {
            reveal_strlit("battery_status");
            assert("battery_status"@.len() != "tool_guide"@.len());
        }
        if i == 23 {
            reveal_strlit("power_status");
            assert("power_status"@.len() != "tool_guide"@.len());
        }
        if i == 24 {
            reveal_strlit("disk_health");
            assert("disk_health"@.len() != "tool_guide"@.len());
        }
        if i == 25 {
            reveal_strlit("disk_performance");
            assert("disk_performance"@.len() != "tool_guide"@.len());
        }
        if i == 26 {
            reveal_strlit("network_snapshot");
            assert("network_snapshot"@.len() != "tool_guide"@.len());
        }
        if i == 27 {
            reveal_strlit("network_diagnose");
            assert("network_diagnose"@.len() != "tool_guide"@.len());
        }
        if i == 28 {
            reveal_strlit("wifi_status");
            assert("wifi_status"@.len() != "tool_guide"@.len());
        }
        if i == 29 {
            reveal_strlit("wifi_scan");
            assert("wifi_scan"@.len() != "tool_guide"@.len());
        }
        if i == 30 {
            reveal_strlit("startup_programs");
            assert("startup_programs"@.len() != "tool_guide"@.len());
        }
        if i == 31 {
            reveal_strlit("audit_path_env");
            assert("audit_path_env"@.len() != "tool_guide"@.len());
        }
        if i == 32 {
            reveal_strlit("system_update_status");
            assert("system_update_status"@.len() != "tool_guide"@.len());
        }
        if i == 33 {
            reveal_strlit("read_text_file");
            assert("read_text_file"@.len() != "tool_guide"@.len());
        }
        if i == 34 {
            reveal_strlit("find_files");
            assert("find_files"@[0] != "tool_guide"@[0]);
        }
        if i == 35 {
            reveal_strlit("directory_overview");
            assert("directory_overview"@.len() != "tool_guide"@.len());
        }
        if i == 36 {
            reveal_strlit("dev_environment");
            assert("dev_environment"@.len() != "tool_guide"@.len());
        }
        if i == 37 {
            reveal_strlit("list_dev_servers");
            assert("list_dev_servers"@.len() != "tool_guide"@.len());
        }
        if i == 38 {
            reveal_strlit("diagnose_workspace");
            assert("diagnose_workspace"@.len() != "tool_guide"@.len());
        }
        if i == 39 {
            reveal_strlit("diagnose_local_webapp");
            assert("diagnose_local_webapp"@.len() != "tool_guide"@.len());
        }
        if i == 40 {
            reveal_strlit("wait_for_port");
            assert("wait_for_port"@.len() != "tool_guide"@.len());
        }
        if i == 41 {
            reveal_strlit("wait_for_http");
            assert("wait_for_http"@.len() != "tool_guide"@.len());
        }
        if i == 42 {
            reveal_strlit("wait_for_process");
            assert("wait_for_process"@.len() != "tool_guide"@.len());
        }
        if i == 43 {
            reveal_strlit("correlate_recent_failures");
            assert("correlate_recent_failures"@.len() != "tool_guide"@.len());
        }
        if i == 44 {
            reveal_strlit("system_health_trend");
            assert("system_health_trend"@.len() != "tool_guide"@.len());
        }
    }
}

/// The profile `core` offers the six essentials and no other known tool.
pub proof fn law_core_is_the_essentials(name: Seq<char>)
    requires
        is_known(name),
    ensures
        in_profile(name, ToolProfile::Core) <==> core_tools().contains(name),
        core_tools().len() == 6,
{
    lemma_core_workspace_snapshot();
    lemma_core_system_health();
    lemma_core_list_processes();
    lemma_core_list_listening_ports();
    lemma_core_privacy_info();
    lemma_core_tool_guide();
    let i = choose|i: int| 0 <= i < every_tool().len() && (#[trigger] every_tool()[i]).name == name;
    let core = core_tools();
    let more = developer_tools();
    if i == 0 {
        assert(more[0] == name);
    }
    if i == 1 {
        assert(more[1] == name);
    }
    if i == 2 {
        assert(core[2] == name);
    }
    if i == 3 {
        assert(more[2] == name);
    }
    if i == 4 {
        assert(more[3] == name);
    }
    if i == 5 {
        assert(more[4] == name);
    }
    if i == 6 {
        assert(core[3] == name);
    }
    if i == 7 {
        assert(more[5] == name);
    }
    if i == 8 {
        assert(more[6] == name);
    }
    if i == 9 {
        assert(more[7] == name);
    }
    if i == 10 {
        assert(more[8] == name);
    }
    if i == 11 {
        assert(more[9] == name);
    }
    if i == 12 {
        assert(more[10] == name);
    }
    if i == 13 {
        assert(more[11] == name);
    }
    if i == 14 {
        assert(more[12] == name);
    }
    if i == 15 {
        assert(more[13] == name);
    }
    if i == 16 {
        assert(more[14] == name);
    }
    if i == 17 {
        assert(more[15] == name);
    }
    if i == 18 {
        assert(more[16] == name);
    }
    if i == 19 {
        assert(more[18] == name);
    }
    if i == 20 {
        assert(more[36] == name);
    }
    if i == 21 {
        assert(more[17] == name);
    }
    if i == 22 {
        assert(more[20] == name);
    }
    if i == 23 {
        assert(more[21] == name);
    }
    if i == 24 {
        assert(more[22] == name);
    }
    if i == 25 {
        assert(more[23] == name);
    }
    if i == 26 {
        assert(more[24] == name);
    }
    if i == 27 {
        assert(more[25] == name);
    }
    if i == 28 {
        assert(more[26] == name);
    }
    if i == 29 {
        assert(more[27] == name);
    }
    if i == 30 {
        assert(more[28] == name);
    }
    if i == 31 {
        assert(more[29] == name);
    }
    if i == 32 {
        assert(core[0] == name);
    }
    if i == 33 {
        assert(more[37] == name);
    }
    if i == 34 {
        assert(more[38] == name);
    }
    if i == 35 {
        assert(more[39] == name);
    }
    if i == 36 {
        assert(more[40] == name);
    }
    if i == 37 {
        assert(more[41] == name);
    }
    if i == 38 {
        assert(more[42] == name);
    }
    if i == 39 {
        assert(more[43] == name);
    }
    if i == 40 {
        assert(more[44] == name);
    }
    if i == 41 {
        assert(core[4] == name);
    }
    if i == 42 {
        assert(core[1] == name);
    }
    if i == 43 {
        assert(more[19] == name);
    }
    if i == 44 {
        assert(more[30] == name);
    }
    if i == 45 {
        assert(more[31] == name);
    }
    if i == 46 {
        assert(more[32] == name);
    }
    if i == 47 {
        assert(core[5] == name);
    }
    if i == 48 {
        assert(more[33] == name);
    }
    if i == 49 {
        assert(more[34] == name);
    }
    if i == 50 {
        assert(more[35] == name);
    }
    if core.contains(name) {
        let k = choose|k: int| 0 <= k < core.len() && core[k] == name;
        assert(!beyond_core(core[k]));
    }
}

/// The tools of the profile `core`, in the order of their names.
pub open spec fn essentials() -> Seq<ToolView> {
    seq![
        list_listening_ports_tool(),
        list_processes_tool(),
        privacy_info_tool(),
        system_health_tool(),
        tool_guide_tool(),
        workspace_snapshot_tool(),
    ]
}

proof fn lemma_essentials_ascend()
    ensures
        in_name_order(essentials()),
{
    reveal_strlit("list_listening_ports");
    reveal_strlit("list_processes");
    reveal_strlit("privacy_info");
    reveal_strlit("system_health");
    reveal_strlit("tool_guide");
    reveal_strlit("workspace_snapshot");
    let names = essentials();
    assert("list_listening_ports"@.take(5) =~= "list_processes"@.take(5));
    lemma_first_difference("list_listening_ports"@, "list_processes"@, 5);
    assert("list_listening_ports"@.take(0) =~= "privacy_info"@.take(0));
    lemma_first_difference("list_listening_ports"@, "privacy_info"@, 0);
    assert("list_listening_ports"@.take(0) =~= "system_health"@.take(0));
    lemma_first_difference("list_listening_ports"@, "system_health"@, 0);
    assert("list_listening_ports"@.take(0) =~= "tool_guide"@.take(0));
    lemma_first_difference("list_listening_ports"@, "tool_guide"@, 0);
    assert("list_listening_ports"@.take(0) =~= "workspace_snapshot"@.take(0));
    lemma_first_difference("list_listening_ports"@, "workspace_snapshot"@, 0);
    assert("list_processes"@.take(0) =~= "privacy_info"@.take(0));
    lemma_first_difference("list_processes"@, "privacy_info"@, 0);
    assert("list_processes"@.take(0) =~= "system_health"@.take(0));
    lemma_first_difference("list_processes"@, "system_health"@, 0);
    assert("list_processes"@.take(0) =~= "tool_guide"@.take(0));
    lemma_first_difference("list_processes"@, "tool_guide"@, 0);
    assert("list_processes"@.take(0) =~= "workspace_snapshot"@.take(0));
    lemma_first_difference("list_processes"@, "workspace_snapshot"@, 0);
    assert("privacy_info"@.take(0) =~= "system_health"@.take(0));
    lemma_first_difference("privacy_info"@, "system_health"@, 0);
    assert("privacy_info"@.take(0) =~= "tool_guide"@.take(0));
    lemma_first_difference("privacy_info"@, "tool_guide"@, 0);
    assert("privacy_info"@.take(0) =~= "workspace_snapshot"@.take(0));
    lemma_first_difference("privacy_info"@, "workspace_snapshot"@, 0);
    assert("system_health"@.take(0) =~= "tool_guide"@.take(0));
    lemma_first_difference("system_health"@, "tool_guide"@, 0);
    assert("system_health"@.take(0) =~= "workspace_snapshot"@.take(0));
    lemma_first_difference("system_health"@, "workspace_snapshot"@, 0);
    assert("tool_guide"@.take(0) =~= "workspace_snapshot"@.take(0));
    lemma_first_difference("tool_guide"@, "workspace_snapshot"@, 0);
    assert forall|i: int, j: int| 0 <= i < j < names.len() implies text_lt(
        (#[trigger] names[i]).name,
        (#[trigger] names[j]).name,
    ) by {
    }
}

/// Where nothing is switched off, the profile `core` lists the six essentials,
/// and the other profiles list all tools.
pub proof fn law_listings(r: RegistryView)
    requires
        in_name_order(r.tools),
        tool_map(r.tools) == catalog_of(every_tool()),
        r.disabled.len() == 0,
    ensures
        r.profile == ToolProfile::Core ==> offered_tools(r) == essentials(),
        r.profile == ToolProfile::Core ==> offered_tools(r).len() == 6,
        r.profile != ToolProfile::Core ==> offered_tools(r) == r.tools,
        r.profile != ToolProfile::Core ==> offered_tools(r).len() == 51,
{
    let keep = |t: ToolView| offered(r, t.name);
    law_registered_names(r.tools);
    law_listing_is_in_order(r);
    let rows = offered_tools(r);
    if r.profile == ToolProfile::Core {
        lemma_essentials_ascend();
        lemma_essentials_are_tools(r);
        let six = essentials();
        let m = tool_map(rows);
        let n = tool_map(six);
        assert forall|name: Seq<char>| #[trigger] m.dom().contains(name) implies n.dom().contains(
            name,
        ) && m[name] == n[name] by {
            let i = choose|i: int| 0 <= i < rows.len() && (#[trigger] rows[i]).name == name;
            lemma_tool_of(rows, i);
            r.tools.lemma_filter_pred(keep, i);
            assert(rows.contains(rows[i]));
            r.tools.lemma_filter_contains_rev(keep, rows[i]);
            let k = choose|k: int| 0 <= k < r.tools.len() && r.tools[k] == rows[i];
            lemma_tool_of(r.tools, k);
            law_registry_is_complete(r.tools, name);
            law_core_is_the_essentials(name);
            let core = core_tools();
            let c = choose|c: int| 0 <= c < core.len() && core[c] == name;
            lemma_essential_named(c);
            let e = choose|e: int| 0 <= e < six.len() && (#[trigger] six[e]).name == core[c];
            lemma_tool_of(six, e);
            assert(has_tool(r.tools, six[e].name) && tool_of(r.tools, six[e].name) == six[e]);
        }
        assert forall|name: Seq<char>| #[trigger] n.dom().contains(name) implies m.dom().contains(
            name,
        ) by {
            let e = choose|e: int| 0 <= e < six.len() && (#[trigger] six[e]).name == name;
            assert(has_tool(r.tools, six[e].name));
            let k = choose|k: int| 0 <= k < r.tools.len() && (#[trigger] r.tools[k]).name == name;
            law_registry_is_complete(r.tools, name);
            lemma_essential_in_core(e);
            law_core_is_the_essentials(name);
            assert(keep(r.tools[k]));
            r.tools.lemma_filter_contains(keep, k);
            let i = choose|i: int| 0 <= i < rows.len() && rows[i] == r.tools[k];
            assert(rows[i].name == name);
        }
        assert(m =~= n);
        law_name_order_is_unique(rows, six);
    } else {
        lemma_all_kept(r.tools, keep);
    }
}

proof fn lemma_all_kept(tools: Seq<ToolView>, keep: spec_fn(ToolView) -> bool)
    requires
        forall|i: int| 0 <= i < tools.len() ==> keep(#[trigger] tools[i]),
    ensures
        tools.filter(keep) == tools,
    decreases tools.len(),
{
    reveal(Seq::filter);
    if tools.len() > 0 {
        let rest = tools.drop_last();
        assert forall|i: int| 0 <= i < rest.len() implies keep(#[trigger] rest[i]) by {
            assert(rest[i] == tools[i]);
        }
        lemma_all_kept(rest, keep);
        assert(keep(tools[tools.len() - 1]));
        assert(rest.push(tools.last()) =~= tools);
    } else {
        assert(tools.filter(keep) =~= tools);
    }
}

proof fn lemma_essential_named(c: int)
    requires
        0 <= c < core_tools().len(),
    ensures
        exists|e: int|
            0 <= e < essentials().len() && (#[trigger] essentials()[e]).name == core_tools()[c],
{
    let six = essentials();
    if c == 0 {
        assert(six[5].name == core_tools()[0]);
    }
    if c == 1 {
        assert(six[3].name == core_tools()[1]);
    }
    if c == 2 {
        assert(six[1].name == core_tools()[2]);
    }
    if c == 3 {
        assert(six[0].name == core_tools()[3]);
    }
    if c == 4 {
        assert(six[2].name == core_tools()[4]);
    }
    if c == 5 {
        assert(six[4].name == core_tools()[5]);
    }
}

proof fn lemma_essential_in_core(e: int)
    requires
        0 <= e < essentials().len(),
    ensures
        core_tools().contains(essentials()[e].name),
{
    let core = core_tools();
    if e == 0 {
        assert(core[3] == essentials()[0].name);
    }
    if e == 1 {
        assert(core[2] == essentials()[1].name);
    }
    if e == 2 {
        assert(core[4] == essentials()[2].name);
    }
    if e == 3 {
        assert(core[1] == essentials()[3].name);
    }
    if e == 4 {
        assert(core[5] == essentials()[4].name);
    }
    if e == 5 {
        assert(core[0] == essentials()[5].name);
    }
}

proof fn lemma_essentials_are_tools(r: RegistryView)
    requires
        in_name_order(r.tools),
        r.tools == tools_in_order(),
    ensures
        forall|e: int|
            0 <= e < essentials().len() ==> has_tool(
                r.tools,
                (#[trigger] essentials()[e]).name,
            ) && tool_of(r.tools, essentials()[e].name) == essentials()[e],
{
    lemma_named();
    let all = every_tool();
    assert(r.tools[24] == all[6]);
    lemma_tool_of(r.tools, 24);
    assert(r.tools[26] == all[2]);
    lemma_tool_of(r.tools, 26);
    assert(r.tools[32] == all[41]);
    lemma_tool_of(r.tools, 32);
    assert(r.tools[39] == all[42]);
    lemma_tool_of(r.tools, 39);
    assert(r.tools[44] == all[47]);
    lemma_tool_of(r.tools, 44);
    assert(r.tools[50] == all[32]);
    lemma_tool_of(r.tools, 50);
}

} // verus!
