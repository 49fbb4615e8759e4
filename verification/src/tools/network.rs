//! Network tools: listening ports, port ownership, interfaces and connections.

use crate::errors::{ErrorKind, WinkitError};
use crate::json::Json;
use crate::models::{ConnectionInfo, NetworkInterfaceInfo, PortInfo, ProcessOnPort};
use crate::permissions::Capability;
use crate::providers::windows::WindowsBackend;
use crate::text::{concat2, decimal, decimal_text, opt_view};
use crate::tools::args::{clamp_limit, limit_for, needed_port, optional_usize, parse_port, usize_at};
use crate::tools::listing::{listing, lists, Listing};
use crate::tools::schema::{input_schema, param_views, schema_view, Param, ParamKind, ParamView};
use crate::tools::toolset::{ToolDefinition, ToolView};
use vstd::prelude::*;
use vstd::string::*;

verus! {

/// The ports that are listened on.
pub fn list_listening_ports_handler<B: WindowsBackend>(
    backend: &B,
    args: &Json,
    max_network_results: usize,
) -> (r: Result<Listing<PortInfo>, WinkitError>)
    requires
        usize_at(args@, "limit"@) is Some ==> max_network_results >= 1,
    ensures
        ({
            let limit = limit_for(usize_at(args@, "limit"@), max_network_results);
            exists|answer: Result<Vec<PortInfo>, WinkitError>| #[trigger]
                call_ensures(B::list_listening_ports, (backend, limit), answer) && (match answer {
                    Ok(ports) => r matches Ok(l) && lists(l, ports@, limit),
                    Err(e) => r == Err::<Listing<PortInfo>, WinkitError>(e),
                })
        }),
{
    let limit = clamp_limit(optional_usize(args, "limit"), max_network_results);
    match backend.list_listening_ports(limit) {
        Ok(ports) => Ok(listing(ports, limit)),
        Err(e) => Err(e),
    }
}

/// Who listens on a port.
#[derive(Debug)]
pub struct PortOwner {
    pub port_number: u16,
    pub found: bool,
    pub owner: Option<ProcessOnPort>,
    /// What is said where nobody listens.
    pub message: Option<String>,
}

/// Does the report say who listens on the port?
pub open spec fn tells_owner(r: PortOwner, port: u16, owner: Option<ProcessOnPort>) -> bool {
    &&& r.port_number == port
    &&& r.found == (owner is Some)
    &&& r.owner == owner
    &&& opt_view(r.message) == (match owner {
        Some(_) => None,
        None => Some("no process is listening on port "@ + decimal(port as nat)),
    })
}

/// The report on who listens on a port.
pub fn port_owner(port: u16, owner: Option<ProcessOnPort>) -> (r: PortOwner)
    ensures
        tells_owner(r, port, owner),
{
    let message = match &owner {
        Some(_) => None,
        None => Some(concat2("no process is listening on port ", &decimal_text(port as u64))),
    };
    PortOwner { port_number: port, found: owner.is_some(), owner, message }
}

/// Who listens on the port that the arguments name.
pub fn find_process_on_port_handler<B: WindowsBackend>(backend: &B, args: &Json) -> (r: Result<
    PortOwner,
    WinkitError,
>)
    ensures
        match needed_port(args@, "port"@) {
            Err(refusal) => r matches Err(e) && e@ == refusal,
            Ok(port) => exists|answer: Result<Option<ProcessOnPort>, WinkitError>| #[trigger]
                call_ensures(B::find_process_on_port, (backend, port), answer) && (match answer {
                    Ok(owner) => r matches Ok(o) && tells_owner(o, port, owner),
                    Err(e) => r == Err::<PortOwner, WinkitError>(e),
                }),
        },
{
    let port = match parse_port(args, "port") {
        Ok(p) => p,
        Err(e) => {
            return Err(e);
        },
    };
    match backend.find_process_on_port(port) {
        Ok(owner) => Ok(port_owner(port, owner)),
        Err(e) => Err(e),
    }
}

/// The network interfaces, all of them.
pub fn list_network_interfaces_handler<B: WindowsBackend>(backend: &B) -> (r: Result<
    Listing<NetworkInterfaceInfo>,
    WinkitError,
>)
    ensures
        exists|answer: Result<Vec<NetworkInterfaceInfo>, WinkitError>| #[trigger]
            call_ensures(B::list_network_interfaces, (backend,), answer) && (match answer {
                Ok(interfaces) => r matches Ok(l) && lists(
                    l,
                    interfaces@,
                    interfaces.len(),
                ),
                Err(e) => r == Err::<Listing<NetworkInterfaceInfo>, WinkitError>(e),
            }),
{
    match backend.list_network_interfaces() {
        Ok(interfaces) => {
            let all: usize = interfaces.len();
            Ok(listing(interfaces, all))
        },
        Err(e) => Err(e),
    }
}

/// The network connections.
pub fn list_connections_handler<B: WindowsBackend>(
    backend: &B,
    args: &Json,
    max_network_results: usize,
) -> (r: Result<Listing<ConnectionInfo>, WinkitError>)
    requires
        usize_at(args@, "limit"@) is Some ==> max_network_results >= 1,
    ensures
        ({
            let limit = limit_for(usize_at(args@, "limit"@), max_network_results);
            exists|answer: Result<Vec<ConnectionInfo>, WinkitError>| #[trigger]
                call_ensures(B::list_connections, (backend, limit), answer) && (match answer {
                    Ok(connections) => r matches Ok(l) && lists(l, connections@, limit),
                    Err(e) => r == Err::<Listing<ConnectionInfo>, WinkitError>(e),
                })
        }),
{
    let limit = clamp_limit(optional_usize(args, "limit"), max_network_results);
    match backend.list_connections(limit) {
        Ok(connections) => Ok(listing(connections, limit)),
        Err(e) => Err(e),
    }
}

/// What the tool `list_listening_ports` does, in words.
pub const LIST_LISTENING_PORTS_ABOUT: &'static str = "List TCP/UDP ports currently listening, with the owning process when resolvable.";

/// The parameters of the tool `list_listening_ports`.
pub open spec fn list_listening_ports_params() -> Seq<ParamView> {
    seq![
        ParamView::new("limit"@, ParamKind::Integer)
            .at_least(1)
            .about("Maximum results (defaults to the configured limit)."@),
    ]
}

/// The tool `list_listening_ports`.
pub open spec fn list_listening_ports_tool() -> ToolView {
    ToolView {
        name: "list_listening_ports"@,
        description: LIST_LISTENING_PORTS_ABOUT@,
        input_schema: schema_view(list_listening_ports_params()),
        capability: Some(Capability::NetworkRead),
        timeout_ms: None,
    }
}

/// The tool `list_listening_ports`.
pub fn list_listening_ports_definition() -> (r: ToolDefinition)
    ensures
        r@ == list_listening_ports_tool(),
{
    let params: Vec<Param> = vec![
        Param::new("limit", ParamKind::Integer)
            .at_least(1)
            .about("Maximum results (defaults to the configured limit)."),
    ];
    assert(param_views(params@) =~= list_listening_ports_params());
    ToolDefinition {
        name: "list_listening_ports",
        description: LIST_LISTENING_PORTS_ABOUT,
        input_schema: input_schema(&params),
        capability: Some(Capability::NetworkRead),
        timeout_ms: None,
    }
}

/// What the tool `find_process_on_port` does, in words.
pub const FIND_PROCESS_ON_PORT_ABOUT: &'static str = "Find which process is listening on a TCP port ('What's using port 3000?').";

/// The parameters of the tool `find_process_on_port`.
pub open spec fn find_process_on_port_params() -> Seq<ParamView> {
    seq![
        ParamView::new("port"@, ParamKind::Integer).at_least(1).at_most(65535).needed(),
    ]
}

/// The tool `find_process_on_port`.
pub open spec fn find_process_on_port_tool() -> ToolView {
    ToolView {
        name: "find_process_on_port"@,
        description: FIND_PROCESS_ON_PORT_ABOUT@,
        input_schema: schema_view(find_process_on_port_params()),
        capability: Some(Capability::NetworkRead),
        timeout_ms: None,
    }
}

/// The tool `find_process_on_port`.
pub fn find_process_on_port_definition() -> (r: ToolDefinition)
    ensures
        r@ == find_process_on_port_tool(),
{
    let params: Vec<Param> = vec![
        Param::new("port", ParamKind::Integer).at_least(1).at_most(65535).needed(),
    ];
    assert(param_views(params@) =~= find_process_on_port_params());
    ToolDefinition {
        name: "find_process_on_port",
        description: FIND_PROCESS_ON_PORT_ABOUT,
        input_schema: input_schema(&params),
        capability: Some(Capability::NetworkRead),
        timeout_ms: None,
    }
}

/// What the tool `list_network_interfaces` does, in words.
pub const LIST_NETWORK_INTERFACES_ABOUT: &'static str = "List network interfaces with IPv4 addresses, masks, MAC, and gateway.";

/// The tool `list_network_interfaces`.
pub open spec fn list_network_interfaces_tool() -> ToolView {
    ToolView {
        name: "list_network_interfaces"@,
        description: LIST_NETWORK_INTERFACES_ABOUT@,
        input_schema: schema_view(Seq::empty()),
        capability: Some(Capability::NetworkRead),
        timeout_ms: None,
    }
}

/// The tool `list_network_interfaces`.
pub fn list_network_interfaces_definition() -> (r: ToolDefinition)
    ensures
        r@ == list_network_interfaces_tool(),
{
    let params: Vec<Param> = Vec::new();
    assert(param_views(params@) =~= Seq::<ParamView>::empty());
    ToolDefinition {
        name: "list_network_interfaces",
        description: LIST_NETWORK_INTERFACES_ABOUT,
        input_schema: input_schema(&params),
        capability: Some(Capability::NetworkRead),
        timeout_ms: None,
    }
}

/// What the tool `list_connections` does, in words.
pub const LIST_CONNECTIONS_ABOUT: &'static str = "List active TCP connections (IPv4) with owning process when resolvable.";

/// The parameters of the tool `list_connections`.
pub open spec fn list_connections_params() -> Seq<ParamView> {
    seq![
        ParamView::new("limit"@, ParamKind::Integer)
            .at_least(1)
            .about("Maximum results (defaults to the configured limit)."@),
    ]
}

/// The tool `list_connections`.
pub open spec fn list_connections_tool() -> ToolView {
    ToolView {
        name: "list_connections"@,
        description: LIST_CONNECTIONS_ABOUT@,
        input_schema: schema_view(list_connections_params()),
        capability: Some(Capability::NetworkRead),
        timeout_ms: None,
    }
}

/// The tool `list_connections`.
pub fn list_connections_definition() -> (r: ToolDefinition)
    ensures
        r@ == list_connections_tool(),
{
    let params: Vec<Param> = vec![
        Param::new("limit", ParamKind::Integer)
            .at_least(1)
            .about("Maximum results (defaults to the configured limit)."),
    ];
    assert(param_views(params@) =~= list_connections_params());
    ToolDefinition {
        name: "list_connections",
        description: LIST_CONNECTIONS_ABOUT,
        input_schema: input_schema(&params),
        capability: Some(Capability::NetworkRead),
        timeout_ms: None,
    }
}

/// Who listens on a port is asked for ports from 1 to 65535 only. The answer names the
/// port, says whether anybody listens, who, and says so in words where nobody does.
pub proof fn law_port_owners_are_told<B: WindowsBackend>(
    backend: B,
    args: Json,
    r: Result<PortOwner, WinkitError>,
)
    requires
        call_ensures(find_process_on_port_handler::<B>, (&backend, &args), r),
    ensures
        ({
            let n = args@.uint_at("port"@);
            if n is None || n->0 == 0 || n->0 > 65535 {
                r is Err && r->Err_0.kind == ErrorKind::InvalidArgument
            } else {
                exists|answer: Result<Option<ProcessOnPort>, WinkitError>| #[trigger]
                    call_ensures(B::find_process_on_port, (&backend, n->0 as u16), answer)
                        && match (answer, r) {
                        (Ok(owner), Ok(o)) => {
                            &&& o.port_number == n->0
                            &&& o.found <==> owner is Some
                            &&& o.owner == owner
                            &&& owner is Some <==> o.message is None
                            &&& o.message matches Some(m) ==> m@
                                == "no process is listening on port "@ + decimal(n->0 as nat)
                        },
                        (Err(e), Err(f)) => e == f,
                        _ => false,
                    }
            }
        }),
{
}

/// Ports and connections are listed as the machine gives them, for no more than are
/// allowed, with their number; interfaces are listed without a bound.
pub proof fn law_network_listings_are_as_given<B: WindowsBackend>(
    backend: B,
    args: Json,
    max: usize,
    p: Result<Listing<PortInfo>, WinkitError>,
    c: Result<Listing<ConnectionInfo>, WinkitError>,
    n: Result<Listing<NetworkInterfaceInfo>, WinkitError>,
)
    requires
        max >= 1,
        call_ensures(list_listening_ports_handler::<B>, (&backend, &args, max), p),
        call_ensures(list_connections_handler::<B>, (&backend, &args, max), c),
        call_ensures(list_network_interfaces_handler::<B>, (&backend,), n),
    ensures
        exists|limit: usize, answer: Result<Vec<PortInfo>, WinkitError>|
            {
                &&& 1 <= limit <= max
                &&& usize_at(args@, "limit"@) matches Some(k) ==> (1 <= k <= max ==> limit == k)
                &&& #[trigger] call_ensures(B::list_listening_ports, (&backend, limit), answer)
                &&& match (answer, p) {
                    (Ok(v), Ok(l)) => l.items@ == v@ && l.count == v@.len() && (l.truncated
                        <==> v@.len() == limit),
                    (Err(e), Err(f)) => e == f,
                    _ => false,
                }
            },
        exists|limit: usize, answer: Result<Vec<ConnectionInfo>, WinkitError>|
            {
                &&& 1 <= limit <= max
                &&& usize_at(args@, "limit"@) matches Some(k) ==> (1 <= k <= max ==> limit == k)
                &&& #[trigger] call_ensures(B::list_connections, (&backend, limit), answer)
                &&& match (answer, c) {
                    (Ok(v), Ok(l)) => l.items@ == v@ && l.count == v@.len() && (l.truncated
                        <==> v@.len() == limit),
                    (Err(e), Err(f)) => e == f,
                    _ => false,
                }
            },
        exists|answer: Result<Vec<NetworkInterfaceInfo>, WinkitError>| #[trigger]
            call_ensures(B::list_network_interfaces, (&backend,), answer) && match (answer, n) {
                (Ok(v), Ok(l)) => l.items@ == v@ && l.count == v@.len(),
                (Err(e), Err(f)) => e == f,
                _ => false,
            },
{
    let limit = limit_for(usize_at(args@, "limit"@), max);
    let a = choose|answer: Result<Vec<PortInfo>, WinkitError>| #[trigger]
        call_ensures(B::list_listening_ports, (&backend, limit), answer) && (match answer {
            Ok(ports) => p matches Ok(l) && lists(l, ports@, limit),
            Err(e) => p == Err::<Listing<PortInfo>, WinkitError>(e),
        });
    assert(call_ensures(B::list_listening_ports, (&backend, limit), a));
    let b = choose|answer: Result<Vec<ConnectionInfo>, WinkitError>| #[trigger]
        call_ensures(B::list_connections, (&backend, limit), answer) && (match answer {
            Ok(connections) => c matches Ok(l) && lists(l, connections@, limit),
            Err(e) => c == Err::<Listing<ConnectionInfo>, WinkitError>(e),
        });
    assert(call_ensures(B::list_connections, (&backend, limit), b));
}

} // verus!
