//! Service tools.

use crate::errors::{err_view, ErrorKind, ErrorView, WinkitError};
use crate::json::Json;
use crate::models::ServiceInfo;
use crate::permissions::Capability;
use crate::providers::windows::WindowsBackend;
use crate::text::{concat3, same, trimmed};
use crate::tools::args::{
    clamp_limit, limit_for, needed_text, optional_usize, required_string, usize_at,
};
use crate::tools::schema::{input_schema, param_views, schema_view, Param, ParamKind, ParamView};
use crate::tools::toolset::{ToolDefinition, ToolView};
use vstd::prelude::*;
use vstd::string::*;

verus! {

/// Does the service run?
pub open spec fn runs(s: ServiceInfo) -> bool {
    s.state@ == "running"@
}

/// How many of the services run.
pub open spec fn running_count(services: Seq<ServiceInfo>) -> nat {
    services.filter(|s: ServiceInfo| runs(s)).len()
}

/// How many of the services run.
pub fn count_running(services: &Vec<ServiceInfo>) -> (r: usize)
    ensures
        r == running_count(services@),
        r <= services@.len(),
{
    let ghost keep = |s: ServiceInfo| runs(s);
    let mut n: usize = 0;
    let mut i: usize = 0;
    proof {
        reveal(Seq::filter);
        assert(services@.take(0).filter(keep).len() == 0);
    }
    while i < services.len()
        invariant
            keep == (|s: ServiceInfo| runs(s)),
            i <= services@.len(),
            n <= i,
            n == services@.take(i as int).filter(keep).len(),
        decreases services@.len() - i,
    {
        proof {
            reveal(Seq::filter);
            assert(services@.take(i + 1).drop_last() =~= services@.take(i as int));
            assert(services@.take(i + 1).last() == services@[i as int]);
        }
        if same(&services[i].state, "running") {
            n = n + 1;
        }
        i = i + 1;
    }
    assert(services@.take(services@.len() as int) =~= services@);
    n
}

/// A listing of services.
#[derive(Debug)]
pub struct ServiceList {
    pub services: Vec<ServiceInfo>,
    pub count: usize,
    pub running: usize,
    pub truncated: bool,
}

/// Does the listing hold these services?
pub open spec fn lists_services(l: ServiceList, services: Seq<ServiceInfo>, limit: usize) -> bool {
    &&& l.services@ == services
    &&& l.count == services.len()
    &&& l.running == running_count(services)
    &&& l.truncated == (services.len() == limit)
}

/// The services.
pub fn list_services_handler<B: WindowsBackend>(
    backend: &B,
    args: &Json,
    max_services: usize,
) -> (r: Result<ServiceList, WinkitError>)
    requires
        usize_at(args@, "limit"@) is Some ==> max_services >= 1,
    ensures
        ({
            let limit = limit_for(usize_at(args@, "limit"@), max_services);
            exists|answer: Result<Vec<ServiceInfo>, WinkitError>| #[trigger]
                call_ensures(B::list_services, (backend, limit), answer) && (match answer {
                    Ok(services) => r matches Ok(l) && lists_services(l, services@, limit),
                    Err(e) => r == Err::<ServiceList, WinkitError>(e),
                })
        }),
{
    let limit = clamp_limit(optional_usize(args, "limit"), max_services);
    match backend.list_services(limit) {
        Ok(services) => {
            let count: usize = services.len();
            let running: usize = count_running(&services);
            Ok(ServiceList { services, count, running, truncated: count == limit })
        },
        Err(e) => Err(e),
    }
}

/// The refusal of a name that no service has.
pub open spec fn no_service(name: Seq<char>) -> ErrorView {
    err_view(ErrorKind::InvalidArgument, "no service named '"@ + name + "' was found"@)
}

/// The service of the name that the arguments give.
pub fn get_service_handler<B: WindowsBackend>(backend: &B, args: &Json) -> (r: Result<
    ServiceInfo,
    WinkitError,
>)
    ensures
        match needed_text(args@, "name"@) {
            Err(refusal) => r matches Err(e) && e@ == refusal,
            Ok(name) => exists|asked: &str, answer: Result<Option<ServiceInfo>, WinkitError>|
                asked@ == name && #[trigger] call_ensures(B::get_service, (backend, asked), answer)
                    && (match answer {
                    Ok(Some(s)) => r == Ok::<ServiceInfo, WinkitError>(s),
                    Ok(None) => r matches Err(e) && e@ == no_service(name),
                    Err(e) => r == Err::<ServiceInfo, WinkitError>(e),
                }),
        },
{
    let name = match required_string(args, "name") {
        Ok(n) => n,
        Err(e) => {
            return Err(e);
        },
    };
    match backend.get_service(name.as_str()) {
        Ok(Some(s)) => Ok(s),
        Ok(None) => Err(
            WinkitError::invalid_argument(&concat3("no service named '", &name, "' was found")),
        ),
        Err(e) => Err(e),
    }
}

/// What the tool `list_services` does, in words.
pub const LIST_SERVICES_ABOUT: &'static str = "List Windows services (read-only): name, state, process ID.";

/// The parameters of the tool `list_services`.
pub open spec fn list_services_params() -> Seq<ParamView> {
    seq![
        ParamView::new("limit"@, ParamKind::Integer)
            .at_least(1)
            .about("Maximum results (defaults to the configured limit)."@),
    ]
}

/// The tool `list_services`.
pub open spec fn list_services_tool() -> ToolView {
    ToolView {
        name: "list_services"@,
        description: LIST_SERVICES_ABOUT@,
        input_schema: schema_view(list_services_params()),
        capability: Some(Capability::ServiceRead),
        timeout_ms: None,
    }
}

/// The tool `list_services`.
pub fn list_services_definition() -> (r: ToolDefinition)
    ensures
        r@ == list_services_tool(),
{
    let params: Vec<Param> = vec![
        Param::new("limit", ParamKind::Integer)
            .at_least(1)
            .about("Maximum results (defaults to the configured limit)."),
    ];
    assert(param_views(params@) =~= list_services_params());
    ToolDefinition {
        name: "list_services",
        description: LIST_SERVICES_ABOUT,
        input_schema: input_schema(&params),
        capability: Some(Capability::ServiceRead),
        timeout_ms: None,
    }
}

/// What the tool `get_service` does, in words.
pub const GET_SERVICE_ABOUT: &'static str = "Detailed read-only information about one Windows service by name, including binary path and start type.";

/// The parameters of the tool `get_service`.
pub open spec fn get_service_params() -> Seq<ParamView> {
    seq![
        ParamView::new("name"@, ParamKind::Text)
            .about("Service name (e.g. 'Spooler') or display name."@)
            .needed(),
    ]
}

/// The tool `get_service`.
pub open spec fn get_service_tool() -> ToolView {
    ToolView {
        name: "get_service"@,
        description: GET_SERVICE_ABOUT@,
        input_schema: schema_view(get_service_params()),
        capability: Some(Capability::ServiceRead),
        timeout_ms: None,
    }
}

/// The tool `get_service`.
pub fn get_service_definition() -> (r: ToolDefinition)
    ensures
        r@ == get_service_tool(),
{
    let params: Vec<Param> = vec![
        Param::new("name", ParamKind::Text)
            .about("Service name (e.g. 'Spooler') or display name.")
            .needed(),
    ];
    assert(param_views(params@) =~= get_service_params());
    ToolDefinition {
        name: "get_service",
        description: GET_SERVICE_ABOUT,
        input_schema: input_schema(&params),
        capability: Some(Capability::ServiceRead),
        timeout_ms: None,
    }
}

/// A listing of services tells those that the machine gave, how many they are and how
/// many of them are in the state `running`; it is asked for no more than allowed.
pub proof fn law_services_are_told<B: WindowsBackend>(
    backend: B,
    args: Json,
    max_services: usize,
    r: Result<ServiceList, WinkitError>,
)
    requires
        max_services >= 1,
        call_ensures(list_services_handler::<B>, (&backend, &args, max_services), r),
    ensures
        exists|limit: usize, answer: Result<Vec<ServiceInfo>, WinkitError>|
            {
                &&& 1 <= limit <= max_services
                &&& usize_at(args@, "limit"@) is None ==> limit == max_services
                &&& usize_at(args@, "limit"@) matches Some(n) ==> (1 <= n <= max_services ==> limit
                    == n)
                &&& #[trigger] call_ensures(B::list_services, (&backend, limit), answer)
                &&& match (answer, r) {
                    (Ok(services), Ok(l)) => {
                        &&& l.services@ == services@
                        &&& l.count == services@.len()
                        &&& l.running == services@.filter(
                            |s: ServiceInfo| s.state@ == "running"@,
                        ).len()
                        &&& l.truncated <==> services@.len() == limit
                    },
                    (Err(e), Err(f)) => e == f,
                    _ => false,
                }
            },
{
    let limit = limit_for(usize_at(args@, "limit"@), max_services);
    let answer = choose|answer: Result<Vec<ServiceInfo>, WinkitError>| #[trigger]
        call_ensures(B::list_services, (&backend, limit), answer) && (match answer {
            Ok(services) => r matches Ok(l) && lists_services(l, services@, limit),
            Err(e) => r == Err::<ServiceList, WinkitError>(e),
        });
    assert((|s: ServiceInfo| runs(s)) =~= (|s: ServiceInfo| s.state@ == "running"@));
    assert(call_ensures(B::list_services, (&backend, limit), answer));
}

/// A service is got by the name in the arguments, without the white space around it.
/// A name that no service has is refused in words that hold it.
pub proof fn law_services_are_got_by_name<B: WindowsBackend>(
    backend: B,
    args: Json,
    r: Result<ServiceInfo, WinkitError>,
)
    requires
        call_ensures(get_service_handler::<B>, (&backend, &args), r),
    ensures
        ({
            let s = args@.text_at("name"@);
            if s is None || trimmed(s->0).len() == 0 {
                r is Err && r->Err_0.kind == ErrorKind::InvalidArgument
            } else {
                exists|asked: &str, answer: Result<Option<ServiceInfo>, WinkitError>|
                    {
                        &&& asked@ == trimmed(s->0)
                        &&& #[trigger] call_ensures(B::get_service, (&backend, asked), answer)
                        &&& match answer {
                            Ok(Some(v)) => r is Ok && r->Ok_0 == v,
                            Ok(None) => r is Err && r->Err_0.kind == ErrorKind::InvalidArgument
                                && r->Err_0.message@ == "no service named '"@ + asked@
                                + "' was found"@,
                            Err(e) => r is Err && r->Err_0 == e,
                        }
                    }
            }
        }),
{
}

} // verus!
