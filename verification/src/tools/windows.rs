//! Window tools.

use crate::errors::WinkitError;
use crate::json::{Json, JsonView};
use crate::models::WindowInfo;
use crate::permissions::Capability;
use crate::providers::windows::WindowsBackend;
use crate::tools::args::{clamp_limit, limit_for, optional_bool, optional_usize, usize_at};
use crate::tools::listing::{listing, lists, Listing};
use crate::tools::schema::{input_schema, param_views, schema_view, Param, ParamKind, ParamView};
use crate::tools::toolset::{ToolDefinition, ToolView};
use vstd::prelude::*;
use vstd::string::*;

verus! {

/// Are hidden windows left out?
pub open spec fn visible_only(args: JsonView) -> bool {
    args.bool_at("include_hidden"@) != Some(true)
}

/// The top-level windows.
pub fn list_windows_handler<B: WindowsBackend>(
    backend: &B,
    args: &Json,
    max_windows: usize,
) -> (r: Result<Listing<WindowInfo>, WinkitError>)
    requires
        usize_at(args@, "limit"@) is Some ==> max_windows >= 1,
    ensures
        ({
            let limit = limit_for(usize_at(args@, "limit"@), max_windows);
            exists|answer: Result<Vec<WindowInfo>, WinkitError>| #[trigger]
                call_ensures(B::list_windows, (backend, limit, visible_only(args@)), answer) && (
                match answer {
                    Ok(windows) => r matches Ok(l) && lists(l, windows@, limit),
                    Err(e) => r == Err::<Listing<WindowInfo>, WinkitError>(e),
                })
        }),
{
    let limit = clamp_limit(optional_usize(args, "limit"), max_windows);
    let include_hidden = match optional_bool(args, "include_hidden") {
        Some(b) => b,
        None => false,
    };
    match backend.list_windows(limit, !include_hidden) {
        Ok(windows) => Ok(listing(windows, limit)),
        Err(e) => Err(e),
    }
}

/// What the tool `list_windows` does, in words.
pub const LIST_WINDOWS_ABOUT: &'static str = "List visible top-level windows with title, owning process, and foreground state.";

/// The parameters of the tool `list_windows`.
pub open spec fn list_windows_params() -> Seq<ParamView> {
    seq![
        ParamView::new("limit"@, ParamKind::Integer)
            .at_least(1)
            .about("Maximum results (defaults to the configured limit)."@),
        ParamView::new("include_hidden"@, ParamKind::Boolean)
            .about("Also include hidden windows (default false)."@),
    ]
}

/// The tool `list_windows`.
pub open spec fn list_windows_tool() -> ToolView {
    ToolView {
        name: "list_windows"@,
        description: LIST_WINDOWS_ABOUT@,
        input_schema: schema_view(list_windows_params()),
        capability: Some(Capability::WindowRead),
        timeout_ms: None,
    }
}

/// The tool `list_windows`.
pub fn list_windows_definition() -> (r: ToolDefinition)
    ensures
        r@ == list_windows_tool(),
{
    let params: Vec<Param> = vec![
        Param::new("limit", ParamKind::Integer)
            .at_least(1)
            .about("Maximum results (defaults to the configured limit)."),
        Param::new("include_hidden", ParamKind::Boolean)
            .about("Also include hidden windows (default false)."),
    ];
    assert(param_views(params@) =~= list_windows_params());
    ToolDefinition {
        name: "list_windows",
        description: LIST_WINDOWS_ABOUT,
        input_schema: input_schema(&params),
        capability: Some(Capability::WindowRead),
        timeout_ms: None,
    }
}

/// Hidden windows are asked for only where the arguments say so, and no more windows
/// than are allowed; what the machine gives is listed and counted.
pub proof fn law_hidden_windows_are_left_out<B: WindowsBackend>(
    backend: B,
    args: Json,
    max_windows: usize,
    r: Result<Listing<WindowInfo>, WinkitError>,
)
    requires
        max_windows >= 1,
        call_ensures(list_windows_handler::<B>, (&backend, &args, max_windows), r),
    ensures
        exists|limit: usize, visible: bool, answer: Result<Vec<WindowInfo>, WinkitError>|
            {
                &&& 1 <= limit <= max_windows
                &&& usize_at(args@, "limit"@) matches Some(k) ==> (1 <= k <= max_windows ==> limit
                    == k)
                &&& visible <==> args@.bool_at("include_hidden"@) is None || !args@.bool_at(
                    "include_hidden"@,
                )->0
                &&& #[trigger] call_ensures(B::list_windows, (&backend, limit, visible), answer)
                &&& match (answer, r) {
                    (Ok(v), Ok(l)) => l.items@ == v@ && l.count == v@.len() && (l.truncated
                        <==> v@.len() == limit),
                    (Err(e), Err(f)) => e == f,
                    _ => false,
                }
            },
{
    let limit = limit_for(usize_at(args@, "limit"@), max_windows);
    let visible = visible_only(args@);
    let answer = choose|answer: Result<Vec<WindowInfo>, WinkitError>| #[trigger]
        call_ensures(B::list_windows, (&backend, limit, visible), answer) && (match answer {
            Ok(windows) => r matches Ok(l) && lists(l, windows@, limit),
            Err(e) => r == Err::<Listing<WindowInfo>, WinkitError>(e),
        });
    assert(call_ensures(B::list_windows, (&backend, limit, visible), answer));
}

} // verus!
