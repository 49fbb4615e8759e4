//! Registry diagnostics, read from a fixed list of keys.

use crate::errors::WinkitError;
use crate::json::{Json, JsonView};
use crate::models::RegistryDiagnostics;
use crate::permissions::Capability;
use crate::providers::windows::WindowsBackend;
use crate::tools::args::{clamp_limit, limit_for, optional_bool, optional_usize, usize_at};
use crate::tools::schema::{input_schema, param_views, schema_view, Param, ParamKind, ParamView};
use crate::tools::toolset::{ToolDefinition, ToolView};
use vstd::prelude::*;
use vstd::string::*;

verus! {

/// The most installed programs that are listed.
pub const MAX_SOFTWARE: usize = 200;

/// Is the installed software asked for?
pub open spec fn wants_software(args: JsonView) -> bool {
    match args.bool_at("include_software"@) {
        Some(b) => b,
        None => true,
    }
}

/// What the allowed registry keys hold.
pub fn registry_diagnostics_handler<B: WindowsBackend>(backend: &B, args: &Json) -> (r: Result<
    RegistryDiagnostics,
    WinkitError,
>)
    ensures
        call_ensures(
            B::registry_diagnostics,
            (
                backend,
                wants_software(args@),
                limit_for(usize_at(args@, "max_software"@), MAX_SOFTWARE),
            ),
            r,
        ),
{
    let include_software = match optional_bool(args, "include_software") {
        Some(b) => b,
        None => true,
    };
    let max_software = clamp_limit(optional_usize(args, "max_software"), MAX_SOFTWARE);
    backend.registry_diagnostics(include_software, max_software)
}

/// What the tool `registry_diagnostics` does, in words.
pub const REGISTRY_DIAGNOSTICS_ABOUT: &'static str = "Read-only registry diagnostics from a fixed allowlist of keys: OS identity (Windows NT\\CurrentVersion), startup programs (Run/RunOnce under HKLM and HKCU with enabled/disabled state), and installed software (Uninstall keys). Arbitrary keys are never read.";

/// The parameters of the tool `registry_diagnostics`.
pub open spec fn registry_diagnostics_params() -> Seq<ParamView> {
    seq![
        ParamView::new("include_software"@, ParamKind::Boolean)
            .about("Include the installed-software enumeration (default true)."@),
        ParamView::new("max_software"@, ParamKind::Integer)
            .at_least(1)
            .about("Cap on installed-software entries (default 200)."@),
    ]
}

/// The tool `registry_diagnostics`.
pub open spec fn registry_diagnostics_tool() -> ToolView {
    ToolView {
        name: "registry_diagnostics"@,
        description: REGISTRY_DIAGNOSTICS_ABOUT@,
        input_schema: schema_view(registry_diagnostics_params()),
        capability: Some(Capability::RegistryRead),
        timeout_ms: None,
    }
}

/// The tool `registry_diagnostics`.
pub fn registry_diagnostics_definition() -> (r: ToolDefinition)
    ensures
        r@ == registry_diagnostics_tool(),
{
    let params: Vec<Param> = vec![
        Param::new("include_software", ParamKind::Boolean)
            .about("Include the installed-software enumeration (default true)."),
        Param::new("max_software", ParamKind::Integer)
            .at_least(1)
            .about("Cap on installed-software entries (default 200)."),
    ];
    assert(param_views(params@) =~= registry_diagnostics_params());
    ToolDefinition {
        name: "registry_diagnostics",
        description: REGISTRY_DIAGNOSTICS_ABOUT,
        input_schema: input_schema(&params),
        capability: Some(Capability::RegistryRead),
        timeout_ms: None,
    }
}

/// Installed software is asked for unless the arguments say otherwise, and at most 200
/// programs of it.
pub proof fn law_software_is_listed_unless_declined<B: WindowsBackend>(
    backend: B,
    args: Json,
    r: Result<RegistryDiagnostics, WinkitError>,
)
    requires
        call_ensures(registry_diagnostics_handler::<B>, (&backend, &args), r),
    ensures
        exists|software: bool, most: usize|
            {
                &&& software <==> args@.bool_at("include_software"@) is None || args@.bool_at(
                    "include_software"@,
                )->0
                &&& 1 <= most <= 200
                &&& usize_at(args@, "max_software"@) is None ==> most == 200
                &&& usize_at(args@, "max_software"@) matches Some(k) ==> (1 <= k <= 200 ==> most
                    == k)
                &&& #[trigger] call_ensures(
                    B::registry_diagnostics,
                    (&backend, software, most),
                    r,
                )
            },
{
    let software = wants_software(args@);
    let most = limit_for(usize_at(args@, "max_software"@), MAX_SOFTWARE);
    assert(call_ensures(B::registry_diagnostics, (&backend, software, most), r));
}

} // verus!
