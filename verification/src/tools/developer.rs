//! The developer environment.

use crate::errors::WinkitError;
use crate::models::DevEnvironment;
use crate::permissions::Capability;
use crate::providers::windows::WindowsBackend;
use crate::tools::schema::{input_schema, param_views, schema_view, Param, ParamView};
use crate::tools::toolset::{ToolDefinition, ToolView};
use vstd::prelude::*;
use vstd::string::*;

verus! {

/// The development tools and servers of the machine.
pub fn dev_environment_handler<B: WindowsBackend>(backend: &B) -> (r: Result<
    DevEnvironment,
    WinkitError,
>)
    ensures
        call_ensures(B::dev_environment, (backend,), r),
{
    backend.dev_environment()
}

/// What the tool `dev_environment` does, in words.
pub const DEV_ENVIRONMENT_ABOUT: &'static str = "Detect development tools (node, npm, cargo, docker, ...) on PATH and summarize well-known development servers. Nothing is installed or modified.";

/// The tool `dev_environment`.
pub open spec fn dev_environment_tool() -> ToolView {
    ToolView {
        name: "dev_environment"@,
        description: DEV_ENVIRONMENT_ABOUT@,
        input_schema: schema_view(Seq::empty()),
        capability: Some(Capability::ProcessRead),
        timeout_ms: None,
    }
}

/// The tool `dev_environment`.
pub fn dev_environment_definition() -> (r: ToolDefinition)
    ensures
        r@ == dev_environment_tool(),
{
    let params: Vec<Param> = Vec::new();
    assert(param_views(params@) =~= Seq::<ParamView>::empty());
    ToolDefinition {
        name: "dev_environment",
        description: DEV_ENVIRONMENT_ABOUT,
        input_schema: input_schema(&params),
        capability: Some(Capability::ProcessRead),
        timeout_ms: None,
    }
}

} // verus!
