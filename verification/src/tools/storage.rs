//! Storage tools: volumes and the space on them.

use crate::errors::WinkitError;
use crate::json::Json;
use crate::models::{DiskUsage, DriveInfo};
use crate::permissions::Capability;
use crate::providers::windows::WindowsBackend;
use crate::text::trimmed;
use crate::tools::args::{needed_path, required_path};
use crate::tools::listing::{listing, lists, Listing};
use crate::tools::schema::{input_schema, param_views, schema_view, Param, ParamKind, ParamView};
use crate::tools::toolset::{ToolDefinition, ToolView};
use vstd::prelude::*;
use vstd::string::*;

verus! {

/// The storage volumes, all of them.
pub fn list_drives_handler<B: WindowsBackend>(backend: &B) -> (r: Result<
    Listing<DriveInfo>,
    WinkitError,
>)
    ensures
        exists|answer: Result<Vec<DriveInfo>, WinkitError>| #[trigger]
            call_ensures(B::list_drives, (backend,), answer) && (match answer {
                Ok(drives) => r matches Ok(l) && lists(l, drives@, drives.len()),
                Err(e) => r == Err::<Listing<DriveInfo>, WinkitError>(e),
            }),
{
    match backend.list_drives() {
        Ok(drives) => {
            let all: usize = drives.len();
            Ok(listing(drives, all))
        },
        Err(e) => Err(e),
    }
}

/// The space on the volume that holds the path of the arguments, with the path
/// as it was used.
pub fn disk_usage_handler<B: WindowsBackend>(backend: &B, args: &Json) -> (r: Result<
    (String, DiskUsage),
    WinkitError,
>)
    ensures
        match needed_path(args@, "path"@) {
            Err(refusal) => r matches Err(e) && e@ == refusal,
            Ok(path) => exists|asked: &str, answer: Result<DiskUsage, WinkitError>|
                asked@ == path && #[trigger] call_ensures(B::disk_usage, (backend, asked), answer)
                    && (match answer {
                    Ok(usage) => r matches Ok(p) && p.0@ == path && p.1 == usage,
                    Err(e) => r == Err::<(String, DiskUsage), WinkitError>(e),
                }),
        },
{
    let path = match required_path(args, "path") {
        Ok(p) => p,
        Err(e) => {
            return Err(e);
        },
    };
    match backend.disk_usage(path.as_str()) {
        Ok(usage) => Ok((path, usage)),
        Err(e) => Err(e),
    }
}

/// What the tool `list_drives` does, in words.
pub const LIST_DRIVES_ABOUT: &'static str = "List storage volumes with type, capacity, and free space.";

/// The tool `list_drives`.
pub open spec fn list_drives_tool() -> ToolView {
    ToolView {
        name: "list_drives"@,
        description: LIST_DRIVES_ABOUT@,
        input_schema: schema_view(Seq::empty()),
        capability: Some(Capability::StorageRead),
        timeout_ms: None,
    }
}

/// The tool `list_drives`.
pub fn list_drives_definition() -> (r: ToolDefinition)
    ensures
        r@ == list_drives_tool(),
{
    let params: Vec<Param> = Vec::new();
    assert(param_views(params@) =~= Seq::<ParamView>::empty());
    ToolDefinition {
        name: "list_drives",
        description: LIST_DRIVES_ABOUT,
        input_schema: input_schema(&params),
        capability: Some(Capability::StorageRead),
        timeout_ms: None,
    }
}

/// What the tool `disk_usage` does, in words.
pub const DISK_USAGE_ABOUT: &'static str = "Free/used space for the volume containing a path.";

/// The parameters of the tool `disk_usage`.
pub open spec fn disk_usage_params() -> Seq<ParamView> {
    seq![
        ParamView::new("path"@, ParamKind::Text)
            .about("Any path on the volume to inspect (e.g. 'C:\\' or 'C:\\Users')."@)
            .needed(),
    ]
}

/// The tool `disk_usage`.
pub open spec fn disk_usage_tool() -> ToolView {
    ToolView {
        name: "disk_usage"@,
        description: DISK_USAGE_ABOUT@,
        input_schema: schema_view(disk_usage_params()),
        capability: Some(Capability::StorageRead),
        timeout_ms: None,
    }
}

/// The tool `disk_usage`.
pub fn disk_usage_definition() -> (r: ToolDefinition)
    ensures
        r@ == disk_usage_tool(),
{
    let params: Vec<Param> = vec![
        Param::new("path", ParamKind::Text)
            .about("Any path on the volume to inspect (e.g. 'C:\\' or 'C:\\Users').")
            .needed(),
    ];
    assert(param_views(params@) =~= disk_usage_params());
    ToolDefinition {
        name: "disk_usage",
        description: DISK_USAGE_ABOUT,
        input_schema: input_schema(&params),
        capability: Some(Capability::StorageRead),
        timeout_ms: None,
    }
}

/// The space is told of the path that was asked about, and as the backend gives it.
pub proof fn law_space_is_told_of_the_path<B: WindowsBackend>(
    backend: B,
    args: Json,
    r: Result<(String, DiskUsage), WinkitError>,
)
    requires
        call_ensures(disk_usage_handler::<B>, (&backend, &args), r),
    ensures
        args@.text_at("path"@) is None ==> r is Err,
        r matches Ok(p) ==> exists|asked: &str, answer: Result<DiskUsage, WinkitError>|
            {
                &&& #[trigger] call_ensures(B::disk_usage, (&backend, asked), answer)
                &&& asked@ == trimmed(trimmed(args@.text_at("path"@)->0))
                &&& answer is Ok
                &&& p.0@ == asked@
                &&& p.1 == answer->Ok_0
            },
{
}

} // verus!
