//! Managed-browser tools: sessions that the server itself starts.

use crate::chrome::managed::ManagedSession;
use crate::chrome::report::{session_summary, summary_value};
use crate::errors::{ErrorKind, WinkitError};
use crate::json::{json_views, lemma_array_view, Json, JsonView};
use crate::permissions::Capability;
use crate::text::trimmed;
use crate::tools::args::{needed_text, optional_bool, optional_u64, required_string};
use crate::tools::schema::{input_schema, param_views, schema_view, Param, ParamKind, ParamView};
use crate::tools::toolset::{ToolDefinition, ToolView};
use vstd::prelude::*;
use vstd::string::*;

verus! {

/// What is asked of a new session.
#[derive(Debug)]
pub struct StartRequest {
    pub url: String,
    pub headless: bool,
    pub reuse_existing: bool,
    pub wait_for_ready_ms: Option<u64>,
}

/// Is it the session that the arguments ask for?
pub open spec fn is_start_request(
    r: Result<StartRequest, WinkitError>,
    args: JsonView,
    default_headless: bool,
) -> bool {
    match (needed_text(args, "url"@), r) {
        (Ok(url), Ok(q)) => {
            &&& q.url@ == url
            &&& q.headless == (match args.bool_at("headless"@) {
                Some(b) => b,
                None => default_headless,
            })
            &&& q.reuse_existing == (args.bool_at("reuse_existing"@) != Some(false))
            &&& q.wait_for_ready_ms == args.uint_at("wait_for_ready_ms"@)
        },
        (Err(refusal), Err(e)) => e@ == refusal,
        _ => false,
    }
}

/// The session that the arguments ask for.
pub fn start_request(args: &Json, default_headless: bool) -> (r: Result<StartRequest, WinkitError>)
    ensures
        is_start_request(r, args@, default_headless),
{
    match required_string(args, "url") {
        Err(e) => Err(e),
        Ok(url) => Ok(
            StartRequest {
                url,
                headless: match optional_bool(args, "headless") {
                    Some(b) => b,
                    None => default_headless,
                },
                reuse_existing: match optional_bool(args, "reuse_existing") {
                    Some(b) => b,
                    None => true,
                },
                wait_for_ready_ms: optional_u64(args, "wait_for_ready_ms"),
            },
        ),
    }
}

/// The listing of managed sessions.
pub open spec fn sessions_view(enabled: bool, sessions: Seq<ManagedSession>) -> JsonView {
    JsonView::object().with("enabled"@, JsonView::Bool(enabled)).with(
        "sessions"@,
        JsonView::Array(sessions.map_values(|s: ManagedSession| session_summary(s))),
    ).with("count"@, JsonView::Int(sessions.len() as int)).with("truncated"@, JsonView::Bool(false))
}

/// The listing of managed sessions.
pub fn list_sessions(enabled: bool, sessions: &Vec<ManagedSession>) -> (r: Json)
    ensures
        r@ == sessions_view(enabled, sessions@),
{
    let mut rows: Vec<Json> = Vec::new();
    let mut i: usize = 0;
    while i < sessions.len()
        invariant
            i <= sessions@.len(),
            rows@.len() == i,
            forall|k: int| 0 <= k < i ==> (#[trigger] rows@[k])@ == session_summary(sessions@[k]),
        decreases sessions@.len() - i,
    {
        rows.push(summary_value(&sessions[i]));
        i = i + 1;
    }
    proof {
        lemma_array_view(rows);
        assert(json_views(rows@) =~= sessions@.map_values(
            |s: ManagedSession| session_summary(s),
        ));
    }
    Json::object().with("enabled", Json::Bool(enabled)).with("sessions", Json::Array(rows)).with(
        "count",
        Json::UInt(sessions.len() as u64),
    ).with("truncated", Json::Bool(false))
}

/// What the tool `chrome_start_managed_session` does, in words.
pub const CHROME_START_MANAGED_SESSION_ABOUT: &'static str = "Start an isolated WinKit-owned Chrome session pointed at a local URL. Use it when a local page needs browser-level evidence (runtime errors, failed requests, blank page) without the developer manually starting Chrome with a debugging flag. By default (headless=false) a real visible Chrome window opens on the desktop; pass headless=true for a non-visible automation/CI session that opens no window by design. Creates a dedicated profile under the managed root, binds DevTools to loopback, and returns an opaque session_id plus the selected mode (headless, window_mode, launch_mode) for the other managed tools. Never attaches to the developer's normal Chrome profile; never accepts executable paths, profile paths, flags, or JavaScript. Changes state only for resources WinKit creates. Latency: up to startup_timeout_ms (default 10 s). Requires [chrome.managed] enabled = true and the application.browser.launch permission. Next: chrome_get_page_summary, chrome_capture_screenshot, chrome_stop_managed_session.";

/// The parameters of the tool `chrome_start_managed_session`.
pub open spec fn chrome_start_managed_session_params() -> Seq<ParamView> {
    seq![
        ParamView::new("url"@, ParamKind::Text)
            .about("Local http(s) URL to open (localhost/127.0.0.1/[::1], or a host allowed by the managed external-URL policy)."@)
            .needed(),
        ParamView::new("headless"@, ParamKind::Boolean)
            .or_flag(false)
            .about("Launch a visible headed Chrome window when false. Launch a non-visible headless session when true."@)
            .optional(),
        ParamView::new("reuse_existing"@, ParamKind::Boolean)
            .about("Reuse an existing ready session for the same URL (default true)."@),
        ParamView::new("wait_for_ready_ms"@, ParamKind::Integer)
            .at_least(250)
            .about("Deadline for endpoint readiness, clamped to startup_timeout_ms."@),
    ]
}

/// The tool `chrome_start_managed_session`.
pub open spec fn chrome_start_managed_session_tool() -> ToolView {
    ToolView {
        name: "chrome_start_managed_session"@,
        description: CHROME_START_MANAGED_SESSION_ABOUT@,
        input_schema: schema_view(chrome_start_managed_session_params()),
        capability: None,
        timeout_ms: Some(90_000),
    }
}

/// The tool `chrome_start_managed_session`.
pub fn chrome_start_managed_session_definition() -> (r: ToolDefinition)
    ensures
        r@ == chrome_start_managed_session_tool(),
{
    let params: Vec<Param> = vec![
        Param::new("url", ParamKind::Text)
            .about("Local http(s) URL to open (localhost/127.0.0.1/[::1], or a host allowed by the managed external-URL policy).")
            .needed(),
        Param::new("headless", ParamKind::Boolean)
            .or_flag(false)
            .about("Launch a visible headed Chrome window when false. Launch a non-visible headless session when true.")
            .optional(),
        Param::new("reuse_existing", ParamKind::Boolean)
            .about("Reuse an existing ready session for the same URL (default true)."),
        Param::new("wait_for_ready_ms", ParamKind::Integer)
            .at_least(250)
            .about("Deadline for endpoint readiness, clamped to startup_timeout_ms."),
    ];
    assert(param_views(params@) =~= chrome_start_managed_session_params());
    ToolDefinition {
        name: "chrome_start_managed_session",
        description: CHROME_START_MANAGED_SESSION_ABOUT,
        input_schema: input_schema(&params),
        capability: None,
        timeout_ms: Some(90_000),
    }
}

/// What the tool `chrome_list_managed_sessions` does, in words.
pub const CHROME_LIST_MANAGED_SESSIONS_ABOUT: &'static str = "List the Chrome sessions WinKit itself started, with state, port, and redacted URL for each. Call it to find a session_id or check whether a managed browser is still running. Only WinKit-owned sessions are ever reported; normal Chrome profiles are never attached or listed. Read-only, typically <10 ms. Next: chrome_get_page_summary on a ready session, or chrome_stop_managed_session to close one.";

/// The tool `chrome_list_managed_sessions`.
pub open spec fn chrome_list_managed_sessions_tool() -> ToolView {
    ToolView {
        name: "chrome_list_managed_sessions"@,
        description: CHROME_LIST_MANAGED_SESSIONS_ABOUT@,
        input_schema: schema_view(Seq::empty()),
        capability: Some(Capability::ApplicationTabsRead),
        timeout_ms: None,
    }
}

/// The tool `chrome_list_managed_sessions`.
pub fn chrome_list_managed_sessions_definition() -> (r: ToolDefinition)
    ensures
        r@ == chrome_list_managed_sessions_tool(),
{
    let params: Vec<Param> = Vec::new();
    assert(param_views(params@) =~= Seq::<ParamView>::empty());
    ToolDefinition {
        name: "chrome_list_managed_sessions",
        description: CHROME_LIST_MANAGED_SESSIONS_ABOUT,
        input_schema: input_schema(&params),
        capability: Some(Capability::ApplicationTabsRead),
        timeout_ms: None,
    }
}

/// What the tool `chrome_navigate_managed_session` does, in words.
pub const CHROME_NAVIGATE_MANAGED_SESSION_ABOUT: &'static str = "Navigate a WinKit-owned managed tab to another validated local URL. Use it to inspect a different route of the same app or a second local service without starting a new browser. The URL goes through the same loopback/development-host validation as every web tool; external hosts require the managed external-URL policy. Never executes JavaScript and never reads cookies, headers, or bodies. Changes only the owned tab. Latency: <1 s typical. Next: chrome_get_page_summary for the new page.";

/// The parameters of the tool `chrome_navigate_managed_session`.
pub open spec fn chrome_navigate_managed_session_params() -> Seq<ParamView> {
    seq![
        ParamView::new("session_id"@, ParamKind::Text)
            .about("Opaque id from chrome_start_managed_session."@)
            .needed(),
        ParamView::new("url"@, ParamKind::Text)
            .about("Local http(s) URL to navigate to."@)
            .needed(),
    ]
}

/// The tool `chrome_navigate_managed_session`.
pub open spec fn chrome_navigate_managed_session_tool() -> ToolView {
    ToolView {
        name: "chrome_navigate_managed_session"@,
        description: CHROME_NAVIGATE_MANAGED_SESSION_ABOUT@,
        input_schema: schema_view(chrome_navigate_managed_session_params()),
        capability: None,
        timeout_ms: Some(30_000),
    }
}

/// The tool `chrome_navigate_managed_session`.
pub fn chrome_navigate_managed_session_definition() -> (r: ToolDefinition)
    ensures
        r@ == chrome_navigate_managed_session_tool(),
{
    let params: Vec<Param> = vec![
        Param::new("session_id", ParamKind::Text)
            .about("Opaque id from chrome_start_managed_session.")
            .needed(),
        Param::new("url", ParamKind::Text).about("Local http(s) URL to navigate to.").needed(),
    ];
    assert(param_views(params@) =~= chrome_navigate_managed_session_params());
    ToolDefinition {
        name: "chrome_navigate_managed_session",
        description: CHROME_NAVIGATE_MANAGED_SESSION_ABOUT,
        input_schema: input_schema(&params),
        capability: None,
        timeout_ms: Some(30_000),
    }
}

/// What the tool `chrome_stop_managed_session` does, in words.
pub const CHROME_STOP_MANAGED_SESSION_ABOUT: &'static str = "Gracefully close a WinKit-owned managed Chrome session and remove its profile. Call it when browser evidence is collected; never leave a managed browser running unnecessarily. Only ever closes sessions WinKit started; arbitrary Chrome processes and the developer's normal profile are never touched. Changes state only for owned resources. Latency: up to ~5 s while the browser exits. Next: chrome_list_managed_sessions to confirm cleanup.";

/// The parameters of the tool `chrome_stop_managed_session`.
pub open spec fn chrome_stop_managed_session_params() -> Seq<ParamView> {
    seq![
        ParamView::new("session_id"@, ParamKind::Text)
            .about("Opaque id from chrome_start_managed_session."@)
            .needed(),
    ]
}

/// The tool `chrome_stop_managed_session`.
pub open spec fn chrome_stop_managed_session_tool() -> ToolView {
    ToolView {
        name: "chrome_stop_managed_session"@,
        description: CHROME_STOP_MANAGED_SESSION_ABOUT@,
        input_schema: schema_view(chrome_stop_managed_session_params()),
        capability: None,
        timeout_ms: Some(30_000),
    }
}

/// The tool `chrome_stop_managed_session`.
pub fn chrome_stop_managed_session_definition() -> (r: ToolDefinition)
    ensures
        r@ == chrome_stop_managed_session_tool(),
{
    let params: Vec<Param> = vec![
        Param::new("session_id", ParamKind::Text)
            .about("Opaque id from chrome_start_managed_session.")
            .needed(),
    ];
    assert(param_views(params@) =~= chrome_stop_managed_session_params());
    ToolDefinition {
        name: "chrome_stop_managed_session",
        description: CHROME_STOP_MANAGED_SESSION_ABOUT,
        input_schema: input_schema(&params),
        capability: None,
        timeout_ms: Some(30_000),
    }
}

/// What the tool `chrome_get_page_summary` does, in words.
pub const CHROME_GET_PAGE_SUMMARY_ABOUT: &'static str = "Bounded summary of the page in a WinKit-owned managed tab: title, redacted URL, headings, landmarks, form labels without values, visible-text stats, and a short observation of runtime errors and network failures. Call it to learn why a local page is blank or broken. Never reads form values, cookies, headers, or request bodies; text is truncated to the configured cap. Read-only; latency = summary + up to observe_ms (default 3 s). Next: chrome_capture_screenshot for a visual check, or chrome_stop_managed_session when finished.";

/// The parameters of the tool `chrome_get_page_summary`.
pub open spec fn chrome_get_page_summary_params() -> Seq<ParamView> {
    seq![
        ParamView::new("session_id"@, ParamKind::Text)
            .about("Opaque id from chrome_start_managed_session."@)
            .needed(),
        ParamView::new("observe_ms"@, ParamKind::Integer)
            .at_least(0)
            .at_most(30000)
            .about("How long to watch for runtime errors and failed requests (default [chrome] observation_window_ms)."@),
    ]
}

/// The tool `chrome_get_page_summary`.
pub open spec fn chrome_get_page_summary_tool() -> ToolView {
    ToolView {
        name: "chrome_get_page_summary"@,
        description: CHROME_GET_PAGE_SUMMARY_ABOUT@,
        input_schema: schema_view(chrome_get_page_summary_params()),
        capability: Some(Capability::ApplicationRuntimeRead),
        timeout_ms: Some(40_000),
    }
}

/// The tool `chrome_get_page_summary`.
pub fn chrome_get_page_summary_definition() -> (r: ToolDefinition)
    ensures
        r@ == chrome_get_page_summary_tool(),
{
    let params: Vec<Param> = vec![
        Param::new("session_id", ParamKind::Text)
            .about("Opaque id from chrome_start_managed_session.")
            .needed(),
        Param::new("observe_ms", ParamKind::Integer)
            .at_least(0)
            .at_most(30000)
            .about("How long to watch for runtime errors and failed requests (default [chrome] observation_window_ms)."),
    ];
    assert(param_views(params@) =~= chrome_get_page_summary_params());
    ToolDefinition {
        name: "chrome_get_page_summary",
        description: CHROME_GET_PAGE_SUMMARY_ABOUT,
        input_schema: input_schema(&params),
        capability: Some(Capability::ApplicationRuntimeRead),
        timeout_ms: Some(40_000),
    }
}

/// What the tool `chrome_capture_screenshot` does, in words.
pub const CHROME_CAPTURE_SCREENSHOT_ABOUT: &'static str = "Capture a PNG screenshot of the page in a WinKit-owned managed tab, returned as base64 with dimension and byte caps applied. Use it to visually confirm a blank page, layout breakage, or error screen. Only authorized managed tabs are captured; the image is bounded by [chrome.managed] max_screenshot_dimension and max_screenshot_bytes. Read-only; latency <2 s typical. Next: chrome_get_page_summary for the underlying runtime/network evidence, or chrome_stop_managed_session when finished.";

/// The parameters of the tool `chrome_capture_screenshot`.
pub open spec fn chrome_capture_screenshot_params() -> Seq<ParamView> {
    seq![
        ParamView::new("session_id"@, ParamKind::Text)
            .about("Opaque id from chrome_start_managed_session."@)
            .needed(),
    ]
}

/// The tool `chrome_capture_screenshot`.
pub open spec fn chrome_capture_screenshot_tool() -> ToolView {
    ToolView {
        name: "chrome_capture_screenshot"@,
        description: CHROME_CAPTURE_SCREENSHOT_ABOUT@,
        input_schema: schema_view(chrome_capture_screenshot_params()),
        capability: Some(Capability::ApplicationDiagnosticsRead),
        timeout_ms: Some(30_000),
    }
}

/// The tool `chrome_capture_screenshot`.
pub fn chrome_capture_screenshot_definition() -> (r: ToolDefinition)
    ensures
        r@ == chrome_capture_screenshot_tool(),
{
    let params: Vec<Param> = vec![
        Param::new("session_id", ParamKind::Text)
            .about("Opaque id from chrome_start_managed_session.")
            .needed(),
    ];
    assert(param_views(params@) =~= chrome_capture_screenshot_params());
    ToolDefinition {
        name: "chrome_capture_screenshot",
        description: CHROME_CAPTURE_SCREENSHOT_ABOUT,
        input_schema: input_schema(&params),
        capability: Some(Capability::ApplicationDiagnosticsRead),
        timeout_ms: Some(30_000),
    }
}

/// What the tool `chrome_approve_managed_action` does, in words.
pub const CHROME_APPROVE_MANAGED_ACTION_ABOUT: &'static str = "Explicitly approve one pending managed-browser action in approval permission mode. When a lifecycle tool (chrome_start_managed_session, chrome_navigate_managed_session, chrome_stop_managed_session) returns approval_required with a request_id, call this with that id, then retry the action. The grant is per-request, not a standing permission. Read-only with respect to the machine; it only changes WinKit's own approval state. Latency: <10 ms. Next: retry the tool that requested approval.";

/// The parameters of the tool `chrome_approve_managed_action`.
pub open spec fn chrome_approve_managed_action_params() -> Seq<ParamView> {
    seq![
        ParamView::new("request_id"@, ParamKind::Integer)
            .at_least(1)
            .about("request_id from the approval_required error."@)
            .needed(),
    ]
}

/// The tool `chrome_approve_managed_action`.
pub open spec fn chrome_approve_managed_action_tool() -> ToolView {
    ToolView {
        name: "chrome_approve_managed_action"@,
        description: CHROME_APPROVE_MANAGED_ACTION_ABOUT@,
        input_schema: schema_view(chrome_approve_managed_action_params()),
        capability: Some(Capability::ApplicationDiscover),
        timeout_ms: None,
    }
}

/// The tool `chrome_approve_managed_action`.
pub fn chrome_approve_managed_action_definition() -> (r: ToolDefinition)
    ensures
        r@ == chrome_approve_managed_action_tool(),
{
    let params: Vec<Param> = vec![
        Param::new("request_id", ParamKind::Integer)
            .at_least(1)
            .about("request_id from the approval_required error.")
            .needed(),
    ];
    assert(param_views(params@) =~= chrome_approve_managed_action_params());
    ToolDefinition {
        name: "chrome_approve_managed_action",
        description: CHROME_APPROVE_MANAGED_ACTION_ABOUT,
        input_schema: input_schema(&params),
        capability: Some(Capability::ApplicationDiscover),
        timeout_ms: None,
    }
}

/// A session is asked for with the address, shown or not as the arguments say and as
/// configured where they do not; one that is there is used again unless that is
/// declined. Without an address none is started.
pub proof fn law_sessions_start_as_asked(
    args: Json,
    default_headless: bool,
    r: Result<StartRequest, WinkitError>,
)
    requires
        call_ensures(start_request, (&args, default_headless), r),
    ensures
        r is Ok <==> args@.text_at("url"@) is Some && trimmed(args@.text_at("url"@)->0).len() > 0,
        r matches Err(e) ==> e.kind == ErrorKind::InvalidArgument,
        r matches Ok(q) ==> {
            &&& q.url@ == trimmed(args@.text_at("url"@)->0)
            &&& args@.bool_at("headless"@) matches Some(b) ==> q.headless == b
            &&& args@.bool_at("headless"@) is None ==> q.headless == default_headless
            &&& args@.bool_at("reuse_existing"@) matches Some(b) ==> q.reuse_existing == b
            &&& args@.bool_at("reuse_existing"@) is None ==> q.reuse_existing
            &&& q.wait_for_ready_ms == args@.uint_at("wait_for_ready_ms"@)
        },
{
}

/// All sessions are listed, in order, with their number, and whether there can be any.
pub proof fn law_all_sessions_are_listed(enabled: bool, sessions: Vec<ManagedSession>, r: Json)
    requires
        call_ensures(list_sessions, (enabled, &sessions), r),
    ensures
        r@.bool_at("enabled"@) == Some(enabled),
        r@.uint_at("count"@) == Some(sessions@.len() as u64),
        r@.bool_at("truncated"@) == Some(false),
        r@.array_at("sessions"@) is Some,
        r@.array_at("sessions"@)->0.len() == sessions@.len(),
        forall|i: int|
            #![trigger sessions@[i]]
            0 <= i < sessions@.len() ==> r@.array_at("sessions"@)->0[i] == session_summary(
                sessions@[i],
            ),
{
    reveal_strlit("enabled");
    assert("enabled"@.len() == 7);
    reveal_strlit("sessions");
    assert("sessions"@.len() == 8);
    reveal_strlit("count");
    assert("count"@.len() == 5);
    reveal_strlit("truncated");
    assert("truncated"@.len() == 9);
    assert(sessions@.len() == sessions.len());
}

} // verus!
