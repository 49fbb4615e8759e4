//! Application tools: which applications there are, and the browser's tabs.

use crate::chrome::discovery::ApplicationState;
use crate::chrome::report::ApplicationInfo;
use crate::chrome::tabs::TabInfo;
use crate::config::BrowserConfig;
use crate::errors::{err_view, ErrorKind, ErrorView, WinkitError};
use crate::json::{array_of_texts, json_views, lemma_array_view, text_array, Json, JsonView};
use crate::permissions::Capability;
use crate::providers::applications::ApplicationRegistry;
use crate::text::{concat3, trimmed, views};
use crate::tools::args::{
    clamp_limit, limit_for, needed_text, optional_usize, required_string, usize_at,
};
use crate::tools::listing::{listing, lists, Listing};
use crate::tools::schema::{input_schema, param_views, schema_view, Param, ParamKind, ParamView};
use crate::tools::toolset::{ToolDefinition, ToolView};
use vstd::prelude::*;
use vstd::string::*;

verus! {

/// What there is to say where no application is known.
pub const NO_ADAPTERS_HINT: &'static str = "No application adapters are registered — currently only Chrome is adapter-wrapped. For OS-level per-application memory/CPU (explorer, Chrome, Node, etc.) use system_health or system_diagnose.";

/// What the listing of applications is, and is not.
pub const ADAPTERS_NOTE: &'static str = "Application adapters are deep Chrome integrations (tabs, performance, memory). For all running Windows process groups by executable, use system_health / system_diagnose.";

/// The name of an application's state.
pub open spec fn state_name(s: ApplicationState) -> Seq<char> {
    match s {
        ApplicationState::NotInstalled => "not_installed"@,
        ApplicationState::InstalledNotRunning => "installed_not_running"@,
        ApplicationState::RunningNotInspectable => "running_not_inspectable"@,
        ApplicationState::RunningInspectable => "running_inspectable"@,
        ApplicationState::Connected => "connected"@,
    }
}

fn name_of_state(s: ApplicationState) -> (r: &'static str)
    ensures
        r@ == state_name(s),
{
    match s {
        ApplicationState::NotInstalled => "not_installed",
        ApplicationState::InstalledNotRunning => "installed_not_running",
        ApplicationState::RunningNotInspectable => "running_not_inspectable",
        ApplicationState::RunningInspectable => "running_inspectable",
        ApplicationState::Connected => "connected",
    }
}

/// What is told of an application.
pub open spec fn info_view(i: ApplicationInfo) -> JsonView {
    JsonView::object().with("id"@, JsonView::Text(i.id@)).with(
        "display_name"@,
        JsonView::Text(i.display_name@),
    ).with("version"@, JsonView::Text(i.version@)).with(
        "state"@,
        JsonView::Text(state_name(i.state)),
    ).with("capabilities"@, text_array(views(i.capabilities@))).with("details"@, i.details@)
}

/// What is told of an application.
pub fn info_json(i: &ApplicationInfo) -> (r: Json)
    ensures
        r@ == info_view(*i),
{
    Json::object().with("id", Json::text(i.id)).with(
        "display_name",
        Json::text(i.display_name),
    ).with("version", Json::text(&i.version)).with("state", Json::text(name_of_state(i.state))).with(
        "capabilities",
        array_of_texts(&i.capabilities),
    ).with("details", i.details.copy())
}

/// What is told of an application of which nothing could be learned.
pub open spec fn failed_view(id: Seq<char>, display_name: Seq<char>, message: Seq<char>) -> JsonView {
    JsonView::object().with("id"@, JsonView::Text(id)).with(
        "display_name"@,
        JsonView::Text(display_name),
    ).with("state"@, JsonView::Text("error"@)).with("error"@, JsonView::Text(message))
}

/// What one application answered: what is known of it, or its id, its name and
/// the error.
pub enum AppAnswer {
    Known(ApplicationInfo),
    Failed(String, String, WinkitError),
}

/// What is told of what one application answered.
pub open spec fn answer_view(a: AppAnswer) -> JsonView {
    match a {
        AppAnswer::Known(i) => info_view(i),
        AppAnswer::Failed(id, name, e) => failed_view(id@, name@, e.message@),
    }
}

/// The listing of applications.
pub open spec fn applications_view(answers: Seq<AppAnswer>, providers: Seq<Seq<char>>) -> JsonView {
    JsonView::object().with(
        "applications"@,
        JsonView::Array(answers.map_values(|a: AppAnswer| answer_view(a))),
    ).with("count"@, JsonView::Int(answers.len() as int)).with("truncated"@, JsonView::Bool(false)).with(
        "providers"@,
        text_array(providers),
    ).with("note"@, JsonView::Text(ADAPTERS_NOTE@)).with(
        "hint"@,
        if answers.len() == 0 {
            JsonView::Text(NO_ADAPTERS_HINT@)
        } else {
            JsonView::Null
        },
    )
}

/// The listing of applications: an application that cannot answer is listed
/// with its error.
pub fn list_applications(answers: &Vec<AppAnswer>, providers: &Vec<String>) -> (r: Json)
    ensures
        r@ == applications_view(answers@, views(providers@)),
{
    let mut rows: Vec<Json> = Vec::new();
    let mut i: usize = 0;
    while i < answers.len()
        invariant
            i <= answers@.len(),
            rows@.len() == i,
            forall|k: int| 0 <= k < i ==> (#[trigger] rows@[k])@ == answer_view(answers@[k]),
        decreases answers@.len() - i,
    {
        let row = match &answers[i] {
            AppAnswer::Known(info) => info_json(info),
            AppAnswer::Failed(id, name, e) => Json::object().with("id", Json::text(id)).with(
                "display_name",
                Json::text(name),
            ).with("state", Json::text("error")).with("error", Json::text(&e.message)),
        };
        rows.push(row);
        i = i + 1;
    }
    proof {
        lemma_array_view(rows);
        assert(json_views(rows@) =~= answers@.map_values(|a: AppAnswer| answer_view(a)));
    }
    let hint = if answers.len() == 0 {
        Json::text(NO_ADAPTERS_HINT)
    } else {
        Json::Null
    };
    Json::object().with("applications", Json::Array(rows)).with(
        "count",
        Json::UInt(answers.len() as u64),
    ).with("truncated", Json::Bool(false)).with("providers", array_of_texts(providers)).with(
        "note",
        Json::text(ADAPTERS_NOTE),
    ).with("hint", hint)
}

/// The refusal of an id that no application has.
pub open spec fn no_application(id: Seq<char>) -> ErrorView {
    err_view(
        ErrorKind::NotFound,
        "no application provider with id '"@ + id
            + "' (use list_applications to see registered adapters)"@,
    )
}

/// The application of the id that the arguments give.
pub fn wanted_application<'a, A>(applications: &'a ApplicationRegistry<A>, args: &Json) -> (r:
    Result<&'a A, WinkitError>)
    requires
        applications.wf(),
    ensures
        match needed_text(args@, "id"@) {
            Err(refusal) => r matches Err(e) && e@ == refusal,
            Ok(id) => match r {
                Ok(a) => applications.map().dom().contains(id) && *a == applications.map()[id],
                Err(e) => !applications.map().dom().contains(id) && e@ == no_application(id),
            },
        },
{
    match required_string(args, "id") {
        Err(e) => Err(e),
        Ok(id) => match applications.get(&id) {
            Some(a) => Ok(a),
            None => Err(
                WinkitError::not_found(
                    &concat3(
                        "no application provider with id '",
                        &id,
                        "' (use list_applications to see registered adapters)",
                    ),
                ),
            ),
        },
    }
}

/// The browser's adapter, or the refusal where it is not enabled.
pub fn chrome_provider<'a, A>(applications: &'a ApplicationRegistry<A>) -> (r: Result<
    &'a A,
    WinkitError,
>)
    requires
        applications.wf(),
    ensures
        match r {
            Ok(a) => applications.map().dom().contains("chrome"@) && *a
                == applications.map()["chrome"@],
            Err(e) => !applications.map().dom().contains("chrome"@) && e@ == err_view(
                ErrorKind::ProviderUnavailable,
                "the chrome provider is not enabled in this configuration"@,
            ),
        },
{
    match applications.get("chrome") {
        Some(a) => Ok(a),
        None => Err(
            WinkitError::provider_unavailable(
                "the chrome provider is not enabled in this configuration",
            ),
        ),
    }
}

/// How long a browser tool may take.
pub fn chrome_timeout(chrome: &BrowserConfig) -> (r: Option<u64>)
    ensures
        r == Some(chrome.operation_timeout_ms),
{
    Some(chrome.operation_timeout_ms)
}

/// The listing of the browser's tabs, at most as many as the arguments ask for.
pub fn list_tabs_reply(args: &Json, max_tabs: usize, tabs: Vec<TabInfo>) -> (r: Listing<TabInfo>)
    requires
        usize_at(args@, "limit"@) is Some ==> max_tabs >= 1,
    ensures
        ({
            let limit = limit_for(usize_at(args@, "limit"@), max_tabs);
            lists(
                r,
                if tabs@.len() <= limit {
                    tabs@
                } else {
                    tabs@.take(limit as int)
                },
                limit,
            )
        }),
{
    let limit = clamp_limit(optional_usize(args, "limit"), max_tabs);
    let mut kept = tabs;
    if kept.len() > limit {
        kept.truncate(limit);
    }
    listing(kept, limit)
}

/// What the tool `list_applications` does, in words.
pub const LIST_APPLICATIONS_ABOUT: &'static str = "List registered application adapters (currently Chrome) with availability and capabilities. This is NOT the Windows process-group list — for per-executable memory/CPU groups (explorer, Chrome, Spotify, Node, etc.) use system_health or system_diagnose.";

/// The tool `list_applications`.
pub open spec fn list_applications_tool() -> ToolView {
    ToolView {
        name: "list_applications"@,
        description: LIST_APPLICATIONS_ABOUT@,
        input_schema: schema_view(Seq::empty()),
        capability: Some(Capability::ApplicationDiscover),
        timeout_ms: None,
    }
}

/// The tool `list_applications`.
pub fn list_applications_definition() -> (r: ToolDefinition)
    ensures
        r@ == list_applications_tool(),
{
    let params: Vec<Param> = Vec::new();
    assert(param_views(params@) =~= Seq::<ParamView>::empty());
    ToolDefinition {
        name: "list_applications",
        description: LIST_APPLICATIONS_ABOUT,
        input_schema: input_schema(&params),
        capability: Some(Capability::ApplicationDiscover),
        timeout_ms: None,
    }
}

/// What the tool `get_application` does, in words.
pub const GET_APPLICATION_ABOUT: &'static str = "Detailed availability and capability information for one application adapter (e.g. 'chrome').";

/// The parameters of the tool `get_application`.
pub open spec fn get_application_params() -> Seq<ParamView> {
    seq![
        ParamView::new("id"@, ParamKind::Text).about("Adapter id, e.g. 'chrome'."@).needed(),
    ]
}

/// The tool `get_application`.
pub open spec fn get_application_tool() -> ToolView {
    ToolView {
        name: "get_application"@,
        description: GET_APPLICATION_ABOUT@,
        input_schema: schema_view(get_application_params()),
        capability: Some(Capability::ApplicationDiscover),
        timeout_ms: None,
    }
}

/// The tool `get_application`.
pub fn get_application_definition() -> (r: ToolDefinition)
    ensures
        r@ == get_application_tool(),
{
    let params: Vec<Param> = vec![
        Param::new("id", ParamKind::Text).about("Adapter id, e.g. 'chrome'.").needed(),
    ];
    assert(param_views(params@) =~= get_application_params());
    ToolDefinition {
        name: "get_application",
        description: GET_APPLICATION_ABOUT,
        input_schema: input_schema(&params),
        capability: Some(Capability::ApplicationDiscover),
        timeout_ms: None,
    }
}

/// What the tool `chrome_info` does, in words.
pub const CHROME_INFO_ABOUT: &'static str = "Chrome availability state, browser version, protocol version, tabs count, and Chrome processes.";

/// The tool `chrome_info`.
pub open spec fn chrome_info_tool(chrome: BrowserConfig) -> ToolView {
    ToolView {
        name: "chrome_info"@,
        description: CHROME_INFO_ABOUT@,
        input_schema: schema_view(Seq::empty()),
        capability: Some(Capability::ApplicationDiscover),
        timeout_ms: Some(chrome.operation_timeout_ms),
    }
}

/// The tool `chrome_info`.
pub fn chrome_info_definition(chrome: &BrowserConfig) -> (r: ToolDefinition)
    ensures
        r@ == chrome_info_tool(*chrome),
{
    let params: Vec<Param> = Vec::new();
    assert(param_views(params@) =~= Seq::<ParamView>::empty());
    ToolDefinition {
        name: "chrome_info",
        description: CHROME_INFO_ABOUT,
        input_schema: input_schema(&params),
        capability: Some(Capability::ApplicationDiscover),
        timeout_ms: Some(chrome.operation_timeout_ms),
    }
}

/// What the tool `chrome_list_tabs` does, in words.
pub const CHROME_LIST_TABS_ABOUT: &'static str = "List open Chrome tabs with id, title, URL, and active state.";

/// The parameters of the tool `chrome_list_tabs`.
pub open spec fn chrome_list_tabs_params() -> Seq<ParamView> {
    seq![
        ParamView::new("limit"@, ParamKind::Integer)
            .at_least(1)
            .about("Maximum results (defaults to the configured tab limit)."@),
    ]
}

/// The tool `chrome_list_tabs`.
pub open spec fn chrome_list_tabs_tool(chrome: BrowserConfig) -> ToolView {
    ToolView {
        name: "chrome_list_tabs"@,
        description: CHROME_LIST_TABS_ABOUT@,
        input_schema: schema_view(chrome_list_tabs_params()),
        capability: Some(Capability::ApplicationTabsRead),
        timeout_ms: Some(chrome.operation_timeout_ms),
    }
}

/// The tool `chrome_list_tabs`.
pub fn chrome_list_tabs_definition(chrome: &BrowserConfig) -> (r: ToolDefinition)
    ensures
        r@ == chrome_list_tabs_tool(*chrome),
{
    let params: Vec<Param> = vec![
        Param::new("limit", ParamKind::Integer)
            .at_least(1)
            .about("Maximum results (defaults to the configured tab limit)."),
    ];
    assert(param_views(params@) =~= chrome_list_tabs_params());
    ToolDefinition {
        name: "chrome_list_tabs",
        description: CHROME_LIST_TABS_ABOUT,
        input_schema: input_schema(&params),
        capability: Some(Capability::ApplicationTabsRead),
        timeout_ms: Some(chrome.operation_timeout_ms),
    }
}

/// What the tool `chrome_get_tab` does, in words.
pub const CHROME_GET_TAB_ABOUT: &'static str = "One Chrome tab by id (or exact URL).";

/// The parameters of the tool `chrome_get_tab`.
pub open spec fn chrome_get_tab_params() -> Seq<ParamView> {
    seq![
        ParamView::new("tab_id"@, ParamKind::Text)
            .about("Tab target id (from chrome_list_tabs) or exact URL."@)
            .needed(),
    ]
}

/// The tool `chrome_get_tab`.
pub open spec fn chrome_get_tab_tool(chrome: BrowserConfig) -> ToolView {
    ToolView {
        name: "chrome_get_tab"@,
        description: CHROME_GET_TAB_ABOUT@,
        input_schema: schema_view(chrome_get_tab_params()),
        capability: Some(Capability::ApplicationTabsRead),
        timeout_ms: Some(chrome.operation_timeout_ms),
    }
}

/// The tool `chrome_get_tab`.
pub fn chrome_get_tab_definition(chrome: &BrowserConfig) -> (r: ToolDefinition)
    ensures
        r@ == chrome_get_tab_tool(*chrome),
{
    let params: Vec<Param> = vec![
        Param::new("tab_id", ParamKind::Text)
            .about("Tab target id (from chrome_list_tabs) or exact URL.")
            .needed(),
    ];
    assert(param_views(params@) =~= chrome_get_tab_params());
    ToolDefinition {
        name: "chrome_get_tab",
        description: CHROME_GET_TAB_ABOUT,
        input_schema: input_schema(&params),
        capability: Some(Capability::ApplicationTabsRead),
        timeout_ms: Some(chrome.operation_timeout_ms),
    }
}

/// What the tool `chrome_get_active_tab` does, in words.
pub const CHROME_GET_ACTIVE_TAB_ABOUT: &'static str = "The currently active Chrome tab, determined by window-title correlation with the Windows foreground window.";

/// The tool `chrome_get_active_tab`.
pub open spec fn chrome_get_active_tab_tool(chrome: BrowserConfig) -> ToolView {
    ToolView {
        name: "chrome_get_active_tab"@,
        description: CHROME_GET_ACTIVE_TAB_ABOUT@,
        input_schema: schema_view(Seq::empty()),
        capability: Some(Capability::ApplicationTabsRead),
        timeout_ms: Some(chrome.operation_timeout_ms),
    }
}

/// The tool `chrome_get_active_tab`.
pub fn chrome_get_active_tab_definition(chrome: &BrowserConfig) -> (r: ToolDefinition)
    ensures
        r@ == chrome_get_active_tab_tool(*chrome),
{
    let params: Vec<Param> = Vec::new();
    assert(param_views(params@) =~= Seq::<ParamView>::empty());
    ToolDefinition {
        name: "chrome_get_active_tab",
        description: CHROME_GET_ACTIVE_TAB_ABOUT,
        input_schema: input_schema(&params),
        capability: Some(Capability::ApplicationTabsRead),
        timeout_ms: Some(chrome.operation_timeout_ms),
    }
}

/// Every application that answered is listed, in order, with its count and the names
/// of the adapters. One that answered is told with what it said; one that failed with
/// its error. A hint is given only where there is none.
pub proof fn law_applications_are_listed(
    answers: Vec<AppAnswer>,
    providers: Vec<String>,
    r: Json,
)
    requires
        call_ensures(list_applications, (&answers, &providers), r),
    ensures
        r@.uint_at("count"@) == Some(answers@.len() as u64),
        r@.bool_at("truncated"@) == Some(false),
        r@.get("providers"@) == Some(text_array(views(providers@))),
        r@.get("hint"@) is Some,
        r@.get("hint"@)->0 == JsonView::Null <==> answers@.len() > 0,
        r@.array_at("applications"@) is Some,
        r@.array_at("applications"@)->0.len() == answers@.len(),
        forall|i: int|
            #![trigger answers@[i]]
            0 <= i < answers@.len() ==> {
                let row = r@.array_at("applications"@)->0[i];
                match answers@[i] {
                    AppAnswer::Known(a) => {
                        &&& row.text_at("id"@) == Some(a.id@)
                        &&& row.text_at("display_name"@) == Some(a.display_name@)
                        &&& row.text_at("version"@) == Some(a.version@)
                        &&& row.get("capabilities"@) == Some(text_array(views(a.capabilities@)))
                        &&& row.get("details"@) == Some(a.details@)
                        &&& row.text_at("state"@) == Some("not_installed"@) <==> a.state
                            == ApplicationState::NotInstalled
                        &&& row.text_at("state"@) == Some("installed_not_running"@) <==> a.state
                            == ApplicationState::InstalledNotRunning
                        &&& row.text_at("state"@) == Some("running_not_inspectable"@) <==> a.state
                            == ApplicationState::RunningNotInspectable
                        &&& row.text_at("state"@) == Some("running_inspectable"@) <==> a.state
                            == ApplicationState::RunningInspectable
                        &&& row.text_at("state"@) == Some("connected"@) <==> a.state
                            == ApplicationState::Connected
                    },
                    AppAnswer::Failed(id, name, e) => {
                        &&& row.text_at("id"@) == Some(id@)
                        &&& row.text_at("display_name"@) == Some(name@)
                        &&& row.text_at("state"@) == Some("error"@)
                        &&& row.text_at("error"@) == Some(e.message@)
                    },
                }
            },
{
    reveal_strlit("applications");
    assert("applications"@.len() == 12);
    reveal_strlit("count");
    assert("count"@.len() == 5);
    reveal_strlit("truncated");
    assert("truncated"@.len() == 9);
    reveal_strlit("providers");
    assert("providers"@.len() == 9);
    reveal_strlit("note");
    assert("note"@.len() == 4);
    reveal_strlit("hint");
    assert("hint"@.len() == 4);
    assert("truncated"@[0] != "providers"@[0]);
    assert("note"@[0] != "hint"@[0]);
    reveal_strlit("id");
    assert("id"@.len() == 2);
    reveal_strlit("display_name");
    assert("display_name"@.len() == 12);
    reveal_strlit("version");
    assert("version"@.len() == 7);
    reveal_strlit("state");
    assert("state"@.len() == 5);
    reveal_strlit("capabilities");
    assert("capabilities"@.len() == 12);
    reveal_strlit("details");
    assert("details"@.len() == 7);
    reveal_strlit("error");
    assert("error"@.len() == 5);
    assert("display_name"@[0] != "capabilities"@[0]);
    assert("version"@[0] != "details"@[0]);
    assert("state"@[0] != "error"@[0]);
    reveal_strlit("not_installed");
    assert("not_installed"@.len() == 13);
    reveal_strlit("installed_not_running");
    assert("installed_not_running"@.len() == 21);
    reveal_strlit("running_not_inspectable");
    assert("running_not_inspectable"@.len() == 23);
    reveal_strlit("running_inspectable");
    assert("running_inspectable"@.len() == 19);
    reveal_strlit("connected");
    assert("connected"@.len() == 9);
    assert(answers@.len() == answers.len());
}

/// An application is found by its id, without the white space around it; an id that
/// none has is not found.
pub proof fn law_applications_are_found_by_id<A>(
    applications: ApplicationRegistry<A>,
    args: Json,
    r: Result<&A, WinkitError>,
)
    requires
        applications.wf(),
        call_ensures(wanted_application::<A>, (&applications, &args), r),
    ensures
        ({
            let s = args@.text_at("id"@);
            if s is None || trimmed(s->0).len() == 0 {
                r is Err && r->Err_0.kind == ErrorKind::InvalidArgument
            } else if applications.map().dom().contains(trimmed(s->0)) {
                r is Ok && *r->Ok_0 == applications.map()[trimmed(s->0)]
            } else {
                r is Err && r->Err_0.kind == ErrorKind::NotFound
            }
        }),
{
}

/// The first tabs are listed, as many as were asked for and no more than allowed, with
/// their number.
pub proof fn law_first_tabs_are_listed(
    args: Json,
    max_tabs: usize,
    tabs: Vec<TabInfo>,
    r: Listing<TabInfo>,
)
    requires
        max_tabs >= 1,
        call_ensures(list_tabs_reply, (&args, max_tabs, tabs), r),
    ensures
        r.items@.is_prefix_of(tabs@),
        r.count == r.items@.len(),
        r.count <= max_tabs,
        usize_at(args@, "limit"@) matches Some(n) ==> (n >= 1 ==> r.count <= n),
        usize_at(args@, "limit"@) matches Some(n) ==> (1 <= n <= max_tabs && tabs@.len() >= n
            ==> r.count == n && r.truncated),
        usize_at(args@, "limit"@) matches Some(n) ==> (1 <= n <= max_tabs && tabs@.len() < n
            ==> r.items@ == tabs@ && !r.truncated),
        usize_at(args@, "limit"@) is None && tabs@.len() < max_tabs ==> r.items@ == tabs@
            && !r.truncated,
        usize_at(args@, "limit"@) is None && tabs@.len() >= max_tabs ==> r.count == max_tabs
            && r.truncated,
{
}

} // verus!
