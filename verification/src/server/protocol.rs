//! JSON-RPC 2.0 and the part of the Model Context Protocol that the server
//! speaks: `initialize`, `ping`, `tools/list` and `tools/call`, and the ends
//! `shutdown` and `exit`.
//!
//! A message is answered at once, except for a call of a tool: that is handed
//! back as [`PendingCall`], to be run and completed.

use crate::errors::{err_view, ErrorKind, ErrorView, WinkitError};
use crate::json::{json_parse, json_text, json_views, lemma_array_view, Json, JsonView};
use crate::providers::registry::SERVER_VERSION;
use crate::server::lifecycle::{begun, Lifecycle, LifecycleView, SERVER_NOT_INITIALIZED};
use crate::server::registry::{
    call_result, finish_call, map_protocol_error, outcome_view, protocol_code, protocol_data,
};
use crate::text::{concat2, same, utf8_len};
use crate::permissions::grants;
use crate::tools::toolset::{
    call_gate, has_tool, in_name_order, law_listed_is_callable, offered_tools, shows, tool_of,
    CallTerms, RegistryView, ToolRegistry, ToolView,
};
use vstd::prelude::*;
use vstd::string::*;

verus! {

/// The version of the protocol that is spoken where the client asks for none
/// that the server speaks.
pub const PROTOCOL_VERSION: &'static str = "2024-11-05";

/// The code of a text that is no JSON.
pub const PARSE_ERROR: i64 = -32700;

/// The code of a message without a method.
pub const INVALID_REQUEST: i64 = -32600;

/// The code of a method that there is none of.
pub const METHOD_NOT_FOUND: i64 = -32601;

/// The version of the protocol that is spoken: the one the client asks for,
/// where the server speaks it.
pub open spec fn spoken_version(asked: Option<Seq<char>>) -> Seq<char> {
    match asked {
        Some(v) => if v == "2025-06-18"@ || v == "2025-03-26"@ || v == "2024-11-05"@ {
            v
        } else {
            PROTOCOL_VERSION@
        },
        None => PROTOCOL_VERSION@,
    }
}

fn version_for(asked: &Option<String>) -> (r: String)
    ensures
        r@ == spoken_version(crate::text::opt_view(*asked)),
{
    match asked {
        Some(v) => {
            if same(v, "2025-06-18") || same(v, "2025-03-26") || same(v, "2024-11-05") {
                v.clone()
            } else {
                PROTOCOL_VERSION.to_string()
            }
        },
        None => PROTOCOL_VERSION.to_string(),
    }
}

/// A call of a tool that is to be run.
pub struct PendingCall {
    /// The id of the request; a notification has none.
    pub id: Option<Json>,
    pub name: String,
    pub args: Json,
    /// How long the call may take, in milliseconds.
    pub timeout_ms: u64,
}

/// [`PendingCall`] taken by its views.
pub struct PendingView {
    pub id: Option<JsonView>,
    pub name: Seq<char>,
    pub args: JsonView,
    pub timeout_ms: u64,
}

/// A value that may be missing, taken by its view.
pub open spec fn id_view(id: Option<Json>) -> Option<JsonView> {
    match id {
        Some(v) => Some(v@),
        None => None,
    }
}

impl View for PendingCall {
    type V = PendingView;

    open spec fn view(&self) -> PendingView {
        PendingView {
            id: id_view(self.id),
            name: self.name@,
            args: self.args@,
            timeout_ms: self.timeout_ms,
        }
    }
}

/// What is done with a message.
pub enum Handled {
    /// This text is sent back.
    Reply(String),
    /// Nothing is sent back.
    Silent,
    /// The session ends.
    Ended,
    /// A tool is to be run.
    Call(PendingCall),
}

/// [`Handled`] taken by its views: a reply by the value that its text writes.
pub enum HandledView {
    Reply(JsonView),
    Silent,
    Ended,
    Call(PendingView),
}

/// Is this what is done?
pub open spec fn is_handled(h: Handled, v: HandledView) -> bool {
    match (h, v) {
        (Handled::Reply(text), HandledView::Reply(value)) => text@ == json_text(value),
        (Handled::Silent, HandledView::Silent) => true,
        (Handled::Ended, HandledView::Ended) => true,
        (Handled::Call(c), HandledView::Call(d)) => c@ == d,
        _ => false,
    }
}

/// The reply with a result.
pub open spec fn result_reply(id: JsonView, result: JsonView) -> JsonView {
    JsonView::object().with("jsonrpc"@, JsonView::Text("2.0"@)).with("id"@, id).with(
        "result"@,
        result,
    )
}

/// The reply with an error.
pub open spec fn error_reply(id: JsonView, code: int, message: Seq<char>, data: JsonView) -> JsonView {
    JsonView::object().with("jsonrpc"@, JsonView::Text("2.0"@)).with("id"@, id).with(
        "error"@,
        JsonView::object().with("code"@, JsonView::Int(code)).with(
            "message"@,
            JsonView::Text(message),
        ).with("data"@, data),
    )
}

/// The reply to a text that is no message; it belongs to no request.
pub open spec fn frame_error_reply(message: Seq<char>) -> JsonView {
    JsonView::object().with("jsonrpc"@, JsonView::Text("2.0"@)).with("id"@, JsonView::Null).with(
        "error"@,
        JsonView::object().with("code"@, JsonView::Int(PARSE_ERROR as int)).with(
            "message"@,
            JsonView::Text(message),
        ),
    )
}

/// A result goes back to the request that asked for it; a notification gets
/// none.
pub open spec fn result_for(id: Option<JsonView>, result: JsonView) -> HandledView {
    match id {
        Some(id) => HandledView::Reply(result_reply(id, result)),
        None => HandledView::Silent,
    }
}

/// An error goes back to the request that caused it; a notification gets none.
pub open spec fn error_for(
    id: Option<JsonView>,
    code: int,
    message: Seq<char>,
    data: JsonView,
) -> HandledView {
    match id {
        Some(id) => HandledView::Reply(error_reply(id, code, message, data)),
        None => HandledView::Silent,
    }
}

/// The refusal before the handshake.
pub open spec fn not_initialized(id: Option<JsonView>) -> HandledView {
    error_for(id, SERVER_NOT_INITIALIZED as int, "server not initialized"@, JsonView::object())
}

/// What is done with an error of the library.
pub open spec fn failure_for(id: Option<JsonView>, e: ErrorView) -> HandledView {
    error_for(id, protocol_code(e.kind), e.message, protocol_data(e.kind))
}

/// The result of `initialize`.
pub open spec fn initialize_result(params: JsonView) -> JsonView {
    JsonView::object().with(
        "protocolVersion"@,
        JsonView::Text(spoken_version(params.text_at("protocolVersion"@))),
    ).with(
        "capabilities"@,
        JsonView::object().with(
            "tools"@,
            JsonView::object().with("listChanged"@, JsonView::Bool(false)),
        ),
    ).with(
        "serverInfo"@,
        JsonView::object().with("name"@, JsonView::Text("winkit"@)).with(
            "version"@,
            JsonView::Text(SERVER_VERSION@),
        ),
    )
}

/// One row of `tools/list`.
pub open spec fn tool_row(t: ToolView) -> JsonView {
    JsonView::object().with("name"@, JsonView::Text(t.name)).with(
        "description"@,
        JsonView::Text(t.description),
    ).with("inputSchema"@, t.input_schema)
}

/// The result of `tools/list`: the tools that are offered, by name.
pub open spec fn tools_list_result(tools: RegistryView) -> JsonView {
    JsonView::object().with(
        "tools"@,
        JsonView::Array(offered_tools(tools).map_values(|t: ToolView| tool_row(t))),
    )
}

/// The arguments of a call; none given are an empty object.
pub open spec fn call_args(params: JsonView) -> JsonView {
    match params.get("arguments"@) {
        Some(a) => a,
        None => JsonView::object(),
    }
}

/// What is done with `tools/call`.
pub open spec fn tools_call(
    tools: RegistryView,
    terms: CallTerms,
    id: Option<JsonView>,
    params: JsonView,
) -> HandledView {
    match params.text_at("name"@) {
        None => failure_for(
            id,
            err_view(ErrorKind::InvalidArgument, "tools/call requires a 'name' string"@),
        ),
        Some(name) => if !(call_args(params) is Object) {
            failure_for(
                id,
                err_view(ErrorKind::InvalidArgument, "tools/call 'arguments' must be an object"@),
            )
        } else {
            match call_gate(tools, name, terms) {
                Err(e) => failure_for(id, e),
                Ok(timeout_ms) => HandledView::Call(
                    PendingView { id, name, args: call_args(params), timeout_ms },
                ),
            }
        },
    }
}

/// The method of a message; none where there is no text.
pub open spec fn method_of(msg: JsonView) -> Seq<char> {
    match msg.text_at("method"@) {
        Some(m) => m,
        None => ""@,
    }
}

/// What is done with a message that was read.
pub open spec fn dispatch(
    tools: RegistryView,
    terms: CallTerms,
    initialized: bool,
    msg: JsonView,
) -> HandledView {
    let id = msg.get("id"@);
    let method = method_of(msg);
    let params = msg.member("params"@);
    if method == "initialize"@ {
        result_for(id, initialize_result(params))
    } else if method == "notifications/initialized"@ {
        HandledView::Silent
    } else if method == "ping"@ {
        if initialized {
            result_for(id, JsonView::object())
        } else {
            not_initialized(id)
        }
    } else if method == "tools/list"@ {
        if initialized {
            result_for(id, tools_list_result(tools))
        } else {
            not_initialized(id)
        }
    } else if method == "tools/call"@ {
        if initialized {
            tools_call(tools, terms, id, params)
        } else {
            not_initialized(id)
        }
    } else if method == "shutdown"@ {
        result_for(id, JsonView::object())
    } else if method == "exit"@ {
        HandledView::Ended
    } else if method.len() == 0 {
        HandledView::Reply(
            error_reply(
                match id {
                    Some(id) => id,
                    None => JsonView::Null,
                },
                INVALID_REQUEST as int,
                "invalid request: missing 'method'"@,
                JsonView::object(),
            ),
        )
    } else {
        error_for(id, METHOD_NOT_FOUND as int, "method not found: "@ + method, JsonView::object())
    }
}

/// What is done with a text.
pub open spec fn handling(
    tools: RegistryView,
    terms: CallTerms,
    initialized: bool,
    frame: Seq<char>,
) -> HandledView {
    match json_parse(frame) {
        Err(words) => HandledView::Reply(frame_error_reply("parse error: "@ + words)),
        Ok(msg) => dispatch(tools, terms, initialized, msg),
    }
}

/// The session after a text: `initialize` opens it.
pub open spec fn session_after(l: LifecycleView, frame: Seq<char>) -> LifecycleView {
    match json_parse(frame) {
        Err(_) => l,
        Ok(msg) => if method_of(msg) == "initialize"@ {
            begun(msg.member("params"@))
        } else {
            l
        },
    }
}

/// The reply with an error, as text.
fn error_text(id: Json, code: i64, message: &str, data: Json) -> (r: String)
    requires
        code < 0,
    ensures
        r@ == json_text(error_reply(id@, code as int, message@, data@)),
{
    Json::object().with("jsonrpc", Json::text("2.0")).with("id", id).with(
        "error",
        Json::object().with("code", Json::NegInt(code)).with("message", Json::text(message)).with(
            "data",
            data,
        ),
    ).render()
}

/// The reply to a text that is no message, as text.
pub fn frame_error(message: &str) -> (r: String)
    ensures
        r@ == json_text(frame_error_reply(message@)),
{
    Json::object().with("jsonrpc", Json::text("2.0")).with("id", Json::Null).with(
        "error",
        Json::object().with("code", Json::NegInt(PARSE_ERROR)).with("message", Json::text(message)),
    ).render()
}

fn send_result(id: Option<Json>, result: Json) -> (r: Handled)
    ensures
        is_handled(r, result_for(id_view(id), result@)),
{
    match id {
        Some(id) => Handled::Reply(
            Json::object().with("jsonrpc", Json::text("2.0")).with("id", id).with(
                "result",
                result,
            ).render(),
        ),
        None => Handled::Silent,
    }
}

fn send_error(id: Option<Json>, code: i64, message: &str, data: Json) -> (r: Handled)
    requires
        code < 0,
    ensures
        is_handled(r, error_for(id_view(id), code as int, message@, data@)),
{
    match id {
        Some(id) => Handled::Reply(error_text(id, code, message, data)),
        None => Handled::Silent,
    }
}

fn send_failure(id: Option<Json>, e: &WinkitError) -> (r: Handled)
    ensures
        is_handled(r, failure_for(id_view(id), e@)),
{
    let (code, data) = map_protocol_error(e);
    send_error(id, code, &e.message, data)
}

fn send_not_initialized(id: Option<Json>) -> (r: Handled)
    ensures
        is_handled(r, not_initialized(id_view(id))),
{
    send_error(id, SERVER_NOT_INITIALIZED, "server not initialized", Json::object())
}

fn initialize_reply(params: &Json) -> (r: Json)
    ensures
        r@ == initialize_result(params@),
{
    let version = version_for(&params.text_at("protocolVersion"));
    Json::object().with("protocolVersion", Json::text(&version)).with(
        "capabilities",
        Json::object().with("tools", Json::object().with("listChanged", Json::Bool(false))),
    ).with(
        "serverInfo",
        Json::object().with("name", Json::text("winkit")).with(
            "version",
            Json::text(SERVER_VERSION),
        ),
    )
}

fn tools_list_reply(tools: &ToolRegistry) -> (r: Json)
    requires
        tools.wf(),
    ensures
        r@ == tools_list_result(tools.view()),
{
    let rows = tools.schemas();
    let ghost offered = offered_tools(tools.view());
    let mut out: Vec<Json> = Vec::new();
    let mut i: usize = 0;
    while i < rows.len()
        invariant
            offered == offered_tools(tools.view()),
            rows@.len() == offered.len(),
            forall|k: int| 0 <= k < rows@.len() ==> shows(#[trigger] rows@[k], offered[k]),
            i <= rows@.len(),
            out@.len() == i,
            forall|k: int| 0 <= k < i ==> (#[trigger] out@[k])@ == tool_row(offered[k]),
        decreases rows@.len() - i,
    {
        let row = &rows[i];
        assert(shows(rows@[i as int], offered[i as int]));
        out.push(
            Json::object().with("name", Json::text(&row.name)).with(
                "description",
                Json::text(&row.description),
            ).with("inputSchema", row.input_schema.copy()),
        );
        i = i + 1;
    }
    proof {
        lemma_array_view(out);
        assert(json_views(out@) =~= offered.map_values(|t: ToolView| tool_row(t)));
    }
    Json::object().with("tools", Json::Array(out))
}

fn start_call(
    tools: &ToolRegistry,
    terms: CallTerms,
    id: Option<Json>,
    params: &Json,
) -> (r: Handled)
    requires
        tools.wf(),
    ensures
        is_handled(r, tools_call(tools.view(), terms, id_view(id), params@)),
{
    let name = match params.text_at("name") {
        Some(n) => n,
        None => {
            let e = WinkitError::invalid_argument("tools/call requires a 'name' string");
            return send_failure(id, &e);
        },
    };
    let args = match params.get("arguments") {
        Some(a) => a.copy(),
        None => Json::object(),
    };
    if !args.is_object() {
        let e = WinkitError::invalid_argument("tools/call 'arguments' must be an object");
        return send_failure(id, &e);
    }
    match tools.check_call(&name, terms) {
        Err(e) => send_failure(id, &e),
        Ok(timeout_ms) => Handled::Call(PendingCall { id, name, args, timeout_ms }),
    }
}

/// The content that a tool's result is sent as.
pub open spec fn content_of(text: Seq<char>) -> JsonView {
    JsonView::object().with(
        "content"@,
        JsonView::Array(
            seq![
                JsonView::object().with("type"@, JsonView::Text("text"@)).with(
                    "text"@,
                    JsonView::Text(text),
                ),
            ],
        ),
    ).with("isError"@, JsonView::Bool(false))
}

/// What is done when a call is over.
pub open spec fn completion(
    call: PendingView,
    outcome: Option<Result<JsonView, ErrorView>>,
    max_payload_bytes: usize,
) -> HandledView {
    match call_result(call.name, call.timeout_ms, outcome, max_payload_bytes) {
        Ok(text) => result_for(call.id, content_of(text)),
        Err(e) => failure_for(call.id, e),
    }
}

/// What is done when a call is over; no outcome is one that did not come in
/// time.
pub fn complete_call(
    call: PendingCall,
    outcome: Option<Result<Json, WinkitError>>,
    max_payload_bytes: usize,
) -> (r: Handled)
    ensures
        is_handled(r, completion(call@, outcome_view(outcome), max_payload_bytes)),
{
    match finish_call(&call.name, call.timeout_ms, outcome, max_payload_bytes) {
        Ok(text) => {
            let item = Json::object().with("type", Json::text("text")).with(
                "text",
                Json::text(&text),
            );
            let ghost shown = item@;
            let items: Vec<Json> = vec![item];
            proof {
                lemma_array_view(items);
                assert(json_views(items@) =~= seq![shown]);
            }
            let content = Json::object().with("content", Json::Array(items)).with(
                "isError",
                Json::Bool(false),
            );
            send_result(call.id, content)
        },
        Err(e) => send_failure(call.id, &e),
    }
}

/// One session: the life cycle, and the tools that it offers.
pub struct McpServer {
    lifecycle: Lifecycle,
    tools: ToolRegistry,
    terms: CallTerms,
}

impl McpServer {
    /// The life cycle of the session.
    pub closed spec fn session(&self) -> LifecycleView {
        self.lifecycle@
    }

    /// The tools that the session offers.
    pub closed spec fn tools(&self) -> RegistryView {
        self.tools.view()
    }

    /// The terms on which tools are called.
    pub closed spec fn terms(&self) -> CallTerms {
        self.terms
    }

    /// The tools are in order.
    pub closed spec fn wf(&self) -> bool {
        self.tools.wf()
    }

    /// A session before its handshake.
    pub fn new(tools: ToolRegistry, terms: CallTerms) -> (r: Self)
        requires
            tools.wf(),
        ensures
            r.wf(),
            !r.session().initialized,
            r.tools() == tools.view(),
            r.terms() == terms,
    {
        McpServer { lifecycle: Lifecycle::new(), tools, terms }
    }

    /// The name of the client, where it gave one.
    pub fn client_name(&self) -> (r: Option<String>)
        ensures
            crate::text::opt_view(r) == self.session().client_name,
    {
        self.lifecycle.client_name()
    }

    /// Handles one text from the client.
    pub fn handle_message(&mut self, frame: &str) -> (r: Handled)
        requires
            old(self).wf(),
        ensures
            final(self).wf(),
            final(self).tools() == old(self).tools(),
            final(self).terms() == old(self).terms(),
            final(self).session() == session_after(old(self).session(), frame@),
            is_handled(
                r,
                handling(
                    old(self).tools(),
                    old(self).terms(),
                    old(self).session().initialized,
                    frame@,
                ),
            ),
    {
        let msg = match Json::parse(frame) {
            Ok(m) => m,
            Err(words) => {
                return Handled::Reply(frame_error(&concat2("parse error: ", &words)));
            },
        };
        let id = match msg.get("id") {
            Some(v) => Some(v.copy()),
            None => None,
        };
        let method = match msg.text_at("method") {
            Some(m) => m,
            None => "".to_string(),
        };
        let params = msg.member("params");
        let ready = self.lifecycle.is_initialized();
        if same(&method, "initialize") {
            self.lifecycle.mark_initialized(&params);
            return send_result(id, initialize_reply(&params));
        }
        if same(&method, "notifications/initialized") {
            return Handled::Silent;
        }
        if same(&method, "ping") {
            if !ready {
                return send_not_initialized(id);
            }
            return send_result(id, Json::object());
        }
        if same(&method, "tools/list") {
            if !ready {
                return send_not_initialized(id);
            }
            return send_result(id, tools_list_reply(&self.tools));
        }
        if same(&method, "tools/call") {
            if !ready {
                return send_not_initialized(id);
            }
            return start_call(&self.tools, self.terms, id, &params);
        }
        if same(&method, "shutdown") {
            return send_result(id, Json::object());
        }
        if same(&method, "exit") {
            return Handled::Ended;
        }
        if method.as_str().is_empty() {
            let to = match id {
                Some(v) => v,
                None => Json::Null,
            };
            return Handled::Reply(
                error_text(
                    to,
                    INVALID_REQUEST,
                    "invalid request: missing 'method'",
                    Json::object(),
                ),
            );
        }
        send_error(id, METHOD_NOT_FOUND, &concat2("method not found: ", &method), Json::object())
    }
}

/// Is it a method that needs the handshake?
pub open spec fn needs_handshake(method: Seq<char>) -> bool {
    method == "ping"@ || method == "tools/list"@ || method == "tools/call"@
}

proof fn lemma_methods_differ()
    ensures
        !needs_handshake("initialize"@),
        !needs_handshake("notifications/initialized"@),
        !needs_handshake("shutdown"@),
        !needs_handshake("exit"@),
        !needs_handshake(""@),
        ""@.len() == 0,
        "tools/list"@ != "ping"@,
        "tools/call"@ != "ping"@,
        "tools/call"@ != "tools/list"@,
{
    reveal_strlit("initialize");
    reveal_strlit("notifications/initialized");
    reveal_strlit("ping");
    reveal_strlit("tools/list");
    reveal_strlit("tools/call");
    reveal_strlit("shutdown");
    reveal_strlit("exit");
    reveal_strlit("");
    assert(""@.len() == 0 && "ping"@.len() == 4 && "tools/list"@.len() == 10 && "tools/call"@.len()
        == 10);
    assert("initialize"@[0] != "tools/list"@[0]);
    assert("initialize"@[0] != "tools/call"@[0]);
    assert("exit"@[0] != "ping"@[0]);
    assert("tools/list"@[6] != "tools/call"@[6]);
}

/// Before the handshake a request that needs it is refused, whatever it asks.
pub proof fn law_handshake_comes_first(
    tools: RegistryView,
    terms: CallTerms,
    msg: JsonView,
    id: JsonView,
)
    requires
        needs_handshake(method_of(msg)),
        msg.get("id"@) == Some(id),
    ensures
        dispatch(tools, terms, false, msg) == HandledView::Reply(
            error_reply(id, -32002, "server not initialized"@, JsonView::object()),
        ),
{
    lemma_methods_differ();
}

/// Only `initialize` opens a session, and an open session stays open.
pub proof fn law_session_opens_once(l: LifecycleView, frame: Seq<char>)
    ensures
        l.initialized ==> session_after(l, frame).initialized,
        session_after(l, frame) != l ==> json_parse(frame) is Ok && method_of(
            json_parse(frame)->Ok_0,
        ) == "initialize"@,
{
}

/// A notification is never answered: not by its handling, and not when its
/// call is over.
pub proof fn law_notifications_get_no_reply(
    tools: RegistryView,
    terms: CallTerms,
    initialized: bool,
    msg: JsonView,
    outcome: Option<Result<JsonView, ErrorView>>,
    max_payload_bytes: usize,
)
    requires
        msg.get("id"@) is None,
        method_of(msg).len() > 0,
    ensures
        !(dispatch(tools, terms, initialized, msg) is Reply),
        dispatch(tools, terms, initialized, msg) matches HandledView::Call(c) ==> (
        completion(c, outcome, max_payload_bytes) is Silent),
{
}

proof fn lemma_members_differ()
    ensures
        "id"@ != "result"@,
        "id"@ != "error"@,
        "id"@ != "jsonrpc"@,
{
    reveal_strlit("id");
    reveal_strlit("result");
    reveal_strlit("error");
    reveal_strlit("jsonrpc");
    assert("id"@.len() == 2);
    assert("result"@.len() == 6);
    assert("error"@.len() == 5);
    assert("jsonrpc"@.len() == 7);
}

/// A request is answered under its own id: at once, or when its call is over.
/// Only `exit` and the end of the handshake go without an answer.
pub proof fn law_requests_are_answered(
    tools: RegistryView,
    terms: CallTerms,
    initialized: bool,
    msg: JsonView,
    id: JsonView,
    outcome: Option<Result<JsonView, ErrorView>>,
    max_payload_bytes: usize,
)
    requires
        msg.get("id"@) == Some(id),
        method_of(msg) != "exit"@,
        method_of(msg) != "notifications/initialized"@,
    ensures
        match dispatch(tools, terms, initialized, msg) {
            HandledView::Reply(r) => r.get("id"@) == Some(id),
            HandledView::Call(c) => completion(c, outcome, max_payload_bytes) matches HandledView::Reply(
                r,
            ) && r.get("id"@) == Some(id),
            _ => false,
        },
{
    lemma_members_differ();
    lemma_methods_differ();
}

/// A tool is run only in an open session, only where the listing shows it and
/// the permission mode grants what it declares, and only with an object as
/// arguments.
pub proof fn law_only_listed_tools_run(
    tools: RegistryView,
    terms: CallTerms,
    initialized: bool,
    msg: JsonView,
)
    requires
        in_name_order(tools.tools),
        dispatch(tools, terms, initialized, msg) is Call,
    ensures
        initialized,
        ({
            let c = dispatch(tools, terms, initialized, msg)->Call_0;
            &&& c.args is Object
            &&& has_tool(offered_tools(tools), c.name)
            &&& grants(terms.mode, tool_of(tools.tools, c.name).capability)
        }),
{
    let c = dispatch(tools, terms, initialized, msg)->Call_0;
    law_listed_is_callable(tools, c.name, terms);
}

/// The server speaks a version that it knows, and the one that the client asks
/// for where it knows it.
pub proof fn law_version_is_known(asked: Option<Seq<char>>)
    ensures
        spoken_version(asked) == "2025-06-18"@ || spoken_version(asked) == "2025-03-26"@
            || spoken_version(asked) == "2024-11-05"@,
        asked == Some("2025-06-18"@) ==> spoken_version(asked) == "2025-06-18"@,
        asked == Some("2025-03-26"@) ==> spoken_version(asked) == "2025-03-26"@,
        asked == Some("2024-11-05"@) ==> spoken_version(asked) == "2024-11-05"@,
{
}

/// Is the reply one with this error: its code and its words?
pub open spec fn refuses(h: HandledView, id: JsonView, code: int, message: Seq<char>) -> bool {
    &&& h matches HandledView::Reply(r)
    &&& r.text_at("jsonrpc"@) == Some("2.0"@)
    &&& r.get("id"@) == Some(id)
    &&& r.get("result"@) is None
    &&& r.get("error"@) matches Some(e)
    &&& e.get("code"@) == Some(JsonView::Int(code))
    &&& e.text_at("message"@) == Some(message)
}

/// Is the reply one with this result?
pub open spec fn gives(h: HandledView, id: JsonView, result: JsonView) -> bool {
    &&& h matches HandledView::Reply(r)
    &&& r.text_at("jsonrpc"@) == Some("2.0"@)
    &&& r.get("id"@) == Some(id)
    &&& r.get("error"@) is None
    &&& r.get("result"@) == Some(result)
}

/// Each method does what it is for: in an open session `ping` is answered with
/// nothing, `shutdown` always, and `exit` ends the session. A method that there is none
/// of, a message without a method and a text that is no message are refused, each with
/// its own code.
pub proof fn law_methods_are_told_apart(
    tools: RegistryView,
    terms: CallTerms,
    initialized: bool,
    msg: JsonView,
    id: JsonView,
    frame: Seq<char>,
)
    requires
        msg.get("id"@) == Some(id),
    ensures
        method_of(msg) == "ping"@ && initialized ==> gives(
            dispatch(tools, terms, initialized, msg),
            id,
            JsonView::object(),
        ),
        method_of(msg) == "shutdown"@ ==> gives(
            dispatch(tools, terms, initialized, msg),
            id,
            JsonView::object(),
        ),
        method_of(msg) == "exit"@ <==> dispatch(tools, terms, initialized, msg) is Ended,
        method_of(msg) == "notifications/initialized"@ <==> dispatch(
            tools,
            terms,
            initialized,
            msg,
        ) is Silent,
        (method_of(msg) == "ping"@ || method_of(msg) == "tools/list"@ || method_of(msg)
            == "tools/call"@) && !initialized ==> refuses(
            dispatch(tools, terms, initialized, msg),
            id,
            -32002,
            "server not initialized"@,
        ),
        method_of(msg).len() == 0 ==> refuses(
            dispatch(tools, terms, initialized, msg),
            id,
            -32600,
            "invalid request: missing 'method'"@,
        ),
        method_of(msg).len() > 0 && method_of(msg) != "initialize"@ && method_of(msg)
            != "notifications/initialized"@ && method_of(msg) != "ping"@ && method_of(msg)
            != "tools/list"@ && method_of(msg) != "tools/call"@ && method_of(msg) != "shutdown"@
            && method_of(msg) != "exit"@ ==> refuses(
            dispatch(tools, terms, initialized, msg),
            id,
            -32601,
            "method not found: "@ + method_of(msg),
        ),
        json_parse(frame) is Err ==> refuses(
            handling(tools, terms, initialized, frame),
            JsonView::Null,
            -32700,
            "parse error: "@ + json_parse(frame)->Err_0,
        ),
        json_parse(frame) is Ok ==> handling(tools, terms, initialized, frame) == dispatch(
            tools,
            terms,
            initialized,
            json_parse(frame)->Ok_0,
        ),
{
    reveal_strlit("initialize");
    assert("initialize"@.len() == 10);
    reveal_strlit("notifications/initialized");
    assert("notifications/initialized"@.len() == 25);
    reveal_strlit("ping");
    assert("ping"@.len() == 4);
    reveal_strlit("tools/list");
    assert("tools/list"@.len() == 10);
    reveal_strlit("tools/call");
    assert("tools/call"@.len() == 10);
    reveal_strlit("shutdown");
    assert("shutdown"@.len() == 8);
    reveal_strlit("exit");
    assert("exit"@.len() == 4);
    reveal_strlit("");
    assert(""@.len() == 0);
    assert("initialize"@[0] != "tools/list"@[0]);
    assert("initialize"@[0] != "tools/call"@[0]);
    assert("ping"@[0] != "exit"@[0]);
    assert("tools/list"@[6] != "tools/call"@[6]);
    reveal_strlit("jsonrpc");
    assert("jsonrpc"@.len() == 7);
    reveal_strlit("id");
    assert("id"@.len() == 2);
    reveal_strlit("result");
    assert("result"@.len() == 6);
    reveal_strlit("error");
    assert("error"@.len() == 5);
    reveal_strlit("code");
    assert("code"@.len() == 4);
    reveal_strlit("message");
    assert("message"@.len() == 7);
    reveal_strlit("data");
    assert("data"@.len() == 4);
    assert("jsonrpc"@[0] != "message"@[0]);
    assert("code"@[0] != "data"@[0]);
}

/// `initialize` is answered with the version that is spoken, with the server's name,
/// and says that tools are offered and that their list does not change.
pub proof fn law_initialize_introduces_the_server(
    tools: RegistryView,
    terms: CallTerms,
    initialized: bool,
    msg: JsonView,
    id: JsonView,
)
    requires
        msg.get("id"@) == Some(id),
        method_of(msg) == "initialize"@,
    ensures
        ({
            let h = dispatch(tools, terms, initialized, msg);
            let asked = msg.member("params"@).text_at("protocolVersion"@);
            let r = h->Reply_0.member("result"@);
            &&& gives(h, id, r)
            &&& asked == Some("2025-06-18"@) || asked == Some("2025-03-26"@) ==> r.text_at(
                "protocolVersion"@,
            ) == asked
            &&& asked != Some("2025-06-18"@) && asked != Some("2025-03-26"@) ==> r.text_at(
                "protocolVersion"@,
            ) == Some("2024-11-05"@)
            &&& r.member("capabilities"@).member("tools"@).bool_at("listChanged"@) == Some(false)
            &&& r.member("serverInfo"@).text_at("name"@) == Some("winkit"@)
            &&& r.member("serverInfo"@).text_at("version"@) == Some(SERVER_VERSION@)
        }),
{
    reveal_strlit("initialize");
    assert("initialize"@.len() == 10);
    reveal_strlit("notifications/initialized");
    assert("notifications/initialized"@.len() == 25);
    reveal_strlit("ping");
    assert("ping"@.len() == 4);
    reveal_strlit("tools/list");
    assert("tools/list"@.len() == 10);
    reveal_strlit("tools/call");
    assert("tools/call"@.len() == 10);
    reveal_strlit("shutdown");
    assert("shutdown"@.len() == 8);
    reveal_strlit("exit");
    assert("exit"@.len() == 4);
    reveal_strlit("");
    assert(""@.len() == 0);
    assert("initialize"@[0] != "tools/list"@[0]);
    assert("initialize"@[0] != "tools/call"@[0]);
    assert("ping"@[0] != "exit"@[0]);
    assert("tools/list"@[6] != "tools/call"@[6]);
    reveal_strlit("jsonrpc");
    assert("jsonrpc"@.len() == 7);
    reveal_strlit("id");
    assert("id"@.len() == 2);
    reveal_strlit("result");
    assert("result"@.len() == 6);
    reveal_strlit("error");
    assert("error"@.len() == 5);
    reveal_strlit("protocolVersion");
    assert("protocolVersion"@.len() == 15);
    reveal_strlit("capabilities");
    assert("capabilities"@.len() == 12);
    reveal_strlit("serverInfo");
    assert("serverInfo"@.len() == 10);
    reveal_strlit("tools");
    assert("tools"@.len() == 5);
    reveal_strlit("listChanged");
    assert("listChanged"@.len() == 11);
    reveal_strlit("name");
    assert("name"@.len() == 4);
    reveal_strlit("version");
    assert("version"@.len() == 7);
    assert("jsonrpc"@[0] != "version"@[0]);
    assert("error"@[0] != "tools"@[0]);
    reveal_strlit("2025-06-18");
    assert("2025-06-18"@.len() == 10);
    reveal_strlit("2025-03-26");
    assert("2025-03-26"@.len() == 10);
    reveal_strlit("2024-11-05");
    assert("2024-11-05"@.len() == 10);
    assert("2025-06-18"@[6] != "2025-03-26"@[6]);
    assert("2025-06-18"@[3] != "2024-11-05"@[3]);
    assert("2025-03-26"@[3] != "2024-11-05"@[3]);
}

/// `tools/list` gives one row for each tool that is offered, in their order, with its
/// name, its description and its schema.
pub proof fn law_offered_tools_are_listed(
    tools: RegistryView,
    terms: CallTerms,
    msg: JsonView,
    id: JsonView,
    i: int,
)
    requires
        msg.get("id"@) == Some(id),
        method_of(msg) == "tools/list"@,
        0 <= i < offered_tools(tools).len(),
    ensures
        ({
            let h = dispatch(tools, terms, true, msg);
            let r = h->Reply_0.member("result"@);
            let rows = r.array_at("tools"@);
            &&& gives(h, id, r)
            &&& rows is Some
            &&& rows->0.len() == offered_tools(tools).len()
            &&& rows->0[i].text_at("name"@) == Some(offered_tools(tools)[i].name)
            &&& rows->0[i].text_at("description"@) == Some(offered_tools(tools)[i].description)
            &&& rows->0[i].get("inputSchema"@) == Some(offered_tools(tools)[i].input_schema)
        }),
{
    reveal_strlit("initialize");
    assert("initialize"@.len() == 10);
    reveal_strlit("notifications/initialized");
    assert("notifications/initialized"@.len() == 25);
    reveal_strlit("ping");
    assert("ping"@.len() == 4);
    reveal_strlit("tools/list");
    assert("tools/list"@.len() == 10);
    reveal_strlit("tools/call");
    assert("tools/call"@.len() == 10);
    reveal_strlit("shutdown");
    assert("shutdown"@.len() == 8);
    reveal_strlit("exit");
    assert("exit"@.len() == 4);
    reveal_strlit("");
    assert(""@.len() == 0);
    assert("initialize"@[0] != "tools/list"@[0]);
    assert("initialize"@[0] != "tools/call"@[0]);
    assert("ping"@[0] != "exit"@[0]);
    assert("tools/list"@[6] != "tools/call"@[6]);
    reveal_strlit("jsonrpc");
    assert("jsonrpc"@.len() == 7);
    reveal_strlit("id");
    assert("id"@.len() == 2);
    reveal_strlit("result");
    assert("result"@.len() == 6);
    reveal_strlit("error");
    assert("error"@.len() == 5);
    reveal_strlit("tools");
    assert("tools"@.len() == 5);
    reveal_strlit("name");
    assert("name"@.len() == 4);
    reveal_strlit("description");
    assert("description"@.len() == 11);
    reveal_strlit("inputSchema");
    assert("inputSchema"@.len() == 11);
    assert("error"@[0] != "tools"@[0]);
    assert("description"@[0] != "inputSchema"@[0]);
}

/// A call is of the tool that was named, with the arguments that were given, or none,
/// and under the id of its request. A call without a name and one whose arguments are
/// no object are refused as wrong.
pub proof fn law_calls_are_of_what_was_named(
    tools: RegistryView,
    terms: CallTerms,
    msg: JsonView,
    id: JsonView,
)
    requires
        msg.get("id"@) == Some(id),
        method_of(msg) == "tools/call"@,
    ensures
        ({
            let h = dispatch(tools, terms, true, msg);
            let p = msg.member("params"@);
            &&& h matches HandledView::Call(c) ==> {
                &&& p.text_at("name"@) == Some(c.name)
                &&& p.get("arguments"@) is Some ==> c.args == p.get("arguments"@)->0
                &&& p.get("arguments"@) is None ==> c.args == JsonView::object()
                &&& c.id == Some(id)
            }
            &&& p.text_at("name"@) is None ==> refuses(
                h,
                id,
                -32602,
                "tools/call requires a 'name' string"@,
            )
            &&& p.text_at("name"@) is Some && p.get("arguments"@) is Some && !(p.get(
                "arguments"@,
            )->0 is Object) ==> refuses(h, id, -32602, "tools/call 'arguments' must be an object"@)
        }),
{
    reveal_strlit("jsonrpc");
    assert("jsonrpc"@.len() == 7);
    reveal_strlit("id");
    assert("id"@.len() == 2);
    reveal_strlit("result");
    assert("result"@.len() == 6);
    reveal_strlit("error");
    assert("error"@.len() == 5);
    reveal_strlit("code");
    assert("code"@.len() == 4);
    reveal_strlit("message");
    assert("message"@.len() == 7);
    reveal_strlit("data");
    assert("data"@.len() == 4);
    assert("jsonrpc"@[0] != "message"@[0]);
    assert("code"@[0] != "data"@[0]);
    lemma_methods_differ();
}

/// When a call is over, its result goes back as the text of the value, in one piece
/// that is marked as no error; a failure goes back with its words and its stable name.
pub proof fn law_results_go_back_as_text(
    call: PendingCall,
    outcome: Option<Result<Json, WinkitError>>,
    max_payload_bytes: usize,
    id: Json,
    r: Handled,
)
    requires
        call.id == Some(id),
        call_ensures(complete_call, (call, outcome, max_payload_bytes), r),
    ensures
        exists|v: JsonView|
            {
                &&& r matches Handled::Reply(text) && text@ == #[trigger] json_text(v)
                &&& v.get("id"@) == Some(id@)
                &&& match outcome {
                    Some(Ok(value)) => utf8_len(json_text(value@)) <= max_payload_bytes ==> {
                        let result = v.member("result"@);
                        &&& v.get("error"@) is None
                        &&& result.bool_at("isError"@) == Some(false)
                        &&& result.array_at("content"@) is Some
                        &&& result.array_at("content"@)->0.len() == 1
                        &&& result.array_at("content"@)->0[0].text_at("type"@) == Some("text"@)
                        &&& result.array_at("content"@)->0[0].text_at("text"@) == Some(
                            json_text(value@),
                        )
                    },
                    Some(Err(e)) => {
                        let error = v.member("error"@);
                        &&& v.get("result"@) is None
                        &&& error.text_at("message"@) == Some(e.message@)
                        &&& error.member("data"@).text_at("winkit_code"@) == Some(
                            e.kind.code_view(),
                        )
                    },
                    None => {
                        let error = v.member("error"@);
                        &&& v.get("result"@) is None
                        &&& error.member("data"@).text_at("winkit_code"@) == Some(
                            ErrorKind::Timeout.code_view(),
                        )
                    },
                }
            },
{
    reveal_strlit("jsonrpc");
    assert("jsonrpc"@.len() == 7);
    reveal_strlit("id");
    assert("id"@.len() == 2);
    reveal_strlit("result");
    assert("result"@.len() == 6);
    reveal_strlit("error");
    assert("error"@.len() == 5);
    reveal_strlit("code");
    assert("code"@.len() == 4);
    reveal_strlit("message");
    assert("message"@.len() == 7);
    reveal_strlit("data");
    assert("data"@.len() == 4);
    reveal_strlit("content");
    assert("content"@.len() == 7);
    reveal_strlit("isError");
    assert("isError"@.len() == 7);
    reveal_strlit("type");
    assert("type"@.len() == 4);
    reveal_strlit("text");
    assert("text"@.len() == 4);
    reveal_strlit("winkit_code");
    assert("winkit_code"@.len() == 11);
    assert("jsonrpc"@[0] != "message"@[0]);
    assert("jsonrpc"@[0] != "content"@[0]);
    assert("jsonrpc"@[0] != "isError"@[0]);
    assert("code"@[0] != "data"@[0]);
    assert("code"@[0] != "type"@[0]);
    assert("code"@[0] != "text"@[0]);
    assert("message"@[0] != "content"@[0]);
    assert("message"@[0] != "isError"@[0]);
    assert("data"@[0] != "type"@[0]);
    assert("data"@[0] != "text"@[0]);
    assert("content"@[0] != "isError"@[0]);
    assert("type"@[1] != "text"@[1]);
    let h = completion(call@, outcome_view(outcome), max_payload_bytes);
    assert(h is Reply);
    let v = h->Reply_0;
    assert(r matches Handled::Reply(text) && text@ == json_text(v));
}

} // verus!
