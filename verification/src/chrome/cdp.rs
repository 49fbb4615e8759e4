//! The frames of the browser's debugging protocol.

use crate::chrome::launch::{ws_is_loopback, ws_loopback};
use crate::errors::{err_view, ErrorKind, ErrorView, WinkitError};
use crate::json::{json_parse, json_text, Json, JsonView};
use crate::text::{concat3, opt_view, same};
use vstd::prelude::*;
use vstd::string::*;

verus! {

/// How long one call may take, in milliseconds.
pub const CDP_CALL_TIMEOUT_MS: u64 = 10000;

/// An event of the browser, tagged with the session that it belongs to.
pub struct CdpEvent {
    pub session_id: Option<String>,
    pub method: String,
    pub params: Json,
}

/// An event taken by its views.
pub struct CdpEventView {
    pub session_id: Option<Seq<char>>,
    pub method: Seq<char>,
    pub params: JsonView,
}

impl View for CdpEvent {
    type V = CdpEventView;

    open spec fn view(&self) -> CdpEventView {
        CdpEventView {
            session_id: opt_view(self.session_id),
            method: self.method@,
            params: self.params@,
        }
    }
}

/// What an incoming frame is.
pub enum CdpFrame {
    /// The answer to the call with this number.
    Reply { id: u64, value: Json },
    Event { event: CdpEvent },
    /// Nothing that anyone waits for.
    Ignored,
}

/// A frame taken by its views.
pub enum CdpFrameView {
    Reply { id: u64, value: JsonView },
    Event { event: CdpEventView },
    Ignored,
}

impl View for CdpFrame {
    type V = CdpFrameView;

    open spec fn view(&self) -> CdpFrameView {
        match self {
            CdpFrame::Reply { id, value } => CdpFrameView::Reply { id: *id, value: value@ },
            CdpFrame::Event { event } => CdpFrameView::Event { event: event@ },
            CdpFrame::Ignored => CdpFrameView::Ignored,
        }
    }
}

/// What a value that came in as a frame is: an answer where it has a number,
/// else an event where it has a method.
pub open spec fn frame_of(value: JsonView) -> CdpFrameView {
    match value.uint_at("id"@) {
        Some(id) => CdpFrameView::Reply { id, value },
        None => match value.text_at("method"@) {
            Some(method) => CdpFrameView::Event {
                event: CdpEventView {
                    session_id: value.text_at("sessionId"@),
                    method,
                    params: value.member("params"@),
                },
            },
            None => CdpFrameView::Ignored,
        },
    }
}

/// What a value that came in as a frame is.
pub fn sort_frame(value: Json) -> (r: CdpFrame)
    ensures
        r@ == frame_of(value@),
{
    match value.uint_at("id") {
        Some(id) => CdpFrame::Reply { id, value },
        None => match value.text_at("method") {
            Some(method) => CdpFrame::Event {
                event: CdpEvent {
                    session_id: value.text_at("sessionId"),
                    method,
                    params: value.member("params"),
                },
            },
            None => CdpFrame::Ignored,
        },
    }
}

/// What an incoming text frame is. What is no JSON is ignored.
pub fn read_frame(text: &str) -> (r: CdpFrame)
    ensures
        r@ == (match json_parse(text@) {
            Ok(v) => frame_of(v),
            Err(_) => CdpFrameView::Ignored,
        }),
{
    match Json::parse(text) {
        Ok(v) => sort_frame(v),
        Err(_) => CdpFrame::Ignored,
    }
}

/// The event that a ping of the connection is reported as.
pub fn ping_event() -> (r: CdpEvent)
    ensures
        r@ == (CdpEventView { session_id: None, method: "ws.ping"@, params: JsonView::Null }),
{
    CdpEvent { session_id: None, method: "ws.ping".to_owned(), params: Json::Null }
}

/// The message of a call: its number and method, the session that it is meant
/// for, and its parameters where there are any.
pub open spec fn call_message(
    id: u64,
    method: Seq<char>,
    params: JsonView,
    session_id: Option<Seq<char>>,
) -> JsonView {
    let head = JsonView::object().with("id"@, JsonView::Int(id as int)).with(
        "method"@,
        JsonView::Text(method),
    );
    let addressed = match session_id {
        Some(sid) => head.with("sessionId"@, JsonView::Text(sid)),
        None => head,
    };
    if params is Null {
        addressed
    } else {
        addressed.with("params"@, params)
    }
}

/// The text of a call.
pub fn write_call(id: u64, method: &str, params: Json, session_id: &Option<String>) -> (r: String)
    ensures
        r@ == json_text(call_message(id, method@, params@, opt_view(*session_id))),
{
    let head = Json::object().with("id", Json::UInt(id)).with("method", Json::text(method));
    let addressed = match session_id {
        Some(sid) => head.with("sessionId", Json::text(sid)),
        None => head,
    };
    let message = if params.is_null() {
        addressed
    } else {
        addressed.with("params", params)
    };
    message.render()
}

/// What an answer says: its result, or the error that it reports.
pub open spec fn reply_outcome(method: Seq<char>, reply: JsonView) -> Result<JsonView, ErrorView> {
    match reply.get("error"@) {
        Some(e) => Err(
            err_view(
                ErrorKind::ProtocolError,
                "CDP error for '"@ + method + "': "@ + json_text(e),
            ),
        ),
        None => Ok(reply.member("result"@)),
    }
}

/// An outcome taken by its views.
pub open spec fn json_outcome(r: Result<Json, WinkitError>) -> Result<JsonView, ErrorView> {
    match r {
        Ok(v) => Ok(v@),
        Err(e) => Err(e@),
    }
}

/// What an answer says: its result, or the error that it reports.
pub fn read_reply(method: &str, reply: &Json) -> (r: Result<Json, WinkitError>)
    ensures
        json_outcome(r) == reply_outcome(method@, reply@),
{
    match reply.get("error") {
        Some(e) => {
            let mut m = concat3("CDP error for '", method, "': ");
            m.append(&e.render());
            Err(WinkitError::protocol(&m))
        },
        None => Ok(reply.member("result")),
    }
}

/// The error of a call that got no answer in time.
pub fn call_timeout(method: &str) -> (r: WinkitError)
    ensures
        r@ == err_view(ErrorKind::Timeout, "CDP command '"@ + method@ + "' timed out"@),
{
    WinkitError::timeout(&concat3("CDP command '", method, "' timed out"))
}

/// May this address be dialed? Only this machine's are.
pub fn check_dial(ws_url: &str) -> (r: Result<(), WinkitError>)
    ensures
        match r {
            Ok(_) => ws_loopback(ws_url@),
            Err(e) => !ws_loopback(ws_url@) && e@ == err_view(
                ErrorKind::ProtocolError,
                "CDP client refuses non-loopback WebSocket endpoints"@,
            ),
        },
{
    if ws_is_loopback(ws_url) {
        Ok(())
    } else {
        Err(WinkitError::protocol("CDP client refuses non-loopback WebSocket endpoints"))
    }
}

/// Is the event one that a listener on `session_id` collects? Without a
/// session every event is.
pub open spec fn event_is_for(event: CdpEventView, session_id: Option<Seq<char>>) -> bool {
    match session_id {
        None => true,
        Some(s) => event.session_id == Some(s),
    }
}

/// Is the event one that a listener on `session_id` collects?
pub fn wants_event(event: &CdpEvent, session_id: &Option<String>) -> (r: bool)
    ensures
        r == event_is_for(event@, opt_view(*session_id)),
{
    match session_id {
        None => true,
        Some(s) => match &event.session_id {
            Some(own) => same(own, s),
            None => false,
        },
    }
}

/// The parameters of a call that attaches to a target.
pub fn attach_params(tab_id: &str) -> (r: Json)
    ensures
        r@ == JsonView::object().with("targetId"@, JsonView::Text(tab_id@)).with(
            "flatten"@,
            JsonView::Bool(true),
        ),
{
    Json::object().with("targetId", Json::text(tab_id)).with("flatten", Json::Bool(true))
}

/// The parameters of a call that detaches from a session.
pub fn detach_params(session_id: &str) -> (r: Json)
    ensures
        r@ == JsonView::object().with("sessionId"@, JsonView::Text(session_id@)),
{
    Json::object().with("sessionId", Json::text(session_id))
}

/// The session that an attach call opened.
pub fn attached_session(result: &Json) -> (r: Result<String, WinkitError>)
    ensures
        match r {
            Ok(s) => result@.text_at("sessionId"@) == Some(s@),
            Err(e) => result@.text_at("sessionId"@) is None && e@ == err_view(
                ErrorKind::ProtocolError,
                "attachToTarget returned no sessionId"@,
            ),
        },
{
    match result.text_at("sessionId") {
        Some(s) => Ok(s),
        None => Err(WinkitError::protocol("attachToTarget returned no sessionId")),
    }
}

/// The parameters of a call that evaluates an expression in a page.
pub fn evaluate_params(expression: &str) -> (r: Json)
    ensures
        r@ == JsonView::object().with("expression"@, JsonView::Text(expression@)).with(
            "returnByValue"@,
            JsonView::Bool(true),
        ).with("awaitPromise"@, JsonView::Bool(true)),
{
    Json::object().with("expression", Json::text(expression)).with(
        "returnByValue",
        Json::Bool(true),
    ).with("awaitPromise", Json::Bool(true))
}

/// What an evaluation gave: the value, null where there is none, or an error
/// where the page raised an exception.
pub open spec fn evaluation(result: JsonView) -> Result<JsonView, ErrorView> {
    if result.get("exceptionDetails"@) is Some {
        Err(err_view(ErrorKind::ProtocolError, "page evaluation raised an exception"@))
    } else {
        Ok(
            match result.get("result"@) {
                Some(r) => r.member("value"@),
                None => JsonView::Null,
            },
        )
    }
}

/// What an evaluation gave.
pub fn evaluated(result: &Json) -> (r: Result<Json, WinkitError>)
    ensures
        json_outcome(r) == evaluation(result@),
{
    if result.get("exceptionDetails").is_some() {
        return Err(WinkitError::protocol("page evaluation raised an exception"));
    }
    Ok(
        match result.get("result") {
            Some(inner) => inner.member("value"),
            None => Json::Null,
        },
    )
}

/// What an evaluation says of a yes-or-no question: no, unless it is true.
pub fn evaluated_bool(value: &Json) -> (r: bool)
    ensures
        r == (value@ == JsonView::Bool(true)),
{
    match value.as_bool() {
        Some(b) => b,
        None => false,
    }
}

/// A call that goes out comes back to its caller: the answer that carries the
/// call's number is sorted as the answer to that call.
pub proof fn law_reply_reaches_its_call(id: u64, answer: JsonView)
    requires
        answer is Object,
    ensures
        frame_of(answer.with("id"@, JsonView::Int(id as int))) == (CdpFrameView::Reply {
            id,
            value: answer.with("id"@, JsonView::Int(id as int)),
        }),
{
}

/// A frame with a number is the answer to that call, whatever else it holds; one with a
/// method and no number is an event, of the session that it names; any other is
/// ignored.
pub proof fn law_frames_are_sorted(value: Json, r: CdpFrame)
    requires
        call_ensures(sort_frame, (value,), r),
    ensures
        r is Reply <==> value@.uint_at("id"@) is Some,
        r is Event <==> value@.uint_at("id"@) is None && value@.text_at("method"@) is Some,
        r matches CdpFrame::Reply { id, value: v } ==> Some(id) == value@.uint_at("id"@) && v@
            == value@,
        r matches CdpFrame::Event { event } ==> {
            &&& Some(event.method@) == value@.text_at("method"@)
            &&& opt_view(event.session_id) == value@.text_at("sessionId"@)
            &&& event.params@ == value@.member("params"@)
        },
{
}

/// A call is written with its number, its method, the session that it is for and its
/// parameters; what there is none of is left out.
pub proof fn law_calls_are_written(
    id: u64,
    method: &str,
    params: Json,
    session_id: Option<String>,
    r: String,
)
    requires
        call_ensures(write_call, (id, method, params, &session_id), r),
    ensures
        exists|v: JsonView|
            {
                &&& r@ == #[trigger] json_text(v)
                &&& v.uint_at("id"@) == Some(id)
                &&& v.text_at("method"@) == Some(method@)
                &&& v.text_at("sessionId"@) == opt_view(session_id)
                &&& v.get("params"@) == if params@ is Null {
                    None
                } else {
                    Some(params@)
                }
            },
{
    reveal_strlit("id");
    assert("id"@.len() == 2);
    reveal_strlit("method");
    assert("method"@.len() == 6);
    reveal_strlit("sessionId");
    assert("sessionId"@.len() == 9);
    reveal_strlit("params");
    assert("params"@.len() == 6);
    assert("method"@[0] != "params"@[0]);
    let v = call_message(id, method@, params@, opt_view(session_id));
    assert(r@ == json_text(v));
}

/// An answer that reports an error is an error that names the method; any other gives
/// its result.
pub proof fn law_answers_are_read(method: &str, reply: Json, r: Result<Json, WinkitError>)
    requires
        call_ensures(read_reply, (method, &reply), r),
    ensures
        r is Err <==> reply@.get("error"@) is Some,
        r is Ok ==> r->Ok_0@ == reply@.member("result"@),
        r is Err ==> r->Err_0.kind == ErrorKind::ProtocolError && r->Err_0.message@
            == "CDP error for '"@ + method@ + "': "@ + json_text(reply@.get("error"@)->0),
{
}

/// A listener on a session collects that session's events and no others; one without a
/// session collects all.
pub proof fn law_listeners_hear_their_session(
    event: CdpEvent,
    session_id: Option<String>,
    r: bool,
)
    requires
        call_ensures(wants_event, (&event, &session_id), r),
    ensures
        session_id is None ==> r,
        session_id matches Some(s) ==> (r <==> event.session_id is Some && event.session_id->0@
            == s@),
{
}

/// An evaluation that raised is an error; any other gives the value of its result. A
/// question is answered with yes only by a true value.
pub proof fn law_evaluations_are_read(
    result: Json,
    r: Result<Json, WinkitError>,
    value: Json,
    b: bool,
)
    requires
        call_ensures(evaluated, (&result,), r),
        call_ensures(evaluated_bool, (&value,), b),
    ensures
        r is Err <==> result@.get("exceptionDetails"@) is Some,
        r is Err ==> r->Err_0.kind == ErrorKind::ProtocolError,
        r is Ok && result@.get("result"@) is Some ==> r->Ok_0@ == result@.get("result"@)->0.member(
            "value"@,
        ),
        r is Ok && result@.get("result"@) is None ==> r->Ok_0@ == JsonView::Null,
        b <==> value@ == JsonView::Bool(true),
{
}

} // verus!
