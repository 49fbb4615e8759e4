//! What is read from a page, and what is made of it.

use crate::chrome::cdp::{CdpEvent, CdpEventView};
use crate::chrome::launch::{clean_url, law_shown_urls_are_bare, sanitize_url};
use crate::json::{json_views, members_distinct, members_view, put_member, Json, JsonView};
use crate::models::TargetInfo;
use crate::text::{
    chars_of, clipped, concat3, first_of, lemma_first_of, opt_view, position_of, same, text_of,
    truncate, views,
};
use vstd::prelude::*;
use vstd::string::*;

verus! {

/// The text of a member, or a default.
pub open spec fn text_or(v: JsonView, key: Seq<char>, default: Seq<char>) -> Seq<char> {
    match v.text_at(key) {
        Some(s) => s,
        None => default,
    }
}

/// The text of a member, or a default.
pub fn member_text(v: &Json, key: &str, default: &str) -> (r: String)
    ensures
        r@ == text_or(v@, key@, default@),
{
    match v.text_at(key) {
        Some(s) => s,
        None => default.to_owned(),
    }
}

/// The non-negative integer of a member, or zero.
pub open spec fn uint_or_zero(v: JsonView, key: Seq<char>) -> u64 {
    match v.uint_at(key) {
        Some(n) => n,
        None => 0,
    }
}

/// The non-negative integer of a member, or zero.
pub fn member_uint(v: &Json, key: &str) -> (r: u64)
    ensures
        r == uint_or_zero(v@, key@),
{
    match v.uint_at(key) {
        Some(n) => n,
        None => 0,
    }
}

/// The number of a member, or null where it is none.
pub open spec fn number_or_null(v: JsonView, key: Seq<char>) -> JsonView {
    match v.get(key) {
        Some(JsonView::Int(n)) => JsonView::Int(n),
        Some(JsonView::Decimal(d)) => JsonView::Decimal(d),
        _ => JsonView::Null,
    }
}

/// The number of a member, or null where it is none.
pub fn member_number(v: &Json, key: &str) -> (r: Json)
    ensures
        r@ == number_or_null(v@, key@),
{
    match v.get(key) {
        Some(Json::UInt(n)) => Json::UInt(*n),
        Some(Json::NegInt(n)) => Json::NegInt(*n),
        Some(Json::Decimal(d)) => Json::Decimal(d.copy()),
        _ => Json::Null,
    }
}

/// The names under which the two listings of targets give a target's id.
pub open spec fn describes_target(t: TargetInfo, v: JsonView, id_key: Seq<char>) -> bool {
    &&& t.id@ == text_or(v, id_key, ""@)
    &&& t.title@ == text_or(v, "title"@, ""@)
    &&& t.url@ == text_or(v, "url"@, ""@)
    &&& t.kind@ == text_or(v, "type"@, ""@)
}

/// Is `t` the target that the protocol's own listing describes?
pub open spec fn is_listed_target(t: TargetInfo, v: JsonView) -> bool {
    &&& describes_target(t, v, "targetId"@)
    &&& t.attachable == (v.bool_at("attachable"@) == Some(true))
    &&& opt_view(t.browser_context_id) == v.text_at("browserContextId"@)
}

/// Is `t` the target that the endpoint's listing describes?
pub open spec fn is_endpoint_target(t: TargetInfo, v: JsonView) -> bool {
    &&& describes_target(t, v, "id"@)
    &&& t.attachable == (match v.text_at("webSocketDebuggerUrl"@) {
        Some(s) => s.len() > 0,
        None => false,
    })
    &&& t.browser_context_id is None
}

/// The items of an optional array; none where there is no array.
pub open spec fn items_or_none(a: Option<Seq<JsonView>>) -> Seq<JsonView> {
    match a {
        Some(s) => s,
        None => Seq::empty(),
    }
}

/// The targets of a `Target.getTargets` answer.
pub fn targets_from(result: &Json) -> (r: Vec<TargetInfo>)
    ensures
        r@.len() == items_or_none(result@.array_at("targetInfos"@)).len(),
        forall|i: int|
            0 <= i < r@.len() ==> is_listed_target(
                #[trigger] r@[i],
                items_or_none(result@.array_at("targetInfos"@))[i],
            ),
{
    let mut out: Vec<TargetInfo> = Vec::new();
    match result.array_at("targetInfos") {
        Some(items) => {
            let mut i: usize = 0;
            while i < items.len()
                invariant
                    i <= items@.len(),
                    out@.len() == i,
                    forall|k: int|
                        0 <= k < i ==> is_listed_target(
                            #[trigger] out@[k],
                            json_views(items@)[k],
                        ),
                decreases items@.len() - i,
            {
                let t = &items[i];
                out.push(
                    TargetInfo {
                        id: member_text(t, "targetId", ""),
                        title: member_text(t, "title", ""),
                        url: member_text(t, "url", ""),
                        kind: member_text(t, "type", ""),
                        attachable: match t.bool_at("attachable") {
                            Some(b) => b,
                            None => false,
                        },
                        browser_context_id: t.text_at("browserContextId"),
                    },
                );
                i = i + 1;
            }
        },
        None => {},
    }
    out
}

/// The targets of the endpoint's listing, an array of objects; none where it
/// is no array.
pub fn endpoint_targets(list: &Json) -> (r: Vec<TargetInfo>)
    ensures
        r@.len() == items_or_none(list@.as_array()).len(),
        forall|i: int|
            0 <= i < r@.len() ==> is_endpoint_target(
                #[trigger] r@[i],
                items_or_none(list@.as_array())[i],
            ),
{
    let mut out: Vec<TargetInfo> = Vec::new();
    match list.as_array() {
        Some(items) => {
            let mut i: usize = 0;
            while i < items.len()
                invariant
                    i <= items@.len(),
                    out@.len() == i,
                    forall|k: int|
                        0 <= k < i ==> is_endpoint_target(
                            #[trigger] out@[k],
                            json_views(items@)[k],
                        ),
                decreases items@.len() - i,
            {
                let t = &items[i];
                out.push(
                    TargetInfo {
                        id: member_text(t, "id", ""),
                        title: member_text(t, "title", ""),
                        url: member_text(t, "url", ""),
                        kind: member_text(t, "type", ""),
                        attachable: match t.text_at("webSocketDebuggerUrl") {
                            Some(s) => !s.as_str().is_empty(),
                            None => false,
                        },
                        browser_context_id: None,
                    },
                );
                i = i + 1;
            }
        },
        None => {},
    }
    out
}

/// One process of a browser. The processor time is the number as it was
/// reported.
pub struct BrowserProcessInfo {
    pub kind: String,
    pub pid: u32,
    pub cpu_time: Json,
    pub name: Option<String>,
}

/// Is `p` the process that `v` describes? A process number is taken modulo
/// two to the power of thirty-two.
pub open spec fn is_browser_process(p: BrowserProcessInfo, v: JsonView) -> bool {
    &&& p.kind@ == text_or(v, "type"@, "unknown"@)
    &&& p.pid as int == uint_or_zero(v, "id"@) as int % 0x1_0000_0000
    &&& p.cpu_time@ == number_or_null(v, "cpuTime"@)
    &&& opt_view(p.name) == v.text_at("name"@)
}

/// The processes of a `SystemInfo.getProcessInfo` answer.
pub fn processes_from(result: &Json) -> (r: Vec<BrowserProcessInfo>)
    ensures
        r@.len() == items_or_none(result@.array_at("processInfo"@)).len(),
        forall|i: int|
            0 <= i < r@.len() ==> is_browser_process(
                #[trigger] r@[i],
                items_or_none(result@.array_at("processInfo"@))[i],
            ),
{
    let mut out: Vec<BrowserProcessInfo> = Vec::new();
    match result.array_at("processInfo") {
        Some(items) => {
            let mut i: usize = 0;
            while i < items.len()
                invariant
                    i <= items@.len(),
                    out@.len() == i,
                    forall|k: int|
                        0 <= k < i ==> is_browser_process(
                            #[trigger] out@[k],
                            json_views(items@)[k],
                        ),
                decreases items@.len() - i,
            {
                let p = &items[i];
                let id: u64 = member_uint(p, "id");
                out.push(
                    BrowserProcessInfo {
                        kind: member_text(p, "type", "unknown"),
                        pid: (id % 0x1_0000_0000) as u32,
                        cpu_time: member_number(p, "cpuTime"),
                        name: p.text_at("name"),
                    },
                );
                i = i + 1;
            }
        },
        None => {},
    }
    out
}

/// The size of a page's JavaScript heap, in bytes.
#[derive(Debug, Clone, Copy, PartialEq, Eq, Structural)]
pub struct HeapSample {
    pub used: u64,
    pub total: u64,
    pub limit: u64,
}

/// Counters of a page's document tree.
#[derive(Debug, Clone, Copy, PartialEq, Eq, Structural)]
pub struct DomCounters {
    pub documents: u64,
    pub nodes: u64,
    pub js_event_listeners: u64,
}

/// Where a page stands.
#[derive(Debug)]
pub struct PageState {
    pub ready_state: String,
    pub title: String,
    pub url: String,
}

/// One message of a page's console.
#[derive(Debug)]
pub struct ConsoleObs {
    pub level: String,
    pub text: String,
}

/// The heap sizes that an evaluation gave.
pub fn parse_heap(value: &Json) -> (r: HeapSample)
    ensures
        r.used == uint_or_zero(value@, "used"@),
        r.total == uint_or_zero(value@, "total"@),
        r.limit == uint_or_zero(value@, "limit"@),
{
    HeapSample {
        used: member_uint(value, "used"),
        total: member_uint(value, "total"),
        limit: member_uint(value, "limit"),
    }
}

/// The counters of a `Memory.getDOMCounters` answer.
pub fn parse_dom_counters(result: &Json) -> (r: DomCounters)
    ensures
        r.documents == uint_or_zero(result@, "documents"@),
        r.nodes == uint_or_zero(result@, "nodes"@),
        r.js_event_listeners == uint_or_zero(result@, "jsEventListeners"@),
{
    DomCounters {
        documents: member_uint(result, "documents"),
        nodes: member_uint(result, "nodes"),
        js_event_listeners: member_uint(result, "jsEventListeners"),
    }
}

/// Where a page stands, as an evaluation gave it.
pub fn parse_page_state(value: &Json) -> (r: PageState)
    ensures
        r.ready_state@ == text_or(value@, "ready"@, ""@),
        r.title@ == text_or(value@, "title"@, ""@),
        r.url@ == text_or(value@, "url"@, ""@),
{
    PageState {
        ready_state: member_text(value, "ready", ""),
        title: member_text(value, "title", ""),
        url: member_text(value, "url", ""),
    }
}

/// The numbers of an array of metrics by their names; of two with the same name
/// the later one stays, and entries without a name or a number are left out.
pub open spec fn metrics_of(items: Seq<JsonView>) -> Map<Seq<char>, JsonView>
    decreases items.len(),
{
    if items.len() == 0 {
        Map::empty()
    } else {
        let before = metrics_of(items.drop_last());
        let m = items.last();
        match m.text_at("name"@) {
            Some(name) => if number_or_null(m, "value"@) is Null {
                before
            } else {
                before.insert(name, number_or_null(m, "value"@))
            },
            None => before,
        }
    }
}

/// Are these the named numbers, each name once?
pub open spec fn lists_metrics(v: Seq<(String, Json)>, metrics: Map<Seq<char>, JsonView>) -> bool {
    members_distinct(v) && members_view(v) == metrics
}

/// The named numbers of a `Performance.getMetrics` answer.
pub fn parse_metrics(result: &Json) -> (r: Vec<(String, Json)>)
    ensures
        lists_metrics(r@, metrics_of(items_or_none(result@.array_at("metrics"@)))),
{
    let mut out: Vec<(String, Json)> = Vec::new();
    match result.array_at("metrics") {
        Some(items) => {
            let ghost all = json_views(items@);
            let mut i: usize = 0;
            assert(all.take(0).len() == 0);
            while i < items.len()
                invariant
                    i <= items@.len(),
                    all == json_views(items@),
                    members_distinct(out@),
                    members_view(out@) == metrics_of(all.take(i as int)),
                decreases items@.len() - i,
            {
                assert(all.take(i + 1).drop_last() == all.take(i as int));
                assert(all[i as int] == items@[i as int]@);
                match items[i].text_at("name") {
                    Some(name) => {
                        let value = member_number(&items[i], "value");
                        if !value.is_null() {
                            put_member(&mut out, name, value);
                        }
                    },
                    None => {},
                }
                i = i + 1;
            }
            assert(all.take(all.len() as int) == all);
        },
        None => {},
    }
    out
}

/// One request of a page. The times are the numbers as they were reported;
/// null stands for zero.
pub struct RequestObs {
    pub request_id: String,
    pub method: String,
    pub url: String,
    pub requested_at: Json,
    pub status: Option<u16>,
    pub mime_type: Option<String>,
    pub bytes: Option<u64>,
    pub response_at: Option<Json>,
    pub failed: bool,
    pub error_text: Option<String>,
}

/// A request taken by its views.
#[verifier::ext_equal]
pub struct RequestView {
    pub request_id: Seq<char>,
    pub method: Seq<char>,
    pub url: Seq<char>,
    pub requested_at: JsonView,
    pub status: Option<u16>,
    pub mime_type: Option<Seq<char>>,
    pub bytes: Option<u64>,
    pub response_at: Option<JsonView>,
    pub failed: bool,
    pub error_text: Option<Seq<char>>,
}

impl View for RequestObs {
    type V = RequestView;

    open spec fn view(&self) -> RequestView {
        RequestView {
            request_id: self.request_id@,
            method: self.method@,
            url: self.url@,
            requested_at: self.requested_at@,
            status: self.status,
            mime_type: opt_view(self.mime_type),
            bytes: self.bytes,
            response_at: match self.response_at {
                Some(j) => Some(j@),
                None => None,
            },
            failed: self.failed,
            error_text: opt_view(self.error_text),
        }
    }
}

/// What was observed of a page over a window of time.
pub struct Observation {
    pub requests: Vec<RequestObs>,
    pub console: Vec<ConsoleObs>,
    pub exceptions: Vec<String>,
}

/// An observation taken by its views.
#[verifier::ext_equal]
pub struct ObservationView {
    pub requests: Seq<RequestView>,
    /// Level and text of each message.
    pub console: Seq<(Seq<char>, Seq<char>)>,
    pub exceptions: Seq<Seq<char>>,
}

/// Requests taken by their views.
pub open spec fn request_views(v: Seq<RequestObs>) -> Seq<RequestView> {
    v.map_values(|r: RequestObs| r@)
}

/// Messages taken by their views.
pub open spec fn console_views(v: Seq<ConsoleObs>) -> Seq<(Seq<char>, Seq<char>)> {
    v.map_values(|c: ConsoleObs| (c.level@, c.text@))
}

impl View for Observation {
    type V = ObservationView;

    open spec fn view(&self) -> ObservationView {
        ObservationView {
            requests: request_views(self.requests@),
            console: console_views(self.console@),
            exceptions: views(self.exceptions@),
        }
    }
}

/// The place of the first request with this id.
pub open spec fn first_request(requests: Seq<RequestView>, id: Seq<char>) -> Option<int>
    decreases requests.len(),
{
    if requests.len() == 0 {
        None
    } else {
        match first_request(requests.drop_last(), id) {
            Some(i) => Some(i),
            None => if requests.last().request_id == id {
                Some(requests.len() - 1)
            } else {
                None
            },
        }
    }
}

/// The first line of a text.
pub open spec fn first_line(s: Seq<char>) -> Seq<char> {
    let n = first_of(s, seq!['\n'], 0);
    if n >= s.len() {
        s
    } else if n > 0 && s[n - 1] == '\r' {
        s.take(n - 1)
    } else {
        s.take(n)
    }
}

fn line_one(s: &str) -> (r: String)
    ensures
        r@ == first_line(s@),
{
    let v = chars_of(s);
    let stops: Vec<char> = vec!['\n'];
    assert(stops@ == seq!['\n']);
    let n = position_of(&v, &stops, 0);
    if n >= v.len() {
        return s.to_owned();
    }
    let end: usize = if n > 0 && v[n - 1] == '\r' {
        n - 1
    } else {
        n
    };
    let r = text_of(&v, 0, end);
    assert(r@ == s@.take(end as int));
    r
}

/// The text of a console message: of its first argument only, bounded.
pub open spec fn console_text(params: JsonView) -> Seq<char> {
    match params.array_at("args"@) {
        None => Seq::empty(),
        Some(args) => if args.len() == 0 {
            Seq::empty()
        } else {
            match args[0].text_at("value"@) {
                Some(s) => clipped(s, 200),
                None => Seq::empty(),
            }
        },
    }
}

/// The text of a console message: of its first argument only, bounded. Later
/// arguments are never read.
pub fn first_arg_text(params: &Json) -> (r: String)
    ensures
        r@ == console_text(params@),
{
    match params.array_at("args") {
        None => String::new(),
        Some(args) => {
            if args.len() == 0 {
                return String::new();
            }
            match args[0].text_at("value") {
                Some(s) => truncate(&s, 200),
                None => String::new(),
            }
        },
    }
}

/// The text of an exception: what it says and what it is, first line, bounded.
pub open spec fn thrown_text(params: JsonView) -> Seq<char> {
    let details = params.member("exceptionDetails"@);
    let text = text_or(details, "text"@, ""@);
    let desc = match details.get("exception"@) {
        Some(e) => text_or(e, "description"@, ""@),
        None => ""@,
    };
    let combined = if desc.len() == 0 {
        text
    } else {
        text + ": "@ + desc
    };
    if combined.len() == 0 {
        Seq::empty()
    } else {
        clipped(first_line(combined), 300)
    }
}

/// The text of an exception: what it says and what it is, first line, bounded.
pub fn exception_text(params: &Json) -> (r: String)
    ensures
        r@ == thrown_text(params@),
{
    let details = params.member("exceptionDetails");
    let text = member_text(&details, "text", "");
    let desc = match details.get("exception") {
        Some(e) => member_text(e, "description", ""),
        None => "".to_owned(),
    };
    let combined = if desc.as_str().is_empty() {
        text
    } else {
        concat3(&text, ": ", &desc)
    };
    if combined.as_str().is_empty() {
        String::new()
    } else {
        truncate(&line_one(&combined), 300)
    }
}

/// A request as it is first seen.
pub open spec fn new_request(params: JsonView) -> RequestView {
    let request = params.member("request"@);
    RequestView {
        request_id: text_or(params, "requestId"@, ""@),
        method: text_or(request, "method"@, ""@),
        url: clean_url(text_or(request, "url"@, ""@)),
        requested_at: number_or_null(params, "timestamp"@),
        status: None,
        mime_type: None,
        bytes: None,
        response_at: None,
        failed: false,
        error_text: None,
    }
}

/// A request with its response. A status is taken modulo two to the power of
/// sixteen.
pub open spec fn answered(r: RequestView, params: JsonView) -> RequestView {
    let response = params.member("response"@);
    RequestView {
        status: match response.uint_at("status"@) {
            Some(s) => Some((s % 65536) as u16),
            None => None,
        },
        mime_type: response.text_at("mimeType"@),
        bytes: response.uint_at("encodedDataLength"@),
        response_at: Some(number_or_null(params, "timestamp"@)),
        ..r
    }
}

/// A request that failed.
pub open spec fn marked_failed(r: RequestView, params: JsonView) -> RequestView {
    RequestView { failed: true, error_text: params.text_at("errorText"@), ..r }
}

/// What one event adds to an observation.
pub open spec fn observed(o: ObservationView, ev: CdpEventView) -> ObservationView {
    let id = text_or(ev.params, "requestId"@, ""@);
    if ev.method == "Network.requestWillBeSent"@ {
        ObservationView { requests: o.requests.push(new_request(ev.params)), ..o }
    } else if ev.method == "Network.responseReceived"@ {
        match first_request(o.requests, id) {
            Some(i) => ObservationView {
                requests: o.requests.update(i, answered(o.requests[i], ev.params)),
                ..o
            },
            None => o,
        }
    } else if ev.method == "Network.loadingFailed"@ {
        match first_request(o.requests, id) {
            Some(i) => ObservationView {
                requests: o.requests.update(i, marked_failed(o.requests[i], ev.params)),
                ..o
            },
            None => o,
        }
    } else if ev.method == "Runtime.consoleAPICalled"@ {
        let level = text_or(ev.params, "type"@, "log"@);
        if level == "error"@ || level == "warning"@ {
            ObservationView { console: o.console.push((level, console_text(ev.params))), ..o }
        } else {
            o
        }
    } else if ev.method == "Runtime.exceptionThrown"@ {
        let text = thrown_text(ev.params);
        if text.len() > 0 {
            ObservationView { exceptions: o.exceptions.push(text), ..o }
        } else {
            o
        }
    } else {
        o
    }
}

/// What a sequence of events adds to an observation.
pub open spec fn observed_all(o: ObservationView, events: Seq<CdpEventView>) -> ObservationView
    decreases events.len(),
{
    if events.len() == 0 {
        o
    } else {
        observed(observed_all(o, events.drop_last()), events.last())
    }
}

/// Events taken by their views.
pub open spec fn event_views(v: Seq<CdpEvent>) -> Seq<CdpEventView> {
    v.map_values(|e: CdpEvent| e@)
}

proof fn lemma_first_request_stays(requests: Seq<RequestView>, id: Seq<char>, n: int)
    requires
        0 <= n <= requests.len(),
        first_request(requests.take(n), id) is Some,
    ensures
        first_request(requests, id) == first_request(requests.take(n), id),
    decreases requests.len(),
{
    if n < requests.len() {
        assert(requests.drop_last().take(n) == requests.take(n));
        lemma_first_request_stays(requests.drop_last(), id, n);
    } else {
        assert(requests.take(n) == requests);
    }
}

fn find_request(requests: &Vec<RequestObs>, id: &str) -> (r: Option<usize>)
    ensures
        match r {
            Some(i) => i < requests@.len() && first_request(request_views(requests@), id@) == Some(
                i as int,
            ),
            None => first_request(request_views(requests@), id@) is None,
        },
{
    let ghost all = request_views(requests@);
    let mut i: usize = 0;
    while i < requests.len()
        invariant
            i <= requests@.len(),
            all == request_views(requests@),
            first_request(all.take(i as int), id@) is None,
        decreases requests@.len() - i,
    {
        assert(all.take(i + 1).drop_last() == all.take(i as int));
        assert(all[i as int] == requests@[i as int]@);
        if same(&requests[i].request_id, id) {
            proof {
                lemma_first_request_stays(all, id@, i + 1);
            }
            return Some(i);
        }
        i = i + 1;
    }
    assert(all.take(all.len() as int) == all);
    None
}

impl Observation {
    /// An observation of nothing.
    pub fn new() -> (r: Self)
        ensures
            r@ == empty_observation(),
    {
        let r = Observation { requests: Vec::new(), console: Vec::new(), exceptions: Vec::new() };
        assert(r@ =~= empty_observation());
        r
    }

    /// Adds what one event says.
    pub fn note(&mut self, ev: CdpEvent)
        ensures
            final(self)@ == observed(old(self)@, ev@),
    {
        let ghost before = self@;
        if same(&ev.method, "Network.requestWillBeSent") {
            let request = ev.params.member("request");
            let obs = RequestObs {
                request_id: member_text(&ev.params, "requestId", ""),
                method: member_text(&request, "method", ""),
                url: sanitize_url(&member_text(&request, "url", "")),
                requested_at: member_number(&ev.params, "timestamp"),
                status: None,
                mime_type: None,
                bytes: None,
                response_at: None,
                failed: false,
                error_text: None,
            };
            assert(obs@ == new_request(ev.params@));
            self.requests.push(obs);
            assert(self@.requests == before.requests.push(obs@));
            assert(self@ =~= observed(before, ev@));
        } else if same(&ev.method, "Network.responseReceived") {
            let id = member_text(&ev.params, "requestId", "");
            match find_request(&self.requests, &id) {
                Some(i) => {
                    let response = ev.params.member("response");
                    let status: Option<u16> = match response.uint_at("status") {
                        Some(s) => Some((s % 65536) as u16),
                        None => None,
                    };
                    let mime_type = response.text_at("mimeType");
                    let bytes = response.uint_at("encodedDataLength");
                    let at = member_number(&ev.params, "timestamp");
                    let ghost old_one = self.requests@[i as int]@;
                    assert(before.requests[i as int] == old_one);
                    let obs = &mut self.requests[i];
                    obs.status = status;
                    obs.mime_type = mime_type;
                    obs.bytes = bytes;
                    obs.response_at = Some(at);
                    assert(self.requests@[i as int]@ == answered(old_one, ev.params@));
                    assert(self@.requests =~= before.requests.update(
                        i as int,
                        answered(old_one, ev.params@),
                    ));
                    assert(self@ =~= observed(before, ev@));
                },
                None => {},
            }
        } else if same(&ev.method, "Network.loadingFailed") {
            let id = member_text(&ev.params, "requestId", "");
            match find_request(&self.requests, &id) {
                Some(i) => {
                    let error_text = ev.params.text_at("errorText");
                    let ghost old_one = self.requests@[i as int]@;
                    assert(before.requests[i as int] == old_one);
                    let obs = &mut self.requests[i];
                    obs.failed = true;
                    obs.error_text = error_text;
                    assert(self.requests@[i as int]@ == marked_failed(old_one, ev.params@));
                    assert(self@.requests =~= before.requests.update(
                        i as int,
                        marked_failed(old_one, ev.params@),
                    ));
                    assert(self@ =~= observed(before, ev@));
                },
                None => {},
            }
        } else if same(&ev.method, "Runtime.consoleAPICalled") {
            let level = member_text(&ev.params, "type", "log");
            if same(&level, "error") || same(&level, "warning") {
                let text = first_arg_text(&ev.params);
                let ghost entry = (level@, text@);
                self.console.push(ConsoleObs { level, text });
                assert(self@.console == before.console.push(entry));
                assert(self@ =~= observed(before, ev@));
            }
        } else if same(&ev.method, "Runtime.exceptionThrown") {
            let text = exception_text(&ev.params);
            if !text.as_str().is_empty() {
                self.exceptions.push(text);
                assert(self@.exceptions == before.exceptions.push(text@));
                assert(self@ =~= observed(before, ev@));
            }
        }
    }
}

/// The observation of nothing.
pub open spec fn empty_observation() -> ObservationView {
    ObservationView { requests: Seq::empty(), console: Seq::empty(), exceptions: Seq::empty() }
}

/// Adds what the events say, one after another.
pub fn process_events(o: &mut Observation, events: Vec<CdpEvent>)
    ensures
        final(o)@ == observed_all(old(o)@, event_views(events@)),
{
    let ghost start = o@;
    let ghost all = event_views(events@);
    let ghost raw = events@;
    for ev in it: events
        invariant
            it.seq() == raw,
            all == event_views(raw),
            o@ == observed_all(start, all.take(it.index())),
    {
        let ghost k = it.index();
        proof {
            assert(all.take(k + 1).drop_last() == all.take(k));
            assert(all[k] == ev@);
        }
        o.note(ev);
    }
    assert(all.take(all.len() as int) == all);
}

/// Is everything in an observation bounded, and bare of queries?
pub open spec fn bounded_observation(o: ObservationView) -> bool {
    &&& forall|i: int|
        0 <= i < o.requests.len() ==> {
            &&& (#[trigger] o.requests[i]).url.len() <= 120
            &&& !o.requests[i].url.contains('?')
            &&& !o.requests[i].url.contains('#')
        }
    &&& forall|i: int|
        0 <= i < o.console.len() ==> {
            &&& (#[trigger] o.console[i]).1.len() <= 200
            &&& o.console[i].0 == "error"@ || o.console[i].0 == "warning"@
        }
    &&& forall|i: int|
        0 <= i < o.exceptions.len() ==> 0 < (#[trigger] o.exceptions[i]).len() <= 300
}

/// Whatever a page sends, what is kept of it is bounded: addresses without
/// query and fragment, console messages that are errors or warnings, and
/// short texts.
pub proof fn law_observations_are_bounded(o: ObservationView, events: Seq<CdpEventView>)
    requires
        bounded_observation(o),
    ensures
        bounded_observation(observed_all(o, events)),
    decreases events.len(),
{
    if events.len() > 0 {
        law_observations_are_bounded(o, events.drop_last());
        let before = observed_all(o, events.drop_last());
        let ev = events.last();
        let url = text_or(ev.params.member("request"@), "url"@, ""@);
        law_shown_urls_are_bare(url, '?');
        law_shown_urls_are_bare(url, '#');
        let now = observed(before, ev);
        assert(now == observed_all(o, events));
        lemma_first_request_in_range(before.requests, text_or(ev.params, "requestId"@, ""@));
        assert forall|i: int| 0 <= i < now.requests.len() implies {
            &&& (#[trigger] now.requests[i]).url.len() <= 120
            &&& !now.requests[i].url.contains('?')
            &&& !now.requests[i].url.contains('#')
        } by {
            if i < before.requests.len() {
                assert(now.requests[i].url == before.requests[i].url);
            }
        }
        assert forall|i: int| 0 <= i < now.console.len() implies {
            &&& (#[trigger] now.console[i]).1.len() <= 200
            &&& now.console[i].0 == "error"@ || now.console[i].0 == "warning"@
        } by {
            if i < before.console.len() {
                assert(now.console[i] == before.console[i]);
            }
        }
        assert forall|i: int| 0 <= i < now.exceptions.len() implies 0 < (
        #[trigger] now.exceptions[i]).len() <= 300 by {
            if i < before.exceptions.len() {
                assert(now.exceptions[i] == before.exceptions[i]);
            }
        }
    }
}

proof fn lemma_first_request_in_range(requests: Seq<RequestView>, id: Seq<char>)
    ensures
        match first_request(requests, id) {
            Some(i) => 0 <= i < requests.len() && requests[i].request_id == id,
            None => true,
        },
    decreases requests.len(),
{
    if requests.len() > 0 {
        lemma_first_request_in_range(requests.drop_last(), id);
    }
}

/// A request that a page sends is noted behind the others, with its id, its method
/// and its address, as neither answered nor failed; nothing else changes.
pub proof fn law_sent_request_is_noted(o: ObservationView, ev: CdpEventView)
    requires
        ev.method == "Network.requestWillBeSent"@,
    ensures
        observed(o, ev).requests.drop_last() == o.requests,
        observed(o, ev).requests.len() == o.requests.len() + 1,
        ev.params.text_at("requestId"@) matches Some(id) ==> observed(
            o,
            ev,
        ).requests.last().request_id == id,
        ev.params.member("request"@).text_at("method"@) matches Some(m) ==> observed(
            o,
            ev,
        ).requests.last().method == m,
        ev.params.member("request"@).text_at("url"@) matches Some(u) ==> {
            let url = observed(o, ev).requests.last().url;
            &&& url.is_prefix_of(u)
            &&& !url.contains('?') && !url.contains('#')
            &&& url.len() == 120 || url == u || u[url.len() as int] == '?' || u[url.len() as int]
                == '#'
        },
        !observed(o, ev).requests.last().failed,
        observed(o, ev).requests.last().status is None,
        observed(o, ev).requests.last().bytes is None,
        observed(o, ev).requests.last().response_at is None,
        observed(o, ev).requests.last().error_text is None,
        observed(o, ev).console == o.console,
        observed(o, ev).exceptions == o.exceptions,
{
    assert(observed(o, ev).requests.drop_last() =~= o.requests);
    match ev.params.member("request"@).text_at("url"@) {
        Some(u) => {
            law_shown_urls_are_bare(u, '?');
            law_shown_urls_are_bare(u, '#');
        },
        None => {},
    }
}

/// Is `i` the place of the first request with this id?
pub open spec fn is_first_with_id(requests: Seq<RequestView>, id: Seq<char>, i: int) -> bool {
    &&& 0 <= i < requests.len()
    &&& requests[i].request_id == id
    &&& forall|k: int| 0 <= k < i ==> (#[trigger] requests[k]).request_id != id
}

proof fn lemma_first_with_id(requests: Seq<RequestView>, id: Seq<char>)
    ensures
        first_request(requests, id) matches Some(i) ==> is_first_with_id(requests, id, i),
        first_request(requests, id) is None ==> forall|k: int|
            0 <= k < requests.len() ==> (#[trigger] requests[k]).request_id != id,
    decreases requests.len(),
{
    if requests.len() > 0 {
        let rest = requests.drop_last();
        lemma_first_with_id(rest, id);
        assert forall|k: int|
            0 <= k < rest.len() && rest[k].request_id != id implies (
        #[trigger] requests[k]).request_id != id by {
            assert(rest[k] == requests[k]);
        }
        match first_request(rest, id) {
            Some(i) => {
                assert(requests[i] == rest[i]);
                assert forall|k: int| 0 <= k < i implies (#[trigger] requests[k]).request_id
                    != id by {
                    assert(rest[k] == requests[k]);
                }
            },
            None => {
                assert forall|k: int| 0 <= k < rest.len() implies (
                #[trigger] requests[k]).request_id != id by {
                    assert(rest[k] == requests[k]);
                }
            },
        }
    }
}

/// A response reaches the first request with its id: its status, its type, its size
/// and its time are noted there, and whether that request failed stays as it was.
/// Every other request stays as it is; so does everything where no request has the id.
pub proof fn law_response_reaches_its_request(o: ObservationView, ev: CdpEventView, i: int)
    requires
        ev.method == "Network.responseReceived"@,
        is_first_with_id(o.requests, text_or(ev.params, "requestId"@, ""@), i),
    ensures
        observed(o, ev).requests.len() == o.requests.len(),
        forall|k: int|
            0 <= k < o.requests.len() && k != i ==> #[trigger] observed(o, ev).requests[k]
                == o.requests[k],
        ({
            let was = o.requests[i];
            let now = observed(o, ev).requests[i];
            let response = ev.params.member("response"@);
            &&& response.uint_at("status"@) matches Some(s) ==> (s < 65536 ==> now.status == Some(
                s as u16,
            ))
            &&& response.uint_at("status"@) is None ==> now.status is None
            &&& now.mime_type == response.text_at("mimeType"@)
            &&& now.bytes == response.uint_at("encodedDataLength"@)
            &&& now.response_at is Some
            &&& now.failed == was.failed && now.error_text == was.error_text
            &&& now.method == was.method && now.url == was.url && now.request_id == was.request_id
                && now.requested_at == was.requested_at
        }),
        observed(o, ev).console == o.console,
        observed(o, ev).exceptions == o.exceptions,
{
    reveal_strlit("Network.requestWillBeSent");
    assert("Network.requestWillBeSent"@.len() == 25);
    reveal_strlit("Network.responseReceived");
    assert("Network.responseReceived"@.len() == 24);
    reveal_strlit("Network.loadingFailed");
    assert("Network.loadingFailed"@.len() == 21);
    reveal_strlit("Runtime.consoleAPICalled");
    assert("Runtime.consoleAPICalled"@.len() == 24);
    reveal_strlit("Runtime.exceptionThrown");
    assert("Runtime.exceptionThrown"@.len() == 23);
    assert("Network.responseReceived"@[0] != "Runtime.consoleAPICalled"@[0]);
    lemma_first_with_id(o.requests, text_or(ev.params, "requestId"@, ""@));
    let j = first_request(o.requests, text_or(ev.params, "requestId"@, ""@));
    if j is Some && j->0 != i {
        assert(o.requests[i].request_id == o.requests[j->0].request_id);
    }
}

/// A failure reaches the first request with its id: it is marked as failed, with its
/// error, and keeps all else. Every other request stays as it is.
pub proof fn law_failure_reaches_its_request(o: ObservationView, ev: CdpEventView, i: int)
    requires
        ev.method == "Network.loadingFailed"@,
        is_first_with_id(o.requests, text_or(ev.params, "requestId"@, ""@), i),
    ensures
        observed(o, ev).requests.len() == o.requests.len(),
        forall|k: int|
            0 <= k < o.requests.len() && k != i ==> #[trigger] observed(o, ev).requests[k]
                == o.requests[k],
        ({
            let was = o.requests[i];
            let now = observed(o, ev).requests[i];
            &&& now.failed
            &&& now.error_text == ev.params.text_at("errorText"@)
            &&& now.status == was.status && now.bytes == was.bytes && now.mime_type
                == was.mime_type && now.response_at == was.response_at
            &&& now.method == was.method && now.url == was.url && now.request_id == was.request_id
                && now.requested_at == was.requested_at
        }),
        observed(o, ev).console == o.console,
        observed(o, ev).exceptions == o.exceptions,
{
    reveal_strlit("Network.requestWillBeSent");
    assert("Network.requestWillBeSent"@.len() == 25);
    reveal_strlit("Network.responseReceived");
    assert("Network.responseReceived"@.len() == 24);
    reveal_strlit("Network.loadingFailed");
    assert("Network.loadingFailed"@.len() == 21);
    reveal_strlit("Runtime.consoleAPICalled");
    assert("Runtime.consoleAPICalled"@.len() == 24);
    reveal_strlit("Runtime.exceptionThrown");
    assert("Runtime.exceptionThrown"@.len() == 23);
    assert("Network.responseReceived"@[0] != "Runtime.consoleAPICalled"@[0]);
    lemma_first_with_id(o.requests, text_or(ev.params, "requestId"@, ""@));
    let j = first_request(o.requests, text_or(ev.params, "requestId"@, ""@));
    if j is Some && j->0 != i {
        assert(o.requests[i].request_id == o.requests[j->0].request_id);
    }
}

/// What says something of a request that was never seen changes nothing, and
/// neither does an event of another kind, a console message that is neither an error
/// nor a warning, or an exception without words.
pub proof fn law_other_events_change_nothing(o: ObservationView, ev: CdpEventView)
    requires
        ({
            let id = text_or(ev.params, "requestId"@, ""@);
            let unknown = forall|k: int|
                0 <= k < o.requests.len() ==> (#[trigger] o.requests[k]).request_id != id;
            ||| (ev.method == "Network.responseReceived"@ || ev.method
                == "Network.loadingFailed"@) && unknown
            ||| ev.method == "Runtime.consoleAPICalled"@ && ev.params.text_at("type"@) != Some(
                "error"@,
            ) && ev.params.text_at("type"@) != Some("warning"@)
            ||| ev.method == "Runtime.exceptionThrown"@ && ev.params.get("exceptionDetails"@) is None
            ||| (ev.method != "Network.requestWillBeSent"@ && ev.method
                != "Network.responseReceived"@ && ev.method != "Network.loadingFailed"@
                && ev.method != "Runtime.consoleAPICalled"@ && ev.method
                != "Runtime.exceptionThrown"@)
        }),
    ensures
        observed(o, ev) == o,
{
    reveal_strlit("Network.requestWillBeSent");
    assert("Network.requestWillBeSent"@.len() == 25);
    reveal_strlit("Network.responseReceived");
    assert("Network.responseReceived"@.len() == 24);
    reveal_strlit("Network.loadingFailed");
    assert("Network.loadingFailed"@.len() == 21);
    reveal_strlit("Runtime.consoleAPICalled");
    assert("Runtime.consoleAPICalled"@.len() == 24);
    reveal_strlit("Runtime.exceptionThrown");
    assert("Runtime.exceptionThrown"@.len() == 23);
    assert("Network.responseReceived"@[0] != "Runtime.consoleAPICalled"@[0]);
    reveal_strlit("log");
    assert("log"@.len() == 3);
    reveal_strlit("error");
    assert("error"@.len() == 5);
    reveal_strlit("warning");
    assert("warning"@.len() == 7);
    reveal_strlit("");
    assert(""@.len() == 0);
    let id = text_or(ev.params, "requestId"@, ""@);
    lemma_first_with_id(o.requests, id);
    if first_request(o.requests, id) is Some {
        assert(o.requests[first_request(o.requests, id)->0].request_id == id);
    }
}

/// An error or a warning on the console is noted behind the others, with its level
/// and the beginning of its first argument; nothing else changes.
pub proof fn law_console_errors_are_noted(o: ObservationView, ev: CdpEventView)
    requires
        ev.method == "Runtime.consoleAPICalled"@,
        ev.params.text_at("type"@) == Some("error"@) || ev.params.text_at("type"@) == Some(
            "warning"@,
        ),
    ensures
        observed(o, ev).console.len() == o.console.len() + 1,
        observed(o, ev).console.drop_last() == o.console,
        Some(observed(o, ev).console.last().0) == ev.params.text_at("type"@),
        ev.params.array_at("args"@) matches Some(args) ==> {
            let told = observed(o, ev).console.last().1;
            &&& args.len() == 0 ==> told.len() == 0
            &&& args.len() > 0 && args[0].text_at("value"@) is Some ==> {
                let text = args[0].text_at("value"@)->0;
                told.is_prefix_of(text) && told.len() == (if text.len() < 200 {
                    text.len() as int
                } else {
                    200
                })
            }
        },
        observed(o, ev).requests == o.requests,
        observed(o, ev).exceptions == o.exceptions,
{
    reveal_strlit("Network.requestWillBeSent");
    assert("Network.requestWillBeSent"@.len() == 25);
    reveal_strlit("Network.responseReceived");
    assert("Network.responseReceived"@.len() == 24);
    reveal_strlit("Network.loadingFailed");
    assert("Network.loadingFailed"@.len() == 21);
    reveal_strlit("Runtime.consoleAPICalled");
    assert("Runtime.consoleAPICalled"@.len() == 24);
    reveal_strlit("Runtime.exceptionThrown");
    assert("Runtime.exceptionThrown"@.len() == 23);
    assert("Network.responseReceived"@[0] != "Runtime.consoleAPICalled"@[0]);
    assert(observed(o, ev).console.drop_last() =~= o.console);
}

/// An exception that says something is noted behind the others, in its first line;
/// nothing else changes.
pub proof fn law_exceptions_are_noted(o: ObservationView, ev: CdpEventView, text: Seq<char>)
    requires
        ev.method == "Runtime.exceptionThrown"@,
        ev.params.member("exceptionDetails"@).text_at("text"@) == Some(text),
        text.len() > 0,
        !text.contains('\n'),
        ev.params.member("exceptionDetails"@).get("exception"@) is None,
    ensures
        observed(o, ev).exceptions.len() == o.exceptions.len() + 1,
        observed(o, ev).exceptions.drop_last() == o.exceptions,
        observed(o, ev).exceptions.last().is_prefix_of(text),
        observed(o, ev).exceptions.last().len() == (if text.len() < 300 {
            text.len() as int
        } else {
            300
        }),
        observed(o, ev).requests == o.requests,
        observed(o, ev).console == o.console,
{
    reveal_strlit("Network.requestWillBeSent");
    assert("Network.requestWillBeSent"@.len() == 25);
    reveal_strlit("Network.responseReceived");
    assert("Network.responseReceived"@.len() == 24);
    reveal_strlit("Network.loadingFailed");
    assert("Network.loadingFailed"@.len() == 21);
    reveal_strlit("Runtime.consoleAPICalled");
    assert("Runtime.consoleAPICalled"@.len() == 24);
    reveal_strlit("Runtime.exceptionThrown");
    assert("Runtime.exceptionThrown"@.len() == 23);
    assert("Network.responseReceived"@[0] != "Runtime.consoleAPICalled"@[0]);
    reveal_strlit("");
    crate::text::lemma_first_of(text, seq!['\n'], 0);
    let n = first_of(text, seq!['\n'], 0);
    if n < text.len() {
        assert(seq!['\n'].contains(text[n]));
        assert(text[n] == '\n');
    }
    assert(observed(o, ev).exceptions.drop_last() =~= o.exceptions);
}

/// Events are taken in one after another: what comes later builds on what came
/// before.
pub proof fn law_events_are_taken_in_order(
    o: ObservationView,
    first: Seq<CdpEventView>,
    then: Seq<CdpEventView>,
)
    ensures
        observed_all(o, first + then) == observed_all(observed_all(o, first), then),
    decreases then.len(),
{
    if then.len() == 0 {
        assert(first + then =~= first);
    } else {
        assert((first + then).drop_last() =~= first + then.drop_last());
        law_events_are_taken_in_order(o, first, then.drop_last());
    }
}

/// The sizes, the counters and the state of a page are those of the members of
/// their names.
pub proof fn law_measurements_are_read_by_name(
    v: Json,
    heap: HeapSample,
    dom: DomCounters,
    state: PageState,
)
    requires
        call_ensures(parse_heap, (&v,), heap),
        call_ensures(parse_dom_counters, (&v,), dom),
        call_ensures(parse_page_state, (&v,), state),
    ensures
        v@.uint_at("used"@) matches Some(n) ==> heap.used == n,
        v@.uint_at("total"@) matches Some(n) ==> heap.total == n,
        v@.uint_at("limit"@) matches Some(n) ==> heap.limit == n,
        v@.uint_at("documents"@) matches Some(n) ==> dom.documents == n,
        v@.uint_at("nodes"@) matches Some(n) ==> dom.nodes == n,
        v@.uint_at("jsEventListeners"@) matches Some(n) ==> dom.js_event_listeners == n,
        v@.text_at("ready"@) matches Some(t) ==> state.ready_state@ == t,
        v@.text_at("title"@) matches Some(t) ==> state.title@ == t,
        v@.text_at("url"@) matches Some(t) ==> state.url@ == t,
{
}

/// Every target of a listing is read, in order, by the members of its names.
pub proof fn law_targets_are_read_by_name(
    answer: Json,
    items: Seq<JsonView>,
    r: Vec<TargetInfo>,
    i: int,
)
    requires
        call_ensures(targets_from, (&answer,), r),
        answer@.array_at("targetInfos"@) == Some(items),
        0 <= i < items.len(),
    ensures
        r@.len() == items.len(),
        items[i].text_at("targetId"@) matches Some(t) ==> r@[i].id@ == t,
        items[i].text_at("title"@) matches Some(t) ==> r@[i].title@ == t,
        items[i].text_at("url"@) matches Some(t) ==> r@[i].url@ == t,
        items[i].text_at("type"@) matches Some(t) ==> r@[i].kind@ == t,
        r@[i].attachable <==> items[i].bool_at("attachable"@) == Some(true),
        opt_view(r@[i].browser_context_id) == items[i].text_at("browserContextId"@),
{
    assert(is_listed_target(r@[i], items[i]));
}

/// Every target of the endpoint's listing is read, in order, by the members of its
/// names; it can be attached to exactly where it has an address to attach to.
pub proof fn law_endpoint_targets_are_read_by_name(
    list: Json,
    items: Seq<JsonView>,
    r: Vec<TargetInfo>,
    i: int,
)
    requires
        call_ensures(endpoint_targets, (&list,), r),
        list@.as_array() == Some(items),
        0 <= i < items.len(),
    ensures
        r@.len() == items.len(),
        items[i].text_at("id"@) matches Some(t) ==> r@[i].id@ == t,
        items[i].text_at("title"@) matches Some(t) ==> r@[i].title@ == t,
        items[i].text_at("url"@) matches Some(t) ==> r@[i].url@ == t,
        items[i].text_at("type"@) matches Some(t) ==> r@[i].kind@ == t,
        r@[i].attachable <==> items[i].text_at("webSocketDebuggerUrl"@) is Some
            && items[i].text_at("webSocketDebuggerUrl"@)->0.len() > 0,
{
    assert(is_endpoint_target(r@[i], items[i]));
}

/// A metric is what the last entry of its name says; entries of other names do not
/// change it.
pub proof fn law_metrics_are_read_by_name(items: Seq<JsonView>, name: Seq<char>, i: int, n: int)
    requires
        0 <= i < items.len(),
        items[i].text_at("name"@) == Some(name),
        items[i].get("value"@) == Some(JsonView::Int(n)),
        forall|k: int| i < k < items.len() ==> (#[trigger] items[k]).text_at("name"@) != Some(name),
    ensures
        metrics_of(items).dom().contains(name),
        metrics_of(items)[name] == JsonView::Int(n),
    decreases items.len(),
{
    if i < items.len() - 1 {
        let rest = items.drop_last();
        assert(items[items.len() - 1].text_at("name"@) != Some(name));
        assert forall|k: int| i < k < rest.len() implies (#[trigger] rest[k]).text_at("name"@)
            != Some(name) by {
            assert(rest[k] == items[k]);
        }
        law_metrics_are_read_by_name(rest, name, i, n);
    }
}

/// A first line is the beginning of its text, holds no line end, and goes on to the
/// first one.
pub proof fn law_first_lines_end_at_the_line_end(s: Seq<char>)
    ensures
        first_line(s).is_prefix_of(s),
        !first_line(s).contains('\n'),
        !s.contains('\n') ==> first_line(s) == s,
        first_line(s).len() < s.len() ==> s[first_line(s).len() as int] == '\n' || (
        s[first_line(s).len() as int] == '\r' && first_line(s).len() + 1 < s.len()
            && s[first_line(s).len() as int + 1] == '\n'),
{
    let stops = seq!['\n'];
    lemma_first_of(s, stops, 0);
    let n = first_of(s, stops, 0);
    assert(stops[0] == '\n');
    let line = first_line(s);
    assert forall|k: int| 0 <= k < line.len() implies line[k] != '\n' by {
        assert(line[k] == s[k]);
        assert(!stops.contains(s[k]));
    }
    if !s.contains('\n') && n < s.len() {
        assert(stops.contains(s[n]));
        assert(s[n] == '\n');
    }
}

/// The text of a console message is that of its first argument, up to 200 characters;
/// it has none where that argument is no text.
pub proof fn law_first_argument_is_told(params: Json, r: String)
    requires
        call_ensures(first_arg_text, (&params,), r),
    ensures
        ({
            let args = params@.array_at("args"@);
            if args is Some && args->0.len() > 0 && args->0[0].text_at("value"@) is Some {
                let s = args->0[0].text_at("value"@)->0;
                &&& r@.is_prefix_of(s)
                &&& s.len() <= 200 ==> r@ == s
                &&& s.len() > 200 ==> r@.len() == 200
            } else {
                r@.len() == 0
            }
        }),
{
}

/// The processes of a browser are told one by one, with their kind, number and name.
pub proof fn law_browser_processes_are_read(result: Json, r: Vec<BrowserProcessInfo>)
    requires
        call_ensures(processes_from, (&result,), r),
        result@.array_at("processInfo"@) is Some,
    ensures
        r@.len() == result@.array_at("processInfo"@)->0.len(),
        forall|i: int|
            0 <= i < r@.len() ==> {
                let v = result@.array_at("processInfo"@)->0[i];
                let p = #[trigger] r@[i];
                &&& v.text_at("type"@) is Some ==> p.kind@ == v.text_at("type"@)->0
                &&& v.text_at("type"@) is None ==> p.kind@ == "unknown"@
                &&& v.uint_at("id"@) is Some && v.uint_at("id"@)->0 < 0x1_0000_0000 ==> p.pid
                    == v.uint_at("id"@)->0
                &&& v.uint_at("id"@) is None ==> p.pid == 0
                &&& opt_view(p.name) == v.text_at("name"@)
            },
{
    assert forall|i: int| 0 <= i < r@.len() implies is_browser_process(
        #[trigger] r@[i],
        items_or_none(result@.array_at("processInfo"@))[i],
    ) by {}
}

} // verus!
