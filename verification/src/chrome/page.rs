//! What is told of the page of a managed session.

use crate::chrome::attempt::{find_wanted, first_wanted, is_wanted, lemma_first_wanted};
use crate::chrome::launch::{
    base64_bytes, base64_decoded_len, display_url, host_of, hosts_match, law_shown_urls_are_bare,
    plain_host, shown_url, url_host,
};
use crate::chrome::managed::{same_evidence, same_session, ManagedSession};
use crate::chrome::metrics::{
    at_most, count_level, failed_places, lemma_failed_are_filtered, lemma_level_filter, level_count,
};
use crate::chrome::session::{
    items_or_none, member_text, member_uint, text_or, uint_or_zero, Observation, ObservationView,
    RequestView,
};
use crate::errors::{err_view, ErrorKind, ErrorView, WinkitError};
use crate::json::{array_of_texts, json_views, lemma_array_view, text_array, Json, JsonView};
use crate::models::TargetInfo;
use crate::text::{
    clipped, concat3, decimal, decimal_text, opt_view, same, truncate, utf8_len, views,
    without_trailing,
};
use vstd::prelude::*;
use vstd::string::*;

verus! {

/// The longest observation window of a page summary, in milliseconds.
pub const MAX_OBSERVE_MS: u64 = 30000;

/// The window that a page summary observes.
pub fn observe_window(requested: Option<u64>, configured: u64) -> (r: u64)
    ensures
        r == (match requested {
            Some(ms) => if ms < MAX_OBSERVE_MS {
                ms
            } else {
                MAX_OBSERVE_MS
            },
            None => if configured < MAX_OBSERVE_MS {
                configured
            } else {
                MAX_OBSERVE_MS
            },
        }),
{
    let asked: u64 = match requested {
        Some(ms) => ms,
        None => configured,
    };
    if asked < MAX_OBSERVE_MS {
        asked
    } else {
        MAX_OBSERVE_MS
    }
}

/// The texts among the items, each bounded; what is no text is left out.
pub open spec fn clipped_texts(items: Seq<JsonView>, n: int) -> Seq<Seq<char>>
    decreases items.len(),
{
    if items.len() == 0 {
        Seq::empty()
    } else {
        let before = clipped_texts(items.drop_last(), n);
        match items.last().as_text() {
            Some(s) => before.push(clipped(s, n)),
            None => before,
        }
    }
}

/// The texts in an array member, each bounded; what is no text is left out.
pub fn member_texts(v: &Json, key: &str, n: usize) -> (r: Vec<String>)
    ensures
        views(r@) == clipped_texts(items_or_none(v@.array_at(key@)), n as int),
{
    let mut out: Vec<String> = Vec::new();
    assert(views(out@) =~= Seq::<Seq<char>>::empty());
    match v.array_at(key) {
        Some(items) => {
            let ghost all = json_views(items@);
            let mut i: usize = 0;
            while i < items.len()
                invariant
                    all == json_views(items@),
                    i <= items@.len(),
                    views(out@) == clipped_texts(all.take(i as int), n as int),
                decreases items@.len() - i,
            {
                assert(all.take(i + 1).drop_last() == all.take(i as int));
                assert(all[i as int] == items@[i as int]@);
                let ghost before = views(out@);
                match items[i].as_text() {
                    Some(s) => {
                        let t = truncate(s, n);
                        out.push(t);
                        assert(views(out@) =~= before.push(t@));
                    },
                    None => {},
                }
                i = i + 1;
            }
            assert(all.take(all.len() as int) == all);
        },
        None => {},
    }
    out
}

/// A console message as it is told.
pub open spec fn console_entry(c: (Seq<char>, Seq<char>)) -> JsonView {
    JsonView::object().with("level"@, JsonView::Text(c.0)).with(
        "text"@,
        JsonView::Text(clipped(c.1, 200)),
    )
}

/// A failed request as it is told.
pub open spec fn failure_entry(r: RequestView) -> JsonView {
    JsonView::object().with("url"@, JsonView::Text(shown_url(r.url))).with(
        "method"@,
        JsonView::Text(r.method),
    ).with(
        "error"@,
        JsonView::Text(
            match r.error_text {
                Some(e) => e,
                None => ""@,
            },
        ),
    )
}

/// The failed requests as they are told, at most ten.
pub open spec fn failure_entries(requests: Seq<RequestView>) -> Seq<JsonView> {
    at_most(failed_places(requests), 10).map_values(|i: int| failure_entry(requests[i]))
}

/// The console messages as they are told, at most ten.
pub open spec fn console_entries(console: Seq<(Seq<char>, Seq<char>)>) -> Seq<JsonView> {
    at_most(console, 10).map_values(|c: (Seq<char>, Seq<char>)| console_entry(c))
}

/// The exceptions as they are told, at most ten.
pub open spec fn exception_entries(exceptions: Seq<Seq<char>>) -> Seq<Seq<char>> {
    at_most(exceptions, 10).map_values(|e: Seq<char>| clipped(e, 300))
}

/// What the scripts of the page did, as it is told.
pub open spec fn runtime_part(o: ObservationView) -> JsonView {
    JsonView::object().with(
        "console_errors"@,
        JsonView::Int(level_count(o.console, "error"@) as int),
    ).with("console_warnings"@, JsonView::Int(level_count(o.console, "warning"@) as int)).with(
        "exceptions"@,
        JsonView::Int(exception_entries(o.exceptions).len() as int),
    ).with("console_samples"@, JsonView::Array(console_entries(o.console))).with(
        "exception_samples"@,
        text_array(exception_entries(o.exceptions)),
    )
}

/// What the network traffic of the page was, as it is told.
pub open spec fn network_part(o: ObservationView) -> JsonView {
    JsonView::object().with("total_requests"@, JsonView::Int(o.requests.len() as int)).with(
        "failed"@,
        JsonView::Int(failed_places(o.requests).len() as int),
    ).with("failures"@, JsonView::Array(failure_entries(o.requests)))
}

/// The summary of a page.
pub open spec fn page_view(
    session_id: Seq<char>,
    snapshot: JsonView,
    o: ObservationView,
    window: u64,
    elapsed_ms: u64,
    max_text: int,
) -> JsonView {
    JsonView::object().with("session_id"@, JsonView::Text(session_id)).with(
        "title"@,
        JsonView::Text(clipped(text_or(snapshot, "title"@, ""@), 200)),
    ).with("url"@, JsonView::Text(shown_url(text_or(snapshot, "url"@, ""@)))).with(
        "ready_state"@,
        JsonView::Text(text_or(snapshot, "readyState"@, ""@)),
    ).with(
        "headings"@,
        text_array(clipped_texts(items_or_none(snapshot.array_at("headings"@)), 120)),
    ).with(
        "landmarks"@,
        text_array(clipped_texts(items_or_none(snapshot.array_at("landmarks"@)), 120)),
    ).with(
        "form_labels"@,
        text_array(clipped_texts(items_or_none(snapshot.array_at("labels"@)), 120)),
    ).with(
        "visible_text_chars"@,
        JsonView::Int(uint_or_zero(snapshot, "textLength"@) as int),
    ).with(
        "text_snippet"@,
        JsonView::Text(clipped(text_or(snapshot, "textSnippet"@, ""@), max_text)),
    ).with("runtime"@, runtime_part(o)).with("network"@, network_part(o)).with(
        "observed_ms"@,
        JsonView::Int(window as int),
    ).with("elapsed_ms"@, JsonView::Int(elapsed_ms as int)).with(
        "limitations"@,
        text_array(
            seq![
                "Text, headings, landmarks, and labels are bounded and truncated; form values, cookies, headers, and request bodies are never read."@,
            ],
        ),
    )
}

fn console_samples(o: &Observation) -> (r: Json)
    ensures
        r@ == JsonView::Array(console_entries(o@.console)),
{
    let ghost all = o@.console;
    let mut out: Vec<Json> = Vec::new();
    let mut i: usize = 0;
    while i < o.console.len() && i < 10
        invariant
            all == o@.console,
            i <= o.console@.len(),
            i <= 10,
            out@.len() == i,
            forall|k: int| 0 <= k < i ==> (#[trigger] out@[k])@ == console_entry(all[k]),
        decreases o.console@.len() - i,
    {
        let entry = Json::object().with("level", Json::text(&o.console[i].level)).with(
            "text",
            Json::Text(truncate(&o.console[i].text, 200)),
        );
        assert(all[i as int] == (o.console@[i as int].level@, o.console@[i as int].text@));
        out.push(entry);
        i = i + 1;
    }
    proof {
        lemma_array_view(out);
        assert(json_views(out@) =~= console_entries(all));
    }
    Json::Array(out)
}

fn exception_samples(o: &Observation) -> (r: Vec<String>)
    ensures
        views(r@) == exception_entries(o@.exceptions),
{
    let ghost all = o@.exceptions;
    let mut out: Vec<String> = Vec::new();
    let mut i: usize = 0;
    while i < o.exceptions.len() && i < 10
        invariant
            all == o@.exceptions,
            i <= o.exceptions@.len(),
            i <= 10,
            out@.len() == i,
            forall|k: int| 0 <= k < i ==> (#[trigger] out@[k])@ == clipped(all[k], 300),
        decreases o.exceptions@.len() - i,
    {
        assert(all[i as int] == o.exceptions@[i as int]@);
        out.push(truncate(&o.exceptions[i], 300));
        i = i + 1;
    }
    assert(views(out@) =~= exception_entries(all));
    out
}

fn failures(o: &Observation) -> (r: (usize, Json))
    ensures
        r.0 == failed_places(o@.requests).len(),
        r.1@ == JsonView::Array(failure_entries(o@.requests)),
{
    let ghost all = o@.requests;
    let mut failed: usize = 0;
    let mut out: Vec<Json> = Vec::new();
    let mut i: usize = 0;
    while i < o.requests.len()
        invariant
            all == o@.requests,
            i <= o.requests@.len(),
            failed <= i,
            failed == failed_places(all.take(i as int)).len(),
            out@.len() == (if failed < 10 {
                failed
            } else {
                10
            }),
            forall|k: int|
                0 <= k < out@.len() ==> (#[trigger] out@[k])@ == failure_entry(
                    all[failed_places(all.take(i as int))[k]],
                ),
        decreases o.requests@.len() - i,
    {
        let ghost before = all.take(i as int);
        assert(all.take(i + 1).drop_last() == before);
        assert(all[i as int] == o.requests@[i as int]@);
        if o.requests[i].failed {
            if failed < 10 {
                let error = match &o.requests[i].error_text {
                    Some(e) => e.clone(),
                    None => "".to_owned(),
                };
                let entry = Json::object().with(
                    "url",
                    Json::Text(display_url(&o.requests[i].url)),
                ).with("method", Json::text(&o.requests[i].method)).with(
                    "error",
                    Json::Text(error),
                );
                assert(entry@ == failure_entry(all[i as int]));
                out.push(entry);
            }
            failed = failed + 1;
        }
        i = i + 1;
    }
    assert(all.take(all.len() as int) == all);
    proof {
        lemma_array_view(out);
        assert(json_views(out@) =~= failure_entries(all));
    }
    (failed, Json::Array(out))
}

/// The summary of a page: what the snapshot holds and what was observed, all
/// of it bounded, and addresses without queries.
pub fn page_summary(
    session_id: &str,
    snapshot: &Json,
    o: &Observation,
    window: u64,
    elapsed_ms: u64,
    max_text: usize,
) -> (r: Json)
    ensures
        r@ == page_view(session_id@, snapshot@, o@, window, elapsed_ms, max_text as int),
{
    let exceptions = exception_samples(o);
    let (failed, failure_list) = failures(o);
    let runtime = Json::object().with(
        "console_errors",
        Json::UInt(count_level(&o.console, "error") as u64),
    ).with("console_warnings", Json::UInt(count_level(&o.console, "warning") as u64)).with(
        "exceptions",
        Json::UInt(exceptions.len() as u64),
    ).with("console_samples", console_samples(o)).with("exception_samples", array_of_texts(&exceptions));
    assert(exceptions@.len() == views(exceptions@).len());
    assert(runtime@ == runtime_part(o@));
    let network = Json::object().with("total_requests", Json::UInt(o.requests.len() as u64)).with(
        "failed",
        Json::UInt(failed as u64),
    ).with("failures", failure_list);
    assert(network@ == network_part(o@));
    let mut limits: Vec<String> = Vec::new();
    limits.push(
        "Text, headings, landmarks, and labels are bounded and truncated; form values, cookies, headers, and request bodies are never read.".to_owned(),
    );
    assert(views(limits@) =~= seq![
        "Text, headings, landmarks, and labels are bounded and truncated; form values, cookies, headers, and request bodies are never read."@,
    ]);
    Json::object().with("session_id", Json::text(session_id)).with(
        "title",
        Json::Text(truncate(&member_text(snapshot, "title", ""), 200)),
    ).with("url", Json::Text(display_url(&member_text(snapshot, "url", "")))).with(
        "ready_state",
        Json::Text(member_text(snapshot, "readyState", "")),
    ).with("headings", array_of_texts(&member_texts(snapshot, "headings", 120))).with(
        "landmarks",
        array_of_texts(&member_texts(snapshot, "landmarks", 120)),
    ).with("form_labels", array_of_texts(&member_texts(snapshot, "labels", 120))).with(
        "visible_text_chars",
        Json::UInt(member_uint(snapshot, "textLength")),
    ).with(
        "text_snippet",
        Json::Text(truncate(&member_text(snapshot, "textSnippet", ""), max_text)),
    ).with("runtime", runtime).with("network", network).with("observed_ms", Json::UInt(window)).with(
        "elapsed_ms",
        Json::UInt(elapsed_ms),
    ).with("limitations", array_of_texts(&limits))
}

/// What a screenshot call is made with: its parameters, and the size of the
/// picture where it is known.
pub struct ScreenshotPlan {
    pub params: Json,
    pub width: Option<u64>,
    pub height: Option<u64>,
}

/// Is the page larger than a picture may be?
pub open spec fn oversized(width: Option<u64>, height: Option<u64>, max_dim: u64) -> bool {
    width is Some && height is Some && (width->0 > max_dim || height->0 > max_dim)
}

/// The smaller of two sizes.
pub open spec fn smaller(a: u64, b: u64) -> u64 {
    if a < b {
        a
    } else {
        b
    }
}

fn min_of(a: u64, b: u64) -> (r: u64)
    ensures
        r == smaller(a, b),
{
    if a < b {
        a
    } else {
        b
    }
}

/// The parameters of a screenshot call without a clip.
pub open spec fn plain_shot() -> JsonView {
    JsonView::object().with("format"@, JsonView::Text("png"@)).with(
        "captureBeyondViewport"@,
        JsonView::Bool(false),
    )
}

/// How a screenshot is taken of a page of this size: clipped to the largest
/// size where the page is larger.
pub fn plan_screenshot(width: Option<u64>, height: Option<u64>, max_dim: u64) -> (r: ScreenshotPlan)
    ensures
        oversized(width, height, max_dim) ==> {
            &&& r.width == Some(smaller(width->0, max_dim))
            &&& r.height == Some(smaller(height->0, max_dim))
            &&& r.params@ == plain_shot().with(
                "clip"@,
                JsonView::object().with("x"@, JsonView::Int(0)).with("y"@, JsonView::Int(0)).with(
                    "width"@,
                    JsonView::Int(smaller(width->0, max_dim) as int),
                ).with("height"@, JsonView::Int(smaller(height->0, max_dim) as int)).with(
                    "scale"@,
                    JsonView::Int(1),
                ),
            )
        },
        !oversized(width, height, max_dim) ==> r.width == width && r.height == height
            && r.params@ == plain_shot(),
{
    let plain = Json::object().with("format", Json::text("png")).with(
        "captureBeyondViewport",
        Json::Bool(false),
    );
    match (width, height) {
        (Some(w), Some(h)) => {
            if w > max_dim || h > max_dim {
                let cw: u64 = min_of(w, max_dim);
                let ch: u64 = min_of(h, max_dim);
                let clip = Json::object().with("x", Json::UInt(0)).with("y", Json::UInt(0)).with(
                    "width",
                    Json::UInt(cw),
                ).with("height", Json::UInt(ch)).with("scale", Json::UInt(1));
                return ScreenshotPlan {
                    params: plain.with("clip", clip),
                    width: Some(cw),
                    height: Some(ch),
                };
            }
        },
        _ => {},
    }
    ScreenshotPlan { params: plain, width, height }
}

/// An optional number, null where there is none.
pub open spec fn opt_int(v: Option<u64>) -> JsonView {
    match v {
        Some(n) => JsonView::Int(n as int),
        None => JsonView::Null,
    }
}

/// An optional number, null where there is none.
pub fn json_opt(v: Option<u64>) -> (r: Json)
    ensures
        r@ == opt_int(v),
{
    match v {
        Some(n) => Json::UInt(n),
        None => Json::Null,
    }
}

/// How many bytes a picture in base64 holds.
pub open spec fn picture_bytes(data: Seq<char>) -> int {
    base64_bytes(utf8_len(without_trailing(data, '=')) as int)
}

/// What is told of a screenshot.
pub open spec fn screenshot_outcome(
    session_id: Seq<char>,
    answer: JsonView,
    width: Option<u64>,
    height: Option<u64>,
    max_bytes: usize,
) -> Result<JsonView, ErrorView> {
    match answer.text_at("data"@) {
        None => Err(
            err_view(ErrorKind::ProtocolError, "Page.captureScreenshot returned no data"@),
        ),
        Some(data) => {
            let bytes = picture_bytes(data);
            if bytes > max_bytes {
                Err(
                    err_view(
                        ErrorKind::PayloadLimit,
                        "screenshot is ~"@ + decimal(bytes as nat)
                            + " bytes, above the configured cap of "@ + decimal(max_bytes as nat)
                            + " bytes"@,
                    ),
                )
            } else {
                Ok(
                    JsonView::object().with("session_id"@, JsonView::Text(session_id)).with(
                        "format"@,
                        JsonView::Text("png"@),
                    ).with("data"@, JsonView::Text(data)).with("bytes"@, JsonView::Int(bytes)).with(
                        "width"@,
                        opt_int(width),
                    ).with("height"@, opt_int(height)),
                )
            }
        },
    }
}

/// What is told of a screenshot: the picture, or why there is none. A picture
/// above the cap is never handed on.
pub fn screenshot_result(
    session_id: &str,
    answer: &Json,
    width: Option<u64>,
    height: Option<u64>,
    max_bytes: usize,
) -> (r: Result<Json, WinkitError>)
    ensures
        crate::chrome::cdp::json_outcome(r) == screenshot_outcome(
            session_id@,
            answer@,
            width,
            height,
            max_bytes,
        ),
{
    match answer.text_at("data") {
        None => Err(WinkitError::protocol("Page.captureScreenshot returned no data")),
        Some(data) => {
            let bytes: usize = base64_decoded_len(&data);
            if bytes > max_bytes {
                let mut m = concat3(
                    "screenshot is ~",
                    &decimal_text(bytes as u64),
                    " bytes, above the configured cap of ",
                );
                m.append(&decimal_text(max_bytes as u64));
                m.append(" bytes");
                return Err(WinkitError::payload_limit(&m));
            }
            Ok(
                Json::object().with("session_id", Json::text(session_id)).with(
                    "format",
                    Json::text("png"),
                ).with("data", Json::Text(data)).with("bytes", Json::UInt(bytes as u64)).with(
                    "width",
                    json_opt(width),
                ).with("height", json_opt(height)),
            )
        },
    }
}

/// Is a page with this id among the targets?
pub open spec fn has_page(targets: Seq<TargetInfo>, id: Seq<char>) -> bool {
    exists|i: int|
        0 <= i < targets.len() && (#[trigger] targets[i]).kind@ == "page"@ && targets[i].id@ == id
}

fn page_listed(targets: &Vec<TargetInfo>, id: &str) -> (r: bool)
    ensures
        r == has_page(targets@, id@),
{
    let mut i: usize = 0;
    while i < targets.len()
        invariant
            i <= targets@.len(),
            forall|k: int|
                0 <= k < i ==> !((#[trigger] targets@[k]).kind@ == "page"@ && targets@[k].id@
                    == id@),
        decreases targets@.len() - i,
    {
        if same(&targets[i].kind, "page") && same(&targets[i].id, id) {
            return true;
        }
        i = i + 1;
    }
    false
}

/// The page that a session is on: the one it remembers where that still
/// exists, else the first one on the host it was started on, else the first
/// one. `None` where there is no page.
pub open spec fn own_page(
    targets: Seq<TargetInfo>,
    stored: Option<Seq<char>>,
    initial_url: Option<Seq<char>>,
) -> Option<Seq<char>> {
    if stored is Some && has_page(targets, stored->0) {
        stored
    } else {
        let by_host = match initial_url {
            Some(u) => match host_of(u) {
                Some(h) => first_wanted(targets, Some(h)),
                None => None,
            },
            None => None,
        };
        match by_host {
            Some(i) => Some(targets[i].id@),
            None => match first_wanted(targets, None) {
                Some(i) => Some(targets[i].id@),
                None => None,
            },
        }
    }
}

/// The page that a session is on; the session remembers it.
pub fn resolve_tab_id(session: &mut ManagedSession, targets: &Vec<TargetInfo>) -> (r: Result<
    String,
    WinkitError,
>)
    ensures
        match r {
            Ok(id) => own_page(
                targets@,
                opt_view(old(session).tab_target_id),
                opt_view(old(session).initial_url),
            ) == Some(id@) && opt_view(final(session).tab_target_id) == Some(id@),
            Err(e) => own_page(
                targets@,
                opt_view(old(session).tab_target_id),
                opt_view(old(session).initial_url),
            ) is None && e@ == err_view(
                ErrorKind::EndpointUnavailable,
                "no page target is available in the managed browser"@,
            ) && final(session).tab_target_id == old(session).tab_target_id,
        },
        final(session).state == old(session).state,
        final(session).endpoint == old(session).endpoint,
        same_session(*final(session), *old(session)),
        same_evidence(*final(session), *old(session)),
{
    let stored = session.tab_target_id.clone();
    match stored {
        Some(id) => {
            if page_listed(targets, &id) {
                return Ok(id);
            }
        },
        None => {},
    }
    let wanted: Option<String> = match &session.initial_url {
        Some(u) => url_host(u),
        None => None,
    };
    if wanted.is_some() {
        match find_wanted(targets, &wanted) {
            Some(i) => {
                let id = targets[i].id.clone();
                session.tab_target_id = Some(id.clone());
                return Ok(id);
            },
            None => {},
        }
    }
    let anywhere: Option<String> = None;
    match find_wanted(targets, &anywhere) {
        Some(i) => {
            let id = targets[i].id.clone();
            session.tab_target_id = Some(id.clone());
            Ok(id)
        },
        None => Err(
            WinkitError::endpoint_unavailable("no page target is available in the managed browser"),
        ),
    }
}

/// A session is only ever on a page target.
pub proof fn law_session_is_on_a_page(
    targets: Seq<TargetInfo>,
    stored: Option<Seq<char>>,
    initial_url: Option<Seq<char>>,
)
    ensures
        match own_page(targets, stored, initial_url) {
            Some(id) => has_page(targets, id),
            None => forall|i: int|
                0 <= i < targets.len() ==> (#[trigger] targets[i]).kind@ != "page"@,
        },
{
    let host = match initial_url {
        Some(u) => host_of(u),
        None => None,
    };
    lemma_first_wanted(targets, host);
    lemma_first_wanted(targets, None);
    if let Some(i) = first_wanted(targets, None) {
        assert(targets[i].kind@ == "page"@);
    } else {
        assert forall|i: int| 0 <= i < targets.len() implies (#[trigger] targets[i]).kind@
            != "page"@ by {
            assert(!is_wanted(targets[i], None));
        }
    }
    if let Some(i) = first_wanted(targets, host) {
        assert(targets[i].kind@ == "page"@);
    }
}

/// What is told of a navigation.
pub fn navigated(shown: &str, tab_id: &str) -> (r: Json)
    ensures
        r@ == JsonView::object().with("navigated"@, JsonView::Bool(true)).with(
            "url"@,
            JsonView::Text(shown@),
        ).with("target_id"@, JsonView::Text(tab_id@)),
{
    Json::object().with("navigated", Json::Bool(true)).with("url", Json::text(shown)).with(
        "target_id",
        Json::text(tab_id),
    )
}

/// One step of the readiness handshake.
#[derive(Debug, Clone, Copy, PartialEq, Eq, Structural)]
pub enum HandshakeStep {
    Connect,
    Version,
    Attach,
    PageReady,
    PageAddress,
    Detach,
    Close,
}

/// The steps of the readiness handshake, in order: the browser must answer;
/// where a target is expected it must attach and answer too; where a page was
/// asked for it must be there.
pub open spec fn handshake_steps(tab: bool, url: bool) -> Seq<HandshakeStep> {
    let head = seq![HandshakeStep::Connect, HandshakeStep::Version];
    let page = if tab {
        if url {
            seq![
                HandshakeStep::Attach,
                HandshakeStep::PageReady,
                HandshakeStep::PageAddress,
                HandshakeStep::Detach,
            ]
        } else {
            seq![HandshakeStep::Attach, HandshakeStep::PageReady, HandshakeStep::Detach]
        }
    } else {
        seq![]
    };
    head + page + seq![HandshakeStep::Close]
}

/// The steps of the readiness handshake, in order.
pub fn handshake_plan(tab: bool, url: bool) -> (r: Vec<HandshakeStep>)
    ensures
        r@ == handshake_steps(tab, url),
{
    let mut v: Vec<HandshakeStep> = Vec::new();
    v.push(HandshakeStep::Connect);
    v.push(HandshakeStep::Version);
    if tab {
        v.push(HandshakeStep::Attach);
        v.push(HandshakeStep::PageReady);
        if url {
            v.push(HandshakeStep::PageAddress);
        }
        v.push(HandshakeStep::Detach);
    }
    v.push(HandshakeStep::Close);
    assert(v@ =~= handshake_steps(tab, url));
    v
}

/// What is said where a step of the handshake takes too long.
pub open spec fn handshake_timeout_text(step: HandshakeStep) -> Seq<char> {
    match step {
        HandshakeStep::Connect => "timed out connecting to the managed DevTools endpoint"@,
        HandshakeStep::Version => "Browser.getVersion timed out"@,
        HandshakeStep::Attach => "target attach timed out"@,
        HandshakeStep::PageReady => "page readiness evaluation timed out"@,
        HandshakeStep::PageAddress => "page URL evaluation timed out"@,
        HandshakeStep::Detach => "target detach timed out"@,
        HandshakeStep::Close => "connection close timed out"@,
    }
}

/// The error of a step of the handshake that takes too long.
pub fn handshake_timeout(step: HandshakeStep) -> (r: WinkitError)
    ensures
        r@ == err_view(ErrorKind::Timeout, handshake_timeout_text(step)),
{
    WinkitError::timeout(
        match step {
            HandshakeStep::Connect => "timed out connecting to the managed DevTools endpoint",
            HandshakeStep::Version => "Browser.getVersion timed out",
            HandshakeStep::Attach => "target attach timed out",
            HandshakeStep::PageReady => "page readiness evaluation timed out",
            HandshakeStep::PageAddress => "page URL evaluation timed out",
            HandshakeStep::Detach => "target detach timed out",
            HandshakeStep::Close => "connection close timed out",
        },
    )
}

/// The address that an evaluation of a page's location gave.
pub open spec fn located(href: JsonView) -> Seq<char> {
    match href.as_text() {
        Some(s) => s,
        None => ""@,
    }
}

/// Is the page on the host that was asked for?
pub open spec fn on_host(current: Seq<char>, requested: Seq<char>) -> bool {
    match (host_of(current), host_of(requested)) {
        (Some(a), Some(b)) => plain_host(a) == plain_host(b),
        _ => false,
    }
}

/// Is the page on the host that was asked for? Where it is not, the session is
/// not ready.
pub fn check_page_host(href: &Json, requested: &str) -> (r: Result<(), WinkitError>)
    ensures
        match r {
            Ok(_) => on_host(located(href@), requested@),
            Err(e) => !on_host(located(href@), requested@) && e@ == err_view(
                ErrorKind::EndpointUnavailable,
                "the managed tab is not on the requested URL yet (current host: "@ + (
                match host_of(located(href@)) {
                    Some(h) => h,
                    None => "unknown"@,
                }) + ")"@,
            ),
        },
{
    let current: String = match href.as_text() {
        Some(s) => s.clone(),
        None => "".to_owned(),
    };
    let own = url_host(&current);
    let wanted = url_host(requested);
    let on_it = match (&own, &wanted) {
        (Some(a), Some(b)) => hosts_match(a, b),
        _ => false,
    };
    if on_it {
        return Ok(());
    }
    let host = match own {
        Some(h) => h,
        None => "unknown".to_owned(),
    };
    Err(
        WinkitError::endpoint_unavailable(
            &concat3(
                "the managed tab is not on the requested URL yet (current host: ",
                &host,
                ")",
            ),
        ),
    )
}

/// What is told of a handshake that succeeded.
pub fn handshake_result(version: &Json) -> (r: Json)
    ensures
        r@ == JsonView::object().with("verified"@, JsonView::Bool(true)).with(
            "mode"@,
            JsonView::Text("real"@),
        ).with("browser_version"@, JsonView::Text(text_or(version@, "product"@, ""@))),
{
    Json::object().with("verified", Json::Bool(true)).with("mode", Json::text("real")).with(
        "browser_version",
        Json::Text(member_text(version, "product", "")),
    )
}

/// What is told of a page's scripts counts them: as errors the observed console
/// messages whose level is `error`, as warnings those whose level is `warning`;
/// one more error raises the count of errors by one and leaves the other.
pub proof fn law_page_counts_messages_by_level(
    session_id: &str,
    snapshot: Json,
    o: Observation,
    window: u64,
    elapsed_ms: u64,
    max_text: usize,
    r: Json,
)
    requires
        call_ensures(page_summary, (session_id, &snapshot, &o, window, elapsed_ms, max_text), r),
    ensures
        r@.member("runtime"@).get("console_errors"@) == Some(
            JsonView::Int(
                o@.console.filter(|c: (Seq<char>, Seq<char>)| c.0 == "error"@).len() as int,
            ),
        ),
        r@.member("runtime"@).get("console_warnings"@) == Some(
            JsonView::Int(
                o@.console.filter(|c: (Seq<char>, Seq<char>)| c.0 == "warning"@).len() as int,
            ),
        ),
{
    lemma_page_members(session_id@, snapshot@, o@, window, elapsed_ms, max_text as int);
    lemma_level_filter(o@.console, "error"@, |c: (Seq<char>, Seq<char>)| c.0 == "error"@);
    lemma_level_filter(o@.console, "warning"@, |c: (Seq<char>, Seq<char>)| c.0 == "warning"@);
    reveal_strlit("console_errors");
    assert("console_errors"@.len() == 14);
    reveal_strlit("console_warnings");
    assert("console_warnings"@.len() == 16);
    reveal_strlit("exceptions");
    assert("exceptions"@.len() == 10);
    reveal_strlit("console_samples");
    assert("console_samples"@.len() == 15);
    reveal_strlit("exception_samples");
    assert("exception_samples"@.len() == 17);
}

/// One more error message raises the count of errors by one and no other count;
/// one more warning that of warnings; and a message of another level neither.
pub proof fn law_page_counts_one_message_more(
    session_id: &str,
    snapshot: Json,
    o: Observation,
    more: Observation,
    level: Seq<char>,
    text: Seq<char>,
    window: u64,
    elapsed_ms: u64,
    max_text: usize,
    r: Json,
    s: Json,
)
    requires
        call_ensures(page_summary, (session_id, &snapshot, &o, window, elapsed_ms, max_text), r),
        call_ensures(
            page_summary,
            (session_id, &snapshot, &more, window, elapsed_ms, max_text),
            s,
        ),
        more@.console == o@.console.push((level, text)),
    ensures
        s@.member("runtime"@).member("console_errors"@)->Int_0 == r@.member("runtime"@).member(
            "console_errors"@,
        )->Int_0 + (if level == "error"@ {
            1int
        } else {
            0
        }),
        s@.member("runtime"@).member("console_warnings"@)->Int_0 == r@.member("runtime"@).member(
            "console_warnings"@,
        )->Int_0 + (if level == "warning"@ {
            1int
        } else {
            0
        }),
{
    law_page_counts_messages_by_level(session_id, snapshot, o, window, elapsed_ms, max_text, r);
    law_page_counts_messages_by_level(session_id, snapshot, more, window, elapsed_ms, max_text, s);
    reveal(Seq::filter);
    assert(more@.console.drop_last() =~= o@.console);
}

/// Where each member of a page summary stands.
proof fn lemma_page_members(
    session_id: Seq<char>,
    snapshot: JsonView,
    o: ObservationView,
    window: u64,
    elapsed_ms: u64,
    max_text: int,
)
    ensures
        ({
            let v = page_view(session_id, snapshot, o, window, elapsed_ms, max_text);
            &&& v.member("runtime"@) == runtime_part(o)
            &&& v.member("network"@) == network_part(o)
            &&& v.member("session_id"@) == JsonView::Text(session_id)
            &&& v.member("title"@) == JsonView::Text(clipped(text_or(snapshot, "title"@, ""@), 200))
            &&& v.member("url"@) == JsonView::Text(shown_url(text_or(snapshot, "url"@, ""@)))
            &&& v.member("ready_state"@) == JsonView::Text(text_or(snapshot, "readyState"@, ""@))
            &&& v.member("headings"@) == text_array(
                clipped_texts(items_or_none(snapshot.array_at("headings"@)), 120),
            )
            &&& v.member("landmarks"@) == text_array(
                clipped_texts(items_or_none(snapshot.array_at("landmarks"@)), 120),
            )
            &&& v.member("form_labels"@) == text_array(
                clipped_texts(items_or_none(snapshot.array_at("labels"@)), 120),
            )
            &&& v.member("visible_text_chars"@) == JsonView::Int(
                uint_or_zero(snapshot, "textLength"@) as int,
            )
            &&& v.member("text_snippet"@) == JsonView::Text(
                clipped(text_or(snapshot, "textSnippet"@, ""@), max_text),
            )
            &&& v.member("observed_ms"@) == JsonView::Int(window as int)
            &&& v.member("elapsed_ms"@) == JsonView::Int(elapsed_ms as int)
        }),
{
    reveal_strlit("session_id");
    assert("session_id"@.len() == 10);
    reveal_strlit("title");
    assert("title"@.len() == 5);
    reveal_strlit("url");
    assert("url"@.len() == 3);
    reveal_strlit("ready_state");
    assert("ready_state"@.len() == 11);
    reveal_strlit("headings");
    assert("headings"@.len() == 8);
    reveal_strlit("landmarks");
    assert("landmarks"@.len() == 9);
    reveal_strlit("form_labels");
    assert("form_labels"@.len() == 11);
    reveal_strlit("visible_text_chars");
    assert("visible_text_chars"@.len() == 18);
    reveal_strlit("text_snippet");
    assert("text_snippet"@.len() == 12);
    reveal_strlit("runtime");
    assert("runtime"@.len() == 7);
    reveal_strlit("network");
    assert("network"@.len() == 7);
    reveal_strlit("observed_ms");
    assert("observed_ms"@.len() == 11);
    reveal_strlit("elapsed_ms");
    assert("elapsed_ms"@.len() == 10);
    reveal_strlit("limitations");
    assert("limitations"@.len() == 11);
    assert("session_id"@[0] != "elapsed_ms"@[0]);
    assert("ready_state"@[0] != "form_labels"@[0]);
    assert("ready_state"@[0] != "observed_ms"@[0]);
    assert("ready_state"@[0] != "limitations"@[0]);
    assert("form_labels"@[0] != "observed_ms"@[0]);
    assert("form_labels"@[0] != "limitations"@[0]);
    assert("runtime"@[0] != "network"@[0]);
    assert("observed_ms"@[0] != "limitations"@[0]);
}

/// A page summary tells what the page's own snapshot says: its title, its address
/// without query and fragment, its state, and the beginning of its text, no longer
/// than asked for.
pub proof fn law_page_summary_tells_the_page(
    session_id: &str,
    snapshot: Json,
    o: Observation,
    window: u64,
    elapsed_ms: u64,
    max_text: usize,
    r: Json,
)
    requires
        call_ensures(page_summary, (session_id, &snapshot, &o, window, elapsed_ms, max_text), r),
    ensures
        r@.text_at("session_id"@) == Some(session_id@),
        r@.get("observed_ms"@) == Some(JsonView::Int(window as int)),
        r@.get("elapsed_ms"@) == Some(JsonView::Int(elapsed_ms as int)),
        snapshot@.text_at("readyState"@) is Some ==> r@.text_at("ready_state"@)
            == snapshot@.text_at("readyState"@),
        snapshot@.text_at("title"@) matches Some(t) ==> r@.text_at("title"@) == Some(
            t.take(if t.len() < 200 {
                t.len() as int
            } else {
                200
            }),
        ),
        snapshot@.text_at("textSnippet"@) matches Some(t) ==> r@.text_at("text_snippet"@) == Some(
            t.take(if t.len() < max_text {
                t.len() as int
            } else {
                max_text as int
            }),
        ),
        snapshot@.uint_at("textLength"@) matches Some(n) ==> r@.get("visible_text_chars"@) == Some(
            JsonView::Int(n as int),
        ),
        snapshot@.text_at("url"@) matches Some(u) ==> r@.text_at("url"@) is Some && {
            let shown = r@.text_at("url"@)->0;
            &&& shown.is_prefix_of(u)
            &&& shown.len() <= 200
            &&& !shown.contains('?') && !shown.contains('#')
            &&& shown.len() == 200 || shown == u || u[shown.len() as int] == '?'
                || u[shown.len() as int] == '#'
        },
{
    lemma_page_members(session_id@, snapshot@, o@, window, elapsed_ms, max_text as int);
    match snapshot@.text_at("url"@) {
        Some(u) => {
            law_shown_urls_are_bare(u, '?');
            law_shown_urls_are_bare(u, '#');
        },
        None => {},
    }
    match snapshot@.text_at("title"@) {
        Some(t) => {
            assert(t.take(t.len() as int) =~= t);
        },
        None => {},
    }
    match snapshot@.text_at("textSnippet"@) {
        Some(t) => {
            assert(t.take(t.len() as int) =~= t);
        },
        None => {},
    }
}

/// A page summary lists every text among the page's headings, landmarks and
/// labels, in order, each cut to its first 120 characters.
pub proof fn law_page_lists_are_complete(
    session_id: &str,
    snapshot: Json,
    o: Observation,
    window: u64,
    elapsed_ms: u64,
    max_text: usize,
    r: Json,
    items: Seq<JsonView>,
)
    requires
        call_ensures(page_summary, (session_id, &snapshot, &o, window, elapsed_ms, max_text), r),
        forall|i: int| 0 <= i < items.len() ==> #[trigger] items[i] is Text,
    ensures
        snapshot@.array_at("headings"@) == Some(items) ==> lists_beginnings(
            r@.member("headings"@),
            items,
        ),
        snapshot@.array_at("landmarks"@) == Some(items) ==> lists_beginnings(
            r@.member("landmarks"@),
            items,
        ),
        snapshot@.array_at("labels"@) == Some(items) ==> lists_beginnings(
            r@.member("form_labels"@),
            items,
        ),
{
    lemma_page_members(session_id@, snapshot@, o@, window, elapsed_ms, max_text as int);
    lemma_beginnings(items);
}

/// Does the list hold the first 120 characters of each text?
pub open spec fn lists_beginnings(list: JsonView, items: Seq<JsonView>) -> bool {
    &&& list is Array
    &&& list->Array_0.len() == items.len()
    &&& forall|i: int|
        0 <= i < items.len() ==> (#[trigger] list->Array_0[i]) is Text
            && list->Array_0[i]->Text_0.is_prefix_of(items[i]->Text_0) && list->Array_0[i]->Text_0.len()
            == (if items[i]->Text_0.len() < 120 {
            items[i]->Text_0.len() as int
        } else {
            120
        })
}

proof fn lemma_beginnings(items: Seq<JsonView>)
    requires
        forall|i: int| 0 <= i < items.len() ==> #[trigger] items[i] is Text,
    ensures
        clipped_texts(items, 120).len() == items.len(),
        lists_beginnings(text_array(clipped_texts(items, 120)), items),
    decreases items.len(),
{
    if items.len() > 0 {
        let rest = items.drop_last();
        assert forall|i: int| 0 <= i < rest.len() implies #[trigger] rest[i] is Text by {
            assert(rest[i] == items[i]);
        }
        lemma_beginnings(rest);
        assert(items[items.len() - 1] is Text);
        let told = clipped_texts(items, 120);
        let before = clipped_texts(rest, 120);
        assert(told =~= before.push(clipped(items.last()->Text_0, 120)));
        let list = text_array(told)->Array_0;
        assert forall|i: int| 0 <= i < items.len() implies (#[trigger] list[i]) is Text
            && list[i]->Text_0.is_prefix_of(items[i]->Text_0) && list[i]->Text_0.len() == (
        if items[i]->Text_0.len() < 120 {
            items[i]->Text_0.len() as int
        } else {
            120
        }) by {
            assert(list[i] == JsonView::Text(told[i]));
            if i < rest.len() {
                assert(text_array(before)->Array_0[i] == JsonView::Text(before[i]));
                assert(told[i] == before[i]);
            }
        }
    }
}

/// Every request counts, a failed one as failed; the first ten failed ones are
/// told with their method and their error, and the first ten messages with their
/// level.
pub proof fn law_page_tells_the_failures(
    session_id: &str,
    snapshot: Json,
    o: Observation,
    window: u64,
    elapsed_ms: u64,
    max_text: usize,
    r: Json,
)
    requires
        call_ensures(page_summary, (session_id, &snapshot, &o, window, elapsed_ms, max_text), r),
    ensures
        r@.member("network"@).get("total_requests"@) == Some(
            JsonView::Int(o@.requests.len() as int),
        ),
        r@.member("network"@).get("failed"@) == Some(
            JsonView::Int(o@.requests.filter(|q: RequestView| q.failed).len() as int),
        ),
        r@.member("network"@).array_at("failures"@) is Some,
        ({
            let failing = o@.requests.filter(|q: RequestView| q.failed);
            let told = r@.member("network"@).array_at("failures"@)->0;
            &&& told.len() == (if failing.len() < 10 {
                failing.len() as int
            } else {
                10
            })
            &&& forall|i: int|
                0 <= i < told.len() ==> (#[trigger] told[i]).text_at("method"@) == Some(
                    failing[i].method,
                ) && told[i].text_at("error"@) == Some(
                    if failing[i].error_text is Some {
                        failing[i].error_text->0
                    } else {
                        ""@
                    },
                ) && told[i].text_at("url"@) == Some(shown_url(failing[i].url))
        }),
        r@.member("runtime"@).array_at("console_samples"@) is Some,
        ({
            let told = r@.member("runtime"@).array_at("console_samples"@)->0;
            &&& told.len() == (if o@.console.len() < 10 {
                o@.console.len() as int
            } else {
                10
            })
            &&& forall|i: int|
                0 <= i < told.len() ==> (#[trigger] told[i]).text_at("level"@) == Some(
                    o@.console[i].0,
                ) && told[i].text_at("text"@) is Some && told[i].text_at("text"@)->0.is_prefix_of(
                    o@.console[i].1,
                ) && told[i].text_at("text"@)->0.len() == (if o@.console[i].1.len() < 200 {
                    o@.console[i].1.len() as int
                } else {
                    200
                })
        }),
{
    lemma_page_members(session_id@, snapshot@, o@, window, elapsed_ms, max_text as int);
    lemma_failed_are_filtered(o@.requests);
    reveal_strlit("console_errors");
    assert("console_errors"@.len() == 14);
    reveal_strlit("console_warnings");
    assert("console_warnings"@.len() == 16);
    reveal_strlit("exceptions");
    assert("exceptions"@.len() == 10);
    reveal_strlit("console_samples");
    assert("console_samples"@.len() == 15);
    reveal_strlit("exception_samples");
    assert("exception_samples"@.len() == 17);
    reveal_strlit("total_requests");
    assert("total_requests"@.len() == 14);
    reveal_strlit("failed");
    assert("failed"@.len() == 6);
    reveal_strlit("failures");
    assert("failures"@.len() == 8);
    reveal_strlit("url");
    assert("url"@.len() == 3);
    reveal_strlit("method");
    assert("method"@.len() == 6);
    reveal_strlit("error");
    assert("error"@.len() == 5);
    reveal_strlit("level");
    assert("level"@.len() == 5);
    reveal_strlit("text");
    assert("text"@.len() == 4);
    assert("error"@[0] != "level"@[0]);
    let failing = o@.requests.filter(|q: RequestView| q.failed);
    let told = failure_entries(o@.requests);
    assert(told.len() == (if failing.len() < 10 {
        failing.len() as int
    } else {
        10
    }));
    assert forall|i: int| 0 <= i < told.len() implies (#[trigger] told[i]) == failure_entry(
        failing[i],
    ) by {
        assert(failing[i] == o@.requests[failed_places(o@.requests)[i]]);
    }
    let said = console_entries(o@.console);
    assert forall|i: int| 0 <= i < said.len() implies (#[trigger] said[i]) == console_entry(
        o@.console[i],
    ) by {}
}

/// A page is watched for as long as was asked, or as is configured, and never for more
/// than half a minute.
pub proof fn law_pages_are_watched_as_asked(requested: Option<u64>, configured: u64, r: u64)
    requires
        call_ensures(observe_window, (requested, configured), r),
    ensures
        r <= 30000,
        requested matches Some(ms) ==> (ms <= 30000 ==> r == ms),
        requested is None && configured <= 30000 ==> r == configured,
        requested matches Some(ms) ==> (ms > 30000 ==> r == 30000),
        requested is None && configured > 30000 ==> r == 30000,
{
}

/// A picture is never larger than allowed in either direction: a larger page is cut
/// from its upper left corner, at its own scale; a smaller one is taken whole.
pub proof fn law_pictures_are_cut_to_size(
    width: u64,
    height: u64,
    max_dim: u64,
    r: ScreenshotPlan,
)
    requires
        call_ensures(plan_screenshot, (Some(width), Some(height), max_dim), r),
    ensures
        r.params@.text_at("format"@) == Some("png"@),
        r.params@.bool_at("captureBeyondViewport"@) == Some(false),
        r.width is Some && r.height is Some,
        width <= max_dim ==> r.width->0 == width,
        width > max_dim ==> r.width->0 == max_dim,
        height <= max_dim ==> r.height->0 == height,
        height > max_dim ==> r.height->0 == max_dim,
        r.params@.get("clip"@) is Some <==> width > max_dim || height > max_dim,
        r.params@.get("clip"@) matches Some(c) ==> {
            &&& c.uint_at("x"@) == Some(0u64)
            &&& c.uint_at("y"@) == Some(0u64)
            &&& c.uint_at("width"@) == r.width
            &&& c.uint_at("height"@) == r.height
            &&& c.uint_at("scale"@) == Some(1u64)
        },
{
    reveal_strlit("format");
    assert("format"@.len() == 6);
    reveal_strlit("captureBeyondViewport");
    assert("captureBeyondViewport"@.len() == 21);
    reveal_strlit("clip");
    assert("clip"@.len() == 4);
    reveal_strlit("x");
    assert("x"@.len() == 1);
    reveal_strlit("y");
    assert("y"@.len() == 1);
    reveal_strlit("width");
    assert("width"@.len() == 5);
    reveal_strlit("height");
    assert("height"@.len() == 6);
    reveal_strlit("scale");
    assert("scale"@.len() == 5);
    assert("format"@[0] != "height"@[0]);
    assert("x"@[0] != "y"@[0]);
    assert("width"@[0] != "scale"@[0]);
}

/// A picture is handed on as it came, with its size, where it is not above the cap;
/// without data there is none.
pub proof fn law_pictures_are_handed_on(
    session_id: &str,
    answer: Json,
    width: Option<u64>,
    height: Option<u64>,
    max_bytes: usize,
    r: Result<Json, WinkitError>,
)
    requires
        call_ensures(screenshot_result, (session_id, &answer, width, height, max_bytes), r),
    ensures
        r is Ok <==> answer@.text_at("data"@) is Some && picture_bytes(
            answer@.text_at("data"@)->0,
        ) <= max_bytes,
        r is Err && answer@.text_at("data"@) is None ==> r->Err_0.kind == ErrorKind::ProtocolError,
        r is Err && answer@.text_at("data"@) is Some ==> r->Err_0.kind == ErrorKind::PayloadLimit,
        r matches Ok(j) ==> {
            &&& j@.text_at("session_id"@) == Some(session_id@)
            &&& j@.text_at("format"@) == Some("png"@)
            &&& j@.text_at("data"@) == answer@.text_at("data"@)
            &&& j@.get("bytes"@) == Some(
                JsonView::Int(picture_bytes(answer@.text_at("data"@)->0)),
            )
            &&& j@.uint_at("width"@) == width
            &&& j@.uint_at("height"@) == height
        },
{
    reveal_strlit("session_id");
    assert("session_id"@.len() == 10);
    reveal_strlit("format");
    assert("format"@.len() == 6);
    reveal_strlit("data");
    assert("data"@.len() == 4);
    reveal_strlit("bytes");
    assert("bytes"@.len() == 5);
    reveal_strlit("width");
    assert("width"@.len() == 5);
    reveal_strlit("height");
    assert("height"@.len() == 6);
    assert("format"@[0] != "height"@[0]);
    assert("bytes"@[0] != "width"@[0]);
}

/// A session stays on the page that it remembers while that is there. Else it goes to
/// the first page on the host that it was started on, and only where there is none to
/// the first page of all.
pub proof fn law_sessions_find_their_page(
    targets: Seq<TargetInfo>,
    stored: Option<Seq<char>>,
    initial_url: Option<Seq<char>>,
    i: int,
)
    requires
        0 <= i < targets.len(),
        targets[i].kind@ == "page"@,
    ensures
        stored == Some(targets[i].id@) ==> own_page(targets, stored, initial_url) == stored,
        stored is None && (forall|k: int|
            0 <= k < i ==> (#[trigger] targets[k]).kind@ != "page"@) && (initial_url is None || (
        forall|k: int| 0 <= k < targets.len() ==> !on_host((#[trigger] targets[k]).url@, initial_url->0)))
            ==> own_page(targets, stored, initial_url) == Some(targets[i].id@),
        stored is None && initial_url is Some && on_host(targets[i].url@, initial_url->0) && (
        forall|k: int|
            0 <= k < i ==> (#[trigger] targets[k]).kind@ != "page"@ || !on_host(
                targets[k].url@,
                initial_url->0,
            )) ==> own_page(targets, stored, initial_url) == Some(targets[i].id@),
{
    if stored == Some(targets[i].id@) {
        assert(has_page(targets, targets[i].id@));
    }
    if stored is None {
        let host = match initial_url {
            Some(u) => host_of(u),
            None => None,
        };
        if host is Some {
            assert forall|k: int| 0 <= k < targets.len() implies is_wanted(
                #[trigger] targets[k],
                host,
            ) == (targets[k].kind@ == "page"@ && on_host(targets[k].url@, initial_url->0)) by {}
            if on_host(targets[i].url@, initial_url->0) && (forall|k: int|
                0 <= k < i ==> (#[trigger] targets[k]).kind@ != "page"@ || !on_host(
                    targets[k].url@,
                    initial_url->0,
                )) {
                lemma_first_wanted_is(targets, host, i);
            }
            lemma_first_wanted(targets, host);
        }
        if forall|k: int| 0 <= k < i ==> (#[trigger] targets[k]).kind@ != "page"@ {
            lemma_first_wanted_is(targets, None, i);
        }
    }
}

proof fn lemma_first_wanted_is(targets: Seq<TargetInfo>, host: Option<Seq<char>>, i: int)
    requires
        0 <= i < targets.len(),
        is_wanted(targets[i], host),
        forall|k: int| 0 <= k < i ==> !is_wanted(#[trigger] targets[k], host),
    ensures
        first_wanted(targets, host) == Some(i),
    decreases targets.len(),
{
    let rest = targets.drop_last();
    if i < rest.len() {
        assert(rest[i] == targets[i]);
        assert forall|k: int| 0 <= k < i implies !is_wanted(#[trigger] rest[k], host) by {
            assert(rest[k] == targets[k]);
        }
        lemma_first_wanted_is(rest, host, i);
    } else {
        lemma_first_wanted(rest, host);
        if let Some(j) = first_wanted(rest, host) {
            assert(rest[j] == targets[j]);
        }
    }
}

/// A handshake begins with connecting and asking the browser, and ends with closing.
/// A page is attached to, and left again, only where there is one; its address is
/// asked for only where one was.
pub proof fn law_handshakes_have_their_steps(tab: bool, url: bool, r: Vec<HandshakeStep>)
    requires
        call_ensures(handshake_plan, (tab, url), r),
    ensures
        r@.len() >= 3,
        r@[0] == HandshakeStep::Connect,
        r@[1] == HandshakeStep::Version,
        r@.last() == HandshakeStep::Close,
        r@.contains(HandshakeStep::Attach) <==> tab,
        r@.contains(HandshakeStep::PageReady) <==> tab,
        r@.contains(HandshakeStep::Detach) <==> tab,
        r@.contains(HandshakeStep::PageAddress) <==> tab && url,
        tab ==> r@[2] == HandshakeStep::Attach && r@[3] == HandshakeStep::PageReady && r@[r@.len()
            - 2] == HandshakeStep::Detach,
{
    if tab {
        assert(r@[2] == HandshakeStep::Attach && r@[3] == HandshakeStep::PageReady);
        assert(r@[r@.len() - 2] == HandshakeStep::Detach);
        if url {
            assert(r@[4] == HandshakeStep::PageAddress);
        }
    }
}

/// A page is let through exactly where it and what was asked for are on hosts of the
/// same name; else the error names the host that it is on.
pub proof fn law_pages_are_on_their_host(href: Json, requested: &str, r: Result<(), WinkitError>)
    requires
        call_ensures(check_page_host, (&href, requested), r),
    ensures
        ({
            let own = match href@.as_text() {
                Some(s) => host_of(s),
                None => host_of(""@),
            };
            let wanted = host_of(requested@);
            &&& r is Ok <==> own is Some && wanted is Some && plain_host(own->0) == plain_host(
                wanted->0,
            )
            &&& r is Err ==> r->Err_0.kind == ErrorKind::EndpointUnavailable
            &&& r is Err && own is Some ==> r->Err_0.message@
                == "the managed tab is not on the requested URL yet (current host: "@ + own->0
                + ")"@
        }),
{
}

/// A step of a handshake that takes too long is a timeout, and its words tell the step.
pub proof fn law_late_steps_are_timeouts(step: HandshakeStep, r: WinkitError)
    requires
        call_ensures(handshake_timeout, (step,), r),
    ensures
        r.kind == ErrorKind::Timeout,
        r.message@ == "timed out connecting to the managed DevTools endpoint"@ <==> step
            == HandshakeStep::Connect,
        r.message@ == "Browser.getVersion timed out"@ <==> step == HandshakeStep::Version,
        r.message@ == "target attach timed out"@ <==> step == HandshakeStep::Attach,
        r.message@ == "page readiness evaluation timed out"@ <==> step == HandshakeStep::PageReady,
        r.message@ == "page URL evaluation timed out"@ <==> step == HandshakeStep::PageAddress,
        r.message@ == "target detach timed out"@ <==> step == HandshakeStep::Detach,
        r.message@ == "connection close timed out"@ <==> step == HandshakeStep::Close,
{
    reveal_strlit("timed out connecting to the managed DevTools endpoint");
    assert("timed out connecting to the managed DevTools endpoint"@.len() == 53);
    reveal_strlit("Browser.getVersion timed out");
    assert("Browser.getVersion timed out"@.len() == 28);
    reveal_strlit("target attach timed out");
    assert("target attach timed out"@.len() == 23);
    reveal_strlit("page readiness evaluation timed out");
    assert("page readiness evaluation timed out"@.len() == 35);
    reveal_strlit("page URL evaluation timed out");
    assert("page URL evaluation timed out"@.len() == 29);
    reveal_strlit("target detach timed out");
    assert("target detach timed out"@.len() == 23);
    reveal_strlit("connection close timed out");
    assert("connection close timed out"@.len() == 26);
    assert("target attach timed out"@[7] != "target detach timed out"@[7]);
}

} // verus!
