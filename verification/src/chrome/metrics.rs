//! What is measured of a page: how it is collected, and what it adds up to.

use crate::chrome::cdp::CdpEvent;
use crate::chrome::session::{
    console_views, empty_observation, event_views, items_or_none, lists_metrics, metrics_of,
    observed_all, parse_dom_counters, parse_heap, parse_metrics, parse_page_state, process_events,
    request_views, text_or, uint_or_zero, DomCounters, HeapSample, Observation, PageState,
    RequestObs, RequestView, ConsoleObs,
};
use crate::json::{Json, JsonView};
use crate::order::{comes_before, is_stable_order, key_lt, keys_view, stable_order};
use crate::text::{opt_view, same, views};
use vstd::prelude::*;
use vstd::string::*;

verus! {

/// Data collected from one page.
pub struct TabMetricsBundle {
    pub tab_id: String,
    pub metrics_t0: Vec<(String, Json)>,
    pub metrics_t1: Vec<(String, Json)>,
    pub heap: Option<HeapSample>,
    pub heap_after: Option<HeapSample>,
    pub dom: Option<DomCounters>,
    pub page_state: Option<PageState>,
    pub observe_ms: u64,
    pub observation: Observation,
}

/// One step of the collection.
#[derive(Debug, Clone, Copy, PartialEq, Eq, Structural)]
pub enum CollectStep {
    EnablePerformance,
    MetricsBefore,
    Counters,
    HeapBefore,
    State,
    EnableNetwork,
    EnableRuntime,
    Observe,
    DisableNetwork,
    DisableRuntime,
    MetricsAfter,
    HeapAfter,
    Detach,
}

/// The steps of a collection, in order. Network and runtime are watched only
/// where there is a window to watch them in, and are switched off again.
pub open spec fn collect_steps(observe_ms: u64) -> Seq<CollectStep> {
    let head = seq![
        CollectStep::EnablePerformance,
        CollectStep::MetricsBefore,
        CollectStep::Counters,
        CollectStep::HeapBefore,
        CollectStep::State,
    ];
    let tail = seq![CollectStep::MetricsAfter, CollectStep::HeapAfter, CollectStep::Detach];
    if observe_ms > 0 {
        head + seq![
            CollectStep::EnableNetwork,
            CollectStep::EnableRuntime,
            CollectStep::Observe,
            CollectStep::DisableNetwork,
            CollectStep::DisableRuntime,
        ] + tail
    } else {
        head + tail
    }
}

/// The steps of a collection, in order.
pub fn collect_plan(observe_ms: u64) -> (r: Vec<CollectStep>)
    ensures
        r@ == collect_steps(observe_ms),
{
    let mut v: Vec<CollectStep> = Vec::new();
    v.push(CollectStep::EnablePerformance);
    v.push(CollectStep::MetricsBefore);
    v.push(CollectStep::Counters);
    v.push(CollectStep::HeapBefore);
    v.push(CollectStep::State);
    if observe_ms > 0 {
        v.push(CollectStep::EnableNetwork);
        v.push(CollectStep::EnableRuntime);
        v.push(CollectStep::Observe);
        v.push(CollectStep::DisableNetwork);
        v.push(CollectStep::DisableRuntime);
    }
    v.push(CollectStep::MetricsAfter);
    v.push(CollectStep::HeapAfter);
    v.push(CollectStep::Detach);
    assert(v@ =~= collect_steps(observe_ms));
    v
}

/// What is switched on for an observation is switched off again, after it.
pub proof fn law_observation_is_switched_off(observe_ms: u64)
    requires
        observe_ms > 0,
    ensures
        exists|on: int, watch: int, off: int|
            0 <= on < watch < off < collect_steps(observe_ms).len() && #[trigger] collect_steps(
                observe_ms,
            )[on] == CollectStep::EnableNetwork && #[trigger] collect_steps(observe_ms)[watch]
                == CollectStep::Observe && #[trigger] collect_steps(observe_ms)[off]
                == CollectStep::DisableNetwork,
        exists|on: int, watch: int, off: int|
            0 <= on < watch < off < collect_steps(observe_ms).len() && #[trigger] collect_steps(
                observe_ms,
            )[on] == CollectStep::EnableRuntime && #[trigger] collect_steps(observe_ms)[watch]
                == CollectStep::Observe && #[trigger] collect_steps(observe_ms)[off]
                == CollectStep::DisableRuntime,
        collect_steps(observe_ms).last() == CollectStep::Detach,
{
    let s = collect_steps(observe_ms);
    assert(s[5] == CollectStep::EnableNetwork);
    assert(s[6] == CollectStep::EnableRuntime);
    assert(s[7] == CollectStep::Observe);
    assert(s[8] == CollectStep::DisableNetwork);
    assert(s[9] == CollectStep::DisableRuntime);
}

/// Is `p` the state that `v` describes?
pub open spec fn is_page_state(p: Option<PageState>, v: Option<JsonView>) -> bool {
    match (p, v) {
        (Some(s), Some(j)) => s.ready_state@ == text_or(j, "ready"@, ""@) && s.title@ == text_or(
            j,
            "title"@,
            ""@,
        ) && s.url@ == text_or(j, "url"@, ""@),
        (None, None) => true,
        _ => false,
    }
}

/// The heap sizes in a value.
pub open spec fn heap_of(v: Option<JsonView>) -> Option<HeapSample> {
    match v {
        Some(j) => Some(
            HeapSample {
                used: uint_or_zero(j, "used"@),
                total: uint_or_zero(j, "total"@),
                limit: uint_or_zero(j, "limit"@),
            },
        ),
        None => None,
    }
}

/// The counters in a value.
pub open spec fn dom_of(v: Option<JsonView>) -> Option<DomCounters> {
    match v {
        Some(j) => Some(
            DomCounters {
                documents: uint_or_zero(j, "documents"@),
                nodes: uint_or_zero(j, "nodes"@),
                js_event_listeners: uint_or_zero(j, "jsEventListeners"@),
            },
        ),
        None => None,
    }
}

/// The metrics in a value; none where there is no value.
pub open spec fn metrics_in(v: Option<JsonView>) -> Map<Seq<char>, JsonView> {
    match v {
        Some(j) => metrics_of(items_or_none(j.array_at("metrics"@))),
        None => Map::empty(),
    }
}

/// An answer taken by its view.
pub open spec fn answer_view(v: Option<Json>) -> Option<JsonView> {
    match v {
        Some(j) => Some(j@),
        None => None,
    }
}

impl TabMetricsBundle {
    /// A bundle without any data.
    pub fn new(tab_id: String) -> (r: Self)
        ensures
            r.tab_id == tab_id,
            r.metrics_t0@.len() == 0,
            r.metrics_t1@.len() == 0,
            r.heap is None,
            r.heap_after is None,
            r.dom is None,
            r.page_state is None,
            r.observe_ms == 0,
            r.observation@ == empty_observation(),
    {
        TabMetricsBundle {
            tab_id,
            metrics_t0: Vec::new(),
            metrics_t1: Vec::new(),
            heap: None,
            heap_after: None,
            dom: None,
            page_state: None,
            observe_ms: 0,
            observation: Observation::new(),
        }
    }

    /// Takes in the answer to a step; `None` where the step failed, which
    /// leaves only that step's data out. Steps that only switch something on
    /// or off change nothing.
    pub fn absorb(&mut self, step: CollectStep, answer: Option<Json>)
        ensures
            final(self).tab_id == old(self).tab_id,
            final(self).observe_ms == old(self).observe_ms,
            final(self).observation == old(self).observation,
            step == CollectStep::MetricsBefore ==> lists_metrics(
                final(self).metrics_t0@,
                metrics_in(answer_view(answer)),
            ),
            step != CollectStep::MetricsBefore ==> final(self).metrics_t0 == old(self).metrics_t0,
            step == CollectStep::MetricsAfter ==> lists_metrics(
                final(self).metrics_t1@,
                metrics_in(answer_view(answer)),
            ),
            step != CollectStep::MetricsAfter ==> final(self).metrics_t1 == old(self).metrics_t1,
            final(self).dom == (if step == CollectStep::Counters {
                dom_of(answer_view(answer))
            } else {
                old(self).dom
            }),
            final(self).heap == (if step == CollectStep::HeapBefore {
                heap_of(answer_view(answer))
            } else {
                old(self).heap
            }),
            final(self).heap_after == (if step == CollectStep::HeapAfter {
                heap_of(answer_view(answer))
            } else {
                old(self).heap_after
            }),
            step == CollectStep::State ==> is_page_state(
                final(self).page_state,
                answer_view(answer),
            ),
            step != CollectStep::State ==> final(self).page_state == old(self).page_state,
    {
        match step {
            CollectStep::MetricsBefore => {
                self.metrics_t0 = match &answer {
                    Some(v) => parse_metrics(v),
                    None => Vec::new(),
                };
            },
            CollectStep::MetricsAfter => {
                self.metrics_t1 = match &answer {
                    Some(v) => parse_metrics(v),
                    None => Vec::new(),
                };
            },
            CollectStep::Counters => {
                self.dom = match &answer {
                    Some(v) => Some(parse_dom_counters(v)),
                    None => None,
                };
            },
            CollectStep::HeapBefore => {
                self.heap = match &answer {
                    Some(v) => Some(parse_heap(v)),
                    None => None,
                };
            },
            CollectStep::HeapAfter => {
                self.heap_after = match &answer {
                    Some(v) => Some(parse_heap(v)),
                    None => None,
                };
            },
            CollectStep::State => {
                self.page_state = match &answer {
                    Some(v) => Some(parse_page_state(v)),
                    None => None,
                };
            },
            _ => {},
        }
    }

    /// Takes in the events of an observation window.
    pub fn absorb_events(&mut self, observe_ms: u64, events: Vec<CdpEvent>)
        ensures
            final(self).observe_ms == observe_ms,
            final(self).observation@ == observed_all(old(self).observation@, event_views(events@)),
            final(self).tab_id == old(self).tab_id,
            final(self).metrics_t0 == old(self).metrics_t0,
            final(self).metrics_t1 == old(self).metrics_t1,
            final(self).heap == old(self).heap,
            final(self).heap_after == old(self).heap_after,
            final(self).dom == old(self).dom,
            final(self).page_state == old(self).page_state,
    {
        self.observe_ms = observe_ms;
        process_events(&mut self.observation, events);
    }
}

/// Division that rounds towards zero.
pub open spec fn towards_zero(n: int, d: int) -> int {
    if n >= 0 {
        n / d
    } else {
        -((-n) / d)
    }
}

/// Growth per second, rounded towards zero, over a time in milliseconds.
pub open spec fn per_second(delta: int, ms: u64) -> Option<int> {
    if ms > 0 {
        Some(towards_zero(delta * 1000, ms as int))
    } else {
        None
    }
}

/// Can the growth between two sizes be held, and a thousand times it?
pub open spec fn growth_fits(a: u64, b: u64) -> bool {
    -9_223_372_036_854_775_000 <= (b - a) * 1000 <= 9_223_372_036_854_775_000
}

/// The growth from `a` to `b`.
pub fn growth(a: u64, b: u64) -> (r: i64)
    requires
        growth_fits(a, b),
    ensures
        r == b - a,
{
    if b >= a {
        (b - a) as i64
    } else {
        -((a - b) as i64)
    }
}

/// Growth per second, rounded towards zero, over a time in milliseconds.
pub fn growth_rate(delta: i64, ms: u64) -> (r: Option<i64>)
    requires
        -9_223_372_036_854_775_000 <= delta * 1000 <= 9_223_372_036_854_775_000,
    ensures
        match r {
            Some(v) => per_second(delta as int, ms) == Some(v as int),
            None => per_second(delta as int, ms) is None,
        },
{
    if ms == 0 {
        return None;
    }
    let size: u64 = if delta >= 0 {
        delta as u64
    } else {
        (-delta) as u64
    };
    let scaled: u64 = size * 1000;
    let q: u64 = scaled / ms;
    assert(q <= scaled) by (nonlinear_arith)
        requires
            q == scaled / ms,
            ms > 0,
    ;
    if delta >= 0 {
        Some(q as i64)
    } else {
        Some(-(q as i64))
    }
}

/// Memory figures of a page.
#[derive(Debug, Clone, Copy, PartialEq, Eq, Structural)]
pub struct MemoryInfo {
    pub js_heap_used_bytes: Option<u64>,
    pub js_heap_total_bytes: Option<u64>,
    pub js_heap_limit_bytes: Option<u64>,
    pub dom_documents: Option<u64>,
    pub dom_nodes: Option<u64>,
    pub js_event_listeners: Option<u64>,
    pub growth_bytes: Option<i64>,
    pub growth_rate_bytes_per_second: Option<i64>,
}

/// The memory figures of a bundle: the sizes before, the counters, and the
/// growth between the two samples where both were taken.
pub fn to_memory(bundle: &TabMetricsBundle) -> (r: MemoryInfo)
    requires
        bundle.heap is Some && bundle.heap_after is Some ==> growth_fits(
            bundle.heap->0.used,
            bundle.heap_after->0.used,
        ),
    ensures
        r.js_heap_used_bytes == (match bundle.heap {
            Some(h) => Some(h.used),
            None => None,
        }),
        r.js_heap_total_bytes == (match bundle.heap {
            Some(h) => Some(h.total),
            None => None,
        }),
        r.js_heap_limit_bytes == (match bundle.heap {
            Some(h) => Some(h.limit),
            None => None,
        }),
        r.dom_documents == (match bundle.dom {
            Some(d) => Some(d.documents),
            None => None,
        }),
        r.dom_nodes == (match bundle.dom {
            Some(d) => Some(d.nodes),
            None => None,
        }),
        r.js_event_listeners == (match bundle.dom {
            Some(d) => Some(d.js_event_listeners),
            None => None,
        }),
        match (bundle.heap, bundle.heap_after) {
            (Some(a), Some(b)) => {
                &&& r.growth_bytes matches Some(g) && g == b.used - a.used
                &&& match r.growth_rate_bytes_per_second {
                    Some(v) => per_second(b.used - a.used, bundle.observe_ms) == Some(v as int),
                    None => per_second(b.used - a.used, bundle.observe_ms) is None,
                }
            },
            _ => r.growth_bytes is None && r.growth_rate_bytes_per_second is None,
        },
{
    let (growth_bytes, growth_rate_bytes_per_second): (Option<i64>, Option<i64>) = match (
        bundle.heap,
        bundle.heap_after,
    ) {
        (Some(a), Some(b)) => {
            let delta: i64 = growth(a.used, b.used);
            (Some(delta), growth_rate(delta, bundle.observe_ms))
        },
        _ => (None, None),
    };
    MemoryInfo {
        js_heap_used_bytes: match bundle.heap {
            Some(h) => Some(h.used),
            None => None,
        },
        js_heap_total_bytes: match bundle.heap {
            Some(h) => Some(h.total),
            None => None,
        },
        js_heap_limit_bytes: match bundle.heap {
            Some(h) => Some(h.limit),
            None => None,
        },
        dom_documents: match bundle.dom {
            Some(d) => Some(d.documents),
            None => None,
        },
        dom_nodes: match bundle.dom {
            Some(d) => Some(d.nodes),
            None => None,
        },
        js_event_listeners: match bundle.dom {
            Some(d) => Some(d.js_event_listeners),
            None => None,
        },
        growth_bytes,
        growth_rate_bytes_per_second,
    }
}

/// One sample of a page's heap over time.
#[derive(Debug, Clone, Copy, PartialEq, Eq, Structural)]
pub struct TrendSample {
    pub offset_ms: u64,
    pub js_heap_used_bytes: Option<u64>,
}

/// What a series of heap samples shows.
#[derive(Debug, Clone, Copy, PartialEq, Eq, Structural)]
pub struct TrendMemory {
    pub start_bytes: Option<u64>,
    pub end_bytes: Option<u64>,
    pub delta_bytes: Option<i64>,
    pub growth_rate_bytes_per_second: Option<i64>,
    pub sustained_growth: bool,
}

/// Did the heap grow from one sample to the next?
pub open spec fn grew(a: TrendSample, b: TrendSample) -> bool {
    match (a.js_heap_used_bytes, b.js_heap_used_bytes) {
        (Some(x), Some(y)) => y > x,
        _ => false,
    }
}

/// In how many steps of the series did the heap grow?
pub open spec fn rises(samples: Seq<TrendSample>) -> nat
    decreases samples.len(),
{
    if samples.len() < 2 {
        0
    } else {
        rises(samples.drop_last()) + (if grew(samples[samples.len() - 2], samples.last()) {
            1nat
        } else {
            0
        })
    }
}

/// The heap size in the first sample.
pub open spec fn first_heap(samples: Seq<TrendSample>) -> Option<u64> {
    if samples.len() == 0 {
        None
    } else {
        samples[0].js_heap_used_bytes
    }
}

/// The heap size in the last sample.
pub open spec fn last_heap(samples: Seq<TrendSample>) -> Option<u64> {
    if samples.len() == 0 {
        None
    } else {
        samples.last().js_heap_used_bytes
    }
}

/// A size, or zero where there is none.
pub open spec fn or_zero(v: Option<u64>) -> u64 {
    match v {
        Some(n) => n,
        None => 0,
    }
}

/// Does the series show sustained growth: at least three samples, more at the
/// end than at the start, growth in at least half of the steps, and in the
/// last one?
pub open spec fn sustained(samples: Seq<TrendSample>) -> bool {
    &&& samples.len() >= 3
    &&& or_zero(last_heap(samples)) > or_zero(first_heap(samples))
    &&& 2 * rises(samples) >= samples.len() - 1
    &&& grew(samples[samples.len() - 2], samples.last())
}

fn step_grew(a: &TrendSample, b: &TrendSample) -> (r: bool)
    ensures
        r == grew(*a, *b),
{
    match (a.js_heap_used_bytes, b.js_heap_used_bytes) {
        (Some(x), Some(y)) => y > x,
        _ => false,
    }
}

/// What a series of heap samples over `duration_ms` shows.
pub fn summarize_trend(samples: &Vec<TrendSample>, duration_ms: u64) -> (r: TrendMemory)
    requires
        first_heap(samples@) is Some && last_heap(samples@) is Some ==> growth_fits(
            first_heap(samples@)->0,
            last_heap(samples@)->0,
        ),
    ensures
        r.start_bytes == first_heap(samples@),
        r.end_bytes == last_heap(samples@),
        match (first_heap(samples@), last_heap(samples@)) {
            (Some(a), Some(b)) => {
                &&& r.delta_bytes matches Some(d) && d == b - a
                &&& match r.growth_rate_bytes_per_second {
                    Some(v) => per_second(b - a, duration_ms) == Some(v as int),
                    None => per_second(b - a, duration_ms) is None,
                }
            },
            _ => r.delta_bytes is None && r.growth_rate_bytes_per_second is None,
        },
        r.sustained_growth == sustained(samples@),
{
    let n: usize = samples.len();
    let start_bytes: Option<u64> = if n == 0 {
        None
    } else {
        samples[0].js_heap_used_bytes
    };
    let end_bytes: Option<u64> = if n == 0 {
        None
    } else {
        samples[n - 1].js_heap_used_bytes
    };
    let (delta_bytes, growth_rate_bytes_per_second): (Option<i64>, Option<i64>) = match (
        start_bytes,
        end_bytes,
    ) {
        (Some(a), Some(b)) => {
            let delta: i64 = growth(a, b);
            (Some(delta), growth_rate(delta, duration_ms))
        },
        _ => (None, None),
    };
    let mut up: usize = 0;
    let mut i: usize = 1;
    if n >= 2 {
        while i < n
            invariant
                n == samples@.len(),
                1 <= i <= n,
                up < i,
                up == rises(samples@.take(i as int)),
            decreases n - i,
        {
            let ghost now = samples@.take(i + 1);
            assert(now.drop_last() == samples@.take(i as int));
            assert(now[now.len() - 2] == samples@[i - 1]);
            if step_grew(&samples[i - 1], &samples[i]) {
                up = up + 1;
            }
            i = i + 1;
        }
        assert(samples@.take(n as int) == samples@);
    }
    let start_size: u64 = match start_bytes {
        Some(v) => v,
        None => 0,
    };
    let end_size: u64 = match end_bytes {
        Some(v) => v,
        None => 0,
    };
    let sustained_growth = n >= 3 && end_size > start_size && up >= (n - 1) - up && step_grew(
        &samples[n - 2],
        &samples[n - 1],
    );
    TrendMemory {
        start_bytes,
        end_bytes,
        delta_bytes,
        growth_rate_bytes_per_second,
        sustained_growth,
    }
}

/// Two samples can never prove sustained growth, a heap that ends where it
/// began does not grow, and one that falls at the end is a spike.
pub proof fn law_sustained_growth_needs_evidence(samples: Seq<TrendSample>)
    requires
        sustained(samples),
    ensures
        samples.len() >= 3,
        or_zero(last_heap(samples)) > or_zero(first_heap(samples)),
        last_heap(samples) is Some,
        samples[samples.len() - 2].js_heap_used_bytes is Some,
        last_heap(samples)->0 > samples[samples.len() - 2].js_heap_used_bytes->0,
{
}

/// The number of samples that a trend takes at most.
pub const MAX_TREND_SAMPLES: usize = 64;

/// The least time between two samples of a trend, in milliseconds.
pub const MIN_TREND_INTERVAL_MS: u64 = 500;

/// The time between two samples of a trend, in milliseconds: the configured
/// one, and at least half a second.
pub fn trend_interval(configured_ms: u64) -> (r: u64)
    ensures
        r == (if configured_ms < MIN_TREND_INTERVAL_MS {
            MIN_TREND_INTERVAL_MS
        } else {
            configured_ms
        }),
{
    if configured_ms < MIN_TREND_INTERVAL_MS {
        MIN_TREND_INTERVAL_MS
    } else {
        configured_ms
    }
}

/// When the samples of a trend are taken: at zero and then at every interval,
/// until one is not before the end of the window.
pub fn trend_offsets(observe_ms: u64, interval_ms: u64) -> (r: Vec<u64>)
    requires
        0 < interval_ms,
        63 * interval_ms <= u64::MAX,
    ensures
        0 < r@.len() <= MAX_TREND_SAMPLES,
        forall|i: int| 0 <= i < r@.len() ==> #[trigger] r@[i] == i * interval_ms,
        r@.len() == MAX_TREND_SAMPLES || r@.last() >= observe_ms,
        forall|i: int| 0 <= i < r@.len() - 1 ==> #[trigger] r@[i] < observe_ms,
{
    let mut out: Vec<u64> = Vec::new();
    let mut offset: u64 = 0;
    out.push(0);
    while out.len() < MAX_TREND_SAMPLES && offset < observe_ms
        invariant
            0 < interval_ms,
            63 * interval_ms <= u64::MAX,
            0 < out@.len() <= MAX_TREND_SAMPLES,
            offset == (out@.len() - 1) * interval_ms,
            forall|i: int| 0 <= i < out@.len() ==> #[trigger] out@[i] == i * interval_ms,
            forall|i: int| 0 <= i < out@.len() - 1 ==> #[trigger] out@[i] < observe_ms,
        decreases MAX_TREND_SAMPLES - out@.len(),
    {
        let ghost n = out@.len() as int;
        assert(n * interval_ms == (n - 1) * interval_ms + interval_ms) by (nonlinear_arith);
        assert(n * interval_ms <= 63 * interval_ms) by (nonlinear_arith)
            requires
                0 <= n <= 63,
                0 < interval_ms,
        ;
        offset = offset + interval_ms;
        out.push(offset);
    }
    out
}

/// One request in a summary.
pub struct NetworkRequestSummary {
    pub method: String,
    pub url: String,
    pub status: Option<u16>,
    pub failed: bool,
    pub error_text: Option<String>,
    pub response_time_ms: Option<u64>,
    pub bytes: Option<u64>,
    pub mime_type: Option<String>,
}

/// Does `s` summarise the request `r` with this response time?
pub open spec fn summarises(s: NetworkRequestSummary, r: RequestView, time: Option<u64>) -> bool {
    &&& s.method@ == r.method
    &&& s.url@ == r.url
    &&& s.status == r.status
    &&& s.failed == r.failed
    &&& opt_view(s.error_text) == r.error_text
    &&& s.response_time_ms == time
    &&& s.bytes == r.bytes
    &&& opt_view(s.mime_type) == r.mime_type
}

/// One request in a summary.
pub fn to_request_summary(r: &RequestObs, response_time_ms: Option<u64>) -> (s:
    NetworkRequestSummary)
    ensures
        summarises(s, r@, response_time_ms),
{
    NetworkRequestSummary {
        method: r.method.clone(),
        url: r.url.clone(),
        status: r.status,
        failed: r.failed,
        error_text: r.error_text.clone(),
        response_time_ms,
        bytes: r.bytes,
        mime_type: r.mime_type.clone(),
    }
}

/// What a page's network traffic adds up to.
pub struct NetworkSummary {
    pub observation_ms: u64,
    pub total_requests: usize,
    pub completed: usize,
    pub failed: usize,
    pub bytes_transferred: Option<u64>,
    /// How often each status came, by ascending status.
    pub status_buckets: Vec<(u16, u32)>,
    pub top_slowest: Vec<NetworkRequestSummary>,
    pub failures: Vec<NetworkRequestSummary>,
}

/// How many requests got a response and did not fail.
pub open spec fn completed_count(requests: Seq<RequestView>) -> nat
    decreases requests.len(),
{
    if requests.len() == 0 {
        0
    } else {
        completed_count(requests.drop_last()) + (if !requests.last().failed
            && requests.last().status is Some {
            1nat
        } else {
            0
        })
    }
}

/// The places of the requests that failed.
pub open spec fn failed_places(requests: Seq<RequestView>) -> Seq<int>
    decreases requests.len(),
{
    if requests.len() == 0 {
        Seq::empty()
    } else {
        let before = failed_places(requests.drop_last());
        if requests.last().failed {
            before.push(requests.len() - 1)
        } else {
            before
        }
    }
}

/// How many bytes the responses held.
pub open spec fn byte_count(requests: Seq<RequestView>) -> nat
    decreases requests.len(),
{
    if requests.len() == 0 {
        0
    } else {
        byte_count(requests.drop_last()) + (match requests.last().bytes {
            Some(b) => b as nat,
            None => 0,
        })
    }
}

/// How many requests got this status.
pub open spec fn status_count(requests: Seq<RequestView>, status: u16) -> nat
    decreases requests.len(),
{
    if requests.len() == 0 {
        0
    } else {
        status_count(requests.drop_last(), status) + (if requests.last().status == Some(status) {
            1nat
        } else {
            0
        })
    }
}

/// The key by which requests are put in order: the slowest first, those
/// without a response last.
pub open spec fn slow_key(time: Option<u64>) -> Seq<u64> {
    match time {
        Some(t) => seq![0u64, (u64::MAX - t) as u64],
        None => seq![1u64],
    }
}

/// The keys of all response times.
pub open spec fn slow_keys(times: Seq<Option<u64>>) -> Seq<Seq<u64>> {
    times.map_values(|t: Option<u64>| slow_key(t))
}

/// Is `b` the count of each status that occurs, by ascending status?
pub open spec fn counts_statuses(b: Seq<(u16, u32)>, requests: Seq<RequestView>) -> bool {
    &&& forall|i: int, j: int| 0 <= i < j < b.len() ==> (#[trigger] b[i]).0 < (#[trigger] b[j]).0
    &&& forall|i: int|
        0 <= i < b.len() ==> (#[trigger] b[i]).1 > 0 && b[i].1 as nat == status_count(
            requests,
            b[i].0,
        )
    &&& forall|s: u16| #[trigger]
        status_count(requests, s) > 0 ==> exists|i: int|
            0 <= i < b.len() && (#[trigger] b[i]).0 == s
}

/// Are these the first `n` of the requests at the given places?
pub open spec fn summaries_at(
    out: Seq<NetworkRequestSummary>,
    requests: Seq<RequestView>,
    times: Seq<Option<u64>>,
    places: Seq<int>,
    n: int,
) -> bool {
    &&& out.len() == (if places.len() < n {
        places.len() as int
    } else {
        n
    })
    &&& forall|i: int|
        0 <= i < out.len() ==> summarises(
            #[trigger] out[i],
            requests[places[i]],
            times[places[i]],
        )
}

/// An order taken as places.
pub open spec fn places_of(order: Seq<usize>) -> Seq<int> {
    order.map_values(|i: usize| i as int)
}

proof fn lemma_failed_places(requests: Seq<RequestView>)
    ensures
        forall|i: int|
            0 <= i < failed_places(requests).len() ==> 0 <= #[trigger] failed_places(requests)[i]
                < requests.len(),
        failed_places(requests).len() <= requests.len(),
    decreases requests.len(),
{
    if requests.len() > 0 {
        lemma_failed_places(requests.drop_last());
    }
}

fn bump_status(buckets: &mut Vec<(u16, u32)>, status: u16)
    requires
        forall|i: int, j: int|
            0 <= i < j < old(buckets)@.len() ==> (#[trigger] old(buckets)@[i]).0 < (
            #[trigger] old(buckets)@[j]).0,
        forall|i: int| 0 <= i < old(buckets)@.len() ==> (#[trigger] old(buckets)@[i]).1 < u32::MAX,
    ensures
        forall|i: int, j: int|
            0 <= i < j < final(buckets)@.len() ==> (#[trigger] final(buckets)@[i]).0 < (
            #[trigger] final(buckets)@[j]).0,
        exists|p: int|
            {
                &&& 0 <= p < final(buckets)@.len()
                &&& (#[trigger] final(buckets)@[p]).0 == status
                &&& {
                    ||| p < old(buckets)@.len() && old(buckets)@[p].0 == status
                        && final(buckets)@ == old(buckets)@.update(
                        p,
                        (status, (old(buckets)@[p].1 + 1) as u32),
                    )
                    ||| (forall|k: int|
                        0 <= k < old(buckets)@.len() ==> (#[trigger] old(buckets)@[k]).0 != status)
                        && p <= old(buckets)@.len() && final(buckets)@ == old(buckets)@.insert(p, (status, 1u32))
                }
            },
{
    let ghost before = buckets@;
    let mut p: usize = 0;
    while p < buckets.len() && buckets[p].0 < status
        invariant
            buckets@ == before,
            p <= before.len(),
            forall|k: int| 0 <= k < p ==> (#[trigger] before[k]).0 < status,
        decreases before.len() - p,
    {
        p = p + 1;
    }
    if p < buckets.len() && buckets[p].0 == status {
        let n: u32 = buckets[p].1;
        assert(before[p as int].1 < u32::MAX);
        buckets.set(p, (status, n + 1));
        assert(buckets@ == before.update(p as int, (status, (n + 1) as u32)));
        assert(buckets@[p as int].0 == status);
    } else {
        buckets.insert(p, (status, 1));
        assert(buckets@ == before.insert(p as int, (status, 1u32)));
        assert(buckets@[p as int].0 == status);
        assert forall|k: int| 0 <= k < before.len() implies (#[trigger] before[k]).0 != status by {
            if k > p {
                assert(before[p as int].0 < before[k].0);
            }
        }
        assert forall|i: int, j: int| 0 <= i < j < buckets@.len() implies (
        #[trigger] buckets@[i]).0 < (#[trigger] buckets@[j]).0 by {
            if i < p {
                assert(buckets@[i] == before[i]);
            } else if i > p {
                assert(buckets@[i] == before[i - 1]);
            }
            if j < p {
                assert(buckets@[j] == before[j]);
            } else if j > p {
                assert(buckets@[j] == before[j - 1]);
                if i == p && j - 1 > p {
                    assert(before[p as int].0 < before[j - 1].0);
                }
            }
        }
    }
}

proof fn lemma_status_count_bound(requests: Seq<RequestView>, s: u16)
    ensures
        status_count(requests, s) <= requests.len(),
    decreases requests.len(),
{
    if requests.len() > 0 {
        lemma_status_count_bound(requests.drop_last(), s);
    }
}

/// How often each status came, by ascending status.
pub fn status_buckets(requests: &Vec<RequestObs>) -> (r: Vec<(u16, u32)>)
    requires
        requests@.len() < u32::MAX,
    ensures
        counts_statuses(r@, request_views(requests@)),
{
    let ghost all = request_views(requests@);
    let mut buckets: Vec<(u16, u32)> = Vec::new();
    let mut i: usize = 0;
    while i < requests.len()
        invariant
            all == request_views(requests@),
            requests@.len() < u32::MAX,
            i <= requests@.len(),
            counts_statuses(buckets@, all.take(i as int)),
        decreases requests@.len() - i,
    {
        let ghost seen = all.take(i as int);
        let ghost now = all.take(i + 1);
        let ghost before = buckets@;
        assert(now.drop_last() == seen);
        assert(now.last() == requests@[i as int]@);
        match requests[i].status {
            Some(s) => {
                assert forall|k: int| 0 <= k < before.len() implies (#[trigger] before[k]).1
                    < u32::MAX by {
                    lemma_status_count_bound(seen, before[k].0);
                }
                bump_status(&mut buckets, s);
                proof {
                    lemma_bumped(before, buckets@, seen, now, s);
                }
            },
            None => {
                assert forall|k: int| 0 <= k < before.len() implies (#[trigger] before[k]).1 > 0
                    && before[k].1 as nat == status_count(now, before[k].0) by {}
                assert forall|x: u16| #[trigger] status_count(now, x) > 0 implies exists|k: int|
                    0 <= k < before.len() && (#[trigger] before[k]).0 == x by {
                    assert(status_count(seen, x) > 0);
                }
            },
        }
        i = i + 1;
    }
    assert(all.take(all.len() as int) == all);
    buckets
}

proof fn lemma_bumped(
    before: Seq<(u16, u32)>,
    after: Seq<(u16, u32)>,
    seen: Seq<RequestView>,
    now: Seq<RequestView>,
    s: u16,
)
    requires
        counts_statuses(before, seen),
        now.len() > 0,
        now.drop_last() == seen,
        now.last().status == Some(s),
        forall|i: int| 0 <= i < before.len() ==> (#[trigger] before[i]).1 < u32::MAX,
        forall|i: int, j: int|
            0 <= i < j < after.len() ==> (#[trigger] after[i]).0 < (#[trigger] after[j]).0,
        exists|p: int|
            {
                &&& 0 <= p < after.len()
                &&& (#[trigger] after[p]).0 == s
                &&& {
                    ||| p < before.len() && before[p].0 == s && after == before.update(
                        p,
                        (s, (before[p].1 + 1) as u32),
                    )
                    ||| (forall|k: int| 0 <= k < before.len() ==> (#[trigger] before[k]).0 != s)
                        && p <= before.len() && after == before.insert(p, (s, 1u32))
                }
            },
    ensures
        counts_statuses(after, now),
{
    let p = choose|p: int|
        {
            &&& 0 <= p < after.len()
            &&& (#[trigger] after[p]).0 == s
            &&& {
                ||| p < before.len() && before[p].0 == s && after == before.update(
                    p,
                    (s, (before[p].1 + 1) as u32),
                )
                ||| (forall|k: int| 0 <= k < before.len() ==> (#[trigger] before[k]).0 != s)
                    && p <= before.len() && after == before.insert(p, (s, 1u32))
            }
        };
    let updated = p < before.len() && before[p].0 == s && after == before.update(
        p,
        (s, (before[p].1 + 1) as u32),
    );
    if !updated {
        assert(status_count(seen, s) == 0) by {
            if status_count(seen, s) > 0 {
                let k = choose|k: int| 0 <= k < before.len() && (#[trigger] before[k]).0 == s;
                assert(before[k].0 == s);
            }
        }
    }
    assert forall|i: int| 0 <= i < after.len() implies (#[trigger] after[i]).1 > 0
        && after[i].1 as nat == status_count(now, after[i].0) by {
        if updated {
            if i != p {
                assert(after[i] == before[i]);
            }
        } else if i < p {
            assert(after[i] == before[i]);
        } else if i > p {
            assert(after[i] == before[i - 1]);
        }
        if i < p {
            assert(after[i].0 < after[p].0);
        } else if i > p {
            assert(after[p].0 < after[i].0);
        }
    }
    assert forall|x: u16| #[trigger] status_count(now, x) > 0 implies exists|i: int|
        0 <= i < after.len() && (#[trigger] after[i]).0 == x by {
        if x == s {
            assert(after[p].0 == x);
        } else {
            assert(status_count(seen, x) > 0);
            let k = choose|k: int| 0 <= k < before.len() && (#[trigger] before[k]).0 == x;
            if updated || k < p {
                assert(after[k].0 == x);
            } else {
                assert(after[k + 1].0 == x);
            }
        }
    }
}

/// What a page's network traffic adds up to. `times` holds the response time
/// of each request.
#[verifier::rlimit(40)]
pub fn to_network(bundle: &TabMetricsBundle, times: &Vec<Option<u64>>) -> (r: NetworkSummary)
    requires
        times@.len() == bundle.observation.requests@.len(),
        bundle.observation.requests@.len() < u32::MAX,
        byte_count(bundle.observation@.requests) <= u64::MAX,
    ensures
        r.observation_ms == bundle.observe_ms,
        r.total_requests == bundle.observation@.requests.len(),
        r.completed == completed_count(bundle.observation@.requests),
        r.failed == failed_places(bundle.observation@.requests).len(),
        r.bytes_transferred == (if byte_count(bundle.observation@.requests) > 0 {
            Some(byte_count(bundle.observation@.requests) as u64)
        } else {
            None
        }),
        counts_statuses(r.status_buckets@, bundle.observation@.requests),
        summaries_at(
            r.failures@,
            bundle.observation@.requests,
            times@,
            failed_places(bundle.observation@.requests),
            10,
        ),
        exists|order: Seq<usize>| #[trigger]
            is_stable_order(slow_keys(times@), order) && summaries_at(
                r.top_slowest@,
                bundle.observation@.requests,
                times@,
                places_of(order),
                10,
            ),
{
    let requests = &bundle.observation.requests;
    let ghost all = bundle.observation@.requests;
    let n: usize = requests.len();
    let mut completed: usize = 0;
    let mut failed: usize = 0;
    let mut bytes: u64 = 0;
    let mut failures: Vec<NetworkRequestSummary> = Vec::new();
    let mut keys: Vec<Vec<u64>> = Vec::new();
    let mut i: usize = 0;
    assert(all.take(all.len() as int) == all);
    while i < n
        invariant
            n == requests@.len(),
            times@.len() == n,
            all == request_views(requests@),
            i <= n,
            byte_count(all) <= u64::MAX,
            completed <= i,
            completed == completed_count(all.take(i as int)),
            failed <= i,
            failed == failed_places(all.take(i as int)).len(),
            bytes == byte_count(all.take(i as int)),
            summaries_at(failures@, all, times@, failed_places(all.take(i as int)), 10),
            keys_view(keys@) == slow_keys(times@.take(i as int)),
        decreases n - i,
    {
        let ghost before = all.take(i as int);
        let ghost now = all.take(i + 1);
        assert(now.drop_last() == before);
        assert(now.last() == requests@[i as int]@);
        proof {
            lemma_bytes_grow(all, i + 1);
            lemma_failed_places(before);
        }
        if !requests[i].failed && requests[i].status.is_some() {
            completed = completed + 1;
        }
        match requests[i].bytes {
            Some(b) => {
                bytes = bytes + b;
            },
            None => {},
        }
        if requests[i].failed {
            if failed < 10 {
                let ghost old_failures = failures@;
                let summary = to_request_summary(&requests[i], times[i]);
                failures.push(summary);
                assert(failures@ == old_failures.push(summary));
            }
            failed = failed + 1;
        }
        let mut key: Vec<u64> = Vec::new();
        match times[i] {
            Some(t) => {
                key.push(0);
                key.push(u64::MAX - t);
            },
            None => {
                key.push(1);
            },
        }
        assert(key@ =~= slow_key(times@[i as int]));
        let ghost old_keys = keys_view(keys@);
        keys.push(key);
        assert(keys_view(keys@) =~= old_keys.push(key@));
        assert(slow_keys(times@.take(i + 1)) =~= slow_keys(times@.take(i as int)).push(
            slow_key(times@[i as int]),
        ));
        i = i + 1;
    }
    assert(times@.take(n as int) == times@);
    let order = stable_order(&keys);
    let mut top_slowest: Vec<NetworkRequestSummary> = Vec::new();
    let mut j: usize = 0;
    while j < order.len() && j < 10
        invariant
            j <= 10,
            j <= order@.len(),
            order@.len() == n,
            n == requests@.len(),
            times@.len() == n,
            all == request_views(requests@),
            forall|k: int| 0 <= k < order@.len() ==> #[trigger] order@[k] < n,
            top_slowest@.len() == j,
            forall|k: int|
                0 <= k < j ==> summarises(
                    #[trigger] top_slowest@[k],
                    all[places_of(order@)[k]],
                    times@[places_of(order@)[k]],
                ),
        decreases order@.len() - j,
    {
        let at: usize = order[j];
        top_slowest.push(to_request_summary(&requests[at], times[at]));
        j = j + 1;
    }
    assert(summaries_at(top_slowest@, all, times@, places_of(order@), 10));
    NetworkSummary {
        observation_ms: bundle.observe_ms,
        total_requests: n,
        completed,
        failed,
        bytes_transferred: if bytes > 0 {
            Some(bytes)
        } else {
            None
        },
        status_buckets: status_buckets(requests),
        top_slowest,
        failures,
    }
}

proof fn lemma_bytes_grow(requests: Seq<RequestView>, n: int)
    requires
        0 <= n <= requests.len(),
    ensures
        byte_count(requests.take(n)) <= byte_count(requests),
    decreases requests.len(),
{
    if n < requests.len() {
        assert(requests.drop_last().take(n) == requests.take(n));
        lemma_bytes_grow(requests.drop_last(), n);
    } else {
        assert(requests.take(n) == requests);
    }
}

/// What a page's scripts did.
pub struct RuntimeInfo {
    pub observation_ms: u64,
    pub document_url: String,
    pub ready_state: Option<String>,
    pub title: Option<String>,
    pub console_errors: usize,
    pub console_warnings: usize,
    pub exceptions: usize,
    pub console_samples: Vec<ConsoleObs>,
    pub exception_samples: Vec<String>,
}

/// How many messages have this level.
pub open spec fn level_count(console: Seq<(Seq<char>, Seq<char>)>, level: Seq<char>) -> nat
    decreases console.len(),
{
    if console.len() == 0 {
        0
    } else {
        level_count(console.drop_last(), level) + (if console.last().0 == level {
            1nat
        } else {
            0
        })
    }
}

/// How many messages have this level.
pub fn count_level(console: &Vec<ConsoleObs>, level: &str) -> (r: usize)
    ensures
        r == level_count(console_views(console@), level@),
{
    let ghost all = console_views(console@);
    let mut n: usize = 0;
    let mut i: usize = 0;
    while i < console.len()
        invariant
            all == console_views(console@),
            i <= console@.len(),
            n <= i,
            n == level_count(all.take(i as int), level@),
        decreases console@.len() - i,
    {
        assert(all.take(i + 1).drop_last() == all.take(i as int));
        assert(all[i as int].0 == console@[i as int].level@);
        if same(&console[i].level, level) {
            n = n + 1;
        }
        i = i + 1;
    }
    assert(all.take(all.len() as int) == all);
    n
}

/// The first `n` of a sequence, or all of it.
pub open spec fn at_most<A>(s: Seq<A>, n: int) -> Seq<A> {
    if s.len() <= n {
        s
    } else {
        s.take(n)
    }
}

/// The first ten messages.
pub fn console_head(console: &Vec<ConsoleObs>) -> (r: Vec<ConsoleObs>)
    ensures
        console_views(r@) == at_most(console_views(console@), 10),
{
    let ghost all = console_views(console@);
    let mut out: Vec<ConsoleObs> = Vec::new();
    let mut i: usize = 0;
    assert(console_views(out@) =~= all.take(0));
    while i < console.len() && i < 10
        invariant
            all == console_views(console@),
            i <= console@.len(),
            i <= 10,
            console_views(out@) == all.take(i as int),
        decreases console@.len() - i,
    {
        let ghost before = console_views(out@);
        let c = ConsoleObs { level: console[i].level.clone(), text: console[i].text.clone() };
        out.push(c);
        assert(console_views(out@) =~= before.push((c.level@, c.text@)));
        i = i + 1;
        assert(all.take(i as int) =~= all.take(i - 1).push(all[i - 1]));
    }
    assert(all.take(all.len() as int) == all);
    out
}

/// The first ten texts.
pub fn text_head(texts: &Vec<String>) -> (r: Vec<String>)
    ensures
        views(r@) == at_most(views(texts@), 10),
{
    let ghost all = views(texts@);
    let mut out: Vec<String> = Vec::new();
    let mut i: usize = 0;
    assert(views(out@) =~= all.take(0));
    while i < texts.len() && i < 10
        invariant
            all == views(texts@),
            i <= texts@.len(),
            i <= 10,
            views(out@) == all.take(i as int),
        decreases texts@.len() - i,
    {
        let ghost before = views(out@);
        let t = texts[i].clone();
        out.push(t);
        assert(views(out@) =~= before.push(t@));
        i = i + 1;
        assert(all.take(i as int) =~= all.take(i - 1).push(all[i - 1]));
    }
    assert(all.take(all.len() as int) == all);
    out
}

/// What a page's scripts did, from a bundle.
pub fn to_runtime(bundle: &TabMetricsBundle) -> (r: RuntimeInfo)
    ensures
        r.observation_ms == bundle.observe_ms,
        r.document_url@ == (match bundle.page_state {
            Some(p) => p.url@,
            None => Seq::<char>::empty(),
        }),
        opt_view(r.ready_state) == (match bundle.page_state {
            Some(p) => Some(p.ready_state@),
            None => None,
        }),
        opt_view(r.title) == (match bundle.page_state {
            Some(p) => Some(p.title@),
            None => None,
        }),
        r.console_errors == level_count(bundle.observation@.console, "error"@),
        r.console_warnings == level_count(bundle.observation@.console, "warning"@),
        r.exceptions == bundle.observation@.exceptions.len(),
        console_views(r.console_samples@) == at_most(bundle.observation@.console, 10),
        views(r.exception_samples@) == at_most(bundle.observation@.exceptions, 10),
{
    let o = &bundle.observation;
    let (document_url, ready_state, title) = match &bundle.page_state {
        Some(p) => (p.url.clone(), Some(p.ready_state.clone()), Some(p.title.clone())),
        None => (String::new(), None, None),
    };
    RuntimeInfo {
        observation_ms: bundle.observe_ms,
        document_url,
        ready_state,
        title,
        console_errors: count_level(&o.console, "error"),
        console_warnings: count_level(&o.console, "warning"),
        exceptions: o.exceptions.len(),
        console_samples: console_head(&o.console),
        exception_samples: text_head(&o.exceptions),
    }
}

/// The counts of the traffic are the numbers of the requests that a condition
/// picks, and the bytes are summed from the front.
proof fn lemma_counts_are_filters(requests: Seq<RequestView>)
    ensures
        completed_count(requests) == requests.filter(
            |r: RequestView| !r.failed && r.status is Some,
        ).len(),
        failed_places(requests).len() == requests.filter(|r: RequestView| r.failed).len(),
        byte_count(requests) == requests.fold_left(
            0int,
            |sum: int, r: RequestView|
                sum + if r.bytes is Some {
                    r.bytes->0 as int
                } else {
                    0
                },
        ),
    decreases requests.len(),
{
    reveal(Seq::filter);
    if requests.len() > 0 {
        lemma_counts_are_filters(requests.drop_last());
    }
}

/// The messages of a level are those that a condition on the level picks.
pub proof fn lemma_level_filter(
    console: Seq<(Seq<char>, Seq<char>)>,
    level: Seq<char>,
    picks: spec_fn((Seq<char>, Seq<char>)) -> bool,
)
    requires
        forall|c: (Seq<char>, Seq<char>)| #[trigger] picks(c) <==> c.0 == level,
    ensures
        level_count(console, level) == console.filter(picks).len(),
    decreases console.len(),
{
    reveal(Seq::filter);
    if console.len() > 0 {
        lemma_level_filter(console.drop_last(), level, picks);
    }
}

/// The requests of a status are those that a condition on the status picks.
proof fn lemma_status_filter(
    requests: Seq<RequestView>,
    status: u16,
    picks: spec_fn(RequestView) -> bool,
)
    requires
        forall|r: RequestView| #[trigger] picks(r) <==> r.status == Some(status),
    ensures
        status_count(requests, status) == requests.filter(picks).len(),
    decreases requests.len(),
{
    reveal(Seq::filter);
    if requests.len() > 0 {
        lemma_status_filter(requests.drop_last(), status, picks);
    }
}

/// The counts of a page's messages: as errors are counted the messages whose
/// level is `error`, as warnings those whose level is `warning`, and the samples
/// are the first ten messages and exceptions.
pub proof fn law_messages_are_counted_by_level(bundle: TabMetricsBundle, r: RuntimeInfo)
    requires
        call_ensures(to_runtime, (&bundle,), r),
    ensures
        r.console_errors == console_views(bundle.observation.console@).filter(
            |c: (Seq<char>, Seq<char>)| c.0 == "error"@,
        ).len(),
        r.console_warnings == console_views(bundle.observation.console@).filter(
            |c: (Seq<char>, Seq<char>)| c.0 == "warning"@,
        ).len(),
        r.exceptions == bundle.observation.exceptions@.len(),
        r.observation_ms == bundle.observe_ms,
        r.console_samples@.len() <= 10,
        r.exception_samples@.len() <= 10,
        r.console_samples@.len() == bundle.observation.console@.len()
            || r.console_samples@.len() == 10,
        r.exception_samples@.len() == bundle.observation.exceptions@.len()
            || r.exception_samples@.len() == 10,
        forall|i: int|
            0 <= i < r.console_samples@.len() ==> (#[trigger] r.console_samples@[i]).level@
                == bundle.observation.console@[i].level@ && r.console_samples@[i].text@
                == bundle.observation.console@[i].text@,
        forall|i: int|
            0 <= i < r.exception_samples@.len() ==> (#[trigger] r.exception_samples@[i])@
                == bundle.observation.exceptions@[i]@,
        bundle.page_state matches Some(p) ==> r.document_url@ == p.url@ && r.title is Some
            && r.title->0@ == p.title@ && r.ready_state is Some && r.ready_state->0@
            == p.ready_state@,
        bundle.page_state is None ==> r.document_url@.len() == 0 && r.title is None
            && r.ready_state is None,
{
    let console = bundle.observation@.console;
    lemma_level_filter(console, "error"@, |c: (Seq<char>, Seq<char>)| c.0 == "error"@);
    lemma_level_filter(console, "warning"@, |c: (Seq<char>, Seq<char>)| c.0 == "warning"@);
    let shown = console_views(r.console_samples@);
    let told = views(r.exception_samples@);
    assert(shown.len() == r.console_samples@.len());
    assert(told.len() == r.exception_samples@.len());
    assert forall|i: int| 0 <= i < r.console_samples@.len() implies (
    #[trigger] r.console_samples@[i]).level@ == bundle.observation.console@[i].level@
        && r.console_samples@[i].text@ == bundle.observation.console@[i].text@ by {
        assert(shown[i] == console[i]);
    }
    assert forall|i: int| 0 <= i < r.exception_samples@.len() implies (
    #[trigger] r.exception_samples@[i])@ == bundle.observation.exceptions@[i]@ by {
        assert(told[i] == bundle.observation@.exceptions[i]);
    }
}

/// The traffic of a page adds up: every request is counted, as completed where
/// it got a status and did not fail, as failed where it failed; the bytes are
/// the sum of what is known of them; and each status is counted.
pub proof fn law_traffic_adds_up(
    bundle: TabMetricsBundle,
    times: Vec<Option<u64>>,
    r: NetworkSummary,
)
    requires
        call_ensures(to_network, (&bundle, &times), r),
        times@.len() == bundle.observation.requests@.len(),
        byte_count(bundle.observation@.requests) <= u64::MAX,
    ensures
        r.observation_ms == bundle.observe_ms,
        r.total_requests == bundle.observation.requests@.len(),
        r.completed == request_views(bundle.observation.requests@).filter(
            |q: RequestView| !q.failed && q.status is Some,
        ).len(),
        r.failed == request_views(bundle.observation.requests@).filter(
            |q: RequestView| q.failed,
        ).len(),
        (if r.bytes_transferred is Some {
            r.bytes_transferred->0 as int
        } else {
            0
        }) == request_views(bundle.observation.requests@).fold_left(
            0int,
            |sum: int, q: RequestView|
                sum + if q.bytes is Some {
                    q.bytes->0 as int
                } else {
                    0
                },
        ),
        r.bytes_transferred != Some(0u64),
        forall|i: int, j: int|
            0 <= i < j < r.status_buckets@.len() ==> (#[trigger] r.status_buckets@[i]).0 < (
            #[trigger] r.status_buckets@[j]).0,
        forall|i: int|
            0 <= i < r.status_buckets@.len() ==> (#[trigger] r.status_buckets@[i]).1
                == request_views(bundle.observation.requests@).filter(
                |q: RequestView| q.status == Some(r.status_buckets@[i].0),
            ).len(),
        forall|k: int|
            0 <= k < bundle.observation.requests@.len() && (
            #[trigger] bundle.observation.requests@[k]).status is Some ==> exists|i: int|
                0 <= i < r.status_buckets@.len() && (#[trigger] r.status_buckets@[i]).0
                    == bundle.observation.requests@[k].status->0,
{
    let all = bundle.observation@.requests;
    lemma_counts_are_filters(all);
    assert forall|i: int| 0 <= i < r.status_buckets@.len() implies (
    #[trigger] r.status_buckets@[i]).1 == all.filter(
        |q: RequestView| q.status == Some(r.status_buckets@[i].0),
    ).len() by {
        lemma_status_filter(
            all,
            r.status_buckets@[i].0,
            |q: RequestView| q.status == Some(r.status_buckets@[i].0),
        );
    }
    assert forall|k: int|
        0 <= k < bundle.observation.requests@.len() && (
        #[trigger] bundle.observation.requests@[k]).status is Some implies exists|i: int|
        0 <= i < r.status_buckets@.len() && (#[trigger] r.status_buckets@[i]).0
            == bundle.observation.requests@[k].status->0 by {
        let s = bundle.observation.requests@[k].status->0;
        let is_it = |q: RequestView| q.status == Some(s);
        assert(all[k] == bundle.observation.requests@[k]@);
        assert(is_it(all[k]));
        all.lemma_filter_contains(is_it, k);
        assert(all.filter(is_it).contains(all[k]));
        lemma_status_filter(all, s, is_it);
        assert(status_count(all, s) > 0);
    }
}

/// Of two response times: did the first take at least as long? A request
/// without one took no time that is known.
pub open spec fn no_faster(a: Option<u64>, b: Option<u64>) -> bool {
    b is Some ==> a is Some && a->0 >= b->0
}

/// The slowest requests are shown, the slowest first: none follows a faster one,
/// those without a response time come last, ten are shown where there are ten,
/// each is one of the requests and none is shown twice, and none that is left
/// out took longer than one that is shown.
pub proof fn law_slowest_come_first(
    bundle: TabMetricsBundle,
    times: Vec<Option<u64>>,
    r: NetworkSummary,
)
    requires
        call_ensures(to_network, (&bundle, &times), r),
        times@.len() == bundle.observation.requests@.len(),
    ensures
        r.top_slowest@.len() == (if times@.len() < 10 {
            times@.len() as int
        } else {
            10
        }),
        forall|i: int, j: int|
            0 <= i < j < r.top_slowest@.len() ==> no_faster(
                (#[trigger] r.top_slowest@[i]).response_time_ms,
                (#[trigger] r.top_slowest@[j]).response_time_ms,
            ),
        exists|places: Seq<int>|
            {
                &&& #[trigger] places.len() == r.top_slowest@.len()
                &&& forall|i: int, j: int|
                    0 <= i < j < places.len() ==> #[trigger] places[i] != #[trigger] places[j]
                &&& forall|i: int|
                    0 <= i < places.len() ==> {
                        &&& 0 <= #[trigger] places[i] < times@.len()
                        &&& r.top_slowest@[i].response_time_ms == times@[places[i]]
                        &&& r.top_slowest@[i].url@
                            == bundle.observation.requests@[places[i]].url@
                        &&& r.top_slowest@[i].method@
                            == bundle.observation.requests@[places[i]].method@
                        &&& r.top_slowest@[i].status
                            == bundle.observation.requests@[places[i]].status
                        &&& r.top_slowest@[i].failed
                            == bundle.observation.requests@[places[i]].failed
                        &&& r.top_slowest@[i].bytes
                            == bundle.observation.requests@[places[i]].bytes
                    }
                &&& forall|k: int, i: int|
                    0 <= k < times@.len() && !places.contains(k) && 0 <= i
                        < r.top_slowest@.len() ==> no_faster(
                        (#[trigger] r.top_slowest@[i]).response_time_ms,
                        #[trigger] times@[k],
                    )
            },
{
    let all = bundle.observation@.requests;
    let keys = slow_keys(times@);
    let order = choose|order: Seq<usize>| #[trigger]
        is_stable_order(keys, order) && summaries_at(
            r.top_slowest@,
            all,
            times@,
            places_of(order),
            10,
        );
    let shown = r.top_slowest@;
    let places = places_of(order).take(shown.len() as int);
    assert forall|i: int, j: int| 0 <= i < j < order.len() implies no_faster(
        times@[#[trigger] order[i] as int],
        times@[#[trigger] order[j] as int],
    ) by {
        lemma_slow_key(times@[order[i] as int], times@[order[j] as int]);
        assert(comes_before(keys, order[i] as int, order[j] as int));
        assert(keys[order[i] as int] == slow_key(times@[order[i] as int]));
        assert(keys[order[j] as int] == slow_key(times@[order[j] as int]));
    }
    assert forall|i: int, j: int| 0 <= i < j < places.len() implies #[trigger] places[i]
        != #[trigger] places[j] by {
        crate::order::lemma_key_irreflexive(keys[order[i] as int]);
        assert(comes_before(keys, order[i] as int, order[j] as int));
    }
    assert forall|i: int| 0 <= i < shown.len() implies (
    #[trigger] shown[i]).response_time_ms == times@[order[i] as int] by {
        assert(places_of(order)[i] == order[i]);
    }
    assert forall|k: int, i: int|
        0 <= k < times@.len() && !places.contains(k) && 0 <= i < shown.len() implies no_faster(
        (#[trigger] shown[i]).response_time_ms,
        #[trigger] times@[k],
    ) by {
        assert(order.contains(k as usize));
        let at = choose|at: int| 0 <= at < order.len() && order[at] == k as usize;
        if at < shown.len() {
            assert(places[at] == k);
        }
        assert(i < at);
        assert(order[i] as int >= 0);
        assert(no_faster(times@[order[i] as int], times@[order[at] as int]));
    }
    assert(places.len() == shown.len());
    assert forall|i: int| 0 <= i < places.len() implies {
        &&& 0 <= #[trigger] places[i] < times@.len()
        &&& shown[i].response_time_ms == times@[places[i]]
        &&& shown[i].url@ == bundle.observation.requests@[places[i]].url@
        &&& shown[i].method@ == bundle.observation.requests@[places[i]].method@
        &&& shown[i].status == bundle.observation.requests@[places[i]].status
        &&& shown[i].failed == bundle.observation.requests@[places[i]].failed
        &&& shown[i].bytes == bundle.observation.requests@[places[i]].bytes
    } by {
        assert(places[i] == places_of(order)[i]);
        assert(order[i] < keys.len());
        assert(all[places[i]] == bundle.observation.requests@[places[i]]@);
        assert(summarises(shown[i], all[places[i]], times@[places[i]]));
    }
}

proof fn lemma_slow_key(a: Option<u64>, b: Option<u64>)
    ensures
        key_lt(slow_key(a), slow_key(b)) || slow_key(a) == slow_key(b) ==> no_faster(a, b),
{
    reveal_with_fuel(key_lt, 3);
    let (x, y) = (slow_key(a), slow_key(b));
    if a is Some && b is Some {
        assert(x.drop_first()[0] == x[1] && y.drop_first()[0] == y[1]);
        assert(x[1] == u64::MAX - a->0 && y[1] == u64::MAX - b->0);
    } else if a is None && b is Some {
        assert(x[0] == 1 && y[0] == 0);
    }
}

/// The failures that are shown are the first ten requests that failed, as they
/// came, each with its error.
pub proof fn law_failures_are_shown(
    bundle: TabMetricsBundle,
    times: Vec<Option<u64>>,
    r: NetworkSummary,
)
    requires
        call_ensures(to_network, (&bundle, &times), r),
        times@.len() == bundle.observation.requests@.len(),
    ensures
        r.failures@.len() == (if r.failed < 10 {
            r.failed as int
        } else {
            10
        }),
        forall|i: int|
            0 <= i < r.failures@.len() ==> {
                let q = request_views(bundle.observation.requests@).filter(
                    |q: RequestView| q.failed,
                )[i];
                &&& (#[trigger] r.failures@[i]).failed
                &&& r.failures@[i].url@ == q.url
                &&& r.failures@[i].method@ == q.method
                &&& r.failures@[i].status == q.status
                &&& opt_view(r.failures@[i].error_text) == q.error_text
            },
{
    let all = bundle.observation@.requests;
    lemma_counts_are_filters(all);
    lemma_failed_are_filtered(all);
    let failing = |q: RequestView| q.failed;
    assert forall|i: int| 0 <= i < r.failures@.len() implies (#[trigger] r.failures@[i]).failed && {
        let q = all.filter(failing)[i];
        &&& r.failures@[i].url@ == q.url
        &&& r.failures@[i].method@ == q.method
        &&& r.failures@[i].status == q.status
        &&& opt_view(r.failures@[i].error_text) == q.error_text
    } by {
        assert(summarises(
            r.failures@[i],
            all[failed_places(all)[i]],
            times@[failed_places(all)[i]],
        ));
        all.lemma_filter_pred(failing, i);
    }
}

/// The requests at the places of the failed ones are those that failed.
pub proof fn lemma_failed_are_filtered(requests: Seq<RequestView>)
    ensures
        forall|i: int|
            0 <= i < failed_places(requests).len() ==> requests.filter(
                |q: RequestView| q.failed,
            )[i] == requests[#[trigger] failed_places(requests)[i]],
        failed_places(requests).len() == requests.filter(|q: RequestView| q.failed).len(),
    decreases requests.len(),
{
    reveal(Seq::filter);
    if requests.len() > 0 {
        let before = requests.drop_last();
        lemma_failed_are_filtered(before);
        lemma_failed_places(before);
        assert forall|i: int| 0 <= i < failed_places(requests).len() implies requests.filter(
            |q: RequestView| q.failed,
        )[i] == requests[#[trigger] failed_places(requests)[i]] by {
            if i < failed_places(before).len() {
                assert(failed_places(requests)[i] == failed_places(before)[i]);
                assert(before[failed_places(before)[i]] == requests[failed_places(before)[i]]);
            }
        }
    }
}

/// The memory figures are those of the first sample, and the growth leads from
/// the first sample to the second one.
pub proof fn law_growth_leads_to_the_second_sample(bundle: TabMetricsBundle, r: MemoryInfo)
    requires
        call_ensures(to_memory, (&bundle,), r),
    ensures
        bundle.heap matches Some(h) ==> r.js_heap_used_bytes == Some(h.used)
            && r.js_heap_total_bytes == Some(h.total) && r.js_heap_limit_bytes == Some(h.limit),
        bundle.heap is None ==> r.js_heap_used_bytes is None && r.js_heap_total_bytes is None
            && r.js_heap_limit_bytes is None,
        bundle.dom matches Some(d) ==> r.dom_documents == Some(d.documents) && r.dom_nodes == Some(
            d.nodes,
        ) && r.js_event_listeners == Some(d.js_event_listeners),
        r.growth_bytes is Some <==> bundle.heap is Some && bundle.heap_after is Some,
        r.growth_bytes is Some ==> bundle.heap->0.used + r.growth_bytes->0
            == bundle.heap_after->0.used,
        r.growth_rate_bytes_per_second is Some <==> r.growth_bytes is Some && bundle.observe_ms > 0,
        r.growth_rate_bytes_per_second matches Some(v) ==> is_rate(
            v as int,
            r.growth_bytes->0 as int,
            bundle.observe_ms as int,
        ),
{
    if bundle.heap is Some && bundle.heap_after is Some && bundle.observe_ms > 0 {
        lemma_rate(bundle.heap_after->0.used - bundle.heap->0.used, bundle.observe_ms);
    }
}

/// Is `v` the growth per second, without its fraction, of a growth by `delta` in
/// `ms` milliseconds?
pub open spec fn is_rate(v: int, delta: int, ms: int) -> bool {
    &&& delta >= 0 ==> 0 <= v && v * ms <= delta * 1000 < (v + 1) * ms
    &&& delta <= 0 ==> v <= 0 && (v - 1) * ms < delta * 1000 <= v * ms
}

proof fn lemma_rate(delta: int, ms: u64)
    requires
        ms > 0,
    ensures
        is_rate(per_second(delta, ms)->0, delta, ms as int),
{
    let v = per_second(delta, ms)->0;
    let n = delta * 1000;
    let m = ms as int;
    if n >= 0 {
        assert(v == n / m);
        assert(v * m <= n < (v + 1) * m && 0 <= v) by (nonlinear_arith)
            requires
                v == n / m,
                n >= 0,
                m > 0,
        ;
        if delta == 0 {
            assert(v == 0) by (nonlinear_arith)
                requires
                    v == n / m,
                    n == 0,
                    m > 0,
            ;
            assert((v - 1) * m < 0 <= v * m) by (nonlinear_arith)
                requires
                    v == 0,
                    m > 0,
            ;
        }
    } else {
        let w = (-n) / m;
        assert(v == -w);
        assert((v - 1) * m < n <= v * m && v <= 0) by (nonlinear_arith)
            requires
                v == -w,
                w == (-n) / m,
                n < 0,
                m > 0,
        ;
    }
}

/// A trend begins with its first sample and ends with its last one; a heap that
/// grew in every step is told to grow, and one that grew in fewer than half of
/// them, or ended no higher than it began, is not.
pub proof fn law_trend_is_told(samples: Vec<TrendSample>, duration_ms: u64, r: TrendMemory)
    requires
        call_ensures(summarize_trend, (&samples, duration_ms), r),
        samples@.len() > 0,
    ensures
        r.start_bytes == samples@[0].js_heap_used_bytes,
        r.end_bytes == samples@[samples@.len() - 1].js_heap_used_bytes,
        r.delta_bytes is Some <==> r.start_bytes is Some && r.end_bytes is Some,
        r.delta_bytes is Some ==> r.start_bytes->0 + r.delta_bytes->0 == r.end_bytes->0,
        r.growth_rate_bytes_per_second is Some <==> r.delta_bytes is Some && duration_ms > 0,
        r.growth_rate_bytes_per_second matches Some(v) ==> is_rate(
            v as int,
            r.delta_bytes->0 as int,
            duration_ms as int,
        ),
        r.sustained_growth <==> {
            &&& samples@.len() >= 3
            &&& (if r.end_bytes is Some {
                r.end_bytes->0 as int
            } else {
                0
            }) > (if r.start_bytes is Some {
                r.start_bytes->0 as int
            } else {
                0
            })
            &&& rising_steps(samples@).contains(samples@.len() - 2)
            &&& 2 * rising_steps(samples@).len() >= samples@.len() - 1
        },
{
    if samples@.len() >= 3 {
        lemma_rises(samples@);
    }
    if r.delta_bytes is Some && duration_ms > 0 {
        lemma_rate(r.end_bytes->0 - r.start_bytes->0, duration_ms);
    }
}

/// The steps of a series in which the heap grew, each by the place of the sample
/// that it leads from.
pub open spec fn rising_steps(samples: Seq<TrendSample>) -> Seq<int> {
    Seq::new((samples.len() - 1) as nat, |i: int| i).filter(
        |i: int|
            samples[i].js_heap_used_bytes is Some && samples[i + 1].js_heap_used_bytes is Some
                && samples[i].js_heap_used_bytes->0 < samples[i + 1].js_heap_used_bytes->0,
    )
}

proof fn lemma_rises(samples: Seq<TrendSample>)
    requires
        samples.len() >= 1,
    ensures
        rises(samples) == rising_steps(samples).len(),
        samples.len() >= 2 ==> (rising_steps(samples).contains(samples.len() - 2) <==> grew(
            samples[samples.len() - 2],
            samples.last(),
        )),
    decreases samples.len(),
{
    let rising = |i: int|
        samples[i].js_heap_used_bytes is Some && samples[i + 1].js_heap_used_bytes is Some
            && samples[i].js_heap_used_bytes->0 < samples[i + 1].js_heap_used_bytes->0;
    let all = Seq::new((samples.len() - 1) as nat, |i: int| i);
    reveal(Seq::filter);
    if samples.len() >= 2 {
        let before = samples.drop_last();
        lemma_rises(before);
        let fewer = Seq::new((before.len() - 1) as nat, |i: int| i);
        assert(all.drop_last() =~= fewer);
        let was = |i: int|
            before[i].js_heap_used_bytes is Some && before[i + 1].js_heap_used_bytes is Some
                && before[i].js_heap_used_bytes->0 < before[i + 1].js_heap_used_bytes->0;
        lemma_filter_same(fewer, rising, was);
        assert(all.last() == samples.len() - 2);
        let at = samples.len() - 2;
        if rising(at) {
            all.lemma_filter_contains(rising, at);
            assert(all.filter(rising).contains(all[at]));
        } else if all.filter(rising).contains(at) {
            let k = choose|k: int| 0 <= k < all.filter(rising).len() && all.filter(rising)[k] == at;
            all.lemma_filter_pred(rising, k);
        }
    }
}

proof fn lemma_filter_same(s: Seq<int>, p: spec_fn(int) -> bool, q: spec_fn(int) -> bool)
    requires
        forall|i: int| 0 <= i < s.len() ==> p(#[trigger] s[i]) == q(s[i]),
    ensures
        s.filter(p) == s.filter(q),
    decreases s.len(),
{
    reveal(Seq::filter);
    if s.len() > 0 {
        let rest = s.drop_last();
        assert forall|i: int| 0 <= i < rest.len() implies p(#[trigger] rest[i]) == q(rest[i]) by {
            assert(rest[i] == s[i]);
        }
        lemma_filter_same(rest, p, q);
        assert(p(s[s.len() - 1]) == q(s[s.len() - 1]));
    }
}

/// What is switched on is switched off again: network and runtime are watched only
/// where there is time for it, between the two, and the tab is left at the end. The
/// measurements are taken before and after.
pub proof fn law_collections_leave_the_tab(observe_ms: u64, r: Vec<CollectStep>)
    requires
        call_ensures(collect_plan, (observe_ms,), r),
    ensures
        r@.len() == if observe_ms > 0 {
            13nat
        } else {
            8
        },
        r@[0] == CollectStep::EnablePerformance,
        r@[1] == CollectStep::MetricsBefore,
        r@.last() == CollectStep::Detach,
        r@[r@.len() - 3] == CollectStep::MetricsAfter,
        r@[r@.len() - 2] == CollectStep::HeapAfter,
        r@.contains(CollectStep::Counters) && r@.contains(CollectStep::HeapBefore) && r@.contains(
            CollectStep::State,
        ),
        observe_ms > 0 ==> r@[5] == CollectStep::EnableNetwork && r@[6]
            == CollectStep::EnableRuntime && r@[7] == CollectStep::Observe && r@[8]
            == CollectStep::DisableNetwork && r@[9] == CollectStep::DisableRuntime,
        observe_ms == 0 ==> !r@.contains(CollectStep::EnableNetwork) && !r@.contains(
            CollectStep::EnableRuntime,
        ) && !r@.contains(CollectStep::Observe),
{
    assert(r@[2] == CollectStep::Counters && r@[3] == CollectStep::HeapBefore && r@[4]
        == CollectStep::State);
}

/// Samples of a trend are taken at least half a second apart, from the start on, at
/// every interval, until the window is over; and never more than 64.
pub proof fn law_trends_are_sampled_evenly(
    configured_ms: u64,
    observe_ms: u64,
    interval: u64,
    r: Vec<u64>,
)
    requires
        call_ensures(trend_interval, (configured_ms,), interval),
        63 * interval <= u64::MAX,
        call_ensures(trend_offsets, (observe_ms, interval), r),
    ensures
        interval >= 500,
        configured_ms >= 500 ==> interval == configured_ms,
        1 <= r@.len() <= 64,
        r@[0] == 0,
        forall|i: int| 0 <= i < r@.len() - 1 ==> #[trigger] r@[i] < observe_ms,
        r@.len() < 64 ==> r@.last() >= observe_ms,
        forall|i: int| 0 <= i < r@.len() ==> #[trigger] r@[i] == i * interval,
{
    assert(r@[0] == 0 * interval);
}

/// Every status that came is counted once for each request that had it, and none that
/// did not come is listed; the lowest comes first.
pub proof fn law_statuses_are_counted(requests: Vec<RequestObs>, r: Vec<(u16, u32)>)
    requires
        requests@.len() < u32::MAX,
        call_ensures(status_buckets, (&requests,), r),
    ensures
        forall|i: int, j: int|
            0 <= i < j < r@.len() ==> (#[trigger] r@[i]).0 < (#[trigger] r@[j]).0,
        forall|i: int|
            0 <= i < r@.len() ==> (#[trigger] r@[i]).1 > 0 && r@[i].1 == requests@.filter(
                |q: RequestObs| q.status == Some(r@[i].0),
            ).len(),
        forall|k: int|
            0 <= k < requests@.len() && requests@[k].status is Some ==> exists|i: int|
                0 <= i < r@.len() && (#[trigger] r@[i]).0 == (#[trigger] requests@[k]).status->0,
{
    let all = request_views(requests@);
    assert forall|i: int| 0 <= i < r@.len() implies (#[trigger] r@[i]).1 > 0 && r@[i].1
        == requests@.filter(|q: RequestObs| q.status == Some(r@[i].0)).len() by {
        lemma_status_requests(requests@, r@[i].0);
    }
    assert forall|k: int| 0 <= k < requests@.len() && requests@[k].status is Some implies exists|
        i: int,
    | 0 <= i < r@.len() && (#[trigger] r@[i]).0 == (#[trigger] requests@[k]).status->0 by {
        assert(all[k] == requests@[k]@);
        lemma_status_came(all, k);
        assert(status_count(all, requests@[k].status->0) > 0);
    }
}

proof fn lemma_status_came(requests: Seq<RequestView>, k: int)
    requires
        0 <= k < requests.len(),
        requests[k].status is Some,
    ensures
        status_count(requests, requests[k].status->0) > 0,
    decreases requests.len(),
{
    if k < requests.len() - 1 {
        assert(requests.drop_last()[k] == requests[k]);
        lemma_status_came(requests.drop_last(), k);
    }
}

proof fn lemma_status_requests(requests: Seq<RequestObs>, status: u16)
    ensures
        status_count(request_views(requests), status) == requests.filter(
            |q: RequestObs| q.status == Some(status),
        ).len(),
    decreases requests.len(),
{
    reveal(Seq::filter);
    if requests.len() > 0 {
        let rest = requests.drop_last();
        lemma_status_requests(rest, status);
        assert(request_views(requests).drop_last() =~= request_views(rest));
        assert(request_views(requests).last() == requests.last()@);
    }
}

/// What the browser answers of the heap, the document and the page is read by its
/// members' names; what is missing counts as nothing.
pub proof fn law_answers_are_read_by_name(v: JsonView, s: PageState)
    requires
        is_page_state(Some(s), Some(v)),
    ensures
        heap_of(None) is None,
        dom_of(None) is None,
        heap_of(Some(v)) is Some,
        dom_of(Some(v)) is Some,
        v.uint_at("used"@) matches Some(n) ==> heap_of(Some(v))->0.used == n,
        v.uint_at("used"@) is None ==> heap_of(Some(v))->0.used == 0,
        v.uint_at("total"@) matches Some(n) ==> heap_of(Some(v))->0.total == n,
        v.uint_at("total"@) is None ==> heap_of(Some(v))->0.total == 0,
        v.uint_at("limit"@) matches Some(n) ==> heap_of(Some(v))->0.limit == n,
        v.uint_at("limit"@) is None ==> heap_of(Some(v))->0.limit == 0,
        v.uint_at("documents"@) matches Some(n) ==> dom_of(Some(v))->0.documents == n,
        v.uint_at("documents"@) is None ==> dom_of(Some(v))->0.documents == 0,
        v.uint_at("nodes"@) matches Some(n) ==> dom_of(Some(v))->0.nodes == n,
        v.uint_at("nodes"@) is None ==> dom_of(Some(v))->0.nodes == 0,
        v.uint_at("jsEventListeners"@) matches Some(n) ==> dom_of(Some(v))->0.js_event_listeners
            == n,
        v.uint_at("jsEventListeners"@) is None ==> dom_of(Some(v))->0.js_event_listeners == 0,
        v.text_at("ready"@) matches Some(t) ==> s.ready_state@ == t,
        v.text_at("ready"@) is None ==> s.ready_state@.len() == 0,
        v.text_at("title"@) matches Some(t) ==> s.title@ == t,
        v.text_at("title"@) is None ==> s.title@.len() == 0,
        v.text_at("url"@) matches Some(t) ==> s.url@ == t,
        v.text_at("url"@) is None ==> s.url@.len() == 0,
{
    reveal_strlit("");
}

} // verus!
