//! Crashes and shutdowns, as the event logs tell them.
//!
//! Each report rests on a fixed set of queries. A query that fails is named in
//! the warnings, and the rest is reported all the same.

use crate::errors::WinkitError;
use crate::json::{Json, JsonView};
use crate::models::{EventInfo, EventQuery, EventQueryView, SystemInfo};
use crate::order::{key_less, key_of_text, text_lt};
use crate::permissions::Capability;
use crate::providers::windows::WindowsBackend;
use crate::text::{
    chars_of, concat3, decimal, decimal_text, find_chars, find_from, is_one_of, is_space,
    law_white_space_parts_words, lemma_find_from, opt_view, starts_with, text_of, trimmed_start,
    views, words, words_of,
};
use crate::tools::args::{
    clamp_limit, clamp_minutes, limit_for, minutes_for, optional_u64, optional_usize, usize_at,
};
use crate::tools::timeline::{
    gather, gathered, gathered_events, ids_of, ints, is_event_timeline, law_everything_is_gathered,
    law_timeline_is_newest_first, lemma_timeline_range, timeline, times_of, Reply,
};
use crate::tools::schema::{input_schema, param_views, schema_view, Param, ParamKind, ParamView};
use crate::tools::toolset::{ToolDefinition, ToolView};
use vstd::prelude::*;
use vstd::string::*;

verus! {

/// The look-back window where none is asked for, in minutes.
pub const DEFAULT_SINCE_MINUTES: u64 = 43200;

/// The number of queries behind a crash report.
pub const CRASH_QUERY_COUNT: usize = 9;

/// The number of queries behind a shutdown report.
pub const SHUTDOWN_QUERY_COUNT: usize = 10;

/// What kind of crash an event is.
#[derive(Debug, Clone, Copy, PartialEq, Eq, Structural)]
pub enum CrashCategory {
    Bugcheck,
    UncleanShutdown,
    HardwareError,
    AppCrash,
    WerReport,
}

impl CrashCategory {
    /// The name of the category.
    pub open spec fn name(self) -> Seq<char> {
        match self {
            CrashCategory::Bugcheck => "bugcheck"@,
            CrashCategory::UncleanShutdown => "unclean_shutdown"@,
            CrashCategory::HardwareError => "hardware_error"@,
            CrashCategory::AppCrash => "app_crash"@,
            CrashCategory::WerReport => "wer_report"@,
        }
    }

    /// The name of the category.
    pub fn as_str(self) -> (r: &'static str)
        ensures
            r@ == self.name(),
    {
        match self {
            CrashCategory::Bugcheck => "bugcheck",
            CrashCategory::UncleanShutdown => "unclean_shutdown",
            CrashCategory::HardwareError => "hardware_error",
            CrashCategory::AppCrash => "app_crash",
            CrashCategory::WerReport => "wer_report",
        }
    }
}

/// The categories, in the order in which they are reported.
pub open spec fn crash_categories() -> Seq<CrashCategory> {
    seq![
        CrashCategory::Bugcheck,
        CrashCategory::UncleanShutdown,
        CrashCategory::HardwareError,
        CrashCategory::AppCrash,
        CrashCategory::WerReport,
    ]
}

/// One query of a report, and what its events are.
pub struct QuerySpec<C> {
    pub log: Seq<char>,
    pub provider: Seq<char>,
    pub event_id: u32,
    pub category: C,
}

/// Where a query looks.
#[derive(Clone, Copy)]
pub struct QuerySource {
    pub log: &'static str,
    pub provider: &'static str,
    pub event_id: u32,
}

/// The queries behind a crash report.
pub open spec fn crash_spec(i: int) -> QuerySpec<CrashCategory> {
    if i == 0 {
        QuerySpec { log: "System"@, provider: "Microsoft-Windows-WER-SystemErrorReporting"@, event_id: 1001, category: CrashCategory::Bugcheck }
    } else if i == 1 {
        QuerySpec { log: "System"@, provider: "Microsoft-Windows-Kernel-Power"@, event_id: 41, category: CrashCategory::UncleanShutdown }
    } else if i == 2 {
        QuerySpec { log: "System"@, provider: "Microsoft-Windows-WHEA-Logger"@, event_id: 18, category: CrashCategory::HardwareError }
    } else if i == 3 {
        QuerySpec { log: "System"@, provider: "Microsoft-Windows-WHEA-Logger"@, event_id: 19, category: CrashCategory::HardwareError }
    } else if i == 4 {
        QuerySpec { log: "System"@, provider: "Microsoft-Windows-WHEA-Logger"@, event_id: 20, category: CrashCategory::HardwareError }
    } else if i == 5 {
        QuerySpec { log: "Application"@, provider: "Application Error"@, event_id: 1000, category: CrashCategory::AppCrash }
    } else if i == 6 {
        QuerySpec { log: "Application"@, provider: "Application Error"@, event_id: 1002, category: CrashCategory::AppCrash }
    } else if i == 7 {
        QuerySpec { log: "Application"@, provider: ".NET Runtime"@, event_id: 1026, category: CrashCategory::AppCrash }
    } else {
        QuerySpec { log: "Application"@, provider: "Windows Error Reporting"@, event_id: 1001, category: CrashCategory::WerReport }
    }
}

fn crash_source(i: usize) -> (r: (QuerySource, CrashCategory))
    ensures
        r.0.log@ == crash_spec(i as int).log,
        r.0.provider@ == crash_spec(i as int).provider,
        r.0.event_id == crash_spec(i as int).event_id,
        r.1 == crash_spec(i as int).category,
{
    if i == 0 {
        (QuerySource { log: "System", provider: "Microsoft-Windows-WER-SystemErrorReporting", event_id: 1001 }, CrashCategory::Bugcheck)
    } else if i == 1 {
        (QuerySource { log: "System", provider: "Microsoft-Windows-Kernel-Power", event_id: 41 }, CrashCategory::UncleanShutdown)
    } else if i == 2 {
        (QuerySource { log: "System", provider: "Microsoft-Windows-WHEA-Logger", event_id: 18 }, CrashCategory::HardwareError)
    } else if i == 3 {
        (QuerySource { log: "System", provider: "Microsoft-Windows-WHEA-Logger", event_id: 19 }, CrashCategory::HardwareError)
    } else if i == 4 {
        (QuerySource { log: "System", provider: "Microsoft-Windows-WHEA-Logger", event_id: 20 }, CrashCategory::HardwareError)
    } else if i == 5 {
        (QuerySource { log: "Application", provider: "Application Error", event_id: 1000 }, CrashCategory::AppCrash)
    } else if i == 6 {
        (QuerySource { log: "Application", provider: "Application Error", event_id: 1002 }, CrashCategory::AppCrash)
    } else if i == 7 {
        (QuerySource { log: "Application", provider: ".NET Runtime", event_id: 1026 }, CrashCategory::AppCrash)
    } else {
        (QuerySource { log: "Application", provider: "Windows Error Reporting", event_id: 1001 }, CrashCategory::WerReport)
    }
}

/// The query that looks in one place of a report.
pub open spec fn source_query<C>(s: QuerySpec<C>, since: u64, max_results: usize) -> EventQueryView {
    EventQueryView {
        log: s.log,
        min_level: None,
        since_minutes: Some(since),
        provider: Some(s.provider),
        event_id: Some(s.event_id),
        max_results,
    }
}

fn query_of(s: &QuerySource, since: u64, max_results: usize) -> (r: EventQuery)
    ensures
        r@ == (EventQueryView {
            log: s.log@,
            min_level: None,
            since_minutes: Some(since),
            provider: Some(s.provider@),
            event_id: Some(s.event_id),
            max_results,
        }),
{
    EventQuery {
        log: s.log.to_owned(),
        min_level: None,
        since_minutes: Some(since),
        provider: Some(s.provider.to_owned()),
        event_id: Some(s.event_id),
        max_results,
    }
}

/// What is said of a query that failed.
pub open spec fn failure_text<C>(s: QuerySpec<C>, message: Seq<char>) -> Seq<char> {
    "query for "@ + s.log + "/"@ + s.provider + "/"@ + decimal(s.event_id as nat) + " failed: "@
        + message
}

fn failure_of(s: &QuerySource, message: &str) -> (r: String)
    ensures
        r@ == "query for "@ + s.log@ + "/"@ + s.provider@ + "/"@ + decimal(s.event_id as nat)
            + " failed: "@ + message@,
{
    let mut t = concat3("query for ", s.log, "/");
    t.append(s.provider);
    t.append("/");
    t.append(&decimal_text(s.event_id as u64));
    t.append(" failed: ");
    t.append(message);
    t
}

/// The look-back window that arguments ask for, in minutes.
pub open spec fn window_of(args: JsonView) -> u64 {
    minutes_for(
        match args.uint_at("since_minutes"@) {
            Some(m) => m,
            None => DEFAULT_SINCE_MINUTES,
        },
    )
}

fn window(args: &Json) -> (r: u64)
    ensures
        r == window_of(args@),
{
    let asked: u64 = match optional_u64(args, "since_minutes") {
        Some(m) => m,
        None => DEFAULT_SINCE_MINUTES,
    };
    clamp_minutes(asked)
}

/// `s` without the trailing characters that are one of `stops`.
pub open spec fn without_trailing_any(s: Seq<char>, stops: Seq<char>) -> Seq<char>
    decreases s.len(),
{
    if s.len() > 0 && stops.contains(s.last()) {
        without_trailing_any(s.drop_last(), stops)
    } else {
        s
    }
}

fn drop_trailing_any(s: &str, stops: &Vec<char>) -> (r: String)
    ensures
        r@ == without_trailing_any(s@, stops@),
{
    let v = chars_of(s);
    let mut n: usize = v.len();
    assert(s@.take(n as int) == s@);
    while n > 0 && is_one_of(v[n - 1], stops)
        invariant
            n <= v@.len(),
            v@ == s@,
            without_trailing_any(s@, stops@) == without_trailing_any(s@.take(n as int), stops@),
        decreases n,
    {
        assert(s@.take(n as int).drop_last() == s@.take(n - 1));
        n = n - 1;
    }
    let r = text_of(&v, 0, n);
    assert(r@ == s@.take(n as int));
    r
}

/// The bugcheck code in a message: the word behind the words that announce it,
/// without punctuation, where it is a hexadecimal number.
pub open spec fn bugcheck_in(text: Seq<char>) -> Option<Seq<char>> {
    match find_from(text, "The bugcheck was:"@, 0) {
        None => None,
        Some(at) => {
            let tokens = words_of(text.skip(at + 17));
            let first = if tokens.len() == 0 {
                Seq::empty()
            } else {
                tokens[0]
            };
            let code = without_trailing_any(first, seq!['.', ',', ';', ')']);
            if "0x"@.is_prefix_of(code) && code.len() > 2 {
                Some(code)
            } else {
                None
            }
        },
    }
}

/// The bugcheck code in a message, where there is one; it is never made up.
pub fn extract_bugcheck_code(message: Option<&str>) -> (r: Option<String>)
    ensures
        opt_view(r) == (match message {
            Some(text) => bugcheck_in(text@),
            None => None,
        }),
{
    match message {
        None => None,
        Some(text) => {
            let v = chars_of(text);
            let total: usize = v.len();
            let mark = chars_of("The bugcheck was:");
            proof {
                reveal_strlit("The bugcheck was:");
                lemma_find_from(text@, "The bugcheck was:"@, 0);
            }
            match find_chars(&v, &mark, 0) {
                None => None,
                Some(at) => {
                    assert(at + 17 <= total);
                    let rest = text_of(&v, at + 17, v.len());
                    assert(rest@ =~= text@.skip(at + 17));
                    let tokens = words(&rest);
                    let ghost all = views(tokens@);
                    let first: String = if tokens.len() == 0 {
                        String::new()
                    } else {
                        assert(all[0] == tokens@[0]@);
                        tokens[0].clone()
                    };
                    let stops: Vec<char> = vec!['.', ',', ';', ')'];
                    assert(stops@ =~= seq!['.', ',', ';', ')']);
                    let code = drop_trailing_any(&first, &stops);
                    if starts_with(&code, "0x") && code.as_str().unicode_len() > 2 {
                        Some(code)
                    } else {
                        None
                    }
                },
            }
        },
    }
}

/// One crash.
pub struct CrashEntry {
    pub category: CrashCategory,
    pub event_id: Option<u32>,
    pub provider: Option<String>,
    pub time_created: Option<String>,
    pub record_id: Option<u64>,
    pub summary: Option<String>,
    pub bugcheck_code: Option<String>,
}

/// Is `c` the crash that the event `e` of this category tells?
pub open spec fn tells_crash(c: CrashEntry, e: EventInfo, category: CrashCategory) -> bool {
    &&& c.category == category
    &&& c.event_id == e.event_id
    &&& c.provider == e.provider
    &&& c.time_created == e.time_created
    &&& c.record_id == e.record_id
    &&& c.summary == e.message
    &&& opt_view(c.bugcheck_code) == (if category == CrashCategory::Bugcheck && e.message is Some {
        bugcheck_in(e.message->0@)
    } else {
        None
    })
}

/// The crash that an event tells. Only a bugcheck has a bugcheck code.
pub fn crash_entry(e: &EventInfo, category: CrashCategory) -> (r: CrashEntry)
    ensures
        tells_crash(r, *e, category),
{
    let bugcheck_code = if category == CrashCategory::Bugcheck {
        match &e.message {
            Some(m) => extract_bugcheck_code(Some(m.as_str())),
            None => None,
        }
    } else {
        None
    };
    CrashEntry {
        category,
        event_id: e.event_id,
        provider: e.provider.clone(),
        time_created: e.time_created.clone(),
        record_id: e.record_id,
        summary: e.message.clone(),
        bugcheck_code,
    }
}

/// The earliest of several times, by their texts.
pub open spec fn earliest(times: Seq<Seq<char>>) -> Option<Seq<char>>
    decreases times.len(),
{
    if times.len() == 0 {
        None
    } else {
        match earliest(times.drop_last()) {
            None => Some(times.last()),
            Some(t) => if text_lt(times.last(), t) {
                Some(times.last())
            } else {
                Some(t)
            },
        }
    }
}

/// The latest of several times, by their texts.
pub open spec fn latest(times: Seq<Seq<char>>) -> Option<Seq<char>>
    decreases times.len(),
{
    if times.len() == 0 {
        None
    } else {
        match latest(times.drop_last()) {
            None => Some(times.last()),
            Some(t) => if text_lt(t, times.last()) {
                Some(times.last())
            } else {
                Some(t)
            },
        }
    }
}

/// How many crashes are of this category.
pub open spec fn crash_count(entries: Seq<CrashEntry>, category: CrashCategory) -> nat
    decreases entries.len(),
{
    if entries.len() == 0 {
        0
    } else {
        crash_count(entries.drop_last(), category) + (if entries.last().category == category {
            1nat
        } else {
            0
        })
    }
}

/// The times of the crashes of this category.
pub open spec fn crash_times(entries: Seq<CrashEntry>, category: CrashCategory) -> Seq<Seq<char>>
    decreases entries.len(),
{
    if entries.len() == 0 {
        Seq::empty()
    } else {
        let before = crash_times(entries.drop_last(), category);
        if entries.last().category == category && entries.last().time_created is Some {
            before.push(entries.last().time_created->0@)
        } else {
            before
        }
    }
}

/// What is told of one category.
pub struct CategoryBlock {
    pub category: CrashCategory,
    pub count: usize,
    pub first_ts: Option<String>,
    pub last_ts: Option<String>,
}

/// Does the block sum up the crashes of its category?
pub open spec fn sums_up(b: CategoryBlock, entries: Seq<CrashEntry>, category: CrashCategory) -> bool {
    &&& b.category == category
    &&& b.count == crash_count(entries, category)
    &&& opt_view(b.first_ts) == earliest(crash_times(entries, category))
    &&& opt_view(b.last_ts) == latest(crash_times(entries, category))
}

fn category_block(entries: &Vec<CrashEntry>, category: CrashCategory) -> (r: CategoryBlock)
    ensures
        sums_up(r, entries@, category),
{
    let mut count: usize = 0;
    let mut first_ts: Option<String> = None;
    let mut last_ts: Option<String> = None;
    let mut i: usize = 0;
    while i < entries.len()
        invariant
            i <= entries@.len(),
            count <= i,
            count == crash_count(entries@.take(i as int), category),
            opt_view(first_ts) == earliest(crash_times(entries@.take(i as int), category)),
            opt_view(last_ts) == latest(crash_times(entries@.take(i as int), category)),
        decreases entries@.len() - i,
    {
        let ghost seen = crash_times(entries@.take(i as int), category);
        assert(entries@.take(i + 1).drop_last() == entries@.take(i as int));
        if entries[i].category == category {
            count = count + 1;
            match &entries[i].time_created {
                Some(t) => {
                    proof {
                        assert(seen.push(t@).drop_last() =~= seen);
                    }
                    let key = key_of_text(t);
                    let earlier = match &first_ts {
                        Some(f) => key_less(&key, &key_of_text(f)),
                        None => true,
                    };
                    if earlier {
                        first_ts = Some(t.clone());
                    }
                    let later = match &last_ts {
                        Some(l) => key_less(&key_of_text(l), &key),
                        None => true,
                    };
                    if later {
                        last_ts = Some(t.clone());
                    }
                },
                None => {},
            }
        }
        i = i + 1;
    }
    assert(entries@.take(entries@.len() as int) == entries@);
    CategoryBlock { category, count, first_ts, last_ts }
}

/// What is told of every category, those without a crash included.
pub fn category_blocks(entries: &Vec<CrashEntry>) -> (r: Vec<CategoryBlock>)
    ensures
        r@.len() == crash_categories().len(),
        forall|i: int|
            0 <= i < r@.len() ==> sums_up(#[trigger] r@[i], entries@, crash_categories()[i]),
{
    let mut out: Vec<CategoryBlock> = Vec::new();
    out.push(category_block(entries, CrashCategory::Bugcheck));
    out.push(category_block(entries, CrashCategory::UncleanShutdown));
    out.push(category_block(entries, CrashCategory::HardwareError));
    out.push(category_block(entries, CrashCategory::AppCrash));
    out.push(category_block(entries, CrashCategory::WerReport));
    out
}

/// The crashes of the look-back window.
pub struct CrashHistory {
    pub since_minutes: u64,
    pub total: usize,
    pub truncated: bool,
    pub categories: Vec<CategoryBlock>,
    pub crashes: Vec<CrashEntry>,
    pub warnings: Vec<String>,
}

/// The warnings of the crash queries that failed, in order.
pub open spec fn crash_warnings(replies: Seq<Reply>) -> Seq<Seq<char>>
    decreases replies.len(),
{
    if replies.len() == 0 {
        Seq::empty()
    } else {
        let before = crash_warnings(replies.drop_last());
        match replies.last() {
            Ok(_) => before,
            Err(e) => before.push(failure_text(crash_spec(replies.len() - 1), e.message@)),
        }
    }
}

/// Do the crashes tell the events at these places?
pub open spec fn tell_crashes(
    crashes: Seq<CrashEntry>,
    replies: Seq<Reply>,
    places: Seq<int>,
) -> bool {
    &&& crashes.len() == places.len()
    &&& forall|i: int|
        0 <= i < crashes.len() ==> tells_crash(
            #[trigger] crashes[i],
            gathered(replies)[places[i]].0,
            crash_spec(gathered(replies)[places[i]].1).category,
        )
}

/// Is `r` the crash report that the replies to the queries amount to?
pub open spec fn reports_crashes(
    r: CrashHistory,
    since: u64,
    max_results: usize,
    replies: Seq<Reply>,
) -> bool {
    &&& r.since_minutes == since
    &&& exists|places: Seq<int>| #[trigger]
        is_event_timeline(places, gathered_events(replies)) && tell_crashes(
            r.crashes@,
            replies,
            places,
        )
    &&& r.total == r.crashes@.len()
    &&& r.truncated == (r.crashes@.len() >= CRASH_QUERY_COUNT * max_results)
    &&& r.categories@.len() == crash_categories().len()
    &&& forall|i: int|
        0 <= i < r.categories@.len() ==> sums_up(
            #[trigger] r.categories@[i],
            r.crashes@,
            crash_categories()[i],
        )
    &&& views(r.warnings@) == crash_warnings(replies)
}

/// The crash report that the replies to the queries amount to: each record
/// once, the newest first.
pub fn crash_report(since: u64, max_results: usize, replies: &Vec<Reply>) -> (r: CrashHistory)
    ensures
        reports_crashes(r, since, max_results, replies@),
{
    let (events, queries) = gather(replies);
    let places = timeline(&events);
    let ghost all = gathered(replies@);
    let mut crashes: Vec<CrashEntry> = Vec::new();
    let mut i: usize = 0;
    while i < places.len()
        invariant
            all == gathered(replies@),
            events@ == gathered_events(replies@),
            queries@.len() == events@.len(),
            forall|k: int| 0 <= k < queries@.len() ==> (#[trigger] queries@[k]) as int == all[k].1,
            i <= places@.len(),
            forall|k: int| 0 <= k < places@.len() ==> #[trigger] places@[k] < events@.len(),
            crashes@.len() == i,
            forall|k: int|
                0 <= k < i ==> tells_crash(
                    #[trigger] crashes@[k],
                    all[ints(places@)[k]].0,
                    crash_spec(all[ints(places@)[k]].1).category,
                ),
        decreases places@.len() - i,
    {
        let at: usize = places[i];
        assert(events@[at as int] == all[at as int].0);
        let category = crash_source(queries[at]).1;
        crashes.push(crash_entry(&events[at], category));
        i = i + 1;
    }
    assert(tell_crashes(crashes@, replies@, ints(places@)));
    let mut warnings: Vec<String> = Vec::new();
    let mut j: usize = 0;
    assert(views(warnings@) =~= crash_warnings(replies@.take(0)));
    while j < replies.len()
        invariant
            j <= replies@.len(),
            views(warnings@) == crash_warnings(replies@.take(j as int)),
        decreases replies@.len() - j,
    {
        assert(replies@.take(j + 1).drop_last() == replies@.take(j as int));
        let ghost before = views(warnings@);
        match &replies[j] {
            Ok(_) => {},
            Err(e) => {
                let w = failure_of(&crash_source(j).0, &e.message);
                assert(w@ == failure_text(crash_spec(j as int), e.message@));
                warnings.push(w);
                assert(views(warnings@) =~= before.push(w@));
            },
        }
        j = j + 1;
    }
    assert(replies@.take(replies@.len() as int) == replies@);
    let total: usize = crashes.len();
    let truncated = total as u128 >= CRASH_QUERY_COUNT as u128 * max_results as u128;
    CrashHistory {
        since_minutes: since,
        total,
        truncated,
        categories: category_blocks(&crashes),
        crashes,
        warnings,
    }
}

/// Did the machine give these replies to the crash queries?
pub open spec fn crash_replies<B: WindowsBackend>(
    backend: &B,
    since: u64,
    max_results: usize,
    replies: Seq<Reply>,
) -> bool {
    forall|i: int|
        0 <= i < replies.len() ==> asked(
            backend,
            source_query(crash_spec(i), since, max_results),
            #[trigger] replies[i],
        )
}

/// Did the machine give this reply to this query?
pub open spec fn asked<B: WindowsBackend>(backend: &B, view: EventQueryView, reply: Reply) -> bool {
    exists|query: EventQuery|
        query@ == view && #[trigger] call_ensures(B::get_recent_events, (backend, &query), reply)
}

/// The crashes of the look-back window that the arguments ask for.
pub fn crash_history_handler<B: WindowsBackend>(backend: &B, args: &Json, max_events: usize) -> (r:
    Result<CrashHistory, WinkitError>)
    requires
        usize_at(args@, "max_results"@) is Some ==> max_events >= 1,
    ensures
        r is Ok,
        exists|replies: Seq<Reply>|
            replies.len() == CRASH_QUERY_COUNT && #[trigger] crash_replies(
                backend,
                window_of(args@),
                limit_for(usize_at(args@, "max_results"@), max_events),
                replies,
            ) && reports_crashes(
                r->Ok_0,
                window_of(args@),
                limit_for(usize_at(args@, "max_results"@), max_events),
                replies,
            ),
{
    let since: u64 = window(args);
    let max_results: usize = clamp_limit(optional_usize(args, "max_results"), max_events);
    let mut replies: Vec<Reply> = Vec::new();
    let mut i: usize = 0;
    while i < CRASH_QUERY_COUNT
        invariant
            i <= CRASH_QUERY_COUNT,
            replies@.len() == i,
            crash_replies(backend, since, max_results, replies@),
        decreases CRASH_QUERY_COUNT - i,
    {
        let query = query_of(&crash_source(i).0, since, max_results);
        assert(query@ =~= source_query(crash_spec(i as int), since, max_results));
        let reply = backend.get_recent_events(&query);
        assert(asked(backend, query@, reply));
        let ghost before = replies@;
        replies.push(reply);
        assert forall|k: int| 0 <= k < replies@.len() implies asked(
            backend,
            source_query(crash_spec(k), since, max_results),
            #[trigger] replies@[k],
        ) by {
            if k < i {
                assert(replies@[k] == before[k]);
            }
        }
        i = i + 1;
    }
    let report = crash_report(since, max_results, &replies);
    Ok(report)
}

/// What kind of boot or shutdown an event is.
#[derive(Debug, Clone, Copy, PartialEq, Eq, Structural)]
pub enum ShutdownCategory {
    Boot,
    CleanShutdown,
    UnexpectedShutdown,
    UserShutdown,
    PowerLoss,
    Sleep,
    Hibernate,
    Uptime,
}

impl ShutdownCategory {
    /// The name of the category.
    pub open spec fn name(self) -> Seq<char> {
        match self {
            ShutdownCategory::Boot => "boot"@,
            ShutdownCategory::CleanShutdown => "clean_shutdown"@,
            ShutdownCategory::UnexpectedShutdown => "unexpected_shutdown"@,
            ShutdownCategory::UserShutdown => "user_shutdown"@,
            ShutdownCategory::PowerLoss => "power_loss"@,
            ShutdownCategory::Sleep => "sleep"@,
            ShutdownCategory::Hibernate => "hibernate"@,
            ShutdownCategory::Uptime => "uptime"@,
        }
    }

    /// The name of the category.
    pub fn as_str(self) -> (r: &'static str)
        ensures
            r@ == self.name(),
    {
        match self {
            ShutdownCategory::Boot => "boot",
            ShutdownCategory::CleanShutdown => "clean_shutdown",
            ShutdownCategory::UnexpectedShutdown => "unexpected_shutdown",
            ShutdownCategory::UserShutdown => "user_shutdown",
            ShutdownCategory::PowerLoss => "power_loss",
            ShutdownCategory::Sleep => "sleep",
            ShutdownCategory::Hibernate => "hibernate",
            ShutdownCategory::Uptime => "uptime",
        }
    }

    /// Is it a way in which the machine went down?
    pub open spec fn is_shutdown(self) -> bool {
        self == ShutdownCategory::CleanShutdown || self == ShutdownCategory::UnexpectedShutdown
            || self == ShutdownCategory::UserShutdown || self == ShutdownCategory::PowerLoss
    }
}

/// Is it a way in which the machine went down?
pub fn is_shutdown_category(category: ShutdownCategory) -> (r: bool)
    ensures
        r == category.is_shutdown(),
{
    match category {
        ShutdownCategory::CleanShutdown | ShutdownCategory::UnexpectedShutdown
        | ShutdownCategory::UserShutdown | ShutdownCategory::PowerLoss => true,
        _ => false,
    }
}

/// The queries behind a shutdown report.
pub open spec fn shutdown_spec(i: int) -> QuerySpec<ShutdownCategory> {
    if i == 0 {
        QuerySpec { log: "System"@, provider: "Microsoft-Windows-Eventlog"@, event_id: 6005, category: ShutdownCategory::Boot }
    } else if i == 1 {
        QuerySpec { log: "System"@, provider: "Microsoft-Windows-Kernel-General"@, event_id: 12, category: ShutdownCategory::Boot }
    } else if i == 2 {
        QuerySpec { log: "System"@, provider: "Microsoft-Windows-Eventlog"@, event_id: 6006, category: ShutdownCategory::CleanShutdown }
    } else if i == 3 {
        QuerySpec { log: "System"@, provider: "Microsoft-Windows-Kernel-General"@, event_id: 13, category: ShutdownCategory::CleanShutdown }
    } else if i == 4 {
        QuerySpec { log: "System"@, provider: "Microsoft-Windows-Eventlog"@, event_id: 6008, category: ShutdownCategory::UnexpectedShutdown }
    } else if i == 5 {
        QuerySpec { log: "System"@, provider: "User32"@, event_id: 1074, category: ShutdownCategory::UserShutdown }
    } else if i == 6 {
        QuerySpec { log: "System"@, provider: "Microsoft-Windows-Kernel-Power"@, event_id: 41, category: ShutdownCategory::PowerLoss }
    } else if i == 7 {
        QuerySpec { log: "System"@, provider: "Microsoft-Windows-Kernel-Power"@, event_id: 42, category: ShutdownCategory::Sleep }
    } else if i == 8 {
        QuerySpec { log: "System"@, provider: "Microsoft-Windows-Kernel-Power"@, event_id: 107, category: ShutdownCategory::Hibernate }
    } else {
        QuerySpec { log: "System"@, provider: "Microsoft-Windows-Eventlog"@, event_id: 6013, category: ShutdownCategory::Uptime }
    }
}

fn shutdown_source(i: usize) -> (r: (QuerySource, ShutdownCategory))
    ensures
        r.0.log@ == shutdown_spec(i as int).log,
        r.0.provider@ == shutdown_spec(i as int).provider,
        r.0.event_id == shutdown_spec(i as int).event_id,
        r.1 == shutdown_spec(i as int).category,
{
    if i == 0 {
        (QuerySource { log: "System", provider: "Microsoft-Windows-Eventlog", event_id: 6005 }, ShutdownCategory::Boot)
    } else if i == 1 {
        (QuerySource { log: "System", provider: "Microsoft-Windows-Kernel-General", event_id: 12 }, ShutdownCategory::Boot)
    } else if i == 2 {
        (QuerySource { log: "System", provider: "Microsoft-Windows-Eventlog", event_id: 6006 }, ShutdownCategory::CleanShutdown)
    } else if i == 3 {
        (QuerySource { log: "System", provider: "Microsoft-Windows-Kernel-General", event_id: 13 }, ShutdownCategory::CleanShutdown)
    } else if i == 4 {
        (QuerySource { log: "System", provider: "Microsoft-Windows-Eventlog", event_id: 6008 }, ShutdownCategory::UnexpectedShutdown)
    } else if i == 5 {
        (QuerySource { log: "System", provider: "User32", event_id: 1074 }, ShutdownCategory::UserShutdown)
    } else if i == 6 {
        (QuerySource { log: "System", provider: "Microsoft-Windows-Kernel-Power", event_id: 41 }, ShutdownCategory::PowerLoss)
    } else if i == 7 {
        (QuerySource { log: "System", provider: "Microsoft-Windows-Kernel-Power", event_id: 42 }, ShutdownCategory::Sleep)
    } else if i == 8 {
        (QuerySource { log: "System", provider: "Microsoft-Windows-Kernel-Power", event_id: 107 }, ShutdownCategory::Hibernate)
    } else {
        (QuerySource { log: "System", provider: "Microsoft-Windows-Eventlog", event_id: 6013 }, ShutdownCategory::Uptime)
    }
}

/// One boot, shutdown or the like.
pub struct ShutdownEntry {
    pub category: ShutdownCategory,
    pub event_id: Option<u32>,
    pub provider: Option<String>,
    pub time_created: Option<String>,
    pub record_id: Option<u64>,
    /// The message, only where it says more than the category.
    pub detail: Option<String>,
}

/// Does the message of an event of this category say more than the category?
pub open spec fn has_detail(category: ShutdownCategory) -> bool {
    category == ShutdownCategory::UserShutdown || category == ShutdownCategory::UnexpectedShutdown
        || category == ShutdownCategory::Uptime
}

/// Is `s` what the event `e` of this category tells?
pub open spec fn tells_shutdown(s: ShutdownEntry, e: EventInfo, category: ShutdownCategory) -> bool {
    &&& s.category == category
    &&& s.event_id == e.event_id
    &&& s.provider == e.provider
    &&& s.time_created == e.time_created
    &&& s.record_id == e.record_id
    &&& s.detail == (if has_detail(category) {
        e.message
    } else {
        None
    })
}

/// What an event tells.
pub fn shutdown_entry(e: &EventInfo, category: ShutdownCategory) -> (r: ShutdownEntry)
    ensures
        tells_shutdown(r, *e, category),
{
    let detail = match category {
        ShutdownCategory::UserShutdown | ShutdownCategory::UnexpectedShutdown
        | ShutdownCategory::Uptime => e.message.clone(),
        _ => None,
    };
    ShutdownEntry {
        category,
        event_id: e.event_id,
        provider: e.provider.clone(),
        time_created: e.time_created.clone(),
        record_id: e.record_id,
        detail,
    }
}

/// How many entries are of this category.
pub open spec fn entry_count(entries: Seq<ShutdownEntry>, category: ShutdownCategory) -> nat
    decreases entries.len(),
{
    if entries.len() == 0 {
        0
    } else {
        entry_count(entries.drop_last(), category) + (if entries.last().category == category {
            1nat
        } else {
            0
        })
    }
}

/// How many entries are of this category.
pub fn count_category(entries: &Vec<ShutdownEntry>, category: ShutdownCategory) -> (r: usize)
    ensures
        r == entry_count(entries@, category),
{
    let mut n: usize = 0;
    let mut i: usize = 0;
    while i < entries.len()
        invariant
            i <= entries@.len(),
            n <= i,
            n == entry_count(entries@.take(i as int), category),
        decreases entries@.len() - i,
    {
        assert(entries@.take(i + 1).drop_last() == entries@.take(i as int));
        if entries[i].category == category {
            n = n + 1;
        }
        i = i + 1;
    }
    assert(entries@.take(entries@.len() as int) == entries@);
    n
}

/// The time of the first boot that has one.
pub open spec fn first_boot_time(entries: Seq<ShutdownEntry>) -> Option<Seq<char>>
    decreases entries.len(),
{
    if entries.len() == 0 {
        None
    } else if entries[0].category == ShutdownCategory::Boot && entries[0].time_created is Some {
        Some(entries[0].time_created->0@)
    } else {
        first_boot_time(entries.drop_first())
    }
}

fn boot_time(entries: &Vec<ShutdownEntry>) -> (r: Option<String>)
    ensures
        opt_view(r) == first_boot_time(entries@),
{
    let mut i: usize = 0;
    assert(entries@.skip(0) == entries@);
    while i < entries.len()
        invariant
            i <= entries@.len(),
            first_boot_time(entries@) == first_boot_time(entries@.skip(i as int)),
        decreases entries@.len() - i,
    {
        assert(entries@.skip(i as int)[0] == entries@[i as int]);
        assert(entries@.skip(i as int).drop_first() == entries@.skip(i + 1));
        if entries[i].category == ShutdownCategory::Boot {
            match &entries[i].time_created {
                Some(t) => {
                    return Some(t.clone());
                },
                None => {},
            }
        }
        i = i + 1;
    }
    None
}

/// Is the entry a shutdown that is not known to be after the boot?
pub open spec fn precedes_boot(e: ShutdownEntry, boot: Option<Seq<char>>) -> bool {
    &&& e.category.is_shutdown()
    &&& match (e.time_created, boot) {
        (Some(t), Some(b)) => !text_lt(b, t@),
        _ => true,
    }
}

/// Does the time of `a` come strictly after the time of `b`? No time is before
/// any time.
pub open spec fn later(a: ShutdownEntry, b: ShutdownEntry) -> bool {
    match (a.time_created, b.time_created) {
        (Some(x), Some(y)) => text_lt(y@, x@),
        (Some(_), None) => true,
        _ => false,
    }
}

/// The place of the newest shutdown before the boot; of several of the same
/// time the first.
pub open spec fn newest_before(entries: Seq<ShutdownEntry>, boot: Option<Seq<char>>) -> Option<int>
    decreases entries.len(),
{
    if entries.len() == 0 {
        None
    } else {
        let e = entries.last();
        match newest_before(entries.drop_last(), boot) {
            None => if precedes_boot(e, boot) {
                Some(entries.len() - 1)
            } else {
                None
            },
            Some(i) => if precedes_boot(e, boot) && later(e, entries[i]) {
                Some(entries.len() - 1)
            } else {
                Some(i)
            },
        }
    }
}

fn comes_later(a: &ShutdownEntry, b: &ShutdownEntry) -> (r: bool)
    ensures
        r == later(*a, *b),
{
    match (&a.time_created, &b.time_created) {
        (Some(x), Some(y)) => key_less(&key_of_text(y), &key_of_text(x)),
        (Some(_), None) => true,
        _ => false,
    }
}

/// How the machine last went down: the newest shutdown before the newest boot,
/// or nothing where there is no evidence of one.
pub fn last_shutdown_kind(entries: &Vec<ShutdownEntry>, last_boot_time: &Option<String>) -> (r:
    Option<ShutdownCategory>)
    ensures
        r == (match newest_before(entries@, opt_view(*last_boot_time)) {
            Some(i) => Some(entries@[i].category),
            None => None,
        }),
{
    let ghost boot = opt_view(*last_boot_time);
    let mut best: Option<usize> = None;
    let mut i: usize = 0;
    while i < entries.len()
        invariant
            boot == opt_view(*last_boot_time),
            i <= entries@.len(),
            match best {
                Some(b) => b < i && newest_before(entries@.take(i as int), boot) == Some(b as int),
                None => newest_before(entries@.take(i as int), boot) is None,
            },
        decreases entries@.len() - i,
    {
        assert(entries@.take(i + 1).drop_last() == entries@.take(i as int));
        let not_after = match (&entries[i].time_created, last_boot_time) {
            (Some(t), Some(b)) => !key_less(&key_of_text(b), &key_of_text(t)),
            _ => true,
        };
        if is_shutdown_category(entries[i].category) && not_after {
            match best {
                None => {
                    best = Some(i);
                },
                Some(b) => {
                    assert(entries@.take(i as int)[b as int] == entries@[b as int]);
                    if comes_later(&entries[i], &entries[b]) {
                        best = Some(i);
                    }
                },
            }
        }
        i = i + 1;
    }
    assert(entries@.take(entries@.len() as int) == entries@);
    match best {
        Some(b) => Some(entries[b].category),
        None => None,
    }
}

proof fn lemma_newest_before(entries: Seq<ShutdownEntry>, boot: Option<Seq<char>>)
    ensures
        match newest_before(entries, boot) {
            Some(i) => 0 <= i < entries.len() && precedes_boot(entries[i], boot) && (forall|k: int|
                0 <= k < entries.len() && precedes_boot(#[trigger] entries[k], boot) ==> !later(
                    entries[k],
                    entries[i],
                )),
            None => forall|k: int|
                0 <= k < entries.len() ==> !precedes_boot(#[trigger] entries[k], boot),
        },
    decreases entries.len(),
{
    if entries.len() > 0 {
        let rest = entries.drop_last();
        let e = entries.last();
        lemma_newest_before(rest, boot);
        match newest_before(rest, boot) {
            None => {
                assert forall|k: int| 0 <= k < rest.len() implies !precedes_boot(
                    #[trigger] entries[k],
                    boot,
                ) by {
                    assert(rest[k] == entries[k]);
                }
                lemma_not_later_than_itself(e);
            },
            Some(i) => {
                let chosen = newest_before(entries, boot)->0;
                lemma_not_later_than_itself(e);
                assert forall|k: int|
                    0 <= k < entries.len() && precedes_boot(#[trigger] entries[k], boot) implies
                    !later(entries[k], entries[chosen]) by {
                    if k < rest.len() {
                        assert(rest[k] == entries[k]);
                        assert(!later(entries[k], entries[i]));
                        if chosen != i {
                            lemma_later_chain(entries[k], entries[i], e);
                        }
                    }
                }
            },
        }
    }
}

proof fn lemma_not_later_than_itself(e: ShutdownEntry)
    ensures
        !later(e, e),
{
    if e.time_created is Some {
        crate::order::lemma_key_irreflexive(crate::order::text_key(e.time_created->0@));
    }
}

/// What is not later than `b` is not later than what is later than `b`.
proof fn lemma_later_chain(a: ShutdownEntry, b: ShutdownEntry, c: ShutdownEntry)
    requires
        !later(a, b),
        later(c, b),
    ensures
        !later(a, c),
{
    if later(a, c) {
        if b.time_created is Some {
            crate::order::lemma_key_transitive(
                crate::order::text_key(b.time_created->0@),
                crate::order::text_key(c.time_created->0@),
                crate::order::text_key(a.time_created->0@),
            );
        }
    }
}

/// The kind of the last shutdown is that of a shutdown that is not after the
/// newest boot, and no other such shutdown is newer; it is never made up.
pub proof fn law_last_shutdown_has_evidence(
    entries: Seq<ShutdownEntry>,
    boot: Option<Seq<char>>,
    i: int,
)
    requires
        newest_before(entries, boot) == Some(i),
    ensures
        0 <= i < entries.len(),
        entries[i].category.is_shutdown(),
        precedes_boot(entries[i], boot),
        forall|k: int|
            0 <= k < entries.len() && precedes_boot(#[trigger] entries[k], boot) ==> !later(
                entries[k],
                entries[i],
            ),
{
    lemma_newest_before(entries, boot);
}

/// What the entries of a shutdown report add up to.
pub struct ShutdownSummary {
    pub boots: usize,
    pub clean_shutdowns: usize,
    pub unexpected_shutdowns: usize,
    pub power_losses: usize,
    pub user_initiated_shutdowns: usize,
    pub sleeps: usize,
    pub hibernations: usize,
    pub last_shutdown_kind: Option<ShutdownCategory>,
}

/// The boots and shutdowns of the look-back window.
pub struct ShutdownAnalysis {
    pub since_minutes: u64,
    pub current_boot_time: Option<String>,
    pub current_uptime_seconds: Option<u64>,
    pub last_boot_time: Option<String>,
    pub total_events: usize,
    pub truncated: bool,
    pub summary: ShutdownSummary,
    pub events: Vec<ShutdownEntry>,
    pub warnings: Vec<String>,
}

/// Does the summary add the entries up?
pub open spec fn adds_up(
    s: ShutdownSummary,
    entries: Seq<ShutdownEntry>,
    boot: Option<Seq<char>>,
) -> bool {
    &&& s.boots == entry_count(entries, ShutdownCategory::Boot)
    &&& s.clean_shutdowns == entry_count(entries, ShutdownCategory::CleanShutdown)
    &&& s.unexpected_shutdowns == entry_count(entries, ShutdownCategory::UnexpectedShutdown)
    &&& s.power_losses == entry_count(entries, ShutdownCategory::PowerLoss)
    &&& s.user_initiated_shutdowns == entry_count(entries, ShutdownCategory::UserShutdown)
    &&& s.sleeps == entry_count(entries, ShutdownCategory::Sleep)
    &&& s.hibernations == entry_count(entries, ShutdownCategory::Hibernate)
    &&& s.last_shutdown_kind == (match newest_before(entries, boot) {
        Some(i) => Some(entries[i].category),
        None => None,
    })
}

/// The warnings of the shutdown queries that failed, in order.
pub open spec fn shutdown_warnings(replies: Seq<Reply>) -> Seq<Seq<char>>
    decreases replies.len(),
{
    if replies.len() == 0 {
        Seq::empty()
    } else {
        let before = shutdown_warnings(replies.drop_last());
        match replies.last() {
            Ok(_) => before,
            Err(e) => before.push(failure_text(shutdown_spec(replies.len() - 1), e.message@)),
        }
    }
}

/// All the warnings of a shutdown report.
pub open spec fn all_warnings(
    replies: Seq<Reply>,
    system: Result<SystemInfo, WinkitError>,
) -> Seq<Seq<char>> {
    match system {
        Ok(_) => shutdown_warnings(replies),
        Err(e) => shutdown_warnings(replies).push("system_info unavailable: "@ + e.message@),
    }
}

/// Do the entries tell the events at these places?
pub open spec fn tell_shutdowns(
    entries: Seq<ShutdownEntry>,
    replies: Seq<Reply>,
    places: Seq<int>,
) -> bool {
    &&& entries.len() == places.len()
    &&& forall|i: int|
        0 <= i < entries.len() ==> tells_shutdown(
            #[trigger] entries[i],
            gathered(replies)[places[i]].0,
            shutdown_spec(gathered(replies)[places[i]].1).category,
        )
}

/// Is `r` the shutdown report that the replies amount to?
pub open spec fn reports_shutdowns(
    r: ShutdownAnalysis,
    since: u64,
    max_results: usize,
    replies: Seq<Reply>,
    system: Result<SystemInfo, WinkitError>,
) -> bool {
    &&& r.since_minutes == since
    &&& exists|places: Seq<int>| #[trigger]
        is_event_timeline(places, gathered_events(replies)) && tell_shutdowns(
            r.events@,
            replies,
            places,
        )
    &&& r.total_events == r.events@.len()
    &&& r.truncated == (r.events@.len() >= SHUTDOWN_QUERY_COUNT * max_results)
    &&& opt_view(r.last_boot_time) == first_boot_time(r.events@)
    &&& r.current_boot_time == (match system {
        Ok(info) => info.boot_time,
        Err(_) => None,
    })
    &&& r.current_uptime_seconds == (match system {
        Ok(info) => Some(info.uptime_seconds),
        Err(_) => None,
    })
    &&& adds_up(r.summary, r.events@, first_boot_time(r.events@))
    &&& views(r.warnings@) == all_warnings(replies, system)
}

/// The shutdown report that the replies amount to.
pub fn shutdown_report(
    since: u64,
    max_results: usize,
    replies: &Vec<Reply>,
    system: Result<SystemInfo, WinkitError>,
) -> (r: ShutdownAnalysis)
    ensures
        reports_shutdowns(r, since, max_results, replies@, system),
{
    let (found, queries) = gather(replies);
    let places = timeline(&found);
    let ghost all = gathered(replies@);
    let mut events: Vec<ShutdownEntry> = Vec::new();
    let mut i: usize = 0;
    while i < places.len()
        invariant
            all == gathered(replies@),
            found@ == gathered_events(replies@),
            queries@.len() == found@.len(),
            forall|k: int| 0 <= k < queries@.len() ==> (#[trigger] queries@[k]) as int == all[k].1,
            i <= places@.len(),
            forall|k: int| 0 <= k < places@.len() ==> #[trigger] places@[k] < found@.len(),
            events@.len() == i,
            forall|k: int|
                0 <= k < i ==> tells_shutdown(
                    #[trigger] events@[k],
                    all[ints(places@)[k]].0,
                    shutdown_spec(all[ints(places@)[k]].1).category,
                ),
        decreases places@.len() - i,
    {
        let at: usize = places[i];
        assert(found@[at as int] == all[at as int].0);
        let category = shutdown_source(queries[at]).1;
        events.push(shutdown_entry(&found[at], category));
        i = i + 1;
    }
    assert(tell_shutdowns(events@, replies@, ints(places@)));
    let mut warnings: Vec<String> = Vec::new();
    let mut j: usize = 0;
    assert(views(warnings@) =~= shutdown_warnings(replies@.take(0)));
    while j < replies.len()
        invariant
            j <= replies@.len(),
            views(warnings@) == shutdown_warnings(replies@.take(j as int)),
        decreases replies@.len() - j,
    {
        assert(replies@.take(j + 1).drop_last() == replies@.take(j as int));
        let ghost before = views(warnings@);
        match &replies[j] {
            Ok(_) => {},
            Err(e) => {
                let w = failure_of(&shutdown_source(j).0, &e.message);
                assert(w@ == failure_text(shutdown_spec(j as int), e.message@));
                warnings.push(w);
                assert(views(warnings@) =~= before.push(w@));
            },
        }
        j = j + 1;
    }
    assert(replies@.take(replies@.len() as int) == replies@);
    let ghost query_warnings = views(warnings@);
    let (current_boot_time, current_uptime_seconds): (Option<String>, Option<u64>) = match &system {
        Ok(info) => (info.boot_time.clone(), Some(info.uptime_seconds)),
        Err(e) => {
            let w = crate::text::concat2("system_info unavailable: ", &e.message);
            warnings.push(w);
            assert(views(warnings@) =~= query_warnings.push(w@));
            (None, None)
        },
    };
    let last_boot_time = boot_time(&events);
    let summary = ShutdownSummary {
        boots: count_category(&events, ShutdownCategory::Boot),
        clean_shutdowns: count_category(&events, ShutdownCategory::CleanShutdown),
        unexpected_shutdowns: count_category(&events, ShutdownCategory::UnexpectedShutdown),
        power_losses: count_category(&events, ShutdownCategory::PowerLoss),
        user_initiated_shutdowns: count_category(&events, ShutdownCategory::UserShutdown),
        sleeps: count_category(&events, ShutdownCategory::Sleep),
        hibernations: count_category(&events, ShutdownCategory::Hibernate),
        last_shutdown_kind: last_shutdown_kind(&events, &last_boot_time),
    };
    let total_events: usize = events.len();
    let truncated = total_events as u128 >= SHUTDOWN_QUERY_COUNT as u128 * max_results as u128;
    ShutdownAnalysis {
        since_minutes: since,
        current_boot_time,
        current_uptime_seconds,
        last_boot_time,
        total_events,
        truncated,
        summary,
        events,
        warnings,
    }
}

/// Did the machine give these replies to the shutdown queries?
pub open spec fn shutdown_replies<B: WindowsBackend>(
    backend: &B,
    since: u64,
    max_results: usize,
    replies: Seq<Reply>,
) -> bool {
    forall|i: int|
        0 <= i < replies.len() ==> asked(
            backend,
            source_query(shutdown_spec(i), since, max_results),
            #[trigger] replies[i],
        )
}

/// The boots and shutdowns of the look-back window that the arguments ask for.
pub fn shutdown_analysis_handler<B: WindowsBackend>(
    backend: &B,
    args: &Json,
    max_events: usize,
) -> (r: Result<ShutdownAnalysis, WinkitError>)
    requires
        usize_at(args@, "max_results"@) is Some ==> max_events >= 1,
    ensures
        r is Ok,
        exists|replies: Seq<Reply>, system: Result<SystemInfo, WinkitError>|
            replies.len() == SHUTDOWN_QUERY_COUNT && #[trigger] shutdown_replies(
                backend,
                window_of(args@),
                limit_for(usize_at(args@, "max_results"@), max_events),
                replies,
            ) && #[trigger] call_ensures(B::system_info, (backend,), system) && reports_shutdowns(
                r->Ok_0,
                window_of(args@),
                limit_for(usize_at(args@, "max_results"@), max_events),
                replies,
                system,
            ),
{
    let since: u64 = window(args);
    let max_results: usize = clamp_limit(optional_usize(args, "max_results"), max_events);
    let mut replies: Vec<Reply> = Vec::new();
    let mut i: usize = 0;
    while i < SHUTDOWN_QUERY_COUNT
        invariant
            i <= SHUTDOWN_QUERY_COUNT,
            replies@.len() == i,
            shutdown_replies(backend, since, max_results, replies@),
        decreases SHUTDOWN_QUERY_COUNT - i,
    {
        let query = query_of(&shutdown_source(i).0, since, max_results);
        assert(query@ =~= source_query(shutdown_spec(i as int), since, max_results));
        let reply = backend.get_recent_events(&query);
        assert(asked(backend, query@, reply));
        let ghost before = replies@;
        replies.push(reply);
        assert forall|k: int| 0 <= k < replies@.len() implies asked(
            backend,
            source_query(shutdown_spec(k), since, max_results),
            #[trigger] replies@[k],
        ) by {
            if k < i {
                assert(replies@[k] == before[k]);
            }
        }
        i = i + 1;
    }
    let system = backend.system_info();
    let report = shutdown_report(since, max_results, &replies, system);
    Ok(report)
}

/// What the tool `crash_history` does, in words.
pub const CRASH_HISTORY_ABOUT: &'static str = "Crash history from the Windows event logs: bugchecks (BSODs), unclean shutdowns, hardware errors (WHEA-Logger), application crashes, and Windows Error Reporting events, grouped by category with a bugcheck code when the message carries one.";

/// The parameters of the tool `crash_history`.
pub open spec fn crash_history_params() -> Seq<ParamView> {
    seq![
        ParamView::new("since_minutes"@, ParamKind::Integer)
            .at_least(1)
            .at_most(129600)
            .about("Look-back window in minutes (default 43200 = 30 days, capped at 90 days)."@),
        ParamView::new("max_results"@, ParamKind::Integer)
            .at_least(1)
            .about("Per-category result cap (defaults to the configured event limit)."@),
    ]
}

/// The tool `crash_history`.
pub open spec fn crash_history_tool() -> ToolView {
    ToolView {
        name: "crash_history"@,
        description: CRASH_HISTORY_ABOUT@,
        input_schema: schema_view(crash_history_params()),
        capability: Some(Capability::EventRead),
        timeout_ms: None,
    }
}

/// The tool `crash_history`.
pub fn crash_history_definition() -> (r: ToolDefinition)
    ensures
        r@ == crash_history_tool(),
{
    let params: Vec<Param> = vec![
        Param::new("since_minutes", ParamKind::Integer)
            .at_least(1)
            .at_most(129600)
            .about("Look-back window in minutes (default 43200 = 30 days, capped at 90 days)."),
        Param::new("max_results", ParamKind::Integer)
            .at_least(1)
            .about("Per-category result cap (defaults to the configured event limit)."),
    ];
    assert(param_views(params@) =~= crash_history_params());
    ToolDefinition {
        name: "crash_history",
        description: CRASH_HISTORY_ABOUT,
        input_schema: input_schema(&params),
        capability: Some(Capability::EventRead),
        timeout_ms: None,
    }
}

/// What the tool `shutdown_analysis` does, in words.
pub const SHUTDOWN_ANALYSIS_ABOUT: &'static str = "Boot and shutdown timeline from the System event log: boots, clean shutdowns, unexpected shutdowns, user-initiated shutdowns/restarts, power losses, sleep/hibernate transitions, and uptime reports, plus a last-shutdown-kind summary.";

/// The parameters of the tool `shutdown_analysis`.
pub open spec fn shutdown_analysis_params() -> Seq<ParamView> {
    seq![
        ParamView::new("since_minutes"@, ParamKind::Integer)
            .at_least(1)
            .at_most(129600)
            .about("Look-back window in minutes (default 43200 = 30 days, capped at 90 days)."@),
        ParamView::new("max_results"@, ParamKind::Integer)
            .at_least(1)
            .about("Per-category result cap (defaults to the configured event limit)."@),
    ]
}

/// The tool `shutdown_analysis`.
pub open spec fn shutdown_analysis_tool() -> ToolView {
    ToolView {
        name: "shutdown_analysis"@,
        description: SHUTDOWN_ANALYSIS_ABOUT@,
        input_schema: schema_view(shutdown_analysis_params()),
        capability: Some(Capability::EventRead),
        timeout_ms: None,
    }
}

/// The tool `shutdown_analysis`.
pub fn shutdown_analysis_definition() -> (r: ToolDefinition)
    ensures
        r@ == shutdown_analysis_tool(),
{
    let params: Vec<Param> = vec![
        Param::new("since_minutes", ParamKind::Integer)
            .at_least(1)
            .at_most(129600)
            .about("Look-back window in minutes (default 43200 = 30 days, capped at 90 days)."),
        Param::new("max_results", ParamKind::Integer)
            .at_least(1)
            .about("Per-category result cap (defaults to the configured event limit)."),
    ];
    assert(param_views(params@) =~= shutdown_analysis_params());
    ToolDefinition {
        name: "shutdown_analysis",
        description: SHUTDOWN_ANALYSIS_ABOUT,
        input_schema: input_schema(&params),
        capability: Some(Capability::EventRead),
        timeout_ms: None,
    }
}

/// The time of the last boot is that of a boot, and no boot in the report has a
/// later one; it is missing only where no boot has a time.
pub proof fn law_last_boot_is_the_newest(
    since: u64,
    max_results: usize,
    replies: Vec<Reply>,
    system: Result<SystemInfo, WinkitError>,
    r: ShutdownAnalysis,
)
    requires
        call_ensures(shutdown_report, (since, max_results, &replies, system), r),
    ensures
        r.last_boot_time matches Some(t) ==> exists|k: int|
            0 <= k < r.events@.len() && (#[trigger] r.events@[k]).category
                == ShutdownCategory::Boot && r.events@[k].time_created is Some
                && r.events@[k].time_created->0@ == t@,
        forall|k: int|
            0 <= k < r.events@.len() && (#[trigger] r.events@[k]).category
                == ShutdownCategory::Boot && r.events@[k].time_created is Some
                ==> r.last_boot_time is Some && !text_lt(
                r.last_boot_time->0@,
                r.events@[k].time_created->0@,
            ),
{
    lemma_first_boot(r.events@);
    if r.last_boot_time is Some {
        let f = choose|f: int|
            0 <= f < r.events@.len() && (#[trigger] r.events@[f]).category == ShutdownCategory::Boot
                && r.events@[f].time_created is Some && r.events@[f].time_created->0@
                == first_boot_time(r.events@)->0 && (forall|k: int|
                0 <= k < f ==> !((#[trigger] r.events@[k]).category == ShutdownCategory::Boot
                    && r.events@[k].time_created is Some));
        assert forall|k: int|
            0 <= k < r.events@.len() && (#[trigger] r.events@[k]).category == ShutdownCategory::Boot
                && r.events@[k].time_created is Some implies !text_lt(
            r.last_boot_time->0@,
            r.events@[k].time_created->0@,
        ) by {
            if k == f {
                crate::order::lemma_key_irreflexive(
                    crate::order::text_key(r.events@[k].time_created->0@),
                );
            } else {
                law_shutdown_events_are_newest_first(
                    since,
                    max_results,
                    replies,
                    system,
                    r,
                    f,
                    k,
                );
            }
        }
    }
}

proof fn lemma_first_boot(entries: Seq<ShutdownEntry>)
    ensures
        first_boot_time(entries) is Some ==> exists|f: int|
            0 <= f < entries.len() && (#[trigger] entries[f]).category == ShutdownCategory::Boot
                && entries[f].time_created is Some && entries[f].time_created->0@
                == first_boot_time(entries)->0 && (forall|k: int|
                0 <= k < f ==> !((#[trigger] entries[k]).category == ShutdownCategory::Boot
                    && entries[k].time_created is Some)),
        first_boot_time(entries) is None ==> forall|k: int|
            0 <= k < entries.len() ==> !((#[trigger] entries[k]).category == ShutdownCategory::Boot
                && entries[k].time_created is Some),
    decreases entries.len(),
{
    if entries.len() > 0 {
        let rest = entries.drop_first();
        lemma_first_boot(rest);
        if !(entries[0].category == ShutdownCategory::Boot && entries[0].time_created is Some) {
            if first_boot_time(entries) is Some {
                let f = choose|f: int|
                    0 <= f < rest.len() && (#[trigger] rest[f]).category == ShutdownCategory::Boot
                        && rest[f].time_created is Some && rest[f].time_created->0@
                        == first_boot_time(rest)->0 && (forall|k: int|
                        0 <= k < f ==> !((#[trigger] rest[k]).category == ShutdownCategory::Boot
                            && rest[k].time_created is Some));
                assert(entries[f + 1] == rest[f]);
                assert forall|k: int| 0 <= k < f + 1 implies !((#[trigger] entries[k]).category
                    == ShutdownCategory::Boot && entries[k].time_created is Some) by {
                    if k > 0 {
                        assert(entries[k] == rest[k - 1]);
                    }
                }
            } else {
                assert forall|k: int| 0 <= k < entries.len() implies !((
                #[trigger] entries[k]).category == ShutdownCategory::Boot
                    && entries[k].time_created is Some) by {
                    if k > 0 {
                        assert(entries[k] == rest[k - 1]);
                    }
                }
            }
        }
    }
}

/// The events of a shutdown report come the newest first, those without a time
/// last, and no record comes twice.
pub proof fn law_shutdown_events_are_newest_first(
    since: u64,
    max_results: usize,
    replies: Vec<Reply>,
    system: Result<SystemInfo, WinkitError>,
    r: ShutdownAnalysis,
    i: int,
    j: int,
)
    requires
        call_ensures(shutdown_report, (since, max_results, &replies, system), r),
        0 <= i < j < r.events@.len(),
    ensures
        r.events@[i].time_created is None ==> r.events@[j].time_created is None,
        r.events@[i].time_created is Some && r.events@[j].time_created is Some ==> !text_lt(
            r.events@[i].time_created->0@,
            r.events@[j].time_created->0@,
        ),
        r.events@[i].record_id is Some ==> r.events@[i].record_id != r.events@[j].record_id,
{
    let found = gathered_events(replies@);
    let places = choose|places: Seq<int>| #[trigger]
        is_event_timeline(places, found) && tell_shutdowns(r.events@, replies@, places);
    law_timeline_is_newest_first(places, ids_of(found), times_of(found), i, j);
    assert(tells_shutdown(
        r.events@[i],
        gathered(replies@)[places[i]].0,
        shutdown_spec(gathered(replies@)[places[i]].1).category,
    ));
    assert(tells_shutdown(
        r.events@[j],
        gathered(replies@)[places[j]].0,
        shutdown_spec(gathered(replies@)[places[j]].1).category,
    ));
    assert(found[places[i]] == gathered(replies@)[places[i]].0);
    assert(found[places[j]] == gathered(replies@)[places[j]].0);
}

/// Every event of a shutdown report came with the reply to a query, and bears the
/// category of that query; its message is told where it is a shutdown by a user or an
/// unexpected one, or tells the uptime.
pub proof fn law_shutdown_events_come_from_replies(
    since: u64,
    max_results: usize,
    replies: Vec<Reply>,
    system: Result<SystemInfo, WinkitError>,
    r: ShutdownAnalysis,
    i: int,
)
    requires
        call_ensures(shutdown_report, (since, max_results, &replies, system), r),
        0 <= i < r.events@.len(),
    ensures
        exists|q: int, k: int|
            {
                &&& 0 <= q < replies@.len()
                &&& replies@[q] is Ok
                &&& 0 <= k < replies@[q]->Ok_0@.len()
                &&& r.events@[i].event_id == (#[trigger] replies@[q]->Ok_0@[k]).event_id
                &&& r.events@[i].provider == replies@[q]->Ok_0@[k].provider
                &&& r.events@[i].time_created == replies@[q]->Ok_0@[k].time_created
                &&& r.events@[i].record_id == replies@[q]->Ok_0@[k].record_id
                &&& r.events@[i].category == shutdown_spec(q).category
                &&& r.events@[i].detail == (if r.events@[i].category
                    == ShutdownCategory::UserShutdown || r.events@[i].category
                    == ShutdownCategory::UnexpectedShutdown || r.events@[i].category
                    == ShutdownCategory::Uptime {
                    replies@[q]->Ok_0@[k].message
                } else {
                    None
                })
            },
{
    let found = gathered_events(replies@);
    let all = gathered(replies@);
    let places = choose|places: Seq<int>| #[trigger]
        is_event_timeline(places, found) && tell_shutdowns(r.events@, replies@, places);
    lemma_timeline_in_range(places, found, i);
    law_everything_is_gathered(replies@);
    let (e, q) = all[places[i]];
    assert(tells_shutdown(r.events@[i], e, shutdown_spec(q).category));
    let own = replies@[q]->Ok_0@;
    let k = choose|k: int| 0 <= k < own.len() && own[k] == e;
    assert(replies@[q]->Ok_0@[k] == e);
}

proof fn lemma_timeline_in_range(places: Seq<int>, found: Seq<EventInfo>, i: int)
    requires
        is_event_timeline(places, found),
        0 <= i < places.len(),
    ensures
        0 <= places[i] < found.len(),
{
    lemma_timeline_range(places, ids_of(found), times_of(found), i);
}

/// The report counts its events by category, all of them in all, and says that it
/// was cut short where every query could have filled its share.
pub proof fn law_shutdowns_are_counted(
    since: u64,
    max_results: usize,
    replies: Vec<Reply>,
    system: Result<SystemInfo, WinkitError>,
    r: ShutdownAnalysis,
)
    requires
        call_ensures(shutdown_report, (since, max_results, &replies, system), r),
    ensures
        r.since_minutes == since,
        r.total_events == r.events@.len(),
        r.truncated <==> r.events@.len() >= 10 * max_results,
        r.summary.boots == r.events@.filter(
            |e: ShutdownEntry| e.category == ShutdownCategory::Boot,
        ).len(),
        r.summary.clean_shutdowns == r.events@.filter(
            |e: ShutdownEntry| e.category == ShutdownCategory::CleanShutdown,
        ).len(),
        r.summary.unexpected_shutdowns == r.events@.filter(
            |e: ShutdownEntry| e.category == ShutdownCategory::UnexpectedShutdown,
        ).len(),
        r.summary.power_losses == r.events@.filter(
            |e: ShutdownEntry| e.category == ShutdownCategory::PowerLoss,
        ).len(),
        r.summary.user_initiated_shutdowns == r.events@.filter(
            |e: ShutdownEntry| e.category == ShutdownCategory::UserShutdown,
        ).len(),
        r.summary.sleeps == r.events@.filter(
            |e: ShutdownEntry| e.category == ShutdownCategory::Sleep,
        ).len(),
        r.summary.hibernations == r.events@.filter(
            |e: ShutdownEntry| e.category == ShutdownCategory::Hibernate,
        ).len(),
        system is Ok ==> r.current_boot_time == system->Ok_0.boot_time
            && r.current_uptime_seconds == Some(system->Ok_0.uptime_seconds),
        system is Err ==> r.current_boot_time is None && r.current_uptime_seconds is None,
        r.warnings@.len() == replies@.filter(|a: Reply| a is Err).len() + (if system is Err {
            1nat
        } else {
            0nat
        }),
{
    let es = r.events@;
    lemma_entry_filter(es, ShutdownCategory::Boot, |e: ShutdownEntry| e.category == ShutdownCategory::Boot);
    lemma_entry_filter(es, ShutdownCategory::CleanShutdown, |e: ShutdownEntry| e.category == ShutdownCategory::CleanShutdown);
    lemma_entry_filter(es, ShutdownCategory::UnexpectedShutdown, |e: ShutdownEntry| e.category == ShutdownCategory::UnexpectedShutdown);
    lemma_entry_filter(es, ShutdownCategory::PowerLoss, |e: ShutdownEntry| e.category == ShutdownCategory::PowerLoss);
    lemma_entry_filter(es, ShutdownCategory::UserShutdown, |e: ShutdownEntry| e.category == ShutdownCategory::UserShutdown);
    lemma_entry_filter(es, ShutdownCategory::Sleep, |e: ShutdownEntry| e.category == ShutdownCategory::Sleep);
    lemma_entry_filter(es, ShutdownCategory::Hibernate, |e: ShutdownEntry| e.category == ShutdownCategory::Hibernate);
    lemma_warning_count(replies@);
    assert(views(r.warnings@).len() == r.warnings@.len());
}

proof fn lemma_entry_filter(
    entries: Seq<ShutdownEntry>,
    category: ShutdownCategory,
    picks: spec_fn(ShutdownEntry) -> bool,
)
    requires
        forall|e: ShutdownEntry| #[trigger] picks(e) <==> e.category == category,
    ensures
        entry_count(entries, category) == entries.filter(picks).len(),
    decreases entries.len(),
{
    reveal(Seq::filter);
    if entries.len() > 0 {
        lemma_entry_filter(entries.drop_last(), category, picks);
    }
}

proof fn lemma_warning_count(replies: Seq<Reply>)
    ensures
        shutdown_warnings(replies).len() == replies.filter(|a: Reply| a is Err).len(),
        crash_warnings(replies).len() == replies.filter(|a: Reply| a is Err).len(),
    decreases replies.len(),
{
    reveal(Seq::filter);
    if replies.len() > 0 {
        lemma_warning_count(replies.drop_last());
    }
}

/// How the machine last went down is told by a shutdown that is not after the last
/// boot, clean, unexpected, by a user or by a loss of power, and no such shutdown
/// is newer; nothing is told only where there is no such shutdown.
pub proof fn law_last_shutdown_is_the_newest_before_the_boot(
    since: u64,
    max_results: usize,
    replies: Vec<Reply>,
    system: Result<SystemInfo, WinkitError>,
    r: ShutdownAnalysis,
)
    requires
        call_ensures(shutdown_report, (since, max_results, &replies, system), r),
    ensures
        r.summary.last_shutdown_kind matches Some(c) ==> exists|k: int|
            {
                &&& 0 <= k < r.events@.len()
                &&& (#[trigger] r.events@[k]).category == c
                &&& went_down_before(r.events@[k], r.last_boot_time)
                &&& forall|m: int|
                    0 <= m < r.events@.len() && went_down_before(
                        #[trigger] r.events@[m],
                        r.last_boot_time,
                    ) && r.events@[m].time_created is Some ==> r.events@[k].time_created is Some
                        && !text_lt(r.events@[k].time_created->0@, r.events@[m].time_created->0@)
            },
        r.summary.last_shutdown_kind is None ==> forall|m: int|
            0 <= m < r.events@.len() ==> !went_down_before(
                #[trigger] r.events@[m],
                r.last_boot_time,
            ),
{
    let boot = first_boot_time(r.events@);
    lemma_newest_before(r.events@, boot);
    match newest_before(r.events@, boot) {
        Some(i) => {
            assert(r.events@[i].category == r.summary.last_shutdown_kind->0);
            assert forall|m: int|
                0 <= m < r.events@.len() && went_down_before(
                    #[trigger] r.events@[m],
                    r.last_boot_time,
                ) && r.events@[m].time_created is Some implies r.events@[i].time_created is Some
                && !text_lt(r.events@[i].time_created->0@, r.events@[m].time_created->0@) by {
                assert(precedes_boot(r.events@[m], boot));
                assert(!later(r.events@[m], r.events@[i]));
            }
        },
        None => {
            assert forall|m: int| 0 <= m < r.events@.len() implies !went_down_before(
                #[trigger] r.events@[m],
                r.last_boot_time,
            ) by {
                assert(!precedes_boot(r.events@[m], boot));
            }
        },
    }
}

/// Is the event a shutdown that is not known to be after the boot?
pub open spec fn went_down_before(e: ShutdownEntry, boot: Option<String>) -> bool {
    &&& e.category != ShutdownCategory::Boot
    &&& e.category != ShutdownCategory::Sleep
    &&& e.category != ShutdownCategory::Hibernate
    &&& e.category != ShutdownCategory::Uptime
    &&& e.time_created is Some && boot is Some ==> !text_lt(boot->0@, e.time_created->0@)
}

/// The queries of a shutdown report look in the system log, no two of them for the
/// same event of the same source; what an event means is told by its number.
pub proof fn law_shutdown_queries(i: int, j: int)
    requires
        0 <= i < j < SHUTDOWN_QUERY_COUNT,
    ensures
        shutdown_spec(i).log == "System"@ && shutdown_spec(j).log == "System"@,
        shutdown_spec(i).event_id != shutdown_spec(j).event_id,
        forall|k: int|
            0 <= k < SHUTDOWN_QUERY_COUNT ==> {
                let s = #[trigger] shutdown_spec(k);
                &&& s.category == ShutdownCategory::Boot <==> s.event_id == 6005 || s.event_id == 12
                &&& s.category == ShutdownCategory::CleanShutdown <==> s.event_id == 6006
                    || s.event_id == 13
                &&& s.category == ShutdownCategory::UnexpectedShutdown <==> s.event_id == 6008
                &&& s.category == ShutdownCategory::UserShutdown <==> s.event_id == 1074
                &&& s.category == ShutdownCategory::PowerLoss <==> s.event_id == 41
                &&& s.category == ShutdownCategory::Sleep <==> s.event_id == 42
                &&& s.category == ShutdownCategory::Hibernate <==> s.event_id == 107
                &&& s.category == ShutdownCategory::Uptime <==> s.event_id == 6013
                &&& s.event_id == 12 || s.event_id == 13 <==> s.provider
                    == "Microsoft-Windows-Kernel-General"@
                &&& s.event_id == 41 || s.event_id == 42 || s.event_id == 107 <==> s.provider
                    == "Microsoft-Windows-Kernel-Power"@
                &&& s.event_id == 1074 <==> s.provider == "User32"@
                &&& s.event_id > 6000 <==> s.provider == "Microsoft-Windows-Eventlog"@
            },
{
    reveal_strlit("System");
    assert("System"@.len() == 6);
    reveal_strlit("Microsoft-Windows-Kernel-General");
    assert("Microsoft-Windows-Kernel-General"@.len() == 32);
    reveal_strlit("Microsoft-Windows-Kernel-Power");
    assert("Microsoft-Windows-Kernel-Power"@.len() == 30);
    reveal_strlit("User32");
    assert("User32"@.len() == 6);
    reveal_strlit("Microsoft-Windows-Eventlog");
    assert("Microsoft-Windows-Eventlog"@.len() == 26);
    assert("System"@[0] != "User32"@[0]);
}

/// The look-back window is as asked for, from one minute to ninety days; where none
/// is asked for, thirty days.
pub proof fn law_window_is_as_asked<B: WindowsBackend>(
    backend: B,
    args: Json,
    max_events: usize,
    r: Result<ShutdownAnalysis, WinkitError>,
    s: Result<CrashHistory, WinkitError>,
)
    requires
        call_ensures(shutdown_analysis_handler::<B>, (&backend, &args, max_events), r),
        call_ensures(crash_history_handler::<B>, (&backend, &args, max_events), s),
    ensures
        r is Ok && s is Ok,
        r->Ok_0.since_minutes == s->Ok_0.since_minutes,
        1 <= r->Ok_0.since_minutes <= 129600,
        args@.uint_at("since_minutes"@) matches Some(m) ==> {
            &&& 1 <= m <= 129600 ==> r->Ok_0.since_minutes == m
            &&& m < 1 ==> r->Ok_0.since_minutes == 1
            &&& m > 129600 ==> r->Ok_0.since_minutes == 129600
        },
        args@.uint_at("since_minutes"@) is None ==> r->Ok_0.since_minutes == 43200,
{
}

/// The crashes of a report come the newest first, those without a time last, and no
/// record comes twice.
pub proof fn law_crashes_are_newest_first(
    since: u64,
    max_results: usize,
    replies: Vec<Reply>,
    r: CrashHistory,
    i: int,
    j: int,
)
    requires
        call_ensures(crash_report, (since, max_results, &replies), r),
        0 <= i < j < r.crashes@.len(),
    ensures
        r.crashes@[i].time_created is None ==> r.crashes@[j].time_created is None,
        r.crashes@[i].time_created is Some && r.crashes@[j].time_created is Some ==> !text_lt(
            r.crashes@[i].time_created->0@,
            r.crashes@[j].time_created->0@,
        ),
        r.crashes@[i].record_id is Some ==> r.crashes@[i].record_id != r.crashes@[j].record_id,
{
    let found = gathered_events(replies@);
    let places = choose|places: Seq<int>| #[trigger]
        is_event_timeline(places, found) && tell_crashes(r.crashes@, replies@, places);
    law_timeline_is_newest_first(places, ids_of(found), times_of(found), i, j);
    assert(tells_crash(
        r.crashes@[i],
        gathered(replies@)[places[i]].0,
        crash_spec(gathered(replies@)[places[i]].1).category,
    ));
    assert(tells_crash(
        r.crashes@[j],
        gathered(replies@)[places[j]].0,
        crash_spec(gathered(replies@)[places[j]].1).category,
    ));
    assert(found[places[i]] == gathered(replies@)[places[i]].0);
    assert(found[places[j]] == gathered(replies@)[places[j]].0);
}

/// Every crash of a report came with the reply to a query, bears the category of
/// that query, and is told in the words of its message.
pub proof fn law_crashes_come_from_replies(
    since: u64,
    max_results: usize,
    replies: Vec<Reply>,
    r: CrashHistory,
    i: int,
)
    requires
        call_ensures(crash_report, (since, max_results, &replies), r),
        0 <= i < r.crashes@.len(),
    ensures
        exists|q: int, k: int|
            {
                &&& 0 <= q < replies@.len()
                &&& replies@[q] is Ok
                &&& 0 <= k < replies@[q]->Ok_0@.len()
                &&& r.crashes@[i].event_id == (#[trigger] replies@[q]->Ok_0@[k]).event_id
                &&& r.crashes@[i].provider == replies@[q]->Ok_0@[k].provider
                &&& r.crashes@[i].time_created == replies@[q]->Ok_0@[k].time_created
                &&& r.crashes@[i].record_id == replies@[q]->Ok_0@[k].record_id
                &&& r.crashes@[i].summary == replies@[q]->Ok_0@[k].message
                &&& r.crashes@[i].category == crash_spec(q).category
            },
        r.crashes@[i].bugcheck_code is Some ==> r.crashes@[i].category == CrashCategory::Bugcheck,
{
    let found = gathered_events(replies@);
    let all = gathered(replies@);
    let places = choose|places: Seq<int>| #[trigger]
        is_event_timeline(places, found) && tell_crashes(r.crashes@, replies@, places);
    lemma_timeline_in_range(places, found, i);
    law_everything_is_gathered(replies@);
    let (e, q) = all[places[i]];
    assert(tells_crash(r.crashes@[i], e, crash_spec(q).category));
    let own = replies@[q]->Ok_0@;
    let k = choose|k: int| 0 <= k < own.len() && own[k] == e;
    assert(replies@[q]->Ok_0@[k] == e);
}

/// The queries of a crash report: what an event means is told by its number and
/// its source, and no two queries look for the same event of the same source.
pub proof fn law_crash_queries(i: int, j: int)
    requires
        0 <= i < j < CRASH_QUERY_COUNT,
    ensures
        crash_spec(i).event_id != crash_spec(j).event_id || crash_spec(i).provider != crash_spec(
            j,
        ).provider,
        forall|k: int|
            0 <= k < CRASH_QUERY_COUNT ==> {
                let s = #[trigger] crash_spec(k);
                &&& s.category == CrashCategory::Bugcheck <==> s.provider
                    == "Microsoft-Windows-WER-SystemErrorReporting"@
                &&& s.category == CrashCategory::UncleanShutdown <==> s.event_id == 41
                &&& s.category == CrashCategory::HardwareError <==> 18 <= s.event_id <= 20
                &&& s.category == CrashCategory::AppCrash <==> s.event_id == 1000 || s.event_id
                    == 1002 || s.event_id == 1026
                &&& s.category == CrashCategory::WerReport <==> s.provider
                    == "Windows Error Reporting"@
                &&& s.category == CrashCategory::Bugcheck || s.category
                    == CrashCategory::WerReport ==> s.event_id == 1001
                &&& s.category == CrashCategory::AppCrash || s.category
                    == CrashCategory::WerReport <==> s.log == "Application"@
                &&& s.category == CrashCategory::Bugcheck || s.category
                    == CrashCategory::UncleanShutdown || s.category == CrashCategory::HardwareError
                    <==> s.log == "System"@
                &&& s.event_id == 41 ==> s.provider == "Microsoft-Windows-Kernel-Power"@
                &&& 18 <= s.event_id <= 20 ==> s.provider == "Microsoft-Windows-WHEA-Logger"@
                &&& s.event_id == 1000 || s.event_id == 1002 ==> s.provider == "Application Error"@
                &&& s.event_id == 1026 ==> s.provider == ".NET Runtime"@
            },
{
    reveal_strlit("System");
    assert("System"@.len() == 6);
    reveal_strlit("Application");
    assert("Application"@.len() == 11);
    reveal_strlit("Microsoft-Windows-WER-SystemErrorReporting");
    assert("Microsoft-Windows-WER-SystemErrorReporting"@.len() == 42);
    reveal_strlit("Microsoft-Windows-Kernel-Power");
    assert("Microsoft-Windows-Kernel-Power"@.len() == 30);
    reveal_strlit("Microsoft-Windows-WHEA-Logger");
    assert("Microsoft-Windows-WHEA-Logger"@.len() == 29);
    reveal_strlit("Application Error");
    assert("Application Error"@.len() == 17);
    reveal_strlit(".NET Runtime");
    assert(".NET Runtime"@.len() == 12);
    reveal_strlit("Windows Error Reporting");
    assert("Windows Error Reporting"@.len() == 23);
}

/// Each category has a block: as many crashes as there are of it, from its earliest
/// time to its latest one.
pub proof fn law_categories_are_summed_up(
    since: u64,
    max_results: usize,
    replies: Vec<Reply>,
    r: CrashHistory,
    i: int,
)
    requires
        call_ensures(crash_report, (since, max_results, &replies), r),
        0 <= i < r.categories@.len(),
    ensures
        r.since_minutes == since,
        r.total == r.crashes@.len(),
        r.truncated <==> r.crashes@.len() >= 9 * max_results,
        r.warnings@.len() == replies@.filter(|a: Reply| a is Err).len(),
        r.categories@.len() == 5,
        r.categories@[0].category == CrashCategory::Bugcheck,
        r.categories@[1].category == CrashCategory::UncleanShutdown,
        r.categories@[2].category == CrashCategory::HardwareError,
        r.categories@[3].category == CrashCategory::AppCrash,
        r.categories@[4].category == CrashCategory::WerReport,
        r.categories@[i].count == r.crashes@.filter(
            |c: CrashEntry| c.category == r.categories@[i].category,
        ).len(),
        forall|k: int|
            0 <= k < r.crashes@.len() && (#[trigger] r.crashes@[k]).category
                == r.categories@[i].category && r.crashes@[k].time_created is Some ==> {
                &&& r.categories@[i].first_ts is Some && !text_lt(
                    r.crashes@[k].time_created->0@,
                    r.categories@[i].first_ts->0@,
                )
                &&& r.categories@[i].last_ts is Some && !text_lt(
                    r.categories@[i].last_ts->0@,
                    r.crashes@[k].time_created->0@,
                )
            },
        r.categories@[i].first_ts matches Some(t) ==> exists|k: int|
            0 <= k < r.crashes@.len() && (#[trigger] r.crashes@[k]).category
                == r.categories@[i].category && r.crashes@[k].time_created is Some
                && r.crashes@[k].time_created->0@ == t@,
        r.categories@[i].last_ts matches Some(t) ==> exists|k: int|
            0 <= k < r.crashes@.len() && (#[trigger] r.crashes@[k]).category
                == r.categories@[i].category && r.crashes@[k].time_created is Some
                && r.crashes@[k].time_created->0@ == t@,
{
    let b = r.categories@[i];
    let c = b.category;
    assert forall|k: int| 0 <= k < r.categories@.len() implies (
    #[trigger] r.categories@[k]).category == crash_categories()[k] by {
        assert(sums_up(r.categories@[k], r.crashes@, crash_categories()[k]));
    }
    assert(sums_up(b, r.crashes@, crash_categories()[i]));
    let times = crash_times(r.crashes@, c);
    lemma_crash_filter(r.crashes@, c, |e: CrashEntry| e.category == r.categories@[i].category);
    lemma_crash_times(r.crashes@, c);
    lemma_extremes(times);
    lemma_warning_count(replies@);
    assert(views(r.warnings@).len() == r.warnings@.len());
    assert forall|k: int|
        0 <= k < r.crashes@.len() && (#[trigger] r.crashes@[k]).category == c
            && r.crashes@[k].time_created is Some implies {
        &&& b.first_ts is Some && !text_lt(r.crashes@[k].time_created->0@, b.first_ts->0@)
        &&& b.last_ts is Some && !text_lt(b.last_ts->0@, r.crashes@[k].time_created->0@)
    } by {
        assert(times.contains(r.crashes@[k].time_created->0@));
        let m = choose|m: int| 0 <= m < times.len() && times[m] == r.crashes@[k].time_created->0@;
        assert(!text_lt(times[m], earliest(times)->0));
    }
}

proof fn lemma_crash_filter(
    entries: Seq<CrashEntry>,
    category: CrashCategory,
    picks: spec_fn(CrashEntry) -> bool,
)
    requires
        forall|e: CrashEntry| #[trigger] picks(e) <==> e.category == category,
    ensures
        crash_count(entries, category) == entries.filter(picks).len(),
    decreases entries.len(),
{
    reveal(Seq::filter);
    if entries.len() > 0 {
        lemma_crash_filter(entries.drop_last(), category, picks);
    }
}

proof fn lemma_crash_times(entries: Seq<CrashEntry>, category: CrashCategory)
    ensures
        forall|k: int|
            0 <= k < entries.len() && (#[trigger] entries[k]).category == category
                && entries[k].time_created is Some ==> crash_times(entries, category).contains(
                entries[k].time_created->0@,
            ),
        forall|m: int|
            0 <= m < crash_times(entries, category).len() ==> exists|k: int|
                0 <= k < entries.len() && (#[trigger] entries[k]).category == category
                    && entries[k].time_created is Some && entries[k].time_created->0@
                    == #[trigger] crash_times(entries, category)[m],
    decreases entries.len(),
{
    if entries.len() > 0 {
        let rest = entries.drop_last();
        let last = entries.len() - 1;
        lemma_crash_times(rest, category);
        let before = crash_times(rest, category);
        let times = crash_times(entries, category);
        assert forall|k: int|
            0 <= k < entries.len() && (#[trigger] entries[k]).category == category
                && entries[k].time_created is Some implies times.contains(
            entries[k].time_created->0@,
        ) by {
            if k < last {
                assert(rest[k] == entries[k]);
                let m = choose|m: int|
                    0 <= m < before.len() && before[m] == entries[k].time_created->0@;
                assert(times[m] == before[m]);
            } else {
                assert(times[times.len() - 1] == entries[k].time_created->0@);
            }
        }
        assert forall|m: int| 0 <= m < times.len() implies exists|k: int|
            0 <= k < entries.len() && (#[trigger] entries[k]).category == category
                && entries[k].time_created is Some && entries[k].time_created->0@
                == #[trigger] times[m] by {
            if m < before.len() {
                assert(times[m] == before[m]);
                let k = choose|k: int|
                    0 <= k < rest.len() && (#[trigger] rest[k]).category == category
                        && rest[k].time_created is Some && rest[k].time_created->0@ == before[m];
                assert(entries[k] == rest[k]);
            } else {
                assert(entries[last].time_created->0@ == times[m]);
            }
        }
    }
}

proof fn lemma_extremes(times: Seq<Seq<char>>)
    ensures
        times.len() > 0 ==> earliest(times) is Some && latest(times) is Some,
        times.len() == 0 ==> earliest(times) is None && latest(times) is None,
        forall|m: int|
            0 <= m < times.len() ==> !text_lt(#[trigger] times[m], earliest(times)->0) && !text_lt(
                latest(times)->0,
                times[m],
            ),
        times.len() > 0 ==> times.contains(earliest(times)->0) && times.contains(latest(times)->0),
    decreases times.len(),
{
    if times.len() > 0 {
        let rest = times.drop_last();
        let last = times.last();
        lemma_extremes(rest);
        crate::order::lemma_key_irreflexive(crate::order::text_key(last));
        assert(times[times.len() - 1] == last);
        if rest.len() > 0 {
            let e = earliest(rest)->0;
            let l = latest(rest)->0;
            let x = choose|x: int| 0 <= x < rest.len() && rest[x] == e;
            let y = choose|y: int| 0 <= y < rest.len() && rest[y] == l;
            assert(times[x] == e && times[y] == l);
            assert forall|m: int| 0 <= m < times.len() implies !text_lt(
                #[trigger] times[m],
                earliest(times)->0,
            ) && !text_lt(latest(times)->0, times[m]) by {
                if m < rest.len() {
                    assert(rest[m] == times[m]);
                    if text_lt(times[m], last) && text_lt(last, e) {
                        crate::order::lemma_key_transitive(
                            crate::order::text_key(times[m]),
                            crate::order::text_key(last),
                            crate::order::text_key(e),
                        );
                    }
                    if text_lt(last, times[m]) && text_lt(l, last) {
                        crate::order::lemma_key_transitive(
                            crate::order::text_key(l),
                            crate::order::text_key(last),
                            crate::order::text_key(times[m]),
                        );
                    }
                }
            }
        }
    }
}

/// The code of a bugcheck is the first word behind the words that announce it, without
/// the punctuation at its end; and only where it is a hexadecimal number.
pub proof fn law_bugcheck_codes_are_read(
    before: Seq<char>,
    word: Seq<char>,
    after: Seq<char>,
    text: &str,
    r: Option<String>,
)
    requires
        call_ensures(extract_bugcheck_code, (Some(text),), r),
        text@ == before + "The bugcheck was:"@ + seq![' '] + word + seq![' '] + after,
        find_from(text@, "The bugcheck was:"@, 0) == Some(before.len() as int),
        word.len() > 0,
        forall|k: int| 0 <= k < word.len() ==> !is_space(#[trigger] word[k]),
    ensures
        word.len() > 2 && word[0] == '0' && word[1] == 'x' && word.last() != '.' && word.last()
            != ',' && word.last() != ';' && word.last() != ')' ==> opt_view(r) == Some(word),
        word.len() > 3 && word[0] == '0' && word[1] == 'x' && word.last() == '.' && word[word.len()
            - 2] != '.' && word[word.len() - 2] != ',' && word[word.len() - 2] != ';'
            && word[word.len() - 2] != ')' ==> opt_view(r) == Some(word.drop_last()),
        word[0] != '0' ==> r is None,
{
    let phrase = "The bugcheck was:"@;
    reveal_strlit("The bugcheck was:");
    reveal_strlit("0x");
    assert(phrase.len() == 17);
    let stops = seq!['.', ',', ';', ')'];
    assert(stops[0] == '.' && stops[1] == ',' && stops[2] == ';' && stops[3] == ')');
    let rest = text@.skip(before.len() as int + 17);
    let none = Seq::<char>::empty();
    let tail = word + seq![' '] + after;
    assert(rest =~= none + seq![' '] + tail);
    law_white_space_parts_words(none, ' ', tail);
    law_white_space_parts_words(word, ' ', after);
    assert(words_of(none) =~= Seq::<Seq<char>>::empty()) by {
        assert(trimmed_start(none).len() == 0);
    }
    assert(words_of(rest)[0] == word);
    reveal_with_fuel(without_trailing_any, 3);
    let code = without_trailing_any(word, stops);
    lemma_trailing_prefix(word, stops);
    if "0x"@.is_prefix_of(code) && code.len() > 2 {
        assert(code.subrange(0, 2)[0] == "0x"@[0]);
        assert(code[0] == '0');
        assert(word[0] == code[0]);
    }
    if word.len() > 2 && word[0] == '0' && word[1] == 'x' {
        assert(word.subrange(0, 2) =~= "0x"@);
        if word.len() > 3 {
            assert(word.drop_last().subrange(0, 2) =~= "0x"@);
        }
    }
}

proof fn lemma_trailing_prefix(s: Seq<char>, stops: Seq<char>)
    ensures
        without_trailing_any(s, stops).len() <= s.len(),
        without_trailing_any(s, stops) == s.take(without_trailing_any(s, stops).len() as int),
    decreases s.len(),
{
    if s.len() > 0 && stops.contains(s.last()) {
        lemma_trailing_prefix(s.drop_last(), stops);
        let n = without_trailing_any(s, stops).len() as int;
        assert(s.drop_last().take(n) =~= s.take(n));
    } else {
        assert(s.take(s.len() as int) =~= s);
    }
}

} // verus!
