//! Reading the event logs.

use crate::errors::{err_view, ErrorKind, ErrorView, WinkitError};
use crate::json::{Json, JsonView};
use crate::models::{EventInfo, EventQuery, EventQueryView};
use crate::permissions::Capability;
use crate::providers::windows::WindowsBackend;
use crate::text::{clipped, concat3, opt_view, truncate};
use crate::tools::args::{
    clamp_limit, clamp_minutes, given_text, level_number, level_to_min, limit_for, minutes_for,
    optional_bool, optional_non_empty_string, optional_u32, optional_u64, optional_usize, u32_at,
    usize_at,
};
use crate::tools::schema::{input_schema, param_views, schema_view, Param, ParamKind, ParamView};
use crate::tools::toolset::{ToolDefinition, ToolView};
use vstd::prelude::*;
use vstd::string::*;

verus! {

/// How many events are fetched where no number was asked for.
pub const DEFAULT_EVENT_RESULTS: usize = 50;

/// How many characters of a message are kept where no number was asked for.
pub const DEFAULT_MESSAGE_CHARS: usize = 600;

/// How many characters of a message are kept at most.
pub const MAX_MESSAGE_CHARS: usize = 4000;

/// The query that arguments ask for.
pub open spec fn query_for(
    args: JsonView,
    max_events: usize,
    default_log: Seq<char>,
    default_level: u32,
) -> Result<EventQueryView, ErrorView> {
    let level = match given_text(args, "level"@) {
        None => Ok::<u32, ErrorView>(default_level),
        Some(name) => match level_number(name) {
            Some(n) => Ok(n),
            None => Err(
                err_view(
                    ErrorKind::InvalidArgument,
                    "invalid level '"@ + name
                        + "' (expected critical, error, warning, info, or verbose)"@,
                ),
            ),
        },
    };
    match level {
        Err(e) => Err(e),
        Ok(n) => Ok(
            EventQueryView {
                log: match given_text(args, "log"@) {
                    Some(s) => s,
                    None => default_log,
                },
                min_level: Some(n),
                since_minutes: match args.uint_at("since_minutes"@) {
                    Some(m) => Some(minutes_for(m)),
                    None => None,
                },
                provider: given_text(args, "provider"@),
                event_id: u32_at(args, "event_id"@),
                max_results: limit_for(
                    Some(
                        match usize_at(args, "max_results"@) {
                            Some(n) => n,
                            None => DEFAULT_EVENT_RESULTS,
                        },
                    ),
                    max_events,
                ),
            },
        ),
    }
}

/// A query result taken by its views.
pub open spec fn query_result(r: Result<EventQuery, WinkitError>) -> Result<EventQueryView, ErrorView> {
    match r {
        Ok(q) => Ok(q@),
        Err(e) => Err(e@),
    }
}

/// The query that arguments ask for.
pub fn query_from_args(
    args: &Json,
    max_events: usize,
    default_log: &str,
    default_min_level: u32,
) -> (r: Result<EventQuery, WinkitError>)
    requires
        query_for(args@, max_events, default_log@, default_min_level) is Ok ==> max_events >= 1,
    ensures
        query_result(r) == query_for(args@, max_events, default_log@, default_min_level),
{
    let level: u32 = match optional_non_empty_string(args, "level") {
        None => default_min_level,
        Some(name) => match level_to_min(&name) {
            Some(n) => n,
            None => {
                return Err(
                    WinkitError::invalid_argument(
                        &concat3(
                            "invalid level '",
                            &name,
                            "' (expected critical, error, warning, info, or verbose)",
                        ),
                    ),
                );
            },
        },
    };
    let log = match optional_non_empty_string(args, "log") {
        Some(s) => s,
        None => default_log.to_owned(),
    };
    let wanted: usize = match optional_usize(args, "max_results") {
        Some(n) => n,
        None => DEFAULT_EVENT_RESULTS,
    };
    let q = EventQuery {
        log,
        min_level: Some(level),
        since_minutes: match optional_u64(args, "since_minutes") {
            Some(m) => Some(clamp_minutes(m)),
            None => None,
        },
        provider: optional_non_empty_string(args, "provider"),
        event_id: optional_u32(args, "event_id"),
        max_results: clamp_limit(Some(wanted), max_events),
    };
    assert(query_result(Ok(q))->Ok_0 =~= query_for(
        args@,
        max_events,
        default_log@,
        default_min_level,
    )->Ok_0);
    Ok(q)
}

/// How many characters of a message are kept.
pub open spec fn cap_for(requested: Option<usize>, default_cap: usize, max_cap: usize) -> usize {
    let asked = match requested {
        Some(n) => n,
        None => default_cap,
    };
    if asked < 64 {
        64
    } else if asked > max_cap {
        max_cap
    } else {
        asked
    }
}

/// How many characters of a message are kept.
pub fn message_cap_used(requested: Option<usize>, default_cap: usize, max_cap: usize) -> (r: usize)
    requires
        max_cap >= 64,
    ensures
        r == cap_for(requested, default_cap, max_cap),
        64 <= r <= max_cap,
{
    let asked: usize = match requested {
        Some(n) => n,
        None => default_cap,
    };
    if asked < 64 {
        64
    } else if asked > max_cap {
        max_cap
    } else {
        asked
    }
}

/// Is `out` the event `e` with its message bounded: a longer message is cut and
/// marked, and nothing else is changed?
pub open spec fn is_bounded(out: EventInfo, e: EventInfo, cap: int) -> bool {
    &&& out.record_id == e.record_id
    &&& out.event_id == e.event_id
    &&& out.level == e.level
    &&& out.provider == e.provider
    &&& out.channel == e.channel
    &&& out.time_created == e.time_created
    &&& out.computer == e.computer
    &&& out.process_id == e.process_id
    &&& if e.message is Some && e.message->0@.len() > cap {
        opt_view(out.message) == Some(clipped(e.message->0@, cap)) && out.message_truncated == Some(
            true,
        )
    } else {
        out.message == e.message && out.message_truncated == e.message_truncated
    }
}

/// Are the events of `out` those of `events`, one by one, with their messages
/// bounded?
pub open spec fn all_bounded(out: Seq<EventInfo>, events: Seq<EventInfo>, cap: int) -> bool {
    &&& out.len() == events.len()
    &&& forall|i: int| 0 <= i < out.len() ==> is_bounded(#[trigger] out[i], events[i], cap)
}

/// Bounds the message of every event; says how many events there are.
pub fn bounded_events(
    events: &mut Vec<EventInfo>,
    requested: Option<usize>,
    default_cap: usize,
    max_cap: usize,
) -> (r: usize)
    requires
        max_cap >= 64,
    ensures
        r == old(events)@.len(),
        all_bounded(
            final(events)@,
            old(events)@,
            cap_for(requested, default_cap, max_cap) as int,
        ),
{
    let cap: usize = message_cap_used(requested, default_cap, max_cap);
    let ghost before = events@;
    let n: usize = events.len();
    let mut i: usize = 0;
    while i < n
        invariant
            n == before.len(),
            events@.len() == n,
            i <= n,
            forall|k: int| 0 <= k < i ==> is_bounded(#[trigger] events@[k], before[k], cap as int),
            forall|k: int| i <= k < n ==> #[trigger] events@[k] == before[k],
        decreases n - i,
    {
        let shorter: Option<String> = match &events[i].message {
            Some(m) => {
                if m.as_str().unicode_len() > cap {
                    Some(truncate(m, cap))
                } else {
                    None
                }
            },
            None => None,
        };
        match shorter {
            Some(t) => {
                let e = &mut events[i];
                e.message = Some(t);
                e.message_truncated = Some(true);
            },
            None => {},
        }
        i = i + 1;
    }
    n
}

/// No message of a bounded list is longer than the cap, and bounding a list
/// again changes no message.
pub proof fn law_bounding_is_idempotent(
    events: Seq<EventInfo>,
    once: Seq<EventInfo>,
    twice: Seq<EventInfo>,
    cap: int,
    i: int,
)
    requires
        0 <= cap,
        all_bounded(once, events, cap),
        all_bounded(twice, once, cap),
        0 <= i < events.len(),
    ensures
        once[i].message is Some ==> once[i].message->0@.len() <= cap,
        opt_view(twice[i].message) == opt_view(once[i].message),
        twice[i].message_truncated == once[i].message_truncated,
{
    assert(is_bounded(once[i], events[i], cap));
    assert(is_bounded(twice[i], once[i], cap));
}

/// The events that have a message.
pub open spec fn with_messages(events: Seq<EventInfo>) -> Seq<EventInfo> {
    events.filter(|e: EventInfo| e.message is Some)
}

/// What a query of an event log gave.
pub struct EventReport {
    pub log: String,
    pub events: Vec<EventInfo>,
    pub count: usize,
    pub truncated: bool,
    /// How many events without a message were left out, where such are left
    /// out.
    pub skipped_null_messages: Option<usize>,
    pub message_char_cap: usize,
}

/// Are events without a message left out? As the arguments say; else as is
/// usual for the tool, but never where the query is for one provider or event.
pub open spec fn skips_nulls(args: JsonView, skip_default: bool, query: EventQueryView) -> bool {
    match args.bool_at("skip_null_messages"@) {
        Some(b) => b,
        None => skip_default && query.provider is None && query.event_id is None,
    }
}

/// Is `r` the report on the events that a query gave?
pub open spec fn reports_events(
    r: EventReport,
    args: JsonView,
    query: EventQueryView,
    skip_default: bool,
    events: Seq<EventInfo>,
) -> bool {
    let cap = cap_for(
        usize_at(args, "max_message_chars"@),
        DEFAULT_MESSAGE_CHARS,
        MAX_MESSAGE_CHARS,
    );
    let kept = if skips_nulls(args, skip_default, query) {
        with_messages(events)
    } else {
        events
    };
    &&& r.log@ == query.log
    &&& all_bounded(r.events@, kept, cap as int)
    &&& r.count == kept.len()
    &&& r.truncated == (kept.len() == query.max_results)
    &&& r.skipped_null_messages == (if skips_nulls(args, skip_default, query) {
        Some((events.len() - kept.len()) as usize)
    } else {
        None
    })
    &&& r.message_char_cap == cap
}

/// The report on the events that a query gave.
pub fn event_report(
    args: &Json,
    query: EventQuery,
    skip_null_default: bool,
    events: Vec<EventInfo>,
) -> (r: EventReport)
    ensures
        reports_events(r, args@, query@, skip_null_default, events@),
{
    let skip = match optional_bool(args, "skip_null_messages") {
        Some(b) => b,
        None => skip_null_default && query.provider.is_none() && query.event_id.is_none(),
    };
    let requested: Option<usize> = optional_usize(args, "max_message_chars");
    let cap: usize = message_cap_used(requested, DEFAULT_MESSAGE_CHARS, MAX_MESSAGE_CHARS);
    let total: usize = events.len();
    let ghost all = events@;
    if skip {
        let mut kept: Vec<EventInfo> = Vec::new();
        for e in it: events
            invariant
                it.seq() == all,
                kept@ == with_messages(all.take(it.index())),
                kept@.len() <= it.index(),
        {
            let ghost k = it.index();
            proof {
                assert(all.take(k + 1).drop_last() == all.take(k));
                assert(all.take(k + 1).last() == e);
                reveal(Seq::filter);
            }
            if e.message.is_some() {
                kept.push(e);
            }
        }
        assert(all.take(all.len() as int) == all);
        let count: usize = bounded_events(
            &mut kept,
            requested,
            DEFAULT_MESSAGE_CHARS,
            MAX_MESSAGE_CHARS,
        );
        return EventReport {
            log: query.log,
            events: kept,
            count,
            truncated: count == query.max_results,
            skipped_null_messages: Some(total - count),
            message_char_cap: cap,
        };
    }
    let mut kept = events;
    let count: usize = bounded_events(
        &mut kept,
        requested,
        DEFAULT_MESSAGE_CHARS,
        MAX_MESSAGE_CHARS,
    );
    EventReport {
        log: query.log,
        events: kept,
        count,
        truncated: count == query.max_results,
        skipped_null_messages: None,
        message_char_cap: cap,
    }
}

/// Is `r` the answer to arguments that ask for events: a refusal where the
/// arguments are wrong, and else the report on what the machine gave for the
/// query, or its error?
pub open spec fn answers_event_query<B: WindowsBackend>(
    r: Result<EventReport, WinkitError>,
    backend: &B,
    args: JsonView,
    max_events: usize,
    default_log: Seq<char>,
    default_level: u32,
    skip_default: bool,
) -> bool {
    match query_for(args, max_events, default_log, default_level) {
        Err(refusal) => r matches Err(e) && e@ == refusal,
        Ok(view) => exists|query: EventQuery, answer: Result<Vec<EventInfo>, WinkitError>|
            {
                &&& query@ == view
                &&& #[trigger] call_ensures(B::get_recent_events, (backend, &query), answer)
                &&& match (answer, r) {
                    (Ok(events), Ok(report)) => reports_events(
                        report,
                        args,
                        view,
                        skip_default,
                        events@,
                    ),
                    (Err(e), Err(f)) => e == f,
                    _ => false,
                }
            },
    }
}

/// Asks the machine for the events that the arguments ask for, and reports on
/// them. Wrong arguments are refused before anything is asked.
pub fn run_event_query<B: WindowsBackend>(
    backend: &B,
    args: &Json,
    max_events: usize,
    default_log: &str,
    default_min_level: u32,
    skip_null_default: bool,
) -> (r: Result<EventReport, WinkitError>)
    requires
        query_for(args@, max_events, default_log@, default_min_level) is Ok ==> max_events >= 1,
    ensures
        answers_event_query(
            r,
            backend,
            args@,
            max_events,
            default_log@,
            default_min_level,
            skip_null_default,
        ),
{
    let query = match query_from_args(args, max_events, default_log, default_min_level) {
        Ok(q) => q,
        Err(e) => {
            return Err(e);
        },
    };
    match backend.get_recent_events(&query) {
        Ok(events) => Ok(event_report(args, query, skip_null_default, events)),
        Err(e) => Err(e),
    }
}

/// Recent events; of the application log from information up where nothing
/// else is asked for.
pub fn get_recent_events_handler<B: WindowsBackend>(
    backend: &B,
    args: &Json,
    max_events: usize,
) -> (r: Result<EventReport, WinkitError>)
    requires
        query_for(args@, max_events, "Application"@, 4) is Ok ==> max_events >= 1,
    ensures
        answers_event_query(r, backend, args@, max_events, "Application"@, 4, false),
{
    run_event_query(backend, args, max_events, "Application", 4, false)
}

/// Recent errors of the application log.
pub fn get_application_errors_handler<B: WindowsBackend>(
    backend: &B,
    args: &Json,
    max_events: usize,
) -> (r: Result<EventReport, WinkitError>)
    requires
        query_for(args@, max_events, "Application"@, 2) is Ok ==> max_events >= 1,
    ensures
        answers_event_query(r, backend, args@, max_events, "Application"@, 2, true),
{
    run_event_query(backend, args, max_events, "Application", 2, true)
}

/// Recent errors of the system log.
pub fn get_system_errors_handler<B: WindowsBackend>(
    backend: &B,
    args: &Json,
    max_events: usize,
) -> (r: Result<EventReport, WinkitError>)
    requires
        query_for(args@, max_events, "System"@, 2) is Ok ==> max_events >= 1,
    ensures
        answers_event_query(r, backend, args@, max_events, "System"@, 2, true),
{
    run_event_query(backend, args, max_events, "System", 2, true)
}

/// What the tool `get_recent_events` does, in words.
pub const GET_RECENT_EVENTS_ABOUT: &'static str = "Recent Windows event log entries, normalized and bounded. Defaults to the Application log at information level.";

/// The parameters that event tools share.
pub open spec fn event_params() -> Seq<ParamView> {
    seq![
        ParamView::new("log"@, ParamKind::Text)
            .about("Channel/log name, e.g. 'Application' or 'System'."@),
        ParamView::new("level"@, ParamKind::Text)
            .choice("critical"@)
            .choice("error"@)
            .choice("warning"@)
            .choice("info"@)
            .choice("verbose"@)
            .about("Minimum severity to include."@),
        ParamView::new("provider"@, ParamKind::Text)
            .about("Restrict to one provider/source name."@),
        ParamView::new("event_id"@, ParamKind::Integer).about("Restrict to one event ID."@),
        ParamView::new("since_minutes"@, ParamKind::Integer)
            .at_least(1)
            .about("Only events newer than this many minutes."@),
        ParamView::new("max_results"@, ParamKind::Integer)
            .at_least(1)
            .about("Maximum results (default 50; the configured cap allows more)."@),
        ParamView::new("max_message_chars"@, ParamKind::Integer)
            .at_least(64)
            .at_most(4000)
            .about("Per-event message character cap (default 600). Truncated messages carry message_truncated: true."@),
        ParamView::new("skip_null_messages"@, ParamKind::Boolean)
            .about("Drop events whose provider publishes no message text. Defaults to true for get_application_errors/get_system_errors unless provider or event_id filters are given; false for get_recent_events."@),
    ]
}

fn event_param_list() -> (r: Vec<Param>)
    ensures
        param_views(r@) == event_params(),
{
    let params: Vec<Param> = vec![
        Param::new("log", ParamKind::Text)
            .about("Channel/log name, e.g. 'Application' or 'System'."),
        Param::new("level", ParamKind::Text)
            .choice("critical")
            .choice("error")
            .choice("warning")
            .choice("info")
            .choice("verbose")
            .about("Minimum severity to include."),
        Param::new("provider", ParamKind::Text).about("Restrict to one provider/source name."),
        Param::new("event_id", ParamKind::Integer).about("Restrict to one event ID."),
        Param::new("since_minutes", ParamKind::Integer)
            .at_least(1)
            .about("Only events newer than this many minutes."),
        Param::new("max_results", ParamKind::Integer)
            .at_least(1)
            .about("Maximum results (default 50; the configured cap allows more)."),
        Param::new("max_message_chars", ParamKind::Integer)
            .at_least(64)
            .at_most(4000)
            .about("Per-event message character cap (default 600). Truncated messages carry message_truncated: true."),
        Param::new("skip_null_messages", ParamKind::Boolean)
            .about("Drop events whose provider publishes no message text. Defaults to true for get_application_errors/get_system_errors unless provider or event_id filters are given; false for get_recent_events."),
    ];
    assert(param_views(params@) =~= event_params());
    params
}

/// The tool `get_recent_events`.
pub open spec fn get_recent_events_tool() -> ToolView {
    ToolView {
        name: "get_recent_events"@,
        description: GET_RECENT_EVENTS_ABOUT@,
        input_schema: schema_view(event_params()),
        capability: Some(Capability::EventRead),
        timeout_ms: None,
    }
}

/// The tool `get_recent_events`.
pub fn get_recent_events_definition() -> (r: ToolDefinition)
    ensures
        r@ == get_recent_events_tool(),
{
    let params: Vec<Param> = event_param_list();
    ToolDefinition {
        name: "get_recent_events",
        description: GET_RECENT_EVENTS_ABOUT,
        input_schema: input_schema(&params),
        capability: Some(Capability::EventRead),
        timeout_ms: None,
    }
}

/// What the tool `get_application_errors` does, in words.
pub const GET_APPLICATION_ERRORS_ABOUT: &'static str = "Recent errors from the Application event log. By default events whose provider publishes no message text are skipped (they are noise — e.g. repeated null-message entries that bury real crashes); pass skip_null_messages=false or filter by provider/event_id to see them.";

/// The tool `get_application_errors`.
pub open spec fn get_application_errors_tool() -> ToolView {
    ToolView {
        name: "get_application_errors"@,
        description: GET_APPLICATION_ERRORS_ABOUT@,
        input_schema: schema_view(event_params()),
        capability: Some(Capability::EventRead),
        timeout_ms: None,
    }
}

/// The tool `get_application_errors`.
pub fn get_application_errors_definition() -> (r: ToolDefinition)
    ensures
        r@ == get_application_errors_tool(),
{
    let params: Vec<Param> = event_param_list();
    ToolDefinition {
        name: "get_application_errors",
        description: GET_APPLICATION_ERRORS_ABOUT,
        input_schema: input_schema(&params),
        capability: Some(Capability::EventRead),
        timeout_ms: None,
    }
}

/// What the tool `get_system_errors` does, in words.
pub const GET_SYSTEM_ERRORS_ABOUT: &'static str = "Recent errors from the System event log. By default events whose provider publishes no message text are skipped (noise); pass skip_null_messages=false or filter by provider/event_id to see them.";

/// The tool `get_system_errors`.
pub open spec fn get_system_errors_tool() -> ToolView {
    ToolView {
        name: "get_system_errors"@,
        description: GET_SYSTEM_ERRORS_ABOUT@,
        input_schema: schema_view(event_params()),
        capability: Some(Capability::EventRead),
        timeout_ms: None,
    }
}

/// The tool `get_system_errors`.
pub fn get_system_errors_definition() -> (r: ToolDefinition)
    ensures
        r@ == get_system_errors_tool(),
{
    let params: Vec<Param> = event_param_list();
    ToolDefinition {
        name: "get_system_errors",
        description: GET_SYSTEM_ERRORS_ABOUT,
        input_schema: input_schema(&params),
        capability: Some(Capability::EventRead),
        timeout_ms: None,
    }
}

/// A query asks for the log, provider, event and number of events that the arguments
/// name, and for the usual log and severity where they name none; for no more events
/// than allowed, and 50 where no number is given. Only a severity that has no name is
/// refused.
pub proof fn law_event_queries_are_as_asked(
    args: Json,
    max_events: usize,
    default_log: &str,
    default_level: u32,
    r: Result<EventQuery, WinkitError>,
)
    requires
        max_events >= 1,
        call_ensures(query_from_args, (&args, max_events, default_log, default_level), r),
    ensures
        r is Err <==> given_text(args@, "level"@) is Some && level_number(
            given_text(args@, "level"@)->0,
        ) is None,
        r matches Err(e) ==> e.kind == ErrorKind::InvalidArgument,
        r matches Ok(q) ==> {
            &&& given_text(args@, "log"@) matches Some(l) ==> q.log@ == l
            &&& given_text(args@, "log"@) is None ==> q.log@ == default_log@
            &&& given_text(args@, "level"@) is None ==> q.min_level == Some(default_level)
            &&& given_text(args@, "level"@) matches Some(l) ==> q.min_level == level_number(l)
            &&& opt_view(q.provider) == given_text(args@, "provider"@)
            &&& q.event_id == u32_at(args@, "event_id"@)
            &&& q.since_minutes is Some <==> args@.uint_at("since_minutes"@) is Some
            &&& args@.uint_at("since_minutes"@) matches Some(m) ==> (1 <= m <= 129600
                ==> q.since_minutes == Some(m))
            &&& 1 <= q.max_results <= max_events
            &&& usize_at(args@, "max_results"@) matches Some(n) ==> (1 <= n <= max_events
                ==> q.max_results == n)
            &&& usize_at(args@, "max_results"@) is None && max_events >= 50 ==> q.max_results == 50
        },
{
    if r is Ok {
        assert(r->Ok_0@ == query_for(args@, max_events, default_log@, default_level)->Ok_0);
    }
}

/// A report holds every event that the query gave, in their order; only where such
/// are to be left out, it leaves out those without a message, and says how many they
/// were. A message is cut only where it is longer than the cap, which is between 64
/// and 4000 characters, 600 where no number is given.
pub proof fn law_reports_hold_the_events(
    args: Json,
    query: EventQuery,
    skip_null_default: bool,
    events: Vec<EventInfo>,
    r: EventReport,
)
    requires
        call_ensures(event_report, (&args, query, skip_null_default, events), r),
    ensures
        ({
            let skip = match args@.bool_at("skip_null_messages"@) {
                Some(b) => b,
                None => skip_null_default && query.provider is None && query.event_id is None,
            };
            let kept = if skip {
                events@.filter(|e: EventInfo| e.message is Some)
            } else {
                events@
            };
            &&& r.log@ == query.log@
            &&& r.count == kept.len() == r.events@.len()
            &&& r.truncated <==> kept.len() == query.max_results
            &&& skip ==> r.skipped_null_messages is Some && r.skipped_null_messages->0 + kept.len()
                == events@.len()
            &&& !skip ==> r.skipped_null_messages is None
            &&& 64 <= r.message_char_cap <= 4000
            &&& usize_at(args@, "max_message_chars"@) is None ==> r.message_char_cap == 600
            &&& usize_at(args@, "max_message_chars"@) matches Some(n) ==> (64 <= n <= 4000
                ==> r.message_char_cap == n)
            &&& forall|i: int|
                0 <= i < kept.len() ==> {
                    let e = kept[i];
                    let o = #[trigger] r.events@[i];
                    &&& o.record_id == e.record_id
                    &&& o.event_id == e.event_id
                    &&& o.level == e.level
                    &&& o.provider == e.provider
                    &&& o.channel == e.channel
                    &&& o.time_created == e.time_created
                    &&& o.computer == e.computer
                    &&& o.process_id == e.process_id
                    &&& o.message is Some <==> e.message is Some
                    &&& e.message is Some && e.message->0@.len() <= r.message_char_cap
                        ==> o.message == e.message && o.message_truncated == e.message_truncated
                    &&& e.message is Some && e.message->0@.len() > r.message_char_cap
                        ==> o.message->0@.len() <= r.message_char_cap && o.message_truncated
                        == Some(true)
                }
        }),
{
    let cap = r.message_char_cap as int;
    let skip = skips_nulls(args@, skip_null_default, query@);
    let kept = if skip {
        with_messages(events@)
    } else {
        events@
    };
    assert(all_bounded(r.events@, kept, cap));
    lemma_filter_fits(events@);
    assert(events@.len() == events.len());
    assert(with_messages(events@) == events@.filter(|e: EventInfo| e.message is Some));
    assert(query@.provider is None <==> query.provider is None);
    assert forall|i: int| 0 <= i < kept.len() implies is_bounded(
        #[trigger] r.events@[i],
        kept[i],
        cap,
    ) by {}
}

proof fn lemma_filter_fits(events: Seq<EventInfo>)
    ensures
        with_messages(events).len() <= events.len(),
    decreases events.len(),
{
    reveal(Seq::filter);
    if events.len() > 0 {
        lemma_filter_fits(events.drop_last());
    }
}

/// Errors are events of the application or the system log from the severity of an
/// error up, without those that have no message; recent events are those of the
/// application log from information up, with all of them: unless the arguments say
/// otherwise.
pub proof fn law_error_tools_ask_for_errors<B: WindowsBackend>(
    backend: B,
    args: Json,
    max_events: usize,
    recent: Result<EventReport, WinkitError>,
    application: Result<EventReport, WinkitError>,
    system: Result<EventReport, WinkitError>,
)
    requires
        max_events >= 1,
        given_text(args@, "level"@) is None,
        given_text(args@, "log"@) is None,
        call_ensures(get_recent_events_handler::<B>, (&backend, &args, max_events), recent),
        call_ensures(
            get_application_errors_handler::<B>,
            (&backend, &args, max_events),
            application,
        ),
        call_ensures(get_system_errors_handler::<B>, (&backend, &args, max_events), system),
    ensures
        asked_for(&backend, recent, "Application"@, 4),
        asked_for(&backend, application, "Application"@, 2),
        asked_for(&backend, system, "System"@, 2),
        args@.bool_at("skip_null_messages"@) is None ==> {
            &&& recent is Ok ==> recent->Ok_0.skipped_null_messages is None
            &&& application is Ok && given_text(args@, "provider"@) is None && u32_at(
                args@,
                "event_id"@,
            ) is None ==> application->Ok_0.skipped_null_messages is Some
            &&& system is Ok && given_text(args@, "provider"@) is None && u32_at(
                args@,
                "event_id"@,
            ) is None ==> system->Ok_0.skipped_null_messages is Some
            &&& system is Ok && (given_text(args@, "provider"@) is Some || u32_at(
                args@,
                "event_id"@,
            ) is Some) ==> system->Ok_0.skipped_null_messages is None
        },
{
}

/// Was the machine asked for events of this log and severity, and its answer told?
pub open spec fn asked_for<B: WindowsBackend>(
    backend: &B,
    r: Result<EventReport, WinkitError>,
    log: Seq<char>,
    level: u32,
) -> bool {
    exists|query: EventQuery, answer: Result<Vec<EventInfo>, WinkitError>|
        {
            &&& query.log@ == log
            &&& query.min_level == Some(level)
            &&& #[trigger] call_ensures(B::get_recent_events, (backend, &query), answer)
            &&& answer is Ok <==> r is Ok
            &&& answer is Err ==> r->Err_0 == answer->Err_0
            &&& r is Ok ==> r->Ok_0.log@ == log
        }
}

} // verus!
