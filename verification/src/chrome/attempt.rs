//! One launch attempt of a managed browser, as a state machine.
//!
//! The machine decides; its driver does what it says and reports back. A
//! session is ready only when, in one round and in this order, the browser was
//! alive, its endpoint answered on this machine, a page was there, the
//! handshake succeeded, a window showed (where one is due), and after a pause
//! the browser was still alive and the page still there.

use crate::chrome::launch::{
    host_of, hosts_match, plain_host, url_host, ws_is_loopback, ws_loopback,
};
use crate::models::{ChromeEndpoint, TargetInfo};
use crate::text::{opt_view, same};
use vstd::prelude::*;

verus! {

/// The pause between two rounds, in milliseconds.
pub const POLL_INTERVAL_MS: u64 = 100;

/// The smallest budget, in milliseconds, that a step is started with.
pub const MIN_PROBE_BUDGET_MS: u64 = 25;

/// How long, in milliseconds, a browser must stay up before it counts as
/// ready.
pub const STABILITY_PERIOD_MS: u64 = 750;

/// What an attempt waits for.
pub enum Phase {
    /// Whether the browser process is alive, at the start of a round.
    Child,
    /// The answer of the endpoint.
    Endpoint,
    /// The list of targets.
    Targets,
    /// The outcome of the handshake with a target.
    Handshake { tab_id: String },
    /// Whether a window shows.
    Window { tab_id: String },
    /// The end of the stability pause.
    Stability { tab_id: String },
    /// Whether the browser process is still alive.
    ChildAgain { tab_id: String },
    /// The list of targets once more.
    TargetsAgain { tab_id: String },
    /// The end of the pause between two rounds.
    Pause,
    /// Nothing: the attempt has ended.
    Over,
}

/// A phase with its texts taken by their views.
pub enum PhaseView {
    Child,
    Endpoint,
    Targets,
    Handshake { tab_id: Seq<char> },
    Window { tab_id: Seq<char> },
    Stability { tab_id: Seq<char> },
    ChildAgain { tab_id: Seq<char> },
    TargetsAgain { tab_id: Seq<char> },
    Pause,
    Over,
}

impl View for Phase {
    type V = PhaseView;

    open spec fn view(&self) -> PhaseView {
        match self {
            Phase::Child => PhaseView::Child,
            Phase::Endpoint => PhaseView::Endpoint,
            Phase::Targets => PhaseView::Targets,
            Phase::Handshake { tab_id } => PhaseView::Handshake { tab_id: tab_id@ },
            Phase::Window { tab_id } => PhaseView::Window { tab_id: tab_id@ },
            Phase::Stability { tab_id } => PhaseView::Stability { tab_id: tab_id@ },
            Phase::ChildAgain { tab_id } => PhaseView::ChildAgain { tab_id: tab_id@ },
            Phase::TargetsAgain { tab_id } => PhaseView::TargetsAgain { tab_id: tab_id@ },
            Phase::Pause => PhaseView::Pause,
            Phase::Over => PhaseView::Over,
        }
    }
}

/// What the driver reports. `remaining_ms` is what was left of the startup
/// budget when the report was made.
pub enum AttemptEvent {
    ChildStatus { exited: bool, remaining_ms: u64 },
    Endpoint { found: Option<ChromeEndpoint>, remaining_ms: u64 },
    Targets { targets: Vec<TargetInfo>, remaining_ms: u64 },
    Handshake { ok: bool, remaining_ms: u64 },
    Window { shown: bool, remaining_ms: u64 },
    Slept,
}

/// What the driver is to do next.
pub enum AttemptAction {
    AskChild,
    ProbeEndpoint { budget_ms: u64 },
    ProbeTargets { budget_ms: u64 },
    VerifyReady { tab_id: String, budget_ms: u64 },
    CheckWindow,
    Sleep { ms: u64 },
    /// The browser went away; the text says when.
    FailExited { reason: &'static str },
    /// The endpoint is not on this machine.
    FailNotLoopback,
    /// The startup budget is used up.
    FailDeadline,
    /// The session is ready on this page.
    Ready { tab_id: String },
}

/// An action with its texts taken by their views.
pub enum ActionView {
    AskChild,
    ProbeEndpoint { budget_ms: u64 },
    ProbeTargets { budget_ms: u64 },
    VerifyReady { tab_id: Seq<char>, budget_ms: u64 },
    CheckWindow,
    Sleep { ms: u64 },
    FailExited { reason: Seq<char> },
    FailNotLoopback,
    FailDeadline,
    Ready { tab_id: Seq<char> },
}

impl View for AttemptAction {
    type V = ActionView;

    open spec fn view(&self) -> ActionView {
        match self {
            AttemptAction::AskChild => ActionView::AskChild,
            AttemptAction::ProbeEndpoint { budget_ms } => ActionView::ProbeEndpoint {
                budget_ms: *budget_ms,
            },
            AttemptAction::ProbeTargets { budget_ms } => ActionView::ProbeTargets {
                budget_ms: *budget_ms,
            },
            AttemptAction::VerifyReady { tab_id, budget_ms } => ActionView::VerifyReady {
                tab_id: tab_id@,
                budget_ms: *budget_ms,
            },
            AttemptAction::CheckWindow => ActionView::CheckWindow,
            AttemptAction::Sleep { ms } => ActionView::Sleep { ms: *ms },
            AttemptAction::FailExited { reason } => ActionView::FailExited { reason: reason@ },
            AttemptAction::FailNotLoopback => ActionView::FailNotLoopback,
            AttemptAction::FailDeadline => ActionView::FailDeadline,
            AttemptAction::Ready { tab_id } => ActionView::Ready { tab_id: tab_id@ },
        }
    }
}

/// Could another launch mode help after an attempt that ended so? It could
/// where the browser went away, and where the startup budget is used up.
pub open spec fn retryable(action: ActionView) -> bool {
    action is FailExited || action is FailDeadline
}

/// Could another launch mode help after an attempt that ended so?
pub fn is_retryable(action: &AttemptAction) -> (r: bool)
    ensures
        r == (action is FailExited || action is FailDeadline),
        r == retryable(action@),
{
    match action {
        AttemptAction::FailExited { .. } => true,
        AttemptAction::FailDeadline => true,
        _ => false,
    }
}

/// What an attempt is made with.
pub struct AttemptPlan {
    /// No window is due.
    pub headless: bool,
    /// The host that the page must be on, where a page was asked for.
    pub host: Option<String>,
    /// How long the browser must stay up, in milliseconds.
    pub stability_ms: u64,
}

/// The host that a page must be on, for an address as it is displayed.
pub fn wanted_host(url: &Option<String>) -> (r: Option<String>)
    ensures
        match url {
            None => r is None,
            Some(u) => opt_view(r) == Some(
                match host_of(u@) {
                    Some(h) => h,
                    None => Seq::<char>::empty(),
                },
            ),
        },
{
    match url {
        None => None,
        Some(u) => match url_host(u) {
            Some(h) => Some(h),
            None => Some(String::new()),
        },
    }
}

/// Is `t` a page, on the given host where one is given?
pub open spec fn is_wanted(t: TargetInfo, host: Option<Seq<char>>) -> bool {
    &&& t.kind@ == "page"@
    &&& match host {
        None => true,
        Some(h) => match host_of(t.url@) {
            None => false,
            Some(own) => plain_host(own) == plain_host(h),
        },
    }
}

/// The place of the first wanted target.
pub open spec fn first_wanted(targets: Seq<TargetInfo>, host: Option<Seq<char>>) -> Option<int>
    decreases targets.len(),
{
    if targets.len() == 0 {
        None
    } else {
        match first_wanted(targets.drop_last(), host) {
            Some(i) => Some(i),
            None => if is_wanted(targets.last(), host) {
                Some(targets.len() - 1)
            } else {
                None
            },
        }
    }
}

/// Is `t` a page, on the given host where one is given?
pub fn target_wanted(t: &TargetInfo, host: &Option<String>) -> (r: bool)
    ensures
        r == is_wanted(*t, opt_view(*host)),
{
    if !same(&t.kind, "page") {
        return false;
    }
    match host {
        None => true,
        Some(h) => match url_host(&t.url) {
            None => false,
            Some(own) => hosts_match(&own, h),
        },
    }
}

/// The place of the first wanted target.
pub fn find_wanted(targets: &Vec<TargetInfo>, host: &Option<String>) -> (r: Option<usize>)
    ensures
        match r {
            Some(i) => first_wanted(targets@, opt_view(*host)) == Some(i as int) && i
                < targets@.len() && is_wanted(targets@[i as int], opt_view(*host)),
            None => first_wanted(targets@, opt_view(*host)) is None,
        },
{
    let mut i: usize = 0;
    while i < targets.len()
        invariant
            i <= targets@.len(),
            first_wanted(targets@.take(i as int), opt_view(*host)) is None,
        decreases targets@.len() - i,
    {
        assert(targets@.take(i + 1).drop_last() == targets@.take(i as int));
        if target_wanted(&targets[i], host) {
            proof {
                lemma_first_wanted_stays(targets@, opt_view(*host), i + 1);
            }
            return Some(i);
        }
        i = i + 1;
    }
    assert(targets@.take(targets@.len() as int) == targets@);
    None
}

proof fn lemma_first_wanted_stays(targets: Seq<TargetInfo>, host: Option<Seq<char>>, n: int)
    requires
        0 <= n <= targets.len(),
        first_wanted(targets.take(n), host) is Some,
    ensures
        first_wanted(targets, host) == first_wanted(targets.take(n), host),
    decreases targets.len(),
{
    if n < targets.len() {
        assert(targets.drop_last().take(n) == targets.take(n));
        lemma_first_wanted_stays(targets.drop_last(), host, n);
    } else {
        assert(targets.take(n) == targets);
    }
}

/// The first wanted target is a wanted target.
pub proof fn lemma_first_wanted(targets: Seq<TargetInfo>, host: Option<Seq<char>>)
    ensures
        match first_wanted(targets, host) {
            Some(i) => 0 <= i < targets.len() && is_wanted(targets[i], host),
            None => forall|k: int| 0 <= k < targets.len() ==> !is_wanted(#[trigger] targets[k], host),
        },
    decreases targets.len(),
{
    if targets.len() > 0 {
        let rest = targets.drop_last();
        lemma_first_wanted(rest, host);
        if first_wanted(rest, host) is None {
            assert forall|k: int| 0 <= k < targets.len() - 1 implies !is_wanted(
                #[trigger] targets[k],
                host,
            ) by {
                assert(rest[k] == targets[k]);
            }
        }
    }
}

/// Is a target with this id among `targets`?
pub open spec fn has_target(targets: Seq<TargetInfo>, id: Seq<char>) -> bool {
    exists|i: int| 0 <= i < targets.len() && (#[trigger] targets[i]).id@ == id
}

/// Is a target with this id among `targets`?
pub fn target_listed(targets: &Vec<TargetInfo>, id: &str) -> (r: bool)
    ensures
        r == has_target(targets@, id@),
{
    let mut i: usize = 0;
    while i < targets.len()
        invariant
            i <= targets@.len(),
            forall|k: int| 0 <= k < i ==> (#[trigger] targets@[k]).id@ != id@,
        decreases targets@.len() - i,
    {
        if same(&targets[i].id, id) {
            return true;
        }
        i = i + 1;
    }
    false
}

/// Is the event an answer to what the phase waits for?
pub open spec fn fits(phase: PhaseView, event: AttemptEvent) -> bool {
    match phase {
        PhaseView::Child => event is ChildStatus,
        PhaseView::Endpoint => event is Endpoint,
        PhaseView::Targets => event is Targets,
        PhaseView::Handshake { .. } => event is Handshake,
        PhaseView::Window { .. } => event is Window,
        PhaseView::Stability { .. } => event is Slept,
        PhaseView::ChildAgain { .. } => event is ChildStatus,
        PhaseView::TargetsAgain { .. } => event is Targets,
        PhaseView::Pause => event is Slept,
        PhaseView::Over => false,
    }
}

/// A round ended without success: pause, then begin again.
pub open spec fn pausing() -> (PhaseView, ActionView) {
    (PhaseView::Pause, ActionView::Sleep { ms: POLL_INTERVAL_MS })
}

/// The startup budget is used up.
pub open spec fn out_of_time() -> (PhaseView, ActionView) {
    (PhaseView::Over, ActionView::FailDeadline)
}

/// The handshake has succeeded, and a window shows where one is due: wait for
/// the stability period, or for what the budget leaves of it.
pub open spec fn settling(plan: AttemptPlan, tab_id: Seq<char>, remaining_ms: u64) -> (
    PhaseView,
    ActionView,
) {
    if remaining_ms < MIN_PROBE_BUDGET_MS {
        out_of_time()
    } else {
        let room = (remaining_ms - MIN_PROBE_BUDGET_MS) as u64;
        let wait = if plan.stability_ms < room {
            plan.stability_ms
        } else {
            room
        };
        if wait == 0 {
            (PhaseView::ChildAgain { tab_id }, ActionView::AskChild)
        } else {
            (PhaseView::Stability { tab_id }, ActionView::Sleep { ms: wait })
        }
    }
}

/// What follows an event.
pub open spec fn attempt_step(plan: AttemptPlan, phase: PhaseView, event: AttemptEvent) -> (
    PhaseView,
    ActionView,
) {
    match (phase, event) {
        (PhaseView::Child, AttemptEvent::ChildStatus { exited, remaining_ms }) => {
            if exited {
                (
                    PhaseView::Over,
                    ActionView::FailExited { reason: "the browser exited before becoming ready"@ },
                )
            } else if remaining_ms < MIN_PROBE_BUDGET_MS {
                out_of_time()
            } else {
                (PhaseView::Endpoint, ActionView::ProbeEndpoint { budget_ms: remaining_ms })
            }
        },
        (PhaseView::Endpoint, AttemptEvent::Endpoint { found, remaining_ms }) => {
            match found {
                None => pausing(),
                Some(endpoint) => {
                    if !ws_loopback(endpoint.browser_ws_url@) {
                        (PhaseView::Over, ActionView::FailNotLoopback)
                    } else if remaining_ms < MIN_PROBE_BUDGET_MS {
                        out_of_time()
                    } else {
                        (PhaseView::Targets, ActionView::ProbeTargets { budget_ms: remaining_ms })
                    }
                },
            }
        },
        (PhaseView::Targets, AttemptEvent::Targets { targets, remaining_ms }) => {
            match first_wanted(targets@, opt_view(plan.host)) {
                None => pausing(),
                Some(i) => {
                    if remaining_ms < MIN_PROBE_BUDGET_MS {
                        out_of_time()
                    } else {
                        let tab_id = targets@[i].id@;
                        (
                            PhaseView::Handshake { tab_id },
                            ActionView::VerifyReady { tab_id, budget_ms: remaining_ms },
                        )
                    }
                },
            }
        },
        (PhaseView::Handshake { tab_id }, AttemptEvent::Handshake { ok, remaining_ms }) => {
            if !ok {
                pausing()
            } else if plan.headless {
                settling(plan, tab_id, remaining_ms)
            } else {
                (PhaseView::Window { tab_id }, ActionView::CheckWindow)
            }
        },
        (PhaseView::Window { tab_id }, AttemptEvent::Window { shown, remaining_ms }) => {
            if !shown {
                pausing()
            } else {
                settling(plan, tab_id, remaining_ms)
            }
        },
        (PhaseView::Stability { tab_id }, AttemptEvent::Slept) => {
            (PhaseView::ChildAgain { tab_id }, ActionView::AskChild)
        },
        (PhaseView::ChildAgain { tab_id }, AttemptEvent::ChildStatus { exited, remaining_ms }) => {
            if exited {
                (
                    PhaseView::Over,
                    ActionView::FailExited {
                        reason: "the browser exited during the readiness stability period"@,
                    },
                )
            } else if remaining_ms < MIN_PROBE_BUDGET_MS {
                out_of_time()
            } else {
                (
                    PhaseView::TargetsAgain { tab_id },
                    ActionView::ProbeTargets { budget_ms: remaining_ms },
                )
            }
        },
        (PhaseView::TargetsAgain { tab_id }, AttemptEvent::Targets { targets, .. }) => {
            if has_target(targets@, tab_id) {
                (PhaseView::Over, ActionView::Ready { tab_id })
            } else {
                pausing()
            }
        },
        (PhaseView::Pause, AttemptEvent::Slept) => (PhaseView::Child, ActionView::AskChild),
        (other, _) => (other, ActionView::AskChild),
    }
}

fn pause() -> (r: (Phase, AttemptAction))
    ensures
        (r.0@, r.1@) == pausing(),
{
    (Phase::Pause, AttemptAction::Sleep { ms: POLL_INTERVAL_MS })
}

fn deadline() -> (r: (Phase, AttemptAction))
    ensures
        (r.0@, r.1@) == out_of_time(),
{
    (Phase::Over, AttemptAction::FailDeadline)
}

fn settle(plan: &AttemptPlan, tab_id: String, remaining_ms: u64) -> (r: (Phase, AttemptAction))
    ensures
        (r.0@, r.1@) == settling(*plan, tab_id@, remaining_ms),
{
    if remaining_ms < MIN_PROBE_BUDGET_MS {
        return deadline();
    }
    let room: u64 = remaining_ms - MIN_PROBE_BUDGET_MS;
    let wait: u64 = if plan.stability_ms < room {
        plan.stability_ms
    } else {
        room
    };
    if wait == 0 {
        (Phase::ChildAgain { tab_id }, AttemptAction::AskChild)
    } else {
        (Phase::Stability { tab_id }, AttemptAction::Sleep { ms: wait })
    }
}

/// The first phase of an attempt; the driver begins by asking for the child.
pub fn begin_attempt() -> (r: (Phase, AttemptAction))
    ensures
        r.0@ == PhaseView::Child,
        r.1@ == ActionView::AskChild,
{
    (Phase::Child, AttemptAction::AskChild)
}

/// What follows an event that fits the phase.
pub fn advance_attempt(plan: &AttemptPlan, phase: Phase, event: AttemptEvent) -> (r: (
    Phase,
    AttemptAction,
))
    requires
        fits(phase@, event),
    ensures
        (r.0@, r.1@) == attempt_step(*plan, phase@, event),
{
    match (phase, event) {
        (Phase::Child, AttemptEvent::ChildStatus { exited, remaining_ms }) => {
            if exited {
                (
                    Phase::Over,
                    AttemptAction::FailExited {
                        reason: "the browser exited before becoming ready",
                    },
                )
            } else if remaining_ms < MIN_PROBE_BUDGET_MS {
                deadline()
            } else {
                (Phase::Endpoint, AttemptAction::ProbeEndpoint { budget_ms: remaining_ms })
            }
        },
        (Phase::Endpoint, AttemptEvent::Endpoint { found, remaining_ms }) => {
            match found {
                None => pause(),
                Some(endpoint) => {
                    if !ws_is_loopback(&endpoint.browser_ws_url) {
                        (Phase::Over, AttemptAction::FailNotLoopback)
                    } else if remaining_ms < MIN_PROBE_BUDGET_MS {
                        deadline()
                    } else {
                        (Phase::Targets, AttemptAction::ProbeTargets { budget_ms: remaining_ms })
                    }
                },
            }
        },
        (Phase::Targets, AttemptEvent::Targets { targets, remaining_ms }) => {
            match find_wanted(&targets, &plan.host) {
                None => pause(),
                Some(i) => {
                    if remaining_ms < MIN_PROBE_BUDGET_MS {
                        deadline()
                    } else {
                        (
                            Phase::Handshake { tab_id: targets[i].id.clone() },
                            AttemptAction::VerifyReady {
                                tab_id: targets[i].id.clone(),
                                budget_ms: remaining_ms,
                            },
                        )
                    }
                },
            }
        },
        (Phase::Handshake { tab_id }, AttemptEvent::Handshake { ok, remaining_ms }) => {
            if !ok {
                pause()
            } else if plan.headless {
                settle(plan, tab_id, remaining_ms)
            } else {
                (Phase::Window { tab_id }, AttemptAction::CheckWindow)
            }
        },
        (Phase::Window { tab_id }, AttemptEvent::Window { shown, remaining_ms }) => {
            if !shown {
                pause()
            } else {
                settle(plan, tab_id, remaining_ms)
            }
        },
        (Phase::Stability { tab_id }, AttemptEvent::Slept) => {
            (Phase::ChildAgain { tab_id }, AttemptAction::AskChild)
        },
        (Phase::ChildAgain { tab_id }, AttemptEvent::ChildStatus { exited, remaining_ms }) => {
            if exited {
                (
                    Phase::Over,
                    AttemptAction::FailExited {
                        reason: "the browser exited during the readiness stability period",
                    },
                )
            } else if remaining_ms < MIN_PROBE_BUDGET_MS {
                deadline()
            } else {
                (
                    Phase::TargetsAgain { tab_id },
                    AttemptAction::ProbeTargets { budget_ms: remaining_ms },
                )
            }
        },
        (Phase::TargetsAgain { tab_id }, AttemptEvent::Targets { targets, .. }) => {
            if target_listed(&targets, &tab_id) {
                (Phase::Over, AttemptAction::Ready { tab_id })
            } else {
                pause()
            }
        },
        (Phase::Pause, AttemptEvent::Slept) => (Phase::Child, AttemptAction::AskChild),
        (other, _) => (other, AttemptAction::AskChild),
    }
}

/// The phase after a whole history of events, and the last action.
pub open spec fn run_attempt(plan: AttemptPlan, events: Seq<AttemptEvent>) -> (
    PhaseView,
    ActionView,
)
    decreases events.len(),
{
    if events.len() == 0 {
        (PhaseView::Child, ActionView::AskChild)
    } else {
        attempt_step(plan, run_attempt(plan, events.drop_last()).0, events.last())
    }
}

/// Did every event of the history fit the phase it met?
pub open spec fn run_fits(plan: AttemptPlan, events: Seq<AttemptEvent>) -> bool
    decreases events.len(),
{
    events.len() == 0 || (run_fits(plan, events.drop_last()) && fits(
        run_attempt(plan, events.drop_last()).0,
        events.last(),
    ))
}

/// Did a round that begins at `at` find the browser alive, its endpoint on
/// this machine, the page `tab_id` wanted, the handshake done, and a window
/// where one is due, with `end` the first event behind these?
pub open spec fn round_checked(
    plan: AttemptPlan,
    events: Seq<AttemptEvent>,
    at: int,
    end: int,
    tab_id: Seq<char>,
) -> bool {
    &&& 0 <= at
    &&& end == at + (if plan.headless {
        4int
    } else {
        5
    })
    &&& end <= events.len()
    &&& events[at] matches AttemptEvent::ChildStatus { exited, .. } && !exited
    &&& events[at + 1] matches AttemptEvent::Endpoint { found: Some(e), .. } && ws_loopback(
        e.browser_ws_url@,
    )
    &&& events[at + 2] matches AttemptEvent::Targets { targets, .. } && (exists|i: int|
        0 <= i < targets@.len() && is_wanted(#[trigger] targets@[i], opt_view(plan.host))
            && targets@[i].id@ == tab_id)
    &&& events[at + 3] matches AttemptEvent::Handshake { ok, .. } && ok
    &&& !plan.headless ==> (events[at + 4] matches AttemptEvent::Window { shown, .. } && shown)
}

/// Was such a round made within the first `limit` events?
pub open spec fn round_done(
    plan: AttemptPlan,
    events: Seq<AttemptEvent>,
    limit: int,
    tab_id: Seq<char>,
) -> bool {
    exists|at: int, end: int| #[trigger]
        round_checked(plan, events, at, end, tab_id) && end <= limit
}

/// What is known of the history in each phase of a round.
spec fn progress(plan: AttemptPlan, events: Seq<AttemptEvent>, phase: PhaseView) -> bool {
    let n = events.len() as int;
    match phase {
        PhaseView::Endpoint => n >= 1 && (events[n - 1] matches AttemptEvent::ChildStatus {
            exited,
            ..
        } && !exited),
        PhaseView::Targets => n >= 2 && (events[n - 2] matches AttemptEvent::ChildStatus {
            exited,
            ..
        } && !exited) && (events[n - 1] matches AttemptEvent::Endpoint { found: Some(e), .. }
            && ws_loopback(e.browser_ws_url@)),
        PhaseView::Handshake { tab_id } => n >= 3 && (events[n
            - 3] matches AttemptEvent::ChildStatus { exited, .. } && !exited) && (events[n
            - 2] matches AttemptEvent::Endpoint { found: Some(e), .. } && ws_loopback(
            e.browser_ws_url@,
        )) && (events[n - 1] matches AttemptEvent::Targets { targets, .. } && (exists|i: int|
            0 <= i < targets@.len() && is_wanted(#[trigger] targets@[i], opt_view(plan.host))
                && targets@[i].id@ == tab_id)),
        PhaseView::Window { tab_id } => !plan.headless && n >= 4 && (events[n
            - 4] matches AttemptEvent::ChildStatus { exited, .. } && !exited) && (events[n
            - 3] matches AttemptEvent::Endpoint { found: Some(e), .. } && ws_loopback(
            e.browser_ws_url@,
        )) && (events[n - 2] matches AttemptEvent::Targets { targets, .. } && (exists|i: int|
            0 <= i < targets@.len() && is_wanted(#[trigger] targets@[i], opt_view(plan.host))
                && targets@[i].id@ == tab_id)) && (events[n
            - 1] matches AttemptEvent::Handshake { ok, .. } && ok),
        PhaseView::Stability { tab_id } => round_done(plan, events, n, tab_id),
        PhaseView::ChildAgain { tab_id } => round_done(plan, events, n, tab_id),
        PhaseView::TargetsAgain { tab_id } => n >= 1 && (events[n
            - 1] matches AttemptEvent::ChildStatus { exited, .. } && !exited) && round_done(
            plan,
            events,
            n - 1,
            tab_id,
        ),
        _ => true,
    }
}

proof fn lemma_round_grows(
    plan: AttemptPlan,
    events: Seq<AttemptEvent>,
    at: int,
    end: int,
    tab_id: Seq<char>,
)
    requires
        events.len() > 0,
        round_checked(plan, events.drop_last(), at, end, tab_id),
    ensures
        round_checked(plan, events, at, end, tab_id),
{
    let before = events.drop_last();
    assert(before[at] == events[at]);
    assert(before[at + 1] == events[at + 1]);
    assert(before[at + 2] == events[at + 2]);
    assert(before[at + 3] == events[at + 3]);
}

proof fn lemma_round_done_grows(
    plan: AttemptPlan,
    events: Seq<AttemptEvent>,
    limit: int,
    tab_id: Seq<char>,
)
    requires
        events.len() > 0,
        round_done(plan, events.drop_last(), limit, tab_id),
    ensures
        round_done(plan, events, limit, tab_id),
        round_done(plan, events, limit + 1, tab_id),
{
    let (at, end) = choose|at: int, end: int| #[trigger]
        round_checked(plan, events.drop_last(), at, end, tab_id) && end <= limit;
    lemma_round_grows(plan, events, at, end, tab_id);
}

proof fn lemma_progress(plan: AttemptPlan, events: Seq<AttemptEvent>)
    requires
        run_fits(plan, events),
    ensures
        progress(plan, events, run_attempt(plan, events).0),
    decreases events.len(),
{
    if events.len() > 0 {
        let before = events.drop_last();
        let n = events.len() as int;
        lemma_progress(plan, before);
        let phase = run_attempt(plan, before).0;
        let next = run_attempt(plan, events).0;
        assert(forall|k: int| 0 <= k < n - 1 ==> before[k] == events[k]);
        match phase {
            PhaseView::Targets => {
                if let AttemptEvent::Targets { targets, .. } = events.last() {
                    lemma_first_wanted(targets@, opt_view(plan.host));
                }
            },
            PhaseView::Handshake { tab_id } => {
                if next == (PhaseView::Stability { tab_id }) || next == (PhaseView::ChildAgain {
                    tab_id,
                }) {
                    assert(round_checked(plan, events, n - 4, n, tab_id));
                    assert(round_done(plan, events, n, tab_id));
                }
            },
            PhaseView::Window { tab_id } => {
                if next == (PhaseView::Stability { tab_id }) || next == (PhaseView::ChildAgain {
                    tab_id,
                }) {
                    assert(round_checked(plan, events, n - 5, n, tab_id));
                    assert(round_done(plan, events, n, tab_id));
                }
            },
            PhaseView::Stability { tab_id } => {
                lemma_round_done_grows(plan, events, n - 1, tab_id);
            },
            PhaseView::ChildAgain { tab_id } => {
                lemma_round_done_grows(plan, events, n - 1, tab_id);
            },
            _ => {},
        }
    }
}

/// A session is declared ready only after a complete round: the browser alive,
/// its endpoint on this machine, a wanted page, a successful handshake, a
/// window where one is due; and then, at the very end, the browser alive once
/// more and the same page still listed.
pub proof fn law_ready_is_earned(
    plan: AttemptPlan,
    events: Seq<AttemptEvent>,
    tab_id: Seq<char>,
)
    requires
        run_fits(plan, events),
        run_attempt(plan, events).1 == (ActionView::Ready { tab_id }),
    ensures
        events.len() >= 2,
        events.last() matches AttemptEvent::Targets { targets, .. } && has_target(targets@, tab_id),
        events[events.len() - 2] matches AttemptEvent::ChildStatus { exited, .. } && !exited,
        round_done(plan, events, events.len() - 2, tab_id),
{
    let before = events.drop_last();
    let n = events.len() as int;
    assert(events.len() > 0);
    lemma_progress(plan, before);
    assert(run_attempt(plan, before).0 == (PhaseView::TargetsAgain { tab_id }));
    lemma_round_done_grows(plan, events, n - 2, tab_id);
    assert(before[n - 2] == events[n - 2]);
}

/// What an event says of the budget that is left.
pub open spec fn left_of(event: AttemptEvent) -> Option<u64> {
    match event {
        AttemptEvent::ChildStatus { remaining_ms, .. } => Some(remaining_ms),
        AttemptEvent::Endpoint { remaining_ms, .. } => Some(remaining_ms),
        AttemptEvent::Targets { remaining_ms, .. } => Some(remaining_ms),
        AttemptEvent::Handshake { remaining_ms, .. } => Some(remaining_ms),
        AttemptEvent::Window { remaining_ms, .. } => Some(remaining_ms),
        AttemptEvent::Slept => None,
    }
}

/// An attempt that is over succeeded, was refused for an endpoint on another
/// machine, or may be tried again in another mode; and that exactly where the
/// browser has exited or too little of the budget is left.
pub proof fn law_retry_has_a_cause(plan: AttemptPlan, phase: PhaseView, event: AttemptEvent)
    requires
        fits(phase, event),
        attempt_step(plan, phase, event).0 is Over,
    ensures
        ({
            let end = attempt_step(plan, phase, event).1;
            let exited = event matches AttemptEvent::ChildStatus { exited, .. } && exited;
            let remote = event matches AttemptEvent::Endpoint { found: Some(e), .. }
                && !ws_loopback(e.browser_ws_url@);
            &&& end is FailExited <==> exited
            &&& end is FailNotLoopback <==> remote
            &&& end is FailDeadline ==> left_of(event) is Some && left_of(event)->0
                < MIN_PROBE_BUDGET_MS
            &&& retryable(end) <==> !(end is Ready) && !remote
        }),
{
}

/// No step is started with less than the smallest budget, and none with more
/// than was left.
pub proof fn law_budgets_are_what_is_left(
    plan: AttemptPlan,
    phase: PhaseView,
    event: AttemptEvent,
    left: u64,
)
    requires
        fits(phase, event),
        event matches AttemptEvent::ChildStatus { remaining_ms, .. } ==> remaining_ms == left,
        event matches AttemptEvent::Endpoint { remaining_ms, .. } ==> remaining_ms == left,
        event matches AttemptEvent::Targets { remaining_ms, .. } ==> remaining_ms == left,
        event matches AttemptEvent::Handshake { remaining_ms, .. } ==> remaining_ms == left,
        event matches AttemptEvent::Window { remaining_ms, .. } ==> remaining_ms == left,
    ensures
        attempt_step(plan, phase, event).1 matches ActionView::ProbeEndpoint { budget_ms }
            ==> MIN_PROBE_BUDGET_MS <= budget_ms && budget_ms == left,
        attempt_step(plan, phase, event).1 matches ActionView::ProbeTargets { budget_ms }
            ==> MIN_PROBE_BUDGET_MS <= budget_ms && budget_ms == left,
        attempt_step(plan, phase, event).1 matches ActionView::VerifyReady { budget_ms, .. }
            ==> MIN_PROBE_BUDGET_MS <= budget_ms && budget_ms == left,
        attempt_step(plan, phase, event).0 is Stability ==> (attempt_step(
            plan,
            phase,
            event,
        ).1 matches ActionView::Sleep { ms } && ms + MIN_PROBE_BUDGET_MS <= left),
{
}

/// The page that an attempt goes on with is the first one that is wanted: a target of
/// kind `page`, on the host that was asked for where one was.
pub proof fn law_first_wanted_page_is_taken(
    targets: Vec<TargetInfo>,
    host: Option<String>,
    r: Option<usize>,
)
    requires
        call_ensures(find_wanted, (&targets, &host), r),
    ensures
        r is None <==> forall|k: int|
            0 <= k < targets@.len() ==> !is_page_on(#[trigger] targets@[k], host),
        r matches Some(i) ==> {
            &&& i < targets@.len()
            &&& is_page_on(targets@[i as int], host)
            &&& forall|k: int| 0 <= k < i ==> !is_page_on(#[trigger] targets@[k], host)
        },
{
    lemma_first_wanted(targets@, opt_view(host));
    lemma_none_before(targets@, opt_view(host));
    assert forall|k: int| 0 <= k < targets@.len() implies is_page_on(#[trigger] targets@[k], host)
        == is_wanted(targets@[k], opt_view(host)) by {}
    if let Some(i) = r {
        assert(is_page_on(targets@[i as int], host));
    }
}

/// Is the target a page, and on the host where one is given?
pub open spec fn is_page_on(t: TargetInfo, host: Option<String>) -> bool {
    t.kind@ == "page"@ && (host is Some ==> host_of(t.url@) is Some && plain_host(
        host_of(t.url@)->0,
    ) == plain_host(host->0@))
}

proof fn lemma_none_before(targets: Seq<TargetInfo>, host: Option<Seq<char>>)
    ensures
        first_wanted(targets, host) matches Some(i) ==> forall|k: int|
            0 <= k < i ==> !is_wanted(#[trigger] targets[k], host),
    decreases targets.len(),
{
    if targets.len() > 0 {
        let rest = targets.drop_last();
        lemma_none_before(rest, host);
        lemma_first_wanted(rest, host);
        if let Some(i) = first_wanted(targets, host) {
            assert forall|k: int| 0 <= k < i implies !is_wanted(#[trigger] targets[k], host) by {
                assert(rest[k] == targets[k]);
            }
        }
    }
}

/// Each good answer takes an attempt one step on, with all the time that is left: from
/// the living browser to its endpoint, its pages, the handshake, a window where one is
/// due, the pause, and the second look; and a page that is still there is ready.
pub proof fn law_good_answers_lead_on(
    plan: AttemptPlan,
    phase: Phase,
    event: AttemptEvent,
    r: (Phase, AttemptAction),
)
    requires
        fits(phase@, event),
        call_ensures(advance_attempt, (&plan, phase, event), r),
    ensures
        match (phase@, event) {
            (PhaseView::Child, AttemptEvent::ChildStatus { exited, remaining_ms }) => !exited
                && remaining_ms >= 25 ==> r.0@ == PhaseView::Endpoint && r.1@ == (
            ActionView::ProbeEndpoint { budget_ms: remaining_ms }),
            (PhaseView::Endpoint, AttemptEvent::Endpoint { found, remaining_ms }) => found is Some
                && ws_loopback(found->0.browser_ws_url@) && remaining_ms >= 25 ==> r.0@
                == PhaseView::Targets && r.1@ == (ActionView::ProbeTargets {
                budget_ms: remaining_ms,
            }),
            (PhaseView::Handshake { tab_id }, AttemptEvent::Handshake { ok, remaining_ms }) => {
                &&& ok && !plan.headless ==> r.0@ == (PhaseView::Window { tab_id }) && r.1@
                    == ActionView::CheckWindow
                &&& ok && plan.headless && remaining_ms > 25 && plan.stability_ms > 0 ==> r.0@ == (
                PhaseView::Stability { tab_id }) && r.1@ is Sleep
            },
            (PhaseView::Window { tab_id }, AttemptEvent::Window { shown, remaining_ms }) => shown
                && remaining_ms > 25 && plan.stability_ms > 0 ==> r.0@ == (PhaseView::Stability {
                tab_id,
            }) && (r.1@ matches ActionView::Sleep { ms } && ms == if plan.stability_ms + 25
                <= remaining_ms {
                plan.stability_ms as int
            } else {
                remaining_ms - 25
            }),
            (PhaseView::Stability { tab_id }, AttemptEvent::Slept) => r.0@ == (
            PhaseView::ChildAgain { tab_id }) && r.1@ == ActionView::AskChild,
            (
                PhaseView::ChildAgain { tab_id },
                AttemptEvent::ChildStatus { exited, remaining_ms },
            ) => !exited && remaining_ms >= 25 ==> r.0@ == (PhaseView::TargetsAgain { tab_id })
                && r.1@ == (ActionView::ProbeTargets { budget_ms: remaining_ms }),
            (PhaseView::TargetsAgain { tab_id }, AttemptEvent::Targets { targets, .. }) => (
            exists|i: int| 0 <= i < targets@.len() && (#[trigger] targets@[i]).id@ == tab_id)
                ==> r.0@ == PhaseView::Over && r.1@ == (ActionView::Ready { tab_id }),
            _ => true,
        },
{
}

/// A bad answer that says nothing final ends the round: after a tenth of a second the
/// attempt begins again with the browser.
pub proof fn law_bad_answers_begin_again(
    plan: AttemptPlan,
    phase: Phase,
    event: AttemptEvent,
    r: (Phase, AttemptAction),
)
    requires
        fits(phase@, event),
        call_ensures(advance_attempt, (&plan, phase, event), r),
    ensures
        ({
            let bad = match event {
                AttemptEvent::Endpoint { found, .. } => found is None,
                AttemptEvent::Handshake { ok, .. } => !ok,
                AttemptEvent::Window { shown, .. } => !shown,
                AttemptEvent::Targets { targets, .. } => match phase@ {
                    PhaseView::TargetsAgain { tab_id } => forall|i: int|
                        0 <= i < targets@.len() ==> (#[trigger] targets@[i]).id@ != tab_id,
                    _ => forall|i: int|
                        0 <= i < targets@.len() ==> !is_page_on(#[trigger] targets@[i], plan.host),
                },
                _ => false,
            };
            &&& bad <==> r.0@ == PhaseView::Pause
            &&& bad ==> r.1@ == (ActionView::Sleep { ms: 100 })
            &&& phase@ == PhaseView::Pause ==> r.0@ == PhaseView::Child && r.1@
                == ActionView::AskChild
        }),
{
    if let AttemptEvent::Targets { targets, .. } = event {
        lemma_first_wanted(targets@, opt_view(plan.host));
        assert forall|k: int| 0 <= k < targets@.len() implies is_page_on(
            #[trigger] targets@[k],
            plan.host,
        ) == is_wanted(targets@[k], opt_view(plan.host)) by {}
        if let Some(i) = first_wanted(targets@, opt_view(plan.host)) {
            assert(is_page_on(targets@[i], plan.host));
        }
    }
}

/// Another mode is worth trying after the browser has exited or the time has run out,
/// and after nothing else.
pub proof fn law_other_modes_are_tried_after(action: AttemptAction, r: bool)
    requires
        call_ensures(is_retryable, (&action,), r),
    ensures
        r <==> action is FailExited || action is FailDeadline,
        action is Ready ==> !r,
{
}

} // verus!
