//! Finding the browser: installed, running, and open to inspection.
//!
//! A discovery pass is bounded as a whole: it has one time budget, and every
//! probe gets only what is left of it. Where no endpoint is found the pass says
//! what to do about it.

use crate::chrome::session::{member_text, text_or};
use crate::errors::{err_view, ErrorKind, WinkitError};
use crate::json::{json_parse, Json, JsonView};
use crate::models::{ChromeEndpoint, ProcessInfo};
use crate::text::{
    after_prefix, drop_around, opt_view, parse_uint, parsed_uint, split, split_on, strip_prefix,
    first_of, trim, trimmed, views, without_leading, without_trailing, words, words_of,
};
use vstd::prelude::*;
use vstd::string::*;

verus! {

/// How long a discovery result is good for, in milliseconds.
pub const DISCOVERY_TTL_MS: u64 = 10000;

/// How long a list of targets is good for, in milliseconds.
pub const TARGETS_TTL_MS: u64 = 5000;

/// The shortest discovery pass, in milliseconds.
pub const MIN_DISCOVERY_MS: u64 = 50;

/// The smallest budget, in milliseconds, that a probe is started with.
pub const MIN_PROBE_BUDGET_MS: u64 = 25;

/// How far along the browser is.
#[derive(Debug, Clone, Copy, PartialEq, Eq, Structural)]
pub enum ChromeState {
    NotInstalled,
    Installed,
    Running,
    /// Running, but no endpoint can be reached.
    EndpointUnavailable,
    /// An endpoint can be reached; nobody is connected yet.
    EndpointAvailable,
    /// Connected.
    Connected,
}

impl ChromeState {
    /// The state in words.
    pub open spec fn description(self) -> Seq<char> {
        match self {
            ChromeState::NotInstalled => "Chrome is not installed"@,
            ChromeState::Installed => "Chrome is installed but not running"@,
            ChromeState::Running => "Chrome is running without a DevTools endpoint"@,
            ChromeState::EndpointUnavailable =>
                "Chrome is running but the inspection endpoint is unavailable"@,
            ChromeState::EndpointAvailable => "Chrome inspection endpoint is available"@,
            ChromeState::Connected => "Chrome adapter is connected"@,
        }
    }

    /// The state in words.
    pub fn describe(self) -> (r: &'static str)
        ensures
            r@ == self.description(),
    {
        match self {
            ChromeState::NotInstalled => "Chrome is not installed",
            ChromeState::Installed => "Chrome is installed but not running",
            ChromeState::Running => "Chrome is running without a DevTools endpoint",
            ChromeState::EndpointUnavailable =>
                "Chrome is running but the inspection endpoint is unavailable",
            ChromeState::EndpointAvailable => "Chrome inspection endpoint is available",
            ChromeState::Connected => "Chrome adapter is connected",
        }
    }
}

/// The state of any application, in general terms.
#[derive(Debug, Clone, Copy, PartialEq, Eq, Structural)]
pub enum ApplicationState {
    NotInstalled,
    InstalledNotRunning,
    RunningNotInspectable,
    RunningInspectable,
    Connected,
}

/// The browser's state in general terms.
pub open spec fn state_in_general(state: ChromeState) -> ApplicationState {
    match state {
        ChromeState::NotInstalled => ApplicationState::NotInstalled,
        ChromeState::Installed => ApplicationState::InstalledNotRunning,
        ChromeState::Running => ApplicationState::RunningNotInspectable,
        ChromeState::EndpointUnavailable => ApplicationState::RunningNotInspectable,
        ChromeState::EndpointAvailable => ApplicationState::RunningInspectable,
        ChromeState::Connected => ApplicationState::Connected,
    }
}

/// The browser's state in general terms.
pub fn application_state(state: ChromeState) -> (r: ApplicationState)
    ensures
        r == state_in_general(state),
{
    match state {
        ChromeState::NotInstalled => ApplicationState::NotInstalled,
        ChromeState::Installed => ApplicationState::InstalledNotRunning,
        ChromeState::Running => ApplicationState::RunningNotInspectable,
        ChromeState::EndpointUnavailable => ApplicationState::RunningNotInspectable,
        ChromeState::EndpointAvailable => ApplicationState::RunningInspectable,
        ChromeState::Connected => ApplicationState::Connected,
    }
}

/// What a discovery pass found.
pub struct ChromeDiscoveryResult {
    pub state: ChromeState,
    pub installed_path: Option<String>,
    pub running_processes: Vec<ProcessInfo>,
    pub endpoint: Option<ChromeEndpoint>,
    /// What to do, where no endpoint was found.
    pub remediation: Option<&'static str>,
}

/// What a discovery pass is made with.
pub struct ChromeConfig {
    pub discovery_timeout_ms: u64,
    /// A port to try where no other is known; zero for none.
    pub fallback_port: u16,
}

/// What a discovery pass asks of the machine.
pub trait DiscoveryIo {
    /// The path of the installed browser, if any.
    fn installed_path(&self) -> Option<String>;

    /// The running browser processes.
    fn running_processes(&self) -> Vec<ProcessInfo>;

    /// The ports on which the running processes may be inspected.
    fn devtools_ports(&self, processes: &Vec<ProcessInfo>) -> Vec<u16>;

    /// Looks for an endpoint on a port, for at most this many milliseconds.
    fn probe_endpoint(&self, port: u16, budget_ms: u64) -> Option<ChromeEndpoint>;
}

/// A moment of the machine's clock.
#[verifier::external_type_specification]
#[verifier::external_body]
pub struct ExInstant(std::time::Instant);

/// `std::time::Instant::now`: the present moment. Of a clock nothing can be
/// promised here.
#[verifier::external_body]
fn clock_now() -> std::time::Instant {
    std::time::Instant::now()
}

/// `Instant::elapsed`: the time since a moment, in whole milliseconds. Of a
/// clock nothing can be promised here.
#[verifier::external_body]
fn clock_elapsed_ms(since: &std::time::Instant) -> u64 {
    since.elapsed().as_millis() as u64
}

/// What to do in a state in which there is no endpoint.
pub open spec fn help_text(state: ChromeState) -> Seq<char> {
    match state {
        ChromeState::NotInstalled =>
            "Chrome is not installed. Install Google Chrome and run discovery again."@,
        ChromeState::EndpointUnavailable | ChromeState::Running =>
            "Chrome must be launched with a dedicated user-data-dir and the remote debugging port enabled, e.g. 'chrome.exe --user-data-dir=%LOCALAPPDATA%\\Google\\Chrome\\User Data\\Debug --remote-debugging-port=9222'. Restart Chrome with those flags and WinKit will detect the endpoint automatically."@,
        ChromeState::Installed =>
            "Chrome is installed but not running. Launch Chrome (optionally with --remote-debugging-port=9222) and try again."@,
        _ => ""@,
    }
}

/// What to do in a state in which there is no endpoint.
pub fn endpoint_help(state: ChromeState) -> (r: &'static str)
    ensures
        r@ == help_text(state),
{
    match state {
        ChromeState::NotInstalled =>
            "Chrome is not installed. Install Google Chrome and run discovery again.",
        ChromeState::EndpointUnavailable | ChromeState::Running =>
            "Chrome must be launched with a dedicated user-data-dir and the remote debugging port enabled, e.g. 'chrome.exe --user-data-dir=%LOCALAPPDATA%\\Google\\Chrome\\User Data\\Debug --remote-debugging-port=9222'. Restart Chrome with those flags and WinKit will detect the endpoint automatically.",
        ChromeState::Installed =>
            "Chrome is installed but not running. Launch Chrome (optionally with --remote-debugging-port=9222) and try again.",
        _ => "",
    }
}

/// A failed probe as an error of the application.
pub fn probe_error(e: WinkitError) -> (r: WinkitError)
    ensures
        r@ == err_view(ErrorKind::ApplicationUnavailable, e.message@),
{
    WinkitError::new(ErrorKind::ApplicationUnavailable, e.message)
}

/// The error where there is no endpoint to connect to.
pub fn no_endpoint_error(state: ChromeState) -> (r: WinkitError)
    ensures
        r@ == err_view(
            ErrorKind::ApplicationUnavailable,
            state.description() + " — "@ + help_text(state),
        ),
{
    WinkitError::application_unavailable(
        &crate::text::concat3(state.describe(), " — ", endpoint_help(state)),
    )
}

/// The state that the findings of a pass amount to.
pub open spec fn state_of(endpoint: bool, running: bool, installed: bool) -> ChromeState {
    if endpoint {
        ChromeState::EndpointAvailable
    } else if running {
        ChromeState::EndpointUnavailable
    } else if installed {
        ChromeState::Installed
    } else {
        ChromeState::NotInstalled
    }
}

/// Do state and advice of a result follow from its findings?
pub open spec fn consistent(r: ChromeDiscoveryResult) -> bool {
    &&& r.state == state_of(
        r.endpoint is Some,
        r.running_processes@.len() > 0,
        r.installed_path is Some,
    )
    &&& match r.remediation {
        Some(text) => r.endpoint is None && text@ == help_text(r.state),
        None => r.endpoint is Some,
    }
}

/// What the findings of a pass amount to.
pub fn conclude(
    installed_path: Option<String>,
    running_processes: Vec<ProcessInfo>,
    endpoint: Option<ChromeEndpoint>,
) -> (r: ChromeDiscoveryResult)
    ensures
        r.installed_path == installed_path,
        r.running_processes == running_processes,
        r.endpoint == endpoint,
        consistent(r),
{
    let state = if endpoint.is_some() {
        ChromeState::EndpointAvailable
    } else if running_processes.len() > 0 {
        ChromeState::EndpointUnavailable
    } else if installed_path.is_some() {
        ChromeState::Installed
    } else {
        ChromeState::NotInstalled
    };
    let remediation = if endpoint.is_some() {
        None
    } else {
        Some(endpoint_help(state))
    };
    ChromeDiscoveryResult { state, installed_path, running_processes, endpoint, remediation }
}

/// Are the ports strictly ascending?
pub open spec fn ascending_ports(ports: Seq<u16>) -> bool {
    forall|i: int, j: int| 0 <= i < j < ports.len() ==> #[trigger] ports[i] < #[trigger] ports[j]
}

/// Does `sorted` hold each port of `ports` once, in ascending order?
pub open spec fn sorts_ports(sorted: Seq<u16>, ports: Seq<u16>) -> bool {
    &&& ascending_ports(sorted)
    &&& forall|p: u16| #[trigger] sorted.contains(p) <==> ports.contains(p)
}

/// Each port once, in ascending order.
pub fn sorted_ports(ports: &Vec<u16>) -> (r: Vec<u16>)
    ensures
        sorts_ports(r@, ports@),
{
    let mut out: Vec<u16> = Vec::new();
    let mut i: usize = 0;
    while i < ports.len()
        invariant
            i <= ports@.len(),
            ascending_ports(out@),
            forall|p: u16| #[trigger] out@.contains(p) <==> ports@.take(i as int).contains(p),
        decreases ports@.len() - i,
    {
        let port: u16 = ports[i];
        let ghost before = out@;
        let ghost seen = ports@.take(i as int);
        let ghost now = ports@.take(i + 1);
        let mut at: usize = 0;
        while at < out.len() && out[at] < port
            invariant
                out@ == before,
                at <= before.len(),
                forall|k: int| 0 <= k < at ==> #[trigger] before[k] < port,
            decreases before.len() - at,
        {
            at = at + 1;
        }
        assert(now =~= seen.push(port));
        if at < out.len() && out[at] == port {
            assert(before.contains(port)) by {
                assert(before[at as int] == port);
            }
            assert forall|p: u16| #[trigger] out@.contains(p) <==> now.contains(p) by {
                if now.contains(p) && !seen.contains(p) {
                    let k = choose|k: int| 0 <= k < now.len() && now[k] == p;
                    if k < seen.len() {
                        assert(seen[k] == p);
                    }
                }
                if seen.contains(p) {
                    let k = choose|k: int| 0 <= k < seen.len() && seen[k] == p;
                    assert(now[k] == p);
                }
            }
        } else {
            out.insert(at, port);
            proof {
                assert(out@ == before.insert(at as int, port));
                assert forall|a: int, b: int| 0 <= a < b < out@.len() implies #[trigger] out@[a]
                    < #[trigger] out@[b] by {
                    if a < at {
                        assert(out@[a] == before[a]);
                    } else if a > at {
                        assert(out@[a] == before[a - 1]);
                    }
                    if b < at {
                        assert(out@[b] == before[b]);
                    } else if b > at {
                        assert(out@[b] == before[b - 1]);
                        if a == at && b - 1 > at {
                            assert(before[at as int] < before[b - 1]);
                        }
                    }
                }
                assert forall|p: u16| #[trigger] out@.contains(p) <==> now.contains(p) by {
                    assert(out@[at as int] == port);
                    assert(now[i as int] == port);
                    if before.contains(p) {
                        let k = choose|k: int| 0 <= k < before.len() && before[k] == p;
                        if k < at {
                            assert(out@[k] == p);
                        } else {
                            assert(out@[k + 1] == p);
                        }
                        let m = choose|m: int| 0 <= m < seen.len() && seen[m] == p;
                        assert(now[m] == p);
                    }
                    if out@.contains(p) && p != port {
                        let k = choose|k: int| 0 <= k < out@.len() && out@[k] == p;
                        if k < at {
                            assert(before[k] == p);
                        } else {
                            assert(before[k - 1] == p);
                        }
                    }
                    if now.contains(p) && p != port {
                        let k = choose|k: int| 0 <= k < now.len() && now[k] == p;
                        assert(seen[k] == p);
                    }
                }
            }
        }
        i = i + 1;
    }
    assert(ports@.take(ports@.len() as int) == ports@);
    out
}

/// Is `plan` the ports to try, in order: the candidates each once and in
/// ascending order, then the fallback port where there is one and it is no
/// candidate?
pub open spec fn is_probe_plan(plan: Seq<u16>, ports: Seq<u16>, fallback: u16) -> bool {
    let n = if fallback > 0 && !ports.contains(fallback) {
        plan.len() - 1
    } else {
        plan.len() as int
    };
    &&& 0 <= n
    &&& sorts_ports(plan.take(n), ports)
    &&& n < plan.len() ==> plan.last() == fallback
}

/// The ports to try, in order.
pub fn plan_probes(ports: &Vec<u16>, fallback: u16) -> (r: Vec<u16>)
    ensures
        is_probe_plan(r@, ports@, fallback),
{
    let mut plan = sorted_ports(ports);
    let ghost sorted = plan@;
    let mut known = false;
    let mut i: usize = 0;
    while i < ports.len()
        invariant
            i <= ports@.len(),
            known == ports@.take(i as int).contains(fallback),
        decreases ports@.len() - i,
    {
        let ghost seen = ports@.take(i as int);
        let ghost now = ports@.take(i + 1);
        if ports[i] == fallback {
            known = true;
            assert(now[i as int] == fallback);
        } else {
            assert(now.contains(fallback) == seen.contains(fallback)) by {
                if now.contains(fallback) {
                    let k = choose|k: int| 0 <= k < now.len() && now[k] == fallback;
                    assert(seen[k] == fallback);
                }
                if seen.contains(fallback) {
                    let k = choose|k: int| 0 <= k < seen.len() && seen[k] == fallback;
                    assert(now[k] == fallback);
                }
            }
        }
        proof {
            if seen.contains(fallback) {
                let k = choose|k: int| 0 <= k < seen.len() && seen[k] == fallback;
                assert(now[k] == fallback);
            }
        }
        i = i + 1;
    }
    assert(ports@.take(ports@.len() as int) == ports@);
    if fallback > 0 && !known {
        plan.push(fallback);
        assert(plan@.take(plan@.len() - 1) == sorted);
    } else {
        assert(plan@.take(plan@.len() as int) == sorted);
    }
    plan
}

/// No port is tried twice in one pass, and none that nobody named.
pub proof fn law_no_port_is_tried_twice(plan: Seq<u16>, ports: Seq<u16>, fallback: u16)
    requires
        is_probe_plan(plan, ports, fallback),
    ensures
        forall|i: int, j: int| 0 <= i < j < plan.len() ==> #[trigger] plan[i] != #[trigger] plan[j],
        forall|i: int|
            0 <= i < plan.len() ==> ports.contains(#[trigger] plan[i]) || (plan[i] == fallback
                && fallback > 0),
{
    let n = if fallback > 0 && !ports.contains(fallback) {
        plan.len() - 1
    } else {
        plan.len() as int
    };
    let head = plan.take(n);
    assert forall|i: int| 0 <= i < n implies ports.contains(#[trigger] plan[i]) by {
        assert(head[i] == plan[i]);
        assert(head.contains(plan[i]));
    }
    assert forall|i: int, j: int| 0 <= i < j < plan.len() implies #[trigger] plan[i]
        != #[trigger] plan[j] by {
        if j < n {
            assert(head[i] < head[j]);
        }
    }
}

/// How long a pass may take, in milliseconds.
pub open spec fn budget_of(config: ChromeConfig) -> u64 {
    if config.discovery_timeout_ms < MIN_DISCOVERY_MS {
        MIN_DISCOVERY_MS
    } else {
        config.discovery_timeout_ms
    }
}

/// How long a pass may take, in milliseconds.
pub fn discovery_budget(config: &ChromeConfig) -> (r: u64)
    ensures
        r == budget_of(*config),
{
    if config.discovery_timeout_ms < MIN_DISCOVERY_MS {
        MIN_DISCOVERY_MS
    } else {
        config.discovery_timeout_ms
    }
}

/// The budget of a probe, `elapsed_ms` into a pass: what is left, or none
/// where too little is left.
pub fn probe_budget(total_ms: u64, elapsed_ms: u64) -> (r: Option<u64>)
    ensures
        r == (if total_ms >= elapsed_ms && total_ms - elapsed_ms >= MIN_PROBE_BUDGET_MS {
            Some((total_ms - elapsed_ms) as u64)
        } else {
            None
        }),
{
    if total_ms >= elapsed_ms && total_ms - elapsed_ms >= MIN_PROBE_BUDGET_MS {
        Some(total_ms - elapsed_ms)
    } else {
        None
    }
}

/// How a port's turn in a pass went.
#[derive(Debug)]
pub enum ProbeTurn {
    /// It was probed with this budget, in milliseconds, and this came back.
    Probed { budget_ms: u64, found: Option<ChromeEndpoint> },
    /// Too little of the pass was left to probe it.
    NoTime,
}

/// Did the clock, read since a moment that it gave, leave too little of a pass
/// to probe another port?
pub closed spec fn ran_out(total_ms: u64) -> bool {
    exists|began: std::time::Instant, elapsed_ms: u64|
        call_ensures(clock_now, (), began) && #[trigger] call_ensures(
            clock_elapsed_ms,
            (&began,),
            elapsed_ms,
        ) && total_ms - elapsed_ms < MIN_PROBE_BUDGET_MS
}

/// A pass that has begun.
pub struct PassClock {
    total_ms: u64,
    /// No probe gets more than the one before it.
    most_ms: u64,
    began: std::time::Instant,
}

impl PassClock {
    /// How long the pass may take, in milliseconds.
    pub closed spec fn total(&self) -> u64 {
        self.total_ms
    }

    /// The most that the next probe may take, in milliseconds.
    pub closed spec fn most(&self) -> u64 {
        self.most_ms
    }

    #[verifier::type_invariant]
    spec fn began_by_the_clock(self) -> bool {
        call_ensures(clock_now, (), self.began)
    }

    /// Begins a pass.
    pub fn start(total_ms: u64) -> (r: PassClock)
        ensures
            r.total() == total_ms,
            r.most() == total_ms,
    {
        PassClock { total_ms, most_ms: total_ms, began: clock_now() }
    }
}

/// Tries a port where enough of the pass is left, for what is left of it, and
/// no longer than the probe before.
pub fn probe_with_budget<I: DiscoveryIo>(clock: PassClock, port: u16, io: &I) -> (r: (
    PassClock,
    ProbeTurn,
))
    requires
        MIN_PROBE_BUDGET_MS <= clock.most() <= clock.total(),
    ensures
        r.0.total() == clock.total(),
        match r.1 {
            ProbeTurn::Probed { budget_ms, found } => {
                &&& MIN_PROBE_BUDGET_MS <= budget_ms <= clock.most()
                &&& r.0.most() == budget_ms
                &&& call_ensures(I::probe_endpoint, (io, port, budget_ms), found)
            },
            ProbeTurn::NoTime => r.0.most() == clock.most() && ran_out(clock.total()),
        },
{
    proof {
        use_type_invariant(&clock);
    }
    let PassClock { total_ms, most_ms, began } = clock;
    let elapsed_ms = clock_elapsed_ms(&began);
    match probe_budget(total_ms, elapsed_ms) {
        Some(left_ms) => {
            let budget_ms: u64 = if left_ms < most_ms {
                left_ms
            } else {
                most_ms
            };
            let found = io.probe_endpoint(port, budget_ms);
            (
                PassClock { total_ms, most_ms: budget_ms, began },
                ProbeTurn::Probed { budget_ms, found },
            )
        },
        None => (PassClock { total_ms, most_ms, began }, ProbeTurn::NoTime),
    }
}

/// Were the first ports of the plan probed, one after the other, with these
/// budgets? Each budget is at least the smallest and no larger than the one
/// before; the first endpoint that answers ends the probing, and is the one
/// found.
pub open spec fn probed_in_turn<I: DiscoveryIo>(
    io: &I,
    plan: Seq<u16>,
    budgets: Seq<u64>,
    total_ms: u64,
    found: Option<ChromeEndpoint>,
) -> bool {
    &&& budgets.len() <= plan.len()
    &&& found is Some ==> budgets.len() > 0
    &&& forall|k: int|
        0 <= k < budgets.len() ==> MIN_PROBE_BUDGET_MS <= #[trigger] budgets[k] <= total_ms
    &&& forall|j: int, k: int|
        0 <= j < k < budgets.len() ==> #[trigger] budgets[j] >= #[trigger] budgets[k]
    &&& forall|k: int|
        0 <= k < budgets.len() ==> call_ensures(
            I::probe_endpoint,
            (io, plan[k], #[trigger] budgets[k]),
            if k == budgets.len() - 1 {
                found
            } else {
                None
            },
        )
}

/// Probes the ports of a plan in turn until one answers; stops where the time
/// is up.
fn probe_ports<I: DiscoveryIo>(begun: PassClock, plan: &Vec<u16>, io: &I) -> (r: Option<
    ChromeEndpoint,
>)
    requires
        MIN_PROBE_BUDGET_MS <= begun.most() <= begun.total(),
    ensures
        exists|budgets: Seq<u64>| #[trigger]
            probed_in_turn(io, plan@, budgets, begun.total(), r) && (r is None ==> budgets.len()
                == plan@.len() || ran_out(begun.total())),
{
    let ghost total_ms = begun.total();
    let mut clock = begun;
    let ghost mut budgets: Seq<u64> = Seq::empty();
    let mut i: usize = 0;
    while i < plan.len()
        invariant
            i <= plan@.len(),
            budgets.len() == i,
            total_ms == begun.total(),
            clock.total() == total_ms,
            MIN_PROBE_BUDGET_MS <= clock.most() <= total_ms,
            forall|k: int| 0 <= k < i ==> #[trigger] budgets[k] >= clock.most(),
            probed_in_turn(io, plan@, budgets, total_ms, None),
        decreases plan@.len() - i,
    {
        let (next, turn) = probe_with_budget(clock, plan[i], io);
        clock = next;
        match turn {
            ProbeTurn::NoTime => {
                return None;
            },
            ProbeTurn::Probed { budget_ms, found } => {
                let ghost before = budgets;
                proof {
                    budgets = before.push(budget_ms);
                    assert forall|k: int| 0 <= k < budgets.len() implies call_ensures(
                        I::probe_endpoint,
                        (io, plan@[k], #[trigger] budgets[k]),
                        if k == budgets.len() - 1 {
                            found
                        } else {
                            None
                        },
                    ) by {
                        if k < before.len() {
                            assert(budgets[k] == before[k]);
                        }
                    }
                    assert(probed_in_turn(io, plan@, budgets, total_ms, found));
                }
                if found.is_some() {
                    return found;
                }
            },
        }
        i = i + 1;
    }
    None
}

/// A discovery pass. Where no browser runs, nothing is probed. Else the ports
/// of the plan are probed in turn until one answers, and all of them where none
/// does and the time lasts. State and advice of the result follow from what was
/// found.
pub fn discover_with<I: DiscoveryIo>(config: &ChromeConfig, io: &I) -> (r: Result<
    ChromeDiscoveryResult,
    WinkitError,
>)
    ensures
        r is Ok,
        consistent(r->Ok_0),
        call_ensures(I::installed_path, (io,), r->Ok_0.installed_path),
        call_ensures(I::running_processes, (io,), r->Ok_0.running_processes),
        r->Ok_0.running_processes@.len() == 0 ==> r->Ok_0.endpoint is None,
        r->Ok_0.running_processes@.len() > 0 ==> exists|
            ports: Vec<u16>,
            plan: Seq<u16>,
            budgets: Seq<u64>,
        |
            {
                &&& call_ensures(I::devtools_ports, (io, &r->Ok_0.running_processes), ports)
                &&& #[trigger] is_probe_plan(plan, ports@, config.fallback_port)
                &&& #[trigger] probed_in_turn(
                    io,
                    plan,
                    budgets,
                    budget_of(*config),
                    r->Ok_0.endpoint,
                )
                &&& r->Ok_0.endpoint is None ==> budgets.len() == plan.len() || ran_out(
                    budget_of(*config),
                )
            },
{
    let clock = PassClock::start(discovery_budget(config));
    let installed_path = io.installed_path();
    let running = io.running_processes();
    let mut endpoint: Option<ChromeEndpoint> = None;
    if running.len() > 0 {
        let ports = io.devtools_ports(&running);
        let plan = plan_probes(&ports, config.fallback_port);
        endpoint = probe_ports(clock, &plan, io);
    }
    Ok(conclude(installed_path, running, endpoint))
}

/// The value of a flag in a command line: of the first word that begins with
/// it, without the quotes around it.
pub open spec fn flag_value(tokens: Seq<Seq<char>>, flag: Seq<char>) -> Option<Seq<char>>
    decreases tokens.len(),
{
    if tokens.len() == 0 {
        None
    } else {
        match after_prefix(tokens[0], flag) {
            Some(v) => Some(without_trailing(without_leading(v, '"'), '"')),
            None => flag_value(tokens.drop_first(), flag),
        }
    }
}

/// The value of a flag in a command line.
pub fn cmdline_flag(cmdline: &str, flag: &str) -> (r: Option<String>)
    ensures
        opt_view(r) == flag_value(words_of(cmdline@), flag@),
{
    let tokens = words(cmdline);
    let ghost all = words_of(cmdline@);
    let mut i: usize = 0;
    assert(all.skip(0) == all);
    while i < tokens.len()
        invariant
            i <= tokens@.len(),
            all == words_of(cmdline@),
            views(tokens@) == all,
            flag_value(all, flag@) == flag_value(all.skip(i as int), flag@),
        decreases tokens@.len() - i,
    {
        assert(all[i as int] == tokens@[i as int]@);
        assert(all.skip(i as int)[0] == all[i as int]);
        assert(all.skip(i as int).drop_first() == all.skip(i + 1));
        match strip_prefix(&tokens[i], flag) {
            Some(v) => {
                assert(after_prefix(all.skip(i as int)[0], flag@) == Some(v@));
                return Some(drop_around(&v, '"'));
            },
            None => {},
        }
        i = i + 1;
    }
    None
}

/// The port that a process offers for inspection, by its command line.
pub open spec fn offered_port(p: ProcessInfo) -> Option<u16> {
    match p.command_line {
        None => None,
        Some(cl) => match flag_value(words_of(cl@), "--remote-debugging-port="@) {
            None => None,
            Some(v) => match parsed_uint(v, 65535) {
                Some(n) => Some(n as u16),
                None => None,
            },
        },
    }
}

/// The ports that processes offer, in order.
pub open spec fn offered_ports(processes: Seq<ProcessInfo>) -> Seq<u16>
    decreases processes.len(),
{
    if processes.len() == 0 {
        Seq::empty()
    } else {
        let before = offered_ports(processes.drop_last());
        match offered_port(processes.last()) {
            Some(p) => before.push(p),
            None => before,
        }
    }
}

/// The ports that processes offer by their command lines, in order.
pub fn ports_from_processes(processes: &Vec<ProcessInfo>) -> (r: Vec<u16>)
    ensures
        r@ == offered_ports(processes@),
{
    let mut out: Vec<u16> = Vec::new();
    let mut i: usize = 0;
    while i < processes.len()
        invariant
            i <= processes@.len(),
            out@ == offered_ports(processes@.take(i as int)),
        decreases processes@.len() - i,
    {
        assert(processes@.take(i + 1).drop_last() == processes@.take(i as int));
        match &processes[i].command_line {
            Some(cl) => {
                match cmdline_flag(cl, "--remote-debugging-port=") {
                    Some(v) => {
                        match parse_uint(&v, 65535) {
                            Some(n) => {
                                out.push(n as u16);
                            },
                            None => {},
                        }
                    },
                    None => {},
                }
            },
            None => {},
        }
        i = i + 1;
    }
    assert(processes@.take(processes@.len() as int) == processes@);
    out
}

/// The profile directories that processes name by their command lines, in
/// order.
pub open spec fn named_dirs(processes: Seq<ProcessInfo>) -> Seq<Seq<char>>
    decreases processes.len(),
{
    if processes.len() == 0 {
        Seq::empty()
    } else {
        let before = named_dirs(processes.drop_last());
        match processes.last().command_line {
            None => before,
            Some(cl) => match flag_value(words_of(cl@), "--user-data-dir="@) {
                Some(d) => before.push(d),
                None => before,
            },
        }
    }
}

/// The profile directories that processes name, in order; the first one that
/// exists is the one in use.
pub fn user_data_dirs(processes: &Vec<ProcessInfo>) -> (r: Vec<String>)
    ensures
        views(r@) == named_dirs(processes@),
{
    let mut out: Vec<String> = Vec::new();
    let mut i: usize = 0;
    assert(views(out@) =~= Seq::<Seq<char>>::empty());
    while i < processes.len()
        invariant
            i <= processes@.len(),
            views(out@) == named_dirs(processes@.take(i as int)),
        decreases processes@.len() - i,
    {
        assert(processes@.take(i + 1).drop_last() == processes@.take(i as int));
        let ghost before = views(out@);
        match &processes[i].command_line {
            Some(cl) => {
                match cmdline_flag(cl, "--user-data-dir=") {
                    Some(d) => {
                        out.push(d);
                        assert(views(out@) =~= before.push(d@));
                    },
                    None => {},
                }
            },
            None => {},
        }
        i = i + 1;
    }
    assert(processes@.take(processes@.len() as int) == processes@);
    out
}

/// What the file that a browser writes its port to says: the port on its first
/// line and a path on its second.
pub open spec fn active_port(text: Seq<char>) -> Option<(u16, Seq<char>)> {
    let lines = split_on(text, '\n');
    match parsed_uint(trimmed(lines[0]), 65535) {
        None => None,
        Some(n) => if n == 0 {
            None
        } else {
            Some(
                (
                    n as u16,
                    if lines.len() > 1 {
                        trimmed(lines[1])
                    } else {
                        trimmed(Seq::empty())
                    },
                ),
            )
        },
    }
}

/// What the file that a browser writes its port to says.
pub fn parse_active_port(text: &str) -> (r: Option<(u16, String)>)
    ensures
        match r {
            Some(p) => active_port(text@) == Some((p.0, p.1@)),
            None => active_port(text@) is None,
        },
{
    let lines = split(text, '\n');
    assert(views(lines@).len() > 0) by {
        crate::text::lemma_first_of(text@, seq!['\n'], 0);
    }
    assert(views(lines@)[0] == lines@[0]@);
    match parse_uint(&trim(&lines[0]), 65535) {
        None => None,
        Some(n) => {
            if n == 0 {
                return None;
            }
            let path = if lines.len() > 1 {
                assert(views(lines@)[1] == lines@[1]@);
                trim(&lines[1])
            } else {
                trim("")
            };
            proof {
                reveal_strlit("");
                assert(""@ =~= Seq::<char>::empty());
            }
            Some((n as u16, path))
        },
    }
}

/// Is `e` the endpoint that `body` describes?
pub open spec fn describes_endpoint(e: ChromeEndpoint, port: u16, body: JsonView) -> bool {
    &&& e.port == port
    &&& body.text_at("webSocketDebuggerUrl"@) == Some(e.browser_ws_url@)
    &&& e.browser_version@ == text_or(body, "Browser"@, "unknown"@)
    &&& e.protocol_version@ == text_or(body, "Protocol-Version"@, "unknown"@)
    &&& opt_view(e.user_agent) == body.text_at("User-Agent"@)
}

/// The endpoint that an answer describes, where it names its socket.
pub fn endpoint_of(port: u16, body: &Json) -> (r: Option<ChromeEndpoint>)
    ensures
        match r {
            Some(e) => describes_endpoint(e, port, body@),
            None => body@.text_at("webSocketDebuggerUrl"@) is None,
        },
{
    match body.text_at("webSocketDebuggerUrl") {
        None => None,
        Some(ws) => Some(
            ChromeEndpoint {
                port,
                browser_ws_url: ws,
                browser_version: member_text(body, "Browser", "unknown"),
                protocol_version: member_text(body, "Protocol-Version", "unknown"),
                user_agent: body.text_at("User-Agent"),
            },
        ),
    }
}

/// The endpoint that the answer to a version request describes.
pub fn endpoint_from_answer(port: u16, status: u16, body: &str) -> (r: Option<ChromeEndpoint>)
    ensures
        match r {
            Some(e) => status == 200 && (json_parse(body@) matches Ok(v) && describes_endpoint(
                e,
                port,
                v,
            )),
            None => status != 200 || (match json_parse(body@) {
                Ok(v) => v.text_at("webSocketDebuggerUrl"@) is None,
                Err(_) => true,
            }),
        },
{
    if status != 200 {
        return None;
    }
    match Json::parse(body) {
        Ok(v) => endpoint_of(port, &v),
        Err(_) => None,
    }
}

/// A result that is remembered for a while.
pub struct DiscoveryCache {
    /// When the result was found, in milliseconds of some clock, and the result.
    pub entry: Option<(u64, ChromeDiscoveryResult)>,
}

impl DiscoveryCache {
    /// Is there a result that is still good at `now_ms`?
    pub open spec fn is_fresh(&self, now_ms: u64) -> bool {
        match self.entry {
            Some(e) => now_ms < e.0 || now_ms - e.0 < DISCOVERY_TTL_MS,
            None => false,
        }
    }

    /// A cache without a result.
    pub fn new() -> (r: Self)
        ensures
            r.entry is None,
    {
        DiscoveryCache { entry: None }
    }

    /// The result, where it is still good.
    pub fn get(&self, now_ms: u64) -> (r: Option<&ChromeDiscoveryResult>)
        ensures
            match r {
                Some(x) => self.is_fresh(now_ms) && *x == (self.entry->0).1,
                None => !self.is_fresh(now_ms),
            },
    {
        match &self.entry {
            Some(e) => {
                if now_ms < e.0 || now_ms - e.0 < DISCOVERY_TTL_MS {
                    Some(&e.1)
                } else {
                    None
                }
            },
            None => None,
        }
    }

    /// Remembers a result.
    pub fn put(&mut self, now_ms: u64, result: ChromeDiscoveryResult)
        ensures
            final(self).entry == Some((now_ms, result)),
            final(self).is_fresh(now_ms),
    {
        self.entry = Some((now_ms, result));
    }

    /// Forgets the result, so that the next pass looks again.
    pub fn invalidate(&mut self)
        ensures
            final(self).entry is None,
            forall|now_ms: u64| !#[trigger] final(self).is_fresh(now_ms),
    {
        self.entry = None;
    }
}

/// What a pass found says how far along the browser is: an endpoint counts before a
/// running browser, and that before an installed one. Advice is given exactly where
/// there is no endpoint.
pub proof fn law_state_follows_from_findings(
    installed_path: Option<String>,
    running: Vec<ProcessInfo>,
    endpoint: Option<ChromeEndpoint>,
    r: ChromeDiscoveryResult,
)
    requires
        call_ensures(conclude, (installed_path, running, endpoint), r),
    ensures
        r.endpoint == endpoint && r.running_processes == running && r.installed_path
            == installed_path,
        r.state == ChromeState::EndpointAvailable <==> endpoint is Some,
        r.state == ChromeState::EndpointUnavailable <==> endpoint is None && running@.len() > 0,
        r.state == ChromeState::Installed <==> endpoint is None && running@.len() == 0
            && installed_path is Some,
        r.state == ChromeState::NotInstalled <==> endpoint is None && running@.len() == 0
            && installed_path is None,
        r.remediation is Some <==> endpoint is None,
{
}

/// In general terms a browser is connected, inspectable, running, installed or none
/// of these, as it is.
pub proof fn law_states_in_general(state: ChromeState, r: ApplicationState)
    requires
        call_ensures(application_state, (state,), r),
    ensures
        r == ApplicationState::Connected <==> state == ChromeState::Connected,
        r == ApplicationState::RunningInspectable <==> state == ChromeState::EndpointAvailable,
        r == ApplicationState::RunningNotInspectable <==> state == ChromeState::Running || state
            == ChromeState::EndpointUnavailable,
        r == ApplicationState::InstalledNotRunning <==> state == ChromeState::Installed,
        r == ApplicationState::NotInstalled <==> state == ChromeState::NotInstalled,
{
}

/// The plan of a pass holds every port that the processes offer, in ascending order,
/// and behind them the fallback port, where there is one.
pub proof fn law_every_offered_port_is_planned(ports: Vec<u16>, fallback: u16, r: Vec<u16>)
    requires
        call_ensures(plan_probes, (&ports, fallback), r),
    ensures
        forall|k: int| 0 <= k < ports@.len() ==> r@.contains(#[trigger] ports@[k]),
        fallback > 0 ==> r@.contains(fallback),
        forall|i: int|
            0 <= i < r@.len() ==> ports@.contains(#[trigger] r@[i]) || (r@[i] == fallback
                && fallback > 0 && i == r@.len() - 1),
        forall|i: int, j: int|
            0 <= i < j < r@.len() && ports@.contains(r@[j]) ==> #[trigger] r@[i]
                < #[trigger] r@[j],
{
    let plan = r@;
    let extra = fallback > 0 && !ports@.contains(fallback);
    let n = if extra {
        plan.len() - 1
    } else {
        plan.len() as int
    };
    let head = plan.take(n);
    assert forall|p: u16| ports@.contains(p) implies plan.contains(p) by {
        assert(head.contains(p));
        let k = choose|k: int| 0 <= k < head.len() && head[k] == p;
        assert(plan[k] == p);
    }
    assert forall|k: int| 0 <= k < ports@.len() implies plan.contains(#[trigger] ports@[k]) by {
        assert(ports@.contains(ports@[k]));
    }
    if extra {
        assert(plan[plan.len() - 1] == fallback);
    }
    assert forall|i: int| 0 <= i < plan.len() implies ports@.contains(#[trigger] plan[i]) || (
    plan[i] == fallback && fallback > 0 && i == plan.len() - 1) by {
        if i < n {
            assert(head[i] == plan[i]);
            assert(head.contains(plan[i]));
        }
    }
    assert forall|i: int, j: int|
        0 <= i < j < plan.len() && ports@.contains(plan[j]) implies #[trigger] plan[i]
        < #[trigger] plan[j] by {
        assert(j < n);
        assert(head[i] < head[j]);
    }
}

/// A probe gets what is left of the pass, and is not started with fewer than 25
/// milliseconds; a pass has at least 50.
pub proof fn law_probes_get_what_is_left(
    config: ChromeConfig,
    total: u64,
    elapsed_ms: u64,
    r: Option<u64>,
)
    requires
        call_ensures(discovery_budget, (&config,), total),
        call_ensures(probe_budget, (total, elapsed_ms), r),
    ensures
        total >= 50 && total >= config.discovery_timeout_ms,
        total == 50 || total == config.discovery_timeout_ms,
        r is Some <==> elapsed_ms + 25 <= total,
        r matches Some(b) ==> b + elapsed_ms == total,
{
}

/// The value of a flag is that of the first word of the command line that begins
/// with it, without quotes around it; there is none only where no word begins with it.
pub proof fn law_first_flag_counts(cmdline: &str, flag: &str, r: Option<String>)
    requires
        call_ensures(cmdline_flag, (cmdline, flag), r),
    ensures
        r is None <==> forall|k: int|
            0 <= k < words_of(cmdline@).len() ==> !flag@.is_prefix_of(
                #[trigger] words_of(cmdline@)[k],
            ),
        r matches Some(v) ==> exists|k: int|
            {
                &&& 0 <= k < words_of(cmdline@).len()
                &&& is_flag_value(#[trigger] words_of(cmdline@)[k], flag@, v@)
                &&& forall|m: int|
                    0 <= m < k ==> !flag@.is_prefix_of(#[trigger] words_of(cmdline@)[m])
            },
{
    lemma_flag_value(words_of(cmdline@), flag@);
}

/// Is the word the flag and its value, with quotes around the value or not?
pub open spec fn is_flag_value(word: Seq<char>, flag: Seq<char>, value: Seq<char>) -> bool {
    &&& flag.is_prefix_of(word)
    &&& value.len() > 0 ==> value[0] != '"' && value.last() != '"'
    &&& exists|n: int|
        {
            &&& flag.len() <= n
            &&& n + value.len() <= word.len()
            &&& value == #[trigger] word.subrange(n, n + value.len())
            &&& forall|k: int| flag.len() <= k < n ==> #[trigger] word[k] == '"'
            &&& forall|k: int| n + value.len() <= k < word.len() ==> #[trigger] word[k] == '"'
        }
}

proof fn lemma_unquoted(word: Seq<char>, flag: Seq<char>)
    requires
        flag.is_prefix_of(word),
    ensures
        is_flag_value(
            word,
            flag,
            without_trailing(without_leading(word.skip(flag.len() as int), '"'), '"'),
        ),
{
    let v = word.skip(flag.len() as int);
    let lead = without_leading(v, '"');
    let value = without_trailing(lead, '"');
    let m = lemma_without_leading(v);
    lemma_without_trailing(lead);
    let n = flag.len() + m;
    assert forall|k: int| flag.len() <= k < n implies #[trigger] word[k] == '"' by {
        assert(v[k - flag.len()] == word[k]);
    }
    assert forall|k: int| n + value.len() <= k < word.len() implies #[trigger] word[k] == '"' by {
        assert(lead[k - n] == word[k]);
    }
    assert(value =~= word.subrange(n, n + value.len()));
}

proof fn lemma_without_leading(s: Seq<char>) -> (n: int)
    ensures
        0 <= n <= s.len(),
        without_leading(s, '"') == s.skip(n),
        forall|k: int| 0 <= k < n ==> #[trigger] s[k] == '"',
        n < s.len() ==> s[n] != '"',
    decreases s.len(),
{
    if s.len() > 0 && s[0] == '"' {
        let rest = s.drop_first();
        let m = lemma_without_leading(rest);
        assert(s.skip(m + 1) =~= rest.skip(m));
        assert forall|k: int| 0 <= k < m + 1 implies #[trigger] s[k] == '"' by {
            if k > 0 {
                assert(rest[k - 1] == s[k]);
            }
        }
        if m + 1 < s.len() {
            assert(rest[m] == s[m + 1]);
        }
        m + 1
    } else {
        assert(s.skip(0) =~= s);
        0
    }
}

proof fn lemma_without_trailing(s: Seq<char>)
    ensures
        without_trailing(s, '"').len() <= s.len(),
        without_trailing(s, '"') == s.take(without_trailing(s, '"').len() as int),
        forall|k: int| without_trailing(s, '"').len() <= k < s.len() ==> #[trigger] s[k] == '"',
        without_trailing(s, '"').len() > 0 ==> without_trailing(s, '"').last() != '"',
    decreases s.len(),
{
    if s.len() > 0 && s.last() == '"' {
        let rest = s.drop_last();
        lemma_without_trailing(rest);
        assert forall|k: int| without_trailing(s, '"').len() <= k < s.len() implies #[trigger] s[k]
            == '"' by {
            if k < rest.len() {
                assert(rest[k] == s[k]);
            }
        }
    } else {
        assert(s.take(s.len() as int) =~= s);
    }
}

proof fn lemma_flag_value(tokens: Seq<Seq<char>>, flag: Seq<char>)
    ensures
        flag_value(tokens, flag) is None <==> forall|k: int|
            0 <= k < tokens.len() ==> !flag.is_prefix_of(#[trigger] tokens[k]),
        flag_value(tokens, flag) matches Some(v) ==> exists|k: int|
            0 <= k < tokens.len() && is_flag_value(#[trigger] tokens[k], flag, v) && forall|m: int|
                0 <= m < k ==> !flag.is_prefix_of(#[trigger] tokens[m]),
    decreases tokens.len(),
{
    if tokens.len() > 0 {
        let rest = tokens.drop_first();
        lemma_flag_value(rest, flag);
        if flag.is_prefix_of(tokens[0]) {
            lemma_unquoted(tokens[0], flag);
            assert(is_flag_value(tokens[0], flag, flag_value(tokens, flag)->0));
        } else {
            assert forall|k: int| 0 <= k < rest.len() implies rest[k] == #[trigger] tokens[k + 1] by {}
            match flag_value(rest, flag) {
                Some(v) => {
                    let k = choose|k: int|
                        0 <= k < rest.len() && is_flag_value(#[trigger] rest[k], flag, v)
                            && forall|m: int|
                            0 <= m < k ==> !flag.is_prefix_of(#[trigger] rest[m]);
                    assert(tokens[k + 1] == rest[k]);
                    assert forall|m: int| 0 <= m < k + 1 implies !flag.is_prefix_of(
                        #[trigger] tokens[m],
                    ) by {
                        if m > 0 {
                            assert(rest[m - 1] == tokens[m]);
                        }
                    }
                },
                None => {
                    assert forall|k: int| 0 <= k < tokens.len() implies !flag.is_prefix_of(
                        #[trigger] tokens[k],
                    ) by {
                        if k > 0 {
                            assert(rest[k - 1] == tokens[k]);
                        }
                    }
                },
            }
        }
    }
}

/// A remembered result is good for ten seconds, and no longer.
pub proof fn law_results_are_good_for_ten_seconds(
    cache: DiscoveryCache,
    now_ms: u64,
    r: Option<&ChromeDiscoveryResult>,
)
    requires
        call_ensures(DiscoveryCache::get, (&cache, now_ms), r),
    ensures
        r is Some <==> cache.entry is Some && now_ms < (cache.entry->0).0 + 10000,
        r matches Some(x) ==> *x == (cache.entry->0).1,
{
}

/// The ports that processes offer are those that their command lines name, each a
/// number up to 65535, one process after another; a process whose command line names
/// none offers none.
pub proof fn law_offered_ports_are_named(processes: Vec<ProcessInfo>, r: Vec<u16>)
    requires
        call_ensures(ports_from_processes, (&processes,), r),
    ensures
        r@ == processes@.filter_map(
            |p: ProcessInfo|
                if p.command_line is Some && flag_value(
                    words_of(p.command_line->0@),
                    "--remote-debugging-port="@,
                ) is Some && parsed_uint(
                    flag_value(words_of(p.command_line->0@), "--remote-debugging-port="@)->0,
                    65535,
                ) is Some {
                    Some(
                        parsed_uint(
                            flag_value(
                                words_of(p.command_line->0@),
                                "--remote-debugging-port="@,
                            )->0,
                            65535,
                        )->0 as u16,
                    )
                } else {
                    None
                },
        ),
{
    lemma_offered(
        processes@,
        |p: ProcessInfo|
            if p.command_line is Some && flag_value(
                words_of(p.command_line->0@),
                "--remote-debugging-port="@,
            ) is Some && parsed_uint(
                flag_value(words_of(p.command_line->0@), "--remote-debugging-port="@)->0,
                65535,
            ) is Some {
                Some(
                    parsed_uint(
                        flag_value(words_of(p.command_line->0@), "--remote-debugging-port="@)->0,
                        65535,
                    )->0 as u16,
                )
            } else {
                None
            },
    );
}

proof fn lemma_offered(processes: Seq<ProcessInfo>, named: spec_fn(ProcessInfo) -> Option<u16>)
    requires
        forall|p: ProcessInfo| #[trigger] named(p) == offered_port(p),
    ensures
        offered_ports(processes) == processes.filter_map(named),
    decreases processes.len(),
{
    if processes.len() > 0 {
        lemma_offered(processes.drop_last(), named);
        assert(offered_ports(processes) =~= processes.filter_map(named));
    }
}

/// A port file names its port on its first line and the path on its second; port
/// zero is none.
pub proof fn law_port_files_are_read(port: u16, path: Seq<char>, text: &str, r: Option<(u16, String)>)
    requires
        call_ensures(parse_active_port, (text,), r),
        text@ == crate::text::decimal(port as nat) + seq!['\n'] + path,
        !path.contains('\n'),
    ensures
        port > 0 ==> r is Some && (r->0).0 == port && (r->0).1@ == trimmed(path),
        port == 0 ==> r is None,
{
    let digits = crate::text::decimal(port as nat);
    crate::text::law_numbers_read_back(port as nat, 65535);
    lemma_digits_hold_no_space(port as nat);
    let nl = seq!['\n'];
    assert(nl[0] == '\n');
    crate::text::lemma_first_of(text@, nl, 0);
    let n = first_of(text@, nl, 0);
    if n < digits.len() {
        assert(text@[n] == digits[n]);
        assert(nl.contains(text@[n]));
    }
    assert(text@[digits.len() as int] == '\n');
    if n > digits.len() {
        assert(nl.contains(text@[digits.len() as int]));
    }
    assert(text@.take(n) =~= digits);
    assert(text@.skip(n + 1) =~= path);
    crate::text::lemma_first_of(path, nl, 0);
    let m = first_of(path, nl, 0);
    if m < path.len() {
        assert(nl.contains(path[m]));
        assert(path[m] == '\n');
    }
    assert(split_on(path, '\n') =~= seq![path]);
    assert(split_on(text@, '\n') =~= seq![digits] + seq![path]);
    lemma_trim_nothing(digits);
}

proof fn lemma_digits_hold_no_space(n: nat)
    ensures
        crate::text::decimal(n).len() > 0,
        forall|k: int|
            0 <= k < crate::text::decimal(n).len() ==> '0' <= #[trigger] crate::text::decimal(n)[k]
                <= '9',
    decreases n,
{
    if n < 10 {
        assert(((48 + n) as char) as int == 48 + n);
    } else {
        lemma_digits_hold_no_space(n / 10);
        assert(((48 + n % 10) as char) as int == 48 + n % 10);
        let d = crate::text::decimal(n);
        let before = crate::text::decimal(n / 10);
        assert forall|k: int| 0 <= k < d.len() implies '0' <= #[trigger] d[k] <= '9' by {
            if k < before.len() {
                assert(d[k] == before[k]);
            }
        }
    }
}

proof fn lemma_trim_nothing(s: Seq<char>)
    requires
        forall|k: int| 0 <= k < s.len() ==> '0' <= #[trigger] s[k] <= '9',
        s.len() > 0,
    ensures
        trimmed(s) == s,
{
    assert('0' <= s[0] <= '9');
    assert('0' <= s[s.len() - 1] <= '9');
}

/// Ports are sorted from the lowest to the highest, each once, and none is lost or
/// added.
pub proof fn law_ports_are_sorted(ports: Vec<u16>, r: Vec<u16>)
    requires
        call_ensures(sorted_ports, (&ports,), r),
    ensures
        forall|i: int, j: int| 0 <= i < j < r@.len() ==> #[trigger] r@[i] < #[trigger] r@[j],
        forall|p: u16| #[trigger] r@.contains(p) <==> ports@.contains(p),
{
}

/// An endpoint is read from an answer that is in order, is a value, and names its
/// socket; what else it says of the browser is taken over by its name.
pub proof fn law_endpoints_are_read(port: u16, status: u16, body: &str, r: Option<ChromeEndpoint>)
    requires
        call_ensures(endpoint_from_answer, (port, status, body), r),
    ensures
        r is Some <==> status == 200 && json_parse(body@) is Ok && json_parse(
            body@,
        )->Ok_0.text_at("webSocketDebuggerUrl"@) is Some,
        r matches Some(e) ==> {
            let v = json_parse(body@)->Ok_0;
            &&& e.port == port
            &&& Some(e.browser_ws_url@) == v.text_at("webSocketDebuggerUrl"@)
            &&& v.text_at("Browser"@) is Some ==> e.browser_version@ == v.text_at("Browser"@)->0
            &&& v.text_at("Browser"@) is None ==> e.browser_version@ == "unknown"@
            &&& v.text_at("Protocol-Version"@) is Some ==> e.protocol_version@ == v.text_at(
                "Protocol-Version"@,
            )->0
            &&& v.text_at("Protocol-Version"@) is None ==> e.protocol_version@ == "unknown"@
            &&& opt_view(e.user_agent) == v.text_at("User-Agent"@)
        },
{
}

/// Each process that names a profile directory adds it behind those of the processes
/// before it; one that names none adds nothing.
pub proof fn law_profile_directories_are_named(processes: Seq<ProcessInfo>, p: ProcessInfo)
    ensures
        p.command_line is None ==> named_dirs(processes.push(p)) == named_dirs(processes),
        p.command_line matches Some(cl) ==> match flag_value(
            words_of(cl@),
            "--user-data-dir="@,
        ) {
            Some(d) => named_dirs(processes.push(p)) == named_dirs(processes).push(d),
            None => named_dirs(processes.push(p)) == named_dirs(processes),
        },
        named_dirs(Seq::empty()) == Seq::<Seq<char>>::empty(),
{
    assert(processes.push(p).drop_last() =~= processes);
}

/// Without an endpoint the error says what the browser is found as, and what to do.
pub proof fn law_missing_endpoints_are_explained(state: ChromeState, r: WinkitError)
    requires
        call_ensures(no_endpoint_error, (state,), r),
    ensures
        r.kind == ErrorKind::ApplicationUnavailable,
        state.description().is_prefix_of(r.message@),
        help_text(state).is_suffix_of(r.message@),
{
    let m = r.message@;
    let d = state.description();
    let h = help_text(state);
    assert(m.subrange(0, d.len() as int) =~= d);
    assert(m.subrange(m.len() - h.len(), m.len() as int) =~= h);
}

/// An endpoint that is found is what a probe of a port gave: of one that the running
/// browsers listen on, or of the port to fall back on, and within the time. No port is
/// probed where no browser runs.
pub proof fn law_endpoints_come_from_probes<I: DiscoveryIo>(
    config: ChromeConfig,
    io: I,
    r: Result<ChromeDiscoveryResult, WinkitError>,
)
    requires
        call_ensures(discover_with::<I>, (&config, &io), r),
    ensures
        r is Ok,
        r->Ok_0.endpoint is Some ==> r->Ok_0.running_processes@.len() > 0,
        r->Ok_0.endpoint is Some ==> exists|ports: Vec<u16>, port: u16, ms: u64|
            {
                &&& #[trigger] call_ensures(
                    I::devtools_ports,
                    (&io, &r->Ok_0.running_processes),
                    ports,
                )
                &&& #[trigger] call_ensures(
                    I::probe_endpoint,
                    (&io, port, ms),
                    r->Ok_0.endpoint,
                )
                &&& ports@.contains(port) || port == config.fallback_port
                &&& 25 <= ms
                &&& config.discovery_timeout_ms >= 50 ==> ms <= config.discovery_timeout_ms
            },
{
    if r->Ok_0.endpoint is Some {
        let found = r->Ok_0.endpoint;
        let (ports, plan, budgets) = choose|ports: Vec<u16>, plan: Seq<u16>, budgets: Seq<u64>|
            {
                &&& call_ensures(I::devtools_ports, (&io, &r->Ok_0.running_processes), ports)
                &&& #[trigger] is_probe_plan(plan, ports@, config.fallback_port)
                &&& #[trigger] probed_in_turn(&io, plan, budgets, budget_of(config), found)
                &&& found is None ==> budgets.len() == plan.len() || ran_out(budget_of(config))
            };
        let k = budgets.len() - 1;
        assert(call_ensures(I::probe_endpoint, (&io, plan[k], budgets[k]), found));
        law_no_port_is_tried_twice(plan, ports@, config.fallback_port);
        assert(call_ensures(I::devtools_ports, (&io, &r->Ok_0.running_processes), ports));
    }
}

} // verus!
