//! Managed sessions: browsers that this library started, owns and cleans up.

use crate::chrome::attempt::{is_retryable, retryable, AttemptAction};
use crate::chrome::diag::{first_gpu_code, gpu_exit_code_from_diag};
use crate::chrome::launch::LaunchMode;
use crate::chrome::paths::{file_name_of, last_segment, PathStyle};
use crate::errors::{err_view, ErrorKind, ErrorView, WinkitError};
use crate::models::ChromeEndpoint;
use crate::order::{
    key_less, key_lt, key_of_text, lemma_key_irreflexive, lemma_key_total, lemma_key_transitive,
    lemma_text_key_injective, text_key,
};
use crate::text::{
    clipped, concat2, concat3, decimal, decimal_text, join, joined, opt_view, same, signed_decimal,
    signed_decimal_text, split_on, trim, trimmed, truncate, views,
};
use vstd::prelude::*;
use vstd::string::*;

verus! {

/// How long a browser may take to go away after it was asked to, in
/// milliseconds.
pub const STOP_GRACE_MS: u64 = 5000;

/// The shortest time that a start waits, in milliseconds.
pub const MIN_STARTUP_WAIT_MS: u64 = 250;

/// The state of a managed session.
#[derive(Debug, Clone, Copy, PartialEq, Eq, Structural)]
pub enum ManagedState {
    /// The feature is switched off.
    Disabled,
    /// Launched; not yet confirmed.
    Starting,
    /// Ready for inspection.
    Ready,
    /// The endpoint did not come up in time.
    EndpointUnavailable,
    /// The browser went away by itself.
    BrowserExited,
    /// Being stopped.
    Stopping,
    /// Stopped and cleaned up.
    Closed,
    /// Stopped, but its profile is still there.
    CleanupFailed,
}

impl ManagedState {
    /// The state in words.
    pub open spec fn description(self) -> Seq<char> {
        match self {
            ManagedState::Disabled => "managed Chrome is disabled in configuration"@,
            ManagedState::Starting => "browser is starting"@,
            ManagedState::Ready => "ready"@,
            ManagedState::EndpointUnavailable => "DevTools endpoint is unavailable"@,
            ManagedState::BrowserExited => "the browser exited unexpectedly"@,
            ManagedState::Stopping => "stopping"@,
            ManagedState::Closed => "closed and cleaned up"@,
            ManagedState::CleanupFailed => "closed but profile cleanup failed"@,
        }
    }

    /// The state in words.
    pub fn describe(self) -> (r: &'static str)
        ensures
            r@ == self.description(),
    {
        match self {
            ManagedState::Disabled => "managed Chrome is disabled in configuration",
            ManagedState::Starting => "browser is starting",
            ManagedState::Ready => "ready",
            ManagedState::EndpointUnavailable => "DevTools endpoint is unavailable",
            ManagedState::BrowserExited => "the browser exited unexpectedly",
            ManagedState::Stopping => "stopping",
            ManagedState::Closed => "closed and cleaned up",
            ManagedState::CleanupFailed => "closed but profile cleanup failed",
        }
    }

    /// Does a session in this state count against the session limit?
    pub open spec fn is_active(self) -> bool {
        self == ManagedState::Starting || self == ManagedState::Ready || self
            == ManagedState::EndpointUnavailable || self == ManagedState::Stopping
    }

    /// Is a session in this state already being stopped, or stopped?
    pub open spec fn is_winding_down(self) -> bool {
        self == ManagedState::Stopping || self == ManagedState::Closed || self
            == ManagedState::CleanupFailed
    }

    /// Does a session in this state count against the session limit?
    pub fn active(self) -> (r: bool)
        ensures
            r == self.is_active(),
    {
        match self {
            ManagedState::Starting | ManagedState::Ready | ManagedState::EndpointUnavailable
            | ManagedState::Stopping => true,
            _ => false,
        }
    }

    /// Is a session in this state already being stopped, or stopped?
    pub fn winding_down(self) -> (r: bool)
        ensures
            r == self.is_winding_down(),
    {
        match self {
            ManagedState::Stopping | ManagedState::Closed | ManagedState::CleanupFailed => true,
            _ => false,
        }
    }
}

/// A handle to a browser process that this library launched.
pub trait ManagedChild {
    /// Has the process exited?
    fn try_wait(&mut self) -> bool;

    /// The exit code, once the process has exited.
    fn exit_code(&mut self) -> Option<i32>;

    /// Ends the process.
    fn kill(&mut self);

    /// What the process wrote to its standard error, bounded and cleaned.
    fn diagnostics(&self) -> Option<String> {
        None
    }
}

/// What is known of a browser process at one moment.
pub struct ChildReport {
    pub exit_code: Option<i32>,
    pub diagnostics: Option<String>,
}

/// One managed session.
pub struct ManagedSession {
    pub session_id: String,
    pub profile_dir: String,
    pub managed_root: String,
    /// What system the two paths stand on.
    pub style: PathStyle,
    pub port: u16,
    pub state: ManagedState,
    pub endpoint: Option<ChromeEndpoint>,
    pub tab_target_id: Option<String>,
    pub started_at: String,
    pub initial_url: Option<String>,
    pub headless: bool,
    pub mode: LaunchMode,
    pub cleanup_error: Option<String>,
    pub exit_code: Option<i32>,
    pub gpu_exit_code: Option<String>,
    pub stderr_diagnostics: Option<String>,
    pub exit_cleanup_claimed: bool,
}

/// What never changes in the life of a session is the same in both.
pub open spec fn same_session(a: ManagedSession, b: ManagedSession) -> bool {
    &&& a.session_id == b.session_id
    &&& a.profile_dir == b.profile_dir
    &&& a.managed_root == b.managed_root
    &&& a.style == b.style
    &&& a.port == b.port
    &&& a.started_at == b.started_at
    &&& a.initial_url == b.initial_url
    &&& a.headless == b.headless
    &&& a.mode == b.mode
}

/// The evidence of how a browser ended is the same in both.
pub open spec fn same_evidence(a: ManagedSession, b: ManagedSession) -> bool {
    &&& a.exit_code == b.exit_code
    &&& a.gpu_exit_code == b.gpu_exit_code
    &&& a.stderr_diagnostics == b.stderr_diagnostics
}

/// What a session talks to is the same in both.
pub open spec fn same_link(a: ManagedSession, b: ManagedSession) -> bool {
    &&& a.endpoint == b.endpoint
    &&& a.tab_target_id == b.tab_target_id
}

/// Why a session in `state` cannot be used, or `None` where it can.
pub open spec fn unready(state: ManagedState) -> Option<ErrorView> {
    match state {
        ManagedState::Ready => None,
        ManagedState::Starting => Some(
            err_view(ErrorKind::EndpointUnavailable, "the managed session is still starting"@),
        ),
        ManagedState::EndpointUnavailable => Some(
            err_view(
                ErrorKind::EndpointUnavailable,
                "the managed session's DevTools endpoint is unavailable"@,
            ),
        ),
        ManagedState::BrowserExited => Some(
            err_view(
                ErrorKind::BrowserExited,
                "the managed browser exited; start a new session"@,
            ),
        ),
        ManagedState::Stopping | ManagedState::Closed => Some(
            err_view(ErrorKind::NotFound, "the managed session is closed"@),
        ),
        ManagedState::CleanupFailed => Some(
            err_view(
                ErrorKind::CleanupFailure,
                "the managed session closed but its profile cleanup failed"@,
            ),
        ),
        ManagedState::Disabled => Some(
            err_view(
                ErrorKind::FeatureDisabled,
                "managed Chrome is disabled in configuration"@,
            ),
        ),
    }
}

/// Does a text hold more than white space?
pub open spec fn has_words(s: Seq<char>) -> bool {
    trimmed(s).len() > 0
}

fn says_something(s: &str) -> (r: bool)
    ensures
        r == has_words(s@),
{
    !trim(s).as_str().is_empty()
}

impl ManagedSession {
    /// A session that was just launched.
    pub fn new(
        session_id: String,
        profile_dir: String,
        managed_root: String,
        style: PathStyle,
        port: u16,
        headless: bool,
        initial_url: Option<String>,
        mode: LaunchMode,
        started_at: String,
    ) -> (r: Self)
        ensures
            r.session_id == session_id,
            r.profile_dir == profile_dir,
            r.managed_root == managed_root,
            r.style == style,
            r.port == port,
            r.headless == headless,
            r.initial_url == initial_url,
            r.mode == mode,
            r.started_at == started_at,
            r.state == ManagedState::Starting,
            r.endpoint is None,
            r.tab_target_id is None,
            r.cleanup_error is None,
            r.exit_code is None,
            r.gpu_exit_code is None,
            r.stderr_diagnostics is None,
            !r.exit_cleanup_claimed,
    {
        ManagedSession {
            session_id,
            profile_dir,
            managed_root,
            style,
            port,
            state: ManagedState::Starting,
            endpoint: None,
            tab_target_id: None,
            started_at,
            initial_url,
            headless,
            mode,
            cleanup_error: None,
            exit_code: None,
            gpu_exit_code: None,
            stderr_diagnostics: None,
            exit_cleanup_claimed: false,
        }
    }

    /// Records what is known of the process: the exit code always, the GPU
    /// exit code where the diagnostics report one, the diagnostics where they
    /// say anything. What was recorded before and is not reported now stays.
    pub fn capture_exit(&mut self, report: ChildReport)
        ensures
            final(self).exit_code == report.exit_code,
            opt_view(final(self).gpu_exit_code) == (match report.diagnostics {
                Some(d) => match first_gpu_code(split_on(d@, '\n')) {
                    Some(code) => Some(code),
                    None => opt_view(old(self).gpu_exit_code),
                },
                None => opt_view(old(self).gpu_exit_code),
            }),
            final(self).stderr_diagnostics == (match report.diagnostics {
                Some(d) => if has_words(d@) {
                    Some(d)
                } else {
                    old(self).stderr_diagnostics
                },
                None => old(self).stderr_diagnostics,
            }),
            same_session(*final(self), *old(self)),
            same_link(*final(self), *old(self)),
            final(self).state == old(self).state,
            final(self).cleanup_error == old(self).cleanup_error,
            final(self).exit_cleanup_claimed == old(self).exit_cleanup_claimed,
    {
        self.exit_code = report.exit_code;
        match report.diagnostics {
            Some(d) => {
                match gpu_exit_code_from_diag(&d) {
                    Some(code) => {
                        self.gpu_exit_code = Some(code);
                    },
                    None => {},
                }
                if says_something(&d) {
                    self.stderr_diagnostics = Some(d);
                }
            },
            None => {},
        }
    }

    /// Fails where the session is not ready, with the reason.
    pub fn ensure_ready(&self) -> (r: Result<(), WinkitError>)
        ensures
            match r {
                Ok(_) => unready(self.state) is None,
                Err(e) => unready(self.state) == Some(e@),
            },
            r is Ok <==> self.state == ManagedState::Ready,
    {
        match self.state {
            ManagedState::Ready => Ok(()),
            ManagedState::Starting => Err(
                WinkitError::endpoint_unavailable("the managed session is still starting"),
            ),
            ManagedState::EndpointUnavailable => Err(
                WinkitError::endpoint_unavailable(
                    "the managed session's DevTools endpoint is unavailable",
                ),
            ),
            ManagedState::BrowserExited => Err(
                WinkitError::browser_exited("the managed browser exited; start a new session"),
            ),
            ManagedState::Stopping | ManagedState::Closed => Err(
                WinkitError::not_found("the managed session is closed"),
            ),
            ManagedState::CleanupFailed => Err(
                WinkitError::cleanup_failure(
                    "the managed session closed but its profile cleanup failed",
                ),
            ),
            ManagedState::Disabled => Err(
                WinkitError::feature_disabled("managed Chrome is disabled in configuration"),
            ),
        }
    }

    /// The first endpoint that answers is the session's.
    pub fn note_endpoint(&mut self, endpoint: ChromeEndpoint)
        ensures
            final(self).endpoint == (match old(self).endpoint {
                Some(e) => Some(e),
                None => Some(endpoint),
            }),
            final(self).state == old(self).state,
            final(self).tab_target_id == old(self).tab_target_id,
            same_session(*final(self), *old(self)),
            same_evidence(*final(self), *old(self)),
            final(self).cleanup_error == old(self).cleanup_error,
            final(self).exit_cleanup_claimed == old(self).exit_cleanup_claimed,
    {
        if self.endpoint.is_none() {
            self.endpoint = Some(endpoint);
        }
    }

    /// The session is ready on a page.
    pub fn mark_ready(&mut self, tab_id: String)
        ensures
            final(self).state == ManagedState::Ready,
            final(self).tab_target_id == Some(tab_id),
            final(self).endpoint == old(self).endpoint,
            same_session(*final(self), *old(self)),
            same_evidence(*final(self), *old(self)),
            final(self).cleanup_error == old(self).cleanup_error,
            final(self).exit_cleanup_claimed == old(self).exit_cleanup_claimed,
    {
        self.tab_target_id = Some(tab_id);
        self.state = ManagedState::Ready;
    }

    /// Puts the session into a state.
    pub fn set_state(&mut self, state: ManagedState)
        ensures
            final(self).state == state,
            same_session(*final(self), *old(self)),
            same_link(*final(self), *old(self)),
            same_evidence(*final(self), *old(self)),
            final(self).cleanup_error == old(self).cleanup_error,
            final(self).exit_cleanup_claimed == old(self).exit_cleanup_claimed,
    {
        self.state = state;
    }

    /// Claims the cleanup after an unexpected exit. Only the first claim is
    /// granted.
    pub fn claim_exit_cleanup(&mut self) -> (granted: bool)
        ensures
            granted == !old(self).exit_cleanup_claimed,
            final(self).exit_cleanup_claimed,
            final(self).state == old(self).state,
            same_session(*final(self), *old(self)),
            same_link(*final(self), *old(self)),
            same_evidence(*final(self), *old(self)),
            final(self).cleanup_error == old(self).cleanup_error,
    {
        let granted = !self.exit_cleanup_claimed;
        self.exit_cleanup_claimed = true;
        granted
    }

    /// Records how the cleanup after an unexpected exit went. The state stays:
    /// that the browser went away is never forgotten.
    pub fn record_exit_cleanup(&mut self, outcome: Result<(), String>)
        ensures
            final(self).cleanup_error == (match outcome {
                Ok(_) => old(self).cleanup_error,
                Err(e) => Some(e),
            }),
            final(self).state == old(self).state,
            same_session(*final(self), *old(self)),
            same_link(*final(self), *old(self)),
            same_evidence(*final(self), *old(self)),
            final(self).exit_cleanup_claimed == old(self).exit_cleanup_claimed,
    {
        match outcome {
            Ok(_) => {},
            Err(e) => {
                self.cleanup_error = Some(e);
            },
        }
    }

    /// Ends a stop: `None` where the profile was to be kept, else how its
    /// removal went.
    pub fn finish_stop(&mut self, cleanup: Option<Result<(), String>>)
        ensures
            final(self).state == (match cleanup {
                Some(Err(_)) => ManagedState::CleanupFailed,
                _ => ManagedState::Closed,
            }),
            final(self).cleanup_error == (match cleanup {
                Some(Err(e)) => Some(e),
                _ => old(self).cleanup_error,
            }),
            same_session(*final(self), *old(self)),
            same_link(*final(self), *old(self)),
            same_evidence(*final(self), *old(self)),
            final(self).exit_cleanup_claimed == old(self).exit_cleanup_claimed,
    {
        match cleanup {
            Some(Err(e)) => {
                self.state = ManagedState::CleanupFailed;
                self.cleanup_error = Some(e);
            },
            _ => {
                self.state = ManagedState::Closed;
            },
        }
    }

    /// The last segment of the profile directory.
    pub fn profile_name(&self) -> (r: String)
        ensures
            r@ == last_segment(self.profile_dir@, self.style),
    {
        file_name_of(&self.profile_dir, self.style)
    }

    /// What a failed start reports of the browser's end.
    pub fn failure_evidence(&self) -> (r: String)
        ensures
            r@ == evidence(
                self.exit_code,
                opt_view(self.gpu_exit_code),
                opt_view(self.stderr_diagnostics),
            ),
    {
        let mut parts: Vec<String> = Vec::new();
        match self.exit_code {
            Some(c) => {
                parts.push(concat2("exit code ", &signed_decimal_text(c as i64)));
            },
            None => {
                parts.push("no exit code recorded (process still alive)".to_owned());
            },
        }
        assert(views(parts@) == code_part(self.exit_code));
        match &self.gpu_exit_code {
            Some(g) => {
                parts.push(concat2("GPU process exit code ", g));
            },
            None => {},
        }
        assert(views(parts@) == code_part(self.exit_code) + gpu_part(
            opt_view(self.gpu_exit_code),
        ));
        match &self.stderr_diagnostics {
            Some(t) => {
                if says_something(t) {
                    parts.push(concat2("last browser output: ", &truncate(t, 600)));
                }
            },
            None => {},
        }
        assert(views(parts@) == code_part(self.exit_code) + gpu_part(opt_view(self.gpu_exit_code))
            + tail_part(opt_view(self.stderr_diagnostics)));
        concat3(" (", &join(&parts, "; "), ")")
    }
}

/// The exit code in words.
pub open spec fn code_part(code: Option<i32>) -> Seq<Seq<char>> {
    match code {
        Some(c) => seq!["exit code "@ + signed_decimal(c as int)],
        None => seq!["no exit code recorded (process still alive)"@],
    }
}

/// The GPU exit code in words, where there is one.
pub open spec fn gpu_part(gpu: Option<Seq<char>>) -> Seq<Seq<char>> {
    match gpu {
        Some(g) => seq!["GPU process exit code "@ + g],
        None => seq![],
    }
}

/// The last output in words, where there is any.
pub open spec fn tail_part(tail: Option<Seq<char>>) -> Seq<Seq<char>> {
    match tail {
        Some(t) => if has_words(t) {
            seq!["last browser output: "@ + clipped(t, 600)]
        } else {
            seq![]
        },
        None => seq![],
    }
}

/// What a failed start reports of the browser's end.
pub open spec fn evidence(
    code: Option<i32>,
    gpu: Option<Seq<char>>,
    tail: Option<Seq<char>>,
) -> Seq<char> {
    " ("@ + joined(code_part(code) + gpu_part(gpu) + tail_part(tail), "; "@) + ")"@
}

/// The error of a start whose browser went away.
pub fn browser_exit_error(session: &ManagedSession) -> (r: WinkitError)
    ensures
        r@ == err_view(
            ErrorKind::BrowserExited,
            "managed Chrome exited during startup"@ + evidence(
                session.exit_code,
                opt_view(session.gpu_exit_code),
                opt_view(session.stderr_diagnostics),
            ),
        ),
{
    WinkitError::browser_exited(
        &concat2("managed Chrome exited during startup", &session.failure_evidence()),
    )
}

/// The error of a start that ran out of time.
pub fn startup_deadline_error(session: &ManagedSession, startup_timeout_ms: u64) -> (r: WinkitError)
    ensures
        r@ == err_view(
            ErrorKind::EndpointUnavailable,
            "managed Chrome did not expose a usable DevTools endpoint within "@ + decimal(
                startup_timeout_ms as nat,
            ) + " ms (mode: "@ + session.mode.label_view() + ")"@ + evidence(
                session.exit_code,
                opt_view(session.gpu_exit_code),
                opt_view(session.stderr_diagnostics),
            ),
        ),
{
    let mut m = concat3(
        "managed Chrome did not expose a usable DevTools endpoint within ",
        &decimal_text(startup_timeout_ms),
        " ms (mode: ",
    );
    m.append(session.mode.label());
    m.append(")");
    m.append(&session.failure_evidence());
    WinkitError::endpoint_unavailable(&m)
}

/// The error of a start whose endpoint is not on this machine.
pub fn not_loopback_error() -> (r: WinkitError)
    ensures
        r@ == err_view(
            ErrorKind::ProtocolError,
            "the managed DevTools endpoint is not loopback-only; refusing to connect"@,
        ),
{
    WinkitError::protocol("the managed DevTools endpoint is not loopback-only; refusing to connect")
}

/// What the watcher of a session does next.
#[derive(Debug, Clone, Copy, PartialEq, Eq, Structural)]
pub enum MonitorAction {
    /// Look again later.
    Keep,
    /// Stop watching: someone is stopping the session, or has.
    Leave,
    /// The browser went away by itself.
    HandleExit,
}

/// What the watcher of a session does, given the session's state and whether
/// its process has exited. A stop under way is never raced.
pub fn monitor_step(state: ManagedState, exited: bool) -> (r: MonitorAction)
    ensures
        r == (if state.is_winding_down() {
            MonitorAction::Leave
        } else if exited {
            MonitorAction::HandleExit
        } else {
            MonitorAction::Keep
        }),
{
    if state.winding_down() {
        MonitorAction::Leave
    } else if exited {
        MonitorAction::HandleExit
    } else {
        MonitorAction::Keep
    }
}

/// What a stop does next.
#[derive(Debug, Clone, Copy, PartialEq, Eq, Structural)]
pub enum StopAction {
    /// The process is gone: go on to the cleanup.
    CleanUp,
    /// The grace period is over: end the process and all that it started.
    Kill,
    /// Wait for this many milliseconds and look again.
    Wait { ms: u64 },
}

/// What a stop does, given whether the process has exited and how long ago the
/// stop began.
pub fn stop_step(exited: bool, elapsed_ms: u64) -> (r: StopAction)
    ensures
        r == (if exited {
            StopAction::CleanUp
        } else if elapsed_ms >= STOP_GRACE_MS {
            StopAction::Kill
        } else {
            StopAction::Wait { ms: 100 }
        }),
{
    if exited {
        StopAction::CleanUp
    } else if elapsed_ms >= STOP_GRACE_MS {
        StopAction::Kill
    } else {
        StopAction::Wait { ms: 100 }
    }
}

/// How many of the states count against the session limit.
pub open spec fn active_count(states: Seq<ManagedState>) -> nat
    decreases states.len(),
{
    if states.len() == 0 {
        0
    } else {
        active_count(states.drop_last()) + (if states.last().is_active() {
            1nat
        } else {
            0
        })
    }
}

/// Why a session may not be started, or `None` where it may.
pub open spec fn start_refusal(
    enabled: bool,
    installed: bool,
    active: nat,
    max_sessions: usize,
) -> Option<ErrorView> {
    if !enabled {
        Some(
            err_view(
                ErrorKind::FeatureDisabled,
                "managed Chrome is disabled: set [chrome.managed] enabled = true in configuration"@,
            ),
        )
    } else if !installed {
        Some(
            err_view(
                ErrorKind::ApplicationUnavailable,
                "Chrome is not installed; install Google Chrome to use managed browser sessions"@,
            ),
        )
    } else if active >= max_sessions {
        Some(
            err_view(
                ErrorKind::ConcurrencyLimit,
                "managed-session limit reached ("@ + decimal(max_sessions as nat)
                    + " active); stop a session before starting another"@,
            ),
        )
    } else {
        None
    }
}

fn count_active(states: &Vec<ManagedState>) -> (r: usize)
    ensures
        r == active_count(states@),
{
    let mut n: usize = 0;
    let mut i: usize = 0;
    while i < states.len()
        invariant
            i <= states@.len(),
            n <= i,
            n == active_count(states@.take(i as int)),
        decreases states@.len() - i,
    {
        assert(states@.take(i + 1).drop_last() == states@.take(i as int));
        if states[i].active() {
            n = n + 1;
        }
        i = i + 1;
    }
    assert(states@.take(states@.len() as int) == states@);
    n
}

/// May a session be started? Refuses where the feature is off, where no
/// browser is installed, and where the limit of active sessions is reached.
pub fn check_start(
    enabled: bool,
    installed: bool,
    states: &Vec<ManagedState>,
    max_sessions: usize,
) -> (r: Result<(), WinkitError>)
    ensures
        match r {
            Ok(_) => start_refusal(enabled, installed, active_count(states@), max_sessions) is None,
            Err(e) => start_refusal(enabled, installed, active_count(states@), max_sessions)
                == Some(e@),
        },
{
    if !enabled {
        return Err(
            WinkitError::feature_disabled(
                "managed Chrome is disabled: set [chrome.managed] enabled = true in configuration",
            ),
        );
    }
    if !installed {
        return Err(
            WinkitError::application_unavailable(
                "Chrome is not installed; install Google Chrome to use managed browser sessions",
            ),
        );
    }
    if count_active(states) >= max_sessions {
        return Err(
            WinkitError::concurrency_limit(
                &concat3(
                    "managed-session limit reached (",
                    &decimal_text(max_sessions as u64),
                    " active); stop a session before starting another",
                ),
            ),
        );
    }
    Ok(())
}

/// A start that is let through never takes the number of active sessions over
/// the limit.
pub proof fn law_session_limit_holds(
    states: Seq<ManagedState>,
    enabled: bool,
    installed: bool,
    max_sessions: usize,
)
    requires
        start_refusal(enabled, installed, active_count(states), max_sessions) is None,
    ensures
        active_count(states.push(ManagedState::Starting)) <= max_sessions,
{
    assert(states.push(ManagedState::Starting).drop_last() == states);
}

/// How long a start waits: what was asked for, at most the configured time,
/// and at least the shortest time.
pub open spec fn wait_for(requested: Option<u64>, startup_timeout_ms: u64) -> u64 {
    let asked = match requested {
        Some(ms) => if ms < startup_timeout_ms {
            ms
        } else {
            startup_timeout_ms
        },
        None => startup_timeout_ms,
    };
    if asked < MIN_STARTUP_WAIT_MS {
        MIN_STARTUP_WAIT_MS
    } else {
        asked
    }
}

/// How long a start waits, in milliseconds.
pub fn startup_wait(requested: Option<u64>, startup_timeout_ms: u64) -> (r: u64)
    ensures
        r == wait_for(requested, startup_timeout_ms),
{
    let asked: u64 = match requested {
        Some(ms) => if ms < startup_timeout_ms {
            ms
        } else {
            startup_timeout_ms
        },
        None => startup_timeout_ms,
    };
    if asked < MIN_STARTUP_WAIT_MS {
        MIN_STARTUP_WAIT_MS
    } else {
        asked
    }
}

/// The modes that a start tries, in this order.
pub open spec fn launch_plan(headless: bool) -> Seq<LaunchMode> {
    if headless {
        seq![LaunchMode::HeadlessSoftware, LaunchMode::HeadlessInProcessGpu]
    } else {
        seq![LaunchMode::HeadedDefault, LaunchMode::HeadedSoftware]
    }
}

/// A start never switches between headed and headless: every mode that it
/// tries is of the kind that was asked for.
pub proof fn law_plan_keeps_the_window_mode(headless: bool, i: int)
    requires
        0 <= i < launch_plan(headless).len(),
    ensures
        launch_plan(headless)[i].is_headed() == !headless,
{
}

/// A start under way: which modes failed, and how.
pub struct StartRun {
    pub headless: bool,
    /// How many modes were tried.
    pub tried: usize,
    pub errors: Vec<String>,
    pub last_kind: ErrorKind,
    pub saw_browser_exit: bool,
}

/// What a start does next.
pub enum StartAction {
    /// Try this mode within this many milliseconds.
    Try { mode: LaunchMode, budget_ms: u64 },
    /// Give up with this error.
    GiveUp { error: WinkitError },
}

/// The error of a start that has nothing left to try.
pub open spec fn start_failure(
    headless: bool,
    errors: Seq<Seq<char>>,
    last_kind: ErrorKind,
    saw_browser_exit: bool,
) -> ErrorView {
    let kind = if saw_browser_exit {
        ErrorKind::BrowserExited
    } else {
        last_kind
    };
    let message = if errors.len() == 0 {
        if headless {
            "headless managed Chrome failed to start"@
        } else {
            "managed Chrome (headed) failed to start"@
        }
    } else if headless {
        "headless managed Chrome is unavailable on this installation: "@ + joined(errors, "; "@)
            + "; use headed mode (headless = false) to open a visible Chrome window"@
    } else {
        "managed Chrome (headed) failed to start: "@ + joined(errors, "; "@)
            + "; no visible window was opened — check the GPU driver and antivirus, confirm the desktop is interactive, or retry with headless = true for a non-visible session"@
    };
    err_view(kind, message)
}

/// An action taken by its views.
pub enum StartActionView {
    Try { mode: LaunchMode, budget_ms: u64 },
    GiveUp { error: ErrorView },
}

impl View for StartAction {
    type V = StartActionView;

    open spec fn view(&self) -> StartActionView {
        match self {
            StartAction::Try { mode, budget_ms } => StartActionView::Try {
                mode: *mode,
                budget_ms: *budget_ms,
            },
            StartAction::GiveUp { error } => StartActionView::GiveUp { error: error@ },
        }
    }
}

/// Could another mode help after an attempt that this action ended? What fails
/// before the attempt begins fails in every mode.
pub open spec fn may_retry(ended_by: Option<AttemptAction>) -> bool {
    ended_by is Some && retryable(ended_by->0@)
}

impl StartRun {
    /// A start that has tried nothing yet.
    pub fn new(headless: bool) -> (r: Self)
        ensures
            r.headless == headless,
            r.tried == 0,
            views(r.errors@) == Seq::<Seq<char>>::empty(),
            r.last_kind == ErrorKind::InternalError,
            !r.saw_browser_exit,
    {
        let errors: Vec<String> = Vec::new();
        assert(views(errors@) == Seq::<Seq<char>>::empty());
        StartRun {
            headless,
            tried: 0,
            errors,
            last_kind: ErrorKind::InternalError,
            saw_browser_exit: false,
        }
    }

    /// What this start does with `remaining_ms` left: the next mode of the
    /// plan, or the failure where there is none or the time is up.
    pub open spec fn next_action(&self, remaining_ms: u64) -> StartActionView {
        if self.tried < launch_plan(self.headless).len() && remaining_ms
            >= crate::chrome::attempt::MIN_PROBE_BUDGET_MS {
            StartActionView::Try {
                mode: launch_plan(self.headless)[self.tried as int],
                budget_ms: remaining_ms,
            }
        } else {
            StartActionView::GiveUp {
                error: start_failure(
                    self.headless,
                    views(self.errors@),
                    self.last_kind,
                    self.saw_browser_exit,
                ),
            }
        }
    }

    /// What this start does with `remaining_ms` left.
    pub fn next(&self, remaining_ms: u64) -> (r: StartAction)
        ensures
            r@ == self.next_action(remaining_ms),
    {
        if self.tried < 2 && remaining_ms >= crate::chrome::attempt::MIN_PROBE_BUDGET_MS {
            let mode = if self.headless {
                if self.tried == 0 {
                    LaunchMode::HeadlessSoftware
                } else {
                    LaunchMode::HeadlessInProcessGpu
                }
            } else {
                if self.tried == 0 {
                    LaunchMode::HeadedDefault
                } else {
                    LaunchMode::HeadedSoftware
                }
            };
            return StartAction::Try { mode, budget_ms: remaining_ms };
        }
        let kind = if self.saw_browser_exit {
            ErrorKind::BrowserExited
        } else {
            self.last_kind
        };
        let message = if self.errors.len() == 0 {
            if self.headless {
                "headless managed Chrome failed to start".to_owned()
            } else {
                "managed Chrome (headed) failed to start".to_owned()
            }
        } else if self.headless {
            concat3(
                "headless managed Chrome is unavailable on this installation: ",
                &join(&self.errors, "; "),
                "; use headed mode (headless = false) to open a visible Chrome window",
            )
        } else {
            concat3(
                "managed Chrome (headed) failed to start: ",
                &join(&self.errors, "; "),
                "; no visible window was opened — check the GPU driver and antivirus, confirm the desktop is interactive, or retry with headless = true for a non-visible session",
            )
        };
        StartAction::GiveUp { error: WinkitError::new(kind, message) }
    }

    /// An attempt in `mode` failed: `ended_by` is the action that ended it, none
    /// where it failed before it began. Where another mode cannot help, the
    /// failure is handed back and ends the start.
    pub fn attempt_failed(
        &mut self,
        mode: LaunchMode,
        error: WinkitError,
        ended_by: &Option<AttemptAction>,
    ) -> (r: Option<WinkitError>)
        requires
            old(self).tried < 2,
        ensures
            final(self).headless == old(self).headless,
            final(self).tried == old(self).tried + 1,
            final(self).last_kind == error.kind,
            final(self).saw_browser_exit == (old(self).saw_browser_exit || error.kind
                == ErrorKind::BrowserExited),
            may_retry(*ended_by) ==> r is None && views(final(self).errors@) == views(
                old(self).errors@,
            ).push(mode.label_view() + " mode failed: "@ + error.message@),
            !may_retry(*ended_by) ==> r == Some(error) && final(self).errors == old(self).errors,
    {
        let retry = match ended_by {
            Some(action) => is_retryable(action),
            None => false,
        };
        self.tried = self.tried + 1;
        self.last_kind = error.kind;
        if error.kind == ErrorKind::BrowserExited {
            self.saw_browser_exit = true;
        }
        if !retry {
            return Some(error);
        }
        let detail = concat3(mode.label(), " mode failed: ", &error.message);
        let ghost before = views(self.errors@);
        self.errors.push(detail);
        assert(views(self.errors@) == before.push(detail@));
        None
    }
}

/// The sessions that are known, in the order of their names.
pub struct SessionTable {
    pub sessions: Vec<ManagedSession>,
}

/// Are the names strictly ascending?
pub open spec fn ascending(sessions: Seq<ManagedSession>) -> bool {
    forall|i: int, j: int|
        0 <= i < j < sessions.len() ==> key_lt(
            text_key((#[trigger] sessions[i]).session_id@),
            text_key((#[trigger] sessions[j]).session_id@),
        )
}

/// Is there a session of this name?
pub open spec fn has_session(sessions: Seq<ManagedSession>, id: Seq<char>) -> bool {
    exists|i: int| 0 <= i < sessions.len() && (#[trigger] sessions[i]).session_id@ == id
}

/// Is this the session of that name?
pub open spec fn is_session(sessions: Seq<ManagedSession>, id: Seq<char>, s: ManagedSession) -> bool {
    s.session_id@ == id && sessions.contains(s)
}

impl SessionTable {
    /// Every name once, in order.
    pub open spec fn wf(&self) -> bool {
        ascending(self.sessions@)
    }

    /// The table without sessions.
    pub fn new() -> (r: Self)
        ensures
            r.wf(),
            r.sessions@ == Seq::<ManagedSession>::empty(),
    {
        SessionTable { sessions: Vec::new() }
    }

    /// The place of the session with this name.
    pub fn position(&self, id: &str) -> (r: Option<usize>)
        ensures
            match r {
                Some(i) => i < self.sessions@.len() && self.sessions@[i as int].session_id@ == id@,
                None => !has_session(self.sessions@, id@),
            },
    {
        let mut i: usize = 0;
        while i < self.sessions.len()
            invariant
                i <= self.sessions@.len(),
                forall|k: int| 0 <= k < i ==> (#[trigger] self.sessions@[k]).session_id@ != id@,
            decreases self.sessions@.len() - i,
        {
            if same(&self.sessions[i].session_id, id) {
                return Some(i);
            }
            i = i + 1;
        }
        None
    }

    /// The session with this name.
    pub fn get(&self, id: &str) -> (r: Result<&ManagedSession, WinkitError>)
        ensures
            match r {
                Ok(s) => is_session(self.sessions@, id@, *s),
                Err(e) => !has_session(self.sessions@, id@) && e@ == err_view(
                    ErrorKind::NotFound,
                    "no managed session '"@ + id@ + "'"@,
                ),
            },
    {
        match self.position(id) {
            Some(i) => {
                assert(self.sessions@[i as int] == self.sessions[i as int]);
                Ok(&self.sessions[i])
            },
            None => Err(WinkitError::not_found(&concat3("no managed session '", id, "'"))),
        }
    }

    /// Takes the session with this name out of the table.
    pub fn remove(&mut self, id: &str) -> (r: Option<ManagedSession>)
        requires
            old(self).wf(),
        ensures
            final(self).wf(),
            match r {
                Some(s) => is_session(old(self).sessions@, id@, s),
                None => !has_session(old(self).sessions@, id@) && final(self).sessions@ == old(self).sessions@,
            },
            !has_session(final(self).sessions@, id@),
            forall|s: ManagedSession|
                s.session_id@ != id@ ==> (#[trigger] final(self).sessions@.contains(s) <==> old(self).sessions@.contains(s)),
    {
        match self.position(id) {
            Some(i) => {
                let ghost before = self.sessions@;
                let taken = self.sessions.remove(i);
                proof {
                    let now = self.sessions@;
                    assert(taken == before[i as int]);
                    assert(now == before.remove(i as int));
                    assert forall|k: int| 0 <= k < now.len() implies (
                    #[trigger] now[k]).session_id@ != id@ by {
                        lemma_key_irreflexive(text_key(id@));
                        if k < i {
                            assert(now[k] == before[k]);
                            assert(key_lt(text_key(before[k].session_id@), text_key(id@)));
                        } else {
                            assert(now[k] == before[k + 1]);
                            assert(key_lt(text_key(id@), text_key(before[k + 1].session_id@)));
                        }
                    }
                    assert forall|a: int, b: int| 0 <= a < b < now.len() implies key_lt(
                        text_key((#[trigger] now[a]).session_id@),
                        text_key((#[trigger] now[b]).session_id@),
                    ) by {
                        let x = if a < i {
                            a
                        } else {
                            a + 1
                        };
                        let y = if b < i {
                            b
                        } else {
                            b + 1
                        };
                        assert(now[a] == before[x] && now[b] == before[y]);
                    }
                    assert forall|s: ManagedSession| s.session_id@ != id@ implies (
                    #[trigger] now.contains(s) <==> before.contains(s)) by {
                        if before.contains(s) {
                            let k = choose|k: int| 0 <= k < before.len() && before[k] == s;
                            if k < i {
                                assert(now[k] == s);
                            } else {
                                assert(now[k - 1] == s);
                            }
                        }
                        if now.contains(s) {
                            let k = choose|k: int| 0 <= k < now.len() && now[k] == s;
                            if k < i {
                                assert(before[k] == s);
                            } else {
                                assert(before[k + 1] == s);
                            }
                        }
                    }
                }
                Some(taken)
            },
            None => None,
        }
    }

    /// Puts a session into the table, in place of one of the same name.
    pub fn insert(&mut self, session: ManagedSession)
        requires
            old(self).wf(),
        ensures
            final(self).wf(),
            final(self).sessions@.contains(session),
            forall|s: ManagedSession|
                s.session_id@ != session.session_id@ ==> (#[trigger] final(self).sessions@.contains(s) <==> old(self).sessions@.contains(s)),
    {
        let _replaced = self.remove(&session.session_id);
        let ghost before = self.sessions@;
        let key = key_of_text(&session.session_id);
        let mut p: usize = 0;
        while p < self.sessions.len() && key_less(
            &key_of_text(&self.sessions[p].session_id),
            &key,
        )
            invariant
                self.sessions@ == before,
                key@ == text_key(session.session_id@),
                p <= before.len(),
                forall|k: int|
                    0 <= k < p ==> key_lt(text_key((#[trigger] before[k]).session_id@), key@),
            decreases before.len() - p,
        {
            p = p + 1;
        }
        proof {
            assert forall|k: int| p <= k < before.len() implies key_lt(
                key@,
                text_key((#[trigger] before[k]).session_id@),
            ) by {
                let first = text_key(before[p as int].session_id@);
                lemma_key_total(key@, first);
                if key@ == first {
                    lemma_text_key_injective(session.session_id@, before[p as int].session_id@);
                }
                if k > p {
                    lemma_key_transitive(key@, first, text_key(before[k].session_id@));
                }
            }
        }
        self.sessions.insert(p, session);
        proof {
            let now = self.sessions@;
            assert(now == before.insert(p as int, session));
            assert(now[p as int] == session);
            assert forall|a: int, b: int| 0 <= a < b < now.len() implies key_lt(
                text_key((#[trigger] now[a]).session_id@),
                text_key((#[trigger] now[b]).session_id@),
            ) by {
                if a < p {
                    assert(now[a] == before[a]);
                } else if a > p {
                    assert(now[a] == before[a - 1]);
                }
                if b < p {
                    assert(now[b] == before[b]);
                } else if b > p {
                    assert(now[b] == before[b - 1]);
                }
            }
            assert forall|s: ManagedSession| s.session_id@ != session.session_id@ implies (
            #[trigger] now.contains(s) <==> before.contains(s)) by {
                if before.contains(s) {
                    let k = choose|k: int| 0 <= k < before.len() && before[k] == s;
                    if k < p {
                        assert(now[k] == s);
                    } else {
                        assert(now[k + 1] == s);
                    }
                }
                if now.contains(s) {
                    let k = choose|k: int| 0 <= k < now.len() && now[k] == s;
                    if k < p {
                        assert(before[k] == s);
                    } else {
                        assert(before[k - 1] == s);
                    }
                }
            }
        }
    }

    /// The place of the first session, in the order of names, that is ready on
    /// this displayed address.
    pub fn find_ready_for(&self, display_url: &str) -> (r: Option<usize>)
        ensures
            match r {
                Some(i) => i < self.sessions@.len() && ready_on(
                    self.sessions@[i as int],
                    display_url@,
                ) && (forall|k: int|
                    0 <= k < i ==> !ready_on(#[trigger] self.sessions@[k], display_url@)),
                None => forall|k: int|
                    0 <= k < self.sessions@.len() ==> !ready_on(
                        #[trigger] self.sessions@[k],
                        display_url@,
                    ),
            },
    {
        let mut i: usize = 0;
        while i < self.sessions.len()
            invariant
                i <= self.sessions@.len(),
                forall|k: int|
                    0 <= k < i ==> !ready_on(#[trigger] self.sessions@[k], display_url@),
            decreases self.sessions@.len() - i,
        {
            let on_it = match &self.sessions[i].initial_url {
                Some(u) => same(u, display_url),
                None => false,
            };
            if self.sessions[i].state == ManagedState::Ready && on_it {
                return Some(i);
            }
            i = i + 1;
        }
        None
    }

    /// The states of the sessions, in the order of names.
    pub fn states(&self) -> (r: Vec<ManagedState>)
        ensures
            r@ == self.sessions@.map_values(|s: ManagedSession| s.state),
    {
        let mut out: Vec<ManagedState> = Vec::new();
        let mut i: usize = 0;
        while i < self.sessions.len()
            invariant
                i <= self.sessions@.len(),
                out@ == self.sessions@.take(i as int).map_values(|s: ManagedSession| s.state),
            decreases self.sessions@.len() - i,
        {
            out.push(self.sessions[i].state);
            i = i + 1;
            assert(out@ == self.sessions@.take(i as int).map_values(|s: ManagedSession| s.state));
        }
        assert(self.sessions@.take(self.sessions@.len() as int) == self.sessions@);
        out
    }
}

/// Is the session ready, and was it started on this displayed address?
pub open spec fn ready_on(s: ManagedSession, display_url: Seq<char>) -> bool {
    s.state == ManagedState::Ready && opt_view(s.initial_url) == Some(display_url)
}

/// A session is let through only where it is ready; else the error says by its kind
/// what it is: starting or unreachable, gone, closed, not cleaned up, or switched off.
pub proof fn law_only_ready_sessions_are_used(session: ManagedSession, r: Result<(), WinkitError>)
    requires
        call_ensures(ManagedSession::ensure_ready, (&session,), r),
    ensures
        r is Ok <==> session.state == ManagedState::Ready,
        r is Err ==> {
            let kind = r->Err_0.kind;
            &&& kind == ErrorKind::EndpointUnavailable <==> session.state == ManagedState::Starting
                || session.state == ManagedState::EndpointUnavailable
            &&& kind == ErrorKind::BrowserExited <==> session.state == ManagedState::BrowserExited
            &&& kind == ErrorKind::NotFound <==> session.state == ManagedState::Stopping
                || session.state == ManagedState::Closed
            &&& kind == ErrorKind::CleanupFailure <==> session.state == ManagedState::CleanupFailed
            &&& kind == ErrorKind::FeatureDisabled <==> session.state == ManagedState::Disabled
        },
{
}

/// Every state is told in words of its own.
pub proof fn law_states_have_words_of_their_own(a: ManagedState, b: ManagedState)
    ensures
        a.description() == b.description() <==> a == b,
{
    reveal_strlit("managed Chrome is disabled in configuration");
    assert("managed Chrome is disabled in configuration"@.len() == 43);
    reveal_strlit("browser is starting");
    assert("browser is starting"@.len() == 19);
    reveal_strlit("ready");
    assert("ready"@.len() == 5);
    reveal_strlit("DevTools endpoint is unavailable");
    assert("DevTools endpoint is unavailable"@.len() == 32);
    reveal_strlit("the browser exited unexpectedly");
    assert("the browser exited unexpectedly"@.len() == 31);
    reveal_strlit("stopping");
    assert("stopping"@.len() == 8);
    reveal_strlit("closed and cleaned up");
    assert("closed and cleaned up"@.len() == 21);
    reveal_strlit("closed but profile cleanup failed");
    assert("closed but profile cleanup failed"@.len() == 33);
}

/// A start is let through exactly where the feature is on, a browser is installed and
/// fewer sessions than allowed are starting, ready, unreachable or being stopped.
pub proof fn law_starts_are_let_through(
    enabled: bool,
    installed: bool,
    states: Vec<ManagedState>,
    max_sessions: usize,
    r: Result<(), WinkitError>,
)
    requires
        call_ensures(check_start, (enabled, installed, &states, max_sessions), r),
    ensures
        r is Ok <==> enabled && installed && states@.filter(
            |s: ManagedState|
                s == ManagedState::Starting || s == ManagedState::Ready || s
                    == ManagedState::EndpointUnavailable || s == ManagedState::Stopping,
        ).len() < max_sessions,
        !enabled ==> r->Err_0.kind == ErrorKind::FeatureDisabled,
        enabled && !installed ==> r->Err_0.kind == ErrorKind::ApplicationUnavailable,
        enabled && installed && r is Err ==> r->Err_0.kind == ErrorKind::ConcurrencyLimit,
{
    lemma_active_are_filtered(states@);
}

proof fn lemma_active_are_filtered(states: Seq<ManagedState>)
    ensures
        active_count(states) == states.filter(
            |s: ManagedState|
                s == ManagedState::Starting || s == ManagedState::Ready || s
                    == ManagedState::EndpointUnavailable || s == ManagedState::Stopping,
        ).len(),
    decreases states.len(),
{
    reveal(Seq::filter);
    if states.len() > 0 {
        lemma_active_are_filtered(states.drop_last());
    }
}

/// The watcher keeps away from a session that is being stopped or was; of any other it
/// handles the exit when the browser is gone. A stop cleans up once the browser is gone
/// and ends it after five seconds, looking every tenth of one.
pub proof fn law_ends_are_handled(
    state: ManagedState,
    exited: bool,
    elapsed_ms: u64,
    m: MonitorAction,
    s: StopAction,
)
    requires
        call_ensures(monitor_step, (state, exited), m),
        call_ensures(stop_step, (exited, elapsed_ms), s),
    ensures
        m == MonitorAction::Leave <==> state == ManagedState::Stopping || state
            == ManagedState::Closed || state == ManagedState::CleanupFailed,
        m == MonitorAction::HandleExit ==> exited,
        exited ==> m != MonitorAction::Keep,
        s == StopAction::CleanUp <==> exited,
        s == StopAction::Kill <==> !exited && elapsed_ms >= 5000,
        s is Wait ==> s->ms == 100,
{
}

/// A start waits as long as was asked, but no longer than is configured and at least a
/// quarter of a second.
pub proof fn law_starts_wait_as_asked(requested: Option<u64>, startup_timeout_ms: u64, r: u64)
    requires
        startup_timeout_ms >= 250,
        call_ensures(startup_wait, (requested, startup_timeout_ms), r),
    ensures
        250 <= r <= startup_timeout_ms,
        requested is None ==> r == startup_timeout_ms,
        requested matches Some(ms) ==> (250 <= ms <= startup_timeout_ms ==> r == ms),
        requested matches Some(ms) ==> (ms > startup_timeout_ms ==> r == startup_timeout_ms),
{
}

/// A start tries two modes of the kind that was asked for, with the time that is left:
/// the plain one first. It gives up after both, or when no time is left; the error is
/// that of a browser that went away where one did, else the last one.
pub proof fn law_starts_try_two_modes(run: StartRun, remaining_ms: u64, r: StartAction)
    requires
        call_ensures(StartRun::next, (&run, remaining_ms), r),
    ensures
        r is Try <==> run.tried < 2 && remaining_ms >= 25,
        r matches StartAction::Try { mode, budget_ms } ==> {
            &&& budget_ms == remaining_ms
            &&& run.headless && run.tried == 0 <==> mode == LaunchMode::HeadlessSoftware
            &&& run.headless && run.tried == 1 <==> mode == LaunchMode::HeadlessInProcessGpu
            &&& !run.headless && run.tried == 0 <==> mode == LaunchMode::HeadedDefault
            &&& !run.headless && run.tried == 1 <==> mode == LaunchMode::HeadedSoftware
        },
        r matches StartAction::GiveUp { error } ==> {
            &&& run.saw_browser_exit ==> error.kind == ErrorKind::BrowserExited
            &&& !run.saw_browser_exit ==> error.kind == run.last_kind
        },
{
}

/// The error of a browser that went away during the start tells the exit code where
/// there is one, and then the one of the graphics process.
pub proof fn law_exits_are_told(session: ManagedSession, r: WinkitError)
    requires
        call_ensures(browser_exit_error, (&session,), r),
        session.stderr_diagnostics is None,
    ensures
        r.kind == ErrorKind::BrowserExited,
        session.gpu_exit_code is None ==> r.message@ == "managed Chrome exited during startup"@ + (
        " ("@ + (if session.exit_code is Some {
            "exit code "@ + signed_decimal(session.exit_code->0 as int)
        } else {
            "no exit code recorded (process still alive)"@
        }) + ")"@),
        session.gpu_exit_code matches Some(g) ==> r.message@
            == "managed Chrome exited during startup"@ + (" ("@ + ((
        if session.exit_code is Some {
            "exit code "@ + signed_decimal(session.exit_code->0 as int)
        } else {
            "no exit code recorded (process still alive)"@
        }) + "; "@ + ("GPU process exit code "@ + g@)) + ")"@),
{
    reveal_with_fuel(joined, 3);
    let parts = code_part(session.exit_code) + gpu_part(opt_view(session.gpu_exit_code))
        + tail_part(opt_view(session.stderr_diagnostics));
    match session.gpu_exit_code {
        Some(g) => {
            assert(parts =~= seq![code_part(session.exit_code)[0], "GPU process exit code "@ + g@]);
            assert(parts.drop_last() =~= seq![code_part(session.exit_code)[0]]);
        },
        None => {
            assert(parts =~= seq![code_part(session.exit_code)[0]]);
        },
    }
}

/// A session is used again where it is ready and was started on the same page, and then
/// the first of them; where there is none, none is found.
pub proof fn law_ready_sessions_are_used_again(
    store: SessionTable,
    display_url: &str,
    r: Option<usize>,
)
    requires
        call_ensures(SessionTable::find_ready_for, (&store, display_url), r),
    ensures
        r is None <==> forall|k: int|
            0 <= k < store.sessions@.len() ==> !((#[trigger] store.sessions@[k]).state
                == ManagedState::Ready && store.sessions@[k].initial_url is Some
                && store.sessions@[k].initial_url->0@ == display_url@),
        r matches Some(i) ==> {
            &&& i < store.sessions@.len()
            &&& store.sessions@[i as int].state == ManagedState::Ready
            &&& store.sessions@[i as int].initial_url is Some
            &&& store.sessions@[i as int].initial_url->0@ == display_url@
        },
{
}

/// What the browser said last stands at the end of the evidence, up to six hundred
/// characters of it.
pub proof fn law_last_output_ends_the_evidence(session: ManagedSession, r: String)
    requires
        call_ensures(ManagedSession::failure_evidence, (&session,), r),
        session.stderr_diagnostics is Some,
        trimmed(session.stderr_diagnostics->0@).len() > 0,
    ensures
        exists|before: Seq<char>|
            r@ == #[trigger] (" ("@ + before) + "; "@ + "last browser output: "@ + (
            if session.stderr_diagnostics->0@.len() <= 600 {
                session.stderr_diagnostics->0@
            } else {
                session.stderr_diagnostics->0@.take(600)
            }) + ")"@,
{
    let first = code_part(session.exit_code) + gpu_part(opt_view(session.gpu_exit_code));
    let told = tail_part(opt_view(session.stderr_diagnostics));
    let parts = first + told;
    assert(parts.len() >= 2);
    assert(parts.drop_last() =~= first);
    let before = joined(first, "; "@);
    assert(joined(parts, "; "@) == before + "; "@ + parts.last());
    let t = session.stderr_diagnostics->0@;
    assert(parts.last() == "last browser output: "@ + clipped(t, 600));
    let shown = if t.len() <= 600 {
        t
    } else {
        t.take(600)
    };
    assert(r@ =~= (" ("@ + before) + "; "@ + "last browser output: "@ + shown + ")"@);
}

} // verus!
