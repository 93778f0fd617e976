//! Failure classification and bounded restart of a capture session.
//!
//! A session is fed three kinds of events: the outcome of each frame request
//! (`on_signal`), the periodic tick of the capture loop (`on_tick`), and the
//! answer to "is the source still there?" while a restart is under way
//! (`on_source_lookup`). Each event yields the next state and what the caller
//! has to do. The session itself never sleeps, never touches the capturer and
//! holds no thread: it only decides.

use vstd::prelude::*;

verus! {

/// Consecutive permanent errors that make a restart due.
pub const MAX_FAILURES: u64 = 3;

/// Restarts a session may spend without a frame in between before it ends
/// for good.
pub const MAX_RESTART_ATTEMPTS: u64 = 5;

/// Pause before a restart looks for its source, in milliseconds.
pub const RESTART_DELAY_MS: u64 = 200;

/// Pause between two lookups of a restart, and after the capture was started
/// again, in milliseconds.
pub const RETRY_DELAY_MS: u64 = 100;

/// Interval between two frame requests, in milliseconds.
pub const FRAME_CAPTURE_INTERVAL_MS: u64 = 22;

/// What the capturer reported for one frame request.
#[derive(Debug, Clone, Copy, PartialEq, Eq, Structural)]
pub enum CaptureSignal {
    /// A frame was delivered.
    Frame,
    /// The request failed, and the next one may well succeed.
    ErrorTemporary,
    /// The request failed, and asking again is not expected to help.
    ErrorPermanent,
    /// The user ended the capture from outside the application.
    ErrorUserStopped,
}

/// The bounds of the recovery rules.
#[derive(Debug, Clone, Copy, PartialEq, Eq, Structural)]
pub struct RecoveryPolicy {
    /// Consecutive permanent errors that make a restart due.
    pub failure_threshold: u64,
    /// Restarts a session may spend without a frame in between.
    pub restart_bound: u64,
    /// Lookups of the source one restart may spend. One lookup is always made.
    pub lookup_tries: u64,
}

impl RecoveryPolicy {
    pub open spec fn standard() -> RecoveryPolicy {
        RecoveryPolicy { failure_threshold: 3, restart_bound: 5, lookup_tries: 5 }
    }
}

impl Default for RecoveryPolicy {
    fn default() -> (p: Self)
        ensures
            p == RecoveryPolicy::standard(),
    {
        RecoveryPolicy {
            failure_threshold: MAX_FAILURES,
            restart_bound: MAX_RESTART_ATTEMPTS,
            lookup_tries: MAX_RESTART_ATTEMPTS,
        }
    }
}

/// Everything a session remembers.
#[derive(Debug, Clone, Copy, PartialEq, Eq, Structural)]
pub struct SessionState {
    pub policy: RecoveryPolicy,
    /// Temporary errors since the last frame or restart.
    pub transient: u64,
    /// Permanent errors since the last frame or restart.
    pub permanent: u64,
    /// Restarts begun since the last frame.
    pub restart_attempts: u64,
    /// A restart is due, or under way.
    pub needs_restart: bool,
    /// The session has ended; nothing revives it.
    pub should_stop: bool,
    /// `Some(k)` while a restart is under way and `k` lookups have failed.
    pub lookup: Option<u64>,
}

/// The coarse condition of a session.
#[derive(Debug, Clone, Copy, PartialEq, Eq, Structural)]
pub enum SessionPhase {
    Running,
    Degraded { failures: u64 },
    Restarting { attempt: u64 },
    Terminated,
}

/// What became of one frame outcome.
#[derive(Debug, Clone, Copy, PartialEq, Eq, Structural)]
pub enum SignalOutcome {
    /// The session has ended; the outcome was dropped.
    Ignored,
    /// A frame arrived and all three counts are back at zero: convert and
    /// publish it.
    Deliver,
    /// A temporary error was counted.
    TransientNoted,
    /// A permanent error was counted; the threshold is not reached.
    FailureCounted,
    /// This permanent error reached the threshold: a restart is now due.
    RestartRequested,
    /// A permanent error at or past the threshold while a restart was
    /// already due.
    RestartPending,
    /// The threshold was reached with no restart left: the session has ended
    /// and the terminal error is to be reported.
    Exhausted,
    /// The user stopped the capture: the session has ended.
    UserStopped,
}

/// What the capture loop does on a tick.
#[derive(Debug, Clone, Copy, PartialEq, Eq, Structural)]
pub enum TickAction {
    /// Leave the loop.
    Stop,
    /// A restart begins: wait `settle_ms`, list the sources and report
    /// whether the session's source is among them.
    BeginRestart { attempt: u64, settle_ms: u64 },
    /// A restart is under way: list the sources and report.
    Lookup,
    /// Ask the capturer for one frame.
    RequestFrame,
}

/// What a restart does after one lookup.
#[derive(Debug, Clone, Copy, PartialEq, Eq, Structural)]
pub enum RestartStep {
    /// No restart is under way.
    NotRestarting,
    /// The session ended meanwhile; the restart is dropped without a report.
    Abandon,
    /// The source is there: start capturing it, wait `settle_ms`, then go on
    /// as on a tick.
    StartCapture { settle_ms: u64 },
    /// The source is missing: wait `delay_ms` and look again.
    RetryAfter { delay_ms: u64 },
    /// The source stayed missing: the session has ended and the terminal
    /// error is to be reported.
    GiveUp,
}

/// One more, stopping at the largest `u64`.
pub open spec fn bump(x: u64) -> u64 {
    if x < u64::MAX {
        (x + 1) as u64
    } else {
        x
    }
}

impl SessionState {
    /// A session that has seen nothing yet.
    pub open spec fn fresh(policy: RecoveryPolicy) -> SessionState {
        SessionState {
            policy,
            transient: 0,
            permanent: 0,
            restart_attempts: 0,
            needs_restart: false,
            should_stop: false,
            lookup: None,
        }
    }

    pub open spec fn phase(self) -> SessionPhase {
        if self.should_stop {
            SessionPhase::Terminated
        } else if self.lookup is Some {
            SessionPhase::Restarting { attempt: self.restart_attempts }
        } else if self.needs_restart {
            SessionPhase::Restarting { attempt: bump(self.restart_attempts) }
        } else if self.permanent > 0 {
            SessionPhase::Degraded { failures: self.permanent }
        } else {
            SessionPhase::Running
        }
    }

    /// The state after one frame outcome, and what became of the outcome.
    pub open spec fn after_signal(self, signal: CaptureSignal) -> (SessionState, SignalOutcome) {
        if self.should_stop {
            (self, SignalOutcome::Ignored)
        } else {
            match signal {
                CaptureSignal::Frame => (
                    SessionState { transient: 0, permanent: 0, restart_attempts: 0, ..self },
                    SignalOutcome::Deliver,
                ),
                CaptureSignal::ErrorTemporary => (
                    SessionState { transient: bump(self.transient), ..self },
                    SignalOutcome::TransientNoted,
                ),
                CaptureSignal::ErrorPermanent => {
                    let count = bump(self.permanent);
                    if count < self.policy.failure_threshold {
                        (SessionState { permanent: count, ..self }, SignalOutcome::FailureCounted)
                    } else if self.restart_attempts >= self.policy.restart_bound {
                        (
                            SessionState { permanent: count, should_stop: true, ..self },
                            SignalOutcome::Exhausted,
                        )
                    } else if self.needs_restart {
                        (SessionState { permanent: count, ..self }, SignalOutcome::RestartPending)
                    } else {
                        (
                            SessionState { permanent: count, needs_restart: true, ..self },
                            SignalOutcome::RestartRequested,
                        )
                    }
                },
                CaptureSignal::ErrorUserStopped => (
                    SessionState { should_stop: true, ..self },
                    SignalOutcome::UserStopped,
                ),
            }
        }
    }

    /// The state after one tick of the capture loop, and what the loop does.
    pub open spec fn after_tick(self) -> (SessionState, TickAction) {
        if self.should_stop {
            (self, TickAction::Stop)
        } else if self.lookup is Some {
            (self, TickAction::Lookup)
        } else if self.needs_restart {
            (
                SessionState {
                    transient: 0,
                    permanent: 0,
                    restart_attempts: bump(self.restart_attempts),
                    lookup: Some(0),
                    ..self
                },
                TickAction::BeginRestart {
                    attempt: bump(self.restart_attempts),
                    settle_ms: RESTART_DELAY_MS,
                },
            )
        } else {
            (self, TickAction::RequestFrame)
        }
    }

    /// The state after one lookup of a restart, and how the restart goes on.
    pub open spec fn after_lookup(self, found: bool) -> (SessionState, RestartStep) {
        match self.lookup {
            None => (self, RestartStep::NotRestarting),
            Some(failed) => {
                if self.should_stop {
                    (
                        SessionState { needs_restart: false, lookup: None, ..self },
                        RestartStep::Abandon,
                    )
                } else if found {
                    (
                        SessionState { needs_restart: false, lookup: None, ..self },
                        RestartStep::StartCapture { settle_ms: RETRY_DELAY_MS },
                    )
                } else if bump(failed) >= self.policy.lookup_tries {
                    (
                        SessionState {
                            needs_restart: false,
                            should_stop: true,
                            lookup: None,
                            ..self
                        },
                        RestartStep::GiveUp,
                    )
                } else {
                    (
                        SessionState { lookup: Some(bump(failed)), ..self },
                        RestartStep::RetryAfter { delay_ms: RETRY_DELAY_MS },
                    )
                }
            },
        }
    }

    /// The state after the user asked for the capture to stop.
    pub open spec fn after_stop_request(self) -> SessionState {
        SessionState { needs_restart: false, should_stop: true, lookup: None, ..self }
    }
}

/// One capture session's recovery rules, with its counters.
pub struct CaptureSession {
    state: SessionState,
}

impl View for CaptureSession {
    type V = SessionState;

    closed spec fn view(&self) -> SessionState {
        self.state
    }
}

fn bump_exec(x: u64) -> (r: u64)
    ensures
        r == bump(x),
{
    if x < u64::MAX {
        x + 1
    } else {
        x
    }
}

impl CaptureSession {
    /// Starts a session with nothing counted.
    pub fn new(policy: RecoveryPolicy) -> (s: Self)
        ensures
            s@ == SessionState::fresh(policy),
    {
        CaptureSession {
            state: SessionState {
                policy,
                transient: 0,
                permanent: 0,
                restart_attempts: 0,
                needs_restart: false,
                should_stop: false,
                lookup: None,
            },
        }
    }

    /// Everything the session remembers.
    pub fn state(&self) -> (s: SessionState)
        ensures
            s == self@,
    {
        self.state
    }

    /// Temporary errors since the last frame or restart.
    pub fn transient_errors(&self) -> (n: u64)
        ensures
            n == self@.transient,
    {
        self.state.transient
    }

    /// Permanent errors since the last frame or restart.
    pub fn permanent_errors(&self) -> (n: u64)
        ensures
            n == self@.permanent,
    {
        self.state.permanent
    }

    /// Restarts begun since the last frame.
    pub fn restart_attempts(&self) -> (n: u64)
        ensures
            n == self@.restart_attempts,
    {
        self.state.restart_attempts
    }

    /// Whether a restart is due or under way.
    pub fn needs_restart(&self) -> (b: bool)
        ensures
            b == self@.needs_restart,
    {
        self.state.needs_restart
    }

    /// Whether the session has ended.
    pub fn should_stop(&self) -> (b: bool)
        ensures
            b == self@.should_stop,
    {
        self.state.should_stop
    }

    /// The coarse condition of the session.
    pub fn phase(&self) -> (p: SessionPhase)
        ensures
            p == self@.phase(),
    {
        if self.state.should_stop {
            SessionPhase::Terminated
        } else if self.state.lookup.is_some() {
            SessionPhase::Restarting { attempt: self.state.restart_attempts }
        } else if self.state.needs_restart {
            SessionPhase::Restarting { attempt: bump_exec(self.state.restart_attempts) }
        } else if self.state.permanent > 0 {
            SessionPhase::Degraded { failures: self.state.permanent }
        } else {
            SessionPhase::Running
        }
    }

    /// Takes in the outcome of one frame request.
    pub fn on_signal(&mut self, signal: CaptureSignal) -> (outcome: SignalOutcome)
        ensures
            (final(self)@, outcome) == old(self)@.after_signal(signal),
    {
        if self.state.should_stop {
            return SignalOutcome::Ignored;
        }
        match signal {
            CaptureSignal::Frame => {
                self.state.transient = 0;
                self.state.permanent = 0;
                self.state.restart_attempts = 0;
                SignalOutcome::Deliver
            },
            CaptureSignal::ErrorTemporary => {
                self.state.transient = bump_exec(self.state.transient);
                SignalOutcome::TransientNoted
            },
            CaptureSignal::ErrorPermanent => {
                let count: u64 = bump_exec(self.state.permanent);
                self.state.permanent = count;
                if count < self.state.policy.failure_threshold {
                    SignalOutcome::FailureCounted
                } else if self.state.restart_attempts >= self.state.policy.restart_bound {
                    self.state.should_stop = true;
                    SignalOutcome::Exhausted
                } else if self.state.needs_restart {
                    SignalOutcome::RestartPending
                } else {
                    self.state.needs_restart = true;
                    SignalOutcome::RestartRequested
                }
            },
            CaptureSignal::ErrorUserStopped => {
                self.state.should_stop = true;
                SignalOutcome::UserStopped
            },
        }
    }

    /// Decides what the capture loop does on a tick.
    pub fn on_tick(&mut self) -> (action: TickAction)
        ensures
            (final(self)@, action) == old(self)@.after_tick(),
    {
        if self.state.should_stop {
            TickAction::Stop
        } else if self.state.lookup.is_some() {
            TickAction::Lookup
        } else if self.state.needs_restart {
            let attempt: u64 = bump_exec(self.state.restart_attempts);
            self.state.transient = 0;
            self.state.permanent = 0;
            self.state.restart_attempts = attempt;
            self.state.lookup = Some(0);
            TickAction::BeginRestart { attempt, settle_ms: RESTART_DELAY_MS }
        } else {
            TickAction::RequestFrame
        }
    }

    /// Takes in whether the session's source was among those just listed.
    pub fn on_source_lookup(&mut self, found: bool) -> (step: RestartStep)
        ensures
            (final(self)@, step) == old(self)@.after_lookup(found),
    {
        match self.state.lookup {
            None => RestartStep::NotRestarting,
            Some(failed) => {
                if self.state.should_stop {
                    self.state.needs_restart = false;
                    self.state.lookup = None;
                    RestartStep::Abandon
                } else if found {
                    self.state.needs_restart = false;
                    self.state.lookup = None;
                    RestartStep::StartCapture { settle_ms: RETRY_DELAY_MS }
                } else {
                    let next: u64 = bump_exec(failed);
                    if next >= self.state.policy.lookup_tries {
                        self.state.needs_restart = false;
                        self.state.should_stop = true;
                        self.state.lookup = None;
                        RestartStep::GiveUp
                    } else {
                        self.state.lookup = Some(next);
                        RestartStep::RetryAfter { delay_ms: RETRY_DELAY_MS }
                    }
                }
            },
        }
    }

    /// Ends the session at the user's request. A restart that was due or
    /// under way is dropped.
    pub fn request_stop(&mut self)
        ensures
            final(self)@ == old(self)@.after_stop_request(),
    {
        self.state.needs_restart = false;
        self.state.should_stop = true;
        self.state.lookup = None;
    }
}

} // verus!
