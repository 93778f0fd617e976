//! What holds of every run of a capture session.

use vstd::prelude::*;
use crate::capture::recovery::{
    CaptureSignal, RecoveryPolicy, RestartStep, SessionState, SignalOutcome, TickAction,
};

verus! {

/// Anything that can happen to a session.
pub enum SessionEvent {
    Signal(CaptureSignal),
    Tick,
    Lookup(bool),
    StopRequest,
}

impl SessionState {
    /// The state after one event.
    pub open spec fn after_event(self, event: SessionEvent) -> SessionState {
        match event {
            SessionEvent::Signal(signal) => self.after_signal(signal).0,
            SessionEvent::Tick => self.after_tick().0,
            SessionEvent::Lookup(found) => self.after_lookup(found).0,
            SessionEvent::StopRequest => self.after_stop_request(),
        }
    }

    /// Whether handling `event` in this state asks for the terminal error.
    pub open spec fn reports_terminal(self, event: SessionEvent) -> bool {
        match event {
            SessionEvent::Signal(signal) => self.after_signal(signal).1 == SignalOutcome::Exhausted,
            SessionEvent::Lookup(found) => self.after_lookup(found).1 == RestartStep::GiveUp,
            _ => false,
        }
    }

    /// Whether handling `event` in this state touches the capturer or begins
    /// a restart.
    pub open spec fn acts(self, event: SessionEvent) -> bool {
        match event {
            SessionEvent::Signal(signal) => self.after_signal(signal).1 != SignalOutcome::Ignored,
            SessionEvent::Tick => self.after_tick().1 != TickAction::Stop,
            SessionEvent::Lookup(found) => {
                let step = self.after_lookup(found).1;
                step != RestartStep::NotRestarting && step != RestartStep::Abandon
            },
            SessionEvent::StopRequest => false,
        }
    }

    /// The state after a run of events.
    pub open spec fn after_events(self, events: Seq<SessionEvent>) -> SessionState
        decreases events.len(),
    {
        if events.len() == 0 {
            self
        } else {
            self.after_events(events.drop_last()).after_event(events.last())
        }
    }

    /// How often a run of events asks for the terminal error.
    pub open spec fn terminal_reports(self, events: Seq<SessionEvent>) -> nat
        decreases events.len(),
    {
        if events.len() == 0 {
            0
        } else {
            let before = self.after_events(events.drop_last());
            let here: nat = if before.reports_terminal(events.last()) {
                1
            } else {
                0
            };
            self.terminal_reports(events.drop_last()) + here
        }
    }

    /// The state after a run of frame outcomes.
    pub open spec fn after_signals(self, signals: Seq<CaptureSignal>) -> SessionState
        decreases signals.len(),
    {
        if signals.len() == 0 {
            self
        } else {
            self.after_signals(signals.drop_last()).after_signal(signals.last()).0
        }
    }

    /// One round of a failing source: a permanent error, then a tick; where
    /// the tick begins a restart, the source is found at once.
    pub open spec fn after_failing_round(self) -> SessionState {
        let (ticked, action) = self.after_signal(CaptureSignal::ErrorPermanent).0.after_tick();
        if action is BeginRestart {
            ticked.after_lookup(true).0
        } else {
            ticked
        }
    }

    /// Whether the tick of a failing round begins a restart.
    pub open spec fn failing_round_restarts(self) -> bool {
        self.after_signal(CaptureSignal::ErrorPermanent).0.after_tick().1 is BeginRestart
    }

    /// Whether a failing round asks for the terminal error.
    pub open spec fn failing_round_reports_terminal(self) -> bool {
        self.after_signal(CaptureSignal::ErrorPermanent).1 == SignalOutcome::Exhausted
    }

    /// The state after `rounds` failing rounds.
    pub open spec fn after_failing_rounds(self, rounds: nat) -> SessionState
        decreases rounds,
    {
        if rounds == 0 {
            self
        } else {
            self.after_failing_rounds((rounds - 1) as nat).after_failing_round()
        }
    }

    /// Restarts begun within `rounds` failing rounds.
    pub open spec fn restarts_in_failing_rounds(self, rounds: nat) -> nat
        decreases rounds,
    {
        if rounds == 0 {
            0
        } else {
            let before = self.after_failing_rounds((rounds - 1) as nat);
            let here: nat = if before.failing_round_restarts() {
                1
            } else {
                0
            };
            self.restarts_in_failing_rounds((rounds - 1) as nat) + here
        }
    }

    /// Terminal errors asked for within `rounds` failing rounds.
    pub open spec fn terminals_in_failing_rounds(self, rounds: nat) -> nat
        decreases rounds,
    {
        if rounds == 0 {
            0
        } else {
            let before = self.after_failing_rounds((rounds - 1) as nat);
            let here: nat = if before.failing_round_reports_terminal() {
                1
            } else {
                0
            };
            self.terminals_in_failing_rounds((rounds - 1) as nat) + here
        }
    }
}

/// Permanent errors at the end of `signals` that no frame has followed.
pub open spec fn consecutive_failures(signals: Seq<CaptureSignal>) -> nat
    decreases signals.len(),
{
    if signals.len() == 0 {
        0
    } else {
        match signals.last() {
            CaptureSignal::Frame => 0,
            CaptureSignal::ErrorPermanent => consecutive_failures(signals.drop_last()) + 1,
            _ => consecutive_failures(signals.drop_last()),
        }
    }
}

/// Once a session has ended it stays ended: whatever happens next, it asks
/// for no frame, begins no restart, starts no capture and reports nothing.
/// A stop at the user's request ends the session, so it pre-empts a restart
/// that was due.
pub proof fn lemma_stop_is_final(state: SessionState, events: Seq<SessionEvent>)
    requires
        state.should_stop,
    ensures
        state.after_events(events).should_stop,
        state.terminal_reports(events) == 0,
        forall|i: int|
            0 <= i < events.len() ==> !(#[trigger] state.after_events(events.take(i))).acts(
                events[i],
            ),
        state.after_stop_request().should_stop,
    decreases events.len(),
{
    if events.len() > 0 {
        let front = events.drop_last();
        lemma_stop_is_final(state, front);
        assert forall|i: int| 0 <= i < events.len() implies !(#[trigger] state.after_events(
            events.take(i),
        )).acts(events[i]) by {
            if i < front.len() {
                assert(events.take(i) =~= front.take(i));
                assert(events[i] == front[i]);
            } else {
                assert(events.take(i) =~= front);
            }
        }
    }
}

/// Whatever happens to a session, it asks for the terminal error at most
/// once, and only when it ends.
pub proof fn lemma_terminal_error_at_most_once(state: SessionState, events: Seq<SessionEvent>)
    ensures
        state.terminal_reports(events) <= 1,
        state.terminal_reports(events) == 1 ==> state.after_events(events).should_stop,
    decreases events.len(),
{
    if events.len() > 0 {
        lemma_terminal_error_at_most_once(state, events.drop_last());
    }
}

/// A frame puts all three counts back to zero: temporary errors, permanent
/// errors and restarts. A temporary error never adds to the permanent count.
pub proof fn lemma_success_resets(state: SessionState)
    requires
        !state.should_stop,
    ensures
        state.after_signal(CaptureSignal::Frame).0.permanent == 0,
        state.after_signal(CaptureSignal::Frame).0.transient == 0,
        state.after_signal(CaptureSignal::Frame).0.restart_attempts == 0,
        state.after_signal(CaptureSignal::Frame).1 == SignalOutcome::Deliver,
        state.after_signal(CaptureSignal::ErrorTemporary).0.permanent == state.permanent,
        state.after_signal(CaptureSignal::ErrorTemporary).0.needs_restart == state.needs_restart,
{
}

/// In a run of frame outcomes of a new session, a restart falls due exactly
/// when the permanent errors that no frame has followed reach the threshold:
/// not with each error, and not across a frame.
pub proof fn lemma_restart_needs_consecutive_failures(
    policy: RecoveryPolicy,
    signals: Seq<CaptureSignal>,
)
    requires
        policy.failure_threshold >= 1,
        policy.restart_bound >= 1,
        forall|i: int| 0 <= i < signals.len() ==> signals[i] != CaptureSignal::ErrorUserStopped,
        forall|k: int|
            0 <= k < signals.len() ==> #[trigger] consecutive_failures(signals.take(k))
                < policy.failure_threshold,
    ensures
        ({
            let end = SessionState::fresh(policy).after_signals(signals);
            &&& end.permanent == consecutive_failures(signals)
            &&& end.needs_restart <==> consecutive_failures(signals) >= policy.failure_threshold
            &&& !end.should_stop
            &&& end.restart_attempts == 0
            &&& end.lookup is None
            &&& end.policy == policy
        }),
    decreases signals.len(),
{
    if signals.len() > 0 {
        let front = signals.drop_last();
        assert(front =~= signals.take(signals.len() - 1));
        assert forall|k: int| 0 <= k < front.len() implies #[trigger] consecutive_failures(
            front.take(k),
        ) < policy.failure_threshold by {
            assert(front.take(k) =~= signals.take(k));
        }
        lemma_restart_needs_consecutive_failures(policy, front);
    }
}

/// The state that `rounds` failing rounds leave a new session in.
proof fn lemma_failing_rounds(policy: RecoveryPolicy, rounds: nat)
    requires
        policy.failure_threshold >= 1,
    ensures
        ({
            let t = policy.failure_threshold as nat;
            let r = policy.restart_bound as nat;
            let start = SessionState::fresh(policy);
            let end = start.after_failing_rounds(rounds);
            if rounds < (r + 1) * t {
                &&& end == SessionState {
                    permanent: (rounds % t) as u64,
                    restart_attempts: (rounds / t) as u64,
                    ..start
                }
                &&& rounds / t <= r
                &&& start.restarts_in_failing_rounds(rounds) == rounds / t
                &&& start.terminals_in_failing_rounds(rounds) == 0
            } else {
                &&& end == SessionState {
                    permanent: policy.failure_threshold,
                    restart_attempts: policy.restart_bound,
                    should_stop: true,
                    ..start
                }
                &&& start.restarts_in_failing_rounds(rounds) == r
                &&& start.terminals_in_failing_rounds(rounds) == 1
            }
        }),
    decreases rounds,
{
    let t = policy.failure_threshold as nat;
    let r = policy.restart_bound as nat;
    let start = SessionState::fresh(policy);
    if rounds == 0 {
        assert(0 < (r + 1) * t) by (nonlinear_arith)
            requires
                t >= 1,
        ;
        assert(0nat % t == 0 && 0nat / t == 0) by (nonlinear_arith)
            requires
                t >= 1,
        ;
    } else {
        let n = (rounds - 1) as nat;
        lemma_failing_rounds(policy, n);
        let before = start.after_failing_rounds(n);
        if n < (r + 1) * t {
            let q = n / t;
            let m = n % t;
            assert(n == q * t + m && 0 <= m < t) by (nonlinear_arith)
                requires
                    t >= 1,
                    q == n / t,
                    m == n % t,
            ;
            if m + 1 < t {
                assert(rounds / t == q && rounds % t == m + 1) by (nonlinear_arith)
                    requires
                        rounds == q * t + m + 1,
                        0 <= m + 1 < t,
                ;
                assert(rounds < (r + 1) * t) by (nonlinear_arith)
                    requires
                        rounds == q * t + m + 1,
                        m + 1 < t,
                        q <= r,
                ;
            } else {
                assert((q + 1) * t == q * t + t) by (nonlinear_arith);
                assert(rounds / t == q + 1 && rounds % t == 0) by (nonlinear_arith)
                    requires
                        rounds == (q + 1) * t,
                        t >= 1,
                ;
                if q < r {
                    assert(rounds < (r + 1) * t) by (nonlinear_arith)
                        requires
                            rounds == (q + 1) * t,
                            q < r,
                            t >= 1,
                    ;
                } else {
                    assert(rounds >= (r + 1) * t) by (nonlinear_arith)
                        requires
                            rounds == (q + 1) * t,
                            q == r,
                    ;
                }
            }
        } else {
            assert(rounds >= (r + 1) * t);
        }
    }
}

/// Under permanent errors without end, one restart begins for every
/// `failure_threshold` errors in a row, never one per error, until the
/// restarts are spent.
pub proof fn lemma_restart_once_per_threshold(policy: RecoveryPolicy, rounds: nat)
    requires
        policy.failure_threshold >= 1,
    ensures
        SessionState::fresh(policy).restarts_in_failing_rounds(rounds) == if rounds
            / (policy.failure_threshold as nat) <= policy.restart_bound {
            rounds / (policy.failure_threshold as nat)
        } else {
            policy.restart_bound as nat
        },
{
    let t = policy.failure_threshold as nat;
    let r = policy.restart_bound as nat;
    lemma_failing_rounds(policy, rounds);
    if rounds >= (r + 1) * t {
        assert(rounds / t >= r + 1) by (nonlinear_arith)
            requires
                rounds >= (r + 1) * t,
                t >= 1,
        ;
    }
}

/// Under permanent errors without end, a session ends after exactly
/// `restart_bound` restarts: with the error that reaches the threshold once
/// more, it asks for the terminal error, once, and from then on it stays
/// ended.
pub proof fn lemma_session_ends_after_restart_bound(policy: RecoveryPolicy, rounds: nat)
    requires
        policy.failure_threshold >= 1,
    ensures
        ({
            let last = (policy.restart_bound + 1) * policy.failure_threshold;
            let start = SessionState::fresh(policy);
            &&& start.after_failing_rounds(rounds).should_stop <==> rounds >= last
            &&& start.terminals_in_failing_rounds(rounds) == if rounds >= last {
                1nat
            } else {
                0nat
            }
            &&& rounds >= last ==> start.restarts_in_failing_rounds(rounds)
                == policy.restart_bound
            &&& rounds >= last ==> start.after_failing_rounds(rounds).restart_attempts
                == policy.restart_bound
        }),
{
    lemma_failing_rounds(policy, rounds);
}

} // verus!
