//! The heartbeat scheduler: an explicit state machine stepped once per
//! event. The surrounding runtime performs the network calls and the sleeps
//! that each returned `Action` asks for and reports what happened as the
//! next `Event`; every decision the agent takes lives here.

use vstd::prelude::*;
use crate::backoff::{
    SessionState, fresh_session, lemma_fresh_session_wf,
    lemma_record_failure_wf, lemma_record_success_wf, session_wf, spec_record_failure,
    spec_record_success,
};
use crate::config::{AgentConfig, MAX_INTERVAL_MS, SecretString, config_wf};
use crate::registration::{
    Credential, RegDecision, RegSession, RegWireOutcome, RegistrationError, fresh_reg_session,
    reg_session_wf, register_node, spec_register_node,
};
use crate::transport::{TransportError, WireOutcome, is_client_error_status, spec_classify_send};
use crate::{EXIT_ESCALATED, EXIT_OK, EXIT_REJECTED, EXIT_UNREACHABLE};

verus! {

/// The jitter half-window: `interval * jitter / 100`, in milliseconds.
pub open spec fn spec_jitter_spread(interval_ms: u64, jitter_pct: u64) -> int {
    (interval_ms * jitter_pct) / 100
}

/// The delay before the next tick for a given entropy draw: a value between
/// `interval - spread` and `interval + spread`, the entropy picking the
/// offset inside that window.
pub open spec fn spec_jittered_delay(interval_ms: u64, jitter_pct: u64, entropy: u64) -> int {
    interval_ms - spec_jitter_spread(interval_ms, jitter_pct) + (entropy as int) % (2
        * spec_jitter_spread(interval_ms, jitter_pct) + 1)
}

/// For every entropy draw, the tick delay stays inside the configured jitter
/// window: never below `interval - interval*jitter/100` and never above
/// `interval + interval*jitter/100`.
pub proof fn lemma_jitter_bounds(interval_ms: u64, jitter_pct: u64, entropy: u64)
    requires
        1 <= interval_ms <= MAX_INTERVAL_MS,
        jitter_pct <= 100,
    ensures
        0 <= spec_jitter_spread(interval_ms, jitter_pct) <= interval_ms,
        interval_ms - spec_jitter_spread(interval_ms, jitter_pct) <= spec_jittered_delay(
            interval_ms,
            jitter_pct,
            entropy,
        ) <= interval_ms + spec_jitter_spread(interval_ms, jitter_pct),
        spec_jittered_delay(interval_ms, jitter_pct, entropy) <= 2 * MAX_INTERVAL_MS,
{
    let spread = spec_jitter_spread(interval_ms, jitter_pct);
    assert(interval_ms * jitter_pct <= interval_ms * 100) by (nonlinear_arith)
        requires
            jitter_pct <= 100,
    ;
    vstd::arithmetic::div_mod::lemma_div_is_ordered(
        interval_ms * jitter_pct,
        interval_ms * 100,
        100,
    );
    assert(interval_ms * 100 / 100 == interval_ms);
    vstd::arithmetic::div_mod::lemma_div_pos_is_pos(interval_ms * jitter_pct, 100);
    vstd::arithmetic::div_mod::lemma_mod_bound(entropy as int, 2 * spread + 1);
}

/// Draws the next tick delay from the entropy: the interval plus or minus at
/// most `interval * jitter / 100` milliseconds.
pub fn jittered_delay(interval_ms: u64, jitter_pct: u64, entropy: u64) -> (d: u64)
    requires
        1 <= interval_ms <= MAX_INTERVAL_MS,
        jitter_pct <= 100,
    ensures
        d == spec_jittered_delay(interval_ms, jitter_pct, entropy),
{
    proof {
        lemma_jitter_bounds(interval_ms, jitter_pct, entropy);
    }
    let spread: u64 = interval_ms * jitter_pct / 100;
    let window: u64 = 2 * spread + 1;
    let offset: u64 = entropy % window;
    interval_ms - spread + offset
}

/// Where the scheduler stands. Only `Sending` has a heartbeat send in
/// flight; `Registering { waiting: false }` and `Reregistering` have a
/// registration request in flight; the two waiting phases and
/// `Registering { waiting: true }` are asleep.
pub enum Phase {
    Idle,
    Registering { session: RegSession, waiting: bool },
    AwaitingTick,
    Sending,
    Reregistering,
    BackingOff,
    Stopped { exit_code: u8 },
}

/// The agent: its immutable configuration and the scheduler's whole mutable
/// state - phase, failure bookkeeping, and the credential in use.
pub struct Agent {
    pub config: AgentConfig,
    pub phase: Phase,
    pub session: SessionState,
    pub credential: Option<Credential>,
}

/// What the surrounding runtime reports to the scheduler.
pub enum Event {
    Start,
    RegistrationOutcome { outcome: RegWireOutcome, now_ms: u64 },
    SleepElapsed,
    SendCompleted { outcome: WireOutcome, now_ms: u64 },
    StopRequested,
}

/// What the scheduler asks the surrounding runtime to do next.
/// `AttemptRegistration` is answered with `RegistrationOutcome`,
/// `SendHeartbeat` (collect a fresh snapshot, then send it) with
/// `SendCompleted`, and `Sleep` with `SleepElapsed`; `Exit` ends the process
/// with the given code; `Ignore` asks for nothing.
#[derive(Clone, Copy, Debug, PartialEq, Eq, Structural)]
pub enum Action {
    AttemptRegistration,
    SendHeartbeat,
    Sleep { duration_ms: u64 },
    Exit { code: u8 },
    Ignore,
}

/// The scheduler's invariant: a valid configuration, failure bookkeeping
/// that holds the exact backoff its count dictates and sits below the
/// escalation ceiling, a well-formed registration session while
/// registering, and a credential in hand in every phase past registration.
pub open spec fn agent_wf(a: Agent) -> bool {
    &&& config_wf(a.config)
    &&& session_wf(a.session, a.config.base_backoff_ms, a.config.backoff_cap_ms)
    &&& a.session.consecutive_failures < a.config.max_consecutive_failures
    &&& match a.phase {
        Phase::Registering { session, waiting } => reg_session_wf(session),
        Phase::AwaitingTick | Phase::Sending | Phase::Reregistering | Phase::BackingOff => a.credential is Some,
        _ => true,
    }
}

/// Counts the tick as failed: once the new count reaches the configured
/// ceiling the agent stops with a non-zero code, else it backs off for the
/// owed delay and doubles the backoff for the next failure.
pub open spec fn spec_count_failure(a: Agent) -> (Agent, Action) {
    if a.session.consecutive_failures + 1 >= a.config.max_consecutive_failures {
        (
            Agent { phase: Phase::Stopped { exit_code: EXIT_ESCALATED }, ..a },
            Action::Exit { code: EXIT_ESCALATED },
        )
    } else {
        (
            Agent {
                phase: Phase::BackingOff,
                session: spec_record_failure(a.session, a.config.backoff_cap_ms),
                ..a
            },
            Action::Sleep { duration_ms: a.session.backoff_ms },
        )
    }
}

/// What a registration outcome does during startup: a credential moves the
/// agent to the running loop with its first jittered tick scheduled; a
/// transient failure sleeps and retries; a final failure stops the process
/// with a non-zero code.
pub open spec fn spec_on_registration(
    a: Agent,
    session: RegSession,
    outcome: RegWireOutcome,
    now_ms: u64,
    entropy: u64,
) -> (Agent, Action) {
    match spec_register_node(session, outcome, now_ms) {
        RegDecision::Registered(c) => (
            Agent {
                phase: Phase::AwaitingTick,
                session: fresh_session(a.config.base_backoff_ms),
                credential: Some(c),
                ..a
            },
            Action::Sleep {
                duration_ms: spec_jittered_delay(
                    a.config.interval_ms,
                    a.config.jitter_pct,
                    entropy,
                ) as u64,
            },
        ),
        RegDecision::RetryAfter { delay_ms, session: s2 } => (
            Agent { phase: Phase::Registering { session: s2, waiting: true }, ..a },
            Action::Sleep { duration_ms: delay_ms },
        ),
        RegDecision::Failed(RegistrationError::Rejected) => (
            Agent { phase: Phase::Stopped { exit_code: EXIT_REJECTED }, ..a },
            Action::Exit { code: EXIT_REJECTED },
        ),
        RegDecision::Failed(RegistrationError::Unreachable) => (
            Agent { phase: Phase::Stopped { exit_code: EXIT_UNREACHABLE }, ..a },
            Action::Exit { code: EXIT_UNREACHABLE },
        ),
    }
}

/// After the single re-registration attempt that a fatal send triggers: a
/// granted credential replaces the old one, any other outcome leaves it in
/// place; either way the tick now counts as failed.
pub open spec fn spec_on_reregistration(a: Agent, outcome: RegWireOutcome, now_ms: u64) -> (
    Agent,
    Action,
) {
    match outcome {
        RegWireOutcome::Granted { token, expires_at_ms } => spec_count_failure(
            Agent {
                credential: Some(
                    Credential {
                        token: SecretString { value: token },
                        issued_at_ms: now_ms,
                        expires_at_ms,
                    },
                ),
                ..a
            },
        ),
        _ => spec_count_failure(a),
    }
}

/// What a completed send does: success resets the failure bookkeeping and
/// schedules the next jittered tick; a retryable failure counts against the
/// ceiling and backs off; a fatal failure triggers one re-registration
/// attempt; a malformed report is skipped - not retried, not counted - and
/// the next tick is scheduled as usual.
pub open spec fn spec_on_send_completed(a: Agent, outcome: WireOutcome, now_ms: u64, entropy: u64) -> (
    Agent,
    Action,
) {
    match spec_classify_send(outcome) {
        Ok(()) => (
            Agent {
                phase: Phase::AwaitingTick,
                session: spec_record_success(a.config.base_backoff_ms, now_ms),
                ..a
            },
            Action::Sleep {
                duration_ms: spec_jittered_delay(
                    a.config.interval_ms,
                    a.config.jitter_pct,
                    entropy,
                ) as u64,
            },
        ),
        Err(TransportError::Retryable) => spec_count_failure(a),
        Err(TransportError::Fatal) => (
            Agent { phase: Phase::Reregistering, ..a },
            Action::AttemptRegistration,
        ),
        Err(TransportError::Malformed) => (
            Agent { phase: Phase::AwaitingTick, ..a },
            Action::Sleep {
                duration_ms: spec_jittered_delay(
                    a.config.interval_ms,
                    a.config.jitter_pct,
                    entropy,
                ) as u64,
            },
        ),
    }
}

/// The whole transition relation: what each event does in each phase. An
/// event that does not belong to the current phase changes nothing and asks
/// for nothing; a stop request wins in every phase that is not already
/// stopped.
pub open spec fn spec_step(a: Agent, event: Event, entropy: u64) -> (Agent, Action) {
    match event {
        Event::StopRequested => match a.phase {
            Phase::Stopped { exit_code } => (a, Action::Ignore),
            _ => (
                Agent { phase: Phase::Stopped { exit_code: EXIT_OK }, ..a },
                Action::Exit { code: EXIT_OK },
            ),
        },
        Event::Start => match a.phase {
            Phase::Idle => (
                Agent {
                    phase: Phase::Registering { session: fresh_reg_session(), waiting: false },
                    ..a
                },
                Action::AttemptRegistration,
            ),
            _ => (a, Action::Ignore),
        },
        Event::RegistrationOutcome { outcome, now_ms } => match a.phase {
            Phase::Registering { session, waiting } => if waiting {
                (a, Action::Ignore)
            } else {
                spec_on_registration(a, session, outcome, now_ms, entropy)
            },
            Phase::Reregistering => spec_on_reregistration(a, outcome, now_ms),
            _ => (a, Action::Ignore),
        },
        Event::SleepElapsed => match a.phase {
            Phase::Registering { session, waiting } => if waiting {
                (
                    Agent { phase: Phase::Registering { session, waiting: false }, ..a },
                    Action::AttemptRegistration,
                )
            } else {
                (a, Action::Ignore)
            },
            Phase::AwaitingTick => (Agent { phase: Phase::Sending, ..a }, Action::SendHeartbeat),
            Phase::BackingOff => (Agent { phase: Phase::Sending, ..a }, Action::SendHeartbeat),
            _ => (a, Action::Ignore),
        },
        Event::SendCompleted { outcome, now_ms } => match a.phase {
            Phase::Sending => spec_on_send_completed(a, outcome, now_ms, entropy),
            _ => (a, Action::Ignore),
        },
    }
}

/// At most one send is in flight at any time: a heartbeat send is started
/// only by a step that enters `Sending` from a phase with no send
/// outstanding, and while a send is outstanding no step starts another.
pub proof fn lemma_at_most_one_send_in_flight(a: Agent, event: Event, entropy: u64)
    requires
        agent_wf(a),
    ensures
        spec_step(a, event, entropy).1 == Action::SendHeartbeat ==> a.phase != Phase::Sending
            && spec_step(a, event, entropy).0.phase == Phase::Sending,
        a.phase == Phase::Sending ==> spec_step(a, event, entropy).1 != Action::SendHeartbeat,
        spec_step(a, event, entropy).1 == Action::SendHeartbeat ==> (a.phase
            == Phase::AwaitingTick || a.phase == Phase::BackingOff),
{
}

/// Whenever a step schedules the next heartbeat tick, the delay it asks to
/// sleep lies inside the configured jitter window: successive ticks are
/// spaced by the interval, give or take at most `interval * jitter / 100`,
/// whatever the entropy draw.
pub proof fn lemma_tick_cadence_in_window(a: Agent, event: Event, entropy: u64)
    requires
        agent_wf(a),
        a.phase != Phase::AwaitingTick,
    ensures
        ({
            let r = spec_step(a, event, entropy);
            r.0.phase == Phase::AwaitingTick ==> (r.1 matches Action::Sleep { duration_ms }
                && a.config.interval_ms - spec_jitter_spread(
                a.config.interval_ms,
                a.config.jitter_pct,
            ) <= duration_ms <= a.config.interval_ms + spec_jitter_spread(
                a.config.interval_ms,
                a.config.jitter_pct,
            ))
        }),
{
    lemma_jitter_bounds(a.config.interval_ms, a.config.jitter_pct, entropy);
}

/// A rejected registration stops the agent at once with a non-zero exit
/// code; together with `lemma_stopped_is_inert`, exactly one registration
/// attempt is ever observed after a rejection.
pub proof fn lemma_rejected_registration_is_final(a: Agent, s: u16, now_ms: u64, entropy: u64)
    requires
        agent_wf(a),
        (a.phase matches Phase::Registering { session: _, waiting: false }),
        is_client_error_status(s),
    ensures
        (spec_step(
            a,
            Event::RegistrationOutcome { outcome: RegWireOutcome::Status(s), now_ms },
            entropy,
        ).0.phase == Phase::Stopped { exit_code: EXIT_REJECTED }),
        (spec_step(
            a,
            Event::RegistrationOutcome { outcome: RegWireOutcome::Status(s), now_ms },
            entropy,
        ).1 == Action::Exit { code: EXIT_REJECTED }),
{
}

/// A stopped agent is inert: every further event leaves it unchanged and
/// asks for nothing, so no registration attempt and no send ever follows a
/// stop.
pub proof fn lemma_stopped_is_inert(a: Agent, event: Event, entropy: u64, code: u8)
    requires
        (a.phase == Phase::Stopped { exit_code: code }),
    ensures
        spec_step(a, event, entropy).0 == a,
        spec_step(a, event, entropy).1 == Action::Ignore,
{
}

/// A fatal send outcome triggers exactly one re-registration attempt:
/// the step that sees the fatal outcome asks for a registration attempt, and
/// the step that receives that attempt's outcome - whatever it is - never
/// asks for another; instead the tick is then counted as failed, either
/// backing off with the failure count up by one or stopping at the ceiling.
pub proof fn lemma_fatal_triggers_one_reregistration(
    a: Agent,
    outcome: WireOutcome,
    now_ms: u64,
    entropy: u64,
    reg_outcome: RegWireOutcome,
    now2_ms: u64,
    entropy2: u64,
)
    requires
        agent_wf(a),
        a.phase == Phase::Sending,
        spec_classify_send(outcome) == Err::<(), TransportError>(TransportError::Fatal),
    ensures
        spec_step(a, Event::SendCompleted { outcome, now_ms }, entropy).1
            == Action::AttemptRegistration,
        spec_step(a, Event::SendCompleted { outcome, now_ms }, entropy).0.phase
            == Phase::Reregistering,
        ({
            let a1 = spec_step(a, Event::SendCompleted { outcome, now_ms }, entropy).0;
            let r2 = spec_step(
                a1,
                Event::RegistrationOutcome { outcome: reg_outcome, now_ms: now2_ms },
                entropy2,
            );
            &&& r2.1 != Action::AttemptRegistration
            &&& r2.1 != Action::SendHeartbeat
            &&& (r2.0.phase == Phase::BackingOff || r2.0.phase == Phase::Stopped {
                exit_code: EXIT_ESCALATED,
            })
            &&& (r2.0.phase == Phase::BackingOff ==> r2.0.session.consecutive_failures
                == a.session.consecutive_failures + 1)
        }),
{
}

impl Agent {
    /// An agent ready to start: idle, fresh failure bookkeeping, no
    /// credential yet.
    pub fn new(config: AgentConfig) -> (a: Agent)
        requires
            config_wf(config),
        ensures
            agent_wf(a),
            a.config == config,
            a.phase == Phase::Idle,
            a.credential is None,
            a.session == fresh_session(config.base_backoff_ms),
    {
        proof {
            lemma_fresh_session_wf(config.base_backoff_ms, config.backoff_cap_ms);
        }
        let session = SessionState::new(config.base_backoff_ms);
        Agent { config, phase: Phase::Idle, session, credential: None }
    }

    /// Advances the machine by one event and says what to do next. The
    /// entropy draw is consumed only when a new tick gets scheduled.
    pub fn step(self, event: Event, entropy: u64) -> (r: (Agent, Action))
        requires
            agent_wf(self),
        ensures
            r == spec_step(self, event, entropy),
            agent_wf(r.0),
    {
        match event {
            Event::StopRequested => match self.phase {
                Phase::Stopped { exit_code: _ } => (self, Action::Ignore),
                _ => (
                    Agent { phase: Phase::Stopped { exit_code: EXIT_OK }, ..self },
                    Action::Exit { code: EXIT_OK },
                ),
            },
            Event::Start => match self.phase {
                Phase::Idle => (
                    Agent {
                        phase: Phase::Registering { session: RegSession::new(), waiting: false },
                        ..self
                    },
                    Action::AttemptRegistration,
                ),
                _ => (self, Action::Ignore),
            },
            Event::RegistrationOutcome { outcome, now_ms } => match self.phase {
                Phase::Registering { session, waiting } => if waiting {
                    (self, Action::Ignore)
                } else {
                    self.on_registration(session, outcome, now_ms, entropy)
                },
                Phase::Reregistering => self.on_reregistration(outcome, now_ms),
                _ => (self, Action::Ignore),
            },
            Event::SleepElapsed => match self.phase {
                Phase::Registering { session, waiting } => if waiting {
                    (
                        Agent { phase: Phase::Registering { session, waiting: false }, ..self },
                        Action::AttemptRegistration,
                    )
                } else {
                    (self, Action::Ignore)
                },
                Phase::AwaitingTick => (
                    Agent { phase: Phase::Sending, ..self },
                    Action::SendHeartbeat,
                ),
                Phase::BackingOff => (
                    Agent { phase: Phase::Sending, ..self },
                    Action::SendHeartbeat,
                ),
                _ => (self, Action::Ignore),
            },
            Event::SendCompleted { outcome, now_ms } => match self.phase {
                Phase::Sending => self.on_send_completed(outcome, now_ms, entropy),
                _ => (self, Action::Ignore),
            },
        }
    }

    /// Handles the outcome of a startup registration attempt.
    fn on_registration(self, session: RegSession, outcome: RegWireOutcome, now_ms: u64, entropy: u64) -> (r: (Agent, Action))
        requires
            agent_wf(self),
            reg_session_wf(session),
        ensures
            r == spec_on_registration(self, session, outcome, now_ms, entropy),
            agent_wf(r.0),
    {
        match register_node(&session, outcome, now_ms) {
            RegDecision::Registered(c) => {
                proof {
                    lemma_fresh_session_wf(
                        self.config.base_backoff_ms,
                        self.config.backoff_cap_ms,
                    );
                }
                let delay = jittered_delay(self.config.interval_ms, self.config.jitter_pct, entropy);
                let fresh = SessionState::new(self.config.base_backoff_ms);
                (
                    Agent {
                        phase: Phase::AwaitingTick,
                        session: fresh,
                        credential: Some(c),
                        ..self
                    },
                    Action::Sleep { duration_ms: delay },
                )
            },
            RegDecision::RetryAfter { delay_ms, session: s2 } => (
                Agent { phase: Phase::Registering { session: s2, waiting: true }, ..self },
                Action::Sleep { duration_ms: delay_ms },
            ),
            RegDecision::Failed(RegistrationError::Rejected) => (
                Agent { phase: Phase::Stopped { exit_code: EXIT_REJECTED }, ..self },
                Action::Exit { code: EXIT_REJECTED },
            ),
            RegDecision::Failed(RegistrationError::Unreachable) => (
                Agent { phase: Phase::Stopped { exit_code: EXIT_UNREACHABLE }, ..self },
                Action::Exit { code: EXIT_UNREACHABLE },
            ),
        }
    }

    /// Handles the outcome of the one re-registration attempt after a fatal
    /// send.
    fn on_reregistration(self, outcome: RegWireOutcome, now_ms: u64) -> (r: (Agent, Action))
        requires
            agent_wf(self),
            self.credential is Some,
        ensures
            r == spec_on_reregistration(self, outcome, now_ms),
            agent_wf(r.0),
    {
        match outcome {
            RegWireOutcome::Granted { token, expires_at_ms } => Agent {
                credential: Some(
                    Credential { token: SecretString::new(token), issued_at_ms: now_ms, expires_at_ms },
                ),
                ..self
            }.count_failure(),
            RegWireOutcome::Status(_) => self.count_failure(),
            RegWireOutcome::NetworkError => self.count_failure(),
        }
    }

    /// Handles a completed heartbeat send.
    fn on_send_completed(self, outcome: WireOutcome, now_ms: u64, entropy: u64) -> (r: (Agent, Action))
        requires
            agent_wf(self),
            self.credential is Some,
        ensures
            r == spec_on_send_completed(self, outcome, now_ms, entropy),
            agent_wf(r.0),
    {
        match crate::transport::classify_send(&outcome) {
            Ok(()) => {
                proof {
                    lemma_record_success_wf(
                        self.config.base_backoff_ms,
                        self.config.backoff_cap_ms,
                        now_ms,
                    );
                }
                let delay = jittered_delay(self.config.interval_ms, self.config.jitter_pct, entropy);
                let session = self.session.record_success(self.config.base_backoff_ms, now_ms);
                (
                    Agent { phase: Phase::AwaitingTick, session, ..self },
                    Action::Sleep { duration_ms: delay },
                )
            },
            Err(TransportError::Retryable) => self.count_failure(),
            Err(TransportError::Fatal) => (
                Agent { phase: Phase::Reregistering, ..self },
                Action::AttemptRegistration,
            ),
            Err(TransportError::Malformed) => {
                let delay = jittered_delay(self.config.interval_ms, self.config.jitter_pct, entropy);
                (
                    Agent { phase: Phase::AwaitingTick, ..self },
                    Action::Sleep { duration_ms: delay },
                )
            },
        }
    }

    /// Counts the current tick as failed, stopping at the ceiling.
    fn count_failure(self) -> (r: (Agent, Action))
        requires
            agent_wf(self),
            self.credential is Some,
        ensures
            r == spec_count_failure(self),
            agent_wf(r.0),
    {
        if self.session.consecutive_failures + 1 >= self.config.max_consecutive_failures {
            (
                Agent { phase: Phase::Stopped { exit_code: EXIT_ESCALATED }, ..self },
                Action::Exit { code: EXIT_ESCALATED },
            )
        } else {
            proof {
                lemma_record_failure_wf(
                    self.session,
                    self.config.base_backoff_ms,
                    self.config.backoff_cap_ms,
                );
            }
            let delay = self.session.backoff_ms;
            let session = self.session.record_failure(self.config.backoff_cap_ms);
            (
                Agent { phase: Phase::BackingOff, session, ..self },
                Action::Sleep { duration_ms: delay },
            )
        }
    }
}

} // verus!
