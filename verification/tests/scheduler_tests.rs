use hermesd::config::{AgentConfig, SecretString};
use hermesd::registration::RegWireOutcome;
use hermesd::scheduler::{Action, Agent, Event, Phase, jittered_delay};
use hermesd::transport::WireOutcome;
use hermesd::{EXIT_ESCALATED, EXIT_OK, EXIT_REJECTED, EXIT_UNREACHABLE};

fn test_config(max_consecutive_failures: u32) -> AgentConfig {
    AgentConfig::new(
        String::from("https://controller.example"),
        SecretString::new(String::from("seed-token")),
        String::from("node-1"),
        60000, // interval: 60 s
        10,    // jitter: 10 %
        1000,  // base backoff: 1 s
        30000, // backoff cap: 30 s
        max_consecutive_failures,
        10000, // request timeout: 10 s
        Vec::new(),
    )
    .expect("the test configuration is valid")
}

fn granted(token: &str) -> RegWireOutcome {
    RegWireOutcome::Granted { token: String::from(token), expires_at_ms: None }
}

fn in_jitter_window(d: u64) {
    assert!(
        (54000..=66000).contains(&d),
        "tick delay {} outside the 60s +/- 10% window",
        d
    );
}

#[test]
fn startup_registers_then_schedules_first_tick() {
    let agent = Agent::new(test_config(10));
    let (agent, action) = agent.step(Event::Start, 0);
    assert_eq!(action, Action::AttemptRegistration);
    let (agent, action) = agent.step(
        Event::RegistrationOutcome { outcome: granted("cred-1"), now_ms: 17 },
        12345,
    );
    match action {
        Action::Sleep { duration_ms } => in_jitter_window(duration_ms),
        _ => panic!("a granted registration schedules the first tick"),
    }
    assert!(matches!(agent.phase, Phase::AwaitingTick));
    assert_eq!(agent.credential.as_ref().unwrap().token.value, "cred-1");
    assert_eq!(agent.credential.as_ref().unwrap().issued_at_ms, 17);
}

// Scenario: a rejected registration exits non-zero with no heartbeat tick
// ever attempted.
#[test]
fn rejected_registration_exits_without_any_tick() {
    let agent = Agent::new(test_config(10));
    let mut sends: u32 = 0;
    let (agent, action) = agent.step(Event::Start, 0);
    if action == Action::SendHeartbeat {
        sends += 1;
    }
    assert_eq!(action, Action::AttemptRegistration);
    let (agent, action) = agent.step(
        Event::RegistrationOutcome { outcome: RegWireOutcome::Status(403), now_ms: 1 },
        0,
    );
    if action == Action::SendHeartbeat {
        sends += 1;
    }
    assert_eq!(action, Action::Exit { code: EXIT_REJECTED });
    assert_ne!(EXIT_REJECTED, 0);
    assert!(matches!(agent.phase, Phase::Stopped { exit_code: EXIT_REJECTED }));
    // A stopped agent is inert: nothing later ever starts a send.
    let (agent, action) = agent.step(Event::SleepElapsed, 0);
    assert_eq!(action, Action::Ignore);
    let (_, action) = agent.step(
        Event::SendCompleted { outcome: WireOutcome::Status(200), now_ms: 2 },
        0,
    );
    assert_eq!(action, Action::Ignore);
    assert_eq!(sends, 0, "no heartbeat may ever be attempted");
}

#[test]
fn unreachable_controller_exits_after_five_attempts() {
    let mut agent = Agent::new(test_config(10));
    let mut attempts: u32 = 0;
    let (next, action) = agent.step(Event::Start, 0);
    agent = next;
    assert_eq!(action, Action::AttemptRegistration);
    attempts += 1;
    let mut waits: Vec<u64> = Vec::new();
    loop {
        let (next, action) = agent.step(
            Event::RegistrationOutcome { outcome: RegWireOutcome::NetworkError, now_ms: 0 },
            0,
        );
        agent = next;
        match action {
            Action::Sleep { duration_ms } => {
                waits.push(duration_ms);
                let (next, action) = agent.step(Event::SleepElapsed, 0);
                agent = next;
                assert_eq!(action, Action::AttemptRegistration);
                attempts += 1;
            },
            Action::Exit { code } => {
                assert_eq!(code, EXIT_UNREACHABLE);
                assert_ne!(code, 0);
                break;
            },
            _ => panic!("unexpected action during registration retries"),
        }
    }
    assert_eq!(attempts, 5);
    assert_eq!(waits, vec![1000, 2000, 4000, 8000]);
}

// Scenario: interval 60 s, jitter 10 %, base backoff 1 s, cap 30 s. Three
// consecutive network timeouts on send are retried after 1 s, 2 s and 4 s;
// the fourth attempt succeeds, resets the failure count, and the normal
// jittered cadence resumes.
#[test]
fn three_timeouts_then_success_resumes_cadence() {
    let mut agent = Agent::new(test_config(10));
    let (next, _) = agent.step(Event::Start, 0);
    agent = next;
    let (next, action) = agent.step(
        Event::RegistrationOutcome { outcome: granted("cred"), now_ms: 0 },
        7,
    );
    agent = next;
    match action {
        Action::Sleep { duration_ms } => in_jitter_window(duration_ms),
        _ => panic!("expected the first tick to be scheduled"),
    }
    let mut waits: Vec<u64> = Vec::new();
    for _ in 0..3 {
        let (next, action) = agent.step(Event::SleepElapsed, 0);
        agent = next;
        assert_eq!(action, Action::SendHeartbeat);
        let (next, action) = agent.step(
            Event::SendCompleted { outcome: WireOutcome::TimedOut, now_ms: 0 },
            0,
        );
        agent = next;
        match action {
            Action::Sleep { duration_ms } => waits.push(duration_ms),
            _ => panic!("a timeout backs off and retries"),
        }
    }
    assert_eq!(waits, vec![1000, 2000, 4000]);
    // Fourth attempt succeeds.
    let (next, action) = agent.step(Event::SleepElapsed, 0);
    agent = next;
    assert_eq!(action, Action::SendHeartbeat);
    let (next, action) = agent.step(
        Event::SendCompleted { outcome: WireOutcome::Status(200), now_ms: 99 },
        31337,
    );
    agent = next;
    assert_eq!(agent.session.consecutive_failures, 0);
    assert_eq!(agent.session.backoff_ms, 1000);
    assert_eq!(agent.session.last_success_ms, Some(99));
    match action {
        Action::Sleep { duration_ms } => in_jitter_window(duration_ms),
        _ => panic!("a success resumes the normal cadence"),
    }
}

// Scenario: a fatal transport error triggers exactly one re-registration
// attempt before the tick is counted as failed.
#[test]
fn fatal_send_triggers_exactly_one_reregistration() {
    let mut agent = Agent::new(test_config(10));
    let (next, _) = agent.step(Event::Start, 0);
    agent = next;
    let mut registrations: u32 = 1; // the startup attempt just requested
    let (next, _) = agent.step(
        Event::RegistrationOutcome { outcome: granted("old-cred"), now_ms: 0 },
        0,
    );
    agent = next;
    let (next, action) = agent.step(Event::SleepElapsed, 0);
    agent = next;
    assert_eq!(action, Action::SendHeartbeat);
    let (next, action) = agent.step(
        Event::SendCompleted { outcome: WireOutcome::Status(401), now_ms: 5 },
        0,
    );
    agent = next;
    assert_eq!(action, Action::AttemptRegistration);
    registrations += 1;
    assert!(matches!(agent.phase, Phase::Reregistering));
    // Whatever the one attempt returns, no further attempt is requested and
    // the tick counts as failed.
    let (next, action) = agent.step(
        Event::RegistrationOutcome { outcome: granted("new-cred"), now_ms: 6 },
        0,
    );
    agent = next;
    assert_ne!(action, Action::AttemptRegistration);
    assert_eq!(action, Action::Sleep { duration_ms: 1000 });
    assert!(matches!(agent.phase, Phase::BackingOff));
    assert_eq!(agent.session.consecutive_failures, 1);
    assert_eq!(agent.credential.as_ref().unwrap().token.value, "new-cred");
    assert_eq!(registrations, 2);
    // The backed-off retry is an ordinary send, not another registration.
    let (_, action) = agent.step(Event::SleepElapsed, 0);
    assert_eq!(action, Action::SendHeartbeat);
}

#[test]
fn failure_ceiling_escalates_to_exit() {
    let mut agent = Agent::new(test_config(2));
    let (next, _) = agent.step(Event::Start, 0);
    agent = next;
    let (next, _) = agent.step(
        Event::RegistrationOutcome { outcome: granted("cred"), now_ms: 0 },
        0,
    );
    agent = next;
    let (next, action) = agent.step(Event::SleepElapsed, 0);
    agent = next;
    assert_eq!(action, Action::SendHeartbeat);
    let (next, action) = agent.step(
        Event::SendCompleted { outcome: WireOutcome::Status(500), now_ms: 0 },
        0,
    );
    agent = next;
    assert_eq!(action, Action::Sleep { duration_ms: 1000 });
    let (next, action) = agent.step(Event::SleepElapsed, 0);
    agent = next;
    assert_eq!(action, Action::SendHeartbeat);
    let (agent, action) = agent.step(
        Event::SendCompleted { outcome: WireOutcome::TimedOut, now_ms: 0 },
        0,
    );
    assert_eq!(action, Action::Exit { code: EXIT_ESCALATED });
    assert_ne!(EXIT_ESCALATED, 0);
    assert!(matches!(agent.phase, Phase::Stopped { exit_code: EXIT_ESCALATED }));
}

#[test]
fn malformed_report_skips_tick_without_counting_failure() {
    let mut agent = Agent::new(test_config(10));
    let (next, _) = agent.step(Event::Start, 0);
    agent = next;
    let (next, _) = agent.step(
        Event::RegistrationOutcome { outcome: granted("cred"), now_ms: 0 },
        0,
    );
    agent = next;
    let (next, _) = agent.step(Event::SleepElapsed, 0);
    agent = next;
    let (agent, action) = agent.step(
        Event::SendCompleted { outcome: WireOutcome::Status(422), now_ms: 0 },
        42,
    );
    match action {
        Action::Sleep { duration_ms } => in_jitter_window(duration_ms),
        _ => panic!("a malformed report skips to the next tick"),
    }
    assert_eq!(agent.session.consecutive_failures, 0);
    assert!(matches!(agent.phase, Phase::AwaitingTick));
}

#[test]
fn stop_request_wins_before_the_next_sleep() {
    let mut agent = Agent::new(test_config(10));
    let (next, _) = agent.step(Event::Start, 0);
    agent = next;
    let (next, _) = agent.step(
        Event::RegistrationOutcome { outcome: granted("cred"), now_ms: 0 },
        0,
    );
    agent = next;
    let (agent, action) = agent.step(Event::StopRequested, 0);
    assert_eq!(action, Action::Exit { code: EXIT_OK });
    assert_eq!(EXIT_OK, 0);
    assert!(matches!(agent.phase, Phase::Stopped { exit_code: EXIT_OK }));
    let (_, action) = agent.step(Event::SleepElapsed, 0);
    assert_eq!(action, Action::Ignore);
}

// While a send is in flight, no event can start a second one: at most one
// send is ever outstanding.
#[test]
fn no_second_send_while_one_is_in_flight() {
    let mut agent = Agent::new(test_config(10));
    let (next, _) = agent.step(Event::Start, 0);
    agent = next;
    let (next, _) = agent.step(
        Event::RegistrationOutcome { outcome: granted("cred"), now_ms: 0 },
        0,
    );
    agent = next;
    let (next, action) = agent.step(Event::SleepElapsed, 0);
    agent = next;
    assert_eq!(action, Action::SendHeartbeat);
    // The send is now in flight; events other than its completion start
    // nothing new.
    let (next, action) = agent.step(Event::SleepElapsed, 0);
    agent = next;
    assert_eq!(action, Action::Ignore);
    let (next, action) = agent.step(Event::Start, 0);
    agent = next;
    assert_eq!(action, Action::Ignore);
    let (next, action) = agent.step(
        Event::RegistrationOutcome { outcome: granted("other"), now_ms: 0 },
        0,
    );
    agent = next;
    assert_eq!(action, Action::Ignore);
    // Only the completion of the outstanding send moves the loop on.
    let (_, action) = agent.step(
        Event::SendCompleted { outcome: WireOutcome::Status(200), now_ms: 1 },
        0,
    );
    assert!(matches!(action, Action::Sleep { duration_ms: _ }));
}

// Every tick delay stays inside the configured jitter window, whatever the
// entropy draw.
#[test]
fn jittered_delay_stays_in_window() {
    for entropy in [0u64, 1, 5999, 6000, 6001, 12000, 12001, 999999, u64::MAX] {
        let d = jittered_delay(60000, 10, entropy);
        in_jitter_window(d);
    }
    // Without jitter the delay is exactly the interval.
    for entropy in [0u64, 7, u64::MAX] {
        assert_eq!(jittered_delay(60000, 0, entropy), 60000);
    }
    // The entropy draw picks the exact offset inside the window.
    assert_eq!(jittered_delay(60000, 10, 0), 54000);
    assert_eq!(jittered_delay(60000, 10, 6000), 60000);
    assert_eq!(jittered_delay(60000, 10, 12000), 66000);
    assert_eq!(jittered_delay(60000, 10, 12001), 54000);
}
