use hermesd::registration::{
    RegDecision, RegSession, RegWireOutcome, RegistrationError, register_node,
};

#[test]
fn granted_returns_credential() {
    let session = RegSession::new();
    let outcome = RegWireOutcome::Granted { token: String::from("tok-1"), expires_at_ms: Some(900) };
    match register_node(&session, outcome, 5) {
        RegDecision::Registered(c) => {
            assert_eq!(c.token.value, "tok-1");
            assert_eq!(c.issued_at_ms, 5);
            assert_eq!(c.expires_at_ms, Some(900));
        },
        _ => panic!("expected a credential"),
    }
}

#[test]
fn rejected_is_fatal_and_never_retried() {
    let session = RegSession::new();
    match register_node(&session, RegWireOutcome::Status(403), 0) {
        RegDecision::Failed(RegistrationError::Rejected) => {},
        _ => panic!("a 403 must reject registration outright"),
    }
    // A rejection is final at any point of the retry schedule as well.
    let later = RegSession { attempts_made: 3, next_retry_delay_ms: 8000 };
    match register_node(&later, RegWireOutcome::Status(400), 0) {
        RegDecision::Failed(RegistrationError::Rejected) => {},
        _ => panic!("a 4xx must never take the retry path"),
    }
}

#[test]
fn network_failures_back_off_exponentially() {
    let mut session = RegSession::new();
    let mut delays: Vec<u64> = Vec::new();
    let mut attempts: u32 = 0;
    loop {
        attempts += 1;
        match register_node(&session, RegWireOutcome::NetworkError, 0) {
            RegDecision::RetryAfter { delay_ms, session: next } => {
                delays.push(delay_ms);
                session = next;
            },
            RegDecision::Failed(RegistrationError::Unreachable) => break,
            _ => panic!("network failures either retry or end unreachable"),
        }
    }
    assert_eq!(attempts, 5);
    assert_eq!(delays, vec![1000, 2000, 4000, 8000]);
}

#[test]
fn server_error_takes_retry_path() {
    let session = RegSession::new();
    match register_node(&session, RegWireOutcome::Status(503), 0) {
        RegDecision::RetryAfter { delay_ms, session: next } => {
            assert_eq!(delay_ms, 1000);
            assert_eq!(next.attempts_made, 1);
            assert_eq!(next.next_retry_delay_ms, 2000);
        },
        _ => panic!("a 5xx must be retried"),
    }
}

#[test]
fn success_status_without_credential_is_transient() {
    let session = RegSession::new();
    match register_node(&session, RegWireOutcome::Status(200), 0) {
        RegDecision::RetryAfter { delay_ms, session: _ } => assert_eq!(delay_ms, 1000),
        _ => panic!("a 2xx whose body did not parse is retried"),
    }
}
