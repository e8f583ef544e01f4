//! The registration client: one-time identity registration against the
//! controller, retried with bounded exponential backoff, driven as one
//! decision per attempt outcome.

use vstd::prelude::*;
use crate::config::SecretString;
use crate::transport::is_client_error_status;

verus! {

/// Base delay before the second registration attempt, in milliseconds.
pub const REG_BASE_BACKOFF_MS: u64 = 1000;

/// Ceiling on the delay between registration attempts, in milliseconds.
pub const REG_BACKOFF_CAP_MS: u64 = 30000;

/// How many registration attempts are made in all before giving up.
pub const REG_MAX_ATTEMPTS: u32 = 5;

/// The durable credential obtained at registration, replaced wholesale on
/// renewal and never mutated in place.
pub struct Credential {
    pub token: SecretString,
    pub issued_at_ms: u64,
    pub expires_at_ms: Option<u64>,
}

/// Registration failures. `Rejected` (the controller answered any 4xx) is
/// fatal and never retried; `Unreachable` comes only once the attempt budget
/// is spent on server errors or network failures.
#[derive(Clone, Copy, Debug, PartialEq, Eq, Structural)]
pub enum RegistrationError {
    Rejected,
    Unreachable,
}

/// What one `POST /register` attempt came to. `Granted` is an HTTP 2xx whose
/// body parsed to a credential; a 2xx whose body did not parse is reported as
/// `Status` with the success code and treated as a transient server fault.
pub enum RegWireOutcome {
    Granted { token: String, expires_at_ms: Option<u64> },
    Status(u16),
    NetworkError,
}

/// Retry bookkeeping of the registration client: how many attempts were
/// already made and the delay owed before the next one.
#[derive(Clone, Copy, Debug, PartialEq, Eq, Structural)]
pub struct RegSession {
    pub attempts_made: u32,
    pub next_retry_delay_ms: u64,
}

/// A registration session still has attempts left and a positive, capped
/// retry delay.
pub open spec fn reg_session_wf(s: RegSession) -> bool {
    &&& s.attempts_made < REG_MAX_ATTEMPTS
    &&& 1 <= s.next_retry_delay_ms <= REG_BACKOFF_CAP_MS
}

/// The session before the first attempt.
pub open spec fn fresh_reg_session() -> RegSession {
    RegSession { attempts_made: 0u32, next_retry_delay_ms: REG_BASE_BACKOFF_MS }
}

impl RegSession {
    /// Starts the registration client: no attempts made, the base delay owed
    /// if the first attempt fails transiently.
    pub fn new() -> (s: RegSession)
        ensures
            s == fresh_reg_session(),
            reg_session_wf(s),
    {
        RegSession { attempts_made: 0, next_retry_delay_ms: REG_BASE_BACKOFF_MS }
    }
}

/// What the registration client decides after one attempt: done with a
/// credential, retry after a delay, or failed for good.
pub enum RegDecision {
    Registered(Credential),
    RetryAfter { delay_ms: u64, session: RegSession },
    Failed(RegistrationError),
}

/// The decision after a transient failure: retry after the owed delay with
/// the delay doubled (capped), unless the attempt budget is now spent, in
/// which case the controller counts as unreachable.
pub open spec fn spec_reg_retry(session: RegSession) -> RegDecision {
    if session.attempts_made + 1 >= REG_MAX_ATTEMPTS {
        RegDecision::Failed(RegistrationError::Unreachable)
    } else {
        RegDecision::RetryAfter {
            delay_ms: session.next_retry_delay_ms,
            session: RegSession {
                attempts_made: (session.attempts_made + 1) as u32,
                next_retry_delay_ms: vstd::math::min(
                    2 * session.next_retry_delay_ms,
                    REG_BACKOFF_CAP_MS as int,
                ) as u64,
            },
        }
    }
}

/// The decision after one attempt: a parsed credential wins; any 4xx is
/// `Rejected` with no retry; anything else takes the retry path.
pub open spec fn spec_register_node(
    session: RegSession,
    outcome: RegWireOutcome,
    now_ms: u64,
) -> RegDecision {
    match outcome {
        RegWireOutcome::Granted { token, expires_at_ms } => RegDecision::Registered(
            Credential {
                token: SecretString { value: token },
                issued_at_ms: now_ms,
                expires_at_ms,
            },
        ),
        RegWireOutcome::Status(s) => if is_client_error_status(s) {
            RegDecision::Failed(RegistrationError::Rejected)
        } else {
            spec_reg_retry(session)
        },
        RegWireOutcome::NetworkError => spec_reg_retry(session),
    }
}

/// Takes the retry path after a transient registration failure.
fn reg_retry(session: &RegSession) -> (d: RegDecision)
    requires
        reg_session_wf(*session),
    ensures
        d == spec_reg_retry(*session),
{
    let attempts: u32 = session.attempts_made + 1;
    if attempts >= REG_MAX_ATTEMPTS {
        RegDecision::Failed(RegistrationError::Unreachable)
    } else {
        let doubled: u64 = 2 * session.next_retry_delay_ms;
        let next_delay: u64 = if doubled <= REG_BACKOFF_CAP_MS {
            doubled
        } else {
            REG_BACKOFF_CAP_MS
        };
        RegDecision::RetryAfter {
            delay_ms: session.next_retry_delay_ms,
            session: RegSession { attempts_made: attempts, next_retry_delay_ms: next_delay },
        }
    }
}

/// Decides what the registration client does after one `POST /register`
/// attempt: a 2xx with a parsable credential body yields the credential
/// issued now; any 4xx is `Rejected`, fatal and never retried; server
/// errors, unexpected statuses and network failures are retried with
/// exponential backoff (base 1 s, factor 2, cap 30 s) until the budget of
/// 5 attempts is spent, after which the controller is `Unreachable`.
pub fn register_node(session: &RegSession, outcome: RegWireOutcome, now_ms: u64) -> (d:
    RegDecision)
    requires
        reg_session_wf(*session),
    ensures
        d == spec_register_node(*session, outcome, now_ms),
        (forall|s: u16|
            outcome == RegWireOutcome::Status(s) && is_client_error_status(s) ==> d
                matches RegDecision::Failed(RegistrationError::Rejected)),
        (d matches RegDecision::RetryAfter { delay_ms, session: s2 } ==> reg_session_wf(s2) && 1
            <= delay_ms <= REG_BACKOFF_CAP_MS),
{
    match outcome {
        RegWireOutcome::Granted { token, expires_at_ms } => RegDecision::Registered(
            Credential { token: SecretString::new(token), issued_at_ms: now_ms, expires_at_ms },
        ),
        RegWireOutcome::Status(s) => {
            if 400 <= s && s < 500 {
                RegDecision::Failed(RegistrationError::Rejected)
            } else {
                reg_retry(session)
            }
        },
        RegWireOutcome::NetworkError => reg_retry(session),
    }
}

} // verus!
