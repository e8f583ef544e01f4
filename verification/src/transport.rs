//! Classification of controller responses for the check-in transport.

use vstd::prelude::*;

verus! {

/// What one wire interaction with the controller came to: an HTTP status
/// answered by the controller, or a network-level failure seen locally.
#[derive(Clone, Copy, Debug, PartialEq, Eq, Structural)]
pub enum WireOutcome {
    Status(u16),
    TimedOut,
    ConnectionReset,
}

/// Failure classes of the check-in transport. `Retryable` failures are
/// recovered with backoff; `Fatal` means the credential is no longer valid;
/// `Malformed` means the controller rejected this report, which is not
/// retried.
#[derive(Clone, Copy, Debug, PartialEq, Eq, Structural)]
pub enum TransportError {
    Retryable,
    Fatal,
    Malformed,
}

/// HTTP statuses that report success.
pub open spec fn is_success_status(s: u16) -> bool {
    200 <= s < 300
}

/// HTTP statuses that report an invalid credential.
pub open spec fn is_auth_failure_status(s: u16) -> bool {
    s == 401 || s == 403
}

/// HTTP statuses that report a client error.
pub open spec fn is_client_error_status(s: u16) -> bool {
    400 <= s < 500
}

/// How a check-in outcome is classified: 2xx succeeds; 401 and 403 are fatal
/// (the credential is invalid); any other 4xx means this report was rejected
/// (malformed); everything else - 5xx, unexpected statuses, timeouts,
/// connection resets - is retryable.
pub open spec fn spec_classify_send(o: WireOutcome) -> Result<(), TransportError> {
    match o {
        WireOutcome::Status(s) => if is_success_status(s) {
            Ok(())
        } else if is_auth_failure_status(s) {
            Err(TransportError::Fatal)
        } else if is_client_error_status(s) {
            Err(TransportError::Malformed)
        } else {
            Err(TransportError::Retryable)
        },
        WireOutcome::TimedOut => Err(TransportError::Retryable),
        WireOutcome::ConnectionReset => Err(TransportError::Retryable),
    }
}

/// Classifies the outcome of one check-in send.
pub fn classify_send(o: &WireOutcome) -> (r: Result<(), TransportError>)
    ensures
        r == spec_classify_send(*o),
{
    match o {
        WireOutcome::Status(s) => {
            let code = *s;
            if 200 <= code && code < 300 {
                Ok(())
            } else if code == 401 || code == 403 {
                Err(TransportError::Fatal)
            } else if 400 <= code && code < 500 {
                Err(TransportError::Malformed)
            } else {
                Err(TransportError::Retryable)
            }
        },
        WireOutcome::TimedOut => Err(TransportError::Retryable),
        WireOutcome::ConnectionReset => Err(TransportError::Retryable),
    }
}

} // verus!
