//! Failure bookkeeping for the heartbeat loop: consecutive-failure count and
//! the exponentially growing, capped retry delay.

use vstd::prelude::*;
use vstd::arithmetic::power2::pow2;

verus! {

/// Per-loop session bookkeeping: how many sends have failed in a row, the
/// delay to wait before the next attempt, and when a send last succeeded.
/// It is replaced wholesale by `record_failure` / `record_success`, never
/// mutated in place.
pub struct SessionState {
    pub consecutive_failures: u32,
    pub backoff_ms: u64,
    pub last_success_ms: Option<u64>,
}

/// The backoff a session must hold after `n` consecutive failures: the base
/// delay doubled once per failure, bounded above by the cap.
pub open spec fn backoff_after(base_ms: u64, cap_ms: u64, n: nat) -> int {
    vstd::math::min(base_ms * pow2(n), cap_ms as int)
}

/// Backoff parameters are usable when the base is positive, at most the cap,
/// and the cap can still be doubled without overflowing.
pub open spec fn backoff_params_ok(base_ms: u64, cap_ms: u64) -> bool {
    &&& 1 <= base_ms <= cap_ms
    &&& cap_ms <= u64::MAX / 2
}

/// A session is well formed for given parameters exactly when its stored
/// backoff is the value its failure count dictates.
pub open spec fn session_wf(st: SessionState, base_ms: u64, cap_ms: u64) -> bool {
    st.backoff_ms == backoff_after(base_ms, cap_ms, st.consecutive_failures as nat)
}

/// A session that has seen no traffic yet: no failures, backoff at the base.
pub open spec fn fresh_session(base_ms: u64) -> SessionState {
    SessionState { consecutive_failures: 0u32, backoff_ms: base_ms, last_success_ms: None }
}

/// The session after one more failure: the count goes up by one and the
/// backoff doubles, up to the cap. The delay a caller owes before the next
/// attempt is the backoff of the state *before* this update.
pub open spec fn spec_record_failure(st: SessionState, cap_ms: u64) -> SessionState {
    SessionState {
        consecutive_failures: (st.consecutive_failures + 1) as u32,
        backoff_ms: vstd::math::min(2 * st.backoff_ms, cap_ms as int) as u64,
        last_success_ms: st.last_success_ms,
    }
}

/// The session after a success: failures cleared, backoff reset to the base,
/// the success time remembered.
pub open spec fn spec_record_success(base_ms: u64, now_ms: u64) -> SessionState {
    SessionState { consecutive_failures: 0u32, backoff_ms: base_ms, last_success_ms: Some(now_ms) }
}

impl SessionState {
    /// Starts a session with no failures and the backoff at the base delay.
    pub fn new(base_ms: u64) -> (st: SessionState)
        ensures
            st == fresh_session(base_ms),
    {
        SessionState { consecutive_failures: 0, backoff_ms: base_ms, last_success_ms: None }
    }

    /// Records one more failed send: count up by one, backoff doubled and
    /// capped. The caller waits `self.backoff_ms` (the pre-update value)
    /// before the retry.
    pub fn record_failure(&self, cap_ms: u64) -> (st: SessionState)
        requires
            self.consecutive_failures < u32::MAX,
            self.backoff_ms <= u64::MAX / 2,
        ensures
            st == spec_record_failure(*self, cap_ms),
    {
        let doubled: u64 = 2 * self.backoff_ms;
        let next: u64 = if doubled <= cap_ms {
            doubled
        } else {
            cap_ms
        };
        SessionState {
            consecutive_failures: self.consecutive_failures + 1,
            backoff_ms: next,
            last_success_ms: self.last_success_ms,
        }
    }

    /// Records a successful send: the failure count and the backoff reset,
    /// and the success time is remembered.
    pub fn record_success(&self, base_ms: u64, now_ms: u64) -> (st: SessionState)
        ensures
            st == spec_record_success(base_ms, now_ms),
    {
        SessionState {
            consecutive_failures: 0,
            backoff_ms: base_ms,
            last_success_ms: Some(now_ms),
        }
    }
}

/// A fresh session is well formed: its backoff is the base, which is what
/// zero failures dictate.
pub proof fn lemma_fresh_session_wf(base_ms: u64, cap_ms: u64)
    requires
        backoff_params_ok(base_ms, cap_ms),
    ensures
        session_wf(fresh_session(base_ms), base_ms, cap_ms),
{
    vstd::arithmetic::power2::lemma2_to64();
    assert(base_ms * pow2(0) == base_ms);
}

/// A session reset by a success is well formed for the same parameters.
pub proof fn lemma_record_success_wf(base_ms: u64, cap_ms: u64, now_ms: u64)
    requires
        backoff_params_ok(base_ms, cap_ms),
    ensures
        session_wf(spec_record_success(base_ms, now_ms), base_ms, cap_ms),
{
    vstd::arithmetic::power2::lemma2_to64();
    assert(base_ms * pow2(0) == base_ms);
}

/// Recording a failure keeps a session well formed: doubling the exact
/// backoff for `n` failures, then capping, gives the exact backoff for
/// `n + 1` failures.
pub proof fn lemma_record_failure_wf(st: SessionState, base_ms: u64, cap_ms: u64)
    requires
        backoff_params_ok(base_ms, cap_ms),
        session_wf(st, base_ms, cap_ms),
        st.consecutive_failures < u32::MAX,
    ensures
        session_wf(spec_record_failure(st, cap_ms), base_ms, cap_ms),
{
    let n = st.consecutive_failures as nat;
    vstd::arithmetic::power2::lemma_pow2_unfold((n + 1) as nat);
    vstd::arithmetic::power2::lemma_pow2_pos(n);
    assert(pow2((n + 1) as nat) == 2 * pow2(n));
    assert(base_ms * pow2((n + 1) as nat) == 2 * (base_ms * pow2(n))) by (nonlinear_arith)
        requires
            pow2((n + 1) as nat) == 2 * pow2(n),
    ;
}

/// The session reached from `st` after `n` further recorded failures.
pub open spec fn failures_from(st: SessionState, cap_ms: u64, n: nat) -> SessionState
    decreases n,
{
    if n == 0 {
        st
    } else {
        spec_record_failure(failures_from(st, cap_ms, (n - 1) as nat), cap_ms)
    }
}

/// After `n` consecutive failures recorded on a fresh session, the failure
/// count is exactly `n` and the backoff equals `min(base * 2^n, cap)`.
/// Any success then resets the backoff to the base (`spec_record_success`).
pub proof fn lemma_backoff_after_n_failures(base_ms: u64, cap_ms: u64, n: nat)
    requires
        backoff_params_ok(base_ms, cap_ms),
        n <= u32::MAX,
    ensures
        failures_from(fresh_session(base_ms), cap_ms, n).consecutive_failures == n,
        failures_from(fresh_session(base_ms), cap_ms, n).backoff_ms == backoff_after(base_ms, cap_ms, n),
    decreases n,
{
    if n == 0 {
        lemma_fresh_session_wf(base_ms, cap_ms);
    } else {
        lemma_backoff_after_n_failures(base_ms, cap_ms, (n - 1) as nat);
        let prev = failures_from(fresh_session(base_ms), cap_ms, (n - 1) as nat);
        lemma_record_failure_wf(prev, base_ms, cap_ms);
    }
}

} // verus!
