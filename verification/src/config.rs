//! The agent's validated configuration and the secret-token wrapper.

use vstd::prelude::*;
use crate::backoff::backoff_params_ok;

verus! {

/// Longest accepted heartbeat interval: one day, in milliseconds.
pub const MAX_INTERVAL_MS: u64 = 86400000;

/// A token that must not appear in logs or serialized output. Nothing in
/// this library writes the held value to any sink; rendering for operators
/// goes through `masked`.
pub struct SecretString {
    pub value: String,
}

impl SecretString {
    /// Wraps a token value.
    pub fn new(value: String) -> (s: SecretString)
        ensures
            s == (SecretString { value: value }),
    {
        SecretString { value }
    }

    /// The fixed rendering used wherever a token would otherwise be shown;
    /// it never depends on the held value.
    pub fn masked(&self) -> (r: &'static str)
        ensures
            r@ == "[redacted]"@,
    {
        "[redacted]"
    }
}

/// Everything the core needs from the front end, immutable after
/// construction: where the controller lives, how to authenticate, how often
/// to check in, and the retry policy.
pub struct AgentConfig {
    pub controller_uri: String,
    pub token: SecretString,
    pub node_id: String,
    pub interval_ms: u64,
    pub jitter_pct: u64,
    pub base_backoff_ms: u64,
    pub backoff_cap_ms: u64,
    pub max_consecutive_failures: u32,
    pub request_timeout_ms: u64,
    pub custom_properties: Vec<(String, String)>,
}

/// Rejected configurations, one variant per rule.
#[derive(Clone, Copy, Debug, PartialEq, Eq, Structural)]
pub enum ConfigError {
    IntervalZero,
    IntervalTooLarge,
    JitterTooLarge,
    BackoffInvalid,
    FailureLimitInvalid,
    TimeoutZero,
}

/// The rules a configuration must meet: an interval between one millisecond
/// and one day, jitter at most 100 percent, usable backoff parameters, a
/// positive failure limit that leaves room to count one past it, and a
/// positive request timeout.
pub open spec fn config_wf(c: AgentConfig) -> bool {
    &&& 1 <= c.interval_ms <= MAX_INTERVAL_MS
    &&& c.jitter_pct <= 100
    &&& backoff_params_ok(c.base_backoff_ms, c.backoff_cap_ms)
    &&& 1 <= c.max_consecutive_failures < u32::MAX
    &&& 1 <= c.request_timeout_ms
}

/// Which rule a candidate configuration breaks first, if any; the checks run
/// in the order of the `config_wf` conjuncts.
pub open spec fn spec_validate(
    interval_ms: u64,
    jitter_pct: u64,
    base_backoff_ms: u64,
    backoff_cap_ms: u64,
    max_consecutive_failures: u32,
    request_timeout_ms: u64,
) -> Result<(), ConfigError> {
    if interval_ms == 0 {
        Err(ConfigError::IntervalZero)
    } else if interval_ms > MAX_INTERVAL_MS {
        Err(ConfigError::IntervalTooLarge)
    } else if jitter_pct > 100 {
        Err(ConfigError::JitterTooLarge)
    } else if !backoff_params_ok(base_backoff_ms, backoff_cap_ms) {
        Err(ConfigError::BackoffInvalid)
    } else if max_consecutive_failures == 0 || max_consecutive_failures == u32::MAX {
        Err(ConfigError::FailureLimitInvalid)
    } else if request_timeout_ms == 0 {
        Err(ConfigError::TimeoutZero)
    } else {
        Ok(())
    }
}

impl AgentConfig {
    /// Builds a configuration, accepting it exactly when every rule of
    /// `config_wf` holds and otherwise naming the first broken rule.
    pub fn new(
        controller_uri: String,
        token: SecretString,
        node_id: String,
        interval_ms: u64,
        jitter_pct: u64,
        base_backoff_ms: u64,
        backoff_cap_ms: u64,
        max_consecutive_failures: u32,
        request_timeout_ms: u64,
        custom_properties: Vec<(String, String)>,
    ) -> (r: Result<AgentConfig, ConfigError>)
        ensures
            r is Ok <==> spec_validate(
                interval_ms,
                jitter_pct,
                base_backoff_ms,
                backoff_cap_ms,
                max_consecutive_failures,
                request_timeout_ms,
            ) is Ok,
            (r matches Err(e) ==> spec_validate(
                interval_ms,
                jitter_pct,
                base_backoff_ms,
                backoff_cap_ms,
                max_consecutive_failures,
                request_timeout_ms,
            ) == Err::<(), ConfigError>(e)),
            (r matches Ok(c) ==> {
                &&& c == (AgentConfig {
                    controller_uri,
                    token,
                    node_id,
                    interval_ms,
                    jitter_pct,
                    base_backoff_ms,
                    backoff_cap_ms,
                    max_consecutive_failures,
                    request_timeout_ms,
                    custom_properties,
                })
                &&& config_wf(c)
            }),
    {
        if interval_ms == 0 {
            Err(ConfigError::IntervalZero)
        } else if interval_ms > MAX_INTERVAL_MS {
            Err(ConfigError::IntervalTooLarge)
        } else if jitter_pct > 100 {
            Err(ConfigError::JitterTooLarge)
        } else if base_backoff_ms == 0 || base_backoff_ms > backoff_cap_ms
            || backoff_cap_ms > u64::MAX / 2 {
            Err(ConfigError::BackoffInvalid)
        } else if max_consecutive_failures == 0 || max_consecutive_failures == u32::MAX {
            Err(ConfigError::FailureLimitInvalid)
        } else if request_timeout_ms == 0 {
            Err(ConfigError::TimeoutZero)
        } else {
            Ok(AgentConfig {
                controller_uri,
                token,
                node_id,
                interval_ms,
                jitter_pct,
                base_backoff_ms,
                backoff_cap_ms,
                max_consecutive_failures,
                request_timeout_ms,
                custom_properties,
            })
        }
    }
}

} // verus!
