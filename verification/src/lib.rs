//! hermesd core: node registration, heartbeat scheduling, and metrics
//! collection for an agent that checks in with a controller service.

use vstd::prelude::*;

pub mod backoff;
pub mod cli;
pub mod config;
pub mod metrics;
pub mod registration;
pub mod scheduler;
pub mod transport;

verus! {

/// Exit code for a graceful stop.
pub const EXIT_OK: u8 = 0;

/// Exit code when the controller rejects registration outright.
pub const EXIT_REJECTED: u8 = 2;

/// Exit code when the controller stays unreachable through every
/// registration attempt.
pub const EXIT_UNREACHABLE: u8 = 3;

/// Exit code when consecutive send failures reach the configured ceiling.
pub const EXIT_ESCALATED: u8 = 4;

} // verus!
