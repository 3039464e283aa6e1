//! Retry decision logic for command execution: the fixed-count retry with
//! growing delay that every command runner follows, and the bounded retry
//! with overall timeout that the wireless connector follows.  The caller
//! performs the command and the waiting; these functions only decide.

use vstd::prelude::*;
use crate::text::contains_seq;
use crate::text::str_contains;

verus! {

/// The most failed attempts a command runner tolerates before it returns
/// the last error.
pub const MAX_COMMAND_ATTEMPTS: u32 = 2;

/// What a command runner does after a failed attempt.
#[derive(Debug, Clone, PartialEq, Eq)]
pub enum RetryDecision {
    /// Try again as attempt `attempt`, after waiting `delay_ms`.
    Retry { attempt: u32, delay_ms: u64 },
    /// Return the error of the attempt that just failed.
    GiveUp,
}

/// The decision after the attempt numbered `attempt` (counted from zero)
/// has failed: retry with a delay that grows by a hundred milliseconds per
/// attempt, until the attempt limit is reached.
pub fn next_attempt(attempt: u32) -> (r: RetryDecision)
    ensures
        attempt >= MAX_COMMAND_ATTEMPTS ==> r == RetryDecision::GiveUp,
        attempt < MAX_COMMAND_ATTEMPTS ==> r == (RetryDecision::Retry {
            attempt: (attempt + 1) as u32,
            delay_ms: (100 * (attempt + 1)) as u64,
        }),
{
    if attempt >= MAX_COMMAND_ATTEMPTS {
        RetryDecision::GiveUp
    } else {
        let next = attempt + 1;
        RetryDecision::Retry { attempt: next, delay_ms: 100 * (next as u64) }
    }
}

/// The most connection attempts the wireless connector makes.
pub const MAX_CONNECT_RETRIES: u32 = 5;

/// The wait between wireless connection attempts, in milliseconds.
pub const CONNECT_RETRY_DELAY_MS: u64 = 2000;

/// The overall wireless connection time budget, in milliseconds.
pub const CONNECT_TIMEOUT_MS: u64 = 10000;

/// What the wireless connector does after one connection attempt.
#[derive(Debug, Clone, PartialEq, Eq)]
pub enum ConnectDecision {
    /// The output reports a connection: stop with success.
    Connected,
    /// The time budget is spent: stop with a connection timeout error.
    TimedOut,
    /// Wait the retry delay and try again.
    RetryAfter(u64),
    /// All attempts are spent: stop with a retry-failure error.
    GiveUp,
}

/// The decision after connection attempt `attempt` (counted from one)
/// produced `output` with `elapsed_ms` already spent: success when the
/// output reports a connection, a timeout once the budget is exceeded,
/// otherwise another attempt while any remain.
pub fn connect_decision(attempt: u32, elapsed_ms: u64, output: &str) -> (r: ConnectDecision)
    requires
        1 <= attempt <= MAX_CONNECT_RETRIES,
    ensures
        contains_seq(output@, "connected"@) ==> r == ConnectDecision::Connected,
        !contains_seq(output@, "connected"@) && elapsed_ms > CONNECT_TIMEOUT_MS ==> r
            == ConnectDecision::TimedOut,
        !contains_seq(output@, "connected"@) && elapsed_ms <= CONNECT_TIMEOUT_MS && attempt
            < MAX_CONNECT_RETRIES ==> r == ConnectDecision::RetryAfter(CONNECT_RETRY_DELAY_MS),
        !contains_seq(output@, "connected"@) && elapsed_ms <= CONNECT_TIMEOUT_MS && attempt
            == MAX_CONNECT_RETRIES ==> r == ConnectDecision::GiveUp,
{
    if str_contains(output, "connected") {
        ConnectDecision::Connected
    } else if elapsed_ms > CONNECT_TIMEOUT_MS {
        ConnectDecision::TimedOut
    } else if attempt < MAX_CONNECT_RETRIES {
        ConnectDecision::RetryAfter(CONNECT_RETRY_DELAY_MS)
    } else {
        ConnectDecision::GiveUp
    }
}

} // verus!
