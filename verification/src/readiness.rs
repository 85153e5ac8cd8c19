//! Waiting for the runtime to be ready: no request goes to it before its
//! socket file is there. The caller looks for the file, says what it saw and
//! how long it has waited, and is told what to do next.

use vstd::prelude::*;

verus! {

/// How long the caller sleeps between two looks, in milliseconds.
pub const SOCKET_POLL_INTERVAL_MS: u64 = 20;

/// How long the caller waits for the socket file at most, in milliseconds.
pub const SOCKET_WAIT_TIMEOUT_MS: u64 = 10000;

/// What the caller does after a look.
#[derive(Debug, Clone, Copy, PartialEq, Eq, Structural)]
pub enum WaitStep {
    /// The socket file is there: go on.
    Proceed,
    /// Sleep for so many milliseconds, then look again.
    Sleep(u64),
    /// The socket file did not appear in time: give up.
    TimedOut,
}

/// What follows a look that found the socket file, or not, after
/// `waited_ms` milliseconds of waiting.
pub open spec fn wait_step(socket_exists: bool, waited_ms: u64) -> WaitStep {
    if socket_exists {
        WaitStep::Proceed
    } else if waited_ms >= SOCKET_WAIT_TIMEOUT_MS {
        WaitStep::TimedOut
    } else if SOCKET_WAIT_TIMEOUT_MS - waited_ms < SOCKET_POLL_INTERVAL_MS {
        WaitStep::Sleep((SOCKET_WAIT_TIMEOUT_MS - waited_ms) as u64)
    } else {
        WaitStep::Sleep(SOCKET_POLL_INTERVAL_MS)
    }
}

/// Answers a look. A socket file that is there lets the caller go on, however
/// long it took; else the caller sleeps for the interval, or for what is left
/// of the time where that is less, and gives up when no time is left.
pub fn readiness_step(socket_exists: bool, waited_ms: u64) -> (step: WaitStep)
    ensures
        step == wait_step(socket_exists, waited_ms),
{
    if socket_exists {
        WaitStep::Proceed
    } else if waited_ms >= SOCKET_WAIT_TIMEOUT_MS {
        WaitStep::TimedOut
    } else {
        let left: u64 = SOCKET_WAIT_TIMEOUT_MS - waited_ms;
        if left < SOCKET_POLL_INTERVAL_MS {
            WaitStep::Sleep(left)
        } else {
            WaitStep::Sleep(SOCKET_POLL_INTERVAL_MS)
        }
    }
}

/// The wait is bounded: while the socket file is missing, the caller is told
/// to give up exactly when the time is used up, and before that every sleep is longer
/// than nothing, no longer than the interval, and ends within the time.
pub proof fn waiting_is_bounded(waited_ms: u64)
    ensures
        waited_ms >= SOCKET_WAIT_TIMEOUT_MS <==> wait_step(false, waited_ms) == WaitStep::TimedOut,
        waited_ms < SOCKET_WAIT_TIMEOUT_MS ==> (wait_step(false, waited_ms) matches WaitStep::Sleep(
            pause,
        ) && 0 < pause <= SOCKET_POLL_INTERVAL_MS && waited_ms + pause <= SOCKET_WAIT_TIMEOUT_MS),
{
}

} // verus!
