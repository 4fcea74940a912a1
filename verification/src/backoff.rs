//! The retry policy: after each process exit or spawn failure it decides
//! whether the session tries again, and it owns the retry counter.

use vstd::prelude::*;

verus! {

/// Most retries granted to a session that has never connected.
pub const MAX_RETRIES: u32 = 3;

/// Seconds to wait between one attempt and the next.
pub const RETRY_DELAY_SECS: u64 = 5;

/// Retry state of one session. `connected_ever` is latched by the first
/// `Connected` classification within the session and never cleared; a
/// brand-new session starts over.
#[derive(Debug, Clone, Copy, PartialEq, Eq, Structural)]
pub struct BackoffPolicy {
    pub retry_count: u32,
    pub connected_ever: bool,
}

/// What to do after one attempt ended.
#[derive(Debug, Clone, Copy, PartialEq, Eq, Structural)]
pub enum Decision {
    /// The tunnel had worked once, so the disconnect is unexpected: retry
    /// after the delay with the counter reset.
    RetryReset,
    /// Retry number `n` out of `MAX_RETRIES`, after the delay.
    RetryCounted(u32),
    /// The retry budget is spent: stop permanently.
    StopExhausted,
    /// The executable does not exist: stop at once, without a delay and
    /// without consuming a retry.
    StopNotFound,
}

/// The decision taken after a failed attempt, and the successor state.
/// `not_found` says whether the attempt failed because the executable was
/// not found.
pub open spec fn decide_spec(pre: BackoffPolicy, not_found: bool) -> (BackoffPolicy, Decision) {
    if not_found {
        (pre, Decision::StopNotFound)
    } else if pre.connected_ever {
        (BackoffPolicy { retry_count: 0, connected_ever: true }, Decision::RetryReset)
    } else if pre.retry_count < MAX_RETRIES {
        (
            BackoffPolicy { retry_count: (pre.retry_count + 1) as u32, connected_ever: false },
            Decision::RetryCounted((pre.retry_count + 1) as u32),
        )
    } else {
        (pre, Decision::StopExhausted)
    }
}

impl BackoffPolicy {
    /// Fresh retry state for a brand-new session.
    pub fn new() -> (p: BackoffPolicy)
        ensures
            p == (BackoffPolicy { retry_count: 0u32, connected_ever: false }),
    {
        BackoffPolicy { retry_count: 0, connected_ever: false }
    }

    /// Record that a `Connected` classification was observed; the latch is
    /// permanent for this session.
    pub fn note_connected(&mut self)
        ensures
            *final(self) == (BackoffPolicy {
                retry_count: old(self).retry_count,
                connected_ever: true,
            }),
    {
        self.connected_ever = true;
    }

    /// Decide, after a process exit or spawn failure, whether to retry.
    pub fn decide(&mut self, not_found: bool) -> (d: Decision)
        ensures
            (*final(self), d) == decide_spec(*old(self), not_found),
    {
        if not_found {
            Decision::StopNotFound
        } else if self.connected_ever {
            self.retry_count = 0;
            Decision::RetryReset
        } else if self.retry_count < MAX_RETRIES {
            self.retry_count = self.retry_count + 1;
            Decision::RetryCounted(self.retry_count)
        } else {
            Decision::StopExhausted
        }
    }
}

} // verus!
