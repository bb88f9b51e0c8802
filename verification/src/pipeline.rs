use vstd::prelude::*;

use crate::error::{is_transient, spec_is_transient, ChronosError};

verus! {

/// Most attempts made to process one frame.
pub const MAX_ATTEMPTS: u32 = 3;

/// Milliseconds to wait before the first retry; each later retry waits twice as long.
pub const INITIAL_BACKOFF_MILLIS: u64 = 500;

/// The wait in milliseconds before attempt `attempt + 1`, for `attempt >= 1`.
pub open spec fn backoff_after(attempt: nat) -> nat
    decreases attempt,
{
    if attempt <= 1 {
        INITIAL_BACKOFF_MILLIS as nat
    } else {
        2 * backoff_after((attempt - 1) as nat)
    }
}

/// What to do after an attempt to process a frame failed.
#[derive(Debug, Clone, Copy, PartialEq, Eq)]
pub enum RetryDecision {
    /// Wait this many milliseconds, then make another attempt.
    Retry { wait_millis: u64 },
    /// Stop and report the error.
    GiveUp,
}

/// The bounded retry with exponential back-off applied to each frame:
/// transient errors are retried, up to `MAX_ATTEMPTS` attempts in all.
#[derive(Debug, Clone, Copy, PartialEq, Eq)]
pub struct RetrySchedule {
    attempts: u32,
    backoff_millis: u64,
}

impl RetrySchedule {
    #[verifier::type_invariant]
    spec fn well_formed(self) -> bool {
        &&& 1 <= self.attempts <= MAX_ATTEMPTS
        &&& self.backoff_millis == backoff_after(self.attempts as nat)
    }

    /// The number of attempts made so far, the current one included.
    pub closed spec fn attempts_made(self) -> nat {
        self.attempts as nat
    }

    /// The schedule of a frame whose first attempt is under way.
    pub fn first_attempt() -> (s: Self)
        ensures
            s.attempts_made() == 1,
    {
        RetrySchedule { attempts: 1, backoff_millis: INITIAL_BACKOFF_MILLIS }
    }

    /// The number of attempts made so far, the current one included.
    pub fn attempts(&self) -> (n: u32)
        ensures
            n == self.attempts_made(),
            1 <= n <= MAX_ATTEMPTS,
    {
        proof {
            use_type_invariant(self);
        }
        self.attempts
    }

    /// Decides what follows a failed attempt that ended with `err`.
    ///
    /// A transient error is retried while fewer than `MAX_ATTEMPTS` attempts were made,
    /// after 500 ms, then 1000 ms; any other error, or the last attempt, gives up.
    pub fn after_failure(&mut self, err: &ChronosError) -> (d: RetryDecision)
        ensures
            old(self).attempts_made() < MAX_ATTEMPTS && spec_is_transient(*err) ==> {
                &&& d == RetryDecision::Retry {
                    wait_millis: backoff_after(old(self).attempts_made()) as u64,
                }
                &&& final(self).attempts_made() == old(self).attempts_made() + 1
            },
            !(old(self).attempts_made() < MAX_ATTEMPTS && spec_is_transient(*err)) ==> {
                &&& d is GiveUp
                &&& final(self).attempts_made() == old(self).attempts_made()
            },
            final(self).attempts_made() <= MAX_ATTEMPTS,
    {
        proof {
            use_type_invariant(&*self);
            reveal_with_fuel(backoff_after, 3);
        }
        if self.attempts < MAX_ATTEMPTS && is_transient(err) {
            let wait = self.backoff_millis;
            let next = RetrySchedule { attempts: self.attempts + 1, backoff_millis: wait * 2 };
            *self = next;
            RetryDecision::Retry { wait_millis: wait }
        } else {
            RetryDecision::GiveUp
        }
    }
}

/// The waits between attempts are 500 ms and then 1000 ms.
pub proof fn lemma_backoff_doubles()
    ensures
        backoff_after(1) == 500,
        backoff_after(2) == 1000,
{
    reveal_with_fuel(backoff_after, 3);
}

/// What one tick of the daemon's capture task came to.
#[derive(Debug, Clone, Copy, PartialEq, Eq)]
pub enum TickOutcome {
    /// A frame was captured and handed to the pipeline.
    Delivered,
    /// The screen could not be captured (the display may be locked for a while).
    CaptureFailed,
    /// The pipeline's receiving end is gone.
    ReceiverGone,
}

/// Whether the daemon's capture task goes on after a tick: it stops only once the
/// pipeline no longer receives frames; a failed capture is reported and the next
/// tick tried.
pub fn capture_task_continues(outcome: TickOutcome) -> (b: bool)
    ensures
        b <==> !(outcome is ReceiverGone),
{
    match outcome {
        TickOutcome::ReceiverGone => false,
        _ => true,
    }
}

/// The capture interval actually used by the daemon: never less than one second,
/// so that a zero setting cannot make the capture task spin.
pub fn effective_interval_seconds(configured: u64) -> (s: u64)
    ensures
        s == if configured == 0 { 1 } else { configured },
{
    if configured == 0 {
        1
    } else {
        configured
    }
}

} // verus!
