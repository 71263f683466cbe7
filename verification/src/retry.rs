//! Bounded, fixed-delay retry around a coalesced batch read.
//!
//! A batch read is retried as a whole: a transient transport failure forces
//! the whole span to be read again. The delay between attempts is fixed —
//! no backoff, no jitter — and the attempt budget is consumed one attempt
//! at a time until the first success or until the budget is spent. Waiting
//! and reading are the caller's outside work; the policy here only decides,
//! after each failure, whether another attempt may be made. Once the budget
//! is spent the final failure propagates, and the collector treats it as
//! fatal for the whole process — the chosen policy — rather than skipping
//! the group for one cycle.

use vstd::prelude::*;

verus! {

/// Delay between attempts, in milliseconds.
pub const RETRY_DELAY_MILLIS: u64 = 200;

/// What to do after a failed attempt: wait the fixed delay and try again,
/// or give up and surface the failure.
#[derive(Clone, Copy, PartialEq, Eq, Structural, Debug)]
pub enum RetryAction {
    Retry,
    GiveUp,
}

/// The retry budget of one batch read: how many attempts may be made in
/// all, and how many have been made so far.
pub struct RetryPolicy {
    pub max_attempts: u8,
    pub attempts_made: u8,
}

impl RetryPolicy {
    /// No more attempts were made than the budget allows.
    pub open spec fn wf(self) -> bool {
        self.attempts_made <= self.max_attempts
    }

    /// A fresh budget of `max_attempts` attempts, none made yet.
    pub fn new(max_attempts: u8) -> (r: RetryPolicy)
        ensures
            r.max_attempts == max_attempts,
            r.attempts_made == 0,
            r.wf(),
    {
        RetryPolicy { max_attempts, attempts_made: 0 }
    }

    /// Whether an attempt may still be made.
    pub fn may_attempt(&self) -> (b: bool)
        ensures
            b == (self.attempts_made < self.max_attempts),
    {
        self.attempts_made < self.max_attempts
    }

    /// Record one failed attempt and decide: retry while the budget has
    /// attempts left, give up the moment it is spent. The failure that
    /// exhausts the budget is the one the caller propagates.
    pub fn record_failure(&mut self) -> (a: RetryAction)
        requires
            old(self).attempts_made < old(self).max_attempts,
        ensures
            final(self).max_attempts == old(self).max_attempts,
            final(self).attempts_made == old(self).attempts_made + 1,
            final(self).wf(),
            a == (if final(self).attempts_made < final(self).max_attempts {
                RetryAction::Retry
            } else {
                RetryAction::GiveUp
            }),
    {
        self.attempts_made = self.attempts_made + 1;
        if self.attempts_made < self.max_attempts {
            RetryAction::Retry
        } else {
            RetryAction::GiveUp
        }
    }
}

} // verus!
