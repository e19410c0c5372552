//! Reload signals: unit notifications that a rebuild succeeded, which the
//! consumer drains and coalesces into one answer.
use vstd::prelude::*;

verus! {

/// The signals published since the consumer last looked.
///
/// The queue holds unit values only, so it is kept as their number; the
/// number stops growing at `u64::MAX`, which changes no answer a consumer
/// can get.
#[derive(Clone, Copy, Debug)]
pub struct ReloadSignals {
    pending: u64,
}

/// The number of signals after one more is published.
pub open spec fn count_after_publish(n: nat) -> nat {
    if n < u64::MAX {
        n + 1
    } else {
        n
    }
}

/// The number of signals after `m` more are published.
pub open spec fn count_after_publishes(n: nat, m: nat) -> nat
    decreases m,
{
    if m == 0 {
        n
    } else {
        count_after_publish(count_after_publishes(n, (m - 1) as nat))
    }
}

/// What a poll answers when `n` signals are waiting.
pub open spec fn poll_answer(n: nat) -> bool {
    n > 0
}

impl ReloadSignals {
    /// The number of signals waiting.
    pub closed spec fn count(self) -> nat {
        self.pending as nat
    }

    /// An empty queue.
    pub fn new() -> (r: ReloadSignals)
        ensures
            r.count() == 0,
    {
        ReloadSignals { pending: 0 }
    }

    /// Whether a signal is waiting, without draining.
    pub fn has_pending(&self) -> (r: bool)
        ensures
            r == (self.count() > 0),
    {
        self.pending > 0
    }

    /// Enqueues one signal. Never blocks and never fails.
    pub fn publish(&mut self)
        ensures
            final(self).count() == count_after_publish(old(self).count()),
            final(self).count() > 0,
    {
        if self.pending < u64::MAX {
            self.pending = self.pending + 1;
        }
    }

    /// Drains every waiting signal and returns whether there was at least
    /// one.
    pub fn poll_and_clear(&mut self) -> (r: bool)
        ensures
            r == poll_answer(old(self).count()),
            final(self).count() == 0,
    {
        let had = self.pending > 0;
        self.pending = 0;
        had
    }
}

/// After `m >= 1` signals are published with no poll between, a poll
/// answers true once, and a second poll right after answers false.
pub proof fn lemma_drain_and_coalesce(n: nat, m: nat)
    requires
        m >= 1,
    ensures
        poll_answer(count_after_publishes(n, m)),
        !poll_answer(0),
{
    lemma_publishes_positive(n, m);
}

proof fn lemma_publishes_positive(n: nat, m: nat)
    requires
        m >= 1,
    ensures
        count_after_publishes(n, m) > 0,
    decreases m,
{
    if m > 1 {
        lemma_publishes_positive(n, (m - 1) as nat);
    }
}

} // verus!
