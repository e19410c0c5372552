//! The debounce clock: when the last rebuild was accepted, and whether a
//! new event may start another one.
use vstd::prelude::*;

verus! {

/// Milliseconds from `last` to `now`, or zero where `now` lies before `last`.
pub open spec fn elapsed(last: u64, now: u64) -> int {
    if now >= last {
        now - last
    } else {
        0
    }
}

/// Whether an event at `now` starts a rebuild, given the start of the last
/// accepted rebuild and the debounce window.
pub open spec fn accepts(last: Option<u64>, window: u64, now: u64) -> bool {
    match last {
        None => true,
        Some(t) => elapsed(t, now) >= window,
    }
}

/// The last accepted time after an event at `now`.
pub open spec fn next_last(last: Option<u64>, window: u64, now: u64) -> Option<u64> {
    if accepts(last, window, now) {
        Some(now)
    } else {
        last
    }
}

/// The start of the last accepted rebuild and the debounce window.
///
/// The clock is advanced when a rebuild is accepted, before the build
/// runs, so that the window is measured from the start of a build.
#[derive(Clone, Copy, Debug)]
pub struct DebounceClock {
    window_ms: u64,
    last_accepted: Option<u64>,
}

impl DebounceClock {
    pub closed spec fn window(self) -> u64 {
        self.window_ms
    }

    pub closed spec fn last(self) -> Option<u64> {
        self.last_accepted
    }

    /// A clock that has never accepted a rebuild.
    pub fn new(window_ms: u64) -> (r: DebounceClock)
        ensures
            r.window() == window_ms,
            r.last() is None,
    {
        DebounceClock { window_ms, last_accepted: None }
    }

    /// The debounce window in milliseconds.
    pub fn window_ms(&self) -> (r: u64)
        ensures
            r == self.window(),
    {
        self.window_ms
    }

    /// The time of the last accepted rebuild, if any.
    pub fn last_accepted(&self) -> (r: Option<u64>)
        ensures
            r == self.last(),
    {
        self.last_accepted
    }

    /// Whether an event at `now` (in milliseconds) would start a rebuild.
    pub fn would_accept(&self, now: u64) -> (r: bool)
        ensures
            r == accepts(self.last(), self.window(), now),
    {
        match self.last_accepted {
            None => true,
            Some(t) => {
                let gap: u64 = if now >= t {
                    now - t
                } else {
                    0
                };
                gap >= self.window_ms
            },
        }
    }

    /// Decides on an event at `now`: where the window since the last
    /// accepted rebuild has passed, records `now` and returns true;
    /// otherwise leaves the clock as it was and returns false.
    pub fn try_accept(&mut self, now: u64) -> (r: bool)
        ensures
            r == accepts(old(self).last(), old(self).window(), now),
            final(self).last() == next_last(old(self).last(), old(self).window(), now),
            final(self).window() == old(self).window(),
    {
        let ok = self.would_accept(now);
        if ok {
            self.last_accepted = Some(now);
        }
        ok
    }
}

/// An event that arrives once the debounce window since the last accepted
/// rebuild has passed always starts a rebuild, whatever came of the
/// previous one.
pub proof fn lemma_debounce_release(last: u64, window: u64, now: u64)
    requires
        now >= last,
        now - last >= window,
    ensures
        accepts(Some(last), window, now),
        next_last(Some(last), window, now) == Some(now),
{
}

} // verus!
