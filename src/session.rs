//! The watcher's decisions: starting a session, handling one change event
//! and taking the outcome of a rebuild.
use vstd::prelude::*;
use crate::debounce::{accepts, next_last, DebounceClock};
use crate::event::{any_path_matches, is_qualifying, is_qualifying_event, kind_qualifies, ChangeKind};
use crate::signal::{count_after_publish, ReloadSignals};

verus! {

/// Why a session could not start.
#[derive(Clone, Debug, PartialEq, Eq)]
pub enum ReloadError {
    /// The workspace root could not be determined.
    Configuration,
    /// The first build failed; carries the compiler's diagnostics.
    InitialBuild(String),
    /// The file system watch could not be registered.
    WatchSetup(String),
}

/// What the watch thread does with one change event.
#[derive(Clone, Copy, Debug, PartialEq, Eq, Structural)]
pub enum EventAction {
    /// The event is not a creation or modification of a watched file.
    Ignore,
    /// The event came within the debounce window of the last rebuild.
    Debounce,
    /// Run the build; the clock already holds the time of this event.
    Rebuild,
}

/// The action for an event, given the clock before it.
pub open spec fn action_for(
    kind: ChangeKind,
    paths: Seq<String>,
    ext: Seq<char>,
    last: Option<u64>,
    window: u64,
    now: u64,
) -> EventAction {
    if !is_qualifying(kind, paths, ext) {
        EventAction::Ignore
    } else if !accepts(last, window, now) {
        EventAction::Debounce
    } else {
        EventAction::Rebuild
    }
}

/// The clock after `handle_event` on an event with this action at `now`.
pub open spec fn clock_after(action: EventAction, last: Option<u64>, now: u64) -> Option<u64> {
    if action == EventAction::Rebuild {
        Some(now)
    } else {
        last
    }
}

/// How many of the events `(kinds[i], paths[i])` at `times[i]`, handled in
/// order by `handle_event`, start a rebuild.
pub open spec fn rebuild_count(
    kinds: Seq<ChangeKind>,
    paths: Seq<Seq<String>>,
    ext: Seq<char>,
    last: Option<u64>,
    window: u64,
    times: Seq<u64>,
) -> nat
    decreases times.len(),
{
    if times.len() == 0 {
        0
    } else {
        let a = action_for(kinds[0], paths[0], ext, last, window, times[0]);
        let rest = rebuild_count(
            kinds.drop_first(),
            paths.drop_first(),
            ext,
            clock_after(a, last, times[0]),
            window,
            times.drop_first(),
        );
        if a == EventAction::Rebuild {
            rest + 1
        } else {
            rest
        }
    }
}

/// How many signals `finish_rebuild` publishes over the same events, where
/// the rebuild started by event `i`, if any, has outcome `ok[i]`.
pub open spec fn signal_count(
    kinds: Seq<ChangeKind>,
    paths: Seq<Seq<String>>,
    ext: Seq<char>,
    last: Option<u64>,
    window: u64,
    times: Seq<u64>,
    ok: Seq<bool>,
) -> nat
    decreases times.len(),
{
    if times.len() == 0 {
        0
    } else {
        let a = action_for(kinds[0], paths[0], ext, last, window, times[0]);
        let rest = signal_count(
            kinds.drop_first(),
            paths.drop_first(),
            ext,
            clock_after(a, last, times[0]),
            window,
            times.drop_first(),
            ok.drop_first(),
        );
        if a == EventAction::Rebuild && ok[0] {
            rest + 1
        } else {
            rest
        }
    }
}

/// Of qualifying events that all arrive strictly within the debounce
/// window of the first one, where the first one starts a rebuild, exactly
/// one starts a rebuild, and one signal comes of them if that rebuild
/// succeeds, none if it fails.
pub proof fn lemma_debounce_suppression(
    kinds: Seq<ChangeKind>,
    paths: Seq<Seq<String>>,
    ext: Seq<char>,
    last: Option<u64>,
    window: u64,
    times: Seq<u64>,
    ok: Seq<bool>,
)
    requires
        times.len() >= 1,
        kinds.len() == times.len(),
        paths.len() == times.len(),
        ok.len() == times.len(),
        forall|i: int| 0 <= i < times.len() ==> is_qualifying(#[trigger] kinds[i], paths[i], ext),
        accepts(last, window, times[0]),
        forall|i: int| 0 <= i < times.len() ==> times[0] <= #[trigger] times[i] < times[0] + window,
    ensures
        rebuild_count(kinds, paths, ext, last, window, times) == 1,
        signal_count(kinds, paths, ext, last, window, times, ok) == if ok[0] {
            1nat
        } else {
            0nat
        },
{
    let (k, p, t, o) = (kinds.drop_first(), paths.drop_first(), times.drop_first(), ok.drop_first());
    assert forall|i: int| 0 <= i < t.len() implies times[0] <= #[trigger] t[i] < times[0]
        + window by {
        assert(t[i] == times[i + 1]);
    }
    lemma_burst_suppressed(k, p, ext, times[0], window, t, o);
}

/// Events that all arrive strictly within the window after `start` start no
/// rebuild and publish no signal.
pub proof fn lemma_burst_suppressed(
    kinds: Seq<ChangeKind>,
    paths: Seq<Seq<String>>,
    ext: Seq<char>,
    start: u64,
    window: u64,
    times: Seq<u64>,
    ok: Seq<bool>,
)
    requires
        forall|i: int| 0 <= i < times.len() ==> start <= #[trigger] times[i] < start + window,
    ensures
        rebuild_count(kinds, paths, ext, Some(start), window, times) == 0,
        signal_count(kinds, paths, ext, Some(start), window, times, ok) == 0,
    decreases times.len(),
{
    if times.len() > 0 {
        assert(start <= times[0] < start + window);
        let t = times.drop_first();
        assert forall|i: int| 0 <= i < t.len() implies start <= #[trigger] t[i] < start
            + window by {
            assert(t[i] == times[i + 1]);
        }
        lemma_burst_suppressed(
            kinds.drop_first(),
            paths.drop_first(),
            ext,
            start,
            window,
            t,
            ok.drop_first(),
        );
    }
}

/// Starts a session from the outcome of the first build: a session whose
/// first build failed never starts, and so never watches.
pub fn start_session(initial_build: Result<(), String>, debounce_ms: u64) -> (r: Result<
    (DebounceClock, ReloadSignals),
    ReloadError,
>)
    ensures
        match initial_build {
            Ok(()) => r matches Ok((clock, signals)) && clock.window() == debounce_ms
                && clock.last() is None && signals.count() == 0,
            Err(msg) => r == Err::<(DebounceClock, ReloadSignals), ReloadError>(
                ReloadError::InitialBuild(msg),
            ),
        },
{
    match initial_build {
        Ok(()) => Ok((DebounceClock::new(debounce_ms), ReloadSignals::new())),
        Err(msg) => Err(ReloadError::InitialBuild(msg)),
    }
}

/// Decides on one change event at `now` (milliseconds): events that are
/// not creations or modifications of a file with extension `ext` are
/// ignored; qualifying ones within the debounce window are dropped; any
/// other starts a rebuild, and the clock records `now` before the build.
pub fn handle_event(
    clock: &mut DebounceClock,
    kind: ChangeKind,
    paths: &Vec<String>,
    ext: &str,
    now: u64,
) -> (r: EventAction)
    ensures
        r == action_for(kind, paths@, ext@, old(clock).last(), old(clock).window(), now),
        final(clock).window() == old(clock).window(),
        final(clock).last() == clock_after(r, old(clock).last(), now),
{
    if !is_qualifying_event(kind, paths, ext) {
        EventAction::Ignore
    } else if clock.try_accept(now) {
        EventAction::Rebuild
    } else {
        EventAction::Debounce
    }
}

/// Takes the outcome of a rebuild: a success publishes one signal; a
/// failure publishes none and hands its diagnostics back for reporting.
pub fn finish_rebuild(signals: &mut ReloadSignals, outcome: Result<(), String>) -> (r: Option<
    String,
>)
    ensures
        match outcome {
            Ok(()) => r is None && final(signals).count() == count_after_publish(
                old(signals).count(),
            ),
            Err(msg) => r == Some(msg) && final(signals).count() == old(signals).count(),
        },
{
    match outcome {
        Ok(()) => {
            signals.publish();
            None
        },
        Err(msg) => Some(msg),
    }
}

/// A failed rebuild publishes nothing and leaves the session usable: a
/// qualifying event once the window has passed starts another rebuild.
pub proof fn lemma_failure_isolation(
    kind: ChangeKind,
    paths: Seq<String>,
    ext: Seq<char>,
    window: u64,
    failed_at: u64,
    now: u64,
)
    requires
        is_qualifying(kind, paths, ext),
        now >= failed_at,
        now - failed_at >= window,
    ensures
        action_for(kind, paths, ext, Some(failed_at), window, now) == EventAction::Rebuild,
        next_last(Some(failed_at), window, now) == Some(now),
{
}

/// An event that names no file with the watched extension, or that is not
/// a creation or modification, never starts a rebuild; one with at least
/// one such file among others is handled once, as one event.
pub proof fn lemma_filters(
    kind: ChangeKind,
    paths: Seq<String>,
    ext: Seq<char>,
    last: Option<u64>,
    window: u64,
    now: u64,
)
    ensures
        !is_qualifying(kind, paths, ext) ==> action_for(kind, paths, ext, last, window, now)
            == EventAction::Ignore,
        kind == ChangeKind::Remove || kind == ChangeKind::Metadata ==> action_for(
            kind,
            paths,
            ext,
            last,
            window,
            now,
        ) == EventAction::Ignore,
        kind_qualifies(kind) && any_path_matches(paths, ext) && accepts(last, window, now)
            ==> action_for(kind, paths, ext, last, window, now) == EventAction::Rebuild,
{
}

} // verus!
