use rust_gpu_hotreload::debounce::DebounceClock;
use rust_gpu_hotreload::event::{any_has_extension, has_extension, is_qualifying_event, kind_is_relevant, ChangeKind};
use rust_gpu_hotreload::session::{finish_rebuild, handle_event, start_session, EventAction, ReloadError};
use rust_gpu_hotreload::signal::ReloadSignals;

fn paths(ps: &[&str]) -> Vec<String> {
    ps.iter().map(|p| p.to_string()).collect()
}

#[test]
fn debounce_suppresses_events_within_window() {
    let mut clock = DebounceClock::new(500);
    let ev = paths(&["src/lib.rs"]);
    let mut builds = 0;
    for t in [1000u64, 1001, 1200, 1499] {
        if handle_event(&mut clock, ChangeKind::Modify, &ev, "rs", t) == EventAction::Rebuild {
            builds += 1;
        }
    }
    assert_eq!(builds, 1);
    assert_eq!(clock.last_accepted(), Some(1000));
}

#[test]
fn debounce_releases_after_window() {
    let mut clock = DebounceClock::new(500);
    let ev = paths(&["src/lib.rs"]);
    assert_eq!(handle_event(&mut clock, ChangeKind::Modify, &ev, "rs", 0), EventAction::Rebuild);
    assert_eq!(handle_event(&mut clock, ChangeKind::Modify, &ev, "rs", 499), EventAction::Debounce);
    assert_eq!(handle_event(&mut clock, ChangeKind::Modify, &ev, "rs", 501), EventAction::Rebuild);
    assert_eq!(clock.last_accepted(), Some(501));
}

#[test]
fn debounce_window_is_inclusive_at_its_end() {
    let mut clock = DebounceClock::new(500);
    assert!(clock.try_accept(10));
    assert!(!clock.would_accept(509));
    assert!(clock.would_accept(510));
}

#[test]
fn zero_window_accepts_every_event() {
    let mut clock = DebounceClock::new(0);
    assert!(clock.try_accept(5));
    assert!(clock.try_accept(5));
    assert!(clock.try_accept(6));
}

#[test]
fn clock_going_backwards_counts_as_no_time_elapsed() {
    let mut clock = DebounceClock::new(500);
    assert!(clock.try_accept(1000));
    assert!(!clock.try_accept(10));
    assert_eq!(clock.last_accepted(), Some(1000));
}

#[test]
fn extension_filter_ignores_other_files() {
    let mut clock = DebounceClock::new(500);
    let ev = paths(&["shaders/readme.md", "target/out.spv", "Cargo.toml"]);
    assert_eq!(handle_event(&mut clock, ChangeKind::Modify, &ev, "rs", 0), EventAction::Ignore);
    assert_eq!(clock.last_accepted(), None);
}

#[test]
fn extension_filter_mixed_paths_give_one_build() {
    let mut clock = DebounceClock::new(500);
    let ev = paths(&["notes.txt", "src/a.rs", "src/b.rs"]);
    assert_eq!(handle_event(&mut clock, ChangeKind::Create, &ev, "rs", 0), EventAction::Rebuild);
    assert_eq!(handle_event(&mut clock, ChangeKind::Create, &ev, "rs", 1), EventAction::Debounce);
}

#[test]
fn extension_matching() {
    assert!(has_extension("/a/b/shader.rs", "rs"));
    assert!(!has_extension("/a/b/shader.rsx", "rs"));
    assert!(!has_extension("/a/b/rs", "rs"));
    assert!(!has_extension("/a/b.rs/", "txt"));
    assert!(any_has_extension(&paths(&["x.txt", "y.rs"]), "rs"));
    assert!(!any_has_extension(&paths(&[]), "rs"));
}

#[test]
fn kind_filter_drops_removals_and_metadata() {
    assert!(kind_is_relevant(ChangeKind::Create));
    assert!(kind_is_relevant(ChangeKind::Modify));
    assert!(!kind_is_relevant(ChangeKind::Remove));
    assert!(!kind_is_relevant(ChangeKind::Metadata));
    assert!(!kind_is_relevant(ChangeKind::Access));
    assert!(!kind_is_relevant(ChangeKind::Other));
    let ev = paths(&["src/lib.rs"]);
    assert!(!is_qualifying_event(ChangeKind::Remove, &ev, "rs"));
    let mut clock = DebounceClock::new(500);
    assert_eq!(handle_event(&mut clock, ChangeKind::Metadata, &ev, "rs", 0), EventAction::Ignore);
    assert_eq!(handle_event(&mut clock, ChangeKind::Remove, &ev, "rs", 0), EventAction::Ignore);
    assert_eq!(clock.last_accepted(), None);
}

#[test]
fn failed_rebuild_publishes_nothing_and_session_stays_usable() {
    let (mut clock, mut signals) = start_session(Ok(()), 500).unwrap();
    let ev = paths(&["src/lib.rs"]);
    assert_eq!(handle_event(&mut clock, ChangeKind::Modify, &ev, "rs", 0), EventAction::Rebuild);
    let report = finish_rebuild(&mut signals, Err("error[E0308]: mismatched types".to_string()));
    assert_eq!(report, Some("error[E0308]: mismatched types".to_string()));
    assert!(!signals.poll_and_clear());
    assert_eq!(handle_event(&mut clock, ChangeKind::Modify, &ev, "rs", 600), EventAction::Rebuild);
    assert_eq!(finish_rebuild(&mut signals, Ok(())), None);
    assert!(signals.poll_and_clear());
}

#[test]
fn drain_and_coalesce() {
    let mut signals = ReloadSignals::new();
    assert!(!signals.has_pending());
    for _ in 0..5 {
        signals.publish();
    }
    assert!(signals.has_pending());
    assert!(signals.poll_and_clear());
    assert!(!signals.poll_and_clear());
    assert!(!signals.has_pending());
}

#[test]
fn end_to_end_session() {
    let (mut clock, mut signals) = start_session(Ok(()), 500).unwrap();
    let ev = paths(&["shader-source/src/lib.rs"]);
    let mut builds = 0;

    assert_eq!(handle_event(&mut clock, ChangeKind::Modify, &ev, "rs", 0), EventAction::Rebuild);
    builds += 1;
    finish_rebuild(&mut signals, Ok(()));
    assert!(signals.poll_and_clear());

    assert_eq!(handle_event(&mut clock, ChangeKind::Modify, &ev, "rs", 100), EventAction::Debounce);
    assert!(!signals.poll_and_clear());

    assert_eq!(handle_event(&mut clock, ChangeKind::Modify, &ev, "rs", 700), EventAction::Rebuild);
    builds += 1;
    finish_rebuild(&mut signals, Ok(()));
    assert!(signals.poll_and_clear());
    assert_eq!(builds, 2);
}

#[test]
fn failed_initial_build_starts_no_session() {
    let r = start_session(Err("could not find `Cargo.toml` in /does/not/exist".to_string()), 500);
    assert_eq!(
        r.err(),
        Some(ReloadError::InitialBuild("could not find `Cargo.toml` in /does/not/exist".to_string()))
    );
}

#[test]
fn started_session_is_empty() {
    let (clock, mut signals) = start_session(Ok(()), 250).unwrap();
    assert_eq!(clock.window_ms(), 250);
    assert_eq!(clock.last_accepted(), None);
    assert!(!signals.poll_and_clear());
}
