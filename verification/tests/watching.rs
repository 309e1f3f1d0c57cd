use axum_hotreload::watcher::{ChangeKind, Debounce, Notification, Wait, Wake};
use std::time::Duration;

#[test]
fn changes_are_creations_modifications_and_removals() {
    assert!(Notification::Event(ChangeKind::Create).is_change());
    assert!(Notification::Event(ChangeKind::Modify).is_change());
    assert!(Notification::Event(ChangeKind::Remove).is_change());
    assert!(!Notification::Event(ChangeKind::Access).is_change());
    assert!(!Notification::Event(ChangeKind::Any).is_change());
    assert!(!Notification::Event(ChangeKind::Other).is_change());
    assert!(!Notification::Failed.is_change());
}

/// The number of rebuilds that the events start, and the state after them.
fn run(wakes: &[Wake]) -> (u32, Debounce) {
    let mut state = Debounce::new();
    let mut rebuilds: u32 = 0;
    for wake in wakes {
        state = state.step(*wake);
        if state == Debounce::Rebuilding {
            rebuilds += 1;
        }
    }
    (rebuilds, state)
}

#[test]
fn burst_is_collapsed_into_one_rebuild() {
    let wakes = [Wake::Signal, Wake::Signal, Wake::Signal, Wake::Quiet];
    assert_eq!(run(&wakes), (1, Debounce::Rebuilding));
}

#[test]
fn bursts_apart_are_rebuilt_apart() {
    let wakes = [
        Wake::Signal,
        Wake::Quiet,
        Wake::Rebuilt,
        Wake::Signal,
        Wake::Signal,
        Wake::Quiet,
        Wake::Rebuilt,
    ];
    assert_eq!(run(&wakes), (2, Debounce::Idle));
}

#[test]
fn closing_while_collecting_still_rebuilds() {
    let wakes = [Wake::Signal, Wake::Closed, Wake::Rebuilt, Wake::Closed];
    assert_eq!(run(&wakes), (1, Debounce::Stopped));
}

#[test]
fn closing_while_idle_ends_the_loop() {
    assert_eq!(run(&[Wake::Closed]), (0, Debounce::Stopped));
}

#[test]
fn no_signal_means_no_rebuild() {
    assert_eq!(run(&[]), (0, Debounce::Idle));
    assert_eq!(run(&[Wake::Signal]), (0, Debounce::Collecting));
}

#[test]
fn each_state_names_what_to_wait_for() {
    let window = Duration::from_millis(250);
    assert!(matches!(Debounce::Idle.wait(window), Wait::ForSignal));
    assert!(matches!(Debounce::Collecting.wait(window), Wait::ForSignalWithin(d) if d == window));
    assert!(matches!(Debounce::Rebuilding.wait(window), Wait::Reload));
    assert!(matches!(Debounce::Stopped.wait(window), Wait::Stop));
}

#[test]
fn a_stopped_loop_stays_stopped() {
    assert_eq!(run(&[Wake::Closed, Wake::Signal, Wake::Quiet]), (0, Debounce::Stopped));
}
