use kiosk::clock::ActivityClock;

const DELAY: u64 = 10;
const PAUSE: u64 = 100;
const HOLD: u64 = 30;

#[test]
fn deadline_after_activity_unpaused_unheld() {
    let mut c = ActivityClock::new(0, 3);
    c.record_activity(50);
    assert_eq!(c.compute_deadline(DELAY, PAUSE, HOLD, 2), 50 + DELAY * 2);
    assert_eq!(c.compute_deadline(DELAY, PAUSE, HOLD, 1), 50 + DELAY);
}

#[test]
fn deadline_held_uses_hold_duration() {
    let mut c = ActivityClock::new(0, 1);
    c.enter_hold(10);
    assert_eq!(c.compute_deadline(DELAY, PAUSE, HOLD, 1), 10 + HOLD);
}

#[test]
fn pause_overrides_hold() {
    let mut c = ActivityClock::new(0, 1);
    c.enter_hold(10);
    c.enter_pause(20);
    // Entering the pause cleared the hold; the pause duration rules.
    assert_eq!(c.compute_deadline(DELAY, PAUSE, HOLD, 1), 20 + PAUSE);
}

#[test]
fn leaving_pause_clears_hold_too() {
    let mut c = ActivityClock::new(0, 1);
    c.enter_hold(5);
    c.enter_pause(6);
    c.exit_pause_if_set();
    assert!(!c.is_paused());
    // Neither paused nor held: the plain delay rules.
    assert_eq!(c.compute_deadline(DELAY, PAUSE, HOLD, 1), 6 + DELAY);
}

#[test]
fn hold_while_paused_does_not_stick() {
    let mut c = ActivityClock::new(0, 1);
    c.enter_pause(5);
    c.enter_hold(10);
    // Still paused, not held.
    assert_eq!(c.compute_deadline(DELAY, PAUSE, HOLD, 1), 10 + PAUSE);
    c.exit_pause_if_set();
    assert_eq!(c.compute_deadline(DELAY, PAUSE, HOLD, 1), 10 + DELAY);
}

#[test]
fn observe_same_fingerprint_twice_reports_elapsed() {
    let mut c = ActivityClock::new(0, 2);
    assert_eq!(c.observe_content(1, "abc".to_string(), 10, Some(100)), None);
    let r = c.observe_content(1, "abc".to_string(), 25, Some(100));
    let (elapsed, due) = r.unwrap();
    assert!(elapsed > 0);
    assert_eq!(elapsed, 15);
    assert!(!due);
}

#[test]
fn observe_changed_fingerprint_resets() {
    let mut c = ActivityClock::new(0, 2);
    assert_eq!(c.observe_content(1, "abc".to_string(), 10, Some(100)), None);
    assert_eq!(c.observe_content(1, "xyz".to_string(), 30, Some(100)), None);
    // The interval restarted at the change.
    assert_eq!(
        c.observe_content(1, "xyz".to_string(), 40, Some(100)),
        Some((10, false))
    );
}

#[test]
fn observe_without_threshold_is_never_due() {
    let mut c = ActivityClock::new(0, 1);
    assert_eq!(c.observe_content(1, "abc".to_string(), 0, None), None);
    assert_eq!(
        c.observe_content(1, "abc".to_string(), 1_000_000, None),
        Some((1_000_000, false))
    );
}

#[test]
fn observe_due_reload_then_interval_restarts() {
    let mut c = ActivityClock::new(0, 2);
    assert_eq!(c.observe_content(2, "abc".to_string(), 10, Some(100)), None);
    assert_eq!(
        c.observe_content(2, "abc".to_string(), 110, Some(100)),
        Some((100, true))
    );
    // Signalling the reload forgot the first-seen instant: the next
    // observation of the same fingerprint starts a fresh interval.
    assert_eq!(c.observe_content(2, "abc".to_string(), 120, Some(100)), None);
    assert_eq!(
        c.observe_content(2, "abc".to_string(), 130, Some(100)),
        Some((10, false))
    );
}

#[test]
fn observe_tabs_are_independent() {
    let mut c = ActivityClock::new(0, 2);
    assert_eq!(c.observe_content(1, "aa".to_string(), 10, None), None);
    assert_eq!(c.observe_content(2, "aa".to_string(), 20, None), None);
    assert_eq!(c.observe_content(1, "aa".to_string(), 30, None), Some((20, false)));
    assert_eq!(c.observe_content(2, "aa".to_string(), 30, None), Some((10, false)));
}
