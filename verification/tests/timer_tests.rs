use vpad::timer::{RecenterTimer, RECENTER_INTERVAL_MS};

#[test]
fn recenter_interval_is_twenty_milliseconds() {
    assert_eq!(RECENTER_INTERVAL_MS, 20);
}

#[test]
fn expiry_fires_exactly_when_armed() {
    let mut t = RecenterTimer::new();
    assert!(!t.armed);
    // A stale expiry with nothing armed fires nothing.
    assert!(!t.on_expiry());
    t.on_motion();
    assert!(t.armed);
    // The armed deadline fires once, then the timer is idle again.
    assert!(t.on_expiry());
    assert!(!t.armed);
    assert!(!t.on_expiry());
}

#[test]
fn motion_rearms_from_any_state() {
    let mut t = RecenterTimer::new();
    t.on_motion();
    t.on_motion();
    assert!(t.armed);
    assert!(t.on_expiry());
    t.on_motion();
    assert!(t.armed);
}
