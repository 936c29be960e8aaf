use vpad::cursor::{CursorVisibility, HelperRequest};

#[test]
fn hiding_spawns_once_then_is_idempotent() {
    let mut c = CursorVisibility::new();
    assert!(!c.is_hidden());
    assert_eq!(c.set_hidden(true), Some(HelperRequest::Spawn));
    assert!(c.is_hidden());
    // A second identical request spawns nothing: at most one helper runs.
    assert_eq!(c.set_hidden(true), None);
    assert!(c.is_hidden());
}

#[test]
fn showing_stops_the_helper_then_is_idempotent() {
    let mut c = CursorVisibility::new();
    assert_eq!(c.set_hidden(true), Some(HelperRequest::Spawn));
    assert_eq!(c.set_hidden(false), Some(HelperRequest::Stop));
    assert!(!c.is_hidden());
    assert_eq!(c.set_hidden(false), None);
    assert!(!c.is_hidden());
}

#[test]
fn showing_with_no_helper_is_a_noop() {
    let mut c = CursorVisibility::new();
    assert_eq!(c.set_hidden(false), None);
    assert!(!c.is_hidden());
}

#[test]
fn a_failed_spawn_is_treated_as_not_hidden() {
    let mut c = CursorVisibility::new();
    assert_eq!(c.set_hidden(true), Some(HelperRequest::Spawn));
    c.spawn_failed();
    assert!(!c.is_hidden());
    // The next hide request tries to spawn again.
    assert_eq!(c.set_hidden(true), Some(HelperRequest::Spawn));
}
