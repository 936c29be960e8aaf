use vpad::elements::{AxisId, ButtonId, ControllerElement};
use vpad::mapping::Key;
use vpad::session::{Action, Event, Session, Strategy};
use vpad::shaper::{MotionDelta, Profile};

fn axis(a: AxisId) -> ControllerElement {
    ControllerElement::Axis(a)
}

fn write(element: ControllerElement, value: i32) -> Action {
    Action::Write { element, value }
}

fn active_session() -> Session {
    let mut s = Session::new(Strategy::WindowManaged, Profile::default());
    s.step(Event::Ready);
    s
}

#[test]
fn activation_centers_all_axes_then_hides_the_cursor() {
    let mut s = Session::new(Strategy::WindowManaged, Profile::default());
    let actions = s.step(Event::Ready);
    assert_eq!(
        actions,
        vec![
            write(axis(AxisId::LeftX), 0),
            Action::Sync,
            write(axis(AxisId::LeftY), 0),
            Action::Sync,
            write(axis(AxisId::RightX), 0),
            Action::Sync,
            write(axis(AxisId::RightY), 0),
            Action::Sync,
            Action::SpawnHelper,
        ]
    );
}

#[test]
fn externally_spawned_sessions_manage_no_helper() {
    let mut s = Session::new(Strategy::ExternallySpawned, Profile::default());
    let actions = s.step(Event::Ready);
    assert_eq!(actions.len(), 8);
    assert!(!actions.contains(&Action::SpawnHelper));
    // Neither the toggle key nor a window-close request does anything.
    assert_eq!(s.step(Event::KeyChanged { key: Key::Backslash, pressed: true }), vec![]);
    assert_eq!(s.step(Event::WindowCloseRequested), vec![]);
}

#[test]
fn events_before_readiness_are_inert() {
    let mut s = Session::new(Strategy::WindowManaged, Profile::default());
    let delta = MotionDelta { dx_milli: 5000, dy_milli: 0 };
    assert_eq!(s.step(Event::MouseMoved { delta }), vec![]);
    assert_eq!(s.step(Event::KeyChanged { key: Key::KeyC, pressed: true }), vec![]);
    assert_eq!(s.step(Event::TimerFired), vec![]);
}

#[test]
fn mouse_motion_writes_the_shaped_right_stick_and_arms_the_timer() {
    let mut s = active_session();
    let delta = MotionDelta { dx_milli: 5000, dy_milli: 0 };
    let actions = s.step(Event::MouseMoved { delta });
    assert_eq!(
        actions,
        vec![
            write(axis(AxisId::RightX), 126),
            Action::Sync,
            write(axis(AxisId::RightY), 0),
            Action::Sync,
            Action::ArmRecenterTimer,
        ]
    );
}

#[test]
fn quiet_after_motion_recenters_exactly_once() {
    let mut s = active_session();
    let delta = MotionDelta { dx_milli: 5000, dy_milli: 0 };
    s.step(Event::MouseMoved { delta });
    let zeroing = s.step(Event::TimerFired);
    assert_eq!(
        zeroing,
        vec![
            write(axis(AxisId::RightX), 0),
            Action::Sync,
            write(axis(AxisId::RightY), 0),
            Action::Sync,
        ]
    );
    // With nothing re-armed, a further expiry recenters nothing.
    assert_eq!(s.step(Event::TimerFired), vec![]);
}

#[test]
fn motion_before_expiry_cancels_the_pending_recentering() {
    let mut s = active_session();
    let delta = MotionDelta { dx_milli: 1000, dy_milli: 0 };
    s.step(Event::MouseMoved { delta });
    // More motion arrives before the deadline: the deadline is pushed back,
    // no zeroing is emitted by the motion itself.
    let actions = s.step(Event::MouseMoved { delta });
    assert!(!actions.iter().any(|a| *a == write(axis(AxisId::RightX), 0)));
    assert_eq!(*actions.last().unwrap(), Action::ArmRecenterTimer);
    // The one eventual expiry still zeroes exactly once.
    assert_eq!(s.step(Event::TimerFired).len(), 4);
    assert_eq!(s.step(Event::TimerFired), vec![]);
}

#[test]
fn bound_key_press_and_release_drive_the_digital_element() {
    let mut s = active_session();
    let press = s.step(Event::KeyChanged { key: Key::KeyC, pressed: true });
    assert_eq!(
        press,
        vec![write(ControllerElement::Digital(ButtonId::B), 1), Action::Sync]
    );
    let release = s.step(Event::KeyChanged { key: Key::KeyC, pressed: false });
    assert_eq!(
        release,
        vec![write(ControllerElement::Digital(ButtonId::B), 0), Action::Sync]
    );
}

#[test]
fn axis_release_zeroes_regardless_of_the_other_key() {
    let mut s = active_session();
    // Press both keys of the horizontal axis, then release one: the release
    // zeroes the axis even though the other key is still held (the
    // documented quirk, asserted exactly).
    let press_a = s.step(Event::KeyChanged { key: Key::KeyA, pressed: true });
    assert_eq!(press_a, vec![write(axis(AxisId::LeftX), -127), Action::Sync]);
    let press_d = s.step(Event::KeyChanged { key: Key::KeyD, pressed: true });
    assert_eq!(press_d, vec![write(axis(AxisId::LeftX), 128), Action::Sync]);
    let release_d = s.step(Event::KeyChanged { key: Key::KeyD, pressed: false });
    assert_eq!(release_d, vec![write(axis(AxisId::LeftX), 0), Action::Sync]);
    // Vertical axis likewise.
    let press_w = s.step(Event::KeyChanged { key: Key::KeyW, pressed: true });
    assert_eq!(press_w, vec![write(axis(AxisId::LeftY), -127), Action::Sync]);
    let release_w = s.step(Event::KeyChanged { key: Key::KeyW, pressed: false });
    assert_eq!(release_w, vec![write(axis(AxisId::LeftY), 0), Action::Sync]);
}

#[test]
fn unbound_inputs_produce_no_device_calls() {
    let mut s = active_session();
    assert_eq!(s.step(Event::KeyChanged { key: Key::Unmapped, pressed: true }), vec![]);
    assert_eq!(s.step(Event::KeyChanged { key: Key::Unmapped, pressed: false }), vec![]);
    assert_eq!(s.step(Event::MouseButtonChanged { button: 2, pressed: true }), vec![]);
    assert_eq!(s.step(Event::MouseButtonChanged { button: 7, pressed: false }), vec![]);
}

#[test]
fn bound_mouse_buttons_drive_their_elements() {
    let mut s = active_session();
    let press = s.step(Event::MouseButtonChanged { button: 1, pressed: true });
    assert_eq!(
        press,
        vec![write(ControllerElement::Digital(ButtonId::X), 1), Action::Sync]
    );
    let release = s.step(Event::MouseButtonChanged { button: 1, pressed: false });
    assert_eq!(
        release,
        vec![write(ControllerElement::Digital(ButtonId::X), 0), Action::Sync]
    );
}

#[test]
fn exit_key_terminates_stops_the_helper_and_releases_the_device() {
    let mut s = active_session();
    let actions = s.step(Event::KeyChanged { key: Key::Delete, pressed: true });
    assert_eq!(actions, vec![Action::StopHelper, Action::ReleaseDevice]);
    // Terminated is absorbing: everything afterwards is inert, and the
    // helper is stopped and waited on exactly once in total.
    assert_eq!(s.step(Event::KeyChanged { key: Key::Delete, pressed: true }), vec![]);
    assert_eq!(
        s.step(Event::MouseMoved { delta: MotionDelta { dx_milli: 1000, dy_milli: 0 } }),
        vec![]
    );
    assert_eq!(s.step(Event::Ready), vec![]);
}

#[test]
fn exit_key_with_no_helper_only_releases_the_device() {
    let mut s = active_session();
    // The toggle key stops the helper first.
    let toggled = s.step(Event::KeyChanged { key: Key::Backslash, pressed: true });
    assert_eq!(toggled, vec![Action::StopHelper]);
    let actions = s.step(Event::KeyChanged { key: Key::Delete, pressed: true });
    assert_eq!(actions, vec![Action::ReleaseDevice]);
}

#[test]
fn toggle_key_flips_the_cursor_on_press_only() {
    let mut s = active_session();
    // Hidden after activation; a press shows it again.
    assert_eq!(
        s.step(Event::KeyChanged { key: Key::Backslash, pressed: true }),
        vec![Action::StopHelper]
    );
    // A release is ignored.
    assert_eq!(s.step(Event::KeyChanged { key: Key::Backslash, pressed: false }), vec![]);
    // The next press hides again.
    assert_eq!(
        s.step(Event::KeyChanged { key: Key::Backslash, pressed: true }),
        vec![Action::SpawnHelper]
    );
}

#[test]
fn failed_spawn_leaves_the_cursor_not_hidden() {
    let mut s = active_session();
    assert_eq!(s.step(Event::HelperSpawnFailed), vec![]);
    // The session now treats the cursor as visible: the toggle spawns anew.
    assert_eq!(
        s.step(Event::KeyChanged { key: Key::Backslash, pressed: true }),
        vec![Action::SpawnHelper]
    );
}

#[test]
fn window_close_terminates_a_window_managed_session() {
    let mut s = active_session();
    let actions = s.step(Event::WindowCloseRequested);
    assert_eq!(actions, vec![Action::StopHelper, Action::ReleaseDevice]);
    assert_eq!(s.step(Event::Ready), vec![]);
}

#[test]
fn every_write_is_followed_by_a_sync() {
    let mut s = Session::new(Strategy::WindowManaged, Profile::default());
    let events = [
        Event::Ready,
        Event::MouseMoved { delta: MotionDelta { dx_milli: 2500, dy_milli: -900 } },
        Event::KeyChanged { key: Key::KeyW, pressed: true },
        Event::MouseButtonChanged { button: 3, pressed: true },
        Event::TimerFired,
        Event::KeyChanged { key: Key::KeyW, pressed: false },
        Event::TimerFired,
        Event::KeyChanged { key: Key::Delete, pressed: true },
    ];
    for event in events {
        let actions = s.step(event);
        for (i, action) in actions.iter().enumerate() {
            if matches!(action, Action::Write { .. }) {
                assert_eq!(actions[i + 1], Action::Sync);
            }
        }
    }
}
