//! The session controller: the top-level state machine.
//!
//! The session consumes the serial stream of raw input events and emits, for
//! each event, the exact sequence of outside actions the shell must carry
//! out: virtual-controller writes (each immediately followed by a
//! synchronization), helper-process starts and stops, timer arming, and the
//! final device release. The whole transition function is given by
//! [`step_spec`], and [`Session::step`] is proved to compute exactly it.
//!
//! The lifecycle is `Uninitialized -> Active -> Terminated`, with
//! `Terminated` absorbing. Before activation and after termination every
//! event is inert.

use vstd::prelude::*;

use crate::cursor::{set_hidden_spec, CursorVisibility, HelperRequest};
use crate::elements::{valid_element_value, AxisId, ControllerElement};
use crate::mapping::{
    key_to_axis_nudge, key_to_axis_nudge_spec, key_to_element, key_to_element_spec, key_unbound,
    mouse_button_to_element, mouse_button_to_element_spec, Key, MouseButtonId,
};
use crate::shaper::{shape, shape_x_spec, shape_y_spec, MotionDelta, Profile};
use crate::timer::RecenterTimer;

verus! {

/// Which lifecycle hook drives the cursor-visibility controller.
///
/// `WindowManaged` sessions hide the cursor on activation, show it again on
/// termination, support the manual toggle key, and obey window-close
/// requests. `ExternallySpawned` sessions rely on a helper started outside
/// the session and manage none of that.
#[derive(Clone, Copy, Debug, PartialEq, Eq, Structural)]
pub enum Strategy {
    WindowManaged,
    ExternallySpawned,
}

/// The session lifecycle.
#[derive(Clone, Copy, Debug, PartialEq, Eq, Structural)]
pub enum Phase {
    Uninitialized,
    Active,
    Terminated,
}

/// A raw event delivered by the outside event source, or an outcome report
/// from a previously requested action.
#[derive(Clone, Copy, Debug, PartialEq, Eq, Structural)]
pub enum Event {
    /// The runtime environment is ready: the virtual device exists.
    Ready,
    /// A physical key changed state.
    KeyChanged { key: Key, pressed: bool },
    /// A physical mouse button changed state.
    MouseButtonChanged { button: MouseButtonId, pressed: bool },
    /// Relative mouse motion since the previous sample.
    MouseMoved { delta: MotionDelta },
    /// The recenter deadline elapsed.
    TimerFired,
    /// The session's window was asked to close.
    WindowCloseRequested,
    /// Carrying out a requested helper spawn failed.
    HelperSpawnFailed,
}

/// An outside action the shell must carry out, in order.
#[derive(Clone, Copy, Debug, PartialEq, Eq, Structural)]
pub enum Action {
    /// Write `value` to `element` on the virtual device.
    Write { element: ControllerElement, value: i32 },
    /// Synchronize the virtual device, publishing the writes so far.
    Sync,
    /// Start the cursor-hiding helper process.
    SpawnHelper,
    /// Kill the cursor-hiding helper process and wait for it.
    StopHelper,
    /// (Re-)arm the recenter deadline at now + `RECENTER_INTERVAL_MS`.
    ArmRecenterTimer,
    /// Release the virtual-device handle; the session is over.
    ReleaseDevice,
}

/// The session controller's state.
#[derive(Clone, Copy, Debug, PartialEq, Eq, Structural)]
pub struct Session {
    pub phase: Phase,
    pub cursor: CursorVisibility,
    pub recenter: RecenterTimer,
    pub profile: Profile,
    pub strategy: Strategy,
}

/// A write to one element, immediately followed by the mandatory
/// synchronization.
pub open spec fn write_then_sync(element: ControllerElement, value: i32) -> Seq<Action> {
    seq![Action::Write { element, value }, Action::Sync]
}

/// The actions that carry out a helper request, if any.
pub open spec fn helper_commands(req: Option<HelperRequest>) -> Seq<Action> {
    match req {
        Some(HelperRequest::Spawn) => seq![Action::SpawnHelper],
        Some(HelperRequest::Stop) => seq![Action::StopHelper],
        None => Seq::empty(),
    }
}

/// What a key event emits: an axis-nudge key drives its axis to the extreme
/// on press and back to 0 on release; a bound key drives its digital element
/// with 1 or 0; an unbound key emits nothing.
pub open spec fn key_commands_spec(key: Key, pressed: bool) -> Seq<Action> {
    match key_to_axis_nudge_spec(key) {
        Some((axis, extreme)) => write_then_sync(
            ControllerElement::Axis(axis),
            if pressed {
                extreme
            } else {
                0
            },
        ),
        None => match key_to_element_spec(key) {
            Some(element) => write_then_sync(
                element,
                if pressed {
                    1
                } else {
                    0
                },
            ),
            None => Seq::empty(),
        },
    }
}

/// What a mouse-button event emits.
pub open spec fn button_commands_spec(button: MouseButtonId, pressed: bool) -> Seq<Action> {
    match mouse_button_to_element_spec(button) {
        Some(element) => write_then_sync(
            element,
            if pressed {
                1
            } else {
                0
            },
        ),
        None => Seq::empty(),
    }
}

/// What a motion event emits: the shaped right-stick coordinates, then the
/// recenter deadline re-arm.
pub open spec fn motion_commands_spec(delta: MotionDelta, profile: Profile) -> Seq<Action> {
    write_then_sync(
        ControllerElement::Axis(AxisId::RightX),
        shape_x_spec(delta, profile) as i32,
    ) + write_then_sync(
        ControllerElement::Axis(AxisId::RightY),
        shape_y_spec(delta, profile) as i32,
    ) + seq![Action::ArmRecenterTimer]
}

/// The zeroing pair that recenters the right stick.
pub open spec fn recenter_commands_spec() -> Seq<Action> {
    write_then_sync(ControllerElement::Axis(AxisId::RightX), 0) + write_then_sync(
        ControllerElement::Axis(AxisId::RightY),
        0,
    )
}

/// The zeroing of all four axes performed on activation.
pub open spec fn zero_all_commands() -> Seq<Action> {
    write_then_sync(ControllerElement::Axis(AxisId::LeftX), 0) + write_then_sync(
        ControllerElement::Axis(AxisId::LeftY),
        0,
    ) + write_then_sync(ControllerElement::Axis(AxisId::RightX), 0) + write_then_sync(
        ControllerElement::Axis(AxisId::RightY),
        0,
    )
}

/// Activation: the session becomes `Active`, all axes are centered, and a
/// window-managed session asks for the cursor to be hidden.
pub open spec fn activate_spec(s: Session) -> (Session, Seq<Action>) {
    if s.strategy is WindowManaged {
        let (cursor, req) = set_hidden_spec(s.cursor, true);
        (
            Session { phase: Phase::Active, cursor, ..s },
            zero_all_commands() + helper_commands(req),
        )
    } else {
        (Session { phase: Phase::Active, ..s }, zero_all_commands())
    }
}

/// Termination: the cursor is shown again (stopping the helper if one runs),
/// the device handle is released, and the session is `Terminated`.
pub open spec fn terminate_spec(s: Session) -> (Session, Seq<Action>) {
    let (cursor, req) = set_hidden_spec(s.cursor, false);
    (
        Session { phase: Phase::Terminated, cursor, ..s },
        helper_commands(req) + seq![Action::ReleaseDevice],
    )
}

/// One step of an `Active` session.
pub open spec fn active_step_spec(s: Session, event: Event) -> (Session, Seq<Action>) {
    match event {
        Event::Ready => (s, Seq::empty()),
        Event::KeyChanged { key, pressed } => {
            if key == Key::Delete {
                terminate_spec(s)
            } else if key == Key::Backslash {
                if pressed && s.strategy is WindowManaged {
                    let (cursor, req) = set_hidden_spec(s.cursor, !s.cursor.helper_active);
                    (Session { cursor, ..s }, helper_commands(req))
                } else {
                    (s, Seq::empty())
                }
            } else {
                (s, key_commands_spec(key, pressed))
            }
        },
        Event::MouseButtonChanged { button, pressed } => (
            s,
            button_commands_spec(button, pressed),
        ),
        Event::MouseMoved { delta } => (
            Session { recenter: RecenterTimer { armed: true }, ..s },
            motion_commands_spec(delta, s.profile),
        ),
        Event::TimerFired => {
            if s.recenter.armed {
                (Session { recenter: RecenterTimer { armed: false }, ..s }, recenter_commands_spec())
            } else {
                (s, Seq::empty())
            }
        },
        Event::WindowCloseRequested => {
            if s.strategy is WindowManaged {
                terminate_spec(s)
            } else {
                (s, Seq::empty())
            }
        },
        Event::HelperSpawnFailed => (
            Session { cursor: CursorVisibility { helper_active: false }, ..s },
            Seq::empty(),
        ),
    }
}

/// The full transition function: what one delivered event does to the
/// session and which actions it emits.
pub open spec fn step_spec(s: Session, event: Event) -> (Session, Seq<Action>) {
    match s.phase {
        Phase::Terminated => (s, Seq::empty()),
        Phase::Uninitialized => match event {
            Event::Ready => activate_spec(s),
            _ => (s, Seq::empty()),
        },
        Phase::Active => active_step_spec(s, event),
    }
}

/// Every write is immediately followed by a synchronization, so a consumer
/// of the virtual device never observes a half-updated frame.
pub open spec fn writes_synced(actions: Seq<Action>) -> bool {
    forall|i: int|
        0 <= i < actions.len() && (#[trigger] actions[i]) is Write ==> i + 1 < actions.len()
            && actions[i + 1] is Sync
}

/// Every write carries a legal value for its element: 0 or 1 for digital
/// elements, an in-range value for axes.
pub open spec fn commands_valid(actions: Seq<Action>) -> bool {
    forall|i: int|
        0 <= i < actions.len() ==> (#[trigger] actions[i] matches Action::Write {
            element,
            value,
        } ==> valid_element_value(element, value as int))
}

/// No touch of the virtual device: neither a write nor a synchronization.
pub open spec fn no_sink_calls(actions: Seq<Action>) -> bool {
    forall|i: int| 0 <= i < actions.len() ==> !(#[trigger] actions[i] is Write) && !(actions[i] is Sync)
}

impl Session {
    /// The session's structural invariant: its profile is well formed.
    pub open spec fn wf(self) -> bool {
        self.profile.wf()
    }

    /// A fresh, not yet activated session.
    pub fn new(strategy: Strategy, profile: Profile) -> (r: Session)
        requires
            profile.wf(),
        ensures
            r.phase is Uninitialized,
            !r.cursor.helper_active,
            !r.recenter.armed,
            r.profile == profile,
            r.strategy == strategy,
            r.wf(),
    {
        Session {
            phase: Phase::Uninitialized,
            cursor: CursorVisibility::new(),
            recenter: RecenterTimer::new(),
            profile,
            strategy,
        }
    }

    /// Delivers one event: the session moves to exactly the state
    /// [`step_spec`] gives, and returns exactly the actions it gives, in
    /// order, for the shell to carry out.
    pub fn step(&mut self, event: Event) -> (actions: Vec<Action>)
        requires
            old(self).wf(),
        ensures
            *final(self) == step_spec(*old(self), event).0,
            actions@ == step_spec(*old(self), event).1,
            final(self).wf(),
    {
        match self.phase {
            Phase::Terminated => Vec::new(),
            Phase::Uninitialized => match event {
                Event::Ready => self.activate(),
                _ => Vec::new(),
            },
            Phase::Active => self.active_step(event),
        }
    }

    /// Carries out [`activate_spec`].
    fn activate(&mut self)
        -> (actions: Vec<Action>)
        requires
            old(self).phase is Uninitialized,
        ensures
            *final(self) == activate_spec(*old(self)).0,
            actions@ == activate_spec(*old(self)).1,
    {
        let ghost s0 = *self;
        let mut v: Vec<Action> = Vec::new();
        push_write_sync(&mut v, ControllerElement::Axis(AxisId::LeftX), 0);
        push_write_sync(&mut v, ControllerElement::Axis(AxisId::LeftY), 0);
        push_write_sync(&mut v, ControllerElement::Axis(AxisId::RightX), 0);
        push_write_sync(&mut v, ControllerElement::Axis(AxisId::RightY), 0);
        self.phase = Phase::Active;
        match self.strategy {
            Strategy::WindowManaged => {
                let req = self.cursor.set_hidden(true);
                push_helper(&mut v, req);
            },
            Strategy::ExternallySpawned => {},
        }
        proof {
            assert(v@ =~= activate_spec(s0).1);
        }
        v
    }

    /// Carries out [`terminate_spec`].
    fn terminate(&mut self) -> (actions: Vec<Action>)
        ensures
            *final(self) == terminate_spec(*old(self)).0,
            actions@ == terminate_spec(*old(self)).1,
    {
        let ghost s0 = *self;
        let mut v: Vec<Action> = Vec::new();
        let req = self.cursor.set_hidden(false);
        push_helper(&mut v, req);
        v.push(Action::ReleaseDevice);
        self.phase = Phase::Terminated;
        proof {
            assert(v@ =~= terminate_spec(s0).1);
        }
        v
    }

    /// Carries out [`active_step_spec`].
    fn active_step(&mut self, event: Event) -> (actions: Vec<Action>)
        requires
            old(self).wf(),
            old(self).phase is Active,
        ensures
            *final(self) == active_step_spec(*old(self), event).0,
            actions@ == active_step_spec(*old(self), event).1,
    {
        let ghost s0 = *self;
        match event {
            Event::Ready => Vec::new(),
            Event::KeyChanged { key, pressed } => {
                if key == Key::Delete {
                    self.terminate()
                } else if key == Key::Backslash {
                    let window_managed = match self.strategy {
                        Strategy::WindowManaged => true,
                        Strategy::ExternallySpawned => false,
                    };
                    if pressed && window_managed {
                        let hidden = self.cursor.is_hidden();
                        let req = self.cursor.set_hidden(!hidden);
                        let mut v: Vec<Action> = Vec::new();
                        push_helper(&mut v, req);
                        proof {
                            assert(v@ =~= active_step_spec(s0, event).1);
                        }
                        v
                    } else {
                        Vec::new()
                    }
                } else {
                    key_commands(key, pressed)
                }
            },
            Event::MouseButtonChanged { button, pressed } => button_commands(button, pressed),
            Event::MouseMoved { delta } => {
                let (sx, sy) = shape(delta, self.profile);
                let mut v: Vec<Action> = Vec::new();
                push_write_sync(&mut v, ControllerElement::Axis(AxisId::RightX), sx);
                push_write_sync(&mut v, ControllerElement::Axis(AxisId::RightY), sy);
                v.push(Action::ArmRecenterTimer);
                self.recenter.on_motion();
                proof {
                    assert(v@ =~= motion_commands_spec(delta, s0.profile));
                }
                v
            },
            Event::TimerFired => {
                let fire = self.recenter.on_expiry();
                if fire {
                    let mut v: Vec<Action> = Vec::new();
                    push_write_sync(&mut v, ControllerElement::Axis(AxisId::RightX), 0);
                    push_write_sync(&mut v, ControllerElement::Axis(AxisId::RightY), 0);
                    proof {
                        assert(v@ =~= recenter_commands_spec());
                    }
                    v
                } else {
                    Vec::new()
                }
            },
            Event::WindowCloseRequested => {
                let window_managed = match self.strategy {
                    Strategy::WindowManaged => true,
                    Strategy::ExternallySpawned => false,
                };
                if window_managed {
                    self.terminate()
                } else {
                    Vec::new()
                }
            },
            Event::HelperSpawnFailed => {
                self.cursor.spawn_failed();
                Vec::new()
            },
        }
    }
}

/// Emits the commands for one key event; exactly [`key_commands_spec`].
pub fn key_commands(key: Key, pressed: bool) -> (actions: Vec<Action>)
    ensures
        actions@ == key_commands_spec(key, pressed),
{
    let mut v: Vec<Action> = Vec::new();
    if let Some((axis, extreme)) = key_to_axis_nudge(key) {
        push_write_sync(
            &mut v,
            ControllerElement::Axis(axis),
            if pressed {
                extreme
            } else {
                0
            },
        );
    } else if let Some(element) = key_to_element(key) {
        push_write_sync(
            &mut v,
            element,
            if pressed {
                1
            } else {
                0
            },
        );
    }
    proof {
        assert(v@ =~= key_commands_spec(key, pressed));
    }
    v
}

/// Emits the commands for one mouse-button event; exactly
/// [`button_commands_spec`].
pub fn button_commands(button: MouseButtonId, pressed: bool) -> (actions: Vec<Action>)
    ensures
        actions@ == button_commands_spec(button, pressed),
{
    let mut v: Vec<Action> = Vec::new();
    if let Some(element) = mouse_button_to_element(button) {
        push_write_sync(
            &mut v,
            element,
            if pressed {
                1
            } else {
                0
            },
        );
    }
    proof {
        assert(v@ =~= button_commands_spec(button, pressed));
    }
    v
}

/// Appends a write and its synchronization.
fn push_write_sync(v: &mut Vec<Action>, element: ControllerElement, value: i32)
    ensures
        final(v)@ == old(v)@ + write_then_sync(element, value),
{
    v.push(Action::Write { element, value });
    v.push(Action::Sync);
    proof {
        assert(v@ =~= old(v)@ + write_then_sync(element, value));
    }
}

/// Appends the actions that carry out a helper request.
fn push_helper(v: &mut Vec<Action>, req: Option<HelperRequest>)
    ensures
        final(v)@ == old(v)@ + helper_commands(req),
{
    match req {
        Some(HelperRequest::Spawn) => v.push(Action::SpawnHelper),
        Some(HelperRequest::Stop) => v.push(Action::StopHelper),
        None => {},
    }
    proof {
        assert(v@ =~= old(v)@ + helper_commands(req));
    }
}

/// Concatenation preserves all three command-sequence disciplines (a
/// sequence whose writes are all synced never ends in a write, so no write
/// can lose its synchronization across the seam).
proof fn lemma_disciplines_concat(a: Seq<Action>, b: Seq<Action>)
    requires
        writes_synced(a),
        writes_synced(b),
        commands_valid(a),
        commands_valid(b),
    ensures
        writes_synced(a + b),
        commands_valid(a + b),
{
    assert forall|i: int| 0 <= i < (a + b).len() && (#[trigger] (a + b)[i]) is Write implies i + 1
        < (a + b).len() && (a + b)[i + 1] is Sync by {
        if i < a.len() {
            assert(a[i] is Write);
            assert((a + b)[i + 1] == a[i + 1]);
        } else {
            assert(b[i - a.len()] is Write);
            assert((a + b)[i + 1] == b[i + 1 - a.len()]);
        }
    }
    assert forall|i: int| 0 <= i < (a + b).len() implies (#[trigger] (a + b)[i] matches Action::Write {
        element,
        value,
    } ==> valid_element_value(element, value as int)) by {
        if i < a.len() {
            assert((a + b)[i] == a[i]);
        } else {
            assert((a + b)[i] == b[i - a.len()]);
        }
    }
}

/// Concatenation preserves the absence of device calls.
proof fn lemma_no_sink_calls_concat(a: Seq<Action>, b: Seq<Action>)
    requires
        no_sink_calls(a),
        no_sink_calls(b),
    ensures
        no_sink_calls(a + b),
{
    assert forall|i: int| 0 <= i < (a + b).len() implies !(#[trigger] (a + b)[i] is Write) && !((a
        + b)[i] is Sync) by {
        if i < a.len() {
            assert((a + b)[i] == a[i]);
        } else {
            assert((a + b)[i] == b[i - a.len()]);
        }
    }
}

/// A write-then-sync block obeys both device disciplines when its value is
/// legal for its element.
proof fn lemma_write_then_sync_ok(element: ControllerElement, value: i32)
    requires
        valid_element_value(element, value as int),
    ensures
        writes_synced(write_then_sync(element, value)),
        commands_valid(write_then_sync(element, value)),
{
    let s = write_then_sync(element, value);
    assert forall|i: int| 0 <= i < s.len() && (#[trigger] s[i]) is Write implies i + 1 < s.len()
        && s[i + 1] is Sync by {
        assert(s[1] is Sync);
    }
}

/// A sequence of one non-device action obeys every discipline.
proof fn lemma_lone_action_ok(a: Action)
    requires
        !(a is Write),
        !(a is Sync),
    ensures
        writes_synced(seq![a]),
        commands_valid(seq![a]),
        no_sink_calls(seq![a]),
{
}

/// The empty sequence obeys every discipline.
proof fn lemma_empty_ok()
    ensures
        writes_synced(Seq::<Action>::empty()),
        commands_valid(Seq::<Action>::empty()),
        no_sink_calls(Seq::<Action>::empty()),
{
}

/// Helper-request actions never touch the device.
proof fn lemma_helper_commands_ok(req: Option<HelperRequest>)
    ensures
        writes_synced(helper_commands(req)),
        commands_valid(helper_commands(req)),
        no_sink_calls(helper_commands(req)),
{
    match req {
        Some(HelperRequest::Spawn) => lemma_lone_action_ok(Action::SpawnHelper),
        Some(HelperRequest::Stop) => lemma_lone_action_ok(Action::StopHelper),
        None => lemma_empty_ok(),
    }
}

/// Key commands obey the device disciplines.
proof fn lemma_key_commands_ok(key: Key, pressed: bool)
    ensures
        writes_synced(key_commands_spec(key, pressed)),
        commands_valid(key_commands_spec(key, pressed)),
{
    match key_to_axis_nudge_spec(key) {
        Some((axis, extreme)) => {
            let value: i32 = if pressed {
                extreme
            } else {
                0
            };
            lemma_write_then_sync_ok(ControllerElement::Axis(axis), value);
        },
        None => match key_to_element_spec(key) {
            Some(element) => {
                let value: i32 = if pressed {
                    1
                } else {
                    0
                };
                lemma_write_then_sync_ok(element, value);
            },
            None => lemma_empty_ok(),
        },
    }
}

/// Mouse-button commands obey the device disciplines.
proof fn lemma_button_commands_ok(button: MouseButtonId, pressed: bool)
    ensures
        writes_synced(button_commands_spec(button, pressed)),
        commands_valid(button_commands_spec(button, pressed)),
{
    match mouse_button_to_element_spec(button) {
        Some(element) => {
            let value: i32 = if pressed {
                1
            } else {
                0
            };
            lemma_write_then_sync_ok(element, value);
        },
        None => lemma_empty_ok(),
    }
}

/// Motion commands obey the device disciplines: the shaped values are always
/// in range, whatever the delta.
proof fn lemma_motion_commands_ok(delta: MotionDelta, profile: Profile)
    ensures
        writes_synced(motion_commands_spec(delta, profile)),
        commands_valid(motion_commands_spec(delta, profile)),
{
    crate::shaper::lemma_shaped_of_in_range(crate::shaper::mapped_x(delta, profile));
    crate::shaper::lemma_shaped_of_in_range(crate::shaper::mapped_y(delta, profile));
    lemma_write_then_sync_ok(
        ControllerElement::Axis(AxisId::RightX),
        shape_x_spec(delta, profile) as i32,
    );
    lemma_write_then_sync_ok(
        ControllerElement::Axis(AxisId::RightY),
        shape_y_spec(delta, profile) as i32,
    );
    lemma_lone_action_ok(Action::ArmRecenterTimer);
    lemma_disciplines_concat(
        write_then_sync(ControllerElement::Axis(AxisId::RightX), shape_x_spec(delta, profile) as i32),
        write_then_sync(ControllerElement::Axis(AxisId::RightY), shape_y_spec(delta, profile) as i32),
    );
    lemma_disciplines_concat(
        write_then_sync(ControllerElement::Axis(AxisId::RightX), shape_x_spec(delta, profile) as i32)
            + write_then_sync(
            ControllerElement::Axis(AxisId::RightY),
            shape_y_spec(delta, profile) as i32,
        ),
        seq![Action::ArmRecenterTimer],
    );
}

/// The recentering pair obeys the device disciplines.
proof fn lemma_recenter_commands_ok()
    ensures
        writes_synced(recenter_commands_spec()),
        commands_valid(recenter_commands_spec()),
{
    lemma_write_then_sync_ok(ControllerElement::Axis(AxisId::RightX), 0);
    lemma_write_then_sync_ok(ControllerElement::Axis(AxisId::RightY), 0);
    lemma_disciplines_concat(
        write_then_sync(ControllerElement::Axis(AxisId::RightX), 0),
        write_then_sync(ControllerElement::Axis(AxisId::RightY), 0),
    );
}

/// The activation zeroing obeys the device disciplines.
proof fn lemma_zero_all_ok()
    ensures
        writes_synced(zero_all_commands()),
        commands_valid(zero_all_commands()),
{
    let lx = write_then_sync(ControllerElement::Axis(AxisId::LeftX), 0);
    let ly = write_then_sync(ControllerElement::Axis(AxisId::LeftY), 0);
    let rx = write_then_sync(ControllerElement::Axis(AxisId::RightX), 0);
    let ry = write_then_sync(ControllerElement::Axis(AxisId::RightY), 0);
    lemma_write_then_sync_ok(ControllerElement::Axis(AxisId::LeftX), 0);
    lemma_write_then_sync_ok(ControllerElement::Axis(AxisId::LeftY), 0);
    lemma_write_then_sync_ok(ControllerElement::Axis(AxisId::RightX), 0);
    lemma_write_then_sync_ok(ControllerElement::Axis(AxisId::RightY), 0);
    lemma_disciplines_concat(lx, ly);
    lemma_disciplines_concat(lx + ly, rx);
    lemma_disciplines_concat(lx + ly + rx, ry);
}

/// The termination actions obey the device disciplines.
proof fn lemma_terminate_ok(s: Session)
    ensures
        writes_synced(terminate_spec(s).1),
        commands_valid(terminate_spec(s).1),
        no_sink_calls(terminate_spec(s).1),
{
    let (_, req) = set_hidden_spec(s.cursor, false);
    lemma_helper_commands_ok(req);
    lemma_lone_action_ok(Action::ReleaseDevice);
    lemma_disciplines_concat(helper_commands(req), seq![Action::ReleaseDevice]);
    lemma_no_sink_calls_concat(helper_commands(req), seq![Action::ReleaseDevice]);
}

/// The activation actions obey the device disciplines.
proof fn lemma_activate_ok(s: Session)
    ensures
        writes_synced(activate_spec(s).1),
        commands_valid(activate_spec(s).1),
{
    lemma_zero_all_ok();
    if s.strategy is WindowManaged {
        let (_, req) = set_hidden_spec(s.cursor, true);
        lemma_helper_commands_ok(req);
        lemma_disciplines_concat(zero_all_commands(), helper_commands(req));
    }
}

/// The synchronization invariant, for every state and every event: the
/// actions one step emits sync every write immediately, and every written
/// value is legal for its element. A consumer of the virtual device
/// therefore never observes a half-updated frame or an out-of-range value.
pub proof fn lemma_step_commands_well_formed(s: Session, event: Event)
    ensures
        writes_synced(step_spec(s, event).1),
        commands_valid(step_spec(s, event).1),
{
    match s.phase {
        Phase::Terminated => lemma_empty_ok(),
        Phase::Uninitialized => match event {
            Event::Ready => lemma_activate_ok(s),
            _ => lemma_empty_ok(),
        },
        Phase::Active => match event {
            Event::Ready => lemma_empty_ok(),
            Event::KeyChanged { key, pressed } => {
                if key == Key::Delete {
                    lemma_terminate_ok(s);
                } else if key == Key::Backslash {
                    if pressed && s.strategy is WindowManaged {
                        let (_, req) = set_hidden_spec(s.cursor, !s.cursor.helper_active);
                        lemma_helper_commands_ok(req);
                    } else {
                        lemma_empty_ok();
                    }
                } else {
                    lemma_key_commands_ok(key, pressed);
                }
            },
            Event::MouseButtonChanged { button, pressed } => lemma_button_commands_ok(
                button,
                pressed,
            ),
            Event::MouseMoved { delta } => lemma_motion_commands_ok(delta, s.profile),
            Event::TimerFired => {
                if s.recenter.armed {
                    lemma_recenter_commands_ok();
                } else {
                    lemma_empty_ok();
                }
            },
            Event::WindowCloseRequested => {
                if s.strategy is WindowManaged {
                    lemma_terminate_ok(s);
                } else {
                    lemma_empty_ok();
                }
            },
            Event::HelperSpawnFailed => lemma_empty_ok(),
        },
    }
}

/// A key bound in no mapping table never touches the virtual device,
/// whatever the session state.
pub proof fn lemma_unbound_key_no_sink_calls(s: Session, key: Key, pressed: bool)
    requires
        key_unbound(key),
    ensures
        no_sink_calls(step_spec(s, Event::KeyChanged { key, pressed }).1),
{
    match s.phase {
        Phase::Terminated => lemma_empty_ok(),
        Phase::Uninitialized => lemma_empty_ok(),
        Phase::Active => {
            if key == Key::Delete {
                lemma_terminate_ok(s);
            } else if key == Key::Backslash {
                if pressed && s.strategy is WindowManaged {
                    let (_, req) = set_hidden_spec(s.cursor, !s.cursor.helper_active);
                    lemma_helper_commands_ok(req);
                } else {
                    lemma_empty_ok();
                }
            } else {
                lemma_empty_ok();
            }
        },
    }
}

/// A key bound in no mapping table, other than the exit and toggle keys, is
/// completely inert: no state change, no actions.
pub proof fn lemma_unmapped_key_is_inert(s: Session, key: Key, pressed: bool)
    requires
        key_unbound(key),
        key != Key::Delete,
        key != Key::Backslash,
    ensures
        step_spec(s, Event::KeyChanged { key, pressed }) == (s, Seq::<Action>::empty()),
{
}

/// A mouse button bound in no mapping table is completely inert.
pub proof fn lemma_unmapped_button_is_inert(s: Session, button: MouseButtonId, pressed: bool)
    requires
        mouse_button_to_element_spec(button) is None,
    ensures
        step_spec(s, Event::MouseButtonChanged { button, pressed }) == (
            s,
            Seq::<Action>::empty(),
        ),
{
}

/// A terminated session is absorbing: every further event changes nothing
/// and emits nothing.
pub proof fn lemma_terminated_is_absorbing(s: Session, event: Event)
    requires
        s.phase is Terminated,
    ensures
        step_spec(s, event) == (s, Seq::<Action>::empty()),
{
}

/// The axis-nudge quirk, exactly as bound: while active, pressing an axis
/// key drives its axis to the extreme, and releasing it drives the axis to
/// 0 — unconditionally. The session keeps no per-key state, so this holds
/// whatever the other key of the same axis is doing.
pub proof fn lemma_axis_key_sets_and_zeroes(s: Session, key: Key, axis: AxisId, extreme: i32)
    requires
        s.phase is Active,
        key_to_axis_nudge_spec(key) == Some((axis, extreme)),
    ensures
        step_spec(s, Event::KeyChanged { key, pressed: true }) == (
            s,
            write_then_sync(ControllerElement::Axis(axis), extreme),
        ),
        step_spec(s, Event::KeyChanged { key, pressed: false }) == (
            s,
            write_then_sync(ControllerElement::Axis(axis), 0),
        ),
{
}

/// A motion event leaves the session active and (re-)arms the recenter
/// deadline, cancelling any pending recentering in favor of a later one.
pub proof fn lemma_motion_rearms(s: Session, delta: MotionDelta)
    requires
        s.phase is Active,
    ensures
        step_spec(s, Event::MouseMoved { delta }).0.recenter.armed,
        step_spec(s, Event::MouseMoved { delta }).0.phase is Active,
{
}

/// After a motion event, one quiet deadline expiry recenters the right
/// stick exactly once: the first expiry emits exactly the zeroing pair, and
/// a second expiry with no intervening motion emits nothing.
pub proof fn lemma_recenter_fires_exactly_once(s: Session, delta: MotionDelta)
    requires
        s.phase is Active,
    ensures
        ({
            let (s1, motion_actions) = step_spec(s, Event::MouseMoved { delta });
            let (s2, zeroing) = step_spec(s1, Event::TimerFired);
            let (s3, again) = step_spec(s2, Event::TimerFired);
            &&& zeroing == recenter_commands_spec()
            &&& !s2.recenter.armed
            &&& again == Seq::<Action>::empty()
            &&& s3 == s2
        }),
{
}

/// The exit key, while active, terminates the session: the helper process
/// (if one runs) is stopped exactly once, then the device is released, and
/// nothing is left running.
pub proof fn lemma_exit_key_terminates(s: Session, pressed: bool)
    requires
        s.phase is Active,
    ensures
        ({
            let (s1, actions) = step_spec(s, Event::KeyChanged { key: Key::Delete, pressed });
            &&& s1.phase is Terminated
            &&& !s1.cursor.helper_active
            &&& actions == if s.cursor.helper_active {
                seq![Action::StopHelper, Action::ReleaseDevice]
            } else {
                seq![Action::ReleaseDevice]
            }
        }),
{
    let actions = step_spec(s, Event::KeyChanged { key: Key::Delete, pressed }).1;
    if s.cursor.helper_active {
        assert(actions =~= seq![Action::StopHelper, Action::ReleaseDevice]);
    } else {
        assert(actions =~= seq![Action::ReleaseDevice]);
    }
}

} // verus!
