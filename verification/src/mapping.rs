//! Mapping tables from physical inputs to virtual-controller elements.
//!
//! All three tables are pure, total and deterministic: a physical input with
//! no entry maps to `None`, which callers treat as "no effect". Several keys
//! intentionally alias to the same element (duplicate easy-access bindings
//! for the D-pad).

use vstd::prelude::*;

use crate::elements::{AxisId, ButtonId, ControllerElement, DPadDirection, AXIS_MAX, AXIS_MIN};

verus! {

/// A physical keyboard key, as the raw event source identifies it.
///
/// Only the keys the translator reacts to are distinguished; every other
/// key code collapses to `Unmapped`.
#[derive(Clone, Copy, Debug, PartialEq, Eq, Structural)]
pub enum Key {
    KeyA,
    KeyC,
    KeyD,
    KeyE,
    KeyF,
    KeyG,
    KeyI,
    KeyJ,
    KeyK,
    KeyL,
    KeyM,
    KeyN,
    KeyQ,
    KeyR,
    KeyS,
    KeyT,
    KeyV,
    KeyW,
    KeyX,
    Space,
    ShiftLeft,
    ControlLeft,
    /// The designated exit key.
    Delete,
    /// The designated manual cursor-visibility toggle key.
    Backslash,
    /// Any key the translator has no binding for.
    Unmapped,
}

/// A physical mouse button, as the raw event source numbers it.
pub type MouseButtonId = u32;

/// The table behind [`key_to_element`].
pub open spec fn key_to_element_spec(key: Key) -> Option<ControllerElement> {
    match key {
        Key::KeyC => Some(ControllerElement::Digital(ButtonId::B)),
        Key::Space => Some(ControllerElement::Digital(ButtonId::Y)),
        Key::ShiftLeft => Some(ControllerElement::Digital(ButtonId::A)),
        Key::KeyM => Some(ControllerElement::Digital(ButtonId::Start)),
        Key::KeyN => Some(ControllerElement::Digital(ButtonId::Select)),
        Key::KeyQ => Some(ControllerElement::Digital(ButtonId::TriggerLeft)),
        Key::KeyE => Some(ControllerElement::Digital(ButtonId::TriggerRight)),
        Key::KeyX => Some(ControllerElement::Digital(ButtonId::ThumbLeft)),
        Key::KeyG => Some(ControllerElement::Digital(ButtonId::ThumbRight)),
        Key::ControlLeft => Some(ControllerElement::Digital(ButtonId::TriggerLeft2)),
        Key::KeyI => Some(ControllerElement::Direction(DPadDirection::Up)),
        Key::KeyJ => Some(ControllerElement::Direction(DPadDirection::Left)),
        Key::KeyK => Some(ControllerElement::Direction(DPadDirection::Down)),
        Key::KeyL => Some(ControllerElement::Direction(DPadDirection::Right)),
        // Duplicate easy-access bindings for the D-pad.
        Key::KeyV => Some(ControllerElement::Direction(DPadDirection::Up)),
        Key::KeyR => Some(ControllerElement::Direction(DPadDirection::Left)),
        Key::KeyT => Some(ControllerElement::Direction(DPadDirection::Down)),
        Key::KeyF => Some(ControllerElement::Direction(DPadDirection::Right)),
        _ => None,
    }
}

/// Maps a physical key to the digital element or D-pad direction it drives,
/// or `None` when the key has no binding.
pub fn key_to_element(key: Key) -> (r: Option<ControllerElement>)
    ensures
        r == key_to_element_spec(key),
{
    match key {
        Key::KeyC => Some(ControllerElement::Digital(ButtonId::B)),
        Key::Space => Some(ControllerElement::Digital(ButtonId::Y)),
        Key::ShiftLeft => Some(ControllerElement::Digital(ButtonId::A)),
        Key::KeyM => Some(ControllerElement::Digital(ButtonId::Start)),
        Key::KeyN => Some(ControllerElement::Digital(ButtonId::Select)),
        Key::KeyQ => Some(ControllerElement::Digital(ButtonId::TriggerLeft)),
        Key::KeyE => Some(ControllerElement::Digital(ButtonId::TriggerRight)),
        Key::KeyX => Some(ControllerElement::Digital(ButtonId::ThumbLeft)),
        Key::KeyG => Some(ControllerElement::Digital(ButtonId::ThumbRight)),
        Key::ControlLeft => Some(ControllerElement::Digital(ButtonId::TriggerLeft2)),
        Key::KeyI => Some(ControllerElement::Direction(DPadDirection::Up)),
        Key::KeyJ => Some(ControllerElement::Direction(DPadDirection::Left)),
        Key::KeyK => Some(ControllerElement::Direction(DPadDirection::Down)),
        Key::KeyL => Some(ControllerElement::Direction(DPadDirection::Right)),
        Key::KeyV => Some(ControllerElement::Direction(DPadDirection::Up)),
        Key::KeyR => Some(ControllerElement::Direction(DPadDirection::Left)),
        Key::KeyT => Some(ControllerElement::Direction(DPadDirection::Down)),
        Key::KeyF => Some(ControllerElement::Direction(DPadDirection::Right)),
        _ => None,
    }
}

/// The table behind [`mouse_button_to_element`].
pub open spec fn mouse_button_to_element_spec(button: MouseButtonId) -> Option<
    ControllerElement,
> {
    if button == 1 {
        Some(ControllerElement::Digital(ButtonId::X))
    } else if button == 3 {
        Some(ControllerElement::Digital(ButtonId::TriggerRight2))
    } else {
        None
    }
}

/// Maps a physical mouse button to the digital element it drives, or `None`
/// when the button has no binding.
pub fn mouse_button_to_element(button: MouseButtonId) -> (r: Option<ControllerElement>)
    ensures
        r == mouse_button_to_element_spec(button),
{
    if button == 1 {
        Some(ControllerElement::Digital(ButtonId::X))
    } else if button == 3 {
        Some(ControllerElement::Digital(ButtonId::TriggerRight2))
    } else {
        None
    }
}

/// The table behind [`key_to_axis_nudge`].
pub open spec fn key_to_axis_nudge_spec(key: Key) -> Option<(AxisId, i32)> {
    match key {
        Key::KeyW => Some((AxisId::LeftY, AXIS_MIN)),
        Key::KeyA => Some((AxisId::LeftX, AXIS_MIN)),
        Key::KeyS => Some((AxisId::LeftY, AXIS_MAX)),
        Key::KeyD => Some((AxisId::LeftX, AXIS_MAX)),
        _ => None,
    }
}

/// Maps a physical key to the left-stick axis it drives and the extreme
/// value a press sets; a release always returns that axis to 0.
pub fn key_to_axis_nudge(key: Key) -> (r: Option<(AxisId, i32)>)
    ensures
        r == key_to_axis_nudge_spec(key),
        r matches Some((axis, v)) ==> v == AXIS_MIN || v == AXIS_MAX,
{
    match key {
        Key::KeyW => Some((AxisId::LeftY, AXIS_MIN)),
        Key::KeyA => Some((AxisId::LeftX, AXIS_MIN)),
        Key::KeyS => Some((AxisId::LeftY, AXIS_MAX)),
        Key::KeyD => Some((AxisId::LeftX, AXIS_MAX)),
        _ => None,
    }
}

/// Whether `key` appears in neither key mapping table.
pub open spec fn key_unbound(key: Key) -> bool {
    key_to_element_spec(key) is None && key_to_axis_nudge_spec(key) is None
}

} // verus!
