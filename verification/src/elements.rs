//! The virtual controller's vocabulary: digital buttons, D-pad directions,
//! absolute axes, and the values they may carry.

use vstd::prelude::*;

verus! {

/// Lowest value an absolute axis may report.
pub const AXIS_MIN: i32 = -127;

/// Highest value an absolute axis may report.
pub const AXIS_MAX: i32 = 128;

/// A digital (pressed / released) button of the virtual gamepad.
#[derive(Clone, Copy, Debug, PartialEq, Eq, Structural)]
pub enum ButtonId {
    A,
    B,
    X,
    Y,
    Start,
    Select,
    TriggerLeft,
    TriggerRight,
    TriggerLeft2,
    TriggerRight2,
    ThumbLeft,
    ThumbRight,
}

/// A direction of the virtual gamepad's D-pad.
#[derive(Clone, Copy, Debug, PartialEq, Eq, Structural)]
pub enum DPadDirection {
    Up,
    Down,
    Left,
    Right,
}

/// One of the four absolute axes of the virtual gamepad
/// (the X and Y coordinates of the left and right analog sticks).
#[derive(Clone, Copy, Debug, PartialEq, Eq, Structural)]
pub enum AxisId {
    LeftX,
    LeftY,
    RightX,
    RightY,
}

/// The virtual-controller element a physical input maps to.
#[derive(Clone, Copy, Debug, PartialEq, Eq, Structural)]
pub enum ControllerElement {
    /// A digital button, driven with value 1 (pressed) or 0 (released).
    Digital(ButtonId),
    /// A D-pad direction, driven with value 1 (pressed) or 0 (released).
    Direction(DPadDirection),
    /// An absolute axis, driven with a value in `[AXIS_MIN, AXIS_MAX]`.
    Axis(AxisId),
}

/// Whether `v` lies within the declared range of an absolute axis.
pub open spec fn valid_axis_value(v: int) -> bool {
    AXIS_MIN <= v <= AXIS_MAX
}

/// Whether `v` is a legal value for a write to element `el`: a digital
/// element takes only 0 or 1, an axis takes any in-range axis value.
pub open spec fn valid_element_value(el: ControllerElement, v: int) -> bool {
    match el {
        ControllerElement::Digital(_) => v == 0 || v == 1,
        ControllerElement::Direction(_) => v == 0 || v == 1,
        ControllerElement::Axis(_) => valid_axis_value(v),
    }
}

} // verus!
