//! The virtual controller's identity and axis declaration.
//!
//! The emulated gamepad impersonates a well-known controller, so that
//! generic controller-detection logic on the consuming side recognizes it
//! without special-casing. It declares all digital controller elements and
//! the four absolute axes, each ranging over `[AXIS_MIN, AXIS_MAX]` with no
//! deadzone and no noise filtering (the motion shaper already smooths).

use vstd::prelude::*;

use crate::elements::{AxisId, AXIS_MAX, AXIS_MIN};

verus! {

/// The vendor identifier the virtual device reports.
pub const VENDOR_ID: u16 = 0x045e;

/// The product identifier the virtual device reports.
pub const PRODUCT_ID: u16 = 0x028e;

/// The device name the virtual device reports.
pub fn device_name() -> (r: &'static str)
    ensures
        r@ == "Microsoft X-Box 360 pad"@,
{
    "Microsoft X-Box 360 pad"
}

/// The declaration of one absolute axis: its range and its tolerance
/// (`flat` deadzone and `fuzz` noise filter, both zero here).
#[derive(Clone, Copy, Debug, PartialEq, Eq, Structural)]
pub struct AxisSetup {
    pub axis: AxisId,
    pub min: i32,
    pub max: i32,
    pub flat: i32,
    pub fuzz: i32,
}

/// The declaration of one axis with the fixed range and zero tolerances.
pub open spec fn axis_setup_spec(axis: AxisId) -> AxisSetup {
    AxisSetup { axis, min: AXIS_MIN, max: AXIS_MAX, flat: 0, fuzz: 0 }
}

/// The axes the virtual device declares, in declaration order.
pub open spec fn axis_setups_spec() -> Seq<AxisSetup> {
    seq![
        axis_setup_spec(AxisId::LeftY),
        axis_setup_spec(AxisId::LeftX),
        axis_setup_spec(AxisId::RightX),
        axis_setup_spec(AxisId::RightY),
    ]
}

/// The four absolute axes to declare when the virtual device is created.
pub fn axis_setups() -> (r: Vec<AxisSetup>)
    ensures
        r@ == axis_setups_spec(),
{
    let mut v: Vec<AxisSetup> = Vec::new();
    v.push(AxisSetup { axis: AxisId::LeftY, min: AXIS_MIN, max: AXIS_MAX, flat: 0, fuzz: 0 });
    v.push(AxisSetup { axis: AxisId::LeftX, min: AXIS_MIN, max: AXIS_MAX, flat: 0, fuzz: 0 });
    v.push(AxisSetup { axis: AxisId::RightX, min: AXIS_MIN, max: AXIS_MAX, flat: 0, fuzz: 0 });
    v.push(AxisSetup { axis: AxisId::RightY, min: AXIS_MIN, max: AXIS_MAX, flat: 0, fuzz: 0 });
    proof {
        assert(v@ =~= axis_setups_spec());
    }
    v
}

} // verus!
