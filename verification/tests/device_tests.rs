use vpad::device::{axis_setups, device_name, PRODUCT_ID, VENDOR_ID};
use vpad::elements::{AxisId, AXIS_MAX, AXIS_MIN};

#[test]
fn the_device_impersonates_a_well_known_controller() {
    assert_eq!(device_name(), "Microsoft X-Box 360 pad");
    assert_eq!(VENDOR_ID, 0x045e);
    assert_eq!(PRODUCT_ID, 0x028e);
}

#[test]
fn four_axes_with_full_range_and_no_tolerance() {
    let setups = axis_setups();
    assert_eq!(setups.len(), 4);
    let order: Vec<AxisId> = setups.iter().map(|s| s.axis).collect();
    assert_eq!(order, vec![AxisId::LeftY, AxisId::LeftX, AxisId::RightX, AxisId::RightY]);
    for setup in setups {
        assert_eq!(setup.min, AXIS_MIN);
        assert_eq!(setup.max, AXIS_MAX);
        assert_eq!(setup.flat, 0);
        assert_eq!(setup.fuzz, 0);
    }
    assert_eq!(AXIS_MIN, -127);
    assert_eq!(AXIS_MAX, 128);
}
