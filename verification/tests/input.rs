use x52::device::{PRODUCT_IDS, PRODUCT_X52_1, PRODUCT_X52_2, PRODUCT_X52_PRO, VENDOR_SAITEK};
use x52::hid::{match_device, Axis, AxisRange, AxisRanges, AxisReport, Button, ButtonState, HatPosition, InputReport};
use x52::DeviceVariant;

#[test]
fn axis_index_roundtrip() {
    for i in 0..Axis::COUNT {
        let a = Axis::from_index(i).unwrap();
        assert_eq!(a.index(), i);
    }
    assert_eq!(Axis::from_index(11), None);
    assert_eq!(Axis::Slider.index(), 6);
    assert_eq!(Axis::HatY.name(), "HatY");
}

#[test]
fn button_index_roundtrip() {
    for i in 0..Button::COUNT {
        let b = Button::from_index(i).unwrap();
        assert_eq!(b.index(), i);
    }
    assert_eq!(Button::from_index(40), None);
    assert_eq!(Button::from_index(14), Some(Button::TriggerStage2));
    assert_eq!(Button::StartStop.name(), "Start/Stop");
    assert_eq!(Button::Pov2Left.name(), "POV2 Left");
}

#[test]
fn hat_raw_roundtrip() {
    for v in 0..=8u8 {
        assert_eq!(HatPosition::from_raw(v).raw(), v);
    }
    assert_eq!(HatPosition::from_raw(9), HatPosition::Center);
    assert_eq!(HatPosition::from_raw(255), HatPosition::Center);
    assert_eq!(HatPosition::SouthWest.to_axis_values(), (-1, 1));
    assert_eq!(HatPosition::Center.to_axis_values(), (0, 0));
    assert_eq!(HatPosition::NorthEast.display_name(), "NE");
    assert_eq!(HatPosition::Center.display_name(), "Center");
    assert_eq!(HatPosition::default(), HatPosition::Center);
}

#[test]
fn axis_report_set_get() {
    let mut r = AxisReport::new();
    r.set(Axis::RY, -7);
    assert_eq!(r.get(Axis::RY), -7);
    assert_eq!(r.get(Axis::RX), 0);
    assert_eq!(r.get_by_index(5), Some(-7));
    assert_eq!(r.get_by_index(11), None);
    assert_eq!(r.as_slice().len(), 11);
    assert_eq!(r.as_slice()[5], -7);
}

#[test]
fn button_state_set_get_count() {
    let mut s = ButtonState::new();
    assert_eq!(s.count_pressed(), 0);
    s.set(Button::Reset, true);
    s.set(Button::C, true);
    assert!(s.is_pressed(Button::Reset));
    assert!(!s.is_pressed(Button::B));
    assert_eq!(s.get_by_index(34), Some(true));
    assert_eq!(s.get_by_index(40), None);
    assert_eq!(s.count_pressed(), 2);
    s.set(Button::C, false);
    assert_eq!(s.count_pressed(), 1);
    assert_eq!(s.as_slice().len(), 40);
}

#[test]
fn new_input_report_defaults() {
    let r = InputReport::new();
    assert_eq!(r.mode, 1);
    assert_eq!(r.hat, HatPosition::Center);
    assert_eq!(r.buttons.count_pressed(), 0);
    assert!(r.axes.as_slice().iter().all(|&v| v == 0));
}

#[test]
fn axis_ranges_per_variant() {
    let pro = AxisRanges::for_variant(DeviceVariant::X52Pro);
    let x52 = AxisRanges::for_variant(DeviceVariant::X52);
    assert_eq!(pro.get(Axis::X), AxisRange::new(0, 1023));
    assert_eq!(x52.get(Axis::X), AxisRange::new(0, 2047));
    assert_eq!(x52.get(Axis::RZ), AxisRange::new(0, 1023));
    assert_eq!(x52.get(Axis::ThumbY), AxisRange::new(0, 15));
    assert_eq!(pro.get(Axis::HatX), AxisRange::new(-1, 1));
    assert_eq!(pro.get(Axis::Slider).max, 255);
}

#[test]
fn variant_detection() {
    assert_eq!(DeviceVariant::from_product_id(PRODUCT_X52_PRO), Some(DeviceVariant::X52Pro));
    assert_eq!(DeviceVariant::from_product_id(PRODUCT_X52_1), Some(DeviceVariant::X52));
    assert_eq!(DeviceVariant::from_product_id(PRODUCT_X52_2), Some(DeviceVariant::X52));
    assert_eq!(DeviceVariant::from_product_id(0x1234), None);
    assert!(DeviceVariant::X52Pro.supports_led_control());
    assert!(!DeviceVariant::X52.supports_led_control());
    assert_eq!(DeviceVariant::X52Pro.name(), "X52 Pro");
    assert_eq!(DeviceVariant::X52.name(), "X52");
    assert_eq!(PRODUCT_IDS.len(), 3);
}

#[test]
fn hid_device_matching() {
    assert_eq!(match_device(1, 4, VENDOR_SAITEK, 0x0762), Some(DeviceVariant::X52Pro));
    assert_eq!(match_device(1, 4, VENDOR_SAITEK, 0x075c), Some(DeviceVariant::X52));
    assert_eq!(match_device(1, 5, VENDOR_SAITEK, 0x0762), None);
    assert_eq!(match_device(1, 4, 0x046d, 0x0762), None);
    assert_eq!(match_device(1, 4, VENDOR_SAITEK, 0x0001), None);
}

#[test]
fn button_names_are_distinct() {
    for i in 0..Button::COUNT {
        for j in 0..Button::COUNT {
            let a = Button::from_index(i).unwrap();
            let b = Button::from_index(j).unwrap();
            assert_eq!(i == j, a.name() == b.name());
        }
    }
}
