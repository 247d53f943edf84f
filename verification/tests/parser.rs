use x52::hid::{
    parse_report, parse_x52, parse_x52_pro, Axis, AxisRanges, AxisReport, Button, ButtonState, Error,
    HatPosition, InputReport,
};
use x52::DeviceVariant;

#[test]
fn test_parse_x52_length_check() {
    let mut report = InputReport::new();
    let short_data = [0u8; 10];
    assert!(parse_x52(&short_data, &mut report).is_err());
}

#[test]
fn test_parse_x52_pro_length_check() {
    let mut report = InputReport::new();
    let short_data = [0u8; 10];
    assert!(parse_x52_pro(&short_data, &mut report).is_err());
}

#[test]
fn test_parse_x52_axes() {
    let mut report = InputReport::new();
    // Simple test data with known values
    let mut data = [0u8; 14];

    // Set X=100, Y=200, RZ=300 in packed format
    // X: bits 0-10, Y: bits 11-21, RZ: bits 22-31
    let packed = 100u32 | (200u32 << 11) | (300u32 << 22);
    data[0..4].copy_from_slice(&packed.to_le_bytes());

    parse_x52(&data, &mut report).unwrap();

    assert_eq!(report.axes.get(Axis::X), 100);
    assert_eq!(report.axes.get(Axis::Y), 200);
    assert_eq!(report.axes.get(Axis::RZ), 300);
}

#[test]
fn test_hat_position_conversion() {
    let pos = HatPosition::NorthEast;
    let (x, y) = pos.to_axis_values();
    assert_eq!(x, 1);
    assert_eq!(y, -1);
}

#[test]
fn x52_pro_axes_are_ten_bits() {
    let mut report = InputReport::new();
    let mut data = [0u8; 15];
    let packed = 1000u32 | (513u32 << 10) | (1023u32 << 20);
    data[0..4].copy_from_slice(&packed.to_le_bytes());
    data[4] = 7;
    data[5] = 8;
    data[6] = 9;
    data[7] = 250;
    data[14] = 0x3c;
    parse_x52_pro(&data, &mut report).unwrap();
    assert_eq!(report.axes.get(Axis::X), 1000);
    assert_eq!(report.axes.get(Axis::Y), 513);
    assert_eq!(report.axes.get(Axis::RZ), 1023);
    assert_eq!(report.axes.get(Axis::Z), 7);
    assert_eq!(report.axes.get(Axis::RX), 8);
    assert_eq!(report.axes.get(Axis::RY), 9);
    assert_eq!(report.axes.get(Axis::Slider), 250);
    assert_eq!(report.axes.get(Axis::ThumbX), 0xc);
    assert_eq!(report.axes.get(Axis::ThumbY), 0x3);
}

#[test]
fn x52_twist_uses_top_ten_bits() {
    let mut report = InputReport::new();
    let data = [0xff, 0xff, 0xff, 0xff, 0, 0, 0, 0, 0, 0, 0, 0, 0, 0];
    parse_x52(&data, &mut report).unwrap();
    assert_eq!(report.axes.get(Axis::X), 2047);
    assert_eq!(report.axes.get(Axis::Y), 2047);
    assert_eq!(report.axes.get(Axis::RZ), 1023);
}

#[test]
fn x52_hat_and_thumbstick() {
    let mut report = InputReport::new();
    let mut data = [0u8; 14];
    data[12] = 0x30; // hat East in the high nibble
    data[13] = 0x5a; // thumb X = 0xa, Y = 0x5
    parse_x52(&data, &mut report).unwrap();
    assert_eq!(report.hat, HatPosition::East);
    assert_eq!(report.axes.get(Axis::HatX), 1);
    assert_eq!(report.axes.get(Axis::HatY), 0);
    assert_eq!(report.axes.get(Axis::ThumbX), 0xa);
    assert_eq!(report.axes.get(Axis::ThumbY), 0x5);
}

#[test]
fn x52_pro_hat_is_in_byte_13() {
    let mut report = InputReport::new();
    let mut data = [0u8; 15];
    data[13] = 0x80;
    parse_x52_pro(&data, &mut report).unwrap();
    assert_eq!(report.hat, HatPosition::NorthWest);
    assert_eq!(report.axes.get(Axis::HatX), -1);
    assert_eq!(report.axes.get(Axis::HatY), -1);
}

#[test]
fn hat_values_above_eight_read_centered() {
    let mut report = InputReport::new();
    let mut data = [0u8; 14];
    data[12] = 0xf0;
    parse_x52(&data, &mut report).unwrap();
    assert_eq!(report.hat, HatPosition::Center);
    assert_eq!(report.axes.get(Axis::HatX), 0);
}

#[test]
fn button_bits_differ_between_variants() {
    // bit 1 is the second trigger stage on the X52, Fire on the X52 Pro
    let mut data = [0u8; 15];
    data[8] = 0b10;
    let mut report = InputReport::new();
    parse_x52(&data[..14], &mut report).unwrap();
    assert!(report.buttons.is_pressed(Button::TriggerStage2));
    assert!(!report.buttons.is_pressed(Button::Fire));
    let mut report = InputReport::new();
    parse_x52_pro(&data, &mut report).unwrap();
    assert!(report.buttons.is_pressed(Button::Fire));
    assert!(!report.buttons.is_pressed(Button::TriggerStage2));
}

#[test]
fn x52_pro_function_button_is_bit_24() {
    let mut data = [0u8; 15];
    data[11] = 0x01; // bit 24
    let mut report = InputReport::new();
    parse_x52_pro(&data, &mut report).unwrap();
    assert!(report.buttons.is_pressed(Button::Function));
    assert_eq!(report.buttons.count_pressed(), 1);
}

#[test]
fn x52_keeps_buttons_it_does_not_report() {
    let mut report = InputReport::new();
    report.buttons.set(Button::Select, true);
    report.buttons.set(Button::Down, true);
    report.buttons.set(Button::A, true);
    let data = [0u8; 14];
    parse_x52(&data, &mut report).unwrap();
    assert!(report.buttons.is_pressed(Button::Select));
    assert!(report.buttons.is_pressed(Button::Down));
    assert!(!report.buttons.is_pressed(Button::A));
}

#[test]
fn mode_follows_single_mode_button() {
    let mut report = InputReport::new();
    // X52: Mode2 is bit 30 -> byte 11, bit 6
    let mut data = [0u8; 14];
    data[11] = 0x40;
    parse_x52(&data, &mut report).unwrap();
    assert_eq!(report.mode, 2);
    // two mode buttons at once keep the mode
    data[11] = 0x60;
    parse_x52(&data, &mut report).unwrap();
    assert_eq!(report.mode, 2);
    // none pressed keeps the mode
    let data = [0u8; 14];
    parse_x52(&data, &mut report).unwrap();
    assert_eq!(report.mode, 2);
}

#[test]
fn x52_pro_mode_three() {
    let mut report = InputReport::new();
    let mut data = [0u8; 15];
    data[12] = 0x04; // bit 34
    parse_x52_pro(&data, &mut report).unwrap();
    assert_eq!(report.mode, 3);
}

#[test]
fn report_id_byte_is_skipped() {
    let mut body = [0u8; 14];
    body[4] = 42;
    let mut with_id = vec![0x01u8];
    with_id.extend_from_slice(&body);
    let mut a = InputReport::new();
    let mut b = InputReport::new();
    parse_x52(&body, &mut a).unwrap();
    parse_x52(&with_id, &mut b).unwrap();
    assert_eq!(a, b);
    assert_eq!(b.axes.get(Axis::Z), 42);
}

#[test]
fn large_first_byte_is_not_a_report_id() {
    let mut data = [0u8; 15];
    data[0] = 0x10;
    data[5] = 42; // read as RY when there is no report ID
    let mut report = InputReport::new();
    parse_x52(&data, &mut report).unwrap();
    assert_eq!(report.axes.get(Axis::X), 0x10);
    assert_eq!(report.axes.get(Axis::RX), 42);
}

#[test]
fn short_report_leaves_report_unchanged() {
    let mut report = InputReport::new();
    report.mode = 3;
    report.axes.set(Axis::X, 5);
    let before = report.clone();
    assert!(parse_x52_pro(&[1u8; 14][..13], &mut report).is_err());
    assert_eq!(report, before);
}

#[test]
fn short_report_messages() {
    let mut report = InputReport::new();
    match parse_x52(&[0u8; 13], &mut report) {
        Err(Error::InvalidParameter(m)) => assert_eq!(
            m,
            "X52 report too short: 13 bytes (expected 14) (Try setting RUST_LOG=trace to see raw bytes and check for report ID offset issues)"
        ),
        other => panic!("unexpected {:?}", other),
    }
    match parse_x52_pro(&[0u8; 10], &mut report) {
        Err(Error::InvalidParameter(m)) => {
            assert_eq!(m, "X52 Pro report too short: 10 bytes (expected 15)")
        }
        other => panic!("unexpected {:?}", other),
    }
}

#[test]
fn parse_report_dispatches_on_variant() {
    let mut data = [0u8; 15];
    data[8] = 0b10;
    let mut report = InputReport::new();
    parse_report(DeviceVariant::X52Pro, &data, &mut report).unwrap();
    assert!(report.buttons.is_pressed(Button::Fire));
    let mut report = InputReport::new();
    parse_report(DeviceVariant::X52, &data[..14], &mut report).unwrap();
    assert!(report.buttons.is_pressed(Button::TriggerStage2));
    assert_eq!(x52::hid::parser::expected_report_len(DeviceVariant::X52), 14);
    assert_eq!(x52::hid::parser::expected_report_len(DeviceVariant::X52Pro), 15);
}

#[test]
fn parsed_axes_stay_in_range() {
    for variant in [DeviceVariant::X52, DeviceVariant::X52Pro] {
        let ranges = AxisRanges::for_variant(variant);
        for fill in [0x00u8, 0x5a, 0xa5, 0xff] {
            let data = [fill; 15];
            let len = x52::hid::parser::expected_report_len(variant);
            let mut report = InputReport::new();
            parse_report(variant, &data[..len], &mut report).unwrap();
            for i in 0..Axis::COUNT {
                let axis = Axis::from_index(i).unwrap();
                let v = report.axes.get(axis);
                let r = ranges.get(axis);
                assert!(r.min <= v && v <= r.max, "{:?} {:?} = {}", variant, axis, v);
            }
            assert!((1..=3).contains(&report.mode));
        }
    }
}

#[test]
fn defaults_match_new() {
    assert_eq!(InputReport::default(), InputReport::new());
    assert_eq!(AxisReport::default(), AxisReport::new());
    assert_eq!(ButtonState::default(), ButtonState::new());
}

#[test]
fn x52_has_no_pro_only_buttons() {
    // hat North and all other high bits of the button field set
    let mut data = [0u8; 14];
    data[12] = 0x10;
    let mut report = InputReport::new();
    report.buttons.set(Button::PageDown, true);
    report.buttons.set(Button::Select, true);
    parse_x52(&data, &mut report).unwrap();
    assert_eq!(report.hat, HatPosition::North);
    assert!(!report.buttons.is_pressed(Button::PageUp));
    assert!(!report.buttons.is_pressed(Button::PageDown));
    assert!(!report.buttons.is_pressed(Button::Up));
    assert!(report.buttons.is_pressed(Button::Select));
    data[12] = 0xf8;
    parse_x52(&data, &mut report).unwrap();
    assert!(!report.buttons.is_pressed(Button::PageUp));
    assert!(!report.buttons.is_pressed(Button::PageDown));
    assert!(!report.buttons.is_pressed(Button::Up));
}

#[test]
fn x52_pro_reads_page_buttons() {
    let mut data = [0u8; 15];
    data[12] = 0x38; // bits 35, 36, 37
    let mut report = InputReport::new();
    parse_x52_pro(&data, &mut report).unwrap();
    assert!(report.buttons.is_pressed(Button::PageUp));
    assert!(report.buttons.is_pressed(Button::PageDown));
    assert!(report.buttons.is_pressed(Button::Up));
}
