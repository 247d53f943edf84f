use x52::usb::clock::{set_offset, set_time};
use x52::usb::device::{match_device, retries_exhausted, retry_delay, RETRY_DELAY_MS};
use x52::usb::misc::{set_blink, set_shift};
use x52::usb::{
    clear_line, set_date_day_month, set_date_year, set_led_brightness, set_led_color,
    set_mfd_brightness, write_chars, BatchUpdate, ClockFormat, ClockOffsetId, Command,
    CommandIndex, Error, Led, LedColor, MfdLine, X52Device,
};
use x52::DeviceVariant;

fn pairs(cmds: &[Command]) -> Vec<(u16, u16)> {
    cmds.iter().map(|c| (c.index.code(), c.value)).collect()
}

#[test]
fn multicolor_led_commands() {
    let cmds = set_led_color(Led::A, LedColor::Amber);
    assert_eq!(pairs(&cmds), vec![(0xb8, 0x0201), (0xb8, 0x0301)]);
    let cmds = set_led_color(Led::Clutch, LedColor::Green);
    assert_eq!(pairs(&cmds), vec![(0xb8, 0x1200), (0xb8, 0x1301)]);
    let cmds = set_led_color(Led::Pov, LedColor::Off);
    assert_eq!(pairs(&cmds), vec![(0xb8, 0x1000), (0xb8, 0x1100)]);
}

#[test]
fn single_color_led_commands() {
    assert_eq!(pairs(&set_led_color(Led::Fire, LedColor::Off)), vec![(0xb8, 0x0100)]);
    assert_eq!(pairs(&set_led_color(Led::Fire, LedColor::On)), vec![(0xb8, 0x0101)]);
    assert_eq!(pairs(&set_led_color(Led::Throttle, LedColor::Red)), vec![(0xb8, 0x1401)]);
}

#[test]
fn led_and_color_helpers() {
    assert!(Led::B.is_multicolor());
    assert!(!Led::Throttle.is_multicolor());
    assert_eq!(LedColor::Amber.to_bits(), (1, 1));
    assert_eq!(LedColor::On.to_bits(), (0, 0));
    assert!(LedColor::Off.is_valid_for_single_color());
    assert!(!LedColor::Green.is_valid_for_single_color());
    assert_eq!(Led::Pov.name(), "Pov");
    assert_eq!(LedColor::Amber.name(), "Amber");
}

#[test]
fn brightness_is_capped() {
    let c = set_led_brightness(200);
    assert_eq!((c.index.code(), c.value), (0xb2, 128));
    let c = set_led_brightness(64);
    assert_eq!(c.value, 64);
    let c = set_mfd_brightness(129);
    assert_eq!((c.index.code(), c.value), (0xb1, 128));
}

#[test]
fn mfd_commands() {
    let c = clear_line(MfdLine::Line2);
    assert_eq!((c.index.code(), c.value), (0xdc, 0));
    let c = write_chars(MfdLine::Line1, b'H', b'i');
    assert_eq!((c.index.code(), c.value), (0xd2, (b'i' as u16) << 8 | b'H' as u16));
}

#[test]
fn clock_commands() {
    let c = set_time(12, 30, ClockFormat::Hours24);
    assert_eq!((c.index.code(), c.value), (0xc0, 0x8000 | (12 << 8) | 30));
    let c = set_time(7, 5, ClockFormat::Hours12);
    assert_eq!(c.value, (7 << 8) | 5);
    let c = set_offset(ClockOffsetId::Secondary, -90, ClockFormat::Hours12);
    assert_eq!((c.index.code(), c.value), (0xc1, 1024 | 90));
    let c = set_offset(ClockOffsetId::Tertiary, 60, ClockFormat::Hours24);
    assert_eq!((c.index.code(), c.value), (0xc2, 0x8000 | 60));
    // magnitudes keep only their low 10 bits
    let c = set_offset(ClockOffsetId::Tertiary, 1440, ClockFormat::Hours12);
    assert_eq!(c.value, 1440 & 0x3ff);
    let c = set_date_day_month(24, 12);
    assert_eq!((c.index.code(), c.value), (0xc4, (12 << 8) | 24));
    let c = set_date_year(25);
    assert_eq!((c.index.code(), c.value), (0xc8, 25));
    assert_eq!(ClockFormat::Hours24.name(), "Hours24");
}

#[test]
fn shift_and_blink() {
    let c = set_shift(true);
    assert_eq!((c.index.code(), c.value), (0xfd, 0x51));
    let c = set_blink(false);
    assert_eq!((c.index.code(), c.value), (0xb4, 0x50));
}

#[test]
fn text_commands_pad_and_truncate() {
    let dev = X52Device::new(DeviceVariant::X52Pro);
    let cmds = dev.set_text(MfdLine::Line0, "Hello");
    assert_eq!(cmds.len(), 9);
    assert_eq!((cmds[0].index.code(), cmds[0].value), (0xd9, 0));
    assert_eq!((cmds[1].index.code(), cmds[1].value), (0xd1, u16::from_le_bytes([b'H', b'e'])));
    assert_eq!(cmds[3].value, u16::from_le_bytes([b'o', b' ']));
    assert_eq!(cmds[8].value, u16::from_le_bytes([b' ', b' ']));
    let cmds = dev.set_text(MfdLine::Line1, "0123456789abcdefXYZ");
    assert_eq!(cmds[8].value, u16::from_le_bytes([b'e', b'f']));
}

#[test]
fn led_validation() {
    let x52 = X52Device::new(DeviceVariant::X52);
    match x52.set_led_color(Led::A, LedColor::Red) {
        Err(Error::NotSupported(m)) => assert_eq!(m, "X52 does not support A LED control"),
        other => panic!("unexpected {:?}", other),
    }
    assert_eq!(pairs(&x52.set_led_color(Led::Fire, LedColor::On).unwrap()), vec![(0xb8, 0x0101)]);
    let pro = X52Device::new(DeviceVariant::X52Pro);
    match pro.set_led_color(Led::Throttle, LedColor::Green) {
        Err(Error::InvalidParameter(m)) => assert_eq!(m, "Throttle LED only supports On/Off, not Green"),
        other => panic!("unexpected {:?}", other),
    }
    assert_eq!(pro.set_led_color(Led::T2, LedColor::Red).unwrap().len(), 2);
    assert!(pro.supports_led_control());
    assert_eq!(pro.variant(), DeviceVariant::X52Pro);
}

#[test]
fn range_validation() {
    let dev = X52Device::new(DeviceVariant::X52Pro);
    assert!(matches!(dev.set_brightness(129), Err(Error::OutOfRange(m)) if m == "Brightness must be 0-128"));
    assert_eq!(dev.set_brightness(128).unwrap().value, 128);
    assert!(matches!(dev.set_mfd_brightness(200), Err(Error::OutOfRange(_))));
    assert!(matches!(dev.set_clock(24, 0, ClockFormat::Hours24), Err(Error::OutOfRange(m)) if m == "Hour must be 0-23"));
    assert!(matches!(dev.set_clock(23, 60, ClockFormat::Hours24), Err(Error::OutOfRange(m)) if m == "Minute must be 0-59"));
    assert_eq!(dev.set_clock(23, 59, ClockFormat::Hours12).unwrap().value, (23 << 8) | 59);
    assert!(matches!(
        dev.set_clock_offset(ClockOffsetId::Secondary, -1441, ClockFormat::Hours24),
        Err(Error::OutOfRange(m)) if m == "Offset must be within \u{b1}1440 minutes (24 hours)"
    ));
    assert!(dev.set_clock_offset(ClockOffsetId::Secondary, -1440, ClockFormat::Hours24).is_ok());
    assert!(matches!(dev.set_date(0, 1, 1), Err(Error::OutOfRange(m)) if m == "Day must be 1-31"));
    assert!(matches!(dev.set_date(1, 13, 1), Err(Error::OutOfRange(m)) if m == "Month must be 1-12"));
    assert!(matches!(dev.set_date(1, 1, 100), Err(Error::OutOfRange(m)) if m == "Year must be 0-99"));
    assert_eq!(pairs(&dev.set_date(31, 12, 99).unwrap()), vec![(0xc4, (12 << 8) | 31), (0xc8, 99)]);
    assert_eq!(dev.set_shift(false).value, 0x50);
    assert_eq!(dev.set_blink(true).value, 0x51);
}

#[test]
fn device_state_records() {
    let mut dev = X52Device::new(DeviceVariant::X52);
    assert_eq!(dev.state().led_brightness, 0);
    dev.record_led_brightness(90);
    dev.record_mfd_brightness(40);
    dev.record_text(MfdLine::Line2, "bottom");
    assert_eq!(dev.state().led_brightness, 90);
    assert_eq!(dev.state().mfd_brightness, 40);
    assert_eq!(dev.state().mfd_lines[2], "bottom");
    assert_eq!(dev.state().mfd_lines[0], "");
}

#[test]
fn batch_gathers_commands_in_order() {
    let dev = X52Device::new(DeviceVariant::X52Pro);
    let batch = dev
        .batch()
        .text(MfdLine::Line0, "  Batch Mode   ")
        .mfd_brightness(100)
        .led_brightness(80)
        .led(Led::Fire, LedColor::On)
        .led(Led::A, LedColor::Green)
        .clock(12, 30, ClockFormat::Hours24)
        .clock(24, 0, ClockFormat::Hours24)
        .clock_offset(ClockOffsetId::Tertiary, 2000, ClockFormat::Hours24)
        .date(1, 2, 3)
        .date(0, 2, 3)
        .shift(true)
        .blink(false);
    let cmds = batch.commands();
    assert_eq!(cmds.len(), 9 + 1 + 1 + 1 + 2 + 1 + 2 + 1 + 1);
    assert_eq!(pairs(&cmds[9..]), vec![
        (0xb1, 100),
        (0xb2, 80),
        (0xb8, 0x0101),
        (0xb8, 0x0200),
        (0xb8, 0x0301),
        (0xc0, 0x8000 | (12 << 8) | 30),
        (0xc4, (2 << 8) | 1),
        (0xc8, 3),
        (0xfd, 0x51),
        (0xb4, 0x50),
    ]);
    assert_eq!(pairs(&cmds[..9]), pairs(&dev.set_text(MfdLine::Line0, "  Batch Mode   ")));
    assert_eq!(BatchUpdate::new().commands().len(), 0);
}

#[test]
fn usb_device_matching() {
    assert_eq!(match_device(0x06a3, 0x0762), Some(DeviceVariant::X52Pro));
    assert_eq!(match_device(0x06a3, 0x0255), Some(DeviceVariant::X52));
    assert_eq!(match_device(0x06a4, 0x0762), None);
}

#[test]
fn retries_then_gives_up() {
    assert_eq!(retry_delay(0, 3), Some(RETRY_DELAY_MS));
    assert_eq!(retry_delay(1, 3), Some(10));
    assert_eq!(retry_delay(2, 3), None);
    assert_eq!(retry_delay(0, 1), None);
    assert!(matches!(retries_exhausted(), Error::Other(m) if m == "All retries exhausted"));
    assert_eq!(CommandIndex::SetClockOffsetTertiary.code(), 0xc2);
}
