//! HID report parsing for X52 and X52 Pro

use vstd::prelude::*;

use crate::device::DeviceVariant;
use crate::hid::error::{decimal, usize_text, Error};
use crate::hid::input::{
    axis_index, button_at, button_index, hat_axes, hat_from_raw, lemma_button_index_roundtrip,
    lemma_hat_axes_unit, Axis, Button, HatPosition,
};
use crate::hid::report::{lemma_axis_report_len, lemma_button_state_len, range_of, InputReport};

verus! {

broadcast use {lemma_axis_report_len, lemma_button_state_len};

/// Whether a report starts with a report ID byte: it is one byte longer than
/// expected and its first byte is at most 0x0F. Then the payload starts at
/// offset 1, else at 0.
pub open spec fn report_id_offset(data: Seq<u8>, expected_len: int) -> int {
    if data.len() == expected_len + 1 && data[0] <= 0x0F {
        1
    } else {
        0
    }
}

/// The report without its report ID byte, if it has one.
pub open spec fn report_payload(data: Seq<u8>, expected_len: int) -> Seq<u8> {
    data.skip(report_id_offset(data, expected_len))
}

/// The number of payload bytes of a report of a device variant.
pub open spec fn report_len(variant: DeviceVariant) -> int {
    match variant {
        DeviceVariant::X52 => 14,
        DeviceVariant::X52Pro => 15,
    }
}

/// The little-endian 32-bit word of payload bytes 0 to 3, in which the
/// stick's X, Y and twist (RZ) axes are packed.
pub open spec fn packed_axes(d: Seq<u8>) -> int {
    d[0] + 256 * d[1] + 65536 * d[2] + 16777216 * d[3]
}

/// The axis values that a payload carries, in the order of [`Axis::index`]:
/// on the X52, X and Y have 11 bits and the twist the 10 bits above them,
/// the hat sits in the high nibble of byte 12 and the thumbstick in byte 13;
/// on the X52 Pro, X, Y and the twist have 10 bits each, the hat sits in the
/// high nibble of byte 13 and the thumbstick in byte 14. Throttle, rotaries
/// and slider are bytes 4 to 7 on both.
pub open spec fn parsed_axes(variant: DeviceVariant, d: Seq<u8>) -> Seq<i32> {
    let p = packed_axes(d);
    match variant {
        DeviceVariant::X52 => {
            let hat = hat_axes(hat_from_raw((d[12] / 16) as u8));
            seq![
                (p % 2048) as i32,
                ((p / 2048) % 2048) as i32,
                (p / 4194304) as i32,
                d[4] as i32,
                d[5] as i32,
                d[6] as i32,
                d[7] as i32,
                (d[13] % 16) as i32,
                (d[13] / 16) as i32,
                hat.0,
                hat.1,
            ]
        },
        DeviceVariant::X52Pro => {
            let hat = hat_axes(hat_from_raw((d[13] / 16) as u8));
            seq![
                (p % 1024) as i32,
                ((p / 1024) % 1024) as i32,
                ((p / 1048576) % 1024) as i32,
                d[4] as i32,
                d[5] as i32,
                d[6] as i32,
                d[7] as i32,
                (d[14] % 16) as i32,
                (d[14] / 16) as i32,
                hat.0,
                hat.1,
            ]
        },
    }
}

/// The hat position that a payload carries.
pub open spec fn parsed_hat(variant: DeviceVariant, d: Seq<u8>) -> HatPosition {
    match variant {
        DeviceVariant::X52 => hat_from_raw((d[12] / 16) as u8),
        DeviceVariant::X52Pro => hat_from_raw((d[13] / 16) as u8),
    }
}

/// The weight of bit `k` of a byte.
pub open spec fn bit_weight(k: int) -> int {
    if k == 0 {
        1
    } else if k == 1 {
        2
    } else if k == 2 {
        4
    } else if k == 3 {
        8
    } else if k == 4 {
        16
    } else if k == 5 {
        32
    } else if k == 6 {
        64
    } else {
        128
    }
}

/// Bit `j` of the 40-bit little-endian button field in payload bytes 8 to 12.
pub open spec fn report_bit(d: Seq<u8>, j: int) -> bool {
    (d[8 + j / 8] as int / bit_weight(j % 8)) % 2 == 1
}

/// Shifting a byte right by `k` and masking the lowest bit reads bit `k`.
proof fn lemma_byte_bits(b: u8)
    by (bit_vector)
    ensures
        (b >> 0u8) & 1u8 == b % 2,
        (b >> 1u8) & 1u8 == (b / 2) % 2,
        (b >> 2u8) & 1u8 == (b / 4) % 2,
        (b >> 3u8) & 1u8 == (b / 8) % 2,
        (b >> 4u8) & 1u8 == (b / 16) % 2,
        (b >> 5u8) & 1u8 == (b / 32) % 2,
        (b >> 6u8) & 1u8 == (b / 64) % 2,
        (b >> 7u8) & 1u8 == (b / 128) % 2,
{
}

/// The bit of the button field that reports a button on the X52; the X52
/// has none of the X52 Pro's Page Up, Page Down, Up, Down and Select buttons.
pub open spec fn x52_button_bit(b: Button) -> Option<int> {
    match b {
        Button::Trigger => Some(0),
        Button::Fire => Some(2),
        Button::A => Some(3),
        Button::B => Some(4),
        Button::C => Some(5),
        Button::Pinkie => Some(6),
        Button::D => Some(7),
        Button::E => Some(8),
        Button::T1 => Some(9),
        Button::T2 => Some(10),
        Button::T3 => Some(11),
        Button::T4 => Some(12),
        Button::T5 => Some(13),
        Button::T6 => Some(14),
        Button::TriggerStage2 => Some(1),
        Button::PovUp => Some(15),
        Button::PovRight => Some(16),
        Button::PovDown => Some(17),
        Button::PovLeft => Some(18),
        Button::Pov2Up => Some(19),
        Button::Pov2Right => Some(20),
        Button::Pov2Down => Some(21),
        Button::Pov2Left => Some(22),
        Button::Clutch => Some(23),
        Button::MousePrimary => Some(24),
        Button::MouseSecondary => Some(25),
        Button::MouseWheel => Some(26),
        Button::WheelUp => Some(27),
        Button::WheelDown => Some(28),
        Button::Mode1 => Some(29),
        Button::Mode2 => Some(30),
        Button::Mode3 => Some(31),
        Button::Function => Some(32),
        Button::StartStop => Some(33),
        Button::Reset => Some(34),
        Button::PageUp => None,
        Button::PageDown => None,
        Button::Up => None,
        Button::Down => None,
        Button::Select => None,
    }
}

/// The bit of the button field that reports a button on the X52 Pro.
pub open spec fn x52_pro_button_bit(b: Button) -> Option<int> {
    match b {
        Button::Trigger => Some(0),
        Button::Fire => Some(1),
        Button::A => Some(2),
        Button::B => Some(3),
        Button::C => Some(4),
        Button::Pinkie => Some(5),
        Button::D => Some(6),
        Button::E => Some(7),
        Button::T1 => Some(8),
        Button::T2 => Some(9),
        Button::T3 => Some(10),
        Button::T4 => Some(11),
        Button::T5 => Some(12),
        Button::T6 => Some(13),
        Button::TriggerStage2 => Some(14),
        Button::PovUp => Some(15),
        Button::PovRight => Some(16),
        Button::PovDown => Some(17),
        Button::PovLeft => Some(18),
        Button::Pov2Up => Some(19),
        Button::Pov2Right => Some(20),
        Button::Pov2Down => Some(21),
        Button::Pov2Left => Some(22),
        Button::Clutch => Some(23),
        Button::MousePrimary => Some(27),
        Button::MouseSecondary => Some(30),
        Button::MouseWheel => Some(31),
        Button::WheelUp => Some(28),
        Button::WheelDown => Some(29),
        Button::Mode1 => Some(32),
        Button::Mode2 => Some(33),
        Button::Mode3 => Some(34),
        Button::Function => Some(24),
        Button::StartStop => Some(25),
        Button::Reset => Some(26),
        Button::PageUp => Some(35),
        Button::PageDown => Some(36),
        Button::Up => Some(37),
        Button::Down => Some(38),
        Button::Select => Some(39),
    }
}

/// The bit of the button field that reports a button on a device variant.
pub open spec fn button_bit(variant: DeviceVariant, b: Button) -> Option<int> {
    match variant {
        DeviceVariant::X52 => x52_button_bit(b),
        DeviceVariant::X52Pro => x52_pro_button_bit(b),
    }
}

/// The buttons that a report of the variant shows released whatever its
/// bytes: on the X52, Page Up, Page Down and Up, which only the X52 Pro has.
pub open spec fn released_on(variant: DeviceVariant, b: Button) -> bool {
    variant == DeviceVariant::X52 && (b == Button::PageUp || b == Button::PageDown || b
        == Button::Up)
}

/// The button states after a payload: each button that the variant reports
/// takes its bit, Page Up, Page Down and Up read released on the X52, and
/// each other button keeps its previous state.
pub open spec fn parsed_buttons(variant: DeviceVariant, d: Seq<u8>, prev: Seq<bool>) -> Seq<bool> {
    Seq::new(
        40,
        |k: int|
            match button_at(k) {
                Some(b) => match button_bit(variant, b) {
                    Some(j) => report_bit(d, j),
                    None => if released_on(variant, b) {
                        false
                    } else {
                        prev[k]
                    },
                },
                None => prev[k],
            },
    )
}

/// The mode after an update: the number of the one pressed mode button, or
/// the previous mode while none or more than one of them is pressed.
pub open spec fn next_mode(buttons: Seq<bool>, mode: u8) -> u8 {
    let m1 = buttons[button_index(Button::Mode1)];
    let m2 = buttons[button_index(Button::Mode2)];
    let m3 = buttons[button_index(Button::Mode3)];
    if m1 && !m2 && !m3 {
        1
    } else if !m1 && m2 && !m3 {
        2
    } else if !m1 && !m2 && m3 {
        3
    } else {
        mode
    }
}

/// The hint added to the message of a report that is one byte short.
pub open spec fn short_report_hint(len: int, expected_len: int) -> Seq<char> {
    if len == expected_len - 1 {
        " (Try setting RUST_LOG=trace to see raw bytes and check for report ID offset issues)"@
    } else {
        Seq::empty()
    }
}

/// The message of the error for a report whose payload is too short.
pub open spec fn short_report_text(model: Seq<char>, len: nat, expected_len: nat) -> Seq<char> {
    model + " report too short: "@ + decimal(len) + " bytes (expected "@ + decimal(expected_len)
        + ")"@ + short_report_hint(len as int, expected_len as int)
}

/// What parsing a report does to the current report: `Err` with the
/// too-short message, report unchanged, when the payload is shorter than the
/// variant's report; else `Ok` with axes, hat, buttons and mode read from it.
pub open spec fn parse_outcome(
    variant: DeviceVariant,
    data: Seq<u8>,
    prev: InputReport,
    result: Result<(), Error>,
    next: InputReport,
) -> bool {
    let d = report_payload(data, report_len(variant));
    let model = match variant {
        DeviceVariant::X52 => "X52"@,
        DeviceVariant::X52Pro => "X52 Pro"@,
    };
    if d.len() < report_len(variant) {
        &&& result matches Err(Error::InvalidParameter(msg))
        &&& msg@ == short_report_text(model, d.len(), report_len(variant) as nat)
        &&& next == prev
    } else {
        &&& result is Ok
        &&& next.axes@ == parsed_axes(variant, d)
        &&& next.hat == parsed_hat(variant, d)
        &&& next.buttons@ == parsed_buttons(variant, d, prev.buttons@)
        &&& next.mode == next_mode(next.buttons@, prev.mode)
    }
}

/// Detect if the HID report might have a report ID byte prepended
/// Returns the offset (0 or 1) to use for data indexing
fn detect_report_id_offset(data: &[u8], expected_len: usize) -> (r: usize)
    ensures
        r == report_id_offset(data@, expected_len as int),
{
    // If data is 1 byte longer than expected, it might have a report ID at byte 0
    if data.len() > 0 && data.len() - 1 == expected_len {
        // Common report ID values are 0x00, 0x01, or small numbers
        if data[0] <= 0x0F {
            return 1;
        }
    }
    0
}

/// The bit of the button field that reports a button on a device variant.
fn button_bit_of(variant: DeviceVariant, b: Button) -> (r: Option<usize>)
    ensures
        r matches Some(j) ==> button_bit(variant, b) == Some(j as int) && j < 40,
        r is None ==> button_bit(variant, b) is None,
{
    match variant {
        DeviceVariant::X52 => match b {
            Button::Trigger => Some(0),
            Button::Fire => Some(2),
            Button::A => Some(3),
            Button::B => Some(4),
            Button::C => Some(5),
            Button::Pinkie => Some(6),
            Button::D => Some(7),
            Button::E => Some(8),
            Button::T1 => Some(9),
            Button::T2 => Some(10),
            Button::T3 => Some(11),
            Button::T4 => Some(12),
            Button::T5 => Some(13),
            Button::T6 => Some(14),
            Button::TriggerStage2 => Some(1),
            Button::PovUp => Some(15),
            Button::PovRight => Some(16),
            Button::PovDown => Some(17),
            Button::PovLeft => Some(18),
            Button::Pov2Up => Some(19),
            Button::Pov2Right => Some(20),
            Button::Pov2Down => Some(21),
            Button::Pov2Left => Some(22),
            Button::Clutch => Some(23),
            Button::MousePrimary => Some(24),
            Button::MouseSecondary => Some(25),
            Button::MouseWheel => Some(26),
            Button::WheelUp => Some(27),
            Button::WheelDown => Some(28),
            Button::Mode1 => Some(29),
            Button::Mode2 => Some(30),
            Button::Mode3 => Some(31),
            Button::Function => Some(32),
            Button::StartStop => Some(33),
            Button::Reset => Some(34),
            Button::PageUp => None,
            Button::PageDown => None,
            Button::Up => None,
            Button::Down => None,
            Button::Select => None,
        },
        DeviceVariant::X52Pro => match b {
            Button::Trigger => Some(0),
            Button::Fire => Some(1),
            Button::A => Some(2),
            Button::B => Some(3),
            Button::C => Some(4),
            Button::Pinkie => Some(5),
            Button::D => Some(6),
            Button::E => Some(7),
            Button::T1 => Some(8),
            Button::T2 => Some(9),
            Button::T3 => Some(10),
            Button::T4 => Some(11),
            Button::T5 => Some(12),
            Button::T6 => Some(13),
            Button::TriggerStage2 => Some(14),
            Button::PovUp => Some(15),
            Button::PovRight => Some(16),
            Button::PovDown => Some(17),
            Button::PovLeft => Some(18),
            Button::Pov2Up => Some(19),
            Button::Pov2Right => Some(20),
            Button::Pov2Down => Some(21),
            Button::Pov2Left => Some(22),
            Button::Clutch => Some(23),
            Button::MousePrimary => Some(27),
            Button::MouseSecondary => Some(30),
            Button::MouseWheel => Some(31),
            Button::WheelUp => Some(28),
            Button::WheelDown => Some(29),
            Button::Mode1 => Some(32),
            Button::Mode2 => Some(33),
            Button::Mode3 => Some(34),
            Button::Function => Some(24),
            Button::StartStop => Some(25),
            Button::Reset => Some(26),
            Button::PageUp => Some(35),
            Button::PageDown => Some(36),
            Button::Up => Some(37),
            Button::Down => Some(38),
            Button::Select => Some(39),
        },
    }
}

/// Whether a report of the variant shows a button released whatever its bytes.
fn is_released_on(variant: DeviceVariant, b: Button) -> (r: bool)
    ensures
        r == released_on(variant, b),
{
    matches!(variant, DeviceVariant::X52) && matches!(b, Button::PageUp | Button::PageDown | Button::Up)
}

/// Reads bit `j` of the button field of the payload that starts at `offset`.
fn read_bit(data: &[u8], offset: usize, j: usize) -> (r: bool)
    requires
        j < 40,
        offset + 13 <= data@.len(),
    ensures
        r == report_bit(data@.skip(offset as int), j as int),
{
    let len = data.len();
    assert(offset + 13 <= len);
    let byte = data[offset + 8 + j / 8];
    assert(data@.skip(offset as int)[8 + j / 8] == byte);
    let k = (j % 8) as u8;
    proof {
        lemma_byte_bits(byte);
    }
    (byte >> k) & 1u8 == 1u8
}

/// Sets every button that the variant reports from its bit in the payload.
fn read_buttons(variant: DeviceVariant, data: &[u8], offset: usize, report: &mut InputReport)
    requires
        offset + 13 <= data@.len(),
    ensures
        final(report).buttons@ == parsed_buttons(
            variant,
            data@.skip(offset as int),
            old(report).buttons@,
        ),
        final(report).axes == old(report).axes,
        final(report).hat == old(report).hat,
        final(report).mode == old(report).mode,
{
    let ghost d = data@.skip(offset as int);
    let ghost prev = old(report).buttons@;
    let mut k: usize = 0;
    while k < 40
        invariant
            k <= 40,
            offset + 13 <= data@.len(),
            d == data@.skip(offset as int),
            prev == old(report).buttons@,
            report.axes == old(report).axes,
            report.hat == old(report).hat,
            report.mode == old(report).mode,
            forall|i: int| 0 <= i < k ==> #[trigger] report.buttons@[i] == parsed_buttons(variant, d, prev)[i],
            forall|i: int| k <= i < 40 ==> #[trigger] report.buttons@[i] == prev[i],
        decreases 40 - k,
    {
        proof {
            lemma_button_index_roundtrip(Button::Trigger, k as int);
        }
        let b = Button::from_index(k).unwrap();
        proof {
            lemma_button_index_roundtrip(b, k as int);
        }
        match button_bit_of(variant, b) {
            Some(j) => {
                let pressed = read_bit(data, offset, j);
                report.buttons.set(b, pressed);
            },
            None => {
                if is_released_on(variant, b) {
                    report.buttons.set(b, false);
                }
            },
        }
        k = k + 1;
    }
    assert(report.buttons@ =~= parsed_buttons(variant, d, prev));
}

/// Update mode based on mode button states
/// If multiple mode buttons are pressed (transient state), mode is not updated
fn update_mode(report: &mut InputReport)
    ensures
        final(report).mode == next_mode(old(report).buttons@, old(report).mode),
        final(report).axes == old(report).axes,
        final(report).buttons == old(report).buttons,
        final(report).hat == old(report).hat,
{
    let m1 = report.buttons.is_pressed(Button::Mode1);
    let m2 = report.buttons.is_pressed(Button::Mode2);
    let m3 = report.buttons.is_pressed(Button::Mode3);

    // Count pressed mode buttons
    let mut pressed_count: usize = 0;
    if m1 {
        pressed_count = pressed_count + 1;
    }
    if m2 {
        pressed_count = pressed_count + 1;
    }
    if m3 {
        pressed_count = pressed_count + 1;
    }
    // If 0 or >1 mode buttons pressed, keep current mode (transient state)
    if pressed_count == 1 {
        if m1 {
            report.mode = 1;
        } else if m2 {
            report.mode = 2;
        } else {
            report.mode = 3;
        }
    }
}

/// The error for a report whose payload is too short.
fn short_report_error(model: &str, len: usize, expected_len: usize) -> (r: Error)
    ensures
        r matches Error::InvalidParameter(msg) && msg@ == short_report_text(
            model@,
            len as nat,
            expected_len as nat,
        ),
{
    let mut msg = String::from_str(model);
    msg.append(" report too short: ");
    let n = usize_text(len);
    msg.append(n.as_str());
    msg.append(" bytes (expected ");
    let e = usize_text(expected_len);
    msg.append(e.as_str());
    msg.append(")");
    if expected_len > 0 && len == expected_len - 1 {
        msg.append(
            " (Try setting RUST_LOG=trace to see raw bytes and check for report ID offset issues)",
        );
    }
    assert(msg@ =~= short_report_text(model@, len as nat, expected_len as nat));
    Error::InvalidParameter(msg)
}

/// The little-endian word of bytes 0 to 3 of the payload at `offset`.
fn read_packed(data: &[u8], offset: usize) -> (r: u32)
    requires
        offset + 4 <= data@.len(),
    ensures
        r as int == packed_axes(data@.skip(offset as int)),
{
    let len = data.len();
    assert(offset + 4 <= len);
    let b0 = data[offset];
    let b1 = data[offset + 1];
    let b2 = data[offset + 2];
    let b3 = data[offset + 3];
    let packed: u32 = (b0 as u32) | ((b1 as u32) << 8u32) | ((b2 as u32) << 16u32) | ((b3 as u32)
        << 24u32);
    assert(packed == b0 + 256 * b1 + 65536 * b2 + 16777216 * b3) by (bit_vector)
        requires
            packed == (b0 as u32) | ((b1 as u32) << 8u32) | ((b2 as u32) << 16u32) | ((b3 as u32)
                << 24u32),
    ;
    packed
}

/// Parse X52 HID report (14 bytes)
pub fn parse_x52(data: &[u8], report: &mut InputReport) -> (r: Result<(), Error>)
    ensures
        parse_outcome(DeviceVariant::X52, data@, *old(report), r, *final(report)),
{
    // Check for report ID byte and adjust offset
    let offset = detect_report_id_offset(data, 14);
    let ghost d = data@.skip(offset as int);
    let len = data.len() - offset;

    if len < 14 {
        return Err(short_report_error("X52", len, 14));
    }

    // Parse packed axes from bytes 0-3 (32 bits)
    // X: 11 bits, Y: 11 bits, RZ: 10 bits
    let packed = read_packed(data, offset);

    let x = (packed & 0x7FF) as i32;  // Bits 0-10 (11 bits)
    let y = ((packed >> 11u32) & 0x7FF) as i32;  // Bits 11-21 (11 bits)
    let z = data[offset + 4] as i32;  // Byte 4 (8 bits)
    assert((packed & 0x7FF) == packed % 2048) by (bit_vector);
    assert(((packed >> 11u32) & 0x7FF) == (packed / 2048) % 2048) by (bit_vector);

    report.axes.set(Axis::X, x);
    report.axes.set(Axis::Y, y);
    report.axes.set(Axis::Z, z);

    let rx = data[offset + 5] as i32;  // Byte 5 (8 bits)
    let ry = data[offset + 6] as i32;  // Byte 6 (8 bits)
    let rz = ((packed >> 22u32) & 0x3FF) as i32;  // Bits 22-31 (10 bits)
    assert(((packed >> 22u32) & 0x3FF) == packed / 4194304) by (bit_vector);

    report.axes.set(Axis::RZ, rz);
    report.axes.set(Axis::RX, rx);
    report.axes.set(Axis::RY, ry);

    let slider = data[offset + 7] as i32;  // Byte 7 (8 bits)
    report.axes.set(Axis::Slider, slider);

    // Hat position (upper nibble of byte 12 for X52)
    let b12 = data[offset + 12];
    let hat_value = (b12 >> 4u8) & 0x0F;
    assert(((b12 >> 4u8) & 0x0F) == b12 / 16) by (bit_vector);
    report.hat = HatPosition::from_raw(hat_value);
    let (hat_x, hat_y) = report.hat.to_axis_values();
    report.axes.set(Axis::HatX, hat_x);
    report.axes.set(Axis::HatY, hat_y);

    // Thumbstick for X52: byte 13
    // Lower nibble = X axis, upper nibble = Y axis
    let b13 = data[offset + 13];
    let thumb_x = (b13 & 0x0F) as i32;
    let thumb_y = ((b13 >> 4u8) & 0x0F) as i32;
    assert((b13 & 0x0F) == b13 % 16) by (bit_vector);
    assert(((b13 >> 4u8) & 0x0F) == b13 / 16) by (bit_vector);
    report.axes.set(Axis::ThumbX, thumb_x);
    report.axes.set(Axis::ThumbY, thumb_y);

    assert(report.axes@ =~= parsed_axes(DeviceVariant::X52, d));

    // Parse buttons (bytes 8-12, 40 bits)
    read_buttons(DeviceVariant::X52, data, offset, report);

    // Detect current mode
    update_mode(report);

    Ok(())
}

/// Parse X52 Pro HID report (15 bytes)
pub fn parse_x52_pro(data: &[u8], report: &mut InputReport) -> (r: Result<(), Error>)
    ensures
        parse_outcome(DeviceVariant::X52Pro, data@, *old(report), r, *final(report)),
{
    // Check for report ID byte and adjust offset
    let offset = detect_report_id_offset(data, 15);
    let ghost d = data@.skip(offset as int);
    let len = data.len() - offset;

    if len < 15 {
        return Err(short_report_error("X52 Pro", len, 15));
    }

    // Parse packed axes from bytes 0-3 (32 bits)
    // X: 10 bits, Y: 10 bits, RZ: 10 bits
    let packed = read_packed(data, offset);

    let x = (packed & 0x3FF) as i32;  // Bits 0-9 (10 bits)
    let y = ((packed >> 10u32) & 0x3FF) as i32;  // Bits 10-19 (10 bits)
    let z = data[offset + 4] as i32;  // Byte 4 (8 bits)
    assert((packed & 0x3FF) == packed % 1024) by (bit_vector);
    assert(((packed >> 10u32) & 0x3FF) == (packed / 1024) % 1024) by (bit_vector);

    report.axes.set(Axis::X, x);
    report.axes.set(Axis::Y, y);
    report.axes.set(Axis::Z, z);

    let rx = data[offset + 5] as i32;  // Byte 5 (8 bits)
    let ry = data[offset + 6] as i32;  // Byte 6 (8 bits)
    let rz = ((packed >> 20u32) & 0x3FF) as i32;  // Bits 20-29 (10 bits)
    assert(((packed >> 20u32) & 0x3FF) == (packed / 1048576) % 1024) by (bit_vector);

    report.axes.set(Axis::RX, rx);
    report.axes.set(Axis::RY, ry);
    report.axes.set(Axis::RZ, rz);

    let slider = data[offset + 7] as i32;  // Byte 7 (8 bits)
    report.axes.set(Axis::Slider, slider);

    // Hat position (upper nibble of byte 13 for X52 Pro)
    let b13 = data[offset + 13];
    let hat_value = (b13 >> 4u8) & 0x0F;
    assert(((b13 >> 4u8) & 0x0F) == b13 / 16) by (bit_vector);
    report.hat = HatPosition::from_raw(hat_value);
    let (hat_x, hat_y) = report.hat.to_axis_values();
    report.axes.set(Axis::HatX, hat_x);
    report.axes.set(Axis::HatY, hat_y);

    // Thumbstick (byte 14: lower 4 bits = X, upper 4 bits = Y)
    let b14 = data[offset + 14];
    let thumb_x = (b14 & 0x0F) as i32;
    let thumb_y = ((b14 >> 4u8) & 0x0F) as i32;
    assert((b14 & 0x0F) == b14 % 16) by (bit_vector);
    assert(((b14 >> 4u8) & 0x0F) == b14 / 16) by (bit_vector);
    report.axes.set(Axis::ThumbX, thumb_x);
    report.axes.set(Axis::ThumbY, thumb_y);

    assert(report.axes@ =~= parsed_axes(DeviceVariant::X52Pro, d));

    // Parse buttons (bytes 8-12, 40 bits)
    read_buttons(DeviceVariant::X52Pro, data, offset, report);

    // Detect current mode
    update_mode(report);

    Ok(())
}

/// The number of payload bytes of a report of a device variant.
pub fn expected_report_len(variant: DeviceVariant) -> (r: usize)
    ensures
        r as int == report_len(variant),
{
    match variant {
        DeviceVariant::X52 => 14,
        DeviceVariant::X52Pro => 15,
    }
}

/// Parse a report with the layout of the device variant.
pub fn parse_report(variant: DeviceVariant, data: &[u8], report: &mut InputReport) -> (r: Result<(), Error>)
    ensures
        parse_outcome(variant, data@, *old(report), r, *final(report)),
{
    match variant {
        DeviceVariant::X52 => parse_x52(data, report),
        DeviceVariant::X52Pro => parse_x52_pro(data, report),
    }
}

/// Every axis value that a successful parse writes lies within the range
/// that [`crate::hid::AxisRanges::for_variant`] gives that axis on the device variant.
pub proof fn lemma_parsed_axes_in_range(
    variant: DeviceVariant,
    data: Seq<u8>,
    prev: InputReport,
    result: Result<(), Error>,
    next: InputReport,
    a: Axis,
)
    requires
        parse_outcome(variant, data, prev, result, next),
        result is Ok,
    ensures
        range_of(variant, a).contains(next.axes@[axis_index(a)] as int),
{
    let d = report_payload(data, report_len(variant));
    let p = packed_axes(d);
    assert(0 <= p < 0x1_0000_0000);
    assert(p / 4194304 < 1024) by (nonlinear_arith)
        requires
            0 <= p < 0x1_0000_0000,
    ;
    assert(0 <= p / 2048 && 0 <= p / 1048576) by (nonlinear_arith)
        requires
            0 <= p,
    ;
    let h = parsed_hat(variant, d);
    lemma_hat_axes_unit(h);
    match variant {
        DeviceVariant::X52 => {
            assert(d[13] % 16 < 16 && d[13] / 16 < 16);
        },
        DeviceVariant::X52Pro => {
            assert(d[14] % 16 < 16 && d[14] / 16 < 16);
        },
    }
}

/// While the mode is one of 1, 2 and 3, it stays one of them through any parse.
pub proof fn lemma_mode_stays_valid(
    variant: DeviceVariant,
    data: Seq<u8>,
    prev: InputReport,
    result: Result<(), Error>,
    next: InputReport,
)
    requires
        parse_outcome(variant, data, prev, result, next),
        1 <= prev.mode <= 3,
    ensures
        1 <= next.mode <= 3,
{
}

/// A report ID byte in front of a report is skipped: a report of the
/// variant's length, with a byte of at most 0x0F in front of it, parses as
/// the report alone.
pub proof fn lemma_report_id_skipped(variant: DeviceVariant, id: u8, body: Seq<u8>)
    requires
        body.len() == report_len(variant),
        id <= 0x0F,
    ensures
        report_payload(seq![id] + body, report_len(variant)) == report_payload(body, report_len(variant)),
        report_payload(body, report_len(variant)) == body,
{
    let data = seq![id] + body;
    assert(data[0] == id);
    assert(data.skip(1) =~= body);
    assert(body.skip(0) =~= body);
}

/// The X52 has no Page Up, Page Down or Up button: after every successful
/// parse of an X52 report they read released, while Down and Select, which
/// it lacks as well, keep their previous state.
pub proof fn lemma_x52_pro_only_buttons(
    data: Seq<u8>,
    prev: InputReport,
    result: Result<(), Error>,
    next: InputReport,
)
    requires
        parse_outcome(DeviceVariant::X52, data, prev, result, next),
        result is Ok,
    ensures
        !next.buttons@[button_index(Button::PageUp)],
        !next.buttons@[button_index(Button::PageDown)],
        !next.buttons@[button_index(Button::Up)],
        next.buttons@[button_index(Button::Down)] == prev.buttons@[button_index(Button::Down)],
        next.buttons@[button_index(Button::Select)] == prev.buttons@[button_index(Button::Select)],
{
    let d = report_payload(data, 14);
    let p = parsed_buttons(DeviceVariant::X52, d, prev.buttons@);
    assert(button_at(35) == Some(Button::PageUp));
    assert(p[35] == false);
    assert(p[36] == false);
    assert(p[37] == false);
    assert(p[38] == prev.buttons@[38]);
    assert(p[39] == prev.buttons@[39]);
}

/// Where each axis of a successful parse comes from, axis by axis. On both
/// variants the throttle (Z) is payload byte 4, the rotaries RX and RY are
/// bytes 5 and 6 and the slider is byte 7; the hat axes are those of the
/// parsed hat position. On the X52, X is the low 11 bits of bytes 0 to 3
/// (little-endian), Y the next 11 bits and the twist (RZ) the top 10 bits;
/// the hat is the high nibble of byte 12, and byte 13 holds the thumbstick,
/// X in its low nibble and Y in its high nibble. On the X52 Pro, X, Y and the
/// twist are three 10-bit fields from bit 0 up; the hat is the high nibble
/// of byte 13 and the thumbstick is byte 14.
pub proof fn lemma_parsed_axis_sources(
    variant: DeviceVariant,
    data: Seq<u8>,
    prev: InputReport,
    result: Result<(), Error>,
    next: InputReport,
)
    requires
        parse_outcome(variant, data, prev, result, next),
        result is Ok,
    ensures
        ({
            let d = report_payload(data, report_len(variant));
            let a = next.axes@;
            let word = d[0] + 256 * d[1] + 65536 * d[2] + 16777216 * d[3];
            &&& a[axis_index(Axis::Z)] == d[4]
            &&& a[axis_index(Axis::RX)] == d[5]
            &&& a[axis_index(Axis::RY)] == d[6]
            &&& a[axis_index(Axis::Slider)] == d[7]
            &&& a[axis_index(Axis::HatX)] == hat_axes(next.hat).0
            &&& a[axis_index(Axis::HatY)] == hat_axes(next.hat).1
            &&& variant == DeviceVariant::X52 ==> {
                &&& a[axis_index(Axis::X)] == word % 2048
                &&& a[axis_index(Axis::Y)] == (word / 2048) % 2048
                &&& a[axis_index(Axis::RZ)] == word / 4194304
                &&& next.hat == hat_from_raw((d[12] / 16) as u8)
                &&& a[axis_index(Axis::ThumbX)] == d[13] % 16
                &&& a[axis_index(Axis::ThumbY)] == d[13] / 16
            }
            &&& variant == DeviceVariant::X52Pro ==> {
                &&& a[axis_index(Axis::X)] == word % 1024
                &&& a[axis_index(Axis::Y)] == (word / 1024) % 1024
                &&& a[axis_index(Axis::RZ)] == (word / 1048576) % 1024
                &&& next.hat == hat_from_raw((d[13] / 16) as u8)
                &&& a[axis_index(Axis::ThumbX)] == d[14] % 16
                &&& a[axis_index(Axis::ThumbY)] == d[14] / 16
            }
        }),
{
    let d = report_payload(data, report_len(variant));
    let word = d[0] + 256 * d[1] + 65536 * d[2] + 16777216 * d[3];
    assert(0 <= word < 0x1_0000_0000);
    assert(word / 4194304 < 1024) by (nonlinear_arith)
        requires
            0 <= word < 0x1_0000_0000,
    ;
    assert(0 <= word / 2048 && 0 <= word / 1048576) by (nonlinear_arith)
        requires
            0 <= word,
    ;
}

/// The X52 Pro reports every button, each at its own bit of the 40-bit
/// field: the buttons from Trigger to Clutch and from Page Up to Select at
/// the bit of their own index; Function, Start/Stop and Reset at bits 24 to
/// 26; the primary mouse button at 27, wheel up and down at 28 and 29, the
/// secondary mouse button at 30, the wheel click at 31; and the three mode
/// buttons at 32 to 34. Distinct buttons have distinct bits.
pub proof fn lemma_x52_pro_button_bits(b: Button, c: Button)
    ensures
        x52_pro_button_bit(b) is Some,
        0 <= x52_pro_button_bit(b)->0 < 40,
        (button_index(b) <= button_index(Button::Clutch) || button_index(b) >= button_index(
            Button::PageUp,
        )) ==> x52_pro_button_bit(b) == Some(button_index(b)),
        b == Button::Function ==> x52_pro_button_bit(b) == Some(24int),
        b == Button::StartStop ==> x52_pro_button_bit(b) == Some(25int),
        b == Button::Reset ==> x52_pro_button_bit(b) == Some(26int),
        b == Button::MousePrimary ==> x52_pro_button_bit(b) == Some(27int),
        b == Button::WheelUp ==> x52_pro_button_bit(b) == Some(28int),
        b == Button::WheelDown ==> x52_pro_button_bit(b) == Some(29int),
        b == Button::MouseSecondary ==> x52_pro_button_bit(b) == Some(30int),
        b == Button::MouseWheel ==> x52_pro_button_bit(b) == Some(31int),
        b == Button::Mode1 ==> x52_pro_button_bit(b) == Some(32int),
        b == Button::Mode2 ==> x52_pro_button_bit(b) == Some(33int),
        b == Button::Mode3 ==> x52_pro_button_bit(b) == Some(34int),
        b != c ==> x52_pro_button_bit(b) != x52_pro_button_bit(c),
{
}

/// The X52 reports each button it has at its own bit of the field: Trigger
/// at bit 0 and the trigger's second stage at bit 1; Fire to T6 one bit above
/// their index (bits 2 to 14); the buttons from POV up to Reset at the bit of
/// their own index (15 to 34). Page Up, Page Down, Up, Down and Select, which
/// only the X52 Pro has, have no bit. Distinct buttons have distinct bits.
pub proof fn lemma_x52_button_bits(b: Button, c: Button)
    ensures
        b == Button::Trigger ==> x52_button_bit(b) == Some(0int),
        b == Button::TriggerStage2 ==> x52_button_bit(b) == Some(1int),
        button_index(Button::Fire) <= button_index(b) <= button_index(Button::T6) ==> x52_button_bit(
            b,
        ) == Some(button_index(b) + 1),
        button_index(Button::PovUp) <= button_index(b) <= button_index(Button::Reset)
            ==> x52_button_bit(b) == Some(button_index(b)),
        button_index(b) >= button_index(Button::PageUp) ==> x52_button_bit(b) is None,
        (x52_button_bit(b) is Some && b != c) ==> x52_button_bit(b) != x52_button_bit(c),
{
}

/// The mode follows the mode buttons by name: Mode 1 alone gives mode 1,
/// Mode 2 alone mode 2, Mode 3 alone mode 3; with none or several of them
/// pressed the mode does not change.
pub proof fn lemma_mode_by_button(buttons: Seq<bool>, mode: u8)
    ensures
        ({
            let m1 = buttons[button_index(Button::Mode1)];
            let m2 = buttons[button_index(Button::Mode2)];
            let m3 = buttons[button_index(Button::Mode3)];
            &&& (m1 && !m2 && !m3) ==> next_mode(buttons, mode) == 1
            &&& (!m1 && m2 && !m3) ==> next_mode(buttons, mode) == 2
            &&& (!m1 && !m2 && m3) ==> next_mode(buttons, mode) == 3
            &&& ((m1 as int) + (m2 as int) + (m3 as int) != 1) ==> next_mode(buttons, mode) == mode
        }),
        button_index(Button::Mode1) == 29,
        button_index(Button::Mode2) == 30,
        button_index(Button::Mode3) == 31,
{
}

/// Bit `k` of a byte weighs 2 to the power `k`, so the button field is read
/// least significant bit first: bit `j` of the field is bit `j % 8` of
/// payload byte `8 + j / 8`, which is set exactly when that byte, divided by
/// 2 to the `j % 8` and rounded down, is odd.
pub proof fn lemma_bit_weights(k: int)
    ensures
        bit_weight(0) == 1,
        0 <= k < 7 ==> bit_weight(k + 1) == 2 * bit_weight(k),
{
}

/// The payload of a report: a report of the variant's length plus one byte
/// loses its first byte when that byte is at most 0x0F and keeps it
/// otherwise; a report of any other length is its own payload. The X52's
/// payload is 14 bytes long, the X52 Pro's 15.
pub proof fn lemma_report_payload(variant: DeviceVariant, data: Seq<u8>)
    ensures
        report_len(DeviceVariant::X52) == 14,
        report_len(DeviceVariant::X52Pro) == 15,
        (data.len() == report_len(variant) + 1 && data[0] <= 0x0F) ==> report_payload(
            data,
            report_len(variant),
        ) == data.subrange(1, data.len() as int),
        !(data.len() == report_len(variant) + 1 && data[0] <= 0x0F) ==> report_payload(
            data,
            report_len(variant),
        ) == data,
{
    assert(data.skip(1) =~= data.subrange(1, data.len() as int));
    assert(data.skip(0) =~= data);
}

} // verus!
