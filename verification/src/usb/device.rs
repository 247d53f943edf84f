//! The decisions of the X52 output device: which vendor requests an
//! operation sends, which arguments it refuses, what it remembers, and how
//! often a request is retried.

use vstd::prelude::*;
use vstd::string::StringSliceAdditionalSpecFns;

use crate::device::{variant_name, variant_of_product, DeviceVariant, VENDOR_SAITEK};
use crate::usb::clock::{
    self, abs_minutes, day_month_command, offset_command, time_command, year_command,
    ClockFormat, ClockOffsetId,
};
use crate::usb::error::Error;
use crate::usb::led::{
    self, brightness_command, color_name, led_color_commands, led_is_multicolor, led_name, Led,
    LedColor,
};
use crate::usb::mfd::{
    self, clear_line_command, lemma_write_chars_roundtrip, mfd_line_index, write_chars_command,
    MfdLine,
};
use crate::usb::misc::{self, switch_value};
use crate::usb::protocol::{Command, CommandIndex};

verus! {

/// Pause between two attempts of a failed request, in milliseconds
pub const RETRY_DELAY_MS: u64 = 10;

/// A line of text as the display shows it: its first 16 bytes, padded with
/// spaces to 16.
pub open spec fn padded_line(bytes: Seq<u8>) -> Seq<u8> {
    Seq::new(16, |i: int| if i < bytes.len() { bytes[i] } else { 32u8 })
}

/// The commands that show a text on a line: clear the line, then write the
/// 16 padded characters two at a time, from the left.
pub open spec fn text_commands(line: MfdLine, bytes: Seq<u8>) -> Seq<Command> {
    let p = padded_line(bytes);
    seq![clear_line_command(line)] + Seq::new(
        8,
        |k: int| write_chars_command(line, p[2 * k], p[2 * k + 1]),
    )
}

/// The commands that set the LED of a device variant to a color, or the
/// error that refuses it: an X52 drives only its single-color LEDs (Fire and
/// Throttle), and those take only Off and On.
pub open spec fn led_color_outcome(
    variant: DeviceVariant,
    led: Led,
    color: LedColor,
    r: Result<Vec<Command>, Error>,
) -> bool {
    if variant != DeviceVariant::X52Pro && led_is_multicolor(led) {
        r matches Err(Error::NotSupported(m)) && m@ == variant_name(variant)
            + " does not support "@ + led_name(led) + " LED control"@
    } else if !led_is_multicolor(led) && !(color == LedColor::Off || color == LedColor::On) {
        r matches Err(Error::InvalidParameter(m)) && m@ == led_name(led)
            + " LED only supports On/Off, not "@ + color_name(color)
    } else {
        r matches Ok(c) && c@ == led_color_commands(led, color)
    }
}

/// A checked command: the command when `valid`, else the range error with `message`.
pub open spec fn checked(r: Result<Command, Error>, valid: bool, command: Command, message: Seq<char>) -> bool {
    if valid {
        r matches Ok(c) && c == command
    } else {
        r matches Err(Error::OutOfRange(m)) && m@ == message
    }
}

/// The commands that set the date, day and month first, then the year; or
/// the range error of the first of day (1-31), month (1-12) and year (0-99)
/// that is out of range.
pub open spec fn date_outcome(day: u8, month: u8, year: u8, r: Result<Vec<Command>, Error>) -> bool {
    if day == 0 || day > 31 {
        r matches Err(Error::OutOfRange(m)) && m@ == "Day must be 1-31"@
    } else if month == 0 || month > 12 {
        r matches Err(Error::OutOfRange(m)) && m@ == "Month must be 1-12"@
    } else if year > 99 {
        r matches Err(Error::OutOfRange(m)) && m@ == "Year must be 0-99"@
    } else {
        r matches Ok(c) && c@ == seq![day_month_command(day, month), year_command(year)]
    }
}

/// The variant of a USB device with the given vendor and product id, or
/// `None` for any other device.
pub open spec fn spec_match_device(vendor_id: u16, product_id: u16) -> Option<DeviceVariant> {
    if vendor_id == VENDOR_SAITEK {
        variant_of_product(product_id)
    } else {
        None
    }
}

/// The variant of a USB device with the given vendor and product id, if it is an X52.
pub fn match_device(vendor_id: u16, product_id: u16) -> (r: Option<DeviceVariant>)
    ensures
        r == spec_match_device(vendor_id, product_id),
{
    if vendor_id != VENDOR_SAITEK {
        return None;
    }
    DeviceVariant::from_product_id(product_id)
}

/// After attempt `attempt` (counted from 0) of a request that may be tried
/// `retries` times has failed: the pause before the next attempt, or `None`
/// when that was the last attempt and its failure is the result.
pub fn retry_delay(attempt: usize, retries: usize) -> (r: Option<u64>)
    ensures
        r == (if attempt + 1 < retries {
            Some(RETRY_DELAY_MS)
        } else {
            None::<u64>
        }),
{
    if attempt < retries && retries - attempt > 1 {
        Some(RETRY_DELAY_MS)
    } else {
        None
    }
}

/// The result of a request that may be tried no times at all (`retries` of
/// 0): it fails without an attempt, with this error.
pub fn retries_exhausted() -> (r: Error)
    ensures
        r matches Error::Other(m) && m@ == "All retries exhausted"@,
{
    Error::Other(String::from_str("All retries exhausted"))
}

/// The first 16 bytes of a text, padded with spaces to 16.
fn pad_line(text: &str) -> (r: [u8; 16])
    ensures
        r@ == padded_line(text.spec_bytes()),
{
    let bytes = text.as_bytes();
    let mut chars = [32u8; 16];  // spaces
    let n = if bytes.len() < 16 {
        bytes.len()
    } else {
        16
    };
    let mut i: usize = 0;
    while i < n
        invariant
            n <= 16,
            n <= bytes@.len(),
            n == bytes@.len() || n == 16,
            i <= n,
            bytes@ == text.spec_bytes(),
            forall|j: int| 0 <= j < i ==> #[trigger] chars@[j] == bytes@[j],
            forall|j: int| i <= j < 16 ==> #[trigger] chars@[j] == 32u8,
        decreases n - i,
    {
        chars[i] = bytes[i];
        i = i + 1;
    }
    assert(chars@ =~= padded_line(text.spec_bytes()));
    chars
}

/// The commands that show a text on a line.
fn line_commands(line: MfdLine, text: &str) -> (r: Vec<Command>)
    ensures
        r@ == text_commands(line, text.spec_bytes()),
{
    let chars = pad_line(text);
    let ghost p = padded_line(text.spec_bytes());
    let mut commands: Vec<Command> = Vec::new();

    // Clear line first
    commands.push(mfd::clear_line(line));

    // Send character pairs (little-endian)
    let mut k: usize = 0;
    while k < 8
        invariant
            k <= 8,
            chars@ == p,
            commands@.len() == k + 1,
            commands@[0] == clear_line_command(line),
            forall|j: int|
                0 <= j < k ==> #[trigger] commands@[j + 1] == write_chars_command(
                    line,
                    p[2 * j],
                    p[2 * j + 1],
                ),
        decreases 8 - k,
    {
        let char1 = chars[2 * k];
        let char2 = chars[2 * k + 1];
        commands.push(mfd::write_chars(line, char1, char2));
        k = k + 1;
    }
    let ghost expected = text_commands(line, text.spec_bytes());
    assert forall|i: int| 0 <= i < 9 implies commands@[i] == expected[i] by {
        if i > 0 {
            let j = i - 1;
            assert(commands@[j + 1] == write_chars_command(line, p[2 * j], p[2 * j + 1]));
        }
    }
    assert(commands@ =~= expected);
    commands
}

/// Showing a text sends nine commands: the first clears the line, and
/// character `i` of the line (the `i`-th byte of the text, or a space past
/// its end; bytes past the 16th are dropped) is the low byte of command
/// `1 + i / 2` for even `i` and its high byte for odd `i`.
pub proof fn lemma_text_commands_carry_line(line: MfdLine, bytes: Seq<u8>, i: int)
    requires
        0 <= i < 16,
    ensures
        text_commands(line, bytes).len() == 9,
        text_commands(line, bytes)[0] == clear_line_command(line),
        ({
            let v = text_commands(line, bytes)[1 + i / 2].value;
            let c = if i % 2 == 0 {
                v % 256
            } else {
                v / 256
            };
            c == if i < bytes.len() {
                bytes[i] as int
            } else {
                32
            }
        }),
{
    let p = padded_line(bytes);
    let k = i / 2;
    assert(text_commands(line, bytes)[1 + k] == write_chars_command(line, p[2 * k], p[2 * k + 1]));
    lemma_write_chars_roundtrip(line, p[2 * k], p[2 * k + 1]);
    if i % 2 == 0 {
        assert(2 * k == i);
    } else {
        assert(2 * k + 1 == i);
    }
}


/// What the device remembers of what it was last told
#[derive(Debug)]
pub struct DeviceState {
    /// MFD text (3 lines, 16 chars each)
    pub mfd_lines: [String; 3],
    /// MFD brightness (0-128)
    pub mfd_brightness: u8,
    /// LED brightness (0-128)
    pub led_brightness: u8,
}

impl Default for DeviceState {
    fn default() -> (r: Self)
        ensures
            forall|i: int| 0 <= i < 3 ==> #[trigger] r.mfd_lines@[i]@ == Seq::<char>::empty(),
            r.mfd_brightness == 0,
            r.led_brightness == 0,
    {
        DeviceState {
            mfd_lines: [String::new(), String::new(), String::new()],
            mfd_brightness: 0,
            led_brightness: 0,
        }
    }
}

/// X52/X52 Pro output control device: its variant and what it was told
pub struct X52Device {
    variant: DeviceVariant,
    state: DeviceState,
}

impl X52Device {
    /// A device of the given variant that has been told nothing yet
    pub fn new(variant: DeviceVariant) -> (r: Self)
        ensures
            r.spec_variant() == variant,
            forall|i: int| 0 <= i < 3 ==> #[trigger] r.spec_state().mfd_lines@[i]@ == Seq::<char>::empty(),
            r.spec_state().mfd_brightness == 0,
            r.spec_state().led_brightness == 0,
    {
        X52Device { variant, state: DeviceState::default() }
    }

    /// The device variant.
    pub closed spec fn spec_variant(&self) -> DeviceVariant {
        self.variant
    }

    /// What the device remembers.
    pub closed spec fn spec_state(&self) -> DeviceState {
        self.state
    }

    /// Get device variant
    pub fn variant(&self) -> (r: DeviceVariant)
        ensures
            r == self.spec_variant(),
    {
        self.variant
    }

    /// Check if device supports LED control
    pub fn supports_led_control(&self) -> (r: bool)
        ensures
            r == (self.spec_variant() == DeviceVariant::X52Pro),
    {
        self.variant.supports_led_control()
    }

    /// What the device remembers of what it was told
    pub fn state(&self) -> (r: &DeviceState)
        ensures
            *r == self.spec_state(),
    {
        &self.state
    }

    /// Set LED state: the commands to send, or why the LED or color is refused
    pub fn set_led_color(&self, led: Led, color: LedColor) -> (r: Result<Vec<Command>, Error>)
        ensures
            led_color_outcome(self.spec_variant(), led, color, r),
    {
        // Validate LED control support
        if !self.supports_led_control() && !matches!(led, Led::Fire | Led::Throttle) {
            let mut msg = String::from_str(self.variant.name());
            msg.append(" does not support ");
            msg.append(led.name());
            msg.append(" LED control");
            return Err(Error::NotSupported(msg));
        }
        // Validate color for single-color LEDs

        if !led.is_multicolor() && !color.is_valid_for_single_color() {
            let mut msg = String::from_str(led.name());
            msg.append(" LED only supports On/Off, not ");
            msg.append(color.name());
            return Err(Error::InvalidParameter(msg));
        }
        Ok(led::set_color(led, color))
    }

    /// Set LED brightness (0-128): the command to send
    pub fn set_brightness(&self, level: u8) -> (r: Result<Command, Error>)
        ensures
            checked(
                r,
                level <= 128,
                brightness_command(CommandIndex::ChangeBrightnessLed, level),
                "Brightness must be 0-128"@,
            ),
    {
        if level > 128 {
            return Err(Error::OutOfRange(String::from_str("Brightness must be 0-128")));
        }
        Ok(led::set_brightness(level))
    }

    /// Set MFD backlight brightness (0-128): the command to send
    pub fn set_mfd_brightness(&self, level: u8) -> (r: Result<Command, Error>)
        ensures
            checked(
                r,
                level <= 128,
                brightness_command(CommandIndex::ChangeBrightnessMfd, level),
                "Brightness must be 0-128"@,
            ),
    {
        if level > 128 {
            return Err(Error::OutOfRange(String::from_str("Brightness must be 0-128")));
        }
        Ok(mfd::set_brightness(level))
    }

    /// Set MFD text line: the commands to send, which truncate or pad the
    /// text to 16 characters
    pub fn set_text(&self, line: MfdLine, text: &str) -> (r: Vec<Command>)
        ensures
            r@ == text_commands(line, text.spec_bytes()),
    {
        line_commands(line, text)
    }

    /// Set clock time: the command to send
    pub fn set_clock(&self, hour: u8, minute: u8, format: ClockFormat) -> (r: Result<Command, Error>)
        ensures
            hour >= 24 ==> checked(r, false, time_command(hour, minute, format), "Hour must be 0-23"@),
            hour < 24 ==> checked(
                r,
                minute < 60,
                time_command(hour, minute, format),
                "Minute must be 0-59"@,
            ),
    {
        if hour >= 24 {
            return Err(Error::OutOfRange(String::from_str("Hour must be 0-23")));
        }
        if minute >= 60 {
            return Err(Error::OutOfRange(String::from_str("Minute must be 0-59")));
        }
        Ok(clock::set_time(hour, minute, format))
    }

    /// Set clock timezone offset (for secondary/tertiary clocks): the command to send
    pub fn set_clock_offset(&self, clock: ClockOffsetId, offset_minutes: i32, format: ClockFormat) -> (r:
        Result<Command, Error>)
        requires
            offset_minutes != i32::MIN,
        ensures
            checked(
                r,
                abs_minutes(offset_minutes) <= 1440,
                offset_command(clock, offset_minutes, format),
                "Offset must be within \u{b1}1440 minutes (24 hours)"@,
            ),
    {
        if offset_minutes < -1440 || offset_minutes > 1440 {
            return Err(
                Error::OutOfRange(String::from_str("Offset must be within \u{b1}1440 minutes (24 hours)")),
            );
        }
        Ok(clock::set_offset(clock, offset_minutes, format))
    }

    /// Set date: the commands to send, day and month first, then the year
    pub fn set_date(&self, day: u8, month: u8, year: u8) -> (r: Result<Vec<Command>, Error>)
        ensures
            date_outcome(day, month, year, r),
    {
        if day == 0 || day > 31 {
            return Err(Error::OutOfRange(String::from_str("Day must be 1-31")));
        }
        if month == 0 || month > 12 {
            return Err(Error::OutOfRange(String::from_str("Month must be 1-12")));
        }
        if year > 99 {
            return Err(Error::OutOfRange(String::from_str("Year must be 0-99")));
        }
        let mut commands: Vec<Command> = Vec::new();
        commands.push(clock::set_date_day_month(day, month));
        commands.push(clock::set_date_year(year));
        assert(commands@ =~= seq![day_month_command(day, month), year_command(year)]);
        Ok(commands)
    }

    /// Set shift indicator: the command to send
    pub fn set_shift(&self, state: bool) -> (r: Command)
        ensures
            r == (Command { index: CommandIndex::SetShiftIndicator, value: switch_value(state) }),
    {
        misc::set_shift(state)
    }

    /// Set blink mode: the command to send
    pub fn set_blink(&self, state: bool) -> (r: Command)
        ensures
            r == (Command { index: CommandIndex::SetBlinkMode, value: switch_value(state) }),
    {
        misc::set_blink(state)
    }

    /// Create a batch update builder for sending multiple commands at once
    pub fn batch(&self) -> (r: BatchUpdate)
        ensures
            r@ == Seq::<Command>::empty(),
    {
        BatchUpdate::new()
    }

    /// Remember the LED brightness that the device was set to
    pub fn record_led_brightness(&mut self, level: u8)
        ensures
            final(self).spec_state().led_brightness == level,
            final(self).spec_state().mfd_brightness == old(self).spec_state().mfd_brightness,
            final(self).spec_state().mfd_lines == old(self).spec_state().mfd_lines,
            final(self).spec_variant() == old(self).spec_variant(),
    {
        self.state.led_brightness = level;
    }

    /// Remember the MFD brightness that the device was set to
    pub fn record_mfd_brightness(&mut self, level: u8)
        ensures
            final(self).spec_state().mfd_brightness == level,
            final(self).spec_state().led_brightness == old(self).spec_state().led_brightness,
            final(self).spec_state().mfd_lines == old(self).spec_state().mfd_lines,
            final(self).spec_variant() == old(self).spec_variant(),
    {
        self.state.mfd_brightness = level;
    }

    /// Remember the text that a line was set to
    pub fn record_text(&mut self, line: MfdLine, text: &str)
        ensures
            final(self).spec_state().mfd_lines@[mfd_line_index(line)]@ == text@,
            forall|i: int|
                0 <= i < 3 && i != mfd_line_index(line) ==> #[trigger] final(self).spec_state().mfd_lines@[i]
                    == old(self).spec_state().mfd_lines@[i],
            final(self).spec_state().mfd_brightness == old(self).spec_state().mfd_brightness,
            final(self).spec_state().led_brightness == old(self).spec_state().led_brightness,
            final(self).spec_variant() == old(self).spec_variant(),
    {
        let i: usize = match line {
            MfdLine::Line0 => 0,
            MfdLine::Line1 => 1,
            MfdLine::Line2 => 2,
        };
        self.state.mfd_lines[i] = String::from_str(text);
    }
}

/// Builder for sending multiple USB commands in a single batch
pub struct BatchUpdate {
    commands: Vec<Command>,
}

impl View for BatchUpdate {
    type V = Seq<Command>;

    /// The commands gathered so far, in the order they are sent.
    closed spec fn view(&self) -> Seq<Command> {
        self.commands@
    }
}

impl BatchUpdate {
    /// Create new batch update
    pub fn new() -> (r: Self)
        ensures
            r@ == Seq::<Command>::empty(),
    {
        Self { commands: Vec::new() }
    }

    /// Add LED command
    pub fn led(self, led: Led, color: LedColor) -> (r: Self)
        ensures
            r@ == self@ + led_color_commands(led, color),
    {
        let mut commands = self.commands;
        let mut cmds = led::set_color(led, color);
        commands.append(&mut cmds);
        Self { commands }
    }

    /// Add brightness command
    pub fn led_brightness(self, level: u8) -> (r: Self)
        ensures
            r@ == self@.push(brightness_command(CommandIndex::ChangeBrightnessLed, level)),
    {
        let mut commands = self.commands;
        commands.push(led::set_brightness(level));
        Self { commands }
    }

    /// Add MFD brightness command
    pub fn mfd_brightness(self, level: u8) -> (r: Self)
        ensures
            r@ == self@.push(brightness_command(CommandIndex::ChangeBrightnessMfd, level)),
    {
        let mut commands = self.commands;
        commands.push(mfd::set_brightness(level));
        Self { commands }
    }

    /// Add MFD text command
    pub fn text(self, line: MfdLine, text: &str) -> (r: Self)
        ensures
            r@ == self@ + text_commands(line, text.spec_bytes()),
    {
        let mut commands = self.commands;
        let mut cmds = line_commands(line, text);
        commands.append(&mut cmds);
        Self { commands }
    }

    /// Add clock time command; an hour above 23 or a minute above 59 adds nothing
    pub fn clock(self, hour: u8, minute: u8, format: ClockFormat) -> (r: Self)
        ensures
            r@ == (if hour < 24 && minute < 60 {
                self@.push(time_command(hour, minute, format))
            } else {
                self@
            }),
    {
        let mut commands = self.commands;
        if hour < 24 && minute < 60 {
            commands.push(clock::set_time(hour, minute, format));
        }
        Self { commands }
    }

    /// Add clock offset command; an offset beyond a day either way adds nothing
    pub fn clock_offset(self, clock: ClockOffsetId, offset_minutes: i32, format: ClockFormat) -> (r:
        Self)
        requires
            offset_minutes != i32::MIN,
        ensures
            r@ == (if abs_minutes(offset_minutes) <= 1440 {
                self@.push(offset_command(clock, offset_minutes, format))
            } else {
                self@
            }),
    {
        let mut commands = self.commands;
        if -1440 <= offset_minutes && offset_minutes <= 1440 {
            commands.push(clock::set_offset(clock, offset_minutes, format));
        }
        Self { commands }
    }

    /// Add date command; a day, month or year out of range adds nothing
    pub fn date(self, day: u8, month: u8, year: u8) -> (r: Self)
        ensures
            r@ == (if 1 <= day <= 31 && 1 <= month <= 12 && year <= 99 {
                self@.push(day_month_command(day, month)).push(year_command(year))
            } else {
                self@
            }),
    {
        let mut commands = self.commands;
        if day > 0 && day <= 31 && month > 0 && month <= 12 && year <= 99 {
            commands.push(clock::set_date_day_month(day, month));
            commands.push(clock::set_date_year(year));
        }
        Self { commands }
    }

    /// Add shift indicator command
    pub fn shift(self, state: bool) -> (r: Self)
        ensures
            r@ == self@.push(Command { index: CommandIndex::SetShiftIndicator, value: switch_value(state) }),
    {
        let mut commands = self.commands;
        commands.push(misc::set_shift(state));
        Self { commands }
    }

    /// Add blink command
    pub fn blink(self, state: bool) -> (r: Self)
        ensures
            r@ == self@.push(Command { index: CommandIndex::SetBlinkMode, value: switch_value(state) }),
    {
        let mut commands = self.commands;
        commands.push(misc::set_blink(state));
        Self { commands }
    }

    /// The commands gathered, in the order they are to be sent
    pub fn commands(&self) -> (r: &Vec<Command>)
        ensures
            r@ == self@,
    {
        &self.commands
    }
}

} // verus!
