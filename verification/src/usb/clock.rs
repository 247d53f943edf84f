//! Clock and date control

use vstd::prelude::*;

use crate::usb::protocol::{command_code, Command, CommandIndex};

verus! {

/// Clock identifier for timezone offset configuration
#[derive(Debug, Clone, Copy, PartialEq, Eq, Structural, Hash)]
pub enum ClockOffsetId {
    /// Secondary clock
    Secondary,
    /// Tertiary clock
    Tertiary,
}

/// Clock display format
#[derive(Debug, Clone, Copy, PartialEq, Eq, Structural, Hash)]
pub enum ClockFormat {
    /// 12-hour format
    Hours12,
    /// 24-hour format
    Hours24,
}

/// Date display format
#[derive(Debug, Clone, Copy, PartialEq, Eq, Structural, Hash)]
pub enum DateFormat {
    /// DD-MM-YY
    DayMonthYear,
    /// MM-DD-YY
    MonthDayYear,
    /// YY-MM-DD
    YearMonthDay,
}

impl ClockOffsetId {
    /// The name of the clock, as shown to a user
    pub fn name(&self) -> (r: &'static str)
        ensures
            r@ == (match *self {
                ClockOffsetId::Secondary => "Secondary"@,
                ClockOffsetId::Tertiary => "Tertiary"@,
            }),
    {
        match self {
            Self::Secondary => "Secondary",
            Self::Tertiary => "Tertiary",
        }
    }
}

impl ClockFormat {
    /// The name of the format, as shown to a user
    pub fn name(&self) -> (r: &'static str)
        ensures
            r@ == (match *self {
                ClockFormat::Hours12 => "Hours12"@,
                ClockFormat::Hours24 => "Hours24"@,
            }),
    {
        match self {
            Self::Hours12 => "Hours12",
            Self::Hours24 => "Hours24",
        }
    }
}

impl DateFormat {
    /// The name of the format, as shown to a user
    pub fn name(&self) -> (r: &'static str)
        ensures
            r@ == (match *self {
                DateFormat::DayMonthYear => "DayMonthYear"@,
                DateFormat::MonthDayYear => "MonthDayYear"@,
                DateFormat::YearMonthDay => "YearMonthDay"@,
            }),
    {
        match self {
            Self::DayMonthYear => "DayMonthYear",
            Self::MonthDayYear => "MonthDayYear",
            Self::YearMonthDay => "YearMonthDay",
        }
    }
}

/// The format flag, bit 15 of a clock value: set for the 24-hour format.
pub open spec fn format_flag(format: ClockFormat) -> int {
    match format {
        ClockFormat::Hours24 => 32768,
        ClockFormat::Hours12 => 0,
    }
}

/// The absolute value of an offset.
pub open spec fn abs_minutes(offset: i32) -> int {
    if offset < 0 {
        -offset
    } else {
        offset as int
    }
}

/// The command that sets the primary clock: format flag in bit 15, the hour
/// (its low 7 bits) in bits 8 to 14, the minute in bits 0 to 7.
pub open spec fn time_command(hour: u8, minute: u8, format: ClockFormat) -> Command {
    Command {
        index: CommandIndex::SetClockTime,
        value: (format_flag(format) + (hour % 128) * 256 + minute) as u16,
    }
}

/// The command that sets the offset of a secondary or tertiary clock: format
/// flag in bit 15, sign in bit 10, and the low 10 bits of the offset's
/// magnitude in bits 0 to 9.
pub open spec fn offset_command(clock: ClockOffsetId, offset: i32, format: ClockFormat) -> Command {
    let index = match clock {
        ClockOffsetId::Secondary => CommandIndex::SetClockOffsetSecondary,
        ClockOffsetId::Tertiary => CommandIndex::SetClockOffsetTertiary,
    };
    let sign = if offset < 0 {
        1024int
    } else {
        0int
    };
    Command { index, value: (format_flag(format) + sign + abs_minutes(offset) % 1024) as u16 }
}

/// The command that sets day (low byte) and month (high byte) of the date.
pub open spec fn day_month_command(day: u8, month: u8) -> Command {
    Command { index: CommandIndex::SetDateDayMonth, value: (month * 256 + day) as u16 }
}

/// The command that sets the year of the date.
pub open spec fn year_command(year: u8) -> Command {
    Command { index: CommandIndex::SetDateYear, value: year as u16 }
}

/// Set time on primary clock (index: 0xc0)
pub fn set_time(hour: u8, minute: u8, format: ClockFormat) -> (r: Command)
    ensures
        r == time_command(hour, minute, format),
{
    let index = CommandIndex::SetClockTime;
    let format_bit: u16 = match format {
        ClockFormat::Hours24 => 1u16 << 15u16,
        ClockFormat::Hours12 => 0,
    };
    let h = ((hour as u16) & 0x7F) << 8u16;
    let m = (minute as u16) & 0xFF;
    let value = format_bit | h | m;
    assert(1u16 << 15u16 == 32768) by (bit_vector);
    assert(format_bit | ((((hour as u16) & 0x7F) << 8u16)) | ((minute as u16) & 0xFF) == format_bit
        + (hour % 128) * 256 + minute) by (bit_vector)
        requires
            format_bit == 0 || format_bit == 32768,
    ;
    Command { index, value }
}

/// Set timezone offset for secondary/tertiary clock (0xc1, 0xc2)
pub fn set_offset(clock: ClockOffsetId, offset_minutes: i32, format: ClockFormat) -> (r: Command)
    ensures
        r == offset_command(clock, offset_minutes, format),
{
    let index = match clock {
        ClockOffsetId::Secondary => CommandIndex::SetClockOffsetSecondary,
        ClockOffsetId::Tertiary => CommandIndex::SetClockOffsetTertiary,
    };

    let format_bit: u16 = match format {
        ClockFormat::Hours24 => 1u16 << 15u16,
        ClockFormat::Hours12 => 0,
    };
    assert(1u16 << 15u16 == 32768) by (bit_vector);

    let negative = offset_minutes < 0;
    let magnitude: u32 = if negative {
        (0i64 - offset_minutes as i64) as u32
    } else {
        offset_minutes as u32
    };
    let abs_offset = (magnitude as u16) & 0x3FF;  // 10 bits max
    assert((magnitude as u16) & 0x3FF == magnitude % 1024) by (bit_vector);
    let neg_bit: u16 = if negative {
        1u16 << 10u16
    } else {
        0
    };
    assert(1u16 << 10u16 == 1024) by (bit_vector);
    let value = format_bit | neg_bit | abs_offset;
    assert(format_bit | neg_bit | abs_offset == format_bit + neg_bit + abs_offset) by (bit_vector)
        requires
            format_bit == 0 || format_bit == 32768,
            neg_bit == 0 || neg_bit == 1024,
            abs_offset < 1024,
    ;

    Command { index, value }
}

/// Set date (index: 0xc4 for day/month, 0xc8 for year)
pub fn set_date_day_month(day: u8, month: u8) -> (r: Command)
    ensures
        r == day_month_command(day, month),
{
    let index = CommandIndex::SetDateDayMonth;
    let d = (day as u16) & 0xFF;
    let m = ((month as u16) & 0xFF) << 8u16;
    let value = m | d;
    assert(((((month as u16) & 0xFF) << 8u16)) | ((day as u16) & 0xFF) == month * 256 + day)
        by (bit_vector);
    Command { index, value }
}

/// Set year (index: 0xc8)
pub fn set_date_year(year: u8) -> (r: Command)
    ensures
        r == year_command(year),
{
    let index = CommandIndex::SetDateYear;
    let value = (year as u16) & 0xFF;
    assert((year as u16) & 0xFF == year) by (bit_vector);
    Command { index, value }
}

/// The fields of a time command are found again in its value, for every
/// hour that fits its 7 bits.
pub proof fn lemma_time_roundtrip(hour: u8, minute: u8, format: ClockFormat)
    requires
        hour < 128,
    ensures
        time_command(hour, minute, format).value % 256 == minute,
        (time_command(hour, minute, format).value / 256) % 128 == hour,
        time_command(hour, minute, format).value / 32768 == format_flag(format) / 32768,
{
}

/// Sign and magnitude of an offset are found again in its command, for every
/// offset whose magnitude fits the 10 bits.
pub proof fn lemma_offset_roundtrip(clock: ClockOffsetId, offset: i32, format: ClockFormat)
    requires
        -1024 < offset < 1024,
    ensures
        offset_command(clock, offset, format).value % 1024 == abs_minutes(offset),
        (offset_command(clock, offset, format).value / 1024) % 2 == (if offset < 0 {
            1int
        } else {
            0int
        }),
        offset_command(clock, offset, format).value / 32768 == format_flag(format) / 32768,
{
}

/// Day and month are found again in a date command.
pub proof fn lemma_day_month_roundtrip(day: u8, month: u8)
    ensures
        day_month_command(day, month).value % 256 == day,
        day_month_command(day, month).value / 256 == month,
{
}

/// The codes of the clock commands: the primary clock's time goes out under
/// 0xc0, the secondary and tertiary clocks' offsets under 0xc1 and 0xc2, the
/// day and month under 0xc4 and the year under 0xc8, whose value is the year
/// itself; distinct clocks get distinct codes.
pub proof fn lemma_clock_command_codes(
    hour: u8,
    minute: u8,
    clock: ClockOffsetId,
    other: ClockOffsetId,
    offset: i32,
    format: ClockFormat,
    day: u8,
    month: u8,
    year: u8,
)
    ensures
        command_code(time_command(hour, minute, format).index) == 0xc0,
        command_code(offset_command(clock, offset, format).index) == (match clock {
            ClockOffsetId::Secondary => 0xc1u16,
            ClockOffsetId::Tertiary => 0xc2u16,
        }),
        clock != other ==> command_code(offset_command(clock, offset, format).index)
            != command_code(offset_command(other, offset, format).index),
        command_code(day_month_command(day, month).index) == 0xc4,
        command_code(year_command(year).index) == 0xc8,
        year_command(year).value == year,
        format_flag(format) == 32768 <==> format == ClockFormat::Hours24,
        format_flag(format) == 0 <==> format == ClockFormat::Hours12,
{
}

} // verus!
