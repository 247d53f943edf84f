//! MFD (Multi-Function Display) control

use vstd::prelude::*;

use crate::usb::led::brightness_command;
use crate::usb::protocol::{command_code, Command, CommandIndex};

verus! {

/// MFD display line selector
#[derive(Debug, Clone, Copy, PartialEq, Eq, Structural, Hash)]
pub enum MfdLine {
    /// Top line
    Line0,
    /// Middle line
    Line1,
    /// Bottom line
    Line2,
}

/// The position of a line on the display, from the top.
pub open spec fn mfd_line_index(line: MfdLine) -> int {
    match line {
        MfdLine::Line0 => 0,
        MfdLine::Line1 => 1,
        MfdLine::Line2 => 2,
    }
}

/// The command that clears a line.
pub open spec fn clear_line_command(line: MfdLine) -> Command {
    let index = match line {
        MfdLine::Line0 => CommandIndex::ClearMfdLine0,
        MfdLine::Line1 => CommandIndex::ClearMfdLine1,
        MfdLine::Line2 => CommandIndex::ClearMfdLine2,
    };
    Command { index, value: 0 }
}

/// The command that writes two characters to a line: the first in the low
/// byte of the value, the second in the high byte.
pub open spec fn write_chars_command(line: MfdLine, char1: u8, char2: u8) -> Command {
    let index = match line {
        MfdLine::Line0 => CommandIndex::WriteMfdLine0,
        MfdLine::Line1 => CommandIndex::WriteMfdLine1,
        MfdLine::Line2 => CommandIndex::WriteMfdLine2,
    };
    Command { index, value: (char1 + 256 * char2) as u16 }
}

/// MFD brightness control (index: 0xb1)
pub fn set_brightness(level: u8) -> (r: Command)
    ensures
        r == brightness_command(CommandIndex::ChangeBrightnessMfd, level),
{
    let index = CommandIndex::ChangeBrightnessMfd;
    let value = if level <= 128 {
        level as u16
    } else {
        128
    };
    Command { index, value }
}

/// Clear MFD line (0xd9, 0xda, 0xdc for lines 0, 1, 2)
pub fn clear_line(line: MfdLine) -> (r: Command)
    ensures
        r == clear_line_command(line),
{
    let index = match line {
        MfdLine::Line0 => CommandIndex::ClearMfdLine0,
        MfdLine::Line1 => CommandIndex::ClearMfdLine1,
        MfdLine::Line2 => CommandIndex::ClearMfdLine2,
    };
    let value = 0u16;
    Command { index, value }
}

/// Write character pair to MFD line (0xd1, 0xd2, 0xd4 for lines 0, 1, 2)
pub fn write_chars(line: MfdLine, char1: u8, char2: u8) -> (r: Command)
    ensures
        r == write_chars_command(line, char1, char2),
{
    let index = match line {
        MfdLine::Line0 => CommandIndex::WriteMfdLine0,
        MfdLine::Line1 => CommandIndex::WriteMfdLine1,
        MfdLine::Line2 => CommandIndex::WriteMfdLine2,
    };
    // Characters in little-endian: char1 | (char2 << 8)
    let value = (char1 as u16) | ((char2 as u16) << 8u16);
    assert((char1 as u16) | ((char2 as u16) << 8u16) == char1 + 256 * char2) by (bit_vector);
    Command { index, value }
}

/// The two characters of a write command are found again in its value: the
/// first in the low byte, the second in the high byte.
pub proof fn lemma_write_chars_roundtrip(line: MfdLine, char1: u8, char2: u8)
    ensures
        write_chars_command(line, char1, char2).value % 256 == char1,
        write_chars_command(line, char1, char2).value / 256 == char2,
{
}

/// Every command that clears or writes a line addresses that line: clearing
/// lines 0, 1 and 2 goes out under codes 0xd9, 0xda and 0xdc, writing to
/// them under 0xd1, 0xd2 and 0xd4, so commands for distinct lines differ,
/// and a write never goes out as a clear.
pub proof fn lemma_line_commands_address_line(line: MfdLine, other: MfdLine, char1: u8, char2: u8)
    ensures
        command_code(clear_line_command(line).index) == (match line {
            MfdLine::Line0 => 0xd9u16,
            MfdLine::Line1 => 0xdau16,
            MfdLine::Line2 => 0xdcu16,
        }),
        command_code(write_chars_command(line, char1, char2).index) == (match line {
            MfdLine::Line0 => 0xd1u16,
            MfdLine::Line1 => 0xd2u16,
            MfdLine::Line2 => 0xd4u16,
        }),
        line != other ==> command_code(write_chars_command(line, char1, char2).index)
            != command_code(write_chars_command(other, char1, char2).index),
        line != other ==> command_code(clear_line_command(line).index) != command_code(
            clear_line_command(other).index,
        ),
        command_code(write_chars_command(line, char1, char2).index) != command_code(
            clear_line_command(other).index,
        ),
        clear_line_command(line).value == 0,
        command_code(brightness_command(CommandIndex::ChangeBrightnessMfd, char1).index) == 0xb1,
{
}

} // verus!
