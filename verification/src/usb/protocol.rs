//! USB protocol definitions for X52 control

use vstd::prelude::*;

verus! {

/// USB vendor request number
pub const VENDOR_REQUEST: u8 = 0x91;

/// USB request timeout (5 seconds)
pub const REQUEST_TIMEOUT_MS: u64 = 5000;

/// Maximum retry attempts
pub const MAX_RETRIES: usize = 3;

/// The command of a vendor request, sent as its `wIndex`
#[derive(Debug, Clone, Copy, PartialEq, Eq, Structural)]
pub enum CommandIndex {
    /// Request 0xb8
    ChangeLed,
    /// Request 0xb1
    ChangeBrightnessMfd,
    /// Request 0xb2
    ChangeBrightnessLed,
    /// Request 0xd9
    ClearMfdLine0,
    /// Request 0xda
    ClearMfdLine1,
    /// Request 0xdc
    ClearMfdLine2,
    /// Request 0xd1
    WriteMfdLine0,
    /// Request 0xd2
    WriteMfdLine1,
    /// Request 0xd4
    WriteMfdLine2,
    /// Request 0xc0
    SetClockTime,
    /// Request 0xc1
    SetClockOffsetSecondary,
    /// Request 0xc2
    SetClockOffsetTertiary,
    /// Request 0xc4
    SetDateDayMonth,
    /// Request 0xc8
    SetDateYear,
    /// Request 0xfd
    SetShiftIndicator,
    /// Request 0xb4
    SetBlinkMode,
}

/// The `wIndex` code of a command.
pub open spec fn command_code(i: CommandIndex) -> u16 {
    match i {
        CommandIndex::ChangeLed => 0xb8,
        CommandIndex::ChangeBrightnessMfd => 0xb1,
        CommandIndex::ChangeBrightnessLed => 0xb2,
        CommandIndex::ClearMfdLine0 => 0xd9,
        CommandIndex::ClearMfdLine1 => 0xda,
        CommandIndex::ClearMfdLine2 => 0xdc,
        CommandIndex::WriteMfdLine0 => 0xd1,
        CommandIndex::WriteMfdLine1 => 0xd2,
        CommandIndex::WriteMfdLine2 => 0xd4,
        CommandIndex::SetClockTime => 0xc0,
        CommandIndex::SetClockOffsetSecondary => 0xc1,
        CommandIndex::SetClockOffsetTertiary => 0xc2,
        CommandIndex::SetDateDayMonth => 0xc4,
        CommandIndex::SetDateYear => 0xc8,
        CommandIndex::SetShiftIndicator => 0xfd,
        CommandIndex::SetBlinkMode => 0xb4,
    }
}

impl CommandIndex {
    /// The `wIndex` code of the command
    pub fn code(&self) -> (r: u16)
        ensures
            r == command_code(*self),
    {
        match self {
            Self::ChangeLed => 0xb8,
            Self::ChangeBrightnessMfd => 0xb1,
            Self::ChangeBrightnessLed => 0xb2,
            Self::ClearMfdLine0 => 0xd9,
            Self::ClearMfdLine1 => 0xda,
            Self::ClearMfdLine2 => 0xdc,
            Self::WriteMfdLine0 => 0xd1,
            Self::WriteMfdLine1 => 0xd2,
            Self::WriteMfdLine2 => 0xd4,
            Self::SetClockTime => 0xc0,
            Self::SetClockOffsetSecondary => 0xc1,
            Self::SetClockOffsetTertiary => 0xc2,
            Self::SetDateDayMonth => 0xc4,
            Self::SetDateYear => 0xc8,
            Self::SetShiftIndicator => 0xfd,
            Self::SetBlinkMode => 0xb4,
        }
    }
}

/// Distinct commands go out under distinct `wIndex` codes.
pub proof fn lemma_command_codes_distinct(a: CommandIndex, b: CommandIndex)
    ensures
        a != b ==> command_code(a) != command_code(b),
{
}

/// USB command builder
#[derive(Debug, Clone, Copy)]
pub struct Command {
    /// The command, sent as the request's `wIndex`
    pub index: CommandIndex,
    /// The command's argument, sent as the request's `wValue`
    pub value: u16,
}

} // verus!
