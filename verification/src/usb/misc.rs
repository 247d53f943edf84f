//! Shift indicator and blink mode

use vstd::prelude::*;

use crate::usb::protocol::{command_code, Command, CommandIndex};

verus! {

/// The value that turns an indicator on (0x51) or off (0x50).
pub open spec fn switch_value(state: bool) -> u16 {
    if state {
        0x51
    } else {
        0x50
    }
}

/// Set shift indicator (index: 0xfd, value: 0x51=on, 0x50=off)
pub fn set_shift(state: bool) -> (r: Command)
    ensures
        r == (Command { index: CommandIndex::SetShiftIndicator, value: switch_value(state) }),
{
    let index = CommandIndex::SetShiftIndicator;
    let value = if state {
        0x51
    } else {
        0x50
    };
    Command { index, value }
}

/// Set blink mode (index: 0xb4, value: 0x51=on, 0x50=off)
pub fn set_blink(state: bool) -> (r: Command)
    ensures
        r == (Command { index: CommandIndex::SetBlinkMode, value: switch_value(state) }),
{
    let index = CommandIndex::SetBlinkMode;
    let value = if state {
        0x51
    } else {
        0x50
    };
    Command { index, value }
}

/// An indicator is switched on with 0x51 and off with 0x50; the shift
/// indicator's command goes out under code 0xfd and the blink mode's under
/// 0xb4.
pub proof fn lemma_switch_commands(state: bool)
    ensures
        switch_value(state) == 0x50 + (if state {
            1int
        } else {
            0int
        }),
        command_code(CommandIndex::SetShiftIndicator) == 0xfd,
        command_code(CommandIndex::SetBlinkMode) == 0xb4,
{
}

} // verus!
