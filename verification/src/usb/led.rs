//! LED control

use vstd::prelude::*;

use crate::usb::protocol::{command_code, Command, CommandIndex};

verus! {

/// LED identifier on the X52/X52 Pro
#[derive(Debug, Clone, Copy, PartialEq, Eq, Structural, Hash)]
pub enum Led {
    /// Fire button LED (single color)
    Fire,
    /// A button LED (multicolor)
    A,
    /// B button LED (multicolor)
    B,
    /// D button LED (multicolor)
    D,
    /// E button LED (multicolor)
    E,
    /// T1 button LED (multicolor)
    T1,
    /// T2 button LED (multicolor)
    T2,
    /// T3 button LED (multicolor)
    T3,
    /// POV LED (multicolor)
    Pov,
    /// Clutch/i button LED (multicolor)
    Clutch,
    /// Throttle LED (single color)
    Throttle,
}

/// Whether an LED has a red and a green element (all but Fire and Throttle).
pub open spec fn led_is_multicolor(led: Led) -> bool {
    !(led == Led::Fire || led == Led::Throttle)
}

/// The name of an LED.
pub open spec fn led_name(led: Led) -> Seq<char> {
    match led {
        Led::Fire => "Fire"@,
        Led::A => "A"@,
        Led::B => "B"@,
        Led::D => "D"@,
        Led::E => "E"@,
        Led::T1 => "T1"@,
        Led::T2 => "T2"@,
        Led::T3 => "T3"@,
        Led::Pov => "Pov"@,
        Led::Clutch => "Clutch"@,
        Led::Throttle => "Throttle"@,
    }
}

impl Led {
    /// Check if LED is multicolor
    pub fn is_multicolor(&self) -> (r: bool)
        ensures
            r == led_is_multicolor(*self),
    {
        !matches!(self, Led::Fire | Led::Throttle)
    }

    /// The name of the LED, as shown to a user ("Fire", "A", ..., "Throttle")
    pub fn name(&self) -> (r: &'static str)
        ensures
            r@ == led_name(*self),
    {
        match self {
            Self::Fire => "Fire",
            Self::A => "A",
            Self::B => "B",
            Self::D => "D",
            Self::E => "E",
            Self::T1 => "T1",
            Self::T2 => "T2",
            Self::T3 => "T3",
            Self::Pov => "Pov",
            Self::Clutch => "Clutch",
            Self::Throttle => "Throttle",
        }
    }
}

/// LED color/state
#[derive(Debug, Clone, Copy, PartialEq, Eq, Structural, Hash)]
pub enum LedColor {
    /// Off
    Off,
    /// On (Fire/Throttle only)
    On,
    /// Red
    Red,
    /// Amber (Red + Green)
    Amber,
    /// Green
    Green,
}

/// The (red, green) element states of a color; Off and On light neither.
pub open spec fn color_bits(c: LedColor) -> (u8, u8) {
    match c {
        LedColor::Red => (1, 0),
        LedColor::Green => (0, 1),
        LedColor::Amber => (1, 1),
        _ => (0, 0),
    }
}

/// The name of a color.
pub open spec fn color_name(c: LedColor) -> Seq<char> {
    match c {
        LedColor::Off => "Off"@,
        LedColor::On => "On"@,
        LedColor::Red => "Red"@,
        LedColor::Amber => "Amber"@,
        LedColor::Green => "Green"@,
    }
}

impl LedColor {
    /// Convert color to (red, green) bit values for protocol encoding
    pub fn to_bits(&self) -> (r: (u8, u8))
        ensures
            r == color_bits(*self),
    {
        match self {
            Self::Red => (1, 0),
            Self::Green => (0, 1),
            Self::Amber => (1, 1),
            _ => (0, 0),  // Off and On do not apply here
        }
    }

    /// Check if valid for single-color LEDs
    pub fn is_valid_for_single_color(&self) -> (r: bool)
        ensures
            r == (*self == LedColor::Off || *self == LedColor::On),
    {
        matches!(self, Self::Off | Self::On)
    }

    /// The name of the color, as shown to a user ("Off", "On", "Red", "Amber", "Green")
    pub fn name(&self) -> (r: &'static str)
        ensures
            r@ == color_name(*self),
    {
        match self {
            Self::Off => "Off",
            Self::On => "On",
            Self::Red => "Red",
            Self::Amber => "Amber",
            Self::Green => "Green",
        }
    }
}

/// The protocol number of an LED; a multicolor LED's green element is the next number.
pub open spec fn led_base(led: Led) -> u16 {
    match led {
        Led::Fire => 1,
        Led::A => 2,
        Led::B => 4,
        Led::D => 6,
        Led::E => 8,
        Led::T1 => 10,
        Led::T2 => 12,
        Led::T3 => 14,
        Led::Pov => 16,
        Led::Clutch => 18,
        Led::Throttle => 20,
    }
}

/// The commands that set an LED to a color: a multicolor LED gets one
/// command for its red element and one for its green element; a single-color
/// LED gets one command, which turns it off for Off and on for any other color.
pub open spec fn led_color_commands(led: Led, color: LedColor) -> Seq<Command> {
    let base = led_base(led);
    if led_is_multicolor(led) {
        seq![
            Command { index: CommandIndex::ChangeLed, value: (base * 256 + color_bits(color).0) as u16 },
            Command {
                index: CommandIndex::ChangeLed,
                value: ((base + 1) * 256 + color_bits(color).1) as u16,
            },
        ]
    } else if color == LedColor::Off {
        seq![Command { index: CommandIndex::ChangeLed, value: (base * 256) as u16 }]
    } else {
        seq![Command { index: CommandIndex::ChangeLed, value: (base * 256 + 1) as u16 }]
    }
}

/// The brightness command for a level, which is capped at 128.
pub open spec fn brightness_command(index: CommandIndex, level: u8) -> Command {
    Command { index, value: if level <= 128 { level as u16 } else { 128 } }
}

/// A multicolor LED is set by two commands, red element first, then green,
/// each addressing its element in the high byte and carrying the element's
/// on/off bit in the low byte; a single-color LED is set by one command whose
/// low byte is 0 for Off and 1 for any other color.
pub proof fn lemma_led_commands_shape(led: Led, color: LedColor)
    ensures
        led_is_multicolor(led) ==> {
            let c = led_color_commands(led, color);
            &&& c.len() == 2
            &&& c[0].value / 256 == led_base(led) && c[0].value % 256 == color_bits(color).0
            &&& c[1].value / 256 == led_base(led) + 1 && c[1].value % 256 == color_bits(color).1
        },
        !led_is_multicolor(led) ==> {
            let c = led_color_commands(led, color);
            &&& c.len() == 1
            &&& c[0].value / 256 == led_base(led)
            &&& c[0].value % 256 == (if color == LedColor::Off {
                0int
            } else {
                1int
            })
        },
{
}

/// The level that a brightness command sends never exceeds 128, and every
/// level up to 128 is sent as it is.
pub proof fn lemma_brightness_capped(index: CommandIndex, level: u8)
    ensures
        brightness_command(index, level).value <= 128,
        level <= 128 ==> brightness_command(index, level).value == level,
        level > 128 ==> brightness_command(index, level).value == 128,
{
}

/// The element bits of a color: the red element is lit exactly for Red and
/// Amber, the green element exactly for Green and Amber, and each bit is 0
/// or 1. So on a multicolor LED, Off, Red, Green and Amber give four
/// distinct pairs of commands, while On lights nothing there, as Off does.
pub proof fn lemma_color_elements(led: Led, c: LedColor, e: LedColor)
    ensures
        color_bits(c).0 == 1 <==> (c == LedColor::Red || c == LedColor::Amber),
        color_bits(c).0 == 0 <==> !(c == LedColor::Red || c == LedColor::Amber),
        color_bits(c).1 == 1 <==> (c == LedColor::Green || c == LedColor::Amber),
        color_bits(c).1 == 0 <==> !(c == LedColor::Green || c == LedColor::Amber),
        (led_is_multicolor(led) && c != e && c != LedColor::On && e != LedColor::On)
            ==> led_color_commands(led, c) != led_color_commands(led, e),
        led_is_multicolor(led) ==> led_color_commands(led, LedColor::On) == led_color_commands(
            led,
            LedColor::Off,
        ),
{
    if led_is_multicolor(led) && c != e && c != LedColor::On && e != LedColor::On {
        let x = led_color_commands(led, c);
        let y = led_color_commands(led, e);
        assert(x[0].value % 256 == color_bits(c).0);
        assert(y[0].value % 256 == color_bits(e).0);
        assert(x[1].value % 256 == color_bits(c).1);
        assert(y[1].value % 256 == color_bits(e).1);
    }
}

/// The protocol numbers of the LEDs: Fire is 1 and Throttle 20; the
/// multicolor LEDs A, B, D, E, T1, T2, T3, POV and Clutch take the even
/// numbers 2 to 18 in that order for their red element, and the odd number
/// after it for their green element. Distinct LEDs never share an element
/// number, and every LED command goes out under code 0xb8.
pub proof fn lemma_led_numbers(led: Led, other: Led, color: LedColor, i: int)
    ensures
        led == Led::Fire ==> led_base(led) == 1,
        led == Led::A ==> led_base(led) == 2,
        led == Led::B ==> led_base(led) == 4,
        led == Led::D ==> led_base(led) == 6,
        led == Led::E ==> led_base(led) == 8,
        led == Led::T1 ==> led_base(led) == 10,
        led == Led::T2 ==> led_base(led) == 12,
        led == Led::T3 ==> led_base(led) == 14,
        led == Led::Pov ==> led_base(led) == 16,
        led == Led::Clutch ==> led_base(led) == 18,
        led == Led::Throttle ==> led_base(led) == 20,
        led_is_multicolor(led) ==> led_base(led) % 2 == 0,
        led != other ==> led_base(led) != led_base(other),
        (led != other && led_is_multicolor(led)) ==> led_base(led) + 1 != led_base(other),
        0 <= i < led_color_commands(led, color).len() ==> command_code(
            led_color_commands(led, color)[i].index,
        ) == 0xb8,
        command_code(brightness_command(CommandIndex::ChangeBrightnessLed, 0).index) == 0xb2,
{
}

/// Get LED base number for protocol
fn led_base_number(led: Led) -> (r: u8)
    ensures
        r == led_base(led),
{
    match led {
        Led::Fire => 1,
        Led::A => 2,
        Led::B => 4,
        Led::D => 6,
        Led::E => 8,
        Led::T1 => 10,
        Led::T2 => 12,
        Led::T3 => 14,
        Led::Pov => 16,
        Led::Clutch => 18,
        Led::Throttle => 20,
    }
}

/// LED control command (index: 0xb8)
pub fn set_color(led: Led, color: LedColor) -> (r: Vec<Command>)
    ensures
        r@ == led_color_commands(led, color),
{
    let base = led_base_number(led) as u16;

    let (red, green) = color.to_bits();
    let mut commands: Vec<Command> = Vec::new();
    if led.is_multicolor() {
        // Multicolor LED
        assert((base << 8u16) | (red as u16) == base * 256 + red) by (bit_vector)
            requires
                base <= 20,
                red <= 1,
        ;
        let next = base + 1;
        assert((next << 8u16) | (green as u16) == next * 256 + green) by (bit_vector)
            requires
                next <= 21,
                green <= 1,
        ;
        commands.push(Command { index: CommandIndex::ChangeLed, value: (base << 8u16) | red as u16 });
        commands.push(
            Command { index: CommandIndex::ChangeLed, value: (next << 8u16) | green as u16 },
        );
    } else {
        // Single color LED
        assert(base << 8u16 == base * 256) by (bit_vector)
            requires
                base <= 20,
        ;
        assert((base << 8u16) | 0x01 == base * 256 + 1) by (bit_vector)
            requires
                base <= 20,
        ;
        match color {
            LedColor::Off => commands.push(Command { index: CommandIndex::ChangeLed, value: base << 8u16 }),
            // Map any other color to "On"
            _ => commands.push(
                Command { index: CommandIndex::ChangeLed, value: (base << 8u16) | 0x01 },
            ),
        }
    }
    commands
}

/// LED brightness control (index: 0xb2)
pub fn set_brightness(level: u8) -> (r: Command)
    ensures
        r == brightness_command(CommandIndex::ChangeBrightnessLed, level),
{
    let clamped = if level <= 128 {
        level
    } else {
        128
    };
    Command { index: CommandIndex::ChangeBrightnessLed, value: clamped as u16 }
}

} // verus!
