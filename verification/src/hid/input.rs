//! Input-related types (axes, buttons, hat)

use vstd::prelude::*;

verus! {

/// Joystick axes
#[derive(Debug, Clone, Copy, PartialEq, Eq, Structural, Hash)]
pub enum Axis {
    /// Stick X axis (left/right)
    X,
    /// Stick Y axis (forward/back)
    Y,
    /// Stick twist (RZ)
    RZ,
    /// Throttle (Z)
    Z,
    /// Throttle rotary X (RX)
    RX,
    /// Throttle rotary Y (RY)
    RY,
    /// Throttle slider
    Slider,
    /// Thumbstick X (on throttle)
    ThumbX,
    /// Thumbstick Y (on throttle)
    ThumbY,
    /// POV hat X (-1, 0, 1)
    HatX,
    /// POV hat Y (-1, 0, 1)
    HatY,
}

/// The position of an axis in an axis report.
pub open spec fn axis_index(a: Axis) -> int {
    match a {
        Axis::X => 0,
        Axis::Y => 1,
        Axis::RZ => 2,
        Axis::Z => 3,
        Axis::RX => 4,
        Axis::RY => 5,
        Axis::Slider => 6,
        Axis::ThumbX => 7,
        Axis::ThumbY => 8,
        Axis::HatX => 9,
        Axis::HatY => 10,
    }
}

/// The axis at a position of an axis report, if the position is one.
pub open spec fn axis_at(i: int) -> Option<Axis> {
    if i == 0 {
        Some(Axis::X)
    } else if i == 1 {
        Some(Axis::Y)
    } else if i == 2 {
        Some(Axis::RZ)
    } else if i == 3 {
        Some(Axis::Z)
    } else if i == 4 {
        Some(Axis::RX)
    } else if i == 5 {
        Some(Axis::RY)
    } else if i == 6 {
        Some(Axis::Slider)
    } else if i == 7 {
        Some(Axis::ThumbX)
    } else if i == 8 {
        Some(Axis::ThumbY)
    } else if i == 9 {
        Some(Axis::HatX)
    } else if i == 10 {
        Some(Axis::HatY)
    } else {
        None
    }
}

/// The name of an axis.
pub open spec fn axis_name(a: Axis) -> Seq<char> {
    match a {
        Axis::X => "X"@,
        Axis::Y => "Y"@,
        Axis::RZ => "RZ"@,
        Axis::Z => "Z"@,
        Axis::RX => "RX"@,
        Axis::RY => "RY"@,
        Axis::Slider => "Slider"@,
        Axis::ThumbX => "ThumbX"@,
        Axis::ThumbY => "ThumbY"@,
        Axis::HatX => "HatX"@,
        Axis::HatY => "HatY"@,
    }
}

impl Axis {
    /// Total number of axes
    pub const COUNT: usize = 11;

    /// Get axis name
    pub fn name(&self) -> (r: &'static str)
        ensures
            r@ == axis_name(*self),
    {
        match self {
            Self::X => "X",
            Self::Y => "Y",
            Self::RZ => "RZ",
            Self::Z => "Z",
            Self::RX => "RX",
            Self::RY => "RY",
            Self::Slider => "Slider",
            Self::ThumbX => "ThumbX",
            Self::ThumbY => "ThumbY",
            Self::HatX => "HatX",
            Self::HatY => "HatY",
        }
    }

    /// Get axis from index (0-10)
    pub fn from_index(idx: usize) -> (r: Option<Self>)
        ensures
            r == axis_at(idx as int),
    {
        match idx {
            0 => Some(Self::X),
            1 => Some(Self::Y),
            2 => Some(Self::RZ),
            3 => Some(Self::Z),
            4 => Some(Self::RX),
            5 => Some(Self::RY),
            6 => Some(Self::Slider),
            7 => Some(Self::ThumbX),
            8 => Some(Self::ThumbY),
            9 => Some(Self::HatX),
            10 => Some(Self::HatY),
            _ => None,
        }
    }

    /// Get axis index
    pub fn index(&self) -> (r: usize)
        ensures
            r == axis_index(*self),
            r < Self::COUNT,
    {
        match self {
            Self::X => 0,
            Self::Y => 1,
            Self::RZ => 2,
            Self::Z => 3,
            Self::RX => 4,
            Self::RY => 5,
            Self::Slider => 6,
            Self::ThumbX => 7,
            Self::ThumbY => 8,
            Self::HatX => 9,
            Self::HatY => 10,
        }
    }
}

/// Index and axis are two names for the same thing: an axis is found again
/// from its index, and every index below [`Axis::COUNT`] names exactly one axis.
pub proof fn lemma_axis_index_roundtrip(a: Axis, i: int)
    ensures
        axis_at(axis_index(a)) == Some(a),
        0 <= axis_index(a) < Axis::COUNT,
        axis_at(i) is Some <==> 0 <= i < Axis::COUNT,
        axis_at(i) matches Some(b) ==> axis_index(b) == i,
{
}

/// Axis value range
#[derive(Debug, Clone, Copy, PartialEq, Eq, Structural)]
pub struct AxisRange {
    /// Minimum value
    pub min: i32,
    /// Maximum value
    pub max: i32,
}

impl AxisRange {
    /// Create new axis range
    pub fn new(min: i32, max: i32) -> (r: Self)
        ensures
            r.min == min,
            r.max == max,
    {
        Self { min, max }
    }

    /// Whether a value lies within the range, bounds included.
    pub open spec fn contains(self, v: int) -> bool {
        self.min <= v <= self.max
    }
}

/// Joystick buttons
#[derive(Debug, Clone, Copy, PartialEq, Eq, Structural, Hash)]
pub enum Button {
    /// Primary trigger (first stage)
    Trigger,
    /// Fire button
    Fire,
    /// A button
    A,
    /// B button
    B,
    /// C button
    C,
    /// Pinkie switch
    Pinkie,
    /// D button
    D,
    /// E button
    E,
    /// Toggle 1
    T1,
    /// Toggle 2
    T2,
    /// Toggle 3
    T3,
    /// Toggle 4
    T4,
    /// Toggle 5
    T5,
    /// Toggle 6
    T6,
    /// Primary trigger (second stage)
    TriggerStage2,
    /// POV up
    PovUp,
    /// POV right
    PovRight,
    /// POV down
    PovDown,
    /// POV left
    PovLeft,
    /// POV 2 up
    Pov2Up,
    /// POV 2 right
    Pov2Right,
    /// POV 2 down
    Pov2Down,
    /// POV 2 left
    Pov2Left,
    /// Clutch (i button)
    Clutch,
    /// Mouse button (primary)
    MousePrimary,
    /// Mouse button (secondary)
    MouseSecondary,
    /// Mouse wheel click
    MouseWheel,
    /// Wheel scroll up
    WheelUp,
    /// Wheel scroll down
    WheelDown,
    /// Mode 1 button
    Mode1,
    /// Mode 2 button
    Mode2,
    /// Mode 3 button
    Mode3,
    /// Function button
    Function,
    /// Start/Stop button
    StartStop,
    /// Reset button
    Reset,
    /// Page up (X52 Pro only)
    PageUp,
    /// Page down (X52 Pro only)
    PageDown,
    /// Up arrow (X52 Pro only)
    Up,
    /// Down arrow (X52 Pro only)
    Down,
    /// Select button (X52 Pro only)
    Select,
}

/// The position of a button in a button state.
pub open spec fn button_index(b: Button) -> int {
    match b {
        Button::Trigger => 0,
        Button::Fire => 1,
        Button::A => 2,
        Button::B => 3,
        Button::C => 4,
        Button::Pinkie => 5,
        Button::D => 6,
        Button::E => 7,
        Button::T1 => 8,
        Button::T2 => 9,
        Button::T3 => 10,
        Button::T4 => 11,
        Button::T5 => 12,
        Button::T6 => 13,
        Button::TriggerStage2 => 14,
        Button::PovUp => 15,
        Button::PovRight => 16,
        Button::PovDown => 17,
        Button::PovLeft => 18,
        Button::Pov2Up => 19,
        Button::Pov2Right => 20,
        Button::Pov2Down => 21,
        Button::Pov2Left => 22,
        Button::Clutch => 23,
        Button::MousePrimary => 24,
        Button::MouseSecondary => 25,
        Button::MouseWheel => 26,
        Button::WheelUp => 27,
        Button::WheelDown => 28,
        Button::Mode1 => 29,
        Button::Mode2 => 30,
        Button::Mode3 => 31,
        Button::Function => 32,
        Button::StartStop => 33,
        Button::Reset => 34,
        Button::PageUp => 35,
        Button::PageDown => 36,
        Button::Up => 37,
        Button::Down => 38,
        Button::Select => 39,
    }
}

/// The button at a position of a button state, if the position is one.
pub open spec fn button_at(i: int) -> Option<Button> {
    if i == 0 {
        Some(Button::Trigger)
    } else if i == 1 {
        Some(Button::Fire)
    } else if i == 2 {
        Some(Button::A)
    } else if i == 3 {
        Some(Button::B)
    } else if i == 4 {
        Some(Button::C)
    } else if i == 5 {
        Some(Button::Pinkie)
    } else if i == 6 {
        Some(Button::D)
    } else if i == 7 {
        Some(Button::E)
    } else if i == 8 {
        Some(Button::T1)
    } else if i == 9 {
        Some(Button::T2)
    } else if i == 10 {
        Some(Button::T3)
    } else if i == 11 {
        Some(Button::T4)
    } else if i == 12 {
        Some(Button::T5)
    } else if i == 13 {
        Some(Button::T6)
    } else if i == 14 {
        Some(Button::TriggerStage2)
    } else if i == 15 {
        Some(Button::PovUp)
    } else if i == 16 {
        Some(Button::PovRight)
    } else if i == 17 {
        Some(Button::PovDown)
    } else if i == 18 {
        Some(Button::PovLeft)
    } else if i == 19 {
        Some(Button::Pov2Up)
    } else if i == 20 {
        Some(Button::Pov2Right)
    } else if i == 21 {
        Some(Button::Pov2Down)
    } else if i == 22 {
        Some(Button::Pov2Left)
    } else if i == 23 {
        Some(Button::Clutch)
    } else if i == 24 {
        Some(Button::MousePrimary)
    } else if i == 25 {
        Some(Button::MouseSecondary)
    } else if i == 26 {
        Some(Button::MouseWheel)
    } else if i == 27 {
        Some(Button::WheelUp)
    } else if i == 28 {
        Some(Button::WheelDown)
    } else if i == 29 {
        Some(Button::Mode1)
    } else if i == 30 {
        Some(Button::Mode2)
    } else if i == 31 {
        Some(Button::Mode3)
    } else if i == 32 {
        Some(Button::Function)
    } else if i == 33 {
        Some(Button::StartStop)
    } else if i == 34 {
        Some(Button::Reset)
    } else if i == 35 {
        Some(Button::PageUp)
    } else if i == 36 {
        Some(Button::PageDown)
    } else if i == 37 {
        Some(Button::Up)
    } else if i == 38 {
        Some(Button::Down)
    } else if i == 39 {
        Some(Button::Select)
    } else {
        None
    }
}

/// The name of a button.
pub open spec fn button_name(b: Button) -> Seq<char> {
    match b {
        Button::Trigger => "Trigger"@,
        Button::Fire => "Fire"@,
        Button::A => "A"@,
        Button::B => "B"@,
        Button::C => "C"@,
        Button::Pinkie => "Pinkie"@,
        Button::D => "D"@,
        Button::E => "E"@,
        Button::T1 => "T1"@,
        Button::T2 => "T2"@,
        Button::T3 => "T3"@,
        Button::T4 => "T4"@,
        Button::T5 => "T5"@,
        Button::T6 => "T6"@,
        Button::TriggerStage2 => "Trigger Stage 2"@,
        Button::PovUp => "POV Up"@,
        Button::PovRight => "POV Right"@,
        Button::PovDown => "POV Down"@,
        Button::PovLeft => "POV Left"@,
        Button::Pov2Up => "POV2 Up"@,
        Button::Pov2Right => "POV2 Right"@,
        Button::Pov2Down => "POV2 Down"@,
        Button::Pov2Left => "POV2 Left"@,
        Button::Clutch => "Clutch"@,
        Button::MousePrimary => "Mouse Primary"@,
        Button::MouseSecondary => "Mouse Secondary"@,
        Button::MouseWheel => "Mouse Wheel"@,
        Button::WheelUp => "Wheel Up"@,
        Button::WheelDown => "Wheel Down"@,
        Button::Mode1 => "Mode 1"@,
        Button::Mode2 => "Mode 2"@,
        Button::Mode3 => "Mode 3"@,
        Button::Function => "Function"@,
        Button::StartStop => "Start/Stop"@,
        Button::Reset => "Reset"@,
        Button::PageUp => "Page Up"@,
        Button::PageDown => "Page Down"@,
        Button::Up => "Up"@,
        Button::Down => "Down"@,
        Button::Select => "Select"@,
    }
}

impl Button {
    /// Total number of buttons
    pub const COUNT: usize = 40;

    /// Get button name
    pub fn name(&self) -> (r: &'static str)
        ensures
            r@ == button_name(*self),
    {
        match self {
            Self::Trigger => "Trigger",
            Self::Fire => "Fire",
            Self::A => "A",
            Self::B => "B",
            Self::C => "C",
            Self::Pinkie => "Pinkie",
            Self::D => "D",
            Self::E => "E",
            Self::T1 => "T1",
            Self::T2 => "T2",
            Self::T3 => "T3",
            Self::T4 => "T4",
            Self::T5 => "T5",
            Self::T6 => "T6",
            Self::TriggerStage2 => "Trigger Stage 2",
            Self::PovUp => "POV Up",
            Self::PovRight => "POV Right",
            Self::PovDown => "POV Down",
            Self::PovLeft => "POV Left",
            Self::Pov2Up => "POV2 Up",
            Self::Pov2Right => "POV2 Right",
            Self::Pov2Down => "POV2 Down",
            Self::Pov2Left => "POV2 Left",
            Self::Clutch => "Clutch",
            Self::MousePrimary => "Mouse Primary",
            Self::MouseSecondary => "Mouse Secondary",
            Self::MouseWheel => "Mouse Wheel",
            Self::WheelUp => "Wheel Up",
            Self::WheelDown => "Wheel Down",
            Self::Mode1 => "Mode 1",
            Self::Mode2 => "Mode 2",
            Self::Mode3 => "Mode 3",
            Self::Function => "Function",
            Self::StartStop => "Start/Stop",
            Self::Reset => "Reset",
            Self::PageUp => "Page Up",
            Self::PageDown => "Page Down",
            Self::Up => "Up",
            Self::Down => "Down",
            Self::Select => "Select",
        }
    }

    /// Get button from index (0-39)
    pub fn from_index(idx: usize) -> (r: Option<Self>)
        ensures
            r == button_at(idx as int),
    {
        match idx {
            0 => Some(Self::Trigger),
            1 => Some(Self::Fire),
            2 => Some(Self::A),
            3 => Some(Self::B),
            4 => Some(Self::C),
            5 => Some(Self::Pinkie),
            6 => Some(Self::D),
            7 => Some(Self::E),
            8 => Some(Self::T1),
            9 => Some(Self::T2),
            10 => Some(Self::T3),
            11 => Some(Self::T4),
            12 => Some(Self::T5),
            13 => Some(Self::T6),
            14 => Some(Self::TriggerStage2),
            15 => Some(Self::PovUp),
            16 => Some(Self::PovRight),
            17 => Some(Self::PovDown),
            18 => Some(Self::PovLeft),
            19 => Some(Self::Pov2Up),
            20 => Some(Self::Pov2Right),
            21 => Some(Self::Pov2Down),
            22 => Some(Self::Pov2Left),
            23 => Some(Self::Clutch),
            24 => Some(Self::MousePrimary),
            25 => Some(Self::MouseSecondary),
            26 => Some(Self::MouseWheel),
            27 => Some(Self::WheelUp),
            28 => Some(Self::WheelDown),
            29 => Some(Self::Mode1),
            30 => Some(Self::Mode2),
            31 => Some(Self::Mode3),
            32 => Some(Self::Function),
            33 => Some(Self::StartStop),
            34 => Some(Self::Reset),
            35 => Some(Self::PageUp),
            36 => Some(Self::PageDown),
            37 => Some(Self::Up),
            38 => Some(Self::Down),
            39 => Some(Self::Select),
            _ => None,
        }
    }

    /// Get button index
    pub fn index(&self) -> (r: usize)
        ensures
            r == button_index(*self),
            r < Self::COUNT,
    {
        match self {
            Self::Trigger => 0,
            Self::Fire => 1,
            Self::A => 2,
            Self::B => 3,
            Self::C => 4,
            Self::Pinkie => 5,
            Self::D => 6,
            Self::E => 7,
            Self::T1 => 8,
            Self::T2 => 9,
            Self::T3 => 10,
            Self::T4 => 11,
            Self::T5 => 12,
            Self::T6 => 13,
            Self::TriggerStage2 => 14,
            Self::PovUp => 15,
            Self::PovRight => 16,
            Self::PovDown => 17,
            Self::PovLeft => 18,
            Self::Pov2Up => 19,
            Self::Pov2Right => 20,
            Self::Pov2Down => 21,
            Self::Pov2Left => 22,
            Self::Clutch => 23,
            Self::MousePrimary => 24,
            Self::MouseSecondary => 25,
            Self::MouseWheel => 26,
            Self::WheelUp => 27,
            Self::WheelDown => 28,
            Self::Mode1 => 29,
            Self::Mode2 => 30,
            Self::Mode3 => 31,
            Self::Function => 32,
            Self::StartStop => 33,
            Self::Reset => 34,
            Self::PageUp => 35,
            Self::PageDown => 36,
            Self::Up => 37,
            Self::Down => 38,
            Self::Select => 39,
        }
    }
}

/// Index and button are two names for the same thing: a button is found again
/// from its index, and every index below [`Button::COUNT`] names exactly one button.
pub proof fn lemma_button_index_roundtrip(b: Button, i: int)
    ensures
        button_at(button_index(b)) == Some(b),
        0 <= button_index(b) < Button::COUNT,
        button_at(i) is Some <==> 0 <= i < Button::COUNT,
        button_at(i) matches Some(c) ==> button_index(c) == i,
{
}

/// A few characters of a name, enough to tell the button names apart: its
/// length, its first and last character, and its fourth character (a space
/// for shorter names).
pub open spec fn name_key(s: Seq<char>) -> (int, char, char, char) {
    (s.len() as int, s[0], s[s.len() - 1], if s.len() > 3 {
        s[3]
    } else {
        ' '
    })
}

/// The key of each button's name.
pub open spec fn button_name_key(b: Button) -> (int, char, char, char) {
    match b {
        Button::Trigger => (7, 'T', 'r', 'g'),
        Button::Fire => (4, 'F', 'e', 'e'),
        Button::A => (1, 'A', 'A', ' '),
        Button::B => (1, 'B', 'B', ' '),
        Button::C => (1, 'C', 'C', ' '),
        Button::Pinkie => (6, 'P', 'e', 'k'),
        Button::D => (1, 'D', 'D', ' '),
        Button::E => (1, 'E', 'E', ' '),
        Button::T1 => (2, 'T', '1', ' '),
        Button::T2 => (2, 'T', '2', ' '),
        Button::T3 => (2, 'T', '3', ' '),
        Button::T4 => (2, 'T', '4', ' '),
        Button::T5 => (2, 'T', '5', ' '),
        Button::T6 => (2, 'T', '6', ' '),
        Button::TriggerStage2 => (15, 'T', '2', 'g'),
        Button::PovUp => (6, 'P', 'p', ' '),
        Button::PovRight => (9, 'P', 't', ' '),
        Button::PovDown => (8, 'P', 'n', ' '),
        Button::PovLeft => (8, 'P', 't', ' '),
        Button::Pov2Up => (7, 'P', 'p', '2'),
        Button::Pov2Right => (10, 'P', 't', '2'),
        Button::Pov2Down => (9, 'P', 'n', '2'),
        Button::Pov2Left => (9, 'P', 't', '2'),
        Button::Clutch => (6, 'C', 'h', 't'),
        Button::MousePrimary => (13, 'M', 'y', 's'),
        Button::MouseSecondary => (15, 'M', 'y', 's'),
        Button::MouseWheel => (11, 'M', 'l', 's'),
        Button::WheelUp => (8, 'W', 'p', 'e'),
        Button::WheelDown => (10, 'W', 'n', 'e'),
        Button::Mode1 => (6, 'M', '1', 'e'),
        Button::Mode2 => (6, 'M', '2', 'e'),
        Button::Mode3 => (6, 'M', '3', 'e'),
        Button::Function => (8, 'F', 'n', 'c'),
        Button::StartStop => (10, 'S', 'p', 'r'),
        Button::Reset => (5, 'R', 't', 'e'),
        Button::PageUp => (7, 'P', 'p', 'e'),
        Button::PageDown => (9, 'P', 'n', 'e'),
        Button::Up => (2, 'U', 'p', ' '),
        Button::Down => (4, 'D', 'n', 'n'),
        Button::Select => (6, 'S', 't', 'e'),
    }
}

/// The key of a button's name, read off the name itself.
proof fn lemma_button_name_key(b: Button)
    ensures
        name_key(button_name(b)) == button_name_key(b),
{
    match b {
        Button::Trigger => {
            reveal_strlit("Trigger");
        },
        Button::Fire => {
            reveal_strlit("Fire");
        },
        Button::A => {
            reveal_strlit("A");
        },
        Button::B => {
            reveal_strlit("B");
        },
        Button::C => {
            reveal_strlit("C");
        },
        Button::Pinkie => {
            reveal_strlit("Pinkie");
        },
        Button::D => {
            reveal_strlit("D");
        },
        Button::E => {
            reveal_strlit("E");
        },
        Button::T1 => {
            reveal_strlit("T1");
        },
        Button::T2 => {
            reveal_strlit("T2");
        },
        Button::T3 => {
            reveal_strlit("T3");
        },
        Button::T4 => {
            reveal_strlit("T4");
        },
        Button::T5 => {
            reveal_strlit("T5");
        },
        Button::T6 => {
            reveal_strlit("T6");
        },
        Button::TriggerStage2 => {
            reveal_strlit("Trigger Stage 2");
        },
        Button::PovUp => {
            reveal_strlit("POV Up");
        },
        Button::PovRight => {
            reveal_strlit("POV Right");
        },
        Button::PovDown => {
            reveal_strlit("POV Down");
        },
        Button::PovLeft => {
            reveal_strlit("POV Left");
        },
        Button::Pov2Up => {
            reveal_strlit("POV2 Up");
        },
        Button::Pov2Right => {
            reveal_strlit("POV2 Right");
        },
        Button::Pov2Down => {
            reveal_strlit("POV2 Down");
        },
        Button::Pov2Left => {
            reveal_strlit("POV2 Left");
        },
        Button::Clutch => {
            reveal_strlit("Clutch");
        },
        Button::MousePrimary => {
            reveal_strlit("Mouse Primary");
        },
        Button::MouseSecondary => {
            reveal_strlit("Mouse Secondary");
        },
        Button::MouseWheel => {
            reveal_strlit("Mouse Wheel");
        },
        Button::WheelUp => {
            reveal_strlit("Wheel Up");
        },
        Button::WheelDown => {
            reveal_strlit("Wheel Down");
        },
        Button::Mode1 => {
            reveal_strlit("Mode 1");
        },
        Button::Mode2 => {
            reveal_strlit("Mode 2");
        },
        Button::Mode3 => {
            reveal_strlit("Mode 3");
        },
        Button::Function => {
            reveal_strlit("Function");
        },
        Button::StartStop => {
            reveal_strlit("Start/Stop");
        },
        Button::Reset => {
            reveal_strlit("Reset");
        },
        Button::PageUp => {
            reveal_strlit("Page Up");
        },
        Button::PageDown => {
            reveal_strlit("Page Down");
        },
        Button::Up => {
            reveal_strlit("Up");
        },
        Button::Down => {
            reveal_strlit("Down");
        },
        Button::Select => {
            reveal_strlit("Select");
        },
    }
}

/// Distinct buttons have distinct names.
pub proof fn lemma_button_names_distinct(b1: Button, b2: Button)
    ensures
        b1 != b2 ==> button_name(b1) != button_name(b2),
{
    lemma_button_name_key(b1);
    lemma_button_name_key(b2);
}

/// POV hat position (raw value 0-8)
#[derive(Debug, Default, Clone, Copy, PartialEq, Eq, Structural, Hash)]
pub enum HatPosition {
    /// Centered (neutral)
    #[default]
    Center,
    /// North (up)
    North,
    /// North-east
    NorthEast,
    /// East (right)
    East,
    /// South-east
    SouthEast,
    /// South (down)
    South,
    /// South-west
    SouthWest,
    /// West (left)
    West,
    /// North-west
    NorthWest,
}

/// The raw value of a hat position.
pub open spec fn hat_raw(h: HatPosition) -> u8 {
    match h {
        HatPosition::Center => 0,
        HatPosition::North => 1,
        HatPosition::NorthEast => 2,
        HatPosition::East => 3,
        HatPosition::SouthEast => 4,
        HatPosition::South => 5,
        HatPosition::SouthWest => 6,
        HatPosition::West => 7,
        HatPosition::NorthWest => 8,
    }
}

/// The hat position that a raw value stands for; values above 8 read as centered.
pub open spec fn hat_from_raw(v: u8) -> HatPosition {
    if v == 1 {
        HatPosition::North
    } else if v == 2 {
        HatPosition::NorthEast
    } else if v == 3 {
        HatPosition::East
    } else if v == 4 {
        HatPosition::SouthEast
    } else if v == 5 {
        HatPosition::South
    } else if v == 6 {
        HatPosition::SouthWest
    } else if v == 7 {
        HatPosition::West
    } else if v == 8 {
        HatPosition::NorthWest
    } else {
        HatPosition::Center
    }
}

/// The (x, y) axis values of a hat position: x grows to the east, y to the south.
pub open spec fn hat_axes(h: HatPosition) -> (i32, i32) {
    match h {
        HatPosition::Center => (0i32, 0i32),
        HatPosition::North => (0i32, -1i32),
        HatPosition::NorthEast => (1i32, -1i32),
        HatPosition::East => (1i32, 0i32),
        HatPosition::SouthEast => (1i32, 1i32),
        HatPosition::South => (0i32, 1i32),
        HatPosition::SouthWest => (-1i32, 1i32),
        HatPosition::West => (-1i32, 0i32),
        HatPosition::NorthWest => (-1i32, -1i32),
    }
}

/// The short text of a hat position.
pub open spec fn hat_text(h: HatPosition) -> Seq<char> {
    match h {
        HatPosition::Center => "Center"@,
        HatPosition::North => "N"@,
        HatPosition::NorthEast => "NE"@,
        HatPosition::East => "E"@,
        HatPosition::SouthEast => "SE"@,
        HatPosition::South => "S"@,
        HatPosition::SouthWest => "SW"@,
        HatPosition::West => "W"@,
        HatPosition::NorthWest => "NW"@,
    }
}

impl HatPosition {
    /// Get hat position from raw value
    pub fn from_raw(value: u8) -> (r: Self)
        ensures
            r == hat_from_raw(value),
    {
        match value {
            1 => Self::North,
            2 => Self::NorthEast,
            3 => Self::East,
            4 => Self::SouthEast,
            5 => Self::South,
            6 => Self::SouthWest,
            7 => Self::West,
            8 => Self::NorthWest,
            _ => Self::Center,
        }
    }

    /// Convert to axis values (x, y)
    /// Returns (-1, 0, 1) for each axis
    pub fn to_axis_values(&self) -> (r: (i32, i32))
        ensures
            r == hat_axes(*self),
    {
        match self {
            Self::Center => (0, 0),
            Self::North => (0, -1),
            Self::NorthEast => (1, -1),
            Self::East => (1, 0),
            Self::SouthEast => (1, 1),
            Self::South => (0, 1),
            Self::SouthWest => (-1, 1),
            Self::West => (-1, 0),
            Self::NorthWest => (-1, -1),
        }
    }

    /// Get raw value
    pub fn raw(&self) -> (r: u8)
        ensures
            r == hat_raw(*self),
    {
        match self {
            Self::Center => 0,
            Self::North => 1,
            Self::NorthEast => 2,
            Self::East => 3,
            Self::SouthEast => 4,
            Self::South => 5,
            Self::SouthWest => 6,
            Self::West => 7,
            Self::NorthWest => 8,
        }
    }

    /// Short text of the position ("N", "NE", ..., "Center"), as shown to a user
    pub fn display_name(&self) -> (r: &'static str)
        ensures
            r@ == hat_text(*self),
    {
        match self {
            Self::Center => "Center",
            Self::North => "N",
            Self::NorthEast => "NE",
            Self::East => "E",
            Self::SouthEast => "SE",
            Self::South => "S",
            Self::SouthWest => "SW",
            Self::West => "W",
            Self::NorthWest => "NW",
        }
    }
}

/// Raw values and hat positions correspond one to one on 0..=8: a position is
/// found again from its raw value, and every raw value above 8 reads as centered.
pub proof fn lemma_hat_raw_roundtrip(h: HatPosition, v: u8)
    ensures
        hat_from_raw(hat_raw(h)) == h,
        hat_raw(h) <= 8,
        v <= 8 ==> hat_raw(hat_from_raw(v)) == v,
        v > 8 ==> hat_from_raw(v) == HatPosition::Center,
{
}

/// Each hat axis value is -1, 0 or 1, and both are 0 exactly when the hat is centered.
pub proof fn lemma_hat_axes_unit(h: HatPosition)
    ensures
        -1 <= hat_axes(h).0 <= 1,
        -1 <= hat_axes(h).1 <= 1,
        (hat_axes(h).0 == 0 && hat_axes(h).1 == 0) <==> h == HatPosition::Center,
{
}

/// The hat axes point the way the position names say: y is -1 exactly for
/// the northern positions and +1 exactly for the southern ones, x is +1
/// exactly for the eastern positions and -1 exactly for the western ones;
/// so no two positions share their axis values, and opposite positions have
/// opposite values.
pub proof fn lemma_hat_axes_directions(h: HatPosition, g: HatPosition)
    ensures
        hat_axes(h).1 == -1 <==> (h == HatPosition::North || h == HatPosition::NorthEast || h
            == HatPosition::NorthWest),
        hat_axes(h).1 == 1 <==> (h == HatPosition::South || h == HatPosition::SouthEast || h
            == HatPosition::SouthWest),
        hat_axes(h).0 == 1 <==> (h == HatPosition::East || h == HatPosition::NorthEast || h
            == HatPosition::SouthEast),
        hat_axes(h).0 == -1 <==> (h == HatPosition::West || h == HatPosition::NorthWest || h
            == HatPosition::SouthWest),
        h != g ==> hat_axes(h) != hat_axes(g),
        (hat_raw(h) >= 1 && hat_raw(g) >= 1 && (hat_raw(h) + 4 == hat_raw(g) || hat_raw(g) + 4
            == hat_raw(h))) ==> (hat_axes(h).0 == -hat_axes(g).0 && hat_axes(h).1 == -hat_axes(
            g,
        ).1),
{
}

/// Raw hat values run clockwise from North: 0 is centered, 1 North, 2
/// North-east, 3 East, 4 South-east, 5 South, 6 South-west, 7 West and 8
/// North-west; the cardinal directions have odd values.
pub proof fn lemma_hat_raw_clockwise(v: u8)
    ensures
        v == 0 ==> hat_from_raw(v) == HatPosition::Center,
        v == 1 ==> hat_from_raw(v) == HatPosition::North,
        v == 2 ==> hat_from_raw(v) == HatPosition::NorthEast,
        v == 3 ==> hat_from_raw(v) == HatPosition::East,
        v == 4 ==> hat_from_raw(v) == HatPosition::SouthEast,
        v == 5 ==> hat_from_raw(v) == HatPosition::South,
        v == 6 ==> hat_from_raw(v) == HatPosition::SouthWest,
        v == 7 ==> hat_from_raw(v) == HatPosition::West,
        v == 8 ==> hat_from_raw(v) == HatPosition::NorthWest,
        1 <= v <= 8 ==> ((v % 2 == 1) <==> (hat_axes(hat_from_raw(v)).0 == 0 || hat_axes(
            hat_from_raw(v),
        ).1 == 0)),
{
}

} // verus!
