//! HID input report structures

use vstd::prelude::*;

use crate::device::DeviceVariant;
use crate::hid::input::{
    axis_index, button_index, lemma_axis_index_roundtrip, lemma_button_index_roundtrip, Axis,
    AxisRange, Button, HatPosition,
};

verus! {

/// Axis values for all 11 axes
#[derive(Debug, Clone, PartialEq, Eq)]
pub struct AxisReport {
    values: [i32; 11],
}

impl View for AxisReport {
    type V = Seq<i32>;

    /// The axis values, in the order of [`Axis::index`].
    closed spec fn view(&self) -> Seq<i32> {
        self.values@
    }
}

impl Default for AxisReport {
    fn default() -> (r: Self)
        ensures
            r@ == Seq::new(11, |_i: int| 0i32),
    {
        Self::new()
    }
}

/// An axis report holds one value for each of the 11 axes.
pub broadcast proof fn lemma_axis_report_len(r: AxisReport)
    ensures
        #[trigger] r@.len() == Axis::COUNT,
{
}

impl AxisReport {
    /// Create new axis report with all zeros
    pub fn new() -> (r: Self)
        ensures
            r@ == Seq::new(11, |_i: int| 0i32),
    {
        Self { values: [0; 11] }
    }

    /// Get axis value by enum
    pub fn get(&self, axis: Axis) -> (r: i32)
        ensures
            r == self@[axis_index(axis)],
    {
        proof { lemma_axis_report_len(*self); }
        self.values[axis.index()]
    }

    /// Set axis value by enum
    pub fn set(&mut self, axis: Axis, value: i32)
        ensures
            final(self)@ == old(self)@.update(axis_index(axis), value),
    {
        let i = axis.index();
        self.values[i] = value;
    }

    /// Get axis value by index (0-10)
    pub fn get_by_index(&self, idx: usize) -> (r: Option<i32>)
        ensures
            r == (if idx < 11 { Some(self@[idx as int]) } else { None }),
    {
        if idx < 11 {
            Some(self.values[idx])
        } else {
            None
        }
    }

    /// Get all axis values as a slice
    pub fn as_slice(&self) -> (r: &[i32])
        ensures
            r@ == self@,
    {
        self.values.as_slice()
    }
}

/// The number of `true` entries of a sequence.
pub open spec fn count_true(s: Seq<bool>) -> nat
    decreases s.len(),
{
    if s.len() == 0 {
        0
    } else {
        count_true(s.drop_last()) + if s.last() {
            1nat
        } else {
            0nat
        }
    }
}

/// Setting an axis changes that axis alone: reading it back gives the value
/// set, and every other axis keeps its value.
pub proof fn lemma_axis_set_then_get(before: AxisReport, after: AxisReport, a: Axis, v: i32, b: Axis)
    requires
        after@ == before@.update(axis_index(a), v),
    ensures
        after@[axis_index(a)] == v,
        b != a ==> after@[axis_index(b)] == before@[axis_index(b)],
{
    lemma_axis_index_roundtrip(a, axis_index(b));
    lemma_axis_index_roundtrip(b, axis_index(a));
}

/// Button states for all 40 buttons
#[derive(Debug, Clone, PartialEq, Eq)]
pub struct ButtonState {
    states: [bool; 40],
}

impl View for ButtonState {
    type V = Seq<bool>;

    /// Whether each button is pressed, in the order of [`Button::index`].
    closed spec fn view(&self) -> Seq<bool> {
        self.states@
    }
}

impl Default for ButtonState {
    fn default() -> (r: Self)
        ensures
            r@ == Seq::new(40, |_i: int| false),
    {
        Self::new()
    }
}

/// A button state holds one entry for each of the 40 buttons.
pub broadcast proof fn lemma_button_state_len(s: ButtonState)
    ensures
        #[trigger] s@.len() == Button::COUNT,
{
}

impl ButtonState {
    /// Create new button state with all released
    pub fn new() -> (r: Self)
        ensures
            r@ == Seq::new(40, |_i: int| false),
    {
        Self { states: [false; 40] }
    }

    /// Check if button is pressed
    pub fn is_pressed(&self, button: Button) -> (r: bool)
        ensures
            r == self@[button_index(button)],
    {
        self.states[button.index()]
    }

    /// Set button state
    pub fn set(&mut self, button: Button, pressed: bool)
        ensures
            final(self)@ == old(self)@.update(button_index(button), pressed),
    {
        let i = button.index();
        self.states[i] = pressed;
    }

    /// Get button state by index (0-39)
    pub fn get_by_index(&self, idx: usize) -> (r: Option<bool>)
        ensures
            r == (if idx < 40 { Some(self@[idx as int]) } else { None }),
    {
        if idx < 40 {
            Some(self.states[idx])
        } else {
            None
        }
    }

    /// Get all button states as a slice
    pub fn as_slice(&self) -> (r: &[bool])
        ensures
            r@ == self@,
    {
        self.states.as_slice()
    }

    /// Get number of pressed buttons
    pub fn count_pressed(&self) -> (r: usize)
        ensures
            r == count_true(self@),
            r <= Button::COUNT,
    {
        let mut n: usize = 0;
        let mut i: usize = 0;
        while i < 40
            invariant
                i <= 40,
                self@.len() == 40,
                n == count_true(self@.take(i as int)),
                n <= i,
            decreases 40 - i,
        {
            assert(self@.take(i + 1).drop_last() =~= self@.take(i as int));
            if self.states[i] {
                n = n + 1;
            }
            i = i + 1;
        }
        assert(self@.take(40) =~= self@);
        n
    }
}

/// Setting a button changes that button alone: reading it back gives the
/// state set, and every other button keeps its state.
pub proof fn lemma_button_set_then_get(
    before: ButtonState,
    after: ButtonState,
    a: Button,
    pressed: bool,
    b: Button,
)
    requires
        after@ == before@.update(button_index(a), pressed),
    ensures
        after@[button_index(a)] == pressed,
        b != a ==> after@[button_index(b)] == before@[button_index(b)],
{
    lemma_button_index_roundtrip(a, button_index(b));
    lemma_button_index_roundtrip(b, button_index(a));
}

/// Complete HID input report
#[derive(Debug, Clone, PartialEq, Eq)]
pub struct InputReport {
    /// Axis values
    pub axes: AxisReport,
    /// Button states
    pub buttons: ButtonState,
    /// Current mode (1, 2, or 3)
    pub mode: u8,
    /// POV hat position
    pub hat: HatPosition,
}

impl InputReport {
    /// Create new input report with default values
    pub fn new() -> (r: Self)
        ensures
            r.axes@ == Seq::new(11, |_i: int| 0i32),
            r.buttons@ == Seq::new(40, |_i: int| false),
            r.mode == 1,
            r.hat == HatPosition::Center,
    {
        Self {
            axes: AxisReport::new(),
            buttons: ButtonState::new(),
            mode: 1,
            hat: HatPosition::Center,
        }
    }
}

impl Default for InputReport {
    fn default() -> (r: Self)
        ensures
            r.axes@ == Seq::new(11, |_i: int| 0i32),
            r.buttons@ == Seq::new(40, |_i: int| false),
            r.mode == 1,
            r.hat == HatPosition::Center,
    {
        Self::new()
    }
}

/// The value range of an axis on a device variant.
pub open spec fn range_of(variant: DeviceVariant, axis: Axis) -> AxisRange {
    match axis {
        Axis::X | Axis::Y => match variant {
            DeviceVariant::X52Pro => AxisRange { min: 0, max: 1023 },
            DeviceVariant::X52 => AxisRange { min: 0, max: 2047 },
        },
        Axis::RZ => AxisRange { min: 0, max: 1023 },
        Axis::Z | Axis::RX | Axis::RY | Axis::Slider => AxisRange { min: 0, max: 255 },
        Axis::ThumbX | Axis::ThumbY => AxisRange { min: 0, max: 15 },
        Axis::HatX | Axis::HatY => AxisRange { min: -1i32, max: 1 },
    }
}

/// The axis ranges by bit width: X and Y have 11 bits (0 to 2047) on the
/// X52 and 10 bits (0 to 1023) on the X52 Pro, the twist has 10 bits on
/// both, throttle, rotaries and slider have 8 bits (0 to 255), the
/// thumbstick axes 4 bits (0 to 15), and the hat axes run from -1 to 1.
pub proof fn lemma_range_widths(variant: DeviceVariant, a: Axis)
    ensures
        (a == Axis::HatX || a == Axis::HatY) <==> range_of(variant, a).min == -1,
        !(a == Axis::HatX || a == Axis::HatY) ==> range_of(variant, a).min == 0,
        (a == Axis::X || a == Axis::Y) ==> range_of(variant, a).max == (if variant
            == DeviceVariant::X52 {
            2047int
        } else {
            1023int
        }),
        a == Axis::RZ ==> range_of(variant, a).max == 1023,
        (a == Axis::Z || a == Axis::RX || a == Axis::RY || a == Axis::Slider) ==> range_of(
            variant,
            a,
        ).max == 255,
        (a == Axis::ThumbX || a == Axis::ThumbY) ==> range_of(variant, a).max == 15,
        (a == Axis::HatX || a == Axis::HatY) ==> range_of(variant, a).max == 1,
{
}

/// Axis ranges for different device variants
pub struct AxisRanges {
    ranges: [AxisRange; 11],
}

impl View for AxisRanges {
    type V = Seq<AxisRange>;

    /// The range of each axis, in the order of [`Axis::index`].
    closed spec fn view(&self) -> Seq<AxisRange> {
        self.ranges@
    }
}

impl AxisRanges {
    /// Get axis ranges for device variant
    pub fn for_variant(variant: DeviceVariant) -> (r: Self)
        ensures
            r@.len() == Axis::COUNT,
            forall|a: Axis| #[trigger] r@[axis_index(a)] == range_of(variant, a),
    {
        match variant {
            DeviceVariant::X52Pro => Self::x52_pro(),
            DeviceVariant::X52 => Self::x52(),
        }
    }

    /// X52 Pro axis ranges (10-bit X/Y/RZ)
    fn x52_pro() -> (r: Self)
        ensures
            r@.len() == Axis::COUNT,
            forall|a: Axis| #[trigger] r@[axis_index(a)] == range_of(DeviceVariant::X52Pro, a),
    {
        Self {
            ranges: [
                AxisRange::new(0, 1023),  // X (10-bit)
                AxisRange::new(0, 1023),  // Y (10-bit)
                AxisRange::new(0, 1023),  // RZ (10-bit)
                AxisRange::new(0, 255),  // Z (8-bit)
                AxisRange::new(0, 255),  // RX (8-bit)
                AxisRange::new(0, 255),  // RY (8-bit)
                AxisRange::new(0, 255),  // Slider (8-bit)
                AxisRange::new(0, 15),  // ThumbX (4-bit)
                AxisRange::new(0, 15),  // ThumbY (4-bit)
                AxisRange::new(-1, 1),  // HatX (derived)
                AxisRange::new(-1, 1),  // HatY (derived)
            ],
        }
    }

    /// X52 axis ranges (11-bit X/Y, 10-bit RZ)
    fn x52() -> (r: Self)
        ensures
            r@.len() == Axis::COUNT,
            forall|a: Axis| #[trigger] r@[axis_index(a)] == range_of(DeviceVariant::X52, a),
    {
        Self {
            ranges: [
                AxisRange::new(0, 2047),  // X (11-bit)
                AxisRange::new(0, 2047),  // Y (11-bit)
                AxisRange::new(0, 1023),  // RZ (10-bit)
                AxisRange::new(0, 255),  // Z (8-bit)
                AxisRange::new(0, 255),  // RX (8-bit)
                AxisRange::new(0, 255),  // RY (8-bit)
                AxisRange::new(0, 255),  // Slider (8-bit)
                AxisRange::new(0, 15),  // ThumbX (4-bit)
                AxisRange::new(0, 15),  // ThumbY (4-bit)
                AxisRange::new(-1, 1),  // HatX (derived)
                AxisRange::new(-1, 1),  // HatY (derived)
            ],
        }
    }

    /// Get range for specific axis
    pub fn get(&self, axis: Axis) -> (r: AxisRange)
        ensures
            r == self@[axis_index(axis)],
    {
        self.ranges[axis.index()]
    }
}

} // verus!
