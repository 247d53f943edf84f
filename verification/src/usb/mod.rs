//! USB output: the vendor control requests that drive the MFD, the LEDs,
//! the clocks and the brightness of an X52/X52 Pro.

pub mod clock;
pub mod device;
pub mod error;
pub mod led;
pub mod mfd;
pub mod misc;
pub mod protocol;

pub use clock::{set_date_day_month, set_date_year, ClockFormat, ClockOffsetId, DateFormat};
pub use device::{BatchUpdate, X52Device};
pub use error::Error;
pub use led::{set_brightness as set_led_brightness, set_color as set_led_color, Led, LedColor};
pub use mfd::{clear_line, set_brightness as set_mfd_brightness, write_chars, MfdLine};
pub use protocol::{Command, CommandIndex};
