//! HID input: axes, buttons, hat position and mode, decoded from the
//! input reports of the X52 (14 bytes) and the X52 Pro (15 bytes).

pub mod device;
pub mod error;
pub mod input;
pub mod parser;
pub mod report;

pub use device::match_device;
pub use error::Error;
pub use input::{Axis, AxisRange, Button, HatPosition};
pub use parser::{expected_report_len, parse_report, parse_x52, parse_x52_pro};
pub use report::{AxisRanges, AxisReport, ButtonState, InputReport};
