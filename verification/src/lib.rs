//! Control and input handling for the Saitek/MadCatz X52 and X52 Pro
//! flight control system (HOTAS).
//!
//! * [`device`] identifies the device variant from its USB product id.
//! * [`hid`] decodes HID input reports into axes, buttons, hat and mode.
//! * [`usb`] encodes the vendor control requests that drive the MFD,
//!   LEDs, clocks and brightness.

pub mod device;
pub mod hid;
pub mod usb;

pub use device::DeviceVariant;
