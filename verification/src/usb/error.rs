//! Errors of the output side

use vstd::prelude::*;

verus! {

/// Error type for X52 operations
#[derive(Debug)]
pub enum Error {
    /// Device not found
    DeviceNotFound,
    /// Invalid parameter
    InvalidParameter(String),
    /// Not supported
    NotSupported(String),
    /// Value out of range
    OutOfRange(String),
    /// Other error
    Other(String),
}

} // verus!
