//! Errors of the input side

use vstd::prelude::*;

verus! {

/// Error type for X52 operations
#[derive(Debug)]
pub enum Error {
    /// Device not found
    DeviceNotFound,
    /// Invalid parameter
    InvalidParameter(String),
    /// Feature not supported by this device variant
    NotSupported(String),
    /// Value out of range
    OutOfRange(String),
    /// Timeout
    Timeout,
    /// Device disconnected
    Disconnected,
    /// USB error
    Usb(String),
    /// Other error
    Other(String),
}

/// The character of a decimal digit.
pub open spec fn digit_char(d: nat) -> char {
    (d + 48) as char
}

/// The decimal digits of a number, most significant first, with no sign or padding.
pub open spec fn decimal(n: nat) -> Seq<char>
    decreases n,
{
    if n < 10 {
        seq![digit_char(n)]
    } else {
        decimal(n / 10).push(digit_char(n % 10))
    }
}

/// `usize`'s `to_string`. The standard library's `Display` for integers
/// writes the decimal digits, most significant first, with no sign, padding
/// or separators; the contract states exactly that.
#[verifier::external_body]
pub(crate) fn usize_text(n: usize) -> (r: String)
    ensures
        r@ == decimal(n as nat),
{
    n.to_string()
}

} // verus!
