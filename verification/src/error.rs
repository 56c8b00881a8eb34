//! Errors of the protocol logic: value validation and codec failures.
//!
//! Transport and device-exception errors are outside this crate; callers
//! that drive a transport wrap this type in their own error enum.

use vstd::prelude::*;

verus! {

/// An error raised while validating a domain value or decoding register words.
#[derive(Debug, Clone, Copy, PartialEq, Eq, Structural)]
pub enum Error {
    /// The RS-485 address is outside the range 1 to 247.
    AddressOutOfRange(u8),
    /// The password is outside the range 0 to 9999.
    PasswordOutOfRange(u16),
    /// The auto scroll time is outside the range 0 to 60.
    AutoScrollTimeOutOfRange(u8),
    /// The backlight time is outside the range 0 to 121.
    BacklitTimeOutOfRange(u8),
    /// The baud rate is none of 1200, 2400, 4800, 9600, 19200.
    InvalidBaudRate,
    /// A value is outside its permissible range.
    OutOfRange,
    /// The device sent a value that no domain value corresponds to.
    InvalidValue,
    /// The number of register words does not match the parameter's quantity.
    WordsCountError,
}

} // verus!
