//! Errors of the key types and of integer parsing.
use vstd::prelude::*;

verus! {

/// Why an integer could not be read from a string.
#[derive(Clone, Copy, Debug, PartialEq, Eq, Structural)]
pub enum IntParseError {
    /// There was nothing to read.
    Empty,
    /// A character is not a digit of the radix, or a sign stands alone.
    InvalidDigit,
    /// The number does not fit in 64 bits.
    PosOverflow,
    /// Any other reason the parser gives.
    Other,
}

/// Errors of the key and subkey types.
#[derive(Debug)]
pub enum DesError {
    /// Key value exceeds the maximum allowed value for the bit width.
    KeyOutOfRange { value: u64, max: u64, width: u8 },
    /// Failed to parse a hex or binary string representation.
    ParseError(IntParseError),
    /// Failed to parse from a string with invalid format.
    InvalidFormat(String),
    /// Bitfield operation with invalid range (high < low).
    InvalidBitfieldRange { low: u8, high: u8 },
    /// Attempted to set a bit beyond the valid bit width.
    InvalidBitIndex { bit: u8, width: u8 },
    /// Any other failure, described in words.
    Unknown(String),
}

impl DesError {
    /// An `Unknown` error carrying `input` as its description.
    pub fn unknown(input: &str) -> (r: DesError)
        ensures
            r matches DesError::Unknown(m) && m@ == input@,
    {
        DesError::Unknown(input.to_owned())
    }
}

} // verus!
