use vstd::prelude::*;

verus! {

/// Why decoding failed.
#[derive(Debug, Clone, Copy, PartialEq, Eq, Structural)]
pub enum Error {
    /// The input ended before the value did.
    Eof,
    /// A byte that holds a boolean was neither 0 nor 1.
    BadBoolean(u8),
    /// A number that holds a character is no Unicode scalar value.
    BadChar(u32),
    /// The tag of an optional value was neither 0 nor 1.
    BadOption(u32),
    /// A string had no room for its terminator, or was not UTF-8.
    BadString,
    /// The representation identifier of a payload is not supported.
    UnknownRepresentation(u16),
}

/// The result of decoding.
pub type Result<T> = core::result::Result<T, Error>;

} // verus!
