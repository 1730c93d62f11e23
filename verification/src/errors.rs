//! The errors that creating a `Utf16Char` can return.
use vstd::prelude::*;

verus! {

/// Cannot create an `Utf16Char` from the start of an empty string.
#[derive(Clone, Copy, Debug, PartialEq, Eq)]
pub struct EmptyStrError;

/// The unit is a surrogate and cannot stand on its own.
#[derive(Clone, Copy, Debug, PartialEq, Eq)]
pub struct NonBMPError;

/// Reasons why a string cannot be read as exactly one codepoint.
#[derive(Clone, Copy, Debug, PartialEq, Eq)]
pub enum FromStrError {
    /// The string holds more than one codepoint.
    MultipleCodepoints,
    /// The string is empty.
    Empty,
}

/// Reasons why a pair of units is not one UTF-16 codepoint.
#[derive(Clone, Copy, Debug, PartialEq, Eq)]
pub enum InvalidUtf16Tuple {
    /// The first unit is a trailing (low) surrogate, which is never valid.
    FirstIsTrailingSurrogate,
    /// A second unit was given, but the first one stands on its own.
    SuperfluousSecond,
    /// The first unit requires a second one, and none was given.
    MissingSecond,
    /// The first unit requires a second one, but it is not a trailing surrogate.
    InvalidSecond,
}

/// Reasons why a slice does not start with a UTF-16 codepoint.
#[derive(Clone, Copy, Debug, PartialEq, Eq)]
pub enum InvalidUtf16Slice {
    /// The first unit is a trailing (low) surrogate.
    FirstLowSurrogate,
    /// The first and only unit requires a second unit.
    MissingSecond,
    /// The first unit requires a second one, but it is not a trailing surrogate.
    SecondNotLowSurrogate,
    /// The slice is empty.
    EmptySlice,
}

} // verus!
