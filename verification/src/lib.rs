//! UTF-16 encoded Unicode scalar values, verified with Verus.
//!
//! `Utf16Char` stores one codepoint as one or two UTF-16 units. It converts
//! to and from `char`, UTF-8 (`&str` and `Utf8Char`), unit slices and unit
//! tuples, and compares and orders as `char` does.
use vstd::prelude::*;

pub mod errors;
pub mod utf16;
pub mod utf16_char;
pub mod from_utf8;
pub mod utf8_char;
pub mod ordering;
pub mod collect;
pub mod ascii_char;
pub mod laws;

pub use utf16_char::Utf16Char;
pub use utf8_char::Utf8Char;

verus! {

} // verus!
