//! Conversions and comparisons between `Utf16Char` and the `ascii` crate's
//! `AsciiChar`.
//!
//! `AsciiChar` is opaque here: its code is named `ascii_char_code`, and the
//! two calls into the `ascii` crate are stated over that name.
use vstd::prelude::*;
use core::cmp::Ordering;
use ascii::{AsciiChar, ToAsciiCharError};
use vstd::std_specs::cmp::{PartialEqSpecImpl, PartialOrdSpec, PartialOrdSpecImpl};
use crate::utf16::{valid_units, decode_units};
use vstd::std_specs::convert::FromSpecImpl;
use crate::utf16_char::Utf16Char;

verus! {

#[verifier::external_type_specification]
#[verifier::external_body]
pub struct ExAsciiChar(AsciiChar);

#[verifier::external_type_specification]
#[verifier::external_body]
pub struct ExToAsciiCharError(ToAsciiCharError);

/// The code of an ASCII character, as `AsciiChar::as_byte` gives it (widened
/// to a unit).
pub uninterp spec fn ascii_char_code(ascii: AsciiChar) -> u16;

/// `AsciiChar::as_byte` gives the character's code (its `u8` discriminant),
/// which is ASCII: at most 0x7f (an `AsciiChar` wraps a `u8` whose highest
/// bit is zero).
#[verifier::external_body]
fn ascii_char_unit(ac: &AsciiChar) -> (u: u16)
    ensures
        u == ascii_char_code(*ac),
        u <= 0x7f,
{
    ac.as_byte() as u16
}

/// `AsciiChar::from_ascii` on a `u16` succeeds exactly when the unit is at
/// most 0x7f (its `ToAsciiChar` impl for `u16` checks `0..=0x7f`), and then
/// gives the `AsciiChar` whose code is that unit (the unit, as a `u8`, becomes
/// the discriminant).
#[verifier::external_body]
fn ascii_char_from_unit(unit: u16) -> (r: Result<AsciiChar, ToAsciiCharError>)
    ensures
        r is Ok <==> unit <= 0x7f,
        r matches Ok(got) ==> ascii_char_code(got) == unit,
{
    AsciiChar::from_ascii(unit)
}

impl Utf16Char {
    /// The `Utf16Char` of an ASCII character: one unit, at most 0x7f.
    pub fn from_ascii_char(ac: AsciiChar) -> (r: Utf16Char)
        ensures
            r@ == (ascii_char_code(ac), 0u16),
            r@.0 <= 0x7f,
    {
        Utf16Char::from_bmp_unchecked(ascii_char_unit(&ac))
    }

    /// The `AsciiChar` of this character, or an error where it is not ASCII.
    pub fn to_ascii_char(self) -> (r: Result<AsciiChar, ToAsciiCharError>)
        ensures
            r is Ok <==> self@.0 <= 0x7f,
            r matches Ok(got) ==> ascii_char_code(got) == self@.0,
    {
        let (first, _) = self.to_tuple();
        ascii_char_from_unit(first)
    }

    /// The `AsciiChar` of a character that must be ASCII.
    pub fn to_ascii_char_unchecked(self) -> (got: AsciiChar)
        requires
            self@.0 <= 0x7f,
        ensures
            ascii_char_code(got) == self@.0,
    {
        let (first, _) = self.to_tuple();
        ascii_char_from_unit(first).unwrap()
    }

    /// `Utf16Char`s that are not ASCII never compare equal to an `AsciiChar`.
    pub fn eq_ascii_char(&self, ascii: &AsciiChar) -> (r: bool)
        ensures
            r == (self@ == (ascii_char_code(*ascii), 0u16)),
            r ==> self@.0 <= 0x7f && self@.1 == 0,
    {
        proof { use_type_invariant(self); }
        let (first, _) = self.to_tuple();
        first == ascii_char_unit(ascii)
    }

    /// `Utf16Char`s that are not ASCII always compare greater than an
    /// `AsciiChar`.
    pub fn partial_cmp_ascii_char(&self, ascii: &AsciiChar) -> (o: Option<Ordering>)
        ensures
            o == Some(unit_order(self@.0, ascii_char_code(*ascii))),
            self@.0 > 0x7f ==> o == Some(Ordering::Greater),
    {
        let (first, _) = self.to_tuple();
        let unit = ascii_char_unit(ascii);
        if first < unit {
            Some(Ordering::Less)
        } else if first == unit {
            Some(Ordering::Equal)
        } else {
            Some(Ordering::Greater)
        }
    }
}

/// The ordering of two units.
pub open spec fn unit_order(a: u16, b: u16) -> Ordering {
    if a < b {
        Ordering::Less
    } else if a == b {
        Ordering::Equal
    } else {
        Ordering::Greater
    }
}

/// `Utf16Char`s that are not ASCII never compare equal.
impl PartialEq<AsciiChar> for Utf16Char {
    fn eq(&self, ascii: &AsciiChar) -> (r: bool) {
        self.eq_ascii_char(ascii)
    }
}

impl PartialEqSpecImpl<AsciiChar> for Utf16Char {
    open spec fn obeys_eq_spec() -> bool {
        true
    }

    open spec fn eq_spec(&self, ascii: &AsciiChar) -> bool {
        self@ == (ascii_char_code(*ascii), 0u16)
    }
}

/// `Utf16Char`s that are not ASCII never compare equal.
impl PartialEq<Utf16Char> for AsciiChar {
    fn eq(&self, u16c: &Utf16Char) -> (r: bool) {
        proof { use_type_invariant(u16c); }
        let (first, _) = u16c.to_tuple();
        ascii_char_unit(self) == first
    }
}

impl PartialEqSpecImpl<Utf16Char> for AsciiChar {
    open spec fn obeys_eq_spec() -> bool {
        true
    }

    open spec fn eq_spec(&self, u16c: &Utf16Char) -> bool {
        u16c@ == (ascii_char_code(*self), 0u16)
    }
}

/// `Utf16Char`s that are not ASCII always compare greater.
impl PartialOrd<AsciiChar> for Utf16Char {
    fn partial_cmp(&self, ascii: &AsciiChar) -> (o: Option<Ordering>) {
        self.partial_cmp_ascii_char(ascii)
    }
}

impl PartialOrdSpecImpl<AsciiChar> for Utf16Char {
    open spec fn obeys_partial_cmp_spec() -> bool {
        true
    }

    open spec fn partial_cmp_spec(&self, ascii: &AsciiChar) -> Option<Ordering> {
        Some(unit_order(self@.0, ascii_char_code(*ascii)))
    }
}

/// `Utf16Char`s that are not ASCII always compare greater.
impl PartialOrd<Utf16Char> for AsciiChar {
    fn partial_cmp(&self, u16c: &Utf16Char) -> (o: Option<Ordering>) {
        let unit = ascii_char_unit(self);
        let (first, _) = u16c.to_tuple();
        if unit < first {
            Some(Ordering::Less)
        } else if unit == first {
            Some(Ordering::Equal)
        } else {
            Some(Ordering::Greater)
        }
    }
}

impl PartialOrdSpecImpl<Utf16Char> for AsciiChar {
    open spec fn obeys_partial_cmp_spec() -> bool {
        true
    }

    open spec fn partial_cmp_spec(&self, u16c: &Utf16Char) -> Option<Ordering> {
        Some(unit_order(ascii_char_code(*self), u16c@.0))
    }
}

impl From<AsciiChar> for Utf16Char {
    fn from(ascii: AsciiChar) -> (r: Utf16Char)
        ensures
            r@ == (ascii_char_code(ascii), 0u16),
    {
        let r = Utf16Char::from_ascii_char(ascii);
        proof { Utf16Char::lemma_view_determines(r); }
        r
    }
}

impl FromSpecImpl<AsciiChar> for Utf16Char {
    open spec fn obeys_from_spec() -> bool {
        true
    }

    open spec fn from_spec(ascii: AsciiChar) -> Utf16Char {
        Utf16Char::with_units((ascii_char_code(ascii), 0u16))
    }
}

/// `unit_order` is the order of the two units, and ordering a `Utf16Char`
/// against an `AsciiChar` (either way round) orders the first unit against
/// the ASCII code; a character that is not ASCII is always greater.
pub proof fn law_ascii_char_order(x: Utf16Char, ascii: AsciiChar, a: u16, b: u16)
    requires
        valid_units(x@),
    ensures
        (unit_order(a, b) == Ordering::Less) == (a < b),
        (unit_order(a, b) == Ordering::Equal) == (a == b),
        (unit_order(a, b) == Ordering::Greater) == (a > b),
        PartialOrdSpec::partial_cmp_spec(&x, &ascii) == Some(unit_order(x@.0, ascii_char_code(ascii))),
        PartialOrdSpec::partial_cmp_spec(&ascii, &x) == Some(unit_order(ascii_char_code(ascii), x@.0)),
        ascii_char_code(ascii) <= 0x7f && decode_units(x@) > 0x7f ==> PartialOrdSpec::partial_cmp_spec(&x, &ascii)
            == Some(Ordering::Greater),
{
}

} // verus!
