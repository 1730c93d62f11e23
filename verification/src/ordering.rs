//! Ordering `Utf16Char`s as their codepoints are ordered.
//!
//! Ordering the units as they are stored would put surrogate pairs below
//! the one-unit values `0xe000..=0xffff`; `char` orders by value, and so
//! must `Utf16Char`.
use vstd::prelude::*;
use core::cmp::Ordering;
use vstd::std_specs::cmp::{PartialOrdSpec, PartialOrdSpecImpl};
use crate::utf16::valid_units;
use crate::utf16::{decode_units, utf16_of};
use crate::utf16_char::{Utf16Char, lemma_order_key};
use crate::utf8_char::Utf8Char;

verus! {

/// The ordering of two codepoints.
pub open spec fn codepoint_order(a: u32, b: u32) -> Ordering {
    if a < b {
        Ordering::Less
    } else if a == b {
        Ordering::Equal
    } else {
        Ordering::Greater
    }
}

impl Utf16Char {
    /// Compares the codepoints of two `Utf16Char`s, as `char` does.
    pub fn cmp(&self, rhs: &Self) -> (o: Ordering)
        ensures
            o == codepoint_order(decode_units(self@), decode_units(rhs@)),
    {
        proof {
            use_type_invariant(self);
            use_type_invariant(rhs);
            lemma_order_key(self@, rhs@);
        }
        let lhs = self.key();
        let rhs = rhs.key();
        if lhs < rhs {
            Ordering::Less
        } else if lhs == rhs {
            Ordering::Equal
        } else {
            Ordering::Greater
        }
    }
}

// Cannot be derived: two-unit characters must always compare greater than
// one-unit ones.
impl PartialOrd for Utf16Char {
    fn partial_cmp(&self, rhs: &Self) -> (o: Option<Ordering>) {
        Some(self.cmp(rhs))
    }
}

impl PartialOrdSpecImpl for Utf16Char {
    open spec fn obeys_partial_cmp_spec() -> bool {
        true
    }

    open spec fn partial_cmp_spec(&self, rhs: &Utf16Char) -> Option<Ordering> {
        Some(codepoint_order(decode_units(self@), decode_units(rhs@)))
    }
}

impl PartialOrd<char> for Utf16Char {
    fn partial_cmp(&self, u32c: &char) -> (o: Option<Ordering>) {
        self.partial_cmp(&Utf16Char::from(*u32c))
    }
}

impl PartialOrdSpecImpl<char> for Utf16Char {
    open spec fn obeys_partial_cmp_spec() -> bool {
        true
    }

    open spec fn partial_cmp_spec(&self, u32c: &char) -> Option<Ordering> {
        Some(codepoint_order(decode_units(self@), decode_units(utf16_of(*u32c))))
    }
}

impl PartialOrd<Utf16Char> for char {
    fn partial_cmp(&self, u16c: &Utf16Char) -> (o: Option<Ordering>) {
        Utf16Char::from(*self).partial_cmp(u16c)
    }
}

impl PartialOrdSpecImpl<Utf16Char> for char {
    open spec fn obeys_partial_cmp_spec() -> bool {
        true
    }

    open spec fn partial_cmp_spec(&self, u16c: &Utf16Char) -> Option<Ordering> {
        Some(codepoint_order(decode_units(utf16_of(*self)), decode_units(u16c@)))
    }
}

impl PartialOrd<Utf8Char> for Utf16Char {
    fn partial_cmp(&self, u8c: &Utf8Char) -> (o: Option<Ordering>) {
        self.partial_cmp(&Utf16Char::from(*u8c))
    }
}

impl PartialOrdSpecImpl<Utf8Char> for Utf16Char {
    open spec fn obeys_partial_cmp_spec() -> bool {
        true
    }

    open spec fn partial_cmp_spec(&self, u8c: &Utf8Char) -> Option<Ordering> {
        Some(codepoint_order(decode_units(self@), decode_units(utf16_of(u8c@))))
    }
}

/// `codepoint_order` is the order of the two values: less, equal or greater.
pub proof fn law_codepoint_order(a: u32, b: u32)
    ensures
        (codepoint_order(a, b) == Ordering::Less) == (a < b),
        (codepoint_order(a, b) == Ordering::Equal) == (a == b),
        (codepoint_order(a, b) == Ordering::Greater) == (a > b),
{
}

/// Ordering a `Utf16Char` against another, a `char` or a `Utf8Char` (either
/// way round for `char`) orders their codepoints.
pub proof fn law_partial_cmp_is_codepoint_order(x: Utf16Char, y: Utf16Char, c: char, u8c: Utf8Char)
    requires
        valid_units(x@),
        valid_units(y@),
    ensures
        PartialOrdSpec::partial_cmp_spec(&x, &y) is Some,
        (PartialOrdSpec::partial_cmp_spec(&x, &y) == Some(Ordering::Less)) == (decode_units(x@) < decode_units(y@)),
        (PartialOrdSpec::partial_cmp_spec(&x, &y) == Some(Ordering::Equal)) == (decode_units(x@) == decode_units(y@)),
        (PartialOrdSpec::partial_cmp_spec(&x, &c) == Some(Ordering::Less)) == (decode_units(x@) < decode_units(utf16_of(c))),
        (PartialOrdSpec::partial_cmp_spec(&x, &c) == Some(Ordering::Equal)) == (decode_units(x@) == decode_units(utf16_of(c))),
        (PartialOrdSpec::partial_cmp_spec(&c, &x) == Some(Ordering::Less)) == (decode_units(utf16_of(c)) < decode_units(x@)),
        (PartialOrdSpec::partial_cmp_spec(&c, &x) == Some(Ordering::Equal)) == (decode_units(utf16_of(c)) == decode_units(x@)),
        (PartialOrdSpec::partial_cmp_spec(&x, &u8c) == Some(Ordering::Less)) == (decode_units(x@) < decode_units(utf16_of(u8c@))),
        (PartialOrdSpec::partial_cmp_spec(&x, &u8c) == Some(Ordering::Equal)) == (decode_units(x@) == decode_units(utf16_of(u8c@))),
{
}

} // verus!
