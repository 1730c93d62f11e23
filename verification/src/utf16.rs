//! The UTF-16 encoding of a single Unicode scalar value, and the unit-level
//! helpers that `Utf16Char` is built on.
use vstd::prelude::*;
use crate::errors::{InvalidUtf16Slice, InvalidUtf16Tuple};

verus! {

/// A unit in the range of leading (high) surrogates, `0xd800..=0xdbff`.
pub open spec fn is_lead_surrogate(u: u16) -> bool {
    0xd800 <= u <= 0xdbff
}

/// A unit in the range of trailing (low) surrogates, `0xdc00..=0xdfff`.
pub open spec fn is_trail_surrogate(u: u16) -> bool {
    0xdc00 <= u <= 0xdfff
}

/// A unit that is part of a surrogate pair, `0xd800..=0xdfff`.
pub open spec fn is_surrogate(u: u16) -> bool {
    0xd800 <= u <= 0xdfff
}

/// The UTF-16 encoding of a scalar value, as a pair of units where the second
/// is zero when one unit suffices.
pub open spec fn encode_utf16(cp: u32) -> (u16, u16) {
    if cp < 0x10000 {
        (cp as u16, 0u16)
    } else {
        (
            (0xd800 + (cp - 0x10000) / 0x400) as u16,
            (0xdc00 + (cp - 0x10000) % 0x400) as u16,
        )
    }
}

/// The units of `c` in UTF-16.
pub open spec fn utf16_of(c: char) -> (u16, u16) {
    encode_utf16(c as u32)
}

/// Whether a pair of units (second one zero when unused) is the UTF-16
/// encoding of exactly one scalar value.
pub open spec fn valid_units(u: (u16, u16)) -> bool {
    ||| !is_surrogate(u.0) && u.1 == 0
    ||| is_lead_surrogate(u.0) && is_trail_surrogate(u.1)
}

/// The scalar value that a valid pair of units encodes.
pub open spec fn decode_units(u: (u16, u16)) -> u32 {
    if u.1 == 0 {
        u.0 as u32
    } else {
        (0x10000 + (u.0 - 0xd800) * 0x400 + (u.1 - 0xdc00)) as u32
    }
}

/// The number of units a valid pair actually uses.
pub open spec fn units_len(u: (u16, u16)) -> nat {
    if u.1 == 0 { 1 } else { 2 }
}

/// The units in use, as a sequence of one or two units.
pub open spec fn units_seq(u: (u16, u16)) -> Seq<u16> {
    if u.1 == 0 { seq![u.0] } else { seq![u.0, u.1] }
}

/// A scalar value: what a `char` holds.
pub open spec fn is_scalar_value(cp: u32) -> bool {
    cp <= 0x10ffff && !(0xd800 <= cp <= 0xdfff)
}

/// Encoding a scalar value gives valid units that decode back to it.
pub proof fn lemma_encode_valid(cp: u32)
    requires
        is_scalar_value(cp),
    ensures
        valid_units(encode_utf16(cp)),
        decode_units(encode_utf16(cp)) == cp,
{
}

/// Decoding valid units gives a scalar value that encodes back to them.
pub proof fn lemma_decode_valid(u: (u16, u16))
    requires
        valid_units(u),
    ensures
        is_scalar_value(decode_units(u)),
        encode_utf16(decode_units(u)) == u,
{
}

} // verus!

verus! {

/// Splits a `char` into its UTF-16 units; the second is `None` when one unit
/// suffices.
pub fn to_utf16_tuple(c: char) -> (t: (u16, Option<u16>))
    ensures
        t.0 == utf16_of(c).0,
        t.1 == (if utf16_of(c).1 == 0 { None } else { Some(utf16_of(c).1) }),
{
    let cp = c as u32;
    proof { vstd::utf8::char_is_scalar(c); }
    if cp <= 0xffff {
        (cp as u16, None)
    } else {
        let rest = cp - 0x10000;
        assert(rest >> 10 == rest / 0x400) by (bit_vector);
        assert(rest & 0x3ff == rest % 0x400) by (bit_vector);
        let high = 0xd800 + (rest >> 10);
        let low = 0xdc00 + (rest & 0x3ff);
        (high as u16, Some(low as u16))
    }
}

} // verus!

verus! {

/// `char::from_u32` gives the `char` with the given value, or `None` where the
/// value is a surrogate or above `0x10ffff`, as its documentation states.
pub assume_specification[ char::from_u32 ](i: u32) -> (r: Option<char>)
    ensures
        r is Some <==> is_scalar_value(i),
        r matches Some(c) ==> c as u32 == i,
;

/// Whether the unit is a leading surrogate, so that a second unit follows.
pub fn is_utf16_leading_surrogate(u: u16) -> (b: bool)
    ensures
        b == is_lead_surrogate(u),
{
    assert((u & 0xfc00 == 0xd800) == (0xd800 <= u <= 0xdbff)) by (bit_vector);
    u & 0xfc00 == 0xd800
}

/// The `char` that valid units encode.
pub fn char_from_units(first: u16, second: u16) -> (c: char)
    requires
        valid_units((first, second)),
    ensures
        c as u32 == decode_units((first, second)),
{
    let cp: u32 = if second == 0 {
        first as u32
    } else {
        let high = (first & 0x3ff) as u32;
        let low = (second & 0x3ff) as u32;
        assert(high == first - 0xd800 && low == second - 0xdc00) by (bit_vector)
            requires
                0xd800 <= first <= 0xdbff,
                0xdc00 <= second <= 0xdfff,
                high == (first & 0x3ff) as u32,
                low == (second & 0x3ff) as u32,
        ;
        assert((high << 10) | low == high * 0x400 + low) by (bit_vector)
            requires
                high < 0x400,
                low < 0x400,
        ;
        ((high << 10) | low) + 0x10000
    };
    match char::from_u32(cp) {
        Some(c) => c,
        None => {
            assert(false);
            '\0'
        },
    }
}

} // verus!

verus! {

/// Why a `(first, optional second)` pair of units is not one codepoint, or
/// `None` where it is one.
pub open spec fn tuple_error(t: (u16, Option<u16>)) -> Option<InvalidUtf16Tuple> {
    if is_trail_surrogate(t.0) {
        Some(InvalidUtf16Tuple::FirstIsTrailingSurrogate)
    } else if is_lead_surrogate(t.0) {
        match t.1 {
            None => Some(InvalidUtf16Tuple::MissingSecond),
            Some(s) => if is_trail_surrogate(s) {
                None
            } else {
                Some(InvalidUtf16Tuple::InvalidSecond)
            },
        }
    } else {
        match t.1 {
            None => None,
            Some(_) => Some(InvalidUtf16Tuple::SuperfluousSecond),
        }
    }
}

/// The pair of units (second zero when unused) that a tuple stands for.
pub open spec fn tuple_units(t: (u16, Option<u16>)) -> (u16, u16) {
    match t.1 {
        None => (t.0, 0u16),
        Some(s) => (t.0, s),
    }
}

/// The tuple form of a pair of units: no second unit where it is zero.
pub open spec fn units_tuple(u: (u16, u16)) -> (u16, Option<u16>) {
    (u.0, if u.1 == 0 { None } else { Some(u.1) })
}

/// How many units the codepoint at the start of a slice takes, or why the
/// slice does not start with one.
pub open spec fn slice_start(s: Seq<u16>) -> Result<nat, InvalidUtf16Slice> {
    if s.len() == 0 {
        Err(InvalidUtf16Slice::EmptySlice)
    } else if !is_surrogate(s[0]) {
        Ok(1)
    } else if is_trail_surrogate(s[0]) {
        Err(InvalidUtf16Slice::FirstLowSurrogate)
    } else if s.len() < 2 {
        Err(InvalidUtf16Slice::MissingSecond)
    } else if is_trail_surrogate(s[1]) {
        Ok(2)
    } else {
        Err(InvalidUtf16Slice::SecondNotLowSurrogate)
    }
}

/// The `char` made of units given as returned by `to_utf16_tuple()`, which
/// must be valid.
pub fn from_utf16_tuple_unchecked(t: (u16, Option<u16>)) -> (c: char)
    requires
        tuple_error(t) is None,
    ensures
        c as u32 == decode_units(tuple_units(t)),
{
    match t.1 {
        Some(second) => char_from_units(t.0, second),
        None => char_from_units(t.0, 0),
    }
}

/// Validates units given as returned by `to_utf16_tuple()`, and gives the
/// `char` they encode.
pub fn from_utf16_tuple(t: (u16, Option<u16>)) -> (r: Result<char, InvalidUtf16Tuple>)
    ensures
        match tuple_error(t) {
            Some(e) => r == Err::<char, InvalidUtf16Tuple>(e),
            None => r matches Ok(c) && c as u32 == decode_units(tuple_units(t)),
        },
{
    let first = t.0;
    if 0xdc00 <= first && first <= 0xdfff {
        Err(InvalidUtf16Tuple::FirstIsTrailingSurrogate)
    } else if 0xd800 <= first && first <= 0xdbff {
        match t.1 {
            None => Err(InvalidUtf16Tuple::MissingSecond),
            Some(second) => if 0xdc00 <= second && second <= 0xdfff {
                Ok(char_from_units(first, second))
            } else {
                Err(InvalidUtf16Tuple::InvalidSecond)
            },
        }
    } else {
        match t.1 {
            None => Ok(char_from_units(first, 0)),
            Some(_) => Err(InvalidUtf16Tuple::SuperfluousSecond),
        }
    }
}

/// Validates the codepoint at the start of a slice, and gives it with the
/// number of units it takes.
pub fn from_utf16_slice_start(src: &[u16]) -> (r: Result<(char, usize), InvalidUtf16Slice>)
    ensures
        match slice_start(src@) {
            Ok(n) => r matches Ok((c, m)) && m == n && c as u32 == decode_units(
                if n == 1 { (src@[0], 0u16) } else { (src@[0], src@[1]) },
            ),
            Err(e) => r == Err::<(char, usize), InvalidUtf16Slice>(e),
        },
{
    if src.len() == 0 {
        return Err(InvalidUtf16Slice::EmptySlice);
    }
    let first = src[0];
    if first < 0xd800 || first > 0xdfff {
        Ok((char_from_units(first, 0), 1))
    } else if first >= 0xdc00 {
        Err(InvalidUtf16Slice::FirstLowSurrogate)
    } else if src.len() < 2 {
        Err(InvalidUtf16Slice::MissingSecond)
    } else {
        let second = src[1];
        if 0xdc00 <= second && second <= 0xdfff {
            Ok((char_from_units(first, second), 2))
        } else {
            Err(InvalidUtf16Slice::SecondNotLowSurrogate)
        }
    }
}

} // verus!
