//! What holds of `Utf16Char` across its operations, stated over the views and
//! spec functions that the operations' contracts use.
use vstd::prelude::*;
use crate::utf16::{
    valid_units, decode_units, encode_utf16, utf16_of, units_len, units_seq, units_tuple,
    tuple_error, tuple_units, slice_start, is_scalar_value, lemma_encode_valid,
    lemma_decode_valid,
};
use vstd::std_specs::cmp::PartialEqSpec;
use crate::errors::{InvalidUtf16Slice, InvalidUtf16Tuple};
use crate::utf8_char::Utf8Char;
use crate::ascii_char::ascii_char_code;
use ascii::AsciiChar;
use crate::utf16_char::{Utf16Char, order_key, lemma_order_key, ascii_upper, ascii_lower, ascii_lower_codepoint};

verus! {

/// Converting a `char` to a `Utf16Char` and back gives the same `char`, and
/// the units in between are a valid `Utf16Char`.
pub proof fn law_char_roundtrip(c: char)
    ensures
        valid_units(utf16_of(c)),
        decode_units(utf16_of(c)) == c as u32,
        decode_units(utf16_of(c)) as char == c,
{
    vstd::utf8::char_is_scalar(c);
    lemma_encode_valid(c as u32);
    vstd::utf8::char_u32_cast(c, c as u32);
}

/// Every `Utf16Char` holds the UTF-16 encoding of the `char` it converts to.
pub proof fn law_units_roundtrip(u: (u16, u16))
    requires
        valid_units(u),
    ensures
        is_scalar_value(decode_units(u)),
        encode_utf16(decode_units(u)) == u,
{
    lemma_decode_valid(u);
}

/// Two `Utf16Char`s are equal exactly when their codepoints are, as with
/// `char`: a one-unit value always has a zero second unit.
pub proof fn law_eq_is_codepoint_eq(a: (u16, u16), b: (u16, u16))
    requires
        valid_units(a),
        valid_units(b),
    ensures
        (a == b) == (decode_units(a) == decode_units(b)),
{
    lemma_order_key(a, b);
}

/// The key that `cmp` compares orders `Utf16Char`s exactly as their
/// codepoints are ordered.
pub proof fn law_order_is_codepoint_order(a: (u16, u16), b: (u16, u16))
    requires
        valid_units(a),
        valid_units(b),
    ensures
        (order_key(a) < order_key(b)) == (decode_units(a) < decode_units(b)),
        (order_key(a) == order_key(b)) == (decode_units(a) == decode_units(b)),
{
    lemma_order_key(a, b);
}

/// Two-unit characters always compare greater than one-unit ones.
pub proof fn law_pairs_above_single_units(a: (u16, u16), b: (u16, u16))
    requires
        valid_units(a),
        valid_units(b),
        units_len(a) == 1,
        units_len(b) == 2,
    ensures
        decode_units(a) < decode_units(b),
        order_key(a) < order_key(b),
{
}

/// The number of units is 1 or 2, that of `char::len_utf16`, and the length
/// of the units in use.
pub proof fn law_len(c: char)
    ensures
        units_len(utf16_of(c)) == (if (c as u32) < 0x10000 { 1nat } else { 2nat }),
        units_seq(utf16_of(c)).len() == units_len(utf16_of(c)),
{
    vstd::utf8::char_is_scalar(c);
    lemma_encode_valid(c as u32);
}

/// `to_tuple` gives what `from_tuple` accepts, and `from_tuple` gives back
/// the same units.
pub proof fn law_tuple_roundtrip(u: (u16, u16))
    requires
        valid_units(u),
    ensures
        tuple_error(units_tuple(u)) is None,
        tuple_units(units_tuple(u)) == u,
{
}

/// What `to_slice` writes at the start of a slice, `from_slice_start` reads
/// back, whatever follows it.
pub proof fn law_slice_roundtrip(u: (u16, u16), rest: Seq<u16>)
    requires
        valid_units(u),
    ensures
        slice_start(units_seq(u) + rest) == Ok::<nat, crate::errors::InvalidUtf16Slice>(
            units_len(u),
        ),
        (units_seq(u) + rest)[0] == u.0,
        units_len(u) == 2 ==> (units_seq(u) + rest)[1] == u.1,
{
}

/// A `Utf16Char` equals a byte exactly when its codepoint is that byte.
pub proof fn law_eq_byte_is_codepoint(u: (u16, u16), b: u8)
    requires
        valid_units(u),
    ensures
        (u.0 == b as u16) == (decode_units(u) == b as u32),
{
}

/// Case conversions change only ASCII letters, give valid values, and
/// converting twice is converting once.
pub proof fn law_ascii_case(u: (u16, u16))
    requires
        valid_units(u),
    ensures
        valid_units(ascii_upper(u)),
        valid_units(ascii_lower(u)),
        ascii_upper(ascii_upper(u)) == ascii_upper(u),
        ascii_lower(ascii_lower(u)) == ascii_lower(u),
        ascii_upper(ascii_lower(u)) == ascii_upper(u),
        ascii_lower(ascii_upper(u)) == ascii_lower(u),
        u.0 > 0x7f ==> ascii_upper(u) == u && ascii_lower(u) == u,
{
}

/// Two characters match without regard to ASCII case exactly when their
/// codepoints, with ASCII upper case letters lowered, are equal.
pub proof fn law_eq_ignore_ascii_case(a: (u16, u16), b: (u16, u16))
    requires
        valid_units(a),
        valid_units(b),
    ensures
        decode_units(ascii_lower(a)) == ascii_lower_codepoint(decode_units(a)),
        (ascii_lower(a) == ascii_lower(b)) == (ascii_lower_codepoint(decode_units(a))
            == ascii_lower_codepoint(decode_units(b))),
{
    lemma_order_key(ascii_lower(a), ascii_lower(b));
}

/// Every `Utf16Char` takes one or two units, so a buffer of two units is
/// always large enough for `to_slice`.
pub proof fn law_units_len(u: (u16, u16))
    requires
        valid_units(u),
    ensures
        1 <= units_len(u) <= 2,
        units_seq(u).len() == units_len(u),
{
}

/// A `Utf16Char` equals a unit exactly when its codepoint takes that one
/// unit: never when it is a surrogate pair.
pub proof fn law_eq_unit_is_codepoint(u: (u16, u16), unit: u16)
    requires
        valid_units(u),
    ensures
        (u == (unit, 0u16)) == (units_len(u) == 1 && decode_units(u) == unit as u32),
{
}

} // verus!

verus! {

/// The UTF-16 encoding of a `char`: its value as one unit below 0x10000;
/// above, a leading and a trailing surrogate that carry the value less
/// 0x10000, ten bits each.
pub proof fn law_utf16_encoding(c: char)
    ensures
        (c as u32) < 0x10000 ==> utf16_of(c) == ((c as u32) as u16, 0u16),
        (c as u32) >= 0x10000 ==> {
            &&& 0xd800 <= utf16_of(c).0 <= 0xdbff
            &&& 0xdc00 <= utf16_of(c).1 <= 0xdfff
            &&& c as u32 == 0x10000 + (utf16_of(c).0 - 0xd800) * 0x400 + (utf16_of(c).1
                - 0xdc00)
        },
{
    vstd::utf8::char_is_scalar(c);
}

/// Valid units are one non-surrogate unit (second unit zero), or a leading
/// surrogate followed by a trailing one; they decode to the value UTF-16
/// gives them.
pub proof fn law_valid_units_decode(u: (u16, u16))
    ensures
        valid_units(u) == (((u.0 < 0xd800 || u.0 > 0xdfff) && u.1 == 0) || (0xd800 <= u.0
            <= 0xdbff && 0xdc00 <= u.1 <= 0xdfff)),
        valid_units(u) && u.1 == 0 ==> decode_units(u) == u.0,
        valid_units(u) && u.1 != 0 ==> decode_units(u) == 0x10000 + (u.0 - 0xd800) * 0x400
            + (u.1 - 0xdc00),
        valid_units(u) ==> units_len(u) == (if decode_units(u) < 0x10000 { 1nat } else { 2nat }),
{
}

/// Upper-casing changes exactly the codepoints of `'a'..='z'`, to those of
/// `'A'..='Z'`, as `char::to_ascii_uppercase` does; lower-casing the reverse.
pub proof fn law_ascii_case_codepoints(u: (u16, u16))
    requires
        valid_units(u),
    ensures
        valid_units(ascii_upper(u)),
        valid_units(ascii_lower(u)),
        decode_units(ascii_upper(u)) == (if 0x61 <= decode_units(u) <= 0x7a {
            decode_units(u) - 0x20
        } else {
            decode_units(u) as int
        }),
        decode_units(ascii_lower(u)) == (if 0x41 <= decode_units(u) <= 0x5a {
            decode_units(u) + 0x20
        } else {
            decode_units(u) as int
        }),
        ascii_lower_codepoint(decode_units(u)) == decode_units(ascii_lower(u)),
{
}

/// `to_tuple` keeps the first unit, and gives a second unit exactly when the
/// codepoint is above 0xffff, and then the trailing surrogate.
pub proof fn law_units_tuple(u: (u16, u16))
    requires
        valid_units(u),
    ensures
        units_tuple(u).0 == u.0,
        units_tuple(u).1 is None <==> decode_units(u) < 0x10000,
        decode_units(u) >= 0x10000 ==> units_tuple(u).1 == Some(u.1),
{
}

/// A tuple is accepted exactly when it is one unit that is no surrogate, or
/// a leading surrogate with a trailing one; what is accepted is the tuple
/// form of the units built from it, and every rejection has its reason.
pub proof fn law_tuple_error(t: (u16, Option<u16>))
    ensures
        tuple_error(t) is None <==> ((t.1 is None && (t.0 < 0xd800 || t.0 > 0xdfff)) || (t.1 is Some && 0xd800 <= t.0 <= 0xdbff && 0xdc00 <= t.1->Some_0 <= 0xdfff)),
        tuple_error(t) is None ==> valid_units(tuple_units(t)) && units_tuple(tuple_units(t)) == t,
        0xdc00 <= t.0 <= 0xdfff ==> tuple_error(t) == Some(InvalidUtf16Tuple::FirstIsTrailingSurrogate),
        (t.0 < 0xd800 || t.0 > 0xdfff) && t.1 is Some ==> tuple_error(t) == Some(
            InvalidUtf16Tuple::SuperfluousSecond,
        ),
        0xd800 <= t.0 <= 0xdbff && t.1 is None ==> tuple_error(t) == Some(
            InvalidUtf16Tuple::MissingSecond,
        ),
        (0xd800 <= t.0 <= 0xdbff && t.1 is Some && !(0xdc00 <= t.1->Some_0 <= 0xdfff)) ==> tuple_error(t) == Some(InvalidUtf16Tuple::InvalidSecond),
{
}

/// A slice is read as one unit exactly when it starts with a unit that is no
/// surrogate, as two when it starts with a leading and a trailing surrogate,
/// and is refused with its reason otherwise.
pub proof fn law_slice_start(s: Seq<u16>)
    ensures
        s.len() == 0 ==> slice_start(s) == Err::<nat, InvalidUtf16Slice>(InvalidUtf16Slice::EmptySlice),
        s.len() > 0 && (s[0] < 0xd800 || s[0] > 0xdfff) ==> slice_start(s) == Ok::<nat, InvalidUtf16Slice>(1),
        s.len() > 0 && 0xdc00 <= s[0] <= 0xdfff ==> slice_start(s) == Err::<nat, InvalidUtf16Slice>(InvalidUtf16Slice::FirstLowSurrogate),
        s.len() == 1 && 0xd800 <= s[0] <= 0xdbff ==> slice_start(s) == Err::<nat, InvalidUtf16Slice>(InvalidUtf16Slice::MissingSecond),
        s.len() > 1 && 0xd800 <= s[0] <= 0xdbff && 0xdc00 <= s[1] <= 0xdfff ==> slice_start(s) == Ok::<nat, InvalidUtf16Slice>(2),
        s.len() > 1 && 0xd800 <= s[0] <= 0xdbff && !(0xdc00 <= s[1] <= 0xdfff) ==> slice_start(s) == Err::<nat, InvalidUtf16Slice>(InvalidUtf16Slice::SecondNotLowSurrogate),
        slice_start(s) matches Ok(n) ==> n <= s.len() && valid_units((s[0], if n == 2 { s[1] } else { 0u16 })),
{
}

/// Comparing a `Utf16Char` with a `char`, in either order, compares their
/// codepoints.
pub proof fn law_eq_char_is_codepoint_eq(x: Utf16Char, c: char)
    requires
        valid_units(x@),
    ensures
        x.eq_spec(&c) == (decode_units(x@) == c as u32),
        c.eq_spec(&x) == (decode_units(x@) == c as u32),
{
    law_char_roundtrip(c);
    lemma_order_key(x@, utf16_of(c));
}

/// Two `Utf16Char`s are equal exactly when their codepoints are.
pub proof fn law_eq_self_is_codepoint_eq(x: Utf16Char, y: Utf16Char)
    requires
        valid_units(x@),
        valid_units(y@),
    ensures
        x.eq_spec(&y) == (decode_units(x@) == decode_units(y@)),
{
    lemma_order_key(x@, y@);
}

/// A `Utf16Char` equals a unit exactly when its codepoint is that unit, and
/// a byte exactly when its codepoint is that byte.
pub proof fn law_eq_unit_and_byte(x: Utf16Char, unit: u16, b: u8)
    requires
        valid_units(x@),
    ensures
        x.eq_spec(&unit) == (decode_units(x@) == unit as u32),
        x.eq_spec(&b) == (decode_units(x@) == b as u32),
{
}

/// A `Utf16Char` equals a `Utf8Char` exactly when they hold the same `char`.
pub proof fn law_eq_utf8_char(x: Utf16Char, y: Utf8Char)
    requires
        valid_units(x@),
    ensures
        x.eq_spec(&y) == (decode_units(x@) == y@ as u32),
{
    law_char_roundtrip(y@);
    lemma_order_key(x@, utf16_of(y@));
}

/// A `Utf16Char` and an `AsciiChar` are equal, in either order, exactly when
/// the codepoint is the ASCII code.
pub proof fn law_eq_ascii_char(x: Utf16Char, ascii: AsciiChar)
    requires
        valid_units(x@),
    ensures
        x.eq_spec(&ascii) == (decode_units(x@) == ascii_char_code(ascii) as u32),
        ascii.eq_spec(&x) == (decode_units(x@) == ascii_char_code(ascii) as u32),
{
}

} // verus!
