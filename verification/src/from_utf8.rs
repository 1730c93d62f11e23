//! Reading a `Utf16Char` from UTF-8: the start of a string, or a whole one.
use vstd::prelude::*;
use vstd::utf8::{encode_scalar, encode_utf8, char_is_scalar, encode_utf8_first_scalar};
use crate::errors::{EmptyStrError, FromStrError};
use crate::utf16::{utf16_of, lemma_encode_valid};
use crate::utf16_char::Utf16Char;
use crate::utf8_char::{Utf8Char, lemma_utf8_padded_decodes};

verus! {

/// Two bytes of UTF-8 give the one unit that holds their codepoint.
proof fn lemma_two_bytes(b0: u8, b1: u8)
    by (bit_vector)
    requires
        0xc0 <= b0 <= 0xdf,
        0x80 <= b1 <= 0xbf,
    ensures
        (((b1 & 0x3f) as u16) | (((b0 & 0x1f) as u16) << 6)) as u32
            == ((((b0 & 0x1f) as u32) << 6) | ((b1 & 0x3f) as u32)),
{
}

/// Three bytes of UTF-8 give the one unit that holds their codepoint.
proof fn lemma_three_bytes(b0: u8, b1: u8, b2: u8)
    by (bit_vector)
    requires
        0xe0 <= b0 <= 0xef,
        0x80 <= b1 <= 0xbf,
        0x80 <= b2 <= 0xbf,
    ensures
        (((b2 & 0x3f) as u16) | (((b1 & 0x3f) as u16) << 6) | (((b0 & 0x0f) as u16) << 12))
            as u32 == ((((b0 & 0x0f) as u32) << 12) | (((b1 & 0x3f) as u32) << 6) | ((b2
            & 0x3f) as u32)),
{
}

/// Four bytes of UTF-8 give the surrogate pair of their codepoint.
proof fn lemma_four_bytes(b0: u8, b1: u8, b2: u8, b3: u8, cp: u32, rest: u32)
    by (bit_vector)
    requires
        0xf0 <= b0 <= 0xf7,
        0x80 <= b1 <= 0xbf,
        0x80 <= b2 <= 0xbf,
        0x80 <= b3 <= 0xbf,
        cp == (((b0 & 0x07) as u32) << 18) | (((b1 & 0x3f) as u32) << 12) | (((b2 & 0x3f)
            as u32) << 6) | ((b3 & 0x3f) as u32),
        0x10000 <= cp <= 0x10ffff,
        rest == (cp - 0x10000u32) as u32,
    ensures
        (((b2 & 0x30) as u16) >> 4) <= 3,
        (((b1 & 0x3f) as u16) << 2) <= 0xfc,
        (((b0 & 0x07) as u16) << 8) <= 0x700,
        (0xd7c0u16 + (((b2 & 0x30) as u16) >> 4) + (((b1 & 0x3f) as u16) << 2) + (((b0
            & 0x07) as u16) << 8)) as u32 == (0xd800u32 + (rest >> 10u32)) as u32,
        (0xdc00u16 | ((b3 & 0x3f) as u16) | (((b2 & 0x0f) as u16) << 6)) as u32 == (0xdc00u32
            + (rest & 0x3ffu32)) as u32,
{
}

impl Utf16Char {
    /// Create an `Utf16Char` from the first codepoint in a string slice,
    /// converting from UTF-8 to UTF-16.
    ///
    /// The returned `usize` is the number of UTF-8 bytes used from the str,
    /// and not the number of UTF-16 units.
    ///
    /// Returns an error if the `str` is empty.
    pub fn from_str_start(s: &str) -> (r: Result<(Self, usize), EmptyStrError>)
        ensures
            s@.len() == 0 ==> r == Err::<(Self, usize), EmptyStrError>(EmptyStrError),
            s@.len() > 0 ==> (r matches Ok((u, n)) && u@ == utf16_of(s@[0]) && n
                == encode_scalar(s@[0] as u32).len()),
    {
        if s.is_empty() {
            return Err(EmptyStrError);
        }
        let b = s.as_bytes();
        let ghost c = s@[0];
        let ghost cp = c as u32;
        proof {
            encode_utf8_first_scalar(s@);
            char_is_scalar(c);
            lemma_encode_valid(cp);
        }
        let b0 = b[0];
        if b0 <= 127 {
            assert(b0 & 0x7f == b0) by (bit_vector)
                requires
                    b0 <= 127,
            ;
            let unit = b0 as u16;
            assert(utf16_of(c) == (unit, 0u16));
            assert(encode_scalar(cp).len() == 1);
            Ok((Utf16Char::new(unit, 0), 1))
        } else if b0 <= 0xdf {
            let b1 = b[1];
            proof { lemma_two_bytes(b0, b1); }
            let unit = ((b1 & 0x3f) as u16) | (((b0 & 0x1f) as u16) << 6);
            assert(utf16_of(c) == (unit, 0u16));
            assert(encode_scalar(cp).len() == 2);
            Ok((Utf16Char::new(unit, 0), 2))
        } else if b0 <= 0xef {
            let b1 = b[1];
            let b2 = b[2];
            proof { lemma_three_bytes(b0, b1, b2); }
            let unit = ((b2 & 0x3f) as u16) | (((b1 & 0x3f) as u16) << 6) | (((b0 & 0x0f)
                as u16) << 12);
            assert(utf16_of(c) == (unit, 0u16));
            assert(encode_scalar(cp).len() == 3);
            Ok((Utf16Char::new(unit, 0), 3))
        } else {
            let b1 = b[1];
            let b2 = b[2];
            let b3 = b[3];
            proof {
                let rest = (cp - 0x10000u32) as u32;
                lemma_four_bytes(b0, b1, b2, b3, cp, rest);
                assert(rest >> 10u32 == rest / 0x400) by (bit_vector);
                assert(rest & 0x3ffu32 == rest % 0x400) by (bit_vector);
            }
            assert((0x10000u32 >> 10u32) == 0x40u32) by (bit_vector);
            let second = 0xdc00u16 | ((b3 & 0x3f) as u16) | (((b2 & 0x0f) as u16) << 6);
            let first = 0xd800u16 - ((0x10000u32 >> 10) as u16) + (((b2 & 0x30) as u16) >> 4)
                + (((b1 & 0x3f) as u16) << 2) + (((b0 & 0x07) as u16) << 8);
            assert(utf16_of(c) == (first, second));
            assert(encode_scalar(cp).len() == 4);
            Ok((Utf16Char::new(first, second), 4))
        }
    }
}

/// A non-empty sequence of chars takes more UTF-8 bytes than its first char.
proof fn lemma_encode_utf8_len(chars: Seq<char>)
    requires
        chars.len() > 0,
    ensures
        encode_utf8(chars).len() >= encode_scalar(chars[0] as u32).len(),
        encode_utf8(chars).len() == encode_scalar(chars[0] as u32).len() <==> chars.len() == 1,
{
    let rest = chars.drop_first();
    assert(encode_utf8(chars) == encode_scalar(chars[0] as u32) + encode_utf8(rest));
    if rest.len() > 0 {
        char_is_scalar(rest[0]);
        assert(encode_utf8(rest) == encode_scalar(rest[0] as u32) + encode_utf8(rest.drop_first()));
    }
}

impl core::str::FromStr for Utf16Char {
    type Err = FromStrError;

    /// Create an `Utf16Char` from a string slice.
    /// The string must contain exactly one codepoint.
    fn from_str(s: &str) -> (r: Result<Self, FromStrError>)
        ensures
            s@.len() == 0 ==> r == Err::<Self, FromStrError>(FromStrError::Empty),
            s@.len() == 1 ==> (r matches Ok(u) && u@ == utf16_of(s@[0])),
            s@.len() > 1 ==> r == Err::<Self, FromStrError>(FromStrError::MultipleCodepoints),
    {
        proof {
            if s@.len() > 0 {
                lemma_encode_utf8_len(s@);
            }
        }
        let utf8_len = s.as_bytes().len();
        match Utf16Char::from_str_start(s) {
            Ok((u16c, bytes)) => {
                if bytes == utf8_len {
                    Ok(u16c)
                } else {
                    Err(FromStrError::MultipleCodepoints)
                }
            },
            Err(_) => Err(FromStrError::Empty),
        }
    }
}

/// A unit that takes two bytes of UTF-8, rebuilt from those bytes.
proof fn lemma_units_of_two(b0: u8, b1: u8)
    by (bit_vector)
    requires
        0xc0 <= b0 <= 0xdf,
        0x80 <= b1 <= 0xbf,
    ensures
        (((((b0 as u16) & 0x1f) << 6) | ((b1 as u16) & 0x3f)) as u32) == ((((b0 & 0x1f)
            as u32) << 6) | ((b1 & 0x3f) as u32)),
{
}

/// A unit that takes three bytes of UTF-8, rebuilt from those bytes.
proof fn lemma_units_of_three(b0: u8, b1: u8, b2: u8)
    by (bit_vector)
    requires
        0xe0 <= b0 <= 0xef,
        0x80 <= b1 <= 0xbf,
        0x80 <= b2 <= 0xbf,
    ensures
        ((((((b0 as u16) & 0x1f) << 6) | ((b1 as u16) & 0x3f)) << 6) | ((b2 as u16) & 0x3f))
            as u32 == ((((b0 & 0x0f) as u32) << 12) | (((b1 & 0x3f) as u32) << 6) | ((b2
            & 0x3f) as u32)),
{
}

/// A surrogate pair rebuilt from the four bytes of UTF-8 of its codepoint.
proof fn lemma_units_of_four(b0: u8, b1: u8, b2: u8, b3: u8, cp: u32, rest: u32)
    by (bit_vector)
    requires
        0xf0 <= b0 <= 0xf7,
        0x80 <= b1 <= 0xbf,
        0x80 <= b2 <= 0xbf,
        0x80 <= b3 <= 0xbf,
        cp == (((b0 & 0x07) as u32) << 18) | (((b1 & 0x3f) as u32) << 12) | (((b2 & 0x3f)
            as u32) << 6) | ((b3 & 0x3f) as u32),
        0x10000 <= cp <= 0x10ffff,
        rest == (cp - 0x10000u32) as u32,
    ensures
        (((b0 as u16) & 0x07) << 8) <= 0x700,
        (((b1 as u16) & 0x3f) << 2) <= 0xfc,
        (((b2 as u16) & 0x30) >> 4) <= 3,
        (0xd7c0u16 + (((b0 as u16) & 0x07) << 8) + (((b1 as u16) & 0x3f) << 2) + (((b2 as u16)
            & 0x30) >> 4)) as u32 == (0xd800u32 + (rest >> 10u32)) as u32,
        ((0xdc00u16 | (((b2 as u16) & 0x0f) << 6)) | ((b3 as u16) & 0x3f)) as u32 == (0xdc00u32
            + (rest & 0x3ffu32)) as u32,
{
}

impl From<Utf8Char> for Utf16Char {
    fn from(utf8: Utf8Char) -> (r: Utf16Char)
        ensures
            r@ == utf16_of(utf8@),
    {
        let (b, utf8_len) = utf8.to_array();
        let ghost c = utf8@;
        let ghost cp = c as u32;
        proof {
            lemma_utf8_padded_decodes(c);
            char_is_scalar(c);
            lemma_encode_valid(cp);
        }
        match utf8_len {
            1 => {
                let b0 = b[0];
                assert(b0 & 0x7f == b0) by (bit_vector)
                    requires
                        b0 <= 127,
                ;
                Utf16Char::new(b0 as u16, 0)
            },
            4 => {
                let b0 = b[0];
                let b1 = b[1];
                let b2 = b[2];
                let b3 = b[3];
                proof {
                    let rest = (cp - 0x10000u32) as u32;
                    lemma_units_of_four(b0, b1, b2, b3, cp, rest);
                    assert(rest >> 10u32 == rest / 0x400) by (bit_vector);
                    assert(rest & 0x3ffu32 == rest % 0x400) by (bit_vector);
                }
                assert((0x10000u32 >> 10u32) == 0x40u32) by (bit_vector);
                let mut first = 0xd800u16 - (0x10000u32 >> 10) as u16;
                first += (b0 as u16 & 0x07) << 8;
                first += (b1 as u16 & 0x3f) << 2;
                first += (b2 as u16 & 0x30) >> 4;
                let mut second: u16 = 0xdc00;
                second |= (b2 as u16 & 0x0f) << 6;
                second |= b3 as u16 & 0x3f;
                Utf16Char::new(first, second)
            },
            _ => {
                let b0 = b[0];
                let b1 = b[1];
                proof {
                    if utf8_len == 2 {
                        lemma_units_of_two(b0, b1);
                    }
                }
                let mut unit = ((b0 as u16 & 0x1f) << 6) | (b1 as u16 & 0x3f);
                if utf8_len == 3 {
                    let b2 = b[2];
                    proof {
                        lemma_units_of_three(b0, b1, b2);
                    }
                    unit = (unit << 6) | (b2 as u16 & 0x3f);
                }
                Utf16Char::new(unit, 0)
            },
        }
    }
}

impl vstd::std_specs::convert::FromSpecImpl<Utf8Char> for Utf16Char {
    open spec fn obeys_from_spec() -> bool {
        true
    }

    open spec fn from_spec(v: Utf8Char) -> Utf16Char {
        Utf16Char::with_units(utf16_of(v@))
    }
}

impl PartialEq<Utf8Char> for Utf16Char {
    fn eq(&self, u8c: &Utf8Char) -> (r: bool) {
        *self == Utf16Char::from(*u8c)
    }
}

impl vstd::std_specs::cmp::PartialEqSpecImpl<Utf8Char> for Utf16Char {
    open spec fn obeys_eq_spec() -> bool {
        true
    }

    open spec fn eq_spec(&self, u8c: &Utf8Char) -> bool {
        self@ == utf16_of(u8c@)
    }
}

} // verus!
