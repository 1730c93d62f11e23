//! `Utf8Char`: a Unicode scalar value stored as UTF-8, as far as `Utf16Char`
//! converts from it.
use vstd::prelude::*;
use vstd::utf8::{
    encode_scalar, char_is_scalar, encode_utf8, encode_utf8_first_scalar, valid_first_scalar,
    decode_first_scalar, length_of_first_scalar, char_u32_cast,
};

verus! {

/// The UTF-8 encoding of `c`, followed by zero bytes up to four bytes.
pub open spec fn utf8_padded(c: char) -> Seq<u8> {
    let e = encode_scalar(c as u32);
    e + Seq::new((4 - e.len()) as nat, |i: int| 0u8)
}

/// An unicode codepoint stored as UTF-8.
///
/// The bytes that the encoding does not use are zero.
#[derive(Clone, Copy, Debug)]
pub struct Utf8Char {
    bytes: [u8; 4],
}

impl View for Utf8Char {
    type V = char;

    closed spec fn view(&self) -> char {
        choose|c: char| self.bytes@ == utf8_padded(c)
    }
}

impl Utf8Char {
    /// The bytes are the padded UTF-8 encoding of some `char`.
    #[verifier::type_invariant]
    closed spec fn inv(self) -> bool {
        exists|c: char| self.bytes@ == utf8_padded(c)
    }

    /// The stored bytes and how many of them the encoding uses.
    pub fn to_array(self) -> (r: ([u8; 4], usize))
        ensures
            r.0@ == utf8_padded(self@),
            r.1 == encode_scalar(self@ as u32).len(),
    {
        proof { use_type_invariant(&self); }
        let b0 = self.bytes[0];
        proof {
            char_is_scalar(self@);
            lemma_utf8_padded_decodes(self@);
        }
        let len: usize = if b0 < 0x80 {
            1
        } else if b0 < 0xe0 {
            2
        } else if b0 < 0xf0 {
            3
        } else {
            4
        };
        (self.bytes, len)
    }

    /// The number of bytes the encoding uses.
    pub fn len(self) -> (n: usize)
        ensures
            n == encode_scalar(self@ as u32).len(),
    {
        self.to_array().1
    }
}

impl Utf8Char {
    /// The value that holds the encoding of `c`.
    pub closed spec fn encoding_of(c: char) -> Utf8Char {
        Utf8Char { bytes: choose|a: [u8; 4]| a@ == utf8_padded(c) }
    }
}

impl vstd::std_specs::convert::FromSpecImpl<char> for Utf8Char {
    open spec fn obeys_from_spec() -> bool {
        true
    }

    open spec fn from_spec(v: char) -> Utf8Char {
        Utf8Char::encoding_of(v)
    }
}

impl From<char> for Utf8Char {
    fn from(c: char) -> (r: Self)
        ensures
            r@ == c,
    {
        let cp = c as u32;
        proof { char_is_scalar(c); }
        let bytes: [u8; 4] = if cp <= 0x7f {
            [(cp & 0x7f) as u8, 0, 0, 0]
        } else if cp <= 0x7ff {
            [0xc0 | ((cp >> 6) & 0x1f) as u8, 0x80 | (cp & 0x3f) as u8, 0, 0]
        } else if cp <= 0xffff {
            [
                0xe0 | ((cp >> 12) & 0x0f) as u8,
                0x80 | ((cp >> 6) & 0x3f) as u8,
                0x80 | (cp & 0x3f) as u8,
                0,
            ]
        } else {
            [
                0xf0 | ((cp >> 18) & 0x7) as u8,
                0x80 | ((cp >> 12) & 0x3f) as u8,
                0x80 | ((cp >> 6) & 0x3f) as u8,
                0x80 | (cp & 0x3f) as u8,
            ]
        };
        assert(bytes@ =~= utf8_padded(c));
        let r = Utf8Char { bytes };
        proof {
            lemma_utf8_padded_injective(r@, c);
            let a = choose|a: [u8; 4]| a@ == utf8_padded(c);
            assert(a =~= bytes);
        }
        r
    }
}

/// The padded encoding starts with a well-formed encoding of `c` alone.
pub proof fn lemma_utf8_padded_decodes(c: char)
    ensures
        valid_first_scalar(utf8_padded(c)),
        decode_first_scalar(utf8_padded(c)) == c as u32,
        length_of_first_scalar(utf8_padded(c)) == encode_scalar(c as u32).len(),
        utf8_padded(c).len() == 4,
{
    char_is_scalar(c);
    let e = encode_scalar(c as u32);
    let chars = seq![c];
    assert(chars.drop_first() =~= Seq::<char>::empty());
    assert(encode_utf8(Seq::<char>::empty()) =~= Seq::<u8>::empty());
    assert(encode_utf8(chars) =~= e);
    encode_utf8_first_scalar(chars);
    let p = utf8_padded(c);
    assert(forall|i: int| 0 <= i < e.len() ==> p[i] == e[i]);
}

/// Different `char`s have different padded encodings.
pub proof fn lemma_utf8_padded_injective(a: char, b: char)
    requires
        utf8_padded(a) == utf8_padded(b),
    ensures
        a == b,
{
    lemma_utf8_padded_decodes(a);
    lemma_utf8_padded_decodes(b);
    char_u32_cast(a, a as u32);
    char_u32_cast(b, b as u32);
}

/// Converting a `char` to a `Utf8Char` keeps the `char`: so converting that
/// `Utf8Char` to a `Utf16Char` gives what converting the `char` does.
pub proof fn law_utf8_char_keeps_char(c: char)
    ensures
        Utf8Char::encoding_of(c)@ == c,
{
    let p = utf8_padded(c);
    lemma_utf8_padded_decodes(c);
    let a: [u8; 4] = [p[0], p[1], p[2], p[3]];
    assert(a@ =~= p);
    let u = Utf8Char::encoding_of(c);
    assert(u.bytes@ == p);
    lemma_utf8_padded_injective(u@, c);
}

} // verus!
