//! `Utf16Char`: a Unicode scalar value stored as UTF-16.
use vstd::prelude::*;
use crate::errors::{InvalidUtf16Slice, InvalidUtf16Tuple, NonBMPError};
use crate::utf16::{
    valid_units, units_len, units_seq, units_tuple, tuple_units, tuple_error, slice_start,
    decode_units, utf16_of, is_surrogate,
    to_utf16_tuple, from_utf16_tuple_unchecked, from_utf16_tuple, from_utf16_slice_start,
    is_utf16_leading_surrogate, lemma_decode_valid,
};

verus! {

/// An unicode codepoint stored as UTF-16.
///
/// It can be borrowed as an `u16` slice, and has the same size as `char`.
#[derive(Clone, Copy, Debug)]
pub struct Utf16Char {
    units: [u16; 2],
}

impl View for Utf16Char {
    type V = (u16, u16);

    closed spec fn view(&self) -> (u16, u16) {
        (self.units@[0], self.units@[1])
    }
}

impl Utf16Char {
    /// Every value holds the UTF-16 encoding of one scalar value.
    #[verifier::type_invariant]
    pub open spec fn inv(self) -> bool {
        valid_units(self@)
    }

    /// The value with the given units.
    pub closed spec fn with_units(u: (u16, u16)) -> Utf16Char {
        Utf16Char { units: [u.0, u.1] }
    }

    /// The value that `from`'s specification builds holds the given units.
    pub proof fn lemma_with_units_view(u: (u16, u16))
        ensures
            Utf16Char::with_units(u)@ == u,
    {
    }

    /// A value is the one built from its own units.
    pub proof fn lemma_view_determines(x: Utf16Char)
        ensures
            x == Utf16Char::with_units(x@),
    {
        assert(x.units =~= [x@.0, x@.1]);
    }

    /// Stores units that are known to be valid.
    pub(crate) fn new(first: u16, second: u16) -> (r: Utf16Char)
        requires
            valid_units((first, second)),
        ensures
            r == Utf16Char::with_units((first, second)),
            r@ == (first, second),
    {
        Utf16Char { units: [first, second] }
    }

    /// The number of units this character is made up of.
    ///
    /// Is either 1 or 2 and identical to `.as_char().len_utf16()`
    /// or `.as_ref().len()`.
    pub fn len(self) -> (n: usize)
        ensures
            n == units_len(self@),
    {
        proof { use_type_invariant(&self); }
        let second = self.units[1];
        assert(((second as usize) >> 15) == (if second >= 0x8000 { 1usize } else { 0usize }))
            by (bit_vector);
        1 + ((second as usize) >> 15)
    }

    /// Convert from UTF-16 to UTF-32
    pub fn to_char(self) -> (c: char)
        ensures
            c as u32 == decode_units(self@),
            utf16_of(c) == self@,
    {
        proof {
            use_type_invariant(&self);
            lemma_decode_valid(self@);
        }
        from_utf16_tuple_unchecked(self.to_tuple())
    }
}

impl Utf16Char {
    /// Validate and store the first UTF-16 codepoint in the slice.
    /// Also return how many units were needed.
    pub fn from_slice_start(src: &[u16]) -> (r: Result<(Self, usize), InvalidUtf16Slice>)
        ensures
            match slice_start(src@) {
                Ok(n) => r matches Ok((u, m)) && m == n && u@ == (
                    src@[0],
                    if n == 2 { src@[1] } else { 0u16 },
                ),
                Err(e) => r == Err::<(Self, usize), InvalidUtf16Slice>(e),
            },
    {
        match from_utf16_slice_start(src) {
            Ok((_, len)) => {
                let second = if len == 2 { src[1] } else { 0 };
                Ok((Utf16Char::new(src[0], second), len))
            },
            Err(e) => Err(e),
        }
    }

    /// Store the first UTF-16 codepoint of the slice.
    ///
    /// The slice must be non-empty and start with a valid UTF-16 codepoint.
    pub fn from_slice_start_unchecked(src: &[u16]) -> (r: (Self, usize))
        requires
            slice_start(src@) is Ok,
        ensures
            r.1 == slice_start(src@)->Ok_0,
            r.0@ == (src@[0], if r.1 == 2 { src@[1] } else { 0u16 }),
    {
        let first = src[0];
        if is_utf16_leading_surrogate(first) {
            (Utf16Char::new(first, src[1]), 2)
        } else {
            (Utf16Char::new(first, 0), 1)
        }
    }

    /// Validate and store a UTF-16 pair as returned from `char.to_utf16_tuple()`.
    pub fn from_tuple(utf16: (u16, Option<u16>)) -> (r: Result<Self, InvalidUtf16Tuple>)
        ensures
            match tuple_error(utf16) {
                Some(e) => r == Err::<Self, InvalidUtf16Tuple>(e),
                None => r matches Ok(u) && u@ == tuple_units(utf16),
            },
    {
        match from_utf16_tuple(utf16) {
            Ok(_) => Ok(Self::from_tuple_unchecked(utf16)),
            Err(e) => Err(e),
        }
    }

    /// Create an `Utf16Char` from a tuple as returned from `char.to_utf16_tuple()`.
    ///
    /// The units must represent a single valid codepoint.
    pub fn from_tuple_unchecked(utf16: (u16, Option<u16>)) -> (r: Self)
        requires
            tuple_error(utf16) is None,
        ensures
            r@ == tuple_units(utf16),
    {
        let second = match utf16.1 {
            Some(s) => s,
            None => 0,
        };
        Utf16Char::new(utf16.0, second)
    }

    /// Create an `Utf16Char` from a single unit.
    ///
    /// The unit must be a codepoint in the basic multilingual plane,
    /// or, not a part of a surrogate pair.
    ///
    /// Returns `NonBMPError` if the unit is in the range `0xd800..0xe000`.
    pub fn from_bmp(bmp_codepoint: u16) -> (r: Result<Self, NonBMPError>)
        ensures
            is_surrogate(bmp_codepoint) ==> r == Err::<Self, NonBMPError>(NonBMPError),
            !is_surrogate(bmp_codepoint) ==> (r matches Ok(u) && u@ == (bmp_codepoint, 0u16)),
    {
        assert((bmp_codepoint & 0xf800 != 0xd800) == !(0xd800 <= bmp_codepoint <= 0xdfff))
            by (bit_vector);
        if bmp_codepoint & 0xf800 != 0xd800 {
            Ok(Utf16Char::new(bmp_codepoint, 0))
        } else {
            Err(NonBMPError)
        }
    }

    /// Create an `Utf16Char` from a single unit without checking that it's a
    /// valid codepoint on its own.
    ///
    /// The unit must be less than 0xd800 or greater than 0xdfff: not a surrogate.
    pub fn from_bmp_unchecked(bmp_codepoint: u16) -> (r: Self)
        requires
            !is_surrogate(bmp_codepoint),
        ensures
            r@ == (bmp_codepoint, 0u16),
    {
        Utf16Char::new(bmp_codepoint, 0)
    }

    /// Write the internal representation to a slice,
    /// and then returns the number of `u16`s written.
    ///
    /// The buffer must hold at least `.len()` units;
    /// a buffer of length two is always large enough.
    pub fn to_slice(self, dst: &mut [u16]) -> (n: usize)
        requires
            old(dst)@.len() >= units_len(self@),
        ensures
            n == units_len(self@),
            final(dst)@.len() == old(dst)@.len(),
            final(dst)@.subrange(0, n as int) == units_seq(self@),
            final(dst)@.subrange(n as int, final(dst)@.len() as int)
                == old(dst)@.subrange(n as int, old(dst)@.len() as int),
    {
        proof { use_type_invariant(&self); }
        let second = self.units[1];
        assert(((second as usize) >> 15) == (if second >= 0x8000 { 1usize } else { 0usize }))
            by (bit_vector);
        let extra = (second as usize) >> 15;
        dst[extra] = self.units[extra];
        if extra != 0 {
            dst[0] = self.units[0];
        }
        assert(final(dst)@.subrange(0, (extra + 1) as int) =~= units_seq(self@));
        extra + 1
    }

    /// The second `u16` is used for surrogate pairs.
    pub fn to_tuple(self) -> (t: (u16, Option<u16>))
        ensures
            t == units_tuple(self@),
    {
        (self.units[0], if self.units[1] == 0 { None } else { Some(self.units[1]) })
    }

    /// Checks that the codepoint is an ASCII character.
    pub fn is_ascii(&self) -> (b: bool)
        ensures
            b == (self@.0 <= 127),
    {
        self.units[0] <= 127
    }
}

/// ASCII letters `'a'..='z'` mapped to `'A'..='Z'`; other values unchanged.
pub open spec fn ascii_upper(u: (u16, u16)) -> (u16, u16) {
    if 0x61 <= u.0 <= 0x7a { ((u.0 - 0x20) as u16, 0u16) } else { u }
}

/// The codepoint with ASCII letters `'A'..='Z'` mapped to `'a'..='z'`, as
/// `char::to_ascii_lowercase` maps it.
pub open spec fn ascii_lower_codepoint(cp: u32) -> u32 {
    if 0x41 <= cp <= 0x5a { (cp + 0x20) as u32 } else { cp }
}

/// ASCII letters `'A'..='Z'` mapped to `'a'..='z'`; other values unchanged.
pub open spec fn ascii_lower(u: (u16, u16)) -> (u16, u16) {
    if 0x41 <= u.0 <= 0x5a { ((u.0 + 0x20) as u16, 0u16) } else { u }
}

impl Utf16Char {
    /// Checks that two characters are an ASCII case-insensitive match.
    ///
    /// Is equivalent to `a.to_ascii_lowercase() == b.to_ascii_lowercase()`.
    pub fn eq_ignore_ascii_case(&self, other: &Self) -> (b: bool)
        ensures
            b == (ascii_lower(self@) == ascii_lower(other@)),
    {
        self.to_ascii_lowercase() == other.to_ascii_lowercase()
    }

    /// Converts the character to its ASCII upper case equivalent.
    ///
    /// ASCII letters 'a' to 'z' are mapped to 'A' to 'Z',
    /// but non-ASCII letters are unchanged.
    pub fn to_ascii_uppercase(&self) -> (r: Self)
        ensures
            r@ == ascii_upper(self@),
    {
        let n = self.units[0].wrapping_sub(0x61);
        if n < 26 {
            Utf16Char::new(n + 0x41, 0)
        } else {
            *self
        }
    }

    /// Converts the character to its ASCII lower case equivalent.
    ///
    /// ASCII letters 'A' to 'Z' are mapped to 'a' to 'z',
    /// but non-ASCII letters are unchanged.
    pub fn to_ascii_lowercase(&self) -> (r: Self)
        ensures
            r@ == ascii_lower(self@),
    {
        let n = self.units[0].wrapping_sub(0x41);
        if n < 26 {
            Utf16Char::new(n + 0x61, 0)
        } else {
            *self
        }
    }

    /// Converts the character to its ASCII upper case equivalent in-place.
    ///
    /// ASCII letters 'a' to 'z' are mapped to 'A' to 'Z',
    /// but non-ASCII letters are unchanged.
    pub fn make_ascii_uppercase(&mut self)
        ensures
            final(self)@ == ascii_upper(old(self)@),
    {
        *self = self.to_ascii_uppercase();
    }

    /// Converts the character to its ASCII lower case equivalent in-place.
    ///
    /// ASCII letters 'A' to 'Z' are mapped to 'a' to 'z',
    /// but non-ASCII letters are unchanged.
    pub fn make_ascii_lowercase(&mut self)
        ensures
            final(self)@ == ascii_lower(old(self)@),
    {
        *self = self.to_ascii_lowercase();
    }
}

// Same units, same codepoint: a one-unit value has a zero second unit.
impl PartialEq for Utf16Char {
    fn eq(&self, other: &Self) -> (r: bool) {
        self.units[0] == other.units[0] && self.units[1] == other.units[1]
    }
}

impl vstd::std_specs::cmp::PartialEqSpecImpl for Utf16Char {
    open spec fn obeys_eq_spec() -> bool {
        true
    }

    open spec fn eq_spec(&self, other: &Utf16Char) -> bool {
        self@ == other@
    }
}

impl Eq for Utf16Char {}

/// What `Utf16Char`s are ordered by: the first unit alone for one unit, and
/// the first unit scaled past every one-unit value plus the second for a pair.
pub open spec fn order_key(u: (u16, u16)) -> int {
    if u.1 == 0 { u.0 as int } else { u.0 * 0x2000 + u.1 }
}

/// Ordering valid units by their key orders them by codepoint.
pub proof fn lemma_order_key(a: (u16, u16), b: (u16, u16))
    requires
        valid_units(a),
        valid_units(b),
    ensures
        (order_key(a) < order_key(b)) == (decode_units(a) < decode_units(b)),
        (order_key(a) == order_key(b)) == (decode_units(a) == decode_units(b)),
        (decode_units(a) == decode_units(b)) == (a == b),
{
}

impl Utf16Char {
    /// The key that orders values as their codepoints are ordered.
    ///
    /// The first unit is shifted by 0xd if it starts a surrogate pair, and 0
    /// otherwise. This puts surrogate pairs above 0xffff, and lets the second
    /// unit only matter when the first ones are equal.
    pub(crate) fn key(&self) -> (k: u32)
        ensures
            k == order_key(self@),
    {
        proof { use_type_invariant(self); }
        let first = self.units[0] as u32;
        let second = self.units[1] as u32;
        assert(((first << (second >> 12u32)) + second) == (if second == 0 {
            first as int
        } else {
            first * 0x2000 + second
        })) by (bit_vector)
            requires
                first < 0x10000,
                second == 0 || (0xdc00 <= second <= 0xdfff),
        ;
        assert((second >> 12u32) <= 13 && (first << (second >> 12u32)) <= 0x1fffe000)
            by (bit_vector)
            requires
                first < 0x10000,
                second == 0 || (0xdc00 <= second <= 0xdfff),
                second == 0 || first <= 0xdbff,
        ;
        (first << (second >> 12)) + second
    }
}

impl Default for Utf16Char {
    /// The character `'\0'`.
    fn default() -> (r: Self)
        ensures
            r@ == (0u16, 0u16),
    {
        Utf16Char::new(0, 0)
    }
}

impl From<char> for Utf16Char {
    fn from(c: char) -> (r: Self)
        ensures
            r@ == utf16_of(c),
    {
        let (first, second) = to_utf16_tuple(c);
        let second = match second {
            Some(s) => s,
            None => 0,
        };
        proof {
            vstd::utf8::char_is_scalar(c);
            crate::utf16::lemma_encode_valid(c as u32);
        }
        Utf16Char::new(first, second)
    }
}

impl vstd::std_specs::convert::FromSpecImpl<char> for Utf16Char {
    open spec fn obeys_from_spec() -> bool {
        true
    }

    open spec fn from_spec(v: char) -> Utf16Char {
        Utf16Char::with_units(utf16_of(v))
    }
}

} // verus!

verus! {

impl From<Utf16Char> for char {
    fn from(uc: Utf16Char) -> (c: char)
        ensures
            c as u32 == decode_units(uc@),
    {
        uc.to_char()
    }
}

impl vstd::std_specs::convert::FromSpecImpl<Utf16Char> for char {
    open spec fn obeys_from_spec() -> bool {
        true
    }

    open spec fn from_spec(v: Utf16Char) -> char {
        decode_units(v@) as char
    }
}

/// Only considers the unit equal if the codepoint of the `Utf16Char` is not
/// made up of a surrogate pair.
///
/// There is no impl in the opposite direction, as this should only be used to
/// compare `Utf16Char`s against constants.
impl PartialEq<u16> for Utf16Char {
    fn eq(&self, unit: &u16) -> (r: bool) {
        self.units[0] == *unit && self.units[1] == 0
    }
}

impl vstd::std_specs::cmp::PartialEqSpecImpl<u16> for Utf16Char {
    open spec fn obeys_eq_spec() -> bool {
        true
    }

    open spec fn eq_spec(&self, unit: &u16) -> bool {
        self@ == (*unit, 0u16)
    }
}

/// Only considers the byte equal if the codepoint of the `Utf16Char` is <= U+FF.
impl PartialEq<u8> for Utf16Char {
    fn eq(&self, byte: &u8) -> (r: bool) {
        self.units[0] == *byte as u16
    }
}

impl vstd::std_specs::cmp::PartialEqSpecImpl<u8> for Utf16Char {
    open spec fn obeys_eq_spec() -> bool {
        true
    }

    open spec fn eq_spec(&self, byte: &u8) -> bool {
        self@.0 == *byte as u16
    }
}

impl PartialEq<char> for Utf16Char {
    fn eq(&self, u32c: &char) -> (r: bool) {
        *self == Utf16Char::from(*u32c)
    }
}

impl vstd::std_specs::cmp::PartialEqSpecImpl<char> for Utf16Char {
    open spec fn obeys_eq_spec() -> bool {
        true
    }

    open spec fn eq_spec(&self, u32c: &char) -> bool {
        self@ == utf16_of(*u32c)
    }
}

impl PartialEq<Utf16Char> for char {
    fn eq(&self, u16c: &Utf16Char) -> (r: bool) {
        Utf16Char::from(*self) == *u16c
    }
}

impl vstd::std_specs::cmp::PartialEqSpecImpl<Utf16Char> for char {
    open spec fn obeys_eq_spec() -> bool {
        true
    }

    open spec fn eq_spec(&self, u16c: &Utf16Char) -> bool {
        utf16_of(*self) == u16c@
    }
}

} // verus!

verus! {

impl AsRef<[u16]> for Utf16Char {
    fn as_ref(&self) -> (s: &[u16])
        ensures
            s@ == units_seq(self@),
    {
        let n = self.len();
        let s = vstd::slice::slice_subrange(self.units.as_slice(), 0, n);
        assert(s@ =~= units_seq(self@));
        s
    }
}

/// The units of a borrowed unit slice.
pub open spec fn slice_units(s: &[u16]) -> Seq<u16> {
    s@
}

impl core::borrow::Borrow<[u16]> for Utf16Char {
    fn borrow(&self) -> (s: &[u16])
        ensures
            slice_units(s) == units_seq(self@),
    {
        let r: &[u16] = AsRef::<[u16]>::as_ref(self);
        r
    }
}

impl core::ops::Deref for Utf16Char {
    type Target = [u16];

    fn deref(&self) -> (s: &[u16])
        ensures
            s@ == units_seq(self@),
    {
        let r: &[u16] = AsRef::<[u16]>::as_ref(self);
        r
    }
}

} // verus!

verus! {

/// `char`'s `Hash::hash` feeds the hasher; what the hasher then holds is
/// opaque here, so nothing is stated of it.
pub assume_specification<H: core::hash::Hasher>[ <char as core::hash::Hash>::hash::<H> ](
    c: &char,
    state: &mut H,
);

// Hashes as `char` does.
impl core::hash::Hash for Utf16Char {
    fn hash<H: core::hash::Hasher>(&self, state: &mut H) {
        self.to_char().hash(state);
    }
}

} // verus!
