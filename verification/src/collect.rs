//! Collecting `Utf16Char`s into UTF-16 units or into a `String`.
use vstd::prelude::*;
use crate::utf16::{units_seq, decode_units};
use crate::utf16_char::Utf16Char;

verus! {

/// The units of every character, one after the other.
pub open spec fn units_of_all(chars: Seq<Utf16Char>) -> Seq<u16>
    decreases chars.len(),
{
    if chars.len() == 0 {
        Seq::empty()
    } else {
        units_of_all(chars.drop_last()) + units_seq(chars.last()@)
    }
}

/// The `char` of every character.
pub open spec fn chars_of_all(chars: Seq<Utf16Char>) -> Seq<char> {
    chars.map_values(|u: Utf16Char| decode_units(u@) as char)
}

/// `String::push` appends the `char` to the string.
#[verifier::external_body]
fn string_push(s: &mut String, c: char)
    ensures
        final(s)@ == old(s)@.push(c),
{
    s.push(c)
}

impl Utf16Char {
    /// Appends the units of each character to a vector of UTF-16 units.
    pub fn extend_units(vec: &mut Vec<u16>, chars: &[Utf16Char])
        ensures
            final(vec)@ == old(vec)@ + units_of_all(chars@),
    {
        let ghost start = vec@;
        let mut i: usize = 0;
        while i < chars.len()
            invariant
                i <= chars.len(),
                vec@ == start + units_of_all(chars@.take(i as int)),
            decreases chars.len() - i,
        {
            let (first, second) = chars[i].to_tuple();
            vec.push(first);
            match second {
                Some(s) => vec.push(s),
                None => {},
            }
            assert(chars@.take(i + 1).drop_last() =~= chars@.take(i as int));
            i += 1;
        }
        assert(chars@.take(chars.len() as int) =~= chars@);
    }

    /// The UTF-16 units of all the characters, one after the other.
    pub fn collect_units(chars: &[Utf16Char]) -> (vec: Vec<u16>)
        ensures
            vec@ == units_of_all(chars@),
    {
        let mut vec = Vec::new();
        Utf16Char::extend_units(&mut vec, chars);
        vec
    }

    /// Appends each character to a `String`.
    pub fn extend_string(s: &mut String, chars: &[Utf16Char])
        ensures
            final(s)@ == old(s)@ + chars_of_all(chars@),
    {
        let ghost start = s@;
        let mut i: usize = 0;
        while i < chars.len()
            invariant
                i <= chars.len(),
                s@ == start + chars_of_all(chars@.take(i as int)),
            decreases chars.len() - i,
        {
            let c = chars[i].to_char();
            string_push(s, c);
            proof {
                vstd::utf8::char_u32_cast(c, c as u32);
            }
            assert(chars_of_all(chars@.take(i + 1)) =~= chars_of_all(chars@.take(i as int)).push(c));
            i += 1;
        }
        assert(chars@.take(chars.len() as int) =~= chars@);
    }

    /// A `String` of all the characters.
    pub fn collect_string(chars: &[Utf16Char]) -> (s: String)
        ensures
            s@ == chars_of_all(chars@),
    {
        let mut s = String::new();
        Utf16Char::extend_string(&mut s, chars);
        s
    }
}

/// Collecting nothing gives nothing, and each further character adds exactly
/// its units, or its `char`, at the end.
pub proof fn law_collect_appends(chars: Seq<Utf16Char>, x: Utf16Char)
    ensures
        units_of_all(Seq::<Utf16Char>::empty()) == Seq::<u16>::empty(),
        units_of_all(chars.push(x)) == units_of_all(chars) + units_seq(x@),
        chars_of_all(Seq::<Utf16Char>::empty()) == Seq::<char>::empty(),
        chars_of_all(chars.push(x)) == chars_of_all(chars).push(decode_units(x@) as char),
        chars_of_all(chars).len() == chars.len(),
{
    assert(chars.push(x).drop_last() =~= chars);
    assert(chars_of_all(chars.push(x)) =~= chars_of_all(chars).push(decode_units(x@) as char));
    assert(chars_of_all(Seq::<Utf16Char>::empty()) =~= Seq::<char>::empty());
}

} // verus!
