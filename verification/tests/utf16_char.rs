use encode_unicode::errors::{
    EmptyStrError, FromStrError, InvalidUtf16Slice, InvalidUtf16Tuple, NonBMPError,
};
use encode_unicode::{Utf16Char, Utf8Char};
use ascii::AsciiChar;
use std::cmp::Ordering;
use std::collections::hash_map::DefaultHasher;
use std::hash::{Hash, Hasher};
use std::str::FromStr;

#[test]
fn from_str_examples() {
    assert_eq!(Utf16Char::from_str("a"), Ok(Utf16Char::from('a')));
    assert_eq!(Utf16Char::from_str("🂠"), Ok(Utf16Char::from('🂠')));
    assert_eq!(Utf16Char::from_str(""), Err(FromStrError::Empty));
    assert_eq!(Utf16Char::from_str("ab"), Err(FromStrError::MultipleCodepoints));
    assert_eq!(Utf16Char::from_str("e\u{301}"), Err(FromStrError::MultipleCodepoints));
}

#[test]
fn from_str_start_examples() {
    assert_eq!(Utf16Char::from_str_start("a"), Ok((Utf16Char::from('a'), 1)));
    assert_eq!(Utf16Char::from_str_start("ab"), Ok((Utf16Char::from('a'), 1)));
    assert_eq!(Utf16Char::from_str_start("🂠 "), Ok((Utf16Char::from('🂠'), 4)));
    assert_eq!(Utf16Char::from_str_start("e\u{301}"), Ok((Utf16Char::from('e'), 1)));
    assert!(Utf16Char::from_str_start("").is_err());
    assert_eq!(Utf16Char::from_str_start(""), Err(EmptyStrError));
}

#[test]
fn from_str_start_every_width() {
    assert_eq!(Utf16Char::from_str_start("ø!"), Ok((Utf16Char::from('ø'), 2)));
    assert_eq!(Utf16Char::from_str_start("ø").unwrap().0.to_tuple(), (0xf8, None));
    assert_eq!(Utf16Char::from_str_start("€").unwrap().0.to_tuple(), (0x20ac, None));
    assert_eq!(Utf16Char::from_str_start("\u{ffff}").unwrap(), (Utf16Char::from('\u{ffff}'), 3));
    assert_eq!(
        Utf16Char::from_str_start("\u{10000}").unwrap().0.to_tuple(),
        (0xd800, Some(0xdc00))
    );
    assert_eq!(
        Utf16Char::from_str_start("\u{10ffff}").unwrap().0.to_tuple(),
        (0xdbff, Some(0xdfff))
    );
    assert_eq!(Utf16Char::from_str_start("\u{1f0a0}").unwrap().1, 4);
}

#[test]
fn eq_unit_examples() {
    assert!(Utf16Char::from('6') == b'6' as u16);
    assert!(Utf16Char::from('\u{FFFF}') == 0xffff_u16);
    assert!(Utf16Char::from_tuple((0xd876, Some(0xdef9))).unwrap() != 0xd876_u16);
}

#[test]
fn eq_byte_examples() {
    assert!(Utf16Char::from('6') == b'6');
    assert!(Utf16Char::from('\u{00FF}') == b'\xff');
    assert!(Utf16Char::from('\u{0100}') != b'\0');
}

#[test]
fn from_bmp_examples() {
    assert_eq!(Utf16Char::from_bmp(0x40).unwrap(), '@');
    assert_eq!(Utf16Char::from_bmp('ø' as u16).unwrap(), 'ø');
    assert!(Utf16Char::from_bmp(0xdddd).is_err());
    assert_eq!(Utf16Char::from_bmp(0xd800), Err(NonBMPError));
    assert_eq!(Utf16Char::from_bmp(0xdfff), Err(NonBMPError));
    assert!(Utf16Char::from_bmp(0xe000).is_ok());
    assert_eq!(Utf16Char::from_bmp_unchecked(0x41), 'A');
}

#[test]
fn char_roundtrip() {
    for &c in &['\0', 'a', 'ø', '\u{d7ff}', '\u{e000}', '\u{ffff}', '\u{10000}', '🂠', '\u{10ffff}'] {
        let u = Utf16Char::from(c);
        assert_eq!(u.to_char(), c);
        assert_eq!(char::from(u), c);
        assert_eq!(u.len(), c.len_utf16());
        assert_eq!(u.as_ref().len(), c.len_utf16());
        let mut buf = [0u16; 2];
        assert_eq!(&*u, c.encode_utf16(&mut buf));
        assert!(u == c);
        assert!(c == u);
    }
}

#[test]
fn surrogate_pair_units() {
    let u = Utf16Char::from('🂠');
    assert_eq!(u.to_tuple(), (0xd83c, Some(0xdca0)));
    assert_eq!(u.len(), 2);
    assert_eq!(u.as_ref(), &[0xd83c, 0xdca0][..]);
    let b = Utf16Char::from('a');
    assert_eq!(b.to_tuple(), (0x61, None));
    assert_eq!(b.len(), 1);
    assert_eq!(b.as_ref(), &[0x61][..]);
}

#[test]
fn tuple_roundtrip_and_errors() {
    let u = Utf16Char::from('\u{1d11e}');
    assert_eq!(Utf16Char::from_tuple(u.to_tuple()), Ok(u));
    assert_eq!(Utf16Char::from_tuple((0x41, None)), Ok(Utf16Char::from('A')));
    assert_eq!(
        Utf16Char::from_tuple((0xdc00, None)),
        Err(InvalidUtf16Tuple::FirstIsTrailingSurrogate)
    );
    assert_eq!(
        Utf16Char::from_tuple((0xdc00, Some(0xdc00))),
        Err(InvalidUtf16Tuple::FirstIsTrailingSurrogate)
    );
    assert_eq!(
        Utf16Char::from_tuple((0x41, Some(0xdc00))),
        Err(InvalidUtf16Tuple::SuperfluousSecond)
    );
    assert_eq!(Utf16Char::from_tuple((0x41, Some(0))), Err(InvalidUtf16Tuple::SuperfluousSecond));
    assert_eq!(Utf16Char::from_tuple((0xd800, None)), Err(InvalidUtf16Tuple::MissingSecond));
    assert_eq!(
        Utf16Char::from_tuple((0xd800, Some(0x41))),
        Err(InvalidUtf16Tuple::InvalidSecond)
    );
    assert_eq!(Utf16Char::from_tuple_unchecked((0xd83c, Some(0xdca0))), Utf16Char::from('🂠'));
}

#[test]
fn slice_start_and_errors() {
    assert_eq!(Utf16Char::from_slice_start(&[0x41, 0x42]), Ok((Utf16Char::from('A'), 1)));
    assert_eq!(
        Utf16Char::from_slice_start(&[0xd83c, 0xdca0, 0x41]),
        Ok((Utf16Char::from('🂠'), 2))
    );
    assert_eq!(Utf16Char::from_slice_start(&[]), Err(InvalidUtf16Slice::EmptySlice));
    assert_eq!(Utf16Char::from_slice_start(&[0xdc00]), Err(InvalidUtf16Slice::FirstLowSurrogate));
    assert_eq!(Utf16Char::from_slice_start(&[0xd800]), Err(InvalidUtf16Slice::MissingSecond));
    assert_eq!(
        Utf16Char::from_slice_start(&[0xd800, 0xd800]),
        Err(InvalidUtf16Slice::SecondNotLowSurrogate)
    );
    assert_eq!(
        Utf16Char::from_slice_start_unchecked(&[0xd83c, 0xdca0]),
        (Utf16Char::from('🂠'), 2)
    );
    assert_eq!(Utf16Char::from_slice_start_unchecked(&[0x20ac]), (Utf16Char::from('€'), 1));
}

#[test]
fn to_slice_writes_units() {
    let mut buf = [7u16; 3];
    assert_eq!(Utf16Char::from('a').to_slice(&mut buf), 1);
    assert_eq!(buf, [0x61, 7, 7]);
    let mut buf = [7u16; 3];
    assert_eq!(Utf16Char::from('🂠').to_slice(&mut buf), 2);
    assert_eq!(buf, [0xd83c, 0xdca0, 7]);
    let mut small = [0u16; 1];
    assert_eq!(Utf16Char::from('z').to_slice(&mut small), 1);
    assert_eq!(small, [0x7a]);
    let mut buf = [0u16; 4];
    let n = Utf16Char::from('\u{10400}').to_slice(&mut buf);
    assert_eq!(Utf16Char::from_slice_start(&buf[..n]), Ok((Utf16Char::from('\u{10400}'), 2)));
}

#[test]
fn ordering_follows_codepoints() {
    let low = Utf16Char::from('\u{e000}');
    let high = Utf16Char::from('\u{10000}');
    assert_eq!(low.cmp(&high), Ordering::Less);
    assert_eq!(high.cmp(&low), Ordering::Greater);
    assert!(low < high);
    assert!(Utf16Char::from('\u{ffff}') < Utf16Char::from('\u{10000}'));
    assert!(Utf16Char::from('\u{10ffff}') > Utf16Char::from('\u{10400}'));
    assert_eq!(Utf16Char::from('\u{10401}').cmp(&Utf16Char::from('\u{10400}')), Ordering::Greater);
    assert_eq!(Utf16Char::from('a').cmp(&Utf16Char::from('a')), Ordering::Equal);
    assert_eq!(Utf16Char::from('a').partial_cmp(&'b'), Some(Ordering::Less));
    assert_eq!('\u{10000}'.partial_cmp(&Utf16Char::from('\u{ffff}')), Some(Ordering::Greater));
    let chars = ['\0', 'a', '\u{d7ff}', '\u{e000}', '\u{ffff}', '\u{10000}', '\u{1f0a0}', '\u{10ffff}'];
    for &a in &chars {
        for &b in &chars {
            assert_eq!(Utf16Char::from(a).cmp(&Utf16Char::from(b)), a.cmp(&b));
            assert_eq!(Utf16Char::from(a) == Utf16Char::from(b), a == b);
        }
    }
}

#[test]
fn ascii_case() {
    let a = Utf16Char::from('a');
    assert!(a.is_ascii());
    assert!(!Utf16Char::from('ø').is_ascii());
    assert!(Utf16Char::from('\u{7f}').is_ascii());
    assert_eq!(a.to_ascii_uppercase(), 'A');
    assert_eq!(Utf16Char::from('A').to_ascii_lowercase(), 'a');
    assert_eq!(Utf16Char::from('z').to_ascii_uppercase(), 'Z');
    assert_eq!(Utf16Char::from('{').to_ascii_uppercase(), '{');
    assert_eq!(Utf16Char::from('@').to_ascii_lowercase(), '@');
    assert_eq!(Utf16Char::from('ø').to_ascii_uppercase(), 'ø');
    assert_eq!(Utf16Char::from('🂠').to_ascii_lowercase(), '🂠');
    assert!(Utf16Char::from('Q').eq_ignore_ascii_case(&Utf16Char::from('q')));
    assert!(!Utf16Char::from('Q').eq_ignore_ascii_case(&Utf16Char::from('r')));
    assert!(!Utf16Char::from('Ø').eq_ignore_ascii_case(&Utf16Char::from('ø')));
    let mut m = Utf16Char::from('m');
    m.make_ascii_uppercase();
    assert_eq!(m, 'M');
    m.make_ascii_lowercase();
    assert_eq!(m, 'm');
}

#[test]
fn utf8_conversion() {
    for &c in &['\0', '\u{7f}', '\u{80}', 'ø', '\u{7ff}', '\u{800}', '€', '\u{ffff}', '\u{10000}', '🂠', '\u{10ffff}'] {
        let u8c = Utf8Char::from(c);
        assert_eq!(u8c.len(), c.len_utf8());
        let (bytes, len) = u8c.to_array();
        let mut expected = [0u8; 4];
        c.encode_utf8(&mut expected);
        assert_eq!(bytes, expected);
        assert_eq!(len, c.len_utf8());
        assert_eq!(Utf16Char::from(u8c), Utf16Char::from(c));
        assert!(Utf16Char::from(c) == u8c);
        assert_eq!(Utf16Char::from(c).partial_cmp(&u8c), Some(Ordering::Equal));
    }
    assert_eq!(Utf16Char::from(Utf8Char::from('🂠')).to_tuple(), (0xd83c, Some(0xdca0)));
}

#[test]
fn collecting_units_and_strings() {
    let chars = [Utf16Char::from('a'), Utf16Char::from('🂠'), Utf16Char::from('ø')];
    assert_eq!(Utf16Char::collect_units(&chars), vec![0x61, 0xd83c, 0xdca0, 0xf8]);
    let mut units = vec![1u16];
    Utf16Char::extend_units(&mut units, &chars);
    assert_eq!(units, vec![1, 0x61, 0xd83c, 0xdca0, 0xf8]);
    assert_eq!(Utf16Char::collect_string(&chars), "a🂠ø");
    let mut s = String::from(">");
    Utf16Char::extend_string(&mut s, &chars);
    assert_eq!(s, ">a🂠ø");
    assert_eq!(Utf16Char::collect_units(&[]), Vec::<u16>::new());
}

#[test]
fn default_is_nul() {
    assert_eq!(Utf16Char::default(), '\0');
    assert_eq!(Utf16Char::default().len(), 1);
}

#[test]
fn hash_follows_char() {
    let hash_of = |x: &dyn Fn(&mut DefaultHasher)| {
        let mut h = DefaultHasher::new();
        x(&mut h);
        h.finish()
    };
    let u = Utf16Char::from('🂠');
    assert_eq!(hash_of(&|h| u.hash(h)), hash_of(&|h| '🂠'.hash(h)));
}

#[test]
fn ascii_chars() {
    let a = Utf16Char::from_ascii_char(AsciiChar::a);
    assert_eq!(a, 'a');
    assert_eq!(Utf16Char::from('a').to_ascii_char().unwrap(), AsciiChar::a);
    assert!(Utf16Char::from('ø').to_ascii_char().is_err());
    assert!(Utf16Char::from('🂠').to_ascii_char().is_err());
    assert_eq!(Utf16Char::from('~').to_ascii_char_unchecked(), AsciiChar::Tilde);
    assert!(Utf16Char::from('a').eq_ascii_char(&AsciiChar::a));
    assert!(!Utf16Char::from('b').eq_ascii_char(&AsciiChar::a));
    assert!(!Utf16Char::from('🂠').eq_ascii_char(&AsciiChar::a));
    assert_eq!(Utf16Char::from('b').partial_cmp_ascii_char(&AsciiChar::a), Some(Ordering::Greater));
    assert_eq!(Utf16Char::from('A').partial_cmp_ascii_char(&AsciiChar::a), Some(Ordering::Less));
    assert_eq!(Utf16Char::from('ø').partial_cmp_ascii_char(&AsciiChar::DEL), Some(Ordering::Greater));
}

#[test]
fn ascii_chars_both_directions() {
    let a = Utf16Char::from('a');
    assert!(a == AsciiChar::a);
    assert!(AsciiChar::a == a);
    assert!(AsciiChar::b != a);
    assert!(Utf16Char::from('🂠') != AsciiChar::a);
    assert!(AsciiChar::a != Utf16Char::from('🂠'));
    assert_eq!(a.partial_cmp(&AsciiChar::b), Some(Ordering::Less));
    assert_eq!(AsciiChar::b.partial_cmp(&a), Some(Ordering::Greater));
    assert_eq!(AsciiChar::a.partial_cmp(&a), Some(Ordering::Equal));
    assert_eq!(AsciiChar::DEL.partial_cmp(&Utf16Char::from('ø')), Some(Ordering::Less));
    assert_eq!(Utf16Char::from('🂠').partial_cmp(&AsciiChar::DEL), Some(Ordering::Greater));
}

#[test]
fn from_ascii_char_trait() {
    assert_eq!(Utf16Char::from(AsciiChar::a), 'a');
    assert_eq!(Utf16Char::from(AsciiChar::DEL).to_tuple(), (0x7f, None));
    let u: Utf16Char = AsciiChar::Tilde.into();
    assert_eq!(u, Utf16Char::from_ascii_char(AsciiChar::Tilde));
}
