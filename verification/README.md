# encode_unicode (UTF-16 characters), verified

`Utf16Char` holds one Unicode scalar value as UTF-16: one unit, or a
surrogate pair. Its type invariant is that the units are exactly the UTF-16
encoding of one `char`; its view is the pair of units (second unit zero when
unused), and contracts speak of `utf16_of(c)` and `decode_units(u)`.

- `src/utf16.rs`: the UTF-16 encoding as spec functions, and the unit-level
  operations (`to_utf16_tuple`, `from_utf16_tuple`, `from_utf16_slice_start`).
- `src/utf16_char.rs`: the type, its constructors, accessors, ASCII case
  operations and comparisons with units, bytes and `char`.
- `src/from_utf8.rs`: reading the first codepoint of a `&str`, `FromStr`, and
  conversion from `Utf8Char`, proved against vstd's UTF-8 specification.
- `src/utf8_char.rs`: `Utf8Char`, a codepoint stored as UTF-8.
- `src/ordering.rs`: ordering by codepoint.
- `src/collect.rs`: gathering characters into units or a `String`.
- `src/ascii_char.rs`: interplay with the `ascii` crate's `AsciiChar`.
- `src/laws.rs`: properties across operations, proved.
- `app/`: `Display` and a `char`-like `Debug` on a wrapper type.
