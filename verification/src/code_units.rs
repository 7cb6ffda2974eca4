//! UTF-16 as a relation between character sequences and 16-bit code units.
//!
//! A character below `U+10000` is one unit holding its scalar value. Any other
//! character is a pair of units, a high surrogate followed by a low surrogate,
//! which share the twenty bits of the scalar value minus `0x10000`. A unit
//! sequence is well formed when it splits into such single units and pairs.

use vstd::prelude::*;

verus! {

/// True for the units `0xD800..=0xDBFF`, which open a surrogate pair.
pub open spec fn is_high_surrogate(unit: u16) -> bool {
    0xD800 <= unit <= 0xDBFF
}

/// True for the units `0xDC00..=0xDFFF`, which close a surrogate pair.
pub open spec fn is_low_surrogate(unit: u16) -> bool {
    0xDC00 <= unit <= 0xDFFF
}

/// True for the units that cannot stand for a character on their own.
pub open spec fn is_surrogate(unit: u16) -> bool {
    0xD800 <= unit <= 0xDFFF
}

/// True when `c` lies outside the basic plane and so takes two units.
pub open spec fn is_supplementary(c: char) -> bool {
    c as u32 >= 0x1_0000
}

/// First unit of the pair that encodes the supplementary character `c`.
pub open spec fn high_surrogate(c: char) -> u16
    recommends
        is_supplementary(c),
{
    (0xD800 + (c as u32 - 0x1_0000) / 0x400) as u16
}

/// Second unit of the pair that encodes the supplementary character `c`.
pub open spec fn low_surrogate(c: char) -> u16
    recommends
        is_supplementary(c),
{
    (0xDC00 + (c as u32 - 0x1_0000) % 0x400) as u16
}

/// The one or two units that encode `c`.
pub open spec fn encode_char(c: char) -> Seq<u16> {
    if is_supplementary(c) {
        seq![high_surrogate(c), low_surrogate(c)]
    } else {
        seq![c as u16]
    }
}

/// The UTF-16 encoding of `text`.
pub open spec fn encode_utf16(text: Seq<char>) -> Seq<u16>
    decreases text.len(),
{
    if text.len() == 0 {
        seq![]
    } else {
        encode_char(text[0]) + encode_utf16(text.drop_first())
    }
}

/// The character encoded by the surrogate pair `high`, `low`.
pub open spec fn combine(high: u16, low: u16) -> char
    recommends
        is_high_surrogate(high),
        is_low_surrogate(low),
{
    (0x1_0000 + (high - 0xD800) * 0x400 + (low - 0xDC00)) as char
}

/// True when `units` starts with a single non-surrogate unit or with a complete surrogate pair.
pub open spec fn valid_first_char(units: Seq<u16>) -> bool {
    &&& units.len() >= 1
    &&& is_surrogate(units[0]) ==> {
        &&& is_high_surrogate(units[0])
        &&& units.len() >= 2
        &&& is_low_surrogate(units[1])
    }
}

/// Number of units taken by the first character of `units`.
pub open spec fn length_of_first_char(units: Seq<u16>) -> int
    recommends
        valid_first_char(units),
{
    if is_surrogate(units[0]) {
        2
    } else {
        1
    }
}

/// The first character encoded in `units`.
pub open spec fn decode_first_char(units: Seq<u16>) -> char
    recommends
        valid_first_char(units),
{
    if is_surrogate(units[0]) {
        combine(units[0], units[1])
    } else {
        units[0] as char
    }
}

/// True when `units` is well-formed UTF-16: every surrogate belongs to a
/// pair of a high surrogate directly followed by a low one.
pub open spec fn valid_utf16(units: Seq<u16>) -> bool
    decreases units.len(),
{
    units.len() != 0 ==> valid_first_char(units) && valid_utf16(
        units.skip(length_of_first_char(units)),
    )
}

/// The characters encoded by the well-formed sequence `units`.
pub open spec fn decode_utf16(units: Seq<u16>) -> Seq<char>
    recommends
        valid_utf16(units),
    decreases units.len(),
    when valid_utf16(units)
{
    if units.len() == 0 {
        seq![]
    } else {
        seq![decode_first_char(units)] + decode_utf16(units.skip(length_of_first_char(units)))
    }
}

/// The units of a character decode to that character, whatever follows them.
pub proof fn lemma_encode_char_first(c: char, rest: Seq<u16>)
    ensures
        valid_first_char(encode_char(c) + rest),
        length_of_first_char(encode_char(c) + rest) == encode_char(c).len(),
        decode_first_char(encode_char(c) + rest) == c,
        (encode_char(c) + rest).skip(encode_char(c).len() as int) == rest,
{
    let units = encode_char(c) + rest;
    assert(units[0] == encode_char(c)[0]);
    if is_supplementary(c) {
        assert(units[1] == encode_char(c)[1]);
    }
    assert(units.skip(encode_char(c).len() as int) =~= rest);
}

/// The first character of a sequence encodes to the units it was read from.
pub proof fn lemma_decode_first_char(units: Seq<u16>)
    requires
        valid_first_char(units),
    ensures
        encode_char(decode_first_char(units)) == units.take(length_of_first_char(units)),
{
    assert(encode_char(decode_first_char(units)) =~= units.take(length_of_first_char(units)));
}

/// Encoding distributes over appending a character.
pub proof fn lemma_encode_utf16_push(text: Seq<char>, c: char)
    ensures
        encode_utf16(text.push(c)) == encode_utf16(text) + encode_char(c),
    decreases text.len(),
{
    if text.len() == 0 {
        assert(text.push(c).drop_first() =~= text);
        assert(encode_utf16(text.push(c)) =~= encode_utf16(text) + encode_char(c));
    } else {
        assert(text.push(c).drop_first() =~= text.drop_first().push(c));
        lemma_encode_utf16_push(text.drop_first(), c);
        assert(encode_utf16(text.push(c)) =~= encode_utf16(text) + encode_char(c));
    }
}

/// Every encoding is well formed and decodes to the text it came from.
pub proof fn lemma_encode_then_decode(text: Seq<char>)
    ensures
        valid_utf16(encode_utf16(text)),
        decode_utf16(encode_utf16(text)) == text,
    decreases text.len(),
{
    if text.len() != 0 {
        let rest = encode_utf16(text.drop_first());
        lemma_encode_char_first(text[0], rest);
        lemma_encode_then_decode(text.drop_first());
        assert(decode_utf16(encode_utf16(text)) =~= text);
    }
}

/// Every well-formed unit sequence is the encoding of the text it decodes to.
pub proof fn lemma_decode_then_encode(units: Seq<u16>)
    requires
        valid_utf16(units),
    ensures
        encode_utf16(decode_utf16(units)) == units,
    decreases units.len(),
{
    if units.len() != 0 {
        let n = length_of_first_char(units);
        let text = decode_utf16(units);
        lemma_decode_first_char(units);
        lemma_decode_then_encode(units.skip(n));
        assert(text.drop_first() =~= decode_utf16(units.skip(n)));
        assert(units =~= units.take(n) + units.skip(n));
    }
}

} // verus!
