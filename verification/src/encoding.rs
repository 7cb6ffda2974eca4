//! The recognised encodings and the bytes that text takes in each of them.

use crate::code_units::{encode_char, encode_utf16, lemma_encode_utf16_push};
use crate::constants::{UTF16BE_BOM, UTF16LE_BOM, UTF8_BOM};
use crate::utf16::{lemma_unpack_concat, unpack, ByteOrder};
use vstd::prelude::*;
use vstd::slice::slice_to_vec;
use vstd::utf8::encode_utf8;

verus! {

/// The encodings that detection recognises.
#[derive(Debug, PartialEq, Eq, Clone, Copy)]
pub enum Encoding {
    /// UTF-8 without a byte-order mark.
    Utf8,
    /// UTF-8 behind the byte-order mark `EF BB BF`.
    Utf8WithBom,
    /// Big-endian UTF-16 behind the byte-order mark `FE FF`.
    Utf16Be,
    /// Little-endian UTF-16 behind the byte-order mark `FF FE`.
    Utf16Le,
}

impl Encoding {
    /// The name under which the encoding is shown.
    pub open spec fn label(self) -> Seq<char> {
        match self {
            Encoding::Utf8 => "UTF-8"@,
            Encoding::Utf8WithBom => "UTF-8-BOM"@,
            Encoding::Utf16Be => "UTF-16-BE"@,
            Encoding::Utf16Le => "UTF-16-LE"@,
        }
    }

    /// The byte-order mark that opens a buffer in this encoding; empty for plain UTF-8.
    pub open spec fn bom(self) -> Seq<u8> {
        match self {
            Encoding::Utf8 => Seq::empty(),
            Encoding::Utf8WithBom => UTF8_BOM@,
            Encoding::Utf16Be => UTF16BE_BOM@,
            Encoding::Utf16Le => UTF16LE_BOM@,
        }
    }

    /// The bytes that `text` takes in this encoding, without the byte-order mark.
    pub open spec fn payload(self, text: Seq<char>) -> Seq<u8> {
        match self {
            Encoding::Utf8 => encode_utf8(text),
            Encoding::Utf8WithBom => encode_utf8(text),
            Encoding::Utf16Be => unpack(encode_utf16(text), ByteOrder::Big),
            Encoding::Utf16Le => unpack(encode_utf16(text), ByteOrder::Little),
        }
    }

    /// The name under which the encoding is shown.
    pub fn to_string(&self) -> (label: String)
        ensures
            label@ == self.label(),
    {
        match self {
            Encoding::Utf8 => "UTF-8".to_owned(),
            Encoding::Utf8WithBom => "UTF-8-BOM".to_owned(),
            Encoding::Utf16Be => "UTF-16-BE".to_owned(),
            Encoding::Utf16Le => "UTF-16-LE".to_owned(),
        }
    }
}

impl From<Encoding> for String {
    /// The name under which the encoding is shown.
    fn from(encoding: Encoding) -> (label: String)
        ensures
            label@ == encoding.label(),
    {
        encoding.to_string()
    }
}

/// The conversion is described by the contract of `from` above, over the
/// view of the string. The equation of this trait would compare the strings
/// themselves, which only their views can tell apart, so it is not claimed.
impl vstd::std_specs::convert::FromSpecImpl<Encoding> for String {
    open spec fn obeys_from_spec() -> bool {
        false
    }

    open spec fn from_spec(encoding: Encoding) -> String {
        choose|label: String| label@ == encoding.label()
    }
}

/// The bytes of `text` in `encoding`: the byte-order mark, then the encoded characters.
pub open spec fn encoded(text: Seq<char>, encoding: Encoding) -> Seq<u8> {
    encoding.bom() + encoding.payload(text)
}

/// The byte-order mark of UTF-16 in the given byte order.
pub open spec fn utf16_bom(order: ByteOrder) -> Seq<u8> {
    match order {
        ByteOrder::Big => UTF16BE_BOM@,
        ByteOrder::Little => UTF16LE_BOM@,
    }
}

/// Appends the two bytes of `unit` in the given order.
fn push_unit(bytes: &mut Vec<u8>, unit: u16, order: ByteOrder)
    ensures
        final(bytes)@ == old(bytes)@ + unpack(seq![unit], order),
{
    let high: u8 = (unit / 256) as u8;
    let low: u8 = (unit % 256) as u8;
    match order {
        ByteOrder::Big => {
            bytes.push(high);
            bytes.push(low);
        },
        ByteOrder::Little => {
            bytes.push(low);
            bytes.push(high);
        },
    }
    assert(bytes@ =~= old(bytes)@ + unpack(seq![unit], order));
}

/// Appends the UTF-16 units of `c`, each in the given byte order.
fn push_char(bytes: &mut Vec<u8>, c: char, order: ByteOrder)
    ensures
        final(bytes)@ == old(bytes)@ + unpack(encode_char(c), order),
{
    let scalar: u32 = c as u32;
    if scalar < 0x1_0000 {
        push_unit(bytes, scalar as u16, order);
    } else {
        let offset: u32 = scalar - 0x1_0000;
        let high: u16 = (0xD800 + offset / 0x400) as u16;
        let low: u16 = (0xDC00 + offset % 0x400) as u16;
        push_unit(bytes, high, order);
        push_unit(bytes, low, order);
        proof {
            assert(encode_char(c) =~= seq![high] + seq![low]);
            lemma_unpack_concat(seq![high], seq![low], order);
        }
    }
}

/// Encodes `s` as UTF-16 in the given byte order, behind the matching byte-order mark.
fn to_utf16(s: &str, order: ByteOrder) -> (bytes: Vec<u8>)
    ensures
        bytes@ == utf16_bom(order) + unpack(encode_utf16(s@), order),
{
    let mut bytes: Vec<u8> = match order {
        ByteOrder::Big => slice_to_vec(UTF16BE_BOM.as_slice()),
        ByteOrder::Little => slice_to_vec(UTF16LE_BOM.as_slice()),
    };
    proof {
        assert(s@.take(0) =~= Seq::<char>::empty());
        assert(bytes@ =~= utf16_bom(order) + unpack(encode_utf16(s@.take(0)), order));
    }
    for c in chars: s.chars()
        invariant
            chars.seq() == s@,
            bytes@ == utf16_bom(order) + unpack(encode_utf16(s@.take(chars.index())), order),
    {
        proof {
            let done = s@.take(chars.index());
            assert(s@.take(chars.index() + 1) =~= done.push(c));
            lemma_encode_utf16_push(done, c);
            lemma_unpack_concat(encode_utf16(done), encode_char(c), order);
        }
        push_char(&mut bytes, c, order);
    }
    assert(s@.take(s@.len() as int) =~= s@);
    bytes
}

/// Encodes `s` as UTF-8 behind the UTF-8 byte-order mark.
fn utf8_behind_mark(s: &str) -> (bytes: Vec<u8>)
    ensures
        bytes@ == UTF8_BOM@ + encode_utf8(s@),
{
    let mut bytes: Vec<u8> = slice_to_vec(UTF8_BOM.as_slice());
    bytes.extend_from_slice(s.as_bytes());
    assert(bytes@ =~= UTF8_BOM@ + encode_utf8(s@));
    bytes
}

/// Encodes `s` as UTF-8 behind the UTF-8 byte-order mark.
///
/// The mark is written for the empty string too.
pub fn to_utf8_bom(s: &String) -> (bytes: Vec<u8>)
    ensures
        bytes@ == encoded(s@, Encoding::Utf8WithBom),
{
    utf8_behind_mark(s.as_str())
}

/// Encodes `s` as big-endian UTF-16 behind the byte-order mark `FE FF`.
///
/// A character outside the basic plane becomes a surrogate pair.
pub fn to_utf16_be(s: &str) -> (bytes: Vec<u8>)
    ensures
        bytes@ == encoded(s@, Encoding::Utf16Be),
{
    to_utf16(s, ByteOrder::Big)
}

/// Encodes `s` as little-endian UTF-16 behind the byte-order mark `FF FE`.
///
/// A character outside the basic plane becomes a surrogate pair.
pub fn to_utf16_le(s: &str) -> (bytes: Vec<u8>)
    ensures
        bytes@ == encoded(s@, Encoding::Utf16Le),
{
    to_utf16(s, ByteOrder::Little)
}

/// Encodes `text` in `encoding`: the byte-order mark of the encoding, if it
/// has one, then the characters of `text`. Every text can be encoded.
pub fn encode(text: &str, encoding: Encoding) -> (bytes: Vec<u8>)
    ensures
        bytes@ == encoded(text@, encoding),
{
    match encoding {
        Encoding::Utf8 => slice_to_vec(text.as_bytes()),
        Encoding::Utf8WithBom => utf8_behind_mark(text),
        Encoding::Utf16Be => to_utf16_be(text),
        Encoding::Utf16Le => to_utf16_le(text),
    }
}

} // verus!
