//! What holds of detection and encoding together: text that was encoded is
//! detected again, what was detected encodes to the bytes it came from, and
//! a byte-order mark decides before anything else is looked at.

use crate::code_units::{
    decode_utf16, encode_utf16, lemma_decode_then_encode, lemma_encode_then_decode, valid_utf16,
};
use crate::constants::{
    BINARY_DETECTION_THRESHOLD, UTF16BE_BOM, UTF16LE_BOM, UTF8_BOM, ZERO_BYTE,
};
use crate::encoding::{encoded, Encoding};
use crate::file::{content_of, stored};
use crate::text_data::{detect, detect_utf16, detect_utf8, looks_binary, Detection};
use crate::utf16::{lemma_pack_unpack, lemma_unpack_pack, pack, unpack, ByteOrder};
use vstd::prelude::*;
use vstd::utf8::{
    char_u32_cast, decode_first_scalar, decode_utf8, decode_utf8_encode_utf8, encode_scalar,
    encode_utf8, encode_utf8_decode_utf8, encode_utf8_first_scalar, encode_utf8_valid_utf8,
    valid_utf8,
};

verus! {

/// True when `bytes` begins with none of the three byte-order marks.
pub open spec fn unmarked(bytes: Seq<u8>) -> bool {
    &&& !UTF8_BOM@.is_prefix_of(bytes)
    &&& !UTF16BE_BOM@.is_prefix_of(bytes)
    &&& !UTF16LE_BOM@.is_prefix_of(bytes)
}

/// A buffer that begins with a byte-order mark begins with the first byte of
/// that mark, and the three marks differ in their first byte.
proof fn lemma_first_byte_of_mark(bytes: Seq<u8>)
    ensures
        UTF8_BOM@.is_prefix_of(bytes) ==> bytes[0] == 0xEF,
        UTF16BE_BOM@.is_prefix_of(bytes) ==> bytes[0] == 0xFE,
        UTF16LE_BOM@.is_prefix_of(bytes) ==> bytes[0] == 0xFF,
{
    assert(UTF8_BOM@[0] == 0xEF && UTF16BE_BOM@[0] == 0xFE && UTF16LE_BOM@[0] == 0xFF);
    if bytes.len() >= 2 {
        assert(bytes.subrange(0, 2)[0] == bytes[0]);
    }
    if bytes.len() >= 3 {
        assert(bytes.subrange(0, 3)[0] == bytes[0]);
    }
}

/// A buffer made of a mark and a body begins with the mark and holds the body behind it.
proof fn lemma_mark_then_body(mark: Seq<u8>, body: Seq<u8>)
    ensures
        mark.is_prefix_of(mark + body),
        (mark + body).skip(mark.len() as int) == body,
{
    assert(mark =~= (mark + body).subrange(0, mark.len() as int));
    assert((mark + body).skip(mark.len() as int) =~= body);
}

/// Valid UTF-8 never begins with a UTF-16 byte-order mark: `FE` and `FF` occur in no UTF-8 text.
pub proof fn lemma_utf8_has_no_utf16_mark(bytes: Seq<u8>)
    requires
        valid_utf8(bytes),
    ensures
        !UTF16BE_BOM@.is_prefix_of(bytes),
        !UTF16LE_BOM@.is_prefix_of(bytes),
{
    lemma_first_byte_of_mark(bytes);
}

/// The three bytes of the UTF-8 mark are the UTF-8 form of the character `U+FEFF`.
proof fn lemma_mark_character()
    ensures
        encode_scalar(0xFEFF) == UTF8_BOM@,
{
    assert(0xE0u8 | ((0xFEFFu32 >> 12) & 0x0F) as u8 == 0xEF) by (bit_vector);
    assert(0x80u8 | ((0xFEFFu32 >> 6) & 0x3F) as u8 == 0xBB) by (bit_vector);
    assert(0x80u8 | (0xFEFFu32 & 0x3F) as u8 == 0xBF) by (bit_vector);
    assert(encode_scalar(0xFEFF) =~= UTF8_BOM@);
}

/// The UTF-8 form of a text begins with the UTF-8 mark exactly when the text
/// begins with the character `U+FEFF`.
pub proof fn theorem_utf8_mark_is_a_character(text: Seq<char>)
    ensures
        UTF8_BOM@.is_prefix_of(encode_utf8(text)) <==> text.len() > 0 && text[0] == '\u{FEFF}',
{
    let bytes = encode_utf8(text);
    lemma_mark_character();
    if text.len() > 0 {
        let first = encode_scalar(text[0] as u32);
        let rest = encode_utf8(text.drop_first());
        assert(bytes == first + rest);
        if text[0] == '\u{FEFF}' {
            lemma_mark_then_body(UTF8_BOM@, rest);
        }
        if UTF8_BOM@.is_prefix_of(bytes) {
            encode_utf8_first_scalar(text);
            assert(bytes.subrange(0, 3)[0] == bytes[0]);
            assert(bytes.subrange(0, 3)[1] == bytes[1]);
            assert(bytes.subrange(0, 3)[2] == bytes[2]);
            assert(((0xEFu8 & 0x0F) as u32) << 12 | ((0xBBu8 & 0x3F) as u32) << 6 | (0xBFu8
                & 0x3F) as u32 == 0xFEFF) by (bit_vector);
            assert(decode_first_scalar(bytes) == 0xFEFF);
            char_u32_cast(text[0], 0xFEFF);
            char_u32_cast('\u{FEFF}', 0xFEFF);
        }
    }
}

/// Decoding what was encoded gives the text and the encoding back.
///
/// This holds for every text in the three marked encodings. Plain UTF-8
/// carries no mark, so there the encoded bytes must not be mistaken for
/// something else: they must not begin with the UTF-8 byte-order mark, and
/// must hold no zero byte where the binary heuristic looks.
pub proof fn theorem_detect_encoded(text: Seq<char>, encoding: Encoding)
    requires
        encoding == Encoding::Utf8 ==> !UTF8_BOM@.is_prefix_of(encode_utf8(text)) && !looks_binary(
            encode_utf8(text),
        ),
    ensures
        detect(encoded(text, encoding)) == (Detection::Text { text, encoding }),
{
    let bytes = encoded(text, encoding);
    encode_utf8_valid_utf8(text);
    encode_utf8_decode_utf8(text);
    lemma_encode_then_decode(text);
    lemma_first_byte_of_mark(bytes);
    lemma_mark_then_body(encoding.bom(), encoding.payload(text));
    match encoding {
        Encoding::Utf8 => {
            assert(bytes =~= encode_utf8(text));
            lemma_utf8_has_no_utf16_mark(bytes);
        },
        Encoding::Utf8WithBom => {},
        Encoding::Utf16Be => {
            lemma_pack_unpack(encode_utf16(text), ByteOrder::Big);
        },
        Encoding::Utf16Le => {
            lemma_pack_unpack(encode_utf16(text), ByteOrder::Little);
        },
    }
}

/// Plain UTF-8 gives back what went in for every text that does not begin
/// with the character `U+FEFF` and whose UTF-8 form holds no zero byte where
/// the binary heuristic looks. Zero bytes past that window do no harm.
pub proof fn theorem_detect_plain_utf8(text: Seq<char>)
    requires
        text.len() > 0 ==> text[0] != '\u{FEFF}',
        !looks_binary(encode_utf8(text)),
    ensures
        detect(encoded(text, Encoding::Utf8)) == (Detection::Text {
            text,
            encoding: Encoding::Utf8,
        }),
{
    theorem_utf8_mark_is_a_character(text);
    theorem_detect_encoded(text, Encoding::Utf8);
}

/// The UTF-16 text found in an even number of bytes takes those bytes again when encoded.
proof fn lemma_encode_detected_utf16(body: Seq<u8>, order: ByteOrder)
    requires
        body.len() % 2 == 0,
        valid_utf16(pack(body, order)),
    ensures
        unpack(encode_utf16(decode_utf16(pack(body, order))), order) == body,
{
    lemma_decode_then_encode(pack(body, order));
    lemma_unpack_pack(body, order);
}

/// Encoding what was detected reproduces the buffer byte for byte.
pub proof fn theorem_encode_detected(bytes: Seq<u8>)
    ensures
        detect(bytes) matches Detection::Text { text, encoding } ==> encoded(text, encoding)
            == bytes,
{
    if let Detection::Text { text, encoding } = detect(bytes) {
        let body = bytes.skip(encoding.bom().len() as int);
        assert(encoding.bom() + body =~= bytes);
        match encoding {
            Encoding::Utf8 => {
                decode_utf8_encode_utf8(body);
            },
            Encoding::Utf8WithBom => {
                decode_utf8_encode_utf8(body);
            },
            Encoding::Utf16Be => {
                lemma_encode_detected_utf16(body, ByteOrder::Big);
            },
            Encoding::Utf16Le => {
                lemma_encode_detected_utf16(body, ByteOrder::Little);
            },
        }
    }
}

/// Storing the content found in a buffer reproduces the buffer byte for byte,
/// whether the content is text or binary.
pub proof fn theorem_store_loaded(bytes: Seq<u8>)
    ensures
        content_of(bytes) matches Some(content) ==> stored(content) == bytes,
{
    theorem_encode_detected(bytes);
}

/// A buffer that begins with a byte-order mark never becomes binary content:
/// it holds text, or it holds no content and its failure is reported.
pub proof fn theorem_marked_content_is_text(bytes: Seq<u8>)
    requires
        !unmarked(bytes),
    ensures
        content_of(bytes) matches Some(content) ==> content is Encoded,
        content_of(bytes) is None <==> detect(bytes) is MalformedUtf8 || detect(bytes)
            is MalformedUtf16 || detect(bytes) is UnevenLength,
{
    lemma_first_byte_of_mark(bytes);
}

/// A buffer that begins with the little-endian UTF-16 mark is read as
/// little-endian UTF-16 and as nothing else: whatever follows the mark, zero
/// bytes included, the outcome is never binary and never UTF-8.
pub proof fn theorem_utf16le_mark_commits(bytes: Seq<u8>)
    requires
        UTF16LE_BOM@.is_prefix_of(bytes),
    ensures
        detect(bytes) == detect_utf16(bytes.skip(2), ByteOrder::Little, Encoding::Utf16Le),
        detect(bytes) !is Binary,
        detect(bytes) !is MalformedUtf8,
        detect(bytes) matches Detection::Text { encoding, .. } ==> encoding == Encoding::Utf16Le,
{
    lemma_first_byte_of_mark(bytes);
}

/// A buffer that begins with the big-endian UTF-16 mark is read as big-endian
/// UTF-16 and as nothing else.
pub proof fn theorem_utf16be_mark_commits(bytes: Seq<u8>)
    requires
        UTF16BE_BOM@.is_prefix_of(bytes),
    ensures
        detect(bytes) == detect_utf16(bytes.skip(2), ByteOrder::Big, Encoding::Utf16Be),
        detect(bytes) !is Binary,
        detect(bytes) !is MalformedUtf8,
        detect(bytes) matches Detection::Text { encoding, .. } ==> encoding == Encoding::Utf16Be,
{
    lemma_first_byte_of_mark(bytes);
}

/// A buffer that begins with the UTF-8 mark is read as UTF-8 behind a mark
/// and as nothing else.
pub proof fn theorem_utf8_mark_commits(bytes: Seq<u8>)
    requires
        UTF8_BOM@.is_prefix_of(bytes),
    ensures
        detect(bytes) == detect_utf8(bytes.skip(3), Encoding::Utf8WithBom),
        detect(bytes) !is Binary,
        detect(bytes) !is MalformedUtf16,
        detect(bytes) !is UnevenLength,
        detect(bytes) matches Detection::Text { encoding, .. } ==> encoding
            == Encoding::Utf8WithBom,
{
}

/// Only the inspected window counts: the bytes behind it never change
/// whether a buffer looks binary.
pub proof fn theorem_binary_window(bytes: Seq<u8>)
    requires
        bytes.len() >= BINARY_DETECTION_THRESHOLD,
    ensures
        looks_binary(bytes) == looks_binary(bytes.take(BINARY_DETECTION_THRESHOLD as int)),
{
    let window = bytes.take(BINARY_DETECTION_THRESHOLD as int);
    if looks_binary(bytes) {
        let i = choose|i: int|
            0 <= i < bytes.len() && i < BINARY_DETECTION_THRESHOLD && #[trigger] bytes[i]
                == ZERO_BYTE;
        assert(window[i] == ZERO_BYTE);
    }
    if looks_binary(window) {
        let i = choose|i: int|
            0 <= i < window.len() && i < BINARY_DETECTION_THRESHOLD && #[trigger] window[i]
                == ZERO_BYTE;
        assert(bytes[i] == ZERO_BYTE);
    }
}

/// A zero byte inside the inspected window makes an unmarked buffer binary.
pub proof fn theorem_zero_byte_in_window(bytes: Seq<u8>, position: int)
    requires
        unmarked(bytes),
        0 <= position < bytes.len(),
        position < BINARY_DETECTION_THRESHOLD,
        bytes[position] == ZERO_BYTE,
    ensures
        detect(bytes) == Detection::Binary,
{
}

/// Zero bytes past the inspected window do not make a buffer binary: an
/// unmarked buffer with no zero byte inside the window is read as plain
/// UTF-8, whatever it holds further on, and is text if it is valid UTF-8.
pub proof fn theorem_zero_bytes_past_window(bytes: Seq<u8>)
    requires
        unmarked(bytes),
        forall|i: int|
            0 <= i < bytes.len() && i < BINARY_DETECTION_THRESHOLD ==> bytes[i] != ZERO_BYTE,
    ensures
        detect(bytes) !is Binary,
        detect(bytes) == detect_utf8(bytes, Encoding::Utf8),
        valid_utf8(bytes) ==> detect(bytes) == (Detection::Text {
            text: decode_utf8(bytes),
            encoding: Encoding::Utf8,
        }),
{
}

/// A buffer with a UTF-16 mark and an odd number of bytes behind it is
/// rejected for its length; nothing is decoded from it.
pub proof fn theorem_uneven_utf16(bytes: Seq<u8>)
    requires
        UTF16BE_BOM@.is_prefix_of(bytes) || UTF16LE_BOM@.is_prefix_of(bytes),
        (bytes.len() - 2) % 2 == 1,
    ensures
        detect(bytes) == Detection::UnevenLength,
{
    lemma_first_byte_of_mark(bytes);
}

} // verus!
