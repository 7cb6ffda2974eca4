//! Detection of the encoding of a byte buffer, and the text it decodes to.

use crate::code_units::{decode_utf16, valid_utf16};
use crate::constants::{
    BINARY_DETECTION_THRESHOLD, UTF16BE_BOM, UTF16LE_BOM, UTF16_BOM_LENGTH, UTF8_BOM,
    UTF8_BOM_LENGTH, ZERO_BYTE,
};
use crate::encoding::Encoding;
use crate::utf16::{pack, to_u16_be, to_u16_le, ByteOrder, UnevenByteSequenceError};
use vstd::prelude::*;
use vstd::slice::{slice_subrange, slice_to_vec};
use vstd::utf8::{decode_utf8, valid_utf8};

verus! {

/// Decoded text together with the encoding it was found in.
#[derive(Debug, PartialEq)]
pub struct TextData {
    /// The decoded text.
    pub data: String,
    /// The encoding of the bytes that `data` was decoded from.
    pub encoding: Encoding,
}

/// Why a buffer could not be decoded as text.
#[derive(Debug)]
pub enum TextDataError {
    /// The bytes are not valid UTF-8. The error is the one that the standard
    /// library reports, which tells where the valid part of the bytes ends.
    FromUtf8(std::string::FromUtf8Error),
    /// The 16-bit units are not well-formed UTF-16: a surrogate stands alone
    /// or out of order. The error is the one that the standard library reports.
    FromUtf16(std::string::FromUtf16Error),
    /// A UTF-16 buffer has an odd number of bytes after its byte-order mark.
    UnevenByteSequence(UnevenByteSequenceError),
    /// The buffer is binary data, not text.
    Binary,
}

/// What detection makes of a byte buffer.
pub enum Detection {
    /// The buffer holds `text` in `encoding`.
    Text { text: Seq<char>, encoding: Encoding },
    /// The buffer has no byte-order mark and a zero byte near its start.
    Binary,
    /// The buffer is committed to UTF-8 and is not valid UTF-8.
    MalformedUtf8,
    /// The buffer is committed to UTF-16 and its units are not well formed.
    MalformedUtf16,
    /// The buffer is committed to UTF-16 and has an odd number of bytes after the mark.
    UnevenLength,
}

/// True when a zero byte stands among the first [`BINARY_DETECTION_THRESHOLD`] bytes.
pub open spec fn looks_binary(bytes: Seq<u8>) -> bool {
    exists|i: int|
        0 <= i < bytes.len() && i < BINARY_DETECTION_THRESHOLD && #[trigger] bytes[i] == ZERO_BYTE
}

/// The outcome for bytes that are committed to UTF-8.
pub open spec fn detect_utf8(bytes: Seq<u8>, encoding: Encoding) -> Detection {
    if valid_utf8(bytes) {
        Detection::Text { text: decode_utf8(bytes), encoding }
    } else {
        Detection::MalformedUtf8
    }
}

/// The outcome for bytes that are committed to UTF-16 in the given byte order.
pub open spec fn detect_utf16(bytes: Seq<u8>, order: ByteOrder, encoding: Encoding) -> Detection {
    if bytes.len() % 2 != 0 {
        Detection::UnevenLength
    } else if valid_utf16(pack(bytes, order)) {
        Detection::Text { text: decode_utf16(pack(bytes, order)), encoding }
    } else {
        Detection::MalformedUtf16
    }
}

/// The outcome of detection on `bytes`.
///
/// A byte-order mark commits the buffer to its encoding: the first mark that
/// matches decides, and a failure behind it is reported, never reread as
/// binary or as plain UTF-8. Only a buffer without a mark is tested for
/// binary content, and is otherwise plain UTF-8.
pub open spec fn detect(bytes: Seq<u8>) -> Detection {
    if UTF8_BOM@.is_prefix_of(bytes) {
        detect_utf8(bytes.skip(UTF8_BOM_LENGTH as int), Encoding::Utf8WithBom)
    } else if UTF16BE_BOM@.is_prefix_of(bytes) {
        detect_utf16(bytes.skip(UTF16_BOM_LENGTH as int), ByteOrder::Big, Encoding::Utf16Be)
    } else if UTF16LE_BOM@.is_prefix_of(bytes) {
        detect_utf16(bytes.skip(UTF16_BOM_LENGTH as int), ByteOrder::Little, Encoding::Utf16Le)
    } else if looks_binary(bytes) {
        Detection::Binary
    } else {
        detect_utf8(bytes, Encoding::Utf8)
    }
}

impl TextDataError {
    /// The detection outcome that this error reports.
    pub open spec fn detection(&self) -> Detection {
        match self {
            TextDataError::FromUtf8(_) => Detection::MalformedUtf8,
            TextDataError::FromUtf16(_) => Detection::MalformedUtf16,
            TextDataError::UnevenByteSequence(_) => Detection::UnevenLength,
            TextDataError::Binary => Detection::Binary,
        }
    }
}

/// The detection outcome that a result of [`TextData::try_from`] stands for.
pub open spec fn outcome(result: Result<TextData, TextDataError>) -> Detection {
    match result {
        Ok(text_data) => Detection::Text { text: text_data.data@, encoding: text_data.encoding },
        Err(error) => error.detection(),
    }
}

/// Tells whether `bytes` begins with `prefix`.
fn starts_with(bytes: &[u8], prefix: &[u8]) -> (found: bool)
    ensures
        found == prefix@.is_prefix_of(bytes@),
{
    if bytes.len() < prefix.len() {
        return false;
    }
    let mut i: usize = 0;
    while i < prefix.len()
        invariant
            i <= prefix@.len() <= bytes@.len(),
            forall|j: int| 0 <= j < i ==> prefix@[j] == bytes@[j],
        decreases prefix@.len() - i,
    {
        if bytes[i] != prefix[i] {
            assert(bytes@.subrange(0, prefix@.len() as int)[i as int] != prefix@[i as int]);
            return false;
        }
        i = i + 1;
    }
    assert(prefix@ =~= bytes@.subrange(0, prefix@.len() as int));
    true
}

/// Tells whether a zero byte stands among the first [`BINARY_DETECTION_THRESHOLD`] bytes.
///
/// Bytes past that window are never read, so the cost is bounded whatever the
/// length of the buffer. The empty buffer is not binary.
pub fn is_binary(bytes: &[u8]) -> (binary: bool)
    ensures
        binary == looks_binary(bytes@),
{
    let window: usize = if bytes.len() < BINARY_DETECTION_THRESHOLD {
        bytes.len()
    } else {
        BINARY_DETECTION_THRESHOLD
    };
    let mut i: usize = 0;
    while i < window
        invariant
            i <= window <= bytes@.len(),
            window <= BINARY_DETECTION_THRESHOLD,
            window == bytes@.len() || window == BINARY_DETECTION_THRESHOLD,
            forall|j: int| 0 <= j < i ==> bytes@[j] != ZERO_BYTE,
        decreases window - i,
    {
        if bytes[i] == ZERO_BYTE {
            return true;
        }
        i = i + 1;
    }
    false
}

/// Decodes bytes that are committed to UTF-8.
fn decode_as_utf8(bytes: &[u8], encoding: Encoding) -> (result: Result<TextData, TextDataError>)
    ensures
        outcome(result) == detect_utf8(bytes@, encoding),
{
    match String::from_utf8(slice_to_vec(bytes)) {
        Ok(data) => Ok(TextData { data, encoding }),
        Err(error) => Err(TextDataError::FromUtf8(error)),
    }
}

/// Decodes bytes that are committed to UTF-16 in the given byte order.
fn decode_as_utf16(bytes: &[u8], order: ByteOrder, encoding: Encoding) -> (result: Result<
    TextData,
    TextDataError,
>)
    ensures
        outcome(result) == detect_utf16(bytes@, order, encoding),
{
    let packed = match order {
        ByteOrder::Big => to_u16_be(bytes),
        ByteOrder::Little => to_u16_le(bytes),
    };
    match packed {
        Err(error) => Err(TextDataError::UnevenByteSequence(error)),
        Ok(units) => match String::from_utf16(units.as_slice()) {
            Ok(data) => Ok(TextData { data, encoding }),
            Err(error) => Err(TextDataError::FromUtf16(error)),
        },
    }
}

impl TextData {
    /// Detects the encoding of `bytes` and decodes them.
    ///
    /// The result is `Ok` exactly when [`detect`] finds text, and then holds
    /// that text and its encoding; otherwise the error names the failure that
    /// [`detect`] reports. Binary content comes back as
    /// [`TextDataError::Binary`], never as empty text.
    pub fn try_from(bytes: &[u8]) -> (result: Result<TextData, TextDataError>)
        ensures
            outcome(result) == detect(bytes@),
    {
        if starts_with(bytes, UTF8_BOM.as_slice()) {
            decode_as_utf8(
                slice_subrange(bytes, UTF8_BOM_LENGTH, bytes.len()),
                Encoding::Utf8WithBom,
            )
        } else if starts_with(bytes, UTF16BE_BOM.as_slice()) {
            decode_as_utf16(
                slice_subrange(bytes, UTF16_BOM_LENGTH, bytes.len()),
                ByteOrder::Big,
                Encoding::Utf16Be,
            )
        } else if starts_with(bytes, UTF16LE_BOM.as_slice()) {
            decode_as_utf16(
                slice_subrange(bytes, UTF16_BOM_LENGTH, bytes.len()),
                ByteOrder::Little,
                Encoding::Utf16Le,
            )
        } else if is_binary(bytes) {
            Err(TextDataError::Binary)
        } else {
            decode_as_utf8(bytes, Encoding::Utf8)
        }
    }
}

} // verus!
