//! What this crate takes on trust from the standard library.
//!
//! The contracts below are believed, not proved: they say of three functions
//! of `String` what their documentation says, over the definitions of UTF-8
//! in `vstd::utf8` and of UTF-16 in [`crate::code_units`]. The three error
//! types are only named, so that values of them can be handed on.

use crate::code_units::{decode_utf16, valid_utf16};
use vstd::prelude::*;
use vstd::utf8::{decode_utf8, valid_utf8};

verus! {

/// `std::string::FromUtf8Error`, the error of `String::from_utf8`. Nothing is
/// claimed of its contents.
#[verifier::external_type_specification]
#[verifier::external_body]
pub struct ExFromUtf8Error(std::string::FromUtf8Error);

/// `std::string::FromUtf16Error`, the error of `String::from_utf16`. Nothing
/// is claimed of its contents.
#[verifier::external_type_specification]
#[verifier::external_body]
pub struct ExFromUtf16Error(std::string::FromUtf16Error);

/// `std::io::Error`, the error of a failed read. Nothing is claimed of its contents.
#[verifier::external_type_specification]
#[verifier::external_body]
pub struct ExIoError(std::io::Error);

/// `String::push` appends the given character to the end of the string and
/// leaves the characters before it as they were.
pub assume_specification[ String::push ](s: &mut String, ch: char)
    ensures
        final(s)@ == old(s)@.push(ch),
;

/// `String::from_utf8` checks that the bytes are UTF-8 and turns them into a
/// string without changing them. It is taken to succeed exactly on the byte
/// sequences that are valid UTF-8, and then to return the text they encode.
pub assume_specification[ String::from_utf8 ](vec: Vec<u8>) -> (result: Result<
    String,
    std::string::FromUtf8Error,
>)
    ensures
        result is Ok <==> valid_utf8(vec@),
        result matches Ok(text) ==> text@ == decode_utf8(vec@),
;

/// `String::from_utf16` decodes 16-bit units and fails on any invalid data.
/// It is taken to succeed exactly on well-formed UTF-16, where every
/// surrogate is half of a high-low pair, and then to return the decoded text.
pub assume_specification[ String::from_utf16 ](v: &[u16]) -> (result: Result<
    String,
    std::string::FromUtf16Error,
>)
    ensures
        result is Ok <==> valid_utf16(v@),
        result matches Ok(text) ==> text@ == decode_utf16(v@),
;

} // verus!
