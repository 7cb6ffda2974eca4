//! A file as a path paired with its content, text or binary.

use crate::encoding::{encode, encoded, Encoding};
use crate::guarantees::theorem_store_loaded;
use crate::text_data::{detect, Detection, TextData, TextDataError};
use vstd::prelude::*;

verus! {

/// What a file holds.
#[derive(Debug, PartialEq)]
#[allow(inconsistent_fields)]
pub enum FileContent {
    /// Text in one of the recognised encodings.
    Encoded { content: TextData },
    /// Binary data, kept as it is.
    Binary { content: Vec<u8> },
}

/// A path together with the content found there.
#[derive(Debug, PartialEq)]
pub struct File {
    /// Where the content belongs.
    pub path: String,
    /// The content itself.
    pub content: FileContent,
}

/// Why a file could not be read as text.
#[derive(Debug)]
pub enum FileError {
    /// Reading the bytes failed.
    Io(std::io::Error),
    /// The bytes were read and are not text in a recognised encoding.
    TextData(TextDataError),
}

/// The content of a file as a mathematical value.
pub enum Content {
    /// The characters of a text and the encoding that its bytes are in.
    Encoded { text: Seq<char>, encoding: Encoding },
    /// Bytes without an interpretation.
    Binary { bytes: Seq<u8> },
}

/// A file as a mathematical value.
pub struct FileView {
    /// The characters of the path.
    pub path: Seq<char>,
    /// The content.
    pub content: Content,
}

impl View for FileContent {
    type V = Content;

    open spec fn view(&self) -> Content {
        match self {
            FileContent::Encoded { content } => Content::Encoded {
                text: content.data@,
                encoding: content.encoding,
            },
            FileContent::Binary { content } => Content::Binary { bytes: content@ },
        }
    }
}

impl View for File {
    type V = FileView;

    open spec fn view(&self) -> FileView {
        FileView { path: self.path@, content: self.content@ }
    }
}

/// The content found in `bytes`, where there is any: the decoded text where
/// detection finds text, and the unchanged bytes where detection finds
/// binary data. Bytes that are committed to an encoding and fail its
/// validation hold no content.
pub open spec fn content_of(bytes: Seq<u8>) -> Option<Content> {
    match detect(bytes) {
        Detection::Text { text, encoding } => Some(Content::Encoded { text, encoding }),
        Detection::Binary => Some(Content::Binary { bytes }),
        _ => None,
    }
}

/// The bytes that store `content`: text in its own encoding behind the
/// byte-order mark of that encoding, binary content as it is.
pub open spec fn stored(content: Content) -> Seq<u8> {
    match content {
        Content::Encoded { text, encoding } => encoded(text, encoding),
        Content::Binary { bytes } => bytes,
    }
}

/// The character for the decimal digit `value`.
pub open spec fn digit(value: u8) -> char
    recommends
        value < 10,
{
    (48 + value) as char
}

/// The decimal numeral of `byte`, without leading zeros.
pub open spec fn decimal(byte: u8) -> Seq<char> {
    if byte < 10 {
        seq![digit(byte)]
    } else if byte < 100 {
        seq![digit(byte / 10), digit(byte % 10)]
    } else {
        seq![digit(byte / 100), digit(byte / 10 % 10), digit(byte % 10)]
    }
}

/// The numerals of `bytes`, separated by a comma and a space.
pub open spec fn listed(bytes: Seq<u8>) -> Seq<char>
    decreases bytes.len(),
{
    if bytes.len() == 0 {
        Seq::empty()
    } else if bytes.len() == 1 {
        decimal(bytes[0])
    } else {
        listed(bytes.drop_last()) + seq![',', ' '] + decimal(bytes.last())
    }
}

/// `bytes` written as a list of numerals in square brackets, such as `[1, 2, 3]`.
pub open spec fn bracketed(bytes: Seq<u8>) -> Seq<char> {
    seq!['['] + listed(bytes) + seq![']']
}

/// What `content` looks like when shown under `path`: the path, the name of
/// the encoding, and the text or, for binary content, the bytes as a list.
pub open spec fn shown(path: Seq<char>, content: Content) -> Seq<char> {
    match content {
        Content::Encoded { text, encoding } => "File: "@ + path + "\nEncoding: "@
            + encoding.label() + "\nContent:\n"@ + text,
        Content::Binary { bytes } => "File: "@ + path + "\nEncoding: Binary\nContent:\n"@
            + bracketed(bytes),
    }
}

/// Gives the character for a decimal digit.
fn digit_char(value: u8) -> (c: char)
    requires
        value < 10,
    ensures
        c == digit(value),
{
    (48 + value) as char
}

/// Appends the decimal numeral of `byte`.
fn push_decimal(text: &mut String, byte: u8)
    ensures
        final(text)@ == old(text)@ + decimal(byte),
{
    if byte >= 100 {
        text.push(digit_char(byte / 100));
    }
    if byte >= 10 {
        text.push(digit_char(byte / 10 % 10));
    }
    text.push(digit_char(byte % 10));
    assert(text@ =~= old(text)@ + decimal(byte));
}

/// Appends `bytes` as a bracketed list of numerals.
fn push_bracketed(text: &mut String, bytes: &[u8])
    ensures
        final(text)@ == old(text)@ + bracketed(bytes@),
{
    text.push('[');
    let mut i: usize = 0;
    while i < bytes.len()
        invariant
            i <= bytes@.len(),
            text@ == old(text)@ + seq!['['] + listed(bytes@.take(i as int)),
        decreases bytes@.len() - i,
    {
        if i > 0 {
            text.push(',');
            text.push(' ');
        }
        push_decimal(text, bytes[i]);
        proof {
            let done = bytes@.take(i as int + 1);
            assert(done.drop_last() =~= bytes@.take(i as int));
            assert(done.last() == bytes@[i as int]);
            assert(text@ =~= old(text)@ + seq!['['] + listed(done));
        }
        i = i + 1;
    }
    text.push(']');
    assert(bytes@.take(i as int) =~= bytes@);
    assert(text@ =~= old(text)@ + bracketed(bytes@));
}

/// Shows `content` under `path`: the path, the name of the encoding, and the content.
pub fn show(path: &str, content: &FileContent) -> (text: String)
    ensures
        text@ == shown(path@, content@),
{
    let mut text = "File: ".to_owned();
    text.append(path);
    match content {
        FileContent::Encoded { content } => {
            text.append("\nEncoding: ");
            text.append(content.encoding.to_string().as_str());
            text.append("\nContent:\n");
            text.append(content.data.as_str());
        },
        FileContent::Binary { content } => {
            text.append("\nEncoding: Binary\nContent:\n");
            push_bracketed(&mut text, content.as_slice());
        },
    }
    text
}

impl FileContent {
    /// Appends to `writer` the bytes that store this content.
    ///
    /// Text is written in its own encoding, behind the byte-order mark of
    /// that encoding; binary content is copied as it is.
    pub fn write(&self, writer: &mut Vec<u8>)
        ensures
            final(writer)@ == old(writer)@ + stored(self@),
    {
        match self {
            FileContent::Encoded { content } => {
                let mut bytes = encode(content.data.as_str(), content.encoding);
                writer.append(&mut bytes);
            },
            FileContent::Binary { content } => {
                writer.extend_from_slice(content.as_slice());
                assert(writer@ =~= old(writer)@ + content@);
            },
        }
    }
}

impl File {
    /// Pairs `path` with the content found in the bytes that were read.
    ///
    /// A failed read is handed on as it is. Bytes that were read give a file
    /// with text where detection finds text, and a file with the unchanged
    /// bytes where detection finds binary data; writing the content out
    /// again gives back the bytes that were read. Bytes that fail the
    /// validation they are committed to, behind a byte-order mark or as
    /// plain UTF-8, give the error of that failure and no file.
    pub fn new(path: &str, input: Result<Vec<u8>, std::io::Error>) -> (result: Result<
        File,
        FileError,
    >)
        ensures
            match input {
                Ok(bytes) => match content_of(bytes@) {
                    Some(content) => {
                        &&& result matches Ok(file)
                        &&& file@ == (FileView { path: path@, content })
                        &&& stored(file@.content) == bytes@
                    },
                    None => {
                        &&& result matches Err(FileError::TextData(error))
                        &&& error.detection() == detect(bytes@)
                    },
                },
                Err(error) => result matches Err(FileError::Io(passed)) && passed == error,
            },
    {
        let bytes = match input {
            Ok(bytes) => bytes,
            Err(error) => {
                return Err(FileError::Io(error));
            },
        };
        proof {
            theorem_store_loaded(bytes@);
        }
        let content = match TextData::try_from(bytes.as_slice()) {
            Ok(content) => FileContent::Encoded { content },
            Err(TextDataError::Binary) => FileContent::Binary { content: bytes },
            Err(error) => {
                return Err(FileError::TextData(error));
            },
        };
        Ok(File { path: path.to_owned(), content })
    }

    /// Shows the file: its path, the name of its encoding, and its content.
    pub fn to_string(&self) -> (text: String)
        ensures
            text@ == shown(self@.path, self@.content),
    {
        show(self.path.as_str(), &self.content)
    }
}

/// Gives the text found in the bytes that were read.
///
/// A failed read is handed on as it is. Bytes that were read give their text
/// exactly when detection finds text in them; otherwise the error says
/// what detection found instead.
pub fn read_from_reader(input: Result<Vec<u8>, std::io::Error>) -> (result: Result<
    String,
    FileError,
>)
    ensures
        match input {
            Ok(bytes) => match detect(bytes@) {
                Detection::Text { text, .. } => result matches Ok(found) && found@ == text,
                other => result matches Err(FileError::TextData(error)) && error.detection()
                    == other,
            },
            Err(error) => result matches Err(FileError::Io(passed)) && passed == error,
        },
{
    match input {
        Err(error) => Err(FileError::Io(error)),
        Ok(bytes) => match TextData::try_from(bytes.as_slice()) {
            Ok(text_data) => Ok(text_data.data),
            Err(error) => Err(FileError::TextData(error)),
        },
    }
}

} // verus!
