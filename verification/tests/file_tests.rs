use file_content::file::show;
use file_content::{read_from_reader, Encoding, File, FileContent, FileError, TextData, TextDataError};

const FILE_CONTENT: &str = "Hello! 你好! 🌍";

fn load_encoded(bytes: &[u8], encoding: Encoding) {
    let subject = File::new("foo.txt", Ok(bytes.to_vec())).expect("Should pass");
    let expected = File {
        path: "foo.txt".into(),
        content: FileContent::Encoded {
            content: TextData {
                data: "Hello!".into(),
                encoding,
            },
        },
    };
    assert_eq!(subject, expected);
}

#[test]
fn load_from_encoded_content_utf8() {
    load_encoded(b"Hello!", Encoding::Utf8);
}

#[test]
fn load_from_encoded_content_utf8_with_bom() {
    load_encoded(b"\xEF\xBB\xBFHello!", Encoding::Utf8WithBom);
}

#[test]
fn load_from_encoded_content_utf16be() {
    load_encoded(b"\xFE\xFF\x00H\x00e\x00l\x00l\x00o\x00!", Encoding::Utf16Be);
}

#[test]
fn load_from_encoded_content_utf16le() {
    load_encoded(b"\xFF\xFEH\x00e\x00l\x00l\x00o\x00!\x00", Encoding::Utf16Le);
}

#[test]
fn load_from_binary() {
    let bytes: &[u8] = &[1, 2, 3, 0, 4, 5];
    let subject = File::new("foo.txt", Ok(bytes.to_vec())).expect("Should pass");
    let expected = File {
        path: "foo.txt".into(),
        content: FileContent::Binary {
            content: (*bytes).to_vec(),
        },
    };

    assert_eq!(subject, expected);
}

#[test]
fn load_uneven_utf16_is_an_error() {
    let subject = File::new("foo.txt", Ok(vec![0xFE, 0xFF, 0x00]));
    assert!(matches!(
        subject,
        Err(FileError::TextData(TextDataError::UnevenByteSequence(_)))
    ));
    let subject = File::new("foo.txt", Ok(vec![0xFF, 0xFE, 0x00]));
    assert!(matches!(
        subject,
        Err(FileError::TextData(TextDataError::UnevenByteSequence(_)))
    ));
}

#[test]
fn load_malformed_utf16_is_an_error() {
    let subject = File::new("broken", Ok(b"\xFE\xFF\xD8\x3D".to_vec()));
    assert!(matches!(
        subject,
        Err(FileError::TextData(TextDataError::FromUtf16(_)))
    ));
    let subject = File::new("broken", Ok(b"\xFF\xFE\x3D\xD8".to_vec()));
    assert!(matches!(
        subject,
        Err(FileError::TextData(TextDataError::FromUtf16(_)))
    ));
    // zero bytes behind the mark do not turn the failure into binary content
    let subject = File::new("broken", Ok(b"\xFF\xFE\x00\x00\x00\xD8".to_vec()));
    assert!(matches!(
        subject,
        Err(FileError::TextData(TextDataError::FromUtf16(_)))
    ));
}

#[test]
fn load_malformed_utf8_is_an_error() {
    let subject = File::new("broken", Ok(b"\xC1\x80".to_vec()));
    assert!(matches!(
        subject,
        Err(FileError::TextData(TextDataError::FromUtf8(_)))
    ));
    let subject = File::new("broken", Ok(b"\xEF\xBB\xBF\xC1\x80".to_vec()));
    assert!(matches!(
        subject,
        Err(FileError::TextData(TextDataError::FromUtf8(_)))
    ));
    // a zero byte behind the UTF-8 mark does not turn the failure into binary content
    let subject = File::new("broken", Ok(b"\xEF\xBB\xBF\x00\xFF".to_vec()));
    assert!(matches!(
        subject,
        Err(FileError::TextData(TextDataError::FromUtf8(_)))
    ));
}

#[test]
fn load_unmarked_zero_byte_is_binary_content() {
    // without a mark the zero byte decides before UTF-8 is looked at
    let bytes = b"\xC1\x80\x00".to_vec();
    let subject = File::new("blob", Ok(bytes.clone())).expect("Should pass");
    assert_eq!(subject.content, FileContent::Binary { content: bytes });
}

#[test]
fn load_passes_a_failed_read_on() {
    let failure = std::io::Error::new(std::io::ErrorKind::PermissionDenied, "no access");
    let subject = File::new("foo.txt", Err(failure));
    match subject {
        Err(FileError::Io(error)) => {
            assert_eq!(error.kind(), std::io::ErrorKind::PermissionDenied);
            assert_eq!(error.to_string(), "no access");
        }
        _ => panic!("a failed read must come back as an I/O error"),
    }
}

fn written(content: &FileContent) -> Vec<u8> {
    let mut buffer = Vec::new();
    content.write(&mut buffer);
    buffer
}

fn save_encoded(expected_bytes: &[u8], encoding: Encoding) {
    let file = File {
        path: "unicode".into(),
        content: FileContent::Encoded {
            content: TextData {
                data: FILE_CONTENT.into(),
                encoding,
            },
        },
    };
    assert_eq!(written(&file.content), expected_bytes);
}

#[test]
fn save_encoded_content_utf8() {
    save_encoded(
        b"Hello! \xE4\xBD\xA0\xE5\xA5\xBD! \xF0\x9F\x8C\x8D",
        Encoding::Utf8,
    );
}

#[test]
fn save_encoded_content_utf8_with_bom() {
    save_encoded(
        b"\xEF\xBB\xBFHello! \xE4\xBD\xA0\xE5\xA5\xBD! \xF0\x9F\x8C\x8D",
        Encoding::Utf8WithBom,
    );
}

#[test]
fn save_encoded_content_utf16be() {
    save_encoded(
        b"\xFE\xFF\x00H\x00e\x00l\x00l\x00o\x00!\x00 \x4F\x60\x59\x7D\x00!\x00 \xD8\x3C\xDF\x0D",
        Encoding::Utf16Be,
    );
}

#[test]
fn save_encoded_content_utf16le() {
    save_encoded(
        b"\xFF\xFEH\x00e\x00l\x00l\x00o\x00!\x00 \x00\x60\x4F\x7D\x59!\x00 \x00\x3C\xD8\x0D\xDF",
        Encoding::Utf16Le,
    );
}

#[test]
fn save_binary_content() {
    let bytes: &[u8] = &[1, 2, 3, 0, 4, 5];
    let file_content = File {
        path: "binary".into(),
        content: FileContent::Binary {
            content: bytes.to_vec(),
        },
    };

    let bytes_after_saving = written(&file_content.content);

    assert_eq!(bytes, bytes_after_saving);
}

#[test]
fn write_appends_to_what_the_writer_holds() {
    let mut buffer = vec![9, 9];
    let content = FileContent::Encoded {
        content: TextData {
            data: "He".into(),
            encoding: Encoding::Utf16Le,
        },
    };
    content.write(&mut buffer);
    assert_eq!(buffer, [9, 9, 0xFF, 0xFE, 0x48, 0x00, 0x65, 0x00]);
    FileContent::Binary { content: vec![7] }.write(&mut buffer);
    assert_eq!(buffer, [9, 9, 0xFF, 0xFE, 0x48, 0x00, 0x65, 0x00, 7]);
}

#[test]
fn loading_then_saving_gives_the_bytes_back() {
    let inputs: [&[u8]; 11] = [
        b"",
        b"Hello!",
        b"\xEF\xBB\xBF",
        b"\xEF\xBB\xBFHello!",
        b"\xEF\xBB\xBF\xEF\xBB\xBFtwice",
        b"\xFE\xFF",
        b"\xFE\xFF\x00H\xD8\x3D\xDE\x0A",
        b"\xFF\xFE",
        b"\xFF\xFEH\x00\x3D\xD8\x0A\xDE",
        b"\x01\x02\x03\x00\x04\x05",
        b"\xFF\x00\xFE",
    ];
    for bytes in inputs {
        let file = File::new("any", Ok(bytes.to_vec())).expect("Should pass");
        assert_eq!(written(&file.content), bytes);
    }
}

#[test]
fn read_from_reader_gives_the_text() {
    let text = read_from_reader(Ok(b"\xFE\xFF\x00H\x00e".to_vec())).expect("Should pass");
    assert_eq!(text, "He");
    let text = read_from_reader(Ok(FILE_CONTENT.as_bytes().to_vec())).expect("Should pass");
    assert_eq!(text, FILE_CONTENT);
    let text = read_from_reader(Ok(Vec::new())).expect("Should pass");
    assert_eq!(text, "");
}

#[test]
fn read_from_reader_reports_what_detection_found() {
    assert!(matches!(
        read_from_reader(Ok(vec![1, 2, 3, 0, 4, 5])),
        Err(FileError::TextData(TextDataError::Binary))
    ));
    assert!(matches!(
        read_from_reader(Ok(vec![0xC1, 0x80])),
        Err(FileError::TextData(TextDataError::FromUtf8(_)))
    ));
    assert!(matches!(
        read_from_reader(Ok(vec![0xFE, 0xFF, 0xD8, 0x3D])),
        Err(FileError::TextData(TextDataError::FromUtf16(_)))
    ));
    assert!(matches!(
        read_from_reader(Ok(vec![0xFF, 0xFE, 0x00])),
        Err(FileError::TextData(TextDataError::UnevenByteSequence(_)))
    ));
}

#[test]
fn read_from_reader_passes_a_failed_read_on() {
    let failure = std::io::Error::new(std::io::ErrorKind::UnexpectedEof, "cut short");
    match read_from_reader(Err(failure)) {
        Err(FileError::Io(error)) => assert_eq!(error.kind(), std::io::ErrorKind::UnexpectedEof),
        _ => panic!("a failed read must come back as an I/O error"),
    }
}

#[test]
fn show_encoded_file() {
    let file = File::new("notes.txt", Ok(b"\xFF\xFEH\x00i\x00".to_vec())).expect("Should pass");
    assert_eq!(
        file.to_string(),
        "File: notes.txt\nEncoding: UTF-16-LE\nContent:\nHi"
    );
    let file = File::new("plain", Ok(FILE_CONTENT.as_bytes().to_vec())).expect("Should pass");
    assert_eq!(
        file.to_string(),
        format!("File: plain\nEncoding: UTF-8\nContent:\n{}", FILE_CONTENT)
    );
}

#[test]
fn show_binary_file() {
    let file = File::new("blob", Ok(vec![1, 2, 3, 0, 4, 5])).expect("Should pass");
    assert_eq!(
        file.to_string(),
        "File: blob\nEncoding: Binary\nContent:\n[1, 2, 3, 0, 4, 5]"
    );
    let file = File {
        path: "edge".into(),
        content: FileContent::Binary {
            content: vec![0, 9, 10, 99, 100, 101, 200, 255],
        },
    };
    assert_eq!(
        file.to_string(),
        "File: edge\nEncoding: Binary\nContent:\n[0, 9, 10, 99, 100, 101, 200, 255]"
    );
    let file = File {
        path: "empty".into(),
        content: FileContent::Binary { content: vec![] },
    };
    assert_eq!(file.to_string(), "File: empty\nEncoding: Binary\nContent:\n[]");
}

#[test]
fn binary_bytes_are_shown_as_the_standard_list() {
    let every_byte: Vec<u8> = (0u8..=255).collect();
    let file = File {
        path: "all".into(),
        content: FileContent::Binary {
            content: every_byte.clone(),
        },
    };
    assert_eq!(
        file.to_string(),
        format!("File: all\nEncoding: Binary\nContent:\n{:?}", every_byte)
    );
}

#[test]
fn show_content_under_any_path() {
    let content = FileContent::Encoded {
        content: TextData {
            data: "two\nlines".into(),
            encoding: Encoding::Utf8WithBom,
        },
    };
    assert_eq!(
        show("dir/with space.txt", &content),
        "File: dir/with space.txt\nEncoding: UTF-8-BOM\nContent:\ntwo\nlines"
    );
    assert_eq!(
        show("", &FileContent::Binary { content: vec![255] }),
        "File: \nEncoding: Binary\nContent:\n[255]"
    );
}

#[test]
fn marked_buffers_never_load_as_binary_content() {
    let inputs: [&[u8]; 9] = [
        b"\xEF\xBB\xBF\x00",
        b"\xEF\xBB\xBF\x00\xFF",
        b"\xFE\xFF\x00\x00",
        b"\xFE\xFF\x00",
        b"\xFE\xFF\x00\x00\xDC\x00",
        b"\xFF\xFE\x00\x00",
        b"\xFF\xFE\x00",
        b"\xFF\xFE\x00\x00\x00\xDC",
        b"\xFF\xFE",
    ];
    for bytes in inputs {
        match File::new("marked", Ok(bytes.to_vec())) {
            Ok(file) => assert!(matches!(file.content, FileContent::Encoded { .. })),
            Err(error) => assert!(matches!(error, FileError::TextData(_))),
        }
    }
}
